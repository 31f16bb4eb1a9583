//! Shapes, the containers that own them, and the markup they render to.

use vstd::prelude::*;

pub mod circle;
pub mod error;
pub mod grid;
pub mod group;
pub mod path;
pub mod rect;
pub mod scalar;
pub mod shape;
pub mod text;

pub use circle::{Circle, CircleView};
pub use error::SvgError;
pub use grid::{CoordinateSystem, Grid, GridView};
pub use group::{Group, GroupView};
pub use path::{Path, PathView};
pub use rect::{Rect, RectView};
pub use scalar::Scalar;
pub use shape::{Shape, ShapeView};
use text::{append_nat, join_text, nat_text};

verus! {

/// A position in the plane. Two points are equal if their coordinates are.
#[derive(Clone, Copy, Debug, PartialEq, Eq, Structural)]
pub struct Point {
    pub x: Scalar,
    pub y: Scalar,
}

/// The kinds of shape that a scene can hold.
#[derive(Clone, Copy, Debug, PartialEq, Eq, Structural)]
pub enum ShapeKind {
    Rect,
    Circle,
    Path,
}

impl ShapeKind {
    /// The kind's name as diagnostics show it.
    pub open spec fn name_text(self) -> Seq<char> {
        match self {
            ShapeKind::Rect => "Rect"@,
            ShapeKind::Circle => "Circle"@,
            ShapeKind::Path => "Path"@,
        }
    }

    /// The kind's name as diagnostics show it.
    pub fn name(&self) -> (name: &'static str)
        ensures
            name@ == self.name_text(),
    {
        match self {
            ShapeKind::Rect => "Rect",
            ShapeKind::Circle => "Circle",
            ShapeKind::Path => "Path",
        }
    }
}

/// What a shape is resized to. Each kind of shape takes one of the variants:
/// a circle a radius, a rectangle a width and a height, a path the index of
/// one of its points and that point's new position.
#[derive(Clone, Copy, Debug, PartialEq, Eq, Structural)]
pub enum Dimensions {
    Single(Scalar),
    Double(Scalar, Scalar),
    IndexPosition(usize, Scalar, Scalar),
}

impl Dimensions {
    /// The value as diagnostics show it: the variant's name and its fields in
    /// parentheses, numbers always with a fractional part.
    pub open spec fn text(self) -> Seq<char> {
        match self {
            Dimensions::Single(r) => "Single("@ + r.debug_text() + ")"@,
            Dimensions::Double(w, h) => "Double("@ + w.debug_text() + ", "@ + h.debug_text() + ")"@,
            Dimensions::IndexPosition(i, x, y) => "IndexPosition("@ + nat_text(i as nat) + ", "@
                + x.debug_text() + ", "@ + y.debug_text() + ")"@,
        }
    }

    /// Appends the diagnostic notation of the value to `out`.
    pub fn append_to(&self, out: &mut String)
        ensures
            final(out)@ == old(out)@ + self.text(),
    {
        match self {
            Dimensions::Single(r) => {
                out.append("Single(");
                r.append_debug_to(out);
                out.append(")");
            },
            Dimensions::Double(w, h) => {
                out.append("Double(");
                w.append_debug_to(out);
                out.append(", ");
                h.append_debug_to(out);
                out.append(")");
            },
            Dimensions::IndexPosition(i, x, y) => {
                out.append("IndexPosition(");
                append_nat(out, *i as u64);
                out.append(", ");
                x.append_debug_to(out);
                out.append(", ");
                y.append_debug_to(out);
                out.append(")");
            },
        }
        assert(out@ =~= old(out)@ + self.text());
    }

    /// The value as diagnostics show it, such as `Double(1.0, 2.5)`.
    pub fn to_string(&self) -> (s: String)
        ensures
            s@ == self.text(),
    {
        let mut s = String::new();
        self.append_to(&mut s);
        assert(s@ =~= self.text());
        s
    }
}

/// What every shape offers: an identity, its markup, and the two ways to
/// change it in place.
pub trait SVG: View {
    /// The identity that the shape was given when it was made.
    spec fn uuid_text(&self) -> Seq<char>;

    /// The markup that the shape renders to.
    spec fn markup(&self) -> Seq<char>;

    /// Whether every coordinate of the shape, moved to `(x, y)`, can still be
    /// stored.
    spec fn can_move_to(&self, x: Scalar, y: Scalar) -> bool;

    /// The shape's value after a move to `(x, y)`.
    spec fn moved_to(&self, x: Scalar, y: Scalar) -> Self::V;

    /// The shape's value after a resize, or the reason why the shape does not
    /// take these dimensions.
    spec fn resized(&self, dims: Dimensions) -> Result<Self::V, SvgError>;

    /// The shape's identity.
    fn get_uuid(&self) -> (id: String)
        ensures
            id@ == self.uuid_text(),
    ;

    /// The shape's markup.
    fn to_html(&self) -> (html: String)
        ensures
            html@ == self.markup(),
    ;

    /// Moves the shape to `(x, y)`. A rectangle or a circle has its origin
    /// set there. A path has its first point set there and every other
    /// point shifted by the same distance, which asks that all of them can
    /// still be stored afterwards.
    fn move_to(&mut self, x: Scalar, y: Scalar)
        requires
            old(self).can_move_to(x, y),
        ensures
            final(self)@ == old(self).moved_to(x, y),
    ;

    /// Resizes the shape, if it takes dimensions of this variant, and leaves
    /// it as it is if it does not.
    fn resize(&mut self, dims: Dimensions) -> (r: Result<(), SvgError>)
        ensures
            match old(self).resized(dims) {
                Ok(v) => r is Ok && final(self)@ == v,
                Err(e) => r == Err::<(), SvgError>(e) && final(self)@ == old(self)@,
            },
    ;
}

/// One attribute of an element: the name, and the value in double quotes.
pub open spec fn attribute_text(name: Seq<char>, value: Seq<char>) -> Seq<char> {
    name + "=\""@ + value + "\""@
}

/// The names and values of a list of attributes.
pub open spec fn attribute_views(attrs: Seq<(&str, String)>) -> Seq<(Seq<char>, Seq<char>)> {
    attrs.map_values(|a: (&str, String)| (a.0@, a.1@))
}

/// The attributes in order, each as `attribute_text` writes it.
pub open spec fn attribute_texts(attrs: Seq<(Seq<char>, Seq<char>)>) -> Seq<Seq<char>> {
    attrs.map_values(|a: (Seq<char>, Seq<char>)| attribute_text(a.0, a.1))
}

/// An element without content: the opening tag with the attributes, a space
/// between each two, directly followed by the closing tag.
pub open spec fn element_text(tag: Seq<char>, attrs: Seq<(Seq<char>, Seq<char>)>) -> Seq<char> {
    "<"@ + tag + " "@ + join_text(attribute_texts(attrs), " "@) + "></"@ + tag + ">"@
}

/// Writes an element without content.
pub fn html_element(tag: &str, attrs: Vec<(&str, String)>) -> (html: String)
    ensures
        html@ == element_text(tag@, attribute_views(attrs@)),
{
    let ghost texts = attribute_texts(attribute_views(attrs@));
    let mut html = String::new();
    html.append("<");
    html.append(tag);
    html.append(" ");
    let n: usize = attrs.len();
    let mut i: usize = 0;
    while i < n
        invariant
            0 <= i <= n,
            n == attrs.len(),
            texts == attribute_texts(attribute_views(attrs@)),
            html@ == "<"@ + tag@ + " "@ + join_text(texts.take(i as int), " "@),
        decreases n - i,
    {
        if i > 0 {
            html.append(" ");
        }
        html.append(attrs[i].0);
        html.append("=\"");
        html.append(attrs[i].1.as_str());
        html.append("\"");
        proof {
            let after = texts.take(i + 1);
            assert(after.drop_last() =~= texts.take(i as int));
            assert(after.last() == attribute_text(attrs[i as int].0@, attrs[i as int].1@));
            assert(html@ =~= "<"@ + tag@ + " "@ + join_text(after, " "@));
        }
        i += 1;
    }
    html.append("></");
    html.append(tag);
    html.append(">");
    proof {
        assert(texts.take(n as int) =~= texts);
        assert(html@ =~= element_text(tag@, attribute_views(attrs@)));
    }
    html
}

} // verus!
