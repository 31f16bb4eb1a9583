//! The closed set of shapes that a group can own.

use vstd::prelude::*;
use crate::utils::is_uuid_text;
use super::circle::{Circle, CircleView};
use super::path::{Path, PathView};
use super::rect::{Rect, RectView};
use super::text::{nat_text, same_text};
use super::{element_text, Dimensions, Point, Scalar, ShapeKind, SvgError, SVG};

verus! {

/// The name under which the kind of shape is asked for, if it is one.
pub open spec fn kind_of_name(name: Seq<char>) -> Option<ShapeKind> {
    if name == "rect"@ {
        Some(ShapeKind::Rect)
    } else if name == "circle"@ {
        Some(ShapeKind::Circle)
    } else if name == "path"@ {
        Some(ShapeKind::Path)
    } else {
        None
    }
}

/// The number zero.
pub open spec fn zero() -> Scalar {
    Scalar { millionths: 0 }
}

/// A shape as it is right after it was drawn at `(x, y)`: a rectangle or
/// circle without extent, or a path of the one point.
pub open spec fn fresh_shape(kind: ShapeKind, uuid: Seq<char>, x: Scalar, y: Scalar) -> ShapeView {
    match kind {
        ShapeKind::Rect => ShapeView::Rect(
            RectView { uuid, origin: Point { x, y }, width: zero(), height: zero() },
        ),
        ShapeKind::Circle => ShapeView::Circle(
            CircleView { uuid, origin: Point { x, y }, radius: zero() },
        ),
        ShapeKind::Path => ShapeView::Path(
            PathView {
                uuid,
                points: seq![Point { x, y }],
                starting_points: seq![0usize],
                active_point: None,
            },
        ),
    }
}

/// What a shape is, whatever its kind.
#[verifier::ext_equal]
pub enum ShapeView {
    Rect(RectView),
    Circle(CircleView),
    Path(PathView),
}

impl ShapeView {
    /// The kind of shape that this is.
    pub open spec fn kind(self) -> ShapeKind {
        match self {
            ShapeView::Rect(_) => ShapeKind::Rect,
            ShapeView::Circle(_) => ShapeKind::Circle,
            ShapeView::Path(_) => ShapeKind::Path,
        }
    }

    /// The identity that the shape was given when it was made.
    pub open spec fn uuid(self) -> Seq<char> {
        match self {
            ShapeView::Rect(r) => r.uuid,
            ShapeView::Circle(c) => c.uuid,
            ShapeView::Path(p) => p.uuid,
        }
    }

    /// The markup that the shape renders to.
    pub open spec fn markup(self) -> Seq<char> {
        match self {
            ShapeView::Rect(r) => r.markup(),
            ShapeView::Circle(c) => c.markup(),
            ShapeView::Path(p) => p.markup(),
        }
    }

    /// Whether the shape can be stored after a move to `(x, y)`: always,
    /// unless it is a path with a point that would leave the range.
    pub open spec fn can_move_to(self, x: Scalar, y: Scalar) -> bool {
        match self {
            ShapeView::Rect(_) => true,
            ShapeView::Circle(_) => true,
            ShapeView::Path(p) => p.can_move_to(x, y),
        }
    }

    /// The shape after a move to `(x, y)`: a rectangle or circle with its
    /// origin there, a path with its first point there and the others
    /// shifted along.
    pub open spec fn moved_to(self, x: Scalar, y: Scalar) -> ShapeView {
        match self {
            ShapeView::Rect(r) => ShapeView::Rect(r.moved_to(x, y)),
            ShapeView::Circle(c) => ShapeView::Circle(c.moved_to(x, y)),
            ShapeView::Path(p) => ShapeView::Path(p.moved_to(x, y)),
        }
    }

    /// The shape after a resize, or the reason why it does not take these
    /// dimensions.
    pub open spec fn resized(self, dims: Dimensions) -> Result<ShapeView, SvgError> {
        match self {
            ShapeView::Rect(r) => match r.resized(dims) {
                Ok(v) => Ok(ShapeView::Rect(v)),
                Err(e) => Err(e),
            },
            ShapeView::Circle(c) => match c.resized(dims) {
                Ok(v) => Ok(ShapeView::Circle(v)),
                Err(e) => Err(e),
            },
            ShapeView::Path(p) => match p.resized(dims) {
                Ok(v) => Ok(ShapeView::Path(v)),
                Err(e) => Err(e),
            },
        }
    }
}

/// Whether a shape of this kind takes dimensions of this variant: a
/// rectangle takes two numbers, a circle one, a path an index and a
/// position.
pub open spec fn takes(kind: ShapeKind, dims: Dimensions) -> bool {
    match kind {
        ShapeKind::Rect => dims is Double,
        ShapeKind::Circle => dims is Single,
        ShapeKind::Path => dims is IndexPosition,
    }
}

/// Dimensions of a variant that the shape does not take are refused with an
/// error that holds the shape's kind and the dimensions, and whose message
/// names both.
pub proof fn lemma_resize_wrong_variant(shape: ShapeView, dims: Dimensions)
    requires
        !takes(shape.kind(), dims),
    ensures
        shape.resized(dims) == Err::<ShapeView, SvgError>(
            SvgError::ResizeKindMismatch { kind: shape.kind(), dims },
        ),
        (SvgError::ResizeKindMismatch { kind: shape.kind(), dims }).message_text()
            == "Cannot resize "@ + shape.kind().name_text() + " with dimensions "@ + dims.text(),
{
}

/// Dimensions of the variant that the shape takes are accepted, unless they
/// name a point that a path does not have. What comes out is a shape of
/// the same kind under the same identity.
pub proof fn lemma_resize_right_variant(shape: ShapeView, dims: Dimensions)
    requires
        takes(shape.kind(), dims),
    ensures
        shape.resized(dims) is Err <==> (shape matches ShapeView::Path(p) && dims
            matches Dimensions::IndexPosition(i, _, _) && i >= p.points.len()),
        shape.resized(dims) matches Ok(after) ==> after.kind() == shape.kind() && after.uuid()
            == shape.uuid(),
{
}

/// A move leaves the kind and the identity of a shape alone, sets the
/// origin of a rectangle or circle and keeps its extent, and done again
/// with the same target changes nothing.
pub proof fn lemma_move_twice(shape: ShapeView, x: Scalar, y: Scalar)
    requires
        shape.can_move_to(x, y),
    ensures
        shape.moved_to(x, y).kind() == shape.kind(),
        shape.moved_to(x, y).uuid() == shape.uuid(),
        shape matches ShapeView::Rect(r) ==> shape.moved_to(x, y) == ShapeView::Rect(
            RectView { origin: Point { x, y }, ..r },
        ),
        shape matches ShapeView::Circle(c) ==> shape.moved_to(x, y) == ShapeView::Circle(
            CircleView { origin: Point { x, y }, ..c },
        ),
        shape.moved_to(x, y).can_move_to(x, y),
        shape.moved_to(x, y).moved_to(x, y) == shape.moved_to(x, y),
{
    if let ShapeView::Path(p) = shape {
        super::path::lemma_move_again_changes_nothing(p, x, y);
    }
}

/// The markup of a shape right after it was drawn at `(x, y)` shows that
/// position, and `0` for each extent: the attributes of a rectangle are
/// `x`, `y`, `width="0"` and `height="0"`, those of a circle `cx`, `cy` and
/// `r="0"`, and the data of a path is the one command `M x y`.
pub proof fn lemma_fresh_shape_markup(kind: ShapeKind, uuid: Seq<char>, x: Scalar, y: Scalar)
    ensures
        fresh_shape(kind, uuid, x, y).markup() == match kind {
            ShapeKind::Rect => element_text(
                "rect"@,
                seq![("x"@, x.text()), ("y"@, y.text()), ("width"@, "0"@), ("height"@, "0"@)],
            ),
            ShapeKind::Circle => element_text(
                "circle"@,
                seq![("cx"@, x.text()), ("cy"@, y.text()), ("r"@, "0"@)],
            ),
            ShapeKind::Path => element_text(
                "path"@,
                seq![("d"@, "M "@ + x.text() + " "@ + y.text())],
            ),
        },
{
    reveal_strlit("0");
    assert(zero().text() =~= "0"@) by {
        assert(nat_text(0) =~= seq!['0']);
    }
    if kind == ShapeKind::Path {
        reveal_strlit("M");
        reveal_strlit(" ");
        reveal_strlit("M ");
        let path = PathView {
            uuid,
            points: seq![Point { x, y }],
            starting_points: seq![0usize],
            active_point: None,
        };
        assert(path.starts()[0] == 0);
        assert(path.is_start(0));
        assert(path.segment_texts() =~= seq![path.segment_text(0)]);
        assert(path.path_data() =~= "M "@ + x.text() + " "@ + y.text());
    }
}

/// A shape of one of the kinds that a scene can hold.
pub enum Shape {
    Rect(Rect),
    Circle(Circle),
    Path(Path),
}

impl View for Shape {
    type V = ShapeView;

    open spec fn view(&self) -> ShapeView {
        match self {
            Shape::Rect(r) => ShapeView::Rect(r@),
            Shape::Circle(c) => ShapeView::Circle(c@),
            Shape::Path(p) => ShapeView::Path(p@),
        }
    }
}

impl Shape {
    /// A shape of the kind that goes by the name `kind`, as it is right after
    /// it was drawn at `(x, y)`, under a fresh identity. The names are
    /// `rect`, `circle` and `path`; any other is refused.
    pub fn create(kind: &str, x: Scalar, y: Scalar) -> (r: Result<Box<Shape>, SvgError>)
        ensures
            match kind_of_name(kind@) {
                Some(k) => r is Ok && r->Ok_0@ == fresh_shape(k, r->Ok_0@.uuid(), x, y)
                    && is_uuid_text(r->Ok_0@.uuid()),
                None => r matches Err(SvgError::InvalidShapeKind { name }) && name@ == kind@,
            },
    {
        if same_text(kind, "rect") {
            Ok(Rect::new(x, y, Scalar::zero(), Scalar::zero()).box_ptr())
        } else if same_text(kind, "circle") {
            Ok(Circle::new(x, y, Scalar::zero()).box_ptr())
        } else if same_text(kind, "path") {
            let mut points: Vec<Point> = Vec::new();
            points.push(Point { x, y });
            assert(points@ =~= seq![Point { x, y }]);
            match Path::from_points(points) {
                Ok(path) => Ok(path.box_ptr()),
                Err(e) => Err(e),
            }
        } else {
            Err(SvgError::InvalidShapeKind { name: kind.to_owned() })
        }
    }

    /// The kind of shape that this is.
    pub fn kind(&self) -> (kind: ShapeKind)
        ensures
            kind == self@.kind(),
    {
        match self {
            Shape::Rect(_) => ShapeKind::Rect,
            Shape::Circle(_) => ShapeKind::Circle,
            Shape::Path(_) => ShapeKind::Path,
        }
    }

    /// Whether `move_to` can take the shape to `(x, y)`: always for a
    /// rectangle or a circle, and for a path if all its points can still be
    /// stored after the move.
    pub fn fits_at(&self, x: Scalar, y: Scalar) -> (ok: bool)
        ensures
            ok == self@.can_move_to(x, y),
    {
        match self {
            Shape::Rect(_) => true,
            Shape::Circle(_) => true,
            Shape::Path(p) => p.fits_at(x, y),
        }
    }
}

impl SVG for Shape {
    open spec fn uuid_text(&self) -> Seq<char> {
        self@.uuid()
    }

    open spec fn markup(&self) -> Seq<char> {
        self@.markup()
    }

    open spec fn can_move_to(&self, x: Scalar, y: Scalar) -> bool {
        self@.can_move_to(x, y)
    }

    open spec fn moved_to(&self, x: Scalar, y: Scalar) -> ShapeView {
        self@.moved_to(x, y)
    }

    open spec fn resized(&self, dims: Dimensions) -> Result<ShapeView, SvgError> {
        self@.resized(dims)
    }

    fn get_uuid(&self) -> (id: String) {
        match self {
            Shape::Rect(r) => r.get_uuid(),
            Shape::Circle(c) => c.get_uuid(),
            Shape::Path(p) => p.get_uuid(),
        }
    }

    fn to_html(&self) -> (html: String) {
        match self {
            Shape::Rect(r) => r.to_html(),
            Shape::Circle(c) => c.to_html(),
            Shape::Path(p) => p.to_html(),
        }
    }

    fn move_to(&mut self, x: Scalar, y: Scalar) {
        match self {
            Shape::Rect(r) => r.move_to(x, y),
            Shape::Circle(c) => c.move_to(x, y),
            Shape::Path(p) => p.move_to(x, y),
        }
    }

    fn resize(&mut self, dims: Dimensions) -> (r: Result<(), SvgError>) {
        match self {
            Shape::Rect(s) => s.resize(dims),
            Shape::Circle(s) => s.resize(dims),
            Shape::Path(s) => s.resize(dims),
        }
    }
}

} // verus!
