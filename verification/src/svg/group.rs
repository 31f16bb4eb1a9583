//! Groups: named, ordered collections of shapes.

use vstd::prelude::*;
use crate::utils::{gen_uuid, is_uuid_text};
use super::shape::{Shape, ShapeView};
use super::text::{join, join_text, same_text};
use super::SVG;

verus! {

/// What a group is: its identity, its name, and its shapes in the order in
/// which they were added. A shape keeps its index for as long as the group
/// lives.
#[verifier::ext_equal]
pub struct GroupView {
    pub uuid: Seq<char>,
    pub name: Seq<char>,
    pub shapes: Seq<ShapeView>,
}

impl GroupView {
    /// The markup of each shape, in order.
    pub open spec fn shape_markups(self) -> Seq<Seq<char>> {
        self.shapes.map_values(|s: ShapeView| s.markup())
    }

    /// The markup of the group: a `g` element that carries the name and
    /// holds the shapes, one to a line.
    pub open spec fn markup(self) -> Seq<char> {
        "<g name=\""@ + self.name + "\">\n"@ + join_text(self.shape_markups(), "\n"@) + "\n</g>"@
    }

    /// The group with one more shape at its end.
    pub open spec fn with_shape(self, shape: ShapeView) -> GroupView {
        GroupView { shapes: self.shapes.push(shape), ..self }
    }

    /// The group with the shape at index `i` replaced.
    pub open spec fn with_shape_at(self, i: int, shape: ShapeView) -> GroupView {
        GroupView { shapes: self.shapes.update(i, shape), ..self }
    }
}

/// A group of shapes.
pub struct Group {
    uuid: String,
    name: String,
    shapes: Vec<Box<Shape>>,
}

impl View for Group {
    type V = GroupView;

    closed spec fn view(&self) -> GroupView {
        GroupView {
            uuid: self.uuid@,
            name: self.name@,
            shapes: self.shapes@.map_values(|s: Box<Shape>| s@),
        }
    }
}

impl Group {
    /// An empty group with the given name, under a fresh identity.
    pub fn new(name: &str) -> (group: Group)
        ensures
            group@.name == name@,
            group@.shapes.len() == 0,
            is_uuid_text(group@.uuid),
    {
        Group { uuid: gen_uuid(), name: name.to_owned(), shapes: Vec::new() }
    }

    pub fn get_name(&self) -> (name: String)
        ensures
            name@ == self@.name,
    {
        self.name.clone()
    }

    /// Whether the group goes by this name.
    pub fn is_named(&self, name: &str) -> (same: bool)
        ensures
            same == (self@.name == name@),
    {
        same_text(self.name.as_str(), name)
    }

    pub fn get_uuid(&self) -> (id: String)
        ensures
            id@ == self@.uuid,
    {
        self.uuid.clone()
    }

    /// The number of shapes in the group.
    pub fn len(&self) -> (n: usize)
        ensures
            n == self@.shapes.len(),
    {
        self.shapes.len()
    }

    /// Takes ownership of the shape and returns the index under which the
    /// group holds it from now on.
    pub fn add_shape(&mut self, shape: Box<Shape>) -> (index: usize)
        ensures
            final(self)@ == old(self)@.with_shape(shape@),
            index == old(self)@.shapes.len(),
    {
        self.shapes.push(shape);
        assert(self@.shapes =~= old(self)@.shapes.push(shape@));
        self.shapes.len() - 1
    }

    /// The markup of each shape, in order.
    pub fn get_shape_htmls(&self) -> (htmls: Vec<String>)
        ensures
            htmls.deep_view() == self@.shape_markups(),
    {
        let n: usize = self.shapes.len();
        let mut htmls: Vec<String> = Vec::new();
        let mut i: usize = 0;
        while i < n
            invariant
                0 <= i <= n,
                n == self.shapes.len(),
                htmls@.len() == i,
                forall|k: int| 0 <= k < i ==> (#[trigger] htmls@[k])@ == self@.shapes[k].markup(),
            decreases n - i,
        {
            let html = self.shapes[i].to_html();
            htmls.push(html);
            i += 1;
        }
        assert(htmls.deep_view() =~= self@.shape_markups());
        htmls
    }

    /// The shape at index `i`, if there is one.
    pub fn get_shape(&self, i: usize) -> (r: Option<&Box<Shape>>)
        ensures
            i < self@.shapes.len() ==> r is Some && r->0@ == self@.shapes[i as int],
            i >= self@.shapes.len() ==> r is None,
    {
        if i < self.shapes.len() {
            Some(&self.shapes[i])
        } else {
            None
        }
    }

    /// The shape at index `i`, open to change, if there is one.
    pub fn get_shape_mut(&mut self, i: usize) -> (r: Option<&mut Box<Shape>>)
        ensures
            i >= old(self)@.shapes.len() ==> r is None && final(self)@ == old(self)@,
            i < old(self)@.shapes.len() ==> r is Some && r->0@ == old(self)@.shapes[i as int]
                && final(self)@ == old(self)@.with_shape_at(i as int, final(r->0)@),
    {
        if i < self.shapes.len() {
            Some(&mut self.shapes[i])
        } else {
            None
        }
    }

    /// The markup of the group.
    pub fn to_html(&self) -> (html: String)
        ensures
            html@ == self@.markup(),
    {
        let htmls = self.get_shape_htmls();
        let body = join(&htmls, "\n");
        let mut html = String::new();
        html.append("<g name=\"");
        html.append(self.name.as_str());
        html.append("\">\n");
        html.append(body.as_str());
        html.append("\n</g>");
        assert(html@ =~= self@.markup());
        html
    }
}

} // verus!
