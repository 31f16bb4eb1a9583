//! Circles.

use vstd::prelude::*;
use crate::utils::{gen_uuid, is_uuid_text};
use super::shape::Shape;
use super::{
    attribute_views, element_text, html_element, Dimensions, Point, Scalar, ShapeKind, SvgError,
    SVG,
};

verus! {

/// What a circle is: its identity, its centre, and its radius, which may be
/// any number.
#[verifier::ext_equal]
pub struct CircleView {
    pub uuid: Seq<char>,
    pub origin: Point,
    pub radius: Scalar,
}

impl CircleView {
    /// The markup of the circle: a `circle` element with the attributes `cx`,
    /// `cy` and `r`, in that order.
    pub open spec fn markup(self) -> Seq<char> {
        element_text(
            "circle"@,
            seq![
                ("cx"@, self.origin.x.text()),
                ("cy"@, self.origin.y.text()),
                ("r"@, self.radius.text()),
            ],
        )
    }

    /// The circle centred at `(x, y)`, with its radius unchanged.
    pub open spec fn moved_to(self, x: Scalar, y: Scalar) -> CircleView {
        CircleView { origin: Point { x, y }, ..self }
    }

    /// The circle with a new radius, which only `Dimensions::Single` can give.
    pub open spec fn resized(self, dims: Dimensions) -> Result<CircleView, SvgError> {
        match dims {
            Dimensions::Single(radius) => Ok(CircleView { radius, ..self }),
            _ => Err(SvgError::ResizeKindMismatch { kind: ShapeKind::Circle, dims }),
        }
    }
}

/// A circle.
pub struct Circle {
    uuid: String,
    origin: Point,
    radius: Scalar,
}

impl View for Circle {
    type V = CircleView;

    closed spec fn view(&self) -> CircleView {
        CircleView { uuid: self.uuid@, origin: self.origin, radius: self.radius }
    }
}

impl Circle {
    /// A circle centred at `(x, y)`, under a fresh identity.
    pub fn new(x: Scalar, y: Scalar, radius: Scalar) -> (circle: Circle)
        ensures
            circle@.origin == (Point { x, y }),
            circle@.radius == radius,
            is_uuid_text(circle@.uuid),
    {
        Circle { uuid: gen_uuid(), origin: Point { x, y }, radius }
    }

    /// The circle as a shape that a group can own.
    pub fn box_ptr(self) -> (shape: Box<Shape>)
        ensures
            *shape == Shape::Circle(self),
    {
        Box::new(Shape::Circle(self))
    }

    /// The centre of the circle.
    pub fn origin(&self) -> (origin: Point)
        ensures
            origin == self@.origin,
    {
        self.origin
    }

    pub fn radius(&self) -> (radius: Scalar)
        ensures
            radius == self@.radius,
    {
        self.radius
    }
}

impl SVG for Circle {
    open spec fn uuid_text(&self) -> Seq<char> {
        self@.uuid
    }

    open spec fn markup(&self) -> Seq<char> {
        self@.markup()
    }

    open spec fn can_move_to(&self, x: Scalar, y: Scalar) -> bool {
        true
    }

    open spec fn moved_to(&self, x: Scalar, y: Scalar) -> CircleView {
        self@.moved_to(x, y)
    }

    open spec fn resized(&self, dims: Dimensions) -> Result<CircleView, SvgError> {
        self@.resized(dims)
    }

    fn get_uuid(&self) -> (id: String) {
        self.uuid.clone()
    }

    fn to_html(&self) -> (html: String) {
        let attrs = vec![
            ("cx", self.origin.x.to_string()),
            ("cy", self.origin.y.to_string()),
            ("r", self.radius.to_string()),
        ];
        proof {
            assert(attribute_views(attrs@) =~= seq![
                ("cx"@, self.origin.x.text()),
                ("cy"@, self.origin.y.text()),
                ("r"@, self.radius.text()),
            ]);
        }
        html_element("circle", attrs)
    }

    fn move_to(&mut self, x: Scalar, y: Scalar) {
        self.origin.x = x;
        self.origin.y = y;
    }

    fn resize(&mut self, dims: Dimensions) -> (r: Result<(), SvgError>) {
        if let Dimensions::Single(radius) = dims {
            self.radius = radius;
            Ok(())
        } else {
            Err(SvgError::ResizeKindMismatch { kind: ShapeKind::Circle, dims })
        }
    }
}

} // verus!
