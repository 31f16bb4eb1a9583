//! Rectangles.

use vstd::prelude::*;
use crate::utils::{gen_uuid, is_uuid_text};
use super::shape::Shape;
use super::{element_text, html_element, Dimensions, Point, Scalar, ShapeKind, SvgError, SVG};

verus! {

/// What a rectangle is: its identity, the corner it is anchored at, and its
/// extent. Width and height may be any number, negative ones included.
#[verifier::ext_equal]
pub struct RectView {
    pub uuid: Seq<char>,
    pub origin: Point,
    pub width: Scalar,
    pub height: Scalar,
}

impl RectView {
    /// The markup of the rectangle: a `rect` element with the attributes
    /// `x`, `y`, `width` and `height`, in that order.
    pub open spec fn markup(self) -> Seq<char> {
        element_text(
            "rect"@,
            seq![
                ("x"@, self.origin.x.text()),
                ("y"@, self.origin.y.text()),
                ("width"@, self.width.text()),
                ("height"@, self.height.text()),
            ],
        )
    }

    /// The rectangle anchored at `(x, y)`, with its extent unchanged.
    pub open spec fn moved_to(self, x: Scalar, y: Scalar) -> RectView {
        RectView { origin: Point { x, y }, ..self }
    }

    /// The rectangle with a new width and height, which only
    /// `Dimensions::Double` can give.
    pub open spec fn resized(self, dims: Dimensions) -> Result<RectView, SvgError> {
        match dims {
            Dimensions::Double(width, height) => Ok(RectView { width, height, ..self }),
            _ => Err(SvgError::ResizeKindMismatch { kind: ShapeKind::Rect, dims }),
        }
    }
}

/// A rectangle.
pub struct Rect {
    pub uuid: String,
    origin: Point,
    width: Scalar,
    height: Scalar,
}

impl View for Rect {
    type V = RectView;

    closed spec fn view(&self) -> RectView {
        RectView {
            uuid: self.uuid@,
            origin: self.origin,
            width: self.width,
            height: self.height,
        }
    }
}

impl Rect {
    /// A rectangle anchored at `(x, y)`, under a fresh identity.
    pub fn new(x: Scalar, y: Scalar, width: Scalar, height: Scalar) -> (rect: Rect)
        ensures
            rect@.origin == (Point { x, y }),
            rect@.width == width,
            rect@.height == height,
            is_uuid_text(rect@.uuid),
    {
        Rect { uuid: gen_uuid(), origin: Point { x, y }, width, height }
    }

    /// The rectangle as a shape that a group can own.
    pub fn box_ptr(self) -> (shape: Box<Shape>)
        ensures
            *shape == Shape::Rect(self),
    {
        Box::new(Shape::Rect(self))
    }

    /// The corner that the rectangle is anchored at.
    pub fn origin(&self) -> (origin: Point)
        ensures
            origin == self@.origin,
    {
        self.origin
    }

    pub fn width(&self) -> (width: Scalar)
        ensures
            width == self@.width,
    {
        self.width
    }

    pub fn height(&self) -> (height: Scalar)
        ensures
            height == self@.height,
    {
        self.height
    }
}

impl SVG for Rect {
    open spec fn uuid_text(&self) -> Seq<char> {
        self@.uuid
    }

    open spec fn markup(&self) -> Seq<char> {
        self@.markup()
    }

    open spec fn can_move_to(&self, x: Scalar, y: Scalar) -> bool {
        true
    }

    open spec fn moved_to(&self, x: Scalar, y: Scalar) -> RectView {
        self@.moved_to(x, y)
    }

    open spec fn resized(&self, dims: Dimensions) -> Result<RectView, SvgError> {
        self@.resized(dims)
    }

    fn get_uuid(&self) -> (id: String) {
        self.uuid.clone()
    }

    fn to_html(&self) -> (html: String) {
        let attrs = vec![
            ("x", self.origin.x.to_string()),
            ("y", self.origin.y.to_string()),
            ("width", self.width.to_string()),
            ("height", self.height.to_string()),
        ];
        proof {
            assert(super::attribute_views(attrs@) =~= seq![
                ("x"@, self.origin.x.text()),
                ("y"@, self.origin.y.text()),
                ("width"@, self.width.text()),
                ("height"@, self.height.text()),
            ]);
        }
        html_element("rect", attrs)
    }

    fn move_to(&mut self, x: Scalar, y: Scalar) {
        self.origin.x = x;
        self.origin.y = y;
    }

    fn resize(&mut self, dims: Dimensions) -> (r: Result<(), SvgError>) {
        if let Dimensions::Double(width, height) = dims {
            self.width = width;
            self.height = height;
            Ok(())
        } else {
            Err(SvgError::ResizeKindMismatch { kind: ShapeKind::Rect, dims })
        }
    }
}

} // verus!
