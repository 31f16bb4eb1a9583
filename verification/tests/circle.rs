use rsvg::svg::{Circle, Dimensions, Point, Scalar, SVG};

fn s(v: f64) -> Scalar {
    Scalar::from_millionths((v * 1_000_000.0).round() as i64)
}

/// `to_html` reflects the current state of the circle.
#[test]
fn circle_to_html() {
    let mut circle = Circle::new(s(0.0), s(1.5), s(5.2));
    assert_eq!(circle.to_html(), "<circle cx=\"0\" cy=\"1.5\" r=\"5.2\"></circle>");

    circle.move_to(s(-1.5), s(4.0));
    assert_eq!(circle.to_html(), "<circle cx=\"-1.5\" cy=\"4\" r=\"5.2\"></circle>");

    circle.resize(Dimensions::Single(s(3.0))).unwrap();
    assert_eq!(circle.to_html(), "<circle cx=\"-1.5\" cy=\"4\" r=\"3\"></circle>");
}

/// `move_to` changes the origin of the circle, and the radius stays the same.
#[test]
fn circle_move_to() {
    let mut circle = Circle::new(s(5.0), s(10.0), s(20.0));
    assert_eq!(circle.origin(), Point { x: s(5.0), y: s(10.0) });
    assert_eq!(circle.radius(), s(20.0));

    circle.move_to(s(12.0), s(-16.0));
    assert_eq!(circle.origin(), Point { x: s(12.0), y: s(-16.0) });
    assert_eq!(circle.radius(), s(20.0));
}

/// `resize` changes the radius of the circle, and the origin stays the same.
#[test]
fn circle_resize() {
    let mut circle = Circle::new(s(5.0), s(10.0), s(20.0));
    assert_eq!(circle.origin(), Point { x: s(5.0), y: s(10.0) });
    assert_eq!(circle.radius(), s(20.0));

    // a matching variant
    circle.resize(Dimensions::Single(s(3.5))).unwrap();
    assert_eq!(circle.origin(), Point { x: s(5.0), y: s(10.0) });
    assert_eq!(circle.radius(), s(3.5));

    // Double is refused
    let err = circle.resize(Dimensions::Double(s(1.0), s(2.0))).unwrap_err();
    assert_eq!(err.message(), "Cannot resize Circle with dimensions Double(1.0, 2.0)");
    assert_eq!(circle.origin(), Point { x: s(5.0), y: s(10.0) });
    assert_eq!(circle.radius(), s(3.5));

    // IndexPosition is refused
    let err = circle.resize(Dimensions::IndexPosition(3, s(1.0), s(2.0))).unwrap_err();
    assert_eq!(err.message(), "Cannot resize Circle with dimensions IndexPosition(3, 1.0, 2.0)");
    assert_eq!(circle.origin(), Point { x: s(5.0), y: s(10.0) });
    assert_eq!(circle.radius(), s(3.5));
}

#[test]
fn circle_fresh_render_shows_origin_and_zero_radius() {
    let circle = Circle::new(s(0.0), s(1.5), Scalar::zero());
    assert_eq!(circle.to_html(), "<circle cx=\"0\" cy=\"1.5\" r=\"0\"></circle>");
}

#[test]
fn circle_move_to_twice_is_the_same_as_once() {
    let mut circle = Circle::new(s(1.0), s(2.0), s(3.0));
    circle.move_to(s(-4.0), s(0.125));
    circle.move_to(s(-4.0), s(0.125));
    assert_eq!(circle.origin(), Point { x: s(-4.0), y: s(0.125) });
    assert_eq!(circle.radius(), s(3.0));
}
