use rsvg::svg::{html_element, Dimensions, Scalar, ShapeKind};

fn s(v: f64) -> Scalar {
    Scalar::from_millionths((v * 1_000_000.0).round() as i64)
}

#[test]
fn whole_numbers_are_written_without_a_fraction() {
    assert_eq!(Scalar::zero().to_string(), "0");
    assert_eq!(Scalar::from_whole(5).to_string(), "5");
    assert_eq!(Scalar::from_whole(-3).to_string(), "-3");
    assert_eq!(Scalar::from_whole(1000).to_string(), "1000");
    assert_eq!(Scalar::from_whole(i32::MAX).to_string(), "2147483647");
    assert_eq!(Scalar::from_whole(i32::MIN).to_string(), "-2147483648");
    assert_eq!(Scalar::from_whole(7), Scalar::from_millionths(7_000_000));
}

#[test]
fn fractions_are_written_with_as_few_digits_as_they_need() {
    assert_eq!(s(4.3).to_string(), "4.3");
    assert_eq!(s(-0.5).to_string(), "-0.5");
    assert_eq!(s(0.25).to_string(), "0.25");
    assert_eq!(s(1234567.89).to_string(), "1234567.89");
    assert_eq!(Scalar::from_millionths(1).to_string(), "0.000001");
    assert_eq!(Scalar::from_millionths(-1).to_string(), "-0.000001");
    assert_eq!(Scalar::from_millionths(10).to_string(), "0.00001");
    assert_eq!(Scalar::from_millionths(1_000_001).to_string(), "1.000001");
    assert_eq!(Scalar::from_millionths(1_010_000).to_string(), "1.01");
    assert_eq!(Scalar::from_millionths(999_999).to_string(), "0.999999");
    assert_eq!(Scalar::from_millionths(-12_345_600).to_string(), "-12.3456");
}

#[test]
fn the_ends_of_the_range_are_written_in_full() {
    assert_eq!(Scalar::from_millionths(i64::MAX).to_string(), "9223372036854.775807");
    assert_eq!(Scalar::from_millionths(i64::MIN).to_string(), "-9223372036854.775808");
    assert_eq!(Scalar::from_millionths(i64::MIN).abs_millionths(), 9_223_372_036_854_775_808);
    assert_eq!(Scalar::from_millionths(-7).abs_millionths(), 7);
    assert_eq!(Scalar::from_millionths(7).abs_millionths(), 7);
}

#[test]
fn markup_notation_agrees_with_the_shortest_float_notation() {
    for v in [0.0, 1.0, -1.0, 4.3, 2.5, -2.5, 0.1, 1.9, 6.7, 1.7, 7.4, 100.125, -0.000001] {
        assert_eq!(s(v).to_string(), format!("{}", v));
    }
}

#[test]
fn diagnostics_always_show_a_fraction() {
    assert_eq!(Scalar::zero().to_debug_string(), "0.0");
    assert_eq!(s(1.0).to_debug_string(), "1.0");
    assert_eq!(s(-3.0).to_debug_string(), "-3.0");
    assert_eq!(s(4.3).to_debug_string(), "4.3");
    assert_eq!(s(-0.25).to_debug_string(), "-0.25");
}

#[test]
fn dimensions_are_written_as_the_variant_and_its_fields() {
    assert_eq!(Dimensions::Single(s(1.0)).to_string(), "Single(1.0)");
    assert_eq!(Dimensions::Double(s(1.0), s(2.5)).to_string(), "Double(1.0, 2.5)");
    assert_eq!(
        Dimensions::IndexPosition(3, s(1.0), s(2.0)).to_string(),
        "IndexPosition(3, 1.0, 2.0)"
    );
    assert_eq!(
        Dimensions::IndexPosition(120, s(-1.5), s(0.0)).to_string(),
        "IndexPosition(120, -1.5, 0.0)"
    );
}

#[test]
fn half_rounds_toward_zero() {
    assert_eq!(s(1000.0).half(), s(500.0));
    assert_eq!(s(-3.0).half(), s(-1.5));
    assert_eq!(Scalar::from_millionths(3).half(), Scalar::from_millionths(1));
    assert_eq!(Scalar::from_millionths(-3).half(), Scalar::from_millionths(-1));
    assert_eq!(Scalar::zero().half(), Scalar::zero());
    assert_eq!(
        Scalar::from_millionths(i64::MIN).half(),
        Scalar::from_millionths(-4_611_686_018_427_387_904)
    );
}

#[test]
fn shape_kinds_have_names() {
    assert_eq!(ShapeKind::Rect.name(), "Rect");
    assert_eq!(ShapeKind::Circle.name(), "Circle");
    assert_eq!(ShapeKind::Path.name(), "Path");
}

#[test]
fn html_element_writes_tag_and_attributes() {
    assert_eq!(html_element("a", vec![]), "<a ></a>");
    assert_eq!(html_element("a", vec![("b", String::from("c"))]), "<a b=\"c\"></a>");
    assert_eq!(
        html_element("rect", vec![("x", String::from("1")), ("y", String::from("-2.5"))]),
        "<rect x=\"1\" y=\"-2.5\"></rect>"
    );
}
