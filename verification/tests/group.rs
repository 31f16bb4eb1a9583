use rsvg::svg::{Circle, Group, Rect, Scalar, SVG};

fn s(v: f64) -> Scalar {
    Scalar::from_millionths((v * 1_000_000.0).round() as i64)
}

/// `get_shape_htmls` returns the markup of each shape in the group.
#[test]
fn shape_svgs() {
    let mut group = Group::new("test_group");
    assert_eq!(group.len(), 0);
    assert_eq!(group.get_shape_htmls().len(), 0);

    let circle = Circle::new(s(1.0), s(2.0), s(3.0));
    group.add_shape(circle.box_ptr());
    assert_eq!(group.get_shape_htmls(), vec!["<circle cx=\"1\" cy=\"2\" r=\"3\"></circle>"]);

    let rect = Rect::new(s(0.0), s(1.0), s(2.0), s(3.0));
    group.add_shape(rect.box_ptr());
    assert_eq!(
        group.get_shape_htmls(),
        vec![
            "<circle cx=\"1\" cy=\"2\" r=\"3\"></circle>",
            "<rect x=\"0\" y=\"1\" width=\"2\" height=\"3\"></rect>",
        ]
    );
}

/// `to_html` reflects the current state of the group.
#[test]
fn group_to_html() {
    let mut group = Group::new("test_group");
    assert_eq!(group.to_html(), "<g name=\"test_group\">\n\n</g>");

    let circle = Circle::new(s(1.0), s(2.0), s(3.0));
    let rect = Rect::new(s(0.0), s(1.0), s(2.0), s(3.0));
    group.add_shape(circle.box_ptr());
    group.add_shape(rect.box_ptr());

    let expected_html = "\
<g name=\"test_group\">
<circle cx=\"1\" cy=\"2\" r=\"3\"></circle>
<rect x=\"0\" y=\"1\" width=\"2\" height=\"3\"></rect>
</g>";
    assert_eq!(group.to_html(), expected_html);
}

#[test]
fn group_hands_out_stable_indices() {
    let mut group = Group::new("g");
    assert_eq!(group.get_name(), "g");
    assert_eq!(group.add_shape(Circle::new(s(1.0), s(2.0), s(3.0)).box_ptr()), 0);
    assert_eq!(group.add_shape(Rect::new(s(0.0), s(1.0), s(2.0), s(3.0)).box_ptr()), 1);
    assert_eq!(group.add_shape(Circle::new(s(4.0), s(5.0), s(6.0)).box_ptr()), 2);
    assert_eq!(group.len(), 3);
    assert_eq!(
        group.get_shape(1).unwrap().to_html(),
        "<rect x=\"0\" y=\"1\" width=\"2\" height=\"3\"></rect>"
    );
    assert!(group.get_shape(3).is_none());
    assert!(group.get_shape_mut(3).is_none());
}

#[test]
fn group_get_shape_mut_changes_the_shape_in_place() {
    let mut group = Group::new("g");
    group.add_shape(Circle::new(s(1.0), s(2.0), s(3.0)).box_ptr());
    group.add_shape(Rect::new(s(0.0), s(1.0), s(2.0), s(3.0)).box_ptr());
    group.get_shape_mut(0).unwrap().move_to(s(-1.0), s(-2.0));
    assert_eq!(
        group.get_shape_htmls(),
        vec![
            "<circle cx=\"-1\" cy=\"-2\" r=\"3\"></circle>",
            "<rect x=\"0\" y=\"1\" width=\"2\" height=\"3\"></rect>",
        ]
    );
}

#[test]
fn group_identity_is_a_hyphenated_uuid() {
    let group = Group::new("g");
    let id = group.get_uuid();
    assert_eq!(id.len(), 36);
    assert_eq!(id, group.get_uuid());
}
