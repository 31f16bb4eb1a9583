use rsvg::svg::{Dimensions, Path, Point, Scalar, SvgError, SVG};

fn s(v: f64) -> Scalar {
    Scalar::from_millionths((v * 1_000_000.0).round() as i64)
}

fn p(x: f64, y: f64) -> Point {
    Point { x: s(x), y: s(y) }
}

/// `to_html` reflects the current state of the path.
#[test]
fn path_to_html() {
    let mut path = Path::from_points(vec![p(0.0, 5.0), p(2.5, 0.0), p(-2.5, 0.0), p(0.0, 5.0)])
        .unwrap();
    assert_eq!(path.to_html(), "<path d=\"M 0 5 L 2.5 0 L -2.5 0 L 0 5\"></path>");

    path.move_to(s(1.0), s(4.5));
    assert_eq!(path.to_html(), "<path d=\"M 1 4.5 L 3.5 -0.5 L -1.5 -0.5 L 1 4.5\"></path>");

    path.add_nested_path(vec![p(4.1, 2.3), p(3.0, 6.1), p(7.4, -3.0)]);
    assert_eq!(
        path.to_html(),
        "<path d=\"M 1 4.5 L 3.5 -0.5 L -1.5 -0.5 L 1 4.5 M 4.1 2.3 L 3 6.1 L 7.4 -3\"></path>"
    );

    path.resize(Dimensions::IndexPosition(4, s(4.2), s(1.7))).unwrap();
    assert_eq!(
        path.to_html(),
        "<path d=\"M 1 4.5 L 3.5 -0.5 L -1.5 -0.5 L 1 4.5 M 4.2 1.7 L 3 6.1 L 7.4 -3\"></path>"
    );
}

/// `add_nested_path` adds points to the existing list, and records where they start.
#[test]
fn add_nested_path() {
    let mut path = Path::from_points(vec![p(1.0, 2.0), p(2.0, 1.0)]).unwrap();
    assert_eq!(*path.starting_points(), vec![0]);

    path.add_nested_path(vec![p(3.0, 3.0), p(4.0, 5.0), p(5.0, 4.0)]);
    assert_eq!(
        *path.points(),
        vec![p(1.0, 2.0), p(2.0, 1.0), p(3.0, 3.0), p(4.0, 5.0), p(5.0, 4.0)]
    );
    assert_eq!(*path.starting_points(), vec![0, 2]);
}

/// `move_to` changes the coordinates of all points in the path.
#[test]
fn path_move_to() {
    let mut path = Path::from_points(vec![p(0.0, 5.0), p(2.5, 0.0), p(-2.5, 0.0), p(0.0, 5.0)])
        .unwrap();

    path.move_to(s(4.2), s(-1.0));
    assert_eq!(*path.points(), vec![p(4.2, -1.0), p(6.7, -6.0), p(1.7, -6.0), p(4.2, -1.0)])
}

/// `resize` changes the position of a given point in the path, and the other points remain.
#[test]
fn path_resize() {
    let mut path = Path::from_points(vec![
        p(0.0, 0.0),
        p(1.0, 0.0),
        p(1.0, 1.0),
        p(0.0, 1.0),
        p(0.0, 0.0),
    ])
    .unwrap();

    // matching variant, valid indices
    path.resize(Dimensions::IndexPosition(0, s(0.1), s(1.9))).unwrap();
    path.resize(Dimensions::IndexPosition(2, s(0.2), s(1.8))).unwrap();
    path.resize(Dimensions::IndexPosition(4, s(0.3), s(1.7))).unwrap();
    let expected = vec![p(0.1, 1.9), p(1.0, 0.0), p(0.2, 1.8), p(0.0, 1.0), p(0.3, 1.7)];
    assert_eq!(*path.points(), expected);

    // matching variant, index out of range
    let err = path.resize(Dimensions::IndexPosition(5, s(1.0), s(2.0))).unwrap_err();
    assert_eq!(err.message(), "Cannot resize Path because point does not exist at index 5");
    assert_eq!(*path.points(), expected);

    // Single is refused
    let err = path.resize(Dimensions::Single(s(1.0))).unwrap_err();
    assert_eq!(err.message(), "Cannot resize Path with dimensions Single(1.0)");
    assert_eq!(*path.points(), expected);

    // Double is refused
    let err = path.resize(Dimensions::Double(s(1.0), s(2.0))).unwrap_err();
    assert_eq!(err.message(), "Cannot resize Path with dimensions Double(1.0, 2.0)");
    assert_eq!(*path.points(), expected);
}

#[test]
fn path_from_no_points_is_refused() {
    let err = match Path::from_points(vec![]) {
        Ok(_) => panic!("a path needs a point"),
        Err(e) => e,
    };
    assert_eq!(err, SvgError::EmptyPathConstruction);
    assert_eq!(err.message(), "Expected at least one point to create a Path");
}

#[test]
fn path_of_one_point_renders_as_a_single_move() {
    let path = Path::from_points(vec![p(10.0, -3.0)]).unwrap();
    assert_eq!(path.to_html(), "<path d=\"M 10 -3\"></path>");
    assert_eq!(*path.starting_points(), vec![0]);
}

#[test]
fn path_move_to_puts_the_first_point_on_the_target() {
    let mut path = Path::from_points(vec![p(0.0, 5.0), p(2.5, 0.0)]).unwrap();
    path.move_to(s(1.0), s(4.5));
    assert_eq!(*path.points(), vec![p(1.0, 4.5), p(3.5, -0.5)]);
    // the first point is on the target now, so the same move shifts by nothing
    path.move_to(s(1.0), s(4.5));
    assert_eq!(*path.points(), vec![p(1.0, 4.5), p(3.5, -0.5)]);
}

#[test]
fn path_move_to_keeps_the_offsets_between_points() {
    let before = vec![p(0.0, 5.0), p(2.5, 0.0), p(-2.5, 0.0), p(7.25, 1.0)];
    let mut path = Path::from_points(before.clone()).unwrap();
    path.move_to(s(-100.5), s(33.0));
    let after = path.points();
    for i in 0..before.len() {
        for j in 0..before.len() {
            assert_eq!(
                after[i].x.millionths - after[j].x.millionths,
                before[i].x.millionths - before[j].x.millionths
            );
            assert_eq!(
                after[i].y.millionths - after[j].y.millionths,
                before[i].y.millionths - before[j].y.millionths
            );
        }
    }
}

#[test]
fn path_fits_at_tells_when_a_move_would_leave_the_range() {
    let far = Scalar::from_millionths(i64::MAX);
    let path = Path::from_points(vec![p(0.0, 0.0), p(1.0, 0.000001)]).unwrap();
    assert!(path.fits_at(s(5.0), s(5.0)));
    assert!(!path.fits_at(far, s(0.0)));
    assert!(!path.fits_at(s(0.0), far));
    assert!(path.fits_at(Scalar::from_millionths(i64::MAX - 1_000_000), s(0.0)));
    let single = Path::from_points(vec![p(0.0, 0.0)]).unwrap();
    assert!(single.fits_at(far, far));
}

#[test]
fn path_move_to_spans_the_whole_range() {
    let low = Scalar::from_millionths(i64::MIN);
    let high = Scalar::from_millionths(i64::MAX);
    let mut path = Path::from_points(vec![Point { x: low, y: high }]).unwrap();
    assert!(path.fits_at(high, low));
    path.move_to(high, low);
    assert_eq!(*path.points(), vec![Point { x: high, y: low }]);
}

#[test]
fn empty_path_renders_without_segments_and_moves_nowhere() {
    let mut path = Path::new();
    assert_eq!(path.to_html(), "<path d=\"\"></path>");
    assert!(path.fits_at(s(1.0), s(1.0)));
    path.move_to(s(1.0), s(1.0));
    assert!(path.points().is_empty());
    assert!(path.starting_points().is_empty());
}

#[test]
fn add_nested_path_without_points_records_nothing() {
    let mut path = Path::from_points(vec![p(1.0, 2.0)]).unwrap();
    path.add_nested_path(vec![]);
    assert_eq!(*path.points(), vec![p(1.0, 2.0)]);
    assert_eq!(*path.starting_points(), vec![0]);
    path.add_nested_path(vec![p(3.0, 4.0)]);
    assert_eq!(*path.starting_points(), vec![0, 1]);
    assert_eq!(path.to_html(), "<path d=\"M 1 2 M 3 4\"></path>");
}

#[test]
fn add_nested_path_to_an_empty_path_starts_at_zero() {
    let mut path = Path::new();
    let html = path.add_nested_path(vec![p(1.0, 1.0), p(2.0, 2.0)]).to_html();
    assert_eq!(html, "<path d=\"M 1 1 L 2 2\"></path>");
    assert_eq!(*path.starting_points(), vec![0]);
}

#[test]
fn get_point_is_bounds_checked() {
    let mut path = Path::from_points(vec![p(1.0, 2.0), p(3.0, 4.0)]).unwrap();
    assert!(path.get_point(2).is_none());
    match path.get_point(1) {
        Some(point) => {
            assert_eq!(*point, p(3.0, 4.0));
            point.x = s(-3.0);
        }
        None => panic!("there is a point at index 1"),
    }
    assert_eq!(*path.points(), vec![p(1.0, 2.0), p(-3.0, 4.0)]);
}

#[test]
fn select_point_leaves_the_markup_alone() {
    let mut path = Path::from_points(vec![p(1.0, 2.0), p(3.0, 4.0)]).unwrap();
    let before = path.to_html();
    path.select_point(1);
    assert_eq!(path.to_html(), before);
}

#[test]
fn path_resize_names_the_index_it_could_not_find() {
    let mut path = Path::from_points(vec![p(0.0, 0.0)]).unwrap();
    let err = path.resize(Dimensions::IndexPosition(1, s(0.0), s(0.0))).unwrap_err();
    assert_eq!(err, SvgError::ResizeIndexOutOfRange { index: 1 });
    let err = path.resize(Dimensions::IndexPosition(1234567, s(0.0), s(0.0))).unwrap_err();
    assert_eq!(
        err.message(),
        "Cannot resize Path because point does not exist at index 1234567"
    );
}
