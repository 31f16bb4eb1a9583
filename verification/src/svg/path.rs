//! Paths: lists of points, drawn as one or more runs of straight lines.

use vstd::prelude::*;
use crate::utils::{gen_uuid, is_uuid_text};
use super::scalar::fits;
use super::shape::Shape;
use super::text::{join, join_text};
use super::{
    attribute_views, element_text, html_element, Dimensions, Point, Scalar, ShapeKind, SvgError,
    SVG,
};

verus! {

/// What a path is: its identity, its points in drawing order, the indices at
/// which a new run of lines begins, and the point picked for editing, if any.
#[verifier::ext_equal]
pub struct PathView {
    pub uuid: Seq<char>,
    pub points: Seq<Point>,
    pub starting_points: Seq<usize>,
    pub active_point: Option<usize>,
}

impl PathView {
    /// The indices at which a run begins, as mathematical integers.
    pub open spec fn starts(self) -> Seq<int> {
        self.starting_points.map_values(|s: usize| s as int)
    }

    /// The runs are recorded in order and each begins at a point of the
    /// path; a path that has points has a run that begins at its first.
    pub open spec fn wf(self) -> bool {
        &&& forall|k: int|
            0 <= k < self.starting_points.len() ==> (#[trigger] self.starting_points[k] as int)
                < self.points.len()
        &&& forall|j: int, k: int|
            0 <= j < k < self.starting_points.len() ==> (#[trigger] self.starting_points[j] as int)
                < (#[trigger] self.starting_points[k] as int)
        &&& self.points.len() > 0 ==> self.starting_points.len() > 0 && self.starting_points[0]
            == 0
        &&& self.points.len() == 0 ==> self.starting_points.len() == 0
    }

    /// Whether a run begins at point `i`.
    pub open spec fn is_start(self, i: int) -> bool {
        self.starts().contains(i)
    }

    /// The drawing command of point `i`: `M` begins a run, `L` draws a line
    /// from the point before.
    pub open spec fn command_letter(self, i: int) -> Seq<char> {
        if self.is_start(i) {
            "M"@
        } else {
            "L"@
        }
    }

    /// The command and the coordinates of point `i`, separated by spaces.
    pub open spec fn segment_text(self, i: int) -> Seq<char> {
        self.command_letter(i) + " "@ + self.points[i].x.text() + " "@ + self.points[i].y.text()
    }

    /// The segments of all points in order.
    pub open spec fn segment_texts(self) -> Seq<Seq<char>> {
        Seq::new(self.points.len(), |i: int| self.segment_text(i))
    }

    /// The path data: the segments separated by spaces.
    pub open spec fn path_data(self) -> Seq<char> {
        join_text(self.segment_texts(), " "@)
    }

    /// The markup of the path: a `path` element whose attribute `d` holds
    /// the path data.
    pub open spec fn markup(self) -> Seq<char> {
        element_text("path"@, seq![("d"@, self.path_data())])
    }

    /// Where point `i` comes to lie, horizontally, when the first point moves
    /// to `x`.
    pub open spec fn shifted_x(self, i: int, x: Scalar) -> int {
        self.points[i].x.value() + (x.value() - self.points[0].x.value())
    }

    /// Where point `i` comes to lie, vertically, when the first point moves
    /// to `y`.
    pub open spec fn shifted_y(self, i: int, y: Scalar) -> int {
        self.points[i].y.value() + (y.value() - self.points[0].y.value())
    }

    /// Point `i` after the move that takes the first point to `(x, y)`.
    pub open spec fn shifted_point(self, i: int, x: Scalar, y: Scalar) -> Point {
        Point {
            x: Scalar { millionths: self.shifted_x(i, x) as i64 },
            y: Scalar { millionths: self.shifted_y(i, y) as i64 },
        }
    }

    /// Whether point `i` can be stored after the move that takes the first
    /// point to `(x, y)`.
    pub open spec fn point_fits(self, i: int, x: Scalar, y: Scalar) -> bool {
        fits(self.shifted_x(i, x)) && fits(self.shifted_y(i, y))
    }

    /// Whether every point can be stored after the move that takes the first
    /// point to `(x, y)`.
    pub open spec fn can_move_to(self, x: Scalar, y: Scalar) -> bool {
        forall|i: int| 0 <= i < self.points.len() ==> #[trigger] self.point_fits(i, x, y)
    }

    /// The path after the move that takes its first point to `(x, y)` and
    /// every other point along by the same distance. A path without points
    /// stays as it is.
    pub open spec fn moved_to(self, x: Scalar, y: Scalar) -> PathView {
        PathView {
            points: Seq::new(self.points.len(), |i: int| self.shifted_point(i, x, y)),
            ..self
        }
    }

    /// The path with one point replaced, which only
    /// `Dimensions::IndexPosition` with the index of a point can do.
    pub open spec fn resized(self, dims: Dimensions) -> Result<PathView, SvgError> {
        match dims {
            Dimensions::IndexPosition(i, x, y) => if i < self.points.len() {
                Ok(PathView { points: self.points.update(i as int, Point { x, y }), ..self })
            } else {
                Err(SvgError::ResizeIndexOutOfRange { index: i })
            },
            _ => Err(SvgError::ResizeKindMismatch { kind: ShapeKind::Path, dims }),
        }
    }

    /// The path with more points appended as a new run. Appending no points
    /// records no run.
    pub open spec fn with_nested_path(self, points: Seq<Point>) -> PathView {
        PathView {
            points: self.points + points,
            starting_points: if points.len() > 0 {
                self.starting_points.push(self.points.len() as usize)
            } else {
                self.starting_points
            },
            ..self
        }
    }
}

/// The square of the distance between two points, in millionths squared.
pub open spec fn squared_distance(a: Point, b: Point) -> int {
    (a.x.value() - b.x.value()) * (a.x.value() - b.x.value()) + (a.y.value() - b.y.value()) * (
    a.y.value() - b.y.value())
}

/// Whatever is done to a path whose runs are recorded in order, they are
/// still recorded in order afterwards.
pub proof fn lemma_wf_is_kept(
    path: PathView,
    x: Scalar,
    y: Scalar,
    dims: Dimensions,
    points: Seq<Point>,
)
    requires
        path.wf(),
        path.points.len() + points.len() <= usize::MAX,
    ensures
        path.moved_to(x, y).wf(),
        path.resized(dims) matches Ok(resized) ==> resized.wf(),
        path.with_nested_path(points).wf(),
{
}

/// A move takes the first point to the target and every point along by the
/// same distance, and leaves everything else about the path as it was.
pub proof fn lemma_move_shifts_every_point(path: PathView, x: Scalar, y: Scalar, i: int)
    requires
        path.can_move_to(x, y),
        0 <= i < path.points.len(),
    ensures
        path.moved_to(x, y).points.len() == path.points.len(),
        path.moved_to(x, y).points[0] == (Point { x, y }),
        path.moved_to(x, y).points[i].x.value() - path.points[i].x.value() == x.value()
            - path.points[0].x.value(),
        path.moved_to(x, y).points[i].y.value() - path.points[i].y.value() == y.value()
            - path.points[0].y.value(),
        path.moved_to(x, y).starting_points == path.starting_points,
        path.moved_to(x, y).active_point == path.active_point,
        path.moved_to(x, y).uuid == path.uuid,
{
    assert(path.point_fits(i, x, y));
    assert(path.point_fits(0, x, y));
}

/// A move keeps the offset, and with it the distance, between any two
/// points of the path.
pub proof fn lemma_move_keeps_distances(path: PathView, x: Scalar, y: Scalar, i: int, j: int)
    requires
        path.can_move_to(x, y),
        0 <= i < path.points.len(),
        0 <= j < path.points.len(),
    ensures
        path.moved_to(x, y).points[i].x.value() - path.moved_to(x, y).points[j].x.value()
            == path.points[i].x.value() - path.points[j].x.value(),
        path.moved_to(x, y).points[i].y.value() - path.moved_to(x, y).points[j].y.value()
            == path.points[i].y.value() - path.points[j].y.value(),
        squared_distance(path.moved_to(x, y).points[i], path.moved_to(x, y).points[j])
            == squared_distance(path.points[i], path.points[j]),
{
    lemma_move_shifts_every_point(path, x, y, i);
    lemma_move_shifts_every_point(path, x, y, j);
}

/// After a move the first point lies on the target, so the same move again
/// shifts by nothing: it is possible and changes no point.
pub proof fn lemma_move_again_changes_nothing(path: PathView, x: Scalar, y: Scalar)
    requires
        path.can_move_to(x, y),
    ensures
        path.moved_to(x, y).can_move_to(x, y),
        path.moved_to(x, y).moved_to(x, y) == path.moved_to(x, y),
{
    let once = path.moved_to(x, y);
    if path.points.len() > 0 {
        assert(path.point_fits(0, x, y));
        assert(once.points[0] == (Point { x, y }));
    }
    assert forall|i: int| 0 <= i < once.points.len() implies #[trigger] once.point_fits(
        i,
        x,
        y,
    ) && once.shifted_point(i, x, y) == once.points[i] by {
        assert(path.point_fits(i, x, y));
    }
    assert(once.moved_to(x, y).points =~= once.points);
}

/// An index beyond the last point is refused by name, whatever the
/// position that comes with it.
pub proof fn lemma_resize_beyond_the_points(path: PathView, i: usize, x: Scalar, y: Scalar)
    requires
        i >= path.points.len(),
    ensures
        path.resized(Dimensions::IndexPosition(i, x, y)) == Err::<PathView, SvgError>(
            SvgError::ResizeIndexOutOfRange { index: i },
        ),
        (SvgError::ResizeIndexOutOfRange { index: i }).message_text()
            == "Cannot resize Path because point does not exist at index "@ + super::text::nat_text(
            i as nat,
        ),
{
}

/// Replacing a point changes that point and nothing else.
pub proof fn lemma_resize_replaces_one_point(path: PathView, i: usize, x: Scalar, y: Scalar)
    requires
        i < path.points.len(),
    ensures
        path.resized(Dimensions::IndexPosition(i, x, y)) is Ok,
        path.resized(Dimensions::IndexPosition(i, x, y))->Ok_0.points.len() == path.points.len(),
        path.resized(Dimensions::IndexPosition(i, x, y))->Ok_0.points[i as int] == (Point {
            x,
            y,
        }),
        forall|k: int|
            0 <= k < path.points.len() && k != i ==> path.resized(
                Dimensions::IndexPosition(i, x, y),
            )->Ok_0.points[k] == path.points[k],
        path.resized(Dimensions::IndexPosition(i, x, y))->Ok_0.starting_points
            == path.starting_points,
{
}

/// Appending a run keeps the points that were there, puts the new ones
/// behind them, and records the old number of points as the place where
/// the new run begins: afterwards a run begins at a point if one began
/// there before or if the point is the first of the new ones.
pub proof fn lemma_nested_path_starts(path: PathView, points: Seq<Point>, i: int)
    requires
        path.wf(),
        points.len() > 0,
        path.points.len() + points.len() <= usize::MAX,
        0 <= i < path.points.len() + points.len(),
    ensures
        path.with_nested_path(points).wf(),
        path.with_nested_path(points).points == path.points + points,
        path.with_nested_path(points).starts() == path.starts().push(path.points.len() as int),
        path.with_nested_path(points).is_start(i) <==> (path.is_start(i) || i
            == path.points.len()),
{
    let after = path.with_nested_path(points);
    let n = path.points.len() as int;
    assert(after.starts() =~= path.starts().push(n));
    assert(after.starts().last() == n);
    if path.is_start(i) {
        let k = choose|k: int| 0 <= k < path.starts().len() && path.starts()[k] == i;
        assert(after.starts()[k] == i);
    }
    if i == n {
        assert(after.starts()[after.starts().len() - 1] == i);
    }
    if after.is_start(i) {
        let k = choose|k: int| 0 <= k < after.starts().len() && after.starts()[k] == i;
        if k < path.starts().len() {
            assert(path.starts()[k] == i);
        }
    }
}

/// The segment of a point opens with `M` where a run begins and with `L`
/// everywhere else.
pub proof fn lemma_segment_opens_with_command(path: PathView, i: int)
    requires
        0 <= i < path.points.len(),
    ensures
        path.segment_texts()[i] == path.segment_text(i),
        path.segment_text(i)[0] == (if path.is_start(i) {
            'M'
        } else {
            'L'
        }),
{
    reveal_strlit("M");
    reveal_strlit("L");
}

/// A path.
pub struct Path {
    pub uuid: String,
    points: Vec<Point>,
    starting_points: Vec<usize>,
    active_point: Option<usize>,
}

impl View for Path {
    type V = PathView;

    closed spec fn view(&self) -> PathView {
        PathView {
            uuid: self.uuid@,
            points: self.points@,
            starting_points: self.starting_points@,
            active_point: self.active_point,
        }
    }
}

/// Whether `i` is among the recorded indices.
fn contains_index(indices: &Vec<usize>, i: usize) -> (found: bool)
    ensures
        found == indices@.map_values(|s: usize| s as int).contains(i as int),
{
    let ghost ints = indices@.map_values(|s: usize| s as int);
    let n: usize = indices.len();
    let mut k: usize = 0;
    while k < n
        invariant
            0 <= k <= n,
            n == indices.len(),
            ints == indices@.map_values(|s: usize| s as int),
            forall|j: int| 0 <= j < k ==> ints[j] != i as int,
        decreases n - k,
    {
        if indices[k] == i {
            assert(ints[k as int] == i as int);
            return true;
        }
        k += 1;
    }
    false
}

impl Path {
    /// A path without points, under a fresh identity.
    pub fn new() -> (path: Path)
        ensures
            path@.points.len() == 0,
            path@.starting_points.len() == 0,
            path@.active_point is None,
            path@.wf(),
            is_uuid_text(path@.uuid),
    {
        Path {
            uuid: gen_uuid(),
            points: Vec::new(),
            starting_points: Vec::new(),
            active_point: None,
        }
    }

    /// A path through the given points as a single run, under a fresh
    /// identity. At least one point is needed.
    pub fn from_points(points: Vec<Point>) -> (r: Result<Path, SvgError>)
        ensures
            points@.len() == 0 ==> r == Err::<Path, SvgError>(SvgError::EmptyPathConstruction),
            points@.len() > 0 ==> r is Ok && r->Ok_0@.points == points@
                && r->Ok_0@.starting_points == seq![0usize] && r->Ok_0@.active_point is None
                && r->Ok_0@.wf() && is_uuid_text(r->Ok_0@.uuid),
    {
        if points.len() > 0 {
            let mut starting_points: Vec<usize> = Vec::new();
            starting_points.push(0);
            assert(starting_points@ =~= seq![0usize]);
            return Ok(Path { uuid: gen_uuid(), points, starting_points, active_point: None });
        }
        Err(SvgError::EmptyPathConstruction)
    }

    /// Appends the points as a new run and records where the run begins.
    /// With no points to append nothing is recorded, so that every recorded
    /// run begins at a point.
    pub fn add_nested_path(&mut self, points: Vec<Point>) -> (path: &Path)
        ensures
            final(self)@ == old(self)@.with_nested_path(points@),
            old(self)@.wf() ==> final(self)@.wf(),
            path@ == final(self)@,
    {
        let starting_point: usize = self.points.len();
        let mut points = points;
        if points.len() > 0 {
            self.points.append(&mut points);
            self.starting_points.push(starting_point);
        } else {
            assert(self.points@ + points@ =~= self.points@);
        }
        self
    }

    /// The point at index `i`, open to change, if there is one.
    pub fn get_point(&mut self, i: usize) -> (r: Option<&mut Point>)
        ensures
            i >= old(self)@.points.len() ==> r is None && final(self)@ == old(self)@,
            i < old(self)@.points.len() ==> r is Some && *r->0 == old(self)@.points[i as int]
                && final(self)@ == (PathView {
                points: old(self)@.points.update(i as int, *final(r->0)),
                ..old(self)@
            }),
    {
        if i < self.points.len() {
            Some(&mut self.points[i])
        } else {
            None
        }
    }

    /// Picks the point at index `i` for editing.
    pub fn select_point(&mut self, i: usize)
        ensures
            final(self)@ == (PathView { active_point: Some(i), ..old(self)@ }),
    {
        self.active_point = Some(i);
    }

    /// The path as a shape that a group can own.
    pub fn box_ptr(self) -> (shape: Box<Shape>)
        ensures
            *shape == Shape::Path(self),
    {
        Box::new(Shape::Path(self))
    }

    /// The points of the path in drawing order.
    pub fn points(&self) -> (points: &Vec<Point>)
        ensures
            points@ == self@.points,
    {
        &self.points
    }

    /// The indices at which a run begins.
    pub fn starting_points(&self) -> (indices: &Vec<usize>)
        ensures
            indices@ == self@.starting_points,
    {
        &self.starting_points
    }

    /// Whether `move_to` can take the path to `(x, y)`.
    pub fn fits_at(&self, x: Scalar, y: Scalar) -> (ok: bool)
        ensures
            ok == self@.can_move_to(x, y),
    {
        let n: usize = self.points.len();
        if n == 0 {
            return true;
        }
        let dx: i128 = x.millionths as i128 - self.points[0].x.millionths as i128;
        let dy: i128 = y.millionths as i128 - self.points[0].y.millionths as i128;
        let mut i: usize = 0;
        while i < n
            invariant
                0 <= i <= n,
                n == self.points.len(),
                dx == x.value() - self@.points[0].x.value(),
                dy == y.value() - self@.points[0].y.value(),
                forall|k: int| 0 <= k < i ==> #[trigger] self@.point_fits(k, x, y),
            decreases n - i,
        {
            let nx: i128 = self.points[i].x.millionths as i128 + dx;
            let ny: i128 = self.points[i].y.millionths as i128 + dy;
            if nx < i64::MIN as i128 || nx > i64::MAX as i128 || ny < i64::MIN as i128 || ny
                > i64::MAX as i128 {
                assert(!self@.point_fits(i as int, x, y));
                return false;
            }
            i += 1;
        }
        true
    }
}

impl SVG for Path {
    open spec fn uuid_text(&self) -> Seq<char> {
        self@.uuid
    }

    open spec fn markup(&self) -> Seq<char> {
        self@.markup()
    }

    open spec fn can_move_to(&self, x: Scalar, y: Scalar) -> bool {
        self@.can_move_to(x, y)
    }

    open spec fn moved_to(&self, x: Scalar, y: Scalar) -> PathView {
        self@.moved_to(x, y)
    }

    open spec fn resized(&self, dims: Dimensions) -> Result<PathView, SvgError> {
        self@.resized(dims)
    }

    fn get_uuid(&self) -> (id: String) {
        self.uuid.clone()
    }

    fn to_html(&self) -> (html: String) {
        let n: usize = self.points.len();
        let mut segments: Vec<String> = Vec::new();
        let mut i: usize = 0;
        while i < n
            invariant
                0 <= i <= n,
                n == self.points.len(),
                segments@.len() == i,
                forall|k: int| 0 <= k < i ==> (#[trigger] segments@[k])@ == self@.segment_text(k),
            decreases n - i,
        {
            let mut segment = String::new();
            if contains_index(&self.starting_points, i) {
                segment.append("M");
            } else {
                segment.append("L");
            }
            segment.append(" ");
            self.points[i].x.append_to(&mut segment);
            segment.append(" ");
            self.points[i].y.append_to(&mut segment);
            assert(segment@ =~= self@.segment_text(i as int));
            segments.push(segment);
            i += 1;
        }
        assert(segments.deep_view() =~= self@.segment_texts());
        let data = join(&segments, " ");
        let attrs = vec![("d", data)];
        proof {
            assert(attribute_views(attrs@) =~= seq![("d"@, self@.path_data())]);
        }
        html_element("path", attrs)
    }

    fn move_to(&mut self, x: Scalar, y: Scalar) {
        let n: usize = self.points.len();
        if n > 0 {
            let dx: i128 = x.millionths as i128 - self.points[0].x.millionths as i128;
            let dy: i128 = y.millionths as i128 - self.points[0].y.millionths as i128;
            let mut i: usize = 0;
            while i < n
                invariant
                    0 <= i <= n,
                    n == self.points.len(),
                    n == old(self).points.len(),
                    old(self)@.can_move_to(x, y),
                    dx == x.value() - old(self)@.points[0].x.value(),
                    dy == y.value() - old(self)@.points[0].y.value(),
                    self.uuid == old(self).uuid,
                    self.starting_points == old(self).starting_points,
                    self.active_point == old(self).active_point,
                    forall|k: int|
                        0 <= k < i ==> self.points@[k] == old(self)@.shifted_point(k, x, y),
                    forall|k: int| i <= k < n ==> self.points@[k] == old(self).points@[k],
                decreases n - i,
            {
                let p: Point = self.points[i];
                assert(old(self)@.point_fits(i as int, x, y));
                let nx: i128 = p.x.millionths as i128 + dx;
                let ny: i128 = p.y.millionths as i128 + dy;
                self.points[i] = Point {
                    x: Scalar { millionths: nx as i64 },
                    y: Scalar { millionths: ny as i64 },
                };
                i += 1;
            }
        }
        assert(self@.points =~= old(self)@.moved_to(x, y).points);
    }

    fn resize(&mut self, dims: Dimensions) -> (r: Result<(), SvgError>) {
        if let Dimensions::IndexPosition(i, x, y) = dims {
            if let Some(point) = self.get_point(i) {
                point.x = x;
                point.y = y;
                Ok(())
            } else {
                Err(SvgError::ResizeIndexOutOfRange { index: i })
            }
        } else {
            Err(SvgError::ResizeKindMismatch { kind: ShapeKind::Path, dims })
        }
    }
}

} // verus!
