//! The grid: the whole scene, with its groups and its coordinate system.

use vstd::hash_map::StringHashMap;
use vstd::prelude::*;
use crate::utils::{gen_uuid, is_uuid_text};
use super::group::{Group, GroupView};
use super::scalar::{fits, halved};
use super::shape::{fresh_shape, kind_of_name, Shape, ShapeView};
use super::text::{join, join_text};
use super::{Dimensions, Scalar, SvgError, SVG};

verus! {

/// Where the origin of the coordinates lies and which way the axes run.
#[derive(Clone, Copy, Debug, PartialEq, Eq, Structural)]
pub enum CoordinateSystem {
    /// The origin is the top left corner; y grows downward, x to the right.
    TopLeftDownRight,
    /// The origin is the bottom left corner; y grows upward, x to the right.
    BottomLeftUpRight,
    /// The origin is the centre; y grows upward, x to the right.
    MidMidUpRight,
    /// The origin is the centre; y grows downward, x to the right.
    MidMidDownRight,
}

/// The name of the group that shapes are added to.
pub open spec fn shapes_name() -> Seq<char> {
    "shapes"@
}

/// The view box of a grid of the given size: four numbers separated by
/// spaces, of which the first two depend on the coordinate system.
pub open spec fn view_box_text(c: CoordinateSystem, width: Scalar, height: Scalar) -> Seq<char> {
    let size = width.text() + " "@ + height.text();
    match c {
        CoordinateSystem::TopLeftDownRight => "0 0 "@ + size,
        CoordinateSystem::BottomLeftUpRight => "0 "@ + height.text() + " "@ + size,
        CoordinateSystem::MidMidUpRight | CoordinateSystem::MidMidDownRight => decimal_half_text(
            width,
        ) + " "@ + decimal_half_text(height) + " "@ + size,
    }
}

/// The notation of half of a number.
pub open spec fn decimal_half_text(s: Scalar) -> Seq<char> {
    (Scalar { millionths: halved(s.value()) as i64 }).text()
}

/// Whether a rule is defined that takes coordinates of the system `from` to
/// the system `to`.
pub open spec fn transform_supported(from: CoordinateSystem, to: CoordinateSystem) -> bool {
    from == CoordinateSystem::TopLeftDownRight && (to == CoordinateSystem::MidMidDownRight || to
        == CoordinateSystem::MidMidUpRight)
}

/// What a grid is: its identity, its size and coordinate system with the
/// view box that follows from them, its groups, and the index under which
/// each shape was added, by the shape's identity.
#[verifier::ext_equal]
pub struct GridView {
    pub uuid: Seq<char>,
    pub width: Scalar,
    pub height: Scalar,
    pub coordinate_system: CoordinateSystem,
    pub view_box: Seq<char>,
    pub groups: Seq<GroupView>,
    pub shapes: Map<Seq<char>, usize>,
}

impl GridView {
    /// The first group is the one named `shapes`, no two groups share a
    /// name, and the view box is the one of the size and coordinate system.
    pub open spec fn wf(self) -> bool {
        &&& self.groups.len() > 0
        &&& self.groups[0].name == shapes_name()
        &&& forall|j: int, k: int|
            0 <= j < k < self.groups.len() ==> (#[trigger] self.groups[j]).name
                != (#[trigger] self.groups[k]).name
        &&& self.view_box == view_box_text(self.coordinate_system, self.width, self.height)
    }

    /// The group that shapes are added to.
    pub open spec fn shapes_group(self) -> GroupView {
        self.groups[0]
    }

    /// Whether a group goes by this name.
    pub open spec fn has_group(self, name: Seq<char>) -> bool {
        exists|k: int| 0 <= k < self.groups.len() && (#[trigger] self.groups[k]).name == name
    }

    /// The index of a group that goes by this name.
    pub open spec fn group_position(self, name: Seq<char>) -> int {
        choose|k: int| 0 <= k < self.groups.len() && (#[trigger] self.groups[k]).name == name
    }

    /// The grid with the group put in the place of the one that shares its
    /// name, or at the end if none does.
    pub open spec fn with_group(self, group: GroupView) -> GridView {
        GridView {
            groups: if self.has_group(group.name) {
                self.groups.update(self.group_position(group.name), group)
            } else {
                self.groups.push(group)
            },
            ..self
        }
    }

    /// The grid with one more shape at the end of the group `shapes`, and
    /// with the shape's index recorded under its identity.
    pub open spec fn with_shape(self, shape: ShapeView) -> GridView {
        GridView {
            groups: self.groups.update(0, self.shapes_group().with_shape(shape)),
            shapes: self.shapes.insert(shape.uuid(), self.shapes_group().shapes.len() as usize),
            ..self
        }
    }

    /// The grid with the shape at index `i` of the group `shapes` replaced.
    pub open spec fn with_shape_at(self, i: int, shape: ShapeView) -> GridView {
        GridView {
            groups: self.groups.update(0, self.shapes_group().with_shape_at(i, shape)),
            ..self
        }
    }

    /// The markup of each group, in order.
    pub open spec fn group_markups(self) -> Seq<Seq<char>> {
        self.groups.map_values(|g: GroupView| g.markup())
    }

    /// The markup of the scene: an `svg` element that carries the view box
    /// and holds the groups, one after the other.
    pub open spec fn markup(self) -> Seq<char> {
        "<svg viewBox=\""@ + self.view_box + "\">\n"@ + join_text(self.group_markups(), "\n"@)
            + "\n</svg>"@
    }

    /// The horizontal coordinate in this grid of a point that lies at `x` in
    /// a grid of the same size with the origin in the top left corner.
    pub open spec fn transformed_x(self, x: Scalar) -> int {
        x.value() - halved(self.width.value())
    }

    /// The vertical coordinate in this grid of a point that lies at `y` in a
    /// grid of the same size with the origin in the top left corner.
    pub open spec fn transformed_y(self, y: Scalar) -> int {
        if self.coordinate_system == CoordinateSystem::MidMidUpRight {
            halved(self.height.value()) - y.value()
        } else {
            y.value() - halved(self.height.value())
        }
    }

    /// Whether `i` is the index of a shape.
    pub open spec fn has_shape(self, i: int) -> bool {
        0 <= i < self.shapes_group().shapes.len()
    }

    /// The shape at index `i`.
    pub open spec fn shape(self, i: int) -> ShapeView {
        self.shapes_group().shapes[i]
    }
}

/// Replacing a shape leaves a well-formed grid well-formed.
pub proof fn lemma_with_shape_at_wf(grid: GridView, i: int, shape: ShapeView)
    requires
        grid.wf(),
    ensures
        grid.with_shape_at(i, shape).wf(),
{
}

/// A shape keeps its index: adding a shape, or replacing another one,
/// leaves every shape that was there where it was and as it was.
pub proof fn lemma_indices_are_stable(grid: GridView, shape: ShapeView, i: int, j: int)
    requires
        grid.groups.len() > 0,
        grid.has_shape(i),
        grid.has_shape(j),
        i != j,
    ensures
        grid.with_shape(shape).has_shape(i),
        grid.with_shape(shape).shape(i) == grid.shape(i),
        grid.with_shape(shape).shape(grid.shapes_group().shapes.len() as int) == shape,
        grid.with_shape_at(j, shape).has_shape(i),
        grid.with_shape_at(j, shape).shape(i) == grid.shape(i),
        grid.with_shape_at(j, shape).shape(j) == shape,
        grid.with_shape_at(j, shape).shapes_group().shapes.len()
            == grid.shapes_group().shapes.len(),
{
}

/// Replacing a shape by itself changes nothing.
pub proof fn lemma_with_same_shape(grid: GridView, i: int)
    requires
        grid.groups.len() > 0,
        grid.has_shape(i),
    ensures
        grid.with_shape_at(i, grid.shape(i)) == grid,
{
    let group = grid.shapes_group();
    assert(group.with_shape_at(i, grid.shape(i)) =~= group);
    assert(grid.with_shape_at(i, grid.shape(i)) =~= grid);
}

/// Adding a shape leaves a well-formed grid well-formed.
pub proof fn lemma_with_shape_wf(grid: GridView, shape: ShapeView)
    requires
        grid.wf(),
    ensures
        grid.with_shape(shape).wf(),
{
}

/// The scene.
pub struct Grid {
    uuid: String,
    width: Scalar,
    height: Scalar,
    coordinate_system: CoordinateSystem,
    view_box: String,
    groups: Vec<Group>,
    shapes: StringHashMap<usize>,
}

impl View for Grid {
    type V = GridView;

    closed spec fn view(&self) -> GridView {
        GridView {
            uuid: self.uuid@,
            width: self.width,
            height: self.height,
            coordinate_system: self.coordinate_system,
            view_box: self.view_box@,
            groups: self.groups@.map_values(|g: Group| g@),
            shapes: self.shapes@,
        }
    }
}

impl Grid {
    /// A grid of 1000 by 1000 units that holds the one empty group `shapes`.
    pub fn new(c: CoordinateSystem) -> (grid: Grid)
        ensures
            grid@.wf(),
            grid@.coordinate_system == c,
            grid@.width.value() == 1000 * super::scalar::SCALE,
            grid@.height.value() == 1000 * super::scalar::SCALE,
            grid@.groups.len() == 1,
            grid@.shapes_group().shapes.len() == 0,
            is_uuid_text(grid@.shapes_group().uuid),
            grid@.shapes == Map::<Seq<char>, usize>::empty(),
            is_uuid_text(grid@.uuid),
    {
        let mut grid = Grid {
            uuid: gen_uuid(),
            width: Scalar::from_whole(1000),
            height: Scalar::from_whole(1000),
            coordinate_system: c,
            view_box: String::new(),
            groups: Vec::new(),
            shapes: StringHashMap::new(),
        };
        grid.view_box = grid.init_view_box();
        grid.groups.push(Group::new("shapes"));
        grid
    }

    /// The view box that goes with the size and the coordinate system.
    fn init_view_box(&self) -> (view_box: String)
        ensures
            view_box@ == view_box_text(self@.coordinate_system, self@.width, self@.height),
    {
        let mut view_box = String::new();
        match self.coordinate_system {
            CoordinateSystem::TopLeftDownRight => {
                view_box.append("0 0 ");
            },
            CoordinateSystem::BottomLeftUpRight => {
                view_box.append("0 ");
                self.height.append_to(&mut view_box);
                view_box.append(" ");
            },
            CoordinateSystem::MidMidDownRight | CoordinateSystem::MidMidUpRight => {
                self.width.half().append_to(&mut view_box);
                view_box.append(" ");
                self.height.half().append_to(&mut view_box);
                view_box.append(" ");
            },
        }
        self.width.append_to(&mut view_box);
        view_box.append(" ");
        self.height.append_to(&mut view_box);
        assert(view_box@ =~= view_box_text(self@.coordinate_system, self@.width, self@.height));
        view_box
    }

    /// Whether `transform_coordinates` can store what it computes for the
    /// point `(x, y)`.
    pub fn transform_fits(&self, x: Scalar, y: Scalar) -> (ok: bool)
        ensures
            ok == (fits(self@.transformed_x(x)) && fits(self@.transformed_y(y))),
    {
        let half_width: i128 = self.width.half().millionths as i128;
        let half_height: i128 = self.height.half().millionths as i128;
        let result_x: i128 = x.millionths as i128 - half_width;
        let result_y: i128 = match self.coordinate_system {
            CoordinateSystem::MidMidUpRight => half_height - y.millionths as i128,
            _ => y.millionths as i128 - half_height,
        };
        i64::MIN as i128 <= result_x && result_x <= i64::MAX as i128 && i64::MIN as i128
            <= result_y && result_y <= i64::MAX as i128
    }

    /// Takes the point `(x, y)`, given in the coordinate system `from` of a
    /// grid of the same size, to this grid's coordinate system. A rule is
    /// defined only from `TopLeftDownRight` to the two systems with the
    /// origin in the centre.
    pub fn transform_coordinates(&self, x: Scalar, y: Scalar, from: &CoordinateSystem) -> (r:
        Result<(Scalar, Scalar), SvgError>)
        requires
            transform_supported(*from, self@.coordinate_system) ==> fits(self@.transformed_x(x))
                && fits(self@.transformed_y(y)),
        ensures
            transform_supported(*from, self@.coordinate_system) ==> r is Ok && r->Ok_0.0.value()
                == self@.transformed_x(x) && r->Ok_0.1.value() == self@.transformed_y(y),
            !transform_supported(*from, self@.coordinate_system) ==> r == Err::<
                (Scalar, Scalar),
                SvgError,
            >(SvgError::UnsupportedCoordinateTransform),
    {
        let half_width: i128 = self.width.half().millionths as i128;
        let half_height: i128 = self.height.half().millionths as i128;
        match (from, &self.coordinate_system) {
            (CoordinateSystem::TopLeftDownRight, CoordinateSystem::MidMidDownRight) => {
                let result_x: i128 = x.millionths as i128 - half_width;
                let result_y: i128 = y.millionths as i128 - half_height;
                Ok(
                    (
                        Scalar { millionths: result_x as i64 },
                        Scalar { millionths: result_y as i64 },
                    ),
                )
            },
            (CoordinateSystem::TopLeftDownRight, CoordinateSystem::MidMidUpRight) => {
                let result_x: i128 = x.millionths as i128 - half_width;
                let result_y: i128 = half_height - y.millionths as i128;
                Ok(
                    (
                        Scalar { millionths: result_x as i64 },
                        Scalar { millionths: result_y as i64 },
                    ),
                )
            },
            _ => Err(SvgError::UnsupportedCoordinateTransform),
        }
    }

    /// The index of the group that goes by this name, if there is one.
    fn find_group(&self, name: &str) -> (r: Option<usize>)
        ensures
            match r {
                Some(k) => k < self@.groups.len() && self@.groups[k as int].name == name@,
                None => !self@.has_group(name@),
            },
    {
        let n: usize = self.groups.len();
        let mut k: usize = 0;
        while k < n
            invariant
                0 <= k <= n,
                n == self.groups.len(),
                forall|j: int| 0 <= j < k ==> (#[trigger] self@.groups[j]).name != name@,
            decreases n - k,
        {
            if self.groups[k].is_named(name) {
                return Some(k);
            }
            k += 1;
        }
        None
    }

    /// Takes ownership of the group, in the place of the one that shares its
    /// name if there is one, and returns the group as the grid holds it.
    pub fn add_group(&mut self, group: Group) -> (stored: &Group)
        requires
            old(self)@.wf(),
        ensures
            final(self)@ == old(self)@.with_group(group@),
            final(self)@.wf(),
            stored@ == group@,
    {
        let key = group.get_name();
        let ghost view = group@;
        match self.find_group(key.as_str()) {
            Some(k) => {
                assert(old(self)@.groups[k as int].name == view.name);
                assert(old(self)@.has_group(view.name));
                assert(old(self)@.group_position(view.name) == k as int);
                self.groups[k] = group;
                assert(self@.groups =~= old(self)@.groups.update(k as int, view));
                &self.groups[k]
            },
            None => {
                self.groups.push(group);
                assert(self@.groups =~= old(self)@.groups.push(view));
                let last: usize = self.groups.len() - 1;
                &self.groups[last]
            },
        }
    }

    /// Hands the shape to the group `shapes`, records its index under its
    /// identity, and returns the index.
    pub fn add_shape(&mut self, shape: Box<Shape>) -> (index: usize)
        requires
            old(self)@.wf(),
        ensures
            final(self)@ == old(self)@.with_shape(shape@),
            final(self)@.wf(),
            index == old(self)@.shapes_group().shapes.len(),
    {
        let id = shape.get_uuid();
        let ghost view = shape@;
        let shape_idx = self.groups[0].add_shape(shape);
        self.shapes.insert(id, shape_idx);
        proof {
            assert(self@.groups =~= old(self)@.groups.update(
                0,
                old(self)@.shapes_group().with_shape(view),
            ));
            lemma_with_shape_wf(old(self)@, view);
        }
        shape_idx
    }

    /// The shape at index `i` of the group `shapes`, if there is one.
    pub fn get_shape(&self, i: usize) -> (r: Option<&Box<Shape>>)
        requires
            self@.wf(),
        ensures
            self@.has_shape(i as int) ==> r is Some && r->0@ == self@.shape(i as int),
            !self@.has_shape(i as int) ==> r is None,
    {
        self.groups[0].get_shape(i)
    }

    /// The shape at index `i` of the group `shapes`, open to change, if
    /// there is one.
    pub fn get_shape_mut(&mut self, i: usize) -> (r: Option<&mut Box<Shape>>)
        requires
            old(self)@.wf(),
        ensures
            !old(self)@.has_shape(i as int) ==> r is None && final(self)@ == old(self)@,
            old(self)@.has_shape(i as int) ==> r is Some && r->0@ == old(self)@.shape(i as int)
                && final(self)@ == old(self)@.with_shape_at(i as int, final(r->0)@),
            final(self)@.wf(),
    {
        let r = self.groups[0].get_shape_mut(i);
        proof {
            if r is Some {
                lemma_with_shape_at_wf(old(self)@, i as int, final(r->0)@);
            }
        }
        r
    }

    /// Draws a shape of the kind that goes by the name `kind` at `(x, y)`:
    /// a rectangle or circle without extent, or a path of the one point.
    /// Returns the index of the new shape; any other name is refused.
    pub fn create_shape(&mut self, kind: &str, x: Scalar, y: Scalar) -> (r: Result<
        usize,
        SvgError,
    >)
        requires
            old(self)@.wf(),
        ensures
            final(self)@.wf(),
            match kind_of_name(kind@) {
                Some(k) => r == Ok::<usize, SvgError>(
                    old(self)@.shapes_group().shapes.len() as usize,
                ) && is_uuid_text(final(self)@.shapes_group().shapes.last().uuid())
                    && final(self)@ == old(self)@.with_shape(
                    fresh_shape(k, final(self)@.shapes_group().shapes.last().uuid(), x, y),
                ),
                None => r matches Err(SvgError::InvalidShapeKind { name }) && name@ == kind@
                    && final(self)@ == old(self)@,
            },
    {
        match Shape::create(kind, x, y) {
            Ok(shape) => Ok(self.add_shape(shape)),
            Err(e) => Err(e),
        }
    }

    /// Moves the shape at `index` to `(x, y)`.
    pub fn move_shape(&mut self, index: usize, x: Scalar, y: Scalar) -> (r: Result<(), SvgError>)
        requires
            old(self)@.wf(),
            old(self)@.has_shape(index as int) ==> old(self)@.shape(index as int).can_move_to(
                x,
                y,
            ),
        ensures
            final(self)@.wf(),
            old(self)@.has_shape(index as int) ==> r is Ok && final(self)@ == old(
                self,
            )@.with_shape_at(index as int, old(self)@.shape(index as int).moved_to(x, y)),
            !old(self)@.has_shape(index as int) ==> r == Err::<(), SvgError>(
                SvgError::ShapeNotFound { index },
            ) && final(self)@ == old(self)@,
    {
        match self.get_shape_mut(index) {
            Some(shape) => {
                shape.move_to(x, y);
                Ok(())
            },
            None => Err(SvgError::ShapeNotFound { index }),
        }
    }

    /// Resizes the shape at `index`, if it takes dimensions of this variant.
    pub fn resize_shape(&mut self, index: usize, dims: Dimensions) -> (r: Result<(), SvgError>)
        requires
            old(self)@.wf(),
        ensures
            final(self)@.wf(),
            !old(self)@.has_shape(index as int) ==> r == Err::<(), SvgError>(
                SvgError::ShapeNotFound { index },
            ) && final(self)@ == old(self)@,
            old(self)@.has_shape(index as int) ==> match old(self)@.shape(index as int).resized(
                dims,
            ) {
                Ok(shape) => r is Ok && final(self)@ == old(self)@.with_shape_at(
                    index as int,
                    shape,
                ),
                Err(e) => r == Err::<(), SvgError>(e) && final(self)@ == old(self)@,
            },
    {
        proof {
            if self@.has_shape(index as int) {
                lemma_with_same_shape(self@, index as int);
            }
        }
        match self.get_shape_mut(index) {
            Some(shape) => shape.resize(dims),
            None => Err(SvgError::ShapeNotFound { index }),
        }
    }

    pub fn get_uuid(&self) -> (id: String)
        ensures
            id@ == self@.uuid,
    {
        self.uuid.clone()
    }

    /// The markup of the whole scene.
    pub fn to_html(&self) -> (html: String)
        ensures
            html@ == self@.markup(),
    {
        let n: usize = self.groups.len();
        let mut htmls: Vec<String> = Vec::new();
        let mut i: usize = 0;
        while i < n
            invariant
                0 <= i <= n,
                n == self.groups.len(),
                htmls@.len() == i,
                forall|k: int| 0 <= k < i ==> (#[trigger] htmls@[k])@ == self@.groups[k].markup(),
            decreases n - i,
        {
            let html = self.groups[i].to_html();
            htmls.push(html);
            i += 1;
        }
        assert(htmls.deep_view() =~= self@.group_markups());
        let groups_str = join(&htmls, "\n");
        let mut html = String::new();
        html.append("<svg viewBox=\"");
        html.append(self.view_box.as_str());
        html.append("\">\n");
        html.append(groups_str.as_str());
        html.append("\n</svg>");
        assert(html@ =~= self@.markup());
        html
    }
}

} // verus!
