use vstd::prelude::*;

use crate::geometry::{
    spec_half_wall_height, spec_wall_height, half_wall_height, wall_height, Frac, Pos3,
    YawRotation, GOAL_INSET_DEN, MARKER_LIFT_DEN, MARKER_LIFT_NUM, MARKER_RADIUS_DEN,
};
use crate::maze::{count_kind_upto, lemma_row_major_index_in_range, FieldKind, MazeGrid};

verus! {

/// Largest maze dimension the compiler accepts; keeps every coordinate
/// numerator comfortably inside `i64`.
pub const MAX_GRID_DIM: usize = 1_000_000;
/// Largest playfield side length the compiler accepts, in world units.
pub const MAX_PLAYFIELD: i64 = 1_000_000;

/// Whether a wall belongs to the closed outer boundary or to the maze
/// interior.
#[derive(Clone, Copy, PartialEq, Eq, Structural, Debug)]
pub enum WallKind {
    /// One of the four outer boundary walls.
    Border,
    /// A wall between two adjacent cells.
    Interior,
}

/// One wall slab: a box of the given length, fixed height and fixed
/// thickness, placed at `position` (its centre) with a yaw rotation, as a
/// child of the floor so it inherits the floor's tilt.
#[derive(Clone, Copy, PartialEq, Eq, Structural, Debug)]
pub struct WallPlacement {
    /// Border or interior wall.
    pub kind: WallKind,
    /// Length of the slab along its local horizontal axis.
    pub length: Frac,
    /// Centre of the slab in floor-relative coordinates.
    pub position: Pos3,
    /// Yaw of the slab: unrotated walls run along columns, quarter-turned
    /// walls along rows.
    pub rotation: YawRotation,
}

/// The square floor: a horizontal collidable plane of side `size`, centred
/// at the origin, whose orientation is driven by the tilt controller.
#[derive(Clone, Copy, PartialEq, Eq, Structural, Debug)]
pub struct FloorPlacement {
    /// Side length of the floor.
    pub size: Frac,
}

/// The start marker: a small dynamic sphere resting at the centre of the
/// start cell; a free body, not parented to the floor.
#[derive(Clone, Copy, PartialEq, Eq, Structural, Debug)]
pub struct StartMarker {
    /// Centre of the sphere.
    pub position: Pos3,
    /// Radius of the sphere.
    pub radius: Frac,
}

/// The goal marker: a flat, semi-transparent, non-collidable box covering
/// the goal cell's footprint minus a small visual inset; a child of the
/// floor.
#[derive(Clone, Copy, PartialEq, Eq, Structural, Debug)]
pub struct GoalMarker {
    /// Centre of the box.
    pub position: Pos3,
    /// Extent of the box along columns.
    pub size_x: Frac,
    /// Extent of the box upwards.
    pub size_y: Frac,
    /// Extent of the box along rows.
    pub size_z: Frac,
}

/// The goal sensor: a zero-mass trigger volume shaped as a short vertical
/// segment at the goal cell's centre, turned an eighth backwards to present
/// a diagonal trigger face; a child of the floor, sensor-only.
#[derive(Clone, Copy, PartialEq, Eq, Structural, Debug)]
pub struct GoalSensor {
    /// Base point of the segment.
    pub position: Pos3,
    /// Length of the vertical segment.
    pub height: Frac,
    /// Yaw of the segment.
    pub rotation: YawRotation,
}

/// The ceiling: a flat collidable plane above the whole playfield, a child
/// of the floor, keeping the marker inside the play volume under tilt.
#[derive(Clone, Copy, PartialEq, Eq, Structural, Debug)]
pub struct CeilingPlacement {
    /// Centre of the ceiling plane.
    pub position: Pos3,
    /// Half extent along columns.
    pub half_x: Frac,
    /// Half extent upwards (zero: a flat plane).
    pub half_y: Frac,
    /// Half extent along rows.
    pub half_z: Frac,
}

/// The complete geometric output of compiling one maze: every placement an
/// engine needs to realise the level, in a deterministic order.
#[derive(Clone, Debug)]
pub struct LevelLayout {
    /// The floor plane.
    pub floor: FloorPlacement,
    /// All walls: the four border walls first, then the interior walls in
    /// row-major cell order, north wall before west wall within a cell.
    pub walls: Vec<WallPlacement>,
    /// One start marker per start cell, in row-major cell order.
    pub start_markers: Vec<StartMarker>,
    /// One goal marker per goal cell, in row-major cell order.
    pub goal_markers: Vec<GoalMarker>,
    /// One goal sensor per goal cell, in row-major cell order.
    pub goal_sensors: Vec<GoalSensor>,
    /// The ceiling plane.
    pub ceiling: CeilingPlacement,
}

/// Why compiling a maze failed.
#[derive(Clone, Copy, PartialEq, Eq, Structural, Debug)]
pub enum CompileError {
    /// The maze is malformed: a zero dimension, or no start or no goal cell.
    InvalidTopology,
}

/// The zero coordinate.
pub open spec fn spec_zero_frac() -> Frac {
    Frac { num: 0, den: 1 }
}

/// Width of one cell: the playfield side split evenly over the columns.
pub open spec fn spec_cell_size_x(s: int, w: int) -> Frac {
    Frac { num: s as i64, den: w as i64 }
}

/// Height (along rows) of one cell: the playfield side split evenly over
/// the rows.
pub open spec fn spec_cell_size_z(s: int, h: int) -> Frac {
    Frac { num: s as i64, den: h as i64 }
}

/// Column coordinate of the centre of cell column `col`:
/// `col * s/w - s/2 + s/(2w)`.
pub open spec fn spec_cell_center_x(s: int, w: int, col: int) -> Frac {
    Frac { num: (s * (2 * col + 1 - w)) as i64, den: (2 * w) as i64 }
}

/// Row coordinate of the centre of cell row `row`.
pub open spec fn spec_cell_center_z(s: int, h: int, row: int) -> Frac {
    Frac { num: (s * (2 * row + 1 - h)) as i64, den: (2 * h) as i64 }
}

/// Column coordinate of the west edge of cell column `col`: `col * s/w - s/2`.
pub open spec fn spec_cell_west_x(s: int, w: int, col: int) -> Frac {
    Frac { num: (s * (2 * col - w)) as i64, den: (2 * w) as i64 }
}

/// Row coordinate of the north edge of cell row `row`.
pub open spec fn spec_cell_north_z(s: int, h: int, row: int) -> Frac {
    Frac { num: (s * (2 * row - h)) as i64, den: (2 * h) as i64 }
}

/// The border wall on the near side (largest row coordinate).
pub open spec fn spec_border_front(s: int) -> WallPlacement {
    WallPlacement {
        kind: WallKind::Border,
        length: Frac { num: s as i64, den: 1 },
        position: Pos3 {
            x: spec_zero_frac(),
            y: spec_half_wall_height(),
            z: Frac { num: s as i64, den: 2 },
        },
        rotation: YawRotation::Deg0,
    }
}

/// The border wall on the far side (smallest row coordinate).
pub open spec fn spec_border_back(s: int) -> WallPlacement {
    WallPlacement {
        kind: WallKind::Border,
        length: Frac { num: s as i64, den: 1 },
        position: Pos3 {
            x: spec_zero_frac(),
            y: spec_half_wall_height(),
            z: Frac { num: (-s) as i64, den: 2 },
        },
        rotation: YawRotation::Deg0,
    }
}

/// The border wall on the left side (smallest column coordinate).
pub open spec fn spec_border_left(s: int) -> WallPlacement {
    WallPlacement {
        kind: WallKind::Border,
        length: Frac { num: s as i64, den: 1 },
        position: Pos3 {
            x: Frac { num: (-s) as i64, den: 2 },
            y: spec_half_wall_height(),
            z: spec_zero_frac(),
        },
        rotation: YawRotation::Deg90,
    }
}

/// The border wall on the right side (largest column coordinate).
pub open spec fn spec_border_right(s: int) -> WallPlacement {
    WallPlacement {
        kind: WallKind::Border,
        length: Frac { num: s as i64, den: 1 },
        position: Pos3 {
            x: Frac { num: s as i64, den: 2 },
            y: spec_half_wall_height(),
            z: spec_zero_frac(),
        },
        rotation: YawRotation::Deg90,
    }
}

/// The four border walls, in emission order: front, back, left, right.
pub open spec fn spec_border_walls(s: int) -> Seq<WallPlacement> {
    seq![spec_border_front(s), spec_border_back(s), spec_border_left(s), spec_border_right(s)]
}

/// The wall closing the north edge of cell `(col, row)`: one cell wide,
/// unrotated, centred on the edge's midpoint.
pub open spec fn spec_north_wall(m: MazeGrid, s: int, col: int, row: int) -> WallPlacement {
    WallPlacement {
        kind: WallKind::Interior,
        length: spec_cell_size_x(s, m.width as int),
        position: Pos3 {
            x: spec_cell_center_x(s, m.width as int, col),
            y: spec_half_wall_height(),
            z: spec_cell_north_z(s, m.height as int, row),
        },
        rotation: YawRotation::Deg0,
    }
}

/// The wall closing the west edge of cell `(col, row)`: one cell deep,
/// quarter-turned, centred on the edge's midpoint.
pub open spec fn spec_west_wall(m: MazeGrid, s: int, col: int, row: int) -> WallPlacement {
    WallPlacement {
        kind: WallKind::Interior,
        length: spec_cell_size_z(s, m.height as int),
        position: Pos3 {
            x: spec_cell_west_x(s, m.width as int, col),
            y: spec_half_wall_height(),
            z: spec_cell_center_z(s, m.height as int, row),
        },
        rotation: YawRotation::Deg90,
    }
}

/// The walls one cell contributes: a north wall where the north passage is
/// missing (except in row 0, which the border already closes), then a west
/// wall where the west passage is missing (except in column 0). The
/// symmetric south and east walls belong to the neighbouring cells and are
/// never emitted, so no coincident geometry is ever produced.
pub open spec fn spec_cell_walls(m: MazeGrid, s: int, col: int, row: int) -> Seq<WallPlacement> {
    let c = m.spec_cell(col, row);
    (if row != 0 && !c.north {
        seq![spec_north_wall(m, s, col, row)]
    } else {
        Seq::<WallPlacement>::empty()
    }) + (if col != 0 && !c.west {
        seq![spec_west_wall(m, s, col, row)]
    } else {
        Seq::<WallPlacement>::empty()
    })
}

/// The walls of the first `ncols` cells of row `row`, in column order.
pub open spec fn spec_row_walls_upto(m: MazeGrid, s: int, row: int, ncols: int) -> Seq<
    WallPlacement,
>
    decreases ncols,
{
    if ncols <= 0 {
        Seq::empty()
    } else {
        spec_row_walls_upto(m, s, row, ncols - 1) + spec_cell_walls(m, s, ncols - 1, row)
    }
}

/// The walls of the first `nrows` full rows, in row-major order.
pub open spec fn spec_walls_upto_row(m: MazeGrid, s: int, nrows: int) -> Seq<WallPlacement>
    decreases nrows,
{
    if nrows <= 0 {
        Seq::empty()
    } else {
        spec_walls_upto_row(m, s, nrows - 1) + spec_row_walls_upto(m, s, nrows - 1, m.width as int)
    }
}

/// All interior walls of the maze, in row-major cell order.
pub open spec fn spec_interior_walls(m: MazeGrid, s: int) -> Seq<WallPlacement> {
    spec_walls_upto_row(m, s, m.height as int)
}

/// The start marker of cell `(col, row)`: a sphere at the cell's centre,
/// lifted by its radius plus a small clearance so it rests on the floor.
pub open spec fn spec_start_marker(m: MazeGrid, s: int, col: int, row: int) -> StartMarker {
    StartMarker {
        position: Pos3 {
            x: spec_cell_center_x(s, m.width as int, col),
            y: Frac { num: MARKER_LIFT_NUM, den: MARKER_LIFT_DEN },
            z: spec_cell_center_z(s, m.height as int, row),
        },
        radius: Frac { num: 1, den: MARKER_RADIUS_DEN },
    }
}

/// The goal marker of cell `(col, row)`: the cell footprint inset slightly
/// on each side, wall-high, centred on the cell.
pub open spec fn spec_goal_marker(m: MazeGrid, s: int, col: int, row: int) -> GoalMarker {
    GoalMarker {
        position: Pos3 {
            x: spec_cell_center_x(s, m.width as int, col),
            y: spec_half_wall_height(),
            z: spec_cell_center_z(s, m.height as int, row),
        },
        size_x: Frac {
            num: (GOAL_INSET_DEN as int * s - m.width as int) as i64,
            den: (GOAL_INSET_DEN as int * m.width as int) as i64,
        },
        size_y: spec_wall_height(),
        size_z: Frac {
            num: (GOAL_INSET_DEN as int * s - m.height as int) as i64,
            den: (GOAL_INSET_DEN as int * m.height as int) as i64,
        },
    }
}

/// The goal sensor of cell `(col, row)`: a wall-high vertical segment at the
/// cell's centre, turned an eighth backwards.
pub open spec fn spec_goal_sensor(m: MazeGrid, s: int, col: int, row: int) -> GoalSensor {
    GoalSensor {
        position: Pos3 {
            x: spec_cell_center_x(s, m.width as int, col),
            y: spec_half_wall_height(),
            z: spec_cell_center_z(s, m.height as int, row),
        },
        height: spec_wall_height(),
        rotation: YawRotation::Deg45Neg,
    }
}

/// The start markers cell `(col, row)` contributes: one for a start cell,
/// none otherwise.
pub open spec fn spec_cell_starts(m: MazeGrid, s: int, col: int, row: int) -> Seq<StartMarker> {
    if m.spec_cell(col, row).kind == FieldKind::Start {
        seq![spec_start_marker(m, s, col, row)]
    } else {
        Seq::empty()
    }
}

/// The goal markers cell `(col, row)` contributes.
pub open spec fn spec_cell_goals(m: MazeGrid, s: int, col: int, row: int) -> Seq<GoalMarker> {
    if m.spec_cell(col, row).kind == FieldKind::Goal {
        seq![spec_goal_marker(m, s, col, row)]
    } else {
        Seq::empty()
    }
}

/// The goal sensors cell `(col, row)` contributes.
pub open spec fn spec_cell_sensors(m: MazeGrid, s: int, col: int, row: int) -> Seq<GoalSensor> {
    if m.spec_cell(col, row).kind == FieldKind::Goal {
        seq![spec_goal_sensor(m, s, col, row)]
    } else {
        Seq::empty()
    }
}

/// The start markers of the first `ncols` cells of row `row`.
pub open spec fn spec_row_starts_upto(m: MazeGrid, s: int, row: int, ncols: int) -> Seq<StartMarker>
    decreases ncols,
{
    if ncols <= 0 {
        Seq::empty()
    } else {
        spec_row_starts_upto(m, s, row, ncols - 1) + spec_cell_starts(m, s, ncols - 1, row)
    }
}

/// The start markers of the first `nrows` full rows.
pub open spec fn spec_starts_upto_row(m: MazeGrid, s: int, nrows: int) -> Seq<StartMarker>
    decreases nrows,
{
    if nrows <= 0 {
        Seq::empty()
    } else {
        spec_starts_upto_row(m, s, nrows - 1) + spec_row_starts_upto(m, s, nrows - 1, m.width as int)
    }
}

/// All start markers of the maze, in row-major cell order.
pub open spec fn spec_start_markers(m: MazeGrid, s: int) -> Seq<StartMarker> {
    spec_starts_upto_row(m, s, m.height as int)
}

/// The goal markers of the first `ncols` cells of row `row`.
pub open spec fn spec_row_goals_upto(m: MazeGrid, s: int, row: int, ncols: int) -> Seq<GoalMarker>
    decreases ncols,
{
    if ncols <= 0 {
        Seq::empty()
    } else {
        spec_row_goals_upto(m, s, row, ncols - 1) + spec_cell_goals(m, s, ncols - 1, row)
    }
}

/// The goal markers of the first `nrows` full rows.
pub open spec fn spec_goals_upto_row(m: MazeGrid, s: int, nrows: int) -> Seq<GoalMarker>
    decreases nrows,
{
    if nrows <= 0 {
        Seq::empty()
    } else {
        spec_goals_upto_row(m, s, nrows - 1) + spec_row_goals_upto(m, s, nrows - 1, m.width as int)
    }
}

/// All goal markers of the maze, in row-major cell order.
pub open spec fn spec_goal_markers(m: MazeGrid, s: int) -> Seq<GoalMarker> {
    spec_goals_upto_row(m, s, m.height as int)
}

/// The goal sensors of the first `ncols` cells of row `row`.
pub open spec fn spec_row_sensors_upto(m: MazeGrid, s: int, row: int, ncols: int) -> Seq<GoalSensor>
    decreases ncols,
{
    if ncols <= 0 {
        Seq::empty()
    } else {
        spec_row_sensors_upto(m, s, row, ncols - 1) + spec_cell_sensors(m, s, ncols - 1, row)
    }
}

/// The goal sensors of the first `nrows` full rows.
pub open spec fn spec_sensors_upto_row(m: MazeGrid, s: int, nrows: int) -> Seq<GoalSensor>
    decreases nrows,
{
    if nrows <= 0 {
        Seq::empty()
    } else {
        spec_sensors_upto_row(m, s, nrows - 1) + spec_row_sensors_upto(
            m,
            s,
            nrows - 1,
            m.width as int,
        )
    }
}

/// All goal sensors of the maze, in row-major cell order.
pub open spec fn spec_goal_sensors(m: MazeGrid, s: int) -> Seq<GoalSensor> {
    spec_sensors_upto_row(m, s, m.height as int)
}

/// The floor the layout places.
pub open spec fn spec_floor(s: int) -> FloorPlacement {
    FloorPlacement { size: Frac { num: s as i64, den: 1 } }
}

/// The ceiling the layout places: a flat plane one wall height above the
/// floor, covering the whole playfield.
pub open spec fn spec_ceiling(s: int) -> CeilingPlacement {
    CeilingPlacement {
        position: Pos3 { x: spec_zero_frac(), y: spec_wall_height(), z: spec_zero_frac() },
        half_x: Frac { num: s as i64, den: 2 },
        half_y: Frac { num: 0, den: 1 },
        half_z: Frac { num: s as i64, den: 2 },
    }
}

/// The full compilation contract: `l` is exactly the layout that maze `m`
/// and playfield side `s` determine.
pub open spec fn spec_layout_matches(m: MazeGrid, s: int, l: LevelLayout) -> bool {
    &&& l.floor == spec_floor(s)
    &&& l.walls@ == spec_border_walls(s) + spec_interior_walls(m, s)
    &&& l.start_markers@ == spec_start_markers(m, s)
    &&& l.goal_markers@ == spec_goal_markers(m, s)
    &&& l.goal_sensors@ == spec_goal_sensors(m, s)
    &&& l.ceiling == spec_ceiling(s)
}

/// A product of two factors bounded in magnitude is bounded by the product
/// of the bounds.
proof fn lemma_abs_mul_le(a: int, b: int, ca: int, cb: int)
    requires
        -ca <= a <= ca,
        -cb <= b <= cb,
        0 <= ca,
        0 <= cb,
    ensures
        -(ca * cb) <= a * b <= ca * cb,
{
    assert(-(ca * cb) <= a * b <= ca * cb) by (nonlinear_arith)
        requires
            -ca <= a <= ca,
            -cb <= b <= cb,
            0 <= ca,
            0 <= cb,
    ;
}

/// Compute the centre column coordinate of cell column `col`.
fn cell_center_x(s: i64, w: i64, col: i64) -> (r: Frac)
    requires
        1 <= s <= MAX_PLAYFIELD,
        1 <= w <= MAX_GRID_DIM as i64,
        0 <= col < w,
    ensures
        r == spec_cell_center_x(s as int, w as int, col as int),
{
    proof {
        lemma_abs_mul_le(s as int, 2 * col + 1 - w, MAX_PLAYFIELD as int, 2 * MAX_GRID_DIM as int);
    }
    Frac::new(s * (2 * col + 1 - w), 2 * w)
}

/// Compute the centre row coordinate of cell row `row`.
fn cell_center_z(s: i64, h: i64, row: i64) -> (r: Frac)
    requires
        1 <= s <= MAX_PLAYFIELD,
        1 <= h <= MAX_GRID_DIM as i64,
        0 <= row < h,
    ensures
        r == spec_cell_center_z(s as int, h as int, row as int),
{
    proof {
        lemma_abs_mul_le(s as int, 2 * row + 1 - h, MAX_PLAYFIELD as int, 2 * MAX_GRID_DIM as int);
    }
    Frac::new(s * (2 * row + 1 - h), 2 * h)
}

/// Compute the west edge column coordinate of cell column `col`.
fn cell_west_x(s: i64, w: i64, col: i64) -> (r: Frac)
    requires
        1 <= s <= MAX_PLAYFIELD,
        1 <= w <= MAX_GRID_DIM as i64,
        0 <= col < w,
    ensures
        r == spec_cell_west_x(s as int, w as int, col as int),
{
    proof {
        lemma_abs_mul_le(s as int, 2 * col - w, MAX_PLAYFIELD as int, 2 * MAX_GRID_DIM as int);
    }
    Frac::new(s * (2 * col - w), 2 * w)
}

/// Compute the north edge row coordinate of cell row `row`.
fn cell_north_z(s: i64, h: i64, row: i64) -> (r: Frac)
    requires
        1 <= s <= MAX_PLAYFIELD,
        1 <= h <= MAX_GRID_DIM as i64,
        0 <= row < h,
    ensures
        r == spec_cell_north_z(s as int, h as int, row as int),
{
    proof {
        lemma_abs_mul_le(s as int, 2 * row - h, MAX_PLAYFIELD as int, 2 * MAX_GRID_DIM as int);
    }
    Frac::new(s * (2 * row - h), 2 * h)
}

/// Append the four border walls, which exist regardless of maze content and
/// close the outer boundary of side `s`.
fn push_border_walls(walls: &mut Vec<WallPlacement>, s: i64)
    requires
        1 <= s <= MAX_PLAYFIELD,
    ensures
        final(walls)@ == old(walls)@ + spec_border_walls(s as int),
{
    let y = half_wall_height();
    let zero = Frac::new(0, 1);
    walls.push(WallPlacement {
        kind: WallKind::Border,
        length: Frac::whole(s),
        position: Pos3 { x: zero, y, z: Frac { num: s, den: 2 } },
        rotation: YawRotation::Deg0,
    });
    walls.push(WallPlacement {
        kind: WallKind::Border,
        length: Frac::whole(s),
        position: Pos3 { x: zero, y, z: Frac { num: -s, den: 2 } },
        rotation: YawRotation::Deg0,
    });
    walls.push(WallPlacement {
        kind: WallKind::Border,
        length: Frac::whole(s),
        position: Pos3 { x: Frac { num: -s, den: 2 }, y, z: zero },
        rotation: YawRotation::Deg90,
    });
    walls.push(WallPlacement {
        kind: WallKind::Border,
        length: Frac::whole(s),
        position: Pos3 { x: Frac { num: s, den: 2 }, y, z: zero },
        rotation: YawRotation::Deg90,
    });
    proof {
        assert(walls@ =~= old(walls)@ + spec_border_walls(s as int));
    }
}

/// Append everything cell `(col, row)` contributes to the layout: its
/// marker or goal pieces, then its north wall, then its west wall.
fn emit_cell(
    m: &MazeGrid,
    s: i64,
    col: usize,
    row: usize,
    walls: &mut Vec<WallPlacement>,
    starts: &mut Vec<StartMarker>,
    goals: &mut Vec<GoalMarker>,
    sensors: &mut Vec<GoalSensor>,
)
    requires
        m.wf(),
        1 <= s <= MAX_PLAYFIELD,
        m.width <= MAX_GRID_DIM,
        m.height <= MAX_GRID_DIM,
        col < m.width,
        row < m.height,
    ensures
        final(walls)@ == old(walls)@ + spec_cell_walls(*m, s as int, col as int, row as int),
        final(starts)@ == old(starts)@ + spec_cell_starts(*m, s as int, col as int, row as int),
        final(goals)@ == old(goals)@ + spec_cell_goals(*m, s as int, col as int, row as int),
        final(sensors)@ == old(sensors)@ + spec_cell_sensors(*m, s as int, col as int, row as int),
{
    let w64: i64 = m.width as i64;
    let h64: i64 = m.height as i64;
    let col64: i64 = col as i64;
    let row64: i64 = row as i64;
    // Reading the length binds cells@.len() (== width * height) to a usize,
    // so the index arithmetic below is known not to overflow.
    let n = m.cells.len();
    proof {
        lemma_row_major_index_in_range(m.width as int, m.height as int, col as int, row as int);
    }
    let c = m.cells[row * m.width + col];
    assert(c == m.spec_cell(col as int, row as int));

    match c.kind {
        FieldKind::Start => {
            starts.push(StartMarker {
                position: Pos3 {
                    x: cell_center_x(s, w64, col64),
                    y: Frac { num: MARKER_LIFT_NUM, den: MARKER_LIFT_DEN },
                    z: cell_center_z(s, h64, row64),
                },
                radius: Frac { num: 1, den: MARKER_RADIUS_DEN },
            });
        },
        FieldKind::Goal => {
            goals.push(GoalMarker {
                position: Pos3 {
                    x: cell_center_x(s, w64, col64),
                    y: half_wall_height(),
                    z: cell_center_z(s, h64, row64),
                },
                size_x: Frac { num: GOAL_INSET_DEN * s - w64, den: GOAL_INSET_DEN * w64 },
                size_y: wall_height(),
                size_z: Frac { num: GOAL_INSET_DEN * s - h64, den: GOAL_INSET_DEN * h64 },
            });
            sensors.push(GoalSensor {
                position: Pos3 {
                    x: cell_center_x(s, w64, col64),
                    y: half_wall_height(),
                    z: cell_center_z(s, h64, row64),
                },
                height: wall_height(),
                rotation: YawRotation::Deg45Neg,
            });
        },
        FieldKind::Normal => {},
    }

    if row != 0 && !c.north {
        walls.push(WallPlacement {
            kind: WallKind::Interior,
            length: Frac { num: s, den: w64 },
            position: Pos3 {
                x: cell_center_x(s, w64, col64),
                y: half_wall_height(),
                z: cell_north_z(s, h64, row64),
            },
            rotation: YawRotation::Deg0,
        });
    }
    if col != 0 && !c.west {
        walls.push(WallPlacement {
            kind: WallKind::Interior,
            length: Frac { num: s, den: h64 },
            position: Pos3 {
                x: cell_west_x(s, w64, col64),
                y: half_wall_height(),
                z: cell_center_z(s, h64, row64),
            },
            rotation: YawRotation::Deg90,
        });
    }

    proof {
        assert(walls@ =~= old(walls)@ + spec_cell_walls(*m, s as int, col as int, row as int));
        assert(starts@ =~= old(starts)@ + spec_cell_starts(*m, s as int, col as int, row as int));
        assert(goals@ =~= old(goals)@ + spec_cell_goals(*m, s as int, col as int, row as int));
        assert(sensors@ =~= old(sensors)@ + spec_cell_sensors(*m, s as int, col as int, row as int));
    }
}

/// Compile a maze topology and a playfield side length into the complete
/// level layout. Pure and deterministic: the result is pinned, placement by
/// placement, to the layout the maze determines, so compiling the same maze
/// and size twice yields structurally identical layouts. Total over any
/// well-formed grid: edge cells never make it read out of range. Fails with
/// [`CompileError::InvalidTopology`] exactly when a dimension is zero or no
/// cell is a start or no cell is a goal.
pub fn compile(m: &MazeGrid, playfield: i64) -> (r: Result<LevelLayout, CompileError>)
    requires
        m.wf(),
        1 <= playfield <= MAX_PLAYFIELD,
        m.width <= MAX_GRID_DIM,
        m.height <= MAX_GRID_DIM,
    ensures
        match r {
            Ok(l) => m.width >= 1 && m.height >= 1 && m.spec_kind_count(FieldKind::Start) >= 1
                && m.spec_kind_count(FieldKind::Goal) >= 1 && spec_layout_matches(
                *m,
                playfield as int,
                l,
            ),
            Err(e) => e == CompileError::InvalidTopology && (m.width == 0 || m.height == 0
                || m.spec_kind_count(FieldKind::Start) == 0 || m.spec_kind_count(FieldKind::Goal)
                == 0),
        },
{
    if m.width == 0 || m.height == 0 {
        return Err(CompileError::InvalidTopology);
    }
    let start_cells = m.kind_count(FieldKind::Start);
    let goal_cells = m.kind_count(FieldKind::Goal);
    if start_cells == 0 || goal_cells == 0 {
        return Err(CompileError::InvalidTopology);
    }

    let ghost s = playfield as int;
    let mut walls: Vec<WallPlacement> = Vec::new();
    let mut starts: Vec<StartMarker> = Vec::new();
    let mut goals: Vec<GoalMarker> = Vec::new();
    let mut sensors: Vec<GoalSensor> = Vec::new();
    push_border_walls(&mut walls, playfield);

    let mut row: usize = 0;
    while row < m.height
        invariant
            m.wf(),
            1 <= playfield <= MAX_PLAYFIELD,
            s == playfield as int,
            1 <= m.width <= MAX_GRID_DIM,
            1 <= m.height <= MAX_GRID_DIM,
            row <= m.height,
            walls@ == spec_border_walls(s) + spec_walls_upto_row(*m, s, row as int),
            starts@ == spec_starts_upto_row(*m, s, row as int),
            goals@ == spec_goals_upto_row(*m, s, row as int),
            sensors@ == spec_sensors_upto_row(*m, s, row as int),
        decreases m.height - row,
    {
        let mut col: usize = 0;
        proof {
            assert(walls@ =~= spec_border_walls(s) + spec_walls_upto_row(*m, s, row as int)
                + spec_row_walls_upto(*m, s, row as int, 0));
            assert(starts@ =~= spec_starts_upto_row(*m, s, row as int) + spec_row_starts_upto(
                *m, s, row as int, 0));
            assert(goals@ =~= spec_goals_upto_row(*m, s, row as int) + spec_row_goals_upto(
                *m, s, row as int, 0));
            assert(sensors@ =~= spec_sensors_upto_row(*m, s, row as int) + spec_row_sensors_upto(
                *m, s, row as int, 0));
        }
        while col < m.width
            invariant
                m.wf(),
                1 <= playfield <= MAX_PLAYFIELD,
                s == playfield as int,
                1 <= m.width <= MAX_GRID_DIM,
                1 <= m.height <= MAX_GRID_DIM,
                row < m.height,
                col <= m.width,
                walls@ == spec_border_walls(s) + spec_walls_upto_row(*m, s, row as int)
                    + spec_row_walls_upto(*m, s, row as int, col as int),
                starts@ == spec_starts_upto_row(*m, s, row as int) + spec_row_starts_upto(
                    *m, s, row as int, col as int),
                goals@ == spec_goals_upto_row(*m, s, row as int) + spec_row_goals_upto(
                    *m, s, row as int, col as int),
                sensors@ == spec_sensors_upto_row(*m, s, row as int) + spec_row_sensors_upto(
                    *m, s, row as int, col as int),
            decreases m.width - col,
        {
            emit_cell(m, playfield, col, row, &mut walls, &mut starts, &mut goals, &mut sensors);
            proof {
                assert(walls@ =~= spec_border_walls(s) + spec_walls_upto_row(*m, s, row as int)
                    + spec_row_walls_upto(*m, s, row as int, col as int + 1));
                assert(starts@ =~= spec_starts_upto_row(*m, s, row as int) + spec_row_starts_upto(
                    *m, s, row as int, col as int + 1));
                assert(goals@ =~= spec_goals_upto_row(*m, s, row as int) + spec_row_goals_upto(
                    *m, s, row as int, col as int + 1));
                assert(sensors@ =~= spec_sensors_upto_row(*m, s, row as int)
                    + spec_row_sensors_upto(*m, s, row as int, col as int + 1));
            }
            col = col + 1;
        }
        proof {
            assert(walls@ =~= spec_border_walls(s) + spec_walls_upto_row(*m, s, row as int + 1));
            assert(starts@ =~= spec_starts_upto_row(*m, s, row as int + 1));
            assert(goals@ =~= spec_goals_upto_row(*m, s, row as int + 1));
            assert(sensors@ =~= spec_sensors_upto_row(*m, s, row as int + 1));
        }
        row = row + 1;
    }

    let zero = Frac { num: 0, den: 1 };
    let layout = LevelLayout {
        floor: FloorPlacement { size: Frac { num: playfield, den: 1 } },
        walls,
        start_markers: starts,
        goal_markers: goals,
        goal_sensors: sensors,
        ceiling: CeilingPlacement {
            position: Pos3 { x: zero, y: wall_height(), z: zero },
            half_x: Frac { num: playfield, den: 2 },
            half_y: zero,
            half_z: Frac { num: playfield, den: 2 },
        },
    };
    Ok(layout)
}

/// How many of the first `ncols` cells of row `row` are missing their north
/// passage and lie outside row 0 (row 0 emits no north walls: the border
/// already closes that edge).
pub open spec fn spec_missing_north_row(m: MazeGrid, row: int, ncols: int) -> int
    decreases ncols,
{
    if ncols <= 0 {
        0
    } else {
        spec_missing_north_row(m, row, ncols - 1) + if row != 0 && !m.spec_cell(
            ncols - 1,
            row,
        ).north {
            1int
        } else {
            0int
        }
    }
}

/// The missing-north count summed over the first `nrows` full rows.
pub open spec fn spec_missing_north_upto(m: MazeGrid, nrows: int) -> int
    decreases nrows,
{
    if nrows <= 0 {
        0
    } else {
        spec_missing_north_upto(m, nrows - 1) + spec_missing_north_row(m, nrows - 1, m.width as int)
    }
}

/// How many cells of the maze are missing their north passage, excluding
/// row 0.
pub open spec fn spec_missing_north(m: MazeGrid) -> int {
    spec_missing_north_upto(m, m.height as int)
}

/// How many of the first `ncols` cells of row `row` are missing their west
/// passage and lie outside column 0.
pub open spec fn spec_missing_west_row(m: MazeGrid, row: int, ncols: int) -> int
    decreases ncols,
{
    if ncols <= 0 {
        0
    } else {
        spec_missing_west_row(m, row, ncols - 1) + if ncols - 1 != 0 && !m.spec_cell(
            ncols - 1,
            row,
        ).west {
            1int
        } else {
            0int
        }
    }
}

/// The missing-west count summed over the first `nrows` full rows.
pub open spec fn spec_missing_west_upto(m: MazeGrid, nrows: int) -> int
    decreases nrows,
{
    if nrows <= 0 {
        0
    } else {
        spec_missing_west_upto(m, nrows - 1) + spec_missing_west_row(m, nrows - 1, m.width as int)
    }
}

/// How many cells of the maze are missing their west passage, excluding
/// column 0.
pub open spec fn spec_missing_west(m: MazeGrid) -> int {
    spec_missing_west_upto(m, m.height as int)
}

/// Within one row, the walls emitted are exactly one per counted missing
/// passage, and all of interior kind.
proof fn lemma_row_walls_counted(m: MazeGrid, s: int, row: int, ncols: int)
    requires
        0 <= ncols,
    ensures
        spec_row_walls_upto(m, s, row, ncols).len() == spec_missing_north_row(m, row, ncols)
            + spec_missing_west_row(m, row, ncols),
        forall|i: int|
            0 <= i < spec_row_walls_upto(m, s, row, ncols).len() ==> #[trigger] spec_row_walls_upto(
                m,
                s,
                row,
                ncols,
            )[i].kind == WallKind::Interior,
    decreases ncols,
{
    if ncols > 0 {
        lemma_row_walls_counted(m, s, row, ncols - 1);
    }
}

/// Over whole rows, the walls emitted are exactly one per counted missing
/// passage, and all of interior kind.
proof fn lemma_walls_counted(m: MazeGrid, s: int, nrows: int)
    requires
        0 <= nrows,
    ensures
        spec_walls_upto_row(m, s, nrows).len() == spec_missing_north_upto(m, nrows)
            + spec_missing_west_upto(m, nrows),
        forall|i: int|
            0 <= i < spec_walls_upto_row(m, s, nrows).len() ==> #[trigger] spec_walls_upto_row(
                m,
                s,
                nrows,
            )[i].kind == WallKind::Interior,
    decreases nrows,
{
    if nrows > 0 {
        lemma_walls_counted(m, s, nrows - 1);
        lemma_row_walls_counted(m, s, nrows - 1, m.width as int);
    }
}

/// Law: for any maze, a compiled layout holds exactly four border walls,
/// they are the first four placements, each spans the full playfield side,
/// and the four stand centred on the four playfield edges; every further
/// wall is an interior wall.
pub proof fn lemma_border_completeness(m: MazeGrid, s: int, l: LevelLayout)
    requires
        m.wf(),
        spec_layout_matches(m, s, l),
    ensures
        l.walls@.len() >= 4,
        l.walls@[0] == spec_border_front(s),
        l.walls@[1] == spec_border_back(s),
        l.walls@[2] == spec_border_left(s),
        l.walls@[3] == spec_border_right(s),
        forall|i: int| 0 <= i < 4 ==> (#[trigger] l.walls@[i]).kind == WallKind::Border,
        forall|i: int|
            0 <= i < 4 ==> (#[trigger] l.walls@[i]).length == (Frac { num: s as i64, den: 1 }),
        forall|i: int|
            4 <= i < l.walls@.len() ==> (#[trigger] l.walls@[i]).kind == WallKind::Interior,
{
    lemma_walls_counted(m, s, m.height as int);
    assert forall|i: int| 4 <= i < l.walls@.len() implies (#[trigger] l.walls@[i]).kind
        == WallKind::Interior by {
        assert(l.walls@[i] == spec_interior_walls(m, s)[i - 4]);
    }
}

/// Law: no duplicate interior walls. The number of walls in a compiled
/// layout is exactly four border walls, plus one wall per missing north
/// passage outside row 0, plus one wall per missing west passage outside
/// column 0 (and nothing else): each interior wall is emitted by exactly
/// one cell, so no coincident wall is ever emitted twice.
pub proof fn lemma_no_duplicate_interior_walls(m: MazeGrid, s: int, l: LevelLayout)
    requires
        m.wf(),
        spec_layout_matches(m, s, l),
    ensures
        l.walls@.len() == 4 + spec_missing_north(m) + spec_missing_west(m),
{
    lemma_walls_counted(m, s, m.height as int);
}

/// Within one row, markers and sensors are counted by the start and goal
/// cells of that row: the marker sequences grow by exactly the number of
/// start (resp. goal) cells among the first `ncols` cells.
proof fn lemma_row_markers_counted(m: MazeGrid, s: int, row: int, ncols: int)
    requires
        0 <= ncols,
        0 <= row,
        m.wf(),
        row < m.height,
        ncols <= m.width,
    ensures
        spec_row_starts_upto(m, s, row, ncols).len() == count_kind_upto(
            m.cells@,
            FieldKind::Start,
            row * m.width + ncols,
        ) - count_kind_upto(m.cells@, FieldKind::Start, row * m.width as int),
        spec_row_goals_upto(m, s, row, ncols).len() == count_kind_upto(
            m.cells@,
            FieldKind::Goal,
            row * m.width + ncols,
        ) - count_kind_upto(m.cells@, FieldKind::Goal, row * m.width as int),
        spec_row_sensors_upto(m, s, row, ncols).len() == count_kind_upto(
            m.cells@,
            FieldKind::Goal,
            row * m.width + ncols,
        ) - count_kind_upto(m.cells@, FieldKind::Goal, row * m.width as int),
    decreases ncols,
{
    if ncols > 0 {
        lemma_row_markers_counted(m, s, row, ncols - 1);
    }
}

/// Over whole rows, markers and sensors are counted by the start and goal
/// cells of those rows.
proof fn lemma_markers_counted(m: MazeGrid, s: int, nrows: int)
    requires
        0 <= nrows,
        m.wf(),
        nrows <= m.height,
    ensures
        spec_starts_upto_row(m, s, nrows).len() == count_kind_upto(
            m.cells@,
            FieldKind::Start,
            nrows * m.width,
        ),
        spec_goals_upto_row(m, s, nrows).len() == count_kind_upto(
            m.cells@,
            FieldKind::Goal,
            nrows * m.width,
        ),
        spec_sensors_upto_row(m, s, nrows).len() == count_kind_upto(
            m.cells@,
            FieldKind::Goal,
            nrows * m.width,
        ),
    decreases nrows,
{
    if nrows > 0 {
        lemma_markers_counted(m, s, nrows - 1);
        lemma_row_markers_counted(m, s, nrows - 1, m.width as int);
        assert((nrows - 1) * m.width + m.width == nrows * m.width) by (nonlinear_arith);
    }
}

/// Law: a compiled layout holds one start marker per start cell and one
/// goal marker and one goal sensor per goal cell.
pub proof fn lemma_marker_counts(m: MazeGrid, s: int, l: LevelLayout)
    requires
        m.wf(),
        spec_layout_matches(m, s, l),
    ensures
        l.start_markers@.len() == m.spec_kind_count(FieldKind::Start),
        l.goal_markers@.len() == m.spec_kind_count(FieldKind::Goal),
        l.goal_sensors@.len() == m.spec_kind_count(FieldKind::Goal),
{
    lemma_markers_counted(m, s, m.height as int);
    assert(m.height * m.width == m.width * m.height) by (nonlinear_arith);
}

/// Law: compiling a maze with exactly one start cell and exactly one goal
/// cell yields exactly one start marker, one goal marker and one goal
/// sensor.
pub proof fn lemma_single_start_goal(m: MazeGrid, s: int, l: LevelLayout)
    requires
        m.wf(),
        spec_layout_matches(m, s, l),
        m.spec_kind_count(FieldKind::Start) == 1,
        m.spec_kind_count(FieldKind::Goal) == 1,
    ensures
        l.start_markers@.len() == 1,
        l.goal_markers@.len() == 1,
        l.goal_sensors@.len() == 1,
{
    lemma_marker_counts(m, s, l);
}

/// Law: compilation is deterministic. Any two layouts compiled from the
/// same maze topology and the same playfield side are structurally
/// identical, placement by placement.
pub proof fn lemma_compile_deterministic(m: MazeGrid, s: int, l1: LevelLayout, l2: LevelLayout)
    requires
        spec_layout_matches(m, s, l1),
        spec_layout_matches(m, s, l2),
    ensures
        l1.floor == l2.floor,
        l1.walls@ == l2.walls@,
        l1.start_markers@ == l2.start_markers@,
        l1.goal_markers@ == l2.goal_markers@,
        l1.goal_sensors@ == l2.goal_sensors@,
        l1.ceiling == l2.ceiling,
{
}

} // verus!
