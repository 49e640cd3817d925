use labyrinth::compiler::{compile, CompileError, LevelLayout, WallKind};
use labyrinth::geometry::Frac;
use labyrinth::maze::{Cell, Direction, FieldKind, MazeGrid};

fn open_corridor_cell(kind: FieldKind) -> Cell {
    Cell { kind, north: false, east: true, south: false, west: true }
}

fn closed_cell(kind: FieldKind) -> Cell {
    let mut cell = Cell::closed_normal();
    cell.kind = kind;
    cell
}

/// A 5 by 1 straight corridor: start at (0,0), goal at (4,0), all cells
/// open east and west, no north or south passages anywhere.
fn corridor_5x1() -> MazeGrid {
    let mut cells = Vec::new();
    cells.push(open_corridor_cell(FieldKind::Start));
    cells.push(open_corridor_cell(FieldKind::Normal));
    cells.push(open_corridor_cell(FieldKind::Normal));
    cells.push(open_corridor_cell(FieldKind::Normal));
    cells.push(open_corridor_cell(FieldKind::Goal));
    MazeGrid::new(5, 1, cells)
}

/// A 2 by 2 maze with every passage closed.
fn closed_2x2() -> MazeGrid {
    let mut cells = Vec::new();
    cells.push(closed_cell(FieldKind::Start));
    cells.push(closed_cell(FieldKind::Normal));
    cells.push(closed_cell(FieldKind::Normal));
    cells.push(closed_cell(FieldKind::Goal));
    MazeGrid::new(2, 2, cells)
}

fn compile_ok(m: &MazeGrid, s: i64) -> LevelLayout {
    match compile(m, s) {
        Ok(l) => l,
        Err(_) => panic!("compilation should succeed"),
    }
}

#[test]
fn corridor_scenario_wall_counts() {
    let layout = compile_ok(&corridor_5x1(), 5);
    // Row 0 emits no north walls; every west passage east of column 0 is
    // open, so no interior walls at all: only the four border walls.
    assert_eq!(layout.walls.len(), 4);
    for w in &layout.walls {
        assert_eq!(w.kind, WallKind::Border);
        assert_eq!(w.length, Frac { num: 5, den: 1 });
    }
}

#[test]
fn corridor_scenario_border_positions() {
    let layout = compile_ok(&corridor_5x1(), 5);
    let front = &layout.walls[0];
    assert_eq!(front.position.x, Frac { num: 0, den: 1 });
    assert_eq!(front.position.y, Frac { num: 3, den: 20 });
    assert_eq!(front.position.z, Frac { num: 5, den: 2 });
    let back = &layout.walls[1];
    assert_eq!(back.position.z, Frac { num: -5, den: 2 });
    let left = &layout.walls[2];
    assert_eq!(left.position.x, Frac { num: -5, den: 2 });
    assert_eq!(left.position.z, Frac { num: 0, den: 1 });
    let right = &layout.walls[3];
    assert_eq!(right.position.x, Frac { num: 5, den: 2 });
}

#[test]
fn corridor_scenario_markers() {
    let layout = compile_ok(&corridor_5x1(), 5);
    assert_eq!(layout.start_markers.len(), 1);
    assert_eq!(layout.goal_markers.len(), 1);
    assert_eq!(layout.goal_sensors.len(), 1);

    // Start marker at the centre of cell (0,0): x = 5*(1-5)/10 = -2.
    let start = &layout.start_markers[0];
    assert_eq!(start.position.x, Frac { num: -20, den: 10 });
    assert_eq!(start.position.y, Frac { num: 11, den: 100 });
    assert_eq!(start.position.z, Frac { num: 0, den: 2 });
    assert_eq!(start.radius, Frac { num: 1, den: 10 });

    // Goal marker and sensor at the centre of cell (4,0): x = 5*(9-5)/10 = 2.
    let goal = &layout.goal_markers[0];
    assert_eq!(goal.position.x, Frac { num: 20, den: 10 });
    assert_eq!(goal.position.y, Frac { num: 3, den: 20 });
    assert_eq!(goal.size_x, Frac { num: 495, den: 500 });
    assert_eq!(goal.size_y, Frac { num: 3, den: 10 });
    assert_eq!(goal.size_z, Frac { num: 499, den: 100 });
    let sensor = &layout.goal_sensors[0];
    assert_eq!(sensor.position.x, Frac { num: 20, den: 10 });
    assert_eq!(sensor.height, Frac { num: 3, den: 10 });
}

#[test]
fn closed_maze_interior_walls() {
    let layout = compile_ok(&closed_2x2(), 4);
    // Interior walls: west walls of (1,0) and (1,1), north walls of (0,1)
    // and (1,1); four border walls before them.
    assert_eq!(layout.walls.len(), 8);
    for w in &layout.walls[..4] {
        assert_eq!(w.kind, WallKind::Border);
    }
    for w in &layout.walls[4..] {
        assert_eq!(w.kind, WallKind::Interior);
    }

    // Cell order is row-major, north wall before west wall per cell, so:
    // west(1,0), north(0,1), north(1,1), west(1,1).
    let west_10 = &layout.walls[4];
    assert_eq!(west_10.length, Frac { num: 4, den: 2 });
    assert_eq!(west_10.position.x, Frac { num: 0, den: 4 });
    assert_eq!(west_10.position.z, Frac { num: -4, den: 4 });

    let north_01 = &layout.walls[5];
    assert_eq!(north_01.length, Frac { num: 4, den: 2 });
    assert_eq!(north_01.position.x, Frac { num: -4, den: 4 });
    assert_eq!(north_01.position.z, Frac { num: 0, den: 4 });

    let north_11 = &layout.walls[6];
    assert_eq!(north_11.position.x, Frac { num: 4, den: 4 });
    assert_eq!(north_11.position.z, Frac { num: 0, den: 4 });

    let west_11 = &layout.walls[7];
    assert_eq!(west_11.position.x, Frac { num: 0, den: 4 });
    assert_eq!(west_11.position.z, Frac { num: 4, den: 4 });
}

#[test]
fn compile_is_deterministic() {
    let maze = closed_2x2();
    let a = compile_ok(&maze, 4);
    let b = compile_ok(&maze, 4);
    assert_eq!(a.floor, b.floor);
    assert_eq!(a.walls, b.walls);
    assert_eq!(a.start_markers, b.start_markers);
    assert_eq!(a.goal_markers, b.goal_markers);
    assert_eq!(a.goal_sensors, b.goal_sensors);
    assert_eq!(a.ceiling, b.ceiling);
}

#[test]
fn zero_dimension_is_rejected() {
    let empty = MazeGrid::new(0, 3, Vec::new());
    assert!(matches!(compile(&empty, 5), Err(CompileError::InvalidTopology)));
    let flat = MazeGrid::new(3, 0, Vec::new());
    assert!(matches!(compile(&flat, 5), Err(CompileError::InvalidTopology)));
}

#[test]
fn missing_start_or_goal_is_rejected() {
    let mut cells = Vec::new();
    cells.push(closed_cell(FieldKind::Normal));
    cells.push(closed_cell(FieldKind::Goal));
    let no_start = MazeGrid::new(2, 1, cells);
    assert!(matches!(compile(&no_start, 5), Err(CompileError::InvalidTopology)));

    let mut cells = Vec::new();
    cells.push(closed_cell(FieldKind::Start));
    cells.push(closed_cell(FieldKind::Normal));
    let no_goal = MazeGrid::new(2, 1, cells);
    assert!(matches!(compile(&no_goal, 5), Err(CompileError::InvalidTopology)));
}

#[test]
fn one_marker_per_special_cell() {
    // Two start cells and two goal cells yield two markers of each kind.
    let mut cells = Vec::new();
    cells.push(closed_cell(FieldKind::Start));
    cells.push(closed_cell(FieldKind::Goal));
    cells.push(closed_cell(FieldKind::Goal));
    cells.push(closed_cell(FieldKind::Start));
    let maze = MazeGrid::new(4, 1, cells);
    assert_eq!(maze.kind_count(FieldKind::Start), 2);
    assert_eq!(maze.kind_count(FieldKind::Goal), 2);
    let layout = compile_ok(&maze, 8);
    assert_eq!(layout.start_markers.len(), 2);
    assert_eq!(layout.goal_markers.len(), 2);
    assert_eq!(layout.goal_sensors.len(), 2);
}

#[test]
fn ceiling_and_floor_cover_the_playfield() {
    let layout = compile_ok(&corridor_5x1(), 5);
    assert_eq!(layout.floor.size, Frac { num: 5, den: 1 });
    assert_eq!(layout.ceiling.position.y, Frac { num: 3, den: 10 });
    assert_eq!(layout.ceiling.half_x, Frac { num: 5, den: 2 });
    assert_eq!(layout.ceiling.half_y, Frac { num: 0, den: 1 });
    assert_eq!(layout.ceiling.half_z, Frac { num: 5, den: 2 });
}

#[test]
fn edge_cells_never_read_out_of_range() {
    // A single-cell maze: every neighbour query leaves the grid; the grid
    // accessor answers None and compilation stays total.
    let mut cells = Vec::new();
    cells.push(closed_cell(FieldKind::Start));
    let maze = MazeGrid::new(1, 1, cells);
    assert!(maze.get(0, 1).is_none());
    assert!(maze.get(1, 0).is_none());
    let cell = maze.get(0, 0).unwrap();
    assert!(!cell.has_passage(Direction::North));
    assert!(!cell.has_passage(Direction::East));
    // Only a goal is missing, so this maze is still rejected, but cleanly.
    assert!(matches!(compile(&maze, 5), Err(CompileError::InvalidTopology)));
}
