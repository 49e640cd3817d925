use labyrinth::compiler::compile;
use labyrinth::generator::{generate_grid, random_seed, Algorithm, MazeConfig};
use labyrinth::maze::FieldKind;

fn config(algorithm: Algorithm, width: i32, height: i32) -> MazeConfig {
    MazeConfig { algorithm, width, height }
}

#[test]
fn default_config_is_a_growing_tree_15_by_15() {
    let c = MazeConfig::default();
    assert_eq!(c.algorithm, Algorithm::GrowingTree);
    assert_eq!(c.width, 15);
    assert_eq!(c.height, 15);
}

#[test]
fn every_algorithm_yields_a_grid_of_the_requested_size() {
    let algorithms = [
        Algorithm::Ellers,
        Algorithm::GrowingTree,
        Algorithm::Prims,
        Algorithm::RecursiveBacktracking,
    ];
    for &algorithm in &algorithms {
        let grid = generate_grid(&config(algorithm, 6, 4), Some([9; 32])).unwrap();
        assert_eq!(grid.width, 6);
        assert_eq!(grid.height, 4);
        assert_eq!(grid.cells.len(), 24);
    }
}

#[test]
fn generated_mazes_have_a_start_and_a_goal() {
    let grid = generate_grid(&config(Algorithm::GrowingTree, 5, 5), Some([1; 32])).unwrap();
    assert_eq!(grid.kind_count(FieldKind::Start), 1);
    assert_eq!(grid.kind_count(FieldKind::Goal), 1);
}

#[test]
fn generated_mazes_have_passages() {
    // A one-cell maze has no neighbours, but anything larger must have
    // carved at least one passage out of the start cell's row.
    let grid = generate_grid(&config(Algorithm::RecursiveBacktracking, 4, 4), Some([2; 32]))
        .unwrap();
    let mut passages = 0;
    for cell in &grid.cells {
        passages += usize::from(cell.north) + usize::from(cell.east) + usize::from(cell.south)
            + usize::from(cell.west);
    }
    assert!(passages > 0);
}

#[test]
fn seeded_generation_is_reproducible() {
    let c = config(Algorithm::Prims, 7, 3);
    let a = generate_grid(&c, Some([42; 32])).unwrap();
    let b = generate_grid(&c, Some([42; 32])).unwrap();
    assert_eq!(a.cells, b.cells);
}

#[test]
fn generated_grid_compiles() {
    let grid = generate_grid(&config(Algorithm::Ellers, 8, 8), Some([3; 32])).unwrap();
    let layout = compile(&grid, 5).unwrap();
    assert_eq!(layout.start_markers.len(), 1);
    assert_eq!(layout.goal_markers.len(), 1);
    assert_eq!(layout.goal_sensors.len(), 1);
    assert!(layout.walls.len() >= 4);
}

#[test]
fn one_cell_maze_is_handled() {
    let algorithms = [
        Algorithm::Ellers,
        Algorithm::GrowingTree,
        Algorithm::Prims,
        Algorithm::RecursiveBacktracking,
    ];
    for &algorithm in &algorithms {
        // The provider may report a failure, but it must not panic, and a
        // produced grid must have the requested single cell.
        if let Ok(grid) = generate_grid(&config(algorithm, 1, 1), Some([8; 32])) {
            assert_eq!(grid.width, 1);
            assert_eq!(grid.height, 1);
            assert_eq!(grid.cells.len(), 1);
        }
    }
}

#[test]
fn oversized_recursive_backtracking_is_rejected() {
    // The recursion bound refuses the configuration before the provider
    // runs: one recursion frame per carved cell would overrun the stack.
    let too_deep = config(Algorithm::RecursiveBacktracking, 200, 200);
    assert!(generate_grid(&too_deep, Some([4; 32])).is_err());
    // At the bound itself the algorithm still runs.
    let deepest = config(Algorithm::RecursiveBacktracking, 40, 50);
    assert!(generate_grid(&deepest, Some([4; 32])).is_ok());
}

#[test]
fn entropy_seed_is_available() {
    let seed = random_seed().unwrap();
    assert_eq!(seed.len(), 32);
}
