use labyrinth::compiler::compile;
use labyrinth::geometry::Frac;
use labyrinth::maze::{Cell, FieldKind, MazeGrid};
use labyrinth::scene::{build_scene, BodyKind, ColliderSpec, SessionRegistry, ShapeSpec};

fn small_maze() -> MazeGrid {
    let mut cells = Vec::new();
    cells.push(Cell { kind: FieldKind::Start, north: false, east: true, south: false, west: false });
    cells.push(Cell { kind: FieldKind::Goal, north: false, east: false, south: false, west: true });
    MazeGrid::new(2, 1, cells)
}

#[test]
fn scene_command_order_and_counts() {
    let layout = compile(&small_maze(), 4).unwrap();
    let cmds = build_scene(&layout);
    // Floor, four border walls (no interior ones here), one start marker,
    // one goal marker, one goal sensor, ceiling.
    assert_eq!(cmds.len(), 9);

    let floor = &cmds[0];
    assert!(!floor.parent_floor);
    assert_eq!(floor.body, Some(BodyKind::KinematicPositionBased));
    assert_eq!(floor.collider, Some(ColliderSpec::TriMeshFromVisual));
    let shape = floor.visual.unwrap().shape;
    assert_eq!(shape, ShapeSpec::Plane { size: Frac { num: 4, den: 1 } });
}

#[test]
fn walls_are_fixed_children_of_the_floor() {
    let layout = compile(&small_maze(), 4).unwrap();
    let cmds = build_scene(&layout);
    for cmd in &cmds[1..5] {
        assert!(cmd.parent_floor);
        assert_eq!(cmd.body, Some(BodyKind::Fixed));
        assert_eq!(cmd.collider, Some(ColliderSpec::TriMeshFromVisual));
        assert!(!cmd.sensor);
    }
}

#[test]
fn marble_is_a_free_dynamic_body() {
    let layout = compile(&small_maze(), 4).unwrap();
    let cmds = build_scene(&layout);
    let marble = &cmds[5];
    assert!(!marble.parent_floor);
    assert_eq!(marble.body, Some(BodyKind::Dynamic));
    assert_eq!(marble.collider, Some(ColliderSpec::Ball { radius: Frac { num: 1, den: 10 } }));
    assert!(marble.contact_events);
    assert_eq!(marble.restitution_milli, Some(700));
}

#[test]
fn goal_visual_has_no_collider_and_sensor_only_reports() {
    let layout = compile(&small_maze(), 4).unwrap();
    let cmds = build_scene(&layout);
    let goal = &cmds[6];
    assert!(goal.parent_floor);
    assert_eq!(goal.body, None);
    assert_eq!(goal.collider, None);
    assert!(!goal.sensor);

    let sensor = &cmds[7];
    assert!(sensor.parent_floor);
    assert!(sensor.sensor);
    assert!(sensor.visual.is_none());
    assert_eq!(
        sensor.collider,
        Some(ColliderSpec::VerticalSegment { height: Frac { num: 3, den: 10 } }),
    );

    let ceiling = &cmds[8];
    assert!(ceiling.parent_floor);
    assert_eq!(ceiling.body, Some(BodyKind::KinematicPositionBased));
}

#[test]
fn registry_hands_back_all_handles_once() {
    let mut reg = SessionRegistry::new();
    reg.register(11);
    reg.register(22);
    reg.register(33);
    let drained = reg.teardown_session();
    assert_eq!(drained, vec![11, 22, 33]);
    // The next session starts from an empty registry.
    let empty = reg.teardown_session();
    assert!(empty.is_empty());
}
