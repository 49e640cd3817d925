use vstd::prelude::*;

use crate::compiler::{
    CeilingPlacement, FloorPlacement, GoalMarker, GoalSensor, LevelLayout, StartMarker,
    WallPlacement,
};
use crate::geometry::{Frac, Pos3, YawRotation, WALL_HEIGHT_DEN, WALL_HEIGHT_NUM, WALL_THICKNESS_DEN};

verus! {

/// An RGBA colour in thousandths per channel.
#[derive(Clone, Copy, PartialEq, Eq, Structural, Debug)]
pub struct ColorSpec {
    /// Red, in thousandths.
    pub r_milli: u16,
    /// Green, in thousandths.
    pub g_milli: u16,
    /// Blue, in thousandths.
    pub b_milli: u16,
    /// Opacity, in thousandths.
    pub a_milli: u16,
}

/// A mesh shape an engine is asked to build.
#[derive(Clone, Copy, PartialEq, Eq, Structural, Debug)]
pub enum ShapeSpec {
    /// A horizontal square plane of the given side length.
    Plane { size: Frac },
    /// An axis-aligned box of the given extents.
    Box { x: Frac, y: Frac, z: Frac },
    /// A sphere of the given radius.
    Sphere { radius: Frac },
}

/// The visible part of an object: a mesh shape and its colour.
#[derive(Clone, Copy, PartialEq, Eq, Structural, Debug)]
pub struct VisualSpec {
    /// The mesh to build.
    pub shape: ShapeSpec,
    /// The material colour.
    pub color: ColorSpec,
}

/// The rigid-body kind an engine is asked to attach.
#[derive(Clone, Copy, PartialEq, Eq, Structural, Debug)]
pub enum BodyKind {
    /// Immovable.
    Fixed,
    /// Moved only by explicitly set positions; drives colliders.
    KinematicPositionBased,
    /// Fully simulated, gravity-affected.
    Dynamic,
}

/// How an engine is asked to derive an object's collider.
#[derive(Clone, Copy, PartialEq, Eq, Structural, Debug)]
pub enum ColliderSpec {
    /// A triangle-mesh collider derived from the object's visual mesh.
    TriMeshFromVisual,
    /// A ball collider of the given radius.
    Ball { radius: Frac },
    /// A vertical segment from the object's origin up by `height`.
    VerticalSegment { height: Frac },
    /// A cuboid collider of the given half extents.
    Cuboid { half_x: Frac, half_y: Frac, half_z: Frac },
}

/// A position and a yaw.
#[derive(Clone, Copy, PartialEq, Eq, Structural, Debug)]
pub struct Transform3 {
    /// Translation.
    pub position: Pos3,
    /// Rotation about the vertical axis.
    pub rotation: YawRotation,
}

/// One abstract object-creation command for the scene/physics collaborator.
/// Commands carry everything the engine needs: the optional visual, the
/// transform, the optional rigid body and collider, the sensor flag, and
/// whether the object is parented to the floor so it inherits its tilt.
#[derive(Clone, Copy, PartialEq, Eq, Structural, Debug)]
pub struct ObjectSpec {
    /// Mesh and colour, if the object is visible.
    pub visual: Option<VisualSpec>,
    /// Where the object is placed, relative to its parent.
    pub transform: Transform3,
    /// Rigid-body kind, if any.
    pub body: Option<BodyKind>,
    /// Collider derivation, if any.
    pub collider: Option<ColliderSpec>,
    /// Whether the collider only reports contacts instead of resisting them.
    pub sensor: bool,
    /// Whether contact events must be generated for this object.
    pub contact_events: bool,
    /// Bounciness in thousandths, if set.
    pub restitution_milli: Option<u16>,
    /// Whether the object is a child of the floor object (command 0).
    pub parent_floor: bool,
}

/// The identity transform.
pub open spec fn spec_identity_transform() -> Transform3 {
    Transform3 {
        position: Pos3 {
            x: Frac { num: 0, den: 1 },
            y: Frac { num: 0, den: 1 },
            z: Frac { num: 0, den: 1 },
        },
        rotation: YawRotation::Deg0,
    }
}

/// The creation command for the floor: a collidable kinematic plane at the
/// origin, the parent of everything that must tilt with it.
pub open spec fn spec_floor_object(f: FloorPlacement) -> ObjectSpec {
    ObjectSpec {
        visual: Some(
            VisualSpec {
                shape: ShapeSpec::Plane { size: f.size },
                color: ColorSpec { r_milli: 700, g_milli: 700, b_milli: 700, a_milli: 1000 },
            },
        ),
        transform: spec_identity_transform(),
        body: Some(BodyKind::KinematicPositionBased),
        collider: Some(ColliderSpec::TriMeshFromVisual),
        sensor: false,
        contact_events: false,
        restitution_milli: None,
        parent_floor: false,
    }
}

/// The creation command for one wall: a fixed collidable slab, a child of
/// the floor.
pub open spec fn spec_wall_object(w: WallPlacement) -> ObjectSpec {
    ObjectSpec {
        visual: Some(
            VisualSpec {
                shape: ShapeSpec::Box {
                    x: w.length,
                    y: Frac { num: WALL_HEIGHT_NUM, den: WALL_HEIGHT_DEN },
                    z: Frac { num: 1, den: WALL_THICKNESS_DEN },
                },
                color: ColorSpec { r_milli: 400, g_milli: 400, b_milli: 400, a_milli: 1000 },
            },
        ),
        transform: Transform3 { position: w.position, rotation: w.rotation },
        body: Some(BodyKind::Fixed),
        collider: Some(ColliderSpec::TriMeshFromVisual),
        sensor: false,
        contact_events: false,
        restitution_milli: None,
        parent_floor: true,
    }
}

/// The creation command for the start marker: a dynamic bouncing sphere
/// with contact events on, a free body not parented to the floor.
pub open spec fn spec_start_object(mk: StartMarker) -> ObjectSpec {
    ObjectSpec {
        visual: Some(
            VisualSpec {
                shape: ShapeSpec::Sphere { radius: mk.radius },
                color: ColorSpec { r_milli: 0, g_milli: 0, b_milli: 1000, a_milli: 1000 },
            },
        ),
        transform: Transform3 { position: mk.position, rotation: YawRotation::Deg0 },
        body: Some(BodyKind::Dynamic),
        collider: Some(ColliderSpec::Ball { radius: mk.radius }),
        sensor: false,
        contact_events: true,
        restitution_milli: Some(700),
        parent_floor: false,
    }
}

/// The creation command for the goal marker: a semi-transparent box with no
/// collider and no body, a child of the floor, purely visual.
pub open spec fn spec_goal_object(g: GoalMarker) -> ObjectSpec {
    ObjectSpec {
        visual: Some(
            VisualSpec {
                shape: ShapeSpec::Box { x: g.size_x, y: g.size_y, z: g.size_z },
                color: ColorSpec { r_milli: 0, g_milli: 1000, b_milli: 0, a_milli: 700 },
            },
        ),
        transform: Transform3 { position: g.position, rotation: YawRotation::Deg0 },
        body: None,
        collider: None,
        sensor: false,
        contact_events: false,
        restitution_milli: None,
        parent_floor: true,
    }
}

/// The creation command for the goal sensor: an invisible segment collider
/// flagged sensor-only, a child of the floor.
pub open spec fn spec_sensor_object(sn: GoalSensor) -> ObjectSpec {
    ObjectSpec {
        visual: None,
        transform: Transform3 { position: sn.position, rotation: sn.rotation },
        body: None,
        collider: Some(ColliderSpec::VerticalSegment { height: sn.height }),
        sensor: true,
        contact_events: false,
        restitution_milli: None,
        parent_floor: true,
    }
}

/// The creation command for the ceiling: an invisible kinematic cuboid
/// above the playfield, a child of the floor.
pub open spec fn spec_ceiling_object(c: CeilingPlacement) -> ObjectSpec {
    ObjectSpec {
        visual: None,
        transform: Transform3 { position: c.position, rotation: YawRotation::Deg0 },
        body: Some(BodyKind::KinematicPositionBased),
        collider: Some(
            ColliderSpec::Cuboid { half_x: c.half_x, half_y: c.half_y, half_z: c.half_z },
        ),
        sensor: false,
        contact_events: false,
        restitution_milli: None,
        parent_floor: true,
    }
}

/// The full command list one layout determines: the floor first (so every
/// later parented command refers to it), then walls, start markers, goal
/// markers, goal sensors, and the ceiling last.
pub open spec fn spec_scene_commands(l: LevelLayout) -> Seq<ObjectSpec> {
    seq![spec_floor_object(l.floor)] + l.walls@.map_values(|w: WallPlacement| spec_wall_object(w))
        + l.start_markers@.map_values(|mk: StartMarker| spec_start_object(mk))
        + l.goal_markers@.map_values(|g: GoalMarker| spec_goal_object(g))
        + l.goal_sensors@.map_values(|sn: GoalSensor| spec_sensor_object(sn)) + seq![
        spec_ceiling_object(l.ceiling),
    ]
}

/// Turn a layout into the ordered list of object-creation commands for the
/// scene/physics collaborator: one command per layout entry, the floor
/// first and the parent of every wall, goal visual, goal sensor and the
/// ceiling; the start markers stay free bodies. The list is pinned to the
/// layout, command by command.
pub fn build_scene(l: &LevelLayout) -> (r: Vec<ObjectSpec>)
    ensures
        r@ == spec_scene_commands(*l),
        r@.len() == 2 + l.walls@.len() + l.start_markers@.len() + l.goal_markers@.len()
            + l.goal_sensors@.len(),
        r@[0].parent_floor == false,
{
    let mut cmds: Vec<ObjectSpec> = Vec::new();
    cmds.push(ObjectSpec {
        visual: Some(
            VisualSpec {
                shape: ShapeSpec::Plane { size: l.floor.size },
                color: ColorSpec { r_milli: 700, g_milli: 700, b_milli: 700, a_milli: 1000 },
            },
        ),
        transform: Transform3 {
            position: Pos3 {
                x: Frac { num: 0, den: 1 },
                y: Frac { num: 0, den: 1 },
                z: Frac { num: 0, den: 1 },
            },
            rotation: YawRotation::Deg0,
        },
        body: Some(BodyKind::KinematicPositionBased),
        collider: Some(ColliderSpec::TriMeshFromVisual),
        sensor: false,
        contact_events: false,
        restitution_milli: None,
        parent_floor: false,
    });

    let ghost floor_part: Seq<ObjectSpec> = seq![spec_floor_object(l.floor)];
    let mut i: usize = 0;
    while i < l.walls.len()
        invariant
            i <= l.walls@.len(),
            cmds@ == floor_part + l.walls@.subrange(0, i as int).map_values(
                |w: WallPlacement| spec_wall_object(w),
            ),
            floor_part == seq![spec_floor_object(l.floor)],
        decreases l.walls@.len() - i,
    {
        let w = l.walls[i];
        cmds.push(ObjectSpec {
            visual: Some(
                VisualSpec {
                    shape: ShapeSpec::Box {
                        x: w.length,
                        y: Frac { num: WALL_HEIGHT_NUM, den: WALL_HEIGHT_DEN },
                        z: Frac { num: 1, den: WALL_THICKNESS_DEN },
                    },
                    color: ColorSpec { r_milli: 400, g_milli: 400, b_milli: 400, a_milli: 1000 },
                },
            ),
            transform: Transform3 { position: w.position, rotation: w.rotation },
            body: Some(BodyKind::Fixed),
            collider: Some(ColliderSpec::TriMeshFromVisual),
            sensor: false,
            contact_events: false,
            restitution_milli: None,
            parent_floor: true,
        });
        proof {
            assert(cmds@ =~= floor_part + l.walls@.subrange(0, i as int + 1).map_values(
                |w: WallPlacement| spec_wall_object(w),
            ));
        }
        i = i + 1;
    }
    proof {
        assert(l.walls@.subrange(0, l.walls@.len() as int) =~= l.walls@);
    }

    let ghost wall_part: Seq<ObjectSpec> = floor_part + l.walls@.map_values(
        |w: WallPlacement| spec_wall_object(w),
    );
    let mut i: usize = 0;
    while i < l.start_markers.len()
        invariant
            i <= l.start_markers@.len(),
            cmds@ == wall_part + l.start_markers@.subrange(0, i as int).map_values(
                |mk: StartMarker| spec_start_object(mk),
            ),
            wall_part == floor_part + l.walls@.map_values(|w: WallPlacement| spec_wall_object(w)),
            floor_part == seq![spec_floor_object(l.floor)],
        decreases l.start_markers@.len() - i,
    {
        let mk = l.start_markers[i];
        cmds.push(ObjectSpec {
            visual: Some(
                VisualSpec {
                    shape: ShapeSpec::Sphere { radius: mk.radius },
                    color: ColorSpec { r_milli: 0, g_milli: 0, b_milli: 1000, a_milli: 1000 },
                },
            ),
            transform: Transform3 { position: mk.position, rotation: YawRotation::Deg0 },
            body: Some(BodyKind::Dynamic),
            collider: Some(ColliderSpec::Ball { radius: mk.radius }),
            sensor: false,
            contact_events: true,
            restitution_milli: Some(700),
            parent_floor: false,
        });
        proof {
            assert(cmds@ =~= wall_part + l.start_markers@.subrange(0, i as int + 1).map_values(
                |mk: StartMarker| spec_start_object(mk),
            ));
        }
        i = i + 1;
    }
    proof {
        assert(l.start_markers@.subrange(0, l.start_markers@.len() as int) =~= l.start_markers@);
    }

    let ghost start_part: Seq<ObjectSpec> = wall_part + l.start_markers@.map_values(
        |mk: StartMarker| spec_start_object(mk),
    );
    let mut i: usize = 0;
    while i < l.goal_markers.len()
        invariant
            i <= l.goal_markers@.len(),
            cmds@ == start_part + l.goal_markers@.subrange(0, i as int).map_values(
                |g: GoalMarker| spec_goal_object(g),
            ),
            start_part == wall_part + l.start_markers@.map_values(
                |mk: StartMarker| spec_start_object(mk),
            ),
            wall_part == floor_part + l.walls@.map_values(|w: WallPlacement| spec_wall_object(w)),
            floor_part == seq![spec_floor_object(l.floor)],
        decreases l.goal_markers@.len() - i,
    {
        let g = l.goal_markers[i];
        cmds.push(ObjectSpec {
            visual: Some(
                VisualSpec {
                    shape: ShapeSpec::Box { x: g.size_x, y: g.size_y, z: g.size_z },
                    color: ColorSpec { r_milli: 0, g_milli: 1000, b_milli: 0, a_milli: 700 },
                },
            ),
            transform: Transform3 { position: g.position, rotation: YawRotation::Deg0 },
            body: None,
            collider: None,
            sensor: false,
            contact_events: false,
            restitution_milli: None,
            parent_floor: true,
        });
        proof {
            assert(cmds@ =~= start_part + l.goal_markers@.subrange(0, i as int + 1).map_values(
                |g: GoalMarker| spec_goal_object(g),
            ));
        }
        i = i + 1;
    }
    proof {
        assert(l.goal_markers@.subrange(0, l.goal_markers@.len() as int) =~= l.goal_markers@);
    }

    let ghost goal_part: Seq<ObjectSpec> = start_part + l.goal_markers@.map_values(
        |g: GoalMarker| spec_goal_object(g),
    );
    let mut i: usize = 0;
    while i < l.goal_sensors.len()
        invariant
            i <= l.goal_sensors@.len(),
            cmds@ == goal_part + l.goal_sensors@.subrange(0, i as int).map_values(
                |sn: GoalSensor| spec_sensor_object(sn),
            ),
            goal_part == start_part + l.goal_markers@.map_values(
                |g: GoalMarker| spec_goal_object(g),
            ),
            start_part == wall_part + l.start_markers@.map_values(
                |mk: StartMarker| spec_start_object(mk),
            ),
            wall_part == floor_part + l.walls@.map_values(|w: WallPlacement| spec_wall_object(w)),
            floor_part == seq![spec_floor_object(l.floor)],
        decreases l.goal_sensors@.len() - i,
    {
        let sn = l.goal_sensors[i];
        cmds.push(ObjectSpec {
            visual: None,
            transform: Transform3 { position: sn.position, rotation: sn.rotation },
            body: None,
            collider: Some(ColliderSpec::VerticalSegment { height: sn.height }),
            sensor: true,
            contact_events: false,
            restitution_milli: None,
            parent_floor: true,
        });
        proof {
            assert(cmds@ =~= goal_part + l.goal_sensors@.subrange(0, i as int + 1).map_values(
                |sn: GoalSensor| spec_sensor_object(sn),
            ));
        }
        i = i + 1;
    }
    proof {
        assert(l.goal_sensors@.subrange(0, l.goal_sensors@.len() as int) =~= l.goal_sensors@);
    }

    cmds.push(ObjectSpec {
        visual: None,
        transform: Transform3 { position: l.ceiling.position, rotation: YawRotation::Deg0 },
        body: Some(BodyKind::KinematicPositionBased),
        collider: Some(
            ColliderSpec::Cuboid {
                half_x: l.ceiling.half_x,
                half_y: l.ceiling.half_y,
                half_z: l.ceiling.half_z,
            },
        ),
        sensor: false,
        contact_events: false,
        restitution_milli: None,
        parent_floor: true,
    });
    proof {
        assert(cmds@ =~= spec_scene_commands(*l));
    }
    cmds
}

/// The per-session registry of created objects: every handle an engine
/// returned for a creation command is registered, so that leaving the play
/// phase can tear the whole session down in one pass without knowing how
/// the engine tags objects.
#[derive(Clone, Debug)]
pub struct SessionRegistry {
    /// Handles of every object created this session, in creation order.
    pub handles: Vec<u64>,
}

impl SessionRegistry {
    /// An empty registry for a fresh session.
    pub fn new() -> (r: SessionRegistry)
        ensures
            r.handles@ == Seq::<u64>::empty(),
    {
        SessionRegistry { handles: Vec::new() }
    }

    /// Record one created object.
    pub fn register(&mut self, handle: u64)
        ensures
            final(self).handles@ == old(self).handles@.push(handle),
    {
        self.handles.push(handle);
    }

    /// End the session: hand back every registered handle, in creation
    /// order, for destruction, and leave the registry empty for the next
    /// session.
    pub fn teardown_session(&mut self) -> (r: Vec<u64>)
        ensures
            r@ == old(self).handles@,
            final(self).handles@ == Seq::<u64>::empty(),
    {
        let mut drained: Vec<u64> = Vec::new();
        std::mem::swap(&mut drained, &mut self.handles);
        drained
    }
}

} // verus!
