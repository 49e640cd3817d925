use vstd::prelude::*;

verus! {

/// Height of every wall slab and of the goal sensor segment, in world units,
/// as the exact rational `WALL_HEIGHT_NUM / WALL_HEIGHT_DEN` (0.3).
pub const WALL_HEIGHT_NUM: i64 = 3;
/// Denominator of the wall height.
pub const WALL_HEIGHT_DEN: i64 = 10;
/// Thickness of every wall slab: `1 / WALL_THICKNESS_DEN` world units (0.001).
pub const WALL_THICKNESS_DEN: i64 = 1000;
/// Radius of the start marker sphere: `1 / MARKER_RADIUS_DEN` world units (0.1).
pub const MARKER_RADIUS_DEN: i64 = 10;
/// Resting height of the start marker centre: `MARKER_LIFT_NUM / MARKER_LIFT_DEN`
/// world units (0.11): the radius plus a small clearance above the floor plane.
pub const MARKER_LIFT_NUM: i64 = 11;
/// Denominator of the marker lift.
pub const MARKER_LIFT_DEN: i64 = 100;
/// Visual inset of the goal marker footprint: `1 / GOAL_INSET_DEN` world
/// units (0.01) taken off each footprint side.
pub const GOAL_INSET_DEN: i64 = 100;

/// An exact rational coordinate: `num / den`, with `den > 0`.
///
/// All world-space geometry here is derived from integer cell indices and the
/// integer playfield size, so every coordinate is an exact rational number;
/// no floating point is needed to describe a layout. Fractions are kept in
/// the un-normalised form their defining formula produces, so structural
/// equality of `Frac` values is exactly reproducibility of the formula.
#[derive(Clone, Copy, PartialEq, Eq, Structural, Debug)]
pub struct Frac {
    pub num: i64,
    pub den: i64,
}

impl Frac {
    /// A fraction is well formed when its denominator is positive.
    pub open spec fn wf(self) -> bool {
        self.den > 0
    }

    /// Build `num / den` from parts.
    pub fn new(num: i64, den: i64) -> (r: Frac)
        requires
            den > 0,
        ensures
            r == (Frac { num, den }),
    {
        Frac { num, den }
    }

    /// Build the whole number `n / 1`.
    pub fn whole(n: i64) -> (r: Frac)
        ensures
            r == spec_whole(n),
    {
        Frac { num: n, den: 1 }
    }
}

/// The whole number `n` as a fraction.
pub open spec fn spec_whole(n: i64) -> Frac {
    Frac { num: n, den: 1 }
}

/// A point in world space; `x` runs along columns, `z` along rows, `y` up.
#[derive(Clone, Copy, PartialEq, Eq, Structural, Debug)]
pub struct Pos3 {
    pub x: Frac,
    pub y: Frac,
    pub z: Frac,
}

impl Pos3 {
    /// All three coordinates are well formed.
    pub open spec fn wf(self) -> bool {
        self.x.wf() && self.y.wf() && self.z.wf()
    }
}

/// A rotation about the vertical axis. The compiler only ever needs an
/// unrotated placement, a quarter turn for walls running along rows, and an
/// eighth turn backwards for the goal sensor's diagonal trigger face.
#[derive(Clone, Copy, PartialEq, Eq, Structural, Debug)]
pub enum YawRotation {
    /// No rotation.
    Deg0,
    /// A quarter turn (90 degrees) about the vertical axis.
    Deg90,
    /// An eighth turn backwards (-45 degrees) about the vertical axis.
    Deg45Neg,
}

/// Half the wall height: the resting height of every wall slab's centre.
pub open spec fn spec_half_wall_height() -> Frac {
    Frac { num: WALL_HEIGHT_NUM, den: (2 * WALL_HEIGHT_DEN) as i64 }
}

/// The full wall height as a fraction.
pub open spec fn spec_wall_height() -> Frac {
    Frac { num: WALL_HEIGHT_NUM, den: WALL_HEIGHT_DEN }
}

/// Half the wall height, executable counterpart of [`spec_half_wall_height`].
pub fn half_wall_height() -> (r: Frac)
    ensures
        r == spec_half_wall_height(),
{
    Frac { num: WALL_HEIGHT_NUM, den: 2 * WALL_HEIGHT_DEN }
}

/// The full wall height, executable counterpart of [`spec_wall_height`].
pub fn wall_height() -> (r: Frac)
    ensures
        r == spec_wall_height(),
{
    Frac { num: WALL_HEIGHT_NUM, den: WALL_HEIGHT_DEN }
}

} // verus!
