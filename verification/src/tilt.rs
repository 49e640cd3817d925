use vstd::prelude::*;

verus! {

/// One tick's tilt is `TILT_SCALE` thousandths of the fixed per-tick angle
/// increment; digital keys always contribute the full increment, an analog
/// stick scales it proportionally.
pub const TILT_SCALE: i32 = 1000;

/// The eight directional logical keys sampled once per frame: each of the
/// four tilt directions has a primary key and an arrow-key alias.
#[derive(Clone, Copy, PartialEq, Eq, Structural, Debug)]
pub struct TiltKeys {
    /// Primary key tilting the far edge down.
    pub up_primary: bool,
    /// Arrow alias of `up_primary`.
    pub up_arrow: bool,
    /// Primary key tilting the near edge down.
    pub down_primary: bool,
    /// Arrow alias of `down_primary`.
    pub down_arrow: bool,
    /// Primary key tilting the left edge down.
    pub left_primary: bool,
    /// Arrow alias of `left_primary`.
    pub left_arrow: bool,
    /// Primary key tilting the right edge down.
    pub right_primary: bool,
    /// Arrow alias of `right_primary`.
    pub right_arrow: bool,
}

impl TiltKeys {
    /// No key held at all.
    pub fn idle() -> (r: TiltKeys)
        ensures
            r == spec_idle_keys(),
    {
        TiltKeys {
            up_primary: false,
            up_arrow: false,
            down_primary: false,
            down_arrow: false,
            left_primary: false,
            left_arrow: false,
            right_primary: false,
            right_arrow: false,
        }
    }

    /// Either key of the up direction is held.
    pub open spec fn up_held(self) -> bool {
        self.up_primary || self.up_arrow
    }

    /// Either key of the down direction is held.
    pub open spec fn down_held(self) -> bool {
        self.down_primary || self.down_arrow
    }

    /// Either key of the left direction is held.
    pub open spec fn left_held(self) -> bool {
        self.left_primary || self.left_arrow
    }

    /// Either key of the right direction is held.
    pub open spec fn right_held(self) -> bool {
        self.right_primary || self.right_arrow
    }

    /// At least one of the eight directional keys is held.
    pub open spec fn any_held(self) -> bool {
        self.up_held() || self.down_held() || self.left_held() || self.right_held()
    }
}

/// The idle key state: nothing held.
pub open spec fn spec_idle_keys() -> TiltKeys {
    TiltKeys {
        up_primary: false,
        up_arrow: false,
        down_primary: false,
        down_arrow: false,
        left_primary: false,
        left_arrow: false,
        right_primary: false,
        right_arrow: false,
    }
}

/// The net tilt of one tick on the pitch axis, in thousandths of the fixed
/// increment: up tilts negative, down positive, and opposing keys cancel to
/// zero rather than to both increments.
pub open spec fn spec_key_delta_x(k: TiltKeys) -> int {
    if k.up_held() && !k.down_held() {
        -TILT_SCALE as int
    } else if k.down_held() && !k.up_held() {
        TILT_SCALE as int
    } else {
        0
    }
}

/// The net tilt of one tick on the roll axis: right tilts negative, left
/// positive, opposing keys cancel to zero.
pub open spec fn spec_key_delta_z(k: TiltKeys) -> int {
    if k.right_held() && !k.left_held() {
        -TILT_SCALE as int
    } else if k.left_held() && !k.right_held() {
        TILT_SCALE as int
    } else {
        0
    }
}

/// One tick's signed tilt increments, in thousandths of the fixed per-tick
/// angle increment, for the two local axes the floor can tilt about.
#[derive(Clone, Copy, PartialEq, Eq, Structural, Debug)]
pub struct TiltDelta {
    /// Pitch increment (about the local x axis).
    pub x_milli: i32,
    /// Roll increment (about the local z axis).
    pub z_milli: i32,
}

impl TiltDelta {
    /// A delta never asks for more than one full increment per axis.
    pub open spec fn wf(self) -> bool {
        -TILT_SCALE <= self.x_milli <= TILT_SCALE && -TILT_SCALE <= self.z_milli <= TILT_SCALE
    }
}

/// Resolve the digital keys of one frame to tilt increments; `None` when no
/// directional key is held, so an idle frame performs no write at all.
pub fn delta_from_keys(k: &TiltKeys) -> (r: Option<TiltDelta>)
    ensures
        match r {
            None => !k.any_held(),
            Some(d) => k.any_held() && d.x_milli == spec_key_delta_x(*k) && d.z_milli == spec_key_delta_z(*k)
                && d.wf(),
        },
{
    let up = k.up_primary || k.up_arrow;
    let down = k.down_primary || k.down_arrow;
    let left = k.left_primary || k.left_arrow;
    let right = k.right_primary || k.right_arrow;
    if !up && !down && !left && !right {
        return None;
    }
    let x_milli: i32 = if up && !down {
        -TILT_SCALE
    } else if down && !up {
        TILT_SCALE
    } else {
        0
    };
    let z_milli: i32 = if right && !left {
        -TILT_SCALE
    } else if left && !right {
        TILT_SCALE
    } else {
        0
    };
    Some(TiltDelta { x_milli, z_milli })
}

/// Resolve an analog stick sample to tilt increments: each axis value is
/// given in thousandths of full deflection and scales the fixed increment
/// proportionally. `None` when the stick is centred, so an idle frame
/// performs no write, as with the keys.
pub fn delta_from_axes(x_milli: i32, z_milli: i32) -> (r: Option<TiltDelta>)
    requires
        -TILT_SCALE <= x_milli <= TILT_SCALE,
        -TILT_SCALE <= z_milli <= TILT_SCALE,
    ensures
        match r {
            None => x_milli == 0 && z_milli == 0,
            Some(d) => (x_milli != 0 || z_milli != 0) && d == (TiltDelta { x_milli, z_milli }) && d.wf(),
        },
{
    if x_milli == 0 && z_milli == 0 {
        None
    } else {
        Some(TiltDelta { x_milli, z_milli })
    }
}

/// The floor's accumulated orientation: the running sums of all applied
/// tilt increments about the two local axes, in thousandths of the fixed
/// increment. Tilt integrates over time and is never reset or clamped.
#[derive(Clone, Copy, PartialEq, Eq, Structural, Debug)]
pub struct FloorOrientation {
    /// Accumulated pitch, in thousandths of the fixed increment.
    pub pitch_milli: i64,
    /// Accumulated roll, in thousandths of the fixed increment.
    pub roll_milli: i64,
}

impl FloorOrientation {
    /// The level starting orientation: no tilt.
    pub fn level() -> (r: FloorOrientation)
        ensures
            r == (FloorOrientation { pitch_milli: 0, roll_milli: 0 }),
    {
        FloorOrientation { pitch_milli: 0, roll_milli: 0 }
    }

    /// Compose one tick's increments onto the accumulated orientation.
    pub fn apply(&mut self, d: &TiltDelta)
        requires
            d.wf(),
            i64::MIN + TILT_SCALE <= old(self).pitch_milli <= i64::MAX - TILT_SCALE,
            i64::MIN + TILT_SCALE <= old(self).roll_milli <= i64::MAX - TILT_SCALE,
        ensures
            final(self).pitch_milli == old(self).pitch_milli + d.x_milli,
            final(self).roll_milli == old(self).roll_milli + d.z_milli,
    {
        self.pitch_milli = self.pitch_milli + d.x_milli as i64;
        self.roll_milli = self.roll_milli + d.z_milli as i64;
    }
}

/// One frame of the tilt controller on keyboard input: sample the keys and,
/// only when a directional key is held, compose the resulting increments
/// onto the floor's orientation. An idle frame leaves the orientation
/// untouched, bit for bit.
pub fn tilt_tick(o: &mut FloorOrientation, k: &TiltKeys)
    requires
        k.any_held() ==> i64::MIN + TILT_SCALE <= old(o).pitch_milli <= i64::MAX - TILT_SCALE
            && i64::MIN + TILT_SCALE <= old(o).roll_milli <= i64::MAX - TILT_SCALE,
    ensures
        !k.any_held() ==> *final(o) == *old(o),
        k.any_held() ==> final(o).pitch_milli == old(o).pitch_milli + spec_key_delta_x(*k)
            && final(o).roll_milli == old(o).roll_milli + spec_key_delta_z(*k),
{
    match delta_from_keys(k) {
        None => {},
        Some(d) => {
            o.apply(&d);
        },
    }
}

/// One frame of the tilt controller on analog input: resolve the stick
/// sample and, only when it is deflected, compose the scaled increments
/// onto the floor's orientation. A centred stick leaves the orientation
/// untouched, bit for bit, exactly as idle keys do.
pub fn tilt_tick_axes(o: &mut FloorOrientation, x_milli: i32, z_milli: i32)
    requires
        -TILT_SCALE <= x_milli <= TILT_SCALE,
        -TILT_SCALE <= z_milli <= TILT_SCALE,
        x_milli != 0 || z_milli != 0 ==> i64::MIN + TILT_SCALE <= old(o).pitch_milli <= i64::MAX
            - TILT_SCALE && i64::MIN + TILT_SCALE <= old(o).roll_milli <= i64::MAX - TILT_SCALE,
    ensures
        x_milli == 0 && z_milli == 0 ==> *final(o) == *old(o),
        x_milli != 0 || z_milli != 0 ==> final(o).pitch_milli == old(o).pitch_milli + x_milli
            && final(o).roll_milli == old(o).roll_milli + z_milli,
{
    match delta_from_axes(x_milli, z_milli) {
        None => {},
        Some(d) => {
            o.apply(&d);
        },
    }
}

/// Law: holding both opposing keys of the pitch axis yields a zero net
/// increment on that axis for the tick, not two increments.
pub proof fn lemma_tilt_cancel_pitch(k: TiltKeys)
    requires
        k.up_held(),
        k.down_held(),
    ensures
        spec_key_delta_x(k) == 0,
{
}

/// Law: holding both opposing keys of the roll axis yields a zero net
/// increment on that axis for the tick.
pub proof fn lemma_tilt_cancel_roll(k: TiltKeys)
    requires
        k.left_held(),
        k.right_held(),
    ensures
        spec_key_delta_z(k) == 0,
{
}

} // verus!
