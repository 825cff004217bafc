//! The squid's own movement: the tentacle stroke that it swims with, and the
//! rule that turns the stroke, the water and levitation into a new velocity.
//!
//! The stroke's angle and the velocity are floating-point values; the caller
//! reads them into the plain values below and applies the decision that comes
//! back.

use vstd::prelude::*;

verus! {

/// When the tentacle stroke wraps around a full turn, the squid draws a number
/// from `0..SPEED_ROLL_BOUND`; on 0 it picks a new stroke speed.
pub const SPEED_ROLL_BOUND: i32 = 10;

/// Where the tentacle angle stands within its turn.
#[derive(Clone, Copy, Debug, PartialEq, Eq, Structural)]
pub enum TentaclePhase {
    /// The first three quarters of the first half turn.
    Gathering,
    /// The last quarter of the first half turn: the squid thrusts.
    Thrust,
    /// The second half turn.
    Recovering,
}

/// What happens to the squid's velocity in a tick.
#[derive(Clone, Copy, Debug, PartialEq, Eq, Structural)]
pub enum VelocityUpdate {
    /// The velocity stays as it is.
    Keep,
    /// The velocity becomes the squid's movement vector.
    Propel,
    /// The velocity is scaled down by the water's drag.
    Damp,
    /// Out of water: the horizontal velocity is dropped, and gravity pulls the
    /// vertical velocity down before the air's drag.
    Fall,
    /// Out of water under levitation: the horizontal velocity is dropped, and
    /// the squid rises at a speed proportional to `level` before the air's drag.
    Levitate { level: i64 },
}

/// What a movement tick does besides moving the squid.
#[derive(Clone, Copy, Debug, PartialEq, Eq, Structural)]
pub struct MovementPlan {
    /// Draw a new tentacle speed.
    pub resample_speed: bool,
    /// Tell the clients that the stroke wrapped, so their animation stays in step.
    pub broadcast_sync: bool,
    /// The velocity rule of this tick.
    pub velocity: VelocityUpdate,
}

/// The velocity rule: in water the stroke decides, out of water levitation
/// (given by its amplifier) or else gravity decides.
pub open spec fn spec_velocity_update(
    in_water: bool,
    phase: TentaclePhase,
    levitation: Option<i32>,
) -> VelocityUpdate {
    if in_water {
        match phase {
            TentaclePhase::Gathering => VelocityUpdate::Keep,
            TentaclePhase::Thrust => VelocityUpdate::Propel,
            TentaclePhase::Recovering => VelocityUpdate::Damp,
        }
    } else {
        match levitation {
            Some(amplifier) => VelocityUpdate::Levitate { level: (amplifier + 1) as i64 },
            None => VelocityUpdate::Fall,
        }
    }
}

/// The plan of a movement tick: `wrapped` tells whether the stroke passed a
/// full turn this tick, and `speed_roll` is the number drawn for it, which is
/// drawn only on such a tick.
pub open spec fn spec_movement_plan(
    wrapped: bool,
    speed_roll: Option<i32>,
    in_water: bool,
    phase: TentaclePhase,
    levitation: Option<i32>,
) -> MovementPlan {
    MovementPlan {
        resample_speed: wrapped && speed_roll == Some(0i32),
        broadcast_sync: wrapped,
        velocity: spec_velocity_update(in_water, phase, levitation),
    }
}

/// Decides the velocity rule of a tick.
pub fn velocity_update(in_water: bool, phase: TentaclePhase, levitation: Option<i32>) -> (update:
    VelocityUpdate)
    requires
        !in_water ==> (levitation matches Some(amplifier) ==> amplifier < i32::MAX),
    ensures
        update == spec_velocity_update(in_water, phase, levitation),
        in_water && phase == TentaclePhase::Gathering ==> update == VelocityUpdate::Keep,
        in_water && phase == TentaclePhase::Thrust ==> update == VelocityUpdate::Propel,
        in_water && phase == TentaclePhase::Recovering ==> update == VelocityUpdate::Damp,
        !in_water && levitation is None ==> update == VelocityUpdate::Fall,
        !in_water ==> (levitation matches Some(amplifier) ==> (update matches VelocityUpdate::Levitate { level } && level == amplifier + 1)),
{
    if in_water {
        match phase {
            TentaclePhase::Gathering => VelocityUpdate::Keep,
            TentaclePhase::Thrust => VelocityUpdate::Propel,
            TentaclePhase::Recovering => VelocityUpdate::Damp,
        }
    } else {
        match levitation {
            Some(amplifier) => VelocityUpdate::Levitate { level: (amplifier + 1) as i64 },
            None => VelocityUpdate::Fall,
        }
    }
}

/// Plans a movement tick. The caller draws `speed_roll` from
/// `0..SPEED_ROLL_BOUND` only when `wrapped` holds, and passes `None` otherwise.
pub fn plan_movement_tick(
    wrapped: bool,
    speed_roll: Option<i32>,
    in_water: bool,
    phase: TentaclePhase,
    levitation: Option<i32>,
) -> (plan: MovementPlan)
    requires
        !in_water ==> (levitation matches Some(amplifier) ==> amplifier < i32::MAX),
    ensures
        plan == spec_movement_plan(wrapped, speed_roll, in_water, phase, levitation),
        plan.resample_speed == (wrapped && speed_roll == Some(0i32)),
        plan.broadcast_sync == wrapped,
        plan.velocity == spec_velocity_update(in_water, phase, levitation),
        in_water && phase == TentaclePhase::Gathering ==> plan.velocity == VelocityUpdate::Keep,
        in_water && phase == TentaclePhase::Thrust ==> plan.velocity == VelocityUpdate::Propel,
        in_water && phase == TentaclePhase::Recovering ==> plan.velocity == VelocityUpdate::Damp,
        !in_water && levitation is None ==> plan.velocity == VelocityUpdate::Fall,
        !in_water ==> (levitation matches Some(amplifier) ==> (plan.velocity matches VelocityUpdate::Levitate { level } && level == amplifier + 1)),
{
    let resample_speed = match speed_roll {
        Some(roll) => wrapped && roll == 0,
        None => false,
    };
    MovementPlan {
        resample_speed,
        broadcast_sync: wrapped,
        velocity: velocity_update(in_water, phase, levitation),
    }
}

/// The clients are told of the stroke exactly on the ticks where it wraps, and
/// the stroke speed changes only on such a tick.
pub proof fn lemma_sync_follows_the_stroke(
    wrapped: bool,
    speed_roll: Option<i32>,
    in_water: bool,
    phase: TentaclePhase,
    levitation: Option<i32>,
)
    ensures
        spec_movement_plan(wrapped, speed_roll, in_water, phase, levitation).broadcast_sync
            == wrapped,
        spec_movement_plan(wrapped, speed_roll, in_water, phase, levitation).resample_speed
            ==> wrapped,
{
}

/// Out of water the stroke has no effect on the velocity: the squid falls or
/// levitates, whatever the phase.
pub proof fn lemma_stroke_only_moves_in_water(
    phase: TentaclePhase,
    other_phase: TentaclePhase,
    levitation: Option<i32>,
)
    ensures
        spec_velocity_update(false, phase, levitation) == spec_velocity_update(
            false,
            other_phase,
            levitation,
        ),
        spec_velocity_update(false, phase, levitation) is Fall || spec_velocity_update(
            false,
            phase,
            levitation,
        ) is Levitate,
{
}

/// On a wrapped tick, exactly one of the ten speed rolls, the roll 0, draws a
/// new stroke speed; on a tick that does not wrap, no roll does.
pub proof fn lemma_one_roll_in_ten_resamples(in_water: bool, phase: TentaclePhase, levitation: Option<i32>)
    ensures
        Set::new(
            |r: int|
                0 <= r < 10 && spec_movement_plan(true, Some(r as i32), in_water, phase, levitation).resample_speed,
        ) == set![0int],
        Set::new(
            |r: int|
                0 <= r < 10 && spec_movement_plan(true, Some(r as i32), in_water, phase, levitation).resample_speed,
        ).len() == 1,
        forall|roll: Option<i32>| !(#[trigger] spec_movement_plan(false, roll, in_water, phase, levitation)).resample_speed,
        !spec_movement_plan(true, None, in_water, phase, levitation).resample_speed,
{
    let resampling = Set::new(
        |r: int|
            0 <= r < 10 && spec_movement_plan(true, Some(r as i32), in_water, phase, levitation).resample_speed,
    );
    assert(resampling =~= set![0int]);
    assert(set![0int] =~= Set::<int>::empty().insert(0int));
}

/// The velocity of a planned tick does not depend on whether the stroke
/// wrapped or on the speed roll: it is the tick's velocity rule. In water the
/// phase gathers, thrusts or damps; out of water the squid falls, or under
/// levitation with amplifier `a` rises at level `a + 1`.
pub proof fn lemma_plan_velocity_is_the_rule(
    wrapped: bool,
    speed_roll: Option<i32>,
    other_wrapped: bool,
    other_roll: Option<i32>,
    in_water: bool,
    phase: TentaclePhase,
    levitation: Option<i32>,
)
    ensures
        spec_movement_plan(wrapped, speed_roll, in_water, phase, levitation).velocity
            == spec_movement_plan(other_wrapped, other_roll, in_water, phase, levitation).velocity,
        !in_water && levitation is None ==> spec_movement_plan(wrapped, speed_roll, in_water, phase, levitation).velocity
            == VelocityUpdate::Fall,
        in_water && phase == TentaclePhase::Gathering ==> spec_movement_plan(wrapped, speed_roll, in_water, phase, levitation).velocity
            == VelocityUpdate::Keep,
        in_water && phase == TentaclePhase::Thrust ==> spec_movement_plan(wrapped, speed_roll, in_water, phase, levitation).velocity
            == VelocityUpdate::Propel,
        in_water && phase == TentaclePhase::Recovering ==> spec_movement_plan(wrapped, speed_roll, in_water, phase, levitation).velocity
            == VelocityUpdate::Damp,
{
}

/// Out of water under levitation with amplifier `a`, the squid rises at level
/// `a + 1`, whatever the phase of its stroke.
pub proof fn lemma_levitation_level(phase: TentaclePhase, amplifier: i32)
    requires
        amplifier < i32::MAX,
    ensures
        spec_velocity_update(false, phase, Some(amplifier)) matches VelocityUpdate::Levitate { level }
            && level == amplifier + 1,
{
}

/// In water levitation has no effect on the velocity.
pub proof fn lemma_levitation_only_acts_out_of_water(
    phase: TentaclePhase,
    levitation: Option<i32>,
)
    ensures
        spec_velocity_update(true, phase, levitation) == spec_velocity_update(true, phase, None),
{
}

} // verus!
