//! The goal that makes a squid swim about at random.

use vstd::prelude::*;

verus! {

/// The kinds of control that a goal claims from the goal selector while it runs.
/// The goal selector reads them to decide which goals may run together.
#[derive(Clone, Copy, Debug, PartialEq, Eq, Structural)]
pub struct GoalControls {
    pub movement: bool,
    pub look: bool,
    pub jump: bool,
    pub target: bool,
}

impl GoalControls {
    /// The set that holds the movement control alone.
    pub open spec fn spec_move() -> GoalControls {
        GoalControls { movement: true, look: false, jump: false, target: false }
    }

    /// Builds the set that holds the movement control alone.
    pub fn move_only() -> (c: GoalControls)
        ensures
            c == GoalControls::spec_move(),
    {
        GoalControls { movement: true, look: false, jump: false, target: false }
    }
}

/// A squid that has done nothing for more ticks than this is brought to a stop.
pub const NO_ACTION_LIMIT: i32 = 100;

/// The bound of the roll that decides whether a swimming squid changes course:
/// it keeps its course unless the roll, drawn from `0..WANDER_ROLL_BOUND`, is 0.
pub const WANDER_ROLL_BOUND: i32 = 50;

/// What a tick of the goal asks for first.
#[derive(Clone, Copy, Debug, PartialEq, Eq, Structural)]
pub enum TickStep {
    /// Set the squid's movement vector to zero; the tick ends there.
    Halt,
    /// Draw a number from `0..bound` off the squid's random source and hand it
    /// to `SquidRandomMovementGoal::resolve_roll`.
    Roll { bound: i32 },
}

/// What the goal does with the squid's movement vector once the roll is known.
#[derive(Clone, Copy, Debug, PartialEq, Eq, Structural)]
pub enum MovementChoice {
    /// Leave the movement vector as it is.
    Keep,
    /// Pick a new random horizontal direction and a slight vertical drift.
    Wander,
}

/// The whole outcome of one tick of the goal.
#[derive(Clone, Copy, Debug, PartialEq, Eq, Structural)]
pub enum TickOutcome {
    Halt,
    Keep,
    Wander,
}

/// The first step of a tick, given how long the squid has done nothing.
pub open spec fn spec_tick_step(no_action_time: i32) -> TickStep {
    if no_action_time > NO_ACTION_LIMIT {
        TickStep::Halt
    } else {
        TickStep::Roll { bound: WANDER_ROLL_BOUND }
    }
}

/// The choice made once the roll is drawn: a squid keeps its course only when
/// the roll is not 0, it is in water and it already has a movement vector.
pub open spec fn spec_choice(roll: i32, in_water: bool, has_movement: bool) -> MovementChoice {
    if roll != 0 && in_water && has_movement {
        MovementChoice::Keep
    } else {
        MovementChoice::Wander
    }
}

/// The outcome of a whole tick; `roll` is only read when the tick draws one.
pub open spec fn spec_tick_outcome(
    no_action_time: i32,
    roll: i32,
    in_water: bool,
    has_movement: bool,
) -> TickOutcome {
    match spec_tick_step(no_action_time) {
        TickStep::Halt => TickOutcome::Halt,
        TickStep::Roll { .. } => match spec_choice(roll, in_water, has_movement) {
            MovementChoice::Keep => TickOutcome::Keep,
            MovementChoice::Wander => TickOutcome::Wander,
        },
    }
}

/// A squid that has done nothing for more than `NO_ACTION_LIMIT` ticks is
/// halted, whatever the roll, the water and its movement.
pub proof fn lemma_idle_squid_halts(no_action_time: i32, roll: i32, in_water: bool, has_movement: bool)
    requires
        no_action_time > NO_ACTION_LIMIT,
    ensures
        spec_tick_outcome(no_action_time, roll, in_water, has_movement) == TickOutcome::Halt,
{
}

/// A squid idle for at most 100 ticks always draws its roll from `0..50`,
/// and one idle for longer is halted: no other step can come out of a tick.
pub proof fn lemma_tick_rolls_out_of_fifty(no_action_time: i32)
    ensures
        no_action_time <= 100 ==> spec_tick_step(no_action_time) == (TickStep::Roll { bound: 50 }),
        no_action_time > 100 ==> spec_tick_step(no_action_time) == TickStep::Halt,
        spec_tick_step(no_action_time) matches TickStep::Roll { bound } ==> bound == 50,
{
}

/// A squid out of water, or one without a movement vector, never keeps its
/// course through a tick: it is halted or it picks a new direction.
pub proof fn lemma_keep_needs_water_and_movement(
    no_action_time: i32,
    roll: i32,
    in_water: bool,
    has_movement: bool,
)
    requires
        !in_water || !has_movement,
    ensures
        spec_tick_outcome(no_action_time, roll, in_water, has_movement) != TickOutcome::Keep,
{
}

/// Of the `WANDER_ROLL_BOUND` rolls that a tick can draw, all but the roll 0
/// keep the course of a squid that swims in water with a movement vector.
pub proof fn lemma_keeping_rolls(no_action_time: i32)
    requires
        no_action_time <= NO_ACTION_LIMIT,
    ensures
        Set::new(
            |r: int|
                0 <= r < WANDER_ROLL_BOUND && spec_tick_outcome(no_action_time, r as i32, true, true)
                    == TickOutcome::Keep,
        ).len() == WANDER_ROLL_BOUND - 1,
{
    let keeping = Set::new(
        |r: int|
            0 <= r < WANDER_ROLL_BOUND && spec_tick_outcome(no_action_time, r as i32, true, true)
                == TickOutcome::Keep,
    );
    vstd::set_lib::lemma_int_range(1, WANDER_ROLL_BOUND as int);
    assert(keeping =~= vstd::set_lib::set_int_range(1, WANDER_ROLL_BOUND as int));
}

/// Random swimming of a squid: every tick it either stops a squid that has been
/// idle for too long, keeps the current movement vector, or picks a new one.
pub struct SquidRandomMovementGoal {}

impl SquidRandomMovementGoal {
    /// Creates the goal; it holds no state of its own.
    pub fn new() -> (goal: SquidRandomMovementGoal)
        ensures
            goal == (SquidRandomMovementGoal {}),
    {
        SquidRandomMovementGoal {}
    }

    /// The goal claims the movement control.
    pub fn controls(&self) -> (c: GoalControls)
        ensures
            c == GoalControls::spec_move(),
    {
        GoalControls::move_only()
    }

    /// A squid can always swim at random.
    pub fn can_use(&mut self) -> (usable: bool)
        ensures
            usable,
            *final(self) == *old(self),
    {
        true
    }

    /// The first step of a tick: a squid idle for more than `NO_ACTION_LIMIT`
    /// ticks is halted, and no random number is drawn for it; otherwise the
    /// tick draws a roll below `WANDER_ROLL_BOUND`.
    pub fn tick(&mut self, no_action_time: i32) -> (step: TickStep)
        ensures
            step == spec_tick_step(no_action_time),
            no_action_time > NO_ACTION_LIMIT <==> step == TickStep::Halt,
            no_action_time <= NO_ACTION_LIMIT ==> step == (TickStep::Roll { bound: WANDER_ROLL_BOUND }),
            *final(self) == *old(self),
    {
        if no_action_time > NO_ACTION_LIMIT {
            TickStep::Halt
        } else {
            TickStep::Roll { bound: WANDER_ROLL_BOUND }
        }
    }

    /// The second step of a tick, once the roll has been drawn.
    pub fn resolve_roll(&self, roll: i32, in_water: bool, has_movement: bool) -> (choice:
        MovementChoice)
        ensures
            choice == spec_choice(roll, in_water, has_movement),
            choice == MovementChoice::Keep <==> (roll != 0 && in_water && has_movement),
    {
        if roll != 0 && in_water && has_movement {
            MovementChoice::Keep
        } else {
            MovementChoice::Wander
        }
    }
}

} // verus!
