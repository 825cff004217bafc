use steel_squid::goal::{
    GoalControls, MovementChoice, SquidRandomMovementGoal, TickStep, NO_ACTION_LIMIT,
    WANDER_ROLL_BOUND,
};

#[test]
fn random_movement_goal_claims_movement_and_is_always_usable() {
    let mut goal = SquidRandomMovementGoal::new();
    let controls = goal.controls();
    assert_eq!(controls, GoalControls::move_only());
    assert!(controls.movement);
    assert!(!controls.look && !controls.jump && !controls.target);
    assert!(goal.can_use());
}

#[test]
fn idle_squid_is_halted_without_a_roll() {
    let mut goal = SquidRandomMovementGoal::new();
    assert_eq!(NO_ACTION_LIMIT, 100);
    assert_eq!(goal.tick(101), TickStep::Halt);
    assert_eq!(goal.tick(i32::MAX), TickStep::Halt);
    assert_eq!(goal.tick(100), TickStep::Roll { bound: 50 });
    assert_eq!(goal.tick(0), TickStep::Roll { bound: WANDER_ROLL_BOUND });
    assert_eq!(goal.tick(-5), TickStep::Roll { bound: 50 });
}

#[test]
fn swimming_squid_keeps_course_unless_the_roll_is_zero() {
    let goal = SquidRandomMovementGoal::new();
    assert_eq!(goal.resolve_roll(1, true, true), MovementChoice::Keep);
    assert_eq!(goal.resolve_roll(49, true, true), MovementChoice::Keep);
    assert_eq!(goal.resolve_roll(0, true, true), MovementChoice::Wander);
    let keeping = (0..WANDER_ROLL_BOUND)
        .filter(|r| goal.resolve_roll(*r, true, true) == MovementChoice::Keep)
        .count();
    assert_eq!(keeping, 49);
}

#[test]
fn squid_out_of_water_or_at_rest_picks_a_new_course() {
    let goal = SquidRandomMovementGoal::new();
    assert_eq!(goal.resolve_roll(7, false, true), MovementChoice::Wander);
    assert_eq!(goal.resolve_roll(7, true, false), MovementChoice::Wander);
    assert_eq!(goal.resolve_roll(7, false, false), MovementChoice::Wander);
}
