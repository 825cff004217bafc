use steel_squid::entity::{
    default_goals, hurt_spawns_ink, DimensionSource, SquidEntity, SquidGoal,
    AMBIENT_SOUND_INTERVAL, FLEE_PRIORITY, INK_PARTICLES, RANDOM_MOVEMENT_PRIORITY,
};

fn test_squid() -> SquidEntity {
    SquidEntity::new(false)
}

/// Vanilla inherits 120 from `AgeableWaterCreature`; Steel's default is 80.
#[test]
fn squid_uses_the_water_creature_ambient_sound_interval() {
    let squid = test_squid();

    assert_eq!(squid.ambient_sound_interval(), 120);
}

/// Pins that the entity flag reaches the entity, not the `true` trait default.
#[test]
fn squid_is_not_pushed_by_fluid() {
    let squid = test_squid();

    assert!(!squid.is_pushed_by_fluid());
}

#[test]
fn new_squid_starts_with_clear_flags() {
    let squid = test_squid();
    assert!(!squid.is_age_locked());
    assert!(!squid.is_synced_baby());
    assert_eq!(squid.mob_flags(), 0);
    assert_eq!(AMBIENT_SOUND_INTERVAL, 120);
}

#[test]
fn new_squid_flees_before_it_wanders() {
    let squid = test_squid();
    let goals = squid.goals();
    assert_eq!(goals.len(), 2);
    assert_eq!(goals[0], (0, SquidGoal::Flee));
    assert_eq!(goals[1], (1, SquidGoal::RandomMovement));
    assert!(FLEE_PRIORITY < RANDOM_MOVEMENT_PRIORITY);
    assert_eq!(default_goals(), goals.clone());
}

#[test]
fn synced_flags_read_back_what_was_written() {
    let mut squid = test_squid();
    squid.set_age_locked(true);
    assert!(squid.is_age_locked());
    assert!(!squid.is_synced_baby());
    squid.set_synced_baby(true);
    assert!(squid.is_synced_baby());
    assert!(squid.is_age_locked());
    squid.set_mob_flags(-3);
    assert_eq!(squid.mob_flags(), -3);
    assert!(squid.is_synced_baby());
    squid.set_age_locked(false);
    assert!(!squid.is_age_locked());
    assert_eq!(squid.mob_flags(), -3);
}

#[test]
fn baby_squid_takes_baby_dimensions() {
    let loose = SquidEntity::new(false);
    let fixed = SquidEntity::new(true);
    assert_eq!(loose.dimensions_source(true), DimensionSource::Baby);
    assert_eq!(fixed.dimensions_source(true), DimensionSource::Baby);
    assert_eq!(fixed.dimensions_source(false), DimensionSource::TypeFixed);
    assert_eq!(loose.dimensions_source(false), DimensionSource::TypeScaled);
}

#[test]
fn ink_only_follows_a_hurt_from_a_mob() {
    assert!(hurt_spawns_ink(true, true));
    assert!(!hurt_spawns_ink(true, false));
    assert!(!hurt_spawns_ink(false, true));
    assert!(!hurt_spawns_ink(false, false));
    assert_eq!(INK_PARTICLES, 30);
}
