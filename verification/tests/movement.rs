use steel_squid::movement::{
    plan_movement_tick, velocity_update, MovementPlan, TentaclePhase, VelocityUpdate,
    SPEED_ROLL_BOUND,
};

#[test]
fn stroke_drives_the_velocity_in_water() {
    assert_eq!(velocity_update(true, TentaclePhase::Gathering, None), VelocityUpdate::Keep);
    assert_eq!(velocity_update(true, TentaclePhase::Thrust, None), VelocityUpdate::Propel);
    assert_eq!(velocity_update(true, TentaclePhase::Recovering, None), VelocityUpdate::Damp);
    assert_eq!(velocity_update(true, TentaclePhase::Thrust, Some(3)), VelocityUpdate::Propel);
    assert_eq!(
        velocity_update(true, TentaclePhase::Recovering, Some(i32::MAX)),
        VelocityUpdate::Damp
    );
}

#[test]
fn squid_out_of_water_falls_or_levitates() {
    assert_eq!(velocity_update(false, TentaclePhase::Thrust, None), VelocityUpdate::Fall);
    assert_eq!(velocity_update(false, TentaclePhase::Gathering, None), VelocityUpdate::Fall);
    assert_eq!(
        velocity_update(false, TentaclePhase::Thrust, Some(0)),
        VelocityUpdate::Levitate { level: 1 }
    );
    assert_eq!(
        velocity_update(false, TentaclePhase::Recovering, Some(4)),
        VelocityUpdate::Levitate { level: 5 }
    );
    assert_eq!(
        velocity_update(false, TentaclePhase::Recovering, Some(i32::MAX - 1)),
        VelocityUpdate::Levitate { level: 2147483647 }
    );
}

#[test]
fn sync_and_new_speed_come_only_with_a_wrapped_stroke() {
    assert_eq!(SPEED_ROLL_BOUND, 10);
    assert_eq!(
        plan_movement_tick(true, Some(0), true, TentaclePhase::Gathering, None),
        MovementPlan { resample_speed: true, broadcast_sync: true, velocity: VelocityUpdate::Keep }
    );
    assert_eq!(
        plan_movement_tick(true, Some(3), true, TentaclePhase::Thrust, None),
        MovementPlan {
            resample_speed: false,
            broadcast_sync: true,
            velocity: VelocityUpdate::Propel,
        }
    );
    assert_eq!(
        plan_movement_tick(false, None, false, TentaclePhase::Thrust, Some(1)),
        MovementPlan {
            resample_speed: false,
            broadcast_sync: false,
            velocity: VelocityUpdate::Levitate { level: 2 },
        }
    );
    assert_eq!(
        plan_movement_tick(false, Some(0), true, TentaclePhase::Recovering, None),
        MovementPlan { resample_speed: false, broadcast_sync: false, velocity: VelocityUpdate::Damp }
    );
}
