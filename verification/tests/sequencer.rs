use rover_core::motors::{
    ChannelOp, Config, Direction, MotorPlan, MotorState, Motors, MotorsSm, MotorsSmCommand,
    MotorsSmError,
};

fn idle_sm() -> MotorsSm {
    let (motors, _) = Motors::init(Config::default());
    MotorsSm::init(motors)
}

fn duties(sm: &MotorsSm) -> (u8, u8, u8, u8) {
    (sm.motors.l1, sm.motors.l2, sm.motors.r1, sm.motors.r2)
}

fn noop_plan() -> MotorPlan {
    MotorPlan {
        left_1: ChannelOp::Keep,
        left_2: ChannelOp::Keep,
        right_1: ChannelOp::Keep,
        right_2: ChannelOp::Keep,
    }
}

fn all_zero_plan() -> MotorPlan {
    MotorPlan {
        left_1: ChannelOp::SetDuty(0),
        left_2: ChannelOp::SetDuty(0),
        right_1: ChannelOp::SetDuty(0),
        right_2: ChannelOp::SetDuty(0),
    }
}

#[test]
fn default_config_values() {
    let c = Config::default();
    assert_eq!(c.accel_time, 500);
    assert_eq!(c.decel_time_l, 1000);
    assert_eq!(c.decel_time_r, 500);
    assert_eq!(c.left_duty, 87);
    assert_eq!(c.right_duty, 81);
}

#[test]
fn fresh_sequencer_is_stopped_and_idle() {
    let sm = idle_sm();
    assert_eq!(sm.state, MotorState::Stopped);
    assert!(sm.current_cmd.is_none());
    assert_eq!(duties(&sm), (0, 0, 0, 0));
}

#[test]
fn init_hands_back_the_plan_that_zeroes_the_hardware() {
    let (motors, plan) = Motors::init(Config::default());
    assert_eq!((motors.l1, motors.l2, motors.r1, motors.r2), (0, 0, 0, 0));
    assert_eq!(plan, all_zero_plan());
}

#[test]
fn forward_command_full_cycle() {
    // Admission, then four advances: acceleration ramp, hold, the longer
    // deceleration ramp, and back to rest.
    let mut sm = idle_sm();
    assert_eq!(sm.process_cmd(MotorsSmCommand::Forward(600)), Ok(()));

    let (d1, p1) = sm.next();
    assert_eq!(d1, 500);
    assert_eq!(sm.state, MotorState::WaitAccel);
    assert_eq!(
        p1,
        MotorPlan {
            left_1: ChannelOp::Fade { from: 0, to: 87, time_ms: 500 },
            left_2: ChannelOp::SetDuty(0),
            right_1: ChannelOp::Fade { from: 0, to: 81, time_ms: 500 },
            right_2: ChannelOp::SetDuty(0),
        }
    );
    assert_eq!(duties(&sm), (87, 0, 81, 0));

    let (d2, p2) = sm.next();
    assert_eq!(d2, 600);
    assert_eq!(sm.state, MotorState::Moving(Direction::Forward));
    assert_eq!(p2, noop_plan());

    let (d3, p3) = sm.next();
    assert_eq!(d3, 1000);
    assert_eq!(sm.state, MotorState::WaitDecel);
    assert_eq!(
        p3,
        MotorPlan {
            left_1: ChannelOp::Fade { from: 87, to: 0, time_ms: 1000 },
            left_2: ChannelOp::Keep,
            right_1: ChannelOp::Fade { from: 81, to: 0, time_ms: 500 },
            right_2: ChannelOp::Keep,
        }
    );
    assert_eq!(duties(&sm), (0, 0, 0, 0));

    let (d4, p4) = sm.next();
    assert_eq!(d4, 0);
    assert_eq!(sm.state, MotorState::Stopped);
    assert!(sm.current_cmd.is_none());
    assert_eq!(p4, noop_plan());
}

#[test]
fn backwards_ramps_the_other_pair() {
    let mut sm = idle_sm();
    assert_eq!(sm.process_cmd(MotorsSmCommand::Backwards(250)), Ok(()));
    let (d, p) = sm.next();
    assert_eq!(d, 500);
    assert_eq!(
        p,
        MotorPlan {
            left_1: ChannelOp::SetDuty(0),
            left_2: ChannelOp::Fade { from: 0, to: 87, time_ms: 500 },
            right_1: ChannelOp::SetDuty(0),
            right_2: ChannelOp::Fade { from: 0, to: 81, time_ms: 500 },
        }
    );
    assert_eq!(duties(&sm), (0, 87, 0, 81));
    let (hold, _) = sm.next();
    assert_eq!(hold, 250);
    assert_eq!(sm.state, MotorState::Moving(Direction::Backwards));
}

#[test]
fn left_turn_crosses_the_sides() {
    let mut sm = idle_sm();
    assert_eq!(sm.process_cmd(MotorsSmCommand::Left(180)), Ok(()));
    let (_, p) = sm.next();
    assert_eq!(
        p,
        MotorPlan {
            left_1: ChannelOp::SetDuty(0),
            left_2: ChannelOp::Fade { from: 0, to: 87, time_ms: 500 },
            right_1: ChannelOp::Fade { from: 0, to: 81, time_ms: 500 },
            right_2: ChannelOp::SetDuty(0),
        }
    );
    assert_eq!(duties(&sm), (0, 87, 81, 0));
    let (hold, _) = sm.next();
    assert_eq!(hold, 180);
    assert_eq!(sm.state, MotorState::Moving(Direction::Left));
}

#[test]
fn right_turn_crosses_the_sides() {
    let mut sm = idle_sm();
    assert_eq!(sm.process_cmd(MotorsSmCommand::Right(160)), Ok(()));
    let (_, p) = sm.next();
    assert_eq!(
        p,
        MotorPlan {
            left_1: ChannelOp::Fade { from: 0, to: 87, time_ms: 500 },
            left_2: ChannelOp::SetDuty(0),
            right_1: ChannelOp::SetDuty(0),
            right_2: ChannelOp::Fade { from: 0, to: 81, time_ms: 500 },
        }
    );
    assert_eq!(duties(&sm), (87, 0, 0, 81));
    let (hold, _) = sm.next();
    assert_eq!(hold, 160);
    assert_eq!(sm.state, MotorState::Moving(Direction::Right));
}

#[test]
fn second_movement_command_is_busy() {
    // No Stopped-and-idle window between the two submissions.
    let mut sm = idle_sm();
    assert_eq!(sm.process_cmd(MotorsSmCommand::Forward(600)), Ok(()));
    assert_eq!(
        sm.process_cmd(MotorsSmCommand::Right(160)),
        Err(MotorsSmError::Busy)
    );
    assert_eq!(sm.current_cmd, Some(MotorsSmCommand::Forward(600)));
}

#[test]
fn movement_is_busy_in_every_non_idle_state() {
    let mut sm = idle_sm();
    assert_eq!(sm.process_cmd(MotorsSmCommand::Forward(600)), Ok(()));
    sm.next();
    assert_eq!(sm.state, MotorState::WaitAccel);
    assert_eq!(sm.process_cmd(MotorsSmCommand::Left(180)), Err(MotorsSmError::Busy));
    sm.next();
    assert!(matches!(sm.state, MotorState::Moving(_)));
    assert_eq!(sm.process_cmd(MotorsSmCommand::Left(180)), Err(MotorsSmError::Busy));
    sm.next();
    assert_eq!(sm.state, MotorState::WaitDecel);
    assert_eq!(sm.process_cmd(MotorsSmCommand::Left(180)), Err(MotorsSmError::Busy));
}

#[test]
fn stop_is_admitted_while_moving() {
    let mut sm = idle_sm();
    assert_eq!(sm.process_cmd(MotorsSmCommand::Forward(600)), Ok(()));
    sm.next();
    sm.next();
    assert!(matches!(sm.state, MotorState::Moving(_)));
    assert_eq!(sm.process_cmd(MotorsSmCommand::Stop), Ok(()));
    // The graceful stop needs no storing: the next advance decelerates.
    let (d, _) = sm.next();
    assert_eq!(d, 1000);
    assert_eq!(sm.state, MotorState::WaitDecel);
}

#[test]
fn stop_is_busy_in_wait_states() {
    let mut sm = idle_sm();
    assert_eq!(sm.process_cmd(MotorsSmCommand::Forward(600)), Ok(()));
    sm.next();
    assert_eq!(sm.state, MotorState::WaitAccel);
    assert_eq!(sm.process_cmd(MotorsSmCommand::Stop), Err(MotorsSmError::Busy));
}

#[test]
fn emergency_stop_overwrites_pending_command() {
    let mut sm = idle_sm();
    assert_eq!(sm.process_cmd(MotorsSmCommand::Forward(600)), Ok(()));
    assert_eq!(sm.process_cmd(MotorsSmCommand::EmergencyStop), Ok(()));
    assert_eq!(sm.current_cmd, Some(MotorsSmCommand::EmergencyStop));
    let (d, p) = sm.next();
    assert_eq!(d, 0);
    assert_eq!(p, all_zero_plan());
    assert_eq!(sm.state, MotorState::Stopped);
    assert!(sm.current_cmd.is_none());
}

#[test]
fn emergency_stop_halts_from_stopped() {
    let mut sm = idle_sm();
    assert_eq!(sm.process_cmd(MotorsSmCommand::EmergencyStop), Ok(()));
    let (d, p) = sm.next();
    assert_eq!((d, p), (0, all_zero_plan()));
    assert_eq!(sm.state, MotorState::Stopped);
    assert!(sm.current_cmd.is_none());
    assert_eq!(duties(&sm), (0, 0, 0, 0));
}

#[test]
fn emergency_stop_halts_from_wait_accel() {
    let mut sm = idle_sm();
    assert_eq!(sm.process_cmd(MotorsSmCommand::Forward(600)), Ok(()));
    sm.next();
    assert_eq!(sm.state, MotorState::WaitAccel);
    assert_eq!(sm.process_cmd(MotorsSmCommand::EmergencyStop), Ok(()));
    let (d, p) = sm.next();
    assert_eq!((d, p), (0, all_zero_plan()));
    assert_eq!(sm.state, MotorState::Stopped);
    assert!(sm.current_cmd.is_none());
    assert_eq!(duties(&sm), (0, 0, 0, 0));
}

#[test]
fn emergency_stop_halts_from_every_moving_direction() {
    for cmd in [
        MotorsSmCommand::Forward(600),
        MotorsSmCommand::Backwards(600),
        MotorsSmCommand::Left(180),
        MotorsSmCommand::Right(160),
    ] {
        let mut sm = idle_sm();
        assert_eq!(sm.process_cmd(cmd), Ok(()));
        sm.next();
        sm.next();
        assert!(matches!(sm.state, MotorState::Moving(_)));
        assert_eq!(sm.process_cmd(MotorsSmCommand::EmergencyStop), Ok(()));
        let (d, p) = sm.next();
        assert_eq!((d, p), (0, all_zero_plan()));
        assert_eq!(sm.state, MotorState::Stopped);
        assert!(sm.current_cmd.is_none());
        assert_eq!(duties(&sm), (0, 0, 0, 0));
    }
}

#[test]
fn emergency_stop_halts_from_wait_decel() {
    let mut sm = idle_sm();
    assert_eq!(sm.process_cmd(MotorsSmCommand::Forward(600)), Ok(()));
    sm.next();
    sm.next();
    sm.next();
    assert_eq!(sm.state, MotorState::WaitDecel);
    assert_eq!(sm.process_cmd(MotorsSmCommand::EmergencyStop), Ok(()));
    let (d, _) = sm.next();
    assert_eq!(d, 0);
    assert_eq!(sm.state, MotorState::Stopped);
    assert!(sm.current_cmd.is_none());
    assert_eq!(duties(&sm), (0, 0, 0, 0));
}

#[test]
fn idle_advance_is_a_no_op() {
    let mut sm = idle_sm();
    let (d, p) = sm.next();
    assert_eq!((d, p), (0, noop_plan()));
    assert_eq!(sm.state, MotorState::Stopped);
}

#[test]
fn stop_while_idle_is_rejected() {
    // A graceful stop is only meaningful while Moving: at rest it is
    // rejected and does not occupy the pending slot, so a movement
    // command arriving right after is still admitted.
    let mut sm = idle_sm();
    assert_eq!(sm.process_cmd(MotorsSmCommand::Stop), Err(MotorsSmError::Busy));
    assert_eq!(sm.state, MotorState::Stopped);
    assert!(sm.current_cmd.is_none());
    assert_eq!(sm.process_cmd(MotorsSmCommand::Forward(600)), Ok(()));
}

#[test]
fn deceleration_skips_channels_already_at_zero() {
    let mut sm = idle_sm();
    assert_eq!(sm.process_cmd(MotorsSmCommand::Right(160)), Ok(()));
    sm.next();
    sm.next();
    let (d, p) = sm.next();
    assert_eq!(d, 1000);
    assert_eq!(
        p,
        MotorPlan {
            left_1: ChannelOp::Fade { from: 87, to: 0, time_ms: 1000 },
            left_2: ChannelOp::Keep,
            right_1: ChannelOp::Keep,
            right_2: ChannelOp::Fade { from: 81, to: 0, time_ms: 500 },
        }
    );
}
