//! Motor sequencer state machine and actuator duty bookkeeping.
//!
//! The sequencer turns admitted motion commands into timed duty
//! transitions.  Each call of `next` moves the machine one step and returns
//! the delay after which it wants to be driven again, together with the
//! plan of per-channel duty operations the caller must apply to the
//! hardware: the recorded duty state here is the logical source of truth
//! for what each channel was last commanded to.

use vstd::prelude::*;

verus! {

/// Acceleration ramp duration, in milliseconds.
pub const ACCEL_TIME: u16 = 500;
/// Deceleration ramp duration of the left side, in milliseconds.
pub const DECEL_TIME_L: u16 = 1000;
/// Deceleration ramp duration of the right side, in milliseconds.
pub const DECEL_TIME_R: u16 = 500;
/// Target duty of the left channels, as a percentage.
pub const LEFT_DUTY: u8 = 87;
/// Target duty of the right channels, as a percentage.
pub const RIGHT_DUTY: u8 = 81;

/// Static tuning constants of the motor sequencer, read-only after
/// construction.
#[derive(Debug, Clone, Copy, PartialEq, Eq, Structural)]
pub struct Config {
    pub accel_time: u16,
    pub decel_time_l: u16,
    pub decel_time_r: u16,
    pub left_duty: u8,
    pub right_duty: u8,
}

/// The default tuning constants.
pub open spec fn default_config() -> Config {
    Config {
        accel_time: ACCEL_TIME,
        decel_time_l: DECEL_TIME_L,
        decel_time_r: DECEL_TIME_R,
        left_duty: LEFT_DUTY,
        right_duty: RIGHT_DUTY,
    }
}

impl Default for Config {
    /// The default tuning constants.
    fn default() -> (c: Config)
        ensures
            c == default_config(),
    {
        Config {
            accel_time: ACCEL_TIME,
            decel_time_l: DECEL_TIME_L,
            decel_time_r: DECEL_TIME_R,
            left_duty: LEFT_DUTY,
            right_duty: RIGHT_DUTY,
        }
    }
}

/// One duty operation the caller must apply to one hardware channel:
/// leave it alone, set its duty instantly, or start a timed linear fade.
#[derive(Debug, Clone, Copy, PartialEq, Eq, Structural)]
pub enum ChannelOp {
    Keep,
    SetDuty(u8),
    Fade { from: u8, to: u8, time_ms: u16 },
}

/// The duty operations to apply to the four channels (left 1 and 2, right
/// 1 and 2) after one bookkeeping step.
#[derive(Debug, Clone, Copy, PartialEq, Eq, Structural)]
pub struct MotorPlan {
    pub left_1: ChannelOp,
    pub left_2: ChannelOp,
    pub right_1: ChannelOp,
    pub right_2: ChannelOp,
}

/// The plan that touches no channel.
pub open spec fn noop_plan() -> MotorPlan {
    MotorPlan {
        left_1: ChannelOp::Keep,
        left_2: ChannelOp::Keep,
        right_1: ChannelOp::Keep,
        right_2: ChannelOp::Keep,
    }
}

/// The plan that zeroes all four channels instantly, with no ramp.
pub open spec fn estop_plan() -> MotorPlan {
    MotorPlan {
        left_1: ChannelOp::SetDuty(0),
        left_2: ChannelOp::SetDuty(0),
        right_1: ChannelOp::SetDuty(0),
        right_2: ChannelOp::SetDuty(0),
    }
}

/// The duty bookkeeping of the four motor channels: the last commanded
/// duty of each, and the tuning constants.
#[derive(Debug, Clone, Copy, PartialEq, Eq, Structural)]
pub struct Motors {
    pub config: Config,
    pub l1: u8,
    pub l2: u8,
    pub r1: u8,
    pub r2: u8,
}

/// Whether all four recorded duties are zero.
pub open spec fn duties_zero(m: Motors) -> bool {
    m.l1 == 0 && m.l2 == 0 && m.r1 == 0 && m.r2 == 0
}

/// The bookkeeping with all four duties zeroed and the same constants.
pub open spec fn zeroed(m: Motors) -> Motors {
    Motors { config: m.config, l1: 0, l2: 0, r1: 0, r2: 0 }
}

/// The acceleration plan of a forward move: fade left 1 and right 1 to
/// their target duties, force the opposite pair to zero.
pub open spec fn forward_plan(c: Config) -> MotorPlan {
    MotorPlan {
        left_1: ChannelOp::Fade { from: 0, to: c.left_duty, time_ms: c.accel_time },
        left_2: ChannelOp::SetDuty(0),
        right_1: ChannelOp::Fade { from: 0, to: c.right_duty, time_ms: c.accel_time },
        right_2: ChannelOp::SetDuty(0),
    }
}

/// The acceleration plan of a backwards move.
pub open spec fn backwards_plan(c: Config) -> MotorPlan {
    MotorPlan {
        left_1: ChannelOp::SetDuty(0),
        left_2: ChannelOp::Fade { from: 0, to: c.left_duty, time_ms: c.accel_time },
        right_1: ChannelOp::SetDuty(0),
        right_2: ChannelOp::Fade { from: 0, to: c.right_duty, time_ms: c.accel_time },
    }
}

/// The acceleration plan of a right turn: left side forward, right side
/// backwards.
pub open spec fn right_plan(c: Config) -> MotorPlan {
    MotorPlan {
        left_1: ChannelOp::Fade { from: 0, to: c.left_duty, time_ms: c.accel_time },
        left_2: ChannelOp::SetDuty(0),
        right_1: ChannelOp::SetDuty(0),
        right_2: ChannelOp::Fade { from: 0, to: c.right_duty, time_ms: c.accel_time },
    }
}

/// The acceleration plan of a left turn: left side backwards, right side
/// forward.
pub open spec fn left_plan(c: Config) -> MotorPlan {
    MotorPlan {
        left_1: ChannelOp::SetDuty(0),
        left_2: ChannelOp::Fade { from: 0, to: c.left_duty, time_ms: c.accel_time },
        right_1: ChannelOp::Fade { from: 0, to: c.right_duty, time_ms: c.accel_time },
        right_2: ChannelOp::SetDuty(0),
    }
}

/// The graceful deceleration plan: every channel whose recorded duty is
/// nonzero fades to zero over its side's deceleration time; channels
/// already at zero are untouched.
pub open spec fn stop_plan(m: Motors) -> MotorPlan {
    MotorPlan {
        left_1: if m.l1 > 0 {
            ChannelOp::Fade { from: m.l1, to: 0, time_ms: m.config.decel_time_l }
        } else {
            ChannelOp::Keep
        },
        left_2: if m.l2 > 0 {
            ChannelOp::Fade { from: m.l2, to: 0, time_ms: m.config.decel_time_l }
        } else {
            ChannelOp::Keep
        },
        right_1: if m.r1 > 0 {
            ChannelOp::Fade { from: m.r1, to: 0, time_ms: m.config.decel_time_r }
        } else {
            ChannelOp::Keep
        },
        right_2: if m.r2 > 0 {
            ChannelOp::Fade { from: m.r2, to: 0, time_ms: m.config.decel_time_r }
        } else {
            ChannelOp::Keep
        },
    }
}

/// The larger of the two deceleration times: how long a graceful stop
/// takes.
pub open spec fn max_decel(c: Config) -> u16 {
    if c.decel_time_l >= c.decel_time_r {
        c.decel_time_l
    } else {
        c.decel_time_r
    }
}

impl Motors {
    /// Fresh bookkeeping with all duties at zero, together with the plan
    /// that sets the four hardware channels to zero so they agree with it.
    pub fn init(config: Config) -> (r: (Motors, MotorPlan))
        ensures
            r.0.config == config,
            duties_zero(r.0),
            r.1 == estop_plan(),
    {
        (Motors { config, l1: 0, l2: 0, r1: 0, r2: 0 }, estop_plan_exec())
    }

    /// Starts a forward move: both "1" channels ramp from zero to their
    /// side's target duty over the acceleration time, the "2" channels are
    /// forced to zero.  Returns the ramp duration and the channel plan.
    pub fn forward(&mut self) -> (r: (u16, MotorPlan))
        ensures
            final(self).config == old(self).config,
            final(self).l1 == old(self).config.left_duty,
            final(self).l2 == 0,
            final(self).r1 == old(self).config.right_duty,
            final(self).r2 == 0,
            r.0 == old(self).config.accel_time,
            r.1 == forward_plan(old(self).config),
    {
        let plan = MotorPlan {
            left_1: ChannelOp::Fade { from: 0, to: self.config.left_duty, time_ms: self.config.accel_time },
            left_2: ChannelOp::SetDuty(0),
            right_1: ChannelOp::Fade { from: 0, to: self.config.right_duty, time_ms: self.config.accel_time },
            right_2: ChannelOp::SetDuty(0),
        };
        self.l1 = self.config.left_duty;
        self.l2 = 0;
        self.r1 = self.config.right_duty;
        self.r2 = 0;
        (self.config.accel_time, plan)
    }

    /// Starts a backwards move: both "2" channels ramp up, the "1"
    /// channels are forced to zero.
    pub fn backwards(&mut self) -> (r: (u16, MotorPlan))
        ensures
            final(self).config == old(self).config,
            final(self).l1 == 0,
            final(self).l2 == old(self).config.left_duty,
            final(self).r1 == 0,
            final(self).r2 == old(self).config.right_duty,
            r.0 == old(self).config.accel_time,
            r.1 == backwards_plan(old(self).config),
    {
        let plan = MotorPlan {
            left_1: ChannelOp::SetDuty(0),
            left_2: ChannelOp::Fade { from: 0, to: self.config.left_duty, time_ms: self.config.accel_time },
            right_1: ChannelOp::SetDuty(0),
            right_2: ChannelOp::Fade { from: 0, to: self.config.right_duty, time_ms: self.config.accel_time },
        };
        self.l2 = self.config.left_duty;
        self.l1 = 0;
        self.r2 = self.config.right_duty;
        self.r1 = 0;
        (self.config.accel_time, plan)
    }

    /// Starts a right turn: left side forward, right side backwards.
    pub fn right(&mut self) -> (r: (u16, MotorPlan))
        ensures
            final(self).config == old(self).config,
            final(self).l1 == old(self).config.left_duty,
            final(self).l2 == 0,
            final(self).r1 == 0,
            final(self).r2 == old(self).config.right_duty,
            r.0 == old(self).config.accel_time,
            r.1 == right_plan(old(self).config),
    {
        let plan = MotorPlan {
            left_1: ChannelOp::Fade { from: 0, to: self.config.left_duty, time_ms: self.config.accel_time },
            left_2: ChannelOp::SetDuty(0),
            right_1: ChannelOp::SetDuty(0),
            right_2: ChannelOp::Fade { from: 0, to: self.config.right_duty, time_ms: self.config.accel_time },
        };
        self.l1 = self.config.left_duty;
        self.l2 = 0;
        self.r2 = self.config.right_duty;
        self.r1 = 0;
        (self.config.accel_time, plan)
    }

    /// Starts a left turn: left side backwards, right side forward.
    pub fn left(&mut self) -> (r: (u16, MotorPlan))
        ensures
            final(self).config == old(self).config,
            final(self).l1 == 0,
            final(self).l2 == old(self).config.left_duty,
            final(self).r1 == old(self).config.right_duty,
            final(self).r2 == 0,
            r.0 == old(self).config.accel_time,
            r.1 == left_plan(old(self).config),
    {
        let plan = MotorPlan {
            left_1: ChannelOp::SetDuty(0),
            left_2: ChannelOp::Fade { from: 0, to: self.config.left_duty, time_ms: self.config.accel_time },
            right_1: ChannelOp::Fade { from: 0, to: self.config.right_duty, time_ms: self.config.accel_time },
            right_2: ChannelOp::SetDuty(0),
        };
        self.l2 = self.config.left_duty;
        self.l1 = 0;
        self.r1 = self.config.right_duty;
        self.r2 = 0;
        (self.config.accel_time, plan)
    }

    /// Starts a graceful stop: every channel with a nonzero recorded duty
    /// fades to zero over its side's deceleration time.  Returns the larger
    /// of the two deceleration times and the channel plan; the commanded
    /// duties are zero afterwards.
    pub fn stop(&mut self) -> (r: (u16, MotorPlan))
        ensures
            final(self).config == old(self).config,
            duties_zero(*final(self)),
            r.0 == max_decel(old(self).config),
            r.1 == stop_plan(*old(self)),
    {
        let plan = MotorPlan {
            left_1: if self.l1 > 0 {
                ChannelOp::Fade { from: self.l1, to: 0, time_ms: self.config.decel_time_l }
            } else {
                ChannelOp::Keep
            },
            left_2: if self.l2 > 0 {
                ChannelOp::Fade { from: self.l2, to: 0, time_ms: self.config.decel_time_l }
            } else {
                ChannelOp::Keep
            },
            right_1: if self.r1 > 0 {
                ChannelOp::Fade { from: self.r1, to: 0, time_ms: self.config.decel_time_r }
            } else {
                ChannelOp::Keep
            },
            right_2: if self.r2 > 0 {
                ChannelOp::Fade { from: self.r2, to: 0, time_ms: self.config.decel_time_r }
            } else {
                ChannelOp::Keep
            },
        };
        self.l1 = 0;
        self.l2 = 0;
        self.r1 = 0;
        self.r2 = 0;
        let delay = if self.config.decel_time_l >= self.config.decel_time_r {
            self.config.decel_time_l
        } else {
            self.config.decel_time_r
        };
        (delay, plan)
    }

    /// Halts instantly: all four channels are set to zero with no ramp.
    pub fn emergency_stop(&mut self) -> (r: (u16, MotorPlan))
        ensures
            final(self).config == old(self).config,
            duties_zero(*final(self)),
            r.0 == 0,
            r.1 == estop_plan(),
    {
        self.l1 = 0;
        self.l2 = 0;
        self.r1 = 0;
        self.r2 = 0;
        (0, estop_plan_exec())
    }
}

/// Builds the plan that zeroes all four channels instantly.
fn estop_plan_exec() -> (p: MotorPlan)
    ensures
        p == estop_plan(),
{
    MotorPlan {
        left_1: ChannelOp::SetDuty(0),
        left_2: ChannelOp::SetDuty(0),
        right_1: ChannelOp::SetDuty(0),
        right_2: ChannelOp::SetDuty(0),
    }
}

/// Builds the plan that touches no channel.
fn noop_plan_exec() -> (p: MotorPlan)
    ensures
        p == noop_plan(),
{
    MotorPlan {
        left_1: ChannelOp::Keep,
        left_2: ChannelOp::Keep,
        right_1: ChannelOp::Keep,
        right_2: ChannelOp::Keep,
    }
}

/// A motion command for the sequencer.  The payload of a movement command
/// is its hold duration in milliseconds: how long the machine stays in the
/// Moving state once the acceleration ramp is done.
#[derive(Debug, Clone, Copy, PartialEq, Eq, Structural)]
pub enum MotorsSmCommand {
    Forward(u64),
    Backwards(u64),
    Stop,
    EmergencyStop,
    Left(u64),
    Right(u64),
}

/// Whether a command is a movement command (forward, backwards, left or
/// right).
pub open spec fn is_movement(c: MotorsSmCommand) -> bool {
    match c {
        MotorsSmCommand::Forward(_) => true,
        MotorsSmCommand::Backwards(_) => true,
        MotorsSmCommand::Left(_) => true,
        MotorsSmCommand::Right(_) => true,
        MotorsSmCommand::Stop => false,
        MotorsSmCommand::EmergencyStop => false,
    }
}

/// A direction of movement.
#[derive(Debug, Clone, Copy, PartialEq, Eq, Structural)]
pub enum Direction {
    Forward,
    Backwards,
    Left,
    Right,
}

/// The sequencer's state: idle, waiting out the acceleration ramp, holding
/// a move, or waiting out the deceleration ramp.  It always returns to
/// Stopped after each complete command cycle.
#[derive(Debug, Clone, Copy, PartialEq, Eq, Structural)]
pub enum MotorState {
    Stopped,
    WaitAccel,
    Moving(Direction),
    WaitDecel,
}

/// Rejection of a command the sequencer cannot safely take now.
#[derive(Debug, Clone, Copy, PartialEq, Eq, Structural)]
pub enum MotorsSmError {
    Busy,
}

/// The motor sequencer: the pending command (at most one), the current
/// state, and the duty bookkeeping.
#[derive(Debug, Clone, Copy, PartialEq)]
pub struct MotorsSm {
    pub current_cmd: Option<MotorsSmCommand>,
    pub state: MotorState,
    pub motors: Motors,
}

/// The admission rule: from a state and a submitted command to the
/// successor and the admission result.  An emergency stop is always
/// admitted and overwrites any pending command.  A movement command is
/// admitted only while Stopped with nothing pending.  A graceful stop is
/// admitted only while Moving, where it needs no storing (the next advance
/// decelerates anyway); everything else is rejected Busy and changes
/// nothing.
pub open spec fn admit_step(pre: MotorsSm, cmd: MotorsSmCommand) -> (MotorsSm, Result<
    (),
    MotorsSmError,
>) {
    if cmd is EmergencyStop {
        (MotorsSm { current_cmd: Some(cmd), ..pre }, Ok(()))
    } else {
        match pre.state {
            MotorState::Stopped => {
                if pre.current_cmd is Some || cmd is Stop {
                    (pre, Err(MotorsSmError::Busy))
                } else {
                    (MotorsSm { current_cmd: Some(cmd), ..pre }, Ok(()))
                }
            },
            MotorState::Moving(_) => {
                if cmd is Stop {
                    (pre, Ok(()))
                } else {
                    (pre, Err(MotorsSmError::Busy))
                }
            },
            MotorState::WaitAccel => (pre, Err(MotorsSmError::Busy)),
            MotorState::WaitDecel => (pre, Err(MotorsSmError::Busy)),
        }
    }
}

/// One advance of the sequencer: from a state to the successor, the delay
/// in milliseconds after which the caller must drive it again (zero: no
/// deadline), and the duty operations to apply.
pub open spec fn next_step(pre: MotorsSm) -> (MotorsSm, u64, MotorPlan) {
    match pre.state {
        MotorState::Stopped => match pre.current_cmd {
            Some(MotorsSmCommand::Forward(_)) => (
                MotorsSm {
                    state: MotorState::WaitAccel,
                    motors: Motors {
                        config: pre.motors.config,
                        l1: pre.motors.config.left_duty,
                        l2: 0,
                        r1: pre.motors.config.right_duty,
                        r2: 0,
                    },
                    ..pre
                },
                pre.motors.config.accel_time as u64,
                forward_plan(pre.motors.config),
            ),
            Some(MotorsSmCommand::Backwards(_)) => (
                MotorsSm {
                    state: MotorState::WaitAccel,
                    motors: Motors {
                        config: pre.motors.config,
                        l1: 0,
                        l2: pre.motors.config.left_duty,
                        r1: 0,
                        r2: pre.motors.config.right_duty,
                    },
                    ..pre
                },
                pre.motors.config.accel_time as u64,
                backwards_plan(pre.motors.config),
            ),
            Some(MotorsSmCommand::Left(_)) => (
                MotorsSm {
                    state: MotorState::WaitAccel,
                    motors: Motors {
                        config: pre.motors.config,
                        l1: 0,
                        l2: pre.motors.config.left_duty,
                        r1: pre.motors.config.right_duty,
                        r2: 0,
                    },
                    ..pre
                },
                pre.motors.config.accel_time as u64,
                left_plan(pre.motors.config),
            ),
            Some(MotorsSmCommand::Right(_)) => (
                MotorsSm {
                    state: MotorState::WaitAccel,
                    motors: Motors {
                        config: pre.motors.config,
                        l1: pre.motors.config.left_duty,
                        l2: 0,
                        r1: 0,
                        r2: pre.motors.config.right_duty,
                    },
                    ..pre
                },
                pre.motors.config.accel_time as u64,
                right_plan(pre.motors.config),
            ),
            Some(MotorsSmCommand::EmergencyStop) => (
                MotorsSm {
                    current_cmd: None,
                    state: MotorState::Stopped,
                    motors: zeroed(pre.motors),
                },
                0,
                estop_plan(),
            ),
            // A graceful stop is never admitted while Stopped, so this
            // case is unreachable through `admit_step`; it is still
            // defined, as a silent clear.
            Some(MotorsSmCommand::Stop) => (
                MotorsSm { current_cmd: None, state: MotorState::Stopped, ..pre },
                0,
                noop_plan(),
            ),
            None => (pre, 0, noop_plan()),
        },
        MotorState::WaitAccel => match pre.current_cmd {
            Some(MotorsSmCommand::Forward(delay)) => (
                MotorsSm { state: MotorState::Moving(Direction::Forward), ..pre },
                delay,
                noop_plan(),
            ),
            Some(MotorsSmCommand::Backwards(delay)) => (
                MotorsSm { state: MotorState::Moving(Direction::Backwards), ..pre },
                delay,
                noop_plan(),
            ),
            Some(MotorsSmCommand::Left(delay)) => (
                MotorsSm { state: MotorState::Moving(Direction::Left), ..pre },
                delay,
                noop_plan(),
            ),
            Some(MotorsSmCommand::Right(delay)) => (
                MotorsSm { state: MotorState::Moving(Direction::Right), ..pre },
                delay,
                noop_plan(),
            ),
            Some(MotorsSmCommand::EmergencyStop) => (
                MotorsSm {
                    current_cmd: None,
                    state: MotorState::Stopped,
                    motors: zeroed(pre.motors),
                },
                0,
                estop_plan(),
            ),
            Some(MotorsSmCommand::Stop) => (
                MotorsSm { state: MotorState::WaitDecel, motors: zeroed(pre.motors), ..pre },
                max_decel(pre.motors.config) as u64,
                stop_plan(pre.motors),
            ),
            None => (
                MotorsSm { state: MotorState::WaitDecel, motors: zeroed(pre.motors), ..pre },
                max_decel(pre.motors.config) as u64,
                stop_plan(pre.motors),
            ),
        },
        MotorState::Moving(_) => {
            if pre.current_cmd == Some(MotorsSmCommand::EmergencyStop) {
                (
                    MotorsSm {
                        current_cmd: None,
                        state: MotorState::Stopped,
                        motors: zeroed(pre.motors),
                    },
                    0,
                    estop_plan(),
                )
            } else {
                (
                    MotorsSm { state: MotorState::WaitDecel, motors: zeroed(pre.motors), ..pre },
                    max_decel(pre.motors.config) as u64,
                    stop_plan(pre.motors),
                )
            }
        },
        MotorState::WaitDecel => (
            MotorsSm { current_cmd: None, state: MotorState::Stopped, ..pre },
            0,
            noop_plan(),
        ),
    }
}

impl MotorsSm {
    /// While the sequencer waits out a deceleration ramp, every channel
    /// has already been commanded to zero.
    pub open spec fn wf(self) -> bool {
        self.state is WaitDecel ==> duties_zero(self.motors)
    }

    /// A fresh sequencer: Stopped, nothing pending.
    pub fn init(motors: Motors) -> (sm: MotorsSm)
        ensures
            sm.current_cmd is None,
            sm.state == MotorState::Stopped,
            sm.motors == motors,
            sm.wf(),
    {
        MotorsSm { current_cmd: None, state: MotorState::Stopped, motors }
    }

    /// Advances the machine one step, as `next_step` says: starts or
    /// finishes ramps, honors a pending emergency stop from every state,
    /// and returns the delay after which it must be driven again together
    /// with the duty operations to apply.
    pub fn next(&mut self) -> (r: (u64, MotorPlan))
        ensures
            *final(self) == next_step(*old(self)).0,
            r.0 == next_step(*old(self)).1,
            r.1 == next_step(*old(self)).2,
            old(self).wf() ==> final(self).wf(),
    {
        match self.state {
            MotorState::Stopped => {
                if let Some(cmd) = self.current_cmd {
                    match cmd {
                        MotorsSmCommand::Forward(_) => {
                            self.state = MotorState::WaitAccel;
                            let (delay, plan) = self.motors.forward();
                            (delay as u64, plan)
                        },
                        MotorsSmCommand::Backwards(_) => {
                            self.state = MotorState::WaitAccel;
                            let (delay, plan) = self.motors.backwards();
                            (delay as u64, plan)
                        },
                        MotorsSmCommand::Left(_) => {
                            self.state = MotorState::WaitAccel;
                            let (delay, plan) = self.motors.left();
                            (delay as u64, plan)
                        },
                        MotorsSmCommand::Right(_) => {
                            self.state = MotorState::WaitAccel;
                            let (delay, plan) = self.motors.right();
                            (delay as u64, plan)
                        },
                        MotorsSmCommand::EmergencyStop => {
                            self.state = MotorState::Stopped;
                            let (_, plan) = self.motors.emergency_stop();
                            self.current_cmd = None;
                            (0, plan)
                        },
                        MotorsSmCommand::Stop => {
                            self.state = MotorState::Stopped;
                            self.current_cmd = None;
                            (0, noop_plan_exec())
                        },
                    }
                } else {
                    (0, noop_plan_exec())
                }
            },
            MotorState::WaitAccel => {
                if let Some(cmd) = self.current_cmd {
                    match cmd {
                        MotorsSmCommand::Forward(delay) => {
                            self.state = MotorState::Moving(Direction::Forward);
                            (delay, noop_plan_exec())
                        },
                        MotorsSmCommand::Backwards(delay) => {
                            self.state = MotorState::Moving(Direction::Backwards);
                            (delay, noop_plan_exec())
                        },
                        MotorsSmCommand::Left(delay) => {
                            self.state = MotorState::Moving(Direction::Left);
                            (delay, noop_plan_exec())
                        },
                        MotorsSmCommand::Right(delay) => {
                            self.state = MotorState::Moving(Direction::Right);
                            (delay, noop_plan_exec())
                        },
                        MotorsSmCommand::EmergencyStop => {
                            self.state = MotorState::Stopped;
                            let (_, plan) = self.motors.emergency_stop();
                            self.current_cmd = None;
                            (0, plan)
                        },
                        MotorsSmCommand::Stop => {
                            self.state = MotorState::WaitDecel;
                            let (delay, plan) = self.motors.stop();
                            (delay as u64, plan)
                        },
                    }
                } else {
                    self.state = MotorState::WaitDecel;
                    let (delay, plan) = self.motors.stop();
                    (delay as u64, plan)
                }
            },
            MotorState::Moving(_) => {
                let estop = match self.current_cmd {
                    Some(MotorsSmCommand::EmergencyStop) => true,
                    _ => false,
                };
                if estop {
                    self.state = MotorState::Stopped;
                    let (_, plan) = self.motors.emergency_stop();
                    self.current_cmd = None;
                    (0, plan)
                } else {
                    self.state = MotorState::WaitDecel;
                    let (delay, plan) = self.motors.stop();
                    (delay as u64, plan)
                }
            },
            MotorState::WaitDecel => {
                self.state = MotorState::Stopped;
                self.current_cmd = None;
                (0, noop_plan_exec())
            },
        }
    }

    /// Submits a command, as `admit_step` says: an emergency stop is
    /// always admitted, a movement command only while Stopped with nothing
    /// pending, a graceful stop only while Moving; everything else is
    /// rejected Busy and changes nothing.
    pub fn process_cmd(&mut self, new_cmd: MotorsSmCommand) -> (res: Result<(), MotorsSmError>)
        ensures
            *final(self) == admit_step(*old(self), new_cmd).0,
            res == admit_step(*old(self), new_cmd).1,
            final(self).wf() == old(self).wf(),
    {
        if let MotorsSmCommand::EmergencyStop = new_cmd {
            self.current_cmd = Some(new_cmd);
            Ok(())
        } else {
            match self.state {
                MotorState::Stopped => {
                    if self.current_cmd.is_some() {
                        Err(MotorsSmError::Busy)
                    } else if let MotorsSmCommand::Stop = new_cmd {
                        Err(MotorsSmError::Busy)
                    } else {
                        self.current_cmd = Some(new_cmd);
                        Ok(())
                    }
                },
                MotorState::Moving(_) => {
                    if let MotorsSmCommand::Stop = new_cmd {
                        Ok(())
                    } else {
                        Err(MotorsSmError::Busy)
                    }
                },
                MotorState::WaitAccel => Err(MotorsSmError::Busy),
                MotorState::WaitDecel => Err(MotorsSmError::Busy),
            }
        }
    }
}

/// Submitting an emergency stop and then advancing once halts the
/// sequencer from every state: the admission always succeeds, and the
/// machine ends Stopped with nothing pending and all four duties zero.
pub proof fn lemma_emergency_stop_halts(sm: MotorsSm)
    requires
        sm.wf(),
    ensures
        admit_step(sm, MotorsSmCommand::EmergencyStop).1 == Ok::<(), MotorsSmError>(()),
        ({
            let s1 = admit_step(sm, MotorsSmCommand::EmergencyStop).0;
            let s2 = next_step(s1).0;
            s2.state == MotorState::Stopped && s2.current_cmd is None && duties_zero(s2.motors)
        }),
{
}

/// A movement command is admitted exactly while the sequencer is Stopped
/// with nothing pending; in every other situation it is rejected Busy and
/// the machine is unchanged.
pub proof fn lemma_movement_needs_idle_stop(sm: MotorsSm, cmd: MotorsSmCommand)
    requires
        is_movement(cmd),
    ensures
        (admit_step(sm, cmd).1 is Ok) <==> (sm.state == MotorState::Stopped
            && sm.current_cmd is None),
        !(sm.state == MotorState::Stopped && sm.current_cmd is None) ==> admit_step(sm, cmd).0
            == sm,
{
}

/// Two movement commands submitted with no intervening window in which the
/// sequencer is Stopped with nothing pending: the first is admitted, the
/// second is rejected Busy and changes nothing.
pub proof fn lemma_second_movement_rejected(sm: MotorsSm, c1: MotorsSmCommand, c2: MotorsSmCommand)
    requires
        sm.state == MotorState::Stopped,
        sm.current_cmd is None,
        is_movement(c1),
        is_movement(c2),
    ensures
        ({
            let (s1, r1) = admit_step(sm, c1);
            let (s2, r2) = admit_step(s1, c2);
            r1 == Ok::<(), MotorsSmError>(()) && r2 == Err::<(), MotorsSmError>(
                MotorsSmError::Busy,
            ) && s2 == s1
        }),
{
}

} // verus!
