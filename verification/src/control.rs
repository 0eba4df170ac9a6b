//! Control policy state machine.
//!
//! The policy consumes sensor events and decides the robot-level state
//! (Normal, Blocked, BatteryLow) and the motion commands to issue.  Distance
//! readings are debounced: a transition needs three consecutive qualifying
//! samples, and any non-qualifying sample resets the count.  Turn-triggering
//! colors alternate with forward steps through a one-bit memory, so that a
//! continuously visible turn color cannot make the robot spin in place.

use vstd::prelude::*;

use crate::color::Color;
use crate::comm::SensorMessage;
use crate::motors::MotorsSmCommand;

verus! {

/// Readings under this many millivolts mean no battery is connected at
/// all, not a low one.
pub const NO_BATTERY: u16 = 200;
/// Readings from `NO_BATTERY` up to (excluding) this many millivolts mean
/// a low battery.
pub const BATTERY_LOW: u16 = 3200;
/// Distances under this many centimeters count as close.
pub const DISTANCE_CLOSE: u16 = 7;
/// Consecutive qualifying distance samples needed for a transition.
pub const DISTANCE_SAMPLES: u32 = 3;

/// Hold duration of a forward step, in milliseconds.
pub const FORWARD_DELAY: u64 = 600;
/// Hold duration of a left turn, in milliseconds.
pub const LEFT_DELAY: u64 = 180;
/// Hold duration of a right turn, in milliseconds.
pub const RIGHT_DELAY: u64 = 160;

/// The robot-level state owned by the control policy.
#[derive(Debug, Clone, Copy, PartialEq, Eq, Structural)]
pub enum ControlState {
    BatteryLow,
    Blocked,
    Normal,
}

/// The control policy: the current state, the distance debounce counter,
/// and the turn-alternation memory.
#[derive(Debug, Clone, Copy, PartialEq, Eq, Structural)]
pub struct ControlSm {
    pub state: ControlState,
    pub distance_samples_cnt: u32,
    pub last_turn: bool,
}

/// Whether the voltage reading means a low (but present) battery: at least
/// `NO_BATTERY` and under `BATTERY_LOW`.
pub open spec fn voltage_low(v: u16) -> bool {
    NO_BATTERY <= v < BATTERY_LOW
}

/// The debounce counter after one more qualifying sample, saturating at
/// `DISTANCE_SAMPLES`.
pub open spec fn bumped_count(cnt: u32) -> u32 {
    if cnt < DISTANCE_SAMPLES {
        (cnt + 1) as u32
    } else {
        DISTANCE_SAMPLES
    }
}

/// The transition function of the control policy: from a state and an
/// event to the successor state and the motion command it emits, if any.
///
/// Voltage: from Normal or Blocked, a low-battery reading moves to
/// BatteryLow, resets the debounce counter and emits an emergency stop;
/// from BatteryLow, a reading outside `[NO_BATTERY, BATTERY_LOW]` (battery
/// disconnected or recharged) moves to Blocked, resets the counter and
/// emits nothing.  Distance: in Normal, the third consecutive close sample
/// moves to Blocked and emits an emergency stop; in Blocked, the third
/// consecutive far sample moves back to Normal and clears the alternation
/// memory.  Color, effective only in Normal: Magenta emits a forward step;
/// Red, Orange and Blue alternate between one turn and a forward step
/// through the alternation memory.  Everything else changes nothing.
pub open spec fn control_step(pre: ControlSm, msg: SensorMessage) -> (ControlSm, Option<
    MotorsSmCommand,
>) {
    match pre.state {
        ControlState::BatteryLow => match msg {
            SensorMessage::Voltage(v) => {
                if !(NO_BATTERY <= v <= BATTERY_LOW) {
                    (
                        ControlSm {
                            state: ControlState::Blocked,
                            distance_samples_cnt: 0,
                            ..pre
                        },
                        None,
                    )
                } else {
                    (pre, None)
                }
            },
            _ => (pre, None),
        },
        ControlState::Normal => match msg {
            SensorMessage::Voltage(v) => {
                if voltage_low(v) {
                    (
                        ControlSm {
                            state: ControlState::BatteryLow,
                            distance_samples_cnt: 0,
                            ..pre
                        },
                        Some(MotorsSmCommand::EmergencyStop),
                    )
                } else {
                    (pre, None)
                }
            },
            SensorMessage::Distance(d) => {
                let cnt = if d < DISTANCE_CLOSE {
                    bumped_count(pre.distance_samples_cnt)
                } else {
                    0
                };
                if cnt == DISTANCE_SAMPLES {
                    (
                        ControlSm {
                            state: ControlState::Blocked,
                            distance_samples_cnt: 0,
                            ..pre
                        },
                        Some(MotorsSmCommand::EmergencyStop),
                    )
                } else {
                    (ControlSm { distance_samples_cnt: cnt, ..pre }, None)
                }
            },
            SensorMessage::Color(c) => match c {
                Color::Magenta => (
                    ControlSm { last_turn: false, ..pre },
                    Some(MotorsSmCommand::Forward(FORWARD_DELAY)),
                ),
                Color::Red | Color::Orange => {
                    if pre.last_turn {
                        (
                            ControlSm { last_turn: false, ..pre },
                            Some(MotorsSmCommand::Forward(FORWARD_DELAY)),
                        )
                    } else {
                        (
                            ControlSm { last_turn: true, ..pre },
                            Some(MotorsSmCommand::Left(LEFT_DELAY)),
                        )
                    }
                },
                Color::Blue => {
                    if pre.last_turn {
                        (
                            ControlSm { last_turn: false, ..pre },
                            Some(MotorsSmCommand::Forward(FORWARD_DELAY)),
                        )
                    } else {
                        (
                            ControlSm { last_turn: true, ..pre },
                            Some(MotorsSmCommand::Right(RIGHT_DELAY)),
                        )
                    }
                },
                _ => (pre, None),
            },
        },
        ControlState::Blocked => match msg {
            SensorMessage::Voltage(v) => {
                if voltage_low(v) {
                    (
                        ControlSm {
                            state: ControlState::BatteryLow,
                            distance_samples_cnt: 0,
                            ..pre
                        },
                        Some(MotorsSmCommand::EmergencyStop),
                    )
                } else {
                    (pre, None)
                }
            },
            SensorMessage::Distance(d) => {
                let cnt = if d > DISTANCE_CLOSE {
                    bumped_count(pre.distance_samples_cnt)
                } else {
                    0
                };
                if cnt == DISTANCE_SAMPLES {
                    (
                        ControlSm {
                            state: ControlState::Normal,
                            distance_samples_cnt: 0,
                            last_turn: false,
                        },
                        None,
                    )
                } else {
                    (ControlSm { distance_samples_cnt: cnt, ..pre }, None)
                }
            },
            _ => (pre, None),
        },
    }
}

impl ControlSm {
    /// The debounce counter never leaves `[0, DISTANCE_SAMPLES]`.
    pub open spec fn wf(self) -> bool {
        self.distance_samples_cnt <= DISTANCE_SAMPLES
    }

    /// The initial policy: Blocked, debounce counter zero, no turn
    /// remembered.
    pub fn init() -> (sm: ControlSm)
        ensures
            sm.state == ControlState::Blocked,
            sm.distance_samples_cnt == 0,
            !sm.last_turn,
            sm.wf(),
    {
        ControlSm { state: ControlState::Blocked, distance_samples_cnt: 0, last_turn: false }
    }

    /// Consumes one sensor event: moves to the successor state of
    /// `control_step` and returns the motion command it emits, if any.
    /// After any event the debounce counter is strictly under the window
    /// size.
    pub fn process_event(&mut self, message: SensorMessage) -> (cmd: Option<MotorsSmCommand>)
        requires
            old(self).wf(),
        ensures
            *final(self) == control_step(*old(self), message).0,
            cmd == control_step(*old(self), message).1,
            old(self).distance_samples_cnt < DISTANCE_SAMPLES
                ==> final(self).distance_samples_cnt < DISTANCE_SAMPLES,
            final(self).wf(),
    {
        match self.state {
            ControlState::BatteryLow => match message {
                SensorMessage::Voltage(v) => {
                    if v < NO_BATTERY || v > BATTERY_LOW {
                        self.state = ControlState::Blocked;
                        self.distance_samples_cnt = 0;
                    }
                    None
                },
                _ => None,
            },
            ControlState::Normal => match message {
                SensorMessage::Voltage(v) => {
                    if NO_BATTERY <= v && v < BATTERY_LOW {
                        self.state = ControlState::BatteryLow;
                        self.distance_samples_cnt = 0;
                        Some(MotorsSmCommand::EmergencyStop)
                    } else {
                        None
                    }
                },
                SensorMessage::Distance(d) => {
                    if d < DISTANCE_CLOSE {
                        if self.distance_samples_cnt < DISTANCE_SAMPLES {
                            self.distance_samples_cnt = self.distance_samples_cnt + 1;
                        }
                    } else {
                        self.distance_samples_cnt = 0;
                    }
                    if self.distance_samples_cnt == DISTANCE_SAMPLES {
                        self.distance_samples_cnt = 0;
                        self.state = ControlState::Blocked;
                        Some(MotorsSmCommand::EmergencyStop)
                    } else {
                        None
                    }
                },
                SensorMessage::Color(c) => match c {
                    Color::Magenta => {
                        self.last_turn = false;
                        Some(MotorsSmCommand::Forward(FORWARD_DELAY))
                    },
                    Color::Red | Color::Orange => {
                        if self.last_turn {
                            self.last_turn = false;
                            Some(MotorsSmCommand::Forward(FORWARD_DELAY))
                        } else {
                            self.last_turn = true;
                            Some(MotorsSmCommand::Left(LEFT_DELAY))
                        }
                    },
                    Color::Blue => {
                        if self.last_turn {
                            self.last_turn = false;
                            Some(MotorsSmCommand::Forward(FORWARD_DELAY))
                        } else {
                            self.last_turn = true;
                            Some(MotorsSmCommand::Right(RIGHT_DELAY))
                        }
                    },
                    _ => None,
                },
            },
            ControlState::Blocked => match message {
                SensorMessage::Voltage(v) => {
                    if NO_BATTERY <= v && v < BATTERY_LOW {
                        self.state = ControlState::BatteryLow;
                        self.distance_samples_cnt = 0;
                        Some(MotorsSmCommand::EmergencyStop)
                    } else {
                        None
                    }
                },
                SensorMessage::Distance(d) => {
                    if d > DISTANCE_CLOSE {
                        if self.distance_samples_cnt < DISTANCE_SAMPLES {
                            self.distance_samples_cnt = self.distance_samples_cnt + 1;
                        }
                    } else {
                        self.distance_samples_cnt = 0;
                    }
                    if self.distance_samples_cnt == DISTANCE_SAMPLES {
                        self.distance_samples_cnt = 0;
                        self.last_turn = false;
                        self.state = ControlState::Normal;
                    }
                    None
                },
                _ => None,
            },
        }
    }
}

/// In Normal state, two consecutive close-distance samples followed by one
/// far sample leave the debounce counter at zero and the policy otherwise
/// unchanged: no transition to Blocked and no command emitted.
pub proof fn lemma_interrupted_debounce_resets(sm: ControlSm, d1: u16, d2: u16, d3: u16)
    requires
        sm.state == ControlState::Normal,
        sm.distance_samples_cnt == 0,
        d1 < DISTANCE_CLOSE,
        d2 < DISTANCE_CLOSE,
        d3 >= DISTANCE_CLOSE,
    ensures
        ({
            let (s1, c1) = control_step(sm, SensorMessage::Distance(d1));
            let (s2, c2) = control_step(s1, SensorMessage::Distance(d2));
            let (s3, c3) = control_step(s2, SensorMessage::Distance(d3));
            s3 == sm && c1 is None && c2 is None && c3 is None
        }),
{
}

} // verus!
