//! Scheduler decision logic.
//!
//! The scheduler is the single consumer that serializes all calls into the
//! control policy and the motor sequencer.  Each iteration of its loop
//! waits for whichever comes first — a sensor event or the expiry of the
//! pending wake deadline — then dispatches the event and, when the deadline
//! has expired (or none is armed), advances the sequencer and arms a new
//! deadline from the delay it reports.  Waiting, timekeeping and queue I/O
//! live with the caller; every decision is here.

use vstd::prelude::*;

use crate::color::Rgb;
use crate::color::rgb_of;
use crate::comm::SensorMessage;
use crate::control::ControlSm;
use crate::control::control_step;
use crate::motors::MotorPlan;
use crate::motors::MotorsSm;
use crate::motors::admit_step;
use crate::motors::next_step;

verus! {

/// The bounded idle poll period, in milliseconds: how long to wait for an
/// event when no deadline is armed.
pub const IDLE_POLL_MS: u64 = 100;
/// The short re-check period used when a wake came after the deadline had
/// already passed.
pub const LATE_WAKE_MS: u64 = 10;

/// The wait to use for the next wake: with a deadline armed, whatever
/// remains of it after subtracting the time already consumed (a short
/// re-check period once it has passed); with none, the idle poll period.
pub open spec fn spec_poll_delay(wait: u64, elapsed_ms: u64) -> u64 {
    if wait > 0 {
        if elapsed_ms > wait {
            LATE_WAKE_MS
        } else {
            (wait - elapsed_ms) as u64
        }
    } else {
        IDLE_POLL_MS
    }
}

/// The scheduler state: the two state machines it exclusively owns, and
/// the pending wake deadline as the delay the sequencer last asked for
/// (zero: no deadline armed).
#[derive(Debug, Clone, Copy, PartialEq)]
pub struct Scheduler {
    pub control: ControlSm,
    pub motors: MotorsSm,
    pub wait: u64,
}

impl Scheduler {
    /// Both owned machines are well-formed.
    pub open spec fn wf(self) -> bool {
        self.control.wf() && self.motors.wf()
    }

    /// A fresh scheduler around the given machines, with no deadline
    /// armed.
    pub fn init(control: ControlSm, motors: MotorsSm) -> (s: Scheduler)
        ensures
            s.control == control,
            s.motors == motors,
            s.wait == 0,
    {
        Scheduler { control, motors, wait: 0 }
    }

    /// How long to wait for the next event, given how many milliseconds of
    /// the armed deadline are already consumed.
    pub fn poll_delay(&self, elapsed_ms: u64) -> (d: u64)
        ensures
            d == spec_poll_delay(self.wait, elapsed_ms),
    {
        if self.wait > 0 {
            if elapsed_ms > self.wait {
                LATE_WAKE_MS
            } else {
                self.wait - elapsed_ms
            }
        } else {
            IDLE_POLL_MS
        }
    }

    /// Dispatches one sensor event: a color event yields the RGB value for
    /// the status indicator, every event feeds the control policy, and a
    /// motion command the policy emits is submitted to the sequencer — a
    /// Busy rejection is dropped, the next qualifying sample re-triggers
    /// the decision naturally.  The wake deadline is untouched.
    pub fn handle_event(&mut self, msg: SensorMessage) -> (indicator: Option<Rgb>)
        requires
            old(self).control.wf(),
        ensures
            final(self).control == control_step(old(self).control, msg).0,
            final(self).motors == (match control_step(old(self).control, msg).1 {
                Some(cmd) => admit_step(old(self).motors, cmd).0,
                None => old(self).motors,
            }),
            final(self).wait == old(self).wait,
            indicator == (match msg {
                SensorMessage::Color(c) => Some(rgb_of(c)),
                _ => None::<Rgb>,
            }),
            old(self).wf() ==> final(self).wf(),
    {
        let indicator = match msg {
            SensorMessage::Color(c) => Some(c.to_rgb()),
            _ => None,
        };
        let cmd = self.control.process_event(msg);
        if let Some(cmd) = cmd {
            let _ = self.motors.process_cmd(cmd);
        }
        indicator
    }

    /// Advances the sequencer if the armed deadline has expired (or none
    /// is armed), arming the new deadline from the delay it reports, and
    /// returns the duty operations to apply; otherwise leaves everything
    /// unchanged.  `elapsed_ms` is how long ago the deadline was armed.
    pub fn advance_due(&mut self, elapsed_ms: u64) -> (plan: Option<MotorPlan>)
        ensures
            old(self).wait == 0 || elapsed_ms >= old(self).wait ==> ({
                &&& final(self).motors == next_step(old(self).motors).0
                &&& final(self).wait == next_step(old(self).motors).1
                &&& plan == Some(next_step(old(self).motors).2)
            }),
            !(old(self).wait == 0 || elapsed_ms >= old(self).wait) ==> *final(self) == *old(self)
                && plan is None,
            final(self).control == old(self).control,
            old(self).wf() ==> final(self).wf(),
    {
        if self.wait == 0 || elapsed_ms >= self.wait {
            let (delay, plan) = self.motors.next();
            self.wait = delay;
            Some(plan)
        } else {
            None
        }
    }
}

} // verus!
