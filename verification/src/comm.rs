//! Sensor events exchanged between the external pollers and the scheduler.

use vstd::prelude::*;

use crate::color::Color;

verus! {

/// One reading from one of the three sensor pollers: a classified color,
/// an obstacle distance in centimeters, or a battery voltage in millivolts.
#[derive(Debug, Clone, Copy, PartialEq, Eq, Structural)]
pub enum SensorMessage {
    Color(Color),
    Distance(u16),
    Voltage(u16),
}

} // verus!
