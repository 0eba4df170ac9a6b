pub mod color;
pub mod comm;
pub mod control;
pub mod motors;
pub mod sched;
