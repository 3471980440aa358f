//! Decision logic of a display colour adjuster: the repair and layout of a
//! hardware gamma ramp, and the state machines that decide when it is applied.

pub mod activation;
pub mod controller;
pub mod hotkeys;
pub mod keys;
pub mod label;
pub mod process;
pub mod ramp;
