//! Control core for a small fan/thermal-management board.
//!
//! The crate holds the board's decision logic: the Auto/Manual mode state
//! machine, the pure derivation of fan power and indicator colors from the
//! mode, the plan of one control-loop tick, and drift-free tick scheduling.
//! Hardware access (I2C fan controller, addressable pixels, button, serial
//! telemetry) stays outside: the surrounding firmware samples the inputs,
//! asks this crate what to do, and performs the writes.

pub mod control;
pub mod mode;
pub mod output;
pub mod schedule;
