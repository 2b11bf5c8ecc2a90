//! Core of a small desktop countdown-timer utility.
//!
//! The library holds the two pieces of the program that carry logic: the
//! countdown state machine ([`timer`]) and the command sequencing of an
//! alert episode ([`alert`]). The host UI toolkit delivers per-frame
//! elapsed time and button presses, and carries out the window commands;
//! that wiring lives outside the library.
//!
//! Time is measured in whole milliseconds, so that the arithmetic is exact.

pub mod alert;
pub mod timer;
