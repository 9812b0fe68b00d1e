//! Core of a single-board countdown-timer controller.
//!
//! The library holds the only parts of the system with nontrivial state and
//! edge-case policy: the digit-to-segment decoder, a model of a one-shot
//! alarm over a monotonic clock, the countdown/alarm state machine, and the
//! derivation of the 14 segment lines that drive a two-digit display.
//! Peripheral bring-up, pin writes and the polling loop live outside the
//! library and hand it plain values: the current clock reading, the button
//! state, and back the segment states and the power-enable flag.

pub mod alarm;
pub mod controller;
pub mod display;
pub mod segments;
