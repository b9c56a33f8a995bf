//! Command decoding for a small four-wheel-drive robot car.
//!
//! Frames of text in one of two wire grammars come in; what the drive, the
//! servos, the lights, the buzzer and the fan are to do goes out, as a list
//! of operations on the pins of the GPIO header. Nothing in this crate
//! touches hardware: whoever owns the pins carries the operations out.
//!
//! - [`command`] holds the decoder, [`grammar`] what its frames mean,
//!   [`robot`] the state of the car that the grammars speak of, and
//!   [`laws`] what holds of the grammars whatever the frame.
//! - [`motors`], [`servos`] and [`hids`] model the actuators, [`sensors`]
//!   the sensors, and [`pins`] names the pin operations.
//! - [`text`] reads and writes the characters and numbers of the grammars,
//!   and [`error`] names what can go wrong.

pub mod command;
pub mod error;
pub mod grammar;
pub mod hids;
pub mod laws;
pub mod motors;
pub mod pins;
pub mod robot;
pub mod sensors;
pub mod servos;
pub mod text;
