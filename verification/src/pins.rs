//! The operations that the actuator models ask of the GPIO header.
//!
//! The models in this crate never touch hardware. Each call on one of them
//! updates the model and hands back, in order, the pin operations that put
//! the hardware into the same state. Whoever owns the pins carries them out.

use vstd::prelude::*;

verus! {

/// One operation on a GPIO pin, or a pause between two of them. Pins are
/// named by their BCM number.
#[derive(Clone, Copy, Debug, PartialEq, Eq)]
pub enum PinOp {
    /// Drive the pin low.
    SetLow(u8),
    /// Drive the pin high.
    SetHigh(u8),
    /// Invert the pin's output level.
    Toggle(u8),
    /// Switch the pin to output mode.
    SetOutput(u8),
    /// Switch the pin to input mode.
    SetInput(u8),
    /// Set the duty cycle of the pin's PWM signal, in percent.
    SetDuty { pin: u8, percent: u8 },
    /// Start the pin's PWM signal with the frequency and duty cycle it holds.
    EnablePwm(u8),
    /// Stop the pin's PWM signal, keeping its frequency and duty cycle.
    DisablePwm(u8),
    /// Stop the pin's PWM signal.
    ClearPwm(u8),
    /// Run a PWM signal of `hertz` cycles per second that is high for
    /// `percent` of each cycle.
    SetPwmFrequency { pin: u8, hertz: u32, percent: u8 },
    /// Run a PWM signal whose cycle lasts `period` nanoseconds and which is
    /// high for the first `pulse` nanoseconds of each cycle.
    SetPwm { pin: u8, period: u64, pulse: u64 },
    /// Wait for the given number of milliseconds.
    Pause(u64),
    /// Wait for the given number of microseconds.
    PauseMicros(u64),
}

/// Appends `more` to `ops`.
pub fn extend(ops: &mut Vec<PinOp>, more: Vec<PinOp>)
    ensures
        final(ops)@ == old(ops)@ + more@,
{
    let mut more = more;
    ops.append(&mut more);
}

} // verus!
