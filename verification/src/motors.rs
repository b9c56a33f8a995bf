//! The drive: two motor channels, left and right, behind an H-bridge driver.

use vstd::prelude::*;
use crate::pins::PinOp;

verus! {

/// Left motor direction input 1, BCM pin number.
pub const A_IN1: u8 = 20;

/// Left motor direction input 2, BCM pin number.
pub const A_IN2: u8 = 21;

/// Left motor PWM input, BCM pin number.
pub const A_PWM: u8 = 16;

/// Right motor direction input 1, BCM pin number.
pub const B_IN1: u8 = 19;

/// Right motor direction input 2, BCM pin number.
pub const B_IN2: u8 = 26;

/// Right motor PWM input, BCM pin number.
pub const B_PWM: u8 = 13;

/// The speed, in percent, that `movement` uses for a side given as `None`.
pub const DEFAULT_SPEED: i8 = 50;

/// A speed brought into the range that the drive accepts, -100 to 100.
pub open spec fn clamp_speed(speed: int) -> int {
    if speed > 100 {
        100
    } else if speed < -100 {
        -100
    } else {
        speed
    }
}

/// What the drive has been told: a signed speed in percent for each side,
/// forwards if positive, and whether the PWM signals are running.
pub struct DriveState {
    pub left: int,
    pub right: int,
    pub enabled: bool,
}

impl DriveState {
    /// The drive as `Motors::new` leaves it: at rest and disabled.
    pub open spec fn initial() -> DriveState {
        DriveState { left: 0, right: 0, enabled: false }
    }

    /// The drive after `brake`: at rest, with the PWM signals stopped.
    pub open spec fn brake(self) -> DriveState {
        DriveState { left: 0, right: 0, enabled: false }
    }

    /// The drive after `enable(on)`.
    pub open spec fn enable(self, on: bool) -> DriveState {
        DriveState { enabled: on, ..self }
    }

    /// The drive after a movement at the speeds `left` and `right`, each
    /// clamped to -100..100.
    pub open spec fn movement(self, left: int, right: int) -> DriveState {
        DriveState { left: clamp_speed(left), right: clamp_speed(right), ..self }
    }
}

/// The speed asked of one side: the given one, or the default.
pub open spec fn side_speed(speed: Option<i8>) -> int {
    match speed {
        Some(v) => v as int,
        None => DEFAULT_SPEED as int,
    }
}

/// The pin operations that set one side's direction: input 1 high to go
/// forwards, input 2 high to go backwards, both low to stand still.
pub open spec fn direction_ops(in1: u8, in2: u8, speed: int) -> Seq<PinOp> {
    if speed > 0 {
        seq![PinOp::SetHigh(in1), PinOp::SetLow(in2)]
    } else if speed < 0 {
        seq![PinOp::SetLow(in1), PinOp::SetHigh(in2)]
    } else {
        seq![PinOp::SetLow(in1), PinOp::SetLow(in2)]
    }
}

/// The duty cycle, in percent, that drives a side at `speed`: its magnitude,
/// at most 100.
pub open spec fn duty_of(speed: int) -> u8 {
    if clamp_speed(speed) < 0 {
        (-clamp_speed(speed)) as u8
    } else {
        clamp_speed(speed) as u8
    }
}

/// The pin operations of `brake`.
pub open spec fn brake_ops() -> Seq<PinOp> {
    seq![
        PinOp::SetLow(A_IN1),
        PinOp::SetLow(A_IN2),
        PinOp::SetLow(B_IN1),
        PinOp::SetLow(B_IN2),
        PinOp::ClearPwm(A_PWM),
        PinOp::ClearPwm(B_PWM),
    ]
}

/// The pin operations of `enable(on)`.
pub open spec fn enable_ops(on: bool) -> Seq<PinOp> {
    if on {
        seq![PinOp::EnablePwm(A_PWM), PinOp::EnablePwm(B_PWM)]
    } else {
        seq![PinOp::DisablePwm(A_PWM), PinOp::DisablePwm(B_PWM)]
    }
}

/// The pin operations of a movement at the speeds `left` and `right`: the
/// direction of the left side, that of the right side, then the two duty
/// cycles.
pub open spec fn movement_ops(left: int, right: int) -> Seq<PinOp> {
    direction_ops(A_IN1, A_IN2, left) + direction_ops(B_IN1, B_IN2, right) + seq![
        PinOp::SetDuty { pin: A_PWM, percent: duty_of(left) },
        PinOp::SetDuty { pin: B_PWM, percent: duty_of(right) },
    ]
}

/// The signed speed that the pins of one side stand for.
pub open spec fn channel_speed(in1: bool, in2: bool, duty: u8) -> int {
    if in1 {
        duty as int
    } else if !in2 {
        0
    } else {
        -(duty as int)
    }
}

/// A model of the motor driver: the level of each direction input, the duty
/// cycle of each PWM input, and whether the PWM signals run.
#[derive(Debug)]
pub struct Motors {
    a_in1: bool,
    a_in2: bool,
    a_duty: u8,
    b_in1: bool,
    b_in2: bool,
    b_duty: u8,
    enabled: bool,
}

impl View for Motors {
    type V = DriveState;

    closed spec fn view(&self) -> DriveState {
        DriveState {
            left: channel_speed(self.a_in1, self.a_in2, self.a_duty),
            right: channel_speed(self.b_in1, self.b_in2, self.b_duty),
            enabled: self.enabled,
        }
    }
}

impl Motors {
    #[verifier::type_invariant]
    spec fn duties_in_range(&self) -> bool {
        self.a_duty <= 100 && self.b_duty <= 100
    }

    /// A drive at rest with its PWM signals stopped.
    pub fn new() -> (motors: Motors)
        ensures
            motors@ == DriveState::initial(),
    {
        Motors {
            a_in1: false,
            a_in2: false,
            a_duty: 0,
            b_in1: false,
            b_in2: false,
            b_duty: 0,
            enabled: false,
        }
    }

    /// Stops both sides and the PWM signals.
    pub fn brake(&mut self) -> (ops: Vec<PinOp>)
        ensures
            final(self)@ == old(self)@.brake(),
            ops@ == brake_ops(),
    {
        proof {
            use_type_invariant(&*self);
        }
        *self = Motors {
            a_in1: false,
            a_in2: false,
            a_duty: self.a_duty,
            b_in1: false,
            b_in2: false,
            b_duty: self.b_duty,
            enabled: false,
        };
        let ops = vec![
            PinOp::SetLow(A_IN1),
            PinOp::SetLow(A_IN2),
            PinOp::SetLow(B_IN1),
            PinOp::SetLow(B_IN2),
            PinOp::ClearPwm(A_PWM),
            PinOp::ClearPwm(B_PWM),
        ];
        assert(ops@ =~= brake_ops());
        ops
    }

    /// Starts or stops the PWM signals of both sides. The speeds stay as
    /// they are; a disabled drive does not turn.
    pub fn enable(&mut self, on: bool) -> (ops: Vec<PinOp>)
        ensures
            final(self)@ == old(self)@.enable(on),
            ops@ == enable_ops(on),
    {
        proof {
            use_type_invariant(&*self);
        }
        self.enabled = on;
        let ops = if on {
            vec![PinOp::EnablePwm(A_PWM), PinOp::EnablePwm(B_PWM)]
        } else {
            vec![PinOp::DisablePwm(A_PWM), PinOp::DisablePwm(B_PWM)]
        };
        assert(ops@ =~= enable_ops(on));
        ops
    }

    /// Sets the direction and speed of each side, in percent from -100 to
    /// 100; a speed beyond that range counts as the nearest end of it, and
    /// `None` as the default speed.
    pub fn movement(&mut self, left: Option<i8>, right: Option<i8>) -> (ops: Vec<PinOp>)
        ensures
            final(self)@ == old(self)@.movement(side_speed(left), side_speed(right)),
            ops@ == movement_ops(side_speed(left), side_speed(right)),
    {
        let left: i8 = match left {
            Some(v) => v,
            None => DEFAULT_SPEED,
        };
        let right: i8 = match right {
            Some(v) => v,
            None => DEFAULT_SPEED,
        };
        let left_duty = duty(left);
        let right_duty = duty(right);
        let mut ops: Vec<PinOp> = Vec::new();
        push_direction(&mut ops, A_IN1, A_IN2, left);
        push_direction(&mut ops, B_IN1, B_IN2, right);
        ops.push(PinOp::SetDuty { pin: A_PWM, percent: left_duty });
        ops.push(PinOp::SetDuty { pin: B_PWM, percent: right_duty });
        *self = Motors {
            a_in1: left > 0,
            a_in2: left < 0,
            a_duty: left_duty,
            b_in1: right > 0,
            b_in2: right < 0,
            b_duty: right_duty,
            enabled: self.enabled,
        };
        assert(ops@ =~= movement_ops(left as int, right as int));
        ops
    }

    /// The speed that each side was last told to run at, left then right.
    pub fn speeds(&self) -> (speeds: (i8, i8))
        ensures
            speeds.0 == self@.left,
            speeds.1 == self@.right,
            -100 <= speeds.0 <= 100,
            -100 <= speeds.1 <= 100,
    {
        proof {
            use_type_invariant(self);
        }
        let left: i8 = if self.a_in1 {
            self.a_duty as i8
        } else if !self.a_in2 {
            0
        } else {
            -(self.a_duty as i8)
        };
        let right: i8 = if self.b_in1 {
            self.b_duty as i8
        } else if !self.b_in2 {
            0
        } else {
            -(self.b_duty as i8)
        };
        (left, right)
    }

    /// Whether the PWM signals are running.
    pub fn is_enabled(&self) -> (on: bool)
        ensures
            on == self@.enabled,
    {
        self.enabled
    }
}

/// The duty cycle for a speed: its magnitude, at most 100.
fn duty(speed: i8) -> (percent: u8)
    ensures
        percent == duty_of(speed as int),
        percent <= 100,
{
    if speed >= 100 || speed <= -100 {
        100
    } else if speed < 0 {
        (-speed) as u8
    } else {
        speed as u8
    }
}

/// Appends the direction operations of one side.
fn push_direction(ops: &mut Vec<PinOp>, in1: u8, in2: u8, speed: i8)
    ensures
        final(ops)@ == old(ops)@ + direction_ops(in1, in2, speed as int),
{
    if speed > 0 {
        ops.push(PinOp::SetHigh(in1));
        ops.push(PinOp::SetLow(in2));
    } else if speed < 0 {
        ops.push(PinOp::SetLow(in1));
        ops.push(PinOp::SetHigh(in2));
    } else {
        ops.push(PinOp::SetLow(in1));
        ops.push(PinOp::SetLow(in2));
    }
    assert(ops@ =~= old(ops)@ + direction_ops(in1, in2, speed as int));
}

/// What `speeds` reads back is what `movement` was last given, within the
/// range of the drive. Whether the drive is enabled does not change.
pub proof fn lemma_movement_round_trip(drive: DriveState, left: int, right: int)
    ensures
        drive.movement(left, right).left == clamp_speed(left),
        drive.movement(left, right).right == clamp_speed(right),
        -100 <= left <= 100 ==> drive.movement(left, right).left == left,
        -100 <= right <= 100 ==> drive.movement(left, right).right == right,
        drive.movement(left, right).enabled == drive.enabled,
{
}

/// A movement depends on each speed only through its value within the
/// range of the drive: a speed beyond the range does what the nearest end
/// of the range does.
pub proof fn lemma_movement_clamps(drive: DriveState, left: int, right: int)
    ensures
        drive.movement(left, right) == drive.movement(clamp_speed(left), clamp_speed(right)),
        movement_ops(left, right) == movement_ops(clamp_speed(left), clamp_speed(right)),
{
}

/// After `brake`, `speeds` reads zero on both sides, whatever the drive was
/// doing before.
pub proof fn lemma_brake_round_trip(drive: DriveState)
    ensures
        drive.brake().left == 0,
        drive.brake().right == 0,
{
}

} // verus!
