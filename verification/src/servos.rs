//! The hobby servos: one that steers the front, two that pan and tilt the
//! camera.

use vstd::prelude::*;
use crate::pins::PinOp;

verus! {

/// Front steering servo, BCM pin number.
pub const FRONT: u8 = 23;

/// Camera pan servo, BCM pin number.
pub const PAN: u8 = 11;

/// Camera tilt servo, BCM pin number.
pub const TILT: u8 = 9;

/// The angle, in degrees, by which the directional helpers turn a servo.
pub const SERVO_STEP: u8 = 10;

/// The angle range of a servo, in degrees, unless it is made with another.
pub const ANGLE_RANGE: u8 = 180;

/// The pulse width that centres a servo, in nanoseconds.
pub const CENTER_PULSE: u64 = 1_500_000;

/// The pulse width at the upper end of a servo's range, in nanoseconds.
pub const MAX_PULSE: u64 = 2_500_000;

/// The pulse width at angle zero, in nanoseconds.
pub const MIN_PULSE: u64 = 500_000;

/// The PWM frequency of a servo, in hertz, unless it is made with another.
pub const FREQUENCY: u32 = 50;

/// The upper pulse limit of the tilt servo, in nanoseconds: the camera
/// mount stops it short of the servo's own range.
pub const TILT_MAX_PULSE: u64 = 2_000_000;

/// The length in nanoseconds of one PWM cycle at `hertz` cycles per second.
pub open spec fn period_of(hertz: int) -> int
    recommends
        hertz > 0,
{
    1_000_000_000int / hertz
}

/// An angle range brought into the 30 to 240 degrees that a servo may have.
pub open spec fn clamp_range(angle_range: int) -> int {
    if angle_range < 30 {
        30
    } else if angle_range > 240 {
        240
    } else {
        angle_range
    }
}

/// How one servo is set up, and the angle it was last told to take.
pub struct ServoState {
    /// BCM pin number of the servo's signal line.
    pub pin: u8,
    /// The largest angle, in degrees; the smallest is zero.
    pub angle_range: int,
    /// The shortest pulse ever sent, in nanoseconds.
    pub limit_min: int,
    /// The longest pulse ever sent, in nanoseconds.
    pub limit_max: int,
    /// The length of one PWM cycle, in nanoseconds.
    pub period: int,
    /// The angle that the servo was last told to take, in degrees.
    pub angle: int,
}

impl ServoState {
    /// A servo as its constructors make it: set up as given, taken to rest
    /// at its centre until it is told otherwise.
    pub open spec fn made(
        pin: u8,
        angle_range: Option<u8>,
        limit_min: Option<u64>,
        limit_max: Option<u64>,
        frequency: Option<u32>,
    ) -> ServoState {
        let range = clamp_range(
            match angle_range {
                Some(r) => r as int,
                None => ANGLE_RANGE as int,
            },
        );
        ServoState {
            pin,
            angle_range: range,
            limit_min: match limit_min {
                Some(l) => l as int,
                None => MIN_PULSE as int,
            },
            limit_max: match limit_max {
                Some(l) => l as int,
                None => MAX_PULSE as int,
            },
            period: period_of(
                match frequency {
                    Some(f) => f as int,
                    None => FREQUENCY as int,
                },
            ),
            angle: range / 2,
        }
    }

    /// The angle that `set_position(angle)` settles on: the given one, at
    /// most the angle range, or the centre for `None`.
    pub open spec fn target(self, angle: Option<u8>) -> int {
        match angle {
            Some(a) => if a as int > self.angle_range {
                self.angle_range
            } else {
                a as int
            },
            None => self.angle_range / 2,
        }
    }

    /// The pulse width, in nanoseconds, that holds the servo at `angle`:
    /// linear in the angle from `MIN_PULSE` at zero to `MAX_PULSE` at the
    /// end of the range, rounded down, then kept within the limits.
    pub open spec fn pulse_at(self, angle: int) -> int {
        let linear = MIN_PULSE + angle * (MAX_PULSE - MIN_PULSE) / self.angle_range;
        let raised = if linear < self.limit_min {
            self.limit_min
        } else {
            linear
        };
        if raised > self.limit_max {
            self.limit_max
        } else {
            raised
        }
    }

    /// The servo after `set_position(angle)`.
    pub open spec fn set_position(self, angle: Option<u8>) -> ServoState {
        ServoState { angle: self.target(angle), ..self }
    }

    /// The pin operations of `set_position(angle)`.
    pub open spec fn set_position_ops(self, angle: Option<u8>) -> Seq<PinOp> {
        seq![
            PinOp::SetPwm {
                pin: self.pin,
                period: self.period as u64,
                pulse: self.pulse_at(self.target(angle)) as u64,
            },
        ]
    }

    /// The angle one step up from the current one, at most 180 degrees.
    pub open spec fn step_up(self) -> u8 {
        if self.angle + SERVO_STEP > 180 {
            180
        } else {
            (self.angle + SERVO_STEP) as u8
        }
    }

    /// The angle one step down from the current one, at least zero.
    pub open spec fn step_down(self) -> u8 {
        if self.angle < SERVO_STEP {
            0
        } else {
            (self.angle - SERVO_STEP) as u8
        }
    }

    /// Whether this is a servo as the constructors make and `set_position`
    /// keeps it.
    pub open spec fn wf(self) -> bool {
        &&& 30 <= self.angle_range <= 240
        &&& 0 <= self.angle <= self.angle_range
        &&& 0 <= self.limit_min <= u64::MAX
        &&& 0 <= self.limit_max <= u64::MAX
        &&& 0 <= self.period <= 1_000_000_000
    }
}

/// A model of one servo on a software PWM pin.
#[derive(Clone, Copy, Debug)]
pub struct Servo {
    pin: u8,
    angle_range: u8,
    limit_max: u64,
    limit_min: u64,
    period: u64,
    angle: u8,
}

impl View for Servo {
    type V = ServoState;

    closed spec fn view(&self) -> ServoState {
        ServoState {
            pin: self.pin,
            angle_range: self.angle_range as int,
            limit_min: self.limit_min as int,
            limit_max: self.limit_max as int,
            period: self.period as int,
            angle: self.angle as int,
        }
    }
}

impl Servo {
    #[verifier::type_invariant]
    spec fn inv(&self) -> bool {
        self@.wf()
    }

    /// A servo on `pin` with every setting at its default.
    pub fn new(pin: u8) -> (servo: Servo)
        ensures
            servo@ == ServoState::made(pin, None, None, None, None),
    {
        Servo::new_with_kitchen_sink(pin, None, None, None, None)
    }

    /// A servo on `pin` with every setting given, or left at its default
    /// with `None`: the angle range in degrees, clamped to 30..240; the
    /// shortest and the longest pulse in nanoseconds; the PWM frequency in
    /// hertz.
    pub fn new_with_kitchen_sink(
        pin: u8,
        angle_range: Option<u8>,
        limit_min: Option<u64>,
        limit_max: Option<u64>,
        frequency: Option<u32>,
    ) -> (servo: Servo)
        requires
            frequency != Some(0u32),
        ensures
            servo@ == ServoState::made(pin, angle_range, limit_min, limit_max, frequency),
    {
        let range: u8 = match angle_range {
            Some(r) => if r < 30 {
                30
            } else if r > 240 {
                240
            } else {
                r
            },
            None => ANGLE_RANGE,
        };
        let hertz: u32 = match frequency {
            Some(f) => f,
            None => FREQUENCY,
        };
        Servo {
            pin,
            angle_range: range,
            limit_max: match limit_max {
                Some(l) => l,
                None => MAX_PULSE,
            },
            limit_min: match limit_min {
                Some(l) => l,
                None => MIN_PULSE,
            },
            period: 1_000_000_000u64 / (hertz as u64),
            angle: range / 2,
        }
    }

    /// A servo on `pin` with the given angle range in degrees, clamped to
    /// 30..240.
    pub fn new_with_angle_range(pin: u8, angle_range: u8) -> (servo: Servo)
        ensures
            servo@ == ServoState::made(pin, Some(angle_range), None, None, None),
    {
        Servo::new_with_kitchen_sink(pin, Some(angle_range), None, None, None)
    }

    /// A servo on `pin` with the given PWM frequency in hertz.
    pub fn new_with_frequency(pin: u8, frequency: u32) -> (servo: Servo)
        requires
            frequency > 0,
        ensures
            servo@ == ServoState::made(pin, None, None, None, Some(frequency)),
    {
        Servo::new_with_kitchen_sink(pin, None, None, None, Some(frequency))
    }

    /// A servo on `pin` whose pulses stay within the given limits, in
    /// nanoseconds.
    pub fn new_with_limits(pin: u8, limit_min: Option<u64>, limit_max: Option<u64>) -> (servo:
        Servo)
        ensures
            servo@ == ServoState::made(pin, None, limit_min, limit_max, None),
    {
        Servo::new_with_kitchen_sink(pin, None, limit_min, limit_max, None)
    }

    /// The angle, in degrees, that the servo was last told to take.
    pub fn position(&self) -> (angle: u8)
        ensures
            angle == self@.angle,
            self@.wf(),
    {
        proof {
            use_type_invariant(self);
        }
        self.angle
    }

    /// Tells the servo to take `angle`, in degrees, or its centre for
    /// `None`. An angle beyond the range counts as the end of the range.
    pub fn set_position(&mut self, angle: Option<u8>) -> (ops: Vec<PinOp>)
        ensures
            final(self)@ == old(self)@.set_position(angle),
            ops@ == old(self)@.set_position_ops(angle),
    {
        proof {
            use_type_invariant(&*self);
        }
        let target: u8 = match angle {
            Some(a) => if a > self.angle_range {
                self.angle_range
            } else {
                a
            },
            None => self.angle_range / 2,
        };
        let span: u64 = MAX_PULSE - MIN_PULSE;
        assert((target as u64) * span <= 480_000_000) by (nonlinear_arith)
            requires
                target <= 240,
                span == 2_000_000,
        ;
        let linear: u64 = MIN_PULSE + (target as u64) * span / (self.angle_range as u64);
        let raised: u64 = if linear < self.limit_min {
            self.limit_min
        } else {
            linear
        };
        let pulse: u64 = if raised > self.limit_max {
            self.limit_max
        } else {
            raised
        };
        self.angle = target;
        let ops = vec![PinOp::SetPwm { pin: self.pin, period: self.period, pulse }];
        assert(ops@ =~= old(self)@.set_position_ops(angle));
        ops
    }

    /// Stops the servo's PWM signal. The servo keeps the angle it has.
    pub fn stop(&mut self) -> (ops: Vec<PinOp>)
        ensures
            final(self)@ == old(self)@,
            ops@ == seq![PinOp::ClearPwm(old(self)@.pin)],
    {
        let ops = vec![PinOp::ClearPwm(self.pin)];
        assert(ops@ =~= seq![PinOp::ClearPwm(self.pin)]);
        ops
    }
}

/// The three servos of the car as `Servos::new` sets them up, each with the
/// angle it was last told to take.
pub struct ServoAngles {
    pub front: int,
    pub pan: int,
    pub tilt: int,
}

/// The front steering servo at `angle`.
pub open spec fn front_servo(angle: int) -> ServoState {
    ServoState { angle, ..ServoState::made(FRONT, None, None, None, None) }
}

/// The camera pan servo at `angle`.
pub open spec fn pan_servo(angle: int) -> ServoState {
    ServoState { angle, ..ServoState::made(PAN, None, None, None, None) }
}

/// The camera tilt servo at `angle`.
pub open spec fn tilt_servo(angle: int) -> ServoState {
    ServoState { angle, ..ServoState::made(TILT, None, None, Some(TILT_MAX_PULSE), None) }
}

impl ServoAngles {
    /// The servos as `Servos::new` leaves them: each at its centre.
    pub open spec fn initial() -> ServoAngles {
        ServoAngles { front: 90, pan: 90, tilt: 90 }
    }

    /// Whether each angle lies within the servo's range, 0 to 180 degrees.
    pub open spec fn wf(self) -> bool {
        0 <= self.front <= 180 && 0 <= self.pan <= 180 && 0 <= self.tilt <= 180
    }

    /// The servos after `set_front(angle)`.
    pub open spec fn set_front(self, angle: Option<u8>) -> ServoAngles {
        ServoAngles { front: front_servo(self.front).target(angle), ..self }
    }

    /// The pin operations of `set_front(angle)`.
    pub open spec fn set_front_ops(self, angle: Option<u8>) -> Seq<PinOp> {
        front_servo(self.front).set_position_ops(angle)
    }

    /// The servos after `set_camera_pan(angle)`.
    pub open spec fn set_camera_pan(self, angle: Option<u8>) -> ServoAngles {
        ServoAngles { pan: pan_servo(self.pan).target(angle), ..self }
    }

    /// The pin operations of `set_camera_pan(angle)`.
    pub open spec fn set_camera_pan_ops(self, angle: Option<u8>) -> Seq<PinOp> {
        pan_servo(self.pan).set_position_ops(angle)
    }

    /// The servos after `set_camera_tilt(angle)`.
    pub open spec fn set_camera_tilt(self, angle: Option<u8>) -> ServoAngles {
        ServoAngles { tilt: tilt_servo(self.tilt).target(angle), ..self }
    }

    /// The pin operations of `set_camera_tilt(angle)`.
    pub open spec fn set_camera_tilt_ops(self, angle: Option<u8>) -> Seq<PinOp> {
        tilt_servo(self.tilt).set_position_ops(angle)
    }

    /// The servos after `front_left`: the front one step up.
    pub open spec fn front_left(self) -> ServoAngles {
        self.set_front(Some(front_servo(self.front).step_up()))
    }

    /// The pin operations of `front_left`.
    pub open spec fn front_left_ops(self) -> Seq<PinOp> {
        self.set_front_ops(Some(front_servo(self.front).step_up()))
    }

    /// The servos after `front_right`: the front one step down.
    pub open spec fn front_right(self) -> ServoAngles {
        self.set_front(Some(front_servo(self.front).step_down()))
    }

    /// The pin operations of `front_right`.
    pub open spec fn front_right_ops(self) -> Seq<PinOp> {
        self.set_front_ops(Some(front_servo(self.front).step_down()))
    }

    /// The servos after `camera_pan_left`: the pan one step up.
    pub open spec fn camera_pan_left(self) -> ServoAngles {
        self.set_camera_pan(Some(pan_servo(self.pan).step_up()))
    }

    /// The pin operations of `camera_pan_left`.
    pub open spec fn camera_pan_left_ops(self) -> Seq<PinOp> {
        self.set_camera_pan_ops(Some(pan_servo(self.pan).step_up()))
    }

    /// The servos after `camera_pan_right`: the pan one step down.
    pub open spec fn camera_pan_right(self) -> ServoAngles {
        self.set_camera_pan(Some(pan_servo(self.pan).step_down()))
    }

    /// The pin operations of `camera_pan_right`.
    pub open spec fn camera_pan_right_ops(self) -> Seq<PinOp> {
        self.set_camera_pan_ops(Some(pan_servo(self.pan).step_down()))
    }

    /// The servos after `camera_tilt_up`: the tilt one step up.
    pub open spec fn camera_tilt_up(self) -> ServoAngles {
        self.set_camera_tilt(Some(tilt_servo(self.tilt).step_up()))
    }

    /// The pin operations of `camera_tilt_up`.
    pub open spec fn camera_tilt_up_ops(self) -> Seq<PinOp> {
        self.set_camera_tilt_ops(Some(tilt_servo(self.tilt).step_up()))
    }

    /// The servos after `camera_tilt_down`: the tilt one step down.
    pub open spec fn camera_tilt_down(self) -> ServoAngles {
        self.set_camera_tilt(Some(tilt_servo(self.tilt).step_down()))
    }

    /// The pin operations of `camera_tilt_down`.
    pub open spec fn camera_tilt_down_ops(self) -> Seq<PinOp> {
        self.set_camera_tilt_ops(Some(tilt_servo(self.tilt).step_down()))
    }

    /// The servos after `servos_init`: each at its centre.
    pub open spec fn servos_init(self) -> ServoAngles {
        self.set_camera_pan(None).set_camera_tilt(None).set_front(None)
    }

    /// The pin operations of `servos_init`: pan, tilt, then front.
    pub open spec fn servos_init_ops(self) -> Seq<PinOp> {
        self.set_camera_pan_ops(None) + self.set_camera_tilt_ops(None) + self.set_front_ops(None)
    }
}

/// The pin operations of `servos_stop`: front, pan, then tilt.
pub open spec fn servos_stop_ops() -> Seq<PinOp> {
    seq![PinOp::ClearPwm(FRONT), PinOp::ClearPwm(PAN), PinOp::ClearPwm(TILT)]
}

/// A model of the car's three servos.
#[derive(Debug)]
pub struct Servos {
    front: Servo,
    pan: Servo,
    tilt: Servo,
}

impl View for Servos {
    type V = ServoAngles;

    closed spec fn view(&self) -> ServoAngles {
        ServoAngles { front: self.front@.angle, pan: self.pan@.angle, tilt: self.tilt@.angle }
    }
}

impl Servos {
    #[verifier::type_invariant]
    spec fn wired(&self) -> bool {
        &&& self.front@ == front_servo(self.front@.angle)
        &&& self.pan@ == pan_servo(self.pan@.angle)
        &&& self.tilt@ == tilt_servo(self.tilt@.angle)
        &&& self@.wf()
    }

    /// The three servos on their pins, each taken to rest at its centre.
    pub fn new() -> (servos: Servos)
        ensures
            servos@ == ServoAngles::initial(),
    {
        Servos {
            front: Servo::new(FRONT),
            pan: Servo::new(PAN),
            tilt: Servo::new_with_limits(TILT, None, Some(TILT_MAX_PULSE)),
        }
    }

    /// The angle of the front steering servo, in degrees.
    pub fn front(&self) -> (angle: u8)
        ensures
            angle == self@.front,
            self@.wf(),
    {
        proof {
            use_type_invariant(self);
        }
        self.front.position()
    }

    /// The angle of the camera pan servo, in degrees.
    pub fn camera_pan(&self) -> (angle: u8)
        ensures
            angle == self@.pan,
            self@.wf(),
    {
        proof {
            use_type_invariant(self);
        }
        self.pan.position()
    }

    /// The angle of the camera tilt servo, in degrees.
    pub fn camera_tilt(&self) -> (angle: u8)
        ensures
            angle == self@.tilt,
            self@.wf(),
    {
        proof {
            use_type_invariant(self);
        }
        self.tilt.position()
    }

    /// Turns the camera one step to the left.
    pub fn camera_pan_left(&mut self) -> (ops: Vec<PinOp>)
        ensures
            final(self)@ == old(self)@.camera_pan_left(),
            ops@ == old(self)@.camera_pan_left_ops(),
    {
        let angle = step_up(self.camera_pan());
        self.set_camera_pan(Some(angle))
    }

    /// Turns the camera one step to the right.
    pub fn camera_pan_right(&mut self) -> (ops: Vec<PinOp>)
        ensures
            final(self)@ == old(self)@.camera_pan_right(),
            ops@ == old(self)@.camera_pan_right_ops(),
    {
        let angle = step_down(self.camera_pan());
        self.set_camera_pan(Some(angle))
    }

    /// Tilts the camera one step down.
    pub fn camera_tilt_down(&mut self) -> (ops: Vec<PinOp>)
        ensures
            final(self)@ == old(self)@.camera_tilt_down(),
            ops@ == old(self)@.camera_tilt_down_ops(),
    {
        let angle = step_down(self.camera_tilt());
        self.set_camera_tilt(Some(angle))
    }

    /// Tilts the camera one step up.
    pub fn camera_tilt_up(&mut self) -> (ops: Vec<PinOp>)
        ensures
            final(self)@ == old(self)@.camera_tilt_up(),
            ops@ == old(self)@.camera_tilt_up_ops(),
    {
        let angle = step_up(self.camera_tilt());
        self.set_camera_tilt(Some(angle))
    }

    /// Steers one step to the left.
    pub fn front_left(&mut self) -> (ops: Vec<PinOp>)
        ensures
            final(self)@ == old(self)@.front_left(),
            ops@ == old(self)@.front_left_ops(),
    {
        let angle = step_up(self.front());
        self.set_front(Some(angle))
    }

    /// Steers one step to the right.
    pub fn front_right(&mut self) -> (ops: Vec<PinOp>)
        ensures
            final(self)@ == old(self)@.front_right(),
            ops@ == old(self)@.front_right_ops(),
    {
        let angle = step_down(self.front());
        self.set_front(Some(angle))
    }

    /// Pans the camera to `angle`, in degrees, or to its centre for `None`.
    pub fn set_camera_pan(&mut self, angle: Option<u8>) -> (ops: Vec<PinOp>)
        ensures
            final(self)@ == old(self)@.set_camera_pan(angle),
            ops@ == old(self)@.set_camera_pan_ops(angle),
    {
        proof {
            use_type_invariant(&*self);
        }
        let mut servo = self.pan;
        let ops = servo.set_position(angle);
        self.pan = servo;
        ops
    }

    /// Tilts the camera to `angle`, in degrees, or to its centre for `None`.
    pub fn set_camera_tilt(&mut self, angle: Option<u8>) -> (ops: Vec<PinOp>)
        ensures
            final(self)@ == old(self)@.set_camera_tilt(angle),
            ops@ == old(self)@.set_camera_tilt_ops(angle),
    {
        proof {
            use_type_invariant(&*self);
        }
        let mut servo = self.tilt;
        let ops = servo.set_position(angle);
        self.tilt = servo;
        ops
    }

    /// Steers to `angle`, in degrees, or straight ahead for `None`.
    pub fn set_front(&mut self, angle: Option<u8>) -> (ops: Vec<PinOp>)
        ensures
            final(self)@ == old(self)@.set_front(angle),
            ops@ == old(self)@.set_front_ops(angle),
    {
        proof {
            use_type_invariant(&*self);
        }
        let mut servo = self.front;
        let ops = servo.set_position(angle);
        self.front = servo;
        ops
    }

    /// Centres all three servos: pan, tilt, then front.
    pub fn servos_init(&mut self) -> (ops: Vec<PinOp>)
        ensures
            final(self)@ == old(self)@.servos_init(),
            ops@ == old(self)@.servos_init_ops(),
    {
        let mut ops = self.set_camera_pan(None);
        let mut tilt = self.set_camera_tilt(None);
        let mut front = self.set_front(None);
        ops.append(&mut tilt);
        ops.append(&mut front);
        ops
    }

    /// Stops the PWM signal of all three servos: front, pan, then tilt.
    pub fn servos_stop(&mut self) -> (ops: Vec<PinOp>)
        ensures
            final(self)@ == old(self)@,
            ops@ == servos_stop_ops(),
    {
        proof {
            use_type_invariant(&*self);
        }
        let mut front = self.front;
        let mut pan = self.pan;
        let mut tilt = self.tilt;
        let mut ops = front.stop();
        let mut pan_ops = pan.stop();
        let mut tilt_ops = tilt.stop();
        ops.append(&mut pan_ops);
        ops.append(&mut tilt_ops);
        assert(ops@ =~= servos_stop_ops());
        ops
    }
}

/// The angle one step up from `angle`, at most 180 degrees.
fn step_up(angle: u8) -> (next: u8)
    requires
        angle <= 180,
    ensures
        next == if angle + SERVO_STEP > 180 {
            180int
        } else {
            angle + SERVO_STEP
        },
{
    if angle > 180 - SERVO_STEP {
        180
    } else {
        angle + SERVO_STEP
    }
}

/// The angle one step down from `angle`, at least zero.
fn step_down(angle: u8) -> (next: u8)
    ensures
        next == if angle < SERVO_STEP {
            0int
        } else {
            angle - SERVO_STEP
        },
{
    if angle < SERVO_STEP {
        0
    } else {
        angle - SERVO_STEP
    }
}

/// What `position` reads back is the angle that `set_position` was last
/// given, within the servo's range, or the centre where it was given none.
pub proof fn lemma_set_position_round_trip(servo: ServoState, angle: Option<u8>)
    requires
        servo.wf(),
    ensures
        servo.set_position(angle).wf(),
        servo.set_position(angle).angle == match angle {
            Some(a) => if a <= servo.angle_range {
                a as int
            } else {
                servo.angle_range
            },
            None => servo.angle_range / 2,
        },
{
}

/// The angle getters of `Servos` read back what the setters were last
/// given: the angle itself up to 180 degrees, 180 beyond, 90 for `None`.
/// Setting one servo leaves the other two where they are.
pub proof fn lemma_servos_round_trip(servos: ServoAngles, angle: Option<u8>)
    ensures
        servos.set_front(angle).front == centred_or(angle),
        servos.set_front(angle).pan == servos.pan,
        servos.set_front(angle).tilt == servos.tilt,
        servos.set_camera_pan(angle).pan == centred_or(angle),
        servos.set_camera_pan(angle).front == servos.front,
        servos.set_camera_pan(angle).tilt == servos.tilt,
        servos.set_camera_tilt(angle).tilt == centred_or(angle),
        servos.set_camera_tilt(angle).front == servos.front,
        servos.set_camera_tilt(angle).pan == servos.pan,
{
}

/// The angle that a servo of the car takes for `angle`: the angle itself up
/// to 180 degrees, 180 beyond, and 90 for `None`.
pub open spec fn centred_or(angle: Option<u8>) -> int {
    match angle {
        Some(a) => if a > 180 {
            180
        } else {
            a as int
        },
        None => 90,
    }
}

} // verus!
