//! What the car's sensors last reported: proximity, line tracking, light
//! and ultrasonic distance.

use vstd::prelude::*;
use vstd::array::*;
use vstd::string::*;
use crate::pins::PinOp;
use crate::text::{i16_text, signed_text};

verus! {

/// Ultrasonic echo input, BCM pin number.
pub const ECHO: u8 = 0;

/// Ultrasonic trigger output, BCM pin number.
pub const TRIGGER: u8 = 1;

/// How long the trigger is held high for one ping, in microseconds.
pub const PING_PULSE: u64 = 10;

/// How long the sonar rests after the trigger fell, in microseconds.
pub const PING_REST: u64 = 2;

/// The number of readings that the queue of distances holds.
pub const QUEUE_SIZE: usize = 6;

/// An overwriting ring buffer of the six latest readings: when a seventh
/// comes in, the oldest goes.
#[derive(Clone, Copy, Debug)]
pub struct CircularQueue {
    depth: usize,
    read: usize,
    queue: [u32; 6],
    write: usize,
}

impl View for CircularQueue {
    type V = Seq<u32>;

    /// The readings held, oldest first.
    closed spec fn view(&self) -> Seq<u32> {
        Seq::new(self.depth as nat, |i: int| self.queue@[(self.read + i) % 6])
    }
}

impl CircularQueue {
    #[verifier::type_invariant]
    spec fn inv(&self) -> bool {
        &&& self.depth <= 6
        &&& self.read < 6
        &&& self.write < 6
        &&& self.write == (self.read + self.depth) % 6
    }

    /// A queue that holds nothing.
    pub fn new() -> (queue: CircularQueue)
        ensures
            queue@ == Seq::<u32>::empty(),
    {
        let queue = CircularQueue { depth: 0, read: 0, queue: [0u32; 6], write: 0 };
        assert(queue@ =~= Seq::<u32>::empty());
        queue
    }

    /// The number of readings held, at most six.
    pub fn len(&self) -> (n: usize)
        ensures
            n == self@.len(),
            n <= QUEUE_SIZE,
    {
        proof {
            use_type_invariant(self);
        }
        self.depth
    }

    /// Takes the oldest reading out, if there is one.
    pub fn pop(&mut self) -> (value: Option<u32>)
        ensures
            old(self)@.len() == 0 ==> value is None && final(self)@ == old(self)@,
            old(self)@.len() > 0 ==> value == Some(old(self)@[0]) && final(self)@ == old(self)@.drop_first(),
    {
        proof {
            use_type_invariant(&*self);
        }
        if self.depth == 0 {
            None
        } else {
            let value = self.queue[self.read];
            *self = CircularQueue {
                depth: self.depth - 1,
                read: (self.read + 1) % 6,
                queue: self.queue,
                write: self.write,
            };
            assert(self@ =~= old(self)@.drop_first()) by {
                assert forall|i: int| 0 <= i < self@.len() implies self@[i] == old(self)@.drop_first()[i] by {
                    assert(((old(self).read + 1) % 6 + i) % 6 == (old(self).read + (i + 1)) % 6);
                }
            }
            Some(value)
        }
    }

    /// Puts a reading in. A full queue drops its oldest reading for it.
    pub fn push(&mut self, value: u32)
        ensures
            final(self)@ == if old(self)@.len() == QUEUE_SIZE {
                old(self)@.drop_first().push(value)
            } else {
                old(self)@.push(value)
            },
    {
        proof {
            use_type_invariant(&*self);
        }
        let mut queue = self.queue;
        queue[self.write] = value;
        let full = self.depth == 6;
        *self = CircularQueue {
            depth: if full {
                6
            } else {
                self.depth + 1
            },
            read: if full {
                (self.read + 1) % 6
            } else {
                self.read
            },
            queue,
            write: (self.write + 1) % 6,
        };
        proof {
            let before = old(self)@;
            let expected = if before.len() == 6 {
                before.drop_first().push(value)
            } else {
                before.push(value)
            };
            assert(self@.len() == expected.len());
            assert forall|i: int| 0 <= i < self@.len() implies self@[i] == expected[i] by {
                if full {
                    assert(((old(self).read + 1) % 6 + i) % 6 == (old(self).read + (i + 1)) % 6);
                }
            }
            assert(self@ =~= expected);
        }
    }
}

/// The latest readings of the two infrared proximity sensors: whether
/// something is close on the left, and on the right.
#[derive(Clone, Copy, Debug, PartialEq, Eq)]
pub struct IrProximity {
    pub left: bool,
    pub right: bool,
}

impl IrProximity {
    /// Nothing close on either side.
    pub fn new() -> (readings: IrProximity)
        ensures
            !readings.left,
            !readings.right,
    {
        IrProximity { left: false, right: false }
    }
}

/// The latest readings of the four line tracking sensors, two on each side:
/// whether each sees the line.
#[derive(Clone, Copy, Debug, PartialEq, Eq)]
pub struct LineTracking {
    pub left1: bool,
    pub left2: bool,
    pub right1: bool,
    pub right2: bool,
}

impl LineTracking {
    /// No sensor on the line.
    pub fn new() -> (readings: LineTracking)
        ensures
            !readings.left1,
            !readings.left2,
            !readings.right1,
            !readings.right2,
    {
        LineTracking { left1: false, left2: false, right1: false, right2: false }
    }
}

/// What the echo line of the sonar has shown: when it last rose, if it has
/// not fallen since, and the readings gathered.
#[derive(Clone, Copy, Debug)]
pub struct Ultrasonic {
    rising: Option<u64>,
    queue: CircularQueue,
}

/// The echo line as contracts speak of it.
pub struct EchoState {
    /// When the line last rose, in nanoseconds, if it has not fallen since.
    pub rising: Option<u64>,
    /// The readings gathered and not yet taken, oldest first.
    pub readings: Seq<u32>,
}

/// How long an echo took that ends with this edge, if one does: the line
/// falls after it rose, and not before the time at which it rose.
pub open spec fn echo_length(rising: Option<u64>, high: bool, now: u64) -> Option<u64> {
    match rising {
        Some(rose) => if !high && now >= rose {
            Some((now - rose) as u64)
        } else {
            None
        },
        None => None,
    }
}

impl View for Ultrasonic {
    type V = EchoState;

    closed spec fn view(&self) -> EchoState {
        EchoState { rising: self.rising, readings: self.queue@ }
    }
}

impl Ultrasonic {
    /// An echo line that has not risen, with no reading.
    pub fn new() -> (ultrasonic: Ultrasonic)
        ensures
            ultrasonic@ == (EchoState { rising: None, readings: Seq::empty() }),
    {
        Ultrasonic { rising: None, queue: CircularQueue::new() }
    }

    /// Takes note of an edge on the echo line at the time `now`, in
    /// nanoseconds. A rising edge starts an echo. A falling edge ends the
    /// echo that was started, and the time that it took comes back, unless
    /// the clock ran backwards meanwhile.
    pub fn edge(&mut self, high: bool, now: u64) -> (length: Option<u64>)
        ensures
            length == echo_length(old(self)@.rising, high, now),
            final(self)@.rising == if high {
                Some(now)
            } else {
                None
            },
            final(self)@.readings == old(self)@.readings,
    {
        let length = match self.rising {
            Some(rose) => if !high && now >= rose {
                Some(now - rose)
            } else {
                None
            },
            None => None,
        };
        self.rising = if high {
            Some(now)
        } else {
            None
        };
        length
    }

    /// Puts a reading in; of more than six, the oldest goes.
    pub fn push(&mut self, reading: u32)
        ensures
            final(self)@.rising == old(self)@.rising,
            final(self)@.readings == if old(self)@.readings.len() == QUEUE_SIZE {
                old(self)@.readings.drop_first().push(reading)
            } else {
                old(self)@.readings.push(reading)
            },
    {
        self.queue.push(reading);
    }

    /// Takes the oldest reading out, if there is one.
    pub fn pop(&mut self) -> (reading: Option<u32>)
        ensures
            final(self)@.rising == old(self)@.rising,
            old(self)@.readings.len() == 0 ==> reading is None && final(self)@.readings == old(self)@.readings,
            old(self)@.readings.len() > 0 ==> reading == Some(old(self)@.readings[0]) && final(self)@.readings == old(self)@.readings.drop_first(),
    {
        self.queue.pop()
    }
}

/// The pin operations of one ping: the trigger goes high for ten
/// microseconds and low again, and the sonar rests for two.
pub open spec fn ping_ops() -> Seq<PinOp> {
    seq![
        PinOp::SetHigh(TRIGGER),
        PinOp::PauseMicros(PING_PULSE),
        PinOp::SetLow(TRIGGER),
        PinOp::PauseMicros(PING_REST),
    ]
}

/// The pin operations of `set_sonar_active(enable)`.
pub open spec fn sonar_active_ops(enable: bool) -> Seq<PinOp> {
    if enable {
        seq![PinOp::EnablePwm(TRIGGER)]
    } else {
        seq![PinOp::DisablePwm(TRIGGER)]
    }
}

/// The sonar as contracts speak of it.
pub struct SonarState {
    /// Whether the sonar pings by itself.
    pub active: bool,
    /// The echo line and the readings gathered.
    pub echo: EchoState,
}

/// A model of the ultrasonic sonar.
#[derive(Clone, Copy, Debug)]
pub struct Sonar {
    active_sonar: bool,
    ultrasonic: Ultrasonic,
}

impl View for Sonar {
    type V = SonarState;

    closed spec fn view(&self) -> SonarState {
        SonarState { active: self.active_sonar, echo: self.ultrasonic@ }
    }
}

impl Sonar {
    /// A sonar that does not ping by itself and has no reading.
    pub fn new() -> (sonar: Sonar)
        ensures
            sonar@ == (SonarState {
                active: false,
                echo: EchoState { rising: None, readings: Seq::empty() },
            }),
    {
        Sonar { active_sonar: false, ultrasonic: Ultrasonic::new() }
    }

    /// Lets the sonar ping by itself, or stops it doing so.
    pub fn set_sonar_active(&mut self, enable: bool) -> (ops: Vec<PinOp>)
        ensures
            final(self)@ == (SonarState { active: enable, echo: old(self)@.echo }),
            ops@ == sonar_active_ops(enable),
    {
        self.active_sonar = enable;
        let ops = if enable {
            vec![PinOp::EnablePwm(TRIGGER)]
        } else {
            vec![PinOp::DisablePwm(TRIGGER)]
        };
        assert(ops@ =~= sonar_active_ops(enable));
        ops
    }

    /// The pin operations that ask for a distance: one ping, or nothing at
    /// all where the sonar pings by itself.
    pub fn ping(&self) -> (ops: Vec<PinOp>)
        ensures
            ops@ == if self@.active {
                Seq::<PinOp>::empty()
            } else {
                ping_ops()
            },
    {
        if self.active_sonar {
            Vec::new()
        } else {
            let ops = vec![
                PinOp::SetHigh(TRIGGER),
                PinOp::PauseMicros(PING_PULSE),
                PinOp::SetLow(TRIGGER),
                PinOp::PauseMicros(PING_REST),
            ];
            assert(ops@ =~= ping_ops());
            ops
        }
    }

    /// Takes note of an edge on the echo line; see `Ultrasonic::edge`.
    pub fn edge(&mut self, high: bool, now: u64) -> (length: Option<u64>)
        ensures
            length == echo_length(old(self)@.echo.rising, high, now),
            final(self)@.active == old(self)@.active,
            final(self)@.echo.rising == if high {
                Some(now)
            } else {
                None
            },
            final(self)@.echo.readings == old(self)@.echo.readings,
    {
        self.ultrasonic.edge(high, now)
    }

    /// Puts a reading in; of more than six, the oldest goes.
    pub fn push(&mut self, reading: u32)
        ensures
            final(self)@.active == old(self)@.active,
            final(self)@.echo.rising == old(self)@.echo.rising,
            final(self)@.echo.readings == if old(self)@.echo.readings.len() == QUEUE_SIZE {
                old(self)@.echo.readings.drop_first().push(reading)
            } else {
                old(self)@.echo.readings.push(reading)
            },
    {
        self.ultrasonic.push(reading);
    }

    /// The oldest reading that has not been taken yet, if there is one.
    pub fn distance(&mut self) -> (reading: Option<u32>)
        ensures
            final(self)@.active == old(self)@.active,
            final(self)@.echo.rising == old(self)@.echo.rising,
            old(self)@.echo.readings.len() == 0 ==> reading is None && final(self)@.echo.readings
                == old(self)@.echo.readings,
            old(self)@.echo.readings.len() > 0 ==> reading == Some(old(self)@.echo.readings[0])
                && final(self)@.echo.readings == old(self)@.echo.readings.drop_first(),
    {
        self.ultrasonic.pop()
    }
}

/// `1` for a sensor that reports, `0` for one that does not.
pub open spec fn flag_text(on: bool) -> Seq<char> {
    if on {
        "1"@
    } else {
        "0"@
    }
}

/// The report of the sensors in the extended grammar: the distance, the
/// four line sensors, the two proximity sensors and the two light sensors.
pub open spec fn rr_postback(
    distance: i16,
    line: LineTracking,
    ir: IrProximity,
    ldr: (bool, bool),
) -> Seq<char> {
    "$RR4W,SNR"@ + signed_text(distance as int) + ",LNF"@ + flag_text(line.left1) + ":"@
        + flag_text(line.left2) + ":"@ + flag_text(line.right1) + ":"@ + flag_text(line.right2)
        + ",IRP"@ + flag_text(ir.left) + ":"@ + flag_text(ir.right) + ",LDR"@ + flag_text(ldr.0)
        + ":"@ + flag_text(ldr.1) + "#"@
}

/// The report of the sensors in the legacy grammar.
pub open spec fn yb_postback(
    distance: i16,
    line: LineTracking,
    ir: IrProximity,
    ldr: (bool, bool),
) -> Seq<char> {
    "$4WD,CSB"@ + signed_text(distance as int) + ",PV8.3,GS0,LF"@ + flag_text(line.left1)
        + flag_text(line.left2) + flag_text(line.right1) + flag_text(line.right2) + ",HW"@
        + flag_text(ir.left) + flag_text(ir.right) + ",GM"@ + flag_text(ldr.0) + flag_text(ldr.1)
        + "#"@
}

/// The sensors as contracts speak of them.
pub struct SensorState {
    pub ir: IrProximity,
    pub ldr: (bool, bool),
    pub line: LineTracking,
    pub sonar: SonarState,
}

/// A model of the car's sensors: what each of them last reported.
#[derive(Clone, Copy, Debug)]
pub struct Sensors {
    ir_proximity: IrProximity,
    ldr_left: bool,
    ldr_right: bool,
    sonar: Sonar,
    tracking: LineTracking,
}

impl View for Sensors {
    type V = SensorState;

    closed spec fn view(&self) -> SensorState {
        SensorState {
            ir: self.ir_proximity,
            ldr: (self.ldr_left, self.ldr_right),
            line: self.tracking,
            sonar: self.sonar@,
        }
    }
}

impl Sensors {
    /// Sensors that have reported nothing yet.
    pub fn new() -> (sensors: Sensors)
        ensures
            sensors@ == (SensorState {
                ir: IrProximity { left: false, right: false },
                ldr: (false, false),
                line: LineTracking { left1: false, left2: false, right1: false, right2: false },
                sonar: SonarState {
                    active: false,
                    echo: EchoState { rising: None, readings: Seq::empty() },
                },
            }),
    {
        Sensors {
            ir_proximity: IrProximity::new(),
            ldr_left: false,
            ldr_right: false,
            sonar: Sonar::new(),
            tracking: LineTracking::new(),
        }
    }

    /// Takes note of what the proximity sensors report.
    pub fn set_ir_proximity(&mut self, readings: IrProximity)
        ensures
            final(self)@ == (SensorState { ir: readings, ..old(self)@ }),
    {
        self.ir_proximity = readings;
    }

    /// Takes note of what the light sensors report, left and right.
    pub fn set_ldr_tracking(&mut self, left: bool, right: bool)
        ensures
            final(self)@ == (SensorState { ldr: (left, right), ..old(self)@ }),
    {
        self.ldr_left = left;
        self.ldr_right = right;
    }

    /// Takes note of what the line sensors report.
    pub fn set_line_tracking(&mut self, readings: LineTracking)
        ensures
            final(self)@ == (SensorState { line: readings, ..old(self)@ }),
    {
        self.tracking = readings;
    }

    /// The report of the sensors in the extended grammar, with the
    /// distance given in centimetres, or as -1 where there is none.
    pub fn as_rr_postback(&self, distance: i16) -> (report: String)
        ensures
            report@ == rr_postback(distance, self@.line, self@.ir, self@.ldr),
    {
        let mut report = String::from_str("$RR4W,SNR");
        report.append(i16_text(distance).as_str());
        report.append(",LNF");
        report.append(flag(self.tracking.left1));
        report.append(":");
        report.append(flag(self.tracking.left2));
        report.append(":");
        report.append(flag(self.tracking.right1));
        report.append(":");
        report.append(flag(self.tracking.right2));
        report.append(",IRP");
        report.append(flag(self.ir_proximity.left));
        report.append(":");
        report.append(flag(self.ir_proximity.right));
        report.append(",LDR");
        report.append(flag(self.ldr_left));
        report.append(":");
        report.append(flag(self.ldr_right));
        report.append("#");
        report
    }

    /// The report of the sensors in the legacy grammar, with the distance
    /// given in centimetres, or as -1 where there is none.
    pub fn as_yb_postback(&self, distance: i16) -> (report: String)
        ensures
            report@ == yb_postback(distance, self@.line, self@.ir, self@.ldr),
    {
        let mut report = String::from_str("$4WD,CSB");
        report.append(i16_text(distance).as_str());
        report.append(",PV8.3,GS0,LF");
        report.append(flag(self.tracking.left1));
        report.append(flag(self.tracking.left2));
        report.append(flag(self.tracking.right1));
        report.append(flag(self.tracking.right2));
        report.append(",HW");
        report.append(flag(self.ir_proximity.left));
        report.append(flag(self.ir_proximity.right));
        report.append(",GM");
        report.append(flag(self.ldr_left));
        report.append(flag(self.ldr_right));
        report.append("#");
        report
    }

    /// What the proximity sensors last reported, left and right.
    pub fn ir_proximity(&self) -> (readings: (bool, bool))
        ensures
            readings == (self@.ir.left, self@.ir.right),
    {
        (self.ir_proximity.left, self.ir_proximity.right)
    }

    /// What the light sensors last reported, left and right.
    pub fn ldr_tracking(&self) -> (readings: (bool, bool))
        ensures
            readings == self@.ldr,
    {
        (self.ldr_left, self.ldr_right)
    }

    /// What the line sensors last reported: the two on the left, then the
    /// two on the right.
    pub fn line_tracking(&self) -> (readings: (bool, bool, bool, bool))
        ensures
            readings == (
                self@.line.left1,
                self@.line.left2,
                self@.line.right1,
                self@.line.right2,
            ),
    {
        (self.tracking.left1, self.tracking.left2, self.tracking.right1, self.tracking.right2)
    }

    /// Lets the sonar ping by itself, or stops it doing so.
    pub fn sonar_active(&mut self, enable: bool) -> (ops: Vec<PinOp>)
        ensures
            final(self)@ == (SensorState {
                sonar: SonarState { active: enable, echo: old(self)@.sonar.echo },
                ..old(self)@
            }),
            ops@ == sonar_active_ops(enable),
    {
        self.sonar.set_sonar_active(enable)
    }

    /// The oldest distance reading that has not been taken yet, if there is
    /// one.
    pub fn sonar_distance(&mut self) -> (reading: Option<u32>)
        ensures
            final(self)@.ir == old(self)@.ir,
            final(self)@.ldr == old(self)@.ldr,
            final(self)@.line == old(self)@.line,
            final(self)@.sonar.active == old(self)@.sonar.active,
            old(self)@.sonar.echo.readings.len() == 0 ==> reading is None,
            old(self)@.sonar.echo.readings.len() > 0 ==> reading == Some(
                old(self)@.sonar.echo.readings[0],
            ) && final(self)@.sonar.echo.readings == old(self)@.sonar.echo.readings.drop_first(),
    {
        self.sonar.distance()
    }

    /// The pin operations that ask the sonar for a distance; see
    /// `Sonar::ping`.
    pub fn sonar_ping(&self) -> (ops: Vec<PinOp>)
        ensures
            ops@ == if self@.sonar.active {
                Seq::<PinOp>::empty()
            } else {
                ping_ops()
            },
    {
        self.sonar.ping()
    }

    /// Takes note of an edge on the echo line of the sonar; see
    /// `Ultrasonic::edge`.
    pub fn sonar_edge(&mut self, high: bool, now: u64) -> (length: Option<u64>)
        ensures
            length == echo_length(old(self)@.sonar.echo.rising, high, now),
            final(self)@.ir == old(self)@.ir,
            final(self)@.ldr == old(self)@.ldr,
            final(self)@.line == old(self)@.line,
            final(self)@.sonar.active == old(self)@.sonar.active,
            final(self)@.sonar.echo.rising == if high {
                Some(now)
            } else {
                None
            },
            final(self)@.sonar.echo.readings == old(self)@.sonar.echo.readings,
    {
        self.sonar.edge(high, now)
    }

    /// Puts a distance reading in; of more than six, the oldest goes.
    pub fn sonar_push(&mut self, reading: u32)
        ensures
            final(self)@.ir == old(self)@.ir,
            final(self)@.ldr == old(self)@.ldr,
            final(self)@.line == old(self)@.line,
            final(self)@.sonar.active == old(self)@.sonar.active,
            final(self)@.sonar.echo.rising == old(self)@.sonar.echo.rising,
            final(self)@.sonar.echo.readings == if old(self)@.sonar.echo.readings.len()
                == QUEUE_SIZE {
                old(self)@.sonar.echo.readings.drop_first().push(reading)
            } else {
                old(self)@.sonar.echo.readings.push(reading)
            },
    {
        self.sonar.push(reading);
    }
}

/// `1` for a sensor that reports, `0` for one that does not.
fn flag(on: bool) -> (s: &'static str)
    ensures
        s@ == flag_text(on),
{
    if on {
        "1"
    } else {
        "0"
    }
}

} // verus!
