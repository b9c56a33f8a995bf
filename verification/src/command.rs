//! The decoder: it takes command frames in either wire grammar, keeps the
//! session state, and tells the actuators what to do.

use vstd::prelude::*;
use vstd::string::*;
use crate::error::{outcome, Fault, Rr4cError};
use crate::grammar::{
    accelerated, cam_segment, channel_argument, colour_command, decelerated, direction_field,
    eased, enable_flag, extended_frame, fan_segment, faster, frt_segment, led_field,
    led_segment, legacy_frame, mode_command, mtr_segment, percent_of_byte, positional, segment,
    segments, servo_field, slower, speed_argument, speed_field, stopped, tagged, Decoded,
};
use crate::hids::Hids;
use crate::laws::{lemma_alert, lemma_extended_frame_keeps_wf, lemma_legacy_frame_keeps_wf};
use crate::motors::{clamp_speed, Motors};
use crate::pins::{extend, PinOp};
use crate::robot::{
    alert_cycles, lemma_movement_by_clamped, CarModes, Robot, ALERT_BEEP, ALERT_PAUSE,
    INITIAL_SPEED, SPEED_INCREMENT, STOP_BEEP,
};
use crate::servos::Servos;
use crate::text::{
    char_at, char_len, find, parse_i8, parse_i8_list, parse_u8, parse_u8_list, split,
    split_fields, split_terminator, starts_with,
};

verus! {

/// Where a call left the car and how it ended, as the grammars speak of
/// it.
pub open spec fn decoded(robot: Robot, result: Result<(), Rr4cError>) -> Decoded {
    Decoded { robot, result: outcome(result) }
}

/// Whether a call took the step `step`: it succeeded and left the car as the
/// step says, or it failed as the step says and left the car as it was.
pub open spec fn took(
    before: Robot,
    after: Robot,
    result: Result<(), Rr4cError>,
    step: Result<Robot, Fault>,
) -> bool {
    match step {
        Ok(robot) => result is Ok && after == robot,
        Err(fault) => outcome(result) == Err::<(), Fault>(fault) && after == before,
    }
}

/// A speed with its direction reversed. The one speed that has no reverse
/// among the 8-bit numbers gets the largest of them, which the drive takes
/// for the same full speed.
fn reversed(speed: i8) -> (r: i8)
    ensures
        clamp_speed(r as int) == clamp_speed(-(speed as int)),
{
    if speed == i8::MIN {
        i8::MAX
    } else {
        -speed
    }
}

/// A decoder of command frames. It owns the models of the drive, the servos
/// and the lights, buzzer and fan, and collects the pin operations that
/// its commands issue until they are taken.
#[derive(Debug)]
pub struct Decoder {
    hids: Hids,
    led_color: u8,
    mode: CarModes,
    motors: Motors,
    motor_speed: i8,
    servos: Servos,
    pending: Vec<PinOp>,
}

impl View for Decoder {
    type V = Robot;

    closed spec fn view(&self) -> Robot {
        Robot {
            mode: self.mode,
            motor_speed: self.motor_speed as int,
            led_color: self.led_color as int,
            drive: self.motors@,
            servos: self.servos@,
            hids: self.hids@,
            ops: self.pending@,
        }
    }
}

impl Decoder {
    /// A decoder in `Remote` mode at the initial session speed, with the
    /// servos told to centre.
    pub fn new() -> (decoder: Decoder)
        ensures
            decoder@ == Robot::initial(),
            decoder@.wf(),
    {
        let mut servos = Servos::new();
        let pending = servos.servos_init();
        Decoder {
            hids: Hids::new(),
            led_color: 0,
            mode: CarModes::Remote,
            motors: Motors::new(),
            motor_speed: INITIAL_SPEED,
            servos,
            pending,
        }
    }

    /// The operating mode.
    pub fn mode(&self) -> (mode: CarModes)
        ensures
            mode == self@.mode,
    {
        self.mode
    }

    /// The session speed, in percent.
    pub fn motor_speed(&self) -> (speed: i8)
        ensures
            speed == self@.motor_speed,
    {
        self.motor_speed
    }

    /// The palette index of the colour last shown by a light command.
    pub fn led_color(&self) -> (index: u8)
        ensures
            index == self@.led_color,
    {
        self.led_color
    }

    /// The model of the drive.
    pub fn motors(&self) -> (motors: &Motors)
        ensures
            motors@ == self@.drive,
    {
        &self.motors
    }

    /// The model of the servos.
    pub fn servos(&self) -> (servos: &Servos)
        ensures
            servos@ == self@.servos,
    {
        &self.servos
    }

    /// The model of the lights, the buzzer and the fan.
    pub fn hids(&self) -> (hids: &Hids)
        ensures
            hids@ == self@.hids,
    {
        &self.hids
    }

    /// Hands out the pin operations issued since they were last taken,
    /// oldest first, and keeps none of them.
    pub fn take_ops(&mut self) -> (ops: Vec<PinOp>)
        ensures
            ops@ == old(self)@.ops,
            final(self)@ == old(self)@.taken(),
            old(self)@.wf() ==> final(self)@.wf(),
    {
        let mut ops: Vec<PinOp> = Vec::new();
        ops.append(&mut self.pending);
        ops
    }

    // --- single steps -------------------------------------------------------
    fn brake(&mut self)
        ensures
            final(self)@ == old(self)@.brake(),
    {
        let ops = self.motors.brake();
        extend(&mut self.pending, ops);
    }

    fn enable(&mut self, on: bool)
        ensures
            final(self)@ == old(self)@.enable(on),
    {
        let ops = self.motors.enable(on);
        extend(&mut self.pending, ops);
    }

    fn movement(&mut self, left: i8, right: i8)
        ensures
            final(self)@ == old(self)@.movement(left as int, right as int),
    {
        let ops = self.motors.movement(Some(left), Some(right));
        extend(&mut self.pending, ops);
    }

    fn set_front(&mut self, angle: Option<u8>)
        ensures
            final(self)@ == old(self)@.set_front(angle),
    {
        let ops = self.servos.set_front(angle);
        extend(&mut self.pending, ops);
    }

    fn set_camera_pan(&mut self, angle: Option<u8>)
        ensures
            final(self)@ == old(self)@.set_camera_pan(angle),
    {
        let ops = self.servos.set_camera_pan(angle);
        extend(&mut self.pending, ops);
    }

    fn set_camera_tilt(&mut self, angle: Option<u8>)
        ensures
            final(self)@ == old(self)@.set_camera_tilt(angle),
    {
        let ops = self.servos.set_camera_tilt(angle);
        extend(&mut self.pending, ops);
    }

    fn front_left(&mut self)
        ensures
            final(self)@ == old(self)@.front_left(),
    {
        let ops = self.servos.front_left();
        extend(&mut self.pending, ops);
    }

    fn front_right(&mut self)
        ensures
            final(self)@ == old(self)@.front_right(),
    {
        let ops = self.servos.front_right();
        extend(&mut self.pending, ops);
    }

    fn camera_pan_left(&mut self)
        ensures
            final(self)@ == old(self)@.camera_pan_left(),
    {
        let ops = self.servos.camera_pan_left();
        extend(&mut self.pending, ops);
    }

    fn camera_pan_right(&mut self)
        ensures
            final(self)@ == old(self)@.camera_pan_right(),
    {
        let ops = self.servos.camera_pan_right();
        extend(&mut self.pending, ops);
    }

    fn camera_tilt_up(&mut self)
        ensures
            final(self)@ == old(self)@.camera_tilt_up(),
    {
        let ops = self.servos.camera_tilt_up();
        extend(&mut self.pending, ops);
    }

    fn camera_tilt_down(&mut self)
        ensures
            final(self)@ == old(self)@.camera_tilt_down(),
    {
        let ops = self.servos.camera_tilt_down();
        extend(&mut self.pending, ops);
    }

    fn lights(&mut self, red: u8, green: u8, blue: u8)
        ensures
            final(self)@ == old(self)@.lights(red, green, blue),
    {
        let ops = self.hids.lights(Some(red), Some(green), Some(blue));
        extend(&mut self.pending, ops);
    }

    fn set_red(&mut self, value: Option<u8>)
        ensures
            final(self)@ == old(self)@.set_red(value),
    {
        let ops = self.hids.set_red(value);
        extend(&mut self.pending, ops);
    }

    fn set_green(&mut self, value: Option<u8>)
        ensures
            final(self)@ == old(self)@.set_green(value),
    {
        let ops = self.hids.set_green(value);
        extend(&mut self.pending, ops);
    }

    fn set_blue(&mut self, value: Option<u8>)
        ensures
            final(self)@ == old(self)@.set_blue(value),
    {
        let ops = self.hids.set_blue(value);
        extend(&mut self.pending, ops);
    }

    fn set_color(&mut self, index: u8)
        ensures
            final(self)@ == old(self)@.set_color(index),
    {
        let ops = self.hids.set_color(index);
        extend(&mut self.pending, ops);
    }

    fn beep(&mut self, millis: Option<u64>)
        ensures
            final(self)@ == old(self)@.beep(millis),
    {
        let ops = self.hids.beep(millis);
        extend(&mut self.pending, ops);
    }

    fn whistle(&mut self)
        ensures
            final(self)@ == old(self)@.whistle(),
    {
        let ops = self.hids.whistle();
        extend(&mut self.pending, ops);
    }

    fn blow(&mut self, millis: Option<u64>)
        ensures
            final(self)@ == old(self)@.blow(millis),
    {
        let ops = self.hids.blow(millis);
        extend(&mut self.pending, ops);
    }

    fn toggle_fan(&mut self)
        ensures
            final(self)@ == old(self)@.toggle_fan(),
    {
        let ops = self.hids.toggle_fan();
        extend(&mut self.pending, ops);
    }

    fn pause(&mut self, millis: u64)
        ensures
            final(self)@ == old(self)@.pause(millis),
    {
        self.pending.push(PinOp::Pause(millis));
        assert(self.pending@ =~= old(self).pending@ + seq![PinOp::Pause(millis)]);
    }

    /// Stops the car for safety.
    fn stop(&mut self)
        ensures
            final(self)@ == stopped(old(self)@),
    {
        self.brake();
        self.mode = CarModes::Remote;
        self.lights(100, 0, 0);
        self.beep(Some(STOP_BEEP));
        self.lights(0, 0, 0);
    }

    /// Announces `mode`, or the mode the car is in for `None`, to whoever
    /// stands by: one cycle of light, beep and pause for `Remote`, up to six
    /// for `InfraredFollow`.
    pub fn alert_mode(&mut self, mode: Option<CarModes>)
        ensures
            final(self)@ == old(self)@.alert(
                alert_cycles(
                    match mode {
                        Some(m) => m,
                        None => old(self)@.mode,
                    },
                ),
            ),
            old(self)@.wf() ==> final(self)@.wf(),
    {
        proof {
            lemma_alert(
                self@,
                alert_cycles(
                    match mode {
                        Some(m) => m,
                        None => self@.mode,
                    },
                ),
            );
        }
        let mode = match mode {
            Some(m) => m,
            None => self.mode,
        };
        let count: u8 = match mode {
            CarModes::Remote => 1,
            CarModes::Tracking => 2,
            CarModes::UltrasonicAvoid => 3,
            CarModes::LedColors => 4,
            CarModes::LightSeeking => 5,
            CarModes::InfraredFollow => 6,
        };
        let mut i: u8 = 0;
        while i < count
            invariant
                i <= count <= 6,
                self@ == old(self)@.alert(i as nat),
            decreases count - i,
        {
            self.set_color(i);
            self.beep(Some(ALERT_BEEP));
            self.lights(0, 0, 0);
            self.pause(ALERT_PAUSE);
            i += 1;
        }
    }

    // --- extension points ---------------------------------------------------
    /// What the car does on its own in `Tracking` mode. Nothing yet.
    fn tracking_mode(&mut self) -> (r: Result<(), Rr4cError>)
        ensures
            r is Ok,
            final(self)@ == old(self)@,
    {
        Ok(())
    }

    /// What the car does on its own in `UltrasonicAvoid` mode. Nothing yet.
    fn ultrasonic_avoid(&mut self) -> (r: Result<(), Rr4cError>)
        ensures
            r is Ok,
            final(self)@ == old(self)@,
    {
        Ok(())
    }

    /// What the car does on its own in `LedColors` mode. Nothing yet.
    fn led_colors(&mut self) -> (r: Result<(), Rr4cError>)
        ensures
            r is Ok,
            final(self)@ == old(self)@,
    {
        Ok(())
    }

    /// What the car does on its own in `LightSeeking` mode. Nothing yet.
    fn light_seeking(&mut self) -> (r: Result<(), Rr4cError>)
        ensures
            r is Ok,
            final(self)@ == old(self)@,
    {
        Ok(())
    }

    /// What the car does on its own in `InfraredFollow` mode. Nothing yet.
    fn infrared_follow(&mut self) -> (r: Result<(), Rr4cError>)
        ensures
            r is Ok,
            final(self)@ == old(self)@,
    {
        Ok(())
    }

    // --- legacy grammar -----------------------------------------------------
    /// Carries out the `MODE` command with the code `code`.
    fn mode_decode(&mut self, code: &str) -> (r: Result<(), Rr4cError>)
        requires
            code.is_ascii(),
        ensures
            decoded(final(self)@, r) == mode_command(old(self)@, code@),
    {
        if char_len(code) != 2 {
            self.stop();
            return Err(Rr4cError::UnknownModeCommand(String::from_str(code)));
        }
        let tens = char_at(code, 0);
        let units = char_at(code, 1);
        if units == '0' && '0' <= tens && tens <= '6' {
            self.stop();
            Ok(())
        } else if units == '1' && tens == '1' {
            self.mode = CarModes::Remote;
            self.alert_mode(None);
            Ok(())
        } else if units == '1' && tens == '2' {
            self.mode = CarModes::Tracking;
            self.alert_mode(None);
            self.tracking_mode()
        } else if units == '1' && tens == '3' {
            self.mode = CarModes::UltrasonicAvoid;
            self.alert_mode(None);
            self.ultrasonic_avoid()
        } else if units == '1' && tens == '4' {
            self.mode = CarModes::LedColors;
            self.alert_mode(None);
            self.led_colors()
        } else if units == '1' && tens == '5' {
            self.mode = CarModes::LightSeeking;
            self.alert_mode(None);
            self.light_seeking()
        } else if units == '1' && tens == '6' {
            self.mode = CarModes::InfraredFollow;
            self.alert_mode(None);
            self.infrared_follow()
        } else {
            self.stop();
            Err(Rr4cError::UnknownModeCommand(String::from_str(code)))
        }
    }

    /// Carries out the `CLR` command of the tagged body `body`.
    fn colour_decode(&mut self, body: &str) -> (r: Result<(), Rr4cError>)
        requires
            body.is_ascii(),
            body@.len() >= 3,
        ensures
            decoded(final(self)@, r) == colour_command(
                old(self)@,
                body@,
                body@.subrange(3, body@.len() as int),
            ),
    {
        let rest = body.substring_ascii(3, char_len(body));
        let n = char_len(rest);
        let green_mark = green_marker();
        let blue_mark = blue_marker();
        let g = match find(rest, green_mark, 0) {
            Some(g) => g,
            None => {
                return Err(Rr4cError::BadCommand(String::from_str(body)));
            },
        };
        let red = match parse_u8(rest, 0, g) {
            Some(v) => v,
            None => {
                return Err(Rr4cError::BadCommandValue(String::from_str(body)));
            },
        };
        let b = match find(rest, blue_mark, g + 4) {
            Some(b) => b,
            None => {
                return Err(Rr4cError::BadCommand(String::from_str(body)));
            },
        };
        let green = match parse_u8(rest, g + 4, b) {
            Some(v) => v,
            None => {
                return Err(Rr4cError::BadCommandValue(String::from_str(body)));
            },
        };
        let blue = match parse_u8(rest, b + 4, n) {
            Some(v) => v,
            None => {
                return Err(Rr4cError::BadCommandValue(String::from_str(body)));
            },
        };
        self.lights(percent(red), percent(green), percent(blue));
        Ok(())
    }

    /// Carries out the tagged command `body`.
    fn tagged_decode(&mut self, body: &str) -> (r: Result<(), Rr4cError>)
        requires
            body.is_ascii(),
        ensures
            decoded(final(self)@, r) == tagged(old(self)@, body@),
    {
        let n = char_len(body);
        if starts_with(body, steer_tag()) {
            match parse_u8(body, 3, n) {
                Some(angle) => {
                    self.set_front(Some(angle));
                    Ok(())
                },
                None => Err(Rr4cError::BadCommandValue(String::from_str(body))),
            }
        } else if starts_with(body, colour_tag()) {
            self.colour_decode(body)
        } else if starts_with(body, mode_tag()) {
            let code = body.substring_ascii(4, n);
            self.mode_decode(code)
        } else {
            Err(Rr4cError::UnknownCommand(String::from_str(body)))
        }
    }

    /// Takes the speed field of a positional body.
    fn speed_step(&mut self, c: char) -> (r: Result<(), Rr4cError>)
        ensures
            took(old(self)@, final(self)@, r, speed_field(old(self)@, c)),
    {
        if c == '0' {
            Ok(())
        } else if c == '1' {
            self.motor_speed = raised(self.motor_speed);
            Ok(())
        } else if c == '2' {
            self.motor_speed = lowered(self.motor_speed);
            Ok(())
        } else {
            Err(Rr4cError::UnknownMotorSpeedCommand(c as u8))
        }
    }

    /// Takes the direction and spin fields of a positional body.
    fn direction_step(&mut self, direction: char, spin: char) -> (r: Result<(), Rr4cError>)
        ensures
            took(old(self)@, final(self)@, r, direction_field(old(self)@, direction, spin)),
    {
        let v = self.motor_speed;
        let back = reversed(v);
        proof {
            lemma_movement_by_clamped(self@, -(v as int), -(v as int), back as int, back as int);
            lemma_movement_by_clamped(self@, 0, -(v as int), 0, back as int);
            lemma_movement_by_clamped(self@, -(v as int), 0, back as int, 0);
            lemma_movement_by_clamped(self@, -(v as int), v as int, back as int, v as int);
            lemma_movement_by_clamped(self@, v as int, -(v as int), v as int, back as int);
        }
        if spin == '0' {
            if direction == '0' {
                self.brake();
            } else if direction == '1' {
                self.movement(v, v);
            } else if direction == '2' {
                self.movement(back, back);
            } else if direction == '3' {
                self.movement(0, v);
            } else if direction == '4' {
                self.movement(v, 0);
            } else if direction == '5' {
                self.movement(0, back);
            } else if direction == '6' {
                self.movement(back, 0);
            } else {
                return Err(Rr4cError::UnknownMotorCommand(direction as u8));
            }
        } else if spin == '1' {
            self.movement(back, v);
        } else if spin == '2' {
            self.movement(v, back);
        } else {
            return Err(Rr4cError::UnknownSpinCommand(spin as u8));
        }
        Ok(())
    }

    /// Takes the servo field of a positional body.
    fn servo_step(&mut self, c: char) -> (r: Result<(), Rr4cError>)
        ensures
            took(old(self)@, final(self)@, r, servo_field(old(self)@, c)),
    {
        if c == '0' {
        } else if c == '1' {
            self.front_left();
        } else if c == '2' {
            self.front_right();
        } else if c == '3' {
            self.camera_tilt_up();
        } else if c == '4' {
            self.camera_tilt_down();
        } else if c == '5' {
            self.set_camera_tilt(Some(90));
        } else if c == '6' {
            self.camera_pan_left();
        } else if c == '7' {
            self.camera_pan_right();
        } else if c == '8' {
            self.set_camera_pan(Some(90));
        } else if c == '9' {
            self.set_front(Some(90));
        } else {
            return Err(Rr4cError::UnknownServoCommand(c as u8));
        }
        Ok(())
    }

    /// Takes the light field of a positional body.
    fn led_step(&mut self, c: char) -> (r: Result<(), Rr4cError>)
        ensures
            took(old(self)@, final(self)@, r, led_field(old(self)@, c)),
    {
        let index: u8 = if c == '0' || c == '8' {
            0
        } else if c == '1' {
            if self.led_color == u8::MAX {
                0
            } else {
                self.led_color + 1
            }
        } else if '2' <= c && c <= '7' {
            c as u8 - '0' as u8
        } else {
            return Err(Rr4cError::UnknownLedCommand(c as u8));
        };
        self.led_color = index;
        self.set_color(index);
        Ok(())
    }

    /// Carries out the positional body `body`.
    fn positional_decode(&mut self, body: &str) -> (r: Result<(), Rr4cError>)
        requires
            body.is_ascii(),
        ensures
            decoded(final(self)@, r) == positional(old(self)@, body@),
    {
        if char_len(body) < 17 {
            return Err(Rr4cError::IncompleteCommand(String::from_str(body)));
        }
        match self.speed_step(char_at(body, 6)) {
            Ok(_) => {},
            Err(e) => {
                return Err(e);
            },
        }
        match self.direction_step(char_at(body, 1), char_at(body, 2)) {
            Ok(_) => {},
            Err(e) => {
                return Err(e);
            },
        }
        if char_at(body, 4) == '1' {
            self.whistle();
        }
        match self.servo_step(char_at(body, 8)) {
            Ok(_) => {},
            Err(e) => {
                return Err(e);
            },
        }
        if char_at(body, 16) == '1' {
            self.set_front(Some(90));
        }
        match self.led_step(char_at(body, 12)) {
            Ok(_) => {},
            Err(e) => {
                return Err(e);
            },
        }
        if char_at(body, 14) == '1' {
            self.toggle_fan();
        }
        Ok(())
    }

    /// Decodes one frame of the legacy grammar and carries it out.
    ///
    /// A line that is not ASCII text between `$` and `#` forces the mode
    /// `Remote` and is a bad command. Behind `$4WD,` stands a tagged
    /// command: `PTZ` with a steering angle, `CLR` with three colour
    /// values, or `MODE` with a mode code. Any other body is positional.
    /// What a frame did before it failed stays done.
    pub fn yb_decode(&mut self, line: &str) -> (r: Result<(), Rr4cError>)
        ensures
            decoded(final(self)@, r) == legacy_frame(old(self)@, line@),
            old(self)@.wf() ==> final(self)@.wf(),
    {
        proof {
            if self@.wf() {
                lemma_legacy_frame_keeps_wf(self@, line@);
            }
        }
        self.legacy_decode(line)
    }

    /// Carries out the legacy frame `line`.
    fn legacy_decode(&mut self, line: &str) -> (r: Result<(), Rr4cError>)
        ensures
            decoded(final(self)@, r) == legacy_frame(old(self)@, line@),
    {
        if !line.is_ascii() {
            self.mode = CarModes::Remote;
            return Err(Rr4cError::BadCommand(String::from_str(line)));
        }
        let n = char_len(line);
        if n < 2 || char_at(line, 0) != '$' || char_at(line, n - 1) != '#' {
            self.mode = CarModes::Remote;
            return Err(Rr4cError::BadCommand(String::from_str(line)));
        }
        if starts_with(line, legacy_tag()) {
            proof {
                reveal_strlit("$4WD,");
                assert(line@.subrange(0, 5)[4] == ',');
            }
            let body = line.substring_ascii(5, n - 1);
            self.tagged_decode(body)
        } else {
            let body = line.substring_ascii(1, n - 1);
            self.positional_decode(body)
        }
    }

    // --- extended grammar ---------------------------------------------------
    /// Carries out the `CAM` segment `piece`.
    fn cam_decode(&mut self, piece: &str) -> (r: Result<(), Rr4cError>)
        requires
            piece.is_ascii(),
            piece@.len() >= 4,
        ensures
            decoded(final(self)@, r) == cam_segment(old(self)@, piece@),
    {
        let n = char_len(piece);
        let selector = char_at(piece, 3);
        if selector == 'I' {
            self.set_camera_pan(None);
            self.set_camera_tilt(None);
            Ok(())
        } else if selector == 'P' {
            if n == 5 && char_at(piece, 4) == 'L' {
                self.camera_pan_left();
                Ok(())
            } else if n == 5 && char_at(piece, 4) == 'R' {
                self.camera_pan_right();
                Ok(())
            } else if n >= 5 {
                match parse_u8(piece, 4, n) {
                    Some(angle) => {
                        self.set_camera_pan(Some(angle));
                        Ok(())
                    },
                    None => Err(Rr4cError::BadCommandValue(String::from_str(piece))),
                }
            } else {
                self.set_camera_pan(None);
                Ok(())
            }
        } else if selector == 'T' {
            if n == 5 && char_at(piece, 4) == 'D' {
                self.camera_tilt_down();
                Ok(())
            } else if n == 5 && char_at(piece, 4) == 'U' {
                self.camera_tilt_up();
                Ok(())
            } else if n >= 5 {
                match parse_u8(piece, 4, n) {
                    Some(angle) => {
                        self.set_camera_tilt(Some(angle));
                        Ok(())
                    },
                    None => Err(Rr4cError::BadCommandValue(String::from_str(piece))),
                }
            } else {
                self.set_camera_tilt(None);
                Ok(())
            }
        } else {
            match parse_u8_list(piece, 4) {
                Some(angles) => {
                    if angles.len() == 1 {
                        self.set_camera_pan(Some(angles[0]));
                        self.set_camera_tilt(Some(angles[0]));
                        Ok(())
                    } else if angles.len() == 2 {
                        self.set_camera_pan(Some(angles[0]));
                        self.set_camera_tilt(Some(angles[1]));
                        Ok(())
                    } else {
                        Err(Rr4cError::BadCommandValue(String::from_str(piece)))
                    }
                },
                None => Err(Rr4cError::BadCommandValue(String::from_str(piece))),
            }
        }
    }

    /// Carries out the `FAN` segment `piece`.
    fn fan_decode(&mut self, piece: &str) -> (r: Result<(), Rr4cError>)
        requires
            piece.is_ascii(),
            piece@.len() >= 4,
        ensures
            decoded(final(self)@, r) == fan_segment(old(self)@, piece@),
    {
        let selector = char_at(piece, 3);
        if selector == 'T' {
            self.toggle_fan();
            Ok(())
        } else if selector == '0' {
            self.blow(Some(10));
            Ok(())
        } else if selector == '1' {
            self.blow(Some(10_000));
            Ok(())
        } else {
            Err(Rr4cError::BadCommandValue(String::from_str(piece)))
        }
    }

    /// Carries out the `FRT` segment `piece`.
    fn frt_decode(&mut self, piece: &str) -> (r: Result<(), Rr4cError>)
        requires
            piece.is_ascii(),
            piece@.len() >= 4,
        ensures
            decoded(final(self)@, r) == frt_segment(old(self)@, piece@),
    {
        let selector = char_at(piece, 3);
        if selector == 'I' {
            self.set_front(None);
            Ok(())
        } else if selector == 'L' {
            self.front_left();
            Ok(())
        } else if selector == 'R' {
            self.front_right();
            Ok(())
        } else {
            match parse_u8(piece, 4, char_len(piece)) {
                Some(angle) => {
                    self.set_front(Some(angle));
                    Ok(())
                },
                None => Err(Rr4cError::BadCommandValue(String::from_str(piece))),
            }
        }
    }

    /// Carries out the `LED` segment `piece`.
    fn led_decode(&mut self, piece: &str) -> (r: Result<(), Rr4cError>)
        requires
            piece.is_ascii(),
            piece@.len() >= 4,
        ensures
            decoded(final(self)@, r) == led_segment(old(self)@, piece@),
    {
        let n = char_len(piece);
        let selector = char_at(piece, 3);
        if selector == 'B' {
            match channel_value(piece) {
                Some(value) => {
                    self.set_blue(value);
                    Ok(())
                },
                None => Err(Rr4cError::BadCommandValue(String::from_str(piece))),
            }
        } else if selector == 'C' {
            if n == 5 {
                match parse_u8(piece, 4, n) {
                    Some(index) => {
                        self.set_color(index);
                        Ok(())
                    },
                    None => Err(Rr4cError::BadCommandValue(String::from_str(piece))),
                }
            } else {
                Err(Rr4cError::BadCommandValue(String::from_str(piece)))
            }
        } else if selector == 'G' {
            match channel_value(piece) {
                Some(value) => {
                    self.set_green(value);
                    Ok(())
                },
                None => Err(Rr4cError::BadCommandValue(String::from_str(piece))),
            }
        } else if selector == 'R' {
            match channel_value(piece) {
                Some(value) => {
                    self.set_red(value);
                    Ok(())
                },
                None => Err(Rr4cError::BadCommandValue(String::from_str(piece))),
            }
        } else {
            match parse_u8_list(piece, 4) {
                Some(colors) => {
                    if colors.len() == 1 {
                        self.lights(colors[0], colors[0], colors[0]);
                        Ok(())
                    } else if colors.len() == 3 {
                        self.lights(colors[0], colors[1], colors[2]);
                        Ok(())
                    } else {
                        Err(Rr4cError::BadCommandValue(String::from_str(piece)))
                    }
                },
                None => Err(Rr4cError::BadCommandValue(String::from_str(piece))),
            }
        }
    }

    /// The speed that a single-side or spin segment gives from position
    /// `from` on, or the session speed if nothing stands there.
    fn speed_value(&self, piece: &str, from: usize) -> (r: Option<i8>)
        requires
            piece.is_ascii(),
        ensures
            match speed_argument(self@, piece@, from as int) {
                Some(speed) => r matches Some(v) && v == speed,
                None => r is None,
            },
    {
        let n = char_len(piece);
        if n > from {
            parse_i8(piece, from, n)
        } else {
            Some(self.motor_speed)
        }
    }

    /// Carries out the `MTR` segment `piece`.
    fn mtr_decode(&mut self, piece: &str) -> (r: Result<(), Rr4cError>)
        requires
            piece.is_ascii(),
            piece@.len() >= 4,
        ensures
            decoded(final(self)@, r) == mtr_segment(old(self)@, piece@),
    {
        let n = char_len(piece);
        let selector = char_at(piece, 3);
        if selector == 'A' {
            let (left, right) = self.motors.speeds();
            self.motor_speed = raised(self.motor_speed);
            self.movement(accelerate(left), accelerate(right));
            Ok(())
        } else if selector == 'D' {
            let (left, right) = self.motors.speeds();
            self.motor_speed = ease(self.motor_speed);
            self.movement(decelerate(left), decelerate(right));
            Ok(())
        } else if selector == 'E' {
            if is_text(piece, disable_segment()) {
                self.enable(false);
                Ok(())
            } else if is_text(piece, enable_segment()) {
                self.enable(true);
                Ok(())
            } else {
                Err(Rr4cError::BadCommandValue(String::from_str(piece)))
            }
        } else if selector == 'L' {
            match self.speed_value(piece, 4) {
                Some(speed) => {
                    self.movement(speed, 0);
                    Ok(())
                },
                None => Err(Rr4cError::BadCommandValue(String::from_str(piece))),
            }
        } else if selector == 'R' {
            match self.speed_value(piece, 4) {
                Some(speed) => {
                    self.movement(0, speed);
                    Ok(())
                },
                None => Err(Rr4cError::BadCommandValue(String::from_str(piece))),
            }
        } else if selector == 'S' {
            if n < 5 {
                return Err(Rr4cError::BadCommand(String::from_str(piece)));
            }
            match self.speed_value(piece, 5) {
                None => Err(Rr4cError::BadCommandValue(String::from_str(piece))),
                Some(speed) => {
                    let back = reversed(speed);
                    proof {
                        lemma_movement_by_clamped(
                            self@,
                            -(speed as int),
                            speed as int,
                            back as int,
                            speed as int,
                        );
                        lemma_movement_by_clamped(
                            self@,
                            speed as int,
                            -(speed as int),
                            speed as int,
                            back as int,
                        );
                    }
                    if char_at(piece, 4) == 'L' {
                        self.movement(back, speed);
                        Ok(())
                    } else if char_at(piece, 4) == 'R' {
                        self.movement(speed, back);
                        Ok(())
                    } else {
                        Err(Rr4cError::BadCommand(String::from_str(piece)))
                    }
                },
            }
        } else {
            match parse_i8_list(piece, 4) {
                Some(speeds) => {
                    if speeds.len() == 1 {
                        match flag(speeds[0]) {
                            Some(on) => {
                                self.enable(on);
                                Ok(())
                            },
                            None => Err(Rr4cError::BadCommandValue(String::from_str(piece))),
                        }
                    } else if speeds.len() == 2 {
                        self.movement(speeds[0], speeds[1]);
                        Ok(())
                    } else if speeds.len() == 3 {
                        self.movement(speeds[0], speeds[1]);
                        match flag(speeds[2]) {
                            Some(on) => {
                                self.enable(on);
                                Ok(())
                            },
                            None => Err(Rr4cError::BadCommandValue(String::from_str(piece))),
                        }
                    } else {
                        Err(Rr4cError::BadCommandValue(String::from_str(piece)))
                    }
                },
                None => Err(Rr4cError::BadCommandValue(String::from_str(piece))),
            }
        }
    }

    /// Carries out one segment of an extended frame.
    fn segment_decode(&mut self, piece: &str) -> (r: Result<(), Rr4cError>)
        requires
            piece.is_ascii(),
        ensures
            decoded(final(self)@, r) == segment(old(self)@, piece@),
    {
        if char_len(piece) <= 3 {
            return Err(Rr4cError::UnknownCommand(String::from_str(piece)));
        }
        if starts_with(piece, cam_tag()) {
            self.cam_decode(piece)
        } else if starts_with(piece, fan_tag()) {
            self.fan_decode(piece)
        } else if starts_with(piece, frt_tag()) {
            self.frt_decode(piece)
        } else if starts_with(piece, led_tag()) {
            self.led_decode(piece)
        } else if starts_with(piece, mtr_tag()) {
            self.mtr_decode(piece)
        } else {
            Err(Rr4cError::UnknownCommand(String::from_str(piece.substring_ascii(0, 4))))
        }
    }

    /// Decodes one frame of the extended grammar and carries it out.
    ///
    /// A line that is not ASCII text of the form `$RR4W,` segments `#`
    /// forces the mode `Remote` and is a bad command. The segments are
    /// carried out from left to right. The first that fails ends the
    /// frame; what the segments before it did stays done.
    pub fn rr_decode(&mut self, line: &str) -> (r: Result<(), Rr4cError>)
        ensures
            decoded(final(self)@, r) == extended_frame(old(self)@, line@),
            old(self)@.wf() ==> final(self)@.wf(),
    {
        proof {
            if self@.wf() {
                lemma_extended_frame_keeps_wf(self@, line@);
            }
        }
        self.extended_decode(line)
    }

    /// Carries out the extended frame `line`.
    fn extended_decode(&mut self, line: &str) -> (r: Result<(), Rr4cError>)
        ensures
            decoded(final(self)@, r) == extended_frame(old(self)@, line@),
    {
        if !line.is_ascii() {
            self.mode = CarModes::Remote;
            return Err(Rr4cError::BadCommand(String::from_str(line)));
        }
        let n = char_len(line);
        if n < 7 || !starts_with(line, extended_tag()) || char_at(line, n - 1) != '#' {
            self.mode = CarModes::Remote;
            return Err(Rr4cError::BadCommand(String::from_str(line)));
        }
        let body = line.substring_ascii(6, n - 1);
        let fields = split_fields(body, 0, ',');
        let ghost pieces = split_terminator(body@, ',');
        let mut count: usize = fields.len();
        let (last_from, last_to) = fields[count - 1];
        if last_from == last_to {
            count = count - 1;
        }
        proof {
            assert(body@.subrange(0, body@.len() as int) =~= body@);
            let all = split(body@, ',');
            assert(all.last() == body@.subrange(last_from as int, last_to as int));
            assert(pieces.len() == count);
            assert(pieces.subrange(0, pieces.len() as int) =~= pieces);
        }
        let mut i: usize = 0;
        while i < count
            invariant
                body.is_ascii(),
                i <= count <= fields@.len(),
                pieces.len() == count,
                extended_frame(old(self)@, line@) == segments(old(self)@, pieces),
                forall|j: int|
                    0 <= j < fields@.len() ==> (#[trigger] fields@[j]).0 <= fields@[j].1
                        <= body@.len(),
                forall|j: int|
                    0 <= j < count ==> body@.subrange(
                        (#[trigger] fields@[j]).0 as int,
                        fields@[j].1 as int,
                    ) == pieces[j],
                segments(old(self)@, pieces) == segments(
                    self@,
                    pieces.subrange(i as int, pieces.len() as int),
                ),
            decreases count - i,
        {
            let (from, to) = fields[i];
            let piece = body.substring_ascii(from, to);
            let ghost before = self@;
            let ghost rest = pieces.subrange(i as int, pieces.len() as int);
            proof {
                assert(rest[0] == piece@);
                assert(rest.drop_first() =~= pieces.subrange(i + 1, pieces.len() as int));
            }
            match self.segment_decode(piece) {
                Ok(_) => {},
                Err(e) => {
                    return Err(e);
                },
            }
            i += 1;
        }
        Ok(())
    }
}

/// A session speed one increment up, at most 100 percent.
fn raised(speed: i8) -> (r: i8)
    ensures
        r == faster(speed as int),
{
    if speed > 100 - SPEED_INCREMENT {
        100
    } else {
        speed + SPEED_INCREMENT
    }
}

/// A session speed one increment down, at least zero.
fn lowered(speed: i8) -> (r: i8)
    ensures
        r == slower(speed as int),
{
    if speed < SPEED_INCREMENT {
        0
    } else {
        speed - SPEED_INCREMENT
    }
}

/// A colour channel given as 0..255 on the scale of 0..100 percent.
fn percent(value: u8) -> (r: u8)
    ensures
        r == percent_of_byte(value),
{
    (100u32 * (value as u32) / 255u32) as u8
}

/// The opening of a tagged legacy frame.
fn legacy_tag() -> (s: &'static str)
    ensures
        s@ == "$4WD,"@,
        s.is_ascii(),
{
    proof {
        reveal_strlit("$4WD,");
    }
    "$4WD,"
}

/// The tag of the steering command.
fn steer_tag() -> (s: &'static str)
    ensures
        s@ == "PTZ"@,
        s@.len() == 3,
        s.is_ascii(),
{
    proof {
        reveal_strlit("PTZ");
    }
    "PTZ"
}

/// The tag of the colour command.
fn colour_tag() -> (s: &'static str)
    ensures
        s@ == "CLR"@,
        s@.len() == 3,
        s.is_ascii(),
{
    proof {
        reveal_strlit("CLR");
    }
    "CLR"
}

/// The tag of the mode command.
fn mode_tag() -> (s: &'static str)
    ensures
        s@ == "MODE"@,
        s@.len() == 4,
        s.is_ascii(),
{
    proof {
        reveal_strlit("MODE");
    }
    "MODE"
}

/// The marker before the green value of a colour command.
fn green_marker() -> (s: &'static str)
    ensures
        s@ == ",CLG"@,
        s@.len() == 4,
        s.is_ascii(),
{
    proof {
        reveal_strlit(",CLG");
    }
    ",CLG"
}

/// The marker before the blue value of a colour command.
fn blue_marker() -> (s: &'static str)
    ensures
        s@ == ",CLB"@,
        s@.len() == 4,
        s.is_ascii(),
{
    proof {
        reveal_strlit(",CLB");
    }
    ",CLB"
}

/// The brightness that a single-channel light segment gives.
fn channel_value(piece: &str) -> (r: Option<Option<u8>>)
    requires
        piece.is_ascii(),
        piece@.len() >= 4,
    ensures
        r == channel_argument(piece@),
{
    let n = char_len(piece);
    if n > 4 {
        match parse_u8(piece, 4, n) {
            Some(value) => Some(Some(value)),
            None => None,
        }
    } else {
        Some(None)
    }
}

/// What an enable flag says.
fn flag(value: i8) -> (r: Option<bool>)
    ensures
        r == enable_flag(value),
{
    if value == 1 {
        Some(true)
    } else if value == 0 {
        Some(false)
    } else {
        None
    }
}

/// Whether the ASCII string `s` is the text `text`.
fn is_text(s: &str, text: &str) -> (b: bool)
    requires
        s.is_ascii(),
        text.is_ascii(),
    ensures
        b == (s@ == text@),
{
    let b = char_len(s) == char_len(text) && starts_with(s, text);
    proof {
        if b {
            assert(s@.subrange(0, text@.len() as int) =~= s@);
        }
        if s@ == text@ {
            assert(s@.subrange(0, text@.len() as int) =~= s@);
        }
    }
    b
}

/// A session speed one increment down, at least one increment.
fn ease(speed: i8) -> (r: i8)
    ensures
        r == eased(speed as int),
{
    if speed < SPEED_INCREMENT + SPEED_INCREMENT {
        SPEED_INCREMENT
    } else {
        speed - SPEED_INCREMENT
    }
}

/// The speed of one side accelerated.
fn accelerate(side: i8) -> (r: i8)
    requires
        -100 <= side <= 100,
    ensures
        r == accelerated(side as int),
{
    if side > 0 {
        if side > 100 - SPEED_INCREMENT {
            100
        } else {
            side + SPEED_INCREMENT
        }
    } else if side == 0 {
        SPEED_INCREMENT
    } else if side < -100 + SPEED_INCREMENT {
        -100
    } else {
        side - SPEED_INCREMENT
    }
}

/// The speed of one side decelerated.
fn decelerate(side: i8) -> (r: i8)
    requires
        -100 <= side <= 100,
    ensures
        r == decelerated(side as int),
{
    if side < 0 {
        if side > -SPEED_INCREMENT - SPEED_INCREMENT {
            -SPEED_INCREMENT
        } else {
            side + SPEED_INCREMENT
        }
    } else if side == 0 {
        0
    } else if side < SPEED_INCREMENT + SPEED_INCREMENT {
        SPEED_INCREMENT
    } else {
        side - SPEED_INCREMENT
    }
}

/// The opening of an extended frame.
fn extended_tag() -> (s: &'static str)
    ensures
        s@ == "$RR4W,"@,
        s.is_ascii(),
{
    proof {
        reveal_strlit("$RR4W,");
    }
    "$RR4W,"
}

/// The name of the camera in a segment.
fn cam_tag() -> (s: &'static str)
    ensures
        s@ == "CAM"@,
        s.is_ascii(),
{
    proof {
        reveal_strlit("CAM");
    }
    "CAM"
}

/// The name of the fan in a segment.
fn fan_tag() -> (s: &'static str)
    ensures
        s@ == "FAN"@,
        s.is_ascii(),
{
    proof {
        reveal_strlit("FAN");
    }
    "FAN"
}

/// The name of the front steering in a segment.
fn frt_tag() -> (s: &'static str)
    ensures
        s@ == "FRT"@,
        s.is_ascii(),
{
    proof {
        reveal_strlit("FRT");
    }
    "FRT"
}

/// The name of the lights in a segment.
fn led_tag() -> (s: &'static str)
    ensures
        s@ == "LED"@,
        s.is_ascii(),
{
    proof {
        reveal_strlit("LED");
    }
    "LED"
}

/// The name of the drive in a segment.
fn mtr_tag() -> (s: &'static str)
    ensures
        s@ == "MTR"@,
        s.is_ascii(),
{
    proof {
        reveal_strlit("MTR");
    }
    "MTR"
}

/// The segment that disables the drive.
fn disable_segment() -> (s: &'static str)
    ensures
        s@ == "MTRE0"@,
        s.is_ascii(),
{
    proof {
        reveal_strlit("MTRE0");
    }
    "MTRE0"
}

/// The segment that enables the drive.
fn enable_segment() -> (s: &'static str)
    ensures
        s@ == "MTRE1"@,
        s.is_ascii(),
{
    proof {
        reveal_strlit("MTRE1");
    }
    "MTRE1"
}

} // verus!
