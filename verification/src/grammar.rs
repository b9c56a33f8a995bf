//! What the two wire grammars mean: for each frame, where it leaves the car
//! and how it ends.
//!
//! The extended grammar frames a list of segments as `$RR4W,` segments `#`,
//! the segments separated by commas. The legacy grammar frames one command
//! as `$` body `#`, where the body is either tagged (`4WD,` and a command)
//! or positional (seventeen or more characters, of which eight positions
//! carry a field each).
//!
//! A frame takes effect step by step. A step that fails ends the frame;
//! the steps before it stay taken.

use vstd::prelude::*;
use vstd::utf8::is_ascii_chars;
use crate::error::Fault;
use crate::robot::{alert_cycles, CarModes, Robot, SPEED_INCREMENT};
use crate::text::{digit_value, find_from, has_prefix, i8_list, i8_of, split_terminator, u8_list, u8_of};

verus! {

/// Where a frame, or a part of one, leaves the car, and how it ended.
pub struct Decoded {
    pub robot: Robot,
    pub result: Result<(), Fault>,
}

/// The part succeeded and left the car as `robot`.
pub open spec fn done(robot: Robot) -> Decoded {
    Decoded { robot, result: Ok(()) }
}

/// The part failed with `fault` and left the car as `robot`.
pub open spec fn failed(robot: Robot, fault: Fault) -> Decoded {
    Decoded { robot, result: Err(fault) }
}

/// `s` from position `from` to its end.
pub open spec fn tail(s: Seq<char>, from: int) -> Seq<char> {
    s.subrange(from, s.len() as int)
}

// ---------------------------------------------------------------------------
// Speeds
// ---------------------------------------------------------------------------

/// A session speed one increment up, at most 100 percent.
pub open spec fn faster(speed: int) -> int {
    if speed + SPEED_INCREMENT > 100 {
        100
    } else {
        speed + SPEED_INCREMENT
    }
}

/// A session speed one increment down, at least zero.
pub open spec fn slower(speed: int) -> int {
    if speed - SPEED_INCREMENT < 0 {
        0
    } else {
        speed - SPEED_INCREMENT
    }
}

/// A session speed one increment down, at least one increment.
pub open spec fn eased(speed: int) -> int {
    if speed - SPEED_INCREMENT < SPEED_INCREMENT {
        SPEED_INCREMENT as int
    } else {
        speed - SPEED_INCREMENT
    }
}

/// The speed of one side accelerated: one increment further from zero in
/// the direction it has, at most 100 percent; a side at rest starts
/// forwards at one increment.
pub open spec fn accelerated(side: int) -> int {
    if side > 0 {
        if side + SPEED_INCREMENT > 100 {
            100
        } else {
            side + SPEED_INCREMENT
        }
    } else if side == 0 {
        SPEED_INCREMENT as int
    } else if side - SPEED_INCREMENT < -100 {
        -100
    } else {
        side - SPEED_INCREMENT
    }
}

/// The speed of one side decelerated: one increment closer to zero, but
/// no closer than one increment; a side at rest stays at rest.
pub open spec fn decelerated(side: int) -> int {
    if side < 0 {
        if side + SPEED_INCREMENT > -SPEED_INCREMENT {
            -SPEED_INCREMENT as int
        } else {
            side + SPEED_INCREMENT
        }
    } else if side == 0 {
        0
    } else if side - SPEED_INCREMENT < SPEED_INCREMENT {
        SPEED_INCREMENT as int
    } else {
        side - SPEED_INCREMENT
    }
}

/// A colour channel given as 0..255 on the scale of 0..100 percent,
/// rounded down.
pub open spec fn percent_of_byte(value: u8) -> u8 {
    (100 * (value as int) / 255) as u8
}

// ---------------------------------------------------------------------------
// Legacy grammar: the mode command
// ---------------------------------------------------------------------------

/// Whether `code` is one of the stop codes `00`, `10`, `20`, `30`, `40`,
/// `50`, `60`.
pub open spec fn is_stop_code(code: Seq<char>) -> bool {
    code.len() == 2 && '0' <= code[0] && code[0] <= '6' && code[1] == '0'
}

/// The mode that `code` enters: `11` for `Remote`, `21` for `Tracking`,
/// `31` for `UltrasonicAvoid`, `41` for `LedColors`, `51` for
/// `LightSeeking`, `61` for `InfraredFollow`. `None` for every other code.
pub open spec fn entered_mode(code: Seq<char>) -> Option<CarModes> {
    if code.len() == 2 && code[1] == '1' {
        if code[0] == '1' {
            Some(CarModes::Remote)
        } else if code[0] == '2' {
            Some(CarModes::Tracking)
        } else if code[0] == '3' {
            Some(CarModes::UltrasonicAvoid)
        } else if code[0] == '4' {
            Some(CarModes::LedColors)
        } else if code[0] == '5' {
            Some(CarModes::LightSeeking)
        } else if code[0] == '6' {
            Some(CarModes::InfraredFollow)
        } else {
            None
        }
    } else {
        None
    }
}

/// The car stopped for safety: the drive braked, the mode `Remote`, the
/// lights flashed red with a beep and left off.
pub open spec fn stopped(robot: Robot) -> Robot {
    robot.brake().with_mode(CarModes::Remote).red_flash()
}

/// The `MODE` command with the code that follows the tag. A stop code
/// stops the car. A mode code enters the mode and announces it with one
/// alert cycle for `Remote` up to six for `InfraredFollow`. Any other code
/// stops the car and fails.
pub open spec fn mode_command(robot: Robot, code: Seq<char>) -> Decoded {
    if is_stop_code(code) {
        done(stopped(robot))
    } else {
        match entered_mode(code) {
            Some(mode) => done(robot.with_mode(mode).alert(alert_cycles(mode))),
            None => failed(stopped(robot), Fault::UnknownModeCommand(code)),
        }
    }
}

// ---------------------------------------------------------------------------
// Legacy grammar: tagged commands
// ---------------------------------------------------------------------------

/// The `PTZ` command with the text that follows the tag: the front
/// steering angle in degrees.
pub open spec fn steer_command(robot: Robot, body: Seq<char>, angle: Seq<char>) -> Decoded {
    match u8_of(angle) {
        Some(n) => done(robot.set_front(Some(n))),
        None => failed(robot, Fault::BadCommandValue(body)),
    }
}

/// The `CLR` command with the text that follows the tag: the red value,
/// `,CLG`, the green value, `,CLB`, the blue value, each from 0 to 255.
/// A missing marker is a bad command, a value that cannot be read a bad
/// command value; what comes first in the text decides. All three colours
/// are set at once, each on the scale of 0..100 percent.
pub open spec fn colour_command(robot: Robot, body: Seq<char>, rest: Seq<char>) -> Decoded {
    match find_from(rest, ",CLG"@, 0) {
        None => failed(robot, Fault::BadCommand(body)),
        Some(g) => match u8_of(rest.subrange(0, g)) {
            None => failed(robot, Fault::BadCommandValue(body)),
            Some(red) => match find_from(rest, ",CLB"@, g + 4) {
                None => failed(robot, Fault::BadCommand(body)),
                Some(b) => match u8_of(rest.subrange(g + 4, b)) {
                    None => failed(robot, Fault::BadCommandValue(body)),
                    Some(green) => match u8_of(tail(rest, b + 4)) {
                        None => failed(robot, Fault::BadCommandValue(body)),
                        Some(blue) => done(
                            robot.lights(
                                percent_of_byte(red),
                                percent_of_byte(green),
                                percent_of_byte(blue),
                            ),
                        ),
                    },
                },
            },
        },
    }
}

/// The tagged command `body`, which is what stands between `$4WD,` and
/// `#`.
pub open spec fn tagged(robot: Robot, body: Seq<char>) -> Decoded {
    if has_prefix(body, "PTZ"@) {
        steer_command(robot, body, tail(body, 3))
    } else if has_prefix(body, "CLR"@) {
        colour_command(robot, body, tail(body, 3))
    } else if has_prefix(body, "MODE"@) {
        mode_command(robot, tail(body, 4))
    } else {
        failed(robot, Fault::UnknownCommand(body))
    }
}

// ---------------------------------------------------------------------------
// Legacy grammar: the positional body
// ---------------------------------------------------------------------------

/// The least length of a positional body.
pub open spec fn positional_length() -> nat {
    17
}

/// The speed field: `0` leaves the session speed, `1` raises it by one
/// increment up to 100, `2` lowers it by one increment down to zero.
pub open spec fn speed_field(robot: Robot, c: char) -> Result<Robot, Fault> {
    if c == '0' {
        Ok(robot)
    } else if c == '1' {
        Ok(robot.with_speed(faster(robot.motor_speed)))
    } else if c == '2' {
        Ok(robot.with_speed(slower(robot.motor_speed)))
    } else {
        Err(Fault::UnknownMotorSpeedCommand(c as u8))
    }
}

/// The direction and spin fields. Without spin (`0`) the direction field
/// decides: `0` brake, `1` forward, `2` back, `3` left, `4` right, `5`
/// back-left, `6` back-right. Spin `1` turns left on the spot, spin `2`
/// right. All at the session speed.
pub open spec fn direction_field(robot: Robot, direction: char, spin: char) -> Result<
    Robot,
    Fault,
> {
    let v = robot.motor_speed;
    if spin == '0' {
        if direction == '0' {
            Ok(robot.brake())
        } else if direction == '1' {
            Ok(robot.movement(v, v))
        } else if direction == '2' {
            Ok(robot.movement(-v, -v))
        } else if direction == '3' {
            Ok(robot.movement(0, v))
        } else if direction == '4' {
            Ok(robot.movement(v, 0))
        } else if direction == '5' {
            Ok(robot.movement(0, -v))
        } else if direction == '6' {
            Ok(robot.movement(-v, 0))
        } else {
            Err(Fault::UnknownMotorCommand(direction as u8))
        }
    } else if spin == '1' {
        Ok(robot.movement(-v, v))
    } else if spin == '2' {
        Ok(robot.movement(v, -v))
    } else {
        Err(Fault::UnknownSpinCommand(spin as u8))
    }
}

/// The horn field: `1` sounds the whistle.
pub open spec fn horn_field(robot: Robot, c: char) -> Robot {
    if c == '1' {
        robot.whistle()
    } else {
        robot
    }
}

/// The servo field: `0` nothing, `1` and `2` steer one step left and
/// right, `3` and `4` tilt the camera one step up and down, `5` centres
/// the tilt, `6` and `7` pan the camera one step left and right, `8`
/// centres the pan, `9` centres the steering.
pub open spec fn servo_field(robot: Robot, c: char) -> Result<Robot, Fault> {
    if c == '0' {
        Ok(robot)
    } else if c == '1' {
        Ok(robot.front_left())
    } else if c == '2' {
        Ok(robot.front_right())
    } else if c == '3' {
        Ok(robot.camera_tilt_up())
    } else if c == '4' {
        Ok(robot.camera_tilt_down())
    } else if c == '5' {
        Ok(robot.set_camera_tilt(Some(90u8)))
    } else if c == '6' {
        Ok(robot.camera_pan_left())
    } else if c == '7' {
        Ok(robot.camera_pan_right())
    } else if c == '8' {
        Ok(robot.set_camera_pan(Some(90u8)))
    } else if c == '9' {
        Ok(robot.set_front(Some(90u8)))
    } else {
        Err(Fault::UnknownServoCommand(c as u8))
    }
}

/// The front reset field: `1` steers straight ahead.
pub open spec fn front_reset_field(robot: Robot, c: char) -> Robot {
    if c == '1' {
        robot.set_front(Some(90u8))
    } else {
        robot
    }
}

/// The palette index after the light field `c`: `0` and `8` give index
/// zero, `1` the index after the current one, which after 255 is zero
/// again, `2` to `7` the index of that number.
pub open spec fn led_index(current: int, c: char) -> Option<int> {
    if c == '0' || c == '8' {
        Some(0)
    } else if c == '1' {
        Some((current + 1) % 256)
    } else if '2' <= c && c <= '7' {
        Some(digit_value(c) as int)
    } else {
        None
    }
}

/// The light field: the palette index moves as `led_index` says, and the
/// lights show the colour at the new index.
pub open spec fn led_field(robot: Robot, c: char) -> Result<Robot, Fault> {
    match led_index(robot.led_color, c) {
        Some(index) => Ok(robot.with_led(index).set_color(index as u8)),
        None => Err(Fault::UnknownLedCommand(c as u8)),
    }
}

/// The fan field: `1` toggles the fan.
pub open spec fn fan_field(robot: Robot, c: char) -> Robot {
    if c == '1' {
        robot.toggle_fan()
    } else {
        robot
    }
}

/// The positional body: the fields in the order in which they take effect,
/// which is speed (position 6), direction and spin (1 and 2), horn (4),
/// servo (8), front reset (16), light (12), fan (14). A body of fewer than
/// seventeen characters is incomplete and does nothing.
pub open spec fn positional(robot: Robot, body: Seq<char>) -> Decoded {
    if body.len() < positional_length() {
        failed(robot, Fault::IncompleteCommand(body))
    } else {
        match speed_field(robot, body[6]) {
            Err(fault) => failed(robot, fault),
            Ok(paced) => match direction_field(paced, body[1], body[2]) {
                Err(fault) => failed(paced, fault),
                Ok(driven) => {
                    let sounded = horn_field(driven, body[4]);
                    match servo_field(sounded, body[8]) {
                        Err(fault) => failed(sounded, fault),
                        Ok(turned) => {
                            let reset = front_reset_field(turned, body[16]);
                            match led_field(reset, body[12]) {
                                Err(fault) => failed(reset, fault),
                                Ok(lit) => done(fan_field(lit, body[14])),
                            }
                        },
                    }
                },
            },
        }
    }
}

// ---------------------------------------------------------------------------
// Legacy grammar: the frame
// ---------------------------------------------------------------------------

/// Whether `line` is ASCII text between the markers `$` and `#`.
pub open spec fn is_marked(line: Seq<char>) -> bool {
    is_ascii_chars(line) && line.len() >= 2 && line[0] == '$' && line.last() == '#'
}

/// The legacy frame `line`. A line that is not marked ASCII text forces
/// the mode `Remote` and is a bad command. Behind `$4WD,` stands a tagged
/// command, else the body is positional.
pub open spec fn legacy_frame(robot: Robot, line: Seq<char>) -> Decoded {
    if !is_marked(line) {
        failed(robot.with_mode(CarModes::Remote), Fault::BadCommand(line))
    } else if has_prefix(line, "$4WD,"@) {
        tagged(robot, line.subrange(5, line.len() - 1))
    } else {
        positional(robot, line.subrange(1, line.len() - 1))
    }
}

// ---------------------------------------------------------------------------
// Extended grammar: the segments
// ---------------------------------------------------------------------------

/// The `CAM` segment. The selector at position 3 decides: `I` centres pan
/// and tilt; `P` pans and `T` tilts, one step for a lone `L` or `R` (pan)
/// or `D` or `U` (tilt) behind it, to the angle behind it otherwise, to
/// the centre with nothing behind it. Any other selector is skipped, and
/// a list of one angle for both axes or of two for pan and tilt follows.
pub open spec fn cam_segment(robot: Robot, piece: Seq<char>) -> Decoded
    recommends
        piece.len() >= 4,
{
    let args = tail(piece, 4);
    if piece[3] == 'I' {
        done(robot.set_camera_pan(None).set_camera_tilt(None))
    } else if piece[3] == 'P' {
        if piece.len() == 5 && piece[4] == 'L' {
            done(robot.camera_pan_left())
        } else if piece.len() == 5 && piece[4] == 'R' {
            done(robot.camera_pan_right())
        } else if piece.len() >= 5 {
            match u8_of(args) {
                Some(angle) => done(robot.set_camera_pan(Some(angle))),
                None => failed(robot, Fault::BadCommandValue(piece)),
            }
        } else {
            done(robot.set_camera_pan(None))
        }
    } else if piece[3] == 'T' {
        if piece.len() == 5 && piece[4] == 'D' {
            done(robot.camera_tilt_down())
        } else if piece.len() == 5 && piece[4] == 'U' {
            done(robot.camera_tilt_up())
        } else if piece.len() >= 5 {
            match u8_of(args) {
                Some(angle) => done(robot.set_camera_tilt(Some(angle))),
                None => failed(robot, Fault::BadCommandValue(piece)),
            }
        } else {
            done(robot.set_camera_tilt(None))
        }
    } else {
        match u8_list(args) {
            Some(angles) => if angles.len() == 1 {
                done(robot.set_camera_pan(Some(angles[0])).set_camera_tilt(Some(angles[0])))
            } else if angles.len() == 2 {
                done(robot.set_camera_pan(Some(angles[0])).set_camera_tilt(Some(angles[1])))
            } else {
                failed(robot, Fault::BadCommandValue(piece))
            },
            None => failed(robot, Fault::BadCommandValue(piece)),
        }
    }
}

/// How long the fan runs to be switched off, in milliseconds: as good as
/// not at all.
pub open spec fn fan_off_blow() -> u64 {
    10
}

/// How long the fan runs when it is switched on, in milliseconds.
pub open spec fn fan_on_blow() -> u64 {
    10_000
}

/// The `FAN` segment. The selector at position 3 decides: `T` toggles the
/// fan, `0` forces it off, `1` runs it for ten seconds.
pub open spec fn fan_segment(robot: Robot, piece: Seq<char>) -> Decoded
    recommends
        piece.len() >= 4,
{
    if piece[3] == 'T' {
        done(robot.toggle_fan())
    } else if piece[3] == '0' {
        done(robot.blow(Some(fan_off_blow())))
    } else if piece[3] == '1' {
        done(robot.blow(Some(fan_on_blow())))
    } else {
        failed(robot, Fault::BadCommandValue(piece))
    }
}

/// The `FRT` segment. The selector at position 3 decides: `I` steers
/// straight ahead, `L` and `R` one step left and right. Any other selector
/// is skipped, and the steering angle follows.
pub open spec fn frt_segment(robot: Robot, piece: Seq<char>) -> Decoded
    recommends
        piece.len() >= 4,
{
    if piece[3] == 'I' {
        done(robot.set_front(None))
    } else if piece[3] == 'L' {
        done(robot.front_left())
    } else if piece[3] == 'R' {
        done(robot.front_right())
    } else {
        match u8_of(tail(piece, 4)) {
            Some(angle) => done(robot.set_front(Some(angle))),
            None => failed(robot, Fault::BadCommandValue(piece)),
        }
    }
}

/// The brightness that a single-channel light segment gives: the number
/// behind the selector, `None` with nothing behind it, and no brightness
/// at all if what stands there cannot be read.
pub open spec fn channel_argument(piece: Seq<char>) -> Option<Option<u8>>
    recommends
        piece.len() >= 4,
{
    if piece.len() > 4 {
        match u8_of(tail(piece, 4)) {
            Some(value) => Some(Some(value)),
            None => None,
        }
    } else {
        Some(None)
    }
}

/// The `LED` segment. The selector at position 3 decides: `B`, `G` and `R`
/// set the blue, green and red lights to the brightness behind it, or to
/// the default; `C` shows the palette colour whose index is the one
/// character behind it. Any other selector is skipped, and a list of one
/// brightness for all colours or of three for red, green and blue
/// follows.
pub open spec fn led_segment(robot: Robot, piece: Seq<char>) -> Decoded
    recommends
        piece.len() >= 4,
{
    if piece[3] == 'B' {
        match channel_argument(piece) {
            Some(value) => done(robot.set_blue(value)),
            None => failed(robot, Fault::BadCommandValue(piece)),
        }
    } else if piece[3] == 'C' {
        if piece.len() == 5 {
            match u8_of(tail(piece, 4)) {
                Some(index) => done(robot.set_color(index)),
                None => failed(robot, Fault::BadCommandValue(piece)),
            }
        } else {
            failed(robot, Fault::BadCommandValue(piece))
        }
    } else if piece[3] == 'G' {
        match channel_argument(piece) {
            Some(value) => done(robot.set_green(value)),
            None => failed(robot, Fault::BadCommandValue(piece)),
        }
    } else if piece[3] == 'R' {
        match channel_argument(piece) {
            Some(value) => done(robot.set_red(value)),
            None => failed(robot, Fault::BadCommandValue(piece)),
        }
    } else {
        match u8_list(tail(piece, 4)) {
            Some(colors) => if colors.len() == 1 {
                done(robot.lights(colors[0], colors[0], colors[0]))
            } else if colors.len() == 3 {
                done(robot.lights(colors[0], colors[1], colors[2]))
            } else {
                failed(robot, Fault::BadCommandValue(piece))
            },
            None => failed(robot, Fault::BadCommandValue(piece)),
        }
    }
}

/// The speed that a single-side or spin segment gives: the number from
/// position `from` on, the session speed with nothing there, and no speed
/// at all if what stands there cannot be read.
pub open spec fn speed_argument(robot: Robot, piece: Seq<char>, from: int) -> Option<int> {
    if piece.len() > from {
        match i8_of(tail(piece, from)) {
            Some(value) => Some(value as int),
            None => None,
        }
    } else {
        Some(robot.motor_speed)
    }
}

/// What an enable flag says: `1` on, `0` off, nothing for any other
/// number.
pub open spec fn enable_flag(value: i8) -> Option<bool> {
    if value == 1 {
        Some(true)
    } else if value == 0 {
        Some(false)
    } else {
        None
    }
}

/// The `MTR` segment. The selector at position 3 decides: `A` and `D`
/// raise and lower the session speed and the speed of each side by one
/// increment and drive on; `E0` and `E1` disable and enable the drive; `L`
/// and `R` drive the left or the right side alone, `SL` and `SR` spin left
/// and right, at the speed behind them or at the session speed. Any other
/// selector is skipped, and a list follows: one enable flag, or the left
/// and the right speed, or both speeds and an enable flag. With three in
/// the list the speeds take effect even where the flag is refused.
pub open spec fn mtr_segment(robot: Robot, piece: Seq<char>) -> Decoded
    recommends
        piece.len() >= 4,
{
    if piece[3] == 'A' {
        done(
            robot.with_speed(faster(robot.motor_speed)).movement(
                accelerated(robot.drive.left),
                accelerated(robot.drive.right),
            ),
        )
    } else if piece[3] == 'D' {
        done(
            robot.with_speed(eased(robot.motor_speed)).movement(
                decelerated(robot.drive.left),
                decelerated(robot.drive.right),
            ),
        )
    } else if piece[3] == 'E' {
        if piece == "MTRE0"@ {
            done(robot.enable(false))
        } else if piece == "MTRE1"@ {
            done(robot.enable(true))
        } else {
            failed(robot, Fault::BadCommandValue(piece))
        }
    } else if piece[3] == 'L' {
        match speed_argument(robot, piece, 4) {
            Some(speed) => done(robot.movement(speed, 0)),
            None => failed(robot, Fault::BadCommandValue(piece)),
        }
    } else if piece[3] == 'R' {
        match speed_argument(robot, piece, 4) {
            Some(speed) => done(robot.movement(0, speed)),
            None => failed(robot, Fault::BadCommandValue(piece)),
        }
    } else if piece[3] == 'S' {
        if piece.len() < 5 {
            failed(robot, Fault::BadCommand(piece))
        } else {
            match speed_argument(robot, piece, 5) {
                None => failed(robot, Fault::BadCommandValue(piece)),
                Some(speed) => if piece[4] == 'L' {
                    done(robot.movement(-speed, speed))
                } else if piece[4] == 'R' {
                    done(robot.movement(speed, -speed))
                } else {
                    failed(robot, Fault::BadCommand(piece))
                },
            }
        }
    } else {
        match i8_list(tail(piece, 4)) {
            Some(speeds) => if speeds.len() == 1 {
                match enable_flag(speeds[0]) {
                    Some(on) => done(robot.enable(on)),
                    None => failed(robot, Fault::BadCommandValue(piece)),
                }
            } else if speeds.len() == 2 {
                done(robot.movement(speeds[0] as int, speeds[1] as int))
            } else if speeds.len() == 3 {
                let moved = robot.movement(speeds[0] as int, speeds[1] as int);
                match enable_flag(speeds[2]) {
                    Some(on) => done(moved.enable(on)),
                    None => failed(moved, Fault::BadCommandValue(piece)),
                }
            } else {
                failed(robot, Fault::BadCommandValue(piece))
            },
            None => failed(robot, Fault::BadCommandValue(piece)),
        }
    }
}

/// One segment. A segment of fewer than four characters is unknown. The
/// first three characters name the actuator; a segment that names none is
/// unknown by its first four characters.
pub open spec fn segment(robot: Robot, piece: Seq<char>) -> Decoded {
    if piece.len() <= 3 {
        failed(robot, Fault::UnknownCommand(piece))
    } else if has_prefix(piece, "CAM"@) {
        cam_segment(robot, piece)
    } else if has_prefix(piece, "FAN"@) {
        fan_segment(robot, piece)
    } else if has_prefix(piece, "FRT"@) {
        frt_segment(robot, piece)
    } else if has_prefix(piece, "LED"@) {
        led_segment(robot, piece)
    } else if has_prefix(piece, "MTR"@) {
        mtr_segment(robot, piece)
    } else {
        failed(robot, Fault::UnknownCommand(piece.subrange(0, 4)))
    }
}

/// The segments `pieces`, from left to right. The first that fails ends
/// the frame: the segments after it are not looked at, and what the
/// segments before it did stays done.
pub open spec fn segments(robot: Robot, pieces: Seq<Seq<char>>) -> Decoded
    decreases pieces.len(),
{
    if pieces.len() == 0 {
        done(robot)
    } else {
        let first = segment(robot, pieces[0]);
        if first.result is Ok {
            segments(first.robot, pieces.drop_first())
        } else {
            first
        }
    }
}

// ---------------------------------------------------------------------------
// Extended grammar: the frame
// ---------------------------------------------------------------------------

/// Whether `line` is ASCII text that opens with `$RR4W,` and closes with
/// `#`.
pub open spec fn is_extended(line: Seq<char>) -> bool {
    is_ascii_chars(line) && has_prefix(line, "$RR4W,"@) && line.len() >= 7 && line.last() == '#'
}

/// The extended frame `line`. A line that does not have the form of one
/// forces the mode `Remote` and is a bad command.
pub open spec fn extended_frame(robot: Robot, line: Seq<char>) -> Decoded {
    if !is_extended(line) {
        failed(robot.with_mode(CarModes::Remote), Fault::BadCommand(line))
    } else {
        segments(robot, split_terminator(line.subrange(6, line.len() - 1), ','))
    }
}

} // verus!
