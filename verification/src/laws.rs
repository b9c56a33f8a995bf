//! What holds of the grammars whatever the frame and whatever state the car
//! is in.

use vstd::prelude::*;
use crate::error::Fault;
use crate::grammar::{
    cam_segment, fan_segment, frt_segment, led_segment,
    direction_field, done, entered_mode, extended_frame, faster, is_stop_code, legacy_frame,
    mode_command, mtr_segment, positional, segment, segments, slower, speed_field, stopped,
    tagged, tail,
};
use crate::motors::clamp_speed;
use crate::robot::{alert_cycles, CarModes, Robot};
use crate::servos::centred_or;
use crate::text::{has_prefix, i8_list, split_terminator, u8_of};

verus! {

/// Whether two cars differ at most in their lights and in the pin
/// operations issued.
pub open spec fn same_but_lights(a: Robot, b: Robot) -> bool {
    &&& a.mode == b.mode
    &&& a.motor_speed == b.motor_speed
    &&& a.led_color == b.led_color
    &&& a.drive == b.drive
    &&& a.servos == b.servos
    &&& a.hids.fan_on == b.hids.fan_on
}

/// Whether the lights are off.
pub open spec fn lights_off(robot: Robot) -> bool {
    robot.hids.red == 0 && robot.hids.green == 0 && robot.hids.blue == 0
}

/// The number of pin operations of one alert cycle: three for the colour,
/// eight for the beep, three for the lights going off, one for the pause.
pub open spec fn ops_per_alert_cycle() -> nat {
    15
}

/// An alert changes nothing but the lights, which it leaves off. It issues
/// the pin operations of as many cycles as it has, and takes none back.
pub proof fn lemma_alert(robot: Robot, count: nat)
    ensures
        same_but_lights(robot.alert(count), robot),
        count > 0 ==> lights_off(robot.alert(count)),
        robot.alert(count).ops.len() == robot.ops.len() + ops_per_alert_cycle() * count,
        robot.alert(count).ops.subrange(0, robot.ops.len() as int) == robot.ops,
    decreases count,
{
    if count > 0 {
        let before = robot.alert((count - 1) as nat);
        lemma_alert(robot, (count - 1) as nat);
        let after = before.alert_cycle((count - 1) as u8);
        assert(after.ops.len() == before.ops.len() + 15);
        assert(after.ops.subrange(0, robot.ops.len() as int) =~= before.ops.subrange(
            0,
            robot.ops.len() as int,
        ));
        assert(15 * count == 15 * (count - 1) + 15) by (nonlinear_arith);
    } else {
        assert(robot.ops.subrange(0, robot.ops.len() as int) =~= robot.ops);
    }
}

/// A car stopped for safety is in `Remote` mode with the drive at rest and
/// disabled and the lights off; nothing else about it has changed.
pub proof fn lemma_stopped(robot: Robot)
    ensures
        stopped(robot).mode == CarModes::Remote,
        stopped(robot).drive.left == 0,
        stopped(robot).drive.right == 0,
        !stopped(robot).drive.enabled,
        lights_off(stopped(robot)),
        stopped(robot).motor_speed == robot.motor_speed,
        stopped(robot).led_color == robot.led_color,
        stopped(robot).servos == robot.servos,
        stopped(robot).hids.fan_on == robot.hids.fan_on,
{
}

/// The mode table. Each mode code enters its mode and announces it with
/// its number of alert cycles, one for `11` up to six for `61`, and
/// succeeds. Each stop code stops the car and succeeds. Every other code
/// stops the car and fails as an unknown mode command that holds the code.
pub proof fn lemma_mode_table(robot: Robot, code: Seq<char>)
    ensures
        code == seq!['1', '1'] ==> mode_command(robot, code).robot == robot.with_mode(
            CarModes::Remote,
        ).alert(1),
        code == seq!['2', '1'] ==> mode_command(robot, code).robot == robot.with_mode(
            CarModes::Tracking,
        ).alert(2),
        code == seq!['3', '1'] ==> mode_command(robot, code).robot == robot.with_mode(
            CarModes::UltrasonicAvoid,
        ).alert(3),
        code == seq!['4', '1'] ==> mode_command(robot, code).robot == robot.with_mode(
            CarModes::LedColors,
        ).alert(4),
        code == seq!['5', '1'] ==> mode_command(robot, code).robot == robot.with_mode(
            CarModes::LightSeeking,
        ).alert(5),
        code == seq!['6', '1'] ==> mode_command(robot, code).robot == robot.with_mode(
            CarModes::InfraredFollow,
        ).alert(6),
        entered_mode(code) matches Some(mode) ==> {
            &&& mode_command(robot, code).result is Ok
            &&& mode_command(robot, code).robot.mode == mode
            &&& lights_off(mode_command(robot, code).robot)
            &&& mode_command(robot, code).robot.drive == robot.drive
            &&& mode_command(robot, code).robot.ops.len() == robot.ops.len()
                + ops_per_alert_cycle() * alert_cycles(mode)
        },
        is_stop_code(code) ==> mode_command(robot, code) == done(stopped(robot)),
        !is_stop_code(code) && entered_mode(code) is None ==> {
            &&& mode_command(robot, code).result == Err::<(), Fault>(
                Fault::UnknownModeCommand(code),
            )
            &&& mode_command(robot, code).robot == stopped(robot)
        },
        entered_mode(code) is None ==> {
            &&& mode_command(robot, code).robot.mode == CarModes::Remote
            &&& mode_command(robot, code).robot.drive.left == 0
            &&& mode_command(robot, code).robot.drive.right == 0
            &&& lights_off(mode_command(robot, code).robot)
        },
{
    lemma_stopped(robot);
    match entered_mode(code) {
        Some(mode) => {
            lemma_alert(robot.with_mode(mode), alert_cycles(mode));
        },
        None => {},
    }
}

/// A session speed after `count` steps up, or down.
pub open spec fn stepped(speed: int, up: bool, count: nat) -> int
    decreases count,
{
    if count == 0 {
        speed
    } else if up {
        faster(stepped(speed, up, (count - 1) as nat))
    } else {
        slower(stepped(speed, up, (count - 1) as nat))
    }
}

/// The speed field keeps the session speed between 0 and 100 percent, and
/// at either end another step the same way changes nothing.
pub proof fn lemma_speed_field_in_range(robot: Robot, c: char)
    requires
        0 <= robot.motor_speed <= 100,
    ensures
        speed_field(robot, c) matches Ok(after) ==> 0 <= after.motor_speed <= 100,
        faster(100) == 100,
        slower(0) == 0,
        robot.motor_speed == 100 ==> speed_field(robot, '1') == Ok::<Robot, Fault>(robot),
        robot.motor_speed == 0 ==> speed_field(robot, '2') == Ok::<Robot, Fault>(robot),
{
}

/// However many steps up or down it takes, a session speed that began
/// between 0 and 100 percent stays there; and once a step would leave the
/// range, the speed rests at the end of it.
pub proof fn lemma_speed_steps_in_range(speed: int, up: bool, count: nat)
    requires
        0 <= speed <= 100,
    ensures
        0 <= stepped(speed, up, count) <= 100,
        up && speed + 10 * count >= 100 ==> stepped(speed, up, count) == 100,
        !up && speed - 10 * count <= 0 ==> stepped(speed, up, count) == 0,
        up && speed + 10 * count <= 100 ==> stepped(speed, up, count) == speed + 10 * count,
        !up && speed - 10 * count >= 0 ==> stepped(speed, up, count) == speed - 10 * count,
    decreases count,
{
    if count > 0 {
        lemma_speed_steps_in_range(speed, up, (count - 1) as nat);
    }
}

/// In a positional body the direction takes the speed that the speed field
/// of the same body has just set, and none of the later fields touches
/// the drive or the session speed: where both fields are in order, the
/// frame leaves the drive as the direction field leaves it on a car that
/// has the new speed, whether or not a later field fails.
pub proof fn lemma_direction_after_speed(robot: Robot, body: Seq<char>)
    requires
        body.len() >= 17,
        speed_field(robot, body[6]) is Ok,
        direction_field(speed_field(robot, body[6])->Ok_0, body[1], body[2]) is Ok,
    ensures
        ({
            let paced = speed_field(robot, body[6])->Ok_0;
            let driven = direction_field(paced, body[1], body[2])->Ok_0;
            &&& positional(robot, body).robot.drive == driven.drive
            &&& positional(robot, body).robot.motor_speed == paced.motor_speed
            &&& body[6] == '1' && body[1] == '1' && body[2] == '0' ==> {
                &&& positional(robot, body).robot.drive.left == clamp_speed(
                    faster(robot.motor_speed),
                )
                &&& positional(robot, body).robot.drive.right == clamp_speed(
                    faster(robot.motor_speed),
                )
            }
            &&& body[6] == '2' && body[1] == '1' && body[2] == '0' ==> {
                &&& positional(robot, body).robot.drive.left == clamp_speed(
                    slower(robot.motor_speed),
                )
                &&& positional(robot, body).robot.drive.right == clamp_speed(
                    slower(robot.motor_speed),
                )
            }
        }),
{
}

/// What the front angle reads after an accepted steering command is the
/// angle that the command gave, up to 180 degrees; a command that is not
/// accepted leaves the car as it was.
pub proof fn lemma_steer_round_trip(robot: Robot, body: Seq<char>)
    requires
        has_prefix(body, "PTZ"@),
    ensures
        tagged(robot, body).result is Ok <==> u8_of(tail(body, 3)) is Some,
        tagged(robot, body).result is Ok ==> tagged(robot, body).robot.servos.front == centred_or(
            u8_of(tail(body, 3)),
        ),
        tagged(robot, body).result is Err ==> tagged(robot, body).robot == robot,
{
}

/// What the speeds read after an accepted drive list of two is the pair of
/// speeds that the list gave, each within the range of the drive.
pub proof fn lemma_drive_list_round_trip(robot: Robot, piece: Seq<char>, left: i8, right: i8)
    requires
        piece.len() >= 4,
        piece[3] != 'A' && piece[3] != 'D' && piece[3] != 'E' && piece[3] != 'L' && piece[3] != 'R'
            && piece[3] != 'S',
        i8_list(tail(piece, 4)) == Some(seq![left, right]),
    ensures
        mtr_segment(robot, piece).result is Ok,
        mtr_segment(robot, piece).robot.drive.left == clamp_speed(left as int),
        mtr_segment(robot, piece).robot.drive.right == clamp_speed(right as int),
        mtr_segment(robot, piece).robot.drive.enabled == robot.drive.enabled,
        mtr_segment(robot, piece).robot.motor_speed == robot.motor_speed,
{
}

/// No tagged command takes the car out of the states that a decoder can be
/// in.
pub proof fn lemma_tagged_keeps_wf(robot: Robot, body: Seq<char>)
    requires
        robot.wf(),
    ensures
        tagged(robot, body).robot.wf(),
{
    lemma_stopped(robot);
    let code = tail(body, 4);
    match entered_mode(code) {
        Some(mode) => {
            lemma_alert(robot.with_mode(mode), alert_cycles(mode));
        },
        None => {},
    }
}

/// No positional body takes the car out of the states that a decoder can
/// be in: the session speed stays between 0 and 100 percent, each drive
/// speed between -100 and 100 percent, each servo angle between 0 and 180
/// degrees.
pub proof fn lemma_positional_keeps_wf(robot: Robot, body: Seq<char>)
    requires
        robot.wf(),
    ensures
        positional(robot, body).robot.wf(),
{
}

/// No legacy frame takes the car out of the states that a decoder can be
/// in.
pub proof fn lemma_legacy_frame_keeps_wf(robot: Robot, line: Seq<char>)
    requires
        robot.wf(),
    ensures
        legacy_frame(robot, line).robot.wf(),
{
    lemma_tagged_keeps_wf(robot, line.subrange(5, line.len() - 1));
    lemma_positional_keeps_wf(robot, line.subrange(1, line.len() - 1));
}

/// No camera segment takes the car out of the states that a decoder can
/// be in.
pub proof fn lemma_cam_segment_keeps_wf(robot: Robot, piece: Seq<char>)
    requires
        robot.wf(),
    ensures
        cam_segment(robot, piece).robot.wf(),
{
}

/// No steering segment takes the car out of the states that a decoder can
/// be in.
pub proof fn lemma_frt_segment_keeps_wf(robot: Robot, piece: Seq<char>)
    requires
        robot.wf(),
    ensures
        frt_segment(robot, piece).robot.wf(),
{
}

/// No light or fan segment touches what makes a state one that a decoder
/// can be in.
pub proof fn lemma_led_and_fan_segments_keep_wf(robot: Robot, piece: Seq<char>)
    requires
        robot.wf(),
    ensures
        led_segment(robot, piece).robot.wf(),
        fan_segment(robot, piece).robot.wf(),
{
}

/// No drive segment takes the car out of the states that a decoder can be
/// in: the session speed stays between 0 and 100 percent and each drive
/// speed between -100 and 100 percent.
pub proof fn lemma_mtr_segment_keeps_wf(robot: Robot, piece: Seq<char>)
    requires
        robot.wf(),
    ensures
        mtr_segment(robot, piece).robot.wf(),
{
}

/// No segment takes the car out of the states that a decoder can be in.
pub proof fn lemma_segment_keeps_wf(robot: Robot, piece: Seq<char>)
    requires
        robot.wf(),
    ensures
        segment(robot, piece).robot.wf(),
{
    lemma_cam_segment_keeps_wf(robot, piece);
    lemma_frt_segment_keeps_wf(robot, piece);
    lemma_led_and_fan_segments_keep_wf(robot, piece);
    lemma_mtr_segment_keeps_wf(robot, piece);
}

/// No list of segments takes the car out of the states that a decoder can
/// be in.
pub proof fn lemma_segments_keep_wf(robot: Robot, pieces: Seq<Seq<char>>)
    requires
        robot.wf(),
    ensures
        segments(robot, pieces).robot.wf(),
    decreases pieces.len(),
{
    if pieces.len() > 0 {
        lemma_segment_keeps_wf(robot, pieces[0]);
        let first = segment(robot, pieces[0]);
        if first.result is Ok {
            lemma_segments_keep_wf(first.robot, pieces.drop_first());
        }
    }
}

/// No extended frame takes the car out of the states that a decoder can be
/// in.
pub proof fn lemma_extended_frame_keeps_wf(robot: Robot, line: Seq<char>)
    requires
        robot.wf(),
    ensures
        extended_frame(robot, line).robot.wf(),
{
    lemma_segments_keep_wf(
        robot,
        split_terminator(line.subrange(6, line.len() - 1), ','),
    );
}

/// A new decoder is in a state that a decoder can be in.
pub proof fn lemma_initial_wf()
    ensures
        Robot::initial().wf(),
{
}

/// A segment that fails for want of four characters, and a frame that
/// opens with one, do nothing at all: the car stays as it was, and no
/// later segment is looked at.
pub proof fn lemma_short_segment_ends_the_frame(robot: Robot, pieces: Seq<Seq<char>>)
    requires
        pieces.len() > 0,
        pieces[0].len() <= 3,
    ensures
        segments(robot, pieces).result == Err::<(), Fault>(Fault::UnknownCommand(pieces[0])),
        segments(robot, pieces).robot == robot,
{
}

} // verus!
