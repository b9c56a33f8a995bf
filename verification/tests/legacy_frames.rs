use rust_rpi_4wd_car::command::Decoder;
use rust_rpi_4wd_car::error::Rr4cError;
use rust_rpi_4wd_car::pins::PinOp;
use rust_rpi_4wd_car::robot::CarModes;

fn fresh() -> Decoder {
    let mut decoder = Decoder::new();
    decoder.take_ops();
    decoder
}

fn lights_off() -> Vec<PinOp> {
    vec![PinOp::ClearPwm(22), PinOp::ClearPwm(27), PinOp::ClearPwm(24)]
}

fn beep(millis: u64) -> Vec<PinOp> {
    vec![
        PinOp::SetOutput(8),
        PinOp::SetHigh(8),
        PinOp::Pause(10),
        PinOp::SetLow(8),
        PinOp::Pause(millis),
        PinOp::SetHigh(8),
        PinOp::Pause(10),
        PinOp::SetInput(8),
    ]
}

fn brake() -> Vec<PinOp> {
    vec![
        PinOp::SetLow(20),
        PinOp::SetLow(21),
        PinOp::SetLow(19),
        PinOp::SetLow(26),
        PinOp::ClearPwm(16),
        PinOp::ClearPwm(13),
    ]
}

fn red_flash() -> Vec<PinOp> {
    let mut ops = vec![
        PinOp::SetPwmFrequency { pin: 22, hertz: 300, percent: 100 },
        PinOp::ClearPwm(27),
        PinOp::ClearPwm(24),
    ];
    ops.extend(beep(1000));
    ops.extend(lights_off());
    ops
}

fn channel(pin: u8, percent: u8) -> PinOp {
    if percent == 0 {
        PinOp::ClearPwm(pin)
    } else {
        PinOp::SetPwmFrequency { pin, hertz: 300, percent }
    }
}

fn colour(index: usize) -> Vec<PinOp> {
    let palette: [(u8, u8, u8); 8] = [
        (0, 0, 0),
        (100, 100, 100),
        (100, 0, 0),
        (0, 100, 0),
        (0, 0, 100),
        (0, 100, 100),
        (100, 100, 100),
        (100, 100, 0),
    ];
    let (r, g, b) = palette[index];
    vec![channel(22, r), channel(27, g), channel(24, b)]
}

fn forward(left: u8, right: u8) -> Vec<PinOp> {
    vec![
        PinOp::SetHigh(20),
        PinOp::SetLow(21),
        PinOp::SetHigh(19),
        PinOp::SetLow(26),
        PinOp::SetDuty { pin: 16, percent: left },
        PinOp::SetDuty { pin: 13, percent: right },
    ]
}

#[test]
fn new_decoder_centres_the_servos() {
    let mut decoder = Decoder::new();
    assert_eq!(decoder.mode(), CarModes::Remote);
    assert_eq!(decoder.motor_speed(), 25);
    assert_eq!(decoder.led_color(), 0);
    assert_eq!(decoder.motors().speeds(), (0, 0));
    assert_eq!(decoder.servos().front(), 90);
    assert_eq!(decoder.servos().camera_pan(), 90);
    assert_eq!(decoder.servos().camera_tilt(), 90);
    assert_eq!(
        decoder.take_ops(),
        vec![
            PinOp::SetPwm { pin: 11, period: 20_000_000, pulse: 1_500_000 },
            PinOp::SetPwm { pin: 9, period: 20_000_000, pulse: 1_500_000 },
            PinOp::SetPwm { pin: 23, period: 20_000_000, pulse: 1_500_000 },
        ]
    );
    assert_eq!(decoder.take_ops(), vec![]);
}

#[test]
fn steering_command_sets_the_front_angle() {
    let mut decoder = fresh();
    assert_eq!(decoder.yb_decode("$4WD,PTZ135#"), Ok(()));
    assert_eq!(decoder.servos().front(), 135);
    assert_eq!(decoder.servos().camera_pan(), 90);
    assert_eq!(
        decoder.take_ops(),
        vec![PinOp::SetPwm { pin: 23, period: 20_000_000, pulse: 2_000_000 }]
    );
}

#[test]
fn steering_command_accepts_a_plus_sign_and_leading_zeros() {
    let mut decoder = fresh();
    assert_eq!(decoder.yb_decode("$4WD,PTZ+045#"), Ok(()));
    assert_eq!(decoder.servos().front(), 45);
}

#[test]
fn steering_angle_beyond_the_range_counts_as_its_end() {
    let mut decoder = fresh();
    assert_eq!(decoder.yb_decode("$4WD,PTZ200#"), Ok(()));
    assert_eq!(decoder.servos().front(), 180);
    assert_eq!(
        decoder.take_ops(),
        vec![PinOp::SetPwm { pin: 23, period: 20_000_000, pulse: 2_500_000 }]
    );
}

#[test]
fn steering_command_refuses_what_is_no_number() {
    for body in ["PTZ", "PTZabc", "PTZ256", "PTZ-1", "PTZ+", "PTZ1 "] {
        let mut decoder = fresh();
        let line = format!("$4WD,{}#", body);
        assert_eq!(
            decoder.yb_decode(&line),
            Err(Rr4cError::BadCommandValue(body.to_string()))
        );
        assert_eq!(decoder.servos().front(), 90);
        assert_eq!(decoder.take_ops(), vec![]);
    }
}

#[test]
fn colour_command_scales_bytes_to_percent() {
    let mut decoder = fresh();
    assert_eq!(decoder.yb_decode("$4WD,CLR255,CLG128,CLB0#"), Ok(()));
    assert_eq!(decoder.hids().colors(), (100, 50, 0));
    assert_eq!(
        decoder.take_ops(),
        vec![
            PinOp::SetPwmFrequency { pin: 22, hertz: 300, percent: 100 },
            PinOp::SetPwmFrequency { pin: 27, hertz: 300, percent: 50 },
            PinOp::ClearPwm(24),
        ]
    );
}

#[test]
fn colour_command_rounds_down() {
    let mut decoder = fresh();
    assert_eq!(decoder.yb_decode("$4WD,CLR254,CLG3,CLB2#"), Ok(()));
    assert_eq!(decoder.hids().colors(), (99, 1, 0));
}

#[test]
fn colour_command_without_a_marker_is_a_bad_command() {
    for body in ["CLR", "CLR1", "CLR1,CLB2", "CLR1,CLG2", "CLR1,CLG2,CLG3"] {
        let mut decoder = fresh();
        let line = format!("$4WD,{}#", body);
        assert_eq!(decoder.yb_decode(&line), Err(Rr4cError::BadCommand(body.to_string())));
        assert_eq!(decoder.take_ops(), vec![]);
    }
}

#[test]
fn colour_command_with_a_bad_value_is_a_bad_command_value() {
    for body in [
        "CLRx,CLG2,CLB3",
        "CLR,CLG2,CLB3",
        "CLR1,CLGx,CLB3",
        "CLR1,CLG2,CLB",
        "CLR1,CLG2,CLB300",
        "CLRx,CLG2",
        "CLR1,CLB2,CLG3",
    ] {
        let mut decoder = fresh();
        let line = format!("$4WD,{}#", body);
        assert_eq!(
            decoder.yb_decode(&line),
            Err(Rr4cError::BadCommandValue(body.to_string()))
        );
        assert_eq!(decoder.hids().colors(), (0, 0, 0));
        assert_eq!(decoder.take_ops(), vec![]);
    }
}

#[test]
fn mode_eleven_enters_remote_with_one_alert_cycle() {
    let mut decoder = fresh();
    assert_eq!(decoder.yb_decode("$4WD,MODE11#"), Ok(()));
    assert_eq!(decoder.mode(), CarModes::Remote);
    let mut expected = colour(0);
    expected.extend(beep(200));
    expected.extend(lights_off());
    expected.push(PinOp::Pause(200));
    assert_eq!(decoder.take_ops(), expected);
}

#[test]
fn each_mode_code_enters_its_mode_with_its_number_of_cycles() {
    let table = [
        ("11", CarModes::Remote, 1),
        ("21", CarModes::Tracking, 2),
        ("31", CarModes::UltrasonicAvoid, 3),
        ("41", CarModes::LedColors, 4),
        ("51", CarModes::LightSeeking, 5),
        ("61", CarModes::InfraredFollow, 6),
    ];
    for (code, mode, cycles) in table {
        let mut decoder = fresh();
        let line = format!("$4WD,MODE{}#", code);
        assert_eq!(decoder.yb_decode(&line), Ok(()));
        assert_eq!(decoder.mode(), mode);
        let mut expected = Vec::new();
        for i in 0..cycles {
            expected.extend(colour(i));
            expected.extend(beep(200));
            expected.extend(lights_off());
            expected.push(PinOp::Pause(200));
        }
        assert_eq!(decoder.take_ops(), expected);
        assert_eq!(decoder.hids().colors(), (0, 0, 0));
    }
}

#[test]
fn stop_codes_brake_and_flash_red() {
    for code in ["00", "10", "20", "30", "40", "50", "60"] {
        let mut decoder = fresh();
        assert_eq!(decoder.yb_decode("$4WD,MODE41#"), Ok(()));
        assert_eq!(decoder.yb_decode("$01000000000000000#"), Ok(()));
        decoder.take_ops();
        let line = format!("$4WD,MODE{}#", code);
        assert_eq!(decoder.yb_decode(&line), Ok(()));
        assert_eq!(decoder.mode(), CarModes::Remote);
        assert_eq!(decoder.motors().speeds(), (0, 0));
        assert_eq!(decoder.hids().colors(), (0, 0, 0));
        let mut expected = brake();
        expected.extend(red_flash());
        assert_eq!(decoder.take_ops(), expected);
    }
}

#[test]
fn unknown_mode_code_stops_the_car_and_fails() {
    let mut decoder = fresh();
    assert_eq!(decoder.yb_decode("$4WD,MODE31#"), Ok(()));
    assert_eq!(decoder.yb_decode("$01000000000000000#"), Ok(()));
    decoder.take_ops();
    assert_eq!(
        decoder.yb_decode("$4WD,MODE99#"),
        Err(Rr4cError::UnknownModeCommand("99".to_string()))
    );
    assert_eq!(decoder.mode(), CarModes::Remote);
    assert_eq!(decoder.motors().speeds(), (0, 0));
    assert_eq!(decoder.hids().colors(), (0, 0, 0));
    let mut expected = brake();
    expected.extend(red_flash());
    assert_eq!(decoder.take_ops(), expected);
}

#[test]
fn mode_codes_of_another_length_are_unknown() {
    for code in ["", "1", "111", "70", "71", "12", "a1"] {
        let mut decoder = fresh();
        let line = format!("$4WD,MODE{}#", code);
        assert_eq!(
            decoder.yb_decode(&line),
            Err(Rr4cError::UnknownModeCommand(code.to_string()))
        );
        assert_eq!(decoder.mode(), CarModes::Remote);
    }
}

#[test]
fn unknown_tag_is_an_unknown_command() {
    let mut decoder = fresh();
    assert_eq!(
        decoder.yb_decode("$4WD,XYZ1#"),
        Err(Rr4cError::UnknownCommand("XYZ1".to_string()))
    );
    assert_eq!(decoder.yb_decode("$4WD,#"), Err(Rr4cError::UnknownCommand(String::new())));
    assert_eq!(decoder.take_ops(), vec![]);
}

#[test]
fn line_without_markers_forces_remote() {
    for line in ["", "$", "#", "4WD,PTZ90#", "$4WD,PTZ90", "$4WD,", "#4WD,PTZ90$", "$4WD,PTZ9\u{e9}#"] {
        let mut decoder = fresh();
        assert_eq!(decoder.yb_decode("$4WD,MODE21#"), Ok(()));
        decoder.take_ops();
        assert_eq!(decoder.mode(), CarModes::Tracking);
        assert_eq!(decoder.yb_decode(line), Err(Rr4cError::BadCommand(line.to_string())));
        assert_eq!(decoder.mode(), CarModes::Remote);
        assert_eq!(decoder.take_ops(), vec![]);
    }
}

#[test]
fn positional_forward_at_the_session_speed() {
    let mut decoder = fresh();
    assert_eq!(decoder.yb_decode("$01000000000000000#"), Ok(()));
    assert_eq!(decoder.motors().speeds(), (25, 25));
    assert_eq!(decoder.motor_speed(), 25);
    assert_eq!(decoder.servos().front(), 90);
    assert_eq!(decoder.servos().camera_pan(), 90);
    assert_eq!(decoder.servos().camera_tilt(), 90);
    assert_eq!(decoder.hids().colors(), (0, 0, 0));
    assert!(!decoder.hids().fan_on());
    assert_eq!(decoder.led_color(), 0);
    let mut expected = forward(25, 25);
    expected.extend(lights_off());
    assert_eq!(decoder.take_ops(), expected);
}

#[test]
fn positional_body_too_short_is_incomplete() {
    for body in ["", "0", "0100000000000000"] {
        let mut decoder = fresh();
        let line = format!("${}#", body);
        assert_eq!(
            decoder.yb_decode(&line),
            Err(Rr4cError::IncompleteCommand(body.to_string()))
        );
        assert_eq!(decoder.mode(), CarModes::Remote);
        assert_eq!(decoder.take_ops(), vec![]);
    }
}

#[test]
fn positional_body_may_be_longer_and_hold_anything_in_unused_places() {
    let mut decoder = fresh();
    assert_eq!(decoder.yb_decode("$x10x0x0x0xxx0x0x0trailing#"), Ok(()));
    assert_eq!(decoder.motors().speeds(), (25, 25));
}

#[test]
fn direction_uses_the_speed_that_the_same_frame_set() {
    let mut decoder = fresh();
    assert_eq!(decoder.yb_decode("$01000010000000000#"), Ok(()));
    assert_eq!(decoder.motor_speed(), 35);
    assert_eq!(decoder.motors().speeds(), (35, 35));
    assert_eq!(decoder.yb_decode("$02000020000000000#"), Ok(()));
    assert_eq!(decoder.motor_speed(), 25);
    assert_eq!(decoder.motors().speeds(), (-25, -25));
}

#[test]
fn speed_stays_within_zero_and_a_hundred() {
    let mut decoder = fresh();
    for _ in 0..20 {
        assert_eq!(decoder.yb_decode("$00000010000000000#"), Ok(()));
        assert!(decoder.motor_speed() <= 100);
    }
    assert_eq!(decoder.motor_speed(), 100);
    assert_eq!(decoder.yb_decode("$00000010000000000#"), Ok(()));
    assert_eq!(decoder.motor_speed(), 100);
    for _ in 0..20 {
        assert_eq!(decoder.yb_decode("$00000020000000000#"), Ok(()));
        assert!(decoder.motor_speed() >= 0);
    }
    assert_eq!(decoder.motor_speed(), 0);
    assert_eq!(decoder.yb_decode("$00000020000000000#"), Ok(()));
    assert_eq!(decoder.motor_speed(), 0);
}

#[test]
fn each_direction_drives_as_the_table_says() {
    let table = [
        ("00", (0, 0)),
        ("10", (25, 25)),
        ("20", (-25, -25)),
        ("30", (0, 25)),
        ("40", (25, 0)),
        ("50", (0, -25)),
        ("60", (-25, 0)),
        ("01", (-25, 25)),
        ("91", (-25, 25)),
        ("02", (25, -25)),
    ];
    for (fields, speeds) in table {
        let mut decoder = fresh();
        let line = format!("$0{}00000000000000#", fields);
        assert_eq!(decoder.yb_decode(&line), Ok(()));
        assert_eq!(decoder.motors().speeds(), speeds);
    }
}

#[test]
fn positional_errors_carry_the_character_and_keep_what_was_done() {
    let mut decoder = fresh();
    assert_eq!(
        decoder.yb_decode("$01000030000000000#"),
        Err(Rr4cError::UnknownMotorSpeedCommand(b'3'))
    );
    assert_eq!(decoder.motors().speeds(), (0, 0));
    assert_eq!(decoder.take_ops(), vec![]);

    assert_eq!(
        decoder.yb_decode("$07000010000000000#"),
        Err(Rr4cError::UnknownMotorCommand(b'7'))
    );
    assert_eq!(decoder.motor_speed(), 35);
    assert_eq!(decoder.take_ops(), vec![]);

    assert_eq!(
        decoder.yb_decode("$01300000000000000#"),
        Err(Rr4cError::UnknownSpinCommand(b'3'))
    );
    assert_eq!(decoder.take_ops(), vec![]);

    assert_eq!(
        decoder.yb_decode("$01001000a00000000#"),
        Err(Rr4cError::UnknownServoCommand(b'a'))
    );
    assert_eq!(decoder.motors().speeds(), (35, 35));
    let mut expected = forward(35, 35);
    expected.extend(beep(100));
    assert_eq!(decoder.take_ops(), expected);

    assert_eq!(
        decoder.yb_decode("$0000000010009000000#"),
        Err(Rr4cError::UnknownLedCommand(b'9'))
    );
    assert_eq!(decoder.servos().front(), 100);
    assert_eq!(decoder.led_color(), 0);
}

#[test]
fn servo_field_moves_the_servos() {
    let table: [(char, (u8, u8, u8)); 10] = [
        ('0', (80, 70, 60)),
        ('1', (90, 70, 60)),
        ('2', (70, 70, 60)),
        ('3', (80, 70, 70)),
        ('4', (80, 70, 50)),
        ('5', (80, 70, 90)),
        ('6', (80, 80, 60)),
        ('7', (80, 60, 60)),
        ('8', (80, 90, 60)),
        ('9', (90, 70, 60)),
    ];
    for (field, (front, pan, tilt)) in table {
        let mut decoder = fresh();
        assert_eq!(decoder.rr_decode("$RR4W,FRT:80,CAM:70:60#"), Ok(()));
        let line = format!("$00000000{}00000000#", field);
        assert_eq!(decoder.yb_decode(&line), Ok(()));
        assert_eq!(decoder.servos().front(), front);
        assert_eq!(decoder.servos().camera_pan(), pan);
        assert_eq!(decoder.servos().camera_tilt(), tilt);
    }
}

#[test]
fn front_reset_field_steers_straight() {
    let mut decoder = fresh();
    assert_eq!(decoder.yb_decode("$4WD,PTZ10#"), Ok(()));
    assert_eq!(decoder.yb_decode("$00000000000000001#"), Ok(()));
    assert_eq!(decoder.servos().front(), 90);
}

#[test]
fn light_field_sets_or_advances_the_palette_index() {
    let mut decoder = fresh();
    assert_eq!(decoder.yb_decode("$00000000000050000#"), Ok(()));
    assert_eq!(decoder.led_color(), 5);
    assert_eq!(decoder.hids().colors(), (0, 100, 100));
    assert_eq!(decoder.yb_decode("$00000000000010000#"), Ok(()));
    assert_eq!(decoder.led_color(), 6);
    assert_eq!(decoder.hids().colors(), (100, 100, 100));
    assert_eq!(decoder.yb_decode("$00000000000010000#"), Ok(()));
    assert_eq!(decoder.led_color(), 7);
    assert_eq!(decoder.hids().colors(), (100, 100, 0));
    assert_eq!(decoder.yb_decode("$00000000000010000#"), Ok(()));
    assert_eq!(decoder.led_color(), 8);
    assert_eq!(decoder.hids().colors(), (100, 100, 0));
    assert_eq!(decoder.yb_decode("$00000000000080000#"), Ok(()));
    assert_eq!(decoder.led_color(), 0);
    assert_eq!(decoder.hids().colors(), (0, 0, 0));
}

#[test]
fn palette_index_starts_over_after_the_largest_byte() {
    let mut decoder = fresh();
    for _ in 0..255 {
        assert_eq!(decoder.yb_decode("$00000000000010000#"), Ok(()));
    }
    assert_eq!(decoder.led_color(), 255);
    assert_eq!(decoder.yb_decode("$00000000000010000#"), Ok(()));
    assert_eq!(decoder.led_color(), 0);
    assert_eq!(decoder.hids().colors(), (0, 0, 0));
}

#[test]
fn horn_and_fan_fields() {
    let mut decoder = fresh();
    assert_eq!(decoder.yb_decode("$00001000000000100#"), Ok(()));
    assert!(decoder.hids().fan_on());
    let mut expected = brake();
    expected.extend(beep(100));
    expected.extend(lights_off());
    expected.push(PinOp::Toggle(2));
    assert_eq!(decoder.take_ops(), expected);
    assert_eq!(decoder.yb_decode("$00000000000000100#"), Ok(()));
    assert!(!decoder.hids().fan_on());
}

#[test]
fn alert_mode_announces_the_given_or_the_current_mode() {
    let mut decoder = fresh();
    decoder.alert_mode(Some(CarModes::Tracking));
    assert_eq!(decoder.mode(), CarModes::Remote);
    assert_eq!(decoder.take_ops().len(), 2 * (3 + 8 + 3 + 1));
    decoder.alert_mode(None);
    assert_eq!(decoder.take_ops().len(), 3 + 8 + 3 + 1);
}
