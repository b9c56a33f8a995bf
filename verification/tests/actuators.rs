use rust_rpi_4wd_car::error::Rr4cError;
use rust_rpi_4wd_car::hids::Hids;
use rust_rpi_4wd_car::motors::Motors;
use rust_rpi_4wd_car::pins::PinOp;
use rust_rpi_4wd_car::sensors::{IrProximity, LineTracking};
use rust_rpi_4wd_car::servos::{Servo, Servos};
use rust_rpi_4wd_car::text::{parse_i8, parse_u8, parse_u8_list, u8_text};

#[test]
fn new_drive_is_at_rest() {
    let motors = Motors::new();
    assert_eq!(motors.speeds(), (0, 0));
    assert!(!motors.is_enabled());
}

#[test]
fn speeds_read_back_the_last_movement() {
    let mut motors = Motors::new();
    for (left, right) in [(50, -50), (0, 1), (-1, 0), (100, -100), (25, 25)] {
        motors.movement(Some(left), Some(right));
        assert_eq!(motors.speeds(), (left, right));
    }
    motors.movement(Some(127), Some(-128));
    assert_eq!(motors.speeds(), (100, -100));
    motors.movement(None, None);
    assert_eq!(motors.speeds(), (50, 50));
}

#[test]
fn movement_sets_direction_by_sign_and_duty_by_magnitude() {
    let mut motors = Motors::new();
    assert_eq!(
        motors.movement(Some(-30), Some(0)),
        vec![
            PinOp::SetLow(20),
            PinOp::SetHigh(21),
            PinOp::SetLow(19),
            PinOp::SetLow(26),
            PinOp::SetDuty { pin: 16, percent: 30 },
            PinOp::SetDuty { pin: 13, percent: 0 },
        ]
    );
}

#[test]
fn brake_stops_and_disables() {
    let mut motors = Motors::new();
    motors.enable(true);
    motors.movement(Some(70), Some(70));
    assert!(motors.is_enabled());
    let ops = motors.brake();
    assert_eq!(ops.len(), 6);
    assert_eq!(motors.speeds(), (0, 0));
    assert!(!motors.is_enabled());
}

#[test]
fn servo_round_trip_and_pulse() {
    let mut servo = Servo::new(5);
    assert_eq!(servo.position(), 90);
    for angle in [0u8, 1, 45, 100, 179, 180] {
        let ops = servo.set_position(Some(angle));
        assert_eq!(servo.position(), angle);
        assert_eq!(
            ops,
            vec![PinOp::SetPwm {
                pin: 5,
                period: 20_000_000,
                pulse: 500_000 + (angle as u64) * 2_000_000 / 180,
            }]
        );
    }
    servo.set_position(Some(255));
    assert_eq!(servo.position(), 180);
    servo.set_position(None);
    assert_eq!(servo.position(), 90);
    assert_eq!(servo.stop(), vec![PinOp::ClearPwm(5)]);
    assert_eq!(servo.position(), 90);
}

#[test]
fn servo_constructors() {
    let mut wide = Servo::new_with_angle_range(1, 250);
    assert_eq!(wide.position(), 120);
    wide.set_position(Some(250));
    assert_eq!(wide.position(), 240);
    let mut narrow = Servo::new_with_angle_range(1, 10);
    assert_eq!(narrow.position(), 15);
    assert_eq!(
        narrow.set_position(Some(30)),
        vec![PinOp::SetPwm { pin: 1, period: 20_000_000, pulse: 2_500_000 }]
    );
    let mut fast = Servo::new_with_frequency(2, 100);
    assert_eq!(
        fast.set_position(Some(0)),
        vec![PinOp::SetPwm { pin: 2, period: 10_000_000, pulse: 500_000 }]
    );
    let mut limited = Servo::new_with_limits(3, Some(1_000_000), Some(2_000_000));
    assert_eq!(
        limited.set_position(Some(0)),
        vec![PinOp::SetPwm { pin: 3, period: 20_000_000, pulse: 1_000_000 }]
    );
    assert_eq!(
        limited.set_position(Some(180)),
        vec![PinOp::SetPwm { pin: 3, period: 20_000_000, pulse: 2_000_000 }]
    );
    let mut all = Servo::new_with_kitchen_sink(4, Some(90), None, Some(1_500_000), Some(200));
    assert_eq!(all.position(), 45);
    assert_eq!(
        all.set_position(Some(90)),
        vec![PinOp::SetPwm { pin: 4, period: 5_000_000, pulse: 1_500_000 }]
    );
}

#[test]
fn servos_step_and_stop() {
    let mut servos = Servos::new();
    assert_eq!((servos.front(), servos.camera_pan(), servos.camera_tilt()), (90, 90, 90));
    servos.front_left();
    servos.camera_pan_right();
    servos.camera_tilt_up();
    assert_eq!((servos.front(), servos.camera_pan(), servos.camera_tilt()), (100, 80, 100));
    servos.front_right();
    servos.camera_pan_left();
    servos.camera_tilt_down();
    assert_eq!((servos.front(), servos.camera_pan(), servos.camera_tilt()), (90, 90, 90));
    servos.set_front(Some(3));
    servos.front_right();
    assert_eq!(servos.front(), 0);
    assert_eq!(
        servos.servos_stop(),
        vec![PinOp::ClearPwm(23), PinOp::ClearPwm(11), PinOp::ClearPwm(9)]
    );
    assert_eq!(servos.servos_init().len(), 3);
    assert_eq!((servos.front(), servos.camera_pan(), servos.camera_tilt()), (90, 90, 90));
}

#[test]
fn lights_and_palette() {
    let mut hids = Hids::new();
    assert_eq!(hids.colors(), (0, 0, 0));
    hids.lights(Some(10), None, Some(250));
    assert_eq!(hids.colors(), (10, 50, 100));
    let expected = [
        (0, 0, 0),
        (100, 100, 100),
        (100, 0, 0),
        (0, 100, 0),
        (0, 0, 100),
        (0, 100, 100),
        (100, 100, 100),
        (100, 100, 0),
        (100, 100, 0),
    ];
    for (index, rgb) in expected.iter().enumerate() {
        hids.set_color(index as u8);
        assert_eq!(hids.colors(), *rgb);
    }
    hids.set_color(255);
    assert_eq!(hids.colors(), (100, 100, 0));
    assert_eq!(hids.set_red(Some(0)), vec![PinOp::ClearPwm(22)]);
    assert_eq!(
        hids.set_green(Some(1)),
        vec![PinOp::SetPwmFrequency { pin: 27, hertz: 300, percent: 1 }]
    );
    assert_eq!(
        hids.set_blue(None),
        vec![PinOp::SetPwmFrequency { pin: 24, hertz: 300, percent: 50 }]
    );
}

#[test]
fn beep_and_blow_lengths() {
    let mut hids = Hids::new();
    assert_eq!(hids.beep(None)[4], PinOp::Pause(100));
    assert_eq!(hids.beep(Some(5))[4], PinOp::Pause(100));
    assert_eq!(hids.beep(Some(2_500))[4], PinOp::Pause(2_500));
    assert_eq!(hids.beep(Some(20_000))[4], PinOp::Pause(10_000));
    assert_eq!(hids.whistle(), hids.beep(None));
    assert_eq!(hids.blow(None)[1], PinOp::Pause(2_000));
    assert_eq!(hids.blow(Some(0))[1], PinOp::Pause(0));
    assert_eq!(hids.blow(Some(90_000))[1], PinOp::Pause(60_000));
    hids.toggle_fan();
    assert!(hids.fan_on());
    hids.blow(Some(1));
    assert!(!hids.fan_on());
}

#[test]
fn sensor_readings_start_clear() {
    let ir = IrProximity::new();
    assert!(!ir.left && !ir.right);
    let line = LineTracking::new();
    assert!(!line.left1 && !line.left2 && !line.right1 && !line.right2);
}

#[test]
fn numerals() {
    assert_eq!(parse_u8("0", 0, 1), Some(0));
    assert_eq!(parse_u8("255", 0, 3), Some(255));
    assert_eq!(parse_u8("256", 0, 3), None);
    assert_eq!(parse_u8("+7", 0, 2), Some(7));
    assert_eq!(parse_u8("-7", 0, 2), None);
    assert_eq!(parse_u8("", 0, 0), None);
    assert_eq!(parse_u8("+", 0, 1), None);
    assert_eq!(parse_u8("00000000000000000000012", 0, 23), Some(12));
    assert_eq!(parse_u8("99999999999999999999999", 0, 23), None);
    assert_eq!(parse_u8("ab12cd", 2, 4), Some(12));
    assert_eq!(parse_i8("-128", 0, 4), Some(-128));
    assert_eq!(parse_i8("-129", 0, 4), None);
    assert_eq!(parse_i8("127", 0, 3), Some(127));
    assert_eq!(parse_i8("128", 0, 3), None);
    assert_eq!(parse_i8("+127", 0, 4), Some(127));
    assert_eq!(parse_i8("-0", 0, 2), Some(0));
    assert_eq!(parse_i8("--1", 0, 3), None);
    assert_eq!(parse_i8("-", 0, 1), None);
    assert_eq!(parse_u8_list("x:1:22:255", 2), Some(vec![1, 22, 255]));
    assert_eq!(parse_u8_list("7", 0), Some(vec![7]));
    assert_eq!(parse_u8_list("", 0), None);
    assert_eq!(parse_u8_list("1::2", 0), None);
    assert_eq!(parse_u8_list("1:2:", 0), None);
}

#[test]
fn numbers_in_text() {
    for n in [0u8, 7, 9, 10, 42, 99, 100, 101, 200, 255] {
        assert_eq!(u8_text(n), n.to_string());
    }
}

#[test]
fn error_messages() {
    let text = "abc".to_string();
    assert_eq!(
        Rr4cError::BadCommand(text.clone()).message(),
        "Was given invalid command: 'abc'"
    );
    assert_eq!(
        Rr4cError::BadCommandValue(text.clone()).message(),
        "Was given bad command value in command: 'abc'"
    );
    assert_eq!(Rr4cError::Gpio(text.clone()).message(), "Gpio access failed");
    assert_eq!(
        Rr4cError::IncompleteCommand(text.clone()).message(),
        "Was given an invalid or incomplete command: 'abc'"
    );
    assert_eq!(Rr4cError::UnknownCommand(text.clone()).message(), "Given unknown command: 'abc'");
    assert_eq!(Rr4cError::UnknownLedCommand(57).message(), "Given unknown led command: '57'");
    assert_eq!(
        Rr4cError::UnknownModeCommand(text).message(),
        "Given unknown mode command: 'abc'"
    );
    assert_eq!(Rr4cError::UnknownMotorCommand(7).message(), "Given unknown motor command '7'");
    assert_eq!(
        Rr4cError::UnknownMotorSpeedCommand(255).message(),
        "Given unknown motor speed command '255'"
    );
    assert_eq!(Rr4cError::UnknownServoCommand(100).message(), "Given unknown servo command '100'");
    assert_eq!(Rr4cError::UnknownSpinCommand(0).message(), "Given unknown spin command '0'");
}
