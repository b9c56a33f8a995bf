use rust_rpi_4wd_car::command::Decoder;
use rust_rpi_4wd_car::error::Rr4cError;
use rust_rpi_4wd_car::pins::PinOp;
use rust_rpi_4wd_car::robot::CarModes;

fn ready() -> Decoder {
    let mut decoder = Decoder::new();
    decoder.take_ops();
    decoder
}

fn value_error(piece: &str) -> Result<(), Rr4cError> {
    Err(Rr4cError::BadCommandValue(piece.to_string()))
}

#[test]
fn short_segment_is_unknown_and_ends_the_frame() {
    let mut decoder = ready();
    assert_eq!(
        decoder.rr_decode("$RR4W,LED#"),
        Err(Rr4cError::UnknownCommand("LED".to_string()))
    );
    assert_eq!(decoder.take_ops(), vec![]);
    assert_eq!(
        decoder.rr_decode("$RR4W,LED,FRT:10#"),
        Err(Rr4cError::UnknownCommand("LED".to_string()))
    );
    assert_eq!(decoder.servos().front(), 90);
    assert_eq!(decoder.take_ops(), vec![]);
}

#[test]
fn segments_before_a_failure_stay_done() {
    let mut decoder = ready();
    assert_eq!(
        decoder.rr_decode("$RR4W,FRT:10,XY,CAM:20#"),
        Err(Rr4cError::UnknownCommand("XY".to_string()))
    );
    assert_eq!(decoder.servos().front(), 10);
    assert_eq!(decoder.servos().camera_pan(), 90);
    assert_eq!(decoder.take_ops().len(), 1);
}

#[test]
fn empty_frame_and_trailing_comma() {
    let mut decoder = ready();
    assert_eq!(decoder.rr_decode("$RR4W,#"), Ok(()));
    assert_eq!(decoder.rr_decode("$RR4W,FRT:10,#"), Ok(()));
    assert_eq!(decoder.servos().front(), 10);
    assert_eq!(
        decoder.rr_decode("$RR4W,,FRT:20#"),
        Err(Rr4cError::UnknownCommand(String::new()))
    );
    assert_eq!(decoder.servos().front(), 10);
}

#[test]
fn unknown_actuator_is_named_by_four_characters() {
    let mut decoder = ready();
    assert_eq!(
        decoder.rr_decode("$RR4W,XYZ123#"),
        Err(Rr4cError::UnknownCommand("XYZ1".to_string()))
    );
}

#[test]
fn malformed_frame_forces_remote() {
    for line in ["", "$RR4W,", "RR4W,FRTI#", "$RR4W,FRTI", "$RR4WFRTI#", "$4WD,PTZ90#", "$RR4W,FRT\u{e9}#"] {
        let mut decoder = ready();
        assert_eq!(decoder.yb_decode("$4WD,MODE51#"), Ok(()));
        decoder.take_ops();
        assert_eq!(decoder.rr_decode(line), Err(Rr4cError::BadCommand(line.to_string())));
        assert_eq!(decoder.mode(), CarModes::Remote);
        assert_eq!(decoder.take_ops(), vec![]);
    }
}

#[test]
fn camera_segments() {
    let mut decoder = ready();
    assert_eq!(decoder.rr_decode("$RR4W,CAM:20:30#"), Ok(()));
    assert_eq!((decoder.servos().camera_pan(), decoder.servos().camera_tilt()), (20, 30));
    assert_eq!(decoder.rr_decode("$RR4W,CAM:40#"), Ok(()));
    assert_eq!((decoder.servos().camera_pan(), decoder.servos().camera_tilt()), (40, 40));
    assert_eq!(decoder.rr_decode("$RR4W,CAMPL#"), Ok(()));
    assert_eq!(decoder.servos().camera_pan(), 50);
    assert_eq!(decoder.rr_decode("$RR4W,CAMPR,CAMPR#"), Ok(()));
    assert_eq!(decoder.servos().camera_pan(), 30);
    assert_eq!(decoder.rr_decode("$RR4W,CAMTU#"), Ok(()));
    assert_eq!(decoder.servos().camera_tilt(), 50);
    assert_eq!(decoder.rr_decode("$RR4W,CAMTD,CAMTD#"), Ok(()));
    assert_eq!(decoder.servos().camera_tilt(), 30);
    assert_eq!(decoder.rr_decode("$RR4W,CAMP120,CAMT60#"), Ok(()));
    assert_eq!((decoder.servos().camera_pan(), decoder.servos().camera_tilt()), (120, 60));
    assert_eq!(decoder.rr_decode("$RR4W,CAMP7#"), Ok(()));
    assert_eq!(decoder.servos().camera_pan(), 7);
    assert_eq!(decoder.rr_decode("$RR4W,CAMP,CAMT#"), Ok(()));
    assert_eq!((decoder.servos().camera_pan(), decoder.servos().camera_tilt()), (90, 90));
    assert_eq!(decoder.rr_decode("$RR4W,CAM:1:2,CAMI#"), Ok(()));
    assert_eq!((decoder.servos().camera_pan(), decoder.servos().camera_tilt()), (90, 90));
}

#[test]
fn camera_step_stops_at_the_ends() {
    let mut decoder = ready();
    assert_eq!(decoder.rr_decode("$RR4W,CAM:175:5,CAMPL,CAMTD#"), Ok(()));
    assert_eq!((decoder.servos().camera_pan(), decoder.servos().camera_tilt()), (180, 0));
}

#[test]
fn tilt_pulse_is_limited() {
    let mut decoder = ready();
    assert_eq!(decoder.rr_decode("$RR4W,CAM:180:180#"), Ok(()));
    assert_eq!(
        decoder.take_ops(),
        vec![
            PinOp::SetPwm { pin: 11, period: 20_000_000, pulse: 2_500_000 },
            PinOp::SetPwm { pin: 9, period: 20_000_000, pulse: 2_000_000 },
        ]
    );
    assert_eq!(decoder.servos().camera_tilt(), 180);
}

#[test]
fn camera_segments_that_fail() {
    for piece in ["CAM:", "CAM:1:2:3", "CAM:a", "CAM:1:", "CAMPx", "CAMPLL", "CAMTx9", "CAMX"] {
        let mut decoder = ready();
        let line = format!("$RR4W,{}#", piece);
        assert_eq!(decoder.rr_decode(&line), value_error(piece));
        assert_eq!(decoder.take_ops(), vec![]);
    }
}

#[test]
fn fan_segments() {
    let mut decoder = ready();
    assert_eq!(decoder.rr_decode("$RR4W,FANT#"), Ok(()));
    assert!(decoder.hids().fan_on());
    assert_eq!(decoder.take_ops(), vec![PinOp::Toggle(2)]);
    assert_eq!(decoder.rr_decode("$RR4W,FAN0#"), Ok(()));
    assert!(!decoder.hids().fan_on());
    assert_eq!(
        decoder.take_ops(),
        vec![PinOp::SetLow(2), PinOp::Pause(10), PinOp::SetHigh(2), PinOp::Pause(100)]
    );
    assert_eq!(decoder.rr_decode("$RR4W,FAN1#"), Ok(()));
    assert_eq!(
        decoder.take_ops(),
        vec![PinOp::SetLow(2), PinOp::Pause(10_000), PinOp::SetHigh(2), PinOp::Pause(100)]
    );
    assert_eq!(decoder.rr_decode("$RR4W,FAN2#"), value_error("FAN2"));
}

#[test]
fn front_segments() {
    let mut decoder = ready();
    assert_eq!(decoder.rr_decode("$RR4W,FRT:45#"), Ok(()));
    assert_eq!(decoder.servos().front(), 45);
    assert_eq!(decoder.rr_decode("$RR4W,FRTL#"), Ok(()));
    assert_eq!(decoder.servos().front(), 55);
    assert_eq!(decoder.rr_decode("$RR4W,FRTR,FRTR#"), Ok(()));
    assert_eq!(decoder.servos().front(), 35);
    assert_eq!(decoder.rr_decode("$RR4W,FRTI#"), Ok(()));
    assert_eq!(decoder.servos().front(), 90);
    assert_eq!(decoder.rr_decode("$RR4W,FRT:#"), value_error("FRT:"));
    assert_eq!(decoder.rr_decode("$RR4W,FRT:x#"), value_error("FRT:x"));
}

#[test]
fn light_segments() {
    let mut decoder = ready();
    assert_eq!(decoder.rr_decode("$RR4W,LED:10:20:30#"), Ok(()));
    assert_eq!(decoder.hids().colors(), (10, 20, 30));
    assert_eq!(decoder.rr_decode("$RR4W,LED:40#"), Ok(()));
    assert_eq!(decoder.hids().colors(), (40, 40, 40));
    assert_eq!(decoder.rr_decode("$RR4W,LEDR75,LEDG,LEDB0#"), Ok(()));
    assert_eq!(decoder.hids().colors(), (75, 50, 0));
    assert_eq!(decoder.rr_decode("$RR4W,LEDR200#"), Ok(()));
    assert_eq!(decoder.hids().colors(), (100, 50, 0));
    assert_eq!(decoder.rr_decode("$RR4W,LEDC4#"), Ok(()));
    assert_eq!(decoder.hids().colors(), (0, 0, 100));
    assert_eq!(decoder.led_color(), 0);
}

#[test]
fn light_segments_that_fail() {
    for piece in ["LEDC", "LEDC12", "LEDCx", "LEDRx", "LED:", "LED:1:2", "LED:1:2:3:4", "LED:300"] {
        let mut decoder = ready();
        let line = format!("$RR4W,{}#", piece);
        assert_eq!(decoder.rr_decode(&line), value_error(piece));
        assert_eq!(decoder.hids().colors(), (0, 0, 0));
    }
}

#[test]
fn drive_lists() {
    let mut decoder = ready();
    assert_eq!(decoder.rr_decode("$RR4W,MTR:30:-40#"), Ok(()));
    assert_eq!(decoder.motors().speeds(), (30, -40));
    assert!(!decoder.motors().is_enabled());
    assert_eq!(decoder.rr_decode("$RR4W,MTR:1#"), Ok(()));
    assert!(decoder.motors().is_enabled());
    assert_eq!(decoder.rr_decode("$RR4W,MTR:0#"), Ok(()));
    assert!(!decoder.motors().is_enabled());
    assert_eq!(decoder.rr_decode("$RR4W,MTR:-50:+60:1#"), Ok(()));
    assert_eq!(decoder.motors().speeds(), (-50, 60));
    assert!(decoder.motors().is_enabled());
    assert_eq!(decoder.rr_decode("$RR4W,MTR:127:-128#"), Ok(()));
    assert_eq!(decoder.motors().speeds(), (100, -100));
}

#[test]
fn drive_list_keeps_the_speeds_where_the_flag_is_refused() {
    let mut decoder = ready();
    assert_eq!(decoder.rr_decode("$RR4W,MTR:10:20:2#"), value_error("MTR:10:20:2"));
    assert_eq!(decoder.motors().speeds(), (10, 20));
    assert_eq!(decoder.take_ops().len(), 6);
}

#[test]
fn drive_segments_that_fail() {
    for piece in ["MTR:2", "MTR:", "MTR:1:2:3:4", "MTR:128:0", "MTRE", "MTRE2", "MTRE01", "MTRLx", "MTRSLx"] {
        let mut decoder = ready();
        let line = format!("$RR4W,{}#", piece);
        assert_eq!(decoder.rr_decode(&line), value_error(piece));
        assert_eq!(decoder.take_ops(), vec![]);
    }
    for piece in ["MTRS", "MTRSX", "MTRSX10"] {
        let mut decoder = ready();
        let line = format!("$RR4W,{}#", piece);
        assert_eq!(decoder.rr_decode(&line), Err(Rr4cError::BadCommand(piece.to_string())));
        assert_eq!(decoder.take_ops(), vec![]);
    }
}

#[test]
fn enable_and_disable() {
    let mut decoder = ready();
    assert_eq!(decoder.rr_decode("$RR4W,MTRE1#"), Ok(()));
    assert!(decoder.motors().is_enabled());
    assert_eq!(decoder.take_ops(), vec![PinOp::EnablePwm(16), PinOp::EnablePwm(13)]);
    assert_eq!(decoder.rr_decode("$RR4W,MTRE0#"), Ok(()));
    assert!(!decoder.motors().is_enabled());
    assert_eq!(decoder.take_ops(), vec![PinOp::DisablePwm(16), PinOp::DisablePwm(13)]);
}

#[test]
fn single_side_and_spin() {
    let mut decoder = ready();
    assert_eq!(decoder.rr_decode("$RR4W,MTRL#"), Ok(()));
    assert_eq!(decoder.motors().speeds(), (25, 0));
    assert_eq!(decoder.rr_decode("$RR4W,MTRR60#"), Ok(()));
    assert_eq!(decoder.motors().speeds(), (0, 60));
    assert_eq!(decoder.rr_decode("$RR4W,MTRL-30#"), Ok(()));
    assert_eq!(decoder.motors().speeds(), (-30, 0));
    assert_eq!(decoder.rr_decode("$RR4W,MTRSL#"), Ok(()));
    assert_eq!(decoder.motors().speeds(), (-25, 25));
    assert_eq!(decoder.rr_decode("$RR4W,MTRSR40#"), Ok(()));
    assert_eq!(decoder.motors().speeds(), (40, -40));
    assert_eq!(decoder.rr_decode("$RR4W,MTRSL-128#"), Ok(()));
    assert_eq!(decoder.motors().speeds(), (100, -100));
    assert_eq!(
        decoder.take_ops()[18..],
        [
            PinOp::SetLow(20),
            PinOp::SetHigh(21),
            PinOp::SetHigh(19),
            PinOp::SetLow(26),
            PinOp::SetDuty { pin: 16, percent: 25 },
            PinOp::SetDuty { pin: 13, percent: 25 },
            PinOp::SetHigh(20),
            PinOp::SetLow(21),
            PinOp::SetLow(19),
            PinOp::SetHigh(26),
            PinOp::SetDuty { pin: 16, percent: 40 },
            PinOp::SetDuty { pin: 13, percent: 40 },
            PinOp::SetHigh(20),
            PinOp::SetLow(21),
            PinOp::SetLow(19),
            PinOp::SetHigh(26),
            PinOp::SetDuty { pin: 16, percent: 100 },
            PinOp::SetDuty { pin: 13, percent: 100 },
        ]
    );
}

#[test]
fn accelerate_and_decelerate() {
    let mut decoder = ready();
    assert_eq!(decoder.rr_decode("$RR4W,MTRA#"), Ok(()));
    assert_eq!(decoder.motor_speed(), 35);
    assert_eq!(decoder.motors().speeds(), (10, 10));
    assert_eq!(decoder.rr_decode("$RR4W,MTR:95:-95,MTRA#"), Ok(()));
    assert_eq!(decoder.motors().speeds(), (100, -100));
    assert_eq!(decoder.motor_speed(), 45);
    assert_eq!(decoder.rr_decode("$RR4W,MTRD#"), Ok(()));
    assert_eq!(decoder.motors().speeds(), (90, -90));
    assert_eq!(decoder.motor_speed(), 35);
    assert_eq!(decoder.rr_decode("$RR4W,MTR:15:-15,MTRD#"), Ok(()));
    assert_eq!(decoder.motors().speeds(), (10, -10));
    assert_eq!(decoder.rr_decode("$RR4W,MTR:0:0,MTRD,MTRD,MTRD,MTRD#"), Ok(()));
    assert_eq!(decoder.motors().speeds(), (0, 0));
    assert_eq!(decoder.motor_speed(), 10);
    for _ in 0..12 {
        assert_eq!(decoder.rr_decode("$RR4W,MTRA#"), Ok(()));
    }
    assert_eq!(decoder.motor_speed(), 100);
    assert_eq!(decoder.motors().speeds(), (100, 100));
}
