use rust_rpi_4wd_car::hids::Hids;
use rust_rpi_4wd_car::pins::PinOp;
use rust_rpi_4wd_car::sensors::{CircularQueue, IrProximity, LineTracking, Sensors, Sonar, Ultrasonic};
use rust_rpi_4wd_car::text::i16_text;

#[test]
fn queue_keeps_the_six_latest_readings() {
    let mut queue = CircularQueue::new();
    assert_eq!(queue.len(), 0);
    assert_eq!(queue.pop(), None);
    for reading in 1..=8u32 {
        queue.push(reading);
    }
    assert_eq!(queue.len(), 6);
    for reading in 3..=8u32 {
        assert_eq!(queue.pop(), Some(reading));
    }
    assert_eq!(queue.pop(), None);
    assert_eq!(queue.len(), 0);
}

#[test]
fn queue_hands_readings_out_in_the_order_they_came() {
    let mut queue = CircularQueue::new();
    queue.push(10);
    queue.push(20);
    assert_eq!(queue.pop(), Some(10));
    queue.push(30);
    for reading in [40u32, 50, 60, 70] {
        queue.push(reading);
    }
    assert_eq!(queue.len(), 6);
    assert_eq!(queue.pop(), Some(20));
    queue.push(80);
    queue.push(90);
    assert_eq!(queue.pop(), Some(40));
    assert_eq!(queue.len(), 5);
}

#[test]
fn echo_length_is_the_time_between_rise_and_fall() {
    let mut ultrasonic = Ultrasonic::new();
    assert_eq!(ultrasonic.edge(false, 50), None);
    assert_eq!(ultrasonic.edge(true, 100), None);
    assert_eq!(ultrasonic.edge(false, 350), Some(250));
    assert_eq!(ultrasonic.edge(false, 400), None);
    assert_eq!(ultrasonic.edge(true, 500), None);
    assert_eq!(ultrasonic.edge(true, 600), None);
    assert_eq!(ultrasonic.edge(false, 600), Some(0));
    assert_eq!(ultrasonic.edge(true, 900), None);
    assert_eq!(ultrasonic.edge(false, 800), None);
    assert_eq!(ultrasonic.edge(false, 1000), None);
    ultrasonic.push(7);
    assert_eq!(ultrasonic.pop(), Some(7));
    assert_eq!(ultrasonic.pop(), None);
}

#[test]
fn sonar_pings_unless_it_pings_by_itself() {
    let mut sonar = Sonar::new();
    assert_eq!(
        sonar.ping(),
        vec![
            PinOp::SetHigh(1),
            PinOp::PauseMicros(10),
            PinOp::SetLow(1),
            PinOp::PauseMicros(2),
        ]
    );
    assert_eq!(sonar.set_sonar_active(true), vec![PinOp::EnablePwm(1)]);
    assert_eq!(sonar.ping(), vec![]);
    assert_eq!(sonar.set_sonar_active(false), vec![PinOp::DisablePwm(1)]);
    assert_eq!(sonar.ping().len(), 4);
    assert_eq!(sonar.distance(), None);
    assert_eq!(sonar.edge(true, 5), None);
    assert_eq!(sonar.edge(false, 9), Some(4));
    sonar.push(42);
    sonar.push(43);
    assert_eq!(sonar.distance(), Some(42));
    assert_eq!(sonar.distance(), Some(43));
    assert_eq!(sonar.distance(), None);
}

#[test]
fn reports_of_the_sensors() {
    let mut sensors = Sensors::new();
    assert_eq!(sensors.as_rr_postback(-1), "$RR4W,SNR-1,LNF0:0:0:0,IRP0:0,LDR0:0#");
    assert_eq!(sensors.as_yb_postback(-1), "$4WD,CSB-1,PV8.3,GS0,LF0000,HW00,GM00#");
    sensors.set_ir_proximity(IrProximity { left: false, right: true });
    sensors.set_ldr_tracking(true, false);
    sensors.set_line_tracking(LineTracking {
        left1: true,
        left2: false,
        right1: false,
        right2: true,
    });
    assert_eq!(sensors.ir_proximity(), (false, true));
    assert_eq!(sensors.ldr_tracking(), (true, false));
    assert_eq!(sensors.line_tracking(), (true, false, false, true));
    assert_eq!(sensors.as_rr_postback(123), "$RR4W,SNR123,LNF1:0:0:1,IRP0:1,LDR1:0#");
    assert_eq!(sensors.as_yb_postback(7), "$4WD,CSB7,PV8.3,GS0,LF1001,HW01,GM10#");
    assert_eq!(sensors.sonar_active(true), vec![PinOp::EnablePwm(1)]);
    assert_eq!(sensors.sonar_ping(), vec![]);
    assert_eq!(sensors.sonar_edge(true, 1_000), None);
    assert_eq!(sensors.sonar_edge(false, 3_500), Some(2_500));
    sensors.sonar_push(99);
    assert_eq!(sensors.sonar_distance(), Some(99));
    assert_eq!(sensors.sonar_distance(), None);
    assert_eq!(sensors.ir_proximity(), (false, true));
}

#[test]
fn signed_numbers_in_text() {
    for n in [i16::MIN, -1000, -10, -1, 0, 1, 9, 10, 12345, i16::MAX] {
        assert_eq!(i16_text(n), n.to_string());
    }
}

#[test]
fn key_counts_as_pressed_after_eight_low_samples() {
    let mut hids = Hids::new();
    for _ in 0..6 {
        assert!(!hids.key_press(true));
    }
    assert!(hids.key_press(true));
    for _ in 0..6 {
        assert!(!hids.key_press(true));
    }
    assert!(hids.key_press(true));
}

#[test]
fn key_bounce_starts_the_count_again() {
    let mut hids = Hids::new();
    for _ in 0..5 {
        assert!(!hids.key_press(true));
    }
    assert!(!hids.key_press(false));
    for _ in 0..7 {
        assert!(!hids.key_press(true));
    }
    assert!(hids.key_press(true));
    for _ in 0..20 {
        assert!(!hids.key_press(false));
    }
    for _ in 0..7 {
        assert!(!hids.key_press(true));
    }
    assert!(hids.key_press(true));
}
