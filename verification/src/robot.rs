//! The car as contracts speak of it: the session state of the decoder, what
//! each actuator has been told, and the pin operations issued so far.
//!
//! Every step that a command can take is a function from one `Robot` to the
//! next. The grammars in `crate::grammar` are built from these steps, and
//! the decoder in `crate::command` is proved to take them.

use vstd::prelude::*;
use crate::hids::{
    beep_ops, blow_ops, brightness_of, channel_ops, lights_ops, set_color_ops, toggle_fan_ops,
    HidState, LED_B, LED_G, LED_R,
};
use crate::motors::{
    brake_ops, clamp_speed, enable_ops, lemma_movement_clamps, movement_ops, DriveState,
};
use crate::pins::PinOp;
use crate::servos::ServoAngles;

verus! {

/// The operating mode of the car.
#[derive(Clone, Copy, Debug, PartialEq, Eq, Structural)]
pub enum CarModes {
    /// Driven by commands; the mode the car starts in and falls back to.
    Remote,
    /// Follows a line on the ground.
    Tracking,
    /// Avoids obstacles by ultrasonic and proximity sensing.
    UltrasonicAvoid,
    /// Shows the colours of the lights.
    LedColors,
    /// Follows a visible light source.
    LightSeeking,
    /// Follows an infrared source.
    InfraredFollow,
}

/// The session speed of a new decoder, in percent.
pub const INITIAL_SPEED: i8 = 25;

/// The amount, in percent, by which a speed command changes a speed.
pub const SPEED_INCREMENT: i8 = 10;

/// The length of the beep of one alert cycle, in milliseconds.
pub const ALERT_BEEP: u64 = 200;

/// The pause that ends an alert cycle, in milliseconds.
pub const ALERT_PAUSE: u64 = 200;

/// The length of the beep that goes with the red flash, in milliseconds.
pub const STOP_BEEP: u64 = 1_000;

/// The number of alert cycles that announce `mode`.
pub open spec fn alert_cycles(mode: CarModes) -> nat {
    match mode {
        CarModes::Remote => 1,
        CarModes::Tracking => 2,
        CarModes::UltrasonicAvoid => 3,
        CarModes::LedColors => 4,
        CarModes::LightSeeking => 5,
        CarModes::InfraredFollow => 6,
    }
}

/// The state of the car and the pin operations issued so far.
pub struct Robot {
    /// The operating mode.
    pub mode: CarModes,
    /// The session speed, in percent.
    pub motor_speed: int,
    /// The palette index of the colour last shown by a light command.
    pub led_color: int,
    /// What the drive has been told.
    pub drive: DriveState,
    /// What the servos have been told.
    pub servos: ServoAngles,
    /// What the lights and the fan have been told.
    pub hids: HidState,
    /// The pin operations issued and not yet taken, oldest first.
    pub ops: Seq<PinOp>,
}

impl Robot {
    /// The car as a new decoder holds it: in `Remote` mode at the initial
    /// speed, the drive at rest, the lights and the fan off, and the servos
    /// just told to centre.
    pub open spec fn initial() -> Robot {
        Robot {
            mode: CarModes::Remote,
            motor_speed: INITIAL_SPEED as int,
            led_color: 0,
            drive: DriveState::initial(),
            servos: ServoAngles::initial().servos_init(),
            hids: HidState::initial(),
            ops: ServoAngles::initial().servos_init_ops(),
        }
    }

    /// Whether the session state is one that a decoder can be in: the
    /// session speed between 0 and 100 percent, the palette index a byte,
    /// each drive speed between -100 and 100 percent, each servo angle
    /// between 0 and 180 degrees.
    pub open spec fn wf(self) -> bool {
        &&& 0 <= self.motor_speed <= 100
        &&& 0 <= self.led_color <= 255
        &&& -100 <= self.drive.left <= 100
        &&& -100 <= self.drive.right <= 100
        &&& self.servos.wf()
    }

    /// The same car in `mode`.
    pub open spec fn with_mode(self, mode: CarModes) -> Robot {
        Robot { mode, ..self }
    }

    /// The same car at session speed `speed`.
    pub open spec fn with_speed(self, speed: int) -> Robot {
        Robot { motor_speed: speed, ..self }
    }

    /// The same car with palette index `index`.
    pub open spec fn with_led(self, index: int) -> Robot {
        Robot { led_color: index, ..self }
    }

    /// The same car with no pin operation left to take.
    pub open spec fn taken(self) -> Robot {
        Robot { ops: Seq::empty(), ..self }
    }

    // --- the drive ---------------------------------------------------------
    /// After `brake()` on the drive.
    pub open spec fn brake(self) -> Robot {
        Robot { drive: self.drive.brake(), ops: self.ops + brake_ops(), ..self }
    }

    /// After `enable(on)` on the drive.
    pub open spec fn enable(self, on: bool) -> Robot {
        Robot { drive: self.drive.enable(on), ops: self.ops + enable_ops(on), ..self }
    }

    /// After `movement(left, right)` on the drive.
    pub open spec fn movement(self, left: int, right: int) -> Robot {
        Robot {
            drive: self.drive.movement(left, right),
            ops: self.ops + movement_ops(left, right),
            ..self
        }
    }

    // --- the servos --------------------------------------------------------
    /// After `set_front(angle)` on the servos.
    pub open spec fn set_front(self, angle: Option<u8>) -> Robot {
        Robot {
            servos: self.servos.set_front(angle),
            ops: self.ops + self.servos.set_front_ops(angle),
            ..self
        }
    }

    /// After `set_camera_pan(angle)` on the servos.
    pub open spec fn set_camera_pan(self, angle: Option<u8>) -> Robot {
        Robot {
            servos: self.servos.set_camera_pan(angle),
            ops: self.ops + self.servos.set_camera_pan_ops(angle),
            ..self
        }
    }

    /// After `set_camera_tilt(angle)` on the servos.
    pub open spec fn set_camera_tilt(self, angle: Option<u8>) -> Robot {
        Robot {
            servos: self.servos.set_camera_tilt(angle),
            ops: self.ops + self.servos.set_camera_tilt_ops(angle),
            ..self
        }
    }

    /// After `front_left()` on the servos.
    pub open spec fn front_left(self) -> Robot {
        Robot {
            servos: self.servos.front_left(),
            ops: self.ops + self.servos.front_left_ops(),
            ..self
        }
    }

    /// After `front_right()` on the servos.
    pub open spec fn front_right(self) -> Robot {
        Robot {
            servos: self.servos.front_right(),
            ops: self.ops + self.servos.front_right_ops(),
            ..self
        }
    }

    /// After `camera_pan_left()` on the servos.
    pub open spec fn camera_pan_left(self) -> Robot {
        Robot {
            servos: self.servos.camera_pan_left(),
            ops: self.ops + self.servos.camera_pan_left_ops(),
            ..self
        }
    }

    /// After `camera_pan_right()` on the servos.
    pub open spec fn camera_pan_right(self) -> Robot {
        Robot {
            servos: self.servos.camera_pan_right(),
            ops: self.ops + self.servos.camera_pan_right_ops(),
            ..self
        }
    }

    /// After `camera_tilt_up()` on the servos.
    pub open spec fn camera_tilt_up(self) -> Robot {
        Robot {
            servos: self.servos.camera_tilt_up(),
            ops: self.ops + self.servos.camera_tilt_up_ops(),
            ..self
        }
    }

    /// After `camera_tilt_down()` on the servos.
    pub open spec fn camera_tilt_down(self) -> Robot {
        Robot {
            servos: self.servos.camera_tilt_down(),
            ops: self.ops + self.servos.camera_tilt_down_ops(),
            ..self
        }
    }

    // --- lights, buzzer, fan -----------------------------------------------
    /// After `lights(red, green, blue)`.
    pub open spec fn lights(self, red: u8, green: u8, blue: u8) -> Robot {
        Robot {
            hids: self.hids.lights(Some(red), Some(green), Some(blue)),
            ops: self.ops + lights_ops(Some(red), Some(green), Some(blue)),
            ..self
        }
    }

    /// After `set_red(value)`.
    pub open spec fn set_red(self, value: Option<u8>) -> Robot {
        Robot {
            hids: self.hids.set_red(value),
            ops: self.ops + channel_ops(LED_R, brightness_of(value)),
            ..self
        }
    }

    /// After `set_green(value)`.
    pub open spec fn set_green(self, value: Option<u8>) -> Robot {
        Robot {
            hids: self.hids.set_green(value),
            ops: self.ops + channel_ops(LED_G, brightness_of(value)),
            ..self
        }
    }

    /// After `set_blue(value)`.
    pub open spec fn set_blue(self, value: Option<u8>) -> Robot {
        Robot {
            hids: self.hids.set_blue(value),
            ops: self.ops + channel_ops(LED_B, brightness_of(value)),
            ..self
        }
    }

    /// After `set_color(index)`.
    pub open spec fn set_color(self, index: u8) -> Robot {
        Robot { hids: self.hids.set_color(index), ops: self.ops + set_color_ops(index), ..self }
    }

    /// After `beep(millis)`.
    pub open spec fn beep(self, millis: Option<u64>) -> Robot {
        Robot { ops: self.ops + beep_ops(millis), ..self }
    }

    /// After `whistle()`.
    pub open spec fn whistle(self) -> Robot {
        self.beep(None)
    }

    /// After `blow(millis)`.
    pub open spec fn blow(self, millis: Option<u64>) -> Robot {
        Robot { hids: self.hids.blow(), ops: self.ops + blow_ops(millis), ..self }
    }

    /// After `toggle_fan()`.
    pub open spec fn toggle_fan(self) -> Robot {
        Robot { hids: self.hids.toggle_fan(), ops: self.ops + toggle_fan_ops(), ..self }
    }

    /// After a pause of `millis` milliseconds.
    pub open spec fn pause(self, millis: u64) -> Robot {
        Robot { ops: self.ops + seq![PinOp::Pause(millis)], ..self }
    }

    // --- compound steps ----------------------------------------------------
    /// After the red flash that goes with a stop: the lights red, a beep of
    /// one second, the lights off.
    pub open spec fn red_flash(self) -> Robot {
        self.lights(100, 0, 0).beep(Some(STOP_BEEP)).lights(0, 0, 0)
    }

    /// After the alert cycle of number `i`: the lights show palette colour
    /// `i`, the buzzer sounds a short beep, the lights go off, a pause.
    pub open spec fn alert_cycle(self, i: u8) -> Robot {
        self.set_color(i).beep(Some(ALERT_BEEP)).lights(0, 0, 0).pause(ALERT_PAUSE)
    }

    /// After the first `count` alert cycles, numbered from zero.
    pub open spec fn alert(self, count: nat) -> Robot
        decreases count,
    {
        if count == 0 {
            self
        } else {
            self.alert((count - 1) as nat).alert_cycle((count - 1) as u8)
        }
    }
}

/// A movement depends on each speed only through its value within the range
/// of the drive: two pairs of speeds that agree there leave the same car.
pub proof fn lemma_movement_by_clamped(robot: Robot, left: int, right: int, l: int, r: int)
    requires
        clamp_speed(left) == clamp_speed(l),
        clamp_speed(right) == clamp_speed(r),
    ensures
        robot.movement(left, right) == robot.movement(l, r),
{
    lemma_movement_clamps(robot.drive, left, right);
    lemma_movement_clamps(robot.drive, l, r);
}

} // verus!
