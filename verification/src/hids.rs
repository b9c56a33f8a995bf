//! The parts that face a person: the three-colour lights, the buzzer and the
//! fan.

use vstd::prelude::*;
use crate::pins::PinOp;

verus! {

/// Buzzer and key, which share a line, BCM pin number.
pub const BUZZ_KEY: u8 = 8;

/// Fan, BCM pin number. The fan runs while the pin is low.
pub const FAN: u8 = 2;

/// Red lights, BCM pin number.
pub const LED_R: u8 = 22;

/// Green lights, BCM pin number.
pub const LED_G: u8 = 27;

/// Blue lights, BCM pin number.
pub const LED_B: u8 = 24;

/// The PWM frequency of the lights, in hertz.
pub const LED_FREQUENCY: u32 = 300;

/// The brightness, in percent, of a channel that is given none.
pub const DEFAULT_BRIGHTNESS: u8 = 50;

/// The length of a beep that is given none, and the shortest beep, in
/// milliseconds.
pub const SHORTEST_BEEP: u64 = 100;

/// The longest beep, in milliseconds.
pub const LONGEST_BEEP: u64 = 10_000;

/// How long the buzzer is held off before and after a beep, in milliseconds.
pub const BEEP_GUARD: u64 = 10;

/// How long the fan runs when it is given no time, in milliseconds.
pub const DEFAULT_BLOW: u64 = 2_000;

/// The longest time that the fan runs on one call, in milliseconds.
pub const LONGEST_BLOW: u64 = 60_000;

/// How long the fan is left to spin down after it ran, in milliseconds.
pub const BLOW_REST: u64 = 100;

/// How the key's debounce filter starts out: its eight latest samples
/// alternate, the latest of them low.
pub const KEY_IDLE: u8 = 85;

/// The debounce filter after one more sample of the key's level: the
/// samples move up by one place, the oldest drops out, and the new one,
/// 1 for low and 0 for high, takes the lowest place.
pub open spec fn key_shifted(history: u8, low: bool) -> u8 {
    if low {
        (history << 1) | 1u8
    } else {
        history << 1
    }
}

/// Whether the sample at place `place` of the filter was low; place 0 holds
/// the latest sample, place 7 the oldest.
pub open spec fn key_sample(history: u8, place: int) -> bool {
    if place <= 0 {
        history & 1 == 1
    } else if place == 1 {
        (history >> 1) & 1 == 1
    } else if place == 2 {
        (history >> 2) & 1 == 1
    } else if place == 3 {
        (history >> 3) & 1 == 1
    } else if place == 4 {
        (history >> 4) & 1 == 1
    } else if place == 5 {
        (history >> 5) & 1 == 1
    } else if place == 6 {
        (history >> 6) & 1 == 1
    } else {
        (history >> 7) & 1 == 1
    }
}

/// The eight latest samples of the key's level that the filter holds,
/// oldest first: whether each was low.
pub open spec fn key_samples(history: u8) -> Seq<bool> {
    Seq::new(8, |i: int| key_sample(history, 7 - i))
}

/// The brightness that a channel takes for `value`: the value itself up to
/// 100 percent, 100 beyond, and the default for `None`.
pub open spec fn brightness_of(value: Option<u8>) -> u8 {
    match value {
        Some(v) => if v > 100 {
            100
        } else {
            v
        },
        None => DEFAULT_BRIGHTNESS,
    }
}

/// The colour at `index` of the palette as red, green and blue in percent:
/// off, white, red, green, blue, cyan, magenta, yellow. An index beyond the
/// palette counts as its last entry.
pub open spec fn palette(index: u8) -> (u8, u8, u8) {
    if index == 0 {
        (0, 0, 0)
    } else if index == 1 {
        (100, 100, 100)
    } else if index == 2 {
        (100, 0, 0)
    } else if index == 3 {
        (0, 100, 0)
    } else if index == 4 {
        (0, 0, 100)
    } else if index == 5 {
        (0, 100, 100)
    } else if index == 6 {
        (100, 100, 100)
    } else {
        (100, 100, 0)
    }
}

/// The length of the beep that `beep(millis)` sounds, in milliseconds:
/// between a tenth of a second and ten seconds.
pub open spec fn beep_length(millis: Option<u64>) -> u64 {
    match millis {
        Some(m) => if m > LONGEST_BEEP {
            LONGEST_BEEP
        } else if m < SHORTEST_BEEP {
            SHORTEST_BEEP
        } else {
            m
        },
        None => SHORTEST_BEEP,
    }
}

/// The time for which `blow(millis)` runs the fan, in milliseconds: at most
/// a minute.
pub open spec fn blow_length(millis: Option<u64>) -> u64 {
    match millis {
        Some(m) => if m > LONGEST_BLOW {
            LONGEST_BLOW
        } else {
            m
        },
        None => DEFAULT_BLOW,
    }
}

/// The pin operations that bring one channel of the lights to `brightness`
/// percent: a PWM signal of that duty cycle, or none at all for zero.
pub open spec fn channel_ops(pin: u8, brightness: u8) -> Seq<PinOp> {
    if brightness != 0 {
        seq![PinOp::SetPwmFrequency { pin, hertz: LED_FREQUENCY, percent: brightness }]
    } else {
        seq![PinOp::ClearPwm(pin)]
    }
}

/// The pin operations of `lights(red, green, blue)`.
pub open spec fn lights_ops(red: Option<u8>, green: Option<u8>, blue: Option<u8>) -> Seq<PinOp> {
    channel_ops(LED_R, brightness_of(red)) + channel_ops(LED_G, brightness_of(green))
        + channel_ops(LED_B, brightness_of(blue))
}

/// The pin operations of `set_color(index)`.
pub open spec fn set_color_ops(index: u8) -> Seq<PinOp> {
    lights_ops(Some(palette(index).0), Some(palette(index).1), Some(palette(index).2))
}

/// The pin operations of `beep(millis)`: the line is switched to output
/// and held high, pulled low for the length of the beep, released, and
/// switched back to input for the key.
pub open spec fn beep_ops(millis: Option<u64>) -> Seq<PinOp> {
    seq![
        PinOp::SetOutput(BUZZ_KEY),
        PinOp::SetHigh(BUZZ_KEY),
        PinOp::Pause(BEEP_GUARD),
        PinOp::SetLow(BUZZ_KEY),
        PinOp::Pause(beep_length(millis)),
        PinOp::SetHigh(BUZZ_KEY),
        PinOp::Pause(BEEP_GUARD),
        PinOp::SetInput(BUZZ_KEY),
    ]
}

/// The pin operations of `blow(millis)`: the fan runs for the given time,
/// stops, and is left to spin down.
pub open spec fn blow_ops(millis: Option<u64>) -> Seq<PinOp> {
    seq![
        PinOp::SetLow(FAN),
        PinOp::Pause(blow_length(millis)),
        PinOp::SetHigh(FAN),
        PinOp::Pause(BLOW_REST),
    ]
}

/// The pin operations of `toggle_fan`.
pub open spec fn toggle_fan_ops() -> Seq<PinOp> {
    seq![PinOp::Toggle(FAN)]
}

/// What the lights and the fan have been told: the brightness of each
/// colour in percent, and whether the fan runs.
pub struct HidState {
    pub red: int,
    pub green: int,
    pub blue: int,
    pub fan_on: bool,
    /// The debounce filter of the key.
    pub key_history: u8,
}

impl HidState {
    /// The state as `Hids::new` leaves it: lights off, fan off.
    pub open spec fn initial() -> HidState {
        HidState { red: 0, green: 0, blue: 0, fan_on: false, key_history: KEY_IDLE }
    }

    /// The state after `key_press(low)`: the filter takes the sample, and
    /// starts over once the key counts as pressed.
    pub open spec fn key_press(self, low: bool) -> HidState {
        HidState {
            key_history: if key_shifted(self.key_history, low) == 255 {
                KEY_IDLE
            } else {
                key_shifted(self.key_history, low)
            },
            ..self
        }
    }

    /// The state after `set_red(value)`.
    pub open spec fn set_red(self, value: Option<u8>) -> HidState {
        HidState { red: brightness_of(value) as int, ..self }
    }

    /// The state after `set_green(value)`.
    pub open spec fn set_green(self, value: Option<u8>) -> HidState {
        HidState { green: brightness_of(value) as int, ..self }
    }

    /// The state after `set_blue(value)`.
    pub open spec fn set_blue(self, value: Option<u8>) -> HidState {
        HidState { blue: brightness_of(value) as int, ..self }
    }

    /// The state after `lights(red, green, blue)`.
    pub open spec fn lights(self, red: Option<u8>, green: Option<u8>, blue: Option<u8>) -> HidState {
        self.set_red(red).set_green(green).set_blue(blue)
    }

    /// The state after `set_color(index)`.
    pub open spec fn set_color(self, index: u8) -> HidState {
        self.lights(Some(palette(index).0), Some(palette(index).1), Some(palette(index).2))
    }

    /// The state after `toggle_fan`.
    pub open spec fn toggle_fan(self) -> HidState {
        HidState { fan_on: !self.fan_on, ..self }
    }

    /// The state after `blow`: the fan has run and stands still.
    pub open spec fn blow(self) -> HidState {
        HidState { fan_on: false, ..self }
    }
}

/// A model of the lights, the buzzer and the fan.
#[derive(Clone, Copy, Debug)]
pub struct Hids {
    red: u8,
    green: u8,
    blue: u8,
    fan_on: bool,
    key_history: u8,
}

impl View for Hids {
    type V = HidState;

    closed spec fn view(&self) -> HidState {
        HidState {
            red: self.red as int,
            green: self.green as int,
            blue: self.blue as int,
            fan_on: self.fan_on,
            key_history: self.key_history,
        }
    }
}

impl Hids {
    /// Lights off, fan off.
    pub fn new() -> (hids: Hids)
        ensures
            hids@ == HidState::initial(),
    {
        Hids { red: 0, green: 0, blue: 0, fan_on: false, key_history: KEY_IDLE }
    }

    /// Sounds the buzzer for `millis` milliseconds, at least a tenth of a
    /// second and at most ten seconds; a tenth of a second for `None`.
    pub fn beep(&mut self, millis: Option<u64>) -> (ops: Vec<PinOp>)
        ensures
            final(self)@ == old(self)@,
            ops@ == beep_ops(millis),
    {
        let length: u64 = match millis {
            Some(m) => if m > LONGEST_BEEP {
                LONGEST_BEEP
            } else if m < SHORTEST_BEEP {
                SHORTEST_BEEP
            } else {
                m
            },
            None => SHORTEST_BEEP,
        };
        let ops = vec![
            PinOp::SetOutput(BUZZ_KEY),
            PinOp::SetHigh(BUZZ_KEY),
            PinOp::Pause(BEEP_GUARD),
            PinOp::SetLow(BUZZ_KEY),
            PinOp::Pause(length),
            PinOp::SetHigh(BUZZ_KEY),
            PinOp::Pause(BEEP_GUARD),
            PinOp::SetInput(BUZZ_KEY),
        ];
        assert(ops@ =~= beep_ops(millis));
        ops
    }

    /// Runs the fan for `millis` milliseconds, at most a minute; two
    /// seconds for `None`. The fan stands still afterwards.
    pub fn blow(&mut self, millis: Option<u64>) -> (ops: Vec<PinOp>)
        ensures
            final(self)@ == old(self)@.blow(),
            ops@ == blow_ops(millis),
    {
        let length: u64 = match millis {
            Some(m) => if m > LONGEST_BLOW {
                LONGEST_BLOW
            } else {
                m
            },
            None => DEFAULT_BLOW,
        };
        self.fan_on = false;
        let ops = vec![
            PinOp::SetLow(FAN),
            PinOp::Pause(length),
            PinOp::SetHigh(FAN),
            PinOp::Pause(BLOW_REST),
        ];
        assert(ops@ =~= blow_ops(millis));
        ops
    }

    /// Takes one sample of the key's level, which is low while the key is
    /// held down, and says whether the key now counts as pressed: it does
    /// when the eight latest samples were all low. The filter then starts
    /// over.
    pub fn key_press(&mut self, low: bool) -> (pressed: bool)
        ensures
            pressed == (key_shifted(old(self)@.key_history, low) == 255),
            final(self)@ == old(self)@.key_press(low),
    {
        let history: u8 = if low {
            (self.key_history << 1) | 1
        } else {
            self.key_history << 1
        };
        if history == 255 {
            self.key_history = KEY_IDLE;
            true
        } else {
            self.key_history = history;
            false
        }
    }

    /// Sets the three colours of the lights at once, each as `set_red`,
    /// `set_green` and `set_blue` take it.
    pub fn lights(&mut self, red: Option<u8>, green: Option<u8>, blue: Option<u8>) -> (ops: Vec<
        PinOp,
    >)
        ensures
            final(self)@ == old(self)@.lights(red, green, blue),
            ops@ == lights_ops(red, green, blue),
    {
        let mut ops = self.set_red(red);
        let mut green_ops = self.set_green(green);
        let mut blue_ops = self.set_blue(blue);
        ops.append(&mut green_ops);
        ops.append(&mut blue_ops);
        ops
    }

    /// Sets the brightness of the blue lights in percent: at most 100, and
    /// 50 for `None`.
    pub fn set_blue(&mut self, brightness: Option<u8>) -> (ops: Vec<PinOp>)
        ensures
            final(self)@ == old(self)@.set_blue(brightness),
            ops@ == channel_ops(LED_B, brightness_of(brightness)),
    {
        let level = brightness_level(brightness);
        self.blue = level;
        channel(LED_B, level)
    }

    /// Shows the colour at `index` of the palette: off, white, red, green,
    /// blue, cyan, magenta, yellow. An index beyond the palette shows its
    /// last colour.
    pub fn set_color(&mut self, index: u8) -> (ops: Vec<PinOp>)
        ensures
            final(self)@ == old(self)@.set_color(index),
            ops@ == set_color_ops(index),
    {
        let (red, green, blue) = palette_entry(index);
        self.lights(Some(red), Some(green), Some(blue))
    }

    /// Sets the brightness of the green lights in percent: at most 100, and
    /// 50 for `None`.
    pub fn set_green(&mut self, value: Option<u8>) -> (ops: Vec<PinOp>)
        ensures
            final(self)@ == old(self)@.set_green(value),
            ops@ == channel_ops(LED_G, brightness_of(value)),
    {
        let level = brightness_level(value);
        self.green = level;
        channel(LED_G, level)
    }

    /// Sets the brightness of the red lights in percent: at most 100, and
    /// 50 for `None`.
    pub fn set_red(&mut self, value: Option<u8>) -> (ops: Vec<PinOp>)
        ensures
            final(self)@ == old(self)@.set_red(value),
            ops@ == channel_ops(LED_R, brightness_of(value)),
    {
        let level = brightness_level(value);
        self.red = level;
        channel(LED_R, level)
    }

    /// Switches the fan on if it is off, and off if it is on.
    pub fn toggle_fan(&mut self) -> (ops: Vec<PinOp>)
        ensures
            final(self)@ == old(self)@.toggle_fan(),
            ops@ == toggle_fan_ops(),
    {
        self.fan_on = !self.fan_on;
        let ops = vec![PinOp::Toggle(FAN)];
        assert(ops@ =~= toggle_fan_ops());
        ops
    }

    /// Sounds the shortest beep.
    pub fn whistle(&mut self) -> (ops: Vec<PinOp>)
        ensures
            final(self)@ == old(self)@,
            ops@ == beep_ops(None),
    {
        self.beep(None)
    }

    /// The brightness of the red, green and blue lights, in percent.
    pub fn colors(&self) -> (rgb: (u8, u8, u8))
        ensures
            rgb.0 == self@.red,
            rgb.1 == self@.green,
            rgb.2 == self@.blue,
    {
        (self.red, self.green, self.blue)
    }

    /// Whether the fan runs.
    pub fn fan_on(&self) -> (on: bool)
        ensures
            on == self@.fan_on,
    {
        self.fan_on
    }
}

/// The brightness that a channel takes for `value`.
fn brightness_level(value: Option<u8>) -> (level: u8)
    ensures
        level == brightness_of(value),
{
    match value {
        Some(v) => if v > 100 {
            100
        } else {
            v
        },
        None => DEFAULT_BRIGHTNESS,
    }
}

/// The pin operations that bring one channel to `brightness` percent.
fn channel(pin: u8, brightness: u8) -> (ops: Vec<PinOp>)
    ensures
        ops@ == channel_ops(pin, brightness),
{
    let ops = if brightness != 0 {
        vec![PinOp::SetPwmFrequency { pin, hertz: LED_FREQUENCY, percent: brightness }]
    } else {
        vec![PinOp::ClearPwm(pin)]
    };
    assert(ops@ =~= channel_ops(pin, brightness));
    ops
}

/// The colour at `index` of the palette.
fn palette_entry(index: u8) -> (rgb: (u8, u8, u8))
    ensures
        rgb == palette(index),
{
    match index {
        0 => (0, 0, 0),
        1 => (100, 100, 100),
        2 => (100, 0, 0),
        3 => (0, 100, 0),
        4 => (0, 0, 100),
        5 => (0, 100, 100),
        6 => (100, 100, 100),
        _ => (100, 100, 0),
    }
}

/// Whatever `lights` is given, each colour ends between 0 and 100 percent,
/// and `lights(0, 0, 0)` leaves all three off.
pub proof fn lemma_lights_in_range(hids: HidState, red: Option<u8>, green: Option<u8>, blue: Option<
    u8,
>)
    ensures
        0 <= hids.lights(red, green, blue).red <= 100,
        0 <= hids.lights(red, green, blue).green <= 100,
        0 <= hids.lights(red, green, blue).blue <= 100,
        hids.lights(Some(0), Some(0), Some(0)).red == 0,
        hids.lights(Some(0), Some(0), Some(0)).green == 0,
        hids.lights(Some(0), Some(0), Some(0)).blue == 0,
        hids.lights(red, green, blue).fan_on == hids.fan_on,
{
}

/// The key counts as pressed exactly when the eight latest samples were
/// all low; each sample pushes the oldest one out; and a filter that
/// starts out holds alternating samples, the latest of them low.
pub proof fn lemma_key_filter(history: u8, low: bool)
    ensures
        key_samples(key_shifted(history, low)) == key_samples(history).drop_first().push(low),
        history == 255 <==> (forall|i: int| 0 <= i < 8 ==> #[trigger] key_samples(history)[i]),
        key_samples(KEY_IDLE) == seq![false, true, false, true, false, true, false, true],
{
    let h = history;
    let a = key_shifted(history, low);
    if low {
        assert(((h << 1) | 1u8) & 1 == 1) by (bit_vector);
        assert((((h << 1) | 1u8) >> 1) & 1 == h & 1) by (bit_vector);
        assert((((h << 1) | 1u8) >> 2) & 1 == (h >> 1) & 1) by (bit_vector);
        assert((((h << 1) | 1u8) >> 3) & 1 == (h >> 2) & 1) by (bit_vector);
        assert((((h << 1) | 1u8) >> 4) & 1 == (h >> 3) & 1) by (bit_vector);
        assert((((h << 1) | 1u8) >> 5) & 1 == (h >> 4) & 1) by (bit_vector);
        assert((((h << 1) | 1u8) >> 6) & 1 == (h >> 5) & 1) by (bit_vector);
        assert((((h << 1) | 1u8) >> 7) & 1 == (h >> 6) & 1) by (bit_vector);
    } else {
        assert((h << 1) & 1 == 0) by (bit_vector);
        assert(((h << 1) >> 1) & 1 == h & 1) by (bit_vector);
        assert(((h << 1) >> 2) & 1 == (h >> 1) & 1) by (bit_vector);
        assert(((h << 1) >> 3) & 1 == (h >> 2) & 1) by (bit_vector);
        assert(((h << 1) >> 4) & 1 == (h >> 3) & 1) by (bit_vector);
        assert(((h << 1) >> 5) & 1 == (h >> 4) & 1) by (bit_vector);
        assert(((h << 1) >> 6) & 1 == (h >> 5) & 1) by (bit_vector);
        assert(((h << 1) >> 7) & 1 == (h >> 6) & 1) by (bit_vector);
    }
    assert forall|i: int| 0 <= i < 8 implies key_samples(a)[i] == key_samples(
        history,
    ).drop_first().push(low)[i] by {
        if i < 7 {
            assert(key_samples(history).drop_first()[i] == key_sample(history, 6 - i));
        }
    }
    assert(key_samples(a) =~= key_samples(history).drop_first().push(low));
    assert(h == 255 <==> (h & 1 == 1 && (h >> 1) & 1 == 1 && (h >> 2) & 1 == 1 && (h >> 3) & 1 == 1
        && (h >> 4) & 1 == 1 && (h >> 5) & 1 == 1 && (h >> 6) & 1 == 1 && (h >> 7) & 1 == 1))
        by (bit_vector);
    if forall|i: int| 0 <= i < 8 ==> #[trigger] key_samples(history)[i] {
        assert(key_samples(history)[0]);
        assert(key_samples(history)[1]);
        assert(key_samples(history)[2]);
        assert(key_samples(history)[3]);
        assert(key_samples(history)[4]);
        assert(key_samples(history)[5]);
        assert(key_samples(history)[6]);
        assert(key_samples(history)[7]);
    }
    assert(85u8 & 1 == 1 && (85u8 >> 1) & 1 == 0 && (85u8 >> 2) & 1 == 1 && (85u8 >> 3) & 1 == 0
        && (85u8 >> 4) & 1 == 1 && (85u8 >> 5) & 1 == 0 && (85u8 >> 6) & 1 == 1 && (85u8 >> 7) & 1
        == 0) by (bit_vector);
    assert(key_samples(KEY_IDLE) =~= seq![false, true, false, true, false, true, false, true]);
}

} // verus!
