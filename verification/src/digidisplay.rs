//! Encoders for the dual-protocol digit display and the button matrix in
//! front of it. The statically latched side of the display takes one 32-bit
//! word (`SegDisplayBits`); the serially clocked side takes one 64-bit word
//! (`SerialDisplayBits`). Bit positions are a wire-format contract: each
//! constant below names one lamp or segment on the physical panel.

use vstd::prelude::*;

use crate::climatecontrol::{clamp_set_temp, mode_succ, ClimateControlBacker, ClimateControlMode,
    ClimateView};
use crate::glyphs::{glyph, place7_32, place7_64, spec_glyph, spec_place7_32, spec_place7_64};

verus! {

// Serially controlled side: ambient "second" (ones) digit segments.
pub const AMB2_TL: u64 = 0x0000_0000_0000_0001;

pub const AMB2_T: u64 = 0x0000_0000_0000_0002;

pub const AMB2_TR: u64 = 0x0000_0000_0000_0004;

pub const AMB2_M: u64 = 0x0000_0000_0000_0008;

pub const AMB2_BR: u64 = 0x0000_0000_0000_0010;

pub const AMB2_B: u64 = 0x0000_0000_0000_0020;

pub const AMB2_BL: u64 = 0x0000_0000_0000_0040;

// Ambient "first" (tens) digit segments.
pub const AMB1_BR: u64 = 0x0000_0000_0000_0100;

pub const AMB1_B: u64 = 0x0000_0000_0000_0200;

pub const AMB1_BL: u64 = 0x0000_0000_0000_0400;

pub const AMB1_TL: u64 = 0x0000_0000_0000_1000;

pub const AMB1_T: u64 = 0x0000_0000_0000_2000;

pub const AMB1_TR: u64 = 0x0000_0000_0000_4000;

pub const AMB1_M: u64 = 0x0000_0000_0000_8000;

// Ambient "1" (hundreds overflow) and "-" (sign) indicators.
pub const AMB_ONE: u64 = 0x0000_0000_0001_0000;

pub const AMB_NEG: u64 = 0x0000_0000_0002_0000;

// Temperature gauge bars, one position each.
pub const TG_NEG1: u64 = 0x0000_0000_0004_0000;

pub const TG_NEG2: u64 = 0x0000_0000_0008_0000;

pub const TG_NEG3: u64 = 0x0000_0000_0010_0000;

pub const TG_NEG4: u64 = 0x0000_0000_0020_0000;

pub const TG_NEG5: u64 = 0x0000_0000_0040_0000;

pub const TG_PLUS5: u64 = 0x0000_0000_0100_0000;

pub const TG_PLUS4: u64 = 0x0000_0000_0200_0000;

pub const TG_PLUS3: u64 = 0x0000_0000_0400_0000;

pub const TG_PLUS2: u64 = 0x0000_0000_0800_0000;

pub const TG_ZERO: u64 = 0x0000_0000_4000_0000;

pub const TG_PLUS1: u64 = 0x0000_0000_8000_0000;

// Set-temperature "1" (hundreds overflow) and "-" (sign) indicators.
pub const SET_ONE: u64 = 0x0000_0000_1000_0000;

pub const SET_NEG: u64 = 0x0000_0000_2000_0000;

// Set-temperature "first" (tens) digit segments.
pub const SET1_BR: u64 = 0x0000_0001_0000_0000;

pub const SET1_B: u64 = 0x0000_0002_0000_0000;

pub const SET1_BL: u64 = 0x0000_0004_0000_0000;

pub const SET1_TL: u64 = 0x0000_0010_0000_0000;

pub const SET1_T: u64 = 0x0000_0020_0000_0000;

pub const SET1_TR: u64 = 0x0000_0040_0000_0000;

pub const SET1_M: u64 = 0x0000_0080_0000_0000;

pub const SERIAL_EMPTY: u64 = 0x0000_0000_0000_0000;

// Statically driven side: general indicators.
pub const FRESH_AIR: u32 = 0x0000_0001;

pub const FACE: u32 = 0x0000_0002;

pub const FAN: u32 = 0x0000_0004;

pub const DEFROST: u32 = 0x0000_0008;

pub const FEET: u32 = 0x0000_0010;

pub const ACGAS: u32 = 0x0000_0020;

pub const CELCIUS: u32 = 0x0000_0080;

pub const BACKGROUND: u32 = 0x0000_0800;

pub const FARENHEIT: u32 = 0x0000_1000;

pub const AC: u32 = 0x0000_2000;

pub const HEAT: u32 = 0x0000_4000;

pub const RECIRC: u32 = 0x0000_8000;

// Set-temperature "second" (ones) digit segments.
pub const SET2_TL: u32 = 0x0010_0000;

pub const SET2_T: u32 = 0x0020_0000;

pub const SET2_TR: u32 = 0x0040_0000;

pub const SET2_M: u32 = 0x0080_0000;

pub const SET2_BR: u32 = 0x0000_0100;

pub const SET2_B: u32 = 0x0000_0200;

pub const SET2_BL: u32 = 0x0000_0400;

pub const SEG_EMPTY: u32 = 0x0000_0000;

// Timing template of the serial bus: for each of the 128 bits the clock is
// held low, then high, for these many microseconds, and the data line takes
// the bit's level (see `serial_levels` for the bit order).
pub const SERIAL_CLOCK_LOW_US: u64 = 8;

pub const SERIAL_CLOCK_HIGH_US: u64 = 2;

// Timing template of the display-half synchronizer: on each incoming edge
// the handshake line is pulsed high this long, then rests for the period.
pub const SYNC_PULSE_HIGH_US: u64 = 3;

pub const SYNC_PERIOD_MS: u64 = 12;

/// Frame word for the serially clocked side of the display.
#[derive(Clone, Copy, Debug, PartialEq, Eq, Structural)]
pub struct SerialDisplayBits {
    pub bits: u64,
}

/// Frame word for the statically latched side of the display.
#[derive(Clone, Copy, Debug, PartialEq, Eq, Structural)]
pub struct SegDisplayBits {
    pub bits: u32,
}

/// Glyph for the ambient ones digit, placed on its segment masks.
pub open spec fn spec_amb_second(n: int) -> u64 {
    spec_place7_64(spec_glyph(n), AMB2_T, AMB2_TR, AMB2_TL, AMB2_M, AMB2_BR, AMB2_BL, AMB2_B)
}

/// Glyph for the ambient tens digit, placed on its segment masks.
pub open spec fn spec_amb_first(n: int) -> u64 {
    spec_place7_64(spec_glyph(n), AMB1_T, AMB1_TR, AMB1_TL, AMB1_M, AMB1_BR, AMB1_BL, AMB1_B)
}

/// Glyph for the set-temperature tens digit, placed on its segment masks.
pub open spec fn spec_set_first(n: int) -> u64 {
    spec_place7_64(spec_glyph(n), SET1_T, SET1_TR, SET1_TL, SET1_M, SET1_BR, SET1_BL, SET1_B)
}

/// Glyph for the set-temperature ones digit on the static side.
pub open spec fn spec_set_second(n: int) -> u32 {
    spec_place7_32(spec_glyph(n), SET2_T, SET2_TR, SET2_TL, SET2_M, SET2_BR, SET2_BL, SET2_B)
}

/// Sign/overflow decomposition shared by both temperature read-outs:
/// (negative flag, hundreds flag, remaining two-digit magnitude).
pub open spec fn spec_sign_split(v: int) -> (bool, bool, int) {
    let neg = v < 0;
    let mag = if neg { -v } else { v };
    let hund = mag >= 100;
    let m = if hund { mag - 100 } else { mag };
    (neg, hund, m)
}

/// The whole ambient-temperature group of the serial word.
pub open spec fn spec_amb_frame(v: int) -> u64 {
    let s = spec_sign_split(v);
    (if s.0 { AMB_NEG } else { 0 }) | (if s.1 { AMB_ONE } else { 0 }) | spec_amb_first(s.2 / 10)
        | spec_amb_second(s.2 % 10)
}

/// The set-temperature group of the serial word (sign, hundreds, tens digit).
pub open spec fn spec_set_frame(v: int) -> u64 {
    let s = spec_sign_split(v);
    (if s.0 { SET_NEG } else { 0 }) | (if s.1 { SET_ONE } else { 0 }) | spec_set_first(s.2 / 10)
}

/// The ones digit of the set temperature, handed to the static side.
pub open spec fn spec_set_ones(v: int) -> int {
    spec_sign_split(v).2 % 10
}

/// The single lit gauge bar for levels 0-10; out-of-range levels light none.
pub open spec fn spec_gauge(level: int) -> u64 {
    if level == 0 {
        TG_NEG5
    } else if level == 1 {
        TG_NEG4
    } else if level == 2 {
        TG_NEG3
    } else if level == 3 {
        TG_NEG2
    } else if level == 4 {
        TG_NEG1
    } else if level == 5 {
        TG_ZERO
    } else if level == 6 {
        TG_PLUS1
    } else if level == 7 {
        TG_PLUS2
    } else if level == 8 {
        TG_PLUS3
    } else if level == 9 {
        TG_PLUS4
    } else if level == 10 {
        TG_PLUS5
    } else {
        SERIAL_EMPTY
    }
}

impl SerialDisplayBits {
    /// The serial word widened to the 128-bit frame that is shifted out.
    pub fn get_serialout(input: SerialDisplayBits) -> (r: u128)
        ensures
            r == input.bits as u128,
    {
        input.bits as u128
    }

    /// Pattern for the ambient "second" (ones) digit, nibble values 0-15.
    pub fn amb_second(n: u8) -> (r: SerialDisplayBits)
        ensures
            r.bits == spec_amb_second(n as int),
    {
        let p = glyph(n);
        SerialDisplayBits {
            bits: place7_64(p, AMB2_T, AMB2_TR, AMB2_TL, AMB2_M, AMB2_BR, AMB2_BL, AMB2_B),
        }
    }

    /// Pattern for the ambient "first" (tens) digit, nibble values 0-15.
    pub fn amb_first(n: u8) -> (r: SerialDisplayBits)
        ensures
            r.bits == spec_amb_first(n as int),
    {
        let p = glyph(n);
        SerialDisplayBits {
            bits: place7_64(p, AMB1_T, AMB1_TR, AMB1_TL, AMB1_M, AMB1_BR, AMB1_BL, AMB1_B),
        }
    }

    /// Ambient minus-sign indicator.
    pub fn amb_neg(b: bool) -> (r: SerialDisplayBits)
        ensures
            r.bits == (if b {
                AMB_NEG
            } else {
                SERIAL_EMPTY
            }),
    {
        if b {
            return SerialDisplayBits { bits: AMB_NEG };
        }
        SerialDisplayBits { bits: SERIAL_EMPTY }
    }

    /// Ambient hundreds-overflow indicator.
    pub fn amb_hund(b: bool) -> (r: SerialDisplayBits)
        ensures
            r.bits == (if b {
                AMB_ONE
            } else {
                SERIAL_EMPTY
            }),
    {
        if b {
            return SerialDisplayBits { bits: AMB_ONE };
        }
        SerialDisplayBits { bits: SERIAL_EMPTY }
    }

    /// Pattern for the set-temperature "first" (tens) digit, nibble values 0-15.
    pub fn set_first(n: u8) -> (r: SerialDisplayBits)
        ensures
            r.bits == spec_set_first(n as int),
    {
        let p = glyph(n);
        SerialDisplayBits {
            bits: place7_64(p, SET1_T, SET1_TR, SET1_TL, SET1_M, SET1_BR, SET1_BL, SET1_B),
        }
    }

    /// Set-temperature minus-sign indicator.
    pub fn set_neg(b: bool) -> (r: SerialDisplayBits)
        ensures
            r.bits == (if b {
                SET_NEG
            } else {
                SERIAL_EMPTY
            }),
    {
        if b {
            return SerialDisplayBits { bits: SET_NEG };
        }
        SerialDisplayBits { bits: SERIAL_EMPTY }
    }

    /// Set-temperature hundreds-overflow indicator.
    pub fn set_hund(b: bool) -> (r: SerialDisplayBits)
        ensures
            r.bits == (if b {
                SET_ONE
            } else {
                SERIAL_EMPTY
            }),
    {
        if b {
            return SerialDisplayBits { bits: SET_ONE };
        }
        SerialDisplayBits { bits: SERIAL_EMPTY }
    }

    /// The thermometer-style gauge: exactly one bar lit for levels 0-10.
    pub fn gauge(level: u8) -> (r: SerialDisplayBits)
        ensures
            r.bits == spec_gauge(level as int),
    {
        let bits: u64 = match level {
            0 => TG_NEG5,
            1 => TG_NEG4,
            2 => TG_NEG3,
            3 => TG_NEG2,
            4 => TG_NEG1,
            5 => TG_ZERO,
            6 => TG_PLUS1,
            7 => TG_PLUS2,
            8 => TG_PLUS3,
            9 => TG_PLUS4,
            10 => TG_PLUS5,
            _ => SERIAL_EMPTY,
        };
        SerialDisplayBits { bits }
    }

    /// Full ambient-temperature read-out: sign and hundreds indicators plus
    /// the tens and ones digits of the remaining magnitude. Total over all of
    /// `i8`; out-of-band magnitudes saturate into the hundreds indicator.
    pub fn setup_amb(input: i8) -> (r: SerialDisplayBits)
        ensures
            r.bits == spec_amb_frame(input as int),
    {
        let neg: bool = input < 0;
        let mag: i16 = if neg {
            -(input as i16)
        } else {
            input as i16
        };
        let hund: bool = mag >= 100;
        let m: i16 = if hund {
            mag - 100
        } else {
            mag
        };
        let mu: u8 = m as u8;
        let tens: u8 = mu / 10;
        let ones: u8 = mu % 10;
        let bits: u64 = SerialDisplayBits::amb_neg(neg).bits | SerialDisplayBits::amb_hund(
            hund,
        ).bits | SerialDisplayBits::amb_first(tens).bits | SerialDisplayBits::amb_second(ones).bits;
        SerialDisplayBits { bits }
    }

    /// Set-temperature serial group plus the ones digit, which the static
    /// side of the display draws (the two digits of one number are split
    /// across the two buses).
    pub fn setup_set(input: i8) -> (r: (SerialDisplayBits, i8))
        ensures
            r.0.bits == spec_set_frame(input as int),
            r.1 == spec_set_ones(input as int),
            0 <= r.1 <= 9,
    {
        let neg: bool = input < 0;
        let mag: i16 = if neg {
            -(input as i16)
        } else {
            input as i16
        };
        let hund: bool = mag >= 100;
        let m: i16 = if hund {
            mag - 100
        } else {
            mag
        };
        let mu: u8 = m as u8;
        let tens: u8 = mu / 10;
        let ones: u8 = mu % 10;
        let bits: u64 = SerialDisplayBits::set_neg(neg).bits | SerialDisplayBits::set_hund(
            hund,
        ).bits | SerialDisplayBits::set_first(tens).bits;
        (SerialDisplayBits { bits }, ones as i8)
    }
}

/// Indicator bits for one climate mode on the static side: the mode icons
/// plus the shared background and fan bits.
pub open spec fn spec_mode_bits(m: ClimateControlMode) -> u32 {
    match m {
        ClimateControlMode::Face => FACE | BACKGROUND | FAN,
        ClimateControlMode::Feet => FEET | BACKGROUND | FAN,
        ClimateControlMode::FaceFeet => FACE | FEET | BACKGROUND | FAN,
        ClimateControlMode::FeetDef => FEET | DEFROST | BACKGROUND | FAN,
        ClimateControlMode::Def => DEFROST | BACKGROUND | FAN,
    }
}

impl SegDisplayBits {
    /// The static word as transmitted to the driver chip.
    pub fn get_bitsout(input: SegDisplayBits) -> (r: u32)
        ensures
            r == input.bits,
    {
        input.bits
    }

    /// Pattern for the set-temperature "second" (ones) digit; values outside
    /// 0-15 light nothing.
    pub fn set_second(n: i8) -> (r: SegDisplayBits)
        ensures
            r.bits == spec_set_second(n as int),
    {
        let nn: u8 = if 0 <= n && n <= 15 {
            n as u8
        } else {
            16
        };
        let p = glyph(nn);
        assert(spec_glyph(nn as int) == spec_glyph(n as int));
        SegDisplayBits {
            bits: place7_32(p, SET2_T, SET2_TR, SET2_TL, SET2_M, SET2_BR, SET2_BL, SET2_B),
        }
    }

    /// Recirculation and fresh-air indicators are mutually exclusive.
    pub fn recirc(b: bool) -> (r: SegDisplayBits)
        ensures
            r.bits == (if b {
                RECIRC
            } else {
                FRESH_AIR
            }),
    {
        if b {
            return SegDisplayBits { bits: RECIRC };
        }
        SegDisplayBits { bits: FRESH_AIR }
    }

    /// Mode indicator group; total over the five modes.
    pub fn mode(input: &ClimateControlMode) -> (r: SegDisplayBits)
        ensures
            r.bits == spec_mode_bits(*input),
    {
        let bits: u32 = match input {
            ClimateControlMode::Face => FACE | BACKGROUND | FAN,
            ClimateControlMode::Feet => FEET | BACKGROUND | FAN,
            ClimateControlMode::FaceFeet => FACE | FEET | BACKGROUND | FAN,
            ClimateControlMode::FeetDef => FEET | DEFROST | BACKGROUND | FAN,
            ClimateControlMode::Def => DEFROST | BACKGROUND | FAN,
        };
        SegDisplayBits { bits }
    }

    /// AC indicator: lit iff the AC toggle is on.
    pub fn ac_toggle(b: bool) -> (r: SegDisplayBits)
        ensures
            r.bits == (if b {
                AC
            } else {
                SEG_EMPTY
            }),
    {
        if b {
            return SegDisplayBits { bits: AC };
        }
        SegDisplayBits { bits: SEG_EMPTY }
    }

    /// Unit indicator: Celsius when true, Fahrenheit when false.
    pub fn c_or_f(b: bool) -> (r: SegDisplayBits)
        ensures
            r.bits == (if b {
                CELCIUS
            } else {
                FARENHEIT
            }),
    {
        if b {
            return SegDisplayBits { bits: CELCIUS };
        }
        SegDisplayBits { bits: FARENHEIT }
    }

    /// Heat icon shown while the water cock is active.
    pub fn heat_watercock(b: bool) -> (r: SegDisplayBits)
        ensures
            r.bits == (if b {
                HEAT
            } else {
                SEG_EMPTY
            }),
    {
        if b {
            return SegDisplayBits { bits: HEAT };
        }
        SegDisplayBits { bits: SEG_EMPTY }
    }
}

/// The eight logical buttons multiplexed over the six-line matrix.
#[derive(Clone, Copy, Debug, PartialEq, Eq, Structural)]
pub enum Button {
    Auto,
    Demist,
    TempUp,
    Off,
    FanLo,
    FanHigh,
    Recirc,
    TempDown,
}

/// The fixed scan order: the button after `b`, or `None` after the last.
pub open spec fn spec_button_succ(b: Button) -> Option<Button> {
    match b {
        Button::Auto => Some(Button::Demist),
        Button::Demist => Some(Button::TempUp),
        Button::TempUp => Some(Button::Off),
        Button::Off => Some(Button::FanLo),
        Button::FanLo => Some(Button::FanHigh),
        Button::FanHigh => Some(Button::Recirc),
        Button::Recirc => Some(Button::TempDown),
        Button::TempDown => None,
    }
}

/// Yields the eight buttons once each, in the fixed scan order.
pub struct ButtonIter {
    pub next: Option<Button>,
}

impl ButtonIter {
    pub fn new() -> (r: Self)
        ensures
            r.next == Some(Button::Auto),
    {
        ButtonIter { next: Some(Button::Auto) }
    }

    /// The pending button, advancing to its successor in the scan order.
    pub fn next(&mut self) -> (r: Option<Button>)
        ensures
            r == old(self).next,
            final(self).next == (match old(self).next {
                None => None::<Button>,
                Some(b) => spec_button_succ(b),
            }),
    {
        match self.next {
            None => None,
            Some(curr) => {
                self.next = match curr {
                    Button::Auto => Some(Button::Demist),
                    Button::Demist => Some(Button::TempUp),
                    Button::TempUp => Some(Button::Off),
                    Button::Off => Some(Button::FanLo),
                    Button::FanLo => Some(Button::FanHigh),
                    Button::FanHigh => Some(Button::Recirc),
                    Button::Recirc => Some(Button::TempDown),
                    Button::TempDown => None,
                };
                Some(curr)
            },
        }
    }
}

/// The (drive line, sense line) pair of a button, drawn from the six shared
/// physical lines of the matrix.
pub open spec fn spec_button_lines(b: Button) -> (u8, u8) {
    match b {
        Button::Auto => (1u8, 4u8),
        Button::Demist => (1u8, 2u8),
        Button::TempUp => (4u8, 5u8),
        Button::Off => (3u8, 4u8),
        Button::FanLo => (6u8, 2u8),
        Button::FanHigh => (6u8, 4u8),
        Button::Recirc => (2u8, 3u8),
        Button::TempDown => (2u8, 5u8),
    }
}

/// Which physical line a button drives low and which line it senses.
pub fn button_lines(button: Button) -> (r: (u8, u8))
    ensures
        r == spec_button_lines(button),
{
    match button {
        Button::Auto => (1, 4),
        Button::Demist => (1, 2),
        Button::TempUp => (4, 5),
        Button::Off => (3, 4),
        Button::FanLo => (6, 2),
        Button::FanHigh => (6, 4),
        Button::Recirc => (2, 3),
        Button::TempDown => (2, 5),
    }
}

/// The state mutation a button press issues against the climate state.
pub open spec fn spec_apply_button(s: ClimateView, b: Button) -> ClimateView {
    match b {
        Button::Auto => ClimateView { ac_toggle: !s.ac_toggle, ..s },
        Button::Demist => ClimateView { mode: mode_succ(s.mode), ..s },
        Button::TempUp => ClimateView { set_temp: clamp_set_temp(s.set_temp + 1) as i8, ..s },
        Button::Off => ClimateView { fan_speed: 0, ..s },
        Button::FanLo => ClimateView { fan_speed: 50, ..s },
        Button::FanHigh => ClimateView { fan_speed: 100, ..s },
        Button::Recirc => ClimateView { recirc_toggle: !s.recirc_toggle, ..s },
        Button::TempDown => ClimateView { set_temp: clamp_set_temp(s.set_temp - 1) as i8, ..s },
    }
}

/// Apply one discrete press of `button` to the climate state.
pub fn apply_button(state: &mut ClimateControlBacker, button: Button)
    requires
        old(state)@.inv(),
    ensures
        final(state)@ == spec_apply_button(old(state)@, button),
        final(state)@.inv(),
{
    match button {
        Button::Auto => state.set_ac_toggle(),
        Button::Demist => state.next_mode(),
        Button::TempUp => {
            let t = state.set_temp();
            state.set_set_temp(t + 1);
        },
        Button::Off => state.set_fan_speed(0),
        Button::FanLo => state.set_fan_speed(50),
        Button::FanHigh => state.set_fan_speed(100),
        Button::Recirc => state.set_recirc_toggle(),
        Button::TempDown => {
            let t = state.set_temp();
            state.set_set_temp(t - 1);
        },
    }
}

/// Where one button's scan pass stands. Each sample is taken after the fixed
/// wait `spec_wait_before_ms` gives for the phase.
#[derive(Clone, Copy, Debug, PartialEq, Eq, Structural)]
pub enum ScanPhase {
    /// Drive line just pulled low; first sample after the settle delay.
    Settle,
    /// Initial press seen; confirm sample after the debounce interval.
    Debounce,
    /// Press applied; hold sample after the hold threshold.
    Hold,
    /// Auto-repeat: one sample per repeat interval.
    Repeat,
    /// Scan of this button finished; restore the drive line.
    Done,
}

/// What the pass does in response to one sample.
#[derive(Clone, Copy, Debug, PartialEq, Eq, Structural)]
pub enum ScanEffect {
    Nothing,
    /// Apply the button's mutation once.
    Apply,
    /// Apply the mutation and trigger a display refresh.
    ApplyRefresh,
}

/// One step of the debounce/auto-repeat machine. The press is applied exactly
/// once after the debounce sample regardless of that sample's outcome (the
/// confirm read only decides whether the hold branch is entered), and once per
/// repeat sample that still reads pressed.
pub open spec fn spec_scan_step(phase: ScanPhase, pressed: bool) -> (ScanPhase, ScanEffect) {
    match phase {
        ScanPhase::Settle => if pressed {
            (ScanPhase::Debounce, ScanEffect::Nothing)
        } else {
            (ScanPhase::Done, ScanEffect::Nothing)
        },
        ScanPhase::Debounce => if pressed {
            (ScanPhase::Hold, ScanEffect::Apply)
        } else {
            (ScanPhase::Done, ScanEffect::Apply)
        },
        ScanPhase::Hold => if pressed {
            (ScanPhase::Repeat, ScanEffect::Nothing)
        } else {
            (ScanPhase::Done, ScanEffect::Nothing)
        },
        ScanPhase::Repeat => if pressed {
            (ScanPhase::Repeat, ScanEffect::ApplyRefresh)
        } else {
            (ScanPhase::Done, ScanEffect::Nothing)
        },
        ScanPhase::Done => (ScanPhase::Done, ScanEffect::Nothing),
    }
}

/// Executable scan step; the platform layer feeds it the sense-line sample.
pub fn scan_step(phase: ScanPhase, pressed: bool) -> (r: (ScanPhase, ScanEffect))
    ensures
        r == spec_scan_step(phase, pressed),
{
    match phase {
        ScanPhase::Settle => if pressed {
            (ScanPhase::Debounce, ScanEffect::Nothing)
        } else {
            (ScanPhase::Done, ScanEffect::Nothing)
        },
        ScanPhase::Debounce => if pressed {
            (ScanPhase::Hold, ScanEffect::Apply)
        } else {
            (ScanPhase::Done, ScanEffect::Apply)
        },
        ScanPhase::Hold => if pressed {
            (ScanPhase::Repeat, ScanEffect::Nothing)
        } else {
            (ScanPhase::Done, ScanEffect::Nothing)
        },
        ScanPhase::Repeat => if pressed {
            (ScanPhase::Repeat, ScanEffect::ApplyRefresh)
        } else {
            (ScanPhase::Done, ScanEffect::Nothing)
        },
        ScanPhase::Done => (ScanPhase::Done, ScanEffect::Nothing),
    }
}

/// How long the scanner waits before sampling in a phase, in milliseconds:
/// settle 1, debounce 10, hold threshold 100, repeat interval 100.
pub open spec fn spec_wait_before_ms(phase: ScanPhase) -> u64 {
    match phase {
        ScanPhase::Settle => 1u64,
        ScanPhase::Debounce => 10u64,
        ScanPhase::Hold => 100u64,
        ScanPhase::Repeat => 100u64,
        ScanPhase::Done => 0u64,
    }
}

/// The wait that precedes the sample of a phase.
pub fn wait_before_ms(phase: ScanPhase) -> (r: u64)
    ensures
        r == spec_wait_before_ms(phase),
{
    match phase {
        ScanPhase::Settle => 1,
        ScanPhase::Debounce => 10,
        ScanPhase::Hold => 100,
        ScanPhase::Repeat => 100,
        ScanPhase::Done => 0,
    }
}

/// Folding a whole sample sequence through the scan machine from `phase`:
/// the resulting climate state and the number of applications of the button's
/// mutation.
pub open spec fn spec_scan(
    s: ClimateView,
    b: Button,
    phase: ScanPhase,
    samples: Seq<bool>,
) -> (ClimateView, nat)
    decreases samples.len(),
{
    if samples.len() == 0 || phase == ScanPhase::Done {
        (s, 0nat)
    } else {
        let step = spec_scan_step(phase, samples[0]);
        let applied = step.1 != ScanEffect::Nothing;
        let s2 = if applied {
            spec_apply_button(s, b)
        } else {
            s
        };
        let rest = spec_scan(s2, b, step.0, samples.drop_first());
        (rest.0, rest.1 + if applied {
            1nat
        } else {
            0nat
        })
    }
}

/// Run one button's whole scan pass against a recorded sequence of sense-line
/// samples (sample `k` is the read taken after the `k`-th wait). Returns how
/// often the button's mutation was applied.
pub fn scan_button(state: &mut ClimateControlBacker, button: Button, samples: &Vec<bool>) -> (applies:
    usize)
    requires
        old(state)@.inv(),
    ensures
        final(state)@ == spec_scan(old(state)@, button, ScanPhase::Settle, samples@).0,
        applies == spec_scan(old(state)@, button, ScanPhase::Settle, samples@).1,
        final(state)@.inv(),
{
    let mut phase = ScanPhase::Settle;
    let mut i: usize = 0;
    let mut applies: usize = 0;
    proof {
        assert(samples@.skip(0) =~= samples@);
    }
    while i < samples.len() && phase != ScanPhase::Done
        invariant
            state@.inv(),
            i <= samples@.len(),
            applies <= i,
            spec_scan(old(state)@, button, ScanPhase::Settle, samples@).0 == spec_scan(
                state@,
                button,
                phase,
                samples@.skip(i as int),
            ).0,
            spec_scan(old(state)@, button, ScanPhase::Settle, samples@).1 == applies + spec_scan(
                state@,
                button,
                phase,
                samples@.skip(i as int),
            ).1,
        decreases samples@.len() - i,
    {
        let pressed = samples[i];
        proof {
            assert(samples@.skip(i as int)[0] == samples@[i as int]);
            assert(samples@.skip(i as int).drop_first() =~= samples@.skip(i as int + 1));
        }
        let (p2, eff) = scan_step(phase, pressed);
        match eff {
            ScanEffect::Nothing => {},
            _ => {
                apply_button(state, button);
                applies = applies + 1;
            },
        }
        phase = p2;
        i = i + 1;
    }
    applies
}

/// Logical levels of the seven indicator lines beside the display; `true` is
/// the electrically high level (most indicators are wired active-low).
#[derive(Clone, Copy, Debug, PartialEq, Eq, Structural)]
pub struct LedLevels {
    pub demist: bool,
    pub ac: bool,
    pub econ: bool,
    pub defrost: bool,
    pub fanhigh: bool,
    pub fanlow: bool,
    pub recirc: bool,
}

/// Line levels mirroring a climate state; fan speeds other than the three
/// legal levels are mapped like fan-off (the invariant rules them out).
pub open spec fn spec_led_levels(s: ClimateView) -> LedLevels {
    LedLevels {
        demist: s.mode != ClimateControlMode::Face,
        defrost: s.mode != ClimateControlMode::Def,
        ac: !s.ac_toggle,
        econ: s.ac_toggle,
        recirc: !s.recirc_toggle,
        fanhigh: s.fan_speed != 100,
        fanlow: s.fan_speed != 50,
    }
}

/// Compute the indicator-line levels for the current climate state.
pub fn led_levels(state: &mut ClimateControlBacker) -> (r: LedLevels)
    requires
        old(state)@.inv(),
    ensures
        final(state)@ == old(state)@,
        r == spec_led_levels(old(state)@),
{
    let (demist, defrost) = match state.mode() {
        ClimateControlMode::Face => (false, true),
        ClimateControlMode::Feet => (true, true),
        ClimateControlMode::FaceFeet => (true, true),
        ClimateControlMode::FeetDef => (true, true),
        ClimateControlMode::Def => (true, false),
    };
    let (ac, econ) = if state.ac_toggle() {
        (false, true)
    } else {
        (true, false)
    };
    let recirc = !state.recirc_toggle();
    let fs = state.fan_speed();
    let (fanhigh, fanlow) = if fs == 0 {
        (true, true)
    } else if fs == 50 {
        (true, false)
    } else {
        (false, true)
    };
    LedLevels { demist, ac, econ, defrost, fanhigh, fanlow, recirc }
}

/// The pair of bus words derived from one climate-state snapshot.
#[derive(Clone, Copy, Debug, PartialEq, Eq, Structural)]
pub struct DisplayFrame {
    pub segment_bits: SegDisplayBits,
    pub serial_bits: SerialDisplayBits,
}

/// Gauge level of a set temperature: the linear map of [60, 90] onto [0, 10].
pub open spec fn spec_gauge_level(set_temp: int) -> int {
    (set_temp - 60) * 10 / 30
}

/// The whole serial word of a state: ambient read-out, set-temperature group
/// and the gauge bar.
pub open spec fn spec_serial_word(s: ClimateView) -> u64 {
    spec_amb_frame(s.ambient_temp as int) | spec_set_frame(s.set_temp as int) | spec_gauge(
        spec_gauge_level(s.set_temp as int),
    )
}

/// The whole static word of a state: mode group, recirculation, AC and unit
/// indicators, and the set-temperature ones digit.
pub open spec fn spec_seg_word(s: ClimateView) -> u32 {
    spec_mode_bits(s.mode) | (if s.recirc_toggle {
        RECIRC
    } else {
        FRESH_AIR
    }) | (if s.ac_toggle {
        AC
    } else {
        SEG_EMPTY
    }) | (if s.displaymode {
        CELCIUS
    } else {
        FARENHEIT
    }) | spec_set_second(spec_set_ones(s.set_temp as int))
}

/// Encode a climate-state snapshot into the two bus words. Pure; the platform
/// layer transmits the result and mirrors the indicator lines.
pub fn encode_frame(state: &ClimateControlBacker) -> (r: DisplayFrame)
    requires
        state@.inv(),
    ensures
        r.serial_bits.bits == spec_serial_word(state@),
        r.segment_bits.bits == spec_seg_word(state@),
{
    let serialdata = SerialDisplayBits::setup_amb(state.ambient_temp());
    let seg0: u32 = SegDisplayBits::mode(state.mode()).bits | SegDisplayBits::recirc(
        state.recirc_toggle(),
    ).bits | SegDisplayBits::ac_toggle(state.ac_toggle()).bits | SegDisplayBits::c_or_f(
        state.displaymode(),
    ).bits;
    let (serialset, segset) = SerialDisplayBits::setup_set(state.set_temp());
    let tempgauge: u8 = crate::map_u8(state.set_temp() as u8, 60, 90, 0, 10);
    let serial: u64 = serialdata.bits | serialset.bits | SerialDisplayBits::gauge(tempgauge).bits;
    let seg: u32 = seg0 | SegDisplayBits::set_second(segset).bits;
    DisplayFrame {
        segment_bits: SegDisplayBits { bits: seg },
        serial_bits: SerialDisplayBits { bits: serial },
    }
}

/// The bit of the serial frame that is put on the data line at step `k` of
/// the 128-step transmission: most significant bit first.
pub open spec fn spec_serial_level(frame: u128, k: int) -> bool {
    (frame >> (127 - k) as u128) & 1 != 0
}

/// The 128 data-line levels of one serial transmission, most significant bit
/// first; the driver clocks one level per pulse.
pub fn serial_levels(frame: u128) -> (r: Vec<bool>)
    ensures
        r@.len() == 128,
        forall|k: int| 0 <= k < 128 ==> r@[k] == spec_serial_level(frame, k),
{
    let mut r: Vec<bool> = Vec::new();
    let mut i: usize = 0;
    while i < 128
        invariant
            i <= 128,
            r@.len() == i,
            forall|k: int| 0 <= k < i ==> r@[k] == spec_serial_level(frame, k),
        decreases 128 - i,
    {
        let level: bool = (frame >> ((127 - i) as u128)) & 1 != 0;
        r.push(level);
        i = i + 1;
    }
    r
}

/// The four-byte message latched into the driver chip for the static side:
/// a zero register address followed by the low three bytes of the word,
/// least significant byte first.
pub fn ic_message(input: u32) -> (r: Vec<u8>)
    ensures
        r@.len() == 4,
        r@[0] == 0u8,
        r@[1] == (input & 0xff) as u8,
        r@[2] == ((input >> 8) & 0xff) as u8,
        r@[3] == ((input >> 16) & 0xff) as u8,
{
    let mut v: Vec<u8> = Vec::new();
    assert(input & 0xff < 256) by (bit_vector);
    assert((input >> 8) & 0xff < 256) by (bit_vector);
    assert((input >> 16) & 0xff < 256) by (bit_vector);
    v.push(0u8);
    v.push((input & 0xff) as u8);
    v.push(((input >> 8) & 0xff) as u8);
    v.push(((input >> 16) & 0xff) as u8);
    v
}

} // verus!
