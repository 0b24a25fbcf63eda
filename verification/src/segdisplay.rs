//! Single-word encoder for the serially clocked display half: the same digit
//! groups, indicators and gauge as `digidisplay::SerialDisplayBits`, gathered
//! behind one 64-bit type. Bit positions and the glyph font are shared with
//! that module; `DisplayBits` adds the combined ambient read-out builder.

use vstd::prelude::*;

use crate::digidisplay::{spec_amb_first, spec_amb_frame, spec_amb_second, spec_gauge,
    spec_set_first, AMB1_B, AMB1_BL, AMB1_BR, AMB1_M, AMB1_T, AMB1_TL, AMB1_TR, AMB2_B, AMB2_BL,
    AMB2_BR, AMB2_M, AMB2_T, AMB2_TL, AMB2_TR, AMB_NEG, AMB_ONE, SERIAL_EMPTY, SET1_B, SET1_BL,
    SET1_BR, SET1_M, SET1_T, SET1_TL, SET1_TR, TG_NEG1, TG_NEG2, TG_NEG3, TG_NEG4, TG_NEG5,
    TG_PLUS1, TG_PLUS2, TG_PLUS3, TG_PLUS4, TG_PLUS5, TG_ZERO};
use crate::glyphs::{glyph, place7_64};

verus! {

/// Every segment and control bit of the serially clocked display in one word.
#[derive(Clone, Copy, Debug, PartialEq, Eq, Structural)]
pub struct DisplayBits {
    pub bits: u64,
}

impl DisplayBits {
    /// Pattern for the ambient "second" (ones) digit, nibble values 0-15.
    pub fn amb_second(n: u8) -> (r: DisplayBits)
        ensures
            r.bits == spec_amb_second(n as int),
    {
        let p = glyph(n);
        DisplayBits {
            bits: place7_64(p, AMB2_T, AMB2_TR, AMB2_TL, AMB2_M, AMB2_BR, AMB2_BL, AMB2_B),
        }
    }

    /// Pattern for the ambient "first" (tens) digit, nibble values 0-15.
    pub fn amb_first(n: u8) -> (r: DisplayBits)
        ensures
            r.bits == spec_amb_first(n as int),
    {
        let p = glyph(n);
        DisplayBits {
            bits: place7_64(p, AMB1_T, AMB1_TR, AMB1_TL, AMB1_M, AMB1_BR, AMB1_BL, AMB1_B),
        }
    }

    /// Ambient minus-sign indicator.
    pub fn amb_neg(b: bool) -> (r: DisplayBits)
        ensures
            r.bits == (if b {
                AMB_NEG
            } else {
                SERIAL_EMPTY
            }),
    {
        if b {
            return DisplayBits { bits: AMB_NEG };
        }
        DisplayBits { bits: SERIAL_EMPTY }
    }

    /// Ambient hundreds-overflow indicator.
    pub fn amb_hund(b: bool) -> (r: DisplayBits)
        ensures
            r.bits == (if b {
                AMB_ONE
            } else {
                SERIAL_EMPTY
            }),
    {
        if b {
            return DisplayBits { bits: AMB_ONE };
        }
        DisplayBits { bits: SERIAL_EMPTY }
    }

    /// Pattern for the set-temperature "first" (tens) digit, nibble values 0-15.
    pub fn set_first(n: u8) -> (r: DisplayBits)
        ensures
            r.bits == spec_set_first(n as int),
    {
        let p = glyph(n);
        DisplayBits {
            bits: place7_64(p, SET1_T, SET1_TR, SET1_TL, SET1_M, SET1_BR, SET1_BL, SET1_B),
        }
    }

    /// The thermometer-style gauge: exactly one bar lit for levels 0-10.
    pub fn gauge(level: u8) -> (r: DisplayBits)
        ensures
            r.bits == spec_gauge(level as int),
    {
        let bits: u64 = match level {
            0 => TG_NEG5,
            1 => TG_NEG4,
            2 => TG_NEG3,
            3 => TG_NEG2,
            4 => TG_NEG1,
            5 => TG_ZERO,
            6 => TG_PLUS1,
            7 => TG_PLUS2,
            8 => TG_PLUS3,
            9 => TG_PLUS4,
            10 => TG_PLUS5,
            _ => SERIAL_EMPTY,
        };
        DisplayBits { bits }
    }

    /// Full ambient-temperature read-out: sign and hundreds indicators plus
    /// the tens and ones digits of the remaining magnitude. Total over all of
    /// `i8`.
    pub fn set_amb(input: i8) -> (r: DisplayBits)
        ensures
            r.bits == spec_amb_frame(input as int),
    {
        let neg: bool = input < 0;
        let mag: i16 = if neg {
            -(input as i16)
        } else {
            input as i16
        };
        let hund: bool = mag >= 100;
        let m: i16 = if hund {
            mag - 100
        } else {
            mag
        };
        let mu: u8 = m as u8;
        let tens: u8 = mu / 10;
        let ones: u8 = mu % 10;
        let bits: u64 = DisplayBits::amb_neg(neg).bits | DisplayBits::amb_hund(hund).bits
            | DisplayBits::amb_first(tens).bits | DisplayBits::amb_second(ones).bits;
        DisplayBits { bits }
    }
}

} // verus!
