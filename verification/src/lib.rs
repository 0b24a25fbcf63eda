//! Controller core for an automotive HVAC control panel: climate state,
//! button-matrix scanning with debounce and auto-repeat, seven-segment
//! display encoding onto two bit buses, and ADC sample averaging.

use vstd::prelude::*;

pub mod climatecontrol;
pub mod digidisplay;
pub mod glyphs;
pub mod segdisplay;
pub mod temp;

verus! {

/// Linear range map: `x` in `[in_min, in_max]` mapped onto `[out_min, out_max]`,
/// computed as `(x - in_min) * (out_max - out_min) / (in_max - in_min) + out_min`.
pub fn map_u8(x: u8, in_min: u8, in_max: u8, out_min: u8, out_max: u8) -> (r: u8)
    requires
        in_min <= x <= in_max,
        in_min < in_max,
        out_min <= out_max,
    ensures
        r == (x - in_min) * (out_max - out_min) / (in_max - in_min) + out_min,
{
    let a: u32 = (x - in_min) as u32;
    let b: u32 = (out_max - out_min) as u32;
    assert(a * b <= 255 * 255) by (nonlinear_arith)
        requires
            a <= 255,
            b <= 255,
    ;
    let num: u32 = a * b;
    let den: u32 = (in_max - in_min) as u32;
    let q: u32 = num / den;
    assert(q <= out_max - out_min) by (nonlinear_arith)
        requires
            num == (x - in_min) * (out_max - out_min),
            den == in_max - in_min,
            x <= in_max,
            in_min <= x,
            in_min < in_max,
            out_min <= out_max,
            q == num / den,
    ;
    (q + out_min as u32) as u8
}

/// Truncating (round-toward-zero) division for a positive divisor, as the
/// machine's signed division computes it.
pub open spec fn tdiv(a: int, b: int) -> int {
    if a >= 0 {
        a / b
    } else {
        -((-a) / b)
    }
}

/// Linear range map over `i32`, with the machine's truncating division. The
/// output range may run downward (`out_max < out_min`), which inverts the map;
/// the result always lies between `out_min` and `out_max`.
pub fn map_int(x: i32, in_min: i32, in_max: i32, out_min: i32, out_max: i32) -> (r: i32)
    requires
        in_min <= x <= in_max,
        in_min < in_max,
    ensures
        r == tdiv((x - in_min) * (out_max - out_min), in_max - in_min) + out_min,
        out_min <= out_max ==> out_min <= r <= out_max,
        out_max <= out_min ==> out_max <= r <= out_min,
{
    broadcast use vstd::arithmetic::mul::lemma_mul_inequality;
    broadcast use vstd::arithmetic::div_mod::lemma_div_is_ordered;
    broadcast use vstd::arithmetic::div_mod::lemma_div_multiples_vanish;

    let a: u64 = (x as i64 - in_min as i64) as u64;
    let den: u64 = (in_max as i64 - in_min as i64) as u64;
    let downward: bool = out_max < out_min;
    let bmag: u64 = if downward {
        (out_min as i64 - out_max as i64) as u64
    } else {
        (out_max as i64 - out_min as i64) as u64
    };
    assert(a * bmag <= den * bmag && den * bmag <= 0xffff_ffffu64 * 0xffff_ffffu64)
        by (nonlinear_arith)
        requires
            a <= den,
            den <= 0xffff_ffffu64,
            bmag <= 0xffff_ffffu64,
    ;
    let q64: u64 = a * bmag / den as u64;
    proof {
        assert(a * bmag <= den * bmag);
        assert((a * bmag) / (den as int) <= (den * bmag) / (den as int));
        assert(((den as int) * (bmag as int)) / (den as int) == bmag as int);
        assert(q64 <= bmag);
    }
    let q: i64 = q64 as i64;
    let r64: i64 = if downward {
        out_min as i64 - q
    } else {
        out_min as i64 + q
    };
    proof {
        let num = (x - in_min) * (out_max - out_min);
        if downward {
            assert(num == -((a as int) * (bmag as int))) by (nonlinear_arith)
                requires
                    a == x - in_min,
                    bmag == out_min - out_max,
                    num == (x - in_min) * (out_max - out_min),
            ;
            assert(tdiv(num, in_max - in_min) == -q64);
        } else {
            assert(num == (a as int) * (bmag as int)) by (nonlinear_arith)
                requires
                    a == x - in_min,
                    bmag == out_max - out_min,
                    num == (x - in_min) * (out_max - out_min),
            ;
            assert(tdiv(num, in_max - in_min) == q64);
        }
    }
    r64 as i32
}

/// Linear range map over `i8`; see `map_int`.
pub fn map_i8(x: i8, in_min: i8, in_max: i8, out_min: i8, out_max: i8) -> (r: i8)
    requires
        in_min <= x <= in_max,
        in_min < in_max,
    ensures
        r == tdiv((x - in_min) * (out_max - out_min), in_max - in_min) + out_min,
        out_min <= out_max ==> out_min <= r <= out_max,
        out_max <= out_min ==> out_max <= r <= out_min,
{
    map_int(x as i32, in_min as i32, in_max as i32, out_min as i32, out_max as i32) as i8
}

/// Linear range map over `i32`; see `map_int`.
pub fn map_i32(x: i32, in_min: i32, in_max: i32, out_min: i32, out_max: i32) -> (r: i32)
    requires
        in_min <= x <= in_max,
        in_min < in_max,
    ensures
        r == tdiv((x - in_min) * (out_max - out_min), in_max - in_min) + out_min,
        out_min <= out_max ==> out_min <= r <= out_max,
        out_max <= out_min ==> out_max <= r <= out_min,
{
    map_int(x, in_min, in_max, out_min, out_max)
}

/// One pixel's color on the indicator strip.
#[derive(Clone, Copy, Debug, PartialEq, Eq, Structural)]
pub struct Rgb {
    pub r: u8,
    pub g: u8,
    pub b: u8,
}

/// The color-wheel test pattern: position 0-255 swept through red-green-blue
/// transitions.
pub open spec fn spec_wheel(pos: u8) -> Rgb {
    let wp = 255 - pos;
    if wp < 85 {
        Rgb { r: (255 - wp * 3) as u8, g: 0u8, b: (wp * 3) as u8 }
    } else if wp < 170 {
        Rgb { r: 0u8, g: ((wp - 85) * 3) as u8, b: (255 - (wp - 85) * 3) as u8 }
    } else {
        Rgb { r: ((wp - 170) * 3) as u8, g: (255 - (wp - 170) * 3) as u8, b: 0u8 }
    }
}

/// Color-wheel lookup for the indicator strip's boot animation.
pub fn wheel(wheel_pos: u8) -> (r: Rgb)
    ensures
        r == spec_wheel(wheel_pos),
{
    let wp: u8 = 255 - wheel_pos;
    if wp < 85 {
        return Rgb { r: 255 - wp * 3, g: 0, b: wp * 3 };
    }
    if wp < 170 {
        let w: u8 = wp - 85;
        return Rgb { r: 0, g: w * 3, b: 255 - w * 3 };
    }
    let w: u8 = wp - 170;
    Rgb { r: w * 3, g: 255 - w * 3, b: 0 }
}

} // verus!
