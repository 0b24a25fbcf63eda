//! The canonical seven-segment font, defined once and shared by every digit
//! position. A glyph is the set of lit segments among {top, top-right,
//! top-left, middle, bottom-right, bottom-left, bottom}; placement onto a
//! concrete bus position happens by OR-ing that position's per-segment masks.

use vstd::prelude::*;

verus! {

/// Which of the seven segments of one digit position are lit.
#[derive(Clone, Copy, Debug, PartialEq, Eq, Structural)]
pub struct SegPattern {
    pub t: bool,
    pub tr: bool,
    pub tl: bool,
    pub m: bool,
    pub br: bool,
    pub bl: bool,
    pub b: bool,
}

/// The hexadecimal seven-segment font for nibble values 0-15; any other
/// value yields the all-off pattern.
pub open spec fn spec_glyph(n: int) -> SegPattern {
    if n == 0 {
        SegPattern { t: true, tr: true, tl: true, m: false, br: true, bl: true, b: true }
    } else if n == 1 {
        SegPattern { t: false, tr: true, tl: false, m: false, br: true, bl: false, b: false }
    } else if n == 2 {
        SegPattern { t: true, tr: true, tl: false, m: true, br: false, bl: true, b: true }
    } else if n == 3 {
        SegPattern { t: true, tr: true, tl: false, m: true, br: true, bl: false, b: true }
    } else if n == 4 {
        SegPattern { t: false, tr: true, tl: true, m: true, br: true, bl: false, b: false }
    } else if n == 5 {
        SegPattern { t: true, tr: false, tl: true, m: true, br: true, bl: false, b: true }
    } else if n == 6 {
        SegPattern { t: true, tr: false, tl: true, m: true, br: true, bl: true, b: true }
    } else if n == 7 {
        SegPattern { t: true, tr: true, tl: false, m: false, br: true, bl: false, b: false }
    } else if n == 8 {
        SegPattern { t: true, tr: true, tl: true, m: true, br: true, bl: true, b: true }
    } else if n == 9 {
        SegPattern { t: true, tr: true, tl: true, m: true, br: true, bl: false, b: true }
    } else if n == 10 {
        SegPattern { t: true, tr: true, tl: true, m: true, br: true, bl: true, b: false }
    } else if n == 11 {
        SegPattern { t: false, tr: false, tl: true, m: true, br: true, bl: true, b: true }
    } else if n == 12 {
        SegPattern { t: true, tr: false, tl: true, m: false, br: false, bl: true, b: true }
    } else if n == 13 {
        SegPattern { t: false, tr: true, tl: false, m: true, br: true, bl: true, b: true }
    } else if n == 14 {
        SegPattern { t: true, tr: false, tl: true, m: true, br: false, bl: true, b: true }
    } else if n == 15 {
        SegPattern { t: true, tr: false, tl: true, m: true, br: false, bl: true, b: false }
    } else {
        SegPattern { t: false, tr: false, tl: false, m: false, br: false, bl: false, b: false }
    }
}

/// Executable lookup of the canonical font.
pub fn glyph(n: u8) -> (r: SegPattern)
    ensures
        r == spec_glyph(n as int),
{
    match n {
        0 => SegPattern { t: true, tr: true, tl: true, m: false, br: true, bl: true, b: true },
        1 => SegPattern { t: false, tr: true, tl: false, m: false, br: true, bl: false, b: false },
        2 => SegPattern { t: true, tr: true, tl: false, m: true, br: false, bl: true, b: true },
        3 => SegPattern { t: true, tr: true, tl: false, m: true, br: true, bl: false, b: true },
        4 => SegPattern { t: false, tr: true, tl: true, m: true, br: true, bl: false, b: false },
        5 => SegPattern { t: true, tr: false, tl: true, m: true, br: true, bl: false, b: true },
        6 => SegPattern { t: true, tr: false, tl: true, m: true, br: true, bl: true, b: true },
        7 => SegPattern { t: true, tr: true, tl: false, m: false, br: true, bl: false, b: false },
        8 => SegPattern { t: true, tr: true, tl: true, m: true, br: true, bl: true, b: true },
        9 => SegPattern { t: true, tr: true, tl: true, m: true, br: true, bl: false, b: true },
        10 => SegPattern { t: true, tr: true, tl: true, m: true, br: true, bl: true, b: false },
        11 => SegPattern { t: false, tr: false, tl: true, m: true, br: true, bl: true, b: true },
        12 => SegPattern { t: true, tr: false, tl: true, m: false, br: false, bl: true, b: true },
        13 => SegPattern { t: false, tr: true, tl: false, m: true, br: true, bl: true, b: true },
        14 => SegPattern { t: true, tr: false, tl: true, m: true, br: false, bl: true, b: true },
        15 => SegPattern { t: true, tr: false, tl: true, m: true, br: false, bl: true, b: false },
        _ => SegPattern { t: false, tr: false, tl: false, m: false, br: false, bl: false, b: false },
    }
}

/// No two nibble values share a glyph: the font is injective on 0-15.
pub proof fn lemma_glyph_distinct(i: int, j: int)
    requires
        0 <= i < 16,
        0 <= j < 16,
        i != j,
    ensures
        spec_glyph(i) != spec_glyph(j),
{
}

/// Every nibble value lights at least one segment.
pub proof fn lemma_glyph_nonempty(i: int)
    requires
        0 <= i < 16,
    ensures
        spec_glyph(i).t || spec_glyph(i).tr || spec_glyph(i).tl || spec_glyph(i).m
            || spec_glyph(i).br || spec_glyph(i).bl || spec_glyph(i).b,
{
}

/// Place a glyph onto seven 64-bit segment masks: the OR of the masks of the
/// lit segments.
pub open spec fn spec_place7_64(
    p: SegPattern,
    t: u64,
    tr: u64,
    tl: u64,
    m: u64,
    br: u64,
    bl: u64,
    b: u64,
) -> u64 {
    (if p.t { t } else { 0 }) | (if p.tr { tr } else { 0 }) | (if p.tl { tl } else { 0 }) | (if p.m {
        m
    } else {
        0
    }) | (if p.br { br } else { 0 }) | (if p.bl { bl } else { 0 }) | (if p.b { b } else { 0 })
}

/// Executable placement onto 64-bit masks.
pub fn place7_64(p: SegPattern, t: u64, tr: u64, tl: u64, m: u64, br: u64, bl: u64, b: u64) -> (r:
    u64)
    ensures
        r == spec_place7_64(p, t, tr, tl, m, br, bl, b),
{
    (if p.t { t } else { 0 }) | (if p.tr { tr } else { 0 }) | (if p.tl { tl } else { 0 }) | (if p.m {
        m
    } else {
        0
    }) | (if p.br { br } else { 0 }) | (if p.bl { bl } else { 0 }) | (if p.b { b } else { 0 })
}

/// Place a glyph onto seven 32-bit segment masks.
pub open spec fn spec_place7_32(
    p: SegPattern,
    t: u32,
    tr: u32,
    tl: u32,
    m: u32,
    br: u32,
    bl: u32,
    b: u32,
) -> u32 {
    (if p.t { t } else { 0 }) | (if p.tr { tr } else { 0 }) | (if p.tl { tl } else { 0 }) | (if p.m {
        m
    } else {
        0
    }) | (if p.br { br } else { 0 }) | (if p.bl { bl } else { 0 }) | (if p.b { b } else { 0 })
}

/// Executable placement onto 32-bit masks.
pub fn place7_32(p: SegPattern, t: u32, tr: u32, tl: u32, m: u32, br: u32, bl: u32, b: u32) -> (r:
    u32)
    ensures
        r == spec_place7_32(p, t, tr, tl, m, br, bl, b),
{
    (if p.t { t } else { 0 }) | (if p.tr { tr } else { 0 }) | (if p.tl { tl } else { 0 }) | (if p.m {
        m
    } else {
        0
    }) | (if p.br { br } else { 0 }) | (if p.bl { bl } else { 0 }) | (if p.b { b } else { 0 })
}

} // verus!
