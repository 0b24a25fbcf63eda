use z31_hvac::segdisplay::DisplayBits;
use z31_hvac::digidisplay::{SerialDisplayBits, AMB_NEG, TG_ZERO};
use z31_hvac::temp::average;
use z31_hvac::{map_i32, map_i8, map_int, wheel, Rgb};

#[test]
fn average_of_empty_is_zero() {
    assert_eq!(average(&[]), 0);
}

#[test]
fn average_rounds_half_up() {
    assert_eq!(average(&[1, 2]), 2);
    assert_eq!(average(&[1, 2, 2]), 2);
    assert_eq!(average(&[0, 1]), 1);
    assert_eq!(average(&[10, 20, 30, 40]), 25);
    assert_eq!(average(&[7]), 7);
}

#[test]
fn average_saturates_at_type_max() {
    assert_eq!(average(&[65535, 65535, 65535]), 65535);
    assert_eq!(average(&[65535, 0]), 32768);
}

#[test]
fn average_takes_long_batches() {
    // The accumulator limit is on the rounded sum, not the sample count.
    let zeros = vec![0u16; 100_000];
    assert_eq!(average(&zeros), 0);
    let mut batch = vec![1u16; 100_000];
    batch.push(2);
    assert_eq!(average(&batch), 1);
}

#[test]
fn map_int_forward_and_inverted_ranges() {
    assert_eq!(map_int(0, 0, 32, 37, 5), 37);
    assert_eq!(map_int(32, 0, 32, 37, 5), 5);
    assert_eq!(map_int(5, 0, 32, 37, 5), 32);
    // Truncating division on a negative numerator, as the machine computes it.
    assert_eq!(map_int(1, 0, 3, 10, 0), 7);
    assert_eq!(map_int(50, 0, 100, 0, 10), 5);
}

#[test]
fn map_i8_and_map_i32_share_the_formula() {
    assert_eq!(map_i8(0, -60, 99, 99, -60), 39);
    assert_eq!(map_i8(75, 60, 90, 0, 10), 5);
    assert_eq!(map_i32(75, 60, 90, 0, 10), 5);
    assert_eq!(map_i32(-60, -60, 99, 99, -60), 99);
}

#[test]
fn wheel_sweeps_red_green_blue() {
    assert_eq!(wheel(255), Rgb { r: 255, g: 0, b: 0 });
    assert_eq!(wheel(0), Rgb { r: 255, g: 0, b: 0 });
    assert_eq!(wheel(128), Rgb { r: 0, g: 126, b: 129 });
    assert_eq!(wheel(200), Rgb { r: 90, g: 0, b: 165 });
}

#[test]
fn display_bits_match_serial_revision() {
    // The one-word revision encodes exactly as the split revision does.
    for n in 0u8..16 {
        assert_eq!(
            DisplayBits::amb_second(n).bits,
            SerialDisplayBits::amb_second(n).bits
        );
        assert_eq!(
            DisplayBits::amb_first(n).bits,
            SerialDisplayBits::amb_first(n).bits
        );
        assert_eq!(
            DisplayBits::set_first(n).bits,
            SerialDisplayBits::set_first(n).bits
        );
    }
    for level in 0u8..12 {
        assert_eq!(
            DisplayBits::gauge(level).bits,
            SerialDisplayBits::gauge(level).bits
        );
    }
    assert_eq!(DisplayBits::gauge(5).bits, TG_ZERO);
}

#[test]
fn display_bits_set_amb_full_readout() {
    assert_eq!(
        DisplayBits::set_amb(37).bits,
        DisplayBits::amb_first(3).bits | DisplayBits::amb_second(7).bits
    );
    assert_eq!(
        DisplayBits::set_amb(-5).bits,
        AMB_NEG | DisplayBits::amb_first(0).bits | DisplayBits::amb_second(5).bits
    );
    assert_eq!(DisplayBits::amb_neg(true).bits, AMB_NEG);
    assert_eq!(DisplayBits::amb_hund(true).bits, DisplayBits::set_amb(100).bits & 0x1_0000);
}

#[test]
fn ambient_extreme_negative_is_total() {
    // The widest magnitude an i8 can carry still encodes: sign, hundreds
    // flag and the remaining two digits.
    let r = DisplayBits::set_amb(-128);
    let expected = AMB_NEG
        | 0x1_0000u64
        | DisplayBits::amb_first(2).bits
        | DisplayBits::amb_second(8).bits;
    assert_eq!(r.bits, expected);
}
