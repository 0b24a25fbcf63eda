use z31_hvac::climatecontrol::{ClimateControlBacker, ClimateControlMode};
use z31_hvac::digidisplay::{
    apply_button, button_lines, led_levels, scan_button, scan_step, wait_before_ms, Button,
    ButtonIter, ScanEffect, ScanPhase,
};

#[test]
fn button_iter_scans_fixed_order() {
    let mut it = ButtonIter::new();
    let expected = [
        Button::Auto,
        Button::Demist,
        Button::TempUp,
        Button::Off,
        Button::FanLo,
        Button::FanHigh,
        Button::Recirc,
        Button::TempDown,
    ];
    for b in expected {
        assert_eq!(it.next(), Some(b));
    }
    assert_eq!(it.next(), None);
    assert_eq!(it.next(), None);
}

#[test]
fn button_lines_match_the_matrix() {
    assert_eq!(button_lines(Button::Auto), (1, 4));
    assert_eq!(button_lines(Button::Demist), (1, 2));
    assert_eq!(button_lines(Button::TempUp), (4, 5));
    assert_eq!(button_lines(Button::Off), (3, 4));
    assert_eq!(button_lines(Button::FanLo), (6, 2));
    assert_eq!(button_lines(Button::FanHigh), (6, 4));
    assert_eq!(button_lines(Button::Recirc), (2, 3));
    assert_eq!(button_lines(Button::TempDown), (2, 5));
}

#[test]
fn buttons_issue_their_mutations() {
    let mut cc = ClimateControlBacker::new();
    apply_button(&mut cc, Button::Auto);
    assert_eq!(cc.ac_toggle(), true);
    apply_button(&mut cc, Button::Demist);
    assert_eq!(*cc.mode(), ClimateControlMode::Face);
    apply_button(&mut cc, Button::TempUp);
    assert_eq!(cc.set_temp(), 61);
    apply_button(&mut cc, Button::TempDown);
    assert_eq!(cc.set_temp(), 60);
    apply_button(&mut cc, Button::Recirc);
    assert_eq!(cc.recirc_toggle(), true);
}

#[test]
fn fan_buttons_step_through_levels() {
    // Off, then FanLo, then FanHigh leave the fan at 0, 50, 100 in turn,
    // and the indicator lines reflect each transition at once.
    let mut cc = ClimateControlBacker::new();
    apply_button(&mut cc, Button::Off);
    assert_eq!(cc.fan_speed(), 0);
    let leds = led_levels(&mut cc);
    assert!(leds.fanhigh && leds.fanlow);
    apply_button(&mut cc, Button::FanLo);
    assert_eq!(cc.fan_speed(), 50);
    let leds = led_levels(&mut cc);
    assert!(leds.fanhigh && !leds.fanlow);
    apply_button(&mut cc, Button::FanHigh);
    assert_eq!(cc.fan_speed(), 100);
    let leds = led_levels(&mut cc);
    assert!(!leds.fanhigh && leds.fanlow);
}

#[test]
fn led_levels_mirror_state() {
    let mut cc = ClimateControlBacker::new();
    cc.set_mode(ClimateControlMode::Face);
    let leds = led_levels(&mut cc);
    assert!(!leds.demist && leds.defrost);
    cc.set_mode(ClimateControlMode::Def);
    let leds = led_levels(&mut cc);
    assert!(leds.demist && !leds.defrost);
    cc.set_ac_toggle();
    let leds = led_levels(&mut cc);
    assert!(!leds.ac && leds.econ);
    cc.set_recirc_toggle();
    let leds = led_levels(&mut cc);
    assert!(!leds.recirc);
}

#[test]
fn scan_step_walks_the_debounce_machine() {
    assert_eq!(
        scan_step(ScanPhase::Settle, true),
        (ScanPhase::Debounce, ScanEffect::Nothing)
    );
    assert_eq!(
        scan_step(ScanPhase::Settle, false),
        (ScanPhase::Done, ScanEffect::Nothing)
    );
    // The press is applied after the debounce sample whatever it read.
    assert_eq!(
        scan_step(ScanPhase::Debounce, true),
        (ScanPhase::Hold, ScanEffect::Apply)
    );
    assert_eq!(
        scan_step(ScanPhase::Debounce, false),
        (ScanPhase::Done, ScanEffect::Apply)
    );
    assert_eq!(
        scan_step(ScanPhase::Hold, true),
        (ScanPhase::Repeat, ScanEffect::Nothing)
    );
    assert_eq!(
        scan_step(ScanPhase::Hold, false),
        (ScanPhase::Done, ScanEffect::Nothing)
    );
    assert_eq!(
        scan_step(ScanPhase::Repeat, true),
        (ScanPhase::Repeat, ScanEffect::ApplyRefresh)
    );
    assert_eq!(
        scan_step(ScanPhase::Repeat, false),
        (ScanPhase::Done, ScanEffect::Nothing)
    );
}

#[test]
fn scan_waits_are_the_timing_template() {
    assert_eq!(wait_before_ms(ScanPhase::Settle), 1);
    assert_eq!(wait_before_ms(ScanPhase::Debounce), 10);
    assert_eq!(wait_before_ms(ScanPhase::Hold), 100);
    assert_eq!(wait_before_ms(ScanPhase::Repeat), 100);
    assert_eq!(wait_before_ms(ScanPhase::Done), 0);
}

#[test]
fn bus_timing_template_is_fixed() {
    // Serial bus: clock low 8 us then high 2 us per bit; synchronizer:
    // a 3 us pulse every 12 ms.
    assert_eq!(z31_hvac::digidisplay::SERIAL_CLOCK_LOW_US, 8);
    assert_eq!(z31_hvac::digidisplay::SERIAL_CLOCK_HIGH_US, 2);
    assert_eq!(z31_hvac::digidisplay::SYNC_PULSE_HIGH_US, 3);
    assert_eq!(z31_hvac::digidisplay::SYNC_PERIOD_MS, 12);
}

#[test]
fn press_below_debounce_applies_exactly_once() {
    // A 5 ms press: the settle sample (1 ms) reads low, the debounce sample
    // (11 ms) reads released, and the mutation is still applied once.
    let mut cc = ClimateControlBacker::new();
    cc.set_set_temp(70);
    let samples = vec![true, false];
    let applies = scan_button(&mut cc, Button::TempUp, &samples);
    assert_eq!(applies, 1);
    assert_eq!(cc.set_temp(), 71);
}

#[test]
fn press_of_150ms_applies_exactly_once() {
    // Samples fall at 1, 11, 111 and 211 ms of the pass. A press held 150 ms
    // is released before the first repeat sample, so the hold branch is
    // entered but never repeats: one application, pinning the boundary.
    let mut cc = ClimateControlBacker::new();
    cc.set_set_temp(70);
    let samples = vec![true, true, true, false];
    let applies = scan_button(&mut cc, Button::TempUp, &samples);
    assert_eq!(applies, 1);
    assert_eq!(cc.set_temp(), 71);
}

#[test]
fn held_press_auto_repeats() {
    // A press held past the first repeat samples (1, 11, 111, 211, 311 ms all
    // low, released by 411 ms) applies more than once: initial plus repeats.
    let mut cc = ClimateControlBacker::new();
    cc.set_set_temp(70);
    let samples = vec![true, true, true, true, true, false];
    let applies = scan_button(&mut cc, Button::TempUp, &samples);
    assert_eq!(applies, 3);
    assert_eq!(cc.set_temp(), 73);
}

#[test]
fn stuck_line_repeats_until_release() {
    // A stuck sense line is indistinguishable from a held button: repeats
    // accumulate until the line finally reads released.
    let mut cc = ClimateControlBacker::new();
    let mut samples = vec![true; 40];
    samples.push(false);
    let applies = scan_button(&mut cc, Button::TempUp, &samples);
    // Debounce application plus one repeat per repeat sample.
    assert_eq!(applies, 1 + 37);
    assert_eq!(cc.set_temp(), 90);
}

#[test]
fn scan_unpressed_button_does_nothing() {
    let mut cc = ClimateControlBacker::new();
    let samples = vec![false, true, true];
    let applies = scan_button(&mut cc, Button::FanHigh, &samples);
    assert_eq!(applies, 0);
    assert_eq!(cc.fan_speed(), 0);
}
