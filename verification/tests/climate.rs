use z31_hvac::climatecontrol::{ClimateControlBacker, ClimateControlMode};

#[test]
fn new_has_documented_defaults() {
    let cc = ClimateControlBacker::new();
    assert!(matches!(cc.mode(), ClimateControlMode::Def));
    assert_eq!(cc.ac_toggle(), false);
    assert_eq!(cc.recirc_toggle(), false);
    assert_eq!(cc.ambient_temp(), 50);
    assert_eq!(cc.set_temp(), 60);
    assert_eq!(cc.displaymode(), false);
}

#[test]
fn default_matches_new() {
    let mut a = ClimateControlBacker::default();
    let mut b = ClimateControlBacker::new();
    assert_eq!(a.set_temp(), b.set_temp());
    assert_eq!(a.ambient_temp(), b.ambient_temp());
    assert_eq!(a.fan_speed(), b.fan_speed());
    assert!(matches!(a.mode(), ClimateControlMode::Def));
}

#[test]
fn mode_cycles_back_after_five_steps() {
    // Cyclic closure: five advances return every mode to itself.
    let starts = [
        ClimateControlMode::Face,
        ClimateControlMode::Feet,
        ClimateControlMode::FaceFeet,
        ClimateControlMode::FeetDef,
        ClimateControlMode::Def,
    ];
    for start in starts {
        let mut cc = ClimateControlBacker::new();
        cc.set_mode(start);
        for _ in 0..5 {
            cc.next_mode();
        }
        assert_eq!(*cc.mode(), start);
    }
}

#[test]
fn mode_cycle_order() {
    let mut cc = ClimateControlBacker::new();
    cc.set_mode(ClimateControlMode::Face);
    cc.next_mode();
    assert_eq!(*cc.mode(), ClimateControlMode::Feet);
    cc.next_mode();
    assert_eq!(*cc.mode(), ClimateControlMode::FaceFeet);
    cc.next_mode();
    assert_eq!(*cc.mode(), ClimateControlMode::FeetDef);
    cc.next_mode();
    assert_eq!(*cc.mode(), ClimateControlMode::Def);
    cc.next_mode();
    assert_eq!(*cc.mode(), ClimateControlMode::Face);
}

#[test]
fn toggles_flip_not_set() {
    let mut cc = ClimateControlBacker::new();
    cc.set_ac_toggle();
    assert_eq!(cc.ac_toggle(), true);
    cc.set_ac_toggle();
    assert_eq!(cc.ac_toggle(), false);
    cc.set_recirc_toggle();
    assert_eq!(cc.recirc_toggle(), true);
    cc.set_recirc_toggle();
    assert_eq!(cc.recirc_toggle(), false);
}

#[test]
fn fan_speed_levels_stick() {
    let mut cc = ClimateControlBacker::new();
    cc.set_fan_speed(50);
    assert_eq!(cc.fan_speed(), 50);
    cc.set_fan_speed(100);
    assert_eq!(cc.fan_speed(), 100);
    cc.set_fan_speed(0);
    assert_eq!(cc.fan_speed(), 0);
}

#[test]
fn set_temp_clamps_to_band() {
    let mut cc = ClimateControlBacker::new();
    cc.set_set_temp(75);
    assert_eq!(cc.set_temp(), 75);
    cc.set_set_temp(127);
    assert_eq!(cc.set_temp(), 90);
    cc.set_set_temp(-128);
    assert_eq!(cc.set_temp(), 60);
    cc.set_set_temp(90);
    assert_eq!(cc.set_temp(), 90);
    cc.set_set_temp(60);
    assert_eq!(cc.set_temp(), 60);
}

#[test]
fn set_temp_single_step_from_boundaries_stays_in_band() {
    // A single application never leaves [60, 90], even from a boundary value.
    let mut cc = ClimateControlBacker::new();
    cc.set_set_temp(90);
    let t = cc.set_temp();
    cc.set_set_temp(t + 1);
    assert_eq!(cc.set_temp(), 90);
    cc.set_set_temp(60);
    let t = cc.set_temp();
    cc.set_set_temp(t - 1);
    assert_eq!(cc.set_temp(), 60);
}

#[test]
fn adjust_set_temp_saturates_for_large_deltas() {
    // Deltas across [-200, 200] keep the set temperature inside [60, 90].
    let mut cc = ClimateControlBacker::new();
    for d in -200i16..=200i16 {
        cc.adjust_set_temp(d);
        let t = cc.set_temp();
        assert!((60..=90).contains(&t));
    }
    let mut cc = ClimateControlBacker::new();
    cc.adjust_set_temp(200);
    assert_eq!(cc.set_temp(), 90);
    cc.adjust_set_temp(-200);
    assert_eq!(cc.set_temp(), 60);
    cc.adjust_set_temp(11);
    assert_eq!(cc.set_temp(), 71);
}

#[test]
fn ambient_temp_is_overwritten_unclamped() {
    let mut cc = ClimateControlBacker::new();
    cc.set_ambient_temp(-99);
    assert_eq!(cc.ambient_temp(), -99);
    cc.set_ambient_temp(99);
    assert_eq!(cc.ambient_temp(), 99);
    cc.set_ambient_temp(0);
    assert_eq!(cc.ambient_temp(), 0);
}

#[test]
fn displaymode_is_stored() {
    let mut cc = ClimateControlBacker::new();
    cc.set_displaymode(true);
    assert_eq!(cc.displaymode(), true);
    cc.set_displaymode(false);
    assert_eq!(cc.displaymode(), false);
}
