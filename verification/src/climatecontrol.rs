//! The authoritative climate-control state: air-distribution mode, AC and
//! recirculation toggles, fan speed, ambient and set temperatures, and the
//! display unit flag. Every mutation goes through a validated setter; the
//! set temperature is clamped to [60, 90] on every write path.

use vstd::prelude::*;

verus! {

/// Air-distribution mode, cycled Face -> Feet -> FaceFeet -> FeetDef -> Def -> Face.
#[derive(Clone, Copy, Debug, PartialEq, Eq, Structural)]
pub enum ClimateControlMode {
    Face,
    Feet,
    FaceFeet,
    FeetDef,
    Def,
}

/// The successor of a mode in the fixed five-step cycle.
pub open spec fn mode_succ(m: ClimateControlMode) -> ClimateControlMode {
    match m {
        ClimateControlMode::Face => ClimateControlMode::Feet,
        ClimateControlMode::Feet => ClimateControlMode::FaceFeet,
        ClimateControlMode::FaceFeet => ClimateControlMode::FeetDef,
        ClimateControlMode::FeetDef => ClimateControlMode::Def,
        ClimateControlMode::Def => ClimateControlMode::Face,
    }
}

/// Cycling the mode five times returns to the starting mode, for every mode.
pub proof fn lemma_mode_cycle_closure(m: ClimateControlMode)
    ensures
        mode_succ(mode_succ(mode_succ(mode_succ(mode_succ(m))))) == m,
{
}

/// The set temperature clamped to the legal band [60, 90].
pub open spec fn clamp_set_temp(v: int) -> int {
    if v >= 90 {
        90
    } else if v <= 60 {
        60
    } else {
        v
    }
}

/// Clamping always lands in the band, and leaves a value already in the band alone.
pub proof fn lemma_clamp_set_temp_band(v: int)
    ensures
        60 <= clamp_set_temp(v) <= 90,
        60 <= v <= 90 ==> clamp_set_temp(v) == v,
{
}

/// Ghost image of a `ClimateControlBacker`: one field per stored value.
pub struct ClimateView {
    pub mode: ClimateControlMode,
    pub ac_toggle: bool,
    pub recirc_toggle: bool,
    pub fan_speed: u8,
    pub ambient_temp: i8,
    pub set_temp: i8,
    pub displaymode: bool,
}

impl ClimateView {
    /// State invariant: the set temperature sits in its clamp band and the fan
    /// speed is one of the three discrete levels.
    pub open spec fn inv(self) -> bool {
        &&& 60 <= self.set_temp <= 90
        &&& (self.fan_speed == 0 || self.fan_speed == 50 || self.fan_speed == 100)
    }
}

/// Mutable climate-control state. Constructed once at startup and mutated
/// through the setters below for the life of the process.
pub struct ClimateControlBacker {
    mode: ClimateControlMode,
    ac_toggle: bool,
    recirc_toggle: bool,
    fan_speed: u8,
    ambient_temp: i8,
    set_temp: i8,
    displaymode: bool,
}

impl View for ClimateControlBacker {
    type V = ClimateView;

    closed spec fn view(&self) -> ClimateView {
        ClimateView {
            mode: self.mode,
            ac_toggle: self.ac_toggle,
            recirc_toggle: self.recirc_toggle,
            fan_speed: self.fan_speed,
            ambient_temp: self.ambient_temp,
            set_temp: self.set_temp,
            displaymode: self.displaymode,
        }
    }
}

impl ClimateControlBacker {
    /// Startup state: defrost mode, both toggles off, fan off, set temperature
    /// at the cold end of its band.
    pub fn new() -> (r: Self)
        ensures
            r@ == (ClimateView {
                mode: ClimateControlMode::Def,
                ac_toggle: false,
                recirc_toggle: false,
                fan_speed: 0,
                ambient_temp: 50,
                set_temp: 60,
                displaymode: false,
            }),
            r@.inv(),
    {
        let mode = ClimateControlMode::Def;
        let ac_toggle = false;
        let recirc_toggle = false;
        let fan_speed: u8 = 0;
        let ambient_temp: i8 = 50;
        let set_temp: i8 = 60;
        let displaymode: bool = false;
        let cc = ClimateControlBacker {
            mode,
            ac_toggle,
            recirc_toggle,
            fan_speed,
            ambient_temp,
            set_temp,
            displaymode,
        };
        cc
    }

    pub fn mode(&self) -> (r: &ClimateControlMode)
        ensures
            *r == self@.mode,
    {
        &self.mode
    }

    /// Advance the mode one step along the fixed cycle; total, never fails.
    pub fn next_mode(&mut self)
        ensures
            final(self)@ == (ClimateView { mode: mode_succ(old(self)@.mode), ..old(self)@ }),
    {
        match self.mode {
            ClimateControlMode::Face => self.set_mode(ClimateControlMode::Feet),
            ClimateControlMode::Feet => self.set_mode(ClimateControlMode::FaceFeet),
            ClimateControlMode::FaceFeet => self.set_mode(ClimateControlMode::FeetDef),
            ClimateControlMode::FeetDef => self.set_mode(ClimateControlMode::Def),
            ClimateControlMode::Def => self.set_mode(ClimateControlMode::Face),
        }
    }

    pub fn set_mode(&mut self, mode: ClimateControlMode)
        ensures
            final(self)@ == (ClimateView { mode: mode, ..old(self)@ }),
    {
        self.mode = mode;
    }

    pub fn ac_toggle(&self) -> (r: bool)
        ensures
            r == self@.ac_toggle,
    {
        self.ac_toggle
    }

    /// Flip (not set) the AC toggle.
    pub fn set_ac_toggle(&mut self)
        ensures
            final(self)@ == (ClimateView { ac_toggle: !old(self)@.ac_toggle, ..old(self)@ }),
    {
        self.ac_toggle = !self.ac_toggle;
    }

    pub fn recirc_toggle(&self) -> (r: bool)
        ensures
            r == self@.recirc_toggle,
    {
        self.recirc_toggle
    }

    /// Flip (not set) the recirculation toggle.
    pub fn set_recirc_toggle(&mut self)
        ensures
            final(self)@ == (ClimateView { recirc_toggle: !old(self)@.recirc_toggle, ..old(self)@ }),
    {
        self.recirc_toggle = !self.recirc_toggle;
    }

    pub fn fan_speed(&mut self) -> (r: u8)
        ensures
            r == old(self)@.fan_speed,
            final(self)@ == old(self)@,
    {
        self.fan_speed
    }

    /// Store a fan speed. The scanner only ever supplies 0, 50 or 100;
    /// anything else is a caller contract violation.
    pub fn set_fan_speed(&mut self, fan_speed: u8)
        requires
            fan_speed == 0 || fan_speed == 50 || fan_speed == 100,
        ensures
            final(self)@ == (ClimateView { fan_speed: fan_speed, ..old(self)@ }),
    {
        self.fan_speed = fan_speed;
    }

    pub fn ambient_temp(&self) -> (r: i8)
        ensures
            r == self@.ambient_temp,
    {
        self.ambient_temp
    }

    /// Unconditional overwrite: ambient is a sensor readout, not user-editable.
    pub fn set_ambient_temp(&mut self, internal_temp: i8)
        ensures
            final(self)@ == (ClimateView { ambient_temp: internal_temp, ..old(self)@ }),
    {
        self.ambient_temp = internal_temp;
    }

    pub fn set_temp(&self) -> (r: i8)
        ensures
            r == self@.set_temp,
    {
        self.set_temp
    }

    /// Store a set temperature, re-clamping to [60, 90]: out-of-band values
    /// saturate, they never wrap. Holds for every input.
    pub fn set_set_temp(&mut self, set_temp: i8)
        ensures
            final(self)@ == (ClimateView {
                set_temp: clamp_set_temp(set_temp as int) as i8,
                ..old(self)@
            }),
            60 <= final(self)@.set_temp <= 90,
    {
        if set_temp >= 90 {
            self.set_temp = 90
        } else if set_temp <= 60 {
            self.set_temp = 60
        } else {
            self.set_temp = set_temp;
        }
    }

    /// Add `delta` to the set temperature, then clamp to [60, 90]. For every
    /// delta in [-200, 200] (and beyond) the result stays inside the band.
    pub fn adjust_set_temp(&mut self, delta: i16)
        ensures
            final(self)@ == (ClimateView {
                set_temp: clamp_set_temp(old(self)@.set_temp + delta) as i8,
                ..old(self)@
            }),
            60 <= final(self)@.set_temp <= 90,
    {
        let target: i32 = self.set_temp as i32 + delta as i32;
        if target >= 90 {
            self.set_temp = 90;
        } else if target <= 60 {
            self.set_temp = 60;
        } else {
            self.set_temp = target as i8;
        }
    }

    pub fn displaymode(&self) -> (r: bool)
        ensures
            r == self@.displaymode,
    {
        self.displaymode
    }

    pub fn set_displaymode(&mut self, displaymode: bool)
        ensures
            final(self)@ == (ClimateView { displaymode: displaymode, ..old(self)@ }),
    {
        self.displaymode = displaymode;
    }
}

impl Default for ClimateControlBacker {
    /// Same state as `new`.
    fn default() -> (r: Self)
        ensures
            r@ == (ClimateView {
                mode: ClimateControlMode::Def,
                ac_toggle: false,
                recirc_toggle: false,
                fan_speed: 0,
                ambient_temp: 50,
                set_temp: 60,
                displaymode: false,
            }),
            r@.inv(),
    {
        Self::new()
    }
}

} // verus!
