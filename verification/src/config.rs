//! What the triggers are set to: how strong a shock and a vibration are,
//! and where the device is found on the network.

use vstd::prelude::*;

verus! {

/// The strength of a shock until the user sets another.
pub const DEFAULT_SHOCK_STRENGTH: u8 = 10;

/// The strength of a vibration until the user sets another.
pub const DEFAULT_VIBRATE_STRENGTH: u8 = 80;

/// The settings of the triggers. There is one for the whole application;
/// whoever needs it is handed a reference.
#[derive(Clone, Debug, PartialEq, Eq)]
pub struct TriggerConfig {
    pub shock_strength: u8,
    pub vibrate_strength: u8,
    /// The address of the device; empty until it has been looked up.
    pub ip: String,
}

/// `TriggerConfig` as a mathematical value.
pub struct TriggerConfigView {
    pub shock_strength: u8,
    pub vibrate_strength: u8,
    pub ip: Seq<char>,
}

impl View for TriggerConfig {
    type V = TriggerConfigView;

    open spec fn view(&self) -> TriggerConfigView {
        TriggerConfigView {
            shock_strength: self.shock_strength,
            vibrate_strength: self.vibrate_strength,
            ip: self.ip@,
        }
    }
}

impl TriggerConfig {
    /// The settings as the application starts with them.
    pub fn new() -> (config: TriggerConfig)
        ensures
            config@ == (TriggerConfigView {
                shock_strength: DEFAULT_SHOCK_STRENGTH,
                vibrate_strength: DEFAULT_VIBRATE_STRENGTH,
                ip: Seq::empty(),
            }),
    {
        TriggerConfig {
            shock_strength: DEFAULT_SHOCK_STRENGTH,
            vibrate_strength: DEFAULT_VIBRATE_STRENGTH,
            ip: String::new(),
        }
    }

    /// Sets the strength of a shock, and nothing else.
    pub fn set_shock_strength(&mut self, strength: u8)
        ensures
            final(self)@ == (TriggerConfigView { shock_strength: strength, ..old(self)@ }),
    {
        self.shock_strength = strength;
    }

    /// Sets the strength of a vibration, and nothing else.
    pub fn set_vibrate_strength(&mut self, strength: u8)
        ensures
            final(self)@ == (TriggerConfigView { vibrate_strength: strength, ..old(self)@ }),
    {
        self.vibrate_strength = strength;
    }

    /// Keeps the address under which the device was found, and changes
    /// nothing else.
    pub fn set_ip(&mut self, ip: &str)
        ensures
            final(self)@ == (TriggerConfigView { ip: ip@, ..old(self)@ }),
    {
        self.ip = ip.to_owned();
    }
}

} // verus!
