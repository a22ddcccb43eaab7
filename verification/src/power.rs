//! The power source of the host, as reported by the power-status service.

use vstd::prelude::*;

verus! {

/// Where the host currently draws its power from.
#[derive(Clone, Copy, Debug, PartialEq, Eq, Structural)]
pub enum PowerSource {
    OnBattery,
    OnACPower,
}

impl PowerSource {
    /// The power source that the service's boolean "on battery" property stands for.
    pub open spec fn of(on_battery: bool) -> PowerSource {
        if on_battery {
            PowerSource::OnBattery
        } else {
            PowerSource::OnACPower
        }
    }

    /// Whether this source is the battery.
    pub open spec fn battery(self) -> bool {
        self is OnBattery
    }

    /// Reads the service's "on battery" property as a power source.
    pub fn from_on_battery(on_battery: bool) -> (source: PowerSource)
        ensures
            source == PowerSource::of(on_battery),
    {
        if on_battery {
            PowerSource::OnBattery
        } else {
            PowerSource::OnACPower
        }
    }

    /// The value of the "on battery" property that this source stands for.
    pub fn is_on_battery(&self) -> (on_battery: bool)
        ensures
            on_battery == self.battery(),
            PowerSource::of(on_battery) == *self,
    {
        match self {
            PowerSource::OnBattery => true,
            PowerSource::OnACPower => false,
        }
    }
}

} // verus!
