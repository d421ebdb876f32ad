//! Interfaces and value encodings for Smart Battery System devices and ACPI
//! battery and power-source methods.
use vstd::prelude::*;

pub mod acpi;
pub mod bitfield;
pub mod charger;
pub mod smart_battery;
pub mod wire;

verus! {

/// Charging current is measured in milliamps, where 1mA is 1
pub type MilliAmps = u16;

/// Charging voltage is measured in millivolts, where 1mV is 1
pub type MilliVolts = u16;

/// Charging current is measured in milliamps, where 1mA is 1
pub type MilliAmpsSigned = i16;

/// Charging voltage is measured in millivolts, where 1mV is 1
pub type MilliVoltsSigned = i16;

/// Relies on `core::convert::Infallible` having no values: rustc checks that the
/// empty match covers every case, so no call of this function ever runs.
#[verifier::external_body]
pub(crate) fn absurd<T>(never: &core::convert::Infallible) -> T {
    match *never {}
}

} // verus!
