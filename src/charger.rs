//! Blocking Smart Battery Charger interface and its error taxonomy.
use vstd::prelude::*;

use crate::{MilliAmps, MilliVolts};

verus! {

/// Charger error.
pub trait Error: core::fmt::Debug {
    /// Convert error to a generic charger error kind.
    ///
    /// By using this method, charger errors freely defined by HAL implementations
    /// can be converted to a set of generic charger errors upon which generic
    /// code can act.
    fn kind(&self) -> ErrorKind;
}

impl Error for core::convert::Infallible {
    #[inline]
    fn kind(&self) -> ErrorKind {
        crate::absurd(self)
    }
}

/// Charger error kind.
///
/// This represents a common set of charger operation errors. HAL implementations are
/// free to define more specific or additional error types. However, by providing
/// a mapping to these common charger errors, generic code can still react to them.
#[derive(Debug, Copy, Clone, Eq, PartialEq, Structural, Ord, PartialOrd, Hash)]
#[non_exhaustive]
pub enum ErrorKind {
    /// An error occurred on the underlying peripheral supporting the sensor.
    /// e.g. An I2C bus error occurs for an I2C enabled smart charger.
    /// The original error may contain more information.
    CommError,
    /// A different error occurred. The original error may contain more information.
    Other,
}

impl Error for ErrorKind {
    /// A kind classifies as itself.
    #[inline]
    fn kind(&self) -> (r: ErrorKind)
        ensures
            r == *self,
    {
        *self
    }
}

impl ErrorKind {
    /// A human-readable description of the kind.
    pub fn message(&self) -> (r: &'static str)
        ensures
            r@ == match self {
                ErrorKind::CommError => "Error communicating with charger"@,
                ErrorKind::Other =>
                    "A different error occurred. The original error may contain more information"@,
            },
    {
        match self {
            ErrorKind::CommError => "Error communicating with charger",
            ErrorKind::Other =>
                "A different error occurred. The original error may contain more information",
        }
    }
}

/// Charger error type trait.
///
/// This just defines the error type, to be used by the other Charger traits.
pub trait ErrorType {
    /// Error type.
    type Error: Error;
}

impl<T: ErrorType + ?Sized> ErrorType for &mut T {
    type Error = T::Error;
}

/// Blocking Smart Battery Charger methods
pub trait Charger: ErrorType {
    /// Sets the maximum current that a Smart Battery Charger may deliver to
    /// the Smart Battery. Returns charge current as acknowledged by the charger.
    /// In combination with the ChargingVoltage() function and the battery's internal
    /// impedance, this function determines the Smart Battery Charger's desired operating point. Together, these
    /// functions permit a Smart Battery Charger to dynamically adjust its charging profile (current/voltage) for
    /// optimal charge. The Smart Battery can effectively turn off the Smart Battery Charger by returning a value
    /// of 0 for this function.
    fn charging_current(&mut self, current: MilliAmps) -> Result<MilliAmps, Self::Error>;

    /// Sets and returns the maximum voltage that a Smart Battery Charger may deliver to the
    /// Smart Battery. Returns charge current as acknowledged by the charger.
    /// In combination with the ChargingCurrent() function and the battery's internal impedance,
    /// this function determines the Smart Battery Charger's desired operating point. Together, these functions
    /// permit a Smart Battery Charger to dynamically adjust its charging profile (current/voltage) for optimal
    /// charge. The Smart Battery can effectively turn off the Smart Battery Charger by returning a value of 0 for
    /// this function.
    fn charging_voltage(&mut self, voltage: MilliVolts) -> Result<MilliVolts, Self::Error>;
}

impl<T: Charger + ?Sized> Charger for &mut T {
    #[inline]
    fn charging_current(&mut self, current: MilliAmps) -> (r: Result<MilliAmps, Self::Error>)
        ensures
            exists|inner: &mut T| #[trigger] call_ensures(T::charging_current, (inner, current), r),
    {
        T::charging_current(self, current)
    }

    #[inline]
    fn charging_voltage(&mut self, voltage: MilliVolts) -> (r: Result<MilliVolts, Self::Error>)
        ensures
            exists|inner: &mut T| #[trigger] call_ensures(T::charging_voltage, (inner, voltage), r),
    {
        T::charging_voltage(self, voltage)
    }
}

} // verus!
