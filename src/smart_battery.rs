//! Blocking Smart Battery interface, its error taxonomy, and the registers
//! that the interface reads and writes.
use vstd::prelude::*;

use crate::bitfield::{
    get_field, get_flag, lemma_get_field_bound, lemma_low_masks, lemma_set_get, read_field,
    read_flag, set_field, set_flag, write_field, write_flag,
};
use crate::{MilliAmpsSigned, MilliVolts};

verus! {

/// Smart Battery error.
pub trait Error: core::fmt::Debug {
    /// Convert error to a generic Smart Battery error kind.
    ///
    /// By using this method, Smart Battery errors freely defined by HAL implementations
    /// can be converted to a set of generic Smart Battery errors upon which generic
    /// code can act.
    fn kind(&self) -> ErrorKind;
}

impl Error for core::convert::Infallible {
    #[inline]
    fn kind(&self) -> ErrorKind {
        crate::absurd(self)
    }
}

/// Smart Battery error kind.
///
/// This represents a common set of Smart Battery operation errors. HAL implementations are
/// free to define more specific or additional error types. However, by providing
/// a mapping to these common Smart Battery errors, generic code can still react to them.
#[derive(Debug, Copy, Clone, Eq, PartialEq, Structural, Ord, PartialOrd, Hash)]
#[non_exhaustive]
pub enum ErrorKind {
    /// An error occurred on the underlying peripheral supporting the sensor.
    /// e.g. An I2C bus error occurs for an I2C enabled Smart Battery.
    /// The original error may contain more information.
    CommError,
    /// An error occured and was reported by a read from the BatteryStatus (0x16) register.
    BatteryStatus(ErrorCode),
    /// A different error occurred. The original error may contain more information.
    Other,
}

impl Error for ErrorKind {
    /// A kind classifies as itself.
    #[inline]
    fn kind(&self) -> (r: ErrorKind)
        ensures
            r == *self,
    {
        *self
    }
}

impl ErrorKind {
    /// A human-readable description of the kind.
    pub fn message(&self) -> (r: &'static str)
        ensures
            r@ == match self {
                ErrorKind::CommError => "Error communicating with Smart Battery"@,
                ErrorKind::BatteryStatus(_) =>
                    "Error reported by BatteryService (0x16) register. The original error may contain more information"@,
                ErrorKind::Other =>
                    "A different error occurred. The original error may contain more information"@,
            },
    {
        match self {
            ErrorKind::CommError => "Error communicating with Smart Battery",
            ErrorKind::BatteryStatus(_) =>
                "Error reported by BatteryService (0x16) register. The original error may contain more information",
            ErrorKind::Other =>
                "A different error occurred. The original error may contain more information",
        }
    }
}

/// Smart Battery error type trait.
///
/// This just defines the error type, to be used by the other Smart Battery traits.
pub trait ErrorType {
    /// Error type.
    type Error: Error;
}

impl<T: ErrorType + ?Sized> ErrorType for &mut T {
    type Error = T::Error;
}

/// Depending on the value of the CapacityMode bit, the Smart Battery will use milliamps or centiwatts.
pub enum CapacityModeValue {
    /// Unsigned Milliamp or MilliampHour representation, used when CapacityMode bit = 0.
    MilliAmpUnsigned(u16),
    /// Unsigned Centiwatt or CentiwattHour representation, used when CapacityMode bit = 1.
    CentiWattUnsigned(u16),
}

/// Time is measured in minutes, where 1 minute is 1
pub type Minutes = u16;

/// Depending on the value of the CapacityMode bit, the Smart Battery will use milliamps or centiwatts.
/// Signed to represent negative currents and capacities.
pub enum CapacityModeSignedValue {
    /// Signed Milliamp or MilliampHour representation, used when CapacityMode bit = 0.
    MilliAmpSigned(i16),
    /// Signed Centiwatt or CentiwattHour representation, used when CapacityMode bit = 1.
    CentiWattSigned(i16),
}

/// Temperature is measured in decikelvins, where 0.1 Kelvin is 1.
pub type DeciKelvin = u16;

/// Percent, 1% is 1.
pub type Percent = u8;

/// Cycles, 1 cycle is 1.
pub type Cycles = u16;

/// Error codes that must be supported by the Smart Battery.
#[derive(Debug, Copy, Clone, Eq, PartialEq, Structural, Ord, PartialOrd, Hash)]
pub enum ErrorCode {
    /// The Smart Battery processed the function code
    /// without detecting any errors.
    NoError,
    /// The Smart Battery is unable to process the function
    /// code at this time.
    Busy,
    /// The Smart Battery detected an attempt to read or
    /// write to a function code reserved by this version of
    /// the specification. The Smart Battery detected an
    /// attempt to access an unsupported optional
    /// manufacturer function code.
    ReservedCmd,
    /// The Smart Battery does not support this function
    /// code which is defined in this version of the
    /// specification.
    UnsupportedCmd,
    /// The Smart Battery detected an attempt to write to a
    /// read only function code.
    AccessDenied,
    /// The Smart Battery detected a data overflow or
    /// under flow.
    UnderOverFlow,
    /// The Smart Battery detected an attempt to write to a
    /// function code with an incorrect size data block.
    BadSize,
    /// The Smart Battery detected an unidentifiable error.
    UnknownError,
}

impl ErrorCode {
    /// The code number of each error code.
    pub open spec fn spec_into_bits(self) -> u8 {
        match self {
            ErrorCode::NoError => 0,
            ErrorCode::Busy => 1,
            ErrorCode::ReservedCmd => 2,
            ErrorCode::UnsupportedCmd => 3,
            ErrorCode::AccessDenied => 4,
            ErrorCode::UnderOverFlow => 5,
            ErrorCode::BadSize => 6,
            ErrorCode::UnknownError => 7,
        }
    }

    /// The error code of a code number: numbers 0 to 6 name their own code,
    /// every other number is an unknown error.
    pub open spec fn spec_from_bits(value: u8) -> ErrorCode {
        match value {
            0 => ErrorCode::NoError,
            1 => ErrorCode::Busy,
            2 => ErrorCode::ReservedCmd,
            3 => ErrorCode::UnsupportedCmd,
            4 => ErrorCode::AccessDenied,
            5 => ErrorCode::UnderOverFlow,
            6 => ErrorCode::BadSize,
            _ => ErrorCode::UnknownError,
        }
    }

    /// Encodes the code as its number.
    pub fn into_bits(self) -> (r: u8)
        ensures
            r == self.spec_into_bits(),
            r <= 7,
    {
        match self {
            ErrorCode::NoError => 0,
            ErrorCode::Busy => 1,
            ErrorCode::ReservedCmd => 2,
            ErrorCode::UnsupportedCmd => 3,
            ErrorCode::AccessDenied => 4,
            ErrorCode::UnderOverFlow => 5,
            ErrorCode::BadSize => 6,
            ErrorCode::UnknownError => 7,
        }
    }

    /// Decodes a code number; never fails.
    pub fn from_bits(value: u8) -> (r: Self)
        ensures
            r == Self::spec_from_bits(value),
    {
        match value {
            0 => ErrorCode::NoError,
            1 => ErrorCode::Busy,
            2 => ErrorCode::ReservedCmd,
            3 => ErrorCode::UnsupportedCmd,
            4 => ErrorCode::AccessDenied,
            5 => ErrorCode::UnderOverFlow,
            6 => ErrorCode::BadSize,
            _ => ErrorCode::UnknownError,
        }
    }
}

/// Decoding then encoding a code number gives it back when it is 0 to 7; every
/// larger number comes back as 7, the number of `UnknownError`.
pub proof fn lemma_error_code_decode(value: u8)
    ensures
        ErrorCode::spec_from_bits(value).spec_into_bits() == if value <= 7 {
            value
        } else {
            7u8
        },
        value >= 7 ==> ErrorCode::spec_from_bits(value) == ErrorCode::UnknownError,
{
}

/// Encoding then decoding an error code gives it back.
pub proof fn lemma_error_code_round_trip(code: ErrorCode)
    ensures
        ErrorCode::spec_from_bits(code.spec_into_bits()) == code,
{
}

/// Revision of SBS Spec, used in specification_info().
#[derive(Debug, PartialEq, Eq, Structural)]
pub enum Revision {
    /// Revision number of no known revision.
    Reserved,
    /// Version 1.0 and 1.1.
    Version1And1Dot1,
}

impl Revision {
    /// The revision number of each revision.
    pub open spec fn spec_into_bits(self) -> u8 {
        match self {
            Revision::Reserved => 0,
            Revision::Version1And1Dot1 => 1,
        }
    }

    /// The revision of a revision number: 1 is the only known one, every other
    /// number is reserved.
    pub open spec fn spec_from_bits(value: u8) -> Revision {
        if value == 1 {
            Revision::Version1And1Dot1
        } else {
            Revision::Reserved
        }
    }

    /// Encodes the revision as its number.
    pub fn into_bits(self) -> (r: u8)
        ensures
            r == self.spec_into_bits(),
            r <= 1,
    {
        match self {
            Revision::Reserved => 0,
            Revision::Version1And1Dot1 => 1,
        }
    }

    /// Decodes a revision number; never fails.
    pub fn from_bits(value: u8) -> (r: Self)
        ensures
            r == Self::spec_from_bits(value),
    {
        match value {
            1 => Revision::Version1And1Dot1,
            _ => Revision::Reserved,
        }
    }
}

/// Version of SBS Spec, used in specification_info().
#[derive(Debug, PartialEq, Eq, Structural)]
pub enum Version {
    /// Reserved.
    Reserved,
    /// Version 1.0.
    Version1,
    /// Version 1.1.
    Version1Dot1,
    /// Version 1.1 with optional PEC support.
    Version1Dot1Pec,
}

impl Version {
    /// The version number of each version.
    pub open spec fn spec_into_bits(self) -> u8 {
        match self {
            Version::Reserved => 0,
            Version::Version1 => 1,
            Version::Version1Dot1 => 2,
            Version::Version1Dot1Pec => 3,
        }
    }

    /// The version of a version number: 1 to 3 name their own version, every
    /// other number is reserved.
    pub open spec fn spec_from_bits(value: u8) -> Version {
        match value {
            1 => Version::Version1,
            2 => Version::Version1Dot1,
            3 => Version::Version1Dot1Pec,
            _ => Version::Reserved,
        }
    }

    /// Encodes the version as its number.
    pub fn into_bits(self) -> (r: u8)
        ensures
            r == self.spec_into_bits(),
            r <= 3,
    {
        match self {
            Version::Reserved => 0,
            Version::Version1 => 1,
            Version::Version1Dot1 => 2,
            Version::Version1Dot1Pec => 3,
        }
    }

    /// Decodes a version number; never fails.
    pub fn from_bits(value: u8) -> (r: Self)
        ensures
            r == Self::spec_from_bits(value),
    {
        match value {
            1 => Version::Version1,
            2 => Version::Version1Dot1,
            3 => Version::Version1Dot1Pec,
            _ => Version::Reserved,
        }
    }
}

/// Return value of the manufacture_date() function (0x1b). The date is packed in the
/// following fashion: (year-1980) * 512 + month * 32 + day.
#[derive(Copy, Clone, Debug)]
pub struct ManufactureDate(u16);

impl View for ManufactureDate {
    type V = u16;

    closed spec fn view(&self) -> u16 {
        self.0
    }
}

impl ManufactureDate {
    /// Creates a new default initialized bitfield: every bit clear.
    pub fn new() -> (r: Self)
        ensures
            r@ == 0,
    {
        ManufactureDate(0)
    }

    /// Convert from bits.
    pub fn from_bits(bits: u16) -> (r: Self)
        ensures
            r@ == bits,
    {
        ManufactureDate(bits)
    }

    /// Convert into bits.
    pub fn into_bits(self) -> (r: u16)
        ensures
            r == self@,
    {
        self.0
    }

    /// 1 - 31 (corresponds to date).
    ///
    /// Bits: 0..5
    pub fn day(&self) -> (r: usize)
        ensures
            r == get_field(self@, 0, 5) as usize,
    {
        read_field(self.0, 0, 5) as usize
    }

    /// Returns the register with `day` replaced by `value`.
    ///
    /// Bits: 0..5
    pub fn with_day(self, value: usize) -> (r: Self)
        requires
            value < 32,
        ensures
            r@ == set_field(self@, 0, 5, value as u16),
    {
        proof {
            lemma_low_masks();
        }
        ManufactureDate(write_field(self.0, 0, 5, value as u16))
    }

    /// Returns the register with `day` replaced by `value`, or an error when
    /// `value` does not fit in the field.
    ///
    /// Bits: 0..5
    pub fn with_day_checked(self, value: usize) -> (r: Result<Self, ()>)
        ensures
            match r {
                Ok(s) => value < 32 && s@ == set_field(self@, 0, 5, value as u16),
                Err(_) => value >= 32,
            },
    {
        if value < 32 {
            Ok(self.with_day(value))
        } else {
            Err(())
        }
    }

    /// Replaces `day` by `value`.
    ///
    /// Bits: 0..5
    pub fn set_day(&mut self, value: usize)
        requires
            value < 32,
        ensures
            final(self)@ == set_field(old(self)@, 0, 5, value as u16),
    {
        proof {
            lemma_low_masks();
        }
        self.0 = write_field(self.0, 0, 5, value as u16);
    }

    /// Replaces `day` by `value`, or leaves the register unchanged and returns an
    /// error when `value` does not fit in the field.
    ///
    /// Bits: 0..5
    pub fn set_day_checked(&mut self, value: usize) -> (r: Result<(), ()>)
        ensures
            r is Ok <==> value < 32,
            r is Ok ==> final(self)@ == set_field(old(self)@, 0, 5, value as u16),
            r is Err ==> final(self)@ == old(self)@,
    {
        if value < 32 {
            self.set_day(value);
            Ok(())
        } else {
            Err(())
        }
    }

    /// 1 - 12 (corresponds to month number).
    ///
    /// Bits: 5..9
    pub fn month(&self) -> (r: usize)
        ensures
            r == get_field(self@, 5, 4) as usize,
    {
        read_field(self.0, 5, 4) as usize
    }

    /// Returns the register with `month` replaced by `value`.
    ///
    /// Bits: 5..9
    pub fn with_month(self, value: usize) -> (r: Self)
        requires
            value < 16,
        ensures
            r@ == set_field(self@, 5, 4, value as u16),
    {
        proof {
            lemma_low_masks();
        }
        ManufactureDate(write_field(self.0, 5, 4, value as u16))
    }

    /// Returns the register with `month` replaced by `value`, or an error when
    /// `value` does not fit in the field.
    ///
    /// Bits: 5..9
    pub fn with_month_checked(self, value: usize) -> (r: Result<Self, ()>)
        ensures
            match r {
                Ok(s) => value < 16 && s@ == set_field(self@, 5, 4, value as u16),
                Err(_) => value >= 16,
            },
    {
        if value < 16 {
            Ok(self.with_month(value))
        } else {
            Err(())
        }
    }

    /// Replaces `month` by `value`.
    ///
    /// Bits: 5..9
    pub fn set_month(&mut self, value: usize)
        requires
            value < 16,
        ensures
            final(self)@ == set_field(old(self)@, 5, 4, value as u16),
    {
        proof {
            lemma_low_masks();
        }
        self.0 = write_field(self.0, 5, 4, value as u16);
    }

    /// Replaces `month` by `value`, or leaves the register unchanged and returns an
    /// error when `value` does not fit in the field.
    ///
    /// Bits: 5..9
    pub fn set_month_checked(&mut self, value: usize) -> (r: Result<(), ()>)
        ensures
            r is Ok <==> value < 16,
            r is Ok ==> final(self)@ == set_field(old(self)@, 5, 4, value as u16),
            r is Err ==> final(self)@ == old(self)@,
    {
        if value < 16 {
            self.set_month(value);
            Ok(())
        } else {
            Err(())
        }
    }

    /// 0 - 127 (corresponds to year biased by 1980).
    /// Add 1980 to the year to get the true year.
    ///
    /// Bits: 9..16
    pub fn year(&self) -> (r: usize)
        ensures
            r == get_field(self@, 9, 7) as usize,
    {
        read_field(self.0, 9, 7) as usize
    }

    /// Returns the register with `year` replaced by `value`.
    ///
    /// Bits: 9..16
    pub fn with_year(self, value: usize) -> (r: Self)
        requires
            value < 128,
        ensures
            r@ == set_field(self@, 9, 7, value as u16),
    {
        proof {
            lemma_low_masks();
        }
        ManufactureDate(write_field(self.0, 9, 7, value as u16))
    }

    /// Returns the register with `year` replaced by `value`, or an error when
    /// `value` does not fit in the field.
    ///
    /// Bits: 9..16
    pub fn with_year_checked(self, value: usize) -> (r: Result<Self, ()>)
        ensures
            match r {
                Ok(s) => value < 128 && s@ == set_field(self@, 9, 7, value as u16),
                Err(_) => value >= 128,
            },
    {
        if value < 128 {
            Ok(self.with_year(value))
        } else {
            Err(())
        }
    }

    /// Replaces `year` by `value`.
    ///
    /// Bits: 9..16
    pub fn set_year(&mut self, value: usize)
        requires
            value < 128,
        ensures
            final(self)@ == set_field(old(self)@, 9, 7, value as u16),
    {
        proof {
            lemma_low_masks();
        }
        self.0 = write_field(self.0, 9, 7, value as u16);
    }

    /// Replaces `year` by `value`, or leaves the register unchanged and returns an
    /// error when `value` does not fit in the field.
    ///
    /// Bits: 9..16
    pub fn set_year_checked(&mut self, value: usize) -> (r: Result<(), ()>)
        ensures
            r is Ok <==> value < 128,
            r is Ok ==> final(self)@ == set_field(old(self)@, 9, 7, value as u16),
            r is Err ==> final(self)@ == old(self)@,
    {
        if value < 128 {
            self.set_year(value);
            Ok(())
        } else {
            Err(())
        }
    }
}

impl Default for ManufactureDate {
    fn default() -> (r: Self)
        ensures
            r@ == 0,
    {
        ManufactureDate(0)
    }
}

impl From<u16> for ManufactureDate {
    fn from(v: u16) -> (r: Self)
        ensures
            r@ == v,
    {
        ManufactureDate(v)
    }
}

impl vstd::std_specs::convert::FromSpecImpl<u16> for ManufactureDate {
    open spec fn obeys_from_spec() -> bool {
        true
    }

    closed spec fn from_spec(v: u16) -> ManufactureDate {
        ManufactureDate(v)
    }
}

impl From<ManufactureDate> for u16 {
    fn from(v: ManufactureDate) -> (r: u16)
        ensures
            r == v@,
    {
        v.0
    }
}

impl vstd::std_specs::convert::FromSpecImpl<ManufactureDate> for u16 {
    open spec fn obeys_from_spec() -> bool {
        true
    }

    open spec fn from_spec(v: ManufactureDate) -> u16 {
        v@
    }
}

/// Return value of the battery_mode() function (0x03). See the SBS spec for more information.
///
/// Bits 2..7 and 10..13 are reserved: they are kept as read and no accessor changes them.
#[derive(Copy, Clone, Debug)]
pub struct BatteryModeFields(u16);

impl View for BatteryModeFields {
    type V = u16;

    closed spec fn view(&self) -> u16 {
        self.0
    }
}

impl BatteryModeFields {
    /// Creates a new default initialized bitfield: every bit clear.
    pub fn new() -> (r: Self)
        ensures
            r@ == 0,
    {
        BatteryModeFields(0)
    }

    /// Convert from bits.
    pub fn from_bits(bits: u16) -> (r: Self)
        ensures
            r@ == bits,
    {
        BatteryModeFields(bits)
    }

    /// Convert into bits.
    pub fn into_bits(self) -> (r: u16)
        ensures
            r == self@,
    {
        self.0
    }

    /// INTERNAL_CHARGE_CONTROLLER bit set indicates that the battery pack contains its own internal
    /// charge controller. Read-only: no setter is offered.
    ///
    /// Bits: 0..1
    pub fn internal_charge_controller(&self) -> (r: bool)
        ensures
            r == get_flag(self@, 0),
    {
        read_flag(self.0, 0)
    }

    /// PRIMARY_BATTERY_SUPPORT bit set indicates that the battery pack has the ability to act as either
    /// the primary or secondary battery in a system. Read-only: no setter is offered.
    ///
    /// Bits: 1..2
    pub fn primary_battery_support(&self) -> (r: bool)
        ensures
            r == get_flag(self@, 1),
    {
        read_flag(self.0, 1)
    }

    /// CONDITION_FLAG bit set indicates that the battery is requesting a conditioning cycle.
    /// Read-only: no setter is offered.
    ///
    /// Bits: 7..8
    pub fn condition_flag(&self) -> (r: bool)
        ensures
            r == get_flag(self@, 7),
    {
        read_flag(self.0, 7)
    }

    /// CHARGE_CONTROLLER_ENABLED bit is set to enable the battery pack's internal charge controller.
    ///
    /// Bits: 8..9
    pub fn charge_controller_enabled(&self) -> (r: bool)
        ensures
            r == get_flag(self@, 8),
    {
        read_flag(self.0, 8)
    }

    /// Returns the register with `charge_controller_enabled` replaced by `value`.
    ///
    /// Bits: 8..9
    pub fn with_charge_controller_enabled(self, value: bool) -> (r: Self)
        ensures
            r@ == set_flag(self@, 8, value),
    {
        BatteryModeFields(write_flag(self.0, 8, value))
    }

    /// Replaces `charge_controller_enabled` by `value`.
    ///
    /// Bits: 8..9
    pub fn set_charge_controller_enabled(&mut self, value: bool)
        ensures
            final(self)@ == set_flag(old(self)@, 8, value),
    {
        self.0 = write_flag(self.0, 8, value);
    }

    /// PRIMARY_BATTERY bit is set to enable a battery to operate as the primary battery in a system.
    ///
    /// Bits: 9..10
    pub fn primary_battery(&self) -> (r: bool)
        ensures
            r == get_flag(self@, 9),
    {
        read_flag(self.0, 9)
    }

    /// Returns the register with `primary_battery` replaced by `value`.
    ///
    /// Bits: 9..10
    pub fn with_primary_battery(self, value: bool) -> (r: Self)
        ensures
            r@ == set_flag(self@, 9, value),
    {
        BatteryModeFields(write_flag(self.0, 9, value))
    }

    /// Replaces `primary_battery` by `value`.
    ///
    /// Bits: 9..10
    pub fn set_primary_battery(&mut self, value: bool)
        ensures
            final(self)@ == set_flag(old(self)@, 9, value),
    {
        self.0 = write_flag(self.0, 9, value);
    }

    /// ALARM_MODE bit is set to disable the Smart Battery's ability to master the SMBus and send
    /// AlarmWarning() messages to the SMBus Host and the Smart Battery Charger.
    ///
    /// Bits: 13..14
    pub fn alarm_mode(&self) -> (r: bool)
        ensures
            r == get_flag(self@, 13),
    {
        read_flag(self.0, 13)
    }

    /// Returns the register with `alarm_mode` replaced by `value`.
    ///
    /// Bits: 13..14
    pub fn with_alarm_mode(self, value: bool) -> (r: Self)
        ensures
            r@ == set_flag(self@, 13, value),
    {
        BatteryModeFields(write_flag(self.0, 13, value))
    }

    /// Replaces `alarm_mode` by `value`.
    ///
    /// Bits: 13..14
    pub fn set_alarm_mode(&mut self, value: bool)
        ensures
            final(self)@ == set_flag(old(self)@, 13, value),
    {
        self.0 = write_flag(self.0, 13, value);
    }

    /// CHARGER_MODE bit enables or disables the Smart Battery's transmission of ChargingCurrent() and
    /// ChargingVoltage() messages to the Smart Battery Charger.
    ///
    /// Bits: 14..15
    pub fn charger_mode(&self) -> (r: bool)
        ensures
            r == get_flag(self@, 14),
    {
        read_flag(self.0, 14)
    }

    /// Returns the register with `charger_mode` replaced by `value`.
    ///
    /// Bits: 14..15
    pub fn with_charger_mode(self, value: bool) -> (r: Self)
        ensures
            r@ == set_flag(self@, 14, value),
    {
        BatteryModeFields(write_flag(self.0, 14, value))
    }

    /// Replaces `charger_mode` by `value`.
    ///
    /// Bits: 14..15
    pub fn set_charger_mode(&mut self, value: bool)
        ensures
            final(self)@ == set_flag(old(self)@, 14, value),
    {
        self.0 = write_flag(self.0, 14, value);
    }

    /// CAPACITY_MODE bit indicates if capacity information will be reported in mA/mAh or 10mW/10mWh.
    /// When set, the capacity information will be reported in 10mW/10mWh as appropriate.
    ///
    /// Bits: 15..16
    pub fn capacity_mode(&self) -> (r: bool)
        ensures
            r == get_flag(self@, 15),
    {
        read_flag(self.0, 15)
    }

    /// Returns the register with `capacity_mode` replaced by `value`.
    ///
    /// Bits: 15..16
    pub fn with_capacity_mode(self, value: bool) -> (r: Self)
        ensures
            r@ == set_flag(self@, 15, value),
    {
        BatteryModeFields(write_flag(self.0, 15, value))
    }

    /// Replaces `capacity_mode` by `value`.
    ///
    /// Bits: 15..16
    pub fn set_capacity_mode(&mut self, value: bool)
        ensures
            final(self)@ == set_flag(old(self)@, 15, value),
    {
        self.0 = write_flag(self.0, 15, value);
    }
}

impl Default for BatteryModeFields {
    fn default() -> (r: Self)
        ensures
            r@ == 0,
    {
        BatteryModeFields(0)
    }
}

impl From<u16> for BatteryModeFields {
    fn from(v: u16) -> (r: Self)
        ensures
            r@ == v,
    {
        BatteryModeFields(v)
    }
}

impl vstd::std_specs::convert::FromSpecImpl<u16> for BatteryModeFields {
    open spec fn obeys_from_spec() -> bool {
        true
    }

    closed spec fn from_spec(v: u16) -> BatteryModeFields {
        BatteryModeFields(v)
    }
}

impl From<BatteryModeFields> for u16 {
    fn from(v: BatteryModeFields) -> (r: u16)
        ensures
            r == v@,
    {
        v.0
    }
}

impl vstd::std_specs::convert::FromSpecImpl<BatteryModeFields> for u16 {
    open spec fn obeys_from_spec() -> bool {
        true
    }

    open spec fn from_spec(v: BatteryModeFields) -> u16 {
        v@
    }
}

/// Return value of the battery_status() function (0x16). See the SBS spec for more information.
///
/// Bits 10 and 13 are reserved: they are kept as read and no accessor changes them.
#[derive(Copy, Clone, Debug, Eq, PartialEq, Structural, Ord, PartialOrd, Hash)]
pub struct BatteryStatusFields(u16);

impl View for BatteryStatusFields {
    type V = u16;

    closed spec fn view(&self) -> u16 {
        self.0
    }
}

impl BatteryStatusFields {
    /// Creates a new default initialized bitfield: every bit clear.
    pub fn new() -> (r: Self)
        ensures
            r@ == 0,
    {
        BatteryStatusFields(0)
    }

    /// Convert from bits.
    pub fn from_bits(bits: u16) -> (r: Self)
        ensures
            r@ == bits,
    {
        BatteryStatusFields(bits)
    }

    /// Convert into bits.
    pub fn into_bits(self) -> (r: u16)
        ensures
            r == self@,
    {
        self.0
    }

    /// Error codes from the Smart Battery. See ErrorCode enum fields for detailed documentation on what each
    /// error code entails.
    ///
    /// Bits: 0..4
    pub fn error_code(&self) -> (r: ErrorCode)
        ensures
            r == ErrorCode::spec_from_bits(get_field(self@, 0, 4) as u8),
    {
        ErrorCode::from_bits(read_field(self.0, 0, 4) as u8)
    }

    /// Returns the register with `error_code` replaced by `value`.
    ///
    /// Bits: 0..4
    pub fn with_error_code(self, value: ErrorCode) -> (r: Self)
        ensures
            r@ == set_field(self@, 0, 4, value.spec_into_bits() as u16),
    {
        proof {
            lemma_low_masks();
        }
        BatteryStatusFields(write_field(self.0, 0, 4, value.into_bits() as u16))
    }

    /// Replaces `error_code` by `value`.
    ///
    /// Bits: 0..4
    pub fn set_error_code(&mut self, value: ErrorCode)
        ensures
            final(self)@ == set_field(old(self)@, 0, 4, value.spec_into_bits() as u16),
    {
        proof {
            lemma_low_masks();
        }
        self.0 = write_field(self.0, 0, 4, value.into_bits() as u16);
    }

    /// FULLY_DISCHARGED bit is set when the Smart Battery determines that it has supplied all the charge it
    /// can. Discharge should be stopped soon.
    ///
    /// Bits: 4..5
    pub fn fully_discharged(&self) -> (r: bool)
        ensures
            r == get_flag(self@, 4),
    {
        read_flag(self.0, 4)
    }

    /// Returns the register with `fully_discharged` replaced by `value`.
    ///
    /// Bits: 4..5
    pub fn with_fully_discharged(self, value: bool) -> (r: Self)
        ensures
            r@ == set_flag(self@, 4, value),
    {
        BatteryStatusFields(write_flag(self.0, 4, value))
    }

    /// Replaces `fully_discharged` by `value`.
    ///
    /// Bits: 4..5
    pub fn set_fully_discharged(&mut self, value: bool)
        ensures
            final(self)@ == set_flag(old(self)@, 4, value),
    {
        self.0 = write_flag(self.0, 4, value);
    }

    /// FULLY_CHARGED bit is set when the Smart Battery determines that has reached a full charge point.
    ///
    /// Bits: 5..6
    pub fn fully_charged(&self) -> (r: bool)
        ensures
            r == get_flag(self@, 5),
    {
        read_flag(self.0, 5)
    }

    /// Returns the register with `fully_charged` replaced by `value`.
    ///
    /// Bits: 5..6
    pub fn with_fully_charged(self, value: bool) -> (r: Self)
        ensures
            r@ == set_flag(self@, 5, value),
    {
        BatteryStatusFields(write_flag(self.0, 5, value))
    }

    /// Replaces `fully_charged` by `value`.
    ///
    /// Bits: 5..6
    pub fn set_fully_charged(&mut self, value: bool)
        ensures
            final(self)@ == set_flag(old(self)@, 5, value),
    {
        self.0 = write_flag(self.0, 5, value);
    }

    /// DISCHARGING bit is set when the Smart Battery determines that it is not being charged.
    ///
    /// Bits: 6..7
    pub fn discharging(&self) -> (r: bool)
        ensures
            r == get_flag(self@, 6),
    {
        read_flag(self.0, 6)
    }

    /// Returns the register with `discharging` replaced by `value`.
    ///
    /// Bits: 6..7
    pub fn with_discharging(self, value: bool) -> (r: Self)
        ensures
            r@ == set_flag(self@, 6, value),
    {
        BatteryStatusFields(write_flag(self.0, 6, value))
    }

    /// Replaces `discharging` by `value`.
    ///
    /// Bits: 6..7
    pub fn set_discharging(&mut self, value: bool)
        ensures
            final(self)@ == set_flag(old(self)@, 6, value),
    {
        self.0 = write_flag(self.0, 6, value);
    }

    /// INITIALIZED bit is SET when the Smart Battery electronics are calibrated or configured for the first time.
    ///
    /// Bits: 7..8
    pub fn initialized(&self) -> (r: bool)
        ensures
            r == get_flag(self@, 7),
    {
        read_flag(self.0, 7)
    }

    /// Returns the register with `initialized` replaced by `value`.
    ///
    /// Bits: 7..8
    pub fn with_initialized(self, value: bool) -> (r: Self)
        ensures
            r@ == set_flag(self@, 7, value),
    {
        BatteryStatusFields(write_flag(self.0, 7, value))
    }

    /// Replaces `initialized` by `value`.
    ///
    /// Bits: 7..8
    pub fn set_initialized(&mut self, value: bool)
        ensures
            final(self)@ == set_flag(old(self)@, 7, value),
    {
        self.0 = write_flag(self.0, 7, value);
    }

    /// REMAINING_TIME_ALARM bit is set when the estimated remaining time at the present discharge rate
    /// is less than that set by the RemainingTimeAlarm() function.
    ///
    /// Bits: 8..9
    pub fn remaining_time_alarm(&self) -> (r: bool)
        ensures
            r == get_flag(self@, 8),
    {
        read_flag(self.0, 8)
    }

    /// Returns the register with `remaining_time_alarm` replaced by `value`.
    ///
    /// Bits: 8..9
    pub fn with_remaining_time_alarm(self, value: bool) -> (r: Self)
        ensures
            r@ == set_flag(self@, 8, value),
    {
        BatteryStatusFields(write_flag(self.0, 8, value))
    }

    /// Replaces `remaining_time_alarm` by `value`.
    ///
    /// Bits: 8..9
    pub fn set_remaining_time_alarm(&mut self, value: bool)
        ensures
            final(self)@ == set_flag(old(self)@, 8, value),
    {
        self.0 = write_flag(self.0, 8, value);
    }

    /// REMAINING_CAPACITY_ALARM bit is set when RemainingCapacity() is less than that set by the
    /// RemainingCapacityAlarm() function.
    ///
    /// Bits: 9..10
    pub fn remaining_capacity_alarm(&self) -> (r: bool)
        ensures
            r == get_flag(self@, 9),
    {
        read_flag(self.0, 9)
    }

    /// Returns the register with `remaining_capacity_alarm` replaced by `value`.
    ///
    /// Bits: 9..10
    pub fn with_remaining_capacity_alarm(self, value: bool) -> (r: Self)
        ensures
            r@ == set_flag(self@, 9, value),
    {
        BatteryStatusFields(write_flag(self.0, 9, value))
    }

    /// Replaces `remaining_capacity_alarm` by `value`.
    ///
    /// Bits: 9..10
    pub fn set_remaining_capacity_alarm(&mut self, value: bool)
        ensures
            final(self)@ == set_flag(old(self)@, 9, value),
    {
        self.0 = write_flag(self.0, 9, value);
    }

    /// TERMINATE_DISCHARGE_ALARM bit is set when the Smart Battery determines that it has supplied
    /// all the charge it can at the present discharge rate.
    ///
    /// Bits: 11..12
    pub fn terminate_discharge_alarm(&self) -> (r: bool)
        ensures
            r == get_flag(self@, 11),
    {
        read_flag(self.0, 11)
    }

    /// Returns the register with `terminate_discharge_alarm` replaced by `value`.
    ///
    /// Bits: 11..12
    pub fn with_terminate_discharge_alarm(self, value: bool) -> (r: Self)
        ensures
            r@ == set_flag(self@, 11, value),
    {
        BatteryStatusFields(write_flag(self.0, 11, value))
    }

    /// Replaces `terminate_discharge_alarm` by `value`.
    ///
    /// Bits: 11..12
    pub fn set_terminate_discharge_alarm(&mut self, value: bool)
        ensures
            final(self)@ == set_flag(old(self)@, 11, value),
    {
        self.0 = write_flag(self.0, 11, value);
    }

    /// OVER_TEMP_ALARM bit will be set when the Smart Battery detects that its internal temperature is
    /// greater than a preset allowable limit.
    ///
    /// Bits: 12..13
    pub fn over_temp_alarm(&self) -> (r: bool)
        ensures
            r == get_flag(self@, 12),
    {
        read_flag(self.0, 12)
    }

    /// Returns the register with `over_temp_alarm` replaced by `value`.
    ///
    /// Bits: 12..13
    pub fn with_over_temp_alarm(self, value: bool) -> (r: Self)
        ensures
            r@ == set_flag(self@, 12, value),
    {
        BatteryStatusFields(write_flag(self.0, 12, value))
    }

    /// Replaces `over_temp_alarm` by `value`.
    ///
    /// Bits: 12..13
    pub fn set_over_temp_alarm(&mut self, value: bool)
        ensures
            final(self)@ == set_flag(old(self)@, 12, value),
    {
        self.0 = write_flag(self.0, 12, value);
    }

    /// TERMINATE_CHARGE_ALARM bit is set when charging should be stopped but the Smart Battery may
    /// not yet be in a Fully Charged state.
    ///
    /// Bits: 14..15
    pub fn terminate_charge_alarm(&self) -> (r: bool)
        ensures
            r == get_flag(self@, 14),
    {
        read_flag(self.0, 14)
    }

    /// Returns the register with `terminate_charge_alarm` replaced by `value`.
    ///
    /// Bits: 14..15
    pub fn with_terminate_charge_alarm(self, value: bool) -> (r: Self)
        ensures
            r@ == set_flag(self@, 14, value),
    {
        BatteryStatusFields(write_flag(self.0, 14, value))
    }

    /// Replaces `terminate_charge_alarm` by `value`.
    ///
    /// Bits: 14..15
    pub fn set_terminate_charge_alarm(&mut self, value: bool)
        ensures
            final(self)@ == set_flag(old(self)@, 14, value),
    {
        self.0 = write_flag(self.0, 14, value);
    }

    /// OVER_CHARGED_ALARM bit is set whenever the Smart Battery detects that it is being charged
    /// beyond a Fully Charged state.
    ///
    /// Bits: 15..16
    pub fn over_charged_alarm(&self) -> (r: bool)
        ensures
            r == get_flag(self@, 15),
    {
        read_flag(self.0, 15)
    }

    /// Returns the register with `over_charged_alarm` replaced by `value`.
    ///
    /// Bits: 15..16
    pub fn with_over_charged_alarm(self, value: bool) -> (r: Self)
        ensures
            r@ == set_flag(self@, 15, value),
    {
        BatteryStatusFields(write_flag(self.0, 15, value))
    }

    /// Replaces `over_charged_alarm` by `value`.
    ///
    /// Bits: 15..16
    pub fn set_over_charged_alarm(&mut self, value: bool)
        ensures
            final(self)@ == set_flag(old(self)@, 15, value),
    {
        self.0 = write_flag(self.0, 15, value);
    }
}

impl Default for BatteryStatusFields {
    fn default() -> (r: Self)
        ensures
            r@ == 0,
    {
        BatteryStatusFields(0)
    }
}

impl From<u16> for BatteryStatusFields {
    fn from(v: u16) -> (r: Self)
        ensures
            r@ == v,
    {
        BatteryStatusFields(v)
    }
}

impl vstd::std_specs::convert::FromSpecImpl<u16> for BatteryStatusFields {
    open spec fn obeys_from_spec() -> bool {
        true
    }

    closed spec fn from_spec(v: u16) -> BatteryStatusFields {
        BatteryStatusFields(v)
    }
}

impl From<BatteryStatusFields> for u16 {
    fn from(v: BatteryStatusFields) -> (r: u16)
        ensures
            r == v@,
    {
        v.0
    }
}

impl vstd::std_specs::convert::FromSpecImpl<BatteryStatusFields> for u16 {
    open spec fn obeys_from_spec() -> bool {
        true
    }

    open spec fn from_spec(v: BatteryStatusFields) -> u16 {
        v@
    }
}

/// Return value of the specification_info() function (0x1a). See the SBS spec for more information.
#[derive(Copy, Clone, Debug)]
pub struct SpecificationInfoFields(u16);

impl View for SpecificationInfoFields {
    type V = u16;

    closed spec fn view(&self) -> u16 {
        self.0
    }
}

impl SpecificationInfoFields {
    /// Creates a new default initialized bitfield: every bit clear.
    pub fn new() -> (r: Self)
        ensures
            r@ == 0,
    {
        SpecificationInfoFields(0)
    }

    /// Convert from bits.
    pub fn from_bits(bits: u16) -> (r: Self)
        ensures
            r@ == bits,
    {
        SpecificationInfoFields(bits)
    }

    /// Convert into bits.
    pub fn into_bits(self) -> (r: u16)
        ensures
            r == self@,
    {
        self.0
    }

    /// Revision of the SBS spec supported by this Smart Battery.
    /// See Revision enum fields for detailed documentation.
    ///
    /// Bits: 0..4
    pub fn revision(&self) -> (r: Revision)
        ensures
            r == Revision::spec_from_bits(get_field(self@, 0, 4) as u8),
    {
        Revision::from_bits(read_field(self.0, 0, 4) as u8)
    }

    /// Returns the register with `revision` replaced by `value`.
    ///
    /// Bits: 0..4
    pub fn with_revision(self, value: Revision) -> (r: Self)
        ensures
            r@ == set_field(self@, 0, 4, value.spec_into_bits() as u16),
    {
        proof {
            lemma_low_masks();
        }
        SpecificationInfoFields(write_field(self.0, 0, 4, value.into_bits() as u16))
    }

    /// Replaces `revision` by `value`.
    ///
    /// Bits: 0..4
    pub fn set_revision(&mut self, value: Revision)
        ensures
            final(self)@ == set_field(old(self)@, 0, 4, value.spec_into_bits() as u16),
    {
        proof {
            lemma_low_masks();
        }
        self.0 = write_field(self.0, 0, 4, value.into_bits() as u16);
    }

    /// Version of the SBS spec supported by this Smart Battery.
    /// See Version enum fields for detailed documentation.
    ///
    /// Bits: 4..8
    pub fn version(&self) -> (r: Version)
        ensures
            r == Version::spec_from_bits(get_field(self@, 4, 4) as u8),
    {
        Version::from_bits(read_field(self.0, 4, 4) as u8)
    }

    /// Returns the register with `version` replaced by `value`.
    ///
    /// Bits: 4..8
    pub fn with_version(self, value: Version) -> (r: Self)
        ensures
            r@ == set_field(self@, 4, 4, value.spec_into_bits() as u16),
    {
        proof {
            lemma_low_masks();
        }
        SpecificationInfoFields(write_field(self.0, 4, 4, value.into_bits() as u16))
    }

    /// Replaces `version` by `value`.
    ///
    /// Bits: 4..8
    pub fn set_version(&mut self, value: Version)
        ensures
            final(self)@ == set_field(old(self)@, 4, 4, value.spec_into_bits() as u16),
    {
        proof {
            lemma_low_masks();
        }
        self.0 = write_field(self.0, 4, 4, value.into_bits() as u16);
    }

    /// 0 - 3 (multiplies voltages* by 10 ^ VScale).
    ///
    /// Bits: 8..12
    pub fn v_scale(&self) -> (r: u8)
        ensures
            r == get_field(self@, 8, 4) as u8,
    {
        read_field(self.0, 8, 4) as u8
    }

    /// Returns the register with `v_scale` replaced by `value`.
    ///
    /// Bits: 8..12
    pub fn with_v_scale(self, value: u8) -> (r: Self)
        requires
            value < 16,
        ensures
            r@ == set_field(self@, 8, 4, value as u16),
    {
        proof {
            lemma_low_masks();
        }
        SpecificationInfoFields(write_field(self.0, 8, 4, value as u16))
    }

    /// Returns the register with `v_scale` replaced by `value`, or an error when
    /// `value` does not fit in the field.
    ///
    /// Bits: 8..12
    pub fn with_v_scale_checked(self, value: u8) -> (r: Result<Self, ()>)
        ensures
            match r {
                Ok(s) => value < 16 && s@ == set_field(self@, 8, 4, value as u16),
                Err(_) => value >= 16,
            },
    {
        if value < 16 {
            Ok(self.with_v_scale(value))
        } else {
            Err(())
        }
    }

    /// Replaces `v_scale` by `value`.
    ///
    /// Bits: 8..12
    pub fn set_v_scale(&mut self, value: u8)
        requires
            value < 16,
        ensures
            final(self)@ == set_field(old(self)@, 8, 4, value as u16),
    {
        proof {
            lemma_low_masks();
        }
        self.0 = write_field(self.0, 8, 4, value as u16);
    }

    /// Replaces `v_scale` by `value`, or leaves the register unchanged and returns an
    /// error when `value` does not fit in the field.
    ///
    /// Bits: 8..12
    pub fn set_v_scale_checked(&mut self, value: u8) -> (r: Result<(), ()>)
        ensures
            r is Ok <==> value < 16,
            r is Ok ==> final(self)@ == set_field(old(self)@, 8, 4, value as u16),
            r is Err ==> final(self)@ == old(self)@,
    {
        if value < 16 {
            self.set_v_scale(value);
            Ok(())
        } else {
            Err(())
        }
    }

    /// 0 - 3 (multiplies currents* and capacities by 10 ^ IPScale).
    ///
    /// Bits: 12..16
    pub fn ip_scale(&self) -> (r: u8)
        ensures
            r == get_field(self@, 12, 4) as u8,
    {
        read_field(self.0, 12, 4) as u8
    }

    /// Returns the register with `ip_scale` replaced by `value`.
    ///
    /// Bits: 12..16
    pub fn with_ip_scale(self, value: u8) -> (r: Self)
        requires
            value < 16,
        ensures
            r@ == set_field(self@, 12, 4, value as u16),
    {
        proof {
            lemma_low_masks();
        }
        SpecificationInfoFields(write_field(self.0, 12, 4, value as u16))
    }

    /// Returns the register with `ip_scale` replaced by `value`, or an error when
    /// `value` does not fit in the field.
    ///
    /// Bits: 12..16
    pub fn with_ip_scale_checked(self, value: u8) -> (r: Result<Self, ()>)
        ensures
            match r {
                Ok(s) => value < 16 && s@ == set_field(self@, 12, 4, value as u16),
                Err(_) => value >= 16,
            },
    {
        if value < 16 {
            Ok(self.with_ip_scale(value))
        } else {
            Err(())
        }
    }

    /// Replaces `ip_scale` by `value`.
    ///
    /// Bits: 12..16
    pub fn set_ip_scale(&mut self, value: u8)
        requires
            value < 16,
        ensures
            final(self)@ == set_field(old(self)@, 12, 4, value as u16),
    {
        proof {
            lemma_low_masks();
        }
        self.0 = write_field(self.0, 12, 4, value as u16);
    }

    /// Replaces `ip_scale` by `value`, or leaves the register unchanged and returns an
    /// error when `value` does not fit in the field.
    ///
    /// Bits: 12..16
    pub fn set_ip_scale_checked(&mut self, value: u8) -> (r: Result<(), ()>)
        ensures
            r is Ok <==> value < 16,
            r is Ok ==> final(self)@ == set_field(old(self)@, 12, 4, value as u16),
            r is Err ==> final(self)@ == old(self)@,
    {
        if value < 16 {
            self.set_ip_scale(value);
            Ok(())
        } else {
            Err(())
        }
    }
}

impl Default for SpecificationInfoFields {
    fn default() -> (r: Self)
        ensures
            r@ == 0,
    {
        SpecificationInfoFields(0)
    }
}

impl From<u16> for SpecificationInfoFields {
    fn from(v: u16) -> (r: Self)
        ensures
            r@ == v,
    {
        SpecificationInfoFields(v)
    }
}

impl vstd::std_specs::convert::FromSpecImpl<u16> for SpecificationInfoFields {
    open spec fn obeys_from_spec() -> bool {
        true
    }

    closed spec fn from_spec(v: u16) -> SpecificationInfoFields {
        SpecificationInfoFields(v)
    }
}

impl From<SpecificationInfoFields> for u16 {
    fn from(v: SpecificationInfoFields) -> (r: u16)
        ensures
            r == v@,
    {
        v.0
    }
}

impl vstd::std_specs::convert::FromSpecImpl<SpecificationInfoFields> for u16 {
    open spec fn obeys_from_spec() -> bool {
        true
    }

    open spec fn from_spec(v: SpecificationInfoFields) -> u16 {
        v@
    }
}

/// Packing a manufacture date and reading its fields back gives the date
/// back, and the packed word is `year * 512 + month * 32 + day`.
pub proof fn lemma_manufacture_date_round_trip(day: u16, month: u16, year: u16)
    requires
        1 <= day <= 31,
        1 <= month <= 12,
        year <= 127,
    ensures
        ({
            let raw = set_field(set_field(set_field(0, 0, 5, day), 5, 4, month), 9, 7, year);
            &&& get_field(raw, 0, 5) == day
            &&& get_field(raw, 5, 4) == month
            &&& get_field(raw, 9, 7) == year
            &&& raw == year * 512 + month * 32 + day
        }),
{
    assert({
        let raw = ((((((0u16 & !((0xffffu16 >> 11u16) << 0u16)) | ((day & (0xffffu16 >> 11u16))
            << 0u16)) & !((0xffffu16 >> 12u16) << 5u16)) | ((month & (0xffffu16 >> 12u16))
            << 5u16)) & !((0xffffu16 >> 9u16) << 9u16)) | ((year & (0xffffu16 >> 9u16)) << 9u16));
        &&& (raw >> 0u16) & (0xffffu16 >> 11u16) == day
        &&& (raw >> 5u16) & (0xffffu16 >> 12u16) == month
        &&& (raw >> 9u16) & (0xffffu16 >> 9u16) == year
        &&& raw == year * 512 + month * 32 + day
    }) by (bit_vector)
        requires
            1 <= day <= 31,
            1 <= month <= 12,
            year <= 127,
    ;
}

/// Decoding the three fields of any manufacture-date word and writing them
/// into a new register rebuilds the word exactly.
pub proof fn lemma_manufacture_date_rebuild(raw: u16)
    ensures
        set_field(
            set_field(set_field(0, 0, 5, get_field(raw, 0, 5)), 5, 4, get_field(raw, 5, 4)),
            9,
            7,
            get_field(raw, 9, 7),
        ) == raw,
{
    assert(((((((0u16 & !((0xffffu16 >> 11u16) << 0u16)) | ((((raw >> 0u16) & (0xffffu16
        >> 11u16)) & (0xffffu16 >> 11u16)) << 0u16)) & !((0xffffu16 >> 12u16) << 5u16)) | ((((raw
        >> 5u16) & (0xffffu16 >> 12u16)) & (0xffffu16 >> 12u16)) << 5u16)) & !((0xffffu16
        >> 9u16) << 9u16)) | ((((raw >> 9u16) & (0xffffu16 >> 9u16)) & (0xffffu16 >> 9u16))
        << 9u16)) == raw) by (bit_vector);
}

/// Writing any writable flag of the battery mode register (bits 8, 9, 13, 14
/// and 15) leaves its read-only bits (0, 1 and 7) and reserved bits (2 to 6
/// and 10 to 12) as they were.
pub proof fn lemma_battery_mode_setters_keep_fixed_bits(raw: u16, offset: u16, value: bool)
    requires
        offset == 8 || offset == 9 || offset == 13 || offset == 14 || offset == 15,
    ensures
        set_flag(raw, offset, value) & 0x1cffu16 == raw & 0x1cffu16,
{
    let v: u16 = if value { 1 } else { 0 };
    assert(((raw & !((0xffffu16 >> 15u16) << offset)) | ((v & (0xffffu16 >> 15u16)) << offset))
        & 0x1cffu16 == raw & 0x1cffu16) by (bit_vector)
        requires
            offset == 8 || offset == 9 || offset == 13 || offset == 14 || offset == 15,
    ;
}

/// Writing any field of the battery status register leaves its reserved bits
/// (10 and 13) as they were.
pub proof fn lemma_battery_status_setters_keep_reserved(
    raw: u16,
    offset: u16,
    width: u16,
    value: u16,
)
    requires
        (offset == 0 && width == 4) || (width == 1 && 4 <= offset <= 15 && offset != 10 && offset
            != 13),
    ensures
        set_field(raw, offset, width, value) & 0x2400u16 == raw & 0x2400u16,
{
    assert(((raw & !((0xffffu16 >> ((16 - width) as u16)) << offset)) | ((value & (0xffffu16 >> ((
    16 - width) as u16))) << offset)) & 0x2400u16 == raw & 0x2400u16) by (bit_vector)
        requires
            (offset == 0 && width == 4) || (width == 1 && 4 <= offset <= 15 && offset != 10
                && offset != 13),
    ;
}

/// The error-code field of any status word decodes: codes 0 to 6 to their
/// own code, 7 to 15 to `UnknownError`. Writing the decoded code back
/// rebuilds the word exactly when the code was at most 7, and otherwise only
/// replaces the field by 7.
pub proof fn lemma_battery_status_error_code(raw: u16)
    ensures
        ({
            let code = get_field(raw, 0, 4);
            let decoded = ErrorCode::spec_from_bits(code as u8);
            &&& code < 16
            &&& code <= 6 ==> decoded.spec_into_bits() == code
            &&& code >= 7 ==> decoded == ErrorCode::UnknownError
            &&& set_field(raw, 0, 4, decoded.spec_into_bits() as u16) == if code <= 7 {
                raw
            } else {
                set_field(raw, 0, 4, 7)
            }
        }),
{
    let code = get_field(raw, 0, 4);
    lemma_low_masks();
    lemma_get_field_bound(raw, 0, 4);
    lemma_set_get(raw, 0, 4);
    lemma_error_code_decode(code as u8);
}

/// Decoding the revision and version of any specification-info word and
/// writing them back rebuilds the word exactly when both are known numbers;
/// an unknown number comes back as 0, the reserved one.
pub proof fn lemma_specification_info_rebuild(raw: u16)
    ensures
        ({
            let revision = Revision::spec_from_bits(get_field(raw, 0, 4) as u8).spec_into_bits();
            let version = Version::spec_from_bits(get_field(raw, 4, 4) as u8).spec_into_bits();
            &&& revision == if get_field(raw, 0, 4) == 1 {
                1u8
            } else {
                0u8
            }
            &&& version == if get_field(raw, 4, 4) <= 3 {
                get_field(raw, 4, 4) as u8
            } else {
                0u8
            }
            &&& (get_field(raw, 0, 4) == 1 && get_field(raw, 4, 4) <= 3) ==> set_field(
                set_field(raw, 0, 4, revision as u16),
                4,
                4,
                version as u16,
            ) == raw
        }),
{
    lemma_low_masks();
    lemma_get_field_bound(raw, 0, 4);
    lemma_get_field_bound(raw, 4, 4);
    lemma_set_get(raw, 0, 4);
    lemma_set_get(set_field(raw, 0, 4, get_field(raw, 0, 4)), 4, 4);
}

/// Blocking Smart Battery methods.
pub trait SmartBattery: ErrorType {
    /// 0x01
    ///
    /// Sets or gets the Low Capacity alarm threshold value. Whenever the RemainingCapacity() falls below the
    /// Low Capacity value, the Smart Battery sends AlarmWarning() messages to the SMBus Host with the
    /// REMAINING_CAPACITY_ALARM bit set. A Low Capacity value of 0 disables this alarm.
    /// (If the ALARM_MODE bit is set in BatteryMode() then the AlarmWarning() message is disabled for a set
    /// period of time. See the BatteryMode() function for further information.)
    ///
    /// The Low Capacity value is set to 10% of design capacity at time of manufacture. The Low Capacity value
    /// will remain unchanged until altered by the RemainingCapacityAlarm() function. The Low Capacity value
    /// may be expressed in either capacity (mAh) or power (10mWh) depending on the setting of the
    /// BatteryMode()'s CAPACITY_MODE bit (see BatteryMode()).
    fn remaining_capacity_alarm(&mut self, capacity: CapacityModeValue) -> Result<CapacityModeValue, Self::Error>;

    /// 0x02
    ///
    /// Sets or gets the Remaining Time alarm value. Whenever the AverageTimeToEmpty() falls below the
    /// Remaining Time value, the Smart Battery sends AlarmWarning() messages to the SMBus Host with the
    /// REMAINING_TIME_ALARM bit set. A Remaining Time value of 0 effectively disables this alarm.
    /// (If the ALARM_MODE bit is set in BatteryMode() then the AlarmWarning() message is disabled for a set
    /// period of time. See the BatteryMode() function for further information.)
    ///
    /// The Remaining Time value is set to 10 minutes at time of manufacture. The Remaining Time value will
    /// remain unchanged until altered by the RemainingTimeAlarm() function.
    fn remaining_time_alarm(&mut self, time: Minutes) -> Result<Minutes, Self::Error>;

    /// 0x03
    ///
    /// This function selects the various battery operational modes and reports the battery's capabilities, modes,
    /// and flags minor conditions requiring attention.
    ///
    /// See the SBS specification for detailed documentation.
    fn battery_mode(&mut self, flags: u16) -> Result<u16, Self::Error>;

    /// 0x04
    ///
    /// The AtRate() function is the first half of a two-function call-set used to set the AtRate value used in
    /// calculations made by the AtRateTimeToFull(), AtRateTimeToEmpty(), and AtRateOK() functions. The
    /// AtRate value may be expressed in either current (mA) or power (10mW) depending on the setting of the
    /// BatteryMode()'s CAPACITY_MODE bit. (Configuration of the CAPACITY_MODE bit will alter the
    /// calculation of AtRate functions. Changing the state of CAPACITY_MODE may require a re-write to the
    /// AtRate() function using the appropriate units.)
    fn at_rate(&mut self, rate: CapacityModeSignedValue) -> Result<CapacityModeSignedValue, Self::Error>;

    /// 0x05
    ///
    /// Returns the predicted remaining time to fully charge the battery at the previously written AtRate value in mA.
    ///
    /// Note: This function is only required to return a value when the CAPACITY_MODE bit is cleared and the
    /// AtRate() value is written in mA units. If the CAPACITY_MODE bit is set, then AtRateTimeToFull() may
    /// return 65535 to indicate over-range and return an error code indicating overflow. Alternately, this function
    /// may return a remaining time to full based on a 10 mW value in AtRate().
    fn at_rate_time_to_full(&mut self) -> Result<Minutes, Self::Error>;

    /// 0x06
    ///
    /// Returns the predicted remaining operating time if the battery is discharged at the previously written AtRate
    /// value. (Result will depend on the setting of CAPACITY_MODE bit.)
    fn at_rate_time_to_empty(&mut self) -> Result<Minutes, Self::Error>;

    /// 0x07
    ///
    /// Returns a Boolean value that indicates whether or not the battery can deliver the previously written AtRate
    /// value of additional energy for 10 seconds (Boolean). If the AtRate value is zero or positive, the
    /// AtRateOK() function will ALWAYS return true. Result may depend on the setting of CAPACITY_MODE
    /// bit.
    fn at_rate_ok(&mut self) -> Result<bool, Self::Error>;

    /// 0x08
    ///
    /// Returns the cell-pack's internal temperature (degrees K). The actual operational temperature range will be defined
    /// at a pack level by a particular manufacturer.
    fn temperature(&mut self) -> Result<bool, Self::Error>;

    /// 0x09
    ///
    /// Returns the cell-pack voltage (mV).
    fn voltage(&mut self) -> Result<MilliVolts, Self::Error>;

    /// 0x0A
    ///
    /// Returns the current being supplied (or accepted) through the battery's terminals (mA).
    fn current(&mut self) -> Result<MilliAmpsSigned, Self::Error>;

    /// 0x0B
    ///
    /// Returns a one-minute rolling average based on the current being supplied (or accepted) through the battery's
    /// terminals (mA). The AverageCurrent() function is expected to return meaningful values during the battery's
    /// first minute of operation.
    fn average_current(&mut self) -> Result<MilliAmpsSigned, Self::Error>;

    /// 0x0C
    ///
    /// Returns the expected margin of error (%) in the state of charge calculation. For example, when MaxError()
    /// returns 10% and RelativeStateOfCharge() returns 50%, the Relative StateOfCharge() is actually between 50
    /// and 60%. The MaxError() of a battery is expected to increase until the Smart Battery identifies a condition
    /// that will give it higher confidence in its own accuracy. For example, when a Smart Battery senses that it has
    /// been fully charged from a fully discharged state, it may use that information to reset or partially reset
    /// MaxError(). The Smart Battery can signal when MaxError() has become too high by setting the
    /// CONDITION_FLAG bit in BatteryMode().
    fn max_error(&mut self) -> Result<Percent, Self::Error>;

    /// 0x0D
    ///
    /// Returns the predicted remaining battery capacity expressed as a percentage of FullChargeCapacity() (%).
    fn relative_state_of_charge(&mut self) -> Result<Percent, Self::Error>;

    /// 0x0E
    ///
    /// Returns the predicted remaining battery capacity expressed as a percentage of DesignCapacity() (%).
    ///
    /// Note that AbsoluteStateOfCharge() can return values greater than 100%.
    fn absolute_state_of_charge(&mut self) -> Result<Percent, Self::Error>;

    /// 0x0F
    ///
    /// Returns the predicted remaining battery capacity. The RemainingCapacity() capacity value is expressed in
    /// either current (mAh at a C/5 discharge rate) or power (10mWh at a P/5 discharge rate) depending on the
    /// setting of the BatteryMode()'s CAPACITY_MODE bit.
    fn remaining_capacity(&mut self) -> Result<CapacityModeValue, Self::Error>;

    /// 0x10
    ///
    /// Returns the predicted pack capacity when it is fully charged. The FullChargeCapacity() value is expressed
    /// in either current (mAh at a C/5 discharge rate) or power (10mWh at a P/5 discharge rate) depending on the
    /// setting of the BatteryMode()'s CAPACITY_MODE bit.
    fn full_charge_capacity(&mut self) -> Result<CapacityModeValue, Self::Error>;

    /// 0x11
    ///
    /// Returns the predicted remaining battery life at the present rate of discharge (minutes). The
    /// RunTimeToEmpty() value is calculated based on either current or power depending on the setting of the
    /// BatteryMode()'s CAPACITY_MODE bit. This is an important distinction because use of the wrong
    /// calculation mode may result in inaccurate return values.
    ///
    /// 65,535 indicates battery is not being discharged.
    fn run_time_to_empty(&mut self) -> Result<Minutes, Self::Error>;

    /// 0x12
    ///
    /// Returns a one-minute rolling average of the predicted remaining battery life (minutes). The
    /// AverageTimeToEmpty() value is calculated based on either current or power depending on the setting of
    /// the BatteryMode()'s CAPACITY_MODE bit. This is an important distinction because use of the wrong
    /// calculation mode may result in inaccurate return values.
    ///
    /// 65,535 indicates battery is not being discharged.
    fn average_time_to_empty(&mut self) -> Result<Minutes, Self::Error>;

    /// 0x13
    ///
    /// Returns a one minute rolling average of the predicted remaining time until the Smart Battery reaches full
    /// charge (minutes).
    ///
    /// 65,535 indicates the battery is not being charged.
    fn average_time_to_full(&mut self) -> Result<Minutes, Self::Error>;

    /// 0x16
    ///
    /// Returns the Smart Battery's status word which contains Alarm and Status bit flags. Some of the
    /// BatteryStatus() flags (REMAINING_CAPACITY_ALARM and REMAINING_TIME_ALARM) are
    /// calculated based on either current or power depending on the setting of the BatteryMode()'s
    /// CAPACITY_MODE bit. This is important because use of the wrong calculation mode may result in an
    /// inaccurate alarm.
    fn battery_status(&mut self) -> Result<BatteryStatusFields, Self::Error>;

    /// 0x17
    ///
    /// Returns the number of cycles the battery has experienced. A cycle is defined as:
    ///
    /// An amount of discharge approximately equal to the value of DesignCapacity.
    fn cycle_count(&mut self) -> Result<Cycles, Self::Error>;

    /// 0x18
    ///
    /// Returns the theoretical capacity of a new pack. The DesignCapacity() value is expressed in either current
    /// (mAh at a C/5 discharge rate) or power (10mWh at a P/5 discharge rate) depending on the setting of the
    /// BatteryMode()'s CAPACITY_MODE bit.
    fn design_capacity(&mut self) -> Result<CapacityModeValue, Self::Error>;

    /// 0x19
    ///
    /// Returns the theoretical voltage of a new pack (mV).
    fn design_voltage(&mut self) -> Result<MilliVolts, Self::Error>;

    /// 0x1A
    ///
    /// Returns the version number of the Smart Battery specification the battery pack supports, as well as voltage
    /// and current and capacity scaling information in a packed unsigned integer. Power scaling is the product of
    /// the voltage scaling times the current scaling.
    /// These scaling functions do NOT affect ChargingCurrent() and ChargingVoltage() values.
    /// A Smart Battery Charger cannot be assumed to know this scaling information. (However, a 'Level 3'
    /// or 'Host Controlled' Smart Battery Charger may read this value if required for specific
    /// applications.)
    fn specification_info(&mut self) -> Result<u16, Self::Error>;

    /// 0x1B
    ///
    /// This function returns the date the cell pack was manufactured.
    fn manufacture_date(&mut self) -> Result<ManufactureDate, Self::Error>;

    /// 0x1C
    ///
    /// This function is used to return a serial number. This number when combined with the ManufacturerName(),
    /// the DeviceName(), and the ManufactureDate() will uniquely identify the battery (unsigned int).
    fn serial_number(&mut self) -> Result<u16, Self::Error>;

    /// 0x20
    ///
    /// This function accepts a mutable buffer of u8s and returns it filled with a **null-terminated** character array
    /// containing the battery's manufacturer's name. For example, "MyBattCo\0" would identify the Smart Battery's
    /// manufacturer as MyBattCo.
    fn manufacturer_name(&mut self, name: &mut [u8]) -> Result<(), Self::Error>;

    /// 0x21
    ///
    /// This function accepts a mutable buffer of u8s and returns it filled with a **null-terminated** character array
    /// that contains the battery's name. For example, a DeviceName() of "MBC101\0" would indicate that
    /// the battery is a model MBC101.
    fn device_name(&mut self, name: &mut [u8]) -> Result<(), Self::Error>;

    /// 0x22
    ///
    /// This function accepts a mutable buffer of u8s and returns it filled with a **null-terminated** character array
    /// that contains the battery's chemistry. For example, if the DeviceChemistry() function returns "NiMH\0",
    /// the battery pack would contain nickel metal hydride cells.
    fn device_chemistry(&mut self, chemistry: &mut [u8]) -> Result<(), Self::Error>;
}

impl<T: SmartBattery + ?Sized> SmartBattery for &mut T {
    #[inline]
    fn remaining_capacity_alarm(&mut self, capacity: CapacityModeValue) -> (r: Result<CapacityModeValue, Self::Error>)
        ensures
            exists|inner: &mut T| #[trigger] call_ensures(T::remaining_capacity_alarm, (inner, capacity), r),
    {
        T::remaining_capacity_alarm(self, capacity)
    }

    #[inline]
    fn remaining_time_alarm(&mut self, time: Minutes) -> (r: Result<Minutes, Self::Error>)
        ensures
            exists|inner: &mut T| #[trigger] call_ensures(T::remaining_time_alarm, (inner, time), r),
    {
        T::remaining_time_alarm(self, time)
    }

    #[inline]
    fn battery_mode(&mut self, flags: u16) -> (r: Result<u16, Self::Error>)
        ensures
            exists|inner: &mut T| #[trigger] call_ensures(T::battery_mode, (inner, flags), r),
    {
        T::battery_mode(self, flags)
    }

    #[inline]
    fn at_rate(&mut self, rate: CapacityModeSignedValue) -> (r: Result<CapacityModeSignedValue, Self::Error>)
        ensures
            exists|inner: &mut T| #[trigger] call_ensures(T::at_rate, (inner, rate), r),
    {
        T::at_rate(self, rate)
    }

    #[inline]
    fn at_rate_time_to_full(&mut self) -> (r: Result<Minutes, Self::Error>)
        ensures
            exists|inner: &mut T| #[trigger] call_ensures(T::at_rate_time_to_full, (inner,), r),
    {
        T::at_rate_time_to_full(self)
    }

    #[inline]
    fn at_rate_time_to_empty(&mut self) -> (r: Result<Minutes, Self::Error>)
        ensures
            exists|inner: &mut T| #[trigger] call_ensures(T::at_rate_time_to_empty, (inner,), r),
    {
        T::at_rate_time_to_empty(self)
    }

    #[inline]
    fn at_rate_ok(&mut self) -> (r: Result<bool, Self::Error>)
        ensures
            exists|inner: &mut T| #[trigger] call_ensures(T::at_rate_ok, (inner,), r),
    {
        T::at_rate_ok(self)
    }

    #[inline]
    fn temperature(&mut self) -> (r: Result<bool, Self::Error>)
        ensures
            exists|inner: &mut T| #[trigger] call_ensures(T::temperature, (inner,), r),
    {
        T::temperature(self)
    }

    #[inline]
    fn voltage(&mut self) -> (r: Result<MilliVolts, Self::Error>)
        ensures
            exists|inner: &mut T| #[trigger] call_ensures(T::voltage, (inner,), r),
    {
        T::voltage(self)
    }

    #[inline]
    fn current(&mut self) -> (r: Result<MilliAmpsSigned, Self::Error>)
        ensures
            exists|inner: &mut T| #[trigger] call_ensures(T::current, (inner,), r),
    {
        T::current(self)
    }

    #[inline]
    fn average_current(&mut self) -> (r: Result<MilliAmpsSigned, Self::Error>)
        ensures
            exists|inner: &mut T| #[trigger] call_ensures(T::average_current, (inner,), r),
    {
        T::average_current(self)
    }

    #[inline]
    fn max_error(&mut self) -> (r: Result<Percent, Self::Error>)
        ensures
            exists|inner: &mut T| #[trigger] call_ensures(T::max_error, (inner,), r),
    {
        T::max_error(self)
    }

    #[inline]
    fn relative_state_of_charge(&mut self) -> (r: Result<Percent, Self::Error>)
        ensures
            exists|inner: &mut T| #[trigger] call_ensures(T::relative_state_of_charge, (inner,), r),
    {
        T::relative_state_of_charge(self)
    }

    #[inline]
    fn absolute_state_of_charge(&mut self) -> (r: Result<Percent, Self::Error>)
        ensures
            exists|inner: &mut T| #[trigger] call_ensures(T::absolute_state_of_charge, (inner,), r),
    {
        T::absolute_state_of_charge(self)
    }

    #[inline]
    fn remaining_capacity(&mut self) -> (r: Result<CapacityModeValue, Self::Error>)
        ensures
            exists|inner: &mut T| #[trigger] call_ensures(T::remaining_capacity, (inner,), r),
    {
        T::remaining_capacity(self)
    }

    #[inline]
    fn full_charge_capacity(&mut self) -> (r: Result<CapacityModeValue, Self::Error>)
        ensures
            exists|inner: &mut T| #[trigger] call_ensures(T::full_charge_capacity, (inner,), r),
    {
        T::full_charge_capacity(self)
    }

    #[inline]
    fn run_time_to_empty(&mut self) -> (r: Result<Minutes, Self::Error>)
        ensures
            exists|inner: &mut T| #[trigger] call_ensures(T::run_time_to_empty, (inner,), r),
    {
        T::run_time_to_empty(self)
    }

    #[inline]
    fn average_time_to_empty(&mut self) -> (r: Result<Minutes, Self::Error>)
        ensures
            exists|inner: &mut T| #[trigger] call_ensures(T::average_time_to_empty, (inner,), r),
    {
        T::average_time_to_empty(self)
    }

    #[inline]
    fn average_time_to_full(&mut self) -> (r: Result<Minutes, Self::Error>)
        ensures
            exists|inner: &mut T| #[trigger] call_ensures(T::average_time_to_full, (inner,), r),
    {
        T::average_time_to_full(self)
    }

    #[inline]
    fn battery_status(&mut self) -> (r: Result<BatteryStatusFields, Self::Error>)
        ensures
            exists|inner: &mut T| #[trigger] call_ensures(T::battery_status, (inner,), r),
    {
        T::battery_status(self)
    }
    #[inline]
    fn cycle_count(&mut self) -> (r: Result<Cycles, Self::Error>)
        ensures
            exists|inner: &mut T| #[trigger] call_ensures(T::cycle_count, (inner,), r),
    {
        T::cycle_count(self)
    }

    #[inline]
    fn design_capacity(&mut self) -> (r: Result<CapacityModeValue, Self::Error>)
        ensures
            exists|inner: &mut T| #[trigger] call_ensures(T::design_capacity, (inner,), r),
    {
        T::design_capacity(self)
    }

    #[inline]
    fn design_voltage(&mut self) -> (r: Result<MilliVolts, Self::Error>)
        ensures
            exists|inner: &mut T| #[trigger] call_ensures(T::design_voltage, (inner,), r),
    {
        T::design_voltage(self)
    }

    #[inline]
    fn specification_info(&mut self) -> (r: Result<u16, Self::Error>)
        ensures
            exists|inner: &mut T| #[trigger] call_ensures(T::specification_info, (inner,), r),
    {
        T::specification_info(self)
    }

    #[inline]
    fn manufacture_date(&mut self) -> (r: Result<ManufactureDate, Self::Error>)
        ensures
            exists|inner: &mut T| #[trigger] call_ensures(T::manufacture_date, (inner,), r),
    {
        T::manufacture_date(self)
    }

    #[inline]
    fn serial_number(&mut self) -> (r: Result<u16, Self::Error>)
        ensures
            exists|inner: &mut T| #[trigger] call_ensures(T::serial_number, (inner,), r),
    {
        T::serial_number(self)
    }

    #[inline]
    fn manufacturer_name(&mut self, name: &mut [u8]) -> (r: Result<(), Self::Error>)
        ensures
            exists|inner: &mut T, buf: &mut [u8]| #[trigger] call_ensures(T::manufacturer_name, (inner, buf), r) && buf@ == old(name)@ && final(buf)@ == final(name)@,
    {
        T::manufacturer_name(self, name)
    }

    #[inline]
    fn device_name(&mut self, name: &mut [u8]) -> (r: Result<(), Self::Error>)
        ensures
            exists|inner: &mut T, buf: &mut [u8]| #[trigger] call_ensures(T::device_name, (inner, buf), r) && buf@ == old(name)@ && final(buf)@ == final(name)@,
    {
        T::device_name(self, name)
    }

    #[inline]
    fn device_chemistry(&mut self, chemistry: &mut [u8]) -> (r: Result<(), Self::Error>)
        ensures
            exists|inner: &mut T, buf: &mut [u8]| #[trigger] call_ensures(T::device_chemistry, (inner, buf), r) && buf@ == old(chemistry)@ && final(buf)@ == final(chemistry)@,
    {
        T::device_chemistry(self, chemistry)
    }
}

} // verus!
