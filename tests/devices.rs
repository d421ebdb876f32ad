use core::convert::Infallible;

use embedded_batteries::charger::{self, Charger};
use embedded_batteries::smart_battery::{
    self, BatteryStatusFields, CapacityModeSignedValue, CapacityModeValue, Cycles, ErrorCode,
    ErrorKind, ManufactureDate, Minutes, Percent, SmartBattery,
};
use embedded_batteries::{MilliAmps, MilliAmpsSigned, MilliVolts};

#[derive(Debug)]
enum BusError {
    Nack,
    Status(ErrorCode),
    Timeout,
}

impl smart_battery::Error for BusError {
    fn kind(&self) -> ErrorKind {
        match self {
            BusError::Nack => ErrorKind::CommError,
            BusError::Status(code) => ErrorKind::BatteryStatus(*code),
            BusError::Timeout => ErrorKind::Other,
        }
    }
}

impl charger::Error for BusError {
    fn kind(&self) -> charger::ErrorKind {
        match self {
            BusError::Nack => charger::ErrorKind::CommError,
            _ => charger::ErrorKind::Other,
        }
    }
}

struct FakeCharger {
    current: MilliAmps,
    voltage: MilliVolts,
}

impl charger::ErrorType for FakeCharger {
    type Error = BusError;
}

impl Charger for FakeCharger {
    fn charging_current(&mut self, current: MilliAmps) -> Result<MilliAmps, BusError> {
        if current > 5000 {
            return Err(BusError::Nack);
        }
        self.current = current;
        Ok(current)
    }

    fn charging_voltage(&mut self, voltage: MilliVolts) -> Result<MilliVolts, BusError> {
        self.voltage = voltage;
        Ok(voltage)
    }
}

fn drive<C: Charger>(mut c: C) -> Result<(MilliAmps, MilliVolts), C::Error> {
    Ok((c.charging_current(1500)?, c.charging_voltage(12_600)?))
}

#[test]
fn charger_calls_forward_through_a_mutable_borrow() {
    let mut fake = FakeCharger { current: 0, voltage: 0 };
    assert_eq!(drive(&mut fake).unwrap(), (1500, 12_600));
    assert_eq!((fake.current, fake.voltage), (1500, 12_600));
    let mut borrowed = &mut fake;
    let err = borrowed.charging_current(6000).unwrap_err();
    assert_eq!(charger::Error::kind(&err), charger::ErrorKind::CommError);
}

struct FakeBattery {
    mode: u16,
    rate: i16,
}

impl smart_battery::ErrorType for FakeBattery {
    type Error = BusError;
}

impl SmartBattery for FakeBattery {
    fn remaining_capacity_alarm(&mut self, capacity: CapacityModeValue) -> Result<CapacityModeValue, BusError> {
        Ok(capacity)
    }
    fn remaining_time_alarm(&mut self, time: Minutes) -> Result<Minutes, BusError> {
        Ok(time)
    }
    fn battery_mode(&mut self, flags: u16) -> Result<u16, BusError> {
        self.mode = flags;
        Ok(flags)
    }
    fn at_rate(&mut self, rate: CapacityModeSignedValue) -> Result<CapacityModeSignedValue, BusError> {
        if let CapacityModeSignedValue::MilliAmpSigned(r) = rate {
            self.rate = r;
        }
        Ok(rate)
    }
    fn at_rate_time_to_full(&mut self) -> Result<Minutes, BusError> {
        Ok(65535)
    }
    fn at_rate_time_to_empty(&mut self) -> Result<Minutes, BusError> {
        Ok(90)
    }
    fn at_rate_ok(&mut self) -> Result<bool, BusError> {
        Ok(true)
    }
    fn temperature(&mut self) -> Result<bool, BusError> {
        Err(BusError::Timeout)
    }
    fn voltage(&mut self) -> Result<MilliVolts, BusError> {
        Ok(11_100)
    }
    fn current(&mut self) -> Result<MilliAmpsSigned, BusError> {
        Ok(-250)
    }
    fn average_current(&mut self) -> Result<MilliAmpsSigned, BusError> {
        Ok(-240)
    }
    fn max_error(&mut self) -> Result<Percent, BusError> {
        Ok(3)
    }
    fn relative_state_of_charge(&mut self) -> Result<Percent, BusError> {
        Ok(80)
    }
    fn absolute_state_of_charge(&mut self) -> Result<Percent, BusError> {
        Ok(75)
    }
    fn remaining_capacity(&mut self) -> Result<CapacityModeValue, BusError> {
        Ok(CapacityModeValue::MilliAmpUnsigned(3000))
    }
    fn full_charge_capacity(&mut self) -> Result<CapacityModeValue, BusError> {
        Ok(CapacityModeValue::MilliAmpUnsigned(4000))
    }
    fn run_time_to_empty(&mut self) -> Result<Minutes, BusError> {
        Ok(120)
    }
    fn average_time_to_empty(&mut self) -> Result<Minutes, BusError> {
        Ok(118)
    }
    fn average_time_to_full(&mut self) -> Result<Minutes, BusError> {
        Ok(65535)
    }
    fn battery_status(&mut self) -> Result<BatteryStatusFields, BusError> {
        Ok(BatteryStatusFields::from_bits(0x00c0))
    }
    fn cycle_count(&mut self) -> Result<Cycles, BusError> {
        Ok(12)
    }
    fn design_capacity(&mut self) -> Result<CapacityModeValue, BusError> {
        Ok(CapacityModeValue::CentiWattUnsigned(4400))
    }
    fn design_voltage(&mut self) -> Result<MilliVolts, BusError> {
        Ok(11_100)
    }
    fn specification_info(&mut self) -> Result<u16, BusError> {
        Ok(0x0031)
    }
    fn manufacture_date(&mut self) -> Result<ManufactureDate, BusError> {
        Ok(ManufactureDate::from_bits(0x5867))
    }
    fn serial_number(&mut self) -> Result<u16, BusError> {
        Ok(0xbeef)
    }
    fn manufacturer_name(&mut self, name: &mut [u8]) -> Result<(), BusError> {
        if name.len() < 4 {
            return Err(BusError::Status(ErrorCode::BadSize));
        }
        name[..4].copy_from_slice(b"ACME");
        Ok(())
    }
    fn device_name(&mut self, name: &mut [u8]) -> Result<(), BusError> {
        name.fill(b'x');
        Ok(())
    }
    fn device_chemistry(&mut self, chemistry: &mut [u8]) -> Result<(), BusError> {
        chemistry[..4].copy_from_slice(b"LION");
        Ok(())
    }
}

fn read_through<B: SmartBattery>(b: &mut B) -> Result<(u16, Percent), B::Error> {
    Ok((b.battery_mode(0x6000)?, b.relative_state_of_charge()?))
}

#[test]
fn smart_battery_calls_forward_through_a_mutable_borrow() {
    let mut fake = FakeBattery { mode: 0, rate: 0 };
    let mut borrowed = &mut fake;
    assert_eq!(read_through(&mut borrowed).unwrap(), (0x6000, 80));
    assert_eq!(borrowed.voltage().unwrap(), 11_100);
    assert_eq!(borrowed.current().unwrap(), -250);
    assert_eq!(borrowed.manufacture_date().unwrap().year(), 44);
    assert!(borrowed.battery_status().unwrap().initialized());
    assert!(matches!(
        borrowed.at_rate(CapacityModeSignedValue::MilliAmpSigned(-500)),
        Ok(CapacityModeSignedValue::MilliAmpSigned(-500))
    ));
    let mut name = [0u8; 8];
    borrowed.manufacturer_name(&mut name).unwrap();
    assert_eq!(&name[..4], b"ACME");
    let mut short = [0u8; 2];
    let err = borrowed.manufacturer_name(&mut short).unwrap_err();
    assert_eq!(smart_battery::Error::kind(&err), ErrorKind::BatteryStatus(ErrorCode::BadSize));
    assert_eq!(fake.mode, 0x6000);
    assert_eq!(fake.rate, -500);
}

#[test]
fn capacity_value_keeps_its_number_and_tag() {
    let value = CapacityModeValue::MilliAmpUnsigned(1234);
    match value {
        CapacityModeValue::MilliAmpUnsigned(ma) => assert_eq!(ma, 1234),
        CapacityModeValue::CentiWattUnsigned(_) => panic!("tag changed"),
    }
    let power = CapacityModeValue::CentiWattUnsigned(1234);
    assert!(matches!(power, CapacityModeValue::CentiWattUnsigned(1234)));
    let rate = CapacityModeSignedValue::CentiWattSigned(-1234);
    assert!(matches!(rate, CapacityModeSignedValue::CentiWattSigned(-1234)));
}

#[test]
fn driver_errors_classify_into_one_kind() {
    let errors = [BusError::Nack, BusError::Status(ErrorCode::Busy), BusError::Timeout];
    let kinds: Vec<ErrorKind> = errors.iter().map(smart_battery::Error::kind).collect();
    assert_eq!(kinds, vec![ErrorKind::CommError, ErrorKind::BatteryStatus(ErrorCode::Busy), ErrorKind::Other]);
    for kind in kinds {
        assert_eq!(smart_battery::Error::kind(&kind), kind);
    }
    assert_eq!(charger::Error::kind(&charger::ErrorKind::Other), charger::ErrorKind::Other);
}

#[test]
fn infallible_is_an_error_type() {
    fn classify<E: smart_battery::Error + charger::Error>(r: Result<u8, E>) -> u8 {
        match r {
            Ok(v) => v,
            Err(e) => {
                let _ = smart_battery::Error::kind(&e);
                let _ = charger::Error::kind(&e);
                0
            }
        }
    }
    assert_eq!(classify::<Infallible>(Ok(5)), 5);
}

#[test]
fn error_kind_messages() {
    assert_eq!(ErrorKind::CommError.message(), "Error communicating with Smart Battery");
    assert_eq!(
        ErrorKind::Other.message(),
        "A different error occurred. The original error may contain more information"
    );
    assert!(ErrorKind::BatteryStatus(ErrorCode::Busy).message().starts_with("Error reported by"));
    assert_eq!(charger::ErrorKind::CommError.message(), "Error communicating with charger");
}
