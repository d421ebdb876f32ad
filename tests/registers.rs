use embedded_batteries::smart_battery::{
    BatteryModeFields, BatteryStatusFields, ErrorCode, ManufactureDate, Revision,
    SpecificationInfoFields, Version,
};

#[test]
fn raw_words_round_trip_through_every_register() {
    for raw in [0u16, 1, 0x1234, 0x2400, 0x1cff, 0x8001, 0xfffe, 0xffff] {
        assert_eq!(ManufactureDate::from_bits(raw).into_bits(), raw);
        assert_eq!(BatteryModeFields::from_bits(raw).into_bits(), raw);
        assert_eq!(BatteryStatusFields::from_bits(raw).into_bits(), raw);
        assert_eq!(SpecificationInfoFields::from_bits(raw).into_bits(), raw);
    }
}

#[test]
fn new_and_default_registers_are_zero() {
    assert_eq!(ManufactureDate::new().into_bits(), 0);
    assert_eq!(BatteryModeFields::new().into_bits(), 0);
    assert_eq!(BatteryStatusFields::default().into_bits(), 0);
    assert_eq!(SpecificationInfoFields::new().into_bits(), 0);
    assert_eq!(SpecificationInfoFields::new().revision(), Revision::Reserved);
    assert_eq!(SpecificationInfoFields::new().version(), Version::Reserved);
}

#[test]
fn manufacture_date_packs_year_month_day() {
    let date = ManufactureDate::new().with_day(15).with_month(6).with_year(44);
    assert_eq!(date.into_bits(), 44 * 512 + 6 * 32 + 15);
    assert_eq!(date.day(), 15);
    assert_eq!(date.month(), 6);
    assert_eq!(date.year(), 44);
}

#[test]
fn manufacture_date_round_trips_valid_triples() {
    for day in 1..=31usize {
        for month in 1..=12usize {
            for year in [0usize, 1, 45, 126, 127] {
                let date = ManufactureDate::new().with_day(day).with_month(month).with_year(year);
                let back = ManufactureDate::from_bits(date.into_bits());
                assert_eq!((back.day(), back.month(), back.year()), (day, month, year));
            }
        }
    }
}

#[test]
fn manufacture_date_decodes_a_known_word() {
    // 2024-03-07: (2024 - 1980) * 512 + 3 * 32 + 7
    let date = ManufactureDate::from_bits(0x5867);
    assert_eq!(date.day(), 7);
    assert_eq!(date.month(), 3);
    assert_eq!(date.year(), 44);
}

#[test]
fn manufacture_date_checked_setters_refuse_values_that_do_not_fit() {
    let date = ManufactureDate::from_bits(0x5867);
    assert!(date.with_day_checked(32).is_err());
    assert!(date.with_month_checked(16).is_err());
    assert!(date.with_year_checked(128).is_err());
    assert_eq!(date.with_day_checked(31).unwrap().into_bits(), 0x587f);

    let mut d = date;
    assert_eq!(d.set_month_checked(16), Err(()));
    assert_eq!(d.into_bits(), 0x5867);
    assert_eq!(d.set_month_checked(12), Ok(()));
    assert_eq!(d.month(), 12);
    assert_eq!(d.day(), 7);
    assert_eq!(d.year(), 44);
}

#[test]
fn battery_mode_flags_sit_at_their_bits() {
    let mode = BatteryModeFields::from_bits(0x8083);
    assert!(mode.internal_charge_controller());
    assert!(mode.primary_battery_support());
    assert!(mode.condition_flag());
    assert!(!mode.charge_controller_enabled());
    assert!(!mode.primary_battery());
    assert!(!mode.alarm_mode());
    assert!(!mode.charger_mode());
    assert!(mode.capacity_mode());
}

#[test]
fn battery_mode_setters_keep_read_only_and_reserved_bits() {
    let raw = 0x1cff;
    let mut mode = BatteryModeFields::from_bits(raw)
        .with_charge_controller_enabled(true)
        .with_primary_battery(true)
        .with_alarm_mode(true)
        .with_charger_mode(true)
        .with_capacity_mode(true);
    assert_eq!(mode.into_bits(), 0xffff);
    mode.set_charge_controller_enabled(false);
    mode.set_primary_battery(false);
    mode.set_alarm_mode(false);
    mode.set_charger_mode(false);
    mode.set_capacity_mode(false);
    assert_eq!(mode.into_bits(), raw);
}

#[test]
fn status_error_code_decodes_every_pattern() {
    let expected = [
        ErrorCode::NoError,
        ErrorCode::Busy,
        ErrorCode::ReservedCmd,
        ErrorCode::UnsupportedCmd,
        ErrorCode::AccessDenied,
        ErrorCode::UnderOverFlow,
        ErrorCode::BadSize,
    ];
    for pattern in 0u16..16 {
        let status = BatteryStatusFields::from_bits(0xfff0 | pattern);
        let code = status.error_code();
        if pattern <= 6 {
            assert_eq!(code, expected[pattern as usize]);
            assert_eq!(code.into_bits(), pattern as u8);
        } else {
            assert_eq!(code, ErrorCode::UnknownError);
        }
    }
}

#[test]
fn error_code_numbers_round_trip() {
    for value in 0u8..=255 {
        let code = ErrorCode::from_bits(value);
        if value <= 7 {
            assert_eq!(code.into_bits(), value);
        } else {
            assert_eq!(code.into_bits(), 7);
        }
    }
}

#[test]
fn status_rebuild_keeps_canonical_words_and_reserved_bits() {
    let raw = 0xa5a3;
    let status = BatteryStatusFields::from_bits(raw);
    assert_eq!(status.with_error_code(status.error_code()).into_bits(), raw);
    let odd = BatteryStatusFields::from_bits(0x240c);
    assert_eq!(odd.with_error_code(odd.error_code()).into_bits(), 0x2407);
}

#[test]
fn status_flags_sit_at_their_bits() {
    let status = BatteryStatusFields::new()
        .with_error_code(ErrorCode::Busy)
        .with_fully_discharged(true)
        .with_initialized(true)
        .with_over_temp_alarm(true)
        .with_over_charged_alarm(true);
    assert_eq!(status.into_bits(), 0x9091);
    assert!(status.fully_discharged());
    assert!(!status.fully_charged());
    assert!(!status.discharging());
    assert!(status.initialized());
    assert!(!status.remaining_time_alarm());
    assert!(!status.remaining_capacity_alarm());
    assert!(!status.terminate_discharge_alarm());
    assert!(status.over_temp_alarm());
    assert!(!status.terminate_charge_alarm());
    assert!(status.over_charged_alarm());
    let mut s = status;
    s.set_error_code(ErrorCode::BadSize);
    s.set_over_temp_alarm(false);
    assert_eq!(s.into_bits(), 0x8096);
}

#[test]
fn specification_info_fields() {
    let info = SpecificationInfoFields::from_bits(0x1231);
    assert_eq!(info.revision(), Revision::Version1And1Dot1);
    assert_eq!(info.version(), Version::Version1Dot1Pec);
    assert_eq!(info.v_scale(), 2);
    assert_eq!(info.ip_scale(), 1);
    let rebuilt = SpecificationInfoFields::new()
        .with_revision(Revision::Version1And1Dot1)
        .with_version(Version::Version1Dot1Pec)
        .with_v_scale(2)
        .with_ip_scale(1);
    assert_eq!(rebuilt.into_bits(), 0x1231);
    assert!(rebuilt.with_v_scale_checked(16).is_err());
}

#[test]
fn unknown_revision_and_version_numbers_decode_as_reserved() {
    let info = SpecificationInfoFields::from_bits(0x00f7);
    assert_eq!(info.revision(), Revision::Reserved);
    assert_eq!(info.version(), Version::Reserved);
    assert_eq!(Revision::from_bits(1), Revision::Version1And1Dot1);
    assert_eq!(Revision::from_bits(2), Revision::Reserved);
    assert_eq!(Version::from_bits(2), Version::Version1Dot1);
    assert_eq!(Version::from_bits(9).into_bits(), 0);
}

#[test]
fn registers_convert_from_and_into_words() {
    let status = BatteryStatusFields::from(0x00c5u16);
    assert_eq!(status.error_code(), ErrorCode::UnderOverFlow);
    assert_eq!(u16::from(status), 0x00c5);
    let date: ManufactureDate = 0x5867u16.into();
    assert_eq!(date.month(), 3);
    assert_eq!(u16::from(BatteryModeFields::from(0x4000u16).with_charger_mode(false)), 0);
    assert_eq!(u16::from(SpecificationInfoFields::from(0xffffu16)), 0xffff);
}
