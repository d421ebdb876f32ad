use embedded_batteries::acpi::{
    BatteryState, BmcControlFlags, BmdCapabilityFlags, BmdStatusFlags, PowerThresholdSupport, BatterySwapCapability, BatteryTechnology, BctReturnResult, BixReturn,
    BixReturnSerializeErr, BmaReturnResult, BmsReturnResult, BtmReturnResult, Pif,
    PifSerializeErr, PowerSource, PowerSourceState, PowerUnit, StaReturn,
    BCT_RETURN_SIZE_BYTES, BTM_RETURN_SIZE_BYTES,
};

fn sample_bix<'a>(model: &'a [u8], serial: &'a [u8], kind: &'a [u8], oem: &'a [u8]) -> BixReturn<'a> {
    BixReturn {
        revision: 1,
        power_unit: PowerUnit::MilliWatts,
        design_capacity: 0x0102_0304,
        last_full_charge_capacity: 5000,
        battery_technology: BatteryTechnology::Secondary,
        design_voltage: 11_400,
        design_cap_of_warning: 500,
        design_cap_of_low: 200,
        cycle_count: 42,
        measurement_accuracy: 80_000,
        max_sampling_time: 1000,
        min_sampling_time: 100,
        max_averaging_interval: 60_000,
        min_averaging_interval: 1000,
        battery_capacity_granularity_1: 10,
        battery_capacity_granularity_2: 0xffff_fffe,
        model_number: model,
        serial_number: serial,
        battery_type: kind,
        oem_info: oem,
        battery_swapping_capability: BatterySwapCapability::HotSwappable,
    }
}

#[test]
fn pif_example_serializes_to_twelve_bytes() {
    let pif = Pif {
        power_source_state: PowerSourceState::from_bits_retain(0x3),
        max_output_power: 100,
        max_input_power: 200,
        model_number: &[],
        serial_number: &[],
        oem_info: &[],
    };
    let mut buf = [0xaau8; 12];
    assert_eq!(pif.to_bytes(&mut buf, 0, 0, 0), Ok(()));
    assert_eq!(buf, [0x03, 0, 0, 0, 0x64, 0, 0, 0, 0xc8, 0, 0, 0]);
}

#[test]
fn pif_strings_follow_the_header_without_gaps() {
    let pif = Pif {
        power_source_state: PowerSourceState::from_bits_retain(PowerSourceState::SHARED),
        max_output_power: 0xffff_ffff,
        max_input_power: 0x0403_0201,
        model_number: b"M1\0",
        serial_number: b"S\0",
        oem_info: b"OEM\0",
    };
    let mut buf = [0xeeu8; 24];
    assert_eq!(pif.to_bytes(&mut buf, 3, 2, 4), Ok(()));
    assert_eq!(
        buf,
        [
            2, 0, 0, 0, 0xff, 0xff, 0xff, 0xff, 1, 2, 3, 4, b'M', b'1', 0, b'S', 0, b'O', b'E',
            b'M', 0, 0xee, 0xee, 0xee
        ]
    );
}

#[test]
fn pif_one_byte_short_is_too_small() {
    let pif = Pif { model_number: b"AB", ..Default::default() };
    let mut buf = [7u8; 13];
    assert_eq!(pif.to_bytes(&mut buf, 2, 0, 0), Err(PifSerializeErr::InputSliceTooSmall));
    assert_eq!(buf, [7u8; 13]);
    let empty = Pif::default();
    let mut small = [0u8; 11];
    assert_eq!(empty.to_bytes(&mut small, 0, 0, 0), Err(PifSerializeErr::InputSliceTooSmall));
}

#[test]
fn pif_size_mismatch_is_refused() {
    let pif = Pif { serial_number: b"XYZ", ..Default::default() };
    let mut buf = [0u8; 64];
    assert_eq!(pif.to_bytes(&mut buf, 0, 2, 0), Err(PifSerializeErr::StringSizeMismatch));
    assert_eq!(buf, [0u8; 64]);
}

#[test]
fn pif_huge_declared_sizes_are_too_small_not_an_overflow() {
    let pif = Pif::default();
    let mut buf = [0u8; 16];
    assert_eq!(
        pif.to_bytes(&mut buf, usize::MAX, usize::MAX, 1),
        Err(PifSerializeErr::InputSliceTooSmall)
    );
}

#[test]
fn bix_serializes_header_strings_and_swap_capability() {
    let bix = sample_bix(b"MOD\0", b"SN\0", b"LION\0", b"\0");
    let layout = 64 + 4 + 3 + 5 + 1;
    let mut buf = vec![0x55u8; layout + 4 + 2];
    assert_eq!(bix.to_bytes(&mut buf, 4, 3, 5, 1), Ok(()));
    assert_eq!(&buf[0..4], &[1, 0, 0, 0]);
    assert_eq!(&buf[4..8], &[0, 0, 0, 0]);
    assert_eq!(&buf[8..12], &[4, 3, 2, 1]);
    assert_eq!(&buf[12..16], &5000u32.to_le_bytes());
    assert_eq!(&buf[16..20], &[1, 0, 0, 0]);
    assert_eq!(&buf[20..24], &11_400u32.to_le_bytes());
    assert_eq!(&buf[32..36], &[42, 0, 0, 0]);
    assert_eq!(&buf[36..40], &80_000u32.to_le_bytes());
    assert_eq!(&buf[60..64], &[0xfe, 0xff, 0xff, 0xff]);
    assert_eq!(&buf[64..68], b"MOD\0");
    assert_eq!(&buf[68..71], b"SN\0");
    assert_eq!(&buf[71..76], b"LION\0");
    assert_eq!(&buf[76..77], b"\0");
    assert_eq!(&buf[77..81], &[2, 0, 0, 0]);
    assert_eq!(&buf[81..], &[0x55, 0x55]);
}

#[test]
fn bix_exact_buffer_succeeds() {
    let bix = sample_bix(b"A", b"B", b"C", b"D");
    let mut buf = [0xeeu8; 68];
    assert_eq!(bix.to_bytes(&mut buf, 1, 1, 1, 1), Ok(()));
    assert_eq!(&buf[0..4], &[1, 0, 0, 0]);
    assert_eq!(&buf[64..68], b"ABCD");
}

#[test]
fn bix_exact_buffer_with_one_string() {
    let bix = BixReturn {
        revision: 1,
        power_unit: PowerUnit::MilliAmps,
        design_capacity: 5000,
        cycle_count: 7,
        model_number: b"M1",
        ..BixReturn::default()
    };
    let mut dst = [0u8; 66];
    assert_eq!(bix.to_bytes(&mut dst, 2, 0, 0, 0), Ok(()));
    let mut expected = [0u8; 66];
    expected[0..12].copy_from_slice(&[1, 0, 0, 0, 1, 0, 0, 0, 0x88, 0x13, 0, 0]);
    expected[16..20].copy_from_slice(&[1, 0, 0, 0]);
    expected[32..36].copy_from_slice(&[7, 0, 0, 0]);
    expected[64..66].copy_from_slice(b"M1");
    assert_eq!(dst, expected);
}

#[test]
fn bix_swap_capability_follows_the_strings_where_it_fits() {
    let bix = sample_bix(b"A", b"B", b"C", b"D");
    let mut room = [0u8; 72];
    assert_eq!(bix.to_bytes(&mut room, 1, 1, 1, 1), Ok(()));
    assert_eq!(&room[64..72], &[b'A', b'B', b'C', b'D', 2, 0, 0, 0]);
    let mut short = [0xeeu8; 71];
    let bix = sample_bix(b"A", b"B", b"C", b"D");
    assert_eq!(bix.to_bytes(&mut short, 1, 1, 1, 1), Ok(()));
    assert_eq!(&short[64..71], &[b'A', b'B', b'C', b'D', 0xee, 0xee, 0xee]);
}

#[test]
fn bix_one_byte_short_is_too_small() {
    let bix = sample_bix(b"A", b"B", b"C", b"D");
    let mut buf = [9u8; 67];
    assert_eq!(bix.to_bytes(&mut buf, 1, 1, 1, 1), Err(BixReturnSerializeErr::InputSliceTooSmall));
    assert_eq!(buf, [9u8; 67]);
    let empty = BixReturn::default();
    let mut small = [0u8; 63];
    assert_eq!(empty.to_bytes(&mut small, 0, 0, 0, 0), Err(BixReturnSerializeErr::InputSliceTooSmall));
}

#[test]
fn bix_size_mismatch_is_refused() {
    let bix = sample_bix(b"A", b"B", b"CC", b"D");
    let mut buf = [0u8; 128];
    assert_eq!(bix.to_bytes(&mut buf, 1, 1, 1, 1), Err(BixReturnSerializeErr::StringSizeMismatch));
    assert_eq!(buf, [0u8; 128]);
}

#[test]
fn bix_mismatch_with_a_just_large_enough_buffer() {
    for n in 68..72 {
        let bix = sample_bix(b"A", b"B", b"CC", b"D");
        let mut buf = vec![0u8; n];
        assert_eq!(bix.to_bytes(&mut buf, 1, 1, 1, 1), Err(BixReturnSerializeErr::StringSizeMismatch));
    }
}

#[test]
fn bix_too_small_is_reported_before_a_mismatch() {
    let bix = sample_bix(b"A", b"B", b"CC", b"D");
    let mut buf = [0u8; 67];
    assert_eq!(bix.to_bytes(&mut buf, 1, 1, 1, 1), Err(BixReturnSerializeErr::InputSliceTooSmall));
}

#[test]
fn enum_encodings() {
    assert_eq!(u32::from(PowerUnit::MilliWatts), 0);
    assert_eq!(u32::from(PowerUnit::MilliAmps), 1);
    assert_eq!(u32::from(BatteryTechnology::Primary), 0);
    assert_eq!(u32::from(BatterySwapCapability::ColdSwappable), 1);
    assert_eq!(u32::from(PowerSource::Online), 1);
    assert_eq!(u32::from(PowerSource::Offline), 0);
    assert_eq!(u32::from(BmsReturnResult::OutOfRange), 1);
    assert_eq!(u32::from(BmaReturnResult::Success), 0);
    assert_eq!(PowerUnit::default(), PowerUnit::MilliAmps);
}

#[test]
fn charge_time_results_convert_both_ways() {
    assert_eq!(BctReturnResult::from(0), BctReturnResult::InvalidTarget);
    assert_eq!(BctReturnResult::from(0xffff_ffff), BctReturnResult::Unknown);
    assert_eq!(BctReturnResult::from(3600), BctReturnResult::EstimatedTime(3600));
    assert_eq!(u32::from(BctReturnResult::EstimatedTime(3600)), 3600);
    assert_eq!(u32::from(BctReturnResult::Unknown), 0xffff_ffff);
    let bytes: [u8; BCT_RETURN_SIZE_BYTES] = BctReturnResult::EstimatedTime(0x0102_0304).into();
    assert_eq!(bytes, [4, 3, 2, 1]);
    assert_eq!(BctReturnResult::default(), BctReturnResult::Unknown);
}

#[test]
fn runtime_results_convert_both_ways() {
    assert_eq!(BtmReturnResult::from(0), BtmReturnResult::RateTooHighOrBatteryCritical);
    assert_eq!(BtmReturnResult::from(0xffff_ffff), BtmReturnResult::Unknown);
    assert_eq!(BtmReturnResult::from(7), BtmReturnResult::EstimatedRuntime(7));
    assert_eq!(u32::from(BtmReturnResult::RateTooHighOrBatteryCritical), 0);
    let bytes: [u8; BTM_RETURN_SIZE_BYTES] = BtmReturnResult::Unknown.into();
    assert_eq!(bytes, [0xff; 4]);
}

#[test]
fn flags_set_test_and_clear() {
    let mut state = BatteryState::empty();
    assert!(state.is_empty());
    state.insert(BatteryState::from_bits_retain(BatteryState::CHARGING | BatteryState::CRITICAL));
    assert_eq!(state.bits(), 0b0110);
    assert!(state.contains(BatteryState::from_bits_retain(BatteryState::CHARGING)));
    assert!(!state.contains(BatteryState::from_bits_retain(BatteryState::DISCHARGING)));
    assert!(state.intersects(BatteryState::from_bits_retain(0b0011)));
    state.remove(BatteryState::from_bits_retain(BatteryState::CRITICAL));
    assert_eq!(state.bits(), BatteryState::CHARGING);
    state.set(BatteryState::from_bits_retain(BatteryState::CHARGE_LIMITING), true);
    assert_eq!(state.bits(), 0b1010);
    assert_eq!(BatteryState::all().bits(), 0b1111);
    let both = state.union(BatteryState::from_bits_retain(1));
    assert_eq!(both.bits(), 0b1011);
}

#[test]
fn flags_from_bits_refuses_unnamed_bits() {
    assert_eq!(StaReturn::from_bits(0x1f).map(|s| s.bits()), Some(0x1f));
    assert_eq!(StaReturn::from_bits(0x20), None);
    assert_eq!(StaReturn::from_bits_truncate(0xff).bits(), 0x1f);
    assert_eq!(StaReturn::from_bits_retain(0xff).bits(), 0xff);
    assert_eq!(StaReturn::BATTERY_PRESENT, 0x10);
}

#[test]
fn maintenance_and_threshold_flags() {
    assert_eq!(BmdStatusFlags::all().bits(), 0x7f);
    assert_eq!(BmdStatusFlags::from_bits_truncate(0xffff_ffff).bits(), 0x7f);
    assert_eq!(BmdCapabilityFlags::all().bits(), 0x3f);
    assert_eq!(BmdCapabilityFlags::from_bits(0x40).map(|f| f.bits()), None);
    assert_eq!(BmcControlFlags::all().bits(), 0xf);
    assert_eq!(PowerThresholdSupport::all().bits(), 0x3);
    assert_eq!(PowerSourceState::all().bits(), 0x3);
    let mut ctl = BmcControlFlags::empty();
    ctl.set(BmcControlFlags::from_bits_retain(BmcControlFlags::DISABLE_CHARGING), true);
    assert_eq!(ctl.bits(), 0b10);
    ctl.set(BmcControlFlags::from_bits_retain(BmcControlFlags::DISABLE_CHARGING), false);
    assert!(ctl.is_empty());
}

#[test]
fn flags_set_algebra() {
    let a = BatteryState::from_bits_retain(0b0011);
    let b = BatteryState::from_bits_retain(0b0110);
    assert_eq!(a.intersection(b).bits(), 0b0010);
    assert_eq!(a.difference(b).bits(), 0b0001);
    assert_eq!(a.symmetric_difference(b).bits(), 0b0101);
    assert_eq!(a.complement().bits(), 0b1100);
    assert_eq!(BatteryState::from_bits_retain(0xf0).complement().bits(), 0b1111);
    assert!(!a.is_all());
    assert!(BatteryState::from_bits_retain(0xff).is_all());
    let mut t = a;
    t.toggle(b);
    assert_eq!(t.bits(), 0b0101);
    t.toggle(b);
    assert_eq!(t.bits(), 0b0011);
}
