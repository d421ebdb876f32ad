//! Advanced Configuration and Power Interface (ACPI) return values and
//! arguments of the power source and battery methods, with the byte layouts
//! of those that carry variable-length strings.
use vstd::prelude::*;

use crate::wire::{append_bytes, append_u32, le_bytes, u32_to_le_bytes};

verus! {

/// BST: Battery Status.
#[derive(Default, Copy, Clone, PartialEq, Eq, Structural, Debug)]
pub struct BstReturn {
    /// Battery state flags indicating charging/discharging/critical status.
    pub battery_state: BatteryState,
    /// Present rate of power or current flow (in mW or mA).
    ///
    /// - `0x00000000..=0x7FFFFFFF`: Valid rate.
    /// - `0xFFFFFFFF`: Unknown rate.
    pub battery_present_rate: u32,
    /// Estimated remaining battery capacity (in mWh or mAh).
    ///
    /// - `0x00000000..=0x7FFFFFFF`: Valid capacity.
    /// - `0xFFFFFFFF`: Unknown capacity.
    pub battery_remaining_capacity: u32,
    /// Present voltage across the battery terminals (in mV).
    ///
    /// - `0x00000000..=0x7FFFFFFF`: Valid voltage.
    /// - `0xFFFFFFFF`: Unknown voltage (only for primary batteries).
    pub battery_present_voltage: u32,
}

/// Size of BstReturn in bytes
pub const BST_RETURN_SIZE_BYTES: usize = 16;

/// Battery State (BST).
///
/// Each named flag is a bit mask; bits without a name are kept as given.
#[derive(Default, Copy, Clone, PartialEq, Eq, Structural, Debug)]
pub struct BatteryState(u32);

impl View for BatteryState {
    type V = u32;

    closed spec fn view(&self) -> u32 {
        self.0
    }
}

impl BatteryState {
    /// Battery is discharging.
    pub const DISCHARGING: u32 = 1 << 0;

    /// Battery is charging.
    pub const CHARGING: u32 = 1 << 1;

    /// Battery is in a critical energy state.
    pub const CRITICAL: u32 = 1 << 2;

    /// Battery is in Battery Charge Limiting state.
    pub const CHARGE_LIMITING: u32 = 1 << 3;

    /// No flag set.
    pub fn empty() -> (r: Self)
        ensures
            r@ == 0,
    {
        BatteryState(0)
    }

    /// Every named flag set.
    pub fn all() -> (r: Self)
        ensures
            r@ == 0xf,
    {
        BatteryState(0xf)
    }

    /// The raw bits.
    pub fn bits(&self) -> (r: u32)
        ensures
            r == self@,
    {
        self.0
    }

    /// The flags of `bits`, when it sets no bit without a name.
    pub fn from_bits(bits: u32) -> (r: Option<Self>)
        ensures
            match r {
                Some(f) => bits & !0xfu32 == 0 && f@ == bits,
                None => bits & !0xfu32 != 0,
            },
    {
        if bits & !0xf == 0 {
            Some(BatteryState(bits))
        } else {
            None
        }
    }

    /// The named flags of `bits`; other bits are dropped.
    pub fn from_bits_truncate(bits: u32) -> (r: Self)
        ensures
            r@ == bits & 0xf,
    {
        BatteryState(bits & 0xf)
    }

    /// The flags of `bits`, every bit kept.
    pub fn from_bits_retain(bits: u32) -> (r: Self)
        ensures
            r@ == bits,
    {
        BatteryState(bits)
    }

    /// No bit is set.
    pub fn is_empty(&self) -> (r: bool)
        ensures
            r == (self@ == 0),
    {
        self.0 == 0
    }

    /// Every bit of `other` is set in `self`.
    pub fn contains(&self, other: Self) -> (r: bool)
        ensures
            r == (self@ & other@ == other@),
    {
        self.0 & other.0 == other.0
    }

    /// Some bit of `other` is set in `self`.
    pub fn intersects(&self, other: Self) -> (r: bool)
        ensures
            r == (self@ & other@ != 0),
    {
        self.0 & other.0 != 0
    }

    /// Sets every bit of `other`.
    pub fn insert(&mut self, other: Self)
        ensures
            final(self)@ == old(self)@ | other@,
    {
        self.0 = self.0 | other.0;
    }

    /// Clears every bit of `other`.
    pub fn remove(&mut self, other: Self)
        ensures
            final(self)@ == old(self)@ & !other@,
    {
        self.0 = self.0 & !other.0;
    }

    /// Sets or clears every bit of `other`, as `value` says.
    pub fn set(&mut self, other: Self, value: bool)
        ensures
            final(self)@ == if value {
                old(self)@ | other@
            } else {
                old(self)@ & !other@
            },
    {
        if value {
            self.insert(other);
        } else {
            self.remove(other);
        }
    }

    /// The bits set in either.
    pub fn union(self, other: Self) -> (r: Self)
        ensures
            r@ == self@ | other@,
    {
        BatteryState(self.0 | other.0)
    }

    /// Every named flag is set.
    pub fn is_all(&self) -> (r: bool)
        ensures
            r == (0xf | self@ == self@),
    {
        BatteryState::all().0 | self.0 == self.0
    }

    /// Flips every bit of `other`.
    pub fn toggle(&mut self, other: Self)
        ensures
            final(self)@ == old(self)@ ^ other@,
    {
        self.0 = self.0 ^ other.0;
    }

    /// The bits set in both.
    pub fn intersection(self, other: Self) -> (r: Self)
        ensures
            r@ == self@ & other@,
    {
        BatteryState(self.0 & other.0)
    }

    /// The bits set in `self` and not in `other`.
    pub fn difference(self, other: Self) -> (r: Self)
        ensures
            r@ == self@ & !other@,
    {
        BatteryState(self.0 & !other.0)
    }

    /// The bits set in exactly one of the two.
    pub fn symmetric_difference(self, other: Self) -> (r: Self)
        ensures
            r@ == self@ ^ other@,
    {
        BatteryState(self.0 ^ other.0)
    }

    /// The named flags that are not set; bits without a name are dropped.
    pub fn complement(self) -> (r: Self)
        ensures
            r@ == !self@ & 0xf,
    {
        BatteryState::from_bits_truncate(!self.0)
    }
}

/// Bytes that precede the strings of a serialized `BixReturn`.
pub const BIX_FIXED_HEADER_SIZE_BYTES: usize = 64;

/// BIX: Battery Information Extended.
///
/// Represents static battery information that remains constant until the battery is replaced.
/// Supersedes `_BIF` and includes additional fields introduced in ACPI 4.0.
#[derive(Default, PartialEq, Eq)]
pub struct BixReturn<'a> {
    /// Revision of the BIX structure. Current revision is 1.
    pub revision: u32,
    /// Unit used for capacity and rate values.
    pub power_unit: PowerUnit,
    /// Design capacity of the battery (in mWh or mAh).
    pub design_capacity: u32,
    /// Last full charge capacity (in mWh or mAh).
    pub last_full_charge_capacity: u32,
    /// Battery technology type.
    pub battery_technology: BatteryTechnology,
    /// Design voltage (in mV).
    pub design_voltage: u32,
    /// Warning capacity threshold (in mWh or mAh).
    pub design_cap_of_warning: u32,
    /// Low capacity threshold (in mWh or mAh).
    pub design_cap_of_low: u32,
    /// Number of charge/discharge cycles.
    pub cycle_count: u32,
    /// Measurement accuracy in thousandths of a percent (e.g., 80000 = 80.000%).
    pub measurement_accuracy: u32,
    /// Maximum supported sampling time (in ms).
    pub max_sampling_time: u32,
    /// Minimum supported sampling time (in ms).
    pub min_sampling_time: u32,
    /// Maximum supported averaging interval (in ms).
    pub max_averaging_interval: u32,
    /// Minimum supported averaging interval (in ms).
    pub min_averaging_interval: u32,
    /// Capacity granularity between low and warning (in mWh or mAh).
    pub battery_capacity_granularity_1: u32,
    /// Capacity granularity between warning and full (in mWh or mAh).
    pub battery_capacity_granularity_2: u32,
    /// OEM-specific model number (ASCIIZ).
    pub model_number: &'a [u8],
    /// OEM-specific serial number (ASCIIZ).
    pub serial_number: &'a [u8],
    /// OEM-specific battery type (ASCIIZ).
    pub battery_type: &'a [u8],
    /// OEM-specific information (ASCIIZ).
    pub oem_info: &'a [u8],
    /// Battery swapping capability.
    pub battery_swapping_capability: BatterySwapCapability,
}

/// Error type when serializing BixReturn.
#[derive(Clone, Copy, PartialEq, Eq, Structural, Debug)]
pub enum BixReturnSerializeErr {
    /// An incorrect size for a string was passed in.
    StringSizeMismatch,
    /// Input slice is too small to encapsulate all the fields.
    InputSliceTooSmall,
}

impl<'a> BixReturn<'a> {
    /// The fixed header: sixteen little-endian words, in declaration order.
    pub open spec fn header(&self) -> Seq<u8> {
        le_bytes(self.revision) + le_bytes(self.power_unit.spec_as_u32()) + le_bytes(
            self.design_capacity,
        ) + le_bytes(self.last_full_charge_capacity) + le_bytes(
            self.battery_technology.spec_as_u32(),
        ) + le_bytes(self.design_voltage) + le_bytes(self.design_cap_of_warning) + le_bytes(
            self.design_cap_of_low,
        ) + le_bytes(self.cycle_count) + le_bytes(self.measurement_accuracy) + le_bytes(
            self.max_sampling_time,
        ) + le_bytes(self.min_sampling_time) + le_bytes(self.max_averaging_interval) + le_bytes(
            self.min_averaging_interval,
        ) + le_bytes(self.battery_capacity_granularity_1) + le_bytes(
            self.battery_capacity_granularity_2,
        )
    }

    /// The serialized structure: the fixed header, then the four strings back
    /// to back.
    pub open spec fn layout(&self) -> Seq<u8> {
        self.header() + self.model_number@ + self.serial_number@ + self.battery_type@
            + self.oem_info@
    }

    /// The swapping capability as a little-endian word, which follows the
    /// layout where the buffer has room for it.
    pub open spec fn trailer(&self) -> Seq<u8> {
        le_bytes(self.battery_swapping_capability.spec_as_u32())
    }

    /// The number of bytes the serialized structure takes for the declared
    /// string sizes.
    pub open spec fn required_len(
        model_num_size: int,
        serial_num_size: int,
        battery_type_size: int,
        oem_info_size: int,
    ) -> int {
        BIX_FIXED_HEADER_SIZE_BYTES + model_num_size + serial_num_size + battery_type_size
            + oem_info_size
    }

    /// Every string is as long as its declared size.
    pub open spec fn sizes_match(
        &self,
        model_num_size: int,
        serial_num_size: int,
        battery_type_size: int,
        oem_info_size: int,
    ) -> bool {
        &&& self.model_number@.len() == model_num_size
        &&& self.serial_number@.len() == serial_num_size
        &&& self.battery_type@.len() == battery_type_size
        &&& self.oem_info@.len() == oem_info_size
    }

    /// The outcome of serializing into a buffer of `dst_len` bytes: a buffer
    /// too small for the declared sizes is refused first, then a string whose
    /// length differs from its declared size.
    pub open spec fn serialize_outcome(
        &self,
        dst_len: int,
        model_num_size: int,
        serial_num_size: int,
        battery_type_size: int,
        oem_info_size: int,
    ) -> Result<(), BixReturnSerializeErr> {
        if dst_len < Self::required_len(
            model_num_size,
            serial_num_size,
            battery_type_size,
            oem_info_size,
        ) {
            Err(BixReturnSerializeErr::InputSliceTooSmall)
        } else if !self.sizes_match(
            model_num_size,
            serial_num_size,
            battery_type_size,
            oem_info_size,
        ) {
            Err(BixReturnSerializeErr::StringSizeMismatch)
        } else {
            Ok(())
        }
    }

    /// Serialize BIX return value.
    ///
    /// `dst_slice` should be at least 64 + model_num_size + serial_num_size +
    /// battery_type_size + oem_info_size bytes large. On success the first
    /// bytes of `dst_slice` hold the layout; the swapping capability word
    /// follows it only where 4 more bytes fit, and every other byte is left
    /// untouched. On failure nothing is written.
    pub fn to_bytes(
        self,
        dst_slice: &mut [u8],
        model_num_size: usize,
        serial_num_size: usize,
        battery_type_size: usize,
        oem_info_size: usize,
    ) -> (r: Result<(), BixReturnSerializeErr>)
        ensures
            r == self.serialize_outcome(
                old(dst_slice)@.len() as int,
                model_num_size as int,
                serial_num_size as int,
                battery_type_size as int,
                oem_info_size as int,
            ),
            r is Ok && old(dst_slice)@.len() < self.layout().len() + 4 ==> final(dst_slice)@
                == self.layout() + old(dst_slice)@.subrange(
                self.layout().len() as int,
                old(dst_slice)@.len() as int,
            ),
            r is Ok && old(dst_slice)@.len() >= self.layout().len() + 4 ==> final(dst_slice)@ == (
            self.layout() + self.trailer()) + old(dst_slice)@.subrange(
                self.layout().len() + 4int,
                old(dst_slice)@.len() as int,
            ),
            r is Err ==> final(dst_slice)@ == old(dst_slice)@,
    {
        let len = dst_slice.len();
        if len < BIX_FIXED_HEADER_SIZE_BYTES {
            return Err(BixReturnSerializeErr::InputSliceTooSmall);
        }
        let mut room: usize = len - BIX_FIXED_HEADER_SIZE_BYTES;
        if room < model_num_size {
            return Err(BixReturnSerializeErr::InputSliceTooSmall);
        }
        room = room - model_num_size;
        if room < serial_num_size {
            return Err(BixReturnSerializeErr::InputSliceTooSmall);
        }
        room = room - serial_num_size;
        if room < battery_type_size {
            return Err(BixReturnSerializeErr::InputSliceTooSmall);
        }
        room = room - battery_type_size;
        if room < oem_info_size {
            return Err(BixReturnSerializeErr::InputSliceTooSmall);
        }
        if self.model_number.len() != model_num_size || self.serial_number.len()
            != serial_num_size || self.battery_type.len() != battery_type_size
            || self.oem_info.len() != oem_info_size {
            return Err(BixReturnSerializeErr::StringSizeMismatch);
        }
        let ghost orig = dst_slice@;
        let ghost mut done = Seq::<u8>::empty();
        assert(orig =~= done + orig.subrange(0, orig.len() as int));
        let mut pos: usize = append_u32(dst_slice, 0, self.revision, Ghost(done), Ghost(orig));
        proof {
            assert(done + le_bytes(self.revision) =~= le_bytes(self.revision));
            done = le_bytes(self.revision);
        }
        pos = append_u32(dst_slice, pos, u32::from(self.power_unit), Ghost(done), Ghost(orig));
        proof {
            done = done + le_bytes(self.power_unit.spec_as_u32());
        }
        pos = append_u32(dst_slice, pos, self.design_capacity, Ghost(done), Ghost(orig));
        proof {
            done = done + le_bytes(self.design_capacity);
        }
        pos = append_u32(dst_slice, pos, self.last_full_charge_capacity, Ghost(done), Ghost(orig));
        proof {
            done = done + le_bytes(self.last_full_charge_capacity);
        }
        pos = append_u32(
            dst_slice,
            pos,
            u32::from(self.battery_technology),
            Ghost(done),
            Ghost(orig),
        );
        proof {
            done = done + le_bytes(self.battery_technology.spec_as_u32());
        }
        pos = append_u32(dst_slice, pos, self.design_voltage, Ghost(done), Ghost(orig));
        proof {
            done = done + le_bytes(self.design_voltage);
        }
        pos = append_u32(dst_slice, pos, self.design_cap_of_warning, Ghost(done), Ghost(orig));
        proof {
            done = done + le_bytes(self.design_cap_of_warning);
        }
        pos = append_u32(dst_slice, pos, self.design_cap_of_low, Ghost(done), Ghost(orig));
        proof {
            done = done + le_bytes(self.design_cap_of_low);
        }
        pos = append_u32(dst_slice, pos, self.cycle_count, Ghost(done), Ghost(orig));
        proof {
            done = done + le_bytes(self.cycle_count);
        }
        pos = append_u32(dst_slice, pos, self.measurement_accuracy, Ghost(done), Ghost(orig));
        proof {
            done = done + le_bytes(self.measurement_accuracy);
        }
        pos = append_u32(dst_slice, pos, self.max_sampling_time, Ghost(done), Ghost(orig));
        proof {
            done = done + le_bytes(self.max_sampling_time);
        }
        pos = append_u32(dst_slice, pos, self.min_sampling_time, Ghost(done), Ghost(orig));
        proof {
            done = done + le_bytes(self.min_sampling_time);
        }
        pos = append_u32(dst_slice, pos, self.max_averaging_interval, Ghost(done), Ghost(orig));
        proof {
            done = done + le_bytes(self.max_averaging_interval);
        }
        pos = append_u32(dst_slice, pos, self.min_averaging_interval, Ghost(done), Ghost(orig));
        proof {
            done = done + le_bytes(self.min_averaging_interval);
        }
        pos = append_u32(
            dst_slice,
            pos,
            self.battery_capacity_granularity_1,
            Ghost(done),
            Ghost(orig),
        );
        proof {
            done = done + le_bytes(self.battery_capacity_granularity_1);
        }
        pos = append_u32(
            dst_slice,
            pos,
            self.battery_capacity_granularity_2,
            Ghost(done),
            Ghost(orig),
        );
        proof {
            done = done + le_bytes(self.battery_capacity_granularity_2);
            assert(done == self.header());
        }
        pos = append_bytes(dst_slice, pos, self.model_number, Ghost(done), Ghost(orig));
        proof {
            done = done + self.model_number@;
        }
        pos = append_bytes(dst_slice, pos, self.serial_number, Ghost(done), Ghost(orig));
        proof {
            done = done + self.serial_number@;
        }
        pos = append_bytes(dst_slice, pos, self.battery_type, Ghost(done), Ghost(orig));
        proof {
            done = done + self.battery_type@;
        }
        pos = append_bytes(dst_slice, pos, self.oem_info, Ghost(done), Ghost(orig));
        proof {
            done = done + self.oem_info@;
            assert(done == self.layout());
        }
        if len - pos >= 4 {
            append_u32(
                dst_slice,
                pos,
                u32::from(self.battery_swapping_capability),
                Ghost(done),
                Ghost(orig),
            );
        }
        Ok(())
    }
}

/// The layout of a `BixReturn`: sixteen words in the first 64 bytes, then
/// each string at the offset where the previous one ends, the last one
/// ending the layout; no gap anywhere.
pub proof fn lemma_bix_layout_offsets(bix: BixReturn)
    ensures
        ({
            let l = bix.layout();
            let m = BIX_FIXED_HEADER_SIZE_BYTES as int;
            let s = m + bix.model_number@.len();
            let b = s + bix.serial_number@.len();
            let o = b + bix.battery_type@.len();
            &&& l.len() == BixReturn::required_len(
                bix.model_number@.len() as int,
                bix.serial_number@.len() as int,
                bix.battery_type@.len() as int,
                bix.oem_info@.len() as int,
            )
            &&& l.subrange(0, 4) == le_bytes(bix.revision)
            &&& l.subrange(4, 8) == le_bytes(bix.power_unit.spec_as_u32())
            &&& l.subrange(16, 20) == le_bytes(bix.battery_technology.spec_as_u32())
            &&& l.subrange(60, 64) == le_bytes(bix.battery_capacity_granularity_2)
            &&& l.subrange(m, s) == bix.model_number@
            &&& l.subrange(s, b) == bix.serial_number@
            &&& l.subrange(b, o) == bix.battery_type@
            &&& l.subrange(o, l.len() as int) == bix.oem_info@
        }),
{
    let l = bix.layout();
    let h = bix.header();
    assert(h.len() == 64);
    let m = 64int;
    let s = m + bix.model_number@.len();
    let b = s + bix.serial_number@.len();
    let o = b + bix.battery_type@.len();
    assert(l.subrange(0, 4) =~= le_bytes(bix.revision));
    assert(l.subrange(4, 8) =~= le_bytes(bix.power_unit.spec_as_u32()));
    assert(l.subrange(16, 20) =~= le_bytes(bix.battery_technology.spec_as_u32()));
    assert(l.subrange(60, 64) =~= le_bytes(bix.battery_capacity_granularity_2));
    assert(l.subrange(m, s) =~= bix.model_number@);
    assert(l.subrange(s, b) =~= bix.serial_number@);
    assert(l.subrange(b, o) =~= bix.battery_type@);
    assert(l.subrange(o, l.len() as int) =~= bix.oem_info@);
}

/// With strings as long as declared and a buffer of exactly the required
/// length, serializing succeeds and fills the whole buffer.
pub proof fn lemma_bix_exact_buffer(
    bix: BixReturn,
    model_num_size: int,
    serial_num_size: int,
    battery_type_size: int,
    oem_info_size: int,
)
    requires
        bix.sizes_match(model_num_size, serial_num_size, battery_type_size, oem_info_size),
    ensures
        ({
            let n = BixReturn::required_len(
                model_num_size,
                serial_num_size,
                battery_type_size,
                oem_info_size,
            );
            &&& bix.serialize_outcome(
                n,
                model_num_size,
                serial_num_size,
                battery_type_size,
                oem_info_size,
            ) == Ok::<(), BixReturnSerializeErr>(())
            &&& bix.layout().len() == n
        }),
{
    lemma_bix_layout_offsets(bix);
}

/// A buffer one byte shorter than required is refused as too small, whatever
/// the strings hold.
pub proof fn lemma_bix_one_byte_short(
    bix: BixReturn,
    model_num_size: nat,
    serial_num_size: nat,
    battery_type_size: nat,
    oem_info_size: nat,
)
    ensures
        bix.serialize_outcome(
            BixReturn::required_len(
                model_num_size as int,
                serial_num_size as int,
                battery_type_size as int,
                oem_info_size as int,
            ) - 1,
            model_num_size as int,
            serial_num_size as int,
            battery_type_size as int,
            oem_info_size as int,
        ) == Err::<(), BixReturnSerializeErr>(BixReturnSerializeErr::InputSliceTooSmall),
{
}

/// With a buffer large enough for the declared sizes, a string whose length
/// differs from its declared size is refused as a size mismatch.
pub proof fn lemma_bix_size_mismatch(
    bix: BixReturn,
    dst_len: int,
    model_num_size: int,
    serial_num_size: int,
    battery_type_size: int,
    oem_info_size: int,
)
    requires
        dst_len >= BixReturn::required_len(
            model_num_size,
            serial_num_size,
            battery_type_size,
            oem_info_size,
        ),
        !bix.sizes_match(model_num_size, serial_num_size, battery_type_size, oem_info_size),
    ensures
        bix.serialize_outcome(
            dst_len,
            model_num_size,
            serial_num_size,
            battery_type_size,
            oem_info_size,
        ) == Err::<(), BixReturnSerializeErr>(BixReturnSerializeErr::StringSizeMismatch),
{
}

/// Power Unit.
#[derive(Default, Copy, Clone, PartialEq, Eq, Structural, Debug)]
pub enum PowerUnit {
    /// Capacity in mWh, rate in mW.
    MilliWatts,
    /// Capacity in mAh, rate in mA.
    #[default]
    MilliAmps,
}

impl PowerUnit {
    /// The ACPI encoding of the unit.
    pub open spec fn spec_as_u32(self) -> u32 {
        match self {
            PowerUnit::MilliWatts => 0,
            PowerUnit::MilliAmps => 1,
        }
    }
}

impl From<PowerUnit> for u32 {
    fn from(value: PowerUnit) -> (r: u32)
        ensures
            r == value.spec_as_u32(),
    {
        match value {
            PowerUnit::MilliWatts => 0,
            PowerUnit::MilliAmps => 1,
        }
    }
}

impl vstd::std_specs::convert::FromSpecImpl<PowerUnit> for u32 {
    open spec fn obeys_from_spec() -> bool {
        true
    }

    open spec fn from_spec(v: PowerUnit) -> u32 {
        v.spec_as_u32()
    }
}

/// Battery Technology.
#[derive(Default, Copy, Clone, PartialEq, Eq, Structural, Debug)]
pub enum BatteryTechnology {
    /// Primary (non-rechargeable).
    Primary,
    /// Secondary (rechargeable).
    #[default]
    Secondary,
}

impl BatteryTechnology {
    /// The ACPI encoding of the technology.
    pub open spec fn spec_as_u32(self) -> u32 {
        match self {
            BatteryTechnology::Primary => 0,
            BatteryTechnology::Secondary => 1,
        }
    }
}

impl From<BatteryTechnology> for u32 {
    fn from(value: BatteryTechnology) -> (r: u32)
        ensures
            r == value.spec_as_u32(),
    {
        match value {
            BatteryTechnology::Primary => 0,
            BatteryTechnology::Secondary => 1,
        }
    }
}

impl vstd::std_specs::convert::FromSpecImpl<BatteryTechnology> for u32 {
    open spec fn obeys_from_spec() -> bool {
        true
    }

    open spec fn from_spec(v: BatteryTechnology) -> u32 {
        v.spec_as_u32()
    }
}

/// Battery Swapping Capability.
#[derive(Default, Copy, Clone, PartialEq, Eq, Structural, Debug)]
pub enum BatterySwapCapability {
    /// Non-swappable battery.
    #[default]
    NonSwappable,
    /// Cold-swappable battery.
    ColdSwappable,
    /// Hot-swappable battery.
    HotSwappable,
}

impl BatterySwapCapability {
    /// The ACPI encoding of the capability.
    pub open spec fn spec_as_u32(self) -> u32 {
        match self {
            BatterySwapCapability::NonSwappable => 0,
            BatterySwapCapability::ColdSwappable => 1,
            BatterySwapCapability::HotSwappable => 2,
        }
    }
}

impl From<BatterySwapCapability> for u32 {
    fn from(value: BatterySwapCapability) -> (r: u32)
        ensures
            r == value.spec_as_u32(),
    {
        match value {
            BatterySwapCapability::NonSwappable => 0,
            BatterySwapCapability::ColdSwappable => 1,
            BatterySwapCapability::HotSwappable => 2,
        }
    }
}

impl vstd::std_specs::convert::FromSpecImpl<BatterySwapCapability> for u32 {
    open spec fn obeys_from_spec() -> bool {
        true
    }

    open spec fn from_spec(v: BatterySwapCapability) -> u32 {
        v.spec_as_u32()
    }
}


/// PSR: Power Source Status.
///
/// Represents whether a power source (e.g., AC adapter) is currently online or offline.
/// This is used to determine if the system is running on this power source.
#[derive(Default, Copy, Clone, PartialEq, Eq, Structural, Debug)]
pub struct PsrReturn {
    /// The current power source status.
    pub power_source: PowerSource,
}

/// Size of PsrReturn in bytes
pub const PSR_RETURN_SIZE_BYTES: usize = 4;

/// Result of a _PSR query.
///
/// Indicates whether the power source is currently supplying power to the system
#[derive(Default, Copy, Clone, PartialEq, Eq, Structural, Debug)]
pub enum PowerSource {
    /// Power source is offline (not supplying power).
    #[default]
    Offline,
    /// Power source is online (supplying power).
    Online,
}

impl PowerSource {
    /// The ACPI encoding of the status.
    pub open spec fn spec_as_u32(self) -> u32 {
        match self {
            PowerSource::Offline => 0,
            PowerSource::Online => 1,
        }
    }
}

impl From<PowerSource> for u32 {
    fn from(value: PowerSource) -> (r: u32)
        ensures
            r == value.spec_as_u32(),
    {
        match value {
            PowerSource::Offline => 0,
            PowerSource::Online => 1,
        }
    }
}

impl vstd::std_specs::convert::FromSpecImpl<PowerSource> for u32 {
    open spec fn obeys_from_spec() -> bool {
        true
    }

    open spec fn from_spec(v: PowerSource) -> u32 {
        v.spec_as_u32()
    }
}

/// Bytes that precede the strings of a serialized `Pif`.
pub const PIF_FIXED_HEADER_SIZE_BYTES: usize = 12;

/// PIF: Power Source Information.
///
/// Represents static information about a power source device. This information
/// remains constant until the power source is changed.
#[derive(Default, PartialEq, Eq)]
pub struct Pif<'a> {
    /// Bitfield describing the state and characteristics of the power source.
    pub power_source_state: PowerSourceState,
    /// Maximum rated output power in milliwatts (mW).
    ///
    /// 0xFFFFFFFF indicates the value is unavailable.
    pub max_output_power: u32,
    /// Maximum rated input power in milliwatts (mW).
    ///
    /// 0xFFFFFFFF indicates the value is unavailable.
    pub max_input_power: u32,
    /// OEM-specific model number (ASCIIZ). Empty string if not supported.
    pub model_number: &'a [u8],
    /// OEM-specific serial number (ASCIIZ). Empty string if not supported.
    pub serial_number: &'a [u8],
    /// OEM-specific information (ASCIIZ). Empty string if not supported.
    pub oem_info: &'a [u8],
}

/// Error type when serializing Pif.
#[derive(Clone, Copy, PartialEq, Eq, Structural, Debug)]
pub enum PifSerializeErr {
    /// An incorrect size for a string was passed in.
    StringSizeMismatch,
    /// Input slice is too small to encapsulate all the fields.
    InputSliceTooSmall,
}

impl<'a> Pif<'a> {
    /// The fixed header: three little-endian words, in declaration order.
    pub open spec fn header(&self) -> Seq<u8> {
        le_bytes(self.power_source_state@) + le_bytes(self.max_output_power) + le_bytes(
            self.max_input_power,
        )
    }

    /// The serialized structure: the fixed header, then the three strings back
    /// to back.
    pub open spec fn layout(&self) -> Seq<u8> {
        self.header() + self.model_number@ + self.serial_number@ + self.oem_info@
    }

    /// The number of bytes the serialized structure takes for the declared
    /// string sizes.
    pub open spec fn required_len(
        model_num_size: int,
        serial_num_size: int,
        oem_info_size: int,
    ) -> int {
        PIF_FIXED_HEADER_SIZE_BYTES + model_num_size + serial_num_size + oem_info_size
    }

    /// Every string is as long as its declared size.
    pub open spec fn sizes_match(
        &self,
        model_num_size: int,
        serial_num_size: int,
        oem_info_size: int,
    ) -> bool {
        &&& self.model_number@.len() == model_num_size
        &&& self.serial_number@.len() == serial_num_size
        &&& self.oem_info@.len() == oem_info_size
    }

    /// The outcome of serializing into a buffer of `dst_len` bytes: a buffer
    /// too small for the declared sizes is refused first, then a string whose
    /// length differs from its declared size.
    pub open spec fn serialize_outcome(
        &self,
        dst_len: int,
        model_num_size: int,
        serial_num_size: int,
        oem_info_size: int,
    ) -> Result<(), PifSerializeErr> {
        if dst_len < Self::required_len(model_num_size, serial_num_size, oem_info_size) {
            Err(PifSerializeErr::InputSliceTooSmall)
        } else if !self.sizes_match(model_num_size, serial_num_size, oem_info_size) {
            Err(PifSerializeErr::StringSizeMismatch)
        } else {
            Ok(())
        }
    }

    /// Serialize PIF return value.
    ///
    /// `dst_slice` should be at least 12 + model_num_size + serial_num_size + oem_info_size
    /// bytes large. On success the first bytes of `dst_slice` hold the layout
    /// and the rest is untouched; on failure nothing is written.
    pub fn to_bytes(
        self,
        dst_slice: &mut [u8],
        model_num_size: usize,
        serial_num_size: usize,
        oem_info_size: usize,
    ) -> (r: Result<(), PifSerializeErr>)
        ensures
            r == self.serialize_outcome(
                old(dst_slice)@.len() as int,
                model_num_size as int,
                serial_num_size as int,
                oem_info_size as int,
            ),
            r is Ok ==> final(dst_slice)@ == self.layout() + old(dst_slice)@.subrange(
                self.layout().len() as int,
                old(dst_slice)@.len() as int,
            ),
            r is Err ==> final(dst_slice)@ == old(dst_slice)@,
    {
        let len = dst_slice.len();
        if len < PIF_FIXED_HEADER_SIZE_BYTES {
            return Err(PifSerializeErr::InputSliceTooSmall);
        }
        let mut room: usize = len - PIF_FIXED_HEADER_SIZE_BYTES;
        if room < model_num_size {
            return Err(PifSerializeErr::InputSliceTooSmall);
        }
        room = room - model_num_size;
        if room < serial_num_size {
            return Err(PifSerializeErr::InputSliceTooSmall);
        }
        room = room - serial_num_size;
        if room < oem_info_size {
            return Err(PifSerializeErr::InputSliceTooSmall);
        }
        if self.model_number.len() != model_num_size || self.serial_number.len()
            != serial_num_size || self.oem_info.len() != oem_info_size {
            return Err(PifSerializeErr::StringSizeMismatch);
        }
        let ghost orig = dst_slice@;
        let ghost mut done = Seq::<u8>::empty();
        assert(orig =~= done + orig.subrange(0, orig.len() as int));
        let mut pos: usize = append_u32(
            dst_slice,
            0,
            self.power_source_state.bits(),
            Ghost(done),
            Ghost(orig),
        );
        proof {
            assert(done + le_bytes(self.power_source_state@) =~= le_bytes(
                self.power_source_state@,
            ));
            done = le_bytes(self.power_source_state@);
        }
        pos = append_u32(dst_slice, pos, self.max_output_power, Ghost(done), Ghost(orig));
        proof {
            done = done + le_bytes(self.max_output_power);
        }
        pos = append_u32(dst_slice, pos, self.max_input_power, Ghost(done), Ghost(orig));
        proof {
            done = done + le_bytes(self.max_input_power);
            assert(done == self.header());
        }
        pos = append_bytes(dst_slice, pos, self.model_number, Ghost(done), Ghost(orig));
        proof {
            done = done + self.model_number@;
        }
        pos = append_bytes(dst_slice, pos, self.serial_number, Ghost(done), Ghost(orig));
        proof {
            done = done + self.serial_number@;
        }
        pos = append_bytes(dst_slice, pos, self.oem_info, Ghost(done), Ghost(orig));
        proof {
            done = done + self.oem_info@;
            assert(done == self.layout());
        }
        Ok(())
    }
}

/// The layout of a `Pif`: three words in the first 12 bytes, then each string
/// at the offset where the previous one ends; no gap anywhere.
pub proof fn lemma_pif_layout_offsets(pif: Pif)
    ensures
        ({
            let l = pif.layout();
            let m = PIF_FIXED_HEADER_SIZE_BYTES as int;
            let s = m + pif.model_number@.len();
            let o = s + pif.serial_number@.len();
            &&& l.len() == Pif::required_len(
                pif.model_number@.len() as int,
                pif.serial_number@.len() as int,
                pif.oem_info@.len() as int,
            )
            &&& l.subrange(0, 4) == le_bytes(pif.power_source_state@)
            &&& l.subrange(4, 8) == le_bytes(pif.max_output_power)
            &&& l.subrange(8, 12) == le_bytes(pif.max_input_power)
            &&& l.subrange(m, s) == pif.model_number@
            &&& l.subrange(s, o) == pif.serial_number@
            &&& l.subrange(o, l.len() as int) == pif.oem_info@
        }),
{
    let l = pif.layout();
    let m = 12int;
    let s = m + pif.model_number@.len();
    let o = s + pif.serial_number@.len();
    assert(l.subrange(0, 4) =~= le_bytes(pif.power_source_state@));
    assert(l.subrange(4, 8) =~= le_bytes(pif.max_output_power));
    assert(l.subrange(8, 12) =~= le_bytes(pif.max_input_power));
    assert(l.subrange(m, s) =~= pif.model_number@);
    assert(l.subrange(s, o) =~= pif.serial_number@);
    assert(l.subrange(o, l.len() as int) =~= pif.oem_info@);
}

/// With strings as long as declared and a buffer of exactly the required
/// length, serializing succeeds and fills the whole buffer.
pub proof fn lemma_pif_exact_buffer(
    pif: Pif,
    model_num_size: int,
    serial_num_size: int,
    oem_info_size: int,
)
    requires
        pif.sizes_match(model_num_size, serial_num_size, oem_info_size),
    ensures
        ({
            let n = Pif::required_len(model_num_size, serial_num_size, oem_info_size);
            &&& pif.serialize_outcome(n, model_num_size, serial_num_size, oem_info_size) == Ok::<
                (),
                PifSerializeErr,
            >(())
            &&& pif.layout().len() == n
        }),
{
    lemma_pif_layout_offsets(pif);
}

/// A buffer one byte shorter than required is refused as too small, whatever
/// the strings hold.
pub proof fn lemma_pif_one_byte_short(
    pif: Pif,
    model_num_size: nat,
    serial_num_size: nat,
    oem_info_size: nat,
)
    ensures
        pif.serialize_outcome(
            Pif::required_len(model_num_size as int, serial_num_size as int, oem_info_size as int)
                - 1,
            model_num_size as int,
            serial_num_size as int,
            oem_info_size as int,
        ) == Err::<(), PifSerializeErr>(PifSerializeErr::InputSliceTooSmall),
{
}

/// With a buffer large enough for the declared sizes, a string whose length
/// differs from its declared size is refused as a size mismatch.
pub proof fn lemma_pif_size_mismatch(
    pif: Pif,
    dst_len: int,
    model_num_size: int,
    serial_num_size: int,
    oem_info_size: int,
)
    requires
        dst_len >= Pif::required_len(model_num_size, serial_num_size, oem_info_size),
        !pif.sizes_match(model_num_size, serial_num_size, oem_info_size),
    ensures
        pif.serialize_outcome(dst_len, model_num_size, serial_num_size, oem_info_size) == Err::<
            (),
            PifSerializeErr,
        >(PifSerializeErr::StringSizeMismatch),
{
}

/// Power Source State.
///
/// Each named flag is a bit mask; bits without a name are kept as given.
#[derive(Default, Copy, Clone, PartialEq, Eq, Structural, Debug)]
pub struct PowerSourceState(u32);

impl View for PowerSourceState {
    type V = u32;

    closed spec fn view(&self) -> u32 {
        self.0
    }
}

impl PowerSourceState {
    /// Indicates the power source is redundant.
    pub const REDUNDANT: u32 = 1 << 0;

    /// Indicates the power source is shared across multiple machines.
    pub const SHARED: u32 = 1 << 1;

    /// No flag set.
    pub fn empty() -> (r: Self)
        ensures
            r@ == 0,
    {
        PowerSourceState(0)
    }

    /// Every named flag set.
    pub fn all() -> (r: Self)
        ensures
            r@ == 0x3,
    {
        PowerSourceState(0x3)
    }

    /// The raw bits.
    pub fn bits(&self) -> (r: u32)
        ensures
            r == self@,
    {
        self.0
    }

    /// The flags of `bits`, when it sets no bit without a name.
    pub fn from_bits(bits: u32) -> (r: Option<Self>)
        ensures
            match r {
                Some(f) => bits & !0x3u32 == 0 && f@ == bits,
                None => bits & !0x3u32 != 0,
            },
    {
        if bits & !0x3 == 0 {
            Some(PowerSourceState(bits))
        } else {
            None
        }
    }

    /// The named flags of `bits`; other bits are dropped.
    pub fn from_bits_truncate(bits: u32) -> (r: Self)
        ensures
            r@ == bits & 0x3,
    {
        PowerSourceState(bits & 0x3)
    }

    /// The flags of `bits`, every bit kept.
    pub fn from_bits_retain(bits: u32) -> (r: Self)
        ensures
            r@ == bits,
    {
        PowerSourceState(bits)
    }

    /// No bit is set.
    pub fn is_empty(&self) -> (r: bool)
        ensures
            r == (self@ == 0),
    {
        self.0 == 0
    }

    /// Every bit of `other` is set in `self`.
    pub fn contains(&self, other: Self) -> (r: bool)
        ensures
            r == (self@ & other@ == other@),
    {
        self.0 & other.0 == other.0
    }

    /// Some bit of `other` is set in `self`.
    pub fn intersects(&self, other: Self) -> (r: bool)
        ensures
            r == (self@ & other@ != 0),
    {
        self.0 & other.0 != 0
    }

    /// Sets every bit of `other`.
    pub fn insert(&mut self, other: Self)
        ensures
            final(self)@ == old(self)@ | other@,
    {
        self.0 = self.0 | other.0;
    }

    /// Clears every bit of `other`.
    pub fn remove(&mut self, other: Self)
        ensures
            final(self)@ == old(self)@ & !other@,
    {
        self.0 = self.0 & !other.0;
    }

    /// Sets or clears every bit of `other`, as `value` says.
    pub fn set(&mut self, other: Self, value: bool)
        ensures
            final(self)@ == if value {
                old(self)@ | other@
            } else {
                old(self)@ & !other@
            },
    {
        if value {
            self.insert(other);
        } else {
            self.remove(other);
        }
    }

    /// The bits set in either.
    pub fn union(self, other: Self) -> (r: Self)
        ensures
            r@ == self@ | other@,
    {
        PowerSourceState(self.0 | other.0)
    }

    /// Every named flag is set.
    pub fn is_all(&self) -> (r: bool)
        ensures
            r == (0x3 | self@ == self@),
    {
        PowerSourceState::all().0 | self.0 == self.0
    }

    /// Flips every bit of `other`.
    pub fn toggle(&mut self, other: Self)
        ensures
            final(self)@ == old(self)@ ^ other@,
    {
        self.0 = self.0 ^ other.0;
    }

    /// The bits set in both.
    pub fn intersection(self, other: Self) -> (r: Self)
        ensures
            r@ == self@ & other@,
    {
        PowerSourceState(self.0 & other.0)
    }

    /// The bits set in `self` and not in `other`.
    pub fn difference(self, other: Self) -> (r: Self)
        ensures
            r@ == self@ & !other@,
    {
        PowerSourceState(self.0 & !other.0)
    }

    /// The bits set in exactly one of the two.
    pub fn symmetric_difference(self, other: Self) -> (r: Self)
        ensures
            r@ == self@ ^ other@,
    {
        PowerSourceState(self.0 ^ other.0)
    }

    /// The named flags that are not set; bits without a name are dropped.
    pub fn complement(self) -> (r: Self)
        ensures
            r@ == !self@ & 0x3,
    {
        PowerSourceState::from_bits_truncate(!self.0)
    }
}

/// BPS: Battery Power Source Information.
#[derive(Default, Copy, Clone, PartialEq, Eq, Structural, Debug)]
pub struct Bps {
    /// Current revision of the BPS structure.
    ///
    /// The current revision is 1.
    pub revision: u32,
    /// Instantaneous Peak Power Level in mW or mA.
    ///
    /// Represents the instantaneous peak output power of the battery, based on the Power Unit
    /// value returned by `_BIX`. The time period is specified in the `instantaneous_peak_power_period`.
    /// If unsupported, this field should be zero.
    pub instantaneous_peak_power_level: u32,
    /// Instantaneous Peak Power Period in milliseconds.
    ///
    /// If unsupported, this field should be zero.
    pub instantaneous_peak_power_period: u32,
    /// Sustainable Peak Power Level in mW or mA.
    ///
    /// Represents the sustainable peak output power of the battery, based on the Power Unit
    /// value returned by `_BIX`. The time period is specified in the `sustainable_peak_power_period`.
    /// If unsupported, this field should be zero.
    pub sustainable_peak_power_level: u32,
    /// Sustainable Peak Power Period in milliseconds.
    ///
    /// If unsupported, this field should be zero.
    pub sustainable_peak_power_period: u32,
}

/// Size of BpsReturn in bytes
pub const BPS_RETURN_SIZE_BYTES: usize = 20;

/// BTP: Battery Trip Point.
#[derive(Default, Copy, Clone, PartialEq, Eq, Structural, Debug)]
pub struct Btp {
    /// 0 - Clear the trip point.
    /// 1 - 0x7FFFFFFF - New trip point, in units of mWh or mAh depending on the Power Units value
    pub trip_point: u32,
}

/// BPT: Battery Power Threshold Configuration.
///
/// Represents a request to set or clear battery power delivery capability thresholds.
/// Used by the OS Power Management (OSPM) to configure notifications for changes
/// in battery power delivery capabilities.
#[derive(Default, Copy, Clone, PartialEq, Eq, Structural, Debug)]
pub struct Bpt {
    /// Revision of the BPT structure.
    ///
    /// For this version of the specification, the revision must be set to 1.
    pub revision: u32,
    /// Type of threshold to set or clear.
    pub threshold_id: ThresholdId,
    /// Threshold value in mW or mA.
    ///
    /// This value is based on the Power Unit field returned by `_BIX`.
    /// A value of `0` disables the selected threshold.
    /// The value must not exceed the maximum values reported by `_BPC`.
    pub threshold_value: u32,
}

/// Enum representing the threshold type for battery power delivery capability.
#[derive(Default, Copy, Clone, PartialEq, Eq, Structural, Debug)]
pub enum ThresholdId {
    /// Clear all threshold trip points.
    #[default]
    ClearAll,
    /// Set Instantaneous Peak Power Threshold.
    InstantaneousPeakPower,
    /// Set Sustainable Peak Power Threshold.
    SustainablePeakPower,
}

/// Return codes for BPT operations.
#[derive(Copy, Clone, PartialEq, Eq, Structural, Debug)]
pub enum BptReturnStatus {
    /// Operation completed successfully.
    Success,
    /// Failure due to an invalid threshold value.
    InvalidThresholdValue,
    /// Failure due to hardware timeout.
    HardwareTimeout,
    /// Failure due to an unknown hardware error.
    UnknownHardwareError,
    /// Failure due to unsupported threshold type.
    UnsupportedThresholdType,
    /// Failure due to unsupported revision.
    UnsupportedRevision,
}

/// BPC: Battery Power Characteristics.
///
/// Represents static values returned by the platform firmware that describe
/// the battery's power delivery capabilities and threshold support.
#[derive(Default, Copy, Clone, PartialEq, Eq, Structural, Debug)]
pub struct Bpc {
    /// Revision of the BPC structure.
    ///
    /// For this version of the specification, the revision must be set to 1.
    pub revision: u32,
    /// Power threshold support capability of the platform firmware.
    pub power_threshold_support: PowerThresholdSupport,
    /// Maximum supported threshold for instantaneous peak power (in mW or mA).
    pub max_instantaneous_peak_power_threshold: u32,
    /// Maximum supported threshold for sustainable peak power (in mW or mA).
    pub max_sustainable_peak_power_threshold: u32,
}

/// Size of BpcReturn in bytes
pub const BPC_RETURN_SIZE_BYTES: usize = 16;

/// Bitflags representing the power threshold support capabilities of the platform firmware.
///
/// These values are encoded in the lower two bits of the `Power Threshold Support` field.
///
/// Each named flag is a bit mask; bits without a name are kept as given.
#[derive(Default, Copy, Clone, PartialEq, Eq, Structural, Debug)]
pub struct PowerThresholdSupport(u32);

impl View for PowerThresholdSupport {
    type V = u32;

    closed spec fn view(&self) -> u32 {
        self.0
    }
}

impl PowerThresholdSupport {
    /// Supports Instantaneous Peak Power Threshold.
    pub const INSTANTANEOUS: u32 = 1 << 0;

    /// Supports Sustainable Peak Power Threshold.
    pub const SUSTAINABLE: u32 = 1 << 1;

    /// No flag set.
    pub fn empty() -> (r: Self)
        ensures
            r@ == 0,
    {
        PowerThresholdSupport(0)
    }

    /// Every named flag set.
    pub fn all() -> (r: Self)
        ensures
            r@ == 0x3,
    {
        PowerThresholdSupport(0x3)
    }

    /// The raw bits.
    pub fn bits(&self) -> (r: u32)
        ensures
            r == self@,
    {
        self.0
    }

    /// The flags of `bits`, when it sets no bit without a name.
    pub fn from_bits(bits: u32) -> (r: Option<Self>)
        ensures
            match r {
                Some(f) => bits & !0x3u32 == 0 && f@ == bits,
                None => bits & !0x3u32 != 0,
            },
    {
        if bits & !0x3 == 0 {
            Some(PowerThresholdSupport(bits))
        } else {
            None
        }
    }

    /// The named flags of `bits`; other bits are dropped.
    pub fn from_bits_truncate(bits: u32) -> (r: Self)
        ensures
            r@ == bits & 0x3,
    {
        PowerThresholdSupport(bits & 0x3)
    }

    /// The flags of `bits`, every bit kept.
    pub fn from_bits_retain(bits: u32) -> (r: Self)
        ensures
            r@ == bits,
    {
        PowerThresholdSupport(bits)
    }

    /// No bit is set.
    pub fn is_empty(&self) -> (r: bool)
        ensures
            r == (self@ == 0),
    {
        self.0 == 0
    }

    /// Every bit of `other` is set in `self`.
    pub fn contains(&self, other: Self) -> (r: bool)
        ensures
            r == (self@ & other@ == other@),
    {
        self.0 & other.0 == other.0
    }

    /// Some bit of `other` is set in `self`.
    pub fn intersects(&self, other: Self) -> (r: bool)
        ensures
            r == (self@ & other@ != 0),
    {
        self.0 & other.0 != 0
    }

    /// Sets every bit of `other`.
    pub fn insert(&mut self, other: Self)
        ensures
            final(self)@ == old(self)@ | other@,
    {
        self.0 = self.0 | other.0;
    }

    /// Clears every bit of `other`.
    pub fn remove(&mut self, other: Self)
        ensures
            final(self)@ == old(self)@ & !other@,
    {
        self.0 = self.0 & !other.0;
    }

    /// Sets or clears every bit of `other`, as `value` says.
    pub fn set(&mut self, other: Self, value: bool)
        ensures
            final(self)@ == if value {
                old(self)@ | other@
            } else {
                old(self)@ & !other@
            },
    {
        if value {
            self.insert(other);
        } else {
            self.remove(other);
        }
    }

    /// The bits set in either.
    pub fn union(self, other: Self) -> (r: Self)
        ensures
            r@ == self@ | other@,
    {
        PowerThresholdSupport(self.0 | other.0)
    }

    /// Every named flag is set.
    pub fn is_all(&self) -> (r: bool)
        ensures
            r == (0x3 | self@ == self@),
    {
        PowerThresholdSupport::all().0 | self.0 == self.0
    }

    /// Flips every bit of `other`.
    pub fn toggle(&mut self, other: Self)
        ensures
            final(self)@ == old(self)@ ^ other@,
    {
        self.0 = self.0 ^ other.0;
    }

    /// The bits set in both.
    pub fn intersection(self, other: Self) -> (r: Self)
        ensures
            r@ == self@ & other@,
    {
        PowerThresholdSupport(self.0 & other.0)
    }

    /// The bits set in `self` and not in `other`.
    pub fn difference(self, other: Self) -> (r: Self)
        ensures
            r@ == self@ & !other@,
    {
        PowerThresholdSupport(self.0 & !other.0)
    }

    /// The bits set in exactly one of the two.
    pub fn symmetric_difference(self, other: Self) -> (r: Self)
        ensures
            r@ == self@ ^ other@,
    {
        PowerThresholdSupport(self.0 ^ other.0)
    }

    /// The named flags that are not set; bits without a name are dropped.
    pub fn complement(self) -> (r: Self)
        ensures
            r@ == !self@ & 0x3,
    {
        PowerThresholdSupport::from_bits_truncate(!self.0)
    }
}

/// BMC: Batery Maintenance Control
#[derive(Default, Copy, Clone, PartialEq, Eq, Structural, Debug)]
pub struct Bmc {
    /// Feature control flags used to configure battery maintenance behavior.
    pub maintenance_control_flags: BmcControlFlags,
}

/// Feature control flags of `_BMC` that configure battery maintenance behavior.
///
/// Each named flag is a bit mask; bits without a name are kept as given.
#[derive(Default, Copy, Clone, PartialEq, Eq, Structural, Debug)]
pub struct BmcControlFlags(u32);

impl View for BmcControlFlags {
    type V = u32;

    closed spec fn view(&self) -> u32 {
        self.0
    }
}

impl BmcControlFlags {
    /// Set to initiate an AML-controlled calibration cycle. Clear to end it.
    pub const CALIBRATION_CYCLE: u32 = 1 << 0;

    /// Set to disable charging. Clear to enable charging.
    pub const DISABLE_CHARGING: u32 = 1 << 1;

    /// Set to allow discharging while AC power is available.
    pub const ALLOW_DISCHARGE_ON_AC: u32 = 1 << 2;

    /// Set to request suspension of Battery Charge Limiting mode.
    pub const SUSPEND_CHARGE_LIMITING: u32 = 1 << 3;

    /// No flag set.
    pub fn empty() -> (r: Self)
        ensures
            r@ == 0,
    {
        BmcControlFlags(0)
    }

    /// Every named flag set.
    pub fn all() -> (r: Self)
        ensures
            r@ == 0xf,
    {
        BmcControlFlags(0xf)
    }

    /// The raw bits.
    pub fn bits(&self) -> (r: u32)
        ensures
            r == self@,
    {
        self.0
    }

    /// The flags of `bits`, when it sets no bit without a name.
    pub fn from_bits(bits: u32) -> (r: Option<Self>)
        ensures
            match r {
                Some(f) => bits & !0xfu32 == 0 && f@ == bits,
                None => bits & !0xfu32 != 0,
            },
    {
        if bits & !0xf == 0 {
            Some(BmcControlFlags(bits))
        } else {
            None
        }
    }

    /// The named flags of `bits`; other bits are dropped.
    pub fn from_bits_truncate(bits: u32) -> (r: Self)
        ensures
            r@ == bits & 0xf,
    {
        BmcControlFlags(bits & 0xf)
    }

    /// The flags of `bits`, every bit kept.
    pub fn from_bits_retain(bits: u32) -> (r: Self)
        ensures
            r@ == bits,
    {
        BmcControlFlags(bits)
    }

    /// No bit is set.
    pub fn is_empty(&self) -> (r: bool)
        ensures
            r == (self@ == 0),
    {
        self.0 == 0
    }

    /// Every bit of `other` is set in `self`.
    pub fn contains(&self, other: Self) -> (r: bool)
        ensures
            r == (self@ & other@ == other@),
    {
        self.0 & other.0 == other.0
    }

    /// Some bit of `other` is set in `self`.
    pub fn intersects(&self, other: Self) -> (r: bool)
        ensures
            r == (self@ & other@ != 0),
    {
        self.0 & other.0 != 0
    }

    /// Sets every bit of `other`.
    pub fn insert(&mut self, other: Self)
        ensures
            final(self)@ == old(self)@ | other@,
    {
        self.0 = self.0 | other.0;
    }

    /// Clears every bit of `other`.
    pub fn remove(&mut self, other: Self)
        ensures
            final(self)@ == old(self)@ & !other@,
    {
        self.0 = self.0 & !other.0;
    }

    /// Sets or clears every bit of `other`, as `value` says.
    pub fn set(&mut self, other: Self, value: bool)
        ensures
            final(self)@ == if value {
                old(self)@ | other@
            } else {
                old(self)@ & !other@
            },
    {
        if value {
            self.insert(other);
        } else {
            self.remove(other);
        }
    }

    /// The bits set in either.
    pub fn union(self, other: Self) -> (r: Self)
        ensures
            r@ == self@ | other@,
    {
        BmcControlFlags(self.0 | other.0)
    }

    /// Every named flag is set.
    pub fn is_all(&self) -> (r: bool)
        ensures
            r == (0xf | self@ == self@),
    {
        BmcControlFlags::all().0 | self.0 == self.0
    }

    /// Flips every bit of `other`.
    pub fn toggle(&mut self, other: Self)
        ensures
            final(self)@ == old(self)@ ^ other@,
    {
        self.0 = self.0 ^ other.0;
    }

    /// The bits set in both.
    pub fn intersection(self, other: Self) -> (r: Self)
        ensures
            r@ == self@ & other@,
    {
        BmcControlFlags(self.0 & other.0)
    }

    /// The bits set in `self` and not in `other`.
    pub fn difference(self, other: Self) -> (r: Self)
        ensures
            r@ == self@ & !other@,
    {
        BmcControlFlags(self.0 & !other.0)
    }

    /// The bits set in exactly one of the two.
    pub fn symmetric_difference(self, other: Self) -> (r: Self)
        ensures
            r@ == self@ ^ other@,
    {
        BmcControlFlags(self.0 ^ other.0)
    }

    /// The named flags that are not set; bits without a name are dropped.
    pub fn complement(self) -> (r: Self)
        ensures
            r@ == !self@ & 0xf,
    {
        BmcControlFlags::from_bits_truncate(!self.0)
    }
}

/// BMD: Battery Maintenance Data.
///
/// Contains information about the battery's capabilities and current state
/// related to calibration and charger control features.
#[derive(Default, Copy, Clone, PartialEq, Eq, Structural, Debug)]
pub struct Bmd {
    /// Current status flags indicating battery maintenance state.
    pub status_flags: BmdStatusFlags,
    /// Capability flags indicating supported battery maintenance features.
    pub capability_flags: BmdCapabilityFlags,
    /// Recommended recalibration count.
    ///
    /// - `0x00000000`: Only calibrate when Status Flag bit [3] is set.
    /// - `0x00000001..=0xFFFFFFFF`: Calibrate after this many battery cycles.
    pub recalibrate_count: u32,
    /// Estimated time (in seconds) to recalibrate the battery if the system enters standby.
    ///
    /// - `0x00000000`: Standby not supported.
    /// - `0x00000001..=0xFFFFFFFE`: Estimated time in seconds.
    /// - `0xFFFFFFFF`: Time unknown.
    pub quick_recalibrate_time: u32,
    /// Estimated time (in seconds) to recalibrate the battery without standby.
    ///
    /// - `0x00000000`: Calibration may not be successful.
    /// - `0x00000001..=0xFFFFFFFE`: Estimated time in seconds.
    /// - `0xFFFFFFFF`: Time unknown.
    pub slow_recalibrate_time: u32,
}

/// Size of BmdReturn in bytes
pub const BMD_RETURN_SIZE_BYTES: usize = 20;

/// Status Flags returned by _BMD.
///
/// These indicate the current state of battery maintenance operations.
///
/// Each named flag is a bit mask; bits without a name are kept as given.
#[derive(Default, Copy, Clone, PartialEq, Eq, Structural, Debug)]
pub struct BmdStatusFlags(u32);

impl View for BmdStatusFlags {
    type V = u32;

    closed spec fn view(&self) -> u32 {
        self.0
    }
}

impl BmdStatusFlags {
    /// Battery is running an AML-controlled calibration cycle.
    pub const AML_CALIBRATION_ACTIVE: u32 = 1 << 0;

    /// Charging has been disabled.
    pub const CHARGING_DISABLED: u32 = 1 << 1;

    /// Battery is allowed to discharge while AC is available.
    pub const DISCHARGE_ON_AC: u32 = 1 << 2;

    /// Battery should be recalibrated.
    pub const RECALIBRATION_NEEDED: u32 = 1 << 3;

    /// OS should enter standby to speed up calibration.
    pub const STANDBY_RECOMMENDED: u32 = 1 << 4;

    /// Battery Charge Limiting cannot be suspended due to thermal conditions.
    pub const CHARGE_LIMIT_THERMAL_LOCK: u32 = 1 << 5;

    /// Battery Charge Limiting cannot be suspended for protection reasons.
    pub const CHARGE_LIMIT_PROTECTION_LOCK: u32 = 1 << 6;

    /// No flag set.
    pub fn empty() -> (r: Self)
        ensures
            r@ == 0,
    {
        BmdStatusFlags(0)
    }

    /// Every named flag set.
    pub fn all() -> (r: Self)
        ensures
            r@ == 0x7f,
    {
        BmdStatusFlags(0x7f)
    }

    /// The raw bits.
    pub fn bits(&self) -> (r: u32)
        ensures
            r == self@,
    {
        self.0
    }

    /// The flags of `bits`, when it sets no bit without a name.
    pub fn from_bits(bits: u32) -> (r: Option<Self>)
        ensures
            match r {
                Some(f) => bits & !0x7fu32 == 0 && f@ == bits,
                None => bits & !0x7fu32 != 0,
            },
    {
        if bits & !0x7f == 0 {
            Some(BmdStatusFlags(bits))
        } else {
            None
        }
    }

    /// The named flags of `bits`; other bits are dropped.
    pub fn from_bits_truncate(bits: u32) -> (r: Self)
        ensures
            r@ == bits & 0x7f,
    {
        BmdStatusFlags(bits & 0x7f)
    }

    /// The flags of `bits`, every bit kept.
    pub fn from_bits_retain(bits: u32) -> (r: Self)
        ensures
            r@ == bits,
    {
        BmdStatusFlags(bits)
    }

    /// No bit is set.
    pub fn is_empty(&self) -> (r: bool)
        ensures
            r == (self@ == 0),
    {
        self.0 == 0
    }

    /// Every bit of `other` is set in `self`.
    pub fn contains(&self, other: Self) -> (r: bool)
        ensures
            r == (self@ & other@ == other@),
    {
        self.0 & other.0 == other.0
    }

    /// Some bit of `other` is set in `self`.
    pub fn intersects(&self, other: Self) -> (r: bool)
        ensures
            r == (self@ & other@ != 0),
    {
        self.0 & other.0 != 0
    }

    /// Sets every bit of `other`.
    pub fn insert(&mut self, other: Self)
        ensures
            final(self)@ == old(self)@ | other@,
    {
        self.0 = self.0 | other.0;
    }

    /// Clears every bit of `other`.
    pub fn remove(&mut self, other: Self)
        ensures
            final(self)@ == old(self)@ & !other@,
    {
        self.0 = self.0 & !other.0;
    }

    /// Sets or clears every bit of `other`, as `value` says.
    pub fn set(&mut self, other: Self, value: bool)
        ensures
            final(self)@ == if value {
                old(self)@ | other@
            } else {
                old(self)@ & !other@
            },
    {
        if value {
            self.insert(other);
        } else {
            self.remove(other);
        }
    }

    /// The bits set in either.
    pub fn union(self, other: Self) -> (r: Self)
        ensures
            r@ == self@ | other@,
    {
        BmdStatusFlags(self.0 | other.0)
    }

    /// Every named flag is set.
    pub fn is_all(&self) -> (r: bool)
        ensures
            r == (0x7f | self@ == self@),
    {
        BmdStatusFlags::all().0 | self.0 == self.0
    }

    /// Flips every bit of `other`.
    pub fn toggle(&mut self, other: Self)
        ensures
            final(self)@ == old(self)@ ^ other@,
    {
        self.0 = self.0 ^ other.0;
    }

    /// The bits set in both.
    pub fn intersection(self, other: Self) -> (r: Self)
        ensures
            r@ == self@ & other@,
    {
        BmdStatusFlags(self.0 & other.0)
    }

    /// The bits set in `self` and not in `other`.
    pub fn difference(self, other: Self) -> (r: Self)
        ensures
            r@ == self@ & !other@,
    {
        BmdStatusFlags(self.0 & !other.0)
    }

    /// The bits set in exactly one of the two.
    pub fn symmetric_difference(self, other: Self) -> (r: Self)
        ensures
            r@ == self@ ^ other@,
    {
        BmdStatusFlags(self.0 ^ other.0)
    }

    /// The named flags that are not set; bits without a name are dropped.
    pub fn complement(self) -> (r: Self)
        ensures
            r@ == !self@ & 0x7f,
    {
        BmdStatusFlags::from_bits_truncate(!self.0)
    }
}

/// Capability Flags returned by _BMD.
///
/// These indicate which battery maintenance features are supported.
///
/// Each named flag is a bit mask; bits without a name are kept as given.
#[derive(Default, Copy, Clone, PartialEq, Eq, Structural, Debug)]
pub struct BmdCapabilityFlags(u32);

impl View for BmdCapabilityFlags {
    type V = u32;

    closed spec fn view(&self) -> u32 {
        self.0
    }
}

impl BmdCapabilityFlags {
    /// AML-controlled calibration cycle is supported.
    pub const AML_CALIBRATION_SUPPORTED: u32 = 1 << 0;

    /// Disabling the charger is supported.
    pub const CHARGER_DISABLE_SUPPORTED: u32 = 1 << 1;

    /// Discharging while on AC is supported.
    pub const DISCHARGE_ON_AC_SUPPORTED: u32 = 1 << 2;

    /// _BMC affects all batteries in the system.
    pub const GLOBAL_CONTROL: u32 = 1 << 3;

    /// Calibration must start with a full charge.
    pub const FULL_CHARGE_BEFORE_CALIBRATION: u32 = 1 << 4;

    /// Battery Charge Limiting suspension is supported.
    pub const CHARGE_LIMIT_SUSPEND_SUPPORTED: u32 = 1 << 5;

    /// No flag set.
    pub fn empty() -> (r: Self)
        ensures
            r@ == 0,
    {
        BmdCapabilityFlags(0)
    }

    /// Every named flag set.
    pub fn all() -> (r: Self)
        ensures
            r@ == 0x3f,
    {
        BmdCapabilityFlags(0x3f)
    }

    /// The raw bits.
    pub fn bits(&self) -> (r: u32)
        ensures
            r == self@,
    {
        self.0
    }

    /// The flags of `bits`, when it sets no bit without a name.
    pub fn from_bits(bits: u32) -> (r: Option<Self>)
        ensures
            match r {
                Some(f) => bits & !0x3fu32 == 0 && f@ == bits,
                None => bits & !0x3fu32 != 0,
            },
    {
        if bits & !0x3f == 0 {
            Some(BmdCapabilityFlags(bits))
        } else {
            None
        }
    }

    /// The named flags of `bits`; other bits are dropped.
    pub fn from_bits_truncate(bits: u32) -> (r: Self)
        ensures
            r@ == bits & 0x3f,
    {
        BmdCapabilityFlags(bits & 0x3f)
    }

    /// The flags of `bits`, every bit kept.
    pub fn from_bits_retain(bits: u32) -> (r: Self)
        ensures
            r@ == bits,
    {
        BmdCapabilityFlags(bits)
    }

    /// No bit is set.
    pub fn is_empty(&self) -> (r: bool)
        ensures
            r == (self@ == 0),
    {
        self.0 == 0
    }

    /// Every bit of `other` is set in `self`.
    pub fn contains(&self, other: Self) -> (r: bool)
        ensures
            r == (self@ & other@ == other@),
    {
        self.0 & other.0 == other.0
    }

    /// Some bit of `other` is set in `self`.
    pub fn intersects(&self, other: Self) -> (r: bool)
        ensures
            r == (self@ & other@ != 0),
    {
        self.0 & other.0 != 0
    }

    /// Sets every bit of `other`.
    pub fn insert(&mut self, other: Self)
        ensures
            final(self)@ == old(self)@ | other@,
    {
        self.0 = self.0 | other.0;
    }

    /// Clears every bit of `other`.
    pub fn remove(&mut self, other: Self)
        ensures
            final(self)@ == old(self)@ & !other@,
    {
        self.0 = self.0 & !other.0;
    }

    /// Sets or clears every bit of `other`, as `value` says.
    pub fn set(&mut self, other: Self, value: bool)
        ensures
            final(self)@ == if value {
                old(self)@ | other@
            } else {
                old(self)@ & !other@
            },
    {
        if value {
            self.insert(other);
        } else {
            self.remove(other);
        }
    }

    /// The bits set in either.
    pub fn union(self, other: Self) -> (r: Self)
        ensures
            r@ == self@ | other@,
    {
        BmdCapabilityFlags(self.0 | other.0)
    }

    /// Every named flag is set.
    pub fn is_all(&self) -> (r: bool)
        ensures
            r == (0x3f | self@ == self@),
    {
        BmdCapabilityFlags::all().0 | self.0 == self.0
    }

    /// Flips every bit of `other`.
    pub fn toggle(&mut self, other: Self)
        ensures
            final(self)@ == old(self)@ ^ other@,
    {
        self.0 = self.0 ^ other.0;
    }

    /// The bits set in both.
    pub fn intersection(self, other: Self) -> (r: Self)
        ensures
            r@ == self@ & other@,
    {
        BmdCapabilityFlags(self.0 & other.0)
    }

    /// The bits set in `self` and not in `other`.
    pub fn difference(self, other: Self) -> (r: Self)
        ensures
            r@ == self@ & !other@,
    {
        BmdCapabilityFlags(self.0 & !other.0)
    }

    /// The bits set in exactly one of the two.
    pub fn symmetric_difference(self, other: Self) -> (r: Self)
        ensures
            r@ == self@ ^ other@,
    {
        BmdCapabilityFlags(self.0 ^ other.0)
    }

    /// The named flags that are not set; bits without a name are dropped.
    pub fn complement(self) -> (r: Self)
        ensures
            r@ == !self@ & 0x3f,
    {
        BmdCapabilityFlags::from_bits_truncate(!self.0)
    }
}

/// BCT: Battery Charge Time.
///
/// Represents a request to estimate the time required to charge the battery
/// to a specified percentage of its Last Full Charge Capacity.
#[derive(Default, Copy, Clone, PartialEq, Eq, Structural, Debug)]
pub struct Bct {
    /// Target charge level as a percentage of Last Full Charge Capacity (1-100).
    ///
    /// For example, `96` means 96% of full charge.
    pub charge_level_percent: u32,
}

/// Result of a _BCT query.
///
/// This enum represents the possible return values from the `_BCT` method.
#[derive(Default, Copy, Clone, PartialEq, Eq, Structural, Debug)]
pub enum BctReturnResult {
    /// The requested charge level is invalid (less than current or greater than 100%).
    InvalidTarget,
    /// Estimated time in seconds to reach the target charge level.
    EstimatedTime(u32),
    /// Charging time is unknown.
    #[default]
    Unknown,
}

/// Size of BctReturnResult in bytes
pub const BCT_RETURN_SIZE_BYTES: usize = 4;

impl BctReturnResult {
    /// The ACPI encoding of the result: 0 and 0xFFFFFFFF are reserved for
    /// the two outcomes without a number of seconds.
    pub open spec fn spec_as_u32(self) -> u32 {
        match self {
            BctReturnResult::InvalidTarget => 0,
            BctReturnResult::Unknown => 0xFFFFFFFF,
            BctReturnResult::EstimatedTime(seconds) => seconds,
        }
    }

    /// The result that an ACPI word encodes.
    pub open spec fn spec_from_u32(value: u32) -> BctReturnResult {
        if value == 0 {
            BctReturnResult::InvalidTarget
        } else if value == 0xFFFFFFFF {
            BctReturnResult::Unknown
        } else {
            BctReturnResult::EstimatedTime(value)
        }
    }
}

impl From<u32> for BctReturnResult {
    fn from(value: u32) -> (r: BctReturnResult)
        ensures
            r == BctReturnResult::spec_from_u32(value),
    {
        match value {
            0x00000000 => BctReturnResult::InvalidTarget,
            0xFFFFFFFF => BctReturnResult::Unknown,
            seconds => BctReturnResult::EstimatedTime(seconds),
        }
    }
}

impl vstd::std_specs::convert::FromSpecImpl<u32> for BctReturnResult {
    open spec fn obeys_from_spec() -> bool {
        true
    }

    open spec fn from_spec(v: u32) -> BctReturnResult {
        BctReturnResult::spec_from_u32(v)
    }
}

impl From<BctReturnResult> for u32 {
    fn from(value: BctReturnResult) -> (r: u32)
        ensures
            r == value.spec_as_u32(),
    {
        match value {
            BctReturnResult::InvalidTarget => 0x00000000,
            BctReturnResult::Unknown => 0xFFFFFFFF,
            BctReturnResult::EstimatedTime(seconds) => seconds,
        }
    }
}

impl vstd::std_specs::convert::FromSpecImpl<BctReturnResult> for u32 {
    open spec fn obeys_from_spec() -> bool {
        true
    }

    open spec fn from_spec(v: BctReturnResult) -> u32 {
        v.spec_as_u32()
    }
}

/// Every word survives decoding then encoding. A result survives encoding
/// then decoding unless it is an estimate of 0 or 0xFFFFFFFF seconds, words
/// that stand for the two outcomes without an estimate.
pub proof fn lemma_bct_result_round_trip(value: u32, result: BctReturnResult)
    ensures
        BctReturnResult::spec_from_u32(value).spec_as_u32() == value,
        (match result {
            BctReturnResult::EstimatedTime(seconds) => seconds != 0 && seconds != 0xFFFFFFFF,
            _ => true,
        }) ==> BctReturnResult::spec_from_u32(result.spec_as_u32()) == result,
{
}

impl From<BctReturnResult> for [u8; BCT_RETURN_SIZE_BYTES] {
    fn from(value: BctReturnResult) -> (r: [u8; BCT_RETURN_SIZE_BYTES])
        ensures
            r@ == le_bytes(value.spec_as_u32()),
    {
        u32_to_le_bytes(u32::from(value))
    }
}

impl vstd::std_specs::convert::FromSpecImpl<BctReturnResult> for [u8; BCT_RETURN_SIZE_BYTES] {
    open spec fn obeys_from_spec() -> bool {
        true
    }

    open spec fn from_spec(v: BctReturnResult) -> [u8; BCT_RETURN_SIZE_BYTES] {
        let w = v.spec_as_u32();
        [(w & 0xff) as u8, ((w >> 8u32) & 0xff) as u8, ((w >> 16u32) & 0xff) as u8, ((w >> 24u32) & 0xff) as u8]
    }
}

/// BTM: Battery Time.
///
/// Represents a request to estimate the remaining runtime of the battery
/// while it is discharging at a specified rate.
#[derive(Default, Copy, Clone, PartialEq, Eq, Structural, Debug)]
pub struct Btm {
    /// Discharge rate in mA or mW.
    ///
    /// - `0`: Use the current average discharge rate.
    /// - `1..=0x7FFFFFFF`: Specific discharge rate to evaluate.
    pub discharge_rate: u32,
}

/// Result of a _BTM query.
///
/// This enum represents the possible return values from the `_BTM` method.
#[derive(Default, Copy, Clone, PartialEq, Eq, Structural, Debug)]
pub enum BtmReturnResult {
    /// The discharge rate is too high, or the battery is critical (if input was 0).
    RateTooHighOrBatteryCritical,
    /// Estimated runtime in seconds.
    EstimatedRuntime(u32),
    /// Runtime is unknown.
    #[default]
    Unknown,
}

/// Size of BtmReturnResult in bytes
pub const BTM_RETURN_SIZE_BYTES: usize = 4;

impl BtmReturnResult {
    /// The ACPI encoding of the result: 0 and 0xFFFFFFFF are reserved for
    /// the two outcomes without a number of seconds.
    pub open spec fn spec_as_u32(self) -> u32 {
        match self {
            BtmReturnResult::RateTooHighOrBatteryCritical => 0,
            BtmReturnResult::Unknown => 0xFFFFFFFF,
            BtmReturnResult::EstimatedRuntime(seconds) => seconds,
        }
    }

    /// The result that an ACPI word encodes.
    pub open spec fn spec_from_u32(value: u32) -> BtmReturnResult {
        if value == 0 {
            BtmReturnResult::RateTooHighOrBatteryCritical
        } else if value == 0xFFFFFFFF {
            BtmReturnResult::Unknown
        } else {
            BtmReturnResult::EstimatedRuntime(value)
        }
    }
}

impl From<u32> for BtmReturnResult {
    fn from(value: u32) -> (r: BtmReturnResult)
        ensures
            r == BtmReturnResult::spec_from_u32(value),
    {
        match value {
            0x00000000 => BtmReturnResult::RateTooHighOrBatteryCritical,
            0xFFFFFFFF => BtmReturnResult::Unknown,
            seconds => BtmReturnResult::EstimatedRuntime(seconds),
        }
    }
}

impl vstd::std_specs::convert::FromSpecImpl<u32> for BtmReturnResult {
    open spec fn obeys_from_spec() -> bool {
        true
    }

    open spec fn from_spec(v: u32) -> BtmReturnResult {
        BtmReturnResult::spec_from_u32(v)
    }
}

impl From<BtmReturnResult> for u32 {
    fn from(value: BtmReturnResult) -> (r: u32)
        ensures
            r == value.spec_as_u32(),
    {
        match value {
            BtmReturnResult::RateTooHighOrBatteryCritical => 0x00000000,
            BtmReturnResult::Unknown => 0xFFFFFFFF,
            BtmReturnResult::EstimatedRuntime(seconds) => seconds,
        }
    }
}

impl vstd::std_specs::convert::FromSpecImpl<BtmReturnResult> for u32 {
    open spec fn obeys_from_spec() -> bool {
        true
    }

    open spec fn from_spec(v: BtmReturnResult) -> u32 {
        v.spec_as_u32()
    }
}

/// Every word survives decoding then encoding. A result survives encoding
/// then decoding unless it is an estimate of 0 or 0xFFFFFFFF seconds, words
/// that stand for the two outcomes without an estimate.
pub proof fn lemma_btm_result_round_trip(value: u32, result: BtmReturnResult)
    ensures
        BtmReturnResult::spec_from_u32(value).spec_as_u32() == value,
        (match result {
            BtmReturnResult::EstimatedRuntime(seconds) => seconds != 0 && seconds != 0xFFFFFFFF,
            _ => true,
        }) ==> BtmReturnResult::spec_from_u32(result.spec_as_u32()) == result,
{
}

impl From<BtmReturnResult> for [u8; BTM_RETURN_SIZE_BYTES] {
    fn from(value: BtmReturnResult) -> (r: [u8; BTM_RETURN_SIZE_BYTES])
        ensures
            r@ == le_bytes(value.spec_as_u32()),
    {
        u32_to_le_bytes(u32::from(value))
    }
}

impl vstd::std_specs::convert::FromSpecImpl<BtmReturnResult> for [u8; BTM_RETURN_SIZE_BYTES] {
    open spec fn obeys_from_spec() -> bool {
        true
    }

    open spec fn from_spec(v: BtmReturnResult) -> [u8; BTM_RETURN_SIZE_BYTES] {
        let w = v.spec_as_u32();
        [(w & 0xff) as u8, ((w >> 8u32) & 0xff) as u8, ((w >> 16u32) & 0xff) as u8, ((w >> 24u32) & 0xff) as u8]
    }
}
/// BMS: Battery Measurement Sampling Time.
///
/// Used to set the sampling interval (in milliseconds) for battery capacity measurements
/// such as present rate and remaining capacity reported by `_BST`.
#[derive(Default, Copy, Clone, PartialEq, Eq, Structural, Debug)]
pub struct Bms {
    /// Desired sampling time in milliseconds.
    ///
    /// Valid range: `0x00000001` to `0xFFFFFFFF`.
    pub sampling_time_ms: u32,
}

/// Result of a _BMS operation.
///
/// Represents the possible return values from the `_BMS` method.
#[derive(Copy, Clone, PartialEq, Eq, Structural, Debug)]
pub enum BmsReturnResult {
    /// Sampling time was successfully set.
    Success,
    /// Sampling time is outside the battery's supported range.
    OutOfRange,
}

impl BmsReturnResult {
    /// The ACPI encoding of the result.
    pub open spec fn spec_as_u32(self) -> u32 {
        match self {
            BmsReturnResult::Success => 0,
            BmsReturnResult::OutOfRange => 1,
        }
    }
}

impl From<BmsReturnResult> for u32 {
    fn from(value: BmsReturnResult) -> (r: u32)
        ensures
            r == value.spec_as_u32(),
    {
        match value {
            BmsReturnResult::Success => 0,
            BmsReturnResult::OutOfRange => 1,
        }
    }
}

impl vstd::std_specs::convert::FromSpecImpl<BmsReturnResult> for u32 {
    open spec fn obeys_from_spec() -> bool {
        true
    }

    open spec fn from_spec(v: BmsReturnResult) -> u32 {
        v.spec_as_u32()
    }
}

/// BMA: Battery Measurement Averaging Interval.
///
/// Used to set the averaging interval (in milliseconds) for battery capacity measurements
/// such as remaining capacity and present rate reported by `_BST`.
#[derive(Default, Copy, Clone, PartialEq, Eq, Structural, Debug)]
pub struct Bma {
    /// Desired averaging interval in milliseconds.
    ///
    /// Valid range: `0x00000001` to `0xFFFFFFFF`.
    pub averaging_interval_ms: u32,
}

/// Result of a _BMA operation.
///
/// Represents the possible return values from the `_BMA` method.
#[derive(Copy, Clone, PartialEq, Eq, Structural, Debug)]
pub enum BmaReturnResult {
    /// Averaging interval was successfully set.
    Success,
    /// Averaging interval is outside the battery's supported range.
    OutOfRange,
}

impl BmaReturnResult {
    /// The ACPI encoding of the result.
    pub open spec fn spec_as_u32(self) -> u32 {
        match self {
            BmaReturnResult::Success => 0,
            BmaReturnResult::OutOfRange => 1,
        }
    }
}

impl From<BmaReturnResult> for u32 {
    fn from(value: BmaReturnResult) -> (r: u32)
        ensures
            r == value.spec_as_u32(),
    {
        match value {
            BmaReturnResult::Success => 0,
            BmaReturnResult::OutOfRange => 1,
        }
    }
}

impl vstd::std_specs::convert::FromSpecImpl<BmaReturnResult> for u32 {
    open spec fn obeys_from_spec() -> bool {
        true
    }

    open spec fn from_spec(v: BmaReturnResult) -> u32 {
        v.spec_as_u32()
    }
}

/// Result of a _STA operation.
///
/// This object returns the current status of a device, which can be one of the following: enabled, disabled, or removed.
///
/// Each named flag is a bit mask; bits without a name are kept as given.
#[derive(Default, Copy, Clone, PartialEq, Eq, Structural, Debug)]
pub struct StaReturn(u32);

impl View for StaReturn {
    type V = u32;

    closed spec fn view(&self) -> u32 {
        self.0
    }
}

impl StaReturn {
    /// Set if the device is present.
    pub const DEVICE_PRESENT: u32 = 1 << 0;

    /// Set if the device is enabled and decoding its resources.
    pub const DEVICE_ENABLED: u32 = 1 << 1;

    /// Set if the device should be shown in the UI.
    pub const DEVICE_SHOULD_SHOWN_UI: u32 = 1 << 2;

    /// Set if the device is functioning properly (cleared if device failed its diagnostics).
    pub const DEVICE_FUNCTIONING: u32 = 1 << 3;

    /// Set if the battery is present.
    pub const BATTERY_PRESENT: u32 = 1 << 4;

    /// No flag set.
    pub fn empty() -> (r: Self)
        ensures
            r@ == 0,
    {
        StaReturn(0)
    }

    /// Every named flag set.
    pub fn all() -> (r: Self)
        ensures
            r@ == 0x1f,
    {
        StaReturn(0x1f)
    }

    /// The raw bits.
    pub fn bits(&self) -> (r: u32)
        ensures
            r == self@,
    {
        self.0
    }

    /// The flags of `bits`, when it sets no bit without a name.
    pub fn from_bits(bits: u32) -> (r: Option<Self>)
        ensures
            match r {
                Some(f) => bits & !0x1fu32 == 0 && f@ == bits,
                None => bits & !0x1fu32 != 0,
            },
    {
        if bits & !0x1f == 0 {
            Some(StaReturn(bits))
        } else {
            None
        }
    }

    /// The named flags of `bits`; other bits are dropped.
    pub fn from_bits_truncate(bits: u32) -> (r: Self)
        ensures
            r@ == bits & 0x1f,
    {
        StaReturn(bits & 0x1f)
    }

    /// The flags of `bits`, every bit kept.
    pub fn from_bits_retain(bits: u32) -> (r: Self)
        ensures
            r@ == bits,
    {
        StaReturn(bits)
    }

    /// No bit is set.
    pub fn is_empty(&self) -> (r: bool)
        ensures
            r == (self@ == 0),
    {
        self.0 == 0
    }

    /// Every bit of `other` is set in `self`.
    pub fn contains(&self, other: Self) -> (r: bool)
        ensures
            r == (self@ & other@ == other@),
    {
        self.0 & other.0 == other.0
    }

    /// Some bit of `other` is set in `self`.
    pub fn intersects(&self, other: Self) -> (r: bool)
        ensures
            r == (self@ & other@ != 0),
    {
        self.0 & other.0 != 0
    }

    /// Sets every bit of `other`.
    pub fn insert(&mut self, other: Self)
        ensures
            final(self)@ == old(self)@ | other@,
    {
        self.0 = self.0 | other.0;
    }

    /// Clears every bit of `other`.
    pub fn remove(&mut self, other: Self)
        ensures
            final(self)@ == old(self)@ & !other@,
    {
        self.0 = self.0 & !other.0;
    }

    /// Sets or clears every bit of `other`, as `value` says.
    pub fn set(&mut self, other: Self, value: bool)
        ensures
            final(self)@ == if value {
                old(self)@ | other@
            } else {
                old(self)@ & !other@
            },
    {
        if value {
            self.insert(other);
        } else {
            self.remove(other);
        }
    }

    /// The bits set in either.
    pub fn union(self, other: Self) -> (r: Self)
        ensures
            r@ == self@ | other@,
    {
        StaReturn(self.0 | other.0)
    }

    /// Every named flag is set.
    pub fn is_all(&self) -> (r: bool)
        ensures
            r == (0x1f | self@ == self@),
    {
        StaReturn::all().0 | self.0 == self.0
    }

    /// Flips every bit of `other`.
    pub fn toggle(&mut self, other: Self)
        ensures
            final(self)@ == old(self)@ ^ other@,
    {
        self.0 = self.0 ^ other.0;
    }

    /// The bits set in both.
    pub fn intersection(self, other: Self) -> (r: Self)
        ensures
            r@ == self@ & other@,
    {
        StaReturn(self.0 & other.0)
    }

    /// The bits set in `self` and not in `other`.
    pub fn difference(self, other: Self) -> (r: Self)
        ensures
            r@ == self@ & !other@,
    {
        StaReturn(self.0 & !other.0)
    }

    /// The bits set in exactly one of the two.
    pub fn symmetric_difference(self, other: Self) -> (r: Self)
        ensures
            r@ == self@ ^ other@,
    {
        StaReturn(self.0 ^ other.0)
    }

    /// The named flags that are not set; bits without a name are dropped.
    pub fn complement(self) -> (r: Self)
        ensures
            r@ == !self@ & 0x1f,
    {
        StaReturn::from_bits_truncate(!self.0)
    }
}

/// Size of StaReturn in bytes
pub const STA_RETURN_SIZE_BYTES: usize = 4;

} // verus!
