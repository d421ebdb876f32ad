//! Fields packed into a 16-bit register word.
//!
//! A field is a run of `width` bits that starts at bit `offset` (bit 0 being
//! the least significant). The register types of the crate store their raw
//! word and read or replace fields through the helpers below, so that every
//! accessor's contract is stated over [`get_field`] and [`set_field`].
use vstd::prelude::*;

verus! {

/// The `width` low bits of a word set, all others clear.
pub open spec fn low_mask(width: u16) -> u16 {
    0xffffu16 >> ((16 - width) as u16)
}

/// A field of `width` bits at `offset` lies inside the 16-bit word.
pub open spec fn field_fits(offset: u16, width: u16) -> bool {
    1 <= width && offset + width <= 16
}

/// The field of `width` bits at `offset` in `raw`, moved down to bit 0.
pub open spec fn get_field(raw: u16, offset: u16, width: u16) -> u16 {
    (raw >> offset) & low_mask(width)
}

/// `raw` with the field of `width` bits at `offset` replaced by `value`;
/// every bit outside the field keeps its value.
pub open spec fn set_field(raw: u16, offset: u16, width: u16, value: u16) -> u16 {
    (raw & !(low_mask(width) << offset)) | ((value & low_mask(width)) << offset)
}

/// The single bit at `offset` of `raw`.
pub open spec fn get_flag(raw: u16, offset: u16) -> bool {
    get_field(raw, offset, 1) == 1
}

/// `raw` with the bit at `offset` set to `value`.
pub open spec fn set_flag(raw: u16, offset: u16, value: bool) -> u16 {
    set_field(raw, offset, 1, if value { 1u16 } else { 0u16 })
}

/// The masks of the field widths that the registers use.
pub proof fn lemma_low_masks()
    ensures
        low_mask(1) == 1,
        low_mask(4) == 15,
        low_mask(5) == 31,
        low_mask(7) == 127,
{
    assert(0xffffu16 >> 15u16 == 1 && 0xffffu16 >> 12u16 == 15 && 0xffffu16 >> 11u16 == 31
        && 0xffffu16 >> 9u16 == 127) by (bit_vector);
}

/// A field never reads back more than its width can hold.
pub proof fn lemma_get_field_bound(raw: u16, offset: u16, width: u16)
    requires
        field_fits(offset, width),
    ensures
        get_field(raw, offset, width) <= low_mask(width),
{
    assert((raw >> offset) & (0xffffu16 >> ((16 - width) as u16)) <= 0xffffu16 >> ((16
        - width) as u16)) by (bit_vector);
}

/// Reading a field just written gives back the value written, when it fits
/// in the field.
pub proof fn lemma_get_set_same(raw: u16, offset: u16, width: u16, value: u16)
    requires
        field_fits(offset, width),
        value <= low_mask(width),
    ensures
        get_field(set_field(raw, offset, width, value), offset, width) == value,
{
    assert(((((raw & !((0xffffu16 >> ((16 - width) as u16)) << offset)) | ((value & (0xffffu16
        >> ((16 - width) as u16))) << offset)) >> offset) & (0xffffu16 >> ((16 - width) as u16)))
        == value) by (bit_vector)
        requires
            1 <= width && offset + width <= 16,
            value <= 0xffffu16 >> ((16 - width) as u16),
    ;
}

/// Writing a field leaves every field that does not overlap it unchanged.
pub proof fn lemma_get_set_other(
    raw: u16,
    offset: u16,
    width: u16,
    value: u16,
    other_offset: u16,
    other_width: u16,
)
    requires
        field_fits(offset, width),
        field_fits(other_offset, other_width),
        offset + width <= other_offset || other_offset + other_width <= offset,
    ensures
        get_field(set_field(raw, offset, width, value), other_offset, other_width) == get_field(
            raw,
            other_offset,
            other_width,
        ),
{
    assert(((((raw & !((0xffffu16 >> ((16 - width) as u16)) << offset)) | ((value & (0xffffu16
        >> ((16 - width) as u16))) << offset)) >> other_offset) & (0xffffu16 >> ((16
        - other_width) as u16))) == ((raw >> other_offset) & (0xffffu16 >> ((16
        - other_width) as u16)))) by (bit_vector)
        requires
            1 <= width && offset + width <= 16,
            1 <= other_width && other_offset + other_width <= 16,
            offset + width <= other_offset || other_offset + other_width <= offset,
    ;
}

/// Writing back the value a field holds leaves the whole word unchanged.
pub proof fn lemma_set_get(raw: u16, offset: u16, width: u16)
    requires
        field_fits(offset, width),
    ensures
        set_field(raw, offset, width, get_field(raw, offset, width)) == raw,
{
    assert(((raw & !((0xffffu16 >> ((16 - width) as u16)) << offset)) | ((((raw >> offset) & (
    0xffffu16 >> ((16 - width) as u16))) & (0xffffu16 >> ((16 - width) as u16))) << offset))
        == raw) by (bit_vector)
        requires
            1 <= width && offset + width <= 16,
    ;
}

/// Reads the field of `width` bits at `offset`.
pub(crate) fn read_field(raw: u16, offset: u16, width: u16) -> (r: u16)
    requires
        field_fits(offset, width),
    ensures
        r == get_field(raw, offset, width),
        r <= low_mask(width),
{
    proof {
        lemma_get_field_bound(raw, offset, width);
    }
    (raw >> offset) & (0xffffu16 >> (16 - width))
}

/// Replaces the field of `width` bits at `offset` by `value`.
pub(crate) fn write_field(raw: u16, offset: u16, width: u16, value: u16) -> (r: u16)
    requires
        field_fits(offset, width),
        value <= low_mask(width),
    ensures
        r == set_field(raw, offset, width, value),
{
    let mask: u16 = 0xffffu16 >> (16 - width);
    (raw & !(mask << offset)) | ((value & mask) << offset)
}

/// Reads the single bit at `offset`.
pub(crate) fn read_flag(raw: u16, offset: u16) -> (r: bool)
    requires
        offset < 16,
    ensures
        r == get_flag(raw, offset),
{
    read_field(raw, offset, 1) == 1
}

/// Sets the single bit at `offset` to `value`.
pub(crate) fn write_flag(raw: u16, offset: u16, value: bool) -> (r: u16)
    requires
        offset < 16,
    ensures
        r == set_flag(raw, offset, value),
{
    proof {
        lemma_low_masks();
    }
    write_field(raw, offset, 1, if value { 1 } else { 0 })
}

} // verus!
