//! Bit-field arithmetic on 8-bit device registers.
use vstd::prelude::*;

verus! {

/// Mask selecting the bits `bit_start - length + 1 ..= bit_start` of a register.
pub open spec fn field_mask(bit_start: u8, length: u8) -> u8 {
    ((((1u16 << (length as u16)) - 1u16) as u16) << ((bit_start + 1 - length) as u16)) as u8
}

/// A field position on which the arithmetic of `read_bits` and `write_bits` is defined.
pub open spec fn valid_field(bit_start: u8, length: u8) -> bool {
    &&& bit_start < 255
    &&& length <= bit_start + 1
    &&& length < 16
    &&& bit_start + 1 - length < 8
}

/// The value of the field: the masked bits moved down to bit 0.
pub open spec fn spec_read_bits(value: u8, bit_start: u8, length: u8) -> u8 {
    ((value & field_mask(bit_start, length)) >> ((bit_start + 1 - length) as u8)) as u8
}

/// The register value after `data` is stored in the field; bits outside the field are kept.
pub open spec fn spec_write_bits(value: u8, bit_start: u8, length: u8, data: u8) -> u8 {
    ((value & !field_mask(bit_start, length)) | (((data << ((bit_start + 1 - length) as u8)) as u8)
        & field_mask(bit_start, length))) as u8
}

/// Extracts the field of `length` bits whose highest bit is `bit_start` from a register value.
pub fn read_bits(value: u8, bit_start: u8, length: u8) -> (r: u8)
    requires
        valid_field(bit_start, length),
    ensures
        r == spec_read_bits(value, bit_start, length),
{
    let shift: u8 = bit_start + 1 - length;
    let len16: u16 = length as u16;
    assert(1u16 << len16 >= 1u16) by (bit_vector)
        requires
            len16 < 16,
    ;
    let mask: u16 = ((1u16 << len16) - 1) << (shift as u16);
    let b: u8 = (value & (#[verifier::truncate] (mask as u8))) >> shift;
    assert(b == spec_read_bits(value, bit_start, length)) by (bit_vector)
        requires
            shift == bit_start + 1 - length,
            len16 == length as u16,
            mask == (((1u16 << len16) - 1u16) as u16) << (shift as u16),
            b == (value & (mask as u8)) >> shift,
            valid_field(bit_start, length),
    ;
    b
}


/// Stores `data` in the field of `length` bits whose highest bit is `bit_start`, keeping the
/// other bits of the register value.
pub fn write_bits(value: u8, bit_start: u8, length: u8, data: u8) -> (r: u8)
    requires
        valid_field(bit_start, length),
    ensures
        r == spec_write_bits(value, bit_start, length, data),
{
    let shift: u8 = bit_start + 1 - length;
    let len16: u16 = length as u16;
    assert(1u16 << len16 >= 1u16) by (bit_vector)
        requires
            len16 < 16,
    ;
    let mask: u16 = ((1u16 << len16) - 1) << (shift as u16);
    let m: u8 = #[verifier::truncate] (mask as u8);
    let not_m: u8 = #[verifier::truncate] ((!mask) as u8);
    let shifted: u8 = data << shift;
    let b: u8 = (value & not_m) | (shifted & m);
    assert(b == spec_write_bits(value, bit_start, length, data)) by (bit_vector)
        requires
            shift == bit_start + 1 - length,
            len16 == length as u16,
            mask == (((1u16 << len16) - 1u16) as u16) << (shift as u16),
            m == mask as u8,
            not_m == (!mask) as u8,
            shifted == data << shift,
            b == (value & not_m) | (shifted & m),
            valid_field(bit_start, length),
    ;
    b
}

/// Extracts the single bit `bit` of a register value (0 or 1).
pub fn read_bit(value: u8, bit: u8) -> (r: u8)
    requires
        valid_field(bit, 1),
    ensures
        r == spec_read_bits(value, bit, 1),
        r <= 1,
{
    let r = read_bits(value, bit, 1);
    assert(spec_read_bits(value, bit, 1) <= 1) by (bit_vector)
        requires
            valid_field(bit, 1),
    ;
    r
}

/// Stores the lowest bit of `data` in bit `bit` of a register value.
pub fn write_bit(value: u8, bit: u8, data: u8) -> (r: u8)
    requires
        valid_field(bit, 1),
    ensures
        r == spec_write_bits(value, bit, 1, data),
{
    write_bits(value, bit, 1, data)
}

/// The lowest `length` bits of `data`: what a field of that width can hold.
pub open spec fn low_bits(data: u8, length: u8) -> u8 {
    ((data as u16) & (((1u16 << (length as u16)) - 1u16) as u16)) as u8
}

/// A field that lies inside one 8-bit register.
pub open spec fn register_field(bit_start: u8, length: u8) -> bool {
    &&& 1 <= length
    &&& length <= bit_start + 1
    &&& bit_start < 8
}

/// Reading a field gives back what was last written to it, cut to the width of the field.
pub proof fn lemma_read_after_write(value: u8, bit_start: u8, length: u8, data: u8)
    requires
        register_field(bit_start, length),
    ensures
        valid_field(bit_start, length),
        spec_read_bits(spec_write_bits(value, bit_start, length, data), bit_start, length)
            == low_bits(data, length),
{
    assert(spec_read_bits(spec_write_bits(value, bit_start, length, data), bit_start, length)
        == low_bits(data, length)) by (bit_vector)
        requires
            register_field(bit_start, length),
    ;
}

/// Writing a field leaves every bit outside the field as it was.
pub proof fn lemma_write_keeps_other_bits(value: u8, bit_start: u8, length: u8, data: u8)
    requires
        register_field(bit_start, length),
    ensures
        spec_write_bits(value, bit_start, length, data) & !field_mask(bit_start, length)
            == value & !field_mask(bit_start, length),
{
    assert(spec_write_bits(value, bit_start, length, data) & !field_mask(bit_start, length)
        == value & !field_mask(bit_start, length)) by (bit_vector)
        requires
            register_field(bit_start, length),
    ;
}

/// Of two writes to the same field, the second one alone decides the register value.
pub proof fn lemma_last_write_wins(value: u8, bit_start: u8, length: u8, first: u8, second: u8)
    requires
        register_field(bit_start, length),
    ensures
        spec_write_bits(spec_write_bits(value, bit_start, length, first), bit_start, length, second)
            == spec_write_bits(value, bit_start, length, second),
{
    assert(spec_write_bits(spec_write_bits(value, bit_start, length, first), bit_start, length, second)
        == spec_write_bits(value, bit_start, length, second)) by (bit_vector)
        requires
            register_field(bit_start, length),
    ;
}

/// Writing back the value just read from a field leaves the register unchanged.
pub proof fn lemma_write_back_read_value(value: u8, bit_start: u8, length: u8)
    requires
        register_field(bit_start, length),
    ensures
        spec_write_bits(value, bit_start, length, spec_read_bits(value, bit_start, length)) == value,
{
    assert(spec_write_bits(value, bit_start, length, spec_read_bits(value, bit_start, length)) == value)
        by (bit_vector)
        requires
            register_field(bit_start, length),
    ;
}

/// Writing a field does not change the value of a field that does not overlap it.
pub proof fn lemma_disjoint_field_untouched(
    value: u8,
    bit_start: u8,
    length: u8,
    data: u8,
    other_start: u8,
    other_length: u8,
)
    requires
        register_field(bit_start, length),
        register_field(other_start, other_length),
        other_start + 1 <= bit_start + 1 - length || bit_start + 1 <= other_start + 1 - other_length,
    ensures
        spec_read_bits(spec_write_bits(value, bit_start, length, data), other_start, other_length)
            == spec_read_bits(value, other_start, other_length),
{
    assert(spec_read_bits(spec_write_bits(value, bit_start, length, data), other_start, other_length)
        == spec_read_bits(value, other_start, other_length)) by (bit_vector)
        requires
            register_field(bit_start, length),
            register_field(other_start, other_length),
            other_start + 1 <= bit_start + 1 - length || bit_start + 1 <= other_start + 1
                - other_length,
    ;
}

/// A field that spans the whole register is the register value itself, and writing it
/// replaces the register value whatever it was.
pub proof fn lemma_whole_register_field(value: u8, data: u8)
    ensures
        valid_field(7, 8),
        spec_read_bits(value, 7, 8) == value,
        spec_write_bits(value, 7, 8, data) == data,
{
    assert(spec_read_bits(value, 7, 8) == value) by (bit_vector);
    assert(spec_write_bits(value, 7, 8, data) == data) by (bit_vector);
}

} // verus!
