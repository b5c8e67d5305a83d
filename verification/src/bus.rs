//! Bus requests: what the driver asks of the I2C bus, and how the answers are decoded.
//!
//! The driver decides which device, register and bits each operation touches and what the
//! answer of the device means; the caller performs the transfer on the bus and hands the raw
//! bytes back to the request's decoder.
use vstd::prelude::*;
use crate::bits::{
    lemma_disjoint_field_untouched, lemma_last_write_wins, lemma_read_after_write, lemma_whole_register_field, low_bits,
    read_bit, read_bits, register_field, spec_read_bits, spec_write_bits, write_bits,
};

verus! {

/// A read of a bit field of one 8-bit register (the whole register when `bit_start` is 7 and
/// `length` is 8).
#[derive(Clone, Copy, Debug, PartialEq, Eq)]
pub struct FieldRead {
    pub dev_address: u16,
    pub reg: u8,
    pub bit_start: u8,
    pub length: u8,
}

/// A write of `data` into a bit field of one 8-bit register. Unless the field is the whole
/// register, the current register value is read first and the other bits are kept.
#[derive(Clone, Copy, Debug, PartialEq, Eq)]
pub struct FieldWrite {
    pub dev_address: u16,
    pub reg: u8,
    pub bit_start: u8,
    pub length: u8,
    pub data: u8,
}

/// A 16-bit word write (SMBus "write word data") starting at `reg`.
#[derive(Clone, Copy, Debug, PartialEq, Eq)]
pub struct WordWrite {
    pub dev_address: u16,
    pub reg: u8,
    pub data: u16,
}

/// A read of `length` consecutive registers starting at `reg`.
#[derive(Clone, Copy, Debug, PartialEq, Eq)]
pub struct BlockRead {
    pub dev_address: u16,
    pub reg: u8,
    pub length: u8,
}

/// A read of a one-bit flag that the register stores negated: the decoded value is 1 when
/// the bit is 0.
#[derive(Clone, Copy, Debug, PartialEq, Eq)]
pub struct InvertedBitRead {
    pub field: FieldRead,
}

impl InvertedBitRead {
    /// The value of the flag in the register value `raw`.
    pub open spec fn spec_decode(self, raw: u8) -> u8 {
        (1 - self.field.spec_decode(raw)) as u8
    }

    /// Decodes the register value the device answered with into the flag.
    pub fn decode(&self, raw: u8) -> (value: u8)
        requires
            self.field.is_register_field(),
            self.field.length == 1,
        ensures
            value == self.spec_decode(raw),
            value <= 1,
    {
        let bit = read_bit(raw, self.field.bit_start);
        1 - bit
    }
}

impl FieldRead {
    /// The field lies inside its register, so decoding it is defined.
    pub open spec fn is_register_field(self) -> bool {
        register_field(self.bit_start, self.length)
    }

    /// The value of the field in the register value `raw`.
    pub open spec fn spec_decode(self, raw: u8) -> u8 {
        spec_read_bits(raw, self.bit_start, self.length)
    }

    /// The write that stores `data` in this field.
    pub open spec fn with_data(self, data: u8) -> FieldWrite {
        FieldWrite {
            dev_address: self.dev_address,
            reg: self.reg,
            bit_start: self.bit_start,
            length: self.length,
            data,
        }
    }

    /// The write that stores `data` in this field.
    pub fn write(&self, data: u8) -> (w: FieldWrite)
        ensures
            w == self.with_data(data),
    {
        FieldWrite {
            dev_address: self.dev_address,
            reg: self.reg,
            bit_start: self.bit_start,
            length: self.length,
            data,
        }
    }

    /// Decodes the register value the device answered with into the value of the field.
    pub fn decode(&self, raw: u8) -> (value: u8)
        requires
            self.is_register_field(),
        ensures
            value == self.spec_decode(raw),
    {
        read_bits(raw, self.bit_start, self.length)
    }
}

impl FieldWrite {
    /// The field that this write stores into.
    pub open spec fn target(self) -> FieldRead {
        FieldRead {
            dev_address: self.dev_address,
            reg: self.reg,
            bit_start: self.bit_start,
            length: self.length,
        }
    }

    /// The register value after the write, given the value it held before.
    pub open spec fn spec_merge(self, current: u8) -> u8 {
        spec_write_bits(current, self.bit_start, self.length, self.data)
    }

    /// Whether the write needs the current register value: it does unless the field is the
    /// whole register, in which case the new value is `data` whatever the register held.
    pub fn needs_current_value(&self) -> (needed: bool)
        requires
            self.target().is_register_field(),
        ensures
            needed == !(self.bit_start == 7 && self.length == 8),
            !needed ==> forall|current: u8| #[trigger] self.spec_merge(current) == self.data,
    {
        if self.bit_start == 7 && self.length == 8 {
            assert forall|current: u8| #[trigger] self.spec_merge(current) == self.data by {
                lemma_whole_register_field(current, self.data);
            }
            false
        } else {
            true
        }
    }

    /// The register value to send, given the value the register currently holds.
    pub fn merge(&self, current: u8) -> (value: u8)
        requires
            self.target().is_register_field(),
        ensures
            value == self.spec_merge(current),
    {
        write_bits(current, self.bit_start, self.length, self.data)
    }
}

/// The register file of one device: the value of each register address.
pub open spec fn spec_apply_write(regs: Seq<u8>, w: FieldWrite) -> Seq<u8> {
    regs.update(w.reg as int, w.spec_merge(regs[w.reg as int]))
}

/// The register file after the writes `writes`, performed in order.
pub open spec fn spec_apply_writes(regs: Seq<u8>, writes: Seq<FieldWrite>) -> Seq<u8>
    decreases writes.len(),
{
    if writes.len() == 0 {
        regs
    } else {
        spec_apply_writes(spec_apply_write(regs, writes[0]), writes.drop_first())
    }
}

/// The value a read of `field` gives on the register file `regs`.
pub open spec fn spec_read_field(regs: Seq<u8>, field: FieldRead) -> u8 {
    field.spec_decode(regs[field.reg as int])
}

/// A read of a field gives back what the last write to that field wrote, cut to the width of
/// the field.
pub proof fn lemma_field_read_after_write(regs: Seq<u8>, w: FieldWrite)
    requires
        w.target().is_register_field(),
        (w.reg as int) < regs.len(),
    ensures
        spec_read_field(spec_apply_write(regs, w), w.target()) == low_bits(w.data, w.length),
{
    lemma_read_after_write(regs[w.reg as int], w.bit_start, w.length, w.data);
}

/// A write leaves every other register, and every field of the same register that does not
/// overlap the written one, as it was.
pub proof fn lemma_field_write_keeps_other_fields(regs: Seq<u8>, w: FieldWrite, other: FieldRead)
    requires
        w.target().is_register_field(),
        other.is_register_field(),
        (w.reg as int) < regs.len(),
        (other.reg as int) < regs.len(),
        other.reg != w.reg || other.bit_start + 1 <= w.bit_start + 1 - w.length || w.bit_start
            + 1 <= other.bit_start + 1 - other.length,
    ensures
        spec_read_field(spec_apply_write(regs, w), other) == spec_read_field(regs, other),
{
    if other.reg == w.reg {
        lemma_disjoint_field_untouched(
            regs[w.reg as int],
            w.bit_start,
            w.length,
            w.data,
            other.bit_start,
            other.length,
        );
    }
}

/// Of two writes to the same field, the second alone decides the register file.
pub proof fn lemma_field_last_write_wins(regs: Seq<u8>, first: FieldWrite, second: FieldWrite)
    requires
        first.target() == second.target(),
        first.target().is_register_field(),
        (first.reg as int) < regs.len(),
    ensures
        spec_apply_write(spec_apply_write(regs, first), second) == spec_apply_write(regs, second),
{
    lemma_last_write_wins(regs[first.reg as int], first.bit_start, first.length, first.data, second.data);
    assert(spec_apply_write(spec_apply_write(regs, first), second) =~= spec_apply_write(regs, second));
}

} // verus!
