//! Single-bit and packed-field access to 32-bit hardware registers.
//!
//! The GPIO configuration registers pack one-, two- and four-bit fields at
//! positions derived from the pin number.  The update functions here carry
//! exact closed-form contracts, and the lemmas lift those to the field
//! level: the addressed field takes the new value and every other field
//! keeps its old one.

use vstd::prelude::*;

verus! {

/// Bit `i` of a register is set.
pub open spec fn bit_set(reg: u32, i: u32) -> bool {
    reg & (1u32 << i) != 0
}

/// The register with bit `i` forced to `b`.
pub open spec fn spec_set_bit(reg: u32, i: u32, b: bool) -> u32 {
    if b {
        reg | (1u32 << i)
    } else {
        reg & !(1u32 << i)
    }
}

/// The two-bit field of slot `slot` (bits `2 * slot + 1 .. 2 * slot`).
pub open spec fn field2(reg: u32, slot: u32) -> u32 {
    (reg >> ((2 * slot) as u32)) & 0x3
}

/// The register with the two-bit field of slot `slot` set to `v`.
pub open spec fn spec_set_field2(reg: u32, slot: u32, v: u32) -> u32 {
    (reg & !(0x3u32 << ((2 * slot) as u32))) | ((v & 0x3) << ((2 * slot) as u32))
}

/// The four-bit field of slot `slot` (bits `4 * slot + 3 .. 4 * slot`).
pub open spec fn field4(reg: u32, slot: u32) -> u32 {
    (reg >> ((4 * slot) as u32)) & 0xF
}

/// The register with the four-bit field of slot `slot` set to `v`.
pub open spec fn spec_set_field4(reg: u32, slot: u32, v: u32) -> u32 {
    (reg & !(0xFu32 << ((4 * slot) as u32))) | ((v & 0xF) << ((4 * slot) as u32))
}

/// Setting bit `i` writes exactly that bit: it reads back as `b` and every
/// other bit keeps its value.
pub proof fn lemma_set_bit(reg: u32, i: u32, b: bool)
    by (bit_vector)
    requires
        i < 32,
    ensures
        bit_set(spec_set_bit(reg, i, b), i) == b,
        forall|j: u32|
            j < 32 && j != i ==> #[trigger] bit_set(spec_set_bit(reg, i, b), j) == bit_set(reg, j),
{
}

/// Setting a two-bit field writes exactly that field: it reads back as `v`
/// and every other two-bit slot keeps its value.
pub proof fn lemma_set_field2(reg: u32, slot: u32, v: u32)
    by (bit_vector)
    requires
        slot < 16,
        v < 4,
    ensures
        field2(spec_set_field2(reg, slot, v), slot) == v,
        forall|j: u32|
            j < 16 && j != slot ==> #[trigger] field2(spec_set_field2(reg, slot, v), j) == field2(
                reg,
                j,
            ),
{
}

/// Setting a four-bit field writes exactly that field: it reads back as `v`
/// and every other four-bit slot keeps its value.
pub proof fn lemma_set_field4(reg: u32, slot: u32, v: u32)
    by (bit_vector)
    requires
        slot < 8,
        v < 16,
    ensures
        field4(spec_set_field4(reg, slot, v), slot) == v,
        forall|j: u32|
            j < 8 && j != slot ==> #[trigger] field4(spec_set_field4(reg, slot, v), j) == field4(
                reg,
                j,
            ),
{
}

/// Force bit `i` of a register to `b`.
pub fn set_bit(reg: u32, i: u32, b: bool) -> (r: u32)
    requires
        i < 32,
    ensures
        r == spec_set_bit(reg, i, b),
{
    if b {
        reg | (1u32 << i)
    } else {
        reg & !(1u32 << i)
    }
}

/// Write `v` into the two-bit field of slot `slot`.
pub fn set_field2(reg: u32, slot: u32, v: u32) -> (r: u32)
    requires
        slot < 16,
        v < 4,
    ensures
        r == spec_set_field2(reg, slot, v),
{
    let sh: u32 = 2 * slot;
    (reg & !(0x3u32 << sh)) | ((v & 0x3) << sh)
}

/// Write `v` into the four-bit field of slot `slot`.
pub fn set_field4(reg: u32, slot: u32, v: u32) -> (r: u32)
    requires
        slot < 8,
        v < 16,
    ensures
        r == spec_set_field4(reg, slot, v),
{
    let sh: u32 = 4 * slot;
    (reg & !(0xFu32 << sh)) | ((v & 0xF) << sh)
}

} // verus!
