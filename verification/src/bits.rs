//! Bit-level arithmetic on 8-bit register values: reading one bit, and the
//! read-modify-write update that sets or clears one bit while preserving
//! every sibling bit.

use vstd::prelude::*;

verus! {

/// Whether bit `pin` of the register value is set.
pub open spec fn bit_set(value: u8, pin: u8) -> bool {
    value & (1u8 << pin) != 0
}

/// The register value after setting (`on == true`) or clearing
/// (`on == false`) bit `pin`: OR with a singleton mask, or AND with its
/// complement.
pub open spec fn with_bit(value: u8, pin: u8, on: bool) -> u8 {
    if on {
        value | (1u8 << pin)
    } else {
        value & !(1u8 << pin)
    }
}

/// After a single-bit update, the updated bit holds exactly the level that
/// was written.
pub proof fn lemma_with_bit_same(value: u8, pin: u8, on: bool)
    by (bit_vector)
    requires
        pin < 8,
    ensures
        bit_set(with_bit(value, pin, on), pin) == on,
{
}

/// Read-modify-write preserves siblings: a single-bit update leaves every
/// other bit of the register unchanged.
pub proof fn lemma_with_bit_other(value: u8, pin: u8, other: u8, on: bool)
    by (bit_vector)
    requires
        pin < 8,
        other < 8,
        other != pin,
    ensures
        bit_set(with_bit(value, pin, on), other) == bit_set(value, other),
{
}

/// Idempotence: writing the same level to the same bit twice yields the same
/// register value as writing it once.
pub proof fn lemma_with_bit_idempotent(value: u8, pin: u8, on: bool)
    by (bit_vector)
    requires
        pin < 8,
    ensures
        with_bit(with_bit(value, pin, on), pin, on) == with_bit(value, pin, on),
{
}

} // verus!
