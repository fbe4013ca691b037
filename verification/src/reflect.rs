//! Bit-reflection utilities: bit order is reversed within each byte, each
//! halfword, or the whole word. Each transform is an involution.

use vstd::prelude::*;

verus! {

/// Bit order reversed within each byte of the word; byte positions unchanged.
pub open spec fn spec_reflect8(v: u32) -> u32 {
    let a = ((v >> 1) & 0x5555_5555) | ((v & 0x5555_5555) << 1);
    let b = ((a >> 2) & 0x3333_3333) | ((a & 0x3333_3333) << 2);
    ((b >> 4) & 0x0F0F_0F0F) | ((b & 0x0F0F_0F0F) << 4)
}

/// Bit order reversed within each halfword of the word: each byte's bits are
/// reversed and the two bytes of each halfword swap places.
pub open spec fn spec_reflect16(v: u32) -> u32 {
    let a = spec_reflect8(v);
    ((a >> 8) & 0x00FF_00FF) | ((a & 0x00FF_00FF) << 8)
}

/// Bit order of the full word reversed: each halfword's bits are reversed and
/// the two halfwords swap places.
pub open spec fn spec_reflect32(v: u32) -> u32 {
    let a = spec_reflect16(v);
    (a >> 16) | (a << 16)
}

/// Reverses the bit order inside each byte of `v`, keeping byte positions.
pub fn reflect8(v: u32) -> (r: u32)
    ensures
        r == spec_reflect8(v),
{
    let a = ((v >> 1) & 0x5555_5555) | ((v & 0x5555_5555) << 1);
    let b = ((a >> 2) & 0x3333_3333) | ((a & 0x3333_3333) << 2);
    ((b >> 4) & 0x0F0F_0F0F) | ((b & 0x0F0F_0F0F) << 4)
}

/// Reverses the bit order of each 16-bit half of `v`.
pub fn reflect16(v: u32) -> (r: u32)
    ensures
        r == spec_reflect16(v),
{
    let a = reflect8(v);
    ((a >> 8) & 0x00FF_00FF) | ((a & 0x00FF_00FF) << 8)
}

/// Reverses the bit order of the full 32-bit value `v`.
pub fn reflect32(v: u32) -> (r: u32)
    ensures
        r == spec_reflect32(v),
{
    let a = reflect16(v);
    (a >> 16) | (a << 16)
}

/// Law: reflecting each byte twice returns the original value.
pub proof fn lemma_reflect8_involution(v: u32)
    ensures
        spec_reflect8(spec_reflect8(v)) == v,
{
    assert(spec_reflect8(spec_reflect8(v)) == v) by (bit_vector);
}

/// Law: reflecting each halfword twice returns the original value.
pub proof fn lemma_reflect16_involution(v: u32)
    ensures
        spec_reflect16(spec_reflect16(v)) == v,
{
    assert(spec_reflect16(spec_reflect16(v)) == v) by (bit_vector);
}

/// Law: reflecting the full word twice returns the original value.
pub proof fn lemma_reflect32_involution(v: u32)
    ensures
        spec_reflect32(spec_reflect32(v)) == v,
{
    assert(spec_reflect32(spec_reflect32(v)) == v) by (bit_vector);
}

} // verus!
