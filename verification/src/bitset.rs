//! The trusted interface to `fixedbitset::FixedBitSet`, the dense bit set
//! that backs the grid. Each wrapper's contract states, over the abstract
//! contents `bits_of`, what the crate's source shows of the one call its
//! body makes.

use vstd::prelude::*;

use fixedbitset::FixedBitSet;

verus! {

#[verifier::external_type_specification]
#[verifier::external_body]
pub struct ExFixedBitSet(FixedBitSet);

/// The bits a `FixedBitSet` holds, in index order.
pub uninterp spec fn bits_of(s: FixedBitSet) -> Seq<bool>;

/// Relies on FixedBitSet::with_capacity: a set of `bits` bits, all
/// initially clear.
#[verifier::external_body]
pub(crate) fn bits_new(bits: usize) -> (r: FixedBitSet)
    ensures
        bits_of(r).len() == bits,
        forall|i: int| 0 <= i < bits ==> !bits_of(r)[i],
{
    FixedBitSet::with_capacity(bits)
}

/// Relies on FixedBitSet::contains: whether bit `bit` is enabled.
#[verifier::external_body]
pub(crate) fn bits_get(s: &FixedBitSet, bit: usize) -> (r: bool)
    requires
        bit < bits_of(*s).len(),
    ensures
        r == bits_of(*s)[bit as int],
{
    s.contains(bit)
}

/// Relies on FixedBitSet::set: writes bit `bit` and nothing else. It
/// panics on an out-of-range bit, so the bound is required here.
#[verifier::external_body]
pub(crate) fn bits_set(s: &mut FixedBitSet, bit: usize, enabled: bool)
    requires
        bit < bits_of(*old(s)).len(),
    ensures
        bits_of(*final(s)) == bits_of(*old(s)).update(bit as int, enabled),
{
    s.set(bit, enabled)
}

/// Relies on FixedBitSet's Clone impl: a copy with the same length and the
/// same bits.
#[verifier::external_body]
pub(crate) fn bits_clone(s: &FixedBitSet) -> (r: FixedBitSet)
    ensures
        bits_of(r) == bits_of(*s),
{
    s.clone()
}

/// Relies on FixedBitSet::as_slice: the backing `u32` blocks, one block
/// per 32 bits, bit `i` of the set at bit `i % 32` of block `i / 32`,
/// least significant bit first.
#[verifier::external_body]
pub(crate) fn bits_blocks(s: &FixedBitSet) -> (r: &[u32])
    ensures
        r@.len() == (bits_of(*s).len() + 31) / 32,
        forall|i: int|
            0 <= i < bits_of(*s).len() ==> (#[trigger] bits_of(*s)[i] <==> (r@[i / 32] >> ((i
                % 32) as u32)) & 1u32 == 1u32),
{
    s.as_slice()
}

} // verus!
