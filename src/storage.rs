//! Cell storage: one bit per cell, held in a `bit_vec::BitVec`.
use bit_vec::BitVec;
use vstd::prelude::*;

verus! {

/// `bit_vec::BitVec`, opaque to Verus; what it holds is `bits_of`.
#[verifier::external_type_specification]
#[verifier::external_body]
#[verifier::reject_recursive_types(B)]
pub struct ExBitVec<B>(BitVec<B>);

/// The bits that a bit vector holds, in order.
pub uninterp spec fn bits_of(v: BitVec) -> Seq<bool>;

/// Relies on `BitVec::from_elem`: a vector of `nbits` bits, each equal to `bit`.
#[verifier::external_body]
pub(crate) fn bits_filled(nbits: usize, bit: bool) -> (r: BitVec)
    ensures
        bits_of(r) == Seq::new(nbits as nat, |_i: int| bit),
{
    BitVec::from_elem(nbits, bit)
}

/// Relies on `BitVec::len`: the number of bits held.
#[verifier::external_body]
pub(crate) fn bits_len(v: &BitVec) -> (r: usize)
    ensures
        r == bits_of(*v).len(),
{
    v.len()
}

/// Relies on `BitVec::get`: the bit at `i`, or `None` past the end.
#[verifier::external_body]
pub(crate) fn bits_get(v: &BitVec, i: usize) -> (r: Option<bool>)
    ensures
        r == (if i < bits_of(*v).len() {
            Some(bits_of(*v)[i as int])
        } else {
            None::<bool>
        }),
{
    v.get(i)
}

/// Relies on `BitVec::set`: replaces the bit at `i`, which must be in range
/// (it panics otherwise).
#[verifier::external_body]
pub(crate) fn bits_set(v: &mut BitVec, i: usize, x: bool)
    requires
        i < bits_of(*old(v)).len(),
    ensures
        bits_of(*final(v)) == bits_of(*old(v)).update(i as int, x),
{
    v.set(i, x)
}

} // verus!
