//! The run-time meaning of the generated accessor methods, for a backing
//! value and a flag's bit value: the getter, the exclusivity check and the
//! setter compute exactly these functions.

use vstd::prelude::*;

verus! {

/// What a generated getter computes: every bit of `mask` is set in `bits`.
pub fn flag_get(bits: u64, mask: u64) -> (r: bool)
    ensures
        r == (bits & mask == mask),
{
    bits & mask == mask
}

/// What a generated exclusivity check computes: no bit outside `mask` is set
/// in `bits`.
pub fn flag_only(bits: u64, mask: u64) -> (r: bool)
    ensures
        r == (bits | mask == mask),
{
    bits | mask == mask
}

/// What a generated setter computes: the backing value with the bits of
/// `mask` switched on or off. Afterwards the getter for `mask` answers
/// `value`, as long as the mask is not empty.
pub fn flag_assign(bits: u64, mask: u64, value: bool) -> (r: u64)
    ensures
        r == if value { bits | mask } else { bits & !mask },
        value ==> r & mask == mask,
        (!value && mask != 0) ==> r & mask != mask,
{
    proof {
        assert((bits | mask) & mask == mask) by (bit_vector);
        assert((bits & !mask) & mask == 0) by (bit_vector);
    }
    if value {
        bits | mask
    } else {
        bits & !mask
    }
}

} // verus!
