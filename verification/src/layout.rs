use vstd::prelude::*;
use vstd::layout::{align_of, size_of};

verus! {

/// Two types whose values take the same number of bytes at the same alignment.
pub open spec fn layouts_match<A, B>() -> bool {
    size_of::<A>() == size_of::<B>() && align_of::<A>() == align_of::<B>()
}

/// Whether a value of `A` may be read as a value of `B`, as far as size and
/// alignment go. The bytes of one are taken for the other only after this has
/// said yes.
pub fn same_layout<A, B>() -> (same: bool)
    ensures
        same == layouts_match::<A, B>(),
{
    core::mem::size_of::<A>() == core::mem::size_of::<B>() && core::mem::align_of::<A>()
        == core::mem::align_of::<B>()
}

} // verus!
