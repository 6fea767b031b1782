use vstd::prelude::*;

verus! {

/// The shape of a pointer to a value of some type.
#[derive(Copy, Clone, PartialEq, Eq, Debug, Structural)]
pub enum MetaType {
    /// The value is used through a dispatch table: the pointer is an address
    /// and a reference to that table.
    TraitObject,
    /// The value is a run of equal elements whose number is known only at run
    /// time: the pointer is an address and that number.
    Slice,
    /// The value has a size known at compile time: the pointer is an address.
    Concrete,
}

} // verus!
