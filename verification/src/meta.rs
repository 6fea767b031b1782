use vstd::prelude::*;

verus! {

/// Metadata of a pointer to a trait object: the dispatch table, by its address
/// and by the alignment it records for the value behind the pointer.
///
/// Neither is ever zero.
#[derive(Copy, Clone, PartialEq, Eq, Debug, Structural)]
pub struct TraitObject {
    vtable: usize,
    align: usize,
}

/// Metadata of a pointer to a slice or a `str`.
#[derive(Copy, Clone, PartialEq, Eq, Debug, Structural)]
pub struct Slice {
    /// Number of elements in the slice; for a `str`, its length in bytes.
    pub len: usize,
}

/// Metadata of a pointer to a sized value: there is none.
#[derive(Copy, Clone, PartialEq, Eq, Debug, Structural)]
pub struct Concrete;

impl TraitObject {
    #[verifier::type_invariant]
    spec fn well_formed(self) -> bool {
        self.vtable != 0 && self.align != 0
    }

    /// Address of the dispatch table.
    pub closed spec fn spec_vtable(self) -> usize {
        self.vtable
    }

    /// Alignment that the dispatch table records.
    pub closed spec fn spec_align(self) -> usize {
        self.align
    }

    /// Metadata for the dispatch table at `vtable`, which records the alignment
    /// `align`. There is none for a null table or an alignment of zero.
    pub fn new(vtable: usize, align: usize) -> (table: Option<TraitObject>)
        ensures
            table is Some <==> vtable != 0 && align != 0,
            table matches Some(t) ==> t.spec_vtable() == vtable && t.spec_align() == align,
    {
        if vtable != 0 && align != 0 {
            Some(TraitObject { vtable, align })
        } else {
            None
        }
    }

    /// Address of the dispatch table.
    pub fn vtable(&self) -> (vtable: usize)
        ensures
            vtable == self.spec_vtable(),
            vtable != 0,
    {
        proof {
            use_type_invariant(self);
        }
        self.vtable
    }

    /// Alignment that the dispatch table records.
    pub fn align(&self) -> (align: usize)
        ensures
            align == self.spec_align(),
            align != 0,
    {
        proof {
            use_type_invariant(self);
        }
        self.align
    }
}

} // verus!
