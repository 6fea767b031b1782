use crate::meta::{Concrete, Slice};
use crate::types::Type;
use vstd::layout::{align_of, size_of, spec_align_of_val, spec_size_of_val};
use vstd::prelude::*;
use vstd::string::StringSliceAdditionalSpecFns;

verus! {

/// A pointer as two plain values: the address of the data and the metadata
/// that stands beside it.
#[derive(PartialEq, Eq, Debug)]
pub struct Pointer<M> {
    /// Address of the data.
    pub addr: usize,
    /// What else the pointer holds.
    pub meta: M,
}

impl<M: Copy> Copy for Pointer<M> {
}

impl<M: Copy> Clone for Pointer<M> {
    fn clone(&self) -> (p: Self)
        ensures
            p == *self,
    {
        *self
    }
}

impl<M> Pointer<M> {
    /// The pointer with the address `addr` and the metadata `meta`.
    pub open spec fn join(addr: usize, meta: M) -> Pointer<M> {
        Pointer { addr, meta }
    }

    /// A pointer that may stand for a reference to a value of the alignment
    /// `align`, as far as its address goes: it is not null and is a multiple
    /// of `align`. Whether a value lies there is not said.
    pub open spec fn aligned_to(self, align: nat) -> bool {
        self.addr != 0 && self.addr as nat % align == 0
    }
}

/// `core::ptr::from_ref`, by the address of what it gives, which is exposed
/// so that a pointer made from it later may be used. A reference is never
/// null and is aligned for its type; which address it holds depends on where
/// the value lies.
#[verifier::external_body]
fn address_of<T>(r: &T) -> (addr: usize)
    ensures
        addr != 0,
        addr as nat % align_of::<T>() == 0,
{
    core::ptr::from_ref(r).expose_provenance()
}

/// `<[T]>::as_ptr`, by the address of what it gives, which is exposed so that
/// a pointer made from it later may be used: where the first element lies or,
/// in an empty slice, would lie. It is never null and is aligned for an
/// element.
#[verifier::external_body]
fn address_of_slice<T>(s: &[T]) -> (addr: usize)
    ensures
        addr != 0,
        addr as nat % align_of::<T>() == 0,
{
    s.as_ptr().expose_provenance()
}

impl Pointer<Concrete> {
    /// The pointer that the reference `r` is: the address of the value, and no
    /// metadata.
    pub fn from_ref<T>(r: &T) -> (p: Pointer<Concrete>)
        ensures
            p.meta == Concrete,
            p.aligned_to(<T as Type>::align(p.meta)),
    {
        Pointer { addr: address_of(r), meta: Concrete }
    }
}

impl Pointer<Slice> {
    /// The pointer that the slice `s` is: its address and the number of its
    /// elements. That number times the size of an element is the size of the
    /// slice in bytes, and the slice is aligned as its elements are.
    pub fn from_slice<T>(s: &[T]) -> (p: Pointer<Slice>)
        ensures
            p.meta.len == s@.len(),
            p.meta.len * size_of::<T>() == spec_size_of_val::<[T]>(s),
            p.meta.len * size_of::<T>() <= usize::MAX,
            <[T] as Type>::align(p.meta) == spec_align_of_val::<[T]>(s),
            p.aligned_to(<[T] as Type>::align(p.meta)),
    {
        broadcast use vstd::layout::layout_of_slices;
        broadcast use vstd::slice::group_slice_axioms;

        let len: usize = s.len();
        let size: usize = core::mem::size_of_val(s);
        let align: usize = core::mem::align_of_val(s);
        assert(size == len * size_of::<T>() && align == align_of::<T>());
        Pointer { addr: address_of_slice(s), meta: Slice { len } }
    }

    /// The pointer that the string `s` is: its address and its length in
    /// bytes, which is its size, at the alignment of a byte.
    ///
    /// A `str` lies in memory as its bytes do. That its size is its length in
    /// bytes is asked of the language when the pointer is made, and there is
    /// no pointer where the language says otherwise.
    pub fn from_str(s: &str) -> (p: Option<Pointer<Slice>>)
        ensures
            p is Some <==> spec_size_of_val::<str>(s) == s.spec_bytes().len(),
            p matches Some(q) ==> {
                &&& q.meta.len == s.spec_bytes().len()
                &&& q.meta.len * size_of::<u8>() == spec_size_of_val::<str>(s)
                &&& spec_align_of_val::<str>(s) == 1
                &&& <str as Type>::align(q.meta) == spec_align_of_val::<str>(s)
                &&& q.aligned_to(<str as Type>::align(q.meta))
            },
    {
        broadcast use vstd::layout::layout_of_primitives;
        broadcast use vstd::layout::layout_of_str;
        broadcast use vstd::layout::align_of_u8;

        let q = Pointer::from_slice(s.as_bytes());
        let size: usize = core::mem::size_of_val(s);
        if size == q.meta.len {
            Some(q)
        } else {
            None
        }
    }
}

/// A pointer that is split into address and metadata and joined again is the
/// pointer it was: the same address and the same metadata, so for a trait
/// object the same dispatch table and for a slice the same length.
pub proof fn lemma_split_then_join<M>(p: Pointer<M>)
    ensures
        Pointer::join(p.addr, p.meta) == p,
{
}

/// A pointer that is joined from an address and metadata and split again
/// gives that address and that metadata.
pub proof fn lemma_join_then_split<M>(addr: usize, meta: M)
    ensures
        Pointer::join(addr, meta).addr == addr,
        Pointer::join(addr, meta).meta == meta,
{
}

} // verus!
