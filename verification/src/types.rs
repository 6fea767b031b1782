use crate::meta::{Concrete, Slice, TraitObject};
use crate::pointer::Pointer;
use crate::shape::MetaType;
use vstd::layout::align_of;
use vstd::prelude::*;

verus! {

/// An address that is not null and is a multiple of 64, at which the
/// candidate pointer of a trait object is placed while its alignment is asked
/// for.
pub const PROBE_ADDRESS: usize = 64;

/// A value that is used through a dispatch table only. Every sized type is
/// one, so a reference to any value can be widened to `&dyn Dynamic`.
pub trait Dynamic {
}

impl<T> Dynamic for T {
}

/// What a type says of the pointers to its values: their shape, their
/// metadata, and how to split them, join them and make one that points at nothing.
///
/// Sized types, slices, `str` and `dyn Dynamic` have it. It can be given to
/// another trait object type by taking the implementation for `dyn Dynamic` as
/// it stands.
pub trait Type {
    /// The metadata of a pointer to `Self`.
    type Meta: Copy + 'static;

    /// The shape of a pointer to `Self`.
    const METATYPE: MetaType;

    /// The alignment of a value of `Self` whose pointer holds the metadata `t`.
    spec fn align(t: Self::Meta) -> nat;

    /// The shape of the pointer `this`.
    fn meta_type(this: &Pointer<Self::Meta>) -> (shape: MetaType)
        ensures
            shape == Self::METATYPE,
    {
        Self::METATYPE
    }

    /// The metadata of the pointer `this`.
    fn meta(this: &Pointer<Self::Meta>) -> (t: Self::Meta)
        ensures
            t == this.meta,
    {
        this.meta
    }

    /// The address of the data that `this` points to.
    fn data(this: &Pointer<Self::Meta>) -> (addr: usize)
        ensures
            addr == this.addr,
    {
        this.addr
    }

    /// The address of the data that `this` points to, for a pointer that is
    /// written through.
    fn data_mut(this: &mut Pointer<Self::Meta>) -> (addr: usize)
        ensures
            addr == old(this).addr,
            *final(this) == *old(this),
    {
        this.addr
    }

    /// The alignment of the value that `this` points to. The value is not
    /// read: the answer comes from the type and the metadata.
    fn align_of_val(this: &Pointer<Self::Meta>) -> (align: usize)
        ensures
            align as nat == Self::align(this.meta),
            align != 0,
    ;

    /// A pointer with the metadata `t` that points at nothing: its address is
    /// not null and is aligned for the value it would point to.
    fn dangling(t: Self::Meta) -> (p: Pointer<Self::Meta>)
        ensures
            p.meta == t,
            p.aligned_to(Self::align(t)),
    ;

    /// The pointer to the data at `thin` with the metadata `t`.
    fn fatten(thin: usize, t: Self::Meta) -> (p: Pointer<Self::Meta>)
        ensures
            p == Pointer::join(thin, t),
    {
        Pointer { addr: thin, meta: t }
    }
}

/// `NonNull::<T>::dangling`, by its address: not null, and aligned for `T`.
/// Which aligned address it is, is left open.
#[verifier::external_body]
fn dangling_address<T>() -> (addr: usize)
    ensures
        addr != 0,
        addr as nat % align_of::<T>() == 0,
{
    core::ptr::NonNull::<T>::dangling().addr().get()
}

impl<T> Type for T {
    type Meta = Concrete;

    const METATYPE: MetaType = MetaType::Concrete;

    open spec fn align(t: Concrete) -> nat {
        align_of::<T>()
    }

    fn align_of_val(this: &Pointer<Concrete>) -> (align: usize) {
        broadcast use vstd::layout::align_nonzero;

        core::mem::align_of::<T>()
    }

    fn dangling(t: Concrete) -> (p: Pointer<Concrete>) {
        Self::fatten(dangling_address::<T>(), t)
    }
}

impl<T> Type for [T] {
    type Meta = Slice;

    const METATYPE: MetaType = MetaType::Slice;

    open spec fn align(t: Slice) -> nat {
        align_of::<T>()
    }

    fn align_of_val(this: &Pointer<Slice>) -> (align: usize) {
        broadcast use vstd::layout::align_nonzero;

        core::mem::align_of::<T>()
    }

    fn dangling(t: Slice) -> (p: Pointer<Slice>) {
        Self::fatten(dangling_address::<T>(), t)
    }
}

impl Type for str {
    type Meta = Slice;

    const METATYPE: MetaType = MetaType::Slice;

    open spec fn align(t: Slice) -> nat {
        align_of::<u8>()
    }

    fn align_of_val(this: &Pointer<Slice>) -> (align: usize) {
        <[u8] as Type>::align_of_val(this)
    }

    fn dangling(t: Slice) -> (p: Pointer<Slice>) {
        <[u8] as Type>::dangling(t)
    }
}

impl Type for dyn Dynamic {
    type Meta = TraitObject;

    const METATYPE: MetaType = MetaType::TraitObject;

    open spec fn align(t: TraitObject) -> nat {
        t.spec_align() as nat
    }

    fn align_of_val(this: &Pointer<TraitObject>) -> (align: usize) {
        this.meta.align()
    }

    /// The alignment is known only to the dispatch table, and is asked for
    /// through a pointer. So a candidate is made first, at an address that is
    /// aligned for most types and perhaps not for this one; its alignment is
    /// asked for; and that alignment is the address of the pointer returned.
    fn dangling(t: TraitObject) -> (p: Pointer<TraitObject>)
        ensures
            p.addr == t.spec_align(),
    {
        let candidate = Self::fatten(PROBE_ADDRESS, t);
        let align: usize = Self::align_of_val(&candidate);
        assert(align as nat % align as nat == 0) by (nonlinear_arith)
            requires
                align != 0,
        ;
        Self::fatten(align, t)
    }
}

/// A pointer to a value of a sized type is an address and nothing more.
pub proof fn lemma_sized_is_concrete<T>()
    ensures
        <T as Type>::METATYPE == MetaType::Concrete,
{
}

/// A pointer to a slice is an address and a length, whatever the elements.
pub proof fn lemma_slice_is_slice<T>()
    ensures
        <[T] as Type>::METATYPE == MetaType::Slice,
{
}

/// A pointer to a `str` is an address and a length, as a pointer to its bytes
/// is. It is not taken for a pointer to a trait object, though a `str` has no
/// size known at compile time either.
pub proof fn lemma_str_is_slice()
    ensures
        <str as Type>::METATYPE == MetaType::Slice,
        <str as Type>::METATYPE == <[u8] as Type>::METATYPE,
{
}

/// A pointer to a trait object is an address and a dispatch table.
pub proof fn lemma_dynamic_is_trait_object()
    ensures
        <dyn Dynamic as Type>::METATYPE == MetaType::TraitObject,
{
}

/// A pointer that points at nothing is aligned as the question for the
/// alignment of its value says: when `p` is what `dangling` gives for `t` and
/// `align` is what `align_of_val` gives for `p`, the address of `p` is not
/// null and is a multiple of `align`. This holds whatever the shape.
pub proof fn lemma_dangling_is_aligned<S: Type + ?Sized>(
    t: S::Meta,
    p: Pointer<S::Meta>,
    align: usize,
)
    requires
        p.meta == t,
        p.aligned_to(S::align(t)),
        align as nat == S::align(p.meta),
    ensures
        p.addr != 0,
        p.addr as nat % align as nat == 0,
{
}

/// A `str` is aligned as a byte is: at every address.
pub proof fn lemma_str_alignment(t: Slice)
    ensures
        <str as Type>::align(t) == 1,
{
    broadcast use vstd::layout::align_of_u8;

}

} // verus!
