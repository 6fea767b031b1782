use crate::layout::{layouts_match, same_layout};
use vstd::prelude::*;

verus! {

/// `Any::downcast_mut`, on a slot that holds `a`: the value `a` as a `B` where
/// `A` and `B` are one type, and nothing where they are two. The contract
/// claims none of this: a contract cannot speak of one value at two types.
#[verifier::external_body]
fn downcast<A: 'static, B: 'static>(a: A) -> (b: Option<B>)
{
    let mut slot = Some(a);
    let any: &mut dyn core::any::Any = &mut slot;
    match any.downcast_mut::<Option<B>>() {
        Some(same) => same.take(),
        None => None,
    }
}

/// Move a value from one type parameter to another, where both are the same
/// type. Gives `None` where they differ; `a` is then dropped.
///
/// Whether they are the same type is for the language to say, and is asked
/// with `a` itself. Where they differ in size or alignment the answer is not
/// needed: the result is `None`. What is made of the answer, `coerced` says.
pub fn try_type_coerce<A: 'static, B: 'static>(a: A) -> (b: Option<B>)
    ensures
        b is Some ==> layouts_match::<A, B>(),
{
    let alike = same_layout::<A, B>();
    let found = downcast(a);
    coerced(alike, found)
}

/// What a coercion gives, from the two answers it rests on: `alike`, whether
/// the two types have the same size and alignment, and `found`, what the
/// language gave when asked for the value at the other type. It is `found`
/// where the types are alike, and nothing where they are not.
pub open spec fn spec_coerced<B>(alike: bool, found: Option<B>) -> Option<B> {
    if alike {
        found
    } else {
        None
    }
}

/// What a coercion gives, from the two answers it rests on: `found` where the
/// types are `alike`, and nothing where they are not.
pub fn coerced<B>(alike: bool, found: Option<B>) -> (b: Option<B>)
    ensures
        b == spec_coerced(alike, found),
{
    if alike {
        found
    } else {
        None
    }
}

} // verus!
