use core::any::TypeId;
use core::hash::{Hash, Hasher};
use std::collections::hash_map::DefaultHasher;
use vstd::prelude::*;
use vstd::std_specs::hash::DefaultHasherAdditionalSpecFns;

verus! {

/// The token by which the language tells types apart. Nothing is known of
/// what is inside one.
#[verifier::external_type_specification]
#[verifier::external_body]
pub struct ExTypeId(TypeId);

/// What a token feeds to a hasher when it is hashed: the writes, in order.
/// One token feeds the same whenever it is hashed.
pub uninterp spec fn token_feed(token: TypeId) -> Seq<Seq<u8>>;

/// The identifier of the type that `token` stands for: what a fresh default
/// hasher gives after the token has been fed to it.
pub open spec fn spec_token_id(token: TypeId) -> u64 {
    DefaultHasher::spec_finish(token_feed(token))
}

/// `TypeId::of`: the token of the type `T`. The contract claims nothing of
/// it: for all it says, two calls for one type may give two tokens.
pub assume_specification<T: ?Sized + 'static>[ TypeId::of::<T> ]() -> (token: TypeId)
;

/// `Hash::hash` of a `TypeId`: feeds the token to the hasher. What the hasher
/// was fed before stays, and after it comes what the token feeds.
#[verifier::external_body]
fn feed(token: &TypeId, state: &mut DefaultHasher)
    ensures
        final(state)@ == old(state)@ + token_feed(*token),
{
    token.hash(state)
}

/// An identifier for the type `T`: the identifier of its token.
///
/// It is the same for the same type wherever in a program it is asked for,
/// and is not kept from one build of the program to the next. The contract
/// ties it to a token and not to `T`: that one type has one token is the
/// language's word, and `token_id` says the rest.
pub fn type_id<T: ?Sized + 'static>() -> (id: u64)
    ensures
        exists|token: TypeId| id == spec_token_id(token),
{
    let token = TypeId::of::<T>();
    token_id(&token)
}

/// The identifier of the type that `token` stands for.
pub fn token_id(token: &TypeId) -> (id: u64)
    ensures
        id == spec_token_id(*token),
{
    let mut hasher = DefaultHasher::new();
    feed(token, &mut hasher);
    assert(hasher@ =~= token_feed(*token));
    hasher.finish()
}

/// One token has one identifier: whenever and wherever two identifiers are
/// made from the same token, they are the same.
pub proof fn lemma_same_token_same_id(first: TypeId, second: TypeId)
    requires
        first == second,
    ensures
        spec_token_id(first) == spec_token_id(second),
{
}

} // verus!
