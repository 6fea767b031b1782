//! Pointers taken apart and put together again.
//!
//! A pointer to a value is an address and, for some types, a second word of
//! metadata: nothing for a sized value, the number of elements for a slice or a
//! `str`, the dispatch table for a trait object. This crate names those three
//! shapes ([`MetaType`]), gives each its metadata type ([`Concrete`], [`Slice`],
//! [`TraitObject`]) and, through the trait [`Type`], tells for a type which
//! shape its pointers have, splits a pointer into address and metadata, joins
//! the two again and makes pointers that are aligned and non-null but point at
//! nothing.
//!
//! Pointers are held as plain values ([`Pointer`]): the crate computes with
//! addresses and never reads or writes through one.
//!
//! Two helpers stand beside this: [`try_type_coerce`] moves a value from one
//! type parameter to another when both are the same type, and [`type_id`]
//! gives a type a 64-bit identifier.

pub mod coerce;
pub mod ident;
pub mod layout;
pub mod meta;
pub mod pointer;
pub mod shape;
pub mod types;

pub use coerce::{coerced, spec_coerced, try_type_coerce};
pub use ident::{spec_token_id, token_feed, token_id, type_id};
pub use layout::{layouts_match, same_layout};
pub use meta::{Concrete, Slice, TraitObject};
pub use pointer::Pointer;
pub use shape::MetaType;
pub use types::{Dynamic, Type, PROBE_ADDRESS};
