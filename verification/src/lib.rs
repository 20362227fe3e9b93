//! A typed handle store for drawable objects.
//!
//! A [`store::Canvas`] owns a sequence of slots, each holding one drawable
//! object or nothing. Insertion appends a slot and hands back an opaque
//! [`store::ObjectID`] handle carrying the store's identity, the slot
//! index and the object's type tag; every later access checks all three
//! and is refused with an exact [`store::AccessError`] when any check
//! fails. Removal hands the object back by value and leaves the slot
//! permanently empty: slot indices are never reused.
//!
//! The laws the store obeys — insertion order, round trips through a
//! handle, tombstoned slots, identity checking, and how mutation and
//! removal show up in the next rendering — are stated and proved in
//! [`laws`].

pub mod laws;
pub mod shapes;
pub mod store;
