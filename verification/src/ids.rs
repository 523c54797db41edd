//! Opaque entity identifiers.
//!
//! Every entity id and user/group reference in the system is a UUID-shaped
//! opaque token; the core only ever compares them for equality, so it carries
//! them as 128-bit integers.

use vstd::prelude::*;

verus! {

/// An opaque, equality-comparable entity identifier.
pub type Id = u128;

/// Relies on `uuid::Uuid::new_v4` to draw a fresh random identifier;
/// nothing is promised of the result.
#[verifier::external_body]
pub fn fresh_id() -> Id {
    uuid::Uuid::new_v4().as_u128()
}

} // verus!
