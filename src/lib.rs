//! Metrics of a sled: the producer registry and the datalinks whose kernel
//! statistics are sampled.
use vstd::prelude::*;

pub mod admin;
pub mod error;
pub mod hostname;
pub mod identity;
pub mod laws;
pub mod manager;
pub mod tracker;

verus! {

/// Relies on `uuid::Uuid` only as an opaque value: the identifiers of a sled
/// and its rack are carried through, never read.
#[verifier::external_type_specification]
#[verifier::external_body]
pub struct ExUuid(uuid::Uuid);

} // verus!
