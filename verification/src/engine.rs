//! The engine's own types that pass through the client.
//!
//! Values of these types are handed on as they are; the client never looks
//! inside one.

use vstd::prelude::*;

verus! {

/// An engine handle for one transfer (`curl::easy::Easy`).
#[verifier::external_type_specification]
#[verifier::external_body]
pub struct ExEasy(curl::easy::Easy);

/// The engine's list of strings (`curl::easy::List`).
#[verifier::external_type_specification]
#[verifier::external_body]
pub struct ExList(curl::easy::List);

/// The engine's error for a call on a handle (`curl::Error`).
#[verifier::external_type_specification]
#[verifier::external_body]
pub struct ExEngineError(curl::Error);

} // verus!
