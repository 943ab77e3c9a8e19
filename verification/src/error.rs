//! Errors of the Shariah validator.
use vstd::prelude::*;

use crate::types::ViolationCode;

verus! {

/// Errors raised around a validation.
#[derive(Debug, Clone, PartialEq)]
pub enum ShariahError {
    /// A Shariah rule is violated on a field.
    Violation { code: ViolationCode, field: String, message: String },
    /// A generic validation error (invalid parameters, for instance).
    ValidationError(String),
    /// The Hyperledger Fabric ledger could not be consulted, or refused.
    FabricError(String),
    /// The Nym mixnet could not be reached.
    NymError(String),
    /// A contract or a report could not be (de)serialised.
    SerializationError(String),
}

} // verus!
