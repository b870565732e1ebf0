//! Errors surfaced while converting between typed values and serialized
//! records. Every failure is a recoverable result value; nothing in this
//! crate panics or aborts.

use vstd::prelude::*;

verus! {

/// A typed payload or metadata value could not be turned into a structured
/// value.
#[derive(Clone, Debug, PartialEq, Eq)]
pub enum EncodeError {
    /// The value holds something the structured representation cannot carry.
    UnsupportedValue,
}

/// A structured value did not match the shape expected for the record's
/// event type and version; carries the record's identity for diagnosability.
#[derive(Clone, Debug, PartialEq, Eq)]
pub struct DecodeError {
    /// The aggregate instance whose record failed to decode.
    pub aggregate_id: String,
    /// The sequence number of the record that failed to decode.
    pub sequence: usize,
}

/// The general persistence error surfaced to callers.
#[derive(Clone, Debug, PartialEq, Eq)]
pub enum PersistenceError {
    /// Encoding a typed value failed.
    Encode(EncodeError),
    /// Decoding a serialized record failed.
    Decode(DecodeError),
}

} // verus!
