use vstd::prelude::*;

verus! {

/// The shape a schema field was expected to have.
#[derive(Debug, Clone, Copy, PartialEq, Eq)]
pub enum ValueKind {
    String,
    UnsignedInteger,
    Object,
}

/// Why a frame could not be decoded.
#[derive(Debug, Clone, PartialEq, Eq)]
pub enum DecodeError {
    /// The frame is not an array of exactly four elements.
    MalformedEnvelope,
    /// Element 0 is not an integer in `0..=255`.
    InvalidMessageTypeCode,
    /// Element 0 is an integer that names no message type.
    UnknownMessageTypeCode(u8),
    /// Element 1 is not a string.
    InvalidCorrelationId,
    /// Element 2 is not a string.
    InvalidAction,
    /// The payload of a registered action lacks a required field.
    SchemaFieldMissing { action: String, field: &'static str },
    /// A field of a registered action's payload has the wrong shape.
    SchemaFieldTypeMismatch { action: String, field: &'static str, expected: ValueKind },
}

} // verus!
