use vstd::prelude::*;

use crate::envelope::MessageType;
use crate::json::JsonValue;

verus! {

/// One protocol message with every field a frame can carry.
#[derive(Debug, PartialEq, Eq)]
pub struct OcppDatagram {
    /// Unique message id, by convention at most 36 characters.
    pub id: String,
    pub msg_type: MessageType,
    /// Payload of the action or result; for an error reply, its details.
    pub payload: JsonValue,
    /// The action name, case-sensitive.
    pub action: String,
    /// Only for an error reply.
    pub error_code: String,
    /// Only for an error reply.
    pub error_description: String,
}

impl OcppDatagram {
    /// An empty call: empty texts and a `null` payload.
    pub fn new() -> (r: Self)
        ensures
            r.id@.len() == 0,
            r.msg_type == MessageType::Call,
            r.payload == JsonValue::Null,
            r.action@.len() == 0,
            r.error_code@.len() == 0,
            r.error_description@.len() == 0,
    {
        OcppDatagram {
            id: String::new(),
            msg_type: MessageType::Call,
            payload: JsonValue::Null,
            action: String::new(),
            error_code: String::new(),
            error_description: String::new(),
        }
    }
}

} // verus!
