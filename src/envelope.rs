use vstd::prelude::*;

use crate::error::DecodeError;
use crate::json::{JsonNumber, JsonValue};

verus! {

/// The correlation id that ties a reply to the call it answers; compared and
/// hashed by its text.
#[derive(Debug, Clone, PartialEq, Eq, Hash)]
pub struct CallId(pub String);

/// The message type that element 0 of a frame encodes.
#[derive(Debug, Clone, Copy, PartialEq, Eq)]
pub enum MessageType {
    /// Code 2: a call initiated by the peer, expecting a reply.
    Call,
    /// Code 3: the reply to a call this side issued.
    CallResult,
    /// Code 4: the error reply to a call this side issued.
    CallError,
}

impl MessageType {
    pub open spec fn spec_from_code(code: u8) -> Option<MessageType> {
        if code == 2 {
            Some(MessageType::Call)
        } else if code == 3 {
            Some(MessageType::CallResult)
        } else if code == 4 {
            Some(MessageType::CallError)
        } else {
            None
        }
    }

    pub open spec fn spec_code(self) -> u8 {
        match self {
            MessageType::Call => 2,
            MessageType::CallResult => 3,
            MessageType::CallError => 4,
        }
    }

    /// The message type with the wire code `code`, if there is one.
    pub fn from_code(code: u8) -> (r: Option<MessageType>)
        ensures
            r == Self::spec_from_code(code),
    {
        if code == 2 {
            Some(MessageType::Call)
        } else if code == 3 {
            Some(MessageType::CallResult)
        } else if code == 4 {
            Some(MessageType::CallError)
        } else {
            None
        }
    }

    /// The wire code of this message type.
    pub fn code(&self) -> (r: u8)
        ensures
            r == self.spec_code(),
            Self::spec_from_code(r) == Some(*self),
    {
        match self {
            MessageType::Call => 2,
            MessageType::CallResult => 3,
            MessageType::CallError => 4,
        }
    }
}

/// A frame taken apart by position: `[message_type, call_id, action, payload]`.
#[derive(Debug, PartialEq, Eq)]
pub struct RawOcppMessage {
    pub message_type: u8,
    pub call_id: String,
    pub action: String,
    pub payload: JsonValue,
}

/// The message type code held by `v`: an integer in `0..=255`.
pub open spec fn type_code_of(v: JsonValue) -> Option<u8> {
    match v {
        JsonValue::Number(JsonNumber::PosInt(u)) => if u <= 255 {
            Some(u as u8)
        } else {
            None
        },
        _ => None,
    }
}

/// The text held by `v`, where `v` is a string.
pub open spec fn text_of(v: JsonValue) -> Option<String> {
    match v {
        JsonValue::String(s) => Some(s),
        _ => None,
    }
}

/// Whether `frame` is an array of exactly four elements.
pub open spec fn is_four_array(frame: JsonValue) -> bool {
    frame matches JsonValue::Array(items) && items@.len() == 4
}

/// The envelope decoding of `frame`.
pub open spec fn spec_envelope(frame: JsonValue) -> Result<RawOcppMessage, DecodeError> {
    match frame {
        JsonValue::Array(items) => if items@.len() != 4 {
            Err(DecodeError::MalformedEnvelope)
        } else {
            match type_code_of(items@[0]) {
                None => Err(DecodeError::InvalidMessageTypeCode),
                Some(code) => match text_of(items@[1]) {
                    None => Err(DecodeError::InvalidCorrelationId),
                    Some(call_id) => match text_of(items@[2]) {
                        None => Err(DecodeError::InvalidAction),
                        Some(action) => Ok(
                            RawOcppMessage { message_type: code, call_id, action, payload: items@[3] },
                        ),
                    },
                },
            }
        },
        _ => Err(DecodeError::MalformedEnvelope),
    }
}

impl RawOcppMessage {
    /// Takes a frame apart by position. The payload is kept as it is, whatever its shape.
    pub fn from_json(frame: JsonValue) -> (r: Result<RawOcppMessage, DecodeError>)
        ensures
            r == spec_envelope(frame),
    {
        match frame {
            JsonValue::Array(mut items) => {
                if items.len() != 4 {
                    return Err(DecodeError::MalformedEnvelope);
                }
                let payload = items.pop().unwrap();
                let action = items.pop().unwrap();
                let call_id = items.pop().unwrap();
                let code = items.pop().unwrap();
                let message_type: u8 = match code {
                    JsonValue::Number(JsonNumber::PosInt(u)) => {
                        if u > 255 {
                            return Err(DecodeError::InvalidMessageTypeCode);
                        }
                        u as u8
                    },
                    _ => {
                        return Err(DecodeError::InvalidMessageTypeCode);
                    },
                };
                let call_id = match call_id {
                    JsonValue::String(s) => s,
                    _ => {
                        return Err(DecodeError::InvalidCorrelationId);
                    },
                };
                let action = match action {
                    JsonValue::String(s) => s,
                    _ => {
                        return Err(DecodeError::InvalidAction);
                    },
                };
                Ok(RawOcppMessage { message_type, call_id, action, payload })
            },
            _ => Err(DecodeError::MalformedEnvelope),
        }
    }
}

/// A frame whose message type has been recognised.
#[derive(Debug, PartialEq, Eq)]
pub struct TypedOcppMessage {
    pub message_type: MessageType,
    pub call_id: CallId,
    pub action: String,
    pub payload: JsonValue,
}

/// The classification of an envelope by its message type code.
pub open spec fn spec_classify(raw: RawOcppMessage) -> Result<TypedOcppMessage, DecodeError> {
    match MessageType::spec_from_code(raw.message_type) {
        None => Err(DecodeError::UnknownMessageTypeCode(raw.message_type)),
        Some(t) => Ok(
            TypedOcppMessage {
                message_type: t,
                call_id: CallId(raw.call_id),
                action: raw.action,
                payload: raw.payload,
            },
        ),
    }
}

/// Envelope decoding followed by classification.
pub open spec fn spec_typed(frame: JsonValue) -> Result<TypedOcppMessage, DecodeError> {
    match spec_envelope(frame) {
        Err(e) => Err(e),
        Ok(raw) => spec_classify(raw),
    }
}

impl TypedOcppMessage {
    /// Recognises the message type of an envelope; action and payload pass unchanged.
    pub fn from_raw(raw: RawOcppMessage) -> (r: Result<TypedOcppMessage, DecodeError>)
        ensures
            r == spec_classify(raw),
    {
        match MessageType::from_code(raw.message_type) {
            None => Err(DecodeError::UnknownMessageTypeCode(raw.message_type)),
            Some(t) => Ok(
                TypedOcppMessage {
                    message_type: t,
                    call_id: CallId(raw.call_id),
                    action: raw.action,
                    payload: raw.payload,
                },
            ),
        }
    }

    /// Takes a frame apart by position and recognises its message type.
    pub fn from_json(frame: JsonValue) -> (r: Result<TypedOcppMessage, DecodeError>)
        ensures
            r == spec_typed(frame),
    {
        match RawOcppMessage::from_json(frame) {
            Err(e) => Err(e),
            Ok(raw) => TypedOcppMessage::from_raw(raw),
        }
    }
}

} // verus!
