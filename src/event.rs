use vstd::prelude::*;

use crate::envelope::{
    is_four_array, spec_classify, spec_envelope, CallId, MessageType, RawOcppMessage,
    TypedOcppMessage,
};
use crate::error::DecodeError;
use crate::json::{JsonNumber, JsonValue};
use crate::schema::{is_registered, spec_resolve, OcppResponse};

verus! {

/// A decoded message, by category.
#[derive(Debug, PartialEq, Eq)]
pub enum OcppMessage {
    /// A call initiated by the peer: its action and its payload, untyped.
    Call(String, JsonValue),
    /// An error reply: its action and its payload, untyped.
    Request(String, JsonValue),
    /// A reply to a call this side issued, typed by its action.
    Response(OcppResponse),
}

/// One decoded frame.
#[derive(Debug, PartialEq, Eq)]
pub struct OcppEvent {
    /// Call id, e.g. `"19223201"`.
    pub call_id: CallId,
    /// Message type, action and payload, combined into one value.
    pub message: OcppMessage,
}

/// The category of a message type: `Call` for code 2, `Response` for code 3,
/// `Request` for code 4.
pub open spec fn spec_categorize(typed: TypedOcppMessage) -> Result<OcppEvent, DecodeError> {
    match typed.message_type {
        MessageType::Call => Ok(
            OcppEvent { call_id: typed.call_id, message: OcppMessage::Call(typed.action, typed.payload) },
        ),
        MessageType::CallError => Ok(
            OcppEvent {
                call_id: typed.call_id,
                message: OcppMessage::Request(typed.action, typed.payload),
            },
        ),
        MessageType::CallResult => match spec_resolve(typed.action, typed.payload) {
            Err(e) => Err(e),
            Ok(reply) => Ok(OcppEvent { call_id: typed.call_id, message: OcppMessage::Response(reply) }),
        },
    }
}

/// Classification and resolution of an envelope.
pub open spec fn spec_convert(raw: RawOcppMessage) -> Result<OcppEvent, DecodeError> {
    match spec_classify(raw) {
        Err(e) => Err(e),
        Ok(typed) => spec_categorize(typed),
    }
}

/// The whole decoding of a frame.
pub open spec fn spec_decode(frame: JsonValue) -> Result<OcppEvent, DecodeError> {
    match spec_envelope(frame) {
        Err(e) => Err(e),
        Ok(raw) => spec_convert(raw),
    }
}

impl OcppEvent {
    /// Sorts a typed message into its category; only replies are resolved by action.
    pub fn from_typed(typed: TypedOcppMessage) -> (r: Result<OcppEvent, DecodeError>)
        ensures
            r == spec_categorize(typed),
    {
        match typed.message_type {
            MessageType::Call => Ok(
                OcppEvent {
                    call_id: typed.call_id,
                    message: OcppMessage::Call(typed.action, typed.payload),
                },
            ),
            MessageType::CallError => Ok(
                OcppEvent {
                    call_id: typed.call_id,
                    message: OcppMessage::Request(typed.action, typed.payload),
                },
            ),
            MessageType::CallResult => match OcppResponse::from_action(typed.action, typed.payload) {
                Err(e) => Err(e),
                Ok(reply) => Ok(
                    OcppEvent { call_id: typed.call_id, message: OcppMessage::Response(reply) },
                ),
            },
        }
    }
}

/// Turns an envelope into an event.
pub fn convert(raw: RawOcppMessage) -> (r: Result<OcppEvent, DecodeError>)
    ensures
        r == spec_convert(raw),
{
    match TypedOcppMessage::from_raw(raw) {
        Err(e) => Err(e),
        Ok(typed) => OcppEvent::from_typed(typed),
    }
}

/// Decodes one frame, `[message_type, call_id, action, payload]`, into an event.
pub fn decode(frame: JsonValue) -> (r: Result<OcppEvent, DecodeError>)
    ensures
        r == spec_decode(frame),
{
    match RawOcppMessage::from_json(frame) {
        Err(e) => Err(e),
        Ok(raw) => convert(raw),
    }
}

/// A frame that is not an array of exactly four elements is rejected as a
/// malformed envelope, and no event comes of it.
pub proof fn lemma_wrong_arity_is_malformed(frame: JsonValue)
    requires
        !is_four_array(frame),
    ensures
        spec_decode(frame) == Err::<OcppEvent, DecodeError>(DecodeError::MalformedEnvelope),
{
}

/// Each of the three message type codes leads to exactly one category, and
/// every other code is rejected with the code itself.
pub proof fn lemma_code_decides_category(frame: JsonValue, raw: RawOcppMessage)
    requires
        spec_envelope(frame) == Ok::<RawOcppMessage, DecodeError>(raw),
    ensures
        raw.message_type == 2 ==> spec_decode(frame) == Ok::<OcppEvent, DecodeError>(
            OcppEvent {
                call_id: CallId(raw.call_id),
                message: OcppMessage::Call(raw.action, raw.payload),
            },
        ),
        raw.message_type == 4 ==> spec_decode(frame) == Ok::<OcppEvent, DecodeError>(
            OcppEvent {
                call_id: CallId(raw.call_id),
                message: OcppMessage::Request(raw.action, raw.payload),
            },
        ),
        raw.message_type == 3 ==> spec_decode(frame) == match spec_resolve(raw.action, raw.payload) {
            Err(e) => Err(e),
            Ok(reply) => Ok(
                OcppEvent { call_id: CallId(raw.call_id), message: OcppMessage::Response(reply) },
            ),
        },
        !(raw.message_type == 2 || raw.message_type == 3 || raw.message_type == 4)
            ==> spec_decode(frame) == Err::<OcppEvent, DecodeError>(
            DecodeError::UnknownMessageTypeCode(raw.message_type),
        ),
{
}

/// A reply whose action has no registered schema always decodes: to `Other`,
/// with the action and the payload exactly as the frame holds them.
pub proof fn lemma_unregistered_action_decodes(
    frame: JsonValue,
    call_id: String,
    action: String,
    payload: JsonValue,
)
    requires
        frame matches JsonValue::Array(items) && items@ == seq![
            JsonValue::Number(JsonNumber::PosInt(3)),
            JsonValue::String(call_id),
            JsonValue::String(action),
            payload,
        ],
        !is_registered(action@),
    ensures
        spec_decode(frame) == Ok::<OcppEvent, DecodeError>(
            OcppEvent {
                call_id: CallId(call_id),
                message: OcppMessage::Response(OcppResponse::Other(action, payload)),
            },
        ),
{
}

} // verus!
