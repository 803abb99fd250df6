//! Decoding of charging-station protocol frames, `[message_type, call_id,
//! action, payload]`, into typed events: envelope, message type, and a
//! per-action schema for replies, with a pass-through for unknown actions.
pub mod datagram;
pub mod envelope;
pub mod error;
pub mod event;
pub mod json;
pub mod outbound;
pub mod schema;
pub mod types;

pub use datagram::OcppDatagram;
pub use envelope::{CallId, MessageType, RawOcppMessage, TypedOcppMessage};
pub use error::{DecodeError, ValueKind};
pub use event::{convert, decode, OcppEvent, OcppMessage};
pub use json::{JsonNumber, JsonValue, Member};
pub use outbound::{
    AuthorizeRequest, BootNotificationRequest, ConnectRequest, HeartbeatRequest, OcppRequest,
};
pub use schema::{
    BootNotificationResponse, CancelReservationResponse, ClearCacheResponse, OcppResponse,
    StatusInfo,
};
pub use types::{Measurand, MeterValue, ReadingContext, SampledValue};
