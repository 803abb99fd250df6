use vstd::prelude::*;

use crate::error::{DecodeError, ValueKind};
use crate::json::{take_field, text_eq, JsonNumber, JsonValue, Member};

verus! {

/// Reply to a BootNotification call.
#[derive(Debug, PartialEq, Eq)]
pub struct BootNotificationResponse {
    pub status: String,
    pub current_time: String,
    pub interval: u32,
}

/// Reply to a CancelReservation call.
#[derive(Debug, PartialEq, Eq)]
pub struct CancelReservationResponse {
    pub custom_data: Option<JsonValue>,
    pub reservation_id: u32,
}

/// Reply to a ClearCache call.
#[derive(Debug, PartialEq, Eq)]
pub struct ClearCacheResponse {
    pub custom_data: Option<JsonValue>,
    pub status: String,
    pub status_info: Option<StatusInfo>,
}

/// Details on the status of a reply.
#[derive(Debug, PartialEq, Eq)]
pub struct StatusInfo {
    pub custom_data: Option<JsonValue>,
    pub reason_code: String,
    pub additional_info: String,
}

/// The payload of a reply, typed by the action it answers.
#[derive(Debug, PartialEq, Eq)]
pub enum OcppResponse {
    BootNotification(BootNotificationResponse),
    CancelReservation(CancelReservationResponse),
    ClearCache(ClearCacheResponse),
    /// An action without a registered schema: its name and payload, unchanged.
    Other(String, JsonValue),
}

// ----------- Field readers -----------
//
// A payload that is not an object has no fields. Wire names are camelCase;
// each schema below names them once, beside the record field they fill.

/// A required string field.
pub open spec fn text_field(action: String, found: Option<JsonValue>, name: &'static str) -> Result<
    String,
    DecodeError,
> {
    match found {
        None => Err(DecodeError::SchemaFieldMissing { action, field: name }),
        Some(JsonValue::String(s)) => Ok(s),
        Some(_) => Err(
            DecodeError::SchemaFieldTypeMismatch { action, field: name, expected: ValueKind::String },
        ),
    }
}

/// A required field holding an integer in `0..=u32::MAX`.
pub open spec fn u32_field(action: String, found: Option<JsonValue>, name: &'static str) -> Result<
    u32,
    DecodeError,
> {
    match found {
        None => Err(DecodeError::SchemaFieldMissing { action, field: name }),
        Some(JsonValue::Number(JsonNumber::PosInt(u))) if u <= u32::MAX => Ok(u as u32),
        Some(_) => Err(
            DecodeError::SchemaFieldTypeMismatch {
                action,
                field: name,
                expected: ValueKind::UnsignedInteger,
            },
        ),
    }
}

/// An optional field of any shape; `null` counts as absent.
pub open spec fn opaque_field(found: Option<JsonValue>) -> Option<JsonValue> {
    match found {
        Some(JsonValue::Null) => None,
        other => other,
    }
}

fn read_text(action: &String, found: Option<JsonValue>, name: &'static str) -> (r: Result<
    String,
    DecodeError,
>)
    ensures
        r == text_field(*action, found, name),
{
    match found {
        None => Err(DecodeError::SchemaFieldMissing { action: action.clone(), field: name }),
        Some(JsonValue::String(s)) => Ok(s),
        Some(_) => Err(
            DecodeError::SchemaFieldTypeMismatch {
                action: action.clone(),
                field: name,
                expected: ValueKind::String,
            },
        ),
    }
}

fn read_u32(action: &String, found: Option<JsonValue>, name: &'static str) -> (r: Result<
    u32,
    DecodeError,
>)
    ensures
        r == u32_field(*action, found, name),
{
    match found {
        None => Err(DecodeError::SchemaFieldMissing { action: action.clone(), field: name }),
        Some(JsonValue::Number(JsonNumber::PosInt(u))) if u <= u32::MAX as u64 => Ok(u as u32),
        Some(_) => Err(
            DecodeError::SchemaFieldTypeMismatch {
                action: action.clone(),
                field: name,
                expected: ValueKind::UnsignedInteger,
            },
        ),
    }
}

fn read_opaque(found: Option<JsonValue>) -> (r: Option<JsonValue>)
    ensures
        r == opaque_field(found),
{
    match found {
        Some(JsonValue::Null) => None,
        other => other,
    }
}

// ----------- Schemas -----------

/// Wire fields `status`, `currentTime`, `interval`, read in that order; the
/// first that fails decides the error. Other fields are ignored.
pub open spec fn spec_boot_notification(action: String, payload: JsonValue) -> Result<
    BootNotificationResponse,
    DecodeError,
> {
    match text_field(action, payload.field("status"@), "status") {
        Err(e) => Err(e),
        Ok(status) => match text_field(action, payload.field("currentTime"@), "currentTime") {
            Err(e) => Err(e),
            Ok(current_time) => match u32_field(action, payload.field("interval"@), "interval") {
                Err(e) => Err(e),
                Ok(interval) => Ok(BootNotificationResponse { status, current_time, interval }),
            },
        },
    }
}

fn boot_notification(action: &String, payload: JsonValue) -> (r: Result<
    BootNotificationResponse,
    DecodeError,
>)
    ensures
        r == spec_boot_notification(*action, payload),
{
    proof {
        reveal_strlit("status");
        reveal_strlit("currentTime");
        reveal_strlit("interval");
        assert("status"@.len() != "currentTime"@.len());
        assert("status"@.len() != "interval"@.len());
        assert("currentTime"@.len() != "interval"@.len());
    }
    let mut members = payload.into_members();
    let status = match read_text(action, take_field(&mut members, "status"), "status") {
        Err(e) => {
            return Err(e);
        },
        Ok(v) => v,
    };
    let current_time = match read_text(
        action,
        take_field(&mut members, "currentTime"),
        "currentTime",
    ) {
        Err(e) => {
            return Err(e);
        },
        Ok(v) => v,
    };
    let interval = match read_u32(action, take_field(&mut members, "interval"), "interval") {
        Err(e) => {
            return Err(e);
        },
        Ok(v) => v,
    };
    Ok(BootNotificationResponse { status, current_time, interval })
}

/// Wire fields `customData` (optional) and `reservationId`. Other fields are ignored.
pub open spec fn spec_cancel_reservation(action: String, payload: JsonValue) -> Result<
    CancelReservationResponse,
    DecodeError,
> {
    match u32_field(action, payload.field("reservationId"@), "reservationId") {
        Err(e) => Err(e),
        Ok(reservation_id) => Ok(
            CancelReservationResponse {
                custom_data: opaque_field(payload.field("customData"@)),
                reservation_id,
            },
        ),
    }
}

fn cancel_reservation(action: &String, payload: JsonValue) -> (r: Result<
    CancelReservationResponse,
    DecodeError,
>)
    ensures
        r == spec_cancel_reservation(*action, payload),
{
    proof {
        reveal_strlit("customData");
        reveal_strlit("reservationId");
        assert("customData"@.len() != "reservationId"@.len());
    }
    let mut members = payload.into_members();
    let custom_data = read_opaque(take_field(&mut members, "customData"));
    let reservation_id = match read_u32(
        action,
        take_field(&mut members, "reservationId"),
        "reservationId",
    ) {
        Err(e) => {
            return Err(e);
        },
        Ok(v) => v,
    };
    Ok(CancelReservationResponse { custom_data, reservation_id })
}

/// Wire fields `customData` (optional), `reasonCode`, `additionalInfo`, read in
/// that order. Other fields are ignored.
pub open spec fn spec_status_info(action: String, payload: JsonValue) -> Result<
    StatusInfo,
    DecodeError,
> {
    match text_field(action, payload.field("reasonCode"@), "reasonCode") {
        Err(e) => Err(e),
        Ok(reason_code) => match text_field(
            action,
            payload.field("additionalInfo"@),
            "additionalInfo",
        ) {
            Err(e) => Err(e),
            Ok(additional_info) => Ok(
                StatusInfo {
                    custom_data: opaque_field(payload.field("customData"@)),
                    reason_code,
                    additional_info,
                },
            ),
        },
    }
}

fn status_info(action: &String, payload: JsonValue) -> (r: Result<StatusInfo, DecodeError>)
    ensures
        r == spec_status_info(*action, payload),
{
    proof {
        reveal_strlit("customData");
        reveal_strlit("reasonCode");
        reveal_strlit("additionalInfo");
        assert("customData"@[0] != "reasonCode"@[0]);
        assert("customData"@.len() != "additionalInfo"@.len());
        assert("reasonCode"@.len() != "additionalInfo"@.len());
    }
    let mut members = payload.into_members();
    let custom_data = read_opaque(take_field(&mut members, "customData"));
    let reason_code = match read_text(action, take_field(&mut members, "reasonCode"), "reasonCode") {
        Err(e) => {
            return Err(e);
        },
        Ok(v) => v,
    };
    let additional_info = match read_text(
        action,
        take_field(&mut members, "additionalInfo"),
        "additionalInfo",
    ) {
        Err(e) => {
            return Err(e);
        },
        Ok(v) => v,
    };
    Ok(StatusInfo { custom_data, reason_code, additional_info })
}

/// An optional nested status record; `null` counts as absent.
pub open spec fn status_info_field(action: String, found: Option<JsonValue>) -> Result<
    Option<StatusInfo>,
    DecodeError,
> {
    match found {
        None => Ok(None),
        Some(JsonValue::Null) => Ok(None),
        Some(v) if v is Object => match spec_status_info(action, v) {
            Err(e) => Err(e),
            Ok(info) => Ok(Some(info)),
        },
        Some(_) => Err(
            DecodeError::SchemaFieldTypeMismatch {
                action,
                field: "statusInfo",
                expected: ValueKind::Object,
            },
        ),
    }
}

fn read_status_info(action: &String, found: Option<JsonValue>) -> (r: Result<
    Option<StatusInfo>,
    DecodeError,
>)
    ensures
        r == status_info_field(*action, found),
{
    match found {
        None => Ok(None),
        Some(JsonValue::Null) => Ok(None),
        Some(v) => {
            if let JsonValue::Object(_) = &v {
                match status_info(action, v) {
                    Err(e) => Err(e),
                    Ok(info) => Ok(Some(info)),
                }
            } else {
                Err(
                    DecodeError::SchemaFieldTypeMismatch {
                        action: action.clone(),
                        field: "statusInfo",
                        expected: ValueKind::Object,
                    },
                )
            }
        },
    }
}

/// Wire fields `customData` (optional), `status`, `statusInfo` (optional, an
/// object), read in that order. Other fields are ignored.
pub open spec fn spec_clear_cache(action: String, payload: JsonValue) -> Result<
    ClearCacheResponse,
    DecodeError,
> {
    match text_field(action, payload.field("status"@), "status") {
        Err(e) => Err(e),
        Ok(status) => match status_info_field(action, payload.field("statusInfo"@)) {
            Err(e) => Err(e),
            Ok(status_info) => Ok(
                ClearCacheResponse {
                    custom_data: opaque_field(payload.field("customData"@)),
                    status,
                    status_info,
                },
            ),
        },
    }
}

fn clear_cache(action: &String, payload: JsonValue) -> (r: Result<ClearCacheResponse, DecodeError>)
    ensures
        r == spec_clear_cache(*action, payload),
{
    proof {
        reveal_strlit("customData");
        reveal_strlit("status");
        reveal_strlit("statusInfo");
        assert("customData"@.len() != "status"@.len());
        assert("customData"@[0] != "statusInfo"@[0]);
        assert("status"@.len() != "statusInfo"@.len());
    }
    let mut members = payload.into_members();
    let custom_data = read_opaque(take_field(&mut members, "customData"));
    let status = match read_text(action, take_field(&mut members, "status"), "status") {
        Err(e) => {
            return Err(e);
        },
        Ok(v) => v,
    };
    let status_info = match read_status_info(action, take_field(&mut members, "statusInfo")) {
        Err(e) => {
            return Err(e);
        },
        Ok(v) => v,
    };
    Ok(ClearCacheResponse { custom_data, status, status_info })
}

// ----------- Registry -----------

/// Whether `action` has a schema in the registry.
pub open spec fn is_registered(action: Seq<char>) -> bool {
    ||| action == "BootNotification"@
    ||| action == "CancelReservation"@
    ||| action == "ClearCache"@
}

/// The resolution of a reply's payload by the action it answers.
pub open spec fn spec_resolve(action: String, payload: JsonValue) -> Result<
    OcppResponse,
    DecodeError,
> {
    if action@ == "BootNotification"@ {
        match spec_boot_notification(action, payload) {
            Err(e) => Err(e),
            Ok(r) => Ok(OcppResponse::BootNotification(r)),
        }
    } else if action@ == "CancelReservation"@ {
        match spec_cancel_reservation(action, payload) {
            Err(e) => Err(e),
            Ok(r) => Ok(OcppResponse::CancelReservation(r)),
        }
    } else if action@ == "ClearCache"@ {
        match spec_clear_cache(action, payload) {
            Err(e) => Err(e),
            Ok(r) => Ok(OcppResponse::ClearCache(r)),
        }
    } else {
        Ok(OcppResponse::Other(action, payload))
    }
}

impl OcppResponse {
    /// The action whose reply this is.
    pub open spec fn action_name(self) -> Seq<char> {
        match self {
            OcppResponse::BootNotification(_) => "BootNotification"@,
            OcppResponse::CancelReservation(_) => "CancelReservation"@,
            OcppResponse::ClearCache(_) => "ClearCache"@,
            OcppResponse::Other(action, _) => action@,
        }
    }

    /// Types the payload of a reply to `action`: by the registered schema where
    /// there is one, else as `Other` with action and payload unchanged.
    pub fn from_action(action: String, payload: JsonValue) -> (r: Result<OcppResponse, DecodeError>)
        ensures
            r == spec_resolve(action, payload),
            r matches Ok(resp) ==> resp.action_name() == action@,
            !is_registered(action@) ==> r == Ok::<OcppResponse, DecodeError>(
                OcppResponse::Other(action, payload),
            ),
    {
        if text_eq(action.as_str(), "BootNotification") {
            match boot_notification(&action, payload) {
                Err(e) => Err(e),
                Ok(r) => Ok(OcppResponse::BootNotification(r)),
            }
        } else if text_eq(action.as_str(), "CancelReservation") {
            match cancel_reservation(&action, payload) {
                Err(e) => Err(e),
                Ok(r) => Ok(OcppResponse::CancelReservation(r)),
            }
        } else if text_eq(action.as_str(), "ClearCache") {
            match clear_cache(&action, payload) {
                Err(e) => Err(e),
                Ok(r) => Ok(OcppResponse::ClearCache(r)),
            }
        } else {
            Ok(OcppResponse::Other(action, payload))
        }
    }
}

// ----------- Wire forms -----------

/// `found` is the wire form of the required string `s`.
pub open spec fn carries_text(found: Option<JsonValue>, s: String) -> bool {
    found == Some(JsonValue::String(s))
}

/// `found` is the wire form of the required integer `n`.
pub open spec fn carries_u32(found: Option<JsonValue>, n: u32) -> bool {
    found == Some(JsonValue::Number(JsonNumber::PosInt(n as u64)))
}

/// `found` is a wire form of the optional opaque value `v`: absent or `null` for
/// `None`, the value itself (which cannot be `null`) for `Some`.
pub open spec fn carries_opaque(found: Option<JsonValue>, v: Option<JsonValue>) -> bool {
    match v {
        None => found is None || found == Some(JsonValue::Null),
        Some(x) => x !is Null && found == Some(x),
    }
}

impl StatusInfo {
    /// `payload` is an object that holds every field of this record.
    pub open spec fn carried_by(self, payload: JsonValue) -> bool {
        &&& payload is Object
        &&& carries_opaque(payload.field("customData"@), self.custom_data)
        &&& carries_text(payload.field("reasonCode"@), self.reason_code)
        &&& carries_text(payload.field("additionalInfo"@), self.additional_info)
    }
}

/// `found` is a wire form of the optional status record `info`.
pub open spec fn carries_status_info(found: Option<JsonValue>, info: Option<StatusInfo>) -> bool {
    match info {
        None => found is None || found == Some(JsonValue::Null),
        Some(i) => found matches Some(v) && i.carried_by(v),
    }
}

impl OcppResponse {
    /// `payload` holds every field of this reply, each in its wire form.
    pub open spec fn carried_by(self, payload: JsonValue) -> bool {
        match self {
            OcppResponse::BootNotification(r) => {
                &&& carries_text(payload.field("status"@), r.status)
                &&& carries_text(payload.field("currentTime"@), r.current_time)
                &&& carries_u32(payload.field("interval"@), r.interval)
            },
            OcppResponse::CancelReservation(r) => {
                &&& carries_opaque(payload.field("customData"@), r.custom_data)
                &&& carries_u32(payload.field("reservationId"@), r.reservation_id)
            },
            OcppResponse::ClearCache(r) => {
                &&& carries_opaque(payload.field("customData"@), r.custom_data)
                &&& carries_text(payload.field("status"@), r.status)
                &&& carries_status_info(payload.field("statusInfo"@), r.status_info)
            },
            OcppResponse::Other(_, p) => p == payload,
        }
    }
}

/// Every registered reply decodes from a payload that holds its fields in wire
/// form, without error and with every field value exactly as it was.
pub proof fn lemma_registered_reply_decodes(action: String, payload: JsonValue, reply: OcppResponse)
    requires
        reply !is Other,
        reply.action_name() == action@,
        reply.carried_by(payload),
    ensures
        spec_resolve(action, payload) == Ok::<OcppResponse, DecodeError>(reply),
{
    reveal_strlit("BootNotification");
    reveal_strlit("CancelReservation");
    reveal_strlit("ClearCache");
    assert("BootNotification"@[0] != "CancelReservation"@[0]);
    assert("BootNotification"@[0] != "ClearCache"@[0]);
    assert("CancelReservation"@[1] != "ClearCache"@[1]);
}

/// A reply to an action without a registered schema is never an error: it is
/// `Other`, with the action and the payload exactly as they came.
pub proof fn lemma_unregistered_reply_passes(action: String, payload: JsonValue)
    requires
        !is_registered(action@),
    ensures
        spec_resolve(action, payload) == Ok::<OcppResponse, DecodeError>(
            OcppResponse::Other(action, payload),
        ),
{
}

} // verus!
