use ocpp::{
    convert, decode, BootNotificationResponse, CallId, CancelReservationResponse,
    ClearCacheResponse, DecodeError, JsonNumber, JsonValue, Member, MessageType, OcppDatagram,
    OcppEvent, OcppMessage, OcppResponse, RawOcppMessage, StatusInfo, TypedOcppMessage, ValueKind,
};

fn from_serde(v: serde_json::Value) -> JsonValue {
    match v {
        serde_json::Value::Null => JsonValue::Null,
        serde_json::Value::Bool(b) => JsonValue::Bool(b),
        serde_json::Value::Number(n) => {
            if let Some(u) = n.as_u64() {
                JsonValue::Number(JsonNumber::PosInt(u))
            } else if let Some(i) = n.as_i64() {
                JsonValue::Number(JsonNumber::NegInt(i))
            } else {
                JsonValue::Number(JsonNumber::Float(n.as_f64().unwrap().to_bits()))
            }
        }
        serde_json::Value::String(s) => JsonValue::String(s),
        serde_json::Value::Array(items) => {
            JsonValue::Array(items.into_iter().map(from_serde).collect())
        }
        serde_json::Value::Object(map) => JsonValue::Object(
            map.into_iter()
                .map(|(key, value)| Member { key, value: from_serde(value) })
                .collect(),
        ),
    }
}

fn parse(text: &str) -> JsonValue {
    from_serde(serde_json::from_str(text).unwrap())
}

fn text(s: &str) -> JsonValue {
    JsonValue::String(s.to_string())
}

fn object(members: Vec<(&str, JsonValue)>) -> JsonValue {
    JsonValue::Object(
        members
            .into_iter()
            .map(|(key, value)| Member { key: key.to_string(), value })
            .collect(),
    )
}

fn vendor_data() -> JsonValue {
    object(vec![("vendorId", text("string"))])
}

#[test]
fn given_valid_boot_notification_response__when_deserializing__then_ok() {
    let json = r#"
[
3,
"19223201",
"BootNotification",
{
"status": "Accepted",
"currentTime": "2019-08-24T14:15:22Z",
"interval": 0
}
]
"#;
    let result = TypedOcppMessage::from_json(parse(json));
    assert!(result.is_ok());

    let expected = TypedOcppMessage {
        message_type: MessageType::CallResult,
        call_id: CallId("19223201".to_string()),
        action: "BootNotification".to_string(),
        payload: parse(
            r#"{"status": "Accepted", "currentTime": "2019-08-24T14:15:22Z", "interval": 0}"#,
        ),
    };

    assert_eq!(result.unwrap(), expected);
}

#[test]
fn raw_envelope_keeps_every_position() {
    let json = r#"[3, "19223201", "BootNotification",
        {"status": "Accepted", "currentTime": "2019-08-24T14:15:22Z", "interval": 0}]"#;
    let expected = RawOcppMessage {
        message_type: 3,
        call_id: "19223201".to_string(),
        action: "BootNotification".to_string(),
        payload: parse(
            r#"{"status": "Accepted", "currentTime": "2019-08-24T14:15:22Z", "interval": 0}"#,
        ),
    };
    assert_eq!(RawOcppMessage::from_json(parse(json)), Ok(expected));
}

#[test]
fn given_valid_boot_notification_response__when_converting__then_ok() {
    let json = r#"
[
    3,
    "19223201",
    "BootNotification",
    {
        "status": "Accepted",
        "currentTime": "2019-08-24T14:15:22Z",
        "interval": 0
    }
]
"#;
    let expected = OcppEvent {
        call_id: CallId("19223201".to_string()),
        message: OcppMessage::Response(OcppResponse::BootNotification(BootNotificationResponse {
            status: "Accepted".to_string(),
            current_time: "2019-08-24T14:15:22Z".to_string(),
            interval: 0,
        })),
    };
    assert_eq!(decode(parse(json)), Ok(expected));
}

#[test]
fn given_valid_cancel_reservation_response__when_deserializing__then_ok() {
    let json = r#"
[
    3,
    "19223202",
    "CancelReservation",
    {
        "customData": null,
        "reservationId": 12345
    }
]
"#;
    let expected = OcppEvent {
        call_id: CallId("19223202".to_string()),
        message: OcppMessage::Response(OcppResponse::CancelReservation(
            CancelReservationResponse { custom_data: None, reservation_id: 12345 },
        )),
    };
    assert_eq!(decode(parse(json)), Ok(expected));
}

#[test]
fn given_valid_clear_cache_response__when_deserializing__then_ok() {
    let json = r#"
[
  3,
  "19223201",
  "ClearCache",
  {
    "customData": {
      "vendorId": "string"
    },
    "status": "Accepted",
    "statusInfo": {
      "customData": {
        "vendorId": "string"
      },
      "reasonCode": "string",
      "additionalInfo": "string"
    }
  }
]
"#;
    let expected = OcppEvent {
        call_id: CallId("19223201".to_string()),
        message: OcppMessage::Response(OcppResponse::ClearCache(ClearCacheResponse {
            custom_data: Some(vendor_data()),
            status: "Accepted".to_string(),
            status_info: Some(StatusInfo {
                custom_data: Some(vendor_data()),
                reason_code: "string".to_string(),
                additional_info: "string".to_string(),
            }),
        })),
    };
    assert_eq!(decode(parse(json)), Ok(expected));
}

#[test]
fn given_valid_raw_ocpp_message_when_convert__then_ok() {
    let raw = RawOcppMessage {
        message_type: 3,
        call_id: "192232".to_string(),
        action: "BootNotification".to_string(),
        payload: object(vec![
            ("status", text("Accepted")),
            ("currentTime", text("2019-08-24T14:15:22Z")),
            ("interval", JsonValue::Number(JsonNumber::PosInt(0))),
        ]),
    };
    let expected = OcppEvent {
        call_id: CallId("192232".to_string()),
        message: OcppMessage::Response(OcppResponse::BootNotification(BootNotificationResponse {
            status: "Accepted".to_string(),
            current_time: "2019-08-24T14:15:22Z".to_string(),
            interval: 0,
        })),
    };
    assert_eq!(convert(raw).unwrap(), expected);
}

#[test]
fn unknown_action_passes_through() {
    let json = r#"[3, "19223203", "SomeFutureAction", {"foo": "bar"}]"#;
    let expected = OcppEvent {
        call_id: CallId("19223203".to_string()),
        message: OcppMessage::Response(OcppResponse::Other(
            "SomeFutureAction".to_string(),
            object(vec![("foo", text("bar"))]),
        )),
    };
    assert_eq!(decode(parse(json)), Ok(expected));
}

#[test]
fn action_match_is_case_sensitive() {
    let json = r#"[3, "7", "bootnotification", [1, -2, 0.5, true]]"#;
    let expected = OcppEvent {
        call_id: CallId("7".to_string()),
        message: OcppMessage::Response(OcppResponse::Other(
            "bootnotification".to_string(),
            JsonValue::Array(vec![
                JsonValue::Number(JsonNumber::PosInt(1)),
                JsonValue::Number(JsonNumber::NegInt(-2)),
                JsonValue::Number(JsonNumber::Float(0.5f64.to_bits())),
                JsonValue::Bool(true),
            ]),
        )),
    };
    assert_eq!(decode(parse(json)), Ok(expected));
}

#[test]
fn single_element_frame_is_malformed() {
    assert_eq!(decode(parse("[3]")), Err(DecodeError::MalformedEnvelope));
}

#[test]
fn frames_of_other_shapes_are_malformed() {
    assert_eq!(decode(parse("[]")), Err(DecodeError::MalformedEnvelope));
    assert_eq!(
        decode(parse(r#"[3, "1", "Heartbeat", {}, {}]"#)),
        Err(DecodeError::MalformedEnvelope)
    );
    assert_eq!(
        decode(parse(r#"{"0": 3, "1": "1", "2": "Heartbeat", "3": {}}"#)),
        Err(DecodeError::MalformedEnvelope)
    );
    assert_eq!(decode(parse(r#""text""#)), Err(DecodeError::MalformedEnvelope));
    assert_eq!(decode(JsonValue::Null), Err(DecodeError::MalformedEnvelope));
}

#[test]
fn unknown_type_code_is_rejected_with_the_code() {
    let json = r#"[99, "id", "BootNotification", {}]"#;
    assert_eq!(decode(parse(json)), Err(DecodeError::UnknownMessageTypeCode(99)));
    assert_eq!(
        decode(parse(r#"[0, "id", "X", {}]"#)),
        Err(DecodeError::UnknownMessageTypeCode(0))
    );
    assert_eq!(
        decode(parse(r#"[255, "id", "X", {}]"#)),
        Err(DecodeError::UnknownMessageTypeCode(255))
    );
}

#[test]
fn type_code_must_be_a_small_unsigned_integer() {
    for json in [
        r#"[256, "id", "X", {}]"#,
        r#"[-3, "id", "X", {}]"#,
        r#"[3.0, "id", "X", {}]"#,
        r#"["3", "id", "X", {}]"#,
        r#"[null, "id", "X", {}]"#,
    ] {
        assert_eq!(decode(parse(json)), Err(DecodeError::InvalidMessageTypeCode));
    }
}

#[test]
fn call_id_and_action_must_be_strings() {
    assert_eq!(
        decode(parse(r#"[3, 19223201, "BootNotification", {}]"#)),
        Err(DecodeError::InvalidCorrelationId)
    );
    assert_eq!(decode(parse(r#"[3, "1", null, {}]"#)), Err(DecodeError::InvalidAction));
    assert_eq!(
        decode(parse(r#"[3, null, 5, {}]"#)),
        Err(DecodeError::InvalidCorrelationId)
    );
}

#[test]
fn each_code_has_one_category() {
    let call = decode(parse(r#"[2, "a", "Reset", {"type": "Hard"}]"#));
    assert_eq!(
        call,
        Ok(OcppEvent {
            call_id: CallId("a".to_string()),
            message: OcppMessage::Call("Reset".to_string(), object(vec![("type", text("Hard"))])),
        })
    );
    let request = decode(parse(r#"[4, "b", "BootNotification", {}]"#));
    assert_eq!(
        request,
        Ok(OcppEvent {
            call_id: CallId("b".to_string()),
            message: OcppMessage::Request("BootNotification".to_string(), object(vec![])),
        })
    );
    let reply = decode(parse(
        r#"[3, "c", "BootNotification", {"status": "Pending", "currentTime": "t", "interval": 30}]"#,
    ));
    assert!(matches!(
        reply,
        Ok(OcppEvent { message: OcppMessage::Response(OcppResponse::BootNotification(_)), .. })
    ));
}

#[test]
fn call_payloads_are_not_checked_against_schemas() {
    let json = r#"[2, "a", "BootNotification", 17]"#;
    assert_eq!(
        decode(parse(json)),
        Ok(OcppEvent {
            call_id: CallId("a".to_string()),
            message: OcppMessage::Call(
                "BootNotification".to_string(),
                JsonValue::Number(JsonNumber::PosInt(17)),
            ),
        })
    );
}

#[test]
fn missing_required_field_is_named() {
    let json = r#"[3, "1", "BootNotification", {"status": "Accepted", "interval": 5}]"#;
    assert_eq!(
        decode(parse(json)),
        Err(DecodeError::SchemaFieldMissing {
            action: "BootNotification".to_string(),
            field: "currentTime",
        })
    );
    assert_eq!(
        decode(parse(r#"[3, "1", "CancelReservation", {}]"#)),
        Err(DecodeError::SchemaFieldMissing {
            action: "CancelReservation".to_string(),
            field: "reservationId",
        })
    );
}

#[test]
fn non_object_payload_of_registered_action_has_no_fields() {
    assert_eq!(
        decode(parse(r#"[3, "1", "ClearCache", "Accepted"]"#)),
        Err(DecodeError::SchemaFieldMissing { action: "ClearCache".to_string(), field: "status" })
    );
}

#[test]
fn field_of_wrong_shape_is_a_mismatch() {
    let json = r#"[3, "1", "BootNotification", {"status": "A", "currentTime": "t", "interval": "0"}]"#;
    assert_eq!(
        decode(parse(json)),
        Err(DecodeError::SchemaFieldTypeMismatch {
            action: "BootNotification".to_string(),
            field: "interval",
            expected: ValueKind::UnsignedInteger,
        })
    );
    let json = r#"[3, "1", "BootNotification", {"status": 1, "currentTime": "t", "interval": 0}]"#;
    assert_eq!(
        decode(parse(json)),
        Err(DecodeError::SchemaFieldTypeMismatch {
            action: "BootNotification".to_string(),
            field: "status",
            expected: ValueKind::String,
        })
    );
    let json = r#"[3, "1", "ClearCache", {"status": "Accepted", "statusInfo": "x"}]"#;
    assert_eq!(
        decode(parse(json)),
        Err(DecodeError::SchemaFieldTypeMismatch {
            action: "ClearCache".to_string(),
            field: "statusInfo",
            expected: ValueKind::Object,
        })
    );
}

#[test]
fn integer_fields_hold_thirty_two_bits() {
    let at_max = r#"[3, "1", "CancelReservation", {"reservationId": 4294967295}]"#;
    assert_eq!(
        decode(parse(at_max)),
        Ok(OcppEvent {
            call_id: CallId("1".to_string()),
            message: OcppMessage::Response(OcppResponse::CancelReservation(
                CancelReservationResponse { custom_data: None, reservation_id: 4294967295 },
            )),
        })
    );
    for json in [
        r#"[3, "1", "CancelReservation", {"reservationId": 4294967296}]"#,
        r#"[3, "1", "CancelReservation", {"reservationId": -1}]"#,
        r#"[3, "1", "CancelReservation", {"reservationId": 1.5}]"#,
    ] {
        assert_eq!(
            decode(parse(json)),
            Err(DecodeError::SchemaFieldTypeMismatch {
                action: "CancelReservation".to_string(),
                field: "reservationId",
                expected: ValueKind::UnsignedInteger,
            })
        );
    }
}

#[test]
fn nested_record_reports_its_own_missing_field() {
    let json = r#"[3, "1", "ClearCache", {"status": "Rejected", "statusInfo": {"reasonCode": "x"}}]"#;
    assert_eq!(
        decode(parse(json)),
        Err(DecodeError::SchemaFieldMissing {
            action: "ClearCache".to_string(),
            field: "additionalInfo",
        })
    );
}

#[test]
fn optional_fields_may_be_absent_or_null_and_extra_fields_are_ignored() {
    let json = r#"[3, "1", "ClearCache", {"status": "Rejected", "statusInfo": null, "extra": [1]}]"#;
    assert_eq!(
        decode(parse(json)),
        Ok(OcppEvent {
            call_id: CallId("1".to_string()),
            message: OcppMessage::Response(OcppResponse::ClearCache(ClearCacheResponse {
                custom_data: None,
                status: "Rejected".to_string(),
                status_info: None,
            })),
        })
    );
}

#[test]
fn first_of_repeated_keys_wins() {
    let payload = object(vec![
        ("reservationId", JsonValue::Number(JsonNumber::PosInt(1))),
        ("customData", JsonValue::Bool(false)),
        ("reservationId", text("two")),
    ]);
    let frame = JsonValue::Array(vec![
        JsonValue::Number(JsonNumber::PosInt(3)),
        text("9"),
        text("CancelReservation"),
        payload,
    ]);
    assert_eq!(
        decode(frame),
        Ok(OcppEvent {
            call_id: CallId("9".to_string()),
            message: OcppMessage::Response(OcppResponse::CancelReservation(
                CancelReservationResponse {
                    custom_data: Some(JsonValue::Bool(false)),
                    reservation_id: 1,
                },
            )),
        })
    );
}

#[test]
fn message_type_codes_round_trip() {
    assert_eq!(MessageType::from_code(2), Some(MessageType::Call));
    assert_eq!(MessageType::from_code(3), Some(MessageType::CallResult));
    assert_eq!(MessageType::from_code(4), Some(MessageType::CallError));
    assert_eq!(MessageType::from_code(1), None);
    assert_eq!(MessageType::from_code(5), None);
    for t in [MessageType::Call, MessageType::CallResult, MessageType::CallError] {
        assert_eq!(MessageType::from_code(t.code()), Some(t));
    }
    assert_eq!(MessageType::CallResult.code(), 3);
}

#[test]
fn typed_message_from_raw_rejects_unknown_codes() {
    let raw = RawOcppMessage {
        message_type: 5,
        call_id: "1".to_string(),
        action: "Heartbeat".to_string(),
        payload: JsonValue::Null,
    };
    assert_eq!(TypedOcppMessage::from_raw(raw), Err(DecodeError::UnknownMessageTypeCode(5)));
}

#[test]
fn response_from_action_resolves_registered_actions_only() {
    let payload = object(vec![("status", text("Accepted"))]);
    assert_eq!(
        OcppResponse::from_action("UnlockConnector".to_string(), payload),
        Ok(OcppResponse::Other(
            "UnlockConnector".to_string(),
            object(vec![("status", text("Accepted"))])
        ))
    );
    let payload = object(vec![
        ("interval", JsonValue::Number(JsonNumber::PosInt(300))),
        ("currentTime", text("2019-08-24T14:15:22Z")),
        ("status", text("Accepted")),
    ]);
    assert_eq!(
        OcppResponse::from_action("BootNotification".to_string(), payload),
        Ok(OcppResponse::BootNotification(BootNotificationResponse {
            status: "Accepted".to_string(),
            current_time: "2019-08-24T14:15:22Z".to_string(),
            interval: 300,
        }))
    );
}

#[test]
fn new_datagram_is_an_empty_call() {
    let d = OcppDatagram::new();
    assert_eq!(d.id, "");
    assert_eq!(d.msg_type, MessageType::Call);
    assert_eq!(d.payload, JsonValue::Null);
    assert_eq!(d.action, "");
    assert_eq!(d.error_code, "");
    assert_eq!(d.error_description, "");
}

#[test]
fn text_equality_is_by_characters() {
    assert!(ocpp::json::text_eq("ClearCache", "ClearCache"));
    assert!(ocpp::json::text_eq("", ""));
    assert!(!ocpp::json::text_eq("ClearCache", "clearCache"));
    assert!(!ocpp::json::text_eq("Clear", "ClearCache"));
    assert!(!ocpp::json::text_eq("é", "e"));
}

#[test]
fn take_field_removes_only_the_first_match() {
    let mut members = vec![
        Member { key: "a".to_string(), value: JsonValue::Bool(true) },
        Member { key: "b".to_string(), value: JsonValue::Null },
        Member { key: "a".to_string(), value: JsonValue::Bool(false) },
    ];
    assert_eq!(ocpp::json::take_field(&mut members, "a"), Some(JsonValue::Bool(true)));
    assert_eq!(members.len(), 2);
    assert_eq!(ocpp::json::take_field(&mut members, "a"), Some(JsonValue::Bool(false)));
    assert_eq!(ocpp::json::take_field(&mut members, "c"), None);
    assert_eq!(members, vec![Member { key: "b".to_string(), value: JsonValue::Null }]);
}
