use ocpp_rpc::errors::RpcErrorCode;
use ocpp_rpc::frame::{
    decode, decode_json, encode, encode_json, Call, CallError, CallResult, DecodeError, Frame,
    MessageTypeId,
};
use ocpp_rpc::json::Json;
use ocpp_rpc::registry::{ActionRegistry, Violation};

fn text(s: &str) -> Json {
    Json::String(s.to_string())
}

fn object(members: Vec<(&str, Json)>) -> Json {
    Json::Object(
        members
            .into_iter()
            .map(|(name, value)| (name.to_string(), value))
            .collect(),
    )
}

fn boot_payload() -> Json {
    object(vec![
        (
            "chargingStation",
            object(vec![
                ("model", text("SingleSocketCharger")),
                ("vendorName", text("VendorX")),
            ]),
        ),
        ("reason", text("PowerUp")),
    ])
}

fn boot_call() -> Frame {
    Frame::Call(Call {
        message_id: "19223201".to_string(),
        action: "BootNotification".to_string(),
        payload: boot_payload(),
    })
}

fn boot_result() -> Frame {
    Frame::CallResult(CallResult {
        message_id: "19223201".to_string(),
        payload: object(vec![
            ("currentTime", text("2013-02-01T20:53:32.486Z")),
            ("interval", Json::Integer(300)),
            ("status", text("Accepted")),
        ]),
    })
}

fn not_supported() -> Frame {
    Frame::CallError(CallError {
        message_id: "162376037".to_string(),
        error_code: RpcErrorCode::NotSupported,
        error_description: "SetDisplayMessageRequest not implemented".to_string(),
        error_details: vec![],
    })
}

#[test]
fn message_type_numbers() {
    assert_eq!(MessageTypeId::Call.number(), 2);
    assert_eq!(MessageTypeId::CallResult.number(), 3);
    assert_eq!(MessageTypeId::CallError.number(), 4);
    assert_eq!(MessageTypeId::from_number(2), Some(MessageTypeId::Call));
    assert_eq!(MessageTypeId::from_number(3), Some(MessageTypeId::CallResult));
    assert_eq!(MessageTypeId::from_number(4), Some(MessageTypeId::CallError));
    assert_eq!(MessageTypeId::from_number(1), None);
    assert_eq!(MessageTypeId::from_number(5), None);
    assert_eq!(MessageTypeId::from_number(0), None);
    assert_eq!(MessageTypeId::from_number(-2), None);
}

#[test]
fn error_code_names() {
    let all = [
        (RpcErrorCode::FormatViolation, "FormatViolation"),
        (RpcErrorCode::GenericError, "GenericError"),
        (RpcErrorCode::InternalError, "InternalError"),
        (
            RpcErrorCode::MessageTypeNotSupported,
            "MessageTypeNotSupported",
        ),
        (RpcErrorCode::NotImplemented, "NotImplemented"),
        (RpcErrorCode::NotSupported, "NotSupported"),
        (
            RpcErrorCode::OccurrenceConstraintViolation,
            "OccurrenceConstraintViolation",
        ),
        (
            RpcErrorCode::PropertyConstraintViolation,
            "PropertyConstraintViolation",
        ),
        (RpcErrorCode::ProtocolError, "ProtocolError"),
        (RpcErrorCode::RpcFrameworkError, "RpcFrameworkError"),
        (RpcErrorCode::SecurityError, "SecurityError"),
        (
            RpcErrorCode::TypeConstraintViolation,
            "TypeConstraintViolation",
        ),
    ];
    for (code, name) in all {
        assert_eq!(code.name(), name);
        assert_eq!(RpcErrorCode::from_name(name), Some(code));
        assert!(!code.description().is_empty());
        assert_eq!(code.description(), code.description());
    }
    assert_eq!(RpcErrorCode::from_name("formatviolation"), None);
    assert_eq!(RpcErrorCode::from_name(""), None);
    assert_eq!(RpcErrorCode::from_name("NotSupported "), None);
}

#[test]
fn decodes_a_call() {
    let frame = decode(
        r#"[2,"19223201","BootNotification",{"chargingStation":{"model":"SingleSocketCharger","vendorName":"VendorX"},"reason":"PowerUp"}]"#,
        &ActionRegistry::standard(),
    );
    assert_eq!(frame, Ok(boot_call()));
    let frame = frame.unwrap();
    assert_eq!(frame.type_id(), MessageTypeId::Call);
    assert_eq!(frame.message_id(), "19223201");
}

#[test]
fn decodes_a_call_result_without_looking_at_its_payload() {
    let registry = ActionRegistry::standard();
    assert_eq!(
        decode(
            r#"[3,"19223201",{"currentTime":"2013-02-01T20:53:32.486Z","interval":300,"status":"Accepted"}]"#,
            &registry,
        ),
        Ok(boot_result())
    );
    assert_eq!(
        decode(r#"[3, "7", "anything"]"#, &registry),
        Ok(Frame::CallResult(CallResult {
            message_id: "7".to_string(),
            payload: text("anything"),
        }))
    );
    assert_eq!(boot_result().type_id(), MessageTypeId::CallResult);
    assert_eq!(boot_result().message_id(), "19223201");
}

#[test]
fn decodes_a_call_error() {
    let registry = ActionRegistry::standard();
    let frame = decode(
        r#"[4,"162376037","NotSupported","SetDisplayMessageRequest not implemented",{}]"#,
        &registry,
    );
    assert_eq!(frame, Ok(not_supported()));
    match frame.unwrap() {
        Frame::CallError(error) => assert_eq!(error.error_code, RpcErrorCode::NotSupported),
        other => panic!("not a CallError: {other:?}"),
    }
    assert_eq!(not_supported().type_id(), MessageTypeId::CallError);
    assert_eq!(not_supported().message_id(), "162376037");

    assert_eq!(
        decode(
            r#"[4, "1", "GenericError", "", {"reason": "none", "tries": 3}]"#,
            &registry
        ),
        Ok(Frame::CallError(CallError {
            message_id: "1".to_string(),
            error_code: RpcErrorCode::GenericError,
            error_description: String::new(),
            error_details: vec![
                ("reason".to_string(), text("none")),
                ("tries".to_string(), Json::Integer(3)),
            ],
        }))
    );
}

#[test]
fn details_that_are_null_count_as_empty() {
    assert_eq!(
        decode(
            r#"[4,"162376037","NotSupported","SetDisplayMessageRequest not implemented",null]"#,
            &ActionRegistry::standard(),
        ),
        Ok(not_supported())
    );
}

#[test]
fn text_that_is_not_json_is_rejected() {
    let registry = ActionRegistry::standard();
    assert_eq!(
        decode("not json at all", &registry),
        Err(DecodeError::NotJson)
    );
    assert_eq!(decode("", &registry), Err(DecodeError::NotJson));
    assert_eq!(decode("[2, \"1\"", &registry), Err(DecodeError::NotJson));
}

#[test]
fn what_is_not_an_array_of_the_right_length_is_rejected() {
    let registry = ActionRegistry::standard();
    assert_eq!(decode("{}", &registry), Err(DecodeError::NotArray));
    assert_eq!(decode("2", &registry), Err(DecodeError::NotArray));
    assert_eq!(decode("\"[2]\"", &registry), Err(DecodeError::NotArray));
    assert_eq!(decode("[]", &registry), Err(DecodeError::NotArray));
    assert_eq!(decode("[2, \"1\"]", &registry), Err(DecodeError::NotArray));
    // A Call has four elements, a CallResult three, a CallError five.
    assert_eq!(
        decode(r#"[2, "1", "Heartbeat"]"#, &registry),
        Err(DecodeError::NotArray)
    );
    assert_eq!(
        decode(r#"[2, "1", "Heartbeat", {}, {}]"#, &registry),
        Err(DecodeError::NotArray)
    );
    assert_eq!(
        decode(r#"[3, "1", {}, {}]"#, &registry),
        Err(DecodeError::NotArray)
    );
    assert_eq!(
        decode(r#"[4, "1", "GenericError", ""]"#, &registry),
        Err(DecodeError::NotArray)
    );
    assert_eq!(
        decode(r#"[4, "1", "GenericError", "", {}, 1]"#, &registry),
        Err(DecodeError::NotArray)
    );
}

#[test]
fn an_unknown_type_is_rejected() {
    let registry = ActionRegistry::standard();
    assert_eq!(
        decode("[5, \"1\", {}]", &registry),
        Err(DecodeError::UnknownType(Json::Integer(5)))
    );
    assert_eq!(
        decode("[1, \"1\", {}]", &registry),
        Err(DecodeError::UnknownType(Json::Integer(1)))
    );
    assert_eq!(
        decode("[\"2\", \"1\", {}]", &registry),
        Err(DecodeError::UnknownType(text("2")))
    );
    assert_eq!(
        decode("[2.5, \"1\", {}]", &registry),
        Err(DecodeError::UnknownType(Json::Number(
            serde_json::Number::from_f64(2.5).unwrap()
        )))
    );
    assert_eq!(
        decode("[null, \"1\", {}]", &registry),
        Err(DecodeError::UnknownType(Json::Null))
    );
    // The type is looked at before the identifier.
    assert_eq!(
        decode("[5, 1, {}]", &registry),
        Err(DecodeError::UnknownType(Json::Integer(5)))
    );
}

#[test]
fn an_identifier_that_is_not_a_string_is_rejected() {
    let registry = ActionRegistry::standard();
    assert_eq!(
        decode("[2, 19223201, \"Heartbeat\", {}]", &registry),
        Err(DecodeError::MissingMessageId)
    );
    assert_eq!(
        decode("[3, null, {}]", &registry),
        Err(DecodeError::MissingMessageId)
    );
    // The identifier is looked at before the length that the kind asks for.
    assert_eq!(
        decode("[2, 1, \"Heartbeat\"]", &registry),
        Err(DecodeError::MissingMessageId)
    );
}

#[test]
fn an_element_of_the_wrong_type_is_rejected() {
    let registry = ActionRegistry::standard();
    assert_eq!(
        decode("[2, \"1\", 17, {}]", &registry),
        Err(DecodeError::WrongElement(2))
    );
    assert_eq!(
        decode("[4, \"1\", 17, \"\", {}]", &registry),
        Err(DecodeError::WrongElement(2))
    );
    assert_eq!(
        decode("[4, \"1\", \"GenericError\", 17, {}]", &registry),
        Err(DecodeError::WrongElement(3))
    );
    assert_eq!(
        decode("[4, \"1\", \"GenericError\", \"\", []]", &registry),
        Err(DecodeError::WrongElement(4))
    );
    assert_eq!(
        decode("[4, \"1\", \"GenericError\", \"\", \"{}\"]", &registry),
        Err(DecodeError::WrongElement(4))
    );
}

#[test]
fn an_unknown_action_is_rejected() {
    assert_eq!(
        decode(
            r#"[2,"x","UnknownAction",{}]"#,
            &ActionRegistry::standard()
        ),
        Err(DecodeError::UnknownAction("UnknownAction".to_string()))
    );
    assert_eq!(
        decode(r#"[2,"x","Heartbeat",{}]"#, &ActionRegistry::new()),
        Err(DecodeError::UnknownAction("Heartbeat".to_string()))
    );
}

#[test]
fn a_payload_that_departs_from_the_request_shape_is_rejected() {
    let registry = ActionRegistry::standard();
    assert_eq!(
        decode(r#"[2,"x","Heartbeat",[]]"#, &registry),
        Err(DecodeError::PayloadShape(Violation::NotAnObject))
    );
    assert_eq!(
        decode(
            r#"[2,"x","BootNotification",{"reason":"PowerUp"}]"#,
            &registry
        ),
        Err(DecodeError::PayloadShape(Violation::Missing(
            "chargingStation".to_string()
        )))
    );
    assert_eq!(
        decode(
            r#"[2,"x","BootNotification",{"chargingStation":"mine","reason":"PowerUp"}]"#,
            &registry
        ),
        Err(DecodeError::PayloadShape(Violation::WrongType(
            "chargingStation".to_string()
        )))
    );
    assert_eq!(
        decode(
            r#"[2,"x","BootNotification",{"chargingStation":{},"reason":"Boredom"}]"#,
            &registry
        ),
        Err(DecodeError::PayloadShape(Violation::InvalidValue(
            "reason".to_string()
        )))
    );
}

#[test]
fn an_unknown_error_code_is_rejected() {
    let registry = ActionRegistry::standard();
    assert_eq!(
        decode(r#"[4, "1", "OutOfCoffee", "", {}]"#, &registry),
        Err(DecodeError::UnknownErrorCode("OutOfCoffee".to_string()))
    );
    // The code is looked at before the description and the details.
    assert_eq!(
        decode(r#"[4, "1", "OutOfCoffee", 17, 18]"#, &registry),
        Err(DecodeError::UnknownErrorCode("OutOfCoffee".to_string()))
    );
}

#[test]
fn encodes_each_kind_in_the_order_of_the_wire() {
    assert_eq!(
        encode(&boot_call()),
        r#"[2,"19223201","BootNotification",{"chargingStation":{"model":"SingleSocketCharger","vendorName":"VendorX"},"reason":"PowerUp"}]"#
    );
    assert_eq!(
        encode(&boot_result()),
        r#"[3,"19223201",{"currentTime":"2013-02-01T20:53:32.486Z","interval":300,"status":"Accepted"}]"#
    );
    assert_eq!(
        encode(&not_supported()),
        r#"[4,"162376037","NotSupported","SetDisplayMessageRequest not implemented",{}]"#
    );
}

#[test]
fn encodes_to_an_array_of_four_three_or_five_elements() {
    assert_eq!(
        encode_json(&boot_call()),
        Json::Array(vec![
            Json::Integer(2),
            text("19223201"),
            text("BootNotification"),
            boot_payload(),
        ])
    );
    assert_eq!(
        encode_json(&Frame::CallResult(CallResult {
            message_id: "1".to_string(),
            payload: Json::Null,
        })),
        Json::Array(vec![Json::Integer(3), text("1"), Json::Null])
    );
    assert_eq!(
        encode_json(&Frame::CallError(CallError {
            message_id: "1".to_string(),
            error_code: RpcErrorCode::SecurityError,
            error_description: "no".to_string(),
            error_details: vec![("why".to_string(), Json::Bool(false))],
        })),
        Json::Array(vec![
            Json::Integer(4),
            text("1"),
            text("SecurityError"),
            text("no"),
            object(vec![("why", Json::Bool(false))]),
        ])
    );
}

#[test]
fn a_well_formed_frame_survives_encoding_and_decoding() {
    let registry = ActionRegistry::standard();
    let with_details = Frame::CallError(CallError {
        message_id: "9".to_string(),
        error_code: RpcErrorCode::TypeConstraintViolation,
        error_description: "interval is not a number".to_string(),
        error_details: vec![("field".to_string(), text("interval"))],
    });
    for frame in [boot_call(), boot_result(), not_supported(), with_details] {
        assert_eq!(
            decode_json(encode_json(&frame), &registry),
            Ok(frame.clone())
        );
        assert_eq!(decode(&encode(&frame), &registry), Ok(frame));
    }
}

#[test]
fn every_error_code_survives_encoding_and_decoding() {
    let registry = ActionRegistry::new();
    for code in [
        RpcErrorCode::FormatViolation,
        RpcErrorCode::GenericError,
        RpcErrorCode::InternalError,
        RpcErrorCode::MessageTypeNotSupported,
        RpcErrorCode::NotImplemented,
        RpcErrorCode::NotSupported,
        RpcErrorCode::OccurrenceConstraintViolation,
        RpcErrorCode::PropertyConstraintViolation,
        RpcErrorCode::ProtocolError,
        RpcErrorCode::RpcFrameworkError,
        RpcErrorCode::SecurityError,
        RpcErrorCode::TypeConstraintViolation,
    ] {
        let frame = Frame::CallError(CallError {
            message_id: "1".to_string(),
            error_code: code,
            error_description: code.description().to_string(),
            error_details: vec![],
        });
        assert_eq!(decode(&encode(&frame), &registry), Ok(frame));
    }
}

#[test]
fn text_that_was_encoded_is_encoded_again_as_it_was() {
    let registry = ActionRegistry::standard();
    for frame in [boot_call(), boot_result(), not_supported()] {
        let written = encode(&frame);
        assert_eq!(encode(&decode(&written, &registry).unwrap()), written);
    }
}

#[test]
fn a_call_that_is_not_well_formed_does_not_come_back() {
    let registry = ActionRegistry::standard();
    let unknown = Frame::Call(Call {
        message_id: "1".to_string(),
        action: "Teleport".to_string(),
        payload: object(vec![]),
    });
    assert_eq!(
        decode(&encode(&unknown), &registry),
        Err(DecodeError::UnknownAction("Teleport".to_string()))
    );
}
