use ocpp_rpc::json::Json;
use ocpp_rpc::registry::{Action, ActionRegistry, Field, Kind, Shape, Violation};

fn text(s: &str) -> Json {
    Json::String(s.to_string())
}

fn object(members: Vec<(&str, Json)>) -> Json {
    Json::Object(
        members
            .into_iter()
            .map(|(name, value)| (name.to_string(), value))
            .collect(),
    )
}

#[test]
fn each_kind_admits_its_values() {
    let name = "f".to_string();
    let wrong = Err(Violation::WrongType("f".to_string()));
    let number = Json::Number(serde_json::Number::from_f64(0.5).unwrap());

    assert_eq!(Kind::Any.check(&name, &Json::Null), Ok(()));
    assert_eq!(Kind::Any.check(&name, &object(vec![])), Ok(()));

    assert_eq!(Kind::Bool.check(&name, &Json::Bool(false)), Ok(()));
    assert_eq!(Kind::Bool.check(&name, &Json::Integer(0)), wrong);

    assert_eq!(Kind::Integer.check(&name, &Json::Integer(7)), Ok(()));
    assert_eq!(Kind::Integer.check(&name, &number), wrong);

    assert_eq!(Kind::Number.check(&name, &Json::Integer(7)), Ok(()));
    assert_eq!(Kind::Number.check(&name, &number), Ok(()));
    assert_eq!(Kind::Number.check(&name, &text("7")), wrong);

    assert_eq!(Kind::Text.check(&name, &text("")), Ok(()));
    assert_eq!(Kind::Text.check(&name, &Json::Null), wrong);

    assert_eq!(Kind::List.check(&name, &Json::Array(vec![])), Ok(()));
    assert_eq!(Kind::List.check(&name, &object(vec![])), wrong);

    assert_eq!(Kind::Record.check(&name, &object(vec![])), Ok(()));
    assert_eq!(Kind::Record.check(&name, &Json::Array(vec![])), wrong);
}

#[test]
fn a_choice_admits_its_texts_only() {
    let name = "status".to_string();
    let kind = Kind::choice(&["Accepted", "Pending", "Rejected"]);
    assert_eq!(
        kind,
        Kind::Choice(vec![
            "Accepted".to_string(),
            "Pending".to_string(),
            "Rejected".to_string()
        ])
    );
    assert_eq!(kind.check(&name, &text("Accepted")), Ok(()));
    assert_eq!(kind.check(&name, &text("Rejected")), Ok(()));
    assert_eq!(
        kind.check(&name, &text("accepted")),
        Err(Violation::InvalidValue("status".to_string()))
    );
    assert_eq!(
        kind.check(&name, &Json::Integer(1)),
        Err(Violation::WrongType("status".to_string()))
    );
    assert_eq!(
        Kind::choice(&[]).check(&name, &text("Accepted")),
        Err(Violation::InvalidValue("status".to_string()))
    );
}

#[test]
fn a_field_that_is_not_required_may_be_absent_or_null() {
    let field = Field {
        name: "statusInfo".to_string(),
        kind: Kind::Record,
        required: false,
    };
    assert_eq!(field.check(&vec![]), Ok(()));
    assert_eq!(
        field.check(&vec![("statusInfo".to_string(), Json::Null)]),
        Ok(())
    );
    assert_eq!(
        field.check(&vec![("statusInfo".to_string(), object(vec![]))]),
        Ok(())
    );
    assert_eq!(
        field.check(&vec![("statusInfo".to_string(), text("x"))]),
        Err(Violation::WrongType("statusInfo".to_string()))
    );
}

#[test]
fn a_required_field_must_be_there_and_not_null() {
    let field = Field {
        name: "interval".to_string(),
        kind: Kind::Integer,
        required: true,
    };
    assert_eq!(
        field.check(&vec![]),
        Err(Violation::Missing("interval".to_string()))
    );
    assert_eq!(
        field.check(&vec![("interval".to_string(), Json::Null)]),
        Err(Violation::WrongType("interval".to_string()))
    );
    assert_eq!(
        field.check(&vec![("interval".to_string(), Json::Integer(300))]),
        Ok(())
    );
    // The member that counts is the last one of the name.
    assert_eq!(
        field.check(&vec![
            ("interval".to_string(), text("soon")),
            ("interval".to_string(), Json::Integer(300)),
        ]),
        Ok(())
    );
}

#[test]
fn a_shape_reports_its_first_violation() {
    let shape = Shape::new()
        .with("a", Kind::Integer, true)
        .with("b", Kind::Text, true)
        .with("c", Kind::Bool, false);
    assert_eq!(
        shape,
        Shape {
            fields: vec![
                Field {
                    name: "a".to_string(),
                    kind: Kind::Integer,
                    required: true
                },
                Field {
                    name: "b".to_string(),
                    kind: Kind::Text,
                    required: true
                },
                Field {
                    name: "c".to_string(),
                    kind: Kind::Bool,
                    required: false
                },
            ]
        }
    );

    assert_eq!(
        shape.check(&object(vec![("a", Json::Integer(1)), ("b", text("x"))])),
        Ok(())
    );
    assert_eq!(
        shape.check(&object(vec![
            ("b", text("x")),
            ("extra", Json::Null),
            ("a", Json::Integer(1)),
        ])),
        Ok(())
    );
    assert_eq!(
        shape.check(&object(vec![("a", text("1")), ("c", Json::Integer(0))])),
        Err(Violation::WrongType("a".to_string()))
    );
    assert_eq!(
        shape.check(&object(vec![("a", Json::Integer(1)), ("c", Json::Integer(0))])),
        Err(Violation::Missing("b".to_string()))
    );
    assert_eq!(
        shape.check(&object(vec![
            ("a", Json::Integer(1)),
            ("b", text("x")),
            ("c", Json::Integer(0)),
        ])),
        Err(Violation::WrongType("c".to_string()))
    );
    assert_eq!(shape.check(&Json::Array(vec![])), Err(Violation::NotAnObject));
    assert_eq!(shape.check(&Json::Null), Err(Violation::NotAnObject));
}

#[test]
fn the_empty_shape_admits_any_object() {
    assert_eq!(Shape::new().check(&object(vec![])), Ok(()));
    assert_eq!(
        Shape::new().check(&object(vec![("x", Json::Integer(1))])),
        Ok(())
    );
    assert_eq!(Shape::new().check(&text("x")), Err(Violation::NotAnObject));
}

#[test]
fn an_empty_table_resolves_nothing() {
    let registry = ActionRegistry::new();
    assert_eq!(registry.len(), 0);
    assert_eq!(registry.resolve("BootNotification"), None);
}

#[test]
fn the_last_entry_of_a_name_is_the_one_resolved() {
    let mut registry = ActionRegistry::new();
    let first = Action {
        name: "Reset".to_string(),
        request: Shape::new(),
        response: Shape::new(),
    };
    let second = Action {
        name: "Reset".to_string(),
        request: Shape::new().with("type", Kind::Text, true),
        response: Shape::new(),
    };
    registry.register(first.clone());
    assert_eq!(registry.resolve("Reset"), Some(&first));
    registry.register(second.clone());
    assert_eq!(registry.len(), 2);
    assert_eq!(registry.resolve("Reset"), Some(&second));
    assert_eq!(registry.resolve("reset"), None);
}

#[test]
fn the_standard_table_has_three_actions() {
    let registry = ActionRegistry::standard();
    assert_eq!(registry.len(), 3);

    let boot = registry.resolve("BootNotification").unwrap();
    assert_eq!(boot.name, "BootNotification");
    assert_eq!(
        boot.request,
        Shape::new()
            .with("chargingStation", Kind::Record, true)
            .with(
                "reason",
                Kind::choice(&[
                    "ApplicationReset",
                    "FirmwareUpdate",
                    "LocalReset",
                    "PowerUp",
                    "RemoteReset",
                    "ScheduledReset",
                    "Triggered",
                    "Unknown",
                    "Watchdog",
                ]),
                true
            )
    );
    assert_eq!(
        boot.response,
        Shape::new()
            .with("currentTime", Kind::Text, true)
            .with("interval", Kind::Integer, true)
            .with(
                "status",
                Kind::choice(&["Accepted", "Pending", "Rejected"]),
                true
            )
            .with("statusInfo", Kind::Record, false)
    );

    let heartbeat = registry.resolve("Heartbeat").unwrap();
    assert_eq!(heartbeat.request, Shape::new());
    assert_eq!(
        heartbeat.response,
        Shape::new().with("currentTime", Kind::Text, true)
    );

    let status = registry.resolve("StatusNotification").unwrap();
    assert_eq!(
        status.request,
        Shape::new()
            .with("timestamp", Kind::Text, true)
            .with(
                "connectorStatus",
                Kind::choice(&[
                    "Available",
                    "Occupied",
                    "Reserved",
                    "Unavailable",
                    "Faulted"
                ]),
                true
            )
            .with("evseId", Kind::Integer, true)
            .with("connectorId", Kind::Integer, true)
    );
    assert_eq!(status.response, Shape::new());

    assert_eq!(registry.resolve("UnknownAction"), None);
}
