use post_discord_to_event::interaction::{
    classify, classify_fields, kind_from_code, InteractionKind, ParseError,
};
use post_discord_to_event::json::Field;

const PING: &[u8] = br#"{
    "app_permissions": "562949953601536",
    "application_id": "1300000000000000001",
    "entitlements": [],
    "id": "1300000000000000002",
    "token": "aW50ZXJhY3Rpb246MTMw",
    "type": 1,
    "user": {"id": "42", "username": "someone"},
    "version": 1
}"#;

const COMMAND: &[u8] = br#"{
    "application_id": "1300000000000000001",
    "channel_id": "1300000000000000003",
    "data": {"id": "77", "name": "deploy", "type": 1},
    "guild_id": "1300000000000000004",
    "id": "1300000000000000005",
    "member": {"user": {"id": "42", "username": "some \"one\""}, "roles": []},
    "token": "tok/en",
    "type": 2,
    "version": 1
}"#;

const COMPONENT: &[u8] = br#"{
    "application_id": "11",
    "channel_id": "12",
    "data": {"custom_id": "button-1", "component_type": 2},
    "id": "13",
    "token": "t",
    "type": 3,
    "user": {"id": "42", "username": "someone"}
}"#;

#[test]
fn ping_is_classified() {
    let interaction = classify(PING).expect("a ping");
    assert_eq!(interaction.kind, InteractionKind::Ping);
    assert_eq!(interaction.id, "1300000000000000002");
    assert_eq!(interaction.application_id, "1300000000000000001");
    assert_eq!(interaction.token, "aW50ZXJhY3Rpb246MTMw");
    assert_eq!(interaction.channel_id, None);
    assert_eq!(interaction.guild_id, None);
    assert_eq!(interaction.invoking_user_id, None);
    assert_eq!(interaction.invoking_username, None);
    assert_eq!(interaction.command_name, None);
    assert_eq!(interaction.raw_data, None);
}

#[test]
fn command_is_classified_with_its_fields() {
    let interaction = classify(COMMAND).expect("a command");
    assert_eq!(interaction.kind, InteractionKind::Command);
    assert_eq!(interaction.id, "1300000000000000005");
    assert_eq!(interaction.application_id, "1300000000000000001");
    assert_eq!(interaction.token, "tok/en");
    assert_eq!(interaction.channel_id.as_deref(), Some("1300000000000000003"));
    assert_eq!(interaction.guild_id.as_deref(), Some("1300000000000000004"));
    assert_eq!(interaction.invoking_user_id.as_deref(), Some("42"));
    assert_eq!(interaction.invoking_username.as_deref(), Some("some \"one\""));
    assert_eq!(interaction.command_name.as_deref(), Some("deploy"));
    let data: serde_json::Value =
        serde_json::from_str(interaction.raw_data.as_deref().expect("data")).expect("JSON");
    let expected: serde_json::Value =
        serde_json::from_str(r#"{"id": "77", "name": "deploy", "type": 1}"#).unwrap();
    assert_eq!(data, expected);
}

#[test]
fn component_interaction_is_classified() {
    let interaction = classify(COMPONENT).expect("a component interaction");
    assert_eq!(interaction.kind, InteractionKind::ComponentInteraction);
    assert_eq!(interaction.id, "13");
    assert_eq!(interaction.channel_id.as_deref(), Some("12"));
    assert_eq!(interaction.guild_id, None);
    assert_eq!(interaction.invoking_user_id, None);
    assert_eq!(interaction.command_name, None);
    assert!(interaction.raw_data.is_some());
}

#[test]
fn kinds_added_later_are_unknown() {
    for code in ["4", "5", "0", "9", "12", "255", "300"] {
        let body = format!(r#"{{"id":"1","application_id":"2","token":"t","type":{}}}"#, code);
        let interaction = classify(body.as_bytes()).expect("classified");
        assert_eq!(interaction.kind, InteractionKind::Unknown);
    }
}

#[test]
fn body_that_is_not_json_fails() {
    for body in [&b""[..], b"type=1", b"{\"type\":1", b"\xff\xfe", b"{\"type\":1} trailing"] {
        assert_eq!(classify(body).err(), Some(ParseError::NotJson));
    }
}

#[test]
fn body_without_a_kind_fails() {
    for body in [
        r#"{"id":"1","application_id":"2","token":"t"}"#,
        r#"{"id":"1","application_id":"2","token":"t","type":"1"}"#,
        r#"{"id":"1","application_id":"2","token":"t","type":1.5}"#,
        r#"{"id":"1","application_id":"2","token":"t","type":-1}"#,
        r#"{"id":"1","application_id":"2","token":"t","type":null}"#,
        r#"{"id":"1","application_id":"2","token":"t","type":true}"#,
        r#"{"id":"1","application_id":"2","token":"t","type":[1]}"#,
        r#"{"id":"1","application_id":"2","token":"t","type":{"type":1}}"#,
        r#"[1]"#,
        r#"1"#,
        r#""type""#,
        r#"null"#,
    ] {
        assert_eq!(classify(body.as_bytes()).err(), Some(ParseError::NoKind));
    }
}

#[test]
fn body_without_id_application_or_token_fails() {
    for body in [
        r#"{"application_id":"2","token":"t","type":1}"#,
        r#"{"id":"1","token":"t","type":1}"#,
        r#"{"id":"1","application_id":"2","type":1}"#,
        r#"{"id":1,"application_id":"2","token":"t","type":1}"#,
        r#"{"id":"1","application_id":null,"token":"t","type":2}"#,
        r#"{"type":3}"#,
    ] {
        assert_eq!(classify(body.as_bytes()).err(), Some(ParseError::MissingField));
    }
}

#[test]
fn kind_is_checked_before_the_other_fields() {
    assert_eq!(classify(br#"{"token":"t"}"#).err(), Some(ParseError::NoKind));
}

#[test]
fn optional_fields_of_another_type_are_left_out() {
    let body = br#"{"id":"1","application_id":"2","token":"t","type":2,
        "channel_id":5,"guild_id":null,"member":{"user":{"id":7,"username":["x"]}},
        "data":"text"}"#;
    let interaction = classify(body).expect("a command");
    assert_eq!(interaction.channel_id, None);
    assert_eq!(interaction.guild_id, None);
    assert_eq!(interaction.invoking_user_id, None);
    assert_eq!(interaction.invoking_username, None);
    assert_eq!(interaction.command_name, None);
    assert_eq!(interaction.raw_data, None);
}

#[test]
fn data_that_is_null_is_kept_as_json() {
    let body = br#"{"id":"1","application_id":"2","token":"t","type":2,"data":null}"#;
    let interaction = classify(body).expect("a command");
    assert_eq!(interaction.raw_data.as_deref(), Some("null"));
}

#[test]
fn kind_from_code_reads_whole_numbers() {
    assert_eq!(kind_from_code("1"), Some(InteractionKind::Ping));
    assert_eq!(kind_from_code("2"), Some(InteractionKind::Command));
    assert_eq!(kind_from_code("3"), Some(InteractionKind::ComponentInteraction));
    assert_eq!(kind_from_code("4"), Some(InteractionKind::Unknown));
    assert_eq!(kind_from_code("0"), Some(InteractionKind::Unknown));
    assert_eq!(kind_from_code("11"), Some(InteractionKind::Unknown));
    assert_eq!(kind_from_code("01"), Some(InteractionKind::Unknown));
    assert_eq!(kind_from_code(""), None);
    assert_eq!(kind_from_code("1.0"), None);
    assert_eq!(kind_from_code("-1"), None);
    assert_eq!(kind_from_code("1e3"), None);
    assert_eq!(kind_from_code(" 1"), None);
    assert_eq!(kind_from_code("\u{661}"), None);
}

fn fields(kind: Option<Field>) -> Vec<Option<Field>> {
    vec![
        kind,
        Some(Field::Text("id".to_string())),
        Some(Field::Text("app".to_string())),
        Some(Field::Text("token".to_string())),
        Some(Field::Text("channel".to_string())),
        None,
        Some(Field::Text("user".to_string())),
        Some(Field::Text("name".to_string())),
        Some(Field::Text("deploy".to_string())),
        Some(Field::Raw("{}".to_string())),
    ]
}

#[test]
fn classify_fields_takes_them_in_order() {
    let interaction =
        classify_fields(Some(fields(Some(Field::Raw("2".to_string()))))).expect("a command");
    assert_eq!(interaction.kind, InteractionKind::Command);
    assert_eq!(interaction.id, "id");
    assert_eq!(interaction.application_id, "app");
    assert_eq!(interaction.token, "token");
    assert_eq!(interaction.channel_id.as_deref(), Some("channel"));
    assert_eq!(interaction.guild_id, None);
    assert_eq!(interaction.invoking_user_id.as_deref(), Some("user"));
    assert_eq!(interaction.invoking_username.as_deref(), Some("name"));
    assert_eq!(interaction.command_name.as_deref(), Some("deploy"));
    assert_eq!(interaction.raw_data.as_deref(), Some("{}"));
}

#[test]
fn classify_fields_reports_each_failure() {
    assert_eq!(classify_fields(None).err(), Some(ParseError::NotJson));
    assert_eq!(classify_fields(Some(vec![])).err(), Some(ParseError::NoKind));
    assert_eq!(classify_fields(Some(fields(None))).err(), Some(ParseError::NoKind));
    assert_eq!(
        classify_fields(Some(fields(Some(Field::Text("2".to_string()))))).err(),
        Some(ParseError::NoKind)
    );
    assert_eq!(
        classify_fields(Some(fields(Some(Field::Raw("two".to_string()))))).err(),
        Some(ParseError::NoKind)
    );
    let mut short = fields(Some(Field::Raw("2".to_string())));
    short.pop();
    assert_eq!(classify_fields(Some(short)).err(), Some(ParseError::NoKind));
    let mut without_token = fields(Some(Field::Raw("2".to_string())));
    without_token[3] = None;
    assert_eq!(classify_fields(Some(without_token)).err(), Some(ParseError::MissingField));
    let mut raw_id = fields(Some(Field::Raw("2".to_string())));
    raw_id[1] = Some(Field::Raw("5".to_string()));
    assert_eq!(classify_fields(Some(raw_id)).err(), Some(ParseError::MissingField));
}

#[test]
fn ping_agrees_with_the_platform_model() {
    let modelled: serenity::all::Interaction = serde_json::from_slice(PING).expect("a ping");
    assert_eq!(modelled.kind(), serenity::all::InteractionType::Ping);
    let interaction = classify(PING).expect("a ping");
    assert_eq!(interaction.kind, InteractionKind::Ping);
    assert_eq!(interaction.id, modelled.id().get().to_string());
    assert_eq!(interaction.application_id, modelled.application_id().get().to_string());
    assert_eq!(interaction.token, modelled.token());
}
