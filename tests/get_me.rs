use max_bot_api::endpoint::{check_status, is_success_status, read_get_me};
use max_bot_api::responses::{BotCommand, GetMeResponse};
use max_bot_api::{ClientError, Endpoint, JsonError};

const MOCK_BODY: &str = r#"{"user_id": 42, "first_name": "Bot", "is_bot": true, "last_activity_time": 1700000000000, "commands": []}"#;

const FULL_BODY: &str = r#"{
    "user_id": 7,
    "first_name": "Helper",
    "last_name": "Botson",
    "name": "Helper",
    "username": "helper_bot",
    "is_bot": true,
    "last_activity_time": -5,
    "description": "Answers questions",
    "avatar_url": "https://cdn.example/a.png",
    "full_avatar_url": "https://cdn.example/a_full.png",
    "commands": [
        {"name": "start", "description": "Begin"},
        {"name": "help"}
    ],
    "extra": {"ignored": [1, 2, 3]}
}"#;

fn json_error(r: Result<GetMeResponse, ClientError>) -> JsonError {
    match r {
        Err(ClientError::JsonError(j)) => j,
        other => panic!("expected a JSON error, got {:?}", other),
    }
}

#[test]
fn mock_server_body_decodes() {
    assert!(check_status(200).is_ok());
    let me = read_get_me(MOCK_BODY).unwrap();
    assert_eq!(me.user_id, 42);
    assert_eq!(me.first_name, "Bot");
    assert!(me.is_bot);
    assert_eq!(me.last_activity_time, 1700000000000);
    assert!(me.commands.is_empty());
    assert_eq!(me.last_name, None);
    assert_eq!(me.name, None);
    assert_eq!(me.username, None);
    assert_eq!(me.description, None);
    assert_eq!(me.avatar_url, None);
    assert_eq!(me.full_avatar_url, None);
}

#[test]
fn full_body_fields_match() {
    let me = read_get_me(FULL_BODY).unwrap();
    assert_eq!(me.user_id, 7);
    assert_eq!(me.first_name, "Helper");
    assert_eq!(me.last_name.as_deref(), Some("Botson"));
    assert_eq!(me.name.as_deref(), Some("Helper"));
    assert_eq!(me.username.as_deref(), Some("helper_bot"));
    assert!(me.is_bot);
    assert_eq!(me.last_activity_time, -5);
    assert_eq!(me.description.as_deref(), Some("Answers questions"));
    assert_eq!(me.avatar_url.as_deref(), Some("https://cdn.example/a.png"));
    assert_eq!(me.full_avatar_url.as_deref(), Some("https://cdn.example/a_full.png"));
    assert_eq!(
        me.commands,
        vec![
            BotCommand { name: "start".to_string(), description: Some("Begin".to_string()) },
            BotCommand { name: "help".to_string(), description: None },
        ]
    );
}

#[test]
fn escaped_string_is_unescaped() {
    let body = r#"{"user_id": 1, "first_name": "A \"quoted\" Bot", "is_bot": false, "last_activity_time": 0, "commands": []}"#;
    let me = read_get_me(body).unwrap();
    assert_eq!(me.first_name, "A \"quoted\" Bot");
    assert!(!me.is_bot);
}

#[test]
fn null_optional_fields_are_absent() {
    let body = r#"{"user_id": 1, "first_name": "B", "last_name": null, "username": null, "is_bot": true, "last_activity_time": 2, "description": null, "commands": [{"name": "x", "description": null}]}"#;
    let me = read_get_me(body).unwrap();
    assert_eq!(me.last_name, None);
    assert_eq!(me.username, None);
    assert_eq!(me.description, None);
    assert_eq!(me.commands[0].description, None);
}

#[test]
fn decoding_twice_gives_equal_identities() {
    let first = read_get_me(FULL_BODY).unwrap();
    let second = read_get_me(FULL_BODY).unwrap();
    assert_eq!(first, second);
}

#[test]
fn non_success_statuses_carry_the_code() {
    for code in [401u16, 404, 500, 199, 300, 100, 503] {
        assert_eq!(check_status(code), Err(ClientError::StatusError(code)));
    }
}

#[test]
fn success_statuses_pass() {
    for code in [200u16, 201, 204, 299] {
        assert_eq!(check_status(code), Ok(()));
        assert!(is_success_status(code));
    }
    assert!(!is_success_status(302));
}

#[test]
fn missing_user_id_is_a_json_error() {
    let body = r#"{"first_name": "Bot", "is_bot": true, "last_activity_time": 1, "commands": []}"#;
    assert_eq!(json_error(read_get_me(body)), JsonError::MissingField("user_id".to_string()));
}

#[test]
fn missing_commands_is_a_json_error() {
    let body = r#"{"user_id": 1, "first_name": "Bot", "is_bot": true, "last_activity_time": 1}"#;
    assert_eq!(json_error(read_get_me(body)), JsonError::MissingField("commands".to_string()));
}

#[test]
fn not_json_is_malformed() {
    assert!(matches!(json_error(read_get_me("not json")), JsonError::Malformed(_)));
    assert!(matches!(json_error(read_get_me("")), JsonError::Malformed(_)));
    assert!(matches!(json_error(read_get_me("[1, 2]")), JsonError::Malformed(_)));
    assert!(matches!(json_error(read_get_me(r#"{"user_id": 1"#)), JsonError::Malformed(_)));
}

#[test]
fn wrong_type_is_an_invalid_field() {
    let body = r#"{"user_id": "42", "first_name": "Bot", "is_bot": true, "last_activity_time": 1, "commands": []}"#;
    assert!(matches!(json_error(read_get_me(body)), JsonError::InvalidField(f, _) if f == "user_id"));
    let body = r#"{"user_id": 42, "first_name": "Bot", "is_bot": 1, "last_activity_time": 1, "commands": []}"#;
    assert!(matches!(json_error(read_get_me(body)), JsonError::InvalidField(f, _) if f == "is_bot"));
    let body = r#"{"user_id": 42, "first_name": "Bot", "is_bot": true, "last_activity_time": 1, "commands": {}}"#;
    assert!(matches!(json_error(read_get_me(body)), JsonError::InvalidField(f, _) if f == "commands"));
    let body = r#"{"user_id": 42, "first_name": "Bot", "username": 5, "is_bot": true, "last_activity_time": 1, "commands": []}"#;
    assert!(matches!(json_error(read_get_me(body)), JsonError::InvalidField(f, _) if f == "username"));
}

#[test]
fn integer_out_of_range_is_an_invalid_field() {
    let body = r#"{"user_id": 9223372036854775808, "first_name": "Bot", "is_bot": true, "last_activity_time": 1, "commands": []}"#;
    assert!(matches!(json_error(read_get_me(body)), JsonError::InvalidField(f, _) if f == "user_id"));
}

#[test]
fn first_fault_in_field_order_is_reported() {
    let body = r#"{"is_bot": "yes", "commands": []}"#;
    assert_eq!(json_error(read_get_me(body)), JsonError::MissingField("user_id".to_string()));
}

#[test]
fn bad_command_is_reported() {
    let body = r#"{"user_id": 1, "first_name": "Bot", "is_bot": true, "last_activity_time": 1, "commands": [{"name": "ok"}, {"description": "no name"}]}"#;
    assert_eq!(json_error(read_get_me(body)), JsonError::MissingField("name".to_string()));
    let body = r#"{"user_id": 1, "first_name": "Bot", "is_bot": true, "last_activity_time": 1, "commands": [3]}"#;
    assert!(matches!(json_error(read_get_me(body)), JsonError::Malformed(_)));
}

#[test]
fn bot_command_from_json() {
    let c = BotCommand::from_json(r#"{"name": "start", "description": "Go"}"#).unwrap();
    assert_eq!(c.name, "start");
    assert_eq!(c.description.as_deref(), Some("Go"));
    assert!(matches!(BotCommand::from_json(r#"{"name": 1}"#), Err(JsonError::InvalidField(f, _)) if f == "name"));
}

#[test]
fn get_me_response_from_json_matches_read_get_me() {
    let me = GetMeResponse::from_json(MOCK_BODY).unwrap();
    assert_eq!(Ok(me), read_get_me(MOCK_BODY));
}

#[test]
fn default_endpoint() {
    let e = Endpoint::new("secret-token");
    assert_eq!(e.base_url(), "https://botapi.max.ru");
    assert_eq!(e.access_token(), "secret-token");
    assert!(e.https_only());
    assert_eq!(e.me_url(), "https://botapi.max.ru/me?access_token=secret-token");
}

#[test]
fn endpoint_with_base_url() {
    let e = Endpoint::with_base_url("tok", "http://127.0.0.1:8080");
    assert_eq!(e.base_url(), "http://127.0.0.1:8080");
    assert!(!e.https_only());
    assert_eq!(e.me_url(), "http://127.0.0.1:8080/me?access_token=tok");
    let e = e.with_https_only(true);
    assert!(e.https_only());
    assert_eq!(e.me_url(), "http://127.0.0.1:8080/me?access_token=tok");
}
