use raworc_mcp::json::Json;
use raworc_mcp::models::{
    AgentStatus, BuildStatus, MessageCount, MessageRole, RoleRule, Secret, ServiceAccount,
    SessionState, Space, ToolCallContent, ToolCallResponse,
};
use raworc_mcp::shape::{list_from_json, list_to_json, Shape};
use raworc_mcp::text::{
    decimal, ends_with_slash, followed_by, is_blank, text_eq, trim, trim_leading_slashes,
};
use raworc_mcp::time::Timestamp;

#[test]
fn test_json_serialization() {
    let message = Json::Object(vec![
        ("jsonrpc".to_string(), Json::string("2.0")),
        ("id".to_string(), Json::unsigned(1)),
        ("method".to_string(), Json::string("test")),
        ("params".to_string(), Json::Object(vec![])),
    ]);

    let serialized = message.to_text();
    let deserialized = Json::parse(&serialized).unwrap();
    assert_eq!(serialized, r#"{"jsonrpc":"2.0","id":1,"method":"test","params":{}}"#);
    assert_eq!(deserialized.to_text(), serialized);
    assert_eq!(deserialized.str_at("jsonrpc"), Some("2.0"));
    assert_eq!(deserialized.u64_at("id"), Some(1));
    assert_eq!(deserialized.str_at("method"), Some("test"));
    assert_eq!(deserialized.object_at("params").unwrap().len(), 0);
}

#[test]
fn parsing_keeps_the_order_of_members() {
    let doc = Json::parse(r#" { "b" : 1 , "a" : [ 1.5 , -2 , "x" , null , false ] } "#).unwrap();
    assert_eq!(doc.to_text(), r#"{"b":1,"a":[1.5,-2,"x",null,false]}"#);
    assert_eq!(
        doc.to_pretty_text(),
        "{\n  \"b\": 1,\n  \"a\": [\n    1.5,\n    -2,\n    \"x\",\n    null,\n    false\n  ]\n}"
    );
}

#[test]
fn parsing_rejects_what_is_no_json() {
    assert_eq!(Json::parse("").unwrap_err(), "EOF while parsing a value at line 1 column 0");
    assert!(Json::parse("{").is_err());
    assert!(Json::parse("{\"a\":1} x").is_err());
}

#[test]
fn a_repeated_key_keeps_its_first_place_and_its_last_value() {
    let doc = Json::Object(vec![
        ("a".to_string(), Json::unsigned(1)),
        ("b".to_string(), Json::unsigned(2)),
        ("a".to_string(), Json::unsigned(3)),
    ]);
    assert_eq!(doc.to_text(), r#"{"a":3,"b":2}"#);
    assert_eq!(doc.u64_at("a"), Some(3));
    assert_eq!(doc.u64_at("b"), Some(2));
    let nested = Json::Array(vec![doc]);
    assert_eq!(nested.to_text(), r#"[{"a":3,"b":2}]"#);
    let parsed = Json::parse(r#"{"a":1,"b":2,"a":3}"#).unwrap();
    assert_eq!(parsed.to_text(), r#"{"a":3,"b":2}"#);
}

#[test]
fn members_are_read_by_their_kind() {
    let doc = Json::parse(r#"{"s":"x","n":7,"neg":-7,"f":7.0,"t":true,"o":{"k":null},"l":[],"z":null}"#)
        .unwrap();
    assert_eq!(doc.str_at("s"), Some("x"));
    assert_eq!(doc.str_at("n"), None);
    assert_eq!(doc.str_at("missing"), None);
    assert_eq!(doc.u64_at("n"), Some(7));
    assert_eq!(doc.u64_at("neg"), None);
    assert_eq!(doc.u64_at("f"), None);
    assert_eq!(doc.u64_at("s"), None);
    assert_eq!(doc.bool_at("t"), Some(true));
    assert_eq!(doc.bool_at("n"), None);
    assert_eq!(doc.object_at("o").unwrap().len(), 1);
    assert!(doc.object_at("l").is_none());
    assert!(doc.get("z").unwrap().is_null());
    assert!(doc.get("l").unwrap().as_array().unwrap().is_empty());
    assert!(doc.get("o").unwrap().get("k").unwrap().is_null());
    assert!(Json::string("x").get("s").is_none());
    assert_eq!(Json::unsigned(18446744073709551615).as_u64(), Some(18446744073709551615));
    assert_eq!(Json::signed(-32000).to_text(), "-32000");
    assert_eq!(Json::signed(-32000).as_u64(), None);
    assert_eq!(Json::signed(5).as_u64(), Some(5));
}

#[test]
fn a_copy_is_the_same_document() {
    let text = r#"{"s":"x","n":[1,-2,3.25,{"deep":[null,true]}],"o":{}}"#;
    let doc = Json::parse(text).unwrap();
    assert_eq!(doc.duplicate().to_text(), text);
}

#[test]
fn timestamps_are_kept_in_utc() {
    assert_eq!(Timestamp::parse("2024-05-01T10:00:00+02:00").unwrap().as_str(), "2024-05-01T08:00:00Z");
    assert_eq!(Timestamp::parse("2024-05-01T10:00:00Z").unwrap().as_str(), "2024-05-01T10:00:00Z");
    assert_eq!(
        Timestamp::parse("2024-05-01T10:00:00.120000-00:30").unwrap().as_str(),
        "2024-05-01T10:30:00.120Z"
    );
    assert!(Timestamp::parse("yesterday").is_none());
    assert!(Timestamp::parse("2024-05-01").is_none());
    assert!(Timestamp::parse("").is_none());
    let at = Timestamp::parse("2024-05-01T10:00:00Z").unwrap();
    assert_eq!(at.duplicate(), at);
}

#[test]
fn literals_of_the_enumerations() {
    for (text, state) in [
        ("INIT", SessionState::Init),
        ("RUNNING", SessionState::Running),
        ("PAUSED", SessionState::Paused),
        ("SUSPENDED", SessionState::Suspended),
        ("TERMINATED", SessionState::Terminated),
        ("IDLE", SessionState::Idle),
        ("CLOSED", SessionState::Closed),
    ] {
        assert_eq!(SessionState::from_text(text), Some(state));
        assert_eq!(state.as_str(), text);
    }
    assert_eq!(SessionState::from_text("Init"), None);
    assert_eq!(SessionState::from_text(" INIT"), None);
    assert_eq!(SessionState::from_text(""), None);
    for (text, status) in [
        ("stopped", AgentStatus::Stopped),
        ("running", AgentStatus::Running),
        ("error", AgentStatus::Error),
        ("active", AgentStatus::Active),
        ("inactive", AgentStatus::Inactive),
    ] {
        assert_eq!(AgentStatus::from_text(text), Some(status));
        assert_eq!(status.as_str(), text);
    }
    assert_eq!(AgentStatus::from_text("RUNNING"), None);
    assert_eq!(MessageRole::from_text("assistant"), Some(MessageRole::Assistant));
    assert_eq!(MessageRole::from_text("system"), Some(MessageRole::System));
    assert_eq!(MessageRole::from_text("user"), Some(MessageRole::User));
    assert_eq!(MessageRole::from_text("robot"), None);
    assert_eq!(BuildStatus::from_text("pending"), Some(BuildStatus::Pending));
    assert_eq!(BuildStatus::from_text("building"), Some(BuildStatus::Building));
    assert_eq!(BuildStatus::from_text("completed"), Some(BuildStatus::Completed));
    assert_eq!(BuildStatus::from_text("failed"), Some(BuildStatus::Failed));
    assert_eq!(BuildStatus::from_text("done"), None);
}

#[test]
fn a_space_is_read_and_written() {
    let doc = Json::parse(
        r#"{"updated_at":"2024-05-02T00:00:00+00:00","name":"lab","created_at":"2024-05-01T00:00:00Z","owner":"ann"}"#,
    )
    .unwrap();
    let space = Space::from_json(&doc).unwrap();
    assert_eq!(space.name, "lab");
    assert_eq!(space.description, None);
    assert_eq!(space.created_at.as_str(), "2024-05-01T00:00:00Z");
    assert_eq!(space.updated_at.as_str(), "2024-05-02T00:00:00Z");
    assert_eq!(
        space.to_json().to_text(),
        r#"{"name":"lab","description":null,"created_at":"2024-05-01T00:00:00Z","updated_at":"2024-05-02T00:00:00Z"}"#
    );
    let again = Space::from_json(&space.to_json()).unwrap();
    assert_eq!(again.to_json().to_text(), space.to_json().to_text());
}

#[test]
fn what_has_not_the_shape_is_not_read() {
    let read = |text: &str| Space::from_json(&Json::parse(text).unwrap()).is_some();
    assert!(read(r#"{"name":"lab","created_at":"2024-05-01T00:00:00Z","updated_at":"2024-05-01T00:00:00Z"}"#));
    assert!(!read(r#"{"created_at":"2024-05-01T00:00:00Z","updated_at":"2024-05-01T00:00:00Z"}"#));
    assert!(!read(r#"{"name":null,"created_at":"2024-05-01T00:00:00Z","updated_at":"2024-05-01T00:00:00Z"}"#));
    assert!(!read(r#"{"name":"lab","created_at":"soon","updated_at":"2024-05-01T00:00:00Z"}"#));
    assert!(!read(r#"{"name":"lab","description":3,"created_at":"2024-05-01T00:00:00Z","updated_at":"2024-05-01T00:00:00Z"}"#));
    assert!(!read(r#"["lab"]"#));
    assert!(!read(r#""lab""#));
    assert!(MessageCount::from_json(&Json::parse(r#"{"count":"3"}"#).unwrap()).is_none());
    assert!(MessageCount::from_json(&Json::parse(r#"{"count":3.5}"#).unwrap()).is_none());
    assert_eq!(MessageCount::from_json(&Json::parse(r#"{"count":3}"#).unwrap()).unwrap().count, 3);
    assert_eq!(MessageCount { count: 9 }.to_json().to_text(), r#"{"count":9}"#);
}

#[test]
fn lists_are_read_item_by_item() {
    let doc = Json::parse(
        r#"[{"key":"a","value":"1","created_at":"2024-05-01T00:00:00Z","updated_at":"2024-05-01T00:00:00Z"},
            {"key":"b","value":"2","created_at":"2024-05-01T00:00:00Z","updated_at":"2024-05-01T00:00:00Z"}]"#,
    )
    .unwrap();
    let secrets = list_from_json::<Secret>(&doc).unwrap();
    assert_eq!(secrets.len(), 2);
    assert_eq!(secrets[1].key, "b");
    assert_eq!(secrets[1].value, "2");
    assert_eq!(list_to_json(&secrets).to_text(), doc.to_text());
    let broken = Json::parse(r#"[{"key":"a","value":"1","created_at":"2024-05-01T00:00:00Z","updated_at":"2024-05-01T00:00:00Z"},{"key":"b"}]"#).unwrap();
    assert!(list_from_json::<Secret>(&broken).is_none());
    assert!(list_from_json::<Secret>(&Json::parse("{}").unwrap()).is_none());
    assert_eq!(list_from_json::<Secret>(&Json::parse("[]").unwrap()).unwrap().len(), 0);
    let rules = list_from_json::<RoleRule>(
        &Json::parse(r#"[{"resources":[],"verbs":["get"],"scope":"all"}]"#).unwrap(),
    )
    .unwrap();
    assert_eq!(rules[0].verbs, vec!["get".to_string()]);
    assert!(list_from_json::<RoleRule>(
        &Json::parse(r#"[{"resources":[1],"verbs":["get"],"scope":"all"}]"#).unwrap()
    )
    .is_none());
}

#[test]
fn a_service_account_is_read_and_written() {
    let doc = Json::parse(
        r#"{"id":"1","user":"svc","active":true,"created_at":"2024-05-01T00:00:00Z","updated_at":"2024-05-01T00:00:00Z","last_login_at":"2024-05-03T12:00:00+01:00"}"#,
    )
    .unwrap();
    let account = ServiceAccount::from_json(&doc).unwrap();
    assert!(account.active);
    assert_eq!(account.last_login_at.unwrap().as_str(), "2024-05-03T11:00:00Z");
    assert!(ServiceAccount::from_json(
        &Json::parse(r#"{"id":"1","user":"svc","active":"yes","created_at":"2024-05-01T00:00:00Z","updated_at":"2024-05-01T00:00:00Z"}"#).unwrap()
    )
    .is_none());
}

#[test]
fn a_tool_result_is_written_with_its_type() {
    let response = ToolCallResponse {
        content: vec![ToolCallContent {
            content_type: "text".to_string(),
            text: Some("hi".to_string()),
            image_url: None,
        }],
    };
    assert_eq!(
        response.to_json().to_text(),
        r#"{"content":[{"type":"text","text":"hi","image_url":null}]}"#
    );
    let read = ToolCallResponse::from_json(&response.to_json()).unwrap();
    assert_eq!(read.content[0].content_type, "text");
    assert_eq!(read.content[0].text, Some("hi".to_string()));
}

#[test]
fn texts() {
    assert!(text_eq("", ""));
    assert!(text_eq("aé", "aé"));
    assert!(!text_eq("a", "b"));
    assert!(!text_eq("a", "ab"));
    assert_eq!(followed_by("a", "é"), "aé");
    assert_eq!(trim_leading_slashes("//a/b/"), "a/b/");
    assert_eq!(trim_leading_slashes("a"), "a");
    assert_eq!(trim_leading_slashes("///"), "");
    assert!(ends_with_slash("a/"));
    assert!(!ends_with_slash("a"));
    assert!(!ends_with_slash(""));
    assert_eq!(decimal(0), "0");
    assert_eq!(decimal(9), "9");
    assert_eq!(decimal(10), "10");
    assert_eq!(decimal(1234567890), "1234567890");
    assert_eq!(decimal(u64::MAX), "18446744073709551615");
    assert!(is_blank(""));
    assert!(is_blank(" \t\r\n\u{a0}\u{3000}"));
    assert!(!is_blank(" x "));
    assert_eq!(trim("  a b \n"), "a b");
    assert_eq!(trim("\u{2003}é\u{2003}"), "é");
    assert_eq!(trim(" \n"), "");
    assert_eq!(trim("x"), "x");
}
