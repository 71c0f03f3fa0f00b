use raworc_mcp::client::{HttpMethod, HttpOutcome, HttpRequest};
use raworc_mcp::error::{RaworcError, RaworcResult};
use raworc_mcp::json::Json;
use raworc_mcp::mcp::{RaworcMcpServer, ToolStep};
use raworc_mcp::models::ToolCallResponse;
use raworc_mcp::Config;

fn config() -> Config {
    Config::new("http://localhost:9000/api/v0".to_string())
}

fn server() -> RaworcMcpServer {
    RaworcMcpServer::new(config()).unwrap()
}

fn args(text: &str) -> Json {
    Json::parse(text).unwrap()
}

fn ok(status: u16, body: &str) -> HttpOutcome {
    HttpOutcome::Response { status, body: Ok(body.to_string()) }
}

/// Runs a tool call against the outcomes given, one for each request sent.
fn run(
    server: &mut RaworcMcpServer,
    name: &str,
    arguments: &Json,
    outcomes: Vec<HttpOutcome>,
) -> (Vec<HttpRequest>, RaworcResult<ToolCallResponse>) {
    let mut sent = Vec::new();
    let mut outcomes = outcomes.into_iter();
    let mut step = server.handle_tool_call(name, arguments);
    loop {
        match step {
            ToolStep::Done(result) => {
                assert!(outcomes.next().is_none(), "an outcome was left over");
                return (sent, result);
            }
            ToolStep::Send(pending, request) => {
                sent.push(request);
                let outcome = outcomes.next().expect("a request more than outcomes");
                step = server.handle_response(pending, &outcome);
            }
        }
    }
}

fn text_of(result: RaworcResult<ToolCallResponse>) -> String {
    let response = result.unwrap();
    assert_eq!(response.content.len(), 1);
    assert_eq!(response.content[0].content_type, "text");
    assert!(response.content[0].image_url.is_none());
    response.content[0].text.clone().unwrap()
}

const SESSION: &str = r#"{"id":"s1","space":"lab","created_by":"ann","state":"RUNNING","container_id":null,"created_at":"2024-05-01T10:00:00+02:00","started_at":"2024-05-01T08:00:01.500Z","metadata":{"b":1,"a":[true,null]},"extra":"dropped"}"#;

#[test]
fn get_session_without_session_id_is_a_validation_error() {
    let mut server = server();
    let (sent, result) = run(&mut server, "get_session", &args("{}"), vec![]);
    assert!(sent.is_empty());
    let error = result.unwrap_err();
    assert_eq!(error, RaworcError::ValidationError("session_id is required".to_string()));
    assert_eq!(error.to_string(), "Invalid input: session_id is required");
}

#[test]
fn update_session_state_with_unknown_state_is_a_validation_error() {
    let mut server = server();
    let (sent, result) = run(
        &mut server,
        "update_session_state",
        &args(r#"{"session_id":"s1","state":"BOGUS"}"#),
        vec![],
    );
    assert!(sent.is_empty());
    assert_eq!(
        result.unwrap_err(),
        RaworcError::ValidationError("Invalid session state".to_string())
    );
}

#[test]
fn session_state_literals_are_case_sensitive() {
    let mut server = server();
    let (sent, result) = run(
        &mut server,
        "update_session_state",
        &args(r#"{"session_id":"s1","state":"running"}"#),
        vec![],
    );
    assert!(sent.is_empty());
    assert_eq!(
        result.unwrap_err(),
        RaworcError::ValidationError("Invalid session state".to_string())
    );
}

#[test]
fn update_session_state_sends_the_state() {
    let mut server = server();
    let (sent, result) = run(
        &mut server,
        "update_session_state",
        &args(r#"{"session_id":"s1","state":"PAUSED","space":"lab"}"#),
        vec![ok(200, "null")],
    );
    assert_eq!(sent.len(), 1);
    assert_eq!(sent[0].method, HttpMethod::Put);
    assert_eq!(sent[0].url, "http://localhost:9000/api/v0/spaces/lab/sessions/s1/state");
    assert_eq!(sent[0].body, Some(r#"{"state":"PAUSED"}"#.to_string()));
    assert_eq!(text_of(result), "Session state updated successfully");
}

#[test]
fn not_found_carries_the_body_as_it_came() {
    let mut server = server();
    let body = r#"{"error":{"message":"no such session"}}"#;
    let (sent, result) =
        run(&mut server, "get_session", &args(r#"{"session_id":"s1"}"#), vec![ok(404, body)]);
    assert_eq!(sent.len(), 1);
    assert_eq!(sent[0].method, HttpMethod::Get);
    assert_eq!(sent[0].url, "http://localhost:9000/api/v0/spaces/default/sessions/s1");
    assert_eq!(sent[0].body, None);
    let error = result.unwrap_err();
    assert_eq!(error, RaworcError::NotFound(body.to_string()));
    assert_eq!(
        error.to_string(),
        r#"Resource not found: {"error":{"message":"no such session"}}"#
    );
}

#[test]
fn pause_session_confirms_with_a_fixed_text() {
    let mut server = server();
    let (sent, result) =
        run(&mut server, "pause_session", &args(r#"{"session_id":"s1"}"#), vec![ok(200, "null")]);
    assert_eq!(sent.len(), 1);
    assert_eq!(sent[0].method, HttpMethod::Post);
    assert_eq!(sent[0].url, "http://localhost:9000/api/v0/spaces/default/sessions/s1/pause");
    assert_eq!(sent[0].body, Some("null".to_string()));
    assert_eq!(text_of(result), "Session paused successfully");
}

#[test]
fn unknown_tool_is_a_protocol_error() {
    let mut server = server();
    let (sent, result) = run(&mut server, "frobnicate", &args("{}"), vec![]);
    assert!(sent.is_empty());
    let error = result.unwrap_err();
    assert_eq!(error, RaworcError::McpError("Unknown tool: frobnicate".to_string()));
    assert!(!matches!(error, RaworcError::ValidationError(_)));
    assert_eq!(error.to_string(), "MCP protocol error: Unknown tool: frobnicate");
}

#[test]
fn space_falls_back_to_default() {
    let mut server = server();
    let (sent, _) = run(&mut server, "list_sessions", &args("{}"), vec![ok(200, "[]")]);
    assert_eq!(sent[0].url, "http://localhost:9000/api/v0/spaces/default/sessions");
}

#[test]
fn space_falls_back_to_the_configured_space() {
    let mut server =
        RaworcMcpServer::new(config().with_default_space("team".to_string())).unwrap();
    let (sent, _) = run(&mut server, "list_agents", &args("{}"), vec![ok(200, "[]")]);
    assert_eq!(sent[0].url, "http://localhost:9000/api/v0/spaces/team/agents");
}

#[test]
fn space_argument_overrides_the_configured_space() {
    let mut server =
        RaworcMcpServer::new(config().with_default_space("team".to_string())).unwrap();
    let (sent, _) =
        run(&mut server, "list_secrets", &args(r#"{"space":"lab"}"#), vec![ok(200, "[]")]);
    assert_eq!(sent[0].url, "http://localhost:9000/api/v0/spaces/lab/secrets");
}

#[test]
fn a_space_that_is_no_text_counts_as_absent() {
    let mut server = server();
    let (sent, _) = run(&mut server, "list_sessions", &args(r#"{"space":7}"#), vec![ok(200, "[]")]);
    assert_eq!(sent[0].url, "http://localhost:9000/api/v0/spaces/default/sessions");
}

#[test]
fn get_messages_passes_the_limit() {
    let mut server = server();
    let (sent, result) = run(
        &mut server,
        "get_messages",
        &args(r#"{"session_id":"s1","limit":25}"#),
        vec![ok(200, "[]")],
    );
    assert_eq!(
        sent[0].url,
        "http://localhost:9000/api/v0/spaces/default/sessions/s1/messages?limit=25"
    );
    assert_eq!(text_of(result), "[]");
}

#[test]
fn get_messages_without_a_usable_limit_sends_none() {
    let mut server = server();
    for arguments in [r#"{"session_id":"s1"}"#, r#"{"session_id":"s1","limit":-3}"#, r#"{"session_id":"s1","limit":"5"}"#, r#"{"session_id":"s1","limit":2.5}"#] {
        let (sent, _) = run(&mut server, "get_messages", &args(arguments), vec![ok(200, "[]")]);
        assert_eq!(sent[0].url, "http://localhost:9000/api/v0/spaces/default/sessions/s1/messages");
    }
}

#[test]
fn send_message_checks_its_arguments_in_order() {
    let mut server = server();
    let (_, result) = run(&mut server, "send_message", &args("{}"), vec![]);
    assert_eq!(
        result.unwrap_err(),
        RaworcError::ValidationError("session_id is required".to_string())
    );
    let (_, result) = run(&mut server, "send_message", &args(r#"{"session_id":"s1"}"#), vec![]);
    assert_eq!(result.unwrap_err(), RaworcError::ValidationError("content is required".to_string()));
}

#[test]
fn send_message_posts_the_content() {
    let mut server = server();
    let reply = r#"{"id":"m1","session_id":"s1","role":"user","content":"hi","created_at":"2024-05-01T10:00:00Z"}"#;
    let (sent, result) = run(
        &mut server,
        "send_message",
        &args(r#"{"session_id":"s1","content":"hi"}"#),
        vec![ok(201, reply)],
    );
    assert_eq!(sent[0].method, HttpMethod::Post);
    assert_eq!(sent[0].url, "http://localhost:9000/api/v0/spaces/default/sessions/s1/messages");
    assert_eq!(sent[0].body, Some(r#"{"content":"hi"}"#.to_string()));
    assert_eq!(
        text_of(result),
        "{\n  \"id\": \"m1\",\n  \"session_id\": \"s1\",\n  \"role\": \"user\",\n  \"content\": \"hi\",\n  \"created_at\": \"2024-05-01T10:00:00Z\"\n}"
    );
}

#[test]
fn a_fetched_session_is_shown_with_its_known_members() {
    let mut server = server();
    let (_, result) =
        run(&mut server, "get_session", &args(r#"{"session_id":"s1"}"#), vec![ok(200, SESSION)]);
    let text = text_of(result);
    let shown = Json::parse(&text).unwrap();
    assert_eq!(shown.str_at("id"), Some("s1"));
    assert_eq!(shown.str_at("space"), Some("lab"));
    assert_eq!(shown.str_at("created_by"), Some("ann"));
    assert_eq!(shown.str_at("state"), Some("RUNNING"));
    assert!(shown.get("container_id").unwrap().is_null());
    assert!(shown.get("persistent_volume_id").unwrap().is_null());
    assert_eq!(shown.str_at("created_at"), Some("2024-05-01T08:00:00Z"));
    assert_eq!(shown.str_at("started_at"), Some("2024-05-01T08:00:01.500Z"));
    assert!(shown.get("terminated_at").unwrap().is_null());
    assert_eq!(shown.get("metadata").unwrap().to_text(), r#"{"b":1,"a":[true,null]}"#);
    assert!(shown.get("extra").is_none());
    assert_eq!(shown.as_object().unwrap().len(), 13);
    assert!(text.starts_with("{\n  \"id\": \"s1\",\n  \"space\": \"lab\","));
}

#[test]
fn a_body_of_another_shape_is_a_json_error() {
    let mut server = server();
    let (_, result) = run(
        &mut server,
        "get_session",
        &args(r#"{"session_id":"s1"}"#),
        vec![ok(200, r#"{"id":"s1"}"#)],
    );
    assert_eq!(
        result.unwrap_err(),
        RaworcError::JsonError("response does not have the expected shape".to_string())
    );
}

#[test]
fn a_body_that_is_no_json_is_a_json_error() {
    let mut server = server();
    let (_, result) =
        run(&mut server, "get_version", &args("{}"), vec![ok(200, "<html>")]);
    match result.unwrap_err() {
        RaworcError::JsonError(message) => assert!(message.contains("line 1 column 1")),
        other => panic!("unexpected error: {:?}", other),
    }
}

#[test]
fn a_body_that_cannot_be_read_is_an_http_error() {
    let mut server = server();
    let outcome = HttpOutcome::Response { status: 200, body: Err("connection reset".to_string()) };
    let (_, result) = run(&mut server, "get_version", &args("{}"), vec![outcome]);
    assert_eq!(result.unwrap_err(), RaworcError::HttpError("connection reset".to_string()));
}

#[test]
fn other_statuses_are_api_errors() {
    let mut server = server();
    let (_, result) = run(
        &mut server,
        "list_spaces",
        &args("{}"),
        vec![ok(500, r#"{"error":{"message":"boom","code":7},"trace":"x"}"#)],
    );
    let error = result.unwrap_err();
    assert_eq!(error, RaworcError::ApiError { status: 500, message: "boom".to_string() });
    assert_eq!(error.to_string(), "API error: boom");
    let (_, result) = run(&mut server, "list_spaces", &args("{}"), vec![ok(503, "try later")]);
    assert_eq!(
        result.unwrap_err(),
        RaworcError::ApiError { status: 503, message: "try later".to_string() }
    );
    let unread = HttpOutcome::Response { status: 502, body: Err("reset".to_string()) };
    let (_, result) = run(&mut server, "list_spaces", &args("{}"), vec![unread]);
    assert_eq!(
        result.unwrap_err(),
        RaworcError::ApiError { status: 502, message: "Unknown error".to_string() }
    );
}

#[test]
fn transport_failures_are_http_errors_and_timeouts() {
    let mut server = server();
    let failed = HttpOutcome::Failed { timed_out: false, message: "refused".to_string() };
    let (_, result) = run(&mut server, "list_spaces", &args("{}"), vec![failed]);
    let error = result.unwrap_err();
    assert_eq!(error, RaworcError::HttpError("refused".to_string()));
    assert_eq!(error.to_string(), "HTTP request failed: refused");
    let late = HttpOutcome::Failed { timed_out: true, message: "deadline".to_string() };
    let (_, result) = run(&mut server, "list_spaces", &args("{}"), vec![late]);
    let error = result.unwrap_err();
    assert_eq!(error, RaworcError::TimeoutError("deadline".to_string()));
    assert_eq!(error.to_string(), "Timeout error: deadline");
}

#[test]
fn health_check_passes_text_through() {
    let mut server =
        RaworcMcpServer::new(config().with_auth_token("t".to_string())).unwrap();
    let (sent, result) = run(&mut server, "health_check", &args("{}"), vec![ok(200, "OK\n")]);
    assert_eq!(sent[0].url, "http://localhost:9000/api/v0/health");
    assert!(sent[0].headers.is_empty());
    assert_eq!(text_of(result), "OK\n");
    let (_, result) = run(&mut server, "health_check", &args("{}"), vec![ok(503, "down")]);
    assert_eq!(text_of(result), "down");
    let unread = HttpOutcome::Response { status: 200, body: Err("reset".to_string()) };
    let (_, result) = run(&mut server, "health_check", &args("{}"), vec![unread]);
    assert_eq!(text_of(result), "");
}

#[test]
fn agent_logs_pass_text_through() {
    let mut server = server();
    let arguments = args(r#"{"space":"lab","agent_name":"a1"}"#);
    let (sent, result) = run(&mut server, "get_agent_logs", &arguments, vec![ok(200, "{not json")]);
    assert_eq!(sent[0].url, "http://localhost:9000/api/v0/spaces/lab/agents/a1/logs");
    assert_eq!(text_of(result), "{not json");
    let unread = HttpOutcome::Response { status: 200, body: Err("reset".to_string()) };
    let (_, result) = run(&mut server, "get_agent_logs", &arguments, vec![unread]);
    assert_eq!(text_of(result), "");
    let (_, result) = run(&mut server, "get_agent_logs", &arguments, vec![ok(404, "gone")]);
    assert_eq!(result.unwrap_err(), RaworcError::NotFound("gone".to_string()));
    let (_, result) = run(&mut server, "get_agent_logs", &args(r#"{"agent_name":"a1"}"#), vec![]);
    assert_eq!(result.unwrap_err(), RaworcError::ValidationError("space is required".to_string()));
}

#[test]
fn delete_ignores_the_body() {
    let mut server = server();
    let (sent, result) = run(
        &mut server,
        "delete_secret",
        &args(r#"{"space":"lab","key":"k"}"#),
        vec![ok(204, "")],
    );
    assert_eq!(sent[0].method, HttpMethod::Delete);
    assert_eq!(sent[0].url, "http://localhost:9000/api/v0/spaces/lab/secrets/k");
    assert_eq!(text_of(result), "Secret deleted successfully");
}

#[test]
fn create_agent_sends_what_it_was_given() {
    let mut server = server();
    let agent = r#"{"name":"a1","image":"img","status":"running","env":{"K":"V"},"command":["run","it"],"resources":{"cpu":"2"},"created_at":"2024-05-01T10:00:00Z","updated_at":"2024-05-01T10:00:00Z"}"#;
    let (sent, result) = run(
        &mut server,
        "create_agent",
        &args(r#"{"space":"lab","name":"a1","purpose":"test","source_branch":"main"}"#),
        vec![ok(200, agent)],
    );
    assert_eq!(sent[0].method, HttpMethod::Post);
    assert_eq!(sent[0].url, "http://localhost:9000/api/v0/spaces/lab/agents");
    assert_eq!(
        sent[0].body,
        Some(r#"{"name":"a1","description":null,"purpose":"test","source_repo":null,"source_branch":"main","image":null,"command":null,"env":null,"resources":null}"#.to_string())
    );
    let shown = Json::parse(&text_of(result)).unwrap();
    assert_eq!(
        shown.to_text(),
        r#"{"name":"a1","description":null,"image":"img","command":["run","it"],"env":{"K":"V"},"resources":{"cpu":"2","memory":null,"gpu":null},"status":"running","created_at":"2024-05-01T10:00:00Z","updated_at":"2024-05-01T10:00:00Z"}"#
    );
}

#[test]
fn update_agent_status_checks_the_status() {
    let mut server = server();
    let (sent, result) = run(
        &mut server,
        "update_agent_status",
        &args(r#"{"space":"lab","agent_name":"a1","status":"Active"}"#),
        vec![],
    );
    assert!(sent.is_empty());
    assert_eq!(
        result.unwrap_err(),
        RaworcError::ValidationError("Invalid agent status".to_string())
    );
    let (sent, result) = run(
        &mut server,
        "update_agent_status",
        &args(r#"{"space":"lab","agent_name":"a1","status":"inactive"}"#),
        vec![ok(200, "null")],
    );
    assert_eq!(sent[0].method, HttpMethod::Patch);
    assert_eq!(sent[0].url, "http://localhost:9000/api/v0/spaces/lab/agents/a1/status");
    assert_eq!(sent[0].body, Some(r#"{"status":"inactive"}"#.to_string()));
    assert_eq!(text_of(result), "Agent status updated successfully");
}

#[test]
fn create_role_reads_its_rules() {
    let mut server = server();
    let (_, result) = run(&mut server, "create_role", &args(r#"{"id":"r"}"#), vec![]);
    assert_eq!(result.unwrap_err(), RaworcError::ValidationError("rules is required".to_string()));
    let (sent, result) =
        run(&mut server, "create_role", &args(r#"{"id":"r","rules":[{"scope":"x"}]}"#), vec![]);
    assert!(sent.is_empty());
    assert_eq!(
        result.unwrap_err(),
        RaworcError::JsonError("rules is not a list of role rules".to_string())
    );
    let role = r#"{"name":"r","rules":[],"created_at":"2024-05-01T10:00:00Z"}"#;
    let (sent, _) = run(
        &mut server,
        "create_role",
        &args(r#"{"id":"r","rules":[{"resources":["a"],"verbs":["get","list"],"scope":"x","more":1}]}"#),
        vec![ok(200, role)],
    );
    assert_eq!(sent[0].url, "http://localhost:9000/api/v0/roles");
    assert_eq!(
        sent[0].body,
        Some(r#"{"id":"r","description":null,"rules":[{"resources":["a"],"verbs":["get","list"],"scope":"x"}]}"#.to_string())
    );
}

#[test]
fn create_session_passes_metadata_through() {
    let mut server = server();
    let (sent, _) = run(
        &mut server,
        "create_session",
        &args(r#"{"space":"lab","metadata":{"n":1.5,"deep":{"x":[1,2]}}}"#),
        vec![ok(200, SESSION)],
    );
    assert_eq!(sent[0].url, "http://localhost:9000/api/v0/spaces/lab/sessions");
    assert_eq!(
        sent[0].body,
        Some(r#"{"space":null,"metadata":{"n":1.5,"deep":{"x":[1,2]}}}"#.to_string())
    );
}

#[test]
fn every_tool_of_the_global_resources_has_its_path() {
    let mut server = server();
    let cases = [
        ("list_service_accounts", "{}", HttpMethod::Get, "service-accounts"),
        ("get_service_account", r#"{"id":"7"}"#, HttpMethod::Get, "service-accounts/7"),
        ("delete_service_account", r#"{"id":"7"}"#, HttpMethod::Delete, "service-accounts/7"),
        ("list_roles", "{}", HttpMethod::Get, "roles"),
        ("get_role", r#"{"id":"7"}"#, HttpMethod::Get, "roles/7"),
        ("delete_role", r#"{"id":"7"}"#, HttpMethod::Delete, "roles/7"),
        ("list_role_bindings", "{}", HttpMethod::Get, "role-bindings"),
        ("get_role_binding", r#"{"id":"7"}"#, HttpMethod::Get, "role-bindings/7"),
        ("delete_role_binding", r#"{"id":"7"}"#, HttpMethod::Delete, "role-bindings/7"),
        ("close_session", r#"{"session_id":"s"}"#, HttpMethod::Post, "sessions/s/close"),
        ("restore_session", r#"{"session_id":"s"}"#, HttpMethod::Post, "sessions/s/restore"),
        ("remix_session", r#"{"session_id":"s"}"#, HttpMethod::Post, "sessions/s/remix"),
        ("get_space", r#"{"name":"lab"}"#, HttpMethod::Get, "spaces/lab"),
        ("delete_space", r#"{"name":"lab"}"#, HttpMethod::Delete, "spaces/lab"),
        ("get_latest_build", r#"{"space":"lab"}"#, HttpMethod::Get, "spaces/lab/build/latest"),
        ("get_build", r#"{"space":"lab","build_id":"b"}"#, HttpMethod::Get, "spaces/lab/build/b"),
        ("list_running_agents", r#"{"space":"lab"}"#, HttpMethod::Get, "spaces/lab/agents/running"),
        ("deploy_agent", r#"{"space":"lab","agent_name":"a"}"#, HttpMethod::Post, "spaces/lab/agents/a/deploy"),
        ("stop_agent", r#"{"space":"lab","agent_name":"a"}"#, HttpMethod::Post, "spaces/lab/agents/a/stop"),
    ];
    for (name, arguments, method, path) in cases {
        let failed = HttpOutcome::Failed { timed_out: false, message: "off".to_string() };
        let (sent, _) = run(&mut server, name, &args(arguments), vec![failed]);
        assert_eq!(sent.len(), 1, "{}", name);
        assert_eq!(sent[0].method, method, "{}", name);
        assert_eq!(sent[0].url, format!("http://localhost:9000/api/v0/{}", path), "{}", name);
    }
}

#[test]
fn test_mcp_server_creation() {
    let config = Config {
        api_url: Some("http://raworc.remoteagent.com:9000/api/v0".to_string()),
        auth_token: None,
        username: None,
        password: None,
        default_space: Some("test".to_string()),
        timeout_seconds: Some(30),
    };

    let server = RaworcMcpServer::new(config);
    assert!(server.is_ok());
}

#[test]
fn a_server_needs_a_url() {
    let error = RaworcMcpServer::new(Config::new("not a url".to_string())).err().unwrap();
    assert_eq!(
        error,
        RaworcError::ConfigError("Invalid API URL: relative URL without a base".to_string())
    );
    assert_eq!(
        error.to_string(),
        "Invalid configuration: Invalid API URL: relative URL without a base"
    );
}

#[test]
fn test_config_default() {
    let config = Config::default();
    assert_eq!(config.api_url, Some("http://raworc.remoteagent.com:9000/api/v0".to_string()));
    assert_eq!(config.default_space, Some("default".to_string()));
    assert_eq!(config.timeout_seconds, Some(30));
}

#[test]
fn a_configuration_is_built_step_by_step() {
    let config = Config::new("http://h".to_string())
        .with_auth_token("t".to_string())
        .with_credentials("u".to_string(), "p".to_string())
        .with_default_space("s".to_string())
        .with_timeout(9);
    assert_eq!(config.api_url, Some("http://h".to_string()));
    assert_eq!(config.auth_token, Some("t".to_string()));
    assert_eq!(config.username, Some("u".to_string()));
    assert_eq!(config.password, Some("p".to_string()));
    assert_eq!(config.default_space, Some("s".to_string()));
    assert_eq!(config.timeout_seconds, Some(9));
    let bare = Config::new("http://h".to_string());
    assert_eq!(bare.auth_token, None);
    assert_eq!(bare.username, None);
    assert_eq!(bare.password, None);
    assert_eq!(bare.default_space, None);
    assert_eq!(bare.timeout_seconds, None);
}

#[test]
fn every_tool_names_the_argument_it_misses() {
    let mut server = server();
    let cases = [
        ("get_session", "{}", "session_id"),
        ("send_message", r#"{"session_id":"s"}"#, "content"),
        ("get_messages", "{}", "session_id"),
        ("pause_session", "{}", "session_id"),
        ("resume_session", "{}", "session_id"),
        ("terminate_session", "{}", "session_id"),
        ("get_agent_logs", r#"{"space":"s"}"#, "agent_name"),
        ("get_secret", r#"{"space":"s"}"#, "key"),
        ("set_secret", r#"{"space":"s","key":"k"}"#, "value"),
        ("delete_secret", r#"{"key":"k"}"#, "space"),
        ("create_service_account", r#"{"user":"u"}"#, "pass"),
        ("get_service_account", "{}", "id"),
        ("update_service_account", "{}", "id"),
        ("delete_service_account", "{}", "id"),
        ("update_service_account_password", r#"{"id":"1","current_password":"a"}"#, "new_password"),
        ("create_role", "{}", "id"),
        ("get_role", "{}", "id"),
        ("delete_role", "{}", "id"),
        ("create_role_binding", r#"{"subject":"s"}"#, "role_ref"),
        ("get_role_binding", "{}", "id"),
        ("delete_role_binding", "{}", "id"),
        ("create_space", "{}", "name"),
        ("get_space", "{}", "name"),
        ("update_space", "{}", "name"),
        ("delete_space", "{}", "name"),
        ("update_session", "{}", "session_id"),
        ("update_session_state", r#"{"session_id":"s"}"#, "state"),
        ("close_session", "{}", "session_id"),
        ("restore_session", "{}", "session_id"),
        ("remix_session", "{}", "session_id"),
        ("get_message_count", "{}", "session_id"),
        ("clear_messages", "{}", "session_id"),
        ("create_agent", r#"{"space":"s"}"#, "name"),
        ("get_agent", "{}", "space"),
        ("update_agent", r#"{"space":"s"}"#, "agent_name"),
        ("delete_agent", r#"{"space":"s"}"#, "agent_name"),
        ("update_agent_status", r#"{"space":"s","agent_name":"a"}"#, "status"),
        ("deploy_agent", "{}", "space"),
        ("stop_agent", "{}", "space"),
        ("list_running_agents", "{}", "space"),
        ("create_secret", r#"{"space":"s","key_name":"k"}"#, "value"),
        ("update_secret", r#"{"space":"s"}"#, "key"),
        ("create_build", "{}", "space"),
        ("get_latest_build", "{}", "space"),
        ("get_build", r#"{"space":"s"}"#, "build_id"),
    ];
    for (name, arguments, missing) in cases {
        let (sent, result) = run(&mut server, name, &args(arguments), vec![]);
        assert!(sent.is_empty(), "{}", name);
        assert_eq!(
            result.unwrap_err(),
            RaworcError::ValidationError(format!("{} is required", missing)),
            "{}",
            name
        );
    }
}

#[test]
fn requests_carry_what_the_tools_were_given() {
    let mut server = server();
    let off = || HttpOutcome::Failed { timed_out: false, message: "off".to_string() };
    let cases = [
        (
            "create_service_account",
            r#"{"user":"u","pass":"p","description":"d"}"#,
            HttpMethod::Post,
            "service-accounts",
            r#"{"user":"u","pass":"p","space":null,"description":"d"}"#,
        ),
        (
            "update_service_account",
            r#"{"id":"7","active":false,"space":"lab"}"#,
            HttpMethod::Put,
            "service-accounts/7",
            r#"{"space":"lab","description":null,"active":false}"#,
        ),
        (
            "update_service_account_password",
            r#"{"id":"7","current_password":"a","new_password":"b"}"#,
            HttpMethod::Put,
            "service-accounts/7/password",
            r#"{"current_password":"a","new_password":"b"}"#,
        ),
        (
            "create_role_binding",
            r#"{"subject":"ann","role_ref":"admin","space":"lab"}"#,
            HttpMethod::Post,
            "role-bindings",
            r#"{"subject":"ann","role_ref":"admin","space":"lab"}"#,
        ),
        (
            "create_space",
            r#"{"name":"lab","settings":{"quota":3}}"#,
            HttpMethod::Post,
            "spaces",
            r#"{"name":"lab","description":null,"settings":{"quota":3}}"#,
        ),
        (
            "update_space",
            r#"{"name":"lab","description":"d"}"#,
            HttpMethod::Put,
            "spaces/lab",
            r#"{"description":"d","settings":null}"#,
        ),
        (
            "update_session",
            r#"{"session_id":"s","space":"lab","metadata":{"k":"v"}}"#,
            HttpMethod::Put,
            "spaces/lab/sessions/s",
            r#"{"space":"lab","metadata":{"k":"v"}}"#,
        ),
        (
            "remix_session",
            r#"{"session_id":"s","space":"lab"}"#,
            HttpMethod::Post,
            "sessions/s/remix",
            r#"{"space":"lab","metadata":null}"#,
        ),
        (
            "update_agent",
            r#"{"space":"lab","agent_name":"a","purpose":"p"}"#,
            HttpMethod::Put,
            "spaces/lab/agents/a",
            r#"{"description":null,"purpose":"p","source_repo":null,"source_branch":null,"image":null,"command":null,"env":null,"resources":null}"#,
        ),
        (
            "create_secret",
            r#"{"space":"lab","key_name":"k","value":"v"}"#,
            HttpMethod::Post,
            "spaces/lab/secrets",
            r#"{"key_name":"k","value":"v","description":null}"#,
        ),
        (
            "update_secret",
            r#"{"space":"lab","key":"k","value":"v2"}"#,
            HttpMethod::Put,
            "spaces/lab/secrets/k",
            r#"{"value":"v2","description":null}"#,
        ),
        (
            "set_secret",
            r#"{"space":"lab","key":"k","value":"v"}"#,
            HttpMethod::Post,
            "spaces/lab/secrets/k",
            r#"{"value":"v"}"#,
        ),
        (
            "create_build",
            r#"{"space":"lab","dockerfile":"FROM x"}"#,
            HttpMethod::Post,
            "spaces/lab/build",
            r#"{"dockerfile":"FROM x","context":null}"#,
        ),
        (
            "resume_session",
            r#"{"session_id":"s"}"#,
            HttpMethod::Post,
            "spaces/default/sessions/s/resume",
            "null",
        ),
    ];
    for (name, arguments, method, path, body) in cases {
        let (sent, _) = run(&mut server, name, &args(arguments), vec![off()]);
        assert_eq!(sent.len(), 1, "{}", name);
        assert_eq!(sent[0].method, method, "{}", name);
        assert_eq!(sent[0].url, format!("http://localhost:9000/api/v0/{}", path), "{}", name);
        assert_eq!(sent[0].body, Some(body.to_string()), "{}", name);
    }
}

#[test]
fn confirmations_of_the_tools() {
    let mut server = server();
    let cases = [
        ("resume_session", r#"{"session_id":"s"}"#, "Session resumed successfully"),
        ("terminate_session", r#"{"session_id":"s"}"#, "Session terminated successfully"),
        ("delete_service_account", r#"{"id":"1"}"#, "Service account deleted successfully"),
        (
            "update_service_account_password",
            r#"{"id":"1","current_password":"a","new_password":"b"}"#,
            "Password updated successfully",
        ),
        ("delete_role", r#"{"id":"1"}"#, "Role deleted successfully"),
        ("delete_role_binding", r#"{"id":"1"}"#, "Role binding deleted successfully"),
        ("delete_space", r#"{"name":"lab"}"#, "Space deleted successfully"),
        ("close_session", r#"{"session_id":"s"}"#, "Session closed successfully"),
        ("restore_session", r#"{"session_id":"s"}"#, "Session restored successfully"),
        ("clear_messages", r#"{"session_id":"s"}"#, "Messages cleared successfully"),
        ("delete_agent", r#"{"space":"l","agent_name":"a"}"#, "Agent deleted successfully"),
        ("deploy_agent", r#"{"space":"l","agent_name":"a"}"#, "Agent deployed successfully"),
        ("stop_agent", r#"{"space":"l","agent_name":"a"}"#, "Agent stopped successfully"),
    ];
    for (name, arguments, confirmation) in cases {
        let (_, result) = run(&mut server, name, &args(arguments), vec![ok(200, "null")]);
        assert_eq!(text_of(result), confirmation, "{}", name);
    }
}
