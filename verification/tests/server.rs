use raworc_mcp::server::{Args, ArgsError};
use raworc_mcp::client::HttpOutcome;
use raworc_mcp::error::RaworcError;
use raworc_mcp::json::Json;
use raworc_mcp::mcp::ToolStep;
use raworc_mcp::models::{ToolCallContent, ToolCallResponse};
use raworc_mcp::server::{
    answer, classify, initialize_reply, initialized_notification, ping_reply, tool_call_reply,
    tools_list_reply, write_json, Inbound, McpServer, Routed,
};
use raworc_mcp::Config;

#[test]
fn test_parse_args() {
    let args = Args::try_parse_from(&["raworc-mcp", "--api-url", "http://test.com"]).unwrap();
    assert_eq!(args.api_url, "http://test.com");
}

#[test]
fn command_line_defaults() {
    let args = Args::try_parse_from(&["raworc-mcp"]).unwrap();
    assert_eq!(args.api_url, "http://raworc.remoteagent.com:9000/api/v0");
    assert_eq!(args.auth_token, None);
    assert_eq!(args.username, None);
    assert_eq!(args.password, None);
    assert_eq!(args.default_space, "default");
    assert_eq!(args.timeout, 30);
    assert_eq!(args.log_level, "info");
}

#[test]
fn command_line_with_every_option() {
    let args = Args::try_parse_from(&[
        "raworc-mcp",
        "--api-url=http://a/b",
        "--auth-token",
        "t0k",
        "--username=u",
        "--password",
        "p=q",
        "--default-space",
        "lab",
        "--timeout=45",
        "--log-level",
        "debug",
    ])
    .unwrap();
    assert_eq!(args.api_url, "http://a/b");
    assert_eq!(args.auth_token, Some("t0k".to_string()));
    assert_eq!(args.username, Some("u".to_string()));
    assert_eq!(args.password, Some("p=q".to_string()));
    assert_eq!(args.default_space, "lab");
    assert_eq!(args.timeout, 45);
    assert_eq!(args.log_level, "debug");
}

#[test]
fn command_line_errors() {
    let kind = |argv: &[&str]| Args::try_parse_from(argv).unwrap_err().kind;
    assert_eq!(kind(&["raworc-mcp", "extra"]), "UnknownArgument");
    assert_eq!(kind(&["raworc-mcp", "--frobnicate=1"]), "UnknownArgument");
    assert_eq!(kind(&["raworc-mcp", "--timeout"]), "InvalidValue");
    assert_eq!(kind(&["raworc-mcp", "--timeout=1", "--timeout", "2"]), "ArgumentConflict");
    assert_eq!(kind(&["raworc-mcp", "--timeout", "soon"]), "ValueValidation");
    assert_eq!(kind(&["raworc-mcp", "--timeout", "18446744073709551616"]), "ValueValidation");
    assert_eq!(kind(&["raworc-mcp", "--help"]), "DisplayHelp");
    assert_eq!(
        Args::try_parse_from(&["raworc-mcp", "--timeout", "18446744073709551615"]).unwrap().timeout,
        u64::MAX
    );
    assert_eq!(
        Args::try_parse_from(&["raworc-mcp", "--timeout", "1"]),
        Ok(Args {
            api_url: "http://raworc.remoteagent.com:9000/api/v0".to_string(),
            auth_token: None,
            username: None,
            password: None,
            default_space: "default".to_string(),
            timeout: 1,
            log_level: "info".to_string(),
        })
    );
    assert_eq!(
        Args::try_parse_from(&["raworc-mcp", "x"]),
        Err(ArgsError { kind: "UnknownArgument".to_string() })
    );
}

#[test]
fn test_capabilities_parsing() {
    let capabilities = raworc_mcp::CAPABILITIES;
    let parsed: serde_json::Value = serde_json::from_str(capabilities).unwrap();
    assert!(parsed.is_object());

    let tools = parsed.get("tools").unwrap();
    assert!(tools.is_array());

    let tools_array = tools.as_array().unwrap();
    assert!(!tools_array.is_empty());

    // Check for specific tools
    let tool_names: Vec<String> = tools_array
        .iter()
        .filter_map(|tool| tool.get("name").and_then(|n| n.as_str()).map(|s| s.to_string()))
        .collect();

    assert!(tool_names.contains(&"list_sessions".to_string()));
    assert!(tool_names.contains(&"create_session".to_string()));
    assert!(tool_names.contains(&"send_message".to_string()));
    assert!(tool_names.contains(&"health_check".to_string()));
}

#[test]
fn lines_are_told_apart_by_their_method() {
    assert!(matches!(classify(""), Inbound::Blank));
    assert!(matches!(classify("  \t"), Inbound::Blank));
    match classify("{oops") {
        Inbound::Malformed(why) => assert_eq!(why, "key must be a string at line 1 column 2"),
        other => panic!("unexpected: {:?}", other),
    }
    assert!(matches!(
        classify(r#"{"jsonrpc":"2.0","id":1,"method":"initialize"}"#),
        Inbound::Initialize { id: Some(1) }
    ));
    assert!(matches!(
        classify(r#"{"jsonrpc":"2.0","method":"tools/list","id":"x"}"#),
        Inbound::ToolsList { id: None }
    ));
    assert!(matches!(classify(r#" {"method":"ping","id":3} "#), Inbound::Ping { id: Some(3) }));
    match classify(r#"{"method":"notifications/initialized"}"#) {
        Inbound::Unknown { method } => assert_eq!(method, Some("notifications/initialized".to_string())),
        other => panic!("unexpected: {:?}", other),
    }
    assert!(matches!(classify(r#"{"id":1}"#), Inbound::Unknown { method: None }));
    assert!(matches!(classify(r#"{"method":7}"#), Inbound::Unknown { method: None }));
    assert!(matches!(classify(r#"[1]"#), Inbound::Unknown { method: None }));
    match classify(r#"{"method":"tools/call","id":9,"params":{"name":"get_session","arguments":{"session_id":"s1"}}}"#) {
        Inbound::ToolCall { id, name, arguments } => {
            assert_eq!(id, Some(9));
            assert_eq!(name, "get_session");
            assert_eq!(arguments.to_text(), r#"{"session_id":"s1"}"#);
        }
        other => panic!("unexpected: {:?}", other),
    }
    match classify(r#"{"method":"tools/call"}"#) {
        Inbound::ToolCall { id, name, arguments } => {
            assert_eq!(id, None);
            assert_eq!(name, "");
            assert_eq!(arguments.to_text(), "{}");
        }
        other => panic!("unexpected: {:?}", other),
    }
}

#[test]
fn answers_to_the_simple_methods() {
    assert_eq!(
        initialize_reply(Some(1)).to_text(),
        r#"{"id":1,"jsonrpc":"2.0","result":{"capabilities":{"tools":{}},"protocolVersion":"2024-11-05","serverInfo":{"name":"raworc-mcp","version":"0.1.0"}}}"#
    );
    assert!(initialize_reply(None).to_text().starts_with(r#"{"id":null,"#));
    assert_eq!(
        initialized_notification().to_text(),
        r#"{"jsonrpc":"2.0","method":"notifications/initialized","params":{}}"#
    );
    assert_eq!(ping_reply(4).to_text(), r#"{"id":4,"jsonrpc":"2.0","result":{"ok":true}}"#);
    let listed = tools_list_reply(2).unwrap();
    assert_eq!(listed.u64_at("id"), Some(2));
    let tools = listed.get("result").unwrap().get("tools").unwrap().as_array().unwrap();
    assert_eq!(tools.len(), 55);
    assert_eq!(tools[0].str_at("name"), Some("health_check"));
    assert_eq!(
        write_json(&ping_reply(4)),
        "{\"id\":4,\"jsonrpc\":\"2.0\",\"result\":{\"ok\":true}}\n"
    );
}

#[test]
fn what_is_written_at_once() {
    let written = |line: &str| -> Vec<String> {
        answer(&classify(line)).unwrap().iter().map(|m| m.to_text()).collect()
    };
    let opening = written(r#"{"method":"initialize","id":1}"#);
    assert_eq!(opening.len(), 2);
    assert!(opening[0].starts_with(r#"{"id":1,"jsonrpc":"2.0","result":{"capabilities""#));
    assert_eq!(opening[1], r#"{"jsonrpc":"2.0","method":"notifications/initialized","params":{}}"#);
    assert_eq!(written(r#"{"method":"tools/list","id":5}"#).len(), 1);
    assert!(written(r#"{"method":"tools/list"}"#).is_empty());
    assert_eq!(written(r#"{"method":"ping","id":5}"#), vec![r#"{"id":5,"jsonrpc":"2.0","result":{"ok":true}}"#]);
    assert!(written(r#"{"method":"ping"}"#).is_empty());
    assert!(written(r#"{"method":"other","id":5}"#).is_empty());
    assert!(written("").is_empty());
    assert!(written("{oops").is_empty());
    assert!(written(r#"{"method":"tools/call","id":5,"params":{"name":"x"}}"#).is_empty());
}

#[test]
fn the_response_to_a_tool_call() {
    let response = ToolCallResponse {
        content: vec![ToolCallContent {
            content_type: "text".to_string(),
            text: Some("done".to_string()),
            image_url: None,
        }],
    };
    assert_eq!(
        tool_call_reply(Some(7), &Ok(response)).to_text(),
        r#"{"id":7,"jsonrpc":"2.0","result":{"content":[{"type":"text","text":"done","image_url":null}]}}"#
    );
    let error = RaworcError::ValidationError("session_id is required".to_string());
    assert_eq!(
        tool_call_reply(None, &Err(error)).to_text(),
        r#"{"error":{"code":-32000,"message":"Invalid input: session_id is required"},"id":null,"jsonrpc":"2.0"}"#
    );
}

#[test]
fn messages_of_every_error() {
    let text = |e: RaworcError| e.to_string();
    assert_eq!(text(RaworcError::HttpError("x".into())), "HTTP request failed: x");
    assert_eq!(text(RaworcError::JsonError("x".into())), "JSON serialization/deserialization failed: x");
    assert_eq!(text(RaworcError::auth_error("x")), "Authentication failed: x");
    assert_eq!(text(RaworcError::api_error(418, "x".into())), "API error: x");
    assert_eq!(text(RaworcError::not_found("x")), "Resource not found: x");
    assert_eq!(text(RaworcError::config_error("x")), "Invalid configuration: x");
    assert_eq!(text(RaworcError::validation_error("x")), "Invalid input: x");
    assert_eq!(text(RaworcError::timeout_error("x")), "Timeout error: x");
    assert_eq!(text(RaworcError::internal_error("x")), "Internal error: x");
    assert_eq!(text(RaworcError::mcp_error("x")), "MCP protocol error: x");
    assert_eq!(RaworcError::api_error(418, "x".into()), RaworcError::ApiError { status: 418, message: "x".into() });
    let e = RaworcError::api_error(418, "x".into());
    assert_eq!(e.duplicate(), e);
}

#[test]
fn a_line_fed_server() {
    assert_eq!(McpServer::accept("  {\"a\":1}\r\n"), Some("{\"a\":1}"));
    assert_eq!(McpServer::accept(" \n"), None);
    assert_eq!(McpServer::accept(""), None);

    let opening: Vec<String> =
        McpServer::send_initialize().unwrap().iter().map(|m| m.to_text()).collect();
    assert_eq!(opening.len(), 3);
    assert_eq!(
        opening[0],
        r#"{"id":1,"jsonrpc":"2.0","method":"initialize","params":{"capabilities":{"tools":{}},"protocolVersion":"2024-11-05","clientInfo":{"name":"raworc-mcp","version":"0.1.0"}}}"#
    );
    assert_eq!(opening[1], r#"{"jsonrpc":"2.0","method":"notifications/initialized","params":{}}"#);
    assert!(opening[2].starts_with(r#"{"id":2,"jsonrpc":"2.0","result":{"tools":{"tools":[{"name":"health_check""#));

    match McpServer::handle_message("{oops") {
        Routed::Malformed(why) => {
            assert_eq!(why, "Failed to parse JSON: key must be a string at line 1 column 2")
        }
        other => panic!("unexpected: {:?}", other),
    }
    assert!(McpServer::answer(&McpServer::handle_message("{oops")).is_empty());
    assert!(matches!(
        McpServer::handle_message(r#"{"method":"ping","id":2}"#),
        Routed::Ping { id: Some(2) }
    ));
    assert_eq!(
        McpServer::answer(&McpServer::handle_message(r#"{"method":"ping","id":2}"#))[0]
            .to_text(),
        r#"{"id":2,"jsonrpc":"2.0","result":{"pong":true}}"#
    );
    assert!(matches!(
        McpServer::handle_message(r#"{"method":"initialize","id":2}"#),
        Routed::Unknown { method: Some(_) }
    ));
    assert!(McpServer::answer(&McpServer::handle_message(r#"{"method":"initialize","id":2}"#))
        .is_empty());
    assert_eq!(
        McpServer::handle_ping(Some(2)).to_text(),
        r#"{"id":2,"jsonrpc":"2.0","result":{"pong":true}}"#
    );
    assert_eq!(
        McpServer::handle_ping(None).to_text(),
        r#"{"id":null,"jsonrpc":"2.0","result":{"pong":true}}"#
    );
    assert_eq!(
        McpServer::send_message(&McpServer::handle_ping(None)),
        "{\"id\":null,\"jsonrpc\":\"2.0\",\"result\":{\"pong\":true}}\n"
    );

    let mut server = McpServer::new(Config::new("http://h/api".to_string())).unwrap();
    assert!(McpServer::new(Config::new("::".to_string())).is_err());
    let call = |server: &mut McpServer, line: &str| match McpServer::handle_message(line) {
        Routed::ToolCall { message, id: _ } => server.handle_tool_call(&message),
        other => panic!("unexpected: {:?}", other),
    };
    match call(&mut server, r#"{"method":"tools/call"}"#) {
        ToolStep::Done(Err(RaworcError::McpError(why))) => {
            assert_eq!(why, "Missing params in tool call")
        }
        other => panic!("unexpected: {:?}", other),
    }
    match call(&mut server, r#"{"method":"tools/call","params":{}}"#) {
        ToolStep::Done(Err(RaworcError::McpError(why))) => assert_eq!(why, "Missing tool name"),
        other => panic!("unexpected: {:?}", other),
    }
    match call(&mut server, r#"{"method":"tools/call","params":{"name":"nope"}}"#) {
        ToolStep::Done(Err(RaworcError::McpError(why))) => assert_eq!(why, "Unknown tool: nope"),
        other => panic!("unexpected: {:?}", other),
    }
    match call(&mut server, r#"{"method":"tools/call","params":{"name":"health_check"}}"#) {
        ToolStep::Send(pending, request) => {
            assert_eq!(request.url, "http://h/api/health");
            let outcome = HttpOutcome::Response { status: 200, body: Ok("fine".to_string()) };
            match server.handle_response(pending, &outcome) {
                ToolStep::Done(Ok(response)) => {
                    assert_eq!(response.content[0].text, Some("fine".to_string()))
                }
                other => panic!("unexpected: {:?}", other),
            }
        }
        other => panic!("unexpected: {:?}", other),
    }
    let _ = Json::Null;
}
