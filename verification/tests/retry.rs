use raworc_mcp::client::{
    Exchange, Expect, HttpMethod, HttpOutcome, HttpRequest, Phase, Progress, RaworcClient, Reply,
};
use raworc_mcp::error::{RaworcError, RaworcResult};
use raworc_mcp::json::Json;
use raworc_mcp::mcp::{RaworcMcpServer, ToolStep};
use raworc_mcp::Config;

fn config() -> Config {
    Config::new("http://localhost:9000/api/v0".to_string())
}

fn with_credentials() -> Config {
    config()
        .with_auth_token("old".to_string())
        .with_credentials("ann".to_string(), "s3cret".to_string())
}

fn ok(status: u16, body: &str) -> HttpOutcome {
    HttpOutcome::Response { status, body: Ok(body.to_string()) }
}

fn header<'a>(request: &'a HttpRequest, name: &str) -> Option<&'a str> {
    request.headers.iter().find(|(n, _)| n == name).map(|(_, v)| v.as_str())
}

/// Runs a call against the outcomes given, one for each request sent.
fn run(
    client: &mut RaworcClient,
    progress: Progress,
    outcomes: Vec<HttpOutcome>,
) -> (Vec<HttpRequest>, RaworcResult<Reply>) {
    let mut sent = Vec::new();
    let mut outcomes = outcomes.into_iter();
    let mut progress = progress;
    loop {
        match progress {
            Progress::Done(result) => {
                assert!(outcomes.next().is_none(), "an outcome was left over");
                return (sent, result);
            }
            Progress::Send(exchange, request) => {
                sent.push(request);
                let outcome = outcomes.next().expect("a request more than outcomes");
                progress = client.with_retry(exchange, &outcome);
            }
        }
    }
}

const VERSION: &str = r#"{"version":"1.2.3","api":"v0"}"#;

#[test]
fn after_a_401_the_client_logs_in_once_and_tries_once_more() {
    let mut client = RaworcClient::new(&with_credentials()).unwrap();
    let start = client.begin(client.get_version());
    let (sent, result) = run(
        &mut client,
        start,
        vec![ok(401, "expired"), ok(200, r#"{"token":"fresh","more":1}"#), ok(200, VERSION)],
    );
    assert_eq!(sent.len(), 3);

    assert_eq!(sent[0].method, HttpMethod::Get);
    assert_eq!(sent[0].url, "http://localhost:9000/api/v0/version");
    assert_eq!(header(&sent[0], "authorization"), Some("Bearer old"));
    assert_eq!(header(&sent[0], "accept"), Some("application/json"));
    assert_eq!(header(&sent[0], "content-type"), Some("application/json"));
    assert_eq!(sent[0].timeout_seconds, 30);

    assert_eq!(sent[1].method, HttpMethod::Post);
    assert_eq!(sent[1].url, "http://localhost:9000/api/v0/auth/login");
    assert_eq!(sent[1].body, Some(r#"{"user":"ann","pass":"s3cret"}"#.to_string()));
    assert_eq!(
        sent[1].headers,
        vec![("content-type".to_string(), "application/json".to_string())]
    );

    assert_eq!(sent[2].method, HttpMethod::Get);
    assert_eq!(sent[2].url, "http://localhost:9000/api/v0/version");
    assert_eq!(header(&sent[2], "authorization"), Some("Bearer fresh"));

    match result.unwrap() {
        Reply::Version(version) => {
            assert_eq!(version.version, "1.2.3");
            assert_eq!(version.api, "v0");
        }
        other => panic!("unexpected reply: {:?}", other),
    }
}

#[test]
fn a_second_401_is_the_result_and_nothing_more_is_sent() {
    let mut client = RaworcClient::new(&with_credentials()).unwrap();
    let start = client.begin(client.get_version());
    let (sent, result) = run(
        &mut client,
        start,
        vec![ok(401, "expired"), ok(200, r#"{"token":"fresh"}"#), ok(401, "still no")],
    );
    assert_eq!(sent.len(), 3);
    assert_eq!(result.unwrap_err(), RaworcError::AuthError("still no".to_string()));
}

#[test]
fn the_error_of_the_second_attempt_is_reported() {
    let mut client = RaworcClient::new(&with_credentials()).unwrap();
    let start = client.begin(client.get_version());
    let (sent, result) = run(
        &mut client,
        start,
        vec![ok(401, "expired"), ok(200, r#"{"token":"fresh"}"#), ok(500, "boom")],
    );
    assert_eq!(sent.len(), 3);
    assert_eq!(
        result.unwrap_err(),
        RaworcError::ApiError { status: 500, message: "boom".to_string() }
    );
}

#[test]
fn without_credentials_a_401_is_the_result() {
    let mut client = RaworcClient::new(&config().with_auth_token("old".to_string())).unwrap();
    let start = client.begin(client.get_version());
    let (sent, result) = run(&mut client, start, vec![ok(401, "expired")]);
    assert_eq!(sent.len(), 1);
    let error = result.unwrap_err();
    assert_eq!(error, RaworcError::AuthError("expired".to_string()));
    assert_eq!(error.to_string(), "Authentication failed: expired");
}

#[test]
fn a_name_without_a_password_is_no_credentials() {
    let mut config = config();
    config.username = Some("ann".to_string());
    let mut client = RaworcClient::new(&config).unwrap();
    let start = client.begin(client.get_version());
    let (sent, result) = run(&mut client, start, vec![ok(401, "expired")]);
    assert_eq!(sent.len(), 1);
    assert_eq!(result.unwrap_err(), RaworcError::AuthError("expired".to_string()));
}

#[test]
fn a_failed_login_ends_the_call_with_its_error() {
    let mut client = RaworcClient::new(&with_credentials()).unwrap();
    let start = client.begin(client.get_version());
    let (sent, result) = run(
        &mut client,
        start,
        vec![ok(401, "expired"), ok(401, r#"{"error":{"message":"bad password"}}"#)],
    );
    assert_eq!(sent.len(), 2);
    assert_eq!(
        result.unwrap_err(),
        RaworcError::AuthError(r#"{"error":{"message":"bad password"}}"#.to_string())
    );

    let start = client.begin(client.get_version());
    let (sent, result) = run(&mut client, start, vec![ok(401, "expired"), ok(200, "{}")]);
    assert_eq!(sent.len(), 2);
    assert_eq!(
        result.unwrap_err(),
        RaworcError::JsonError("response does not have the expected shape".to_string())
    );

    let start = client.begin(client.get_version());
    let unread = HttpOutcome::Response { status: 403, body: Err("reset".to_string()) };
    let (sent, result) = run(&mut client, start, vec![ok(401, "expired"), unread]);
    assert_eq!(sent.len(), 2);
    assert_eq!(result.unwrap_err(), RaworcError::AuthError(String::new()));

    let start = client.begin(client.get_version());
    let (sent, result) = run(&mut client, start, vec![ok(401, "expired"), ok(500, "down")]);
    assert_eq!(sent.len(), 2);
    assert_eq!(result.unwrap_err(), RaworcError::AuthError("down".to_string()));

    let start = client.begin(client.get_version());
    let lost = HttpOutcome::Failed { timed_out: false, message: "refused".to_string() };
    let (sent, result) = run(&mut client, start, vec![ok(401, "expired"), lost]);
    assert_eq!(sent.len(), 2);
    assert_eq!(result.unwrap_err(), RaworcError::HttpError("refused".to_string()));
}

#[test]
fn other_errors_are_not_retried() {
    let mut client = RaworcClient::new(&with_credentials()).unwrap();
    for outcome in [
        ok(404, "gone"),
        ok(500, "boom"),
        HttpOutcome::Failed { timed_out: true, message: "late".to_string() },
    ] {
        let start = client.begin(client.get_version());
        let (sent, result) = run(&mut client, start, vec![outcome]);
        assert_eq!(sent.len(), 1);
        assert!(result.is_err());
    }
}

#[test]
fn the_token_of_a_login_is_kept_for_later_calls() {
    let mut client = RaworcClient::new(&with_credentials()).unwrap();
    let start = client.begin(client.get_version());
    let (_, _) = run(
        &mut client,
        start,
        vec![ok(401, "expired"), ok(200, r#"{"token":"fresh"}"#), ok(200, VERSION)],
    );
    let later = client.request(&client.list_spaces());
    assert_eq!(header(&later, "authorization"), Some("Bearer fresh"));
}

#[test]
fn authenticate_stores_the_token() {
    let mut client = RaworcClient::new(&config()).unwrap();
    let before = client.request(&client.list_spaces());
    assert_eq!(header(&before, "authorization"), None);
    let start = client.begin(client.authenticate("ann", "pw"));
    let (sent, result) = run(&mut client, start, vec![ok(200, r#"{"token":"t1","token_type":"x"}"#)]);
    assert_eq!(sent[0].url, "http://localhost:9000/api/v0/auth/login");
    assert_eq!(sent[0].body, Some(r#"{"user":"ann","pass":"pw"}"#.to_string()));
    assert!(matches!(result, Ok(Reply::Done)));
    let after = client.request(&client.list_spaces());
    assert_eq!(header(&after, "authorization"), Some("Bearer t1"));
}

#[test]
fn set_token_replaces_the_token() {
    let mut client = RaworcClient::new(&config().with_auth_token("a".to_string())).unwrap();
    client.set_token("b".to_string());
    let request = client.request(&client.list_spaces());
    assert_eq!(header(&request, "authorization"), Some("Bearer b"));
}

#[test]
fn a_token_that_cannot_stand_in_a_header_is_left_out() {
    for token in ["a\nb", "a\u{7f}", "\u{1f}", "a\rb", "\0"] {
        let client = RaworcClient::new(&config().with_auth_token(token.to_string())).unwrap();
        let request = client.request(&client.list_spaces());
        assert_eq!(header(&request, "authorization"), None, "{:?}", token);
        assert_eq!(request.headers.len(), 2);
    }
    for token in ["a\tb", "a b", "~", "", "caf\u{e9}"] {
        let client = RaworcClient::new(&config().with_auth_token(token.to_string())).unwrap();
        let request = client.request(&client.list_spaces());
        assert_eq!(
            header(&request, "authorization"),
            Some(format!("Bearer {}", token).as_str()),
            "{:?}",
            token
        );
    }
}

#[test]
fn a_replay_can_be_resumed_from_its_parts() {
    let mut client = RaworcClient::new(&with_credentials()).unwrap();
    let exchange = Exchange { call: client.get_version(), phase: Phase::Replay };
    match client.with_retry(exchange, &ok(401, "no")) {
        Progress::Done(Err(RaworcError::AuthError(text))) => assert_eq!(text, "no"),
        other => panic!("unexpected progress: {:?}", other),
    }
    let exchange = Exchange { call: client.get_version(), phase: Phase::Login };
    match client.with_retry(exchange, &ok(200, r#"{"token":"z"}"#)) {
        Progress::Send(exchange, request) => {
            assert_eq!(exchange.phase, Phase::Replay);
            assert_eq!(header(&request, "authorization"), Some("Bearer z"));
        }
        other => panic!("unexpected progress: {:?}", other),
    }
}

#[test]
fn the_timeout_of_the_configuration_is_on_every_request() {
    let client = RaworcClient::new(&config().with_timeout(5)).unwrap();
    assert_eq!(client.request(&client.list_spaces()).timeout_seconds, 5);
}

#[test]
fn the_address_defaults_to_the_public_api() {
    let config = Config {
        api_url: None,
        auth_token: None,
        username: None,
        password: None,
        default_space: None,
        timeout_seconds: None,
    };
    let client = RaworcClient::new(&config).unwrap();
    assert_eq!(client.build_url("spaces"), "https://api.remoteagent.com/api/v0/spaces");
}

#[test]
fn paths_are_joined_below_the_base() {
    let client = RaworcClient::new(&Config::new("http://h/api/v0/".to_string())).unwrap();
    assert_eq!(client.build_url("spaces"), "http://h/api/v0/spaces");
    assert_eq!(client.build_url("//spaces/a b"), "http://h/api/v0/spaces/a%20b");
    let client = RaworcClient::new(&Config::new("http://h".to_string())).unwrap();
    assert_eq!(client.build_url("health"), "http://h/health");
    let client = RaworcClient::new(&Config::new("http://h/api/v0?x=1".to_string())).unwrap();
    assert_eq!(client.build_url("a/b?limit=3"), "http://h/api/v0/a/b?limit=3");
}

#[test]
fn the_space_of_a_call() {
    let client = RaworcClient::new(&config()).unwrap();
    assert_eq!(client.space(None), "default");
    assert_eq!(client.space(Some("lab")), "lab");
    let client = RaworcClient::new(&config().with_default_space("team".to_string())).unwrap();
    assert_eq!(client.space(None), "team");
    assert_eq!(client.space(Some("lab")), "lab");
    assert_eq!(client.space(Some("")), "");
}

#[test]
fn calls_of_the_client() {
    let client = RaworcClient::new(&config()).unwrap();
    let call = client.get_messages(Some("lab"), "s1", Some(0));
    assert_eq!(call.method, HttpMethod::Get);
    assert_eq!(call.path, "spaces/lab/sessions/s1/messages?limit=0");
    assert!(call.body.is_none());
    assert_eq!(call.expect, Expect::Messages);
    let call = client.get_global_messages("s1", Some(18446744073709551615));
    assert_eq!(call.path, "sessions/s1/messages?limit=18446744073709551615");
    let call = client.set_secret("lab", "k", "v");
    assert_eq!(call.method, HttpMethod::Post);
    assert_eq!(call.path, "spaces/lab/secrets/k");
    assert_eq!(call.body.unwrap().to_text(), r#"{"value":"v"}"#);
    assert_eq!(call.expect, Expect::Secret);
    let call = client.get_user_info();
    assert_eq!(call.path, "auth/me");
    assert_eq!(call.expect, Expect::UserInfo);
    let call = client.terminate_session(None, "s1");
    assert_eq!(call.method, HttpMethod::Delete);
    assert_eq!(call.path, "spaces/default/sessions/s1");
    assert_eq!(call.expect, Expect::Ignored);
}

#[test]
fn replies_are_read_as_the_call_expects() {
    let reply = RaworcClient::receive(Expect::MessageCount, &ok(200, r#"{"count":12}"#)).unwrap();
    match reply {
        Reply::MessageCount(count) => assert_eq!(count.count, 12),
        other => panic!("unexpected reply: {:?}", other),
    }
    assert!(RaworcClient::receive(Expect::MessageCount, &ok(200, r#"{"count":-1}"#)).is_err());
    assert!(RaworcClient::receive(Expect::MessageCount, &ok(200, r#"[12]"#)).is_err());
    assert!(matches!(RaworcClient::receive(Expect::Nothing, &ok(200, "null")), Ok(Reply::Done)));
    assert!(RaworcClient::receive(Expect::Nothing, &ok(200, "{}")).is_err());
    assert!(RaworcClient::receive(Expect::Nothing, &ok(200, "")).is_err());
    assert!(matches!(RaworcClient::receive(Expect::Ignored, &ok(299, "")), Ok(Reply::Done)));
    assert!(RaworcClient::receive(Expect::Ignored, &ok(300, "")).is_err());
    assert!(RaworcClient::receive(Expect::Ignored, &ok(199, "")).is_err());
    let user = RaworcClient::receive(
        Expect::UserInfo,
        &ok(200, r#"{"user":"ann","type":"admin","namespace":null}"#),
    )
    .unwrap();
    assert_eq!(
        user.to_json().to_text(),
        r#"{"user":"ann","namespace":null,"type":"admin"}"#
    );
}

#[test]
fn a_login_precedes_each_call_where_the_configuration_has_no_token() {
    let config = config().with_credentials("ann".to_string(), "pw".to_string());
    let mut server = RaworcMcpServer::new(config).unwrap();
    let arguments = Json::parse("{}").unwrap();
    let mut sent = Vec::new();
    let mut outcomes = vec![ok(200, r#"{"token":"t1"}"#), ok(200, VERSION)].into_iter();
    let mut step = server.handle_tool_call("get_version", &arguments);
    let result = loop {
        match step {
            ToolStep::Done(result) => break result,
            ToolStep::Send(pending, request) => {
                sent.push(request);
                step = server.handle_response(pending, &outcomes.next().unwrap());
            }
        }
    };
    assert_eq!(sent.len(), 2);
    assert_eq!(sent[0].url, "http://localhost:9000/api/v0/auth/login");
    assert_eq!(sent[0].body, Some(r#"{"user":"ann","pass":"pw"}"#.to_string()));
    assert_eq!(header(&sent[0], "authorization"), None);
    assert_eq!(sent[1].url, "http://localhost:9000/api/v0/version");
    assert_eq!(header(&sent[1], "authorization"), Some("Bearer t1"));
    assert_eq!(
        result.unwrap().content[0].text.clone().unwrap(),
        "{\n  \"version\": \"1.2.3\",\n  \"api\": \"v0\"\n}"
    );

    let step = server.handle_tool_call("get_session", &arguments);
    assert!(matches!(step, ToolStep::Done(Err(RaworcError::ValidationError(_)))));

    let step = server.handle_tool_call("get_version", &arguments);
    let step = match step {
        ToolStep::Send(pending, request) => {
            assert_eq!(request.url, "http://localhost:9000/api/v0/auth/login");
            server.handle_response(pending, &ok(401, "who?"))
        }
        other => panic!("unexpected step: {:?}", other),
    };
    match step {
        ToolStep::Send(pending, request) => {
            assert_eq!(request.url, "http://localhost:9000/api/v0/auth/login");
            assert_eq!(pending.exchange.phase, Phase::Login);
            let step = server.handle_response(pending, &ok(403, "no"));
            match step {
                ToolStep::Done(Err(RaworcError::AuthError(body))) => assert_eq!(body, "no"),
                other => panic!("unexpected step: {:?}", other),
            }
        }
        other => panic!("unexpected step: {:?}", other),
    }
}
