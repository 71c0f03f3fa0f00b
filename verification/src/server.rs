//! The transport side: the command line, the lines that come in, and the
//! lines that go out.
//!
//! Requests are JSON-RPC 2.0, one per line. Reading and writing the lines is
//! not done here; what a line asks for and what is written in answer is.
//! The command line is read by `clap`.

use crate::catalog::CAPABILITIES;
use crate::error::{ErrorView, RaworcError, RaworcResult};
use crate::json::{
    compact, found_view, member_views, number_of, opt_str_view, parsed, settled,
    signed_number_of, views, Json, JsonView,
};
use crate::mcp::{
    response_result_view, server_for, started, RaworcMcpServer, ServerView, ToolStep,
    ToolStepView,
};
use crate::models::ToolCallResponse;
use crate::shape::{opt_view, Shape};
use crate::text::{blank, followed_by, is_blank, text_eq, trim, trimmed};
use crate::Config;
use vstd::prelude::*;
use vstd::string::*;

verus! {

/// The version that the server reports of itself.
pub const VERSION: &'static str = "0.1.0";

/// The protocol version that the server speaks.
pub const PROTOCOL_VERSION: &'static str = "2024-11-05";

/// `clap::Command`, opaque: the definition of a command line.
#[verifier::external_type_specification]
#[verifier::external_body]
pub struct ExCommand(clap::Command);

/// `clap::ArgMatches`, opaque: what a command line gave the options.
#[verifier::external_type_specification]
#[verifier::external_body]
pub struct ExArgMatches(clap::ArgMatches);

/// The command that `clap::Command::new` makes for a name, with a text about it.
pub uninterp spec fn new_command(name: Seq<char>, about: Seq<char>) -> clap::Command;

/// The command with one more option `--long` that takes a text.
pub uninterp spec fn with_text_option(
    command: clap::Command,
    id: Seq<char>,
    long: Seq<char>,
) -> clap::Command;

/// The command with one more option `--long` that takes a text and has a default.
pub uninterp spec fn with_text_default(
    command: clap::Command,
    id: Seq<char>,
    long: Seq<char>,
    default: Seq<char>,
) -> clap::Command;

/// The command with one more option `--long` that takes a `u64` and has a default.
pub uninterp spec fn with_number_default(
    command: clap::Command,
    id: Seq<char>,
    long: Seq<char>,
    default: Seq<char>,
) -> clap::Command;

/// What `clap` makes of a command line under a command: what the options
/// were given, or the kind of the error as `clap` names it.
pub uninterp spec fn matched(command: clap::Command, argv: Seq<Seq<char>>) -> Result<
    clap::ArgMatches,
    Seq<char>,
>;

/// The text that an option was given, or its default.
pub uninterp spec fn text_value(matches: clap::ArgMatches, id: Seq<char>) -> Option<Seq<char>>;

/// The number that an option was given, or its default.
pub uninterp spec fn number_value(matches: clap::ArgMatches, id: Seq<char>) -> Option<u64>;

/// `clap::Command::new` and `clap::Command::about`.
#[verifier::external_body]
fn command_new(name: &'static str, about: &'static str) -> (r: clap::Command)
    ensures
        r == new_command(name@, about@),
{
    clap::Command::new(name).about(about)
}

/// `clap::Command::arg` with an argument of `clap::Arg::new` and `clap::Arg::long`.
#[verifier::external_body]
fn command_text_option(
    command: clap::Command,
    id: &'static str,
    long: &'static str,
) -> (r: clap::Command)
    ensures
        r == with_text_option(command, id@, long@),
{
    command.arg(clap::Arg::new(id).long(long))
}

/// `clap::Command::arg` with an argument of `clap::Arg::new`, `clap::Arg::long`
/// and `clap::Arg::default_value`.
#[verifier::external_body]
fn command_text_default(
    command: clap::Command,
    id: &'static str,
    long: &'static str,
    default: &'static str,
) -> (r: clap::Command)
    ensures
        r == with_text_default(command, id@, long@, default@),
{
    command.arg(clap::Arg::new(id).long(long).default_value(default))
}

/// `clap::Command::arg` with an argument of `clap::Arg::new`, `clap::Arg::long`,
/// `clap::Arg::default_value` and `clap::Arg::value_parser` for a `u64`.
#[verifier::external_body]
fn command_number_default(
    command: clap::Command,
    id: &'static str,
    long: &'static str,
    default: &'static str,
) -> (r: clap::Command)
    ensures
        r == with_number_default(command, id@, long@, default@),
{
    let parser = clap::builder::RangedU64ValueParser::<u64>::new();
    command.arg(clap::Arg::new(id).long(long).default_value(default).value_parser(parser))
}

/// `clap::Command::try_get_matches_from`; where it fails, the name of the
/// error's `clap::error::ErrorKind` is handed back.
#[verifier::external_body]
fn command_matches(command: clap::Command, argv: &[&str]) -> (r: Result<clap::ArgMatches, String>)
    ensures
        match r {
            Ok(matches) => matched(command, texts_of(argv@)) == Ok::<clap::ArgMatches, Seq<char>>(
                matches,
            ),
            Err(kind) => matched(command, texts_of(argv@)) == Err::<clap::ArgMatches, Seq<char>>(
                kind@,
            ),
        },
{
    command.try_get_matches_from(argv.iter().copied()).map_err(|e| format!("{:?}", e.kind()))
}

/// `clap::ArgMatches::try_get_one` for a text; nothing where the option has
/// no value or is not a text.
#[verifier::external_body]
fn matches_text(matches: &clap::ArgMatches, id: &str) -> (r: Option<String>)
    ensures
        crate::shape::opt_view(r) == text_value(*matches, id@),
{
    matches.try_get_one::<String>(id).ok().flatten().cloned()
}

/// `clap::ArgMatches::try_get_one` for a `u64`; nothing where the option has
/// no value or is not a `u64`.
#[verifier::external_body]
fn matches_number(matches: &clap::ArgMatches, id: &str) -> (r: Option<u64>)
    ensures
        r == number_value(*matches, id@),
{
    matches.try_get_one::<u64>(id).ok().flatten().copied()
}

/// What the command line configures.
#[derive(Debug, Clone, PartialEq, Eq)]
pub struct Args {
    /// `--api-url`: the address of the API.
    pub api_url: String,
    /// `--auth-token`: the bearer token.
    pub auth_token: Option<String>,
    /// `--username`: the name to log in with.
    pub username: Option<String>,
    /// `--password`: the password to log in with.
    pub password: Option<String>,
    /// `--default-space`: the space of calls that name none.
    pub default_space: String,
    /// `--timeout`: the time allowed for a request, in seconds.
    pub timeout: u64,
    /// `--log-level`: how much is logged.
    pub log_level: String,
}

pub ghost struct ArgsView {
    pub api_url: Seq<char>,
    pub auth_token: Option<Seq<char>>,
    pub username: Option<Seq<char>>,
    pub password: Option<Seq<char>>,
    pub default_space: Seq<char>,
    pub timeout: u64,
    pub log_level: Seq<char>,
}

impl View for Args {
    type V = ArgsView;

    open spec fn view(&self) -> ArgsView {
        ArgsView {
            api_url: self.api_url@,
            auth_token: opt_view(self.auth_token),
            username: opt_view(self.username),
            password: opt_view(self.password),
            default_space: self.default_space@,
            timeout: self.timeout,
            log_level: self.log_level@,
        }
    }
}

/// Why a command line is not accepted: the kind of the error, as `clap` names it.
#[derive(Debug, Clone, PartialEq, Eq)]
pub struct ArgsError {
    pub kind: String,
}

/// The command line of the program: its seven options, three of them with
/// a default.
pub open spec fn program() -> clap::Command {
    let named = new_command("raworc-mcp"@, "Model Context Protocol server for Raworc"@);
    let with_url = with_text_default(
        named,
        "api_url"@,
        "api-url"@,
        "http://raworc.remoteagent.com:9000/api/v0"@,
    );
    let with_token = with_text_option(with_url, "auth_token"@, "auth-token"@);
    let with_name = with_text_option(with_token, "username"@, "username"@);
    let with_password = with_text_option(with_name, "password"@, "password"@);
    let with_space = with_text_default(
        with_password,
        "default_space"@,
        "default-space"@,
        "default"@,
    );
    let with_timeout = with_number_default(with_space, "timeout"@, "timeout"@, "30"@);
    with_text_default(with_timeout, "log_level"@, "log-level"@, "info"@)
}

pub open spec fn or_default(given: Option<Seq<char>>, default: Seq<char>) -> Seq<char> {
    match given {
        Some(v) => v,
        None => default,
    }
}

/// The configuration that the values of the options amount to.
pub open spec fn args_of(matches: clap::ArgMatches) -> ArgsView {
    ArgsView {
        api_url: or_default(
            text_value(matches, "api_url"@),
            "http://raworc.remoteagent.com:9000/api/v0"@,
        ),
        auth_token: text_value(matches, "auth_token"@),
        username: text_value(matches, "username"@),
        password: text_value(matches, "password"@),
        default_space: or_default(text_value(matches, "default_space"@), "default"@),
        timeout: match number_value(matches, "timeout"@) {
            Some(seconds) => seconds,
            None => 30,
        },
        log_level: or_default(text_value(matches, "log_level"@), "info"@),
    }
}

/// What a command line configures, or the kind of error that `clap` finds
/// in it. The first argument is the program's name.
pub open spec fn parsed_args(argv: Seq<Seq<char>>) -> Result<ArgsView, Seq<char>> {
    match matched(program(), argv) {
        Ok(matches) => Ok(args_of(matches)),
        Err(kind) => Err(kind),
    }
}

pub open spec fn texts_of(argv: Seq<&str>) -> Seq<Seq<char>> {
    Seq::new(argv.len(), |i: int| argv[i]@)
}

fn text_or(given: Option<String>, default: &str) -> (r: String)
    ensures
        r@ == or_default(opt_view(given), default@),
{
    match given {
        Some(text) => text,
        None => default.to_owned(),
    }
}

impl Args {
    /// Reads a command line.
    pub fn try_parse_from(argv: &[&str]) -> (r: Result<Args, ArgsError>)
        ensures
            match r {
                Ok(args) => parsed_args(texts_of(argv@)) == Ok::<ArgsView, Seq<char>>(args@),
                Err(e) => parsed_args(texts_of(argv@)) == Err::<ArgsView, Seq<char>>(e.kind@),
            },
    {
        let command = command_new("raworc-mcp", "Model Context Protocol server for Raworc");
        let command = command_text_default(
            command,
            "api_url",
            "api-url",
            "http://raworc.remoteagent.com:9000/api/v0",
        );
        let command = command_text_option(command, "auth_token", "auth-token");
        let command = command_text_option(command, "username", "username");
        let command = command_text_option(command, "password", "password");
        let command = command_text_default(command, "default_space", "default-space", "default");
        let command = command_number_default(command, "timeout", "timeout", "30");
        let command = command_text_default(command, "log_level", "log-level", "info");
        let matches = match command_matches(command, argv) {
            Ok(matches) => matches,
            Err(kind) => {
                return Err(ArgsError { kind });
            },
        };
        let timeout = match matches_number(&matches, "timeout") {
            Some(seconds) => seconds,
            None => 30,
        };
        Ok(
            Args {
                api_url: text_or(
                    matches_text(&matches, "api_url"),
                    "http://raworc.remoteagent.com:9000/api/v0",
                ),
                auth_token: matches_text(&matches, "auth_token"),
                username: matches_text(&matches, "username"),
                password: matches_text(&matches, "password"),
                default_space: text_or(matches_text(&matches, "default_space"), "default"),
                timeout,
                log_level: text_or(matches_text(&matches, "log_level"), "info"),
            },
        )
    }
}

/// The JSON of the id of a message: the number, or `null` where it has none.
pub open spec fn id_json(id: Option<u64>) -> JsonView {
    match id {
        Some(n) => JsonView::Number(number_of(n)),
        None => JsonView::Null,
    }
}

/// The response that carries a result.
pub open spec fn result_message(id: Option<u64>, result: JsonView) -> JsonView {
    JsonView::Object(
        seq![("id"@, id_json(id)), ("jsonrpc"@, JsonView::String("2.0"@)), ("result"@, result)],
    )
}

/// The response that reports an error: code -32000 and the error's text.
pub open spec fn error_message(id: Option<u64>, message: Seq<char>) -> JsonView {
    JsonView::Object(
        seq![
            (
                "error"@,
                JsonView::Object(
                    seq![
                        ("code"@, JsonView::Number(signed_number_of(-32000i64))),
                        ("message"@, JsonView::String(message)),
                    ],
                ),
            ),
            ("id"@, id_json(id)),
            ("jsonrpc"@, JsonView::String("2.0"@)),
        ],
    )
}

pub open spec fn empty_object() -> JsonView {
    JsonView::Object(Seq::empty())
}

/// What the server says of itself under the key `who`.
pub open spec fn identity(who: Seq<char>) -> JsonView {
    JsonView::Object(
        seq![
            ("capabilities"@, JsonView::Object(seq![("tools"@, empty_object())])),
            ("protocolVersion"@, JsonView::String(PROTOCOL_VERSION@)),
            (
                who,
                JsonView::Object(
                    seq![
                        ("name"@, JsonView::String("raworc-mcp"@)),
                        ("version"@, JsonView::String(VERSION@)),
                    ],
                ),
            ),
        ],
    )
}

/// The notification that initialization is over.
pub open spec fn initialized_message() -> JsonView {
    JsonView::Object(
        seq![
            ("jsonrpc"@, JsonView::String("2.0"@)),
            ("method"@, JsonView::String("notifications/initialized"@)),
            ("params"@, empty_object()),
        ],
    )
}

/// The acknowledgement of a ping.
pub open spec fn acknowledgement(word: Seq<char>) -> JsonView {
    JsonView::Object(seq![(word, JsonView::Bool(true))])
}

fn id_of(id: Option<u64>) -> (r: Json)
    ensures
        r@ == id_json(id),
{
    match id {
        Some(n) => Json::unsigned(n),
        None => Json::Null,
    }
}

fn empty() -> (r: Json)
    ensures
        r@ == empty_object(),
{
    let members: Vec<(String, Json)> = Vec::new();
    assert(member_views(members@) =~= Seq::empty());
    Json::Object(members)
}

fn result_of(id: Option<u64>, result: Json) -> (r: Json)
    ensures
        r@ == result_message(id, result@),
{
    let mut members: Vec<(String, Json)> = Vec::new();
    members.push(("id".to_owned(), id_of(id)));
    members.push(("jsonrpc".to_owned(), Json::string("2.0")));
    members.push(("result".to_owned(), result));
    assert(member_views(members@) =~= result_message(id, result@)->Object_0);
    Json::Object(members)
}

fn error_of(id: Option<u64>, message: &str) -> (r: Json)
    ensures
        r@ == error_message(id, message@),
{
    let mut error: Vec<(String, Json)> = Vec::new();
    error.push(("code".to_owned(), Json::signed(-32000i64)));
    error.push(("message".to_owned(), Json::string(message)));
    assert(member_views(error@) =~= error_message(id, message@)->Object_0[0].1->Object_0);
    let mut members: Vec<(String, Json)> = Vec::new();
    members.push(("error".to_owned(), Json::Object(error)));
    members.push(("id".to_owned(), id_of(id)));
    members.push(("jsonrpc".to_owned(), Json::string("2.0")));
    assert(member_views(members@) =~= error_message(id, message@)->Object_0);
    Json::Object(members)
}

fn identity_of(who: &str) -> (r: Json)
    ensures
        r@ == identity(who@),
{
    let mut capabilities: Vec<(String, Json)> = Vec::new();
    capabilities.push(("tools".to_owned(), empty()));
    assert(member_views(capabilities@) =~= seq![("tools"@, empty_object())]);
    let mut info: Vec<(String, Json)> = Vec::new();
    info.push(("name".to_owned(), Json::string("raworc-mcp")));
    info.push(("version".to_owned(), Json::string(VERSION)));
    assert(member_views(info@) =~= identity(who@)->Object_0[2].1->Object_0);
    let mut members: Vec<(String, Json)> = Vec::new();
    members.push(("capabilities".to_owned(), Json::Object(capabilities)));
    members.push(("protocolVersion".to_owned(), Json::string(PROTOCOL_VERSION)));
    members.push((who.to_owned(), Json::Object(info)));
    assert(member_views(members@) =~= identity(who@)->Object_0);
    Json::Object(members)
}

fn acknowledge(word: &str) -> (r: Json)
    ensures
        r@ == acknowledgement(word@),
{
    let mut members: Vec<(String, Json)> = Vec::new();
    members.push((word.to_owned(), Json::Bool(true)));
    assert(member_views(members@) =~= acknowledgement(word@)->Object_0);
    Json::Object(members)
}

/// The notification that initialization is over.
pub fn initialized_notification() -> (r: Json)
    ensures
        r@ == initialized_message(),
{
    let mut members: Vec<(String, Json)> = Vec::new();
    members.push(("jsonrpc".to_owned(), Json::string("2.0")));
    members.push(("method".to_owned(), Json::string("notifications/initialized")));
    members.push(("params".to_owned(), empty()));
    assert(member_views(members@) =~= initialized_message()->Object_0);
    Json::Object(members)
}

/// The answer to `initialize`: the protocol version, the capabilities and
/// the identity of the server.
pub fn initialize_reply(id: Option<u64>) -> (r: Json)
    ensures
        r@ == result_message(id, identity("serverInfo"@)),
{
    result_of(id, identity_of("serverInfo"))
}

/// The catalog of the tools, as a document.
pub open spec fn catalog() -> Result<JsonView, Seq<char>> {
    parsed(CAPABILITIES@)
}

/// The answer to `tools/list`: the catalog of the tools.
pub fn tools_list_reply(id: u64) -> (r: RaworcResult<Json>)
    ensures
        match r {
            Ok(doc) => catalog() is Ok && doc@ == result_message(Some(id), catalog()->Ok_0),
            Err(e) => catalog() is Err && e@ == ErrorView::JsonError(catalog()->Err_0),
        },
{
    match Json::parse(CAPABILITIES) {
        Ok(tools) => Ok(result_of(Some(id), tools)),
        Err(message) => Err(RaworcError::JsonError(message)),
    }
}

/// The answer to `ping`.
pub fn ping_reply(id: u64) -> (r: Json)
    ensures
        r@ == result_message(Some(id), acknowledgement("ok"@)),
{
    result_of(Some(id), acknowledge("ok"))
}

/// The response to a tool call: its result, or its error under code -32000.
pub open spec fn tool_call_message(
    id: Option<u64>,
    result: Result<JsonView, ErrorView>,
) -> JsonView {
    match result {
        Ok(response) => result_message(id, response),
        Err(e) => error_message(id, e.message()),
    }
}

/// The response to a tool call.
pub fn tool_call_reply(id: Option<u64>, result: &RaworcResult<ToolCallResponse>) -> (r: Json)
    ensures
        r@ == tool_call_message(id, response_result_view(*result)),
{
    match result {
        Ok(response) => result_of(id, response.to_json()),
        Err(e) => {
            let text = e.to_string();
            error_of(id, text.as_str())
        },
    }
}

/// A message as the line to write: its JSON on one line, and a line feed.
pub open spec fn line_of(doc: JsonView) -> Seq<char> {
    compact(settled(doc)) + "\n"@
}

/// The line to write for a message.
pub fn write_json(doc: &Json) -> (r: String)
    ensures
        r@ == line_of(doc@),
{
    let mut line = doc.to_text();
    line.append("\n");
    line
}

/// The name of the tool that a `tools/call` message calls, empty where it names none.
pub open spec fn tool_name(message: JsonView) -> Seq<char> {
    match message.get("params"@) {
        Some(params) => match params.str_at("name"@) {
            Some(name) => name,
            None => Seq::empty(),
        },
        None => Seq::empty(),
    }
}

/// The arguments of a `tools/call` message, an empty object where it has none.
pub open spec fn tool_arguments(message: JsonView) -> JsonView {
    match message.get("params"@) {
        Some(params) => match params.get("arguments"@) {
            Some(arguments) => arguments,
            None => empty_object(),
        },
        None => empty_object(),
    }
}

/// What a line that came in asks for.
#[derive(Debug)]
pub enum Inbound {
    /// Nothing: the line is blank.
    Blank,
    /// Nothing that can be told: the line is not JSON. The text says why.
    Malformed(String),
    Initialize { id: Option<u64> },
    ToolsList { id: Option<u64> },
    ToolCall { id: Option<u64>, name: String, arguments: Json },
    Ping { id: Option<u64> },
    /// A method that the server does not know, or none: the message is ignored.
    Unknown { method: Option<String> },
}

pub ghost enum InboundView {
    Blank,
    Malformed(Seq<char>),
    Initialize { id: Option<u64> },
    ToolsList { id: Option<u64> },
    ToolCall { id: Option<u64>, name: Seq<char>, arguments: JsonView },
    Ping { id: Option<u64> },
    Unknown { method: Option<Seq<char>> },
}

impl View for Inbound {
    type V = InboundView;

    open spec fn view(&self) -> InboundView {
        match self {
            Inbound::Blank => InboundView::Blank,
            Inbound::Malformed(why) => InboundView::Malformed(why@),
            Inbound::Initialize { id } => InboundView::Initialize { id: *id },
            Inbound::ToolsList { id } => InboundView::ToolsList { id: *id },
            Inbound::ToolCall { id, name, arguments } => InboundView::ToolCall {
                id: *id,
                name: name@,
                arguments: arguments@,
            },
            Inbound::Ping { id } => InboundView::Ping { id: *id },
            Inbound::Unknown { method } => InboundView::Unknown { method: opt_view(*method) },
        }
    }
}

/// What a message asks for, by its method.
pub open spec fn routed(message: JsonView) -> InboundView {
    let id = message.u64_at("id"@);
    let method = message.str_at("method"@);
    if method == Some("initialize"@) {
        InboundView::Initialize { id }
    } else if method == Some("tools/list"@) {
        InboundView::ToolsList { id }
    } else if method == Some("tools/call"@) {
        InboundView::ToolCall { id, name: tool_name(message), arguments: tool_arguments(message) }
    } else if method == Some("ping"@) {
        InboundView::Ping { id }
    } else {
        InboundView::Unknown { method }
    }
}

/// What a line asks for.
pub open spec fn inbound(line: Seq<char>) -> InboundView {
    if blank(line) {
        InboundView::Blank
    } else {
        match parsed(line) {
            Err(why) => InboundView::Malformed(why),
            Ok(message) => routed(message),
        }
    }
}

fn method_is(method: Option<&str>, name: &str) -> (r: bool)
    ensures
        r == (opt_str_view(method) == Some(name@)),
{
    match method {
        Some(m) => text_eq(m, name),
        None => false,
    }
}

fn name_of(message: &Json) -> (r: String)
    ensures
        r@ == tool_name(message@),
{
    match message.get("params") {
        Some(params) => match params.str_at("name") {
            Some(name) => name.to_owned(),
            None => String::new(),
        },
        None => String::new(),
    }
}

fn arguments_of(message: &Json) -> (r: Json)
    ensures
        r@ == tool_arguments(message@),
{
    match message.get("params") {
        Some(params) => match params.get("arguments") {
            Some(arguments) => arguments.duplicate(),
            None => empty(),
        },
        None => empty(),
    }
}

/// Says what a line that came in asks for.
pub fn classify(line: &str) -> (r: Inbound)
    ensures
        r@ == inbound(line@),
{
    if is_blank(line) {
        return Inbound::Blank;
    }
    let message = match Json::parse(line) {
        Ok(message) => message,
        Err(why) => {
            return Inbound::Malformed(why);
        },
    };
    let id = message.u64_at("id");
    let method = message.str_at("method");
    if method_is(method, "initialize") {
        Inbound::Initialize { id }
    } else if method_is(method, "tools/list") {
        Inbound::ToolsList { id }
    } else if method_is(method, "tools/call") {
        Inbound::ToolCall { id, name: name_of(&message), arguments: arguments_of(&message) }
    } else if method_is(method, "ping") {
        Inbound::Ping { id }
    } else {
        Inbound::Unknown {
            method: match method {
                Some(m) => Some(m.to_owned()),
                None => None,
            },
        }
    }
}

/// What the server writes at once in answer to a line: nothing for a tool
/// call, whose answer comes when the call is over, and nothing for what it ignores.
pub open spec fn answers(line: InboundView) -> Result<Seq<JsonView>, ErrorView> {
    match line {
        InboundView::Initialize { id } => Ok(
            seq![result_message(id, identity("serverInfo"@)), initialized_message()],
        ),
        InboundView::ToolsList { id: Some(id) } => match catalog() {
            Ok(tools) => Ok(seq![result_message(Some(id), tools)]),
            Err(why) => Err(ErrorView::JsonError(why)),
        },
        InboundView::Ping { id: Some(id) } => Ok(
            seq![result_message(Some(id), acknowledgement("ok"@))],
        ),
        _ => Ok(Seq::empty()),
    }
}

/// The messages to write at once in answer to a line.
pub fn answer(line: &Inbound) -> (r: RaworcResult<Vec<Json>>)
    ensures
        match r {
            Ok(messages) => answers(line@) == Ok::<Seq<JsonView>, ErrorView>(views(messages@)),
            Err(e) => answers(line@) == Err::<Seq<JsonView>, ErrorView>(e@),
        },
{
    let mut messages: Vec<Json> = Vec::new();
    match line {
        Inbound::Initialize { id } => {
            messages.push(initialize_reply(*id));
            messages.push(initialized_notification());
            assert(views(messages@) =~= answers(line@)->Ok_0);
        },
        Inbound::ToolsList { id: Some(id) } => {
            match tools_list_reply(*id) {
                Ok(reply) => {
                    messages.push(reply);
                    assert(views(messages@) =~= answers(line@)->Ok_0);
                },
                Err(e) => {
                    return Err(e);
                },
            }
        },
        Inbound::Ping { id: Some(id) } => {
            messages.push(ping_reply(*id));
            assert(views(messages@) =~= answers(line@)->Ok_0);
        },
        _ => {
            assert(views(messages@) =~= Seq::<JsonView>::empty());
        },
    }
    Ok(messages)
}

/// A server that is fed the lines of its input one by one.
pub struct McpServer {
    server: RaworcMcpServer,
}

/// What a line asks of an [`McpServer`].
#[derive(Debug)]
pub enum Routed {
    /// Nothing that can be told: the line is not JSON. The text says why.
    /// The line is dropped.
    Malformed(String),
    ToolCall { message: Json, id: Option<u64> },
    Ping { id: Option<u64> },
    /// A method that the server does not know, or none: the message is ignored.
    Unknown { method: Option<String> },
}

pub ghost enum RoutedView {
    Malformed(Seq<char>),
    ToolCall { message: JsonView, id: Option<u64> },
    Ping { id: Option<u64> },
    Unknown { method: Option<Seq<char>> },
}

impl View for Routed {
    type V = RoutedView;

    open spec fn view(&self) -> RoutedView {
        match self {
            Routed::Malformed(why) => RoutedView::Malformed(why@),
            Routed::ToolCall { message, id } => RoutedView::ToolCall { message: message@, id: *id },
            Routed::Ping { id } => RoutedView::Ping { id: *id },
            Routed::Unknown { method } => RoutedView::Unknown { method: opt_view(*method) },
        }
    }
}

/// What a line asks of the server: a tool call, a ping, or nothing. A line
/// that is not JSON asks nothing and is dropped, with the reason why it
/// could not be read.
pub open spec fn message_route(line: Seq<char>) -> RoutedView {
    match parsed(line) {
        Err(why) => RoutedView::Malformed("Failed to parse JSON: "@ + why),
        Ok(message) => {
            let id = message.u64_at("id"@);
            let method = message.str_at("method"@);
            if method == Some("tools/call"@) {
                RoutedView::ToolCall { message, id }
            } else if method == Some("ping"@) {
                RoutedView::Ping { id }
            } else {
                RoutedView::Unknown { method }
            }
        },
    }
}

/// What the server writes at once in answer to a line: the answer to a
/// ping, and nothing for a line that is dropped or ignored, or for a tool
/// call, whose answer comes when the call is over.
pub open spec fn route_answers(routed: RoutedView) -> Seq<JsonView> {
    match routed {
        RoutedView::Ping { id } => seq![result_message(id, acknowledgement("pong"@))],
        _ => Seq::empty(),
    }
}

/// A line that is not JSON is dropped: nothing is written for it, and no
/// tool is called.
pub proof fn lemma_malformed_line_is_dropped(line: Seq<char>)
    requires
        parsed(line) is Err,
    ensures
        message_route(line) is Malformed,
        route_answers(message_route(line)) == Seq::<JsonView>::empty(),
        inbound(line) is Blank || inbound(line) is Malformed,
        answers(inbound(line)) == Ok::<Seq<JsonView>, ErrorView>(Seq::empty()),
{
}

/// The first step of the tool call of a message. A message without
/// parameters or without the name of a tool ends at once with a protocol error.
pub open spec fn tool_call_started(server: ServerView, message: JsonView) -> ToolStepView {
    match message.get("params"@) {
        None => ToolStepView::Done(Err(ErrorView::McpError("Missing params in tool call"@))),
        Some(params) => match params.str_at("name"@) {
            None => ToolStepView::Done(Err(ErrorView::McpError("Missing tool name"@))),
            Some(name) => started(
                server,
                name,
                match params.get("arguments"@) {
                    Some(arguments) => arguments,
                    None => empty_object(),
                },
            ),
        },
    }
}

/// The request with which the server opens: an `initialize` under id 1.
pub open spec fn opening_message() -> JsonView {
    JsonView::Object(
        seq![
            ("id"@, JsonView::Number(number_of(1))),
            ("jsonrpc"@, JsonView::String("2.0"@)),
            ("method"@, JsonView::String("initialize"@)),
            ("params"@, identity("clientInfo"@)),
        ],
    )
}

/// What the server writes when it starts: its opening request, the
/// notification that initialization is over, and the catalog of its tools
/// under id 2.
pub open spec fn opening_messages() -> Result<Seq<JsonView>, ErrorView> {
    match catalog() {
        Err(why) => Err(ErrorView::JsonError(why)),
        Ok(tools) => Ok(
            seq![
                opening_message(),
                initialized_message(),
                result_message(Some(2), JsonView::Object(seq![("tools"@, tools)])),
            ],
        ),
    }
}

impl McpServer {
    /// The dispatcher behind the server.
    pub closed spec fn view(&self) -> ServerView {
        self.server@
    }

    /// A server for a configuration.
    pub fn new(config: Config) -> (r: RaworcResult<McpServer>)
        ensures
            match r {
                Ok(server) => server_for(config) == Ok::<ServerView, ErrorView>(server@),
                Err(e) => server_for(config) == Err::<ServerView, ErrorView>(e@),
            },
    {
        match RaworcMcpServer::new(config) {
            Ok(server) => Ok(McpServer { server }),
            Err(e) => Err(e),
        }
    }

    /// The time allowed for one request, in seconds.
    pub fn timeout(&self) -> (r: u64)
        ensures
            r == self@.client.timeout,
    {
        self.server.timeout()
    }

    /// Starts the login with which the server begins, where the
    /// configuration has a name and a password and no token.
    pub fn initialize(&self) -> (r: Option<crate::client::Progress>)
        ensures
            match r {
                Some(progress) => self@.login is Some && progress@ == crate::client::first_step(
                    self@.client,
                    crate::operations::authenticate_call(
                        self@.client,
                        self@.login->Some_0.0,
                        self@.login->Some_0.1,
                    ),
                ),
                None => self@.login is None,
            },
    {
        self.server.begin_login()
    }

    /// Takes the outcome of the request last sent for the login and says what happens next.
    pub fn handle_login(
        &mut self,
        exchange: crate::client::Exchange,
        outcome: &crate::client::HttpOutcome,
    ) -> (r: crate::client::Progress)
        ensures
            (final(self)@.client, r@) == crate::client::retry_step(
                old(self)@.client,
                exchange@,
                outcome@,
            ),
            final(self)@.login == old(self)@.login,
    {
        self.server.continue_login(exchange, outcome)
    }

    /// The line to handle, or nothing for a line that is blank: the line
    /// without the white space around it.
    pub fn accept(line: &str) -> (r: Option<&str>)
        ensures
            opt_str_view(r) == if trimmed(line@).len() == 0 {
                None
            } else {
                Some(trimmed(line@))
            },
    {
        let line = trim(line);
        if line.unicode_len() == 0 {
            None
        } else {
            Some(line)
        }
    }

    /// What the server writes when it starts.
    pub fn send_initialize() -> (r: RaworcResult<Vec<Json>>)
        ensures
            match r {
                Ok(messages) => opening_messages() == Ok::<Seq<JsonView>, ErrorView>(
                    views(messages@),
                ),
                Err(e) => opening_messages() == Err::<Seq<JsonView>, ErrorView>(e@),
            },
    {
        let tools = match Json::parse(CAPABILITIES) {
            Ok(tools) => tools,
            Err(why) => {
                return Err(RaworcError::JsonError(why));
            },
        };
        let mut opening: Vec<(String, Json)> = Vec::new();
        opening.push(("id".to_owned(), Json::unsigned(1)));
        opening.push(("jsonrpc".to_owned(), Json::string("2.0")));
        opening.push(("method".to_owned(), Json::string("initialize")));
        opening.push(("params".to_owned(), identity_of("clientInfo")));
        assert(member_views(opening@) =~= opening_message()->Object_0);
        let mut listed: Vec<(String, Json)> = Vec::new();
        listed.push(("tools".to_owned(), tools));
        assert(member_views(listed@) =~= seq![("tools"@, catalog()->Ok_0)]);
        let mut messages: Vec<Json> = Vec::new();
        messages.push(Json::Object(opening));
        messages.push(initialized_notification());
        messages.push(result_of(Some(2), Json::Object(listed)));
        assert(views(messages@) =~= opening_messages()->Ok_0);
        Ok(messages)
    }

    /// Says what a line asks for. A line that is not JSON is dropped.
    pub fn handle_message(line: &str) -> (r: Routed)
        ensures
            r@ == message_route(line@),
    {
        let message = match Json::parse(line) {
            Ok(message) => message,
            Err(why) => {
                return Routed::Malformed(followed_by("Failed to parse JSON: ", why.as_str()));
            },
        };
        let id = message.u64_at("id");
        let method = message.str_at("method");
        if method_is(method, "tools/call") {
            Routed::ToolCall { message: message.duplicate(), id }
        } else if method_is(method, "ping") {
            Routed::Ping { id }
        } else {
            Routed::Unknown {
                method: match method {
                    Some(m) => Some(m.to_owned()),
                    None => None,
                },
            }
        }
    }

    /// The messages to write at once in answer to a line.
    pub fn answer(routed: &Routed) -> (r: Vec<Json>)
        ensures
            views(r@) == route_answers(routed@),
    {
        let mut messages: Vec<Json> = Vec::new();
        match routed {
            Routed::Ping { id } => {
                messages.push(Self::handle_ping(*id));
            },
            _ => {},
        }
        assert(views(messages@) =~= route_answers(routed@));
        messages
    }

    /// Starts the tool call of a message.
    pub fn handle_tool_call(&mut self, message: &Json) -> (r: ToolStep)
        ensures
            final(self)@ == old(self)@,
            r@ == tool_call_started(old(self)@, message@),
    {
        let params = match message.get("params") {
            Some(params) => params,
            None => {
                return ToolStep::Done(Err(RaworcError::mcp_error("Missing params in tool call")));
            },
        };
        let name = match params.str_at("name") {
            Some(name) => name,
            None => {
                return ToolStep::Done(Err(RaworcError::mcp_error("Missing tool name")));
            },
        };
        let arguments = match params.get("arguments") {
            Some(arguments) => arguments.duplicate(),
            None => empty(),
        };
        self.server.handle_tool_call(name, &arguments)
    }

    /// Takes the outcome of the request last sent for a tool call and says
    /// what happens next.
    pub fn handle_response(
        &mut self,
        pending: crate::mcp::PendingCall,
        outcome: &crate::client::HttpOutcome,
    ) -> (r: ToolStep)
        ensures
            (final(self)@.client, r@) == crate::mcp::resumed(old(self)@.client, pending@, outcome@),
            final(self)@.login == old(self)@.login,
    {
        self.server.handle_response(pending, outcome)
    }

    /// The answer to a ping.
    pub fn handle_ping(id: Option<u64>) -> (r: Json)
        ensures
            r@ == result_message(id, acknowledgement("pong"@)),
    {
        result_of(id, acknowledge("pong"))
    }

    /// The line to write for a message.
    pub fn send_message(message: &Json) -> (r: String)
        ensures
            r@ == line_of(message@),
    {
        write_json(message)
    }
}

} // verus!
