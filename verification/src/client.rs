//! The REST client: what to send for each operation, and what to make of the answer.
//!
//! Nothing here touches the network. An operation is an [`ApiCall`]; the
//! client turns it into the [`HttpRequest`] to send, and turns the
//! [`HttpOutcome`] that came back into a [`Reply`] or an error. Between the
//! two stands [`RaworcClient::with_retry`], which asks for one login and one
//! more attempt after an answer of 401.

use crate::error::{reported_message, ErrorView, RaworcError, RaworcResult};
use crate::json::{compact, opt_str_view, parsed, settled, Json, JsonView};
use crate::models::{
    Agent, ApiErrorResponse, AuthRequest, Build, Message, MessageCount, Role, RoleBinding, Secret,
    ServiceAccount, Session, Space, UserInfo, VersionResponse,
};
use crate::shape::{
    list_accepts, list_from_json, list_json, list_normal, list_to_json, opt_view, pairs_view,
    Shape,
};
use crate::text::{
    followed_by, ends_with_slash, has_trailing_slash, trim_leading_slashes, without_leading_slashes,
};
use crate::Config;
use vstd::prelude::*;
use vstd::string::*;

verus! {

/// `url::Url`, opaque: what a URL is made of is named by [`url_text`] and [`url_path`].
#[verifier::external_type_specification]
#[verifier::external_body]
pub struct ExUrl(url::Url);

/// What `url::Url::parse` makes of a text: the URL, or the message with which
/// it rejects the text.
pub uninterp spec fn parsed_url(text: Seq<char>) -> Result<url::Url, Seq<char>>;

/// The text of a URL, as `url::Url::as_str` gives it.
pub uninterp spec fn url_text(url: url::Url) -> Seq<char>;

/// The path of a URL, as `url::Url::path` gives it.
pub uninterp spec fn url_path(url: url::Url) -> Seq<char>;

/// The URL after `url::Url::set_path`.
pub uninterp spec fn with_path(url: url::Url, path: Seq<char>) -> url::Url;

/// What `url::Url::join` makes of a reference against a base: the URL, or
/// nothing where it fails.
pub uninterp spec fn joined(base: url::Url, reference: Seq<char>) -> Option<url::Url>;

/// Whether a byte may stand in the value of a header: a tab, or a byte from
/// 32 on that is not 127.
pub open spec fn header_byte(b: u8) -> bool {
    b == 9 || (b >= 32 && b != 127)
}

/// Whether a text may be the value of a header: every byte of its UTF-8
/// form may stand in one.
pub open spec fn accepted_header_value(text: Seq<char>) -> bool {
    forall|i: int|
        0 <= i < vstd::utf8::encode_utf8(text).len() ==> header_byte(
            #[trigger] vstd::utf8::encode_utf8(text)[i],
        )
}

/// `url::Url::parse`; where it fails, the `Display` text of the error is handed back.
#[verifier::external_body]
fn url_parse(text: &str) -> (r: Result<url::Url, String>)
    ensures
        match r {
            Ok(url) => parsed_url(text@) == Ok::<url::Url, Seq<char>>(url),
            Err(message) => parsed_url(text@) == Err::<url::Url, Seq<char>>(message@),
        },
{
    url::Url::parse(text).map_err(|e| e.to_string())
}

/// `url::Url::as_str`: the text that the URL is written as.
#[verifier::external_body]
fn url_as_str(url: &url::Url) -> (r: &str)
    ensures
        r@ == url_text(*url),
{
    url.as_str()
}

/// `url::Url::path`: the path of the URL, as it stands in its text.
#[verifier::external_body]
fn url_path_of(url: &url::Url) -> (r: &str)
    ensures
        r@ == url_path(*url),
{
    url.path()
}

/// `url::Url::set_path`: the URL takes the path; what the URL is then is a
/// function of the URL before and of the path.
#[verifier::external_body]
fn url_set_path(url: &mut url::Url, path: &str)
    ensures
        *final(url) == with_path(*old(url), path@),
{
    url.set_path(path)
}

/// `url::Url::join`, the error dropped: the reference resolved against the
/// base, or nothing where it cannot be.
#[verifier::external_body]
fn url_join(base: &url::Url, reference: &str) -> (r: Option<url::Url>)
    ensures
        r == joined(*base, reference@),
{
    base.join(reference).ok()
}

/// `Clone` of `url::Url`: an equal URL.
pub assume_specification[ <url::Url as Clone>::clone ](url: &url::Url) -> (r: url::Url)
    ensures
        r == *url,
;

/// Whether `reqwest::header::HeaderValue::from_str` accepts the text as the
/// value of a header: it does where every byte of the text is a tab, or is
/// at least 32 and not 127.
#[verifier::external_body]
fn header_value_ok(text: &str) -> (r: bool)
    ensures
        r == accepted_header_value(text@),
{
    reqwest::header::HeaderValue::from_str(text).is_ok()
}

/// The method of an HTTP request.
#[derive(Debug, Clone, Copy, PartialEq, Eq)]
pub enum HttpMethod {
    Get,
    Post,
    Put,
    Patch,
    Delete,
}

/// An HTTP request, ready to be sent.
#[derive(Debug, Clone, PartialEq)]
pub struct HttpRequest {
    pub method: HttpMethod,
    pub url: String,
    pub headers: Vec<(String, String)>,
    pub body: Option<String>,
    pub timeout_seconds: u64,
}

pub ghost struct RequestView {
    pub method: HttpMethod,
    pub url: Seq<char>,
    pub headers: Seq<(Seq<char>, Seq<char>)>,
    pub body: Option<Seq<char>>,
    pub timeout_seconds: u64,
}

impl View for HttpRequest {
    type V = RequestView;

    open spec fn view(&self) -> RequestView {
        RequestView {
            method: self.method,
            url: self.url@,
            headers: pairs_view(self.headers@),
            body: opt_view(self.body),
            timeout_seconds: self.timeout_seconds,
        }
    }
}

/// How an HTTP exchange ended: with a response, whose body was read or could
/// not be read, or without one.
#[derive(Debug)]
pub enum HttpOutcome {
    Response { status: u16, body: Result<String, String> },
    Failed { timed_out: bool, message: String },
}

pub ghost enum OutcomeView {
    Response { status: u16, body: Result<Seq<char>, Seq<char>> },
    Failed { timed_out: bool, message: Seq<char> },
}

impl View for HttpOutcome {
    type V = OutcomeView;

    open spec fn view(&self) -> OutcomeView {
        match self {
            HttpOutcome::Response { status, body } => OutcomeView::Response {
                status: *status,
                body: match body {
                    Ok(t) => Ok(t@),
                    Err(m) => Err(m@),
                },
            },
            HttpOutcome::Failed { timed_out, message } => OutcomeView::Failed {
                timed_out: *timed_out,
                message: message@,
            },
        }
    }
}


/// What a call expects of a successful answer.
#[derive(Debug, Clone, Copy, PartialEq, Eq)]
pub enum Expect {
    /// The JSON of a `Session`.
    Session,
    /// A JSON array of `Session`.
    Sessions,
    /// The JSON of a `Message`.
    Message,
    /// A JSON array of `Message`.
    Messages,
    /// The JSON of a `MessageCount`.
    MessageCount,
    /// The JSON of a `Space`.
    Space,
    /// A JSON array of `Space`.
    Spaces,
    /// The JSON of a `Agent`.
    Agent,
    /// A JSON array of `Agent`.
    Agents,
    /// The JSON of a `Secret`.
    Secret,
    /// A JSON array of `Secret`.
    Secrets,
    /// The JSON of a `Build`.
    Build,
    /// The JSON of a `UserInfo`.
    UserInfo,
    /// The JSON of a `VersionResponse`.
    Version,
    /// The JSON of a `ServiceAccount`.
    ServiceAccount,
    /// A JSON array of `ServiceAccount`.
    ServiceAccounts,
    /// The JSON of a `Role`.
    Role,
    /// A JSON array of `Role`.
    Roles,
    /// The JSON of a `RoleBinding`.
    RoleBinding,
    /// A JSON array of `RoleBinding`.
    RoleBindings,
    /// A JSON object with a text member `token`.
    Token,
    /// The JSON `null`.
    Nothing,
    /// Anything: the body is not read.
    Ignored,
    /// Text, taken as it is.
    Text,
    /// Text, taken as it is, whatever the status; the request goes out without headers.
    Health,
}

/// What a call brought back.
#[derive(Debug)]
pub enum Reply {
    Session(Session),
    Sessions(Vec<Session>),
    Message(Message),
    Messages(Vec<Message>),
    MessageCount(MessageCount),
    Space(Space),
    Spaces(Vec<Space>),
    Agent(Agent),
    Agents(Vec<Agent>),
    Secret(Secret),
    Secrets(Vec<Secret>),
    Build(Build),
    UserInfo(UserInfo),
    Version(VersionResponse),
    ServiceAccount(ServiceAccount),
    ServiceAccounts(Vec<ServiceAccount>),
    Role(Role),
    Roles(Vec<Role>),
    RoleBinding(RoleBinding),
    RoleBindings(Vec<RoleBinding>),
    Token(String),
    Done,
    Text(String),
}

/// The mathematical model of a reply: entities by the JSON that stands for them.
pub ghost enum ReplyView {
    Json(JsonView),
    Token(Seq<char>),
    Done,
    Text(Seq<char>),
}

impl View for Reply {
    type V = ReplyView;

    open spec fn view(&self) -> ReplyView {
        match self {
            Reply::Session(value) => ReplyView::Json(value.json_view()),
            Reply::Sessions(value) => ReplyView::Json(list_json(value@)),
            Reply::Message(value) => ReplyView::Json(value.json_view()),
            Reply::Messages(value) => ReplyView::Json(list_json(value@)),
            Reply::MessageCount(value) => ReplyView::Json(value.json_view()),
            Reply::Space(value) => ReplyView::Json(value.json_view()),
            Reply::Spaces(value) => ReplyView::Json(list_json(value@)),
            Reply::Agent(value) => ReplyView::Json(value.json_view()),
            Reply::Agents(value) => ReplyView::Json(list_json(value@)),
            Reply::Secret(value) => ReplyView::Json(value.json_view()),
            Reply::Secrets(value) => ReplyView::Json(list_json(value@)),
            Reply::Build(value) => ReplyView::Json(value.json_view()),
            Reply::UserInfo(value) => ReplyView::Json(value.json_view()),
            Reply::Version(value) => ReplyView::Json(value.json_view()),
            Reply::ServiceAccount(value) => ReplyView::Json(value.json_view()),
            Reply::ServiceAccounts(value) => ReplyView::Json(list_json(value@)),
            Reply::Role(value) => ReplyView::Json(value.json_view()),
            Reply::Roles(value) => ReplyView::Json(list_json(value@)),
            Reply::RoleBinding(value) => ReplyView::Json(value.json_view()),
            Reply::RoleBindings(value) => ReplyView::Json(list_json(value@)),
            Reply::Token(token) => ReplyView::Token(token@),
            Reply::Done => ReplyView::Done,
            Reply::Text(text) => ReplyView::Text(text@),
        }
    }
}

/// Whether a document is what a call expects. Of text and unread bodies
/// nothing is expected.
pub open spec fn expect_accepts(expect: Expect, doc: JsonView) -> bool {
    match expect {
        Expect::Session => Session::accepts(doc),
        Expect::Sessions => list_accepts::<Session>(doc),
        Expect::Message => Message::accepts(doc),
        Expect::Messages => list_accepts::<Message>(doc),
        Expect::MessageCount => MessageCount::accepts(doc),
        Expect::Space => Space::accepts(doc),
        Expect::Spaces => list_accepts::<Space>(doc),
        Expect::Agent => Agent::accepts(doc),
        Expect::Agents => list_accepts::<Agent>(doc),
        Expect::Secret => Secret::accepts(doc),
        Expect::Secrets => list_accepts::<Secret>(doc),
        Expect::Build => Build::accepts(doc),
        Expect::UserInfo => UserInfo::accepts(doc),
        Expect::Version => VersionResponse::accepts(doc),
        Expect::ServiceAccount => ServiceAccount::accepts(doc),
        Expect::ServiceAccounts => list_accepts::<ServiceAccount>(doc),
        Expect::Role => Role::accepts(doc),
        Expect::Roles => list_accepts::<Role>(doc),
        Expect::RoleBinding => RoleBinding::accepts(doc),
        Expect::RoleBindings => list_accepts::<RoleBinding>(doc),
        Expect::Token => doc is Object && doc.str_at("token"@) is Some,
        Expect::Nothing => doc == JsonView::Null,
        Expect::Ignored => true,
        Expect::Text => true,
        Expect::Health => true,
    }
}

/// The reply that an accepted document stands for.
pub open spec fn expect_normal(expect: Expect, doc: JsonView) -> ReplyView {
    match expect {
        Expect::Session => ReplyView::Json(Session::normal(doc)),
        Expect::Sessions => ReplyView::Json(list_normal::<Session>(doc)),
        Expect::Message => ReplyView::Json(Message::normal(doc)),
        Expect::Messages => ReplyView::Json(list_normal::<Message>(doc)),
        Expect::MessageCount => ReplyView::Json(MessageCount::normal(doc)),
        Expect::Space => ReplyView::Json(Space::normal(doc)),
        Expect::Spaces => ReplyView::Json(list_normal::<Space>(doc)),
        Expect::Agent => ReplyView::Json(Agent::normal(doc)),
        Expect::Agents => ReplyView::Json(list_normal::<Agent>(doc)),
        Expect::Secret => ReplyView::Json(Secret::normal(doc)),
        Expect::Secrets => ReplyView::Json(list_normal::<Secret>(doc)),
        Expect::Build => ReplyView::Json(Build::normal(doc)),
        Expect::UserInfo => ReplyView::Json(UserInfo::normal(doc)),
        Expect::Version => ReplyView::Json(VersionResponse::normal(doc)),
        Expect::ServiceAccount => ReplyView::Json(ServiceAccount::normal(doc)),
        Expect::ServiceAccounts => ReplyView::Json(list_normal::<ServiceAccount>(doc)),
        Expect::Role => ReplyView::Json(Role::normal(doc)),
        Expect::Roles => ReplyView::Json(list_normal::<Role>(doc)),
        Expect::RoleBinding => ReplyView::Json(RoleBinding::normal(doc)),
        Expect::RoleBindings => ReplyView::Json(list_normal::<RoleBinding>(doc)),
        Expect::Token => ReplyView::Token(doc.str_at("token"@)->Some_0),
        Expect::Nothing => ReplyView::Done,
        Expect::Ignored => ReplyView::Done,
        Expect::Text => ReplyView::Done,
        Expect::Health => ReplyView::Done,
    }
}

/// Reads a document as what a call expects.
pub fn decode_reply(expect: Expect, doc: &Json) -> (r: Option<Reply>)
    ensures
        match r {
            Some(reply) => expect_accepts(expect, doc@) && reply@ == expect_normal(expect, doc@),
            None => !expect_accepts(expect, doc@),
        },
{
    match expect {
        Expect::Session => match Session::from_json(doc) {
            Some(value) => Some(Reply::Session(value)),
            None => None,
        },
        Expect::Sessions => match list_from_json::<Session>(doc) {
            Some(value) => Some(Reply::Sessions(value)),
            None => None,
        },
        Expect::Message => match Message::from_json(doc) {
            Some(value) => Some(Reply::Message(value)),
            None => None,
        },
        Expect::Messages => match list_from_json::<Message>(doc) {
            Some(value) => Some(Reply::Messages(value)),
            None => None,
        },
        Expect::MessageCount => match MessageCount::from_json(doc) {
            Some(value) => Some(Reply::MessageCount(value)),
            None => None,
        },
        Expect::Space => match Space::from_json(doc) {
            Some(value) => Some(Reply::Space(value)),
            None => None,
        },
        Expect::Spaces => match list_from_json::<Space>(doc) {
            Some(value) => Some(Reply::Spaces(value)),
            None => None,
        },
        Expect::Agent => match Agent::from_json(doc) {
            Some(value) => Some(Reply::Agent(value)),
            None => None,
        },
        Expect::Agents => match list_from_json::<Agent>(doc) {
            Some(value) => Some(Reply::Agents(value)),
            None => None,
        },
        Expect::Secret => match Secret::from_json(doc) {
            Some(value) => Some(Reply::Secret(value)),
            None => None,
        },
        Expect::Secrets => match list_from_json::<Secret>(doc) {
            Some(value) => Some(Reply::Secrets(value)),
            None => None,
        },
        Expect::Build => match Build::from_json(doc) {
            Some(value) => Some(Reply::Build(value)),
            None => None,
        },
        Expect::UserInfo => match UserInfo::from_json(doc) {
            Some(value) => Some(Reply::UserInfo(value)),
            None => None,
        },
        Expect::Version => match VersionResponse::from_json(doc) {
            Some(value) => Some(Reply::Version(value)),
            None => None,
        },
        Expect::ServiceAccount => match ServiceAccount::from_json(doc) {
            Some(value) => Some(Reply::ServiceAccount(value)),
            None => None,
        },
        Expect::ServiceAccounts => match list_from_json::<ServiceAccount>(doc) {
            Some(value) => Some(Reply::ServiceAccounts(value)),
            None => None,
        },
        Expect::Role => match Role::from_json(doc) {
            Some(value) => Some(Reply::Role(value)),
            None => None,
        },
        Expect::Roles => match list_from_json::<Role>(doc) {
            Some(value) => Some(Reply::Roles(value)),
            None => None,
        },
        Expect::RoleBinding => match RoleBinding::from_json(doc) {
            Some(value) => Some(Reply::RoleBinding(value)),
            None => None,
        },
        Expect::RoleBindings => match list_from_json::<RoleBinding>(doc) {
            Some(value) => Some(Reply::RoleBindings(value)),
            None => None,
        },
        Expect::Token => {
            if doc.as_object().is_none() {
                return None;
            }
            match doc.str_at("token") {
                Some(token) => Some(Reply::Token(token.to_owned())),
                None => None,
            }
        },
        Expect::Nothing => {
            if doc.is_null() {
                Some(Reply::Done)
            } else {
                None
            }
        },
        Expect::Ignored => Some(Reply::Done),
        Expect::Text => Some(Reply::Done),
        Expect::Health => Some(Reply::Done),
    }
}

/// The JSON that a reply is shown as.
pub open spec fn reply_json(reply: ReplyView) -> JsonView {
    match reply {
        ReplyView::Json(doc) => doc,
        ReplyView::Token(token) => JsonView::String(token),
        ReplyView::Done => JsonView::Null,
        ReplyView::Text(text) => JsonView::String(text),
    }
}

impl Reply {
    /// The JSON that the reply is shown as.
    pub fn to_json(&self) -> (r: Json)
        ensures
            r@ == reply_json(self@),
    {
        match self {
            Reply::Session(value) => value.to_json(),
            Reply::Sessions(value) => list_to_json(value),
            Reply::Message(value) => value.to_json(),
            Reply::Messages(value) => list_to_json(value),
            Reply::MessageCount(value) => value.to_json(),
            Reply::Space(value) => value.to_json(),
            Reply::Spaces(value) => list_to_json(value),
            Reply::Agent(value) => value.to_json(),
            Reply::Agents(value) => list_to_json(value),
            Reply::Secret(value) => value.to_json(),
            Reply::Secrets(value) => list_to_json(value),
            Reply::Build(value) => value.to_json(),
            Reply::UserInfo(value) => value.to_json(),
            Reply::Version(value) => value.to_json(),
            Reply::ServiceAccount(value) => value.to_json(),
            Reply::ServiceAccounts(value) => list_to_json(value),
            Reply::Role(value) => value.to_json(),
            Reply::Roles(value) => list_to_json(value),
            Reply::RoleBinding(value) => value.to_json(),
            Reply::RoleBindings(value) => list_to_json(value),
            Reply::Token(token) => Json::string(token.as_str()),
            Reply::Done => Json::Null,
            Reply::Text(text) => Json::string(text.as_str()),
        }
    }
}

/// One operation of the API: what to ask for and what to expect back.
#[derive(Debug)]
pub struct ApiCall {
    pub method: HttpMethod,
    /// The path below the API's base URL, with the query where there is one.
    pub path: String,
    /// The JSON to send as the body.
    pub body: Option<Json>,
    pub expect: Expect,
}

pub ghost struct CallView {
    pub method: HttpMethod,
    pub path: Seq<char>,
    pub body: Option<JsonView>,
    pub expect: Expect,
}

impl View for ApiCall {
    type V = CallView;

    open spec fn view(&self) -> CallView {
        CallView {
            method: self.method,
            path: self.path@,
            body: match self.body {
                Some(doc) => Some(doc@),
                None => None,
            },
            expect: self.expect,
        }
    }
}

impl ApiCall {
    /// A copy of the call.
    pub fn duplicate(&self) -> (r: ApiCall)
        ensures
            r@ == self@,
    {
        ApiCall {
            method: self.method,
            path: self.path.clone(),
            body: match &self.body {
                Some(doc) => Some(doc.duplicate()),
                None => None,
            },
            expect: self.expect,
        }
    }
}

/// The client: where the API is, and what it presents itself with.
pub struct RaworcClient {
    base_url: url::Url,
    /// Sent as `Authorization: Bearer <token>` where present.
    auth_token: Option<String>,
    /// The space of a space-scoped call that names none.
    default_space: Option<String>,
    /// With a password, what the client logs in with again after a 401.
    username: Option<String>,
    password: Option<String>,
    /// The time allowed for one request, in seconds.
    timeout: u64,
}

/// The mathematical model of the client.
pub ghost struct ClientView {
    pub base_url: url::Url,
    pub auth_token: Option<Seq<char>>,
    pub default_space: Option<Seq<char>>,
    pub username: Option<Seq<char>>,
    pub password: Option<Seq<char>>,
    pub timeout: u64,
}

impl View for RaworcClient {
    type V = ClientView;

    closed spec fn view(&self) -> ClientView {
        ClientView {
            base_url: self.base_url,
            auth_token: opt_view(self.auth_token),
            default_space: opt_view(self.default_space),
            username: opt_view(self.username),
            password: opt_view(self.password),
            timeout: self.timeout,
        }
    }
}

/// The address of the API where the configuration names none.
pub open spec fn default_api_url() -> Seq<char> {
    "https://api.remoteagent.com/api/v0"@
}

/// The address that a configuration names, or that of the public API.
pub open spec fn configured_url(config: Config) -> Seq<char> {
    match config.api_url {
        Some(text) => text@,
        None => default_api_url(),
    }
}

/// The time that a configuration allows for a request, or 30 seconds.
pub open spec fn configured_timeout(config: Config) -> u64 {
    match config.timeout_seconds {
        Some(seconds) => seconds,
        None => 30,
    }
}

/// The client of a configuration, or the error where its address is no URL.
pub open spec fn client_for(config: Config) -> Result<ClientView, ErrorView> {
    match parsed_url(configured_url(config)) {
        Ok(base_url) => Ok(
            ClientView {
                base_url,
                auth_token: opt_view(config.auth_token),
                default_space: opt_view(config.default_space),
                username: opt_view(config.username),
                password: opt_view(config.password),
                timeout: configured_timeout(config),
            },
        ),
        Err(why) => Err(ErrorView::ConfigError("Invalid API URL: "@ + why)),
    }
}

/// The space that a space-scoped call goes to: the one the call names, else
/// the configured default, else `default`.
pub open spec fn effective_space(default_space: Option<Seq<char>>, space: Option<Seq<char>>) -> Seq<
    char,
> {
    match space {
        Some(s) => s,
        None => match default_space {
            Some(d) => d,
            None => "default"@,
        },
    }
}

/// The path of a space-scoped call: below `spaces/`, the space that the
/// call goes to, and then what the call asks for in it.
pub open spec fn space_scoped_path(
    default_space: Option<Seq<char>>,
    space: Option<Seq<char>>,
    rest: Seq<char>,
) -> Seq<char> {
    "spaces/"@ + effective_space(default_space, space) + rest
}

/// Where a space-scoped call names no space and none is configured, its
/// path is below `spaces/default`.
pub proof fn lemma_space_falls_back_to_default(rest: Seq<char>)
    ensures
        effective_space(None, None) == "default"@,
        space_scoped_path(None, None, rest) == "spaces/default"@ + rest,
{
    reveal_strlit("spaces/");
    reveal_strlit("default");
    reveal_strlit("spaces/default");
    assert("spaces/"@ + "default"@ =~= "spaces/default"@);
}

/// The space that a space-scoped call names is the space of its path,
/// whatever is configured.
pub proof fn lemma_space_argument_overrides(
    default_space: Option<Seq<char>>,
    space: Seq<char>,
    rest: Seq<char>,
)
    ensures
        effective_space(default_space, Some(space)) == space,
        space_scoped_path(default_space, Some(space), rest) == "spaces/"@ + space + rest,
        space_scoped_path(default_space, Some(space), rest) == space_scoped_path(
            None,
            Some(space),
            rest,
        ),
{
}

/// Where a space-scoped call names no space, its path is below the configured space.
pub proof fn lemma_space_falls_back_to_configured(configured: Seq<char>, rest: Seq<char>)
    ensures
        space_scoped_path(Some(configured), None, rest) == "spaces/"@ + configured + rest,
{
}

/// The base with a path that ends in `/`, so that a relative reference is
/// resolved below it.
pub open spec fn slashed(base: url::Url) -> url::Url {
    if has_trailing_slash(url_path(base)) {
        base
    } else {
        with_path(base, url_path(base) + "/"@)
    }
}

/// The address of a path of the API: the path, without leading `/`, joined
/// to the base; the base itself where they cannot be joined.
pub open spec fn endpoint(base: url::Url, path: Seq<char>) -> Seq<char> {
    match joined(slashed(base), without_leading_slashes(path)) {
        Some(url) => url_text(url),
        None => url_text(base),
    }
}

pub open spec fn bearer(token: Seq<char>) -> Seq<char> {
    "Bearer "@ + token
}

/// The headers of a call: JSON is accepted and sent, and the token, where
/// there is one that can stand in a header, authorizes.
pub open spec fn standard_headers(token: Option<Seq<char>>) -> Seq<(Seq<char>, Seq<char>)> {
    let fixed = seq![("accept"@, "application/json"@), ("content-type"@, "application/json"@)];
    match token {
        Some(t) => if accepted_header_value(bearer(t)) {
            fixed.push(("authorization"@, bearer(t)))
        } else {
            fixed
        },
        None => fixed,
    }
}

/// The headers of a login.
pub open spec fn login_headers() -> Seq<(Seq<char>, Seq<char>)> {
    seq![("content-type"@, "application/json"@)]
}

/// The text of a body: the document on one line.
pub open spec fn body_text(body: Option<JsonView>) -> Option<Seq<char>> {
    match body {
        None => None,
        Some(doc) => Some(compact(settled(doc))),
    }
}

/// The request of a call.
pub open spec fn request_for(client: ClientView, call: CallView) -> RequestView {
    RequestView {
        method: call.method,
        url: endpoint(client.base_url, call.path),
        headers: if call.expect == Expect::Health {
            Seq::empty()
        } else {
            standard_headers(client.auth_token)
        },
        body: body_text(call.body),
        timeout_seconds: client.timeout,
    }
}

/// The JSON of a login.
pub open spec fn auth_json(user: Seq<char>, pass: Seq<char>) -> JsonView {
    JsonView::Object(seq![("user"@, JsonView::String(user)), ("pass"@, JsonView::String(pass))])
}

/// The request with which the client logs in again with its stored name and password.
pub open spec fn login_request(client: ClientView) -> RequestView {
    RequestView {
        method: HttpMethod::Post,
        url: endpoint(client.base_url, "auth/login"@),
        headers: login_headers(),
        body: Some(
            compact(settled(auth_json(client.username->Some_0, client.password->Some_0))),
        ),
        timeout_seconds: client.timeout,
    }
}

pub open spec fn is_success(status: u16) -> bool {
    200 <= status < 300
}

/// The body, or a text in its place where it could not be read.
pub open spec fn body_or(body: Result<Seq<char>, Seq<char>>, otherwise: Seq<char>) -> Seq<char> {
    match body {
        Ok(text) => text,
        Err(_) => otherwise,
    }
}

/// The error that an API error body carries: its reported message where it
/// reports one, else the body itself.
pub open spec fn api_error(status: u16, text: Seq<char>) -> ErrorView {
    match reported_message(text) {
        Some(message) => ErrorView::ApiError { status, message },
        None => ErrorView::ApiError { status, message: text },
    }
}

/// The error of a response that is no success: 404 is not found and 401 is
/// an authentication error, both with the body as it came; any other status
/// is an API error.
pub open spec fn error_of(status: u16, body: Result<Seq<char>, Seq<char>>) -> ErrorView {
    let text = body_or(body, "Unknown error"@);
    if status == 404 {
        ErrorView::NotFound(text)
    } else if status == 401 {
        ErrorView::AuthError(text)
    } else {
        api_error(status, text)
    }
}

/// The error of an exchange that brought no response.
pub open spec fn transport_error(timed_out: bool, message: Seq<char>) -> ErrorView {
    if timed_out {
        ErrorView::TimeoutError(message)
    } else {
        ErrorView::HttpError(message)
    }
}

pub open spec fn shape_message() -> Seq<char> {
    "response does not have the expected shape"@
}

/// What a body of a successful response is read as.
pub open spec fn decoded(expect: Expect, text: Seq<char>) -> Result<ReplyView, ErrorView> {
    match parsed(text) {
        Err(message) => Err(ErrorView::JsonError(message)),
        Ok(doc) => if expect_accepts(expect, doc) {
            Ok(expect_normal(expect, doc))
        } else {
            Err(ErrorView::JsonError(shape_message()))
        },
    }
}

/// What the outcome of a call's exchange amounts to.
pub open spec fn received(expect: Expect, outcome: OutcomeView) -> Result<ReplyView, ErrorView> {
    match outcome {
        OutcomeView::Failed { timed_out, message } => Err(transport_error(timed_out, message)),
        OutcomeView::Response { status, body } => if expect == Expect::Health {
            Ok(ReplyView::Text(body_or(body, Seq::empty())))
        } else if !is_success(status) {
            Err(error_of(status, body))
        } else if expect == Expect::Text {
            Ok(ReplyView::Text(body_or(body, Seq::empty())))
        } else if expect == Expect::Ignored {
            Ok(ReplyView::Done)
        } else {
            match body {
                Err(message) => Err(ErrorView::HttpError(message)),
                Ok(text) => decoded(expect, text),
            }
        },
    }
}

/// What the outcome of a login amounts to: the token, or the error. A login
/// that the API refuses, whatever the status, is an authentication error
/// with the body as it came.
pub open spec fn login_result(outcome: OutcomeView) -> Result<Seq<char>, ErrorView> {
    match outcome {
        OutcomeView::Failed { timed_out, message } => Err(transport_error(timed_out, message)),
        OutcomeView::Response { status, body } => if is_success(status) {
            match body {
                Err(message) => Err(ErrorView::HttpError(message)),
                Ok(text) => match decoded(Expect::Token, text) {
                    Ok(reply) => Ok(reply->Token_0),
                    Err(e) => Err(e),
                },
            }
        } else {
            Err(ErrorView::AuthError(body_or(body, Seq::empty())))
        },
    }
}

pub open spec fn reply_result_view(r: RaworcResult<Reply>) -> Result<ReplyView, ErrorView> {
    match r {
        Ok(reply) => Ok(reply@),
        Err(e) => Err(e@),
    }
}

/// Where an exchange with retry stands.
#[derive(Debug, Clone, Copy, PartialEq, Eq)]
pub enum Phase {
    /// The call has been sent for the first time.
    First,
    /// The first attempt ended in 401, and a login has been sent.
    Login,
    /// The login succeeded, and the call has been sent once more.
    Replay,
}

/// A call under way.
#[derive(Debug)]
pub struct Exchange {
    pub call: ApiCall,
    pub phase: Phase,
}

pub ghost struct ExchangeView {
    pub call: CallView,
    pub phase: Phase,
}

impl View for Exchange {
    type V = ExchangeView;

    open spec fn view(&self) -> ExchangeView {
        ExchangeView { call: self.call@, phase: self.phase }
    }
}

/// What is to happen next in an exchange: a request to send, or its end.
#[derive(Debug)]
pub enum Progress {
    Send(Exchange, HttpRequest),
    Done(RaworcResult<Reply>),
}

pub ghost enum ProgressView {
    Send(ExchangeView, RequestView),
    Done(Result<ReplyView, ErrorView>),
}

impl View for Progress {
    type V = ProgressView;

    open spec fn view(&self) -> ProgressView {
        match self {
            Progress::Send(exchange, request) => ProgressView::Send(exchange@, request@),
            Progress::Done(result) => ProgressView::Done(reply_result_view(*result)),
        }
    }
}

pub open spec fn has_credentials(client: ClientView) -> bool {
    client.username is Some && client.password is Some
}

pub open spec fn with_token(client: ClientView, token: Seq<char>) -> ClientView {
    ClientView { auth_token: Some(token), ..client }
}

/// The end of a call: a token that came back becomes the bearer token, and
/// the call is done.
pub open spec fn settle(client: ClientView, result: Result<ReplyView, ErrorView>) -> (
    ClientView,
    Result<ReplyView, ErrorView>,
) {
    match result {
        Ok(ReplyView::Token(token)) => (with_token(client, token), Ok(ReplyView::Done)),
        _ => (client, result),
    }
}

/// One step of a call with retry: the client afterwards, and what happens next.
///
/// After the first attempt, an authentication error leads to one login where
/// a name and a password are stored, and to nothing more where they are not;
/// every other result ends the call. After the login, its error ends the
/// call, and its token is stored and the call sent once more. After that,
/// whatever comes back ends the call.
pub open spec fn retry_step(client: ClientView, exchange: ExchangeView, outcome: OutcomeView) -> (
    ClientView,
    ProgressView,
) {
    match exchange.phase {
        Phase::First => {
            let result = received(exchange.call.expect, outcome);
            if result is Err && result->Err_0 is AuthError && has_credentials(client) {
                (
                    client,
                    ProgressView::Send(
                        ExchangeView { call: exchange.call, phase: Phase::Login },
                        login_request(client),
                    ),
                )
            } else {
                let (after, end) = settle(client, result);
                (after, ProgressView::Done(end))
            }
        },
        Phase::Login => match login_result(outcome) {
            Ok(token) => {
                let after = with_token(client, token);
                (
                    after,
                    ProgressView::Send(
                        ExchangeView { call: exchange.call, phase: Phase::Replay },
                        request_for(after, exchange.call),
                    ),
                )
            },
            Err(e) => (client, ProgressView::Done(Err(e))),
        },
        Phase::Replay => {
            let (after, end) = settle(client, received(exchange.call.expect, outcome));
            (after, ProgressView::Done(end))
        },
    }
}

/// The start of a call: its request goes out for the first time.
pub open spec fn first_step(client: ClientView, call: CallView) -> ProgressView {
    ProgressView::Send(ExchangeView { call, phase: Phase::First }, request_for(client, call))
}

/// After an authentication error, with a name and a password stored, the
/// client logs in once and sends the call once more, and whatever the second
/// attempt brings is the result: its error where it fails, not the first one.
pub proof fn lemma_one_login_one_replay(
    client: ClientView,
    call: CallView,
    first: OutcomeView,
    login: OutcomeView,
    second: OutcomeView,
)
    requires
        has_credentials(client),
        received(call.expect, first) is Err,
        received(call.expect, first)->Err_0 is AuthError,
        login_result(login) is Ok,
    ensures
        ({
            let renewed = with_token(client, login_result(login)->Ok_0);
            let login_exchange = ExchangeView { call, phase: Phase::Login };
            let replay_exchange = ExchangeView { call, phase: Phase::Replay };
            &&& retry_step(client, ExchangeView { call, phase: Phase::First }, first) == (
                client,
                ProgressView::Send(login_exchange, login_request(client)),
            )
            &&& retry_step(client, login_exchange, login) == (
                renewed,
                ProgressView::Send(replay_exchange, request_for(renewed, call)),
            )
            &&& retry_step(renewed, replay_exchange, second).1 == ProgressView::Done(
                settle(renewed, received(call.expect, second)).1,
            )
        }),
{
}

/// After an authentication error, without a stored name and password, the
/// client sends nothing more, and the error is the result as it came.
pub proof fn lemma_no_credentials_no_login(client: ClientView, call: CallView, first: OutcomeView)
    requires
        !has_credentials(client),
        received(call.expect, first) is Err,
        received(call.expect, first)->Err_0 is AuthError,
    ensures
        retry_step(client, ExchangeView { call, phase: Phase::First }, first) == (
            client,
            ProgressView::Done(received(call.expect, first)),
        ),
{
}

/// Where the login fails, the call is not sent again, and the login's error is the result.
pub proof fn lemma_failed_login_ends_the_call(
    client: ClientView,
    call: CallView,
    login: OutcomeView,
)
    requires
        login_result(login) is Err,
    ensures
        retry_step(client, ExchangeView { call, phase: Phase::Login }, login) == (
            client,
            ProgressView::Done(Err(login_result(login)->Err_0)),
        ),
{
}

/// A login that the API refuses ends the call with an authentication error
/// that carries the body of the refusal; the call is not sent again.
pub proof fn lemma_refused_login_is_an_authentication_error(
    client: ClientView,
    call: CallView,
    status: u16,
    body: Seq<char>,
)
    requires
        !is_success(status),
    ensures
        retry_step(
            client,
            ExchangeView { call, phase: Phase::Login },
            OutcomeView::Response { status, body: Ok(body) },
        ) == (client, ProgressView::Done(Err(ErrorView::AuthError(body)))),
{
}

/// A result that is no authentication error ends the call at once.
pub proof fn lemma_other_results_end_the_call(
    client: ClientView,
    call: CallView,
    first: OutcomeView,
)
    requires
        !(received(call.expect, first) is Err && received(call.expect, first)->Err_0 is AuthError),
    ensures
        retry_step(client, ExchangeView { call, phase: Phase::First }, first).1 is Done,
{
}

/// The path with the limit as its query, where a limit is given.
pub open spec fn with_limit(path: Seq<char>, limit: Option<u64>) -> Seq<char> {
    match limit {
        Some(n) => path + "?limit="@ + crate::text::decimal_digits(n as nat),
        None => path,
    }
}

/// Adds the limit to a path as its query.
pub fn append_limit(path: String, limit: Option<u64>) -> (r: String)
    ensures
        r@ == with_limit(path@, limit),
{
    match limit {
        Some(n) => {
            let mut path = path;
            path.append("?limit=");
            let digits = crate::text::decimal(n);
            path.append(digits.as_str());
            path
        },
        None => path,
    }
}

fn copy_opt(text: &Option<String>) -> (r: Option<String>)
    ensures
        opt_view(r) == opt_view(*text),
{
    match text {
        Some(t) => Some(t.clone()),
        None => None,
    }
}

impl RaworcClient {
    /// A client for a configuration. The address is that of the
    /// configuration, or the public API where it names none; it must be a
    /// URL. The time allowed for a request is 30 seconds where the
    /// configuration names none.
    pub fn new(config: &Config) -> (r: RaworcResult<RaworcClient>)
        ensures
            match r {
                Ok(client) => client_for(*config) == Ok::<ClientView, ErrorView>(client@),
                Err(e) => client_for(*config) == Err::<ClientView, ErrorView>(e@),
            },
    {
        let parsed = match &config.api_url {
            Some(text) => url_parse(text.as_str()),
            None => url_parse("https://api.remoteagent.com/api/v0"),
        };
        let base_url = match parsed {
            Ok(url) => url,
            Err(message) => {
                return Err(
                    RaworcError::ConfigError(followed_by("Invalid API URL: ", message.as_str())),
                );
            },
        };
        let timeout = match config.timeout_seconds {
            Some(seconds) => seconds,
            None => 30,
        };
        Ok(
            RaworcClient {
                base_url,
                auth_token: copy_opt(&config.auth_token),
                default_space: copy_opt(&config.default_space),
                username: copy_opt(&config.username),
                password: copy_opt(&config.password),
                timeout,
            },
        )
    }

    /// The time allowed for one request, in seconds.
    pub fn timeout(&self) -> (r: u64)
        ensures
            r == self@.timeout,
    {
        self.timeout
    }

    /// Sets or replaces the bearer token.
    pub fn set_token(&mut self, token: String)
        ensures
            final(self)@ == with_token(old(self)@, token@),
    {
        self.auth_token = Some(token);
    }

    /// The space of a space-scoped call.
    pub fn space<'a>(&'a self, space: Option<&'a str>) -> (r: &'a str)
        ensures
            r@ == effective_space(self@.default_space, opt_str_view(space)),
    {
        match space {
            Some(s) => s,
            None => match &self.default_space {
                Some(d) => d.as_str(),
                None => "default",
            },
        }
    }

    /// The address of a path of the API.
    pub fn build_url(&self, path: &str) -> (r: String)
        ensures
            r@ == endpoint(self@.base_url, path@),
    {
        let mut base = self.base_url.clone();
        if !ends_with_slash(url_path_of(&base)) {
            let path = followed_by(url_path_of(&base), "/");
            url_set_path(&mut base, path.as_str());
        }
        match url_join(&base, trim_leading_slashes(path)) {
            Some(url) => url_as_str(&url).to_owned(),
            None => url_as_str(&self.base_url).to_owned(),
        }
    }

    /// The headers of a call.
    pub fn build_headers(&self) -> (r: Vec<(String, String)>)
        ensures
            pairs_view(r@) == standard_headers(self@.auth_token),
    {
        let mut headers: Vec<(String, String)> = Vec::new();
        headers.push(("accept".to_owned(), "application/json".to_owned()));
        headers.push(("content-type".to_owned(), "application/json".to_owned()));
        match &self.auth_token {
            Some(token) => {
                let value = followed_by("Bearer ", token.as_str());
                if header_value_ok(value.as_str()) {
                    headers.push(("authorization".to_owned(), value));
                }
            },
            None => {},
        }
        assert(pairs_view(headers@) =~= standard_headers(self@.auth_token));
        headers
    }

    /// The request of a call, with the client's present token.
    pub fn request(&self, call: &ApiCall) -> (r: HttpRequest)
        ensures
            r@ == request_for(self@, call@),
    {
        let body = match &call.body {
            None => None,
            Some(doc) => Some(doc.to_text()),
        };
        let headers = match call.expect {
            Expect::Health => {
                let none: Vec<(String, String)> = Vec::new();
                assert(pairs_view(none@) =~= Seq::<(Seq<char>, Seq<char>)>::empty());
                none
            },
            _ => self.build_headers(),
        };
        HttpRequest {
            method: call.method,
            url: self.build_url(call.path.as_str()),
            headers,
            body,
            timeout_seconds: self.timeout,
        }
    }

    /// The request of a login with the stored name and password.
    fn login(&self) -> (r: HttpRequest)
        requires
            has_credentials(self@),
        ensures
            r@ == login_request(self@),
    {
        let user = match &self.username {
            Some(u) => u.clone(),
            None => String::new(),
        };
        let pass = match &self.password {
            Some(p) => p.clone(),
            None => String::new(),
        };
        let credentials = AuthRequest { user, pass };
        let body = credentials.to_json().to_text();
        let mut headers: Vec<(String, String)> = Vec::new();
        headers.push(("content-type".to_owned(), "application/json".to_owned()));
        assert(pairs_view(headers@) =~= login_headers());
        HttpRequest {
            method: HttpMethod::Post,
            url: self.build_url("auth/login"),
            headers,
            body: Some(body),
            timeout_seconds: self.timeout,
        }
    }

    /// The error of a response that is no success.
    pub fn map_error_text(status: u16, body: &Result<String, String>) -> (r: RaworcError)
        ensures
            r@ == error_of(
                status,
                match *body {
                    Ok(t) => Ok(t@),
                    Err(m) => Err(m@),
                },
            ),
    {
        let text = match body {
            Ok(text) => text.as_str(),
            Err(_) => "Unknown error",
        };
        if status == 404 {
            RaworcError::not_found(text)
        } else if status == 401 {
            RaworcError::auth_error(text)
        } else {
            Self::api_error_of(status, text)
        }
    }

    fn api_error_of(status: u16, text: &str) -> (r: RaworcError)
        ensures
            r@ == api_error(status, text@),
    {
        match ApiErrorResponse::parse(text) {
            Some(response) => RaworcError::api_error(status, response.error.message),
            None => RaworcError::api_error(status, text.to_owned()),
        }
    }

    /// What a body of a successful response is read as.
    pub fn handle_json(expect: Expect, text: &str) -> (r: RaworcResult<Reply>)
        ensures
            reply_result_view(r) == decoded(expect, text@),
    {
        match Json::parse(text) {
            Err(message) => Err(RaworcError::JsonError(message)),
            Ok(doc) => match decode_reply(expect, &doc) {
                Some(reply) => Ok(reply),
                None => Err(
                    RaworcError::JsonError("response does not have the expected shape".to_owned()),
                ),
            },
        }
    }

    /// The token in the body of a login's answer.
    pub fn read_token(text: &str) -> (r: RaworcResult<String>)
        ensures
            match r {
                Ok(token) => decoded(Expect::Token, text@) == Ok::<ReplyView, ErrorView>(
                    ReplyView::Token(token@),
                ),
                Err(e) => decoded(Expect::Token, text@) == Err::<ReplyView, ErrorView>(e@),
            },
    {
        let doc = match Json::parse(text) {
            Ok(doc) => doc,
            Err(message) => {
                return Err(RaworcError::JsonError(message));
            },
        };
        let token = match doc.as_object() {
            Some(_) => doc.str_at("token"),
            None => None,
        };
        match token {
            Some(token) => Ok(token.to_owned()),
            None => Err(
                RaworcError::JsonError("response does not have the expected shape".to_owned()),
            ),
        }
    }

    /// What the outcome of a call's exchange amounts to.
    pub fn receive(expect: Expect, outcome: &HttpOutcome) -> (r: RaworcResult<Reply>)
        ensures
            reply_result_view(r) == received(expect, outcome@),
    {
        match outcome {
            HttpOutcome::Failed { timed_out, message } => {
                if *timed_out {
                    Err(RaworcError::timeout_error(message.as_str()))
                } else {
                    Err(RaworcError::HttpError(message.clone()))
                }
            },
            HttpOutcome::Response { status, body } => {
                if is_health(expect) {
                    Ok(Reply::Text(text_or_empty(body)))
                } else if !(200 <= *status && *status < 300) {
                    Err(Self::map_error_text(*status, body))
                } else if is_text(expect) {
                    Ok(Reply::Text(text_or_empty(body)))
                } else if is_ignored(expect) {
                    Ok(Reply::Done)
                } else {
                    match body {
                        Err(message) => Err(RaworcError::HttpError(message.clone())),
                        Ok(text) => Self::handle_json(expect, text.as_str()),
                    }
                }
            },
        }
    }

    /// What the outcome of a login amounts to.
    pub fn login_once(outcome: &HttpOutcome) -> (r: RaworcResult<String>)
        ensures
            match r {
                Ok(token) => login_result(outcome@) == Ok::<Seq<char>, ErrorView>(token@),
                Err(e) => login_result(outcome@) == Err::<Seq<char>, ErrorView>(e@),
            },
    {
        match outcome {
            HttpOutcome::Failed { timed_out, message } => {
                if *timed_out {
                    Err(RaworcError::timeout_error(message.as_str()))
                } else {
                    Err(RaworcError::HttpError(message.clone()))
                }
            },
            HttpOutcome::Response { status, body } => {
                if 200 <= *status && *status < 300 {
                    match body {
                        Err(message) => Err(RaworcError::HttpError(message.clone())),
                        Ok(text) => Self::read_token(text.as_str()),
                    }
                } else {
                    let text = match body {
                        Ok(text) => text.as_str(),
                        Err(_) => "",
                    };
                    proof {
                        reveal_strlit("");
                        assert(""@ =~= Seq::<char>::empty());
                    }
                    Err(RaworcError::auth_error(text))
                }
            },
        }
    }

    /// Starts a call: its request is to be sent.
    pub fn begin(&self, call: ApiCall) -> (r: Progress)
        ensures
            r@ == first_step(self@, call@),
    {
        let request = self.request(&call);
        Progress::Send(Exchange { call, phase: Phase::First }, request)
    }

    fn finish(&mut self, result: RaworcResult<Reply>) -> (r: Progress)
        ensures
            (final(self)@, r@) == ({
                let (after, end) = settle(old(self)@, reply_result_view(result));
                (after, ProgressView::Done(end))
            }),
    {
        match result {
            Ok(Reply::Token(token)) => {
                self.auth_token = Some(token);
                Progress::Done(Ok(Reply::Done))
            },
            other => Progress::Done(other),
        }
    }

    /// Takes the outcome of the request last sent for a call and says what
    /// happens next: at most one login and one more attempt after a 401.
    pub fn with_retry(&mut self, exchange: Exchange, outcome: &HttpOutcome) -> (r: Progress)
        ensures
            (final(self)@, r@) == retry_step(old(self)@, exchange@, outcome@),
    {
        match exchange.phase {
            Phase::First => {
                let result = Self::receive(exchange.call.expect, outcome);
                let reauthenticate = match &result {
                    Err(RaworcError::AuthError(_)) => self.username.is_some()
                        && self.password.is_some(),
                    _ => false,
                };
                if reauthenticate {
                    let request = self.login();
                    Progress::Send(Exchange { call: exchange.call, phase: Phase::Login }, request)
                } else {
                    self.finish(result)
                }
            },
            Phase::Login => match Self::login_once(outcome) {
                Ok(token) => {
                    self.auth_token = Some(token);
                    let request = self.request(&exchange.call);
                    Progress::Send(Exchange { call: exchange.call, phase: Phase::Replay }, request)
                },
                Err(e) => Progress::Done(Err(e)),
            },
            Phase::Replay => {
                let result = Self::receive(exchange.call.expect, outcome);
                self.finish(result)
            },
        }
    }
}

fn is_health(expect: Expect) -> (r: bool)
    ensures
        r == (expect == Expect::Health),
{
    match expect {
        Expect::Health => true,
        _ => false,
    }
}

fn is_text(expect: Expect) -> (r: bool)
    ensures
        r == (expect == Expect::Text),
{
    match expect {
        Expect::Text => true,
        _ => false,
    }
}

fn is_ignored(expect: Expect) -> (r: bool)
    ensures
        r == (expect == Expect::Ignored),
{
    match expect {
        Expect::Ignored => true,
        _ => false,
    }
}

fn text_or_empty(body: &Result<String, String>) -> (r: String)
    ensures
        r@ == body_or(
            match *body {
                Ok(t) => Ok(t@),
                Err(m) => Err(m@),
            },
            Seq::empty(),
        ),
{
    match body {
        Ok(text) => text.clone(),
        Err(_) => String::new(),
    }
}


} // verus!
