//! The dispatcher: from a tool call to the API call it stands for, and from
//! the API's answer to the tool's result.
//!
//! A tool call is first validated: an unknown name or a missing or
//! unacceptable argument ends it before anything is sent. A valid call
//! becomes an [`ApiCall`], preceded by a login where the configuration has a
//! name and a password and no token. What comes back is shown as indented
//! JSON, as the text it is, or as a fixed confirmation.

use crate::client::{
    client_for, first_step, reply_json, reply_result_view, retry_step, ApiCall, ClientView,
    Exchange, ExchangeView, HttpOutcome, HttpRequest, OutcomeView, Progress, ProgressView,
    RaworcClient, Reply, ReplyView, RequestView,
};
use crate::error::{ErrorView, RaworcError, RaworcResult};
use crate::json::{pretty, settled, Json, JsonView};
use crate::models::{ToolCallContent, ToolCallResponse};
use crate::operations::authenticate_call;
use crate::shape::{list_json, opt_view, Shape};
use crate::tools::{plan, plan_for, plan_result_view, Output, OutputView, PlanView, ToolPlan};
use crate::Config;
use vstd::prelude::*;

verus! {

/// The dispatcher, with the client it sends through.
pub struct RaworcMcpServer {
    client: RaworcClient,
    config: Config,
}

/// The JSON of a tool result that is one item of text.
pub open spec fn text_content_json(text: Seq<char>) -> JsonView {
    JsonView::Object(
        seq![
            (
                "content"@,
                JsonView::Array(
                    seq![
                        JsonView::Object(
                            seq![
                                ("type"@, JsonView::String("text"@)),
                                ("text"@, JsonView::String(text)),
                                ("image_url"@, JsonView::Null),
                            ],
                        ),
                    ],
                ),
            ),
        ],
    )
}

/// A reply as indented JSON.
pub open spec fn shown(reply: ReplyView) -> Seq<char> {
    pretty(settled(reply_json(reply)))
}

/// The text of a tool's result: the confirmation, the text that came back,
/// or the reply as indented JSON.
pub open spec fn formatted(output: OutputView, reply: ReplyView) -> Seq<char> {
    match output {
        OutputView::Confirmation(text) => text,
        OutputView::Text => match reply {
            ReplyView::Text(text) => text,
            _ => shown(reply),
        },
        OutputView::Pretty => shown(reply),
    }
}

/// The end of a tool call: the error as it is, or the result as one item of text.
pub open spec fn concluded(output: OutputView, result: Result<ReplyView, ErrorView>) -> Result<
    JsonView,
    ErrorView,
> {
    match result {
        Err(e) => Err(e),
        Ok(reply) => Ok(text_content_json(formatted(output, reply))),
    }
}

/// What a pending tool call waits for.
#[derive(Debug)]
pub enum Stage {
    /// The login that precedes the call; the call itself comes after it.
    Login(ToolPlan),
    /// The call itself.
    Tool(Output),
}

pub ghost enum StageView {
    Login(PlanView),
    Tool(OutputView),
}

impl View for Stage {
    type V = StageView;

    open spec fn view(&self) -> StageView {
        match self {
            Stage::Login(plan) => StageView::Login(plan@),
            Stage::Tool(output) => StageView::Tool(output@),
        }
    }
}

/// A tool call for which a request is under way.
#[derive(Debug)]
pub struct PendingCall {
    pub exchange: Exchange,
    pub stage: Stage,
}

pub ghost struct PendingView {
    pub exchange: ExchangeView,
    pub stage: StageView,
}

impl View for PendingCall {
    type V = PendingView;

    open spec fn view(&self) -> PendingView {
        PendingView { exchange: self.exchange@, stage: self.stage@ }
    }
}

/// What is to happen next for a tool call: a request to send, or its end.
#[derive(Debug)]
pub enum ToolStep {
    Send(PendingCall, HttpRequest),
    Done(RaworcResult<ToolCallResponse>),
}

pub ghost enum ToolStepView {
    Send(PendingView, RequestView),
    Done(Result<JsonView, ErrorView>),
}

pub open spec fn response_result_view(r: RaworcResult<ToolCallResponse>) -> Result<
    JsonView,
    ErrorView,
> {
    match r {
        Ok(response) => Ok(response.json_view()),
        Err(e) => Err(e@),
    }
}

impl View for ToolStep {
    type V = ToolStepView;

    open spec fn view(&self) -> ToolStepView {
        match self {
            ToolStep::Send(pending, request) => ToolStepView::Send(pending@, request@),
            ToolStep::Done(result) => ToolStepView::Done(response_result_view(*result)),
        }
    }
}

/// The step of a tool call whose own call is under way.
pub open spec fn tool_progress(output: OutputView, progress: ProgressView) -> ToolStepView {
    match progress {
        ProgressView::Send(exchange, request) => ToolStepView::Send(
            PendingView { exchange, stage: StageView::Tool(output) },
            request,
        ),
        ProgressView::Done(result) => ToolStepView::Done(concluded(output, result)),
    }
}

/// The step of a tool call whose login is under way: a failed login ends
/// the call, after a login that succeeded the call itself starts.
pub open spec fn login_progress(
    client: ClientView,
    plan: PlanView,
    progress: ProgressView,
) -> ToolStepView {
    match progress {
        ProgressView::Send(exchange, request) => ToolStepView::Send(
            PendingView { exchange, stage: StageView::Login(plan) },
            request,
        ),
        ProgressView::Done(Err(e)) => ToolStepView::Done(Err(e)),
        ProgressView::Done(Ok(_)) => tool_progress(plan.output, first_step(client, plan.call)),
    }
}

/// The mathematical model of the dispatcher: its client, and the name and
/// password to log in with before each call, where the configuration has
/// them and has no token.
pub ghost struct ServerView {
    pub client: ClientView,
    pub login: Option<(Seq<char>, Seq<char>)>,
}

/// The name and password with which a login precedes each call.
pub open spec fn login_of(config: Config) -> Option<(Seq<char>, Seq<char>)> {
    if config.username is Some && config.password is Some && config.auth_token is None {
        Some((config.username->Some_0@, config.password->Some_0@))
    } else {
        None
    }
}

/// The dispatcher of a configuration, or the error where its address is no URL.
pub open spec fn server_for(config: Config) -> Result<ServerView, ErrorView> {
    match client_for(config) {
        Ok(client) => Ok(ServerView { client, login: login_of(config) }),
        Err(e) => Err(e),
    }
}

/// The first step of a tool call. A call that is not valid ends at once.
pub open spec fn started(server: ServerView, name: Seq<char>, arguments: JsonView) -> ToolStepView {
    match plan_for(server.client, name, arguments) {
        Err(e) => ToolStepView::Done(Err(e)),
        Ok(plan) => match server.login {
            Some((username, password)) => login_progress(
                server.client,
                plan,
                first_step(server.client, authenticate_call(server.client, username, password)),
            ),
            None => tool_progress(plan.output, first_step(server.client, plan.call)),
        },
    }
}

/// The next step of a tool call after the outcome of the request last sent,
/// and the client afterwards.
pub open spec fn resumed(client: ClientView, pending: PendingView, outcome: OutcomeView) -> (
    ClientView,
    ToolStepView,
) {
    let (after, progress) = retry_step(client, pending.exchange, outcome);
    (
        after,
        match pending.stage {
            StageView::Login(plan) => login_progress(after, plan, progress),
            StageView::Tool(output) => tool_progress(output, progress),
        },
    )
}

/// A tool call that is not valid sends nothing: it ends with its error.
pub proof fn lemma_invalid_call_sends_nothing(
    server: ServerView,
    name: Seq<char>,
    arguments: JsonView,
)
    requires
        plan_for(server.client, name, arguments) is Err,
    ensures
        started(server, name, arguments) == ToolStepView::Done(
            Err(plan_for(server.client, name, arguments)->Err_0),
        ),
{
}

/// A tool that confirms shows its confirmation for every successful reply.
pub proof fn lemma_confirmation_is_fixed(text: Seq<char>, reply: ReplyView)
    ensures
        concluded(OutputView::Confirmation(text), Ok(reply)) == Ok::<JsonView, ErrorView>(
            text_content_json(text),
        ),
{
}

/// An error of the API reaches the tool's caller as it is.
pub proof fn lemma_errors_pass_unchanged(output: OutputView, e: ErrorView)
    ensures
        concluded(output, Err(e)) == Err::<JsonView, ErrorView>(e),
{
}

impl RaworcMcpServer {
    /// The model of the dispatcher.
    pub closed spec fn view(&self) -> ServerView {
        ServerView { client: self.client@, login: login_of(self.config) }
    }

    /// A dispatcher for a configuration.
    pub fn new(config: Config) -> (r: RaworcResult<RaworcMcpServer>)
        ensures
            match r {
                Ok(server) => server_for(config) == Ok::<ServerView, ErrorView>(server@),
                Err(e) => server_for(config) == Err::<ServerView, ErrorView>(e@),
            },
    {
        match RaworcClient::new(&config) {
            Ok(client) => Ok(RaworcMcpServer { client, config }),
            Err(e) => Err(e),
        }
    }

    /// The login that precedes a call: with the configured name and
    /// password, where the configuration has both and has no token.
    pub fn initialize(&self) -> (r: Option<ApiCall>)
        ensures
            match r {
                Some(call) => self@.login is Some && call@ == authenticate_call(
                    self@.client,
                    self@.login->Some_0.0,
                    self@.login->Some_0.1,
                ),
                None => self@.login is None,
            },
    {
        if self.config.auth_token.is_some() {
            return None;
        }
        match &self.config.username {
            Some(username) => match &self.config.password {
                Some(password) => Some(
                    self.client.authenticate(username.as_str(), password.as_str()),
                ),
                None => None,
            },
            None => None,
        }
    }

    /// The time allowed for one request, in seconds.
    pub fn timeout(&self) -> (r: u64)
        ensures
            r == self@.client.timeout,
    {
        self.client.timeout()
    }

    /// Starts the login of [`RaworcMcpServer::initialize`], where there is one.
    pub fn begin_login(&self) -> (r: Option<Progress>)
        ensures
            match r {
                Some(progress) => self@.login is Some && progress@ == first_step(
                    self@.client,
                    authenticate_call(self@.client, self@.login->Some_0.0, self@.login->Some_0.1),
                ),
                None => self@.login is None,
            },
    {
        match self.initialize() {
            Some(login) => Some(self.client.begin(login)),
            None => None,
        }
    }

    /// Takes the outcome of the request last sent for a login and says what
    /// happens next. The token of a login that succeeds becomes the bearer token.
    pub fn continue_login(&mut self, exchange: Exchange, outcome: &HttpOutcome) -> (r: Progress)
        ensures
            (final(self)@.client, r@) == retry_step(old(self)@.client, exchange@, outcome@),
            final(self)@.login == old(self)@.login,
    {
        self.client.with_retry(exchange, outcome)
    }

    /// A tool result of one item of text.
    pub fn text_content(text: String) -> (r: Vec<ToolCallContent>)
        ensures
            (ToolCallResponse { content: r }).json_view() == text_content_json(text@),
    {
        let mut content: Vec<ToolCallContent> = Vec::new();
        content.push(
            ToolCallContent { content_type: "text".to_owned(), text: Some(text), image_url: None },
        );
        assert(list_json(content@)->Array_0 =~= text_content_json(text@)->Object_0[0].1->Array_0);
        content
    }

    fn show(reply: &Reply) -> (r: String)
        ensures
            r@ == shown(reply@),
    {
        reply.to_json().to_pretty_text()
    }

    /// Ends a tool call: the error as it is, or the result as one item of text.
    pub fn conclude(output: Output, result: RaworcResult<Reply>) -> (r: RaworcResult<
        ToolCallResponse,
    >)
        ensures
            response_result_view(r) == concluded(output@, reply_result_view(result)),
    {
        let reply = match result {
            Ok(reply) => reply,
            Err(e) => {
                return Err(e);
            },
        };
        let text = match output {
            Output::Confirmation(text) => text,
            Output::Text => match reply {
                Reply::Text(text) => text,
                other => Self::show(&other),
            },
            Output::Pretty => Self::show(&reply),
        };
        Ok(ToolCallResponse { content: Self::text_content(text) })
    }

    fn tool_step(output: Output, progress: Progress) -> (r: ToolStep)
        ensures
            r@ == tool_progress(output@, progress@),
    {
        match progress {
            Progress::Send(exchange, request) => ToolStep::Send(
                PendingCall { exchange, stage: Stage::Tool(output) },
                request,
            ),
            Progress::Done(result) => ToolStep::Done(Self::conclude(output, result)),
        }
    }

    fn login_step(&self, plan: ToolPlan, progress: Progress) -> (r: ToolStep)
        ensures
            r@ == login_progress(self@.client, plan@, progress@),
    {
        match progress {
            Progress::Send(exchange, request) => ToolStep::Send(
                PendingCall { exchange, stage: Stage::Login(plan) },
                request,
            ),
            Progress::Done(Err(e)) => ToolStep::Done(Err(e)),
            Progress::Done(Ok(_)) => {
                let progress = self.client.begin(plan.call);
                Self::tool_step(plan.output, progress)
            },
        }
    }

    /// Validates the arguments of a tool call and says what it asks of the
    /// API. Nothing is sent for a call that is not valid.
    pub fn plan(&self, name: &str, arguments: &Json) -> (r: RaworcResult<ToolPlan>)
        ensures
            plan_result_view(r) == plan_for(self@.client, name@, arguments@),
    {
        plan(&self.client, name, arguments)
    }

    /// Starts a tool call: validates it, and says what is to be sent first.
    /// A call that is not valid ends here, and nothing is sent for it.
    pub fn handle_tool_call(&mut self, name: &str, arguments: &Json) -> (r: ToolStep)
        ensures
            final(self)@ == old(self)@,
            r@ == started(old(self)@, name@, arguments@),
    {
        let plan = match self.plan(name, arguments) {
            Ok(plan) => plan,
            Err(e) => {
                return ToolStep::Done(Err(e));
            },
        };
        match self.initialize() {
            Some(login) => {
                let progress = self.client.begin(login);
                self.login_step(plan, progress)
            },
            None => {
                let progress = self.client.begin(plan.call);
                Self::tool_step(plan.output, progress)
            },
        }
    }

    /// Takes the outcome of the request last sent for a tool call and says
    /// what happens next.
    pub fn handle_response(&mut self, pending: PendingCall, outcome: &HttpOutcome) -> (r: ToolStep)
        ensures
            (final(self)@.client, r@) == resumed(old(self)@.client, pending@, outcome@),
            final(self)@.login == old(self)@.login,
    {
        let progress = self.client.with_retry(pending.exchange, outcome);
        match pending.stage {
            Stage::Login(plan) => self.login_step(plan, progress),
            Stage::Tool(output) => Self::tool_step(output, progress),
        }
    }
}

} // verus!
