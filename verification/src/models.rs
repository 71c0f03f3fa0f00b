//! The entities of the API and the requests that create and change them,
//! with the JSON shape of each.

use crate::json::{found_view, member_views, number_of, Json, JsonView};
use crate::shape::{
    bool_member, decode_any, decode_bool, decode_list, decode_object, decode_opt_bool,
    decode_opt_object, decode_opt_pairs, decode_opt_shape, decode_opt_text, decode_opt_texts,
    decode_opt_time, decode_shape, decode_text, decode_texts, decode_time, decode_u64,
    encode_opt_bool, encode_opt_object, encode_opt_pairs, encode_opt_shape, encode_opt_text,
    encode_opt_texts, encode_opt_time, encode_texts, is_absent, lemma_pairs_as_read,
    lemma_texts_as_read, list_json, list_member_accepts,
    list_normal, list_to_json, object_member, opt_bool_json, opt_bool_member, opt_members_view,
    opt_object_json, opt_object_member, opt_pairs_json, opt_pairs_member, opt_pairs_view,
    opt_shape_accepts, opt_shape_json, opt_shape_normal, opt_text_json, opt_text_member,
    opt_texts_json, opt_texts_member, opt_texts_view, opt_time_member, opt_time_view, opt_view,
    shape_member_accepts, text_member, texts_json, texts_member, texts_view, time_member,
    u64_member, Shape,
};
use crate::text::text_eq;
use crate::time::Timestamp;
use vstd::prelude::*;

verus! {


/// The lifecycle state of a session.
#[derive(Debug, Clone, Copy, PartialEq, Eq)]
pub enum SessionState {
    Init,
    Running,
    Paused,
    Suspended,
    Terminated,
    Idle,
    Closed,
}

impl SessionState {
    /// The literal that stands for the value.
    pub open spec fn literal(self) -> Seq<char> {
        match self {
            SessionState::Init => "INIT"@,
            SessionState::Running => "RUNNING"@,
            SessionState::Paused => "PAUSED"@,
            SessionState::Suspended => "SUSPENDED"@,
            SessionState::Terminated => "TERMINATED"@,
            SessionState::Idle => "IDLE"@,
            SessionState::Closed => "CLOSED"@,
        }
    }

    /// The value that a literal stands for: exact match, case-sensitive.
    pub open spec fn of_literal(text: Seq<char>) -> Option<SessionState> {
        if text == "INIT"@ {
            Some(SessionState::Init)
        } else if text == "RUNNING"@ {
            Some(SessionState::Running)
        } else if text == "PAUSED"@ {
            Some(SessionState::Paused)
        } else if text == "SUSPENDED"@ {
            Some(SessionState::Suspended)
        } else if text == "TERMINATED"@ {
            Some(SessionState::Terminated)
        } else if text == "IDLE"@ {
            Some(SessionState::Idle)
        } else if text == "CLOSED"@ {
            Some(SessionState::Closed)
        } else {
            None
        }
    }

    /// A required member that is one of the literals.
    pub open spec fn member(found: Option<JsonView>) -> Option<SessionState> {
        match text_member(found) {
            Some(s) => Self::of_literal(s),
            None => None,
        }
    }

    /// A literal stands for the value whose literal it is.
    pub proof fn lemma_literal_as_read(text: Seq<char>)
        requires
            Self::of_literal(text) is Some,
        ensures
            Self::of_literal(text)->Some_0.literal() == text,
    {
    }

    pub fn as_str(&self) -> (r: &'static str)
        ensures
            r@ == self.literal(),
    {
        match self {
            SessionState::Init => "INIT",
            SessionState::Running => "RUNNING",
            SessionState::Paused => "PAUSED",
            SessionState::Suspended => "SUSPENDED",
            SessionState::Terminated => "TERMINATED",
            SessionState::Idle => "IDLE",
            SessionState::Closed => "CLOSED",
        }
    }

    pub fn from_text(text: &str) -> (r: Option<SessionState>)
        ensures
            r == Self::of_literal(text@),
    {
        if text_eq(text, "INIT") {
            Some(SessionState::Init)
        } else if text_eq(text, "RUNNING") {
            Some(SessionState::Running)
        } else if text_eq(text, "PAUSED") {
            Some(SessionState::Paused)
        } else if text_eq(text, "SUSPENDED") {
            Some(SessionState::Suspended)
        } else if text_eq(text, "TERMINATED") {
            Some(SessionState::Terminated)
        } else if text_eq(text, "IDLE") {
            Some(SessionState::Idle)
        } else if text_eq(text, "CLOSED") {
            Some(SessionState::Closed)
        } else {
            None
        }
    }

    pub fn decode(found: Option<&Json>) -> (r: Option<SessionState>)
        ensures
            r == Self::member(found_view(found)),
    {
        match found {
            Some(v) => match v.as_str() {
                Some(s) => Self::from_text(s),
                None => None,
            },
            None => None,
        }
    }
}

/// Who wrote a message.
#[derive(Debug, Clone, Copy, PartialEq, Eq)]
pub enum MessageRole {
    User,
    Assistant,
    System,
}

impl MessageRole {
    /// The literal that stands for the value.
    pub open spec fn literal(self) -> Seq<char> {
        match self {
            MessageRole::User => "user"@,
            MessageRole::Assistant => "assistant"@,
            MessageRole::System => "system"@,
        }
    }

    /// The value that a literal stands for: exact match, case-sensitive.
    pub open spec fn of_literal(text: Seq<char>) -> Option<MessageRole> {
        if text == "user"@ {
            Some(MessageRole::User)
        } else if text == "assistant"@ {
            Some(MessageRole::Assistant)
        } else if text == "system"@ {
            Some(MessageRole::System)
        } else {
            None
        }
    }

    /// A required member that is one of the literals.
    pub open spec fn member(found: Option<JsonView>) -> Option<MessageRole> {
        match text_member(found) {
            Some(s) => Self::of_literal(s),
            None => None,
        }
    }

    /// A literal stands for the value whose literal it is.
    pub proof fn lemma_literal_as_read(text: Seq<char>)
        requires
            Self::of_literal(text) is Some,
        ensures
            Self::of_literal(text)->Some_0.literal() == text,
    {
    }

    pub fn as_str(&self) -> (r: &'static str)
        ensures
            r@ == self.literal(),
    {
        match self {
            MessageRole::User => "user",
            MessageRole::Assistant => "assistant",
            MessageRole::System => "system",
        }
    }

    pub fn from_text(text: &str) -> (r: Option<MessageRole>)
        ensures
            r == Self::of_literal(text@),
    {
        if text_eq(text, "user") {
            Some(MessageRole::User)
        } else if text_eq(text, "assistant") {
            Some(MessageRole::Assistant)
        } else if text_eq(text, "system") {
            Some(MessageRole::System)
        } else {
            None
        }
    }

    pub fn decode(found: Option<&Json>) -> (r: Option<MessageRole>)
        ensures
            r == Self::member(found_view(found)),
    {
        match found {
            Some(v) => match v.as_str() {
                Some(s) => Self::from_text(s),
                None => None,
            },
            None => None,
        }
    }
}

/// The status of an agent.
#[derive(Debug, Clone, Copy, PartialEq, Eq)]
pub enum AgentStatus {
    Stopped,
    Running,
    Error,
    Active,
    Inactive,
}

impl AgentStatus {
    /// The literal that stands for the value.
    pub open spec fn literal(self) -> Seq<char> {
        match self {
            AgentStatus::Stopped => "stopped"@,
            AgentStatus::Running => "running"@,
            AgentStatus::Error => "error"@,
            AgentStatus::Active => "active"@,
            AgentStatus::Inactive => "inactive"@,
        }
    }

    /// The value that a literal stands for: exact match, case-sensitive.
    pub open spec fn of_literal(text: Seq<char>) -> Option<AgentStatus> {
        if text == "stopped"@ {
            Some(AgentStatus::Stopped)
        } else if text == "running"@ {
            Some(AgentStatus::Running)
        } else if text == "error"@ {
            Some(AgentStatus::Error)
        } else if text == "active"@ {
            Some(AgentStatus::Active)
        } else if text == "inactive"@ {
            Some(AgentStatus::Inactive)
        } else {
            None
        }
    }

    /// A required member that is one of the literals.
    pub open spec fn member(found: Option<JsonView>) -> Option<AgentStatus> {
        match text_member(found) {
            Some(s) => Self::of_literal(s),
            None => None,
        }
    }

    /// A literal stands for the value whose literal it is.
    pub proof fn lemma_literal_as_read(text: Seq<char>)
        requires
            Self::of_literal(text) is Some,
        ensures
            Self::of_literal(text)->Some_0.literal() == text,
    {
    }

    pub fn as_str(&self) -> (r: &'static str)
        ensures
            r@ == self.literal(),
    {
        match self {
            AgentStatus::Stopped => "stopped",
            AgentStatus::Running => "running",
            AgentStatus::Error => "error",
            AgentStatus::Active => "active",
            AgentStatus::Inactive => "inactive",
        }
    }

    pub fn from_text(text: &str) -> (r: Option<AgentStatus>)
        ensures
            r == Self::of_literal(text@),
    {
        if text_eq(text, "stopped") {
            Some(AgentStatus::Stopped)
        } else if text_eq(text, "running") {
            Some(AgentStatus::Running)
        } else if text_eq(text, "error") {
            Some(AgentStatus::Error)
        } else if text_eq(text, "active") {
            Some(AgentStatus::Active)
        } else if text_eq(text, "inactive") {
            Some(AgentStatus::Inactive)
        } else {
            None
        }
    }

    pub fn decode(found: Option<&Json>) -> (r: Option<AgentStatus>)
        ensures
            r == Self::member(found_view(found)),
    {
        match found {
            Some(v) => match v.as_str() {
                Some(s) => Self::from_text(s),
                None => None,
            },
            None => None,
        }
    }
}

/// The status of a build.
#[derive(Debug, Clone, Copy, PartialEq, Eq)]
pub enum BuildStatus {
    Pending,
    Building,
    Completed,
    Failed,
}

impl BuildStatus {
    /// The literal that stands for the value.
    pub open spec fn literal(self) -> Seq<char> {
        match self {
            BuildStatus::Pending => "pending"@,
            BuildStatus::Building => "building"@,
            BuildStatus::Completed => "completed"@,
            BuildStatus::Failed => "failed"@,
        }
    }

    /// The value that a literal stands for: exact match, case-sensitive.
    pub open spec fn of_literal(text: Seq<char>) -> Option<BuildStatus> {
        if text == "pending"@ {
            Some(BuildStatus::Pending)
        } else if text == "building"@ {
            Some(BuildStatus::Building)
        } else if text == "completed"@ {
            Some(BuildStatus::Completed)
        } else if text == "failed"@ {
            Some(BuildStatus::Failed)
        } else {
            None
        }
    }

    /// A required member that is one of the literals.
    pub open spec fn member(found: Option<JsonView>) -> Option<BuildStatus> {
        match text_member(found) {
            Some(s) => Self::of_literal(s),
            None => None,
        }
    }

    /// A literal stands for the value whose literal it is.
    pub proof fn lemma_literal_as_read(text: Seq<char>)
        requires
            Self::of_literal(text) is Some,
        ensures
            Self::of_literal(text)->Some_0.literal() == text,
    {
    }

    pub fn as_str(&self) -> (r: &'static str)
        ensures
            r@ == self.literal(),
    {
        match self {
            BuildStatus::Pending => "pending",
            BuildStatus::Building => "building",
            BuildStatus::Completed => "completed",
            BuildStatus::Failed => "failed",
        }
    }

    pub fn from_text(text: &str) -> (r: Option<BuildStatus>)
        ensures
            r == Self::of_literal(text@),
    {
        if text_eq(text, "pending") {
            Some(BuildStatus::Pending)
        } else if text_eq(text, "building") {
            Some(BuildStatus::Building)
        } else if text_eq(text, "completed") {
            Some(BuildStatus::Completed)
        } else if text_eq(text, "failed") {
            Some(BuildStatus::Failed)
        } else {
            None
        }
    }

    pub fn decode(found: Option<&Json>) -> (r: Option<BuildStatus>)
        ensures
            r == Self::member(found_view(found)),
    {
        match found {
            Some(v) => match v.as_str() {
                Some(s) => Self::from_text(s),
                None => None,
            },
            None => None,
        }
    }
}

/// A session.
#[derive(Debug)]
pub struct Session {
    pub id: String,
    pub space: String,
    pub created_by: String,
    pub state: SessionState,
    pub container_id: Option<String>,
    pub persistent_volume_id: Option<String>,
    pub parent_session_id: Option<String>,
    pub created_at: Timestamp,
    pub started_at: Option<Timestamp>,
    pub last_activity_at: Option<Timestamp>,
    pub terminated_at: Option<Timestamp>,
    pub termination_reason: Option<String>,
    pub metadata: Vec<(String, Json)>,
}

impl Shape for Session {
    open spec fn json_view(&self) -> JsonView {
        JsonView::Object(
            seq![
                ("id"@, JsonView::String(self.id@)),
                ("space"@, JsonView::String(self.space@)),
                ("created_by"@, JsonView::String(self.created_by@)),
                ("state"@, JsonView::String(self.state.literal())),
                ("container_id"@, opt_text_json(opt_view(self.container_id))),
                ("persistent_volume_id"@, opt_text_json(opt_view(self.persistent_volume_id))),
                ("parent_session_id"@, opt_text_json(opt_view(self.parent_session_id))),
                ("created_at"@, JsonView::String(self.created_at@)),
                ("started_at"@, opt_text_json(opt_time_view(self.started_at))),
                ("last_activity_at"@, opt_text_json(opt_time_view(self.last_activity_at))),
                ("terminated_at"@, opt_text_json(opt_time_view(self.terminated_at))),
                ("termination_reason"@, opt_text_json(opt_view(self.termination_reason))),
                ("metadata"@, JsonView::Object(member_views(self.metadata@))),
            ],
        )
    }

    open spec fn accepts(doc: JsonView) -> bool {
        &&& doc is Object
        &&& text_member(doc.get("id"@)) is Some
        &&& text_member(doc.get("space"@)) is Some
        &&& text_member(doc.get("created_by"@)) is Some
        &&& SessionState::member(doc.get("state"@)) is Some
        &&& opt_text_member(doc.get("container_id"@)) is Some
        &&& opt_text_member(doc.get("persistent_volume_id"@)) is Some
        &&& opt_text_member(doc.get("parent_session_id"@)) is Some
        &&& time_member(doc.get("created_at"@)) is Some
        &&& opt_time_member(doc.get("started_at"@)) is Some
        &&& opt_time_member(doc.get("last_activity_at"@)) is Some
        &&& opt_time_member(doc.get("terminated_at"@)) is Some
        &&& opt_text_member(doc.get("termination_reason"@)) is Some
        &&& object_member(doc.get("metadata"@)) is Some
    }

    open spec fn normal(doc: JsonView) -> JsonView {
        JsonView::Object(
            seq![
                ("id"@, JsonView::String(text_member(doc.get("id"@))->Some_0)),
                ("space"@, JsonView::String(text_member(doc.get("space"@))->Some_0)),
                ("created_by"@, JsonView::String(text_member(doc.get("created_by"@))->Some_0)),
                (
                    "state"@,
                    JsonView::String(SessionState::member(doc.get("state"@))->Some_0.literal()),
                ),
                ("container_id"@, opt_text_json(opt_text_member(doc.get("container_id"@))->Some_0)),
                (
                    "persistent_volume_id"@,
                    opt_text_json(opt_text_member(doc.get("persistent_volume_id"@))->Some_0),
                ),
                (
                    "parent_session_id"@,
                    opt_text_json(opt_text_member(doc.get("parent_session_id"@))->Some_0),
                ),
                ("created_at"@, JsonView::String(time_member(doc.get("created_at"@))->Some_0)),
                ("started_at"@, opt_text_json(opt_time_member(doc.get("started_at"@))->Some_0)),
                (
                    "last_activity_at"@,
                    opt_text_json(opt_time_member(doc.get("last_activity_at"@))->Some_0),
                ),
                (
                    "terminated_at"@,
                    opt_text_json(opt_time_member(doc.get("terminated_at"@))->Some_0),
                ),
                (
                    "termination_reason"@,
                    opt_text_json(opt_text_member(doc.get("termination_reason"@))->Some_0),
                ),
                ("metadata"@, JsonView::Object(object_member(doc.get("metadata"@))->Some_0)),
            ],
        )
    }

    open spec fn keys() -> Seq<Seq<char>> {
        seq![
            "id"@, "space"@, "created_by"@, "state"@, "container_id"@, "persistent_volume_id"@,
            "parent_session_id"@, "created_at"@, "started_at"@, "last_activity_at"@,
            "terminated_at"@, "termination_reason"@, "metadata"@,
        ]
    }

    open spec fn verbatim(i: int) -> bool {
        i == 0 || i == 1 || i == 2 || i == 3 || i == 4 || i == 5 || i == 6 || i == 11 || i == 12
    }

    proof fn lemma_normal_keeps(doc: JsonView, i: int) {
        SessionState::lemma_literal_as_read(text_member(doc.get("state"@))->Some_0);
    }

    fn to_json(&self) -> (r: Json) {
        let mut members: Vec<(String, Json)> = Vec::new();
        members.push(("id".to_owned(), Json::string(self.id.as_str())));
        members.push(("space".to_owned(), Json::string(self.space.as_str())));
        members.push(("created_by".to_owned(), Json::string(self.created_by.as_str())));
        members.push(("state".to_owned(), Json::string(self.state.as_str())));
        members.push(("container_id".to_owned(), encode_opt_text(&self.container_id)));
        members.push(
            ("persistent_volume_id".to_owned(), encode_opt_text(&self.persistent_volume_id)),
        );
        members.push(("parent_session_id".to_owned(), encode_opt_text(&self.parent_session_id)));
        members.push(("created_at".to_owned(), Json::string(self.created_at.as_str())));
        members.push(("started_at".to_owned(), encode_opt_time(&self.started_at)));
        members.push(("last_activity_at".to_owned(), encode_opt_time(&self.last_activity_at)));
        members.push(("terminated_at".to_owned(), encode_opt_time(&self.terminated_at)));
        members.push(("termination_reason".to_owned(), encode_opt_text(&self.termination_reason)));
        members.push(
            ("metadata".to_owned(), Json::Object(Json::duplicate_members(&self.metadata))),
        );
        assert(member_views(members@) =~= self.json_view()->Object_0);
        Json::Object(members)
    }

    fn from_json(doc: &Json) -> (r: Option<Self>) {
        if doc.as_object().is_none() {
            return None;
        }
        let id = decode_text(doc.get("id"))?;
        let space = decode_text(doc.get("space"))?;
        let created_by = decode_text(doc.get("created_by"))?;
        let state = SessionState::decode(doc.get("state"))?;
        let container_id = decode_opt_text(doc.get("container_id"))?;
        let persistent_volume_id = decode_opt_text(doc.get("persistent_volume_id"))?;
        let parent_session_id = decode_opt_text(doc.get("parent_session_id"))?;
        let created_at = decode_time(doc.get("created_at"))?;
        let started_at = decode_opt_time(doc.get("started_at"))?;
        let last_activity_at = decode_opt_time(doc.get("last_activity_at"))?;
        let terminated_at = decode_opt_time(doc.get("terminated_at"))?;
        let termination_reason = decode_opt_text(doc.get("termination_reason"))?;
        let metadata = decode_object(doc.get("metadata"))?;
        let value = Session {
            id,
            space,
            created_by,
            state,
            container_id,
            persistent_volume_id,
            parent_session_id,
            created_at,
            started_at,
            last_activity_at,
            terminated_at,
            termination_reason,
            metadata,
        };
        assert(value.json_view()->Object_0 =~= Self::normal(doc@)->Object_0);
        Some(value)
    }
}

/// What creates a session.
#[derive(Debug)]
pub struct CreateSessionRequest {
    pub space: Option<String>,
    pub metadata: Option<Vec<(String, Json)>>,
}

impl Shape for CreateSessionRequest {
    open spec fn json_view(&self) -> JsonView {
        JsonView::Object(
            seq![
                ("space"@, opt_text_json(opt_view(self.space))),
                ("metadata"@, opt_object_json(opt_members_view(self.metadata))),
            ],
        )
    }

    open spec fn accepts(doc: JsonView) -> bool {
        &&& doc is Object
        &&& opt_text_member(doc.get("space"@)) is Some
        &&& opt_object_member(doc.get("metadata"@)) is Some
    }

    open spec fn normal(doc: JsonView) -> JsonView {
        JsonView::Object(
            seq![
                ("space"@, opt_text_json(opt_text_member(doc.get("space"@))->Some_0)),
                ("metadata"@, opt_object_json(opt_object_member(doc.get("metadata"@))->Some_0)),
            ],
        )
    }

    open spec fn keys() -> Seq<Seq<char>> {
        seq!["space"@, "metadata"@]
    }

    open spec fn verbatim(i: int) -> bool {
        0 <= i < 2
    }

    proof fn lemma_normal_keeps(doc: JsonView, i: int) {
    }

    fn to_json(&self) -> (r: Json) {
        let mut members: Vec<(String, Json)> = Vec::new();
        members.push(("space".to_owned(), encode_opt_text(&self.space)));
        members.push(("metadata".to_owned(), encode_opt_object(&self.metadata)));
        assert(member_views(members@) =~= self.json_view()->Object_0);
        Json::Object(members)
    }

    fn from_json(doc: &Json) -> (r: Option<Self>) {
        if doc.as_object().is_none() {
            return None;
        }
        let space = decode_opt_text(doc.get("space"))?;
        let metadata = decode_opt_object(doc.get("metadata"))?;
        let value = CreateSessionRequest { space, metadata };
        assert(value.json_view()->Object_0 =~= Self::normal(doc@)->Object_0);
        Some(value)
    }
}

/// What changes a session.
#[derive(Debug)]
pub struct UpdateSessionRequest {
    pub space: Option<String>,
    pub metadata: Option<Vec<(String, Json)>>,
}

impl Shape for UpdateSessionRequest {
    open spec fn json_view(&self) -> JsonView {
        JsonView::Object(
            seq![
                ("space"@, opt_text_json(opt_view(self.space))),
                ("metadata"@, opt_object_json(opt_members_view(self.metadata))),
            ],
        )
    }

    open spec fn accepts(doc: JsonView) -> bool {
        &&& doc is Object
        &&& opt_text_member(doc.get("space"@)) is Some
        &&& opt_object_member(doc.get("metadata"@)) is Some
    }

    open spec fn normal(doc: JsonView) -> JsonView {
        JsonView::Object(
            seq![
                ("space"@, opt_text_json(opt_text_member(doc.get("space"@))->Some_0)),
                ("metadata"@, opt_object_json(opt_object_member(doc.get("metadata"@))->Some_0)),
            ],
        )
    }

    open spec fn keys() -> Seq<Seq<char>> {
        seq!["space"@, "metadata"@]
    }

    open spec fn verbatim(i: int) -> bool {
        0 <= i < 2
    }

    proof fn lemma_normal_keeps(doc: JsonView, i: int) {
    }

    fn to_json(&self) -> (r: Json) {
        let mut members: Vec<(String, Json)> = Vec::new();
        members.push(("space".to_owned(), encode_opt_text(&self.space)));
        members.push(("metadata".to_owned(), encode_opt_object(&self.metadata)));
        assert(member_views(members@) =~= self.json_view()->Object_0);
        Json::Object(members)
    }

    fn from_json(doc: &Json) -> (r: Option<Self>) {
        if doc.as_object().is_none() {
            return None;
        }
        let space = decode_opt_text(doc.get("space"))?;
        let metadata = decode_opt_object(doc.get("metadata"))?;
        let value = UpdateSessionRequest { space, metadata };
        assert(value.json_view()->Object_0 =~= Self::normal(doc@)->Object_0);
        Some(value)
    }
}

/// What sets the state of a session.
#[derive(Debug)]
pub struct UpdateSessionStateRequest {
    pub state: SessionState,
}

impl Shape for UpdateSessionStateRequest {
    open spec fn json_view(&self) -> JsonView {
        JsonView::Object(
            seq![
                ("state"@, JsonView::String(self.state.literal())),
            ],
        )
    }

    open spec fn accepts(doc: JsonView) -> bool {
        &&& doc is Object
        &&& SessionState::member(doc.get("state"@)) is Some
    }

    open spec fn normal(doc: JsonView) -> JsonView {
        JsonView::Object(
            seq![
                (
                    "state"@,
                    JsonView::String(SessionState::member(doc.get("state"@))->Some_0.literal()),
                ),
            ],
        )
    }

    open spec fn keys() -> Seq<Seq<char>> {
        seq!["state"@]
    }

    open spec fn verbatim(i: int) -> bool {
        0 <= i < 1
    }

    proof fn lemma_normal_keeps(doc: JsonView, i: int) {
        SessionState::lemma_literal_as_read(text_member(doc.get("state"@))->Some_0);
    }

    fn to_json(&self) -> (r: Json) {
        let mut members: Vec<(String, Json)> = Vec::new();
        members.push(("state".to_owned(), Json::string(self.state.as_str())));
        assert(member_views(members@) =~= self.json_view()->Object_0);
        Json::Object(members)
    }

    fn from_json(doc: &Json) -> (r: Option<Self>) {
        if doc.as_object().is_none() {
            return None;
        }
        let state = SessionState::decode(doc.get("state"))?;
        let value = UpdateSessionStateRequest { state };
        assert(value.json_view()->Object_0 =~= Self::normal(doc@)->Object_0);
        Some(value)
    }
}

/// A message of a session.
#[derive(Debug)]
pub struct Message {
    pub id: String,
    pub session_id: String,
    pub role: MessageRole,
    pub content: String,
    pub created_at: Timestamp,
}

impl Shape for Message {
    open spec fn json_view(&self) -> JsonView {
        JsonView::Object(
            seq![
                ("id"@, JsonView::String(self.id@)),
                ("session_id"@, JsonView::String(self.session_id@)),
                ("role"@, JsonView::String(self.role.literal())),
                ("content"@, JsonView::String(self.content@)),
                ("created_at"@, JsonView::String(self.created_at@)),
            ],
        )
    }

    open spec fn accepts(doc: JsonView) -> bool {
        &&& doc is Object
        &&& text_member(doc.get("id"@)) is Some
        &&& text_member(doc.get("session_id"@)) is Some
        &&& MessageRole::member(doc.get("role"@)) is Some
        &&& text_member(doc.get("content"@)) is Some
        &&& time_member(doc.get("created_at"@)) is Some
    }

    open spec fn normal(doc: JsonView) -> JsonView {
        JsonView::Object(
            seq![
                ("id"@, JsonView::String(text_member(doc.get("id"@))->Some_0)),
                ("session_id"@, JsonView::String(text_member(doc.get("session_id"@))->Some_0)),
                (
                    "role"@,
                    JsonView::String(MessageRole::member(doc.get("role"@))->Some_0.literal()),
                ),
                ("content"@, JsonView::String(text_member(doc.get("content"@))->Some_0)),
                ("created_at"@, JsonView::String(time_member(doc.get("created_at"@))->Some_0)),
            ],
        )
    }

    open spec fn keys() -> Seq<Seq<char>> {
        seq!["id"@, "session_id"@, "role"@, "content"@, "created_at"@]
    }

    open spec fn verbatim(i: int) -> bool {
        i == 0 || i == 1 || i == 2 || i == 3
    }

    proof fn lemma_normal_keeps(doc: JsonView, i: int) {
        MessageRole::lemma_literal_as_read(text_member(doc.get("role"@))->Some_0);
    }

    fn to_json(&self) -> (r: Json) {
        let mut members: Vec<(String, Json)> = Vec::new();
        members.push(("id".to_owned(), Json::string(self.id.as_str())));
        members.push(("session_id".to_owned(), Json::string(self.session_id.as_str())));
        members.push(("role".to_owned(), Json::string(self.role.as_str())));
        members.push(("content".to_owned(), Json::string(self.content.as_str())));
        members.push(("created_at".to_owned(), Json::string(self.created_at.as_str())));
        assert(member_views(members@) =~= self.json_view()->Object_0);
        Json::Object(members)
    }

    fn from_json(doc: &Json) -> (r: Option<Self>) {
        if doc.as_object().is_none() {
            return None;
        }
        let id = decode_text(doc.get("id"))?;
        let session_id = decode_text(doc.get("session_id"))?;
        let role = MessageRole::decode(doc.get("role"))?;
        let content = decode_text(doc.get("content"))?;
        let created_at = decode_time(doc.get("created_at"))?;
        let value = Message { id, session_id, role, content, created_at };
        assert(value.json_view()->Object_0 =~= Self::normal(doc@)->Object_0);
        Some(value)
    }
}

/// What sends a message.
#[derive(Debug)]
pub struct CreateMessageRequest {
    pub content: String,
}

impl Shape for CreateMessageRequest {
    open spec fn json_view(&self) -> JsonView {
        JsonView::Object(
            seq![
                ("content"@, JsonView::String(self.content@)),
            ],
        )
    }

    open spec fn accepts(doc: JsonView) -> bool {
        &&& doc is Object
        &&& text_member(doc.get("content"@)) is Some
    }

    open spec fn normal(doc: JsonView) -> JsonView {
        JsonView::Object(
            seq![
                ("content"@, JsonView::String(text_member(doc.get("content"@))->Some_0)),
            ],
        )
    }

    open spec fn keys() -> Seq<Seq<char>> {
        seq!["content"@]
    }

    open spec fn verbatim(i: int) -> bool {
        0 <= i < 1
    }

    proof fn lemma_normal_keeps(doc: JsonView, i: int) {
    }

    fn to_json(&self) -> (r: Json) {
        let mut members: Vec<(String, Json)> = Vec::new();
        members.push(("content".to_owned(), Json::string(self.content.as_str())));
        assert(member_views(members@) =~= self.json_view()->Object_0);
        Json::Object(members)
    }

    fn from_json(doc: &Json) -> (r: Option<Self>) {
        if doc.as_object().is_none() {
            return None;
        }
        let content = decode_text(doc.get("content"))?;
        let value = CreateMessageRequest { content };
        assert(value.json_view()->Object_0 =~= Self::normal(doc@)->Object_0);
        Some(value)
    }
}

/// How many messages a session holds.
#[derive(Debug)]
pub struct MessageCount {
    pub count: u64,
}

impl Shape for MessageCount {
    open spec fn json_view(&self) -> JsonView {
        JsonView::Object(
            seq![
                ("count"@, JsonView::Number(number_of(self.count))),
            ],
        )
    }

    open spec fn accepts(doc: JsonView) -> bool {
        &&& doc is Object
        &&& u64_member(doc.get("count"@)) is Some
    }

    open spec fn normal(doc: JsonView) -> JsonView {
        JsonView::Object(
            seq![
                ("count"@, JsonView::Number(number_of(u64_member(doc.get("count"@))->Some_0))),
            ],
        )
    }

    open spec fn keys() -> Seq<Seq<char>> {
        seq!["count"@]
    }

    open spec fn verbatim(i: int) -> bool {
        false
    }

    proof fn lemma_normal_keeps(doc: JsonView, i: int) {
    }

    fn to_json(&self) -> (r: Json) {
        let mut members: Vec<(String, Json)> = Vec::new();
        members.push(("count".to_owned(), Json::unsigned(self.count)));
        assert(member_views(members@) =~= self.json_view()->Object_0);
        Json::Object(members)
    }

    fn from_json(doc: &Json) -> (r: Option<Self>) {
        if doc.as_object().is_none() {
            return None;
        }
        let count = decode_u64(doc.get("count"))?;
        let value = MessageCount { count };
        assert(value.json_view()->Object_0 =~= Self::normal(doc@)->Object_0);
        Some(value)
    }
}

/// A space.
#[derive(Debug)]
pub struct Space {
    pub name: String,
    pub description: Option<String>,
    pub created_at: Timestamp,
    pub updated_at: Timestamp,
}

impl Shape for Space {
    open spec fn json_view(&self) -> JsonView {
        JsonView::Object(
            seq![
                ("name"@, JsonView::String(self.name@)),
                ("description"@, opt_text_json(opt_view(self.description))),
                ("created_at"@, JsonView::String(self.created_at@)),
                ("updated_at"@, JsonView::String(self.updated_at@)),
            ],
        )
    }

    open spec fn accepts(doc: JsonView) -> bool {
        &&& doc is Object
        &&& text_member(doc.get("name"@)) is Some
        &&& opt_text_member(doc.get("description"@)) is Some
        &&& time_member(doc.get("created_at"@)) is Some
        &&& time_member(doc.get("updated_at"@)) is Some
    }

    open spec fn normal(doc: JsonView) -> JsonView {
        JsonView::Object(
            seq![
                ("name"@, JsonView::String(text_member(doc.get("name"@))->Some_0)),
                ("description"@, opt_text_json(opt_text_member(doc.get("description"@))->Some_0)),
                ("created_at"@, JsonView::String(time_member(doc.get("created_at"@))->Some_0)),
                ("updated_at"@, JsonView::String(time_member(doc.get("updated_at"@))->Some_0)),
            ],
        )
    }

    open spec fn keys() -> Seq<Seq<char>> {
        seq!["name"@, "description"@, "created_at"@, "updated_at"@]
    }

    open spec fn verbatim(i: int) -> bool {
        i == 0 || i == 1
    }

    proof fn lemma_normal_keeps(doc: JsonView, i: int) {
    }

    fn to_json(&self) -> (r: Json) {
        let mut members: Vec<(String, Json)> = Vec::new();
        members.push(("name".to_owned(), Json::string(self.name.as_str())));
        members.push(("description".to_owned(), encode_opt_text(&self.description)));
        members.push(("created_at".to_owned(), Json::string(self.created_at.as_str())));
        members.push(("updated_at".to_owned(), Json::string(self.updated_at.as_str())));
        assert(member_views(members@) =~= self.json_view()->Object_0);
        Json::Object(members)
    }

    fn from_json(doc: &Json) -> (r: Option<Self>) {
        if doc.as_object().is_none() {
            return None;
        }
        let name = decode_text(doc.get("name"))?;
        let description = decode_opt_text(doc.get("description"))?;
        let created_at = decode_time(doc.get("created_at"))?;
        let updated_at = decode_time(doc.get("updated_at"))?;
        let value = Space { name, description, created_at, updated_at };
        assert(value.json_view()->Object_0 =~= Self::normal(doc@)->Object_0);
        Some(value)
    }
}

/// What creates a space.
#[derive(Debug)]
pub struct CreateSpaceRequest {
    pub name: String,
    pub description: Option<String>,
    pub settings: Option<Vec<(String, Json)>>,
}

impl Shape for CreateSpaceRequest {
    open spec fn json_view(&self) -> JsonView {
        JsonView::Object(
            seq![
                ("name"@, JsonView::String(self.name@)),
                ("description"@, opt_text_json(opt_view(self.description))),
                ("settings"@, opt_object_json(opt_members_view(self.settings))),
            ],
        )
    }

    open spec fn accepts(doc: JsonView) -> bool {
        &&& doc is Object
        &&& text_member(doc.get("name"@)) is Some
        &&& opt_text_member(doc.get("description"@)) is Some
        &&& opt_object_member(doc.get("settings"@)) is Some
    }

    open spec fn normal(doc: JsonView) -> JsonView {
        JsonView::Object(
            seq![
                ("name"@, JsonView::String(text_member(doc.get("name"@))->Some_0)),
                ("description"@, opt_text_json(opt_text_member(doc.get("description"@))->Some_0)),
                ("settings"@, opt_object_json(opt_object_member(doc.get("settings"@))->Some_0)),
            ],
        )
    }

    open spec fn keys() -> Seq<Seq<char>> {
        seq!["name"@, "description"@, "settings"@]
    }

    open spec fn verbatim(i: int) -> bool {
        0 <= i < 3
    }

    proof fn lemma_normal_keeps(doc: JsonView, i: int) {
    }

    fn to_json(&self) -> (r: Json) {
        let mut members: Vec<(String, Json)> = Vec::new();
        members.push(("name".to_owned(), Json::string(self.name.as_str())));
        members.push(("description".to_owned(), encode_opt_text(&self.description)));
        members.push(("settings".to_owned(), encode_opt_object(&self.settings)));
        assert(member_views(members@) =~= self.json_view()->Object_0);
        Json::Object(members)
    }

    fn from_json(doc: &Json) -> (r: Option<Self>) {
        if doc.as_object().is_none() {
            return None;
        }
        let name = decode_text(doc.get("name"))?;
        let description = decode_opt_text(doc.get("description"))?;
        let settings = decode_opt_object(doc.get("settings"))?;
        let value = CreateSpaceRequest { name, description, settings };
        assert(value.json_view()->Object_0 =~= Self::normal(doc@)->Object_0);
        Some(value)
    }
}

/// What changes a space.
#[derive(Debug)]
pub struct UpdateSpaceRequest {
    pub description: Option<String>,
    pub settings: Option<Vec<(String, Json)>>,
}

impl Shape for UpdateSpaceRequest {
    open spec fn json_view(&self) -> JsonView {
        JsonView::Object(
            seq![
                ("description"@, opt_text_json(opt_view(self.description))),
                ("settings"@, opt_object_json(opt_members_view(self.settings))),
            ],
        )
    }

    open spec fn accepts(doc: JsonView) -> bool {
        &&& doc is Object
        &&& opt_text_member(doc.get("description"@)) is Some
        &&& opt_object_member(doc.get("settings"@)) is Some
    }

    open spec fn normal(doc: JsonView) -> JsonView {
        JsonView::Object(
            seq![
                ("description"@, opt_text_json(opt_text_member(doc.get("description"@))->Some_0)),
                ("settings"@, opt_object_json(opt_object_member(doc.get("settings"@))->Some_0)),
            ],
        )
    }

    open spec fn keys() -> Seq<Seq<char>> {
        seq!["description"@, "settings"@]
    }

    open spec fn verbatim(i: int) -> bool {
        0 <= i < 2
    }

    proof fn lemma_normal_keeps(doc: JsonView, i: int) {
    }

    fn to_json(&self) -> (r: Json) {
        let mut members: Vec<(String, Json)> = Vec::new();
        members.push(("description".to_owned(), encode_opt_text(&self.description)));
        members.push(("settings".to_owned(), encode_opt_object(&self.settings)));
        assert(member_views(members@) =~= self.json_view()->Object_0);
        Json::Object(members)
    }

    fn from_json(doc: &Json) -> (r: Option<Self>) {
        if doc.as_object().is_none() {
            return None;
        }
        let description = decode_opt_text(doc.get("description"))?;
        let settings = decode_opt_object(doc.get("settings"))?;
        let value = UpdateSpaceRequest { description, settings };
        assert(value.json_view()->Object_0 =~= Self::normal(doc@)->Object_0);
        Some(value)
    }
}

/// The resources an agent asks for.
#[derive(Debug)]
pub struct AgentResources {
    pub cpu: Option<String>,
    pub memory: Option<String>,
    pub gpu: Option<String>,
}

impl Shape for AgentResources {
    open spec fn json_view(&self) -> JsonView {
        JsonView::Object(
            seq![
                ("cpu"@, opt_text_json(opt_view(self.cpu))),
                ("memory"@, opt_text_json(opt_view(self.memory))),
                ("gpu"@, opt_text_json(opt_view(self.gpu))),
            ],
        )
    }

    open spec fn accepts(doc: JsonView) -> bool {
        &&& doc is Object
        &&& opt_text_member(doc.get("cpu"@)) is Some
        &&& opt_text_member(doc.get("memory"@)) is Some
        &&& opt_text_member(doc.get("gpu"@)) is Some
    }

    open spec fn normal(doc: JsonView) -> JsonView {
        JsonView::Object(
            seq![
                ("cpu"@, opt_text_json(opt_text_member(doc.get("cpu"@))->Some_0)),
                ("memory"@, opt_text_json(opt_text_member(doc.get("memory"@))->Some_0)),
                ("gpu"@, opt_text_json(opt_text_member(doc.get("gpu"@))->Some_0)),
            ],
        )
    }

    open spec fn keys() -> Seq<Seq<char>> {
        seq!["cpu"@, "memory"@, "gpu"@]
    }

    open spec fn verbatim(i: int) -> bool {
        0 <= i < 3
    }

    proof fn lemma_normal_keeps(doc: JsonView, i: int) {
    }

    fn to_json(&self) -> (r: Json) {
        let mut members: Vec<(String, Json)> = Vec::new();
        members.push(("cpu".to_owned(), encode_opt_text(&self.cpu)));
        members.push(("memory".to_owned(), encode_opt_text(&self.memory)));
        members.push(("gpu".to_owned(), encode_opt_text(&self.gpu)));
        assert(member_views(members@) =~= self.json_view()->Object_0);
        Json::Object(members)
    }

    fn from_json(doc: &Json) -> (r: Option<Self>) {
        if doc.as_object().is_none() {
            return None;
        }
        let cpu = decode_opt_text(doc.get("cpu"))?;
        let memory = decode_opt_text(doc.get("memory"))?;
        let gpu = decode_opt_text(doc.get("gpu"))?;
        let value = AgentResources { cpu, memory, gpu };
        assert(value.json_view()->Object_0 =~= Self::normal(doc@)->Object_0);
        Some(value)
    }
}

/// An agent.
#[derive(Debug)]
pub struct Agent {
    pub name: String,
    pub description: Option<String>,
    pub image: String,
    pub command: Option<Vec<String>>,
    pub env: Option<Vec<(String, String)>>,
    pub resources: Option<AgentResources>,
    pub status: AgentStatus,
    pub created_at: Timestamp,
    pub updated_at: Timestamp,
}

impl Shape for Agent {
    open spec fn json_view(&self) -> JsonView {
        JsonView::Object(
            seq![
                ("name"@, JsonView::String(self.name@)),
                ("description"@, opt_text_json(opt_view(self.description))),
                ("image"@, JsonView::String(self.image@)),
                ("command"@, opt_texts_json(opt_texts_view(self.command))),
                ("env"@, opt_pairs_json(opt_pairs_view(self.env))),
                ("resources"@, opt_shape_json(self.resources)),
                ("status"@, JsonView::String(self.status.literal())),
                ("created_at"@, JsonView::String(self.created_at@)),
                ("updated_at"@, JsonView::String(self.updated_at@)),
            ],
        )
    }

    open spec fn accepts(doc: JsonView) -> bool {
        &&& doc is Object
        &&& text_member(doc.get("name"@)) is Some
        &&& opt_text_member(doc.get("description"@)) is Some
        &&& text_member(doc.get("image"@)) is Some
        &&& opt_texts_member(doc.get("command"@)) is Some
        &&& opt_pairs_member(doc.get("env"@)) is Some
        &&& opt_shape_accepts::<AgentResources>(doc.get("resources"@))
        &&& AgentStatus::member(doc.get("status"@)) is Some
        &&& time_member(doc.get("created_at"@)) is Some
        &&& time_member(doc.get("updated_at"@)) is Some
    }

    open spec fn normal(doc: JsonView) -> JsonView {
        JsonView::Object(
            seq![
                ("name"@, JsonView::String(text_member(doc.get("name"@))->Some_0)),
                ("description"@, opt_text_json(opt_text_member(doc.get("description"@))->Some_0)),
                ("image"@, JsonView::String(text_member(doc.get("image"@))->Some_0)),
                ("command"@, opt_texts_json(opt_texts_member(doc.get("command"@))->Some_0)),
                ("env"@, opt_pairs_json(opt_pairs_member(doc.get("env"@))->Some_0)),
                ("resources"@, opt_shape_normal::<AgentResources>(doc.get("resources"@))),
                (
                    "status"@,
                    JsonView::String(AgentStatus::member(doc.get("status"@))->Some_0.literal()),
                ),
                ("created_at"@, JsonView::String(time_member(doc.get("created_at"@))->Some_0)),
                ("updated_at"@, JsonView::String(time_member(doc.get("updated_at"@))->Some_0)),
            ],
        )
    }

    open spec fn keys() -> Seq<Seq<char>> {
        seq![
            "name"@, "description"@, "image"@, "command"@, "env"@, "resources"@, "status"@,
            "created_at"@, "updated_at"@,
        ]
    }

    open spec fn verbatim(i: int) -> bool {
        i == 0 || i == 1 || i == 2 || i == 3 || i == 4 || i == 6
    }

    proof fn lemma_normal_keeps(doc: JsonView, i: int) {
        if !is_absent(doc.get("resources"@)) {
            AgentResources::lemma_normal_keeps(doc.get("resources"@)->Some_0, 0);
        }
        if !is_absent(doc.get("command"@)) {
            lemma_texts_as_read(doc.get("command"@));
        }
        if !is_absent(doc.get("env"@)) {
            lemma_pairs_as_read(doc.get("env"@));
        }
        AgentStatus::lemma_literal_as_read(text_member(doc.get("status"@))->Some_0);
    }

    fn to_json(&self) -> (r: Json) {
        let mut members: Vec<(String, Json)> = Vec::new();
        members.push(("name".to_owned(), Json::string(self.name.as_str())));
        members.push(("description".to_owned(), encode_opt_text(&self.description)));
        members.push(("image".to_owned(), Json::string(self.image.as_str())));
        members.push(("command".to_owned(), encode_opt_texts(&self.command)));
        members.push(("env".to_owned(), encode_opt_pairs(&self.env)));
        members.push(("resources".to_owned(), encode_opt_shape(&self.resources)));
        members.push(("status".to_owned(), Json::string(self.status.as_str())));
        members.push(("created_at".to_owned(), Json::string(self.created_at.as_str())));
        members.push(("updated_at".to_owned(), Json::string(self.updated_at.as_str())));
        assert(member_views(members@) =~= self.json_view()->Object_0);
        Json::Object(members)
    }

    fn from_json(doc: &Json) -> (r: Option<Self>) {
        if doc.as_object().is_none() {
            return None;
        }
        let name = decode_text(doc.get("name"))?;
        let description = decode_opt_text(doc.get("description"))?;
        let image = decode_text(doc.get("image"))?;
        let command = decode_opt_texts(doc.get("command"))?;
        let env = decode_opt_pairs(doc.get("env"))?;
        let resources = decode_opt_shape::<AgentResources>(doc.get("resources"))?;
        let status = AgentStatus::decode(doc.get("status"))?;
        let created_at = decode_time(doc.get("created_at"))?;
        let updated_at = decode_time(doc.get("updated_at"))?;
        let value = Agent {
            name,
            description,
            image,
            command,
            env,
            resources,
            status,
            created_at,
            updated_at,
        };
        assert(value.json_view()->Object_0 =~= Self::normal(doc@)->Object_0);
        Some(value)
    }
}

/// What creates an agent.
#[derive(Debug)]
pub struct CreateAgentRequest {
    pub name: String,
    pub description: Option<String>,
    pub purpose: Option<String>,
    pub source_repo: Option<String>,
    pub source_branch: Option<String>,
    pub image: Option<String>,
    pub command: Option<Vec<String>>,
    pub env: Option<Vec<(String, String)>>,
    pub resources: Option<AgentResources>,
}

impl Shape for CreateAgentRequest {
    open spec fn json_view(&self) -> JsonView {
        JsonView::Object(
            seq![
                ("name"@, JsonView::String(self.name@)),
                ("description"@, opt_text_json(opt_view(self.description))),
                ("purpose"@, opt_text_json(opt_view(self.purpose))),
                ("source_repo"@, opt_text_json(opt_view(self.source_repo))),
                ("source_branch"@, opt_text_json(opt_view(self.source_branch))),
                ("image"@, opt_text_json(opt_view(self.image))),
                ("command"@, opt_texts_json(opt_texts_view(self.command))),
                ("env"@, opt_pairs_json(opt_pairs_view(self.env))),
                ("resources"@, opt_shape_json(self.resources)),
            ],
        )
    }

    open spec fn accepts(doc: JsonView) -> bool {
        &&& doc is Object
        &&& text_member(doc.get("name"@)) is Some
        &&& opt_text_member(doc.get("description"@)) is Some
        &&& opt_text_member(doc.get("purpose"@)) is Some
        &&& opt_text_member(doc.get("source_repo"@)) is Some
        &&& opt_text_member(doc.get("source_branch"@)) is Some
        &&& opt_text_member(doc.get("image"@)) is Some
        &&& opt_texts_member(doc.get("command"@)) is Some
        &&& opt_pairs_member(doc.get("env"@)) is Some
        &&& opt_shape_accepts::<AgentResources>(doc.get("resources"@))
    }

    open spec fn normal(doc: JsonView) -> JsonView {
        JsonView::Object(
            seq![
                ("name"@, JsonView::String(text_member(doc.get("name"@))->Some_0)),
                ("description"@, opt_text_json(opt_text_member(doc.get("description"@))->Some_0)),
                ("purpose"@, opt_text_json(opt_text_member(doc.get("purpose"@))->Some_0)),
                ("source_repo"@, opt_text_json(opt_text_member(doc.get("source_repo"@))->Some_0)),
                (
                    "source_branch"@,
                    opt_text_json(opt_text_member(doc.get("source_branch"@))->Some_0),
                ),
                ("image"@, opt_text_json(opt_text_member(doc.get("image"@))->Some_0)),
                ("command"@, opt_texts_json(opt_texts_member(doc.get("command"@))->Some_0)),
                ("env"@, opt_pairs_json(opt_pairs_member(doc.get("env"@))->Some_0)),
                ("resources"@, opt_shape_normal::<AgentResources>(doc.get("resources"@))),
            ],
        )
    }

    open spec fn keys() -> Seq<Seq<char>> {
        seq![
            "name"@, "description"@, "purpose"@, "source_repo"@, "source_branch"@, "image"@,
            "command"@, "env"@, "resources"@,
        ]
    }

    open spec fn verbatim(i: int) -> bool {
        i == 0 || i == 1 || i == 2 || i == 3 || i == 4 || i == 5 || i == 6 || i == 7
    }

    proof fn lemma_normal_keeps(doc: JsonView, i: int) {
        if !is_absent(doc.get("resources"@)) {
            AgentResources::lemma_normal_keeps(doc.get("resources"@)->Some_0, 0);
        }
        if !is_absent(doc.get("command"@)) {
            lemma_texts_as_read(doc.get("command"@));
        }
        if !is_absent(doc.get("env"@)) {
            lemma_pairs_as_read(doc.get("env"@));
        }
    }

    fn to_json(&self) -> (r: Json) {
        let mut members: Vec<(String, Json)> = Vec::new();
        members.push(("name".to_owned(), Json::string(self.name.as_str())));
        members.push(("description".to_owned(), encode_opt_text(&self.description)));
        members.push(("purpose".to_owned(), encode_opt_text(&self.purpose)));
        members.push(("source_repo".to_owned(), encode_opt_text(&self.source_repo)));
        members.push(("source_branch".to_owned(), encode_opt_text(&self.source_branch)));
        members.push(("image".to_owned(), encode_opt_text(&self.image)));
        members.push(("command".to_owned(), encode_opt_texts(&self.command)));
        members.push(("env".to_owned(), encode_opt_pairs(&self.env)));
        members.push(("resources".to_owned(), encode_opt_shape(&self.resources)));
        assert(member_views(members@) =~= self.json_view()->Object_0);
        Json::Object(members)
    }

    fn from_json(doc: &Json) -> (r: Option<Self>) {
        if doc.as_object().is_none() {
            return None;
        }
        let name = decode_text(doc.get("name"))?;
        let description = decode_opt_text(doc.get("description"))?;
        let purpose = decode_opt_text(doc.get("purpose"))?;
        let source_repo = decode_opt_text(doc.get("source_repo"))?;
        let source_branch = decode_opt_text(doc.get("source_branch"))?;
        let image = decode_opt_text(doc.get("image"))?;
        let command = decode_opt_texts(doc.get("command"))?;
        let env = decode_opt_pairs(doc.get("env"))?;
        let resources = decode_opt_shape::<AgentResources>(doc.get("resources"))?;
        let value = CreateAgentRequest {
            name,
            description,
            purpose,
            source_repo,
            source_branch,
            image,
            command,
            env,
            resources,
        };
        assert(value.json_view()->Object_0 =~= Self::normal(doc@)->Object_0);
        Some(value)
    }
}

/// What changes an agent.
#[derive(Debug)]
pub struct UpdateAgentRequest {
    pub description: Option<String>,
    pub purpose: Option<String>,
    pub source_repo: Option<String>,
    pub source_branch: Option<String>,
    pub image: Option<String>,
    pub command: Option<Vec<String>>,
    pub env: Option<Vec<(String, String)>>,
    pub resources: Option<AgentResources>,
}

impl Shape for UpdateAgentRequest {
    open spec fn json_view(&self) -> JsonView {
        JsonView::Object(
            seq![
                ("description"@, opt_text_json(opt_view(self.description))),
                ("purpose"@, opt_text_json(opt_view(self.purpose))),
                ("source_repo"@, opt_text_json(opt_view(self.source_repo))),
                ("source_branch"@, opt_text_json(opt_view(self.source_branch))),
                ("image"@, opt_text_json(opt_view(self.image))),
                ("command"@, opt_texts_json(opt_texts_view(self.command))),
                ("env"@, opt_pairs_json(opt_pairs_view(self.env))),
                ("resources"@, opt_shape_json(self.resources)),
            ],
        )
    }

    open spec fn accepts(doc: JsonView) -> bool {
        &&& doc is Object
        &&& opt_text_member(doc.get("description"@)) is Some
        &&& opt_text_member(doc.get("purpose"@)) is Some
        &&& opt_text_member(doc.get("source_repo"@)) is Some
        &&& opt_text_member(doc.get("source_branch"@)) is Some
        &&& opt_text_member(doc.get("image"@)) is Some
        &&& opt_texts_member(doc.get("command"@)) is Some
        &&& opt_pairs_member(doc.get("env"@)) is Some
        &&& opt_shape_accepts::<AgentResources>(doc.get("resources"@))
    }

    open spec fn normal(doc: JsonView) -> JsonView {
        JsonView::Object(
            seq![
                ("description"@, opt_text_json(opt_text_member(doc.get("description"@))->Some_0)),
                ("purpose"@, opt_text_json(opt_text_member(doc.get("purpose"@))->Some_0)),
                ("source_repo"@, opt_text_json(opt_text_member(doc.get("source_repo"@))->Some_0)),
                (
                    "source_branch"@,
                    opt_text_json(opt_text_member(doc.get("source_branch"@))->Some_0),
                ),
                ("image"@, opt_text_json(opt_text_member(doc.get("image"@))->Some_0)),
                ("command"@, opt_texts_json(opt_texts_member(doc.get("command"@))->Some_0)),
                ("env"@, opt_pairs_json(opt_pairs_member(doc.get("env"@))->Some_0)),
                ("resources"@, opt_shape_normal::<AgentResources>(doc.get("resources"@))),
            ],
        )
    }

    open spec fn keys() -> Seq<Seq<char>> {
        seq![
            "description"@, "purpose"@, "source_repo"@, "source_branch"@, "image"@, "command"@,
            "env"@, "resources"@,
        ]
    }

    open spec fn verbatim(i: int) -> bool {
        i == 0 || i == 1 || i == 2 || i == 3 || i == 4 || i == 5 || i == 6
    }

    proof fn lemma_normal_keeps(doc: JsonView, i: int) {
        if !is_absent(doc.get("resources"@)) {
            AgentResources::lemma_normal_keeps(doc.get("resources"@)->Some_0, 0);
        }
        if !is_absent(doc.get("command"@)) {
            lemma_texts_as_read(doc.get("command"@));
        }
        if !is_absent(doc.get("env"@)) {
            lemma_pairs_as_read(doc.get("env"@));
        }
    }

    fn to_json(&self) -> (r: Json) {
        let mut members: Vec<(String, Json)> = Vec::new();
        members.push(("description".to_owned(), encode_opt_text(&self.description)));
        members.push(("purpose".to_owned(), encode_opt_text(&self.purpose)));
        members.push(("source_repo".to_owned(), encode_opt_text(&self.source_repo)));
        members.push(("source_branch".to_owned(), encode_opt_text(&self.source_branch)));
        members.push(("image".to_owned(), encode_opt_text(&self.image)));
        members.push(("command".to_owned(), encode_opt_texts(&self.command)));
        members.push(("env".to_owned(), encode_opt_pairs(&self.env)));
        members.push(("resources".to_owned(), encode_opt_shape(&self.resources)));
        assert(member_views(members@) =~= self.json_view()->Object_0);
        Json::Object(members)
    }

    fn from_json(doc: &Json) -> (r: Option<Self>) {
        if doc.as_object().is_none() {
            return None;
        }
        let description = decode_opt_text(doc.get("description"))?;
        let purpose = decode_opt_text(doc.get("purpose"))?;
        let source_repo = decode_opt_text(doc.get("source_repo"))?;
        let source_branch = decode_opt_text(doc.get("source_branch"))?;
        let image = decode_opt_text(doc.get("image"))?;
        let command = decode_opt_texts(doc.get("command"))?;
        let env = decode_opt_pairs(doc.get("env"))?;
        let resources = decode_opt_shape::<AgentResources>(doc.get("resources"))?;
        let value = UpdateAgentRequest {
            description,
            purpose,
            source_repo,
            source_branch,
            image,
            command,
            env,
            resources,
        };
        assert(value.json_view()->Object_0 =~= Self::normal(doc@)->Object_0);
        Some(value)
    }
}

/// What sets the status of an agent.
#[derive(Debug)]
pub struct UpdateAgentStatusRequest {
    pub status: AgentStatus,
}

impl Shape for UpdateAgentStatusRequest {
    open spec fn json_view(&self) -> JsonView {
        JsonView::Object(
            seq![
                ("status"@, JsonView::String(self.status.literal())),
            ],
        )
    }

    open spec fn accepts(doc: JsonView) -> bool {
        &&& doc is Object
        &&& AgentStatus::member(doc.get("status"@)) is Some
    }

    open spec fn normal(doc: JsonView) -> JsonView {
        JsonView::Object(
            seq![
                (
                    "status"@,
                    JsonView::String(AgentStatus::member(doc.get("status"@))->Some_0.literal()),
                ),
            ],
        )
    }

    open spec fn keys() -> Seq<Seq<char>> {
        seq!["status"@]
    }

    open spec fn verbatim(i: int) -> bool {
        0 <= i < 1
    }

    proof fn lemma_normal_keeps(doc: JsonView, i: int) {
        AgentStatus::lemma_literal_as_read(text_member(doc.get("status"@))->Some_0);
    }

    fn to_json(&self) -> (r: Json) {
        let mut members: Vec<(String, Json)> = Vec::new();
        members.push(("status".to_owned(), Json::string(self.status.as_str())));
        assert(member_views(members@) =~= self.json_view()->Object_0);
        Json::Object(members)
    }

    fn from_json(doc: &Json) -> (r: Option<Self>) {
        if doc.as_object().is_none() {
            return None;
        }
        let status = AgentStatus::decode(doc.get("status"))?;
        let value = UpdateAgentStatusRequest { status };
        assert(value.json_view()->Object_0 =~= Self::normal(doc@)->Object_0);
        Some(value)
    }
}

/// A secret.
#[derive(Debug)]
pub struct Secret {
    pub key: String,
    pub value: String,
    pub created_at: Timestamp,
    pub updated_at: Timestamp,
}

impl Shape for Secret {
    open spec fn json_view(&self) -> JsonView {
        JsonView::Object(
            seq![
                ("key"@, JsonView::String(self.key@)),
                ("value"@, JsonView::String(self.value@)),
                ("created_at"@, JsonView::String(self.created_at@)),
                ("updated_at"@, JsonView::String(self.updated_at@)),
            ],
        )
    }

    open spec fn accepts(doc: JsonView) -> bool {
        &&& doc is Object
        &&& text_member(doc.get("key"@)) is Some
        &&& text_member(doc.get("value"@)) is Some
        &&& time_member(doc.get("created_at"@)) is Some
        &&& time_member(doc.get("updated_at"@)) is Some
    }

    open spec fn normal(doc: JsonView) -> JsonView {
        JsonView::Object(
            seq![
                ("key"@, JsonView::String(text_member(doc.get("key"@))->Some_0)),
                ("value"@, JsonView::String(text_member(doc.get("value"@))->Some_0)),
                ("created_at"@, JsonView::String(time_member(doc.get("created_at"@))->Some_0)),
                ("updated_at"@, JsonView::String(time_member(doc.get("updated_at"@))->Some_0)),
            ],
        )
    }

    open spec fn keys() -> Seq<Seq<char>> {
        seq!["key"@, "value"@, "created_at"@, "updated_at"@]
    }

    open spec fn verbatim(i: int) -> bool {
        i == 0 || i == 1
    }

    proof fn lemma_normal_keeps(doc: JsonView, i: int) {
    }

    fn to_json(&self) -> (r: Json) {
        let mut members: Vec<(String, Json)> = Vec::new();
        members.push(("key".to_owned(), Json::string(self.key.as_str())));
        members.push(("value".to_owned(), Json::string(self.value.as_str())));
        members.push(("created_at".to_owned(), Json::string(self.created_at.as_str())));
        members.push(("updated_at".to_owned(), Json::string(self.updated_at.as_str())));
        assert(member_views(members@) =~= self.json_view()->Object_0);
        Json::Object(members)
    }

    fn from_json(doc: &Json) -> (r: Option<Self>) {
        if doc.as_object().is_none() {
            return None;
        }
        let key = decode_text(doc.get("key"))?;
        let value = decode_text(doc.get("value"))?;
        let created_at = decode_time(doc.get("created_at"))?;
        let updated_at = decode_time(doc.get("updated_at"))?;
        let value = Secret { key, value, created_at, updated_at };
        assert(value.json_view()->Object_0 =~= Self::normal(doc@)->Object_0);
        Some(value)
    }
}

/// What creates a secret.
#[derive(Debug)]
pub struct CreateSecretRequest {
    pub key_name: String,
    pub value: String,
    pub description: Option<String>,
}

impl Shape for CreateSecretRequest {
    open spec fn json_view(&self) -> JsonView {
        JsonView::Object(
            seq![
                ("key_name"@, JsonView::String(self.key_name@)),
                ("value"@, JsonView::String(self.value@)),
                ("description"@, opt_text_json(opt_view(self.description))),
            ],
        )
    }

    open spec fn accepts(doc: JsonView) -> bool {
        &&& doc is Object
        &&& text_member(doc.get("key_name"@)) is Some
        &&& text_member(doc.get("value"@)) is Some
        &&& opt_text_member(doc.get("description"@)) is Some
    }

    open spec fn normal(doc: JsonView) -> JsonView {
        JsonView::Object(
            seq![
                ("key_name"@, JsonView::String(text_member(doc.get("key_name"@))->Some_0)),
                ("value"@, JsonView::String(text_member(doc.get("value"@))->Some_0)),
                ("description"@, opt_text_json(opt_text_member(doc.get("description"@))->Some_0)),
            ],
        )
    }

    open spec fn keys() -> Seq<Seq<char>> {
        seq!["key_name"@, "value"@, "description"@]
    }

    open spec fn verbatim(i: int) -> bool {
        0 <= i < 3
    }

    proof fn lemma_normal_keeps(doc: JsonView, i: int) {
    }

    fn to_json(&self) -> (r: Json) {
        let mut members: Vec<(String, Json)> = Vec::new();
        members.push(("key_name".to_owned(), Json::string(self.key_name.as_str())));
        members.push(("value".to_owned(), Json::string(self.value.as_str())));
        members.push(("description".to_owned(), encode_opt_text(&self.description)));
        assert(member_views(members@) =~= self.json_view()->Object_0);
        Json::Object(members)
    }

    fn from_json(doc: &Json) -> (r: Option<Self>) {
        if doc.as_object().is_none() {
            return None;
        }
        let key_name = decode_text(doc.get("key_name"))?;
        let value = decode_text(doc.get("value"))?;
        let description = decode_opt_text(doc.get("description"))?;
        let value = CreateSecretRequest { key_name, value, description };
        assert(value.json_view()->Object_0 =~= Self::normal(doc@)->Object_0);
        Some(value)
    }
}

/// What changes a secret.
#[derive(Debug)]
pub struct UpdateSecretRequest {
    pub value: Option<String>,
    pub description: Option<String>,
}

impl Shape for UpdateSecretRequest {
    open spec fn json_view(&self) -> JsonView {
        JsonView::Object(
            seq![
                ("value"@, opt_text_json(opt_view(self.value))),
                ("description"@, opt_text_json(opt_view(self.description))),
            ],
        )
    }

    open spec fn accepts(doc: JsonView) -> bool {
        &&& doc is Object
        &&& opt_text_member(doc.get("value"@)) is Some
        &&& opt_text_member(doc.get("description"@)) is Some
    }

    open spec fn normal(doc: JsonView) -> JsonView {
        JsonView::Object(
            seq![
                ("value"@, opt_text_json(opt_text_member(doc.get("value"@))->Some_0)),
                ("description"@, opt_text_json(opt_text_member(doc.get("description"@))->Some_0)),
            ],
        )
    }

    open spec fn keys() -> Seq<Seq<char>> {
        seq!["value"@, "description"@]
    }

    open spec fn verbatim(i: int) -> bool {
        0 <= i < 2
    }

    proof fn lemma_normal_keeps(doc: JsonView, i: int) {
    }

    fn to_json(&self) -> (r: Json) {
        let mut members: Vec<(String, Json)> = Vec::new();
        members.push(("value".to_owned(), encode_opt_text(&self.value)));
        members.push(("description".to_owned(), encode_opt_text(&self.description)));
        assert(member_views(members@) =~= self.json_view()->Object_0);
        Json::Object(members)
    }

    fn from_json(doc: &Json) -> (r: Option<Self>) {
        if doc.as_object().is_none() {
            return None;
        }
        let value = decode_opt_text(doc.get("value"))?;
        let description = decode_opt_text(doc.get("description"))?;
        let value = UpdateSecretRequest { value, description };
        assert(value.json_view()->Object_0 =~= Self::normal(doc@)->Object_0);
        Some(value)
    }
}

/// A service account.
#[derive(Debug)]
pub struct ServiceAccount {
    pub id: String,
    pub user: String,
    pub space: Option<String>,
    pub description: Option<String>,
    pub active: bool,
    pub created_at: Timestamp,
    pub updated_at: Timestamp,
    pub last_login_at: Option<Timestamp>,
}

impl Shape for ServiceAccount {
    open spec fn json_view(&self) -> JsonView {
        JsonView::Object(
            seq![
                ("id"@, JsonView::String(self.id@)),
                ("user"@, JsonView::String(self.user@)),
                ("space"@, opt_text_json(opt_view(self.space))),
                ("description"@, opt_text_json(opt_view(self.description))),
                ("active"@, JsonView::Bool(self.active)),
                ("created_at"@, JsonView::String(self.created_at@)),
                ("updated_at"@, JsonView::String(self.updated_at@)),
                ("last_login_at"@, opt_text_json(opt_time_view(self.last_login_at))),
            ],
        )
    }

    open spec fn accepts(doc: JsonView) -> bool {
        &&& doc is Object
        &&& text_member(doc.get("id"@)) is Some
        &&& text_member(doc.get("user"@)) is Some
        &&& opt_text_member(doc.get("space"@)) is Some
        &&& opt_text_member(doc.get("description"@)) is Some
        &&& bool_member(doc.get("active"@)) is Some
        &&& time_member(doc.get("created_at"@)) is Some
        &&& time_member(doc.get("updated_at"@)) is Some
        &&& opt_time_member(doc.get("last_login_at"@)) is Some
    }

    open spec fn normal(doc: JsonView) -> JsonView {
        JsonView::Object(
            seq![
                ("id"@, JsonView::String(text_member(doc.get("id"@))->Some_0)),
                ("user"@, JsonView::String(text_member(doc.get("user"@))->Some_0)),
                ("space"@, opt_text_json(opt_text_member(doc.get("space"@))->Some_0)),
                ("description"@, opt_text_json(opt_text_member(doc.get("description"@))->Some_0)),
                ("active"@, JsonView::Bool(bool_member(doc.get("active"@))->Some_0)),
                ("created_at"@, JsonView::String(time_member(doc.get("created_at"@))->Some_0)),
                ("updated_at"@, JsonView::String(time_member(doc.get("updated_at"@))->Some_0)),
                (
                    "last_login_at"@,
                    opt_text_json(opt_time_member(doc.get("last_login_at"@))->Some_0),
                ),
            ],
        )
    }

    open spec fn keys() -> Seq<Seq<char>> {
        seq![
            "id"@, "user"@, "space"@, "description"@, "active"@, "created_at"@, "updated_at"@,
            "last_login_at"@,
        ]
    }

    open spec fn verbatim(i: int) -> bool {
        i == 0 || i == 1 || i == 2 || i == 3 || i == 4
    }

    proof fn lemma_normal_keeps(doc: JsonView, i: int) {
    }

    fn to_json(&self) -> (r: Json) {
        let mut members: Vec<(String, Json)> = Vec::new();
        members.push(("id".to_owned(), Json::string(self.id.as_str())));
        members.push(("user".to_owned(), Json::string(self.user.as_str())));
        members.push(("space".to_owned(), encode_opt_text(&self.space)));
        members.push(("description".to_owned(), encode_opt_text(&self.description)));
        members.push(("active".to_owned(), Json::Bool(self.active)));
        members.push(("created_at".to_owned(), Json::string(self.created_at.as_str())));
        members.push(("updated_at".to_owned(), Json::string(self.updated_at.as_str())));
        members.push(("last_login_at".to_owned(), encode_opt_time(&self.last_login_at)));
        assert(member_views(members@) =~= self.json_view()->Object_0);
        Json::Object(members)
    }

    fn from_json(doc: &Json) -> (r: Option<Self>) {
        if doc.as_object().is_none() {
            return None;
        }
        let id = decode_text(doc.get("id"))?;
        let user = decode_text(doc.get("user"))?;
        let space = decode_opt_text(doc.get("space"))?;
        let description = decode_opt_text(doc.get("description"))?;
        let active = decode_bool(doc.get("active"))?;
        let created_at = decode_time(doc.get("created_at"))?;
        let updated_at = decode_time(doc.get("updated_at"))?;
        let last_login_at = decode_opt_time(doc.get("last_login_at"))?;
        let value = ServiceAccount {
            id,
            user,
            space,
            description,
            active,
            created_at,
            updated_at,
            last_login_at,
        };
        assert(value.json_view()->Object_0 =~= Self::normal(doc@)->Object_0);
        Some(value)
    }
}

/// What creates a service account.
#[derive(Debug)]
pub struct CreateServiceAccountRequest {
    pub user: String,
    pub pass: String,
    pub space: Option<String>,
    pub description: Option<String>,
}

impl Shape for CreateServiceAccountRequest {
    open spec fn json_view(&self) -> JsonView {
        JsonView::Object(
            seq![
                ("user"@, JsonView::String(self.user@)),
                ("pass"@, JsonView::String(self.pass@)),
                ("space"@, opt_text_json(opt_view(self.space))),
                ("description"@, opt_text_json(opt_view(self.description))),
            ],
        )
    }

    open spec fn accepts(doc: JsonView) -> bool {
        &&& doc is Object
        &&& text_member(doc.get("user"@)) is Some
        &&& text_member(doc.get("pass"@)) is Some
        &&& opt_text_member(doc.get("space"@)) is Some
        &&& opt_text_member(doc.get("description"@)) is Some
    }

    open spec fn normal(doc: JsonView) -> JsonView {
        JsonView::Object(
            seq![
                ("user"@, JsonView::String(text_member(doc.get("user"@))->Some_0)),
                ("pass"@, JsonView::String(text_member(doc.get("pass"@))->Some_0)),
                ("space"@, opt_text_json(opt_text_member(doc.get("space"@))->Some_0)),
                ("description"@, opt_text_json(opt_text_member(doc.get("description"@))->Some_0)),
            ],
        )
    }

    open spec fn keys() -> Seq<Seq<char>> {
        seq!["user"@, "pass"@, "space"@, "description"@]
    }

    open spec fn verbatim(i: int) -> bool {
        0 <= i < 4
    }

    proof fn lemma_normal_keeps(doc: JsonView, i: int) {
    }

    fn to_json(&self) -> (r: Json) {
        let mut members: Vec<(String, Json)> = Vec::new();
        members.push(("user".to_owned(), Json::string(self.user.as_str())));
        members.push(("pass".to_owned(), Json::string(self.pass.as_str())));
        members.push(("space".to_owned(), encode_opt_text(&self.space)));
        members.push(("description".to_owned(), encode_opt_text(&self.description)));
        assert(member_views(members@) =~= self.json_view()->Object_0);
        Json::Object(members)
    }

    fn from_json(doc: &Json) -> (r: Option<Self>) {
        if doc.as_object().is_none() {
            return None;
        }
        let user = decode_text(doc.get("user"))?;
        let pass = decode_text(doc.get("pass"))?;
        let space = decode_opt_text(doc.get("space"))?;
        let description = decode_opt_text(doc.get("description"))?;
        let value = CreateServiceAccountRequest { user, pass, space, description };
        assert(value.json_view()->Object_0 =~= Self::normal(doc@)->Object_0);
        Some(value)
    }
}

/// What changes a service account.
#[derive(Debug)]
pub struct UpdateServiceAccountRequest {
    pub space: Option<String>,
    pub description: Option<String>,
    pub active: Option<bool>,
}

impl Shape for UpdateServiceAccountRequest {
    open spec fn json_view(&self) -> JsonView {
        JsonView::Object(
            seq![
                ("space"@, opt_text_json(opt_view(self.space))),
                ("description"@, opt_text_json(opt_view(self.description))),
                ("active"@, opt_bool_json(self.active)),
            ],
        )
    }

    open spec fn accepts(doc: JsonView) -> bool {
        &&& doc is Object
        &&& opt_text_member(doc.get("space"@)) is Some
        &&& opt_text_member(doc.get("description"@)) is Some
        &&& opt_bool_member(doc.get("active"@)) is Some
    }

    open spec fn normal(doc: JsonView) -> JsonView {
        JsonView::Object(
            seq![
                ("space"@, opt_text_json(opt_text_member(doc.get("space"@))->Some_0)),
                ("description"@, opt_text_json(opt_text_member(doc.get("description"@))->Some_0)),
                ("active"@, opt_bool_json(opt_bool_member(doc.get("active"@))->Some_0)),
            ],
        )
    }

    open spec fn keys() -> Seq<Seq<char>> {
        seq!["space"@, "description"@, "active"@]
    }

    open spec fn verbatim(i: int) -> bool {
        0 <= i < 3
    }

    proof fn lemma_normal_keeps(doc: JsonView, i: int) {
    }

    fn to_json(&self) -> (r: Json) {
        let mut members: Vec<(String, Json)> = Vec::new();
        members.push(("space".to_owned(), encode_opt_text(&self.space)));
        members.push(("description".to_owned(), encode_opt_text(&self.description)));
        members.push(("active".to_owned(), encode_opt_bool(&self.active)));
        assert(member_views(members@) =~= self.json_view()->Object_0);
        Json::Object(members)
    }

    fn from_json(doc: &Json) -> (r: Option<Self>) {
        if doc.as_object().is_none() {
            return None;
        }
        let space = decode_opt_text(doc.get("space"))?;
        let description = decode_opt_text(doc.get("description"))?;
        let active = decode_opt_bool(doc.get("active"))?;
        let value = UpdateServiceAccountRequest { space, description, active };
        assert(value.json_view()->Object_0 =~= Self::normal(doc@)->Object_0);
        Some(value)
    }
}

/// What changes a password.
#[derive(Debug)]
pub struct UpdatePasswordRequest {
    pub current_password: String,
    pub new_password: String,
}

impl Shape for UpdatePasswordRequest {
    open spec fn json_view(&self) -> JsonView {
        JsonView::Object(
            seq![
                ("current_password"@, JsonView::String(self.current_password@)),
                ("new_password"@, JsonView::String(self.new_password@)),
            ],
        )
    }

    open spec fn accepts(doc: JsonView) -> bool {
        &&& doc is Object
        &&& text_member(doc.get("current_password"@)) is Some
        &&& text_member(doc.get("new_password"@)) is Some
    }

    open spec fn normal(doc: JsonView) -> JsonView {
        JsonView::Object(
            seq![
                (
                    "current_password"@,
                    JsonView::String(text_member(doc.get("current_password"@))->Some_0),
                ),
                ("new_password"@, JsonView::String(text_member(doc.get("new_password"@))->Some_0)),
            ],
        )
    }

    open spec fn keys() -> Seq<Seq<char>> {
        seq!["current_password"@, "new_password"@]
    }

    open spec fn verbatim(i: int) -> bool {
        0 <= i < 2
    }

    proof fn lemma_normal_keeps(doc: JsonView, i: int) {
    }

    fn to_json(&self) -> (r: Json) {
        let mut members: Vec<(String, Json)> = Vec::new();
        members.push(("current_password".to_owned(), Json::string(self.current_password.as_str())));
        members.push(("new_password".to_owned(), Json::string(self.new_password.as_str())));
        assert(member_views(members@) =~= self.json_view()->Object_0);
        Json::Object(members)
    }

    fn from_json(doc: &Json) -> (r: Option<Self>) {
        if doc.as_object().is_none() {
            return None;
        }
        let current_password = decode_text(doc.get("current_password"))?;
        let new_password = decode_text(doc.get("new_password"))?;
        let value = UpdatePasswordRequest { current_password, new_password };
        assert(value.json_view()->Object_0 =~= Self::normal(doc@)->Object_0);
        Some(value)
    }
}

/// One rule of a role.
#[derive(Debug)]
pub struct RoleRule {
    pub resources: Vec<String>,
    pub verbs: Vec<String>,
    pub scope: String,
}

impl Shape for RoleRule {
    open spec fn json_view(&self) -> JsonView {
        JsonView::Object(
            seq![
                ("resources"@, texts_json(texts_view(self.resources@))),
                ("verbs"@, texts_json(texts_view(self.verbs@))),
                ("scope"@, JsonView::String(self.scope@)),
            ],
        )
    }

    open spec fn accepts(doc: JsonView) -> bool {
        &&& doc is Object
        &&& texts_member(doc.get("resources"@)) is Some
        &&& texts_member(doc.get("verbs"@)) is Some
        &&& text_member(doc.get("scope"@)) is Some
    }

    open spec fn normal(doc: JsonView) -> JsonView {
        JsonView::Object(
            seq![
                ("resources"@, texts_json(texts_member(doc.get("resources"@))->Some_0)),
                ("verbs"@, texts_json(texts_member(doc.get("verbs"@))->Some_0)),
                ("scope"@, JsonView::String(text_member(doc.get("scope"@))->Some_0)),
            ],
        )
    }

    open spec fn keys() -> Seq<Seq<char>> {
        seq!["resources"@, "verbs"@, "scope"@]
    }

    open spec fn verbatim(i: int) -> bool {
        0 <= i < 3
    }

    proof fn lemma_normal_keeps(doc: JsonView, i: int) {
        lemma_texts_as_read(doc.get("resources"@));
        lemma_texts_as_read(doc.get("verbs"@));
    }

    fn to_json(&self) -> (r: Json) {
        let mut members: Vec<(String, Json)> = Vec::new();
        members.push(("resources".to_owned(), encode_texts(&self.resources)));
        members.push(("verbs".to_owned(), encode_texts(&self.verbs)));
        members.push(("scope".to_owned(), Json::string(self.scope.as_str())));
        assert(member_views(members@) =~= self.json_view()->Object_0);
        Json::Object(members)
    }

    fn from_json(doc: &Json) -> (r: Option<Self>) {
        if doc.as_object().is_none() {
            return None;
        }
        let resources = decode_texts(doc.get("resources"))?;
        let verbs = decode_texts(doc.get("verbs"))?;
        let scope = decode_text(doc.get("scope"))?;
        let value = RoleRule { resources, verbs, scope };
        assert(value.json_view()->Object_0 =~= Self::normal(doc@)->Object_0);
        Some(value)
    }
}

/// A role.
#[derive(Debug)]
pub struct Role {
    pub name: String,
    pub description: Option<String>,
    pub rules: Vec<RoleRule>,
    pub created_at: Timestamp,
}

impl Shape for Role {
    open spec fn json_view(&self) -> JsonView {
        JsonView::Object(
            seq![
                ("name"@, JsonView::String(self.name@)),
                ("description"@, opt_text_json(opt_view(self.description))),
                ("rules"@, list_json(self.rules@)),
                ("created_at"@, JsonView::String(self.created_at@)),
            ],
        )
    }

    open spec fn accepts(doc: JsonView) -> bool {
        &&& doc is Object
        &&& text_member(doc.get("name"@)) is Some
        &&& opt_text_member(doc.get("description"@)) is Some
        &&& list_member_accepts::<RoleRule>(doc.get("rules"@))
        &&& time_member(doc.get("created_at"@)) is Some
    }

    open spec fn normal(doc: JsonView) -> JsonView {
        JsonView::Object(
            seq![
                ("name"@, JsonView::String(text_member(doc.get("name"@))->Some_0)),
                ("description"@, opt_text_json(opt_text_member(doc.get("description"@))->Some_0)),
                ("rules"@, list_normal::<RoleRule>(doc.get("rules"@)->Some_0)),
                ("created_at"@, JsonView::String(time_member(doc.get("created_at"@))->Some_0)),
            ],
        )
    }

    open spec fn keys() -> Seq<Seq<char>> {
        seq!["name"@, "description"@, "rules"@, "created_at"@]
    }

    open spec fn verbatim(i: int) -> bool {
        i == 0 || i == 1
    }

    proof fn lemma_normal_keeps(doc: JsonView, i: int) {
    }

    fn to_json(&self) -> (r: Json) {
        let mut members: Vec<(String, Json)> = Vec::new();
        members.push(("name".to_owned(), Json::string(self.name.as_str())));
        members.push(("description".to_owned(), encode_opt_text(&self.description)));
        members.push(("rules".to_owned(), list_to_json(&self.rules)));
        members.push(("created_at".to_owned(), Json::string(self.created_at.as_str())));
        assert(member_views(members@) =~= self.json_view()->Object_0);
        Json::Object(members)
    }

    fn from_json(doc: &Json) -> (r: Option<Self>) {
        if doc.as_object().is_none() {
            return None;
        }
        let name = decode_text(doc.get("name"))?;
        let description = decode_opt_text(doc.get("description"))?;
        let rules = decode_list::<RoleRule>(doc.get("rules"))?;
        let created_at = decode_time(doc.get("created_at"))?;
        let value = Role { name, description, rules, created_at };
        assert(value.json_view()->Object_0 =~= Self::normal(doc@)->Object_0);
        Some(value)
    }
}

/// What creates a role.
#[derive(Debug)]
pub struct CreateRoleRequest {
    pub id: String,
    pub description: Option<String>,
    pub rules: Vec<RoleRule>,
}

impl Shape for CreateRoleRequest {
    open spec fn json_view(&self) -> JsonView {
        JsonView::Object(
            seq![
                ("id"@, JsonView::String(self.id@)),
                ("description"@, opt_text_json(opt_view(self.description))),
                ("rules"@, list_json(self.rules@)),
            ],
        )
    }

    open spec fn accepts(doc: JsonView) -> bool {
        &&& doc is Object
        &&& text_member(doc.get("id"@)) is Some
        &&& opt_text_member(doc.get("description"@)) is Some
        &&& list_member_accepts::<RoleRule>(doc.get("rules"@))
    }

    open spec fn normal(doc: JsonView) -> JsonView {
        JsonView::Object(
            seq![
                ("id"@, JsonView::String(text_member(doc.get("id"@))->Some_0)),
                ("description"@, opt_text_json(opt_text_member(doc.get("description"@))->Some_0)),
                ("rules"@, list_normal::<RoleRule>(doc.get("rules"@)->Some_0)),
            ],
        )
    }

    open spec fn keys() -> Seq<Seq<char>> {
        seq!["id"@, "description"@, "rules"@]
    }

    open spec fn verbatim(i: int) -> bool {
        i == 0 || i == 1
    }

    proof fn lemma_normal_keeps(doc: JsonView, i: int) {
    }

    fn to_json(&self) -> (r: Json) {
        let mut members: Vec<(String, Json)> = Vec::new();
        members.push(("id".to_owned(), Json::string(self.id.as_str())));
        members.push(("description".to_owned(), encode_opt_text(&self.description)));
        members.push(("rules".to_owned(), list_to_json(&self.rules)));
        assert(member_views(members@) =~= self.json_view()->Object_0);
        Json::Object(members)
    }

    fn from_json(doc: &Json) -> (r: Option<Self>) {
        if doc.as_object().is_none() {
            return None;
        }
        let id = decode_text(doc.get("id"))?;
        let description = decode_opt_text(doc.get("description"))?;
        let rules = decode_list::<RoleRule>(doc.get("rules"))?;
        let value = CreateRoleRequest { id, description, rules };
        assert(value.json_view()->Object_0 =~= Self::normal(doc@)->Object_0);
        Some(value)
    }
}

/// The binding of a role to a subject.
#[derive(Debug)]
pub struct RoleBinding {
    pub id: String,
    pub subject: String,
    pub role_ref: String,
    pub space: Option<String>,
    pub created_at: Timestamp,
    pub updated_at: Timestamp,
}

impl Shape for RoleBinding {
    open spec fn json_view(&self) -> JsonView {
        JsonView::Object(
            seq![
                ("id"@, JsonView::String(self.id@)),
                ("subject"@, JsonView::String(self.subject@)),
                ("role_ref"@, JsonView::String(self.role_ref@)),
                ("space"@, opt_text_json(opt_view(self.space))),
                ("created_at"@, JsonView::String(self.created_at@)),
                ("updated_at"@, JsonView::String(self.updated_at@)),
            ],
        )
    }

    open spec fn accepts(doc: JsonView) -> bool {
        &&& doc is Object
        &&& text_member(doc.get("id"@)) is Some
        &&& text_member(doc.get("subject"@)) is Some
        &&& text_member(doc.get("role_ref"@)) is Some
        &&& opt_text_member(doc.get("space"@)) is Some
        &&& time_member(doc.get("created_at"@)) is Some
        &&& time_member(doc.get("updated_at"@)) is Some
    }

    open spec fn normal(doc: JsonView) -> JsonView {
        JsonView::Object(
            seq![
                ("id"@, JsonView::String(text_member(doc.get("id"@))->Some_0)),
                ("subject"@, JsonView::String(text_member(doc.get("subject"@))->Some_0)),
                ("role_ref"@, JsonView::String(text_member(doc.get("role_ref"@))->Some_0)),
                ("space"@, opt_text_json(opt_text_member(doc.get("space"@))->Some_0)),
                ("created_at"@, JsonView::String(time_member(doc.get("created_at"@))->Some_0)),
                ("updated_at"@, JsonView::String(time_member(doc.get("updated_at"@))->Some_0)),
            ],
        )
    }

    open spec fn keys() -> Seq<Seq<char>> {
        seq!["id"@, "subject"@, "role_ref"@, "space"@, "created_at"@, "updated_at"@]
    }

    open spec fn verbatim(i: int) -> bool {
        i == 0 || i == 1 || i == 2 || i == 3
    }

    proof fn lemma_normal_keeps(doc: JsonView, i: int) {
    }

    fn to_json(&self) -> (r: Json) {
        let mut members: Vec<(String, Json)> = Vec::new();
        members.push(("id".to_owned(), Json::string(self.id.as_str())));
        members.push(("subject".to_owned(), Json::string(self.subject.as_str())));
        members.push(("role_ref".to_owned(), Json::string(self.role_ref.as_str())));
        members.push(("space".to_owned(), encode_opt_text(&self.space)));
        members.push(("created_at".to_owned(), Json::string(self.created_at.as_str())));
        members.push(("updated_at".to_owned(), Json::string(self.updated_at.as_str())));
        assert(member_views(members@) =~= self.json_view()->Object_0);
        Json::Object(members)
    }

    fn from_json(doc: &Json) -> (r: Option<Self>) {
        if doc.as_object().is_none() {
            return None;
        }
        let id = decode_text(doc.get("id"))?;
        let subject = decode_text(doc.get("subject"))?;
        let role_ref = decode_text(doc.get("role_ref"))?;
        let space = decode_opt_text(doc.get("space"))?;
        let created_at = decode_time(doc.get("created_at"))?;
        let updated_at = decode_time(doc.get("updated_at"))?;
        let value = RoleBinding { id, subject, role_ref, space, created_at, updated_at };
        assert(value.json_view()->Object_0 =~= Self::normal(doc@)->Object_0);
        Some(value)
    }
}

/// What binds a role to a subject.
#[derive(Debug)]
pub struct CreateRoleBindingRequest {
    pub subject: String,
    pub role_ref: String,
    pub space: Option<String>,
}

impl Shape for CreateRoleBindingRequest {
    open spec fn json_view(&self) -> JsonView {
        JsonView::Object(
            seq![
                ("subject"@, JsonView::String(self.subject@)),
                ("role_ref"@, JsonView::String(self.role_ref@)),
                ("space"@, opt_text_json(opt_view(self.space))),
            ],
        )
    }

    open spec fn accepts(doc: JsonView) -> bool {
        &&& doc is Object
        &&& text_member(doc.get("subject"@)) is Some
        &&& text_member(doc.get("role_ref"@)) is Some
        &&& opt_text_member(doc.get("space"@)) is Some
    }

    open spec fn normal(doc: JsonView) -> JsonView {
        JsonView::Object(
            seq![
                ("subject"@, JsonView::String(text_member(doc.get("subject"@))->Some_0)),
                ("role_ref"@, JsonView::String(text_member(doc.get("role_ref"@))->Some_0)),
                ("space"@, opt_text_json(opt_text_member(doc.get("space"@))->Some_0)),
            ],
        )
    }

    open spec fn keys() -> Seq<Seq<char>> {
        seq!["subject"@, "role_ref"@, "space"@]
    }

    open spec fn verbatim(i: int) -> bool {
        0 <= i < 3
    }

    proof fn lemma_normal_keeps(doc: JsonView, i: int) {
    }

    fn to_json(&self) -> (r: Json) {
        let mut members: Vec<(String, Json)> = Vec::new();
        members.push(("subject".to_owned(), Json::string(self.subject.as_str())));
        members.push(("role_ref".to_owned(), Json::string(self.role_ref.as_str())));
        members.push(("space".to_owned(), encode_opt_text(&self.space)));
        assert(member_views(members@) =~= self.json_view()->Object_0);
        Json::Object(members)
    }

    fn from_json(doc: &Json) -> (r: Option<Self>) {
        if doc.as_object().is_none() {
            return None;
        }
        let subject = decode_text(doc.get("subject"))?;
        let role_ref = decode_text(doc.get("role_ref"))?;
        let space = decode_opt_text(doc.get("space"))?;
        let value = CreateRoleBindingRequest { subject, role_ref, space };
        assert(value.json_view()->Object_0 =~= Self::normal(doc@)->Object_0);
        Some(value)
    }
}

/// The credentials of a login.
#[derive(Debug)]
pub struct AuthRequest {
    pub user: String,
    pub pass: String,
}

impl Shape for AuthRequest {
    open spec fn json_view(&self) -> JsonView {
        JsonView::Object(
            seq![
                ("user"@, JsonView::String(self.user@)),
                ("pass"@, JsonView::String(self.pass@)),
            ],
        )
    }

    open spec fn accepts(doc: JsonView) -> bool {
        &&& doc is Object
        &&& text_member(doc.get("user"@)) is Some
        &&& text_member(doc.get("pass"@)) is Some
    }

    open spec fn normal(doc: JsonView) -> JsonView {
        JsonView::Object(
            seq![
                ("user"@, JsonView::String(text_member(doc.get("user"@))->Some_0)),
                ("pass"@, JsonView::String(text_member(doc.get("pass"@))->Some_0)),
            ],
        )
    }

    open spec fn keys() -> Seq<Seq<char>> {
        seq!["user"@, "pass"@]
    }

    open spec fn verbatim(i: int) -> bool {
        0 <= i < 2
    }

    proof fn lemma_normal_keeps(doc: JsonView, i: int) {
    }

    fn to_json(&self) -> (r: Json) {
        let mut members: Vec<(String, Json)> = Vec::new();
        members.push(("user".to_owned(), Json::string(self.user.as_str())));
        members.push(("pass".to_owned(), Json::string(self.pass.as_str())));
        assert(member_views(members@) =~= self.json_view()->Object_0);
        Json::Object(members)
    }

    fn from_json(doc: &Json) -> (r: Option<Self>) {
        if doc.as_object().is_none() {
            return None;
        }
        let user = decode_text(doc.get("user"))?;
        let pass = decode_text(doc.get("pass"))?;
        let value = AuthRequest { user, pass };
        assert(value.json_view()->Object_0 =~= Self::normal(doc@)->Object_0);
        Some(value)
    }
}

/// The answer to a login.
#[derive(Debug)]
pub struct AuthResponse {
    pub token: String,
    pub token_type: String,
    pub expires_at: Timestamp,
}

impl Shape for AuthResponse {
    open spec fn json_view(&self) -> JsonView {
        JsonView::Object(
            seq![
                ("token"@, JsonView::String(self.token@)),
                ("token_type"@, JsonView::String(self.token_type@)),
                ("expires_at"@, JsonView::String(self.expires_at@)),
            ],
        )
    }

    open spec fn accepts(doc: JsonView) -> bool {
        &&& doc is Object
        &&& text_member(doc.get("token"@)) is Some
        &&& text_member(doc.get("token_type"@)) is Some
        &&& time_member(doc.get("expires_at"@)) is Some
    }

    open spec fn normal(doc: JsonView) -> JsonView {
        JsonView::Object(
            seq![
                ("token"@, JsonView::String(text_member(doc.get("token"@))->Some_0)),
                ("token_type"@, JsonView::String(text_member(doc.get("token_type"@))->Some_0)),
                ("expires_at"@, JsonView::String(time_member(doc.get("expires_at"@))->Some_0)),
            ],
        )
    }

    open spec fn keys() -> Seq<Seq<char>> {
        seq!["token"@, "token_type"@, "expires_at"@]
    }

    open spec fn verbatim(i: int) -> bool {
        i == 0 || i == 1
    }

    proof fn lemma_normal_keeps(doc: JsonView, i: int) {
    }

    fn to_json(&self) -> (r: Json) {
        let mut members: Vec<(String, Json)> = Vec::new();
        members.push(("token".to_owned(), Json::string(self.token.as_str())));
        members.push(("token_type".to_owned(), Json::string(self.token_type.as_str())));
        members.push(("expires_at".to_owned(), Json::string(self.expires_at.as_str())));
        assert(member_views(members@) =~= self.json_view()->Object_0);
        Json::Object(members)
    }

    fn from_json(doc: &Json) -> (r: Option<Self>) {
        if doc.as_object().is_none() {
            return None;
        }
        let token = decode_text(doc.get("token"))?;
        let token_type = decode_text(doc.get("token_type"))?;
        let expires_at = decode_time(doc.get("expires_at"))?;
        let value = AuthResponse { token, token_type, expires_at };
        assert(value.json_view()->Object_0 =~= Self::normal(doc@)->Object_0);
        Some(value)
    }
}

/// Who the token stands for.
#[derive(Debug)]
pub struct UserInfo {
    pub user: String,
    pub namespace: Option<String>,
    pub kind: String,
}

impl Shape for UserInfo {
    open spec fn json_view(&self) -> JsonView {
        JsonView::Object(
            seq![
                ("user"@, JsonView::String(self.user@)),
                ("namespace"@, opt_text_json(opt_view(self.namespace))),
                ("type"@, JsonView::String(self.kind@)),
            ],
        )
    }

    open spec fn accepts(doc: JsonView) -> bool {
        &&& doc is Object
        &&& text_member(doc.get("user"@)) is Some
        &&& opt_text_member(doc.get("namespace"@)) is Some
        &&& text_member(doc.get("type"@)) is Some
    }

    open spec fn normal(doc: JsonView) -> JsonView {
        JsonView::Object(
            seq![
                ("user"@, JsonView::String(text_member(doc.get("user"@))->Some_0)),
                ("namespace"@, opt_text_json(opt_text_member(doc.get("namespace"@))->Some_0)),
                ("type"@, JsonView::String(text_member(doc.get("type"@))->Some_0)),
            ],
        )
    }

    open spec fn keys() -> Seq<Seq<char>> {
        seq!["user"@, "namespace"@, "type"@]
    }

    open spec fn verbatim(i: int) -> bool {
        0 <= i < 3
    }

    proof fn lemma_normal_keeps(doc: JsonView, i: int) {
    }

    fn to_json(&self) -> (r: Json) {
        let mut members: Vec<(String, Json)> = Vec::new();
        members.push(("user".to_owned(), Json::string(self.user.as_str())));
        members.push(("namespace".to_owned(), encode_opt_text(&self.namespace)));
        members.push(("type".to_owned(), Json::string(self.kind.as_str())));
        assert(member_views(members@) =~= self.json_view()->Object_0);
        Json::Object(members)
    }

    fn from_json(doc: &Json) -> (r: Option<Self>) {
        if doc.as_object().is_none() {
            return None;
        }
        let user = decode_text(doc.get("user"))?;
        let namespace = decode_opt_text(doc.get("namespace"))?;
        let kind = decode_text(doc.get("type"))?;
        let value = UserInfo { user, namespace, kind };
        assert(value.json_view()->Object_0 =~= Self::normal(doc@)->Object_0);
        Some(value)
    }
}

/// The version of the API.
#[derive(Debug)]
pub struct VersionResponse {
    pub version: String,
    pub api: String,
}

impl Shape for VersionResponse {
    open spec fn json_view(&self) -> JsonView {
        JsonView::Object(
            seq![
                ("version"@, JsonView::String(self.version@)),
                ("api"@, JsonView::String(self.api@)),
            ],
        )
    }

    open spec fn accepts(doc: JsonView) -> bool {
        &&& doc is Object
        &&& text_member(doc.get("version"@)) is Some
        &&& text_member(doc.get("api"@)) is Some
    }

    open spec fn normal(doc: JsonView) -> JsonView {
        JsonView::Object(
            seq![
                ("version"@, JsonView::String(text_member(doc.get("version"@))->Some_0)),
                ("api"@, JsonView::String(text_member(doc.get("api"@))->Some_0)),
            ],
        )
    }

    open spec fn keys() -> Seq<Seq<char>> {
        seq!["version"@, "api"@]
    }

    open spec fn verbatim(i: int) -> bool {
        0 <= i < 2
    }

    proof fn lemma_normal_keeps(doc: JsonView, i: int) {
    }

    fn to_json(&self) -> (r: Json) {
        let mut members: Vec<(String, Json)> = Vec::new();
        members.push(("version".to_owned(), Json::string(self.version.as_str())));
        members.push(("api".to_owned(), Json::string(self.api.as_str())));
        assert(member_views(members@) =~= self.json_view()->Object_0);
        Json::Object(members)
    }

    fn from_json(doc: &Json) -> (r: Option<Self>) {
        if doc.as_object().is_none() {
            return None;
        }
        let version = decode_text(doc.get("version"))?;
        let api = decode_text(doc.get("api"))?;
        let value = VersionResponse { version, api };
        assert(value.json_view()->Object_0 =~= Self::normal(doc@)->Object_0);
        Some(value)
    }
}

/// A build of a space.
#[derive(Debug)]
pub struct Build {
    pub id: String,
    pub space: String,
    pub status: BuildStatus,
    pub image: Option<String>,
    pub logs: Option<String>,
    pub created_at: Timestamp,
    pub completed_at: Option<Timestamp>,
}

impl Shape for Build {
    open spec fn json_view(&self) -> JsonView {
        JsonView::Object(
            seq![
                ("id"@, JsonView::String(self.id@)),
                ("space"@, JsonView::String(self.space@)),
                ("status"@, JsonView::String(self.status.literal())),
                ("image"@, opt_text_json(opt_view(self.image))),
                ("logs"@, opt_text_json(opt_view(self.logs))),
                ("created_at"@, JsonView::String(self.created_at@)),
                ("completed_at"@, opt_text_json(opt_time_view(self.completed_at))),
            ],
        )
    }

    open spec fn accepts(doc: JsonView) -> bool {
        &&& doc is Object
        &&& text_member(doc.get("id"@)) is Some
        &&& text_member(doc.get("space"@)) is Some
        &&& BuildStatus::member(doc.get("status"@)) is Some
        &&& opt_text_member(doc.get("image"@)) is Some
        &&& opt_text_member(doc.get("logs"@)) is Some
        &&& time_member(doc.get("created_at"@)) is Some
        &&& opt_time_member(doc.get("completed_at"@)) is Some
    }

    open spec fn normal(doc: JsonView) -> JsonView {
        JsonView::Object(
            seq![
                ("id"@, JsonView::String(text_member(doc.get("id"@))->Some_0)),
                ("space"@, JsonView::String(text_member(doc.get("space"@))->Some_0)),
                (
                    "status"@,
                    JsonView::String(BuildStatus::member(doc.get("status"@))->Some_0.literal()),
                ),
                ("image"@, opt_text_json(opt_text_member(doc.get("image"@))->Some_0)),
                ("logs"@, opt_text_json(opt_text_member(doc.get("logs"@))->Some_0)),
                ("created_at"@, JsonView::String(time_member(doc.get("created_at"@))->Some_0)),
                ("completed_at"@, opt_text_json(opt_time_member(doc.get("completed_at"@))->Some_0)),
            ],
        )
    }

    open spec fn keys() -> Seq<Seq<char>> {
        seq!["id"@, "space"@, "status"@, "image"@, "logs"@, "created_at"@, "completed_at"@]
    }

    open spec fn verbatim(i: int) -> bool {
        i == 0 || i == 1 || i == 2 || i == 3 || i == 4
    }

    proof fn lemma_normal_keeps(doc: JsonView, i: int) {
        BuildStatus::lemma_literal_as_read(text_member(doc.get("status"@))->Some_0);
    }

    fn to_json(&self) -> (r: Json) {
        let mut members: Vec<(String, Json)> = Vec::new();
        members.push(("id".to_owned(), Json::string(self.id.as_str())));
        members.push(("space".to_owned(), Json::string(self.space.as_str())));
        members.push(("status".to_owned(), Json::string(self.status.as_str())));
        members.push(("image".to_owned(), encode_opt_text(&self.image)));
        members.push(("logs".to_owned(), encode_opt_text(&self.logs)));
        members.push(("created_at".to_owned(), Json::string(self.created_at.as_str())));
        members.push(("completed_at".to_owned(), encode_opt_time(&self.completed_at)));
        assert(member_views(members@) =~= self.json_view()->Object_0);
        Json::Object(members)
    }

    fn from_json(doc: &Json) -> (r: Option<Self>) {
        if doc.as_object().is_none() {
            return None;
        }
        let id = decode_text(doc.get("id"))?;
        let space = decode_text(doc.get("space"))?;
        let status = BuildStatus::decode(doc.get("status"))?;
        let image = decode_opt_text(doc.get("image"))?;
        let logs = decode_opt_text(doc.get("logs"))?;
        let created_at = decode_time(doc.get("created_at"))?;
        let completed_at = decode_opt_time(doc.get("completed_at"))?;
        let value = Build { id, space, status, image, logs, created_at, completed_at };
        assert(value.json_view()->Object_0 =~= Self::normal(doc@)->Object_0);
        Some(value)
    }
}

/// What starts a build.
#[derive(Debug)]
pub struct CreateBuildRequest {
    pub dockerfile: Option<String>,
    pub context: Option<String>,
}

impl Shape for CreateBuildRequest {
    open spec fn json_view(&self) -> JsonView {
        JsonView::Object(
            seq![
                ("dockerfile"@, opt_text_json(opt_view(self.dockerfile))),
                ("context"@, opt_text_json(opt_view(self.context))),
            ],
        )
    }

    open spec fn accepts(doc: JsonView) -> bool {
        &&& doc is Object
        &&& opt_text_member(doc.get("dockerfile"@)) is Some
        &&& opt_text_member(doc.get("context"@)) is Some
    }

    open spec fn normal(doc: JsonView) -> JsonView {
        JsonView::Object(
            seq![
                ("dockerfile"@, opt_text_json(opt_text_member(doc.get("dockerfile"@))->Some_0)),
                ("context"@, opt_text_json(opt_text_member(doc.get("context"@))->Some_0)),
            ],
        )
    }

    open spec fn keys() -> Seq<Seq<char>> {
        seq!["dockerfile"@, "context"@]
    }

    open spec fn verbatim(i: int) -> bool {
        0 <= i < 2
    }

    proof fn lemma_normal_keeps(doc: JsonView, i: int) {
    }

    fn to_json(&self) -> (r: Json) {
        let mut members: Vec<(String, Json)> = Vec::new();
        members.push(("dockerfile".to_owned(), encode_opt_text(&self.dockerfile)));
        members.push(("context".to_owned(), encode_opt_text(&self.context)));
        assert(member_views(members@) =~= self.json_view()->Object_0);
        Json::Object(members)
    }

    fn from_json(doc: &Json) -> (r: Option<Self>) {
        if doc.as_object().is_none() {
            return None;
        }
        let dockerfile = decode_opt_text(doc.get("dockerfile"))?;
        let context = decode_opt_text(doc.get("context"))?;
        let value = CreateBuildRequest { dockerfile, context };
        assert(value.json_view()->Object_0 =~= Self::normal(doc@)->Object_0);
        Some(value)
    }
}

/// The error that the API reports.
#[derive(Debug)]
pub struct ApiError {
    pub message: String,
}

impl Shape for ApiError {
    open spec fn json_view(&self) -> JsonView {
        JsonView::Object(
            seq![
                ("message"@, JsonView::String(self.message@)),
            ],
        )
    }

    open spec fn accepts(doc: JsonView) -> bool {
        &&& doc is Object
        &&& text_member(doc.get("message"@)) is Some
    }

    open spec fn normal(doc: JsonView) -> JsonView {
        JsonView::Object(
            seq![
                ("message"@, JsonView::String(text_member(doc.get("message"@))->Some_0)),
            ],
        )
    }

    open spec fn keys() -> Seq<Seq<char>> {
        seq!["message"@]
    }

    open spec fn verbatim(i: int) -> bool {
        0 <= i < 1
    }

    proof fn lemma_normal_keeps(doc: JsonView, i: int) {
    }

    fn to_json(&self) -> (r: Json) {
        let mut members: Vec<(String, Json)> = Vec::new();
        members.push(("message".to_owned(), Json::string(self.message.as_str())));
        assert(member_views(members@) =~= self.json_view()->Object_0);
        Json::Object(members)
    }

    fn from_json(doc: &Json) -> (r: Option<Self>) {
        if doc.as_object().is_none() {
            return None;
        }
        let message = decode_text(doc.get("message"))?;
        let value = ApiError { message };
        assert(value.json_view()->Object_0 =~= Self::normal(doc@)->Object_0);
        Some(value)
    }
}

/// The body with which the API reports an error.
#[derive(Debug)]
pub struct ApiErrorResponse {
    pub error: ApiError,
}

impl Shape for ApiErrorResponse {
    open spec fn json_view(&self) -> JsonView {
        JsonView::Object(
            seq![
                ("error"@, self.error.json_view()),
            ],
        )
    }

    open spec fn accepts(doc: JsonView) -> bool {
        &&& doc is Object
        &&& shape_member_accepts::<ApiError>(doc.get("error"@))
    }

    open spec fn normal(doc: JsonView) -> JsonView {
        JsonView::Object(
            seq![
                ("error"@, ApiError::normal(doc.get("error"@)->Some_0)),
            ],
        )
    }

    open spec fn keys() -> Seq<Seq<char>> {
        seq!["error"@]
    }

    open spec fn verbatim(i: int) -> bool {
        false
    }

    proof fn lemma_normal_keeps(doc: JsonView, i: int) {
        ApiError::lemma_normal_keeps(doc.get("error"@)->Some_0, 0);
    }

    fn to_json(&self) -> (r: Json) {
        let mut members: Vec<(String, Json)> = Vec::new();
        members.push(("error".to_owned(), self.error.to_json()));
        assert(member_views(members@) =~= self.json_view()->Object_0);
        Json::Object(members)
    }

    fn from_json(doc: &Json) -> (r: Option<Self>) {
        if doc.as_object().is_none() {
            return None;
        }
        let error = decode_shape::<ApiError>(doc.get("error"))?;
        let value = ApiErrorResponse { error };
        assert(value.json_view()->Object_0 =~= Self::normal(doc@)->Object_0);
        Some(value)
    }
}

/// The address of an image in a tool result.
#[derive(Debug)]
pub struct ImageUrl {
    pub url: String,
    pub detail: Option<String>,
}

impl Shape for ImageUrl {
    open spec fn json_view(&self) -> JsonView {
        JsonView::Object(
            seq![
                ("url"@, JsonView::String(self.url@)),
                ("detail"@, opt_text_json(opt_view(self.detail))),
            ],
        )
    }

    open spec fn accepts(doc: JsonView) -> bool {
        &&& doc is Object
        &&& text_member(doc.get("url"@)) is Some
        &&& opt_text_member(doc.get("detail"@)) is Some
    }

    open spec fn normal(doc: JsonView) -> JsonView {
        JsonView::Object(
            seq![
                ("url"@, JsonView::String(text_member(doc.get("url"@))->Some_0)),
                ("detail"@, opt_text_json(opt_text_member(doc.get("detail"@))->Some_0)),
            ],
        )
    }

    open spec fn keys() -> Seq<Seq<char>> {
        seq!["url"@, "detail"@]
    }

    open spec fn verbatim(i: int) -> bool {
        0 <= i < 2
    }

    proof fn lemma_normal_keeps(doc: JsonView, i: int) {
    }

    fn to_json(&self) -> (r: Json) {
        let mut members: Vec<(String, Json)> = Vec::new();
        members.push(("url".to_owned(), Json::string(self.url.as_str())));
        members.push(("detail".to_owned(), encode_opt_text(&self.detail)));
        assert(member_views(members@) =~= self.json_view()->Object_0);
        Json::Object(members)
    }

    fn from_json(doc: &Json) -> (r: Option<Self>) {
        if doc.as_object().is_none() {
            return None;
        }
        let url = decode_text(doc.get("url"))?;
        let detail = decode_opt_text(doc.get("detail"))?;
        let value = ImageUrl { url, detail };
        assert(value.json_view()->Object_0 =~= Self::normal(doc@)->Object_0);
        Some(value)
    }
}

/// One item of a tool result.
#[derive(Debug)]
pub struct ToolCallContent {
    pub content_type: String,
    pub text: Option<String>,
    pub image_url: Option<ImageUrl>,
}

impl Shape for ToolCallContent {
    open spec fn json_view(&self) -> JsonView {
        JsonView::Object(
            seq![
                ("type"@, JsonView::String(self.content_type@)),
                ("text"@, opt_text_json(opt_view(self.text))),
                ("image_url"@, opt_shape_json(self.image_url)),
            ],
        )
    }

    open spec fn accepts(doc: JsonView) -> bool {
        &&& doc is Object
        &&& text_member(doc.get("type"@)) is Some
        &&& opt_text_member(doc.get("text"@)) is Some
        &&& opt_shape_accepts::<ImageUrl>(doc.get("image_url"@))
    }

    open spec fn normal(doc: JsonView) -> JsonView {
        JsonView::Object(
            seq![
                ("type"@, JsonView::String(text_member(doc.get("type"@))->Some_0)),
                ("text"@, opt_text_json(opt_text_member(doc.get("text"@))->Some_0)),
                ("image_url"@, opt_shape_normal::<ImageUrl>(doc.get("image_url"@))),
            ],
        )
    }

    open spec fn keys() -> Seq<Seq<char>> {
        seq!["type"@, "text"@, "image_url"@]
    }

    open spec fn verbatim(i: int) -> bool {
        i == 0 || i == 1
    }

    proof fn lemma_normal_keeps(doc: JsonView, i: int) {
        if !is_absent(doc.get("image_url"@)) {
            ImageUrl::lemma_normal_keeps(doc.get("image_url"@)->Some_0, 0);
        }
    }

    fn to_json(&self) -> (r: Json) {
        let mut members: Vec<(String, Json)> = Vec::new();
        members.push(("type".to_owned(), Json::string(self.content_type.as_str())));
        members.push(("text".to_owned(), encode_opt_text(&self.text)));
        members.push(("image_url".to_owned(), encode_opt_shape(&self.image_url)));
        assert(member_views(members@) =~= self.json_view()->Object_0);
        Json::Object(members)
    }

    fn from_json(doc: &Json) -> (r: Option<Self>) {
        if doc.as_object().is_none() {
            return None;
        }
        let content_type = decode_text(doc.get("type"))?;
        let text = decode_opt_text(doc.get("text"))?;
        let image_url = decode_opt_shape::<ImageUrl>(doc.get("image_url"))?;
        let value = ToolCallContent { content_type, text, image_url };
        assert(value.json_view()->Object_0 =~= Self::normal(doc@)->Object_0);
        Some(value)
    }
}

/// The result of a tool call.
#[derive(Debug)]
pub struct ToolCallResponse {
    pub content: Vec<ToolCallContent>,
}

impl Shape for ToolCallResponse {
    open spec fn json_view(&self) -> JsonView {
        JsonView::Object(
            seq![
                ("content"@, list_json(self.content@)),
            ],
        )
    }

    open spec fn accepts(doc: JsonView) -> bool {
        &&& doc is Object
        &&& list_member_accepts::<ToolCallContent>(doc.get("content"@))
    }

    open spec fn normal(doc: JsonView) -> JsonView {
        JsonView::Object(
            seq![
                ("content"@, list_normal::<ToolCallContent>(doc.get("content"@)->Some_0)),
            ],
        )
    }

    open spec fn keys() -> Seq<Seq<char>> {
        seq!["content"@]
    }

    open spec fn verbatim(i: int) -> bool {
        false
    }

    proof fn lemma_normal_keeps(doc: JsonView, i: int) {
    }

    fn to_json(&self) -> (r: Json) {
        let mut members: Vec<(String, Json)> = Vec::new();
        members.push(("content".to_owned(), list_to_json(&self.content)));
        assert(member_views(members@) =~= self.json_view()->Object_0);
        Json::Object(members)
    }

    fn from_json(doc: &Json) -> (r: Option<Self>) {
        if doc.as_object().is_none() {
            return None;
        }
        let content = decode_list::<ToolCallContent>(doc.get("content"))?;
        let value = ToolCallResponse { content };
        assert(value.json_view()->Object_0 =~= Self::normal(doc@)->Object_0);
        Some(value)
    }
}

/// A tool call.
#[derive(Debug)]
pub struct ToolCallRequest {
    pub name: String,
    pub arguments: Json,
}

impl Shape for ToolCallRequest {
    open spec fn json_view(&self) -> JsonView {
        JsonView::Object(
            seq![
                ("name"@, JsonView::String(self.name@)),
                ("arguments"@, self.arguments@),
            ],
        )
    }

    open spec fn accepts(doc: JsonView) -> bool {
        &&& doc is Object
        &&& text_member(doc.get("name"@)) is Some
        &&& doc.get("arguments"@) is Some
    }

    open spec fn normal(doc: JsonView) -> JsonView {
        JsonView::Object(
            seq![
                ("name"@, JsonView::String(text_member(doc.get("name"@))->Some_0)),
                ("arguments"@, doc.get("arguments"@)->Some_0),
            ],
        )
    }

    open spec fn keys() -> Seq<Seq<char>> {
        seq!["name"@, "arguments"@]
    }

    open spec fn verbatim(i: int) -> bool {
        0 <= i < 2
    }

    proof fn lemma_normal_keeps(doc: JsonView, i: int) {
    }

    fn to_json(&self) -> (r: Json) {
        let mut members: Vec<(String, Json)> = Vec::new();
        members.push(("name".to_owned(), Json::string(self.name.as_str())));
        members.push(("arguments".to_owned(), self.arguments.duplicate()));
        assert(member_views(members@) =~= self.json_view()->Object_0);
        Json::Object(members)
    }

    fn from_json(doc: &Json) -> (r: Option<Self>) {
        if doc.as_object().is_none() {
            return None;
        }
        let name = decode_text(doc.get("name"))?;
        let arguments = decode_any(doc.get("arguments"))?;
        let value = ToolCallRequest { name, arguments };
        assert(value.json_view()->Object_0 =~= Self::normal(doc@)->Object_0);
        Some(value)
    }
}

} // verus!
