//! The operations of the API, one call each.

use crate::client::{
    auth_json, space_scoped_path, with_limit, ApiCall, CallView, ClientView, Expect, HttpMethod,
    RaworcClient,
};
use crate::json::{member_views, opt_str_view, Json, JsonView};
use crate::models::{
    AuthRequest, CreateAgentRequest, CreateBuildRequest, CreateMessageRequest,
    CreateRoleBindingRequest, CreateRoleRequest, CreateSecretRequest,
    CreateServiceAccountRequest, CreateSessionRequest, CreateSpaceRequest, SessionState,
    UpdateAgentRequest, UpdateAgentStatusRequest, UpdatePasswordRequest, UpdateSecretRequest,
    UpdateServiceAccountRequest, UpdateSessionRequest, UpdateSessionStateRequest,
    UpdateSpaceRequest,
};
use crate::shape::{opt_members_view, opt_object_json, Shape};
use vstd::prelude::*;
use vstd::string::*;

verus! {


/// The call of [`RaworcClient::authenticate`].
pub open spec fn authenticate_call(
    client: ClientView,
    username: Seq<char>,
    password: Seq<char>,
) -> CallView {
    CallView {
        method: HttpMethod::Post,
        path: "auth/login"@,
        body: Some(auth_json(username, password)),
        expect: Expect::Token,
    }
}

/// The call of [`RaworcClient::get_user_info`].
pub open spec fn get_user_info_call(client: ClientView) -> CallView {
    CallView {
        method: HttpMethod::Get,
        path: "auth/me"@,
        body: None,
        expect: Expect::UserInfo,
    }
}

/// The call of [`RaworcClient::health_check`].
pub open spec fn health_check_call(client: ClientView) -> CallView {
    CallView {
        method: HttpMethod::Get,
        path: "health"@,
        body: None,
        expect: Expect::Health,
    }
}

/// The call of [`RaworcClient::get_version`].
pub open spec fn get_version_call(client: ClientView) -> CallView {
    CallView {
        method: HttpMethod::Get,
        path: "version"@,
        body: None,
        expect: Expect::Version,
    }
}

/// The call of [`RaworcClient::list_spaces`].
pub open spec fn list_spaces_call(client: ClientView) -> CallView {
    CallView {
        method: HttpMethod::Get,
        path: "spaces"@,
        body: None,
        expect: Expect::Spaces,
    }
}

/// The call of [`RaworcClient::create_space`].
pub open spec fn create_space_call(client: ClientView, request: JsonView) -> CallView {
    CallView {
        method: HttpMethod::Post,
        path: "spaces"@,
        body: Some(request),
        expect: Expect::Space,
    }
}

/// The call of [`RaworcClient::get_space`].
pub open spec fn get_space_call(client: ClientView, name: Seq<char>) -> CallView {
    CallView {
        method: HttpMethod::Get,
        path: "spaces/"@ + name,
        body: None,
        expect: Expect::Space,
    }
}

/// The call of [`RaworcClient::update_space`].
pub open spec fn update_space_call(
    client: ClientView,
    name: Seq<char>,
    request: JsonView,
) -> CallView {
    CallView {
        method: HttpMethod::Put,
        path: "spaces/"@ + name,
        body: Some(request),
        expect: Expect::Space,
    }
}

/// The call of [`RaworcClient::delete_space`].
pub open spec fn delete_space_call(client: ClientView, name: Seq<char>) -> CallView {
    CallView {
        method: HttpMethod::Delete,
        path: "spaces/"@ + name,
        body: None,
        expect: Expect::Ignored,
    }
}

/// The call of [`RaworcClient::list_sessions`].
pub open spec fn list_sessions_call(client: ClientView, space: Option<Seq<char>>) -> CallView {
    CallView {
        method: HttpMethod::Get,
        path: space_scoped_path(client.default_space, space, "/sessions"@),
        body: None,
        expect: Expect::Sessions,
    }
}

/// The call of [`RaworcClient::create_session`].
pub open spec fn create_session_call(
    client: ClientView,
    space: Option<Seq<char>>,
    metadata: Option<Seq<(Seq<char>, JsonView)>>,
) -> CallView {
    CallView {
        method: HttpMethod::Post,
        path: space_scoped_path(client.default_space, space, "/sessions"@),
        body: Some(
            JsonView::Object(
                seq![("space"@, JsonView::Null), ("metadata"@, opt_object_json(metadata))],
            ),
        ),
        expect: Expect::Session,
    }
}

/// The call of [`RaworcClient::get_session`].
pub open spec fn get_session_call(
    client: ClientView,
    space: Option<Seq<char>>,
    session_id: Seq<char>,
) -> CallView {
    CallView {
        method: HttpMethod::Get,
        path: space_scoped_path(client.default_space, space, "/sessions/"@ + session_id),
        body: None,
        expect: Expect::Session,
    }
}

/// The call of [`RaworcClient::update_session`].
pub open spec fn update_session_call(
    client: ClientView,
    space: Option<Seq<char>>,
    session_id: Seq<char>,
    request: JsonView,
) -> CallView {
    CallView {
        method: HttpMethod::Put,
        path: space_scoped_path(client.default_space, space, "/sessions/"@ + session_id),
        body: Some(request),
        expect: Expect::Session,
    }
}

/// The call of [`RaworcClient::update_session_state`].
pub open spec fn update_session_state_call(
    client: ClientView,
    space: Option<Seq<char>>,
    session_id: Seq<char>,
    state: SessionState,
) -> CallView {
    CallView {
        method: HttpMethod::Put,
        path: space_scoped_path(
            client.default_space,
            space,
            "/sessions/"@ + session_id + "/state"@,
        ),
        body: Some(
            JsonView::Object(seq![("state"@, JsonView::String(state.literal()))]),
        ),
        expect: Expect::Nothing,
    }
}

/// The call of [`RaworcClient::pause_session`].
pub open spec fn pause_session_call(
    client: ClientView,
    space: Option<Seq<char>>,
    session_id: Seq<char>,
) -> CallView {
    CallView {
        method: HttpMethod::Post,
        path: space_scoped_path(
            client.default_space,
            space,
            "/sessions/"@ + session_id + "/pause"@,
        ),
        body: Some(JsonView::Null),
        expect: Expect::Nothing,
    }
}

/// The call of [`RaworcClient::resume_session`].
pub open spec fn resume_session_call(
    client: ClientView,
    space: Option<Seq<char>>,
    session_id: Seq<char>,
) -> CallView {
    CallView {
        method: HttpMethod::Post,
        path: space_scoped_path(
            client.default_space,
            space,
            "/sessions/"@ + session_id + "/resume"@,
        ),
        body: Some(JsonView::Null),
        expect: Expect::Nothing,
    }
}

/// The call of [`RaworcClient::terminate_session`].
pub open spec fn terminate_session_call(
    client: ClientView,
    space: Option<Seq<char>>,
    session_id: Seq<char>,
) -> CallView {
    CallView {
        method: HttpMethod::Delete,
        path: space_scoped_path(client.default_space, space, "/sessions/"@ + session_id),
        body: None,
        expect: Expect::Ignored,
    }
}

/// The call of [`RaworcClient::get_messages`].
pub open spec fn get_messages_call(
    client: ClientView,
    space: Option<Seq<char>>,
    session_id: Seq<char>,
    limit: Option<u64>,
) -> CallView {
    CallView {
        method: HttpMethod::Get,
        path: with_limit(
            space_scoped_path(
                client.default_space,
                space,
                "/sessions/"@ + session_id + "/messages"@,
            ),
            limit,
        ),
        body: None,
        expect: Expect::Messages,
    }
}

/// The call of [`RaworcClient::send_message`].
pub open spec fn send_message_call(
    client: ClientView,
    space: Option<Seq<char>>,
    session_id: Seq<char>,
    content: Seq<char>,
) -> CallView {
    CallView {
        method: HttpMethod::Post,
        path: space_scoped_path(
            client.default_space,
            space,
            "/sessions/"@ + session_id + "/messages"@,
        ),
        body: Some(JsonView::Object(seq![("content"@, JsonView::String(content))])),
        expect: Expect::Message,
    }
}

/// The call of [`RaworcClient::get_message_count`].
pub open spec fn get_message_count_call(
    client: ClientView,
    space: Option<Seq<char>>,
    session_id: Seq<char>,
) -> CallView {
    CallView {
        method: HttpMethod::Get,
        path: space_scoped_path(
            client.default_space,
            space,
            "/sessions/"@ + session_id + "/messages/count"@,
        ),
        body: None,
        expect: Expect::MessageCount,
    }
}

/// The call of [`RaworcClient::clear_messages`].
pub open spec fn clear_messages_call(
    client: ClientView,
    space: Option<Seq<char>>,
    session_id: Seq<char>,
) -> CallView {
    CallView {
        method: HttpMethod::Delete,
        path: space_scoped_path(
            client.default_space,
            space,
            "/sessions/"@ + session_id + "/messages"@,
        ),
        body: None,
        expect: Expect::Ignored,
    }
}

/// The call of [`RaworcClient::list_all_sessions`].
pub open spec fn list_all_sessions_call(client: ClientView) -> CallView {
    CallView {
        method: HttpMethod::Get,
        path: "sessions"@,
        body: None,
        expect: Expect::Sessions,
    }
}

/// The call of [`RaworcClient::create_global_session`].
pub open spec fn create_global_session_call(client: ClientView, request: JsonView) -> CallView {
    CallView {
        method: HttpMethod::Post,
        path: "sessions"@,
        body: Some(request),
        expect: Expect::Session,
    }
}

/// The call of [`RaworcClient::get_global_session`].
pub open spec fn get_global_session_call(client: ClientView, session_id: Seq<char>) -> CallView {
    CallView {
        method: HttpMethod::Get,
        path: "sessions/"@ + session_id,
        body: None,
        expect: Expect::Session,
    }
}

/// The call of [`RaworcClient::update_global_session`].
pub open spec fn update_global_session_call(
    client: ClientView,
    session_id: Seq<char>,
    request: JsonView,
) -> CallView {
    CallView {
        method: HttpMethod::Put,
        path: "sessions/"@ + session_id,
        body: Some(request),
        expect: Expect::Session,
    }
}

/// The call of [`RaworcClient::update_global_session_state`].
pub open spec fn update_global_session_state_call(
    client: ClientView,
    session_id: Seq<char>,
    request: JsonView,
) -> CallView {
    CallView {
        method: HttpMethod::Put,
        path: "sessions/"@ + session_id + "/state"@,
        body: Some(request),
        expect: Expect::Nothing,
    }
}

/// The call of [`RaworcClient::close_session`].
pub open spec fn close_session_call(client: ClientView, session_id: Seq<char>) -> CallView {
    CallView {
        method: HttpMethod::Post,
        path: "sessions/"@ + session_id + "/close"@,
        body: Some(JsonView::Null),
        expect: Expect::Nothing,
    }
}

/// The call of [`RaworcClient::restore_session`].
pub open spec fn restore_session_call(client: ClientView, session_id: Seq<char>) -> CallView {
    CallView {
        method: HttpMethod::Post,
        path: "sessions/"@ + session_id + "/restore"@,
        body: Some(JsonView::Null),
        expect: Expect::Nothing,
    }
}

/// The call of [`RaworcClient::remix_session`].
pub open spec fn remix_session_call(
    client: ClientView,
    session_id: Seq<char>,
    request: JsonView,
) -> CallView {
    CallView {
        method: HttpMethod::Post,
        path: "sessions/"@ + session_id + "/remix"@,
        body: Some(request),
        expect: Expect::Session,
    }
}

/// The call of [`RaworcClient::delete_global_session`].
pub open spec fn delete_global_session_call(client: ClientView, session_id: Seq<char>) -> CallView {
    CallView {
        method: HttpMethod::Delete,
        path: "sessions/"@ + session_id,
        body: None,
        expect: Expect::Ignored,
    }
}

/// The call of [`RaworcClient::get_global_messages`].
pub open spec fn get_global_messages_call(
    client: ClientView,
    session_id: Seq<char>,
    limit: Option<u64>,
) -> CallView {
    CallView {
        method: HttpMethod::Get,
        path: with_limit("sessions/"@ + session_id + "/messages"@, limit),
        body: None,
        expect: Expect::Messages,
    }
}

/// The call of [`RaworcClient::send_global_message`].
pub open spec fn send_global_message_call(
    client: ClientView,
    session_id: Seq<char>,
    request: JsonView,
) -> CallView {
    CallView {
        method: HttpMethod::Post,
        path: "sessions/"@ + session_id + "/messages"@,
        body: Some(request),
        expect: Expect::Message,
    }
}

/// The call of [`RaworcClient::get_global_message_count`].
pub open spec fn get_global_message_count_call(
    client: ClientView,
    session_id: Seq<char>,
) -> CallView {
    CallView {
        method: HttpMethod::Get,
        path: "sessions/"@ + session_id + "/messages/count"@,
        body: None,
        expect: Expect::MessageCount,
    }
}

/// The call of [`RaworcClient::clear_global_messages`].
pub open spec fn clear_global_messages_call(client: ClientView, session_id: Seq<char>) -> CallView {
    CallView {
        method: HttpMethod::Delete,
        path: "sessions/"@ + session_id + "/messages"@,
        body: None,
        expect: Expect::Ignored,
    }
}

/// The call of [`RaworcClient::list_agents`].
pub open spec fn list_agents_call(client: ClientView, space: Option<Seq<char>>) -> CallView {
    CallView {
        method: HttpMethod::Get,
        path: space_scoped_path(client.default_space, space, "/agents"@),
        body: None,
        expect: Expect::Agents,
    }
}

/// The call of [`RaworcClient::create_agent`].
pub open spec fn create_agent_call(
    client: ClientView,
    space: Seq<char>,
    request: JsonView,
) -> CallView {
    CallView {
        method: HttpMethod::Post,
        path: "spaces/"@ + space + "/agents"@,
        body: Some(request),
        expect: Expect::Agent,
    }
}

/// The call of [`RaworcClient::get_agent`].
pub open spec fn get_agent_call(
    client: ClientView,
    space: Seq<char>,
    agent_name: Seq<char>,
) -> CallView {
    CallView {
        method: HttpMethod::Get,
        path: "spaces/"@ + space + "/agents/"@ + agent_name,
        body: None,
        expect: Expect::Agent,
    }
}

/// The call of [`RaworcClient::update_agent`].
pub open spec fn update_agent_call(
    client: ClientView,
    space: Seq<char>,
    agent_name: Seq<char>,
    request: JsonView,
) -> CallView {
    CallView {
        method: HttpMethod::Put,
        path: "spaces/"@ + space + "/agents/"@ + agent_name,
        body: Some(request),
        expect: Expect::Agent,
    }
}

/// The call of [`RaworcClient::delete_agent`].
pub open spec fn delete_agent_call(
    client: ClientView,
    space: Seq<char>,
    agent_name: Seq<char>,
) -> CallView {
    CallView {
        method: HttpMethod::Delete,
        path: "spaces/"@ + space + "/agents/"@ + agent_name,
        body: None,
        expect: Expect::Ignored,
    }
}

/// The call of [`RaworcClient::update_agent_status`].
pub open spec fn update_agent_status_call(
    client: ClientView,
    space: Seq<char>,
    agent_name: Seq<char>,
    request: JsonView,
) -> CallView {
    CallView {
        method: HttpMethod::Patch,
        path: "spaces/"@ + space + "/agents/"@ + agent_name + "/status"@,
        body: Some(request),
        expect: Expect::Nothing,
    }
}

/// The call of [`RaworcClient::deploy_agent`].
pub open spec fn deploy_agent_call(
    client: ClientView,
    space: Seq<char>,
    agent_name: Seq<char>,
) -> CallView {
    CallView {
        method: HttpMethod::Post,
        path: "spaces/"@ + space + "/agents/"@ + agent_name + "/deploy"@,
        body: Some(JsonView::Null),
        expect: Expect::Nothing,
    }
}

/// The call of [`RaworcClient::stop_agent`].
pub open spec fn stop_agent_call(
    client: ClientView,
    space: Seq<char>,
    agent_name: Seq<char>,
) -> CallView {
    CallView {
        method: HttpMethod::Post,
        path: "spaces/"@ + space + "/agents/"@ + agent_name + "/stop"@,
        body: Some(JsonView::Null),
        expect: Expect::Nothing,
    }
}

/// The call of [`RaworcClient::list_running_agents`].
pub open spec fn list_running_agents_call(client: ClientView, space: Seq<char>) -> CallView {
    CallView {
        method: HttpMethod::Get,
        path: "spaces/"@ + space + "/agents/running"@,
        body: None,
        expect: Expect::Agents,
    }
}

/// The call of [`RaworcClient::get_agent_logs`].
pub open spec fn get_agent_logs_call(
    client: ClientView,
    space: Seq<char>,
    agent_name: Seq<char>,
) -> CallView {
    CallView {
        method: HttpMethod::Get,
        path: "spaces/"@ + space + "/agents/"@ + agent_name + "/logs"@,
        body: None,
        expect: Expect::Text,
    }
}

/// The call of [`RaworcClient::list_secrets`].
pub open spec fn list_secrets_call(client: ClientView, space: Option<Seq<char>>) -> CallView {
    CallView {
        method: HttpMethod::Get,
        path: space_scoped_path(client.default_space, space, "/secrets"@),
        body: None,
        expect: Expect::Secrets,
    }
}

/// The call of [`RaworcClient::create_secret`].
pub open spec fn create_secret_call(
    client: ClientView,
    space: Seq<char>,
    request: JsonView,
) -> CallView {
    CallView {
        method: HttpMethod::Post,
        path: "spaces/"@ + space + "/secrets"@,
        body: Some(request),
        expect: Expect::Secret,
    }
}

/// The call of [`RaworcClient::get_secret`].
pub open spec fn get_secret_call(client: ClientView, space: Seq<char>, key: Seq<char>) -> CallView {
    CallView {
        method: HttpMethod::Get,
        path: "spaces/"@ + space + "/secrets/"@ + key,
        body: None,
        expect: Expect::Secret,
    }
}

/// The call of [`RaworcClient::set_secret`].
pub open spec fn set_secret_call(
    client: ClientView,
    space: Seq<char>,
    key: Seq<char>,
    value: Seq<char>,
) -> CallView {
    CallView {
        method: HttpMethod::Post,
        path: "spaces/"@ + space + "/secrets/"@ + key,
        body: Some(JsonView::Object(seq![("value"@, JsonView::String(value))])),
        expect: Expect::Secret,
    }
}

/// The call of [`RaworcClient::update_secret`].
pub open spec fn update_secret_call(
    client: ClientView,
    space: Seq<char>,
    key: Seq<char>,
    request: JsonView,
) -> CallView {
    CallView {
        method: HttpMethod::Put,
        path: "spaces/"@ + space + "/secrets/"@ + key,
        body: Some(request),
        expect: Expect::Secret,
    }
}

/// The call of [`RaworcClient::delete_secret`].
pub open spec fn delete_secret_call(
    client: ClientView,
    space: Seq<char>,
    key: Seq<char>,
) -> CallView {
    CallView {
        method: HttpMethod::Delete,
        path: "spaces/"@ + space + "/secrets/"@ + key,
        body: None,
        expect: Expect::Ignored,
    }
}

/// The call of [`RaworcClient::create_build`].
pub open spec fn create_build_call(
    client: ClientView,
    space: Seq<char>,
    request: JsonView,
) -> CallView {
    CallView {
        method: HttpMethod::Post,
        path: "spaces/"@ + space + "/build"@,
        body: Some(request),
        expect: Expect::Build,
    }
}

/// The call of [`RaworcClient::get_latest_build`].
pub open spec fn get_latest_build_call(client: ClientView, space: Seq<char>) -> CallView {
    CallView {
        method: HttpMethod::Get,
        path: "spaces/"@ + space + "/build/latest"@,
        body: None,
        expect: Expect::Build,
    }
}

/// The call of [`RaworcClient::get_build`].
pub open spec fn get_build_call(
    client: ClientView,
    space: Seq<char>,
    build_id: Seq<char>,
) -> CallView {
    CallView {
        method: HttpMethod::Get,
        path: "spaces/"@ + space + "/build/"@ + build_id,
        body: None,
        expect: Expect::Build,
    }
}

/// The call of [`RaworcClient::list_service_accounts`].
pub open spec fn list_service_accounts_call(client: ClientView) -> CallView {
    CallView {
        method: HttpMethod::Get,
        path: "service-accounts"@,
        body: None,
        expect: Expect::ServiceAccounts,
    }
}

/// The call of [`RaworcClient::create_service_account`].
pub open spec fn create_service_account_call(client: ClientView, request: JsonView) -> CallView {
    CallView {
        method: HttpMethod::Post,
        path: "service-accounts"@,
        body: Some(request),
        expect: Expect::ServiceAccount,
    }
}

/// The call of [`RaworcClient::get_service_account`].
pub open spec fn get_service_account_call(client: ClientView, id: Seq<char>) -> CallView {
    CallView {
        method: HttpMethod::Get,
        path: "service-accounts/"@ + id,
        body: None,
        expect: Expect::ServiceAccount,
    }
}

/// The call of [`RaworcClient::update_service_account`].
pub open spec fn update_service_account_call(
    client: ClientView,
    id: Seq<char>,
    request: JsonView,
) -> CallView {
    CallView {
        method: HttpMethod::Put,
        path: "service-accounts/"@ + id,
        body: Some(request),
        expect: Expect::ServiceAccount,
    }
}

/// The call of [`RaworcClient::delete_service_account`].
pub open spec fn delete_service_account_call(client: ClientView, id: Seq<char>) -> CallView {
    CallView {
        method: HttpMethod::Delete,
        path: "service-accounts/"@ + id,
        body: None,
        expect: Expect::Ignored,
    }
}

/// The call of [`RaworcClient::update_service_account_password`].
pub open spec fn update_service_account_password_call(
    client: ClientView,
    id: Seq<char>,
    request: JsonView,
) -> CallView {
    CallView {
        method: HttpMethod::Put,
        path: "service-accounts/"@ + id + "/password"@,
        body: Some(request),
        expect: Expect::Nothing,
    }
}

/// The call of [`RaworcClient::list_roles`].
pub open spec fn list_roles_call(client: ClientView) -> CallView {
    CallView {
        method: HttpMethod::Get,
        path: "roles"@,
        body: None,
        expect: Expect::Roles,
    }
}

/// The call of [`RaworcClient::create_role`].
pub open spec fn create_role_call(client: ClientView, request: JsonView) -> CallView {
    CallView {
        method: HttpMethod::Post,
        path: "roles"@,
        body: Some(request),
        expect: Expect::Role,
    }
}

/// The call of [`RaworcClient::get_role`].
pub open spec fn get_role_call(client: ClientView, id: Seq<char>) -> CallView {
    CallView {
        method: HttpMethod::Get,
        path: "roles/"@ + id,
        body: None,
        expect: Expect::Role,
    }
}

/// The call of [`RaworcClient::delete_role`].
pub open spec fn delete_role_call(client: ClientView, id: Seq<char>) -> CallView {
    CallView {
        method: HttpMethod::Delete,
        path: "roles/"@ + id,
        body: None,
        expect: Expect::Ignored,
    }
}

/// The call of [`RaworcClient::list_role_bindings`].
pub open spec fn list_role_bindings_call(client: ClientView) -> CallView {
    CallView {
        method: HttpMethod::Get,
        path: "role-bindings"@,
        body: None,
        expect: Expect::RoleBindings,
    }
}

/// The call of [`RaworcClient::create_role_binding`].
pub open spec fn create_role_binding_call(client: ClientView, request: JsonView) -> CallView {
    CallView {
        method: HttpMethod::Post,
        path: "role-bindings"@,
        body: Some(request),
        expect: Expect::RoleBinding,
    }
}

/// The call of [`RaworcClient::get_role_binding`].
pub open spec fn get_role_binding_call(client: ClientView, id: Seq<char>) -> CallView {
    CallView {
        method: HttpMethod::Get,
        path: "role-bindings/"@ + id,
        body: None,
        expect: Expect::RoleBinding,
    }
}

/// The call of [`RaworcClient::delete_role_binding`].
pub open spec fn delete_role_binding_call(client: ClientView, id: Seq<char>) -> CallView {
    CallView {
        method: HttpMethod::Delete,
        path: "role-bindings/"@ + id,
        body: None,
        expect: Expect::Ignored,
    }
}

impl RaworcClient {
    /// Logs in with a user name and a password; the token of the answer becomes the bearer token.
    pub fn authenticate(&self, username: &str, password: &str) -> (r: ApiCall)
        ensures
            r@ == authenticate_call(self@, username@, password@),
    {
        let mut path = String::from_str("auth/login");
        let request = AuthRequest {
            user: username.to_owned(),
            pass: password.to_owned(),
        };
        ApiCall {
            method: HttpMethod::Post,
            path,
            body: Some(request.to_json()),
            expect: Expect::Token,
        }
    }

    /// Who the bearer token stands for.
    pub fn get_user_info(&self) -> (r: ApiCall)
        ensures
            r@ == get_user_info_call(self@),
    {
        let mut path = String::from_str("auth/me");
        ApiCall { method: HttpMethod::Get, path, body: None, expect: Expect::UserInfo }
    }

    /// Whether the API is up. Sent without headers; whatever comes back is the answer.
    pub fn health_check(&self) -> (r: ApiCall)
        ensures
            r@ == health_check_call(self@),
    {
        let mut path = String::from_str("health");
        ApiCall { method: HttpMethod::Get, path, body: None, expect: Expect::Health }
    }

    /// The version of the API.
    pub fn get_version(&self) -> (r: ApiCall)
        ensures
            r@ == get_version_call(self@),
    {
        let mut path = String::from_str("version");
        ApiCall { method: HttpMethod::Get, path, body: None, expect: Expect::Version }
    }

    /// All spaces.
    pub fn list_spaces(&self) -> (r: ApiCall)
        ensures
            r@ == list_spaces_call(self@),
    {
        let mut path = String::from_str("spaces");
        ApiCall { method: HttpMethod::Get, path, body: None, expect: Expect::Spaces }
    }

    /// Creates a space.
    pub fn create_space(&self, request: &CreateSpaceRequest) -> (r: ApiCall)
        ensures
            r@ == create_space_call(self@, request.json_view()),
    {
        let mut path = String::from_str("spaces");
        ApiCall {
            method: HttpMethod::Post,
            path,
            body: Some(request.to_json()),
            expect: Expect::Space,
        }
    }

    /// One space.
    pub fn get_space(&self, name: &str) -> (r: ApiCall)
        ensures
            r@ == get_space_call(self@, name@),
    {
        let mut path = String::from_str("spaces/");
        path.append(name);
        ApiCall { method: HttpMethod::Get, path, body: None, expect: Expect::Space }
    }

    /// Changes a space.
    pub fn update_space(&self, name: &str, request: &UpdateSpaceRequest) -> (r: ApiCall)
        ensures
            r@ == update_space_call(self@, name@, request.json_view()),
    {
        let mut path = String::from_str("spaces/");
        path.append(name);
        ApiCall {
            method: HttpMethod::Put,
            path,
            body: Some(request.to_json()),
            expect: Expect::Space,
        }
    }

    /// Deletes a space.
    pub fn delete_space(&self, name: &str) -> (r: ApiCall)
        ensures
            r@ == delete_space_call(self@, name@),
    {
        let mut path = String::from_str("spaces/");
        path.append(name);
        ApiCall { method: HttpMethod::Delete, path, body: None, expect: Expect::Ignored }
    }

    /// The sessions of a space.
    pub fn list_sessions(&self, space: Option<&str>) -> (r: ApiCall)
        ensures
            r@ == list_sessions_call(self@, opt_str_view(space)),
    {
        let mut path = String::from_str("spaces/");
        path.append(self.space(space));
        path.append("/sessions");
        assert(path@ =~= space_scoped_path(self@.default_space, opt_str_view(space), "/sessions"@));
        ApiCall { method: HttpMethod::Get, path, body: None, expect: Expect::Sessions }
    }

    /// Creates a session in a space. The space is named by the path, not by the body.
    pub fn create_session(
        &self,
        space: Option<&str>,
        metadata: Option<Vec<(String, Json)>>,
    ) -> (r: ApiCall)
        ensures
            r@ == create_session_call(self@, opt_str_view(space), opt_members_view(metadata)),
    {
        let mut path = String::from_str("spaces/");
        path.append(self.space(space));
        path.append("/sessions");
        assert(path@ =~= space_scoped_path(self@.default_space, opt_str_view(space), "/sessions"@));
        let request = CreateSessionRequest { space: None, metadata };
        ApiCall {
            method: HttpMethod::Post,
            path,
            body: Some(request.to_json()),
            expect: Expect::Session,
        }
    }

    /// One session of a space.
    pub fn get_session(&self, space: Option<&str>, session_id: &str) -> (r: ApiCall)
        ensures
            r@ == get_session_call(self@, opt_str_view(space), session_id@),
    {
        let mut path = String::from_str("spaces/");
        path.append(self.space(space));
        path.append("/sessions/");
        path.append(session_id);
        assert(path@ =~= space_scoped_path(
            self@.default_space,
            opt_str_view(space),
            "/sessions/"@ + session_id@,
        ));
        ApiCall { method: HttpMethod::Get, path, body: None, expect: Expect::Session }
    }

    /// Changes a session of a space.
    pub fn update_session(
        &self,
        space: Option<&str>,
        session_id: &str,
        request: &UpdateSessionRequest,
    ) -> (r: ApiCall)
        ensures
            r@ == update_session_call(self@, opt_str_view(space), session_id@, request.json_view()),
    {
        let mut path = String::from_str("spaces/");
        path.append(self.space(space));
        path.append("/sessions/");
        path.append(session_id);
        assert(path@ =~= space_scoped_path(
            self@.default_space,
            opt_str_view(space),
            "/sessions/"@ + session_id@,
        ));
        ApiCall {
            method: HttpMethod::Put,
            path,
            body: Some(request.to_json()),
            expect: Expect::Session,
        }
    }

    /// Sets the state of a session of a space.
    pub fn update_session_state(
        &self,
        space: Option<&str>,
        session_id: &str,
        state: SessionState,
    ) -> (r: ApiCall)
        ensures
            r@ == update_session_state_call(self@, opt_str_view(space), session_id@, state),
    {
        let mut path = String::from_str("spaces/");
        path.append(self.space(space));
        path.append("/sessions/");
        path.append(session_id);
        path.append("/state");
        assert(path@ =~= space_scoped_path(
            self@.default_space,
            opt_str_view(space),
            "/sessions/"@ + session_id@ + "/state"@,
        ));
        let request = UpdateSessionStateRequest { state };
        ApiCall {
            method: HttpMethod::Put,
            path,
            body: Some(request.to_json()),
            expect: Expect::Nothing,
        }
    }

    /// Pauses a session of a space.
    pub fn pause_session(&self, space: Option<&str>, session_id: &str) -> (r: ApiCall)
        ensures
            r@ == pause_session_call(self@, opt_str_view(space), session_id@),
    {
        let mut path = String::from_str("spaces/");
        path.append(self.space(space));
        path.append("/sessions/");
        path.append(session_id);
        path.append("/pause");
        assert(path@ =~= space_scoped_path(
            self@.default_space,
            opt_str_view(space),
            "/sessions/"@ + session_id@ + "/pause"@,
        ));
        ApiCall { method: HttpMethod::Post, path, body: Some(Json::Null), expect: Expect::Nothing }
    }

    /// Resumes a session of a space.
    pub fn resume_session(&self, space: Option<&str>, session_id: &str) -> (r: ApiCall)
        ensures
            r@ == resume_session_call(self@, opt_str_view(space), session_id@),
    {
        let mut path = String::from_str("spaces/");
        path.append(self.space(space));
        path.append("/sessions/");
        path.append(session_id);
        path.append("/resume");
        assert(path@ =~= space_scoped_path(
            self@.default_space,
            opt_str_view(space),
            "/sessions/"@ + session_id@ + "/resume"@,
        ));
        ApiCall { method: HttpMethod::Post, path, body: Some(Json::Null), expect: Expect::Nothing }
    }

    /// Terminates a session of a space.
    pub fn terminate_session(&self, space: Option<&str>, session_id: &str) -> (r: ApiCall)
        ensures
            r@ == terminate_session_call(self@, opt_str_view(space), session_id@),
    {
        let mut path = String::from_str("spaces/");
        path.append(self.space(space));
        path.append("/sessions/");
        path.append(session_id);
        assert(path@ =~= space_scoped_path(
            self@.default_space,
            opt_str_view(space),
            "/sessions/"@ + session_id@,
        ));
        ApiCall { method: HttpMethod::Delete, path, body: None, expect: Expect::Ignored }
    }

    /// The messages of a session of a space, at most `limit` where a limit is given.
    pub fn get_messages(
        &self,
        space: Option<&str>,
        session_id: &str,
        limit: Option<u64>,
    ) -> (r: ApiCall)
        ensures
            r@ == get_messages_call(self@, opt_str_view(space), session_id@, limit),
    {
        let mut path = String::from_str("spaces/");
        path.append(self.space(space));
        path.append("/sessions/");
        path.append(session_id);
        path.append("/messages");
        assert(path@ =~= space_scoped_path(
            self@.default_space,
            opt_str_view(space),
            "/sessions/"@ + session_id@ + "/messages"@,
        ));
        let path = crate::client::append_limit(path, limit);
        ApiCall { method: HttpMethod::Get, path, body: None, expect: Expect::Messages }
    }

    /// Sends a message to a session of a space.
    pub fn send_message(&self, space: Option<&str>, session_id: &str, content: &str) -> (r: ApiCall)
        ensures
            r@ == send_message_call(self@, opt_str_view(space), session_id@, content@),
    {
        let mut path = String::from_str("spaces/");
        path.append(self.space(space));
        path.append("/sessions/");
        path.append(session_id);
        path.append("/messages");
        assert(path@ =~= space_scoped_path(
            self@.default_space,
            opt_str_view(space),
            "/sessions/"@ + session_id@ + "/messages"@,
        ));
        let request = CreateMessageRequest { content: content.to_owned() };
        ApiCall {
            method: HttpMethod::Post,
            path,
            body: Some(request.to_json()),
            expect: Expect::Message,
        }
    }

    /// How many messages a session of a space holds.
    pub fn get_message_count(&self, space: Option<&str>, session_id: &str) -> (r: ApiCall)
        ensures
            r@ == get_message_count_call(self@, opt_str_view(space), session_id@),
    {
        let mut path = String::from_str("spaces/");
        path.append(self.space(space));
        path.append("/sessions/");
        path.append(session_id);
        path.append("/messages/count");
        assert(path@ =~= space_scoped_path(
            self@.default_space,
            opt_str_view(space),
            "/sessions/"@ + session_id@ + "/messages/count"@,
        ));
        ApiCall { method: HttpMethod::Get, path, body: None, expect: Expect::MessageCount }
    }

    /// Deletes the messages of a session of a space.
    pub fn clear_messages(&self, space: Option<&str>, session_id: &str) -> (r: ApiCall)
        ensures
            r@ == clear_messages_call(self@, opt_str_view(space), session_id@),
    {
        let mut path = String::from_str("spaces/");
        path.append(self.space(space));
        path.append("/sessions/");
        path.append(session_id);
        path.append("/messages");
        assert(path@ =~= space_scoped_path(
            self@.default_space,
            opt_str_view(space),
            "/sessions/"@ + session_id@ + "/messages"@,
        ));
        ApiCall { method: HttpMethod::Delete, path, body: None, expect: Expect::Ignored }
    }

    /// The sessions of all spaces.
    pub fn list_all_sessions(&self) -> (r: ApiCall)
        ensures
            r@ == list_all_sessions_call(self@),
    {
        let mut path = String::from_str("sessions");
        ApiCall { method: HttpMethod::Get, path, body: None, expect: Expect::Sessions }
    }

    /// Creates a session.
    pub fn create_global_session(&self, request: &CreateSessionRequest) -> (r: ApiCall)
        ensures
            r@ == create_global_session_call(self@, request.json_view()),
    {
        let mut path = String::from_str("sessions");
        ApiCall {
            method: HttpMethod::Post,
            path,
            body: Some(request.to_json()),
            expect: Expect::Session,
        }
    }

    /// One session.
    pub fn get_global_session(&self, session_id: &str) -> (r: ApiCall)
        ensures
            r@ == get_global_session_call(self@, session_id@),
    {
        let mut path = String::from_str("sessions/");
        path.append(session_id);
        ApiCall { method: HttpMethod::Get, path, body: None, expect: Expect::Session }
    }

    /// Changes a session.
    pub fn update_global_session(
        &self,
        session_id: &str,
        request: &UpdateSessionRequest,
    ) -> (r: ApiCall)
        ensures
            r@ == update_global_session_call(self@, session_id@, request.json_view()),
    {
        let mut path = String::from_str("sessions/");
        path.append(session_id);
        ApiCall {
            method: HttpMethod::Put,
            path,
            body: Some(request.to_json()),
            expect: Expect::Session,
        }
    }

    /// Sets the state of a session.
    pub fn update_global_session_state(
        &self,
        session_id: &str,
        request: &UpdateSessionStateRequest,
    ) -> (r: ApiCall)
        ensures
            r@ == update_global_session_state_call(self@, session_id@, request.json_view()),
    {
        let mut path = String::from_str("sessions/");
        path.append(session_id);
        path.append("/state");
        ApiCall {
            method: HttpMethod::Put,
            path,
            body: Some(request.to_json()),
            expect: Expect::Nothing,
        }
    }

    /// Closes a session.
    pub fn close_session(&self, session_id: &str) -> (r: ApiCall)
        ensures
            r@ == close_session_call(self@, session_id@),
    {
        let mut path = String::from_str("sessions/");
        path.append(session_id);
        path.append("/close");
        ApiCall { method: HttpMethod::Post, path, body: Some(Json::Null), expect: Expect::Nothing }
    }

    /// Restores a closed session.
    pub fn restore_session(&self, session_id: &str) -> (r: ApiCall)
        ensures
            r@ == restore_session_call(self@, session_id@),
    {
        let mut path = String::from_str("sessions/");
        path.append(session_id);
        path.append("/restore");
        ApiCall { method: HttpMethod::Post, path, body: Some(Json::Null), expect: Expect::Nothing }
    }

    /// Forks a session.
    pub fn remix_session(&self, session_id: &str, request: &CreateSessionRequest) -> (r: ApiCall)
        ensures
            r@ == remix_session_call(self@, session_id@, request.json_view()),
    {
        let mut path = String::from_str("sessions/");
        path.append(session_id);
        path.append("/remix");
        ApiCall {
            method: HttpMethod::Post,
            path,
            body: Some(request.to_json()),
            expect: Expect::Session,
        }
    }

    /// Deletes a session.
    pub fn delete_global_session(&self, session_id: &str) -> (r: ApiCall)
        ensures
            r@ == delete_global_session_call(self@, session_id@),
    {
        let mut path = String::from_str("sessions/");
        path.append(session_id);
        ApiCall { method: HttpMethod::Delete, path, body: None, expect: Expect::Ignored }
    }

    /// The messages of a session, at most `limit` where a limit is given.
    pub fn get_global_messages(&self, session_id: &str, limit: Option<u64>) -> (r: ApiCall)
        ensures
            r@ == get_global_messages_call(self@, session_id@, limit),
    {
        let mut path = String::from_str("sessions/");
        path.append(session_id);
        path.append("/messages");
        let path = crate::client::append_limit(path, limit);
        ApiCall { method: HttpMethod::Get, path, body: None, expect: Expect::Messages }
    }

    /// Sends a message to a session.
    pub fn send_global_message(
        &self,
        session_id: &str,
        request: &CreateMessageRequest,
    ) -> (r: ApiCall)
        ensures
            r@ == send_global_message_call(self@, session_id@, request.json_view()),
    {
        let mut path = String::from_str("sessions/");
        path.append(session_id);
        path.append("/messages");
        ApiCall {
            method: HttpMethod::Post,
            path,
            body: Some(request.to_json()),
            expect: Expect::Message,
        }
    }

    /// How many messages a session holds.
    pub fn get_global_message_count(&self, session_id: &str) -> (r: ApiCall)
        ensures
            r@ == get_global_message_count_call(self@, session_id@),
    {
        let mut path = String::from_str("sessions/");
        path.append(session_id);
        path.append("/messages/count");
        ApiCall { method: HttpMethod::Get, path, body: None, expect: Expect::MessageCount }
    }

    /// Deletes the messages of a session.
    pub fn clear_global_messages(&self, session_id: &str) -> (r: ApiCall)
        ensures
            r@ == clear_global_messages_call(self@, session_id@),
    {
        let mut path = String::from_str("sessions/");
        path.append(session_id);
        path.append("/messages");
        ApiCall { method: HttpMethod::Delete, path, body: None, expect: Expect::Ignored }
    }

    /// The agents of a space.
    pub fn list_agents(&self, space: Option<&str>) -> (r: ApiCall)
        ensures
            r@ == list_agents_call(self@, opt_str_view(space)),
    {
        let mut path = String::from_str("spaces/");
        path.append(self.space(space));
        path.append("/agents");
        assert(path@ =~= space_scoped_path(self@.default_space, opt_str_view(space), "/agents"@));
        ApiCall { method: HttpMethod::Get, path, body: None, expect: Expect::Agents }
    }

    /// Creates an agent in a space.
    pub fn create_agent(&self, space: &str, request: &CreateAgentRequest) -> (r: ApiCall)
        ensures
            r@ == create_agent_call(self@, space@, request.json_view()),
    {
        let mut path = String::from_str("spaces/");
        path.append(space);
        path.append("/agents");
        ApiCall {
            method: HttpMethod::Post,
            path,
            body: Some(request.to_json()),
            expect: Expect::Agent,
        }
    }

    /// One agent of a space.
    pub fn get_agent(&self, space: &str, agent_name: &str) -> (r: ApiCall)
        ensures
            r@ == get_agent_call(self@, space@, agent_name@),
    {
        let mut path = String::from_str("spaces/");
        path.append(space);
        path.append("/agents/");
        path.append(agent_name);
        ApiCall { method: HttpMethod::Get, path, body: None, expect: Expect::Agent }
    }

    /// Changes an agent of a space.
    pub fn update_agent(
        &self,
        space: &str,
        agent_name: &str,
        request: &UpdateAgentRequest,
    ) -> (r: ApiCall)
        ensures
            r@ == update_agent_call(self@, space@, agent_name@, request.json_view()),
    {
        let mut path = String::from_str("spaces/");
        path.append(space);
        path.append("/agents/");
        path.append(agent_name);
        ApiCall {
            method: HttpMethod::Put,
            path,
            body: Some(request.to_json()),
            expect: Expect::Agent,
        }
    }

    /// Deletes an agent of a space.
    pub fn delete_agent(&self, space: &str, agent_name: &str) -> (r: ApiCall)
        ensures
            r@ == delete_agent_call(self@, space@, agent_name@),
    {
        let mut path = String::from_str("spaces/");
        path.append(space);
        path.append("/agents/");
        path.append(agent_name);
        ApiCall { method: HttpMethod::Delete, path, body: None, expect: Expect::Ignored }
    }

    /// Sets the status of an agent of a space.
    pub fn update_agent_status(
        &self,
        space: &str,
        agent_name: &str,
        request: &UpdateAgentStatusRequest,
    ) -> (r: ApiCall)
        ensures
            r@ == update_agent_status_call(self@, space@, agent_name@, request.json_view()),
    {
        let mut path = String::from_str("spaces/");
        path.append(space);
        path.append("/agents/");
        path.append(agent_name);
        path.append("/status");
        ApiCall {
            method: HttpMethod::Patch,
            path,
            body: Some(request.to_json()),
            expect: Expect::Nothing,
        }
    }

    /// Deploys an agent of a space.
    pub fn deploy_agent(&self, space: &str, agent_name: &str) -> (r: ApiCall)
        ensures
            r@ == deploy_agent_call(self@, space@, agent_name@),
    {
        let mut path = String::from_str("spaces/");
        path.append(space);
        path.append("/agents/");
        path.append(agent_name);
        path.append("/deploy");
        ApiCall { method: HttpMethod::Post, path, body: Some(Json::Null), expect: Expect::Nothing }
    }

    /// Stops an agent of a space.
    pub fn stop_agent(&self, space: &str, agent_name: &str) -> (r: ApiCall)
        ensures
            r@ == stop_agent_call(self@, space@, agent_name@),
    {
        let mut path = String::from_str("spaces/");
        path.append(space);
        path.append("/agents/");
        path.append(agent_name);
        path.append("/stop");
        ApiCall { method: HttpMethod::Post, path, body: Some(Json::Null), expect: Expect::Nothing }
    }

    /// The running agents of a space.
    pub fn list_running_agents(&self, space: &str) -> (r: ApiCall)
        ensures
            r@ == list_running_agents_call(self@, space@),
    {
        let mut path = String::from_str("spaces/");
        path.append(space);
        path.append("/agents/running");
        ApiCall { method: HttpMethod::Get, path, body: None, expect: Expect::Agents }
    }

    /// The logs of an agent of a space, as text.
    pub fn get_agent_logs(&self, space: &str, agent_name: &str) -> (r: ApiCall)
        ensures
            r@ == get_agent_logs_call(self@, space@, agent_name@),
    {
        let mut path = String::from_str("spaces/");
        path.append(space);
        path.append("/agents/");
        path.append(agent_name);
        path.append("/logs");
        ApiCall { method: HttpMethod::Get, path, body: None, expect: Expect::Text }
    }

    /// The secrets of a space.
    pub fn list_secrets(&self, space: Option<&str>) -> (r: ApiCall)
        ensures
            r@ == list_secrets_call(self@, opt_str_view(space)),
    {
        let mut path = String::from_str("spaces/");
        path.append(self.space(space));
        path.append("/secrets");
        assert(path@ =~= space_scoped_path(self@.default_space, opt_str_view(space), "/secrets"@));
        ApiCall { method: HttpMethod::Get, path, body: None, expect: Expect::Secrets }
    }

    /// Creates a secret in a space.
    pub fn create_secret(&self, space: &str, request: &CreateSecretRequest) -> (r: ApiCall)
        ensures
            r@ == create_secret_call(self@, space@, request.json_view()),
    {
        let mut path = String::from_str("spaces/");
        path.append(space);
        path.append("/secrets");
        ApiCall {
            method: HttpMethod::Post,
            path,
            body: Some(request.to_json()),
            expect: Expect::Secret,
        }
    }

    /// One secret of a space.
    pub fn get_secret(&self, space: &str, key: &str) -> (r: ApiCall)
        ensures
            r@ == get_secret_call(self@, space@, key@),
    {
        let mut path = String::from_str("spaces/");
        path.append(space);
        path.append("/secrets/");
        path.append(key);
        ApiCall { method: HttpMethod::Get, path, body: None, expect: Expect::Secret }
    }

    /// Sets a secret of a space to a value.
    pub fn set_secret(&self, space: &str, key: &str, value: &str) -> (r: ApiCall)
        ensures
            r@ == set_secret_call(self@, space@, key@, value@),
    {
        let mut path = String::from_str("spaces/");
        path.append(space);
        path.append("/secrets/");
        path.append(key);
        let mut members: Vec<(String, Json)> = Vec::new();
        members.push(("value".to_owned(), Json::string(value)));
        assert(member_views(members@) =~= seq![("value"@, JsonView::String(value@))]);
        ApiCall {
            method: HttpMethod::Post,
            path,
            body: Some(Json::Object(members)),
            expect: Expect::Secret,
        }
    }

    /// Changes a secret of a space.
    pub fn update_secret(
        &self,
        space: &str,
        key: &str,
        request: &UpdateSecretRequest,
    ) -> (r: ApiCall)
        ensures
            r@ == update_secret_call(self@, space@, key@, request.json_view()),
    {
        let mut path = String::from_str("spaces/");
        path.append(space);
        path.append("/secrets/");
        path.append(key);
        ApiCall {
            method: HttpMethod::Put,
            path,
            body: Some(request.to_json()),
            expect: Expect::Secret,
        }
    }

    /// Deletes a secret of a space.
    pub fn delete_secret(&self, space: &str, key: &str) -> (r: ApiCall)
        ensures
            r@ == delete_secret_call(self@, space@, key@),
    {
        let mut path = String::from_str("spaces/");
        path.append(space);
        path.append("/secrets/");
        path.append(key);
        ApiCall { method: HttpMethod::Delete, path, body: None, expect: Expect::Ignored }
    }

    /// Starts a build of a space.
    pub fn create_build(&self, space: &str, request: &CreateBuildRequest) -> (r: ApiCall)
        ensures
            r@ == create_build_call(self@, space@, request.json_view()),
    {
        let mut path = String::from_str("spaces/");
        path.append(space);
        path.append("/build");
        ApiCall {
            method: HttpMethod::Post,
            path,
            body: Some(request.to_json()),
            expect: Expect::Build,
        }
    }

    /// The latest build of a space.
    pub fn get_latest_build(&self, space: &str) -> (r: ApiCall)
        ensures
            r@ == get_latest_build_call(self@, space@),
    {
        let mut path = String::from_str("spaces/");
        path.append(space);
        path.append("/build/latest");
        ApiCall { method: HttpMethod::Get, path, body: None, expect: Expect::Build }
    }

    /// One build of a space.
    pub fn get_build(&self, space: &str, build_id: &str) -> (r: ApiCall)
        ensures
            r@ == get_build_call(self@, space@, build_id@),
    {
        let mut path = String::from_str("spaces/");
        path.append(space);
        path.append("/build/");
        path.append(build_id);
        ApiCall { method: HttpMethod::Get, path, body: None, expect: Expect::Build }
    }

    /// All service accounts.
    pub fn list_service_accounts(&self) -> (r: ApiCall)
        ensures
            r@ == list_service_accounts_call(self@),
    {
        let mut path = String::from_str("service-accounts");
        ApiCall { method: HttpMethod::Get, path, body: None, expect: Expect::ServiceAccounts }
    }

    /// Creates a service account.
    pub fn create_service_account(&self, request: &CreateServiceAccountRequest) -> (r: ApiCall)
        ensures
            r@ == create_service_account_call(self@, request.json_view()),
    {
        let mut path = String::from_str("service-accounts");
        ApiCall {
            method: HttpMethod::Post,
            path,
            body: Some(request.to_json()),
            expect: Expect::ServiceAccount,
        }
    }

    /// One service account.
    pub fn get_service_account(&self, id: &str) -> (r: ApiCall)
        ensures
            r@ == get_service_account_call(self@, id@),
    {
        let mut path = String::from_str("service-accounts/");
        path.append(id);
        ApiCall { method: HttpMethod::Get, path, body: None, expect: Expect::ServiceAccount }
    }

    /// Changes a service account.
    pub fn update_service_account(
        &self,
        id: &str,
        request: &UpdateServiceAccountRequest,
    ) -> (r: ApiCall)
        ensures
            r@ == update_service_account_call(self@, id@, request.json_view()),
    {
        let mut path = String::from_str("service-accounts/");
        path.append(id);
        ApiCall {
            method: HttpMethod::Put,
            path,
            body: Some(request.to_json()),
            expect: Expect::ServiceAccount,
        }
    }

    /// Deletes a service account.
    pub fn delete_service_account(&self, id: &str) -> (r: ApiCall)
        ensures
            r@ == delete_service_account_call(self@, id@),
    {
        let mut path = String::from_str("service-accounts/");
        path.append(id);
        ApiCall { method: HttpMethod::Delete, path, body: None, expect: Expect::Ignored }
    }

    /// Changes the password of a service account.
    pub fn update_service_account_password(
        &self,
        id: &str,
        request: &UpdatePasswordRequest,
    ) -> (r: ApiCall)
        ensures
            r@ == update_service_account_password_call(self@, id@, request.json_view()),
    {
        let mut path = String::from_str("service-accounts/");
        path.append(id);
        path.append("/password");
        ApiCall {
            method: HttpMethod::Put,
            path,
            body: Some(request.to_json()),
            expect: Expect::Nothing,
        }
    }

    /// All roles.
    pub fn list_roles(&self) -> (r: ApiCall)
        ensures
            r@ == list_roles_call(self@),
    {
        let mut path = String::from_str("roles");
        ApiCall { method: HttpMethod::Get, path, body: None, expect: Expect::Roles }
    }

    /// Creates a role.
    pub fn create_role(&self, request: &CreateRoleRequest) -> (r: ApiCall)
        ensures
            r@ == create_role_call(self@, request.json_view()),
    {
        let mut path = String::from_str("roles");
        ApiCall {
            method: HttpMethod::Post,
            path,
            body: Some(request.to_json()),
            expect: Expect::Role,
        }
    }

    /// One role.
    pub fn get_role(&self, id: &str) -> (r: ApiCall)
        ensures
            r@ == get_role_call(self@, id@),
    {
        let mut path = String::from_str("roles/");
        path.append(id);
        ApiCall { method: HttpMethod::Get, path, body: None, expect: Expect::Role }
    }

    /// Deletes a role.
    pub fn delete_role(&self, id: &str) -> (r: ApiCall)
        ensures
            r@ == delete_role_call(self@, id@),
    {
        let mut path = String::from_str("roles/");
        path.append(id);
        ApiCall { method: HttpMethod::Delete, path, body: None, expect: Expect::Ignored }
    }

    /// All role bindings.
    pub fn list_role_bindings(&self) -> (r: ApiCall)
        ensures
            r@ == list_role_bindings_call(self@),
    {
        let mut path = String::from_str("role-bindings");
        ApiCall { method: HttpMethod::Get, path, body: None, expect: Expect::RoleBindings }
    }

    /// Binds a role to a subject.
    pub fn create_role_binding(&self, request: &CreateRoleBindingRequest) -> (r: ApiCall)
        ensures
            r@ == create_role_binding_call(self@, request.json_view()),
    {
        let mut path = String::from_str("role-bindings");
        ApiCall {
            method: HttpMethod::Post,
            path,
            body: Some(request.to_json()),
            expect: Expect::RoleBinding,
        }
    }

    /// One role binding.
    pub fn get_role_binding(&self, id: &str) -> (r: ApiCall)
        ensures
            r@ == get_role_binding_call(self@, id@),
    {
        let mut path = String::from_str("role-bindings/");
        path.append(id);
        ApiCall { method: HttpMethod::Get, path, body: None, expect: Expect::RoleBinding }
    }

    /// Deletes a role binding.
    pub fn delete_role_binding(&self, id: &str) -> (r: ApiCall)
        ensures
            r@ == delete_role_binding_call(self@, id@),
    {
        let mut path = String::from_str("role-bindings/");
        path.append(id);
        ApiCall { method: HttpMethod::Delete, path, body: None, expect: Expect::Ignored }
    }

}

} // verus!
