//! The tools: what each checks of its arguments, and the call it stands for.
//!
//! A tool reads its arguments from a JSON object. A required argument that
//! is missing, or is no text, ends the call with a validation error that
//! names it; the arguments are checked in a fixed order, and the first one
//! that fails is reported. Optional arguments are passed on as they are,
//! present or absent.

use crate::client::{ApiCall, CallView, ClientView, RaworcClient};
use crate::operations::{
    clear_messages_call, close_session_call, create_agent_call, create_build_call,
    create_role_call, create_role_binding_call, create_secret_call, create_service_account_call,
    create_session_call, create_space_call, delete_agent_call, delete_role_call,
    delete_role_binding_call, delete_secret_call, delete_service_account_call,
    delete_space_call, deploy_agent_call, get_agent_call, get_agent_logs_call, get_build_call,
    get_latest_build_call, get_message_count_call, get_messages_call, get_role_call,
    get_role_binding_call, get_secret_call, get_service_account_call, get_session_call,
    get_space_call, get_version_call, health_check_call, list_agents_call,
    list_role_bindings_call, list_roles_call, list_running_agents_call, list_secrets_call,
    list_service_accounts_call, list_sessions_call, list_spaces_call, pause_session_call,
    remix_session_call, restore_session_call, resume_session_call, send_message_call,
    set_secret_call, stop_agent_call, terminate_session_call, update_agent_call,
    update_agent_status_call, update_secret_call, update_service_account_call,
    update_service_account_password_call, update_session_call, update_session_state_call,
    update_space_call
};
use crate::error::{ErrorView, RaworcError, RaworcResult};
use crate::json::{opt_str_view, Json, JsonView};
use crate::models::{
    AgentStatus, CreateAgentRequest, CreateBuildRequest, CreateRoleBindingRequest,
    CreateRoleRequest, CreateSecretRequest, CreateServiceAccountRequest, CreateSessionRequest,
    CreateSpaceRequest, RoleRule, SessionState, UpdateAgentRequest, UpdateAgentStatusRequest,
    UpdatePasswordRequest, UpdateSecretRequest, UpdateServiceAccountRequest,
    UpdateSessionRequest, UpdateSpaceRequest,
};
use crate::shape::{
    list_accepts, list_from_json, list_normal, opt_bool_json, opt_object_json, opt_text_json,
    opt_view, Shape,
};
use crate::text::{followed_by, text_eq};
use vstd::prelude::*;

verus! {

/// How the result of a tool is shown.
#[derive(Debug, Clone, PartialEq, Eq)]
pub enum Output {
    /// As indented JSON.
    Pretty,
    /// As a fixed text that confirms the call.
    Confirmation(String),
    /// As the text that came back.
    Text,
}

pub ghost enum OutputView {
    Pretty,
    Confirmation(Seq<char>),
    Text,
}

impl View for Output {
    type V = OutputView;

    open spec fn view(&self) -> OutputView {
        match self {
            Output::Pretty => OutputView::Pretty,
            Output::Confirmation(text) => OutputView::Confirmation(text@),
            Output::Text => OutputView::Text,
        }
    }
}

/// What a valid tool call asks of the API, and how the answer is shown.
#[derive(Debug)]
pub struct ToolPlan {
    pub call: ApiCall,
    pub output: Output,
}

pub ghost struct PlanView {
    pub call: CallView,
    pub output: OutputView,
}

impl View for ToolPlan {
    type V = PlanView;

    open spec fn view(&self) -> PlanView {
        PlanView { call: self.call@, output: self.output@ }
    }
}

pub open spec fn plan_result_view(r: RaworcResult<ToolPlan>) -> Result<PlanView, ErrorView> {
    match r {
        Ok(plan) => Ok(plan@),
        Err(e) => Err(e@),
    }
}

pub open spec fn rules_message() -> Seq<char> {
    "rules is not a list of role rules"@
}

fn owned(text: Option<&str>) -> (r: Option<String>)
    ensures
        opt_view(r) == opt_str_view(text),
{
    match text {
        Some(t) => Some(t.to_owned()),
        None => None,
    }
}


/// What the tool `list_sessions` asks of the API.
pub open spec fn list_sessions_plan(client: ClientView, arguments: JsonView) -> Result<
    PlanView,
    ErrorView,
> {
    Ok(
            PlanView {
                call: list_sessions_call(
                    client,
                    arguments.str_at("space"@),
                ),
                output: OutputView::Pretty,
            },
        )
}

/// What the tool `create_session` asks of the API.
pub open spec fn create_session_plan(client: ClientView, arguments: JsonView) -> Result<
    PlanView,
    ErrorView,
> {
    Ok(
            PlanView {
                call: create_session_call(
                    client,
                    arguments.str_at("space"@),
                    arguments.object_at("metadata"@),
                ),
                output: OutputView::Pretty,
            },
        )
}

/// What the tool `get_session` asks of the API.
pub open spec fn get_session_plan(client: ClientView, arguments: JsonView) -> Result<
    PlanView,
    ErrorView,
> {
    if arguments.str_at("session_id"@) is None {
        Err(ErrorView::ValidationError("session_id is required"@))
    } else {
        Ok(
                PlanView {
                    call: get_session_call(
                        client,
                        arguments.str_at("space"@),
                        arguments.str_at("session_id"@)->Some_0,
                    ),
                    output: OutputView::Pretty,
                },
            )
    }
}

/// What the tool `send_message` asks of the API.
pub open spec fn send_message_plan(client: ClientView, arguments: JsonView) -> Result<
    PlanView,
    ErrorView,
> {
    if arguments.str_at("session_id"@) is None {
        Err(ErrorView::ValidationError("session_id is required"@))
    } else if arguments.str_at("content"@) is None {
        Err(ErrorView::ValidationError("content is required"@))
    } else {
        Ok(
                PlanView {
                    call: send_message_call(
                        client,
                        arguments.str_at("space"@),
                        arguments.str_at("session_id"@)->Some_0,
                        arguments.str_at("content"@)->Some_0,
                    ),
                    output: OutputView::Pretty,
                },
            )
    }
}

/// What the tool `get_messages` asks of the API.
pub open spec fn get_messages_plan(client: ClientView, arguments: JsonView) -> Result<
    PlanView,
    ErrorView,
> {
    if arguments.str_at("session_id"@) is None {
        Err(ErrorView::ValidationError("session_id is required"@))
    } else {
        Ok(
                PlanView {
                    call: get_messages_call(
                        client,
                        arguments.str_at("space"@),
                        arguments.str_at("session_id"@)->Some_0,
                        arguments.u64_at("limit"@),
                    ),
                    output: OutputView::Pretty,
                },
            )
    }
}

/// What the tool `pause_session` asks of the API.
pub open spec fn pause_session_plan(client: ClientView, arguments: JsonView) -> Result<
    PlanView,
    ErrorView,
> {
    if arguments.str_at("session_id"@) is None {
        Err(ErrorView::ValidationError("session_id is required"@))
    } else {
        Ok(
                PlanView {
                    call: pause_session_call(
                        client,
                        arguments.str_at("space"@),
                        arguments.str_at("session_id"@)->Some_0,
                    ),
                    output: OutputView::Confirmation("Session paused successfully"@),
                },
            )
    }
}

/// What the tool `resume_session` asks of the API.
pub open spec fn resume_session_plan(client: ClientView, arguments: JsonView) -> Result<
    PlanView,
    ErrorView,
> {
    if arguments.str_at("session_id"@) is None {
        Err(ErrorView::ValidationError("session_id is required"@))
    } else {
        Ok(
                PlanView {
                    call: resume_session_call(
                        client,
                        arguments.str_at("space"@),
                        arguments.str_at("session_id"@)->Some_0,
                    ),
                    output: OutputView::Confirmation("Session resumed successfully"@),
                },
            )
    }
}

/// What the tool `terminate_session` asks of the API.
pub open spec fn terminate_session_plan(client: ClientView, arguments: JsonView) -> Result<
    PlanView,
    ErrorView,
> {
    if arguments.str_at("session_id"@) is None {
        Err(ErrorView::ValidationError("session_id is required"@))
    } else {
        Ok(
                PlanView {
                    call: terminate_session_call(
                        client,
                        arguments.str_at("space"@),
                        arguments.str_at("session_id"@)->Some_0,
                    ),
                    output: OutputView::Confirmation("Session terminated successfully"@),
                },
            )
    }
}

/// What the tool `list_spaces` asks of the API.
pub open spec fn list_spaces_plan(client: ClientView, arguments: JsonView) -> Result<
    PlanView,
    ErrorView,
> {
    Ok(
            PlanView {
                call: list_spaces_call(
                    client,
                ),
                output: OutputView::Pretty,
            },
        )
}

/// What the tool `list_agents` asks of the API.
pub open spec fn list_agents_plan(client: ClientView, arguments: JsonView) -> Result<
    PlanView,
    ErrorView,
> {
    Ok(
            PlanView {
                call: list_agents_call(
                    client,
                    arguments.str_at("space"@),
                ),
                output: OutputView::Pretty,
            },
        )
}

/// What the tool `get_agent_logs` asks of the API.
pub open spec fn get_agent_logs_plan(client: ClientView, arguments: JsonView) -> Result<
    PlanView,
    ErrorView,
> {
    if arguments.str_at("space"@) is None {
        Err(ErrorView::ValidationError("space is required"@))
    } else if arguments.str_at("agent_name"@) is None {
        Err(ErrorView::ValidationError("agent_name is required"@))
    } else {
        Ok(
                PlanView {
                    call: get_agent_logs_call(
                        client,
                        arguments.str_at("space"@)->Some_0,
                        arguments.str_at("agent_name"@)->Some_0,
                    ),
                    output: OutputView::Text,
                },
            )
    }
}

/// What the tool `list_secrets` asks of the API.
pub open spec fn list_secrets_plan(client: ClientView, arguments: JsonView) -> Result<
    PlanView,
    ErrorView,
> {
    Ok(
            PlanView {
                call: list_secrets_call(
                    client,
                    arguments.str_at("space"@),
                ),
                output: OutputView::Pretty,
            },
        )
}

/// What the tool `get_secret` asks of the API.
pub open spec fn get_secret_plan(client: ClientView, arguments: JsonView) -> Result<
    PlanView,
    ErrorView,
> {
    if arguments.str_at("space"@) is None {
        Err(ErrorView::ValidationError("space is required"@))
    } else if arguments.str_at("key"@) is None {
        Err(ErrorView::ValidationError("key is required"@))
    } else {
        Ok(
                PlanView {
                    call: get_secret_call(
                        client,
                        arguments.str_at("space"@)->Some_0,
                        arguments.str_at("key"@)->Some_0,
                    ),
                    output: OutputView::Pretty,
                },
            )
    }
}

/// What the tool `set_secret` asks of the API.
pub open spec fn set_secret_plan(client: ClientView, arguments: JsonView) -> Result<
    PlanView,
    ErrorView,
> {
    if arguments.str_at("space"@) is None {
        Err(ErrorView::ValidationError("space is required"@))
    } else if arguments.str_at("key"@) is None {
        Err(ErrorView::ValidationError("key is required"@))
    } else if arguments.str_at("value"@) is None {
        Err(ErrorView::ValidationError("value is required"@))
    } else {
        Ok(
                PlanView {
                    call: set_secret_call(
                        client,
                        arguments.str_at("space"@)->Some_0,
                        arguments.str_at("key"@)->Some_0,
                        arguments.str_at("value"@)->Some_0,
                    ),
                    output: OutputView::Pretty,
                },
            )
    }
}

/// What the tool `delete_secret` asks of the API.
pub open spec fn delete_secret_plan(client: ClientView, arguments: JsonView) -> Result<
    PlanView,
    ErrorView,
> {
    if arguments.str_at("space"@) is None {
        Err(ErrorView::ValidationError("space is required"@))
    } else if arguments.str_at("key"@) is None {
        Err(ErrorView::ValidationError("key is required"@))
    } else {
        Ok(
                PlanView {
                    call: delete_secret_call(
                        client,
                        arguments.str_at("space"@)->Some_0,
                        arguments.str_at("key"@)->Some_0,
                    ),
                    output: OutputView::Confirmation("Secret deleted successfully"@),
                },
            )
    }
}

/// What the tool `health_check` asks of the API.
pub open spec fn health_check_plan(client: ClientView, arguments: JsonView) -> Result<
    PlanView,
    ErrorView,
> {
    Ok(
            PlanView {
                call: health_check_call(
                    client,
                ),
                output: OutputView::Text,
            },
        )
}

/// What the tool `get_version` asks of the API.
pub open spec fn get_version_plan(client: ClientView, arguments: JsonView) -> Result<
    PlanView,
    ErrorView,
> {
    Ok(
            PlanView {
                call: get_version_call(
                    client,
                ),
                output: OutputView::Pretty,
            },
        )
}

/// What the tool `list_service_accounts` asks of the API.
pub open spec fn list_service_accounts_plan(client: ClientView, arguments: JsonView) -> Result<
    PlanView,
    ErrorView,
> {
    Ok(
            PlanView {
                call: list_service_accounts_call(
                    client,
                ),
                output: OutputView::Pretty,
            },
        )
}

/// What the tool `create_service_account` asks of the API.
pub open spec fn create_service_account_plan(client: ClientView, arguments: JsonView) -> Result<
    PlanView,
    ErrorView,
> {
    if arguments.str_at("user"@) is None {
        Err(ErrorView::ValidationError("user is required"@))
    } else if arguments.str_at("pass"@) is None {
        Err(ErrorView::ValidationError("pass is required"@))
    } else {
        Ok(
                PlanView {
                    call: create_service_account_call(
                        client,
                        JsonView::Object(
                        seq![
                            ("user"@, JsonView::String(arguments.str_at("user"@)->Some_0)),
                            ("pass"@, JsonView::String(arguments.str_at("pass"@)->Some_0)),
                            ("space"@, opt_text_json(arguments.str_at("space"@))),
                            ("description"@, opt_text_json(arguments.str_at("description"@))),
                        ],
                    ),
                    ),
                    output: OutputView::Pretty,
                },
            )
    }
}

/// What the tool `get_service_account` asks of the API.
pub open spec fn get_service_account_plan(client: ClientView, arguments: JsonView) -> Result<
    PlanView,
    ErrorView,
> {
    if arguments.str_at("id"@) is None {
        Err(ErrorView::ValidationError("id is required"@))
    } else {
        Ok(
                PlanView {
                    call: get_service_account_call(
                        client,
                        arguments.str_at("id"@)->Some_0,
                    ),
                    output: OutputView::Pretty,
                },
            )
    }
}

/// What the tool `update_service_account` asks of the API.
pub open spec fn update_service_account_plan(client: ClientView, arguments: JsonView) -> Result<
    PlanView,
    ErrorView,
> {
    if arguments.str_at("id"@) is None {
        Err(ErrorView::ValidationError("id is required"@))
    } else {
        Ok(
                PlanView {
                    call: update_service_account_call(
                        client,
                        arguments.str_at("id"@)->Some_0,
                        JsonView::Object(
                        seq![
                            ("space"@, opt_text_json(arguments.str_at("space"@))),
                            ("description"@, opt_text_json(arguments.str_at("description"@))),
                            ("active"@, opt_bool_json(arguments.bool_at("active"@))),
                        ],
                    ),
                    ),
                    output: OutputView::Pretty,
                },
            )
    }
}

/// What the tool `delete_service_account` asks of the API.
pub open spec fn delete_service_account_plan(client: ClientView, arguments: JsonView) -> Result<
    PlanView,
    ErrorView,
> {
    if arguments.str_at("id"@) is None {
        Err(ErrorView::ValidationError("id is required"@))
    } else {
        Ok(
                PlanView {
                    call: delete_service_account_call(
                        client,
                        arguments.str_at("id"@)->Some_0,
                    ),
                    output: OutputView::Confirmation("Service account deleted successfully"@),
                },
            )
    }
}

/// What the tool `update_service_account_password` asks of the API.
pub open spec fn update_service_account_password_plan(client: ClientView, arguments: JsonView) -> Result<
    PlanView,
    ErrorView,
> {
    if arguments.str_at("id"@) is None {
        Err(ErrorView::ValidationError("id is required"@))
    } else if arguments.str_at("current_password"@) is None {
        Err(ErrorView::ValidationError("current_password is required"@))
    } else if arguments.str_at("new_password"@) is None {
        Err(ErrorView::ValidationError("new_password is required"@))
    } else {
        Ok(
                PlanView {
                    call: update_service_account_password_call(
                        client,
                        arguments.str_at("id"@)->Some_0,
                        JsonView::Object(
                        seq![
                            (
                                "current_password"@,
                                JsonView::String(arguments.str_at("current_password"@)->Some_0),
                            ),
                            (
                                "new_password"@,
                                JsonView::String(arguments.str_at("new_password"@)->Some_0),
                            ),
                        ],
                    ),
                    ),
                    output: OutputView::Confirmation("Password updated successfully"@),
                },
            )
    }
}

/// What the tool `list_roles` asks of the API.
pub open spec fn list_roles_plan(client: ClientView, arguments: JsonView) -> Result<
    PlanView,
    ErrorView,
> {
    Ok(
            PlanView {
                call: list_roles_call(
                    client,
                ),
                output: OutputView::Pretty,
            },
        )
}

/// What the tool `create_role` asks of the API.
pub open spec fn create_role_plan(client: ClientView, arguments: JsonView) -> Result<
    PlanView,
    ErrorView,
> {
    if arguments.str_at("id"@) is None {
        Err(ErrorView::ValidationError("id is required"@))
    } else if arguments.get("rules"@) is None {
        Err(ErrorView::ValidationError("rules is required"@))
    } else if !list_accepts::<RoleRule>(arguments.get("rules"@)->Some_0) {
        Err(ErrorView::JsonError(rules_message()))
    } else {
        Ok(
                PlanView {
                    call: create_role_call(
                        client,
                        JsonView::Object(
                        seq![
                            ("id"@, JsonView::String(arguments.str_at("id"@)->Some_0)),
                            ("description"@, opt_text_json(arguments.str_at("description"@))),
                            ("rules"@, list_normal::<RoleRule>(arguments.get("rules"@)->Some_0)),
                        ],
                    ),
                    ),
                    output: OutputView::Pretty,
                },
            )
    }
}

/// What the tool `get_role` asks of the API.
pub open spec fn get_role_plan(client: ClientView, arguments: JsonView) -> Result<
    PlanView,
    ErrorView,
> {
    if arguments.str_at("id"@) is None {
        Err(ErrorView::ValidationError("id is required"@))
    } else {
        Ok(
                PlanView {
                    call: get_role_call(
                        client,
                        arguments.str_at("id"@)->Some_0,
                    ),
                    output: OutputView::Pretty,
                },
            )
    }
}

/// What the tool `delete_role` asks of the API.
pub open spec fn delete_role_plan(client: ClientView, arguments: JsonView) -> Result<
    PlanView,
    ErrorView,
> {
    if arguments.str_at("id"@) is None {
        Err(ErrorView::ValidationError("id is required"@))
    } else {
        Ok(
                PlanView {
                    call: delete_role_call(
                        client,
                        arguments.str_at("id"@)->Some_0,
                    ),
                    output: OutputView::Confirmation("Role deleted successfully"@),
                },
            )
    }
}

/// What the tool `list_role_bindings` asks of the API.
pub open spec fn list_role_bindings_plan(client: ClientView, arguments: JsonView) -> Result<
    PlanView,
    ErrorView,
> {
    Ok(
            PlanView {
                call: list_role_bindings_call(
                    client,
                ),
                output: OutputView::Pretty,
            },
        )
}

/// What the tool `create_role_binding` asks of the API.
pub open spec fn create_role_binding_plan(client: ClientView, arguments: JsonView) -> Result<
    PlanView,
    ErrorView,
> {
    if arguments.str_at("subject"@) is None {
        Err(ErrorView::ValidationError("subject is required"@))
    } else if arguments.str_at("role_ref"@) is None {
        Err(ErrorView::ValidationError("role_ref is required"@))
    } else {
        Ok(
                PlanView {
                    call: create_role_binding_call(
                        client,
                        JsonView::Object(
                        seq![
                            ("subject"@, JsonView::String(arguments.str_at("subject"@)->Some_0)),
                            ("role_ref"@, JsonView::String(arguments.str_at("role_ref"@)->Some_0)),
                            ("space"@, opt_text_json(arguments.str_at("space"@))),
                        ],
                    ),
                    ),
                    output: OutputView::Pretty,
                },
            )
    }
}

/// What the tool `get_role_binding` asks of the API.
pub open spec fn get_role_binding_plan(client: ClientView, arguments: JsonView) -> Result<
    PlanView,
    ErrorView,
> {
    if arguments.str_at("id"@) is None {
        Err(ErrorView::ValidationError("id is required"@))
    } else {
        Ok(
                PlanView {
                    call: get_role_binding_call(
                        client,
                        arguments.str_at("id"@)->Some_0,
                    ),
                    output: OutputView::Pretty,
                },
            )
    }
}

/// What the tool `delete_role_binding` asks of the API.
pub open spec fn delete_role_binding_plan(client: ClientView, arguments: JsonView) -> Result<
    PlanView,
    ErrorView,
> {
    if arguments.str_at("id"@) is None {
        Err(ErrorView::ValidationError("id is required"@))
    } else {
        Ok(
                PlanView {
                    call: delete_role_binding_call(
                        client,
                        arguments.str_at("id"@)->Some_0,
                    ),
                    output: OutputView::Confirmation("Role binding deleted successfully"@),
                },
            )
    }
}

/// What the tool `create_space` asks of the API.
pub open spec fn create_space_plan(client: ClientView, arguments: JsonView) -> Result<
    PlanView,
    ErrorView,
> {
    if arguments.str_at("name"@) is None {
        Err(ErrorView::ValidationError("name is required"@))
    } else {
        Ok(
                PlanView {
                    call: create_space_call(
                        client,
                        JsonView::Object(
                        seq![
                            ("name"@, JsonView::String(arguments.str_at("name"@)->Some_0)),
                            ("description"@, opt_text_json(arguments.str_at("description"@))),
                            ("settings"@, opt_object_json(arguments.object_at("settings"@))),
                        ],
                    ),
                    ),
                    output: OutputView::Pretty,
                },
            )
    }
}

/// What the tool `get_space` asks of the API.
pub open spec fn get_space_plan(client: ClientView, arguments: JsonView) -> Result<
    PlanView,
    ErrorView,
> {
    if arguments.str_at("name"@) is None {
        Err(ErrorView::ValidationError("name is required"@))
    } else {
        Ok(
                PlanView {
                    call: get_space_call(
                        client,
                        arguments.str_at("name"@)->Some_0,
                    ),
                    output: OutputView::Pretty,
                },
            )
    }
}

/// What the tool `update_space` asks of the API.
pub open spec fn update_space_plan(client: ClientView, arguments: JsonView) -> Result<
    PlanView,
    ErrorView,
> {
    if arguments.str_at("name"@) is None {
        Err(ErrorView::ValidationError("name is required"@))
    } else {
        Ok(
                PlanView {
                    call: update_space_call(
                        client,
                        arguments.str_at("name"@)->Some_0,
                        JsonView::Object(
                        seq![
                            ("description"@, opt_text_json(arguments.str_at("description"@))),
                            ("settings"@, opt_object_json(arguments.object_at("settings"@))),
                        ],
                    ),
                    ),
                    output: OutputView::Pretty,
                },
            )
    }
}

/// What the tool `delete_space` asks of the API.
pub open spec fn delete_space_plan(client: ClientView, arguments: JsonView) -> Result<
    PlanView,
    ErrorView,
> {
    if arguments.str_at("name"@) is None {
        Err(ErrorView::ValidationError("name is required"@))
    } else {
        Ok(
                PlanView {
                    call: delete_space_call(
                        client,
                        arguments.str_at("name"@)->Some_0,
                    ),
                    output: OutputView::Confirmation("Space deleted successfully"@),
                },
            )
    }
}

/// What the tool `update_session` asks of the API.
pub open spec fn update_session_plan(client: ClientView, arguments: JsonView) -> Result<
    PlanView,
    ErrorView,
> {
    if arguments.str_at("session_id"@) is None {
        Err(ErrorView::ValidationError("session_id is required"@))
    } else {
        Ok(
                PlanView {
                    call: update_session_call(
                        client,
                        arguments.str_at("space"@),
                        arguments.str_at("session_id"@)->Some_0,
                        JsonView::Object(
                        seq![
                            ("space"@, opt_text_json(arguments.str_at("space"@))),
                            ("metadata"@, opt_object_json(arguments.object_at("metadata"@))),
                        ],
                    ),
                    ),
                    output: OutputView::Pretty,
                },
            )
    }
}

/// What the tool `update_session_state` asks of the API.
pub open spec fn update_session_state_plan(client: ClientView, arguments: JsonView) -> Result<
    PlanView,
    ErrorView,
> {
    if arguments.str_at("session_id"@) is None {
        Err(ErrorView::ValidationError("session_id is required"@))
    } else if arguments.str_at("state"@) is None {
        Err(ErrorView::ValidationError("state is required"@))
    } else if SessionState::of_literal(arguments.str_at("state"@)->Some_0) is None {
        Err(ErrorView::ValidationError("Invalid session state"@))
    } else {
        Ok(
                PlanView {
                    call: update_session_state_call(
                        client,
                        arguments.str_at("space"@),
                        arguments.str_at("session_id"@)->Some_0,
                        SessionState::of_literal(arguments.str_at("state"@)->Some_0)->Some_0,
                    ),
                    output: OutputView::Confirmation("Session state updated successfully"@),
                },
            )
    }
}

/// What the tool `close_session` asks of the API.
pub open spec fn close_session_plan(client: ClientView, arguments: JsonView) -> Result<
    PlanView,
    ErrorView,
> {
    if arguments.str_at("session_id"@) is None {
        Err(ErrorView::ValidationError("session_id is required"@))
    } else {
        Ok(
                PlanView {
                    call: close_session_call(
                        client,
                        arguments.str_at("session_id"@)->Some_0,
                    ),
                    output: OutputView::Confirmation("Session closed successfully"@),
                },
            )
    }
}

/// What the tool `restore_session` asks of the API.
pub open spec fn restore_session_plan(client: ClientView, arguments: JsonView) -> Result<
    PlanView,
    ErrorView,
> {
    if arguments.str_at("session_id"@) is None {
        Err(ErrorView::ValidationError("session_id is required"@))
    } else {
        Ok(
                PlanView {
                    call: restore_session_call(
                        client,
                        arguments.str_at("session_id"@)->Some_0,
                    ),
                    output: OutputView::Confirmation("Session restored successfully"@),
                },
            )
    }
}

/// What the tool `remix_session` asks of the API.
pub open spec fn remix_session_plan(client: ClientView, arguments: JsonView) -> Result<
    PlanView,
    ErrorView,
> {
    if arguments.str_at("session_id"@) is None {
        Err(ErrorView::ValidationError("session_id is required"@))
    } else {
        Ok(
                PlanView {
                    call: remix_session_call(
                        client,
                        arguments.str_at("session_id"@)->Some_0,
                        JsonView::Object(
                        seq![
                            ("space"@, opt_text_json(arguments.str_at("space"@))),
                            ("metadata"@, JsonView::Null),
                        ],
                    ),
                    ),
                    output: OutputView::Pretty,
                },
            )
    }
}

/// What the tool `get_message_count` asks of the API.
pub open spec fn get_message_count_plan(client: ClientView, arguments: JsonView) -> Result<
    PlanView,
    ErrorView,
> {
    if arguments.str_at("session_id"@) is None {
        Err(ErrorView::ValidationError("session_id is required"@))
    } else {
        Ok(
                PlanView {
                    call: get_message_count_call(
                        client,
                        arguments.str_at("space"@),
                        arguments.str_at("session_id"@)->Some_0,
                    ),
                    output: OutputView::Pretty,
                },
            )
    }
}

/// What the tool `clear_messages` asks of the API.
pub open spec fn clear_messages_plan(client: ClientView, arguments: JsonView) -> Result<
    PlanView,
    ErrorView,
> {
    if arguments.str_at("session_id"@) is None {
        Err(ErrorView::ValidationError("session_id is required"@))
    } else {
        Ok(
                PlanView {
                    call: clear_messages_call(
                        client,
                        arguments.str_at("space"@),
                        arguments.str_at("session_id"@)->Some_0,
                    ),
                    output: OutputView::Confirmation("Messages cleared successfully"@),
                },
            )
    }
}

/// What the tool `create_agent` asks of the API.
pub open spec fn create_agent_plan(client: ClientView, arguments: JsonView) -> Result<
    PlanView,
    ErrorView,
> {
    if arguments.str_at("space"@) is None {
        Err(ErrorView::ValidationError("space is required"@))
    } else if arguments.str_at("name"@) is None {
        Err(ErrorView::ValidationError("name is required"@))
    } else {
        Ok(
                PlanView {
                    call: create_agent_call(
                        client,
                        arguments.str_at("space"@)->Some_0,
                        JsonView::Object(
                        seq![
                            ("name"@, JsonView::String(arguments.str_at("name"@)->Some_0)),
                            ("description"@, opt_text_json(arguments.str_at("description"@))),
                            ("purpose"@, opt_text_json(arguments.str_at("purpose"@))),
                            ("source_repo"@, opt_text_json(arguments.str_at("source_repo"@))),
                            ("source_branch"@, opt_text_json(arguments.str_at("source_branch"@))),
                            ("image"@, JsonView::Null),
                            ("command"@, JsonView::Null),
                            ("env"@, JsonView::Null),
                            ("resources"@, JsonView::Null),
                        ],
                    ),
                    ),
                    output: OutputView::Pretty,
                },
            )
    }
}

/// What the tool `get_agent` asks of the API.
pub open spec fn get_agent_plan(client: ClientView, arguments: JsonView) -> Result<
    PlanView,
    ErrorView,
> {
    if arguments.str_at("space"@) is None {
        Err(ErrorView::ValidationError("space is required"@))
    } else if arguments.str_at("agent_name"@) is None {
        Err(ErrorView::ValidationError("agent_name is required"@))
    } else {
        Ok(
                PlanView {
                    call: get_agent_call(
                        client,
                        arguments.str_at("space"@)->Some_0,
                        arguments.str_at("agent_name"@)->Some_0,
                    ),
                    output: OutputView::Pretty,
                },
            )
    }
}

/// What the tool `update_agent` asks of the API.
pub open spec fn update_agent_plan(client: ClientView, arguments: JsonView) -> Result<
    PlanView,
    ErrorView,
> {
    if arguments.str_at("space"@) is None {
        Err(ErrorView::ValidationError("space is required"@))
    } else if arguments.str_at("agent_name"@) is None {
        Err(ErrorView::ValidationError("agent_name is required"@))
    } else {
        Ok(
                PlanView {
                    call: update_agent_call(
                        client,
                        arguments.str_at("space"@)->Some_0,
                        arguments.str_at("agent_name"@)->Some_0,
                        JsonView::Object(
                        seq![
                            ("description"@, opt_text_json(arguments.str_at("description"@))),
                            ("purpose"@, opt_text_json(arguments.str_at("purpose"@))),
                            ("source_repo"@, JsonView::Null),
                            ("source_branch"@, JsonView::Null),
                            ("image"@, JsonView::Null),
                            ("command"@, JsonView::Null),
                            ("env"@, JsonView::Null),
                            ("resources"@, JsonView::Null),
                        ],
                    ),
                    ),
                    output: OutputView::Pretty,
                },
            )
    }
}

/// What the tool `delete_agent` asks of the API.
pub open spec fn delete_agent_plan(client: ClientView, arguments: JsonView) -> Result<
    PlanView,
    ErrorView,
> {
    if arguments.str_at("space"@) is None {
        Err(ErrorView::ValidationError("space is required"@))
    } else if arguments.str_at("agent_name"@) is None {
        Err(ErrorView::ValidationError("agent_name is required"@))
    } else {
        Ok(
                PlanView {
                    call: delete_agent_call(
                        client,
                        arguments.str_at("space"@)->Some_0,
                        arguments.str_at("agent_name"@)->Some_0,
                    ),
                    output: OutputView::Confirmation("Agent deleted successfully"@),
                },
            )
    }
}

/// What the tool `update_agent_status` asks of the API.
pub open spec fn update_agent_status_plan(client: ClientView, arguments: JsonView) -> Result<
    PlanView,
    ErrorView,
> {
    if arguments.str_at("space"@) is None {
        Err(ErrorView::ValidationError("space is required"@))
    } else if arguments.str_at("agent_name"@) is None {
        Err(ErrorView::ValidationError("agent_name is required"@))
    } else if arguments.str_at("status"@) is None {
        Err(ErrorView::ValidationError("status is required"@))
    } else if AgentStatus::of_literal(arguments.str_at("status"@)->Some_0) is None {
        Err(ErrorView::ValidationError("Invalid agent status"@))
    } else {
        Ok(
                PlanView {
                    call: update_agent_status_call(
                        client,
                        arguments.str_at("space"@)->Some_0,
                        arguments.str_at("agent_name"@)->Some_0,
                        JsonView::Object(
                        seq![
                            (
                                "status"@,
                                JsonView::String(
                                    AgentStatus::of_literal(
                                        arguments.str_at("status"@)->Some_0,
                                    )->Some_0.literal(),
                                ),
                            ),
                        ],
                    ),
                    ),
                    output: OutputView::Confirmation("Agent status updated successfully"@),
                },
            )
    }
}

/// What the tool `deploy_agent` asks of the API.
pub open spec fn deploy_agent_plan(client: ClientView, arguments: JsonView) -> Result<
    PlanView,
    ErrorView,
> {
    if arguments.str_at("space"@) is None {
        Err(ErrorView::ValidationError("space is required"@))
    } else if arguments.str_at("agent_name"@) is None {
        Err(ErrorView::ValidationError("agent_name is required"@))
    } else {
        Ok(
                PlanView {
                    call: deploy_agent_call(
                        client,
                        arguments.str_at("space"@)->Some_0,
                        arguments.str_at("agent_name"@)->Some_0,
                    ),
                    output: OutputView::Confirmation("Agent deployed successfully"@),
                },
            )
    }
}

/// What the tool `stop_agent` asks of the API.
pub open spec fn stop_agent_plan(client: ClientView, arguments: JsonView) -> Result<
    PlanView,
    ErrorView,
> {
    if arguments.str_at("space"@) is None {
        Err(ErrorView::ValidationError("space is required"@))
    } else if arguments.str_at("agent_name"@) is None {
        Err(ErrorView::ValidationError("agent_name is required"@))
    } else {
        Ok(
                PlanView {
                    call: stop_agent_call(
                        client,
                        arguments.str_at("space"@)->Some_0,
                        arguments.str_at("agent_name"@)->Some_0,
                    ),
                    output: OutputView::Confirmation("Agent stopped successfully"@),
                },
            )
    }
}

/// What the tool `list_running_agents` asks of the API.
pub open spec fn list_running_agents_plan(client: ClientView, arguments: JsonView) -> Result<
    PlanView,
    ErrorView,
> {
    if arguments.str_at("space"@) is None {
        Err(ErrorView::ValidationError("space is required"@))
    } else {
        Ok(
                PlanView {
                    call: list_running_agents_call(
                        client,
                        arguments.str_at("space"@)->Some_0,
                    ),
                    output: OutputView::Pretty,
                },
            )
    }
}

/// What the tool `create_secret` asks of the API.
pub open spec fn create_secret_plan(client: ClientView, arguments: JsonView) -> Result<
    PlanView,
    ErrorView,
> {
    if arguments.str_at("space"@) is None {
        Err(ErrorView::ValidationError("space is required"@))
    } else if arguments.str_at("key_name"@) is None {
        Err(ErrorView::ValidationError("key_name is required"@))
    } else if arguments.str_at("value"@) is None {
        Err(ErrorView::ValidationError("value is required"@))
    } else {
        Ok(
                PlanView {
                    call: create_secret_call(
                        client,
                        arguments.str_at("space"@)->Some_0,
                        JsonView::Object(
                        seq![
                            ("key_name"@, JsonView::String(arguments.str_at("key_name"@)->Some_0)),
                            ("value"@, JsonView::String(arguments.str_at("value"@)->Some_0)),
                            ("description"@, opt_text_json(arguments.str_at("description"@))),
                        ],
                    ),
                    ),
                    output: OutputView::Pretty,
                },
            )
    }
}

/// What the tool `update_secret` asks of the API.
pub open spec fn update_secret_plan(client: ClientView, arguments: JsonView) -> Result<
    PlanView,
    ErrorView,
> {
    if arguments.str_at("space"@) is None {
        Err(ErrorView::ValidationError("space is required"@))
    } else if arguments.str_at("key"@) is None {
        Err(ErrorView::ValidationError("key is required"@))
    } else {
        Ok(
                PlanView {
                    call: update_secret_call(
                        client,
                        arguments.str_at("space"@)->Some_0,
                        arguments.str_at("key"@)->Some_0,
                        JsonView::Object(
                        seq![
                            ("value"@, opt_text_json(arguments.str_at("value"@))),
                            ("description"@, opt_text_json(arguments.str_at("description"@))),
                        ],
                    ),
                    ),
                    output: OutputView::Pretty,
                },
            )
    }
}

/// What the tool `create_build` asks of the API.
pub open spec fn create_build_plan(client: ClientView, arguments: JsonView) -> Result<
    PlanView,
    ErrorView,
> {
    if arguments.str_at("space"@) is None {
        Err(ErrorView::ValidationError("space is required"@))
    } else {
        Ok(
                PlanView {
                    call: create_build_call(
                        client,
                        arguments.str_at("space"@)->Some_0,
                        JsonView::Object(
                        seq![
                            ("dockerfile"@, opt_text_json(arguments.str_at("dockerfile"@))),
                            ("context"@, opt_text_json(arguments.str_at("context"@))),
                        ],
                    ),
                    ),
                    output: OutputView::Pretty,
                },
            )
    }
}

/// What the tool `get_latest_build` asks of the API.
pub open spec fn get_latest_build_plan(client: ClientView, arguments: JsonView) -> Result<
    PlanView,
    ErrorView,
> {
    if arguments.str_at("space"@) is None {
        Err(ErrorView::ValidationError("space is required"@))
    } else {
        Ok(
                PlanView {
                    call: get_latest_build_call(
                        client,
                        arguments.str_at("space"@)->Some_0,
                    ),
                    output: OutputView::Pretty,
                },
            )
    }
}

/// What the tool `get_build` asks of the API.
pub open spec fn get_build_plan(client: ClientView, arguments: JsonView) -> Result<
    PlanView,
    ErrorView,
> {
    if arguments.str_at("space"@) is None {
        Err(ErrorView::ValidationError("space is required"@))
    } else if arguments.str_at("build_id"@) is None {
        Err(ErrorView::ValidationError("build_id is required"@))
    } else {
        Ok(
                PlanView {
                    call: get_build_call(
                        client,
                        arguments.str_at("space"@)->Some_0,
                        arguments.str_at("build_id"@)->Some_0,
                    ),
                    output: OutputView::Pretty,
                },
            )
    }
}

fn handle_list_sessions(client: &RaworcClient, arguments: &Json) -> (r: RaworcResult<ToolPlan>)
    ensures
        plan_result_view(r) == list_sessions_plan(client@, arguments@),
{
    let space = arguments.str_at("space");
    Ok(ToolPlan { call: client.list_sessions(space), output: Output::Pretty })
}

fn handle_create_session(client: &RaworcClient, arguments: &Json) -> (r: RaworcResult<ToolPlan>)
    ensures
        plan_result_view(r) == create_session_plan(client@, arguments@),
{
    let space = arguments.str_at("space");
    let metadata = arguments.object_at("metadata");
    Ok(ToolPlan { call: client.create_session(space, metadata), output: Output::Pretty })
}

fn handle_get_session(client: &RaworcClient, arguments: &Json) -> (r: RaworcResult<ToolPlan>)
    ensures
        plan_result_view(r) == get_session_plan(client@, arguments@),
{
    let session_id = match arguments.str_at("session_id") {
        Some(text) => text,
        None => {
            return Err(RaworcError::validation_error("session_id is required"));
        },
    };
    let space = arguments.str_at("space");
    Ok(ToolPlan { call: client.get_session(space, session_id), output: Output::Pretty })
}

fn handle_send_message(client: &RaworcClient, arguments: &Json) -> (r: RaworcResult<ToolPlan>)
    ensures
        plan_result_view(r) == send_message_plan(client@, arguments@),
{
    let session_id = match arguments.str_at("session_id") {
        Some(text) => text,
        None => {
            return Err(RaworcError::validation_error("session_id is required"));
        },
    };
    let content = match arguments.str_at("content") {
        Some(text) => text,
        None => {
            return Err(RaworcError::validation_error("content is required"));
        },
    };
    let space = arguments.str_at("space");
    Ok(ToolPlan { call: client.send_message(space, session_id, content), output: Output::Pretty })
}

fn handle_get_messages(client: &RaworcClient, arguments: &Json) -> (r: RaworcResult<ToolPlan>)
    ensures
        plan_result_view(r) == get_messages_plan(client@, arguments@),
{
    let session_id = match arguments.str_at("session_id") {
        Some(text) => text,
        None => {
            return Err(RaworcError::validation_error("session_id is required"));
        },
    };
    let limit = arguments.u64_at("limit");
    let space = arguments.str_at("space");
    Ok(ToolPlan { call: client.get_messages(space, session_id, limit), output: Output::Pretty })
}

fn handle_pause_session(client: &RaworcClient, arguments: &Json) -> (r: RaworcResult<ToolPlan>)
    ensures
        plan_result_view(r) == pause_session_plan(client@, arguments@),
{
    let session_id = match arguments.str_at("session_id") {
        Some(text) => text,
        None => {
            return Err(RaworcError::validation_error("session_id is required"));
        },
    };
    let space = arguments.str_at("space");
    Ok(
        ToolPlan {
            call: client.pause_session(space, session_id),
            output: Output::Confirmation("Session paused successfully".to_owned()),
        },
    )
}

fn handle_resume_session(client: &RaworcClient, arguments: &Json) -> (r: RaworcResult<ToolPlan>)
    ensures
        plan_result_view(r) == resume_session_plan(client@, arguments@),
{
    let session_id = match arguments.str_at("session_id") {
        Some(text) => text,
        None => {
            return Err(RaworcError::validation_error("session_id is required"));
        },
    };
    let space = arguments.str_at("space");
    Ok(
        ToolPlan {
            call: client.resume_session(space, session_id),
            output: Output::Confirmation("Session resumed successfully".to_owned()),
        },
    )
}

fn handle_terminate_session(client: &RaworcClient, arguments: &Json) -> (r: RaworcResult<ToolPlan>)
    ensures
        plan_result_view(r) == terminate_session_plan(client@, arguments@),
{
    let session_id = match arguments.str_at("session_id") {
        Some(text) => text,
        None => {
            return Err(RaworcError::validation_error("session_id is required"));
        },
    };
    let space = arguments.str_at("space");
    Ok(
        ToolPlan {
            call: client.terminate_session(space, session_id),
            output: Output::Confirmation("Session terminated successfully".to_owned()),
        },
    )
}

fn handle_list_spaces(client: &RaworcClient, arguments: &Json) -> (r: RaworcResult<ToolPlan>)
    ensures
        plan_result_view(r) == list_spaces_plan(client@, arguments@),
{
    Ok(ToolPlan { call: client.list_spaces(), output: Output::Pretty })
}

fn handle_list_agents(client: &RaworcClient, arguments: &Json) -> (r: RaworcResult<ToolPlan>)
    ensures
        plan_result_view(r) == list_agents_plan(client@, arguments@),
{
    let space = arguments.str_at("space");
    Ok(ToolPlan { call: client.list_agents(space), output: Output::Pretty })
}

fn handle_get_agent_logs(client: &RaworcClient, arguments: &Json) -> (r: RaworcResult<ToolPlan>)
    ensures
        plan_result_view(r) == get_agent_logs_plan(client@, arguments@),
{
    let space = match arguments.str_at("space") {
        Some(text) => text,
        None => {
            return Err(RaworcError::validation_error("space is required"));
        },
    };
    let agent_name = match arguments.str_at("agent_name") {
        Some(text) => text,
        None => {
            return Err(RaworcError::validation_error("agent_name is required"));
        },
    };
    Ok(ToolPlan { call: client.get_agent_logs(space, agent_name), output: Output::Text })
}

fn handle_list_secrets(client: &RaworcClient, arguments: &Json) -> (r: RaworcResult<ToolPlan>)
    ensures
        plan_result_view(r) == list_secrets_plan(client@, arguments@),
{
    let space = arguments.str_at("space");
    Ok(ToolPlan { call: client.list_secrets(space), output: Output::Pretty })
}

fn handle_get_secret(client: &RaworcClient, arguments: &Json) -> (r: RaworcResult<ToolPlan>)
    ensures
        plan_result_view(r) == get_secret_plan(client@, arguments@),
{
    let space = match arguments.str_at("space") {
        Some(text) => text,
        None => {
            return Err(RaworcError::validation_error("space is required"));
        },
    };
    let key = match arguments.str_at("key") {
        Some(text) => text,
        None => {
            return Err(RaworcError::validation_error("key is required"));
        },
    };
    Ok(ToolPlan { call: client.get_secret(space, key), output: Output::Pretty })
}

fn handle_set_secret(client: &RaworcClient, arguments: &Json) -> (r: RaworcResult<ToolPlan>)
    ensures
        plan_result_view(r) == set_secret_plan(client@, arguments@),
{
    let space = match arguments.str_at("space") {
        Some(text) => text,
        None => {
            return Err(RaworcError::validation_error("space is required"));
        },
    };
    let key = match arguments.str_at("key") {
        Some(text) => text,
        None => {
            return Err(RaworcError::validation_error("key is required"));
        },
    };
    let value = match arguments.str_at("value") {
        Some(text) => text,
        None => {
            return Err(RaworcError::validation_error("value is required"));
        },
    };
    Ok(ToolPlan { call: client.set_secret(space, key, value), output: Output::Pretty })
}

fn handle_delete_secret(client: &RaworcClient, arguments: &Json) -> (r: RaworcResult<ToolPlan>)
    ensures
        plan_result_view(r) == delete_secret_plan(client@, arguments@),
{
    let space = match arguments.str_at("space") {
        Some(text) => text,
        None => {
            return Err(RaworcError::validation_error("space is required"));
        },
    };
    let key = match arguments.str_at("key") {
        Some(text) => text,
        None => {
            return Err(RaworcError::validation_error("key is required"));
        },
    };
    Ok(
        ToolPlan {
            call: client.delete_secret(space, key),
            output: Output::Confirmation("Secret deleted successfully".to_owned()),
        },
    )
}

fn handle_health_check(client: &RaworcClient, arguments: &Json) -> (r: RaworcResult<ToolPlan>)
    ensures
        plan_result_view(r) == health_check_plan(client@, arguments@),
{
    Ok(ToolPlan { call: client.health_check(), output: Output::Text })
}

fn handle_get_version(client: &RaworcClient, arguments: &Json) -> (r: RaworcResult<ToolPlan>)
    ensures
        plan_result_view(r) == get_version_plan(client@, arguments@),
{
    Ok(ToolPlan { call: client.get_version(), output: Output::Pretty })
}

fn handle_list_service_accounts(client: &RaworcClient, arguments: &Json) -> (r: RaworcResult<
    ToolPlan,
>)
    ensures
        plan_result_view(r) == list_service_accounts_plan(client@, arguments@),
{
    Ok(ToolPlan { call: client.list_service_accounts(), output: Output::Pretty })
}

fn handle_create_service_account(client: &RaworcClient, arguments: &Json) -> (r: RaworcResult<
    ToolPlan,
>)
    ensures
        plan_result_view(r) == create_service_account_plan(client@, arguments@),
{
    let user = match arguments.str_at("user") {
        Some(text) => text,
        None => {
            return Err(RaworcError::validation_error("user is required"));
        },
    };
    let pass = match arguments.str_at("pass") {
        Some(text) => text,
        None => {
            return Err(RaworcError::validation_error("pass is required"));
        },
    };
    let space = arguments.str_at("space");
    let description = arguments.str_at("description");
    let request = CreateServiceAccountRequest {
        user: user.to_owned(),
        pass: pass.to_owned(),
        space: owned(space),
        description: owned(description),
    };
    Ok(ToolPlan { call: client.create_service_account(&request), output: Output::Pretty })
}

fn handle_get_service_account(client: &RaworcClient, arguments: &Json) -> (r: RaworcResult<
    ToolPlan,
>)
    ensures
        plan_result_view(r) == get_service_account_plan(client@, arguments@),
{
    let id = match arguments.str_at("id") {
        Some(text) => text,
        None => {
            return Err(RaworcError::validation_error("id is required"));
        },
    };
    Ok(ToolPlan { call: client.get_service_account(id), output: Output::Pretty })
}

fn handle_update_service_account(client: &RaworcClient, arguments: &Json) -> (r: RaworcResult<
    ToolPlan,
>)
    ensures
        plan_result_view(r) == update_service_account_plan(client@, arguments@),
{
    let id = match arguments.str_at("id") {
        Some(text) => text,
        None => {
            return Err(RaworcError::validation_error("id is required"));
        },
    };
    let space = arguments.str_at("space");
    let description = arguments.str_at("description");
    let active = arguments.bool_at("active");
    let request = UpdateServiceAccountRequest {
        space: owned(space),
        description: owned(description),
        active: active,
    };
    Ok(ToolPlan { call: client.update_service_account(id, &request), output: Output::Pretty })
}

fn handle_delete_service_account(client: &RaworcClient, arguments: &Json) -> (r: RaworcResult<
    ToolPlan,
>)
    ensures
        plan_result_view(r) == delete_service_account_plan(client@, arguments@),
{
    let id = match arguments.str_at("id") {
        Some(text) => text,
        None => {
            return Err(RaworcError::validation_error("id is required"));
        },
    };
    Ok(
        ToolPlan {
            call: client.delete_service_account(id),
            output: Output::Confirmation("Service account deleted successfully".to_owned()),
        },
    )
}

fn handle_update_service_account_password(client: &RaworcClient, arguments: &Json) -> (r: RaworcResult<
    ToolPlan,
>)
    ensures
        plan_result_view(r) == update_service_account_password_plan(client@, arguments@),
{
    let id = match arguments.str_at("id") {
        Some(text) => text,
        None => {
            return Err(RaworcError::validation_error("id is required"));
        },
    };
    let current_password = match arguments.str_at("current_password") {
        Some(text) => text,
        None => {
            return Err(RaworcError::validation_error("current_password is required"));
        },
    };
    let new_password = match arguments.str_at("new_password") {
        Some(text) => text,
        None => {
            return Err(RaworcError::validation_error("new_password is required"));
        },
    };
    let request = UpdatePasswordRequest {
        current_password: current_password.to_owned(),
        new_password: new_password.to_owned(),
    };
    Ok(
        ToolPlan {
            call: client.update_service_account_password(id, &request),
            output: Output::Confirmation("Password updated successfully".to_owned()),
        },
    )
}

fn handle_list_roles(client: &RaworcClient, arguments: &Json) -> (r: RaworcResult<ToolPlan>)
    ensures
        plan_result_view(r) == list_roles_plan(client@, arguments@),
{
    Ok(ToolPlan { call: client.list_roles(), output: Output::Pretty })
}

fn handle_create_role(client: &RaworcClient, arguments: &Json) -> (r: RaworcResult<ToolPlan>)
    ensures
        plan_result_view(r) == create_role_plan(client@, arguments@),
{
    let id = match arguments.str_at("id") {
        Some(text) => text,
        None => {
            return Err(RaworcError::validation_error("id is required"));
        },
    };
    let description = arguments.str_at("description");
    let rules_value = match arguments.get("rules") {
        Some(value) => value,
        None => {
            return Err(RaworcError::validation_error("rules is required"));
        },
    };
    let rules = match list_from_json::<RoleRule>(rules_value) {
        Some(rules) => rules,
        None => {
            return Err(RaworcError::JsonError("rules is not a list of role rules".to_owned()));
        },
    };
    let request = CreateRoleRequest {
        id: id.to_owned(),
        description: owned(description),
        rules: rules,
    };
    Ok(ToolPlan { call: client.create_role(&request), output: Output::Pretty })
}

fn handle_get_role(client: &RaworcClient, arguments: &Json) -> (r: RaworcResult<ToolPlan>)
    ensures
        plan_result_view(r) == get_role_plan(client@, arguments@),
{
    let id = match arguments.str_at("id") {
        Some(text) => text,
        None => {
            return Err(RaworcError::validation_error("id is required"));
        },
    };
    Ok(ToolPlan { call: client.get_role(id), output: Output::Pretty })
}

fn handle_delete_role(client: &RaworcClient, arguments: &Json) -> (r: RaworcResult<ToolPlan>)
    ensures
        plan_result_view(r) == delete_role_plan(client@, arguments@),
{
    let id = match arguments.str_at("id") {
        Some(text) => text,
        None => {
            return Err(RaworcError::validation_error("id is required"));
        },
    };
    Ok(
        ToolPlan {
            call: client.delete_role(id),
            output: Output::Confirmation("Role deleted successfully".to_owned()),
        },
    )
}

fn handle_list_role_bindings(client: &RaworcClient, arguments: &Json) -> (r: RaworcResult<ToolPlan>)
    ensures
        plan_result_view(r) == list_role_bindings_plan(client@, arguments@),
{
    Ok(ToolPlan { call: client.list_role_bindings(), output: Output::Pretty })
}

fn handle_create_role_binding(client: &RaworcClient, arguments: &Json) -> (r: RaworcResult<
    ToolPlan,
>)
    ensures
        plan_result_view(r) == create_role_binding_plan(client@, arguments@),
{
    let subject = match arguments.str_at("subject") {
        Some(text) => text,
        None => {
            return Err(RaworcError::validation_error("subject is required"));
        },
    };
    let role_ref = match arguments.str_at("role_ref") {
        Some(text) => text,
        None => {
            return Err(RaworcError::validation_error("role_ref is required"));
        },
    };
    let space = arguments.str_at("space");
    let request = CreateRoleBindingRequest {
        subject: subject.to_owned(),
        role_ref: role_ref.to_owned(),
        space: owned(space),
    };
    Ok(ToolPlan { call: client.create_role_binding(&request), output: Output::Pretty })
}

fn handle_get_role_binding(client: &RaworcClient, arguments: &Json) -> (r: RaworcResult<ToolPlan>)
    ensures
        plan_result_view(r) == get_role_binding_plan(client@, arguments@),
{
    let id = match arguments.str_at("id") {
        Some(text) => text,
        None => {
            return Err(RaworcError::validation_error("id is required"));
        },
    };
    Ok(ToolPlan { call: client.get_role_binding(id), output: Output::Pretty })
}

fn handle_delete_role_binding(client: &RaworcClient, arguments: &Json) -> (r: RaworcResult<
    ToolPlan,
>)
    ensures
        plan_result_view(r) == delete_role_binding_plan(client@, arguments@),
{
    let id = match arguments.str_at("id") {
        Some(text) => text,
        None => {
            return Err(RaworcError::validation_error("id is required"));
        },
    };
    Ok(
        ToolPlan {
            call: client.delete_role_binding(id),
            output: Output::Confirmation("Role binding deleted successfully".to_owned()),
        },
    )
}

fn handle_create_space(client: &RaworcClient, arguments: &Json) -> (r: RaworcResult<ToolPlan>)
    ensures
        plan_result_view(r) == create_space_plan(client@, arguments@),
{
    let name = match arguments.str_at("name") {
        Some(text) => text,
        None => {
            return Err(RaworcError::validation_error("name is required"));
        },
    };
    let description = arguments.str_at("description");
    let settings = arguments.object_at("settings");
    let request = CreateSpaceRequest {
        name: name.to_owned(),
        description: owned(description),
        settings: settings,
    };
    Ok(ToolPlan { call: client.create_space(&request), output: Output::Pretty })
}

fn handle_get_space(client: &RaworcClient, arguments: &Json) -> (r: RaworcResult<ToolPlan>)
    ensures
        plan_result_view(r) == get_space_plan(client@, arguments@),
{
    let name = match arguments.str_at("name") {
        Some(text) => text,
        None => {
            return Err(RaworcError::validation_error("name is required"));
        },
    };
    Ok(ToolPlan { call: client.get_space(name), output: Output::Pretty })
}

fn handle_update_space(client: &RaworcClient, arguments: &Json) -> (r: RaworcResult<ToolPlan>)
    ensures
        plan_result_view(r) == update_space_plan(client@, arguments@),
{
    let name = match arguments.str_at("name") {
        Some(text) => text,
        None => {
            return Err(RaworcError::validation_error("name is required"));
        },
    };
    let description = arguments.str_at("description");
    let settings = arguments.object_at("settings");
    let request = UpdateSpaceRequest {
        description: owned(description),
        settings: settings,
    };
    Ok(ToolPlan { call: client.update_space(name, &request), output: Output::Pretty })
}

fn handle_delete_space(client: &RaworcClient, arguments: &Json) -> (r: RaworcResult<ToolPlan>)
    ensures
        plan_result_view(r) == delete_space_plan(client@, arguments@),
{
    let name = match arguments.str_at("name") {
        Some(text) => text,
        None => {
            return Err(RaworcError::validation_error("name is required"));
        },
    };
    Ok(
        ToolPlan {
            call: client.delete_space(name),
            output: Output::Confirmation("Space deleted successfully".to_owned()),
        },
    )
}

fn handle_update_session(client: &RaworcClient, arguments: &Json) -> (r: RaworcResult<ToolPlan>)
    ensures
        plan_result_view(r) == update_session_plan(client@, arguments@),
{
    let session_id = match arguments.str_at("session_id") {
        Some(text) => text,
        None => {
            return Err(RaworcError::validation_error("session_id is required"));
        },
    };
    let space = arguments.str_at("space");
    let metadata = arguments.object_at("metadata");
    let request = UpdateSessionRequest {
        space: owned(space),
        metadata: metadata,
    };
    Ok(
        ToolPlan {
            call: client.update_session(space, session_id, &request),
            output: Output::Pretty,
        },
    )
}

fn handle_update_session_state(client: &RaworcClient, arguments: &Json) -> (r: RaworcResult<
    ToolPlan,
>)
    ensures
        plan_result_view(r) == update_session_state_plan(client@, arguments@),
{
    let session_id = match arguments.str_at("session_id") {
        Some(text) => text,
        None => {
            return Err(RaworcError::validation_error("session_id is required"));
        },
    };
    let space = arguments.str_at("space");
    let state = match arguments.str_at("state") {
        Some(text) => text,
        None => {
            return Err(RaworcError::validation_error("state is required"));
        },
    };
    let state_value = match SessionState::from_text(state) {
        Some(value) => value,
        None => {
            return Err(RaworcError::validation_error("Invalid session state"));
        },
    };
    Ok(
        ToolPlan {
            call: client.update_session_state(space, session_id, state_value),
            output: Output::Confirmation("Session state updated successfully".to_owned()),
        },
    )
}

fn handle_close_session(client: &RaworcClient, arguments: &Json) -> (r: RaworcResult<ToolPlan>)
    ensures
        plan_result_view(r) == close_session_plan(client@, arguments@),
{
    let session_id = match arguments.str_at("session_id") {
        Some(text) => text,
        None => {
            return Err(RaworcError::validation_error("session_id is required"));
        },
    };
    Ok(
        ToolPlan {
            call: client.close_session(session_id),
            output: Output::Confirmation("Session closed successfully".to_owned()),
        },
    )
}

fn handle_restore_session(client: &RaworcClient, arguments: &Json) -> (r: RaworcResult<ToolPlan>)
    ensures
        plan_result_view(r) == restore_session_plan(client@, arguments@),
{
    let session_id = match arguments.str_at("session_id") {
        Some(text) => text,
        None => {
            return Err(RaworcError::validation_error("session_id is required"));
        },
    };
    Ok(
        ToolPlan {
            call: client.restore_session(session_id),
            output: Output::Confirmation("Session restored successfully".to_owned()),
        },
    )
}

fn handle_remix_session(client: &RaworcClient, arguments: &Json) -> (r: RaworcResult<ToolPlan>)
    ensures
        plan_result_view(r) == remix_session_plan(client@, arguments@),
{
    let session_id = match arguments.str_at("session_id") {
        Some(text) => text,
        None => {
            return Err(RaworcError::validation_error("session_id is required"));
        },
    };
    let space = arguments.str_at("space");
    let request = CreateSessionRequest {
        space: owned(space),
        metadata: None,
    };
    Ok(ToolPlan { call: client.remix_session(session_id, &request), output: Output::Pretty })
}

fn handle_get_message_count(client: &RaworcClient, arguments: &Json) -> (r: RaworcResult<ToolPlan>)
    ensures
        plan_result_view(r) == get_message_count_plan(client@, arguments@),
{
    let session_id = match arguments.str_at("session_id") {
        Some(text) => text,
        None => {
            return Err(RaworcError::validation_error("session_id is required"));
        },
    };
    let space = arguments.str_at("space");
    Ok(ToolPlan { call: client.get_message_count(space, session_id), output: Output::Pretty })
}

fn handle_clear_messages(client: &RaworcClient, arguments: &Json) -> (r: RaworcResult<ToolPlan>)
    ensures
        plan_result_view(r) == clear_messages_plan(client@, arguments@),
{
    let session_id = match arguments.str_at("session_id") {
        Some(text) => text,
        None => {
            return Err(RaworcError::validation_error("session_id is required"));
        },
    };
    let space = arguments.str_at("space");
    Ok(
        ToolPlan {
            call: client.clear_messages(space, session_id),
            output: Output::Confirmation("Messages cleared successfully".to_owned()),
        },
    )
}

fn handle_create_agent(client: &RaworcClient, arguments: &Json) -> (r: RaworcResult<ToolPlan>)
    ensures
        plan_result_view(r) == create_agent_plan(client@, arguments@),
{
    let space = match arguments.str_at("space") {
        Some(text) => text,
        None => {
            return Err(RaworcError::validation_error("space is required"));
        },
    };
    let name = match arguments.str_at("name") {
        Some(text) => text,
        None => {
            return Err(RaworcError::validation_error("name is required"));
        },
    };
    let description = arguments.str_at("description");
    let purpose = arguments.str_at("purpose");
    let source_repo = arguments.str_at("source_repo");
    let source_branch = arguments.str_at("source_branch");
    let request = CreateAgentRequest {
        name: name.to_owned(),
        description: owned(description),
        purpose: owned(purpose),
        source_repo: owned(source_repo),
        source_branch: owned(source_branch),
        image: None,
        command: None,
        env: None,
        resources: None,
    };
    Ok(ToolPlan { call: client.create_agent(space, &request), output: Output::Pretty })
}

fn handle_get_agent(client: &RaworcClient, arguments: &Json) -> (r: RaworcResult<ToolPlan>)
    ensures
        plan_result_view(r) == get_agent_plan(client@, arguments@),
{
    let space = match arguments.str_at("space") {
        Some(text) => text,
        None => {
            return Err(RaworcError::validation_error("space is required"));
        },
    };
    let agent_name = match arguments.str_at("agent_name") {
        Some(text) => text,
        None => {
            return Err(RaworcError::validation_error("agent_name is required"));
        },
    };
    Ok(ToolPlan { call: client.get_agent(space, agent_name), output: Output::Pretty })
}

fn handle_update_agent(client: &RaworcClient, arguments: &Json) -> (r: RaworcResult<ToolPlan>)
    ensures
        plan_result_view(r) == update_agent_plan(client@, arguments@),
{
    let space = match arguments.str_at("space") {
        Some(text) => text,
        None => {
            return Err(RaworcError::validation_error("space is required"));
        },
    };
    let agent_name = match arguments.str_at("agent_name") {
        Some(text) => text,
        None => {
            return Err(RaworcError::validation_error("agent_name is required"));
        },
    };
    let description = arguments.str_at("description");
    let purpose = arguments.str_at("purpose");
    let request = UpdateAgentRequest {
        description: owned(description),
        purpose: owned(purpose),
        source_repo: None,
        source_branch: None,
        image: None,
        command: None,
        env: None,
        resources: None,
    };
    Ok(ToolPlan { call: client.update_agent(space, agent_name, &request), output: Output::Pretty })
}

fn handle_delete_agent(client: &RaworcClient, arguments: &Json) -> (r: RaworcResult<ToolPlan>)
    ensures
        plan_result_view(r) == delete_agent_plan(client@, arguments@),
{
    let space = match arguments.str_at("space") {
        Some(text) => text,
        None => {
            return Err(RaworcError::validation_error("space is required"));
        },
    };
    let agent_name = match arguments.str_at("agent_name") {
        Some(text) => text,
        None => {
            return Err(RaworcError::validation_error("agent_name is required"));
        },
    };
    Ok(
        ToolPlan {
            call: client.delete_agent(space, agent_name),
            output: Output::Confirmation("Agent deleted successfully".to_owned()),
        },
    )
}

fn handle_update_agent_status(client: &RaworcClient, arguments: &Json) -> (r: RaworcResult<
    ToolPlan,
>)
    ensures
        plan_result_view(r) == update_agent_status_plan(client@, arguments@),
{
    let space = match arguments.str_at("space") {
        Some(text) => text,
        None => {
            return Err(RaworcError::validation_error("space is required"));
        },
    };
    let agent_name = match arguments.str_at("agent_name") {
        Some(text) => text,
        None => {
            return Err(RaworcError::validation_error("agent_name is required"));
        },
    };
    let status = match arguments.str_at("status") {
        Some(text) => text,
        None => {
            return Err(RaworcError::validation_error("status is required"));
        },
    };
    let status_value = match AgentStatus::from_text(status) {
        Some(value) => value,
        None => {
            return Err(RaworcError::validation_error("Invalid agent status"));
        },
    };
    let request = UpdateAgentStatusRequest {
        status: status_value,
    };
    Ok(
        ToolPlan {
            call: client.update_agent_status(space, agent_name, &request),
            output: Output::Confirmation("Agent status updated successfully".to_owned()),
        },
    )
}

fn handle_deploy_agent(client: &RaworcClient, arguments: &Json) -> (r: RaworcResult<ToolPlan>)
    ensures
        plan_result_view(r) == deploy_agent_plan(client@, arguments@),
{
    let space = match arguments.str_at("space") {
        Some(text) => text,
        None => {
            return Err(RaworcError::validation_error("space is required"));
        },
    };
    let agent_name = match arguments.str_at("agent_name") {
        Some(text) => text,
        None => {
            return Err(RaworcError::validation_error("agent_name is required"));
        },
    };
    Ok(
        ToolPlan {
            call: client.deploy_agent(space, agent_name),
            output: Output::Confirmation("Agent deployed successfully".to_owned()),
        },
    )
}

fn handle_stop_agent(client: &RaworcClient, arguments: &Json) -> (r: RaworcResult<ToolPlan>)
    ensures
        plan_result_view(r) == stop_agent_plan(client@, arguments@),
{
    let space = match arguments.str_at("space") {
        Some(text) => text,
        None => {
            return Err(RaworcError::validation_error("space is required"));
        },
    };
    let agent_name = match arguments.str_at("agent_name") {
        Some(text) => text,
        None => {
            return Err(RaworcError::validation_error("agent_name is required"));
        },
    };
    Ok(
        ToolPlan {
            call: client.stop_agent(space, agent_name),
            output: Output::Confirmation("Agent stopped successfully".to_owned()),
        },
    )
}

fn handle_list_running_agents(client: &RaworcClient, arguments: &Json) -> (r: RaworcResult<
    ToolPlan,
>)
    ensures
        plan_result_view(r) == list_running_agents_plan(client@, arguments@),
{
    let space = match arguments.str_at("space") {
        Some(text) => text,
        None => {
            return Err(RaworcError::validation_error("space is required"));
        },
    };
    Ok(ToolPlan { call: client.list_running_agents(space), output: Output::Pretty })
}

fn handle_create_secret(client: &RaworcClient, arguments: &Json) -> (r: RaworcResult<ToolPlan>)
    ensures
        plan_result_view(r) == create_secret_plan(client@, arguments@),
{
    let space = match arguments.str_at("space") {
        Some(text) => text,
        None => {
            return Err(RaworcError::validation_error("space is required"));
        },
    };
    let key_name = match arguments.str_at("key_name") {
        Some(text) => text,
        None => {
            return Err(RaworcError::validation_error("key_name is required"));
        },
    };
    let value = match arguments.str_at("value") {
        Some(text) => text,
        None => {
            return Err(RaworcError::validation_error("value is required"));
        },
    };
    let description = arguments.str_at("description");
    let request = CreateSecretRequest {
        key_name: key_name.to_owned(),
        value: value.to_owned(),
        description: owned(description),
    };
    Ok(ToolPlan { call: client.create_secret(space, &request), output: Output::Pretty })
}

fn handle_update_secret(client: &RaworcClient, arguments: &Json) -> (r: RaworcResult<ToolPlan>)
    ensures
        plan_result_view(r) == update_secret_plan(client@, arguments@),
{
    let space = match arguments.str_at("space") {
        Some(text) => text,
        None => {
            return Err(RaworcError::validation_error("space is required"));
        },
    };
    let key = match arguments.str_at("key") {
        Some(text) => text,
        None => {
            return Err(RaworcError::validation_error("key is required"));
        },
    };
    let value = arguments.str_at("value");
    let description = arguments.str_at("description");
    let request = UpdateSecretRequest {
        value: owned(value),
        description: owned(description),
    };
    Ok(ToolPlan { call: client.update_secret(space, key, &request), output: Output::Pretty })
}

fn handle_create_build(client: &RaworcClient, arguments: &Json) -> (r: RaworcResult<ToolPlan>)
    ensures
        plan_result_view(r) == create_build_plan(client@, arguments@),
{
    let space = match arguments.str_at("space") {
        Some(text) => text,
        None => {
            return Err(RaworcError::validation_error("space is required"));
        },
    };
    let dockerfile = arguments.str_at("dockerfile");
    let context = arguments.str_at("context");
    let request = CreateBuildRequest {
        dockerfile: owned(dockerfile),
        context: owned(context),
    };
    Ok(ToolPlan { call: client.create_build(space, &request), output: Output::Pretty })
}

fn handle_get_latest_build(client: &RaworcClient, arguments: &Json) -> (r: RaworcResult<ToolPlan>)
    ensures
        plan_result_view(r) == get_latest_build_plan(client@, arguments@),
{
    let space = match arguments.str_at("space") {
        Some(text) => text,
        None => {
            return Err(RaworcError::validation_error("space is required"));
        },
    };
    Ok(ToolPlan { call: client.get_latest_build(space), output: Output::Pretty })
}

fn handle_get_build(client: &RaworcClient, arguments: &Json) -> (r: RaworcResult<ToolPlan>)
    ensures
        plan_result_view(r) == get_build_plan(client@, arguments@),
{
    let space = match arguments.str_at("space") {
        Some(text) => text,
        None => {
            return Err(RaworcError::validation_error("space is required"));
        },
    };
    let build_id = match arguments.str_at("build_id") {
        Some(text) => text,
        None => {
            return Err(RaworcError::validation_error("build_id is required"));
        },
    };
    Ok(ToolPlan { call: client.get_build(space, build_id), output: Output::Pretty })
}

/// What a tool call asks of the API: the plan of the tool of that name, or
/// a protocol error where no tool has the name.
pub open spec fn plan_for(client: ClientView, name: Seq<char>, arguments: JsonView) -> Result<
    PlanView,
    ErrorView,
> {
    if name == "list_sessions"@ {
        list_sessions_plan(client, arguments)
    } else if name == "create_session"@ {
        create_session_plan(client, arguments)
    } else if name == "get_session"@ {
        get_session_plan(client, arguments)
    } else if name == "send_message"@ {
        send_message_plan(client, arguments)
    } else if name == "get_messages"@ {
        get_messages_plan(client, arguments)
    } else if name == "pause_session"@ {
        pause_session_plan(client, arguments)
    } else if name == "resume_session"@ {
        resume_session_plan(client, arguments)
    } else if name == "terminate_session"@ {
        terminate_session_plan(client, arguments)
    } else if name == "list_spaces"@ {
        list_spaces_plan(client, arguments)
    } else if name == "list_agents"@ {
        list_agents_plan(client, arguments)
    } else if name == "get_agent_logs"@ {
        get_agent_logs_plan(client, arguments)
    } else if name == "list_secrets"@ {
        list_secrets_plan(client, arguments)
    } else if name == "get_secret"@ {
        get_secret_plan(client, arguments)
    } else if name == "set_secret"@ {
        set_secret_plan(client, arguments)
    } else if name == "delete_secret"@ {
        delete_secret_plan(client, arguments)
    } else if name == "health_check"@ {
        health_check_plan(client, arguments)
    } else if name == "get_version"@ {
        get_version_plan(client, arguments)
    } else if name == "list_service_accounts"@ {
        list_service_accounts_plan(client, arguments)
    } else if name == "create_service_account"@ {
        create_service_account_plan(client, arguments)
    } else if name == "get_service_account"@ {
        get_service_account_plan(client, arguments)
    } else if name == "update_service_account"@ {
        update_service_account_plan(client, arguments)
    } else if name == "delete_service_account"@ {
        delete_service_account_plan(client, arguments)
    } else if name == "update_service_account_password"@ {
        update_service_account_password_plan(client, arguments)
    } else if name == "list_roles"@ {
        list_roles_plan(client, arguments)
    } else if name == "create_role"@ {
        create_role_plan(client, arguments)
    } else if name == "get_role"@ {
        get_role_plan(client, arguments)
    } else if name == "delete_role"@ {
        delete_role_plan(client, arguments)
    } else if name == "list_role_bindings"@ {
        list_role_bindings_plan(client, arguments)
    } else if name == "create_role_binding"@ {
        create_role_binding_plan(client, arguments)
    } else if name == "get_role_binding"@ {
        get_role_binding_plan(client, arguments)
    } else if name == "delete_role_binding"@ {
        delete_role_binding_plan(client, arguments)
    } else if name == "create_space"@ {
        create_space_plan(client, arguments)
    } else if name == "get_space"@ {
        get_space_plan(client, arguments)
    } else if name == "update_space"@ {
        update_space_plan(client, arguments)
    } else if name == "delete_space"@ {
        delete_space_plan(client, arguments)
    } else if name == "update_session"@ {
        update_session_plan(client, arguments)
    } else if name == "update_session_state"@ {
        update_session_state_plan(client, arguments)
    } else if name == "close_session"@ {
        close_session_plan(client, arguments)
    } else if name == "restore_session"@ {
        restore_session_plan(client, arguments)
    } else if name == "remix_session"@ {
        remix_session_plan(client, arguments)
    } else if name == "get_message_count"@ {
        get_message_count_plan(client, arguments)
    } else if name == "clear_messages"@ {
        clear_messages_plan(client, arguments)
    } else if name == "create_agent"@ {
        create_agent_plan(client, arguments)
    } else if name == "get_agent"@ {
        get_agent_plan(client, arguments)
    } else if name == "update_agent"@ {
        update_agent_plan(client, arguments)
    } else if name == "delete_agent"@ {
        delete_agent_plan(client, arguments)
    } else if name == "update_agent_status"@ {
        update_agent_status_plan(client, arguments)
    } else if name == "deploy_agent"@ {
        deploy_agent_plan(client, arguments)
    } else if name == "stop_agent"@ {
        stop_agent_plan(client, arguments)
    } else if name == "list_running_agents"@ {
        list_running_agents_plan(client, arguments)
    } else if name == "create_secret"@ {
        create_secret_plan(client, arguments)
    } else if name == "update_secret"@ {
        update_secret_plan(client, arguments)
    } else if name == "create_build"@ {
        create_build_plan(client, arguments)
    } else if name == "get_latest_build"@ {
        get_latest_build_plan(client, arguments)
    } else if name == "get_build"@ {
        get_build_plan(client, arguments)
    } else {
        Err(ErrorView::McpError("Unknown tool: "@ + name))
    }
}

/// Whether a name is that of a tool.
pub open spec fn known_tool(name: Seq<char>) -> bool {
    ||| name == "list_sessions"@
    ||| name == "create_session"@
    ||| name == "get_session"@
    ||| name == "send_message"@
    ||| name == "get_messages"@
    ||| name == "pause_session"@
    ||| name == "resume_session"@
    ||| name == "terminate_session"@
    ||| name == "list_spaces"@
    ||| name == "list_agents"@
    ||| name == "get_agent_logs"@
    ||| name == "list_secrets"@
    ||| name == "get_secret"@
    ||| name == "set_secret"@
    ||| name == "delete_secret"@
    ||| name == "health_check"@
    ||| name == "get_version"@
    ||| name == "list_service_accounts"@
    ||| name == "create_service_account"@
    ||| name == "get_service_account"@
    ||| name == "update_service_account"@
    ||| name == "delete_service_account"@
    ||| name == "update_service_account_password"@
    ||| name == "list_roles"@
    ||| name == "create_role"@
    ||| name == "get_role"@
    ||| name == "delete_role"@
    ||| name == "list_role_bindings"@
    ||| name == "create_role_binding"@
    ||| name == "get_role_binding"@
    ||| name == "delete_role_binding"@
    ||| name == "create_space"@
    ||| name == "get_space"@
    ||| name == "update_space"@
    ||| name == "delete_space"@
    ||| name == "update_session"@
    ||| name == "update_session_state"@
    ||| name == "close_session"@
    ||| name == "restore_session"@
    ||| name == "remix_session"@
    ||| name == "get_message_count"@
    ||| name == "clear_messages"@
    ||| name == "create_agent"@
    ||| name == "get_agent"@
    ||| name == "update_agent"@
    ||| name == "delete_agent"@
    ||| name == "update_agent_status"@
    ||| name == "deploy_agent"@
    ||| name == "stop_agent"@
    ||| name == "list_running_agents"@
    ||| name == "create_secret"@
    ||| name == "update_secret"@
    ||| name == "create_build"@
    ||| name == "get_latest_build"@
    ||| name == "get_build"@
}

/// A call of a name that is no tool is a protocol error, whatever its arguments.
pub proof fn lemma_unknown_tool_is_a_protocol_error(
    client: ClientView,
    name: Seq<char>,
    arguments: JsonView,
)
    requires
        !known_tool(name),
    ensures
        plan_for(client, name, arguments) == Err::<PlanView, ErrorView>(
            ErrorView::McpError("Unknown tool: "@ + name),
        ),
{
}

/// A call of a tool is never a protocol error: where it is not valid, its
/// error says what is wrong with its arguments.
pub proof fn lemma_known_tool_is_no_protocol_error(
    client: ClientView,
    name: Seq<char>,
    arguments: JsonView,
)
    requires
        known_tool(name),
    ensures
        !(plan_for(client, name, arguments) is Err && plan_for(
            client,
            name,
            arguments,
        )->Err_0 is McpError),
{
}

/// Validates the arguments of a tool call and says what it asks of the
/// API.
pub fn plan(client: &RaworcClient, name: &str, arguments: &Json) -> (r: RaworcResult<ToolPlan>)
    ensures
        plan_result_view(r) == plan_for(client@, name@, arguments@),
{
    if text_eq(name, "list_sessions") {
        handle_list_sessions(client, arguments)
    } else if text_eq(name, "create_session") {
        handle_create_session(client, arguments)
    } else if text_eq(name, "get_session") {
        handle_get_session(client, arguments)
    } else if text_eq(name, "send_message") {
        handle_send_message(client, arguments)
    } else if text_eq(name, "get_messages") {
        handle_get_messages(client, arguments)
    } else if text_eq(name, "pause_session") {
        handle_pause_session(client, arguments)
    } else if text_eq(name, "resume_session") {
        handle_resume_session(client, arguments)
    } else if text_eq(name, "terminate_session") {
        handle_terminate_session(client, arguments)
    } else if text_eq(name, "list_spaces") {
        handle_list_spaces(client, arguments)
    } else if text_eq(name, "list_agents") {
        handle_list_agents(client, arguments)
    } else if text_eq(name, "get_agent_logs") {
        handle_get_agent_logs(client, arguments)
    } else if text_eq(name, "list_secrets") {
        handle_list_secrets(client, arguments)
    } else if text_eq(name, "get_secret") {
        handle_get_secret(client, arguments)
    } else if text_eq(name, "set_secret") {
        handle_set_secret(client, arguments)
    } else if text_eq(name, "delete_secret") {
        handle_delete_secret(client, arguments)
    } else if text_eq(name, "health_check") {
        handle_health_check(client, arguments)
    } else if text_eq(name, "get_version") {
        handle_get_version(client, arguments)
    } else if text_eq(name, "list_service_accounts") {
        handle_list_service_accounts(client, arguments)
    } else if text_eq(name, "create_service_account") {
        handle_create_service_account(client, arguments)
    } else if text_eq(name, "get_service_account") {
        handle_get_service_account(client, arguments)
    } else if text_eq(name, "update_service_account") {
        handle_update_service_account(client, arguments)
    } else if text_eq(name, "delete_service_account") {
        handle_delete_service_account(client, arguments)
    } else if text_eq(name, "update_service_account_password") {
        handle_update_service_account_password(client, arguments)
    } else if text_eq(name, "list_roles") {
        handle_list_roles(client, arguments)
    } else if text_eq(name, "create_role") {
        handle_create_role(client, arguments)
    } else if text_eq(name, "get_role") {
        handle_get_role(client, arguments)
    } else if text_eq(name, "delete_role") {
        handle_delete_role(client, arguments)
    } else if text_eq(name, "list_role_bindings") {
        handle_list_role_bindings(client, arguments)
    } else if text_eq(name, "create_role_binding") {
        handle_create_role_binding(client, arguments)
    } else if text_eq(name, "get_role_binding") {
        handle_get_role_binding(client, arguments)
    } else if text_eq(name, "delete_role_binding") {
        handle_delete_role_binding(client, arguments)
    } else if text_eq(name, "create_space") {
        handle_create_space(client, arguments)
    } else if text_eq(name, "get_space") {
        handle_get_space(client, arguments)
    } else if text_eq(name, "update_space") {
        handle_update_space(client, arguments)
    } else if text_eq(name, "delete_space") {
        handle_delete_space(client, arguments)
    } else if text_eq(name, "update_session") {
        handle_update_session(client, arguments)
    } else if text_eq(name, "update_session_state") {
        handle_update_session_state(client, arguments)
    } else if text_eq(name, "close_session") {
        handle_close_session(client, arguments)
    } else if text_eq(name, "restore_session") {
        handle_restore_session(client, arguments)
    } else if text_eq(name, "remix_session") {
        handle_remix_session(client, arguments)
    } else if text_eq(name, "get_message_count") {
        handle_get_message_count(client, arguments)
    } else if text_eq(name, "clear_messages") {
        handle_clear_messages(client, arguments)
    } else if text_eq(name, "create_agent") {
        handle_create_agent(client, arguments)
    } else if text_eq(name, "get_agent") {
        handle_get_agent(client, arguments)
    } else if text_eq(name, "update_agent") {
        handle_update_agent(client, arguments)
    } else if text_eq(name, "delete_agent") {
        handle_delete_agent(client, arguments)
    } else if text_eq(name, "update_agent_status") {
        handle_update_agent_status(client, arguments)
    } else if text_eq(name, "deploy_agent") {
        handle_deploy_agent(client, arguments)
    } else if text_eq(name, "stop_agent") {
        handle_stop_agent(client, arguments)
    } else if text_eq(name, "list_running_agents") {
        handle_list_running_agents(client, arguments)
    } else if text_eq(name, "create_secret") {
        handle_create_secret(client, arguments)
    } else if text_eq(name, "update_secret") {
        handle_update_secret(client, arguments)
    } else if text_eq(name, "create_build") {
        handle_create_build(client, arguments)
    } else if text_eq(name, "get_latest_build") {
        handle_get_latest_build(client, arguments)
    } else if text_eq(name, "get_build") {
        handle_get_build(client, arguments)
    } else {
        Err(RaworcError::McpError(followed_by("Unknown tool: ", name)))
    }
}

} // verus!
