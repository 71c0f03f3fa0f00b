//! What can go wrong in the adapter.

use crate::json::{parsed, Json, JsonView};
use crate::models::ApiErrorResponse;
use crate::shape::Shape;
use crate::text::followed_by;
use vstd::prelude::*;

verus! {

/// An error of the adapter.
#[derive(Debug, Clone, PartialEq)]
pub enum RaworcError {
    /// The HTTP exchange itself failed; the text is the transport's report.
    HttpError(String),
    /// JSON text could not be read or written, or did not have the expected shape.
    JsonError(String),
    /// The API answered 401.
    AuthError(String),
    /// The API answered with a status that is neither success, 401 nor 404.
    ApiError { status: u16, message: String },
    /// The API answered 404.
    NotFound(String),
    ConfigError(String),
    /// A tool argument is missing or not acceptable.
    ValidationError(String),
    /// The HTTP exchange ran out of time.
    TimeoutError(String),
    InternalError(String),
    /// The tool protocol was not followed, as with an unknown tool name.
    McpError(String),
}

pub type RaworcResult<T> = Result<T, RaworcError>;

/// The mathematical model of an error.
pub ghost enum ErrorView {
    HttpError(Seq<char>),
    JsonError(Seq<char>),
    AuthError(Seq<char>),
    ApiError { status: u16, message: Seq<char> },
    NotFound(Seq<char>),
    ConfigError(Seq<char>),
    ValidationError(Seq<char>),
    TimeoutError(Seq<char>),
    InternalError(Seq<char>),
    McpError(Seq<char>),
}

impl ErrorView {
    /// The text that reports the error.
    pub open spec fn message(self) -> Seq<char> {
        match self {
            ErrorView::HttpError(m) => "HTTP request failed: "@ + m,
            ErrorView::JsonError(m) => "JSON serialization/deserialization failed: "@ + m,
            ErrorView::AuthError(m) => "Authentication failed: "@ + m,
            ErrorView::ApiError { status, message } => "API error: "@ + message,
            ErrorView::NotFound(m) => "Resource not found: "@ + m,
            ErrorView::ConfigError(m) => "Invalid configuration: "@ + m,
            ErrorView::ValidationError(m) => "Invalid input: "@ + m,
            ErrorView::TimeoutError(m) => "Timeout error: "@ + m,
            ErrorView::InternalError(m) => "Internal error: "@ + m,
            ErrorView::McpError(m) => "MCP protocol error: "@ + m,
        }
    }
}

impl View for RaworcError {
    type V = ErrorView;

    open spec fn view(&self) -> ErrorView {
        match self {
            RaworcError::HttpError(m) => ErrorView::HttpError(m@),
            RaworcError::JsonError(m) => ErrorView::JsonError(m@),
            RaworcError::AuthError(m) => ErrorView::AuthError(m@),
            RaworcError::ApiError { status, message } => ErrorView::ApiError {
                status: *status,
                message: message@,
            },
            RaworcError::NotFound(m) => ErrorView::NotFound(m@),
            RaworcError::ConfigError(m) => ErrorView::ConfigError(m@),
            RaworcError::ValidationError(m) => ErrorView::ValidationError(m@),
            RaworcError::TimeoutError(m) => ErrorView::TimeoutError(m@),
            RaworcError::InternalError(m) => ErrorView::InternalError(m@),
            RaworcError::McpError(m) => ErrorView::McpError(m@),
        }
    }
}

impl RaworcError {
    pub fn api_error(status: u16, message: String) -> (r: Self)
        ensures
            r@ == (ErrorView::ApiError { status, message: message@ }),
    {
        RaworcError::ApiError { status, message }
    }

    pub fn not_found(resource: &str) -> (r: Self)
        ensures
            r@ == ErrorView::NotFound(resource@),
    {
        RaworcError::NotFound(resource.to_owned())
    }

    pub fn auth_error(message: &str) -> (r: Self)
        ensures
            r@ == ErrorView::AuthError(message@),
    {
        RaworcError::AuthError(message.to_owned())
    }

    pub fn validation_error(message: &str) -> (r: Self)
        ensures
            r@ == ErrorView::ValidationError(message@),
    {
        RaworcError::ValidationError(message.to_owned())
    }

    pub fn config_error(message: &str) -> (r: Self)
        ensures
            r@ == ErrorView::ConfigError(message@),
    {
        RaworcError::ConfigError(message.to_owned())
    }

    pub fn timeout_error(message: &str) -> (r: Self)
        ensures
            r@ == ErrorView::TimeoutError(message@),
    {
        RaworcError::TimeoutError(message.to_owned())
    }

    pub fn internal_error(message: &str) -> (r: Self)
        ensures
            r@ == ErrorView::InternalError(message@),
    {
        RaworcError::InternalError(message.to_owned())
    }

    pub fn mcp_error(message: &str) -> (r: Self)
        ensures
            r@ == ErrorView::McpError(message@),
    {
        RaworcError::McpError(message.to_owned())
    }

    /// A copy of the error.
    pub fn duplicate(&self) -> (r: Self)
        ensures
            r@ == self@,
    {
        match self {
            RaworcError::HttpError(m) => RaworcError::HttpError(m.clone()),
            RaworcError::JsonError(m) => RaworcError::JsonError(m.clone()),
            RaworcError::AuthError(m) => RaworcError::AuthError(m.clone()),
            RaworcError::ApiError { status, message } => RaworcError::ApiError {
                status: *status,
                message: message.clone(),
            },
            RaworcError::NotFound(m) => RaworcError::NotFound(m.clone()),
            RaworcError::ConfigError(m) => RaworcError::ConfigError(m.clone()),
            RaworcError::ValidationError(m) => RaworcError::ValidationError(m.clone()),
            RaworcError::TimeoutError(m) => RaworcError::TimeoutError(m.clone()),
            RaworcError::InternalError(m) => RaworcError::InternalError(m.clone()),
            RaworcError::McpError(m) => RaworcError::McpError(m.clone()),
        }
    }

    /// The text that reports the error.
    pub fn to_string(&self) -> (r: String)
        ensures
            r@ == self@.message(),
    {
        match self {
            RaworcError::HttpError(m) => followed_by("HTTP request failed: ", m.as_str()),
            RaworcError::JsonError(m) => followed_by(
                "JSON serialization/deserialization failed: ",
                m.as_str(),
            ),
            RaworcError::AuthError(m) => followed_by("Authentication failed: ", m.as_str()),
            RaworcError::ApiError { status, message } => followed_by(
                "API error: ",
                message.as_str(),
            ),
            RaworcError::NotFound(m) => followed_by("Resource not found: ", m.as_str()),
            RaworcError::ConfigError(m) => followed_by("Invalid configuration: ", m.as_str()),
            RaworcError::ValidationError(m) => followed_by("Invalid input: ", m.as_str()),
            RaworcError::TimeoutError(m) => followed_by("Timeout error: ", m.as_str()),
            RaworcError::InternalError(m) => followed_by("Internal error: ", m.as_str()),
            RaworcError::McpError(m) => followed_by("MCP protocol error: ", m.as_str()),
        }
    }
}

/// The message of the error that a body reports: the body is JSON of the
/// shape `{"error": {"message": ...}}`, other members ignored.
pub open spec fn reported_message(body: Seq<char>) -> Option<Seq<char>> {
    match parsed(body) {
        Ok(doc) => if ApiErrorResponse::accepts(doc) {
            Some(ApiErrorResponse::normal(doc)->Object_0[0].1->Object_0[0].1->String_0)
        } else {
            None
        },
        Err(_) => None,
    }
}

impl ApiErrorResponse {
    /// Reads the body with which the API reports an error.
    pub fn parse(body: &str) -> (r: Option<ApiErrorResponse>)
        ensures
            match r {
                Some(response) => reported_message(body@) == Some(response.error.message@),
                None => reported_message(body@) is None,
            },
    {
        match Json::parse(body) {
            Ok(doc) => ApiErrorResponse::from_json(&doc),
            Err(_) => None,
        }
    }
}

} // verus!
