//! The errors of the application, and those that go out to MCP clients.
use vstd::prelude::*;

verus! {

/// An error of the application.
#[derive(Debug)]
pub enum AppError {
    /// The request or the settings do not allow it.
    Config(String),
    /// A channel to another part of the application closed.
    Channel(String),
    /// Any other error, by the text that the application shows for it.
    Other(String),
}

/// What the application's fallible operations return.
pub type AppResult<T> = Result<T, AppError>;

/// The abstract value of an [`AppError`].
pub enum AppErrorView {
    Config(Seq<char>),
    Channel(Seq<char>),
    Other(Seq<char>),
}

impl View for AppError {
    type V = AppErrorView;

    open spec fn view(&self) -> AppErrorView {
        match self {
            AppError::Config(text) => AppErrorView::Config(text@),
            AppError::Channel(text) => AppErrorView::Channel(text@),
            AppError::Other(text) => AppErrorView::Other(text@),
        }
    }
}

/// The abstract value of a result that carries nothing.
pub open spec fn done_view(r: AppResult<()>) -> Result<(), AppErrorView> {
    match r {
        Ok(_) => Ok(()),
        Err(error) => Err(error@),
    }
}

/// Why a tool call failed.
#[derive(Debug)]
pub enum ToolError {
    /// The call's parameters are refused, for the reason given.
    InvalidParams(String),
    /// The call could not be carried out.
    Internal(AppError),
}

/// The abstract value of a [`ToolError`].
pub enum ToolErrorView {
    InvalidParams(Seq<char>),
    Internal(AppErrorView),
}

impl View for ToolError {
    type V = ToolErrorView;

    open spec fn view(&self) -> ToolErrorView {
        match self {
            ToolError::InvalidParams(text) => ToolErrorView::InvalidParams(text@),
            ToolError::Internal(error) => ToolErrorView::Internal(error@),
        }
    }
}

/// The JSON-RPC code of a call whose parameters are refused.
pub const INVALID_PARAMS: i32 = -32602;

/// The JSON-RPC code of a call that could not be carried out.
pub const INTERNAL_ERROR: i32 = -32603;

/// An error as it goes out to a client, without additional data.
#[derive(Debug)]
pub struct McpError {
    /// The JSON-RPC code.
    pub code: i32,
    /// What went wrong.
    pub message: String,
}

/// `rmcp::ErrorData::invalid_params` makes the error with code -32602 and the given message.
#[verifier::external_body]
fn invalid_params(message: String) -> (r: (i32, String))
    ensures
        r.0 == INVALID_PARAMS,
        r.1@ == message@,
{
    let error = rmcp::ErrorData::invalid_params(message, None);
    (error.code.0, error.message.into_owned())
}

/// `rmcp::ErrorData::internal_error` makes the error with code -32603 and the given message.
#[verifier::external_body]
fn internal_error(message: String) -> (r: (i32, String))
    ensures
        r.0 == INTERNAL_ERROR,
        r.1@ == message@,
{
    let error = rmcp::ErrorData::internal_error(message, None);
    (error.code.0, error.message.into_owned())
}

impl ToolError {
    /// The error that the client is sent. `shown` is the text that the application shows
    /// for the error inside, where there is one.
    pub fn into_mcp_error(self, shown: String) -> (r: McpError)
        ensures
            match self@ {
                ToolErrorView::InvalidParams(text) => r.code == INVALID_PARAMS && r.message@
                    == text,
                ToolErrorView::Internal(_) => r.code == INTERNAL_ERROR && r.message@ == shown@,
            },
            match self {
                ToolError::InvalidParams(text) => r.code == -32602 && r.message@ == text@,
                ToolError::Internal(_) => r.code == -32603 && r.message@ == shown@,
            },
    {
        let (code, message) = match self {
            ToolError::InvalidParams(text) => invalid_params(text),
            ToolError::Internal(_) => internal_error(shown),
        };
        McpError { code, message }
    }
}

} // verus!
