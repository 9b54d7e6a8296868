//! The user's approval of a command, asked for in the frontend.
use vstd::prelude::*;

use crate::config::{RiskLevel, RiskLevelView};
use crate::error::{AppError, AppErrorView, AppResult};
use crate::text::join;

verus! {

/// How long the user has to approve or reject a command, in seconds.
pub const APPROVAL_TIMEOUT_SECS: u64 = 60;

/// Emitted to the frontend when a command needs the user's approval.
#[derive(Debug, Clone)]
pub struct McpApprovalRequest {
    /// The key under which the user's answer comes back.
    pub key: String,
    pub session_id: String,
    pub command: String,
    pub risk_level: RiskLevel,
}

/// The abstract value of a [`McpApprovalRequest`].
pub struct McpApprovalRequestView {
    pub key: Seq<char>,
    pub session_id: Seq<char>,
    pub command: Seq<char>,
    pub risk_level: RiskLevelView,
}

impl View for McpApprovalRequest {
    type V = McpApprovalRequestView;

    open spec fn view(&self) -> McpApprovalRequestView {
        McpApprovalRequestView {
            key: self.key@,
            session_id: self.session_id@,
            command: self.command@,
            risk_level: self.risk_level@,
        }
    }
}

/// The request for a command, under the key `mcp-` and the random id.
pub open spec fn approval_request(
    id: Seq<char>,
    session_id: Seq<char>,
    command: Seq<char>,
    risk: RiskLevelView,
) -> McpApprovalRequestView {
    McpApprovalRequestView { key: "mcp-"@ + id, session_id, command, risk_level: risk }
}

/// The request that asks the user to approve `command`, with `id` in its key.
pub fn request_approval(id: &str, session_id: &str, command: &str, risk: RiskLevel) -> (r:
    McpApprovalRequest)
    ensures
        r@ == approval_request(id@, session_id@, command@, risk@),
{
    McpApprovalRequest {
        key: join("mcp-", id),
        session_id: session_id.to_owned(),
        command: command.to_owned(),
        risk_level: risk,
    }
}

/// How the wait for the user's answer ended.
#[derive(Debug, Clone, Copy, PartialEq, Eq, Structural)]
pub enum ApprovalReply {
    /// The user answered: approved, or rejected.
    Answered(bool),
    /// The channel closed without an answer.
    Closed,
    /// No answer came in time.
    TimedOut,
}

/// What a reply means: the user's verdict, or why there is none.
pub open spec fn verdict(reply: ApprovalReply) -> Result<bool, AppErrorView> {
    match reply {
        ApprovalReply::Answered(approved) => Ok(approved),
        ApprovalReply::Closed => Err(AppErrorView::Channel("approval channel closed"@)),
        ApprovalReply::TimedOut => Err(AppErrorView::Config("command approval timed out"@)),
    }
}

/// What a reply means: the user's verdict, or why there is none.
pub fn approval_verdict(reply: ApprovalReply) -> (r: AppResult<bool>)
    ensures
        match r {
            Ok(approved) => verdict(reply) == Ok::<bool, AppErrorView>(approved),
            Err(error) => verdict(reply) == Err::<bool, AppErrorView>(error@),
        },
{
    match reply {
        ApprovalReply::Answered(approved) => Ok(approved),
        ApprovalReply::Closed => Err(AppError::Channel("approval channel closed".to_owned())),
        ApprovalReply::TimedOut => Err(AppError::Config("command approval timed out".to_owned())),
    }
}

} // verus!
