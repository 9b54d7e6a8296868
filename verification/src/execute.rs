//! The steps of running a command in a terminal.
//!
//! Each step says what is to be done outside: the local risk assessment, the user's
//! approval, the session's state, what is sent to the session. What came back goes into the
//! [`McpTools`](crate::tools::McpTools) method that takes the step, which gives the next one.
use vstd::prelude::*;

use crate::approval::{McpApprovalRequest, McpApprovalRequestView};
use crate::audit::{audit_entry, AppendAiAuditRequest, AppendAiAuditRequestView};
use crate::config::{
    AiExecutionProfile, AiExecutionProfileView, RiskLevel, RiskLevelView,
};
use crate::error::{AppErrorView, ToolError, ToolErrorView};
use crate::session::{SessionCommand, SessionCommandView};

verus! {

/// What became of a command.
#[derive(Debug, Clone)]
pub struct CommandResult {
    pub output: String,
    pub exit_code: Option<i32>,
    pub duration_ms: u64,
    /// False when the command was sent to the terminal but its output could not be captured
    /// (as under the `SendOnly` execution profile).
    pub captured: bool,
}

/// The abstract value of a [`CommandResult`].
pub struct CommandResultView {
    pub output: Seq<char>,
    pub exit_code: Option<i32>,
    pub duration_ms: u64,
    pub captured: bool,
}

impl View for CommandResult {
    type V = CommandResultView;

    open spec fn view(&self) -> CommandResultView {
        CommandResultView {
            output: self.output@,
            exit_code: self.exit_code,
            duration_ms: self.duration_ms,
            captured: self.captured,
        }
    }
}

/// A command that passed the checks on the call itself.
#[derive(Debug)]
pub struct ExecuteRequest {
    pub session_id: String,
    /// The command, without white space around it.
    pub command: String,
    /// How long to wait for captured output, in milliseconds.
    pub timeout_ms: u64,
}

/// The abstract value of an [`ExecuteRequest`].
pub struct ExecuteRequestView {
    pub session_id: Seq<char>,
    pub command: Seq<char>,
    pub timeout_ms: u64,
}

impl View for ExecuteRequest {
    type V = ExecuteRequestView;

    open spec fn view(&self) -> ExecuteRequestView {
        ExecuteRequestView {
            session_id: self.session_id@,
            command: self.command@,
            timeout_ms: self.timeout_ms,
        }
    }
}

/// The command's risk is to be assessed.
#[derive(Debug)]
pub struct AwaitingRisk {
    pub request: ExecuteRequest,
}

/// The approval request is to be emitted, and the user's answer awaited.
#[derive(Debug)]
pub struct AwaitingApproval {
    pub request: ExecuteRequest,
    pub risk: RiskLevel,
    pub approval: McpApprovalRequest,
}

/// The session's state is to be looked up.
#[derive(Debug)]
pub struct AwaitingSession {
    pub request: ExecuteRequest,
    pub risk: RiskLevel,
}

/// The input is to be sent to the session, and the time this takes measured.
#[derive(Debug)]
pub struct AwaitingWrite {
    pub request: ExecuteRequest,
    pub risk: RiskLevel,
    pub input: SessionCommand,
}

/// The command is to be wrapped in the markers of the profile, under the marker's id.
#[derive(Debug)]
pub struct AwaitingWrap {
    pub request: ExecuteRequest,
    pub risk: RiskLevel,
    pub profile: AiExecutionProfile,
    pub marker_id: String,
}

/// The wrapped command is to be sent to the session.
#[derive(Debug)]
pub struct AwaitingSend {
    pub request: ExecuteRequest,
    pub risk: RiskLevel,
    pub input: SessionCommand,
}

/// The captured output is to be awaited, for as long as the request says.
#[derive(Debug)]
pub struct AwaitingCapture {
    pub request: ExecuteRequest,
    pub risk: RiskLevel,
}

/// The end of a call: the entry for the audit log, if there is one, and the client's answer.
#[derive(Debug)]
pub struct ExecuteOutcome {
    pub audit: Option<AppendAiAuditRequest>,
    pub result: Result<CommandResult, ToolError>,
}

/// The abstract value of an [`ExecuteOutcome`].
pub struct ExecuteOutcomeView {
    pub audit: Option<AppendAiAuditRequestView>,
    pub result: Result<CommandResultView, ToolErrorView>,
}

impl View for ExecuteOutcome {
    type V = ExecuteOutcomeView;

    open spec fn view(&self) -> ExecuteOutcomeView {
        ExecuteOutcomeView {
            audit: match self.audit {
                Some(entry) => Some(entry@),
                None => None,
            },
            result: match self.result {
                Ok(result) => Ok(result@),
                Err(error) => Err(error@),
            },
        }
    }
}

/// What is to be done next for a command.
#[derive(Debug)]
pub enum ExecuteStep {
    AssessRisk(AwaitingRisk),
    RequestApproval(AwaitingApproval),
    LookUpSession(AwaitingSession),
    Write(AwaitingWrite),
    Wrap(AwaitingWrap),
    SendCapture(AwaitingSend),
    AwaitCapture(AwaitingCapture),
    Finished(ExecuteOutcome),
}

/// The abstract value of an [`ExecuteStep`].
pub enum ExecuteStepView {
    AssessRisk { request: ExecuteRequestView },
    RequestApproval {
        request: ExecuteRequestView,
        risk: RiskLevelView,
        approval: McpApprovalRequestView,
    },
    LookUpSession { request: ExecuteRequestView, risk: RiskLevelView },
    Write { request: ExecuteRequestView, risk: RiskLevelView, input: SessionCommandView },
    Wrap {
        request: ExecuteRequestView,
        risk: RiskLevelView,
        profile: AiExecutionProfileView,
        marker_id: Seq<char>,
    },
    SendCapture { request: ExecuteRequestView, risk: RiskLevelView, input: SessionCommandView },
    AwaitCapture { request: ExecuteRequestView, risk: RiskLevelView },
    Finished { outcome: ExecuteOutcomeView },
}

impl View for ExecuteStep {
    type V = ExecuteStepView;

    open spec fn view(&self) -> ExecuteStepView {
        match self {
            ExecuteStep::AssessRisk(p) => ExecuteStepView::AssessRisk { request: p.request@ },
            ExecuteStep::RequestApproval(p) => ExecuteStepView::RequestApproval {
                request: p.request@,
                risk: p.risk@,
                approval: p.approval@,
            },
            ExecuteStep::LookUpSession(p) => ExecuteStepView::LookUpSession {
                request: p.request@,
                risk: p.risk@,
            },
            ExecuteStep::Write(p) => ExecuteStepView::Write {
                request: p.request@,
                risk: p.risk@,
                input: p.input@,
            },
            ExecuteStep::Wrap(p) => ExecuteStepView::Wrap {
                request: p.request@,
                risk: p.risk@,
                profile: p.profile@,
                marker_id: p.marker_id@,
            },
            ExecuteStep::SendCapture(p) => ExecuteStepView::SendCapture {
                request: p.request@,
                risk: p.risk@,
                input: p.input@,
            },
            ExecuteStep::AwaitCapture(p) => ExecuteStepView::AwaitCapture {
                request: p.request@,
                risk: p.risk@,
            },
            ExecuteStep::Finished(outcome) => ExecuteStepView::Finished { outcome: outcome@ },
        }
    }
}

/// The call is refused before the command is considered: nothing goes into the audit log.
pub open spec fn refused(error: ToolErrorView) -> ExecuteStepView {
    ExecuteStepView::Finished { outcome: ExecuteOutcomeView { audit: None, result: Err(error) } }
}

/// The command is blocked: it is logged as such, at the highest risk.
pub open spec fn blocked(request: ExecuteRequestView, error: AppErrorView) -> ExecuteStepView {
    ExecuteStepView::Finished {
        outcome: ExecuteOutcomeView {
            audit: Some(
                audit_entry(request.session_id, request.command, RiskLevelView::High, false, true),
            ),
            result: Err(ToolErrorView::Internal(error)),
        },
    }
}

/// The command was let through but could not be run.
pub open spec fn failed(
    request: ExecuteRequestView,
    risk: RiskLevelView,
    error: AppErrorView,
) -> ExecuteStepView {
    ExecuteStepView::Finished {
        outcome: ExecuteOutcomeView {
            audit: Some(
                audit_entry(request.session_id, request.command, risk, false, false),
            ),
            result: Err(ToolErrorView::Internal(error)),
        },
    }
}

/// The command was run.
pub open spec fn executed(
    request: ExecuteRequestView,
    risk: RiskLevelView,
    result: CommandResultView,
) -> ExecuteStepView {
    ExecuteStepView::Finished {
        outcome: ExecuteOutcomeView {
            audit: Some(audit_entry(request.session_id, request.command, risk, true, false)),
            result: Ok(result),
        },
    }
}

} // verus!
