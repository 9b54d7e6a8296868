//! The abstract values that contracts speak of hide nothing: each holds every field of the
//! value that it stands for.
use vstd::prelude::*;

use crate::approval::McpApprovalRequest;
use crate::audit::AppendAiAuditRequest;
use crate::config::{
    AiExecutionProfile, AiExecutionProfileView, McpSettings, RiskLevel, RiskLevelView,
};
use crate::error::{done_view, AppError, AppErrorView, AppResult, ToolError, ToolErrorView};
use crate::execute::{
    CommandResult, ExecuteOutcome, ExecuteRequest, ExecuteStep, ExecuteStepView,
};
use crate::server::{
    outcome_view, step_view, AwaitingAddress, AwaitingListener, AwaitingLocalAddress,
    AwaitingServer, McpServerStatus, StartStepView,
};
use crate::session::{CaptureReply, SessionCommand, SessionInfo};
use crate::tools::{info_view, ExecuteCommandParams, TerminalInfo};

verus! {

/// Settings, profiles and risk levels are told in full.
pub proof fn law_config_views(settings: McpSettings, profile: AiExecutionProfile, risk: RiskLevel)
    ensures
        settings@.enabled == settings.enabled,
        settings@.bind_address == settings.bind_address@,
        settings.auth_token is None ==> settings@.auth_token is None,
        settings.auth_token matches Some(token) ==> settings@.auth_token == Some(token@),
        settings@.permission_mode == settings.permission_mode,
        settings@.allowed_sessions.len() == settings.allowed_sessions@.len(),
        forall|i: int|
            0 <= i < settings.allowed_sessions@.len() ==> #[trigger] settings@.allowed_sessions[i]
                == settings.allowed_sessions@[i]@,
        match profile {
            AiExecutionProfile::Disabled => profile@ is Disabled,
            AiExecutionProfile::Auto => profile@ is Auto,
            AiExecutionProfile::SendOnly => profile@ is SendOnly,
            AiExecutionProfile::Marker(name) => profile@ == AiExecutionProfileView::Marker(name@),
        },
        match risk {
            RiskLevel::High => risk@ is High,
            RiskLevel::Other(name) => risk@ == RiskLevelView::Other(name@),
        },
{
}

/// Errors are told in full, and so is whether something failed.
pub proof fn law_error_views(
    error: AppError,
    reason: ToolError,
    done: AppResult<()>,
    info: AppResult<SessionInfo>,
    outcome: Result<(), String>,
)
    ensures
        match error {
            AppError::Config(text) => error@ == AppErrorView::Config(text@),
            AppError::Channel(text) => error@ == AppErrorView::Channel(text@),
            AppError::Other(text) => error@ == AppErrorView::Other(text@),
        },
        match reason {
            ToolError::InvalidParams(text) => reason@ == ToolErrorView::InvalidParams(text@),
            ToolError::Internal(inner) => reason@ == ToolErrorView::Internal(inner@),
        },
        match done {
            Ok(_) => done_view(done) is Ok,
            Err(e) => done_view(done) == Err::<(), AppErrorView>(e@),
        },
        match info {
            Ok(session) => info_view(info) is Ok && info_view(info)->Ok_0 == session@,
            Err(e) => info_view(info) is Err && info_view(info)->Err_0 == e@,
        },
        match outcome {
            Ok(_) => outcome_view(outcome) is Ok,
            Err(message) => outcome_view(outcome) == Err::<(), Seq<char>>(message@),
        },
{
}

/// Sessions, what is sent to them and what comes back are told in full.
pub proof fn law_session_views(
    session: SessionInfo,
    terminal: TerminalInfo,
    command: SessionCommand,
    reply: CaptureReply,
)
    ensures
        session@.id == session.id@,
        session@.name == session.name@,
        session@.session_type == session.session_type@,
        session@.connected == session.connected,
        session@.ai_execution_profile == session.ai_execution_profile@,
        session.connection_id is None ==> session@.connection_id is None,
        session.connection_id matches Some(id) ==> session@.connection_id == Some(id@),
        terminal@.id == terminal.id@,
        terminal@.name == terminal.name@,
        terminal@.session_type == terminal.session_type@,
        terminal@.connected == terminal.connected,
        terminal@.ai_execution_profile == terminal.ai_execution_profile@,
        terminal.connection_id is None ==> terminal@.connection_id is None,
        terminal.connection_id matches Some(id) ==> terminal@.connection_id == Some(id@),
        match command {
            SessionCommand::Write { data, automated, origin, sensitivity } => {
                &&& command@ is Write
                &&& command@->data == data@
                &&& command@->automated == automated
                &&& command@->origin == origin
                &&& command@->sensitivity == sensitivity
            },
            SessionCommand::CaptureExec { marker_id, wrapped_command } => {
                &&& command@ is CaptureExec
                &&& command@->marker_id == marker_id@
                &&& command@->wrapped_command == wrapped_command@
            },
        },
        match reply {
            CaptureReply::Captured(captured) => {
                &&& reply@ is Captured
                &&& reply@->output == captured.output@
                &&& reply@->exit_code == captured.exit_code
                &&& reply@->duration_ms == captured.duration_ms
            },
            CaptureReply::Closed => reply@ is Closed,
            CaptureReply::TimedOut => reply@ is TimedOut,
        },
{
}

/// Requests to the user and entries of the audit log are told in full.
pub proof fn law_record_views(request: McpApprovalRequest, entry: AppendAiAuditRequest)
    ensures
        request@.key == request.key@,
        request@.session_id == request.session_id@,
        request@.command == request.command@,
        request@.risk_level == request.risk_level@,
        entry.connection_id is None ==> entry@.connection_id is None,
        entry.connection_id matches Some(id) ==> entry@.connection_id == Some(id@),
        entry@.action == entry.action@,
        entry.user_input is None ==> entry@.user_input is None,
        entry.user_input matches Some(text) ==> entry@.user_input == Some(text@),
        entry.generated_command is None ==> entry@.generated_command is None,
        entry.generated_command matches Some(text) ==> entry@.generated_command == Some(text@),
        entry.risk_level is None ==> entry@.risk_level is None,
        entry.risk_level matches Some(risk) ==> entry@.risk_level == Some(risk@),
        entry@.inserted_to_terminal == entry.inserted_to_terminal,
        entry@.executed == entry.executed,
        entry@.blocked == entry.blocked,
{
}

/// The steps of a command, its parameters and its end are told in full.
pub proof fn law_command_views(
    params: ExecuteCommandParams,
    request: ExecuteRequest,
    result: CommandResult,
    outcome: ExecuteOutcome,
    step: ExecuteStep,
)
    ensures
        params@.session_id == params.session_id@,
        params@.command == params.command@,
        params@.timeout_ms == params.timeout_ms,
        request@.session_id == request.session_id@,
        request@.command == request.command@,
        request@.timeout_ms == request.timeout_ms,
        result@.output == result.output@,
        result@.exit_code == result.exit_code,
        result@.duration_ms == result.duration_ms,
        result@.captured == result.captured,
        outcome.audit is None ==> outcome@.audit is None,
        outcome.audit matches Some(entry) ==> outcome@.audit == Some(entry@),
        match outcome.result {
            Ok(r) => outcome@.result is Ok && outcome@.result->Ok_0 == r@,
            Err(e) => outcome@.result is Err && outcome@.result->Err_0 == e@,
        },
        match step {
            ExecuteStep::AssessRisk(p) => step@ == (ExecuteStepView::AssessRisk {
                request: p.request@,
            }),
            ExecuteStep::RequestApproval(p) => step@ == (ExecuteStepView::RequestApproval {
                request: p.request@,
                risk: p.risk@,
                approval: p.approval@,
            }),
            ExecuteStep::LookUpSession(p) => step@ == (ExecuteStepView::LookUpSession {
                request: p.request@,
                risk: p.risk@,
            }),
            ExecuteStep::Write(p) => step@ == (ExecuteStepView::Write {
                request: p.request@,
                risk: p.risk@,
                input: p.input@,
            }),
            ExecuteStep::Wrap(p) => step@ == (ExecuteStepView::Wrap {
                request: p.request@,
                risk: p.risk@,
                profile: p.profile@,
                marker_id: p.marker_id@,
            }),
            ExecuteStep::SendCapture(p) => step@ == (ExecuteStepView::SendCapture {
                request: p.request@,
                risk: p.risk@,
                input: p.input@,
            }),
            ExecuteStep::AwaitCapture(p) => step@ == (ExecuteStepView::AwaitCapture {
                request: p.request@,
                risk: p.risk@,
            }),
            ExecuteStep::Finished(end) => step@ == (ExecuteStepView::Finished { outcome: end@ }),
        },
{
}

/// The steps of a start and the reported status are told in full.
pub proof fn law_server_views(
    status: McpServerStatus,
    first: AwaitingAddress,
    second: AwaitingListener,
    third: AwaitingLocalAddress,
    last: AwaitingServer,
    reached: AppResult<AwaitingServer>,
)
    ensures
        status@.running == status.running,
        status.bind_address is None ==> status@.bind_address is None,
        status.bind_address matches Some(address) ==> status@.bind_address == Some(address@),
        first@ == (StartStepView::ParseAddress { settings: first.settings@ }),
        second@ == (StartStepView::Bind { settings: second.settings@ }),
        third@ == (StartStepView::ResolveAddress { settings: third.settings@ }),
        last@ is Serve,
        last@->Serve_settings == last.tools.settings@,
        last@->address == last.address@,
        last.auth_token is None ==> last@->auth_token is None,
        last.auth_token matches Some(token) ==> last@->auth_token == Some(token@),
        match reached {
            Ok(next) => step_view(reached) == next@,
            Err(error) => step_view(reached) == (StartStepView::Failed { error: error@ }),
        },
{
}

} // verus!
