//! The MCP tools on the user's terminal sessions.
//!
//! Each tool decides here what is allowed, what is sent to a session and what the client is
//! answered, behind the permission mode, the session allow-list, the local risk assessment,
//! the user's approval and the audit trail.
use vstd::prelude::*;

use crate::approval::{
    approval_request, approval_verdict, request_approval, verdict, ApprovalReply,
};
use crate::audit::record_audit;
use crate::config::{
    AiExecutionProfile, AiExecutionProfileView, AiPermissionMode, McpSettings, McpSettingsView,
    RiskLevel, RiskLevelView,
};
use crate::error::{
    done_view, AppError, AppErrorView, AppResult, ToolError, ToolErrorView,
};
use crate::execute::{
    blocked, executed, failed, refused, AwaitingApproval, AwaitingCapture, AwaitingRisk,
    AwaitingSend, AwaitingSession, AwaitingWrap, AwaitingWrite, CommandResult, CommandResultView,
    ExecuteOutcome, ExecuteRequest, ExecuteRequestView, ExecuteStep, ExecuteStepView,
};
use crate::ids::{is_uuid_v4, new_uuid_v4};
use crate::session::{
    type_input, typed_input, CaptureReply, CaptureReplyView, SessionCommand, SessionCommandView,
    SessionInfo, SessionInfoView,
};
use crate::text::{join, trimmed};

verus! {

/// The command timeout when the client gives none, in milliseconds.
pub const DEFAULT_TIMEOUT_MS: u64 = 30_000;

/// The command timeout when the client gives none, in milliseconds.
pub fn default_timeout_ms() -> (ms: u64)
    ensures
        ms == 30_000,
{
    DEFAULT_TIMEOUT_MS
}

/// What a client is told of a terminal session.
#[derive(Debug, Clone)]
pub struct TerminalInfo {
    pub id: String,
    pub name: String,
    pub session_type: String,
    pub connected: bool,
    pub ai_execution_profile: String,
    pub connection_id: Option<String>,
}

/// The abstract value of a [`TerminalInfo`].
pub struct TerminalInfoView {
    pub id: Seq<char>,
    pub name: Seq<char>,
    pub session_type: Seq<char>,
    pub connected: bool,
    pub ai_execution_profile: Seq<char>,
    pub connection_id: Option<Seq<char>>,
}

impl View for TerminalInfo {
    type V = TerminalInfoView;

    open spec fn view(&self) -> TerminalInfoView {
        TerminalInfoView {
            id: self.id@,
            name: self.name@,
            session_type: self.session_type@,
            connected: self.connected,
            ai_execution_profile: self.ai_execution_profile@,
            connection_id: self.connection_id.deep_view(),
        }
    }
}

/// The parameters of `execute_command`.
#[derive(Debug, Clone)]
pub struct ExecuteCommandParams {
    /// The target session (from `list_terminals`).
    pub session_id: String,
    /// A single shell command.
    pub command: String,
    /// How long to wait for its output, in milliseconds.
    pub timeout_ms: u64,
}

/// The abstract value of the [`ExecuteCommandParams`].
pub struct ExecuteCommandParamsView {
    pub session_id: Seq<char>,
    pub command: Seq<char>,
    pub timeout_ms: u64,
}

impl View for ExecuteCommandParams {
    type V = ExecuteCommandParamsView;

    open spec fn view(&self) -> ExecuteCommandParamsView {
        ExecuteCommandParamsView {
            session_id: self.session_id@,
            command: self.command@,
            timeout_ms: self.timeout_ms,
        }
    }
}

/// The parameters of `write_to_terminal`.
#[derive(Debug, Clone)]
pub struct WriteParams {
    pub session_id: String,
    /// Raw input to send (may include control sequences).
    pub data: String,
    /// Whether the enter key follows it.
    pub send_enter: bool,
}

/// The abstract value of a session look-up.
pub open spec fn info_view(info: AppResult<SessionInfo>) -> Result<SessionInfoView, AppErrorView> {
    match info {
        Ok(session) => Ok(session@),
        Err(error) => Err(error@),
    }
}

/// What a client is told of a session.
pub open spec fn terminal_info(session: SessionInfoView) -> TerminalInfoView {
    TerminalInfoView {
        id: session.id,
        name: session.name,
        session_type: session.session_type,
        connected: session.connected,
        ai_execution_profile: session.ai_execution_profile.name(),
        connection_id: session.connection_id,
    }
}

/// The listing of the sessions that the allow-list admits, in their order.
pub open spec fn terminal_list(
    settings: McpSettingsView,
    sessions: Seq<SessionInfoView>,
) -> Seq<TerminalInfoView> {
    sessions.filter(|s: SessionInfoView| settings.admits(s.id)).map_values(
        |s: SessionInfoView| terminal_info(s),
    )
}

/// The error of everything that writes while the server is read-only.
pub open spec fn observer_error() -> AppErrorView {
    AppErrorView::Config("MCP server is in observer mode (read-only)"@)
}

/// The error of a call on a session that the allow-list does not admit.
pub open spec fn session_refused() -> ToolErrorView {
    ToolErrorView::InvalidParams("session is not in the MCP allowed-session list"@)
}

/// How a call of `execute_command` starts: it is refused, or the command's risk is assessed.
pub open spec fn execute_command_step(
    settings: McpSettingsView,
    params: ExecuteCommandParamsView,
) -> ExecuteStepView {
    let command = trimmed(params.command);
    if command.len() == 0 {
        refused(ToolErrorView::InvalidParams("command must not be empty"@))
    } else if !settings.admits(params.session_id) {
        refused(session_refused())
    } else if settings.permission_mode is Observer {
        refused(ToolErrorView::Internal(observer_error()))
    } else {
        ExecuteStepView::AssessRisk {
            request: ExecuteRequestView {
                session_id: params.session_id,
                command,
                timeout_ms: params.timeout_ms,
            },
        }
    }
}

/// What follows the risk assessment: the user is asked in `Confirm` mode, under a key made
/// with `id`, and in `Auto` mode the command goes on.
pub open spec fn risk_step(
    mode: AiPermissionMode,
    request: ExecuteRequestView,
    risk: RiskLevelView,
    id: Seq<char>,
) -> ExecuteStepView {
    match mode {
        AiPermissionMode::Auto => ExecuteStepView::LookUpSession { request, risk },
        AiPermissionMode::Observer => blocked(request, observer_error()),
        AiPermissionMode::Confirm => ExecuteStepView::RequestApproval {
            request,
            risk,
            approval: approval_request(id, request.session_id, request.command, risk),
        },
    }
}

/// What follows the user's answer: the command goes on only if it was approved.
pub open spec fn approval_step(
    request: ExecuteRequestView,
    risk: RiskLevelView,
    reply: ApprovalReply,
) -> ExecuteStepView {
    match verdict(reply) {
        Ok(approved) => if approved {
            ExecuteStepView::LookUpSession { request, risk }
        } else {
            blocked(request, AppErrorView::Config("command rejected by user"@))
        },
        Err(error) => blocked(request, error),
    }
}

/// What follows the look-up of the session: its profile says how the command is run. `id`
/// becomes the id of the markers where there are any.
pub open spec fn session_step(
    request: ExecuteRequestView,
    risk: RiskLevelView,
    info: Result<SessionInfoView, AppErrorView>,
    id: Seq<char>,
) -> ExecuteStepView {
    match info {
        Err(error) => failed(request, risk, error),
        Ok(session) => profile_step(request, risk, session.ai_execution_profile, id),
    }
}

/// The session was found, and its commands are wrapped in capture markers.
pub open spec fn uses_markers(info: Result<SessionInfoView, AppErrorView>) -> bool {
    info matches Ok(session) && session.ai_execution_profile is Marker
}

/// How a command is run under a session's profile.
pub open spec fn profile_step(
    request: ExecuteRequestView,
    risk: RiskLevelView,
    profile: AiExecutionProfileView,
    id: Seq<char>,
) -> ExecuteStepView {
    match profile {
        AiExecutionProfileView::Disabled => failed(
            request,
            risk,
            AppErrorView::Config("AI execution is disabled for this session"@),
        ),
        AiExecutionProfileView::Auto | AiExecutionProfileView::SendOnly => ExecuteStepView::Write { request, risk, input: typed_input(request.command, true) },
        AiExecutionProfileView::Marker(name) => ExecuteStepView::Wrap {
            request,
            risk,
            profile: AiExecutionProfileView::Marker(name),
            marker_id: id,
        },
    }
}

/// What follows the sending of a command whose output is not captured. The duration is that
/// of the sending, in milliseconds and modulo 2^64.
pub open spec fn write_step(
    request: ExecuteRequestView,
    risk: RiskLevelView,
    sent: Result<(), AppErrorView>,
    elapsed_ms: u128,
) -> ExecuteStepView {
    match sent {
        Ok(_) => executed(
            request,
            risk,
            CommandResultView {
                output:
                    "command sent to terminal (output capture unavailable for this session profile)"@,
                exit_code: None,
                duration_ms: (elapsed_ms % 0x1_0000_0000_0000_0000u128) as u64,
                captured: false,
            },
        ),
        Err(error) => failed(request, risk, error),
    }
}

/// What follows the wrapping of the command: it is sent under the markers' id, unless the
/// profile has no markers.
pub open spec fn wrap_step(
    request: ExecuteRequestView,
    risk: RiskLevelView,
    profile: AiExecutionProfileView,
    marker_id: Seq<char>,
    wrapped: Option<Seq<char>>,
) -> ExecuteStepView {
    match wrapped {
        Some(text) => ExecuteStepView::SendCapture {
            request,
            risk,
            input: SessionCommandView::CaptureExec {
                marker_id,
                wrapped_command: vstd::utf8::encode_utf8(text),
            },
        },
        None => failed(
            request,
            risk,
            AppErrorView::Config("unsupported AI execution profile: "@ + profile.name()),
        ),
    }
}

/// What follows the sending of a wrapped command: its output is awaited.
pub open spec fn send_step(
    request: ExecuteRequestView,
    risk: RiskLevelView,
    sent: Result<(), AppErrorView>,
) -> ExecuteStepView {
    match sent {
        Ok(_) => ExecuteStepView::AwaitCapture { request, risk },
        Err(error) => failed(request, risk, error),
    }
}

/// What follows the wait for captured output.
pub open spec fn capture_step(
    request: ExecuteRequestView,
    risk: RiskLevelView,
    reply: CaptureReplyView,
) -> ExecuteStepView {
    match reply {
        CaptureReplyView::Captured { output, exit_code, duration_ms } => executed(
            request,
            risk,
            CommandResultView { output, exit_code, duration_ms, captured: true },
        ),
        CaptureReplyView::Closed => failed(
            request,
            risk,
            AppErrorView::Channel("capture channel closed — session may have disconnected"@),
        ),
        CaptureReplyView::TimedOut => failed(
            request,
            risk,
            AppErrorView::Config("command timed out"@),
        ),
    }
}

/// What `write_to_terminal` sends to which session, or why it sends nothing.
pub open spec fn write_to_terminal_input(
    settings: McpSettingsView,
    session_id: Seq<char>,
    data: Seq<char>,
    send_enter: bool,
) -> Result<SessionCommandView, ToolErrorView> {
    if !settings.admits(session_id) {
        Err(session_refused())
    } else if settings.permission_mode is Observer {
        Err(ToolErrorView::Internal(observer_error()))
    } else {
        Ok(typed_input(data, send_enter))
    }
}

/// The tools, under the settings they were made with.
#[derive(Debug, Clone)]
pub struct McpTools {
    pub settings: McpSettings,
}

/// The call is refused before the command is considered.
fn refuse(error: ToolError) -> (step: ExecuteStep)
    ensures
        step@ == refused(error@),
{
    ExecuteStep::Finished(ExecuteOutcome { audit: None, result: Err(error) })
}

/// The command is blocked.
fn block(request: &ExecuteRequest, error: AppError) -> (step: ExecuteStep)
    ensures
        step@ == blocked(request@, error@),
{
    let entry = record_audit(
        request.session_id.as_str(),
        request.command.as_str(),
        RiskLevel::High,
        false,
        true,
    );
    ExecuteStep::Finished(
        ExecuteOutcome { audit: Some(entry), result: Err(ToolError::Internal(error)) },
    )
}

/// The command was let through but could not be run.
fn fail(request: &ExecuteRequest, risk: RiskLevel, error: AppError) -> (step: ExecuteStep)
    ensures
        step@ == failed(request@, risk@, error@),
{
    let entry = record_audit(
        request.session_id.as_str(),
        request.command.as_str(),
        risk,
        false,
        false,
    );
    ExecuteStep::Finished(
        ExecuteOutcome { audit: Some(entry), result: Err(ToolError::Internal(error)) },
    )
}

/// The command was run.
fn succeed(request: &ExecuteRequest, risk: RiskLevel, result: CommandResult) -> (step: ExecuteStep)
    ensures
        step@ == executed(request@, risk@, result@),
{
    let entry = record_audit(
        request.session_id.as_str(),
        request.command.as_str(),
        risk,
        true,
        false,
    );
    ExecuteStep::Finished(ExecuteOutcome { audit: Some(entry), result: Ok(result) })
}

impl McpTools {
    /// The tools under the given settings.
    pub fn new(settings: McpSettings) -> (tools: Self)
        ensures
            tools.settings == settings,
    {
        McpTools { settings }
    }

    /// Whether the allow-list admits the session.
    pub fn is_session_allowed(&self, session_id: &str) -> (r: bool)
        ensures
            r == self.settings@.admits(session_id@),
    {
        let ghost allowed = self.settings@.allowed_sessions;
        if self.settings.allowed_sessions.len() == 0 {
            return true;
        }
        let wanted = session_id.to_owned();
        let mut i: usize = 0;
        while i < self.settings.allowed_sessions.len()
            invariant
                allowed == self.settings.allowed_sessions.deep_view(),
                wanted@ == session_id@,
                i <= allowed.len(),
                forall|j: int| 0 <= j < i ==> allowed[j] != session_id@,
            decreases allowed.len() - i,
        {
            if self.settings.allowed_sessions[i] == wanted {
                assert(allowed[i as int] == session_id@);
                return true;
            }
            i = i + 1;
        }
        false
    }

    /// Whether anything may be written to a terminal.
    pub fn check_write_permission(&self) -> (r: AppResult<()>)
        ensures
            done_view(r) == (if self.settings.permission_mode is Observer {
                Err::<(), AppErrorView>(observer_error())
            } else {
                Ok::<(), AppErrorView>(())
            }),
            r is Ok <==> !(self.settings.permission_mode is Observer),
            r matches Err(error) ==> {
                &&& error matches AppError::Config(text)
                &&& text@ == "MCP server is in observer mode (read-only)"@
            },
    {
        match self.settings.permission_mode {
            AiPermissionMode::Observer => Err(
                AppError::Config("MCP server is in observer mode (read-only)".to_owned()),
            ),
            AiPermissionMode::Confirm | AiPermissionMode::Auto => Ok(()),
        }
    }

    /// The listing of the open sessions, without those that the allow-list leaves out.
    pub fn list_terminals(&self, sessions: Vec<SessionInfo>) -> (r: Vec<TerminalInfo>)
        ensures
            r@.map_values(|t: TerminalInfo| t@) == terminal_list(
                self.settings@,
                sessions@.map_values(|s: SessionInfo| s@),
            ),
    {
        let ghost all = sessions@.map_values(|s: SessionInfo| s@);
        let ghost keep = |s: SessionInfoView| self.settings@.admits(s.id);
        let ghost info = |s: SessionInfoView| terminal_info(s);
        let mut r: Vec<TerminalInfo> = Vec::new();
        let mut i: usize = 0;
        proof {
            reveal(Seq::filter);
            assert(r@.map_values(|t: TerminalInfo| t@) =~= all.take(0).filter(keep).map_values(
                info,
            ));
        }
        while i < sessions.len()
            invariant
                all == sessions@.map_values(|s: SessionInfo| s@),
                keep == (|s: SessionInfoView| self.settings@.admits(s.id)),
                info == (|s: SessionInfoView| terminal_info(s)),
                i <= sessions.len(),
                r@.map_values(|t: TerminalInfo| t@) == all.take(i as int).filter(keep).map_values(
                    info,
                ),
            decreases sessions.len() - i,
        {
            let session = &sessions[i];
            let ghost before = r@;
            proof {
                reveal(Seq::filter);
                assert(all.take(i + 1).drop_last() =~= all.take(i as int));
                assert(all.take(i + 1).last() == session@);
            }
            if self.is_session_allowed(session.id.as_str()) {
                r.push(
                    TerminalInfo {
                        id: session.id.clone(),
                        name: session.name.clone(),
                        session_type: session.session_type.clone(),
                        connected: session.connected,
                        ai_execution_profile: session.ai_execution_profile.name(),
                        connection_id: session.connection_id.clone(),
                    },
                );
                proof {
                    assert(r@.last()@ == terminal_info(session@));
                    assert(r@.map_values(|t: TerminalInfo| t@) =~= before.map_values(
                        |t: TerminalInfo| t@,
                    ).push(terminal_info(session@)));
                    assert(all.take(i + 1).filter(keep).map_values(info) =~= all.take(
                        i as int,
                    ).filter(keep).map_values(info).push(terminal_info(session@)));
                }
            }
            i = i + 1;
        }
        proof {
            assert(all.take(all.len() as int) =~= all);
        }
        r
    }

    /// Starts to run a command: the call is checked, then the command's risk is assessed.
    pub fn execute_command(&self, params: ExecuteCommandParams) -> (step: ExecuteStep)
        ensures
            step@ == execute_command_step(self.settings@, params@),
    {
        let command = params.command.as_str().trim().to_owned();
        if command.as_str().is_empty() {
            return refuse(ToolError::InvalidParams("command must not be empty".to_owned()));
        }
        if !self.is_session_allowed(params.session_id.as_str()) {
            return refuse(
                ToolError::InvalidParams(
                    "session is not in the MCP allowed-session list".to_owned(),
                ),
            );
        }
        match self.check_write_permission() {
            Err(error) => refuse(ToolError::Internal(error)),
            Ok(_) => ExecuteStep::AssessRisk(
                AwaitingRisk {
                    request: ExecuteRequest {
                        session_id: params.session_id,
                        command,
                        timeout_ms: params.timeout_ms,
                    },
                },
            ),
        }
    }

    /// Takes the command's risk. In `Confirm` mode every command is gated behind the user's
    /// approval, asked for under a key made with `id`.
    pub fn check_command_risk_with(
        &self,
        pending: AwaitingRisk,
        risk: RiskLevel,
        id: &str,
    ) -> (step: ExecuteStep)
        ensures
            step@ == risk_step(
                self.settings.permission_mode,
                pending.request@,
                risk@,
                id@,
            ),
    {
        let request = pending.request;
        match self.settings.permission_mode {
            AiPermissionMode::Auto => ExecuteStep::LookUpSession(AwaitingSession { request, risk }),
            AiPermissionMode::Observer => block(
                &request,
                AppError::Config("MCP server is in observer mode (read-only)".to_owned()),
            ),
            AiPermissionMode::Confirm => {
                let approval = request_approval(
                    id,
                    request.session_id.as_str(),
                    request.command.as_str(),
                    risk.clone(),
                );
                ExecuteStep::RequestApproval(AwaitingApproval { request, risk, approval })
            },
        }
    }

    /// Takes the command's risk. In `Confirm` mode every command is gated behind the user's
    /// approval, asked for under a fresh random key.
    pub fn check_command_risk(&self, pending: AwaitingRisk, risk: RiskLevel) -> (step:
        ExecuteStep)
        ensures
            self.settings.permission_mode is Confirm ==> exists|id: Seq<char>|
                is_uuid_v4(id) && step@ == #[trigger] risk_step(
                    self.settings.permission_mode,
                    pending.request@,
                    risk@,
                    id,
                ),
            !(self.settings.permission_mode is Confirm) ==> forall|id: Seq<char>|
                step@ == #[trigger] risk_step(
                    self.settings.permission_mode,
                    pending.request@,
                    risk@,
                    id,
                ),
    {
        match self.settings.permission_mode {
            AiPermissionMode::Confirm => {
                let id = new_uuid_v4();
                self.check_command_risk_with(pending, risk, id.as_str())
            },
            _ => self.check_command_risk_with(pending, risk, ""),
        }
    }

    /// Takes the user's answer. Only an approved command goes on.
    pub fn settle_approval(&self, pending: AwaitingApproval, reply: ApprovalReply) -> (step:
        ExecuteStep)
        ensures
            step@ == approval_step(pending.request@, pending.risk@, reply),
    {
        match approval_verdict(reply) {
            Ok(approved) => if approved {
                ExecuteStep::LookUpSession(
                    AwaitingSession { request: pending.request, risk: pending.risk },
                )
            } else {
                block(&pending.request, AppError::Config("command rejected by user".to_owned()))
            },
            Err(error) => block(&pending.request, error),
        }
    }

    /// Takes the state of the session, whose profile says how the command is run. `id`
    /// becomes the id of the capture markers where there are any.
    pub fn execute_command_on_terminal_with(
        &self,
        pending: AwaitingSession,
        info: AppResult<SessionInfo>,
        id: String,
    ) -> (step: ExecuteStep)
        ensures
            step@ == session_step(pending.request@, pending.risk@, info_view(info), id@),
    {
        let request = pending.request;
        let risk = pending.risk;
        let profile = match info {
            Ok(session) => session.ai_execution_profile,
            Err(error) => return fail(&request, risk, error),
        };
        match profile {
            AiExecutionProfile::Disabled => fail(
                &request,
                risk,
                AppError::Config("AI execution is disabled for this session".to_owned()),
            ),
            AiExecutionProfile::Auto | AiExecutionProfile::SendOnly => {
                // There is no marker capture: the command is typed into the terminal, where
                // the user sees its output.
                let input = type_input(request.command.as_str(), true);
                ExecuteStep::Write(AwaitingWrite { request, risk, input })
            },
            AiExecutionProfile::Marker(_) => ExecuteStep::Wrap(
                AwaitingWrap { request, risk, profile, marker_id: id },
            ),
        }
    }

    /// Takes the state of the session, whose profile says how the command is run: not at
    /// all, typed into the terminal, or wrapped in capture markers with a fresh random id.
    pub fn execute_command_on_terminal(
        &self,
        pending: AwaitingSession,
        info: AppResult<SessionInfo>,
    ) -> (step: ExecuteStep)
        ensures
            uses_markers(info_view(info)) ==> exists|id: Seq<char>|
                is_uuid_v4(id) && step@ == #[trigger] session_step(
                    pending.request@,
                    pending.risk@,
                    info_view(info),
                    id,
                ),
            !uses_markers(info_view(info)) ==> forall|id: Seq<char>|
                step@ == #[trigger] session_step(
                    pending.request@,
                    pending.risk@,
                    info_view(info),
                    id,
                ),
    {
        let markers = match &info {
            Ok(session) => match session.ai_execution_profile {
                AiExecutionProfile::Marker(_) => true,
                _ => false,
            },
            Err(_) => false,
        };
        let id = if markers {
            new_uuid_v4()
        } else {
            String::new()
        };
        self.execute_command_on_terminal_with(pending, info, id)
    }

    /// Takes how the sending of an uncaptured command went, and the milliseconds it took.
    pub fn finish_write(
        &self,
        pending: AwaitingWrite,
        sent: AppResult<()>,
        elapsed_ms: u128,
    ) -> (step: ExecuteStep)
        ensures
            step@ == write_step(pending.request@, pending.risk@, done_view(sent), elapsed_ms),
    {
        match sent {
            Ok(_) => {
                assert(elapsed_ms as u64 == (elapsed_ms % 0x1_0000_0000_0000_0000u128) as u64)
                    by (bit_vector);
                succeed(
                    &pending.request,
                    pending.risk,
                    CommandResult {
                        output:
                            "command sent to terminal (output capture unavailable for this session profile)".to_owned(),
                        exit_code: None,
                        duration_ms: #[verifier::truncate] (elapsed_ms as u64),
                        captured: false,
                    },
                )
            },
            Err(error) => fail(&pending.request, pending.risk, error),
        }
    }

    /// Takes the command wrapped in the profile's markers, if the profile has any.
    pub fn send_wrapped(&self, pending: AwaitingWrap, wrapped: Option<String>) -> (step:
        ExecuteStep)
        ensures
            step@ == wrap_step(
                pending.request@,
                pending.risk@,
                pending.profile@,
                pending.marker_id@,
                wrapped.deep_view(),
            ),
    {
        match wrapped {
            Some(text) => ExecuteStep::SendCapture(
                AwaitingSend {
                    request: pending.request,
                    risk: pending.risk,
                    input: SessionCommand::CaptureExec {
                        marker_id: pending.marker_id,
                        wrapped_command: text.as_str().as_bytes_vec(),
                    },
                },
            ),
            None => fail(
                &pending.request,
                pending.risk,
                AppError::Config(
                    join(
                        "unsupported AI execution profile: ",
                        pending.profile.name().as_str(),
                    ),
                ),
            ),
        }
    }

    /// Takes how the sending of the wrapped command went.
    pub fn await_capture(&self, pending: AwaitingSend, sent: AppResult<()>) -> (step: ExecuteStep)
        ensures
            step@ == send_step(pending.request@, pending.risk@, done_view(sent)),
    {
        match sent {
            Ok(_) => ExecuteStep::AwaitCapture(
                AwaitingCapture { request: pending.request, risk: pending.risk },
            ),
            Err(error) => fail(&pending.request, pending.risk, error),
        }
    }

    /// Takes what came of the wait for captured output.
    pub fn finish_capture(&self, pending: AwaitingCapture, reply: CaptureReply) -> (step:
        ExecuteStep)
        ensures
            step@ == capture_step(pending.request@, pending.risk@, reply@),
    {
        match reply {
            CaptureReply::Captured(captured) => succeed(
                &pending.request,
                pending.risk,
                CommandResult {
                    output: captured.output,
                    exit_code: captured.exit_code,
                    duration_ms: captured.duration_ms,
                    captured: true,
                },
            ),
            CaptureReply::Closed => fail(
                &pending.request,
                pending.risk,
                AppError::Channel(
                    "capture channel closed — session may have disconnected".to_owned(),
                ),
            ),
            CaptureReply::TimedOut => fail(
                &pending.request,
                pending.risk,
                AppError::Config("command timed out".to_owned()),
            ),
        }
    }

    /// The raw input to send to the session, unless the call is refused.
    pub fn write_to_terminal(&self, params: &WriteParams) -> (r: Result<SessionCommand, ToolError>)
        ensures
            match r {
                Ok(input) => write_to_terminal_input(
                    self.settings@,
                    params.session_id@,
                    params.data@,
                    params.send_enter,
                ) == Ok::<SessionCommandView, ToolErrorView>(input@),
                Err(error) => write_to_terminal_input(
                    self.settings@,
                    params.session_id@,
                    params.data@,
                    params.send_enter,
                ) == Err::<SessionCommandView, ToolErrorView>(error@),
            },
    {
        if !self.is_session_allowed(params.session_id.as_str()) {
            return Err(
                ToolError::InvalidParams(
                    "session is not in the MCP allowed-session list".to_owned(),
                ),
            );
        }
        match self.check_write_permission() {
            Err(error) => Err(ToolError::Internal(error)),
            Ok(_) => Ok(type_input(params.data.as_str(), params.send_enter)),
        }
    }

    /// What the client is answered once the raw input was sent.
    pub fn finish_write_to_terminal(&self, sent: AppResult<()>) -> (r: Result<String, ToolError>)
        ensures
            match sent {
                Ok(_) => r matches Ok(text) && text@ == "input written to terminal"@,
                Err(error) => r matches Err(ToolError::Internal(e)) && e == error,
            },
    {
        match sent {
            Ok(_) => Ok("input written to terminal".to_owned()),
            Err(error) => Err(ToolError::Internal(error)),
        }
    }
}

} // verus!
