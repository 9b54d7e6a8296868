//! What holds of the tools and of the server as a whole.
//!
//! A call of `execute_command` goes from step to step, and each step depends on what comes
//! back from outside. [`Answers`] holds everything that may come back; [`trace`] follows a
//! call under given answers, to its end. The laws hold of every call and of all answers. In
//! the same way [`start_run`] follows a start of the server.
use vstd::prelude::*;

use tokio_util::sync::CancellationToken;

use crate::approval::{approval_request, ApprovalReply, McpApprovalRequestView};
use crate::audit::audit_entry;
use crate::config::{AiExecutionProfileView, AiPermissionMode, McpSettingsView, RiskLevelView};
use crate::error::{AppErrorView, ToolErrorView};
use crate::execute::{CommandResultView, ExecuteOutcomeView, ExecuteStepView};
use crate::server::{
    bind_step, parse_step, resolve_step, start_step, McpServerStateView, McpServerStatusView,
    StartStepView,
};
use crate::session::{
    typed_input, CaptureReplyView, SessionCommandView, SessionInfoView,
};
use crate::text::{is_blank, is_white_space, lemma_trimmed, trimmed};
use crate::tools::{
    approval_step, capture_step, execute_command_step, observer_error, risk_step, send_step,
    session_refused, session_step, terminal_info, terminal_list, wrap_step, write_step,
    write_to_terminal_input, ExecuteCommandParamsView, TerminalInfoView,
};

verus! {

/// What comes back from outside in the course of a call of `execute_command`.
pub struct Answers {
    /// The command's risk.
    pub risk: RiskLevelView,
    /// The random id in the key of the approval request.
    pub approval_id: Seq<char>,
    /// How the wait for the user's answer ends.
    pub approval: ApprovalReply,
    /// What is known of the session.
    pub session: Result<SessionInfoView, AppErrorView>,
    /// The random id of the capture markers.
    pub marker_id: Seq<char>,
    /// How the sending to the session goes.
    pub sent: Result<(), AppErrorView>,
    /// The milliseconds that it takes.
    pub elapsed_ms: u128,
    /// The command wrapped in markers, if the profile has any.
    pub wrapped: Option<Seq<char>>,
    /// How the wait for captured output ends.
    pub capture: CaptureReplyView,
}

/// The step after `step`.
pub open spec fn next_step(
    mode: AiPermissionMode,
    step: ExecuteStepView,
    answers: Answers,
) -> ExecuteStepView {
    match step {
        ExecuteStepView::AssessRisk { request } => risk_step(
            mode,
            request,
            answers.risk,
            answers.approval_id,
        ),
        ExecuteStepView::RequestApproval { request, risk, approval } => approval_step(
            request,
            risk,
            answers.approval,
        ),
        ExecuteStepView::LookUpSession { request, risk } => session_step(
            request,
            risk,
            answers.session,
            answers.marker_id,
        ),
        ExecuteStepView::Write { request, risk, input } => write_step(
            request,
            risk,
            answers.sent,
            answers.elapsed_ms,
        ),
        ExecuteStepView::Wrap { request, risk, profile, marker_id } => wrap_step(
            request,
            risk,
            profile,
            marker_id,
            answers.wrapped,
        ),
        ExecuteStepView::SendCapture { request, risk, input } => send_step(
            request,
            risk,
            answers.sent,
        ),
        ExecuteStepView::AwaitCapture { request, risk } => capture_step(
            request,
            risk,
            answers.capture,
        ),
        ExecuteStepView::Finished { outcome } => step,
    }
}

/// The most steps that can follow `step`.
pub open spec fn steps_left(step: ExecuteStepView) -> nat {
    match step {
        ExecuteStepView::AssessRisk { .. } => 6,
        ExecuteStepView::RequestApproval { .. } => 5,
        ExecuteStepView::LookUpSession { .. } => 4,
        ExecuteStepView::Wrap { .. } => 3,
        ExecuteStepView::SendCapture { .. } => 2,
        ExecuteStepView::Write { .. } => 1,
        ExecuteStepView::AwaitCapture { .. } => 1,
        ExecuteStepView::Finished { .. } => 0,
    }
}

/// What a call does to the outside, and how it ends.
pub struct Trace {
    /// The commands whose risk is assessed.
    pub assessed: Seq<Seq<char>>,
    /// The approval requests that are emitted.
    pub asked: Seq<McpApprovalRequestView>,
    /// The sessions that are looked up.
    pub looked_up: Seq<Seq<char>>,
    /// The commands that are wrapped in markers: the profile, the markers' id, the command.
    pub wraps: Seq<(AiExecutionProfileView, Seq<char>, Seq<char>)>,
    /// What is sent to which session.
    pub sent: Seq<(Seq<char>, SessionCommandView)>,
    /// The waits for captured output, by their timeouts in milliseconds.
    pub waits: Seq<u64>,
    pub outcome: ExecuteOutcomeView,
}

/// What a call does from `step` on.
pub open spec fn trace(mode: AiPermissionMode, step: ExecuteStepView, answers: Answers) -> Trace
    decreases steps_left(step),
{
    match step {
        ExecuteStepView::Finished { outcome } => Trace {
            assessed: Seq::empty(),
            asked: Seq::empty(),
            looked_up: Seq::empty(),
            wraps: Seq::empty(),
            sent: Seq::empty(),
            waits: Seq::empty(),
            outcome,
        },
        ExecuteStepView::AssessRisk { request } => {
            let rest = trace(mode, next_step(mode, step, answers), answers);
            Trace { assessed: seq![request.command] + rest.assessed, ..rest }
        },
        ExecuteStepView::LookUpSession { request, risk } => {
            let rest = trace(mode, next_step(mode, step, answers), answers);
            Trace { looked_up: seq![request.session_id] + rest.looked_up, ..rest }
        },
        ExecuteStepView::Wrap { request, risk, profile, marker_id } => {
            let rest = trace(mode, next_step(mode, step, answers), answers);
            Trace { wraps: seq![(profile, marker_id, request.command)] + rest.wraps, ..rest }
        },
        ExecuteStepView::RequestApproval { request, risk, approval } => {
            let rest = trace(mode, next_step(mode, step, answers), answers);
            Trace { asked: seq![approval] + rest.asked, ..rest }
        },
        ExecuteStepView::Write { request, risk, input } => {
            let rest = trace(mode, next_step(mode, step, answers), answers);
            Trace { sent: seq![(request.session_id, input)] + rest.sent, ..rest }
        },
        ExecuteStepView::SendCapture { request, risk, input } => {
            let rest = trace(mode, next_step(mode, step, answers), answers);
            Trace { sent: seq![(request.session_id, input)] + rest.sent, ..rest }
        },
        ExecuteStepView::AwaitCapture { request, risk } => {
            let rest = trace(mode, next_step(mode, step, answers), answers);
            Trace { waits: seq![request.timeout_ms] + rest.waits, ..rest }
        },
    }
}

/// What a call of `execute_command` does.
pub open spec fn call_trace(
    settings: McpSettingsView,
    params: ExecuteCommandParamsView,
    answers: Answers,
) -> Trace {
    trace(settings.permission_mode, execute_command_step(settings, params), answers)
}

/// The call passes the checks that come before the command is considered.
pub open spec fn considered(settings: McpSettingsView, params: ExecuteCommandParamsView) -> bool {
    &&& !is_blank(params.command)
    &&& settings.admits(params.session_id)
    &&& !(settings.permission_mode is Observer)
}

/// The command is let through: at once in `Auto` mode, by the user in `Confirm` mode.
pub open spec fn let_through(mode: AiPermissionMode, approval: ApprovalReply) -> bool {
    match mode {
        AiPermissionMode::Auto => true,
        AiPermissionMode::Confirm => approval == ApprovalReply::Answered(true),
        AiPermissionMode::Observer => false,
    }
}

/// What the session is sent for a command, if its state and its profile allow for anything.
pub open spec fn command_input(command: Seq<char>, answers: Answers) -> Option<SessionCommandView> {
    match answers.session {
        Err(_) => None,
        Ok(session) => match session.ai_execution_profile {
            AiExecutionProfileView::Disabled => None,
            AiExecutionProfileView::Auto => Some(typed_input(command, true)),
            AiExecutionProfileView::SendOnly => Some(typed_input(command, true)),
            AiExecutionProfileView::Marker(_) => match answers.wrapped {
                Some(text) => Some(
                    SessionCommandView::CaptureExec {
                        marker_id: answers.marker_id,
                        wrapped_command: vstd::utf8::encode_utf8(text),
                    },
                ),
                None => None,
            },
        },
    }
}

/// The result of a command that was let through and sent, if it has one.
pub open spec fn command_result(answers: Answers) -> Option<CommandResultView> {
    match answers.session {
        Err(_) => None,
        Ok(session) => if session.ai_execution_profile is Marker {
            match answers.capture {
                CaptureReplyView::Captured { output, exit_code, duration_ms } => Some(
                    CommandResultView { output, exit_code, duration_ms, captured: true },
                ),
                _ => None,
            }
        } else {
            Some(
                CommandResultView {
                    output:
                        "command sent to terminal (output capture unavailable for this session profile)"@,
                    exit_code: None,
                    duration_ms: (answers.elapsed_ms % 0x1_0000_0000_0000_0000u128) as u64,
                    captured: false,
                },
            )
        },
    }
}

/// A call that does not pass the first checks asks nobody, sends nothing and leaves no entry
/// in the audit log. Which error it ends in depends on the call and the settings alone.
pub proof fn law_refused_call(
    settings: McpSettingsView,
    params: ExecuteCommandParamsView,
    answers: Answers,
)
    requires
        !considered(settings, params),
    ensures
        call_trace(settings, params, answers).asked.len() == 0,
        call_trace(settings, params, answers).sent.len() == 0,
        call_trace(settings, params, answers).outcome == (ExecuteOutcomeView {
            audit: None,
            result: Err(
                if is_blank(params.command) {
                    ToolErrorView::InvalidParams("command must not be empty"@)
                } else if !settings.admits(params.session_id) {
                    session_refused()
                } else {
                    ToolErrorView::Internal(observer_error())
                },
            ),
        }),
{
    lemma_trimmed(params.command);
}

/// In observer mode no tool sends anything to a terminal, and no tool asks the user.
pub proof fn law_observer_is_read_only(
    settings: McpSettingsView,
    params: ExecuteCommandParamsView,
    answers: Answers,
    session_id: Seq<char>,
    data: Seq<char>,
    send_enter: bool,
)
    requires
        settings.permission_mode is Observer,
    ensures
        call_trace(settings, params, answers).asked.len() == 0,
        call_trace(settings, params, answers).sent.len() == 0,
        call_trace(settings, params, answers).outcome.result is Err,
        write_to_terminal_input(settings, session_id, data, send_enter) is Err,
{
    law_refused_call(settings, params, answers);
}

/// No tool sends anything to a session that the allow-list does not admit, and each answers
/// that the session is not on the list, unless the command is blank.
pub proof fn law_allow_list(
    settings: McpSettingsView,
    params: ExecuteCommandParamsView,
    answers: Answers,
    data: Seq<char>,
    send_enter: bool,
)
    requires
        !settings.admits(params.session_id),
    ensures
        call_trace(settings, params, answers).asked.len() == 0,
        call_trace(settings, params, answers).sent.len() == 0,
        !is_blank(params.command) ==> call_trace(settings, params, answers).outcome.result
            == Err::<CommandResultView, ToolErrorView>(session_refused()),
        write_to_terminal_input(settings, params.session_id, data, send_enter) == Err::<
            SessionCommandView,
            ToolErrorView,
        >(session_refused()),
{
    law_refused_call(settings, params, answers);
}

/// In `Confirm` mode every command is gated behind the user's approval: the user is asked
/// exactly once, about the very command, session and risk, and nothing is sent to a terminal
/// unless the user approves. A command that is not approved is logged as blocked.
pub proof fn law_confirm_gates_every_command(
    settings: McpSettingsView,
    params: ExecuteCommandParamsView,
    answers: Answers,
)
    requires
        settings.permission_mode is Confirm,
        considered(settings, params),
    ensures
        call_trace(settings, params, answers).asked == seq![
            approval_request(
                answers.approval_id,
                params.session_id,
                trimmed(params.command),
                answers.risk,
            ),
        ],
        ({
            let asked = call_trace(settings, params, answers).asked;
            &&& asked.len() == 1
            &&& asked[0].key == "mcp-"@ + answers.approval_id
            &&& asked[0].session_id == params.session_id
            &&& asked[0].command == trimmed(params.command)
            &&& asked[0].risk_level == answers.risk
        }),
        answers.approval != ApprovalReply::Answered(true) ==> {
            let t = call_trace(settings, params, answers);
            &&& t.sent.len() == 0
            &&& t.outcome.result is Err
            &&& t.outcome.audit == Some(
                audit_entry(
                    params.session_id,
                    trimmed(params.command),
                    RiskLevelView::High,
                    false,
                    true,
                ),
            )
        },
{
    reveal_with_fuel(trace, 8);
    lemma_trimmed(params.command);
    let t = call_trace(settings, params, answers);
    assert(t.asked =~= seq![
        approval_request(
            answers.approval_id,
            params.session_id,
            trimmed(params.command),
            answers.risk,
        ),
    ]);
}

/// In `Auto` mode the user is never asked, and no command is logged as blocked.
pub proof fn law_auto_never_asks(
    settings: McpSettingsView,
    params: ExecuteCommandParamsView,
    answers: Answers,
)
    requires
        settings.permission_mode is Auto,
    ensures
        call_trace(settings, params, answers).asked.len() == 0,
        call_trace(settings, params, answers).outcome.audit matches Some(entry) ==> !entry.blocked,
{
    reveal_with_fuel(trace, 8);
}

/// What a call sends: nothing, unless the command is considered and let through and the
/// session takes it. Then it is one input, for the session that the client named: the command
/// without the white space around it, and the enter key; or the wrapped command, under the
/// id of the markers that it was wrapped with.
pub proof fn law_sent(
    settings: McpSettingsView,
    params: ExecuteCommandParamsView,
    answers: Answers,
)
    ensures
        call_trace(settings, params, answers).sent == (if considered(settings, params)
            && let_through(settings.permission_mode, answers.approval) {
            match command_input(trimmed(params.command), answers) {
                Some(input) => seq![(params.session_id, input)],
                None => Seq::empty(),
            }
        } else {
            Seq::empty()
        }),
        ({
            let sent = call_trace(settings, params, answers).sent;
            let text = vstd::utf8::encode_utf8(trimmed(params.command));
            sent.len() > 0 ==> {
                &&& sent.len() == 1
                &&& sent[0].0 == params.session_id
                &&& answers.session is Ok
                &&& match sent[0].1 {
                    SessionCommandView::Write { data, automated, origin, sensitivity } => {
                        &&& answers.session->Ok_0.ai_execution_profile is Auto
                            || answers.session->Ok_0.ai_execution_profile is SendOnly
                        &&& data == text + seq![0x0au8]
                        &&& vstd::utf8::decode_utf8(data.drop_last()) == trimmed(params.command)
                        &&& automated
                        &&& origin is AiAgent
                        &&& sensitivity is Normal
                    },
                    SessionCommandView::CaptureExec { marker_id, wrapped_command } => {
                        &&& answers.session->Ok_0.ai_execution_profile is Marker
                        &&& marker_id == answers.marker_id
                        &&& answers.wrapped is Some
                        &&& wrapped_command == vstd::utf8::encode_utf8(answers.wrapped->0)
                    },
                }
            }
        }),
{
    reveal_with_fuel(trace, 8);
    lemma_trimmed(params.command);
    vstd::utf8::encode_utf8_decode_utf8(trimmed(params.command));
    let text = vstd::utf8::encode_utf8(trimmed(params.command));
    assert(text.push(0x0au8) =~= text + seq![0x0au8]);
    assert(text.push(0x0au8).drop_last() =~= text);
    let t = call_trace(settings, params, answers);
    assert(t.sent =~= (if considered(settings, params) && let_through(
        settings.permission_mode,
        answers.approval,
    ) {
        match command_input(trimmed(params.command), answers) {
            Some(input) => seq![(params.session_id, input)],
            None => Seq::empty(),
        }
    } else {
        Seq::empty()
    }));
}

/// Captured output is awaited once a wrapped command was sent, once and for as long as the
/// client said, and not otherwise.
pub proof fn law_timeout(
    settings: McpSettingsView,
    params: ExecuteCommandParamsView,
    answers: Answers,
)
    ensures
        call_trace(settings, params, answers).waits == (if call_trace(
            settings,
            params,
            answers,
        ).sent.len() > 0 && answers.sent is Ok && answers.session->Ok_0.ai_execution_profile is Marker {
            seq![params.timeout_ms]
        } else {
            Seq::empty()
        }),
{
    reveal_with_fuel(trace, 8);
    lemma_trimmed(params.command);
    let t = call_trace(settings, params, answers);
    assert(t.waits =~= (if t.sent.len() > 0 && answers.sent is Ok
        && answers.session->Ok_0.ai_execution_profile is Marker {
        seq![params.timeout_ms]
    } else {
        Seq::empty()
    }));
}

/// When a call succeeds: exactly if the command is considered and let through, the session
/// takes it, the sending goes well and there is a result. That result is then the answer.
pub proof fn law_success(
    settings: McpSettingsView,
    params: ExecuteCommandParamsView,
    answers: Answers,
)
    ensures
        call_trace(settings, params, answers).outcome.result is Ok <==> {
            &&& considered(settings, params)
            &&& let_through(settings.permission_mode, answers.approval)
            &&& command_input(trimmed(params.command), answers) is Some
            &&& answers.sent is Ok
            &&& command_result(answers) is Some
        },
        call_trace(settings, params, answers).outcome.result matches Ok(result)
            ==> command_result(answers) == Some(result),
{
    reveal_with_fuel(trace, 8);
    lemma_trimmed(params.command);
}

/// Why a considered call fails.
pub open spec fn failure(mode: AiPermissionMode, answers: Answers) -> AppErrorView {
    if !let_through(mode, answers.approval) {
        match answers.approval {
            ApprovalReply::Answered(_) => AppErrorView::Config("command rejected by user"@),
            ApprovalReply::Closed => AppErrorView::Channel("approval channel closed"@),
            ApprovalReply::TimedOut => AppErrorView::Config("command approval timed out"@),
        }
    } else if answers.session is Err {
        answers.session->Err_0
    } else if answers.session->Ok_0.ai_execution_profile is Disabled {
        AppErrorView::Config("AI execution is disabled for this session"@)
    } else if answers.session->Ok_0.ai_execution_profile is Marker && answers.wrapped is None {
        AppErrorView::Config(
            "unsupported AI execution profile: "@
                + answers.session->Ok_0.ai_execution_profile.name(),
        )
    } else if answers.sent is Err {
        answers.sent->Err_0
    } else if answers.capture is Closed {
        AppErrorView::Channel("capture channel closed — session may have disconnected"@)
    } else {
        AppErrorView::Config("command timed out"@)
    }
}

/// Which error a call ends in once its command was considered: that of the first thing that
/// stood in its way. The client is always told of it as an internal error.
pub proof fn law_failure(
    settings: McpSettingsView,
    params: ExecuteCommandParamsView,
    answers: Answers,
)
    requires
        considered(settings, params),
    ensures
        call_trace(settings, params, answers).outcome.result matches Err(error) ==> error
            == ToolErrorView::Internal(failure(settings.permission_mode, answers)),
{
    reveal_with_fuel(trace, 8);
    lemma_trimmed(params.command);
}

/// The audit trail: a call leaves one entry if its command was considered, and none
/// otherwise. The entry names the session and the command. It says executed exactly if the
/// call succeeds, and blocked exactly if the command was not let through. It gives the
/// assessed risk, and the highest for a blocked command.
pub proof fn law_audit_trail(
    settings: McpSettingsView,
    params: ExecuteCommandParamsView,
    answers: Answers,
)
    ensures
        call_trace(settings, params, answers).outcome.audit == (if considered(settings, params) {
            let passed = let_through(settings.permission_mode, answers.approval);
            Some(
                audit_entry(
                    params.session_id,
                    trimmed(params.command),
                    if passed {
                        answers.risk
                    } else {
                        RiskLevelView::High
                    },
                    call_trace(settings, params, answers).outcome.result is Ok,
                    !passed,
                ),
            )
        } else {
            None
        }),
{
    reveal_with_fuel(trace, 8);
    lemma_trimmed(params.command);
}

/// A command is never run or logged with white space at either end.
pub proof fn law_command_is_trimmed(
    settings: McpSettingsView,
    params: ExecuteCommandParamsView,
    answers: Answers,
)
    ensures
        call_trace(settings, params, answers).outcome.audit matches Some(entry) ==> {
            &&& entry.generated_command matches Some(command)
            &&& command.len() > 0
            &&& !is_white_space(command.first())
            &&& !is_white_space(command.last())
        },
{
    law_audit_trail(settings, params, answers);
    lemma_trimmed(params.command);
}

/// `write_to_terminal` sends the client's input as it stands to every session that the
/// allow-list admits, in `Confirm` mode as in `Auto` mode.
pub proof fn law_write(
    settings: McpSettingsView,
    session_id: Seq<char>,
    data: Seq<char>,
    send_enter: bool,
)
    ensures
        write_to_terminal_input(settings, session_id, data, send_enter) is Ok
            <==> settings.admits(session_id) && !(settings.permission_mode is Observer),
        write_to_terminal_input(settings, session_id, data, send_enter) matches Ok(input)
            ==> input == typed_input(data, send_enter),
        write_to_terminal_input(settings, session_id, data, send_enter) matches Ok(input) ==> {
            &&& input matches SessionCommandView::Write {
                data: bytes,
                automated,
                origin,
                sensitivity,
            }
            &&& bytes == vstd::utf8::encode_utf8(data) + (if send_enter {
                seq![0x0au8]
            } else {
                Seq::empty()
            })
            &&& vstd::utf8::decode_utf8(
                if send_enter {
                    bytes.drop_last()
                } else {
                    bytes
                },
            ) == data
            &&& automated
            &&& origin is AiAgent
            &&& sensitivity is Normal
        },
        // Who is refused, by the entries of the allow-list and by the mode.
        settings.allowed_sessions.len() > 0 && (forall|i: int|
            0 <= i < settings.allowed_sessions.len() ==> #[trigger] settings.allowed_sessions[i]
                != session_id) ==> write_to_terminal_input(settings, session_id, data, send_enter)
            == Err::<SessionCommandView, ToolErrorView>(
            ToolErrorView::InvalidParams("session is not in the MCP allowed-session list"@),
        ),
        settings.allowed_sessions.len() == 0 || (exists|i: int|
            0 <= i < settings.allowed_sessions.len() && #[trigger] settings.allowed_sessions[i]
                == session_id) ==> if settings.permission_mode is Observer {
            write_to_terminal_input(settings, session_id, data, send_enter) == Err::<
                SessionCommandView,
                ToolErrorView,
            >(
                ToolErrorView::Internal(
                    AppErrorView::Config("MCP server is in observer mode (read-only)"@),
                ),
            )
        } else {
            write_to_terminal_input(settings, session_id, data, send_enter) is Ok
        },
{
    let text = vstd::utf8::encode_utf8(data);
    vstd::utf8::encode_utf8_decode_utf8(data);
    assert(text.push(0x0au8) =~= text + seq![0x0au8]);
    assert(text.push(0x0au8).drop_last() =~= text);
    assert(text + Seq::<u8>::empty() =~= text);
}

/// A command whose output is not captured goes the way of raw input: the session is sent
/// what `write_to_terminal` sends for the command, without the white space around it, and
/// the enter key.
pub proof fn law_same_write_path(
    settings: McpSettingsView,
    params: ExecuteCommandParamsView,
    answers: Answers,
)
    requires
        answers.session matches Ok(session) && (session.ai_execution_profile is Auto
            || session.ai_execution_profile is SendOnly),
        call_trace(settings, params, answers).sent.len() > 0,
    ensures
        write_to_terminal_input(settings, params.session_id, trimmed(params.command), true) == Ok::<
            SessionCommandView,
            ToolErrorView,
        >(call_trace(settings, params, answers).sent[0].1),
        call_trace(settings, params, answers).sent[0].0 == params.session_id,
{
    law_sent(settings, params, answers);
}

/// The listing holds every open session that the allow-list admits and no other. With an
/// empty allow-list it holds all of them, in their order.
pub proof fn law_listing(settings: McpSettingsView, sessions: Seq<SessionInfoView>)
    ensures
        forall|t: TerminalInfoView| #[trigger]
            terminal_list(settings, sessions).contains(t) <==> exists|s: SessionInfoView| #[trigger]
                sessions.contains(s) && settings.admits(s.id) && t == terminal_info(s),
        // Every listed terminal agrees with a session that the allow-list admits.
        forall|k: int|
            0 <= k < terminal_list(settings, sessions).len() ==> exists|j: int|
                0 <= j < sessions.len() && ({
                    let t = #[trigger] terminal_list(settings, sessions)[k];
                    let s = #[trigger] sessions[j];
                    &&& t.id == s.id
                    &&& t.name == s.name
                    &&& t.session_type == s.session_type
                    &&& t.connected == s.connected
                    &&& t.connection_id == s.connection_id
                    &&& settings.allowed_sessions.len() == 0 || settings.allowed_sessions.contains(
                        s.id,
                    )
                }),
        settings.allowed_sessions.len() == 0 ==> terminal_list(settings, sessions)
            == sessions.map_values(|s: SessionInfoView| terminal_info(s)),
{
    let keep = |s: SessionInfoView| settings.admits(s.id);
    let info = |s: SessionInfoView| terminal_info(s);
    let kept = sessions.filter(keep);
    let list = terminal_list(settings, sessions);
    assert forall|t: TerminalInfoView| #[trigger] list.contains(t) implies exists|
        s: SessionInfoView,
    | #[trigger] sessions.contains(s) && settings.admits(s.id) && t == terminal_info(s) by {
        let i = choose|i: int| 0 <= i < list.len() && list[i] == t;
        sessions.lemma_filter_pred(keep, i);
        assert(kept.contains(kept[i]));
        sessions.lemma_filter_contains_rev(keep, kept[i]);
    }
    assert forall|t: TerminalInfoView|
        (exists|s: SessionInfoView| #[trigger]
            sessions.contains(s) && settings.admits(s.id) && t
                == terminal_info(s)) implies #[trigger] list.contains(t) by {
        let s = choose|s: SessionInfoView| #[trigger]
            sessions.contains(s) && settings.admits(s.id) && t == terminal_info(s);
        let j = choose|j: int| 0 <= j < sessions.len() && sessions[j] == s;
        sessions.lemma_filter_contains(keep, j);
        let i = choose|i: int| 0 <= i < kept.len() && kept[i] == s;
        assert(list[i] == t);
    }
    assert forall|k: int| 0 <= k < list.len() implies exists|j: int|
        0 <= j < sessions.len() && ({
            let t = #[trigger] list[k];
            let s = #[trigger] sessions[j];
            &&& t.id == s.id
            &&& t.name == s.name
            &&& t.session_type == s.session_type
            &&& t.connected == s.connected
            &&& t.connection_id == s.connection_id
            &&& settings.allowed_sessions.len() == 0 || settings.allowed_sessions.contains(s.id)
        }) by {
        sessions.lemma_filter_pred(keep, k);
        assert(kept.contains(kept[k]));
        sessions.lemma_filter_contains_rev(keep, kept[k]);
        let j = choose|j: int| 0 <= j < sessions.len() && sessions[j] == kept[k];
        assert(list[k] == terminal_info(sessions[j]));
    }
    if settings.allowed_sessions.len() == 0 {
        lemma_filter_all(sessions, keep);
        assert(list =~= sessions.map_values(info));
    }
}

/// Listing goes session by session: the listing of some sessions and then of others is that
/// of all of them, so nothing is lost, doubled or moved. A single session is listed if the
/// allow-list is empty or has an entry that equals its id, with its own details and the name
/// of its profile, and otherwise it is left out.
pub proof fn law_listing_by_session(
    settings: McpSettingsView,
    front: Seq<SessionInfoView>,
    back: Seq<SessionInfoView>,
    session: SessionInfoView,
)
    ensures
        terminal_list(settings, front + back) == terminal_list(settings, front) + terminal_list(
            settings,
            back,
        ),
        terminal_list(settings, Seq::empty()).len() == 0,
        settings.allowed_sessions.len() > 0 && (forall|i: int|
            0 <= i < settings.allowed_sessions.len() ==> #[trigger] settings.allowed_sessions[i]
                != session.id) ==> terminal_list(settings, seq![session]).len() == 0,
        settings.allowed_sessions.len() == 0 || (exists|i: int|
            0 <= i < settings.allowed_sessions.len() && #[trigger] settings.allowed_sessions[i]
                == session.id) ==> {
            let list = terminal_list(settings, seq![session]);
            &&& list.len() == 1
            &&& list[0].id == session.id
            &&& list[0].name == session.name
            &&& list[0].session_type == session.session_type
            &&& list[0].connected == session.connected
            &&& list[0].connection_id == session.connection_id
            &&& list[0].ai_execution_profile == match session.ai_execution_profile {
                AiExecutionProfileView::Disabled => "Disabled"@,
                AiExecutionProfileView::Auto => "Auto"@,
                AiExecutionProfileView::SendOnly => "SendOnly"@,
                AiExecutionProfileView::Marker(name) => name,
            }
        },
{
    let keep = |s: SessionInfoView| settings.admits(s.id);
    lemma_filter_concat(front, back, keep);
    assert(terminal_list(settings, front + back) =~= terminal_list(settings, front)
        + terminal_list(settings, back));
    reveal_with_fuel(Seq::filter, 2);
    assert(seq![session].drop_last() =~= Seq::empty());
    assert(seq![session].last() == session);
}

proof fn lemma_filter_concat<A>(front: Seq<A>, back: Seq<A>, keep: spec_fn(A) -> bool)
    ensures
        (front + back).filter(keep) == front.filter(keep) + back.filter(keep),
    decreases back.len(),
{
    reveal(Seq::filter);
    if back.len() == 0 {
        assert(front + back =~= front);
        assert(front.filter(keep) + back.filter(keep) =~= front.filter(keep));
    } else {
        lemma_filter_concat(front, back.drop_last(), keep);
        assert((front + back).drop_last() =~= front + back.drop_last());
        assert((front + back).last() == back.last());
        assert((front + back).filter(keep) =~= front.filter(keep) + back.filter(keep));
    }
}

proof fn lemma_filter_all<A>(s: Seq<A>, keep: spec_fn(A) -> bool)
    requires
        forall|i: int| 0 <= i < s.len() ==> keep(#[trigger] s[i]),
    ensures
        s.filter(keep) == s,
    decreases s.len(),
{
    reveal(Seq::filter);
    if s.len() > 0 {
        let front = s.drop_last();
        assert forall|i: int| 0 <= i < front.len() implies keep(#[trigger] front[i]) by {
            assert(keep(s[i]));
        }
        lemma_filter_all(front, keep);
        assert(keep(s[s.len() - 1]));
        assert(s.drop_last().push(s.last()) =~= s);
    }
}

/// What comes back from outside in the course of a start of the server.
pub struct StartAnswers {
    pub parsed: Result<(), Seq<char>>,
    pub bound: Result<(), Seq<char>>,
    pub local_address: Result<Seq<char>, Seq<char>>,
    /// The handle of the server once it serves.
    pub cancellation: CancellationToken,
}

/// The most steps that can follow `step`.
pub open spec fn start_steps_left(step: StartStepView) -> nat {
    match step {
        StartStepView::ParseAddress { .. } => 3,
        StartStepView::Bind { .. } => 2,
        StartStepView::ResolveAddress { .. } => 1,
        StartStepView::Serve { .. } => 0,
        StartStepView::Failed { .. } => 0,
    }
}

/// What a start does, the state that it leaves, and what it reports.
pub struct StartRun {
    /// The address that is parsed and then bound, if it comes to that.
    pub wanted_address: Option<Seq<char>>,
    /// The settings that the tools are served under and the token that is asked for, if the
    /// start comes to serving.
    pub served: Option<(McpSettingsView, Option<Seq<char>>)>,
    pub state: McpServerStateView,
    pub report: Result<McpServerStatusView, AppErrorView>,
}

/// What a start does from `step` on.
pub open spec fn start_from(
    state: McpServerStateView,
    step: StartStepView,
    answers: StartAnswers,
) -> StartRun
    decreases start_steps_left(step),
{
    match step {
        StartStepView::ParseAddress { settings } => {
            let rest = start_from(state, parse_step(settings, answers.parsed), answers);
            StartRun { wanted_address: Some(settings.bind_address), ..rest }
        },
        StartStepView::Bind { settings } => start_from(
            state,
            bind_step(settings, answers.bound),
            answers,
        ),
        StartStepView::ResolveAddress { settings } => start_from(
            state,
            resolve_step(settings, answers.local_address),
            answers,
        ),
        StartStepView::Serve { settings, auth_token, address } => {
            let after = McpServerStateView::serving(answers.cancellation, address);
            StartRun {
                wanted_address: None,
                served: Some((settings, auth_token)),
                state: after,
                report: Ok(after.status()),
            }
        },
        StartStepView::Failed { error } => StartRun {
            wanted_address: None,
            served: None,
            state,
            report: Err(error),
        },
    }
}

/// What a start does.
pub open spec fn start_run(
    state: McpServerStateView,
    settings: McpSettingsView,
    answers: StartAnswers,
) -> StartRun {
    start_from(state, start_step(state, settings), answers)
}

/// A start succeeds exactly if no server is running and all that it needs from outside goes
/// well. It then serves the tools under the very settings that it was given, listens where
/// they say, and asks for their token, unless that is blank. It reports, as the status does
/// from there on, that a server is running on the address that was bound. A start that fails
/// serves nothing and changes nothing.
pub proof fn law_start(
    state: McpServerStateView,
    settings: McpSettingsView,
    answers: StartAnswers,
)
    ensures
        start_run(state, settings, answers).report is Ok <==> {
            &&& state.cancellation is None
            &&& answers.parsed is Ok
            &&& answers.bound is Ok
            &&& answers.local_address is Ok
        },
        start_run(state, settings, answers).wanted_address == (if state.cancellation is None {
            Some(settings.bind_address)
        } else {
            None
        }),
        ({
            let run = start_run(state, settings, answers);
            match run.report {
                Ok(status) => {
                    &&& run.served matches Some((under, token))
                    &&& under == settings
                    &&& match settings.auth_token {
                        Some(configured) => if exists|i: int|
                            0 <= i < configured.len() && !is_white_space(#[trigger] configured[i]) {
                            token == Some(configured)
                        } else {
                            token is None
                        },
                        None => token is None,
                    }
                    &&& run.state.cancellation == Some(answers.cancellation)
                    &&& run.state.bind_address == Some(answers.local_address->Ok_0)
                    &&& run.state.running()
                    &&& status == run.state.status()
                    &&& status.running
                    &&& status.bind_address == Some(answers.local_address->Ok_0)
                },
                Err(error) => run.state == state && run.served is None,
            }
        }),
{
    reveal_with_fuel(start_from, 4);
}

/// At most one server runs: while one is running, a start fails with the same error whatever
/// its settings, and the running server stays.
pub proof fn law_one_server(
    state: McpServerStateView,
    settings: McpSettingsView,
    answers: StartAnswers,
)
    requires
        state.cancellation is Some,
    ensures
        start_run(state, settings, answers) == (StartRun {
            wanted_address: None,
            served: None,
            state,
            report: Err(AppErrorView::Config("MCP server is already running"@)),
        }),
{
    reveal_with_fuel(start_from, 4);
}

/// Which failure a start reports: that of the first thing that went wrong.
pub proof fn law_start_failure(
    state: McpServerStateView,
    settings: McpSettingsView,
    answers: StartAnswers,
)
    requires
        state.cancellation is None,
    ensures
        answers.parsed matches Err(message) ==> start_run(state, settings, answers).report == Err::<
            McpServerStatusView,
            AppErrorView,
        >(AppErrorView::Config("invalid bind address: "@ + message)),
        answers.parsed is Ok ==> (answers.bound matches Err(message) ==> start_run(
            state,
            settings,
            answers,
        ).report == Err::<McpServerStatusView, AppErrorView>(
            AppErrorView::Config("failed to bind MCP server: "@ + message),
        )),
        answers.parsed is Ok && answers.bound is Ok ==> (answers.local_address matches Err(message)
            ==> start_run(state, settings, answers).report == Err::<McpServerStatusView, AppErrorView>(
            AppErrorView::Config("failed to resolve local address: "@ + message),
        )),
{
    reveal_with_fuel(start_from, 4);
}

/// Stopping undoes a start: it hands out the token of the very server that was started, and
/// leaves the state from before the start. Stopping once more changes nothing and hands out
/// nothing.
pub proof fn law_stop_undoes_start(
    state: McpServerStateView,
    settings: McpSettingsView,
    answers: StartAnswers,
)
    requires
        state.cancellation is Some <==> state.bind_address is Some,
        start_run(state, settings, answers).report is Ok,
    ensures
        start_run(state, settings, answers).state.stopped() == (state, Some(answers.cancellation)),
        state.stopped() == (state, None::<CancellationToken>),
{
    reveal_with_fuel(start_from, 4);
}

/// A server is reported as running exactly while an address is reported for it: this holds
/// at first, after every start, whether it succeeds or fails, and after every stop.
pub proof fn law_address_while_running(
    state: McpServerStateView,
    settings: McpSettingsView,
    answers: StartAnswers,
)
    requires
        state.cancellation is Some <==> state.bind_address is Some,
    ensures
        state.well_formed(),
        state.status().running <==> state.cancellation is Some,
        state.status().bind_address == state.bind_address,
        ({
            let after = start_run(state, settings, answers).state;
            after.cancellation is Some <==> after.bind_address is Some
        }),
        state.stopped().0.cancellation is None,
        state.stopped().0.bind_address is None,
        state.stopped().1 == state.cancellation,
        state.stopped().0.status().bind_address is None,
        McpServerStateView::idle().cancellation is None,
        McpServerStateView::idle().bind_address is None,
        state.status().running <==> state.status().bind_address is Some,
        start_run(state, settings, answers).state.well_formed(),
        state.stopped().0.well_formed(),
        !state.stopped().0.status().running,
        McpServerStateView::idle().well_formed(),
{
    reveal_with_fuel(start_from, 4);
}

/// The bearer-token check stands before the tools exactly if a token that is not blank is
/// configured, and it asks for that token as it was written.
pub proof fn law_auth_when_configured(settings: McpSettingsView, address: Seq<char>)
    ensures
        resolve_step(settings, Ok(address)) == (StartStepView::Serve {
            settings,
            auth_token: match settings.auth_token {
                Some(token) => if is_blank(token) {
                    None
                } else {
                    Some(token)
                },
                None => None,
            },
            address,
        }),
{
}

} // verus!
