//! What each step of a command does, from whatever state it is taken, and what the parts
//! that the steps are built from hold.
use vstd::prelude::*;

use crate::approval::{approval_request, verdict, ApprovalReply, APPROVAL_TIMEOUT_SECS};
use crate::audit::{audit_entry, AppendAiAuditRequestView};
use crate::config::{
    AiExecutionProfileView, AiPermissionMode, McpSettingsView, RiskLevelView,
};
use crate::error::{AppErrorView, ToolErrorView};
use crate::execute::{
    blocked, executed, failed, refused, CommandResultView, ExecuteOutcomeView, ExecuteRequestView,
    ExecuteStepView,
};
use crate::ids::is_uuid_v4;
use crate::session::{typed_input, CaptureReplyView, SessionCommandView, SessionInfoView};
use crate::text::is_white_space;
use crate::tools::{
    approval_step, capture_step, risk_step, send_step, session_step, uses_markers, wrap_step,
    write_step,
};

verus! {

/// Typed input is the whole text in UTF-8, and one line feed after it if enter is asked for.
/// Different texts give different input.
pub proof fn law_typed_input(text: Seq<char>, other: Seq<char>, enter: bool)
    ensures
        typed_input(text, enter) is Write,
        typed_input(text, true)->data == vstd::utf8::encode_utf8(text) + seq![0x0au8],
        typed_input(text, false)->data == vstd::utf8::encode_utf8(text),
        typed_input(text, enter)->automated,
        typed_input(text, enter)->origin is AiAgent,
        typed_input(text, enter)->sensitivity is Normal,
        typed_input(text, enter) == typed_input(other, enter) ==> text == other,
{
    let bytes = vstd::utf8::encode_utf8(text);
    let others = vstd::utf8::encode_utf8(other);
    assert(bytes.push(0x0au8) =~= bytes + seq![0x0au8]);
    vstd::utf8::encode_utf8_decode_utf8(text);
    vstd::utf8::encode_utf8_decode_utf8(other);
    assert(bytes.push(0x0au8).drop_last() =~= bytes);
    assert(others.push(0x0au8).drop_last() =~= others);
}

/// An approval request shows the command, its session and its risk as they are. Requests with
/// different ids have different keys.
pub proof fn law_approval_request(
    id: Seq<char>,
    other: Seq<char>,
    session_id: Seq<char>,
    command: Seq<char>,
    risk: RiskLevelView,
)
    ensures
        approval_request(id, session_id, command, risk).key == "mcp-"@ + id,
        approval_request(id, session_id, command, risk).session_id == session_id,
        approval_request(id, session_id, command, risk).command == command,
        approval_request(id, session_id, command, risk).risk_level == risk,
        approval_request(id, session_id, command, risk).key == approval_request(
            other,
            session_id,
            command,
            risk,
        ).key ==> id == other,
{
    let n = "mcp-"@.len() as int;
    assert(("mcp-"@ + id).skip(n) =~= id);
    assert(("mcp-"@ + other).skip(n) =~= other);
}

/// The user has a minute to answer. Only the user's own answer is a verdict.
pub proof fn law_verdict(reply: ApprovalReply)
    ensures
        APPROVAL_TIMEOUT_SECS == 60,
        match reply {
            ApprovalReply::Answered(approved) => verdict(reply) == Ok::<bool, AppErrorView>(
                approved,
            ),
            ApprovalReply::Closed => verdict(reply) == Err::<bool, AppErrorView>(
                AppErrorView::Channel("approval channel closed"@),
            ),
            ApprovalReply::TimedOut => verdict(reply) == Err::<bool, AppErrorView>(
                AppErrorView::Config("command approval timed out"@),
            ),
        },
{
}

/// A random id is 36 characters long: lower-case hexadecimal digits, but for the hyphens, with
/// the version and the variant in their places.
pub proof fn law_random_id(s: Seq<char>, i: int)
    requires
        is_uuid_v4(s),
        0 <= i < 36,
    ensures
        s.len() == 36,
        s[i] == '-' <==> i == 8 || i == 13 || i == 18 || i == 23,
        s[i] != '-' ==> '0' <= s[i] <= '9' || 'a' <= s[i] <= 'f',
        i == 14 ==> s[i] == '4',
        i == 19 ==> s[i] == '8' || s[i] == '9' || s[i] == 'a' || s[i] == 'b',
{
    let c = s[i];
}

/// Who may use what, by the entries of the settings: a session that equals an entry of the
/// list, and every session where the list is empty; a token unless it is blank, and then as
/// it was written.
pub proof fn law_settings(settings: McpSettingsView, session_id: Seq<char>)
    ensures
        settings.admits(session_id) <==> (settings.allowed_sessions.len() == 0 || exists|i: int|
            0 <= i < settings.allowed_sessions.len() && #[trigger] settings.allowed_sessions[i]
                == session_id),
        settings.auth_token is None ==> settings.required_token() is None,
        settings.auth_token matches Some(token) ==> (if exists|i: int|
            0 <= i < token.len() && !is_white_space(#[trigger] token[i]) {
            settings.required_token() == Some(token)
        } else {
            settings.required_token() is None
        }),
{
}

/// The names under which profiles are shown.
pub proof fn law_profile_name(profile: AiExecutionProfileView)
    ensures
        profile is Disabled ==> profile.name() == "Disabled"@,
        profile is Auto ==> profile.name() == "Auto"@,
        profile is SendOnly ==> profile.name() == "SendOnly"@,
        profile matches AiExecutionProfileView::Marker(name) ==> profile.name() == name,
{
}

/// An entry of the audit log holds what it is made for. What was executed, and nothing else,
/// was put into the terminal.
pub proof fn law_audit_entry(
    session_id: Seq<char>,
    command: Seq<char>,
    risk: RiskLevelView,
    was_executed: bool,
    was_blocked: bool,
)
    ensures
        audit_entry(session_id, command, risk, was_executed, was_blocked) == (
        AppendAiAuditRequestView {
            connection_id: Some(session_id),
            action: "mcp.execute_command"@,
            user_input: None,
            generated_command: Some(command),
            risk_level: Some(risk),
            inserted_to_terminal: was_executed,
            executed: was_executed,
            blocked: was_blocked,
        }),
{
}

/// How a call ends. A refused call leaves no entry. Every other end leaves one for the
/// request's session and command: a blocked command at the highest risk, a command that
/// failed or was run at its own; and only a command that was run is logged as executed.
pub proof fn law_ends(
    request: ExecuteRequestView,
    risk: RiskLevelView,
    result: CommandResultView,
    error: AppErrorView,
    reason: ToolErrorView,
)
    ensures
        refused(reason) == (ExecuteStepView::Finished {
            outcome: ExecuteOutcomeView { audit: None, result: Err(reason) },
        }),
        ({
            &&& blocked(request, error) matches ExecuteStepView::Finished { outcome }
            &&& outcome.result == Err::<CommandResultView, ToolErrorView>(
                ToolErrorView::Internal(error),
            )
            &&& outcome.audit matches Some(entry)
            &&& entry.connection_id == Some(request.session_id)
            &&& entry.generated_command == Some(request.command)
            &&& entry.risk_level == Some(RiskLevelView::High)
            &&& !entry.executed && !entry.inserted_to_terminal && entry.blocked
        }),
        ({
            &&& failed(request, risk, error) matches ExecuteStepView::Finished { outcome }
            &&& outcome.result == Err::<CommandResultView, ToolErrorView>(
                ToolErrorView::Internal(error),
            )
            &&& outcome.audit matches Some(entry)
            &&& entry.connection_id == Some(request.session_id)
            &&& entry.generated_command == Some(request.command)
            &&& entry.risk_level == Some(risk)
            &&& !entry.executed && !entry.inserted_to_terminal && !entry.blocked
        }),
        ({
            &&& executed(request, risk, result) matches ExecuteStepView::Finished { outcome }
            &&& outcome.result == Ok::<CommandResultView, ToolErrorView>(result)
            &&& outcome.audit matches Some(entry)
            &&& entry.connection_id == Some(request.session_id)
            &&& entry.generated_command == Some(request.command)
            &&& entry.risk_level == Some(risk)
            &&& entry.executed && entry.inserted_to_terminal && !entry.blocked
        }),
{
}

/// After the risk assessment the request goes on unchanged, with the assessed risk: to the
/// user in `Confirm` mode, to the session in `Auto` mode. In observer mode it is blocked, even
/// here.
pub proof fn law_after_risk(
    mode: AiPermissionMode,
    request: ExecuteRequestView,
    risk: RiskLevelView,
    id: Seq<char>,
)
    ensures
        mode is Auto ==> risk_step(mode, request, risk, id) == (ExecuteStepView::LookUpSession {
            request,
            risk,
        }),
        mode is Confirm ==> {
            &&& risk_step(mode, request, risk, id) matches ExecuteStepView::RequestApproval {
                request: kept,
                risk: level,
                approval,
            }
            &&& kept == request
            &&& level == risk
            &&& approval.key == "mcp-"@ + id
            &&& approval.session_id == request.session_id
            &&& approval.command == request.command
            &&& approval.risk_level == risk
        },
        mode is Observer ==> risk_step(mode, request, risk, id) == blocked(
            request,
            AppErrorView::Config("MCP server is in observer mode (read-only)"@),
        ),
{
}

/// After the user's answer the request goes on unchanged, at its risk, exactly if the user
/// approved. Otherwise it is blocked.
pub proof fn law_after_answer(
    request: ExecuteRequestView,
    risk: RiskLevelView,
    reply: ApprovalReply,
)
    ensures
        approval_step(request, risk, ApprovalReply::Answered(true)) == (
        ExecuteStepView::LookUpSession { request, risk }),
        approval_step(request, risk, ApprovalReply::Answered(false)) == blocked(
            request,
            AppErrorView::Config("command rejected by user"@),
        ),
        reply is Closed ==> approval_step(request, risk, reply) == blocked(
            request,
            AppErrorView::Channel("approval channel closed"@),
        ),
        reply is TimedOut ==> approval_step(request, risk, reply) == blocked(
            request,
            AppErrorView::Config("command approval timed out"@),
        ),
{
}

/// After the look-up the request goes on unchanged, at its risk, as the session's profile
/// says; nothing else that is known of the session matters. The random id is used only where
/// there are markers.
pub proof fn law_after_look_up(
    request: ExecuteRequestView,
    risk: RiskLevelView,
    info: Result<SessionInfoView, AppErrorView>,
    id: Seq<char>,
)
    ensures
        match info {
            Err(error) => session_step(request, risk, info, id) == failed(request, risk, error),
            Ok(session) => match session.ai_execution_profile {
                AiExecutionProfileView::Disabled => session_step(request, risk, info, id)
                    == failed(
                    request,
                    risk,
                    AppErrorView::Config("AI execution is disabled for this session"@),
                ),
                AiExecutionProfileView::Marker(name) => session_step(request, risk, info, id) == (
                ExecuteStepView::Wrap {
                    request,
                    risk,
                    profile: AiExecutionProfileView::Marker(name),
                    marker_id: id,
                }),
                _ => {
                    &&& session_step(request, risk, info, id) matches ExecuteStepView::Write {
                        request: kept,
                        risk: level,
                        input,
                    }
                    &&& kept == request
                    &&& level == risk
                    &&& input is Write
                    &&& input->data == vstd::utf8::encode_utf8(request.command) + seq![0x0au8]
                },
            },
        },
        uses_markers(info) <==> info is Ok && info->Ok_0.ai_execution_profile is Marker,
{
    law_typed_input(request.command, request.command, true);
}

/// After a command was typed in, the client learns that it was sent and how many
/// milliseconds that took, or why it was not.
pub proof fn law_after_write(
    request: ExecuteRequestView,
    risk: RiskLevelView,
    sent: Result<(), AppErrorView>,
    elapsed_ms: u128,
)
    ensures
        match sent {
            Err(error) => write_step(request, risk, sent, elapsed_ms) == failed(
                request,
                risk,
                error,
            ),
            Ok(_) => exists|result: CommandResultView|
                {
                    &&& write_step(request, risk, sent, elapsed_ms) == #[trigger] executed(
                        request,
                        risk,
                        result,
                    )
                    &&& result.output
                        == "command sent to terminal (output capture unavailable for this session profile)"@
                    &&& result.exit_code is None
                    &&& result.duration_ms as int == elapsed_ms as int
                        % 0x1_0000_0000_0000_0000int
                    &&& !result.captured
                },
        },
{
}

/// After the wrapping, the whole wrapped text is sent, under the id that it was wrapped with;
/// a profile without markers is named in the error.
pub proof fn law_after_wrap(
    request: ExecuteRequestView,
    risk: RiskLevelView,
    profile: AiExecutionProfileView,
    marker_id: Seq<char>,
    wrapped: Option<Seq<char>>,
)
    ensures
        match wrapped {
            Some(text) => wrap_step(request, risk, profile, marker_id, wrapped) == (
            ExecuteStepView::SendCapture {
                request,
                risk,
                input: SessionCommandView::CaptureExec {
                    marker_id,
                    wrapped_command: vstd::utf8::encode_utf8(text),
                },
            }),
            None => wrap_step(request, risk, profile, marker_id, wrapped) == failed(
                request,
                risk,
                AppErrorView::Config(
                    "unsupported AI execution profile: "@ + match profile {
                        AiExecutionProfileView::Disabled => "Disabled"@,
                        AiExecutionProfileView::Auto => "Auto"@,
                        AiExecutionProfileView::SendOnly => "SendOnly"@,
                        AiExecutionProfileView::Marker(name) => name,
                    },
                ),
            ),
        },
{
}

/// After a wrapped command was sent its output is awaited, under the same request and risk;
/// if it was not sent, that is the failure.
pub proof fn law_after_send(
    request: ExecuteRequestView,
    risk: RiskLevelView,
    sent: Result<(), AppErrorView>,
)
    ensures
        match sent {
            Ok(_) => send_step(request, risk, sent) == (ExecuteStepView::AwaitCapture {
                request,
                risk,
            }),
            Err(error) => send_step(request, risk, sent) == failed(request, risk, error),
        },
{
}

/// After the wait the client gets the captured output, exit code and duration as they came,
/// or why there are none.
pub proof fn law_after_capture(
    request: ExecuteRequestView,
    risk: RiskLevelView,
    reply: CaptureReplyView,
)
    ensures
        match reply {
            CaptureReplyView::Captured { output, exit_code, duration_ms } => capture_step(
                request,
                risk,
                reply,
            ) == executed(
                request,
                risk,
                CommandResultView { output, exit_code, duration_ms, captured: true },
            ),
            CaptureReplyView::Closed => capture_step(request, risk, reply) == failed(
                request,
                risk,
                AppErrorView::Channel("capture channel closed — session may have disconnected"@),
            ),
            CaptureReplyView::TimedOut => capture_step(request, risk, reply) == failed(
                request,
                risk,
                AppErrorView::Config("command timed out"@),
            ),
        },
{
}

} // verus!
