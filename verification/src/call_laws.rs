//! What a whole call of `execute_command` does, told by its parameters, the entries of the
//! settings and the fields of what goes out.
use vstd::prelude::*;

use crate::approval::ApprovalReply;
use crate::config::{AiExecutionProfileView, McpSettingsView, RiskLevelView};
use crate::error::{AppErrorView, ToolErrorView};
use crate::execute::CommandResultView;
use crate::laws::{call_trace, trace, Answers};
use crate::session::CaptureReplyView;
use crate::text::{is_white_space, lemma_trimmed, trimmed};
use crate::tools::ExecuteCommandParamsView;

verus! {

/// A blank command is refused before anything else is looked at: nothing is done outside,
/// nothing is logged, and the client is told that the command must not be empty.
pub proof fn law_blank_command(
    settings: McpSettingsView,
    params: ExecuteCommandParamsView,
    answers: Answers,
)
    requires
        forall|i: int| 0 <= i < params.command.len() ==> is_white_space(#[trigger] params.command[i]),
    ensures
        ({
            let t = call_trace(settings, params, answers);
            &&& t.assessed.len() == 0
            &&& t.asked.len() == 0
            &&& t.looked_up.len() == 0
            &&& t.wraps.len() == 0
            &&& t.sent.len() == 0
            &&& t.waits.len() == 0
            &&& t.outcome.audit is None
            &&& t.outcome.result == Err::<CommandResultView, ToolErrorView>(
                ToolErrorView::InvalidParams("command must not be empty"@),
            )
        }),
{
    lemma_trimmed(params.command);
}

/// With a list of sessions, however long, a session that equals none of its entries gets
/// nothing: nothing is done outside, nothing is logged, and the client is told that the
/// session is not on the list.
pub proof fn law_unlisted_session(
    settings: McpSettingsView,
    params: ExecuteCommandParamsView,
    answers: Answers,
)
    requires
        exists|i: int|
            0 <= i < params.command.len() && !is_white_space(#[trigger] params.command[i]),
        settings.allowed_sessions.len() > 0,
        forall|i: int|
            0 <= i < settings.allowed_sessions.len() ==> #[trigger] settings.allowed_sessions[i]
                != params.session_id,
    ensures
        ({
            let t = call_trace(settings, params, answers);
            &&& t.assessed.len() == 0
            &&& t.asked.len() == 0
            &&& t.looked_up.len() == 0
            &&& t.wraps.len() == 0
            &&& t.sent.len() == 0
            &&& t.waits.len() == 0
            &&& t.outcome.audit is None
            &&& t.outcome.result == Err::<CommandResultView, ToolErrorView>(
                ToolErrorView::InvalidParams("session is not in the MCP allowed-session list"@),
            )
        }),
{
    lemma_trimmed(params.command);
}

/// In observer mode a command for a session that may be used is refused: nothing is done
/// outside, nothing is logged, and the client is told that the server is read-only.
pub proof fn law_observer_refuses(
    settings: McpSettingsView,
    params: ExecuteCommandParamsView,
    answers: Answers,
)
    requires
        exists|i: int|
            0 <= i < params.command.len() && !is_white_space(#[trigger] params.command[i]),
        settings.allowed_sessions.len() == 0 || exists|i: int|
            0 <= i < settings.allowed_sessions.len() && #[trigger] settings.allowed_sessions[i]
                == params.session_id,
        settings.permission_mode is Observer,
    ensures
        ({
            let t = call_trace(settings, params, answers);
            &&& t.assessed.len() == 0
            &&& t.asked.len() == 0
            &&& t.looked_up.len() == 0
            &&& t.wraps.len() == 0
            &&& t.sent.len() == 0
            &&& t.waits.len() == 0
            &&& t.outcome.audit is None
            &&& t.outcome.result == Err::<CommandResultView, ToolErrorView>(
                ToolErrorView::Internal(
                    AppErrorView::Config("MCP server is in observer mode (read-only)"@),
                ),
            )
        }),
{
    lemma_trimmed(params.command);
}

/// Every other call is considered: the risk of its command is assessed, once and as it will
/// run. In `Confirm` mode the user is asked once, about this command, this session and this
/// risk; in `Auto` mode nobody is. The session is looked up, once, if the mode is `Auto` or
/// the user approved, and otherwise nothing more is done outside.
pub proof fn law_gate(
    settings: McpSettingsView,
    params: ExecuteCommandParamsView,
    answers: Answers,
)
    requires
        exists|i: int|
            0 <= i < params.command.len() && !is_white_space(#[trigger] params.command[i]),
        settings.allowed_sessions.len() == 0 || exists|i: int|
            0 <= i < settings.allowed_sessions.len() && #[trigger] settings.allowed_sessions[i]
                == params.session_id,
        !(settings.permission_mode is Observer),
    ensures
        ({
            let t = call_trace(settings, params, answers);
            let passed = settings.permission_mode is Auto || answers.approval
                == ApprovalReply::Answered(true);
            &&& t.assessed == seq![trimmed(params.command)]
            &&& settings.permission_mode is Auto ==> t.asked.len() == 0
            &&& settings.permission_mode is Confirm ==> {
                &&& t.asked.len() == 1
                &&& t.asked[0].key == "mcp-"@ + answers.approval_id
                &&& t.asked[0].session_id == params.session_id
                &&& t.asked[0].command == trimmed(params.command)
                &&& t.asked[0].risk_level == answers.risk
            }
            &&& passed ==> t.looked_up == seq![params.session_id]
            &&& !passed ==> {
                &&& t.looked_up.len() == 0
                &&& t.wraps.len() == 0
                &&& t.sent.len() == 0
                &&& t.waits.len() == 0
            }
        }),
{
    reveal_with_fuel(trace, 8);
    lemma_trimmed(params.command);
    let t = call_trace(settings, params, answers);
    assert(t.assessed =~= seq![trimmed(params.command)]);
    if settings.permission_mode is Auto || answers.approval == ApprovalReply::Answered(true) {
        assert(t.looked_up =~= seq![params.session_id]);
    }
}

/// How a command that was let through is run. Under the profiles `Auto` and `SendOnly` it is
/// typed into the terminal, once, with the enter key; nothing is wrapped or awaited. Under a
/// marker profile it is wrapped once, by this profile and under the id of the markers; if
/// the profile has markers, the wrapped text is sent, once and under the same id, and once it
/// is sent the output is awaited for as long as the client said. Otherwise nothing is sent.
pub proof fn law_run(
    settings: McpSettingsView,
    params: ExecuteCommandParamsView,
    answers: Answers,
)
    requires
        exists|i: int|
            0 <= i < params.command.len() && !is_white_space(#[trigger] params.command[i]),
        settings.allowed_sessions.len() == 0 || exists|i: int|
            0 <= i < settings.allowed_sessions.len() && #[trigger] settings.allowed_sessions[i]
                == params.session_id,
        settings.permission_mode is Auto || settings.permission_mode is Confirm && answers.approval
            == ApprovalReply::Answered(true),
    ensures
        ({
            let t = call_trace(settings, params, answers);
            match answers.session {
                Err(_) => t.wraps.len() == 0 && t.sent.len() == 0 && t.waits.len() == 0,
                Ok(session) => match session.ai_execution_profile {
                    AiExecutionProfileView::Disabled => t.wraps.len() == 0 && t.sent.len() == 0
                        && t.waits.len() == 0,
                    AiExecutionProfileView::Marker(name) => {
                        &&& t.wraps == seq![
                            (
                                AiExecutionProfileView::Marker(name),
                                answers.marker_id,
                                trimmed(params.command),
                            ),
                        ]
                        &&& match answers.wrapped {
                            None => t.sent.len() == 0 && t.waits.len() == 0,
                            Some(text) => {
                                &&& t.sent.len() == 1
                                &&& t.sent[0].0 == params.session_id
                                &&& t.sent[0].1 is CaptureExec
                                &&& t.sent[0].1->marker_id == answers.marker_id
                                &&& t.sent[0].1->wrapped_command == vstd::utf8::encode_utf8(text)
                                &&& answers.sent is Ok ==> t.waits == seq![params.timeout_ms]
                                &&& answers.sent is Err ==> t.waits.len() == 0
                            },
                        }
                    },
                    _ => {
                        &&& t.wraps.len() == 0
                        &&& t.waits.len() == 0
                        &&& t.sent.len() == 1
                        &&& t.sent[0].0 == params.session_id
                        &&& t.sent[0].1 is Write
                        &&& t.sent[0].1->data == vstd::utf8::encode_utf8(trimmed(params.command))
                            + seq![0x0au8]
                        &&& t.sent[0].1->automated
                        &&& t.sent[0].1->origin is AiAgent
                        &&& t.sent[0].1->sensitivity is Normal
                    },
                },
            }
        }),
{
    reveal_with_fuel(trace, 8);
    lemma_trimmed(params.command);
    let t = call_trace(settings, params, answers);
    let text = vstd::utf8::encode_utf8(trimmed(params.command));
    assert(text.push(0x0au8) =~= text + seq![0x0au8]);
    if answers.session is Ok && answers.session->Ok_0.ai_execution_profile is Marker {
        assert(t.wraps =~= seq![
            (
                AiExecutionProfileView::Marker(answers.session->Ok_0.ai_execution_profile->Marker_0),
                answers.marker_id,
                trimmed(params.command),
            ),
        ]);
        if answers.wrapped is Some && answers.sent is Ok {
            assert(t.waits =~= seq![params.timeout_ms]);
        }
    }
}

/// What the client is answered for a command that was let through: the captured output as it
/// came; or, where output is not captured, that the command was sent, and the milliseconds
/// that this took; or the first thing that went wrong.
pub proof fn law_answer(
    settings: McpSettingsView,
    params: ExecuteCommandParamsView,
    answers: Answers,
)
    requires
        exists|i: int|
            0 <= i < params.command.len() && !is_white_space(#[trigger] params.command[i]),
        settings.allowed_sessions.len() == 0 || exists|i: int|
            0 <= i < settings.allowed_sessions.len() && #[trigger] settings.allowed_sessions[i]
                == params.session_id,
        settings.permission_mode is Auto || settings.permission_mode is Confirm && answers.approval
            == ApprovalReply::Answered(true),
    ensures
        ({
            let result = call_trace(settings, params, answers).outcome.result;
            match answers.session {
                Err(error) => result == Err::<CommandResultView, ToolErrorView>(
                    ToolErrorView::Internal(error),
                ),
                Ok(session) => match session.ai_execution_profile {
                    AiExecutionProfileView::Disabled => result == Err::<
                        CommandResultView,
                        ToolErrorView,
                    >(
                        ToolErrorView::Internal(
                            AppErrorView::Config("AI execution is disabled for this session"@),
                        ),
                    ),
                    AiExecutionProfileView::Marker(name) => if answers.wrapped is None {
                        result == Err::<CommandResultView, ToolErrorView>(
                            ToolErrorView::Internal(
                                AppErrorView::Config("unsupported AI execution profile: "@ + name),
                            ),
                        )
                    } else if answers.sent is Err {
                        result == Err::<CommandResultView, ToolErrorView>(
                            ToolErrorView::Internal(answers.sent->Err_0),
                        )
                    } else {
                        match answers.capture {
                            CaptureReplyView::Captured { output, exit_code, duration_ms } => {
                                &&& result is Ok
                                &&& result->Ok_0.output == output
                                &&& result->Ok_0.exit_code == exit_code
                                &&& result->Ok_0.duration_ms == duration_ms
                                &&& result->Ok_0.captured
                            },
                            CaptureReplyView::Closed => result == Err::<
                                CommandResultView,
                                ToolErrorView,
                            >(
                                ToolErrorView::Internal(
                                    AppErrorView::Channel(
                                        "capture channel closed — session may have disconnected"@,
                                    ),
                                ),
                            ),
                            CaptureReplyView::TimedOut => result == Err::<
                                CommandResultView,
                                ToolErrorView,
                            >(ToolErrorView::Internal(AppErrorView::Config("command timed out"@))),
                        }
                    },
                    _ => if answers.sent is Err {
                        result == Err::<CommandResultView, ToolErrorView>(
                            ToolErrorView::Internal(answers.sent->Err_0),
                        )
                    } else {
                        &&& result is Ok
                        &&& result->Ok_0.output
                            == "command sent to terminal (output capture unavailable for this session profile)"@
                        &&& result->Ok_0.exit_code is None
                        &&& answers.elapsed_ms <= u64::MAX ==> result->Ok_0.duration_ms
                            == answers.elapsed_ms
                        &&& result->Ok_0.duration_ms as int == answers.elapsed_ms as int
                            % 0x1_0000_0000_0000_0000int
                        &&& !result->Ok_0.captured
                    },
                },
            }
        }),
{
    reveal_with_fuel(trace, 8);
    lemma_trimmed(params.command);
}

/// What the client is answered for a command that the user did not let through.
pub proof fn law_not_approved(
    settings: McpSettingsView,
    params: ExecuteCommandParamsView,
    answers: Answers,
)
    requires
        exists|i: int|
            0 <= i < params.command.len() && !is_white_space(#[trigger] params.command[i]),
        settings.allowed_sessions.len() == 0 || exists|i: int|
            0 <= i < settings.allowed_sessions.len() && #[trigger] settings.allowed_sessions[i]
                == params.session_id,
        settings.permission_mode is Confirm,
    ensures
        answers.approval == ApprovalReply::Answered(false) ==> call_trace(
            settings,
            params,
            answers,
        ).outcome.result == Err::<CommandResultView, ToolErrorView>(
            ToolErrorView::Internal(AppErrorView::Config("command rejected by user"@)),
        ),
        answers.approval is Closed ==> call_trace(settings, params, answers).outcome.result
            == Err::<CommandResultView, ToolErrorView>(
            ToolErrorView::Internal(AppErrorView::Channel("approval channel closed"@)),
        ),
        answers.approval is TimedOut ==> call_trace(settings, params, answers).outcome.result
            == Err::<CommandResultView, ToolErrorView>(
            ToolErrorView::Internal(AppErrorView::Config("command approval timed out"@)),
        ),
{
    reveal_with_fuel(trace, 8);
    lemma_trimmed(params.command);
}

/// What is logged of a considered call: one entry, with its session, its command as it ran
/// and no user input. It says that the command was run, and was put into the terminal,
/// exactly if the client is answered with a result. It says blocked exactly if the user was
/// asked and did not approve; the risk is then the highest, and otherwise the assessed one.
pub proof fn law_logged(
    settings: McpSettingsView,
    params: ExecuteCommandParamsView,
    answers: Answers,
)
    requires
        exists|i: int|
            0 <= i < params.command.len() && !is_white_space(#[trigger] params.command[i]),
        settings.allowed_sessions.len() == 0 || exists|i: int|
            0 <= i < settings.allowed_sessions.len() && #[trigger] settings.allowed_sessions[i]
                == params.session_id,
        !(settings.permission_mode is Observer),
    ensures
        ({
            let outcome = call_trace(settings, params, answers).outcome;
            let stopped = settings.permission_mode is Confirm && answers.approval
                != ApprovalReply::Answered(true);
            &&& outcome.audit matches Some(entry)
            &&& entry.connection_id == Some(params.session_id)
            &&& entry.action == "mcp.execute_command"@
            &&& entry.user_input is None
            &&& entry.generated_command == Some(trimmed(params.command))
            &&& entry.executed == outcome.result is Ok
            &&& entry.inserted_to_terminal == outcome.result is Ok
            &&& entry.blocked == stopped
            &&& stopped ==> entry.risk_level == Some(RiskLevelView::High)
            &&& !stopped ==> entry.risk_level == Some(answers.risk)
        }),
{
    reveal_with_fuel(trace, 8);
    lemma_trimmed(params.command);
}

/// White space around a command makes no difference: the call does the same outside, logs
/// the same and is answered the same as with the command alone.
pub proof fn law_surrounding_white_space(
    settings: McpSettingsView,
    params: ExecuteCommandParamsView,
    answers: Answers,
)
    ensures
        call_trace(settings, params, answers) == call_trace(
            settings,
            ExecuteCommandParamsView { command: trimmed(params.command), ..params },
            answers,
        ),
{
    lemma_trimmed(params.command);
}

} // verus!
