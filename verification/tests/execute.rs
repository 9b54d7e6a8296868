use nyaterm_mcp::approval::ApprovalReply;
use nyaterm_mcp::audit::AppendAiAuditRequest;
use nyaterm_mcp::config::{AiExecutionProfile, AiPermissionMode, McpSettings, RiskLevel};
use nyaterm_mcp::error::{AppError, ToolError};
use nyaterm_mcp::execute::{
    AwaitingApproval, AwaitingCapture, AwaitingRisk, AwaitingSend, AwaitingSession, AwaitingWrap,
    AwaitingWrite, ExecuteOutcome, ExecuteStep,
};
use nyaterm_mcp::session::{
    CaptureReply, CapturedOutput, InputOrigin, InputSensitivity, SessionCommand, SessionInfo,
};
use nyaterm_mcp::tools::{default_timeout_ms, ExecuteCommandParams, McpTools, WriteParams};

fn tools(mode: AiPermissionMode, allowed: &[&str]) -> McpTools {
    McpTools::new(McpSettings {
        enabled: true,
        bind_address: "127.0.0.1:0".to_string(),
        auth_token: None,
        permission_mode: mode,
        allowed_sessions: allowed.iter().map(|id| id.to_string()).collect(),
    })
}

fn params(session_id: &str, command: &str) -> ExecuteCommandParams {
    ExecuteCommandParams {
        session_id: session_id.to_string(),
        command: command.to_string(),
        timeout_ms: 1_500,
    }
}

fn low() -> RiskLevel {
    RiskLevel::Other("Low".to_string())
}

fn session(profile: AiExecutionProfile) -> SessionInfo {
    SessionInfo {
        id: "s1".to_string(),
        name: "build".to_string(),
        session_type: "Ssh".to_string(),
        connected: true,
        ai_execution_profile: profile,
        connection_id: Some("c1".to_string()),
    }
}

fn assess(step: ExecuteStep) -> AwaitingRisk {
    match step {
        ExecuteStep::AssessRisk(pending) => pending,
        other => panic!("{:?}", other),
    }
}

fn approve(step: ExecuteStep) -> AwaitingApproval {
    match step {
        ExecuteStep::RequestApproval(pending) => pending,
        other => panic!("{:?}", other),
    }
}

fn look_up(step: ExecuteStep) -> AwaitingSession {
    match step {
        ExecuteStep::LookUpSession(pending) => pending,
        other => panic!("{:?}", other),
    }
}

fn write(step: ExecuteStep) -> AwaitingWrite {
    match step {
        ExecuteStep::Write(pending) => pending,
        other => panic!("{:?}", other),
    }
}

fn wrap(step: ExecuteStep) -> AwaitingWrap {
    match step {
        ExecuteStep::Wrap(pending) => pending,
        other => panic!("{:?}", other),
    }
}

fn send(step: ExecuteStep) -> AwaitingSend {
    match step {
        ExecuteStep::SendCapture(pending) => pending,
        other => panic!("{:?}", other),
    }
}

fn capture(step: ExecuteStep) -> AwaitingCapture {
    match step {
        ExecuteStep::AwaitCapture(pending) => pending,
        other => panic!("{:?}", other),
    }
}

fn finished(step: ExecuteStep) -> ExecuteOutcome {
    match step {
        ExecuteStep::Finished(outcome) => outcome,
        other => panic!("{:?}", other),
    }
}

fn in_auto_mode(command: &str) -> (McpTools, AwaitingSession) {
    let tools = tools(AiPermissionMode::Auto, &[]);
    let pending = assess(tools.execute_command(params("s1", command)));
    let pending = look_up(tools.check_command_risk(pending, low()));
    (tools, pending)
}

fn in_marker_profile() -> (McpTools, AwaitingWrap) {
    let (tools, pending) = in_auto_mode("uname -a");
    let info = session(AiExecutionProfile::Marker("Bash".to_string()));
    let pending = wrap(tools.execute_command_on_terminal(pending, Ok(info)));
    (tools, pending)
}

fn awaiting_approval() -> (McpTools, AwaitingApproval) {
    let tools = tools(AiPermissionMode::Confirm, &["s1"]);
    let pending = assess(tools.execute_command(params("s1", "rm -r build")));
    let pending = approve(tools.check_command_risk(pending, RiskLevel::Other("Medium".to_string())));
    (tools, pending)
}

fn invalid_params(outcome: &ExecuteOutcome) -> &str {
    match &outcome.result {
        Err(ToolError::InvalidParams(text)) => text,
        other => panic!("{:?}", other),
    }
}

fn config_error(outcome: &ExecuteOutcome) -> &str {
    match &outcome.result {
        Err(ToolError::Internal(AppError::Config(text))) => text,
        other => panic!("{:?}", other),
    }
}

fn channel_error(outcome: &ExecuteOutcome) -> &str {
    match &outcome.result {
        Err(ToolError::Internal(AppError::Channel(text))) => text,
        other => panic!("{:?}", other),
    }
}

fn assert_audit(
    audit: &Option<AppendAiAuditRequest>,
    command: &str,
    risk: &str,
    executed: bool,
    blocked: bool,
) {
    let entry = audit.as_ref().unwrap();
    assert_eq!(entry.connection_id.as_deref(), Some("s1"));
    assert_eq!(entry.action, "mcp.execute_command");
    assert_eq!(entry.user_input, None);
    assert_eq!(entry.generated_command.as_deref(), Some(command));
    let name = match entry.risk_level.as_ref().unwrap() {
        RiskLevel::High => "High",
        RiskLevel::Other(name) => name,
    };
    assert_eq!(name, risk);
    assert_eq!(entry.inserted_to_terminal, executed);
    assert_eq!(entry.executed, executed);
    assert_eq!(entry.blocked, blocked);
}

fn assert_uuid_v4(text: &str) {
    assert_eq!(text.len(), 36);
    for (i, c) in text.chars().enumerate() {
        match i {
            8 | 13 | 18 | 23 => assert_eq!(c, '-'),
            14 => assert_eq!(c, '4'),
            19 => assert!("89ab".contains(c)),
            _ => assert!("0123456789abcdef".contains(c)),
        }
    }
}

#[test]
fn default_timeout_is_thirty_seconds() {
    assert_eq!(default_timeout_ms(), 30_000);
}

#[test]
fn blank_commands_are_refused_first() {
    // The session is not allowed and nothing may be written, but the command comes first.
    let tools = tools(AiPermissionMode::Observer, &["other"]);
    for command in ["", " ", "\t\r\n", "\u{3000}\u{a0} \u{2028}"] {
        let outcome = finished(tools.execute_command(params("s1", command)));
        assert_eq!(invalid_params(&outcome), "command must not be empty");
        assert!(outcome.audit.is_none());
    }
}

#[test]
fn every_white_space_character_is_trimmed_and_no_other() {
    let tools = tools(AiPermissionMode::Auto, &[]);
    let listed = |n: u32| {
        matches!(
            n,
            0x09..=0x0d | 0x20 | 0x85 | 0xa0 | 0x1680 | 0x2000..=0x200a | 0x2028 | 0x2029 | 0x202f
                | 0x205f | 0x3000
        )
    };
    for n in 0..=0x10ffffu32 {
        if let Some(c) = char::from_u32(n) {
            let step = tools.execute_command(params("s1", &format!("{c}ls {c}{c}")));
            let expected = if listed(n) { "ls".to_string() } else { format!("{c}ls {c}{c}") };
            assert_eq!(assess(step).request.command, expected);
        }
    }
}

#[test]
fn only_the_ends_of_a_command_are_trimmed() {
    let tools = tools(AiPermissionMode::Auto, &[]);
    let pending = assess(tools.execute_command(params("s1", " \u{2003}echo  a\tb \n")));
    assert_eq!(pending.request.command, "echo  a\tb");
    assert_eq!(pending.request.session_id, "s1");
    assert_eq!(pending.request.timeout_ms, 1_500);
}

#[test]
fn sessions_off_the_allow_list_are_refused() {
    // Before the permission mode is looked at.
    let tools = tools(AiPermissionMode::Observer, &["other", "s10"]);
    let outcome = finished(tools.execute_command(params("s1", "ls")));
    assert_eq!(
        invalid_params(&outcome),
        "session is not in the MCP allowed-session list"
    );
    assert!(outcome.audit.is_none());
}

#[test]
fn observer_mode_runs_nothing() {
    let tools = tools(AiPermissionMode::Observer, &["s1"]);
    let outcome = finished(tools.execute_command(params("s1", "ls")));
    assert_eq!(
        config_error(&outcome),
        "MCP server is in observer mode (read-only)"
    );
    assert!(outcome.audit.is_none());
}

#[test]
fn observer_mode_blocks_an_assessed_command() {
    let auto = tools(AiPermissionMode::Auto, &[]);
    let pending = assess(auto.execute_command(params("s1", "ls")));
    let observer = tools(AiPermissionMode::Observer, &[]);
    let outcome = finished(observer.check_command_risk(pending, low()));
    assert_eq!(
        config_error(&outcome),
        "MCP server is in observer mode (read-only)"
    );
    assert_audit(&outcome.audit, "ls", "High", false, true);
}

#[test]
fn auto_mode_does_not_ask() {
    let (_, pending) = in_auto_mode("ls");
    assert_eq!(pending.request.session_id, "s1");
    assert!(matches!(&pending.risk, RiskLevel::Other(name) if name == "Low"));
}

#[test]
fn confirm_mode_asks_about_the_command() {
    let (_, pending) = awaiting_approval();
    let asked = &pending.approval;
    assert_uuid_v4(asked.key.strip_prefix("mcp-").unwrap());
    assert_eq!(asked.session_id, "s1");
    assert_eq!(asked.command, "rm -r build");
    assert!(matches!(&asked.risk_level, RiskLevel::Other(name) if name == "Medium"));
}

#[test]
fn approval_key_holds_the_given_id() {
    let tools = tools(AiPermissionMode::Confirm, &[]);
    let pending = assess(tools.execute_command(params("s1", "ls")));
    let pending = approve(tools.check_command_risk_with(pending, low(), "the-id"));
    assert_eq!(pending.approval.key, "mcp-the-id");
}

#[test]
fn approval_keys_differ() {
    let (_, first) = awaiting_approval();
    let (_, second) = awaiting_approval();
    assert_ne!(first.approval.key, second.approval.key);
}

#[test]
fn approved_commands_go_on() {
    let (tools, pending) = awaiting_approval();
    let pending = look_up(tools.settle_approval(pending, ApprovalReply::Answered(true)));
    assert_eq!(pending.request.command, "rm -r build");
    assert!(matches!(&pending.risk, RiskLevel::Other(name) if name == "Medium"));
}

#[test]
fn rejected_commands_are_blocked() {
    let (tools, pending) = awaiting_approval();
    let outcome = finished(tools.settle_approval(pending, ApprovalReply::Answered(false)));
    assert_eq!(config_error(&outcome), "command rejected by user");
    assert_audit(&outcome.audit, "rm -r build", "High", false, true);
}

#[test]
fn unanswered_commands_are_blocked() {
    let (tools, pending) = awaiting_approval();
    let outcome = finished(tools.settle_approval(pending, ApprovalReply::TimedOut));
    assert_eq!(config_error(&outcome), "command approval timed out");
    assert_audit(&outcome.audit, "rm -r build", "High", false, true);

    let (tools, pending) = awaiting_approval();
    let outcome = finished(tools.settle_approval(pending, ApprovalReply::Closed));
    assert_eq!(channel_error(&outcome), "approval channel closed");
    assert_audit(&outcome.audit, "rm -r build", "High", false, true);
}

#[test]
fn unknown_sessions_fail() {
    let (tools, pending) = in_auto_mode("ls");
    let missing = AppError::Other("session not found".to_string());
    let outcome = finished(tools.execute_command_on_terminal(pending, Err(missing)));
    assert!(matches!(
        &outcome.result,
        Err(ToolError::Internal(AppError::Other(text))) if text == "session not found"
    ));
    assert_audit(&outcome.audit, "ls", "Low", false, false);
}

#[test]
fn disabled_sessions_run_nothing() {
    let (tools, pending) = in_auto_mode("ls");
    let info = session(AiExecutionProfile::Disabled);
    let outcome = finished(tools.execute_command_on_terminal(pending, Ok(info)));
    assert_eq!(
        config_error(&outcome),
        "AI execution is disabled for this session"
    );
    assert_audit(&outcome.audit, "ls", "Low", false, false);
}

#[test]
fn uncaptured_commands_are_typed_in() {
    for profile in [AiExecutionProfile::Auto, AiExecutionProfile::SendOnly] {
        let (tools, pending) = in_auto_mode(" echo \u{e9}\u{20ac}\u{1f600} ");
        let pending = write(tools.execute_command_on_terminal(pending, Ok(session(profile))));
        match &pending.input {
            SessionCommand::Write { data, automated, origin, sensitivity } => {
                assert_eq!(data, "echo \u{e9}\u{20ac}\u{1f600}\n".as_bytes());
                assert!(*automated);
                assert_eq!(*origin, InputOrigin::AiAgent);
                assert_eq!(*sensitivity, InputSensitivity::Normal);
            }
            other => panic!("{:?}", other),
        }
        let outcome = finished(tools.finish_write(pending, Ok(()), 12));
        let result = outcome.result.unwrap();
        assert_eq!(
            result.output,
            "command sent to terminal (output capture unavailable for this session profile)"
        );
        assert_eq!(result.exit_code, None);
        assert_eq!(result.duration_ms, 12);
        assert!(!result.captured);
        assert_audit(&outcome.audit, "echo \u{e9}\u{20ac}\u{1f600}", "Low", true, false);
    }
}

#[test]
fn durations_wrap_at_64_bits() {
    let (tools, pending) = in_auto_mode("ls");
    let pending =
        write(tools.execute_command_on_terminal(pending, Ok(session(AiExecutionProfile::Auto))));
    let outcome = finished(tools.finish_write(pending, Ok(()), (1u128 << 64) + 7));
    assert_eq!(outcome.result.unwrap().duration_ms, 7);
}

#[test]
fn failed_writes_are_reported() {
    let (tools, pending) = in_auto_mode("ls");
    let pending =
        write(tools.execute_command_on_terminal(pending, Ok(session(AiExecutionProfile::Auto))));
    let gone = AppError::Channel("session closed".to_string());
    let outcome = finished(tools.finish_write(pending, Err(gone), 3));
    assert_eq!(channel_error(&outcome), "session closed");
    assert_audit(&outcome.audit, "ls", "Low", false, false);
}

#[test]
fn marker_profiles_get_a_random_marker() {
    let (_, pending) = in_marker_profile();
    assert_uuid_v4(&pending.marker_id);
    assert_eq!(pending.profile.name(), "Bash");
    assert_eq!(pending.request.command, "uname -a");
    let (_, other) = in_marker_profile();
    assert_ne!(pending.marker_id, other.marker_id);
}

#[test]
fn marker_is_the_given_id() {
    let (tools, pending) = in_auto_mode("ls");
    let info = session(AiExecutionProfile::Marker("Fish".to_string()));
    let pending = wrap(tools.execute_command_on_terminal_with(pending, Ok(info), "m1".to_string()));
    assert_eq!(pending.marker_id, "m1");
}

#[test]
fn unsupported_profiles_are_named() {
    let (tools, pending) = in_marker_profile();
    let outcome = finished(tools.send_wrapped(pending, None));
    assert_eq!(
        config_error(&outcome),
        "unsupported AI execution profile: Bash"
    );
    assert_audit(&outcome.audit, "uname -a", "Low", false, false);
}

#[test]
fn wrapped_commands_are_sent_under_their_marker() {
    let (tools, pending) = in_marker_profile();
    let marker = pending.marker_id.clone();
    let pending = send(tools.send_wrapped(pending, Some("<\u{e4} uname -a>\n".to_string())));
    match &pending.input {
        SessionCommand::CaptureExec { marker_id, wrapped_command } => {
            assert_eq!(*marker_id, marker);
            assert_eq!(wrapped_command, "<\u{e4} uname -a>\n".as_bytes());
        }
        other => panic!("{:?}", other),
    }
}

#[test]
fn captured_output_is_the_result() {
    let (tools, pending) = in_marker_profile();
    let pending = send(tools.send_wrapped(pending, Some("w".to_string())));
    let pending = capture(tools.await_capture(pending, Ok(())));
    assert_eq!(pending.request.timeout_ms, 1_500);
    let reply = CaptureReply::Captured(CapturedOutput {
        output: "Linux".to_string(),
        exit_code: Some(-1),
        duration_ms: 88,
    });
    let outcome = finished(tools.finish_capture(pending, reply));
    let result = outcome.result.unwrap();
    assert_eq!(result.output, "Linux");
    assert_eq!(result.exit_code, Some(-1));
    assert_eq!(result.duration_ms, 88);
    assert!(result.captured);
    assert_audit(&outcome.audit, "uname -a", "Low", true, false);
}

#[test]
fn failed_sends_are_reported() {
    let (tools, pending) = in_marker_profile();
    let pending = send(tools.send_wrapped(pending, Some("w".to_string())));
    let gone = AppError::Channel("session closed".to_string());
    let outcome = finished(tools.await_capture(pending, Err(gone)));
    assert_eq!(channel_error(&outcome), "session closed");
    assert_audit(&outcome.audit, "uname -a", "Low", false, false);
}

#[test]
fn lost_output_is_reported() {
    let (tools, pending) = in_marker_profile();
    let pending = send(tools.send_wrapped(pending, Some("w".to_string())));
    let pending = capture(tools.await_capture(pending, Ok(())));
    let outcome = finished(tools.finish_capture(pending, CaptureReply::Closed));
    assert_eq!(
        channel_error(&outcome),
        "capture channel closed \u{2014} session may have disconnected"
    );
    assert_audit(&outcome.audit, "uname -a", "Low", false, false);
}

#[test]
fn late_output_is_reported() {
    let (tools, pending) = in_marker_profile();
    let pending = send(tools.send_wrapped(pending, Some("w".to_string())));
    let pending = capture(tools.await_capture(pending, Ok(())));
    let outcome = finished(tools.finish_capture(pending, CaptureReply::TimedOut));
    assert_eq!(config_error(&outcome), "command timed out");
    assert_audit(&outcome.audit, "uname -a", "Low", false, false);
}

#[test]
fn confirmed_command_runs_to_its_end() {
    let (tools, pending) = awaiting_approval();
    let pending = look_up(tools.settle_approval(pending, ApprovalReply::Answered(true)));
    let info = session(AiExecutionProfile::SendOnly);
    let pending = write(tools.execute_command_on_terminal(pending, Ok(info)));
    let outcome = finished(tools.finish_write(pending, Ok(()), 0));
    assert!(outcome.result.is_ok());
    assert_audit(&outcome.audit, "rm -r build", "Medium", true, false);
}

#[test]
fn uncaptured_commands_go_the_way_of_raw_input() {
    let (tools, pending) = in_auto_mode("  make -j4\n");
    let info = session(AiExecutionProfile::SendOnly);
    let pending = write(tools.execute_command_on_terminal(pending, Ok(info)));
    let raw = tools
        .write_to_terminal(&WriteParams {
            session_id: "s1".to_string(),
            data: "make -j4".to_string(),
            send_enter: true,
        })
        .unwrap();
    match (pending.input, raw) {
        (SessionCommand::Write { data: typed, .. }, SessionCommand::Write { data: written, .. }) => {
            assert_eq!(typed, written);
            assert_eq!(typed, b"make -j4\n");
        }
        other => panic!("{:?}", other),
    }
}
