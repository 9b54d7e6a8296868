use nyaterm_mcp::config::{AiExecutionProfile, AiPermissionMode, McpSettings};
use nyaterm_mcp::error::{AppError, ToolError};
use nyaterm_mcp::session::{InputOrigin, InputSensitivity, SessionCommand, SessionInfo};
use nyaterm_mcp::tools::{McpTools, WriteParams};

fn tools(mode: AiPermissionMode, allowed: &[&str]) -> McpTools {
    McpTools::new(McpSettings {
        enabled: false,
        bind_address: "127.0.0.1:0".to_string(),
        auth_token: None,
        permission_mode: mode,
        allowed_sessions: allowed.iter().map(|id| id.to_string()).collect(),
    })
}

fn session(id: &str, profile: AiExecutionProfile, connection_id: Option<&str>) -> SessionInfo {
    SessionInfo {
        id: id.to_string(),
        name: format!("name of {id}"),
        session_type: "Local".to_string(),
        connected: id != "c",
        ai_execution_profile: profile,
        connection_id: connection_id.map(|id| id.to_string()),
    }
}

fn sessions() -> Vec<SessionInfo> {
    vec![
        session("a", AiExecutionProfile::Disabled, None),
        session("b", AiExecutionProfile::Auto, Some("x")),
        session("c", AiExecutionProfile::SendOnly, None),
        session("d", AiExecutionProfile::Marker("Zsh".to_string()), None),
    ]
}

fn params(session_id: &str, data: &str, send_enter: bool) -> WriteParams {
    WriteParams {
        session_id: session_id.to_string(),
        data: data.to_string(),
        send_enter,
    }
}

fn written(r: Result<SessionCommand, ToolError>) -> Vec<u8> {
    match r {
        Ok(SessionCommand::Write { data, automated, origin, sensitivity }) => {
            assert!(automated);
            assert_eq!(origin, InputOrigin::AiAgent);
            assert_eq!(sensitivity, InputSensitivity::Normal);
            data
        }
        other => panic!("{:?}", other),
    }
}

#[test]
fn empty_allow_list_admits_every_session() {
    let tools = tools(AiPermissionMode::Auto, &[]);
    assert!(tools.is_session_allowed("a"));
    assert!(tools.is_session_allowed(""));
    let listed = tools.list_terminals(sessions());
    let ids: Vec<&str> = listed.iter().map(|t| t.id.as_str()).collect();
    assert_eq!(ids, ["a", "b", "c", "d"]);
}

#[test]
fn allow_list_compares_whole_ids() {
    let tools = tools(AiPermissionMode::Auto, &["ab", "c"]);
    assert!(tools.is_session_allowed("ab"));
    assert!(tools.is_session_allowed("c"));
    assert!(!tools.is_session_allowed("a"));
    assert!(!tools.is_session_allowed("abc"));
    assert!(!tools.is_session_allowed("AB"));
    assert!(!tools.is_session_allowed(""));
}

#[test]
fn listing_leaves_out_what_is_not_allowed() {
    // Listing is reading: observer mode does not matter.
    let tools = tools(AiPermissionMode::Observer, &["d", "b", "z"]);
    let listed = tools.list_terminals(sessions());
    let ids: Vec<&str> = listed.iter().map(|t| t.id.as_str()).collect();
    assert_eq!(ids, ["b", "d"]);
}

#[test]
fn listing_describes_the_sessions() {
    let listed = tools(AiPermissionMode::Confirm, &[]).list_terminals(sessions());
    assert_eq!(listed[1].name, "name of b");
    assert_eq!(listed[1].session_type, "Local");
    assert!(listed[1].connected);
    assert_eq!(listed[1].connection_id.as_deref(), Some("x"));
    assert!(!listed[2].connected);
    assert_eq!(listed[2].connection_id, None);
    let profiles: Vec<&str> = listed.iter().map(|t| t.ai_execution_profile.as_str()).collect();
    assert_eq!(profiles, ["Disabled", "Auto", "SendOnly", "Zsh"]);
}

#[test]
fn listing_of_no_sessions_is_empty() {
    assert!(tools(AiPermissionMode::Auto, &[]).list_terminals(Vec::new()).is_empty());
}

#[test]
fn only_observer_mode_forbids_writing() {
    assert!(tools(AiPermissionMode::Confirm, &[]).check_write_permission().is_ok());
    assert!(tools(AiPermissionMode::Auto, &[]).check_write_permission().is_ok());
    assert!(matches!(
        tools(AiPermissionMode::Observer, &[]).check_write_permission(),
        Err(AppError::Config(text)) if text == "MCP server is in observer mode (read-only)"
    ));
}

#[test]
fn raw_input_is_sent_as_it_stands() {
    let tools = tools(AiPermissionMode::Auto, &["a"]);
    let data = " \u{1b}[A\u{3} \u{fc} ";
    assert_eq!(written(tools.write_to_terminal(&params("a", data, false))), data.as_bytes());
}

#[test]
fn enter_follows_raw_input() {
    let tools = tools(AiPermissionMode::Auto, &[]);
    assert_eq!(written(tools.write_to_terminal(&params("a", "y", true))), b"y\n");
    assert_eq!(written(tools.write_to_terminal(&params("a", "", true))), b"\n");
    assert_eq!(written(tools.write_to_terminal(&params("a", "", false))), b"");
}

#[test]
fn raw_input_needs_no_approval() {
    let tools = tools(AiPermissionMode::Confirm, &[]);
    assert_eq!(written(tools.write_to_terminal(&params("a", "ls", true))), b"ls\n");
}

#[test]
fn raw_input_respects_the_allow_list() {
    let tools = tools(AiPermissionMode::Observer, &["b"]);
    assert!(matches!(
        tools.write_to_terminal(&params("a", "ls", true)),
        Err(ToolError::InvalidParams(text))
            if text == "session is not in the MCP allowed-session list"
    ));
}

#[test]
fn raw_input_is_refused_in_observer_mode() {
    let tools = tools(AiPermissionMode::Observer, &["a"]);
    assert!(matches!(
        tools.write_to_terminal(&params("a", "ls", true)),
        Err(ToolError::Internal(AppError::Config(text)))
            if text == "MCP server is in observer mode (read-only)"
    ));
}

#[test]
fn raw_input_is_answered() {
    let tools = tools(AiPermissionMode::Auto, &[]);
    assert_eq!(
        tools.finish_write_to_terminal(Ok(())).unwrap(),
        "input written to terminal"
    );
    let gone = AppError::Channel("session closed".to_string());
    assert!(matches!(
        tools.finish_write_to_terminal(Err(gone)),
        Err(ToolError::Internal(AppError::Channel(text))) if text == "session closed"
    ));
}

#[test]
fn refused_parameters_go_out_with_their_code() {
    let error = ToolError::InvalidParams("no such thing".to_string());
    let sent = error.into_mcp_error("not used".to_string());
    assert_eq!(sent.code, -32602);
    assert_eq!(sent.message, "no such thing");
}

#[test]
fn internal_errors_go_out_with_their_code() {
    let error = ToolError::Internal(AppError::Config("inner".to_string()));
    let sent = error.into_mcp_error("shown".to_string());
    assert_eq!(sent.code, -32603);
    assert_eq!(sent.message, "shown");
}
