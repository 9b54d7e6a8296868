use nyaterm_mcp::auth::auth_middleware;
use nyaterm_mcp::config::{AiPermissionMode, McpSettings};
use nyaterm_mcp::error::AppError;
use nyaterm_mcp::server::AwaitingServer;
use nyaterm_mcp::{auto_start, McpServerManager};
use tokio_util::sync::CancellationToken;

fn settings(enabled: bool, auth_token: Option<&str>) -> McpSettings {
    McpSettings {
        enabled,
        bind_address: "127.0.0.1:0".to_string(),
        auth_token: auth_token.map(|token| token.to_string()),
        permission_mode: AiPermissionMode::Confirm,
        allowed_sessions: vec!["s1".to_string()],
    }
}

fn text_of(error: AppError) -> String {
    match error {
        AppError::Config(text) => text,
        other => panic!("{:?}", other),
    }
}

fn begin(manager: &McpServerManager, settings: McpSettings) -> AwaitingServer {
    let pending = manager.start(settings).unwrap();
    assert_eq!(pending.settings.bind_address, "127.0.0.1:0");
    let pending = pending.parsed(Ok(())).unwrap();
    let pending = pending.bound(Ok(())).unwrap();
    pending.resolved(Ok("127.0.0.1:4711".to_string())).unwrap()
}

#[test]
fn server_is_idle_at_first() {
    for manager in [McpServerManager::new(), McpServerManager::default()] {
        let status = manager.status();
        assert!(!status.running);
        assert_eq!(status.bind_address, None);
    }
}

#[test]
fn started_server_reports_the_bound_address() {
    let mut manager = McpServerManager::new();
    let server = begin(&manager, settings(true, None));
    assert_eq!(server.address, "127.0.0.1:4711");
    assert_eq!(server.tools.settings.allowed_sessions, ["s1"]);
    assert!(!manager.status().running);

    let status = manager.started(server.address, CancellationToken::new());
    assert!(status.running);
    assert_eq!(status.bind_address.as_deref(), Some("127.0.0.1:4711"));
    let status = manager.status();
    assert!(status.running);
    assert_eq!(status.bind_address.as_deref(), Some("127.0.0.1:4711"));
}

#[test]
fn second_start_is_refused() {
    let mut manager = McpServerManager::new();
    let server = begin(&manager, settings(true, None));
    manager.started(server.address, CancellationToken::new());
    let error = manager.start(settings(true, Some("other"))).unwrap_err();
    assert_eq!(text_of(error), "MCP server is already running");
    assert_eq!(manager.status().bind_address.as_deref(), Some("127.0.0.1:4711"));
}

#[test]
fn stop_hands_out_the_token_of_the_running_server() {
    let mut manager = McpServerManager::new();
    let server = begin(&manager, settings(true, None));
    let token = CancellationToken::new();
    manager.started(server.address, token.clone());

    let (status, handed_out) = manager.stop();
    assert!(!status.running);
    assert_eq!(status.bind_address, None);
    assert!(!token.is_cancelled());
    handed_out.unwrap().cancel();
    assert!(token.is_cancelled());

    assert!(!manager.status().running);
    assert_eq!(manager.status().bind_address, None);
    assert!(manager.start(settings(true, None)).is_ok());
}

#[test]
fn stop_of_an_idle_server_does_nothing() {
    let mut manager = McpServerManager::new();
    let (status, handed_out) = manager.stop();
    assert!(!status.running);
    assert_eq!(status.bind_address, None);
    assert!(handed_out.is_none());
    assert!(!manager.status().running);
}

#[test]
fn bad_addresses_are_reported() {
    let manager = McpServerManager::new();
    let pending = manager.start(settings(true, None)).unwrap();
    let error = pending.parsed(Err("invalid socket address syntax".to_string())).unwrap_err();
    assert_eq!(text_of(error), "invalid bind address: invalid socket address syntax");
    assert!(!manager.status().running);
}

#[test]
fn busy_addresses_are_reported() {
    let manager = McpServerManager::new();
    let pending = manager.start(settings(true, None)).unwrap().parsed(Ok(())).unwrap();
    let error = pending.bound(Err("in use".to_string())).unwrap_err();
    assert_eq!(text_of(error), "failed to bind MCP server: in use");
    assert!(!manager.status().running);
}

#[test]
fn unresolved_addresses_are_reported() {
    let manager = McpServerManager::new();
    let pending = manager.start(settings(true, None)).unwrap().parsed(Ok(())).unwrap();
    let error = pending.bound(Ok(())).unwrap().resolved(Err("gone".to_string())).unwrap_err();
    assert_eq!(text_of(error), "failed to resolve local address: gone");
    assert!(!manager.status().running);
}

#[test]
fn blank_tokens_are_no_tokens() {
    let manager = McpServerManager::new();
    for token in [None, Some(""), Some(" "), Some("\t\n\u{2002}")] {
        assert_eq!(begin(&manager, settings(true, token)).auth_token, None);
    }
    let server = begin(&manager, settings(true, Some(" t ")));
    assert_eq!(server.auth_token.as_deref(), Some(" t "));
}

#[test]
fn auto_start_needs_to_be_enabled() {
    assert!(auto_start(Ok(settings(false, None))).unwrap().is_none());
    let started = auto_start(Ok(settings(true, Some("t")))).unwrap().unwrap();
    assert_eq!(started.auth_token.as_deref(), Some("t"));
    let error = AppError::Config("settings cannot be read".to_string());
    assert_eq!(text_of(auto_start(Err(error)).unwrap_err()), "settings cannot be read");
}

#[test]
fn bearer_of_the_token_is_let_through() {
    assert_eq!(auth_middleware("secret", Some(&b"Bearer secret"[..])), Ok(()));
    assert_eq!(auth_middleware(" a\tb ", Some(&b"Bearer  a\tb "[..])), Ok(()));
}

#[test]
fn other_credentials_are_unauthorized() {
    assert_eq!(auth_middleware("secret", None), Err(401));
    let values: [&[u8]; 8] = [
        b"",
        b"Bearer",
        b"Bearer ",
        b"secret",
        b"bearer secret",
        b"Bearer secret ",
        b"Bearer secre",
        b"Basic secret",
    ];
    for value in values {
        assert_eq!(auth_middleware("secret", Some(value)), Err(401));
    }
}

#[test]
fn only_visible_ascii_can_be_borne() {
    for b in 0..=255u8 {
        let token = char::from(b).to_string();
        let mut value = b"Bearer ".to_vec();
        value.push(b);
        let visible = (32..127).contains(&b) || b == 9;
        assert_eq!(auth_middleware(&token, Some(&value)).is_ok(), visible);
    }
    let value = "Bearer \u{fc}".as_bytes();
    assert_eq!(auth_middleware("\u{fc}", Some(value)), Err(401));
}
