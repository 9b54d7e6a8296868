//! The audit trail of executed and blocked commands.
use vstd::prelude::*;

use crate::config::{RiskLevel, RiskLevelView};

verus! {

/// An entry for the audit log.
#[derive(Debug)]
pub struct AppendAiAuditRequest {
    pub connection_id: Option<String>,
    pub action: String,
    pub user_input: Option<String>,
    pub generated_command: Option<String>,
    pub risk_level: Option<RiskLevel>,
    pub inserted_to_terminal: bool,
    pub executed: bool,
    pub blocked: bool,
}

/// The abstract value of an [`AppendAiAuditRequest`].
pub struct AppendAiAuditRequestView {
    pub connection_id: Option<Seq<char>>,
    pub action: Seq<char>,
    pub user_input: Option<Seq<char>>,
    pub generated_command: Option<Seq<char>>,
    pub risk_level: Option<RiskLevelView>,
    pub inserted_to_terminal: bool,
    pub executed: bool,
    pub blocked: bool,
}

impl View for AppendAiAuditRequest {
    type V = AppendAiAuditRequestView;

    open spec fn view(&self) -> AppendAiAuditRequestView {
        AppendAiAuditRequestView {
            connection_id: self.connection_id.deep_view(),
            action: self.action@,
            user_input: self.user_input.deep_view(),
            generated_command: self.generated_command.deep_view(),
            risk_level: match self.risk_level {
                Some(risk) => Some(risk@),
                None => None,
            },
            inserted_to_terminal: self.inserted_to_terminal,
            executed: self.executed,
            blocked: self.blocked,
        }
    }
}

/// The entry for a command that was run, that failed, or that was blocked.
pub open spec fn audit_entry(
    session_id: Seq<char>,
    command: Seq<char>,
    risk: RiskLevelView,
    executed: bool,
    blocked: bool,
) -> AppendAiAuditRequestView {
    AppendAiAuditRequestView {
        connection_id: Some(session_id),
        action: "mcp.execute_command"@,
        user_input: None,
        generated_command: Some(command),
        risk_level: Some(risk),
        inserted_to_terminal: executed,
        executed,
        blocked,
    }
}

/// The entry for a command that was run, that failed, or that was blocked.
pub fn record_audit(
    session_id: &str,
    command: &str,
    risk: RiskLevel,
    executed: bool,
    blocked: bool,
) -> (r: AppendAiAuditRequest)
    ensures
        r@ == audit_entry(session_id@, command@, risk@, executed, blocked),
{
    AppendAiAuditRequest {
        connection_id: Some(session_id.to_owned()),
        action: "mcp.execute_command".to_owned(),
        user_input: None,
        generated_command: Some(command.to_owned()),
        risk_level: Some(risk),
        inserted_to_terminal: executed,
        executed,
        blocked,
    }
}

} // verus!
