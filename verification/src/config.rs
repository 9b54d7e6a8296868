//! The settings that govern the server, and the vocabulary they are written in.
use vstd::prelude::*;

verus! {

/// How far MCP clients are trusted with the user's terminals.
#[derive(Debug, Clone, Copy, PartialEq, Eq, Structural)]
pub enum AiPermissionMode {
    /// Read-only: nothing is written to a terminal.
    Observer,
    /// Every command waits for the user's approval.
    Confirm,
    /// Commands run without asking.
    Auto,
}

/// How commands are run in a session, and whether their output can be captured.
#[derive(Debug)]
pub enum AiExecutionProfile {
    /// No commands are run in this session.
    Disabled,
    /// No shell has been settled on, so there is no marker capture.
    Auto,
    /// Commands are sent, their output is not captured.
    SendOnly,
    /// A shell whose commands can be wrapped in capture markers, by the profile's name.
    Marker(String),
}

/// The abstract value of an [`AiExecutionProfile`].
pub enum AiExecutionProfileView {
    Disabled,
    Auto,
    SendOnly,
    Marker(Seq<char>),
}

impl View for AiExecutionProfile {
    type V = AiExecutionProfileView;

    open spec fn view(&self) -> AiExecutionProfileView {
        match self {
            AiExecutionProfile::Disabled => AiExecutionProfileView::Disabled,
            AiExecutionProfile::Auto => AiExecutionProfileView::Auto,
            AiExecutionProfile::SendOnly => AiExecutionProfileView::SendOnly,
            AiExecutionProfile::Marker(name) => AiExecutionProfileView::Marker(name@),
        }
    }
}

impl Clone for AiExecutionProfile {
    fn clone(&self) -> (r: Self)
        ensures
            r == *self,
    {
        match self {
            AiExecutionProfile::Disabled => AiExecutionProfile::Disabled,
            AiExecutionProfile::Auto => AiExecutionProfile::Auto,
            AiExecutionProfile::SendOnly => AiExecutionProfile::SendOnly,
            AiExecutionProfile::Marker(name) => AiExecutionProfile::Marker(name.clone()),
        }
    }
}

impl AiExecutionProfileView {
    /// The name under which the profile is shown to clients.
    pub open spec fn name(self) -> Seq<char> {
        match self {
            AiExecutionProfileView::Disabled => "Disabled"@,
            AiExecutionProfileView::Auto => "Auto"@,
            AiExecutionProfileView::SendOnly => "SendOnly"@,
            AiExecutionProfileView::Marker(name) => name,
        }
    }
}

impl AiExecutionProfile {
    /// The name under which the profile is shown to clients.
    pub fn name(&self) -> (r: String)
        ensures
            r@ == self@.name(),
    {
        match self {
            AiExecutionProfile::Disabled => "Disabled".to_owned(),
            AiExecutionProfile::Auto => "Auto".to_owned(),
            AiExecutionProfile::SendOnly => "SendOnly".to_owned(),
            AiExecutionProfile::Marker(name) => name.clone(),
        }
    }
}

/// How risky a command looks to the local assessment.
#[derive(Debug)]
pub enum RiskLevel {
    /// The level that a blocked command is recorded under.
    High,
    /// Any other level, by its name.
    Other(String),
}

/// The abstract value of a [`RiskLevel`].
pub enum RiskLevelView {
    High,
    Other(Seq<char>),
}

impl View for RiskLevel {
    type V = RiskLevelView;

    open spec fn view(&self) -> RiskLevelView {
        match self {
            RiskLevel::High => RiskLevelView::High,
            RiskLevel::Other(name) => RiskLevelView::Other(name@),
        }
    }
}

impl Clone for RiskLevel {
    fn clone(&self) -> (r: Self)
        ensures
            r == *self,
    {
        match self {
            RiskLevel::High => RiskLevel::High,
            RiskLevel::Other(name) => RiskLevel::Other(name.clone()),
        }
    }
}

/// The `ai.mcp` settings.
#[derive(Debug, Clone)]
pub struct McpSettings {
    /// Whether the server starts with the application.
    pub enabled: bool,
    /// The address to listen on.
    pub bind_address: String,
    /// The bearer token that clients must present. A blank one counts as none.
    pub auth_token: Option<String>,
    /// How far clients are trusted.
    pub permission_mode: AiPermissionMode,
    /// The sessions that clients may use. With none listed, they may use all.
    pub allowed_sessions: Vec<String>,
}

/// The abstract value of the [`McpSettings`].
pub struct McpSettingsView {
    pub enabled: bool,
    pub bind_address: Seq<char>,
    pub auth_token: Option<Seq<char>>,
    pub permission_mode: AiPermissionMode,
    pub allowed_sessions: Seq<Seq<char>>,
}

impl View for McpSettings {
    type V = McpSettingsView;

    open spec fn view(&self) -> McpSettingsView {
        McpSettingsView {
            enabled: self.enabled,
            bind_address: self.bind_address@,
            auth_token: self.auth_token.deep_view(),
            permission_mode: self.permission_mode,
            allowed_sessions: self.allowed_sessions.deep_view(),
        }
    }
}

impl McpSettingsView {
    /// The allow-list admits the session: it is on the list, or the list is empty.
    pub open spec fn admits(self, session_id: Seq<char>) -> bool {
        self.allowed_sessions.len() == 0 || self.allowed_sessions.contains(session_id)
    }

    /// The token that clients must present, if any: the configured one, unless it is blank.
    pub open spec fn required_token(self) -> Option<Seq<char>> {
        match self.auth_token {
            Some(token) => if crate::text::is_blank(token) {
                None
            } else {
                Some(token)
            },
            None => None,
        }
    }
}

impl McpSettings {
    /// The token that clients must present, if any. A configured token is taken as it
    /// stands, white space around it included; a blank one is no token.
    pub fn required_token(&self) -> (r: Option<String>)
        ensures
            r.deep_view() == self@.required_token(),
    {
        match &self.auth_token {
            Some(token) => {
                proof {
                    crate::text::lemma_trimmed(token@);
                }
                if token.as_str().trim().is_empty() {
                    None
                } else {
                    Some(token.clone())
                }
            },
            None => None,
        }
    }
}

} // verus!
