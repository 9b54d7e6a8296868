//! Lifecycle of the server: start, stop and status.
//!
//! Starting goes through steps. Each says what is to be done outside (parse the address,
//! bind it, resolve it, serve); what came of it goes into the step's method.
use vstd::prelude::*;

use tokio_util::sync::CancellationToken;

use crate::config::{McpSettings, McpSettingsView};
use crate::error::{AppError, AppErrorView, AppResult};
use crate::text::join;
use crate::tools::McpTools;

verus! {

/// `tokio_util`'s handle for stopping a task.
#[verifier::external_type_specification]
#[verifier::external_body]
pub struct ExCancellationToken(CancellationToken);

/// What the server is doing, as reported to the frontend.
#[derive(Debug, Clone)]
pub struct McpServerStatus {
    pub running: bool,
    /// Where the server listens, while it runs.
    pub bind_address: Option<String>,
}

/// The abstract value of a [`McpServerStatus`].
pub struct McpServerStatusView {
    pub running: bool,
    pub bind_address: Option<Seq<char>>,
}

impl View for McpServerStatus {
    type V = McpServerStatusView;

    open spec fn view(&self) -> McpServerStatusView {
        McpServerStatusView {
            running: self.running,
            bind_address: self.bind_address.deep_view(),
        }
    }
}

/// What is kept of a running server.
pub struct McpServerState {
    /// Cancelling this token shuts the server down.
    cancellation: Option<CancellationToken>,
    bind_address: Option<String>,
}

/// The abstract value of the [`McpServerState`].
pub struct McpServerStateView {
    pub cancellation: Option<CancellationToken>,
    pub bind_address: Option<Seq<char>>,
}

impl McpServerStateView {
    /// A server is running.
    pub open spec fn running(self) -> bool {
        self.cancellation is Some
    }

    /// An address is kept exactly while a server is running.
    pub open spec fn well_formed(self) -> bool {
        self.running() <==> self.bind_address is Some
    }

    /// No server is running.
    pub open spec fn idle() -> Self {
        McpServerStateView { cancellation: None, bind_address: None }
    }

    /// The server behind the token is running, on the address.
    pub open spec fn serving(cancellation: CancellationToken, address: Seq<char>) -> Self {
        McpServerStateView { cancellation: Some(cancellation), bind_address: Some(address) }
    }

    /// The state once the server is stopped, and the token that is to be cancelled for it.
    pub open spec fn stopped(self) -> (Self, Option<CancellationToken>) {
        (Self::idle(), self.cancellation)
    }

    /// What is reported of the state.
    pub open spec fn status(self) -> McpServerStatusView {
        McpServerStatusView { running: self.running(), bind_address: self.bind_address }
    }
}

impl View for McpServerState {
    type V = McpServerStateView;

    closed spec fn view(&self) -> McpServerStateView {
        McpServerStateView {
            cancellation: self.cancellation,
            bind_address: self.bind_address.deep_view(),
        }
    }
}

impl Default for McpServerState {
    fn default() -> (state: Self)
        ensures
            state@ == McpServerStateView::idle(),
    {
        McpServerState { cancellation: None, bind_address: None }
    }
}

/// The settings give an address, which is to be parsed.
#[derive(Debug)]
pub struct AwaitingAddress {
    pub settings: McpSettings,
}

/// The parsed address is to be bound.
#[derive(Debug)]
pub struct AwaitingListener {
    pub settings: McpSettings,
}

/// The address that was in fact bound is to be resolved.
#[derive(Debug)]
pub struct AwaitingLocalAddress {
    pub settings: McpSettings,
}

/// The tools are to be served on the bound address, behind the bearer-token check where a
/// token is given.
#[derive(Debug)]
pub struct AwaitingServer {
    pub tools: McpTools,
    pub auth_token: Option<String>,
    pub address: String,
}

/// What is to be done next for a start.
pub enum StartStepView {
    ParseAddress { settings: McpSettingsView },
    Bind { settings: McpSettingsView },
    ResolveAddress { settings: McpSettingsView },
    Serve { settings: McpSettingsView, auth_token: Option<Seq<char>>, address: Seq<char> },
    Failed { error: AppErrorView },
}

impl View for AwaitingAddress {
    type V = StartStepView;

    open spec fn view(&self) -> StartStepView {
        StartStepView::ParseAddress { settings: self.settings@ }
    }
}

impl View for AwaitingListener {
    type V = StartStepView;

    open spec fn view(&self) -> StartStepView {
        StartStepView::Bind { settings: self.settings@ }
    }
}

impl View for AwaitingLocalAddress {
    type V = StartStepView;

    open spec fn view(&self) -> StartStepView {
        StartStepView::ResolveAddress { settings: self.settings@ }
    }
}

impl View for AwaitingServer {
    type V = StartStepView;

    open spec fn view(&self) -> StartStepView {
        StartStepView::Serve {
            settings: self.tools.settings@,
            auth_token: self.auth_token.deep_view(),
            address: self.address@,
        }
    }
}

/// The step that a start has come to.
pub open spec fn step_view<T: View<V = StartStepView>>(r: AppResult<T>) -> StartStepView {
    match r {
        Ok(next) => next@,
        Err(error) => StartStepView::Failed { error: error@ },
    }
}

/// The abstract value of an outside result that carries nothing, or a message.
pub open spec fn outcome_view(r: Result<(), String>) -> Result<(), Seq<char>> {
    match r {
        Ok(_) => Ok(()),
        Err(message) => Err(message@),
    }
}

/// How a start begins: it fails while a server is running.
pub open spec fn start_step(state: McpServerStateView, settings: McpSettingsView) -> StartStepView {
    if state.running() {
        StartStepView::Failed { error: AppErrorView::Config("MCP server is already running"@) }
    } else {
        StartStepView::ParseAddress { settings }
    }
}

/// What follows the parsing of the address.
pub open spec fn parse_step(
    settings: McpSettingsView,
    outcome: Result<(), Seq<char>>,
) -> StartStepView {
    match outcome {
        Ok(_) => StartStepView::Bind { settings },
        Err(message) => StartStepView::Failed {
            error: AppErrorView::Config("invalid bind address: "@ + message),
        },
    }
}

/// What follows the binding of the address.
pub open spec fn bind_step(
    settings: McpSettingsView,
    outcome: Result<(), Seq<char>>,
) -> StartStepView {
    match outcome {
        Ok(_) => StartStepView::ResolveAddress { settings },
        Err(message) => StartStepView::Failed {
            error: AppErrorView::Config("failed to bind MCP server: "@ + message),
        },
    }
}

/// What follows the resolution of the bound address.
pub open spec fn resolve_step(
    settings: McpSettingsView,
    outcome: Result<Seq<char>, Seq<char>>,
) -> StartStepView {
    match outcome {
        Ok(address) => StartStepView::Serve {
            settings,
            auth_token: settings.required_token(),
            address,
        },
        Err(message) => StartStepView::Failed {
            error: AppErrorView::Config("failed to resolve local address: "@ + message),
        },
    }
}

impl AwaitingAddress {
    /// Takes how the parsing of the address went: on failure, the parser's message.
    pub fn parsed(self, outcome: Result<(), String>) -> (r: AppResult<AwaitingListener>)
        ensures
            step_view(r) == parse_step(self.settings@, outcome_view(outcome)),
            r is Ok <==> outcome is Ok,
            r matches Ok(next) ==> next.settings == self.settings,
    {
        match outcome {
            Ok(_) => Ok(AwaitingListener { settings: self.settings }),
            Err(message) => Err(
                AppError::Config(join("invalid bind address: ", message.as_str())),
            ),
        }
    }
}

impl AwaitingListener {
    /// Takes how the binding of the address went: on failure, the system's message.
    pub fn bound(self, outcome: Result<(), String>) -> (r: AppResult<AwaitingLocalAddress>)
        ensures
            step_view(r) == bind_step(self.settings@, outcome_view(outcome)),
            r is Ok <==> outcome is Ok,
            r matches Ok(next) ==> next.settings == self.settings,
    {
        match outcome {
            Ok(_) => Ok(AwaitingLocalAddress { settings: self.settings }),
            Err(message) => Err(
                AppError::Config(join("failed to bind MCP server: ", message.as_str())),
            ),
        }
    }
}

impl AwaitingLocalAddress {
    /// Takes the address that was bound, or the system's message on failure.
    pub fn resolved(self, outcome: Result<String, String>) -> (r: AppResult<AwaitingServer>)
        ensures
            step_view(r) == resolve_step(
                self.settings@,
                match outcome {
                    Ok(address) => Ok(address@),
                    Err(message) => Err(message@),
                },
            ),
            r is Ok <==> outcome is Ok,
            r matches Ok(next) ==> next.tools.settings == self.settings && next.address
                == outcome->Ok_0,
    {
        match outcome {
            Ok(address) => {
                let auth_token = self.settings.required_token();
                Ok(AwaitingServer { tools: McpTools::new(self.settings), auth_token, address })
            },
            Err(message) => Err(
                AppError::Config(join("failed to resolve local address: ", message.as_str())),
            ),
        }
    }
}

/// From step to step the settings stay what they were, and what goes wrong is reported with
/// its message. What is served asks for the token of those settings.
pub proof fn law_start_steps(
    state: McpServerStateView,
    settings: McpSettingsView,
    message: Seq<char>,
    address: Seq<char>,
)
    ensures
        state.cancellation is None ==> start_step(state, settings) == (StartStepView::ParseAddress {
            settings,
        }),
        state.cancellation is Some ==> start_step(state, settings) == (StartStepView::Failed {
            error: AppErrorView::Config("MCP server is already running"@),
        }),
        parse_step(settings, Ok(())) == (StartStepView::Bind { settings }),
        parse_step(settings, Err(message)) == (StartStepView::Failed {
            error: AppErrorView::Config("invalid bind address: "@ + message),
        }),
        bind_step(settings, Ok(())) == (StartStepView::ResolveAddress { settings }),
        bind_step(settings, Err(message)) == (StartStepView::Failed {
            error: AppErrorView::Config("failed to bind MCP server: "@ + message),
        }),
        resolve_step(settings, Ok(address)) is Serve,
        resolve_step(settings, Ok(address))->Serve_settings == settings,
        resolve_step(settings, Ok(address))->address == address,
        resolve_step(settings, Ok(address))->auth_token == match settings.auth_token {
            Some(token) => if exists|i: int|
                0 <= i < token.len() && !crate::text::is_white_space(#[trigger] token[i]) {
                Some(token)
            } else {
                None
            },
            None => None,
        },
        resolve_step(settings, Err(message)) == (StartStepView::Failed {
            error: AppErrorView::Config("failed to resolve local address: "@ + message),
        }),
{
}

/// A served state keeps the token and the address that it was given, and is reported with
/// that address.
pub proof fn law_serving(cancellation: CancellationToken, address: Seq<char>)
    ensures
        McpServerStateView::serving(cancellation, address).cancellation == Some(cancellation),
        McpServerStateView::serving(cancellation, address).bind_address == Some(address),
        McpServerStateView::serving(cancellation, address).status().running,
        McpServerStateView::serving(cancellation, address).status().bind_address == Some(address),
{
}

/// The one MCP server of the application.
pub struct McpServerManager {
    state: McpServerState,
}

impl View for McpServerManager {
    type V = McpServerStateView;

    closed spec fn view(&self) -> McpServerStateView {
        self.state@
    }
}

impl Default for McpServerManager {
    fn default() -> (manager: Self)
        ensures
            manager@ == McpServerStateView::idle(),
    {
        Self::new()
    }
}

impl McpServerManager {
    #[verifier::type_invariant]
    spec fn consistent(self) -> bool {
        self.state@.well_formed()
    }

    /// No server is running at first.
    pub fn new() -> (manager: Self)
        ensures
            manager@ == McpServerStateView::idle(),
    {
        McpServerManager { state: McpServerState::default() }
    }

    /// Begins to start the server, unless one is running.
    pub fn start(&self, settings: McpSettings) -> (r: AppResult<AwaitingAddress>)
        ensures
            step_view(r) == start_step(self@, settings@),
            r matches Ok(next) ==> next.settings == settings,
    {
        if self.state.cancellation.is_some() {
            return Err(AppError::Config("MCP server is already running".to_owned()));
        }
        Ok(AwaitingAddress { settings })
    }

    /// Takes the handle of the server that now serves on the address.
    pub fn started(&mut self, address: String, cancellation: CancellationToken) -> (status:
        McpServerStatus)
        ensures
            final(self)@ == McpServerStateView::serving(cancellation, address@),
            status@ == final(self)@.status(),
    {
        self.state = McpServerState {
            cancellation: Some(cancellation),
            bind_address: Some(address.clone()),
        };
        McpServerStatus { running: true, bind_address: Some(address) }
    }

    /// Forgets the server that is running, if there is one, and hands out its token, which
    /// is to be cancelled.
    pub fn stop(&mut self) -> (r: (McpServerStatus, Option<CancellationToken>))
        ensures
            (final(self)@, r.1) == old(self)@.stopped(),
            r.0@ == final(self)@.status(),
    {
        let mut state = McpServerState::default();
        std::mem::swap(&mut self.state, &mut state);
        (McpServerStatus { running: false, bind_address: None }, state.cancellation)
    }

    /// What the server is doing.
    pub fn status(&self) -> (status: McpServerStatus)
        ensures
            self@.well_formed(),
            status@ == self@.status(),
    {
        proof {
            use_type_invariant(self);
        }
        McpServerStatus {
            running: self.state.cancellation.is_some(),
            bind_address: self.state.bind_address.clone(),
        }
    }
}

/// The settings to start the server with when the application launches: those that were
/// loaded, if they enable it.
pub fn auto_start(loaded: AppResult<McpSettings>) -> (r: AppResult<Option<McpSettings>>)
    ensures
        match loaded {
            Ok(settings) => r == Ok::<Option<McpSettings>, AppError>(
                if settings.enabled {
                    Some(settings)
                } else {
                    None
                },
            ),
            Err(error) => r == Err::<Option<McpSettings>, AppError>(error),
        },
{
    let settings = loaded?;
    if !settings.enabled {
        return Ok(None);
    }
    Ok(Some(settings))
}

} // verus!
