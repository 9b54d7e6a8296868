//! What is known of a terminal session, and what can be sent to one.
use vstd::prelude::*;

use crate::config::{AiExecutionProfile, AiExecutionProfileView};

verus! {

/// What is known of an open session.
#[derive(Debug)]
pub struct SessionInfo {
    pub id: String,
    pub name: String,
    /// The session's type, by its name.
    pub session_type: String,
    pub connected: bool,
    pub ai_execution_profile: AiExecutionProfile,
    pub connection_id: Option<String>,
}

/// The abstract value of a [`SessionInfo`].
pub struct SessionInfoView {
    pub id: Seq<char>,
    pub name: Seq<char>,
    pub session_type: Seq<char>,
    pub connected: bool,
    pub ai_execution_profile: AiExecutionProfileView,
    pub connection_id: Option<Seq<char>>,
}

impl View for SessionInfo {
    type V = SessionInfoView;

    open spec fn view(&self) -> SessionInfoView {
        SessionInfoView {
            id: self.id@,
            name: self.name@,
            session_type: self.session_type@,
            connected: self.connected,
            ai_execution_profile: self.ai_execution_profile@,
            connection_id: self.connection_id.deep_view(),
        }
    }
}

/// Who input to a terminal comes from.
#[derive(Debug, Clone, Copy, PartialEq, Eq, Structural)]
pub enum InputOrigin {
    AiAgent,
}

/// How input to a terminal is to be treated.
#[derive(Debug, Clone, Copy, PartialEq, Eq, Structural)]
pub enum InputSensitivity {
    Normal,
}

/// What can be sent to a session.
#[derive(Debug)]
pub enum SessionCommand {
    /// Input for the terminal.
    Write {
        data: Vec<u8>,
        automated: bool,
        origin: InputOrigin,
        sensitivity: InputSensitivity,
    },
    /// A command that is wrapped in capture markers, and the markers' id.
    CaptureExec { marker_id: String, wrapped_command: Vec<u8> },
}

/// The abstract value of a [`SessionCommand`].
pub enum SessionCommandView {
    Write {
        data: Seq<u8>,
        automated: bool,
        origin: InputOrigin,
        sensitivity: InputSensitivity,
    },
    CaptureExec { marker_id: Seq<char>, wrapped_command: Seq<u8> },
}

impl View for SessionCommand {
    type V = SessionCommandView;

    open spec fn view(&self) -> SessionCommandView {
        match self {
            SessionCommand::Write { data, automated, origin, sensitivity } =>
                SessionCommandView::Write {
                    data: data@,
                    automated: *automated,
                    origin: *origin,
                    sensitivity: *sensitivity,
                },
            SessionCommand::CaptureExec { marker_id, wrapped_command } =>
                SessionCommandView::CaptureExec {
                    marker_id: marker_id@,
                    wrapped_command: wrapped_command@,
                },
        }
    }
}

/// The byte that the enter key sends.
pub const LINE_FEED: u8 = 0x0a;

/// The input that types `text`, and the enter key after it where `enter` says so: the text
/// in UTF-8, then a line feed, marked as automated and as coming from an agent.
pub open spec fn typed_input(text: Seq<char>, enter: bool) -> SessionCommandView {
    let bytes = vstd::utf8::encode_utf8(text);
    SessionCommandView::Write {
        data: if enter {
            bytes.push(LINE_FEED)
        } else {
            bytes
        },
        automated: true,
        origin: InputOrigin::AiAgent,
        sensitivity: InputSensitivity::Normal,
    }
}

/// The input that types `text`, and the enter key after it where `enter` says so.
pub(crate) fn type_input(text: &str, enter: bool) -> (r: SessionCommand)
    ensures
        r@ == typed_input(text@, enter),
{
    let mut data = text.as_bytes_vec();
    if enter {
        data.push(LINE_FEED);
    }
    SessionCommand::Write {
        data,
        automated: true,
        origin: InputOrigin::AiAgent,
        sensitivity: InputSensitivity::Normal,
    }
}

/// What came back between the capture markers.
#[derive(Debug)]
pub struct CapturedOutput {
    pub output: String,
    pub exit_code: Option<i32>,
    pub duration_ms: u64,
}

/// How the wait for captured output ended.
#[derive(Debug)]
pub enum CaptureReply {
    /// The output came.
    Captured(CapturedOutput),
    /// The channel closed without it.
    Closed,
    /// It did not come in time.
    TimedOut,
}

/// The abstract value of a [`CaptureReply`].
pub enum CaptureReplyView {
    Captured { output: Seq<char>, exit_code: Option<i32>, duration_ms: u64 },
    Closed,
    TimedOut,
}

impl View for CaptureReply {
    type V = CaptureReplyView;

    open spec fn view(&self) -> CaptureReplyView {
        match self {
            CaptureReply::Captured(captured) => CaptureReplyView::Captured {
                output: captured.output@,
                exit_code: captured.exit_code,
                duration_ms: captured.duration_ms,
            },
            CaptureReply::Closed => CaptureReplyView::Closed,
            CaptureReply::TimedOut => CaptureReplyView::TimedOut,
        }
    }
}

} // verus!
