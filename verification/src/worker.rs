//! The decisions of the per-session worker.
//!
//! A worker runs one loop. Each turn first drains the commands that wait in
//! its channel, then reads the shell channel once with a short timeout. The
//! shell around the library does the draining and the reading; the
//! functions here say what each command and each read leads to.

use vstd::prelude::*;
use vstd::string::StringExecFns;
use vstd::utf8::{decode_utf8, valid_utf8};
use crate::model::PolledView;
use crate::registry::Polled;
use crate::types::{
    CommandView, ErrorKind, Notification, NotificationView, SessionStatus, SshChannelCmd,
};

verus! {

/// The read timeout while a one-shot command runs, in milliseconds.
pub const EXEC_TIMEOUT_MS: u32 = 60000;

/// The size of the buffer for one read of the shell channel, in bytes.
pub const READ_BUFFER_LEN: usize = 8192;

/// Why a worker leaves its loop.
#[derive(Debug, Clone, Copy, PartialEq, Eq)]
pub enum ExitReason {
    /// A `Disconnect` command was drained.
    Requested,
    /// Nothing waits and nobody can post any more.
    SendersGone,
    /// The remote end closed the shell channel.
    Eof,
    /// Reading the shell channel failed, and not by a timeout.
    ReadFailed,
}

impl ExitReason {
    /// The kind of error that made the worker leave, if it was one: only a
    /// failed read is.
    pub open spec fn error_kind_spec(self) -> Option<ErrorKind> {
        match self {
            ExitReason::ReadFailed => Some(ErrorKind::ChannelIo),
            _ => None,
        }
    }

    #[verifier::when_used_as_spec(error_kind_spec)]
    pub fn error_kind(self) -> (kind: Option<ErrorKind>)
        ensures
            kind == self.error_kind_spec(),
    {
        match self {
            ExitReason::ReadFailed => Some(ErrorKind::ChannelIo),
            _ => None,
        }
    }
}

/// What a worker does with what it found in its channel.
#[derive(Debug, Clone, PartialEq, Eq)]
pub enum DrainStep {
    /// Write the bytes to the shell channel and flush; then drain on.
    Forward(Vec<u8>),
    /// Ask for the window size, ignoring a failure; then drain on.
    Resize { cols: u32, rows: u32 },
    /// Run the command on a channel of its own and answer `reply`; then
    /// drain on.
    Execute { command: String, reply: u64 },
    /// Nothing waits: read the shell channel.
    Poll,
    /// Leave the loop.
    Exit(ExitReason),
}

/// The mathematical value of a [`DrainStep`].
pub enum DrainView {
    Forward(Seq<u8>),
    Resize { cols: u32, rows: u32 },
    Execute { command: Seq<char>, reply: u64 },
    Poll,
    Exit(ExitReason),
}

impl View for DrainStep {
    type V = DrainView;

    open spec fn view(&self) -> DrainView {
        match *self {
            DrainStep::Forward(bytes) => DrainView::Forward(bytes@),
            DrainStep::Resize { cols, rows } => DrainView::Resize { cols, rows },
            DrainStep::Execute { command, reply } => DrainView::Execute {
                command: command@,
                reply,
            },
            DrainStep::Poll => DrainView::Poll,
            DrainStep::Exit(reason) => DrainView::Exit(reason),
        }
    }
}

/// What a command leads to.
pub open spec fn step_of_command(cmd: CommandView) -> DrainView {
    match cmd {
        CommandView::Write(bytes) => DrainView::Forward(bytes),
        CommandView::Resize { cols, rows } => DrainView::Resize { cols, rows },
        CommandView::Exec { command, reply } => DrainView::Execute { command, reply },
        CommandView::Disconnect => DrainView::Exit(ExitReason::Requested),
    }
}

/// What the worker does with what it found in its channel. A channel that
/// nobody can post to any more counts as a request to disconnect.
pub open spec fn step_of_polled(polled: PolledView) -> DrainView {
    match polled {
        PolledView::Command(cmd) => step_of_command(cmd),
        PolledView::Empty => DrainView::Poll,
        PolledView::Disconnected => DrainView::Exit(ExitReason::SendersGone),
    }
}

/// Decides the drain phase's next step.
pub fn on_polled(polled: Polled) -> (step: DrainStep)
    ensures
        step@ == step_of_polled(polled@),
{
    match polled {
        Polled::Command(SshChannelCmd::Write(bytes)) => DrainStep::Forward(bytes),
        Polled::Command(SshChannelCmd::Resize { cols, rows }) => DrainStep::Resize { cols, rows },
        Polled::Command(SshChannelCmd::Exec { command, reply }) => DrainStep::Execute {
            command,
            reply,
        },
        Polled::Command(SshChannelCmd::Disconnect) => DrainStep::Exit(ExitReason::Requested),
        Polled::Empty => DrainStep::Poll,
        Polled::Disconnected => DrainStep::Exit(ExitReason::SendersGone),
    }
}

/// How one read of the shell channel went.
#[derive(Debug, Clone, PartialEq, Eq)]
pub enum ReadOutcome {
    /// The bytes that arrived; none at all when the remote end closed.
    Bytes(Vec<u8>),
    /// Nothing arrived within the timeout.
    TimedOut,
    /// Nothing is there to read yet.
    WouldBlock,
    /// Any other failure.
    Failed,
}

/// What a worker does after one read of the shell channel.
#[derive(Debug, Clone, PartialEq, Eq)]
pub enum PollStep {
    /// Tell the front end; then start the next turn.
    Emit(Notification),
    /// Start the next turn.
    Idle,
    /// Leave the loop.
    Exit(ExitReason),
}

/// The mathematical value of a [`PollStep`].
pub enum PollView {
    Emit(NotificationView),
    Idle,
    Exit(ExitReason),
}

impl View for PollStep {
    type V = PollView;

    open spec fn view(&self) -> PollView {
        match *self {
            PollStep::Emit(n) => PollView::Emit(n@),
            PollStep::Idle => PollView::Idle,
            PollStep::Exit(reason) => PollView::Exit(reason),
        }
    }
}

/// The text that a lossy decoding makes of the bytes: what they spell in
/// UTF-8, with a replacement character for each part that spells nothing.
pub uninterp spec fn lossy_text(bytes: Seq<u8>) -> Seq<char>;

/// Decodes with `String::from_utf8_lossy`. The result is a function of the
/// bytes alone; for bytes that are valid UTF-8 it is the text they encode.
#[verifier::external_body]
fn decode_lossy(bytes: &Vec<u8>) -> (text: String)
    ensures
        text@ == lossy_text(bytes@),
        valid_utf8(bytes@) ==> text@ == decode_utf8(bytes@),
{
    String::from_utf8_lossy(bytes).into_owned()
}

/// The notification that carries terminal output to the front end.
pub fn data_notification(server_id: &str, text: String) -> (n: Notification)
    ensures
        n@ == (NotificationView::Data { server_id: server_id@, text: text@ }),
{
    Notification::Data { server_id: String::from_str(server_id), text }
}

/// What a read of the shell channel leads to.
pub open spec fn step_of_read(server_id: Seq<char>, outcome: ReadOutcome) -> PollView {
    match outcome {
        ReadOutcome::Bytes(bytes) => if bytes@.len() == 0 {
            PollView::Exit(ExitReason::Eof)
        } else {
            PollView::Emit(NotificationView::Data { server_id, text: lossy_text(bytes@) })
        },
        ReadOutcome::TimedOut => PollView::Idle,
        ReadOutcome::WouldBlock => PollView::Idle,
        ReadOutcome::Failed => PollView::Exit(ExitReason::ReadFailed),
    }
}

/// Decides what follows one read of the shell channel: no bytes end the
/// session, bytes go to the front end as text, a timeout changes nothing,
/// any other failure ends the session.
pub fn on_read(server_id: &str, outcome: &ReadOutcome) -> (step: PollStep)
    ensures
        step@ == step_of_read(server_id@, *outcome),
{
    match outcome {
        ReadOutcome::Bytes(bytes) => {
            if bytes.len() == 0 {
                PollStep::Exit(ExitReason::Eof)
            } else {
                let text = decode_lossy(bytes);
                PollStep::Emit(data_notification(server_id, text))
            }
        },
        ReadOutcome::TimedOut => PollStep::Idle,
        ReadOutcome::WouldBlock => PollStep::Idle,
        ReadOutcome::Failed => PollStep::Exit(ExitReason::ReadFailed),
    }
}

/// The notification with which a worker ends: `disconnected`, without a
/// message, whatever made it leave.
pub fn exit_notification(server_id: &str) -> (n: Notification)
    ensures
        n@ == (NotificationView::Status {
            server_id: server_id@,
            status: SessionStatus::Disconnected,
            message: None,
        }),
{
    Notification::Status {
        server_id: String::from_str(server_id),
        status: SessionStatus::Disconnected,
        message: None,
    }
}

/// The read timeouts around a one-shot command.
#[derive(Debug, Clone, Copy, PartialEq, Eq)]
pub struct ExecTimeouts {
    /// The timeout while the command runs.
    pub during_ms: u32,
    /// The timeout to set again when it is over.
    pub after_ms: u32,
}

/// The timeouts for a one-shot command on a session whose read timeout is
/// `current_ms`: a minute while it runs, the former value afterwards.
pub fn exec_timeouts(current_ms: u32) -> (t: ExecTimeouts)
    ensures
        t.during_ms == EXEC_TIMEOUT_MS,
        t.after_ms == current_ms,
{
    ExecTimeouts { during_ms: EXEC_TIMEOUT_MS, after_ms: current_ms }
}

/// How a one-shot command went.
#[derive(Debug, Clone, PartialEq, Eq)]
pub enum ExecOutcome {
    /// No channel could be opened.
    OpenFailed(String),
    /// The command could not be started.
    StartFailed(String),
    /// Its output could not be read.
    ReadFailed(String),
    /// It ran; this is all it wrote.
    Output(String),
}

/// The answer to a one-shot command, as a value.
pub open spec fn reply_of(outcome: ExecOutcome) -> Result<Seq<char>, Seq<char>> {
    match outcome {
        ExecOutcome::OpenFailed(cause) => Err(cause@),
        ExecOutcome::StartFailed(cause) => Err(cause@),
        ExecOutcome::ReadFailed(cause) => Err(cause@),
        ExecOutcome::Output(text) => Ok(text@),
    }
}

/// The value of an answer.
pub open spec fn reply_view(reply: Result<String, String>) -> Result<Seq<char>, Seq<char>> {
    match reply {
        Ok(text) => Ok(text@),
        Err(cause) => Err(cause@),
    }
}

/// The answer that the caller of a one-shot command gets: the output when
/// the command ran, else the cause of the first step that failed.
pub fn exec_reply(outcome: ExecOutcome) -> (reply: Result<String, String>)
    ensures
        reply_view(reply) == reply_of(outcome),
{
    match outcome {
        ExecOutcome::OpenFailed(cause) => Err(cause),
        ExecOutcome::StartFailed(cause) => Err(cause),
        ExecOutcome::ReadFailed(cause) => Err(cause),
        ExecOutcome::Output(text) => Ok(text),
    }
}

/// The answer to a one-shot command whose worker ended before it ran.
pub fn abandoned_reply() -> (reply: Result<String, String>)
    ensures
        reply_view(reply) == Err::<Seq<char>, Seq<char>>("receiving on a closed channel"@),
{
    Err(String::from_str("receiving on a closed channel"))
}

} // verus!
