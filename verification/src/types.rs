//! The vocabulary shared by the registry, the supervisor and the worker.

use vstd::prelude::*;
use vstd::string::StringExecFns;

verus! {

/// The port used when a configuration names none.
pub const DEFAULT_PORT: u16 = 22;

/// Names one live session: the client connection that owns it and the
/// server it talks to. Two keys are the same key when both parts hold the
/// same text.
#[derive(Debug, Clone, PartialEq, Eq)]
pub struct SessionKey {
    pub client_id: String,
    pub server_id: String,
}

/// The mathematical value of a [`SessionKey`].
pub struct KeyView {
    pub client: Seq<char>,
    pub server: Seq<char>,
}

impl View for SessionKey {
    type V = KeyView;

    open spec fn view(&self) -> KeyView {
        KeyView { client: self.client_id@, server: self.server_id@ }
    }
}

impl SessionKey {
    pub fn new(client_id: &str, server_id: &str) -> (key: Self)
        ensures
            key@ == (KeyView { client: client_id@, server: server_id@ }),
    {
        SessionKey { client_id: String::from_str(client_id), server_id: String::from_str(server_id) }
    }

    /// Whether two keys name the same session.
    pub fn same(&self, other: &SessionKey) -> (b: bool)
        ensures
            b == (self@ == other@),
    {
        self.client_id == other.client_id && self.server_id == other.server_id
    }

    /// Whether the key belongs to the given client.
    pub fn owned_by(&self, client: &String) -> (b: bool)
        ensures
            b == (self@.client == client@),
    {
        self.client_id == *client
    }
}

/// The sender endpoint of one session: the number of the command channel
/// that its worker drains. The shell keeps the transport session under the
/// same number.
#[derive(Debug, Clone, Copy, PartialEq, Eq)]
pub struct SessionHandle {
    pub channel: usize,
}

/// What a caller supplies to open a session. At most one credential is
/// tried: the password when there is one, else the private key.
#[derive(Debug, Clone, PartialEq, Eq)]
pub struct SshConnectionConfig {
    pub server_id: String,
    pub ip: String,
    pub port: Option<u16>,
    pub username: String,
    pub password: Option<String>,
    pub private_key: Option<String>,
}

/// Which credential a configuration leads to.
#[derive(Debug, Clone, Copy, PartialEq, Eq)]
pub enum CredentialKind {
    Password,
    PrivateKey,
    Missing,
}

impl SshConnectionConfig {
    /// The port to dial: the configured one, or 22.
    pub open spec fn port_spec(&self) -> u16 {
        match self.port {
            Some(p) => p,
            None => DEFAULT_PORT,
        }
    }

    /// The credential that will be tried.
    pub open spec fn credential_spec(&self) -> CredentialKind {
        if self.password is Some {
            CredentialKind::Password
        } else if self.private_key is Some {
            CredentialKind::PrivateKey
        } else {
            CredentialKind::Missing
        }
    }

    #[verifier::when_used_as_spec(port_spec)]
    pub fn effective_port(&self) -> (p: u16)
        ensures
            p == self.port_spec(),
    {
        match self.port {
            Some(p) => p,
            None => DEFAULT_PORT,
        }
    }

    pub fn credential(&self) -> (kind: CredentialKind)
        ensures
            kind == self.credential_spec(),
    {
        if self.password.is_some() {
            CredentialKind::Password
        } else if self.private_key.is_some() {
            CredentialKind::PrivateKey
        } else {
            CredentialKind::Missing
        }
    }
}

/// The lifecycle states that are reported to the front end.
#[derive(Debug, Clone, Copy, PartialEq, Eq)]
pub enum SessionStatus {
    Connecting,
    Connected,
    Disconnected,
    Error,
}

impl SessionStatus {
    /// The status word as it is sent to the front end.
    pub open spec fn text(self) -> Seq<char> {
        match self {
            SessionStatus::Connecting => "connecting"@,
            SessionStatus::Connected => "connected"@,
            SessionStatus::Disconnected => "disconnected"@,
            SessionStatus::Error => "error"@,
        }
    }

    pub fn as_str(self) -> (s: &'static str)
        ensures
            s@ == self.text(),
    {
        match self {
            SessionStatus::Connecting => "connecting",
            SessionStatus::Connected => "connected",
            SessionStatus::Disconnected => "disconnected",
            SessionStatus::Error => "error",
        }
    }
}

/// Why an operation failed.
#[derive(Debug, Clone, Copy, PartialEq, Eq)]
pub enum ErrorKind {
    AddressResolution,
    DialTimeout,
    Handshake,
    Authentication,
    ChannelSetup,
    ChannelIo,
    SessionNotFound,
}

/// A notification for the front end.
#[allow(inconsistent_fields)]
#[derive(Debug, Clone, PartialEq, Eq)]
pub enum Notification {
    Status { server_id: String, status: SessionStatus, message: Option<String> },
    Data { server_id: String, text: String },
    Error { server_id: String, message: String },
}

/// The mathematical value of a [`Notification`].
#[allow(inconsistent_fields)]
pub enum NotificationView {
    Status { server_id: Seq<char>, status: SessionStatus, message: Option<Seq<char>> },
    Data { server_id: Seq<char>, text: Seq<char> },
    Error { server_id: Seq<char>, message: Seq<char> },
}

/// The text of an optional string.
pub open spec fn text_of(s: Option<String>) -> Option<Seq<char>> {
    match s {
        Some(t) => Some(t@),
        None => None,
    }
}

impl View for Notification {
    type V = NotificationView;

    open spec fn view(&self) -> NotificationView {
        match *self {
            Notification::Status { server_id, status, message } => NotificationView::Status {
                server_id: server_id@,
                status,
                message: text_of(message),
            },
            Notification::Data { server_id, text } => NotificationView::Data {
                server_id: server_id@,
                text: text@,
            },
            Notification::Error { server_id, message } => NotificationView::Error {
                server_id: server_id@,
                message: message@,
            },
        }
    }
}

impl Notification {
    /// The name of the event under which the notification is delivered.
    pub open spec fn event_text(&self) -> Seq<char> {
        match *self {
            Notification::Status { .. } => "ssh-status"@,
            Notification::Data { .. } => "ssh-data"@,
            Notification::Error { .. } => "ssh-error"@,
        }
    }

    pub fn event(&self) -> (name: &'static str)
        ensures
            name@ == self.event_text(),
    {
        match self {
            Notification::Status { .. } => "ssh-status",
            Notification::Data { .. } => "ssh-data",
            Notification::Error { .. } => "ssh-error",
        }
    }
}

/// A message from an API caller to the worker of one session.
#[derive(Debug, Clone, PartialEq, Eq)]
pub enum SshChannelCmd {
    /// Bytes for the shell channel.
    Write(Vec<u8>),
    /// A new window size.
    Resize { cols: u32, rows: u32 },
    /// Leave the loop.
    Disconnect,
    /// Run one command on a channel of its own; `reply` names the single-use
    /// slot in which the caller waits for the result.
    Exec { command: String, reply: u64 },
}

/// The mathematical value of a [`SshChannelCmd`].
pub enum CommandView {
    Write(Seq<u8>),
    Resize { cols: u32, rows: u32 },
    Disconnect,
    Exec { command: Seq<char>, reply: u64 },
}

impl View for SshChannelCmd {
    type V = CommandView;

    open spec fn view(&self) -> CommandView {
        match *self {
            SshChannelCmd::Write(bytes) => CommandView::Write(bytes@),
            SshChannelCmd::Resize { cols, rows } => CommandView::Resize { cols, rows },
            SshChannelCmd::Disconnect => CommandView::Disconnect,
            SshChannelCmd::Exec { command, reply } => CommandView::Exec { command: command@, reply },
        }
    }
}

} // verus!
