//! The connect state machine.
//!
//! Establishing a session is a fixed chain of steps: resolve the address,
//! dial, shake hands, authenticate, set the shell channel up. The shell
//! around the library performs each step and reports how it went; the
//! functions here decide what comes next and what the front end is told.
//! The first failure ends the attempt: nothing is retried.

use vstd::prelude::*;
use vstd::string::StringExecFns;
use crate::text::{address, address_text, join3};
use crate::types::{
    CredentialKind, ErrorKind, Notification, NotificationView, SessionStatus, SshConnectionConfig,
};

verus! {

/// The time allowed for dialing and for the handshake, in milliseconds.
pub const CONNECT_TIMEOUT_MS: u32 = 15000;

/// The read timeout of a running session, in milliseconds. It bounds how
/// long a posted command waits before the worker sees it.
pub const POLL_TIMEOUT_MS: u32 = 100;

/// The width of the terminal that is requested at first.
pub const DEFAULT_COLS: u32 = 80;

/// The height of the terminal that is requested at first.
pub const DEFAULT_ROWS: u32 = 24;

/// The steps of setting the shell channel up.
#[derive(Debug, Clone, Copy, PartialEq, Eq)]
pub enum SetupStep {
    OpenChannel,
    RequestPty,
    RequestPtySize,
    StartShell,
}

/// Where a connection attempt stands.
#[derive(Debug, Clone, Copy, PartialEq, Eq)]
pub enum ConnectStage {
    Resolving,
    Dialing,
    Handshaking,
    Authenticating,
    ChannelSetup(SetupStep),
    Running,
    Failed,
}

/// What the shell has to do next.
#[derive(Debug, Clone, PartialEq, Eq)]
pub enum ConnectAction {
    /// Resolve `host:port` to a socket address.
    Resolve { address: String },
    /// Connect to the resolved address within the timeout.
    Dial { timeout_ms: u32 },
    /// Perform the transport handshake within the timeout.
    Handshake { timeout_ms: u32 },
    /// Try the one credential of the configuration.
    Authenticate { method: CredentialKind },
    /// Open the session channel.
    OpenChannel,
    /// Request a pseudo-terminal of the given type.
    RequestPty { term: String },
    /// Request the first window size.
    RequestPtySize { cols: u32, rows: u32 },
    /// Start the interactive shell.
    StartShell,
    /// Lower the read timeout, register the session and start its worker.
    Run { read_timeout_ms: u32 },
}

/// The mathematical value of a [`ConnectAction`].
pub enum ActionView {
    Resolve { address: Seq<char> },
    Dial { timeout_ms: u32 },
    Handshake { timeout_ms: u32 },
    Authenticate { method: CredentialKind },
    OpenChannel,
    RequestPty { term: Seq<char> },
    RequestPtySize { cols: u32, rows: u32 },
    StartShell,
    Run { read_timeout_ms: u32 },
}

impl View for ConnectAction {
    type V = ActionView;

    open spec fn view(&self) -> ActionView {
        match *self {
            ConnectAction::Resolve { address } => ActionView::Resolve { address: address@ },
            ConnectAction::Dial { timeout_ms } => ActionView::Dial { timeout_ms },
            ConnectAction::Handshake { timeout_ms } => ActionView::Handshake { timeout_ms },
            ConnectAction::Authenticate { method } => ActionView::Authenticate { method },
            ConnectAction::OpenChannel => ActionView::OpenChannel,
            ConnectAction::RequestPty { term } => ActionView::RequestPty { term: term@ },
            ConnectAction::RequestPtySize { cols, rows } => ActionView::RequestPtySize {
                cols,
                rows,
            },
            ConnectAction::StartShell => ActionView::StartShell,
            ConnectAction::Run { read_timeout_ms } => ActionView::Run { read_timeout_ms },
        }
    }
}

/// One decision of the supervisor: the stage that the attempt is in now,
/// what the shell has to do there, and what the front end is told.
#[derive(Debug, Clone, PartialEq, Eq)]
pub struct Decision {
    pub stage: ConnectStage,
    pub action: Option<ConnectAction>,
    pub notify: Option<Notification>,
}

/// The value of an optional action.
pub open spec fn action_view(a: Option<ConnectAction>) -> Option<ActionView> {
    match a {
        Some(action) => Some(action@),
        None => None,
    }
}

/// The value of an optional notification.
pub open spec fn notify_view(n: Option<Notification>) -> Option<NotificationView> {
    match n {
        Some(notification) => Some(notification@),
        None => None,
    }
}

/// The value of what a step reported: nothing on success, the cause on
/// failure.
pub open spec fn cause_of(outcome: Result<(), String>) -> Option<Seq<char>> {
    match outcome {
        Ok(_) => None,
        Err(cause) => Some(cause@),
    }
}

/// The stage that follows `stage` when its step went as `ok` says. An
/// attempt without a credential fails once the handshake is done; `Running`
/// and `Failed` are final.
pub open spec fn next_stage(stage: ConnectStage, credential: CredentialKind, ok: bool)
    -> ConnectStage {
    match stage {
        ConnectStage::Running => ConnectStage::Running,
        ConnectStage::Failed => ConnectStage::Failed,
        _ => if !ok {
            ConnectStage::Failed
        } else {
            match stage {
                ConnectStage::Resolving => ConnectStage::Dialing,
                ConnectStage::Dialing => ConnectStage::Handshaking,
                ConnectStage::Handshaking => if credential is Missing {
                    ConnectStage::Failed
                } else {
                    ConnectStage::Authenticating
                },
                ConnectStage::Authenticating => if credential is Missing {
                    ConnectStage::Failed
                } else {
                    ConnectStage::ChannelSetup(SetupStep::OpenChannel)
                },
                ConnectStage::ChannelSetup(SetupStep::OpenChannel) => ConnectStage::ChannelSetup(
                    SetupStep::RequestPty,
                ),
                ConnectStage::ChannelSetup(SetupStep::RequestPty) => ConnectStage::ChannelSetup(
                    SetupStep::RequestPtySize,
                ),
                ConnectStage::ChannelSetup(SetupStep::RequestPtySize) => ConnectStage::ChannelSetup(
                    SetupStep::StartShell,
                ),
                ConnectStage::ChannelSetup(SetupStep::StartShell) => ConnectStage::Running,
                ConnectStage::Running => ConnectStage::Running,
                ConnectStage::Failed => ConnectStage::Failed,
            }
        },
    }
}

/// What the shell has to do in `stage`: nothing once the attempt failed.
pub open spec fn action_of(stage: ConnectStage, config: SshConnectionConfig) -> Option<
    ActionView,
> {
    match stage {
        ConnectStage::Resolving => Some(
            ActionView::Resolve { address: address_text(config.ip@, config.port_spec()) },
        ),
        ConnectStage::Dialing => Some(ActionView::Dial { timeout_ms: CONNECT_TIMEOUT_MS }),
        ConnectStage::Handshaking => Some(ActionView::Handshake { timeout_ms: CONNECT_TIMEOUT_MS }),
        ConnectStage::Authenticating => Some(
            ActionView::Authenticate { method: config.credential_spec() },
        ),
        ConnectStage::ChannelSetup(SetupStep::OpenChannel) => Some(ActionView::OpenChannel),
        ConnectStage::ChannelSetup(SetupStep::RequestPty) => Some(
            ActionView::RequestPty { term: "xterm-256color"@ },
        ),
        ConnectStage::ChannelSetup(SetupStep::RequestPtySize) => Some(
            ActionView::RequestPtySize { cols: DEFAULT_COLS, rows: DEFAULT_ROWS },
        ),
        ConnectStage::ChannelSetup(SetupStep::StartShell) => Some(ActionView::StartShell),
        ConnectStage::Running => Some(ActionView::Run { read_timeout_ms: POLL_TIMEOUT_MS }),
        ConnectStage::Failed => None,
    }
}

/// The message that reports the lack of a credential.
pub open spec fn missing_credential_text() -> Seq<char> {
    "no authentication method provided"@
}

/// The message that reports the failure of the step of `stage`. It is made
/// of the address and of the cause that the transport gave; the credential
/// itself is no part of it.
pub open spec fn failure_text(
    stage: ConnectStage,
    credential: CredentialKind,
    host: Seq<char>,
    port: u16,
    cause: Seq<char>,
) -> Seq<char> {
    match stage {
        ConnectStage::Resolving => "invalid address: "@ + address_text(host, port),
        ConnectStage::Dialing => "Connection timeout or failed ("@ + address_text(host, port)
            + "): "@ + cause,
        ConnectStage::Handshaking => "SSH handshake failed ("@ + address_text(host, port) + "): "@
            + cause,
        ConnectStage::Authenticating => match credential {
            CredentialKind::Password => "Authentication failed: "@ + cause
                + ". Please check your credentials."@,
            CredentialKind::PrivateKey => "Private key authentication failed: "@ + cause,
            CredentialKind::Missing => missing_credential_text(),
        },
        ConnectStage::ChannelSetup(SetupStep::OpenChannel) => "Failed to create channel: "@ + cause,
        ConnectStage::ChannelSetup(SetupStep::RequestPty) => "Failed to request PTY: "@ + cause,
        ConnectStage::ChannelSetup(SetupStep::RequestPtySize) => "Failed to set PTY size: "@
            + cause,
        ConnectStage::ChannelSetup(SetupStep::StartShell) => "Failed to start shell: "@ + cause,
        ConnectStage::Running => cause,
        ConnectStage::Failed => cause,
    }
}

/// What the front end is told after the step of `stage`: the error of the
/// first failure, `connected` when the shell has started, nothing
/// otherwise.
pub open spec fn notice_of(
    stage: ConnectStage,
    config: SshConnectionConfig,
    cause: Option<Seq<char>>,
) -> Option<NotificationView> {
    let credential = config.credential_spec();
    match stage {
        ConnectStage::Running => None,
        ConnectStage::Failed => None,
        _ => match cause {
            Some(text) => Some(
                NotificationView::Error {
                    server_id: config.server_id@,
                    message: failure_text(stage, credential, config.ip@, config.port_spec(), text),
                },
            ),
            None => if (stage is Handshaking || stage is Authenticating) && credential is Missing {
                Some(
                    NotificationView::Error {
                        server_id: config.server_id@,
                        message: missing_credential_text(),
                    },
                )
            } else if stage == ConnectStage::ChannelSetup(SetupStep::StartShell) {
                Some(
                    NotificationView::Status {
                        server_id: config.server_id@,
                        status: SessionStatus::Connected,
                        message: Some("Connected to "@ + config.ip@),
                    },
                )
            } else {
                None
            },
        },
    }
}

impl ConnectStage {
    /// Whether the attempt is over.
    pub open spec fn is_final_spec(self) -> bool {
        self is Running || self is Failed
    }

    #[verifier::when_used_as_spec(is_final_spec)]
    pub fn is_final(self) -> (b: bool)
        ensures
            b == self.is_final_spec(),
    {
        match self {
            ConnectStage::Running => true,
            ConnectStage::Failed => true,
            _ => false,
        }
    }

    /// The kind of error that a failure in this stage is.
    pub open spec fn error_kind_spec(self) -> Option<ErrorKind> {
        match self {
            ConnectStage::Resolving => Some(ErrorKind::AddressResolution),
            ConnectStage::Dialing => Some(ErrorKind::DialTimeout),
            ConnectStage::Handshaking => Some(ErrorKind::Handshake),
            ConnectStage::Authenticating => Some(ErrorKind::Authentication),
            ConnectStage::ChannelSetup(_) => Some(ErrorKind::ChannelSetup),
            ConnectStage::Running => None,
            ConnectStage::Failed => None,
        }
    }

    #[verifier::when_used_as_spec(error_kind_spec)]
    pub fn error_kind(self) -> (kind: Option<ErrorKind>)
        ensures
            kind == self.error_kind_spec(),
    {
        match self {
            ConnectStage::Resolving => Some(ErrorKind::AddressResolution),
            ConnectStage::Dialing => Some(ErrorKind::DialTimeout),
            ConnectStage::Handshaking => Some(ErrorKind::Handshake),
            ConnectStage::Authenticating => Some(ErrorKind::Authentication),
            ConnectStage::ChannelSetup(_) => Some(ErrorKind::ChannelSetup),
            ConnectStage::Running => None,
            ConnectStage::Failed => None,
        }
    }
}

/// The action of a stage.
pub fn action_for(stage: ConnectStage, config: &SshConnectionConfig) -> (action: Option<
    ConnectAction,
>)
    ensures
        action_view(action) == action_of(stage, *config),
{
    match stage {
        ConnectStage::Resolving => Some(
            ConnectAction::Resolve { address: address(config.ip.as_str(), config.effective_port()) },
        ),
        ConnectStage::Dialing => Some(ConnectAction::Dial { timeout_ms: CONNECT_TIMEOUT_MS }),
        ConnectStage::Handshaking => Some(
            ConnectAction::Handshake { timeout_ms: CONNECT_TIMEOUT_MS },
        ),
        ConnectStage::Authenticating => Some(
            ConnectAction::Authenticate { method: config.credential() },
        ),
        ConnectStage::ChannelSetup(SetupStep::OpenChannel) => Some(ConnectAction::OpenChannel),
        ConnectStage::ChannelSetup(SetupStep::RequestPty) => Some(
            ConnectAction::RequestPty { term: String::from_str("xterm-256color") },
        ),
        ConnectStage::ChannelSetup(SetupStep::RequestPtySize) => Some(
            ConnectAction::RequestPtySize { cols: DEFAULT_COLS, rows: DEFAULT_ROWS },
        ),
        ConnectStage::ChannelSetup(SetupStep::StartShell) => Some(ConnectAction::StartShell),
        ConnectStage::Running => Some(ConnectAction::Run { read_timeout_ms: POLL_TIMEOUT_MS }),
        ConnectStage::Failed => None,
    }
}

/// Writes the message of a failed step.
pub fn failure_message(
    stage: ConnectStage,
    credential: CredentialKind,
    host: &str,
    port: u16,
    cause: &str,
) -> (message: String)
    ensures
        message@ == failure_text(stage, credential, host@, port, cause@),
{
    match stage {
        ConnectStage::Resolving => {
            let at = address(host, port);
            let mut m = String::from_str("invalid address: ");
            m.append(at.as_str());
            m
        },
        ConnectStage::Dialing => {
            let at = address(host, port);
            let mut m = join3("Connection timeout or failed (", at.as_str(), "): ");
            m.append(cause);
            m
        },
        ConnectStage::Handshaking => {
            let at = address(host, port);
            let mut m = join3("SSH handshake failed (", at.as_str(), "): ");
            m.append(cause);
            m
        },
        ConnectStage::Authenticating => match credential {
            CredentialKind::Password => join3(
                "Authentication failed: ",
                cause,
                ". Please check your credentials.",
            ),
            CredentialKind::PrivateKey => {
                let mut m = String::from_str("Private key authentication failed: ");
                m.append(cause);
                m
            },
            CredentialKind::Missing => String::from_str("no authentication method provided"),
        },
        ConnectStage::ChannelSetup(SetupStep::OpenChannel) => {
            let mut m = String::from_str("Failed to create channel: ");
            m.append(cause);
            m
        },
        ConnectStage::ChannelSetup(SetupStep::RequestPty) => {
            let mut m = String::from_str("Failed to request PTY: ");
            m.append(cause);
            m
        },
        ConnectStage::ChannelSetup(SetupStep::RequestPtySize) => {
            let mut m = String::from_str("Failed to set PTY size: ");
            m.append(cause);
            m
        },
        ConnectStage::ChannelSetup(SetupStep::StartShell) => {
            let mut m = String::from_str("Failed to start shell: ");
            m.append(cause);
            m
        },
        ConnectStage::Running => String::from_str(cause),
        ConnectStage::Failed => String::from_str(cause),
    }
}

/// The first decision of an attempt: resolve the address.
pub fn begin(config: &SshConnectionConfig) -> (d: Decision)
    ensures
        d.stage == ConnectStage::Resolving,
        action_view(d.action) == action_of(ConnectStage::Resolving, *config),
        d.notify is None,
{
    Decision {
        stage: ConnectStage::Resolving,
        action: action_for(ConnectStage::Resolving, config),
        notify: None,
    }
}

/// Decides what follows the step of `stage`, given how that step went:
/// `Ok` when it succeeded, the cause when it failed.
pub fn advance(stage: ConnectStage, config: &SshConnectionConfig, outcome: &Result<(), String>) -> (d:
    Decision)
    ensures
        d.stage == next_stage(stage, config.credential_spec(), *outcome is Ok),
        action_view(d.action) == action_of(d.stage, *config),
        notify_view(d.notify) == notice_of(stage, *config, cause_of(*outcome)),
{
    let credential = config.credential();
    let missing = match credential {
        CredentialKind::Missing => true,
        _ => false,
    };
    if stage.is_final() {
        return Decision { stage, action: action_for(stage, config), notify: None };
    }
    match outcome {
        Err(cause) => {
            let message = failure_message(
                stage,
                credential,
                config.ip.as_str(),
                config.effective_port(),
                cause.as_str(),
            );
            Decision {
                stage: ConnectStage::Failed,
                action: None,
                notify: Some(Notification::Error { server_id: config.server_id.clone(), message }),
            }
        },
        Ok(_) => {
            let lacks = missing && match stage {
                ConnectStage::Handshaking => true,
                ConnectStage::Authenticating => true,
                _ => false,
            };
            if lacks {
                return Decision {
                    stage: ConnectStage::Failed,
                    action: None,
                    notify: Some(
                        Notification::Error {
                            server_id: config.server_id.clone(),
                            message: String::from_str("no authentication method provided"),
                        },
                    ),
                };
            }
            let next = match stage {
                ConnectStage::Resolving => ConnectStage::Dialing,
                ConnectStage::Dialing => ConnectStage::Handshaking,
                ConnectStage::Handshaking => ConnectStage::Authenticating,
                ConnectStage::Authenticating => ConnectStage::ChannelSetup(SetupStep::OpenChannel),
                ConnectStage::ChannelSetup(SetupStep::OpenChannel) => ConnectStage::ChannelSetup(
                    SetupStep::RequestPty,
                ),
                ConnectStage::ChannelSetup(SetupStep::RequestPty) => ConnectStage::ChannelSetup(
                    SetupStep::RequestPtySize,
                ),
                ConnectStage::ChannelSetup(SetupStep::RequestPtySize) => ConnectStage::ChannelSetup(
                    SetupStep::StartShell,
                ),
                ConnectStage::ChannelSetup(SetupStep::StartShell) => ConnectStage::Running,
                ConnectStage::Running => ConnectStage::Running,
                ConnectStage::Failed => ConnectStage::Failed,
            };
            let notify = match next {
                ConnectStage::Running => {
                    let mut message = String::from_str("Connected to ");
                    message.append(config.ip.as_str());
                    Some(
                        Notification::Status {
                            server_id: config.server_id.clone(),
                            status: SessionStatus::Connected,
                            message: Some(message),
                        },
                    )
                },
                _ => None,
            };
            Decision { stage: next, action: action_for(next, config), notify }
        },
    }
}

} // verus!
