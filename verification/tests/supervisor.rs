use ssh_service::supervisor::{
    action_for, advance, begin, failure_message, ConnectAction, ConnectStage, SetupStep,
    CONNECT_TIMEOUT_MS, DEFAULT_COLS, DEFAULT_ROWS, POLL_TIMEOUT_MS,
};
use ssh_service::types::{
    CredentialKind, ErrorKind, Notification, SessionStatus, SshConnectionConfig, DEFAULT_PORT,
};

fn with_password() -> SshConnectionConfig {
    SshConnectionConfig {
        server_id: "db".to_string(),
        ip: "example.org".to_string(),
        port: Some(2222),
        username: "admin".to_string(),
        password: Some("SECRET-REDACTED".to_string()),
        private_key: Some("key material".to_string()),
    }
}

fn error(message: &str) -> Option<Notification> {
    Some(Notification::Error { server_id: "db".to_string(), message: message.to_string() })
}

fn fail(stage: ConnectStage, config: &SshConnectionConfig) -> Option<Notification> {
    let d = advance(stage, config, &Err("cause".to_string()));
    assert_eq!(d.stage, ConnectStage::Failed);
    assert_eq!(d.action, None);
    d.notify
}

#[test]
fn constants_have_their_values() {
    assert_eq!(CONNECT_TIMEOUT_MS, 15000);
    assert_eq!(POLL_TIMEOUT_MS, 100);
    assert_eq!(DEFAULT_COLS, 80);
    assert_eq!(DEFAULT_ROWS, 24);
    assert_eq!(DEFAULT_PORT, 22);
}

#[test]
fn attempt_begins_with_resolving() {
    let d = begin(&with_password());
    assert_eq!(d.stage, ConnectStage::Resolving);
    assert_eq!(d.action, Some(ConnectAction::Resolve { address: "example.org:2222".to_string() }));
    assert_eq!(d.notify, None);
}

#[test]
fn default_port_is_22() {
    let mut cfg = with_password();
    cfg.port = None;
    assert_eq!(cfg.effective_port(), 22);
    assert_eq!(
        action_for(ConnectStage::Resolving, &cfg),
        Some(ConnectAction::Resolve { address: "example.org:22".to_string() })
    );
}

#[test]
fn password_comes_before_private_key() {
    let cfg = with_password();
    assert_eq!(cfg.credential(), CredentialKind::Password);
    let mut key_only = with_password();
    key_only.password = None;
    assert_eq!(key_only.credential(), CredentialKind::PrivateKey);
    let mut none = key_only.clone();
    none.private_key = None;
    assert_eq!(none.credential(), CredentialKind::Missing);
}

#[test]
fn each_failure_has_its_message() {
    let cfg = with_password();
    assert_eq!(fail(ConnectStage::Resolving, &cfg), error("invalid address: example.org:2222"));
    assert_eq!(
        fail(ConnectStage::Dialing, &cfg),
        error("Connection timeout or failed (example.org:2222): cause")
    );
    assert_eq!(
        fail(ConnectStage::Handshaking, &cfg),
        error("SSH handshake failed (example.org:2222): cause")
    );
    assert_eq!(
        fail(ConnectStage::Authenticating, &cfg),
        error("Authentication failed: cause. Please check your credentials.")
    );
    assert_eq!(
        fail(ConnectStage::ChannelSetup(SetupStep::OpenChannel), &cfg),
        error("Failed to create channel: cause")
    );
    assert_eq!(
        fail(ConnectStage::ChannelSetup(SetupStep::RequestPty), &cfg),
        error("Failed to request PTY: cause")
    );
    assert_eq!(
        fail(ConnectStage::ChannelSetup(SetupStep::RequestPtySize), &cfg),
        error("Failed to set PTY size: cause")
    );
    assert_eq!(
        fail(ConnectStage::ChannelSetup(SetupStep::StartShell), &cfg),
        error("Failed to start shell: cause")
    );
}

#[test]
fn private_key_failure_has_its_own_message() {
    let mut cfg = with_password();
    cfg.password = None;
    assert_eq!(
        fail(ConnectStage::Authenticating, &cfg),
        error("Private key authentication failed: cause")
    );
}

#[test]
fn failure_messages_do_not_hold_the_secret() {
    let cfg = with_password();
    for stage in [
        ConnectStage::Resolving,
        ConnectStage::Dialing,
        ConnectStage::Handshaking,
        ConnectStage::Authenticating,
        ConnectStage::ChannelSetup(SetupStep::OpenChannel),
        ConnectStage::ChannelSetup(SetupStep::RequestPty),
        ConnectStage::ChannelSetup(SetupStep::RequestPtySize),
        ConnectStage::ChannelSetup(SetupStep::StartShell),
    ] {
        match fail(stage, &cfg) {
            Some(Notification::Error { message, .. }) => {
                assert!(!message.contains("SECRET-REDACTED"));
                assert!(!message.contains("key material"));
            }
            other => panic!("expected an error, got {:?}", other),
        }
    }
}

#[test]
fn failure_message_is_built_from_its_parts() {
    assert_eq!(
        failure_message(ConnectStage::Dialing, CredentialKind::Password, "h", 65535, "refused"),
        "Connection timeout or failed (h:65535): refused"
    );
    assert_eq!(
        failure_message(ConnectStage::Authenticating, CredentialKind::Missing, "h", 1, "x"),
        "no authentication method provided"
    );
}

#[test]
fn missing_credential_fails_after_handshake() {
    let mut cfg = with_password();
    cfg.password = None;
    cfg.private_key = None;
    let d = advance(ConnectStage::Handshaking, &cfg, &Ok(()));
    assert_eq!(d.stage, ConnectStage::Failed);
    assert_eq!(d.action, None);
    assert_eq!(d.notify, error("no authentication method provided"));
    let d = advance(ConnectStage::Dialing, &cfg, &Ok(()));
    assert_eq!(d.stage, ConnectStage::Handshaking);
    assert_eq!(d.notify, None);
}

#[test]
fn success_moves_one_stage_on() {
    let cfg = with_password();
    let ok = Ok(());
    let d = advance(ConnectStage::Resolving, &cfg, &ok);
    assert_eq!((d.stage, d.notify), (ConnectStage::Dialing, None));
    assert_eq!(d.action, Some(ConnectAction::Dial { timeout_ms: 15000 }));
    let d = advance(ConnectStage::Dialing, &cfg, &ok);
    assert_eq!(d.stage, ConnectStage::Handshaking);
    assert_eq!(d.action, Some(ConnectAction::Handshake { timeout_ms: 15000 }));
    let d = advance(ConnectStage::Handshaking, &cfg, &ok);
    assert_eq!(d.stage, ConnectStage::Authenticating);
    assert_eq!(d.action, Some(ConnectAction::Authenticate { method: CredentialKind::Password }));
    let d = advance(ConnectStage::Authenticating, &cfg, &ok);
    assert_eq!(d.stage, ConnectStage::ChannelSetup(SetupStep::OpenChannel));
    assert_eq!(d.action, Some(ConnectAction::OpenChannel));
    let d = advance(d.stage, &cfg, &ok);
    assert_eq!(d.stage, ConnectStage::ChannelSetup(SetupStep::RequestPty));
    let d = advance(d.stage, &cfg, &ok);
    assert_eq!(d.stage, ConnectStage::ChannelSetup(SetupStep::RequestPtySize));
    assert_eq!(d.action, Some(ConnectAction::RequestPtySize { cols: 80, rows: 24 }));
    let d = advance(d.stage, &cfg, &ok);
    assert_eq!(d.stage, ConnectStage::ChannelSetup(SetupStep::StartShell));
    assert_eq!(d.notify, None);
    let d = advance(d.stage, &cfg, &ok);
    assert_eq!(d.stage, ConnectStage::Running);
    assert_eq!(d.action, Some(ConnectAction::Run { read_timeout_ms: 100 }));
    assert_eq!(
        d.notify,
        Some(Notification::Status {
            server_id: "db".to_string(),
            status: SessionStatus::Connected,
            message: Some("Connected to example.org".to_string()),
        })
    );
}

#[test]
fn final_stages_stay_and_say_nothing() {
    let cfg = with_password();
    for outcome in [Ok(()), Err("late".to_string())] {
        let d = advance(ConnectStage::Failed, &cfg, &outcome);
        assert_eq!((d.stage, d.action, d.notify), (ConnectStage::Failed, None, None));
        let d = advance(ConnectStage::Running, &cfg, &outcome);
        assert_eq!(d.stage, ConnectStage::Running);
        assert_eq!(d.notify, None);
    }
    assert!(ConnectStage::Failed.is_final());
    assert!(ConnectStage::Running.is_final());
    assert!(!ConnectStage::Dialing.is_final());
}

#[test]
fn stages_map_to_error_kinds() {
    assert_eq!(ConnectStage::Resolving.error_kind(), Some(ErrorKind::AddressResolution));
    assert_eq!(ConnectStage::Dialing.error_kind(), Some(ErrorKind::DialTimeout));
    assert_eq!(ConnectStage::Handshaking.error_kind(), Some(ErrorKind::Handshake));
    assert_eq!(ConnectStage::Authenticating.error_kind(), Some(ErrorKind::Authentication));
    assert_eq!(
        ConnectStage::ChannelSetup(SetupStep::StartShell).error_kind(),
        Some(ErrorKind::ChannelSetup)
    );
    assert_eq!(ConnectStage::Running.error_kind(), None);
    assert_eq!(ConnectStage::Failed.error_kind(), None);
}
