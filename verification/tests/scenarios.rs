use ssh_service::registry::Polled;
use ssh_service::service::SshService;
use ssh_service::supervisor::{advance, ConnectAction, ConnectStage, Decision};
use ssh_service::types::{
    CredentialKind, Notification, SessionHandle, SessionStatus, SshConnectionConfig,
};
use ssh_service::worker::{
    abandoned_reply, exec_reply, on_read, DrainStep, ExecOutcome, ExitReason, PollStep,
    ReadOutcome,
};

fn config(password: Option<&str>, private_key: Option<&str>) -> SshConnectionConfig {
    SshConnectionConfig {
        server_id: "srv-1".to_string(),
        ip: "10.0.0.5".to_string(),
        port: None,
        username: "root".to_string(),
        password: password.map(|p| p.to_string()),
        private_key: private_key.map(|p| p.to_string()),
    }
}

/// Runs one attempt against a transport that fails at `fail_at`, if given,
/// and succeeds everywhere else.
fn attempt(
    service: &mut SshService,
    client: &str,
    config: &SshConnectionConfig,
    fail_at: Option<ConnectStage>,
) -> (Vec<Notification>, Option<SessionHandle>, Vec<ConnectAction>) {
    let mut told = Vec::new();
    let mut done = Vec::new();
    let (_, first) = service.connect(client, config);
    let mut decision: Decision = first;
    loop {
        if let Some(n) = decision.notify.clone() {
            told.push(n);
        }
        let action = match decision.action.clone() {
            Some(a) => a,
            None => return (told, None, done),
        };
        done.push(action.clone());
        if let ConnectAction::Run { .. } = action {
            let (handle, _) = service.register(client, &config.server_id);
            return (told, Some(handle), done);
        }
        let outcome = if fail_at == Some(decision.stage) {
            Err("boom".to_string())
        } else {
            Ok(())
        };
        decision = advance(decision.stage, config, &outcome);
    }
}

#[test]
fn connect_then_data_is_reported() {
    let mut service = SshService::new();
    let cfg = config(Some("SECRET-REDACTED"), None);
    let (told, handle, _) = attempt(&mut service, "client-a", &cfg, None);
    assert_eq!(
        told,
        vec![Notification::Status {
            server_id: "srv-1".to_string(),
            status: SessionStatus::Connected,
            message: Some("Connected to 10.0.0.5".to_string()),
        }]
    );
    let handle = handle.unwrap();
    assert_eq!(service.lookup("client-a", "srv-1"), Some(handle));
    assert_eq!(service.next_step(handle.channel), DrainStep::Poll);
    let step = on_read("srv-1", &ReadOutcome::Bytes(b"hello".to_vec()));
    assert_eq!(
        step,
        PollStep::Emit(Notification::Data {
            server_id: "srv-1".to_string(),
            text: "hello".to_string(),
        })
    );
}

#[test]
fn connect_walks_every_step_in_order() {
    let mut service = SshService::new();
    let cfg = config(None, Some("-----BEGIN KEY-----"));
    let (_, handle, done) = attempt(&mut service, "client-a", &cfg, None);
    assert!(handle.is_some());
    assert_eq!(
        done,
        vec![
            ConnectAction::Resolve { address: "10.0.0.5:22".to_string() },
            ConnectAction::Dial { timeout_ms: 15000 },
            ConnectAction::Handshake { timeout_ms: 15000 },
            ConnectAction::Authenticate { method: CredentialKind::PrivateKey },
            ConnectAction::OpenChannel,
            ConnectAction::RequestPty { term: "xterm-256color".to_string() },
            ConnectAction::RequestPtySize { cols: 80, rows: 24 },
            ConnectAction::StartShell,
            ConnectAction::Run { read_timeout_ms: 100 },
        ]
    );
}

#[test]
fn connect_without_credential_reports_one_error() {
    let mut service = SshService::new();
    let cfg = config(None, None);
    let (told, handle, done) = attempt(&mut service, "client-a", &cfg, None);
    assert_eq!(told.len(), 1);
    match &told[0] {
        Notification::Error { server_id, message } => {
            assert_eq!(server_id, "srv-1");
            assert!(message.contains("no authentication method"));
        }
        other => panic!("expected an error, got {:?}", other),
    }
    assert!(handle.is_none());
    assert_eq!(service.lookup("client-a", "srv-1"), None);
    assert_eq!(service.session_count(), 0);
    assert_eq!(done.len(), 3);
}

#[test]
fn exec_on_live_session_returns_output() {
    let mut service = SshService::new();
    let cfg = config(Some("SECRET-REDACTED"), None);
    let (_, handle, _) = attempt(&mut service, "client-a", &cfg, None);
    let handle = handle.unwrap();
    assert_eq!(service.exec("client-a", "srv-1", "echo hi".to_string(), 41), Ok(()));
    let step = service.next_step(handle.channel);
    assert_eq!(step, DrainStep::Execute { command: "echo hi".to_string(), reply: 41 });
    let reply = exec_reply(ExecOutcome::Output("hi\n".to_string()));
    assert_eq!(reply, Ok("hi\n".to_string()));
    assert_eq!(service.next_step(handle.channel), DrainStep::Poll);
    assert_eq!(service.lookup("client-a", "srv-1"), Some(handle));
}

#[test]
fn exec_pending_at_worker_end_is_failed_not_lost() {
    let mut service = SshService::new();
    let cfg = config(Some("SECRET-REDACTED"), None);
    let (_, handle, _) = attempt(&mut service, "client-a", &cfg, None);
    let handle = handle.unwrap();
    service.write("client-a", "srv-1", "ls\n");
    assert_eq!(service.exec("client-a", "srv-1", "uptime".to_string(), 1), Ok(()));
    assert_eq!(service.exec("client-a", "srv-1", "whoami".to_string(), 2), Ok(()));
    assert_eq!(service.next_step(handle.channel), DrainStep::Forward(b"ls\n".to_vec()));
    assert_eq!(
        on_read("srv-1", &ReadOutcome::Bytes(Vec::new())),
        PollStep::Exit(ExitReason::Eof)
    );
    let exit = service.finish(handle.channel, "srv-1");
    assert_eq!(exit.unanswered, vec![1, 2]);
    assert_eq!(
        exit.notify,
        Notification::Status {
            server_id: "srv-1".to_string(),
            status: SessionStatus::Disconnected,
            message: None,
        }
    );
    assert!(abandoned_reply().is_err());
    assert_eq!(service.lookup("client-a", "srv-1"), None);
    assert_eq!(service.session_count(), 0);
    assert_eq!(service.next_step(handle.channel), DrainStep::Exit(ExitReason::SendersGone));
}

#[test]
fn reconnect_tears_previous_session_down_first() {
    let mut service = SshService::new();
    let cfg = config(Some("SECRET-REDACTED"), None);
    let (_, first, _) = attempt(&mut service, "client-a", &cfg, None);
    let first = first.unwrap();
    service.write("client-a", "srv-1", "a");
    let (previous, _) = service.connect("client-a", &cfg);
    assert_eq!(previous, Some(first));
    assert_eq!(service.lookup("client-a", "srv-1"), None);
    let (second, replaced) = service.register("client-a", "srv-1");
    assert_eq!(replaced, None);
    assert_ne!(second, first);
    assert_eq!(service.session_count(), 1);
    assert_eq!(service.lookup("client-a", "srv-1"), Some(second));
    assert_eq!(service.next_step(first.channel), DrainStep::Forward(b"a".to_vec()));
    assert_eq!(service.next_step(first.channel), DrainStep::Exit(ExitReason::Requested));
    let exit = service.finish(first.channel, "srv-1");
    assert!(exit.unanswered.is_empty());
    assert_eq!(service.lookup("client-a", "srv-1"), Some(second));
    assert_eq!(service.next_step(second.channel), DrainStep::Poll);
}

#[test]
fn register_over_live_key_replaces_it() {
    let mut service = SshService::new();
    let (first, none) = service.register("client-a", "srv-1");
    assert_eq!(none, None);
    let (second, replaced) = service.register("client-a", "srv-1");
    assert_eq!(replaced, Some(first));
    assert_ne!(first, second);
    assert_eq!(service.session_count(), 1);
    assert_eq!(service.next_step(first.channel), DrainStep::Exit(ExitReason::Requested));
}

#[test]
fn polled_values_compare_by_content() {
    assert_eq!(Polled::Empty, Polled::Empty);
    assert_ne!(Polled::Empty, Polled::Disconnected);
}
