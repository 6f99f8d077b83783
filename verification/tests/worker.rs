use ssh_service::registry::Polled;
use ssh_service::types::{ErrorKind, Notification, SessionStatus, SshChannelCmd};
use ssh_service::worker::{
    abandoned_reply, data_notification, exec_reply, exec_timeouts, exit_notification, on_polled,
    on_read, DrainStep, ExecOutcome, ExecTimeouts, ExitReason, PollStep, ReadOutcome,
    EXEC_TIMEOUT_MS, READ_BUFFER_LEN,
};

#[test]
fn each_command_has_its_step() {
    assert_eq!(
        on_polled(Polled::Command(SshChannelCmd::Write(vec![1, 2, 3]))),
        DrainStep::Forward(vec![1, 2, 3])
    );
    assert_eq!(
        on_polled(Polled::Command(SshChannelCmd::Resize { cols: 1, rows: 2 })),
        DrainStep::Resize { cols: 1, rows: 2 }
    );
    assert_eq!(
        on_polled(Polled::Command(SshChannelCmd::Exec { command: "ls".to_string(), reply: 5 })),
        DrainStep::Execute { command: "ls".to_string(), reply: 5 }
    );
    assert_eq!(
        on_polled(Polled::Command(SshChannelCmd::Disconnect)),
        DrainStep::Exit(ExitReason::Requested)
    );
    assert_eq!(on_polled(Polled::Empty), DrainStep::Poll);
    assert_eq!(on_polled(Polled::Disconnected), DrainStep::Exit(ExitReason::SendersGone));
}

#[test]
fn zero_bytes_end_the_session() {
    assert_eq!(on_read("s", &ReadOutcome::Bytes(vec![])), PollStep::Exit(ExitReason::Eof));
}

#[test]
fn timeouts_change_nothing() {
    assert_eq!(on_read("s", &ReadOutcome::TimedOut), PollStep::Idle);
    assert_eq!(on_read("s", &ReadOutcome::WouldBlock), PollStep::Idle);
}

#[test]
fn other_read_errors_end_the_session() {
    assert_eq!(on_read("s", &ReadOutcome::Failed), PollStep::Exit(ExitReason::ReadFailed));
}

#[test]
fn bytes_are_reported_as_text() {
    assert_eq!(
        on_read("s", &ReadOutcome::Bytes("héllo\r\n".as_bytes().to_vec())),
        PollStep::Emit(Notification::Data {
            server_id: "s".to_string(),
            text: "héllo\r\n".to_string(),
        })
    );
}

#[test]
fn undecodable_bytes_are_replaced() {
    assert_eq!(
        on_read("s", &ReadOutcome::Bytes(vec![b'a', 0xff, b'b'])),
        PollStep::Emit(Notification::Data {
            server_id: "s".to_string(),
            text: "a\u{fffd}b".to_string(),
        })
    );
    assert_eq!(
        on_read("s", &ReadOutcome::Bytes(vec![0xe2, 0x82])),
        PollStep::Emit(Notification::Data {
            server_id: "s".to_string(),
            text: "\u{fffd}".to_string(),
        })
    );
}

#[test]
fn data_notification_names_its_server() {
    assert_eq!(
        data_notification("srv", "out".to_string()),
        Notification::Data { server_id: "srv".to_string(), text: "out".to_string() }
    );
}

#[test]
fn exit_is_reported_without_message() {
    assert_eq!(
        exit_notification("srv"),
        Notification::Status {
            server_id: "srv".to_string(),
            status: SessionStatus::Disconnected,
            message: None,
        }
    );
}

#[test]
fn exec_raises_timeout_and_restores_it() {
    assert_eq!(EXEC_TIMEOUT_MS, 60000);
    assert_eq!(READ_BUFFER_LEN, 8192);
    assert_eq!(exec_timeouts(100), ExecTimeouts { during_ms: 60000, after_ms: 100 });
    assert_eq!(exec_timeouts(0), ExecTimeouts { during_ms: 60000, after_ms: 0 });
}

#[test]
fn exec_reply_is_output_or_first_failure() {
    assert_eq!(exec_reply(ExecOutcome::Output("hi\n".to_string())), Ok("hi\n".to_string()));
    assert_eq!(exec_reply(ExecOutcome::Output(String::new())), Ok(String::new()));
    assert_eq!(exec_reply(ExecOutcome::OpenFailed("no channel".to_string())), Err("no channel".to_string()));
    assert_eq!(exec_reply(ExecOutcome::StartFailed("denied".to_string())), Err("denied".to_string()));
    assert_eq!(exec_reply(ExecOutcome::ReadFailed("timeout".to_string())), Err("timeout".to_string()));
}

#[test]
fn abandoned_exec_resolves_as_failure() {
    assert_eq!(abandoned_reply(), Err("receiving on a closed channel".to_string()));
}

#[test]
fn only_a_failed_read_is_an_error() {
    assert_eq!(ExitReason::ReadFailed.error_kind(), Some(ErrorKind::ChannelIo));
    assert_eq!(ExitReason::Eof.error_kind(), None);
    assert_eq!(ExitReason::Requested.error_kind(), None);
    assert_eq!(ExitReason::SendersGone.error_kind(), None);
}
