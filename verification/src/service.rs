//! The operations of the service.
//!
//! The service owns the registry. Its callers are the front end's requests
//! on one side and the workers on the other; each operation says how the
//! table of sessions changes and what the shell has to do for it.

use vstd::prelude::*;
use vstd::string::{StrSliceExecFns, StringExecFns, StringSliceAdditionalSpecFns};
use crate::model::{
    SlotView, wf, holds, registered, slot_of, enqueue, disconnect, disconnect_all, slots_of_client,
    servers_of_client, first_vacant, register, next_polled, after_receive, abandoned, finish,
    session_count,
};
use crate::registry::ConnectionRegistry;
use crate::supervisor::{ConnectStage, Decision, action_of, action_view, begin};
use crate::types::{
    CommandView, ErrorKind, KeyView, Notification, NotificationView, SessionHandle, SessionKey,
    SessionStatus, SshChannelCmd, SshConnectionConfig,
};
use crate::worker::{DrainStep, exit_notification, on_polled, step_of_polled};

verus! {

/// The key of the session between a client and a server.
pub open spec fn key_of(client: Seq<char>, server: Seq<char>) -> KeyView {
    KeyView { client, server }
}

/// The service: every live session of every client.
pub struct SshService {
    sessions: ConnectionRegistry,
}

impl View for SshService {
    type V = Seq<SlotView>;

    closed spec fn view(&self) -> Seq<SlotView> {
        self.sessions@
    }
}

/// What the end of a worker leaves to do.
#[derive(Debug, Clone, PartialEq, Eq)]
pub struct WorkerExit {
    /// The reply slots of the one-shot commands that never ran, oldest
    /// first: each is to be answered with a failure.
    pub unanswered: Vec<u64>,
    /// The last notification of the session.
    pub notify: Notification,
}

impl SshService {
    /// The consistency that every service has and every operation keeps.
    pub open spec fn wf(&self) -> bool {
        wf(self@)
    }

    /// A service without sessions.
    pub fn new() -> (service: Self)
        ensures
            service@ == Seq::<SlotView>::empty(),
            service.wf(),
    {
        SshService { sessions: ConnectionRegistry::new() }
    }

    /// Starts a connection attempt for `socket_id` to the server of
    /// `config`. A session that is registered under the same key is torn
    /// down first; its handle is returned for the direct disconnect of its
    /// transport. The decision is the first of the attempt: resolve the
    /// address.
    pub fn connect(&mut self, socket_id: &str, config: &SshConnectionConfig) -> (out: (
        Option<SessionHandle>,
        Decision,
    ))
        ensures
            final(self).wf(),
            final(self)@ == disconnect(old(self)@, key_of(socket_id@, config.server_id@)),
            !registered(final(self)@, key_of(socket_id@, config.server_id@)),
            out.0 is Some <==> registered(old(self)@, key_of(socket_id@, config.server_id@)),
            out.0 is Some ==> out.0->0.channel == slot_of(
                old(self)@,
                key_of(socket_id@, config.server_id@),
            ),
            out.1.stage == ConnectStage::Resolving,
            action_view(out.1.action) == action_of(ConnectStage::Resolving, *config),
            out.1.notify is None,
    {
        let previous = self.disconnect(socket_id, config.server_id.as_str());
        (previous, begin(config))
    }

    /// Registers the session that a connection attempt has established. A
    /// session that was registered under the same key meanwhile is torn
    /// down first, so that no key ever has two. Returns the handle of the
    /// new session and that of the one it replaced.
    pub fn register(&mut self, socket_id: &str, server_id: &str) -> (out: (
        SessionHandle,
        Option<SessionHandle>,
    ))
        ensures
            final(self).wf(),
            final(self)@ == register(old(self)@, key_of(socket_id@, server_id@)),
            holds(final(self)@, key_of(socket_id@, server_id@), out.0.channel as int),
            out.0.channel == first_vacant(disconnect(old(self)@, key_of(socket_id@, server_id@))),
            out.1 is Some <==> registered(old(self)@, key_of(socket_id@, server_id@)),
            out.1 is Some ==> out.1->0.channel == slot_of(
                old(self)@,
                key_of(socket_id@, server_id@),
            ),
    {
        self.sessions.insert(SessionKey::new(socket_id, server_id))
    }

    /// The handle of the session between a client and a server, if there
    /// is one.
    pub fn lookup(&self, socket_id: &str, server_id: &str) -> (found: Option<SessionHandle>)
        ensures
            self.wf(),
            found is Some <==> registered(self@, key_of(socket_id@, server_id@)),
            found is Some ==> found->0.channel == slot_of(self@, key_of(socket_id@, server_id@)),
    {
        let key = SessionKey::new(socket_id, server_id);
        self.sessions.lookup(&key)
    }

    /// The servers to which a client has a session, in table order.
    pub fn keys_for_client(&self, socket_id: &str) -> (servers: Vec<String>)
        ensures
            self.wf(),
            servers@.map_values(|s: String| s@) == servers_of_client(self@, socket_id@),
    {
        let client = String::from_str(socket_id);
        self.sessions.keys_for_client(&client)
    }

    /// The number of registered sessions.
    pub fn session_count(&self) -> (n: usize)
        ensures
            n == session_count(self@),
    {
        self.sessions.session_count()
    }

    /// The number of commands that wait in a channel.
    pub fn pending(&self, channel: usize) -> (n: usize)
        ensures
            n == if channel < self@.len() {
                self@[channel as int].queue.len()
            } else {
                0
            },
    {
        self.sessions.pending(channel)
    }

    /// Posts keystrokes to a session: the bytes of `data` go to the back of
    /// its queue. Without such a session nothing happens.
    pub fn write(&mut self, socket_id: &str, server_id: &str, data: &str)
        ensures
            final(self).wf(),
            final(self)@ == enqueue(
                old(self)@,
                key_of(socket_id@, server_id@),
                CommandView::Write(data.spec_bytes()),
            ),
            !registered(old(self)@, key_of(socket_id@, server_id@)) ==> final(self)@ == old(
                self,
            )@,
    {
        let key = SessionKey::new(socket_id, server_id);
        let bytes = data.as_bytes_vec();
        self.sessions.send(&key, SshChannelCmd::Write(bytes));
    }

    /// Posts a new window size to a session. Without such a session nothing
    /// happens.
    pub fn resize(&mut self, socket_id: &str, server_id: &str, cols: u32, rows: u32)
        ensures
            final(self).wf(),
            final(self)@ == enqueue(
                old(self)@,
                key_of(socket_id@, server_id@),
                CommandView::Resize { cols, rows },
            ),
            !registered(old(self)@, key_of(socket_id@, server_id@)) ==> final(self)@ == old(
                self,
            )@,
    {
        let key = SessionKey::new(socket_id, server_id);
        self.sessions.send(&key, SshChannelCmd::Resize { cols, rows });
    }

    /// Tears a session down: its registration goes at once, so that the key
    /// is free for a new connection, and a `Disconnect` is posted to its
    /// worker. The handle is returned for the direct disconnect of the
    /// transport. Without such a session nothing happens.
    pub fn disconnect(&mut self, socket_id: &str, server_id: &str) -> (removed: Option<
        SessionHandle,
    >)
        ensures
            final(self).wf(),
            final(self)@ == disconnect(old(self)@, key_of(socket_id@, server_id@)),
            !registered(final(self)@, key_of(socket_id@, server_id@)),
            removed is Some <==> registered(old(self)@, key_of(socket_id@, server_id@)),
            removed is Some ==> removed->0.channel == slot_of(
                old(self)@,
                key_of(socket_id@, server_id@),
            ),
            removed is None ==> final(self)@ == old(self)@,
    {
        let key = SessionKey::new(socket_id, server_id);
        self.sessions.remove(&key)
    }

    /// Tears down every session of one client, and returns their handles
    /// in table order. The sessions of other clients stay as they are.
    pub fn disconnect_all(&mut self, socket_id: &str) -> (removed: Vec<SessionHandle>)
        ensures
            final(self).wf(),
            final(self)@ == disconnect_all(old(self)@, socket_id@),
            removed@.map_values(|h: SessionHandle| h.channel as int) == slots_of_client(
                old(self)@,
                socket_id@,
            ),
    {
        let client = String::from_str(socket_id);
        self.sessions.remove_client(&client)
    }

    /// Posts a one-shot command to a session. `reply` names the slot in
    /// which the caller waits for the answer. Fails with `SessionNotFound`,
    /// and posts nothing, exactly when there is no such session.
    pub fn exec(&mut self, socket_id: &str, server_id: &str, command: String, reply: u64) -> (r:
        Result<(), ErrorKind>)
        ensures
            final(self).wf(),
            r is Ok <==> registered(old(self)@, key_of(socket_id@, server_id@)),
            r is Err ==> r->Err_0 == ErrorKind::SessionNotFound,
            r is Err ==> final(self)@ == old(self)@,
            final(self)@ == enqueue(
                old(self)@,
                key_of(socket_id@, server_id@),
                CommandView::Exec { command: command@, reply },
            ),
    {
        let key = SessionKey::new(socket_id, server_id);
        if self.sessions.send(&key, SshChannelCmd::Exec { command, reply }) {
            Ok(())
        } else {
            Err(ErrorKind::SessionNotFound)
        }
    }

    /// The next step of the drain phase of the worker of `channel`: the
    /// oldest waiting command leaves the queue and decides it.
    pub fn next_step(&mut self, channel: usize) -> (step: DrainStep)
        ensures
            final(self).wf(),
            step@ == step_of_polled(next_polled(old(self)@, channel as int)),
            final(self)@ == after_receive(old(self)@, channel as int),
    {
        on_polled(self.sessions.try_recv(channel))
    }

    /// The end of the worker of `channel`: its slot becomes vacant, the
    /// registration that it still held is removed, the one-shot commands
    /// that it never ran are handed back, and the front end is told
    /// `disconnected`.
    pub fn finish(&mut self, channel: usize, server_id: &str) -> (exit: WorkerExit)
        ensures
            final(self).wf(),
            final(self)@ == finish(old(self)@, channel as int),
            exit.unanswered@ == abandoned(old(self)@, channel as int),
            exit.notify@ == (NotificationView::Status {
                server_id: server_id@,
                status: SessionStatus::Disconnected,
                message: None,
            }),
    {
        let unanswered = self.sessions.close(channel);
        WorkerExit { unanswered, notify: exit_notification(server_id) }
    }
}

} // verus!
