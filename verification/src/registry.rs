//! The registry of live sessions and their command channels.

use vstd::prelude::*;
use std::collections::VecDeque;
use crate::model::{
    SlotView, PolledView, wf, holds, registered, slot_of, enqueue, pushed, released, disconnect,
    disconnect_all, owned_by, slots_of_client, servers_of_client, is_first_vacant, first_vacant,
    fresh, vacant, place, register, next_polled, after_receive, replies_of, abandoned, finish,
    session_count, lemma_slot_of, lemma_first_vacant,
};
use crate::types::{CommandView, SessionHandle, SessionKey, SshChannelCmd};

verus! {

/// One command channel of the table.
struct Slot {
    owner: Option<SessionKey>,
    open: bool,
    queue: VecDeque<SshChannelCmd>,
}

impl View for Slot {
    type V = SlotView;

    closed spec fn view(&self) -> SlotView {
        SlotView {
            owner: match self.owner {
                Some(key) => Some(key@),
                None => None,
            },
            open: self.open,
            queue: self.queue@.map_values(|c: SshChannelCmd| c@),
        }
    }
}

/// What a worker finds when it asks its channel for the next command.
#[derive(Debug, Clone, PartialEq, Eq)]
pub enum Polled {
    /// The oldest waiting command.
    Command(SshChannelCmd),
    /// Nothing waits.
    Empty,
    /// Nothing waits and nobody can post any more.
    Disconnected,
}

impl View for Polled {
    type V = PolledView;

    open spec fn view(&self) -> PolledView {
        match *self {
            Polled::Command(cmd) => PolledView::Command(cmd@),
            Polled::Empty => PolledView::Empty,
            Polled::Disconnected => PolledView::Disconnected,
        }
    }
}

/// The slots of a registry, with the operations on them.
struct Table {
    slots: Vec<Slot>,
}

impl View for Table {
    type V = Seq<SlotView>;

    closed spec fn view(&self) -> Seq<SlotView> {
        self.slots@.map_values(|s: Slot| s@)
    }
}

impl Table {
    spec fn wf(&self) -> bool {
        wf(self@)
    }

    /// An empty registry.
    fn new() -> (r: Self)
        ensures
            r@ == Seq::<SlotView>::empty(),
            r.wf(),
    {
        let r = Table { slots: Vec::new() };
        assert(r@ =~= Seq::<SlotView>::empty());
        r
    }

    /// The handle of the session registered under `key`, if there is one.
    fn lookup(&self, key: &SessionKey) -> (found: Option<SessionHandle>)
        requires
            self.wf(),
        ensures
            found is Some <==> registered(self@, key@),
            found is Some ==> found->0.channel == slot_of(self@, key@),
    {
        let mut i: usize = 0;
        while i < self.slots.len()
            invariant
                self.wf(),
                i <= self.slots.len(),
                forall|j: int| 0 <= j < i ==> !holds(self@, key@, j),
            decreases self.slots.len() - i,
        {
            let hit = match &self.slots[i].owner {
                Some(k) => k.same(key),
                None => false,
            };
            if hit {
                proof {
                    assert(holds(self@, key@, i as int));
                    lemma_slot_of(self@, key@, i as int);
                }
                return Some(SessionHandle { channel: i });
            }
            i += 1;
        }
        None
    }

    /// Posts a command to the session registered under `key`. Says whether
    /// there was such a session.
    fn send(&mut self, key: &SessionKey, cmd: SshChannelCmd) -> (sent: bool)
        requires
            old(self).wf(),
        ensures
            final(self).wf(),
            sent == registered(old(self)@, key@),
            final(self)@ == enqueue(old(self)@, key@, cmd@),
    {
        match self.lookup(key) {
            Some(h) => {
                let ghost before = self@;
                let ghost slots = self.slots@;
                let ghost c = cmd@;
                let ghost at = h.channel as int;
                self.slots[h.channel].queue.push_back(cmd);
                proof {
                    assert(self.slots@.len() == slots.len());
                    assert(self.slots@[at]@.queue =~= pushed(before[at], c).queue);
                    assert forall|j: int| 0 <= j < slots.len() && j != at implies self.slots@[j]
                        == slots[j] by {}
                    assert(self@ =~= before.update(at, pushed(before[at], c)));
                }
                true
            },
            None => false,
        }
    }

    /// Tears down the session registered under `key`: the registration
    /// goes at once, and a `Disconnect` is posted behind what its worker
    /// has not drained yet. Returns the handle of the session, for the
    /// direct disconnect of its transport.
    fn remove(&mut self, key: &SessionKey) -> (removed: Option<SessionHandle>)
        requires
            old(self).wf(),
        ensures
            final(self).wf(),
            final(self)@ == disconnect(old(self)@, key@),
            !registered(final(self)@, key@),
            removed is Some <==> registered(old(self)@, key@),
            removed is Some ==> removed->0.channel == slot_of(old(self)@, key@),
    {
        match self.lookup(key) {
            Some(h) => {
                let ghost before = self@;
                let ghost slots = self.slots@;
                let ghost at = h.channel as int;
                self.slots[h.channel].owner = None;
                self.slots[h.channel].queue.push_back(SshChannelCmd::Disconnect);
                proof {
                    assert(self.slots@.len() == slots.len());
                    assert(self.slots@[at]@.queue =~= released(before[at]).queue);
                    assert forall|j: int| 0 <= j < slots.len() && j != at implies self.slots@[j]
                        == slots[j] by {}
                    assert(self@ =~= before.update(at, released(before[at])));
                }
                Some(h)
            },
            None => None,
        }
    }

    /// Tears down every session of one client, and returns their handles
    /// in table order.
    fn remove_client(&mut self, client: &String) -> (removed: Vec<SessionHandle>)
        requires
            old(self).wf(),
        ensures
            final(self).wf(),
            final(self)@ == disconnect_all(old(self)@, client@),
            removed@.map_values(|h: SessionHandle| h.channel as int) == slots_of_client(
                old(self)@,
                client@,
            ),
    {
        let ghost before = self@;
        let mut removed: Vec<SessionHandle> = Vec::new();
        let mut i: usize = 0;
        assert(before.take(0) =~= Seq::<SlotView>::empty());
        while i < self.slots.len()
            invariant
                wf(before),
                self.wf(),
                i <= self.slots.len(),
                self@.len() == before.len(),
                forall|j: int| 0 <= j < i ==> self@[j] == disconnect_all(before, client@)[j],
                forall|j: int| i <= j < before.len() ==> self@[j] == before[j],
                removed@.map_values(|h: SessionHandle| h.channel as int) =~= slots_of_client(
                    before.take(i as int),
                    client@,
                ),
            decreases self.slots.len() - i,
        {
            let hit = match &self.slots[i].owner {
                Some(k) => k.owned_by(client),
                None => false,
            };
            let ghost now = self@;
            let ghost slots = self.slots@;
            let ghost done = removed@;
            let ghost at = i as int;
            proof {
                assert(before.take(at + 1).drop_last() =~= before.take(at));
                assert(before.take(at + 1).last() == before[at]);
                assert(hit == owned_by(before[at], client@));
            }
            if hit {
                self.slots[i].owner = None;
                self.slots[i].queue.push_back(SshChannelCmd::Disconnect);
                removed.push(SessionHandle { channel: i });
                proof {
                    assert(self.slots@.len() == slots.len());
                    assert(self.slots@[at]@.queue =~= released(now[at]).queue);
                    assert forall|j: int| 0 <= j < slots.len() && j != at implies self.slots@[j]
                        == slots[j] by {}
                    assert(self@ =~= now.update(at, released(now[at])));
                    assert(removed@.map_values(|h: SessionHandle| h.channel as int)
                        =~= done.map_values(|h: SessionHandle| h.channel as int).push(at));
                }
            }
            i += 1;
        }
        proof {
            assert(before.take(before.len() as int) =~= before);
            assert(self@ =~= disconnect_all(before, client@));
        }
        removed
    }

    /// The servers to which the given client has a registered session, in
    /// table order.
    fn keys_for_client(&self, client: &String) -> (servers: Vec<String>)
        requires
            self.wf(),
        ensures
            servers@.map_values(|s: String| s@) == servers_of_client(self@, client@),
    {
        let mut servers: Vec<String> = Vec::new();
        let mut i: usize = 0;
        assert(self@.take(0) =~= Seq::<SlotView>::empty());
        while i < self.slots.len()
            invariant
                i <= self.slots.len(),
                self@.len() == self.slots.len(),
                servers@.map_values(|s: String| s@) =~= servers_of_client(
                    self@.take(i as int),
                    client@,
                ),
            decreases self.slots.len() - i,
        {
            let ghost done = servers@;
            let ghost at = i as int;
            proof {
                assert(self@.take(at + 1).drop_last() =~= self@.take(at));
                assert(self@.take(at + 1).last() == self@[at]);
            }
            match &self.slots[i].owner {
                Some(k) => {
                    if k.owned_by(client) {
                        let server = k.server_id.clone();
                        servers.push(server);
                        proof {
                            assert(servers@.map_values(|s: String| s@) =~= done.map_values(
                                |s: String| s@,
                            ).push(k.server_id@));
                        }
                    }
                },
                None => {},
            }
            i += 1;
        }
        proof {
            assert(self@.take(self@.len() as int) =~= self@);
        }
        servers
    }

    /// Registers a session under `key`. A session that is already
    /// registered under it is torn down first. Returns the handle of the
    /// new session and, where there was one, that of the session it
    /// replaced.
    fn insert(&mut self, key: SessionKey) -> (out: (SessionHandle, Option<SessionHandle>))
        requires
            old(self).wf(),
        ensures
            final(self).wf(),
            final(self)@ == register(old(self)@, key@),
            out.0.channel == first_vacant(disconnect(old(self)@, key@)),
            holds(final(self)@, key@, out.0.channel as int),
            out.1 is Some <==> registered(old(self)@, key@),
            out.1 is Some ==> out.1->0.channel == slot_of(old(self)@, key@),
    {
        let ghost before = self@;
        let previous = self.remove(&key);
        let ghost cleared = self@;
        proof {
            if registered(before, key@) {
                let at = slot_of(before, key@);
                assert(holds(before, key@, at));
                assert forall|j: int| !holds(cleared, key@, j) by {
                    if 0 <= j < cleared.len() && j != at {
                        assert(before[at].owner != before[j].owner);
                    }
                }
            }
            assert(!registered(cleared, key@));
        }
        let mut i: usize = 0;
        while i < self.slots.len() && self.slots[i].open
            invariant
                self@ == cleared,
                i <= self.slots.len(),
                self@.len() == self.slots.len(),
                forall|j: int| 0 <= j < i ==> (#[trigger] cleared[j]).open,
            decreases self.slots.len() - i,
        {
            i += 1;
        }
        proof {
            assert(i < self.slots.len() ==> !cleared[i as int].open);
            assert(is_first_vacant(cleared, i as int));
            lemma_first_vacant(cleared, i as int);
        }
        let ghost k = key@;
        let slot = Slot { owner: Some(key), open: true, queue: VecDeque::new() };
        assert(slot@ =~= fresh(k)) by {
            assert(slot@.queue =~= Seq::<CommandView>::empty());
        }
        if i < self.slots.len() {
            self.slots.set(i, slot);
        } else {
            self.slots.push(slot);
        }
        proof {
            assert(self@ =~= place(cleared, i as int, fresh(k)));
            assert forall|a: int, b: int|
                0 <= a < self@.len() && 0 <= b < self@.len() && a != b && (
                #[trigger] self@[a]).owner is Some implies self@[a].owner != (
            #[trigger] self@[b]).owner by {
                if a == i as int {
                    if self@[b].owner == Some(k) {
                        assert(holds(cleared, k, b));
                    }
                } else if b == i as int {
                    if self@[a].owner == Some(k) {
                        assert(holds(cleared, k, a));
                    }
                } else {
                    assert(cleared[a].owner != cleared[b].owner);
                }
            }
        }
        (SessionHandle { channel: i }, previous)
    }

    /// Hands the worker of `channel` its next command, oldest first.
    fn try_recv(&mut self, channel: usize) -> (polled: Polled)
        requires
            old(self).wf(),
        ensures
            final(self).wf(),
            polled@ == next_polled(old(self)@, channel as int),
            final(self)@ == after_receive(old(self)@, channel as int),
    {
        if channel >= self.slots.len() {
            return Polled::Disconnected;
        }
        if !self.slots[channel].open {
            return Polled::Disconnected;
        }
        let ghost before = self@;
        let ghost slots = self.slots@;
        let ghost at = channel as int;
        match self.slots[channel].queue.pop_front() {
            Some(cmd) => {
                proof {
                    assert(self.slots@.len() == slots.len());
                    assert(before[at].queue.len() > 0);
                    assert(cmd@ == before[at].queue[0]);
                    assert(self.slots@[at]@.queue =~= before[at].queue.drop_first());
                    assert forall|j: int| 0 <= j < slots.len() && j != at implies self.slots@[j]
                        == slots[j] by {}
                    assert(self@ =~= after_receive(before, at));
                }
                Polled::Command(cmd)
            },
            None => {
                proof {
                    assert(self.slots@.len() == slots.len());
                    assert(before[at].queue.len() == 0);
                    assert(self.slots@[at]@.queue =~= before[at].queue);
                    assert forall|j: int| 0 <= j < slots.len() && j != at implies self.slots@[j]
                        == slots[j] by {}
                    assert(self@ =~= before);
                }
                if self.slots[channel].owner.is_some() {
                    Polled::Empty
                } else {
                    Polled::Disconnected
                }
            },
        }
    }

    /// Ends the channel of a worker: its slot becomes vacant, the
    /// registration that it still held goes with it, and the reply slots of
    /// the `Exec` commands that were never drained are returned, oldest
    /// first, so that each can be answered with a failure.
    fn close(&mut self, channel: usize) -> (unanswered: Vec<u64>)
        requires
            old(self).wf(),
        ensures
            final(self).wf(),
            final(self)@ == finish(old(self)@, channel as int),
            unanswered@ == abandoned(old(self)@, channel as int),
    {
        let mut unanswered: Vec<u64> = Vec::new();
        if channel >= self.slots.len() {
            return unanswered;
        }
        if !self.slots[channel].open {
            return unanswered;
        }
        let ghost before = self@;
        let ghost slots = self.slots@;
        let ghost at = channel as int;
        let ghost queue = before[at].queue;
        let n = self.slots[channel].queue.len();
        let mut k: usize = 0;
        assert(queue.take(0) =~= Seq::<CommandView>::empty());
        while k < n
            invariant
                self@ == before,
                self.slots@ == slots,
                0 <= at < slots.len(),
                at == channel,
                queue == before[at].queue,
                n == queue.len(),
                n == self.slots[at].queue.len(),
                k <= n,
                unanswered@ =~= replies_of(queue.take(k as int)),
            decreases n - k,
        {
            proof {
                assert(queue.take(k + 1).drop_last() =~= queue.take(k as int));
                assert(queue.take(k + 1).last() == queue[k as int]);
                assert(self.slots[at].queue@[k as int]@ == queue[k as int]);
            }
            match &self.slots[channel].queue[k] {
                SshChannelCmd::Exec { reply, .. } => {
                    unanswered.push(*reply);
                },
                _ => {},
            }
            k += 1;
        }
        proof {
            assert(queue.take(n as int) =~= queue);
        }
        self.slots[channel].queue.clear();
        self.slots[channel].owner = None;
        self.slots[channel].open = false;
        proof {
            assert(self.slots@.len() == slots.len());
            assert(self.slots@[at]@.queue =~= vacant().queue);
            assert forall|j: int| 0 <= j < slots.len() && j != at implies self.slots@[j]
                == slots[j] by {}
            assert(self@ =~= before.update(at, vacant()));
        }
        unanswered
    }

    /// The number of registered sessions.
    fn session_count(&self) -> (n: usize)
        ensures
            n == session_count(self@),
    {
        let mut n: usize = 0;
        let mut i: usize = 0;
        assert(self@.take(0) =~= Seq::<SlotView>::empty());
        while i < self.slots.len()
            invariant
                i <= self.slots.len(),
                self@.len() == self.slots.len(),
                n <= i,
                n == session_count(self@.take(i as int)),
            decreases self.slots.len() - i,
        {
            proof {
                assert(self@.take(i + 1).drop_last() =~= self@.take(i as int));
                assert(self@.take(i + 1).last() == self@[i as int]);
            }
            if self.slots[i].owner.is_some() {
                n += 1;
            }
            i += 1;
        }
        proof {
            assert(self@.take(self@.len() as int) =~= self@);
        }
        n
    }

    /// The number of commands that wait in a channel; none in a channel
    /// that no worker drains.
    fn pending(&self, channel: usize) -> (n: usize)
        ensures
            n == if channel < self@.len() {
                self@[channel as int].queue.len()
            } else {
                0
            },
    {
        if channel < self.slots.len() {
            self.slots[channel].queue.len()
        } else {
            0
        }
    }
}

/// The authoritative table of live sessions, keyed by client and server.
/// It is consistent at all times: no key has two sessions.
pub struct ConnectionRegistry {
    table: Table,
}

impl View for ConnectionRegistry {
    type V = Seq<SlotView>;

    closed spec fn view(&self) -> Seq<SlotView> {
        self.table@
    }
}

impl ConnectionRegistry {
    #[verifier::type_invariant]
    spec fn consistent(&self) -> bool {
        wf(self.table@)
    }

    /// The consistency that every registry has and every operation keeps.
    pub open spec fn wf(&self) -> bool {
        wf(self@)
    }

    /// An empty registry.
    pub fn new() -> (r: Self)
        ensures
            r@ == Seq::<SlotView>::empty(),
            r.wf(),
    {
        ConnectionRegistry { table: Table::new() }
    }

    /// The handle of the session registered under `key`, if there is one.
    pub fn lookup(&self, key: &SessionKey) -> (found: Option<SessionHandle>)
        ensures
            self.wf(),
            found is Some <==> registered(self@, key@),
            found is Some ==> found->0.channel == slot_of(self@, key@),
    {
        proof {
            use_type_invariant(self);
        }
        self.table.lookup(key)
    }

    /// The servers to which the given client has a registered session, in
    /// table order.
    pub fn keys_for_client(&self, client: &String) -> (servers: Vec<String>)
        ensures
            self.wf(),
            servers@.map_values(|s: String| s@) == servers_of_client(self@, client@),
    {
        proof {
            use_type_invariant(self);
        }
        self.table.keys_for_client(client)
    }

    /// The number of registered sessions.
    pub fn session_count(&self) -> (n: usize)
        ensures
            n == session_count(self@),
    {
        self.table.session_count()
    }

    /// The number of commands that wait in a channel; none in a channel
    /// that no worker drains.
    pub fn pending(&self, channel: usize) -> (n: usize)
        ensures
            n == if channel < self@.len() {
                self@[channel as int].queue.len()
            } else {
                0
            },
    {
        proof {
            use_type_invariant(self);
        }
        self.table.pending(channel)
    }

    /// Posts a command to the session registered under `key`: it goes to
    /// the back of the session's queue. Says whether there was such a
    /// session; without one nothing changes.
    pub fn send(&mut self, key: &SessionKey, cmd: SshChannelCmd) -> (sent: bool)
        ensures
            final(self).wf(),
            sent == registered(old(self)@, key@),
            final(self)@ == enqueue(old(self)@, key@, cmd@),
    {
        proof {
            use_type_invariant(&*self);
        }
        let mut table = Table::new();
        core::mem::swap(&mut self.table, &mut table);
        let sent = table.send(key, cmd);
        self.table = table;
        sent
    }

    /// Tears down the session registered under `key`: the registration
    /// goes at once, and a `Disconnect` is posted behind what its worker
    /// has not drained yet. Returns the handle of the session, for the
    /// direct disconnect of its transport. Without such a session nothing
    /// changes.
    pub fn remove(&mut self, key: &SessionKey) -> (removed: Option<SessionHandle>)
        ensures
            final(self).wf(),
            final(self)@ == disconnect(old(self)@, key@),
            !registered(final(self)@, key@),
            removed is Some <==> registered(old(self)@, key@),
            removed is Some ==> removed->0.channel == slot_of(old(self)@, key@),
    {
        proof {
            use_type_invariant(&*self);
        }
        let mut table = Table::new();
        core::mem::swap(&mut self.table, &mut table);
        let removed = table.remove(key);
        self.table = table;
        removed
    }

    /// Tears down every session of one client, and returns their handles
    /// in table order. The sessions of other clients stay as they are.
    pub fn remove_client(&mut self, client: &String) -> (removed: Vec<SessionHandle>)
        ensures
            final(self).wf(),
            final(self)@ == disconnect_all(old(self)@, client@),
            removed@.map_values(|h: SessionHandle| h.channel as int) == slots_of_client(
                old(self)@,
                client@,
            ),
    {
        proof {
            use_type_invariant(&*self);
        }
        let mut table = Table::new();
        core::mem::swap(&mut self.table, &mut table);
        let removed = table.remove_client(client);
        self.table = table;
        removed
    }

    /// Registers a session under `key`, in the first vacant slot. A session
    /// that is already registered under the key is torn down first. Returns
    /// the handle of the new session and, where there was one, that of the
    /// session it replaced.
    pub fn insert(&mut self, key: SessionKey) -> (out: (SessionHandle, Option<SessionHandle>))
        ensures
            final(self).wf(),
            final(self)@ == register(old(self)@, key@),
            out.0.channel == first_vacant(disconnect(old(self)@, key@)),
            holds(final(self)@, key@, out.0.channel as int),
            out.1 is Some <==> registered(old(self)@, key@),
            out.1 is Some ==> out.1->0.channel == slot_of(old(self)@, key@),
    {
        proof {
            use_type_invariant(&*self);
        }
        let mut table = Table::new();
        core::mem::swap(&mut self.table, &mut table);
        let out = table.insert(key);
        self.table = table;
        out
    }

    /// Hands the worker of `channel` its next command, oldest first:
    /// `Empty` when nothing waits, `Disconnected` when nothing waits and
    /// the session is no longer registered, or the channel has no worker.
    pub fn try_recv(&mut self, channel: usize) -> (polled: Polled)
        ensures
            final(self).wf(),
            polled@ == next_polled(old(self)@, channel as int),
            final(self)@ == after_receive(old(self)@, channel as int),
    {
        proof {
            use_type_invariant(&*self);
        }
        let mut table = Table::new();
        core::mem::swap(&mut self.table, &mut table);
        let polled = table.try_recv(channel);
        self.table = table;
        polled
    }

    /// Ends the channel of a worker: its slot becomes vacant, the
    /// registration that it still held goes with it, and the reply slots of
    /// the `Exec` commands that were never drained are returned, oldest
    /// first, so that each can be answered with a failure.
    pub fn close(&mut self, channel: usize) -> (unanswered: Vec<u64>)
        ensures
            final(self).wf(),
            final(self)@ == finish(old(self)@, channel as int),
            unanswered@ == abandoned(old(self)@, channel as int),
    {
        proof {
            use_type_invariant(&*self);
        }
        let mut table = Table::new();
        core::mem::swap(&mut self.table, &mut table);
        let unanswered = table.close(channel);
        self.table = table;
        unanswered
    }
}

} // verus!
