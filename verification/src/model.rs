//! The mathematical model of the session table.
//!
//! The table is a sequence of slots. A slot is the command channel of one
//! worker: `open` while the worker runs, owned by a key while the session is
//! registered under it, and holding the commands that wait to be drained.
//! Every operation of the service is a function on this sequence.

use vstd::prelude::*;
use crate::types::{CommandView, KeyView};

verus! {

/// One command channel.
pub struct SlotView {
    /// The key under which the session is registered, while it is.
    pub owner: Option<KeyView>,
    /// Whether a worker still drains the channel.
    pub open: bool,
    /// The commands that wait, oldest first.
    pub queue: Seq<CommandView>,
}

/// What a worker finds when it asks its channel for the next command.
pub enum PolledView {
    Command(CommandView),
    Empty,
    Disconnected,
}

/// A channel that nobody uses.
pub open spec fn vacant() -> SlotView {
    SlotView { owner: None, open: false, queue: Seq::empty() }
}

/// The channel of a session that was just registered under `key`.
pub open spec fn fresh(key: KeyView) -> SlotView {
    SlotView { owner: Some(key), open: true, queue: Seq::empty() }
}

/// Slot `i` is the channel of the session registered under `key`.
pub open spec fn holds(t: Seq<SlotView>, key: KeyView, i: int) -> bool {
    0 <= i < t.len() && t[i].owner == Some(key)
}

/// A session is registered under `key`.
pub open spec fn registered(t: Seq<SlotView>, key: KeyView) -> bool {
    exists|i: int| holds(t, key, i)
}

/// The slot of the session registered under `key`.
pub open spec fn slot_of(t: Seq<SlotView>, key: KeyView) -> int {
    choose|i: int| holds(t, key, i)
}

/// The table is consistent: a registered session has a running worker, a
/// channel without a worker holds nothing, and no two slots are owned by
/// the same key.
pub open spec fn wf(t: Seq<SlotView>) -> bool {
    &&& forall|i: int| 0 <= i < t.len() && (#[trigger] t[i]).owner is Some ==> t[i].open
    &&& forall|i: int| 0 <= i < t.len() && !(#[trigger] t[i]).open ==> t[i].queue.len() == 0
    &&& forall|i: int, j: int|
        0 <= i < t.len() && 0 <= j < t.len() && i != j && (#[trigger] t[i]).owner is Some
            ==> t[i].owner != (#[trigger] t[j]).owner
}

/// The number of registered sessions.
pub open spec fn session_count(t: Seq<SlotView>) -> nat
    decreases t.len(),
{
    if t.len() == 0 {
        0
    } else {
        session_count(t.drop_last()) + if t.last().owner is Some {
            1nat
        } else {
            0nat
        }
    }
}

/// A slot with one more command at the back of its queue.
pub open spec fn pushed(slot: SlotView, cmd: CommandView) -> SlotView {
    SlotView { queue: slot.queue.push(cmd), ..slot }
}

/// A slot whose session was torn down: no owner any more, and a
/// `Disconnect` behind whatever still waits.
pub open spec fn released(slot: SlotView) -> SlotView {
    SlotView { owner: None, open: slot.open, queue: slot.queue.push(CommandView::Disconnect) }
}

/// Posting `cmd` to the session under `key`: appended to its queue; nothing
/// changes when no such session exists.
pub open spec fn enqueue(t: Seq<SlotView>, key: KeyView, cmd: CommandView) -> Seq<SlotView> {
    if registered(t, key) {
        let i = slot_of(t, key);
        t.update(i, pushed(t[i], cmd))
    } else {
        t
    }
}

/// Tearing down the session under `key`; nothing changes when no such
/// session exists.
pub open spec fn disconnect(t: Seq<SlotView>, key: KeyView) -> Seq<SlotView> {
    if registered(t, key) {
        let i = slot_of(t, key);
        t.update(i, released(t[i]))
    } else {
        t
    }
}

/// Whether a slot is owned by a key of the given client.
pub open spec fn owned_by(slot: SlotView, client: Seq<char>) -> bool {
    slot.owner is Some && slot.owner->0.client == client
}

/// Tearing down every session of one client.
pub open spec fn disconnect_all(t: Seq<SlotView>, client: Seq<char>) -> Seq<SlotView> {
    Seq::new(
        t.len(),
        |i: int|
            if owned_by(t[i], client) {
                released(t[i])
            } else {
                t[i]
            },
    )
}

/// The slots owned by the given client, in table order.
pub open spec fn slots_of_client(t: Seq<SlotView>, client: Seq<char>) -> Seq<int>
    decreases t.len(),
{
    if t.len() == 0 {
        Seq::empty()
    } else {
        let rest = slots_of_client(t.drop_last(), client);
        if owned_by(t.last(), client) {
            rest.push(t.len() - 1)
        } else {
            rest
        }
    }
}

/// The servers to which the given client has a registered session, in
/// table order.
pub open spec fn servers_of_client(t: Seq<SlotView>, client: Seq<char>) -> Seq<Seq<char>>
    decreases t.len(),
{
    if t.len() == 0 {
        Seq::empty()
    } else {
        let rest = servers_of_client(t.drop_last(), client);
        if owned_by(t.last(), client) {
            rest.push(t.last().owner->0.server)
        } else {
            rest
        }
    }
}

/// `i` is the first slot without a worker, or the length of the table when
/// every slot has one.
pub open spec fn is_first_vacant(t: Seq<SlotView>, i: int) -> bool {
    &&& 0 <= i <= t.len()
    &&& i < t.len() ==> !t[i].open
    &&& forall|j: int| 0 <= j < i ==> (#[trigger] t[j]).open
}

/// The slot that the next registration takes.
pub open spec fn first_vacant(t: Seq<SlotView>) -> int {
    choose|i: int| is_first_vacant(t, i)
}

/// Putting a slot at position `i`: in place, or at the end when `i` is the
/// length of the table.
pub open spec fn place(t: Seq<SlotView>, i: int, slot: SlotView) -> Seq<SlotView> {
    if 0 <= i < t.len() {
        t.update(i, slot)
    } else {
        t.push(slot)
    }
}

/// Registering a session under `key`: a session that is already registered
/// under it is torn down first, then the first vacant slot becomes the
/// channel of the new one.
pub open spec fn register(t: Seq<SlotView>, key: KeyView) -> Seq<SlotView> {
    let cleared = disconnect(t, key);
    place(cleared, first_vacant(cleared), fresh(key))
}

/// What the worker of channel `ch` receives next.
pub open spec fn next_polled(t: Seq<SlotView>, ch: int) -> PolledView {
    if 0 <= ch < t.len() && t[ch].open {
        if t[ch].queue.len() > 0 {
            PolledView::Command(t[ch].queue[0])
        } else if t[ch].owner is Some {
            PolledView::Empty
        } else {
            PolledView::Disconnected
        }
    } else {
        PolledView::Disconnected
    }
}

/// The table after the worker of channel `ch` asked for its next command.
pub open spec fn after_receive(t: Seq<SlotView>, ch: int) -> Seq<SlotView> {
    if 0 <= ch < t.len() && t[ch].open && t[ch].queue.len() > 0 {
        t.update(ch, SlotView { queue: t[ch].queue.drop_first(), ..t[ch] })
    } else {
        t
    }
}

/// The reply slots of the `Exec` commands of a queue, oldest first.
pub open spec fn replies_of(queue: Seq<CommandView>) -> Seq<u64>
    decreases queue.len(),
{
    if queue.len() == 0 {
        Seq::empty()
    } else {
        let rest = replies_of(queue.drop_last());
        match queue.last() {
            CommandView::Exec { reply, .. } => rest.push(reply),
            _ => rest,
        }
    }
}

/// The reply slots that are left unanswered when the worker of channel `ch`
/// ends.
pub open spec fn abandoned(t: Seq<SlotView>, ch: int) -> Seq<u64> {
    if 0 <= ch < t.len() && t[ch].open {
        replies_of(t[ch].queue)
    } else {
        Seq::empty()
    }
}

/// The table after the worker of channel `ch` ended: its slot is vacant,
/// and with it goes the registration that the slot still held.
pub open spec fn finish(t: Seq<SlotView>, ch: int) -> Seq<SlotView> {
    if 0 <= ch < t.len() && t[ch].open {
        t.update(ch, vacant())
    } else {
        t
    }
}

/// Posting several commands to the session under `key`, one after the
/// other.
pub open spec fn enqueue_all(t: Seq<SlotView>, key: KeyView, cmds: Seq<CommandView>) -> Seq<
    SlotView,
>
    decreases cmds.len(),
{
    if cmds.len() == 0 {
        t
    } else {
        enqueue(enqueue_all(t, key, cmds.drop_last()), key, cmds.last())
    }
}

/// The table after the worker of channel `ch` asked `n` times for its next
/// command.
pub open spec fn receive_n(t: Seq<SlotView>, ch: int, n: nat) -> Seq<SlotView>
    decreases n,
{
    if n == 0 {
        t
    } else {
        after_receive(receive_n(t, ch, (n - 1) as nat), ch)
    }
}

/// The `Write` commands that carry the given payloads.
pub open spec fn write_commands(payloads: Seq<Seq<u8>>) -> Seq<CommandView> {
    payloads.map_values(|bytes: Seq<u8>| CommandView::Write(bytes))
}

/// In a consistent table the slot of a key is the only slot that holds it.
pub proof fn lemma_slot_of(t: Seq<SlotView>, key: KeyView, i: int)
    requires
        wf(t),
        holds(t, key, i),
    ensures
        registered(t, key),
        slot_of(t, key) == i,
{
    let j = slot_of(t, key);
    assert(holds(t, key, j));
    if j != i {
        assert(t[i].owner != t[j].owner);
    }
}

/// The first vacant slot is determined by the table.
pub proof fn lemma_first_vacant(t: Seq<SlotView>, i: int)
    requires
        is_first_vacant(t, i),
    ensures
        first_vacant(t) == i,
{
    let j = first_vacant(t);
    assert(is_first_vacant(t, j));
    if j < i {
        assert(t[j].open);
    }
    if i < j {
        assert(t[i].open);
    }
}

} // verus!
