//! What holds of the session table whatever is done to it.

use vstd::prelude::*;
use crate::model::{
    SlotView, wf, holds, registered, slot_of, enqueue, disconnect, disconnect_all, released,
    register, place, fresh, vacant, first_vacant,
    is_first_vacant, next_polled, after_receive, replies_of, abandoned, finish, session_count,
    enqueue_all, receive_n, write_commands, lemma_slot_of,
};
use crate::supervisor::{ConnectStage, next_stage, notice_of};
use crate::types::{
    CommandView, KeyView, NotificationView, SessionStatus, SshConnectionConfig,
};
use crate::worker::{
    DrainView, ExitReason, PollView, ReadOutcome, step_of_command, step_of_polled, step_of_read,
};

verus! {

/// No key has two sessions: in a consistent table two slots that hold the
/// same key are the same slot.
pub proof fn law_one_session_per_key(t: Seq<SlotView>, key: KeyView, i: int, j: int)
    requires
        wf(t),
        holds(t, key, i),
        holds(t, key, j),
    ensures
        i == j,
{
    if i != j {
        assert(t[i].owner != t[j].owner);
    }
}

/// Posting a command keeps the table consistent and registers nothing.
pub proof fn law_enqueue_keeps_sessions(t: Seq<SlotView>, key: KeyView, cmd: CommandView, other: KeyView)
    requires
        wf(t),
    ensures
        wf(enqueue(t, key, cmd)),
        registered(enqueue(t, key, cmd), other) == registered(t, other),
{
    let after = enqueue(t, key, cmd);
    if registered(t, key) {
        let at = slot_of(t, key);
        assert(holds(t, key, at));
        assert forall|i: int| 0 <= i < t.len() implies (#[trigger] after[i]).owner == t[i].owner
            && after[i].open == t[i].open by {}
        assert forall|i: int, j: int|
            0 <= i < after.len() && 0 <= j < after.len() && i != j && (
            #[trigger] after[i]).owner is Some implies after[i].owner != (
        #[trigger] after[j]).owner by {
            assert(t[i].owner != t[j].owner);
        }
        if registered(t, other) {
            let o = slot_of(t, other);
            assert(holds(t, other, o));
            assert(holds(after, other, o));
        }
        if registered(after, other) {
            let o = slot_of(after, other);
            assert(holds(after, other, o));
            assert(holds(t, other, o));
        }
    }
}

/// After a session is torn down its key is free: the table stays
/// consistent and no slot holds the key.
pub proof fn lemma_disconnect_frees_key(t: Seq<SlotView>, key: KeyView)
    requires
        wf(t),
    ensures
        wf(disconnect(t, key)),
        !registered(disconnect(t, key), key),
{
    let after = disconnect(t, key);
    if registered(t, key) {
        let at = slot_of(t, key);
        assert(holds(t, key, at));
        assert forall|j: int| !holds(after, key, j) by {
            if 0 <= j < after.len() && j != at {
                assert(t[at].owner != t[j].owner);
            }
        }
        assert forall|i: int, j: int|
            0 <= i < after.len() && 0 <= j < after.len() && i != j && (
            #[trigger] after[i]).owner is Some implies after[i].owner != (
        #[trigger] after[j]).owner by {
            assert(t[i].owner is Some);
            assert(t[i].owner != t[j].owner);
        }
    } else {
        assert forall|j: int| !holds(after, key, j) by {
            if holds(t, key, j) {
            }
        }
    }
}

/// Tearing a session down touches no other session: every other key is
/// registered afterwards exactly when it was before, in the same slot and
/// with the same queue.
pub proof fn law_disconnect_leaves_others(t: Seq<SlotView>, key: KeyView, other: KeyView)
    requires
        wf(t),
    ensures
        other != key ==> registered(disconnect(t, key), other) == registered(t, other),
        other != key && registered(t, other) ==> slot_of(disconnect(t, key), other) == slot_of(
            t,
            other,
        ) && disconnect(t, key)[slot_of(t, other)] == t[slot_of(t, other)],
{
    let after = disconnect(t, key);
    lemma_disconnect_frees_key(t, key);
    if other != key && registered(t, key) {
        let at = slot_of(t, key);
        assert(holds(t, key, at));
        if registered(t, other) {
            let o = slot_of(t, other);
            assert(holds(t, other, o));
            assert(o != at);
            assert(holds(after, other, o));
            lemma_slot_of(after, other, o);
        }
        if registered(after, other) {
            let o = slot_of(after, other);
            assert(holds(after, other, o));
            assert(o != at);
            assert(holds(t, other, o));
        }
    }
}

/// A connect under a key that already has a session tears that session
/// down before the new one is registered: afterwards the key has exactly
/// one session, in a slot of its own with an empty queue, while the slot of
/// the former session has lost its owner and ends with a `Disconnect`.
pub proof fn law_register_replaces(t: Seq<SlotView>, key: KeyView)
    requires
        wf(t),
    ensures
        wf(register(t, key)),
        registered(register(t, key), key),
        slot_of(register(t, key), key) == first_vacant(disconnect(t, key)),
        register(t, key)[slot_of(register(t, key), key)] == fresh(key),
        registered(t, key) ==> slot_of(t, key) != slot_of(register(t, key), key) && register(
            t,
            key,
        )[slot_of(t, key)] == released(t[slot_of(t, key)]),
{
    let cleared = disconnect(t, key);
    lemma_disconnect_frees_key(t, key);
    let at = first_vacant(cleared);
    lemma_first_vacant_exists(cleared);
    assert(is_first_vacant(cleared, at));
    let after = register(t, key);
    assert(after == place(cleared, at, fresh(key)));
    assert(holds(after, key, at));
    assert forall|a: int, b: int|
        0 <= a < after.len() && 0 <= b < after.len() && a != b && (
        #[trigger] after[a]).owner is Some implies after[a].owner != (
    #[trigger] after[b]).owner by {
        if a == at {
            if after[b].owner == Some(key) {
                assert(holds(cleared, key, b));
            }
        } else if b == at {
            if after[a].owner == Some(key) {
                assert(holds(cleared, key, a));
            }
        } else {
            assert(cleared[a].owner != cleared[b].owner);
        }
    }
    assert(wf(after));
    lemma_slot_of(after, key, at);
    if registered(t, key) {
        let old_at = slot_of(t, key);
        assert(holds(t, key, old_at));
        assert(t[old_at].open);
        assert(cleared[old_at].open);
    }
}

/// Every table has a first vacant slot.
pub proof fn lemma_first_vacant_exists(t: Seq<SlotView>)
    ensures
        is_first_vacant(t, first_vacant(t)),
{
    lemma_first_vacant_from(t, 0);
}

proof fn lemma_first_vacant_from(t: Seq<SlotView>, i: int)
    requires
        0 <= i <= t.len(),
        forall|j: int| 0 <= j < i ==> (#[trigger] t[j]).open,
    ensures
        exists|k: int| is_first_vacant(t, k),
    decreases t.len() - i,
{
    if i == t.len() || !t[i].open {
        assert(is_first_vacant(t, i));
    } else {
        lemma_first_vacant_from(t, i + 1);
    }
}

/// Tearing down the sessions of one client removes exactly these: a key is
/// registered afterwards if and only if it was registered before and
/// belongs to another client, and then its slot and its queue are
/// untouched.
pub proof fn law_disconnect_all_exact(t: Seq<SlotView>, client: Seq<char>, key: KeyView)
    requires
        wf(t),
    ensures
        wf(disconnect_all(t, client)),
        registered(disconnect_all(t, client), key) <==> registered(t, key) && key.client != client,
        registered(t, key) && key.client != client ==> slot_of(disconnect_all(t, client), key)
            == slot_of(t, key) && disconnect_all(t, client)[slot_of(t, key)] == t[slot_of(t, key)],
{
    let after = disconnect_all(t, client);
    assert forall|i: int, j: int|
        0 <= i < after.len() && 0 <= j < after.len() && i != j && (
        #[trigger] after[i]).owner is Some implies after[i].owner != (
    #[trigger] after[j]).owner by {
        assert(t[i].owner is Some);
        assert(t[i].owner != t[j].owner);
    }
    assert(wf(after)) by {
        assert forall|i: int| 0 <= i < after.len() && (#[trigger] after[i]).owner is Some implies
            after[i].open by {
            assert(t[i].owner is Some);
        }
        assert forall|i: int| 0 <= i < after.len() && !(#[trigger] after[i]).open implies
            after[i].queue.len() == 0 by {
            assert(!t[i].open);
            assert(t[i].owner is None);
        }
    }
    if registered(after, key) {
        let o = slot_of(after, key);
        assert(holds(after, key, o));
        assert(holds(t, key, o));
    }
    if registered(t, key) && key.client != client {
        let o = slot_of(t, key);
        assert(holds(t, key, o));
        assert(holds(after, key, o));
        lemma_slot_of(after, key, o);
    }
}

/// Replacing one slot changes the number of sessions by what the slot
/// gains or loses.
pub proof fn lemma_count_update(t: Seq<SlotView>, i: int, slot: SlotView)
    requires
        0 <= i < t.len(),
    ensures
        session_count(t.update(i, slot)) + (if t[i].owner is Some {
            1nat
        } else {
            0nat
        }) == session_count(t) + (if slot.owner is Some {
            1nat
        } else {
            0nat
        }),
    decreases t.len(),
{
    let u = t.update(i, slot);
    if i == t.len() - 1 {
        assert(u.drop_last() =~= t.drop_last());
    } else {
        assert(u.drop_last() =~= t.drop_last().update(i, slot));
        lemma_count_update(t.drop_last(), i, slot);
    }
}

/// A read of no bytes ends the session: the worker leaves its loop, and
/// its end removes the registration of its session and no other. The
/// number of sessions falls by exactly one.
pub proof fn law_eof_removes_one_session(
    t: Seq<SlotView>,
    key: KeyView,
    channel: int,
    server_id: Seq<char>,
    outcome: ReadOutcome,
    other: KeyView,
)
    requires
        wf(t),
        holds(t, key, channel),
        outcome matches ReadOutcome::Bytes(bytes) && bytes@.len() == 0,
    ensures
        step_of_read(server_id, outcome) == PollView::Exit(ExitReason::Eof),
        wf(finish(t, channel)),
        !registered(finish(t, channel), key),
        session_count(finish(t, channel)) + 1 == session_count(t),
        other != key ==> registered(finish(t, channel), other) == registered(t, other),
        finish(t, channel)[channel] == vacant(),
{
    let after = finish(t, channel);
    assert(t[channel].open);
    lemma_count_update(t, channel, vacant());
    assert forall|i: int, j: int|
        0 <= i < after.len() && 0 <= j < after.len() && i != j && (
        #[trigger] after[i]).owner is Some implies after[i].owner != (
    #[trigger] after[j]).owner by {
        assert(t[i].owner is Some);
        assert(t[i].owner != t[j].owner);
    }
    assert forall|j: int| !holds(after, key, j) by {
        if 0 <= j < after.len() && j != channel {
            assert(t[channel].owner != t[j].owner);
        }
    }
    if other != key && registered(t, other) {
        let o = slot_of(t, other);
        assert(holds(t, other, o));
        assert(holds(after, other, o));
    }
    if other != key && registered(after, other) {
        let o = slot_of(after, other);
        assert(holds(after, other, o));
        assert(holds(t, other, o));
    }
}

/// Commands posted one after the other stand at the back of the queue in
/// the order in which they were posted.
pub proof fn lemma_enqueue_all(t: Seq<SlotView>, key: KeyView, cmds: Seq<CommandView>, at: int)
    requires
        wf(t),
        holds(t, key, at),
    ensures
        wf(enqueue_all(t, key, cmds)),
        holds(enqueue_all(t, key, cmds), key, at),
        enqueue_all(t, key, cmds) == t.update(
            at,
            SlotView { queue: t[at].queue + cmds, ..t[at] },
        ),
    decreases cmds.len(),
{
    if cmds.len() == 0 {
        assert(t[at].queue + cmds =~= t[at].queue);
        assert(t =~= t.update(at, SlotView { queue: t[at].queue + cmds, ..t[at] }));
    } else {
        let front = cmds.drop_last();
        let mid = enqueue_all(t, key, front);
        lemma_enqueue_all(t, key, front, at);
        lemma_slot_of(mid, key, at);
        law_enqueue_keeps_sessions(mid, key, cmds.last(), key);
        assert((t[at].queue + front).push(cmds.last()) =~= t[at].queue + cmds);
        assert(enqueue(mid, key, cmds.last()) =~= t.update(
            at,
            SlotView { queue: t[at].queue + cmds, ..t[at] },
        ));
    }
}

/// A worker receives the commands of its queue from the front: after `n`
/// of them the rest of the queue waits, unchanged.
pub proof fn lemma_receive_n(t: Seq<SlotView>, ch: int, n: nat)
    requires
        0 <= ch < t.len(),
        t[ch].open,
        n <= t[ch].queue.len(),
    ensures
        receive_n(t, ch, n) == t.update(
            ch,
            SlotView { queue: t[ch].queue.skip(n as int), ..t[ch] },
        ),
    decreases n,
{
    if n == 0 {
        assert(t[ch].queue.skip(0) =~= t[ch].queue);
        assert(t =~= t.update(ch, SlotView { queue: t[ch].queue.skip(0), ..t[ch] }));
    } else {
        let m = (n - 1) as nat;
        lemma_receive_n(t, ch, m);
        let mid = receive_n(t, ch, m);
        assert(mid[ch].queue == t[ch].queue.skip(m as int));
        assert(mid[ch].queue.drop_first() =~= t[ch].queue.skip(n as int));
        assert(after_receive(mid, ch) =~= t.update(
            ch,
            SlotView { queue: t[ch].queue.skip(n as int), ..t[ch] },
        ));
    }
}

/// Writes reach the shell channel in the order in which they were posted.
/// After the payloads were written to a session, one after the other, its
/// worker first receives what waited before; its next steps then forward
/// the payloads, each exactly once and in order: step `k` after those
/// forwards payload `k`.
pub proof fn law_writes_keep_order(
    t: Seq<SlotView>,
    key: KeyView,
    payloads: Seq<Seq<u8>>,
    k: int,
)
    requires
        wf(t),
        registered(t, key),
        0 <= k < payloads.len(),
    ensures
        ({
            let ch = slot_of(t, key);
            let waiting = t[ch].queue.len();
            let posted = enqueue_all(t, key, write_commands(payloads));
            &&& posted[ch].queue == t[ch].queue + write_commands(payloads)
            &&& step_of_polled(next_polled(receive_n(posted, ch, (waiting + k) as nat), ch))
                == DrainView::Forward(payloads[k])
        }),
{
    let ch = slot_of(t, key);
    assert(holds(t, key, ch));
    let cmds = write_commands(payloads);
    let posted = enqueue_all(t, key, cmds);
    lemma_enqueue_all(t, key, cmds, ch);
    let waiting = t[ch].queue.len();
    assert(posted[ch].open);
    lemma_receive_n(posted, ch, (waiting + k) as nat);
    let then = receive_n(posted, ch, (waiting + k) as nat);
    assert(then[ch].queue == posted[ch].queue.skip(waiting + k));
    assert(then[ch].queue[0] == cmds[k]);
    assert(cmds[k] == CommandView::Write(payloads[k]));
}

/// The reply slots of two queues, one behind the other.
pub proof fn lemma_replies_concat(a: Seq<CommandView>, b: Seq<CommandView>)
    ensures
        replies_of(a + b) == replies_of(a) + replies_of(b),
    decreases b.len(),
{
    if b.len() == 0 {
        assert(a + b =~= a);
        assert(replies_of(a) + replies_of(b) =~= replies_of(a));
    } else {
        lemma_replies_concat(a, b.drop_last());
        assert((a + b).drop_last() =~= a + b.drop_last());
        assert((a + b).last() == b.last());
        match b.last() {
            CommandView::Exec { reply, .. } => {
                assert((replies_of(a) + replies_of(b.drop_last())).push(reply) =~= replies_of(a)
                    + replies_of(b.drop_last()).push(reply));
            },
            _ => {},
        }
    }
}

/// A one-shot command that was accepted waits in the queue of its session,
/// behind everything posted before, and its worker's step for it is to run
/// it and answer its reply slot.
pub proof fn law_exec_is_queued(
    t: Seq<SlotView>,
    key: KeyView,
    command: Seq<char>,
    reply: u64,
)
    requires
        wf(t),
        registered(t, key),
    ensures
        ({
            let ch = slot_of(t, key);
            let cmd = CommandView::Exec { command, reply };
            let posted = enqueue(t, key, cmd);
            &&& posted[ch].queue == t[ch].queue.push(cmd)
            &&& replies_of(posted[ch].queue) == replies_of(t[ch].queue).push(reply)
            &&& step_of_command(cmd) == (DrainView::Execute { command, reply })
        }),
{
    let ch = slot_of(t, key);
    assert(holds(t, key, ch));
    let cmd = CommandView::Exec { command, reply };
    assert(t[ch].queue.push(cmd).drop_last() =~= t[ch].queue);
}

/// No reply slot is lost and none is answered twice. Whenever a worker
/// ends, after it received `n` commands, the reply slots of its queue fall
/// into two parts: those of the commands it received, and those that its
/// end hands back to be answered with a failure.
pub proof fn law_every_exec_is_answered(t: Seq<SlotView>, ch: int, n: nat)
    requires
        0 <= ch < t.len(),
        t[ch].open,
        n <= t[ch].queue.len(),
    ensures
        replies_of(t[ch].queue) == replies_of(t[ch].queue.take(n as int)) + abandoned(
            receive_n(t, ch, n),
            ch,
        ),
        finish(receive_n(t, ch, n), ch)[ch] == vacant(),
{
    lemma_receive_n(t, ch, n);
    let q = t[ch].queue;
    assert(q.take(n as int) + q.skip(n as int) =~= q);
    lemma_replies_concat(q.take(n as int), q.skip(n as int));
}

/// A connection attempt: the stage it is in after its steps went as
/// `outcomes` says (nothing for a success, the cause for a failure), and
/// what the front end was told on the way.
pub open spec fn attempt(config: SshConnectionConfig, outcomes: Seq<Option<Seq<char>>>) -> (
    ConnectStage,
    Seq<NotificationView>,
)
    decreases outcomes.len(),
{
    if outcomes.len() == 0 {
        (ConnectStage::Resolving, Seq::empty())
    } else {
        let (stage, told) = attempt(config, outcomes.drop_last());
        let cause = outcomes.last();
        let next = next_stage(stage, config.credential_spec(), cause is None);
        (
            next,
            match notice_of(stage, config, cause) {
                Some(n) => told.push(n),
                None => told,
            },
        )
    }
}

/// An attempt is reported once. While it is under way the front end has
/// been told nothing; once it is over the front end has been told exactly
/// one thing, whatever is reported afterwards: an error if it failed,
/// `connected` if the session runs.
pub proof fn law_attempt_reported_once(
    config: SshConnectionConfig,
    outcomes: Seq<Option<Seq<char>>>,
)
    ensures
        ({
            let (stage, told) = attempt(config, outcomes);
            &&& told.len() == if stage.is_final() {
                1nat
            } else {
                0nat
            }
            &&& stage is Failed ==> told[0] is Error
            &&& stage is Running ==> (told[0] matches NotificationView::Status { status, .. }
                && status == SessionStatus::Connected)
        }),
    decreases outcomes.len(),
{
    if outcomes.len() > 0 {
        law_attempt_reported_once(config, outcomes.drop_last());
    }
}

/// The first failure ends an attempt: a failed attempt stays failed and
/// silent whatever is reported to it.
pub proof fn law_failure_is_final(
    config: SshConnectionConfig,
    outcomes: Seq<Option<Seq<char>>>,
    cause: Option<Seq<char>>,
)
    requires
        attempt(config, outcomes).0 is Failed,
    ensures
        attempt(config, outcomes.push(cause)) == attempt(config, outcomes),
{
    assert(outcomes.push(cause).drop_last() =~= outcomes);
}

/// Without a credential no session is ever established: the attempt never
/// gets past the handshake.
pub proof fn law_no_credential_never_runs(
    config: SshConnectionConfig,
    outcomes: Seq<Option<Seq<char>>>,
)
    requires
        config.credential_spec() is Missing,
    ensures
        ({
            let stage = attempt(config, outcomes).0;
            stage is Resolving || stage is Dialing || stage is Handshaking || stage is Failed
        }),
    decreases outcomes.len(),
{
    if outcomes.len() > 0 {
        law_no_credential_never_runs(config, outcomes.drop_last());
    }
}

} // verus!
