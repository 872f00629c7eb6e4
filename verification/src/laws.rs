//! The behavioural laws of the broadcasting core, stated over the actor
//! model and proved once and for all.
//!
//! The actor's lifetime is a sequence of events — mailbox messages
//! interleaved with broadcast ticks — folded over the step functions of
//! [`crate::gateway`]. The proof functions here state what any such history
//! guarantees: the dataset is never mutated, the registry grows by exactly
//! the subscriptions issued and shrinks only at tick boundaries, and reads
//! agree with each other.

use vstd::prelude::*;

use crate::gateway::GatewayMessage;
use crate::gateway::GatewayModel;
use crate::gateway::GatewayReply;
use crate::gateway::expected_reply;
use crate::gateway::msg_step;
use crate::gateway::retain_ok;
use crate::gateway::tick_step;

verus! {

/// One event of the actor's run loop: a mailbox message, or a broadcast tick
/// together with the delivery outcome of each registered subscriber.
pub ghost enum GatewayEvent {
    Message(GatewayMessage),
    Tick(Seq<bool>),
}

/// How one event changes the actor's state.
pub open spec fn event_step(m: GatewayModel, e: GatewayEvent) -> GatewayModel {
    match e {
        GatewayEvent::Message(msg) => msg_step(m, msg),
        GatewayEvent::Tick(ok) => tick_step(m, ok),
    }
}

/// The state after a whole history of events, processed one at a time in
/// order — the actor's run loop, folded.
pub open spec fn apply_events(m: GatewayModel, evts: Seq<GatewayEvent>) -> GatewayModel
    decreases evts.len(),
{
    if evts.len() == 0 {
        m
    } else {
        event_step(apply_events(m, evts.drop_last()), evts.last())
    }
}

/// The state after a run of messages with no tick in between.
pub open spec fn apply_msgs(m: GatewayModel, msgs: Seq<GatewayMessage>) -> GatewayModel
    decreases msgs.len(),
{
    if msgs.len() == 0 {
        m
    } else {
        msg_step(apply_msgs(m, msgs.drop_last()), msgs.last())
    }
}

/// How many of the messages are subscriptions.
pub open spec fn count_subscribes(msgs: Seq<GatewayMessage>) -> nat
    decreases msgs.len(),
{
    if msgs.len() == 0 {
        0
    } else {
        count_subscribes(msgs.drop_last()) + (if (msgs.last() matches GatewayMessage::SubscribeSse) {
            1int
        } else {
            0int
        }) as nat
    }
}

/// A tick on which every delivery succeeded removes nobody: the registry
/// comes out exactly as it went in.
pub proof fn lemma_retain_ok_all_delivered(subs: Seq<u64>, ok: Seq<bool>)
    requires
        ok.len() == subs.len(),
        forall|i: int| 0 <= i < ok.len() ==> ok[i],
    ensures
        retain_ok(subs, ok) == subs,
    decreases subs.len(),
{
    if subs.len() > 0 {
        lemma_retain_ok_all_delivered(subs.drop_last(), ok.drop_last());
        assert(retain_ok(subs, ok) =~= subs);
    } else {
        assert(retain_ok(subs, ok) =~= subs);
    }
}

/// A subscriber in last position whose delivery failed vanishes from the
/// result without disturbing what the earlier subscribers contribute.
pub proof fn lemma_retain_ok_last_failed(subs: Seq<u64>, ok: Seq<bool>, id: u64)
    requires
        ok.len() == subs.len(),
    ensures
        retain_ok(subs.push(id), ok.push(false)) == retain_ok(subs, ok),
{
    assert(subs.push(id).drop_last() =~= subs);
    assert(ok.push(false).drop_last() =~= ok);
}

/// Pruning never invents subscribers: whoever survives a fan-out was
/// registered before it, and the registry can only have become smaller.
pub proof fn lemma_retain_ok_is_selection(subs: Seq<u64>, ok: Seq<bool>)
    ensures
        retain_ok(subs, ok).len() <= subs.len(),
        forall|i: int|
            0 <= i < retain_ok(subs, ok).len() ==> subs.contains(#[trigger] retain_ok(subs, ok)[i]),
    decreases subs.len(),
{
    if subs.len() > 0 {
        lemma_retain_ok_is_selection(subs.drop_last(), ok.drop_last());
        let r = retain_ok(subs, ok);
        let p = retain_ok(subs.drop_last(), ok.drop_last());
        assert forall|i: int| 0 <= i < r.len() implies subs.contains(r[i]) by {
            if i < p.len() {
                assert(subs.drop_last().contains(p[i]));
                let j = choose|j: int| 0 <= j < subs.drop_last().len() && subs.drop_last()[j] == p[
                    i
                ];
                assert(subs[j] == r[i]);
            } else {
                assert(r[i] == subs.last());
            }
        }
    }
}

/// The registry never grows at a tick: a fan-out can only remove
/// subscribers, never add them.
pub proof fn lemma_tick_only_shrinks(m: GatewayModel, ok: Seq<bool>)
    ensures
        tick_step(m, ok).subscribers.len() <= m.subscribers.len(),
{
    lemma_retain_ok_is_selection(m.subscribers, ok);
}

/// Between ticks the registry only grows, and exactly by the subscriptions
/// issued: after any run of messages the subscriber count is the old count
/// plus the number of `SubscribeSse` messages among them, the subscribers
/// already present stay, in order, and the dataset is untouched.
pub proof fn lemma_count_after_messages(m: GatewayModel, msgs: Seq<GatewayMessage>)
    ensures
        apply_msgs(m, msgs).data == m.data,
        apply_msgs(m, msgs).subscribers.len() == m.subscribers.len() + count_subscribes(msgs),
        apply_msgs(m, msgs).subscribers.take(m.subscribers.len() as int) == m.subscribers,
    decreases msgs.len(),
{
    if msgs.len() == 0 {
        assert(m.subscribers.take(m.subscribers.len() as int) =~= m.subscribers);
    } else {
        lemma_count_after_messages(m, msgs.drop_last());
        let prev = apply_msgs(m, msgs.drop_last());
        match msgs.last() {
            GatewayMessage::SubscribeSse => {
                assert(prev.subscribers.push(prev.next_id).take(m.subscribers.len() as int)
                    =~= prev.subscribers.take(m.subscribers.len() as int));
            },
            _ => {},
        }
    }
}

/// A subscription followed at once by the subscriber going away costs the
/// registry exactly that one entry, and only at the tick: after the
/// `SubscribeSse` the count is one higher than before it; after the first
/// tick — on which the new subscriber's delivery fails and everyone else's
/// succeeds — the registry is exactly what it was before the subscription.
pub proof fn lemma_subscribe_close_then_tick(m: GatewayModel, ok: Seq<bool>)
    requires
        ok.len() == m.subscribers.len(),
        forall|i: int| 0 <= i < ok.len() ==> ok[i],
    ensures
        ({
            let after_subscribe = msg_step(m, GatewayMessage::SubscribeSse);
            let after_tick = tick_step(after_subscribe, ok.push(false));
            after_subscribe.subscribers.len() == m.subscribers.len() + 1
                && after_tick.subscribers == m.subscribers
                && after_tick.subscribers.len() + 1 == after_subscribe.subscribers.len()
        }),
{
    lemma_retain_ok_last_failed(m.subscribers, ok, m.next_id);
    lemma_retain_ok_all_delivered(m.subscribers, ok);
}

/// The dataset is immutable after load: no history of messages and ticks,
/// however interleaved, ever changes it. Every read therefore returns the
/// dataset exactly as it was loaded.
pub proof fn lemma_dataset_never_mutated(m: GatewayModel, evts: Seq<GatewayEvent>)
    ensures
        apply_events(m, evts).data == m.data,
    decreases evts.len(),
{
    if evts.len() > 0 {
        lemma_dataset_never_mutated(m, evts.drop_last());
    }
}

/// Reads do not interfere: any two `Read` replies produced in the same state
/// carry element-for-element the same snapshot, whichever caller they go to.
pub proof fn lemma_reads_agree(m: GatewayModel, r1: GatewayReply, r2: GatewayReply)
    requires
        expected_reply(m, GatewayMessage::Read, r1),
        expected_reply(m, GatewayMessage::Read, r2),
    ensures
        r1 matches GatewayReply::Data(d1) && (r2 matches GatewayReply::Data(d2) && d1@ == d2@),
{
}

} // verus!
