//! The state actor: exclusive owner of the dataset and the subscriber
//! registry.
//!
//! The actor is modelled as a plain state machine. Every operation the run
//! loop performs is a verified function here: construction validates the
//! dataset, [`GatewayActor::handle_message`] answers one mailbox message, and
//! [`GatewayActor::apply_tick`] prunes the registry after one broadcast
//! fan-out. The unverified shell owns the channels; subscribers appear here
//! as the identifiers it keys them by.

use vstd::prelude::*;

use crate::errors::DatasetLoadError;

verus! {

/// Capacity of the actor's bounded mailbox.
pub const MAILBOX_CAPACITY: usize = 100;

/// Milliseconds between two broadcast ticks.
pub const TICK_INTERVAL_MS: u64 = 500;

/// Number of records the dataset is required to have at startup.
pub const EXPECTED_RECORD_COUNT: usize = 500;

/// Capacity of the bounded output channel handed to each subscriber.
pub const SUBSCRIBER_CHANNEL_CAPACITY: usize = 10;

/// One request taken out of the actor's mailbox. The reply channels stay in
/// the shell; the actor answers with a [`GatewayReply`] that the shell routes
/// back to the caller.
#[derive(Clone, Copy, PartialEq, Eq, Structural, Debug)]
pub enum GatewayMessage {
    /// Ask for a point-in-time copy of the dataset.
    Read,
    /// Register a new subscriber and hand its identifier back.
    SubscribeSse,
    /// Ask how many subscribers are currently registered.
    GetSseCount,
}

/// The actor's answer to one [`GatewayMessage`].
#[derive(PartialEq, Eq, Debug)]
pub enum GatewayReply {
    /// A copy of the full current dataset.
    Data(Vec<String>),
    /// The identifier of the subscriber just registered.
    Subscribed(u64),
    /// The current size of the subscriber registry.
    Count(usize),
}

/// The mathematical state of the actor: the dataset, the registry as the
/// sequence of live subscriber identifiers in registration order, and the
/// identifier the next subscriber will receive.
pub ghost struct GatewayModel {
    pub data: Seq<String>,
    pub subscribers: Seq<u64>,
    pub next_id: u64,
}

/// Every registered identifier was handed out before `next_id`, so the next
/// identifier is fresh.
pub open spec fn wf_model(m: GatewayModel) -> bool {
    forall|i: int| 0 <= i < m.subscribers.len() ==> m.subscribers[i] < m.next_id
}

/// The state of a freshly constructed actor: the loaded dataset, no
/// subscribers yet.
pub open spec fn init_model(data: Seq<String>) -> GatewayModel {
    GatewayModel { data, subscribers: Seq::empty(), next_id: 0 }
}

/// How one message changes the actor's state: `SubscribeSse` appends a fresh
/// identifier to the registry; `Read` and `GetSseCount` change nothing.
pub open spec fn msg_step(m: GatewayModel, msg: GatewayMessage) -> GatewayModel {
    match msg {
        GatewayMessage::SubscribeSse => GatewayModel {
            data: m.data,
            subscribers: m.subscribers.push(m.next_id),
            next_id: (m.next_id + 1) as u64,
        },
        _ => m,
    }
}

/// The one correct reply to a message handled in state `m`: `Read` returns
/// exactly the dataset, `SubscribeSse` the fresh identifier, `GetSseCount`
/// the registry size.
pub open spec fn expected_reply(m: GatewayModel, msg: GatewayMessage, r: GatewayReply) -> bool {
    match msg {
        GatewayMessage::Read => r matches GatewayReply::Data(d) && d@ == m.data,
        GatewayMessage::SubscribeSse => r matches GatewayReply::Subscribed(id) && id == m.next_id,
        GatewayMessage::GetSseCount => r matches GatewayReply::Count(c) && c == m.subscribers.len(),
    }
}

/// The registry after one fan-out: of two equally long sequences, keep each
/// subscriber whose delivery succeeded, in the original order.
pub open spec fn retain_ok(subs: Seq<u64>, ok: Seq<bool>) -> Seq<u64>
    decreases subs.len(),
{
    if subs.len() == 0 {
        Seq::empty()
    } else {
        let prefix = retain_ok(subs.drop_last(), ok.drop_last());
        if ok.len() == subs.len() && ok.last() {
            prefix.push(subs.last())
        } else {
            prefix
        }
    }
}

/// How one tick changes the actor's state, given which deliveries succeeded:
/// the dataset and the identifier counter stay, the registry is pruned.
pub open spec fn tick_step(m: GatewayModel, ok: Seq<bool>) -> GatewayModel {
    GatewayModel { data: m.data, subscribers: retain_ok(m.subscribers, ok), next_id: m.next_id }
}

/// The state actor. The shell's run loop owns one value of this type and is
/// the only code that ever calls its mutating operations, so all access to
/// the dataset and the registry is serialized by construction.
pub struct GatewayActor {
    data: Vec<String>,
    subscribers: Vec<u64>,
    next_id: u64,
}

impl View for GatewayActor {
    type V = GatewayModel;

    closed spec fn view(&self) -> GatewayModel {
        GatewayModel { data: self.data@, subscribers: self.subscribers@, next_id: self.next_id }
    }
}

impl GatewayActor {
    /// The actor's invariant: every registered identifier is older than the
    /// next one to be handed out.
    pub open spec fn wf(&self) -> bool {
        wf_model(self@)
    }

    /// Validate the loaded dataset and construct the actor. Succeeds exactly
    /// when the loader delivered the required number of records; the actor
    /// never starts with a dataset of the wrong size.
    pub fn new(records: Vec<String>, expected: usize) -> (r: Result<GatewayActor, DatasetLoadError>)
        ensures
            records@.len() == expected ==> (r matches Ok(a) && a@ == init_model(records@) && a.wf()),
            records@.len() != expected ==> r == Result::<GatewayActor, DatasetLoadError>::Err(
                (DatasetLoadError::WrongCount { expected, actual: records@.len() as usize }),
            ),
    {
        let actual = records.len();
        if actual == expected {
            let actor = GatewayActor { data: records, subscribers: Vec::new(), next_id: 0 };
            proof {
                assert(actor@.subscribers =~= Seq::<u64>::empty());
            }
            Ok(actor)
        } else {
            Err(DatasetLoadError::WrongCount { expected, actual })
        }
    }

    /// A point-in-time copy of the dataset, element for element. Callers own
    /// the copy outright and never share memory with the actor.
    pub fn snapshot(&self) -> (r: Vec<String>)
        ensures
            r@ == self@.data,
    {
        let mut r: Vec<String> = Vec::new();
        let n = self.data.len();
        let mut i: usize = 0;
        while i < n
            invariant
                n == self.data.len(),
                i <= n,
                r@.len() == i,
                forall|j: int| 0 <= j < i ==> r@[j] == self.data@[j],
            decreases n - i,
        {
            r.push(self.data[i].clone());
            i += 1;
        }
        proof {
            assert(r@ =~= self@.data);
        }
        r
    }

    /// The current size of the subscriber registry.
    pub fn subscriber_count(&self) -> (n: usize)
        ensures
            n == self@.subscribers.len(),
    {
        self.subscribers.len()
    }

    /// The identifiers of the currently registered subscribers, in
    /// registration order. The shell keys its output channels by these.
    pub fn current_subscribers(&self) -> (ids: Vec<u64>)
        ensures
            ids@ == self@.subscribers,
    {
        let mut ids: Vec<u64> = Vec::new();
        let n = self.subscribers.len();
        let mut i: usize = 0;
        while i < n
            invariant
                n == self.subscribers.len(),
                i <= n,
                ids@.len() == i,
                forall|j: int| 0 <= j < i ==> ids@[j] == self.subscribers@[j],
            decreases n - i,
        {
            ids.push(self.subscribers[i]);
            i += 1;
        }
        proof {
            assert(ids@ =~= self@.subscribers);
        }
        ids
    }

    /// Handle one mailbox message: answer it and step the state. `Read` and
    /// `GetSseCount` leave the state untouched; `SubscribeSse` appends a
    /// fresh identifier to the registry. The reply is pinned exactly by
    /// [`expected_reply`], so a `Read` reply carries the dataset as loaded
    /// and a `GetSseCount` reply the exact registry size.
    pub fn handle_message(&mut self, msg: GatewayMessage) -> (r: GatewayReply)
        requires
            old(self).wf(),
            msg matches GatewayMessage::SubscribeSse ==> old(self)@.next_id < u64::MAX,
        ensures
            final(self).wf(),
            final(self)@ == msg_step(old(self)@, msg),
            expected_reply(old(self)@, msg, r),
    {
        let r = match msg {
            GatewayMessage::Read => GatewayReply::Data(self.snapshot()),
            GatewayMessage::SubscribeSse => {
                let id = self.next_id;
                self.subscribers.push(id);
                self.next_id = id + 1;
                GatewayReply::Subscribed(id)
            },
            GatewayMessage::GetSseCount => GatewayReply::Count(self.subscribers.len()),
        };
        proof {
            assert forall|i: int| 0 <= i < self@.subscribers.len() implies self@.subscribers[i]
                < self@.next_id by {
                if i < old(self)@.subscribers.len() {
                    assert(old(self)@.subscribers[i] < old(self)@.next_id);
                }
            }
        }
        r
    }

    /// Absorb the outcome of one broadcast fan-out. `delivered` reports, for
    /// each registered subscriber in registration order, whether the copy of
    /// the dataset reached it; every subscriber whose delivery failed is
    /// dropped, all others are retained in their original order. The dataset
    /// is untouched, and dropped identifiers are never reused.
    pub fn apply_tick(&mut self, delivered: &Vec<bool>)
        requires
            old(self).wf(),
            delivered@.len() == old(self)@.subscribers.len(),
        ensures
            final(self).wf(),
            final(self)@ == tick_step(old(self)@, delivered@),
    {
        let mut kept: Vec<u64> = Vec::new();
        let n = self.subscribers.len();
        let mut i: usize = 0;
        while i < n
            invariant
                old(self).wf(),
                self == old(self),
                n == self.subscribers.len(),
                delivered@.len() == n,
                i <= n,
                kept@ == retain_ok(self.subscribers@.take(i as int), delivered@.take(i as int)),
                forall|j: int| 0 <= j < kept@.len() ==> kept@[j] < self.next_id,
            decreases n - i,
        {
            proof {
                let s = self.subscribers@;
                let o = delivered@;
                assert(s.take(i + 1).drop_last() =~= s.take(i as int));
                assert(o.take(i + 1).drop_last() =~= o.take(i as int));
                assert(s.take(i + 1).last() == s[i as int]);
                assert(o.take(i + 1).last() == o[i as int]);
                assert(self@.subscribers[i as int] < self@.next_id);
            }
            if delivered[i] {
                kept.push(self.subscribers[i]);
            }
            i += 1;
        }
        proof {
            assert(self.subscribers@.take(n as int) =~= self.subscribers@);
            assert(delivered@.take(n as int) =~= delivered@);
        }
        self.subscribers = kept;
    }

    /// Whether a fresh subscriber identifier can still be handed out. The
    /// counter never wraps; the shell checks this before registering.
    pub fn has_id_capacity(&self) -> (b: bool)
        ensures
            b == (self@.next_id < u64::MAX),
    {
        self.next_id < u64::MAX
    }
}

} // verus!
