//! The session registry: at most one session per user key, each fed through
//! a bounded channel whose receiving end the session owns.
use vstd::prelude::*;
use std::collections::HashMap;
use tokio::sync::mpsc::{Receiver, Sender};
use crate::model::TelegramUserId;

verus! {

broadcast use vstd::std_specs::hash::group_hash_axioms;

/// The largest capacity a tokio channel accepts (`usize::MAX >> 3`).
pub const MAX_CHANNEL_CAPACITY: usize = usize::MAX / 8;

/// Capacity of the channel that feeds one session.
pub const SESSION_CHANNEL_CAPACITY: usize = 30;

/// Seconds a session waits for its next message before it ends.
pub const SESSION_IDLE_SECS: u64 = 60;

/// Seconds a dispatch waits for room in a full session channel before the
/// message is dropped.
pub const DISPATCH_SEND_TIMEOUT_SECS: u64 = 1;

/// tokio's sending end of a bounded channel, carried as it is.
#[verifier::external_type_specification]
#[verifier::external_body]
#[verifier::reject_recursive_types(T)]
pub struct ExSender<T>(tokio::sync::mpsc::Sender<T>);

/// tokio's receiving end of a bounded channel, carried as it is.
#[verifier::external_type_specification]
#[verifier::external_body]
#[verifier::reject_recursive_types(T)]
pub struct ExReceiver<T>(tokio::sync::mpsc::Receiver<T>);

/// Relies on `tokio::sync::mpsc::channel`, which panics when the capacity is
/// zero or above `MAX_CHANNEL_CAPACITY`.
pub assume_specification<T>[ tokio::sync::mpsc::channel::<T> ](buffer: usize) -> (Sender<T>, Receiver<T>)
    requires
        0 < buffer <= MAX_CHANNEL_CAPACITY,
;

/// tokio's error of a receive that found no message.
#[verifier::external_type_specification]
#[verifier::external_body]
pub struct ExTryRecvError(tokio::sync::mpsc::error::TryRecvError);

/// Relies on tokio's `Receiver::try_recv`: takes a queued message without
/// waiting, or fails when none is queued. Which of the two happens depends on
/// the other tasks, so nothing is promised of it.
pub assume_specification<T>[ tokio::sync::mpsc::Receiver::<T>::try_recv ](r: &mut Receiver<T>) -> Result<
    T,
    tokio::sync::mpsc::error::TryRecvError,
>;

/// Relies on `Clone` of tokio's `Sender`: another handle on the same channel
/// (the sender holds the channel behind an `Arc`, which the clone shares).
pub assume_specification<T>[ <tokio::sync::mpsc::Sender<T> as Clone>::clone ](s: &Sender<T>) -> (r: Sender<T>)
    ensures
        r == *s,
;

/// A session's hold on its key: the receiving end of the session's channel.
/// Whoever drops it hands the key back with `PubSub::unsubscribe`.
#[verifier::reject_recursive_types(V)]
pub struct Subscription<V> {
    key: TelegramUserId,
    receiver: Receiver<V>,
}

impl<V> Subscription<V> {
    pub closed spec fn key_spec(&self) -> TelegramUserId {
        self.key
    }

    /// The user key this session serves.
    pub fn get_key(&self) -> (r: &TelegramUserId)
        ensures
            *r == self.key_spec(),
    {
        &self.key
    }

    /// The receiving end of the session's channel.
    pub fn receiver(&mut self) -> (r: &mut Receiver<V>)
        ensures
            final(self).key_spec() == old(self).key_spec(),
    {
        &mut self.receiver
    }
}

/// Keys held after dispatching each of `keys` in turn to a registry that
/// holds `held`, with the number of sessions that were created on the way.
pub open spec fn dispatch_all(held: Set<TelegramUserId>, keys: Seq<TelegramUserId>) -> (Set<TelegramUserId>, nat)
    decreases keys.len(),
{
    if keys.len() == 0 {
        (held, 0)
    } else {
        let (before, created) = dispatch_all(held, keys.drop_last());
        let k = keys.last();
        (before.insert(k), if before.contains(k) { created } else { created + 1 })
    }
}

/// However many dispatches of one key come in before its session exists,
/// exactly one session is created for it.
pub proof fn lemma_one_session_per_key(held: Set<TelegramUserId>, k: TelegramUserId, keys: Seq<TelegramUserId>)
    requires
        !held.contains(k),
        keys.len() > 0,
        forall|i: int| 0 <= i < keys.len() ==> keys[i] == k,
    ensures
        dispatch_all(held, keys) == (held.insert(k), 1nat),
    decreases keys.len(),
{
    assert(keys.last() == keys[keys.len() - 1]);
    if keys.len() == 1 {
        assert(keys.drop_last() =~= Seq::<TelegramUserId>::empty());
        assert(dispatch_all(held, keys.drop_last()) == (held, 0nat));
    } else {
        lemma_one_session_per_key(held, k, keys.drop_last());
        assert(held.insert(k).insert(k) =~= held.insert(k));
    }
}

/// A key whose session was created and then released is dispatched as on
/// first contact: the registry is as if the key had never been seen, and the
/// next dispatch creates one fresh session.
pub proof fn lemma_released_key_is_fresh(held: Set<TelegramUserId>, k: TelegramUserId)
    requires
        !held.contains(k),
    ensures
        dispatch_all(held, seq![k]).0.remove(k) == held,
        dispatch_all(dispatch_all(held, seq![k]).0.remove(k), seq![k]) == dispatch_all(held, seq![k]),
        dispatch_all(held, seq![k]) == (held.insert(k), 1nat),
{
    lemma_one_session_per_key(held, k, seq![k]);
    assert(held.insert(k).remove(k) =~= held);
}

/// The registry from user key to the sending end of that user's session channel.
#[verifier::reject_recursive_types(V)]
pub struct PubSub<V> {
    subscribers: HashMap<TelegramUserId, Sender<V>>,
}

impl<V> View for PubSub<V> {
    type V = Set<TelegramUserId>;

    /// The keys that have a live session.
    closed spec fn view(&self) -> Set<TelegramUserId> {
        self.subscribers@.dom()
    }
}

impl<V> PubSub<V> {
    /// The sender registered for each key that has a live session.
    pub closed spec fn senders(&self) -> Map<TelegramUserId, Sender<V>> {
        self.subscribers@
    }
}

impl<V> Default for PubSub<V> {
    fn default() -> (r: PubSub<V>)
        ensures
            r@ == Set::<TelegramUserId>::empty(),
            r.senders() == Map::<TelegramUserId, Sender<V>>::empty(),
    {
        PubSub::new()
    }
}

impl<V> PubSub<V> {
    /// An empty registry.
    pub fn new() -> (r: PubSub<V>)
        ensures
            r@ == Set::<TelegramUserId>::empty(),
            r.senders() == Map::<TelegramUserId, Sender<V>>::empty(),
    {
        let r = PubSub { subscribers: HashMap::new() };
        assert(r@ =~= Set::<TelegramUserId>::empty());
        assert(r.senders() =~= Map::<TelegramUserId, Sender<V>>::empty());
        r
    }

    /// Whether `k` has a live session.
    pub fn contains(&self, k: TelegramUserId) -> (r: bool)
        ensures
            r == self@.contains(k),
    {
        self.subscribers.contains_key(&k)
    }

    /// The sender of `k`'s session. When `k` has none, a channel of capacity
    /// `buffer` is made, its sender registered under `k`, and its receiving end
    /// handed back in a new `Subscription` for the caller to run a session on.
    /// The senders of other keys stay as they were.
    pub fn subscribe_if_does_not_exist(&mut self, k: TelegramUserId, buffer: usize) -> (r: (
        Sender<V>,
        Option<Subscription<V>>,
    ))
        requires
            !old(self)@.contains(k) ==> 0 < buffer <= MAX_CHANNEL_CAPACITY,
        ensures
            final(self)@ == old(self)@.insert(k),
            old(self)@.contains(k) ==> r.0 == old(self).senders()[k] && final(self).senders()
                == old(self).senders(),
            !old(self)@.contains(k) ==> final(self).senders() == old(self).senders().insert(k, r.0),
            r.1 is Some <==> !old(self)@.contains(k),
            r.1 matches Some(s) ==> s.key_spec() == k,
            (final(self)@, if r.1 is Some { 1nat } else { 0nat }) == dispatch_all(old(self)@, seq![k]),
    {
        proof {
            assert(seq![k].drop_last() =~= Seq::<TelegramUserId>::empty());
            assert(seq![k].last() == k);
            assert(dispatch_all(self@, Seq::<TelegramUserId>::empty()) == (self@, 0nat));
        }
        match self.subscribers.get(&k) {
            Some(sender) => (sender.clone(), None),
            None => {
                let (tx, rx) = tokio::sync::mpsc::channel::<V>(buffer);
                let out = tx.clone();
                self.subscribers.insert(k, tx);
                (out, Some(Subscription { key: k, receiver: rx }))
            },
        }
    }

    /// Settles an idle session of key `k` from what a poll of its channel
    /// found: a queued message comes back and the session goes on; when the
    /// poll found none, `k` is released.
    pub fn settle_idle(&mut self, k: TelegramUserId, polled: Result<V, tokio::sync::mpsc::error::TryRecvError>) -> (r: Option<V>)
        ensures
            polled is Ok ==> r == Some(polled->Ok_0) && final(self)@ == old(self)@ && final(self).senders()
                == old(self).senders(),
            polled is Err ==> r is None && final(self)@ == old(self)@.remove(k) && final(self).senders()
                == old(self).senders().remove(k),
    {
        match polled {
            Ok(msg) => Some(msg),
            Err(_) => {
                self.unsubscribe(k);
                None
            },
        }
    }

    /// Ends an idle session without losing a message: polls the session's
    /// own channel and settles the session from what was found (see
    /// `settle_idle`). Called under the same lock as
    /// `subscribe_if_does_not_exist`, no dispatch can slip in between.
    pub fn release_if_idle(&mut self, sub: &mut Subscription<V>) -> (r: Option<V>)
        ensures
            final(sub).key_spec() == old(sub).key_spec(),
            r is Some ==> final(self)@ == old(self)@ && final(self).senders() == old(self).senders(),
            r is None ==> final(self)@ == old(self)@.remove(old(sub).key_spec()) && final(self).senders()
                == old(self).senders().remove(old(sub).key_spec()),
            r is None ==> !final(self)@.contains(old(sub).key_spec()),
    {
        let key = *sub.get_key();
        let polled = sub.receiver().try_recv();
        self.settle_idle(key, polled)
    }

    /// Releases `k`: afterwards the registry holds no session for it, and
    /// the senders of other keys stay as they were.
    pub fn unsubscribe(&mut self, k: TelegramUserId)
        ensures
            final(self)@ == old(self)@.remove(k),
            final(self).senders() == old(self).senders().remove(k),
            !final(self)@.contains(k),
    {
        self.subscribers.remove(&k);
        assert(self.senders() =~= old(self).senders().remove(k));
        assert(self@ =~= old(self)@.remove(k));
    }
}

} // verus!
