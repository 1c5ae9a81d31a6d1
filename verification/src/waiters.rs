//! The listeners that wait for responses.
//!
//! A requester that wants the response to its message registers a listener:
//! the sending end of a `tokio` oneshot channel, in one of four forms. It is
//! given the id under which the response will be looked for. The ids are
//! given out by a `sharded_slab::Slab`, which remembers the form of each
//! listener; the channels are kept beside it under the same ids.
//!
//! The slab has the default configuration, which reserves no bit of a key:
//! an id may be any value of `usize`, the highest bit included. A caller
//! that packs other data into an id has no bit to rely on.

use crate::envelop::Envelope;
use crate::error::Error;
use std::collections::HashMap;
use tokio::sync::oneshot::Sender;
use vstd::prelude::*;

verus! {

broadcast use vstd::std_specs::hash::group_hash_axioms;

/// The form in which a listener wants the response.
#[derive(Clone, Copy, Debug, PartialEq, Eq, Structural)]
pub enum WaiterKind {
    /// The typed response or the handler's typed error.
    WithErrorType,
    /// The typed response or an erased error.
    WithoutErrorType,
    /// The response in an envelope or an erased error.
    Boxed,
    /// The response in an envelope or the handler's typed error.
    BoxedWithError,
}

/// A `sharded_slab::Slab` of listener forms, with the default configuration
/// (no bit of a key is reserved).
///
/// Nothing is known of it but what `slab_entries` names and what the three
/// functions below state.
#[verifier::external_body]
pub struct WaiterSlab {
    slab: sharded_slab::Slab<WaiterKind>,
}

/// The entries of a slab: each key that `Slab::insert` has given out and
/// `Slab::take` has not yet been given back, with the value stored under it.
pub uninterp spec fn slab_entries(slab: WaiterSlab) -> Map<usize, WaiterKind>;

/// `sharded_slab::Slab::new`: a slab without entries.
#[verifier::external_body]
fn slab_new() -> (res: WaiterSlab)
    ensures
        slab_entries(res).dom() == Set::<usize>::empty(),
{
    WaiterSlab { slab: sharded_slab::Slab::new() }
}

/// `sharded_slab::Slab::insert`, called by the slab's only holder.
///
/// Where it returns a key, the key held no entry before and holds `kind`
/// now, and no other entry has changed. Where it returns nothing (the
/// calling thread's shard is full), the slab is as it was. `insert` asserts
/// that the calling thread's index is below the configured maximum of 4096
/// threads; the contract speaks of the calls that return.
#[verifier::external_body]
fn slab_insert(slab: &mut WaiterSlab, kind: WaiterKind) -> (key: Option<usize>)
    ensures
        key matches Some(k) ==> !slab_entries(*old(slab)).contains_key(k) && slab_entries(
            *final(slab),
        ) == slab_entries(*old(slab)).insert(k, kind),
        key is None ==> slab_entries(*final(slab)) == slab_entries(*old(slab)),
{
    slab.slab.insert(kind)
}

/// `sharded_slab::Slab::take`, called by the slab's only holder, who has
/// lent no entry out, with a key that holds an entry.
///
/// The value of the entry is returned and the entry is gone, all others
/// staying. A key that holds no entry is not to be handed to `take`: where
/// such a key names a vacant slot, `take` puts the slot on the free list a
/// second time, and the slab would give one key out twice.
#[verifier::external_body]
fn slab_take(slab: &mut WaiterSlab, key: usize) -> (kind: Option<WaiterKind>)
    requires
        slab_entries(*old(slab)).contains_key(key),
    ensures
        kind == Some(slab_entries(*old(slab))[key]) && slab_entries(*final(slab)) == slab_entries(
            *old(slab),
        ).remove(key),
{
    slab.slab.take(key)
}

/// The sending end of a `tokio` oneshot channel. What is known of it is
/// what `oneshot_send` states.
#[verifier::external_type_specification]
#[verifier::external_body]
#[verifier::reject_recursive_types(T)]
pub struct ExSender<T>(Sender<T>);

/// `tokio::sync::oneshot::Sender::send`: tries to hand `value` to the
/// receiving end. Where that end is gone, the value comes back.
#[verifier::external_body]
pub(crate) fn oneshot_send<T>(tx: Sender<T>, value: T) -> (sent: Result<(), T>)
    ensures
        sent matches Err(back) ==> back == value,
{
    tx.send(value)
}

/// A listener: the channel that takes the response, in the form the
/// requester asked for.
#[derive(Debug)]
#[verifier::reject_recursive_types(R)]
#[verifier::reject_recursive_types(E)]
pub enum Waiter<R, E> {
    /// Wants the typed response or the handler's typed error.
    WithErrorType(Sender<Result<R, Error<(), E>>>),
    /// Wants the typed response or an erased error.
    WithoutErrorType(Sender<Result<R, Error>>),
    /// Wants the response in an envelope or an erased error.
    Boxed(Sender<Result<Envelope<R>, Error>>),
    /// Wants the response in an envelope or the handler's typed error.
    BoxedWithError(Sender<Result<Envelope<R>, Error<(), E>>>),
}

impl<R, E> Waiter<R, E> {
    /// The form in which the listener wants the response.
    pub open spec fn form(self) -> WaiterKind {
        match self {
            Waiter::WithErrorType(_) => WaiterKind::WithErrorType,
            Waiter::WithoutErrorType(_) => WaiterKind::WithoutErrorType,
            Waiter::Boxed(_) => WaiterKind::Boxed,
            Waiter::BoxedWithError(_) => WaiterKind::BoxedWithError,
        }
    }

    /// The form in which the listener wants the response.
    pub fn kind(&self) -> (k: WaiterKind)
        ensures
            k == self.form(),
    {
        match self {
            Waiter::WithErrorType(_) => WaiterKind::WithErrorType,
            Waiter::WithoutErrorType(_) => WaiterKind::WithoutErrorType,
            Waiter::Boxed(_) => WaiterKind::Boxed,
            Waiter::BoxedWithError(_) => WaiterKind::BoxedWithError,
        }
    }
}

/// The listeners that are registered and whose response has not come, by
/// id.
pub type Pending<R, E> = Map<u64, Waiter<R, E>>;

/// The listeners after `mid` has been looked up: it is no longer among them.
pub open spec fn without<R, E>(pending: Pending<R, E>, mid: u64) -> Pending<R, E> {
    pending.remove(mid)
}

/// The listener found under `mid`, if one is registered there.
pub open spec fn found<R, E>(pending: Pending<R, E>, mid: u64) -> Option<Waiter<R, E>> {
    if pending.contains_key(mid) {
        Some(pending[mid])
    } else {
        None
    }
}

/// The listeners after `waiter` was offered for registration with the
/// result `mid`: registered under a fresh id, or unchanged where there was
/// no room. An id is a key of the slab: it lies in the range of `usize`, of
/// which no bit is reserved.
pub open spec fn registered_under<R, E>(
    before: Pending<R, E>,
    after: Pending<R, E>,
    waiter: Waiter<R, E>,
    mid: Option<u64>,
) -> bool {
    match mid {
        Some(m) => m <= usize::MAX && !before.contains_key(m) && after == before.insert(m, waiter),
        None => after == before,
    }
}

/// A listener is found at most once: after the id was looked up, no
/// listener is registered under it, so that a second response for it finds
/// none. The listeners under other ids stay as they are.
pub proof fn lemma_found_once<R, E>(pending: Pending<R, E>, mid: u64, other: u64)
    ensures
        found(without(pending, mid), mid).is_none(),
        other != mid ==> found(without(pending, mid), other) == found(pending, other),
{
}

/// A listener that was registered under an id is found under it, as long as
/// the id is not looked up, whatever other listeners are taken out.
pub proof fn lemma_registered_is_found<R, E>(
    pending: Pending<R, E>,
    mid: u64,
    waiter: Waiter<R, E>,
    other: u64,
)
    ensures
        found(pending.insert(mid, waiter), mid) == Some(waiter),
        other != mid ==> found(without(pending.insert(mid, waiter), other), mid) == Some(waiter),
{
}

/// The registered listeners of one receiver.
#[verifier::reject_recursive_types(R)]
#[verifier::reject_recursive_types(E)]
pub struct Waiters<R, E> {
    slab: WaiterSlab,
    listeners: HashMap<u64, Waiter<R, E>>,
}

impl<R, E> View for Waiters<R, E> {
    type V = Pending<R, E>;

    /// The listeners that are registered, by id.
    closed spec fn view(&self) -> Pending<R, E> {
        self.listeners@
    }
}

impl<R, E> Waiters<R, E> {
    /// What holds of the listeners of every receiver: each is kept under an
    /// id that the slab has given out, and the slab remembers its form.
    pub closed spec fn wf(&self) -> bool {
        forall|mid: u64| #[trigger]
            self.listeners@.contains_key(mid) ==> mid <= usize::MAX && slab_entries(
                self.slab,
            ).contains_key(mid as usize) && slab_entries(self.slab)[mid as usize]
                == self.listeners@[mid].form()
    }

    /// No listeners.
    pub fn new() -> (w: Self)
        ensures
            w.wf(),
            w@ == Map::<u64, Waiter<R, E>>::empty(),
    {
        Waiters { slab: slab_new(), listeners: HashMap::new() }
    }

    /// Registers a listener.
    ///
    /// The id that is returned was free and now holds the listener; no other
    /// listener is touched. Where the slab has no room, nothing is returned,
    /// nothing changes, and the listener is dropped.
    pub fn insert(&mut self, waiter: Waiter<R, E>) -> (mid: Option<u64>)
        requires
            old(self).wf(),
        ensures
            final(self).wf(),
            registered_under(old(self)@, final(self)@, waiter, mid),
    {
        let key = slab_insert(&mut self.slab, waiter.kind());
        self.record(key, waiter)
    }

    /// Whether the slab remembers the form `kind` under `key`.
    pub closed spec fn remembers(&self, key: usize, kind: WaiterKind) -> bool {
        slab_entries(self.slab).contains_key(key) && slab_entries(self.slab)[key] == kind
    }

    /// Keeps a listener under the key that the slab gave out for it, and
    /// returns the key as the listener's id. Where the slab gave no key, the
    /// listener is dropped and nothing changes.
    fn record(&mut self, key: Option<usize>, waiter: Waiter<R, E>) -> (mid: Option<u64>)
        requires
            old(self).wf(),
            key matches Some(k) ==> old(self).remembers(k, waiter.form()) && !old(
                self,
            )@.contains_key(k as u64),
        ensures
            final(self).wf(),
            mid == match key {
                Some(k) => Some(k as u64),
                None => None,
            },
            final(self)@ == match key {
                Some(k) => old(self)@.insert(k as u64, waiter),
                None => old(self)@,
            },
    {
        match key {
            Some(k) => {
                let mid = k as u64;
                self.listeners.insert(mid, waiter);
                Some(mid)
            },
            None => None,
        }
    }

    /// Takes the listener registered under `mid` out.
    ///
    /// Returns it, or nothing where no listener is registered under `mid`;
    /// afterwards none is. The slab is asked only for an id that holds a
    /// listener: an id that holds none leaves it untouched.
    pub fn take(&mut self, mid: u64) -> (waiter: Option<Waiter<R, E>>)
        requires
            old(self).wf(),
        ensures
            final(self).wf(),
            waiter == found(old(self)@, mid),
            final(self)@ == without(old(self)@, mid),
    {
        let waiter = self.listeners.remove(&mid);
        if waiter.is_some() {
            let _ = slab_take(&mut self.slab, mid as usize);
        }
        waiter
    }

    /// Drops every listener: each requester finds its channel closed. The
    /// ids of the dropped listeners are not given out again.
    pub fn clear(&mut self)
        ensures
            final(self).wf(),
            final(self)@ == Map::<u64, Waiter<R, E>>::empty(),
    {
        self.listeners.clear();
    }
}

} // verus!
