//! The receiver: one handler strategy bound to a message type `M`, a
//! response type `R` and an error type `E`.
//!
//! A receiver does not wait. Where a task would await a notification, the
//! functions here return what is to be awaited, and the caller awaits it.
//! The notifications themselves are the receiver's: it fires them as the
//! events of its strategy come in, and hands them out to those who wait.

pub use crate::any::{AnyReceiver, AnyWrapperRef};
pub use crate::context::{Permit, PermitDrop};
pub use crate::event::{Delivery, Event, Reaction, Signal};
pub use crate::stats::{ReceiverStats, Stats};

use crate::context::{ContextState, ReceiverContext};
use crate::envelop::{
    describes, into_boxed, opens_as, wraps, Envelope, Message, MessageInfo, TypeTag,
};
use crate::error::{Error, SendError, StdSyncSendError};
use crate::event::{deliver, hand_over, pending_after, reacts, responds, state_after};
use crate::signals::Signals;
use crate::waiters::{found, registered_under, without, Pending, Waiter, WaiterKind, Waiters};
use std::marker::PhantomData;
use std::sync::Arc;
use tokio::sync::oneshot::Sender;
use tokio::sync::Notify;
use vstd::prelude::*;

verus! {

/// A strategy that takes lifecycle actions. `B` is the bus it is run on.
pub trait SendUntypedReceiver<B>: Send + Sync {
    /// Delivers an action. Does not block; fails with `Closed` once the
    /// strategy has begun to shut down.
    fn send(&self, msg: Action, bus: &B) -> Result<(), SendError<Action>>;
}

/// A strategy that takes messages of type `M`.
pub trait SendTypedReceiver<M, B>: Sync {
    /// Enqueues a message under the id `mid`, or hands it back.
    fn send(&self, mid: u64, msg: M, bus: &B) -> Result<(), SendError<M>>;
}

/// Something that tells by tags which messages it handles.
pub trait TypeTagAccept {
    /// Whether messages with the tag `msg` are handled and, as far as they
    /// are given, answered by `resp` and failed with `err`.
    fn accept(&self, msg: &TypeTag, resp: Option<&TypeTag>, err: Option<&TypeTag>) -> bool;

    /// Shows `cb` the tags of each message type that is handled, with those
    /// of its response and its error, until `cb` returns `false`.
    fn iter_types<F: FnMut(&TypeTag, &TypeTag, &TypeTag) -> bool>(&self, cb: &mut F)
        requires
            forall|m: &TypeTag, r: &TypeTag, e: &TypeTag| call_requires(*old(cb), (m, r, e)),
    ;
}

/// What a receiver can be told to do.
#[non_exhaustive]
#[derive(Debug, Clone)]
pub enum Action {
    Init,
    Flush,
    Sync,
    Close,
    Stats,
}

/// What a producer is told after the strategy was handed its message.
pub open spec fn send_outcome<M>(r: Result<(), SendError<M>>) -> Result<(), Error<M>> {
    match r {
        Ok(()) => Ok(()),
        Err(e) => Err(Error::SendError(e)),
    }
}

/// Whether `res` is what the sender of an envelope is told after the
/// strategy answered `r`: the strategy's error, with the message that comes
/// back wrapped again. A full queue is reported as full, a closed strategy
/// as closed.
pub open spec fn boxed_send_outcome<M: Message>(
    r: Result<(), SendError<M>>,
    res: Result<(), Error<Envelope<M>>>,
) -> bool {
    match r {
        Ok(()) => res is Ok,
        Err(SendError::Closed(m)) => res matches Err(Error::SendError(SendError::Closed(b)))
            && wraps(b, m),
        Err(SendError::Full(m)) => res matches Err(Error::SendError(SendError::Full(b))) && wraps(
            b,
            m,
        ),
    }
}

/// Whether `res` is what a producer is told after `msg` was handed to the
/// strategy as it is.
pub open spec fn directly<M, B, S: SendTypedReceiver<M, B>>(
    strategy: &S,
    mid: u64,
    msg: M,
    bus: &B,
    res: Result<(), Error<M>>,
) -> bool {
    exists|r: Result<(), SendError<M>>| #[trigger]
        call_ensures(S::send, (strategy, mid, msg, bus), r) && res == send_outcome(r)
}

/// Whether `res` is what a producer is told after `msg` went to the strategy
/// in an envelope: wrapped as its type answered, taken by the receiver where
/// the envelope's tag is `msg_tag` and refused with `MessageCastError` where
/// it is not, and in case of an error taken out of the envelope again.
pub open spec fn relayed<M: Message, B, S: SendTypedReceiver<M, B>>(
    strategy: &S,
    msg_tag: Seq<char>,
    mid: u64,
    msg: M,
    bus: &B,
    res: Result<(), Error<M>>,
) -> bool {
    exists|e: Envelope<M>| #[trigger]
        wraps(e, msg) && if opens_as(e@, msg_tag) {
            directly(strategy, mid, msg, bus, res)
        } else {
            res == Err::<(), Error<M>>(Error::MessageCastError)
        }
}

/// The notification to wait for after an action was sent: the one that
/// answers it where the strategy took the action, none where it did not.
pub open spec fn awaited(r: Result<(), SendError<Action>>, signal: Signal) -> Option<Signal> {
    match r {
        Ok(()) => Some(signal),
        Err(_) => None,
    }
}

/// The tags that a receiver handles: those of its message type, its
/// response type and its error type.
pub struct TypeTags {
    pub msg: Seq<char>,
    pub resp: Seq<char>,
    pub err: Seq<char>,
}

impl TypeTags {
    /// Whether a message with the tag `msg` is handled and, as far as they
    /// are given, answered by `resp` and failed with `err`.
    pub open spec fn accepts(
        self,
        msg: Seq<char>,
        resp: Option<Seq<char>>,
        err: Option<Seq<char>>,
    ) -> bool {
        &&& msg == self.msg
        &&& resp matches Some(r) ==> r == self.resp
        &&& err matches Some(e) ==> e == self.err
    }
}

/// What a producer is told after the strategy was handed its message.
pub fn sent<M>(r: Result<(), SendError<M>>) -> (res: Result<(), Error<M>>)
    ensures
        res == send_outcome(r),
{
    match r {
        Ok(()) => Ok(()),
        Err(e) => Err(Error::SendError(e)),
    }
}

/// What the sender of an envelope is told after the strategy answered `r`.
pub fn boxed_sent<M: Message>(r: Result<(), SendError<M>>) -> (res: Result<(), Error<Envelope<M>>>)
    ensures
        boxed_send_outcome(r, res),
{
    match r {
        Ok(()) => Ok(()),
        Err(e) => Err(Error::SendError(e.into_boxed())),
    }
}

/// The notification to wait for after the strategy answered `r` to an
/// action that `signal` answers.
pub fn wait_for(r: Result<(), SendError<Action>>, signal: Signal) -> (wait: Option<Signal>)
    ensures
        wait == awaited(r, signal),
{
    match r {
        Ok(()) => Some(signal),
        Err(_) => None,
    }
}

/// What a requester is told after room was asked for its listener: the id
/// the listener got, or `AddListenerError` where there was no room.
pub open spec fn registration(inserted: Option<u64>) -> Result<u64, Error> {
    match inserted {
        Some(mid) => Ok(mid),
        None => Err(Error::AddListenerError),
    }
}

/// What a requester is told after room was asked for its listener.
pub fn registered(inserted: Option<u64>) -> (res: Result<u64, Error>)
    ensures
        res == registration(inserted),
{
    match inserted {
        Some(mid) => Ok(mid),
        None => Err(Error::AddListenerError),
    }
}

/// What a receiver is: the state of its context, its registered listeners,
/// its strategy, its name, the tag of its message type, what its response
/// type declared, the tag of its error type, its notifications, and whether
/// its strategy is reached directly or, as a relay is, through envelopes.
#[verifier::reject_recursive_types(R)]
#[verifier::reject_recursive_types(E)]
pub struct ReceiverView<R, E, S> {
    pub state: ContextState,
    pub pending: Pending<R, E>,
    pub strategy: S,
    pub name: Seq<char>,
    pub msg_tag: Seq<char>,
    pub resp: MessageInfo,
    pub err_tag: Seq<char>,
    pub signals: Signals,
    pub direct: bool,
}

impl<R, E, S> ReceiverView<R, E, S> {
    /// The tags that the receiver handles.
    pub open spec fn tags(self) -> TypeTags {
        TypeTags { msg: self.msg_tag, resp: self.resp.tag@, err: self.err_tag }
    }
}

/// One subscription: a strategy with its context and its listeners.
#[verifier::reject_recursive_types(R)]
#[verifier::reject_recursive_types(E)]
pub struct Receiver<M, R, E, S> {
    name: String,
    inner: S,
    waiters: Waiters<R, E>,
    context: ReceiverContext,
    msg_tag: TypeTag,
    resp: MessageInfo,
    err_tag: TypeTag,
    direct: bool,
    _m: PhantomData<(M, R, E)>,
}

impl<M, R, E, S> View for Receiver<M, R, E, S> {
    type V = ReceiverView<R, E, S>;

    closed spec fn view(&self) -> ReceiverView<R, E, S> {
        ReceiverView {
            state: self.context@,
            pending: self.waiters@,
            strategy: self.inner,
            name: self.name@,
            msg_tag: self.msg_tag@,
            resp: self.resp,
            err_tag: self.err_tag@,
            signals: self.context.signals(),
            direct: self.direct,
        }
    }
}

/// Whether `waiter` was registered between `before` and `after` with the
/// result `res`: under a fresh id, or not at all.
pub open spec fn registers<R, E, S>(
    before: ReceiverView<R, E, S>,
    after: ReceiverView<R, E, S>,
    waiter: Waiter<R, E>,
    res: Result<u64, Error>,
) -> bool {
    &&& after == (ReceiverView { pending: after.pending, ..before })
    &&& match res {
        Ok(mid) => registered_under(before.pending, after.pending, waiter, Some(mid)),
        Err(e) => e == Error::<(), crate::error::VoidError>::AddListenerError && after.pending
            == before.pending,
    }
}

impl<M: Message, R: Message, E: StdSyncSendError, S> Receiver<M, R, E, S> {
    /// What holds of every receiver: its listeners are in order.
    pub closed spec fn wf(&self) -> bool {
        self.waiters.wf()
    }

    /// A receiver around `inner` with the permit budget `limit`, for the
    /// message type tagged `msg_tag`, responses that travel under `resp` and
    /// the error type tagged `err_tag`. Nothing is under way, no listener is
    /// registered and no flag is set.
    pub fn with_types(
        name: String,
        limit: u64,
        inner: S,
        msg_tag: TypeTag,
        resp: MessageInfo,
        err_tag: TypeTag,
    ) -> (rcvr: Self)
        ensures
            rcvr.wf(),
            rcvr@ == (ReceiverView {
                state: ContextState::fresh(limit),
                pending: Map::<u64, Waiter<R, E>>::empty(),
                strategy: inner,
                name: name@,
                msg_tag: msg_tag@,
                resp,
                err_tag: err_tag@,
                signals: rcvr@.signals,
                direct: true,
            }),
    {
        Receiver {
            name,
            inner,
            waiters: Waiters::new(),
            context: ReceiverContext::new(limit),
            msg_tag,
            resp,
            err_tag,
            direct: true,
            _m: PhantomData,
        }
    }

    /// A receiver around a relay: as `with_types` makes it, but without a
    /// typed view. Messages reach the relay in envelopes, and `typed` and
    /// `wrapper` give nothing.
    pub fn new_relay(
        name: String,
        limit: u64,
        inner: S,
        msg_tag: TypeTag,
        resp: MessageInfo,
        err_tag: TypeTag,
    ) -> (rcvr: Self)
        ensures
            rcvr.wf(),
            rcvr@ == (ReceiverView {
                state: ContextState::fresh(limit),
                pending: Map::<u64, Waiter<R, E>>::empty(),
                strategy: inner,
                name: name@,
                msg_tag: msg_tag@,
                resp,
                err_tag: err_tag@,
                signals: rcvr@.signals,
                direct: false,
            }),
    {
        Receiver {
            name,
            inner,
            waiters: Waiters::new(),
            context: ReceiverContext::new(limit),
            msg_tag,
            resp,
            err_tag,
            direct: false,
            _m: PhantomData,
        }
    }

    /// A receiver around `inner` with the permit budget `limit`. The types
    /// `M`, `R` and `E` are asked once for their tags, which the receiver
    /// keeps. Nothing is under way, no listener is registered and no flag is
    /// set.
    pub fn new(name: String, limit: u64, inner: S) -> (rcvr: Self)
        ensures
            rcvr.wf(),
            rcvr@.state == ContextState::fresh(limit),
            rcvr@.pending == Map::<u64, Waiter<R, E>>::empty(),
            rcvr@.strategy == inner,
            rcvr@.name == name@,
            rcvr@.direct,
            exists|tag: TypeTag| #[trigger]
                call_ensures(M::type_tag_, (), tag) && rcvr@.msg_tag == tag@,
            describes::<R>(rcvr@.resp),
            exists|tag: TypeTag| #[trigger]
                call_ensures(E::type_tag_, (), tag) && rcvr@.err_tag == tag@,
    {
        let msg_tag = M::type_tag_();
        let resp = MessageInfo::of::<R>();
        let err_tag = E::type_tag_();
        assert(call_ensures(M::type_tag_, (), msg_tag));
        assert(call_ensures(E::type_tag_, (), err_tag));
        Self::with_types(name, limit, inner, msg_tag, resp, err_tag)
    }

    /// The name given to the receiver, for diagnostics.
    pub fn name(&self) -> (n: &str)
        ensures
            n@ == self@.name,
    {
        self.name.as_str()
    }

    /// The strategy that the receiver was made around.
    pub fn strategy(&self) -> (s: &S)
        ensures
            *s == self@.strategy,
    {
        &self.inner
    }

    /// Whether the receiver handles messages with the tag `msg` and, as far
    /// as they are given, answers with `resp` and fails with `err`.
    pub fn accept(&self, msg: &TypeTag, resp: Option<&TypeTag>, err: Option<&TypeTag>) -> (b: bool)
        ensures
            b == self@.tags().accepts(
                msg@,
                match resp {
                    Some(r) => Some(r@),
                    None => None,
                },
                match err {
                    Some(e) => Some(e@),
                    None => None,
                },
            ),
    {
        if let Some(resp) = resp {
            if *resp != self.resp.tag {
                return false;
            }
        }
        if let Some(err) = err {
            if *err != self.err_tag {
                return false;
            }
        }
        *msg == self.msg_tag
    }

    /// Shows `cb` the one triple of tags that the receiver handles: those of
    /// its message type, its response type and its error type.
    pub fn iter_types<F: FnMut(&TypeTag, &TypeTag, &TypeTag) -> bool>(&self, cb: &mut F)
        requires
            forall|m: &TypeTag, r: &TypeTag, e: &TypeTag| call_requires(*old(cb), (m, r, e)),
        ensures
            exists|m: &TypeTag, r: &TypeTag, e: &TypeTag, go: bool|
                #![trigger call_ensures(*old(cb), (m, r, e), go)]
                m@ == self@.msg_tag && r@ == self@.resp.tag@ && e@ == self@.err_tag && call_ensures(
                    *old(cb),
                    (m, r, e),
                    go,
                ),
    {
        let go = cb(&self.msg_tag, &self.resp.tag, &self.err_tag);
        assert(call_ensures(*old(cb), (&self.msg_tag, &self.resp.tag, &self.err_tag), go));
    }

    /// The strategy, to be recovered by naming the message type. A relay
    /// has no such view.
    pub fn typed(&self) -> (any: Option<AnyReceiver<'_, S>>)
        ensures
            self@.direct ==> (any matches Some(a) && a.token() == self@.msg_tag && *a.target()
                == self@.strategy),
            !self@.direct ==> any.is_none(),
    {
        if self.direct {
            Some(AnyReceiver::of_tag(&self.inner, self.msg_tag.clone()))
        } else {
            None
        }
    }

    /// The receiver, to be recovered by naming the response type, the error
    /// type or both. A relay has no such view.
    pub fn wrapper(&self) -> (any: Option<AnyWrapperRef<'_, Self>>)
        ensures
            self@.direct ==> (any matches Some(a) && a.ret_token() == self@.resp.tag@
                && a.error_token() == self@.err_tag && a.target() == self),
            !self@.direct ==> any.is_none(),
    {
        if self.direct {
            Some(AnyWrapperRef::of_tags(self, self.resp.tag.clone(), self.err_tag.clone()))
        } else {
            None
        }
    }

    /// The form in which a requester that wants the typed response and an
    /// erased error is to listen: for the typed response where the receiver
    /// has a typed view, and for the response in an envelope, to be opened
    /// when it has come, where it is a relay.
    pub fn response_form(&self) -> (kind: WaiterKind)
        ensures
            kind == if self@.direct {
                WaiterKind::WithoutErrorType
            } else {
                WaiterKind::Boxed
            },
    {
        if self.direct {
            WaiterKind::WithoutErrorType
        } else {
            WaiterKind::Boxed
        }
    }

    pub fn is_init_sent(&self) -> (b: bool)
        ensures
            b == self@.state.init_sent,
    {
        self.context.is_init_sent()
    }

    /// Whether the handler is ready; it never is after its initialization
    /// has failed.
    pub fn is_ready(&self) -> (b: bool)
        ensures
            b == self@.state.ready,
            self@.state.well_formed(),
    {
        self.context.is_ready()
    }

    pub fn need_flush(&self) -> (b: bool)
        ensures
            b == self@.state.need_flush,
    {
        self.context.need_flush()
    }

    /// The notification that is fired when the handler has exited.
    pub fn close_notify(&self) -> (notify: &Arc<Notify>)
        ensures
            *notify == self@.signals.of(Signal::Closed),
    {
        self.context.notify(Signal::Closed)
    }

    /// The notification that is fired when the handler has synchronized.
    pub fn sync_notify(&self) -> (notify: &Arc<Notify>)
        ensures
            *notify == self@.signals.of(Signal::Synchronized),
    {
        self.context.notify(Signal::Synchronized)
    }

    /// The notification that is fired when the handler has flushed.
    pub fn flush_notify(&self) -> (notify: &Arc<Notify>)
        ensures
            *notify == self@.signals.of(Signal::Flushed),
    {
        self.context.notify(Signal::Flushed)
    }

    /// The notification that is fired when the handler is ready, and when
    /// its initialization has failed.
    pub fn ready_notify(&self) -> (notify: &Arc<Notify>)
        ensures
            *notify == self@.signals.of(Signal::Ready),
    {
        self.context.notify(Signal::Ready)
    }

    /// The notification that is fired when a message was answered: what a
    /// task that found no permit waits for.
    pub fn reserve_notify(&self, tt: &TypeTag) -> (notify: &Arc<Notify>)
        ensures
            *notify == self@.signals.of(Signal::Response),
    {
        self.context.notify(Signal::Response)
    }

    /// The permits held and the messages under way; never above the budget.
    pub fn processing(&self) -> (n: u64)
        ensures
            n == self@.state.processing,
            n <= self@.state.limit,
    {
        self.context.processing()
    }

    /// The permit budget.
    pub fn limit(&self) -> (n: u64)
        ensures
            n == self@.state.limit,
    {
        self.context.limit()
    }

    /// Asks for a permit to send one message.
    ///
    /// A permit is given exactly when fewer than `limit` are counted; it is
    /// then counted itself.
    pub fn try_reserve(&mut self, tt: &TypeTag) -> (permit: Option<Permit>)
        ensures
            permit is Some <==> old(self)@.state.has_capacity(),
            permit matches Some(p) ==> !p.fused(),
            final(self)@ == (ReceiverView { state: old(self)@.state.reserve(), ..old(self)@ }),
            final(self).wf() == old(self).wf(),
    {
        self.context.try_reserve()
    }

    /// Takes a permit back. Unless the permit is fused, its place is freed
    /// and the `Response` notification is fired, so that a task that waits
    /// for a permit asks again. Returns the signal that was fired.
    pub fn release(&mut self, permit: Permit) -> (fired: Option<Signal>)
        ensures
            final(self)@ == (ReceiverView {
                state: if permit.fused() {
                    old(self)@.state
                } else {
                    old(self)@.state.release()
                },
                ..old(self)@
            }),
            fired == if permit.fused() {
                None
            } else {
                old(self)@.state.frees()
            },
            final(self).wf() == old(self).wf(),
    {
        permit.release(&mut self.context)
    }

    /// Hands a message to the strategy.
    ///
    /// The permit is used up whatever comes of it: its place stays taken
    /// until the handler answers. A receiver that takes no more messages
    /// hands the message back as `Closed` without asking the strategy.
    /// Otherwise the strategy decides. It is handed the message as it is
    /// where the receiver has a typed view; a relay is handed it in an
    /// envelope, and a message that comes back is taken out again.
    pub fn send<B>(&self, bus: &B, mid: u64, msg: M, permit: Permit) -> (res: Result<(), Error<M>>) where
        S: SendTypedReceiver<M, B>,

        ensures
            self@.state.closed() ==> res == Err::<(), Error<M>>(
                Error::SendError(SendError::Closed(msg)),
            ),
            !self@.state.closed() && self@.direct ==> directly(&self@.strategy, mid, msg, bus, res),
            !self@.state.closed() && !self@.direct ==> relayed(
                &self@.strategy,
                self@.msg_tag,
                mid,
                msg,
                bus,
                res,
            ),
    {
        let mut permit = permit;
        permit.fuse();
        self.force_send(bus, mid, msg)
    }

    /// Hands a message to the strategy without a permit.
    pub fn force_send<B>(&self, bus: &B, mid: u64, msg: M) -> (res: Result<(), Error<M>>) where
        S: SendTypedReceiver<M, B>,

        ensures
            self@.state.closed() ==> res == Err::<(), Error<M>>(
                Error::SendError(SendError::Closed(msg)),
            ),
            !self@.state.closed() && self@.direct ==> directly(&self@.strategy, mid, msg, bus, res),
            !self@.state.closed() && !self@.direct ==> relayed(
                &self@.strategy,
                self@.msg_tag,
                mid,
                msg,
                bus,
                res,
            ),
    {
        if self.context.is_closed() {
            return Err(Error::SendError(SendError::Closed(msg)));
        }
        if self.direct {
            let r = self.inner.send(mid, msg, bus);
            let res = sent(r);
            assert(call_ensures(S::send, (&self@.strategy, mid, msg, bus), r) && res == send_outcome(r));
            res
        } else {
            let envelope = into_boxed(msg);
            let boxed = self.pass_boxed(bus, mid, envelope);
            let res = match boxed {
                Ok(()) => Ok(()),
                Err(e) => Err(e.into_typed()),
            };
            proof {
                assert(envelope.payload == msg);
                if opens_as(envelope@, self@.msg_tag) {
                    let r = choose|r: Result<(), SendError<M>>|
                        call_ensures(S::send, (&self@.strategy, mid, envelope.payload, bus), r)
                            && boxed_send_outcome(r, boxed);
                    assert(call_ensures(S::send, (&self@.strategy, mid, msg, bus), r) && res
                        == send_outcome(r));
                    assert(directly(&self@.strategy, mid, msg, bus, res));
                }
                assert(wraps(envelope, msg));
            }
            res
        }
    }

    /// Hands the message in an envelope to the strategy, whatever the state
    /// of the receiver.
    fn pass_boxed<B>(&self, bus: &B, mid: u64, msg: Envelope<M>) -> (res: Result<
        (),
        Error<Envelope<M>>,
    >) where S: SendTypedReceiver<M, B>
        ensures
            !opens_as(msg@, self@.msg_tag) ==> res == Err::<(), Error<Envelope<M>>>(
                Error::MessageCastError,
            ),
            opens_as(msg@, self@.msg_tag) ==> exists|r: Result<(), SendError<M>>|
                call_ensures(S::send, (&self@.strategy, mid, msg.payload, bus), r)
                    && boxed_send_outcome(r, res),
    {
        match msg.downcast_as(&self.msg_tag) {
            Err(_) => Err(Error::MessageCastError),
            Ok(m) => {
                let r = self.inner.send(mid, m, bus);
                let res = boxed_sent(r);
                assert(call_ensures(S::send, (&self@.strategy, mid, msg.payload, bus), r)
                    && boxed_send_outcome(r, res));
                res
            },
        }
    }

    /// Hands the message in an envelope to the strategy.
    ///
    /// The permit is used up. An envelope with another tag than that of the
    /// receiver's message type is refused with `MessageCastError`. Where the
    /// strategy hands the message back, it comes back in its envelope, and a
    /// full queue is told apart from a closed strategy.
    pub fn send_boxed<B>(&self, bus: &B, mid: u64, msg: Envelope<M>, permit: Permit) -> (res: Result<
        (),
        Error<Envelope<M>>,
    >) where S: SendTypedReceiver<M, B>
        ensures
            self@.state.closed() ==> res == Err::<(), Error<Envelope<M>>>(
                Error::SendError(SendError::Closed(msg)),
            ),
            !self@.state.closed() && !opens_as(msg@, self@.msg_tag) ==> res == Err::<
                (),
                Error<Envelope<M>>,
            >(Error::MessageCastError),
            !self@.state.closed() && opens_as(msg@, self@.msg_tag) ==> exists|
                r: Result<(), SendError<M>>,
            |
                call_ensures(S::send, (&self@.strategy, mid, msg.payload, bus), r)
                    && boxed_send_outcome(r, res),
    {
        let mut permit = permit;
        permit.fuse();
        if self.context.is_closed() {
            return Err(Error::SendError(SendError::Closed(msg)));
        }
        self.pass_boxed(bus, mid, msg)
    }

    /// Hands an action to the strategy and reports what it said.
    pub fn send_action<B>(&self, bus: &B, action: Action) -> (res: Result<(), Error<Action>>) where
        S: SendUntypedReceiver<B>,

        ensures
            exists|r: Result<(), SendError<Action>>|
                call_ensures(S::send, (&self@.strategy, action, bus), r) && res == send_outcome(r),
    {
        let r = self.inner.send(action, bus);
        sent(r)
    }

    /// Registers a listener.
    ///
    /// Returns the id under which the response will be looked for; the id
    /// was free. Fails with `AddListenerError`, changes nothing and drops
    /// the listener where the slab has no room.
    pub fn add_response_listener(&mut self, waiter: Waiter<R, E>) -> (res: Result<u64, Error>)
        requires
            old(self).wf(),
        ensures
            final(self).wf(),
            registers(old(self)@, final(self)@, waiter, res),
    {
        registered(self.waiters.insert(waiter))
    }

    /// Registers a listener for the typed response and an erased error.
    pub fn add_response_waiter(&mut self, listener: Sender<Result<R, Error>>) -> (res: Result<
        u64,
        Error,
    >)
        requires
            old(self).wf(),
        ensures
            final(self).wf(),
            registers(old(self)@, final(self)@, Waiter::WithoutErrorType(listener), res),
    {
        self.add_response_listener(Waiter::WithoutErrorType(listener))
    }

    /// Registers a listener for the typed response and the typed error.
    pub fn add_response_waiter_we(&mut self, listener: Sender<Result<R, Error<(), E>>>) -> (res:
        Result<u64, Error>)
        requires
            old(self).wf(),
        ensures
            final(self).wf(),
            registers(old(self)@, final(self)@, Waiter::WithErrorType(listener), res),
    {
        self.add_response_listener(Waiter::WithErrorType(listener))
    }

    /// Registers a listener for the response in an envelope and an erased
    /// error.
    pub fn add_response_waiter_boxed(&mut self, listener: Sender<Result<Envelope<R>, Error>>) -> (res:
        Result<u64, Error>)
        requires
            old(self).wf(),
        ensures
            final(self).wf(),
            registers(old(self)@, final(self)@, Waiter::Boxed(listener), res),
    {
        self.add_response_listener(Waiter::Boxed(listener))
    }

    /// Registers a listener for the response in an envelope and the typed
    /// error.
    pub fn add_response_waiter_boxed_we(
        &mut self,
        listener: Sender<Result<Envelope<R>, Error<(), E>>>,
    ) -> (res: Result<u64, Error>)
        requires
            old(self).wf(),
        ensures
            final(self).wf(),
            registers(old(self)@, final(self)@, Waiter::BoxedWithError(listener), res),
    {
        self.add_response_listener(Waiter::BoxedWithError(listener))
    }

    /// Hands a response to its listener.
    ///
    /// Where a listener is registered under `mid`, it is taken out and the
    /// response is handed to it in the form it asked for: its channel takes
    /// the response, or the response comes back because the requester has
    /// stopped listening. Where none is registered, nothing is returned: the
    /// response is to be dropped.
    pub fn response(&mut self, mid: u64, resp: Result<R, Error<(), E>>) -> (outcome: Option<
        Result<(), Delivery<R, E>>,
    >)
        requires
            old(self).wf(),
        ensures
            final(self).wf(),
            final(self)@ == (ReceiverView {
                pending: without(old(self)@.pending, mid),
                ..old(self)@
            }),
            match found(old(self)@.pending, mid) {
                Some(waiter) => outcome matches Some(o) && responds(
                    waiter,
                    resp,
                    old(self)@.resp,
                    o,
                ),
                None => outcome is None,
            },
    {
        match self.waiters.take(mid) {
            Some(waiter) => {
                let delivery = deliver(waiter.kind(), resp, &self.resp);
                Some(hand_over(waiter, delivery))
            },
            None => None,
        }
    }

    /// Takes in one event of the strategy.
    ///
    /// Takes the event in, fires the signal that the reaction names, and
    /// returns the reaction. A response has freed its place and was handed
    /// to its listener before the signal is fired, so that whoever is woken
    /// finds the place free. The handler's exit drops the listeners that
    /// still wait: their requesters find the channel closed.
    pub fn handle_event(&mut self, event: Event<R, E>) -> (reaction: Reaction<R, E>)
        requires
            old(self).wf(),
        ensures
            final(self).wf(),
            final(self)@ == (ReceiverView {
                state: state_after(old(self)@.state, event),
                pending: pending_after(old(self)@.state, old(self)@.pending, event),
                ..old(self)@
            }),
            reacts(old(self)@.state, old(self)@.pending, old(self)@.resp, event, reaction),
    {
        if self.context.is_exited() {
            return Reaction::Idle;
        }
        let reaction = match event {
            Event::Pause => {
                self.context.set_ready(false);
                Reaction::Idle
            },
            Event::Ready => {
                let ready = !self.context.is_init_failed();
                self.context.set_ready(ready);
                Reaction::Notify(Signal::Ready)
            },
            Event::InitFailed(err) => {
                self.context.set_init_failed();
                Reaction::InitFailed(err)
            },
            Event::Exited => {
                self.context.set_exited();
                self.waiters.clear();
                Reaction::Exit
            },
            Event::Flushed => Reaction::Notify(Signal::Flushed),
            Event::Synchronized(_res) => Reaction::Notify(Signal::Synchronized),
            Event::Response(mid, resp) => {
                let _ = self.context.lower();
                let outcome = self.response(mid, resp);
                Reaction::Response { mid, outcome }
            },
            Event::Stats(stats) => Reaction::Stats(stats),
        };
        match reaction.signal() {
            Some(signal) => self.context.fire(signal),
            None => {},
        }
        reaction
    }

    /// Issues the `Init` action, the first time it is asked for. Any later
    /// call succeeds without asking the strategy.
    pub fn init<B>(&mut self, bus: &B) -> (res: Result<(), Error<Action>>) where
        S: SendUntypedReceiver<B>,

        ensures
            final(self)@ == (ReceiverView { state: old(self)@.state.init(), ..old(self)@ }),
            final(self).wf() == old(self).wf(),
            !old(self)@.state.issues_init() ==> res == Ok::<(), Error<Action>>(()),
            old(self)@.state.issues_init() ==> exists|r: Result<(), SendError<Action>>|
                call_ensures(S::send, (&old(self)@.strategy, Action::Init, bus), r) && res
                    == send_outcome(r),
    {
        if self.context.mark_init() {
            self.send_action(bus, Action::Init)
        } else {
            Ok(())
        }
    }

    /// Asks for the polling of the strategy's events to start. Tells whether
    /// it is to be started: the first time only, so that the events of one
    /// receiver are never polled twice.
    pub fn start_polling(&mut self) -> (start: bool)
        ensures
            start == old(self)@.state.starts_polling(),
            final(self)@ == (ReceiverView { state: old(self)@.state.poll(), ..old(self)@ }),
            final(self).wf() == old(self).wf(),
    {
        self.context.mark_polling()
    }

    /// What to wait for before the receiver can be used: the `Ready` signal,
    /// or nothing where the handler is ready.
    pub fn ready(&self) -> (wait: Option<Signal>)
        ensures
            wait == if self@.state.ready {
                None
            } else {
                Some(Signal::Ready)
            },
    {
        if self.context.is_ready() {
            None
        } else {
            Some(Signal::Ready)
        }
    }

    /// Sends `action`, unless the handler has exited, and tells what to wait
    /// for: `signal` where the strategy took the action, nothing otherwise.
    fn request<B>(&self, bus: &B, action: Action, signal: Signal) -> (wait: Option<Signal>) where
        S: SendUntypedReceiver<B>,

        ensures
            self@.state.exited ==> wait.is_none(),
            !self@.state.exited ==> exists|r: Result<(), SendError<Action>>|
                call_ensures(S::send, (&self@.strategy, action, bus), r) && wait == awaited(r, signal),
    {
        if self.context.is_exited() {
            return None;
        }
        let r = self.inner.send(action, bus);
        let wait = wait_for(r, signal);
        assert(call_ensures(S::send, (&self@.strategy, action, bus), r) && wait == awaited(r, signal));
        wait
    }

    /// Asks the handler to close. Tells what to wait for: the `Closed`
    /// signal where the strategy took the action, nothing where it refused
    /// or where the handler has exited already.
    pub fn close<B>(&self, bus: &B) -> (wait: Option<Signal>) where S: SendUntypedReceiver<B>
        ensures
            self@.state.exited ==> wait.is_none(),
            !self@.state.exited ==> exists|r: Result<(), SendError<Action>>|
                call_ensures(S::send, (&self@.strategy, Action::Close, bus), r) && wait == awaited(
                    r,
                    Signal::Closed,
                ),
    {
        self.request(bus, Action::Close, Signal::Closed)
    }

    /// Asks the handler to synchronize; tells what to wait for.
    pub fn sync<B>(&self, bus: &B) -> (wait: Option<Signal>) where S: SendUntypedReceiver<B>
        ensures
            self@.state.exited ==> wait.is_none(),
            !self@.state.exited ==> exists|r: Result<(), SendError<Action>>|
                call_ensures(S::send, (&self@.strategy, Action::Sync, bus), r) && wait == awaited(
                    r,
                    Signal::Synchronized,
                ),
    {
        self.request(bus, Action::Sync, Signal::Synchronized)
    }

    /// Asks the handler to flush; tells what to wait for.
    pub fn flush<B>(&self, bus: &B) -> (wait: Option<Signal>) where S: SendUntypedReceiver<B>
        ensures
            self@.state.exited ==> wait.is_none(),
            !self@.state.exited ==> exists|r: Result<(), SendError<Action>>|
                call_ensures(S::send, (&self@.strategy, Action::Flush, bus), r) && wait == awaited(
                    r,
                    Signal::Flushed,
                ),
    {
        self.request(bus, Action::Flush, Signal::Flushed)
    }
}

impl<M: Message, R: Message, E: StdSyncSendError, S> PermitDrop for Receiver<M, R, E, S> {
    /// Frees the place of a permit that comes back unused and fires the
    /// `Response` notification, where a place was counted. Returns the
    /// signal that was fired.
    fn permit_drop(&mut self) -> (fired: Option<Signal>)
        ensures
            final(self)@ == (ReceiverView { state: old(self)@.state.release(), ..old(self)@ }),
            fired == old(self)@.state.frees(),
            final(self).wf() == old(self).wf(),
    {
        self.context.permit_drop()
    }
}

impl<M: Message, R: Message, E: StdSyncSendError, S> TypeTagAccept for Receiver<M, R, E, S> {
    fn accept(&self, msg: &TypeTag, resp: Option<&TypeTag>, err: Option<&TypeTag>) -> (b: bool)
        ensures
            b == self@.tags().accepts(
                msg@,
                match resp {
                    Some(r) => Some(r@),
                    None => None,
                },
                match err {
                    Some(e) => Some(e@),
                    None => None,
                },
            ),
    {
        Receiver::accept(self, msg, resp, err)
    }

    fn iter_types<F: FnMut(&TypeTag, &TypeTag, &TypeTag) -> bool>(&self, cb: &mut F)
        ensures
            exists|m: &TypeTag, r: &TypeTag, e: &TypeTag, go: bool|
                #![trigger call_ensures(*old(cb), (m, r, e), go)]
                m@ == self@.msg_tag && r@ == self@.resp.tag@ && e@ == self@.err_tag && call_ensures(
                    *old(cb),
                    (m, r, e),
                    go,
                ),
    {
        Receiver::iter_types(self, cb)
    }
}

} // verus!
