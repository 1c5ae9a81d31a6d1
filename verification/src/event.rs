//! The events of a strategy and what a receiver makes of them.
//!
//! A strategy reports what happens to it as events. Each event changes the
//! state of the receiver's context in a fixed way and asks for a fixed
//! reaction. A response is handed to the channel of its listener at once;
//! waking those that wait and ending the polling is for the caller to do.

use crate::context::ContextState;
use crate::envelop::{wrapped, Envelope, MessageInfo};
use crate::error::{is_dyn_of, Error, StdSyncSendError};
pub use crate::signals::Signal;
use crate::stats::Stats;
use crate::waiters::{found, oneshot_send, without, Pending, Waiter, WaiterKind};
use vstd::prelude::*;

verus! {

/// What a strategy tells its receiver.
#[non_exhaustive]
#[derive(Debug)]
pub enum Event<M, E> {
    /// The response to the message with the given id.
    Response(u64, Result<M, Error<(), E>>),
    Synchronized(Result<(), Error<(), E>>),
    InitFailed(Error<(), E>),
    Stats(Stats),
    Flushed,
    Exited,
    Ready,
    Pause,
}

/// A response in the form its listener asked for.
#[derive(Debug)]
pub enum Delivery<R, E> {
    WithErrorType(Result<R, Error<(), E>>),
    WithoutErrorType(Result<R, Error>),
    Boxed(Result<Envelope<R>, Error>),
    BoxedWithError(Result<Envelope<R>, Error<(), E>>),
}

impl<R, E> Delivery<R, E> {
    /// The form that the response is in.
    pub open spec fn form(self) -> WaiterKind {
        match self {
            Delivery::WithErrorType(_) => WaiterKind::WithErrorType,
            Delivery::WithoutErrorType(_) => WaiterKind::WithoutErrorType,
            Delivery::Boxed(_) => WaiterKind::Boxed,
            Delivery::BoxedWithError(_) => WaiterKind::BoxedWithError,
        }
    }
}

/// Whether `d` is the response `resp` in the form `kind`.
///
/// A listener that wants the response in an envelope gets it wrapped under
/// `info`; one that wants an erased error gets the handler's error erased.
pub open spec fn delivers<R, E: StdSyncSendError>(
    kind: WaiterKind,
    resp: Result<R, Error<(), E>>,
    info: MessageInfo,
    d: Delivery<R, E>,
) -> bool {
    match kind {
        WaiterKind::WithErrorType => d == Delivery::WithErrorType(resp),
        WaiterKind::WithoutErrorType => d matches Delivery::WithoutErrorType(x) && match resp {
            Ok(v) => x == Ok::<R, Error>(v),
            Err(e) => x matches Err(g) && is_dyn_of(g, e),
        },
        WaiterKind::Boxed => d matches Delivery::Boxed(x) && match resp {
            Ok(v) => x matches Ok(b) && b@ == wrapped(info, v),
            Err(e) => x matches Err(g) && is_dyn_of(g, e),
        },
        WaiterKind::BoxedWithError => d matches Delivery::BoxedWithError(x) && match resp {
            Ok(v) => x matches Ok(b) && b@ == wrapped(info, v),
            Err(e) => x == Err::<Envelope<R>, Error<(), E>>(e),
        },
    }
}

/// Puts a response into the form that a listener asked for. `info` is the
/// tag and the capabilities under which a response travels in an envelope.
pub fn deliver<R, E: StdSyncSendError>(
    kind: WaiterKind,
    resp: Result<R, Error<(), E>>,
    info: &MessageInfo,
) -> (d: Delivery<R, E>)
    ensures
        delivers(kind, resp, *info, d),
{
    match kind {
        WaiterKind::WithErrorType => Delivery::WithErrorType(resp),
        WaiterKind::WithoutErrorType => Delivery::WithoutErrorType(
            match resp {
                Ok(v) => Ok(v),
                Err(e) => Err(e.into_dyn()),
            },
        ),
        WaiterKind::Boxed => Delivery::Boxed(
            match resp {
                Ok(v) => Ok(info.wrap(v)),
                Err(e) => Err(e.into_dyn()),
            },
        ),
        WaiterKind::BoxedWithError => Delivery::BoxedWithError(
            match resp {
                Ok(v) => Ok(info.wrap(v)),
                Err(e) => Err(e),
            },
        ),
    }
}

/// Whether `outcome` is what handing `delivery` to a listener can come to:
/// the listener's channel took it, or it came back as it was.
pub open spec fn handed_over<R, E>(
    delivery: Delivery<R, E>,
    outcome: Result<(), Delivery<R, E>>,
) -> bool {
    outcome matches Err(back) ==> back == delivery
}

/// Hands a response to its listener.
///
/// The response goes into the listener's channel. It comes back where the
/// requester has stopped listening, and also where it is not in the form
/// that the listener asked for.
pub fn hand_over<R, E>(waiter: Waiter<R, E>, delivery: Delivery<R, E>) -> (outcome: Result<
    (),
    Delivery<R, E>,
>)
    ensures
        handed_over(delivery, outcome),
        waiter.form() != delivery.form() ==> outcome is Err,
{
    match waiter {
        Waiter::WithErrorType(tx) => match delivery {
            Delivery::WithErrorType(resp) => match oneshot_send(tx, resp) {
                Ok(()) => Ok(()),
                Err(back) => Err(Delivery::WithErrorType(back)),
            },
            other => Err(other),
        },
        Waiter::WithoutErrorType(tx) => match delivery {
            Delivery::WithoutErrorType(resp) => match oneshot_send(tx, resp) {
                Ok(()) => Ok(()),
                Err(back) => Err(Delivery::WithoutErrorType(back)),
            },
            other => Err(other),
        },
        Waiter::Boxed(tx) => match delivery {
            Delivery::Boxed(resp) => match oneshot_send(tx, resp) {
                Ok(()) => Ok(()),
                Err(back) => Err(Delivery::Boxed(back)),
            },
            other => Err(other),
        },
        Waiter::BoxedWithError(tx) => match delivery {
            Delivery::BoxedWithError(resp) => match oneshot_send(tx, resp) {
                Ok(()) => Ok(()),
                Err(back) => Err(Delivery::BoxedWithError(back)),
            },
            other => Err(other),
        },
    }
}

/// Whether `outcome` is what a response to a listener can come to: put into
/// the form that the listener asked for, it was taken by the listener's
/// channel, or it came back.
pub open spec fn responds<R, E: StdSyncSendError>(
    waiter: Waiter<R, E>,
    resp: Result<R, Error<(), E>>,
    info: MessageInfo,
    outcome: Result<(), Delivery<R, E>>,
) -> bool {
    exists|d: Delivery<R, E>| #[trigger] delivers(waiter.form(), resp, info, d) && handed_over(d, outcome)
}

/// What a receiver made of an event, and what is left for the caller to do.
#[derive(Debug)]
pub enum Reaction<R, E> {
    /// Nothing happened that anyone waits for.
    Idle,
    /// All that wait for the signal were woken.
    Notify(Signal),
    /// The handler's initialization has failed: all that wait for readiness
    /// were woken. The error is for the caller to report.
    InitFailed(Error<(), E>),
    /// A message was answered: one that waits for a permit was woken. The
    /// response was handed to the listener registered under `mid`, if there
    /// was one; `outcome` tells whether there was and, if so, whether its
    /// channel took the response or the response came back.
    Response { mid: u64, outcome: Option<Result<(), Delivery<R, E>>> },
    /// The strategy's statistics, for whoever asked for them.
    Stats(Stats),
    /// The handler has exited: all that wait for the close were woken, and
    /// polling for events is to stop.
    Exit,
}

impl<R, E> Reaction<R, E> {
    /// The signal that a reaction fires, if any.
    pub open spec fn fires(self) -> Option<Signal> {
        match self {
            Reaction::Idle => None,
            Reaction::Notify(s) => Some(s),
            Reaction::InitFailed(_) => Some(Signal::Ready),
            Reaction::Response { .. } => Some(Signal::Response),
            Reaction::Stats(_) => None,
            Reaction::Exit => Some(Signal::Closed),
        }
    }

    /// The signal that the reaction fires, if any.
    pub fn signal(&self) -> (s: Option<Signal>)
        ensures
            s == self.fires(),
    {
        match self {
            Reaction::Idle => None,
            Reaction::Notify(s) => Some(*s),
            Reaction::InitFailed(_) => Some(Signal::Ready),
            Reaction::Response { .. } => Some(Signal::Response),
            Reaction::Stats(_) => None,
            Reaction::Exit => Some(Signal::Closed),
        }
    }

    /// Whether polling for events ends with this reaction.
    pub fn is_exit(&self) -> (b: bool)
        ensures
            b == (*self is Exit),
    {
        match self {
            Reaction::Exit => true,
            _ => false,
        }
    }
}

/// The state of a context after an event.
///
/// After the handler has exited no event changes anything. After a failed
/// initialization the receiver does not become ready again.
pub open spec fn state_after<R, E>(s: ContextState, event: Event<R, E>) -> ContextState {
    if s.exited {
        s
    } else {
        match event {
            Event::Pause => ContextState { ready: false, ..s },
            Event::Ready => ContextState { ready: !s.init_failed, ..s },
            Event::InitFailed(_) => ContextState { ready: false, init_failed: true, ..s },
            Event::Exited => ContextState { exited: true, ..s },
            Event::Response(_, _) => s.release(),
            Event::Flushed => s,
            Event::Synchronized(_) => s,
            Event::Stats(_) => s,
        }
    }
}

/// The listeners that stay registered after an event. A response takes its
/// listener out, and the handler's exit drops them all.
pub open spec fn pending_after<R, E>(
    s: ContextState,
    pending: Pending<R, E>,
    event: Event<R, E>,
) -> Pending<R, E> {
    if s.exited {
        pending
    } else {
        match event {
            Event::Response(mid, _) => without(pending, mid),
            Event::Exited => Map::<u64, Waiter<R, E>>::empty(),
            _ => pending,
        }
    }
}

/// Whether `reaction` is what the event asks for in the state `s`.
pub open spec fn reacts<R, E: StdSyncSendError>(
    s: ContextState,
    pending: Pending<R, E>,
    info: MessageInfo,
    event: Event<R, E>,
    reaction: Reaction<R, E>,
) -> bool {
    if s.exited {
        reaction is Idle
    } else {
        match event {
            Event::Pause => reaction is Idle,
            Event::Ready => reaction == Reaction::<R, E>::Notify(Signal::Ready),
            Event::InitFailed(e) => reaction == Reaction::<R, E>::InitFailed(e),
            Event::Exited => reaction is Exit,
            Event::Flushed => reaction == Reaction::<R, E>::Notify(Signal::Flushed),
            Event::Synchronized(_) => reaction == Reaction::<R, E>::Notify(Signal::Synchronized),
            Event::Stats(stats) => reaction == Reaction::<R, E>::Stats(stats),
            Event::Response(mid, resp) => reaction matches Reaction::Response { mid: m, outcome }
                && m == mid && match found(pending, mid) {
                Some(waiter) => outcome matches Some(o) && responds(waiter, resp, info, o),
                None => outcome is None,
            },
        }
    }
}

/// After the handler has exited, no event changes the receiver's state or
/// its listeners, and none is reacted to: no response is handed over,
/// nothing is flushed or synchronized.
pub proof fn lemma_exit_is_final<R, E: StdSyncSendError>(
    s: ContextState,
    pending: Pending<R, E>,
    info: MessageInfo,
    event: Event<R, E>,
    reaction: Reaction<R, E>,
)
    requires
        s.exited,
    ensures
        state_after(s, event) == s,
        pending_after(s, pending, event) == pending,
        reacts(s, pending, info, event, reaction) <==> reaction is Idle,
{
}

/// The handler's exit drops every listener that still waits, so that none of
/// them is handed a response afterwards: a listener's channel either gets
/// its response or is closed by the exit, never both.
pub proof fn lemma_exit_drops_listeners<R, E: StdSyncSendError>(
    s: ContextState,
    pending: Pending<R, E>,
    mid: u64,
)
    requires
        !s.exited,
    ensures
        found(pending_after::<R, E>(s, pending, Event::Exited), mid).is_none(),
        state_after::<R, E>(s, Event::Exited).exited,
{
}

/// A response frees a place, and the signal that the reaction names for it
/// is `Response`: whoever is woken by it finds the count lowered. A `Flushed`
/// event leaves the count as it is and names `Flushed`.
pub proof fn lemma_response_frees_a_place<R, E: StdSyncSendError>(
    s: ContextState,
    pending: Pending<R, E>,
    info: MessageInfo,
    mid: u64,
    resp: Result<R, Error<(), E>>,
    reaction: Reaction<R, E>,
    flushed: Reaction<R, E>,
)
    requires
        !s.exited,
        reacts(s, pending, info, Event::Response(mid, resp), reaction),
        reacts(s, pending, info, Event::Flushed, flushed),
    ensures
        state_after(s, Event::Response(mid, resp)) == s.release(),
        reaction.fires() == Some(Signal::Response),
        state_after::<R, E>(s, Event::Flushed) == s,
        flushed.fires() == Some(Signal::Flushed),
{
}

/// Closing is final: once the handler's exit was taken in, the receiver has
/// exited, whatever events follow, and takes no more messages.
pub proof fn lemma_closed_stays_closed<R, E: StdSyncSendError>(s: ContextState, event: Event<R, E>)
    ensures
        state_after::<R, E>(s, Event::Exited).exited,
        s.exited ==> state_after(s, event).exited,
        s.closed() ==> state_after(s, event).closed(),
{
}

/// A failed initialization is final: the receiver is not ready and takes no
/// messages, and no event makes it ready again.
pub proof fn lemma_init_failure_is_final<R, E: StdSyncSendError>(
    s: ContextState,
    failure: Error<(), E>,
    event: Event<R, E>,
)
    requires
        s.well_formed(),
    ensures
        state_after(s, event).well_formed(),
        !s.exited ==> state_after::<R, E>(s, Event::InitFailed(failure)).init_failed,
        s.init_failed ==> state_after(s, event).init_failed && !state_after(s, event).ready,
{
}

/// A response is handed to one listener at most: the event that carries it
/// takes the listener out, so that a second response under the same id finds
/// none.
pub proof fn lemma_response_delivered_once<R, E: StdSyncSendError>(
    s: ContextState,
    pending: Pending<R, E>,
    info: MessageInfo,
    mid: u64,
    first: Result<R, Error<(), E>>,
    second: Result<R, Error<(), E>>,
    reaction: Reaction<R, E>,
)
    requires
        reacts(
            state_after(s, Event::Response(mid, first)),
            pending_after(s, pending, Event::Response(mid, first)),
            info,
            Event::Response(mid, second),
            reaction,
        ),
    ensures
        reaction is Idle || reaction matches Reaction::Response { outcome: None, .. },
{
}

} // verus!
