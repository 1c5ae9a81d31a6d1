//! The notifications that tasks wait for.
//!
//! Each is a `tokio::sync::Notify`. A receiver fires them as the events of
//! its strategy come in; a task that wants to wait for one takes it from the
//! receiver and awaits it.

use std::sync::Arc;
use tokio::sync::Notify;
use vstd::prelude::*;

verus! {

/// A `tokio` notification. Nothing is known of it here: it is made, handed
/// out and fired.
#[verifier::external_type_specification]
#[verifier::external_body]
pub struct ExNotify(Notify);

/// `tokio::sync::Notify::new`: a notification that nobody waits for yet.
#[verifier::external_body]
fn notify_new() -> Notify {
    Notify::new()
}

/// `tokio::sync::Notify::notify_waiters`: wakes every task that waits for
/// the notification at the moment of the call.
#[verifier::external_body]
fn notify_waiters(notify: &Notify) {
    notify.notify_waiters()
}

/// What tasks wait for.
#[derive(Clone, Copy, Debug, PartialEq, Eq, Structural)]
pub enum Signal {
    /// The handler is ready, or its initialization has failed.
    Ready,
    Flushed,
    Synchronized,
    /// The handler has exited.
    Closed,
    /// The count of a context went down, so a place may be free: a message
    /// was answered or a permit was given back. A task that found no permit
    /// waits for this before it asks again.
    Response,
}

/// The notifications of one receiver, one for each signal.
pub struct Signals {
    pub ready: Arc<Notify>,
    pub flushed: Arc<Notify>,
    pub synchronized: Arc<Notify>,
    pub closed: Arc<Notify>,
    pub response: Arc<Notify>,
}

impl Signals {
    /// The notification that stands for `signal`.
    pub open spec fn of(&self, signal: Signal) -> Arc<Notify> {
        match signal {
            Signal::Ready => self.ready,
            Signal::Flushed => self.flushed,
            Signal::Synchronized => self.synchronized,
            Signal::Closed => self.closed,
            Signal::Response => self.response,
        }
    }

    /// Fresh notifications.
    pub(crate) fn new() -> Signals {
        Signals {
            ready: Arc::new(notify_new()),
            flushed: Arc::new(notify_new()),
            synchronized: Arc::new(notify_new()),
            closed: Arc::new(notify_new()),
            response: Arc::new(notify_new()),
        }
    }

    /// The notification that stands for `signal`.
    pub fn get(&self, signal: Signal) -> (notify: &Arc<Notify>)
        ensures
            *notify == self.of(signal),
    {
        match signal {
            Signal::Ready => &self.ready,
            Signal::Flushed => &self.flushed,
            Signal::Synchronized => &self.synchronized,
            Signal::Closed => &self.closed,
            Signal::Response => &self.response,
        }
    }

    /// Fires the notification that stands for `signal`: every task that
    /// waits for it at that moment is woken. A task that wants to be sure of
    /// a signal takes the notification and subscribes before it looks at the
    /// state the signal tells of.
    pub(crate) fn fire(&self, signal: Signal) {
        match signal {
            Signal::Response => notify_waiters(&self.response),
            Signal::Ready => notify_waiters(&self.ready),
            Signal::Flushed => notify_waiters(&self.flushed),
            Signal::Synchronized => notify_waiters(&self.synchronized),
            Signal::Closed => notify_waiters(&self.closed),
        }
    }
}

} // verus!
