//! The state of one subscription: its permit budget and its lifecycle flags.
//!
//! Admission is by permits. A receiver with the budget `limit` has at most
//! `limit` messages under way at any time: `processing` counts the permits
//! that are held and the messages that were handed to the handler and have
//! not been answered. The functions here are the single steps; a caller that
//! shares the context between tasks makes each step under a lock. A context
//! holds the notifications that tasks wait for, and fires the `Response`
//! notification whenever its count goes down.

use crate::signals::{Signal, Signals};
use std::sync::Arc;
use tokio::sync::Notify;
use vstd::prelude::*;

verus! {

/// What a context holds.
pub struct ContextState {
    /// The permit budget.
    pub limit: u64,
    /// The permits held and the messages under way.
    pub processing: u64,
    /// Whether a flush is owed. A new context owes none, and no step of the
    /// receiver raises the flag.
    pub need_flush: bool,
    /// Whether the handler has said it is ready.
    pub ready: bool,
    /// Whether the `Init` action has been issued.
    pub init_sent: bool,
    /// Whether the handler's initialization has failed.
    pub init_failed: bool,
    /// Whether the handler has exited.
    pub exited: bool,
    /// Whether polling for the handler's events has been started.
    pub polling: bool,
}

impl ContextState {
    /// The state of a new context with the given budget.
    pub open spec fn fresh(limit: u64) -> ContextState {
        ContextState {
            limit,
            processing: 0,
            need_flush: false,
            ready: false,
            init_sent: false,
            init_failed: false,
            exited: false,
            polling: false,
        }
    }

    /// The counter stays within the budget.
    pub open spec fn within_budget(self) -> bool {
        self.processing <= self.limit
    }

    /// What holds of every context: its counter is within its budget, and it
    /// is not ready if its initialization has failed.
    pub open spec fn well_formed(self) -> bool {
        self.within_budget() && (self.init_failed ==> !self.ready)
    }

    /// Whether a permit can be given.
    pub open spec fn has_capacity(self) -> bool {
        self.processing < self.limit
    }

    /// The state after a permit was asked for: one more is counted where
    /// there was capacity.
    pub open spec fn reserve(self) -> ContextState {
        if self.has_capacity() {
            ContextState { processing: (self.processing + 1) as u64, ..self }
        } else {
            self
        }
    }

    /// The state after a permit came back or a message was answered: one less
    /// is counted, and none where none was.
    pub open spec fn release(self) -> ContextState {
        if self.processing > 0 {
            ContextState { processing: (self.processing - 1) as u64, ..self }
        } else {
            self
        }
    }

    /// The signal that is fired when a permit comes back: `Response` where
    /// the count goes down, none where nothing was counted.
    pub open spec fn frees(self) -> Option<Signal> {
        if self.processing > 0 {
            Some(Signal::Response)
        } else {
            None
        }
    }

    /// Whether the receiver takes no more messages: its initialization has
    /// failed or its handler has exited.
    pub open spec fn closed(self) -> bool {
        self.init_failed || self.exited
    }

    /// The state after the `Init` action was asked for.
    pub open spec fn init(self) -> ContextState {
        ContextState { init_sent: true, ..self }
    }

    /// Whether asking for the `Init` action issues it: only the first time.
    pub open spec fn issues_init(self) -> bool {
        !self.init_sent
    }

    /// The state after polling was asked to start.
    pub open spec fn poll(self) -> ContextState {
        ContextState { polling: true, ..self }
    }

    /// Whether asking for polling starts it: only the first time.
    pub open spec fn starts_polling(self) -> bool {
        !self.polling
    }
}

/// What can happen to the permits of a context.
pub enum PermitStep {
    /// A permit is asked for.
    Reserve,
    /// A permit that is held is given back unused.
    Drop,
    /// A permit that is held is used to hand a message to the handler.
    Fuse,
    /// The handler answers one of the messages it was handed.
    Respond,
}

/// The books of a context: its state, and beside it the number of permits
/// that are held and the number of messages that are with the handler.
pub struct Ledger {
    pub state: ContextState,
    pub held: nat,
    pub in_flight: nat,
}

impl Ledger {
    /// The books of a new context.
    pub open spec fn fresh(limit: u64) -> Ledger {
        Ledger { state: ContextState::fresh(limit), held: 0, in_flight: 0 }
    }

    /// The books after one step. A step that needs a held permit or a
    /// message with the handler, where there is none, does not happen.
    pub open spec fn step(self, op: PermitStep) -> Ledger {
        match op {
            PermitStep::Reserve => Ledger {
                state: self.state.reserve(),
                held: if self.state.has_capacity() {
                    self.held + 1
                } else {
                    self.held
                },
                ..self
            },
            PermitStep::Drop => if self.held > 0 {
                Ledger { state: self.state.release(), held: (self.held - 1) as nat, ..self }
            } else {
                self
            },
            PermitStep::Fuse => if self.held > 0 {
                Ledger { held: (self.held - 1) as nat, in_flight: self.in_flight + 1, ..self }
            } else {
                self
            },
            PermitStep::Respond => if self.in_flight > 0 {
                Ledger {
                    state: self.state.release(),
                    in_flight: (self.in_flight - 1) as nat,
                    ..self
                }
            } else {
                self
            },
        }
    }

    /// The books after a sequence of steps.
    pub open spec fn run(self, ops: Seq<PermitStep>) -> Ledger
        decreases ops.len(),
    {
        if ops.len() == 0 {
            self
        } else {
            self.run(ops.drop_last()).step(ops.last())
        }
    }

    /// The counter is within the budget, and it counts the permits held and
    /// the messages with the handler, no more and no less.
    pub open spec fn balanced(self) -> bool {
        self.state.within_budget() && self.state.processing == self.held + self.in_flight
    }
}

/// Whatever permits are asked for, given back or used, and whatever the
/// handler answers: the counter of a context stays between zero and its
/// budget, and it is the number of permits held plus the number of messages
/// with the handler. Once no permit is held, it is the number of messages
/// with the handler.
pub proof fn lemma_permit_accounting(limit: u64, ops: Seq<PermitStep>)
    ensures
        Ledger::fresh(limit).run(ops).balanced(),
        Ledger::fresh(limit).run(ops).state.limit == limit,
        Ledger::fresh(limit).run(ops).held == 0 ==> Ledger::fresh(limit).run(ops).state.processing
            == Ledger::fresh(limit).run(ops).in_flight,
    decreases ops.len(),
{
    if ops.len() > 0 {
        lemma_permit_accounting(limit, ops.drop_last());
    }
}

/// Backpressure: whatever happened before, a permit is given exactly while
/// fewer than `limit` permits and messages are counted. With a budget of one,
/// the next permit is given only after the message before it was answered or
/// its permit came back; and once every permit was used or given back and
/// every message answered, nothing is counted.
pub proof fn lemma_backpressure(limit: u64, ops: Seq<PermitStep>)
    ensures
        Ledger::fresh(limit).run(ops).state.has_capacity() <==> Ledger::fresh(limit).run(ops).held
            + Ledger::fresh(limit).run(ops).in_flight < limit,
        limit == 1 ==> (Ledger::fresh(limit).run(ops).state.has_capacity() <==> Ledger::fresh(
            limit,
        ).run(ops).held == 0 && Ledger::fresh(limit).run(ops).in_flight == 0),
        Ledger::fresh(limit).run(ops).held == 0 && Ledger::fresh(limit).run(ops).in_flight == 0
            ==> Ledger::fresh(limit).run(ops).state.processing == 0,
        !Ledger::fresh(limit).run(ops).state.has_capacity() ==> Ledger::fresh(limit).run(ops).step(
            PermitStep::Reserve,
        ) == Ledger::fresh(limit).run(ops),
{
    lemma_permit_accounting(limit, ops);
}

/// The state after `n` places were freed one after the other.
pub open spec fn released(s: ContextState, n: nat) -> ContextState
    decreases n,
{
    if n == 0 {
        s
    } else {
        released(s.release(), (n - 1) as nat)
    }
}

/// Freeing `n` places lowers the count by `n`, and not below zero: after as
/// many answers as messages are counted, nothing is counted.
pub proof fn lemma_released(s: ContextState, n: nat)
    ensures
        released(s, n).processing == if n >= s.processing {
            0
        } else {
            s.processing - n
        },
        released(s, n).limit == s.limit,
    decreases n,
{
    if n > 0 {
        lemma_released(s.release(), (n - 1) as nat);
    }
}

/// How often the `Init` action is issued when it is asked for `n` times in a
/// row, starting in the state `s`.
pub open spec fn inits_issued(s: ContextState, n: nat) -> nat
    decreases n,
{
    if n == 0 {
        0
    } else {
        (if s.issues_init() {
            1nat
        } else {
            0nat
        }) + inits_issued(s.init(), (n - 1) as nat)
    }
}

/// However often `Init` is asked for, it is issued once: by the first request
/// on a context that has not issued it, and never by a context that has.
pub proof fn lemma_init_once(s: ContextState, n: nat)
    ensures
        s.init_sent ==> inits_issued(s, n) == 0,
        !s.init_sent && n > 0 ==> inits_issued(s, n) == 1,
    decreases n,
{
    if n > 0 {
        lemma_init_once(s.init(), (n - 1) as nat);
    }
}

/// How often polling is started when it is asked for `n` times in a row,
/// starting in the state `s`.
pub open spec fn polls_started(s: ContextState, n: nat) -> nat
    decreases n,
{
    if n == 0 {
        0
    } else {
        (if s.starts_polling() {
            1nat
        } else {
            0nat
        }) + polls_started(s.poll(), (n - 1) as nat)
    }
}

/// However often polling is asked for, it is started once: by the first
/// request on a context that is not polled, and never by one that is.
pub proof fn lemma_polling_starts_once(s: ContextState, n: nat)
    ensures
        s.polling ==> polls_started(s, n) == 0,
        !s.polling && n > 0 ==> polls_started(s, n) == 1,
    decreases n,
{
    if n > 0 {
        lemma_polling_starts_once(s.poll(), (n - 1) as nat);
    }
}

/// A permit: the right to hand one message to the receiver that gave it.
///
/// A permit that is given back unused frees its place. One that was used for
/// a send is fused: its place stays taken until the handler answers.
#[derive(Debug)]
pub struct Permit {
    pub(crate) fuse: bool,
}

impl Permit {
    /// Whether the permit is fused.
    pub closed spec fn fused(&self) -> bool {
        self.fuse
    }

    pub fn is_fused(&self) -> (b: bool)
        ensures
            b == self.fused(),
    {
        self.fuse
    }

    /// Fuses the permit: giving it back no longer frees its place.
    pub fn fuse(&mut self)
        ensures
            final(self).fused(),
    {
        self.fuse = true;
    }

    /// Gives the permit back to the context it came from. Unless the permit
    /// is fused, its place is freed and the `Response` notification is
    /// fired. Returns the signal that was fired.
    pub fn release(self, context: &mut ReceiverContext) -> (fired: Option<Signal>)
        ensures
            final(context)@ == if self.fused() {
                old(context)@
            } else {
                old(context)@.release()
            },
            fired == if self.fused() {
                None
            } else {
                old(context)@.frees()
            },
            final(context).signals() == old(context).signals(),
    {
        if !self.fuse {
            context.permit_drop()
        } else {
            None
        }
    }
}

/// Something that frees a place when a permit comes back, and tells which
/// signal it fired for it.
pub trait PermitDrop {
    fn permit_drop(&mut self) -> Option<Signal>;
}

/// The permit counter and the lifecycle flags of one subscription.
pub struct ReceiverContext {
    limit: u64,
    processing: u64,
    need_flush: bool,
    ready_flag: bool,
    init_sent: bool,
    init_failed: bool,
    exited: bool,
    polling: bool,
    signals: Signals,
}

impl View for ReceiverContext {
    type V = ContextState;

    closed spec fn view(&self) -> ContextState {
        ContextState {
            limit: self.limit,
            processing: self.processing,
            need_flush: self.need_flush,
            ready: self.ready_flag,
            init_sent: self.init_sent,
            init_failed: self.init_failed,
            exited: self.exited,
            polling: self.polling,
        }
    }
}

impl PermitDrop for ReceiverContext {
    /// Frees one place and fires the `Response` notification, where a place
    /// was counted. Returns the signal that was fired.
    fn permit_drop(&mut self) -> (fired: Option<Signal>)
        ensures
            final(self)@ == old(self)@.release(),
            fired == old(self)@.frees(),
            final(self).signals() == old(self).signals(),
    {
        if self.lower() {
            self.signals.fire(Signal::Response);
            Some(Signal::Response)
        } else {
            None
        }
    }
}

impl ReceiverContext {
    #[verifier::type_invariant]
    spec fn well_formed(self) -> bool {
        self.processing <= self.limit && (self.init_failed ==> !self.ready_flag)
    }

    /// The notifications of the context.
    pub closed spec fn signals(&self) -> Signals {
        self.signals
    }

    /// The notification that stands for `signal`.
    pub fn notify(&self, signal: Signal) -> (notify: &Arc<Notify>)
        ensures
            *notify == self.signals().of(signal),
    {
        self.signals.get(signal)
    }

    /// Fires the notification that stands for `signal`.
    pub(crate) fn fire(&self, signal: Signal) {
        self.signals.fire(signal)
    }

    /// Lowers the count by one where a place is counted; tells whether it
    /// did. Nothing is fired.
    pub(crate) fn lower(&mut self) -> (lowered: bool)
        ensures
            final(self)@ == old(self)@.release(),
            lowered == (old(self)@.processing > 0),
            final(self).signals() == old(self).signals(),
    {
        proof {
            use_type_invariant(&*self);
        }
        if self.processing > 0 {
            self.processing = self.processing - 1;
            true
        } else {
            false
        }
    }

    /// A context with the budget `limit`, nothing under way and no flag set.
    pub fn new(limit: u64) -> (context: Self)
        ensures
            context@ == ContextState::fresh(limit),
    {
        ReceiverContext {
            limit,
            processing: 0,
            need_flush: false,
            ready_flag: false,
            init_sent: false,
            init_failed: false,
            exited: false,
            polling: false,
            signals: Signals::new(),
        }
    }

    pub fn limit(&self) -> (n: u64)
        ensures
            n == self@.limit,
    {
        self.limit
    }

    /// The permits held and the messages under way; never above the budget.
    pub fn processing(&self) -> (n: u64)
        ensures
            n == self@.processing,
            n <= self@.limit,
            self@.well_formed(),
    {
        proof {
            use_type_invariant(self);
        }
        self.processing
    }

    pub fn need_flush(&self) -> (b: bool)
        ensures
            b == self@.need_flush,
    {
        self.need_flush
    }

    /// Whether the handler is ready; it never is after its initialization
    /// has failed.
    pub fn is_ready(&self) -> (b: bool)
        ensures
            b == self@.ready,
            self@.well_formed(),
    {
        proof {
            use_type_invariant(self);
        }
        self.ready_flag
    }

    pub fn is_init_sent(&self) -> (b: bool)
        ensures
            b == self@.init_sent,
    {
        self.init_sent
    }

    /// Whether the receiver takes no more messages.
    pub fn is_closed(&self) -> (b: bool)
        ensures
            b == self@.closed(),
    {
        self.init_failed || self.exited
    }

    pub fn is_init_failed(&self) -> (b: bool)
        ensures
            b == self@.init_failed,
    {
        self.init_failed
    }

    pub fn is_exited(&self) -> (b: bool)
        ensures
            b == self@.exited,
    {
        self.exited
    }

    /// Asks for a permit.
    ///
    /// One is given exactly when fewer than `limit` are counted, and is then
    /// counted itself. The permit that is given is not fused.
    pub fn try_reserve(&mut self) -> (permit: Option<Permit>)
        ensures
            permit is Some <==> old(self)@.has_capacity(),
            permit matches Some(p) ==> !p.fused(),
            final(self)@ == old(self)@.reserve(),
            final(self).signals() == old(self).signals(),
    {
        proof {
            use_type_invariant(&*self);
        }
        if self.processing < self.limit {
            self.processing = self.processing + 1;
            Some(Permit { fuse: false })
        } else {
            None
        }
    }

    /// Notes that the `Init` action is asked for; tells whether it is to be
    /// issued, which it is the first time only.
    pub fn mark_init(&mut self) -> (issue: bool)
        ensures
            issue == old(self)@.issues_init(),
            final(self)@ == old(self)@.init(),
            final(self).signals() == old(self).signals(),
    {
        proof {
            use_type_invariant(&*self);
        }
        let issue = !self.init_sent;
        self.init_sent = true;
        issue
    }

    /// Notes that polling is asked to start; tells whether it is to be
    /// started, which it is the first time only.
    pub fn mark_polling(&mut self) -> (start: bool)
        ensures
            start == old(self)@.starts_polling(),
            final(self)@ == old(self)@.poll(),
            final(self).signals() == old(self).signals(),
    {
        proof {
            use_type_invariant(&*self);
        }
        let start = !self.polling;
        self.polling = true;
        start
    }

    pub(crate) fn set_ready(&mut self, ready: bool)
        requires
            ready ==> !old(self)@.init_failed,
        ensures
            final(self)@ == (ContextState { ready, ..old(self)@ }),
            final(self).signals() == old(self).signals(),
    {
        proof {
            use_type_invariant(&*self);
        }
        self.ready_flag = ready;
    }

    pub(crate) fn set_init_failed(&mut self)
        ensures
            final(self)@ == (ContextState { ready: false, init_failed: true, ..old(self)@ }),
            final(self).signals() == old(self).signals(),
    {
        proof {
            use_type_invariant(&*self);
        }
        self.ready_flag = false;
        self.init_failed = true;
    }

    pub(crate) fn set_exited(&mut self)
        ensures
            final(self)@ == (ContextState { exited: true, ..old(self)@ }),
            final(self).signals() == old(self).signals(),
    {
        proof {
            use_type_invariant(&*self);
        }
        self.exited = true;
    }
}

} // verus!
