//! The receiver core of an in-process message bus.
//!
//! A receiver binds one handler strategy to a message type, a response type
//! and an error type. This crate holds the rules by which such a receiver
//! admits messages under a permit budget, keeps track of the listeners that
//! wait for responses, reacts to the events its strategy emits and walks
//! through its lifecycle. Every function is verified against its contract.
//! A receiver hands responses to the channels of its listeners and fires
//! the notifications that tasks wait for; the waiting itself is left to the
//! caller, who is told by each function's result what to wait for.
//!
//! - [`envelop`]: type tags, messages and the envelopes they travel in;
//!   [`type_expr`]: why tags tell types apart; [`builtin`]: the message types
//!   that come with the bus.
//! - [`error`]: the errors and their passage between typed and erased forms.
//! - [`context`]: permits and lifecycle flags; [`waiters`]: the listeners
//!   that wait for responses.
//! - [`event`]: the events of a strategy and the reactions they ask for;
//!   [`signals`]: the notifications that tasks wait for; [`receiver`]: the
//!   receiver itself; [`any`]: its views guarded by tags.
//! - [`derive`]: what deriving a message or an error type amounts to;
//!   [`stats`]: what a strategy reports, and counters and how they are shown.

pub mod any;
pub mod builtin;
pub mod context;
pub mod derive;
pub mod envelop;
pub mod error;
pub mod event;
pub mod receiver;
pub mod signals;
pub mod stats;
pub mod type_expr;
pub mod waiters;

pub use crate::envelop::{Envelope, Message, TypeTag, TypeTagged};
pub use crate::error::Error;
pub use crate::receiver::{
    Action, AnyReceiver, AnyWrapperRef, Event, Permit, PermitDrop, Receiver, ReceiverStats,
    SendTypedReceiver, SendUntypedReceiver, Stats, TypeTagAccept,
};
