//! The errors of the bus, and how they pass between their typed and their
//! erased forms.

use crate::envelop::{into_boxed, opened, wraps, Envelope, Message, TypeTag, TypeTagged};
use tokio::sync::oneshot::error::RecvError;
use vstd::prelude::*;
use vstd::std_specs::convert::FromSpecImpl;

verus! {

/// What awaiting a `tokio` oneshot channel ends with where the sending end
/// was dropped before anything was sent. It holds nothing.
#[verifier::external_type_specification]
#[verifier::external_body]
pub struct ExRecvError(RecvError);

/// An error that a handler may return: it has a tag, can be described in
/// words, and can be handed between threads.
pub trait StdSyncSendError: TypeTagged + Send + Sync + 'static {
    /// The words that describe the error.
    fn message(&self) -> String;
}

/// A type of which no value can be made outside this module.
#[derive(Debug)]
pub struct Unreachable {
    never: (),
}

/// The error of a handler that cannot fail. Nothing constructs it: its one
/// variant asks for a value that cannot be made.
#[derive(Debug)]
pub enum VoidError {
    Void(Unreachable),
}

impl TypeTagged for VoidError {
    fn type_tag_() -> (t: TypeTag)
        ensures
            t@ == "messagebus::error::VoidError"@,
    {
        "messagebus::error::VoidError".to_owned()
    }

    fn type_tag(&self) -> (t: TypeTag)
        ensures
            t@ == "messagebus::error::VoidError"@,
    {
        "messagebus::error::VoidError".to_owned()
    }
}

impl StdSyncSendError for VoidError {
    fn message(&self) -> (s: String)
        ensures
            s@ == Seq::<char>::empty(),
    {
        String::new()
    }
}

/// A handler's error in erased form: the tag of its type and its description.
#[derive(Debug)]
pub struct GenericError {
    pub type_tag: TypeTag,
    pub description: String,
}

impl GenericError {
    /// Erases `err`: asks its type for the tag and the error for its words,
    /// and keeps both.
    pub fn from_err<E: StdSyncSendError>(err: &E) -> (g: GenericError)
        ensures
            erases(g, *err),
    {
        GenericError { type_tag: E::type_tag_(), description: err.message() }
    }
}

/// Why a strategy did not take a message; the message comes back.
#[derive(Debug)]
pub enum SendError<M> {
    /// The strategy has shut down.
    Closed(M),
    /// The strategy's queue is full.
    Full(M),
}

impl<M: Message> SendError<M> {
    /// The error with its message wrapped into an envelope. A closed
    /// strategy stays closed and a full queue stays full.
    pub fn into_boxed(self) -> (r: SendError<Envelope<M>>)
        ensures
            match self {
                SendError::Closed(m) => r matches SendError::Closed(e) && wraps(e, m),
                SendError::Full(m) => r matches SendError::Full(e) && wraps(e, m),
            },
    {
        match self {
            SendError::Closed(m) => SendError::Closed(into_boxed(m)),
            SendError::Full(m) => SendError::Full(into_boxed(m)),
        }
    }
}

impl<M> SendError<M> {
    /// The message that was not taken.
    pub open spec fn message(self) -> M {
        match self {
            SendError::Closed(m) => m,
            SendError::Full(m) => m,
        }
    }
}

/// What can go wrong between a producer and a receiver.
///
/// `M` is the type of the message that an error hands back, `E` the typed
/// error of the handler.
#[derive(Debug)]
pub enum Error<M = (), E = VoidError> {
    /// The strategy did not take the message.
    SendError(SendError<M>),
    /// The response will not come: its listener or its receiver is gone.
    NoResponse,
    /// No receiver accepts the message.
    NoReceivers,
    /// No listener could be registered.
    AddListenerError,
    /// An envelope held another type than the one asked for.
    MessageCastError,
    /// The handler's error.
    Other(E),
    /// A relay could not serialize; the text is the serializer's message.
    Serialization(String),
    /// The handler's error, erased.
    OtherBoxed(GenericError),
    /// The message was of a type the receiver does not handle.
    WrongMessageType(M),
}

/// Whether `g` is the erased form of `e`: it holds the tag that the type of
/// `e` answered with and the words that `e` described itself with.
pub open spec fn erases<E: StdSyncSendError>(g: GenericError, e: E) -> bool {
    call_ensures(E::type_tag_, (), g.type_tag) && call_ensures(E::message, (&e,), g.description)
}

/// Whether `r` is `e` with its handler error erased. Every variant stays
/// what it is, but `Other`, which becomes `OtherBoxed`.
pub open spec fn is_dyn_of<M, E: StdSyncSendError>(r: Error<M>, e: Error<M, E>) -> bool {
    match e {
        Error::SendError(inner) => r == Error::<M>::SendError(inner),
        Error::NoResponse => r == Error::<M>::NoResponse,
        Error::NoReceivers => r == Error::<M>::NoReceivers,
        Error::AddListenerError => r == Error::<M>::AddListenerError,
        Error::MessageCastError => r == Error::<M>::MessageCastError,
        Error::Other(inner) => r matches Error::OtherBoxed(g) && erases(g, inner),
        Error::Serialization(s) => r == Error::<M>::Serialization(s),
        Error::OtherBoxed(g) => r == Error::<M>::OtherBoxed(g),
        Error::WrongMessageType(m) => r == Error::<M>::WrongMessageType(m),
    }
}

/// Whether `r` is `e` with its message wrapped into an envelope.
pub open spec fn is_boxed_of<M: Message>(r: Error<Envelope<M>>, e: Error<M>) -> bool {
    match e {
        Error::SendError(SendError::Closed(m)) => r matches Error::SendError(SendError::Closed(b))
            && wraps(b, m),
        Error::SendError(SendError::Full(m)) => r matches Error::SendError(SendError::Full(b))
            && wraps(b, m),
        Error::NoResponse => r == Error::<Envelope<M>>::NoResponse,
        Error::NoReceivers => r == Error::<Envelope<M>>::NoReceivers,
        Error::AddListenerError => r == Error::<Envelope<M>>::AddListenerError,
        Error::MessageCastError => r == Error::<Envelope<M>>::MessageCastError,
        Error::Other(inner) => r == Error::<Envelope<M>>::Other(inner),
        Error::Serialization(s) => r == Error::<Envelope<M>>::Serialization(s),
        Error::OtherBoxed(g) => r == Error::<Envelope<M>>::OtherBoxed(g),
        Error::WrongMessageType(m) => r matches Error::WrongMessageType(b) && wraps(b, m),
    }
}

impl<M, E: StdSyncSendError> Error<M, E> {
    /// Erases the handler's error.
    pub fn into_dyn(self) -> (r: Error<M>)
        ensures
            is_dyn_of(r, self),
    {
        match self {
            Error::SendError(inner) => Error::SendError(inner),
            Error::NoResponse => Error::NoResponse,
            Error::NoReceivers => Error::NoReceivers,
            Error::Serialization(s) => Error::Serialization(s),
            Error::Other(inner) => Error::OtherBoxed(GenericError::from_err(&inner)),
            Error::OtherBoxed(inner) => Error::OtherBoxed(inner),
            Error::WrongMessageType(inner) => Error::WrongMessageType(inner),
            Error::AddListenerError => Error::AddListenerError,
            Error::MessageCastError => Error::MessageCastError,
        }
    }

    /// Gives an erased handler error the type `U`, which is built from it.
    /// An error that is typed already cannot be mapped.
    pub fn map<U: From<GenericError> + StdSyncSendError>(self) -> (r: Error<M, U>)
        requires
            !(self is Other),
        ensures
            match self {
                Error::SendError(inner) => r == Error::<M, U>::SendError(inner),
                Error::NoResponse => r == Error::<M, U>::NoResponse,
                Error::NoReceivers => r == Error::<M, U>::NoReceivers,
                Error::AddListenerError => r == Error::<M, U>::AddListenerError,
                Error::MessageCastError => r == Error::<M, U>::MessageCastError,
                Error::Other(_) => false,
                Error::Serialization(s) => r == Error::<M, U>::Serialization(s),
                Error::OtherBoxed(g) => r matches Error::Other(u) && call_ensures(U::from, (g,), u),
                Error::WrongMessageType(m) => r == Error::<M, U>::WrongMessageType(m),
            },
    {
        match self {
            Error::SendError(inner) => Error::SendError(inner),
            Error::NoResponse => Error::NoResponse,
            Error::NoReceivers => Error::NoReceivers,
            Error::Serialization(s) => Error::Serialization(s),
            Error::Other(_) => unreached(),
            Error::OtherBoxed(inner) => Error::Other(U::from(inner)),
            Error::WrongMessageType(inner) => Error::WrongMessageType(inner),
            Error::AddListenerError => Error::AddListenerError,
            Error::MessageCastError => Error::MessageCastError,
        }
    }
}

impl<E: StdSyncSendError> Error<(), E> {
    /// Gives an error that holds no message the message type `M`.
    pub fn specify<M>(self) -> (r: Error<M, E>)
        requires
            !(self is SendError),
            !(self is WrongMessageType),
        ensures
            match self {
                Error::SendError(_) => false,
                Error::NoResponse => r == Error::<M, E>::NoResponse,
                Error::NoReceivers => r == Error::<M, E>::NoReceivers,
                Error::AddListenerError => r == Error::<M, E>::AddListenerError,
                Error::MessageCastError => r == Error::<M, E>::MessageCastError,
                Error::Other(inner) => r == Error::<M, E>::Other(inner),
                Error::Serialization(s) => r == Error::<M, E>::Serialization(s),
                Error::OtherBoxed(g) => r == Error::<M, E>::OtherBoxed(g),
                Error::WrongMessageType(_) => false,
            },
    {
        match self {
            Error::SendError(_) => unreached(),
            Error::WrongMessageType(_) => unreached(),
            Error::NoResponse => Error::NoResponse,
            Error::NoReceivers => Error::NoReceivers,
            Error::Serialization(s) => Error::Serialization(s),
            Error::Other(inner) => Error::Other(inner),
            Error::OtherBoxed(inner) => Error::OtherBoxed(inner),
            Error::AddListenerError => Error::AddListenerError,
            Error::MessageCastError => Error::MessageCastError,
        }
    }
}

impl<M: Message> Error<Envelope<M>> {
    /// Wraps the message that an error holds into an envelope.
    pub fn from_typed(err: Error<M>) -> (r: Self)
        ensures
            is_boxed_of(r, err),
    {
        match err {
            Error::SendError(SendError::Closed(m)) => Error::SendError(
                SendError::Closed(into_boxed(m)),
            ),
            Error::SendError(SendError::Full(m)) => Error::SendError(SendError::Full(into_boxed(m))),
            Error::WrongMessageType(m) => Error::WrongMessageType(into_boxed(m)),
            Error::NoResponse => Error::NoResponse,
            Error::NoReceivers => Error::NoReceivers,
            Error::Serialization(s) => Error::Serialization(s),
            Error::Other(inner) => Error::Other(inner),
            Error::OtherBoxed(inner) => Error::OtherBoxed(inner),
            Error::AddListenerError => Error::AddListenerError,
            Error::MessageCastError => Error::MessageCastError,
        }
    }
}

/// A channel that closed before a response came is `NoResponse`.
impl<M, E> From<RecvError> for Error<M, E> {
    fn from(err: RecvError) -> (e: Self) {
        Error::NoResponse
    }
}

impl<M, E> FromSpecImpl<RecvError> for Error<M, E> {
    open spec fn obeys_from_spec() -> bool {
        true
    }

    open spec fn from_spec(err: RecvError) -> Self {
        Error::NoResponse
    }
}

/// An error with the message it holds taken out of its envelope.
pub open spec fn typed_error<M>(e: Error<Envelope<M>>) -> Error<M> {
    match e {
        Error::SendError(SendError::Closed(b)) => Error::SendError(SendError::Closed(b.payload)),
        Error::SendError(SendError::Full(b)) => Error::SendError(SendError::Full(b.payload)),
        Error::NoResponse => Error::NoResponse,
        Error::NoReceivers => Error::NoReceivers,
        Error::AddListenerError => Error::AddListenerError,
        Error::MessageCastError => Error::MessageCastError,
        Error::Other(inner) => Error::Other(inner),
        Error::Serialization(s) => Error::Serialization(s),
        Error::OtherBoxed(g) => Error::OtherBoxed(g),
        Error::WrongMessageType(b) => Error::WrongMessageType(b.payload),
    }
}

impl<M> Error<Envelope<M>> {
    /// Takes the message that an error holds out of its envelope.
    pub fn into_typed(self) -> (r: Error<M>)
        ensures
            r == typed_error(self),
    {
        match self {
            Error::SendError(SendError::Closed(b)) => Error::SendError(SendError::Closed(b.payload)),
            Error::SendError(SendError::Full(b)) => Error::SendError(SendError::Full(b.payload)),
            Error::NoResponse => Error::NoResponse,
            Error::NoReceivers => Error::NoReceivers,
            Error::AddListenerError => Error::AddListenerError,
            Error::MessageCastError => Error::MessageCastError,
            Error::Other(inner) => Error::Other(inner),
            Error::Serialization(s) => Error::Serialization(s),
            Error::OtherBoxed(g) => Error::OtherBoxed(g),
            Error::WrongMessageType(b) => Error::WrongMessageType(b.payload),
        }
    }
}

/// What a requester is told when its channel has ended: the response that
/// arrived, or `NoResponse` where the channel closed before any did.
pub fn settle<T, E>(received: Result<Result<T, Error<(), E>>, RecvError>) -> (r: Result<
    T,
    Error<(), E>,
>)
    ensures
        match received {
            Ok(x) => r == x,
            Err(_) => r == Err::<T, Error<(), E>>(Error::NoResponse),
        },
{
    match received {
        Ok(x) => x,
        Err(err) => Err(Error::from(err)),
    }
}

/// What opening an envelope that holds a response yields for a requester:
/// the response, or `MessageCastError` where the envelope holds another type
/// than the one with the tag `expected`.
pub open spec fn unwrapped<R>(e: Envelope<R>, expected: Seq<char>) -> Result<R, Error> {
    match opened(e, expected) {
        Ok(v) => Ok(v),
        Err(_) => Err(Error::MessageCastError),
    }
}

/// What a requester that wants the typed response is told when the response
/// comes in an envelope: the response where the envelope holds the type with
/// the tag `expected`, `MessageCastError` where it holds another, the error
/// that arrived, or `NoResponse` where the channel closed before anything
/// did.
pub fn settle_boxed<R>(
    received: Result<Result<Envelope<R>, Error>, RecvError>,
    expected: &TypeTag,
) -> (r: Result<R, Error>)
    ensures
        match received {
            Ok(Ok(e)) => r == unwrapped(e, expected@),
            Ok(Err(x)) => r == Err::<R, Error>(x),
            Err(_) => r == Err::<R, Error>(Error::NoResponse),
        },
{
    match received {
        Ok(Ok(e)) => match e.downcast_as(expected) {
            Ok(v) => Ok(v),
            Err(_) => Err(Error::MessageCastError),
        },
        Ok(Err(x)) => Err(x),
        Err(err) => Err(Error::from(err)),
    }
}

impl<M> SendError<M> {
    /// The words for the error: `Closed` or `Full`.
    pub open spec fn text(self) -> Seq<char> {
        match self {
            SendError::Closed(_) => "Closed"@,
            SendError::Full(_) => "Full"@,
        }
    }

    /// The words for the error.
    pub fn to_text(&self) -> (t: String)
        ensures
            t@ == self.text(),
    {
        match self {
            SendError::Closed(_) => "Closed".to_owned(),
            SendError::Full(_) => "Full".to_owned(),
        }
    }
}

impl<M, E> Error<M, E> {
    /// The words for the error. `words` is what the handler's error said of
    /// itself; it is looked at for `Other` only.
    pub open spec fn text(self, words: Seq<char>) -> Seq<char> {
        match self {
            Error::SendError(inner) => "Message Send Error: "@ + inner.text(),
            Error::NoResponse => "NoResponse"@,
            Error::NoReceivers => "NoReceivers"@,
            Error::AddListenerError => "AddListenerError"@,
            Error::MessageCastError => "MessageCastError"@,
            Error::Other(_) => "Other("@ + words + ")"@,
            Error::Serialization(cause) => "Serialization("@ + cause@ + ")"@,
            Error::OtherBoxed(inner) => "Other("@ + inner.description@ + ")"@,
            Error::WrongMessageType(_) => "WrongMessageType()"@,
        }
    }
}

impl<M, E: StdSyncSendError> Error<M, E> {
    /// The words for the error. A handler's error is asked for its own
    /// words, which are put between `Other(` and `)`.
    pub fn to_text(&self) -> (t: String)
        ensures
            match *self {
                Error::Other(inner) => exists|words: String| #[trigger]
                    call_ensures(E::message, (&inner,), words) && t@ == self.text(words@),
                _ => t@ == self.text(Seq::<char>::empty()),
            },
    {
        match self {
            Error::SendError(inner) => {
                let mut t = "Message Send Error: ".to_owned();
                let cause = inner.to_text();
                t.append(cause.as_str());
                t
            },
            Error::NoResponse => "NoResponse".to_owned(),
            Error::NoReceivers => "NoReceivers".to_owned(),
            Error::AddListenerError => "AddListenerError".to_owned(),
            Error::MessageCastError => "MessageCastError".to_owned(),
            Error::Other(inner) => {
                let words = inner.message();
                let mut t = "Other(".to_owned();
                t.append(words.as_str());
                t.append(")");
                assert(call_ensures(E::message, (inner,), words) && t@ == self.text(words@));
                t
            },
            Error::Serialization(cause) => {
                let mut t = "Serialization(".to_owned();
                t.append(cause.as_str());
                t.append(")");
                t
            },
            Error::OtherBoxed(inner) => {
                let mut t = "Other(".to_owned();
                t.append(inner.description.as_str());
                t.append(")");
                t
            },
            Error::WrongMessageType(_) => "WrongMessageType()".to_owned(),
        }
    }
}

} // verus!
