use messagebus::envelop::{Envelope, TypeTag, TypeTagged};
use tokio::sync::oneshot;
use messagebus::error::{
    settle, settle_boxed, Error, GenericError, SendError, StdSyncSendError, VoidError,
};

#[derive(Debug, PartialEq)]
struct Broken(u32);

impl TypeTagged for Broken {
    fn type_tag_() -> TypeTag {
        "demo::Broken".to_string()
    }

    fn type_tag(&self) -> TypeTag {
        Self::type_tag_()
    }
}

impl StdSyncSendError for Broken {
    fn message(&self) -> String {
        format!("broken({})", self.0)
    }
}

#[derive(Debug, PartialEq)]
struct Mapped(String, String);

impl From<GenericError> for Mapped {
    fn from(g: GenericError) -> Self {
        Mapped(g.type_tag, g.description)
    }
}

impl TypeTagged for Mapped {
    fn type_tag_() -> TypeTag {
        "demo::Mapped".to_string()
    }

    fn type_tag(&self) -> TypeTag {
        Self::type_tag_()
    }
}

impl StdSyncSendError for Mapped {
    fn message(&self) -> String {
        self.1.clone()
    }
}

#[test]
fn void_error_tag() {
    assert_eq!(VoidError::type_tag_(), "messagebus::error::VoidError");
}

#[test]
fn send_error_into_boxed_closed() {
    let e: SendError<i16> = SendError::Closed(5);
    match e.into_boxed() {
        SendError::Closed(b) => {
            assert_eq!(b.tag, "i16");
            assert_eq!(b.payload, 5);
            assert!(b.clonable);
        }
        SendError::Full(_) => panic!("expected Closed"),
    }
}

#[test]
fn send_error_into_boxed_full_stays_full() {
    let e: SendError<i16> = SendError::Full(6);
    match e.into_boxed() {
        SendError::Full(b) => {
            assert_eq!(b.tag, "i16");
            assert_eq!(b.payload, 6);
            assert!(b.clonable);
        }
        SendError::Closed(_) => panic!("expected Full"),
    }
    let e: SendError<i32> = SendError::Full(32);
    assert!(matches!(e.into_boxed(), SendError::Full(b) if b.payload == 32 && b.tag == "i32"));
}

#[test]
fn generic_error_keeps_tag_and_words() {
    let g = GenericError::from_err(&Broken(3));
    assert_eq!(g.type_tag, "demo::Broken");
    assert_eq!(g.description, "broken(3)");
}

#[test]
fn into_dyn_erases_the_handler_error() {
    let e: Error<u8, Broken> = Error::Other(Broken(4));
    match e.into_dyn() {
        Error::OtherBoxed(g) => {
            assert_eq!(g.type_tag, "demo::Broken");
            assert_eq!(g.description, "broken(4)");
        }
        other => panic!("unexpected {:?}", other),
    }
}

#[test]
fn into_dyn_keeps_every_other_variant() {
    let e: Error<u8, Broken> = Error::SendError(SendError::Full(1));
    assert!(matches!(e.into_dyn(), Error::SendError(SendError::Full(1))));
    let e: Error<u8, Broken> = Error::NoResponse;
    assert!(matches!(e.into_dyn(), Error::NoResponse));
    let e: Error<u8, Broken> = Error::NoReceivers;
    assert!(matches!(e.into_dyn(), Error::NoReceivers));
    let e: Error<u8, Broken> = Error::AddListenerError;
    assert!(matches!(e.into_dyn(), Error::AddListenerError));
    let e: Error<u8, Broken> = Error::MessageCastError;
    assert!(matches!(e.into_dyn(), Error::MessageCastError));
    let e: Error<u8, Broken> = Error::WrongMessageType(2);
    assert!(matches!(e.into_dyn(), Error::WrongMessageType(2)));
    let e: Error<u8, Broken> = Error::Serialization("bad".to_string());
    match e.into_dyn() {
        Error::Serialization(s) => assert_eq!(s, "bad"),
        other => panic!("unexpected {:?}", other),
    }
    let g = GenericError { type_tag: "t".to_string(), description: "d".to_string() };
    let e: Error<u8, Broken> = Error::OtherBoxed(g);
    match e.into_dyn() {
        Error::OtherBoxed(g) => {
            assert_eq!(g.type_tag, "t");
            assert_eq!(g.description, "d");
        }
        other => panic!("unexpected {:?}", other),
    }
}

#[test]
fn map_types_the_erased_error() {
    let g = GenericError { type_tag: "demo::Broken".to_string(), description: "broken(4)".to_string() };
    let e: Error<u8> = Error::OtherBoxed(g);
    match e.map::<Mapped>() {
        Error::Other(m) => assert_eq!(m, Mapped("demo::Broken".to_string(), "broken(4)".to_string())),
        other => panic!("unexpected {:?}", other),
    }
}

#[test]
fn map_keeps_every_other_variant() {
    let e: Error<u8> = Error::NoResponse;
    assert!(matches!(e.map::<Mapped>(), Error::NoResponse));
    let e: Error<u8> = Error::NoReceivers;
    assert!(matches!(e.map::<Mapped>(), Error::NoReceivers));
    let e: Error<u8> = Error::SendError(SendError::Closed(8));
    assert!(matches!(e.map::<Mapped>(), Error::SendError(SendError::Closed(8))));
    let e: Error<u8> = Error::WrongMessageType(8);
    assert!(matches!(e.map::<Mapped>(), Error::WrongMessageType(8)));
    let e: Error<u8> = Error::AddListenerError;
    assert!(matches!(e.map::<Mapped>(), Error::AddListenerError));
    let e: Error<u8> = Error::MessageCastError;
    assert!(matches!(e.map::<Mapped>(), Error::MessageCastError));
}

#[test]
fn specify_gives_the_message_type() {
    let e: Error<(), Broken> = Error::Other(Broken(1));
    assert!(matches!(e.specify::<u8>(), Error::Other(Broken(1))));
    let e: Error<(), Broken> = Error::NoResponse;
    assert!(matches!(e.specify::<u8>(), Error::NoResponse));
    let e: Error<(), Broken> = Error::NoReceivers;
    assert!(matches!(e.specify::<u8>(), Error::NoReceivers));
    let e: Error<(), Broken> = Error::AddListenerError;
    assert!(matches!(e.specify::<u8>(), Error::AddListenerError));
    let e: Error<(), Broken> = Error::MessageCastError;
    assert!(matches!(e.specify::<u8>(), Error::MessageCastError));
}

#[test]
fn from_typed_wraps_the_message() {
    let e: Error<i32> = Error::SendError(SendError::Full(32));
    match Error::from_typed(e) {
        Error::SendError(SendError::Full(b)) => {
            assert_eq!(b.tag, "i32");
            assert_eq!(b.payload, 32);
        }
        other => panic!("unexpected {:?}", other),
    }
    let e: Error<i32> = Error::SendError(SendError::Closed(33));
    match Error::from_typed(e) {
        Error::SendError(SendError::Closed(b)) => assert_eq!(b.payload, 33),
        other => panic!("unexpected {:?}", other),
    }
    let e: Error<i32> = Error::WrongMessageType(34);
    match Error::from_typed(e) {
        Error::WrongMessageType(b) => {
            assert_eq!(b.tag, "i32");
            assert_eq!(b.payload, 34);
        }
        other => panic!("unexpected {:?}", other),
    }
    let e: Error<i32> = Error::NoResponse;
    assert!(matches!(Error::from_typed(e), Error::NoResponse));
    let e: Error<i32> = Error::NoReceivers;
    assert!(matches!(Error::from_typed(e), Error::NoReceivers));
}

fn closed<T>() -> Result<T, oneshot::error::RecvError> {
    let (tx, rx) = oneshot::channel::<T>();
    drop(tx);
    rx.blocking_recv()
}

#[test]
fn closed_channel_is_no_response() {
    let err: oneshot::error::RecvError = closed::<u8>().unwrap_err();
    let e: Error<u8, Broken> = Error::from(err);
    assert!(matches!(e, Error::NoResponse));
}

#[test]
fn settle_hands_on_what_arrived() {
    let got: Result<u8, Error<(), Broken>> = settle(Ok(Ok(9)));
    assert!(matches!(got, Ok(9)));
    let got: Result<u8, Error<(), Broken>> = settle(Ok(Err(Error::Other(Broken(2)))));
    assert!(matches!(got, Err(Error::Other(Broken(2)))));
    let (tx, rx) = oneshot::channel::<Result<u8, Error<(), Broken>>>();
    assert!(tx.send(Ok(3)).is_ok());
    assert!(matches!(settle(rx.blocking_recv()), Ok(3)));
}

#[test]
fn settle_without_response_is_no_response() {
    let got: Result<u8, Error<(), Broken>> = settle(closed());
    assert!(matches!(got, Err(Error::NoResponse)));
}

#[test]
fn settle_boxed_opens_the_envelope() {
    let e = Envelope::new("u8".to_string(), true, false, 9u8);
    let got = settle_boxed(Ok(Ok(e)), &"u8".to_string());
    assert!(matches!(got, Ok(9)));
}

#[test]
fn settle_boxed_refuses_another_type() {
    let e = Envelope::new("u16".to_string(), true, false, 9u8);
    let got = settle_boxed(Ok(Ok(e)), &"u8".to_string());
    assert!(matches!(got, Err(Error::MessageCastError)));
}

#[test]
fn settle_boxed_hands_on_errors() {
    let got: Result<u8, Error> = settle_boxed(Ok(Err(Error::NoReceivers)), &"u8".to_string());
    assert!(matches!(got, Err(Error::NoReceivers)));
    let got: Result<u8, Error> = settle_boxed(closed(), &"u8".to_string());
    assert!(matches!(got, Err(Error::NoResponse)));
}

#[test]
fn send_error_words() {
    assert_eq!(SendError::Closed(1u8).to_text(), "Closed");
    assert_eq!(SendError::Full(1u8).to_text(), "Full");
}

#[test]
fn error_words() {
    let e: Error<u8, Broken> = Error::SendError(SendError::Closed(1));
    assert_eq!(e.to_text(), "Message Send Error: Closed");
    let e: Error<u8, Broken> = Error::SendError(SendError::Full(1));
    assert_eq!(e.to_text(), "Message Send Error: Full");
    let e: Error<u8, Broken> = Error::NoResponse;
    assert_eq!(e.to_text(), "NoResponse");
    let e: Error<u8, Broken> = Error::NoReceivers;
    assert_eq!(e.to_text(), "NoReceivers");
    let e: Error<u8, Broken> = Error::AddListenerError;
    assert_eq!(e.to_text(), "AddListenerError");
    let e: Error<u8, Broken> = Error::MessageCastError;
    assert_eq!(e.to_text(), "MessageCastError");
    let e: Error<u8, Broken> = Error::Other(Broken(7));
    assert_eq!(e.to_text(), "Other(broken(7))");
    let e: Error<u8, Broken> = Error::Serialization("bad input".to_string());
    assert_eq!(e.to_text(), "Serialization(bad input)");
    let g = GenericError { type_tag: "t".to_string(), description: "gone".to_string() };
    let e: Error<u8, Broken> = Error::OtherBoxed(g);
    assert_eq!(e.to_text(), "Other(gone)");
    let e: Error<u8, Broken> = Error::WrongMessageType(3);
    assert_eq!(e.to_text(), "WrongMessageType()");
}
