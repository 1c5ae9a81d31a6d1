use messagebus::context::Permit;
use messagebus::envelop::{generic_type_tag, Message, MessageInfo, TypeTag, TypeTagged};
use messagebus::error::{settle, settle_boxed, Error, SendError, StdSyncSendError};
use messagebus::receiver::{
    Action, Delivery, Event, Reaction, Receiver, SendTypedReceiver, SendUntypedReceiver, Signal,
};
use messagebus::waiters::{Waiter, WaiterKind};
use std::sync::Mutex;
use tokio::sync::oneshot;

struct Bus;

#[derive(Debug, PartialEq)]
struct HandlerError(String);

impl TypeTagged for HandlerError {
    fn type_tag_() -> TypeTag {
        "Error".to_string()
    }

    fn type_tag(&self) -> TypeTag {
        Self::type_tag_()
    }
}

impl StdSyncSendError for HandlerError {
    fn message(&self) -> String {
        format!("Error({})", self.0)
    }
}

#[derive(Debug, Clone, PartialEq)]
struct Msg<F>(F);

impl<F: TypeTagged> TypeTagged for Msg<F> {
    fn type_tag_() -> TypeTag {
        generic_type_tag("Msg", &vec![F::type_tag_()])
    }

    fn type_tag(&self) -> TypeTag {
        Self::type_tag_()
    }
}

impl<F: TypeTagged + Clone> Message for Msg<F> {
    fn is_clonable() -> bool {
        true
    }

    fn is_shared() -> bool {
        false
    }

    fn try_clone(&self) -> Option<Self> {
        Some(self.clone())
    }
}

struct Handler<M> {
    taken: Mutex<Vec<(u64, M)>>,
    actions: Mutex<Vec<String>>,
}

impl<M> Handler<M> {
    fn new() -> Self {
        Handler { taken: Mutex::new(Vec::new()), actions: Mutex::new(Vec::new()) }
    }
}

impl<M: Send> SendTypedReceiver<M, Bus> for Handler<M> {
    fn send(&self, mid: u64, msg: M, _bus: &Bus) -> Result<(), SendError<M>> {
        self.taken.lock().unwrap().push((mid, msg));
        Ok(())
    }
}

impl<M: Send> SendUntypedReceiver<Bus> for Handler<M> {
    fn send(&self, msg: Action, _bus: &Bus) -> Result<(), SendError<Action>> {
        self.actions.lock().unwrap().push(format!("{:?}", msg));
        Ok(())
    }
}

fn taken<M: Clone, R, E>(r: &Receiver<M, R, E, Handler<M>>) -> Vec<(u64, M)>
where
    M: Message,
    R: Message,
    E: StdSyncSendError,
{
    let list = r.strategy().taken.lock().unwrap().clone();
    list
}

fn reserve<M: Message, R: Message, E: StdSyncSendError, S>(r: &mut Receiver<M, R, E, S>) -> Permit {
    r.try_reserve(&M::type_tag_()).unwrap()
}

fn one_hop<M>(value: M) -> u64
where
    M: Message + Clone + PartialEq + std::fmt::Debug + Send,
{
    let mut r: Receiver<M, (), HandlerError, Handler<M>> =
        Receiver::new("chain".to_string(), 8, Handler::new());
    assert!(r.init(&Bus).is_ok());
    assert!(matches!(r.handle_event(Event::Ready), Reaction::Notify(Signal::Ready)));
    let permit = reserve(&mut r);
    assert!(r.send(&Bus, 0, value.clone(), permit).is_ok());
    assert_eq!(r.processing(), 1);
    assert_eq!(taken(&r), vec![(0, value)]);
    let reaction = r.handle_event(Event::Response(0, Ok(())));
    assert!(matches!(reaction, Reaction::Response { mid: 0, outcome: None }));
    assert_eq!(reaction.signal(), Some(Signal::Response));
    assert_eq!(r.flush(&Bus), Some(Signal::Flushed));
    assert!(matches!(r.handle_event(Event::Flushed), Reaction::Notify(Signal::Flushed)));
    let after_flush = r.processing();
    assert_eq!(r.close(&Bus), Some(Signal::Closed));
    assert!(r.handle_event(Event::Exited).is_exit());
    after_flush
}

#[test]
fn chain_of_handlers_sees_each_value_once() {
    assert_eq!(one_hop(1u16), 0);
    assert_eq!(one_hop(2u32), 0);
    assert_eq!(one_hop(3i32), 0);
    assert_eq!(one_hop(4i16), 0);
}

#[test]
fn backpressure_with_limit_one() {
    let mut r: Receiver<u32, (), HandlerError, Handler<u32>> =
        Receiver::new("slow".to_string(), 1, Handler::new());
    let mut waits = 0;
    for n in 0..11u32 {
        let permit = match r.try_reserve(&u32::type_tag_()) {
            Some(p) => p,
            None => {
                waits += 1;
                let answered = (n - 1) as u64;
                let reaction = r.handle_event(Event::Response(answered, Ok(())));
                assert_eq!(reaction.signal(), Some(Signal::Response));
                r.try_reserve(&u32::type_tag_()).unwrap()
            }
        };
        assert!(r.try_reserve(&u32::type_tag_()).is_none());
        assert!(r.send(&Bus, n as u64, n, permit).is_ok());
        assert!(r.processing() <= 1);
    }
    assert_eq!(waits, 10);
    r.handle_event(Event::Response(10, Ok(())));
    assert_eq!(r.processing(), 0);
    let expected: Vec<(u64, u32)> = (0..11u32).map(|n| (n as u64, n)).collect();
    assert_eq!(taken(&r), expected);
}

#[test]
fn request_resolves_to_the_typed_response() {
    let mut r: Receiver<Msg<i16>, Msg<u8>, HandlerError, Handler<Msg<i16>>> =
        Receiver::new("typed".to_string(), 1, Handler::new());
    assert!(r.accept(&"Msg<i16>".to_string(), Some(&"Msg<u8>".to_string()), None));
    let permit = reserve(&mut r);
    let (tx, rx) = oneshot::channel();
    let mid = r.add_response_waiter(tx).unwrap();
    assert!(r.send(&Bus, mid, Msg(12i16), permit).is_ok());
    assert_eq!(taken(&r), vec![(mid, Msg(12i16))]);
    match r.handle_event(Event::Response(mid, Ok(Msg(9u8)))) {
        Reaction::Response { mid: m, outcome: Some(Ok(())) } => assert_eq!(m, mid),
        other => panic!("unexpected {:?}", other),
    }
    let res = settle(rx.blocking_recv());
    assert_eq!(res.unwrap(), Msg(9u8));
    assert_eq!(r.processing(), 0);
}

#[test]
fn cancelled_request_leaves_the_receiver_consistent() {
    let mut r: Receiver<Msg<i16>, Msg<u8>, HandlerError, Handler<Msg<i16>>> =
        Receiver::new("typed".to_string(), 1, Handler::new());
    let permit = reserve(&mut r);
    let (tx, rx) = oneshot::channel();
    let mid = r.add_response_waiter(tx).unwrap();
    r.send(&Bus, mid, Msg(12i16), permit).unwrap();
    drop(rx);
    let reaction = r.handle_event(Event::Response(mid, Ok(Msg(9u8))));
    match reaction {
        Reaction::Response { outcome: Some(Err(Delivery::WithoutErrorType(Ok(back)))), .. } => {
            assert_eq!(back, Msg(9u8))
        }
        other => panic!("unexpected {:?}", other),
    }
    assert_eq!(r.processing(), 0);
    let permit = reserve(&mut r);
    let (tx, rx) = oneshot::channel();
    let next = r.add_response_waiter(tx).unwrap();
    assert!(r.send(&Bus, next, Msg(13i16), permit).is_ok());
    let reaction = r.handle_event(Event::Response(next, Ok(Msg(10u8))));
    assert!(matches!(reaction, Reaction::Response { outcome: Some(Ok(())), .. }));
    assert_eq!(settle(rx.blocking_recv()).unwrap(), Msg(10u8));
}

#[test]
fn test_relay() {
    let info = MessageInfo { tag: "Msg<u8>".to_string(), clonable: true, shared: false };
    let mut relay: Receiver<Msg<i16>, Msg<u8>, HandlerError, Handler<Msg<i16>>> = Receiver::new_relay(
        "relay".to_string(),
        4,
        Handler::new(),
        "Msg<i16>".to_string(),
        info,
        "Error".to_string(),
    );
    assert!(relay.accept(&"Msg<i16>".to_string(), Some(&"Msg<u8>".to_string()), Some(&"Error".to_string())));
    assert!(!relay.accept(&"Msg<i16>".to_string(), Some(&"Msg<()>".to_string()), None));
    assert!(relay.typed().is_none());
    assert!(relay.wrapper().is_none());
    assert_eq!(relay.response_form(), WaiterKind::Boxed);

    let mut unit: Receiver<Msg<i32>, Msg<()>, HandlerError, Handler<Msg<i32>>> =
        Receiver::new("relay".to_string(), 4, Handler::new());
    assert!(unit.accept(&"Msg<i32>".to_string(), Some(&"Msg<()>".to_string()), Some(&"Error".to_string())));
    let permit = reserve(&mut unit);
    unit.send(&Bus, 0, Msg(32i32), permit).unwrap();
    assert_eq!(taken(&unit), vec![(0, Msg(32i32))]);
    let reaction = unit.handle_event(Event::Response(0, Ok(Msg(()))));
    assert!(matches!(reaction, Reaction::Response { mid: 0, outcome: None }));
    assert_eq!(unit.processing(), 0);

    let permit = reserve(&mut relay);
    let (tx, rx) = oneshot::channel();
    let mid = relay.add_response_listener(Waiter::Boxed(tx)).unwrap();
    relay.send(&Bus, mid, Msg(12i16), permit).unwrap();
    assert_eq!(taken(&relay), vec![(mid, Msg(12i16))]);
    let reaction = relay.handle_event(Event::Response(mid, Ok(Msg(9u8))));
    assert!(matches!(reaction, Reaction::Response { outcome: Some(Ok(())), .. }));
    let res = settle_boxed(rx.blocking_recv(), &Msg::<u8>::type_tag_()).unwrap();
    assert_eq!(res.0, 9u8);

    assert_eq!(relay.flush(&Bus), Some(Signal::Flushed));
    assert!(matches!(relay.handle_event(Event::Flushed), Reaction::Notify(Signal::Flushed)));
    assert_eq!(relay.close(&Bus), Some(Signal::Closed));
    assert!(relay.handle_event(Event::Exited).is_exit());
}

#[test]
fn response_without_listener_is_dropped() {
    let mut r: Receiver<u16, u16, HandlerError, Handler<u16>> =
        Receiver::new("drop".to_string(), 2, Handler::new());
    let permit = reserve(&mut r);
    r.send(&Bus, 77, 1, permit).unwrap();
    assert_eq!(r.processing(), 1);
    let reaction = r.handle_event(Event::Response(77, Ok(5)));
    assert!(matches!(reaction, Reaction::Response { mid: 77, outcome: None }));
    assert!(!reaction.is_exit());
    assert_eq!(r.processing(), 0);
    let permit = reserve(&mut r);
    let (tx, rx) = oneshot::channel();
    let mid = r.add_response_waiter_we(tx).unwrap();
    r.send(&Bus, mid, 2, permit).unwrap();
    let reaction =
        r.handle_event(Event::Response(mid, Err(Error::Other(HandlerError("late".to_string())))));
    assert!(matches!(reaction, Reaction::Response { outcome: Some(Ok(())), .. }));
    match settle(rx.blocking_recv()) {
        Err(Error::Other(e)) => assert_eq!(e, HandlerError("late".to_string())),
        other => panic!("unexpected {:?}", other),
    }
    assert_eq!(r.processing(), 0);
}

#[test]
fn unanswered_request_ends_with_no_response_at_exit() {
    let mut r: Receiver<u16, u16, HandlerError, Handler<u16>> =
        Receiver::new("exit".to_string(), 2, Handler::new());
    let permit = reserve(&mut r);
    let (tx, rx) = oneshot::channel::<Result<u16, Error>>();
    let mid = r.add_response_waiter(tx).unwrap();
    r.send(&Bus, mid, 1, permit).unwrap();
    assert!(r.handle_event(Event::Exited).is_exit());
    assert!(matches!(settle(rx.blocking_recv()), Err(Error::NoResponse)));
    assert!(matches!(r.handle_event(Event::Response(mid, Ok(5))), Reaction::Idle));
}

#[test]
fn failed_init_unblocks_ready_and_closes_the_receiver() {
    let mut r: Receiver<u16, u16, HandlerError, Handler<u16>> =
        Receiver::new("failing".to_string(), 2, Handler::new());
    assert!(r.init(&Bus).is_ok());
    assert_eq!(r.ready(), Some(Signal::Ready));
    let reaction = r.handle_event(Event::InitFailed(Error::Other(HandlerError("no".to_string()))));
    assert_eq!(reaction.signal(), Some(Signal::Ready));
    match reaction {
        Reaction::InitFailed(Error::Other(e)) => assert_eq!(e, HandlerError("no".to_string())),
        other => panic!("unexpected {:?}", other),
    }
    assert!(!r.is_ready());
    let permit = reserve(&mut r);
    assert!(matches!(r.send(&Bus, 0, 3, permit), Err(Error::SendError(SendError::Closed(3)))));
    assert!(taken(&r).is_empty());
    assert!(matches!(r.handle_event(Event::Ready), Reaction::Notify(Signal::Ready)));
    assert!(!r.is_ready());
    assert!(matches!(r.force_send(&Bus, 1, 4), Err(Error::SendError(SendError::Closed(4)))));
}
