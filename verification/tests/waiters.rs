use messagebus::envelop::Envelope;
use messagebus::error::Error;
use messagebus::event::{hand_over, Delivery};
use messagebus::waiters::{Waiter, WaiterKind, Waiters};
use tokio::sync::oneshot;

type Listeners = Waiters<u8, messagebus::error::VoidError>;

fn boxed() -> Waiter<u8, messagebus::error::VoidError> {
    let (tx, _rx) = oneshot::channel();
    Waiter::Boxed(tx)
}

#[test]
fn waiter_kind_is_its_form() {
    let (tx, _rx) = oneshot::channel::<Result<u8, Error<(), messagebus::error::VoidError>>>();
    let w: Waiter<u8, messagebus::error::VoidError> = Waiter::WithErrorType(tx);
    assert_eq!(w.kind(), WaiterKind::WithErrorType);
    let (tx, _rx) = oneshot::channel::<Result<u8, Error>>();
    let w: Waiter<u8, messagebus::error::VoidError> = Waiter::WithoutErrorType(tx);
    assert_eq!(w.kind(), WaiterKind::WithoutErrorType);
    assert_eq!(boxed().kind(), WaiterKind::Boxed);
    let (tx, _rx) = oneshot::channel::<Result<Envelope<u8>, Error<(), messagebus::error::VoidError>>>();
    let w: Waiter<u8, messagebus::error::VoidError> = Waiter::BoxedWithError(tx);
    assert_eq!(w.kind(), WaiterKind::BoxedWithError);
}

#[test]
fn registered_listener_is_found_once() {
    let mut w = Listeners::new();
    let mid = w.insert(boxed()).unwrap();
    assert!(matches!(w.take(mid), Some(Waiter::Boxed(_))));
    assert!(w.take(mid).is_none());
}

#[test]
fn listeners_get_distinct_ids() {
    let mut w = Listeners::new();
    let (tx, _rx1) = oneshot::channel();
    let a = w.insert(Waiter::WithErrorType(tx)).unwrap();
    let (tx, _rx2) = oneshot::channel();
    let b = w.insert(Waiter::WithoutErrorType(tx)).unwrap();
    let (tx, _rx3) = oneshot::channel();
    let c = w.insert(Waiter::BoxedWithError(tx)).unwrap();
    assert_ne!(a, b);
    assert_ne!(a, c);
    assert_ne!(b, c);
    assert!(matches!(w.take(b), Some(Waiter::WithoutErrorType(_))));
    assert!(matches!(w.take(a), Some(Waiter::WithErrorType(_))));
    assert!(matches!(w.take(c), Some(Waiter::BoxedWithError(_))));
    assert!(w.take(a).is_none());
    assert!(w.take(b).is_none());
    assert!(w.take(c).is_none());
}

#[test]
fn unknown_id_finds_no_listener() {
    let mut w = Listeners::new();
    assert!(w.take(0).is_none());
    let mid = w.insert(boxed()).unwrap();
    assert!(w.take(mid + 1).is_none());
    assert!(w.take(u64::MAX).is_none());
    assert!(w.take(mid).is_some());
}

#[test]
fn ids_of_taken_listeners_can_be_given_again() {
    let mut w = Listeners::new();
    for _ in 0..100 {
        let mid = w.insert(boxed()).unwrap();
        assert!(w.take(mid).is_some());
        assert!(w.take(mid).is_none());
    }
}

#[test]
fn clear_closes_every_channel() {
    let mut w = Listeners::new();
    let (tx, mut rx1) = oneshot::channel();
    let a = w.insert(Waiter::Boxed(tx)).unwrap();
    let (tx, mut rx2) = oneshot::channel::<Result<u8, Error>>();
    let b = w.insert(Waiter::WithoutErrorType(tx)).unwrap();
    w.clear();
    assert!(matches!(rx1.try_recv(), Err(oneshot::error::TryRecvError::Closed)));
    assert!(matches!(rx2.try_recv(), Err(oneshot::error::TryRecvError::Closed)));
    assert!(w.take(a).is_none());
    assert!(w.take(b).is_none());
    let c = w.insert(boxed()).unwrap();
    assert_ne!(c, a);
    assert_ne!(c, b);
}

#[test]
fn hand_over_puts_the_response_into_the_channel() {
    let (tx, mut rx) = oneshot::channel::<Result<u8, Error>>();
    let w: Waiter<u8, messagebus::error::VoidError> = Waiter::WithoutErrorType(tx);
    assert!(hand_over(w, Delivery::WithoutErrorType(Ok(9))).is_ok());
    assert!(matches!(rx.try_recv(), Ok(Ok(9))));
}

#[test]
fn hand_over_to_a_gone_listener_gives_the_response_back() {
    let (tx, rx) = oneshot::channel::<Result<u8, Error>>();
    drop(rx);
    let w: Waiter<u8, messagebus::error::VoidError> = Waiter::WithoutErrorType(tx);
    let back = hand_over(w, Delivery::WithoutErrorType(Ok(9)));
    assert!(matches!(back, Err(Delivery::WithoutErrorType(Ok(9)))));
}

#[test]
fn hand_over_in_another_form_gives_the_response_back() {
    let (tx, mut rx) = oneshot::channel::<Result<u8, Error>>();
    let w: Waiter<u8, messagebus::error::VoidError> = Waiter::WithoutErrorType(tx);
    let back = hand_over(w, Delivery::WithErrorType(Ok(9)));
    assert!(matches!(back, Err(Delivery::WithErrorType(Ok(9)))));
    assert!(matches!(rx.try_recv(), Err(oneshot::error::TryRecvError::Closed)));
}

#[test]
fn unknown_id_between_inserts_does_no_harm() {
    let mut w = Listeners::new();
    let (tx, mut rx_a) = oneshot::channel::<Result<u8, Error>>();
    let a = w.insert(Waiter::WithoutErrorType(tx)).unwrap();
    assert!(w.take(a + 1).is_none());
    assert!(w.take(a + 2).is_none());
    let (tx, mut rx_b) = oneshot::channel::<Result<u8, Error>>();
    let b = w.insert(Waiter::WithoutErrorType(tx)).unwrap();
    assert!(w.take(b + 1).is_none());
    let (tx, mut rx_c) = oneshot::channel::<Result<u8, Error>>();
    let c = w.insert(Waiter::WithoutErrorType(tx)).unwrap();
    assert_ne!(a, b);
    assert_ne!(a, c);
    assert_ne!(b, c);
    assert!(hand_over(w.take(c).unwrap(), Delivery::WithoutErrorType(Ok(3))).is_ok());
    assert!(hand_over(w.take(b).unwrap(), Delivery::WithoutErrorType(Ok(2))).is_ok());
    assert!(hand_over(w.take(a).unwrap(), Delivery::WithoutErrorType(Ok(1))).is_ok());
    assert!(matches!(rx_a.try_recv(), Ok(Ok(1))));
    assert!(matches!(rx_b.try_recv(), Ok(Ok(2))));
    assert!(matches!(rx_c.try_recv(), Ok(Ok(3))));
}

#[test]
fn taken_id_taken_again_does_no_harm() {
    let mut w = Listeners::new();
    let a = w.insert(boxed()).unwrap();
    assert!(w.take(a).is_some());
    assert!(w.take(a).is_none());
    assert!(w.take(a).is_none());
    let b = w.insert(boxed()).unwrap();
    let c = w.insert(boxed()).unwrap();
    let d = w.insert(boxed()).unwrap();
    assert_ne!(b, c);
    assert_ne!(b, d);
    assert_ne!(c, d);
    assert!(w.take(b).is_some());
    assert!(w.take(c).is_some());
    assert!(w.take(d).is_some());
}
