use tokio_mock::oneshot::{channel, RecvError, TryRecvError};
use tokio_mock::step::Step;

#[test]
fn send_recv() {
    let (tx, mut rx, mut ch) = channel();

    assert!(matches!(rx.poll(&mut ch), Step::Suspended));
    assert!(tx.send(&mut ch, 42).is_ok());
    match rx.poll(&mut ch) {
        Step::Completed(Ok(v)) => assert_eq!(v, 42),
        other => panic!("expected completion with the value, got {:?}", other),
    }
}

#[test]
fn oneshot_dropping_tx() {
    let (tx, mut rx, mut ch) = channel::<()>();

    assert!(matches!(rx.poll(&mut ch), Step::Suspended));
    tx.drop_handle(&mut ch);
    assert!(matches!(rx.poll(&mut ch), Step::Completed(Err(RecvError))));
}

#[test]
fn oneshot_dropping_tx_try_recv() {
    let (tx, mut rx, mut ch) = channel::<()>();

    assert_eq!(rx.try_recv(&mut ch), Err(TryRecvError::Empty));
    tx.drop_handle(&mut ch);
    assert_eq!(rx.try_recv(&mut ch), Err(TryRecvError::Closed));
}

#[test]
fn oneshot_dropping_rx() {
    let (tx, rx, mut ch) = channel();

    assert!(!tx.is_closed(&ch));
    rx.drop_handle(&mut ch);
    assert!(tx.is_closed(&ch));
    assert_eq!(tx.send(&mut ch, ()), Err(()));
}

#[test]
fn send_closed() {
    let (tx, rx, mut ch) = channel::<()>();

    assert!(matches!(tx.closed(&ch), Step::Suspended));
    rx.drop_handle(&mut ch);
    assert!(matches!(tx.closed(&ch), Step::Completed(())));
}

#[test]
fn oneshot_try_recv_after_send() {
    let (tx, mut rx, mut ch) = channel();

    assert_eq!(rx.try_recv(&mut ch), Err(TryRecvError::Empty));
    assert!(tx.send(&mut ch, 7).is_ok());
    assert_eq!(rx.try_recv(&mut ch), Ok(7));
    // The sender is consumed by sending, so the drained slot reports closed.
    assert_eq!(rx.try_recv(&mut ch), Err(TryRecvError::Closed));
}

#[test]
fn oneshot_close_fails_send() {
    let (tx, mut rx, mut ch) = channel();

    rx.close(&mut ch);
    assert!(tx.is_closed(&ch));
    assert_eq!(tx.send(&mut ch, 5), Err(5));
}
