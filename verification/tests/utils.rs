use futures::future::FutureObj;
use reconnecting_jsonrpsee_ws_client::{
    reconnect_channel, Closed, DispatchedCall, MaybePendingFutures, Notice, Poll, ReconnectCounter,
};
use std::sync::atomic::{AtomicUsize, Ordering};
use std::sync::Arc;
use std::task::{Context, Wake, Waker};

struct Wakes(AtomicUsize);

impl Wake for Wakes {
    fn wake(self: Arc<Self>) {
        self.0.fetch_add(1, Ordering::SeqCst);
    }
}

fn done() -> FutureObj<'static, Result<DispatchedCall, Closed>> {
    FutureObj::new(Box::new(futures::future::ready(Ok(DispatchedCall::Done))))
}

fn dropped() -> FutureObj<'static, Result<DispatchedCall, Closed>> {
    FutureObj::new(Box::new(futures::future::ready(Err(Closed::Dropped))))
}

fn never() -> FutureObj<'static, Result<DispatchedCall, Closed>> {
    FutureObj::new(Box::new(futures::future::pending()))
}

#[test]
fn empty_set_is_pending_and_does_not_end() {
    let waker = futures::task::noop_waker();
    let mut cx = Context::from_waker(&waker);
    let mut pending = MaybePendingFutures::new();

    assert!(pending.is_empty());
    assert_eq!(pending.len(), 0);
    for _ in 0..3 {
        assert!(matches!(pending.poll_next(&mut cx), Poll::Pending));
    }

    // Nor does it end once all that it held is done.
    assert!(pending.push(done()).is_some());
    assert!(matches!(
        pending.poll_next(&mut cx),
        Poll::Ready(Some(Ok(DispatchedCall::Done)))
    ));
    assert!(matches!(pending.poll_next(&mut cx), Poll::Pending));
}

#[test]
fn push_hands_out_the_task_that_found_the_set_empty_last() {
    let wakes: Vec<Arc<Wakes>> = (0..2).map(|_| Arc::new(Wakes(AtomicUsize::new(0)))).collect();
    let first = Waker::from(wakes[0].clone());
    let second = Waker::from(wakes[1].clone());
    let mut pending = MaybePendingFutures::default();

    // Nobody waits yet.
    assert!(pending.push(done()).is_none());
    let mut cx = Context::from_waker(&first);
    assert!(matches!(pending.poll_next(&mut cx), Poll::Ready(Some(_))));

    assert!(matches!(pending.poll_next(&mut cx), Poll::Pending));
    let mut cx = Context::from_waker(&second);
    assert!(matches!(pending.poll_next(&mut cx), Poll::Pending));
    pending.push(never()).unwrap().wake();
    assert_eq!(wakes[0].0.load(Ordering::SeqCst), 0);
    assert_eq!(wakes[1].0.load(Ordering::SeqCst), 1);

    // It is handed out once.
    assert!(pending.push(never()).is_none());
    assert_eq!(pending.len(), 2);
}

#[test]
fn every_output_comes_out_once() {
    let waker = futures::task::noop_waker();
    let mut cx = Context::from_waker(&waker);
    let mut pending = MaybePendingFutures::new();
    for fut in [done(), dropped(), dropped()] {
        assert!(pending.push(fut).is_none());
    }
    let mut outputs = (0, 0);
    for _ in 0..3 {
        match pending.poll_next(&mut cx) {
            Poll::Ready(Some(Ok(DispatchedCall::Done))) => outputs.0 += 1,
            Poll::Ready(Some(Err(Closed::Dropped))) => outputs.1 += 1,
            _ => panic!("an output is there"),
        }
    }
    assert_eq!(outputs, (1, 2));
    assert!(matches!(pending.poll_next(&mut cx), Poll::Pending));
    assert_eq!(pending.len(), 0);
}

#[test]
fn a_future_that_is_done_leaves_the_set() {
    let waker = futures::task::noop_waker();
    let mut cx = Context::from_waker(&waker);
    let mut pending = MaybePendingFutures::new();

    assert!(pending.push(never()).is_none());
    assert!(pending.push(dropped()).is_none());
    assert_eq!(pending.len(), 2);
    assert!(!pending.is_empty());

    assert!(matches!(
        pending.poll_next(&mut cx),
        Poll::Ready(Some(Err(Closed::Dropped)))
    ));
    assert_eq!(pending.len(), 1);
    assert!(matches!(pending.poll_next(&mut cx), Poll::Pending));
    assert_eq!(pending.len(), 1);
}

#[test]
fn counter_counts() {
    let mut counter = ReconnectCounter::new();
    assert_eq!(counter.get(), 0);
    counter.inc();
    counter.inc();
    assert_eq!(counter.get(), 2);
    assert_eq!(counter.get(), 2);
    assert_eq!(ReconnectCounter::default().get(), 0);
}

#[test]
fn all_ends_read_the_count_of_their_channel() {
    let mut tx = reconnect_channel();
    let mut other = reconnect_channel();
    assert_eq!((tx.count(), tx.receiver().count()), (0, 0));

    assert!(matches!(tx.reconnect_initiated(), Notice::Started));
    assert_eq!((tx.count(), tx.receiver().count()), (0, 0));

    assert!(matches!(tx.reconnect(), Notice::Completed { count: 1 }));
    assert_eq!((tx.count(), tx.receiver().count()), (1, 1));
    assert_eq!((other.count(), other.receiver().count()), (0, 0));

    assert!(matches!(other.reconnected(), Notice::Completed { count: 1 }));
    assert!(matches!(tx.reconnected(), Notice::Completed { count: 2 }));
    let rx = tx.receiver();
    let rx2 = rx.clone();
    assert_eq!((tx.count(), rx.count(), rx2.count()), (2, 2, 2));
    assert_eq!((other.count(), other.receiver().count()), (1, 1));
}

#[test]
fn notices_are_told_apart() {
    let mut tx = reconnect_channel();
    let started = tx.reconnect_initiated();
    assert!(tx.receiver().reconnect_started(started));
    assert!(!tx.receiver().reconnected(started));
    assert!(!tx.receiver().on_reconnect(started));

    let completed = tx.reconnected();
    assert!(!tx.receiver().reconnect_started(completed));
    assert!(tx.receiver().reconnected(completed));
    assert!(tx.receiver().on_reconnect(completed));
}
