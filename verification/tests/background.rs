use futures::future::FutureObj;
use reconnecting_jsonrpsee_ws_client::{
    dispatch_call, Answer, BackgroundTask, CallRetryPolicy, Client, Closed, Disconnect, Dispatched,
    DispatchedCall, Error, Event, FixedInterval, HandlerEvent, HandlerStep, MethodResult, Next,
    Notice, Op, Poll, Reply, RpcError, Step, Subscription, SubscriptionHandler,
    SubscriptionId, SubscriptionResult,
};
use serde_json::value::RawValue;
use std::sync::Arc;
use std::task::Context;
use tokio::sync::oneshot;

fn start() -> BackgroundTask {
    match Client::builder().build(Ok(())) {
        Ok(task) => task,
        Err(_) => panic!("a connection was made"),
    }
}

fn json(text: &str) -> Box<RawValue> {
    RawValue::from_string(text.to_string()).unwrap()
}

fn gone() -> RpcError {
    RpcError::RestartNeeded(Arc::new(jsonrpsee::core::ClientError::Custom(
        "gone".to_string(),
    )))
}

/// Hands the task an event that it waits for.
fn turn(task: &mut BackgroundTask, event: Event) -> Step {
    assert!(task.is_awaiting(&event));
    task.background_task(event)
}

/// The one operation that the step dispatches.
fn only_dispatched(step: Step) -> (usize, Op) {
    let mut dispatch = step.dispatch;
    assert_eq!(dispatch.len(), 1);
    dispatch.pop().unwrap()
}

/// An operation that stays in flight until its outcome is sent.
fn in_flight(
    task: &mut BackgroundTask,
) -> oneshot::Sender<Result<DispatchedCall, Closed>> {
    let (tx, rx) = oneshot::channel();
    let fut = FutureObj::new(Box::pin(async move { rx.await.unwrap() }));
    if let Some(waker) = task.push(fut) {
        waker.wake();
    }
    tx
}

/// Tells the caller of an operation what became of it, and hands on the rest.
fn tell(dispatched: Dispatched) -> Result<DispatchedCall, Closed> {
    match dispatched.reply {
        Reply::Held => {}
        Reply::Call { send_back, result } => {
            let _ = send_back.send(result);
        }
        Reply::Subscription { send_back, result } => {
            let _ = send_back.send(result);
        }
    }
    dispatched.result
}

/// What the task gets to see of the operations in flight.
fn poll(task: &mut BackgroundTask) -> Option<Event> {
    let waker = futures::task::noop_waker();
    let mut cx = Context::from_waker(&waker);
    match task.poll_next(&mut cx) {
        Poll::Ready(item) => Some(Event::Response(item)),
        Poll::Pending => None,
    }
}

fn request(task: &BackgroundTask, policy: CallRetryPolicy) -> (Op, oneshot::Receiver<MethodResult>) {
    let (tx, rx) = oneshot::channel();
    match task.client().request_with_policy("say_hello".to_string(), Ok(None), policy, tx) {
        Ok(op) => (op, rx),
        Err(_) => panic!("the params are valid"),
    }
}

/// Opens a subscription, of which the server says `server_id`.
fn subscribe(
    task: &mut BackgroundTask,
    server_id: u64,
    policy: CallRetryPolicy,
) -> (SubscriptionHandler, Subscription) {
    let (send_back, mut rx) = oneshot::channel();
    let op = task.client().subscribe_with_policy(
        "subscribe_lo".to_string(),
        Ok(None),
        "unsubscribe_lo".to_string(),
        policy,
        send_back,
    );
    let Ok(op) = op else {
        panic!("the params are valid");
    };
    let (id, op) = only_dispatched(turn(task, Event::Message(Some(op))));
    let outcome = in_flight(task);
    assert!(poll(task).is_none());
    let server_id = SubscriptionId::Num(server_id);
    let mut dispatched = dispatch_call(op, id, Answer::Subscription(Ok(server_id.clone())));
    let handler = dispatched.handler.take().unwrap();
    assert_eq!(handler.id, id);
    assert!(outcome.send(tell(dispatched)).is_ok());
    let event = poll(task).unwrap();
    let step = turn(task, event);
    assert!(matches!(step.next, Next::Select));
    let sub = Client::subscription_result(rx.try_recv().ok()).unwrap();
    assert_eq!(sub.id(), server_id);
    (handler, sub)
}

/// Lets the handler of a subscription deal with one event, and says what it removes.
fn handle(handler: &SubscriptionHandler, event: HandlerEvent) -> Option<usize> {
    match handler.subscription_handler(event) {
        HandlerStep::Send { message, then } => {
            let delivered = handler.tx.send(message).is_ok();
            match handler.sent(then, delivered) {
                HandlerStep::Stop { remove } => remove,
                _ => None,
            }
        }
        HandlerStep::Stop { remove } => remove,
        HandlerStep::Listen => None,
    }
}

fn next(sub: &mut Subscription) -> Option<SubscriptionResult> {
    let waker = futures::task::noop_waker();
    let mut cx = Context::from_waker(&waker);
    match sub.poll_next(&mut cx) {
        Poll::Ready(item) => item,
        Poll::Pending => panic!("no notification"),
    }
}

#[test]
fn call_works() {
    let mut task = start();
    let (op, mut rx) = request(&task, CallRetryPolicy::Retry);

    let step = turn(&mut task, Event::Message(Some(op)));
    assert!(matches!(step.next, Next::Select));
    assert!(step.notice.is_none() && step.handler.is_none());
    let (id, op) = only_dispatched(step);
    assert_eq!(id, 0);

    let outcome = in_flight(&mut task);
    let result = tell(dispatch_call(op, id, Answer::Call(Ok(json("\"lo\"")))));
    assert!(outcome.send(result).is_ok());
    let event = poll(&mut task).unwrap();
    let step = turn(&mut task, event);
    assert!(matches!(step.next, Next::Select));
    assert!(step.dispatch.is_empty() && step.notice.is_none());

    assert!(Client::method_result(rx.try_recv().ok()).is_ok());
}

#[test]
fn sub_works() {
    let mut task = start();
    let policy = CallRetryPolicy::RetryAndResubscribe;
    let (handler, mut sub) = subscribe(&mut task, 11, policy);

    assert_eq!(
        handle(&handler, HandlerEvent::Notification(json("0"))),
        None
    );
    assert!(next(&mut sub).is_some());
}

#[test]
fn reconn_sub_works() {
    let mut task = start();
    let policy = CallRetryPolicy::RetryAndResubscribe;
    let (handler, mut sub) = subscribe(&mut task, 11, policy);

    let id = handler.id;
    assert_eq!(handle(&handler, HandlerEvent::Ended(gone())), None);
    assert!(matches!(next(&mut sub), Some(Err(Disconnect::Retry(_)))));

    let step = turn(&mut task, Event::Disconnected);
    assert!(task.client().reconnect_started(step.notice.unwrap()));
    assert!(matches!(step.next, Next::Connect));

    let step = turn(&mut task, Event::Connected);
    let notice = step.notice.unwrap();
    assert!(task.client().reconnected(notice));
    let Next::Resubscribe(again) = step.next else {
        panic!("the subscription is re-established");
    };
    assert_eq!(again, id);
    let record = task.open_subscription(again).unwrap();
    assert_eq!(record.subscribe_method, "subscribe_lo");
    assert_eq!(record.unsubscribe_method, "unsubscribe_lo");

    let step = turn(&mut task, Event::Resubscribed);
    assert!(matches!(step.next, Next::Select));
    let handler = step.handler.unwrap();
    assert_eq!(handler.id, id);

    // The subscription keeps running over the new connection.
    for _ in 0..10 {
        assert_eq!(
            handle(&handler, HandlerEvent::Notification(json("0"))),
            None
        );
        assert!(matches!(next(&mut sub), Some(Ok(_))));
    }
    assert_eq!(task.client().reconnect_count(), 1);
}

#[test]
fn reconn_sub_drop_policy_works() {
    let mut task = start();
    let policy = CallRetryPolicy::Drop;
    let (handler, mut sub) = subscribe(&mut task, 11, policy);

    let id = handler.id;
    handle(&handler, HandlerEvent::Notification(json("0")));
    let removed = handle(&handler, HandlerEvent::Ended(gone()));
    assert_eq!(removed, Some(id));
    assert!(next(&mut sub).is_some());
    assert!(matches!(next(&mut sub), Some(Err(Disconnect::Dropped(_)))));

    // It is not re-established, whether the connection is lost first or it is removed first.
    let step = turn(&mut task, Event::Disconnected);
    assert!(matches!(step.next, Next::Connect));
    let step = turn(&mut task, Event::Connected);
    assert!(matches!(step.next, Next::Select));
    assert!(task.open_subscription(id).is_some());
    let step = turn(&mut task, Event::SubscriptionClosed(removed));
    assert!(matches!(step.next, Next::Select));
    assert!(task.open_subscription(id).is_none());
}

#[test]
fn sub_emits_reconn_notif() {
    let mut task = start();
    let policy = CallRetryPolicy::RetryAndResubscribe;
    let (handler, mut sub) = subscribe(&mut task, 11, policy);
    handle(&handler, HandlerEvent::Notification(json("0")));
    handle(&handler, HandlerEvent::Ended(gone()));

    let step = turn(&mut task, Event::Disconnected);
    assert!(task.client().reconnect_started(step.notice.unwrap()));
    assert!(matches!(next(&mut sub), Some(Ok(_))));
    assert!(matches!(next(&mut sub), Some(Err(Disconnect::Retry(_)))));

    let step = turn(&mut task, Event::Connected);
    assert!(task.client().reconnected(step.notice.unwrap()));
    assert_eq!(task.client().reconnect_count(), 1);

    let step = turn(&mut task, Event::Resubscribed);
    handle(
        &step.handler.unwrap(),
        HandlerEvent::Notification(json("0")),
    );
    assert!(next(&mut sub).is_some());
}

#[test]
fn reconn_calls_works() {
    let mut task = start();
    let (op, mut rx) = request(&task, CallRetryPolicy::Retry);
    let (id, op) = only_dispatched(turn(&mut task, Event::Message(Some(op))));
    let outcome = in_flight(&mut task);

    // The call is still pending when the connection is lost.
    assert!(poll(&mut task).is_none());
    let step = turn(&mut task, Event::Disconnected);
    assert!(matches!(step.next, Next::Response));
    assert!(step.notice.is_none());

    let result = tell(dispatch_call(op, id, Answer::Call(Err(gone()))));
    assert!(outcome.send(result).is_ok());
    let event = poll(&mut task).unwrap();
    let step = turn(&mut task, event);
    assert!(task.client().reconnect_started(step.notice.unwrap()));
    assert!(matches!(step.next, Next::Connect));
    assert!(step.dispatch.is_empty());

    // It is sent again over the new connection and completes.
    let (again, op) = only_dispatched(turn(&mut task, Event::Connected));
    assert_eq!(again, id);
    let result = tell(dispatch_call(op, again, Answer::Call(Ok(json("\"lo\"")))));
    assert!(matches!(result, Ok(DispatchedCall::Done)));
    assert!(Client::method_result(rx.try_recv().ok()).is_ok());
}

#[test]
fn reconn_call_with_policy_works() {
    let mut task = start();
    let (op, mut rx) = request(&task, CallRetryPolicy::Drop);
    let (id, op) = only_dispatched(turn(&mut task, Event::Message(Some(op))));
    let outcome = in_flight(&mut task);
    assert!(poll(&mut task).is_none());

    let result = tell(dispatch_call(op, id, Answer::Call(Err(gone()))));
    assert!(outcome.send(result).is_ok());
    let step = turn(&mut task, Event::Disconnected);
    assert!(matches!(step.next, Next::Response));
    let event = poll(&mut task).unwrap();
    let step = turn(&mut task, event);
    assert!(task.client().reconnect_started(step.notice.unwrap()));
    let step = turn(&mut task, Event::Connected);
    assert!(step.dispatch.is_empty());

    assert!(matches!(
        Client::method_result(rx.try_recv().ok()),
        Err(Error::DisconnectedWillReconnect)
    ));
}

#[test]
fn reconn_once_when_offline() {
    let mut task = start();
    let step = turn(&mut task, Event::Disconnected);
    assert!(task.client().reconnect_started(step.notice.unwrap()));

    // Calls that are made while offline wait until the connection is back.
    let (first, _rx) = request(&task, CallRetryPolicy::Retry);
    assert!(!task.is_awaiting(&Event::Message(Some(first))));
    let step = turn(&mut task, Event::Connected);

    for _ in 0..10 {
        let (op, mut rx) = request(&task, CallRetryPolicy::Retry);
        let (id, op) = only_dispatched(turn(&mut task, Event::Message(Some(op))));
        let outcome = in_flight(&mut task);
        let result = tell(dispatch_call(op, id, Answer::Call(Ok(json("\"lo\"")))));
        assert!(outcome.send(result).is_ok());
        let event = poll(&mut task).unwrap();
        let step = turn(&mut task, event);
        assert!(step.notice.is_none());
        assert!(Client::method_result(rx.try_recv().ok()).is_ok());
    }
    assert_eq!(task.client().reconnect_count(), 1);
}

#[test]
fn gives_up_after_ten_retries() {
    let builder = Client::builder().retry_policy(FixedInterval::from_millis(10).take(10));
    assert_eq!(builder.retry_policy.clone().count(), 10);
    let Ok(mut task) = builder.build(Ok(())) else {
        panic!("a connection was made");
    };

    let step = turn(&mut task, Event::Disconnected);
    assert!(task.client().reconnect_started(step.notice.unwrap()));
    let step = turn(&mut task, Event::ConnectFailed);
    assert!(matches!(step.next, Next::Stop));

    let (op, mut rx) = request(&task, CallRetryPolicy::Retry);
    assert!(!task.is_awaiting(&Event::Message(None)));
    // Whatever is sent to a task that is gone is gone too.
    drop(op);
    assert!(matches!(
        Client::method_result(rx.try_recv().ok()),
        Err(Error::Closed)
    ));
}

#[test]
fn a_lost_connection_drains_everything_in_flight_in_order() {
    let mut task = start();
    let mut outcomes = Vec::new();
    let mut ops = Vec::new();
    for _ in 0..3 {
        let (op, _rx) = request(&task, CallRetryPolicy::Retry);
        let (id, op) = only_dispatched(turn(&mut task, Event::Message(Some(op))));
        outcomes.push(in_flight(&mut task));
        ops.push((id, op));
    }
    assert_eq!(ops.iter().map(|op| op.0).collect::<Vec<usize>>(), vec![0, 1, 2]);

    // The first that fails says that the connection is lost.
    for (k, ((id, op), outcome)) in ops.into_iter().zip(outcomes).enumerate() {
        let result = tell(dispatch_call(op, id, Answer::Call(Err(gone()))));
        assert!(outcome.send(result).is_ok());
        let event = poll(&mut task).unwrap();
        let step = turn(&mut task, event);
        assert!(step.dispatch.is_empty());
        if k < 2 {
            assert!(matches!(step.next, Next::Response));
            assert!(step.notice.is_none());
            assert!(!task.is_awaiting(&Event::Connected));
        } else {
            assert!(matches!(step.next, Next::Connect));
            assert!(matches!(step.notice, Some(Notice::Started)));
        }
    }

    let step = turn(&mut task, Event::Connected);
    assert!(matches!(step.notice, Some(Notice::Completed { count: 1 })));
    assert!(matches!(step.next, Next::Select));
    let ids: Vec<usize> = step.dispatch.iter().map(|op| op.0).collect();
    assert_eq!(ids, vec![0, 1, 2]);
}

#[test]
fn only_what_has_to_be_is_reestablished_each_once() {
    let mut task = start();
    let policies = [
        CallRetryPolicy::RetryAndResubscribe,
        CallRetryPolicy::Retry,
        CallRetryPolicy::RetryAndResubscribe,
        CallRetryPolicy::Drop,
        CallRetryPolicy::RetryAndResubscribe,
    ];
    let mut wanted = Vec::new();
    let mut all = Vec::new();
    let mut subs = Vec::new();
    for (n, policy) in policies.into_iter().enumerate() {
        let (handler, sub) = subscribe(&mut task, n as u64, policy);
        let id = handler.id;
        if matches!(policy, CallRetryPolicy::RetryAndResubscribe) {
            wanted.push(id);
        }
        all.push(id);
        subs.push(sub);
    }

    turn(&mut task, Event::Disconnected);
    let mut step = turn(&mut task, Event::Connected);
    assert!(step.handler.is_none());
    let mut done = Vec::new();
    while let Next::Resubscribe(id) = step.next {
        assert!(task.open_subscription(id).is_some());
        step = turn(&mut task, Event::Resubscribed);
        let handler = step.handler.unwrap();
        assert_eq!(handler.id, id);
        assert!(matches!(
            handler.policy,
            CallRetryPolicy::RetryAndResubscribe
        ));
        done.push(id);
    }
    assert!(matches!(step.next, Next::Select));
    done.sort();
    assert_eq!(done, wanted);
    for id in all {
        assert!(task.open_subscription(id).is_some());
    }
}

#[test]
fn a_subscription_that_opens_while_the_connection_is_lost_is_reestablished() {
    let mut task = start();
    let (send_back, mut rx) = oneshot::channel();
    let op = task.client().subscribe_raw(
        "subscribe_lo".to_string(),
        None,
        "unsubscribe_lo".to_string(),
        send_back,
    );
    let (id, op) = only_dispatched(turn(&mut task, Event::Message(Some(op))));
    let outcome = in_flight(&mut task);
    let step = turn(&mut task, Event::Disconnected);
    assert!(matches!(step.next, Next::Response));

    let server_id = SubscriptionId::Num(1);
    let result = tell(dispatch_call(op, id, Answer::Subscription(Ok(server_id))));
    assert!(outcome.send(result).is_ok());
    let event = poll(&mut task).unwrap();
    let step = turn(&mut task, event);
    assert!(matches!(step.next, Next::Connect));
    assert!(Client::subscription_result(rx.try_recv().ok()).is_ok());

    let step = turn(&mut task, Event::Connected);
    assert!(matches!(step.next, Next::Resubscribe(again) if again == id));
}

#[test]
fn the_task_ends_when_nothing_is_left_to_wait_for() {
    for event in [
        Event::Message(None),
        Event::SubscriptionClosed(None),
        Event::Response(None),
    ] {
        let mut task = start();
        let step = turn(&mut task, event);
        assert!(matches!(step.next, Next::Stop));
        assert!(step.notice.is_none());
        for later in [
            Event::Message(None),
            Event::Response(None),
            Event::Disconnected,
            Event::SubscriptionClosed(None),
            Event::Connected,
            Event::ConnectFailed,
            Event::Resubscribed,
            Event::ResubscribeFailed,
        ] {
            assert!(!task.is_awaiting(&later));
        }
    }
}

#[test]
fn the_task_ends_when_a_subscription_cannot_be_reestablished() {
    let mut task = start();
    let policy = CallRetryPolicy::RetryAndResubscribe;
    let (_handler, _sub) = subscribe(&mut task, 1, policy);
    turn(&mut task, Event::Disconnected);
    turn(&mut task, Event::Connected);
    let step = turn(&mut task, Event::ResubscribeFailed);
    assert!(matches!(step.next, Next::Stop));
    assert!(step.handler.is_none());
    assert!(!task.is_awaiting(&Event::Resubscribed));
}

#[test]
fn two_reconnections_are_counted() {
    let mut task = start();
    for n in 1..3 {
        let step = turn(&mut task, Event::Disconnected);
        assert!(matches!(step.notice, Some(Notice::Started)));
        assert_eq!(task.client().reconnect_count(), n - 1);
        let step = turn(&mut task, Event::Connected);
        assert!(matches!(step.notice, Some(Notice::Completed { count }) if count == n));
        assert_eq!(task.client().reconnect_count(), n);
    }
}

#[test]
fn a_removed_subscription_stays_gone() {
    let mut task = start();
    let policy = CallRetryPolicy::RetryAndResubscribe;
    let (gone, _sub) = subscribe(&mut task, 1, policy);
    let (kept, _sub2) = subscribe(&mut task, 2, policy);
    turn(&mut task, Event::SubscriptionClosed(Some(gone.id)));
    for _ in 0..2 {
        turn(&mut task, Event::Disconnected);
        let step = turn(&mut task, Event::Connected);
        assert!(matches!(step.next, Next::Resubscribe(id) if id == kept.id));
        let step = turn(&mut task, Event::Resubscribed);
        assert!(matches!(step.next, Next::Select));
    }
    assert!(task.open_subscription(gone.id).is_none());
}

#[test]
fn a_retried_call_is_answered_once_over_several_losses() {
    let mut task = start();
    let (op, mut rx) = request(&task, CallRetryPolicy::Retry);
    let (id, mut op) = only_dispatched(turn(&mut task, Event::Message(Some(op))));
    for _ in 0..3 {
        let outcome = in_flight(&mut task);
        let result = tell(dispatch_call(op, id, Answer::Call(Err(gone()))));
        assert!(outcome.send(result).is_ok());
        let event = poll(&mut task).unwrap();
        let step = turn(&mut task, event);
        assert!(matches!(step.next, Next::Connect));
        assert!(matches!(
            rx.try_recv(),
            Err(oneshot::error::TryRecvError::Empty)
        ));
        let (again, same) = only_dispatched(turn(&mut task, Event::Connected));
        assert_eq!(again, id);
        op = same;
    }
    let result = tell(dispatch_call(op, id, Answer::Call(Ok(json("\"lo\"")))));
    assert!(matches!(result, Ok(DispatchedCall::Done)));
    assert_eq!(rx.try_recv().unwrap().unwrap().get(), "\"lo\"");
}

#[test]
fn a_dropped_subscription_gets_its_notifications_and_then_the_end() {
    let mut task = start();
    let (handler, mut sub) = subscribe(&mut task, 1, CallRetryPolicy::Retry);
    for text in ["1", "2"] {
        assert_eq!(
            handle(&handler, HandlerEvent::Notification(json(text))),
            None
        );
    }
    let removed = handle(&handler, HandlerEvent::Ended(gone()));
    assert_eq!(removed, Some(handler.id));
    for text in ["1", "2"] {
        assert_eq!(next(&mut sub).unwrap().unwrap().get(), text);
    }
    assert!(matches!(next(&mut sub), Some(Err(Disconnect::Dropped(_)))));
    turn(&mut task, Event::SubscriptionClosed(removed));
    drop(handler);
    assert!(next(&mut sub).is_none());

    turn(&mut task, Event::Disconnected);
    let step = turn(&mut task, Event::Connected);
    assert!(matches!(step.next, Next::Select));
}

#[test]
fn every_turn_gives_a_new_id() {
    let mut task = start();
    let (op, _rx) = request(&task, CallRetryPolicy::Retry);
    assert_eq!(only_dispatched(turn(&mut task, Event::Message(Some(op)))).0, 0);
    turn(&mut task, Event::SubscriptionClosed(Some(99)));
    let (op, _rx) = request(&task, CallRetryPolicy::Retry);
    assert_eq!(only_dispatched(turn(&mut task, Event::Message(Some(op)))).0, 2);
    // A reconnection is one turn.
    turn(&mut task, Event::Disconnected);
    turn(&mut task, Event::Connected);
    let (op, _rx) = request(&task, CallRetryPolicy::Retry);
    assert_eq!(only_dispatched(turn(&mut task, Event::Message(Some(op)))).0, 4);
}
