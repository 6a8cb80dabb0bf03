use reconnecting_jsonrpsee_ws_client::{
    dispatch_call, Answer, BackgroundTask, CallRetryPolicy, Client, Closed, DispatchedCall, Error, MethodResult,
    Op, Reply, RpcError, RpcParams, Subscription, SubscriptionId,
};
use serde_json::value::RawValue;
use std::sync::Arc;
use tokio::sync::oneshot;

fn task() -> BackgroundTask {
    match Client::builder().build(Ok(())) {
        Ok(task) => task,
        Err(_) => panic!("a connection was made"),
    }
}

fn json(text: &str) -> Box<RawValue> {
    RawValue::from_string(text.to_string()).unwrap()
}

fn closed() -> RpcError {
    RpcError::RestartNeeded(Arc::new(jsonrpsee::core::ClientError::Custom(
        "gone".to_string(),
    )))
}

fn timeout() -> RpcError {
    RpcError::Other(jsonrpsee::core::ClientError::RequestTimeout)
}

fn call(policy: CallRetryPolicy) -> (Op, oneshot::Receiver<MethodResult>) {
    let (tx, rx) = oneshot::channel();
    let op = task().client().request_raw_with_policy(
        "say_hello".to_string(),
        Some(json("[1]")),
        policy,
        tx,
    );
    (op, rx)
}

fn subscription(
    policy: CallRetryPolicy,
) -> (Op, oneshot::Receiver<Result<Subscription, Error>>) {
    let (tx, rx) = oneshot::channel();
    let op = task().client().subscribe_raw_with_policy(
        "subscribe_lo".to_string(),
        Some(json("[2]")),
        "unsubscribe_lo".to_string(),
        policy,
        tx,
    );
    (op, rx)
}

fn tell(reply: Reply) -> bool {
    match reply {
        Reply::Held => false,
        Reply::Call { send_back, result } => send_back.send(result).is_ok(),
        Reply::Subscription { send_back, result } => send_back.send(result).is_ok(),
    }
}

fn text(params: RpcParams) -> Option<String> {
    params
        .to_rpc_params()
        .unwrap()
        .map(|json| json.get().to_string())
}

#[test]
fn an_answered_call_is_done() {
    let (op, mut rx) = call(CallRetryPolicy::Retry);
    let dispatched = dispatch_call(op, 3, Answer::Call(Ok(json("\"lo\""))));
    assert!(matches!(dispatched.result, Ok(DispatchedCall::Done)));
    assert!(tell(dispatched.reply));
    assert_eq!(rx.try_recv().unwrap().unwrap().get(), "\"lo\"");
}

#[test]
fn a_failed_call_is_done_with_its_error() {
    // Also under a policy that retries: only a lost connection is a reason to.
    for policy in [
        CallRetryPolicy::Drop,
        CallRetryPolicy::Retry,
        CallRetryPolicy::RetryAndResubscribe,
    ] {
        let (op, mut rx) = call(policy);
        let dispatched = dispatch_call(op, 3, Answer::Call(Err(timeout())));
        assert!(matches!(dispatched.result, Ok(DispatchedCall::Done)));
        assert!(tell(dispatched.reply));
        assert!(matches!(
            rx.try_recv().unwrap(),
            Err(Error::RpcError(RpcError::Other(
                jsonrpsee::core::ClientError::RequestTimeout
            )))
        ));
    }
}

#[test]
fn a_call_is_dropped_with_the_connection_if_it_asked_for_that() {
    let (op, mut rx) = call(CallRetryPolicy::Drop);
    let dispatched = dispatch_call(op, 3, Answer::Call(Err(closed())));
    assert!(matches!(dispatched.result, Err(Closed::Dropped)));
    assert!(tell(dispatched.reply));
    assert!(matches!(
        rx.try_recv().unwrap(),
        Err(Error::DisconnectedWillReconnect)
    ));
}

#[test]
fn a_call_is_kept_as_it_was_when_the_connection_is_lost() {
    for policy in [CallRetryPolicy::Retry, CallRetryPolicy::RetryAndResubscribe] {
        let (op, mut rx) = call(policy);
        let dispatched = dispatch_call(op, 7, Answer::Call(Err(closed())));
        assert!(matches!(dispatched.reply, Reply::Held));
        let Err(Closed::Retry { op, id }) = dispatched.result else {
            panic!("the call is retried");
        };
        assert_eq!(id, 7);
        // Nothing is said yet, but the answer can still be.
        assert!(matches!(
            rx.try_recv(),
            Err(oneshot::error::TryRecvError::Empty)
        ));
        let Op::Call {
            method,
            params,
            send_back,
            ..
        } = op
        else {
            panic!("the call is a call");
        };
        assert_eq!(method, "say_hello");
        assert_eq!(text(params.clone()), Some("[1]".to_string()));
        assert_eq!(text(params), Some("[1]".to_string()));
        assert!(send_back.send(Ok(json("0"))).is_ok());
        assert_eq!(rx.try_recv().unwrap().unwrap().get(), "0");
    }
}

#[test]
fn an_accepted_subscription_is_handed_out_and_recorded() {
    let (op, mut rx) = subscription(CallRetryPolicy::RetryAndResubscribe);
    let server_id = SubscriptionId::Str("abc".into());
    let dispatched = dispatch_call(op, 5, Answer::Subscription(Ok(server_id)));
    let handler = dispatched.handler.unwrap();
    assert_eq!(handler.id, 5);
    assert!(matches!(
        handler.policy,
        CallRetryPolicy::RetryAndResubscribe
    ));
    assert!(tell(dispatched.reply));
    let Ok(DispatchedCall::Subscription { id, sub }) = dispatched.result else {
        panic!("the subscription is open");
    };
    assert_eq!(id, 5);
    assert_eq!(sub.subscribe_method, "subscribe_lo");
    assert_eq!(sub.unsubscribe_method, "unsubscribe_lo");
    assert_eq!(text(sub.params), Some("[2]".to_string()));
    assert!(matches!(sub.policy, CallRetryPolicy::RetryAndResubscribe));

    // What is sent on the recorded end arrives at the end that was handed out.
    let mut handed_out = rx.try_recv().unwrap().unwrap();
    assert_eq!(handed_out.id(), SubscriptionId::Str("abc".into()));
    assert!(sub.tx.send(Ok(json("42"))).is_ok());
    let waker = futures::task::noop_waker();
    let mut cx = std::task::Context::from_waker(&waker);
    let reconnecting_jsonrpsee_ws_client::Poll::Ready(Some(Ok(notification))) =
        handed_out.poll_next(&mut cx)
    else {
        panic!("the notification arrives");
    };
    assert_eq!(notification.get(), "42");
    assert!(matches!(
        handed_out.poll_next(&mut cx),
        reconnecting_jsonrpsee_ws_client::Poll::Pending
    ));
    // So does what its handler sends.
    assert!(handler.tx.send(Ok(json("43"))).is_ok());
    let reconnecting_jsonrpsee_ws_client::Poll::Ready(Some(Ok(notification))) =
        handed_out.poll_next(&mut cx)
    else {
        panic!("the notification arrives");
    };
    assert_eq!(notification.get(), "43");
    drop(handler);
    drop(sub.tx);
    assert!(matches!(
        handed_out.poll_next(&mut cx),
        reconnecting_jsonrpsee_ws_client::Poll::Ready(None)
    ));
    assert_eq!(handed_out.id(), SubscriptionId::Str("abc".into()));
}

#[test]
fn a_subscription_is_dropped_with_the_connection_if_it_asked_for_that() {
    let (op, mut rx) = subscription(CallRetryPolicy::Drop);
    let dispatched = dispatch_call(op, 5, Answer::Subscription(Err(closed())));
    assert!(dispatched.handler.is_none());
    assert!(matches!(dispatched.result, Err(Closed::Dropped)));
    assert!(tell(dispatched.reply));
    assert!(matches!(
        rx.try_recv().unwrap(),
        Err(Error::DisconnectedWillReconnect)
    ));
}

#[test]
fn a_subscription_is_kept_as_it_was_when_the_connection_is_lost() {
    let (op, mut rx) = subscription(CallRetryPolicy::Retry);
    let dispatched = dispatch_call(op, 5, Answer::Subscription(Err(closed())));
    assert!(dispatched.handler.is_none());
    assert!(matches!(dispatched.reply, Reply::Held));
    let Err(Closed::Retry {
        op:
            Op::Subscription {
                subscribe_method,
                params,
                unsubscribe_method,
                policy,
                ..
            },
        id: 5,
    }) = dispatched.result
    else {
        panic!("the subscription is retried");
    };
    assert_eq!(subscribe_method, "subscribe_lo");
    assert_eq!(unsubscribe_method, "unsubscribe_lo");
    assert_eq!(text(params), Some("[2]".to_string()));
    assert!(matches!(policy, CallRetryPolicy::Retry));
    assert!(rx.try_recv().is_err());
}

#[test]
fn a_refused_subscription_is_done_with_its_error() {
    let (op, mut rx) = subscription(CallRetryPolicy::RetryAndResubscribe);
    let dispatched = dispatch_call(op, 5, Answer::Subscription(Err(timeout())));
    assert!(matches!(dispatched.result, Ok(DispatchedCall::Done)));
    assert!(tell(dispatched.reply));
    assert!(matches!(
        rx.try_recv().unwrap(),
        Err(Error::RpcError(RpcError::Other(_)))
    ));
}

#[test]
fn notifications_are_handed_on_once_and_in_order_until_the_end() {
    let (op, mut rx) = subscription(CallRetryPolicy::Retry);
    let dispatched = dispatch_call(op, 0, Answer::Subscription(Ok(SubscriptionId::Num(1))));
    let tx = dispatched.handler.unwrap().tx;
    assert!(tell(dispatched.reply));
    drop(dispatched.result);
    let mut handed_out = rx.try_recv().unwrap().unwrap();
    for text in ["1", "2", "3"] {
        assert!(tx.send(Ok(json(text))).is_ok());
    }
    drop(tx);

    let waker = futures::task::noop_waker();
    let mut cx = std::task::Context::from_waker(&waker);
    for text in ["1", "2", "3"] {
        let reconnecting_jsonrpsee_ws_client::Poll::Ready(Some(Ok(notification))) =
            handed_out.poll_next(&mut cx)
        else {
            panic!("the notification arrives");
        };
        assert_eq!(notification.get(), text);
    }
    for _ in 0..3 {
        assert!(matches!(
            handed_out.poll_next(&mut cx),
            reconnecting_jsonrpsee_ws_client::Poll::Ready(None)
        ));
    }
}

#[test]
fn a_subscription_is_shown_as_its_id() {
    for (server_id, shown) in [
        (SubscriptionId::Num(7), "Subscription Num(7)"),
        (SubscriptionId::Str("abc".into()), "Subscription Str(\"abc\")"),
    ] {
        let (op, mut rx) = subscription(CallRetryPolicy::Drop);
        let dispatched = dispatch_call(op, 0, Answer::Subscription(Ok(server_id)));
        assert!(tell(dispatched.reply));
        assert_eq!(rx.try_recv().unwrap().unwrap().debug_text(), shown);
    }
}
