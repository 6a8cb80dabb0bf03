use reconnecting_jsonrpsee_ws_client::{
    BackgroundTask, CallRetryPolicy, Client, Error, Event, Notice, Op, RpcError, RpcParams,
};
use serde_json::value::RawValue;
use tokio::sync::oneshot;

fn task() -> BackgroundTask {
    match Client::builder().build(Ok(())) {
        Ok(task) => task,
        Err(_) => panic!("a connection was made"),
    }
}

fn json(text: &str) -> Option<Box<RawValue>> {
    Some(RawValue::from_string(text.to_string()).unwrap())
}

fn bad_params() -> Result<Option<Box<RawValue>>, serde_json::Error> {
    RawValue::from_string("[".to_string()).map(Some)
}

fn text(params: RpcParams) -> Option<String> {
    params
        .to_rpc_params()
        .unwrap()
        .map(|json| json.get().to_string())
}

#[test]
fn requests_are_retried_by_default() {
    let (tx, _rx) = oneshot::channel();
    let op = task().client().request("say_hello".to_string(), Ok(json("[1]")), tx);
    let Ok(Op::Call {
        method,
        params,
        policy,
        ..
    }) = op
    else {
        panic!("the params are valid");
    };
    assert_eq!(method, "say_hello");
    assert_eq!(text(params), Some("[1]".to_string()));
    assert!(matches!(policy, CallRetryPolicy::Retry));

    let (tx, _rx) = oneshot::channel();
    let op = task().client().request_raw("say_hello".to_string(), None, tx);
    let Op::Call { params, policy, .. } = op else {
        panic!("a request is a call");
    };
    assert_eq!(text(params), None);
    assert!(matches!(policy, CallRetryPolicy::Retry));
}

#[test]
fn subscriptions_are_reestablished_by_default() {
    let (tx, _rx) = oneshot::channel();
    let op = task().client().subscribe(
        "subscribe_lo".to_string(),
        Ok(json("[]")),
        "unsubscribe_lo".to_string(),
        tx,
    );
    let Ok(Op::Subscription {
        subscribe_method,
        params,
        unsubscribe_method,
        policy,
        ..
    }) = op
    else {
        panic!("the params are valid");
    };
    assert_eq!(subscribe_method, "subscribe_lo");
    assert_eq!(unsubscribe_method, "unsubscribe_lo");
    assert_eq!(text(params), Some("[]".to_string()));
    assert!(matches!(policy, CallRetryPolicy::RetryAndResubscribe));

    let (tx, _rx) = oneshot::channel();
    let op = task().client().subscribe_raw(
        "subscribe_lo".to_string(),
        None,
        "unsubscribe_lo".to_string(),
        tx,
    );
    assert!(matches!(
        op,
        Op::Subscription {
            policy: CallRetryPolicy::RetryAndResubscribe,
            ..
        }
    ));
}

#[test]
fn a_policy_is_passed_on() {
    let (tx, _rx) = oneshot::channel();
    assert!(matches!(
        task().client().request_with_policy(
            "say_hello".to_string(),
            Ok(None),
            CallRetryPolicy::Drop,
            tx
        ),
        Ok(Op::Call {
            policy: CallRetryPolicy::Drop,
            ..
        })
    ));
    let (tx, _rx) = oneshot::channel();
    assert!(matches!(
        task().client().subscribe_with_policy(
            "subscribe_lo".to_string(),
            Ok(None),
            "unsubscribe_lo".to_string(),
            CallRetryPolicy::Retry,
            tx
        ),
        Ok(Op::Subscription {
            policy: CallRetryPolicy::Retry,
            ..
        })
    ));
}

#[test]
fn params_that_do_not_serialize_are_refused() {
    let task = task();
    let client = task.client();
    let (tx, _rx) = oneshot::channel();
    assert!(matches!(
        client.request("say_hello".to_string(), bad_params(), tx),
        Err(Error::RpcError(RpcError::ParseError(_)))
    ));
    let (tx, _rx) = oneshot::channel();
    assert!(matches!(
        client.request_with_policy(
            "say_hello".to_string(),
            bad_params(),
            CallRetryPolicy::Drop,
            tx
        ),
        Err(Error::RpcError(RpcError::ParseError(_)))
    ));
    let (tx, _rx) = oneshot::channel();
    assert!(matches!(
        client.subscribe(
            "subscribe_lo".to_string(),
            bad_params(),
            "unsubscribe_lo".to_string(),
            tx
        ),
        Err(Error::RpcError(RpcError::ParseError(_)))
    ));
    let (tx, _rx) = oneshot::channel();
    assert!(matches!(
        client.subscribe_with_policy(
            "subscribe_lo".to_string(),
            bad_params(),
            "unsubscribe_lo".to_string(),
            CallRetryPolicy::Drop,
            tx
        ),
        Err(Error::RpcError(RpcError::ParseError(_)))
    ));
}

#[test]
fn a_client_whose_task_is_gone_is_closed() {
    assert!(matches!(Client::method_result(None), Err(Error::Closed)));
    assert!(matches!(
        Client::subscription_result(None),
        Err(Error::Closed)
    ));
}

#[test]
fn what_was_sent_back_is_the_result() {
    assert!(matches!(
        Client::method_result(Some(Err(Error::DisconnectedWillReconnect))),
        Err(Error::DisconnectedWillReconnect)
    ));
    let result = Client::method_result(Some(Ok(json("1").unwrap())));
    assert_eq!(result.unwrap().get(), "1");
    assert!(matches!(
        Client::subscription_result(Some(Err(Error::DisconnectedWillReconnect))),
        Err(Error::DisconnectedWillReconnect)
    ));
}

#[test]
fn all_clones_of_a_client_read_the_count_of_its_task() {
    let mut task = task();
    let other = Client::builder().build(Ok(())).ok().unwrap();
    for n in 0..3 {
        let client = task.client();
        let copy = client.clone();
        assert_eq!(client.reconnect_count(), n);
        assert_eq!(copy.reconnect_count(), n);
        task.background_task(Event::Disconnected);
        task.background_task(Event::Connected);
    }
    assert_eq!(task.client().reconnect_count(), 3);
    assert_eq!(other.client().reconnect_count(), 0);
}

#[test]
fn a_client_tells_the_notices_apart() {
    let task = task();
    let client = task.client();
    assert!(client.reconnect_started(Notice::Started));
    assert!(!client.reconnect_started(Notice::Completed { count: 3 }));
    assert!(client.reconnected(Notice::Completed { count: 3 }));
    assert!(!client.reconnected(Notice::Started));
}

#[test]
fn params_are_the_json_they_were_made_from() {
    let params = RpcParams::new(json("{\"a\": [1,2]}"));
    assert_eq!(text(params.clone()), Some("{\"a\": [1,2]}".to_string()));
    assert_eq!(text(params), Some("{\"a\": [1,2]}".to_string()));
    assert_eq!(text(RpcParams::new(None).clone()), None);
}
