use reconnecting_jsonrpsee_ws_client::{
    CallRetryPolicy, Disconnect, HandlerEvent, HandlerStep, RpcError, SubscriptionHandler, Then,
};
use serde_json::value::RawValue;
use std::sync::Arc;

fn handler(policy: CallRetryPolicy) -> SubscriptionHandler {
    let (tx, _rx) = tokio::sync::mpsc::unbounded_channel();
    SubscriptionHandler { id: 9, policy, tx }
}

fn reason() -> RpcError {
    RpcError::RestartNeeded(Arc::new(jsonrpsee::core::ClientError::Custom(
        "gone".to_string(),
    )))
}

#[test]
fn notifications_are_passed_on() {
    let handler = handler(CallRetryPolicy::Drop);
    let value = RawValue::from_string("7".to_string()).unwrap();
    let step = handler.subscription_handler(HandlerEvent::Notification(value));
    let HandlerStep::Send {
        message: Ok(value),
        then: Then::Listen,
    } = step
    else {
        panic!("the notification is passed on");
    };
    assert_eq!(value.get(), "7");
    assert!(matches!(
        handler.sent(Then::Listen, true),
        HandlerStep::Listen
    ));
    assert!(matches!(
        handler.sent(Then::Listen, false),
        HandlerStep::Stop { remove: Some(9) }
    ));
}

#[test]
fn a_subscription_that_is_reestablished_stays_open() {
    let handler = handler(CallRetryPolicy::RetryAndResubscribe);
    assert!(matches!(
        handler.subscription_handler(HandlerEvent::Ended(reason())),
        HandlerStep::Send {
            message: Err(Disconnect::Retry(RpcError::RestartNeeded(_))),
            then: Then::Resubscribe,
        }
    ));
    assert!(matches!(
        handler.sent(Then::Resubscribe, true),
        HandlerStep::Stop { remove: None }
    ));
    // Unless its user is gone.
    assert!(matches!(
        handler.sent(Then::Resubscribe, false),
        HandlerStep::Stop { remove: Some(9) }
    ));
}

#[test]
fn other_subscriptions_end_with_the_connection() {
    for policy in [CallRetryPolicy::Drop, CallRetryPolicy::Retry] {
        let handler = handler(policy);
        assert!(matches!(
            handler.subscription_handler(HandlerEvent::Ended(reason())),
            HandlerStep::Send {
                message: Err(Disconnect::Dropped(RpcError::RestartNeeded(_))),
                then: Then::Drop,
            }
        ));
        for delivered in [true, false] {
            assert!(matches!(
                handler.sent(Then::Drop, delivered),
                HandlerStep::Stop { remove: Some(9) }
            ));
        }
    }
}

#[test]
fn a_closed_subscription_is_removed() {
    let handler = handler(CallRetryPolicy::RetryAndResubscribe);
    assert!(matches!(
        handler.subscription_handler(HandlerEvent::ClosedByUser),
        HandlerStep::Stop { remove: Some(9) }
    ));
    assert!(matches!(
        handler.subscription_handler(HandlerEvent::TaskClosed),
        HandlerStep::Stop { remove: Some(9) }
    ));
}
