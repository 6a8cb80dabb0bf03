//! What is done with the notifications of one subscription, until it ends.

use crate::outside::tx_channel;
use crate::types::{CallRetryPolicy, Disconnect, RpcError, SubscriptionResult};
use serde_json::value::RawValue;
use tokio::sync::mpsc::UnboundedSender;
use vstd::prelude::*;

verus! {

/// What the handler of a subscription waits for.
#[derive(Debug)]
pub enum HandlerEvent {
    /// The server sent a notification.
    Notification(Box<RawValue>),
    /// No more notifications come: the connection was closed, for that reason.
    Ended(RpcError),
    /// The user has closed the subscription.
    ClosedByUser,
    /// The background task is gone; nothing is processed any more.
    TaskClosed,
}

/// What follows once a message to the user of a subscription has been sent.
#[derive(Clone, Copy, Debug)]
pub enum Then {
    /// More notifications may come.
    Listen,
    /// The subscription is re-established over the next connection.
    Resubscribe,
    /// The subscription is over.
    Drop,
}

/// What the handler of a subscription does next.
#[derive(Debug)]
pub enum HandlerStep {
    /// Waits for the next event.
    Listen,
    /// Sends `message` to the user, and goes on as `Then` says.
    Send { message: SubscriptionResult, then: Then },
    /// Stops. The background task removes the subscription with the id in `remove`, if
    /// there is one; otherwise the subscription stays open.
    Stop { remove: Option<usize> },
}

/// Handles a single subscription.
#[derive(Debug)]
pub struct SubscriptionHandler {
    /// The id under which the background task keeps the subscription.
    pub id: usize,
    pub policy: CallRetryPolicy,
    /// Where the notifications go.
    pub tx: UnboundedSender<SubscriptionResult>,
}

/// A `SubscriptionHandler`, with the channel that it sends on.
pub struct HandlerView {
    pub id: usize,
    pub policy: CallRetryPolicy,
    pub channel: int,
}

impl View for SubscriptionHandler {
    type V = HandlerView;

    open spec fn view(&self) -> HandlerView {
        HandlerView { id: self.id, policy: self.policy, channel: tx_channel(self.tx) }
    }
}

impl SubscriptionHandler {
    /// What the handler does when `event` happens.
    pub open spec fn responds(self, event: HandlerEvent) -> HandlerStep {
        match event {
            HandlerEvent::Notification(value) => HandlerStep::Send {
                message: Ok(value),
                then: Then::Listen,
            },
            HandlerEvent::Ended(reason) => if self.policy.resubscribes() {
                HandlerStep::Send {
                    message: Err(Disconnect::Retry(reason)),
                    then: Then::Resubscribe,
                }
            } else {
                HandlerStep::Send {
                    message: Err(Disconnect::Dropped(reason)),
                    then: Then::Drop,
                }
            },
            HandlerEvent::ClosedByUser | HandlerEvent::TaskClosed => HandlerStep::Stop {
                remove: Some(self.id),
            },
        }
    }

    /// What the handler does after a message has been sent, and has reached the user or not.
    pub open spec fn proceeds(self, then: Then, delivered: bool) -> HandlerStep {
        if !delivered || then is Drop {
            HandlerStep::Stop { remove: Some(self.id) }
        } else if then is Listen {
            HandlerStep::Listen
        } else {
            HandlerStep::Stop { remove: None }
        }
    }

    /// Decides what to do when `event` happens.
    pub fn subscription_handler(&self, event: HandlerEvent) -> (step: HandlerStep)
        ensures
            step == self.responds(event),
    {
        match event {
            HandlerEvent::Notification(value) => HandlerStep::Send {
                message: Ok(value),
                then: Then::Listen,
            },
            HandlerEvent::Ended(reason) => if matches!(
                self.policy,
                CallRetryPolicy::RetryAndResubscribe
            ) {
                HandlerStep::Send {
                    message: Err(Disconnect::Retry(reason)),
                    then: Then::Resubscribe,
                }
            } else {
                HandlerStep::Send {
                    message: Err(Disconnect::Dropped(reason)),
                    then: Then::Drop,
                }
            },
            HandlerEvent::ClosedByUser => HandlerStep::Stop { remove: Some(self.id) },
            HandlerEvent::TaskClosed => HandlerStep::Stop { remove: Some(self.id) },
        }
    }

    /// Decides how to go on after a message has been sent. Sending fails only if the
    /// subscription was closed by the user.
    pub fn sent(&self, then: Then, delivered: bool) -> (step: HandlerStep)
        ensures
            step == self.proceeds(then, delivered),
    {
        match then {
            Then::Listen => if delivered {
                HandlerStep::Listen
            } else {
                HandlerStep::Stop { remove: Some(self.id) }
            },
            Then::Resubscribe => if delivered {
                HandlerStep::Stop { remove: None }
            } else {
                HandlerStep::Stop { remove: Some(self.id) }
            },
            Then::Drop => HandlerStep::Stop { remove: Some(self.id) },
        }
    }
}

} // verus!
