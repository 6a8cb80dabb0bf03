//! What becomes of one call or subscription once the server has answered, or the
//! connection is gone.

use crate::handler::{HandlerView, SubscriptionHandler};
use crate::outside::{answered, clone_sender, notification_channel, rx_channel, tx_channel};
use crate::types::{
    CallRetryPolicy, Error, MethodResult, RpcError, RpcParams, Subscription, SubscriptionResult,
};
use futures::future::FutureObj;
use jsonrpsee::types::SubscriptionId;
use serde_json::value::RawValue;
use tokio::sync::mpsc::UnboundedSender;
use tokio::sync::oneshot;
use vstd::prelude::*;

verus! {

/// A call or subscription that a user of the client asked for.
#[allow(inconsistent_fields)]
pub enum Op {
    /// A method call.
    Call {
        method: String,
        params: RpcParams,
        send_back: oneshot::Sender<MethodResult>,
        policy: CallRetryPolicy,
    },
    /// A subscription.
    Subscription {
        subscribe_method: String,
        params: RpcParams,
        unsubscribe_method: String,
        send_back: oneshot::Sender<Result<Subscription, Error>>,
        policy: CallRetryPolicy,
    },
}

impl Op {
    /// What is to happen to the operation when the connection is lost.
    pub open spec fn policy(self) -> CallRetryPolicy {
        match self {
            Op::Call { policy, .. } => policy,
            Op::Subscription { policy, .. } => policy,
        }
    }
}

/// What it takes to establish an open subscription once more.
#[derive(Debug)]
pub struct RetrySubscription {
    /// Where the notifications go.
    pub tx: UnboundedSender<SubscriptionResult>,
    pub subscribe_method: String,
    pub params: RpcParams,
    pub unsubscribe_method: String,
    pub policy: CallRetryPolicy,
}

/// The connection was closed before the operation was answered.
pub enum Closed {
    /// The operation is dropped; whoever asked for it has been told.
    Dropped,
    /// The operation has to be dispatched again over the next connection.
    Retry { op: Op, id: usize },
}

/// The outcome of a dispatched call,
/// which may be a method call or a subscription.
#[derive(Debug)]
pub enum DispatchedCall {
    /// Nothing is left to do.
    Done,
    /// A subscription has been opened.
    Subscription { id: usize, sub: RetrySubscription },
}

/// How a dispatched operation ended.
pub type DispatchResult = Result<DispatchedCall, Closed>;

/// An operation in flight.
pub type CallFuture = FutureObj<'static, DispatchResult>;

/// What came back for an operation.
#[derive(Debug)]
pub enum Answer {
    /// For a method call.
    Call(Result<Box<RawValue>, RpcError>),
    /// For a subscription; the server accepts it under an id of its own.
    Subscription(Result<SubscriptionId<'static>, RpcError>),
}

impl Answer {
    /// The answer is of the kind that the operation asks for.
    pub open spec fn answers(self, op: Op) -> bool {
        op is Call <==> self is Call
    }

    /// The answer says that the connection is gone.
    pub open spec fn restart_needed(self) -> bool {
        match self {
            Answer::Call(result) => result matches Err(RpcError::RestartNeeded(_)),
            Answer::Subscription(result) => result matches Err(RpcError::RestartNeeded(_)),
        }
    }
}

/// What whoever asked for an operation is told.
#[allow(inconsistent_fields)]
pub enum Reply {
    /// Nothing yet.
    Held,
    /// The result of a method call.
    Call { send_back: oneshot::Sender<MethodResult>, result: MethodResult },
    /// The result of a subscription.
    Subscription {
        send_back: oneshot::Sender<Result<Subscription, Error>>,
        result: Result<Subscription, Error>,
    },
}

/// What becomes of an operation: the handler to start for a subscription that was opened, what
/// its caller is told, and how the dispatch ended.
pub struct Dispatched {
    pub handler: Option<SubscriptionHandler>,
    pub reply: Reply,
    pub result: DispatchResult,
}

impl Dispatched {
    /// The operation ended with `error`: its caller is told so, and no handler is started.
    pub open spec fn fails_with(self, op: Op, error: Error) -> bool {
        &&& self.handler is None
        &&& self.reply == match op {
            Op::Call { send_back, .. } => Reply::Call { send_back, result: Err(error) },
            Op::Subscription { send_back, .. } => Reply::Subscription {
                send_back,
                result: Err(error),
            },
        }
    }

    /// The operation is kept as it is, to be dispatched again under the same id.
    pub open spec fn retries(self, op: Op, id: usize) -> bool {
        &&& self.handler is None
        &&& self.reply is Held
        &&& self.result == Err::<DispatchedCall, Closed>(Closed::Retry { op, id })
    }

    /// The subscription `op` has been opened as `server_id`: its handler goes by its policy, its
    /// user gets the receiving end of a channel, from which nothing was taken yet, and all it
    /// takes to re-establish it is kept under `id`. Whatever is sent on the handler's or the kept
    /// end goes to its user.
    pub open spec fn opens(self, op: Op, id: usize, server_id: SubscriptionId<'static>) -> bool {
        &&& op matches Op::Subscription {
            subscribe_method,
            params,
            unsubscribe_method,
            send_back,
            policy,
        }
        &&& self.reply matches Reply::Subscription {
            send_back: to,
            result: Ok(subscription),
        }
        &&& to == send_back
        &&& subscription.spec_id() == server_id
        &&& answered(subscription.spec_stream()).len() == 0
        &&& self.handler matches Some(handler)
        &&& handler@ == (HandlerView {
            id,
            policy,
            channel: rx_channel(subscription.spec_stream()),
        })
        &&& self.result matches Ok(DispatchedCall::Subscription { id: kept, sub })
        &&& kept == id
        &&& tx_channel(sub.tx) == rx_channel(subscription.spec_stream())
        &&& sub == (RetrySubscription {
            tx: sub.tx,
            subscribe_method,
            params,
            unsubscribe_method,
            policy,
        })
    }

    /// The method call `op` has been answered with `value`.
    pub open spec fn yields(self, op: Op, value: Box<RawValue>) -> bool {
        &&& op matches Op::Call { send_back, .. }
        &&& self.handler is None
        &&& self.reply == (Reply::Call { send_back, result: Ok(value) })
        &&& self.result == Ok::<DispatchedCall, Closed>(DispatchedCall::Done)
    }

    /// What becomes of `op`, dispatched under `id`, when `answer` comes back.
    pub open spec fn settles(self, op: Op, id: usize, answer: Answer) -> bool {
        match answer {
            Answer::Call(Ok(value)) => self.yields(op, value),
            Answer::Subscription(Ok(server_id)) => self.opens(op, id, server_id),
            Answer::Call(Err(error)) | Answer::Subscription(Err(error)) => if error is RestartNeeded {
                if op.policy().retries() {
                    self.retries(op, id)
                } else {
                    &&& self.fails_with(op, Error::DisconnectedWillReconnect)
                    &&& self.result == Err::<DispatchedCall, Closed>(Closed::Dropped)
                }
            } else {
                &&& self.fails_with(op, Error::RpcError(error))
                &&& self.result == Ok::<DispatchedCall, Closed>(DispatchedCall::Done)
            },
        }
    }
}

/// Settles a method call.
fn settle_call(
    method: String,
    params: RpcParams,
    send_back: oneshot::Sender<MethodResult>,
    policy: CallRetryPolicy,
    id: usize,
    result: Result<Box<RawValue>, RpcError>,
) -> (dispatched: Dispatched)
    ensures
        dispatched.settles(Op::Call { method, params, send_back, policy }, id, Answer::Call(result)),
{
    match result {
        Ok(value) => Dispatched {
            handler: None,
            reply: Reply::Call { send_back, result: Ok(value) },
            result: Ok(DispatchedCall::Done),
        },
        Err(RpcError::RestartNeeded(_)) => if matches!(policy, CallRetryPolicy::Drop) {
            Dispatched {
                handler: None,
                reply: Reply::Call {
                    send_back,
                    result: Err(Error::DisconnectedWillReconnect),
                },
                result: Err(Closed::Dropped),
            }
        } else {
            Dispatched {
                handler: None,
                reply: Reply::Held,
                result: Err(
                    Closed::Retry { op: Op::Call { method, params, send_back, policy }, id },
                ),
            }
        },
        Err(error) => Dispatched {
            handler: None,
            reply: Reply::Call { send_back, result: Err(Error::RpcError(error)) },
            result: Ok(DispatchedCall::Done),
        },
    }
}

/// Settles a subscription.
fn settle_subscription(
    subscribe_method: String,
    params: RpcParams,
    unsubscribe_method: String,
    send_back: oneshot::Sender<Result<Subscription, Error>>,
    policy: CallRetryPolicy,
    id: usize,
    result: Result<SubscriptionId<'static>, RpcError>,
) -> (dispatched: Dispatched)
    ensures
        dispatched.settles(
            Op::Subscription { subscribe_method, params, unsubscribe_method, send_back, policy },
            id,
            Answer::Subscription(result),
        ),
{
    match result {
        Ok(server_id) => {
            let (tx, rx) = notification_channel();
            let handler = SubscriptionHandler { id, policy, tx: clone_sender(&tx) };
            let sub = RetrySubscription {
                tx,
                subscribe_method,
                params,
                unsubscribe_method,
                policy,
            };
            let stream = Subscription::new(server_id, rx);
            Dispatched {
                handler: Some(handler),
                reply: Reply::Subscription { send_back, result: Ok(stream) },
                result: Ok(DispatchedCall::Subscription { id, sub }),
            }
        },
        Err(RpcError::RestartNeeded(_)) => if matches!(policy, CallRetryPolicy::Drop) {
            Dispatched {
                handler: None,
                reply: Reply::Subscription {
                    send_back,
                    result: Err(Error::DisconnectedWillReconnect),
                },
                result: Err(Closed::Dropped),
            }
        } else {
            Dispatched {
                handler: None,
                reply: Reply::Held,
                result: Err(
                    Closed::Retry {
                        op: Op::Subscription {
                            subscribe_method,
                            params,
                            unsubscribe_method,
                            send_back,
                            policy,
                        },
                        id,
                    },
                ),
            }
        },
        Err(error) => Dispatched {
            handler: None,
            reply: Reply::Subscription { send_back, result: Err(Error::RpcError(error)) },
            result: Ok(DispatchedCall::Done),
        },
    }
}

/// Decides what becomes of `op`, which was dispatched under `id`, now that `answer` has
/// come back for it.
pub fn dispatch_call(op: Op, id: usize, answer: Answer) -> (dispatched: Dispatched)
    requires
        answer.answers(op),
    ensures
        dispatched.settles(op, id, answer),
{
    match op {
        Op::Call { method, params, send_back, policy } => match answer {
            Answer::Call(result) => settle_call(method, params, send_back, policy, id, result),
            Answer::Subscription(_) => vstd::pervasive::unreached(),
        },
        Op::Subscription { subscribe_method, params, unsubscribe_method, send_back, policy } =>
        match answer {
            Answer::Subscription(result) => settle_subscription(
                subscribe_method,
                params,
                unsubscribe_method,
                send_back,
                policy,
                id,
                result,
            ),
            Answer::Call(_) => vstd::pervasive::unreached(),
        },
    }
}

} // verus!
