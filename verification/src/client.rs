//! The client, as its users hold it.

use crate::builder::ClientBuilder;
use crate::dispatch::Op;
use crate::types::{CallRetryPolicy, Error, MethodResult, RpcError, RpcParams, Subscription};
use crate::utils::{Notice, ReconnectRx};
use finito::ExponentialBackoff;
use serde_json::value::RawValue;
use tokio::sync::oneshot;
use vstd::prelude::*;

verus! {

/// JSON-RPC client that reconnects automatically and may lose
/// subscription notifications when it reconnects.
///
/// A request becomes an operation for the background task, which sends the result back over
/// the channel that the operation carries.
///
/// How often it has reconnected is counted by the background task that it belongs to, where all
/// clones read it.
#[derive(Clone, Copy, Debug)]
pub struct Client<'a> {
    reconnect: ReconnectRx<'a>,
}

impl<'a> View for Client<'a> {
    type V = usize;

    /// How often the client has reconnected.
    closed spec fn view(&self) -> usize {
        self.reconnect@
    }
}

/// The operation is a method call with these parts.
pub open spec fn is_call(
    op: Op,
    method: String,
    params: Option<Box<RawValue>>,
    policy: CallRetryPolicy,
    send_back: oneshot::Sender<MethodResult>,
) -> bool {
    &&& op matches Op::Call { method: m, params: p, send_back: s, policy: r }
    &&& m == method
    &&& p@ == params
    &&& s == send_back
    &&& r == policy
}

/// The operation is a subscription with these parts.
pub open spec fn is_subscription(
    op: Op,
    subscribe_method: String,
    params: Option<Box<RawValue>>,
    unsubscribe_method: String,
    policy: CallRetryPolicy,
    send_back: oneshot::Sender<Result<Subscription, Error>>,
) -> bool {
    &&& op matches Op::Subscription {
        subscribe_method: m,
        params: p,
        unsubscribe_method: u,
        send_back: s,
        policy: r,
    }
    &&& m == subscribe_method
    &&& p@ == params
    &&& u == unsubscribe_method
    &&& s == send_back
    &&& r == policy
}

impl<'a> Client<'a> {
    /// A client that learns of reconnections from `reconnect`.
    pub(crate) fn new(reconnect: ReconnectRx<'a>) -> (client: Self)
        ensures
            client@ == reconnect@,
    {
        Client { reconnect }
    }

    /// Creates a builder.
    pub fn builder() -> (builder: ClientBuilder<ExponentialBackoff>)
        ensures
            builder.is_default(),
    {
        ClientBuilder::new()
    }

    /// Creates a method call, from params that may have failed to serialize.
    pub fn request(
        &self,
        method: String,
        params: Result<Option<Box<RawValue>>, serde_json::Error>,
        send_back: oneshot::Sender<MethodResult>,
    ) -> (op: Result<Op, Error>)
        ensures
            match params {
                Ok(params) => op matches Ok(op) && is_call(
                    op,
                    method,
                    params,
                    CallRetryPolicy::Retry,
                    send_back,
                ),
                Err(e) => op == Err::<Op, Error>(Error::RpcError(RpcError::ParseError(e))),
            },
            params matches Ok(p) ==> {
                &&& op matches Ok(made)
                &&& made is Call
                &&& made->method == method
                &&& made->Call_params@ == p
                &&& made->Call_policy == CallRetryPolicy::Retry
                &&& made->Call_send_back == send_back
            },
    {
        match params {
            Ok(params) => Ok(self.request_raw(method, params, send_back)),
            Err(e) => Err(Error::RpcError(RpcError::ParseError(e))),
        }
    }

    /// Creates a method call, from params that may have failed to serialize, that is treated
    /// as `policy` says when the connection is lost.
    pub fn request_with_policy(
        &self,
        method: String,
        params: Result<Option<Box<RawValue>>, serde_json::Error>,
        policy: CallRetryPolicy,
        send_back: oneshot::Sender<MethodResult>,
    ) -> (op: Result<Op, Error>)
        ensures
            match params {
                Ok(params) => op matches Ok(op) && is_call(op, method, params, policy, send_back),
                Err(e) => op == Err::<Op, Error>(Error::RpcError(RpcError::ParseError(e))),
            },
            params matches Ok(p) ==> {
                &&& op matches Ok(made)
                &&& made is Call
                &&& made->method == method
                &&& made->Call_params@ == p
                &&& made->Call_policy == policy
                &&& made->Call_send_back == send_back
            },
    {
        match params {
            Ok(params) => Ok(self.request_raw_with_policy(method, params, policy, send_back)),
            Err(e) => Err(Error::RpcError(RpcError::ParseError(e))),
        }
    }

    /// Similar to `request_with_policy` but doesn't check
    /// that the params are valid JSON-RPC params.
    pub fn request_raw_with_policy(
        &self,
        method: String,
        params: Option<Box<RawValue>>,
        policy: CallRetryPolicy,
        send_back: oneshot::Sender<MethodResult>,
    ) -> (op: Op)
        ensures
            is_call(op, method, params, policy, send_back),
            op is Call,
            op->method == method,
            op->Call_params@ == params,
            op->Call_policy == policy,
            op->Call_send_back == send_back,
    {
        Op::Call { method, params: RpcParams::new(params), send_back, policy }
    }

    /// Similar to `request` but doesn't check
    /// that the params are valid JSON-RPC params.
    pub fn request_raw(
        &self,
        method: String,
        params: Option<Box<RawValue>>,
        send_back: oneshot::Sender<MethodResult>,
    ) -> (op: Op)
        ensures
            is_call(op, method, params, CallRetryPolicy::Retry, send_back),
            op is Call,
            op->method == method,
            op->Call_params@ == params,
            op->Call_policy == CallRetryPolicy::Retry,
            op->Call_send_back == send_back,
    {
        self.request_raw_with_policy(method, params, CallRetryPolicy::Retry, send_back)
    }

    /// Creates a subscription, from params that may have failed to serialize, that is treated
    /// as `policy` says when the connection is lost.
    pub fn subscribe_with_policy(
        &self,
        subscribe_method: String,
        params: Result<Option<Box<RawValue>>, serde_json::Error>,
        unsubscribe_method: String,
        policy: CallRetryPolicy,
        send_back: oneshot::Sender<Result<Subscription, Error>>,
    ) -> (op: Result<Op, Error>)
        ensures
            match params {
                Ok(params) => op matches Ok(op) && is_subscription(
                    op,
                    subscribe_method,
                    params,
                    unsubscribe_method,
                    policy,
                    send_back,
                ),
                Err(e) => op == Err::<Op, Error>(Error::RpcError(RpcError::ParseError(e))),
            },
            params matches Ok(p) ==> {
                &&& op matches Ok(made)
                &&& made is Subscription
                &&& made->subscribe_method == subscribe_method
                &&& made->Subscription_params@ == p
                &&& made->unsubscribe_method == unsubscribe_method
                &&& made->Subscription_policy == policy
                &&& made->Subscription_send_back == send_back
            },
    {
        match params {
            Ok(params) => Ok(
                self.subscribe_raw_with_policy(
                    subscribe_method,
                    params,
                    unsubscribe_method,
                    policy,
                    send_back,
                ),
            ),
            Err(e) => Err(Error::RpcError(RpcError::ParseError(e))),
        }
    }

    /// Creates a subscription, from params that may have failed to serialize.
    pub fn subscribe(
        &self,
        subscribe_method: String,
        params: Result<Option<Box<RawValue>>, serde_json::Error>,
        unsubscribe_method: String,
        send_back: oneshot::Sender<Result<Subscription, Error>>,
    ) -> (op: Result<Op, Error>)
        ensures
            match params {
                Ok(params) => op matches Ok(op) && is_subscription(
                    op,
                    subscribe_method,
                    params,
                    unsubscribe_method,
                    CallRetryPolicy::RetryAndResubscribe,
                    send_back,
                ),
                Err(e) => op == Err::<Op, Error>(Error::RpcError(RpcError::ParseError(e))),
            },
            params matches Ok(p) ==> {
                &&& op matches Ok(made)
                &&& made is Subscription
                &&& made->subscribe_method == subscribe_method
                &&& made->Subscription_params@ == p
                &&& made->unsubscribe_method == unsubscribe_method
                &&& made->Subscription_policy == CallRetryPolicy::RetryAndResubscribe
                &&& made->Subscription_send_back == send_back
            },
    {
        match params {
            Ok(params) => Ok(
                self.subscribe_raw(subscribe_method, params, unsubscribe_method, send_back),
            ),
            Err(e) => Err(Error::RpcError(RpcError::ParseError(e))),
        }
    }

    /// Similar to `subscribe` but doesn't check
    /// that the params are valid JSON-RPC params.
    pub fn subscribe_raw(
        &self,
        subscribe_method: String,
        params: Option<Box<RawValue>>,
        unsubscribe_method: String,
        send_back: oneshot::Sender<Result<Subscription, Error>>,
    ) -> (op: Op)
        ensures
            is_subscription(
                op,
                subscribe_method,
                params,
                unsubscribe_method,
                CallRetryPolicy::RetryAndResubscribe,
                send_back,
            ),
            op is Subscription,
            op->subscribe_method == subscribe_method,
            op->Subscription_params@ == params,
            op->unsubscribe_method == unsubscribe_method,
            op->Subscription_policy == CallRetryPolicy::RetryAndResubscribe,
            op->Subscription_send_back == send_back,
    {
        self.subscribe_raw_with_policy(
            subscribe_method,
            params,
            unsubscribe_method,
            CallRetryPolicy::RetryAndResubscribe,
            send_back,
        )
    }

    /// Similar to `subscribe_raw` but allows to decide whether to re-subscribe when
    /// the connection is closed.
    pub fn subscribe_raw_with_policy(
        &self,
        subscribe_method: String,
        params: Option<Box<RawValue>>,
        unsubscribe_method: String,
        policy: CallRetryPolicy,
        send_back: oneshot::Sender<Result<Subscription, Error>>,
    ) -> (op: Op)
        ensures
            is_subscription(
                op,
                subscribe_method,
                params,
                unsubscribe_method,
                policy,
                send_back,
            ),
            op is Subscription,
            op->subscribe_method == subscribe_method,
            op->Subscription_params@ == params,
            op->unsubscribe_method == unsubscribe_method,
            op->Subscription_policy == policy,
            op->Subscription_send_back == send_back,
    {
        Op::Subscription {
            subscribe_method,
            params: RpcParams::new(params),
            unsubscribe_method,
            send_back,
            policy,
        }
    }

    /// The result of a method call, from what was sent back for it. Nothing is sent back when
    /// the background task is gone.
    pub fn method_result(reply: Option<MethodResult>) -> (result: MethodResult)
        ensures
            result == match reply {
                Some(result) => result,
                None => Err(Error::Closed),
            },
    {
        match reply {
            Some(result) => result,
            None => Err(Error::Closed),
        }
    }

    /// The result of a subscription, from what was sent back for it. Nothing is sent back when
    /// the background task is gone.
    pub fn subscription_result(reply: Option<Result<Subscription, Error>>) -> (result: Result<
        Subscription,
        Error,
    >)
        ensures
            result == match reply {
                Some(result) => result,
                None => Err(Error::Closed),
            },
    {
        match reply {
            Some(result) => result,
            None => Err(Error::Closed),
        }
    }

    /// Whether `notice` says that the client connection was closed and
    /// it started to reconnect.
    pub fn reconnect_started(&self, notice: Notice) -> (released: bool)
        ensures
            released == (notice is Started),
    {
        self.reconnect.reconnect_started(notice)
    }

    /// Whether `notice` says that the client connection has been re-established.
    pub fn reconnected(&self, notice: Notice) -> (released: bool)
        ensures
            released == (notice is Completed),
    {
        self.reconnect.reconnected(notice)
    }

    /// Gets how many times the client has reconnected successfully.
    pub fn reconnect_count(&self) -> (count: usize)
        ensures
            count == self@,
    {
        self.reconnect.count()
    }
}

} // verus!
