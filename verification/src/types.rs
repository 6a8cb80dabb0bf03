//! Parameters, errors and results that cross the public interface.

use crate::outside::{
    answered, clone_json, debug_id, poll_recv, rx_channel, subscription_id_text,
};
use jsonrpsee::types::SubscriptionId;
use serde_json::value::RawValue;
use std::sync::Arc;
use std::task::Context;
use tokio::sync::mpsc::UnboundedReceiver;
use vstd::prelude::*;

verus! {

/// Method result.
pub type MethodResult = Result<Box<RawValue>, Error>;

/// Subscription result.
pub type SubscriptionResult = Result<Box<RawValue>, Disconnect>;

/// Serialized JSON-RPC params.
#[derive(Debug)]
pub struct RpcParams(Option<Box<RawValue>>);

impl View for RpcParams {
    type V = Option<Box<RawValue>>;

    closed spec fn view(&self) -> Option<Box<RawValue>> {
        self.0
    }
}

impl Clone for RpcParams {
    /// The same params.
    fn clone(&self) -> (copy: Self)
        ensures
            copy@ == self@,
    {
        match &self.0 {
            Some(json) => RpcParams(Some(clone_json(json))),
            None => RpcParams(None),
        }
    }
}

impl RpcParams {
    /// Creates new params from JSON.
    pub fn new(json: Option<Box<RawValue>>) -> (params: Self)
        ensures
            params@ == json,
    {
        RpcParams(json)
    }

    /// The JSON that goes on the wire. Params are serialized already, so this
    /// never fails.
    pub fn to_rpc_params(self) -> (json: Result<Option<Box<RawValue>>, serde_json::Error>)
        ensures
            json == Ok::<Option<Box<RawValue>>, serde_json::Error>(self@),
    {
        Ok(self.0)
    }
}

/// How to handle a subscription or method call when the connection was closed.
///
/// A subscription may have side effects, and re-subscribing may then not be what
/// the caller wants.
#[derive(Debug, Copy, Clone)]
pub enum CallRetryPolicy {
    /// When the connection is lost the call is dropped.
    Drop,
    /// When the connection is lost the call is re-tried but
    /// not re-subscribed if the subscription was established.
    Retry,
    /// Similar to `Retry` but also re-subscribes the subscriptions that were
    /// active when the connection was closed.
    RetryAndResubscribe,
}

impl CallRetryPolicy {
    /// A call under this policy is sent again when the connection is lost.
    pub open spec fn retries(self) -> bool {
        !(self is Drop)
    }

    /// A subscription under this policy is re-established when the connection is lost.
    pub open spec fn resubscribes(self) -> bool {
        self is RetryAndResubscribe
    }
}

/// Why a call over the connection failed.
#[derive(Debug)]
pub enum RpcError {
    /// The connection is gone; nothing more can be sent over it.
    RestartNeeded(Arc<jsonrpsee::core::ClientError>),
    /// The params could not be serialized.
    ParseError(serde_json::Error),
    /// Any other failure; the connection is still usable.
    Other(jsonrpsee::core::ClientError),
}

/// An error that indicates that the subscription
/// was disconnected and may reconnect.
#[derive(Debug)]
pub enum Disconnect {
    /// The connection was closed, reconnect initiated and the subscription was re-subscribed to.
    Retry(RpcError),
    /// The connection was closed, reconnect initiated and the subscription was dropped.
    Dropped(RpcError),
}

/// Error that can occur for an RPC call or subscription.
#[derive(Debug)]
pub enum Error {
    /// The client is closed.
    Closed,
    /// The connection was closed and reconnect initiated.
    DisconnectedWillReconnect,
    /// Other rpc error.
    RpcError(RpcError),
}

/// Whether a polled value is there yet.
#[derive(Debug)]
pub enum Poll<T> {
    /// The value is there.
    Ready(T),
    /// It is not; the polling task is woken when polling again may help.
    Pending,
}

/// A single subscription, as its user holds it.
pub struct Subscription {
    id: SubscriptionId<'static>,
    stream: UnboundedReceiver<SubscriptionResult>,
}

impl Subscription {
    /// The id that the server gave the subscription.
    pub closed spec fn spec_id(self) -> SubscriptionId<'static> {
        self.id
    }

    /// The channel that the notifications arrive on.
    pub closed spec fn spec_stream(self) -> UnboundedReceiver<SubscriptionResult> {
        self.stream
    }

    /// Pairs the server's id with the channel that the notifications arrive on.
    pub(crate) fn new(
        id: SubscriptionId<'static>,
        stream: UnboundedReceiver<SubscriptionResult>,
    ) -> (subscription: Self)
        ensures
            subscription.spec_id() == id,
            subscription.spec_stream() == stream,
    {
        Subscription { id, stream }
    }

    /// Gets the subscription ID.
    pub fn id(&self) -> (id: SubscriptionId<'static>)
        ensures
            id == self.spec_id(),
    {
        self.id.clone()
    }

    /// The text that the subscription is shown as in logs: its id, and nothing of its channel.
    pub fn debug_text(&self) -> (text: String)
        ensures
            text@ == "Subscription "@ + subscription_id_text(self.spec_id()),
    {
        "Subscription ".to_owned().concat(debug_id(&self.id).as_str())
    }

    /// Polls for the next notification: polls the channel once and hands on what it answers.
    /// When a notification comes rests on the tasks that send. `Poll::Ready(None)` says that the
    /// subscription has been terminated, and after that no notification comes.
    pub fn poll_next(&mut self, cx: &mut Context<'_>) -> (item: Poll<Option<SubscriptionResult>>)
        ensures
            final(self).spec_id() == old(self).spec_id(),
            rx_channel(final(self).spec_stream()) == rx_channel(old(self).spec_stream()),
            answered(final(self).spec_stream()) == answered(old(self).spec_stream()).push(item),
            answered(old(self).spec_stream()).contains(Poll::Ready(None)) ==> !(item matches Poll::Ready(
                Some(_),
            )),
    {
        poll_recv(&mut self.stream, cx)
    }
}

} // verus!
