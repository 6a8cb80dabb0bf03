//! A JSON-RPC WebSocket client that reconnects on its own.
//!
//! The modules below hold everything the client decides: which calls are sent
//! again once a lost connection is back, which subscriptions are re-established
//! and what each waiting caller is told. Sockets, channels and tasks are driven
//! from outside: each step takes what happened as a value and hands back what
//! has to be done as a value.

pub mod outside;

pub mod background;
pub mod builder;
pub mod client;
pub mod dispatch;
pub mod handler;
pub mod laws;
pub mod platform;
pub mod promises;
pub mod types;
pub mod utils;

pub use background::{BackgroundTask, Event, Next, Step};
pub use builder::ClientBuilder;
pub use client::Client;
pub use dispatch::{
    dispatch_call, Answer, Closed, Dispatched, DispatchedCall, Op, Reply, RetrySubscription,
};
pub use finito::{ExponentialBackoff, FibonacciBackoff, FixedInterval};
pub use handler::{HandlerEvent, HandlerStep, SubscriptionHandler, Then};
pub use jsonrpsee::types::SubscriptionId;
pub use jsonrpsee::ws_client::{HeaderMap, PingConfig};
pub use types::{
    CallRetryPolicy, Disconnect, Error, MethodResult, Poll, RpcError, RpcParams, Subscription,
    SubscriptionResult,
};
pub use utils::{
    reconnect_channel, MaybePendingFutures, Notice, ReconnectCounter, ReconnectRx, ReconnectTx,
};
