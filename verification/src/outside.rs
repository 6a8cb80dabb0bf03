//! What the library takes from other crates and from the standard library.
//!
//! Every item here is trusted: the verifier takes its contract as it stands. A
//! `uninterp` function names something that an opaque value holds; the contracts
//! of the calls below are all that is known of it.

use crate::dispatch::{CallFuture, DispatchResult};
use crate::types::{Poll, SubscriptionResult};
use finito::ExponentialBackoff;
use futures::future::FutureObj;
use futures::stream::{FuturesUnordered, StreamExt};
use jsonrpsee::async_client::ClientBuilder as TransportClientBuilder;
use jsonrpsee::types::SubscriptionId;
use jsonrpsee::ws_client::{HeaderMap, HeaderValue, PingConfig, WsClientBuilder};
use serde_json::value::RawValue;
use serde_json::Error as JsonError;
use std::task::{Context, Waker};
use std::time::Duration;
use tokio::sync::mpsc::{UnboundedReceiver, UnboundedSender};
use tokio::sync::oneshot;
use vstd::multiset::Multiset;
use vstd::prelude::*;

verus! {

// ---------------------------------------------------------------------------
// Types that are carried through without being looked into.
// ---------------------------------------------------------------------------

/// `serde_json::value::RawValue`: a piece of JSON text.
#[verifier::external_type_specification]
#[verifier::external_body]
pub struct ExRawValue(RawValue);

/// `serde_json::Error`.
#[verifier::external_type_specification]
#[verifier::external_body]
pub struct ExJsonError(JsonError);

/// `jsonrpsee::core::ClientError`.
#[verifier::external_type_specification]
#[verifier::external_body]
pub struct ExClientError(jsonrpsee::core::ClientError);

/// `jsonrpsee::types::SubscriptionId`.
#[verifier::external_type_specification]
#[verifier::external_body]
pub struct ExSubscriptionId<'a>(SubscriptionId<'a>);

/// `tokio::sync::oneshot::Sender`.
#[verifier::external_type_specification]
#[verifier::external_body]
#[verifier::reject_recursive_types(T)]
pub struct ExOneshotSender<T>(oneshot::Sender<T>);

/// `tokio::sync::mpsc::UnboundedSender`.
#[verifier::external_type_specification]
#[verifier::external_body]
#[verifier::reject_recursive_types(T)]
pub struct ExUnboundedSender<T>(UnboundedSender<T>);

/// `tokio::sync::mpsc::UnboundedReceiver`.
#[verifier::external_type_specification]
#[verifier::external_body]
#[verifier::reject_recursive_types(T)]
pub struct ExUnboundedReceiver<T>(UnboundedReceiver<T>);

/// `<jsonrpsee::types::SubscriptionId as Clone>::clone`: the derived clone of an
/// enum of a number and a string, which is the same id.
pub assume_specification<'a>[ <SubscriptionId<'a> as Clone>::clone ](
    id: &SubscriptionId<'a>,
) -> (copy: SubscriptionId<'a>)
    ensures
        copy == *id,
;

/// `<Box<serde_json::value::RawValue> as Clone>::clone`: the same JSON text.
#[verifier::external_body]
pub(crate) fn clone_json(json: &Box<RawValue>) -> (copy: Box<RawValue>)
    ensures
        copy == *json,
{
    json.clone()
}

/// The text that `{:?}` gives of a `SubscriptionId`.
pub uninterp spec fn subscription_id_text(id: SubscriptionId<'static>) -> Seq<char>;

/// `<jsonrpsee::types::SubscriptionId as Debug>::fmt`: its text.
#[verifier::external_body]
pub(crate) fn debug_id(id: &SubscriptionId<'static>) -> (text: String)
    ensures
        text@ == subscription_id_text(*id),
{
    format!("{:?}", id)
}

// ---------------------------------------------------------------------------
// The channel that the notifications of a subscription go over.
// ---------------------------------------------------------------------------

/// The channel that a sender sends on.
pub uninterp spec fn tx_channel(tx: UnboundedSender<SubscriptionResult>) -> int;

/// The channel that a receiver receives from.
pub uninterp spec fn rx_channel(stream: UnboundedReceiver<SubscriptionResult>) -> int;

/// What a receiver has answered to each poll so far, in order.
pub uninterp spec fn answered(stream: UnboundedReceiver<SubscriptionResult>) -> Seq<
    Poll<Option<SubscriptionResult>>,
>;

/// `tokio::sync::mpsc::unbounded_channel`: the two ends of one channel; the receiver was never
/// polled. That the channel is another than those made before is not stated.
#[verifier::external_body]
pub(crate) fn notification_channel() -> (ends: (
    UnboundedSender<SubscriptionResult>,
    UnboundedReceiver<SubscriptionResult>,
))
    ensures
        tx_channel(ends.0) == rx_channel(ends.1),
        answered(ends.1).len() == 0,
{
    tokio::sync::mpsc::unbounded_channel()
}

/// `<tokio::sync::mpsc::UnboundedSender as Clone>::clone`: sends on the same channel.
#[verifier::external_body]
pub(crate) fn clone_sender(tx: &UnboundedSender<SubscriptionResult>) -> (copy: UnboundedSender<
    SubscriptionResult,
>)
    ensures
        tx_channel(copy) == tx_channel(*tx),
{
    tx.clone()
}

/// `tokio::sync::mpsc::UnboundedReceiver::poll_recv`: polls the receiver once and returns what
/// it answers; the receiver stays that of its channel. `Poll::Ready(None)` says that the channel is closed and empty, after which no
/// message comes any more. Which of the three answers comes, and which message, rests on the
/// tasks that hold the sending half; that the polling task is woken later is an effect outside
/// of any value. Neither is stated.
#[verifier::external_body]
pub(crate) fn poll_recv(
    stream: &mut UnboundedReceiver<SubscriptionResult>,
    cx: &mut Context<'_>,
) -> (item: Poll<Option<SubscriptionResult>>)
    ensures
        rx_channel(*final(stream)) == rx_channel(*old(stream)),
        answered(*final(stream)) == answered(*old(stream)).push(item),
        answered(*old(stream)).contains(Poll::Ready(None)) ==> !(item matches Poll::Ready(Some(_))),
{
    match stream.poll_recv(cx) {
        std::task::Poll::Ready(item) => Poll::Ready(item),
        std::task::Poll::Pending => Poll::Pending,
    }
}

// ---------------------------------------------------------------------------
// Waking tasks.
// ---------------------------------------------------------------------------

/// `std::task::Waker`.
#[verifier::external_type_specification]
#[verifier::external_body]
pub struct ExWaker(Waker);

/// `std::task::Context`.
#[verifier::external_type_specification]
#[verifier::external_body]
pub struct ExContext<'a>(Context<'a>);

/// The waker that `std::task::Context::waker` lends out.
pub uninterp spec fn context_waker(cx: Context<'_>) -> Waker;

/// The task that a waker wakes.
pub uninterp spec fn woken_task(waker: Waker) -> int;

/// `std::task::Context::waker`: lends the context's own waker.
pub assume_specification<'a, 'b>[ Context::<'a>::waker ](cx: &'b Context<'a>) -> (waker: &'a Waker)
    ensures
        *waker == context_waker(*cx),
;

/// `<std::task::Waker as Clone>::clone`: the clone wakes the same task.
pub assume_specification[ <Waker as Clone>::clone ](waker: &Waker) -> (copy: Waker)
    ensures
        woken_task(copy) == woken_task(*waker),
;

// ---------------------------------------------------------------------------
// The set of calls in flight.
// ---------------------------------------------------------------------------

/// `futures::future::FutureObj`.
#[verifier::external_type_specification]
#[verifier::external_body]
#[verifier::reject_recursive_types(T)]
pub struct ExFutureObj<'a, T>(FutureObj<'a, T>);

/// `futures::stream::FuturesUnordered`.
#[verifier::external_type_specification]
#[verifier::external_body]
#[verifier::reject_recursive_types(Fut)]
pub struct ExFuturesUnordered<Fut>(FuturesUnordered<Fut>);

/// The futures that a `FuturesUnordered` holds.
pub uninterp spec fn held(futs: FuturesUnordered<CallFuture>) -> Multiset<CallFuture>;

/// What a `FuturesUnordered` has answered to each poll so far, in order.
pub uninterp spec fn set_answered(futs: FuturesUnordered<CallFuture>) -> Seq<
    Poll<Option<DispatchResult>>,
>;

/// `FuturesUnordered::new`: holds no future, and was never polled.
#[verifier::external_body]
pub(crate) fn no_futures() -> (futs: FuturesUnordered<CallFuture>)
    ensures
        held(futs) == Multiset::<CallFuture>::empty(),
        set_answered(futs).len() == 0,
{
    FuturesUnordered::new()
}

/// `FuturesUnordered::push`: adds the future to those that are held. It polls nothing.
#[verifier::external_body]
pub(crate) fn push_future(futs: &mut FuturesUnordered<CallFuture>, fut: CallFuture)
    ensures
        held(*final(futs)) == held(*old(futs)).insert(fut),
        set_answered(*final(futs)) == set_answered(*old(futs)),
{
    futs.push(fut)
}

/// `FuturesUnordered::is_empty`: whether no future is held.
#[verifier::external_body]
pub(crate) fn holds_none(futs: &FuturesUnordered<CallFuture>) -> (empty: bool)
    ensures
        empty == (held(*futs).len() == 0),
{
    futs.is_empty()
}

/// `FuturesUnordered::len`: how many futures are held.
#[verifier::external_body]
pub(crate) fn futures_held(futs: &FuturesUnordered<CallFuture>) -> (n: usize)
    ensures
        n == held(*futs).len(),
{
    futs.len()
}

/// `FuturesUnordered::poll_next`, on a set that is not empty: polls it once and
/// returns what it answers. Either one of the futures is done, leaves the set and
/// yields its output, or none leaves. The stream does not end while a future is
/// held. Which future is done, and with what output, rests on the futures and is
/// not stated.
#[verifier::external_body]
pub(crate) fn poll_futures(futs: &mut FuturesUnordered<CallFuture>, cx: &mut Context<'_>) -> (item:
    Poll<Option<DispatchResult>>)
    requires
        held(*old(futs)).len() > 0,
    ensures
        set_answered(*final(futs)) == set_answered(*old(futs)).push(item),
        match item {
            Poll::Ready(Some(_)) => exists|fut: CallFuture| #[trigger]
                held(*old(futs)).contains(fut) && held(*final(futs)) == held(*old(futs)).remove(
                    fut,
                ),
            Poll::Ready(None) => false,
            Poll::Pending => held(*final(futs)) == held(*old(futs)),
        },
{
    match futs.poll_next_unpin(cx) {
        std::task::Poll::Ready(item) => Poll::Ready(item),
        std::task::Poll::Pending => Poll::Pending,
    }
}

// ---------------------------------------------------------------------------
// Settings.
// ---------------------------------------------------------------------------

/// How long a `std::time::Duration` is, in nanoseconds.
pub uninterp spec fn duration_nanos(duration: Duration) -> nat;

/// `std::time::Duration::from_secs`: that many seconds.
pub assume_specification[ Duration::from_secs ](secs: u64) -> (duration: Duration)
    ensures
        duration_nanos(duration) == secs * 1_000_000_000,
;

/// `finito::ExponentialBackoff`.
#[verifier::external_type_specification]
#[verifier::external_body]
pub struct ExExponentialBackoff(ExponentialBackoff);

/// What an `ExponentialBackoff` is made of: the delay in milliseconds that it is
/// at, the base that each delay is multiplied with to get the next one, the
/// factor that is applied to each delay, and the longest delay.
pub struct BackoffSettings {
    pub current: u64,
    pub base: u64,
    pub factor: u64,
    pub max_delay: Option<Duration>,
}

/// The settings of an `ExponentialBackoff`.
pub uninterp spec fn backoff_settings(backoff: ExponentialBackoff) -> BackoffSettings;

/// `finito::ExponentialBackoff::from_millis`: starts at the base, with a factor of
/// one and no longest delay.
pub assume_specification[ ExponentialBackoff::from_millis ](base: u64) -> (backoff:
    ExponentialBackoff)
    ensures
        backoff_settings(backoff) == (BackoffSettings {
            current: base,
            base,
            factor: 1,
            max_delay: None,
        }),
;

/// `finito::ExponentialBackoff::max_delay`: sets the longest delay and keeps the rest.
pub assume_specification[ ExponentialBackoff::max_delay ](
    backoff: ExponentialBackoff,
    duration: Duration,
) -> (capped: ExponentialBackoff)
    ensures
        backoff_settings(capped) == (BackoffSettings {
            max_delay: Some(duration),
            ..backoff_settings(backoff)
        }),
;

/// `http::HeaderMap`.
#[verifier::external_type_specification]
#[verifier::external_body]
#[verifier::reject_recursive_types(T)]
pub struct ExHeaderMap<T>(HeaderMap<T>);

/// `http::HeaderValue`.
#[verifier::external_type_specification]
#[verifier::external_body]
pub struct ExHeaderValue(HeaderValue);

/// The headers that a `HeaderMap` holds: under each name its values, in the order
/// in which they were added.
pub uninterp spec fn header_fields(headers: HeaderMap) -> Map<Seq<char>, Seq<Seq<u8>>>;

/// No header at all.
pub open spec fn no_header_fields() -> Map<Seq<char>, Seq<Seq<u8>>> {
    Map::empty()
}

/// `http::HeaderMap::new`: holds no header.
#[verifier::external_body]
pub(crate) fn no_headers() -> (headers: HeaderMap)
    ensures
        header_fields(headers) == no_header_fields(),
{
    HeaderMap::new()
}

/// `<http::HeaderMap as Clone>::clone`: holds the same headers.
#[verifier::external_body]
pub(crate) fn clone_headers(headers: &HeaderMap) -> (copy: HeaderMap)
    ensures
        header_fields(copy) == header_fields(*headers),
{
    headers.clone()
}

/// `jsonrpsee::ws_client::PingConfig`.
#[verifier::external_type_specification]
#[verifier::external_body]
pub struct ExPingConfig(PingConfig);

/// What a `PingConfig` is made of: the interval between pings, how long the peer may
/// stay silent, and how often it may before the connection is closed.
pub struct PingSettings {
    pub ping_interval: Duration,
    pub inactive_limit: Duration,
    pub max_failures: usize,
}

/// The settings of a `PingConfig`.
pub uninterp spec fn ping_settings(ping: PingConfig) -> PingSettings;

/// `jsonrpsee::ws_client::PingConfig::new`: a ping every 30 seconds, and the
/// connection is closed at the first silence of 40 seconds.
pub assume_specification[ PingConfig::new ]() -> (ping: PingConfig)
    ensures
        duration_nanos(ping_settings(ping).ping_interval) == 30_000_000_000,
        duration_nanos(ping_settings(ping).inactive_limit) == 40_000_000_000,
        ping_settings(ping).max_failures == 1,
;

/// `jsonrpsee::core::client::IdKind`.
#[verifier::external_type_specification]
#[verifier::external_body]
pub struct ExIdKind(jsonrpsee::core::client::IdKind);

/// Whether an `IdKind` is `IdKind::Number`.
pub uninterp spec fn numeric_ids(kind: jsonrpsee::core::client::IdKind) -> bool;

/// `jsonrpsee::core::client::IdKind::Number`.
#[verifier::external_body]
pub(crate) fn number_id_kind() -> (kind: jsonrpsee::core::client::IdKind)
    ensures
        numeric_ids(kind),
{
    jsonrpsee::core::client::IdKind::Number
}

/// `tokio::sync::Semaphore::MAX_PERMITS`, which is `usize::MAX >> 3`.
#[verifier::external_body]
pub(crate) fn max_permits() -> (permits: usize)
    ensures
        permits == usize::MAX / 8,
{
    tokio::sync::Semaphore::MAX_PERMITS
}

// ---------------------------------------------------------------------------
// The builder of a native connection.
// ---------------------------------------------------------------------------

/// `jsonrpsee::ws_client::WsClientBuilder`.
#[verifier::external_type_specification]
#[verifier::external_body]
pub struct ExWsClientBuilder(WsClientBuilder);

/// What a `WsClientBuilder` was told. Which certificates a connection trusts is
/// left out: nothing here sets it.
pub struct WsSettings {
    pub max_request_size: u32,
    pub max_response_size: u32,
    pub headers: Map<Seq<char>, Seq<Seq<u8>>>,
    pub max_redirections: usize,
    pub max_buffer_capacity_per_subscription: usize,
    pub max_concurrent_requests: usize,
    pub max_log_length: u32,
    pub tcp_no_delay: bool,
    pub request_timeout: Duration,
    pub connection_timeout: Duration,
    pub id_kind: jsonrpsee::core::client::IdKind,
    pub ping_config: Option<PingConfig>,
}

/// The settings of a `WsClientBuilder`.
pub uninterp spec fn ws_settings(builder: WsClientBuilder) -> WsSettings;

/// `WsClientBuilder::new`: the documented defaults.
pub assume_specification[ WsClientBuilder::new ]() -> (builder: WsClientBuilder)
    ensures
        ws_settings(builder).max_request_size == 10 * 1024 * 1024,
        ws_settings(builder).max_response_size == 10 * 1024 * 1024,
        ws_settings(builder).headers == no_header_fields(),
        ws_settings(builder).max_redirections == 5,
        ws_settings(builder).max_buffer_capacity_per_subscription == 1024,
        ws_settings(builder).max_concurrent_requests == 256,
        ws_settings(builder).max_log_length == 4096,
        ws_settings(builder).tcp_no_delay,
        duration_nanos(ws_settings(builder).request_timeout) == 60_000_000_000,
        duration_nanos(ws_settings(builder).connection_timeout) == 10_000_000_000,
        numeric_ids(ws_settings(builder).id_kind),
        ws_settings(builder).ping_config is None,
;

/// `WsClientBuilder::max_request_size`: sets that and keeps the rest.
pub assume_specification[ WsClientBuilder::max_request_size ](
    builder: WsClientBuilder,
    size: u32,
) -> (changed: WsClientBuilder)
    ensures
        ws_settings(changed) == (WsSettings { max_request_size: size, ..ws_settings(builder) }),
;

/// `WsClientBuilder::max_response_size`: sets that and keeps the rest.
pub assume_specification[ WsClientBuilder::max_response_size ](
    builder: WsClientBuilder,
    size: u32,
) -> (changed: WsClientBuilder)
    ensures
        ws_settings(changed) == (WsSettings { max_response_size: size, ..ws_settings(builder) }),
;

/// `WsClientBuilder::set_headers`: sets the headers and keeps the rest.
pub assume_specification[ WsClientBuilder::set_headers ](
    builder: WsClientBuilder,
    headers: HeaderMap,
) -> (changed: WsClientBuilder)
    ensures
        ws_settings(changed) == (WsSettings {
            headers: header_fields(headers),
            ..ws_settings(builder)
        }),
;

/// `WsClientBuilder::max_redirections`: sets that and keeps the rest.
pub assume_specification[ WsClientBuilder::max_redirections ](
    builder: WsClientBuilder,
    redirect: usize,
) -> (changed: WsClientBuilder)
    ensures
        ws_settings(changed) == (WsSettings { max_redirections: redirect, ..ws_settings(builder) }),
;

/// `WsClientBuilder::max_buffer_capacity_per_subscription`: sets that and keeps the rest.
pub assume_specification[ WsClientBuilder::max_buffer_capacity_per_subscription ](
    builder: WsClientBuilder,
    max: usize,
) -> (changed: WsClientBuilder)
    ensures
        ws_settings(changed) == (WsSettings {
            max_buffer_capacity_per_subscription: max,
            ..ws_settings(builder)
        }),
;

/// `WsClientBuilder::max_concurrent_requests`: sets that and keeps the rest.
pub assume_specification[ WsClientBuilder::max_concurrent_requests ](
    builder: WsClientBuilder,
    max: usize,
) -> (changed: WsClientBuilder)
    ensures
        ws_settings(changed) == (WsSettings {
            max_concurrent_requests: max,
            ..ws_settings(builder)
        }),
;

/// `WsClientBuilder::set_max_logging_length`: sets that and keeps the rest.
pub assume_specification[ WsClientBuilder::set_max_logging_length ](
    builder: WsClientBuilder,
    max: u32,
) -> (changed: WsClientBuilder)
    ensures
        ws_settings(changed) == (WsSettings { max_log_length: max, ..ws_settings(builder) }),
;

/// `WsClientBuilder::set_tcp_no_delay`: sets that and keeps the rest.
pub assume_specification[ WsClientBuilder::set_tcp_no_delay ](
    builder: WsClientBuilder,
    no_delay: bool,
) -> (changed: WsClientBuilder)
    ensures
        ws_settings(changed) == (WsSettings { tcp_no_delay: no_delay, ..ws_settings(builder) }),
;

/// `WsClientBuilder::request_timeout`: sets that and keeps the rest.
pub assume_specification[ WsClientBuilder::request_timeout ](
    builder: WsClientBuilder,
    timeout: Duration,
) -> (changed: WsClientBuilder)
    ensures
        ws_settings(changed) == (WsSettings { request_timeout: timeout, ..ws_settings(builder) }),
;

/// `WsClientBuilder::connection_timeout`: sets that and keeps the rest.
pub assume_specification[ WsClientBuilder::connection_timeout ](
    builder: WsClientBuilder,
    timeout: Duration,
) -> (changed: WsClientBuilder)
    ensures
        ws_settings(changed) == (WsSettings {
            connection_timeout: timeout,
            ..ws_settings(builder)
        }),
;

/// `WsClientBuilder::id_format`: sets the kind of id and keeps the rest.
pub assume_specification[ WsClientBuilder::id_format ](
    builder: WsClientBuilder,
    kind: jsonrpsee::core::client::IdKind,
) -> (changed: WsClientBuilder)
    ensures
        ws_settings(changed) == (WsSettings { id_kind: kind, ..ws_settings(builder) }),
;

/// `WsClientBuilder::enable_ws_ping`: sets the pings and keeps the rest.
pub assume_specification[ WsClientBuilder::enable_ws_ping ](
    builder: WsClientBuilder,
    cfg: PingConfig,
) -> (changed: WsClientBuilder)
    ensures
        ws_settings(changed) == (WsSettings { ping_config: Some(cfg), ..ws_settings(builder) }),
;

// ---------------------------------------------------------------------------
// The builder of a connection over a transport that is open already.
// ---------------------------------------------------------------------------

/// `jsonrpsee::async_client::ClientBuilder`.
#[verifier::external_type_specification]
#[verifier::external_body]
pub struct ExTransportClientBuilder(TransportClientBuilder);

/// What a `jsonrpsee::async_client::ClientBuilder` was told.
pub struct TransportSettings {
    pub max_buffer_capacity_per_subscription: usize,
    pub max_concurrent_requests: usize,
    pub max_log_length: u32,
    pub tcp_no_delay: bool,
    pub request_timeout: Duration,
    pub id_kind: jsonrpsee::core::client::IdKind,
    pub ping_config: Option<PingConfig>,
}

/// The settings of a `jsonrpsee::async_client::ClientBuilder`.
pub uninterp spec fn transport_settings(
    builder: TransportClientBuilder,
) -> TransportSettings;

/// `jsonrpsee::async_client::ClientBuilder::new`: the documented defaults.
pub assume_specification[ TransportClientBuilder::new ]() -> (builder:
    TransportClientBuilder)
    ensures
        transport_settings(builder).max_buffer_capacity_per_subscription == 1024,
        transport_settings(builder).max_concurrent_requests == 256,
        transport_settings(builder).max_log_length == 4096,
        transport_settings(builder).tcp_no_delay,
        duration_nanos(transport_settings(builder).request_timeout) == 60_000_000_000,
        numeric_ids(transport_settings(builder).id_kind),
        transport_settings(builder).ping_config is None,
;

/// `jsonrpsee::async_client::ClientBuilder::max_buffer_capacity_per_subscription`: sets
/// that and keeps the rest. It panics on 0.
pub assume_specification[ TransportClientBuilder::max_buffer_capacity_per_subscription ](
    builder: TransportClientBuilder,
    max: usize,
) -> (changed: TransportClientBuilder)
    requires
        max > 0,
    ensures
        transport_settings(changed) == (TransportSettings {
            max_buffer_capacity_per_subscription: max,
            ..transport_settings(builder)
        }),
;

/// `jsonrpsee::async_client::ClientBuilder::max_concurrent_requests`: sets that and
/// keeps the rest.
pub assume_specification[ TransportClientBuilder::max_concurrent_requests ](
    builder: TransportClientBuilder,
    max: usize,
) -> (changed: TransportClientBuilder)
    ensures
        transport_settings(changed) == (TransportSettings {
            max_concurrent_requests: max,
            ..transport_settings(builder)
        }),
;

/// `jsonrpsee::async_client::ClientBuilder::set_max_logging_length`: sets that and
/// keeps the rest.
pub assume_specification[ TransportClientBuilder::set_max_logging_length ](
    builder: TransportClientBuilder,
    max: u32,
) -> (changed: TransportClientBuilder)
    ensures
        transport_settings(changed) == (TransportSettings {
            max_log_length: max,
            ..transport_settings(builder)
        }),
;

/// `jsonrpsee::async_client::ClientBuilder::set_tcp_no_delay`: sets that and keeps the rest.
pub assume_specification[ TransportClientBuilder::set_tcp_no_delay ](
    builder: TransportClientBuilder,
    no_delay: bool,
) -> (changed: TransportClientBuilder)
    ensures
        transport_settings(changed) == (TransportSettings {
            tcp_no_delay: no_delay,
            ..transport_settings(builder)
        }),
;

/// `jsonrpsee::async_client::ClientBuilder::request_timeout`: sets that and keeps the rest.
pub assume_specification[ TransportClientBuilder::request_timeout ](
    builder: TransportClientBuilder,
    timeout: Duration,
) -> (changed: TransportClientBuilder)
    ensures
        transport_settings(changed) == (TransportSettings {
            request_timeout: timeout,
            ..transport_settings(builder)
        }),
;

/// `jsonrpsee::async_client::ClientBuilder::id_format`: sets the kind of id and keeps
/// the rest.
pub assume_specification[ TransportClientBuilder::id_format ](
    builder: TransportClientBuilder,
    id_kind: jsonrpsee::core::client::IdKind,
) -> (changed: TransportClientBuilder)
    ensures
        transport_settings(changed) == (TransportSettings {
            id_kind,
            ..transport_settings(builder)
        }),
;

} // verus!
