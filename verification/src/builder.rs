//! The builder of a client.

use crate::background::{BackgroundTask, PhaseView, TaskView};
use crate::outside::{
    backoff_settings, clone_headers, duration_nanos, header_fields, no_header_fields, no_headers,
    number_id_kind, numeric_ids, ping_settings,
};
use crate::types::RpcError;
use crate::utils::reconnect_channel;
use finito::ExponentialBackoff;
use jsonrpsee::ws_client::{HeaderMap, PingConfig};
use std::time::Duration;
use vstd::multiset::Multiset;
use vstd::prelude::*;

verus! {

/// Builder for a client, and all that it was told. `P` decides how long to wait before each
/// attempt to connect, and when to give up.
#[derive(Debug)]
pub struct ClientBuilder<P> {
    pub max_request_size: u32,
    pub max_response_size: u32,
    pub retry_policy: P,
    pub ping_config: Option<PingConfig>,
    pub headers: HeaderMap,
    pub max_redirections: u32,
    pub id_kind: jsonrpsee::core::client::IdKind,
    pub max_log_len: u32,
    pub max_concurrent_requests: u32,
    pub request_timeout: Duration,
    pub connection_timeout: Duration,
}

impl ClientBuilder<ExponentialBackoff> {
    /// The settings of a builder that was told nothing.
    pub open spec fn is_default(self) -> bool {
        &&& self.max_request_size == 10 * 1024 * 1024
        &&& self.max_response_size == 10 * 1024 * 1024
        // The first delay is 10 milliseconds, each is ten times as long as the one before,
        // and none is longer than a minute.
        &&& backoff_settings(self.retry_policy).current == 10
        &&& backoff_settings(self.retry_policy).base == 10
        &&& backoff_settings(self.retry_policy).factor == 1
        &&& backoff_settings(self.retry_policy).max_delay matches Some(max_delay)
        &&& duration_nanos(max_delay) == 60_000_000_000
        &&& self.ping_config matches Some(ping)
        &&& duration_nanos(ping_settings(ping).ping_interval) == 30_000_000_000
        &&& duration_nanos(ping_settings(ping).inactive_limit) == 40_000_000_000
        &&& ping_settings(ping).max_failures == 1
        &&& header_fields(self.headers) == no_header_fields()
        &&& self.max_redirections == 5
        &&& numeric_ids(self.id_kind)
        &&& self.max_log_len == 1024
        &&& self.max_concurrent_requests == 1024
        &&& duration_nanos(self.request_timeout) == 60_000_000_000
        &&& duration_nanos(self.connection_timeout) == 10_000_000_000
    }
}

impl<P: Clone> Clone for ClientBuilder<P> {
    fn clone(&self) -> (copy: Self)
        ensures
            copy == (ClientBuilder {
                retry_policy: copy.retry_policy,
                headers: copy.headers,
                ..*self
            }),
            cloned(self.retry_policy, copy.retry_policy),
            header_fields(copy.headers) == header_fields(self.headers),
    {
        ClientBuilder {
            max_request_size: self.max_request_size,
            max_response_size: self.max_response_size,
            retry_policy: self.retry_policy.clone(),
            ping_config: self.ping_config,
            headers: clone_headers(&self.headers),
            max_redirections: self.max_redirections,
            id_kind: self.id_kind,
            max_log_len: self.max_log_len,
            max_concurrent_requests: self.max_concurrent_requests,
            request_timeout: self.request_timeout,
            connection_timeout: self.connection_timeout,
        }
    }
}

impl Default for ClientBuilder<ExponentialBackoff> {
    fn default() -> (builder: Self)
        ensures
            builder.is_default(),
    {
        ClientBuilder {
            max_request_size: 10 * 1024 * 1024,
            max_response_size: 10 * 1024 * 1024,
            retry_policy: ExponentialBackoff::from_millis(10).max_delay(Duration::from_secs(60)),
            ping_config: Some(PingConfig::new()),
            headers: no_headers(),
            max_redirections: 5,
            id_kind: number_id_kind(),
            max_log_len: 1024,
            max_concurrent_requests: 1024,
            request_timeout: Duration::from_secs(60),
            connection_timeout: Duration::from_secs(10),
        }
    }
}

impl ClientBuilder<ExponentialBackoff> {
    /// Creates a new builder.
    pub fn new() -> (builder: Self)
        ensures
            builder.is_default(),
    {
        Self::default()
    }
}

impl<P> ClientBuilder<P> {
    /// Configures the max request size for a websocket message.
    ///
    /// Default: 10MB
    pub fn max_request_size(self, max: u32) -> (builder: Self)
        ensures
            builder == (ClientBuilder { max_request_size: max, ..self }),
    {
        ClientBuilder { max_request_size: max, ..self }
    }

    /// Configures the max response size for a websocket message.
    ///
    /// Default: 10MB
    pub fn max_response_size(self, max: u32) -> (builder: Self)
        ensures
            builder == (ClientBuilder { max_response_size: max, ..self }),
    {
        ClientBuilder { max_response_size: max, ..self }
    }

    /// Sets the max number of redirections to perform until a connection is regarded as failed.
    ///
    /// Default: 5
    pub fn max_redirections(self, redirect: u32) -> (builder: Self)
        ensures
            builder == (ClientBuilder { max_redirections: redirect, ..self }),
    {
        ClientBuilder { max_redirections: redirect, ..self }
    }

    /// Configures how many concurrent method calls are allowed.
    ///
    /// Default: 1024
    pub fn max_concurrent_requests(self, max: u32) -> (builder: Self)
        ensures
            builder == (ClientBuilder { max_concurrent_requests: max, ..self }),
    {
        ClientBuilder { max_concurrent_requests: max, ..self }
    }

    /// Configures how long until a method call is regarded as failed.
    ///
    /// Default: 1 minute
    pub fn request_timeout(self, timeout: Duration) -> (builder: Self)
        ensures
            builder == (ClientBuilder { request_timeout: timeout, ..self }),
    {
        ClientBuilder { request_timeout: timeout, ..self }
    }

    /// Sets the connection timeout for the WebSocket handshake.
    ///
    /// Default: 10 seconds
    pub fn connection_timeout(self, timeout: Duration) -> (builder: Self)
        ensures
            builder == (ClientBuilder { connection_timeout: timeout, ..self }),
    {
        ClientBuilder { connection_timeout: timeout, ..self }
    }

    /// Configures the data type of the request object ID.
    ///
    /// Default: number
    pub fn id_format(self, kind: jsonrpsee::core::client::IdKind) -> (builder: Self)
        ensures
            builder == (ClientBuilder { id_kind: kind, ..self }),
    {
        ClientBuilder { id_kind: kind, ..self }
    }

    /// Sets the maximum length for logging calls and responses.
    /// Logs bigger than this limit will be truncated.
    ///
    /// Default: 1024
    pub fn set_max_logging_length(self, max: u32) -> (builder: Self)
        ensures
            builder == (ClientBuilder { max_log_len: max, ..self }),
    {
        ClientBuilder { max_log_len: max, ..self }
    }

    /// Configures custom headers to use in the WebSocket handshake.
    pub fn set_headers(self, headers: HeaderMap) -> (builder: Self)
        ensures
            builder == (ClientBuilder { headers, ..self }),
    {
        ClientBuilder { headers, ..self }
    }

    /// Configures which retry policy to use when a connection is lost.
    ///
    /// Default: Exponential backoff 10ms
    pub fn retry_policy<T>(self, retry_policy: T) -> (builder: ClientBuilder<T>)
        ensures
            builder.max_request_size == self.max_request_size,
            builder.max_response_size == self.max_response_size,
            builder.retry_policy == retry_policy,
            builder.ping_config == self.ping_config,
            builder.headers == self.headers,
            builder.max_redirections == self.max_redirections,
            builder.id_kind == self.id_kind,
            builder.max_log_len == self.max_log_len,
            builder.max_concurrent_requests == self.max_concurrent_requests,
            builder.request_timeout == self.request_timeout,
            builder.connection_timeout == self.connection_timeout,
    {
        ClientBuilder {
            max_request_size: self.max_request_size,
            max_response_size: self.max_response_size,
            retry_policy,
            ping_config: self.ping_config,
            headers: self.headers,
            max_redirections: self.max_redirections,
            id_kind: self.id_kind,
            max_log_len: self.max_log_len,
            max_concurrent_requests: self.max_concurrent_requests,
            request_timeout: self.request_timeout,
            connection_timeout: self.connection_timeout,
        }
    }

    /// Configures the WebSocket ping/pong interval.
    ///
    /// Default: 30 seconds.
    pub fn enable_ws_ping(self, ping_config: PingConfig) -> (builder: Self)
        ensures
            builder == (ClientBuilder { ping_config: Some(ping_config), ..self }),
    {
        ClientBuilder { ping_config: Some(ping_config), ..self }
    }

    /// Disables WebSocket ping/pongs.
    pub fn disable_ws_ping(self) -> (builder: Self)
        ensures
            builder == (ClientBuilder { ping_config: None, ..self }),
    {
        ClientBuilder { ping_config: None, ..self }
    }

    /// Builds the background task of a client, from which its clients are taken, now that the
    /// first attempt to connect has ended: with a connection, or with the error that the retry
    /// policy gave up at.
    pub fn build(&self, connected: Result<(), RpcError>) -> (task: Result<BackgroundTask, RpcError>)
        ensures
            match connected {
                Ok(_) => {
                    &&& task matches Ok(task)
                    &&& task@ == (TaskView {
                        id: 0,
                        open: Map::empty(),
                        pending: Multiset::empty(),
                        reconnects: 0,
                        phase: PhaseView::Running,
                    })
                    &&& task.parked() is None
                    &&& task.answered().len() == 0
                },
                Err(error) => task == Err::<BackgroundTask, RpcError>(error),
            },
    {
        match connected {
            Ok(_) => Ok(BackgroundTask::new(reconnect_channel())),
            Err(error) => Err(error),
        }
    }
}

} // verus!
