//! Connections over a socket of the operating system.

use crate::builder::ClientBuilder;
use crate::outside::{clone_headers, header_fields, max_permits, ws_settings, WsSettings};
use jsonrpsee::ws_client::WsClientBuilder;
use vstd::prelude::*;

verus! {

/// Sets up the connection as `builder` says. What is left to do is to connect.
///
/// Subscriptions are buffered without a limit of their own, and packets are sent without
/// delay.
pub fn ws_client<P>(builder: &ClientBuilder<P>) -> (ws_client_builder: WsClientBuilder)
    ensures
        ws_settings(ws_client_builder) == (WsSettings {
            max_request_size: builder.max_request_size,
            max_response_size: builder.max_response_size,
            headers: header_fields(builder.headers),
            max_redirections: builder.max_redirections as usize,
            max_buffer_capacity_per_subscription: usize::MAX / 8,
            max_concurrent_requests: builder.max_concurrent_requests as usize,
            max_log_length: builder.max_log_len,
            tcp_no_delay: true,
            request_timeout: builder.request_timeout,
            connection_timeout: builder.connection_timeout,
            id_kind: builder.id_kind,
            ping_config: builder.ping_config,
        }),
{
    let ws_client_builder = WsClientBuilder::new()
        .max_request_size(builder.max_request_size)
        .max_response_size(builder.max_response_size)
        .set_headers(clone_headers(&builder.headers))
        .max_redirections(builder.max_redirections as usize)
        .max_buffer_capacity_per_subscription(max_permits())
        .max_concurrent_requests(builder.max_concurrent_requests as usize)
        .set_max_logging_length(builder.max_log_len)
        .set_tcp_no_delay(true)
        .request_timeout(builder.request_timeout)
        .connection_timeout(builder.connection_timeout)
        .id_format(builder.id_kind);

    if let Some(ping) = builder.ping_config {
        ws_client_builder.enable_ws_ping(ping)
    } else {
        ws_client_builder
    }
}

} // verus!
