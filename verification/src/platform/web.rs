//! Connections over the socket of a browser.

use crate::builder::ClientBuilder;
use crate::outside::{max_permits, transport_settings, TransportSettings};
use jsonrpsee::async_client::ClientBuilder as TransportClientBuilder;
use vstd::prelude::*;

verus! {

/// Sets up the client of an open connection as `builder` says. The browser has opened the
/// connection already, so what concerns the handshake and the size of messages is left to it;
/// nor does it offer pings.
pub fn ws_client<P>(builder: &ClientBuilder<P>) -> (client_builder: TransportClientBuilder)
    ensures
        transport_settings(client_builder) == (TransportSettings {
            max_buffer_capacity_per_subscription: usize::MAX / 8,
            max_concurrent_requests: builder.max_concurrent_requests as usize,
            max_log_length: builder.max_log_len,
            tcp_no_delay: true,
            request_timeout: builder.request_timeout,
            id_kind: builder.id_kind,
            ping_config: None,
        }),
{
    TransportClientBuilder::new()
        .max_buffer_capacity_per_subscription(max_permits())
        .max_concurrent_requests(builder.max_concurrent_requests as usize)
        .set_max_logging_length(builder.max_log_len)
        .set_tcp_no_delay(true)
        .request_timeout(builder.request_timeout)
        .id_format(builder.id_kind)
}

} // verus!
