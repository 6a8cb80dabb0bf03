# reconnecting-jsonrpsee-ws-client

A JSON-RPC WebSocket client that reconnects on its own, over the jsonrpsee client. Pending calls
are sent again and subscriptions are re-established once the connection is back, unless their
`CallRetryPolicy` says otherwise.

Everything the client decides is verified with Verus:

- `src/background.rs`: the background task, one event at a time
- `src/dispatch.rs`: what becomes of one call or subscription
- `src/handler.rs`: what is done with the notifications of one subscription
- `src/client.rs`, `src/builder.rs`, `src/platform/`: requests, settings and how a connection is set up
- `src/utils.rs`: the set of calls in flight and the count of reconnections
- `src/laws.rs`: what holds of the client as a whole
- `src/outside.rs`: what is taken from other crates without proof

`app/` opens sockets, runs tasks and waits on channels, as the library says.

Subscriptions may lose notifications while the client reconnects; it is not possible to know which
ones.
