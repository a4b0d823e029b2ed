# iroh (verified core)

The decisions of an iroh node, written in Verus and proved against their
contracts:

- `src/transport_error.rs`, `src/get_error.rs`: QUIC connection and stream
  failures, the failures of a get request, and how each is classified into a
  `GetError` kind.
- `src/downloader.rs`: the action the downloader takes for each failure, and
  the download metrics recorded for each finished request.
- `src/rpc_status.rs`, `src/client.rs`: the RPC lock file that tells other
  processes on the machine where a node serves RPC, and connecting to it.
- `src/node.rs`, `src/addr.rs`: the addresses a node is bound to and reachable on.
- `src/bench.rs`: socket settings of the throughput benchmark.
- `src/rpc_protocol.rs`: RPC message types.

`app/` holds the input/output around it: the lock file on disk (tokio),
QUIC errors converted into the library's models (quinn), benchmark sockets
(socket2), and serializable copies of the RPC messages (serde).
