//! Connecting an RPC client to an iroh node running in a separate process on
//! the same machine.

use vstd::prelude::*;

use crate::rpc_status::{lemma_running_only_after_connecting, spec_load_step, LoadAction, LoadEvent, RpcStatus};

verus! {

/// ALPN used by iroh's RPC mechanism.
pub const RPC_ALPN: [u8; 17] = [
    110, 48, 47, 112, 114, 111, 118, 105, 100, 101, 114, 45, 114, 112, 99, 47, 49,
];

/// The ALPN of iroh's RPC mechanism, `n0/provider-rpc/1`.
pub open spec fn rpc_alpn() -> Seq<u8> {
    seq![110u8, 48, 47, 112, 114, 111, 118, 105, 100, 101, 114, 45, 114, 112, 99, 47, 49]
}

/// Seconds a freshly connected client waits for the node to answer the status request.
pub const RPC_STATUS_TIMEOUT_SECS: u64 = 1;

/// Seconds between the keep-alive packets of the RPC client.
pub const RPC_KEEP_ALIVE_SECS: u64 = 1;

/// Where and how an RPC client connects to the node on the same machine.
#[derive(Debug, Clone, PartialEq, Eq)]
pub struct RpcConnectTarget {
    /// The IPv4 address the client binds to.
    pub bind_ip: [u8; 4],
    /// The port the client binds to; 0 lets the system choose.
    pub bind_port: u16,
    /// The IPv4 address of the node.
    pub server_ip: [u8; 4],
    /// The RPC port of the node.
    pub server_port: u16,
    /// The server name the client expects.
    pub server_name: String,
    /// The ALPN protocols the client offers.
    pub alpn: Vec<u8>,
    /// Seconds to wait for the node to answer the status request.
    pub status_timeout_secs: u64,
    /// Seconds between keep-alive packets.
    pub keep_alive_secs: u64,
}

/// The answer of a freshly connected node to the status request.
#[derive(Debug, Clone, PartialEq, Eq)]
pub enum StatusProbe {
    /// The node did not answer in time.
    TimedOut,
    /// The request failed; carries the description of the failure.
    Failed(String),
    /// The node answered.
    Answered,
}

/// Errors when connecting to a node running in a separate process.
#[derive(Debug, Clone, PartialEq, Eq)]
pub enum ConnectError {
    /// No node is running under the given root.
    NotRunning,
    /// The node did not answer the status request in time.
    NodeNotAnswering,
    /// The status request failed; carries the description of the failure.
    Rpc(String),
}

impl ConnectError {
    /// The human-readable description of the error.
    pub fn message(&self) -> (r: &str)
        ensures
            r@ == spec_connect_error_message(*self),
    {
        match self {
            ConnectError::NotRunning => "iroh is not running, please start it",
            ConnectError::NodeNotAnswering => "Iroh node is not running",
            ConnectError::Rpc(m) => m.as_str(),
        }
    }
}

/// The human-readable description of each connection error.
pub open spec fn spec_connect_error_message(e: ConnectError) -> Seq<char> {
    match e {
        ConnectError::NotRunning => "iroh is not running, please start it"@,
        ConnectError::NodeNotAnswering => "Iroh node is not running"@,
        ConnectError::Rpc(m) => m@,
    }
}

/// The target of a raw RPC connection to the node serving RPC on `rpc_port`:
/// bind to any local address, connect to the loopback address, wait one
/// second for the node to answer, and keep the connection alive every second.
pub fn rpc_connect_target(rpc_port: u16) -> (r: RpcConnectTarget)
    ensures
        r.bind_ip@ == seq![0u8, 0, 0, 0],
        r.bind_port == 0,
        r.server_ip@ == seq![127u8, 0, 0, 1],
        r.server_port == rpc_port,
        r.server_name@ == "localhost"@,
        r.alpn@ == rpc_alpn(),
        r.status_timeout_secs == 1,
        r.keep_alive_secs == 1,
{
    let mut alpn: Vec<u8> = Vec::new();
    let mut i: usize = 0;
    while i < 17
        invariant
            0 <= i <= 17,
            alpn@ == RPC_ALPN@.subrange(0, i as int),
            RPC_ALPN@ == rpc_alpn(),
        decreases 17 - i,
    {
        alpn.push(RPC_ALPN[i]);
        i = i + 1;
        assert(alpn@ == RPC_ALPN@.subrange(0, i as int));
    }
    assert(alpn@ == RPC_ALPN@);
    RpcConnectTarget {
        bind_ip: [0, 0, 0, 0],
        bind_port: 0,
        server_ip: [127, 0, 0, 1],
        server_port: rpc_port,
        server_name: String::from_str("localhost"),
        alpn,
        status_timeout_secs: RPC_STATUS_TIMEOUT_SECS,
        keep_alive_secs: RPC_KEEP_ALIVE_SECS,
    }
}

/// The outcome of a raw connection once the node was asked for its status: a
/// node that does not answer in time is not running, a failed request is
/// an error, and a node that answers is connected to.
pub fn finish_raw_connect<C>(client: C, probe: StatusProbe) -> (r: Result<C, ConnectError>)
    ensures
        match probe {
            StatusProbe::TimedOut => r == Err::<C, ConnectError>(ConnectError::NodeNotAnswering),
            StatusProbe::Failed(m) => r == Err::<C, ConnectError>(ConnectError::Rpc(m)),
            StatusProbe::Answered => r == Ok::<C, ConnectError>(client),
        },
{
    match probe {
        StatusProbe::TimedOut => Err(ConnectError::NodeNotAnswering),
        StatusProbe::Failed(m) => Err(ConnectError::Rpc(m)),
        StatusProbe::Answered => Ok(client),
    }
}

/// Connects to an iroh node running on the same computer, but in a different
/// process, given its loaded RPC status: only a running node can be connected to.
pub fn connect<C>(status: RpcStatus<C>) -> (r: Result<C, ConnectError>)
    ensures
        match status {
            RpcStatus::Stopped => r == Err::<C, ConnectError>(ConnectError::NotRunning),
            RpcStatus::Running { client, .. } => r == Ok::<C, ConnectError>(client),
        },
{
    match status {
        RpcStatus::Stopped => Err(ConnectError::NotRunning),
        RpcStatus::Running { client, .. } => Ok(client),
    }
}

/// Connecting after loading the status succeeds exactly when loading ended
/// with a running node, which happens only right after the node answered a
/// connection; the client is then the one of that connection.
pub proof fn lemma_connect_after_load<C>(event: LoadEvent<C>, status: RpcStatus<C>)
    requires
        spec_load_step(event) == LoadAction::Done(status),
    ensures
        status is Running <==> (event is Connected && event->client is Some),
        status is Running ==> status->client == event->client->0 && status->port == event->port,
        status is Stopped ==> (event is LockChecked || event is LockDeleted),
{
    match status {
        RpcStatus::Running { port, client } => {
            lemma_running_only_after_connecting(event, port, client);
        },
        RpcStatus::Stopped => {},
    }
}

} // verus!
