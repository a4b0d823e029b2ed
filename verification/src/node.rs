//! Address bookkeeping of a node: the addresses its socket is bound to and
//! the addresses it can be reached on.

use vstd::prelude::*;

use crate::addr::SocketAddr;

verus! {

/// The kind of a local endpoint of a node.
#[derive(Debug, Clone, Copy, PartialEq, Eq)]
pub enum EndpointType {
    /// Endpoint kind has not been determined yet.
    Unknown,
    /// Endpoint is bound to a local address.
    Local,
    /// Endpoint has a publicly reachable address found via STUN.
    Stun,
    /// Endpoint uses a port mapping in the router.
    Portmapped,
    /// Hard NAT: STUN'ed IPv4 address + local fixed port.
    Stun4LocalPort,
}

/// An endpoint on which a node can be reached.
#[derive(Debug, Clone, Copy)]
pub struct Endpoint {
    /// The address of the endpoint.
    pub addr: SocketAddr,
    /// The kind of endpoint.
    pub typ: EndpointType,
}

/// Errors of the node's address queries.
#[derive(Debug, Clone, Copy, PartialEq, Eq)]
pub enum NodeError {
    /// The node reported no endpoints.
    NoEndpoints,
}

impl NodeError {
    /// The human-readable description of the error.
    pub fn message(&self) -> (r: &'static str)
        ensures
            r@ == "no endpoints found"@,
    {
        "no endpoints found"
    }
}

/// The addresses on which the node socket is bound, given its IPv4 address
/// and, if it has one, its IPv6 address: the IPv4 address first.
pub fn local_address(v4: SocketAddr, v6: Option<SocketAddr>) -> (r: Vec<SocketAddr>)
    ensures
        r@ == match v6 {
            Some(a) => seq![v4, a],
            None => seq![v4],
        },
{
    let mut addrs: Vec<SocketAddr> = Vec::new();
    addrs.push(v4);
    match v6 {
        Some(a) => {
            addrs.push(a);
        },
        None => {},
    }
    addrs
}

/// The addresses of a list of endpoints, in order.
pub open spec fn endpoint_addrs(endpoints: Seq<Endpoint>) -> Seq<SocketAddr> {
    endpoints.map_values(|e: Endpoint| e.addr)
}

/// The addresses of the first batch of local endpoints the node reports, or
/// an error when the node reports none.
pub fn local_endpoint_addresses(first: Option<Vec<Endpoint>>) -> (r: Result<
    Vec<SocketAddr>,
    NodeError,
>)
    ensures
        match first {
            None => r == Err::<Vec<SocketAddr>, NodeError>(NodeError::NoEndpoints),
            Some(eps) => r is Ok && r->Ok_0@ == endpoint_addrs(eps@),
        },
{
    match first {
        None => Err(NodeError::NoEndpoints),
        Some(endpoints) => {
            let mut addrs: Vec<SocketAddr> = Vec::new();
            let mut i: usize = 0;
            while i < endpoints.len()
                invariant
                    0 <= i <= endpoints.len(),
                    addrs@ == endpoint_addrs(endpoints@.subrange(0, i as int)),
                decreases endpoints.len() - i,
            {
                addrs.push(endpoints[i].addr);
                i = i + 1;
                assert(endpoints@.subrange(0, i as int) == endpoints@.subrange(
                    0,
                    i - 1,
                ).push(endpoints@[i - 1]));
            }
            assert(endpoints@.subrange(0, endpoints.len() as int) == endpoints@);
            Ok(addrs)
        },
    }
}

/// The addresses of a batch of endpoints are one per endpoint, in order,
/// each the address of its endpoint, whatever the endpoint's kind.
pub proof fn lemma_endpoint_addrs_one_per_endpoint(endpoints: Seq<Endpoint>)
    ensures
        endpoint_addrs(endpoints).len() == endpoints.len(),
        forall|i: int|
            0 <= i < endpoints.len() ==> #[trigger] endpoint_addrs(endpoints)[i]
                == endpoints[i].addr,
{
}

} // verus!
