//! Plain-value socket addresses.

use vstd::prelude::*;

verus! {

/// An internet socket address, either IPv4 or IPv6.
#[derive(Debug, Clone, Copy, PartialEq, Eq)]
pub enum SocketAddr {
    /// An IPv4 socket address.
    V4 {
        /// The four octets of the address.
        ip: [u8; 4],
        /// The port.
        port: u16,
    },
    /// An IPv6 socket address.
    V6 {
        /// The sixteen octets of the address.
        ip: [u8; 16],
        /// The port.
        port: u16,
        /// The flow information.
        flowinfo: u32,
        /// The scope identifier.
        scope_id: u32,
    },
}

impl SocketAddr {
    /// The port of the address.
    pub open spec fn port_of(self) -> u16 {
        match self {
            SocketAddr::V4 { port, .. } => port,
            SocketAddr::V6 { port, .. } => port,
        }
    }

    /// Returns the port number associated with this socket address.
    pub fn port(&self) -> (r: u16)
        ensures
            r == self.port_of(),
    {
        match self {
            SocketAddr::V4 { port, .. } => *port,
            SocketAddr::V6 { port, .. } => *port,
        }
    }

    /// Returns true if this is an IPv6 address.
    pub fn is_ipv6(&self) -> (r: bool)
        ensures
            r == (*self is V6),
    {
        match self {
            SocketAddr::V4 { .. } => false,
            SocketAddr::V6 { .. } => true,
        }
    }

    /// The IPv4 loopback address 127.0.0.1 with the given port.
    pub fn localhost_v4(port: u16) -> (r: SocketAddr)
        ensures
            r == (SocketAddr::V4 { ip: [127u8, 0, 0, 1], port }),
    {
        SocketAddr::V4 { ip: [127, 0, 0, 1], port }
    }
}

} // verus!
