//! Socket addresses as plain values.

use vstd::prelude::*;

verus! {

/// An IP address.
#[derive(Debug, Clone, Copy, PartialEq, Eq)]
pub enum IpAddr {
    /// The four bytes of an IPv4 address.
    V4([u8; 4]),
    /// The sixteen bytes of an IPv6 address.
    V6([u8; 16]),
}

/// An IP address and a port. Over IPv6 it also says which flow, and on which link
/// an address that only holds on one link is meant.
#[derive(Debug, Clone, Copy, PartialEq, Eq)]
pub enum SocketAddr {
    V4 { octets: [u8; 4], port: u16 },
    V6 { octets: [u8; 16], port: u16, flowinfo: u32, scope_id: u32 },
}

impl SocketAddr {
    /// An address of the given parts, over IPv6 of no flow and no link.
    pub fn new(ip: IpAddr, port: u16) -> (r: SocketAddr)
        ensures
            r == match ip {
                IpAddr::V4(octets) => SocketAddr::V4 { octets, port },
                IpAddr::V6(octets) => SocketAddr::V6 { octets, port, flowinfo: 0, scope_id: 0 },
            },
    {
        match ip {
            IpAddr::V4(octets) => SocketAddr::V4 { octets, port },
            IpAddr::V6(octets) => SocketAddr::V6 { octets, port, flowinfo: 0, scope_id: 0 },
        }
    }

    /// `0.0.0.0:0`, which stands for no address in particular.
    pub fn unspecified() -> (r: SocketAddr)
        ensures
            r.is_unspecified(),
    {
        SocketAddr::V4 { octets: [0, 0, 0, 0], port: 0 }
    }

    /// Whether this is `0.0.0.0:0`.
    pub open spec fn is_unspecified(self) -> bool {
        match self {
            SocketAddr::V4 { octets, port } => octets@ == seq![0u8, 0, 0, 0] && port == 0,
            SocketAddr::V6 { .. } => false,
        }
    }

    /// The port.
    pub fn port(&self) -> (r: u16)
        ensures
            r == match self {
                SocketAddr::V4 { port, .. } => *port,
                SocketAddr::V6 { port, .. } => *port,
            },
    {
        match self {
            SocketAddr::V4 { port, .. } => *port,
            SocketAddr::V6 { port, .. } => *port,
        }
    }
}

} // verus!
