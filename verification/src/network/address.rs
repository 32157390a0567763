//! Socket addresses as plain values.

use vstd::prelude::*;

verus! {

/// The address of a TCP endpoint: an IP address and a port, held as numbers.
/// Two addresses are the same exactly where they are the same end point.
#[derive(Clone, Copy, Debug, PartialEq, Eq, Structural, Hash)]
#[allow(inconsistent_fields)]
pub enum SocketAddress {
    /// An IPv4 end point.
    V4 {
        /// The four bytes of the address, the first one highest.
        ip: u32,
        /// The port.
        port: u16,
    },
    /// An IPv6 end point.
    V6 {
        /// The sixteen bytes of the address, the first one highest.
        ip: u128,
        /// The port.
        port: u16,
        /// The flow label and traffic class.
        flowinfo: u32,
        /// The scope of the address.
        scope_id: u32,
    },
}

impl SocketAddress {
    /// The port of the end point.
    pub fn port(&self) -> (r: u16)
        ensures
            r == match *self {
                SocketAddress::V4 { port, .. } => port,
                SocketAddress::V6 { port, .. } => port,
            },
    {
        match self {
            SocketAddress::V4 { port, .. } => *port,
            SocketAddress::V6 { port, .. } => *port,
        }
    }
}

} // verus!
