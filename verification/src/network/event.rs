//! Events: what a peer tells the controller.

use super::address::SocketAddress;
use super::peer::PeerState;
use vstd::prelude::*;

verus! {

/// An event on its way to the controller.
#[derive(Debug)]
pub enum Event {
    /// The controller's own listener could not bind its address.
    BindError {
        /// What the system reported.
        source: String,
        /// The address.
        addr: SocketAddress,
    },
    /// A peer got a command that does not fit its state.
    InvalidState {
        /// The peer.
        id: u128,
        /// The states that the command fits.
        expected: Vec<PeerState>,
        /// The state of the peer.
        actual: PeerState,
    },
    /// A peer has opened its TCP connection.
    Connected {
        /// The peer.
        id: u128,
    },
    /// A peer serves a connection that a remote opened.
    Listening {
        /// The peer.
        id: u128,
    },
    /// A peer that opened its connection has completed the handshake.
    OutAlive {
        /// The peer.
        id: u128,
        /// The id that the remote gave.
        remote_id: u128,
        /// The label that the remote gave.
        remote_label: String,
        /// The address of the remote.
        remote_addr: SocketAddress,
    },
    /// A peer whose remote opened the connection has completed the handshake.
    InAlive {
        /// The peer.
        id: u128,
        /// The id that the remote gave.
        remote_id: u128,
        /// The label that the remote gave.
        remote_label: String,
        /// The address on which the remote says it listens.
        remote_addr: SocketAddress,
    },
    /// A peer could not open its TCP connection.
    ConnectionError {
        /// The peer.
        id: u128,
        /// The address that it tried.
        addr: SocketAddress,
        /// What the system reported.
        source: String,
    },
    /// A peer that opened its connection has closed it.
    Disconnected {
        /// The peer.
        id: u128,
        /// The address that it was connected to.
        addr: SocketAddress,
    },
    /// A peer whose remote opened the connection has ended.
    Terminated {
        /// The peer.
        id: u128,
    },
}

/// An event as a mathematical value.
pub enum EventView {
    /// The controller's own listener could not bind its address.
    BindError {
        /// What the system reported.
        source: Seq<char>,
        /// The address.
        addr: SocketAddress,
    },
    /// A peer got a command that does not fit its state.
    InvalidState {
        /// The peer.
        id: u128,
        /// The states that the command fits.
        expected: Seq<PeerState>,
        /// The state of the peer.
        actual: PeerState,
    },
    /// A peer has opened its TCP connection.
    Connected {
        /// The peer.
        id: u128,
    },
    /// A peer serves a connection that a remote opened.
    Listening {
        /// The peer.
        id: u128,
    },
    /// A peer that opened its connection has completed the handshake.
    OutAlive {
        /// The peer.
        id: u128,
        /// The id that the remote gave.
        remote_id: u128,
        /// The label that the remote gave.
        remote_label: Seq<char>,
        /// The address of the remote.
        remote_addr: SocketAddress,
    },
    /// A peer whose remote opened the connection has completed the handshake.
    InAlive {
        /// The peer.
        id: u128,
        /// The id that the remote gave.
        remote_id: u128,
        /// The label that the remote gave.
        remote_label: Seq<char>,
        /// The address on which the remote says it listens.
        remote_addr: SocketAddress,
    },
    /// A peer could not open its TCP connection.
    ConnectionError {
        /// The peer.
        id: u128,
        /// The address that it tried.
        addr: SocketAddress,
        /// What the system reported.
        source: Seq<char>,
    },
    /// A peer that opened its connection has closed it.
    Disconnected {
        /// The peer.
        id: u128,
        /// The address that it was connected to.
        addr: SocketAddress,
    },
    /// A peer whose remote opened the connection has ended.
    Terminated {
        /// The peer.
        id: u128,
    },
}

impl View for Event {
    type V = EventView;

    open spec fn view(&self) -> EventView {
        match self {
            Event::BindError { source, addr } => EventView::BindError {
                source: source@,
                addr: *addr,
            },
            Event::InvalidState { id, expected, actual } => EventView::InvalidState {
                id: *id,
                expected: expected@,
                actual: *actual,
            },
            Event::Connected { id } => EventView::Connected { id: *id },
            Event::Listening { id } => EventView::Listening { id: *id },
            Event::OutAlive { id, remote_id, remote_label, remote_addr } => EventView::OutAlive {
                id: *id,
                remote_id: *remote_id,
                remote_label: remote_label@,
                remote_addr: *remote_addr,
            },
            Event::InAlive { id, remote_id, remote_label, remote_addr } => EventView::InAlive {
                id: *id,
                remote_id: *remote_id,
                remote_label: remote_label@,
                remote_addr: *remote_addr,
            },
            Event::ConnectionError { id, addr, source } => EventView::ConnectionError {
                id: *id,
                addr: *addr,
                source: source@,
            },
            Event::Disconnected { id, addr } => EventView::Disconnected { id: *id, addr: *addr },
            Event::Terminated { id } => EventView::Terminated { id: *id },
        }
    }
}

} // verus!
