//! Commands: what a peer is told to do, by the controller or by itself.

use super::address::SocketAddress;
use vstd::prelude::*;
use vstd::string::StringExecFns;

verus! {

/// A command in a peer's mailbox.
#[derive(Debug)]
pub enum Command {
    /// Open a TCP connection.
    Connect {
        /// Where to connect to.
        addr: SocketAddress,
        /// The how-manieth attempt at this address this is.
        attempt: i32,
    },
    /// Serve a connection that the remote opened. The stream stays with the
    /// runtime; the command names its two ends.
    Listen {
        /// Our end of the stream.
        local_addr: SocketAddress,
        /// The remote's end of the stream.
        peer_addr: SocketAddress,
    },
    /// Send the request that opens the handshake.
    SendConnRequest,
    /// Send the response that completes the handshake.
    SendConnResponse {
        /// The id that the remote gave.
        remote_id: u128,
        /// The label that the remote gave.
        remote_label: String,
        /// The address on which the remote says it listens.
        remote_addr: SocketAddress,
    },
    /// The remote answered our request: the connection is alive.
    FinalizeConn {
        /// The id that the remote gave.
        remote_id: u128,
        /// The label that the remote gave.
        remote_label: String,
    },
    /// Send a heartbeat request.
    HeartbeatRequest,
    /// Send a heartbeat response.
    HeartbeatResponse {
        /// The time that the request carried.
        src: i64,
    },
    /// No heartbeat came in time.
    HeartbeatTimeout,
    /// A heartbeat came: stop waiting for it.
    CancelHeartbeatTimeout {
        /// The time that the request carried.
        src: i64,
    },
    /// Close the connection to the remote.
    Disconnect,
    /// End the peer.
    Terminate,
}

/// A command as a mathematical value.
pub enum CommandView {
    /// Open a TCP connection.
    Connect {
        /// Where to connect to.
        addr: SocketAddress,
        /// The how-manieth attempt at this address this is.
        attempt: i32,
    },
    /// Serve a connection that the remote opened.
    Listen {
        /// Our end of the stream.
        local_addr: SocketAddress,
        /// The remote's end of the stream.
        peer_addr: SocketAddress,
    },
    /// Send the request that opens the handshake.
    SendConnRequest,
    /// Send the response that completes the handshake.
    SendConnResponse {
        /// The id that the remote gave.
        remote_id: u128,
        /// The label that the remote gave.
        remote_label: Seq<char>,
        /// The address on which the remote says it listens.
        remote_addr: SocketAddress,
    },
    /// The remote answered our request: the connection is alive.
    FinalizeConn {
        /// The id that the remote gave.
        remote_id: u128,
        /// The label that the remote gave.
        remote_label: Seq<char>,
    },
    /// Send a heartbeat request.
    HeartbeatRequest,
    /// Send a heartbeat response.
    HeartbeatResponse {
        /// The time that the request carried.
        src: i64,
    },
    /// No heartbeat came in time.
    HeartbeatTimeout,
    /// A heartbeat came: stop waiting for it.
    CancelHeartbeatTimeout {
        /// The time that the request carried.
        src: i64,
    },
    /// Close the connection to the remote.
    Disconnect,
    /// End the peer.
    Terminate,
}

impl View for Command {
    type V = CommandView;

    open spec fn view(&self) -> CommandView {
        match self {
            Command::Connect { addr, attempt } => CommandView::Connect {
                addr: *addr,
                attempt: *attempt,
            },
            Command::Listen { local_addr, peer_addr } => CommandView::Listen {
                local_addr: *local_addr,
                peer_addr: *peer_addr,
            },
            Command::SendConnRequest => CommandView::SendConnRequest,
            Command::SendConnResponse {
                remote_id,
                remote_label,
                remote_addr,
            } => CommandView::SendConnResponse {
                remote_id: *remote_id,
                remote_label: remote_label@,
                remote_addr: *remote_addr,
            },
            Command::FinalizeConn { remote_id, remote_label } => CommandView::FinalizeConn {
                remote_id: *remote_id,
                remote_label: remote_label@,
            },
            Command::HeartbeatRequest => CommandView::HeartbeatRequest,
            Command::HeartbeatResponse { src } => CommandView::HeartbeatResponse { src: *src },
            Command::HeartbeatTimeout => CommandView::HeartbeatTimeout,
            Command::CancelHeartbeatTimeout { src } => CommandView::CancelHeartbeatTimeout {
                src: *src,
            },
            Command::Disconnect => CommandView::Disconnect,
            Command::Terminate => CommandView::Terminate,
        }
    }
}

impl Command {
    /// The name of the command.
    pub open spec fn name(&self) -> Seq<char> {
        match self {
            Command::Connect { .. } => "connect"@,
            Command::Listen { .. } => "listen"@,
            Command::SendConnRequest => "connection request"@,
            Command::SendConnResponse { .. } => "connection response"@,
            Command::FinalizeConn { .. } => "connection finalization"@,
            Command::HeartbeatRequest => "heartbeat request"@,
            Command::HeartbeatResponse { .. } => "heartbeat response"@,
            Command::HeartbeatTimeout => "heartbeat timeout"@,
            Command::CancelHeartbeatTimeout { .. } => "cancel heartbeat timeout"@,
            Command::Disconnect => "disconnect"@,
            Command::Terminate => "terminate"@,
        }
    }

    /// The name of the command.
    pub fn to_string(&self) -> (r: String)
        ensures
            r@ == self.name(),
    {
        match self {
            Command::Connect { .. } => String::from_str("connect"),
            Command::Listen { .. } => String::from_str("listen"),
            Command::SendConnRequest => String::from_str("connection request"),
            Command::SendConnResponse { .. } => String::from_str("connection response"),
            Command::FinalizeConn { .. } => String::from_str("connection finalization"),
            Command::HeartbeatRequest => String::from_str("heartbeat request"),
            Command::HeartbeatResponse { .. } => String::from_str("heartbeat response"),
            Command::HeartbeatTimeout => String::from_str("heartbeat timeout"),
            Command::CancelHeartbeatTimeout { .. } => String::from_str("cancel heartbeat timeout"),
            Command::Disconnect => String::from_str("disconnect"),
            Command::Terminate => String::from_str("terminate"),
        }
    }
}

} // verus!
