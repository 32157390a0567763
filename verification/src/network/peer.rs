//! A peer: the state machine of one connection.

use super::address::SocketAddress;
use super::command::Command;
use super::command::CommandView;
use super::event::Event;
use super::event::EventView;
use super::ident::fresh_id;
use super::ident::id_text;
use super::ident::parse_id;
use super::ident::uuid_text;
use super::ident::uuid_value;
use crate::clock::now_micros;
use crate::frame::Frame;
use crate::frame::FrameView;
use crate::message::conn_request::ConnRequestView;
use crate::message::conn_response::ConnResponseView;
use crate::message::heartbeat_request::HeartbeatRequestView;
use crate::message::heartbeat_response::HeartbeatResponseView;
use crate::message::ConnRequest;
use crate::message::ConnResponse;
use crate::message::HeartbeatRequest;
use crate::message::HeartbeatResponse;
use crate::message::Message;
use crate::message::MessageView;
use vstd::prelude::*;
use vstd::string::StringExecFns;

verus! {

/// The state of a peer.
#[derive(Debug, Clone, Copy, PartialEq, Eq, Structural)]
pub enum PeerState {
    /// Nothing is going on with the peer.
    Idle,
    /// A TCP connection to the remote is being opened.
    OutConnecting,
    /// The connection is open and our request is on its way.
    OutHandshaking,
    /// We opened the connection and the handshake is done.
    OutAlive,
    /// The remote opened the connection and the handshake is under way.
    InHandshaking,
    /// The remote opened the connection and the handshake is done.
    InAlive,
    /// The remote is banned. No transition leads here yet.
    Banned,
}

impl Default for PeerState {
    fn default() -> (r: PeerState)
        ensures
            r == PeerState::Idle,
    {
        PeerState::Idle
    }
}

impl PeerState {
    /// The name of the state.
    pub open spec fn name(&self) -> Seq<char> {
        match self {
            PeerState::Idle => "idle"@,
            PeerState::OutConnecting => "out connecting"@,
            PeerState::OutHandshaking => "out handshaking"@,
            PeerState::OutAlive => "out alive"@,
            PeerState::InHandshaking => "in handshaking"@,
            PeerState::InAlive => "in alive"@,
            PeerState::Banned => "banned"@,
        }
    }

    /// The name of the state.
    pub fn to_string(&self) -> (r: String)
        ensures
            r@ == self.name(),
    {
        match self {
            PeerState::Idle => String::from_str("idle"),
            PeerState::OutConnecting => String::from_str("out connecting"),
            PeerState::OutHandshaking => String::from_str("out handshaking"),
            PeerState::OutAlive => String::from_str("out alive"),
            PeerState::InHandshaking => String::from_str("in handshaking"),
            PeerState::InAlive => String::from_str("in alive"),
            PeerState::Banned => String::from_str("banned"),
        }
    }

    /// Whether the peer is on a connection that the remote opened.
    pub open spec fn inbound(&self) -> bool {
        *self == PeerState::InAlive || *self == PeerState::InHandshaking
    }

    /// Whether the peer is on a connection that we opened, or are opening.
    pub open spec fn outbound(&self) -> bool {
        *self == PeerState::OutAlive || *self == PeerState::OutHandshaking || *self
            == PeerState::OutConnecting
    }
}

/// Why a peer could not go on.
#[derive(Debug)]
#[allow(inconsistent_fields)]
pub enum Error {
    /// An event could not be handed to the controller.
    SendEvent {
        /// What happened.
        detail: String,
    },
    /// A command could not be handed to the peer itself.
    SendCommand {
        /// What happened.
        detail: String,
    },
    /// A frame could not be written to, or read from, the connection.
    Codec {
        /// What the codec reported.
        source: crate::codec::Error,
    },
    /// A message could not be built or used.
    Message {
        /// What the message layer reported.
        source: crate::message::Error,
    },
    /// A task of the peer failed.
    Thread {
        /// What happened.
        detail: String,
    },
    /// The peer has no address where it needs one, or was given one that is none.
    InvalidAddr {
        /// What was being done.
        detail: String,
    },
}

impl Error {
    /// The error as a line of text.
    pub open spec fn text(&self) -> Seq<char> {
        match self {
            Error::SendEvent { detail } => "Peer could not send event to controller "@ + detail@,
            Error::SendCommand { detail } => "Peer could not send command to itself "@ + detail@,
            Error::Codec { .. } => "Codec Error"@,
            Error::Message { .. } => "Could not create a message to send to remote peer."@,
            Error::Thread { .. } => "Thread Error"@,
            Error::InvalidAddr { .. } => "Invalid Addr"@,
        }
    }

    /// The error as a line of text.
    pub fn to_string(&self) -> (r: String)
        ensures
            r@ == self.text(),
    {
        match self {
            Error::SendEvent { detail } => {
                let mut text = String::from_str("Peer could not send event to controller ");
                text.append(detail.as_str());
                text
            },
            Error::SendCommand { detail } => {
                let mut text = String::from_str("Peer could not send command to itself ");
                text.append(detail.as_str());
                text
            },
            Error::Codec { .. } => String::from_str("Codec Error"),
            Error::Message { .. } => String::from_str(
                "Could not create a message to send to remote peer.",
            ),
            Error::Thread { .. } => String::from_str("Thread Error"),
            Error::InvalidAddr { .. } => String::from_str("Invalid Addr"),
        }
    }
}

/// What the runtime is to do for a peer, one thing after the other. Where
/// one of them fails, the rest is dropped and the peer is asked to recover.
#[derive(Debug)]
pub enum Effect {
    /// Open a TCP connection, and tell the peer how it went.
    Dial {
        /// Where to connect to.
        addr: SocketAddress,
        /// The how-manieth attempt at this address this is.
        attempt: i32,
    },
    /// Start the task that reads frames from the connection and turns each
    /// message into a command for the peer.
    StartReader,
    /// Write a frame to the connection.
    Send {
        /// The frame.
        frame: Frame,
    },
    /// Hand an event to the controller.
    Emit {
        /// The event.
        event: Event,
    },
    /// Start the task that asks for a heartbeat once per period.
    StartHeartbeat {
        /// The period, in seconds.
        period: i32,
    },
    /// Start the task that reports a missed heartbeat after a while, in place
    /// of the one that may be waiting.
    StartWatchdog {
        /// After how many seconds.
        timeout: i32,
    },
    /// Stop the task that waits to report a missed heartbeat.
    CancelWatchdog,
    /// Stop the task that asks for heartbeats.
    StopHeartbeat,
    /// Stop the task that reads from the connection.
    StopReader,
    /// Close the mailbox to new commands, and hand the peer those that wait in it.
    CloseMailbox,
    /// The peer cannot go on.
    Fail {
        /// Why.
        error: Error,
    },
}

/// An effect as a mathematical value.
pub enum EffectView {
    /// Open a TCP connection.
    Dial {
        /// Where to connect to.
        addr: SocketAddress,
        /// The how-manieth attempt at this address this is.
        attempt: i32,
    },
    /// Start the task that reads from the connection.
    StartReader,
    /// Write a frame to the connection.
    Send {
        /// The frame.
        frame: FrameView,
    },
    /// Hand an event to the controller.
    Emit {
        /// The event.
        event: EventView,
    },
    /// Start the task that asks for a heartbeat once per period.
    StartHeartbeat {
        /// The period, in seconds.
        period: i32,
    },
    /// Start the task that reports a missed heartbeat after a while.
    StartWatchdog {
        /// After how many seconds.
        timeout: i32,
    },
    /// Stop the task that waits to report a missed heartbeat.
    CancelWatchdog,
    /// Stop the task that asks for heartbeats.
    StopHeartbeat,
    /// Stop the task that reads from the connection.
    StopReader,
    /// Close the mailbox to new commands.
    CloseMailbox,
    /// The peer cannot go on: it has no address.
    Fail,
}

impl View for Effect {
    type V = EffectView;

    open spec fn view(&self) -> EffectView {
        match self {
            Effect::Dial { addr, attempt } => EffectView::Dial { addr: *addr, attempt: *attempt },
            Effect::StartReader => EffectView::StartReader,
            Effect::Send { frame } => EffectView::Send { frame: frame@ },
            Effect::Emit { event } => EffectView::Emit { event: event@ },
            Effect::StartHeartbeat { period } => EffectView::StartHeartbeat { period: *period },
            Effect::StartWatchdog { timeout } => EffectView::StartWatchdog { timeout: *timeout },
            Effect::CancelWatchdog => EffectView::CancelWatchdog,
            Effect::StopHeartbeat => EffectView::StopHeartbeat,
            Effect::StopReader => EffectView::StopReader,
            Effect::CloseMailbox => EffectView::CloseMailbox,
            Effect::Fail { .. } => EffectView::Fail,
        }
    }
}

/// The effects of a list, each by its view.
pub open spec fn effect_views(effects: Seq<Effect>) -> Seq<EffectView> {
    Seq::new(effects.len(), |i: int| effects[i]@)
}

/// Whether every failure in a list of effects is the want of an address.
pub open spec fn fails_for_address(effects: Seq<Effect>) -> bool {
    forall|i: int|
        0 <= i < effects.len() ==> ((#[trigger] effects[i]) matches Effect::Fail { error }
            ==> error matches Error::InvalidAddr { detail } && detail@
            == "Peer should have an address."@)
}

/// A peer: what it knows of itself and of its remote, the state of its
/// connection, and which of its tasks run.
#[derive(Debug)]
pub struct Peer {
    /// The id of the peer, by which the controller knows it.
    pub id: u128,
    /// The id of the controller, which the peer gives to remotes as its own.
    pub controller: u128,
    /// The label of the controller.
    pub label: String,
    /// The address on which the controller listens, as the text that is
    /// given to remotes.
    pub controller_addr: String,
    /// The id of the remote, once the handshake has told it.
    pub peer_id: Option<u128>,
    /// The address that the peer has connected to.
    pub addr: Option<SocketAddress>,
    /// The state of the connection.
    pub state: PeerState,
    /// Our end of the connection.
    pub local_addr: Option<SocketAddress>,
    /// The remote's end of the connection.
    pub peer_addr: Option<SocketAddress>,
    /// The seconds after which a heartbeat is missed.
    pub heartbeat_timeout: i32,
    /// The seconds between two heartbeats.
    pub heartbeat_period: i32,
    /// Whether the task that reads from the connection runs.
    pub reading: bool,
    /// Whether the task that asks for heartbeats runs.
    pub beating: bool,
    /// Whether a task waits to report a missed heartbeat.
    pub watching: bool,
    /// Whether the mailbox is closed: a peer whose mailbox is closed heeds no command.
    pub closed: bool,
}

/// What a step of a peer gives: the peer after it, and what the runtime is to do.
pub struct Step {
    /// The peer after the step.
    pub peer: Peer,
    /// What the runtime is to do, in order.
    pub effects: Seq<EffectView>,
}

impl Peer {
    /// The step that changes nothing and asks for nothing.
    pub open spec fn ignored(self) -> Step {
        Step { peer: self, effects: Seq::empty() }
    }

    /// The frame of the request that opens the handshake.
    pub open spec fn conn_request(self) -> FrameView {
        ConnRequest::frame_of(
            ConnRequestView {
                id: uuid_text(self.controller),
                label: self.label@,
                address: self.controller_addr@,
            },
        )
    }

    /// The frame of the response that completes the handshake.
    pub open spec fn conn_response(self) -> FrameView {
        ConnResponse::frame_of(
            ConnResponseView { id: uuid_text(self.controller), label: self.label@ },
        )
    }

    /// The frame of a heartbeat request sent at `now`.
    pub open spec fn heartbeat_request(self, now: i64) -> FrameView {
        HeartbeatRequest::frame_of(
            HeartbeatRequestView { id: uuid_text(self.id), label: self.label@, src: now },
        )
    }

    /// The frame of the response, sent at `now`, to a heartbeat request sent at `src`.
    pub open spec fn heartbeat_response(self, src: i64, now: i64) -> FrameView {
        HeartbeatResponse::frame_of(
            HeartbeatResponseView {
                id: uuid_text(self.controller),
                label: self.label@,
                src,
                dst: now,
            },
        )
    }

    /// The effects that stop the tasks of the peer that run.
    pub open spec fn stops(self) -> Seq<EffectView> {
        (if self.reading {
            seq![EffectView::StopReader]
        } else {
            Seq::empty()
        }) + (if self.watching {
            seq![EffectView::CancelWatchdog]
        } else {
            Seq::empty()
        }) + (if self.beating {
            seq![EffectView::StopHeartbeat]
        } else {
            Seq::empty()
        })
    }

    /// The peer with none of its tasks running.
    pub open spec fn stopped(self) -> Peer {
        Peer { reading: false, watching: false, beating: false, ..self }
    }

    /// Whether the peer may open a connection: it is idle, or connecting
    /// already.
    pub open spec fn may_connect(self) -> bool {
        self.state == PeerState::Idle || self.state == PeerState::OutConnecting
    }

    /// Being told to connect: a peer that is idle or connecting dials, and
    /// stays in its state until it hears how the dial went; any other reports
    /// that the command does not fit its state.
    pub open spec fn connect_step(self, addr: SocketAddress, attempt: i32) -> Step {
        if self.state != PeerState::Idle && self.state != PeerState::OutConnecting {
            Step {
                peer: self,
                effects: seq![
                    EffectView::Emit {
                        event: EventView::InvalidState {
                            id: self.id,
                            expected: seq![PeerState::Idle, PeerState::OutConnecting],
                            actual: self.state,
                        },
                    },
                ],
            }
        } else {
            Step { peer: self, effects: seq![EffectView::Dial { addr, attempt }] }
        }
    }

    /// The connection that was dialled is open: the peer is connecting from
    /// now on, notes the address and the two ends of the connection, starts to
    /// read and tells the controller. A peer that may not connect, or whose
    /// mailbox is closed, does nothing.
    pub open spec fn connected_step(
        self,
        addr: SocketAddress,
        local_addr: SocketAddress,
        peer_addr: SocketAddress,
    ) -> Step {
        if !self.closed && self.may_connect() {
            Step {
                peer: Peer {
                    state: PeerState::OutConnecting,
                    addr: Some(addr),
                    local_addr: Some(local_addr),
                    peer_addr: Some(peer_addr),
                    reading: true,
                    ..self
                },
                effects: seq![
                    EffectView::StartReader,
                    EffectView::Emit { event: EventView::Connected { id: self.id } },
                ],
            }
        } else {
            self.ignored()
        }
    }

    /// The connection that was dialled could not be opened: the peer tells
    /// the controller and stays in its state. A peer that may not connect, or
    /// whose mailbox is closed, does nothing.
    pub open spec fn connect_failed_step(self, addr: SocketAddress, source: Seq<char>) -> Step {
        if !self.closed && self.may_connect() {
            Step {
                peer: self,
                effects: seq![
                    EffectView::Emit {
                        event: EventView::ConnectionError { id: self.id, addr, source },
                    },
                ],
            }
        } else {
            self.ignored()
        }
    }

    /// Being told to serve a connection that a remote opened: an idle peer
    /// notes its two ends, starts to read and tells the controller; any other
    /// reports that the command does not fit its state.
    pub open spec fn listen_step(self, local_addr: SocketAddress, peer_addr: SocketAddress) -> Step {
        if self.state != PeerState::Idle {
            Step {
                peer: self,
                effects: seq![
                    EffectView::Emit {
                        event: EventView::InvalidState {
                            id: self.id,
                            expected: seq![PeerState::Idle],
                            actual: self.state,
                        },
                    },
                ],
            }
        } else {
            Step {
                peer: Peer {
                    state: PeerState::InHandshaking,
                    local_addr: Some(local_addr),
                    peer_addr: Some(peer_addr),
                    reading: true,
                    ..self
                },
                effects: seq![
                    EffectView::StartReader,
                    EffectView::Emit { event: EventView::Listening { id: self.id } },
                ],
            }
        }
    }

    /// Closing a connection that we opened: the tasks stop, the mailbox
    /// closes, the controller hears that the peer is disconnected from its
    /// address, and the peer is idle. A peer without an address fails after
    /// the mailbox is closed, and keeps its state.
    pub open spec fn disconnect_step(self) -> Step {
        match self.addr {
            Some(addr) => Step {
                peer: Peer { state: PeerState::Idle, closed: true, ..self.stopped() },
                effects: self.stops() + seq![
                    EffectView::CloseMailbox,
                    EffectView::Emit { event: EventView::Disconnected { id: self.id, addr } },
                ],
            },
            None => Step {
                peer: Peer { closed: true, ..self.stopped() },
                effects: self.stops() + seq![EffectView::CloseMailbox, EffectView::Fail],
            },
        }
    }

    /// Ending a peer whose remote opened the connection: the tasks stop, the
    /// mailbox closes, the controller hears that the peer is terminated, and
    /// the peer is idle.
    pub open spec fn terminate_step(self) -> Step {
        Step {
            peer: Peer { state: PeerState::Idle, closed: true, ..self.stopped() },
            effects: self.stops() + seq![
                EffectView::CloseMailbox,
                EffectView::Emit { event: EventView::Terminated { id: self.id } },
            ],
        }
    }

    /// Recovering from a failure: a peer on a connection that the remote
    /// opened ends, one on a connection that we opened closes it, any other
    /// does nothing.
    pub open spec fn recover_step(self) -> Step {
        if self.closed {
            self.ignored()
        } else if self.state.inbound() {
            self.terminate_step()
        } else if self.state.outbound() {
            self.disconnect_step()
        } else {
            self.ignored()
        }
    }

    /// What a command does to a peer at the time `now`: the transitions of
    /// the state machine. A command that fits no transition of the peer's
    /// state is ignored, as is every command once the mailbox is closed.
    pub open spec fn step(self, command: CommandView, now: i64) -> Step {
        if self.closed {
            self.ignored()
        } else {
            match command {
                CommandView::Connect { addr, attempt } => self.connect_step(addr, attempt),
                CommandView::Listen { local_addr, peer_addr } => self.listen_step(
                    local_addr,
                    peer_addr,
                ),
                CommandView::SendConnRequest => if self.state == PeerState::OutConnecting {
                    Step {
                        peer: Peer { state: PeerState::OutHandshaking, ..self },
                        effects: seq![EffectView::Send { frame: self.conn_request() }],
                    }
                } else {
                    self.ignored()
                },
                CommandView::SendConnResponse { remote_id, remote_label, remote_addr } => if self.state
                    == PeerState::InHandshaking {
                    Step {
                        peer: Peer {
                            state: PeerState::InAlive,
                            peer_id: Some(remote_id),
                            ..self
                        },
                        effects: seq![
                            EffectView::Send { frame: self.conn_response() },
                            EffectView::Emit {
                                event: EventView::InAlive {
                                    id: self.id,
                                    remote_id,
                                    remote_label,
                                    remote_addr,
                                },
                            },
                        ],
                    }
                } else {
                    self.ignored()
                },
                CommandView::FinalizeConn { remote_id, remote_label } => if self.state
                    == PeerState::OutHandshaking {
                    match self.addr {
                        Some(addr) => Step {
                            peer: Peer {
                                state: PeerState::OutAlive,
                                peer_id: Some(remote_id),
                                beating: true,
                                ..self
                            },
                            effects: seq![
                                EffectView::Emit {
                                    event: EventView::OutAlive {
                                        id: self.id,
                                        remote_id,
                                        remote_label,
                                        remote_addr: addr,
                                    },
                                },
                                EffectView::StartHeartbeat { period: self.heartbeat_period },
                            ],
                        },
                        None => Step { peer: self, effects: seq![EffectView::Fail] },
                    }
                } else {
                    self.ignored()
                },
                CommandView::HeartbeatRequest => if self.state == PeerState::OutAlive {
                    Step {
                        peer: Peer { watching: true, ..self },
                        effects: seq![
                            EffectView::Send { frame: self.heartbeat_request(now) },
                            EffectView::StartWatchdog { timeout: self.heartbeat_timeout },
                        ],
                    }
                } else {
                    self.ignored()
                },
                CommandView::CancelHeartbeatTimeout { .. } => if self.state == PeerState::OutAlive
                    && self.watching {
                    Step {
                        peer: Peer { watching: false, ..self },
                        effects: seq![EffectView::CancelWatchdog],
                    }
                } else {
                    self.ignored()
                },
                CommandView::HeartbeatTimeout => if self.state == PeerState::OutAlive {
                    self.disconnect_step()
                } else if self.state == PeerState::InAlive {
                    self.terminate_step()
                } else {
                    self.ignored()
                },
                CommandView::HeartbeatResponse { src } => if self.state == PeerState::InAlive {
                    Step {
                        peer: Peer { watching: true, ..self },
                        effects: seq![
                            EffectView::Send { frame: self.heartbeat_response(src, now) },
                            EffectView::StartWatchdog { timeout: self.heartbeat_timeout },
                        ],
                    }
                } else {
                    self.ignored()
                },
                CommandView::Disconnect => self.ignored(),
                CommandView::Terminate => self.ignored(),
            }
        }
    }
}

/// The failure of a peer that has no address where it needs one.
fn no_address() -> (r: Effect)
    ensures
        r@ == EffectView::Fail,
        r matches Effect::Fail { error } && (error matches Error::InvalidAddr { detail } && detail@
            == "Peer should have an address."@),
{
    Effect::Fail {
        error: Error::InvalidAddr { detail: String::from_str("Peer should have an address.") },
    }
}

/// The effect that reports that a command does not fit the state of a peer.
fn invalid_state(id: u128, first: PeerState, second: Option<PeerState>, actual: PeerState) -> (r:
    Effect)
    ensures
        r@ == (EffectView::Emit {
            event: EventView::InvalidState {
                id,
                expected: match second {
                    Some(other) => seq![first, other],
                    None => seq![first],
                },
                actual,
            },
        }),
{
    let mut expected: Vec<PeerState> = Vec::new();
    expected.push(first);
    match second {
        Some(other) => {
            expected.push(other);
            assert(expected@ =~= seq![first, other]);
        },
        None => {
            assert(expected@ =~= seq![first]);
        },
    }
    Effect::Emit { event: Event::InvalidState { id, expected, actual } }
}

/// Whether the effects `r` and the peer `after` are what the step `step` gives.
pub open spec fn stepped(after: Peer, r: Seq<Effect>, step: Step) -> bool {
    &&& after == step.peer
    &&& effect_views(r) == step.effects
    &&& fails_for_address(r)
}

impl Peer {
    /// A new peer with an id of its own. It is idle, knows no remote, and
    /// none of its tasks run.
    pub fn new(
        controller: u128,
        label: String,
        controller_addr: String,
        heartbeat_timeout: i32,
        heartbeat_period: i32,
    ) -> (r: Peer)
        ensures
            r == (Peer { id: r.id, ..Self::fresh(0, controller, label, controller_addr,
                heartbeat_timeout, heartbeat_period) }),
    {
        Peer::with_id(
            fresh_id(),
            controller,
            label,
            controller_addr,
            heartbeat_timeout,
            heartbeat_period,
        )
    }

    /// What a new peer is: idle, without a remote, with none of its tasks running.
    pub open spec fn fresh(
        id: u128,
        controller: u128,
        label: String,
        controller_addr: String,
        heartbeat_timeout: i32,
        heartbeat_period: i32,
    ) -> Peer {
        Peer {
            id,
            controller,
            label,
            controller_addr,
            peer_id: None,
            addr: None,
            state: PeerState::Idle,
            local_addr: None,
            peer_addr: None,
            heartbeat_timeout,
            heartbeat_period,
            reading: false,
            beating: false,
            watching: false,
            closed: false,
        }
    }

    /// A new peer with the id `id`.
    pub fn with_id(
        id: u128,
        controller: u128,
        label: String,
        controller_addr: String,
        heartbeat_timeout: i32,
        heartbeat_period: i32,
    ) -> (r: Peer)
        ensures
            r == Self::fresh(
                id,
                controller,
                label,
                controller_addr,
                heartbeat_timeout,
                heartbeat_period,
            ),
    {
        Peer {
            id,
            controller,
            label,
            controller_addr,
            peer_id: None,
            addr: None,
            state: PeerState::Idle,
            local_addr: None,
            peer_addr: None,
            heartbeat_timeout,
            heartbeat_period,
            reading: false,
            beating: false,
            watching: false,
            closed: false,
        }
    }

    /// The peer is told to connect to `addr`. Where its state allows, it
    /// asks the runtime to dial; the runtime answers with `connected` or
    /// `connect_failed`, and only then does the state change.
    pub fn connect(&mut self, addr: SocketAddress, attempt: i32) -> (r: Vec<Effect>)
        ensures
            stepped(*final(self), r@, old(self).connect_step(addr, attempt)),
    {
        let mut out: Vec<Effect> = Vec::new();
        if self.state != PeerState::Idle && self.state != PeerState::OutConnecting {
            out.push(
                invalid_state(
                    self.id,
                    PeerState::Idle,
                    Some(PeerState::OutConnecting),
                    self.state,
                ),
            );
        } else {
            out.push(Effect::Dial { addr, attempt });
        }
        assert(effect_views(out@) =~= old(self).connect_step(addr, attempt).effects);
        out
    }

    /// The connection to `addr` is open, between `local_addr` and `peer_addr`.
    pub fn connected(
        &mut self,
        addr: SocketAddress,
        local_addr: SocketAddress,
        peer_addr: SocketAddress,
    ) -> (r: Vec<Effect>)
        ensures
            stepped(*final(self), r@, old(self).connected_step(addr, local_addr, peer_addr)),
    {
        let mut out: Vec<Effect> = Vec::new();
        if !self.closed && (self.state == PeerState::Idle || self.state
            == PeerState::OutConnecting) {
            self.state = PeerState::OutConnecting;
            self.addr = Some(addr);
            self.local_addr = Some(local_addr);
            self.peer_addr = Some(peer_addr);
            self.reading = true;
            out.push(Effect::StartReader);
            out.push(Effect::Emit { event: Event::Connected { id: self.id } });
        }
        assert(effect_views(out@) =~= old(self).connected_step(
            addr,
            local_addr,
            peer_addr,
        ).effects);
        out
    }

    /// The connection to `addr` could not be opened; `source` says why.
    pub fn connect_failed(&mut self, addr: SocketAddress, source: String) -> (r: Vec<Effect>)
        ensures
            stepped(*final(self), r@, old(self).connect_failed_step(addr, source@)),
    {
        let mut out: Vec<Effect> = Vec::new();
        if !self.closed && (self.state == PeerState::Idle || self.state
            == PeerState::OutConnecting) {
            out.push(Effect::Emit { event: Event::ConnectionError { id: self.id, addr, source } });
        }
        assert(effect_views(out@) =~= old(self).connect_failed_step(addr, source@).effects);
        out
    }

    /// The peer is told to serve a connection that a remote opened, between
    /// `local_addr` and `peer_addr`.
    pub fn listen(&mut self, local_addr: SocketAddress, peer_addr: SocketAddress) -> (r: Vec<
        Effect,
    >)
        ensures
            stepped(*final(self), r@, old(self).listen_step(local_addr, peer_addr)),
    {
        let mut out: Vec<Effect> = Vec::new();
        if self.state != PeerState::Idle {
            out.push(invalid_state(self.id, PeerState::Idle, None, self.state));
        } else {
            self.state = PeerState::InHandshaking;
            self.local_addr = Some(local_addr);
            self.peer_addr = Some(peer_addr);
            self.reading = true;
            out.push(Effect::StartReader);
            out.push(Effect::Emit { event: Event::Listening { id: self.id } });
        }
        assert(effect_views(out@) =~= old(self).listen_step(local_addr, peer_addr).effects);
        out
    }

    /// Stops the tasks of the peer that run.
    pub fn abort_threads(&mut self) -> (r: Vec<Effect>)
        ensures
            *final(self) == old(self).stopped(),
            effect_views(r@) == old(self).stops(),
            fails_for_address(r@),
    {
        let mut out: Vec<Effect> = Vec::new();
        if self.reading {
            out.push(Effect::StopReader);
            self.reading = false;
        }
        if self.watching {
            out.push(Effect::CancelWatchdog);
            self.watching = false;
        }
        if self.beating {
            out.push(Effect::StopHeartbeat);
            self.beating = false;
        }
        assert(effect_views(out@) =~= old(self).stops());
        out
    }

    /// Closes a connection that we opened.
    pub fn disconnect(&mut self) -> (r: Vec<Effect>)
        ensures
            stepped(*final(self), r@, old(self).disconnect_step()),
    {
        let mut out = self.abort_threads();
        out.push(Effect::CloseMailbox);
        self.closed = true;
        match self.addr {
            Some(addr) => {
                out.push(Effect::Emit { event: Event::Disconnected { id: self.id, addr } });
                self.state = PeerState::Idle;
            },
            None => {
                out.push(no_address());
            },
        }
        assert(effect_views(out@) =~= old(self).disconnect_step().effects);
        out
    }

    /// Ends a peer whose remote opened the connection.
    pub fn terminate(&mut self) -> (r: Vec<Effect>)
        ensures
            stepped(*final(self), r@, old(self).terminate_step()),
    {
        let mut out = self.abort_threads();
        out.push(Effect::CloseMailbox);
        self.closed = true;
        out.push(Effect::Emit { event: Event::Terminated { id: self.id } });
        self.state = PeerState::Idle;
        assert(effect_views(out@) =~= old(self).terminate_step().effects);
        out
    }

    /// Recovers after a command could not be served, or one of its effects
    /// could not be done.
    pub fn recover(&mut self) -> (r: Vec<Effect>)
        ensures
            stepped(*final(self), r@, old(self).recover_step()),
    {
        if self.closed {
            let out: Vec<Effect> = Vec::new();
            assert(effect_views(out@) =~= Seq::<EffectView>::empty());
            return out;
        }
        match self.state {
            PeerState::InAlive | PeerState::InHandshaking => self.terminate(),
            PeerState::OutAlive | PeerState::OutHandshaking | PeerState::OutConnecting => self.disconnect(),
            _ => {
                let out: Vec<Effect> = Vec::new();
                assert(effect_views(out@) =~= Seq::<EffectView>::empty());
                out
            },
        }
    }

    /// The effect that starts the task which asks for heartbeats.
    pub fn heartbeats(&self) -> (r: Effect)
        ensures
            r@ == (EffectView::StartHeartbeat { period: self.heartbeat_period }),
    {
        Effect::StartHeartbeat { period: self.heartbeat_period }
    }

    /// Serves a command at the time that the clock shows.
    pub fn handle_command(&mut self, command: Command) -> (r: Vec<Effect>)
        ensures
            exists|now: i64| stepped(*final(self), r@, #[trigger] old(self).step(command@, now)),
    {
        let now = now_micros();
        let out = self.handle_command_at(command, now);
        assert(stepped(*self, out@, old(self).step(command@, now)));
        out
    }

    /// Serves a command at the time `now`: changes the peer as the
    /// transitions of the state machine say, and hands out what the runtime
    /// is to do.
    pub fn handle_command_at(&mut self, command: Command, now: i64) -> (r: Vec<Effect>)
        ensures
            stepped(*final(self), r@, old(self).step(command@, now)),
    {
        let mut out: Vec<Effect> = Vec::new();
        if self.closed {
            assert(effect_views(out@) =~= Seq::<EffectView>::empty());
            return out;
        }
        match command {
            Command::Connect { addr, attempt } => {
                return self.connect(addr, attempt);
            },
            Command::Listen { local_addr, peer_addr } => {
                return self.listen(local_addr, peer_addr);
            },
            Command::SendConnRequest => {
                if self.state == PeerState::OutConnecting {
                    self.state = PeerState::OutHandshaking;
                    let request = ConnRequest::new(
                        id_text(self.controller),
                        self.label.clone(),
                        self.controller_addr.clone(),
                    );
                    out.push(sending(request.into_frame()));
                }
            },
            Command::SendConnResponse { remote_id, remote_label, remote_addr } => {
                if self.state == PeerState::InHandshaking {
                    let response = ConnResponse::new(id_text(self.controller), self.label.clone());
                    out.push(sending(response.into_frame()));
                    self.state = PeerState::InAlive;
                    self.peer_id = Some(remote_id);
                    out.push(
                        Effect::Emit {
                            event: Event::InAlive {
                                id: self.id,
                                remote_id,
                                remote_label,
                                remote_addr,
                            },
                        },
                    );
                }
            },
            Command::FinalizeConn { remote_id, remote_label } => {
                if self.state == PeerState::OutHandshaking {
                    match self.addr {
                        Some(addr) => {
                            self.state = PeerState::OutAlive;
                            self.peer_id = Some(remote_id);
                            out.push(
                                Effect::Emit {
                                    event: Event::OutAlive {
                                        id: self.id,
                                        remote_id,
                                        remote_label,
                                        remote_addr: addr,
                                    },
                                },
                            );
                            out.push(self.heartbeats());
                            self.beating = true;
                        },
                        None => {
                            out.push(no_address());
                        },
                    }
                }
            },
            Command::HeartbeatRequest => {
                if self.state == PeerState::OutAlive {
                    let request = HeartbeatRequest::new(
                        id_text(self.id),
                        self.label.clone(),
                        now,
                    );
                    out.push(sending(request.into_frame()));
                    out.push(Effect::StartWatchdog { timeout: self.heartbeat_timeout });
                    self.watching = true;
                }
            },
            Command::CancelHeartbeatTimeout { .. } => {
                if self.state == PeerState::OutAlive && self.watching {
                    out.push(Effect::CancelWatchdog);
                    self.watching = false;
                }
            },
            Command::HeartbeatTimeout => {
                if self.state == PeerState::OutAlive {
                    return self.disconnect();
                } else if self.state == PeerState::InAlive {
                    return self.terminate();
                }
            },
            Command::HeartbeatResponse { src } => {
                if self.state == PeerState::InAlive {
                    let response = HeartbeatResponse::new(
                        id_text(self.controller),
                        self.label.clone(),
                        src,
                        now,
                    );
                    out.push(sending(response.into_frame()));
                    out.push(Effect::StartWatchdog { timeout: self.heartbeat_timeout });
                    self.watching = true;
                }
            },
            Command::Disconnect => {},
            Command::Terminate => {},
        }
        assert(effect_views(out@) =~= old(self).step(command@, now).effects);
        out
    }
}

/// The effect that writes the frame of a message to the connection.
fn sending(frame: Result<Frame, crate::message::Error>) -> (r: Effect)
    requires
        frame is Ok,
    ensures
        r@ == (EffectView::Send { frame: frame->Ok_0@ }),
        !(r is Fail),
{
    match frame {
        Ok(frame) => Effect::Send { frame },
        Err(source) => Effect::Fail { error: Error::Message { source } },
    }
}

/// What an inbound message asks of a peer.
#[derive(Debug)]
pub struct Inbound {
    /// The command that the peer is to hand to itself, if any.
    pub command: Option<Command>,
    /// The time from our heartbeat request to the remote's response, in
    /// microseconds, where the message is such a response.
    pub rtt: Option<i128>,
}

/// What an inbound message asks of a peer, as a mathematical value.
pub struct InboundView {
    /// The command that the peer is to hand to itself, if any.
    pub command: Option<CommandView>,
    /// The round trip time in microseconds, for a heartbeat response.
    pub rtt: Option<int>,
}

impl View for Inbound {
    type V = InboundView;

    open spec fn view(&self) -> InboundView {
        InboundView {
            command: match self.command {
                Some(command) => Some(command@),
                None => None,
            },
            rtt: match self.rtt {
                Some(rtt) => Some(rtt as int),
                None => None,
            },
        }
    }
}

/// Why an inbound message asks nothing of a peer.
pub enum Refusal {
    /// The id that the remote gives is no UUID.
    InvalidId(Seq<char>),
    /// The address that the remote gives is no address.
    InvalidAddress(Seq<char>),
}

/// What an inbound message, read at the time `now`, asks of a peer.
/// `declared` is the address that a connection request gives, where it is one.
pub open spec fn translate(message: MessageView, now: i64, declared: Option<SocketAddress>) -> Result<
    InboundView,
    Refusal,
> {
    match message {
        MessageView::ConnRequest(m) => match (uuid_value(m.id), declared) {
            (Some(remote_id), Some(remote_addr)) => Ok(
                InboundView {
                    command: Some(
                        CommandView::SendConnResponse {
                            remote_id,
                            remote_label: m.label,
                            remote_addr,
                        },
                    ),
                    rtt: None,
                },
            ),
            (None, _) => Err(Refusal::InvalidId(m.id)),
            (Some(_), None) => Err(Refusal::InvalidAddress(m.address)),
        },
        MessageView::ConnResponse(m) => match uuid_value(m.id) {
            Some(remote_id) => Ok(
                InboundView {
                    command: Some(CommandView::FinalizeConn { remote_id, remote_label: m.label }),
                    rtt: None,
                },
            ),
            None => Err(Refusal::InvalidId(m.id)),
        },
        MessageView::HeartbeatRequest(m) => Ok(
            InboundView { command: Some(CommandView::HeartbeatResponse { src: m.src }), rtt: None },
        ),
        MessageView::HeartbeatResponse(m) => Ok(
            InboundView {
                command: Some(CommandView::CancelHeartbeatTimeout { src: m.src }),
                rtt: Some(now - m.src),
            },
        ),
        _ => Ok(InboundView { command: None, rtt: None }),
    }
}

/// Whether `r` is what `expected` says.
pub open spec fn translated(r: Result<Inbound, Error>, expected: Result<InboundView, Refusal>) -> bool {
    match expected {
        Ok(inbound) => r matches Ok(found) && found@ == inbound,
        Err(Refusal::InvalidId(text)) => r matches Err(
            Error::Message { source: crate::message::Error::UnexpectedMessage { detail } },
        ) && detail@ == text,
        Err(Refusal::InvalidAddress(text)) => r matches Err(Error::InvalidAddr { detail })
            && detail@ == text,
    }
}

/// Turns an inbound message into what the peer is to hand to itself, with
/// the time that the clock shows.
pub fn handle_message(msg: Message, declared: Option<SocketAddress>) -> (r: Result<Inbound, Error>)
    ensures
        exists|now: i64| translated(r, #[trigger] translate(msg@, now, declared)),
{
    let now = now_micros();
    let r = handle_message_at(msg, now, declared);
    assert(translated(r, translate(msg@, now, declared)));
    r
}

/// Turns an inbound message, read at the time `now`, into what the peer is
/// to hand to itself. `declared` is the address that a connection request
/// gives, where the runtime could read it as one.
pub fn handle_message_at(msg: Message, now: i64, declared: Option<SocketAddress>) -> (r: Result<
    Inbound,
    Error,
>)
    ensures
        translated(r, translate(msg@, now, declared)),
{
    match msg {
        Message::ConnRequest(request) => {
            let ConnRequest { id, label, address } = request;
            match parse_id(id.as_str()) {
                Some(remote_id) => match declared {
                    Some(remote_addr) => Ok(
                        Inbound {
                            command: Some(
                                Command::SendConnResponse {
                                    remote_id,
                                    remote_label: label,
                                    remote_addr,
                                },
                            ),
                            rtt: None,
                        },
                    ),
                    None => Err(Error::InvalidAddr { detail: address }),
                },
                None => Err(
                    Error::Message {
                        source: crate::message::Error::UnexpectedMessage { detail: id },
                    },
                ),
            }
        },
        Message::ConnResponse(response) => {
            let ConnResponse { id, label } = response;
            match parse_id(id.as_str()) {
                Some(remote_id) => Ok(
                    Inbound {
                        command: Some(Command::FinalizeConn { remote_id, remote_label: label }),
                        rtt: None,
                    },
                ),
                None => Err(
                    Error::Message {
                        source: crate::message::Error::UnexpectedMessage { detail: id },
                    },
                ),
            }
        },
        Message::HeartbeatRequest(request) => Ok(
            Inbound { command: Some(Command::HeartbeatResponse { src: request.src() }), rtt: None },
        ),
        Message::HeartbeatResponse(response) => Ok(
            Inbound {
                command: Some(Command::CancelHeartbeatTimeout { src: response.src() }),
                rtt: Some(now as i128 - response.src() as i128),
            },
        ),
        Message::ConnRejection(_) => Ok(Inbound { command: None, rtt: None }),
        Message::ContactRequest(_) => Ok(Inbound { command: None, rtt: None }),
        Message::ContactResponse(_) => Ok(Inbound { command: None, rtt: None }),
    }
}

} // verus!
