use area_net::frame::Frame;
use area_net::message::ConnRejection;
use area_net::message::ConnRequest;
use area_net::message::ConnResponse;
use area_net::message::ContactRequest;
use area_net::message::ContactResponse;
use area_net::message::HeartbeatRequest;
use area_net::message::HeartbeatResponse;
use area_net::network::address::SocketAddress;
use area_net::network::command::Command;
use area_net::network::event::Event;
use area_net::network::peer::handle_message;
use area_net::network::peer::handle_message_at;
use area_net::network::peer::Effect;
use area_net::network::peer::Error;
use area_net::network::peer::Peer;
use area_net::network::peer::PeerState;
use area_net::Message;
use uuid::Uuid;

const CONTROLLER: u128 = 0xa1a2a3a4_b1b2_c1c2_d1d2_d3d4d5d6d7d8;
const PEER: u128 = 0x0102_0304_0506_0708_090a_0b0c_0d0e_0f10;
const REMOTE: u128 = 0xffff_0000_ffff_0000_ffff_0000_ffff_0000;

fn v4(last: u32, port: u16) -> SocketAddress {
    SocketAddress::V4 { ip: 0x7f00_0000 + last, port }
}

fn peer() -> Peer {
    Peer::with_id(PEER, CONTROLLER, "alice".to_owned(), "127.0.0.1:9001".to_owned(), 10, 3)
}

fn bytes_of(frame: &Frame) -> Vec<u8> {
    let mut bytes = Vec::new();
    frame.write(&mut bytes).unwrap();
    bytes
}

fn sent(effect: &Effect) -> Vec<u8> {
    match effect {
        Effect::Send { frame } => bytes_of(frame),
        _ => panic!("expected a frame to be sent"),
    }
}

fn out_alive() -> Peer {
    let mut p = peer();
    p.handle_command_at(Command::Connect { addr: v4(2, 9002), attempt: 1 }, 0);
    p.connected(v4(2, 9002), v4(1, 40000), v4(2, 9002));
    p.handle_command_at(Command::SendConnRequest, 0);
    p.handle_command_at(Command::FinalizeConn { remote_id: REMOTE, remote_label: "bob".to_owned() }, 0);
    assert_eq!(p.state, PeerState::OutAlive);
    p
}

fn in_alive() -> Peer {
    let mut p = peer();
    p.handle_command_at(Command::Listen { local_addr: v4(1, 9001), peer_addr: v4(2, 40000) }, 0);
    p.handle_command_at(
        Command::SendConnResponse { remote_id: REMOTE, remote_label: "bob".to_owned(), remote_addr: v4(2, 9002) },
        0,
    );
    assert_eq!(p.state, PeerState::InAlive);
    p
}

#[test]
fn a_new_peer_is_idle() {
    let p = Peer::new(CONTROLLER, "alice".to_owned(), "127.0.0.1:9001".to_owned(), 10, 3);
    let q = Peer::new(CONTROLLER, "alice".to_owned(), "127.0.0.1:9001".to_owned(), 10, 3);
    assert_ne!(p.id, q.id);
    assert_eq!(p.state, PeerState::Idle);
    assert_eq!(PeerState::default(), PeerState::Idle);
    assert_eq!(p.controller, CONTROLLER);
    assert_eq!(p.label, "alice");
    assert_eq!(p.controller_addr, "127.0.0.1:9001");
    assert_eq!(p.heartbeat_timeout, 10);
    assert_eq!(p.heartbeat_period, 3);
    assert!(p.peer_id.is_none() && p.addr.is_none() && p.local_addr.is_none() && p.peer_addr.is_none());
    assert!(!p.reading && !p.beating && !p.watching && !p.closed);
    assert_eq!(peer().id, PEER);
}

#[test]
fn the_handshake_of_the_initiator_writes_exactly_the_request() {
    let mut p = peer();
    let effects = p.handle_command_at(Command::Connect { addr: v4(2, 9002), attempt: 1 }, 0);
    assert_eq!(effects.len(), 1);
    assert!(matches!(effects[0], Effect::Dial { addr, attempt: 1 } if addr == v4(2, 9002)));
    assert_eq!(p.state, PeerState::Idle);
    let effects = p.connected(v4(2, 9002), v4(1, 40000), v4(2, 9002));
    assert_eq!(p.state, PeerState::OutConnecting);
    assert_eq!(effects.len(), 2);
    assert!(matches!(effects[0], Effect::StartReader));
    assert!(matches!(effects[1], Effect::Emit { event: Event::Connected { id: PEER } }));
    assert!(p.reading);
    assert_eq!(p.addr, Some(v4(2, 9002)));
    assert_eq!(p.local_addr, Some(v4(1, 40000)));
    assert_eq!(p.peer_addr, Some(v4(2, 9002)));
    let effects = p.handle_command_at(Command::SendConnRequest, 0);
    assert_eq!(p.state, PeerState::OutHandshaking);
    assert_eq!(effects.len(), 1);
    let expected = format!(
        "*4\r\n+CONN_REQ\r\n+{}\r\n+{}\r\n+{}\r\n",
        Uuid::from_u128(CONTROLLER),
        "alice",
        "127.0.0.1:9001"
    );
    assert_eq!(sent(&effects[0]), expected.as_bytes());
    assert_eq!(
        expected,
        "*4\r\n+CONN_REQ\r\n+a1a2a3a4-b1b2-c1c2-d1d2-d3d4d5d6d7d8\r\n+alice\r\n+127.0.0.1:9001\r\n"
    );
    let effects =
        p.handle_command_at(Command::FinalizeConn { remote_id: REMOTE, remote_label: "bob".to_owned() }, 0);
    assert_eq!(p.state, PeerState::OutAlive);
    assert_eq!(p.peer_id, Some(REMOTE));
    assert!(p.beating);
    assert_eq!(effects.len(), 2);
    match &effects[0] {
        Effect::Emit { event: Event::OutAlive { id, remote_id, remote_label, remote_addr } } => {
            assert_eq!(*id, PEER);
            assert_eq!(*remote_id, REMOTE);
            assert_eq!(remote_label, "bob");
            assert_eq!(*remote_addr, v4(2, 9002));
        }
        _ => panic!("expected the peer to be alive"),
    }
    assert!(matches!(effects[1], Effect::StartHeartbeat { period: 3 }));
}

#[test]
fn the_handshake_of_the_responder_answers_and_is_alive() {
    let mut p = peer();
    let effects = p.handle_command_at(Command::Listen { local_addr: v4(1, 9001), peer_addr: v4(2, 40000) }, 0);
    assert_eq!(p.state, PeerState::InHandshaking);
    assert_eq!(effects.len(), 2);
    assert!(matches!(effects[0], Effect::StartReader));
    assert!(matches!(effects[1], Effect::Emit { event: Event::Listening { id: PEER } }));
    assert_eq!(p.local_addr, Some(v4(1, 9001)));
    assert_eq!(p.peer_addr, Some(v4(2, 40000)));
    let effects = p.handle_command_at(
        Command::SendConnResponse { remote_id: REMOTE, remote_label: "bob".to_owned(), remote_addr: v4(2, 9002) },
        0,
    );
    assert_eq!(p.state, PeerState::InAlive);
    assert_eq!(effects.len(), 2);
    assert_eq!(
        sent(&effects[0]),
        b"*3\r\n+CONN_RESP\r\n+a1a2a3a4-b1b2-c1c2-d1d2-d3d4d5d6d7d8\r\n+alice\r\n"
    );
    match &effects[1] {
        Effect::Emit { event: Event::InAlive { id, remote_id, remote_label, remote_addr } } => {
            assert_eq!(*id, PEER);
            assert_eq!(*remote_id, REMOTE);
            assert_eq!(remote_label, "bob");
            assert_eq!(*remote_addr, v4(2, 9002));
        }
        _ => panic!("expected the peer to be alive"),
    }
}

#[test]
fn a_command_that_does_not_fit_the_state_is_reported_or_ignored() {
    let mut p = out_alive();
    let effects = p.handle_command_at(Command::Connect { addr: v4(3, 1), attempt: 1 }, 0);
    match &effects[..] {
        [Effect::Emit { event: Event::InvalidState { id, expected, actual } }] => {
            assert_eq!(*id, PEER);
            assert_eq!(expected, &vec![PeerState::Idle, PeerState::OutConnecting]);
            assert_eq!(*actual, PeerState::OutAlive);
        }
        _ => panic!("expected an invalid state"),
    }
    let effects = p.handle_command_at(Command::Listen { local_addr: v4(1, 1), peer_addr: v4(2, 2) }, 0);
    match &effects[..] {
        [Effect::Emit { event: Event::InvalidState { expected, actual, .. } }] => {
            assert_eq!(expected, &vec![PeerState::Idle]);
            assert_eq!(*actual, PeerState::OutAlive);
        }
        _ => panic!("expected an invalid state"),
    }
    assert_eq!(p.state, PeerState::OutAlive);
    for command in [
        Command::SendConnRequest,
        Command::SendConnResponse { remote_id: 1, remote_label: "x".to_owned(), remote_addr: v4(1, 1) },
        Command::FinalizeConn { remote_id: 1, remote_label: "x".to_owned() },
        Command::HeartbeatResponse { src: 1 },
        Command::Disconnect,
        Command::Terminate,
    ] {
        assert!(p.handle_command_at(command, 0).is_empty());
        assert_eq!(p.state, PeerState::OutAlive);
    }
    let mut idle = peer();
    for command in [Command::HeartbeatRequest, Command::HeartbeatTimeout, Command::CancelHeartbeatTimeout { src: 0 }] {
        assert!(idle.handle_command_at(command, 0).is_empty());
        assert_eq!(idle.state, PeerState::Idle);
    }
    assert!(idle.recover().is_empty());
    assert!(!idle.closed);
    let mut alive = in_alive();
    assert!(alive.connected(v4(1, 1), v4(1, 1), v4(1, 1)).is_empty());
    assert!(alive.connect_failed(v4(1, 1), "x".to_owned()).is_empty());
    assert_eq!(alive.state, PeerState::InAlive);
    assert!(alive.addr.is_none());
}

#[test]
fn a_failed_dial_is_reported_and_may_be_tried_again() {
    let mut p = peer();
    p.connect(v4(2, 9002), 1);
    let effects = p.connect_failed(v4(2, 9002), "refused".to_owned());
    match &effects[..] {
        [Effect::Emit { event: Event::ConnectionError { id, addr, source } }] => {
            assert_eq!(*id, PEER);
            assert_eq!(*addr, v4(2, 9002));
            assert_eq!(source, "refused");
        }
        _ => panic!("expected a connection error"),
    }
    assert_eq!(p.state, PeerState::Idle);
    assert!(p.addr.is_none());
    let effects = p.handle_command_at(Command::Connect { addr: v4(2, 9002), attempt: 2 }, 0);
    assert!(matches!(effects[..], [Effect::Dial { attempt: 2, .. }]));
    assert_eq!(p.state, PeerState::Idle);
    p.connected(v4(2, 9002), v4(1, 40000), v4(2, 9002));
    assert_eq!(p.state, PeerState::OutConnecting);
    let effects = p.handle_command_at(Command::Connect { addr: v4(3, 9003), attempt: 1 }, 0);
    assert!(matches!(effects[..], [Effect::Dial { attempt: 1, .. }]));
    let effects = p.connect_failed(v4(3, 9003), "refused".to_owned());
    assert!(matches!(effects[..], [Effect::Emit { event: Event::ConnectionError { .. } }]));
    assert_eq!(p.state, PeerState::OutConnecting);
    assert_eq!(p.addr, Some(v4(2, 9002)));
}

#[test]
fn heartbeats_are_asked_answered_and_watched() {
    let mut p = out_alive();
    let effects = p.handle_command_at(Command::HeartbeatRequest, 1_700_000_000_000_123);
    assert_eq!(effects.len(), 2);
    assert_eq!(
        sent(&effects[0]),
        b"*4\r\n+HBT_REQ\r\n+01020304-0506-0708-090a-0b0c0d0e0f10\r\n+alice\r\n@1700000000000123\r\n"
    );
    assert!(matches!(effects[1], Effect::StartWatchdog { timeout: 10 }));
    assert!(p.watching);
    let effects = p.handle_command_at(Command::CancelHeartbeatTimeout { src: 1_700_000_000_000_123 }, 5);
    assert!(matches!(effects[..], [Effect::CancelWatchdog]));
    assert!(!p.watching);
    assert!(p.handle_command_at(Command::CancelHeartbeatTimeout { src: 1 }, 5).is_empty());
    assert_eq!(p.state, PeerState::OutAlive);
    assert!(matches!(p.heartbeats(), Effect::StartHeartbeat { period: 3 }));

    let mut q = in_alive();
    let effects = q.handle_command_at(Command::HeartbeatResponse { src: -5 }, 99);
    assert_eq!(effects.len(), 2);
    assert_eq!(
        sent(&effects[0]),
        b"*5\r\n+HBT_RESP\r\n+a1a2a3a4-b1b2-c1c2-d1d2-d3d4d5d6d7d8\r\n+alice\r\n@-5\r\n@99\r\n"
    );
    assert!(matches!(effects[1], Effect::StartWatchdog { timeout: 10 }));
    assert!(q.watching);
    assert_eq!(q.state, PeerState::InAlive);
}

#[test]
fn a_missed_heartbeat_closes_the_connection() {
    let mut p = out_alive();
    p.handle_command_at(Command::HeartbeatRequest, 1);
    let effects = p.handle_command_at(Command::HeartbeatTimeout, 2);
    assert_eq!(effects.len(), 5);
    assert!(matches!(effects[0], Effect::StopReader));
    assert!(matches!(effects[1], Effect::CancelWatchdog));
    assert!(matches!(effects[2], Effect::StopHeartbeat));
    assert!(matches!(effects[3], Effect::CloseMailbox));
    assert!(matches!(effects[4], Effect::Emit { event: Event::Disconnected { id: PEER, addr } } if addr == v4(2, 9002)));
    assert_eq!(p.state, PeerState::Idle);
    assert!(p.closed && !p.reading && !p.beating && !p.watching);
    assert!(p.handle_command_at(Command::HeartbeatTimeout, 3).is_empty());
    assert!(p.handle_command_at(Command::Connect { addr: v4(2, 9002), attempt: 1 }, 3).is_empty());
    assert_eq!(p.state, PeerState::Idle);

    let mut q = in_alive();
    let effects = q.handle_command_at(Command::HeartbeatTimeout, 2);
    assert_eq!(effects.len(), 3);
    assert!(matches!(effects[0], Effect::StopReader));
    assert!(matches!(effects[1], Effect::CloseMailbox));
    assert!(matches!(effects[2], Effect::Emit { event: Event::Terminated { id: PEER } }));
    assert_eq!(q.state, PeerState::Idle);
    assert!(q.closed);
}

#[test]
fn a_peer_recovers_by_closing_or_ending() {
    let mut p = out_alive();
    let effects = p.recover();
    assert!(matches!(effects.last(), Some(Effect::Emit { event: Event::Disconnected { .. } })));
    assert_eq!(p.state, PeerState::Idle);
    assert!(p.recover().is_empty());

    let mut q = in_alive();
    let effects = q.recover();
    assert!(matches!(effects.last(), Some(Effect::Emit { event: Event::Terminated { .. } })));
    assert_eq!(q.state, PeerState::Idle);

    let mut r = peer();
    r.connect(v4(2, 9002), 1);
    assert!(r.recover().is_empty());
    r.state = PeerState::OutConnecting;
    let effects = r.recover();
    assert_eq!(effects.len(), 2);
    assert!(matches!(effects[0], Effect::CloseMailbox));
    match &effects[1] {
        Effect::Fail { error } => {
            assert!(matches!(error, Error::InvalidAddr { detail } if detail == "Peer should have an address."));
            assert_eq!(error.to_string(), "Invalid Addr");
        }
        _ => panic!("expected a failure"),
    }
    assert_eq!(r.state, PeerState::OutConnecting);
    assert!(r.closed);

    let mut s = peer();
    s.state = PeerState::OutHandshaking;
    let effects = s.handle_command_at(Command::FinalizeConn { remote_id: 1, remote_label: "x".to_owned() }, 0);
    assert!(matches!(effects[..], [Effect::Fail { .. }]));
    assert_eq!(s.state, PeerState::OutHandshaking);

    let mut t = out_alive();
    let stops = t.abort_threads();
    assert!(matches!(stops[..], [Effect::StopReader, Effect::StopHeartbeat]));
    assert!(t.abort_threads().is_empty());
    let mut u = in_alive();
    assert!(matches!(u.terminate()[..], [Effect::StopReader, Effect::CloseMailbox, Effect::Emit { .. }]));
    let mut w = out_alive();
    assert!(matches!(
        w.disconnect()[..],
        [Effect::StopReader, Effect::StopHeartbeat, Effect::CloseMailbox, Effect::Emit { .. }]
    ));
}

#[test]
fn a_command_with_the_clock_of_the_machine_carries_its_time() {
    let mut p = out_alive();
    let before = chrono::Utc::now().timestamp_micros();
    let effects = p.handle_command(Command::HeartbeatRequest);
    let after = chrono::Utc::now().timestamp_micros();
    match &effects[0] {
        Effect::Send { frame } => match Message::from_frame(frame.clone()).unwrap() {
            Message::HeartbeatRequest(m) => assert!(before <= m.src() && m.src() <= after),
            _ => panic!("expected a heartbeat request"),
        },
        _ => panic!("expected a frame"),
    }
}

#[test]
fn inbound_messages_become_commands() {
    let id = Uuid::from_u128(REMOTE).to_string();
    let r = handle_message_at(
        Message::ConnRequest(ConnRequest::new(id.clone(), "bob".to_owned(), "127.0.0.2:9002".to_owned())),
        0,
        Some(v4(2, 9002)),
    )
    .unwrap();
    assert!(r.rtt.is_none());
    match r.command {
        Some(Command::SendConnResponse { remote_id, remote_label, remote_addr }) => {
            assert_eq!(remote_id, REMOTE);
            assert_eq!(remote_label, "bob");
            assert_eq!(remote_addr, v4(2, 9002));
        }
        _ => panic!("expected a response to be sent"),
    }
    let r = handle_message_at(Message::ConnResponse(ConnResponse::new(id.to_uppercase(), "bob".to_owned())), 0, None)
        .unwrap();
    match r.command {
        Some(Command::FinalizeConn { remote_id, remote_label }) => {
            assert_eq!(remote_id, REMOTE);
            assert_eq!(remote_label, "bob");
        }
        _ => panic!("expected the connection to be finalized"),
    }
    let r = handle_message_at(
        Message::HeartbeatRequest(HeartbeatRequest::new("x".to_owned(), "bob".to_owned(), 17)),
        99,
        None,
    )
    .unwrap();
    assert!(matches!(r.command, Some(Command::HeartbeatResponse { src: 17 })));
    assert!(r.rtt.is_none());
    for message in [
        Message::ConnRejection(ConnRejection::new("x".to_owned(), "no".to_owned())),
        Message::ContactRequest(ContactRequest),
        Message::ContactResponse(ContactResponse::new(vec!["a:1".to_owned()])),
    ] {
        let r = handle_message_at(message, 0, None).unwrap();
        assert!(r.command.is_none() && r.rtt.is_none());
    }
}

#[test]
fn a_heartbeat_response_gives_the_round_trip_time() {
    let r = handle_message_at(
        Message::HeartbeatResponse(HeartbeatResponse::new("x".to_owned(), "bob".to_owned(), 1_000, 1_400)),
        1_750,
        None,
    )
    .unwrap();
    assert_eq!(r.rtt, Some(750));
    assert!(matches!(r.command, Some(Command::CancelHeartbeatTimeout { src: 1_000 })));
    let r = handle_message_at(
        Message::HeartbeatResponse(HeartbeatResponse::new("x".to_owned(), "bob".to_owned(), i64::MIN, 0)),
        i64::MAX,
        None,
    )
    .unwrap();
    assert_eq!(r.rtt, Some(i64::MAX as i128 - i64::MIN as i128));
    let sent = chrono::Utc::now().timestamp_micros();
    let r = handle_message(
        Message::HeartbeatResponse(HeartbeatResponse::new("x".to_owned(), "bob".to_owned(), sent, sent)),
        None,
    )
    .unwrap();
    assert!(r.rtt.unwrap() >= 0);
}

#[test]
fn a_remote_that_gives_no_id_or_no_address_is_refused() {
    let id = Uuid::from_u128(REMOTE).to_string();
    match handle_message_at(
        Message::ConnRequest(ConnRequest::new("not an id".to_owned(), "bob".to_owned(), "127.0.0.2:9002".to_owned())),
        0,
        Some(v4(2, 9002)),
    ) {
        Err(Error::Message { source }) => assert_eq!(source.to_string(), "Unexpected Message not an id"),
        _ => panic!("expected the id to be refused"),
    }
    match handle_message_at(
        Message::ConnRequest(ConnRequest::new(id, "bob".to_owned(), "nowhere".to_owned())),
        0,
        None,
    ) {
        Err(Error::InvalidAddr { detail }) => assert_eq!(detail, "nowhere"),
        _ => panic!("expected the address to be refused"),
    }
    match handle_message_at(Message::ConnResponse(ConnResponse::new("".to_owned(), "bob".to_owned())), 0, None) {
        Err(e) => assert_eq!(e.to_string(), "Could not create a message to send to remote peer."),
        Ok(_) => panic!("expected the id to be refused"),
    }
}

#[test]
fn states_commands_and_errors_have_their_names() {
    assert_eq!(PeerState::Idle.to_string(), "idle");
    assert_eq!(PeerState::OutConnecting.to_string(), "out connecting");
    assert_eq!(PeerState::OutHandshaking.to_string(), "out handshaking");
    assert_eq!(PeerState::OutAlive.to_string(), "out alive");
    assert_eq!(PeerState::InHandshaking.to_string(), "in handshaking");
    assert_eq!(PeerState::InAlive.to_string(), "in alive");
    assert_eq!(PeerState::Banned.to_string(), "banned");
    assert_eq!(Command::Connect { addr: v4(1, 1), attempt: 0 }.to_string(), "connect");
    assert_eq!(Command::Listen { local_addr: v4(1, 1), peer_addr: v4(1, 1) }.to_string(), "listen");
    assert_eq!(Command::SendConnRequest.to_string(), "connection request");
    assert_eq!(
        Command::SendConnResponse { remote_id: 1, remote_label: "x".to_owned(), remote_addr: v4(1, 1) }.to_string(),
        "connection response"
    );
    assert_eq!(
        Command::FinalizeConn { remote_id: 1, remote_label: "x".to_owned() }.to_string(),
        "connection finalization"
    );
    assert_eq!(Command::HeartbeatRequest.to_string(), "heartbeat request");
    assert_eq!(Command::HeartbeatResponse { src: 0 }.to_string(), "heartbeat response");
    assert_eq!(Command::HeartbeatTimeout.to_string(), "heartbeat timeout");
    assert_eq!(Command::CancelHeartbeatTimeout { src: 0 }.to_string(), "cancel heartbeat timeout");
    assert_eq!(Command::Disconnect.to_string(), "disconnect");
    assert_eq!(Command::Terminate.to_string(), "terminate");
    assert_eq!(
        Error::SendEvent { detail: "d".to_owned() }.to_string(),
        "Peer could not send event to controller d"
    );
    assert_eq!(
        Error::SendCommand { detail: "d".to_owned() }.to_string(),
        "Peer could not send command to itself d"
    );
    assert_eq!(Error::Thread { detail: "d".to_owned() }.to_string(), "Thread Error");
    assert_eq!(
        Error::Codec { source: area_net::codec::Error::IoError { detail: "d".to_owned() } }.to_string(),
        "Codec Error"
    );
}
