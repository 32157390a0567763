use area_net::network::address::SocketAddress;
use area_net::network::command::Command;
use area_net::network::controller::AddrInfo;
use area_net::network::controller::Controller;
use area_net::network::controller::Error;
use area_net::network::controller::IdleState;
use area_net::network::controller::Incoming;
use area_net::network::controller::Listen;
use area_net::network::controller::NetworkController;
use area_net::network::controller::Outgoing;
use area_net::network::controller::Peers;
use area_net::network::controller::Reaction;
use area_net::network::controller::Target;
use area_net::network::event::Event;
use area_net::network::peer::PeerState;
use area_net::network::Network;

fn v4(last: u32, port: u16) -> SocketAddress {
    SocketAddress::V4 { ip: 0x7f00_0000 + last, port }
}

fn config(limit: i32) -> Controller {
    Controller {
        incoming: Incoming { max_conn_count: 10, max_simultaneous_conn_attempts: 10 },
        outgoing: Outgoing { max_simultaneous_conn_attempts: limit },
        peers: Peers {
            max_conn_attempt: 3,
            conn_attempt_delay: 1,
            max_idle_count: 10,
            max_banned_count: 10,
            heartbeat_timeout: 10,
            heartbeat_period: 3,
        },
        listen: Listen { addr: "127.0.0.1".to_owned(), port: 9001 },
        target: Target { file: "peers.json".to_owned() },
    }
}

fn controller(limit: i32, addrs: Vec<SocketAddress>) -> NetworkController {
    let mut c = NetworkController::with_id(1, "alice".to_owned(), config(limit), v4(1, 9001));
    c.initialize(addrs);
    c
}

/// The invariants of the tables, checked on the values.
fn holds(c: &NetworkController) -> bool {
    let attempting = &c.outgoing.attempting;
    let outgoing = &c.outgoing.connected;
    let incoming = &c.incoming.connected;
    let disjoint = attempting.keys().all(|id| !outgoing.contains_key(id) && !incoming.contains_key(id))
        && outgoing.keys().all(|id| !incoming.contains_key(id));
    let live = attempting.keys().chain(outgoing.keys()).chain(incoming.keys()).all(|id| c.peers.contains(id));
    let mut addrs: Vec<SocketAddress> = c.idle.addrs.iter().map(|a| a.addr).collect();
    addrs.extend(attempting.values().map(|a| a.addr));
    addrs.extend(outgoing.values().map(|a| a.addr));
    let apart = (0..addrs.len()).all(|i| (0..i).all(|j| addrs[i] != addrs[j]));
    disjoint && live && apart
}

fn all_posted(n: usize) -> Vec<bool> {
    vec![true; n]
}

fn ids(from: u128, n: usize) -> Vec<u128> {
    (0..n as u128).map(|i| from + i).collect()
}

#[test]
fn a_new_controller_has_empty_tables() {
    let c = NetworkController::new("alice".to_owned(), config(5), v4(1, 9001));
    let d = NetworkController::new("alice".to_owned(), config(5), v4(1, 9001));
    assert_ne!(c.id, d.id);
    assert_eq!(c.label, "alice");
    assert_eq!(c.addr, v4(1, 9001));
    assert_eq!(c.config.listen.port, 9001);
    assert!(c.peers.is_empty());
    assert!(c.idle.addrs.is_empty());
    assert!(c.outgoing.attempting.is_empty());
    assert!(c.outgoing.connected.is_empty());
    assert!(c.incoming.connected.is_empty());
    let e = NetworkController::with_id(77, "bob".to_owned(), config(5), v4(2, 1));
    assert_eq!(e.id, 77);
    let network = Network { controller: config(2) };
    assert_eq!(network.clone().controller.outgoing.max_simultaneous_conn_attempts, 2);
}

#[test]
fn an_empty_peer_file_starts_cleanly_with_no_attempts() {
    let mut c = controller(5, vec![]);
    assert!(c.idle.addrs.is_empty());
    let commands = c.tick(&ids(100, 3), &all_posted(3));
    assert!(commands.is_empty());
    assert!(c.outgoing.attempting.is_empty());
    assert!(c.peers.is_empty());
    assert!(holds(&c));
}

#[test]
fn the_idle_list_holds_each_initial_address_once() {
    let c = controller(5, vec![v4(2, 1), v4(3, 1), v4(2, 1), v4(2, 2)]);
    let got: Vec<(SocketAddress, i32)> = c.idle.addrs.iter().map(|a| (a.addr, a.attempt)).collect();
    assert_eq!(got, vec![(v4(2, 1), 0), (v4(3, 1), 0), (v4(2, 2), 0)]);
    assert!(holds(&c));
}

#[test]
fn entries_of_the_idle_list_are_the_same_where_their_addresses_are() {
    assert!(AddrInfo { addr: v4(2, 1), attempt: 0 } == AddrInfo { addr: v4(2, 1), attempt: 9 });
    assert!(AddrInfo { addr: v4(2, 1), attempt: 0 } != AddrInfo { addr: v4(2, 2), attempt: 0 });
    let mut idle = IdleState { addrs: vec![] };
    assert!(idle.insert(AddrInfo { addr: v4(2, 1), attempt: 4 }));
    assert!(!idle.insert(AddrInfo { addr: v4(2, 1), attempt: 0 }));
    assert!(idle.insert(AddrInfo { addr: v4(2, 2), attempt: 0 }));
    assert_eq!(idle.addrs.len(), 2);
    assert_eq!(idle.addrs[0].attempt, 4);
    assert_eq!(idle.position(v4(2, 2)), Some(1));
    assert_eq!(idle.position(v4(2, 3)), None);
    assert_eq!(v4(2, 7).port(), 7);
    assert_eq!(SocketAddress::V6 { ip: 1, port: 8, flowinfo: 0, scope_id: 0 }.port(), 8);
}

#[test]
fn a_tick_sends_a_peer_to_each_idle_address() {
    let mut c = controller(5, vec![v4(2, 1), v4(3, 1)]);
    assert!(!c.throttled());
    let commands = c.tick(&ids(100, 2), &all_posted(2));
    assert_eq!(commands.len(), 2);
    assert!(matches!(commands[0], (100, Command::Connect { addr, attempt: 1 }) if addr == v4(2, 1)));
    assert!(matches!(commands[1], (101, Command::Connect { addr, attempt: 1 }) if addr == v4(3, 1)));
    assert!(c.idle.addrs.is_empty());
    assert_eq!(c.outgoing.attempting.len(), 2);
    assert_eq!(c.outgoing.attempting[&100].addr, v4(2, 1));
    assert_eq!(c.outgoing.attempting[&100].attempt, 1);
    assert!(c.peers.contains(&100) && c.peers.contains(&101));
    assert!(holds(&c));
}

#[test]
fn an_address_whose_command_was_not_posted_stays_idle() {
    let mut c = controller(5, vec![v4(2, 1), v4(3, 1), v4(4, 1)]);
    let commands = c.tick(&ids(100, 3), &vec![true, false, true]);
    assert_eq!(commands.len(), 2);
    assert_eq!(commands[0].0, 100);
    assert_eq!(commands[1].0, 102);
    let idle: Vec<(SocketAddress, i32)> = c.idle.addrs.iter().map(|a| (a.addr, a.attempt)).collect();
    assert_eq!(idle, vec![(v4(3, 1), 0)]);
    assert!(!c.outgoing.attempting.contains_key(&101));
    assert!(!c.peers.contains(&101));
    assert!(holds(&c));
}

#[test]
fn at_the_limit_a_tick_adds_no_attempt_and_leaves_the_idle_list() {
    let mut c = controller(2, vec![v4(2, 1), v4(3, 1), v4(4, 1), v4(5, 1)]);
    let first = c.tick(&ids(100, 4), &all_posted(4));
    assert_eq!(first.len(), 2);
    assert_eq!(c.outgoing.attempting.len(), 2);
    assert!(c.throttled());
    let idle_before: Vec<(SocketAddress, i32)> = c.idle.addrs.iter().map(|a| (a.addr, a.attempt)).collect();
    assert_eq!(idle_before, vec![(v4(4, 1), 0), (v4(5, 1), 0)]);
    assert!(c.next_attempt(v4(4, 1)).is_none());
    let second = c.tick(&ids(200, 2), &all_posted(2));
    assert!(second.is_empty());
    let idle_after: Vec<(SocketAddress, i32)> = c.idle.addrs.iter().map(|a| (a.addr, a.attempt)).collect();
    assert_eq!(idle_after, idle_before);
    assert_eq!(c.outgoing.attempting.len(), 2);
    assert_eq!(c.peers.len(), 2);
    assert!(holds(&c));
}

#[test]
fn a_limit_of_nothing_or_less_lets_no_peer_go() {
    for limit in [0, -1, i32::MIN] {
        let mut c = controller(limit, vec![v4(2, 1)]);
        assert!(c.throttled());
        assert!(c.tick(&ids(100, 1), &all_posted(1)).is_empty());
        assert_eq!(c.idle.addrs.len(), 1);
    }
}

#[test]
fn a_hundred_dead_addresses_never_have_more_than_five_attempts_under_way() {
    let addrs: Vec<SocketAddress> = (0..100u16).map(|i| v4(9, 10_000 + i)).collect();
    let mut c = controller(5, addrs);
    let mut next_id = 1000u128;
    for round in 0..50 {
        let n = c.idle.addrs.len();
        let commands = c.tick(&ids(next_id, n), &all_posted(n));
        next_id += n as u128;
        assert!(c.outgoing.attempting.len() <= 5);
        assert_eq!(c.outgoing.attempting.len() + c.idle.addrs.len(), 100);
        assert_eq!(c.idle.addrs.len(), 95);
        assert_eq!(commands.len(), 5);
        assert!(holds(&c));
        for (id, command) in commands {
            let addr = match command {
                Command::Connect { addr, attempt } => {
                    assert!(attempt >= 1 && attempt <= round + 1);
                    addr
                }
                _ => panic!("expected a connect"),
            };
            let r = c.handle_event(Event::ConnectionError { id, addr, source: "refused".to_owned() });
            assert!(matches!(r, Ok(Reaction::Nothing)));
            assert!(c.outgoing.attempting.len() <= 5);
        }
        assert_eq!(c.idle.addrs.len(), 100);
        assert!(c.outgoing.connected.is_empty());
        assert!(holds(&c));
    }
}

#[test]
fn a_dead_address_is_tried_once_per_tick_and_counts_its_attempts() {
    let dead = v4(1, 59999);
    let mut c = controller(5, vec![dead]);
    for n in 1..=7 {
        let commands = c.tick(&vec![500 + n as u128], &all_posted(1));
        assert_eq!(commands.len(), 1);
        let (id, command) = &commands[0];
        assert!(matches!(command, Command::Connect { addr, attempt } if *addr == dead && *attempt == n));
        assert!(c.idle.addrs.is_empty());
        let r = c.handle_event(Event::ConnectionError { id: *id, addr: dead, source: "refused".to_owned() });
        assert!(matches!(r, Ok(Reaction::Nothing)));
        assert_eq!(c.idle.addrs.len(), 1);
        assert_eq!(c.idle.addrs[0].addr, dead);
        assert_eq!(c.idle.addrs[0].attempt, n);
        assert!(c.outgoing.attempting.is_empty());
        assert!(c.outgoing.connected.is_empty());
        assert!(holds(&c));
    }
}

#[test]
fn an_address_that_is_alive_is_not_tried_again() {
    let remote = v4(2, 9002);
    let mut c = controller(5, vec![remote]);
    let commands = c.tick(&vec![7], &all_posted(1));
    assert_eq!(commands.len(), 1);
    match c.handle_event(Event::Connected { id: 7 }) {
        Ok(Reaction::Send { id: 7, command: Command::SendConnRequest }) => {}
        _ => panic!("expected the request to be sent"),
    }
    let r = c.handle_event(Event::OutAlive {
        id: 7,
        remote_id: 99,
        remote_label: "bob".to_owned(),
        remote_addr: remote,
    });
    assert!(matches!(r, Ok(Reaction::Nothing)));
    assert!(c.outgoing.attempting.is_empty());
    assert_eq!(c.outgoing.connected[&7].addr, remote);
    assert_eq!(c.outgoing.connected[&7].id, 99);
    assert_eq!(c.outgoing.connected[&7].label, "bob");
    assert!(c.idle.addrs.is_empty());
    assert!(c.next_attempt(remote).is_none());
    let again = c.tick(&vec![8], &all_posted(1));
    assert!(again.is_empty());
    assert!(!c.peers.contains(&8));
    assert!(holds(&c));
}

#[test]
fn a_disconnected_peer_is_reaped_and_its_address_waits_anew() {
    let remote = v4(2, 9002);
    let mut c = controller(5, vec![remote]);
    c.tick(&vec![7], &all_posted(1));
    c.handle_event(Event::ConnectionError { id: 7, addr: remote, source: "x".to_owned() }).unwrap();
    c.tick(&vec![8], &all_posted(1));
    assert_eq!(c.outgoing.attempting[&8].attempt, 2);
    c.handle_event(Event::OutAlive {
        id: 8,
        remote_id: 99,
        remote_label: "bob".to_owned(),
        remote_addr: remote,
    })
    .unwrap();
    let r = c.handle_event(Event::Disconnected { id: 8, addr: remote });
    assert!(matches!(r, Ok(Reaction::Reap { id: 8 })));
    assert!(c.outgoing.connected.is_empty());
    assert!(!c.peers.contains(&8));
    assert_eq!(c.idle.addrs.len(), 1);
    assert_eq!(c.idle.addrs[0].addr, remote);
    assert_eq!(c.idle.addrs[0].attempt, 0);
    assert!(holds(&c));
    let commands = c.tick(&vec![9], &all_posted(1));
    assert!(matches!(commands[0], (9, Command::Connect { attempt: 1, .. })));
}

#[test]
fn an_inbound_peer_is_listed_when_alive_and_reaped_when_terminated() {
    let mut c = controller(5, vec![]);
    c.register(40);
    assert!(c.peers.contains(&40));
    assert!(matches!(c.handle_event(Event::Listening { id: 40 }), Ok(Reaction::Nothing)));
    let r = c.handle_event(Event::InAlive {
        id: 40,
        remote_id: 5,
        remote_label: "carol".to_owned(),
        remote_addr: v4(3, 9003),
    });
    assert!(matches!(r, Ok(Reaction::Nothing)));
    assert_eq!(c.incoming.connected[&40].label, "carol");
    assert_eq!(c.incoming.connected[&40].addr, v4(3, 9003));
    assert!(holds(&c));
    let summary = c.summary();
    assert_eq!(summary.controller.id, 1);
    assert_eq!(summary.controller.label, "alice");
    assert_eq!(summary.controller.addr, v4(1, 9001));
    assert_eq!(summary.incoming.len(), 1);
    assert_eq!(summary.incoming[0].id, 5);
    assert!(summary.outgoing.is_empty());
    let r = c.handle_event(Event::Terminated { id: 40 });
    assert!(matches!(r, Ok(Reaction::Reap { id: 40 })));
    assert!(c.incoming.connected.is_empty());
    assert!(c.peers.is_empty());
    assert!(holds(&c));
}

#[test]
fn the_summary_lists_every_connection() {
    let mut c = controller(5, vec![v4(2, 1), v4(3, 1), v4(4, 1)]);
    let commands = c.tick(&ids(10, 3), &all_posted(3));
    for (id, command) in commands {
        if let Command::Connect { addr, .. } = command {
            c.handle_event(Event::OutAlive {
                id,
                remote_id: id + 1000,
                remote_label: format!("n{id}"),
                remote_addr: addr,
            })
            .unwrap();
        }
    }
    c.register(50);
    c.handle_event(Event::InAlive {
        id: 50,
        remote_id: 2000,
        remote_label: "in".to_owned(),
        remote_addr: v4(8, 8),
    })
    .unwrap();
    let summary = c.summary();
    let mut out: Vec<(u128, String, SocketAddress)> =
        summary.outgoing.iter().map(|i| (i.id, i.label.clone(), i.addr)).collect();
    out.sort_by_key(|o| o.0);
    assert_eq!(
        out,
        vec![
            (1010, "n10".to_owned(), v4(2, 1)),
            (1011, "n11".to_owned(), v4(3, 1)),
            (1012, "n12".to_owned(), v4(4, 1)),
        ]
    );
    assert_eq!(summary.incoming.len(), 1);
    assert_eq!(summary.incoming[0].clone().label, "in");
    assert!(holds(&c));
}

#[test]
fn an_event_of_an_unknown_peer_changes_nothing() {
    let remote = v4(2, 9002);
    let events = || {
        vec![
            Event::Connected { id: 3 },
            Event::OutAlive { id: 3, remote_id: 1, remote_label: "x".to_owned(), remote_addr: remote },
            Event::InAlive { id: 3, remote_id: 1, remote_label: "x".to_owned(), remote_addr: remote },
            Event::ConnectionError { id: 3, addr: remote, source: "x".to_owned() },
            Event::Disconnected { id: 3, addr: remote },
            Event::Terminated { id: 3 },
        ]
    };
    for event in events() {
        let mut c = controller(5, vec![remote]);
        match c.handle_event(event) {
            Err(Error::UnknownId { id: 3, detail }) => {
                assert_eq!(detail, "Controller | Could not find id in peer table.")
            }
            _ => panic!("expected an unknown id"),
        }
        assert_eq!(c.idle.addrs.len(), 1);
        assert!(c.peers.is_empty());
        assert!(c.outgoing.attempting.is_empty());
        assert!(c.outgoing.connected.is_empty());
        assert!(c.incoming.connected.is_empty());
    }
}

#[test]
fn events_that_only_inform_change_nothing() {
    let mut c = controller(5, vec![v4(2, 1)]);
    let r = c.handle_event(Event::InvalidState {
        id: 3,
        expected: vec![PeerState::Idle],
        actual: PeerState::OutAlive,
    });
    assert!(matches!(r, Ok(Reaction::Nothing)));
    assert!(matches!(c.handle_event(Event::Listening { id: 3 }), Ok(Reaction::Nothing)));
    match c.handle_event(Event::BindError { source: "in use".to_owned(), addr: v4(1, 9001) }) {
        Err(e) => {
            assert!(matches!(&e, Error::Bind { addr, .. } if *addr == v4(1, 9001)));
            assert_eq!(
                e.to_string(),
                "Cannot Bind Socket Address => Network controller cannot bind to addr"
            );
        }
        Ok(_) => panic!("expected the controller to stop"),
    }
    assert_eq!(c.idle.addrs.len(), 1);
}

#[test]
fn controller_errors_have_their_text() {
    assert_eq!(Error::InvalidAddr { detail: "d".to_owned() }.to_string(), "Invalid Network Address: d");
    assert_eq!(
        Error::OutgoingConnAttemptLimit { detail: "d".to_owned() }.to_string(),
        "Too many connection attempts => d"
    );
    assert_eq!(Error::EventError { detail: "d".to_owned() }.to_string(), "Could not send event to controller d");
    assert_eq!(Error::CommandError { detail: "d".to_owned() }.to_string(), "Could not send command to peer d");
    assert_eq!(Error::UnknownId { id: 1, detail: "d".to_owned() }.to_string(), "Peer could not be found => d");
    assert_eq!(Error::IO { detail: "d".to_owned() }.to_string(), "IO Error => d");
    assert_eq!(
        Error::InvalidPeerFile { detail: "d".to_owned() }.to_string(),
        "Invalid peer file content (Json Array of string) d"
    );
}

#[test]
fn an_attempt_is_planned_then_recorded() {
    let mut c = controller(1, vec![v4(2, 1), v4(3, 1)]);
    assert!(c.next_attempt(v4(9, 9)).is_none());
    match c.next_attempt(v4(3, 1)) {
        Some(Command::Connect { addr, attempt: 1 }) => assert_eq!(addr, v4(3, 1)),
        _ => panic!("expected a connect"),
    }
    assert_eq!(c.idle.addrs.len(), 2);
    c.attempted(v4(9, 9), 70);
    assert!(c.peers.is_empty());
    c.attempted(v4(3, 1), 70);
    assert_eq!(c.idle.addrs.len(), 1);
    assert_eq!(c.idle.addrs[0].addr, v4(2, 1));
    assert_eq!(c.outgoing.attempting[&70].addr, v4(3, 1));
    assert!(c.peers.contains(&70));
    c.attempted(v4(2, 1), 71);
    assert_eq!(c.idle.addrs.len(), 1);
    assert!(!c.peers.contains(&71));
    assert!(holds(&c));
}
