use area_net::network::address::SocketAddress;
use area_net::network::command::Command;
use area_net::network::controller::Controller;
use area_net::network::controller::Incoming;
use area_net::network::controller::Listen;
use area_net::network::controller::NetworkController;
use area_net::network::controller::Outgoing;
use area_net::network::controller::Peers;
use area_net::network::controller::Reaction;
use area_net::network::controller::Target;
use area_net::network::event::Event;
use area_net::network::peer::handle_message_at;
use area_net::network::peer::Effect;
use area_net::network::peer::Peer;
use area_net::network::peer::PeerState;
use area_net::FrameCodec;
use area_net::Message;
use bytes::BytesMut;
use std::collections::HashMap;
use std::collections::VecDeque;

fn local(port: u16) -> SocketAddress {
    SocketAddress::V4 { ip: 0x7f00_0001, port }
}

fn text(addr: SocketAddress) -> String {
    format!("127.0.0.1:{}", addr.port())
}

fn read(text: &str) -> Option<SocketAddress> {
    let port = text.strip_prefix("127.0.0.1:")?;
    port.parse::<u16>().ok().map(local)
}

fn config(port: u16) -> Controller {
    Controller {
        incoming: Incoming { max_conn_count: 10, max_simultaneous_conn_attempts: 10 },
        outgoing: Outgoing { max_simultaneous_conn_attempts: 5 },
        peers: Peers {
            max_conn_attempt: 3,
            conn_attempt_delay: 1,
            max_idle_count: 10,
            max_banned_count: 10,
            heartbeat_timeout: 10,
            heartbeat_period: 3,
        },
        listen: Listen { addr: "127.0.0.1".to_owned(), port },
        target: Target { file: "peers.json".to_owned() },
    }
}

/// One node: its controller and the peers that it runs.
struct Node {
    up: bool,
    controller: NetworkController,
    peers: HashMap<u128, Peer>,
}

/// What is still to be done, in the order in which it came up.
enum Work {
    Command { node: usize, peer: u128, command: Command },
    Effect { node: usize, peer: u128, effect: Effect },
}

/// Two or more nodes in one process, with buffers in place of sockets.
struct World {
    nodes: Vec<Node>,
    links: HashMap<(usize, u128), (usize, u128)>,
    inbox: HashMap<(usize, u128), BytesMut>,
    work: VecDeque<Work>,
    next_id: u128,
    clock: i64,
    wire: Vec<Vec<u8>>,
    rtts: Vec<i128>,
    ephemeral: u16,
}

impl World {
    fn new(ports: &[(u16, Vec<u16>)]) -> World {
        let mut nodes = Vec::new();
        for (i, (port, seeds)) in ports.iter().enumerate() {
            let mut controller =
                NetworkController::with_id(1 + i as u128, format!("node{i}"), config(*port), local(*port));
            controller.initialize(seeds.iter().map(|p| local(*p)).collect());
            nodes.push(Node { up: true, controller, peers: HashMap::new() });
        }
        World {
            nodes,
            links: HashMap::new(),
            inbox: HashMap::new(),
            work: VecDeque::new(),
            next_id: 1000,
            clock: 5_000_000,
            wire: Vec::new(),
            rtts: Vec::new(),
            ephemeral: 40_000,
        }
    }

    fn new_peer(&mut self, node: usize) -> u128 {
        self.next_id += 1;
        let c = &self.nodes[node].controller;
        let peer = Peer::with_id(self.next_id, c.id, c.label.clone(), text(c.addr), 10, 3);
        self.nodes[node].peers.insert(self.next_id, peer);
        self.next_id
    }

    fn push(&mut self, node: usize, peer: u128, effects: Vec<Effect>) {
        for effect in effects {
            self.work.push_back(Work::Effect { node, peer, effect });
        }
    }

    /// One reconnect tick of a node, with every command posted.
    fn tick(&mut self, node: usize) {
        let n = self.nodes[node].controller.idle.addrs.len();
        let fresh: Vec<u128> = (0..n).map(|_| self.new_peer(node)).collect();
        let commands = self.nodes[node].controller.tick(&fresh, &vec![true; n]);
        let sent: Vec<u128> = commands.iter().map(|c| c.0).collect();
        for id in fresh {
            if !sent.contains(&id) {
                self.nodes[node].peers.remove(&id);
            }
        }
        for (peer, command) in commands {
            self.work.push_back(Work::Command { node, peer, command });
        }
        self.run();
    }

    fn command(&mut self, node: usize, peer: u128, command: Command) {
        self.work.push_back(Work::Command { node, peer, command });
        self.run();
    }

    fn run(&mut self) {
        while let Some(work) = self.work.pop_front() {
            self.clock += 10;
            match work {
                Work::Command { node, peer, command } => {
                    let now = self.clock;
                    if let Some(p) = self.nodes[node].peers.get_mut(&peer) {
                        let effects = p.handle_command_at(command, now);
                        self.push(node, peer, effects);
                    }
                }
                Work::Effect { node, peer, effect } => self.perform(node, peer, effect),
            }
        }
    }

    fn perform(&mut self, node: usize, peer: u128, effect: Effect) {
        match effect {
            Effect::Dial { addr, .. } => {
                let target =
                    self.nodes.iter().position(|n| n.up && n.controller.addr == addr);
                match target {
                    Some(remote) => {
                        self.ephemeral += 1;
                        let from = local(self.ephemeral);
                        let inbound = self.new_peer(remote);
                        self.nodes[remote].controller.register(inbound);
                        self.links.insert((node, peer), (remote, inbound));
                        self.links.insert((remote, inbound), (node, peer));
                        self.inbox.insert((node, peer), BytesMut::new());
                        self.inbox.insert((remote, inbound), BytesMut::new());
                        self.work.push_back(Work::Command {
                            node: remote,
                            peer: inbound,
                            command: Command::Listen { local_addr: addr, peer_addr: from },
                        });
                        let effects =
                            self.nodes[node].peers.get_mut(&peer).unwrap().connected(addr, from, addr);
                        self.push(node, peer, effects);
                    }
                    None => {
                        let effects = self.nodes[node]
                            .peers
                            .get_mut(&peer)
                            .unwrap()
                            .connect_failed(addr, "connection refused".to_owned());
                        self.push(node, peer, effects);
                    }
                }
            }
            Effect::Send { frame } => {
                let mut out = BytesMut::new();
                FrameCodec.encode(frame, &mut out).unwrap();
                self.wire.push(out.to_vec());
                if let Some(to) = self.links.get(&(node, peer)).copied() {
                    if self.nodes[to.0].up {
                        self.inbox.get_mut(&to).unwrap().extend_from_slice(&out);
                        self.deliver(to);
                    }
                }
            }
            Effect::Emit { event } => {
                let gone = matches!(event, Event::Disconnected { .. } | Event::Terminated { .. });
                match self.nodes[node].controller.handle_event(event) {
                    Ok(Reaction::Send { id, command }) => {
                        self.work.push_back(Work::Command { node, peer: id, command })
                    }
                    Ok(Reaction::Reap { id }) => {
                        assert!(gone);
                        self.nodes[node].peers.remove(&id);
                    }
                    Ok(Reaction::Nothing) => {}
                    Err(e) => panic!("the controller failed: {}", e.to_string()),
                }
            }
            Effect::Fail { error } => panic!("a peer failed: {}", error.to_string()),
            _ => {}
        }
    }

    fn deliver(&mut self, to: (usize, u128)) {
        loop {
            let frame = match FrameCodec.decode(self.inbox.get_mut(&to).unwrap()).unwrap() {
                Some(frame) => frame,
                None => break,
            };
            let message = Message::from_frame(frame).unwrap();
            let declared = match &message {
                Message::ConnRequest(request) => read(request.address()),
                _ => None,
            };
            let inbound = handle_message_at(message, self.clock, declared).unwrap();
            if let Some(rtt) = inbound.rtt {
                self.rtts.push(rtt);
            }
            if let Some(command) = inbound.command {
                self.work.push_back(Work::Command { node: to.0, peer: to.1, command });
            }
        }
    }

    fn kill(&mut self, node: usize) {
        self.nodes[node].up = false;
        self.nodes[node].peers.clear();
    }

    fn revive(&mut self, node: usize, seeds: Vec<u16>) {
        let port = self.nodes[node].controller.addr.port();
        let mut controller =
            NetworkController::with_id(90 + node as u128, format!("node{node}"), config(port), local(port));
        controller.initialize(seeds.into_iter().map(local).collect());
        self.nodes[node] = Node { up: true, controller, peers: HashMap::new() };
    }

    fn outbound_peer(&self, node: usize) -> u128 {
        *self.nodes[node].controller.outgoing.connected.keys().next().unwrap()
    }
}

#[test]
fn two_nodes_that_know_each_other_shake_hands_both_ways() {
    let mut world = World::new(&[(9001, vec![9002]), (9002, vec![9001])]);
    world.tick(0);
    world.tick(1);
    for (me, other) in [(0usize, 1usize), (1, 0)] {
        let c = &world.nodes[me].controller;
        let theirs = &world.nodes[other].controller;
        assert!(c.idle.addrs.is_empty());
        assert!(c.outgoing.attempting.is_empty());
        assert_eq!(c.outgoing.connected.len(), 1);
        assert_eq!(c.incoming.connected.len(), 1);
        let out = c.outgoing.connected.values().next().unwrap();
        assert_eq!(out.id, theirs.id);
        assert_eq!(out.label, theirs.label);
        assert_eq!(out.addr, theirs.addr);
        let inc = c.incoming.connected.values().next().unwrap();
        assert_eq!(inc.id, theirs.id);
        assert_eq!(inc.label, theirs.label);
        assert_eq!(inc.addr, theirs.addr);
        assert_eq!(c.peers.len(), 2);
        assert_eq!(world.nodes[me].peers.len(), 2);
        let states: Vec<PeerState> = world.nodes[me].peers.values().map(|p| p.state).collect();
        assert!(states.contains(&PeerState::OutAlive) && states.contains(&PeerState::InAlive));
    }
    assert_eq!(
        world.wire[0],
        b"*4\r\n+CONN_REQ\r\n+00000000-0000-0000-0000-000000000001\r\n+node0\r\n+127.0.0.1:9001\r\n"
    );
    assert_eq!(world.wire[1], b"*3\r\n+CONN_RESP\r\n+00000000-0000-0000-0000-000000000002\r\n+node1\r\n");
}

#[test]
fn a_heartbeat_is_answered_and_its_watchdog_called_off() {
    let mut world = World::new(&[(9001, vec![9002]), (9002, vec![])]);
    world.tick(0);
    let out = world.outbound_peer(0);
    for _ in 0..3 {
        world.command(0, out, Command::HeartbeatRequest);
        assert!(!world.nodes[0].peers[&out].watching);
        assert_eq!(world.nodes[0].peers[&out].state, PeerState::OutAlive);
    }
    assert_eq!(world.rtts.len(), 3);
    assert!(world.rtts.iter().all(|rtt| *rtt >= 0));
    let inbound = world.nodes[1].peers.values().next().unwrap();
    assert!(inbound.watching);
    assert_eq!(inbound.state, PeerState::InAlive);
}

#[test]
fn a_node_reconnects_when_its_remote_comes_back() {
    let mut world = World::new(&[(9001, vec![9002]), (9002, vec![9001])]);
    world.tick(0);
    world.tick(1);
    world.kill(1);
    let out = world.outbound_peer(0);
    world.command(0, out, Command::HeartbeatRequest);
    assert!(world.nodes[0].peers[&out].watching);
    world.command(0, out, Command::HeartbeatTimeout);
    {
        let c = &world.nodes[0].controller;
        assert!(c.outgoing.connected.is_empty());
        assert_eq!(c.idle.addrs.len(), 1);
        assert_eq!(c.idle.addrs[0].addr, local(9002));
        assert_eq!(c.idle.addrs[0].attempt, 0);
        assert!(!c.peers.contains(&out));
        assert!(!world.nodes[0].peers.contains_key(&out));
    }
    let inbound = *world.nodes[0].controller.incoming.connected.keys().next().unwrap();
    world.command(0, inbound, Command::HeartbeatTimeout);
    assert!(world.nodes[0].controller.incoming.connected.is_empty());
    assert!(world.nodes[0].controller.peers.is_empty());
    for n in 1..=3 {
        world.tick(0);
        let c = &world.nodes[0].controller;
        assert!(c.outgoing.attempting.is_empty());
        assert!(c.outgoing.connected.is_empty());
        assert_eq!(c.idle.addrs[0].attempt, n);
    }
    world.revive(1, vec![]);
    world.tick(0);
    let c = &world.nodes[0].controller;
    assert!(c.idle.addrs.is_empty());
    assert_eq!(c.outgoing.connected.len(), 1);
    assert_eq!(c.outgoing.connected.values().next().unwrap().id, 91);
    assert_eq!(world.nodes[1].controller.incoming.connected.len(), 1);
}
