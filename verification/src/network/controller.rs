//! The controller: the roster of peers, the tables of connections, and what
//! each event and each reconnect tick does to them.

use super::address::SocketAddress;
use super::command::Command;
use super::command::CommandView;
use super::event::Event;
use super::ident::fresh_id;
use std::collections::HashMap;
use std::collections::HashSet;
use vstd::prelude::*;
use vstd::std_specs::cmp::PartialEqSpecImpl;
use vstd::std_specs::iter::IteratorSpec;
use vstd::string::StringExecFns;

verus! {

/// The configuration of the controller.
#[derive(Debug, Clone)]
pub struct Controller {
    /// What holds of connections that remotes open.
    pub incoming: Incoming,
    /// What holds of connections that we open.
    pub outgoing: Outgoing,
    /// What holds of each peer.
    pub peers: Peers,
    /// Where the controller listens.
    pub listen: Listen,
    /// Which remotes to connect to at the start.
    pub target: Target,
}

/// The configuration of connections that remotes open. Reserved: none of it
/// is enforced.
#[derive(Debug, Clone)]
pub struct Incoming {
    /// The most connections.
    pub max_conn_count: i32,
    /// The most connections that may be in their handshake at once.
    pub max_simultaneous_conn_attempts: i32,
}

/// The configuration of connections that we open.
#[derive(Debug, Clone)]
pub struct Outgoing {
    /// The most connections that may be on their way at once.
    pub max_simultaneous_conn_attempts: i32,
}

/// The configuration of each peer.
#[derive(Debug, Clone)]
pub struct Peers {
    /// The most attempts at one address. Reserved.
    pub max_conn_attempt: i32,
    /// The seconds between two attempts. Reserved.
    pub conn_attempt_delay: i32,
    /// The most idle peers. Reserved.
    pub max_idle_count: i32,
    /// The most banned peers. Reserved.
    pub max_banned_count: i32,
    /// The seconds after which a heartbeat is missed.
    pub heartbeat_timeout: i32,
    /// The seconds between two heartbeats.
    pub heartbeat_period: i32,
}

/// Where the controller listens.
#[derive(Debug, Clone)]
pub struct Listen {
    /// The IP address, as text.
    pub addr: String,
    /// The port.
    pub port: u16,
}

/// Which remotes to connect to at the start.
#[derive(Debug, Clone)]
pub struct Target {
    /// The path of the file that lists their addresses.
    pub file: String,
}

/// An address that the controller wants a connection to, and how often it has tried.
#[derive(Debug, Clone, Copy)]
pub struct AddrInfo {
    /// The address.
    pub addr: SocketAddress,
    /// How many attempts at the address have been made.
    pub attempt: i32,
}

impl PartialEq for AddrInfo {
    /// Two entries are the same where their addresses are: the count of
    /// attempts does not tell them apart.
    fn eq(&self, other: &Self) -> (r: bool) {
        self.addr == other.addr
    }
}

impl PartialEqSpecImpl for AddrInfo {
    open spec fn obeys_eq_spec() -> bool {
        true
    }

    open spec fn eq_spec(&self, other: &Self) -> bool {
        self.addr == other.addr
    }
}

impl Eq for AddrInfo {

}

/// The addresses that the controller wants to connect to: no address twice.
#[derive(Debug)]
pub struct IdleState {
    /// The addresses, in the order in which a tick walks them.
    pub addrs: Vec<AddrInfo>,
}

/// The remote at the other end of a connection whose handshake is done.
#[derive(Debug)]
pub struct ConnInfo {
    /// The address of the remote.
    pub addr: SocketAddress,
    /// The id of the remote.
    pub id: u128,
    /// The label of the remote.
    pub label: String,
}

impl Clone for ConnInfo {
    fn clone(&self) -> (r: ConnInfo)
        ensures
            r == *self,
    {
        ConnInfo { addr: self.addr, id: self.id, label: self.label.clone() }
    }
}

/// The connections that we opened.
#[derive(Debug)]
pub struct OutgoingState {
    /// The peers that are connecting or in their handshake, with the address each one tries.
    pub attempting: HashMap<u128, AddrInfo>,
    /// The peers whose handshake is done, with the remote of each.
    pub connected: HashMap<u128, ConnInfo>,
}

/// The connections that remotes opened.
#[derive(Debug)]
pub struct IncomingState {
    /// The peers whose handshake is done, with the remote of each.
    pub connected: HashMap<u128, ConnInfo>,
}

/// What the status loop reports.
#[derive(Debug)]
pub struct Summary {
    /// The controller itself.
    pub controller: ConnInfo,
    /// The remotes that connected to us.
    pub incoming: Vec<ConnInfo>,
    /// The remotes that we connected to.
    pub outgoing: Vec<ConnInfo>,
}

/// The tables of the controller, as mathematical values.
pub struct Tables {
    /// The peers that are alive.
    pub peers: Set<u128>,
    /// The addresses to connect to, in the order in which a tick walks them.
    pub idle: Seq<AddrInfo>,
    /// The peers that are connecting or in their handshake.
    pub attempting: Map<u128, AddrInfo>,
    /// The peers that we connected and whose handshake is done.
    pub outgoing: Map<u128, ConnInfo>,
    /// The peers that remotes connected and whose handshake is done.
    pub incoming: Map<u128, ConnInfo>,
    /// The most connections that may be on their way at once.
    pub limit: int,
}

/// Whether `i` is the first place of the list `idle` at which `addr` waits.
pub open spec fn first_at(idle: Seq<AddrInfo>, addr: SocketAddress, i: int) -> bool {
    &&& 0 <= i < idle.len()
    &&& idle[i].addr == addr
    &&& forall|j: int| 0 <= j < i ==> (#[trigger] idle[j]).addr != addr
}

/// Whether `addr` waits nowhere in the list `idle`.
pub open spec fn absent(idle: Seq<AddrInfo>, addr: SocketAddress) -> bool {
    forall|j: int| 0 <= j < idle.len() ==> (#[trigger] idle[j]).addr != addr
}

/// The idle list that a list of addresses seeds: each address once, in the
/// order of its first occurrence, with no attempt made.
pub open spec fn seeded(addrs: Seq<SocketAddress>) -> Seq<AddrInfo>
    decreases addrs.len(),
{
    if addrs.len() == 0 {
        Seq::empty()
    } else {
        let front = seeded(addrs.drop_last());
        if absent(front, addrs.last()) {
            front.push(AddrInfo { addr: addrs.last(), attempt: 0 })
        } else {
            front
        }
    }
}

/// What the controller does after an event, besides changing its tables.
pub enum Outcome {
    /// Nothing.
    Nothing,
    /// It tells the peer to send the request that opens the handshake.
    Send {
        /// The peer.
        id: u128,
    },
    /// It ends the task of the peer, which has left the roster.
    Reap {
        /// The peer.
        id: u128,
    },
    /// It reports that it knows no such peer.
    Unknown {
        /// The id that the event named.
        id: u128,
    },
    /// It stops: its listener could not bind.
    Stop {
        /// The address of the listener.
        addr: SocketAddress,
    },
}

impl Tables {
    /// Whether `addr` waits in the idle list.
    pub open spec fn idle_has(self, addr: SocketAddress) -> bool {
        exists|i: int| 0 <= i < self.idle.len() && (#[trigger] self.idle[i]).addr == addr
    }

    /// Whether some peer is on its way to `addr`.
    pub open spec fn attempting_has(self, addr: SocketAddress) -> bool {
        exists|id: u128| self.attempting.contains_key(id) && (#[trigger] self.attempting[id]).addr
            == addr
    }

    /// Whether some peer other than `but` that we connected is connected to `addr`.
    pub open spec fn outgoing_has(self, addr: SocketAddress, but: u128) -> bool {
        exists|id: u128|
            id != but && self.outgoing.contains_key(id) && (#[trigger] self.outgoing[id]).addr
                == addr
    }

    /// No peer stands in two of the three tables of connections.
    pub open spec fn disjoint(self) -> bool {
        &&& forall|id: u128| #[trigger]
            self.attempting.contains_key(id) ==> !self.outgoing.contains_key(id)
                && !self.incoming.contains_key(id)
        &&& forall|id: u128| #[trigger]
            self.outgoing.contains_key(id) ==> !self.incoming.contains_key(id)
    }

    /// Every peer in a table of connections is alive.
    pub open spec fn live(self) -> bool {
        &&& forall|id: u128| #[trigger] self.attempting.contains_key(id) ==> self.peers.contains(id)
        &&& forall|id: u128| #[trigger] self.outgoing.contains_key(id) ==> self.peers.contains(id)
        &&& forall|id: u128| #[trigger] self.incoming.contains_key(id) ==> self.peers.contains(id)
    }

    /// An address waits in the idle list, or one peer is on its way to it, or
    /// one peer that we connected is connected to it: never two of these.
    pub open spec fn apart(self) -> bool {
        &&& forall|i: int, j: int|
            0 <= i < j < self.idle.len() ==> (#[trigger] self.idle[i]).addr != (
            #[trigger] self.idle[j]).addr
        &&& forall|i: int, id: u128|
            0 <= i < self.idle.len() && self.attempting.contains_key(id) ==> (
            #[trigger] self.idle[i]).addr != (#[trigger] self.attempting[id]).addr
        &&& forall|i: int, id: u128|
            0 <= i < self.idle.len() && self.outgoing.contains_key(id) ==> (
            #[trigger] self.idle[i]).addr != (#[trigger] self.outgoing[id]).addr
        &&& forall|a: u128, b: u128|
            a != b && self.attempting.contains_key(a) && self.attempting.contains_key(b) ==> (
            #[trigger] self.attempting[a]).addr != (#[trigger] self.attempting[b]).addr
        &&& forall|a: u128, b: u128|
            a != b && self.outgoing.contains_key(a) && self.outgoing.contains_key(b) ==> (
            #[trigger] self.outgoing[a]).addr != (#[trigger] self.outgoing[b]).addr
        &&& forall|a: u128, b: u128|
            self.attempting.contains_key(a) && self.outgoing.contains_key(b) ==> (
            #[trigger] self.attempting[a]).addr != (#[trigger] self.outgoing[b]).addr
    }

    /// The tables are finite.
    pub open spec fn finite(self) -> bool {
        &&& self.peers.finite()
        &&& self.attempting.dom().finite()
        &&& self.outgoing.dom().finite()
        &&& self.incoming.dom().finite()
    }

    /// The invariants of the tables.
    pub open spec fn wf(self) -> bool {
        &&& self.finite()
        &&& self.disjoint()
        &&& self.live()
        &&& self.apart()
    }

    /// Whether as many connections are on their way as may be.
    pub open spec fn throttled(self) -> bool {
        self.attempting.len() >= self.limit
    }

    /// Whether no more connections are on their way than may be.
    pub open spec fn within_limit(self) -> bool {
        self.attempting.len() <= self.limit
    }

    /// The idle list with `info` at its end, unless its address waits there already.
    pub open spec fn idle_with(self, info: AddrInfo) -> Seq<AddrInfo> {
        if self.idle_has(info.addr) {
            self.idle
        } else {
            self.idle.push(info)
        }
    }

    /// Where `addr` waits in the idle list.
    pub open spec fn idle_index(self, addr: SocketAddress) -> int {
        choose|i: int| first_at(self.idle, addr, i)
    }

    /// What an event does to the tables, and what the controller does besides.
    pub open spec fn dispatch(self, event: Event) -> (Tables, Outcome) {
        match event {
            Event::BindError { addr, .. } => (self, Outcome::Stop { addr }),
            Event::InvalidState { .. } => (self, Outcome::Nothing),
            Event::Listening { .. } => (self, Outcome::Nothing),
            Event::Connected { id } => if self.peers.contains(id) {
                (self, Outcome::Send { id })
            } else {
                (self, Outcome::Unknown { id })
            },
            Event::OutAlive { id, remote_id, remote_label, remote_addr } => if self.attempting.contains_key(
            id) {
                (
                    Tables {
                        attempting: self.attempting.remove(id),
                        outgoing: self.outgoing.insert(
                            id,
                            ConnInfo { addr: remote_addr, id: remote_id, label: remote_label },
                        ),
                        ..self
                    },
                    Outcome::Nothing,
                )
            } else {
                (self, Outcome::Unknown { id })
            },
            Event::InAlive { id, remote_id, remote_label, remote_addr } => if self.peers.contains(
            id) {
                (
                    Tables {
                        incoming: self.incoming.insert(
                            id,
                            ConnInfo { addr: remote_addr, id: remote_id, label: remote_label },
                        ),
                        ..self
                    },
                    Outcome::Nothing,
                )
            } else {
                (self, Outcome::Unknown { id })
            },
            Event::ConnectionError { id, .. } => if self.attempting.contains_key(id) {
                (
                    Tables {
                        attempting: self.attempting.remove(id),
                        idle: self.idle_with(self.attempting[id]),
                        ..self
                    },
                    Outcome::Nothing,
                )
            } else {
                (self, Outcome::Unknown { id })
            },
            Event::Disconnected { id, addr } => if self.peers.contains(id) {
                (
                    Tables {
                        outgoing: self.outgoing.remove(id),
                        idle: self.idle_with(AddrInfo { addr, attempt: 0 }),
                        peers: self.peers.remove(id),
                        ..self
                    },
                    Outcome::Reap { id },
                )
            } else {
                (self, Outcome::Unknown { id })
            },
            Event::Terminated { id } => if self.peers.contains(id) {
                (
                    Tables {
                        incoming: self.incoming.remove(id),
                        peers: self.peers.remove(id),
                        ..self
                    },
                    Outcome::Reap { id },
                )
            } else {
                (self, Outcome::Unknown { id })
            },
        }
    }

    /// Whether an event is one that the tables can take without breaking their
    /// invariants: it comes from a peer that stands where the event says, with
    /// the address that the tables hold for it or one that they do not hold.
    pub open spec fn expects(self, event: Event) -> bool {
        match event {
            Event::OutAlive { id, remote_addr, .. } => self.attempting.contains_key(id) ==> {
                ||| self.attempting[id].addr == remote_addr
                ||| {
                    &&& !self.idle_has(remote_addr)
                    &&& !self.attempting_has(remote_addr)
                    &&& !self.outgoing_has(remote_addr, id)
                }
            },
            Event::InAlive { id, .. } => self.peers.contains(id) ==> {
                &&& !self.attempting.contains_key(id)
                &&& !self.outgoing.contains_key(id)
            },
            Event::Disconnected { id, addr } => self.peers.contains(id) ==> {
                &&& !self.attempting.contains_key(id)
                &&& !self.incoming.contains_key(id)
                &&& !self.attempting_has(addr)
                &&& !self.outgoing_has(addr, id)
            },
            Event::Terminated { id } => self.peers.contains(id) ==> {
                &&& !self.attempting.contains_key(id)
                &&& !self.outgoing.contains_key(id)
            },
            _ => true,
        }
    }

    /// The command that sends a new peer to `addr`: none while the limit is
    /// reached, none for an address that does not wait.
    pub open spec fn next_attempt(self, addr: SocketAddress) -> Option<CommandView> {
        if !self.throttled() && self.idle_has(addr) {
            Some(
                CommandView::Connect {
                    addr,
                    attempt: (self.idle[self.idle_index(addr)].attempt + 1) as i32,
                },
            )
        } else {
            None
        }
    }

    /// The tables after the peer `peer` was sent to `addr`: the address has
    /// left the idle list and the peer is on its way, with one attempt more.
    /// Nothing changes while the limit is reached or the address does not wait.
    pub open spec fn attempted(self, addr: SocketAddress, peer: u128) -> Tables {
        if !self.throttled() && self.idle_has(addr) {
            let at = self.idle_index(addr);
            Tables {
                peers: self.peers.insert(peer),
                idle: self.idle.remove(at),
                attempting: self.attempting.insert(
                    peer,
                    AddrInfo { addr, attempt: (self.idle[at].attempt + 1) as i32 },
                ),
                ..self
            }
        } else {
            self
        }
    }

    /// The tables after a reconnect tick that walked `addrs`, made the peer
    /// `fresh[i]` for `addrs[i]`, and got the command to it posted where
    /// `posted[i]` says so.
    pub open spec fn ticked(self, addrs: Seq<SocketAddress>, fresh: Seq<u128>, posted: Seq<bool>) -> Tables
        decreases addrs.len(),
    {
        if addrs.len() == 0 || fresh.len() == 0 || posted.len() == 0 {
            self
        } else {
            let next = if posted[0] {
                self.attempted(addrs[0], fresh[0])
            } else {
                self
            };
            next.ticked(addrs.drop_first(), fresh.drop_first(), posted.drop_first())
        }
    }
}

/// What holds of the idle list after an entry was added to it.
proof fn lemma_idle_with(s: Tables, info: AddrInfo)
    ensures
        forall|i: int|
            0 <= i < s.idle_with(info).len() ==> {
                ||| (i < s.idle.len() && (#[trigger] s.idle_with(info)[i]) == s.idle[i])
                ||| s.idle_with(info)[i] == info
            },
        s.idle_with(info).len() >= s.idle.len(),
        forall|i: int| 0 <= i < s.idle.len() ==> (#[trigger] s.idle_with(info)[i]) == s.idle[i],
        s.idle_has(info.addr) ==> s.idle_with(info) == s.idle,
        !s.idle_has(info.addr) ==> s.idle_with(info) == s.idle.push(info),
{
}

/// The invariants of the tables hold after every event that the tables expect.
pub proof fn lemma_dispatch_keeps_invariants(s: Tables, event: Event)
    requires
        s.wf(),
        s.expects(event),
    ensures
        s.dispatch(event).0.wf(),
        s.dispatch(event).0.limit == s.limit,
        s.within_limit() ==> s.dispatch(event).0.within_limit(),
{
    let t = s.dispatch(event).0;
    match event {
        Event::OutAlive { id, remote_id, remote_label, remote_addr } => {
            if s.attempting.contains_key(id) {
                assert(t.disjoint());
                assert(t.live());
                assert(t.apart());
            }
        },
        Event::InAlive { id, .. } => {
            if s.peers.contains(id) {
                assert(t.disjoint());
                assert(t.live());
                assert(t.apart());
            }
        },
        Event::ConnectionError { id, .. } => {
            if s.attempting.contains_key(id) {
                lemma_idle_with(s, s.attempting[id]);
                assert(!s.idle_has(s.attempting[id].addr)) by {
                    if s.idle_has(s.attempting[id].addr) {
                        let i = s.idle_index(s.attempting[id].addr);
                        assert(s.idle[i].addr != s.attempting[id].addr);
                    }
                }
                assert(t.disjoint());
                assert(t.live());
                assert(t.apart());
            }
        },
        Event::Disconnected { id, addr } => {
            if s.peers.contains(id) {
                lemma_idle_with(s, AddrInfo { addr, attempt: 0 });
                assert(t.disjoint());
                assert(t.live());
                assert(t.apart());
            }
        },
        Event::Terminated { id } => {
            if s.peers.contains(id) {
                assert(t.disjoint());
                assert(t.live());
                assert(t.apart());
            }
        },
        _ => {},
    }
}

/// An address that waits has a first place, and the tables find it.
proof fn lemma_idle_index(s: Tables, addr: SocketAddress)
    requires
        s.idle_has(addr),
    ensures
        first_at(s.idle, addr, s.idle_index(addr)),
{
    let k = choose|k: int| 0 <= k < s.idle.len() && (#[trigger] s.idle[k]).addr == addr;
    lemma_first_exists(s.idle, addr, k);
}

/// An address that waits at `k` has a first place at or before `k`.
proof fn lemma_first_exists(idle: Seq<AddrInfo>, addr: SocketAddress, k: int)
    requires
        0 <= k < idle.len(),
        idle[k].addr == addr,
    ensures
        exists|i: int| first_at(idle, addr, i),
    decreases k,
{
    if exists|j: int| 0 <= j < k && (#[trigger] idle[j]).addr == addr {
        let j = choose|j: int| 0 <= j < k && (#[trigger] idle[j]).addr == addr;
        lemma_first_exists(idle, addr, j);
    } else {
        assert(first_at(idle, addr, k));
    }
}

/// Sending a new peer to an address keeps the invariants of the tables, and
/// keeps the connections on their way within the limit.
pub proof fn lemma_attempted_keeps_invariants(s: Tables, addr: SocketAddress, peer: u128)
    requires
        s.wf(),
        !s.peers.contains(peer),
    ensures
        s.attempted(addr, peer).wf(),
        s.within_limit() ==> s.attempted(addr, peer).within_limit(),
        s.attempted(addr, peer).limit == s.limit,
        forall|p: u128| s.attempted(addr, peer).peers.contains(p) ==> p == peer || s.peers.contains(p),
{
    let t = s.attempted(addr, peer);
    if !s.throttled() && s.idle_has(addr) {
        lemma_idle_index(s, addr);
        let at = s.idle_index(addr);
        assert(!s.attempting.contains_key(peer));
        assert(!s.outgoing.contains_key(peer));
        assert(!s.incoming.contains_key(peer));
        assert forall|i: int| 0 <= i < t.idle.len() implies (#[trigger] t.idle[i]).addr != addr by {
            if i < at {
                assert(t.idle[i] == s.idle[i]);
            } else {
                assert(t.idle[i] == s.idle[i + 1]);
            }
        }
        assert forall|i: int| 0 <= i < t.idle.len() implies exists|k: int|
            0 <= k < s.idle.len() && s.idle[k] == #[trigger] t.idle[i] by {
            if i < at {
                assert(t.idle[i] == s.idle[i]);
            } else {
                assert(t.idle[i] == s.idle[i + 1]);
            }
        }
        assert(t.disjoint());
        assert(t.live());
        assert(t.apart()) by {
            assert forall|i: int, j: int| 0 <= i < j < t.idle.len() implies (
            #[trigger] t.idle[i]).addr != (#[trigger] t.idle[j]).addr by {
                let a = if i < at { i } else { i + 1 };
                let b = if j < at { j } else { j + 1 };
                assert(t.idle[i] == s.idle[a]);
                assert(t.idle[j] == s.idle[b]);
            }
            assert forall|i: int, id: u128|
                0 <= i < t.idle.len() && t.attempting.contains_key(id) implies (
            #[trigger] t.idle[i]).addr != (#[trigger] t.attempting[id]).addr by {
                let a = if i < at { i } else { i + 1 };
                assert(t.idle[i] == s.idle[a]);
                if id != peer {
                    assert(s.idle[a].addr != s.attempting[id].addr);
                }
            }
            assert forall|i: int, id: u128|
                0 <= i < t.idle.len() && t.outgoing.contains_key(id) implies (
            #[trigger] t.idle[i]).addr != (#[trigger] t.outgoing[id]).addr by {
                let a = if i < at { i } else { i + 1 };
                assert(t.idle[i] == s.idle[a]);
            }
            assert forall|a: u128, b: u128|
                a != b && t.attempting.contains_key(a) && t.attempting.contains_key(
                    b,
                ) implies (#[trigger] t.attempting[a]).addr != (#[trigger] t.attempting[b]).addr by {
                if a == peer {
                    assert(s.idle[at].addr != s.attempting[b].addr);
                } else if b == peer {
                    assert(s.idle[at].addr != s.attempting[a].addr);
                }
            }
            assert forall|a: u128, b: u128|
                t.attempting.contains_key(a) && t.outgoing.contains_key(b) implies (
            #[trigger] t.attempting[a]).addr != (#[trigger] t.outgoing[b]).addr by {
                if a == peer {
                    assert(s.idle[at].addr != s.outgoing[b].addr);
                }
            }
        }
    }
}

/// Whether the ids of `fresh` are new to the tables, and no two are the same.
pub open spec fn all_new(s: Tables, fresh: Seq<u128>) -> bool {
    &&& forall|i: int| 0 <= i < fresh.len() ==> !s.peers.contains(#[trigger] fresh[i])
    &&& forall|i: int, j: int| 0 <= i < j < fresh.len() ==> fresh[i] != fresh[j]
}

/// A reconnect tick keeps the invariants of the tables, and at its end no
/// more connections are on their way than may be.
pub proof fn lemma_tick_keeps_invariants(
    s: Tables,
    addrs: Seq<SocketAddress>,
    fresh: Seq<u128>,
    posted: Seq<bool>,
)
    requires
        s.wf(),
        all_new(s, fresh),
    ensures
        s.ticked(addrs, fresh, posted).wf(),
        s.within_limit() ==> s.ticked(addrs, fresh, posted).within_limit(),
        s.ticked(addrs, fresh, posted).limit == s.limit,
    decreases addrs.len(),
{
    if addrs.len() == 0 || fresh.len() == 0 || posted.len() == 0 {
    } else {
        lemma_attempted_keeps_invariants(s, addrs[0], fresh[0]);
        let next = if posted[0] {
            s.attempted(addrs[0], fresh[0])
        } else {
            s
        };
        let rest = fresh.drop_first();
        assert forall|i: int| 0 <= i < rest.len() implies !next.peers.contains(
            #[trigger] rest[i],
        ) by {
            assert(rest[i] == fresh[i + 1]);
        }
        assert forall|i: int, j: int| 0 <= i < j < rest.len() implies rest[i] != rest[j] by {
            assert(rest[i] == fresh[i + 1]);
            assert(rest[j] == fresh[j + 1]);
        }
        lemma_tick_keeps_invariants(next, addrs.drop_first(), rest, posted.drop_first());
    }
}

/// At the limit, a reconnect tick sends no peer and leaves the tables as they are.
pub proof fn lemma_tick_at_limit(
    s: Tables,
    addrs: Seq<SocketAddress>,
    fresh: Seq<u128>,
    posted: Seq<bool>,
)
    requires
        s.throttled(),
    ensures
        s.ticked(addrs, fresh, posted) == s,
        forall|addr: SocketAddress| s.next_attempt(addr) is None,
    decreases addrs.len(),
{
    if addrs.len() == 0 || fresh.len() == 0 || posted.len() == 0 {
    } else {
        lemma_tick_at_limit(s, addrs.drop_first(), fresh.drop_first(), posted.drop_first());
    }
}

/// Once a peer that was sent to an address is alive, no tick sends another
/// peer there: the address waits no longer.
pub proof fn lemma_no_second_attempt(
    s: Tables,
    addr: SocketAddress,
    peer: u128,
    remote_id: u128,
    remote_label: String,
    other: u128,
)
    requires
        s.wf(),
        !s.peers.contains(peer),
        s.next_attempt(addr) is Some,
    ensures
        ({
            let alive = s.attempted(addr, peer).dispatch(
                Event::OutAlive { id: peer, remote_id, remote_label, remote_addr: addr },
            ).0;
            &&& alive.outgoing.contains_key(peer)
            &&& !alive.idle_has(addr)
            &&& alive.next_attempt(addr) is None
            &&& alive.attempted(addr, other) == alive
        }),
{
    let t = s.attempted(addr, peer);
    lemma_attempted_keeps_invariants(s, addr, peer);
    lemma_idle_index(s, addr);
    let at = s.idle_index(addr);
    assert forall|i: int| 0 <= i < t.idle.len() implies (#[trigger] t.idle[i]).addr != addr by {
        if i < at {
            assert(t.idle[i] == s.idle[i]);
        } else {
            assert(t.idle[i] == s.idle[i + 1]);
        }
    }
}

/// The idle list that a list of addresses seeds holds no address twice.
proof fn lemma_seeded_apart(addrs: Seq<SocketAddress>)
    ensures
        forall|i: int, j: int|
            0 <= i < j < seeded(addrs).len() ==> (#[trigger] seeded(addrs)[i]).addr != (
            #[trigger] seeded(addrs)[j]).addr,
    decreases addrs.len(),
{
    if addrs.len() > 0 {
        lemma_seeded_apart(addrs.drop_last());
    }
}

/// Why the controller could not go on.
#[derive(Debug)]
pub enum Error {
    /// An address is no address.
    InvalidAddr {
        /// Which address.
        detail: String,
    },
    /// The listener could not bind its address.
    Bind {
        /// The address.
        addr: SocketAddress,
        /// What happened.
        detail: String,
    },
    /// Too many connections are on their way.
    OutgoingConnAttemptLimit {
        /// What was asked.
        detail: String,
    },
    /// An event could not be handed to the controller.
    EventError {
        /// What happened.
        detail: String,
    },
    /// A command could not be handed to a peer.
    CommandError {
        /// What happened.
        detail: String,
    },
    /// The roster holds no peer with this id.
    UnknownId {
        /// The id.
        id: u128,
        /// Where it was looked for.
        detail: String,
    },
    /// Reading a file failed.
    IO {
        /// What the system reported.
        detail: String,
    },
    /// The file of initial peers is no list of addresses.
    InvalidPeerFile {
        /// What the reader reported.
        detail: String,
    },
}

impl Error {
    /// The heading of the error, before its detail.
    pub open spec fn heading(&self) -> Seq<char> {
        match self {
            Error::InvalidAddr { .. } => "Invalid Network Address: "@,
            Error::Bind { .. } => "Cannot Bind Socket Address => "@,
            Error::OutgoingConnAttemptLimit { .. } => "Too many connection attempts => "@,
            Error::EventError { .. } => "Could not send event to controller "@,
            Error::CommandError { .. } => "Could not send command to peer "@,
            Error::UnknownId { .. } => "Peer could not be found => "@,
            Error::IO { .. } => "IO Error => "@,
            Error::InvalidPeerFile { .. } => "Invalid peer file content (Json Array of string) "@,
        }
    }

    /// The detail that the error carries.
    pub open spec fn detail(&self) -> Seq<char> {
        match self {
            Error::InvalidAddr { detail } => detail@,
            Error::Bind { detail, .. } => detail@,
            Error::OutgoingConnAttemptLimit { detail } => detail@,
            Error::EventError { detail } => detail@,
            Error::CommandError { detail } => detail@,
            Error::UnknownId { detail, .. } => detail@,
            Error::IO { detail } => detail@,
            Error::InvalidPeerFile { detail } => detail@,
        }
    }

    /// The error as a line of text: its heading, then its detail.
    pub fn to_string(&self) -> (r: String)
        ensures
            r@ == self.heading() + self.detail(),
    {
        let (heading, detail) = match self {
            Error::InvalidAddr { detail } => ("Invalid Network Address: ", detail),
            Error::Bind { detail, .. } => ("Cannot Bind Socket Address => ", detail),
            Error::OutgoingConnAttemptLimit { detail } => (
                "Too many connection attempts => ",
                detail,
            ),
            Error::EventError { detail } => ("Could not send event to controller ", detail),
            Error::CommandError { detail } => ("Could not send command to peer ", detail),
            Error::UnknownId { detail, .. } => ("Peer could not be found => ", detail),
            Error::IO { detail } => ("IO Error => ", detail),
            Error::InvalidPeerFile { detail } => (
                "Invalid peer file content (Json Array of string) ",
                detail,
            ),
        };
        let mut text = String::from_str(heading);
        text.append(detail.as_str());
        text
    }
}

/// What the controller is to do after an event.
#[derive(Debug)]
pub enum Reaction {
    /// Nothing.
    Nothing,
    /// Hand a command to a peer.
    Send {
        /// The peer.
        id: u128,
        /// The command.
        command: Command,
    },
    /// End the task of a peer, which has left the roster.
    Reap {
        /// The peer.
        id: u128,
    },
}

/// Whether `r` is what the controller answers for `outcome`.
pub open spec fn answers(r: Result<Reaction, Error>, outcome: Outcome) -> bool {
    match outcome {
        Outcome::Nothing => r matches Ok(Reaction::Nothing),
        Outcome::Send { id } => r matches Ok(Reaction::Send { id: to, command }) && to == id
            && command@ == CommandView::SendConnRequest,
        Outcome::Reap { id } => r matches Ok(Reaction::Reap { id: gone }) && gone == id,
        Outcome::Unknown { id } => r matches Err(Error::UnknownId { id: asked, detail }) && asked
            == id && detail@ == "Controller | Could not find id in peer table."@,
        Outcome::Stop { addr } => r matches Err(Error::Bind { addr: at, detail }) && at == addr
            && detail@ == "Network controller cannot bind to addr"@,
    }
}

impl IdleState {
    /// The first place at which `addr` waits.
    pub fn position(&self, addr: SocketAddress) -> (r: Option<usize>)
        ensures
            match r {
                Some(i) => first_at(self.addrs@, addr, i as int),
                None => absent(self.addrs@, addr),
            },
    {
        let mut i: usize = 0;
        while i < self.addrs.len()
            invariant
                i <= self.addrs.len(),
                forall|j: int| 0 <= j < i ==> (#[trigger] self.addrs@[j]).addr != addr,
            decreases self.addrs.len() - i,
        {
            if self.addrs[i].addr == addr {
                return Some(i);
            }
            i += 1;
        }
        None
    }

    /// Adds an address to the end of the list, unless it waits there already.
    /// Says whether it was added.
    pub fn insert(&mut self, info: AddrInfo) -> (r: bool)
        ensures
            r == absent(old(self).addrs@, info.addr),
            r ==> final(self).addrs@ == old(self).addrs@.push(info),
            !r ==> final(self).addrs@ == old(self).addrs@,
    {
        match self.position(info.addr) {
            Some(_) => false,
            None => {
                self.addrs.push(info);
                true
            },
        }
    }
}

/// The controller: who it is, how it is configured, and its tables.
#[derive(Debug)]
pub struct NetworkController {
    /// The id of the node in the network.
    pub id: u128,
    /// The label of the node, for people to read.
    pub label: String,
    /// The address on which the node listens.
    pub addr: SocketAddress,
    /// The configuration. It does not change.
    pub config: Controller,
    /// The ids of the peers that are alive.
    pub peers: HashSet<u128>,
    /// The connections that we opened.
    pub outgoing: OutgoingState,
    /// The connections that remotes opened.
    pub incoming: IncomingState,
    /// The addresses that we want to connect to.
    pub idle: IdleState,
}

impl View for NetworkController {
    type V = Tables;

    open spec fn view(&self) -> Tables {
        Tables {
            peers: self.peers@,
            idle: self.idle.addrs@,
            attempting: self.outgoing.attempting@,
            outgoing: self.outgoing.connected@,
            incoming: self.incoming.connected@,
            limit: self.config.outgoing.max_simultaneous_conn_attempts as int,
        }
    }
}

impl NetworkController {
    /// Whether only the tables of `self` differ from those of `before`.
    pub open spec fn same_node(&self, before: &NetworkController) -> bool {
        &&& self.id == before.id
        &&& self.label == before.label
        &&& self.addr == before.addr
        &&& self.config == before.config
    }

    /// A controller with a new id and empty tables.
    pub fn new(label: String, config: Controller, addr: SocketAddress) -> (r: NetworkController)
        ensures
            r.label == label,
            r.config == config,
            r.addr == addr,
            r@.wf(),
            r@.peers == Set::<u128>::empty(),
            r@.idle == Seq::<AddrInfo>::empty(),
            r@.attempting == Map::<u128, AddrInfo>::empty(),
            r@.outgoing == Map::<u128, ConnInfo>::empty(),
            r@.incoming == Map::<u128, ConnInfo>::empty(),
    {
        NetworkController::with_id(fresh_id(), label, config, addr)
    }

    /// A controller with the id `id` and empty tables.
    pub fn with_id(id: u128, label: String, config: Controller, addr: SocketAddress) -> (r:
        NetworkController)
        ensures
            r.id == id,
            r.label == label,
            r.config == config,
            r.addr == addr,
            r@.wf(),
            r@.peers == Set::<u128>::empty(),
            r@.idle == Seq::<AddrInfo>::empty(),
            r@.attempting == Map::<u128, AddrInfo>::empty(),
            r@.outgoing == Map::<u128, ConnInfo>::empty(),
            r@.incoming == Map::<u128, ConnInfo>::empty(),
    {
        broadcast use vstd::std_specs::hash::group_hash_axioms;

        NetworkController {
            id,
            label,
            addr,
            config,
            peers: HashSet::new(),
            outgoing: OutgoingState { attempting: HashMap::new(), connected: HashMap::new() },
            incoming: IncomingState { connected: HashMap::new() },
            idle: IdleState { addrs: Vec::new() },
        }
    }

    /// Seeds the idle list with the addresses of the initial peers: each
    /// address once, with no attempt made.
    pub fn initialize(&mut self, addrs: Vec<SocketAddress>)
        ensures
            final(self).same_node(old(self)),
            final(self)@ == (Tables { idle: seeded(addrs@), ..old(self)@ }),
            old(self)@.wf() && old(self)@.attempting.dom() == Set::<u128>::empty() && old(
                self,
            )@.outgoing.dom() == Set::<u128>::empty() ==> final(self)@.wf(),
    {
        proof {
            lemma_seeded_apart(addrs@);
        }
        let mut idle = IdleState { addrs: Vec::new() };
        let mut i: usize = 0;
        assert(addrs@.take(0) =~= Seq::<SocketAddress>::empty());
        while i < addrs.len()
            invariant
                i <= addrs.len(),
                idle.addrs@ == seeded(addrs@.take(i as int)),
            decreases addrs.len() - i,
        {
            assert(addrs@.take(i + 1).drop_last() =~= addrs@.take(i as int));
            idle.insert(AddrInfo { addr: addrs[i], attempt: 0 });
            i += 1;
        }
        assert(addrs@.take(i as int) =~= addrs@);
        self.idle = idle;
    }

    /// Takes a new peer into the roster: the one that serves a connection
    /// which a remote has just opened.
    pub fn register(&mut self, peer: u128)
        ensures
            final(self).same_node(old(self)),
            final(self)@ == (Tables { peers: old(self)@.peers.insert(peer), ..old(self)@ }),
            old(self)@.wf() ==> final(self)@.wf(),
    {
        broadcast use vstd::std_specs::hash::group_hash_axioms;

        self.peers.insert(peer);
    }

    /// Changes the tables as the event asks, and says what is to be done
    /// besides. An event that names a peer which the tables do not hold where
    /// the event needs it changes nothing and is answered with `UnknownId`;
    /// a listener that could not bind with `Bind`. The invariants of the
    /// tables outlast every event that the tables expect.
    pub fn handle_event(&mut self, event: Event) -> (r: Result<Reaction, Error>)
        ensures
            final(self).same_node(old(self)),
            final(self)@ == old(self)@.dispatch(event).0,
            answers(r, old(self)@.dispatch(event).1),
            old(self)@.wf() && old(self)@.expects(event) ==> final(self)@.wf(),
            old(self)@.wf() && old(self)@.expects(event) && old(self)@.within_limit()
                ==> final(self)@.within_limit(),
    {
        broadcast use vstd::std_specs::hash::group_hash_axioms;

        proof {
            if old(self)@.wf() && old(self)@.expects(event) {
                lemma_dispatch_keeps_invariants(old(self)@, event);
            }
        }
        match event {
            Event::BindError { addr, .. } => Err(
                Error::Bind {
                    addr,
                    detail: String::from_str("Network controller cannot bind to addr"),
                },
            ),
            Event::InvalidState { .. } => Ok(Reaction::Nothing),
            Event::Listening { .. } => Ok(Reaction::Nothing),
            Event::Connected { id } => {
                if self.peers.contains(&id) {
                    Ok(Reaction::Send { id, command: Command::SendConnRequest })
                } else {
                    Err(unknown(id))
                }
            },
            Event::OutAlive { id, remote_id, remote_label, remote_addr } => {
                match self.outgoing.attempting.remove(&id) {
                    Some(_) => {
                        self.outgoing.connected.insert(
                            id,
                            ConnInfo { addr: remote_addr, id: remote_id, label: remote_label },
                        );
                        Ok(Reaction::Nothing)
                    },
                    None => {
                        assert(self.outgoing.attempting@ =~= old(self).outgoing.attempting@);
                        Err(unknown(id))
                    },
                }
            },
            Event::InAlive { id, remote_id, remote_label, remote_addr } => {
                if self.peers.contains(&id) {
                    self.incoming.connected.insert(
                        id,
                        ConnInfo { addr: remote_addr, id: remote_id, label: remote_label },
                    );
                    Ok(Reaction::Nothing)
                } else {
                    Err(unknown(id))
                }
            },
            Event::ConnectionError { id, .. } => {
                match self.outgoing.attempting.remove(&id) {
                    Some(info) => {
                        proof {
                            lemma_idle_with(old(self)@, info);
                        }
                        self.idle.insert(info);
                        Ok(Reaction::Nothing)
                    },
                    None => {
                        assert(self.outgoing.attempting@ =~= old(self).outgoing.attempting@);
                        Err(unknown(id))
                    },
                }
            },
            Event::Disconnected { id, addr } => {
                if self.peers.contains(&id) {
                    proof {
                        lemma_idle_with(old(self)@, AddrInfo { addr, attempt: 0 });
                    }
                    self.outgoing.connected.remove(&id);
                    self.idle.insert(AddrInfo { addr, attempt: 0 });
                    self.peers.remove(&id);
                    Ok(Reaction::Reap { id })
                } else {
                    Err(unknown(id))
                }
            },
            Event::Terminated { id } => {
                if self.peers.contains(&id) {
                    self.incoming.connected.remove(&id);
                    self.peers.remove(&id);
                    Ok(Reaction::Reap { id })
                } else {
                    Err(unknown(id))
                }
            },
        }
    }
}

/// The error that reports that the roster holds no peer with the id `id`.
fn unknown(id: u128) -> (r: Error)
    ensures
        r matches Error::UnknownId { id: asked, detail } && asked == id && detail@
            == "Controller | Could not find id in peer table."@,
{
    Error::UnknownId {
        id,
        detail: String::from_str("Controller | Could not find id in peer table."),
    }
}

/// The first place at which an address waits is one place.
proof fn lemma_first_unique(idle: Seq<AddrInfo>, addr: SocketAddress, i: int, j: int)
    requires
        first_at(idle, addr, i),
        first_at(idle, addr, j),
    ensures
        i == j,
{
    if j < i {
        assert(idle[j].addr != addr);
    }
    if i < j {
        assert(idle[i].addr != addr);
    }
}

/// The addresses of an idle list, in its order.
pub open spec fn addresses(idle: Seq<AddrInfo>) -> Seq<SocketAddress> {
    Seq::new(idle.len(), |i: int| idle[i].addr)
}

/// Whether every entry of an idle list can take one attempt more.
pub open spec fn can_count(idle: Seq<AddrInfo>) -> bool {
    forall|i: int| 0 <= i < idle.len() ==> (#[trigger] idle[i]).attempt < i32::MAX
}

/// The peers that a reconnect tick sends, each with its command, in the order
/// of the walk.
pub open spec fn tick_commands(
    s: Tables,
    addrs: Seq<SocketAddress>,
    fresh: Seq<u128>,
    posted: Seq<bool>,
) -> Seq<(u128, CommandView)>
    decreases addrs.len(),
{
    if addrs.len() == 0 || fresh.len() == 0 || posted.len() == 0 {
        Seq::empty()
    } else {
        let next = if posted[0] {
            s.attempted(addrs[0], fresh[0])
        } else {
            s
        };
        let rest = tick_commands(next, addrs.drop_first(), fresh.drop_first(), posted.drop_first());
        if posted[0] && s.next_attempt(addrs[0]) is Some {
            seq![(fresh[0], s.next_attempt(addrs[0])->Some_0)] + rest
        } else {
            rest
        }
    }
}

/// The commands of a list, each by its view.
pub open spec fn command_views(commands: Seq<(u128, Command)>) -> Seq<(u128, CommandView)> {
    Seq::new(commands.len(), |i: int| (commands[i].0, commands[i].1@))
}

/// The remotes of a table, in some order: each entry once. That is, the list
/// is the table read off along some order of its ids.
pub open spec fn lists(list: Seq<ConnInfo>, table: Map<u128, ConnInfo>) -> bool {
    exists|ids: Seq<u128>| read_along(list, table, ids)
}

/// Whether `list` is `table` read off along `ids`, which names each id of the
/// table once.
pub open spec fn read_along(list: Seq<ConnInfo>, table: Map<u128, ConnInfo>, ids: Seq<u128>) -> bool {
    &&& ids.len() == list.len()
    &&& ids.len() == table.dom().len()
    &&& ids.no_duplicates()
    &&& forall|i: int|
        0 <= i < ids.len() ==> table.contains_key(#[trigger] ids[i]) && table[ids[i]] == list[i]
}

/// The remotes of a table, as a list.
fn listed(table: &HashMap<u128, ConnInfo>) -> (r: Vec<ConnInfo>)
    ensures
        lists(r@, table@),
{
    broadcast use vstd::std_specs::hash::group_hash_axioms;

    let mut out: Vec<ConnInfo> = Vec::new();
    let it = table.iter();
    let ghost all = it.remaining();
    assert(all.no_duplicates());
    for pair in iter: it
        invariant
            iter.seq() == all,
            out@.len() == iter.index(),
            forall|i: int| 0 <= i < out@.len() ==> out@[i] == *all[i].1,
    {
        let (_, info) = pair;
        out.push(info.clone());
    }
    proof {
        let ids = Seq::new(all.len(), |i: int| *all[i].0);
        assert forall|i: int, j: int| 0 <= i < ids.len() && 0 <= j < ids.len() && i != j implies ids[i]
            != ids[j] by {
            if ids[i] == ids[j] {
                assert(table@[*all[i].0] == *all[i].1);
                assert(table@[*all[j].0] == *all[j].1);
                assert(all[i] == all[j]);
            }
        }
        assert(read_along(out@, table@, ids));
    }
    out
}

impl NetworkController {
    /// Whether as many connections are on their way as may be.
    pub fn throttled(&self) -> (r: bool)
        ensures
            r == self@.throttled(),
    {
        broadcast use vstd::std_specs::hash::group_hash_axioms;

        let limit = self.config.outgoing.max_simultaneous_conn_attempts;
        limit < 0 || self.outgoing.attempting.len() >= limit as usize
    }

    /// The command that sends a new peer to `addr`, with one attempt more
    /// than the idle list counts: none while the limit is reached, none for
    /// an address that does not wait.
    pub fn next_attempt(&self, addr: SocketAddress) -> (r: Option<Command>)
        requires
            can_count(self@.idle),
        ensures
            match self@.next_attempt(addr) {
                Some(command) => r matches Some(found) && found@ == command,
                None => r is None,
            },
    {
        if self.throttled() {
            return None;
        }
        match self.idle.position(addr) {
            Some(i) => {
                proof {
                    lemma_idle_index(self@, addr);
                    lemma_first_unique(self@.idle, addr, i as int, self@.idle_index(addr));
                }
                Some(Command::Connect { addr, attempt: self.idle.addrs[i].attempt + 1 })
            },
            None => None,
        }
    }

    /// Records that the peer `peer` was sent to `addr`: the address leaves
    /// the idle list, the peer joins the roster and is on its way, with one
    /// attempt more. Nothing changes while the limit is reached or the
    /// address does not wait. The invariants of the tables outlast the call
    /// where the peer is new to the roster.
    pub fn attempted(&mut self, addr: SocketAddress, peer: u128)
        requires
            can_count(old(self)@.idle),
        ensures
            final(self).same_node(old(self)),
            final(self)@ == old(self)@.attempted(addr, peer),
            can_count(final(self)@.idle),
            old(self)@.wf() && !old(self)@.peers.contains(peer) ==> final(self)@.wf(),
            old(self)@.wf() && !old(self)@.peers.contains(peer) && old(self)@.within_limit()
                ==> final(self)@.within_limit(),
    {
        broadcast use vstd::std_specs::hash::group_hash_axioms;

        proof {
            if old(self)@.wf() && !old(self)@.peers.contains(peer) {
                lemma_attempted_keeps_invariants(old(self)@, addr, peer);
            }
        }
        if self.throttled() {
            return ;
        }
        match self.idle.position(addr) {
            Some(i) => {
                proof {
                    lemma_idle_index(self@, addr);
                    lemma_first_unique(self@.idle, addr, i as int, self@.idle_index(addr));
                }
                let info = self.idle.addrs.remove(i);
                self.peers.insert(peer);
                self.outgoing.attempting.insert(
                    peer,
                    AddrInfo { addr, attempt: info.attempt + 1 },
                );
                assert forall|k: int| 0 <= k < self.idle.addrs@.len() implies (
                #[trigger] self.idle.addrs@[k]).attempt < i32::MAX by {
                    if k < i {
                        assert(self.idle.addrs@[k] == old(self).idle.addrs@[k]);
                    } else {
                        assert(self.idle.addrs@[k] == old(self).idle.addrs@[k + 1]);
                    }
                }
            },
            None => {},
        }
    }

    /// One reconnect tick, for every outcome of its outside work: walks the
    /// idle list as it stands at the start; for the address at place `i`, the
    /// new peer is `fresh[i]`, and `posted[i]` says whether the command to
    /// connect reached it. An address whose command was posted leaves the
    /// idle list, unless the limit was reached by then; every other address
    /// stays. Hands out the commands that were posted, each with its peer.
    pub fn tick(&mut self, fresh: &Vec<u128>, posted: &Vec<bool>) -> (r: Vec<(u128, Command)>)
        requires
            can_count(old(self)@.idle),
        ensures
            final(self).same_node(old(self)),
            final(self)@ == old(self)@.ticked(addresses(old(self)@.idle), fresh@, posted@),
            command_views(r@) == tick_commands(
                old(self)@,
                addresses(old(self)@.idle),
                fresh@,
                posted@,
            ),
            old(self)@.wf() && all_new(old(self)@, fresh@) ==> final(self)@.wf(),
            old(self)@.wf() && all_new(old(self)@, fresh@) && old(self)@.within_limit()
                ==> final(self)@.within_limit(),
            old(self)@.throttled() ==> final(self)@ == old(self)@ && r@.len() == 0,
    {
        let ghost start = self@;
        let ghost addrs = addresses(self@.idle);
        proof {
            if start.wf() && all_new(start, fresh@) {
                lemma_tick_keeps_invariants(start, addrs, fresh@, posted@);
            }
            if start.throttled() {
                lemma_tick_at_limit(start, addrs, fresh@, posted@);
                lemma_tick_commands_at_limit(start, addrs, fresh@, posted@);
            }
        }
        let mut walk: Vec<SocketAddress> = Vec::new();
        let mut k: usize = 0;
        while k < self.idle.addrs.len()
            invariant
                k <= self.idle.addrs.len(),
                walk@.len() == k,
                forall|j: int| 0 <= j < k ==> walk@[j] == (#[trigger] self.idle.addrs@[j]).addr,
            decreases self.idle.addrs.len() - k,
        {
            walk.push(self.idle.addrs[k].addr);
            k += 1;
        }
        assert(walk@ =~= addrs);
        let mut out: Vec<(u128, Command)> = Vec::new();
        let mut i: usize = 0;
        assert(walk@.skip(0) =~= walk@);
        assert(fresh@.skip(0) =~= fresh@);
        assert(posted@.skip(0) =~= posted@);
        assert(command_views(out@) + tick_commands(self@, walk@, fresh@, posted@)
            =~= tick_commands(start, addrs, fresh@, posted@));
        while i < walk.len() && i < fresh.len() && i < posted.len()
            invariant
                i <= walk.len(),
                i <= fresh.len(),
                i <= posted.len(),
                walk@ == addrs,
                self.same_node(old(self)),
                can_count(self@.idle),
                self@.ticked(walk@.skip(i as int), fresh@.skip(i as int), posted@.skip(i as int))
                    == start.ticked(addrs, fresh@, posted@),
                command_views(out@) + tick_commands(
                    self@,
                    walk@.skip(i as int),
                    fresh@.skip(i as int),
                    posted@.skip(i as int),
                ) == tick_commands(start, addrs, fresh@, posted@),
            decreases walk.len() - i,
        {
            let ghost before = self@;
            let ghost sent = command_views(out@);
            proof {
                assert(walk@.skip(i as int).drop_first() =~= walk@.skip(i + 1));
                assert(fresh@.skip(i as int).drop_first() =~= fresh@.skip(i + 1));
                assert(posted@.skip(i as int).drop_first() =~= posted@.skip(i + 1));
            }
            if posted[i] {
                let command = self.next_attempt(walk[i]);
                self.attempted(walk[i], fresh[i]);
                match command {
                    Some(command) => {
                        proof {
                            let rest = tick_commands(
                                self@,
                                walk@.skip(i + 1),
                                fresh@.skip(i + 1),
                                posted@.skip(i + 1),
                            );
                            assert(command_views(out@.push((fresh[i as int], command)))
                                =~= sent + seq![(fresh[i as int], command@)]);
                            assert((sent + seq![(fresh[i as int], command@)]) + rest =~= sent + (
                            seq![(fresh[i as int], command@)] + rest));
                        }
                        out.push((fresh[i], command));
                    },
                    None => {},
                }
            }
            i += 1;
        }
        assert(command_views(out@) + Seq::<(u128, CommandView)>::empty() =~= command_views(out@));
        out
    }

    /// What the status loop reports: the controller itself, and the remotes
    /// of the connections whose handshake is done, in some order.
    pub fn summary(&self) -> (r: Summary)
        ensures
            r.controller == (ConnInfo { addr: self.addr, id: self.id, label: self.label }),
            lists(r.incoming@, self@.incoming),
            lists(r.outgoing@, self@.outgoing),
    {
        Summary {
            controller: ConnInfo { addr: self.addr, id: self.id, label: self.label.clone() },
            incoming: listed(&self.incoming.connected),
            outgoing: listed(&self.outgoing.connected),
        }
    }
}

/// At the limit, a reconnect tick posts no command.
proof fn lemma_tick_commands_at_limit(
    s: Tables,
    addrs: Seq<SocketAddress>,
    fresh: Seq<u128>,
    posted: Seq<bool>,
)
    requires
        s.throttled(),
    ensures
        tick_commands(s, addrs, fresh, posted) == Seq::<(u128, CommandView)>::empty(),
    decreases addrs.len(),
{
    if addrs.len() == 0 || fresh.len() == 0 || posted.len() == 0 {
    } else {
        lemma_tick_commands_at_limit(s, addrs.drop_first(), fresh.drop_first(), posted.drop_first());
    }
}

} // verus!
