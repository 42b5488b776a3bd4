//! The node: its identity, the canonical peer registry, and the producer
//! half of the event channel, with the swarm-driver decision logic.

use vstd::prelude::*;

use crate::event::NetworkStatus;
use crate::event::P2PEvent;
use crate::event::SwarmInput;
use crate::event::events_for;
use crate::event::models_of_events;
use crate::event::network_status_of;
use crate::event::peers_after;
use crate::event::render_discovered_text;
use crate::event::render_expired_text;
use crate::event::render_listen_text;
use crate::event::render_started_text;
use crate::event::snapshot_of;
use crate::event::start_events_model;
use crate::event::status_consistent;
use crate::ext::generate_identity;
use crate::ext::is_valid_multiaddr;
use crate::ext::multiaddr_ok;
use crate::ext::new_event_channel;
use crate::ext::now_hms;
use crate::ext::send_event;
use crate::peer::Peer;
use crate::peer::PeerModel;
use crate::peer::PeerStatus;
use crate::peer::add_or_update_peer;
use crate::peer::count_status;
use crate::peer::count_with_status;
use crate::peer::distinct_ids;
use crate::peer::find_peer;
use crate::peer::models_of;

verus! {

/// What can go wrong while the node publishes events.
#[derive(Debug, Clone, Copy, PartialEq, Eq, Structural)]
pub enum P2PError {
    /// The consumer half of the event channel is gone; the event loop
    /// takes this as its shutdown signal.
    ChannelClosed,
}

/// A peer-to-peer node. It owns the registry exclusively: only the swarm
/// driver mutates it, and every mutation is followed by the events it owes.
pub struct RealP2PNode {
    keypair: libp2p::identity::Keypair,
    pub event_sender: tokio::sync::mpsc::UnboundedSender<P2PEvent>,
    is_running: bool,
    peers: Vec<Peer>,
    local_peer_id: String,
}

/// The historical name of the node type.
pub type P2PNode = RealP2PNode;

impl RealP2PNode {
    /// The registry, abstracted entry by entry.
    pub closed spec fn peers_model(&self) -> Seq<PeerModel> {
        models_of(self.peers@)
    }

    /// The node's own peer id.
    pub closed spec fn local_id(&self) -> Seq<char> {
        self.local_peer_id@
    }

    /// Whether the node was started.
    pub closed spec fn running(&self) -> bool {
        self.is_running
    }

    /// Registry well-formedness: no two entries share a peer id.
    pub open spec fn wf(&self) -> bool {
        distinct_ids(self.peers_model())
    }

    /// Create a node with a fresh identity, an empty registry, and a new
    /// event channel whose consumer half is handed back to the caller.
    pub fn new() -> (r: (RealP2PNode, tokio::sync::mpsc::UnboundedReceiver<P2PEvent>))
        ensures
            r.0.wf(),
            r.0.peers_model() == Seq::<PeerModel>::empty(),
            !r.0.running(),
            r.0.local_id().len() > 0,
    {
        let (keypair, local_peer_id) = generate_identity();
        let (event_sender, event_receiver) = new_event_channel();
        let node = RealP2PNode {
            keypair,
            event_sender,
            is_running: false,
            peers: Vec::new(),
            local_peer_id,
        };
        proof {
            assert(node.peers_model() =~= Seq::<PeerModel>::empty());
        }
        (node, event_receiver)
    }

    /// The identity keypair, for assembling the authenticated transport
    /// around this node.
    pub fn keypair(&self) -> &libp2p::identity::Keypair {
        &self.keypair
    }

    /// The node's own peer id, as text.
    pub fn local_peer_id(&self) -> (r: &String)
        ensures
            r@ == self.local_id(),
    {
        &self.local_peer_id
    }

    /// Whether the node was started.
    pub fn is_running(&self) -> (r: bool)
        ensures
            r == self.running(),
    {
        self.is_running
    }

    /// How many peers are currently connected.
    pub fn get_peer_count(&self) -> (r: usize)
        ensures
            r == count_status(self.peers_model(), PeerStatus::Connected),
    {
        count_with_status(&self.peers, PeerStatus::Connected)
    }

    /// A fresh, internally consistent snapshot of the network view.
    pub fn network_status(&self) -> (r: NetworkStatus)
        ensures
            r@ == snapshot_of(self.peers_model(), self.local_id()),
            status_consistent(r@),
    {
        network_status_of(&self.peers, &self.local_peer_id)
    }

    /// The events that starting the node publishes, in order: a status
    /// line naming the local id, then a snapshot of the (empty) registry.
    pub fn start_events(&self) -> (out: Vec<P2PEvent>)
        ensures
            models_of_events(out@) == start_events_model(self.peers_model(), self.local_id()),
    {
        let mut out: Vec<P2PEvent> = Vec::new();
        out.push(P2PEvent::StatusUpdate { status_text: render_started_text(&self.local_peer_id) });
        out.push(P2PEvent::NetworkStatusUpdate { status: self.network_status() });
        proof {
            assert(models_of_events(out@) =~~= start_events_model(
                self.peers_model(),
                self.local_id(),
            ));
        }
        out
    }

    /// Send each event in order; stop at the first failure, which means the
    /// consumer is gone. With nothing to send, nothing can fail.
    fn emit_events(&self, events: Vec<P2PEvent>) -> (r: Result<(), P2PError>)
        ensures
            events@.len() == 0 ==> r is Ok,
    {
        let mut pending = events;
        while pending.len() > 0
            invariant
                events@.len() == 0 ==> pending@.len() == 0,
            decreases pending@.len(),
        {
            let event = pending.remove(0);
            if !send_event(&self.event_sender, event) {
                return Err(P2PError::ChannelClosed);
            }
        }
        Ok(())
    }

    /// Mark the node running and publish the start events. The state is
    /// updated even when the channel is already closed.
    pub fn start(&mut self) -> (r: Result<(), P2PError>)
        requires
            old(self).wf(),
        ensures
            final(self).wf(),
            final(self).running(),
            final(self).peers_model() == old(self).peers_model(),
            final(self).local_id() == old(self).local_id(),
    {
        self.is_running = true;
        let events = self.start_events();
        self.emit_events(events)
    }

    /// Apply one swarm input: mutate the registry by the lifecycle rules
    /// and return exactly the events it owes, in order.
    pub fn handle_swarm_input(&mut self, input: &SwarmInput, now: &String) -> (out: Vec<P2PEvent>)
        requires
            old(self).wf(),
        ensures
            final(self).wf(),
            final(self).peers_model() == peers_after(old(self).peers_model(), input@, now@),
            models_of_events(out@) == events_for(
                old(self).peers_model(),
                old(self).local_id(),
                input@,
                now@,
            ),
            final(self).local_id() == old(self).local_id(),
            final(self).running() == old(self).running(),
    {
        let ghost m0 = self.peers_model();
        let ghost local = self.local_id();
        match input {
            SwarmInput::NewListenAddr { address } => {
                let mut out: Vec<P2PEvent> = Vec::new();
                out.push(P2PEvent::StatusUpdate { status_text: render_listen_text(address) });
                proof {
                    assert(models_of_events(out@) =~~= events_for(m0, local, input@, now@));
                }
                out
            },
            SwarmInput::ConnectionEstablished { peer_id } => {
                add_or_update_peer(&mut self.peers, peer_id, PeerStatus::Connected, now);
                let mut out: Vec<P2PEvent> = Vec::new();
                out.push(P2PEvent::PeerConnected { peer_id: peer_id.clone() });
                out.push(P2PEvent::NetworkStatusUpdate { status: self.network_status() });
                proof {
                    assert(models_of_events(out@) =~~= events_for(m0, local, input@, now@));
                }
                out
            },
            SwarmInput::ConnectionClosed { peer_id } => {
                add_or_update_peer(&mut self.peers, peer_id, PeerStatus::Disconnected, now);
                let mut out: Vec<P2PEvent> = Vec::new();
                out.push(P2PEvent::PeerDisconnected { peer_id: peer_id.clone() });
                out.push(P2PEvent::NetworkStatusUpdate { status: self.network_status() });
                proof {
                    assert(models_of_events(out@) =~~= events_for(m0, local, input@, now@));
                }
                out
            },
            SwarmInput::PeerDiscovered { peer_id } => {
                let keep_connected = match find_peer(&self.peers, peer_id) {
                    Some(i) => {
                        proof {
                            assert(m0[i as int] == self.peers@[i as int]@);
                        }
                        self.peers[i].status == PeerStatus::Connected
                    },
                    None => false,
                };
                if !keep_connected {
                    add_or_update_peer(&mut self.peers, peer_id, PeerStatus::Discovered, now);
                }
                let mut out: Vec<P2PEvent> = Vec::new();
                out.push(P2PEvent::StatusUpdate { status_text: render_discovered_text(peer_id) });
                out.push(P2PEvent::NetworkStatusUpdate { status: self.network_status() });
                proof {
                    assert(models_of_events(out@) =~~= events_for(m0, local, input@, now@));
                }
                out
            },
            SwarmInput::PeerExpired { peer_id } => {
                add_or_update_peer(&mut self.peers, peer_id, PeerStatus::Disconnected, now);
                let mut out: Vec<P2PEvent> = Vec::new();
                out.push(P2PEvent::StatusUpdate { status_text: render_expired_text(peer_id) });
                out.push(P2PEvent::NetworkStatusUpdate { status: self.network_status() });
                proof {
                    assert(models_of_events(out@) =~~= events_for(m0, local, input@, now@));
                }
                out
            },
            SwarmInput::DhtBootstrapCompleted => {
                let mut out: Vec<P2PEvent> = Vec::new();
                out.push(P2PEvent::StatusUpdate {
                    status_text: String::from_str("DHT bootstrap completed"),
                });
                proof {
                    assert(models_of_events(out@) =~~= events_for(m0, local, input@, now@));
                }
                out
            },
            SwarmInput::DhtBootstrapFailed => {
                let mut out: Vec<P2PEvent> = Vec::new();
                out.push(P2PEvent::StatusUpdate {
                    status_text: String::from_str("DHT bootstrap failed; no seed peers reachable"),
                });
                proof {
                    assert(models_of_events(out@) =~~= events_for(m0, local, input@, now@));
                }
                out
            },
            SwarmInput::IdentifyObserved { .. } => {
                let out: Vec<P2PEvent> = Vec::new();
                proof {
                    assert(models_of_events(out@) =~~= events_for(m0, local, input@, now@));
                }
                out
            },
            SwarmInput::LivenessObserved { .. } => {
                let out: Vec<P2PEvent> = Vec::new();
                proof {
                    assert(models_of_events(out@) =~~= events_for(m0, local, input@, now@));
                }
                out
            },
        }
    }

    /// Apply one swarm input stamped with the current clock and publish its
    /// events. The registry is updated before any event goes out, so a
    /// closed channel never loses a state transition. Observe-only inputs
    /// owe no event, so they cannot fail.
    pub fn process_swarm_input(&mut self, input: &SwarmInput) -> (r: Result<(), P2PError>)
        requires
            old(self).wf(),
        ensures
            final(self).wf(),
            exists|now: Seq<char>|
                now.len() == 8 && final(self).peers_model() == #[trigger] peers_after(
                    old(self).peers_model(),
                    input@,
                    now,
                ),
            (input@ is IdentifyObserved || input@ is LivenessObserved) ==> r is Ok,
            final(self).local_id() == old(self).local_id(),
            final(self).running() == old(self).running(),
    {
        let now = now_hms();
        let events = self.handle_swarm_input(input, &now);
        proof {
            assert(self.peers_model() == peers_after(old(self).peers_model(), input@, now@));
            if input@ is IdentifyObserved || input@ is LivenessObserved {
                assert(models_of_events(events@).len() == 0);
                assert(events@.len() == 0);
            }
        }
        self.emit_events(events)
    }
}

/// The texts of a sequence of strings.
pub open spec fn texts_of(strings: Seq<String>) -> Seq<Seq<char>> {
    strings.map_values(|s: String| s@)
}

/// The seed addresses the multiaddress grammar accepts, in their given
/// order.
pub open spec fn valid_seeds(seeds: Seq<Seq<char>>) -> Seq<Seq<char>> {
    seeds.filter(|s: Seq<char>| multiaddr_ok(s))
}

/// Keep the well-formed bootstrap seed addresses, in order. Malformed
/// entries are skipped, never fatal.
pub fn select_bootstrap_addresses(seeds: &Vec<String>) -> (r: Vec<String>)
    ensures
        texts_of(r@) == valid_seeds(texts_of(seeds@)),
{
    let mut r: Vec<String> = Vec::new();
    let mut i: usize = 0;
    proof {
        reveal(Seq::filter);
        assert(texts_of(seeds@.take(0)) =~= Seq::<Seq<char>>::empty());
        assert(texts_of(r@) =~= valid_seeds(texts_of(seeds@.take(0))));
    }
    while i < seeds.len()
        invariant
            i <= seeds@.len(),
            texts_of(r@) == valid_seeds(texts_of(seeds@.take(i as int))),
        decreases seeds@.len() - i,
    {
        let ghost before = texts_of(r@);
        let valid = is_valid_multiaddr(&seeds[i]);
        if valid {
            r.push(seeds[i].clone());
        }
        proof {
            reveal(Seq::filter);
            let t = texts_of(seeds@.take(i + 1));
            assert(t.drop_last() =~= texts_of(seeds@.take(i as int)));
            assert(t.last() == seeds@[i as int]@);
            if valid {
                assert(texts_of(r@) =~= before.push(seeds@[i as int]@));
            } else {
                assert(texts_of(r@) =~= before);
            }
            assert(texts_of(r@) =~= valid_seeds(t));
        }
        i += 1;
    }
    proof {
        assert(seeds@.take(seeds@.len() as int) =~= seeds@);
    }
    r
}

} // verus!
