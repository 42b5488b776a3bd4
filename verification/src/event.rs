//! Application-facing events, network status snapshots, and the translation
//! rules from swarm inputs to registry mutations and emitted events.

use vstd::prelude::*;

use crate::peer::Peer;
use crate::peer::PeerModel;
use crate::peer::PeerStatus;
use crate::peer::apply_discovered;
use crate::peer::copy_peers;
use crate::peer::count_status;
use crate::peer::count_with_status;
use crate::peer::models_of;
use crate::peer::upsert;

verus! {

/// An immutable snapshot of the whole network view: the registry copy and
/// the counts derived from it.
#[derive(Debug, Clone)]
pub struct NetworkStatus {
    pub total_peers: usize,
    pub connected_peers: usize,
    pub discovered_peers: usize,
    pub peers: Vec<Peer>,
    pub local_peer_id: String,
}

/// Mathematical abstraction of a snapshot.
#[verifier::ext_equal]
pub struct NetworkStatusModel {
    pub total_peers: nat,
    pub connected_peers: nat,
    pub discovered_peers: nat,
    pub peers: Seq<PeerModel>,
    pub local_peer_id: Seq<char>,
}

impl View for NetworkStatus {
    type V = NetworkStatusModel;

    open spec fn view(&self) -> NetworkStatusModel {
        NetworkStatusModel {
            total_peers: self.total_peers as nat,
            connected_peers: self.connected_peers as nat,
            discovered_peers: self.discovered_peers as nat,
            peers: models_of(self.peers@),
            local_peer_id: self.local_peer_id@,
        }
    }
}

/// The snapshot that a registry state determines.
pub open spec fn snapshot_of(peers: Seq<PeerModel>, local: Seq<char>) -> NetworkStatusModel {
    NetworkStatusModel {
        total_peers: peers.len(),
        connected_peers: count_status(peers, PeerStatus::Connected),
        discovered_peers: count_status(peers, PeerStatus::Discovered),
        peers: peers,
        local_peer_id: local,
    }
}

/// A snapshot is internally consistent: each published count is the tally
/// over its own peer list.
pub open spec fn status_consistent(s: NetworkStatusModel) -> bool {
    &&& s.total_peers == s.peers.len()
    &&& s.connected_peers == count_status(s.peers, PeerStatus::Connected)
    &&& s.discovered_peers == count_status(s.peers, PeerStatus::Discovered)
}

/// An event delivered to the application over the event channel.
#[derive(Debug, Clone)]
pub enum P2PEvent {
    PeerConnected { peer_id: String },
    PeerDisconnected { peer_id: String },
    StatusUpdate { status_text: String },
    PeerCount { count: usize },
    NetworkStatusUpdate { status: NetworkStatus },
}

/// Mathematical abstraction of an application event.
#[verifier::ext_equal]
pub enum P2PEventModel {
    PeerConnected { peer_id: Seq<char> },
    PeerDisconnected { peer_id: Seq<char> },
    StatusUpdate { status_text: Seq<char> },
    PeerCount { count: nat },
    NetworkStatusUpdate { status: NetworkStatusModel },
}

impl View for P2PEvent {
    type V = P2PEventModel;

    open spec fn view(&self) -> P2PEventModel {
        match self {
            P2PEvent::PeerConnected { peer_id } => P2PEventModel::PeerConnected {
                peer_id: peer_id@,
            },
            P2PEvent::PeerDisconnected { peer_id } => P2PEventModel::PeerDisconnected {
                peer_id: peer_id@,
            },
            P2PEvent::StatusUpdate { status_text } => P2PEventModel::StatusUpdate {
                status_text: status_text@,
            },
            P2PEvent::PeerCount { count } => P2PEventModel::PeerCount { count: *count as nat },
            P2PEvent::NetworkStatusUpdate { status } => P2PEventModel::NetworkStatusUpdate {
                status: status@,
            },
        }
    }
}

/// The events of a sequence, abstracted one by one.
pub open spec fn models_of_events(evs: Seq<P2PEvent>) -> Seq<P2PEventModel> {
    evs.map_values(|e: P2PEvent| e@)
}

/// One event of the merged behaviour stream, reduced to plain values:
/// what the swarm driver decides on.
#[derive(Debug, Clone)]
pub enum SwarmInput {
    /// A listener was bound to the address.
    NewListenAddr { address: String },
    /// An authenticated connection to the peer was established.
    ConnectionEstablished { peer_id: String },
    /// The connection to the peer was closed.
    ConnectionClosed { peer_id: String },
    /// Local discovery saw the peer announce itself.
    PeerDiscovered { peer_id: String },
    /// The peer's discovery lease lapsed without renewal.
    PeerExpired { peer_id: String },
    /// The routing-table bootstrap finished.
    DhtBootstrapCompleted,
    /// The routing-table bootstrap failed; this is recoverable.
    DhtBootstrapFailed,
    /// The peer sent its identification metadata; observed only.
    IdentifyObserved { peer_id: String },
    /// A liveness probe to the peer completed; observed only.
    LivenessObserved { peer_id: String },
}

/// Mathematical abstraction of a swarm input.
#[verifier::ext_equal]
pub enum SwarmInputModel {
    NewListenAddr { address: Seq<char> },
    ConnectionEstablished { peer_id: Seq<char> },
    ConnectionClosed { peer_id: Seq<char> },
    PeerDiscovered { peer_id: Seq<char> },
    PeerExpired { peer_id: Seq<char> },
    DhtBootstrapCompleted,
    DhtBootstrapFailed,
    IdentifyObserved { peer_id: Seq<char> },
    LivenessObserved { peer_id: Seq<char> },
}

impl View for SwarmInput {
    type V = SwarmInputModel;

    open spec fn view(&self) -> SwarmInputModel {
        match self {
            SwarmInput::NewListenAddr { address } => SwarmInputModel::NewListenAddr {
                address: address@,
            },
            SwarmInput::ConnectionEstablished { peer_id } => SwarmInputModel::ConnectionEstablished {
                peer_id: peer_id@,
            },
            SwarmInput::ConnectionClosed { peer_id } => SwarmInputModel::ConnectionClosed {
                peer_id: peer_id@,
            },
            SwarmInput::PeerDiscovered { peer_id } => SwarmInputModel::PeerDiscovered {
                peer_id: peer_id@,
            },
            SwarmInput::PeerExpired { peer_id } => SwarmInputModel::PeerExpired {
                peer_id: peer_id@,
            },
            SwarmInput::DhtBootstrapCompleted => SwarmInputModel::DhtBootstrapCompleted,
            SwarmInput::DhtBootstrapFailed => SwarmInputModel::DhtBootstrapFailed,
            SwarmInput::IdentifyObserved { peer_id } => SwarmInputModel::IdentifyObserved {
                peer_id: peer_id@,
            },
            SwarmInput::LivenessObserved { peer_id } => SwarmInputModel::LivenessObserved {
                peer_id: peer_id@,
            },
        }
    }
}

/// The registry state after one swarm input.
pub open spec fn peers_after(
    peers: Seq<PeerModel>,
    input: SwarmInputModel,
    now: Seq<char>,
) -> Seq<PeerModel> {
    match input {
        SwarmInputModel::ConnectionEstablished { peer_id } => upsert(
            peers,
            peer_id,
            PeerStatus::Connected,
            now,
        ),
        SwarmInputModel::ConnectionClosed { peer_id } => upsert(
            peers,
            peer_id,
            PeerStatus::Disconnected,
            now,
        ),
        SwarmInputModel::PeerDiscovered { peer_id } => apply_discovered(peers, peer_id, now),
        SwarmInputModel::PeerExpired { peer_id } => upsert(
            peers,
            peer_id,
            PeerStatus::Disconnected,
            now,
        ),
        _ => peers,
    }
}

pub open spec fn started_text(id: Seq<char>) -> Seq<char> {
    "Network started. Local ID: "@ + id
}

pub open spec fn listen_text(address: Seq<char>) -> Seq<char> {
    "Node listening on "@ + address
}

pub open spec fn discovered_text(id: Seq<char>) -> Seq<char> {
    "Discovered new peer: "@ + id
}

pub open spec fn expired_text(id: Seq<char>) -> Seq<char> {
    "Peer "@ + id + " left the network"@
}

pub open spec fn bootstrap_completed_text() -> Seq<char> {
    "DHT bootstrap completed"@
}

pub open spec fn bootstrap_failed_text() -> Seq<char> {
    "DHT bootstrap failed; no seed peers reachable"@
}

/// The exact event list that one swarm input produces, given the registry
/// state before the input.
pub open spec fn events_for(
    peers: Seq<PeerModel>,
    local: Seq<char>,
    input: SwarmInputModel,
    now: Seq<char>,
) -> Seq<P2PEventModel> {
    let after = peers_after(peers, input, now);
    match input {
        SwarmInputModel::NewListenAddr { address } => seq![
            P2PEventModel::StatusUpdate { status_text: listen_text(address) },
        ],
        SwarmInputModel::ConnectionEstablished { peer_id } => seq![
            P2PEventModel::PeerConnected { peer_id: peer_id },
            P2PEventModel::NetworkStatusUpdate { status: snapshot_of(after, local) },
        ],
        SwarmInputModel::ConnectionClosed { peer_id } => seq![
            P2PEventModel::PeerDisconnected { peer_id: peer_id },
            P2PEventModel::NetworkStatusUpdate { status: snapshot_of(after, local) },
        ],
        SwarmInputModel::PeerDiscovered { peer_id } => seq![
            P2PEventModel::StatusUpdate { status_text: discovered_text(peer_id) },
            P2PEventModel::NetworkStatusUpdate { status: snapshot_of(after, local) },
        ],
        SwarmInputModel::PeerExpired { peer_id } => seq![
            P2PEventModel::StatusUpdate { status_text: expired_text(peer_id) },
            P2PEventModel::NetworkStatusUpdate { status: snapshot_of(after, local) },
        ],
        SwarmInputModel::DhtBootstrapCompleted => seq![
            P2PEventModel::StatusUpdate { status_text: bootstrap_completed_text() },
        ],
        SwarmInputModel::DhtBootstrapFailed => seq![
            P2PEventModel::StatusUpdate { status_text: bootstrap_failed_text() },
        ],
        SwarmInputModel::IdentifyObserved { .. } => Seq::empty(),
        SwarmInputModel::LivenessObserved { .. } => Seq::empty(),
    }
}

/// The two events that starting the node publishes.
pub open spec fn start_events_model(peers: Seq<PeerModel>, local: Seq<char>) -> Seq<P2PEventModel> {
    seq![
        P2PEventModel::StatusUpdate { status_text: started_text(local) },
        P2PEventModel::NetworkStatusUpdate { status: snapshot_of(peers, local) },
    ]
}

/// Build a fresh snapshot from the registry: a full copy of the list and
/// the counts tallied over it.
pub fn network_status_of(peers: &Vec<Peer>, local_peer_id: &String) -> (r: NetworkStatus)
    ensures
        r@ == snapshot_of(models_of(peers@), local_peer_id@),
        status_consistent(r@),
{
    let connected = count_with_status(peers, PeerStatus::Connected);
    let discovered = count_with_status(peers, PeerStatus::Discovered);
    let r = NetworkStatus {
        total_peers: peers.len(),
        connected_peers: connected,
        discovered_peers: discovered,
        peers: copy_peers(peers),
        local_peer_id: local_peer_id.clone(),
    };
    assert(models_of(peers@).len() == peers@.len());
    r
}

pub fn render_started_text(id: &String) -> (r: String)
    ensures
        r@ == started_text(id@),
{
    let mut s = String::from_str("Network started. Local ID: ");
    s.append(id.as_str());
    s
}

pub fn render_listen_text(address: &String) -> (r: String)
    ensures
        r@ == listen_text(address@),
{
    let mut s = String::from_str("Node listening on ");
    s.append(address.as_str());
    s
}

pub fn render_discovered_text(id: &String) -> (r: String)
    ensures
        r@ == discovered_text(id@),
{
    let mut s = String::from_str("Discovered new peer: ");
    s.append(id.as_str());
    s
}

pub fn render_expired_text(id: &String) -> (r: String)
    ensures
        r@ == expired_text(id@),
{
    let mut s = String::from_str("Peer ");
    s.append(id.as_str());
    s.append(" left the network");
    s
}

/// The wire tag under which a consumer files each event kind.
pub fn event_type_tag(ev: &P2PEvent) -> (r: &'static str)
    ensures
        ev is PeerConnected ==> r@ == "PEER_CONNECTED"@,
        ev is PeerDisconnected ==> r@ == "PEER_DISCONNECTED"@,
        ev is StatusUpdate ==> r@ == "STATUS_UPDATE"@,
        ev is PeerCount ==> r@ == "PEER_COUNT"@,
        ev is NetworkStatusUpdate ==> r@ == "NETWORK_STATUS"@,
{
    match ev {
        P2PEvent::PeerConnected { .. } => "PEER_CONNECTED",
        P2PEvent::PeerDisconnected { .. } => "PEER_DISCONNECTED",
        P2PEvent::StatusUpdate { .. } => "STATUS_UPDATE",
        P2PEvent::PeerCount { .. } => "PEER_COUNT",
        P2PEvent::NetworkStatusUpdate { .. } => "NETWORK_STATUS",
    }
}

} // verus!
