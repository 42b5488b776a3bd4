use mycelium_node::P2PError;
use mycelium_node::node::select_bootstrap_addresses;
use mycelium_node::P2PEvent;
use mycelium_node::PeerStatus;
use mycelium_node::RealP2PNode;
use mycelium_node::SwarmInput;

#[test]
fn test_p2p_node_creation() {
    let (node, _receiver) = RealP2PNode::new();
    assert!(!node.local_peer_id().is_empty(), "Local peer ID should not be empty");
    println!("Test passed: Created P2P node with ID: {}", node.local_peer_id());
}

#[test]
fn test_p2p_node_start() {
    let (mut node, _receiver) = RealP2PNode::new();
    let result = node.start();
    assert!(result.is_ok(), "Failed to start P2P node: {:?}", result.err());
    println!("Test passed: P2P node started successfully");
}

#[test]
fn fresh_node_start_events() {
    // An empty node that just started publishes a status line mentioning
    // that it started, then an all-zero snapshot.
    let (mut node, mut receiver) = RealP2PNode::new();
    node.start().unwrap();
    assert!(node.is_running());

    let first = receiver.try_recv().unwrap();
    match first {
        P2PEvent::StatusUpdate { status_text } => {
            assert!(status_text.contains("started"));
            assert!(status_text.contains(node.local_peer_id().as_str()));
        }
        other => panic!("expected StatusUpdate first, got {:?}", other),
    }
    let second = receiver.try_recv().unwrap();
    match second {
        P2PEvent::NetworkStatusUpdate { status } => {
            assert_eq!(status.total_peers, 0);
            assert_eq!(status.connected_peers, 0);
            assert_eq!(status.discovered_peers, 0);
            assert!(status.peers.is_empty());
            assert_eq!(&status.local_peer_id, node.local_peer_id());
        }
        other => panic!("expected NetworkStatusUpdate second, got {:?}", other),
    }
    assert!(receiver.try_recv().is_err(), "no further event is owed on start");
}

#[test]
fn discovery_emits_status_then_snapshot() {
    // Discovering "peer_123" emits a StatusUpdate mentioning the peer, then
    // a snapshot with one discovered peer.
    let (mut node, _receiver) = RealP2PNode::new();
    let now = String::from("10:00:00");
    let out = node.handle_swarm_input(
        &SwarmInput::PeerDiscovered { peer_id: String::from("peer_123") },
        &now,
    );
    assert_eq!(out.len(), 2);
    match &out[0] {
        P2PEvent::StatusUpdate { status_text } => {
            assert_eq!(status_text, "Discovered new peer: peer_123");
            assert!(status_text.contains("peer_123"));
        }
        other => panic!("expected StatusUpdate first, got {:?}", other),
    }
    match &out[1] {
        P2PEvent::NetworkStatusUpdate { status } => {
            assert_eq!(status.total_peers, 1);
            assert_eq!(status.discovered_peers, 1);
            assert_eq!(status.connected_peers, 0);
            assert_eq!(status.peers[0].id, "peer_123");
            assert!(matches!(status.peers[0].status, PeerStatus::Discovered));
            assert_eq!(status.peers[0].last_seen, "10:00:00");
        }
        other => panic!("expected NetworkStatusUpdate second, got {:?}", other),
    }
}

#[test]
fn connection_emits_peer_connected_then_snapshot() {
    // When the discovered peer later connects: PeerConnected, then a
    // snapshot with one connected peer and no discovered peer.
    let (mut node, _receiver) = RealP2PNode::new();
    let t0 = String::from("10:00:00");
    let t1 = String::from("10:00:05");
    node.handle_swarm_input(
        &SwarmInput::PeerDiscovered { peer_id: String::from("peer_123") },
        &t0,
    );
    let out = node.handle_swarm_input(
        &SwarmInput::ConnectionEstablished { peer_id: String::from("peer_123") },
        &t1,
    );
    assert_eq!(out.len(), 2);
    match &out[0] {
        P2PEvent::PeerConnected { peer_id } => assert_eq!(peer_id, "peer_123"),
        other => panic!("expected PeerConnected first, got {:?}", other),
    }
    match &out[1] {
        P2PEvent::NetworkStatusUpdate { status } => {
            assert_eq!(status.connected_peers, 1);
            assert_eq!(status.discovered_peers, 0);
            assert_eq!(status.total_peers, 1);
            assert_eq!(status.peers[0].last_seen, "10:00:05");
        }
        other => panic!("expected NetworkStatusUpdate second, got {:?}", other),
    }
    assert_eq!(node.get_peer_count(), 1);
}

#[test]
fn connect_then_disconnect_updates_status_and_last_seen() {
    // A peer connected at one time and disconnected later ends
    // Disconnected, with last_seen carrying the later stamp.
    let (mut node, _receiver) = RealP2PNode::new();
    let t_conn = String::from("09:15:00");
    let t_disc = String::from("09:20:30");
    node.handle_swarm_input(
        &SwarmInput::ConnectionEstablished { peer_id: String::from("peer_a") },
        &t_conn,
    );
    let out = node.handle_swarm_input(
        &SwarmInput::ConnectionClosed { peer_id: String::from("peer_a") },
        &t_disc,
    );
    match &out[0] {
        P2PEvent::PeerDisconnected { peer_id } => assert_eq!(peer_id, "peer_a"),
        other => panic!("expected PeerDisconnected first, got {:?}", other),
    }
    let status = node.network_status();
    assert_eq!(status.total_peers, 1);
    assert_eq!(status.connected_peers, 0);
    assert_eq!(status.discovered_peers, 0);
    assert!(matches!(status.peers[0].status, PeerStatus::Disconnected));
    assert_eq!(status.peers[0].last_seen, "09:20:30");
    assert!(status.peers[0].last_seen >= t_conn);
}

#[test]
fn rediscovery_does_not_demote_connected_peer() {
    // Re-discovering an already connected peer must not reduce its status
    // to Discovered, nor touch its last_seen.
    let (mut node, _receiver) = RealP2PNode::new();
    let t0 = String::from("11:00:00");
    let t1 = String::from("11:00:10");
    node.handle_swarm_input(
        &SwarmInput::ConnectionEstablished { peer_id: String::from("peer_b") },
        &t0,
    );
    node.handle_swarm_input(
        &SwarmInput::PeerDiscovered { peer_id: String::from("peer_b") },
        &t1,
    );
    let status = node.network_status();
    assert_eq!(status.connected_peers, 1);
    assert_eq!(status.discovered_peers, 0);
    assert!(matches!(status.peers[0].status, PeerStatus::Connected));
    assert_eq!(status.peers[0].last_seen, "11:00:00");
    assert_eq!(node.get_peer_count(), 1);
}

#[test]
fn total_peers_counts_distinct_ids_ever_seen() {
    // Repeated events for the same ids never duplicate entries: the total
    // equals the number of distinct ids seen, whatever their states.
    let (mut node, _receiver) = RealP2PNode::new();
    let now = String::from("12:00:00");
    let inputs = vec![
        SwarmInput::PeerDiscovered { peer_id: String::from("p1") },
        SwarmInput::ConnectionEstablished { peer_id: String::from("p1") },
        SwarmInput::PeerDiscovered { peer_id: String::from("p2") },
        SwarmInput::PeerExpired { peer_id: String::from("p2") },
        SwarmInput::ConnectionEstablished { peer_id: String::from("p3") },
        SwarmInput::ConnectionClosed { peer_id: String::from("p3") },
        SwarmInput::PeerDiscovered { peer_id: String::from("p1") },
        SwarmInput::DhtBootstrapCompleted,
        SwarmInput::NewListenAddr { address: String::from("/ip4/127.0.0.1/tcp/4001") },
    ];
    for input in &inputs {
        node.handle_swarm_input(input, &now);
    }
    let status = node.network_status();
    assert_eq!(status.total_peers, 3);
    assert_eq!(status.peers.len(), 3);
}

#[test]
fn expiry_marks_peer_disconnected() {
    let (mut node, _receiver) = RealP2PNode::new();
    let now = String::from("13:00:00");
    node.handle_swarm_input(
        &SwarmInput::PeerDiscovered { peer_id: String::from("peer_c") },
        &now,
    );
    let out = node.handle_swarm_input(
        &SwarmInput::PeerExpired { peer_id: String::from("peer_c") },
        &now,
    );
    match &out[0] {
        P2PEvent::StatusUpdate { status_text } => {
            assert_eq!(status_text, "Peer peer_c left the network");
        }
        other => panic!("expected StatusUpdate first, got {:?}", other),
    }
    let status = node.network_status();
    assert!(matches!(status.peers[0].status, PeerStatus::Disconnected));
    assert_eq!(status.discovered_peers, 0);
}

#[test]
fn snapshots_are_internally_consistent() {
    // Every emitted snapshot's counts equal the tallies over its own list.
    let (mut node, _receiver) = RealP2PNode::new();
    let now = String::from("14:00:00");
    let inputs = vec![
        SwarmInput::PeerDiscovered { peer_id: String::from("q1") },
        SwarmInput::ConnectionEstablished { peer_id: String::from("q2") },
        SwarmInput::PeerDiscovered { peer_id: String::from("q3") },
        SwarmInput::ConnectionClosed { peer_id: String::from("q2") },
        SwarmInput::PeerExpired { peer_id: String::from("q1") },
    ];
    for input in &inputs {
        let out = node.handle_swarm_input(input, &now);
        for event in &out {
            if let P2PEvent::NetworkStatusUpdate { status } = event {
                let connected = status
                    .peers
                    .iter()
                    .filter(|p| matches!(p.status, PeerStatus::Connected))
                    .count();
                let discovered = status
                    .peers
                    .iter()
                    .filter(|p| matches!(p.status, PeerStatus::Discovered))
                    .count();
                assert_eq!(status.connected_peers, connected);
                assert_eq!(status.discovered_peers, discovered);
                assert_eq!(status.total_peers, status.peers.len());
            }
        }
    }
}

#[test]
fn observed_inputs_change_nothing() {
    let (mut node, _receiver) = RealP2PNode::new();
    let now = String::from("15:00:00");
    let out_identify = node.handle_swarm_input(
        &SwarmInput::IdentifyObserved { peer_id: String::from("peer_d") },
        &now,
    );
    let out_ping = node.handle_swarm_input(
        &SwarmInput::LivenessObserved { peer_id: String::from("peer_d") },
        &now,
    );
    assert!(out_identify.is_empty());
    assert!(out_ping.is_empty());
    assert_eq!(node.network_status().total_peers, 0);
}

#[test]
fn dropped_receiver_stops_the_node_cleanly() {
    // With the consumer gone, publishing reports ChannelClosed instead of
    // panicking, which is the event loop's shutdown signal.
    let (mut node, receiver) = RealP2PNode::new();
    drop(receiver);
    let started = node.start();
    assert_eq!(started, Err(P2PError::ChannelClosed));
    assert!(node.is_running());

    let r = node.process_swarm_input(&SwarmInput::PeerDiscovered {
        peer_id: String::from("peer_e"),
    });
    assert_eq!(r, Err(P2PError::ChannelClosed));
    // The state transition still happened before the failed delivery.
    assert_eq!(node.network_status().total_peers, 1);
}

#[test]
fn observe_only_inputs_succeed_even_without_consumer() {
    // Observe-only inputs owe no event, so they must not report the closed
    // channel — otherwise the event loop would shut down on them.
    let (mut node, receiver) = RealP2PNode::new();
    drop(receiver);
    let identify = node.process_swarm_input(&SwarmInput::IdentifyObserved {
        peer_id: String::from("peer_g"),
    });
    assert_eq!(identify, Ok(()));
    let liveness = node.process_swarm_input(&SwarmInput::LivenessObserved {
        peer_id: String::from("peer_g"),
    });
    assert_eq!(liveness, Ok(()));
    assert_eq!(node.network_status().total_peers, 0);
}

#[test]
fn malformed_bootstrap_seeds_are_skipped_not_fatal() {
    let seeds = vec![
        String::from("/ip4/127.0.0.1/tcp/4001"),
        String::from("not an address"),
        String::from("/ip6/::1/tcp/4001/p2p/12D3KooWEyoppNCUx8Yx66oV9fJnriXwCcXwDDUA2kj6vnc6iDEp"),
        String::from("/ip4/300.0.0.1/tcp/4001"),
        String::from("/tcp/notaport"),
        String::from("/dns4/example.org/tcp/443"),
    ];
    let kept = select_bootstrap_addresses(&seeds);
    assert_eq!(
        kept,
        vec![
            String::from("/ip4/127.0.0.1/tcp/4001"),
            String::from("/ip6/::1/tcp/4001/p2p/12D3KooWEyoppNCUx8Yx66oV9fJnriXwCcXwDDUA2kj6vnc6iDEp"),
            String::from("/dns4/example.org/tcp/443"),
        ]
    );
}

#[test]
fn process_swarm_input_delivers_in_order_with_clock_stamp() {
    let (mut node, mut receiver) = RealP2PNode::new();
    let r = node.process_swarm_input(&SwarmInput::ConnectionEstablished {
        peer_id: String::from("peer_f"),
    });
    assert!(r.is_ok());
    let first = receiver.try_recv().unwrap();
    assert!(matches!(first, P2PEvent::PeerConnected { .. }));
    let second = receiver.try_recv().unwrap();
    match second {
        P2PEvent::NetworkStatusUpdate { status } => {
            // The clock wrapper stamps HH:MM:SS.
            assert_eq!(status.peers[0].last_seen.len(), 8);
            assert_eq!(status.peers[0].last_seen.as_bytes()[2], b':');
            assert_eq!(status.peers[0].last_seen.as_bytes()[5], b':');
        }
        other => panic!("expected NetworkStatusUpdate second, got {:?}", other),
    }
}
