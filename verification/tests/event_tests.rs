use mycelium_node::NetworkStatus;
use mycelium_node::P2PEvent;
use mycelium_node::Peer;
use mycelium_node::PeerStatus;
use mycelium_node::event::event_type_tag;
use mycelium_node::event::network_status_of;
use mycelium_node::event::render_discovered_text;
use mycelium_node::event::render_expired_text;
use mycelium_node::event::render_listen_text;
use mycelium_node::event::render_started_text;
use mycelium_node::peer::add_or_update_peer;
use mycelium_node::peer::copy_peers;
use mycelium_node::peer::count_with_status;
use mycelium_node::peer::find_peer;

fn sample_status() -> NetworkStatus {
    NetworkStatus {
        total_peers: 0,
        connected_peers: 0,
        discovered_peers: 0,
        peers: Vec::new(),
        local_peer_id: String::from("self"),
    }
}

#[test]
fn event_type_tags_are_exact() {
    assert_eq!(
        event_type_tag(&P2PEvent::PeerConnected { peer_id: String::from("x") }),
        "PEER_CONNECTED"
    );
    assert_eq!(
        event_type_tag(&P2PEvent::PeerDisconnected { peer_id: String::from("x") }),
        "PEER_DISCONNECTED"
    );
    assert_eq!(
        event_type_tag(&P2PEvent::StatusUpdate { status_text: String::from("x") }),
        "STATUS_UPDATE"
    );
    assert_eq!(event_type_tag(&P2PEvent::PeerCount { count: 3 }), "PEER_COUNT");
    assert_eq!(
        event_type_tag(&P2PEvent::NetworkStatusUpdate { status: sample_status() }),
        "NETWORK_STATUS"
    );
}

#[test]
fn rendered_texts_are_exact() {
    assert_eq!(
        render_started_text(&String::from("abc")),
        "Network started. Local ID: abc"
    );
    assert_eq!(
        render_listen_text(&String::from("/ip4/0.0.0.0/tcp/0")),
        "Node listening on /ip4/0.0.0.0/tcp/0"
    );
    assert_eq!(render_discovered_text(&String::from("p")), "Discovered new peer: p");
    assert_eq!(render_expired_text(&String::from("p")), "Peer p left the network");
}

#[test]
fn registry_operations_update_in_place() {
    let mut peers: Vec<Peer> = Vec::new();
    let t0 = String::from("08:00:00");
    let t1 = String::from("08:30:00");

    add_or_update_peer(&mut peers, &String::from("a"), PeerStatus::Discovered, &t0);
    add_or_update_peer(&mut peers, &String::from("b"), PeerStatus::Connected, &t0);
    add_or_update_peer(&mut peers, &String::from("a"), PeerStatus::Connected, &t1);

    assert_eq!(peers.len(), 2, "updates never duplicate an id");
    assert_eq!(find_peer(&peers, &String::from("a")), Some(0));
    assert_eq!(find_peer(&peers, &String::from("b")), Some(1));
    assert_eq!(find_peer(&peers, &String::from("c")), None);
    assert!(matches!(peers[0].status, PeerStatus::Connected));
    assert_eq!(peers[0].last_seen, "08:30:00");
    assert_eq!(count_with_status(&peers, PeerStatus::Connected), 2);
    assert_eq!(count_with_status(&peers, PeerStatus::Discovered), 0);
}

#[test]
fn snapshot_is_a_full_copy() {
    let mut peers: Vec<Peer> = Vec::new();
    let t0 = String::from("08:00:00");
    add_or_update_peer(&mut peers, &String::from("a"), PeerStatus::Connected, &t0);
    add_or_update_peer(&mut peers, &String::from("b"), PeerStatus::Discovered, &t0);
    add_or_update_peer(&mut peers, &String::from("c"), PeerStatus::Disconnected, &t0);

    let status = network_status_of(&peers, &String::from("self"));
    assert_eq!(status.total_peers, 3);
    assert_eq!(status.connected_peers, 1);
    assert_eq!(status.discovered_peers, 1);
    assert_eq!(status.local_peer_id, "self");
    assert_eq!(status.peers.len(), 3);
    assert_eq!(status.peers[1].id, "b");

    // The snapshot holds a copy: later mutation does not show in it.
    add_or_update_peer(&mut peers, &String::from("b"), PeerStatus::Connected, &t0);
    assert!(matches!(status.peers[1].status, PeerStatus::Discovered));

    let copied = copy_peers(&peers);
    assert_eq!(copied.len(), peers.len());
    assert_eq!(copied[1].id, peers[1].id);
}
