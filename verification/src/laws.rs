//! The properties the node keeps over whole runs: registry growth,
//! lifecycle transitions, and snapshot consistency.

use vstd::prelude::*;

use crate::event::SwarmInputModel;
use crate::event::events_for;
use crate::event::peers_after;
use crate::event::start_events_model;
use crate::event::status_consistent;
use crate::peer::PeerModel;
use crate::peer::PeerStatus;
use crate::peer::distinct_ids;
use crate::peer::find_index;
use crate::peer::has_id;
use crate::peer::lemma_find_index_first;
use crate::peer::lemma_find_index_spec;
use crate::peer::upsert;

verus! {

/// The ids of the registry entries, as a set.
pub open spec fn ids_of(peers: Seq<PeerModel>) -> Set<Seq<char>>
    decreases peers.len(),
{
    if peers.len() == 0 {
        Set::empty()
    } else {
        ids_of(peers.drop_last()).insert(peers.last().id)
    }
}

pub proof fn lemma_ids_of_finite(peers: Seq<PeerModel>)
    ensures
        ids_of(peers).finite(),
    decreases peers.len(),
{
    if peers.len() > 0 {
        lemma_ids_of_finite(peers.drop_last());
    }
}

pub proof fn lemma_ids_of_contains(peers: Seq<PeerModel>, x: Seq<char>)
    ensures
        ids_of(peers).contains(x) <==> exists|i: int|
            0 <= i < peers.len() && peers[i].id == x,
    decreases peers.len(),
{
    if peers.len() > 0 {
        lemma_ids_of_contains(peers.drop_last(), x);
        if ids_of(peers).contains(x) {
            if peers.last().id == x {
                assert(peers[peers.len() - 1].id == x);
            } else {
                let i = choose|i: int| 0 <= i < peers.drop_last().len() && peers.drop_last()[i].id == x;
                assert(peers[i].id == x);
            }
        }
        if exists|i: int| 0 <= i < peers.len() && peers[i].id == x {
            let i = choose|i: int| 0 <= i < peers.len() && peers[i].id == x;
            if i < peers.len() - 1 {
                assert(peers.drop_last()[i].id == x);
            }
        }
    }
}

/// With distinct ids, the registry length is exactly the number of
/// distinct ids it holds.
pub proof fn lemma_ids_of_len(peers: Seq<PeerModel>)
    requires
        distinct_ids(peers),
    ensures
        ids_of(peers).len() == peers.len(),
    decreases peers.len(),
{
    if peers.len() > 0 {
        let rest = peers.drop_last();
        assert(distinct_ids(rest));
        lemma_ids_of_len(rest);
        lemma_ids_of_finite(rest);
        lemma_ids_of_contains(rest, peers.last().id);
        assert(!ids_of(rest).contains(peers.last().id));
    }
}

/// An entry exists for an id exactly when the id is in the id set.
pub proof fn lemma_has_id_contains(peers: Seq<PeerModel>, id: Seq<char>)
    ensures
        has_id(peers, id) <==> ids_of(peers).contains(id),
{
    lemma_find_index_spec(peers, id);
    lemma_ids_of_contains(peers, id);
    if has_id(peers, id) {
        assert(peers[find_index(peers, id)].id == id);
    }
}

/// What one upsert does to the id set, the length, and distinctness.
pub proof fn lemma_upsert_ids(peers: Seq<PeerModel>, id: Seq<char>, status: PeerStatus, now: Seq<char>)
    requires
        distinct_ids(peers),
    ensures
        distinct_ids(upsert(peers, id, status, now)),
        ids_of(upsert(peers, id, status, now)) =~= ids_of(peers).insert(id),
        upsert(peers, id, status, now).len() == peers.len() + if has_id(peers, id) {
            0int
        } else {
            1int
        },
{
    let r = upsert(peers, id, status, now);
    lemma_find_index_spec(peers, id);
    assert forall|x: Seq<char>| ids_of(r).contains(x) <==> ids_of(peers).insert(id).contains(x) by {
        lemma_ids_of_contains(r, x);
        lemma_ids_of_contains(peers, x);
        if has_id(peers, id) {
            let fi = find_index(peers, id);
            assert(forall|k: int| 0 <= k < r.len() ==> r[k].id == peers[k].id);
            if ids_of(peers).insert(id).contains(x) {
                if x == id {
                    assert(r[fi].id == x);
                } else {
                    let i = choose|i: int| 0 <= i < peers.len() && peers[i].id == x;
                    assert(r[i].id == x);
                }
            }
        } else {
            if ids_of(r).contains(x) {
                let i = choose|i: int| 0 <= i < r.len() && r[i].id == x;
                if i < peers.len() {
                    assert(peers[i].id == x);
                }
            }
            if ids_of(peers).insert(id).contains(x) {
                if x == id {
                    assert(r[peers.len() as int].id == x);
                } else {
                    let i = choose|i: int| 0 <= i < peers.len() && peers[i].id == x;
                    assert(r[i].id == x);
                }
            }
        }
    }
    if has_id(peers, id) {
        let fi = find_index(peers, id);
        assert forall|a: int, b: int| 0 <= a < b < r.len() implies r[a].id != r[b].id by {
            assert(r[a].id == peers[a].id);
            assert(r[b].id == peers[b].id);
        }
    } else {
        assert forall|a: int, b: int| 0 <= a < b < r.len() implies r[a].id != r[b].id by {
            if b < peers.len() {
                assert(r[a].id == peers[a].id && r[b].id == peers[b].id);
            } else {
                assert(r[a].id == peers[a].id && r[b].id == id);
            }
        }
    }
}

/// After an upsert the entry for the id is exactly the upserted record,
/// and every entry with another id is untouched.
pub proof fn lemma_upsert_lookup(peers: Seq<PeerModel>, id: Seq<char>, status: PeerStatus, now: Seq<char>)
    requires
        distinct_ids(peers),
    ensures
        ({
            let r = upsert(peers, id, status, now);
            let j = find_index(r, id);
            &&& 0 <= j < r.len()
            &&& r[j] == PeerModel { id: id, status: status, last_seen: now }
            &&& forall|k: int|
                0 <= k < peers.len() && peers[k].id != id ==> k < r.len() && r[k] == peers[k]
        }),
{
    let r = upsert(peers, id, status, now);
    lemma_find_index_spec(peers, id);
    if has_id(peers, id) {
        let fi = find_index(peers, id);
        assert forall|k: int| 0 <= k < fi implies r[k].id != id by {
            assert(r[k] == peers[k]);
        }
        lemma_find_index_first(r, id, fi);
    } else {
        assert forall|k: int| 0 <= k < peers.len() implies r[k].id != id by {
            assert(r[k] == peers[k]);
        }
        lemma_find_index_first(r, id, peers.len() as int);
    }
}

/// Which inputs create or update a registry entry.
pub open spec fn registers_peer(input: SwarmInputModel) -> bool {
    ||| input is ConnectionEstablished
    ||| input is ConnectionClosed
    ||| input is PeerDiscovered
    ||| input is PeerExpired
}

/// The peer id a registering input carries.
pub open spec fn input_peer_id(input: SwarmInputModel) -> Seq<char> {
    match input {
        SwarmInputModel::ConnectionEstablished { peer_id } => peer_id,
        SwarmInputModel::ConnectionClosed { peer_id } => peer_id,
        SwarmInputModel::PeerDiscovered { peer_id } => peer_id,
        SwarmInputModel::PeerExpired { peer_id } => peer_id,
        _ => Seq::empty(),
    }
}

/// What one input does to the id set, the length, and distinctness.
pub proof fn lemma_peers_after_ids(peers: Seq<PeerModel>, input: SwarmInputModel, now: Seq<char>)
    requires
        distinct_ids(peers),
    ensures
        distinct_ids(peers_after(peers, input, now)),
        registers_peer(input) ==> ids_of(peers_after(peers, input, now)) =~= ids_of(peers).insert(
            input_peer_id(input),
        ),
        !registers_peer(input) ==> peers_after(peers, input, now) == peers,
        peers_after(peers, input, now).len() == peers.len() + if registers_peer(input) && !ids_of(
            peers,
        ).contains(input_peer_id(input)) {
            1int
        } else {
            0int
        },
{
    lemma_has_id_contains(peers, input_peer_id(input));
    match input {
        SwarmInputModel::ConnectionEstablished { peer_id } => {
            lemma_upsert_ids(peers, peer_id, PeerStatus::Connected, now);
        },
        SwarmInputModel::ConnectionClosed { peer_id } => {
            lemma_upsert_ids(peers, peer_id, PeerStatus::Disconnected, now);
        },
        SwarmInputModel::PeerDiscovered { peer_id } => {
            lemma_find_index_spec(peers, peer_id);
            let i = find_index(peers, peer_id);
            if i >= 0 && peers[i].status is Connected {
                assert(ids_of(peers).contains(peer_id)) by {
                    lemma_has_id_contains(peers, peer_id);
                }
                assert(ids_of(peers).insert(peer_id) =~= ids_of(peers));
            } else {
                lemma_upsert_ids(peers, peer_id, PeerStatus::Discovered, now);
            }
        },
        SwarmInputModel::PeerExpired { peer_id } => {
            lemma_upsert_ids(peers, peer_id, PeerStatus::Disconnected, now);
        },
        _ => {},
    }
}

/// One timestamped input of a run.
pub struct TraceStep {
    pub input: SwarmInputModel,
    pub now: Seq<char>,
}

/// The registry after a whole run of inputs.
pub open spec fn run_trace(peers: Seq<PeerModel>, trace: Seq<TraceStep>) -> Seq<PeerModel>
    decreases trace.len(),
{
    if trace.len() == 0 {
        peers
    } else {
        peers_after(run_trace(peers, trace.drop_last()), trace.last().input, trace.last().now)
    }
}

/// The distinct peer ids a run ever registers.
pub open spec fn ids_seen(trace: Seq<TraceStep>) -> Set<Seq<char>>
    decreases trace.len(),
{
    if trace.len() == 0 {
        Set::empty()
    } else {
        let s = ids_seen(trace.drop_last());
        if registers_peer(trace.last().input) {
            s.insert(input_peer_id(trace.last().input))
        } else {
            s
        }
    }
}

pub proof fn lemma_ids_seen_finite(trace: Seq<TraceStep>)
    ensures
        ids_seen(trace).finite(),
    decreases trace.len(),
{
    if trace.len() > 0 {
        lemma_ids_seen_finite(trace.drop_last());
    }
}

/// Law: after any run of swarm inputs on a fresh node, the registry holds
/// exactly one entry per distinct peer id ever seen — so total_peers, the
/// registry length, equals the number of distinct ids seen, and entries
/// are never removed.
pub proof fn lemma_total_peers_counts_distinct_ids(trace: Seq<TraceStep>)
    ensures
        distinct_ids(run_trace(Seq::empty(), trace)),
        ids_of(run_trace(Seq::empty(), trace)) =~= ids_seen(trace),
        run_trace(Seq::empty(), trace).len() == ids_seen(trace).len(),
    decreases trace.len(),
{
    if trace.len() == 0 {
        assert(ids_of(run_trace(Seq::empty(), trace)) =~= ids_seen(trace));
    } else {
        let prefix = trace.drop_last();
        lemma_total_peers_counts_distinct_ids(prefix);
        let prev = run_trace(Seq::empty(), prefix);
        let step = trace.last();
        lemma_peers_after_ids(prev, step.input, step.now);
        lemma_ids_of_finite(prev);
        lemma_ids_seen_finite(prefix);
        if registers_peer(step.input) {
            let id = input_peer_id(step.input);
            assert(ids_of(prev) == ids_seen(prefix));
            vstd::set::axiom_set_insert_len(ids_of(prev), id);
            assert(ids_seen(trace) == ids_of(prev).insert(id));
        }
    }
}

/// An input that does not register this entry's id leaves the entry in
/// place, at its index, and the entry stays the one its id finds.
pub proof fn lemma_uninvolved_entry_untouched(
    peers: Seq<PeerModel>,
    input: SwarmInputModel,
    now: Seq<char>,
    j: int,
)
    requires
        distinct_ids(peers),
        0 <= j < peers.len(),
        !(registers_peer(input) && input_peer_id(input) == peers[j].id),
    ensures
        ({
            let after = peers_after(peers, input, now);
            &&& j < after.len()
            &&& after[j] == peers[j]
            &&& find_index(after, peers[j].id) == j
        }),
{
    let id = peers[j].id;
    let after = peers_after(peers, input, now);
    lemma_find_index_first(peers, id, j);
    lemma_peers_after_ids(peers, input, now);
    if registers_peer(input) {
        let other = input_peer_id(input);
        lemma_find_index_spec(peers, other);
        match input {
            SwarmInputModel::ConnectionEstablished { peer_id } => {
                lemma_upsert_lookup(peers, peer_id, PeerStatus::Connected, now);
            },
            SwarmInputModel::ConnectionClosed { peer_id } => {
                lemma_upsert_lookup(peers, peer_id, PeerStatus::Disconnected, now);
            },
            SwarmInputModel::PeerDiscovered { peer_id } => {
                let i = find_index(peers, peer_id);
                if !(i >= 0 && peers[i].status is Connected) {
                    lemma_upsert_lookup(peers, peer_id, PeerStatus::Discovered, now);
                }
            },
            SwarmInputModel::PeerExpired { peer_id } => {
                lemma_upsert_lookup(peers, peer_id, PeerStatus::Disconnected, now);
            },
            _ => {},
        }
        assert(after[j] == peers[j]);
        assert forall|k: int| 0 <= k < j implies after[k].id != id by {
            if peers[k].id == other {
                lemma_upsert_lookup_ids_stable(peers, input, now, k);
            } else {
                assert(after[k] == peers[k]);
            }
            assert(peers[k].id != id);
        }
        lemma_find_index_first(after, id, j);
    } else {
        lemma_find_index_first(after, id, j);
    }
}

/// An upsert never changes which id an existing entry carries.
proof fn lemma_upsert_lookup_ids_stable(
    peers: Seq<PeerModel>,
    input: SwarmInputModel,
    now: Seq<char>,
    k: int,
)
    requires
        distinct_ids(peers),
        registers_peer(input),
        0 <= k < peers.len(),
    ensures
        ({
            let after = peers_after(peers, input, now);
            k < after.len() && after[k].id == peers[k].id
        }),
{
    lemma_find_index_spec(peers, input_peer_id(input));
}

/// Inputs that never involve this entry's id leave the entry in place for
/// a whole run.
pub proof fn lemma_trace_keeps_uninvolved_entry(
    peers: Seq<PeerModel>,
    trace: Seq<TraceStep>,
    j: int,
)
    requires
        distinct_ids(peers),
        0 <= j < peers.len(),
        forall|k: int|
            0 <= k < trace.len() ==> !(registers_peer(#[trigger] trace[k].input)
                && input_peer_id(trace[k].input) == peers[j].id),
    ensures
        ({
            let after = run_trace(peers, trace);
            &&& distinct_ids(after)
            &&& j < after.len()
            &&& after[j] == peers[j]
            &&& find_index(after, peers[j].id) == j
        }),
    decreases trace.len(),
{
    if trace.len() == 0 {
        lemma_find_index_first(peers, peers[j].id, j);
    } else {
        let prefix = trace.drop_last();
        assert(forall|k: int| 0 <= k < prefix.len() ==> prefix[k] == trace[k]);
        lemma_trace_keeps_uninvolved_entry(peers, prefix, j);
        let between = run_trace(peers, prefix);
        lemma_peers_after_ids(between, trace.last().input, trace.last().now);
        assert(trace[trace.len() - 1] == trace.last());
        lemma_uninvolved_entry_untouched(between, trace.last().input, trace.last().now, j);
    }
}

/// Law: the snapshot emitted for the last input of a run reports
/// total_peers equal to the number of distinct peer ids the whole run has
/// seen.
pub proof fn lemma_emitted_total_counts_ids_seen(trace: Seq<TraceStep>, local: Seq<char>)
    requires
        trace.len() > 0,
    ensures
        ({
            let prev = run_trace(Seq::empty(), trace.drop_last());
            let events = events_for(prev, local, trace.last().input, trace.last().now);
            forall|k: int|
                0 <= k < events.len() && #[trigger] events[k] is NetworkStatusUpdate
                    ==> events[k]->status.total_peers == ids_seen(trace).len()
        }),
{
    lemma_total_peers_counts_distinct_ids(trace);
    assert(run_trace(Seq::empty(), trace) == peers_after(
        run_trace(Seq::empty(), trace.drop_last()),
        trace.last().input,
        trace.last().now,
    ));
}

/// Law: a peer seen to connect and later, with no intervening input for
/// it, to disconnect, stays Connected with the connection stamp in
/// between, and ends Disconnected with last_seen carrying the
/// disconnection timestamp — the later of the two stamps.
pub proof fn lemma_connect_then_disconnect(
    peers: Seq<PeerModel>,
    id: Seq<char>,
    t_conn: Seq<char>,
    mid: Seq<TraceStep>,
    t_disc: Seq<char>,
)
    requires
        distinct_ids(peers),
        forall|k: int|
            0 <= k < mid.len() ==> !(registers_peer(#[trigger] mid[k].input) && input_peer_id(
                mid[k].input,
            ) == id),
    ensures
        ({
            let connected = peers_after(
                peers,
                SwarmInputModel::ConnectionEstablished { peer_id: id },
                t_conn,
            );
            let between = run_trace(connected, mid);
            let after = peers_after(
                between,
                SwarmInputModel::ConnectionClosed { peer_id: id },
                t_disc,
            );
            let jc = find_index(between, id);
            let j = find_index(after, id);
            &&& 0 <= jc < between.len()
            &&& between[jc].status is Connected
            &&& between[jc].last_seen == t_conn
            &&& 0 <= j < after.len()
            &&& after[j].status is Disconnected
            &&& after[j].last_seen == t_disc
        }),
{
    lemma_upsert_ids(peers, id, PeerStatus::Connected, t_conn);
    lemma_upsert_lookup(peers, id, PeerStatus::Connected, t_conn);
    let connected = upsert(peers, id, PeerStatus::Connected, t_conn);
    let jc = find_index(connected, id);
    lemma_trace_keeps_uninvolved_entry(connected, mid, jc);
    let between = run_trace(connected, mid);
    lemma_upsert_lookup(between, id, PeerStatus::Disconnected, t_disc);
}

/// Law: re-discovering a peer that is already Connected does not demote
/// it; its registry entry is untouched.
pub proof fn lemma_rediscovery_keeps_connected(
    peers: Seq<PeerModel>,
    id: Seq<char>,
    now: Seq<char>,
    j: int,
)
    requires
        distinct_ids(peers),
        0 <= j < peers.len(),
        peers[j].status is Connected,
    ensures
        ({
            let after = peers_after(peers, SwarmInputModel::PeerDiscovered { peer_id: id }, now);
            &&& j < after.len()
            &&& after[j] == peers[j]
        }),
{
    lemma_find_index_spec(peers, id);
    let i = find_index(peers, id);
    if i >= 0 && peers[i].status is Connected {
    } else {
        assert(i != j);
    }
}

/// Law: every NetworkStatusUpdate among the events one input produces
/// carries an internally consistent snapshot: each count is the tally over
/// the peer list the snapshot itself holds.
pub proof fn lemma_emitted_snapshots_consistent(
    peers: Seq<PeerModel>,
    local: Seq<char>,
    input: SwarmInputModel,
    now: Seq<char>,
)
    ensures
        forall|k: int|
            0 <= k < events_for(peers, local, input, now).len() && #[trigger] events_for(
                peers,
                local,
                input,
                now,
            )[k] is NetworkStatusUpdate ==> status_consistent(
                events_for(peers, local, input, now)[k]->status,
            ),
{
}

/// Law: the snapshot published on start is internally consistent as well.
pub proof fn lemma_start_snapshot_consistent(peers: Seq<PeerModel>, local: Seq<char>)
    ensures
        forall|k: int|
            0 <= k < start_events_model(peers, local).len() && #[trigger] start_events_model(
                peers,
                local,
            )[k] is NetworkStatusUpdate ==> status_consistent(
                start_events_model(peers, local)[k]->status,
            ),
{
}

} // verus!
