//! The peer registry: entries keyed by peer id, updated in place and never
//! removed, together with its mathematical model.

use vstd::prelude::*;

verus! {

/// Lifecycle state of a peer in the registry.
#[derive(Debug, Clone, Copy, PartialEq, Eq, Structural)]
pub enum PeerStatus {
    Discovered,
    Connected,
    Disconnected,
}

/// One entry of the peer registry.
#[derive(Debug, Clone)]
pub struct Peer {
    pub id: String,
    pub status: PeerStatus,
    pub last_seen: String,
}

/// Mathematical abstraction of a registry entry.
pub struct PeerModel {
    pub id: Seq<char>,
    pub status: PeerStatus,
    pub last_seen: Seq<char>,
}

impl View for Peer {
    type V = PeerModel;

    open spec fn view(&self) -> PeerModel {
        PeerModel { id: self.id@, status: self.status, last_seen: self.last_seen@ }
    }
}

/// The registry as a sequence of abstract entries.
pub open spec fn models_of(peers: Seq<Peer>) -> Seq<PeerModel> {
    peers.map_values(|p: Peer| p@)
}

/// No two registry entries share a peer id.
pub open spec fn distinct_ids(peers: Seq<PeerModel>) -> bool {
    forall|i: int, j: int| 0 <= i < j < peers.len() ==> peers[i].id != peers[j].id
}

/// Index of the first entry with the given id, or -1 when there is none.
pub open spec fn find_index(peers: Seq<PeerModel>, id: Seq<char>) -> int
    decreases peers.len(),
{
    if peers.len() == 0 {
        -1
    } else if peers[0].id == id {
        0
    } else {
        let r = find_index(peers.drop_first(), id);
        if r < 0 {
            -1
        } else {
            r + 1
        }
    }
}

/// Whether some entry carries the given id.
pub open spec fn has_id(peers: Seq<PeerModel>, id: Seq<char>) -> bool {
    find_index(peers, id) >= 0
}

/// Insert a new entry, or overwrite status and last_seen of the entry
/// that already carries the id.
pub open spec fn upsert(
    peers: Seq<PeerModel>,
    id: Seq<char>,
    status: PeerStatus,
    now: Seq<char>,
) -> Seq<PeerModel> {
    let entry = PeerModel { id: id, status: status, last_seen: now };
    if has_id(peers, id) {
        peers.update(find_index(peers, id), entry)
    } else {
        peers.push(entry)
    }
}

/// A discovery leaves an already connected peer untouched; any other peer
/// is inserted or reset to Discovered with a fresh last_seen.
pub open spec fn apply_discovered(
    peers: Seq<PeerModel>,
    id: Seq<char>,
    now: Seq<char>,
) -> Seq<PeerModel> {
    let i = find_index(peers, id);
    if i >= 0 && peers[i].status is Connected {
        peers
    } else {
        upsert(peers, id, PeerStatus::Discovered, now)
    }
}

/// How many entries carry the given status.
pub open spec fn count_status(peers: Seq<PeerModel>, status: PeerStatus) -> nat
    decreases peers.len(),
{
    if peers.len() == 0 {
        0
    } else {
        count_status(peers.drop_last(), status) + if peers.last().status == status {
            1nat
        } else {
            0nat
        }
    }
}

/// find_index returns a valid index of the first entry with the id,
/// or -1 when no entry has it.
pub proof fn lemma_find_index_spec(peers: Seq<PeerModel>, id: Seq<char>)
    ensures
        -1 <= find_index(peers, id) < peers.len(),
        find_index(peers, id) >= 0 ==> peers[find_index(peers, id)].id == id,
        forall|k: int| 0 <= k < find_index(peers, id) ==> peers[k].id != id,
        find_index(peers, id) == -1 ==> forall|k: int| 0 <= k < peers.len() ==> peers[k].id != id,
    decreases peers.len(),
{
    if peers.len() == 0 {
    } else if peers[0].id == id {
    } else {
        let rest = peers.drop_first();
        lemma_find_index_spec(rest, id);
        assert forall|k: int| 0 <= k < find_index(peers, id) implies peers[k].id != id by {
            if k > 0 {
                assert(peers[k] == rest[k - 1]);
            }
        }
        if find_index(peers, id) == -1 {
            assert forall|k: int| 0 <= k < peers.len() implies peers[k].id != id by {
                if k > 0 {
                    assert(peers[k] == rest[k - 1]);
                }
            }
        }
    }
}

/// The first index carrying the id is what find_index returns.
pub proof fn lemma_find_index_first(peers: Seq<PeerModel>, id: Seq<char>, i: int)
    requires
        0 <= i < peers.len(),
        peers[i].id == id,
        forall|k: int| 0 <= k < i ==> peers[k].id != id,
    ensures
        find_index(peers, id) == i,
    decreases peers.len(),
{
    if peers[0].id == id {
    } else {
        assert(forall|k: int| 0 <= k < peers.drop_first().len() ==> peers.drop_first()[k] == peers[k + 1]);
        lemma_find_index_first(peers.drop_first(), id, i - 1);
    }
}

/// Index of the registry entry with the given id, if any.
pub fn find_peer(peers: &Vec<Peer>, id: &String) -> (r: Option<usize>)
    ensures
        (r matches Some(i) ==> i < peers@.len() && i == find_index(models_of(peers@), id@)),
        r is None ==> find_index(models_of(peers@), id@) == -1,
{
    let ghost m = models_of(peers@);
    let mut i: usize = 0;
    while i < peers.len()
        invariant
            i <= peers@.len(),
            m == models_of(peers@),
            forall|k: int| 0 <= k < i ==> m[k].id != id@,
        decreases peers@.len() - i,
    {
        if peers[i].id == *id {
            proof {
                assert(m[i as int] == peers@[i as int]@);
                lemma_find_index_first(m, id@, i as int);
            }
            return Some(i);
        }
        proof {
            assert(m[i as int] == peers@[i as int]@);
        }
        i += 1;
    }
    proof {
        lemma_find_index_spec(m, id@);
    }
    None
}

/// An exact copy of one registry entry.
fn copy_peer(p: &Peer) -> (r: Peer)
    ensures
        r == *p,
{
    Peer { id: p.id.clone(), status: p.status, last_seen: p.last_seen.clone() }
}

/// An exact copy of the registry, element for element.
pub fn copy_peers(peers: &Vec<Peer>) -> (r: Vec<Peer>)
    ensures
        r@ == peers@,
{
    let mut r: Vec<Peer> = Vec::new();
    let mut i: usize = 0;
    while i < peers.len()
        invariant
            i <= peers@.len(),
            r@ =~= peers@.take(i as int),
        decreases peers@.len() - i,
    {
        r.push(copy_peer(&peers[i]));
        i += 1;
    }
    assert(peers@.take(peers@.len() as int) =~= peers@);
    r
}

/// Insert the peer, or overwrite the status and last_seen of its entry.
pub fn add_or_update_peer(peers: &mut Vec<Peer>, peer_id: &String, status: PeerStatus, now: &String)
    requires
        distinct_ids(models_of(old(peers)@)),
    ensures
        models_of(final(peers)@) == upsert(models_of(old(peers)@), peer_id@, status, now@),
        distinct_ids(models_of(final(peers)@)),
        final(peers)@.len() == old(peers)@.len() + if has_id(models_of(old(peers)@), peer_id@) {
            0int
        } else {
            1int
        },
{
    let ghost m0 = models_of(peers@);
    let entry = Peer { id: peer_id.clone(), status: status, last_seen: now.clone() };
    assert(entry@ == PeerModel { id: peer_id@, status: status, last_seen: now@ });
    match find_peer(peers, peer_id) {
        Some(i) => {
            peers.set(i, entry);
            proof {
                lemma_find_index_spec(m0, peer_id@);
                assert(models_of(peers@) =~= upsert(m0, peer_id@, status, now@));
                assert forall|a: int, b: int|
                    0 <= a < b < models_of(peers@).len() implies models_of(peers@)[a].id
                    != models_of(peers@)[b].id by {
                    assert(m0[a].id != m0[b].id);
                    assert(models_of(peers@)[a].id == m0[a].id);
                    assert(models_of(peers@)[b].id == m0[b].id);
                }
            }
        },
        None => {
            peers.push(entry);
            proof {
                lemma_find_index_spec(m0, peer_id@);
                assert(models_of(peers@) =~= upsert(m0, peer_id@, status, now@));
                assert forall|a: int, b: int|
                    0 <= a < b < models_of(peers@).len() implies models_of(peers@)[a].id
                    != models_of(peers@)[b].id by {
                    if b < m0.len() {
                        assert(m0[a].id != m0[b].id);
                    } else {
                        assert(m0[a].id != peer_id@);
                    }
                }
            }
        },
    }
}

/// How many registry entries carry the given status.
pub fn count_with_status(peers: &Vec<Peer>, status: PeerStatus) -> (r: usize)
    ensures
        r == count_status(models_of(peers@), status),
{
    let ghost m = models_of(peers@);
    let mut r: usize = 0;
    let mut i: usize = 0;
    while i < peers.len()
        invariant
            i <= peers@.len(),
            m == models_of(peers@),
            r == count_status(m.take(i as int), status),
            r <= i,
        decreases peers@.len() - i,
    {
        proof {
            assert(m.take(i + 1).drop_last() =~= m.take(i as int));
            assert(m.take(i + 1).last() == m[i as int]);
            assert(m[i as int] == peers@[i as int]@);
        }
        if peers[i].status == status {
            r += 1;
        }
        i += 1;
    }
    proof {
        assert(m.take(m.len() as int) =~= m);
    }
    r
}

} // verus!
