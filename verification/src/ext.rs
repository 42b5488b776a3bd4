//! Bindings to the outside crates the node relies on: identity generation,
//! the event channel, and the wall clock. Each item's contract states no
//! more than the outside crate's source shows.

use vstd::prelude::*;

use crate::event::P2PEvent;

verus! {

#[verifier::external_type_specification]
#[verifier::external_body]
pub struct ExKeypair(libp2p::identity::Keypair);

#[verifier::external_type_specification]
#[verifier::external_body]
#[verifier::reject_recursive_types(T)]
pub struct ExUnboundedSender<T>(tokio::sync::mpsc::UnboundedSender<T>);

#[verifier::external_type_specification]
#[verifier::external_body]
#[verifier::reject_recursive_types(T)]
pub struct ExUnboundedReceiver<T>(tokio::sync::mpsc::UnboundedReceiver<T>);

/// Relies on libp2p identity: Keypair::generate_ed25519 draws a fresh
/// keypair, and PeerId::from derives the peer id from its public key as a
/// multihash whose base58 text is never empty.
#[verifier::external_body]
pub(crate) fn generate_identity() -> (r: (libp2p::identity::Keypair, String))
    ensures
        r.1@.len() > 0,
{
    let keypair = libp2p::identity::Keypair::generate_ed25519();
    let peer_id = libp2p::PeerId::from(keypair.public());
    (keypair, peer_id.to_string())
}

/// Relies on tokio::sync::mpsc::unbounded_channel: a fresh unbounded
/// multi-producer single-consumer queue that delivers values in send order;
/// the producer half never blocks.
#[verifier::external_body]
pub(crate) fn new_event_channel() -> (r: (
    tokio::sync::mpsc::UnboundedSender<P2PEvent>,
    tokio::sync::mpsc::UnboundedReceiver<P2PEvent>,
)) {
    tokio::sync::mpsc::unbounded_channel()
}

/// Relies on tokio UnboundedSender::send: queues the event and returns
/// true, except when the receive half was closed or dropped, in which case
/// it returns false. Whether the receiver is still alive cannot be stated
/// here, so nothing is promised of the outcome.
#[verifier::external_body]
pub(crate) fn send_event(
    sender: &tokio::sync::mpsc::UnboundedSender<P2PEvent>,
    event: P2PEvent,
) -> (r: bool) {
    sender.send(event).is_ok()
}

/// Whether libp2p's multiaddress grammar accepts the text; a function of
/// the text alone.
pub uninterp spec fn multiaddr_ok(s: Seq<char>) -> bool;

/// Relies on Multiaddr::from_str: whether the text parses as a
/// multiaddress.
#[verifier::external_body]
pub(crate) fn is_valid_multiaddr(s: &String) -> (r: bool)
    ensures
        r == multiaddr_ok(s@),
{
    s.parse::<libp2p::Multiaddr>().is_ok()
}

/// Relies on chrono: Utc::now read from the system clock, rendered with
/// the zero-padded "%H:%M:%S" items, which always give two digits, a colon,
/// two digits, a colon, two digits.
#[verifier::external_body]
pub(crate) fn now_hms() -> (r: String)
    ensures
        r@.len() == 8,
{
    chrono::Utc::now().format("%H:%M:%S").to_string()
}

} // verus!
