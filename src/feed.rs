//! Live-update fan-out over tokio's broadcast channel: publishing never
//! blocks, a subscriber that falls behind the bounded buffer misses the
//! oldest snapshots, and once the session's sender is dropped every
//! subscription ends.
use vstd::prelude::*;
use rocket::tokio::sync::broadcast::{self, Receiver, Sender};
use crate::models::VoteUpdate;

verus! {

/// How many snapshots a feed keeps for subscribers that have not caught up.
pub const FEED_CAPACITY: usize = 16;

#[verifier::external_type_specification]
#[verifier::external_body]
#[verifier::reject_recursive_types(T)]
pub struct ExSender<T>(Sender<T>);

#[verifier::external_type_specification]
#[verifier::external_body]
#[verifier::reject_recursive_types(T)]
pub struct ExReceiver<T>(Receiver<T>);

/// Relies on tokio's broadcast::channel: a fresh channel buffering at least
/// `capacity` values; it panics only on a capacity of 0 or above
/// `usize::MAX / 2`. The receiver it makes is dropped at once.
#[verifier::external_body]
pub(crate) fn open_channel(capacity: usize) -> (r: Sender<Vec<VoteUpdate>>)
    requires
        0 < capacity <= usize::MAX / 2,
{
    broadcast::channel(capacity).0
}

/// Relies on broadcast::Sender::send: the value goes to every receiver
/// subscribed now, without waiting; the count of those receivers is
/// returned, 0 when there is none (the send then fails and nothing is kept).
#[verifier::external_body]
pub(crate) fn send_snapshot(tx: &Sender<Vec<VoteUpdate>>, snapshot: Vec<VoteUpdate>) -> (r: usize) {
    tx.send(snapshot).unwrap_or(0)
}

/// Relies on broadcast::Sender::subscribe: a receiver of every value sent
/// after this call.
#[verifier::external_body]
pub(crate) fn subscribe_channel(tx: &Sender<Vec<VoteUpdate>>) -> (r: Receiver<Vec<VoteUpdate>>) {
    tx.subscribe()
}

} // verus!
