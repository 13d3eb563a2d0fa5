//! Poll sessions: an in-memory registry of timed polls, the rules that
//! reconcile a voter's selections with stored votes, the timer state machine
//! that closes and evicts each session, and a bounded live-update feed.

pub mod feed;
pub mod ids;
pub mod ledger;
pub mod lifecycle;
pub mod models;
pub mod registry;
pub mod timing;
pub mod validation;
