use vstd::prelude::*;
use crate::feed::{FEED_CAPACITY, open_channel, send_snapshot, subscribe_channel};
use rocket::tokio::sync::broadcast::{Receiver, Sender};
use crate::ledger::{count_votes, vote_count};

verus! {

/// Lifecycle label of a poll session while it is held by the registry.
#[derive(Clone, Copy, Debug, PartialEq, Eq, Structural)]
pub enum PollState {
    Started,
    Finished,
}

pub open spec fn state_label(s: PollState) -> Seq<char> {
    match s {
        PollState::Started => "Started"@,
        PollState::Finished => "Finished"@,
    }
}

impl PollState {
    /// The label stored beside the poll for display after a restart.
    pub fn as_str(&self) -> (r: &'static str)
        ensures
            r@ == state_label(*self),
    {
        match self {
            PollState::Started => "Started",
            PollState::Finished => "Finished",
        }
    }
}

} // verus!

verus! {

/// One entry of a tally snapshot: an option's public identifier and its count.
#[derive(Clone, Debug)]
pub struct VoteUpdate {
    pub option_uuid: String,
    pub votes: u32,
}

} // verus!

verus! {

/// One active poll as the registry holds it: the sender of its live-update
/// channel, its lifecycle state, and the durable poll id it stands for.
pub struct PollSession {
    pub tx: Sender<Vec<VoteUpdate>>,
    pub state: PollState,
    pub db_id: i64,
}

impl PollSession {
    /// A freshly armed session: open for votes, with a new channel.
    pub fn new(db_id: i64) -> (r: PollSession)
        ensures
            r.state == PollState::Started,
            r.db_id == db_id,
    {
        PollSession { tx: open_channel(FEED_CAPACITY), state: PollState::Started, db_id }
    }

    /// The same session with its state replaced.
    pub fn with_state(self, state: PollState) -> (r: PollSession)
        ensures
            r == (PollSession { state, ..self }),
    {
        PollSession { state, ..self }
    }

    /// Sends a tally snapshot to the current subscribers; returns how many
    /// there were.
    pub fn publish(&self, snapshot: Vec<VoteUpdate>) -> usize {
        send_snapshot(&self.tx, snapshot)
    }

    /// A subscription to the snapshots published from now on.
    pub fn subscribe(&self) -> Receiver<Vec<VoteUpdate>> {
        subscribe_channel(&self.tx)
    }
}

} // verus!

verus! {

/// One option of a poll being created; `is_selected` records a vote of the
/// creator for it.
#[derive(Clone, Debug)]
pub struct PollOptionRequest {
    pub title: String,
    pub is_selected: bool,
}

/// A request to create a poll.
#[derive(Clone, Debug)]
pub struct PollRequest {
    pub username: String,
    pub title: String,
    pub voting_time: u32,
    pub options: Vec<PollOptionRequest>,
    pub is_multi: bool,
}

/// A voter's new selection for the poll with external id `poll_id`.
#[derive(Clone, Debug)]
pub struct PollUpdateRequest {
    pub username: String,
    pub poll_id: String,
    pub selected_options: Vec<i64>,
}

/// An option as a poll read returns it.
#[derive(Clone, Debug)]
pub struct PollOptionResponse {
    pub id: String,
    pub title: String,
    pub is_selected: bool,
    pub votes: u32,
}

/// A poll as a read returns it.
#[derive(Clone, Debug)]
pub struct PollResponse {
    pub title: String,
    pub remaining_time: i64,
    pub options: Vec<PollOptionResponse>,
    pub state: String,
    pub is_multi: bool,
}

} // verus!

verus! {

impl PollResponse {
    /// A poll as a read returns it. The lifecycle state is the one the
    /// registry holds, not the stored label; option `i` has public key
    /// `option_keys[i]`, title `option_titles[i]`, the creator's flag
    /// `option_selected[i]`, and as count the number of stored `votes` (each
    /// given by its option id) that reference `option_ids[i]`.
    pub fn assemble(
        title: String,
        remaining_time: i64,
        is_multi: bool,
        state: PollState,
        option_ids: &Vec<i64>,
        option_keys: &Vec<String>,
        option_titles: &Vec<String>,
        option_selected: &Vec<bool>,
        votes: &Vec<i64>,
    ) -> (r: PollResponse)
        requires
            option_keys@.len() == option_ids@.len(),
            option_titles@.len() == option_ids@.len(),
            option_selected@.len() == option_ids@.len(),
            votes@.len() <= u32::MAX,
        ensures
            r.title@ == title@,
            r.remaining_time == remaining_time,
            r.is_multi == is_multi,
            r.state@ == state_label(state),
            r.options@.len() == option_ids@.len(),
            forall|i: int| 0 <= i < r.options@.len() ==> {
                &&& (#[trigger] r.options@[i]).id@ == option_keys@[i]@
                &&& r.options@[i].title@ == option_titles@[i]@
                &&& r.options@[i].is_selected == option_selected@[i]
                &&& r.options@[i].votes == vote_count(votes@, option_ids@[i])
            },
    {
        let mut options: Vec<PollOptionResponse> = Vec::new();
        let mut i: usize = 0;
        while i < option_ids.len()
            invariant
                i <= option_ids.len(),
                option_keys@.len() == option_ids@.len(),
                option_titles@.len() == option_ids@.len(),
                option_selected@.len() == option_ids@.len(),
                votes@.len() <= u32::MAX,
                options@.len() == i,
                forall|j: int| 0 <= j < i ==> {
                    &&& (#[trigger] options@[j]).id@ == option_keys@[j]@
                    &&& options@[j].title@ == option_titles@[j]@
                    &&& options@[j].is_selected == option_selected@[j]
                    &&& options@[j].votes == vote_count(votes@, option_ids@[j])
                },
            decreases option_ids.len() - i,
        {
            let n = count_votes(votes, option_ids[i]);
            options.push(PollOptionResponse {
                id: option_keys[i].clone(),
                title: option_titles[i].clone(),
                is_selected: option_selected[i],
                votes: n,
            });
            i = i + 1;
        }
        let label = state.as_str();
        let state_text = label.to_string();
        proof {
            vstd::string::to_string_from_display_ensures_for_str(label, state_text);
        }
        PollResponse { title, remaining_time, options, state: state_text, is_multi }
    }
}

} // verus!
