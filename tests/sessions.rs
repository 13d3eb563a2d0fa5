use poll_sessions::feed::FEED_CAPACITY;
use poll_sessions::ids::is_valid_session_id;
use poll_sessions::ledger::{tally_snapshot, VoteError};
use poll_sessions::models::{PollResponse, PollSession, PollState, VoteUpdate};
use poll_sessions::registry::{submit_vote, RegistryError, SessionRegistry, SessionStatus};
use rocket::tokio::sync::broadcast::error::TryRecvError;

fn snapshot(n: u32) -> Vec<VoteUpdate> {
    vec![VoteUpdate { option_uuid: "1".to_string(), votes: n }]
}

fn tally_of(option_ids: &Vec<i64>, votes: &Vec<i64>) -> Vec<u32> {
    let keys: Vec<String> = option_ids.iter().map(|i| i.to_string()).collect();
    tally_snapshot(option_ids, &keys, votes).iter().map(|u| u.votes).collect()
}

#[test]
fn state_labels() {
    assert_eq!(PollState::Started.as_str(), "Started");
    assert_eq!(PollState::Finished.as_str(), "Finished");
}

#[test]
fn new_session_is_started() {
    let s = PollSession::new(42);
    assert_eq!(s.state, PollState::Started);
    assert_eq!(s.db_id, 42);
    assert_eq!(s.publish(snapshot(1)), 0);
    let mut rx = s.subscribe();
    assert_eq!(s.publish(snapshot(2)), 1);
    assert_eq!(rx.try_recv().unwrap()[0].votes, 2);
}

#[test]
fn created_session_is_open_and_unique() {
    let mut reg = SessionRegistry::new();
    let a = reg.create_session(1).unwrap();
    let b = reg.create_session(2).unwrap();
    assert_ne!(a, b);
    assert_eq!(a.len(), 36);
    assert!(is_valid_session_id(&a));
    assert!(is_valid_session_id(&b));
    assert_eq!(reg.get_session_state(&a), SessionStatus::Open);
    assert_eq!(reg.lookup(&b), Some((PollState::Started, 2)));
}

#[test]
fn malformed_session_id_is_rejected() {
    assert!(!is_valid_session_id(&"not-a-uuid".to_string()));
    assert!(is_valid_session_id(&"67e55044-10b1-426f-9247-bb680e5fe0c8".to_string()));
}

#[test]
fn insert_refuses_taken_id() {
    let mut reg = SessionRegistry::new();
    let id = "67e55044-10b1-426f-9247-bb680e5fe0c8".to_string();
    assert_eq!(reg.insert(id.clone(), PollSession::new(1)), Ok(()));
    assert_eq!(reg.insert(id.clone(), PollSession::new(2)), Err(RegistryError::Collision));
    assert_eq!(reg.lookup(&id), Some((PollState::Started, 1)));
}

#[test]
fn close_then_evict() {
    let mut reg = SessionRegistry::new();
    let id = reg.create_session(7).unwrap();
    assert!(reg.mutate_state(&id, PollState::Finished));
    assert_eq!(reg.get_session_state(&id), SessionStatus::Closed);
    assert!(reg.remove(&id));
    assert_eq!(reg.get_session_state(&id), SessionStatus::NotFound);
    assert!(!reg.remove(&id));
    assert!(!reg.mutate_state(&id, PollState::Finished));
    assert_eq!(reg.get_session_state(&id), SessionStatus::NotFound);
}

#[test]
fn feed_drops_oldest_when_full() {
    let mut reg = SessionRegistry::new();
    let id = reg.create_session(3).unwrap();
    let mut rx = reg.subscribe(&id).unwrap();
    for n in 0..(FEED_CAPACITY as u32 + 2) {
        assert!(reg.publish_tally(&id, snapshot(n)));
    }
    assert!(matches!(rx.try_recv(), Err(TryRecvError::Lagged(2))));
    assert_eq!(rx.try_recv().unwrap()[0].votes, 2);
}

#[test]
fn registry_feed_reaches_subscriber() {
    let mut reg = SessionRegistry::new();
    let id = reg.create_session(3).unwrap();
    assert!(reg.publish_tally(&id, snapshot(1)));
    let mut rx = reg.subscribe(&id).unwrap();
    assert!(matches!(rx.try_recv(), Err(TryRecvError::Empty)));
    assert!(reg.publish_tally(&id, snapshot(4)));
    let got = rx.try_recv().unwrap();
    assert_eq!(got[0].option_uuid, "1");
    assert_eq!(got[0].votes, 4);
    assert!(reg.remove(&id));
    assert!(matches!(rx.try_recv(), Err(TryRecvError::Closed)));
    assert!(!reg.publish_tally(&id, snapshot(5)));
    assert!(reg.subscribe(&id).is_none());
}

// Single-select poll with options A=10, B=11, voting time one minute.
#[test]
fn single_select_scenario_ends_closed() {
    let mut reg = SessionRegistry::new();
    let options = vec![10i64, 11];
    let id = reg.create_session(1).unwrap();
    let mut alice: Vec<i64> = Vec::new();
    assert_eq!(submit_vote(&reg, &id, &options, false, &mut alice, &vec![10]), Ok(1));
    assert_eq!(tally_of(&options, &alice), vec![1, 0]);
    assert_eq!(submit_vote(&reg, &id, &options, false, &mut alice, &vec![11]), Ok(1));
    assert_eq!(tally_of(&options, &alice), vec![0, 1]);
    reg.mutate_state(&id, PollState::Finished);
    assert_eq!(submit_vote(&reg, &id, &options, false, &mut alice, &vec![10]), Err(VoteError::Closed));
    assert_eq!(tally_of(&options, &alice), vec![0, 1]);
}

#[test]
fn single_select_refuses_two_options() {
    let mut reg = SessionRegistry::new();
    let options = vec![10i64, 11];
    let id = reg.create_session(1).unwrap();
    let mut bob: Vec<i64> = Vec::new();
    assert_eq!(
        submit_vote(&reg, &id, &options, false, &mut bob, &vec![10, 11]),
        Err(VoteError::Validation)
    );
    assert_eq!(bob, Vec::<i64>::new());
    assert_eq!(tally_of(&options, &bob), vec![0, 0]);
}

#[test]
fn two_voters_are_both_counted() {
    let mut reg = SessionRegistry::new();
    let options = vec![10i64, 11, 12];
    let id = reg.create_session(9).unwrap();
    let mut a: Vec<i64> = Vec::new();
    let mut b: Vec<i64> = Vec::new();
    assert_eq!(submit_vote(&reg, &id, &options, true, &mut a, &vec![10, 11]), Ok(9));
    assert_eq!(submit_vote(&reg, &id, &options, true, &mut b, &vec![11]), Ok(9));
    let mut all = a.clone();
    all.extend(b.iter());
    assert_eq!(tally_of(&options, &all), vec![1, 2, 0]);
}

#[test]
fn unknown_and_malformed_ids() {
    let reg = SessionRegistry::new();
    let options = vec![10i64];
    let mut rows: Vec<i64> = vec![10];
    assert_eq!(
        submit_vote(&reg, &"nope".to_string(), &options, false, &mut rows, &vec![10]),
        Err(VoteError::Validation)
    );
    assert_eq!(
        submit_vote(&reg, &"67e55044-10b1-426f-9247-bb680e5fe0c8".to_string(), &options, false, &mut rows, &vec![10]),
        Err(VoteError::NotFound)
    );
    assert_eq!(rows, vec![10]);
}

#[test]
fn poll_read_uses_registry_state_and_counts() {
    let r = PollResponse::assemble(
        "Lunch".to_string(),
        5,
        false,
        PollState::Finished,
        &vec![10, 11],
        &vec!["10".to_string(), "11".to_string()],
        &vec!["A".to_string(), "B".to_string()],
        &vec![true, false],
        &vec![11, 10, 11],
    );
    assert_eq!(r.state, "Finished");
    assert_eq!(r.title, "Lunch");
    assert_eq!(r.remaining_time, 5);
    assert_eq!(r.options.len(), 2);
    assert_eq!(r.options[0].id, "10");
    assert_eq!(r.options[0].title, "A");
    assert!(r.options[0].is_selected);
    assert_eq!(r.options[0].votes, 1);
    assert_eq!(r.options[1].votes, 2);
}
