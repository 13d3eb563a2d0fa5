use poll_sessions::ledger::{count_votes, initial_votes, tally_snapshot, update_vote, VoteError};
use poll_sessions::models::PollOptionRequest;

#[test]
fn multi_select_replaces_exactly() {
    let poll = vec![1i64, 2, 3];
    // 7 is a vote in another poll and must survive.
    let mut rows: Vec<i64> = vec![7, 1, 2];
    assert_eq!(update_vote(&poll, true, &mut rows, &vec![3, 2]), Ok(()));
    let mut sorted = rows.clone();
    sorted.sort();
    assert_eq!(sorted, vec![2, 3, 7]);
}

#[test]
fn repeated_ids_give_one_row() {
    let poll = vec![1i64, 2];
    let mut rows: Vec<i64> = Vec::new();
    assert_eq!(update_vote(&poll, true, &mut rows, &vec![2, 2, 1]), Ok(()));
    assert_eq!(rows, vec![2, 1]);
}

#[test]
fn single_select_keeps_latest() {
    let poll = vec![1i64, 2];
    let mut rows: Vec<i64> = Vec::new();
    assert_eq!(update_vote(&poll, false, &mut rows, &vec![1]), Ok(()));
    assert_eq!(update_vote(&poll, false, &mut rows, &vec![2]), Ok(()));
    assert_eq!(rows, vec![2]);
    assert_eq!(update_vote(&poll, false, &mut rows, &vec![2]), Ok(()));
    assert_eq!(rows, vec![2]);
}

#[test]
fn foreign_option_changes_nothing() {
    let poll = vec![1i64, 2];
    let mut rows: Vec<i64> = vec![1];
    assert_eq!(update_vote(&poll, true, &mut rows, &vec![2, 99]), Err(VoteError::Validation));
    assert_eq!(rows, vec![1]);
}

#[test]
fn empty_selection_withdraws_votes() {
    let poll = vec![1i64, 2];
    let mut rows: Vec<i64> = vec![1, 7];
    assert_eq!(update_vote(&poll, false, &mut rows, &vec![]), Ok(()));
    assert_eq!(rows, vec![7]);
}

#[test]
fn counts_per_option() {
    let votes = vec![1i64, 2, 1, 3, 1];
    assert_eq!(count_votes(&votes, 1), 3);
    assert_eq!(count_votes(&votes, 4), 0);
    assert_eq!(count_votes(&vec![], 1), 0);
    let snap = tally_snapshot(&vec![1, 2, 4], &vec!["a".to_string(), "b".to_string(), "c".to_string()], &votes);
    assert_eq!(snap.len(), 3);
    assert_eq!(snap[0].option_uuid, "a");
    assert_eq!(snap[0].votes, 3);
    assert_eq!(snap[1].votes, 1);
    assert_eq!(snap[2].option_uuid, "c");
    assert_eq!(snap[2].votes, 0);
}

#[test]
fn creator_votes_for_preselected_options() {
    let options = vec![
        PollOptionRequest { title: "A".to_string(), is_selected: false },
        PollOptionRequest { title: "B".to_string(), is_selected: true },
        PollOptionRequest { title: "C".to_string(), is_selected: true },
    ];
    assert_eq!(initial_votes(&options, &vec![5, 6, 7]), vec![6, 7]);
    assert_eq!(initial_votes(&vec![], &vec![]), Vec::<i64>::new());
}
