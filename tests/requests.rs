use poll_sessions::validation::validate_min_selection;
use poll_sessions::models::{PollOptionRequest, PollRequest, PollUpdateRequest};
use poll_sessions::timing::{calc_remaining_time, remaining_time};

fn option(title: &str, is_selected: bool) -> PollOptionRequest {
    PollOptionRequest { title: title.to_string(), is_selected }
}

fn request() -> PollRequest {
    PollRequest {
        username: "alice".to_string(),
        title: "Lunch".to_string(),
        voting_time: 1,
        options: vec![option("A", true), option("B", false)],
        is_multi: false,
    }
}

#[test]
fn valid_request_passes() {
    assert!(request().is_valid());
}

#[test]
fn bounds_are_checked() {
    let mut r = request();
    r.username = "al".to_string();
    assert!(!r.is_valid());
    let mut r = request();
    r.title = "x".repeat(51);
    assert!(!r.is_valid());
    let mut r = request();
    r.title = "é".repeat(50);
    assert!(r.is_valid());
    let mut r = request();
    r.voting_time = 0;
    assert!(!r.is_valid());
    let mut r = request();
    r.voting_time = 256;
    assert!(!r.is_valid());
    let mut r = request();
    r.options = vec![];
    assert!(!r.is_valid());
}

#[test]
fn some_option_must_be_selected() {
    assert!(validate_min_selection(&vec![option("A", false), option("B", true)]).is_ok());
    let e = validate_min_selection(&vec![option("A", false)]).unwrap_err();
    assert_eq!(e.code, "Must select at least one option");
    let mut r = request();
    r.options = vec![option("A", false)];
    assert!(!r.is_valid());
}

#[test]
fn update_request_needs_a_selection() {
    let mut u = PollUpdateRequest { username: "bob".to_string(), poll_id: "x".to_string(), selected_options: vec![] };
    assert!(!u.is_valid());
    u.selected_options = vec![3];
    assert!(u.is_valid());
}

#[test]
fn remaining_minutes_round_toward_zero() {
    let created = 1_743_595_932i64;
    assert_eq!(calc_remaining_time("2025-04-02 12:12:12", 10, created), Some(10));
    assert_eq!(calc_remaining_time("2025-04-02 12:12:12", 10, created + 125), Some(8));
    assert_eq!(calc_remaining_time("2025-04-02 12:12:12", 10, created - 59), Some(10));
    assert_eq!(calc_remaining_time("2025-04-02 12:12:12", 10, created - 61), Some(11));
    assert_eq!(calc_remaining_time("2025-04-02 12:12:12", 1, created + 3600), Some(-59));
    assert_eq!(calc_remaining_time("02.04.2025", 10, created), None);
}

#[test]
fn remaining_time_reads_the_clock() {
    assert_eq!(remaining_time("garbage", 10), None);
    let left = remaining_time("2025-04-02 12:12:12", 10).unwrap();
    assert!(left < 0);
}

#[test]
fn single_select_poll_allows_one_preselection() {
    let mut r = request();
    r.options = vec![option("A", true), option("B", true)];
    assert!(!r.is_valid());
    r.is_multi = true;
    assert!(r.is_valid());
}
