//! The vote ledger rule: a voter's selections for one poll are replaced as a
//! whole (delete, then insert), after every requested option was checked to
//! belong to the poll; and the per-option tally read back from the stored votes.
use vstd::prelude::*;
use crate::models::{PollOptionRequest, VoteUpdate};

verus! {

/// Why a vote submission is refused.
#[derive(Clone, Copy, Debug, PartialEq, Eq, Structural)]
pub enum VoteError {
    /// An option outside the poll, or more than one
    /// option on a single-select poll.
    Validation,
    /// The session is unknown or was evicted.
    NotFound,
    /// The session no longer accepts votes.
    Closed,
}

/// A selection is acceptable for a poll: of at most one option unless the
/// poll is multi-select, and made of the poll's own options. An empty
/// selection withdraws the voter's votes in the poll.
pub open spec fn selection_valid(poll_options: Seq<i64>, is_multi: bool, requested: Seq<i64>) -> bool {
    &&& (is_multi || requested.len() <= 1)
    &&& forall|i: int| 0 <= i < requested.len() ==> poll_options.contains(#[trigger] requested[i])
}

/// The options a voter holds votes for after replacing, within the poll, the
/// selection `rows` with `requested`: votes in other polls are kept.
pub open spec fn rows_after(poll_options: Set<i64>, rows: Set<i64>, requested: Set<i64>) -> Set<i64> {
    rows.filter(|o: i64| !poll_options.contains(o)).union(requested)
}

/// The voter's votes that fall within the poll.
pub open spec fn within_poll(poll_options: Set<i64>, rows: Set<i64>) -> Set<i64> {
    rows.filter(|o: i64| poll_options.contains(o))
}

/// Whether `x` occurs in `v`.
fn holds(v: &Vec<i64>, x: i64) -> (r: bool)
    ensures
        r == v@.contains(x),
{
    let mut i: usize = 0;
    while i < v.len()
        invariant
            i <= v.len(),
            forall|j: int| 0 <= j < i ==> v@[j] != x,
        decreases v.len() - i,
    {
        if v[i] == x {
            assert(v@[i as int] == x);
            return true;
        }
        i = i + 1;
    }
    false
}

/// Replaces a voter's selection within one poll. `poll_options` are the
/// poll's option ids, `rows` the option ids the voter holds votes for (in any
/// poll). On success the votes within the poll are exactly `requested`; on
/// failure nothing changes.
pub fn update_vote(
    poll_options: &Vec<i64>,
    is_multi: bool,
    rows: &mut Vec<i64>,
    requested: &Vec<i64>,
) -> (r: Result<(), VoteError>)
    requires
        old(rows)@.no_duplicates(),
    ensures
        r is Ok <==> selection_valid(poll_options@, is_multi, requested@),
        r is Err ==> r->Err_0 == VoteError::Validation && final(rows)@ == old(rows)@,
        r is Ok ==> final(rows)@.to_set() == rows_after(
            poll_options@.to_set(),
            old(rows)@.to_set(),
            requested@.to_set(),
        ),
        final(rows)@.no_duplicates(),
{
    if !is_multi && requested.len() > 1 {
        return Err(VoteError::Validation);
    }
    let mut i: usize = 0;
    while i < requested.len()
        invariant
            i <= requested.len(),
            rows@ == old(rows)@,
            rows@.no_duplicates(),
            forall|j: int| 0 <= j < i ==> poll_options@.contains(#[trigger] requested@[j]),
        decreases requested.len() - i,
    {
        if !holds(poll_options, requested[i]) {
            return Err(VoteError::Validation);
        }
        i = i + 1;
    }
    let mut next: Vec<i64> = Vec::new();
    let mut k: usize = 0;
    while k < rows.len()
        invariant
            k <= rows.len(),
            rows@ == old(rows)@,
            rows@.no_duplicates(),
            next@.no_duplicates(),
            forall|o: i64|
                next@.contains(o) <==> (rows@.take(k as int).contains(o) && !poll_options@.contains(o)),
        decreases rows.len() - k,
    {
        let o = rows[k];
        proof {
            assert(rows@.take(k as int + 1) == rows@.take(k as int).push(o));
            assert forall|x: i64| rows@.take(k as int).contains(x) implies x != o by {
                let j = choose|j: int| 0 <= j < k && rows@.take(k as int)[j] == x;
                assert(rows@[j] == x);
                assert(rows@[k as int] == o);
            }
            assert forall|x: i64| rows@.take(k as int + 1).contains(x)
                <==> (rows@.take(k as int).contains(x) || x == o) by {
                if x == o {
                    assert(rows@.take(k as int + 1)[k as int] == o);
                }
                if rows@.take(k as int).contains(x) {
                    let j = choose|j: int| 0 <= j < k && rows@.take(k as int)[j] == x;
                    assert(rows@.take(k as int + 1)[j] == x);
                }
            }
        }
        let ghost before = next@;
        if !holds(poll_options, o) {
            next.push(o);
            proof {
                assert forall|x: i64| next@.contains(x) <==> (before.contains(x) || x == o) by {
                    if x == o {
                        assert(next@[before.len() as int] == o);
                    }
                    if before.contains(x) {
                        let j = choose|j: int| 0 <= j < before.len() && before[j] == x;
                        assert(next@[j] == x);
                    }
                }
            }
        }
        assert forall|x: i64| next@.contains(x)
            <==> (rows@.take(k as int + 1).contains(x) && !poll_options@.contains(x)) by {
            if x != o {
                assert(next@.contains(x) == before.contains(x));
            }
        }
        k = k + 1;
    }
    assert(rows@.take(rows.len() as int) == rows@);
    let mut m: usize = 0;
    while m < requested.len()
        invariant
            m <= requested.len(),
            rows@ == old(rows)@,
            next@.no_duplicates(),
            forall|o: i64|
                next@.contains(o) <==> ((rows@.contains(o) && !poll_options@.contains(o))
                    || requested@.take(m as int).contains(o)),
            forall|j: int| 0 <= j < requested.len() ==> poll_options@.contains(#[trigger] requested@[j]),
        decreases requested.len() - m,
    {
        let o = requested[m];
        proof {
            assert(requested@.take(m as int + 1) == requested@.take(m as int).push(o));
            assert forall|x: i64| requested@.take(m as int + 1).contains(x)
                <==> (requested@.take(m as int).contains(x) || x == o) by {
                if x == o {
                    assert(requested@.take(m as int + 1)[m as int] == o);
                }
                if requested@.take(m as int).contains(x) {
                    let j = choose|j: int| 0 <= j < m && requested@.take(m as int)[j] == x;
                    assert(requested@.take(m as int + 1)[j] == x);
                }
            }
        }
        let ghost before = next@;
        if !holds(&next, o) {
            next.push(o);
            proof {
                assert forall|x: i64| next@.contains(x) <==> (before.contains(x) || x == o) by {
                    if x == o {
                        assert(next@[before.len() as int] == o);
                    }
                    if before.contains(x) {
                        let j = choose|j: int| 0 <= j < before.len() && before[j] == x;
                        assert(next@[j] == x);
                    }
                }
            }
        }
        assert forall|x: i64| next@.contains(x)
            <==> ((rows@.contains(x) && !poll_options@.contains(x))
                || requested@.take(m as int + 1).contains(x)) by {
            if x != o {
                assert(next@.contains(x) == before.contains(x));
            }
        }
        m = m + 1;
    }
    assert(requested@.take(requested.len() as int) == requested@);
    *rows = next;
    assert(rows@.to_set() =~= rows_after(poll_options@.to_set(), old(rows)@.to_set(), requested@.to_set()));
    Ok(())
}

/// Number of stored votes that reference option `o`.
pub open spec fn vote_count(votes: Seq<i64>, o: i64) -> nat
    decreases votes.len(),
{
    if votes.len() == 0 {
        0
    } else {
        vote_count(votes.drop_last(), o) + (if votes.last() == o { 1nat } else { 0nat })
    }
}

proof fn lemma_vote_count_bounded(votes: Seq<i64>, o: i64)
    ensures
        vote_count(votes, o) <= votes.len(),
    decreases votes.len(),
{
    if votes.len() > 0 {
        lemma_vote_count_bounded(votes.drop_last(), o);
    }
}

/// Counts the stored votes (each given by its option id) for one option.
pub fn count_votes(votes: &Vec<i64>, o: i64) -> (r: u32)
    requires
        votes@.len() <= u32::MAX,
    ensures
        r == vote_count(votes@, o),
{
    let mut n: u32 = 0;
    let mut i: usize = 0;
    while i < votes.len()
        invariant
            i <= votes.len(),
            votes@.len() <= u32::MAX,
            n == vote_count(votes@.take(i as int), o),
        decreases votes.len() - i,
    {
        proof {
            assert(votes@.take(i as int + 1).drop_last() == votes@.take(i as int));
            lemma_vote_count_bounded(votes@.take(i as int), o);
        }
        if votes[i] == o {
            n = n + 1;
        }
        i = i + 1;
    }
    assert(votes@.take(votes.len() as int) == votes@);
    n
}

/// A full tally snapshot: for each option, its public key and the number of
/// stored votes that reference it, in the order of `option_ids`.
pub fn tally_snapshot(option_ids: &Vec<i64>, option_keys: &Vec<String>, votes: &Vec<i64>) -> (r: Vec<VoteUpdate>)
    requires
        option_keys@.len() == option_ids@.len(),
        votes@.len() <= u32::MAX,
    ensures
        r@.len() == option_ids@.len(),
        forall|i: int| 0 <= i < r@.len() ==> (#[trigger] r@[i]).option_uuid@ == option_keys@[i]@
            && r@[i].votes == vote_count(votes@, option_ids@[i]),
{
    let mut out: Vec<VoteUpdate> = Vec::new();
    let mut i: usize = 0;
    while i < option_ids.len()
        invariant
            i <= option_ids.len(),
            option_keys@.len() == option_ids@.len(),
            votes@.len() <= u32::MAX,
            out@.len() == i,
            forall|j: int| 0 <= j < i ==> (#[trigger] out@[j]).option_uuid@ == option_keys@[j]@
                && out@[j].votes == vote_count(votes@, option_ids@[j]),
        decreases option_ids.len() - i,
    {
        let n = count_votes(votes, option_ids[i]);
        out.push(VoteUpdate { option_uuid: option_keys[i].clone(), votes: n });
        i = i + 1;
    }
    out
}

/// After a replacement, a voter's votes within the poll are exactly the
/// requested options: nothing stale is left and nothing is missing.
pub proof fn lemma_replacement_exact(poll_options: Seq<i64>, is_multi: bool, rows: Set<i64>, requested: Seq<i64>)
    requires
        selection_valid(poll_options, is_multi, requested),
    ensures
        within_poll(poll_options.to_set(), rows_after(poll_options.to_set(), rows, requested.to_set()))
            == requested.to_set(),
{
    let after = rows_after(poll_options.to_set(), rows, requested.to_set());
    assert forall|o: i64| #[trigger] requested.to_set().contains(o) implies poll_options.to_set().contains(o) by {
        let i = choose|i: int| 0 <= i < requested.len() && requested[i] == o;
        assert(poll_options.contains(requested[i]));
    }
    assert(within_poll(poll_options.to_set(), after) =~= requested.to_set());
}

/// The votes a voter holds after a sequence of submissions on one poll,
/// starting from `rows`: each acceptable selection replaces the voter's votes
/// within the poll, and each refused one changes nothing.
pub open spec fn after_submissions(
    poll_options: Seq<i64>,
    is_multi: bool,
    rows: Set<i64>,
    submissions: Seq<Seq<i64>>,
) -> Set<i64>
    decreases submissions.len(),
{
    if submissions.len() == 0 {
        rows
    } else {
        let before = after_submissions(poll_options, is_multi, rows, submissions.drop_last());
        if selection_valid(poll_options, is_multi, submissions.last()) {
            rows_after(poll_options.to_set(), before, submissions.last().to_set())
        } else {
            before
        }
    }
}

/// On a single-select poll, after any sequence of submissions by one voter
/// who held at most one vote in it, the voter holds at most one vote in the
/// poll; and once some submission was accepted and none after it, the
/// voter's votes in the poll are exactly the selection of the last accepted
/// one (none, if it was empty).
pub proof fn lemma_single_select_latest(
    poll_options: Seq<i64>,
    rows: Set<i64>,
    submissions: Seq<Seq<i64>>,
    last_accepted: int,
)
    requires
        rows.finite(),
        within_poll(poll_options.to_set(), rows).len() <= 1,
    ensures
        after_submissions(poll_options, false, rows, submissions).finite(),
        within_poll(poll_options.to_set(), after_submissions(poll_options, false, rows, submissions)).len() <= 1,
        0 <= last_accepted < submissions.len()
            && selection_valid(poll_options, false, submissions[last_accepted])
            && (forall|j: int| last_accepted < j < submissions.len()
                ==> !selection_valid(poll_options, false, #[trigger] submissions[j]))
            ==> within_poll(poll_options.to_set(), after_submissions(poll_options, false, rows, submissions))
                == submissions[last_accepted].to_set(),
    decreases submissions.len(),
{
    if submissions.len() > 0 {
        let prefix = submissions.drop_last();
        let req = submissions.last();
        lemma_single_select_latest(poll_options, rows, prefix, last_accepted);
        if selection_valid(poll_options, false, req) {
            let before = after_submissions(poll_options, false, rows, prefix);
            lemma_replacement_exact(poll_options, false, before, req);
            if req.len() == 1 {
                assert(req.to_set() =~= set![req[0]]);
                assert(set![req[0]].len() == 1);
            } else {
                assert(req.to_set() =~= Set::<i64>::empty());
            }
            let after = rows_after(poll_options.to_set(), before, req.to_set());
            assert(after == before.filter(|o: i64| !poll_options.to_set().contains(o)).union(req.to_set()));
            assert(after.finite());
            if 0 <= last_accepted < submissions.len() && selection_valid(poll_options, false, submissions[last_accepted])
                && (forall|j: int| last_accepted < j < submissions.len()
                    ==> !selection_valid(poll_options, false, #[trigger] submissions[j])) {
                assert(last_accepted == submissions.len() - 1);
            }
        } else {
            if 0 <= last_accepted < submissions.len() && selection_valid(poll_options, false, submissions[last_accepted])
                && (forall|j: int| last_accepted < j < submissions.len()
                    ==> !selection_valid(poll_options, false, #[trigger] submissions[j])) {
                assert(last_accepted != submissions.len() - 1);
                assert forall|j: int| last_accepted < j < prefix.len()
                    implies !selection_valid(poll_options, false, #[trigger] prefix[j]) by {
                    assert(prefix[j] == submissions[j]);
                }
                assert(prefix[last_accepted] == submissions[last_accepted]);
            }
        }
    }
}

proof fn lemma_vote_count_append(a: Seq<i64>, b: Seq<i64>, o: i64)
    ensures
        vote_count(a + b, o) == vote_count(a, o) + vote_count(b, o),
    decreases b.len(),
{
    if b.len() == 0 {
        assert(a + b =~= a);
    } else {
        assert((a + b).drop_last() =~= a + b.drop_last());
        lemma_vote_count_append(a, b.drop_last(), o);
    }
}

proof fn lemma_vote_count_distinct(s: Seq<i64>, o: i64)
    requires
        s.no_duplicates(),
    ensures
        vote_count(s, o) == (if s.contains(o) { 1nat } else { 0nat }),
    decreases s.len(),
{
    if s.len() > 0 {
        let p = s.drop_last();
        assert(p.no_duplicates());
        lemma_vote_count_distinct(p, o);
        if p.contains(o) {
            let j = choose|j: int| 0 <= j < p.len() && p[j] == o;
            assert(s[j] == o);
            assert(s.contains(o));
            if s.last() == o {
                assert(s[s.len() - 1] == s[j]);
            }
        } else if s.last() == o {
            assert(s[s.len() - 1] == o);
        } else {
            assert forall|x: i64| s.contains(x) && x == o implies false by {
                let j = choose|j: int| 0 <= j < s.len() && s[j] == x;
                if j < s.len() - 1 {
                    assert(p[j] == x);
                }
            }
        }
    }
}

/// Submissions by two different voters on one poll do not interfere: once
/// each voter's votes were replaced by their own accepted selection, every
/// option of the poll is counted once for each voter who selected it.
pub proof fn lemma_distinct_voters_both_counted(
    poll_options: Seq<i64>,
    is_multi: bool,
    first_rows: Seq<i64>,
    first_after: Seq<i64>,
    first_request: Seq<i64>,
    second_rows: Seq<i64>,
    second_after: Seq<i64>,
    second_request: Seq<i64>,
    o: i64,
)
    requires
        selection_valid(poll_options, is_multi, first_request),
        selection_valid(poll_options, is_multi, second_request),
        first_after.no_duplicates(),
        second_after.no_duplicates(),
        first_after.to_set() == rows_after(poll_options.to_set(), first_rows.to_set(), first_request.to_set()),
        second_after.to_set() == rows_after(poll_options.to_set(), second_rows.to_set(), second_request.to_set()),
        poll_options.contains(o),
    ensures
        vote_count(first_after + second_after, o)
            == (if first_request.contains(o) { 1int } else { 0int })
            + (if second_request.contains(o) { 1int } else { 0int }),
{
    lemma_vote_count_append(first_after, second_after, o);
    lemma_vote_count_distinct(first_after, o);
    lemma_vote_count_distinct(second_after, o);
    assert(first_after.to_set().contains(o) == first_after.contains(o));
    assert(second_after.to_set().contains(o) == second_after.contains(o));
    assert(poll_options.to_set().contains(o));
}

/// The ids of the options marked as selected, in order; `ids[i]` is the id
/// the store gave to `options[i]`.
pub open spec fn selected_ids(options: Seq<PollOptionRequest>, ids: Seq<i64>) -> Seq<i64>
    decreases options.len(),
{
    if options.len() == 0 {
        Seq::empty()
    } else {
        let n = options.len() - 1;
        let rest = selected_ids(options.take(n), ids.take(n));
        if options[n].is_selected {
            rest.push(ids[n])
        } else {
            rest
        }
    }
}

/// The votes a poll's creator holds right after creation: one for each
/// option born selected.
pub fn initial_votes(options: &Vec<PollOptionRequest>, option_ids: &Vec<i64>) -> (r: Vec<i64>)
    requires
        option_ids@.len() == options@.len(),
    ensures
        r@ == selected_ids(options@, option_ids@),
{
    let mut out: Vec<i64> = Vec::new();
    let mut i: usize = 0;
    while i < options.len()
        invariant
            i <= options.len(),
            option_ids@.len() == options@.len(),
            out@ == selected_ids(options@.take(i as int), option_ids@.take(i as int)),
        decreases options.len() - i,
    {
        proof {
            assert(options@.take(i as int + 1).take(i as int) == options@.take(i as int));
            assert(option_ids@.take(i as int + 1).take(i as int) == option_ids@.take(i as int));
        }
        if options[i].is_selected {
            out.push(option_ids[i]);
        }
        i = i + 1;
    }
    assert(options@.take(options.len() as int) == options@);
    assert(option_ids@.take(options.len() as int) == option_ids@);
    out
}

} // verus!
