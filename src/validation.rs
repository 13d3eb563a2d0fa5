//! Well-formedness rules for incoming requests.
use vstd::prelude::*;
use validator::{ValidateLength, ValidationError};
use crate::models::{PollOptionRequest, PollRequest, PollUpdateRequest};

verus! {

#[verifier::external_type_specification]
#[verifier::external_body]
pub struct ExValidationError(ValidationError);

/// Relies on validator's ValidateLength for String: the length counted in
/// characters lies between `min` and `max`, both included.
#[verifier::external_body]
fn text_length_within(s: &String, min: u64, max: u64) -> (r: bool)
    ensures
        r == (min <= s@.len() <= max),
{
    s.validate_length(Some(min), Some(max), None)
}

/// Relies on validator::ValidationError::new: an error carrying `code`.
#[verifier::external_body]
fn validation_error(code: &'static str) -> (r: ValidationError) {
    ValidationError::new(code)
}

/// Some option is marked as selected.
pub open spec fn has_selection(options: Seq<PollOptionRequest>) -> bool {
    exists|i: int| 0 <= i < options.len() && (#[trigger] options[i]).is_selected
}

/// At most one option is marked as selected.
pub open spec fn single_selection(options: Seq<PollOptionRequest>) -> bool {
    forall|i: int, j: int|
        0 <= i < options.len() && 0 <= j < options.len() && (#[trigger] options[i]).is_selected
            && (#[trigger] options[j]).is_selected ==> i == j
}

/// A creation request is well formed: username and title of 3 to 50
/// characters, a voting window of 1 to 255 minutes, at least one option, at
/// least one of them selected, and only one unless the poll is multi-select.
pub open spec fn poll_request_valid(req: PollRequest) -> bool {
    &&& 3 <= req.username@.len() <= 50
    &&& 3 <= req.title@.len() <= 50
    &&& 1 <= req.voting_time <= 255
    &&& req.options@.len() >= 1
    &&& has_selection(req.options@)
    &&& (req.is_multi || single_selection(req.options@))
}

/// Whether at most one option is selected.
fn at_most_one_selected(options: &Vec<PollOptionRequest>) -> (r: bool)
    ensures
        r == single_selection(options@),
{
    let mut seen: Option<usize> = None;
    let mut i: usize = 0;
    while i < options.len()
        invariant
            i <= options.len(),
            seen is None ==> forall|j: int| 0 <= j < i ==> !(#[trigger] options@[j]).is_selected,
            seen is Some ==> {
                let k = seen->0 as int;
                &&& k < i
                &&& options@[k].is_selected
                &&& forall|j: int| 0 <= j < i && j != k ==> !(#[trigger] options@[j]).is_selected
            },
        decreases options.len() - i,
    {
        if options[i].is_selected {
            match seen {
                Some(k) => {
                    assert(options@[k as int].is_selected && options@[i as int].is_selected);
                    return false;
                },
                None => {
                    seen = Some(i);
                },
            }
        }
        i = i + 1;
    }
    true
}

/// Fails unless some option is selected.
pub fn validate_min_selection(options: &Vec<PollOptionRequest>) -> (r: Result<(), ValidationError>)
    ensures
        r is Ok <==> has_selection(options@),
{
    let mut i: usize = 0;
    while i < options.len()
        invariant
            i <= options.len(),
            forall|j: int| 0 <= j < i ==> !(#[trigger] options@[j]).is_selected,
        decreases options.len() - i,
    {
        if options[i].is_selected {
            return Ok(());
        }
        i = i + 1;
    }
    Err(validation_error("Must select at least one option"))
}

impl PollRequest {
    pub fn is_valid(&self) -> (r: bool)
        ensures
            r == poll_request_valid(*self),
    {
        text_length_within(&self.username, 3, 50)
            && text_length_within(&self.title, 3, 50)
            && 1 <= self.voting_time && self.voting_time <= 255
            && self.options.len() >= 1
            && validate_min_selection(&self.options).is_ok()
            && (self.is_multi || at_most_one_selected(&self.options))
    }
}

impl PollUpdateRequest {
    /// At least one option is selected.
    pub fn is_valid(&self) -> (r: bool)
        ensures
            r == (self.selected_options@.len() >= 1),
    {
        self.selected_options.len() >= 1
    }
}

} // verus!
