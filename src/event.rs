use vstd::prelude::*;
use serde_json::Value;
use crate::json::{as_number, member, member_of, u64_of};

verus! {

/// Why no pull-request number could be read from an event.
#[derive(Clone, Copy, Debug, PartialEq, Eq, Structural)]
pub enum EventError {
    MissingPrNumber,
}

/// The pull-request number that an event stands for, from what it holds at
/// `pull_request.number`, `pull_request_target.number` and, where the issue is a pull
/// request, `issue.number`: the first of these that is there wins.
pub open spec fn chosen_pr_number(
    pull_request: Option<u64>,
    pull_request_target: Option<u64>,
    issue_is_pr: bool,
    issue_number: Option<u64>,
) -> Option<u64> {
    if pull_request is Some {
        pull_request
    } else if pull_request_target is Some {
        pull_request_target
    } else if issue_is_pr {
        issue_number
    } else {
        None
    }
}

/// The integer at `v.key.number`, if there is one.
pub open spec fn number_at(v: Value, key: Seq<char>) -> Option<u64> {
    match member_of(v, key) {
        Some(inner) => match member_of(inner, "number"@) {
            Some(n) => u64_of(n),
            None => None,
        },
        None => None,
    }
}

/// Whether the event's issue is a pull request: it has a `pull_request` member.
pub open spec fn issue_is_pr(v: Value) -> bool {
    match member_of(v, "issue"@) {
        Some(issue) => member_of(issue, "pull_request"@) is Some,
        None => false,
    }
}

/// The pull-request number of an event payload, if it holds one.
pub open spec fn event_pr_number(v: Value) -> Option<u64> {
    chosen_pr_number(
        number_at(v, "pull_request"@),
        number_at(v, "pull_request_target"@),
        issue_is_pr(v),
        number_at(v, "issue"@),
    )
}

/// Picks the pull-request number among the places that an event may hold it.
pub fn pick_pr_number(
    pull_request: Option<u64>,
    pull_request_target: Option<u64>,
    issue_is_pr: bool,
    issue_number: Option<u64>,
) -> (r: Result<u64, EventError>)
    ensures
        match chosen_pr_number(pull_request, pull_request_target, issue_is_pr, issue_number) {
            Some(n) => r == Ok::<u64, EventError>(n),
            None => r == Err::<u64, EventError>(EventError::MissingPrNumber),
        },
{
    if let Some(n) = pull_request {
        Ok(n)
    } else if let Some(n) = pull_request_target {
        Ok(n)
    } else if issue_is_pr {
        match issue_number {
            Some(n) => Ok(n),
            None => Err(EventError::MissingPrNumber),
        }
    } else {
        Err(EventError::MissingPrNumber)
    }
}

/// The integer at `v.key.number`, if there is one.
fn number_under(v: &Value, key: &str) -> (r: Option<u64>)
    ensures
        r == number_at(*v, key@),
{
    match member(v, key) {
        Some(inner) => match member(inner, "number") {
            Some(n) => as_number(n),
            None => None,
        },
        None => None,
    }
}

/// Reads the pull-request number of an event payload.
pub fn extract_pr_number(event: &Value) -> (r: Result<u64, EventError>)
    ensures
        match event_pr_number(*event) {
            Some(n) => r == Ok::<u64, EventError>(n),
            None => r == Err::<u64, EventError>(EventError::MissingPrNumber),
        },
{
    let pull_request = number_under(event, "pull_request");
    let pull_request_target = number_under(event, "pull_request_target");
    let (issue_is_pr, issue_number) = match member(event, "issue") {
        Some(issue) => {
            let is_pr = member(issue, "pull_request").is_some();
            let number = match member(issue, "number") {
                Some(n) => as_number(n),
                None => None,
            };
            (is_pr, number)
        },
        None => (false, None),
    };
    pick_pr_number(pull_request, pull_request_target, issue_is_pr, issue_number)
}

} // verus!
