use vstd::prelude::*;
use crate::bitbucket::{PullRequest, approvals, count_approved, lemma_approvals_bounded};

verus! {

/// What one poll cycle reports about an open pull request. Each variant
/// carries the pull request and its creation time (milliseconds since the
/// Unix epoch); the review variants carry the number of approvals too.
pub enum Notification {
    TooOld(PullRequest, i64),
    NeedReview(PullRequest, i64, usize),
    Reviewed(PullRequest, i64, usize),
}

impl Notification {
    pub open spec fn pull_request_spec(&self) -> PullRequest {
        match self {
            Notification::TooOld(pr, _) => *pr,
            Notification::NeedReview(pr, _, _) => *pr,
            Notification::Reviewed(pr, _, _) => *pr,
        }
    }

    /// The pull request this notification is about.
    pub fn pull_request(&self) -> (r: &PullRequest)
        ensures
            *r == self.pull_request_spec(),
    {
        match self {
            Notification::TooOld(pr, _) => pr,
            Notification::NeedReview(pr, _, _) => pr,
            Notification::Reviewed(pr, _, _) => pr,
        }
    }
}

/// The verdict for `pr` at time `now`: too old when more than `max_age`
/// milliseconds have passed since its creation, otherwise by its number of
/// approvals against `min_approved`.
pub open spec fn classification(pr: PullRequest, now: int, max_age: int, min_approved: int) -> Notification {
    if now - pr.created_date > max_age {
        Notification::TooOld(pr, pr.created_date)
    } else if approvals(pr.reviewers@) < min_approved {
        Notification::NeedReview(pr, pr.created_date, approvals(pr.reviewers@) as usize)
    } else {
        Notification::Reviewed(pr, pr.created_date, approvals(pr.reviewers@) as usize)
    }
}

/// Classifies an open pull request at time `now` (milliseconds), with a
/// maximum age of `max_age` milliseconds and `min_approved` approvals needed.
pub fn classify(pr: PullRequest, now: i64, max_age: i64, min_approved: u8) -> (r: Notification)
    ensures
        r == classification(pr, now as int, max_age as int, min_approved as int),
        now - pr.created_date > max_age ==> r == Notification::TooOld(pr, pr.created_date),
        now - pr.created_date <= max_age && approvals(pr.reviewers@) < min_approved ==> r
            == Notification::NeedReview(pr, pr.created_date, approvals(pr.reviewers@) as usize),
        now - pr.created_date <= max_age && approvals(pr.reviewers@) >= min_approved ==> r
            == Notification::Reviewed(pr, pr.created_date, approvals(pr.reviewers@) as usize),
{
    let created = pr.created_date;
    let age: i128 = now as i128 - created as i128;
    if age > max_age as i128 {
        return Notification::TooOld(pr, created);
    }
    let approved = count_approved(&pr.reviewers);
    proof {
        lemma_approvals_bounded(pr.reviewers@);
    }
    if approved < min_approved as usize {
        Notification::NeedReview(pr, created, approved)
    } else {
        Notification::Reviewed(pr, created, approved)
    }
}

} // verus!
