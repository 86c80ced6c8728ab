use vstd::prelude::*;

verus! {

/// A user of the code-review server.
pub struct User {
    pub id: u32,
    pub name: String,
    pub display_name: String,
    pub email_address: String,
}

/// A person asked to approve a pull request, and whether they did.
pub struct Reviewer {
    pub user: User,
    pub approved: bool,
}

/// A pull request as the code-review server reports it. Timestamps are
/// milliseconds since the Unix epoch.
pub struct PullRequest {
    pub id: u32,
    pub title: String,
    pub open: bool,
    pub created_date: i64,
    pub updated_date: i64,
    pub reviewers: Vec<Reviewer>,
}

/// One page of pull requests.
pub struct Response {
    pub size: u8,
    pub values: Vec<PullRequest>,
}

/// Number of entries of `rs` that carry an approval.
pub open spec fn approvals(rs: Seq<Reviewer>) -> nat
    decreases rs.len(),
{
    if rs.len() == 0 {
        0
    } else {
        approvals(rs.drop_last()) + if rs.last().approved { 1nat } else { 0nat }
    }
}

pub proof fn lemma_approvals_bounded(rs: Seq<Reviewer>)
    ensures
        approvals(rs) <= rs.len(),
    decreases rs.len(),
{
    if rs.len() > 0 {
        lemma_approvals_bounded(rs.drop_last());
    }
}

/// Counts the entries that carry an approval.
pub fn count_approved(reviewers: &Vec<Reviewer>) -> (r: usize)
    ensures
        r == approvals(reviewers@),
{
    let mut n: usize = 0;
    let mut i: usize = 0;
    while i < reviewers.len()
        invariant
            i <= reviewers.len(),
            n == approvals(reviewers@.subrange(0, i as int)),
            n <= i,
        decreases reviewers.len() - i,
    {
        proof {
            assert(reviewers@.subrange(0, i + 1).drop_last() =~= reviewers@.subrange(0, i as int));
        }
        if reviewers[i].approved {
            n = n + 1;
        }
        i = i + 1;
    }
    proof {
        assert(reviewers@.subrange(0, i as int) =~= reviewers@);
    }
    n
}

} // verus!
