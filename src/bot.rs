use vstd::prelude::*;
use crate::bitbucket::PullRequest;
use crate::config::Config;
use crate::history::{NotificationHistory, NotificationHistoryEntry, allows, recorded, throttled};
use crate::verdict::{Notification, classification, classify};

verus! {

/// Milliseconds in a day.
pub const MILLIS_PER_DAY: i64 = 86_400_000;

/// Milliseconds in a second.
pub const MILLIS_PER_SECOND: i64 = 1000;

/// One poll cycle over `prs` at time `now`, from history `h`: the history
/// afterwards and the notifications, in snapshot order. Closed pull requests
/// are skipped; an open one is announced only when the history allows it, and
/// then its verdict is reported.
pub open spec fn cycle(
    h: Map<u32, NotificationHistoryEntry>,
    prs: Seq<PullRequest>,
    now: i64,
    max_age: int,
    min_approved: int,
    timeout: int,
) -> (Map<u32, NotificationHistoryEntry>, Seq<Notification>)
    decreases prs.len(),
{
    if prs.len() == 0 {
        (h, Seq::empty())
    } else {
        let (h1, out) = cycle(h, prs.drop_last(), now, max_age, min_approved, timeout);
        let pr = prs.last();
        if pr.open && allows(h1, pr.id, now as int, timeout) {
            (recorded(h1, pr.id, now), out.push(classification(pr, now as int, max_age, min_approved)))
        } else {
            (h1, out)
        }
    }
}

/// The notification state of the monitor: its thresholds (the maximum age and
/// the throttle interval in milliseconds) and the history it owns.
pub struct Bot {
    pub min_reviewers_approved: u8,
    pub max_age: i64,
    pub notification_timeout: i64,
    pub notification_history: NotificationHistory,
}

impl Bot {
    /// A monitor with an empty history, from an approval threshold, a maximum
    /// age in days and a throttle interval in seconds.
    pub fn new(min_reviewers_approved: u8, max_age_days: u8, notification_timeout_secs: u8) -> (r: Bot)
        ensures
            r.min_reviewers_approved == min_reviewers_approved,
            r.max_age == max_age_days * MILLIS_PER_DAY,
            r.notification_timeout == notification_timeout_secs * MILLIS_PER_SECOND,
            r.notification_history@ == Map::<u32, NotificationHistoryEntry>::empty(),
    {
        Bot {
            min_reviewers_approved,
            max_age: max_age_days as i64 * MILLIS_PER_DAY,
            notification_timeout: notification_timeout_secs as i64 * MILLIS_PER_SECOND,
            notification_history: NotificationHistory::new(),
        }
    }

    /// A monitor with an empty history, with the thresholds of `cfg`.
    pub fn from_config(cfg: &Config) -> (r: Bot)
        ensures
            r.min_reviewers_approved == cfg.min_reviewers_approved,
            r.max_age == cfg.pr_max_age * MILLIS_PER_DAY,
            r.notification_timeout == cfg.notification_timeout * MILLIS_PER_SECOND,
            r.notification_history@ == Map::<u32, NotificationHistoryEntry>::empty(),
    {
        Bot::new(cfg.min_reviewers_approved, cfg.pr_max_age, cfg.notification_timeout)
    }

    /// Runs one poll cycle over the snapshot `pull_requests` at time `now`
    /// (milliseconds), updating the history, and returns the notifications to
    /// deliver, in snapshot order.
    pub fn run(&mut self, pull_requests: Vec<PullRequest>, now: i64) -> (r: Vec<Notification>)
        ensures
            final(self).min_reviewers_approved == old(self).min_reviewers_approved,
            final(self).max_age == old(self).max_age,
            final(self).notification_timeout == old(self).notification_timeout,
            (final(self).notification_history@, r@) == cycle(
                old(self).notification_history@,
                pull_requests@,
                now,
                old(self).max_age as int,
                old(self).min_reviewers_approved as int,
                old(self).notification_timeout as int,
            ),
    {
        let ghost h0 = self.notification_history@;
        let ghost prs = pull_requests@;
        let mut rest = pull_requests;
        let mut out: Vec<Notification> = Vec::new();
        let n = rest.len();
        let mut i: usize = 0;
        while i < n
            invariant
                i <= n,
                n == prs.len(),
                rest@ == prs.subrange(i as int, n as int),
                self.min_reviewers_approved == old(self).min_reviewers_approved,
                self.max_age == old(self).max_age,
                self.notification_timeout == old(self).notification_timeout,
                (self.notification_history@, out@) == cycle(
                    h0,
                    prs.subrange(0, i as int),
                    now,
                    self.max_age as int,
                    self.min_reviewers_approved as int,
                    self.notification_timeout as int,
                ),
            decreases n - i,
        {
            let pr = rest.remove(0);
            proof {
                assert(prs.subrange(0, i + 1).drop_last() =~= prs.subrange(0, i as int));
                assert(rest@ =~= prs.subrange(i + 1, n as int));
            }
            if pr.open {
                if self.notification_history.check_and_record(pr.id, now, self.notification_timeout) {
                    let v = classify(pr, now, self.max_age, self.min_reviewers_approved);
                    out.push(v);
                }
            }
            i = i + 1;
        }
        proof {
            assert(prs.subrange(0, n as int) =~= prs);
        }
        out
    }
}

/// The notifications of a cycle are all about open pull requests, and an
/// identifier that no open pull request of the snapshot carries keeps its
/// history exactly as it was: closed pull requests are neither recorded nor
/// announced.
pub proof fn lemma_closed_ignored(
    h: Map<u32, NotificationHistoryEntry>,
    prs: Seq<PullRequest>,
    now: i64,
    max_age: int,
    min_approved: int,
    timeout: int,
    id: u32,
)
    requires
        forall|i: int| 0 <= i < prs.len() && #[trigger] prs[i].id == id ==> !prs[i].open,
    ensures
        forall|k: int|
            0 <= k < cycle(h, prs, now, max_age, min_approved, timeout).1.len() ==> (#[trigger] cycle(
                h,
                prs,
                now,
                max_age,
                min_approved,
                timeout,
            ).1[k]).pull_request_spec().open,
        cycle(h, prs, now, max_age, min_approved, timeout).0.contains_key(id) == h.contains_key(id),
        h.contains_key(id) ==> cycle(h, prs, now, max_age, min_approved, timeout).0[id] == h[id],
    decreases prs.len(),
{
    if prs.len() > 0 {
        let p = prs.drop_last();
        assert forall|i: int| 0 <= i < p.len() && #[trigger] p[i].id == id implies !p[i].open by {
            assert(prs[i] == p[i]);
        }
        lemma_closed_ignored(h, p, now, max_age, min_approved, timeout, id);
        assert(prs[prs.len() - 1] == prs.last());
    }
}

/// Whether the history entry `e`, which holds back a notification at `now`,
/// would no longer hold it back at `later`: only such entries can make a
/// repeated cycle announce something again.
pub open spec fn window_ends_between(e: NotificationHistoryEntry, now: int, later: int, timeout: int) -> bool {
    throttled(e, now, timeout) && !throttled(e, later, timeout)
}

proof fn lemma_first_cycle_throttles(
    h: Map<u32, NotificationHistoryEntry>,
    prs: Seq<PullRequest>,
    now: i64,
    later: i64,
    max_age: int,
    min_approved: int,
    timeout: int,
)
    requires
        now <= later < now + timeout,
        forall|i: int|
            0 <= i < prs.len() && #[trigger] prs[i].open && h.contains_key(prs[i].id)
                ==> !window_ends_between(h[prs[i].id], now as int, later as int, timeout),
    ensures
        forall|i: int|
            0 <= i < prs.len() && #[trigger] prs[i].open ==> cycle(h, prs, now, max_age, min_approved, timeout).0.contains_key(prs[i].id)
                && throttled(cycle(h, prs, now, max_age, min_approved, timeout).0[prs[i].id], later as int, timeout),
        forall|id: u32|
            #[trigger] cycle(h, prs, now, max_age, min_approved, timeout).0.contains_key(id) ==> (h.contains_key(id)
                && cycle(h, prs, now, max_age, min_approved, timeout).0[id] == h[id]) || (cycle(
                h,
                prs,
                now,
                max_age,
                min_approved,
                timeout,
            ).0[id].updated_at == now && cycle(h, prs, now, max_age, min_approved, timeout).0[id].notified_ctn > 0),
    decreases prs.len(),
{
    if prs.len() > 0 {
        let p = prs.drop_last();
        assert forall|i: int|
            0 <= i < p.len() && #[trigger] p[i].open && h.contains_key(p[i].id)
                implies !window_ends_between(h[p[i].id], now as int, later as int, timeout) by {
            assert(prs[i] == p[i]);
        }
        lemma_first_cycle_throttles(h, p, now, later, max_age, min_approved, timeout);
        let h1 = cycle(h, p, now, max_age, min_approved, timeout).0;
        let pr = prs.last();
        assert(prs[prs.len() - 1] == pr);
        assert forall|i: int| 0 <= i < prs.len() - 1 implies #[trigger] prs[i] == p[i] by {}
        if pr.open && !allows(h1, pr.id, now as int, timeout) {
            assert(h1.contains_key(pr.id));
            if h.contains_key(pr.id) && h1[pr.id] == h[pr.id] {
                assert(!window_ends_between(h[prs[prs.len() - 1].id], now as int, later as int, timeout));
            }
        }
    }
}

proof fn lemma_throttled_cycle_silent(
    h: Map<u32, NotificationHistoryEntry>,
    prs: Seq<PullRequest>,
    now: i64,
    max_age: int,
    min_approved: int,
    timeout: int,
)
    requires
        forall|i: int|
            0 <= i < prs.len() && #[trigger] prs[i].open ==> h.contains_key(prs[i].id) && throttled(
                h[prs[i].id],
                now as int,
                timeout,
            ),
    ensures
        cycle(h, prs, now, max_age, min_approved, timeout) == (h, Seq::<Notification>::empty()),
    decreases prs.len(),
{
    if prs.len() > 0 {
        let p = prs.drop_last();
        assert forall|i: int| 0 <= i < p.len() && #[trigger] p[i].open implies h.contains_key(p[i].id)
            && throttled(h[p[i].id], now as int, timeout) by {
            assert(prs[i] == p[i]);
        }
        lemma_throttled_cycle_silent(h, p, now, max_age, min_approved, timeout);
        assert(prs[prs.len() - 1] == prs.last());
    }
}

/// Running a cycle again over the same snapshot, at a time `later` less than
/// the throttle interval after the first run, announces nothing, unless the
/// throttle window of an entry that held back an open pull request in the
/// first run ends between the two runs.
pub proof fn lemma_repeated_cycle_silent(
    h: Map<u32, NotificationHistoryEntry>,
    prs: Seq<PullRequest>,
    now: i64,
    later: i64,
    max_age: int,
    min_approved: int,
    timeout: int,
)
    requires
        now <= later < now + timeout,
        forall|i: int|
            0 <= i < prs.len() && #[trigger] prs[i].open && h.contains_key(prs[i].id)
                ==> !window_ends_between(h[prs[i].id], now as int, later as int, timeout),
    ensures
        cycle(cycle(h, prs, now, max_age, min_approved, timeout).0, prs, later, max_age, min_approved, timeout).1
            == Seq::<Notification>::empty(),
{
    lemma_first_cycle_throttles(h, prs, now, later, max_age, min_approved, timeout);
    lemma_throttled_cycle_silent(cycle(h, prs, now, max_age, min_approved, timeout).0, prs, later, max_age, min_approved, timeout);
}

/// A pull request whose history entry holds it back at `now` (announced at
/// least once, less than the throttle interval before) is not announced by
/// the cycle, and its entry stays exactly as it was.
pub proof fn lemma_throttled_suppressed(
    h: Map<u32, NotificationHistoryEntry>,
    prs: Seq<PullRequest>,
    now: i64,
    max_age: int,
    min_approved: int,
    timeout: int,
    id: u32,
)
    requires
        h.contains_key(id),
        throttled(h[id], now as int, timeout),
    ensures
        cycle(h, prs, now, max_age, min_approved, timeout).0.contains_key(id),
        cycle(h, prs, now, max_age, min_approved, timeout).0[id] == h[id],
        forall|k: int|
            0 <= k < cycle(h, prs, now, max_age, min_approved, timeout).1.len() ==> (#[trigger] cycle(
                h,
                prs,
                now,
                max_age,
                min_approved,
                timeout,
            ).1[k]).pull_request_spec().id != id,
    decreases prs.len(),
{
    if prs.len() > 0 {
        lemma_throttled_suppressed(h, prs.drop_last(), now, max_age, min_approved, timeout, id);
    }
}

} // verus!
