use vstd::prelude::*;
use std::collections::HashMap;

verus! {

broadcast use vstd::std_specs::hash::group_hash_axioms;

/// When a pull request was last announced (milliseconds since the Unix
/// epoch) and how many times it has been announced.
#[derive(Clone, Copy, Debug, PartialEq, Eq, Structural)]
pub struct NotificationHistoryEntry {
    pub updated_at: i64,
    pub notified_ctn: u64,
}

impl NotificationHistoryEntry {
    /// An entry seen at `now` and not announced yet.
    pub fn new(now: i64) -> (r: NotificationHistoryEntry)
        ensures
            r.updated_at == now,
            r.notified_ctn == 0,
    {
        NotificationHistoryEntry { updated_at: now, notified_ctn: 0 }
    }
}

/// Whether `e` holds back a notification at `now`: it was announced at least
/// once, less than `interval` milliseconds before `now`.
pub open spec fn throttled(e: NotificationHistoryEntry, now: int, interval: int) -> bool {
    now - e.updated_at < interval && e.notified_ctn > 0
}

/// Whether a pull request with identifier `id` may be announced at `now`.
pub open spec fn allows(h: Map<u32, NotificationHistoryEntry>, id: u32, now: int, interval: int) -> bool {
    !h.contains_key(id) || !throttled(h[id], now, interval)
}

/// The history after announcing `id` at `now`: the count goes up by one
/// (staying at its maximum once there) and the time is overwritten.
pub open spec fn recorded(h: Map<u32, NotificationHistoryEntry>, id: u32, now: i64) -> Map<u32, NotificationHistoryEntry> {
    let count: u64 = if h.contains_key(id) { h[id].notified_ctn } else { 0 };
    let next: u64 = if count == u64::MAX { count } else { (count + 1) as u64 };
    h.insert(id, NotificationHistoryEntry { updated_at: now, notified_ctn: next })
}

/// Per pull request identifier, the last notification and the number of
/// notifications so far. Entries are kept for the life of the value, also for
/// pull requests that were closed since.
pub struct NotificationHistory {
    entries: HashMap<u32, NotificationHistoryEntry>,
}

impl View for NotificationHistory {
    type V = Map<u32, NotificationHistoryEntry>;

    closed spec fn view(&self) -> Map<u32, NotificationHistoryEntry> {
        self.entries@
    }
}

impl NotificationHistory {
    /// An empty history.
    pub fn new() -> (r: NotificationHistory)
        ensures
            r@ == Map::<u32, NotificationHistoryEntry>::empty(),
    {
        NotificationHistory { entries: HashMap::new() }
    }

    /// The entry kept for `id`, if any.
    pub fn entry(&self, id: u32) -> (r: Option<NotificationHistoryEntry>)
        ensures
            r == (if self@.contains_key(id) { Some(self@[id]) } else { None::<NotificationHistoryEntry> }),
    {
        match self.entries.get(&id) {
            Some(e) => Some(*e),
            None => None,
        }
    }

    /// Number of identifiers with an entry.
    pub fn len(&self) -> (r: usize)
        ensures
            r == self@.len(),
    {
        self.entries.len()
    }

    /// Whether `id` may be announced at `now` with a throttle interval of
    /// `interval` milliseconds. Nothing is changed.
    pub fn should_notify(&self, id: u32, now: i64, interval: i64) -> (r: bool)
        ensures
            r == allows(self@, id, now as int, interval as int),
    {
        match self.entries.get(&id) {
            None => true,
            Some(e) => {
                let since: i128 = now as i128 - e.updated_at as i128;
                !(since < interval as i128 && e.notified_ctn > 0)
            },
        }
    }

    /// Records that `id` was announced at `now`.
    pub fn record_notification(&mut self, id: u32, now: i64)
        ensures
            final(self)@ == recorded(old(self)@, id, now),
    {
        let count: u64 = match self.entries.get(&id) {
            Some(e) => e.notified_ctn,
            None => 0,
        };
        let next = NotificationHistoryEntry { updated_at: now, notified_ctn: count.saturating_add(1) };
        self.entries.insert(id, next);
    }

    /// Decides whether `id` is announced at `now` and, when it is, records
    /// the notification, in one step.
    pub fn check_and_record(&mut self, id: u32, now: i64, interval: i64) -> (r: bool)
        ensures
            r == allows(old(self)@, id, now as int, interval as int),
            final(self)@ == (if r { recorded(old(self)@, id, now) } else { old(self)@ }),
    {
        let r = self.should_notify(id, now, interval);
        if r {
            self.record_notification(id, now);
        }
        r
    }
}

/// A fresh identifier is always announced; once announced at `first`, it is
/// held back at any `later` less than `interval` after `first`, and announced
/// again at any `later` at least `interval` after it.
pub proof fn lemma_throttle_window(
    h: Map<u32, NotificationHistoryEntry>,
    id: u32,
    first: i64,
    later: i64,
    interval: i64,
)
    requires
        !h.contains_key(id),
    ensures
        allows(h, id, first as int, interval as int),
        later - first < interval ==> !allows(recorded(h, id, first), id, later as int, interval as int),
        later - first >= interval ==> allows(recorded(h, id, first), id, later as int, interval as int),
{
}

} // verus!
