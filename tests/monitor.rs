use review_bot::{
    classify, count_approved, decimal_text, render_message, Bot, Notification, NotificationHistory,
    NotificationHistoryEntry, PullRequest, Reviewer, User,
};

const DAY: i64 = 86_400_000;
const SECOND: i64 = 1000;
const NOW: i64 = 1_700_000_000_000;

fn reviewer(approved: bool) -> Reviewer {
    Reviewer {
        user: User {
            id: 7,
            name: "jdoe".to_string(),
            display_name: "J Doe".to_string(),
            email_address: "jdoe@example.com".to_string(),
        },
        approved,
    }
}

fn pull_request(id: u32, open: bool, created: i64, approvals: &[bool]) -> PullRequest {
    PullRequest {
        id,
        title: format!("change {}", id),
        open,
        created_date: created,
        updated_date: created,
        reviewers: approvals.iter().map(|a| reviewer(*a)).collect(),
    }
}

#[test]
fn too_old_pull_request_is_reported_as_too_old() {
    let pr = pull_request(1, true, NOW - 40 * DAY, &[]);
    let n = classify(pr, NOW, 30 * DAY, 2);
    assert!(matches!(n, Notification::TooOld(ref p, c) if p.id == 1 && c == NOW - 40 * DAY));
    let text = render_message(&n, "2023-10-05 12:00:00");
    assert!(text.contains("is too old"));
    assert_eq!(text, "pull request change 1 is too old (created: 2023-10-05 12:00:00)");
}

#[test]
fn too_old_ignores_approvals() {
    let pr = pull_request(4, true, NOW - 31 * DAY, &[true, true, true]);
    let n = classify(pr, NOW, 30 * DAY, 2);
    assert!(matches!(n, Notification::TooOld(_, _)));
}

#[test]
fn exactly_max_age_is_not_too_old() {
    let pr = pull_request(5, true, NOW - 30 * DAY, &[true, true]);
    let n = classify(pr, NOW, 30 * DAY, 2);
    assert!(matches!(n, Notification::Reviewed(_, _, 2)));
}

#[test]
fn one_of_three_approved_needs_review() {
    let pr = pull_request(2, true, NOW - DAY, &[true, false, false]);
    let n = classify(pr, NOW, 30 * DAY, 2);
    assert!(matches!(n, Notification::NeedReview(ref p, _, 1) if p.id == 2));
    assert_eq!(
        render_message(&n, "T"),
        "pull request change 2 needs to be reviewed (approved: 1 created: T)"
    );
}

#[test]
fn two_of_two_approved_is_reviewed() {
    let pr = pull_request(3, true, NOW - DAY, &[true, true]);
    let n = classify(pr, NOW, 30 * DAY, 2);
    assert!(matches!(n, Notification::Reviewed(ref p, _, 2) if p.id == 3));
    assert_eq!(
        render_message(&n, "T"),
        "pull request change 3 has been reviewed (approved: 2 created: T)"
    );
}

#[test]
fn no_reviewers_with_zero_threshold_is_reviewed() {
    let pr = pull_request(6, true, NOW, &[]);
    let n = classify(pr, NOW, 30 * DAY, 0);
    assert!(matches!(n, Notification::Reviewed(_, _, 0)));
}

#[test]
fn approvals_are_counted_exactly() {
    let pr = pull_request(8, true, NOW, &[false, true, false, true, true]);
    assert_eq!(count_approved(&pr.reviewers), 3);
    assert_eq!(count_approved(&Vec::new()), 0);
}

#[test]
fn decimal_text_of_numbers() {
    assert_eq!(decimal_text(0), "0");
    assert_eq!(decimal_text(9), "9");
    assert_eq!(decimal_text(10), "10");
    assert_eq!(decimal_text(1234), "1234");
}

#[test]
fn message_renders_local_time() {
    let n = Notification::TooOld(pull_request(1, true, 0, &[]), 0);
    let text = n.message().expect("the epoch is a representable date");
    let prefix = "pull request change 1 is too old (created: ";
    assert!(text.starts_with(prefix));
    assert!(text.ends_with(')'));
    assert_eq!(text.len(), prefix.len() + "YYYY-MM-DD HH:MM:SS".len() + 1);
    assert!(text.contains("19"));
}

#[test]
fn message_of_far_dates_is_present() {
    let far = 8_000_000_000_000_000;
    let n = Notification::TooOld(pull_request(1, true, far, &[]), far);
    assert!(n.message().is_some());
    let n = Notification::Reviewed(pull_request(2, true, -far, &[true]), -far, 1);
    let text = n.message().expect("within the range of dates");
    assert!(text.starts_with("pull request change 2 has been reviewed (approved: 1 created: "));
}

#[test]
fn message_of_unrepresentable_time_is_none() {
    let n = Notification::TooOld(pull_request(1, true, i64::MAX, &[]), i64::MAX);
    assert!(n.message().is_none());
}

#[test]
fn history_first_notification_always_fires() {
    let mut h = NotificationHistory::new();
    assert!(h.should_notify(9, NOW, 60 * SECOND));
    assert!(h.check_and_record(9, NOW, 60 * SECOND));
    assert_eq!(
        h.entry(9),
        Some(NotificationHistoryEntry { updated_at: NOW, notified_ctn: 1 })
    );
}

#[test]
fn history_throttles_within_interval_and_releases_after() {
    let mut h = NotificationHistory::new();
    assert!(h.check_and_record(9, NOW, 60 * SECOND));
    assert!(!h.check_and_record(9, NOW + 5 * SECOND, 60 * SECOND));
    assert_eq!(h.entry(9).unwrap().notified_ctn, 1);
    assert_eq!(h.entry(9).unwrap().updated_at, NOW);
    assert!(h.check_and_record(9, NOW + 60 * SECOND, 60 * SECOND));
    assert_eq!(
        h.entry(9),
        Some(NotificationHistoryEntry { updated_at: NOW + 60 * SECOND, notified_ctn: 2 })
    );
}

#[test]
fn history_entry_with_zero_count_does_not_throttle() {
    let e = NotificationHistoryEntry::new(NOW);
    assert_eq!(e.updated_at, NOW);
    assert_eq!(e.notified_ctn, 0);
    let mut h = NotificationHistory::new();
    h.record_notification(3, NOW);
    h.record_notification(3, NOW + 1);
    assert_eq!(h.entry(3).unwrap().notified_ctn, 2);
    assert_eq!(h.len(), 1);
    assert!(h.entry(4).is_none());
}

#[test]
fn bot_thresholds_from_days_and_seconds() {
    let bot = Bot::new(2, 30, 60);
    assert_eq!(bot.min_reviewers_approved, 2);
    assert_eq!(bot.max_age, 30 * DAY);
    assert_eq!(bot.notification_timeout, 60 * SECOND);
    assert_eq!(bot.notification_history.len(), 0);
}

#[test]
fn repoll_within_throttle_emits_nothing() {
    let mut bot = Bot::new(2, 30, 60);
    let first = bot.run(vec![pull_request(2, true, NOW - DAY, &[true, false, false])], NOW);
    assert_eq!(first.len(), 1);
    assert!(matches!(first[0], Notification::NeedReview(_, _, 1)));
    let second = bot.run(
        vec![pull_request(2, true, NOW - DAY, &[true, false, false])],
        NOW + 5 * SECOND,
    );
    assert!(second.is_empty());
}

#[test]
fn repoll_after_throttle_notifies_again() {
    let mut bot = Bot::new(2, 30, 60);
    assert_eq!(bot.run(vec![pull_request(2, true, NOW - DAY, &[])], NOW).len(), 1);
    let again = bot.run(vec![pull_request(2, true, NOW - DAY, &[])], NOW + 60 * SECOND);
    assert_eq!(again.len(), 1);
    assert_eq!(bot.notification_history.entry(2).unwrap().notified_ctn, 2);
}

#[test]
fn closed_pull_requests_are_skipped() {
    let mut bot = Bot::new(2, 30, 60);
    let out = bot.run(
        vec![
            pull_request(10, false, NOW - 40 * DAY, &[]),
            pull_request(11, true, NOW - DAY, &[true, true]),
            pull_request(12, false, NOW - DAY, &[true]),
        ],
        NOW,
    );
    assert_eq!(out.len(), 1);
    assert_eq!(out[0].pull_request().id, 11);
    assert!(bot.notification_history.entry(10).is_none());
    assert!(bot.notification_history.entry(12).is_none());
    assert_eq!(bot.notification_history.len(), 1);
}

#[test]
fn cycle_keeps_snapshot_order_and_repeats_silently() {
    let snapshot = || {
        vec![
            pull_request(1, true, NOW - 40 * DAY, &[]),
            pull_request(2, true, NOW - DAY, &[true, false, false]),
            pull_request(3, true, NOW - DAY, &[true, true]),
        ]
    };
    let mut bot = Bot::new(2, 30, 60);
    let out = bot.run(snapshot(), NOW);
    assert_eq!(out.len(), 3);
    assert!(matches!(out[0], Notification::TooOld(ref p, _) if p.id == 1));
    assert!(matches!(out[1], Notification::NeedReview(ref p, _, 1) if p.id == 2));
    assert!(matches!(out[2], Notification::Reviewed(ref p, _, 2) if p.id == 3));
    assert!(bot.run(snapshot(), NOW + 59 * SECOND).is_empty());
}

#[test]
fn duplicate_identifier_in_one_snapshot_is_announced_once() {
    let mut bot = Bot::new(2, 30, 60);
    let out = bot.run(
        vec![pull_request(5, true, NOW, &[]), pull_request(5, true, NOW, &[])],
        NOW,
    );
    assert_eq!(out.len(), 1);
}
