//! Decision engine of a pull-request review monitor: classification of open
//! pull requests, throttling of repeated notifications, one poll cycle, and the
//! text of each notification.

pub mod bitbucket;
pub mod config;
pub mod verdict;
pub mod history;
pub mod message;
pub mod bot;

pub use bitbucket::{PullRequest, Response, Reviewer, User, count_approved};
pub use bot::Bot;
pub use config::{Bitbucket, Config, Slack};
pub use history::{NotificationHistory, NotificationHistoryEntry};
pub use message::{decimal_text, render_message};
pub use verdict::{Notification, classify};
