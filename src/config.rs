use vstd::prelude::*;

verus! {

/// Connection to the code-review server.
pub struct Bitbucket {
    pub uri: String,
    pub username: String,
    pub password: String,
}

/// Connection to the chat webhook.
pub struct Slack {
    pub uri: String,
    pub username: String,
    pub channel: String,
}

/// Settings of the monitor: the approval threshold, the maximum age of a pull
/// request in days, the throttle interval and the polling period in seconds.
pub struct Config {
    pub min_reviewers_approved: u8,
    pub pr_max_age: u8,
    pub notification_timeout: u8,
    pub sleep_interval: u8,
    pub bitbucket: Bitbucket,
    pub slack: Slack,
}

} // verus!
