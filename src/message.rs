use vstd::prelude::*;
use crate::verdict::Notification;

verus! {

/// The decimal digit for `d`, which is below ten.
pub open spec fn digit_char(d: nat) -> char {
    if d == 0 { '0' }
    else if d == 1 { '1' }
    else if d == 2 { '2' }
    else if d == 3 { '3' }
    else if d == 4 { '4' }
    else if d == 5 { '5' }
    else if d == 6 { '6' }
    else if d == 7 { '7' }
    else if d == 8 { '8' }
    else { '9' }
}

/// The decimal text of `n`, without leading zeros.
pub open spec fn decimal(n: nat) -> Seq<char>
    decreases n,
{
    if n < 10 {
        seq![digit_char(n)]
    } else {
        decimal(n / 10) + seq![digit_char(n % 10)]
    }
}

/// The text that announces `n`, with `created` as the text of its creation time.
pub open spec fn message_text(n: Notification, created: Seq<char>) -> Seq<char> {
    match n {
        Notification::TooOld(pr, _) => "pull request "@ + pr.title@ + " is too old (created: "@ + created + ")"@,
        Notification::NeedReview(pr, _, k) => "pull request "@ + pr.title@ + " needs to be reviewed (approved: "@
            + decimal(k as nat) + " created: "@ + created + ")"@,
        Notification::Reviewed(pr, _, k) => "pull request "@ + pr.title@ + " has been reviewed (approved: "@
            + decimal(k as nat) + " created: "@ + created + ")"@,
    }
}

fn digit_str(d: usize) -> (r: &'static str)
    requires
        d < 10,
    ensures
        r@ == seq![digit_char(d as nat)],
{
    proof {
        reveal_strlit("0");
        reveal_strlit("1");
        reveal_strlit("2");
        reveal_strlit("3");
        reveal_strlit("4");
        reveal_strlit("5");
        reveal_strlit("6");
        reveal_strlit("7");
        reveal_strlit("8");
        reveal_strlit("9");
    }
    let r = if d == 0 { "0" }
    else if d == 1 { "1" }
    else if d == 2 { "2" }
    else if d == 3 { "3" }
    else if d == 4 { "4" }
    else if d == 5 { "5" }
    else if d == 6 { "6" }
    else if d == 7 { "7" }
    else if d == 8 { "8" }
    else { "9" };
    assert(r@ =~= seq![digit_char(d as nat)]);
    r
}

/// The decimal text of `n`.
pub fn decimal_text(n: usize) -> (r: String)
    ensures
        r@ == decimal(n as nat),
    decreases n,
{
    if n < 10 {
        String::from_str(digit_str(n))
    } else {
        let mut s = decimal_text(n / 10);
        s.append(digit_str(n % 10));
        s
    }
}

/// The text that announces `n`, with `created` as the text of its creation time.
pub fn render_message(n: &Notification, created: &str) -> (r: String)
    ensures
        r@ == message_text(*n, created@),
{
    let pr = n.pull_request();
    let mut s = String::from_str("pull request ");
    s.append(pr.title.as_str());
    match n {
        Notification::TooOld(_, _) => {
            s.append(" is too old (created: ");
        },
        Notification::NeedReview(_, _, k) => {
            s.append(" needs to be reviewed (approved: ");
            let d = decimal_text(*k);
            s.append(d.as_str());
            s.append(" created: ");
        },
        Notification::Reviewed(_, _, k) => {
            s.append(" has been reviewed (approved: ");
            let d = decimal_text(*k);
            s.append(d.as_str());
            s.append(" created: ");
        },
    }
    s.append(created);
    s.append(")");
    s
}

/// Whether `c` is a decimal digit.
pub open spec fn is_digit(c: char) -> bool {
    '0' <= c && c <= '9'
}

/// Whether `t` has the shape `YYYY-MM-DD HH:MM:SS`.
pub open spec fn is_timestamp_text(t: Seq<char>) -> bool {
    &&& t.len() == 19
    &&& t[4] == '-' && t[7] == '-' && t[10] == ' ' && t[13] == ':' && t[16] == ':'
    &&& forall|i: int|
        0 <= i < 19 && i != 4 && i != 7 && i != 10 && i != 13 && i != 16 ==> #[trigger] is_digit(t[i])
}

/// Smallest and largest millisecond timestamps that chrono can always turn
/// into a date (well inside its years -262143 to 262142).
pub const MIN_CONVERTIBLE_MILLIS: i64 = -8_000_000_000_000_000;
pub const MAX_CONVERTIBLE_MILLIS: i64 = 8_000_000_000_000_000;

/// Smallest and largest millisecond timestamps whose local date falls, in
/// every time zone, within the years 1000 to 9999 (about 1019 to 9892 in UTC).
pub const MIN_FOUR_DIGIT_YEAR_MILLIS: i64 = -30_000_000_000_000;
pub const MAX_FOUR_DIGIT_YEAR_MILLIS: i64 = 250_000_000_000_000;

/// Relies on chrono's `DateTime::from_timestamp_millis` (`None` only outside
/// chrono's range of dates), `DateTime::with_timezone` to the local time zone
/// and `format` with "%Y-%m-%d %H:%M:%S" (four-digit years for 1000 to 9999,
/// two digits for every other field). Which text comes out depends on the
/// machine's time zone, so only its shape is stated.
#[verifier::external_body]
fn local_time_text(millis: i64) -> (r: Option<String>)
    ensures
        MIN_CONVERTIBLE_MILLIS <= millis <= MAX_CONVERTIBLE_MILLIS ==> r.is_some(),
        MIN_FOUR_DIGIT_YEAR_MILLIS <= millis <= MAX_FOUR_DIGIT_YEAR_MILLIS ==> r.is_some()
            && is_timestamp_text(r.unwrap()@),
{
    match chrono::DateTime::from_timestamp_millis(millis) {
        Some(t) => Some(t.with_timezone(&chrono::Local).format("%Y-%m-%d %H:%M:%S").to_string()),
        None => None,
    }
}

impl Notification {
    pub open spec fn created_spec(&self) -> i64 {
        match self {
            Notification::TooOld(_, c) => *c,
            Notification::NeedReview(_, c, _) => *c,
            Notification::Reviewed(_, c, _) => *c,
        }
    }

    /// The creation time carried by this notification, in milliseconds.
    pub fn created(&self) -> (r: i64)
        ensures
            r == self.created_spec(),
    {
        match self {
            Notification::TooOld(_, c) => *c,
            Notification::NeedReview(_, c, _) => *c,
            Notification::Reviewed(_, c, _) => *c,
        }
    }

    /// The text that announces this notification, with its creation time in
    /// local time as `YYYY-MM-DD HH:MM:SS`; `None` when that time lies outside
    /// the range of representable dates.
    pub fn message(&self) -> (r: Option<String>)
        ensures
            r matches Some(s) ==> exists|t: Seq<char>| s@ == message_text(*self, t),
            MIN_CONVERTIBLE_MILLIS <= self.created_spec() <= MAX_CONVERTIBLE_MILLIS ==> r is Some,
            MIN_FOUR_DIGIT_YEAR_MILLIS <= self.created_spec() <= MAX_FOUR_DIGIT_YEAR_MILLIS ==> (r matches Some(s)
                && exists|t: Seq<char>| is_timestamp_text(t) && s@ == message_text(*self, t)),
    {
        match local_time_text(self.created()) {
            Some(t) => Some(render_message(self, t.as_str())),
            None => None,
        }
    }
}

} // verus!
