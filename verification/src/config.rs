//! The application's configuration, from the values of its environment
//! variables.
use vstd::prelude::*;

use crate::text::{decimal, digit_char};

verus! {

/// The database used when `DATABASE_URL` is not set.
pub const DEFAULT_DATABASE_URL: &'static str = "sqlite:data/data.db";

/// The GraphQL endpoint used when `GITHUB_GRAPHQL_URL` is not set.
pub const DEFAULT_GITHUB_GRAPHQL_URL: &'static str = "https://api.github.com/graphql";

/// Seconds between polls when `POLL_INTERVAL` is not a number.
pub const DEFAULT_POLL_INTERVAL: u64 = 10;

/// Repositories per user when `MAX_REPOS_PER_USER` is not a number.
pub const DEFAULT_REPOS_PER_USER: usize = 20;

/// Labels per repository when `MAX_LABELS_PER_REPO` is not a number.
pub const DEFAULT_LABELS_PER_REPO: usize = 10;

/// Concurrent requests when `MAX_CONCURRENCY` is not a number.
pub const DEFAULT_MAX_CONCURRENCY: usize = 10;

/// Rate-limit threshold when `RATE_LIMIT_THRESHOLD` is not a number.
pub const DEFAULT_RATE_LIMIT_THRESHOLD: u64 = 10;

/// Why an environment variable has no usable value (as std's `VarError`).
#[derive(Debug, Clone, PartialEq, Eq)]
pub enum VarError {
    /// The variable is not set.
    NotPresent,
    /// The variable's value is not valid Unicode (shown lossily).
    NotUnicode(String),
}

/// Represents the application configuration.
#[derive(Debug, Clone, PartialEq, Eq)]
pub struct Config {
    /// The GitHub API token.
    pub github_token: String,
    /// The URL of the GitHub GraphQL API.
    pub github_graphql_url: String,
    /// The Telegram bot token.
    pub telegram_bot_token: String,
    /// The interval in seconds to poll for new issues.
    pub poll_interval: u64,
    /// The URL of the database.
    pub database_url: String,
    /// The maximum number of repositories a user can track.
    pub max_repos_per_user: usize,
    /// The maximum number of labels a user can track per repository.
    pub max_labels_per_repo: usize,
    /// The maximum number of concurrent requests to make to the GitHub API.
    pub max_concurrency: usize,
    /// The threshold before the bot should pause operations.
    pub rate_limit_threshold: u64,
}

/// An ASCII decimal digit.
pub open spec fn is_digit(c: char) -> bool {
    '0' <= c && c <= '9'
}

/// The value of a string of decimal digits.
pub open spec fn digits_value(d: Seq<char>) -> nat
    decreases d.len(),
{
    if d.len() == 0 {
        0
    } else {
        digits_value(d.drop_last()) * 10 + (d.last() as nat - '0' as nat) as nat
    }
}

/// The text without its leading `+`, if it has one.
pub open spec fn without_plus(s: Seq<char>) -> Seq<char> {
    if s.len() > 0 && s[0] == '+' {
        s.subrange(1, s.len() as int)
    } else {
        s
    }
}

/// The digits of an unsigned number's text: an optional `+` and at least
/// one ASCII digit, nothing else.
pub open spec fn unsigned_digits(s: Seq<char>) -> Option<Seq<char>> {
    let d = without_plus(s);
    if d.len() > 0 && forall|i: int| 0 <= i < d.len() ==> is_digit(#[trigger] d[i]) {
        Some(d)
    } else {
        None
    }
}

/// What std's `parse` gives for an unsigned type whose largest value is
/// `max`: the number, or `None` for a malformed or too large text.
pub open spec fn parse_unsigned(s: Seq<char>, max: nat) -> Option<nat> {
    match unsigned_digits(s) {
        Some(d) => if digits_value(d) <= max {
            Some(digits_value(d))
        } else {
            None
        },
        None => None,
    }
}

/// A prefix of a digit string is worth no more than the whole string.
pub proof fn lemma_digits_prefix_le(d: Seq<char>, k: int)
    requires
        0 <= k <= d.len(),
    ensures
        digits_value(d.take(k)) <= digits_value(d),
    decreases d.len(),
{
    if k < d.len() {
        lemma_digits_prefix_le(d.drop_last(), k);
        assert(d.drop_last().take(k) =~= d.take(k));
    } else {
        assert(d.take(k) =~= d);
    }
}

/// Parses an unsigned decimal number no larger than `max`, as std's
/// `str::parse` does for unsigned integers.
fn parse_bounded(s: &str, max: u64) -> (res: Option<u64>)
    ensures
        (match parse_unsigned(s@, max as nat) {
            Some(n) => res == Some(n as u64),
            None => res.is_none(),
        }),
{
    let len = s.unicode_len();
    let mut start: usize = 0;
    if len > 0 && s.get_char(0) == '+' {
        start = 1;
    }
    let ghost d = without_plus(s@);
    assert(d =~= s@.subrange(start as int, len as int));
    if start >= len {
        return None;
    }
    let mut acc: u64 = 0;
    let mut i: usize = start;
    while i < len
        invariant
            start <= i <= len,
            len == s@.len(),
            d == s@.subrange(start as int, len as int),
            d == without_plus(s@),
            start < len,
            acc as nat == digits_value(d.take(i - start)),
            acc <= max,
            forall|j: int| 0 <= j < i - start ==> is_digit(#[trigger] d[j]),
        decreases len - i,
    {
        let c = s.get_char(i);
        assert(c == d[i - start]);
        if !('0' <= c && c <= '9') {
            proof {
                let k = i - start;
                assert(0 <= k < d.len() && !is_digit(d[k]));
                assert(!(forall|j: int| 0 <= j < d.len() ==> is_digit(#[trigger] d[j])));
            }
            return None;
        }
        let digit: u64 = (c as u32 - '0' as u32) as u64;
        assert(d.take(i - start + 1).drop_last() =~= d.take(i - start));
        assert(digits_value(d.take(i - start + 1)) == acc * 10 + digit);
        let q = max / 10;
        let r = max % 10;
        assert(max == q * 10 + r && r < 10) by (nonlinear_arith)
            requires
                q == max / 10,
                r == max % 10,
        ;
        if acc > q || (acc == q && digit > r) {
            proof {
                assert(acc * 10 + digit > max) by (nonlinear_arith)
                    requires
                        q == max / 10,
                        r == max % 10,
                        acc > q || (acc == q && digit > r),
                ;
                lemma_digits_prefix_le(d, i - start + 1);
            }
            return None;
        }
        assert(acc * 10 + digit <= max) by (nonlinear_arith)
            requires
                max == q * 10 + r,
                r < 10,
                digit <= 9,
                !(acc > q || (acc == q && digit > r)),
        ;
        acc = acc * 10 + digit;
        i = i + 1;
    }
    assert(d.take(len - start) =~= d);
    Some(acc)
}

/// A number setting: the variable's value when it parses as a number no
/// larger than `max`, else the default.
pub open spec fn number_or(v: Result<String, VarError>, max: nat, default: nat) -> nat {
    match v {
        Ok(s) => match parse_unsigned(s@, max) {
            Some(n) => n,
            None => default,
        },
        Err(_) => default,
    }
}

/// A text setting: the variable's value when it is set, else the default.
pub open spec fn text_or(v: Result<String, VarError>, default: Seq<char>) -> Seq<char> {
    match v {
        Ok(s) => s@,
        Err(_) => default,
    }
}

fn number_setting(v: Result<String, VarError>, max: u64, default: u64) -> (res: u64)
    ensures
        res as nat == number_or(v, max as nat, default as nat),
{
    match v {
        Ok(s) => match parse_bounded(s.as_str(), max) {
            Some(n) => n,
            None => default,
        },
        Err(_) => default,
    }
}

fn text_setting(v: Result<String, VarError>, default: &str) -> (res: String)
    ensures
        res@ == text_or(v, default@),
{
    match v {
        Ok(s) => s,
        Err(_) => String::from_str(default),
    }
}

impl Config {
    /// Creates the configuration from the values of its environment
    /// variables: the two tokens are required (the GitHub token's error
    /// comes first), the URLs fall back to their defaults, and a number
    /// that is unset or does not parse falls back to its default.
    pub fn from_values(
        github_token: Result<String, VarError>,
        github_graphql_url: Result<String, VarError>,
        telegram_bot_token: Result<String, VarError>,
        poll_interval: Result<String, VarError>,
        database_url: Result<String, VarError>,
        max_repos_per_user: Result<String, VarError>,
        max_labels_per_repo: Result<String, VarError>,
        max_concurrency: Result<String, VarError>,
        rate_limit_threshold: Result<String, VarError>,
    ) -> (res: Result<Config, VarError>)
        ensures
            (match (github_token, telegram_bot_token) {
                (Err(e), _) => res == Err::<Config, VarError>(e),
                (Ok(_), Err(e)) => res == Err::<Config, VarError>(e),
                (Ok(g), Ok(t)) => (res matches Ok(c) && {
                    &&& c.github_token == g
                    &&& c.telegram_bot_token == t
                    &&& c.github_graphql_url@ == text_or(
                        github_graphql_url,
                        DEFAULT_GITHUB_GRAPHQL_URL@,
                    )
                    &&& c.database_url@ == text_or(database_url, DEFAULT_DATABASE_URL@)
                    &&& c.poll_interval as nat == number_or(
                        poll_interval,
                        u64::MAX as nat,
                        DEFAULT_POLL_INTERVAL as nat,
                    )
                    &&& c.max_repos_per_user as nat == number_or(
                        max_repos_per_user,
                        usize::MAX as nat,
                        DEFAULT_REPOS_PER_USER as nat,
                    )
                    &&& c.max_labels_per_repo as nat == number_or(
                        max_labels_per_repo,
                        usize::MAX as nat,
                        DEFAULT_LABELS_PER_REPO as nat,
                    )
                    &&& c.max_concurrency as nat == number_or(
                        max_concurrency,
                        usize::MAX as nat,
                        DEFAULT_MAX_CONCURRENCY as nat,
                    )
                    &&& c.rate_limit_threshold as nat == number_or(
                        rate_limit_threshold,
                        u64::MAX as nat,
                        DEFAULT_RATE_LIMIT_THRESHOLD as nat,
                    )
                }),
            }),
    {
        let github_token = match github_token {
            Ok(g) => g,
            Err(e) => {
                return Err(e);
            },
        };
        let github_graphql_url = text_setting(github_graphql_url, DEFAULT_GITHUB_GRAPHQL_URL);
        let telegram_bot_token = match telegram_bot_token {
            Ok(t) => t,
            Err(e) => {
                return Err(e);
            },
        };
        let poll_interval = number_setting(poll_interval, u64::MAX, DEFAULT_POLL_INTERVAL);
        let database_url = text_setting(database_url, DEFAULT_DATABASE_URL);
        let max_repos_per_user = number_setting(
            max_repos_per_user,
            usize::MAX as u64,
            DEFAULT_REPOS_PER_USER as u64,
        ) as usize;
        let max_labels_per_repo = number_setting(
            max_labels_per_repo,
            usize::MAX as u64,
            DEFAULT_LABELS_PER_REPO as u64,
        ) as usize;
        let max_concurrency = number_setting(
            max_concurrency,
            usize::MAX as u64,
            DEFAULT_MAX_CONCURRENCY as u64,
        ) as usize;
        let rate_limit_threshold = number_setting(
            rate_limit_threshold,
            u64::MAX,
            DEFAULT_RATE_LIMIT_THRESHOLD,
        );
        Ok(
            Config {
                github_token,
                github_graphql_url,
                telegram_bot_token,
                poll_interval,
                database_url,
                max_repos_per_user,
                max_labels_per_repo,
                max_concurrency,
                rate_limit_threshold,
            },
        )
    }
}

proof fn lemma_decimal_digits(n: nat)
    ensures
        decimal(n).len() > 0,
        forall|i: int| 0 <= i < decimal(n).len() ==> is_digit(#[trigger] decimal(n)[i]),
        digits_value(decimal(n)) == n,
    decreases n,
{
    assert(digit_char(n % 10) as nat == 48 + n % 10);
    assert('0' as nat == 48);
    if n < 10 {
        assert(decimal(n).drop_last() =~= Seq::<char>::empty());
        assert(decimal(n).last() == digit_char(n));
        assert(digits_value(decimal(n)) == digits_value(Seq::<char>::empty()) * 10 + (
        digit_char(n) as nat - '0' as nat) as nat);
    } else {
        lemma_decimal_digits(n / 10);
        assert((n / 10) * 10 + n % 10 == n) by (nonlinear_arith);
        let d = decimal(n);
        assert(d.drop_last() =~= decimal(n / 10));
        assert(d.last() == digit_char(n % 10));
        assert(digits_value(d) == digits_value(decimal(n / 10)) * 10 + (digit_char(n % 10) as nat
            - '0' as nat) as nat);
        assert forall|i: int| 0 <= i < d.len() implies is_digit(#[trigger] d[i]) by {
            if i < d.len() - 1 {
                assert(d[i] == decimal(n / 10)[i]);
            }
        }
    }
}

/// A number written out in decimal reads back as itself, so a setting
/// stored as the text of a number no larger than the type's maximum is
/// taken as that number.
pub proof fn law_decimal_reads_back(n: nat, max: nat)
    requires
        n <= max,
    ensures
        parse_unsigned(decimal(n), max) == Some(n),
{
    lemma_decimal_digits(n);
    assert(decimal(n)[0] != '+');
    assert(without_plus(decimal(n)) == decimal(n));
}

} // verus!
