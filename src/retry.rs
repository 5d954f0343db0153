use vstd::prelude::*;
use crate::text::{chars_of, is_digit};

verus! {

/// Milliseconds between two attempts of an operation that must not give up.
pub const RETRY_DELAY_MS: u64 = 500;

/// `s[a..a + 3]` is a run of exactly three ASCII digits, with no digit right before or after.
pub open spec fn three_digit_run_at(s: Seq<char>, a: int) -> bool {
    &&& 0 <= a && a + 3 <= s.len()
    &&& is_digit(s[a]) && is_digit(s[a + 1]) && is_digit(s[a + 2])
    &&& (a == 0 || !is_digit(s[a - 1]))
    &&& (a + 3 == s.len() || !is_digit(s[a + 3]))
}

/// Where the first run of exactly three digits starts, searching from `i`.
pub open spec fn first_code_from(s: Seq<char>, i: int) -> Option<int>
    decreases s.len() + 1 - i,
{
    if i < 0 || i + 3 > s.len() {
        None
    } else if three_digit_run_at(s, i) {
        Some(i)
    } else {
        first_code_from(s, i + 1)
    }
}

/// The error text carries a status-shaped code in the 2xx range: its first run of exactly
/// three digits starts with `2`. Some renderers report success this way through an error.
/// Any such number counts, whatever stands around it, so an unrelated `200` in a message is
/// taken for success too: a known weakness of the rule.
pub open spec fn reports_success(s: Seq<char>) -> bool {
    match first_code_from(s, 0) {
        Some(a) => s[a] == '2',
        None => false,
    }
}

fn is_ascii_digit(c: char) -> (r: bool)
    ensures
        r == is_digit(c),
{
    '0' <= c && c <= '9'
}

fn run_at(v: &Vec<char>, a: usize) -> (r: bool)
    ensures
        r == three_digit_run_at(v@, a as int),
{
    if a > v.len() || v.len() - a < 3 {
        return false;
    }
    is_ascii_digit(v[a]) && is_ascii_digit(v[a + 1]) && is_ascii_digit(v[a + 2]) && (a == 0
        || !is_ascii_digit(v[a - 1])) && (a + 3 == v.len() || !is_ascii_digit(v[a + 3]))
}

/// Whether an error message is to be taken as success (see `reports_success`).
pub fn is_success_error_text(msg: &str) -> (r: bool)
    ensures
        r == reports_success(msg@),
{
    let v = chars_of(msg);
    let mut a: usize = 0;
    while a < v.len()
        invariant
            v@ == msg@,
            first_code_from(v@, 0) == first_code_from(v@, a as int),
        decreases v@.len() - a,
    {
        if run_at(&v, a) {
            return v[a] == '2';
        }
        a += 1;
    }
    false
}

/// What to do after one attempt of an operation under retry.
#[derive(Debug, Clone, Copy, PartialEq, Eq)]
pub enum RetryDecision {
    /// The operation counts as done.
    Succeeded,
    /// Try again after this many milliseconds.
    RetryAfterMs(u64),
}

/// Retry forever with a fixed delay, treating an error that reports a 2xx code as success.
#[derive(Debug, Clone, Copy, PartialEq, Eq)]
pub struct RetryPolicy {
    pub delay_ms: u64,
}

impl RetryPolicy {
    pub fn new() -> (r: RetryPolicy)
        ensures
            r.delay_ms == RETRY_DELAY_MS,
    {
        RetryPolicy { delay_ms: RETRY_DELAY_MS }
    }

    /// Decides after an attempt that ended with `error` (`None` when it succeeded).
    pub fn decide(&self, error: Option<&str>) -> (r: RetryDecision)
        ensures
            r == match error {
                None => RetryDecision::Succeeded,
                Some(e) => if reports_success(e@) {
                    RetryDecision::Succeeded
                } else {
                    RetryDecision::RetryAfterMs(self.delay_ms)
                },
            },
    {
        match error {
            None => RetryDecision::Succeeded,
            Some(e) => if is_success_error_text(e) {
                RetryDecision::Succeeded
            } else {
                RetryDecision::RetryAfterMs(self.delay_ms)
            },
        }
    }
}

} // verus!
