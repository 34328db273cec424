use vstd::prelude::*;
use vstd::string::StringExecFns;

use crate::text::{contains_seq, contains_str, decimal_digits, decimal_u64, lowercase_text, to_lowercase};

verus! {

/// Draws a whole number of seconds uniformly from `0..=bound` with
/// `rand::random_range`. Claimed: the draw lies in that range; which value
/// comes out is left to chance.
#[verifier::external_body]
fn random_up_to(bound: u64) -> (r: u64)
    ensures
        r <= bound,
{
    rand::random_range(0..=bound)
}

/// `2` to the power `e`.
pub open spec fn pow2(e: nat) -> nat
    decreases e,
{
    if e == 0 { 1 } else { 2 * pow2((e - 1) as nat) }
}

/// An error worth retrying: its lowercased text speaks of a timeout, the
/// connection, the network or a server-side failure.
pub open spec fn is_transient_error(text: Seq<char>) -> bool {
    let t = lowercase_text(text);
    ||| contains_seq(t, "timeout"@)
    ||| contains_seq(t, "connection"@)
    ||| contains_seq(t, "network"@)
    ||| contains_seq(t, "5xx"@)
    ||| contains_seq(t, "internal server"@)
    ||| contains_seq(t, "service unavailable"@)
}

/// An error is transient exactly when its lowercased text mentions a
/// timeout, the connection, the network, a 5xx status, an internal server
/// error or an unavailable service; each of these alone makes it transient.
pub proof fn lemma_transient_keywords(text: Seq<char>)
    ensures
        contains_seq(lowercase_text(text), "timeout"@) ==> is_transient_error(text),
        contains_seq(lowercase_text(text), "connection"@) ==> is_transient_error(text),
        contains_seq(lowercase_text(text), "network"@) ==> is_transient_error(text),
        contains_seq(lowercase_text(text), "5xx"@) ==> is_transient_error(text),
        contains_seq(lowercase_text(text), "internal server"@) ==> is_transient_error(text),
        contains_seq(lowercase_text(text), "service unavailable"@) ==> is_transient_error(text),
        is_transient_error(text) ==> {
            let t = lowercase_text(text);
            contains_seq(t, "timeout"@) || contains_seq(t, "connection"@) || contains_seq(t, "network"@)
                || contains_seq(t, "5xx"@) || contains_seq(t, "internal server"@)
                || contains_seq(t, "service unavailable"@)
        },
{
}

/// The error reported after giving up.
pub open spec fn failure_text(max_attempts: nat, last_error: Option<Seq<char>>) -> Seq<char> {
    match last_error {
        Some(e) => "Operation failed after "@ + decimal_digits(max_attempts) + " attempts. Last error: "@ + e,
        None => "Operation failed after "@ + decimal_digits(max_attempts) + " attempts. Unknown error."@,
    }
}

/// Whether an error text speaks of a transient failure.
pub fn is_retryable(error_text: &str) -> (b: bool)
    ensures
        b == is_transient_error(error_text@),
{
    let t = to_lowercase(error_text);
    let s = t.as_str();
    contains_str(s, "timeout") || contains_str(s, "connection") || contains_str(s, "network")
        || contains_str(s, "5xx") || contains_str(s, "internal server") || contains_str(s, "service unavailable")
}

/// What a retried operation does next.
#[derive(Debug)]
pub enum BackoffAction {
    /// Make the call (again).
    Call,
    /// Sleep this many seconds, then make the call again.
    Wait(u64),
    /// Stop with this error.
    GiveUp(String),
}

/// Retrying an operation with exponential backoff and full jitter: after the
/// `n`-th failed attempt of a transient kind it waits between `0` and
/// `2^(n-1)` seconds and tries again, at most `max_attempts` times in all.
#[derive(Debug)]
pub struct Backoff {
    /// The number of the attempt under way, from 1.
    pub attempt: u32,
    pub max_attempts: u32,
}

impl Backoff {
    /// The state is consistent: the attempt under way is one of the allowed.
    pub open spec fn wf(&self) -> bool {
        1 <= self.attempt <= self.max_attempts
    }

    /// Starts retrying with at most `max_attempts` attempts; with none allowed
    /// it gives up at once.
    pub fn start(max_attempts: u32) -> (r: (Backoff, BackoffAction))
        ensures
            max_attempts == 0 ==> (r.1 matches BackoffAction::GiveUp(m) && m@ == failure_text(0, None)),
            max_attempts > 0 ==> (r.1 is Call && r.0.wf() && r.0.attempt == 1 && r.0.max_attempts == max_attempts),
    {
        let b = Backoff { attempt: 1, max_attempts };
        if max_attempts == 0 {
            (b, BackoffAction::GiveUp(failure_message(0, None)))
        } else {
            (b, BackoffAction::Call)
        }
    }

    /// Takes the error of the attempt under way: a transient error before the
    /// last attempt leads to a wait of at most `2^(attempt-1)` seconds and the
    /// next attempt; otherwise the operation gives up with the error. A retry
    /// after the 64th attempt would need a wait bound of `2^64`, past `u64`.
    pub fn on_failure(self, error_text: String) -> (r: (Backoff, BackoffAction))
        requires
            self.wf(),
            is_transient_error(error_text@) && self.attempt < self.max_attempts ==> self.attempt <= 64,
        ensures
            (if is_transient_error(error_text@) && self.attempt < self.max_attempts {
                &&& r.1 matches BackoffAction::Wait(secs) && secs <= pow2((self.attempt - 1) as nat)
                &&& r.0.attempt == self.attempt + 1
                &&& r.0.max_attempts == self.max_attempts
                &&& r.0.wf()
            } else {
                r.1 matches BackoffAction::GiveUp(m) && m@ == failure_text(self.max_attempts as nat, Some(error_text@))
            }),
    {
        let retry = is_retryable(error_text.as_str());
        if !retry || self.attempt == self.max_attempts {
            let m = failure_message(self.max_attempts, Some(error_text));
            (self, BackoffAction::GiveUp(m))
        } else {
            let base = power_of_two(self.attempt - 1);
            let secs = random_up_to(base);
            (Backoff { attempt: self.attempt + 1, max_attempts: self.max_attempts }, BackoffAction::Wait(secs))
        }
    }
}

/// `2^e`, as `2u64.pow(e)` computes it.
pub fn power_of_two(e: u32) -> (r: u64)
    requires
        e < 64,
    ensures
        r == pow2(e as nat),
{
    let mut r: u64 = 1;
    let mut i: u32 = 0;
    while i < e
        invariant
            i <= e,
            e < 64,
            r == pow2(i as nat),
        decreases e - i,
    {
        proof { lemma_pow2_bound((i + 1) as nat); }
        r = r * 2;
        i = i + 1;
    }
    r
}

proof fn lemma_pow2_bound(e: nat)
    requires
        e < 64,
    ensures
        pow2(e) <= 0x8000_0000_0000_0000,
    decreases e,
{
    lemma_pow2_monotone(e, 63);
    assert(pow2(63) == 0x8000_0000_0000_0000) by {
        reveal_with_fuel(pow2, 64);
    }
}

proof fn lemma_pow2_monotone(a: nat, b: nat)
    requires
        a <= b,
    ensures
        pow2(a) <= pow2(b),
    decreases b,
{
    if a < b {
        lemma_pow2_monotone(a, (b - 1) as nat);
    }
}

/// The error reported after giving up.
pub fn failure_message(max_attempts: u32, last_error: Option<String>) -> (m: String)
    ensures
        m@ == failure_text(max_attempts as nat, match last_error {
            Some(e) => Some(e@),
            None => None,
        }),
{
    let mut m = String::from_str("Operation failed after ");
    m.append(decimal_u64(max_attempts as u64).as_str());
    match last_error {
        Some(e) => {
            m.append(" attempts. Last error: ");
            m.append(e.as_str());
        }
        None => {
            m.append(" attempts. Unknown error.");
        }
    }
    m
}

} // verus!
