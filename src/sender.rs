//! The client's retry schedule: after the `i`th failed attempt it sleeps
//! `(30 s + jitter)^i`, the power taken of the seconds themselves, with the
//! jitter drawn uniformly between 10 s and 30 s. Times are whole milliseconds.

use vstd::prelude::*;

verus! {

/// The fixed part of the wait before a retry, in milliseconds.
pub const RETRY_MS: u64 = 30000;

/// The jitter at its middle, in milliseconds; it is drawn between half and
/// one and a half times this.
pub const JITTER_MS: u64 = 20000;

pub const JITTER_MIN_MS: u64 = 10000;

pub const JITTER_MAX_MS: u64 = 30000;

/// How many times a background submission is attempted.
pub const MAX_ATTEMPTS: u64 = 5;

/// The path of the submission endpoint.
pub const SUBPATH: &'static str = "/submit/v1";

/// How long one request may take, in seconds.
pub const REQUEST_TIMEOUT_SECS: u64 = 30;

pub open spec fn pow_nat(b: nat, e: nat) -> nat
    decreases e,
{
    if e == 0 {
        1
    } else {
        b * pow_nat(b, (e - 1) as nat)
    }
}

/// The wait after the `i`th failed attempt, in milliseconds (rounded down):
/// `(base_ms / 1000)^i` seconds, where `base_ms` is 30 s plus the jitter.
pub open spec fn sleep_ms(jitter_ms: nat, i: nat) -> nat {
    if i == 0 {
        1000
    } else {
        pow_nat((RETRY_MS + jitter_ms) as nat, i) / pow_nat(1000, (i - 1) as nat)
    }
}

proof fn lemma_pow_nat_monotone(b: nat, e1: nat, e2: nat)
    requires
        b >= 1,
        e1 <= e2,
    ensures
        pow_nat(b, e1) <= pow_nat(b, e2),
    decreases e2,
{
    if e1 < e2 {
        lemma_pow_nat_monotone(b, e1, (e2 - 1) as nat);
        assert(pow_nat(b, (e2 - 1) as nat) <= b * pow_nat(b, (e2 - 1) as nat)) by (nonlinear_arith)
            requires
                b >= 1,
        ;
    }
}

/// Relies on rand's `Rng::gen_range` over `thread_rng`: a number within the
/// inclusive range.
#[verifier::external_body]
fn random_in_range(low: u64, high: u64) -> (r: u64)
    requires
        low <= high,
    ensures
        low <= r <= high,
{
    rand::Rng::gen_range(&mut rand::thread_rng(), low..=high)
}

/// Draw the jitter of one retry, in milliseconds.
pub fn compute_jitter() -> (r: u64)
    ensures
        JITTER_MIN_MS <= r <= JITTER_MAX_MS,
{
    random_in_range(JITTER_MIN_MS, JITTER_MAX_MS)
}

proof fn lemma_pow_nat_positive(b: nat, e: nat)
    requires
        b >= 1,
    ensures
        pow_nat(b, e) >= 1,
{
    lemma_pow_nat_monotone(b, 0, e);
}

/// `a * m <= n` gives `a <= n / m`.
proof fn lemma_le_quotient(a: int, m: int, n: int)
    requires
        0 <= a,
        0 < m,
        a * m <= n,
    ensures
        a <= n / m,
{
    vstd::arithmetic::div_mod::lemma_div_is_ordered(m * a, n, m);
    vstd::arithmetic::div_mod::lemma_div_multiples_vanish(a, m);
}

/// With a base of at least a second, a later retry never waits less.
proof fn lemma_sleep_monotone(jitter_ms: nat, i: nat, j: nat)
    requires
        1 <= i <= j,
    ensures
        sleep_ms(jitter_ms, i) <= sleep_ms(jitter_ms, j),
    decreases j,
{
    if i < j {
        lemma_sleep_monotone(jitter_ms, i, (j - 1) as nat);
        let bn = (RETRY_MS + jitter_ms) as nat;
        let x = pow_nat(bn, (j - 1) as nat) as int;
        let e = pow_nat(1000, (j - 2) as nat) as int;
        lemma_pow_nat_positive(1000, (j - 2) as nat);
        assert(pow_nat(bn, j) == bn * x);
        assert(pow_nat(1000, (j - 1) as nat) == 1000 * e);
        let a = x / e;
        vstd::arithmetic::div_mod::lemma_fundamental_div_mod(x, e);
        assert(a * e <= x);
        assert(a * (1000 * e) <= bn * x) by (nonlinear_arith)
            requires
                a * e <= x,
                bn >= 1000,
                a >= 0,
                x >= 0,
        ;
        lemma_le_quotient(a, 1000 * e, bn * x);
    }
}

/// The wait after the `attempts`th failed attempt, for the given jitter; `None`
/// where it does not fit in a `u64` of milliseconds.
pub fn compute_sleep(attempts: u64, jitter_ms: u64) -> (r: Option<u64>)
    requires
        JITTER_MIN_MS <= jitter_ms <= JITTER_MAX_MS,
    ensures
        r == (if sleep_ms(jitter_ms as nat, attempts as nat) <= u64::MAX {
            Some(sleep_ms(jitter_ms as nat, attempts as nat) as u64)
        } else {
            None::<u64>
        }),
{
    if attempts == 0 {
        return Some(1000);
    }
    let b: u128 = (RETRY_MS + jitter_ms) as u128;
    let ghost bn: nat = b as nat;
    let ghost jn: nat = jitter_ms as nat;
    // pow(b, k) == q * d + r, with d == pow(1000, k - 1) and r < d: q is the
    // wait after the `k`th attempt.
    let mut q: u128 = b;
    let mut r: u128 = 0;
    let mut d: u128 = 1;
    let mut k: u64 = 1;
    proof {
        reveal_with_fuel(pow_nat, 12);
        assert(pow_nat(40, 11) == 419430400000000000);
        assert(pow_nat(1000, 9) == 1000000000000000000000000000);
        assert(pow_nat(bn, 0) == 1);
        assert(pow_nat(bn, 1) == bn * pow_nat(bn, 0));
        assert(pow_nat(1000, 0) == 1);
        assert(pow_nat(40, 0) == 1);
        assert(pow_nat(40, 1) == 40 * pow_nat(40, 0));
    }
    while k < attempts
        invariant
            1 <= k <= attempts,
            k <= 10,
            40000 <= b <= 60000,
            bn == b as nat,
            bn == (RETRY_MS + jn) as nat,
            jn == jitter_ms as nat,
            d as nat == pow_nat(1000, (k - 1) as nat),
            pow_nat(bn, k as nat) == q * d + r,
            r < d,
            q <= u64::MAX,
            q >= 1000 * pow_nat(40, k as nat),
            pow_nat(40, 11) == 419430400000000000,
            pow_nat(1000, 9) == 1000000000000000000000000000,
        decreases attempts - k,
    {
        proof {
            lemma_pow_nat_monotone(1000, (k - 1) as nat, 9);
            assert(b * q <= 60000 * 18446744073709551615) by (nonlinear_arith)
                requires
                    b <= 60000,
                    q <= 18446744073709551615,
            ;
            assert(b * r <= 60000 * 1000000000000000000000000000) by (nonlinear_arith)
                requires
                    b <= 60000,
                    r < 1000000000000000000000000000,
            ;
        }
        let bq = b * q;
        let a = bq / 1000;
        let rem = bq % 1000;
        proof {
            assert(rem * d <= 1000 * 1000000000000000000000000000) by (nonlinear_arith)
                requires
                    rem < 1000,
                    d <= 1000000000000000000000000000,
            ;
        }
        let s = rem * d + b * r;
        let d2 = d * 1000;
        let q2 = a + s / d2;
        let r2 = s % d2;
        proof {
            let qi = q as int;
            let di = d as int;
            let ri = r as int;
            assert(pow_nat(bn, (k + 1) as nat) == bn * pow_nat(bn, k as nat));
            assert(bq == 1000 * a + rem);
            lemma_pow_nat_positive(1000, (k - 1) as nat);
            vstd::arithmetic::div_mod::lemma_fundamental_div_mod(s as int, d2 as int);
            assert(s == d2 * (s / d2) + r2);
            assert(pow_nat(bn, (k + 1) as nat) == q2 * d2 + r2) by (nonlinear_arith)
                requires
                    pow_nat(bn, (k + 1) as nat) == bn * (qi * di + ri),
                    bn == b,
                    bq == b * qi,
                    bq == 1000 * a + rem,
                    s == rem * di + b * ri,
                    d2 == di * 1000,
                    s == d2 * (s / d2) + r2,
                    q2 == a + s / d2,
            ;
            assert(pow_nat(1000, k as nat) == 1000 * pow_nat(1000, (k - 1) as nat));
            vstd::arithmetic::div_mod::lemma_fundamental_div_mod_converse(
                pow_nat(bn, (k + 1) as nat) as int,
                d2 as int,
                q2 as int,
                r2 as int,
            );
            assert(sleep_ms(jn, (k + 1) as nat) == q2);
            assert(40000 * q <= b * q) by (nonlinear_arith)
                requires
                    40000 <= b,
            ;
            lemma_le_quotient(40 * q, 1000, bq as int);
            assert(pow_nat(40, (k + 1) as nat) == 40 * pow_nat(40, k as nat));
            assert(q2 >= 1000 * pow_nat(40, (k + 1) as nat));
        }
        if q2 > 18446744073709551615 {
            proof {
                lemma_sleep_monotone(jn, (k + 1) as nat, attempts as nat);
            }
            return None;
        }
        proof {
            if k + 1 > 10 {
                lemma_pow_nat_monotone(40, 11, (k + 1) as nat);
            }
        }
        q = q2;
        r = r2;
        d = d2;
        k = k + 1;
    }
    proof {
        lemma_pow_nat_positive(1000, (k - 1) as nat);
        vstd::arithmetic::div_mod::lemma_fundamental_div_mod_converse(
            pow_nat(bn, k as nat) as int,
            d as int,
            q as int,
            r as int,
        );
    }
    Some(q as u64)
}

/// How an attempt to submit ended. A response of any status counts as sent.
#[derive(Clone, Copy, Debug, PartialEq, Eq, Structural)]
pub enum AttemptOutcome {
    Sent,
    Failed,
}

/// What the client does after an attempt.
#[derive(Clone, Copy, Debug, PartialEq, Eq, Structural)]
pub enum NextStep {
    Finished,
    /// Sleep this many milliseconds, then attempt again.
    Retry(u64),
    GiveUp,
}

/// After attempt `attempt` of `max_attempts` ended with `outcome`, with the
/// jitter drawn for it: stop once sent; after a failure, give up at the last
/// attempt or where the wait does not fit in a `u64` of milliseconds, else
/// wait and retry.
pub fn next_step(attempt: u64, max_attempts: u64, outcome: AttemptOutcome, jitter_ms: u64) -> (r:
    NextStep)
    requires
        1 <= attempt <= max_attempts,
        JITTER_MIN_MS <= jitter_ms <= JITTER_MAX_MS,
    ensures
        r == (match outcome {
            AttemptOutcome::Sent => NextStep::Finished,
            AttemptOutcome::Failed => if attempt == max_attempts || sleep_ms(
                jitter_ms as nat,
                attempt as nat,
            ) > u64::MAX {
                NextStep::GiveUp
            } else {
                NextStep::Retry(sleep_ms(jitter_ms as nat, attempt as nat) as u64)
            },
        }),
{
    match outcome {
        AttemptOutcome::Sent => NextStep::Finished,
        AttemptOutcome::Failed => {
            if attempt == max_attempts {
                NextStep::GiveUp
            } else {
                match compute_sleep(attempt, jitter_ms) {
                    Some(ms) => NextStep::Retry(ms),
                    None => NextStep::GiveUp,
                }
            }
        },
    }
}

} // verus!
