use rand::Rng;
use vstd::prelude::*;

verus! {

/// Delay before the first retry, in seconds.
pub const INITIAL_RETRY_INTERVAL: u64 = 2;

/// Upper bound on any retry delay, in seconds.
pub const MAX_RETRY_INTERVAL: u64 = 300;

/// Upper bound on any retry delay, in milliseconds.
pub const MAX_RETRY_MILLIS: u64 = 300_000;

/// Lowest jitter factor, in thousandths.
pub const JITTER_MIN_PERMILLE: u64 = 800;

/// Highest jitter factor, in thousandths.
pub const JITTER_MAX_PERMILLE: u64 = 1200;

pub open spec fn pow2(n: nat) -> nat
    decreases n,
{
    if n == 0 {
        1
    } else {
        2 * pow2((n - 1) as nat)
    }
}

/// The delay in seconds after `failures` consecutive failures, before jitter:
/// `min(300, 2 * 2^failures)`.
pub open spec fn base_interval(failures: nat) -> nat {
    let b = INITIAL_RETRY_INTERVAL * pow2(failures);
    if b < MAX_RETRY_INTERVAL {
        b as nat
    } else {
        MAX_RETRY_INTERVAL as nat
    }
}

/// The delay in milliseconds once the base interval is scaled by a jitter
/// factor of `permille` thousandths, capped again at the maximum.
pub open spec fn jittered_millis(failures: nat, permille: nat) -> nat {
    let d = base_interval(failures) * permille;
    if d < MAX_RETRY_MILLIS {
        d as nat
    } else {
        MAX_RETRY_MILLIS as nat
    }
}

proof fn lemma_pow2_monotonic(a: nat, b: nat)
    requires
        a <= b,
    ensures
        pow2(a) <= pow2(b),
    decreases b,
{
    if a < b {
        lemma_pow2_monotonic(a, (b - 1) as nat);
    }
}

/// Relies on rand's `Rng::gen_range` on `thread_rng()`: the value lies in the
/// closed range `[lo, hi]`; it panics only when the range is empty.
#[verifier::external_body]
fn random_in_range(lo: u64, hi: u64) -> (r: u64)
    requires
        lo <= hi,
    ensures
        lo <= r <= hi,
{
    rand::thread_rng().gen_range(lo..=hi)
}

/// The un-jittered delay in seconds after `failures` consecutive failures.
pub fn base_interval_secs(failures: u32) -> (r: u64)
    ensures
        r == base_interval(failures as nat),
{
    if failures >= 8 {
        proof {
            reveal_with_fuel(pow2, 9);
            lemma_pow2_monotonic(8, failures as nat);
        }
        return MAX_RETRY_INTERVAL;
    }
    let mut b: u64 = INITIAL_RETRY_INTERVAL;
    let mut i: u32 = 0;
    while i < failures
        invariant
            i <= failures < 8,
            b == INITIAL_RETRY_INTERVAL * pow2(i as nat),
        decreases failures - i,
    {
        proof {
            reveal_with_fuel(pow2, 7);
            lemma_pow2_monotonic(i as nat, 6);
        }
        b = b * 2;
        i = i + 1;
    }
    if b < MAX_RETRY_INTERVAL {
        b
    } else {
        MAX_RETRY_INTERVAL
    }
}

/// The retry delay in milliseconds after `failures` consecutive failures,
/// scaled by a jitter factor of `permille` thousandths.
pub fn jittered_delay_millis(failures: u32, permille: u64) -> (r: u64)
    requires
        permille <= JITTER_MAX_PERMILLE,
    ensures
        r == jittered_millis(failures as nat, permille as nat),
{
    let base = base_interval_secs(failures);
    assert(base * permille <= 300 * 1200) by (nonlinear_arith)
        requires
            base <= 300,
            permille <= 1200,
    ;
    let d = base * permille;
    if d < MAX_RETRY_MILLIS {
        d
    } else {
        MAX_RETRY_MILLIS
    }
}

/// Every jittered delay lies within 20% of the base interval and never
/// exceeds the maximum interval.
pub proof fn lemma_jittered_delay_bounds(failures: nat, permille: nat)
    requires
        JITTER_MIN_PERMILLE <= permille <= JITTER_MAX_PERMILLE,
    ensures
        JITTER_MIN_PERMILLE * base_interval(failures) <= jittered_millis(failures, permille),
        jittered_millis(failures, permille) <= JITTER_MAX_PERMILLE * base_interval(failures),
        jittered_millis(failures, permille) <= MAX_RETRY_MILLIS,
{
    let b = base_interval(failures);
    assert(800 * b <= b * permille <= 1200 * b) by (nonlinear_arith)
        requires
            800 <= permille <= 1200,
    ;
}

/// The delay in milliseconds to wait after `failures` consecutive failed
/// attempts: the base interval with a random jitter factor in [0.8, 1.2].
pub fn calculate_backoff(failures: u32) -> (r: u64)
    ensures
        exists|p: nat|
            JITTER_MIN_PERMILLE <= p <= JITTER_MAX_PERMILLE && r == jittered_millis(
                failures as nat,
                p,
            ),
        JITTER_MIN_PERMILLE * base_interval(failures as nat) <= r,
        r <= JITTER_MAX_PERMILLE * base_interval(failures as nat),
        r <= MAX_RETRY_MILLIS,
{
    let permille = random_in_range(JITTER_MIN_PERMILLE, JITTER_MAX_PERMILLE);
    let r = jittered_delay_millis(failures, permille);
    proof {
        lemma_jittered_delay_bounds(failures as nat, permille as nat);
    }
    r
}

} // verus!
