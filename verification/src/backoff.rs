//! Poll policies and the capped exponential backoff they describe.
//!
//! Durations are whole milliseconds. The multiplier is a fixed-point number
//! of thousandths, so `1500` scales a delay by one and a half.
//!
//! The first backoff wait is the initial delay. Every later wait is the one
//! before it, scaled by the multiplier, rounded down to a whole millisecond
//! and held to the ceiling. With a whole-number multiplier `m` the wait after
//! the `k`-th failure is therefore exactly `min(initial * m^(k - 1), max)`;
//! with any other multiplier rounding can only shorten it.

use vstd::arithmetic::power::{lemma_pow_positive, pow};
use vstd::prelude::*;

verus! {

/// Thousandths in one whole multiplier unit.
pub const PER_MILLE: u32 = 1000;

/// Why a set of knobs is not a usable policy.
#[derive(Clone, Copy, Debug, PartialEq, Eq)]
pub enum PolicyError {
    /// The per-attempt timeout is zero, so no probe could ever complete.
    ZeroTimeout,
    /// The multiplier is below one, so delays would shrink between attempts.
    ShrinkingBackoff,
}

/// Configuration of one poll session. Immutable while the session runs.
#[derive(Clone, Copy, Debug, PartialEq, Eq)]
pub struct PollPolicy {
    /// Upper bound on the number of probes.
    pub max_attempts: u32,
    /// Fixed wait applied once, before the first probe.
    pub startup_delay_ms: u64,
    /// Wait after the first failed probe.
    pub initial_delay_ms: u64,
    /// Growth factor between consecutive waits, in thousandths.
    pub backoff_per_mille: u32,
    /// Upper bound on any backoff wait, when configured.
    pub max_delay_ms: Option<u64>,
    /// Deadline handed to every probe.
    pub per_attempt_timeout_ms: u64,
    /// Whether a success status with an unparsable body counts as ready.
    pub accept_malformed: bool,
}

impl PollPolicy {
    /// A policy is well formed when probes can complete and waits never shrink.
    pub open spec fn wf(&self) -> bool {
        &&& self.per_attempt_timeout_ms > 0
        &&& self.backoff_per_mille >= PER_MILLE
    }

    /// Largest wait the policy can ever ask for between two probes.
    pub open spec fn ceiling(&self) -> nat {
        match self.max_delay_ms {
            Some(m) => m as nat,
            None => u64::MAX as nat,
        }
    }

    /// `d`, held to the ceiling.
    pub open spec fn clamp(&self, d: nat) -> nat {
        if d <= self.ceiling() {
            d
        } else {
            self.ceiling()
        }
    }

    /// The wait that follows a wait of `d`: scaled by the multiplier, rounded
    /// down to a whole millisecond, held to the ceiling.
    pub open spec fn grow(&self, d: nat) -> nat {
        self.clamp(d * (self.backoff_per_mille as nat) / (PER_MILLE as nat))
    }

    /// The wait after the `failed`-th probe has failed (1-based).
    pub open spec fn delay_after(&self, failed: nat) -> nat
        decreases failed,
    {
        if failed <= 1 {
            self.clamp(self.initial_delay_ms as nat)
        } else {
            self.grow(self.delay_after((failed - 1) as nat))
        }
    }

    /// The wait that precedes probe number `attempt` (1-based): the startup
    /// delay for the first, the backoff delay for every later one.
    pub open spec fn wait_before(&self, attempt: nat) -> nat {
        if attempt <= 1 {
            self.startup_delay_ms as nat
        } else {
            self.delay_after((attempt - 1) as nat)
        }
    }

    /// Checks the knobs and builds the policy.
    pub fn new(
        max_attempts: u32,
        startup_delay_ms: u64,
        initial_delay_ms: u64,
        backoff_per_mille: u32,
        max_delay_ms: Option<u64>,
        per_attempt_timeout_ms: u64,
    ) -> (r: Result<PollPolicy, PolicyError>)
        ensures
            per_attempt_timeout_ms == 0 ==> r == Err::<PollPolicy, PolicyError>(
                PolicyError::ZeroTimeout,
            ),
            per_attempt_timeout_ms > 0 && backoff_per_mille < PER_MILLE ==> r == Err::<
                PollPolicy,
                PolicyError,
            >(PolicyError::ShrinkingBackoff),
            per_attempt_timeout_ms > 0 && backoff_per_mille >= PER_MILLE ==> r == Ok::<
                PollPolicy,
                PolicyError,
            >(
                (PollPolicy {
                    max_attempts,
                    startup_delay_ms,
                    initial_delay_ms,
                    backoff_per_mille,
                    max_delay_ms,
                    per_attempt_timeout_ms,
                    accept_malformed: false,
                }),
            ),
            r is Ok ==> r->Ok_0.wf(),
    {
        if per_attempt_timeout_ms == 0 {
            Err(PolicyError::ZeroTimeout)
        } else if backoff_per_mille < PER_MILLE {
            Err(PolicyError::ShrinkingBackoff)
        } else {
            Ok(
                PollPolicy {
                    max_attempts,
                    startup_delay_ms,
                    initial_delay_ms,
                    backoff_per_mille,
                    max_delay_ms,
                    per_attempt_timeout_ms,
                    accept_malformed: false,
                },
            )
        }
    }

    /// Whether the policy is well formed.
    pub fn is_valid(&self) -> (r: bool)
        ensures
            r == self.wf(),
    {
        self.per_attempt_timeout_ms > 0 && self.backoff_per_mille >= PER_MILLE
    }

    /// The wait that follows a wait of `current`.
    pub fn next_delay(&self, current: u64) -> (r: u64)
        ensures
            r == self.grow(current as nat),
    {
        let factor: u128 = self.backoff_per_mille as u128;
        let base: u128 = current as u128;
        assert(base * factor <= 0xffff_ffff_ffff_ffff * 0xffff_ffff) by (nonlinear_arith)
            requires
                0 <= base <= 0xffff_ffff_ffff_ffff,
                0 <= factor <= 0xffff_ffff,
        ;
        let scaled: u128 = base * factor / (PER_MILLE as u128);
        let ceiling: u64 = match self.max_delay_ms {
            Some(m) => m,
            None => u64::MAX,
        };
        if scaled <= ceiling as u128 {
            scaled as u64
        } else {
            ceiling
        }
    }
}

impl PollPolicy {
    /// The wait after the `failed_attempt`-th probe has failed. Stops early
    /// once the waits have stopped changing.
    pub fn delay_after_attempt(&self, failed_attempt: u32) -> (r: u64)
        ensures
            r == self.delay_after(failed_attempt as nat),
    {
        let mut delay: u64 = self.next_delay_from_start();
        let mut k: u32 = 1;
        while k < failed_attempt
            invariant
                k >= 1,
                delay == self.delay_after(k as nat),
                k <= failed_attempt || (failed_attempt == 0 && k == 1),
            decreases failed_attempt - k,
        {
            let next: u64 = self.next_delay(delay);
            if next == delay {
                proof {
                    lemma_delay_settles(*self, k as nat, failed_attempt as nat);
                }
                return delay;
            }
            delay = next;
            k = k + 1;
        }
        delay
    }

    /// The wait after the first failed probe: the initial delay, held to the
    /// ceiling.
    pub fn next_delay_from_start(&self) -> (r: u64)
        ensures
            r == self.delay_after(1),
    {
        match self.max_delay_ms {
            Some(m) => if self.initial_delay_ms <= m {
                self.initial_delay_ms
            } else {
                m
            },
            None => self.initial_delay_ms,
        }
    }

    /// The wait that precedes probe number `attempt`.
    pub fn wait_before_attempt(&self, attempt: u32) -> (r: u64)
        ensures
            r == self.wait_before(attempt as nat),
    {
        if attempt <= 1 {
            self.startup_delay_ms
        } else {
            self.delay_after_attempt(attempt - 1)
        }
    }
}

/// Once a wait repeats, every later wait equals it.
pub proof fn lemma_delay_settles(policy: PollPolicy, k: nat, j: nat)
    requires
        k >= 1,
        policy.grow(policy.delay_after(k)) == policy.delay_after(k),
        j >= k,
    ensures
        policy.delay_after(j) == policy.delay_after(k),
    decreases j,
{
    if j > k {
        lemma_delay_settles(policy, k, (j - 1) as nat);
    }
}

/// No backoff wait exceeds the ceiling; with a configured maximum delay, no
/// wait before a second or later probe exceeds that maximum.
pub proof fn lemma_delay_capped(policy: PollPolicy, failed: nat)
    ensures
        policy.delay_after(failed) <= policy.ceiling(),
        policy.delay_after(failed) <= u64::MAX,
        policy.max_delay_ms is Some ==> policy.wait_before(failed + 2) <= policy.max_delay_ms->Some_0,
    decreases failed,
{
    if failed > 0 {
        lemma_delay_capped(policy, (failed - 1) as nat);
    }
}

/// Under a well-formed policy a wait at or below the ceiling never shrinks
/// when it grows.
pub proof fn lemma_grow_increases(policy: PollPolicy, d: nat)
    requires
        policy.wf(),
        d <= policy.ceiling(),
    ensures
        d <= policy.grow(d),
{
    let f = policy.backoff_per_mille as nat;
    assert(d * f / 1000 >= d) by (nonlinear_arith)
        requires
            f >= 1000,
    ;
}

/// Backoff monotonicity: under a well-formed policy the wait after a later
/// failure is never shorter than the wait after an earlier one.
pub proof fn lemma_delay_monotone(policy: PollPolicy, i: nat, j: nat)
    requires
        policy.wf(),
        1 <= i <= j,
    ensures
        policy.delay_after(i) <= policy.delay_after(j),
    decreases j,
{
    if i < j {
        lemma_delay_monotone(policy, i, (j - 1) as nat);
        lemma_delay_capped(policy, (j - 1) as nat);
        lemma_grow_increases(policy, policy.delay_after((j - 1) as nat));
    }
}

/// Backoff monotonicity, stated over probes: the wait before probe
/// `attempt + 1` is never shorter than the wait before probe `attempt`, and
/// never longer than a configured maximum delay. The startup delay is not a
/// backoff wait, so the first probe is covered only when the startup delay
/// does not exceed the first backoff wait.
pub proof fn lemma_waits_never_shrink(policy: PollPolicy, attempt: nat)
    requires
        policy.wf(),
        attempt >= 1,
        attempt >= 2 || policy.startup_delay_ms <= policy.delay_after(1),
    ensures
        policy.wait_before(attempt) <= policy.wait_before(attempt + 1),
        policy.max_delay_ms is Some ==> policy.wait_before(attempt + 1)
            <= policy.max_delay_ms->Some_0,
{
    lemma_delay_capped(policy, (attempt - 1) as nat);
    if attempt >= 2 {
        lemma_delay_monotone(policy, (attempt - 1) as nat, attempt);
    }
}

/// With a whole-number multiplier the waits are exactly the capped geometric
/// sequence `min(initial * m^(failed - 1), ceiling)`.
pub proof fn lemma_whole_multiplier_closed_form(policy: PollPolicy, failed: nat)
    requires
        policy.backoff_per_mille >= PER_MILLE,
        policy.backoff_per_mille % PER_MILLE == 0,
        failed >= 1,
    ensures
        policy.delay_after(failed) == policy.clamp(
            (policy.initial_delay_ms * pow(
                (policy.backoff_per_mille / PER_MILLE) as int,
                (failed - 1) as nat,
            )) as nat,
        ),
    decreases failed,
{
    let m = (policy.backoff_per_mille / PER_MILLE) as int;
    let init = policy.initial_delay_ms as int;
    reveal(pow);
    if failed == 1 {
        assert(pow(m, 0) == 1);
        assert(init * 1 == init);
    } else {
        let e = (failed - 2) as nat;
        lemma_whole_multiplier_closed_form(policy, (failed - 1) as nat);
        lemma_pow_positive(m, e);
        let exact = init * pow(m, e);
        assert(exact >= 0) by (nonlinear_arith)
            requires
                exact == init * pow(m, e),
                init >= 0,
                pow(m, e) > 0,
        ;
        assert(pow(m, (failed - 1) as nat) == m * pow(m, e));
        assert(init * pow(m, (failed - 1) as nat) == exact * m) by (nonlinear_arith)
            requires
                exact == init * pow(m, e),
                pow(m, (failed - 1) as nat) == m * pow(m, e),
        ;
        let prev = policy.delay_after((failed - 1) as nat);
        assert(prev == policy.clamp(exact as nat));
        let f = policy.backoff_per_mille as nat;
        assert(f == 1000 * m);
        assert forall|d: nat| (#[trigger] (d * f)) / 1000 == d * m by {
            assert(d * f == (d * m) * 1000) by (nonlinear_arith)
                requires
                    f == 1000 * m,
            ;
        }
        assert(policy.grow(prev) == policy.clamp((prev * m) as nat)) by {
            assert((prev * f) / 1000 == prev * m);
        }
        let c = policy.ceiling() as int;
        if exact <= c {
            assert(prev == exact);
        } else {
            assert(prev == c);
            assert(exact * m >= exact) by (nonlinear_arith)
                requires
                    exact >= 0,
                    m >= 1,
            ;
            assert(c * m >= c) by (nonlinear_arith)
                requires
                    c >= 0,
                    m >= 1,
            ;
        }
    }
}

/// Rounding and capping only ever shorten a wait: no wait exceeds the exact
/// geometric value `initial * m^(failed - 1)`, here with both sides scaled by
/// `1000^(failed - 1)` to stay among whole numbers.
pub proof fn lemma_delay_at_most_exact(policy: PollPolicy, failed: nat)
    requires
        failed >= 1,
    ensures
        policy.delay_after(failed) * pow(PER_MILLE as int, (failed - 1) as nat)
            <= policy.initial_delay_ms * pow(
            policy.backoff_per_mille as int,
            (failed - 1) as nat,
        ),
    decreases failed,
{
    let init = policy.initial_delay_ms as int;
    let f = policy.backoff_per_mille as int;
    reveal(pow);
    if failed == 1 {
        assert(pow(1000, 0) == 1);
        assert(pow(f, 0) == 1);
        assert(policy.delay_after(1) * 1 <= init * 1);
    } else {
        let e = (failed - 2) as nat;
        lemma_delay_at_most_exact(policy, (failed - 1) as nat);
        let prev = policy.delay_after((failed - 1) as nat) as int;
        let cur = policy.delay_after(failed) as int;
        let scale = pow(1000, e);
        let growth = pow(f, e);
        lemma_pow_positive(1000, e);
        assert(pow(1000, (failed - 1) as nat) == 1000 * scale);
        assert(pow(f, (failed - 1) as nat) == f * growth);
        assert(cur <= prev * f / 1000);
        assert(cur * 1000 <= prev * f) by (nonlinear_arith)
            requires
                cur <= prev * f / 1000,
        ;
        assert(cur * (1000 * scale) <= init * (f * growth)) by (nonlinear_arith)
            requires
                cur * 1000 <= prev * f,
                prev * scale <= init * growth,
                scale > 0,
                f >= 0,
        ;
    }
}

} // verus!
