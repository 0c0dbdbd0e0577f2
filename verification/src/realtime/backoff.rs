//! Reconnect pacing: exponential backoff with full jitter.
//!
//! A fleet of clients that fails together would retry together if each only spaced its own
//! attempts. Drawing each delay from the whole window spreads them out.
use crate::realtime::clock::{duration_nanos, from_millis, from_secs, nanos_of, MAX_NANOS};
use core::time::Duration;
use vstd::arithmetic::power2::{lemma2_to64, lemma_pow2_unfold, pow2};
use vstd::prelude::*;

verus! {

/// The random number generator. It is opaque here.
#[verifier::external_type_specification]
#[verifier::external_body]
pub struct ExRng(fastrand::Rng);

/// The seed that a generator holds: what `fastrand::Rng::get_seed` returns.
pub uninterp spec fn generator_seed(rng: fastrand::Rng) -> u64;

/// What `fastrand::Rng::u64` draws from the range from zero to `max`, both included, where the
/// generator holds a seed, and the seed that it holds afterwards.
pub uninterp spec fn drawn(seed: u64, max: u64) -> (u64, u64);

/// `fastrand::Rng::new`: a generator seeded from the thread's own. Nothing is said of its seed,
/// which depends on chance.
#[verifier::external_body]
fn rng_new() -> fastrand::Rng {
    fastrand::Rng::new()
}

/// `fastrand::Rng::with_seed`: a generator that holds the seed.
#[verifier::external_body]
fn rng_seeded(seed: u64) -> (r: fastrand::Rng)
    ensures
        generator_seed(r) == seed,
{
    fastrand::Rng::with_seed(seed)
}

/// `fastrand::Rng::clone`: a generator that holds the same seed.
#[verifier::external_body]
fn rng_clone(rng: &fastrand::Rng) -> (r: fastrand::Rng)
    ensures
        generator_seed(r) == generator_seed(*rng),
{
    rng.clone()
}

/// `fastrand::Rng::u64` on the range from zero to `max`, both included: a number of the range,
/// which the generator's seed and the range alone decide, as they do the seed it leaves.
#[verifier::external_body]
fn draw(rng: &mut fastrand::Rng, max: u64) -> (r: u64)
    ensures
        r <= max,
        (r, generator_seed(*final(rng))) == drawn(generator_seed(*old(rng)), max),
{
    rng.u64(0..=max)
}

/// Exponential backoff with full jitter.
#[derive(Debug)]
pub struct Backoff {
    base: Duration,
    cap: Duration,
    attempt: u32,
    rng: fastrand::Rng,
}

/// `1` doubled `n` times, or the largest `u32` where that does not fit one.
pub open spec fn factor(n: nat) -> nat
    decreases n,
{
    if n == 0 {
        1
    } else if n > 31 {
        u32::MAX as nat
    } else {
        2 * factor((n - 1) as nat)
    }
}

/// The smaller of two numbers.
pub open spec fn least(a: nat, b: nat) -> nat {
    if a <= b {
        a
    } else {
        b
    }
}

/// The window of a retry, in milliseconds: the base doubled for each failure after the first,
/// up to the cap. The first retry has none.
pub open spec fn window_of(base: nat, cap: nat, attempt: nat) -> nat {
    if attempt == 0 {
        0
    } else {
        least(
            least(least(base * factor((attempt - 1) as nat), MAX_NANOS as nat), cap) / 1_000_000,
            u64::MAX as nat,
        )
    }
}

proof fn lemma_factor(n: nat)
    ensures
        1 <= factor(n) <= u32::MAX,
        n <= 31 ==> factor(n) <= 0x8000_0000,
    decreases n,
{
    reveal_with_fuel(factor, 33);
    if 0 < n <= 31 {
        lemma_factor((n - 1) as nat);
    }
}

/// Each window is at least as wide as the one before it.
pub proof fn law_window_grows(base: nat, cap: nat, attempt: nat)
    ensures
        window_of(base, cap, attempt) <= window_of(base, cap, attempt + 1),
{
    if attempt > 0 {
        let n = (attempt - 1) as nat;
        lemma_factor(n);
        lemma_factor(n + 1);
        assert(factor(n) <= factor(n + 1));
        assert(base * factor(n) <= base * factor(n + 1)) by (nonlinear_arith)
            requires
                factor(n) <= factor(n + 1),
        ;
    }
}

/// No window is wider than the cap.
pub proof fn law_window_is_capped(base: nat, cap: nat, attempt: nat)
    ensures
        window_of(base, cap, attempt) * 1_000_000 <= cap,
{
}

/// The factor is a power of two as long as that fits.
proof fn lemma_factor_is_a_power(n: nat)
    requires
        n <= 31,
    ensures
        factor(n) == pow2(n),
    decreases n,
{
    if n == 0 {
        lemma2_to64();
    } else {
        lemma_factor_is_a_power((n - 1) as nat);
        lemma_pow2_unfold(n);
    }
}

/// The schedule, in the open: no delay before the first retry; then the base, doubled with every
/// failure after the first, for as long as the doubling fits and it stays below the cap.
pub proof fn law_window_is_the_doubled_base(base: nat, cap: nat, failures: nat)
    requires
        base <= MAX_NANOS,
        cap <= MAX_NANOS,
    ensures
        window_of(base, cap, 0) == 0,
        1 <= failures <= 32 && base * pow2((failures - 1) as nat) <= cap && cap / 1_000_000
            <= u64::MAX ==> window_of(base, cap, failures) == (base * pow2((failures - 1) as nat))
            / 1_000_000,
        1 <= failures <= 32 && base * pow2((failures - 1) as nat) > cap && cap / 1_000_000
            <= u64::MAX ==> window_of(base, cap, failures) == cap / 1_000_000,
{
    if 1 <= failures <= 32 {
        lemma_factor_is_a_power((failures - 1) as nat);
    }
}

/// Each window is twice the one before it, until the cap is reached: a server that is down is
/// asked ever more seldom.
pub proof fn law_window_doubles(base: nat, cap: nat, failures: nat)
    requires
        1 <= failures <= 31,
        base <= u64::MAX,
        cap <= u64::MAX,
    ensures
        window_of(base * 1_000_000, cap * 1_000_000, 1) == (if base <= cap {
            base
        } else {
            cap
        }),
        window_of(base * 1_000_000, cap * 1_000_000, failures + 1) == (if 2 * window_of(
            base * 1_000_000,
            cap * 1_000_000,
            failures,
        ) <= cap {
            2 * window_of(base * 1_000_000, cap * 1_000_000, failures)
        } else {
            cap
        }),
{
    let n = (failures - 1) as nat;
    let f = factor(n);
    lemma_factor(n);
    assert(factor(n + 1) == 2 * f);
    assert((base * 1_000_000) * f == (base * f) * 1_000_000) by (nonlinear_arith);
    assert((base * 1_000_000) * (2 * f) == (2 * (base * f)) * 1_000_000) by (nonlinear_arith);
    assert(factor(0) == 1);
    assert((base * 1_000_000) * 1 == base * 1_000_000) by (nonlinear_arith);
}

/// However long a server is down, the window stays at the cap once it got there.
pub proof fn law_window_stays_at_the_cap(base: nat, cap: nat, failures: nat)
    requires
        failures >= 1,
        cap <= MAX_NANOS,
        window_of(base, cap, failures) == cap / 1_000_000,
    ensures
        window_of(base, cap, failures + 1) == cap / 1_000_000,
{
    law_window_grows(base, cap, failures);
    law_window_is_capped(base, cap, failures + 1);
}

/// What a [`Backoff`] is; times in nanoseconds.
pub struct BackoffModel {
    /// The first window.
    pub base: nat,
    /// The widest window.
    pub cap: nat,
    /// The failures since the last reset.
    pub failures: u32,
    /// The seed that the coming jitter is drawn from.
    pub seed: u64,
}

impl Backoff {
    /// What the backoff is.
    pub open spec fn view(&self) -> BackoffModel {
        BackoffModel {
            base: self.base_nanos(),
            cap: self.cap_nanos(),
            failures: self.failures(),
            seed: self.seed(),
        }
    }

    /// The first window, in nanoseconds.
    pub closed spec fn base_nanos(&self) -> nat {
        duration_nanos(self.base)
    }

    /// The widest window, in nanoseconds.
    pub closed spec fn cap_nanos(&self) -> nat {
        duration_nanos(self.cap)
    }

    /// The failures since the last reset.
    pub closed spec fn failures(&self) -> u32 {
        self.attempt
    }

    /// The seed that the coming jitter is drawn from.
    pub closed spec fn seed(&self) -> u64 {
        generator_seed(self.rng)
    }

    /// The window of the coming retry, in milliseconds.
    pub open spec fn window(&self) -> nat {
        window_of(self.base_nanos(), self.cap_nanos(), self.failures() as nat)
    }

    /// A backoff from one second to 64 seconds.
    pub fn new() -> (r: Backoff)
        ensures
            r.base_nanos() == 1_000_000_000,
            r.cap_nanos() == 64_000_000_000,
            r.failures() == 0,
    {
        Backoff::with_limits(from_secs(1), from_secs(64))
    }

    /// A backoff with an explicit schedule.
    pub fn with_limits(base: Duration, cap: Duration) -> (r: Backoff)
        ensures
            r.base_nanos() == duration_nanos(base),
            r.cap_nanos() == duration_nanos(cap),
            r.failures() == 0,
    {
        Backoff { base, cap, attempt: 0, rng: rng_new() }
    }

    /// A backoff whose jitter is drawn from a seed.
    pub fn with_seed(base: Duration, cap: Duration, seed: u64) -> (r: Backoff)
        ensures
            r.base_nanos() == duration_nanos(base),
            r.cap_nanos() == duration_nanos(cap),
            r.failures() == 0,
            r.seed() == seed,
    {
        Backoff { base, cap, attempt: 0, rng: rng_seeded(seed) }
    }

    /// How many failures have accumulated since the last reset. Each delay counts one before
    /// it is returned.
    pub fn attempt(&self) -> (r: u32)
        ensures
            r == self.failures(),
    {
        self.attempt
    }

    /// The window of the coming retry, in milliseconds.
    pub fn window_millis(&self) -> (r: u64)
        ensures
            r == self.window(),
    {
        if self.attempt == 0 {
            return 0;
        }
        let doublings: u32 = self.attempt - 1;
        let mut times: u128 = 1;
        if doublings > 31 {
            times = 0xffff_ffff;
        } else {
            let mut i: u32 = 0;
            while i < doublings
                invariant
                    i <= doublings <= 31,
                    times == factor(i as nat),
                decreases doublings - i,
            {
                proof {
                    lemma_factor(i as nat);
                }
                times = times * 2;
                i += 1;
            }
        }
        let ghost n = doublings as nat;
        proof {
            lemma_factor(n);
            assert(times == factor(n));
        }
        let base: u128 = nanos_of(self.base);
        assert(base * times <= MAX_NANOS * 0xffff_ffff) by (nonlinear_arith)
            requires
                base <= MAX_NANOS,
                times <= 0xffff_ffff,
        ;
        let mut nanos: u128 = base * times;
        if nanos > MAX_NANOS {
            nanos = MAX_NANOS;
        }
        let cap: u128 = nanos_of(self.cap);
        if nanos > cap {
            nanos = cap;
        }
        let millis: u128 = nanos / 1_000_000;
        if millis > 0xffff_ffff_ffff_ffff {
            0xffff_ffff_ffff_ffff
        } else {
            millis as u64
        }
    }

    /// The next delay, advancing the schedule. The first is none at all: a connection that
    /// drops once is usually a blip. Later ones are drawn from the whole window.
    pub fn next_delay(&mut self) -> (r: Duration)
        ensures
            final(self).base_nanos() == old(self).base_nanos(),
            final(self).cap_nanos() == old(self).cap_nanos(),
            final(self).failures() == (if old(self).failures() < u32::MAX {
                (old(self).failures() + 1) as u32
            } else {
                u32::MAX
            }),
            old(self).window() == 0 ==> duration_nanos(r) == 0 && final(self).seed() == old(
                self,
            ).seed(),
            old(self).window() > 0 ==> ({
                let (millis, seed) = drawn(old(self).seed(), old(self).window() as u64);
                duration_nanos(r) == millis * 1_000_000 && final(self).seed() == seed
            }),
            duration_nanos(r) <= old(self).window() * 1_000_000,
            duration_nanos(r) <= old(self).cap_nanos(),
    {
        let millis: u64 = self.window_millis();
        proof {
            law_window_is_capped(self.base_nanos(), self.cap_nanos(), self.failures() as nat);
        }
        if self.attempt < u32::MAX {
            self.attempt = self.attempt + 1;
        }
        if millis == 0 {
            return from_millis(0);
        }
        from_millis(draw(&mut self.rng, millis))
    }

    /// Clears the accumulated failures, after a connection is established and usable.
    pub fn reset(&mut self)
        ensures
            final(self).failures() == 0,
            final(self).base_nanos() == old(self).base_nanos(),
            final(self).cap_nanos() == old(self).cap_nanos(),
            final(self).seed() == old(self).seed(),
    {
        self.attempt = 0;
    }
}

impl Clone for Backoff {
    fn clone(&self) -> (r: Backoff)
        ensures
            r.base_nanos() == self.base_nanos(),
            r.cap_nanos() == self.cap_nanos(),
            r.failures() == self.failures(),
            r.seed() == self.seed(),
    {
        Backoff {
            base: self.base,
            cap: self.cap,
            attempt: self.attempt,
            rng: rng_clone(&self.rng),
        }
    }
}

impl Default for Backoff {
    fn default() -> (r: Backoff)
        ensures
            r.base_nanos() == 1_000_000_000,
            r.cap_nanos() == 64_000_000_000,
            r.failures() == 0,
    {
        Backoff::new()
    }
}

/// Past 32 failures the base is multiplied by the largest factor, and no more.
pub proof fn law_the_factor_is_bounded(base: nat, cap: nat, failures: nat)
    requires
        failures > 32,
        base * 0xffff_ffff <= MAX_NANOS,
        cap <= MAX_NANOS,
        cap / 1_000_000 <= u64::MAX,
    ensures
        base * 0xffff_ffff <= cap ==> window_of(base, cap, failures) == (base * 0xffff_ffff)
            / 1_000_000,
        base * 0xffff_ffff > cap ==> window_of(base, cap, failures) == cap / 1_000_000,
{
}

} // verus!
