use vstd::prelude::*;

verus! {

/// Sum of the samples.
pub open spec fn sum_of(s: Seq<u64>) -> int
    decreases s.len(),
{
    if s.len() == 0 {
        0
    } else {
        sum_of(s.drop_last()) + s.last()
    }
}

/// Sum of the squared samples.
pub open spec fn sq_sum_of(s: Seq<u64>) -> int
    decreases s.len(),
{
    if s.len() == 0 {
        0
    } else {
        sq_sum_of(s.drop_last()) + s.last() * s.last()
    }
}

/// Smallest sample (meaningful for a non-empty sequence).
pub open spec fn min_of(s: Seq<u64>) -> u64
    decreases s.len(),
{
    if s.len() <= 1 {
        s[0]
    } else {
        let m = min_of(s.drop_last());
        if s.last() < m { s.last() } else { m }
    }
}

/// Largest sample (meaningful for a non-empty sequence).
pub open spec fn max_of(s: Seq<u64>) -> u64
    decreases s.len(),
{
    if s.len() <= 1 {
        s[0]
    } else {
        let m = max_of(s.drop_last());
        if s.last() > m { s.last() } else { m }
    }
}

/// `n * sum(x^2) - sum(x)^2`, which equals `n * sum((x - mean)^2)`: the spread of the
/// samples around their mean, scaled so that it stays an integer.
pub open spec fn spread_of(s: Seq<u64>) -> int {
    s.len() * sq_sum_of(s) - sum_of(s) * sum_of(s)
}

/// The minimum and maximum of a non-empty sample set are samples of it, and
/// bound every sample from below and above.
pub proof fn lemma_min_max_bound(s: Seq<u64>)
    requires
        s.len() >= 1,
    ensures
        s.contains(min_of(s)),
        s.contains(max_of(s)),
        forall|i: int| 0 <= i < s.len() ==> min_of(s) <= #[trigger] s[i] <= max_of(s),
    decreases s.len(),
{
    if s.len() == 1 {
        assert(s[0] == min_of(s));
    } else {
        let t = s.drop_last();
        lemma_min_max_bound(t);
        assert forall|i: int| 0 <= i < s.len() implies min_of(s) <= #[trigger] s[i] <= max_of(s) by {
            if i < t.len() {
                assert(t[i] == s[i]);
            }
        }
        let a = choose|j: int| 0 <= j < t.len() && t[j] == min_of(t);
        let b = choose|j: int| 0 <= j < t.len() && t[j] == max_of(t);
        assert(s[a] == t[a] && s[b] == t[b]);
        assert(s[s.len() - 1] == s.last());
    }
}

/// Why a sample set has no summary.
#[derive(Clone, Copy, Debug, PartialEq, Eq, Structural)]
pub enum StatsError {
    /// No sample at all: mean, minimum and maximum are undefined.
    Empty,
    /// A single sample: the Bessel-corrected deviation divides by zero.
    InsufficientSamples,
    /// `n * sum(x^2)` does not fit in 128 bits.
    Overflow,
}

/// Exact summary of a sample set of durations in nanoseconds.
#[derive(Clone, Copy, Debug, PartialEq, Eq, Structural)]
pub struct Summary {
    pub count: u64,
    pub total: u128,
    pub min: u64,
    pub max: u64,
    /// `count * sum(x^2) - total^2`.
    pub spread: u128,
}

impl Summary {
    /// The summary that `summarize` gives for `s`.
    pub open spec fn describes(self, s: Seq<u64>) -> bool {
        &&& self.count == s.len()
        &&& self.total == sum_of(s)
        &&& self.min == min_of(s)
        &&& self.max == max_of(s)
        &&& self.spread == spread_of(s)
    }

    pub open spec fn wf(self) -> bool {
        self.count >= 2
    }

    /// Mean in nanoseconds, rounded down.
    pub open spec fn mean_spec(self) -> int {
        self.total as int / self.count as int
    }

    /// Sample variance (divisor `n - 1`) in square nanoseconds, rounded down.
    pub open spec fn variance_spec(self) -> int {
        self.spread as int / (self.count * (self.count - 1))
    }

    /// Mean in nanoseconds, rounded down.
    pub fn mean_nanos(&self) -> (r: u128)
        requires
            self.wf(),
        ensures
            r == self.mean_spec(),
    {
        self.total / (self.count as u128)
    }

    /// Sample variance in square nanoseconds, rounded down.
    pub fn variance_nanos2(&self) -> (r: u128)
        requires
            self.wf(),
        ensures
            r == self.variance_spec(),
    {
        let n = self.count as u128;
        assert(n * (n - 1) <= 0xffff_ffff_ffff_ffffu128 * 0xffff_ffff_ffff_ffffu128) by (nonlinear_arith)
            requires n <= 0xffff_ffff_ffff_ffffu128, n >= 2;
        assert(n * (n - 1) > 0) by (nonlinear_arith)
            requires n >= 2;
        self.spread / (n * (n - 1))
    }

    /// Sample standard deviation in nanoseconds: the integer square root of the
    /// variance, rounded down.
    pub fn std_dev_nanos(&self) -> (r: u64)
        requires
            self.wf(),
        ensures
            r * r <= self.variance_spec() < (r + 1) * (r + 1),
    {
        let v = self.variance_nanos2();
        isqrt(v)
    }
}

/// Integer square root, rounded down.
pub fn isqrt(v: u128) -> (r: u64)
    ensures
        r * r <= v < (r + 1) * (r + 1),
{
    let mut lo: u128 = 0;
    let mut hi: u128 = 0x1_0000_0000_0000_0000;
    assert(v < hi * hi) by (nonlinear_arith)
        requires hi == 0x1_0000_0000_0000_0000u128, v <= 0xffff_ffff_ffff_ffff_ffff_ffff_ffff_ffffu128;
    while hi - lo > 1
        invariant
            lo < hi <= 0x1_0000_0000_0000_0000,
            lo * lo <= v < hi * hi,
        decreases hi - lo,
    {
        let mid: u128 = lo + (hi - lo) / 2;
        assert(mid * mid <= 0xffff_ffff_ffff_ffffu128 * 0xffff_ffff_ffff_ffffu128) by (nonlinear_arith)
            requires mid < 0x1_0000_0000_0000_0000u128;
        if mid * mid <= v {
            lo = mid;
        } else {
            hi = mid;
        }
    }
    assert(hi == lo + 1);
    lo as u64
}

/// The squared deviations of `s` from `x` sum to a non-negative amount.
proof fn lemma_deviation_nonneg(s: Seq<u64>, x: int)
    ensures
        sq_sum_of(s) - 2 * x * sum_of(s) + s.len() * x * x >= 0,
    decreases s.len(),
{
    if s.len() > 0 {
        let t = s.drop_last();
        let y = s.last() as int;
        lemma_deviation_nonneg(t, x);
        let q = sq_sum_of(t);
        let m = sum_of(t);
        let k = t.len() as int;
        assert(sq_sum_of(s) == q + y * y);
        assert(sum_of(s) == m + y);
        assert((q + y * y) - 2 * x * (m + y) + (k + 1) * x * x
            == (q - 2 * x * m + k * x * x) + (y - x) * (y - x)) by (nonlinear_arith);
        assert((y - x) * (y - x) >= 0) by (nonlinear_arith);
    }
}

/// The spread of a sample set is never negative: `sum(x)^2 <= n * sum(x^2)`.
pub proof fn lemma_spread_nonneg(s: Seq<u64>)
    ensures
        spread_of(s) >= 0,
    decreases s.len(),
{
    if s.len() > 0 {
        let t = s.drop_last();
        let x = s.last() as int;
        lemma_spread_nonneg(t);
        lemma_deviation_nonneg(t, x);
        let q = sq_sum_of(t);
        let m = sum_of(t);
        let k = t.len() as int;
        assert(sq_sum_of(s) == q + x * x);
        assert(sum_of(s) == m + x);
        assert((k + 1) * (q + x * x) - (m + x) * (m + x)
            == (k * q - m * m) + (q - 2 * x * m + k * x * x)) by (nonlinear_arith);
    }
}

/// A prefix never has a larger sum of squares than the whole sequence.
proof fn lemma_sq_sum_prefix(s: Seq<u64>, i: int)
    requires
        0 <= i <= s.len(),
    ensures
        sq_sum_of(s.subrange(0, i)) <= sq_sum_of(s),
    decreases s.len() - i,
{
    if i < s.len() {
        lemma_sq_sum_prefix(s, i + 1);
        assert(s.subrange(0, i + 1).drop_last() =~= s.subrange(0, i));
        let x = s[i] as int;
        assert(x * x >= 0) by (nonlinear_arith);
    } else {
        assert(s.subrange(0, i) =~= s);
    }
}

/// Summarizes a sample set of durations in nanoseconds: count, exact total,
/// minimum, maximum and spread. Fails on an empty set, on a single sample (the
/// sample deviation is undefined there), and where `n * sum(x^2)` exceeds 128 bits.
pub fn summarize(samples: &Vec<u64>) -> (r: Result<Summary, StatsError>)
    ensures
        samples@.len() == 0 <==> r == Err::<Summary, StatsError>(StatsError::Empty),
        samples@.len() == 1 <==> r == Err::<Summary, StatsError>(StatsError::InsufficientSamples),
        r == Err::<Summary, StatsError>(StatsError::Overflow) <==> (samples@.len() >= 2
            && samples@.len() * sq_sum_of(samples@) > u128::MAX),
        r is Ok ==> r->Ok_0.describes(samples@) && r->Ok_0.wf(),
{
    let n = samples.len();
    if n == 0 {
        return Err(StatsError::Empty);
    }
    if n == 1 {
        return Err(StatsError::InsufficientSamples);
    }
    let ghost s = samples@;
    let mut total: u128 = 0;
    let mut sq: u128 = 0;
    let mut lo: u64 = samples[0];
    let mut hi: u64 = samples[0];
    let mut i: usize = 0;
    proof {
        lemma_sq_sum_prefix(s, 0);
        assert(s.subrange(0, 0) =~= Seq::<u64>::empty());
    }
    while i < n
        invariant
            n == s.len(),
            s == samples@,
            n >= 2,
            0 <= i <= n,
            total == sum_of(s.subrange(0, i as int)),
            sq == sq_sum_of(s.subrange(0, i as int)),
            sum_of(s.subrange(0, i as int)) <= i * 0xffff_ffff_ffff_ffff,
            i == 0 ==> lo == s[0] && hi == s[0],
            i > 0 ==> lo == min_of(s.subrange(0, i as int)) && hi == max_of(s.subrange(0, i as int)),
        decreases n - i,
    {
        let x = samples[i];
        let ghost p = s.subrange(0, i as int);
        let ghost p1 = s.subrange(0, i as int + 1);
        assert(p1.drop_last() =~= p);
        assert(p1.last() == x);
        assert((x as u128) * (x as u128) <= 0xffff_ffff_ffff_ffffu128 * 0xffff_ffff_ffff_ffffu128) by (nonlinear_arith)
            requires x <= 0xffff_ffff_ffff_ffffu64;
        let xx: u128 = (x as u128) * (x as u128);
        match sq.checked_add(xx) {
            Some(v) => {
                sq = v;
            },
            None => {
                proof {
                    lemma_sq_sum_prefix(s, i as int + 1);
                    assert(sq_sum_of(s) > u128::MAX);
                    assert(n * sq_sum_of(s) >= sq_sum_of(s)) by (nonlinear_arith)
                        requires n >= 2, sq_sum_of(s) >= 0;
                }
                return Err(StatsError::Overflow);
            },
        }
        total = total + x as u128;
        if i > 0 {
            if x < lo {
                lo = x;
            }
            if x > hi {
                hi = x;
            }
        }
        i = i + 1;
    }
    assert(s.subrange(0, n as int) =~= s);
    let nn = n as u128;
    match nn.checked_mul(sq) {
        None => Err(StatsError::Overflow),
        Some(nsq) => {
            proof {
                lemma_spread_nonneg(s);
            }
            let tt: u128 = total * total;
            let spread: u128 = nsq - tt;
            Ok(Summary { count: n as u64, total, min: lo, max: hi, spread })
        },
    }
}

} // verus!
