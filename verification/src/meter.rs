//! Signal level meter: peak and root-mean-square magnitude over one block
//! of normalized samples.
//!
//! Magnitudes are reported on the same fixed-point scale as the samples:
//! a value `m` stands for `m / 32768.0`, so both peak and rms lie in
//! `0 ..= 32768`, that is in [0.0, 1.0].

use vstd::prelude::*;

verus! {

use vstd::arithmetic::div_mod::lemma_div_is_ordered;
use vstd::arithmetic::div_mod::lemma_div_by_multiple;

/// The most recent block's signal statistics, overwritten wholesale on
/// every producer callback.
#[derive(Clone, Copy, Debug, PartialEq, Eq, Structural)]
pub struct Levels {
    /// Largest sample magnitude in the block, in `0 ..= 32768`.
    pub peak: u16,
    /// Root-mean-square magnitude of the block, in `0 ..= 32768`.
    pub rms: u16,
}

/// Magnitude of one sample.
pub open spec fn abs_sample(s: i16) -> int {
    if s < 0 {
        -(s as int)
    } else {
        s as int
    }
}

/// Largest magnitude in a block; 0 for an empty block.
pub open spec fn peak_of(s: Seq<i16>) -> int
    decreases s.len(),
{
    if s.len() == 0 {
        0
    } else {
        let rest = peak_of(s.drop_last());
        if abs_sample(s.last()) > rest {
            abs_sample(s.last())
        } else {
            rest
        }
    }
}

/// Sum of squared magnitudes of a block.
pub open spec fn sum_squares(s: Seq<i16>) -> int
    decreases s.len(),
{
    if s.len() == 0 {
        0
    } else {
        sum_squares(s.drop_last()) + abs_sample(s.last()) * abs_sample(s.last())
    }
}

/// Integer square root: the largest `r` with `r * r <= n`.
pub open spec fn spec_isqrt(n: nat) -> nat
    decreases n,
{
    if n == 0 {
        0
    } else {
        let r = spec_isqrt((n - 1) as nat);
        if (r + 1) * (r + 1) <= n {
            r + 1
        } else {
            r
        }
    }
}

/// Root-mean-square magnitude of a block: the integer square root of the
/// mean of the squared magnitudes; 0 for an empty block.
pub open spec fn rms_of(s: Seq<i16>) -> int {
    if s.len() == 0 {
        0
    } else {
        spec_isqrt((sum_squares(s) / s.len() as int) as nat) as int
    }
}

/// `spec_isqrt` is characterized by the two-sided square bound.
pub proof fn lemma_isqrt_bounds(n: nat)
    ensures
        spec_isqrt(n) * spec_isqrt(n) <= n,
        n < (spec_isqrt(n) + 1) * (spec_isqrt(n) + 1),
    decreases n,
{
    if n > 0 {
        lemma_isqrt_bounds((n - 1) as nat);
        let r = spec_isqrt((n - 1) as nat);
        assert(spec_isqrt(n) == if (r + 1) * (r + 1) <= n {
            r + 1
        } else {
            r
        });
        if (r + 1) * (r + 1) <= n {
            assert((r + 1) * (r + 1) < (r + 2) * (r + 2)) by (nonlinear_arith);
            assert(n < (r + 2) * (r + 2));
            assert(spec_isqrt(n) + 1 == r + 2);
            assert(n < (spec_isqrt(n) + 1) * (spec_isqrt(n) + 1));
        } else {
            assert(spec_isqrt(n) == r);
            assert(r * r <= n);
            assert(n < (r + 1) * (r + 1));
            assert(n < (spec_isqrt(n) + 1) * (spec_isqrt(n) + 1));
        }
    } else {
        assert(spec_isqrt(0nat) == 0);
        assert(spec_isqrt(n) == 0);
        assert(n < (spec_isqrt(n) + 1) * (spec_isqrt(n) + 1)) by (nonlinear_arith)
            requires
                n == 0,
                spec_isqrt(n) == 0,
        ;
    }
}

/// Any `r` that satisfies the two-sided square bound is `spec_isqrt(n)`.
pub proof fn lemma_isqrt_unique(n: nat, r: nat)
    requires
        r * r <= n,
        n < (r + 1) * (r + 1),
    ensures
        r == spec_isqrt(n),
{
    lemma_isqrt_bounds(n);
    let q = spec_isqrt(n);
    if r < q {
        assert((r + 1) * (r + 1) <= q * q) by (nonlinear_arith)
            requires
                r + 1 <= q,
        ;
    }
    if q < r {
        assert((q + 1) * (q + 1) <= r * r) by (nonlinear_arith)
            requires
                q + 1 <= r,
        ;
    }
}

/// The largest `r` with `r * r <= x`, found by binary search.
fn isqrt_u64(x: u64) -> (r: u64)
    ensures
        r * r <= x,
        x < (r + 1) * (r + 1),
        r == spec_isqrt(x as nat),
{
    let mut lo: u64 = 0;
    let mut hi: u64 = 0x1_0000_0000;
    while hi - lo > 1
        invariant
            lo < hi <= 0x1_0000_0000,
            lo * lo <= x,
            x < hi * hi,
        decreases hi - lo,
    {
        let mid = lo + (hi - lo) / 2;
        proof {
            assert(mid * mid <= 0x1_0000_0000 * 0x1_0000_0000) by (nonlinear_arith)
                requires
                    mid <= 0x1_0000_0000,
            ;
        }
        let sq: u128 = (mid as u128) * (mid as u128);
        if sq <= x as u128 {
            lo = mid;
        } else {
            hi = mid;
        }
    }
    proof {
        lemma_isqrt_unique(x as nat, lo as nat);
    }
    lo
}

impl Levels {
    /// Silence: both magnitudes zero.
    pub fn silent() -> (l: Levels)
        ensures
            l.peak == 0,
            l.rms == 0,
    {
        Levels { peak: 0, rms: 0 }
    }
}

/// Computes the peak and rms magnitude of one block of samples. Pure,
/// deterministic, one pass; an empty block yields silence, with no
/// division by zero.
pub fn compute_levels(samples: &[i16]) -> (l: Levels)
    ensures
        l.peak == peak_of(samples@),
        l.rms == rms_of(samples@),
        0 <= l.peak <= 32768,
        0 <= l.rms <= 32768,
{
    let n = samples.len();
    let mut peak: u16 = 0;
    let mut sum_sq: u128 = 0;
    let mut i: usize = 0;
    while i < n
        invariant
            i <= n,
            n == samples@.len(),
            peak == peak_of(samples@.take(i as int)),
            peak <= 32768,
            sum_sq == sum_squares(samples@.take(i as int)),
            sum_sq <= i * 0x4000_0000,
        decreases n - i,
    {
        let s = samples[i];
        let v: i32 = s as i32;
        let a: u16 = if v < 0 {
            (-v) as u16
        } else {
            v as u16
        };
        proof {
            assert(samples@.take(i + 1).drop_last() =~= samples@.take(i as int));
            assert(samples@.take(i + 1).last() == samples@[i as int]);
            assert(a * a <= 0x4000_0000) by (nonlinear_arith)
                requires
                    a <= 32768,
            ;
        }
        if a > peak {
            peak = a;
        }
        sum_sq = sum_sq + (a as u128) * (a as u128);
        i = i + 1;
    }
    proof {
        assert(samples@.take(n as int) =~= samples@);
    }
    if n == 0 {
        Levels { peak: 0, rms: 0 }
    } else {
        let mean: u128 = sum_sq / (n as u128);
        proof {
            lemma_div_is_ordered(sum_sq as int, n as int * 0x4000_0000, n as int);
            lemma_div_by_multiple(0x4000_0000, n as int);
            assert(n as int * 0x4000_0000 == 0x4000_0000 * n as int) by (nonlinear_arith);
        }
        let rms = isqrt_u64(mean as u64);
        proof {
            assert(rms <= 32768) by {
                lemma_isqrt_bounds(mean as nat);
                if rms > 32768 {
                    assert(32769 * 32769 <= rms * rms) by (nonlinear_arith)
                        requires
                            32769 <= rms,
                    ;
                }
            };
        }
        Levels { peak, rms: rms as u16 }
    }
}

/// Law: for a block of constant magnitude, the rms magnitude equals the
/// peak magnitude (both equal that constant). For non-constant blocks no
/// such relation is promised.
pub proof fn lemma_levels_constant_magnitude(s: Seq<i16>, m: nat)
    requires
        s.len() > 0,
        forall|i: int| 0 <= i < s.len() ==> abs_sample(s[i]) == m,
    ensures
        peak_of(s) == m,
        rms_of(s) == m,
{
    lemma_constant_peak(s, m);
    lemma_constant_sum_squares(s, m);
    let mean = sum_squares(s) / s.len() as int;
    assert(sum_squares(s) == s.len() * (m * m));
    lemma_div_by_multiple((m * m) as int, s.len() as int);
    assert(s.len() as int * (m * m) == (m * m) * s.len() as int) by (nonlinear_arith);
    assert(mean == m * m);
    assert(m * m < (m + 1) * (m + 1)) by (nonlinear_arith);
    lemma_isqrt_unique((m * m) as nat, m);
}

proof fn lemma_constant_peak(s: Seq<i16>, m: nat)
    requires
        s.len() > 0,
        forall|i: int| 0 <= i < s.len() ==> abs_sample(s[i]) == m,
    ensures
        peak_of(s) == m,
    decreases s.len(),
{
    assert(s.last() == s[s.len() - 1]);
    assert(abs_sample(s[s.len() - 1]) == m);
    if s.len() == 1 {
        assert(peak_of(s.drop_last()) == 0);
    }
    if s.len() > 1 {
        assert forall|i: int| 0 <= i < s.drop_last().len() implies abs_sample(
            s.drop_last()[i],
        ) == m by {
            assert(s.drop_last()[i] == s[i]);
        }
        lemma_constant_peak(s.drop_last(), m);
    }
}

proof fn lemma_constant_sum_squares(s: Seq<i16>, m: nat)
    requires
        forall|i: int| 0 <= i < s.len() ==> abs_sample(s[i]) == m,
    ensures
        sum_squares(s) == s.len() * (m * m),
    decreases s.len(),
{
    if s.len() == 0 {
    } else {
        lemma_constant_sum_squares(s.drop_last(), m);
        assert(s.len() as int * (m * m) == (s.len() - 1) * (m * m) + m * m) by (nonlinear_arith);
    }
}

} // verus!
