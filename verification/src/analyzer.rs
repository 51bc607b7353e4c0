//! Spectral reduction.
//!
//! The surrounding program applies an analysis window function to a full
//! sample window, runs a real-input discrete Fourier transform over it
//! (floating-point work the pipeline treats as an external capability), and
//! quantizes the `HALF_SPECTRUM` usable magnitudes to integers. This module
//! owns what follows: each run of `BIN_SIZE` adjacent magnitudes is reduced
//! to its mean, the first `SPECTRUM_BINS` means are kept (the transform's
//! redundant, low-energy tail is discarded), and each mean is compressed by
//! an integer square root so quiet detail stays visible beside loud peaks.
//! The aggregation is the mean and the compression is the square root; both
//! are fixed, deterministic choices.

use vstd::prelude::*;

use crate::config::{BIN_SIZE, HALF_SPECTRUM, SPECTRUM_BINS};

verus! {

/// Sum of a magnitude sequence.
pub open spec fn sum_of(s: Seq<u32>) -> int
    decreases s.len(),
{
    if s.len() == 0 {
        0
    } else {
        s[0] + sum_of(s.drop_first())
    }
}

/// Sum of the `i`-th run of `BIN_SIZE` adjacent magnitudes.
pub open spec fn group_sum(m: Seq<u32>, i: int) -> int {
    sum_of(m.subrange(BIN_SIZE as int * i, BIN_SIZE as int * i + BIN_SIZE as int))
}

/// Largest `r` with `r * r <= n`.
pub open spec fn sqrt_floor(n: nat) -> nat
    decreases n,
{
    if n == 0 {
        0
    } else {
        let r = sqrt_floor((n - 1) as nat);
        if (r + 1) * (r + 1) <= n {
            r + 1
        } else {
            r
        }
    }
}

/// Value of output bin `i`: the square-root-compressed mean of its
/// `BIN_SIZE` magnitudes.
pub open spec fn bin_value(m: Seq<u32>, i: int) -> nat {
    sqrt_floor((group_sum(m, i) / (BIN_SIZE as int)) as nat)
}

/// Appending a magnitude adds it to the sum.
proof fn lemma_sum_push(s: Seq<u32>, x: u32)
    ensures
        sum_of(s.push(x)) == sum_of(s) + x,
    decreases s.len(),
{
    if s.len() == 0 {
        assert(s.push(x).drop_first() =~= Seq::<u32>::empty());
        assert(sum_of(Seq::<u32>::empty()) == 0);
        assert(sum_of(s.push(x)) == x + sum_of(s.push(x).drop_first()));
    } else {
        assert(s.push(x).drop_first() =~= s.drop_first().push(x));
        lemma_sum_push(s.drop_first(), x);
        assert(sum_of(s.push(x)) == s[0] + sum_of(s.drop_first().push(x)));
    }
}

/// `sqrt_floor(n)` is the floor of the square root of `n`.
proof fn lemma_sqrt_floor_bounds(n: nat)
    ensures
        sqrt_floor(n) * sqrt_floor(n) <= n,
        n < (sqrt_floor(n) + 1) * (sqrt_floor(n) + 1),
    decreases n,
{
    if n == 0 {
        let s = sqrt_floor(n);
        assert(s == 0);
        assert(n < (s + 1) * (s + 1)) by (nonlinear_arith)
            requires
                s == 0 && n == 0,
        ;
    } else {
        lemma_sqrt_floor_bounds((n - 1) as nat);
        let r = sqrt_floor((n - 1) as nat);
        if (r + 1) * (r + 1) <= n {
            assert(sqrt_floor(n) == r + 1);
            assert(n < ((r + 1) + 1) * ((r + 1) + 1)) by (nonlinear_arith)
                requires
                    (n - 1) < (r + 1) * (r + 1),
            ;
            assert(sqrt_floor(n) * sqrt_floor(n) <= n);
            assert(n < (sqrt_floor(n) + 1) * (sqrt_floor(n) + 1));
        } else {
            assert(sqrt_floor(n) == r);
            assert(sqrt_floor(n) * sqrt_floor(n) <= n);
            assert(n < (sqrt_floor(n) + 1) * (sqrt_floor(n) + 1));
        }
    }
}

/// Any `r` whose square brackets `n` is `sqrt_floor(n)`.
proof fn lemma_sqrt_floor_unique(n: nat, r: nat)
    requires
        r * r <= n,
        n < (r + 1) * (r + 1),
    ensures
        r == sqrt_floor(n),
{
    let s = sqrt_floor(n);
    lemma_sqrt_floor_bounds(n);
    if r < s {
        assert((r + 1) * (r + 1) <= s * s) by (nonlinear_arith)
            requires
                r + 1 <= s,
        ;
    }
    if s < r {
        assert((s + 1) * (s + 1) <= r * r) by (nonlinear_arith)
            requires
                s + 1 <= r,
        ;
    }
}

/// Integer square root of a magnitude mean by bisection.
fn isqrt(n: u64) -> (r: u64)
    requires
        n <= u32::MAX as u64,
    ensures
        r as nat == sqrt_floor(n as nat),
        r <= 0xFFFF,
{
    let mut lo: u64 = 0;
    let mut hi: u64 = 0x10000;
    while lo + 1 < hi
        invariant
            lo < hi <= 0x10000,
            (lo as int) * (lo as int) <= n as int,
            (n as int) < (hi as int) * (hi as int),
        decreases hi - lo,
    {
        let mid = lo + (hi - lo) / 2;
        proof {
            assert((mid as int) * (mid as int) <= 0x10000 * 0x10000) by (nonlinear_arith)
                requires
                    0 <= mid <= 0x10000,
            ;
        }
        if mid * mid <= n {
            lo = mid;
        } else {
            hi = mid;
        }
    }
    proof {
        lemma_sqrt_floor_unique(n as nat, lo as nat);
    }
    lo
}

/// The spectral reducer. Its reduction is a pure, stateless function of the
/// magnitudes; no smoothing state is carried between cycles.
pub struct SpectrumAnalyzer {}

impl SpectrumAnalyzer {
    pub fn new() -> (a: SpectrumAnalyzer) {
        SpectrumAnalyzer {  }
    }

    /// Reduces the usable magnitudes of one transformed window to the output
    /// spectrum: bin `i` is the square-root-compressed mean of magnitudes
    /// `BIN_SIZE * i .. BIN_SIZE * (i + 1)`. Fixed-size input gives
    /// fixed-size output; there are no error conditions.
    pub fn compute(&self, magnitudes: &Vec<u32>) -> (out: Vec<u16>)
        requires
            magnitudes@.len() == HALF_SPECTRUM as nat,
        ensures
            out@.len() == SPECTRUM_BINS as nat,
            forall|i: int| 0 <= i < SPECTRUM_BINS as int ==> out@[i] as nat == bin_value(
                magnitudes@,
                i,
            ),
    {
        let mut out: Vec<u16> = Vec::new();
        let mut i: usize = 0;
        while i < SPECTRUM_BINS
            invariant
                i <= SPECTRUM_BINS,
                magnitudes@.len() == HALF_SPECTRUM as nat,
                out@.len() == i as nat,
                forall|k: int| 0 <= k < i as int ==> out@[k] as nat == bin_value(magnitudes@, k),
            decreases SPECTRUM_BINS - i,
        {
            let base = i * BIN_SIZE;
            let mut sum: u64 = 0;
            let mut j: usize = 0;
            proof {
                assert(magnitudes@.subrange(base as int, base as int) =~= Seq::<u32>::empty());
            }
            while j < BIN_SIZE
                invariant
                    j <= BIN_SIZE,
                    i < SPECTRUM_BINS,
                    base == i * BIN_SIZE,
                    magnitudes@.len() == HALF_SPECTRUM as nat,
                    sum as int == sum_of(magnitudes@.subrange(base as int, base as int + j as int)),
                    sum as int <= (j as int) * (u32::MAX as int),
                decreases BIN_SIZE - j,
            {
                proof {
                    assert(magnitudes@.subrange(base as int, base as int + (j + 1) as int)
                        =~= magnitudes@.subrange(base as int, base as int + j as int).push(
                        magnitudes@[base as int + j as int],
                    ));
                    lemma_sum_push(
                        magnitudes@.subrange(base as int, base as int + j as int),
                        magnitudes@[base as int + j as int],
                    );
                }
                sum = sum + magnitudes[base + j] as u64;
                j += 1;
            }
            let mean = sum / BIN_SIZE as u64;
            proof {
                vstd::arithmetic::div_mod::lemma_div_is_ordered(
                    sum as int,
                    (BIN_SIZE as int) * (u32::MAX as int),
                    BIN_SIZE as int,
                );
                vstd::arithmetic::div_mod::lemma_div_multiples_vanish(
                    u32::MAX as int,
                    BIN_SIZE as int,
                );
            }
            let scaled = isqrt(mean);
            out.push(scaled as u16);
            i += 1;
        }
        out
    }
}

/// Law: an all-zero magnitude spectrum, as the transform of a silent window
/// produces, reduces to all-zero output bins.
pub proof fn lemma_silence_gives_zero_bins(m: Seq<u32>)
    requires
        m.len() == HALF_SPECTRUM as nat,
        forall|k: int| 0 <= k < m.len() ==> m[k] == 0,
    ensures
        forall|i: int| 0 <= i < SPECTRUM_BINS as int ==> bin_value(m, i) == 0,
{
    assert forall|i: int| 0 <= i < SPECTRUM_BINS as int implies bin_value(m, i) == 0 by {
        lemma_sum_of_zeros(m.subrange(BIN_SIZE as int * i, BIN_SIZE as int * i + BIN_SIZE as int));
    }
}

/// A sum of zero magnitudes is zero.
proof fn lemma_sum_of_zeros(s: Seq<u32>)
    requires
        forall|k: int| 0 <= k < s.len() ==> s[k] == 0,
    ensures
        sum_of(s) == 0,
    decreases s.len(),
{
    if s.len() > 0 {
        lemma_sum_of_zeros(s.drop_first());
    }
}

} // verus!
