//! Integer search for PLL divider settings.
//!
//! A PLL turns an input frequency into `freq_in / nr * nf / od`, with
//! `nr, od` in `1..=16` and `nf` in `1..=64`.
use vstd::prelude::*;
use vstd::arithmetic::div_mod::{lemma_div_is_ordered_by_denominator, lemma_fundamental_div_mod};

verus! {

/// Largest value of `nr` and of `od`.
pub const DIV_MAX: u64 = 16;

/// Largest value of `nf`.
pub const MUL_MAX: u64 = 64;

/// With the combined divider `n`, a target `freq` leaves room for a
/// multiplier within the maximum.
pub open spec fn pll_fits(freq_in: int, freq: int, n: int) -> bool {
    freq <= freq_in * 64 / n
}

/// `n` is `nr * od` with this `nr` and an `od` in range.
pub open spec fn splits_as(n: int, nr: int) -> bool {
    1 <= nr <= 16 && n % nr == 0 && n / nr <= 16
}

/// `n` is a product of two dividers in `1..=16`.
pub open spec fn splittable(n: int) -> bool {
    exists|nr: int| #[trigger] splits_as(n, nr)
}

/// What a PLL with dividers `(nr, od, nf)` makes of `freq_in`.
pub open spec fn pll_output(freq_in: int, nr: int, nf: int, od: int) -> int {
    freq_in / nr * nf / od
}

/// The multiplier for the combined divider `n`: the target scaled by `n`,
/// rounded down, and kept in `1..=64`.
pub open spec fn pll_multiplier(freq_in: int, freq: int, n: int) -> int {
    let m = freq * n / freq_in;
    if m < 1 {
        1
    } else if m > 64 {
        64
    } else {
        m
    }
}

proof fn lemma_fits_antitone(freq_in: int, freq: int, m: int, n: int)
    requires
        freq_in > 0,
        1 <= m <= n,
        pll_fits(freq_in, freq, n),
    ensures
        pll_fits(freq_in, freq, m),
{
    lemma_div_is_ordered_by_denominator(freq_in * 64, m, n);
}

/// `(nr, od, nf)` is the divider setting chosen for `freq_in` and `freq`:
/// all three in range; the combined divider `nr * od` the largest product of
/// two in-range dividers (at most 256) for which the target still fits, or 1;
/// `nr` the smallest divider that splits it; and `nf` the clamped multiplier.
pub open spec fn pll_config_ok(freq_in: int, freq: int, t: (int, int, int)) -> bool {
    let (nr, od, nf) = t;
    let n = nr * od;
    &&& 1 <= nr <= 16
    &&& 1 <= od <= 16
    &&& 1 <= nf <= 64
    &&& n == 1 || pll_fits(freq_in, freq, n)
    &&& forall|m: int| n < m <= 256 ==> !(pll_fits(freq_in, freq, m) && #[trigger] splittable(m))
    &&& forall|k: int| 1 <= k < nr ==> !#[trigger] splits_as(n, k)
    &&& nf == pll_multiplier(freq_in, freq, n)
}

/// The divider setting for `freq_in` and `freq`.
pub open spec fn pll_config_for(freq_in: int, freq: int) -> (int, int, int) {
    choose|t: (int, int, int)| pll_config_ok(freq_in, freq, t)
}

/// There is one divider setting that meets `pll_config_ok`.
pub proof fn lemma_pll_config_unique(freq_in: int, freq: int, t: (int, int, int))
    requires
        pll_config_ok(freq_in, freq, t),
    ensures
        t == pll_config_for(freq_in, freq),
{
    let u = pll_config_for(freq_in, freq);
    assert(pll_config_ok(freq_in, freq, u));
    let (nr, od, nf) = t;
    let (nr2, od2, nf2) = u;
    let n = nr * od;
    let n2 = nr2 * od2;
    assert(nr * od >= 1) by (nonlinear_arith) requires nr >= 1, od >= 1;
    assert(nr2 * od2 >= 1) by (nonlinear_arith) requires nr2 >= 1, od2 >= 1;
    assert(n % nr == 0 && n / nr == od) by {
        vstd::arithmetic::div_mod::lemma_div_multiples_vanish(od, nr);
        vstd::arithmetic::div_mod::lemma_mod_multiples_basic(od, nr);
        assert(nr * od == od * nr) by (nonlinear_arith);
    }
    assert(n2 % nr2 == 0 && n2 / nr2 == od2) by {
        vstd::arithmetic::div_mod::lemma_div_multiples_vanish(od2, nr2);
        vstd::arithmetic::div_mod::lemma_mod_multiples_basic(od2, nr2);
        assert(nr2 * od2 == od2 * nr2) by (nonlinear_arith);
    }
    assert(splits_as(n, nr));
    assert(splits_as(n2, nr2));
    if n < n2 {
        assert(n2 <= 256) by (nonlinear_arith) requires n2 == nr2 * od2, nr2 <= 16, od2 <= 16, nr2 >= 1, od2 >= 1;
        assert(splittable(n2));
        assert(false);
    }
    if n2 < n {
        assert(n <= 256) by (nonlinear_arith) requires n == nr * od, nr <= 16, od <= 16, nr >= 1, od >= 1;
        assert(splittable(n));
        assert(false);
    }
    assert(n == n2);
    if nr < nr2 {
        assert(!splits_as(n2, nr));
        assert(false);
    }
    if nr2 < nr {
        assert(!splits_as(n, nr2));
        assert(false);
    }
}

/// Where the scaled target needs no clamping, the multiplier is the scaled
/// target rounded down: the output lies within one multiplier step below the
/// target.
pub proof fn lemma_multiplier_within_one_step(freq_in: int, freq: int, n: int)
    requires
        freq_in > 0,
        freq > 0,
        n >= 1,
        1 <= freq * n / freq_in <= 64,
    ensures
        freq_in * pll_multiplier(freq_in, freq, n) <= freq * n,
        freq * n < freq_in * (pll_multiplier(freq_in, freq, n) + 1),
{
    let m = pll_multiplier(freq_in, freq, n);
    lemma_fundamental_div_mod(freq * n, freq_in);
    assert(m == freq * n / freq_in);
    assert(0 <= (freq * n) % freq_in < freq_in) by {
        vstd::arithmetic::div_mod::lemma_mod_bound(freq * n, freq_in);
    }
    assert(freq_in * (m + 1) == freq_in * m + freq_in) by (nonlinear_arith);
}

/// Chooses PLL dividers `(nr, od, nf)` that bring `freq_in` close to `freq`.
///
/// The combined divider `nr * od` is the largest product of two values in
/// `1..=16` (at most 256) for which `freq` does not exceed `freq_in * 64 / (nr * od)`,
/// or 1 where none does; a larger divider lets `nf` resolve the target more
/// finely. `nf` is `freq * nr * od / freq_in` kept in `1..=64`, and `nr` is the
/// smallest divider that splits the product.
pub fn calculate_pll_config(freq_in: u32, freq: u32) -> (r: (u8, u8, u8))
    requires
        freq_in > 0,
        freq > 0,
    ensures
        pll_config_ok(freq_in as int, freq as int, (r.0 as int, r.1 as int, r.2 as int)),
{
    let fin = freq_in as u64;
    let f = freq as u64;
    // Binary search for the boundary of `pll_fits`, which holds up to some
    // divider and fails beyond it.
    let mut left: u64 = 1;
    let mut right: u64 = 257;
    while left + 1 < right
        invariant
            1 <= left < right <= 257,
            fin == freq_in,
            f == freq,
            fin > 0,
            left == 1 || pll_fits(fin as int, f as int, left as int),
            right == 257 || !pll_fits(fin as int, f as int, right as int),
        decreases right - left,
    {
        let mid = (left + right) / 2;
        let max_freq = fin * 64 / mid;
        if f > max_freq {
            right = mid;
        } else {
            left = mid;
        }
    }
    assert forall|m: int| left < m <= 256 implies !pll_fits(fin as int, f as int, m) by {
        if pll_fits(fin as int, f as int, m) {
            lemma_fits_antitone(fin as int, f as int, right as int, m);
        }
    };
    // Walk down to the nearest divider that two in-range factors can make.
    let mut n: u64 = left;
    let mut nr: u64 = 0;
    while nr == 0
        invariant
            1 <= n <= left,
            left <= 256,
            fin == freq_in,
            f == freq,
            fin > 0,
            n == 1 || pll_fits(fin as int, f as int, n as int),
            forall|m: int| left < m <= 256 ==> !pll_fits(fin as int, f as int, m),
            forall|m: int| n < m <= left ==> !splittable(m),
            nr != 0 ==> splits_as(n as int, nr as int) && forall|k: int|
                1 <= k < nr ==> !splits_as(n as int, k),
        decreases n + (if nr == 0 { 1int } else { 0 }),
    {
        let mut k: u64 = 1;
        while k <= DIV_MAX && nr == 0
            invariant
                1 <= k <= 17,
                1 <= n <= 256,
                nr == 0 ==> forall|j: int| 1 <= j < k ==> !splits_as(n as int, j),
                nr != 0 ==> splits_as(n as int, nr as int) && forall|j: int|
                    1 <= j < nr ==> !splits_as(n as int, j),
            decreases 17 - k + (if nr == 0 { 1int } else { 0 }),
        {
            if n % k == 0 && n / k <= DIV_MAX {
                nr = k;
            } else {
                k = k + 1;
            }
        }
        if nr == 0 {
            assert(!splittable(n as int));
            if n == 1 {
                assert(splits_as(1, 1));
            }
            n = n - 1;
            proof {
                if n >= 2 {
                    lemma_fits_antitone(fin as int, f as int, n as int, (n + 1) as int);
                }
            }
        }
    }
    let od = n / nr;
    proof {
        lemma_fundamental_div_mod(n as int, nr as int);
    }
    assert(nr * od == n) by (nonlinear_arith)
        requires n % nr == 0, od == n / nr, nr > 0, n == nr * (n / nr) + n % nr;
    assert(od >= 1) by (nonlinear_arith)
        requires nr * od == n, n >= 1, nr >= 1, od >= 0;
    assert(f * n <= 0xffff_ffff * 256) by (nonlinear_arith)
        requires f <= 0xffff_ffff, n <= 256;
    let scaled = f * n / fin;
    assert((nr as u8) as int * (od as u8) as int == n as int);
    assert(forall|m: int| n < m <= 256 ==> !(pll_fits(fin as int, f as int, m) && splittable(m)));
    let nf: u64 = if scaled < 1 {
        1
    } else if scaled > MUL_MAX {
        MUL_MAX
    } else {
        scaled
    };
    (nr as u8, od as u8, nf as u8)
}

} // verus!
