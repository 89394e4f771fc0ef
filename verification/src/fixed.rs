//! Fixed-point scalar arithmetic.
//!
//! Every scalar quantity of the library — coordinates, angles in degrees,
//! zoom, speeds, matrix entries — is an `i64` holding the quantity times
//! [`SCALE`].  Multiplication and division of such numbers rescale their
//! result and round it toward zero, exactly as the corresponding `i128`
//! integer computation does; the spec functions here give those operations
//! their mathematical meaning.

use vstd::prelude::*;

verus! {

/// One unit, in fixed-point representation: all scalars are scaled by this.
pub const SCALE: i64 = 1_000_000;

/// The largest magnitude an operand of [`fxmul`] or [`fxdiv`] may have.
/// Products of two such operands stay within `i128`, and rescaled results
/// stay within `i64`.
pub const FX_LIM: i64 = 3_000_000_000_000;

/// Integer division rounding toward zero, for a positive divisor.
/// This is what Rust's `/` computes on signed integers, while `/` on
/// mathematical integers in specifications rounds toward negative infinity.
pub open spec fn div_trunc(a: int, b: int) -> int {
    if a >= 0 {
        a / b
    } else {
        -((-a) / b)
    }
}

/// The product of two fixed-point numbers: rescaled and rounded toward zero.
pub open spec fn fxmul_spec(a: int, b: int) -> int {
    div_trunc(a * b, SCALE as int)
}

/// The quotient of two fixed-point numbers: rescaled and rounded toward
/// zero.  Meaningful for a positive divisor.
pub open spec fn fxdiv_spec(a: int, b: int) -> int {
    div_trunc(a * (SCALE as int), b)
}

/// `v` forced into `[lo, hi]`: the value itself if it already lies there,
/// the nearer bound otherwise.
pub open spec fn clamp_spec(v: int, lo: int, hi: int) -> int {
    if v < lo {
        lo
    } else if v > hi {
        hi
    } else {
        v
    }
}

/// How division rounding toward zero brackets the dividend.
pub proof fn lemma_div_trunc_bounds(a: int, b: int)
    requires
        b >= 1,
    ensures
        a >= 0 ==> b * div_trunc(a, b) <= a < b * (div_trunc(a, b) + 1),
        a < 0 ==> b * (div_trunc(a, b) - 1) < a <= b * div_trunc(a, b),
{
    if a >= 0 {
        let q = a / b;
        assert(b * q + a % b == a) by {
            vstd::arithmetic::div_mod::lemma_fundamental_div_mod(a, b);
        }
        assert(0 <= a % b < b) by {
            vstd::arithmetic::div_mod::lemma_mod_bound(a, b);
        }
        assert(b * (q + 1) == b * q + b) by (nonlinear_arith);
    } else {
        let m = -a;
        let q = m / b;
        assert(b * q + m % b == m) by {
            vstd::arithmetic::div_mod::lemma_fundamental_div_mod(m, b);
        }
        assert(0 <= m % b < b) by {
            vstd::arithmetic::div_mod::lemma_mod_bound(m, b);
        }
        assert(b * (-q) == -(b * q)) by (nonlinear_arith);
        assert(b * (-q - 1) == -(b * q) - b) by (nonlinear_arith);
    }
}

/// Rounding toward zero never grows the magnitude of an exact quotient.
pub proof fn lemma_div_trunc_magnitude(a: int, b: int, m: int)
    requires
        b >= 1,
        -m <= a <= m,
        0 <= m,
    ensures
        -m <= b * div_trunc(a, b),
        b * div_trunc(a, b) <= m,
        -m <= div_trunc(a, b) <= m,
{
    lemma_div_trunc_bounds(a, b);
    let q = div_trunc(a, b);
    if a >= 0 {
        vstd::arithmetic::div_mod::lemma_div_pos_is_pos(a, b);
        assert(q >= 0);
        assert(q <= b * q) by (nonlinear_arith)
            requires q >= 0, b >= 1 {
        }
    } else {
        vstd::arithmetic::div_mod::lemma_div_pos_is_pos(-a, b);
        assert(q <= 0);
        assert(b * q <= q) by (nonlinear_arith)
            requires q <= 0, b >= 1 {
        }
    }
}

/// Fixed-point multiplication.
pub fn fxmul(a: i64, b: i64) -> (r: i64)
    requires
        -FX_LIM <= a <= FX_LIM,
        -FX_LIM <= b <= FX_LIM,
    ensures
        r == fxmul_spec(a as int, b as int),
{
    proof {
        assert((a as int) * (b as int) <= (FX_LIM as int) * (FX_LIM as int)
            && -((FX_LIM as int) * (FX_LIM as int)) <= (a as int) * (b as int))
            by (nonlinear_arith)
            requires -FX_LIM <= a <= FX_LIM, -FX_LIM <= b <= FX_LIM {
        }
    }
    let p: i128 = (a as i128) * (b as i128);
    proof {
        lemma_div_trunc_magnitude(p as int, SCALE as int, (FX_LIM as int) * (FX_LIM as int));
    }
    if p >= 0 {
        (p / (SCALE as i128)) as i64
    } else {
        (-((-p) / (SCALE as i128))) as i64
    }
}

/// Fixed-point division by a positive divisor.
pub fn fxdiv(a: i64, b: i64) -> (r: i64)
    requires
        -FX_LIM <= a <= FX_LIM,
        1 <= b,
    ensures
        r == fxdiv_spec(a as int, b as int),
{
    proof {
        assert((a as int) * (SCALE as int) <= (FX_LIM as int) * (SCALE as int)
            && -((FX_LIM as int) * (SCALE as int)) <= (a as int) * (SCALE as int))
            by (nonlinear_arith)
            requires -FX_LIM <= a <= FX_LIM {
        }
    }
    let p: i128 = (a as i128) * (SCALE as i128);
    proof {
        lemma_div_trunc_magnitude(p as int, b as int, (FX_LIM as int) * (SCALE as int));
    }
    if p >= 0 {
        (p / (b as i128)) as i64
    } else {
        (-((-p) / (b as i128))) as i64
    }
}

/// A bound on both factors gives a rescaled bound on a fixed-point product.
pub proof fn lemma_fxmul_magnitude(a: int, b: int, ma: int, mb: int)
    requires
        -ma <= a <= ma,
        -mb <= b <= mb,
        0 <= ma,
        0 <= mb,
    ensures
        -(ma * mb) <= fxmul_spec(a, b) <= ma * mb,
        fxmul_spec(a, b) <= (ma * mb) / (SCALE as int),
        -((ma * mb) / (SCALE as int)) - 1 <= fxmul_spec(a, b),
{
    let s = SCALE as int;
    assert(-(ma * mb) <= a * b <= ma * mb) by (nonlinear_arith)
        requires -ma <= a <= ma, -mb <= b <= mb, 0 <= ma, 0 <= mb {
    }
    lemma_div_trunc_magnitude(a * b, s, ma * mb);
    let q = fxmul_spec(a, b);
    assert(s * q <= ma * mb);
    assert(q <= (ma * mb) / s) by {
        vstd::arithmetic::div_mod::lemma_div_is_ordered(s * q, ma * mb, s);
        vstd::arithmetic::div_mod::lemma_div_multiples_vanish(q, s);
    }
    assert(-((ma * mb) / s) - 1 <= q) by {
        vstd::arithmetic::div_mod::lemma_div_is_ordered(-(ma * mb), s * q, s);
        vstd::arithmetic::div_mod::lemma_div_multiples_vanish(q, s);
        vstd::arithmetic::div_mod::lemma_div_plus_one(-(ma * mb), s);
        assert((-(ma * mb)) / s >= -((ma * mb) / s) - 1) by {
            vstd::arithmetic::div_mod::lemma_fundamental_div_mod(ma * mb, s);
            vstd::arithmetic::div_mod::lemma_mod_division_less_than_divisor(ma * mb, s);
            vstd::arithmetic::div_mod::lemma_fundamental_div_mod(-(ma * mb), s);
            vstd::arithmetic::div_mod::lemma_mod_division_less_than_divisor(-(ma * mb), s);
            let qp = (ma * mb) / s;
            let qn = (-(ma * mb)) / s;
            assert(s * qn + (-(ma * mb)) % s == -(s * qp + (ma * mb) % s));
            assert(s * qn == s * (-qp) - ((ma * mb) % s + (-(ma * mb)) % s));
            assert(s * (-qp) == -(s * qp)) by (nonlinear_arith);
            assert(s * (-qp - 1) == -(s * qp) - s) by (nonlinear_arith);
            assert(s * qn >= s * (-qp - 1));
            assert(qn >= -qp - 1) by (nonlinear_arith)
                requires s >= 1, s * qn >= s * (-qp - 1) {
            }
        }
    }
}

/// Truncating division keeps a quotient within a bound that the dividend
/// respects times the divisor.
pub proof fn lemma_trunc_div_bounded(a: int, b: int, c: int)
    requires
        b >= 1,
        0 <= c,
        -(b * c) <= a <= b * c,
    ensures
        -c <= div_trunc(a, b) <= c,
{
    lemma_div_trunc_bounds(a, b);
    let q = div_trunc(a, b);
    if a >= 0 {
        assert(b * q <= b * c);
        assert(q <= c) by (nonlinear_arith)
            requires b >= 1, b * q <= b * c {
        }
        vstd::arithmetic::div_mod::lemma_div_pos_is_pos(a, b);
    } else {
        assert(-(b * c) <= b * q);
        assert(b * (-c) == -(b * c)) by (nonlinear_arith);
        assert(-c <= q) by (nonlinear_arith)
            requires b >= 1, b * (-c) <= b * q {
        }
        vstd::arithmetic::div_mod::lemma_div_pos_is_pos(-a, b);
    }
}

/// The integer square root of a nonnegative number, as a specification
/// value: the unique nonnegative integer whose square does not exceed `n`
/// while the next square does.
pub open spec fn sqrt_spec(n: int) -> int {
    choose|r: int| 0 <= r && #[trigger] (r * r) <= n && n < (r + 1) * (r + 1)
}

/// A witness pins [`sqrt_spec`] down: any integer bracketing `n` between
/// consecutive squares is the spec square root.
pub proof fn lemma_sqrt_spec_unique(n: int, r: int)
    requires
        0 <= r,
        r * r <= n,
        n < (r + 1) * (r + 1),
    ensures
        r == sqrt_spec(n),
{
    assert(exists|w: int| 0 <= w && #[trigger] (w * w) <= n && n < (w + 1) * (w + 1)) by {
        assert(0 <= r && r * r <= n && n < (r + 1) * (r + 1));
    }
    let w = sqrt_spec(n);
    if r < w {
        assert((r + 1) * (r + 1) <= w * w) by (nonlinear_arith)
            requires 0 <= r, r < w {
        }
    }
    if w < r {
        assert((w + 1) * (w + 1) <= r * r) by (nonlinear_arith)
            requires 0 <= w, w < r {
        }
    }
}

/// Every nonnegative number has a spec square root with the bracketing
/// properties.
pub proof fn lemma_sqrt_spec_exists(n: int)
    requires
        0 <= n,
    ensures
        0 <= sqrt_spec(n),
        sqrt_spec(n) * sqrt_spec(n) <= n,
        n < (sqrt_spec(n) + 1) * (sqrt_spec(n) + 1),
    decreases n,
{
    if n == 0 {
        lemma_sqrt_spec_unique(0, 0);
    } else {
        lemma_sqrt_spec_exists(n - 1);
        let r = sqrt_spec(n - 1);
        if n < (r + 1) * (r + 1) {
            lemma_sqrt_spec_unique(n, r);
        } else {
            assert(n == (r + 1) * (r + 1));
            assert(n < (r + 2) * (r + 2)) by (nonlinear_arith)
                requires n == (r + 1) * (r + 1), r >= 0 {
            }
            lemma_sqrt_spec_unique(n, r + 1);
        }
    }
}

/// Truncating division of a fixed-point number by a positive integer,
/// without rescaling.
pub fn trunc_div(a: i64, b: i64) -> (r: i64)
    requires
        1 <= b,
        -4_000_000_000_000_000_000 <= a <= 4_000_000_000_000_000_000,
    ensures
        r == div_trunc(a as int, b as int),
        -4_000_000_000_000_000_000 <= r <= 4_000_000_000_000_000_000,
{
    proof {
        lemma_div_trunc_magnitude(a as int, b as int, 4_000_000_000_000_000_000);
    }
    let p: i128 = a as i128;
    if p >= 0 {
        (p / (b as i128)) as i64
    } else {
        (-((-p) / (b as i128))) as i64
    }
}

/// `v` forced into `[lo, hi]`: the lower bound is applied first, then
/// the upper one.
pub fn clamp(v: i64, lo: i64, hi: i64) -> (r: i64)
    requires
        lo <= hi,
    ensures
        r == clamp_spec(v as int, lo as int, hi as int),
        lo <= r <= hi,
{
    let lower = if v < lo { lo } else { v };
    if lower > hi { hi } else { lower }
}

/// The integer square root: the largest integer whose square does not
/// exceed `n`.
pub fn isqrt(n: u64) -> (r: u64)
    ensures
        r * r <= n,
        n < (r + 1) * (r + 1),
        r <= 4_294_967_296,
        r == sqrt_spec(n as int),
{
    let mut lo: u64 = 0;
    let mut hi: u64 = 4_294_967_296;
    proof {
        assert((n as int) < 4_294_967_296int * 4_294_967_296int) by (nonlinear_arith)
            requires n <= u64::MAX {
        }
    }
    while lo + 1 < hi
        invariant
            0 <= lo < hi <= 4_294_967_296,
            lo * lo <= n,
            n < hi * hi,
        decreases hi - lo,
    {
        let mid = lo + (hi - lo) / 2;
        proof {
            assert(lo < mid < hi);
            assert(mid * mid <= 4_294_967_295int * 4_294_967_295int) by (nonlinear_arith)
                requires 0 <= mid <= 4_294_967_295int {
            }
        }
        if mid * mid <= n {
            lo = mid;
        } else {
            hi = mid;
        }
    }
    proof {
        lemma_sqrt_spec_unique(n as int, lo as int);
    }
    lo
}

} // verus!
