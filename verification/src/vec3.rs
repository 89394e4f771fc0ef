//! Three-component fixed-point vectors.
//!
//! Components are `i64` values scaled by [`crate::fixed::SCALE`].  Every
//! operation's contract is an exact componentwise equation over the spec
//! functions of [`crate::fixed`]; the normalization lemma at the end bounds
//! how far a normalized vector's squared norm can sit from one.

use vstd::prelude::*;
use crate::fixed::{
    SCALE, FX_LIM, div_trunc, fxmul_spec, sqrt_spec, fxmul, trunc_div,
    lemma_fxmul_magnitude, lemma_trunc_div_bounded, lemma_div_trunc_bounds,
    lemma_sqrt_spec_exists,
};

verus! {

/// A vector of three fixed-point scalars.
#[derive(Clone, Copy, PartialEq, Eq, Structural, Debug)]
pub struct Vec3 {
    pub x: i64,
    pub y: i64,
    pub z: i64,
}

/// A vector of three unbounded integers: the specification-level image of
/// a [`Vec3`], on which contracts state their equations.
pub ghost struct GVec {
    pub x: int,
    pub y: int,
    pub z: int,
}

/// The specification image of an executable vector.
pub open spec fn gv(v: Vec3) -> GVec {
    GVec { x: v.x as int, y: v.y as int, z: v.z as int }
}

/// The specification cross product, in the order `a` then `b`.
pub open spec fn gcross(a: GVec, b: GVec) -> GVec {
    GVec {
        x: fxmul_spec(a.y, b.z) - fxmul_spec(a.z, b.y),
        y: fxmul_spec(a.z, b.x) - fxmul_spec(a.x, b.z),
        z: fxmul_spec(a.x, b.y) - fxmul_spec(a.y, b.x),
    }
}

/// The specification opposite vector.
pub open spec fn gneg(a: GVec) -> GVec {
    GVec { x: -a.x, y: -a.y, z: -a.z }
}

/// The specification squared norm, in raw integer units.
pub open spec fn gnorm_sq(a: GVec) -> int {
    a.x * a.x + a.y * a.y + a.z * a.z
}

/// The specification dot product.
pub open spec fn gdot(a: GVec, b: GVec) -> int {
    fxmul_spec(a.x, b.x) + fxmul_spec(a.y, b.y) + fxmul_spec(a.z, b.z)
}

/// The specification unit vector: each component scaled by [`SCALE`] and
/// divided by the integer square root of the squared norm, rounded toward
/// zero.
pub open spec fn gunit(a: GVec) -> GVec {
    let n = sqrt_spec(gnorm_sq(a));
    GVec {
        x: div_trunc(a.x * (SCALE as int), n),
        y: div_trunc(a.y * (SCALE as int), n),
        z: div_trunc(a.z * (SCALE as int), n),
    }
}

/// Every component of `v` lies within `[-m, m]`.
pub open spec fn in_range(v: Vec3, m: int) -> bool {
    &&& -m <= v.x <= m
    &&& -m <= v.y <= m
    &&& -m <= v.z <= m
}

/// The squared norm of `v`, in raw integer units (not rescaled).
pub open spec fn norm_sq_spec(v: Vec3) -> int {
    v.x * v.x + v.y * v.y + v.z * v.z
}

/// The fixed-point dot product.
pub open spec fn dot_spec(a: Vec3, b: Vec3) -> int {
    fxmul_spec(a.x as int, b.x as int)
        + fxmul_spec(a.y as int, b.y as int)
        + fxmul_spec(a.z as int, b.z as int)
}

impl Vec3 {
    /// The vector with the given components.
    pub fn new(x: i64, y: i64, z: i64) -> (r: Vec3)
        ensures
            r == (Vec3 { x, y, z }),
    {
        Vec3 { x, y, z }
    }

    /// The zero vector.
    pub fn zero() -> (r: Vec3)
        ensures
            r == (Vec3 { x: 0i64, y: 0i64, z: 0i64 }),
    {
        Vec3 { x: 0, y: 0, z: 0 }
    }
}

/// Componentwise sum.
pub fn add(a: Vec3, b: Vec3) -> (r: Vec3)
    requires
        in_range(a, 4_000_000_000_000_000_000),
        in_range(b, 4_000_000_000_000_000_000),
    ensures
        r.x == a.x + b.x,
        r.y == a.y + b.y,
        r.z == a.z + b.z,
{
    Vec3 { x: a.x + b.x, y: a.y + b.y, z: a.z + b.z }
}

/// Componentwise difference.
pub fn sub(a: Vec3, b: Vec3) -> (r: Vec3)
    requires
        in_range(a, 4_000_000_000_000_000_000),
        in_range(b, 4_000_000_000_000_000_000),
    ensures
        r.x == a.x - b.x,
        r.y == a.y - b.y,
        r.z == a.z - b.z,
{
    Vec3 { x: a.x - b.x, y: a.y - b.y, z: a.z - b.z }
}

/// The opposite vector.
pub fn neg(a: Vec3) -> (r: Vec3)
    requires
        in_range(a, 4_000_000_000_000_000_000),
    ensures
        r.x == -a.x,
        r.y == -a.y,
        r.z == -a.z,
{
    Vec3 { x: -a.x, y: -a.y, z: -a.z }
}

/// The vector scaled by a fixed-point factor.
pub fn scale(a: Vec3, s: i64) -> (r: Vec3)
    requires
        in_range(a, FX_LIM as int),
        -FX_LIM <= s <= FX_LIM,
    ensures
        r.x == fxmul_spec(a.x as int, s as int),
        r.y == fxmul_spec(a.y as int, s as int),
        r.z == fxmul_spec(a.z as int, s as int),
{
    Vec3 { x: fxmul(a.x, s), y: fxmul(a.y, s), z: fxmul(a.z, s) }
}

/// The fixed-point cross product, in the order `a` then `b`.
pub fn cross(a: Vec3, b: Vec3) -> (r: Vec3)
    requires
        in_range(a, 2_000_000_000_000),
        in_range(b, 2_000_000_000_000),
    ensures
        r.x == fxmul_spec(a.y as int, b.z as int) - fxmul_spec(a.z as int, b.y as int),
        r.y == fxmul_spec(a.z as int, b.x as int) - fxmul_spec(a.x as int, b.z as int),
        r.z == fxmul_spec(a.x as int, b.y as int) - fxmul_spec(a.y as int, b.x as int),
        gv(r) == gcross(gv(a), gv(b)),
{
    proof {
        lemma_fxmul_magnitude(a.y as int, b.z as int, 2_000_000_000_000, 2_000_000_000_000);
        lemma_fxmul_magnitude(a.z as int, b.y as int, 2_000_000_000_000, 2_000_000_000_000);
        lemma_fxmul_magnitude(a.z as int, b.x as int, 2_000_000_000_000, 2_000_000_000_000);
        lemma_fxmul_magnitude(a.x as int, b.z as int, 2_000_000_000_000, 2_000_000_000_000);
        lemma_fxmul_magnitude(a.x as int, b.y as int, 2_000_000_000_000, 2_000_000_000_000);
        lemma_fxmul_magnitude(a.y as int, b.x as int, 2_000_000_000_000, 2_000_000_000_000);
    }
    Vec3 {
        x: fxmul(a.y, b.z) - fxmul(a.z, b.y),
        y: fxmul(a.z, b.x) - fxmul(a.x, b.z),
        z: fxmul(a.x, b.y) - fxmul(a.y, b.x),
    }
}

/// The fixed-point dot product of a unit-scale vector with a possibly
/// large one.
pub fn dot(a: Vec3, b: Vec3) -> (r: i64)
    requires
        in_range(a, 2_000_000),
        in_range(b, FX_LIM as int),
    ensures
        r == dot_spec(a, b),
        r == gdot(gv(a), gv(b)),
        -20_000_000_000_000 <= r <= 20_000_000_000_000,
{
    proof {
        lemma_fxmul_magnitude(a.x as int, b.x as int, 2_000_000, FX_LIM as int);
        lemma_fxmul_magnitude(a.y as int, b.y as int, 2_000_000, FX_LIM as int);
        lemma_fxmul_magnitude(a.z as int, b.z as int, 2_000_000, FX_LIM as int);
        assert(2_000_000int * (FX_LIM as int) / (SCALE as int) == 6_000_000_000_000) by {
            vstd::arithmetic::div_mod::lemma_fundamental_div_mod_converse_mod(
                2_000_000int * (FX_LIM as int), SCALE as int, 6_000_000_000_000, 0);
            vstd::arithmetic::div_mod::lemma_fundamental_div_mod(
                2_000_000int * (FX_LIM as int), SCALE as int);
        }
    }
    fxmul(a.x, b.x) + fxmul(a.y, b.y) + fxmul(a.z, b.z)
}

/// The squared norm of a direction-scale vector, in raw integer units.
pub fn norm_sq(v: Vec3) -> (r: i64)
    requires
        in_range(v, 10_000_000),
    ensures
        r == norm_sq_spec(v),
        0 <= r <= 300_000_000_000_000,
{
    proof {
        assert(0 <= (v.x as int) * (v.x as int) <= 100_000_000_000_000int
            && 0 <= (v.y as int) * (v.y as int) <= 100_000_000_000_000int
            && 0 <= (v.z as int) * (v.z as int) <= 100_000_000_000_000int)
            by (nonlinear_arith)
            requires in_range(v, 10_000_000) {
        }
    }
    v.x * v.x + v.y * v.y + v.z * v.z
}

/// The `x` component of `v` scaled to unit length, rounded toward zero.
pub open spec fn unit_x_spec(v: Vec3) -> int {
    div_trunc(v.x * (SCALE as int), sqrt_spec(norm_sq_spec(v)))
}

/// The `y` component of `v` scaled to unit length, rounded toward zero.
pub open spec fn unit_y_spec(v: Vec3) -> int {
    div_trunc(v.y * (SCALE as int), sqrt_spec(norm_sq_spec(v)))
}

/// The `z` component of `v` scaled to unit length, rounded toward zero.
pub open spec fn unit_z_spec(v: Vec3) -> int {
    div_trunc(v.z * (SCALE as int), sqrt_spec(norm_sq_spec(v)))
}

/// `v` scaled to unit length: each component times [`SCALE`], divided by
/// the integer square root of the squared norm, rounded toward zero.
pub fn normalize(v: Vec3) -> (r: Vec3)
    requires
        in_range(v, 10_000_000),
        norm_sq_spec(v) >= 1,
    ensures
        r.x == unit_x_spec(v),
        r.y == unit_y_spec(v),
        r.z == unit_z_spec(v),
        gv(r) == gunit(gv(v)),
        in_range(r, 1_000_000),
{
    let n2 = norm_sq(v);
    let n = isqrt_i64(n2);
    proof {
        lemma_component_le_root(gv(v), n as int);
    }
    let rx = trunc_div(v.x * SCALE, n);
    let ry = trunc_div(v.y * SCALE, n);
    let rz = trunc_div(v.z * SCALE, n);
    proof {
        lemma_trunc_div_bounded((v.x as int) * (SCALE as int), n as int, SCALE as int);
        lemma_trunc_div_bounded((v.y as int) * (SCALE as int), n as int, SCALE as int);
        lemma_trunc_div_bounded((v.z as int) * (SCALE as int), n as int, SCALE as int);
    }
    Vec3 { x: rx, y: ry, z: rz }
}

/// The integer square root of a nonnegative `i64`, at least one when its
/// argument is.
fn isqrt_i64(n2: i64) -> (n: i64)
    requires
        1 <= n2,
    ensures
        n == sqrt_spec(n2 as int),
        1 <= n <= 4_294_967_296,
        n * n <= n2 < (n + 1) * (n + 1),
{
    let r = crate::fixed::isqrt(n2 as u64);
    r as i64
}

/// Each component of a vector is bounded by the square root of its
/// squared norm.
pub proof fn lemma_component_le_root(v: GVec, n: int)
    requires
        n >= 0,
        gnorm_sq(v) < (n + 1) * (n + 1),
    ensures
        -n <= v.x <= n,
        -n <= v.y <= n,
        -n <= v.z <= n,
        -(n * (SCALE as int)) <= v.x * (SCALE as int) <= n * (SCALE as int),
        -(n * (SCALE as int)) <= v.y * (SCALE as int) <= n * (SCALE as int),
        -(n * (SCALE as int)) <= v.z * (SCALE as int) <= n * (SCALE as int),
{
    assert(v.x * v.x <= gnorm_sq(v)
        && v.y * v.y <= gnorm_sq(v)
        && v.z * v.z <= gnorm_sq(v)) by (nonlinear_arith) {
    }
    assert(-n <= v.x <= n && -n <= v.y <= n && -n <= v.z <= n) by (nonlinear_arith)
        requires
            n >= 0,
            v.x * v.x < (n + 1) * (n + 1),
            v.y * v.y < (n + 1) * (n + 1),
            v.z * v.z < (n + 1) * (n + 1),
    {
    }
    assert(forall|c: int| -n <= c <= n
        ==> -(n * (SCALE as int)) <= #[trigger] (c * (SCALE as int)) <= n * (SCALE as int))
        by (nonlinear_arith) {
    }
}

/// How one normalized component relates to the component it came from:
/// squared, it sits between the exact scaled square and the next quotient
/// step up.
proof fn lemma_unit_component(vc: int, n: int)
    requires
        n >= 1,
        -n <= vc <= n,
    ensures
        ({
            let w = div_trunc(vc * (SCALE as int), n);
            let s = SCALE as int;
            &&& -s <= w <= s
            &&& n * n * (w * w) <= vc * vc * (s * s)
            &&& vc * vc * (s * s) < n * n * (w * w + 2 * s + 1)
        }),
{
    let s = SCALE as int;
    let w = div_trunc(vc * s, n);
    lemma_trunc_div_bounded(vc * s, n, s);
    let u: int = if vc >= 0 { vc } else { -vc };
    let m: int = if w >= 0 { w } else { -w };
    assert(div_trunc(u * s, n) == m);
    lemma_div_trunc_bounds(u * s, n);
    assert(n * m <= u * s < n * (m + 1)) by {
        vstd::arithmetic::div_mod::lemma_div_pos_is_pos(u * s, n);
    }
    assert(m <= s);
    assert(0 <= m);
    assert((n * m) * (n * m) <= (u * s) * (u * s)) by (nonlinear_arith)
        requires 0 <= n * m, n * m <= u * s {
    }
    assert((u * s) * (u * s) < (n * (m + 1)) * (n * (m + 1))) by (nonlinear_arith)
        requires 0 <= u * s, u * s < n * (m + 1) {
    }
    assert((n * m) * (n * m) == n * n * (m * m)) by (nonlinear_arith);
    assert((u * s) * (u * s) == u * u * (s * s)) by (nonlinear_arith);
    assert((n * (m + 1)) * (n * (m + 1)) == n * n * (m * m + 2 * m + 1)) by (nonlinear_arith);
    assert(u * u == vc * vc) by (nonlinear_arith)
        requires u == vc || u == -vc {
    }
    assert(m * m == w * w) by (nonlinear_arith)
        requires m == w || m == -w {
    }
    assert(n * n * (m * m + 2 * m + 1) <= n * n * (w * w + 2 * s + 1)) by (nonlinear_arith)
        requires m <= s, 0 <= n, m * m == w * w {
    }
}

/// A vector whose squared norm is not too small normalizes to a vector
/// whose squared norm sits within a narrow band around one square unit.
pub proof fn lemma_normalized_norm(v: GVec)
    requires
        gnorm_sq(v) >= 150_000_000,
    ensures
        999_993_000_000 <= gnorm_sq(gunit(v)),
        gnorm_sq(gunit(v)) <= 1_000_165_000_000,
{
    let s = SCALE as int;
    let nn = gnorm_sq(v);
    lemma_sqrt_spec_exists(nn);
    let n = sqrt_spec(nn);
    assert(n >= 12247) by (nonlinear_arith)
        requires nn >= 150_000_000, nn < (n + 1) * (n + 1), n >= 0 {
    }
    lemma_component_le_root(v, n);
    lemma_unit_component(v.x, n);
    lemma_unit_component(v.y, n);
    lemma_unit_component(v.z, n);
    let wx = gunit(v).x;
    let wy = gunit(v).y;
    let wz = gunit(v).z;
    let q = wx * wx + wy * wy + wz * wz;
    assert(n * n * q <= nn * (s * s)) by (nonlinear_arith)
        requires
            n * n * (wx * wx) <= v.x * v.x * (s * s),
            n * n * (wy * wy) <= v.y * v.y * (s * s),
            n * n * (wz * wz) <= v.z * v.z * (s * s),
            q == wx * wx + wy * wy + wz * wz,
            nn == v.x * v.x + v.y * v.y + v.z * v.z,
    {
    }
    assert(nn * (s * s) < n * n * (q + 6 * s + 3)) by (nonlinear_arith)
        requires
            v.x * v.x * (s * s) < n * n * (wx * wx + 2 * s + 1),
            v.y * v.y * (s * s) < n * n * (wy * wy + 2 * s + 1),
            v.z * v.z * (s * s) < n * n * (wz * wz + 2 * s + 1),
            q == wx * wx + wy * wy + wz * wz,
            nn == v.x * v.x + v.y * v.y + v.z * v.z,
    {
    }
    // Lower bound: the squared norm of v is at least n squared.
    assert(q > s * s - 6 * s - 3) by (nonlinear_arith)
        requires
            nn * (s * s) < n * n * (q + 6 * s + 3),
            n * n <= nn,
            n >= 1,
            s >= 1,
    {
    }
    // Upper bound: the squared norm of v is less than (n + 1) squared.
    assert(n * n * q <= (s * s) * (n * n) + 2 * (s * s) * n) by (nonlinear_arith)
        requires
            n * n * q <= nn * (s * s),
            nn < (n + 1) * (n + 1),
            n >= 1,
            s >= 1,
    {
    }
    assert(n * q <= (s * s) * n + 2 * (s * s)) by (nonlinear_arith)
        requires
            n * n * q <= (s * s) * (n * n) + 2 * (s * s) * n,
            n >= 1,
    {
    }
    assert(q <= s * s + 165_000_000) by (nonlinear_arith)
        requires
            n * q <= (s * s) * n + 2 * (s * s),
            n >= 12247,
            s == 1_000_000,
    {
    }
}

} // verus!
