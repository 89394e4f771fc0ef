//! Four-by-four fixed-point matrices, stored column-major.
//!
//! The sixteen entries live in a `Vec<i64>` in column-major order, the
//! layout the uniform sink downstream expects.  Multiplication rescales
//! every product like the scalar operations in [`crate::fixed`]; each
//! entry of a product is pinned down exactly by [`mul_entry_spec`].

use vstd::prelude::*;
use crate::fixed::{SCALE, fxmul_spec, div_trunc, fxmul, lemma_fxmul_magnitude};
use crate::trig::{sin_spec, cos_spec, sin_fp, cos_fp, ANGLE_LIM};
use crate::vec3::Vec3;

verus! {

/// The largest entry magnitude matrix multiplication accepts.
pub const MAT_LIM: i64 = 1_500_000_000_000;

/// A four-by-four matrix of fixed-point scalars, column-major.
#[derive(Clone, Debug)]
pub struct Mat4 {
    pub e: Vec<i64>,
}

/// Every element of `s` lies within `[-m, m]`.
pub open spec fn seq_in_range(s: Seq<i64>, m: int) -> bool {
    forall|i: int| 0 <= i < s.len() ==> -m <= #[trigger] s[i] <= m
}

/// Entry `i` (column-major) of the product of two column-major matrices:
/// the rescaled products of the row of `a` against the column of `b`.
pub open spec fn mul_entry_spec(a: Seq<i64>, b: Seq<i64>, i: int) -> int {
    let c = i / 4;
    let r = i % 4;
    fxmul_spec(a[r] as int, b[4 * c] as int)
        + fxmul_spec(a[4 + r] as int, b[4 * c + 1] as int)
        + fxmul_spec(a[8 + r] as int, b[4 * c + 2] as int)
        + fxmul_spec(a[12 + r] as int, b[4 * c + 3] as int)
}

impl Mat4 {
    /// A matrix has its sixteen entries.
    pub open spec fn wf(self) -> bool {
        self.e@.len() == 16
    }

    /// The matrix holding the given sixteen column-major entries.
    pub fn from_entries(e: Vec<i64>) -> (r: Mat4)
        requires
            e@.len() == 16,
        ensures
            r.wf(),
            r.e@ == e@,
    {
        Mat4 { e }
    }

    /// A copy of the sixteen entries, column-major, for handing to a
    /// uniform sink.
    pub fn entries(&self) -> (r: Vec<i64>)
        requires
            self.wf(),
        ensures
            r@ == self.e@,
    {
        let mut out: Vec<i64> = Vec::new();
        let mut i: usize = 0;
        while i < 16
            invariant
                self.wf(),
                i <= 16,
                out@ == self.e@.take(i as int),
            decreases 16 - i,
        {
            out.push(self.e[i]);
            proof {
                assert(self.e@.take(i + 1) =~= self.e@.take(i as int).push(self.e@[i as int]));
            }
            i = i + 1;
        }
        proof {
            assert(self.e@.take(16) =~= self.e@);
        }
        out
    }

    /// Entry `i`, column-major.
    pub fn entry(&self, i: usize) -> (r: i64)
        requires
            self.wf(),
            i < 16,
        ensures
            r == self.e@[i as int],
    {
        self.e[i]
    }

    /// The identity matrix: one unit on the diagonal.
    pub fn one() -> (r: Mat4)
        ensures
            r.wf(),
            forall|i: int| 0 <= i < 16 ==> r.e@[i]
                == if i == 0 || i == 5 || i == 10 || i == 15 { SCALE as int } else { 0int },
    {
        let e: Vec<i64> = vec![
            SCALE, 0, 0, 0,
            0, SCALE, 0, 0,
            0, 0, SCALE, 0,
            0, 0, 0, SCALE,
        ];
        Mat4 { e }
    }

    /// The translation by `t`: the identity with `t` as the fourth column.
    pub fn from_translation(t: Vec3) -> (r: Mat4)
        ensures
            r.wf(),
            forall|i: int| 0 <= i < 12 ==> r.e@[i]
                == if i == 0 || i == 5 || i == 10 { SCALE as int } else { 0int },
            r.e@[12] == t.x,
            r.e@[13] == t.y,
            r.e@[14] == t.z,
            r.e@[15] == SCALE as int,
    {
        let e: Vec<i64> = vec![
            SCALE, 0, 0, 0,
            0, SCALE, 0, 0,
            0, 0, SCALE, 0,
            t.x, t.y, t.z, SCALE,
        ];
        Mat4 { e }
    }

    /// The rotation by `a` micro-degrees about the sideways axis.
    pub fn from_angle_x(a: i64) -> (r: Mat4)
        requires
            -ANGLE_LIM <= a <= ANGLE_LIM,
        ensures
            r.wf(),
            r.e@[5] == cos_spec(a as int),
            r.e@[6] == sin_spec(a as int),
            r.e@[9] == -sin_spec(a as int),
            r.e@[10] == cos_spec(a as int),
            r.e@[0] == SCALE as int,
            r.e@[15] == SCALE as int,
            r.e@[1] == 0 && r.e@[2] == 0 && r.e@[3] == 0 && r.e@[4] == 0,
            r.e@[7] == 0 && r.e@[8] == 0 && r.e@[11] == 0,
            r.e@[12] == 0 && r.e@[13] == 0 && r.e@[14] == 0,
            seq_in_range(r.e@, SCALE as int),
    {
        let c = cos_fp(a);
        let s = sin_fp(a);
        let ns = -s;
        let e: Vec<i64> = vec![
            SCALE, 0, 0, 0,
            0, c, s, 0,
            0, ns, c, 0,
            0, 0, 0, SCALE,
        ];
        Mat4 { e }
    }

    /// The scaling by a separate factor along each axis.
    pub fn from_nonuniform_scale(x: i64, y: i64, z: i64) -> (r: Mat4)
        ensures
            r.wf(),
            r.e@[0] == x,
            r.e@[5] == y,
            r.e@[10] == z,
            r.e@[15] == SCALE as int,
            forall|i: int| 0 <= i < 16 && i != 0 && i != 5 && i != 10 && i != 15
                ==> r.e@[i] == 0,
    {
        let e: Vec<i64> = vec![
            x, 0, 0, 0,
            0, y, 0, 0,
            0, 0, z, 0,
            0, 0, 0, SCALE,
        ];
        Mat4 { e }
    }

    /// The rotation by `a` micro-degrees about the vertical axis.
    pub fn from_angle_y(a: i64) -> (r: Mat4)
        requires
            -ANGLE_LIM <= a <= ANGLE_LIM,
        ensures
            r.wf(),
            r.e@[0] == cos_spec(a as int),
            r.e@[2] == -sin_spec(a as int),
            r.e@[8] == sin_spec(a as int),
            r.e@[10] == cos_spec(a as int),
            r.e@[5] == SCALE as int,
            r.e@[15] == SCALE as int,
            r.e@[1] == 0 && r.e@[3] == 0 && r.e@[4] == 0 && r.e@[6] == 0,
            r.e@[7] == 0 && r.e@[9] == 0 && r.e@[11] == 0,
            r.e@[12] == 0 && r.e@[13] == 0 && r.e@[14] == 0,
            seq_in_range(r.e@, SCALE as int),
    {
        let c = cos_fp(a);
        let s = sin_fp(a);
        let ns = -s;
        let e: Vec<i64> = vec![
            c, 0, ns, 0,
            0, SCALE, 0, 0,
            s, 0, c, 0,
            0, 0, 0, SCALE,
        ];
        Mat4 { e }
    }

    /// The rotation by `a` micro-degrees about the depth axis.
    pub fn from_angle_z(a: i64) -> (r: Mat4)
        requires
            -ANGLE_LIM <= a <= ANGLE_LIM,
        ensures
            r.wf(),
            r.e@[0] == cos_spec(a as int),
            r.e@[1] == sin_spec(a as int),
            r.e@[4] == -sin_spec(a as int),
            r.e@[5] == cos_spec(a as int),
            r.e@[10] == SCALE as int,
            r.e@[15] == SCALE as int,
            r.e@[2] == 0 && r.e@[3] == 0 && r.e@[6] == 0 && r.e@[7] == 0,
            r.e@[8] == 0 && r.e@[9] == 0 && r.e@[11] == 0,
            r.e@[12] == 0 && r.e@[13] == 0 && r.e@[14] == 0,
            seq_in_range(r.e@, SCALE as int),
    {
        let c = cos_fp(a);
        let s = sin_fp(a);
        let ns = -s;
        let e: Vec<i64> = vec![
            c, s, 0, 0,
            ns, c, 0, 0,
            0, 0, SCALE, 0,
            0, 0, 0, SCALE,
        ];
        Mat4 { e }
    }
}

/// The matrix product `a` times `b`, both column-major.
pub fn mat_mul(a: &Mat4, b: &Mat4) -> (r: Mat4)
    requires
        a.wf(),
        b.wf(),
        seq_in_range(a.e@, MAT_LIM as int),
        seq_in_range(b.e@, MAT_LIM as int),
    ensures
        r.wf(),
        forall|i: int| 0 <= i < 16 ==> r.e@[i] == mul_entry_spec(a.e@, b.e@, i),
{
    let mut out: Vec<i64> = Vec::new();
    let mut i: usize = 0;
    while i < 16
        invariant
            i <= 16,
            out@.len() == i,
            a.wf(),
            b.wf(),
            seq_in_range(a.e@, MAT_LIM as int),
            seq_in_range(b.e@, MAT_LIM as int),
            forall|j: int| 0 <= j < i ==> out@[j] == mul_entry_spec(a.e@, b.e@, j),
        decreases 16 - i,
    {
        let c = i / 4;
        let r = i % 4;
        proof {
            assert(c < 4 && r < 4);
            lemma_fxmul_magnitude(
                a.e@[r as int] as int, b.e@[4 * c as int] as int,
                MAT_LIM as int, MAT_LIM as int);
            lemma_fxmul_magnitude(
                a.e@[4 + r as int] as int, b.e@[4 * c as int + 1] as int,
                MAT_LIM as int, MAT_LIM as int);
            lemma_fxmul_magnitude(
                a.e@[8 + r as int] as int, b.e@[4 * c as int + 2] as int,
                MAT_LIM as int, MAT_LIM as int);
            lemma_fxmul_magnitude(
                a.e@[12 + r as int] as int, b.e@[4 * c as int + 3] as int,
                MAT_LIM as int, MAT_LIM as int);
            assert((MAT_LIM as int) * (MAT_LIM as int) / (SCALE as int)
                == 2_250_000_000_000_000_000) by {
                vstd::arithmetic::div_mod::lemma_fundamental_div_mod_converse_mod(
                    (MAT_LIM as int) * (MAT_LIM as int), SCALE as int,
                    2_250_000_000_000_000_000, 0);
                vstd::arithmetic::div_mod::lemma_fundamental_div_mod(
                    (MAT_LIM as int) * (MAT_LIM as int), SCALE as int);
            }
        }
        let v = fxmul(a.e[r], b.e[4 * c])
            + fxmul(a.e[4 + r], b.e[4 * c + 1])
            + fxmul(a.e[8 + r], b.e[4 * c + 2])
            + fxmul(a.e[12 + r], b.e[4 * c + 3]);
        out.push(v);
        i = i + 1;
    }
    Mat4 { e: out }
}

/// Bounded operands give a bounded product entry.
pub proof fn lemma_mul_entry_bound(a: Seq<i64>, b: Seq<i64>, i: int, la: int, lb: int)
    requires
        a.len() == 16,
        b.len() == 16,
        seq_in_range(a, la),
        seq_in_range(b, lb),
        0 <= la,
        0 <= lb,
        0 <= i < 16,
    ensures
        mul_entry_spec(a, b, i) <= 4 * ((la * lb) / (SCALE as int)),
        -(4 * ((la * lb) / (SCALE as int))) - 4 <= mul_entry_spec(a, b, i),
{
    let c = i / 4;
    let r = i % 4;
    vstd::arithmetic::div_mod::lemma_mod_division_less_than_divisor(i, 4);
    vstd::arithmetic::div_mod::lemma_div_pos_is_pos(i, 4);
    vstd::arithmetic::div_mod::lemma_div_is_ordered(i, 15, 4);
    assert(15int / 4 == 3) by {
        vstd::arithmetic::div_mod::lemma_fundamental_div_mod_converse_mod(15int, 4, 3, 3);
        vstd::arithmetic::div_mod::lemma_fundamental_div_mod(15int, 4);
    }
    lemma_fxmul_magnitude(a[r] as int, b[4 * c] as int, la, lb);
    lemma_fxmul_magnitude(a[4 + r] as int, b[4 * c + 1] as int, la, lb);
    lemma_fxmul_magnitude(a[8 + r] as int, b[4 * c + 2] as int, la, lb);
    lemma_fxmul_magnitude(a[12 + r] as int, b[4 * c + 3] as int, la, lb);
}

/// Multiplying a fixed-point number by one unit gives it back.
pub proof fn lemma_fxmul_one(a: int)
    ensures
        fxmul_spec(a, SCALE as int) == a,
{
    let s = SCALE as int;
    if a >= 0 {
        assert((s * a) / s == a) by {
            vstd::arithmetic::div_mod::lemma_div_multiples_vanish(a, s);
        }
    } else {
        assert((s * (-a)) / s == -a) by {
            vstd::arithmetic::div_mod::lemma_div_multiples_vanish(-a, s);
        }
    }
}

/// Multiplying a fixed-point number by zero gives zero.
pub proof fn lemma_fxmul_zero(a: int)
    ensures
        fxmul_spec(a, 0) == 0,
        fxmul_spec(0, a) == 0,
{
    vstd::arithmetic::div_mod::lemma_div_of0(SCALE as int);
}

} // verus!
