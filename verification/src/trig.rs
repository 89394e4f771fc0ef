//! Trigonometry on fixed-point angles.
//!
//! Angles are degrees times [`crate::fixed::SCALE`].  The sine of a whole
//! number of degrees in the first quarter turn comes from a table; between
//! table entries the value is interpolated linearly, and the other quarters
//! are folded onto the first by the usual symmetries.  The spec functions
//! state exactly what the executable code computes, so every caller's
//! contract is an exact equation over them.

use vstd::prelude::*;
use crate::fixed::SCALE;

verus! {

/// Micro-degrees in a full turn.
pub const TURN: i64 = 360_000_000;

/// Micro-degrees in half a turn.
pub const HALF_TURN: i64 = 180_000_000;

/// Micro-degrees in a quarter turn.
pub const QUARTER_TURN: i64 = 90_000_000;

/// The largest angle magnitude, in micro-degrees, the trigonometric
/// functions accept.  Yaw accumulates without wrapping, so the bound is
/// generous: over two and a half million full turns.
pub const ANGLE_LIM: i64 = 1_000_000_000_000_000;

/// A multiple of [`TURN`] larger than any accepted angle magnitude; adding
/// it makes an angle nonnegative without changing its remainder modulo a
/// full turn.
pub const TURN_OFFSET: i64 = 1_000_000_440_000_000;

/// The sine of `d` whole degrees, for `0 <= d <= 90`, scaled by [`SCALE`]
/// and rounded to the nearest integer.
pub open spec fn sin_table(d: int) -> int {
    if d == 0 {
        0
    } else if d == 1 {
        17452
    } else if d == 2 {
        34899
    } else if d == 3 {
        52336
    } else if d == 4 {
        69756
    } else if d == 5 {
        87156
    } else if d == 6 {
        104528
    } else if d == 7 {
        121869
    } else if d == 8 {
        139173
    } else if d == 9 {
        156434
    } else if d == 10 {
        173648
    } else if d == 11 {
        190809
    } else if d == 12 {
        207912
    } else if d == 13 {
        224951
    } else if d == 14 {
        241922
    } else if d == 15 {
        258819
    } else if d == 16 {
        275637
    } else if d == 17 {
        292372
    } else if d == 18 {
        309017
    } else if d == 19 {
        325568
    } else if d == 20 {
        342020
    } else if d == 21 {
        358368
    } else if d == 22 {
        374607
    } else if d == 23 {
        390731
    } else if d == 24 {
        406737
    } else if d == 25 {
        422618
    } else if d == 26 {
        438371
    } else if d == 27 {
        453990
    } else if d == 28 {
        469472
    } else if d == 29 {
        484810
    } else if d == 30 {
        500000
    } else if d == 31 {
        515038
    } else if d == 32 {
        529919
    } else if d == 33 {
        544639
    } else if d == 34 {
        559193
    } else if d == 35 {
        573576
    } else if d == 36 {
        587785
    } else if d == 37 {
        601815
    } else if d == 38 {
        615661
    } else if d == 39 {
        629320
    } else if d == 40 {
        642788
    } else if d == 41 {
        656059
    } else if d == 42 {
        669131
    } else if d == 43 {
        681998
    } else if d == 44 {
        694658
    } else if d == 45 {
        707107
    } else if d == 46 {
        719340
    } else if d == 47 {
        731354
    } else if d == 48 {
        743145
    } else if d == 49 {
        754710
    } else if d == 50 {
        766044
    } else if d == 51 {
        777146
    } else if d == 52 {
        788011
    } else if d == 53 {
        798636
    } else if d == 54 {
        809017
    } else if d == 55 {
        819152
    } else if d == 56 {
        829038
    } else if d == 57 {
        838671
    } else if d == 58 {
        848048
    } else if d == 59 {
        857167
    } else if d == 60 {
        866025
    } else if d == 61 {
        874620
    } else if d == 62 {
        882948
    } else if d == 63 {
        891007
    } else if d == 64 {
        898794
    } else if d == 65 {
        906308
    } else if d == 66 {
        913545
    } else if d == 67 {
        920505
    } else if d == 68 {
        927184
    } else if d == 69 {
        933580
    } else if d == 70 {
        939693
    } else if d == 71 {
        945519
    } else if d == 72 {
        951057
    } else if d == 73 {
        956305
    } else if d == 74 {
        961262
    } else if d == 75 {
        965926
    } else if d == 76 {
        970296
    } else if d == 77 {
        974370
    } else if d == 78 {
        978148
    } else if d == 79 {
        981627
    } else if d == 80 {
        984808
    } else if d == 81 {
        987688
    } else if d == 82 {
        990268
    } else if d == 83 {
        992546
    } else if d == 84 {
        994522
    } else if d == 85 {
        996195
    } else if d == 86 {
        997564
    } else if d == 87 {
        998630
    } else if d == 88 {
        999391
    } else if d == 89 {
        999848
    } else {
        1000000
    }
}

/// Table lookup for the sine of `d` whole degrees in the first quarter turn.
pub fn sin_table_at(d: u64) -> (r: u64)
    requires
        d <= 90,
    ensures
        r == sin_table(d as int),
{
    if d == 0 {
        0
    } else if d == 1 {
        17452
    } else if d == 2 {
        34899
    } else if d == 3 {
        52336
    } else if d == 4 {
        69756
    } else if d == 5 {
        87156
    } else if d == 6 {
        104528
    } else if d == 7 {
        121869
    } else if d == 8 {
        139173
    } else if d == 9 {
        156434
    } else if d == 10 {
        173648
    } else if d == 11 {
        190809
    } else if d == 12 {
        207912
    } else if d == 13 {
        224951
    } else if d == 14 {
        241922
    } else if d == 15 {
        258819
    } else if d == 16 {
        275637
    } else if d == 17 {
        292372
    } else if d == 18 {
        309017
    } else if d == 19 {
        325568
    } else if d == 20 {
        342020
    } else if d == 21 {
        358368
    } else if d == 22 {
        374607
    } else if d == 23 {
        390731
    } else if d == 24 {
        406737
    } else if d == 25 {
        422618
    } else if d == 26 {
        438371
    } else if d == 27 {
        453990
    } else if d == 28 {
        469472
    } else if d == 29 {
        484810
    } else if d == 30 {
        500000
    } else if d == 31 {
        515038
    } else if d == 32 {
        529919
    } else if d == 33 {
        544639
    } else if d == 34 {
        559193
    } else if d == 35 {
        573576
    } else if d == 36 {
        587785
    } else if d == 37 {
        601815
    } else if d == 38 {
        615661
    } else if d == 39 {
        629320
    } else if d == 40 {
        642788
    } else if d == 41 {
        656059
    } else if d == 42 {
        669131
    } else if d == 43 {
        681998
    } else if d == 44 {
        694658
    } else if d == 45 {
        707107
    } else if d == 46 {
        719340
    } else if d == 47 {
        731354
    } else if d == 48 {
        743145
    } else if d == 49 {
        754710
    } else if d == 50 {
        766044
    } else if d == 51 {
        777146
    } else if d == 52 {
        788011
    } else if d == 53 {
        798636
    } else if d == 54 {
        809017
    } else if d == 55 {
        819152
    } else if d == 56 {
        829038
    } else if d == 57 {
        838671
    } else if d == 58 {
        848048
    } else if d == 59 {
        857167
    } else if d == 60 {
        866025
    } else if d == 61 {
        874620
    } else if d == 62 {
        882948
    } else if d == 63 {
        891007
    } else if d == 64 {
        898794
    } else if d == 65 {
        906308
    } else if d == 66 {
        913545
    } else if d == 67 {
        920505
    } else if d == 68 {
        927184
    } else if d == 69 {
        933580
    } else if d == 70 {
        939693
    } else if d == 71 {
        945519
    } else if d == 72 {
        951057
    } else if d == 73 {
        956305
    } else if d == 74 {
        961262
    } else if d == 75 {
        965926
    } else if d == 76 {
        970296
    } else if d == 77 {
        974370
    } else if d == 78 {
        978148
    } else if d == 79 {
        981627
    } else if d == 80 {
        984808
    } else if d == 81 {
        987688
    } else if d == 82 {
        990268
    } else if d == 83 {
        992546
    } else if d == 84 {
        994522
    } else if d == 85 {
        996195
    } else if d == 86 {
        997564
    } else if d == 87 {
        998630
    } else if d == 88 {
        999391
    } else if d == 89 {
        999848
    } else {
        1000000
    }
}

/// The sine of `x` micro-degrees in the first quarter turn: the table value
/// at the whole degree below `x`, plus a linearly interpolated share of the
/// step to the next table value, rounded down.
pub open spec fn sin_q(x: int) -> int {
    let d = x / (SCALE as int);
    let f = x % (SCALE as int);
    sin_table(d) + (sin_table(d + 1) - sin_table(d)) * f / (SCALE as int)
}

/// Adjacent table entries never decrease going up.
pub proof fn lemma_table_monotone(d: int)
    requires
        0 <= d < 90,
    ensures
        sin_table(d) < sin_table(d + 1),
{
}

/// Every table entry lies between zero and one unit.
pub proof fn lemma_table_range(d: int)
    requires
        0 <= d <= 91,
    ensures
        0 <= sin_table(d) <= 1_000_000,
{
}

/// The table is monotone between any two indices.
pub proof fn lemma_table_ge(d1: int, d2: int)
    requires
        0 <= d1 <= d2 <= 91,
    ensures
        sin_table(d1) <= sin_table(d2),
    decreases d2 - d1,
{
    if d1 < d2 {
        if d1 < 90 {
            lemma_table_monotone(d1);
        }
        lemma_table_ge(d1 + 1, d2);
    }
}

/// Interpolation stays between the two table entries it interpolates.
pub proof fn lemma_sin_q_bracket(x: int)
    requires
        0 <= x <= 90_000_000,
    ensures
        sin_table(x / (SCALE as int)) <= sin_q(x),
        sin_q(x) <= sin_table(x / (SCALE as int) + 1),
        0 <= sin_q(x) <= 1_000_000,
{
    let s = SCALE as int;
    let d = x / s;
    let f = x % s;
    vstd::arithmetic::div_mod::lemma_mod_division_less_than_divisor(x, s);
    vstd::arithmetic::div_mod::lemma_div_pos_is_pos(x, s);
    vstd::arithmetic::div_mod::lemma_div_is_ordered(x, 90_000_000, s);
    assert(90_000_000int / s == 90) by {
        vstd::arithmetic::div_mod::lemma_fundamental_div_mod_converse_mod(
            90_000_000int, s, 90, 0);
        vstd::arithmetic::div_mod::lemma_fundamental_div_mod(90_000_000int, s);
    }
    let diff = sin_table(d + 1) - sin_table(d);
    if d < 90 {
        lemma_table_monotone(d);
    }
    assert(diff >= 0);
    assert(diff * f >= 0) by (nonlinear_arith)
        requires diff >= 0, f >= 0 {
    }
    vstd::arithmetic::div_mod::lemma_div_pos_is_pos(diff * f, s);
    assert(diff * f <= diff * s) by (nonlinear_arith)
        requires diff >= 0, f <= s {
    }
    vstd::arithmetic::div_mod::lemma_div_is_ordered(diff * f, diff * s, s);
    assert((s * diff) / s == diff) by {
        vstd::arithmetic::div_mod::lemma_div_multiples_vanish(diff, s);
    }
    assert(s * diff == diff * s) by (nonlinear_arith);
    lemma_table_ge(0, d);
    lemma_table_ge(d + 1, 91);
}

/// The sine of `x` micro-degrees, for `x` in the first quarter turn.
pub fn sin_quarter(x: u64) -> (r: u64)
    requires
        x <= 90_000_000,
    ensures
        r == sin_q(x as int),
        r <= 1_000_000,
{
    proof {
        lemma_sin_q_bracket(x as int);
    }
    let d = x / 1_000_000;
    let f = x % 1_000_000;
    if d >= 90 {
        proof {
            vstd::arithmetic::div_mod::lemma_div_of0(SCALE as int);
            assert(0int * (f as int) == 0) by (nonlinear_arith);
        }
        1_000_000
    } else {
        let lo = sin_table_at(d);
        let hi = sin_table_at(d + 1);
        proof {
            lemma_table_monotone(d as int);
            lemma_table_range(d as int);
            lemma_table_range(d as int + 1);
            assert((hi - lo) * (f as int) <= 1_000_000int * 1_000_000int)
                by (nonlinear_arith)
                requires 0 <= hi - lo <= 1_000_000, 0 <= f <= 1_000_000 {
            }
            assert((hi - lo) * (f as int) >= 0) by (nonlinear_arith)
                requires hi >= lo, f >= 0 {
            }
        }
        let diff = hi - lo;
        lo + diff * f / 1_000_000
    }
}

/// An angle reduced to `[0, TURN)`: its remainder modulo a full turn.
pub open spec fn norm_angle(a: int) -> int {
    a % (TURN as int)
}

/// The sine of an angle in micro-degrees, folded onto the first quarter
/// turn by the symmetries of the sine wave.
pub open spec fn sin_spec(a: int) -> int {
    let r = norm_angle(a);
    if r <= QUARTER_TURN {
        sin_q(r)
    } else if r <= HALF_TURN {
        sin_q(HALF_TURN - r)
    } else if r <= 270_000_000 {
        -sin_q(r - HALF_TURN)
    } else {
        -sin_q(TURN - r)
    }
}

/// The cosine, as the sine shifted a quarter turn ahead.
pub open spec fn cos_spec(a: int) -> int {
    sin_spec(a + QUARTER_TURN)
}

/// The sine of an angle in micro-degrees.
pub fn sin_fp(a: i64) -> (r: i64)
    requires
        -(ANGLE_LIM + QUARTER_TURN) <= a <= ANGLE_LIM + QUARTER_TURN,
    ensures
        r == sin_spec(a as int),
        -1_000_000 <= r <= 1_000_000,
{
    proof {
        vstd::arithmetic::div_mod::lemma_mod_multiples_vanish(
            2_777_779, a as int, TURN as int);
        vstd::arithmetic::div_mod::lemma_mod_division_less_than_divisor(
            a as int, TURN as int);
    }
    let shifted = (a + TURN_OFFSET) as u64;
    let rm = shifted % 360_000_000;
    proof {
        assert(shifted as int == (TURN as int) * 2_777_779 + a as int);
        assert(rm as int == norm_angle(a as int));
    }
    if rm <= 90_000_000 {
        proof { lemma_sin_q_bracket(rm as int); }
        sin_quarter(rm) as i64
    } else if rm <= 180_000_000 {
        proof { lemma_sin_q_bracket(180_000_000 - rm as int); }
        sin_quarter(180_000_000 - rm) as i64
    } else if rm <= 270_000_000 {
        proof { lemma_sin_q_bracket(rm as int - 180_000_000); }
        -(sin_quarter(rm - 180_000_000) as i64)
    } else {
        proof { lemma_sin_q_bracket(360_000_000 - rm as int); }
        -(sin_quarter(360_000_000 - rm) as i64)
    }
}

/// The cosine of an angle in micro-degrees.
pub fn cos_fp(a: i64) -> (r: i64)
    requires
        -ANGLE_LIM <= a <= ANGLE_LIM,
    ensures
        r == cos_spec(a as int),
        -1_000_000 <= r <= 1_000_000,
{
    sin_fp(a + QUARTER_TURN)
}

/// The sine never leaves `[-1, 1]`, in fixed-point units.
pub proof fn lemma_sin_range(a: int)
    ensures
        -1_000_000 <= sin_spec(a) <= 1_000_000,
{
    vstd::arithmetic::div_mod::lemma_mod_division_less_than_divisor(a, TURN as int);
    let r = norm_angle(a);
    if r <= QUARTER_TURN {
        lemma_sin_q_bracket(r);
    } else if r <= HALF_TURN {
        lemma_sin_q_bracket(HALF_TURN - r);
    } else if r <= 270_000_000 {
        lemma_sin_q_bracket(r - HALF_TURN);
    } else {
        lemma_sin_q_bracket(TURN - r);
    }
}

/// A full turn more leaves the sine unchanged.
pub proof fn lemma_sin_period(a: int)
    ensures
        sin_spec(a + TURN) == sin_spec(a),
{
    vstd::arithmetic::div_mod::lemma_mod_multiples_vanish(1, a, TURN as int);
    assert((TURN as int) * 1 + a == a + TURN);
}

/// A full turn more leaves the cosine unchanged.
pub proof fn lemma_cos_period(a: int)
    ensures
        cos_spec(a + TURN) == cos_spec(a),
{
    lemma_sin_period(a + QUARTER_TURN);
    assert(a + TURN + QUARTER_TURN == a + QUARTER_TURN + TURN);
}

/// Between 45 and 90 degrees the first-quarter sine stays at or above the
/// 45-degree table value.
pub proof fn lemma_sin_q_ge_45(x: int)
    requires
        45_000_000 <= x <= 90_000_000,
    ensures
        sin_q(x) >= 707107,
{
    let s = SCALE as int;
    lemma_sin_q_bracket(x);
    vstd::arithmetic::div_mod::lemma_div_is_ordered(45_000_000, x, s);
    assert(45_000_000int / s == 45) by {
        vstd::arithmetic::div_mod::lemma_fundamental_div_mod_converse_mod(
            45_000_000int, s, 45, 0);
        vstd::arithmetic::div_mod::lemma_fundamental_div_mod(45_000_000int, s);
    }
    vstd::arithmetic::div_mod::lemma_div_is_ordered(x, 90_000_000, s);
    assert(90_000_000int / s == 90) by {
        vstd::arithmetic::div_mod::lemma_fundamental_div_mod_converse_mod(
            90_000_000int, s, 90, 0);
        vstd::arithmetic::div_mod::lemma_fundamental_div_mod(90_000_000int, s);
    }
    lemma_table_ge(45, x / s);
}

/// For any pitch within the clamping range, the cosine keeps a positive
/// floor: the camera's forward direction can never collapse onto the
/// vertical axis.
pub proof fn lemma_cos_pitch_floor(p: int)
    requires
        -89_000_000 <= p <= 89_000_000,
    ensures
        cos_spec(p) >= 17452,
{
    let s = SCALE as int;
    let x = p + QUARTER_TURN;
    assert(1_000_000 <= x <= 179_000_000);
    vstd::arithmetic::div_mod::lemma_fundamental_div_mod_converse_mod(
        x, TURN as int, 0, x);
    assert(norm_angle(x) == x);
    let y: int = if x <= QUARTER_TURN { x } else { HALF_TURN - x };
    assert(1_000_000 <= y <= 90_000_000);
    lemma_sin_q_bracket(y);
    vstd::arithmetic::div_mod::lemma_div_is_ordered(1_000_000, y, s);
    assert(1_000_000int / s == 1) by {
        vstd::arithmetic::div_mod::lemma_fundamental_div_mod_converse_mod(
            1_000_000int, s, 1, 0);
        vstd::arithmetic::div_mod::lemma_fundamental_div_mod(1_000_000int, s);
    }
    vstd::arithmetic::div_mod::lemma_div_is_ordered(y, 90_000_000, s);
    assert(90_000_000int / s == 90) by {
        vstd::arithmetic::div_mod::lemma_fundamental_div_mod_converse_mod(
            90_000_000int, s, 90, 0);
        vstd::arithmetic::div_mod::lemma_fundamental_div_mod(90_000_000int, s);
    }
    lemma_table_ge(1, y / s);
}

/// At every angle, the sine or the cosine keeps a magnitude of at least
/// the 45-degree value: both can never be small at once.
pub proof fn lemma_sin_cos_floor(a: int)
    ensures
        sin_spec(a) >= 707107 || sin_spec(a) <= -707107
            || cos_spec(a) >= 707107 || cos_spec(a) <= -707107,
{
    let t = TURN as int;
    vstd::arithmetic::div_mod::lemma_mod_division_less_than_divisor(a, t);
    let r = norm_angle(a);
    let q = a / t;
    vstd::arithmetic::div_mod::lemma_fundamental_div_mod(a, t);
    assert(a == t * q + r);
    let x = a + QUARTER_TURN;
    if r + QUARTER_TURN < t {
        vstd::arithmetic::div_mod::lemma_fundamental_div_mod_converse_mod(
            x, t, q, r + QUARTER_TURN);
        assert(norm_angle(x) == r + QUARTER_TURN);
    } else {
        assert(x == t * (q + 1) + (r + QUARTER_TURN - t));
        vstd::arithmetic::div_mod::lemma_fundamental_div_mod_converse_mod(
            x, t, q + 1, r + QUARTER_TURN - t);
        assert(norm_angle(x) == r + QUARTER_TURN - t);
    }
    if r <= 45_000_000 {
        lemma_sin_q_ge_45(QUARTER_TURN - r);
    } else if r <= 90_000_000 {
        lemma_sin_q_ge_45(r);
    } else if r <= 135_000_000 {
        lemma_sin_q_ge_45(HALF_TURN - r);
    } else if r <= 180_000_000 {
        lemma_sin_q_ge_45(r - QUARTER_TURN);
    } else if r <= 225_000_000 {
        lemma_sin_q_ge_45(270_000_000 - r);
    } else if r <= 270_000_000 {
        lemma_sin_q_ge_45(r - HALF_TURN);
    } else if r <= 315_000_000 {
        lemma_sin_q_ge_45(TURN - r);
    } else {
        lemma_sin_q_ge_45(r + QUARTER_TURN - t);
    }
}

/// Between one degree and one short of a half turn, the sine keeps a
/// positive floor: the one-degree table value.
pub proof fn lemma_sin_acute_floor(x: int)
    requires
        1_000_000 <= x <= 179_000_000,
    ensures
        sin_spec(x) >= 17452,
{
    let s = SCALE as int;
    vstd::arithmetic::div_mod::lemma_fundamental_div_mod_converse_mod(
        x, TURN as int, 0, x);
    assert(norm_angle(x) == x);
    let y: int = if x <= QUARTER_TURN { x } else { HALF_TURN - x };
    assert(1_000_000 <= y <= 90_000_000);
    lemma_sin_q_bracket(y);
    vstd::arithmetic::div_mod::lemma_div_is_ordered(1_000_000, y, s);
    assert(1_000_000int / s == 1) by {
        vstd::arithmetic::div_mod::lemma_fundamental_div_mod_converse_mod(
            1_000_000int, s, 1, 0);
        vstd::arithmetic::div_mod::lemma_fundamental_div_mod(1_000_000int, s);
    }
    vstd::arithmetic::div_mod::lemma_div_is_ordered(y, 90_000_000, s);
    assert(90_000_000int / s == 90) by {
        vstd::arithmetic::div_mod::lemma_fundamental_div_mod_converse_mod(
            90_000_000int, s, 90, 0);
        vstd::arithmetic::div_mod::lemma_fundamental_div_mod(90_000_000int, s);
    }
    lemma_table_ge(1, y / s);
}

} // verus!
