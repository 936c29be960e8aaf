//! The motion shaper: turns a relative mouse-motion delta into a pair of
//! absolute analog-stick coordinates.
//!
//! The curve is a sensitivity-normalized linear remap followed by a
//! sign-preserving square-root compression, so small motions keep fine
//! control while large motions still reach full deflection. Deltas are
//! carried in thousandths of a motion unit, and the whole pipeline is exact
//! integer arithmetic:
//!
//! * the remap of a delta `x` from `[-10/s, 10/s]` onto `[-127, 128]` equals
//!   `x * 255 * s / 20 + 1/2`, which over thousandths becomes the truncating
//!   quotient `(dx_milli * 255 * s + 10000) / 20000`;
//! * the vertical coordinate is additionally scaled by a profile's
//!   vertical-bias factor, carried in tenths, before the division;
//! * the compression takes the integer square root of the magnitude, keeps
//!   the sign, and clamps into `[AXIS_MIN, AXIS_MAX]`.

use vstd::prelude::*;

use vstd::arithmetic::div_mod::{
    lemma_basic_div, lemma_div_is_ordered, lemma_div_nonincreasing, lemma_div_pos_is_pos,
};
use vstd::arithmetic::mul::{
    lemma_mul_inequality, lemma_mul_nonnegative, lemma_mul_unary_negation,
};

use crate::elements::valid_axis_value;

verus! {

/// The fixed mouse sensitivity the translator runs with.
pub const MOUSE_SENSITIVITY: u32 = 250;

/// The fixed vertical-bias factor, in tenths (a factor of 1.5).
pub const VERTICAL_BIAS_TENTHS: u32 = 15;

/// A relative 2-D mouse-motion delta, in thousandths of a motion unit.
#[derive(Clone, Copy, Debug, PartialEq, Eq, Structural)]
pub struct MotionDelta {
    pub dx_milli: i64,
    pub dy_milli: i64,
}

/// The shaper's tunables: the sensitivity constant and the vertical-bias
/// factor (in tenths, empirically between 1.2 and 1.5).
#[derive(Clone, Copy, Debug, PartialEq, Eq, Structural)]
pub struct Profile {
    pub sensitivity: u32,
    pub vertical_bias_tenths: u32,
}

impl Profile {
    /// A profile is well formed when the sensitivity is positive and the
    /// vertical bias lies in the calibrated band. The bias bound also keeps
    /// a motionless vertical delta shaping to exactly 0.
    pub open spec fn wf(self) -> bool {
        &&& self.sensitivity >= 1
        &&& 12 <= self.vertical_bias_tenths <= 15
    }
}

impl Default for Profile {
    /// The profile the translator ships with.
    fn default() -> (r: Profile)
        ensures
            r.wf(),
            r.sensitivity == MOUSE_SENSITIVITY,
            r.vertical_bias_tenths == VERTICAL_BIAS_TENTHS,
    {
        Profile { sensitivity: MOUSE_SENSITIVITY, vertical_bias_tenths: VERTICAL_BIAS_TENTHS }
    }
}

/// The magnitude of `v`.
pub open spec fn mag(v: int) -> int {
    if v >= 0 {
        v
    } else {
        -v
    }
}

/// Truncating division (rounds toward zero), for a positive divisor.
pub open spec fn div_trunc(a: int, d: int) -> int
    recommends
        d >= 1,
{
    if a >= 0 {
        a / d
    } else {
        -((-a) / d)
    }
}

/// The numerator of the horizontal remap, over thousandths of a unit.
pub open spec fn x_numer(delta: MotionDelta, profile: Profile) -> int {
    delta.dx_milli * 255 * profile.sensitivity + 10000
}

/// The numerator of the vertical remap: the horizontal form scaled by the
/// vertical bias (in tenths).
pub open spec fn y_numer(delta: MotionDelta, profile: Profile) -> int {
    (delta.dy_milli * 255 * profile.sensitivity + 10000) * profile.vertical_bias_tenths
}

/// The linearly remapped (not yet compressed) horizontal stick value.
pub open spec fn mapped_x(delta: MotionDelta, profile: Profile) -> int {
    div_trunc(x_numer(delta, profile), 20000)
}

/// The linearly remapped (not yet compressed) vertical stick value.
pub open spec fn mapped_y(delta: MotionDelta, profile: Profile) -> int {
    div_trunc(y_numer(delta, profile), 200000)
}

/// The integer square root (the floor of the real square root).
pub open spec fn isqrt_spec(n: nat) -> nat
    decreases n,
{
    if n == 0 {
        0
    } else {
        let r = isqrt_spec((n - 1) as nat);
        if (r + 1) * (r + 1) <= n {
            r + 1
        } else {
            r
        }
    }
}

/// `isqrt_spec(n)` really is the floor of the square root of `n`.
pub proof fn lemma_isqrt_bounds(n: nat)
    ensures
        isqrt_spec(n) * isqrt_spec(n) <= n,
        n < (isqrt_spec(n) + 1) * (isqrt_spec(n) + 1),
    decreases n,
{
    if n == 0 {
        assert(isqrt_spec(0) == 0);
        assert((isqrt_spec(n) + 1) * (isqrt_spec(n) + 1) == 1) by (nonlinear_arith)
            requires
                isqrt_spec(n) == 0,
        ;
    } else {
        let p = (n - 1) as nat;
        lemma_isqrt_bounds(p);
        let r = isqrt_spec(p);
        assert(isqrt_spec(n) == if (r + 1) * (r + 1) <= n {
            r + 1
        } else {
            r
        });
        if (r + 1) * (r + 1) <= n {
            assert(n == (r + 1) * (r + 1));
            assert((r + 1) * (r + 1) < (r + 2) * (r + 2)) by (nonlinear_arith)
                requires
                    r >= 0,
            ;
        }
    }
}

/// The floor square root is unique: any `r` with `r^2 <= n < (r+1)^2` is it.
pub proof fn lemma_isqrt_unique(n: nat, r: nat)
    requires
        r * r <= n,
        n < (r + 1) * (r + 1),
    ensures
        r == isqrt_spec(n),
{
    lemma_isqrt_bounds(n);
    let s = isqrt_spec(n);
    if r < s {
        assert((r + 1) * (r + 1) <= s * s) by (nonlinear_arith)
            requires
                0 <= r,
                r + 1 <= s,
        ;
    }
    if s < r {
        assert((s + 1) * (s + 1) <= r * r) by (nonlinear_arith)
            requires
                0 <= s,
                s + 1 <= r,
        ;
    }
}

/// The integer square root is monotone.
pub proof fn lemma_isqrt_monotone(a: nat, b: nat)
    requires
        a <= b,
    ensures
        isqrt_spec(a) <= isqrt_spec(b),
{
    lemma_isqrt_bounds(a);
    lemma_isqrt_bounds(b);
    let sa = isqrt_spec(a);
    let sb = isqrt_spec(b);
    if sb < sa {
        assert((sb + 1) * (sb + 1) <= sa * sa) by (nonlinear_arith)
            requires
                0 <= sb,
                sb + 1 <= sa,
        ;
    }
}

/// The sign-preserving square-root compression of a remapped value,
/// clamped into `[AXIS_MIN, AXIS_MAX]`.
pub open spec fn shaped_of(m: int) -> int {
    if m >= 0 {
        let r = isqrt_spec(m as nat) as int;
        if r > 128 {
            128
        } else {
            r
        }
    } else {
        let r = isqrt_spec((-m) as nat) as int;
        if r > 127 {
            -127
        } else {
            -r
        }
    }
}

/// The horizontal stick coordinate the shaper produces for a delta.
pub open spec fn shape_x_spec(delta: MotionDelta, profile: Profile) -> int {
    shaped_of(mapped_x(delta, profile))
}

/// The vertical stick coordinate the shaper produces for a delta.
pub open spec fn shape_y_spec(delta: MotionDelta, profile: Profile) -> int {
    shaped_of(mapped_y(delta, profile))
}

/// Every shaped value lies within the declared axis range.
pub proof fn lemma_shaped_of_in_range(m: int)
    ensures
        valid_axis_value(shaped_of(m)),
{
}

/// Bounds a product by the product of the operands' bounds.
proof fn lemma_mul_abs_bound(a: int, b: int, ab: int, bb: int) by (nonlinear_arith)
    requires
        -ab <= a <= ab,
        0 <= b <= bb,
        0 <= ab,
    ensures
        -(ab * bb) <= a * b <= ab * bb,
{
}

/// Computes `milli * 255 * sensitivity + 10000` exactly, in 128-bit arithmetic.
fn numer_base(milli: i64, sensitivity: u32) -> (r: i128)
    ensures
        r as int == milli * 255 * sensitivity + 10000,
        -20282409603651670423947251286016 <= r <= 20282409603651670423947251286016,
{
    let m: i128 = milli as i128;
    let p1: i128 = m * 255;
    let s: i128 = sensitivity as i128;
    proof {
        lemma_mul_abs_bound(p1 as int, s as int, 2351959869397967831040, 4294967295);
    }
    let p2: i128 = p1 * s;
    p2 + 10000
}

/// Truncating (toward-zero) division for a positive divisor.
fn div_trunc_i128(a: i128, d: i128) -> (q: i128)
    requires
        1 <= d,
        i128::MIN < a,
    ensures
        q as int == div_trunc(a as int, d as int),
        a >= 0 ==> 0 <= q <= a,
        a < 0 ==> a <= q <= 0,
{
    if a >= 0 {
        let n: u128 = a as u128;
        let q: u128 = n / (d as u128);
        proof {
            lemma_div_pos_is_pos(a as int, d as int);
            lemma_div_nonincreasing(a as int, d as int);
        }
        q as i128
    } else {
        let n: u128 = (-a) as u128;
        let q: u128 = n / (d as u128);
        proof {
            lemma_div_pos_is_pos(-(a as int), d as int);
            lemma_div_nonincreasing(-(a as int), d as int);
        }
        -(q as i128)
    }
}

/// The integer square root of `n`, by counting up from zero.
fn isqrt(n: u32) -> (r: u32)
    requires
        n <= 16641,
    ensures
        r as nat == isqrt_spec(n as nat),
        r <= 129,
{
    let mut r: u32 = 0;
    proof {
        assert(0 * 0 == 0 && (0 + 1) * (0 + 1) == 1) by (nonlinear_arith);
    }
    while (r + 1) * (r + 1) <= n
        invariant
            n <= 16641,
            r <= 129,
            r * r <= n,
            (r + 1) * (r + 1) <= 16900,
        decreases 16641 - r,
    {
        proof {
            assert(r + 1 <= 129) by (nonlinear_arith)
                requires
                    (r + 1) * (r + 1) <= 16641,
                    r >= 0,
            ;
            assert((r + 2) * (r + 2) <= 16900) by (nonlinear_arith)
                requires
                    r + 1 <= 129,
                    r >= 0,
            ;
        }
        r = r + 1;
    }
    proof {
        lemma_isqrt_unique(n as nat, r as nat);
    }
    r
}

/// Compresses one remapped value: sign-preserving integer square root of the
/// magnitude, clamped into `[AXIS_MIN, AXIS_MAX]`.
fn shaped_from_mapped(m: i128) -> (r: i32)
    requires
        i128::MIN < m,
    ensures
        r as int == shaped_of(m as int),
        valid_axis_value(r as int),
{
    if m >= 0 {
        let capped: u32 = if m > 16641 {
            16641
        } else {
            m as u32
        };
        proof {
            if m > 16641 {
                assert(129 * 129 == 16641 && 130 * 130 == 16900) by (nonlinear_arith);
                lemma_isqrt_unique(16641, 129);
                lemma_isqrt_monotone(16641, m as nat);
            }
        }
        let s = isqrt(capped);
        if s > 128 {
            128
        } else {
            s as i32
        }
    } else {
        let neg: i128 = -m;
        let capped: u32 = if neg > 16384 {
            16384
        } else {
            neg as u32
        };
        proof {
            if neg > 16384 {
                assert(128 * 128 == 16384 && 129 * 129 == 16641) by (nonlinear_arith);
                lemma_isqrt_unique(16384, 128);
                lemma_isqrt_monotone(16384, neg as nat);
            }
        }
        let s = isqrt(capped);
        if s > 127 {
            -127
        } else {
            -(s as i32)
        }
    }
}

/// Shapes a motion delta into the two right-stick coordinates.
///
/// Both results are exactly the specified curve and always lie within the
/// declared axis range, whatever the delta.
pub fn shape(delta: MotionDelta, profile: Profile) -> (r: (i32, i32))
    requires
        profile.wf(),
    ensures
        r.0 as int == shape_x_spec(delta, profile),
        r.1 as int == shape_y_spec(delta, profile),
        valid_axis_value(r.0 as int),
        valid_axis_value(r.1 as int),
{
    let base_x: i128 = numer_base(delta.dx_milli, profile.sensitivity);
    let base_y: i128 = numer_base(delta.dy_milli, profile.sensitivity);
    let bias: i128 = profile.vertical_bias_tenths as i128;
    proof {
        lemma_mul_abs_bound(
            base_y as int,
            bias as int,
            20282409603651670423947251286016,
            15,
        );
    }
    let ny: i128 = base_y * bias;
    let mx: i128 = div_trunc_i128(base_x, 20000);
    let my: i128 = div_trunc_i128(ny, 200000);
    (shaped_from_mapped(mx), shaped_from_mapped(my))
}

/// Truncating division is monotone in the dividend.
pub proof fn lemma_div_trunc_is_ordered(a: int, b: int, d: int)
    requires
        a <= b,
        1 <= d,
    ensures
        div_trunc(a, d) <= div_trunc(b, d),
{
    if a >= 0 {
        lemma_div_is_ordered(a, b, d);
    } else if b < 0 {
        lemma_div_is_ordered(-b, -a, d);
    } else {
        lemma_div_pos_is_pos(-a, d);
        lemma_div_pos_is_pos(b, d);
    }
}

/// Truncating division keeps the dividend's sign.
pub proof fn lemma_div_trunc_sign(a: int, d: int)
    requires
        1 <= d,
    ensures
        a >= 0 ==> div_trunc(a, d) >= 0,
        a <= 0 ==> div_trunc(a, d) <= 0,
{
    if a >= 0 {
        lemma_div_pos_is_pos(a, d);
    } else {
        lemma_div_pos_is_pos(-a, d);
    }
}

/// The compression is monotone in magnitude on each side of zero.
pub proof fn lemma_shaped_of_monotone(m1: int, m2: int)
    requires
        0 <= m1 <= m2 || m2 <= m1 <= 0,
    ensures
        mag(shaped_of(m1)) <= mag(shaped_of(m2)),
{
    if 0 <= m1 <= m2 {
        lemma_isqrt_monotone(m1 as nat, m2 as nat);
    } else {
        lemma_isqrt_monotone((-m1) as nat, (-m2) as nat);
    }
}

/// A motionless delta shapes to dead center: `(0, 0)`, for every well-formed
/// profile (any sensitivity, any calibrated bias).
pub proof fn lemma_shape_zero(profile: Profile)
    requires
        profile.wf(),
    ensures
        shape_x_spec(MotionDelta { dx_milli: 0, dy_milli: 0 }, profile) == 0,
        shape_y_spec(MotionDelta { dx_milli: 0, dy_milli: 0 }, profile) == 0,
{
    let delta = MotionDelta { dx_milli: 0, dy_milli: 0 };
    assert(delta.dx_milli * 255 * profile.sensitivity == 0) by (nonlinear_arith)
        requires
            delta.dx_milli == 0,
    ;
    assert(x_numer(delta, profile) == 10000);
    lemma_basic_div(10000, 20000);
    assert(isqrt_spec(0) == 0);
    assert(y_numer(delta, profile) == 10000 * profile.vertical_bias_tenths);
    lemma_basic_div(10000 * profile.vertical_bias_tenths as int, 200000);
}

/// Monotonicity of the horizontal coordinate: for deltas on the same side of
/// zero, a larger magnitude never shapes to a smaller magnitude.
pub proof fn lemma_shape_x_monotone(d1: MotionDelta, d2: MotionDelta, profile: Profile)
    requires
        profile.wf(),
        0 <= d1.dx_milli <= d2.dx_milli || d2.dx_milli <= d1.dx_milli <= 0,
    ensures
        mag(shape_x_spec(d1, profile)) <= mag(shape_x_spec(d2, profile)),
{
    let s = profile.sensitivity as int;
    if 0 <= d1.dx_milli && d1.dx_milli <= d2.dx_milli {
        lemma_mul_inequality(d1.dx_milli * 255, d2.dx_milli * 255, s);
        lemma_div_trunc_is_ordered(x_numer(d1, profile), x_numer(d2, profile), 20000);
        lemma_mul_nonnegative(d1.dx_milli * 255, s);
        lemma_div_trunc_sign(x_numer(d1, profile), 20000);
        lemma_shaped_of_monotone(mapped_x(d1, profile), mapped_x(d2, profile));
    } else {
        lemma_mul_inequality(d2.dx_milli * 255, d1.dx_milli * 255, s);
        lemma_div_trunc_is_ordered(x_numer(d2, profile), x_numer(d1, profile), 20000);
        lemma_mul_unary_negation(d1.dx_milli * 255, s);
        lemma_mul_nonnegative(-(d1.dx_milli * 255), s);
        assert(x_numer(d1, profile) <= 10000);
        lemma_numer_at_most_small_maps_nonpos(x_numer(d1, profile), 20000);
        lemma_shaped_of_monotone(mapped_x(d1, profile), mapped_x(d2, profile));
    }
}

/// Monotonicity of the vertical coordinate, in the same sense.
pub proof fn lemma_shape_y_monotone(d1: MotionDelta, d2: MotionDelta, profile: Profile)
    requires
        profile.wf(),
        0 <= d1.dy_milli <= d2.dy_milli || d2.dy_milli <= d1.dy_milli <= 0,
    ensures
        mag(shape_y_spec(d1, profile)) <= mag(shape_y_spec(d2, profile)),
{
    let s = profile.sensitivity as int;
    let bias = profile.vertical_bias_tenths as int;
    let base1 = d1.dy_milli * 255 * s + 10000;
    let base2 = d2.dy_milli * 255 * s + 10000;
    if 0 <= d1.dy_milli && d1.dy_milli <= d2.dy_milli {
        lemma_mul_inequality(d1.dy_milli * 255, d2.dy_milli * 255, s);
        lemma_mul_inequality(base1, base2, bias);
        lemma_div_trunc_is_ordered(y_numer(d1, profile), y_numer(d2, profile), 200000);
        lemma_mul_nonnegative(d1.dy_milli * 255, s);
        lemma_mul_nonnegative(base1, bias);
        lemma_div_trunc_sign(y_numer(d1, profile), 200000);
        lemma_shaped_of_monotone(mapped_y(d1, profile), mapped_y(d2, profile));
    } else {
        lemma_mul_inequality(d2.dy_milli * 255, d1.dy_milli * 255, s);
        lemma_mul_inequality(base2, base1, bias);
        lemma_div_trunc_is_ordered(y_numer(d2, profile), y_numer(d1, profile), 200000);
        lemma_mul_unary_negation(d1.dy_milli * 255, s);
        lemma_mul_nonnegative(-(d1.dy_milli * 255), s);
        assert(base1 <= 10000);
        lemma_mul_inequality(base1, 10000, bias);
        assert(10000 * bias <= 150000);
        lemma_numer_at_most_small_maps_nonpos(y_numer(d1, profile), 200000);
        lemma_shaped_of_monotone(mapped_y(d1, profile), mapped_y(d2, profile));
    }
}

/// A numerator no larger than the divisor's half-step maps to a value at
/// most zero.
proof fn lemma_numer_at_most_small_maps_nonpos(a: int, d: int)
    requires
        1 <= d,
        a < d,
    ensures
        div_trunc(a, d) <= 0,
{
    if a >= 0 {
        lemma_basic_div(a, d);
    } else {
        lemma_div_pos_is_pos(-a, d);
    }
}

} // verus!
