use vstd::prelude::*;

verus! {

/// Number of fractional bits in the fixed-point encoding: a scalar with
/// mathematical value `v` stores `round(v * 2^30)` in `raw`.
pub const FX_SHIFT: u32 = 30;

/// The raw representation of the value one (2^30).
pub const FX_ONE: i64 = 0x4000_0000;

/// Largest raw magnitude a scalar ever carries (2^62); every operation
/// saturates its result to `[-FX_RAW_MAX, FX_RAW_MAX]`.
pub const FX_RAW_MAX: i64 = 0x4000_0000_0000_0000;

/// Raw representation of the tolerance 1e-4 used by approximate equality:
/// `round(2^30 / 10^4)`.
pub const FX_EPS_RAW: i64 = 107_374;

/// A scalar of the geometry pipeline: a signed fixed-point number with 30
/// fractional bits. All arithmetic saturates instead of overflowing, and
/// multiplication, division and square root truncate toward zero, so every
/// operation is a total function of the raw representations.
#[derive(Debug, Clone, Copy, PartialEq, Eq, Structural)]
#[verifier::ext_equal]
pub struct Fx {
    pub raw: i64,
}

impl View for Fx {
    type V = int;

    open spec fn view(&self) -> int {
        self.raw as int
    }
}

/// Magnitude of a mathematical integer.
pub open spec fn iabs(n: int) -> int {
    if n < 0 {
        -n
    } else {
        n
    }
}

/// Saturation of a mathematical integer to the raw range.
pub open spec fn fx_clip(n: int) -> int {
    if n > FX_RAW_MAX {
        FX_RAW_MAX as int
    } else if n < -FX_RAW_MAX {
        -(FX_RAW_MAX as int)
    } else {
        n
    }
}

pub open spec fn fx_add_raw(a: int, b: int) -> int {
    fx_clip(a + b)
}

pub open spec fn fx_sub_raw(a: int, b: int) -> int {
    fx_clip(a - b)
}

pub open spec fn fx_neg_raw(a: int) -> int {
    fx_clip(-a)
}

/// Raw result of multiplication: the product scaled back down, truncated
/// toward zero, then saturated.
pub open spec fn fx_mul_raw(a: int, b: int) -> int {
    let m = fx_clip(iabs(a) * iabs(b) / (FX_ONE as int));
    if (a < 0) != (b < 0) {
        -m
    } else {
        m
    }
}

/// Raw result of division: truncated toward zero, saturated; a zero divisor
/// saturates to the sign of the dividend.
pub open spec fn fx_div_raw(a: int, b: int) -> int {
    if b == 0 {
        if a > 0 {
            FX_RAW_MAX as int
        } else if a < 0 {
            -(FX_RAW_MAX as int)
        } else {
            0
        }
    } else {
        let q = fx_clip(iabs(a) * (FX_ONE as int) / iabs(b));
        if (a < 0) != (b < 0) {
            -q
        } else {
            q
        }
    }
}

/// `r` is the integer square root of `n`.
pub open spec fn is_isqrt(n: int, r: int) -> bool {
    0 <= r && r * r <= n && n < (r + 1) * (r + 1)
}

/// Raw result of the square root of a nonnegative scalar: the integer square
/// root of the raw value rescaled by 2^30.
pub open spec fn fx_sqrt_raw(a: int) -> int {
    choose|r: int| #[trigger] is_isqrt(a * (FX_ONE as int), r)
}

/// The raw value truncated toward zero to a multiple of one.
pub open spec fn fx_trunc_raw(a: int) -> int {
    if a >= 0 {
        (a / (FX_ONE as int)) * (FX_ONE as int)
    } else {
        -((iabs(a) / (FX_ONE as int)) * (FX_ONE as int))
    }
}

/// Fractional part in the sense of `f64::fract`: `a - trunc(a)`.
pub open spec fn fx_fract_raw(a: int) -> int {
    a - fx_trunc_raw(a)
}

/// Equality within the tolerance 1e-4.
pub open spec fn fx_approx(a: int, b: int) -> bool {
    iabs(a - b) < FX_EPS_RAW
}

/// Saturates an intermediate wide result to the raw range.
fn clip128(n: i128) -> (r: i64)
    ensures
        r as int == fx_clip(n as int),
{
    if n > FX_RAW_MAX as i128 {
        FX_RAW_MAX
    } else if n < -(FX_RAW_MAX as i128) {
        -FX_RAW_MAX
    } else {
        n as i64
    }
}

impl Fx {
    /// The scalar with the given raw representation, saturated to range.
    pub fn from_raw(raw: i64) -> (r: Fx)
        ensures
            r@ == fx_clip(raw as int),
    {
        Fx { raw: clip128(raw as i128) }
    }

    /// The scalar for a whole number.
    pub fn from_int(i: i64) -> (r: Fx)
        ensures
            r@ == fx_clip(i * (FX_ONE as int)),
    {
        let w = i as i128;
        assert(-0x8000_0000_0000_0000i128 * 0x4000_0000i128 <= w * (FX_ONE as i128)
            <= 0x8000_0000_0000_0000i128 * 0x4000_0000i128) by (nonlinear_arith)
            requires
                -0x8000_0000_0000_0000i128 <= w <= 0x8000_0000_0000_0000i128,
        ;
        Fx { raw: clip128(w * (FX_ONE as i128)) }
    }

    pub fn add(self, other: Fx) -> (r: Fx)
        ensures
            r@ == fx_add_raw(self@, other@),
    {
        Fx { raw: clip128(self.raw as i128 + other.raw as i128) }
    }

    pub fn sub(self, other: Fx) -> (r: Fx)
        ensures
            r@ == fx_sub_raw(self@, other@),
    {
        Fx { raw: clip128(self.raw as i128 - other.raw as i128) }
    }

    pub fn neg(self) -> (r: Fx)
        ensures
            r@ == fx_neg_raw(self@),
    {
        Fx { raw: clip128(-(self.raw as i128)) }
    }

    pub fn abs(self) -> (r: Fx)
        ensures
            r@ == fx_clip(iabs(self@)),
    {
        if self.raw < 0 {
            Fx { raw: clip128(-(self.raw as i128)) }
        } else {
            Fx { raw: clip128(self.raw as i128) }
        }
    }

    pub fn mul(self, other: Fx) -> (r: Fx)
        ensures
            r@ == fx_mul_raw(self@, other@),
    {
        let a = self.raw as i128;
        let b = other.raw as i128;
        let negative = (a < 0) != (b < 0);
        let aa: u128 = if a < 0 {
            (-a) as u128
        } else {
            a as u128
        };
        let bb: u128 = if b < 0 {
            (-b) as u128
        } else {
            b as u128
        };
        assert(aa * bb <= 0x8000_0000_0000_0000u128 * 0x8000_0000_0000_0000u128) by (nonlinear_arith)
            requires
                aa <= 0x8000_0000_0000_0000u128,
                bb <= 0x8000_0000_0000_0000u128,
        ;
        let m = aa * bb / (FX_ONE as u128);
        let clipped: i64 = if m > FX_RAW_MAX as u128 {
            FX_RAW_MAX
        } else {
            m as i64
        };
        if negative {
            Fx { raw: -clipped }
        } else {
            Fx { raw: clipped }
        }
    }

    pub fn div(self, other: Fx) -> (r: Fx)
        ensures
            r@ == fx_div_raw(self@, other@),
    {
        if other.raw == 0 {
            if self.raw > 0 {
                Fx { raw: FX_RAW_MAX }
            } else if self.raw < 0 {
                Fx { raw: -FX_RAW_MAX }
            } else {
                Fx { raw: 0 }
            }
        } else {
            let a = self.raw as i128;
            let b = other.raw as i128;
            let negative = (a < 0) != (b < 0);
            let aa: u128 = if a < 0 {
                (-a) as u128
            } else {
                a as u128
            };
            let bb: u128 = if b < 0 {
                (-b) as u128
            } else {
                b as u128
            };
            assert(aa * (FX_ONE as u128) <= 0x8000_0000_0000_0000u128 * 0x4000_0000u128)
                by (nonlinear_arith)
                requires
                    aa <= 0x8000_0000_0000_0000u128,
            ;
            let q = aa * (FX_ONE as u128) / bb;
            let clipped: i64 = if q > FX_RAW_MAX as u128 {
                FX_RAW_MAX
            } else {
                q as i64
            };
            if negative {
                Fx { raw: -clipped }
            } else {
                Fx { raw: clipped }
            }
        }
    }

    /// Truncating square root of a nonnegative scalar.
    pub fn sqrt(self) -> (r: Fx)
        requires
            self@ >= 0,
        ensures
            r@ == fx_sqrt_raw(self@),
            r@ >= 0,
    {
        let w: u128 = self.raw as u128;
        assert(w * (FX_ONE as u128) < 0x4000_0000_0000_0000_0000_0000u128) by (nonlinear_arith)
            requires
                w < 0x8000_0000_0000_0000u128,
        ;
        let n: u128 = w * (FX_ONE as u128);
        let root = isqrt_u128(n);
        proof {
            lemma_isqrt_unique(n as int, root as int, fx_sqrt_raw(self@));
        }
        Fx { raw: root as i64 }
    }

    /// The floor of `self` as a machine integer.
    pub fn floor_int(self) -> (r: i64)
        ensures
            r as int == self@ / (FX_ONE as int),
            -0x2_0000_0000i64 <= r <= 0x2_0000_0000i64,
    {
        floor_div_one(self.raw)
    }

    /// Fractional part, truncated toward zero as `f64::fract` does.
    pub fn fract(self) -> (r: Fx)
        ensures
            r@ == fx_fract_raw(self@),
    {
        if self.raw >= 0 {
            Fx { raw: self.raw - (self.raw / FX_ONE) * FX_ONE }
        } else {
            let m = -(self.raw as i128);
            let t = (m / (FX_ONE as i128)) * (FX_ONE as i128);
            Fx { raw: (self.raw as i128 + t) as i64 }
        }
    }

    /// Equality within the tolerance 1e-4.
    pub fn approx_eq(self, other: Fx) -> (r: bool)
        ensures
            r == fx_approx(self@, other@),
    {
        let d = self.raw as i128 - other.raw as i128;
        let m = if d < 0 {
            -d
        } else {
            d
        };
        m < FX_EPS_RAW as i128
    }
}

/// The floor of `raw / 2^30`, also for negative values.
fn floor_div_one(raw: i64) -> (r: i64)
    ensures
        r as int == (raw as int) / (FX_ONE as int),
        -0x2_0000_0000i64 <= r <= 0x2_0000_0000i64,
{
    if raw >= 0 {
        raw / FX_ONE
    } else {
        let m = -(raw as i128);
        let q = (m + (FX_ONE - 1) as i128) / (FX_ONE as i128);
        proof {
            lemma_neg_ceil_div(raw as int, FX_ONE as int);
        }
        (-q) as i64
    }
}

/// Flooring division on wide intermediates, also for negative dividends.
fn floor_div_wide(a: i128, d: i128) -> (r: i128)
    requires
        0 < d < 0x1_0000_0000_0000_0000_0000i128,
        -0x1_0000_0000_0000_0000_0000i128 < a < 0x1_0000_0000_0000_0000_0000i128,
    ensures
        r as int == (a as int) / (d as int),
{
    if a >= 0 {
        a / d
    } else {
        let q = (-a + d - 1) / d;
        proof {
            lemma_neg_ceil_div(a as int, d as int);
        }
        -q
    }
}

/// For a negative dividend, the floor of `a / d` is the negated ceiling of
/// `-a / d`.
proof fn lemma_neg_ceil_div(a: int, d: int)
    requires
        a < 0,
        d > 0,
    ensures
        a / d == -((-a + d - 1) / d),
{
    let q = a / d;
    let r = a % d;
    let q2 = (-a + d - 1) / d;
    let r2 = (-a + d - 1) % d;
    vstd::arithmetic::div_mod::lemma_fundamental_div_mod(a, d);
    vstd::arithmetic::div_mod::lemma_fundamental_div_mod(-a + d - 1, d);
    assert(0 <= r < d) by {
        vstd::arithmetic::div_mod::lemma_mod_bound(a, d);
    }
    assert(0 <= r2 < d) by {
        vstd::arithmetic::div_mod::lemma_mod_bound(-a + d - 1, d);
    }
    assert(q == -q2) by (nonlinear_arith)
        requires
            a == d * q + r,
            -a + d - 1 == d * q2 + r2,
            0 <= r < d,
            0 <= r2 < d,
            d > 0,
    ;
}

/// Multiplication by one is exact for values in the raw range.
pub proof fn lemma_fx_mul_one(a: int)
    requires
        iabs(a) <= FX_RAW_MAX,
    ensures
        fx_mul_raw(a, FX_ONE as int) == a,
        fx_mul_raw(FX_ONE as int, a) == a,
{
    vstd::arithmetic::div_mod::lemma_div_multiples_vanish(iabs(a), FX_ONE as int);
    assert(iabs(a) * (FX_ONE as int) == (FX_ONE as int) * iabs(a)) by (nonlinear_arith);
}

/// Integer square roots are unique.
proof fn lemma_isqrt_unique(n: int, r1: int, r2: int)
    requires
        is_isqrt(n, r1),
        is_isqrt(n, r2),
    ensures
        r1 == r2,
{
    assert(r1 == r2) by (nonlinear_arith)
        requires
            0 <= r1,
            0 <= r2,
            r1 * r1 <= n,
            n < (r1 + 1) * (r1 + 1),
            r2 * r2 <= n,
            n < (r2 + 1) * (r2 + 1),
    ;
}

/// Truncating square root of a wide unsigned value, by binary search.
fn isqrt_u128(n: u128) -> (r: u64)
    requires
        n < 0x4000_0000_0000_0000_0000_0000u128,
    ensures
        is_isqrt(n as int, r as int),
        r < 0x8000_0000_0000_0000u64,
{
    if n == 0 {
        return 0;
    }
    let mut lo: u128 = 0;
    let mut hi: u128 = 0x8000_0000_0000u128;
    assert(hi * hi > n) by (nonlinear_arith)
        requires
            n < 0x4000_0000_0000_0000_0000_0000u128,
            hi == 0x8000_0000_0000u128,
    ;
    while hi - lo > 1
        invariant
            lo < hi,
            hi <= 0x8000_0000_0000u128,
            lo * lo <= n,
            n < hi * hi,
        decreases hi - lo,
    {
        let mid = lo + (hi - lo) / 2;
        assert(mid * mid < 0x1_0000_0000_0000_0000_0000_0000u128) by (nonlinear_arith)
            requires
                mid <= 0x8000_0000_0000u128,
        ;
        if mid * mid <= n {
            lo = mid;
        } else {
            hi = mid;
        }
    }
    proof {
        assert(is_isqrt(n as int, lo as int));
    }
    lo as u64
}

/// Raw representation of pi / 2: `round(pi / 2 * 2^30)`.
pub const FX_HALF_PI: i64 = 1_686_629_713;

/// Raw representation of pi: `round(pi * 2^30)`.
pub const FX_PI: i64 = 3_373_259_426;

/// Sine Taylor polynomial on a reduced argument (|r| at most pi / 4),
/// evaluated in fixed point, truncating term by term.
pub open spec fn fx_sin_poly(r: int) -> int {
    let r2 = fx_mul_raw(r, r);
    let t3 = fx_div_raw(fx_mul_raw(r, r2), 6 * (FX_ONE as int));
    let t5 = fx_div_raw(fx_mul_raw(t3, r2), 20 * (FX_ONE as int));
    let t7 = fx_div_raw(fx_mul_raw(t5, r2), 42 * (FX_ONE as int));
    let t9 = fx_div_raw(fx_mul_raw(t7, r2), 72 * (FX_ONE as int));
    let t11 = fx_div_raw(fx_mul_raw(t9, r2), 110 * (FX_ONE as int));
    fx_sub_raw(fx_add_raw(fx_sub_raw(fx_add_raw(fx_sub_raw(r, t3), t5), t7), t9), t11)
}

/// Cosine Taylor polynomial on a reduced argument.
pub open spec fn fx_cos_poly(r: int) -> int {
    let r2 = fx_mul_raw(r, r);
    let t2 = fx_div_raw(r2, 2 * (FX_ONE as int));
    let t4 = fx_div_raw(fx_mul_raw(t2, r2), 12 * (FX_ONE as int));
    let t6 = fx_div_raw(fx_mul_raw(t4, r2), 30 * (FX_ONE as int));
    let t8 = fx_div_raw(fx_mul_raw(t6, r2), 56 * (FX_ONE as int));
    let t10 = fx_div_raw(fx_mul_raw(t8, r2), 90 * (FX_ONE as int));
    fx_sub_raw(fx_add_raw(fx_sub_raw(fx_add_raw(fx_sub_raw(FX_ONE as int, t2), t4), t6), t8), t10)
}

/// Raw sine: the argument is reduced by the nearest multiple of pi / 2 and
/// the quadrant picks the polynomial and its sign.
pub open spec fn fx_sin_raw(x: int) -> int {
    let k = (2 * x + FX_HALF_PI as int) / (2 * (FX_HALF_PI as int));
    let r = x - k * (FX_HALF_PI as int);
    let q = k % 4;
    if q == 0 {
        fx_sin_poly(r)
    } else if q == 1 {
        fx_cos_poly(r)
    } else if q == 2 {
        fx_neg_raw(fx_sin_poly(r))
    } else {
        fx_neg_raw(fx_cos_poly(r))
    }
}

/// Raw cosine: the sine shifted by a quarter turn.
pub open spec fn fx_cos_raw(x: int) -> int {
    fx_sin_raw(fx_add_raw(x, FX_HALF_PI as int))
}

/// Raw tangent: the quotient of sine and cosine.
pub open spec fn fx_tan_raw(x: int) -> int {
    fx_div_raw(fx_sin_raw(x), fx_cos_raw(x))
}

/// Raw power with a whole-number exponent: `n` truncating multiplications.
pub open spec fn fx_pow_raw(a: int, n: nat) -> int
    decreases n,
{
    if n == 0 {
        FX_ONE as int
    } else {
        fx_mul_raw(fx_pow_raw(a, (n - 1) as nat), a)
    }
}

/// The nonnegative whole number nearest to the scalar (negative scalars give
/// zero), used as a specular exponent.
pub open spec fn fx_exponent(a: int) -> int {
    if a <= 0 {
        0
    } else {
        (a + 0x2000_0000) / (FX_ONE as int)
    }
}

impl Fx {
    fn sin_poly(self) -> (r: Fx)
        ensures
            r@ == fx_sin_poly(self@),
    {
        let r2 = self.mul(self);
        let t3 = self.mul(r2).div(Fx { raw: 6 * FX_ONE });
        let t5 = t3.mul(r2).div(Fx { raw: 20 * FX_ONE });
        let t7 = t5.mul(r2).div(Fx { raw: 42 * FX_ONE });
        let t9 = t7.mul(r2).div(Fx { raw: 72 * FX_ONE });
        let t11 = t9.mul(r2).div(Fx { raw: 110 * FX_ONE });
        self.sub(t3).add(t5).sub(t7).add(t9).sub(t11)
    }

    fn cos_poly(self) -> (r: Fx)
        ensures
            r@ == fx_cos_poly(self@),
    {
        let r2 = self.mul(self);
        let t2 = r2.div(Fx { raw: 2 * FX_ONE });
        let t4 = t2.mul(r2).div(Fx { raw: 12 * FX_ONE });
        let t6 = t4.mul(r2).div(Fx { raw: 30 * FX_ONE });
        let t8 = t6.mul(r2).div(Fx { raw: 56 * FX_ONE });
        let t10 = t8.mul(r2).div(Fx { raw: 90 * FX_ONE });
        Fx { raw: FX_ONE }.sub(t2).add(t4).sub(t6).add(t8).sub(t10)
    }

    /// Sine of an angle in radians.
    pub fn sin(self) -> (r: Fx)
        ensures
            r@ == fx_sin_raw(self@),
    {
        let x = self.raw as i128;
        let hp = FX_HALF_PI as i128;
        let k = floor_div_wide(2 * x + hp, 2 * hp);
        proof {
            vstd::arithmetic::div_mod::lemma_fundamental_div_mod(2 * self@ + FX_HALF_PI as int, 2 * (FX_HALF_PI as int));
            vstd::arithmetic::div_mod::lemma_mod_bound(2 * self@ + FX_HALF_PI as int, 2 * (FX_HALF_PI as int));
        }
        let reduced = Fx { raw: (x - k * hp) as i64 };
        let q = k - 4 * floor_div_wide(k, 4);
        proof {
            vstd::arithmetic::div_mod::lemma_fundamental_div_mod(k as int, 4);
            vstd::arithmetic::div_mod::lemma_mod_bound(k as int, 4);
        }
        if q == 0 {
            reduced.sin_poly()
        } else if q == 1 {
            reduced.cos_poly()
        } else if q == 2 {
            reduced.sin_poly().neg()
        } else {
            reduced.cos_poly().neg()
        }
    }

    /// Cosine of an angle in radians.
    pub fn cos(self) -> (r: Fx)
        ensures
            r@ == fx_cos_raw(self@),
    {
        self.add(Fx { raw: FX_HALF_PI }).sin()
    }

    /// Tangent of an angle in radians.
    pub fn tan(self) -> (r: Fx)
        ensures
            r@ == fx_tan_raw(self@),
    {
        self.sin().div(self.cos())
    }

    /// Truncating power with a whole-number exponent.
    pub fn pow_int(self, n: u64) -> (r: Fx)
        ensures
            r@ == fx_pow_raw(self@, n as nat),
    {
        let mut acc = Fx { raw: FX_ONE };
        let mut i: u64 = 0;
        while i < n
            invariant
                i <= n,
                acc@ == fx_pow_raw(self@, i as nat),
            decreases n - i,
        {
            acc = acc.mul(self);
            i = i + 1;
        }
        acc
    }

    /// The scalar rounded to a nonnegative whole number, for use as a
    /// specular exponent.
    pub fn round_exponent(self) -> (n: u64)
        ensures
            n as int == fx_exponent(self@),
    {
        if self.raw <= 0 {
            0
        } else {
            ((self.raw as i128 + 0x2000_0000i128) / (FX_ONE as i128)) as u64
        }
    }
}

/// Fixed-point approximate equality: true when the two scalars differ by
/// less than 1e-4.
pub fn approx(a: Fx, b: Fx) -> (r: bool)
    ensures
        r == fx_approx(a@, b@),
{
    a.approx_eq(b)
}

} // verus!
