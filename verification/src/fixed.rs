//! Saturating decimal fixed-point numbers.
//!
//! Every quantity of the simulation (positions, angles, velocities, fuel,
//! durations in seconds) is a [`Fixed`]: a signed count of millionths.
//! Arithmetic never fails: a result that does not fit is clamped to the
//! nearest representable value, and products and quotients are rounded
//! toward zero.

use vstd::prelude::*;

verus! {

/// Raw units in one whole unit.
pub const SCALE: i64 = 1_000_000;

/// A fixed-point number; its value is `raw / SCALE`.
#[derive(Clone, Copy, Debug, PartialEq, Eq, Structural)]
pub struct Fixed {
    pub raw: i64,
}

impl View for Fixed {
    type V = int;

    /// The number in raw units.
    open spec fn view(&self) -> int {
        self.raw as int
    }
}

/// The representable number nearest to `v` raw units.
pub open spec fn saturate(v: int) -> Fixed {
    Fixed {
        raw: if v < i64::MIN {
            i64::MIN
        } else if v > i64::MAX {
            i64::MAX
        } else {
            v as i64
        },
    }
}

/// Magnitude of an integer.
pub open spec fn magnitude(v: int) -> int {
    if v < 0 {
        -v
    } else {
        v
    }
}

/// Quotient of `n` by `d` rounded toward zero (`d` is not zero).
pub open spec fn trunc_div(n: int, d: int) -> int {
    if (n >= 0) == (d > 0) {
        magnitude(n) / magnitude(d)
    } else {
        -(magnitude(n) / magnitude(d))
    }
}

/// Remainder that goes with [`trunc_div`]; it has the sign of `n`.
pub open spec fn trunc_rem(n: int, d: int) -> int {
    if n >= 0 {
        magnitude(n) % magnitude(d)
    } else {
        -(magnitude(n) % magnitude(d))
    }
}

impl Fixed {
    /// Sum, clamped.
    pub open spec fn spec_plus(self, rhs: Fixed) -> Fixed {
        saturate(self@ + rhs@)
    }

    /// Difference, clamped.
    pub open spec fn spec_minus(self, rhs: Fixed) -> Fixed {
        saturate(self@ - rhs@)
    }

    /// Negation, clamped (the least value negates to the greatest).
    pub open spec fn spec_negated(self) -> Fixed {
        saturate(-self@)
    }

    /// Product, rounded toward zero, then clamped.
    pub open spec fn spec_times(self, rhs: Fixed) -> Fixed {
        saturate(trunc_div(self@ * rhs@, SCALE as int))
    }

    /// Quotient, rounded toward zero, then clamped.
    pub open spec fn spec_divided_by(self, rhs: Fixed) -> Fixed {
        saturate(trunc_div(self@ * SCALE, rhs@))
    }

    /// Remainder with the sign of `self`.
    pub open spec fn spec_modulo(self, rhs: Fixed) -> Fixed {
        saturate(trunc_rem(self@, rhs@))
    }

    /// Sign as a number: one, minus one, or zero for zero.
    pub open spec fn spec_signum(self) -> Fixed {
        Fixed {
            raw: if self.raw > 0 {
                SCALE
            } else if self.raw < 0 {
                (-SCALE) as i64
            } else {
                0
            },
        }
    }

    /// Magnitude, clamped.
    pub open spec fn spec_magnitude(self) -> Fixed {
        saturate(magnitude(self@))
    }

    /// The number of `raw` millionths.
    pub fn from_raw(raw: i64) -> (r: Fixed)
        ensures
            r.raw == raw,
    {
        Fixed { raw }
    }

    /// The whole number `units`, clamped.
    pub fn from_int(units: i64) -> (r: Fixed)
        ensures
            r == saturate(units * SCALE),
    {
        proof {
            lemma_product_fits(units as int, SCALE as int);
        }
        clamp_wide((units as i128) * (SCALE as i128))
    }

    pub fn zero() -> (r: Fixed)
        ensures
            r.raw == 0,
    {
        Fixed { raw: 0 }
    }

    #[verifier::when_used_as_spec(spec_plus)]
    pub fn plus(self, rhs: Fixed) -> (r: Fixed)
        ensures
            r == self.spec_plus(rhs),
    {
        clamp_wide((self.raw as i128) + (rhs.raw as i128))
    }

    #[verifier::when_used_as_spec(spec_minus)]
    pub fn minus(self, rhs: Fixed) -> (r: Fixed)
        ensures
            r == self.spec_minus(rhs),
    {
        clamp_wide((self.raw as i128) - (rhs.raw as i128))
    }

    #[verifier::when_used_as_spec(spec_negated)]
    pub fn negated(self) -> (r: Fixed)
        ensures
            r == self.spec_negated(),
    {
        clamp_wide(-(self.raw as i128))
    }

    #[verifier::when_used_as_spec(spec_times)]
    pub fn times(self, rhs: Fixed) -> (r: Fixed)
        ensures
            r == self.spec_times(rhs),
    {
        proof {
            lemma_product_fits(self.raw as int, rhs.raw as int);
        }
        let product: i128 = (self.raw as i128) * (rhs.raw as i128);
        clamp_wide(product / (SCALE as i128))
    }

    #[verifier::when_used_as_spec(spec_divided_by)]
    pub fn divided_by(self, rhs: Fixed) -> (r: Fixed)
        requires
            rhs.raw != 0,
        ensures
            r == self.spec_divided_by(rhs),
    {
        proof {
            lemma_product_fits(self.raw as int, SCALE as int);
        }
        let scaled: i128 = (self.raw as i128) * (SCALE as i128);
        let divisor: i128 = rhs.raw as i128;
        if divisor > 0 {
            clamp_wide(scaled / divisor)
        } else {
            clamp_wide(-(scaled / (-divisor)))
        }
    }

    #[verifier::when_used_as_spec(spec_modulo)]
    pub fn modulo(self, rhs: Fixed) -> (r: Fixed)
        requires
            rhs.raw != 0,
        ensures
            r == self.spec_modulo(rhs),
    {
        let divisor: i128 = rhs.raw as i128;
        if divisor > 0 {
            clamp_wide((self.raw as i128) % divisor)
        } else {
            clamp_wide((self.raw as i128) % (-divisor))
        }
    }

    #[verifier::when_used_as_spec(spec_signum)]
    pub fn signum(self) -> (r: Fixed)
        ensures
            r == self.spec_signum(),
    {
        if self.raw > 0 {
            Fixed { raw: SCALE }
        } else if self.raw < 0 {
            Fixed { raw: -SCALE }
        } else {
            Fixed { raw: 0 }
        }
    }

    #[verifier::when_used_as_spec(spec_magnitude)]
    pub fn magnitude(self) -> (r: Fixed)
        ensures
            r == self.spec_magnitude(),
    {
        if self.raw < 0 {
            self.negated()
        } else {
            self
        }
    }
}

/// Clamp a wide intermediate result to the representable range.
fn clamp_wide(v: i128) -> (r: Fixed)
    ensures
        r == saturate(v as int),
{
    if v < i64::MIN as i128 {
        Fixed { raw: i64::MIN }
    } else if v > i64::MAX as i128 {
        Fixed { raw: i64::MAX }
    } else {
        Fixed { raw: v as i64 }
    }
}

/// The product of two 64-bit numbers fits in 128 bits with room to spare.
pub proof fn lemma_product_fits(a: int, b: int)
    requires
        i64::MIN <= a <= i64::MAX,
        i64::MIN <= b <= i64::MAX,
    ensures
        -0x4000_0000_0000_0000_0000_0000_0000_0000 <= a * b
            <= 0x4000_0000_0000_0000_0000_0000_0000_0000,
{
    assert(-0x4000_0000_0000_0000_0000_0000_0000_0000 <= a * b
        <= 0x4000_0000_0000_0000_0000_0000_0000_0000) by (nonlinear_arith)
        requires
            -0x8000_0000_0000_0000 <= a <= 0x8000_0000_0000_0000,
            -0x8000_0000_0000_0000 <= b <= 0x8000_0000_0000_0000,
    ;
}

/// Magnitude and sign of an exact product.
pub proof fn lemma_product_sign(a: int, b: int)
    ensures
        magnitude(a * b) == magnitude(a) * magnitude(b),
        (a >= 0 && b >= 0) || (a <= 0 && b <= 0) ==> a * b >= 0,
        (a >= 0 && b <= 0) || (a <= 0 && b >= 0) ==> a * b <= 0,
{
    if a >= 0 && b >= 0 {
        assert(a * b >= 0) by (nonlinear_arith)
            requires
                a >= 0,
                b >= 0,
        ;
    } else if a <= 0 && b <= 0 {
        assert(a * b >= 0 && a * b == (-a) * (-b)) by (nonlinear_arith)
            requires
                a <= 0,
                b <= 0,
        ;
    } else if a >= 0 {
        assert(a * b <= 0 && -(a * b) == a * (-b)) by (nonlinear_arith)
            requires
                a >= 0,
                b <= 0,
        ;
    } else {
        assert(a * b <= 0 && -(a * b) == (-a) * b) by (nonlinear_arith)
            requires
                a <= 0,
                b >= 0,
        ;
    }
}

/// A product is never larger in magnitude than the exact product, and it
/// has the sign of the exact product or is zero.
pub proof fn lemma_times_bounds(a: Fixed, b: Fixed)
    ensures
        magnitude(a.times(b)@) * SCALE <= magnitude(a@) * magnitude(b@),
        (a@ >= 0 && b@ >= 0) || (a@ <= 0 && b@ <= 0) ==> a.times(b)@ >= 0,
        (a@ >= 0 && b@ <= 0) || (a@ <= 0 && b@ >= 0) ==> a.times(b)@ <= 0,
{
    lemma_product_sign(a@, b@);
    let exact = magnitude(a@ * b@);
    let quotient = trunc_div(a@ * b@, SCALE as int);
    assert(magnitude(quotient) == exact / 1_000_000);
    assert((exact / 1_000_000) * 1_000_000 <= exact);
    assert(magnitude(a.times(b)@) <= magnitude(quotient));
}

/// Scaling a count up and dividing it down again gives the count back.
pub proof fn lemma_scaled_quotient(m: int)
    ensures
        trunc_div(m * SCALE, SCALE as int) == m,
        trunc_div(SCALE * m, SCALE as int) == m,
{
    assert(SCALE * m == m * SCALE) by (nonlinear_arith);
    if m >= 0 {
        assert(m * 1_000_000 >= 0 && (m * 1_000_000) / 1_000_000 == m) by (nonlinear_arith)
            requires
                m >= 0,
        ;
    } else {
        assert(m * 1_000_000 < 0 && (-(m * 1_000_000)) / 1_000_000 == -m) by (nonlinear_arith)
            requires
                m < 0,
        ;
    }
}

} // verus!
