//! Exact arithmetic in the field of rationals extended with sqrt(2).
//!
//! `Scalar` is the executable value `a + b * sqrt(2)` with exact rational
//! coefficients; `Surd` is its mathematical model. Since sqrt(2) is
//! irrational, two such values are equal exactly when both coefficient
//! pairs are equal as rationals, so equality is decided coefficientwise.

use vstd::prelude::*;
use crate::rational::{Rat, Frac, fits};

verus! {

/// Mathematical model of a scalar: the value `a + b * sqrt(2)`.
pub struct Surd {
    pub a: Frac,
    pub b: Frac,
}

impl Surd {
    pub open spec fn wf(self) -> bool {
        self.a.wf() && self.b.wf()
    }

    /// Numeric equality: both coefficients agree as rationals.
    pub open spec fn eqv(self, o: Surd) -> bool {
        self.a.eqv(o.a) && self.b.eqv(o.b)
    }

    pub open spec fn add(self, o: Surd) -> Surd {
        Surd { a: self.a.add(o.a), b: self.b.add(o.b) }
    }

    /// Product: `(a1 + b1 s)(a2 + b2 s) = (a1 a2 + 2 b1 b2) + (a1 b2 + b1 a2) s`
    /// for `s = sqrt(2)`.
    pub open spec fn mul(self, o: Surd) -> Surd {
        Surd {
            a: self.a.mul(o.a).add(self.b.mul(o.b).scale(2)),
            b: self.a.mul(o.b).add(self.b.mul(o.a)),
        }
    }

    pub open spec fn neg(self) -> Surd {
        Surd { a: self.a.neg(), b: self.b.neg() }
    }

    pub open spec fn scale(self, k: int) -> Surd {
        Surd { a: self.a.scale(k), b: self.b.scale(k) }
    }

    /// Multiply by a plain rational, coefficientwise.
    pub open spec fn mul_frac(self, f: Frac) -> Surd {
        Surd { a: self.a.mul(f), b: self.b.mul(f) }
    }

    /// Divide by sqrt(2): `(a + b s) / s = b + (a / 2) s`.
    pub open spec fn div_sqrt2(self) -> Surd {
        Surd { a: self.b, b: self.a.half() }
    }

    pub open spec fn from_frac(f: Frac) -> Surd {
        Surd { a: f, b: Frac::zero() }
    }

    pub open spec fn zero() -> Surd {
        Surd::from_frac(Frac::zero())
    }

    pub open spec fn one() -> Surd {
        Surd::from_frac(Frac::one())
    }

    pub open spec fn add_ok(self, o: Surd) -> bool {
        self.a.add_ok(o.a) && self.b.add_ok(o.b)
    }

    pub open spec fn mul_ok(self, o: Surd) -> bool {
        &&& self.a.mul_ok(o.a)
        &&& self.b.mul_ok(o.b)
        &&& fits(2 * self.b.mul(o.b).n)
        &&& self.a.mul(o.a).add_ok(self.b.mul(o.b).scale(2))
        &&& self.a.mul_ok(o.b)
        &&& self.b.mul_ok(o.a)
        &&& self.a.mul(o.b).add_ok(self.b.mul(o.a))
    }

    pub open spec fn mul_frac_ok(self, f: Frac) -> bool {
        self.a.mul_ok(f) && self.b.mul_ok(f)
    }

    /// Both coefficients are bounded by `bound`.
    pub open spec fn within(self, bound: int) -> bool {
        self.a.within(bound) && self.b.within(bound)
    }
}

/// Well-formedness is preserved by scalar addition.
pub proof fn lemma_surd_add_wf(x: Surd, y: Surd)
    requires
        x.wf(),
        y.wf(),
    ensures
        x.add(y).wf(),
{
    crate::rational::lemma_add_wf(x.a, y.a);
    crate::rational::lemma_add_wf(x.b, y.b);
}

/// Well-formedness is preserved by scalar multiplication.
pub proof fn lemma_surd_mul_wf(x: Surd, y: Surd)
    requires
        x.wf(),
        y.wf(),
    ensures
        x.mul(y).wf(),
{
    crate::rational::lemma_mul_wf(x.a, y.a);
    crate::rational::lemma_mul_wf(x.b, y.b);
    crate::rational::lemma_add_wf(x.a.mul(y.a), x.b.mul(y.b).scale(2));
    crate::rational::lemma_mul_wf(x.a, y.b);
    crate::rational::lemma_mul_wf(x.b, y.a);
    crate::rational::lemma_add_wf(x.a.mul(y.b), x.b.mul(y.a));
}

/// Well-formedness is preserved by multiplication with a rational.
pub proof fn lemma_surd_mul_frac_wf(x: Surd, h: Frac)
    requires
        x.wf(),
        h.wf(),
    ensures
        x.mul_frac(h).wf(),
{
    crate::rational::lemma_mul_wf(x.a, h);
    crate::rational::lemma_mul_wf(x.b, h);
}

/// Numeric equality of scalars is transitive.
pub proof fn lemma_surd_eqv_trans(x: Surd, y: Surd, z: Surd)
    requires
        y.wf(),
        x.eqv(y),
        y.eqv(z),
    ensures
        x.eqv(z),
{
    crate::rational::lemma_eqv_trans(x.a, y.a, z.a);
    crate::rational::lemma_eqv_trans(x.b, y.b, z.b);
}

/// Scalar addition respects numeric equality.
pub proof fn lemma_surd_add_cong(x: Surd, y: Surd, x2: Surd, y2: Surd)
    requires
        x.eqv(x2),
        y.eqv(y2),
    ensures
        x.add(y).eqv(x2.add(y2)),
{
    crate::rational::lemma_add_cong(x.a, y.a, x2.a, y2.a);
    crate::rational::lemma_add_cong(x.b, y.b, x2.b, y2.b);
}

/// Scalar multiplication respects numeric equality.
pub proof fn lemma_surd_mul_cong(x: Surd, y: Surd, x2: Surd, y2: Surd)
    requires
        x.eqv(x2),
        y.eqv(y2),
    ensures
        x.mul(y).eqv(x2.mul(y2)),
{
    crate::rational::lemma_mul_cong(x.a, y.a, x2.a, y2.a);
    crate::rational::lemma_mul_cong(x.b, y.b, x2.b, y2.b);
    crate::rational::lemma_scale_cong(x.b.mul(y.b), x2.b.mul(y2.b), 2);
    crate::rational::lemma_add_cong(x.a.mul(y.a), x.b.mul(y.b).scale(2), x2.a.mul(y2.a), x2.b.mul(y2.b).scale(2));
    crate::rational::lemma_mul_cong(x.a, y.b, x2.a, y2.b);
    crate::rational::lemma_mul_cong(x.b, y.a, x2.b, y2.a);
    crate::rational::lemma_add_cong(x.a.mul(y.b), x.b.mul(y.a), x2.a.mul(y2.b), x2.b.mul(y2.a));
}

/// Multiplication with a rational respects numeric equality.
pub proof fn lemma_surd_mul_frac_cong(x: Surd, x2: Surd, h: Frac)
    requires
        x.eqv(x2),
    ensures
        x.mul_frac(h).eqv(x2.mul_frac(h)),
{
    crate::rational::lemma_mul_cong(x.a, h, x2.a, h);
    crate::rational::lemma_mul_cong(x.b, h, x2.b, h);
}

/// A common rational factor distributes over a scalar sum.
pub proof fn lemma_surd_mul_frac_distributes(x: Surd, y: Surd, h: Frac)
    ensures
        x.mul_frac(h).add(y.mul_frac(h)).eqv(x.add(y).mul_frac(h)),
{
    crate::rational::lemma_mul_distributes_sum(x.a, y.a, h);
    crate::rational::lemma_mul_distributes_sum(x.b, y.b, h);
}

/// Squaring a scalar scaled by a rational squares the rational.
pub proof fn lemma_surd_mul_frac_square(u: Surd, p: Frac)
    ensures
        u.mul_frac(p).mul(u.mul_frac(p)).eqv(u.mul(u).mul_frac(p.mul(p))),
{
    crate::rational::lemma_mul_pairs(u.a, u.a, p);
    crate::rational::lemma_mul_pairs(u.b, u.b, p);
    crate::rational::lemma_mul_pairs(u.a, u.b, p);
    crate::rational::lemma_mul_pairs(u.b, u.a, p);
    crate::rational::lemma_scale_mul(u.b.mul(u.b), p.mul(p), 2);
    crate::rational::lemma_mul_distributes_sum(u.a.mul(u.a), u.b.mul(u.b).scale(2), p.mul(p));
    crate::rational::lemma_mul_distributes_sum(u.a.mul(u.b), u.b.mul(u.a), p.mul(p));
}

/// Adding a zero-scaled scalar changes nothing, on either side.
pub proof fn lemma_surd_add_zero_scale(x: Surd, y: Surd)
    ensures
        x.add(y.scale(0)).eqv(x),
        y.scale(0).add(x).eqv(x),
{
    crate::rational::lemma_add_zero_scaled(x.a, y.a);
    crate::rational::lemma_add_zero_scaled(x.b, y.b);
}

/// Scaling collects over a scalar product.
pub proof fn lemma_surd_scale_mul(x: Surd, y: Surd, k: int, l: int)
    ensures
        x.scale(k).mul(y.scale(l)) == x.mul(y).scale(k * l),
{
    crate::rational::lemma_scale_mul_pair(x.a, y.a, k, l);
    crate::rational::lemma_scale_mul_pair(x.b, y.b, k, l);
    crate::rational::lemma_scale_mul(x.b.mul(y.b), Frac::one(), k * l);
    crate::rational::lemma_scale_mul_pair(x.a, y.b, k, l);
    crate::rational::lemma_scale_mul_pair(x.b, y.a, k, l);
    crate::rational::lemma_scale_add(x.a.mul(y.a), x.b.mul(y.b).scale(2), k * l);
    crate::rational::lemma_scale_add(x.a.mul(y.b), x.b.mul(y.a), k * l);
}

/// Scaling by one changes nothing.
pub proof fn lemma_surd_scale_one(x: Surd)
    ensures
        x.scale(1) == x,
{
    crate::rational::lemma_scale_one(x.a);
    crate::rational::lemma_scale_one(x.b);
}

/// An executable scalar `a + b * sqrt(2)`.
#[derive(Clone, Copy, Debug)]
pub struct Scalar {
    pub a: Rat,
    pub b: Rat,
}

impl View for Scalar {
    type V = Surd;

    open spec fn view(&self) -> Surd {
        Surd { a: self.a@, b: self.b@ }
    }
}

impl Scalar {
    pub open spec fn wf(self) -> bool {
        self@.wf()
    }

    /// Build `a + b * sqrt(2)` from its two rational coefficients.
    pub fn new(a: Rat, b: Rat) -> (r: Scalar)
        requires
            a.wf(),
            b.wf(),
        ensures
            r.wf(),
            r@.a == a@,
            r@.b == b@,
    {
        Scalar { a, b }
    }

    /// The rational value `f`, with no sqrt(2) part.
    pub fn from_rat(f: Rat) -> (r: Scalar)
        requires
            f.wf(),
        ensures
            r.wf(),
            r@ == Surd::from_frac(f@),
    {
        Scalar { a: f, b: Rat::from_int(0) }
    }

    pub fn from_int(k: i128) -> (r: Scalar)
        ensures
            r.wf(),
            r@ == Surd::from_frac(Frac::from_int(k as int)),
    {
        Scalar { a: Rat::from_int(k), b: Rat::from_int(0) }
    }

    pub fn add(self, o: Scalar) -> (r: Scalar)
        requires
            self.wf(),
            o.wf(),
            self@.add_ok(o@),
        ensures
            r.wf(),
            r@ == self@.add(o@),
    {
        Scalar { a: self.a.add(o.a), b: self.b.add(o.b) }
    }

    pub fn mul(self, o: Scalar) -> (r: Scalar)
        requires
            self.wf(),
            o.wf(),
            self@.mul_ok(o@),
        ensures
            r.wf(),
            r@ == self@.mul(o@),
    {
        let ta = self.a.mul(o.a);
        let tb = self.b.mul(o.b);
        Scalar { a: ta.add(tb.scale(2)), b: self.a.mul(o.b).add(self.b.mul(o.a)) }
    }

    pub fn neg(self) -> (r: Scalar)
        requires
            self.wf(),
            fits(self@.a.n),
            fits(self@.b.n),
        ensures
            r.wf(),
            r@ == self@.neg(),
    {
        Scalar { a: self.a.neg(), b: self.b.neg() }
    }

    pub fn sub(self, o: Scalar) -> (r: Scalar)
        requires
            self.wf(),
            o.wf(),
            fits(o@.a.n),
            fits(o@.b.n),
            self@.add_ok(o@.neg()),
        ensures
            r.wf(),
            r@ == self@.add(o@.neg()),
    {
        self.add(o.neg())
    }

    pub fn scale(self, k: i128) -> (r: Scalar)
        requires
            self.wf(),
            fits(k as int * self@.a.n),
            fits(k as int * self@.b.n),
        ensures
            r.wf(),
            r@ == self@.scale(k as int),
    {
        Scalar { a: self.a.scale(k), b: self.b.scale(k) }
    }

    pub fn mul_rat(self, f: Rat) -> (r: Scalar)
        requires
            self.wf(),
            f.wf(),
            self@.mul_frac_ok(f@),
        ensures
            r.wf(),
            r@ == self@.mul_frac(f@),
    {
        Scalar { a: self.a.mul(f), b: self.b.mul(f) }
    }

    pub fn div_sqrt2(self) -> (r: Scalar)
        requires
            self.wf(),
            fits(2 * self@.a.d),
        ensures
            r.wf(),
            r@ == self@.div_sqrt2(),
    {
        Scalar { a: self.b, b: self.a.half() }
    }

    /// Numeric equality test (the representations may differ).
    pub fn eqv(&self, o: &Scalar) -> (r: bool)
        requires
            self.wf(),
            o.wf(),
            fits(self@.a.n * o@.a.d),
            fits(o@.a.n * self@.a.d),
            fits(self@.b.n * o@.b.d),
            fits(o@.b.n * self@.b.d),
        ensures
            r == self@.eqv(o@),
    {
        self.a.eqv(&o.a) && self.b.eqv(&o.b)
    }

    pub fn is_zero(&self) -> (r: bool)
        requires
            self.wf(),
        ensures
            r == (self@.a.n == 0 && self@.b.n == 0),
    {
        self.a.is_zero() && self.b.is_zero()
    }
}

} // verus!
