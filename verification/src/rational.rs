//! Exact rational arithmetic.
//!
//! `Rat` is an executable, unreduced fraction of `i128`s with a positive
//! denominator; `Frac` is its mathematical model over unbounded integers.
//! Two fractions are equal as numbers when their cross products agree
//! (`Frac::eqv`); representations are never reduced, so structural equality
//! is finer than numeric equality.

use vstd::prelude::*;

verus! {

/// Largest magnitude any intermediate product is allowed to reach; this is
/// 2^126, comfortably inside `i128`.
pub const LIMIT: i128 = 85070591730234615865843651857942052864;

/// Mathematical model of a fraction: `n / d` over unbounded integers.
pub struct Frac {
    pub n: int,
    pub d: int,
}

impl Frac {
    /// A model fraction is well formed when its denominator is positive.
    pub open spec fn wf(self) -> bool {
        self.d > 0
    }

    /// Numeric equality of fractions: equality of cross products.
    pub open spec fn eqv(self, o: Frac) -> bool {
        self.n * o.d == o.n * self.d
    }

    pub open spec fn add(self, o: Frac) -> Frac {
        Frac { n: self.n * o.d + o.n * self.d, d: self.d * o.d }
    }

    pub open spec fn mul(self, o: Frac) -> Frac {
        Frac { n: self.n * o.n, d: self.d * o.d }
    }

    pub open spec fn neg(self) -> Frac {
        Frac { n: -self.n, d: self.d }
    }

    /// Scale by an integer, keeping the denominator.
    pub open spec fn scale(self, k: int) -> Frac {
        Frac { n: k * self.n, d: self.d }
    }

    /// Halve the value by doubling the denominator.
    pub open spec fn half(self) -> Frac {
        Frac { n: self.n, d: 2 * self.d }
    }

    pub open spec fn from_int(k: int) -> Frac {
        Frac { n: k, d: 1 }
    }

    pub open spec fn zero() -> Frac {
        Frac { n: 0, d: 1 }
    }

    pub open spec fn one() -> Frac {
        Frac { n: 1, d: 1 }
    }

    /// All products an executable addition forms stay within `LIMIT`.
    pub open spec fn add_ok(self, o: Frac) -> bool {
        &&& fits(self.n * o.d)
        &&& fits(o.n * self.d)
        &&& fits(self.n * o.d + o.n * self.d)
        &&& fits(self.d * o.d)
    }

    /// All products an executable multiplication forms stay within `LIMIT`.
    pub open spec fn mul_ok(self, o: Frac) -> bool {
        &&& fits(self.n * o.n)
        &&& fits(self.d * o.d)
    }

    /// Numerator magnitude and denominator are bounded by `b`.
    pub open spec fn within(self, b: int) -> bool {
        -b <= self.n <= b && 0 < self.d <= b
    }
}

/// A product small enough for the executable representation.
pub open spec fn fits(v: int) -> bool {
    -(LIMIT as int) <= v <= LIMIT as int
}

/// The product of two positive integers is positive.
pub proof fn lemma_pos_mul(a: int, b: int)
    by (nonlinear_arith)
    requires
        a > 0,
        b > 0,
    ensures
        a * b > 0,
{
}

/// Magnitude bounds are preserved under multiplication.
pub proof fn lemma_mul_bound(a: int, b: int, ca: int, cb: int)
    by (nonlinear_arith)
    requires
        -ca <= a <= ca,
        -cb <= b <= cb,
        0 <= ca,
        0 <= cb,
    ensures
        -(ca * cb) <= a * b <= ca * cb,
{
}

/// Bounds on every product an addition of bounded fractions forms.
pub proof fn lemma_add_bounds(x: Frac, y: Frac, bx: int, by: int)
    by (nonlinear_arith)
    requires
        x.d > 0,
        y.d > 0,
        -bx <= x.n <= bx,
        x.d <= bx,
        -by <= y.n <= by,
        y.d <= by,
        0 <= bx,
        0 <= by,
    ensures
        -(bx * by) <= x.n * y.d <= bx * by,
        -(bx * by) <= y.n * x.d <= bx * by,
        -(2 * (bx * by)) <= x.n * y.d + y.n * x.d <= 2 * (bx * by),
        0 < x.d * y.d <= bx * by,
{
}

/// Bounds on every product a multiplication of bounded fractions forms.
pub proof fn lemma_mul_bounds(x: Frac, y: Frac, bx: int, by: int)
    by (nonlinear_arith)
    requires
        x.d > 0,
        y.d > 0,
        -bx <= x.n <= bx,
        x.d <= bx,
        -by <= y.n <= by,
        y.d <= by,
        0 <= bx,
        0 <= by,
    ensures
        -(bx * by) <= x.n * y.n <= bx * by,
        0 < x.d * y.d <= bx * by,
{
}

/// Well-formedness is preserved by addition.
pub proof fn lemma_add_wf(x: Frac, y: Frac)
    requires
        x.wf(),
        y.wf(),
    ensures
        x.add(y).wf(),
{
    lemma_pos_mul(x.d, y.d);
}

/// Well-formedness is preserved by multiplication.
pub proof fn lemma_mul_wf(x: Frac, y: Frac)
    requires
        x.wf(),
        y.wf(),
    ensures
        x.mul(y).wf(),
{
    lemma_pos_mul(x.d, y.d);
}

/// Numeric equality of fractions is transitive (the middle denominator
/// must be nonzero for the cross products to cancel).
pub proof fn lemma_eqv_trans(x: Frac, y: Frac, z: Frac)
    requires
        y.wf(),
        x.eqv(y),
        y.eqv(z),
    ensures
        x.eqv(z),
{
    assert(x.n * z.d == z.n * x.d) by (nonlinear_arith)
        requires
            x.n * y.d == y.n * x.d,
            y.n * z.d == z.n * y.d,
            y.d > 0,
    ;
}

/// Addition respects numeric equality.
pub proof fn lemma_add_cong(x: Frac, y: Frac, x2: Frac, y2: Frac)
    requires
        x.eqv(x2),
        y.eqv(y2),
    ensures
        x.add(y).eqv(x2.add(y2)),
{
    broadcast use vstd::arithmetic::mul::group_mul_properties;

    assert((x.n * x2.d) * (y.d * y2.d) == (x2.n * x.d) * (y.d * y2.d));
    assert((y.n * y2.d) * (x.d * x2.d) == (y2.n * y.d) * (x.d * x2.d));
    assert((x.n * y.d + y.n * x.d) * (x2.d * y2.d) == (x.n * x2.d) * (y.d * y2.d) + (y.n * y2.d)
        * (x.d * x2.d));
    assert((x2.n * y2.d + y2.n * x2.d) * (x.d * y.d) == (x2.n * x.d) * (y.d * y2.d) + (y2.n * y.d)
        * (x.d * x2.d));
}

/// Multiplication respects numeric equality.
pub proof fn lemma_mul_cong(x: Frac, y: Frac, x2: Frac, y2: Frac)
    requires
        x.eqv(x2),
        y.eqv(y2),
    ensures
        x.mul(y).eqv(x2.mul(y2)),
{
    assert((x.n * y.n) * (x2.d * y2.d) == (x2.n * y2.n) * (x.d * y.d)) by (nonlinear_arith)
        requires
            x.n * x2.d == x2.n * x.d,
            y.n * y2.d == y2.n * y.d,
    ;
}

/// Integer scaling respects numeric equality.
pub proof fn lemma_scale_cong(x: Frac, x2: Frac, k: int)
    requires
        x.eqv(x2),
    ensures
        x.scale(k).eqv(x2.scale(k)),
{
    assert((k * x.n) * x2.d == (k * x2.n) * x.d) by (nonlinear_arith)
        requires
            x.n * x2.d == x2.n * x.d,
    ;
}

/// A product of four factors, rebracketed every way a transposition allows.
pub proof fn lemma_mul_shuffle(a: int, b: int, c: int, d: int)
    by (nonlinear_arith)
    ensures
        (a * b) * (c * d) == (a * c) * (b * d),
        (a * b) * (c * d) == (a * d) * (b * c),
        (a * b) * (c * d) == (a * c) * (d * b),
        (a * b) * (c * d) == (a * d) * (c * b),
{
}

/// A common integer scale distributes over a sum, on representations.
pub proof fn lemma_scale_add(x: Frac, y: Frac, k: int)
    ensures
        x.scale(k).add(y.scale(k)) == x.add(y).scale(k),
{
    assert((k * x.n) * y.d + (k * y.n) * x.d == k * (x.n * y.d + y.n * x.d)) by (nonlinear_arith);
}

/// A common rational factor distributes over a sum.
pub proof fn lemma_mul_distributes_sum(x: Frac, y: Frac, h: Frac)
    ensures
        x.mul(h).add(y.mul(h)).eqv(x.add(y).mul(h)),
{
    broadcast use vstd::arithmetic::mul::group_mul_properties;

    assert(((x.n * h.n) * (y.d * h.d)) * ((x.d * y.d) * h.d) == ((x.n * y.d) * h.n) * ((x.d * h.d)
        * (y.d * h.d)));
    assert(((y.n * h.n) * (x.d * h.d)) * ((x.d * y.d) * h.d) == ((y.n * x.d) * h.n) * ((x.d * h.d)
        * (y.d * h.d)));
    assert(((x.n * y.d + y.n * x.d) * h.n) * ((x.d * h.d) * (y.d * h.d)) == ((x.n * y.d) * h.n)
        * ((x.d * h.d) * (y.d * h.d)) + ((y.n * x.d) * h.n) * ((x.d * h.d) * (y.d * h.d)));
    assert(((x.n * h.n) * (y.d * h.d) + (y.n * h.n) * (x.d * h.d)) * ((x.d * y.d) * h.d) == ((x.n
        * h.n) * (y.d * h.d)) * ((x.d * y.d) * h.d) + ((y.n * h.n) * (x.d * h.d)) * ((x.d * y.d)
        * h.d));
}

/// Scaling commutes with multiplication, three ways, on representations.
pub proof fn lemma_scale_mul(x: Frac, h: Frac, k: int)
    ensures
        x.mul(h).scale(k) == x.scale(k).mul(h),
        x.scale(k).scale(2) == x.scale(2).scale(k),
{
    assert(k * (x.n * h.n) == (k * x.n) * h.n) by (nonlinear_arith);
    assert(k * (2 * x.n) == 2 * (k * x.n)) by (nonlinear_arith);
}

/// Multiplying two products by a common factor each is multiplying the
/// product of their other factors by the factor's square, on representations.
pub proof fn lemma_mul_pairs(x: Frac, y: Frac, p: Frac)
    ensures
        x.mul(p).mul(y.mul(p)) == x.mul(y).mul(p.mul(p)),
{
    lemma_mul_shuffle(x.n, p.n, y.n, p.n);
    lemma_mul_shuffle(x.d, p.d, y.d, p.d);
}

/// Scaling a product of scaled fractions collects the integer weights, on
/// representations.
pub proof fn lemma_scale_mul_pair(x: Frac, y: Frac, k: int, l: int)
    ensures
        x.scale(k).mul(y.scale(l)) == x.mul(y).scale(k * l),
{
    lemma_mul_shuffle(k, x.n, l, y.n);
}

/// Adding a zero-scaled fraction changes nothing, on either side.
pub proof fn lemma_add_zero_scaled(x: Frac, y: Frac)
    by (nonlinear_arith)
    ensures
        x.add(y.scale(0)).eqv(x),
        y.scale(0).add(x).eqv(x),
{
}

/// Scaling by one changes nothing.
pub proof fn lemma_scale_one(x: Frac)
    ensures
        x.scale(1) == x,
{
}

/// An executable exact rational: `num / den`, `den > 0`, never reduced.
#[derive(Clone, Copy, Debug)]
pub struct Rat {
    pub num: i128,
    pub den: i128,
}

impl View for Rat {
    type V = Frac;

    open spec fn view(&self) -> Frac {
        Frac { n: self.num as int, d: self.den as int }
    }
}

impl Rat {
    pub open spec fn wf(self) -> bool {
        self@.wf()
    }

    /// Build `num / den`.
    pub fn new(num: i128, den: i128) -> (r: Rat)
        requires
            den > 0,
        ensures
            r.wf(),
            r@.n == num as int,
            r@.d == den as int,
    {
        Rat { num, den }
    }

    pub fn from_int(k: i128) -> (r: Rat)
        ensures
            r.wf(),
            r@ == Frac::from_int(k as int),
    {
        Rat { num: k, den: 1 }
    }

    pub fn num(&self) -> (r: i128)
        ensures
            r as int == self@.n,
    {
        self.num
    }

    pub fn den(&self) -> (r: i128)
        ensures
            r as int == self@.d,
    {
        self.den
    }

    pub fn add(self, o: Rat) -> (r: Rat)
        requires
            self.wf(),
            o.wf(),
            self@.add_ok(o@),
        ensures
            r.wf(),
            r@ == self@.add(o@),
    {
        proof {
            lemma_pos_mul(self@.d, o@.d);
        }
        Rat { num: self.num * o.den + o.num * self.den, den: self.den * o.den }
    }

    pub fn mul(self, o: Rat) -> (r: Rat)
        requires
            self.wf(),
            o.wf(),
            self@.mul_ok(o@),
        ensures
            r.wf(),
            r@ == self@.mul(o@),
    {
        proof {
            lemma_pos_mul(self@.d, o@.d);
        }
        Rat { num: self.num * o.num, den: self.den * o.den }
    }

    pub fn neg(self) -> (r: Rat)
        requires
            self.wf(),
            fits(self@.n),
        ensures
            r.wf(),
            r@ == self@.neg(),
    {
        Rat { num: -self.num, den: self.den }
    }

    pub fn sub(self, o: Rat) -> (r: Rat)
        requires
            self.wf(),
            o.wf(),
            fits(o@.n),
            self@.add_ok(o@.neg()),
        ensures
            r.wf(),
            r@ == self@.add(o@.neg()),
    {
        self.add(o.neg())
    }

    pub fn scale(self, k: i128) -> (r: Rat)
        requires
            self.wf(),
            fits(k as int * self@.n),
        ensures
            r.wf(),
            r@ == self@.scale(k as int),
    {
        Rat { num: k * self.num, den: self.den }
    }

    pub fn half(self) -> (r: Rat)
        requires
            self.wf(),
            fits(2 * self@.d),
        ensures
            r.wf(),
            r@ == self@.half(),
    {
        Rat { num: self.num, den: 2 * self.den }
    }

    /// Numeric equality test (the representations may differ).
    pub fn eqv(&self, o: &Rat) -> (r: bool)
        requires
            self.wf(),
            o.wf(),
            fits(self@.n * o@.d),
            fits(o@.n * self@.d),
        ensures
            r == self@.eqv(o@),
    {
        self.num * o.den == o.num * self.den
    }

    pub fn is_zero(&self) -> (r: bool)
        requires
            self.wf(),
        ensures
            r == (self@.n == 0),
    {
        self.num == 0
    }

    pub fn is_positive(&self) -> (r: bool)
        requires
            self.wf(),
        ensures
            r == (self@.n > 0),
    {
        self.num > 0
    }

    pub fn is_nonneg(&self) -> (r: bool)
        requires
            self.wf(),
        ensures
            r == (self@.n >= 0),
    {
        self.num >= 0
    }
}

} // verus!
