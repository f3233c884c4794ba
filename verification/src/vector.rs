//! Exact 3-vectors over the sqrt(2)-extended rationals, with the dot
//! product and squared norm the motion laws are stated over.

use vstd::prelude::*;
use crate::rational::{Rat, Frac, fits};
use crate::scalar::{Scalar, Surd};

verus! {

/// Mathematical model of a world-space vector.
pub struct Triple {
    pub x: Surd,
    pub y: Surd,
    pub z: Surd,
}

impl Triple {
    pub open spec fn wf(self) -> bool {
        self.x.wf() && self.y.wf() && self.z.wf()
    }

    /// Numeric equality, componentwise.
    pub open spec fn eqv(self, o: Triple) -> bool {
        self.x.eqv(o.x) && self.y.eqv(o.y) && self.z.eqv(o.z)
    }

    pub open spec fn add(self, o: Triple) -> Triple {
        Triple { x: self.x.add(o.x), y: self.y.add(o.y), z: self.z.add(o.z) }
    }

    pub open spec fn neg(self) -> Triple {
        Triple { x: self.x.neg(), y: self.y.neg(), z: self.z.neg() }
    }

    pub open spec fn scale(self, k: int) -> Triple {
        Triple { x: self.x.scale(k), y: self.y.scale(k), z: self.z.scale(k) }
    }

    pub open spec fn mul_frac(self, f: Frac) -> Triple {
        Triple { x: self.x.mul_frac(f), y: self.y.mul_frac(f), z: self.z.mul_frac(f) }
    }

    pub open spec fn div_sqrt2(self) -> Triple {
        Triple { x: self.x.div_sqrt2(), y: self.y.div_sqrt2(), z: self.z.div_sqrt2() }
    }

    pub open spec fn dot(self, o: Triple) -> Surd {
        self.x.mul(o.x).add(self.y.mul(o.y)).add(self.z.mul(o.z))
    }

    /// Squared Euclidean length.
    pub open spec fn norm_sq(self) -> Surd {
        self.dot(self)
    }

    pub open spec fn zero() -> Triple {
        Triple { x: Surd::zero(), y: Surd::zero(), z: Surd::zero() }
    }

    /// Every coefficient of every component is bounded by `bound`.
    pub open spec fn within(self, bound: int) -> bool {
        self.x.within(bound) && self.y.within(bound) && self.z.within(bound)
    }
}

/// An executable exact 3-vector.
#[derive(Clone, Copy, Debug)]
pub struct Vec3 {
    pub x: Scalar,
    pub y: Scalar,
    pub z: Scalar,
}

impl View for Vec3 {
    type V = Triple;

    open spec fn view(&self) -> Triple {
        Triple { x: self.x@, y: self.y@, z: self.z@ }
    }
}

impl Vec3 {
    pub open spec fn wf(self) -> bool {
        self@.wf()
    }

    pub fn new(x: Scalar, y: Scalar, z: Scalar) -> (r: Vec3)
        requires
            x.wf(),
            y.wf(),
            z.wf(),
        ensures
            r.wf(),
            r@.x == x@,
            r@.y == y@,
            r@.z == z@,
    {
        Vec3 { x, y, z }
    }

    pub fn add(self, o: Vec3) -> (r: Vec3)
        requires
            self.wf(),
            o.wf(),
            self@.x.add_ok(o@.x),
            self@.y.add_ok(o@.y),
            self@.z.add_ok(o@.z),
        ensures
            r.wf(),
            r@ == self@.add(o@),
    {
        Vec3 { x: self.x.add(o.x), y: self.y.add(o.y), z: self.z.add(o.z) }
    }

    pub fn sub(self, o: Vec3) -> (r: Vec3)
        requires
            self.wf(),
            o.wf(),
            fits(o@.x.a.n), fits(o@.x.b.n),
            fits(o@.y.a.n), fits(o@.y.b.n),
            fits(o@.z.a.n), fits(o@.z.b.n),
            self@.x.add_ok(o@.x.neg()),
            self@.y.add_ok(o@.y.neg()),
            self@.z.add_ok(o@.z.neg()),
        ensures
            r.wf(),
            r@ == self@.add(o@.neg()),
    {
        Vec3 { x: self.x.sub(o.x), y: self.y.sub(o.y), z: self.z.sub(o.z) }
    }

    pub fn dot(self, o: Vec3) -> (r: Scalar)
        requires
            self.wf(),
            o.wf(),
            self@.x.mul_ok(o@.x),
            self@.y.mul_ok(o@.y),
            self@.z.mul_ok(o@.z),
            self@.x.mul(o@.x).add_ok(self@.y.mul(o@.y)),
            self@.x.mul(o@.x).add(self@.y.mul(o@.y)).add_ok(self@.z.mul(o@.z)),
        ensures
            r.wf(),
            r@ == self@.dot(o@),
    {
        self.x.mul(o.x).add(self.y.mul(o.y)).add(self.z.mul(o.z))
    }

    /// Squared Euclidean length.
    pub fn norm_sq(self) -> (r: Scalar)
        requires
            self.wf(),
            self@.x.mul_ok(self@.x),
            self@.y.mul_ok(self@.y),
            self@.z.mul_ok(self@.z),
            self@.x.mul(self@.x).add_ok(self@.y.mul(self@.y)),
            self@.x.mul(self@.x).add(self@.y.mul(self@.y)).add_ok(self@.z.mul(self@.z)),
        ensures
            r.wf(),
            r@ == self@.norm_sq(),
    {
        self.dot(self)
    }

    /// Numeric equality test (the representations may differ).
    pub fn eqv(&self, o: &Vec3) -> (r: bool)
        requires
            self.wf(),
            o.wf(),
            fits(self@.x.a.n * o@.x.a.d), fits(o@.x.a.n * self@.x.a.d),
            fits(self@.x.b.n * o@.x.b.d), fits(o@.x.b.n * self@.x.b.d),
            fits(self@.y.a.n * o@.y.a.d), fits(o@.y.a.n * self@.y.a.d),
            fits(self@.y.b.n * o@.y.b.d), fits(o@.y.b.n * self@.y.b.d),
            fits(self@.z.a.n * o@.z.a.d), fits(o@.z.a.n * self@.z.a.d),
            fits(self@.z.b.n * o@.z.b.d), fits(o@.z.b.n * self@.z.b.d),
        ensures
            r == self@.eqv(o@),
    {
        self.x.eqv(&o.x) && self.y.eqv(&o.y) && self.z.eqv(&o.z)
    }

    pub fn from_ints(x: i128, y: i128, z: i128) -> (r: Vec3)
        ensures
            r.wf(),
            r@.x == Surd::from_frac(Frac::from_int(x as int)),
            r@.y == Surd::from_frac(Frac::from_int(y as int)),
            r@.z == Surd::from_frac(Frac::from_int(z as int)),
    {
        Vec3 { x: Scalar::from_int(x), y: Scalar::from_int(y), z: Scalar::from_int(z) }
    }
}

} // verus!
