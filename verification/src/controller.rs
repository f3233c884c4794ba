//! The free-fly camera controller.
//!
//! Once per frame the host hands the controller the elapsed time and a
//! snapshot of the four logical movement keys; the controller translates the
//! camera along its own forward and right axes, normalizing a diagonal
//! intent so that diagonal motion is no faster than axis-aligned motion.

use vstd::prelude::*;
use crate::rational::{Rat, Frac, lemma_mul_bound, lemma_add_bounds, lemma_mul_bounds};
use crate::scalar::{Scalar, Surd};
use crate::vector::{Vec3, Triple};

verus! {

/// Inputs a controller may be driven with are bounded by this, so that every
/// intermediate product of one update fits the executable representation.
pub const INPUT_BOUND: i128 = 1048576;

/// A per-frame snapshot of the four logical movement actions.
#[derive(Clone, Copy, PartialEq, Eq, Structural, Debug)]
pub struct KeySet {
    pub forward: bool,
    pub back: bool,
    pub left: bool,
    pub right: bool,
}

impl KeySet {
    /// No key pressed.
    pub fn released() -> (r: KeySet)
        ensures
            r == (KeySet { forward: false, back: false, left: false, right: false }),
    {
        KeySet { forward: false, back: false, left: false, right: false }
    }
}

/// The intent component along the camera's local `x` axis: `Right` pulls
/// toward `+x`, `Left` toward `-x`; pressed together they cancel.
pub open spec fn intent_x(keys: KeySet) -> int {
    (if keys.right { 1int } else { 0int }) - (if keys.left { 1int } else { 0int })
}

/// The intent component along the camera's local `z` axis: `Forward` pulls
/// toward `-z`, `Back` toward `+z`; pressed together they cancel.
pub open spec fn intent_z(keys: KeySet) -> int {
    (if keys.back { 1int } else { 0int }) - (if keys.forward { 1int } else { 0int })
}

/// Both axes carry intent, so the raw intent vector has length sqrt(2).
pub open spec fn is_diagonal(keys: KeySet) -> bool {
    intent_x(keys) != 0 && intent_z(keys) != 0
}

/// Resolve the key snapshot into the raw intent vector `(x, z)`.
pub fn intent(keys: KeySet) -> (r: (i128, i128))
    ensures
        r.0 as int == intent_x(keys),
        r.1 as int == intent_z(keys),
        -1 <= r.0 <= 1,
        -1 <= r.1 <= 1,
{
    let kx: i128 = (if keys.right { 1 } else { 0 }) - (if keys.left { 1 } else { 0 });
    let kz: i128 = (if keys.back { 1 } else { 0 }) - (if keys.forward { 1 } else { 0 });
    (kx, kz)
}

/// The unit intent along `x`: the raw component, scaled by `1/sqrt(2)`
/// when the intent is diagonal (and `1/sqrt(2) = (1/2) sqrt(2)`).
pub open spec fn unit_intent_x(keys: KeySet) -> Surd {
    if is_diagonal(keys) {
        Surd { a: Frac::zero(), b: (Frac { n: intent_x(keys), d: 2 }) }
    } else {
        Surd::from_frac(Frac::from_int(intent_x(keys)))
    }
}

/// The unit intent along `z`; see `unit_intent_x`.
pub open spec fn unit_intent_z(keys: KeySet) -> Surd {
    if is_diagonal(keys) {
        Surd { a: Frac::zero(), b: (Frac { n: intent_z(keys), d: 2 }) }
    } else {
        Surd::from_frac(Frac::from_int(intent_z(keys)))
    }
}

/// Normalize the intent vector to unit length, or `None` when no intent
/// remains after opposing keys cancel (a zero vector has no direction and
/// is never normalized).
pub fn unit_intent(keys: KeySet) -> (r: Option<(Scalar, Scalar)>)
    ensures
        r is Some <==> !(intent_x(keys) == 0 && intent_z(keys) == 0),
        r matches Some(u) ==> u.0@ == unit_intent_x(keys) && u.1@ == unit_intent_z(keys),
{
    let (kx, kz) = intent(keys);
    if kx == 0 && kz == 0 {
        None
    } else if kx != 0 && kz != 0 {
        Some((
            Scalar::new(Rat::from_int(0), Rat::new(kx, 2)),
            Scalar::new(Rat::from_int(0), Rat::new(kz, 2)),
        ))
    } else {
        Some((Scalar::from_int(kx), Scalar::from_int(kz)))
    }
}

/// One component of the world-space displacement: the intent carried onto
/// this component of the forward and right axes, scaled by
/// `p = speed * deltaTime`, and divided by sqrt(2) for a diagonal intent.
/// The forward axis is weighted by the negated `z` intent: local forward is
/// `-z`, so a `Forward` press (intent `z = -1`) moves along the facing axis.
pub open spec fn move_comp(fc: Surd, rc: Surd, kx: int, kz: int, p: Frac, diag: bool) -> Surd {
    let dir = fc.scale(-kz).add(rc.scale(kx));
    let m = dir.mul_frac(p);
    if diag {
        m.div_sqrt2()
    } else {
        m
    }
}

/// The world-space displacement of one update with nonzero intent `(kx, kz)`
/// and `p = speed * deltaTime`, read against the frame-start axes `f` and `r`.
pub open spec fn movement(f: Triple, r: Triple, kx: int, kz: int, p: Frac) -> Triple {
    let diag = kx != 0 && kz != 0;
    Triple {
        x: move_comp(f.x, r.x, kx, kz, p, diag),
        y: move_comp(f.y, r.y, kx, kz, p, diag),
        z: move_comp(f.z, r.z, kx, kz, p, diag),
    }
}

/// Mathematical model of a camera pose.
pub struct Pose {
    pub position: Triple,
    pub forward: Triple,
    pub right: Triple,
}

/// The position after one update: unchanged when no intent remains or no
/// time elapsed, else advanced by the frame's displacement.
pub open spec fn next_position(pose: Pose, speed: Frac, keys: KeySet, dt: Frac) -> Triple {
    let kx = intent_x(keys);
    let kz = intent_z(keys);
    if (kx == 0 && kz == 0) || dt.n == 0 {
        pose.position
    } else {
        pose.position.add(movement(pose.forward, pose.right, kx, kz, speed.mul(dt)))
    }
}

/// The camera pose the controller mutates: a position and the two local
/// axes derived from the host's orientation. The host guarantees `forward`
/// and `right` are unit length and orthogonal; the controller never
/// recomputes or changes them.
#[derive(Clone, Copy, Debug)]
pub struct Transform {
    pub position: Vec3,
    pub forward: Vec3,
    pub right: Vec3,
}

impl View for Transform {
    type V = Pose;

    open spec fn view(&self) -> Pose {
        Pose { position: self.position@, forward: self.forward@, right: self.right@ }
    }
}

impl Transform {
    pub open spec fn wf(self) -> bool {
        self.position.wf() && self.forward.wf() && self.right.wf()
    }

    /// Small enough to be fed to one update without overflow.
    pub open spec fn within_input_bound(self) -> bool {
        &&& self.position@.within(INPUT_BOUND as int)
        &&& self.forward@.within(INPUT_BOUND as int)
        &&& self.right@.within(INPUT_BOUND as int)
    }

    pub fn new(position: Vec3, forward: Vec3, right: Vec3) -> (r: Transform)
        requires
            position.wf(),
            forward.wf(),
            right.wf(),
        ensures
            r.position == position,
            r.forward == forward,
            r.right == right,
            r.wf(),
    {
        Transform { position, forward, right }
    }
}

/// Why a controller configuration was rejected.
#[derive(Clone, Copy, PartialEq, Eq, Structural, Debug)]
pub enum ConfigError {
    NonPositiveSpeed,
    NonPositiveSensitivity,
}

/// The controller's configuration: translation speed in world units per
/// second and the orientation-rate scaling reserved for rotational input.
/// Both are positive; `new` rejects anything else, so updates can assume a
/// valid configuration.
#[derive(Clone, Copy, Debug)]
pub struct CameraController {
    pub speed: Rat,
    pub sensitivity: Rat,
}

impl CameraController {
    /// A valid configuration: both settings positive.
    pub open spec fn valid(self) -> bool {
        &&& self.speed.wf()
        &&& self.sensitivity.wf()
        &&& self.speed@.n > 0
        &&& self.sensitivity@.n > 0
    }

    /// Build a configuration, rejecting a non-positive speed or sensitivity
    /// at construction time (fail fast, never silently clamped).
    pub fn new(speed: Rat, sensitivity: Rat) -> (r: Result<CameraController, ConfigError>)
        requires
            speed.wf(),
            sensitivity.wf(),
        ensures
            r is Ok <==> (speed@.n > 0 && sensitivity@.n > 0),
            r matches Ok(c) ==> c.speed == speed && c.sensitivity == sensitivity && c.valid(),
            speed@.n <= 0 ==> r == Err::<CameraController, ConfigError>(
                ConfigError::NonPositiveSpeed,
            ),
            speed@.n > 0 && sensitivity@.n <= 0 ==> r == Err::<CameraController, ConfigError>(
                ConfigError::NonPositiveSensitivity,
            ),
    {
        if !speed.is_positive() {
            Err(ConfigError::NonPositiveSpeed)
        } else if !sensitivity.is_positive() {
            Err(ConfigError::NonPositiveSensitivity)
        } else {
            Ok(CameraController { speed, sensitivity })
        }
    }

    /// One frame of motion: read the key snapshot, resolve the intent
    /// vector (opposing keys cancel), normalize it when diagonal, and move
    /// the position by `speed * deltaTime` along the resolved direction,
    /// read against the transform's frame-start axes. With no intent or no
    /// elapsed time the transform is left untouched; the axes are never
    /// changed.
    pub fn update(&self, t: &mut Transform, keys: KeySet, dt: Rat)
        requires
            self.valid(),
            old(t).wf(),
            old(t).within_input_bound(),
            self.speed@.within(INPUT_BOUND as int),
            dt.wf(),
            dt@.n >= 0,
            dt@.within(INPUT_BOUND as int),
        ensures
            final(t).forward == old(t).forward,
            final(t).right == old(t).right,
            final(t).wf(),
            final(t)@.position == next_position(old(t)@, self.speed@, keys, dt@),
    {
        let (kx, kz) = intent(keys);
        if (kx == 0 && kz == 0) || dt.is_zero() {
            return ;
        }
        proof {
            lemma_mul_bounds(self.speed@, dt@, INPUT_BOUND as int, INPUT_BOUND as int);
        }
        let p = self.speed.mul(dt);
        let diag = kx != 0 && kz != 0;
        let moved = Vec3::new(
            advance_component(t.position.x, t.forward.x, t.right.x, kx, kz, p, diag),
            advance_component(t.position.y, t.forward.y, t.right.y, kx, kz, p, diag),
            advance_component(t.position.z, t.forward.z, t.right.z, kx, kz, p, diag),
        );
        t.position = moved;
    }
}

/// Advance one component of the position by this component of the frame's
/// displacement.
fn advance_component(pos: Scalar, fwd: Scalar, rgt: Scalar, kx: i128, kz: i128, p: Rat, diag: bool) -> (r: Scalar)
    requires
        pos.wf(),
        fwd.wf(),
        rgt.wf(),
        p.wf(),
        pos@.within(INPUT_BOUND as int),
        fwd@.within(INPUT_BOUND as int),
        rgt@.within(INPUT_BOUND as int),
        p@.within(INPUT_BOUND as int * INPUT_BOUND as int),
        -1 <= kx <= 1,
        -1 <= kz <= 1,
    ensures
        r.wf(),
        r@ == pos@.add(move_comp(fwd@, rgt@, kx as int, kz as int, p@, diag)),
{
    proof {
        lemma_mul_bound(-kz as int, fwd@.a.n, 1, INPUT_BOUND as int);
        lemma_mul_bound(-kz as int, fwd@.b.n, 1, INPUT_BOUND as int);
        lemma_mul_bound(kx as int, rgt@.a.n, 1, INPUT_BOUND as int);
        lemma_mul_bound(kx as int, rgt@.b.n, 1, INPUT_BOUND as int);
    }
    let fs = fwd.scale(-kz);
    let rs = rgt.scale(kx);
    proof {
        lemma_add_bounds(fs@.a, rs@.a, INPUT_BOUND as int, INPUT_BOUND as int);
        lemma_add_bounds(fs@.b, rs@.b, INPUT_BOUND as int, INPUT_BOUND as int);
    }
    let dir = fs.add(rs);
    proof {
        lemma_mul_bounds(dir@.a, p@, 2199023255552, 1099511627776);
        lemma_mul_bounds(dir@.b, p@, 2199023255552, 1099511627776);
    }
    let m0 = dir.mul_rat(p);
    let m = if diag {
        m0.div_sqrt2()
    } else {
        m0
    };
    proof {
        lemma_add_bounds(pos@.a, m@.a, INPUT_BOUND as int, 4835703278458516698824704);
        lemma_add_bounds(pos@.b, m@.b, INPUT_BOUND as int, 4835703278458516698824704);
    }
    pos.add(m)
}

} // verus!
