//! The controller's motion laws, stated over the mathematical model and
//! proved for every input the model admits.

use vstd::prelude::*;
use crate::rational::{Frac, lemma_mul_wf};
use crate::scalar::{
    Surd, lemma_surd_add_wf, lemma_surd_mul_wf, lemma_surd_mul_frac_wf, lemma_surd_eqv_trans,
    lemma_surd_add_cong, lemma_surd_mul_cong, lemma_surd_mul_frac_cong,
    lemma_surd_mul_frac_distributes, lemma_surd_mul_frac_square, lemma_surd_add_zero_scale,
    lemma_surd_scale_mul, lemma_surd_scale_one,
};
use crate::vector::Triple;
use crate::controller::{
    KeySet, Pose, next_position, movement, move_comp, intent_x, intent_z, unit_intent_x,
    unit_intent_z,
};

verus! {

/// The key snapshot with every movement key released.
pub open spec fn idle_keys() -> KeySet {
    KeySet { forward: false, back: false, left: false, right: false }
}

/// With all four keys released an update leaves the position untouched,
/// whatever the elapsed time.
pub proof fn lemma_released_keys_hold_position(pose: Pose, speed: Frac, dt: Frac)
    ensures
        next_position(pose, speed, idle_keys(), dt) == pose.position,
{
}

/// With no elapsed time an update leaves the position untouched, whatever
/// the keys pressed.
pub proof fn lemma_zero_dt_holds_position(pose: Pose, speed: Frac, keys: KeySet, dt: Frac)
    requires
        dt.n == 0,
    ensures
        next_position(pose, speed, keys, dt) == pose.position,
{
}

/// Forward and Back pressed together cancel exactly: the update behaves as
/// if neither were pressed.
pub proof fn lemma_forward_back_cancel(pose: Pose, speed: Frac, keys: KeySet, dt: Frac)
    ensures
        next_position(
            pose,
            speed,
            (KeySet { forward: true, back: true, left: keys.left, right: keys.right }),
            dt,
        ) == next_position(
            pose,
            speed,
            (KeySet { forward: false, back: false, left: keys.left, right: keys.right }),
            dt,
        ),
{
}

/// Left and Right pressed together cancel exactly: the update behaves as if
/// neither were pressed.
pub proof fn lemma_left_right_cancel(pose: Pose, speed: Frac, keys: KeySet, dt: Frac)
    ensures
        next_position(
            pose,
            speed,
            (KeySet { forward: keys.forward, back: keys.back, left: true, right: true }),
            dt,
        ) == next_position(
            pose,
            speed,
            (KeySet { forward: keys.forward, back: keys.back, left: false, right: false }),
            dt,
        ),
{
}

/// The position after a sequence of frames, each a key snapshot and an
/// elapsed time; the axes stay what they were, as updates never change them.
pub open spec fn frame_updates(pose: Pose, speed: Frac, frames: Seq<(KeySet, Frac)>) -> Triple
    decreases frames.len(),
{
    if frames.len() == 0 {
        pose.position
    } else {
        let moved = Pose {
            position: next_position(pose, speed, frames[0].0, frames[0].1),
            forward: pose.forward,
            right: pose.right,
        };
        frame_updates(moved, speed, frames.drop_first())
    }
}

/// Idle frames are a no-op forever: across arbitrarily many updates with all
/// keys released the position never changes.
pub proof fn lemma_idle_frames_hold_position(pose: Pose, speed: Frac, frames: Seq<(KeySet, Frac)>)
    requires
        forall|i: int| 0 <= i < frames.len() ==> (#[trigger] frames[i]).0 == idle_keys(),
    ensures
        frame_updates(pose, speed, frames) == pose.position,
    decreases frames.len(),
{
    if frames.len() > 0 {
        let moved = Pose {
            position: next_position(pose, speed, frames[0].0, frames[0].1),
            forward: pose.forward,
            right: pose.right,
        };
        assert(moved.position == pose.position);
        lemma_idle_frames_hold_position(moved, speed, frames.drop_first());
    }
}

/// One component of a forward-or-back displacement, squared: exactly this
/// component of the squared forward axis, scaled by `(speed * dt)^2`.
proof fn lemma_axis_comp_square(fc: Surd, rc: Surd, kz: int, p: Frac)
    requires
        fc.wf(),
        rc.wf(),
        p.wf(),
        kz == -1 || kz == 1,
    ensures
        move_comp(fc, rc, 0, kz, p, false).mul(move_comp(fc, rc, 0, kz, p, false)).eqv(
            fc.mul(fc).mul_frac(p.mul(p)),
        ),
{
    let di = fc.scale(-kz).add(rc.scale(0));
    lemma_surd_mul_frac_square(di, p);
    lemma_surd_add_zero_scale(fc.scale(-kz), rc);
    lemma_surd_mul_cong(di, di, fc.scale(-kz), fc.scale(-kz));
    lemma_surd_scale_mul(fc, fc, -kz, -kz);
    assert(-kz * -kz == 1) by (nonlinear_arith)
        requires
            kz == -1 || kz == 1,
    ;
    lemma_surd_scale_one(fc.mul(fc));
    lemma_surd_mul_frac_cong(di.mul(di), fc.mul(fc), p.mul(p));
    lemma_surd_add_wf(fc.scale(-kz), rc.scale(0));
    lemma_surd_mul_wf(di, di);
    lemma_mul_wf(p, p);
    lemma_surd_mul_frac_wf(di.mul(di), p.mul(p));
    lemma_surd_eqv_trans(
        move_comp(fc, rc, 0, kz, p, false).mul(move_comp(fc, rc, 0, kz, p, false)),
        di.mul(di).mul_frac(p.mul(p)),
        fc.mul(fc).mul_frac(p.mul(p)),
    );
}

/// Forward or Back alone moves the camera by exactly `speed * dt` in
/// squared magnitude `(speed * dt)^2`, for any unit forward axis: diagonal
/// normalization never applies and the strafe axis contributes nothing.
pub proof fn lemma_forward_axis_magnitude(f: Triple, r: Triple, kz: int, p: Frac)
    requires
        f.wf(),
        r.wf(),
        p.wf(),
        kz == -1 || kz == 1,
        f.norm_sq().eqv(Surd::one()),
    ensures
        movement(f, r, 0, kz, p).norm_sq().eqv(Surd::from_frac(p.mul(p))),
{
    let pp = p.mul(p);
    lemma_mul_wf(p, p);
    let m = movement(f, r, 0, kz, p);
    let fx2 = f.x.mul(f.x);
    let fy2 = f.y.mul(f.y);
    let fz2 = f.z.mul(f.z);
    lemma_axis_comp_square(f.x, r.x, kz, p);
    lemma_axis_comp_square(f.y, r.y, kz, p);
    lemma_axis_comp_square(f.z, r.z, kz, p);
    lemma_surd_add_cong(
        m.x.mul(m.x),
        m.y.mul(m.y),
        fx2.mul_frac(pp),
        fy2.mul_frac(pp),
    );
    lemma_surd_add_cong(
        m.x.mul(m.x).add(m.y.mul(m.y)),
        m.z.mul(m.z),
        fx2.mul_frac(pp).add(fy2.mul_frac(pp)),
        fz2.mul_frac(pp),
    );
    lemma_surd_mul_frac_distributes(fx2, fy2, pp);
    lemma_surd_add_cong(
        fx2.mul_frac(pp).add(fy2.mul_frac(pp)),
        fz2.mul_frac(pp),
        fx2.add(fy2).mul_frac(pp),
        fz2.mul_frac(pp),
    );
    lemma_surd_mul_frac_distributes(fx2.add(fy2), fz2, pp);
    lemma_surd_mul_frac_cong(f.norm_sq(), Surd::one(), pp);
    assert(Surd::one().mul_frac(pp).eqv(Surd::from_frac(pp)));

    lemma_surd_mul_wf(f.x, f.x);
    lemma_surd_mul_wf(f.y, f.y);
    lemma_surd_mul_wf(f.z, f.z);
    lemma_surd_mul_frac_wf(fx2, pp);
    lemma_surd_mul_frac_wf(fy2, pp);
    lemma_surd_mul_frac_wf(fz2, pp);
    lemma_surd_add_wf(fx2.mul_frac(pp), fy2.mul_frac(pp));
    lemma_surd_add_wf(fx2.mul_frac(pp).add(fy2.mul_frac(pp)), fz2.mul_frac(pp));
    lemma_surd_add_wf(fx2, fy2);
    lemma_surd_mul_frac_wf(fx2.add(fy2), pp);
    lemma_surd_add_wf(fx2.add(fy2).mul_frac(pp), fz2.mul_frac(pp));
    lemma_surd_add_wf(fx2.add(fy2), fz2);
    lemma_surd_mul_frac_wf(fx2.add(fy2).add(fz2), pp);
    lemma_surd_mul_frac_wf(Surd::one(), pp);

    lemma_surd_eqv_trans(
        m.norm_sq(),
        fx2.mul_frac(pp).add(fy2.mul_frac(pp)).add(fz2.mul_frac(pp)),
        fx2.add(fy2).mul_frac(pp).add(fz2.mul_frac(pp)),
    );
    lemma_surd_eqv_trans(
        m.norm_sq(),
        fx2.add(fy2).mul_frac(pp).add(fz2.mul_frac(pp)),
        fx2.add(fy2).add(fz2).mul_frac(pp),
    );
    lemma_surd_eqv_trans(
        m.norm_sq(),
        fx2.add(fy2).add(fz2).mul_frac(pp),
        Surd::one().mul_frac(pp),
    );
    lemma_surd_eqv_trans(m.norm_sq(), Surd::one().mul_frac(pp), Surd::from_frac(pp));
}

/// One component of a strafe displacement, squared: exactly this component
/// of the squared right axis, scaled by `(speed * dt)^2`.
proof fn lemma_strafe_comp_square(fc: Surd, rc: Surd, kx: int, p: Frac)
    requires
        fc.wf(),
        rc.wf(),
        p.wf(),
        kx == -1 || kx == 1,
    ensures
        move_comp(fc, rc, kx, 0, p, false).mul(move_comp(fc, rc, kx, 0, p, false)).eqv(
            rc.mul(rc).mul_frac(p.mul(p)),
        ),
{
    let di = fc.scale(0).add(rc.scale(kx));
    lemma_surd_mul_frac_square(di, p);
    lemma_surd_add_zero_scale(rc.scale(kx), fc);
    lemma_surd_mul_cong(di, di, rc.scale(kx), rc.scale(kx));
    lemma_surd_scale_mul(rc, rc, kx, kx);
    assert(kx * kx == 1) by (nonlinear_arith)
        requires
            kx == -1 || kx == 1,
    ;
    lemma_surd_scale_one(rc.mul(rc));
    lemma_surd_mul_frac_cong(di.mul(di), rc.mul(rc), p.mul(p));
    lemma_surd_add_wf(fc.scale(0), rc.scale(kx));
    lemma_surd_mul_wf(di, di);
    lemma_mul_wf(p, p);
    lemma_surd_mul_frac_wf(di.mul(di), p.mul(p));
    lemma_surd_eqv_trans(
        move_comp(fc, rc, kx, 0, p, false).mul(move_comp(fc, rc, kx, 0, p, false)),
        di.mul(di).mul_frac(p.mul(p)),
        rc.mul(rc).mul_frac(p.mul(p)),
    );
}

/// Left or Right alone moves the camera by exactly `speed * dt` in squared
/// magnitude, for any unit right axis: the forward axis contributes nothing.
pub proof fn lemma_strafe_axis_magnitude(f: Triple, r: Triple, kx: int, p: Frac)
    requires
        f.wf(),
        r.wf(),
        p.wf(),
        kx == -1 || kx == 1,
        r.norm_sq().eqv(Surd::one()),
    ensures
        movement(f, r, kx, 0, p).norm_sq().eqv(Surd::from_frac(p.mul(p))),
{
    let pp = p.mul(p);
    lemma_mul_wf(p, p);
    let m = movement(f, r, kx, 0, p);
    let rx2 = r.x.mul(r.x);
    let ry2 = r.y.mul(r.y);
    let rz2 = r.z.mul(r.z);
    lemma_strafe_comp_square(f.x, r.x, kx, p);
    lemma_strafe_comp_square(f.y, r.y, kx, p);
    lemma_strafe_comp_square(f.z, r.z, kx, p);
    lemma_surd_add_cong(
        m.x.mul(m.x),
        m.y.mul(m.y),
        rx2.mul_frac(pp),
        ry2.mul_frac(pp),
    );
    lemma_surd_add_cong(
        m.x.mul(m.x).add(m.y.mul(m.y)),
        m.z.mul(m.z),
        rx2.mul_frac(pp).add(ry2.mul_frac(pp)),
        rz2.mul_frac(pp),
    );
    lemma_surd_mul_frac_distributes(rx2, ry2, pp);
    lemma_surd_add_cong(
        rx2.mul_frac(pp).add(ry2.mul_frac(pp)),
        rz2.mul_frac(pp),
        rx2.add(ry2).mul_frac(pp),
        rz2.mul_frac(pp),
    );
    lemma_surd_mul_frac_distributes(rx2.add(ry2), rz2, pp);
    lemma_surd_mul_frac_cong(r.norm_sq(), Surd::one(), pp);
    assert(Surd::one().mul_frac(pp).eqv(Surd::from_frac(pp)));

    lemma_surd_mul_wf(r.x, r.x);
    lemma_surd_mul_wf(r.y, r.y);
    lemma_surd_mul_wf(r.z, r.z);
    lemma_surd_mul_frac_wf(rx2, pp);
    lemma_surd_mul_frac_wf(ry2, pp);
    lemma_surd_mul_frac_wf(rz2, pp);
    lemma_surd_add_wf(rx2.mul_frac(pp), ry2.mul_frac(pp));
    lemma_surd_add_wf(rx2.mul_frac(pp).add(ry2.mul_frac(pp)), rz2.mul_frac(pp));
    lemma_surd_add_wf(rx2, ry2);
    lemma_surd_mul_frac_wf(rx2.add(ry2), pp);
    lemma_surd_add_wf(rx2.add(ry2).mul_frac(pp), rz2.mul_frac(pp));
    lemma_surd_add_wf(rx2.add(ry2), rz2);
    lemma_surd_mul_frac_wf(rx2.add(ry2).add(rz2), pp);
    lemma_surd_mul_frac_wf(Surd::one(), pp);

    lemma_surd_eqv_trans(
        m.norm_sq(),
        rx2.mul_frac(pp).add(ry2.mul_frac(pp)).add(rz2.mul_frac(pp)),
        rx2.add(ry2).mul_frac(pp).add(rz2.mul_frac(pp)),
    );
    lemma_surd_eqv_trans(
        m.norm_sq(),
        rx2.add(ry2).mul_frac(pp).add(rz2.mul_frac(pp)),
        rx2.add(ry2).add(rz2).mul_frac(pp),
    );
    lemma_surd_eqv_trans(
        m.norm_sq(),
        rx2.add(ry2).add(rz2).mul_frac(pp),
        Surd::one().mul_frac(pp),
    );
    lemma_surd_eqv_trans(m.norm_sq(), Surd::one().mul_frac(pp), Surd::from_frac(pp));
}

/// Forward or Back alone moves the camera along its forward axis, weighted
/// by the negated intent: the strafe axis contributes nothing.
pub proof fn lemma_axis_movement_direction(f: Triple, r: Triple, kz: int, p: Frac)
    requires
        f.wf(),
        r.wf(),
        p.wf(),
        kz != 0,
    ensures
        movement(f, r, 0, kz, p).eqv(f.scale(-kz).mul_frac(p)),
{
    lemma_surd_add_zero_scale(f.x.scale(-kz), r.x);
    lemma_surd_add_zero_scale(f.y.scale(-kz), r.y);
    lemma_surd_add_zero_scale(f.z.scale(-kz), r.z);
    lemma_surd_mul_frac_cong(f.x.scale(-kz).add(r.x.scale(0)), f.x.scale(-kz), p);
    lemma_surd_mul_frac_cong(f.y.scale(-kz).add(r.y.scale(0)), f.y.scale(-kz), p);
    lemma_surd_mul_frac_cong(f.z.scale(-kz).add(r.z.scale(0)), f.z.scale(-kz), p);
}

/// The normalized intent really is unit length: the squares of its two
/// components sum to one whenever any intent remains.
pub proof fn lemma_unit_intent_is_unit(keys: KeySet)
    by (nonlinear_arith)
    requires
        !(intent_x(keys) == 0 && intent_z(keys) == 0),
    ensures
        unit_intent_x(keys).mul(unit_intent_x(keys)).add(
            unit_intent_z(keys).mul(unit_intent_z(keys)),
        ).eqv(Surd::one()),
{
}

} // verus!
