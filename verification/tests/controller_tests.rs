use freefly::controller::{intent, unit_intent, CameraController, ConfigError, KeySet, Transform};
use freefly::rational::Rat;
use freefly::scalar::Scalar;
use freefly::vector::Vec3;

fn keys(forward: bool, back: bool, left: bool, right: bool) -> KeySet {
    KeySet { forward, back, left, right }
}

fn rs(n: i128, d: i128) -> Scalar {
    Scalar::from_rat(Rat::new(n, d))
}

/// A camera at the origin facing `-Z`, with `right = +X`.
fn facing_neg_z() -> Transform {
    Transform::new(
        Vec3::from_ints(0, 0, 0),
        Vec3::from_ints(0, 0, -1),
        Vec3::from_ints(1, 0, 0),
    )
}

fn controller(speed_n: i128, speed_d: i128) -> CameraController {
    CameraController::new(Rat::new(speed_n, speed_d), Rat::new(1, 5)).unwrap()
}

#[test]
fn forward_scenario() {
    // speed 5, deltaTime 0.1, Forward pressed, facing -Z: ends at (0, 0, -0.5).
    let c = controller(5, 1);
    let mut t = facing_neg_z();
    c.update(&mut t, keys(true, false, false, false), Rat::new(1, 10));
    let expected = Vec3::new(rs(0, 1), rs(0, 1), rs(-1, 2));
    assert!(t.position.eqv(&expected));
}

#[test]
fn forward_left_scenario() {
    // Same setup, Forward+Left: displacement (-sqrt(2)/4, 0, -sqrt(2)/4),
    // of squared magnitude 0.25, along the normalized forward-and-left mix.
    let c = controller(5, 1);
    let mut t = facing_neg_z();
    c.update(&mut t, keys(true, false, true, false), Rat::new(1, 10));
    let expected = Vec3::new(
        Scalar::new(Rat::new(0, 1), Rat::new(-1, 4)),
        rs(0, 1),
        Scalar::new(Rat::new(0, 1), Rat::new(-1, 4)),
    );
    assert!(t.position.eqv(&expected));
    assert!(t.position.norm_sq().eqv(&rs(1, 4)));
}

#[test]
fn forward_left_unit_intent() {
    // The normalized intent of Forward+Left is (-0.707..., -0.707...),
    // exactly (-1/2) sqrt(2) on both axes.
    let u = unit_intent(keys(true, false, true, false)).unwrap();
    let minus_inv_sqrt2 = Scalar::new(Rat::new(0, 1), Rat::new(-1, 2));
    assert!(u.0.eqv(&minus_inv_sqrt2));
    assert!(u.1.eqv(&minus_inv_sqrt2));
}

#[test]
fn released_keys_hold_position() {
    let c = controller(5, 1);
    let start = Vec3::from_ints(7, -3, 2);
    let mut t = Transform::new(start, Vec3::from_ints(0, 0, -1), Vec3::from_ints(1, 0, 0));
    for d in [0i128, 1, 7, 100] {
        c.update(&mut t, KeySet::released(), Rat::new(d + 1, 10));
        assert!(t.position.eqv(&start));
    }
}

#[test]
fn zero_dt_holds_position() {
    let c = controller(5, 1);
    for k in [
        keys(true, false, false, false),
        keys(false, true, false, true),
        keys(true, true, true, true),
    ] {
        let mut t = facing_neg_z();
        c.update(&mut t, k, Rat::new(0, 1));
        assert!(t.position.eqv(&Vec3::from_ints(0, 0, 0)));
    }
}

#[test]
fn opposing_keys_cancel() {
    let c = controller(5, 1);

    // Forward+Back alone: no motion at all.
    let mut t = facing_neg_z();
    c.update(&mut t, keys(true, true, false, false), Rat::new(1, 2));
    assert!(t.position.eqv(&Vec3::from_ints(0, 0, 0)));

    // Left+Right alone: no motion at all.
    let mut t2 = facing_neg_z();
    c.update(&mut t2, keys(false, false, true, true), Rat::new(1, 2));
    assert!(t2.position.eqv(&Vec3::from_ints(0, 0, 0)));

    // Forward+Back+Left moves exactly like Left alone.
    let mut with_cancel = facing_neg_z();
    let mut left_only = facing_neg_z();
    c.update(&mut with_cancel, keys(true, true, true, false), Rat::new(1, 10));
    c.update(&mut left_only, keys(false, false, true, false), Rat::new(1, 10));
    assert!(with_cancel.position.eqv(&left_only.position));
}

#[test]
fn diagonal_magnitude() {
    // Forward+Right for one frame: squared displacement is exactly
    // (speed * dt)^2, not twice that.
    let c = controller(5, 1);
    let mut t = facing_neg_z();
    c.update(&mut t, keys(true, false, false, true), Rat::new(1, 10));
    assert!(t.position.norm_sq().eqv(&rs(1, 4)));
}

#[test]
fn axis_magnitude_and_direction() {
    // Forward alone for dt = 3/10 at speed 2: displacement 3/5 along the
    // facing axis, squared magnitude 9/25.
    let c = controller(2, 1);
    let mut t = facing_neg_z();
    c.update(&mut t, keys(true, false, false, false), Rat::new(3, 10));
    let expected = Vec3::new(rs(0, 1), rs(0, 1), rs(-3, 5));
    assert!(t.position.eqv(&expected));
    assert!(t.position.norm_sq().eqv(&rs(9, 25)));
}

#[test]
fn idle_frames_never_move() {
    let c = controller(3, 1);
    let start = Vec3::from_ints(1, 2, 3);
    let mut t = Transform::new(start, Vec3::from_ints(0, 0, -1), Vec3::from_ints(1, 0, 0));
    for i in 0..100i128 {
        c.update(&mut t, KeySet::released(), Rat::new(i % 7 + 1, 9));
        assert!(t.position.eqv(&start));
    }
}

#[test]
fn axes_are_never_changed() {
    let c = controller(5, 1);
    let mut t = facing_neg_z();
    c.update(&mut t, keys(true, false, false, true), Rat::new(1, 10));
    assert!(t.forward.eqv(&Vec3::from_ints(0, 0, -1)));
    assert!(t.right.eqv(&Vec3::from_ints(1, 0, 0)));
}

#[test]
fn configuration_is_rejected_fast() {
    let err = CameraController::new(Rat::new(0, 1), Rat::new(1, 5));
    assert_eq!(err.unwrap_err(), ConfigError::NonPositiveSpeed);

    let err = CameraController::new(Rat::new(-5, 1), Rat::new(1, 5));
    assert_eq!(err.unwrap_err(), ConfigError::NonPositiveSpeed);

    let err = CameraController::new(Rat::new(5, 1), Rat::new(0, 1));
    assert_eq!(err.unwrap_err(), ConfigError::NonPositiveSensitivity);

    let err = CameraController::new(Rat::new(5, 1), Rat::new(-1, 5));
    assert_eq!(err.unwrap_err(), ConfigError::NonPositiveSensitivity);

    assert!(CameraController::new(Rat::new(5, 1), Rat::new(1, 5)).is_ok());
}

#[test]
fn intent_resolution() {
    assert_eq!(intent(keys(false, false, false, false)), (0, 0));
    assert_eq!(intent(keys(true, false, false, false)), (0, -1));
    assert_eq!(intent(keys(false, true, false, false)), (0, 1));
    assert_eq!(intent(keys(false, false, true, false)), (-1, 0));
    assert_eq!(intent(keys(false, false, false, true)), (1, 0));
    assert_eq!(intent(keys(true, true, true, false)), (-1, 0));
    assert_eq!(intent(keys(true, true, true, true)), (0, 0));
}

#[test]
fn unit_intent_cases() {
    assert!(unit_intent(keys(false, false, false, false)).is_none());
    assert!(unit_intent(keys(true, true, true, true)).is_none());

    let u = unit_intent(keys(true, false, false, false)).unwrap();
    assert!(u.0.eqv(&Scalar::from_int(0)));
    assert!(u.1.eqv(&Scalar::from_int(-1)));

    // Every nonzero intent has unit squared length.
    for f in [false, true] {
        for b in [false, true] {
            for l in [false, true] {
                for r in [false, true] {
                    if let Some(u) = unit_intent(keys(f, b, l, r)) {
                        let sq = u.0.mul(u.0).add(u.1.mul(u.1));
                        assert!(sq.eqv(&Scalar::from_int(1)));
                    }
                }
            }
        }
    }
}
