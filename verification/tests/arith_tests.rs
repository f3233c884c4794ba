use freefly::rational::Rat;
use freefly::scalar::Scalar;
use freefly::vector::Vec3;

#[test]
fn rational_equality_ignores_representation() {
    assert!(Rat::new(1, 2).eqv(&Rat::new(2, 4)));
    assert!(Rat::new(-3, 6).eqv(&Rat::new(-1, 2)));
    assert!(!Rat::new(1, 2).eqv(&Rat::new(1, 3)));
}

#[test]
fn rational_arithmetic() {
    let half = Rat::new(1, 2);
    let third = Rat::new(1, 3);
    assert!(half.add(third).eqv(&Rat::new(5, 6)));
    assert!(half.mul(third).eqv(&Rat::new(1, 6)));
    assert!(half.sub(third).eqv(&Rat::new(1, 6)));
    assert!(half.neg().eqv(&Rat::new(-1, 2)));
    assert!(half.scale(6).eqv(&Rat::new(3, 1)));
    assert!(half.half().eqv(&Rat::new(1, 4)));
    assert!(Rat::new(0, 7).is_zero());
    assert!(Rat::new(3, 7).is_positive());
    assert!(!Rat::new(-3, 7).is_nonneg());
}

#[test]
fn scalar_multiplication_tracks_sqrt2() {
    // (1 + 2 sqrt(2)) * (3 + sqrt(2)) = 7 + 7 sqrt(2)
    let x = Scalar::new(Rat::new(1, 1), Rat::new(2, 1));
    let y = Scalar::new(Rat::new(3, 1), Rat::new(1, 1));
    let expected = Scalar::new(Rat::new(7, 1), Rat::new(7, 1));
    assert!(x.mul(y).eqv(&expected));

    // sqrt(2) / sqrt(2) = 1
    let sqrt2 = Scalar::new(Rat::new(0, 1), Rat::new(1, 1));
    assert!(sqrt2.div_sqrt2().eqv(&Scalar::from_int(1)));

    // sqrt(2) * sqrt(2) = 2
    assert!(sqrt2.mul(sqrt2).eqv(&Scalar::from_int(2)));
}

#[test]
fn vector_dot_and_norm() {
    let u = Vec3::from_ints(1, 2, 3);
    let v = Vec3::from_ints(4, 5, 6);
    assert!(u.dot(v).eqv(&Scalar::from_int(32)));
    assert!(u.norm_sq().eqv(&Scalar::from_int(14)));
    assert!(u.sub(v).eqv(&Vec3::from_ints(-3, -3, -3)));
    assert!(u.add(v).eqv(&Vec3::from_ints(5, 7, 9)));
}
