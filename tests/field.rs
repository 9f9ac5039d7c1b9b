use ark_ff::PrimeField;
use curve_vrf::curve::Point;
use curve_vrf::field::Fe;
use curve_vrf::jacobian::Jacobian;

#[test]
fn field_rejects_modulus() {
    let p = [0xfffffffefffffc2fu64, 0xffffffffffffffff, 0xffffffffffffffff, 0xffffffffffffffff];
    assert!(Fe::from_limbs(p).is_none());
    let mut below = p;
    below[0] -= 1;
    let e = Fe::from_limbs(below).unwrap();
    assert_eq!(e.limbs(), below);
    assert!(!e.parity());
    assert!(Fe::from_u64(7).parity());
    assert!(Fe::from_u64(1).is_one());
    assert!(Fe::from_u64(0).is_zero());
}

#[test]
fn generator_is_on_curve() {
    let g = Point::generator();
    assert!(g.is_on_curve());
    assert!(Point::identity().is_on_curve());
    let off = Point::new_unchecked(g.x, Fe::from_u64(1));
    assert!(!off.is_on_curve());
}

#[test]
fn jacobian_conversions() {
    let g = Point::generator();
    let zero = Jacobian::new_unchecked(g.x, g.y, Fe::from_u64(0));
    assert_eq!(zero.to_affine(), Point::identity());
    let one = Jacobian::new_unchecked(g.x, g.y, Fe::from_u64(1));
    assert_eq!(one.to_affine(), g);
    // (x * 4, y * 8, 2) stands for (x, y)
    let two = Fe::from_u64(2);
    let x4 = mul(&mul(&g.x, &two), &two);
    let y8 = mul(&mul(&mul(&g.y, &two), &two), &two);
    let j = Jacobian::new_unchecked(x4, y8, two);
    assert_eq!(j.to_affine(), g);
}

fn mul(a: &Fe, b: &Fe) -> Fe {
    let x = ark_secp256k1::Fq::from_bigint(ark_ff::BigInt(a.limbs())).unwrap();
    let y = ark_secp256k1::Fq::from_bigint(ark_ff::BigInt(b.limbs())).unwrap();
    Fe::from_limbs((x * y).into_bigint().0).unwrap()
}
