use std::ops::Mul;

use ark_ec::{AffineRepr, CurveGroup};
use ark_ff::{BigInteger, PrimeField};
use ark_secp256k1::{Affine, Fr};
use ark_std::{test_rng, UniformRand};
use curve_vrf::curve::Point;
use curve_vrf::field::Fe;
use curve_vrf::scalar::Scalar;
use curve_vrf::sw_map::{Secp256K1DerivedSWMap, Secp256K1SWMap};
use curve_vrf::vrf::KeyPair;

fn scalar(k: Fr) -> Scalar {
    Scalar::from_limbs(k.into_bigint().0).unwrap()
}

fn point(p: Affine) -> Point {
    if p.infinity {
        Point::identity()
    } else {
        Point::new_unchecked(
            Fe::from_limbs(p.x.into_bigint().0).unwrap(),
            Fe::from_limbs(p.y.into_bigint().0).unwrap(),
        )
    }
}

#[test]
fn tset_generate_key_pair() {
    let mut prng = test_rng();
    let private_key = Fr::rand(&mut prng);
    let key_pair = KeyPair::new(scalar(private_key));

    assert_eq!(
        point(ark_secp256k1::Affine::generator().mul(&private_key).into_affine()),
        key_pair.public_key
    )
}

#[test]
fn test_vrf() {
    let mut prng = test_rng();
    let key_pair = KeyPair::new(scalar(Fr::rand(&mut prng)));

    let seed = b"I am a seed";

    let proof = key_pair.vrf::<Secp256K1DerivedSWMap>(seed, &scalar(Fr::rand(&mut prng))).unwrap();

    assert!(proof.verify::<Secp256K1DerivedSWMap>(&key_pair.public_key))
}

#[test]
fn tampered_challenge_is_rejected() {
    let mut prng = test_rng();
    let key_pair = KeyPair::new(scalar(Fr::rand(&mut prng)));
    let mut proof = key_pair.vrf::<Secp256K1SWMap>(b"I am a seed", &scalar(Fr::rand(&mut prng))).unwrap();
    let mut limbs = proof.c.limbs();
    limbs[0] ^= 1;
    proof.c = Scalar::from_limbs(limbs).unwrap();
    assert!(!proof.verify::<Secp256K1SWMap>(&key_pair.public_key));
}

#[test]
fn tampered_parts_are_rejected() {
    let mut prng = test_rng();
    let key_pair = KeyPair::new(scalar(Fr::rand(&mut prng)));
    let other = KeyPair::new(scalar(Fr::rand(&mut prng)));
    let proof = key_pair.vrf::<Secp256K1SWMap>(b"I am a seed", &scalar(Fr::rand(&mut prng))).unwrap();

    assert!(!proof.verify::<Secp256K1SWMap>(&other.public_key));

    let mut seed_changed = proof.clone();
    seed_changed.seed = b"I am a seed!".to_vec();
    assert!(!seed_changed.verify::<Secp256K1SWMap>(&key_pair.public_key));

    let mut gamma_changed = proof.clone();
    gamma_changed.gamma = other.public_key;
    assert!(!gamma_changed.verify::<Secp256K1SWMap>(&key_pair.public_key));

    let mut s_changed = proof.clone();
    let mut limbs = s_changed.s.limbs();
    limbs[1] ^= 4;
    s_changed.s = Scalar::from_limbs(limbs).unwrap();
    assert!(!s_changed.verify::<Secp256K1SWMap>(&key_pair.public_key));
}

#[test]
fn output_depends_on_key_and_seed() {
    let mut prng = test_rng();
    let key_pair = KeyPair::new(scalar(Fr::rand(&mut prng)));
    let r1 = scalar(Fr::rand(&mut prng));
    let r2 = scalar(Fr::rand(&mut prng));
    let p1 = key_pair.vrf::<Secp256K1SWMap>(b"seed", &r1).unwrap();
    let p2 = key_pair.vrf::<Secp256K1SWMap>(b"seed", &r2).unwrap();
    // the output is deterministic; the proof is not
    assert_eq!(p1.gamma, p2.gamma);
    assert_ne!(p1.c, p2.c);
    assert!(p2.verify::<Secp256K1SWMap>(&key_pair.public_key));
    let p3 = key_pair.vrf::<Secp256K1SWMap>(b"other seed", &r1).unwrap();
    assert_ne!(p1.gamma, p3.gamma);
}

#[test]
fn scalar_limbs_roundtrip() {
    let k = Fr::rand(&mut test_rng());
    let s = scalar(k);
    assert_eq!(Fr::from_bigint(ark_ff::BigInt(s.limbs())).unwrap(), k);
    assert!(k.into_bigint().is_odd() == (s.limbs()[0] & 1 == 1));
}

#[test]
fn scalar_rejects_group_order() {
    let n = [0xbfd25e8cd0364141u64, 0xbaaedce6af48a03b, 0xfffffffffffffffe, 0xffffffffffffffff];
    assert!(Scalar::from_limbs(n).is_none());
    let mut below = n;
    below[0] -= 1;
    assert!(Scalar::from_limbs(below).is_some());
}

#[test]
fn proof_is_bound_to_its_map() {
    let mut prng = test_rng();
    let key_pair = KeyPair::new(scalar(Fr::rand(&mut prng)));
    let proof = key_pair.vrf::<Secp256K1SWMap>(b"I am a seed", &scalar(Fr::rand(&mut prng))).unwrap();
    assert!(proof.verify::<Secp256K1SWMap>(&key_pair.public_key));
    assert!(!proof.verify::<Secp256K1DerivedSWMap>(&key_pair.public_key));
}

#[test]
fn off_curve_key_is_rejected() {
    let mut prng = test_rng();
    let key_pair = KeyPair::new(scalar(Fr::rand(&mut prng)));
    let proof = key_pair.vrf::<Secp256K1SWMap>(b"I am a seed", &scalar(Fr::rand(&mut prng))).unwrap();
    let off = Point::new_unchecked(key_pair.public_key.x, Fe::from_u64(1));
    assert!(!proof.verify::<Secp256K1SWMap>(&off));
}
