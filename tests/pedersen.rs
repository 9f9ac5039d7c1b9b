use std::ops::{Add, Mul};

use ark_ec::{AffineRepr, CurveGroup, VariableBaseMSM};
use ark_ff::PrimeField;
use ark_secp256k1::{Affine, Fr, Projective};
use ark_std::{test_rng, UniformRand};
use curve_vrf::curve::Point;
use curve_vrf::error::Error;
use curve_vrf::field::Fe;
use curve_vrf::pedersen::Pedersen;
use curve_vrf::scalar::Scalar;

fn scalar(k: Fr) -> Scalar {
    Scalar::from_limbs(k.into_bigint().0).unwrap()
}

fn point(p: Affine) -> Point {
    if p.infinity {
        Point::identity()
    } else {
        Point::new_unchecked(
            Fe::from_limbs(p.x.into_bigint().0).unwrap(),
            Fe::from_limbs(p.y.into_bigint().0).unwrap(),
        )
    }
}

#[test]
fn pedersen_commit_matches_msm() {
    let mut rng = test_rng();
    let len = 4;
    let drawn: Vec<Affine> = (0..=len).map(|_| Projective::rand(&mut rng).into_affine()).collect();
    let params = Pedersen::setup(len, drawn.iter().map(|p| point(*p)).collect());
    assert_eq!(params.g.len(), len);
    assert_eq!(params.h, point(drawn[len]));

    let v: Vec<Fr> = (0..len).map(|_| Fr::rand(&mut rng)).collect();
    let r = Fr::rand(&mut rng);
    let vs: Vec<Scalar> = v.iter().map(|k| scalar(*k)).collect();
    let commitment = Pedersen::commit(&params, &vs, &scalar(r)).unwrap();

    let expected = Projective::msm_unchecked(&drawn[..len], &v).add(drawn[len].mul(r)).into_affine();
    assert_eq!(commitment, point(expected));
    assert!(commitment.is_on_curve());
}

#[test]
fn pedersen_shorter_vector() {
    let mut rng = test_rng();
    let drawn: Vec<Affine> = (0..5).map(|_| Projective::rand(&mut rng).into_affine()).collect();
    let params = Pedersen::setup(4, drawn.iter().map(|p| point(*p)).collect());
    let v = vec![Fr::rand(&mut rng), Fr::rand(&mut rng)];
    let r = Fr::rand(&mut rng);
    let vs: Vec<Scalar> = v.iter().map(|k| scalar(*k)).collect();
    let commitment = Pedersen::commit(&params, &vs, &scalar(r)).unwrap();
    let expected = (drawn[0].mul(v[0]) + drawn[1].mul(v[1]) + drawn[4].mul(r)).into_affine();
    assert_eq!(commitment, point(expected));
}

#[test]
fn pedersen_too_long() {
    let mut rng = test_rng();
    let drawn: Vec<Point> = (0..3).map(|_| point(Projective::rand(&mut rng).into_affine())).collect();
    let params = Pedersen::setup(2, drawn);
    let v: Vec<Scalar> = (0..3).map(|_| scalar(Fr::rand(&mut rng))).collect();
    assert_eq!(Pedersen::commit(&params, &v, &scalar(Fr::rand(&mut rng))), Err(Error::CommitmentTooLong));
}

#[test]
fn pedersen_homomorphic() {
    let mut rng = test_rng();
    let drawn: Vec<Affine> = (0..4).map(|_| Projective::rand(&mut rng).into_affine()).collect();
    let params = Pedersen::setup(3, drawn.iter().map(|p| point(*p)).collect());
    let v1: Vec<Fr> = (0..3).map(|_| Fr::rand(&mut rng)).collect();
    let v2: Vec<Fr> = (0..3).map(|_| Fr::rand(&mut rng)).collect();
    let (r1, r2) = (Fr::rand(&mut rng), Fr::rand(&mut rng));
    let sum: Vec<Fr> = v1.iter().zip(v2.iter()).map(|(a, b)| *a + *b).collect();
    let c1 = Pedersen::commit(&params, &v1.iter().map(|k| scalar(*k)).collect::<Vec<_>>(), &scalar(r1)).unwrap();
    let c2 = Pedersen::commit(&params, &v2.iter().map(|k| scalar(*k)).collect::<Vec<_>>(), &scalar(r2)).unwrap();
    let c3 = Pedersen::commit(&params, &sum.iter().map(|k| scalar(*k)).collect::<Vec<_>>(), &scalar(r1 + r2)).unwrap();
    let to_affine = |p: Point| {
        Affine::new_unchecked(
            ark_secp256k1::Fq::from_bigint(ark_ff::BigInt(p.x.limbs())).unwrap(),
            ark_secp256k1::Fq::from_bigint(ark_ff::BigInt(p.y.limbs())).unwrap(),
        )
    };
    assert_eq!(point((to_affine(c1) + to_affine(c2)).into_affine()), c3);
    assert!(Affine::generator().is_on_curve());
}
