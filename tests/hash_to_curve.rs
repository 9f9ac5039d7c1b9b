use std::str::FromStr;

use ark_ff::PrimeField;
use ark_secp256k1::Fq;
use curve_vrf::curve::Point;
use curve_vrf::error::Error;
use curve_vrf::field::Fe;
use curve_vrf::optimized_swu::{OptimizedSWUMap, Secp256K1OSWUMap};
use curve_vrf::simplified_swu::{Secp256K1SSWUMap, SimplifiedSWUMap};
use curve_vrf::sw_map::{
    meets_sw_z_criteria, sw_z_candidates, HashToCurve, Secp256K1DerivedSWMap, Secp256K1SWMap,
};

fn fe(decimal: &str) -> Fe {
    Fe::from_limbs(Fq::from_str(decimal).unwrap().into_bigint().0).unwrap()
}

#[test]
fn test_sw_map_for_secp256k1() {
    let msg = b"hello, hash to secp256k1 ";
    let point = Secp256K1SWMap::hash(msg).unwrap();
    assert!(point.is_on_curve());

    let expect_point = Point::new_unchecked(
        fe("30086692596842889525644937022152848460581736901329875745404997501727200602196"),
        fe("27705106490549855196627610533769201525949575606514908196706981264818627387209"),
    );
    assert_eq!(point, expect_point);
}

#[test]
fn test_sswu_map_for_secp256k1() {
    let msg = b"hello, hash to secp256k1 ";
    let point = Secp256K1SSWUMap::hash(msg).unwrap();
    assert!(point.is_on_curve());

    let expect_point = Point::new_unchecked(
        fe("10743741680020334228777834318532104455308224940808944015622063197025843808663"),
        fe("38146701389086009568131611577699099700782252859687674831782271987177742184954"),
    );
    assert_eq!(point, expect_point);
}

#[test]
fn oswu_hash_lands_on_curve() {
    let point = Secp256K1OSWUMap::hash(b"hello, hash to secp256k1 ").unwrap();
    assert!(point.is_on_curve());
    assert!(!point.infinity);
}

#[test]
fn hashes_differ_by_message() {
    let a = Secp256K1SWMap::hash(b"first message").unwrap();
    let b = Secp256K1SWMap::hash(b"second message").unwrap();
    assert_ne!(a, b);
    assert_eq!(a, Secp256K1SWMap::hash(b"first message").unwrap());
}

#[test]
fn sw_map_keeps_parity_and_curve() {
    for k in 2u64..40 {
        let u = Fe::from_u64(k * 7919 + 3);
        if let Ok(p) = Secp256K1SWMap::map_to_curve(&u) {
            assert!(p.is_on_curve());
            assert_eq!(p.y.parity(), u.parity());
        }
    }
}

#[test]
fn sw_map_small_inputs() {
    let p0 = Secp256K1SWMap::map_to_curve(&Fe::from_u64(0)).unwrap();
    assert!(p0.is_on_curve());
    assert!(!p0.y.parity());
    let p1 = Secp256K1SWMap::map_to_curve(&Fe::from_u64(1)).unwrap();
    assert!(p1.is_on_curve());
    assert!(p1.y.parity());
}

#[test]
fn sw_map_fails_where_denominator_vanishes() {
    // u^2 = 1 / 8 makes 1 - u^2 * C1 zero
    let u = fe("90581157284558277319623326293337937861979280394136085919154274619372331782689");
    assert_eq!(Secp256K1SWMap::map_to_curve(&u), Err(Error::HashFailed));
}

#[test]
fn sswu_map_keeps_parity_and_curve() {
    for k in 2u64..40 {
        let u = Fe::from_u64(k * 104729 + 11);
        if let Ok(p) = Secp256K1SSWUMap::map_to_curve(&u) {
            assert!(p.is_on_curve());
            assert_eq!(p.y.parity(), u.parity());
        }
    }
}

#[test]
fn oswu_and_sswu_agree() {
    for k in 2u64..20 {
        let u = Fe::from_u64(k * 6007 + 5);
        let s = Secp256K1SSWUMap::map_to_curve(&u).unwrap();
        let o = Secp256K1OSWUMap::map_to_curve(&u).unwrap();
        assert!(o.is_on_curve());
        assert_eq!(o.y.parity(), u.parity());
        assert_eq!(s, o);
    }
}

#[test]
fn oswu_fallback_where_denominator_vanishes() {
    // Z * u^2 + Z^2 * u^4 is zero for u = 0, 1 and -1 (Z = -1)
    let minus_one = fe("115792089237316195423570985008687907853269984665640564039457584007908834671662");
    for u in [Fe::from_u64(0), Fe::from_u64(1), minus_one] {
        let o = Secp256K1OSWUMap::map_to_curve(&u).unwrap();
        assert!(o.is_on_curve());
        assert_eq!(o, Secp256K1SSWUMap::map_to_curve(&u).unwrap());
    }
}

#[test]
fn sw_constants_match_derivation() {
    assert_eq!(Secp256K1SWMap::c1(), Fe::from_u64(8));
    assert_eq!(
        Secp256K1SWMap::c2(),
        fe("57896044618658097711785492504343953926634992332820282019728792003954417335831")
    );
    assert_eq!(
        Secp256K1SWMap::c3(),
        fe("10388779673325959979325452626823788324994718367665745800388075445979975427086")
    );
    assert_eq!(
        Secp256K1SWMap::c4(),
        fe("77194726158210796949047323339125271902179989777093709359638389338605889781098")
    );
    assert!(!Secp256K1SWMap::c3().parity());
}

#[test]
fn swu_constant_c1() {
    let c1 = fe("5324262023205125242632636178842408935272934169651804884418803605709653231043");
    assert_eq!(Secp256K1SSWUMap::c1(), c1);
    assert_eq!(Secp256K1OSWUMap::c1(), c1);
}

#[test]
fn cal_z_() {
    let found = sw_z_candidates(&Fe::from_u64(0), &Fe::from_u64(7));
    for z in &found {
        println!("z: {}", z);
    }
    assert_eq!(found, vec![-4, -3, 1, 2, 3, 4]);
}

#[test]
fn z_search_on_isogeny_coefficient() {
    let a = fe("28734576633528757162648956269730739219262246272443394170905244663053633733939");
    assert_eq!(sw_z_candidates(&a, &Fe::from_u64(7)), vec![-5, -1, 3, 4, 5]);
    assert_eq!(sw_z_candidates(&a, &Fe::from_u64(1771)), vec![-5, -4, -3, -2, 4, 5]);
    assert!(meets_sw_z_criteria(&Fe::from_u64(0), &Fe::from_u64(7), &Fe::from_u64(1)));
    assert!(!meets_sw_z_criteria(&Fe::from_u64(0), &Fe::from_u64(7), &Fe::from_u64(5)));
}

#[test]
fn derived_constants_agree_with_literals() {
    assert_eq!(Secp256K1DerivedSWMap::c1(), Secp256K1SWMap::c1());
    assert_eq!(Secp256K1DerivedSWMap::c2(), Secp256K1SWMap::c2());
    assert_eq!(Secp256K1DerivedSWMap::c3(), Secp256K1SWMap::c3());
    assert_eq!(Secp256K1DerivedSWMap::c4(), Secp256K1SWMap::c4());
    assert!(Secp256K1DerivedSWMap::literal_c3().is_none());
}

#[test]
fn derived_map_agrees_with_literal_map() {
    for k in 1u64..30 {
        let u = Fe::from_u64(k * 65537 + 17);
        assert_eq!(Secp256K1DerivedSWMap::map_to_curve(&u), Secp256K1SWMap::map_to_curve(&u));
    }
    // same map, other domain separation tag
    assert_ne!(
        Secp256K1DerivedSWMap::hash(b"hello, hash to secp256k1 ").unwrap(),
        Secp256K1SWMap::hash(b"hello, hash to secp256k1 ").unwrap()
    );
}
