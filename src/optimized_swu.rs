//! The optimized simplified SWU map: the same geometry as the simplified map,
//! with the isogeny evaluated in Jacobian coordinates so that a single
//! inversion remains, in the conversion to affine coordinates.
use vstd::prelude::*;
use crate::curve::{clear_cofactor, on_curve, point_add, Point, PointModel};
use crate::error::Error;
use crate::field::{
    f_add, f_div, f_mul, f_neg, f_sq, fe_add, fe_div, fe_is_qr, fe_mul, fe_neg, fe_sqrt,
    fq_modulus, fq_sqrt_spec, is_qr, lemma_sq_neg, is_square, parity, root_with_parity, sqrt_with_parity, Fe,
};
use crate::hash_field::hash_to_base_field;
use crate::isogeny::{
    iso_a, iso_a_fe, k10, k10_fe, k11, k11_fe, k12, k12_fe, k13, k13_fe, k20, k20_fe, k21, k21_fe,
    k30, k30_fe, k31, k31_fe, k32, k32_fe, k33, k33_fe, k40, k40_fe, k41, k41_fe, k42, k42_fe,
    lemma_swu_c1, swu_c1_fe,
};
use crate::jacobian::{jacobian_to_affine, Jacobian};
use crate::sw_map::hash_with_map;

verus! {

/// Of `s` and `-s`, the one whose parity is `odd` (or `s` where it is zero).
pub open spec fn align_to(s: int, odd: bool) -> int {
    if parity(s) != odd {
        f_neg(s)
    } else {
        s
    }
}

/// The point with its ordinate replaced by the one of `y` and `-y` whose
/// parity is `odd`; the identity stays.
pub open spec fn with_parity(p: PointModel, odd: bool) -> PointModel {
    match p {
        PointModel::Identity => PointModel::Identity,
        PointModel::Affine(x, y) => PointModel::Affine(x, align_to(y, odd)),
    }
}

/// The Jacobian triple of the optimized SWU map of `u`, for the isogenous
/// curve `(a, b)`, the constants `Z` and `C1 = -B / A`, and the isogeny in
/// Jacobian coordinates. The abscissa on the isogenous curve is
/// `x1 = x1_num / x1_den`, with the fallback `x1 = B / (Z * A)` where
/// `Z * u^2 + Z^2 * u^4` is zero; `None` where `x1_den^3` is zero or
/// `Z * g(x1)` has no root.
pub open spec fn oswu_jacobian_spec(
    z: int,
    a: int,
    b: int,
    c1: int,
    iso: spec_fn(int, int, int) -> (int, int, int),
    u: int,
) -> Option<(int, int, int)> {
    let u2z = f_mul(f_sq(u), z);
    let tv1 = f_add(u2z, f_sq(u2z));
    let x1_num = if tv1 == 0 {
        b
    } else {
        f_mul(f_add(tv1, 1), c1)
    };
    let x1_den = if tv1 == 0 {
        f_mul(z, a)
    } else {
        tv1
    };
    let den2 = f_sq(x1_den);
    let den3 = f_mul(den2, x1_den);
    let x1 = f_mul(x1_num, x1_den);
    let y1_num = f_add(f_mul(f_add(f_sq(x1_num), f_mul(a, den2)), x1_num), f_mul(b, den3));
    if den3 == 0 {
        None
    } else {
        let y1_square = f_div(y1_num, den3);
        if is_qr(y1_square) {
            let y1 = f_mul(root_with_parity(y1_square, parity(u)), den3);
            Some(iso(x1, y1, x1_den))
        } else {
            let y1_square_z = f_mul(y1_square, z);
            if is_square(y1_square_z) {
                let y2 = f_mul(f_mul(fq_sqrt_spec(y1_square_z), u2z), u);
                Some(iso(f_mul(x1, u2z), f_mul(align_to(y2, parity(u)), den3), x1_den))
            } else {
                None
            }
        }
    }
}

/// The optimized SWU map of `u`: the Jacobian triple taken to affine
/// coordinates, with the ordinate given the parity of `u`; `None` where the
/// triple is undefined or its affine point is not on secp256k1.
pub open spec fn oswu_map_spec(
    z: int,
    a: int,
    b: int,
    c1: int,
    iso: spec_fn(int, int, int) -> (int, int, int),
    u: int,
) -> Option<PointModel> {
    match oswu_jacobian_spec(z, a, b, c1, iso, u) {
        Some((x, y, w)) => if on_curve(jacobian_to_affine(x, y, w)) {
            Some(with_parity(jacobian_to_affine(x, y, w), parity(u)))
        } else {
            None
        },
        None => None,
    }
}

/// An optimized SWU map to secp256k1 through an isogenous curve
/// `y^2 = x^3 + A * x + B`, given by `Z`, `A`, `B`, the isogeny in Jacobian
/// coordinates and the domain separation tag; `C1 = -B / A` may be given.
pub trait OptimizedSWUMap {
    spec fn spec_z() -> int;

    spec fn spec_a() -> int;

    spec fn spec_b() -> int;

    spec fn spec_dst() -> Seq<u8>;

    /// The isogeny on Jacobian triples.
    spec fn spec_isogeny(x: int, y: int, z: int) -> (int, int, int);

    /// `A` and `Z * A` are not zero.
    proof fn lemma_constants()
        ensures
            0 <= Self::spec_z() < fq_modulus(),
            0 <= Self::spec_a() < fq_modulus(),
            0 <= Self::spec_b() < fq_modulus(),
            Self::spec_a() != 0,
            f_mul(Self::spec_z(), Self::spec_a()) != 0,
    ;

    fn z() -> (r: Fe)
        ensures
            r.wf(),
            r@ == Self::spec_z(),
    ;

    /// The coefficient `A` of the isogenous curve.
    fn a() -> (r: Fe)
        ensures
            r.wf(),
            r@ == Self::spec_a(),
    ;

    /// The coefficient `B` of the isogenous curve.
    fn b() -> (r: Fe)
        ensures
            r.wf(),
            r@ == Self::spec_b(),
    ;

    fn literal_c1() -> (r: Option<Fe>)
        ensures
            r matches Some(c) ==> c.wf() && c@ == f_div(f_neg(Self::spec_b()), Self::spec_a()),
    ;

    /// The domain separation tag.
    fn dst() -> (r: Vec<u8>)
        ensures
            r@ == Self::spec_dst(),
    ;

    /// The isogeny from the isogenous curve to secp256k1 on Jacobian triples.
    fn isogeny_map(x: &Fe, y: &Fe, z: &Fe) -> (r: (Fe, Fe, Fe))
        requires
            x.wf(),
            y.wf(),
            z.wf(),
        ensures
            r.0.wf(),
            r.1.wf(),
            r.2.wf(),
            (r.0@, r.1@, r.2@) == Self::spec_isogeny(x@, y@, z@),
    ;

    /// `C1 = -B / A`.
    fn c1() -> (r: Fe)
        ensures
            r.wf(),
            r@ == f_div(f_neg(Self::spec_b()), Self::spec_a()),
    {
        match Self::literal_c1() {
            Some(c) => c,
            None => {
                proof {
                    Self::lemma_constants();
                }
                let b_neg = fe_neg(&Self::b());
                fe_div(&b_neg, &Self::a()).unwrap()
            },
        }
    }

    /// Maps a field element to a point of secp256k1: the isogeny is
    /// evaluated in Jacobian coordinates, the result taken to affine
    /// coordinates with one inversion, and its ordinate given the parity of
    /// `u`. Fails where `x1_den^3` is zero, `Z * g(x1)` has no square root,
    /// or the point found is not on the curve.
    fn map_to_curve(u: &Fe) -> (r: Result<Point, Error>)
        requires
            u.wf(),
        ensures
            match r {
                Ok(p) => p.wf() && oswu_map_spec(
                    Self::spec_z(),
                    Self::spec_a(),
                    Self::spec_b(),
                    f_div(f_neg(Self::spec_b()), Self::spec_a()),
                    |x: int, y: int, z: int| Self::spec_isogeny(x, y, z),
                    u@,
                ) == Some(p@),
                Err(e) => e == Error::HashFailed && oswu_map_spec(
                    Self::spec_z(),
                    Self::spec_a(),
                    Self::spec_b(),
                    f_div(f_neg(Self::spec_b()), Self::spec_a()),
                    |x: int, y: int, z: int| Self::spec_isogeny(x, y, z),
                    u@,
                ) is None,
            },
            r matches Ok(p) ==> on_curve(p@) && (!p.infinity ==> parity(p.y@) == parity(u@)
                || p.y@ == 0),
    {
        let j = match Self::map_to_jacobian(u) {
            Ok(j) => j,
            Err(e) => return Err(e),
        };
        let p = j.to_affine();
        if !p.is_on_curve() {
            return Err(Error::HashFailed);
        }
        if p.infinity {
            return Ok(p);
        }
        proof {
            lemma_sq_neg(p.y@);
        }
        let y = if p.y.parity() != u.parity() {
            fe_neg(&p.y)
        } else {
            p.y
        };
        proof {
            assert(f_neg(0) == 0);
            if p.y@ != 0 {
                crate::field::lemma_neg_parity(p.y@);
            }
        }
        Ok(Point::new_unchecked(p.x, y))
    }

    /// The Jacobian triple of the map: the isogeny applied, in Jacobian
    /// coordinates, to the point of the isogenous curve that `u` maps to.
    fn map_to_jacobian(u: &Fe) -> (r: Result<Jacobian, Error>)
        requires
            u.wf(),
        ensures
            match r {
                Ok(j) => j.wf() && oswu_jacobian_spec(
                    Self::spec_z(),
                    Self::spec_a(),
                    Self::spec_b(),
                    f_div(f_neg(Self::spec_b()), Self::spec_a()),
                    |x: int, y: int, z: int| Self::spec_isogeny(x, y, z),
                    u@,
                ) == Some((j.x@, j.y@, j.z@)),
                Err(e) => e == Error::HashFailed && oswu_jacobian_spec(
                    Self::spec_z(),
                    Self::spec_a(),
                    Self::spec_b(),
                    f_div(f_neg(Self::spec_b()), Self::spec_a()),
                    |x: int, y: int, z: int| Self::spec_isogeny(x, y, z),
                    u@,
                ) is None,
            },
    {
        proof {
            Self::lemma_constants();
        }
        let u2_mul_z = fe_mul(&fe_mul(u, u), &Self::z());
        let u4_mul_z2 = fe_mul(&u2_mul_z, &u2_mul_z);
        let tv1 = fe_add(&u2_mul_z, &u4_mul_z2);
        let (x1_num, x1_den) = if tv1.is_zero() {
            (Self::b(), fe_mul(&Self::z(), &Self::a()))
        } else {
            (fe_mul(&fe_add(&tv1, &Fe::from_u64(1)), &Self::c1()), tv1)
        };

        let num_2 = fe_mul(&x1_num, &x1_num);
        let den_2 = fe_mul(&x1_den, &x1_den);
        let den_3 = fe_mul(&den_2, &x1_den);

        let x1 = fe_mul(&x1_num, &x1_den);
        let y1_num = fe_add(
            &fe_mul(&fe_add(&num_2, &fe_mul(&Self::a(), &den_2)), &x1_num),
            &fe_mul(&Self::b(), &den_3),
        );
        let y1_square = match fe_div(&y1_num, &den_3) {
            Some(q) => q,
            None => return Err(Error::HashFailed),
        };
        if fe_is_qr(&y1_square) {
            let y1 = sqrt_with_parity(&y1_square, u.parity());
            let y1 = fe_mul(&y1, &den_3);
            let (x, y, z) = Self::isogeny_map(&x1, &y1, &x1_den);
            return Ok(Jacobian::new_unchecked(x, y, z));
        }

        let x2 = fe_mul(&x1, &u2_mul_z);
        let y1_square_z = fe_mul(&y1_square, &Self::z());
        let root = match fe_sqrt(&y1_square_z) {
            Some(root) => root,
            None => return Err(Error::HashFailed),
        };
        let y2 = fe_mul(&fe_mul(&root, &u2_mul_z), u);
        let y2 = if y2.parity() != u.parity() {
            fe_neg(&y2)
        } else {
            y2
        };
        let y2 = fe_mul(&y2, &den_3);
        let (x, y, z) = Self::isogeny_map(&x2, &y2, &x1_den);
        Ok(Jacobian::new_unchecked(x, y, z))
    }

    /// Hashes a message to a point of secp256k1: the two field elements
    /// hashed from it are mapped, the images added and the cofactor cleared.
    fn hash(msg: &[u8]) -> (r: Result<Point, Error>)
        ensures
            match r {
                Ok(p) => p.wf() && hash_with_map(
                    |u: int| oswu_map_spec(
                        Self::spec_z(),
                        Self::spec_a(),
                        Self::spec_b(),
                        f_div(f_neg(Self::spec_b()), Self::spec_a()),
                        |x: int, y: int, z: int| Self::spec_isogeny(x, y, z),
                        u,
                    ),
                    msg@,
                    Self::spec_dst(),
                ) == Some(p@),
                Err(e) => e == Error::HashFailed && hash_with_map(
                    |u: int| oswu_map_spec(
                        Self::spec_z(),
                        Self::spec_a(),
                        Self::spec_b(),
                        f_div(f_neg(Self::spec_b()), Self::spec_a()),
                        |x: int, y: int, z: int| Self::spec_isogeny(x, y, z),
                        u,
                    ),
                    msg@,
                    Self::spec_dst(),
                ) is None,
            },
            r matches Ok(p) ==> on_curve(p@),
    {
        let dst = Self::dst();
        let (u0, u1) = hash_to_base_field(msg, dst.as_slice());
        let q0 = match Self::map_to_curve(&u0) {
            Ok(q) => q,
            Err(e) => return Err(e),
        };
        let q1 = match Self::map_to_curve(&u1) {
            Ok(q) => q,
            Err(e) => return Err(e),
        };
        let sum = point_add(&q0, &q1);
        Ok(clear_cofactor(&sum))
    }
}

/// The 3-isogeny onto secp256k1 on Jacobian triples `(x, y, z)`: with
/// `x_num`, `x_den`, `y_num`, `y_den` its four polynomials made homogeneous
/// in `z`, the triple `(x_num * y_den * t, y_num * x_den * t^2, t)` with
/// `t = x_den * y_den`.
pub open spec fn secp256k1_isogeny(x: int, y: int, z: int) -> (int, int, int) {
    let z2 = f_sq(z);
    let z3 = f_mul(z2, z);
    let z4 = f_sq(z2);
    let z6 = f_sq(z3);
    let x2 = f_sq(x);
    let x3 = f_mul(x2, x);
    let x_num = f_add(
        f_add(f_add(f_mul(x3, k13()), f_mul(f_mul(x2, k12()), z2)), f_mul(f_mul(x, k11()), z4)),
        f_mul(k10(), z6),
    );
    let x_den = f_add(f_add(f_mul(x2, z2), f_mul(f_mul(x, k21()), z4)), f_mul(k20(), z6));
    let y_num = f_mul(
        f_add(
            f_add(f_add(f_mul(x3, k33()), f_mul(f_mul(x2, k32()), z2)), f_mul(f_mul(x, k31()), z4)),
            f_mul(k30(), z6),
        ),
        y,
    );
    let y_den = f_mul(
        f_add(f_add(f_add(x3, f_mul(f_mul(x2, k42()), z2)), f_mul(f_mul(x, k41()), z4)), f_mul(k40(), z6)),
        z3,
    );
    let t = f_mul(x_den, y_den);
    (f_mul(f_mul(x_num, y_den), t), f_mul(f_mul(f_mul(y_num, x_den), t), t), t)
}

/// The optimized SWU map of secp256k1 through its 3-isogenous curve, with
/// `Z = -1` and the domain separation tag `secp256k1_oswu`.
pub struct Secp256K1OSWUMap;

impl OptimizedSWUMap for Secp256K1OSWUMap {
    open spec fn spec_z() -> int {
        115792089237316195423570985008687907853269984665640564039457584007908834671662int
    }

    open spec fn spec_a() -> int {
        iso_a()
    }

    open spec fn spec_b() -> int {
        1771
    }

    open spec fn spec_dst() -> Seq<u8> {
        seq![115u8, 101, 99, 112, 50, 53, 54, 107, 49, 95, 111, 115, 119, 117]
    }

    open spec fn spec_isogeny(x: int, y: int, z: int) -> (int, int, int) {
        secp256k1_isogeny(x, y, z)
    }

    proof fn lemma_constants() {
        let z = 115792089237316195423570985008687907853269984665640564039457584007908834671662int;
        let a = 28734576633528757162648956269730739219262246272443394170905244663053633733939int;
        assert(iso_a() == a);
        assert(Self::spec_z() == z);
        assert(z < fq_modulus());
        assert(f_mul(z, a) == 87057512603787438260922028738957168634007738393197169868552339344855200937724int);
    }

    fn z() -> (r: Fe) {
        Fe::from_limbs([0xfffffffefffffc2e, 0xffffffffffffffff, 0xffffffffffffffff, 0xffffffffffffffff]).unwrap()
    }

    fn a() -> (r: Fe) {
        iso_a_fe()
    }

    fn b() -> (r: Fe) {
        Fe::from_u64(1771)
    }

    fn literal_c1() -> (r: Option<Fe>) {
        proof {
            lemma_swu_c1();
        }
        Some(swu_c1_fe())
    }

    fn dst() -> (r: Vec<u8>) {
        let r: Vec<u8> = vec![115u8, 101, 99, 112, 50, 53, 54, 107, 49, 95, 111, 115, 119, 117];
        assert(r@ =~= Self::spec_dst());
        r
    }

    fn isogeny_map(isogeny_x: &Fe, isogeny_y: &Fe, isogeny_z: &Fe) -> (r: (Fe, Fe, Fe)) {
        let z_2 = fe_mul(isogeny_z, isogeny_z);
        let z_3 = fe_mul(&z_2, isogeny_z);
        let z_4 = fe_mul(&z_2, &z_2);
        let z_6 = fe_mul(&z_3, &z_3);

        let x_2 = fe_mul(isogeny_x, isogeny_x);
        let x_3 = fe_mul(&x_2, isogeny_x);

        let x_num = fe_add(
            &fe_add(
                &fe_add(&fe_mul(&x_3, &k13_fe()), &fe_mul(&fe_mul(&x_2, &k12_fe()), &z_2)),
                &fe_mul(&fe_mul(isogeny_x, &k11_fe()), &z_4),
            ),
            &fe_mul(&k10_fe(), &z_6),
        );
        let x_den = fe_add(
            &fe_add(&fe_mul(&x_2, &z_2), &fe_mul(&fe_mul(isogeny_x, &k21_fe()), &z_4)),
            &fe_mul(&k20_fe(), &z_6),
        );
        let y_num = fe_mul(
            &fe_add(
                &fe_add(
                    &fe_add(&fe_mul(&x_3, &k33_fe()), &fe_mul(&fe_mul(&x_2, &k32_fe()), &z_2)),
                    &fe_mul(&fe_mul(isogeny_x, &k31_fe()), &z_4),
                ),
                &fe_mul(&k30_fe(), &z_6),
            ),
            isogeny_y,
        );
        let y_den = fe_mul(
            &fe_add(
                &fe_add(
                    &fe_add(&x_3, &fe_mul(&fe_mul(&x_2, &k42_fe()), &z_2)),
                    &fe_mul(&fe_mul(isogeny_x, &k41_fe()), &z_4),
                ),
                &fe_mul(&k40_fe(), &z_6),
            ),
            &z_3,
        );

        let z = fe_mul(&x_den, &y_den);
        let x = fe_mul(&fe_mul(&x_num, &y_den), &z);
        let y = fe_mul(&fe_mul(&fe_mul(&y_num, &x_den), &z), &z);
        (x, y, z)
    }
}

} // verus!
