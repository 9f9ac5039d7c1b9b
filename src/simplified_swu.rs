//! The simplified Shallue–van de Woestijne–Ulas map: onto a curve
//! `y^2 = x^3 + A * x + B` with `A` and `B` non-zero, then through an isogeny
//! onto secp256k1.
use vstd::prelude::*;
use crate::curve::{clear_cofactor, curve_rhs, on_curve, point_add, rhs, weierstrass_rhs, Point, PointModel};
use crate::error::Error;
use crate::field::{
    align_parity, f_add, f_div, f_inv, f_mul, f_neg, f_sq, fe_add, fe_div, fe_inverse, fe_is_qr,
    fe_mul, fe_sqrt, fq_modulus, is_qr, is_square, lemma_inv_unique, parity, roots_are,
    signed_root, Fe,
};
use crate::hash_field::hash_to_base_field;
use crate::isogeny::{
    iso_a, iso_a_fe, k10, k10_fe, k11, k11_fe, k12, k12_fe, k13, k13_fe, k20, k20_fe, k21, k21_fe,
    lemma_swu_c1, swu_c1_fe,
};
use crate::sw_map::hash_with_map;

verus! {

/// The point of secp256k1 over the abscissa that the isogeny gives for `x`,
/// with the ordinate of the parity of `u`; `None` where the isogeny is
/// undefined or its abscissa has no ordinate.
pub open spec fn isogeny_image(
    iso_x: spec_fn(int) -> Option<int>,
    x: int,
    u: int,
) -> Option<PointModel> {
    match iso_x(x) {
        Some(xe) => if is_square(curve_rhs(xe)) {
            Some(PointModel::Affine(xe, signed_root(curve_rhs(xe), parity(u))))
        } else {
            None
        },
        None => None,
    }
}

/// The simplified SWU map of `u` for the isogenous curve `(a, b)`, the
/// constants `Z` and `C1 = -B / A`, and the isogeny's abscissa map.
pub open spec fn sswu_map_spec(
    z: int,
    a: int,
    b: int,
    c1: int,
    iso_x: spec_fn(int) -> Option<int>,
    u: int,
) -> Option<PointModel> {
    let p2z = f_mul(f_sq(u), z);
    let tv1 = f_add(p2z, f_sq(p2z));
    let x1 = if tv1 == 0 {
        f_div(b, f_mul(z, a))
    } else {
        f_mul(c1, f_add(f_inv(tv1), 1))
    };
    let x2 = f_mul(p2z, x1);
    if is_qr(weierstrass_rhs(a, b, x1)) {
        isogeny_image(iso_x, x1, u)
    } else if is_qr(weierstrass_rhs(a, b, x2)) {
        isogeny_image(iso_x, x2, u)
    } else {
        None
    }
}

/// A simplified SWU map to secp256k1 through an isogenous curve
/// `y^2 = x^3 + A * x + B`, given by `Z`, `A`, `B`, the isogeny and the
/// domain separation tag; `C1 = -B / A` may be given.
pub trait SimplifiedSWUMap {
    spec fn spec_z() -> int;

    spec fn spec_a() -> int;

    spec fn spec_b() -> int;

    spec fn spec_dst() -> Seq<u8>;

    /// The abscissa on secp256k1 that the isogeny gives for `x`, where defined.
    spec fn spec_isogeny_x(x: int) -> Option<int>;

    /// `A` and `Z * A` are not zero.
    proof fn lemma_constants()
        ensures
            0 <= Self::spec_z() < fq_modulus(),
            0 <= Self::spec_a() < fq_modulus(),
            0 <= Self::spec_b() < fq_modulus(),
            Self::spec_a() != 0,
            f_mul(Self::spec_z(), Self::spec_a()) != 0,
    ;

    fn z() -> (r: Fe)
        ensures
            r.wf(),
            r@ == Self::spec_z(),
    ;

    /// The coefficient `A` of the isogenous curve.
    fn a() -> (r: Fe)
        ensures
            r.wf(),
            r@ == Self::spec_a(),
    ;

    /// The coefficient `B` of the isogenous curve.
    fn b() -> (r: Fe)
        ensures
            r.wf(),
            r@ == Self::spec_b(),
    ;

    fn literal_c1() -> (r: Option<Fe>)
        ensures
            r matches Some(c) ==> c.wf() && c@ == f_div(f_neg(Self::spec_b()), Self::spec_a()),
    ;

    /// The domain separation tag.
    fn dst() -> (r: Vec<u8>)
        ensures
            r@ == Self::spec_dst(),
    ;

    /// The isogeny from the isogenous curve to secp256k1 at abscissa `x`:
    /// the abscissa it gives and a square root of `g` there.
    fn isogeny_map(x: &Fe, y_squared: &Fe) -> (r: Result<(Fe, Fe), Error>)
        requires
            x.wf(),
            y_squared.wf(),
        ensures
            match r {
                Ok((xe, ye)) => xe.wf() && ye.wf() && Self::spec_isogeny_x(x@) == Some(xe@)
                    && f_sq(ye@) == curve_rhs(xe@) && roots_are(curve_rhs(xe@), ye@),
                Err(e) => e == Error::HashFailed && (Self::spec_isogeny_x(x@) matches Some(xe)
                    ==> !is_square(curve_rhs(xe))),
            },
    ;

    /// `C1 = -B / A`.
    fn c1() -> (r: Fe)
        ensures
            r.wf(),
            r@ == f_div(f_neg(Self::spec_b()), Self::spec_a()),
    {
        match Self::literal_c1() {
            Some(c) => c,
            None => {
                proof {
                    Self::lemma_constants();
                }
                let b_neg = crate::field::fe_neg(&Self::b());
                fe_div(&b_neg, &Self::a()).unwrap()
            },
        }
    }

    /// The isogeny image of `x`, with the ordinate given the parity of `u`.
    fn image_on_curve(x: &Fe, gx: &Fe, u: &Fe) -> (r: Result<Point, Error>)
        requires
            x.wf(),
            gx.wf(),
            u.wf(),
        ensures
            match r {
                Ok(p) => p.wf() && Some(p@) == isogeny_image(
                    |t: int| Self::spec_isogeny_x(t),
                    x@,
                    u@,
                ),
                Err(e) => e == Error::HashFailed && isogeny_image(
                    |t: int| Self::spec_isogeny_x(t),
                    x@,
                    u@,
                ) is None,
            },
            r matches Ok(p) ==> on_curve(p@) && !p.infinity && (parity(p.y@) == parity(u@)
                || p.y@ == 0),
    {
        match Self::isogeny_map(x, gx) {
            Ok((xe, ye)) => {
                let y = align_parity(&ye, u.parity());
                Ok(Point::new_unchecked(xe, y))
            },
            Err(e) => Err(e),
        }
    }

    /// Maps a field element to a point of secp256k1 whose ordinate has the
    /// parity of `u` (or is zero); fails where no candidate abscissa has a
    /// square `g(x)` or the isogeny fails.
    fn map_to_curve(u: &Fe) -> (r: Result<Point, Error>)
        requires
            u.wf(),
        ensures
            match r {
                Ok(p) => p.wf() && Some(p@) == sswu_map_spec(
                    Self::spec_z(),
                    Self::spec_a(),
                    Self::spec_b(),
                    f_div(f_neg(Self::spec_b()), Self::spec_a()),
                    |t: int| Self::spec_isogeny_x(t),
                    u@,
                ),
                Err(e) => e == Error::HashFailed && sswu_map_spec(
                    Self::spec_z(),
                    Self::spec_a(),
                    Self::spec_b(),
                    f_div(f_neg(Self::spec_b()), Self::spec_a()),
                    |t: int| Self::spec_isogeny_x(t),
                    u@,
                ) is None,
            },
            r matches Ok(p) ==> on_curve(p@) && !p.infinity && (parity(p.y@) == parity(u@)
                || p.y@ == 0),
    {
        proof {
            Self::lemma_constants();
        }
        let one = Fe::from_u64(1);
        let a = Self::a();
        let b = Self::b();
        let p2z = fe_mul(&fe_mul(u, u), &Self::z());
        let p4z2 = fe_mul(&p2z, &p2z);
        let tv1 = fe_add(&p2z, &p4z2);
        let x1 = match fe_inverse(&tv1) {
            Some(inv) => {
                proof {
                    lemma_inv_unique(tv1@, inv@);
                }
                fe_mul(&Self::c1(), &fe_add(&inv, &one))
            },
            None => fe_div(&b, &fe_mul(&Self::z(), &a)).unwrap(),
        };
        let gx1 = fe_add(&fe_mul(&fe_add(&fe_mul(&x1, &x1), &a), &x1), &b);
        if fe_is_qr(&gx1) {
            return Self::image_on_curve(&x1, &gx1, u);
        }
        let x2 = fe_mul(&p2z, &x1);
        let gx2 = fe_add(&fe_mul(&fe_add(&fe_mul(&x2, &x2), &a), &x2), &b);
        if fe_is_qr(&gx2) {
            return Self::image_on_curve(&x2, &gx2, u);
        }
        Err(Error::HashFailed)
    }

    /// Hashes a message to a point of secp256k1: the two field elements
    /// hashed from it are mapped, the images added and the cofactor cleared.
    fn hash(msg: &[u8]) -> (r: Result<Point, Error>)
        ensures
            match r {
                Ok(p) => p.wf() && hash_with_map(
                    |u: int| sswu_map_spec(
                        Self::spec_z(),
                        Self::spec_a(),
                        Self::spec_b(),
                        f_div(f_neg(Self::spec_b()), Self::spec_a()),
                        |t: int| Self::spec_isogeny_x(t),
                        u,
                    ),
                    msg@,
                    Self::spec_dst(),
                ) == Some(p@),
                Err(e) => e == Error::HashFailed && hash_with_map(
                    |u: int| sswu_map_spec(
                        Self::spec_z(),
                        Self::spec_a(),
                        Self::spec_b(),
                        f_div(f_neg(Self::spec_b()), Self::spec_a()),
                        |t: int| Self::spec_isogeny_x(t),
                        u,
                    ),
                    msg@,
                    Self::spec_dst(),
                ) is None,
            },
            r matches Ok(p) ==> on_curve(p@),
    {
        let dst = Self::dst();
        let (u0, u1) = hash_to_base_field(msg, dst.as_slice());
        let q0 = match Self::map_to_curve(&u0) {
            Ok(q) => q,
            Err(e) => return Err(e),
        };
        let q1 = match Self::map_to_curve(&u1) {
            Ok(q) => q,
            Err(e) => return Err(e),
        };
        let sum = point_add(&q0, &q1);
        Ok(clear_cofactor(&sum))
    }
}

/// The abscissa map of the 3-isogeny onto secp256k1:
/// `(K13 x^3 + K12 x^2 + K11 x + K10) / (x^2 + K21 x + K20)`.
pub open spec fn secp256k1_isogeny_x(x: int) -> Option<int> {
    let x2 = f_sq(x);
    let x3 = f_mul(x2, x);
    let num = f_add(f_add(f_add(f_mul(x3, k13()), f_mul(x2, k12())), f_mul(x, k11())), k10());
    let den = f_add(f_add(x2, f_mul(x, k21())), k20());
    if den == 0 {
        None
    } else {
        Some(f_div(num, den))
    }
}

/// The simplified SWU map of secp256k1 through its 3-isogenous curve, with
/// `Z = -1` and the domain separation tag `secp256k1_sswu`.
pub struct Secp256K1SSWUMap;

impl SimplifiedSWUMap for Secp256K1SSWUMap {
    open spec fn spec_z() -> int {
        115792089237316195423570985008687907853269984665640564039457584007908834671662int
    }

    open spec fn spec_a() -> int {
        iso_a()
    }

    open spec fn spec_b() -> int {
        1771
    }

    open spec fn spec_dst() -> Seq<u8> {
        seq![115u8, 101, 99, 112, 50, 53, 54, 107, 49, 95, 115, 115, 119, 117]
    }

    open spec fn spec_isogeny_x(x: int) -> Option<int> {
        secp256k1_isogeny_x(x)
    }

    proof fn lemma_constants() {
        let z = 115792089237316195423570985008687907853269984665640564039457584007908834671662int;
        let a = 28734576633528757162648956269730739219262246272443394170905244663053633733939int;
        assert(iso_a() == a);
        assert(Self::spec_z() == z);
        assert(z < fq_modulus());
        assert(f_mul(z, a) == 87057512603787438260922028738957168634007738393197169868552339344855200937724int);
    }

    fn z() -> (r: Fe) {
        Fe::from_limbs([0xfffffffefffffc2e, 0xffffffffffffffff, 0xffffffffffffffff, 0xffffffffffffffff]).unwrap()
    }

    fn a() -> (r: Fe) {
        iso_a_fe()
    }

    fn b() -> (r: Fe) {
        Fe::from_u64(1771)
    }

    fn literal_c1() -> (r: Option<Fe>) {
        proof {
            lemma_swu_c1();
        }
        Some(swu_c1_fe())
    }

    fn dst() -> (r: Vec<u8>) {
        let r: Vec<u8> = vec![115u8, 101, 99, 112, 50, 53, 54, 107, 49, 95, 115, 115, 119, 117];
        assert(r@ =~= Self::spec_dst());
        r
    }

    fn isogeny_map(x: &Fe, y_squared: &Fe) -> (r: Result<(Fe, Fe), Error>) {
        let x2 = fe_mul(x, x);
        let x3 = fe_mul(&x2, x);
        let num = fe_add(
            &fe_add(&fe_add(&fe_mul(&x3, &k13_fe()), &fe_mul(&x2, &k12_fe())), &fe_mul(x, &k11_fe())),
            &k10_fe(),
        );
        let den = fe_add(&fe_add(&x2, &fe_mul(x, &k21_fe())), &k20_fe());
        let xe = match fe_div(&num, &den) {
            Some(v) => v,
            None => return Err(Error::HashFailed),
        };
        match fe_sqrt(&rhs(&xe)) {
            Some(ye) => Ok((xe, ye)),
            None => Err(Error::HashFailed),
        }
    }
}

} // verus!
