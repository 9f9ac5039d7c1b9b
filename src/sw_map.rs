//! The Shallue–van de Woestijne map to secp256k1 and hashing to the curve
//! with it.
use vstd::prelude::*;
use crate::curve::{add_spec, weierstrass, weierstrass_rhs, clear_cofactor, curve_a, curve_rhs, on_curve, point_add, rhs, Point, PointModel};
use crate::error::Error;
use crate::field::{
    f_add, f_div, f_inv, f_mul, f_neg, f_sq, f_sub, fe_add, fe_div, fe_inverse, fe_is_qr, fe_mul,
    fe_neg, fe_sqrt, fe_sub, fq_modulus, is_qr, lemma_inv_unique, lemma_neg_parity,
    lemma_sq_zero, parity, is_square, root_with_parity, sqrt_with_parity, Fe,
};
use crate::hash_field::{hash_to_base_field, hash_to_base_field_of};

verus! {

/// `C1 = g(Z)`.
pub open spec fn sw_c1_of(z: int) -> int {
    curve_rhs(z)
}

/// `C2 = -Z / 2`.
pub open spec fn sw_c2_of(z: int) -> int {
    f_neg(f_div(z, 2))
}

/// `3 * Z^2 + 4 * A`.
pub open spec fn sw_tangent_term(z: int) -> int {
    f_add(f_mul(f_sq(z), 3), f_mul(curve_a(), 4))
}

/// `-g(Z) * (3 * Z^2 + 4 * A)`, whose even square root is `C3`.
pub open spec fn sw_c3_radicand(z: int) -> int {
    f_mul(sw_tangent_term(z), f_neg(curve_rhs(z)))
}

/// `C4 = -4 * g(Z) / (3 * Z^2 + 4 * A)`.
pub open spec fn sw_c4_of(z: int) -> int {
    f_div(f_mul(f_neg(curve_rhs(z)), 4), sw_tangent_term(z))
}

/// The point with abscissa `x` whose ordinate has the parity of `u`.
pub open spec fn point_with_sign_of(x: int, u: int) -> PointModel {
    PointModel::Affine(x, root_with_parity(curve_rhs(x), parity(u)))
}

/// The SW map of `u` for the constant `Z` and `C3`, or `None` where it
/// divides by zero or none of its three candidates has a square `g(x)`.
pub open spec fn sw_map_spec(z: int, c3: int, u: int) -> Option<PointModel> {
    let t = f_mul(f_sq(u), sw_c1_of(z));
    let tv2 = f_add(1, t);
    let tv1 = f_sub(1, t);
    let den = f_mul(tv1, tv2);
    if den == 0 {
        None
    } else {
        let tv3 = f_inv(den);
        let tv4 = f_mul(f_mul(f_mul(u, tv1), tv3), c3);
        let x1 = f_sub(sw_c2_of(z), tv4);
        let x2 = f_add(sw_c2_of(z), tv4);
        let x3 = f_add(f_mul(f_sq(f_mul(f_sq(tv2), tv3)), sw_c4_of(z)), z);
        if is_qr(curve_rhs(x1)) {
            Some(point_with_sign_of(x1, u))
        } else if is_qr(curve_rhs(x2)) {
            Some(point_with_sign_of(x2, u))
        } else if is_qr(curve_rhs(x3)) {
            Some(point_with_sign_of(x3, u))
        } else {
            None
        }
    }
}

/// Hashing to the curve with a map: the sum of the images of the two field
/// elements hashed from `msg`, or `None` where either image fails.
pub open spec fn hash_with_map(
    map: spec_fn(int) -> Option<PointModel>,
    msg: Seq<u8>,
    dst: Seq<u8>,
) -> Option<PointModel> {
    let (u0, u1) = hash_to_base_field_of(msg, dst);
    match (map(u0), map(u1)) {
        (Some(q0), Some(q1)) => Some(add_spec(q0, q1)),
        _ => None,
    }
}

/// The point `(x, y)` with `y` the root of `g(x)` that has the parity of `u`.
fn signed_point(x: Fe, gx: &Fe, u: &Fe) -> (r: Point)
    requires
        x.wf(),
        gx.wf(),
        u.wf(),
        gx@ == curve_rhs(x@),
        is_qr(gx@),
    ensures
        r.wf(),
        r@ == point_with_sign_of(x@, u@),
        on_curve(r@),
        !r.infinity,
        parity(r.y@) == parity(u@),
{
    let y = sqrt_with_parity(gx, u.parity());
    Point::new_unchecked(x, y)
}

/// A Shallue–van de Woestijne map to secp256k1 (`y^2 = x^3 + 7`), given by
/// its constant `Z` and its domain separation tag. The constants `C1`..`C4`
/// may be given; those that are not are derived from `Z`.
pub trait HashToCurve {
    spec fn spec_z() -> int;

    /// The even square root of `-g(Z) * (3 * Z^2 + 4 * A)`.
    spec fn spec_c3() -> int;

    spec fn spec_dst() -> Seq<u8>;

    /// `Z` is a usable constant: `g(Z)` and `3 * Z^2 + 4 * A` are not zero,
    /// and `C3` is the even root of its radicand.
    proof fn lemma_constants()
        ensures
            0 <= Self::spec_z() < fq_modulus(),
            curve_rhs(Self::spec_z()) != 0,
            sw_tangent_term(Self::spec_z()) != 0,
            0 <= Self::spec_c3() < fq_modulus(),
            f_sq(Self::spec_c3()) == sw_c3_radicand(Self::spec_z()),
            !parity(Self::spec_c3()),
    ;

    fn z() -> (r: Fe)
        ensures
            r.wf(),
            r@ == Self::spec_z(),
    ;

    fn literal_c1() -> (r: Option<Fe>)
        ensures
            r matches Some(c) ==> c.wf() && c@ == sw_c1_of(Self::spec_z()),
    ;

    fn literal_c2() -> (r: Option<Fe>)
        ensures
            r matches Some(c) ==> c.wf() && c@ == sw_c2_of(Self::spec_z()),
    ;

    fn literal_c3() -> (r: Option<Fe>)
        ensures
            r matches Some(c) ==> c.wf() && c@ == Self::spec_c3(),
    ;

    fn literal_c4() -> (r: Option<Fe>)
        ensures
            r matches Some(c) ==> c.wf() && c@ == sw_c4_of(Self::spec_z()),
    ;

    /// The domain separation tag.
    fn dst() -> (r: Vec<u8>)
        ensures
            r@ == Self::spec_dst(),
    ;

    /// `C1 = g(Z)`.
    fn c1() -> (r: Fe)
        ensures
            r.wf(),
            r@ == sw_c1_of(Self::spec_z()),
    {
        match Self::literal_c1() {
            Some(c) => c,
            None => rhs(&Self::z()),
        }
    }

    /// `C2 = -Z / 2`.
    fn c2() -> (r: Fe)
        ensures
            r.wf(),
            r@ == sw_c2_of(Self::spec_z()),
    {
        match Self::literal_c2() {
            Some(c) => c,
            None => {
                let one = Fe::from_u64(1);
                let two = fe_add(&one, &one);
                let half = fe_div(&Self::z(), &two).unwrap();
                fe_neg(&half)
            },
        }
    }

    /// `C3 = sqrt(-g(Z) * (3 * Z^2 + 4 * A))`, the root of even parity.
    fn c3() -> (r: Fe)
        ensures
            r.wf(),
            r@ == Self::spec_c3(),
    {
        match Self::literal_c3() {
            Some(c) => c,
            None => {
                proof {
                    Self::lemma_constants();
                }
                let z = Self::z();
                let tangent = fe_add(
                    &fe_mul(&fe_mul(&z, &z), &Fe::from_u64(3)),
                    &fe_mul(&Fe::from_u64(0), &Fe::from_u64(4)),
                );
                let radicand = fe_mul(&tangent, &fe_neg(&rhs(&z)));
                assert(f_sq(Self::spec_c3()) == radicand@);
                let root = fe_sqrt(&radicand).unwrap();
                proof {
                    lemma_sq_zero();
                    if root@ != 0 {
                        lemma_neg_parity(root@);
                    }
                }
                if root.parity() {
                    fe_neg(&root)
                } else {
                    root
                }
            },
        }
    }

    /// `C4 = -4 * g(Z) / (3 * Z^2 + 4 * A)`.
    fn c4() -> (r: Fe)
        ensures
            r.wf(),
            r@ == sw_c4_of(Self::spec_z()),
    {
        match Self::literal_c4() {
            Some(c) => c,
            None => {
                proof {
                    Self::lemma_constants();
                }
                let z = Self::z();
                let tangent = fe_add(
                    &fe_mul(&fe_mul(&z, &z), &Fe::from_u64(3)),
                    &fe_mul(&Fe::from_u64(0), &Fe::from_u64(4)),
                );
                let num = fe_mul(&fe_neg(&rhs(&z)), &Fe::from_u64(4));
                fe_div(&num, &tangent).unwrap()
            },
        }
    }

    /// Maps a field element to a point of the curve whose ordinate has the
    /// parity of `u`; fails where the map divides by zero or finds no square.
    fn map_to_curve(u: &Fe) -> (r: Result<Point, Error>)
        requires
            u.wf(),
        ensures
            match r {
                Ok(p) => p.wf() && sw_map_spec(Self::spec_z(), Self::spec_c3(), u@) == Some(p@),
                Err(e) => e == Error::HashFailed && sw_map_spec(
                    Self::spec_z(),
                    Self::spec_c3(),
                    u@,
                ) is None,
            },
            r matches Ok(p) ==> on_curve(p@) && !p.infinity && parity(p.y@) == parity(u@),
    {
        let one = Fe::from_u64(1);
        let t = fe_mul(&fe_mul(u, u), &Self::c1());
        let tv2 = fe_add(&one, &t);
        let tv1 = fe_sub(&one, &t);
        let den = fe_mul(&tv1, &tv2);
        let tv3 = match fe_inverse(&den) {
            Some(inv) => inv,
            None => return Err(Error::HashFailed),
        };
        proof {
            lemma_inv_unique(den@, tv3@);
        }
        let tv4 = fe_mul(&fe_mul(&fe_mul(u, &tv1), &tv3), &Self::c3());
        let c2 = Self::c2();

        let x1 = fe_sub(&c2, &tv4);
        let gx1 = rhs(&x1);
        if fe_is_qr(&gx1) {
            return Ok(signed_point(x1, &gx1, u));
        }

        let x2 = fe_add(&c2, &tv4);
        let gx2 = rhs(&x2);
        if fe_is_qr(&gx2) {
            return Ok(signed_point(x2, &gx2, u));
        }

        let x3 = fe_mul(&fe_mul(&tv2, &tv2), &tv3);
        let x3 = fe_add(&fe_mul(&fe_mul(&x3, &x3), &Self::c4()), &Self::z());
        let gx3 = rhs(&x3);
        if fe_is_qr(&gx3) {
            return Ok(signed_point(x3, &gx3, u));
        }

        Err(Error::HashFailed)
    }

    /// Hashes a message to a point of the curve: the two field elements
    /// hashed from it are mapped, the images added and the cofactor cleared.
    fn hash(msg: &[u8]) -> (r: Result<Point, Error>)
        ensures
            match r {
                Ok(p) => p.wf() && hash_with_map(
                    |u: int| sw_map_spec(Self::spec_z(), Self::spec_c3(), u),
                    msg@,
                    Self::spec_dst(),
                ) == Some(p@),
                Err(e) => e == Error::HashFailed && hash_with_map(
                    |u: int| sw_map_spec(Self::spec_z(), Self::spec_c3(), u),
                    msg@,
                    Self::spec_dst(),
                ) is None,
            },
            r matches Ok(p) ==> on_curve(p@),
    {
        let dst = Self::dst();
        let (u0, u1) = hash_to_base_field(msg, dst.as_slice());
        let q0 = match Self::map_to_curve(&u0) {
            Ok(q) => q,
            Err(e) => return Err(e),
        };
        let q1 = match Self::map_to_curve(&u1) {
            Ok(q) => q,
            Err(e) => return Err(e),
        };
        let sum = point_add(&q0, &q1);
        Ok(clear_cofactor(&sum))
    }
}

/// The conditions on `Z` for the SW map on `y^2 = x^3 + a * x + b`:
/// `g(Z) != 0`; `-(3 * Z^2 + 4 * a) / (4 * g(Z))` is a non-zero square; and
/// `g(Z)` or `g(-Z / 2)` is a square.
pub open spec fn sw_z_criteria(a: int, b: int, z: int) -> bool {
    let gz = weierstrass_rhs(a, b, z);
    let q = f_mul(f_neg(f_add(f_mul(f_sq(z), 3), f_mul(4, a))), f_inv(f_mul(4, gz)));
    &&& gz != 0
    &&& is_qr(q)
    &&& is_qr(gz) || is_qr(weierstrass_rhs(a, b, f_div(f_neg(z), 2)))
}

/// Four times a non-zero value is not zero.
proof fn lemma_four_times_nonzero(g: int)
    requires
        0 < g < fq_modulus(),
    ensures
        f_mul(4, g) != 0,
{
    let p = fq_modulus();
    let inv4 = 28948022309329048855892746252171976963317496166410141009864396001977208667916int;
    assert(f_mul(inv4, 4) == 1);
    vstd::arithmetic::div_mod::lemma_mul_mod_noop_right(inv4, 4 * g, p);
    assert(inv4 * (4 * g) == (inv4 * 4) * g) by (nonlinear_arith);
    vstd::arithmetic::div_mod::lemma_mul_mod_noop_left(inv4 * 4, g, p);
    assert((1 * g) % p == g);
}

/// Whether `z` meets the conditions on `Z` for the SW map on
/// `y^2 = x^3 + a * x + b`.
pub fn meets_sw_z_criteria(a: &Fe, b: &Fe, z: &Fe) -> (r: bool)
    requires
        a.wf(),
        b.wf(),
        z.wf(),
    ensures
        r == sw_z_criteria(a@, b@, z@),
{
    let gz = weierstrass(a, b, z);
    if gz.is_zero() {
        return false;
    }
    proof {
        lemma_four_times_nonzero(gz@);
    }
    let four = Fe::from_u64(4);
    let inv = fe_inverse(&fe_mul(&four, &gz)).unwrap();
    proof {
        lemma_inv_unique(f_mul(4, gz@), inv@);
    }
    let tangent = fe_add(&fe_mul(&fe_mul(z, z), &Fe::from_u64(3)), &fe_mul(&four, a));
    let q = fe_mul(&fe_neg(&tangent), &inv);
    if !fe_is_qr(&q) {
        return false;
    }
    let one = Fe::from_u64(1);
    let half = fe_div(&fe_neg(z), &fe_add(&one, &one)).unwrap();
    fe_is_qr(&gz) || fe_is_qr(&weierstrass(a, b, &half))
}

/// The candidates for `Z` that the search tries: `-5..-1` and `1..5`.
pub open spec fn z_candidates() -> Seq<i64> {
    seq![-5i64, -4i64, -3i64, -2i64, -1i64, 1i64, 2i64, 3i64, 4i64, 5i64]
}

/// The first `n` candidates that meet the conditions for `(a, b)`, in order.
pub open spec fn selected_z(a: int, b: int, n: nat) -> Seq<i64>
    decreases n,
{
    if n == 0 {
        Seq::empty()
    } else {
        let z = z_candidates()[n - 1];
        let before = selected_z(a, b, (n - 1) as nat);
        if sw_z_criteria(a, b, z as int % fq_modulus()) {
            before.push(z)
        } else {
            before
        }
    }
}

/// The small integers `Z` among `-5..-1` and `1..5` that meet the conditions
/// of the SW map on `y^2 = x^3 + a * x + b`, in increasing order.
pub fn sw_z_candidates(a: &Fe, b: &Fe) -> (r: Vec<i64>)
    requires
        a.wf(),
        b.wf(),
    ensures
        r@ == selected_z(a@, b@, 10),
{
    let candidates: [i64; 10] = [-5, -4, -3, -2, -1, 1, 2, 3, 4, 5];
    assert(candidates@ =~= z_candidates());
    let mut found: Vec<i64> = Vec::new();
    let mut i: usize = 0;
    while i < 10
        invariant
            i <= 10,
            a.wf(),
            b.wf(),
            candidates@ == z_candidates(),
            found@ == selected_z(a@, b@, i as nat),
        decreases 10 - i,
    {
        let c = candidates[i];
        let z = if c < 0 {
            fe_neg(&Fe::from_u64((-c) as u64))
        } else {
            Fe::from_u64(c as u64)
        };
        assert(z@ == c as int % fq_modulus());
        if meets_sw_z_criteria(a, b, &z) {
            found.push(c);
        }
        i = i + 1;
    }
    found
}

/// A candidate that meets the conditions is among those the search returns.
pub proof fn lemma_selected_z_contains(a: int, b: int, i: int, n: nat)
    requires
        0 <= i < n <= 10,
        sw_z_criteria(a, b, z_candidates()[i] as int % fq_modulus()),
    ensures
        selected_z(a, b, n).contains(z_candidates()[i]),
    decreases n,
{
    if i < n - 1 {
        lemma_selected_z_contains(a, b, i, (n - 1) as nat);
        let before = selected_z(a, b, (n - 1) as nat);
        let k = choose|k: int| 0 <= k < before.len() && before[k] == z_candidates()[i];
        let z = z_candidates()[n - 1];
        if sw_z_criteria(a, b, z as int % fq_modulus()) {
            assert(before.push(z)[k] == z_candidates()[i]);
        }
    } else {
        let before = selected_z(a, b, (n - 1) as nat);
        assert(before.push(z_candidates()[i])[before.len() as int] == z_candidates()[i]);
    }
}

/// The search finds `Z = 1` for secp256k1 (`a = 0`, `b = 7`), and a `Z` for
/// the curve with `a` replaced by the coefficient `A` of the isogenous curve
/// of the SWU maps.
pub proof fn lemma_z_search_finds_candidates()
    ensures
        selected_z(0, 7, 10).contains(1i64),
        selected_z(
            28734576633528757162648956269730739219262246272443394170905244663053633733939int,
            7,
            10,
        ).len() > 0,
{
    lemma_secp256k1_sw_z();
    assert(z_candidates()[5] == 1i64);
    lemma_selected_z_contains(0, 7, 5, 10);
    lemma_isogeny_a_sw_z();
    assert(z_candidates()[7] == 3i64);
    lemma_selected_z_contains(
        28734576633528757162648956269730739219262246272443394170905244663053633733939int,
        7,
        7,
        10,
    );
}

/// The SW map of secp256k1 with `Z = 1` and the domain separation tag
/// `secp256k1_sw`, with all four constants given.
pub struct Secp256K1SWMap;

/// `Z = 1` meets the conditions of the SW map on secp256k1 (`a = 0`, `b = 7`).
pub proof fn lemma_secp256k1_sw_z()
    ensures
        sw_z_criteria(0, 7, 1),
{
    let p = fq_modulus();
    let inv = 61514547407324228818772085785865451047049679353621549645961841504201568419321int;
    assert(weierstrass_rhs(0, 7, 1) == 8);
    assert(f_mul(4, 8) == 32);
    lemma_inv_unique(32, inv);
    let q = 47040536252659704390825712659779462565390931270416479141029643503212964085363int;
    assert(f_add(f_mul(f_sq(1), 3), f_mul(4, 0)) == 3);
    assert(f_mul(f_neg(3), inv) == q);
    let w = 101967376812234543494332452671778406141923406480414602647049640722293978801898int;
    assert(f_sq(w) == q);
    assert(is_square(q));
    let v = 29896722852569046015560700294576055776214335159245303116488692907525646231534int;
    assert(f_sq(v) == 8);
    assert(is_square(8));
}

/// With `a = 0` replaced by the coefficient `A` of the isogenous curve of the
/// SWU maps, `Z = 3` meets the conditions of the SW map.
pub proof fn lemma_isogeny_a_sw_z()
    ensures
        sw_z_criteria(
            28734576633528757162648956269730739219262246272443394170905244663053633733939int,
            7,
            3,
        ),
{
    let a = 28734576633528757162648956269730739219262246272443394170905244663053633733939int;
    let gz = 86203729900586271487946868809192217657786738817330182512715733989160901201851int;
    assert(f_sq(3) == 9);
    assert(f_add(9, a) == 9 + a);
    assert(f_mul(9 + a, 3) == 86203729900586271487946868809192217657786738817330182512715733989160901201844int);
    assert(weierstrass_rhs(a, 7, 3) == gz);
    let four_gz = 113230741127712695104645505219393054924606985938039601971947767940825935464078int;
    assert(f_mul(4, gz) == four_gz);
    let inv = 59151088902663647306631725712086602443775963040258621853039502208591775425420int;
    lemma_inv_unique(four_gz, inv);
    let t = 114938306534115028650595825078922956877048985089773576683620978652214534935783int;
    assert(f_add(f_mul(f_sq(3), 3), f_mul(4, a)) == t);
    let neg_t = 853782703201166772975159929764950976220999575866987355836605355694299735880int;
    assert(f_neg(t) == neg_t);
    let q = 3710463667215710001585777973833904838706132192096136270786756417033425863845int;
    assert(f_mul(neg_t, inv) == q);
    let w = 109687711627875828958789807005223421967002590737452549865984597815786976184620int;
    assert(f_sq(w) == q);
    assert(is_square(q));
    let v = 49979306713697701044358137186789116147031949088031308853126208395829666597020int;
    assert(f_sq(v) == gz);
    assert(is_square(gz));
}

/// The literal constants of the secp256k1 SW map are the ones derived from
/// `Z = 1`: `C1 = g(1) = 8`, `C2 = -1/2`, `C3` the even root of `-24` and
/// `C4 = -32/3`.
pub proof fn lemma_secp256k1_sw_constants()
    ensures
        sw_c1_of(1) == 8,
        sw_c2_of(1) == 57896044618658097711785492504343953926634992332820282019728792003954417335831int,
        f_sq(10388779673325959979325452626823788324994718367665745800388075445979975427086int)
            == sw_c3_radicand(1),
        !parity(10388779673325959979325452626823788324994718367665745800388075445979975427086int),
        sw_c4_of(1) == 77194726158210796949047323339125271902179989777093709359638389338605889781098int,
{
    let p = fq_modulus();
    assert(curve_rhs(1) == 8);
    lemma_inv_unique(2, (p + 1) / 2);
    assert(f_mul(1, (p + 1) / 2) == (p + 1) / 2);
    assert(sw_tangent_term(1) == 3);
    assert(f_neg(8) == p - 8);
    assert(sw_c3_radicand(1) == p - 24);
    let inv3 = 77194726158210796949047323339125271902179989777093709359638389338605889781109int;
    lemma_inv_unique(3, inv3);
    assert(f_mul(f_neg(8), 4) == p - 32);
}

impl HashToCurve for Secp256K1SWMap {
    open spec fn spec_z() -> int {
        1
    }

    open spec fn spec_c3() -> int {
        10388779673325959979325452626823788324994718367665745800388075445979975427086int
    }

    open spec fn spec_dst() -> Seq<u8> {
        seq![115u8, 101, 99, 112, 50, 53, 54, 107, 49, 95, 115, 119]
    }

    proof fn lemma_constants() {
        lemma_secp256k1_sw_constants();
        assert(sw_tangent_term(1) == 3);
    }

    fn z() -> (r: Fe) {
        Fe::from_u64(1)
    }

    fn literal_c1() -> (r: Option<Fe>) {
        proof {
            lemma_secp256k1_sw_constants();
        }
        Some(Fe::from_u64(8))
    }

    fn literal_c2() -> (r: Option<Fe>) {
        proof {
            lemma_secp256k1_sw_constants();
        }
        Some(
            Fe::from_limbs(
                [0xffffffff7ffffe17, 0xffffffffffffffff, 0xffffffffffffffff, 0x7fffffffffffffff],
            ).unwrap(),
        )
    }

    fn literal_c3() -> (r: Option<Fe>) {
        Some(
            Fe::from_limbs(
                [0x63f329176cbaa40e, 0x691a493c5521911e, 0x44017da0bf5aaf80, 0x16f7d7469fd6c8fb],
            ).unwrap(),
        )
    }

    fn literal_c4() -> (r: Option<Fe>) {
        proof {
            lemma_secp256k1_sw_constants();
        }
        Some(
            Fe::from_limbs(
                [0xaaaaaaa9fffffd6a, 0xaaaaaaaaaaaaaaaa, 0xaaaaaaaaaaaaaaaa, 0xaaaaaaaaaaaaaaaa],
            ).unwrap(),
        )
    }

    fn dst() -> (r: Vec<u8>) {
        let r: Vec<u8> = vec![115u8, 101, 99, 112, 50, 53, 54, 107, 49, 95, 115, 119];
        assert(r@ =~= Self::spec_dst());
        r
    }
}

/// The SW map of secp256k1 with `Z = 1` and the domain separation tag
/// `secp256k1`, with no constant given: all four are derived from `Z`.
pub struct Secp256K1DerivedSWMap;

impl HashToCurve for Secp256K1DerivedSWMap {
    open spec fn spec_z() -> int {
        1
    }

    open spec fn spec_c3() -> int {
        10388779673325959979325452626823788324994718367665745800388075445979975427086int
    }

    open spec fn spec_dst() -> Seq<u8> {
        seq![115u8, 101, 99, 112, 50, 53, 54, 107, 49]
    }

    proof fn lemma_constants() {
        lemma_secp256k1_sw_constants();
        assert(sw_tangent_term(1) == 3);
    }

    fn z() -> (r: Fe) {
        Fe::from_u64(1)
    }

    fn literal_c1() -> (r: Option<Fe>) {
        None
    }

    fn literal_c2() -> (r: Option<Fe>) {
        None
    }

    fn literal_c3() -> (r: Option<Fe>) {
        None
    }

    fn literal_c4() -> (r: Option<Fe>) {
        None
    }

    fn dst() -> (r: Vec<u8>) {
        let r: Vec<u8> = vec![115u8, 101, 99, 112, 50, 53, 54, 107, 49];
        assert(r@ =~= Self::spec_dst());
        r
    }
}

} // verus!
