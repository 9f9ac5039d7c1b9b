//! Elements of the secp256k1 base field, held as canonical limbs, with the
//! field operations of ark-ff behind small wrappers.
use vstd::prelude::*;
use vstd::arithmetic::power::pow;
use vstd::arithmetic::div_mod::{lemma_mul_mod_noop_left, lemma_mul_mod_noop_right, lemma_mul_mod_noop_general};
use ark_ff::{BigInt, Field, PrimeField};
use ark_secp256k1::Fq;
use crate::limbs::{lemma_limbs_value_bounds, limbs_eq, limbs_is_odd, limbs_lt, limbs_value};

verus! {

/// The prime `p = 2^256 - 2^32 - 977` of the secp256k1 base field.
pub open spec fn fq_modulus() -> int {
    115792089237316195423570985008687907853269984665640564039457584007908834671663int
}

pub open spec fn f_add(a: int, b: int) -> int {
    (a + b) % fq_modulus()
}

pub open spec fn f_sub(a: int, b: int) -> int {
    (a - b) % fq_modulus()
}

pub open spec fn f_mul(a: int, b: int) -> int {
    (a * b) % fq_modulus()
}

pub open spec fn f_neg(a: int) -> int {
    (-a) % fq_modulus()
}

pub open spec fn f_sq(a: int) -> int {
    f_mul(a, a)
}

pub open spec fn f_cube(a: int) -> int {
    f_mul(f_sq(a), a)
}

/// `a` has a square root in the field (zero included).
pub open spec fn is_square(a: int) -> bool {
    exists|w: int| 0 <= w < fq_modulus() && #[trigger] f_sq(w) == a
}

/// `a` is a non-zero square: the Legendre symbol of `a` is one.
pub open spec fn is_qr(a: int) -> bool {
    a != 0 && is_square(a)
}

/// The multiplicative inverse of `a`, where it has one.
pub open spec fn f_inv(a: int) -> int {
    choose|b: int| 0 <= b < fq_modulus() && #[trigger] f_mul(a, b) == 1
}

/// `a / b` in the field.
pub open spec fn f_div(a: int, b: int) -> int {
    f_mul(a, f_inv(b))
}

/// The sign of a field value: the lowest bit of its canonical integer.
pub open spec fn parity(a: int) -> bool {
    a % 2 == 1
}

/// The square root of `a` whose parity is `odd`.
pub open spec fn root_with_parity(a: int, odd: bool) -> int {
    choose|w: int| 0 <= w < fq_modulus() && #[trigger] f_sq(w) == a && parity(w) == odd
}

/// The square roots of `a` are `b` and `-b` and no others.
pub open spec fn roots_are(a: int, b: int) -> bool {
    forall|w: int| 0 <= w < fq_modulus() && #[trigger] f_sq(w) == a ==> w == b || w == f_neg(b)
}

/// The square root of `a` whose parity is `odd`; zero for zero.
pub open spec fn signed_root(a: int, odd: bool) -> int {
    if a == 0 {
        0
    } else {
        root_with_parity(a, odd)
    }
}

/// A base field element.
#[derive(Clone, Copy, Debug, PartialEq, Eq)]
pub struct Fe {
    pub(crate) limbs: [u64; 4],
}

impl View for Fe {
    type V = int;

    closed spec fn view(&self) -> int {
        limbs_value(self.limbs)
    }
}

impl Fe {
    /// The limbs hold the canonical representative, below the modulus.
    pub open spec fn wf(&self) -> bool {
        0 <= self@ < fq_modulus()
    }

    /// The element whose canonical integer has these little-endian limbs, if
    /// that integer is below the modulus.
    pub fn from_limbs(limbs: [u64; 4]) -> (r: Option<Fe>)
        ensures
            r matches Some(e) ==> e.wf() && e@ == limbs_value(limbs),
            r is Some <==> limbs_value(limbs) < fq_modulus(),
    {
        let m: [u64; 4] = [0xfffffffefffffc2f, 0xffffffffffffffff, 0xffffffffffffffff, 0xffffffffffffffff];
        assert(limbs_value(m) == fq_modulus());
        proof {
            lemma_limbs_value_bounds(limbs);
        }
        if limbs_lt(&limbs, &m) {
            Some(Fe { limbs })
        } else {
            None
        }
    }

    /// The little-endian limbs of the canonical integer.
    pub fn limbs(&self) -> (r: [u64; 4])
        ensures
            limbs_value(r) == self@,
    {
        self.limbs
    }

    /// The element with a small integer value.
    pub fn from_u64(v: u64) -> (r: Fe)
        ensures
            r.wf(),
            r@ == v,
    {
        Fe { limbs: [v, 0, 0, 0] }
    }

    /// Whether the two elements are equal.
    pub fn equals(&self, other: &Fe) -> (r: bool)
        ensures
            r == (self@ == other@),
    {
        limbs_eq(&self.limbs, &other.limbs)
    }

    pub fn is_zero(&self) -> (r: bool)
        ensures
            r == (self@ == 0),
    {
        limbs_eq(&self.limbs, &[0, 0, 0, 0])
    }

    pub fn is_one(&self) -> (r: bool)
        ensures
            r == (self@ == 1),
    {
        limbs_eq(&self.limbs, &[1, 0, 0, 0])
    }

    /// The sign of the element (sgn0): the lowest bit of its canonical integer.
    pub fn parity(&self) -> (r: bool)
        ensures
            r == parity(self@),
    {
        limbs_is_odd(&self.limbs)
    }
}

/// Relies on ark-ff's addition in the secp256k1 base field.
#[verifier::external_body]
pub(crate) fn fe_add(a: &Fe, b: &Fe) -> (r: Fe)
    requires
        a.wf(),
        b.wf(),
    ensures
        r.wf(),
        r@ == f_add(a@, b@),
{
    Fe { limbs: (Fq::new(BigInt(a.limbs)) + Fq::new(BigInt(b.limbs))).into_bigint().0 }
}

/// Relies on ark-ff's subtraction in the secp256k1 base field.
#[verifier::external_body]
pub(crate) fn fe_sub(a: &Fe, b: &Fe) -> (r: Fe)
    requires
        a.wf(),
        b.wf(),
    ensures
        r.wf(),
        r@ == f_sub(a@, b@),
{
    Fe { limbs: (Fq::new(BigInt(a.limbs)) - Fq::new(BigInt(b.limbs))).into_bigint().0 }
}

/// Relies on ark-ff's multiplication in the secp256k1 base field.
#[verifier::external_body]
pub(crate) fn fe_mul(a: &Fe, b: &Fe) -> (r: Fe)
    requires
        a.wf(),
        b.wf(),
    ensures
        r.wf(),
        r@ == f_mul(a@, b@),
{
    Fe { limbs: (Fq::new(BigInt(a.limbs)) * Fq::new(BigInt(b.limbs))).into_bigint().0 }
}

/// Relies on ark-ff's negation in the secp256k1 base field.
#[verifier::external_body]
pub(crate) fn fe_neg(a: &Fe) -> (r: Fe)
    requires
        a.wf(),
    ensures
        r.wf(),
        r@ == f_neg(a@),
{
    Fe { limbs: (-Fq::new(BigInt(a.limbs))).into_bigint().0 }
}

/// Relies on ark-ff's `Field::inverse`: `None` exactly for zero, as the
/// modulus is prime.
#[verifier::external_body]
pub(crate) fn fe_inverse(a: &Fe) -> (r: Option<Fe>)
    requires
        a.wf(),
    ensures
        r is Some <==> a@ != 0,
        r matches Some(b) ==> b.wf() && f_mul(a@, b@) == 1,
{
    Fq::new(BigInt(a.limbs)).inverse().map(|b| Fe { limbs: b.into_bigint().0 })
}

/// The square root that ark-ff's `Field::sqrt` computes for a square `a`
/// (the modulus is 3 mod 4): `a^((p + 1) / 4) mod p`.
pub open spec fn fq_sqrt_spec(a: int) -> int {
    pow(a, ((fq_modulus() + 1) / 4) as nat) % fq_modulus()
}

/// Relies on ark-ff's `Field::sqrt` (the case of a modulus 3 mod 4): a root
/// exactly for squares, namely `a^((p + 1) / 4)`, and in a prime field the
/// only roots of `a` are the one returned and its negation.
#[verifier::external_body]
pub(crate) fn fe_sqrt(a: &Fe) -> (r: Option<Fe>)
    requires
        a.wf(),
    ensures
        r is Some <==> is_square(a@),
        r matches Some(b) ==> b.wf() && f_sq(b@) == a@ && b@ == fq_sqrt_spec(a@),
        r matches Some(b) ==> forall|w: int|
            0 <= w < fq_modulus() && #[trigger] f_sq(w) == a@ ==> w == b@ || w == f_neg(b@),
{
    Fq::new(BigInt(a.limbs)).sqrt().map(|b| Fe { limbs: b.into_bigint().0 })
}

/// Relies on ark-ff's `Field::legendre`: a quadratic residue exactly for the
/// non-zero squares (Euler's criterion).
#[verifier::external_body]
pub(crate) fn fe_is_qr(a: &Fe) -> (r: bool)
    requires
        a.wf(),
    ensures
        r == is_qr(a@),
{
    Fq::new(BigInt(a.limbs)).legendre().is_qr()
}

/// `b` is the only inverse of `a`.
pub proof fn lemma_inv_unique(a: int, b: int)
    requires
        0 <= b < fq_modulus(),
        f_mul(a, b) == 1,
    ensures
        f_inv(a) == b,
{
    let p = fq_modulus();
    let c = f_inv(a);
    assert(0 <= c < p && f_mul(a, c) == 1);
    lemma_mul_mod_noop_right(b, a * c, p);
    assert(b * (a * c) == (b * a) * c) by (nonlinear_arith);
    lemma_mul_mod_noop_left(b * a, c, p);
    assert(b * a == a * b) by (nonlinear_arith);
    assert((b * 1) % p == b);
    assert((1 * c) % p == c);
}

/// A value and its negation have the same square.
pub proof fn lemma_sq_neg(b: int)
    ensures
        f_sq(f_neg(b)) == f_sq(b),
{
    let p = fq_modulus();
    lemma_mul_mod_noop_general(-b, -b, p);
    assert((-b) * (-b) == b * b) by (nonlinear_arith);
}

/// Negation flips the parity of a non-zero value (the modulus is odd).
pub proof fn lemma_neg_parity(b: int)
    requires
        0 < b < fq_modulus(),
    ensures
        0 < f_neg(b) < fq_modulus(),
        parity(f_neg(b)) != parity(b),
{
    assert(f_neg(b) == fq_modulus() - b);
}

/// The square of zero is zero.
pub proof fn lemma_sq_zero()
    ensures
        f_sq(0) == 0,
{
}

/// `a / b` in the field; `None` where `b` is zero.
pub(crate) fn fe_div(a: &Fe, b: &Fe) -> (r: Option<Fe>)
    requires
        a.wf(),
        b.wf(),
    ensures
        r is Some <==> b@ != 0,
        r matches Some(q) ==> q.wf() && q@ == f_div(a@, b@),
{
    match fe_inverse(b) {
        Some(inv) => {
            proof {
                lemma_inv_unique(b@, inv@);
            }
            Some(fe_mul(a, &inv))
        },
        None => None,
    }
}

/// Of `y` and `-y`, the one whose parity is `odd` (zero stays zero), where
/// these two are all the square roots of `y^2`.
pub(crate) fn align_parity(y: &Fe, odd: bool) -> (r: Fe)
    requires
        y.wf(),
        roots_are(f_sq(y@), y@),
    ensures
        r.wf(),
        r@ == signed_root(f_sq(y@), odd),
        f_sq(r@) == f_sq(y@),
        parity(r@) == odd || r@ == 0,
{
    proof {
        lemma_sq_zero();
        lemma_sq_neg(y@);
        if y@ != 0 {
            lemma_neg_parity(y@);
        }
        assert(f_neg(0) == 0);
    }
    let r = if y.parity() != odd {
        fe_neg(y)
    } else {
        *y
    };
    proof {
        let a = f_sq(y@);
        if a == 0 {
            assert(0 <= 0 < fq_modulus() && f_sq(0) == a);
        } else {
            let w = root_with_parity(a, odd);
            assert(0 <= r@ < fq_modulus() && f_sq(r@) == a && parity(r@) == odd);
            assert(0 <= w < fq_modulus() && f_sq(w) == a && parity(w) == odd);
            assert(w == y@ || w == f_neg(y@));
        }
    }
    r
}

/// The square root of a non-zero square `a` whose parity is `odd`.
pub(crate) fn sqrt_with_parity(a: &Fe, odd: bool) -> (r: Fe)
    requires
        a.wf(),
        is_qr(a@),
    ensures
        r.wf(),
        r@ == root_with_parity(a@, odd),
        f_sq(r@) == a@,
        parity(r@) == odd,
{
    let y = fe_sqrt(a).unwrap();
    proof {
        lemma_sq_zero();
        lemma_sq_neg(y@);
        lemma_neg_parity(y@);
    }
    let r = if y.parity() != odd {
        fe_neg(&y)
    } else {
        y
    };
    proof {
        let w = root_with_parity(a@, odd);
        assert(0 <= r@ < fq_modulus() && f_sq(r@) == a@ && parity(r@) == odd);
        assert(0 <= w < fq_modulus() && f_sq(w) == a@ && parity(w) == odd);
        assert(w == y@ || w == f_neg(y@));
    }
    r
}

} // verus!
