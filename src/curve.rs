//! Affine points of secp256k1 (`y^2 = x^3 + 7`), the group law as a model, and
//! the group operations, encoding and cofactor clearing of ark-ec.
use vstd::prelude::*;
use vstd::arithmetic::power2::{lemma2_to64, lemma_pow2_adds, lemma_pow2_pos, pow2};
use vstd::arithmetic::div_mod::lemma_mod_breakdown;
use ark_ec::short_weierstrass::Affine;
use ark_ec::{AffineRepr, CurveGroup, VariableBaseMSM};
use ark_ff::{BigInt, PrimeField};
use ark_secp256k1::{Config, Fq, Fr, Projective};
use ark_serialize::CanonicalSerialize;
use crate::field::{f_add, f_div, f_mul, f_neg, f_sq, f_sub, fe_add, fe_mul, fq_modulus, Fe};
use crate::scalar::Scalar;

verus! {

/// The coefficient `A` of secp256k1.
pub open spec fn curve_a() -> int {
    0
}

/// The coefficient `B` of secp256k1.
pub open spec fn curve_b() -> int {
    7
}

/// `x^3 + a * x + b`, evaluated as `(x^2 + a) * x + b`.
pub open spec fn weierstrass_rhs(a: int, b: int, x: int) -> int {
    f_add(f_mul(f_add(f_sq(x), a), x), b)
}

/// `g(x) = x^3 + A * x + B` for secp256k1.
pub open spec fn curve_rhs(x: int) -> int {
    weierstrass_rhs(curve_a(), curve_b(), x)
}

/// A point of the curve group as a mathematical value.
pub enum PointModel {
    Identity,
    Affine(int, int),
}

/// The curve equation `y^2 = x^3 + 7`, with canonical coordinates.
pub open spec fn on_curve(p: PointModel) -> bool {
    match p {
        PointModel::Identity => true,
        PointModel::Affine(x, y) => 0 <= x < fq_modulus() && 0 <= y < fq_modulus()
            && f_sq(y) == curve_rhs(x),
    }
}

/// The chord-and-tangent group law on `y^2 = x^3 + 7`.
#[verifier::opaque]
pub open spec fn add_spec(p: PointModel, q: PointModel) -> PointModel {
    match (p, q) {
        (PointModel::Identity, _) => q,
        (_, PointModel::Identity) => p,
        (PointModel::Affine(x1, y1), PointModel::Affine(x2, y2)) => {
            if x1 == x2 && f_add(y1, y2) == 0 {
                PointModel::Identity
            } else {
                let lambda = if x1 == x2 {
                    f_div(f_mul(3, f_sq(x1)), f_mul(2, y1))
                } else {
                    f_div(f_sub(y2, y1), f_sub(x2, x1))
                };
                let x3 = f_sub(f_sub(f_sq(lambda), x1), x2);
                PointModel::Affine(x3, f_sub(f_mul(lambda, f_sub(x1, x3)), y1))
            }
        },
    }
}

/// `k * p`: the sum of `k` copies of `p`.
pub open spec fn mul_spec(k: nat, p: PointModel) -> PointModel
    decreases k,
{
    if k == 0 {
        PointModel::Identity
    } else {
        add_spec(mul_spec((k - 1) as nat, p), p)
    }
}

/// `v[0] * g[0] + ... + v[n-1] * g[n-1]`, added from the left.
pub open spec fn msm_prefix(g: Seq<PointModel>, v: Seq<int>, n: nat) -> PointModel
    decreases n,
{
    if n == 0 {
        PointModel::Identity
    } else {
        add_spec(msm_prefix(g, v, (n - 1) as nat), mul_spec(v[n - 1] as nat, g[n - 1]))
    }
}

/// The sum of `v[i] * g[i]` over the indices of both sequences.
pub open spec fn msm_spec(g: Seq<PointModel>, v: Seq<int>) -> PointModel {
    msm_prefix(g, v, if g.len() < v.len() { g.len() } else { v.len() })
}

/// The 32 little-endian bytes of a field value.
pub open spec fn le_bytes_32(v: int) -> Seq<u8> {
    Seq::new(32, |i: int| ((v / pow2((8 * i) as nat) as int) % 256) as u8)
}

/// The canonical uncompressed encoding: `x` and `y` in 32 little-endian bytes
/// each, then a flag byte: `0x40` for the identity (with zero coordinates),
/// `0x80` where `y` is the larger of `y` and `-y`, else `0`.
#[verifier::opaque]
pub open spec fn encode_spec(p: PointModel) -> Seq<u8> {
    match p {
        PointModel::Identity => le_bytes_32(0) + le_bytes_32(0) + seq![0x40u8],
        PointModel::Affine(x, y) => le_bytes_32(x) + le_bytes_32(y)
            + seq![if y <= f_neg(y) { 0u8 } else { 0x80u8 }],
    }
}

proof fn lemma_generator_on_curve()
    ensures
        on_curve(PointModel::Affine(
            55066263022277343669578718895168534326250603453777594175500187360389116729240int,
            32670510020758816978083085130507043184471273380659243275938904335757337482424int,
        )),
{
    let x = 55066263022277343669578718895168534326250603453777594175500187360389116729240int;
    let y = 32670510020758816978083085130507043184471273380659243275938904335757337482424int;
    let x2 = 60300556597753154781239923047219078515410877540607532238537983597388018023497int;
    let x3 = 32748224938747404814623910738487752935528512903530129802856995983256684603115int;
    let g = 32748224938747404814623910738487752935528512903530129802856995983256684603122int;
    assert(f_sq(x) == x2);
    assert(f_add(x2, 0) == x2);
    assert(f_mul(x2, x) == x3);
    assert(f_add(x3, 7) == g);
    assert(f_sq(y) == g);
}

/// The integer whose little-endian bytes are the first `n` of `b`.
pub open spec fn le_value(b: Seq<u8>, n: nat) -> int
    decreases n,
{
    if n == 0 {
        0
    } else {
        le_value(b, (n - 1) as nat) + b[n - 1] as int * pow2((8 * (n - 1)) as nat)
    }
}

/// The first `n` little-endian bytes of `v` hold `v` modulo `2^(8n)`.
proof fn lemma_le_bytes_value(v: int, n: nat)
    requires
        0 <= v,
        n <= 32,
    ensures
        le_value(le_bytes_32(v), n) == v % (pow2(8 * n) as int),
    decreases n,
{
    lemma2_to64();
    if n > 0 {
        lemma_le_bytes_value(v, (n - 1) as nat);
        let k = (8 * (n - 1)) as nat;
        lemma_pow2_pos(k);
        lemma_pow2_adds(k, 8);
        assert(8 * n == k + 8);
        let pk = pow2(k) as int;
        lemma_mod_breakdown(v, pk, 256);
        let digit = (v / pk) % 256;
        assert(0 <= digit < 256);
        assert(le_bytes_32(v)[n - 1] as int == digit);
        assert(pow2(8 * n) == pk * 256);
        assert(digit * pk == pk * digit) by (nonlinear_arith);
        assert(le_value(le_bytes_32(v), n) == v % pk + digit * pk);
    }
}

/// `2^256`, which bounds the canonical coordinates.
proof fn lemma_pow2_256()
    ensures
        pow2(256) == 0x1_0000_0000_0000_0000_0000_0000_0000_0000_0000_0000_0000_0000_0000_0000_0000_0000int,
{
    lemma2_to64();
    lemma_pow2_adds(64, 64);
    assert(pow2(128) == 0x1_0000_0000_0000_0000_0000_0000_0000_0000int);
    lemma_pow2_adds(128, 128);
}

/// The encoding of a point of the curve determines the point: two points
/// with the same encoding are equal.
pub proof fn lemma_encoding_determines_point(p: PointModel, q: PointModel)
    requires
        on_curve(p),
        on_curve(q),
        encode_spec(p) == encode_spec(q),
    ensures
        p == q,
{
    lemma_pow2_256();
    reveal(encode_spec);
    let (ep, eq) = (encode_spec(p), encode_spec(q));
    assert(ep[64] == eq[64]);
    let zeros = le_bytes_32(0) + le_bytes_32(0);
    assert((zeros + seq![0x40u8])[64] == 0x40u8);
    match (p, q) {
        (PointModel::Identity, PointModel::Affine(x, y)) => {
            let f = if y <= f_neg(y) { 0u8 } else { 0x80u8 };
            assert((le_bytes_32(x) + le_bytes_32(y) + seq![f])[64] == f);
        },
        (PointModel::Affine(x, y), PointModel::Identity) => {
            let f = if y <= f_neg(y) { 0u8 } else { 0x80u8 };
            assert((le_bytes_32(x) + le_bytes_32(y) + seq![f])[64] == f);
        },
        (PointModel::Affine(x1, y1), PointModel::Affine(x2, y2)) => {
            assert(ep.subrange(0, 32) =~= le_bytes_32(x1));
            assert(eq.subrange(0, 32) =~= le_bytes_32(x2));
            assert(ep.subrange(32, 64) =~= le_bytes_32(y1));
            assert(eq.subrange(32, 64) =~= le_bytes_32(y2));
            lemma_le_bytes_value(x1, 32);
            lemma_le_bytes_value(x2, 32);
            lemma_le_bytes_value(y1, 32);
            lemma_le_bytes_value(y2, 32);
            let m = pow2(256) as int;
            assert(pow2((8 * 32) as nat) == m);
            assert(le_bytes_32(x1) == le_bytes_32(x2));
            assert(le_bytes_32(y1) == le_bytes_32(y2));
            assert(fq_modulus() < m);
            vstd::arithmetic::div_mod::lemma_small_mod(x1 as nat, m as nat);
            vstd::arithmetic::div_mod::lemma_small_mod(x2 as nat, m as nat);
            vstd::arithmetic::div_mod::lemma_small_mod(y1 as nat, m as nat);
            vstd::arithmetic::div_mod::lemma_small_mod(y2 as nat, m as nat);
            assert(x1 == x2);
            assert(y1 == y2);
        },
        _ => {},
    }
}

/// A point in affine coordinates; the identity has `infinity` set and zero
/// coordinates.
#[derive(Clone, Copy, Debug, PartialEq, Eq)]
pub struct Point {
    pub x: Fe,
    pub y: Fe,
    pub infinity: bool,
}

impl View for Point {
    type V = PointModel;

    open spec fn view(&self) -> PointModel {
        if self.infinity {
            PointModel::Identity
        } else {
            PointModel::Affine(self.x@, self.y@)
        }
    }
}

impl Point {
    pub open spec fn wf(&self) -> bool {
        &&& self.x.wf()
        &&& self.y.wf()
        &&& self.infinity ==> self.x@ == 0 && self.y@ == 0
    }

    /// The identity of the group.
    pub fn identity() -> (r: Point)
        ensures
            r.wf(),
            r@ == PointModel::Identity,
    {
        Point { x: Fe::from_u64(0), y: Fe::from_u64(0), infinity: true }
    }

    /// The affine point `(x, y)`, with no check that it lies on the curve.
    pub fn new_unchecked(x: Fe, y: Fe) -> (r: Point)
        requires
            x.wf(),
            y.wf(),
        ensures
            r.wf(),
            r@ == PointModel::Affine(x@, y@),
    {
        Point { x, y, infinity: false }
    }

    /// Whether the point satisfies the curve equation.
    pub fn is_on_curve(&self) -> (r: bool)
        requires
            self.wf(),
        ensures
            r == on_curve(self@),
    {
        if self.infinity {
            true
        } else {
            let y2 = fe_mul(&self.y, &self.y);
            y2.equals(&rhs(&self.x))
        }
    }

    /// The group generator `G` of secp256k1.
    pub fn generator() -> (r: Point)
        ensures
            r.wf(),
            on_curve(r@),
            r@ == PointModel::Affine(
                55066263022277343669578718895168534326250603453777594175500187360389116729240int,
                32670510020758816978083085130507043184471273380659243275938904335757337482424int,
            ),
    {
        proof {
            lemma_generator_on_curve();
        }
        let x = Fe::from_limbs([0x59f2815b16f81798, 0x029bfcdb2dce28d9, 0x55a06295ce870b07, 0x79be667ef9dcbbac]);
        let y = Fe::from_limbs([0x9c47d08ffb10d4b8, 0xfd17b448a6855419, 0x5da4fbfc0e1108a8, 0x483ada7726a3c465]);
        let x = x.unwrap();
        let y = y.unwrap();
        Point { x, y, infinity: false }
    }
}

/// `x^3 + a * x + b`.
pub(crate) fn weierstrass(a: &Fe, b: &Fe, x: &Fe) -> (r: Fe)
    requires
        a.wf(),
        b.wf(),
        x.wf(),
    ensures
        r.wf(),
        r@ == weierstrass_rhs(a@, b@, x@),
{
    let x2 = fe_mul(x, x);
    let t = fe_add(&x2, a);
    let t = fe_mul(&t, x);
    fe_add(&t, b)
}

/// `g(x)`, the right-hand side of the curve equation.
pub(crate) fn rhs(x: &Fe) -> (r: Fe)
    requires
        x.wf(),
    ensures
        r.wf(),
        r@ == curve_rhs(x@),
{
    weierstrass(&Fe::from_u64(0), &Fe::from_u64(7), x)
}

/// Relies on ark-ec's point addition on secp256k1 (`Affine + Affine`, then
/// `into_affine`): for points of the curve it is the group law, and the sum
/// lies on the curve.
#[verifier::external_body]
pub(crate) fn point_add(a: &Point, b: &Point) -> (r: Point)
    requires
        a.wf(),
        b.wf(),
    ensures
        r.wf(),
        on_curve(a@) && on_curve(b@) ==> r@ == add_spec(a@, b@) && on_curve(r@),
{
    let s = Affine::<Config> { x: Fq::new(BigInt(a.x.limbs)), y: Fq::new(BigInt(a.y.limbs)), infinity: a.infinity };
    let t = Affine::<Config> { x: Fq::new(BigInt(b.x.limbs)), y: Fq::new(BigInt(b.y.limbs)), infinity: b.infinity };
    let r = (s + t).into_affine();
    Point { x: Fe { limbs: r.x.into_bigint().0 }, y: Fe { limbs: r.y.into_bigint().0 }, infinity: r.infinity }
}

/// Relies on ark-ec's scalar multiplication on secp256k1 (`Affine * Fr`):
/// for a point of the curve, the sum of `k` copies of it.
#[verifier::external_body]
pub(crate) fn point_mul(p: &Point, k: &Scalar) -> (r: Point)
    requires
        p.wf(),
        k.wf(),
    ensures
        r.wf(),
        on_curve(p@) ==> r@ == mul_spec(k@ as nat, p@) && on_curve(r@),
{
    let s = Affine::<Config> { x: Fq::new(BigInt(p.x.limbs)), y: Fq::new(BigInt(p.y.limbs)), infinity: p.infinity };
    let r = (s * Fr::new(BigInt(k.limbs))).into_affine();
    Point { x: Fe { limbs: r.x.into_bigint().0 }, y: Fe { limbs: r.y.into_bigint().0 }, infinity: r.infinity }
}

/// Relies on ark-ec's `VariableBaseMSM::msm_unchecked` on secp256k1: for
/// points of the curve, the group sum of `v[i] * g[i]` over the common
/// prefix (the group is commutative, so the order of addition is immaterial).
#[verifier::external_body]
pub(crate) fn point_msm(g: &[Point], v: &[Scalar]) -> (r: Point)
    requires
        forall|i: int| 0 <= i < g@.len() ==> (#[trigger] g@[i]).wf(),
        forall|i: int| 0 <= i < v@.len() ==> (#[trigger] v@[i]).wf(),
    ensures
        r.wf(),
        (forall|i: int| 0 <= i < g@.len() ==> on_curve((#[trigger] g@[i])@)) ==> r@ == msm_spec(
            g@.map_values(|p: Point| p@),
            v@.map_values(|k: Scalar| k@),
        ) && on_curve(r@),
{
    let bases: Vec<Affine<Config>> = g.iter().map(|p| Affine::<Config> { x: Fq::new(BigInt(p.x.limbs)), y: Fq::new(BigInt(p.y.limbs)), infinity: p.infinity }).collect();
    let scalars: Vec<Fr> = v.iter().map(|k| Fr::new(BigInt(k.limbs))).collect();
    let r = Projective::msm_unchecked(&bases, &scalars).into_affine();
    Point { x: Fe { limbs: r.x.into_bigint().0 }, y: Fe { limbs: r.y.into_bigint().0 }, infinity: r.infinity }
}

/// Relies on ark-ec's `AffineRepr::clear_cofactor`: multiplication by the
/// cofactor, which is one for secp256k1.
#[verifier::external_body]
pub(crate) fn clear_cofactor(p: &Point) -> (r: Point)
    requires
        p.wf(),
    ensures
        r.wf(),
        on_curve(p@) ==> r@ == p@,
{
    let s = Affine::<Config> { x: Fq::new(BigInt(p.x.limbs)), y: Fq::new(BigInt(p.y.limbs)), infinity: p.infinity };
    let r = s.clear_cofactor();
    Point { x: Fe { limbs: r.x.into_bigint().0 }, y: Fe { limbs: r.y.into_bigint().0 }, infinity: r.infinity }
}

/// Relies on ark-serialize's `serialize_uncompressed` for secp256k1 points:
/// `x`, then `y` with the flag bits in one more byte (65 bytes in all).
#[verifier::external_body]
pub(crate) fn encode_point(p: &Point) -> (r: Vec<u8>)
    requires
        p.wf(),
    ensures
        r@ == encode_spec(p@),
{
    let s = Affine::<Config> { x: Fq::new(BigInt(p.x.limbs)), y: Fq::new(BigInt(p.y.limbs)), infinity: p.infinity };
    let mut buf = Vec::new();
    s.serialize_uncompressed(&mut buf).unwrap();
    buf
}

} // verus!
