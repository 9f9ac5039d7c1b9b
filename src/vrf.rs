//! A verifiable random function: a Chaum–Pedersen proof that the discrete
//! logarithm of the public key to the base `G` equals that of the output
//! `gamma` to the base `h`, the hash of the key and the seed to the curve.
use vstd::prelude::*;
use vstd::slice::slice_to_vec;
use crate::curve::{add_spec, encode_point, encode_spec, mul_spec, on_curve, point_add, point_mul, Point, PointModel};
use crate::error::Error;
use crate::hash_field::{hash_to_scalar, hash_to_scalar_of};
use crate::scalar::{group_order, scalar_mul, scalar_sub, Scalar};
use crate::sw_map::{hash_with_map, sw_map_spec, HashToCurve};

verus! {

/// The generator `G` of secp256k1.
pub open spec fn generator_model() -> PointModel {
    PointModel::Affine(
        55066263022277343669578718895168534326250603453777594175500187360389116729240int,
        32670510020758816978083085130507043184471273380659243275938904335757337482424int,
    )
}

/// The domain separation tag of the challenge hash: `sha256_dst`.
pub open spec fn challenge_dst() -> Seq<u8> {
    seq![115u8, 104, 97, 50, 53, 54, 95, 100, 115, 116]
}

/// The point that the map `H` hashes the encoded public key and the seed to.
pub open spec fn vrf_base<H: HashToCurve>(pk: PointModel, seed: Seq<u8>) -> Option<PointModel> {
    hash_with_map(
        |u: int| sw_map_spec(H::spec_z(), H::spec_c3(), u),
        encode_spec(pk) + seed,
        H::spec_dst(),
    )
}

/// The challenge: the scalar hashed from `pk || seed || h || gamma || u || v`.
pub open spec fn challenge_spec(
    pk: PointModel,
    seed: Seq<u8>,
    h: PointModel,
    gamma: PointModel,
    u: PointModel,
    v: PointModel,
) -> int {
    hash_to_scalar_of(
        encode_spec(pk) + seed + encode_spec(h) + encode_spec(gamma) + encode_spec(u) + encode_spec(v),
        challenge_dst(),
    )
}

/// Whether `(gamma, c, s)` is accepted for `pk` and `seed` with the map `H`:
/// both points lie on the curve, the seed hashes to some `h`, and the
/// challenge recomputed from `u = c * pk + s * G` and `v = c * gamma + s * h`
/// is `c`.
pub open spec fn verify_spec<H: HashToCurve>(
    pk: PointModel,
    gamma: PointModel,
    c: int,
    s: int,
    seed: Seq<u8>,
) -> bool {
    on_curve(pk) && on_curve(gamma) && match vrf_base::<H>(pk, seed) {
        Some(h) => {
            let u = add_spec(mul_spec(c as nat, pk), mul_spec(s as nat, generator_model()));
            let v = add_spec(mul_spec(c as nat, gamma), mul_spec(s as nat, h));
            challenge_spec(pk, seed, h, gamma, u, v) == c
        },
        None => false,
    }
}

/// The response `s = r - c * sk` modulo the group order.
#[verifier::opaque]
pub open spec fn response_spec(r: int, c: int, sk: int) -> int {
    (r - c * sk) % group_order()
}

/// `r - (c * sk mod n)` reduces to the response.
proof fn lemma_response(r: int, c: int, sk: int)
    requires
        0 <= r < group_order(),
    ensures
        (r - (c * sk) % group_order()) % group_order() == response_spec(r, c, sk),
{
    reveal(response_spec);
    vstd::arithmetic::div_mod::lemma_sub_mod_noop(r, c * sk, group_order());
}

/// The proof for secret key `sk` (public key `pk`), `seed` and nonce `r`:
/// with `h` the point the map hashes `pk || seed` to, `gamma = sk * h`, the
/// challenge `c` of `u = r * G` and `v = r * h`, and `s = r - c * sk`;
/// `None` where hashing to the curve fails.
pub open spec fn prove_spec<H: HashToCurve>(
    sk: int,
    pk: PointModel,
    seed: Seq<u8>,
    r: int,
) -> Option<(PointModel, int, int)> {
    match vrf_base::<H>(pk, seed) {
        Some(h) => {
            let gamma = mul_spec(sk as nat, h);
            let u = mul_spec(r as nat, generator_model());
            let v = mul_spec(r as nat, h);
            let c = challenge_spec(pk, seed, h, gamma, u, v);
            Some((gamma, c, response_spec(r, c, sk)))
        },
        None => None,
    }
}

/// A secret scalar and its public point `sk * G`.
#[derive(Clone, Copy, Debug)]
pub struct KeyPair {
    pub private_key: Scalar,
    pub public_key: Point,
}

/// A proof: the output `gamma`, the challenge `c`, the response `s` and the seed.
#[derive(Clone, Debug)]
pub struct VRFProof {
    pub gamma: Point,
    pub c: Scalar,
    pub s: Scalar,
    pub seed: Vec<u8>,
}

impl KeyPair {
    pub open spec fn wf(&self) -> bool {
        &&& self.private_key.wf()
        &&& self.public_key.wf()
        &&& self.public_key@ == mul_spec(self.private_key@ as nat, generator_model())
        &&& on_curve(self.public_key@)
    }

    /// The key pair of a secret scalar (drawn uniformly by the caller).
    pub fn new(private_key: Scalar) -> (r: KeyPair)
        requires
            private_key.wf(),
        ensures
            r.wf(),
            r.private_key == private_key,
    {
        let public_key = point_mul(&Point::generator(), &private_key);
        KeyPair { private_key, public_key }
    }

    /// The challenge scalar hashed from a transcript.
    fn hash_to_field(msg: &[u8]) -> (r: Scalar)
        ensures
            r.wf(),
            r@ == hash_to_scalar_of(msg@, challenge_dst()),
    {
        let dst: Vec<u8> = vec![115u8, 104, 97, 50, 53, 54, 95, 100, 115, 116];
        assert(dst@ =~= challenge_dst());
        hash_to_scalar(msg, dst.as_slice())
    }

    /// Proves the output for `seed` with the nonce `r` (drawn uniformly by the
    /// caller): `h = H(pk || seed)`, `gamma = sk * h`, `c` the challenge of
    /// `u = r * G` and `v = r * h`, and `s = r - c * sk`. Fails where hashing
    /// to the curve fails.
    pub fn vrf<H: HashToCurve>(&self, seed: &[u8], r: &Scalar) -> (res: Result<VRFProof, Error>)
        requires
            self.wf(),
            r.wf(),
        ensures
            match res {
                Ok(proof) => proof.wf() && proof.seed@ == seed@ && prove_spec::<H>(
                    self.private_key@,
                    self.public_key@,
                    seed@,
                    r@,
                ) == Some((proof.gamma@, proof.c@, proof.s@)),
                Err(e) => e == Error::HashFailed && prove_spec::<H>(
                    self.private_key@,
                    self.public_key@,
                    seed@,
                    r@,
                ) is None,
            },
    {
        let buf = key_and_seed(&self.public_key, seed);
        let h = match H::hash(buf.as_slice()) {
            Ok(h) => h,
            Err(e) => return Err(e),
        };
        let gamma = point_mul(&h, &self.private_key);
        let u = point_mul(&Point::generator(), r);
        let v = point_mul(&h, r);
        let c = challenge(&self.public_key, seed, &h, &gamma, &u, &v);
        let s = scalar_sub(r, &scalar_mul(&c, &self.private_key));
        proof {
            assert(buf@ == encode_spec(self.public_key@) + seed@);
            assert(vrf_base::<H>(self.public_key@, seed@) == Some(h@));
            lemma_response(r@, c@, self.private_key@);
            assert(prove_spec::<H>(self.private_key@, self.public_key@, seed@, r@) == Some(
                (gamma@, c@, s@),
            ));
        }
        Ok(VRFProof { gamma, c, s, seed: slice_to_vec(seed) })
    }
}

/// `pk || seed`, the message hashed to the curve.
fn key_and_seed(pk: &Point, seed: &[u8]) -> (r: Vec<u8>)
    requires
        pk.wf(),
    ensures
        r@ == encode_spec(pk@) + seed@,
{
    let mut buf = encode_point(pk);
    let mut seed_bytes = slice_to_vec(seed);
    buf.append(&mut seed_bytes);
    buf
}

/// The challenge of a transcript `pk || seed || h || gamma || u || v`.
fn challenge(pk: &Point, seed: &[u8], h: &Point, gamma: &Point, u: &Point, v: &Point) -> (r: Scalar)
    requires
        pk.wf(),
        h.wf(),
        gamma.wf(),
        u.wf(),
        v.wf(),
    ensures
        r.wf(),
        r@ == challenge_spec(pk@, seed@, h@, gamma@, u@, v@),
{
    let mut buf = key_and_seed(pk, seed);
    buf.append(&mut encode_point(h));
    buf.append(&mut encode_point(gamma));
    buf.append(&mut encode_point(u));
    buf.append(&mut encode_point(v));
    KeyPair::hash_to_field(buf.as_slice())
}

impl VRFProof {
    pub open spec fn wf(&self) -> bool {
        self.gamma.wf() && self.c.wf() && self.s.wf()
    }

    /// Checks the proof against the public key `pk`, hashing to the curve
    /// with `H`; a key or output off the curve is rejected.
    pub fn verify<H: HashToCurve>(&self, pk: &Point) -> (r: bool)
        requires
            self.wf(),
            pk.wf(),
        ensures
            r == verify_spec::<H>(pk@, self.gamma@, self.c@, self.s@, self.seed@),
    {
        if !pk.is_on_curve() || !self.gamma.is_on_curve() {
            return false;
        }
        let buf = key_and_seed(pk, self.seed.as_slice());
        let h = match H::hash(buf.as_slice()) {
            Ok(h) => h,
            Err(_) => return false,
        };

        let u = point_add(&point_mul(pk, &self.c), &point_mul(&Point::generator(), &self.s));
        let v = point_add(&point_mul(&self.gamma, &self.c), &point_mul(&h, &self.s));
        let c = challenge(pk, self.seed.as_slice(), &h, &self.gamma, &u, &v);

        c.equals(&self.c)
    }
}

} // verus!
