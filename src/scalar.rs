//! Elements of the secp256k1 scalar field (integers modulo the group order).
use vstd::prelude::*;
use ark_ff::{BigInt, PrimeField};
use ark_secp256k1::Fr;
use crate::limbs::{lemma_limbs_value_bounds, limbs_eq, limbs_lt, limbs_value};

verus! {

/// The prime order `n` of the secp256k1 group.
pub open spec fn group_order() -> int {
    115792089237316195423570985008687907852837564279074904382605163141518161494337int
}

/// A scalar, below the group order.
#[derive(Clone, Copy, Debug, PartialEq, Eq)]
pub struct Scalar {
    pub(crate) limbs: [u64; 4],
}

impl View for Scalar {
    type V = int;

    closed spec fn view(&self) -> int {
        limbs_value(self.limbs)
    }
}

impl Scalar {
    pub open spec fn wf(&self) -> bool {
        0 <= self@ < group_order()
    }

    /// The scalar whose canonical integer has these little-endian limbs, if
    /// that integer is below the group order.
    pub fn from_limbs(limbs: [u64; 4]) -> (r: Option<Scalar>)
        ensures
            r matches Some(e) ==> e.wf() && e@ == limbs_value(limbs),
            r is Some <==> limbs_value(limbs) < group_order(),
    {
        let m: [u64; 4] = [0xbfd25e8cd0364141, 0xbaaedce6af48a03b, 0xfffffffffffffffe, 0xffffffffffffffff];
        assert(limbs_value(m) == group_order());
        proof {
            lemma_limbs_value_bounds(limbs);
        }
        if limbs_lt(&limbs, &m) {
            Some(Scalar { limbs })
        } else {
            None
        }
    }

    /// The little-endian limbs of the canonical integer.
    pub fn limbs(&self) -> (r: [u64; 4])
        ensures
            limbs_value(r) == self@,
    {
        self.limbs
    }

    /// Whether the two scalars are equal.
    pub fn equals(&self, other: &Scalar) -> (r: bool)
        ensures
            r == (self@ == other@),
    {
        limbs_eq(&self.limbs, &other.limbs)
    }
}

/// Relies on ark-ff's subtraction in the secp256k1 scalar field.
#[verifier::external_body]
pub(crate) fn scalar_sub(a: &Scalar, b: &Scalar) -> (r: Scalar)
    requires
        a.wf(),
        b.wf(),
    ensures
        r.wf(),
        r@ == (a@ - b@) % group_order(),
{
    Scalar { limbs: (Fr::new(BigInt(a.limbs)) - Fr::new(BigInt(b.limbs))).into_bigint().0 }
}

/// Relies on ark-ff's multiplication in the secp256k1 scalar field.
#[verifier::external_body]
pub(crate) fn scalar_mul(a: &Scalar, b: &Scalar) -> (r: Scalar)
    requires
        a.wf(),
        b.wf(),
    ensures
        r.wf(),
        r@ == (a@ * b@) % group_order(),
{
    Scalar { limbs: (Fr::new(BigInt(a.limbs)) * Fr::new(BigInt(b.limbs))).into_bigint().0 }
}

} // verus!
