//! Hashing byte strings to field elements (`expand_message_xmd` with SHA-256).
use vstd::prelude::*;
use ark_ff::field_hashers::{DefaultFieldHasher, HashToField};
use ark_ff::PrimeField;
use ark_secp256k1::{Fq, Fr};
use sha2::Sha256;
use crate::field::Fe;
use crate::scalar::Scalar;

verus! {

/// The two base field elements that `expand_message_xmd` with SHA-256 derives
/// from a message and a domain separation tag.
pub uninterp spec fn hash_to_base_field_of(msg: Seq<u8>, dst: Seq<u8>) -> (int, int);

/// The scalar that `expand_message_xmd` with SHA-256 derives from a message
/// and a domain separation tag.
pub uninterp spec fn hash_to_scalar_of(msg: Seq<u8>, dst: Seq<u8>) -> int;

/// Relies on ark-ff's `DefaultFieldHasher<Sha256>::hash_to_field` into the
/// secp256k1 base field, asked for two elements.
#[verifier::external_body]
pub(crate) fn hash_to_base_field(msg: &[u8], dst: &[u8]) -> (r: (Fe, Fe))
    ensures
        r.0.wf(),
        r.1.wf(),
        (r.0@, r.1@) == hash_to_base_field_of(msg@, dst@),
{
    let u: Vec<Fq> = <DefaultFieldHasher<Sha256> as HashToField<Fq>>::new(dst).hash_to_field(msg, 2);
    (Fe { limbs: u[0].into_bigint().0 }, Fe { limbs: u[1].into_bigint().0 })
}

/// Relies on ark-ff's `DefaultFieldHasher<Sha256>::hash_to_field` into the
/// secp256k1 scalar field, asked for one element.
#[verifier::external_body]
pub(crate) fn hash_to_scalar(msg: &[u8], dst: &[u8]) -> (r: Scalar)
    ensures
        r.wf(),
        r@ == hash_to_scalar_of(msg@, dst@),
{
    let c: Vec<Fr> = <DefaultFieldHasher<Sha256> as HashToField<Fr>>::new(dst).hash_to_field(msg, 1);
    Scalar { limbs: c[0].into_bigint().0 }
}

} // verus!
