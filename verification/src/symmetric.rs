//! Symmetric verifiable encryption of a thirty-byte plaintext.
//!
//! The keypair commits to three secret scalars; encryption embeds the
//! plaintext into two group elements by domain-separated hashing, binds them
//! with a scalar hash of the plaintext, and masks the embedding under the
//! key.

use vstd::prelude::*;
use crate::field::{fadd, fmul};
use crate::group::{
    hash_to_group, hash_to_scalar, point_add, point_log, point_mul, ristretto_hash, scalar_add,
    scalar_hash, scalar_mul, scalar_random, scalar_value,
};
use crate::parameters::{SystemParameters, SystemParametersV};
use curve25519_dalek_ng::ristretto::RistrettoPoint;
use curve25519_dalek_ng::scalar::Scalar;
use rand::rngs::ThreadRng;

verus! {

/// The public half of a symmetric keypair: one commitment to the three
/// secret scalars.
#[derive(Clone, Copy)]
pub struct PublicKey {
    pub pk: RistrettoPoint,
}

/// The secret half of a symmetric keypair.
pub struct SecretKey {
    pub a: Scalar,
    pub a0: Scalar,
    pub a1: Scalar,
}

/// A symmetric keypair for verifiable encryption.
pub struct Keypair {
    pub secret: SecretKey,
    pub public: PublicKey,
}

/// The model of a keypair: the residues of the secret scalars and the
/// discrete logarithm of the public commitment.
pub ghost struct KeypairV {
    pub a: nat,
    pub a0: nat,
    pub a1: nat,
    pub pk: nat,
}

impl View for Keypair {
    type V = KeypairV;

    open spec fn view(&self) -> KeypairV {
        KeypairV {
            a: scalar_value(self.secret.a),
            a0: scalar_value(self.secret.a0),
            a1: scalar_value(self.secret.a1),
            pk: point_log(self.public.pk),
        }
    }
}

/// The public key commits to the secret scalars:
/// `pk = a*G_a + a0*G_a0 + a1*G_a1`.
pub open spec fn keypair_consistent(sp: SystemParametersV, kp: KeypairV) -> bool {
    kp.pk == fadd(fmul(kp.a, sp.g_a), fadd(fmul(kp.a0, sp.g_a0), fmul(kp.a1, sp.g_a1)))
}

/// A ciphertext: two group elements.
#[derive(Clone, Copy)]
pub struct Ciphertext {
    pub E1: RistrettoPoint,
    pub E2: RistrettoPoint,
}

/// The bytes hashed to derive each encryption component: a domain-separation
/// tag followed by the plaintext.
pub open spec fn tagged_bytes(tag: u8, plaintext: Seq<u8>) -> Seq<u8> {
    seq![tag] + plaintext
}

/// The plaintext embedding `M1`.
pub open spec fn embedding_one(plaintext: Seq<u8>) -> nat {
    hash_to_group(tagged_bytes(1, plaintext))
}

/// The plaintext embedding `M2`.
pub open spec fn embedding_two(plaintext: Seq<u8>) -> nat {
    hash_to_group(tagged_bytes(2, plaintext))
}

/// The scalar hash `m3` binding the two embeddings.
pub open spec fn plaintext_scalar(plaintext: Seq<u8>) -> nat {
    hash_to_scalar(tagged_bytes(3, plaintext))
}

/// Prefix a plaintext with a domain-separation tag.
fn tag_plaintext(tag: u8, plaintext: &[u8; 30]) -> (r: Vec<u8>)
    ensures
        r@ == tagged_bytes(tag, plaintext@),
{
    let mut out: Vec<u8> = Vec::new();
    out.push(tag);
    let mut i: usize = 0;
    while i < 30
        invariant
            i <= 30,
            plaintext@.len() == 30,
            out@ == seq![tag] + plaintext@.take(i as int),
        decreases 30 - i,
    {
        out.push(plaintext[i]);
        i = i + 1;
    }
    proof {
        assert(plaintext@.take(30) =~= plaintext@);
    }
    out
}

impl Keypair {
    /// Sample a fresh keypair and commit to it.
    pub fn generate(system_parameters: &SystemParameters, csprng: &mut ThreadRng) -> (r: Keypair)
        ensures
            keypair_consistent(system_parameters@, r@),
    {
        let a = scalar_random(csprng);
        let a0 = scalar_random(csprng);
        let a1 = scalar_random(csprng);
        let pk = point_add(
            &point_mul(&system_parameters.G_a, &a),
            &point_add(
                &point_mul(&system_parameters.G_a0, &a0),
                &point_mul(&system_parameters.G_a1, &a1),
            ),
        );
        Keypair { secret: SecretKey { a, a0, a1 }, public: PublicKey { pk } }
    }

    /// Encrypt a thirty-byte plaintext:
    /// `m3 = H_s(plaintext)`, `M1` and `M2` are hash embeddings of the
    /// plaintext, `E1 = (a0 + a1*m3)*M2`, and `E2 = M1 + a*E1`.
    pub fn encrypt(&self, plaintext: &[u8; 30]) -> (r: (
        Ciphertext,
        RistrettoPoint,
        RistrettoPoint,
        Scalar,
    ))
        ensures
            point_log(r.1) == embedding_one(plaintext@),
            point_log(r.2) == embedding_two(plaintext@),
            scalar_value(r.3) == plaintext_scalar(plaintext@),
            point_log(r.0.E1) == fmul(
                fadd(scalar_value(self.secret.a0), fmul(scalar_value(self.secret.a1), scalar_value(r.3))),
                point_log(r.2),
            ),
            point_log(r.0.E2) == fadd(
                point_log(r.1),
                fmul(scalar_value(self.secret.a), point_log(r.0.E1)),
            ),
    {
        let bytes_one = tag_plaintext(1, plaintext);
        let bytes_two = tag_plaintext(2, plaintext);
        let bytes_three = tag_plaintext(3, plaintext);
        let M1 = ristretto_hash(bytes_one.as_slice());
        let M2 = ristretto_hash(bytes_two.as_slice());
        let m3 = scalar_hash(bytes_three.as_slice());
        let mask = scalar_add(&self.secret.a0, &scalar_mul(&self.secret.a1, &m3));
        let E1 = point_mul(&M2, &mask);
        let E2 = point_add(&M1, &point_mul(&E1, &self.secret.a));
        (Ciphertext { E1, E2 }, M1, M2, m3)
    }
}

} // verus!
