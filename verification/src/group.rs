//! Trusted boundary to the ristretto255 group arithmetic of the
//! curve25519 library.
//!
//! The group is cyclic of prime order, so a point is modeled by its discrete
//! logarithm with respect to a fixed generator: a residue modulo the group
//! order. A scalar is modeled by the residue it represents. Every wrapper
//! states the algebra of the call over those residues.

use vstd::prelude::*;
use crate::field::{fadd, fmul, fneg, group_order};
use curve25519_dalek_ng::ristretto::RistrettoPoint;
use curve25519_dalek_ng::scalar::Scalar;
use curve25519_dalek_ng::traits::Identity;
use rand::rngs::ThreadRng;
use sha2::Sha512;

verus! {

/// The curve library's scalar type, kept opaque.
#[verifier::external_type_specification]
#[verifier::external_body]
pub struct ExScalar(Scalar);

/// The curve library's group element, kept opaque.
#[verifier::external_type_specification]
#[verifier::external_body]
pub struct ExRistrettoPoint(RistrettoPoint);

/// The thread-local cryptographic random number generator.
#[verifier::external_type_specification]
#[verifier::external_body]
pub struct ExThreadRng(ThreadRng);

/// The residue modulo the group order that a scalar represents.
pub uninterp spec fn scalar_value(s: Scalar) -> nat;

/// The discrete logarithm of a point with respect to a fixed generator of
/// the (cyclic, prime-order) group, as a residue modulo the group order.
pub uninterp spec fn point_log(p: RistrettoPoint) -> nat;

/// The residue that hashing a byte string to a scalar yields; it depends on
/// the input bytes alone.
pub uninterp spec fn hash_to_scalar(input: Seq<u8>) -> nat;

/// The discrete logarithm of the point that hashing a byte string to the
/// group yields; it depends on the input bytes alone.
pub uninterp spec fn hash_to_group(input: Seq<u8>) -> nat;

/// Relies on the curve library's scalar addition, which reduces modulo the
/// group order.
#[verifier::external_body]
pub fn scalar_add(a: &Scalar, b: &Scalar) -> (r: Scalar)
    ensures
        scalar_value(r) == fadd(scalar_value(*a), scalar_value(*b)),
{
    a + b
}

/// Relies on the curve library's scalar multiplication, which reduces modulo
/// the group order.
#[verifier::external_body]
pub fn scalar_mul(a: &Scalar, b: &Scalar) -> (r: Scalar)
    ensures
        scalar_value(r) == fmul(scalar_value(*a), scalar_value(*b)),
{
    a * b
}

/// Relies on the curve library's scalar negation, which reduces modulo the
/// group order.
#[verifier::external_body]
pub fn scalar_neg(a: &Scalar) -> (r: Scalar)
    ensures
        scalar_value(r) == fneg(scalar_value(*a)),
{
    -a
}

/// Relies on Scalar::one, the multiplicative identity.
#[verifier::external_body]
pub fn scalar_one() -> (r: Scalar)
    ensures
        scalar_value(r) == 1,
{
    Scalar::one()
}

/// Relies on Scalar::random, which samples a canonical scalar; nothing is
/// assumed of the sampled residue beyond its range.
#[verifier::external_body]
pub fn scalar_random(rng: &mut ThreadRng) -> (r: Scalar)
    ensures
        scalar_value(r) < group_order(),
{
    Scalar::random(rng)
}

/// Relies on Scalar::hash_from_bytes with a 512-bit digest; the result is a
/// function of the input bytes alone.
#[verifier::external_body]
pub fn scalar_hash(input: &[u8]) -> (r: Scalar)
    ensures
        scalar_value(r) == hash_to_scalar(input@),
{
    Scalar::hash_from_bytes::<Sha512>(input)
}

/// Relies on the curve library's point addition.
#[verifier::external_body]
pub fn point_add(a: &RistrettoPoint, b: &RistrettoPoint) -> (r: RistrettoPoint)
    ensures
        point_log(r) == fadd(point_log(*a), point_log(*b)),
{
    a + b
}

/// Relies on the curve library's point subtraction.
#[verifier::external_body]
pub fn point_sub(a: &RistrettoPoint, b: &RistrettoPoint) -> (r: RistrettoPoint)
    ensures
        point_log(r) == fadd(point_log(*a), fneg(point_log(*b))),
{
    a - b
}

/// Relies on the curve library's point negation.
#[verifier::external_body]
pub fn point_neg(a: &RistrettoPoint) -> (r: RistrettoPoint)
    ensures
        point_log(r) == fneg(point_log(*a)),
{
    -a
}

/// Relies on the curve library's scalar-point multiplication.
#[verifier::external_body]
pub fn point_mul(p: &RistrettoPoint, s: &Scalar) -> (r: RistrettoPoint)
    ensures
        point_log(r) == fmul(scalar_value(*s), point_log(*p)),
{
    p * s
}

/// Relies on RistrettoPoint::identity, the neutral element, whose discrete
/// logarithm is zero.
#[verifier::external_body]
pub fn point_identity() -> (r: RistrettoPoint)
    ensures
        point_log(r) == 0,
{
    RistrettoPoint::identity()
}

/// Relies on RistrettoPoint::random, which samples a uniform group element;
/// nothing is assumed of the sampled point beyond the range of its model.
#[verifier::external_body]
pub fn point_random(rng: &mut ThreadRng) -> (r: RistrettoPoint)
    ensures
        point_log(r) < group_order(),
{
    RistrettoPoint::random(rng)
}

/// Relies on RistrettoPoint::hash_from_bytes with a 512-bit digest; the
/// result is a function of the input bytes alone.
#[verifier::external_body]
pub fn ristretto_hash(input: &[u8]) -> (r: RistrettoPoint)
    ensures
        point_log(r) == hash_to_group(input@),
{
    RistrettoPoint::hash_from_bytes::<Sha512>(input)
}

} // verus!
