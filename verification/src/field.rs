//! Residue arithmetic modulo the prime order of the ristretto255 group.
//!
//! Group elements are modeled by their discrete logarithms and scalars by
//! their canonical residues, so every algebraic fact about commitments and
//! Schnorr constraints reduces to arithmetic modulo the group order.

use vstd::prelude::*;
use vstd::arithmetic::div_mod::{
    lemma_add_mod_noop, lemma_add_mod_noop_right, lemma_mod_multiples_vanish, lemma_mod_self_0,
    lemma_mod_twice, lemma_mul_mod_noop_general, lemma_small_mod, lemma_sub_mod_noop,
};
use vstd::arithmetic::mul::{
    lemma_mul_basics, lemma_mul_is_associative, lemma_mul_is_commutative,
    lemma_mul_is_distributive_add, lemma_mul_is_distributive_sub,
};

verus! {

/// Order of the ristretto255 group:
/// 2^252 + 27742317777372353535851937790883648493, a prime.
pub open spec fn group_order() -> nat {
    0x1000000000000000000000000000000014def9dea2f79cd65812631a5cf5d3ednat
}

/// Sum of two residues.
pub open spec fn fadd(a: nat, b: nat) -> nat {
    (a + b) % group_order()
}

/// Product of two residues.
pub open spec fn fmul(a: nat, b: nat) -> nat {
    (a * b) % group_order()
}

/// Additive inverse of a residue.
pub open spec fn fneg(a: nat) -> nat {
    (group_order() - a % group_order()) as nat % group_order()
}

/// Sum of the pairwise products of two sequences of residues, folded from
/// the front.
pub open spec fn msum(scalars: Seq<nat>, points: Seq<nat>) -> nat
    decreases scalars.len(),
{
    if scalars.len() == 0 {
        0
    } else {
        fadd(fmul(scalars[0], points[0]), msum(scalars.drop_first(), points.drop_first()))
    }
}

pub proof fn lemma_fadd_zero(a: nat)
    ensures
        fadd(a, 0) == a % group_order(),
        fadd(0, a) == a % group_order(),
{
}

pub proof fn lemma_fmul_one(a: nat)
    ensures
        fmul(1, a) == a % group_order(),
        fmul(a, 1) == a % group_order(),
{
}

pub proof fn lemma_fmul_zero(a: nat)
    ensures
        fmul(0, a) == 0,
        fmul(a, 0) == 0,
{
}

pub proof fn lemma_mod_noop(a: nat)
    ensures
        (a % group_order()) % group_order() == a % group_order(),
        a < group_order() ==> a % group_order() == a,
{
    lemma_mod_twice(a as int, group_order() as int);
    if a < group_order() {
        lemma_small_mod(a, group_order());
    }
}

pub proof fn lemma_fadd_mod_noop(a: nat, b: nat)
    ensures
        fadd(a % group_order(), b) == fadd(a, b),
        fadd(a, b % group_order()) == fadd(a, b),
{
    let m = group_order() as int;
    lemma_add_mod_noop(a as int, b as int, m);
    lemma_mod_twice(a as int, m);
    lemma_mod_twice(b as int, m);
    lemma_add_mod_noop((a % group_order()) as int, b as int, m);
    lemma_add_mod_noop(a as int, (b % group_order()) as int, m);
}

pub proof fn lemma_fmul_mod_noop(a: nat, b: nat)
    ensures
        fmul(a % group_order(), b) == fmul(a, b),
        fmul(a, b % group_order()) == fmul(a, b),
{
    let m = group_order() as int;
    lemma_mul_mod_noop_general(a as int, b as int, m);
    lemma_mul_mod_noop_general((a % group_order()) as int, b as int, m);
    lemma_mul_mod_noop_general(a as int, (b % group_order()) as int, m);
    lemma_mod_twice(a as int, m);
    lemma_mod_twice(b as int, m);
}

/// A residue produced by `fadd` or `fmul` is already reduced.
pub proof fn lemma_fadd_reduced(a: nat, b: nat)
    ensures
        fadd(a, b) % group_order() == fadd(a, b),
        fadd(a, b) < group_order(),
        fmul(a, b) % group_order() == fmul(a, b),
        fmul(a, b) < group_order(),
{
    lemma_mod_twice((a + b) as int, group_order() as int);
    lemma_mod_twice((a * b) as int, group_order() as int);
    vstd::arithmetic::div_mod::lemma_mod_bound((a + b) as int, group_order() as int);
    vstd::arithmetic::div_mod::lemma_mod_bound((a * b) as int, group_order() as int);
}

/// Dropping a trailing zero term of a sum.
pub proof fn lemma_fadd_tail(x: nat, y: nat)
    ensures
        fadd(x, fadd(y, 0)) == fadd(x, y),
{
    lemma_fadd_mod_noop(x, y);
}

pub proof fn lemma_fadd_comm(a: nat, b: nat)
    ensures
        fadd(a, b) == fadd(b, a),
{
}

pub proof fn lemma_fmul_comm(a: nat, b: nat)
    ensures
        fmul(a, b) == fmul(b, a),
{
    lemma_mul_is_commutative(a as int, b as int);
}

pub proof fn lemma_fadd_assoc(a: nat, b: nat, c: nat)
    ensures
        fadd(fadd(a, b), c) == fadd(a, fadd(b, c)),
{
    lemma_fadd_mod_noop((a + b) as nat, c);
    lemma_fadd_mod_noop(a, (b + c) as nat);
    assert(fadd((a + b) as nat, c) == fadd(a, (b + c) as nat));
}

pub proof fn lemma_fmul_assoc(a: nat, b: nat, c: nat)
    ensures
        fmul(fmul(a, b), c) == fmul(a, fmul(b, c)),
{
    lemma_fmul_mod_noop((a * b) as nat, c);
    lemma_fmul_mod_noop(a, (b * c) as nat);
    lemma_mul_is_associative(a as int, b as int, c as int);
}

pub proof fn lemma_fmul_distrib(a: nat, b: nat, c: nat)
    ensures
        fmul(a, fadd(b, c)) == fadd(fmul(a, b), fmul(a, c)),
{
    let m = group_order() as int;
    lemma_fmul_mod_noop(a, (b + c) as nat);
    lemma_mul_is_distributive_add(a as int, b as int, c as int);
    lemma_add_mod_noop((a * b) as int, (a * c) as int, m);
}

pub proof fn lemma_fneg_fmul(a: nat, b: nat)
    ensures
        fmul(fneg(a), b) == fneg(fmul(a, b)),
{
    let l = group_order();
    let m = l as int;
    lemma_fneg_int(a);
    lemma_fneg_int(fmul(a, b));
    // fneg(a) * b == (-a * b) mod l, by dropping the inner reduction.
    lemma_mul_mod_noop_general((0 - a as int) % m, b as int, m);
    lemma_mod_twice(0 - a as int, m);
    lemma_mul_mod_noop_general(0 - a as int, b as int, m);
    assert((0 - a as int) * b as int == 0 - (a as int * b as int)) by {
        lemma_mul_is_distributive_sub(b as int, 0, a as int);
        lemma_mul_is_commutative(0 - a as int, b as int);
        lemma_mul_is_commutative(a as int, b as int);
        lemma_mul_basics(b as int);
    }
    // fneg((a * b) mod l) == (-(a * b)) mod l.
    lemma_sub_mod_noop(0, (a * b) as int, m);
    lemma_mod_twice((a * b) as int, m);
    lemma_small_mod(0, l);
}

/// The additive inverse, written over the integers.
proof fn lemma_fneg_int(a: nat)
    ensures
        fneg(a) as int == (0 - a as int) % (group_order() as int),
{
    let l = group_order();
    let m = l as int;
    let ar = a % l;
    lemma_sub_mod_noop(0, a as int, m);
    lemma_mod_twice(a as int, m);
    lemma_small_mod(0, l);
    assert((0 - a as int) % m == (0 - ar as int) % m);
    if ar == 0 {
        lemma_mod_self_0(m);
        assert(fneg(a) == l % l);
        assert((0 - ar as int) % m == 0) by {
            lemma_small_mod(0, l);
        }
    } else {
        lemma_small_mod((l - ar) as nat, l);
        assert(fneg(a) == (l - ar) as nat);
        lemma_mod_multiples_vanish(1, 0 - ar as int, m);
        assert((m * 1 + (0 - ar as int)) % m == (0 - ar as int) % m) by {
            lemma_mul_basics(m);
        }
        assert(m * 1 == m) by {
            lemma_mul_basics(m);
        }
        assert((m + (0 - ar as int)) % m == (l - ar) as int % m);
        lemma_small_mod((l - ar) as nat, l);
    }
}

/// A negated residue is reduced.
pub proof fn lemma_fneg_reduced(a: nat)
    ensures
        fneg(a) % group_order() == fneg(a),
        fneg(a) < group_order(),
{
    lemma_mod_twice((group_order() - a % group_order()) as int, group_order() as int);
    vstd::arithmetic::div_mod::lemma_mod_bound(
        (group_order() - a % group_order()) as int,
        group_order() as int,
    );
}

/// Negation distributes over addition.
pub proof fn lemma_fneg_fadd(a: nat, b: nat)
    ensures
        fneg(fadd(a, b)) == fadd(fneg(a), fneg(b)),
{
    let m = group_order() as int;
    lemma_fneg_int(fadd(a, b));
    lemma_fneg_int(a);
    lemma_fneg_int(b);
    // fneg(fadd(a, b)) == (-(a + b)) % m.
    lemma_sub_mod_noop(0, (a + b) as int, m);
    lemma_mod_twice((a + b) as int, m);
    lemma_small_mod(0, group_order());
    // fadd(fneg(a), fneg(b)) == ((-a) % m + (-b) % m) % m == (-(a + b)) % m.
    lemma_add_mod_noop(0 - a as int, 0 - b as int, m);
}

/// Rotation of the left summand into a right-folded sum.
pub proof fn lemma_fadd_rot(a: nat, b: nat, c: nat)
    ensures
        fadd(a, fadd(b, c)) == fadd(b, fadd(a, c)),
{
    lemma_fadd_assoc(a, b, c);
    lemma_fadd_comm(a, b);
    lemma_fadd_assoc(b, a, c);
}

pub proof fn lemma_fadd_fneg(a: nat)
    ensures
        fadd(a, fneg(a)) == 0,
{
    let l = group_order();
    let m = l as int;
    lemma_fneg_int(a);
    lemma_add_mod_noop_right(a as int, 0 - a as int, m);
    assert((a as int + (0 - a as int) % m) % m == (a as int + (0 - a as int)) % m);
    lemma_small_mod(0, l);
}

} // verus!
