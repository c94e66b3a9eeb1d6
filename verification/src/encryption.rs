//! Proof of encryption: the holder proves that a ciphertext encrypts the
//! plaintext committed to inside a presentation, under a committed symmetric
//! key, reusing the presentation's nonce.

use vstd::prelude::*;
use crate::engine::{
    accepts, lc_value, prover_allocate_point, prover_allocate_scalar, prover_constrain,
    prover_new, prover_prove_compact, satisfied, stmt_wf, transcript_new,
    verifier_allocate_point, verifier_allocate_scalar, verifier_constrain, verifier_new,
    verifier_verify_compact, Constraint, Statement,
};
use crate::errors::CredentialError;
use crate::field::{
    fadd, fmul, fneg, group_order, lemma_fadd_assoc, lemma_fadd_comm, lemma_fadd_fneg,
    lemma_fadd_reduced, lemma_fadd_rot, lemma_fadd_tail, lemma_fadd_zero,
    lemma_fmul_assoc, lemma_fmul_comm, lemma_fmul_distrib, lemma_fmul_mod_noop, lemma_fneg_fadd,
    lemma_fneg_fmul, lemma_fneg_reduced, lemma_mod_noop,
};
use crate::group::{
    point_add, point_log, point_mul, point_neg, point_sub, scalar_add, scalar_mul, scalar_neg,
    scalar_value,
};
use crate::issuance::{lemma_lc_empty, lemma_lc_step};
use crate::parameters::{SystemParameters, SystemParametersV};
use crate::symmetric::{
    embedding_one, embedding_two, keypair_consistent, plaintext_scalar, Ciphertext, Keypair,
    KeypairV, PublicKey,
};
use curve25519_dalek_ng::ristretto::RistrettoPoint;
use curve25519_dalek_ng::scalar::Scalar;
use zkp::CompactProof;

verus! {

/// A proof that a ciphertext encrypts the plaintext committed to by the
/// carried commitments, under the symmetric key committed to by `public_key`.
pub struct ProofOfEncryption {
    pub proof: CompactProof,
    pub public_key: PublicKey,
    pub C_y_1: RistrettoPoint,
    pub C_y_2: RistrettoPoint,
    pub C_y_3: RistrettoPoint,
    pub C_y_2_prime: RistrettoPoint,
}

/// Scalar labels of the encryption statement, in allocation order.
pub open spec fn encryption_scalar_labels() -> Seq<Seq<char>> {
    seq!["a"@, "a0"@, "a1"@, "m3"@, "z"@, "z1"@]
}

/// Point labels of the encryption statement, in allocation order.
pub open spec fn encryption_point_labels() -> Seq<Seq<char>> {
    seq![
        "pk"@,
        "G_a"@,
        "G_a_0"@,
        "G_a_1"@,
        "G_y_1"@,
        "G_y_2"@,
        "G_y_3"@,
        "G_m_3"@,
        "C_y_2"@,
        "C_y_3"@,
        "C_y_2'"@,
        "C_y_1-E2"@,
        "E1"@,
        "-E1"@,
    ]
}

/// Point values of the encryption statement, in allocation order.
pub open spec fn encryption_point_values(
    sp: SystemParametersV,
    pk: nat,
    c_y_2: nat,
    c_y_3: nat,
    c_y_2_prime: nat,
    c_y_1_minus_e2: nat,
    e1: nat,
) -> Seq<nat> {
    seq![
        pk,
        sp.g_a,
        sp.g_a0,
        sp.g_a1,
        sp.g_y[0],
        sp.g_y[1],
        sp.g_y[2],
        sp.g_m[2],
        c_y_2,
        c_y_3,
        c_y_2_prime,
        c_y_1_minus_e2,
        e1,
        fneg(e1),
    ]
}

/// The witness of the encryption statement, in allocation order.
pub open spec fn encryption_witness(kp: KeypairV, m3: nat, z: nat) -> Seq<nat> {
    seq![kp.a, kp.a0, kp.a1, m3, z, fmul(fneg(z), fadd(kp.a0, fmul(kp.a1, m3)))]
}

/// The five encryption constraints, over variable indices:
/// `pk = a*G_a + a0*G_a0 + a1*G_a1`,
/// `C_y_1 - E2 = z*G_y_1 + a*(-E1)`,
/// `C_y_2' = a1*C_y_2`,
/// `E1 = a0*C_y_2 + m3*C_y_2' + z1*G_y_2`, and
/// `C_y_3 = z*G_y_3 + m3*G_m_3`.
pub open spec fn encryption_constraints() -> Seq<Constraint> {
    seq![
        Constraint { lhs: 0, terms: seq![(0int, 1int), (1int, 2int), (2int, 3int)] },
        Constraint { lhs: 11, terms: seq![(4int, 4int), (0int, 13int)] },
        Constraint { lhs: 10, terms: seq![(2int, 8int)] },
        Constraint { lhs: 12, terms: seq![(1int, 8int), (3int, 10int), (5int, 5int)] },
        Constraint { lhs: 9, terms: seq![(4int, 6int), (3int, 7int)] },
    ]
}

/// The full encryption statement.
pub open spec fn encryption_statement(
    sp: SystemParametersV,
    pk: nat,
    c_y_2: nat,
    c_y_3: nat,
    c_y_2_prime: nat,
    c_y_1_minus_e2: nat,
    e1: nat,
) -> Statement {
    Statement {
        transcript_label: "2019/1416 anonymous credentials"@,
        proof_label: "2019/1416 proof of encryption"@,
        scalar_labels: encryption_scalar_labels(),
        point_labels: encryption_point_labels(),
        point_values: encryption_point_values(sp, pk, c_y_2, c_y_3, c_y_2_prime, c_y_1_minus_e2, e1),
        constraints: encryption_constraints(),
    }
}

/// The ciphertext and commitments were derived from the plaintext and the
/// keypair with the nonce `z`.
pub open spec fn encryption_honest(
    sp: SystemParametersV,
    kp: KeypairV,
    plaintext: Seq<u8>,
    e1: nat,
    e2: nat,
    c_y_1: nat,
    c_y_2: nat,
    c_y_3: nat,
    c_y_2_prime: nat,
    z: nat,
) -> bool {
    let m1 = embedding_one(plaintext);
    let m2 = embedding_two(plaintext);
    let m3 = plaintext_scalar(plaintext);
    &&& e1 == fmul(fadd(kp.a0, fmul(kp.a1, m3)), m2)
    &&& e2 == fadd(m1, fmul(kp.a, e1))
    &&& c_y_1 == fadd(m1, fmul(z, sp.g_y[0]))
    &&& c_y_2 == fadd(m2, fmul(z, sp.g_y[1]))
    &&& c_y_3 == fadd(fmul(m3, sp.g_m[2]), fmul(z, sp.g_y[2]))
    &&& c_y_2_prime == fmul(kp.a1, c_y_2)
}

/// No point of the encryption statement is the identity element.
pub open spec fn encryption_points_nonzero(
    sp: SystemParametersV,
    pk: nat,
    c_y_2: nat,
    c_y_3: nat,
    c_y_2_prime: nat,
    c_y_1_minus_e2: nat,
    e1: nat,
) -> bool {
    forall|j: int|
        0 <= j < 14 ==> #[trigger] encryption_point_values(
            sp,
            pk,
            c_y_2,
            c_y_3,
            c_y_2_prime,
            c_y_1_minus_e2,
            e1,
        )[j] != 0
}

/// Cancellation inside a sum: `(x + a) + (-x + b) = a + b`.
proof fn lemma_fadd_cancel(x: nat, a: nat, b: nat)
    ensures
        fadd(fadd(x, a), fadd(fneg(x), b)) == fadd(a, b),
{
    lemma_fadd_assoc(x, a, fadd(fneg(x), b));
    lemma_fadd_rot(a, fneg(x), b);
    lemma_fadd_assoc(x, fneg(x), fadd(a, b));
    crate::field::lemma_fadd_fneg(x);
    lemma_fadd_zero(fadd(a, b));
    lemma_fadd_reduced(a, b);
}

/// The well-formedness of the `E1` constraint: with
/// `z1 = -z*(a0 + a1*m3)`, the blinding terms cancel and
/// `a0*C_y_2 + m3*C_y_2' + z1*G_y_2 = (a0 + a1*m3)*M2`.
proof fn lemma_e1_algebra(a0: nat, a1: nat, m3: nat, z: nat, gy2: nat, m2: nat)
    ensures
        fadd(
            fmul(a0, fadd(m2, fmul(z, gy2))),
            fadd(
                fmul(m3, fmul(a1, fadd(m2, fmul(z, gy2)))),
                fadd(fmul(fmul(fneg(z), fadd(a0, fmul(a1, m3))), gy2), 0),
            ),
        ) == fmul(fadd(a0, fmul(a1, m3)), m2),
{
    let zg = fmul(z, gy2);
    let cy2 = fadd(m2, zg);
    let a1m3 = fmul(a1, m3);
    let big = fadd(a0, a1m3);
    let p = fmul(a0, m2);
    let q = fmul(a0, zg);
    let r = fmul(a1m3, m2);
    let s = fmul(a1m3, zg);
    // T1 = a0 * C_y_2 = p + q.
    lemma_fmul_distrib(a0, m2, zg);
    lemma_fmul_mod_noop(a0, (m2 + zg) as nat);
    assert(fmul(a0, cy2) == fadd(p, q));
    // T2 = m3 * (a1 * C_y_2) = r + s.
    lemma_fmul_assoc(m3, a1, cy2);
    lemma_fmul_comm(m3, a1);
    lemma_fmul_mod_noop(fmul(m3, a1), cy2);
    lemma_fmul_mod_noop(a1m3, cy2);
    assert(fmul(m3, fmul(a1, cy2)) == fmul(fmul(m3, a1), cy2)) by {
        lemma_fmul_assoc(m3, a1, cy2);
    }
    assert(fmul(fmul(m3, a1), cy2) == fmul(a1m3, cy2)) by {
        lemma_fmul_comm(m3, a1);
        lemma_fmul_mod_noop(m3 * a1, cy2);
        lemma_fmul_mod_noop(a1 * m3, cy2);
    }
    lemma_fmul_distrib(a1m3, m2, zg);
    lemma_fmul_mod_noop(a1m3, (m2 + zg) as nat);
    assert(fmul(m3, fmul(a1, cy2)) == fadd(r, s));
    // T3 = z1 * G_y_2 = -(q + s).
    let t3 = fmul(fmul(fneg(z), big), gy2);
    lemma_fmul_assoc(fneg(z), big, gy2);
    lemma_fneg_fmul(z, fmul(big, gy2));
    assert(t3 == fneg(fmul(z, fmul(big, gy2))));
    assert(fmul(z, fmul(big, gy2)) == fmul(big, zg)) by {
        lemma_fmul_comm(big, gy2);
        lemma_fmul_mod_noop(z, (big * gy2) as nat);
        lemma_fmul_mod_noop(z, (gy2 * big) as nat);
        lemma_fmul_assoc(z, gy2, big);
        lemma_fmul_comm(z, gy2);
        lemma_fmul_mod_noop(fmul(z, gy2), big);
        lemma_fmul_mod_noop(zg, big);
        lemma_fmul_comm(zg, big);
    }
    assert(fmul(big, zg) == fadd(q, s)) by {
        lemma_fmul_mod_noop((a0 + a1m3) as nat, zg);
        lemma_fmul_distrib(zg, a0, a1m3);
        lemma_fmul_comm(zg, a0);
        lemma_fmul_comm(zg, a1m3);
        lemma_fmul_comm(big, zg);
        lemma_fmul_mod_noop(zg, (a0 + a1m3) as nat);
    }
    assert(t3 == fneg(fadd(q, s)));
    lemma_fneg_fadd(q, s);
    // The sum collapses: (p + q) + ((r + s) + (-q + -s)) = p + r.
    lemma_fadd_tail(fmul(m3, fmul(a1, cy2)), t3);
    lemma_fadd_reduced(q, s);
    assert(fadd(fadd(r, s), fadd(fneg(q), fneg(s))) == fadd(fneg(q), r)) by {
        lemma_fadd_assoc(r, s, fadd(fneg(q), fneg(s)));
        lemma_fadd_rot(s, fneg(q), fneg(s));
        crate::field::lemma_fadd_fneg(s);
        lemma_fadd_comm(s, fneg(s));
        lemma_fadd_zero(fneg(q));
        lemma_fneg_reduced(q);
        lemma_fadd_rot(r, fneg(q), 0);
        lemma_fadd_tail(fneg(q), r);
        lemma_fadd_comm(fneg(q), fadd(r, 0));
        lemma_fadd_zero(r);
        lemma_fadd_reduced(a1m3, m2);
        lemma_mod_noop((a1m3 * m2) as nat);
        assert(fadd(r, 0) == r);
        assert(fadd(fadd(r, s), fadd(fneg(q), fneg(s))) == fadd(r, fadd(s, fadd(
            fneg(q),
            fneg(s),
        ))));
        assert(fadd(s, fadd(fneg(q), fneg(s))) == fadd(fneg(q), fadd(s, fneg(s))));
        crate::field::lemma_fadd_fneg(s);
        lemma_fadd_zero(fneg(q));
        assert(fadd(fneg(q), fadd(s, fneg(s))) == fadd(fneg(q), 0));
        assert(fadd(fneg(q), 0) == fneg(q) % group_order());
        lemma_fneg_reduced(q);
        assert(fadd(r, fneg(q)) == fadd(fneg(q), r)) by {
            lemma_fadd_comm(r, fneg(q));
        }
        assert(fadd(r, fadd(s, fadd(fneg(q), fneg(s)))) == fadd(r, fneg(q)));
    }
    // lc = (p + q) + (-q + r) = p + r.
    lemma_fadd_comm(fneg(q), r);
    lemma_fadd_cancel(q, p, r);
    lemma_fadd_comm(q, p);
    lemma_fadd_comm(p, q);
    assert(fadd(fadd(p, q), fadd(fneg(q), r)) == fadd(fadd(q, p), fadd(fneg(q), r))) by {
        lemma_fadd_comm(p, q);
    }
    assert(fadd(fadd(q, p), fadd(fneg(q), r)) == fadd(p, r)) by {
        lemma_fadd_cancel(q, p, r);
    }
    // Target: (a0 + a1*m3) * M2 = p + r.
    assert(fmul(big, m2) == fadd(p, r)) by {
        lemma_fmul_mod_noop((a0 + a1m3) as nat, m2);
        lemma_fmul_comm(big, m2);
        lemma_fmul_mod_noop(m2, (a0 + a1m3) as nat);
        lemma_fmul_distrib(m2, a0, a1m3);
        lemma_fmul_comm(m2, a0);
        lemma_fmul_comm(m2, a1m3);
    }
}

/// Completeness of the encryption statement: a ciphertext and commitments
/// derived from any plaintext, keypair, and nonce satisfy every constraint
/// with the holder's witness, provided the public key commits to the key.
/// Together with the contracts of `ProofOfEncryption::prove` and
/// `ProofOfEncryption::verify`, an encryption proof verifies against the
/// same ciphertext and public key whenever no statement point is the
/// identity.
pub proof fn lemma_encryption_satisfied(
    sp: SystemParametersV,
    kp: KeypairV,
    plaintext: Seq<u8>,
    e1: nat,
    e2: nat,
    c_y_1: nat,
    c_y_2: nat,
    c_y_3: nat,
    c_y_2_prime: nat,
    z: nat,
)
    requires
        sp.g_y.len() >= 3,
        sp.g_m.len() >= 3,
        keypair_consistent(sp, kp),
        encryption_honest(sp, kp, plaintext, e1, e2, c_y_1, c_y_2, c_y_3, c_y_2_prime, z),
    ensures
        satisfied(
            encryption_statement(
                sp,
                kp.pk,
                c_y_2,
                c_y_3,
                c_y_2_prime,
                fadd(c_y_1, fneg(e2)),
                e1,
            ),
            encryption_witness(kp, plaintext_scalar(plaintext), z),
        ),
{
    let m1 = embedding_one(plaintext);
    let m2 = embedding_two(plaintext);
    let m3 = plaintext_scalar(plaintext);
    let stmt = encryption_statement(sp, kp.pk, c_y_2, c_y_3, c_y_2_prime, fadd(c_y_1, fneg(e2)), e1);
    let w = encryption_witness(kp, m3, z);
    let pv = stmt.point_values;

    // Constraint 0: pk = a*G_a + a0*G_a0 + a1*G_a1.
    let c0 = stmt.constraints[0];
    lemma_lc_step(pv, w, c0.terms);
    assert(c0.terms.drop_first() =~= seq![(1int, 2int), (2int, 3int)]);
    lemma_lc_step(pv, w, seq![(1int, 2int), (2int, 3int)]);
    assert(seq![(1int, 2int), (2int, 3int)].drop_first() =~= seq![(2int, 3int)]);
    lemma_lc_step(pv, w, seq![(2int, 3int)]);
    assert(seq![(2int, 3int)].drop_first() =~= Seq::<(int, int)>::empty());
    lemma_lc_empty(pv, w);
    lemma_fadd_tail(fmul(kp.a0, sp.g_a0), fmul(kp.a1, sp.g_a1));
    lemma_fadd_reduced(fmul(kp.a, sp.g_a), fadd(fmul(kp.a0, sp.g_a0), fmul(kp.a1, sp.g_a1)));
    assert(constraint_ok(stmt, w, 0));

    // Constraint 1: C_y_1 - E2 = z*G_y_1 + a*(-E1).
    let c1 = stmt.constraints[1];
    lemma_lc_step(pv, w, c1.terms);
    assert(c1.terms.drop_first() =~= seq![(0int, 13int)]);
    lemma_lc_step(pv, w, seq![(0int, 13int)]);
    assert(seq![(0int, 13int)].drop_first() =~= Seq::<(int, int)>::empty());
    lemma_lc_empty(pv, w);
    let zg1 = fmul(z, sp.g_y[0]);
    let ae1 = fmul(kp.a, e1);
    assert(lc_value(pv, w, c1.terms) == fadd(zg1, fadd(fmul(kp.a, fneg(e1)), 0)));
    assert(fmul(kp.a, fneg(e1)) == fneg(ae1)) by {
        lemma_fmul_comm(kp.a, fneg(e1));
        lemma_fneg_fmul(e1, kp.a);
        lemma_fmul_comm(e1, kp.a);
    }
    lemma_fadd_tail(zg1, fneg(ae1));
    // c_y_1 - e2 = (m1 + zg1) + -(m1 + ae1) = zg1 + -ae1.
    lemma_fneg_fadd(m1, ae1);
    lemma_fadd_cancel(m1, zg1, fneg(ae1));
    lemma_fadd_reduced(zg1, fneg(ae1));
    assert(pv[c1.lhs] == fadd(c_y_1, fneg(e2)));
    assert(constraint_ok(stmt, w, 1));

    // Constraint 2: C_y_2' = a1*C_y_2.
    let c2 = stmt.constraints[2];
    lemma_lc_step(pv, w, c2.terms);
    assert(c2.terms.drop_first() =~= Seq::<(int, int)>::empty());
    lemma_lc_empty(pv, w);
    lemma_fadd_zero(fmul(kp.a1, c_y_2));
    lemma_mod_noop((kp.a1 * c_y_2) as nat);
    assert(constraint_ok(stmt, w, 2));

    // Constraint 3: E1 = a0*C_y_2 + m3*C_y_2' + z1*G_y_2.
    let c3 = stmt.constraints[3];
    lemma_lc_step(pv, w, c3.terms);
    assert(c3.terms.drop_first() =~= seq![(3int, 10int), (5int, 5int)]);
    lemma_lc_step(pv, w, seq![(3int, 10int), (5int, 5int)]);
    assert(seq![(3int, 10int), (5int, 5int)].drop_first() =~= seq![(5int, 5int)]);
    lemma_lc_step(pv, w, seq![(5int, 5int)]);
    assert(seq![(5int, 5int)].drop_first() =~= Seq::<(int, int)>::empty());
    lemma_lc_empty(pv, w);
    assert(lc_value(pv, w, c3.terms) == fadd(
        fmul(kp.a0, c_y_2),
        fadd(
            fmul(m3, c_y_2_prime),
            fadd(fmul(fmul(fneg(z), fadd(kp.a0, fmul(kp.a1, m3))), sp.g_y[1]), 0),
        ),
    ));
    lemma_e1_algebra(kp.a0, kp.a1, m3, z, sp.g_y[1], m2);
    lemma_fadd_reduced(kp.a0, fmul(kp.a1, m3));
    lemma_fmul_mod_noop(fadd(kp.a0, fmul(kp.a1, m3)), m2);
    assert(e1 % group_order() == e1) by {
        lemma_mod_noop((fadd(kp.a0, fmul(kp.a1, m3)) * m2) as nat);
    }
    assert(constraint_ok(stmt, w, 3));

    // Constraint 4: C_y_3 = z*G_y_3 + m3*G_m_3.
    let c4 = stmt.constraints[4];
    lemma_lc_step(pv, w, c4.terms);
    assert(c4.terms.drop_first() =~= seq![(3int, 7int)]);
    lemma_lc_step(pv, w, seq![(3int, 7int)]);
    assert(seq![(3int, 7int)].drop_first() =~= Seq::<(int, int)>::empty());
    lemma_lc_empty(pv, w);
    lemma_fadd_tail(fmul(z, sp.g_y[2]), fmul(m3, sp.g_m[2]));
    lemma_fadd_comm(fmul(z, sp.g_y[2]), fmul(m3, sp.g_m[2]));
    lemma_fadd_reduced(fmul(m3, sp.g_m[2]), fmul(z, sp.g_y[2]));
    assert(constraint_ok(stmt, w, 4));

    assert forall|i: int| 0 <= i < stmt.constraints.len() implies crate::engine::constraint_holds(
        stmt,
        w,
        #[trigger] stmt.constraints[i],
    ) by {
        if i == 0 {
            assert(constraint_ok(stmt, w, 0));
        } else if i == 1 {
            assert(constraint_ok(stmt, w, 1));
        } else if i == 2 {
            assert(constraint_ok(stmt, w, 2));
        } else if i == 3 {
            assert(constraint_ok(stmt, w, 3));
        } else {
            assert(constraint_ok(stmt, w, 4));
        }
    }
}

/// Abbreviation: the `i`-th constraint of a statement holds.
pub open spec fn constraint_ok(stmt: Statement, witness: Seq<nat>, i: int) -> bool {
    crate::engine::constraint_holds(stmt, witness, stmt.constraints[i])
}

impl ProofOfEncryption {
    /// Encrypt a thirty-byte plaintext and prove, reusing the presentation
    /// nonce `z`, that the ciphertext encrypts the committed plaintext. If
    /// the keypair's public key commits to its secrets, the proof is
    /// accepted for the encryption statement over the outputs.
    pub fn prove(
        system_parameters: &SystemParameters,
        plaintext: &[u8; 30],
        keypair: &Keypair,
        z: &Scalar,
    ) -> (r: (Ciphertext, ProofOfEncryption))
        requires
            system_parameters.wf(),
            system_parameters@.n >= 3,
        ensures
            encryption_honest(
                system_parameters@,
                keypair@,
                plaintext@,
                point_log(r.0.E1),
                point_log(r.0.E2),
                point_log(r.1.C_y_1),
                point_log(r.1.C_y_2),
                point_log(r.1.C_y_3),
                point_log(r.1.C_y_2_prime),
                scalar_value(*z),
            ),
            point_log(r.1.public_key.pk) == keypair@.pk,
            keypair_consistent(system_parameters@, keypair@) ==> accepts(
                r.1.proof,
                encryption_statement(
                    system_parameters@,
                    keypair@.pk,
                    point_log(r.1.C_y_2),
                    point_log(r.1.C_y_3),
                    point_log(r.1.C_y_2_prime),
                    fadd(point_log(r.1.C_y_1), fneg(point_log(r.0.E2))),
                    point_log(r.0.E1),
                ),
            ),
    {
        let ghost spv = system_parameters@;
        let ghost kpv = keypair@;
        let ghost zv = scalar_value(*z);

        // Encrypt the plaintext.
        let (ciphertext, M1, M2, m3) = keypair.encrypt(plaintext);

        // The vector of commitments to the plaintext.
        let C_y_1 = point_add(&M1, &point_mul(&system_parameters.G_y[0], z));
        let C_y_2 = point_add(&M2, &point_mul(&system_parameters.G_y[1], z));
        let C_y_3 = point_add(
            &point_mul(&system_parameters.G_m[2], &m3),
            &point_mul(&system_parameters.G_y[2], z),
        );
        let C_y_2_prime = point_mul(&C_y_2, &keypair.secret.a1);
        // z1 = -z*(a0 + a1*m3).
        let z1 = scalar_mul(
            &scalar_neg(z),
            &scalar_add(&keypair.secret.a0, &scalar_mul(&keypair.secret.a1, &m3)),
        );
        let C_y_1_minus_E2 = point_sub(&C_y_1, &ciphertext.E2);
        let minus_E1 = point_neg(&ciphertext.E1);

        let mut transcript = transcript_new("2019/1416 anonymous credentials");
        let mut prover = prover_new("2019/1416 proof of encryption", &mut transcript);

        let v_a = prover_allocate_scalar(&mut prover, "a", &keypair.secret.a);
        let v_a0 = prover_allocate_scalar(&mut prover, "a0", &keypair.secret.a0);
        let v_a1 = prover_allocate_scalar(&mut prover, "a1", &keypair.secret.a1);
        let v_m3 = prover_allocate_scalar(&mut prover, "m3", &m3);
        let v_z = prover_allocate_scalar(&mut prover, "z", z);
        let v_z1 = prover_allocate_scalar(&mut prover, "z1", &z1);

        let v_pk = prover_allocate_point(&mut prover, "pk", &keypair.public.pk);
        let v_G_a = prover_allocate_point(&mut prover, "G_a", &system_parameters.G_a);
        let v_G_a_0 = prover_allocate_point(&mut prover, "G_a_0", &system_parameters.G_a0);
        let v_G_a_1 = prover_allocate_point(&mut prover, "G_a_1", &system_parameters.G_a1);
        let v_G_y_1 = prover_allocate_point(&mut prover, "G_y_1", &system_parameters.G_y[0]);
        let v_G_y_2 = prover_allocate_point(&mut prover, "G_y_2", &system_parameters.G_y[1]);
        let v_G_y_3 = prover_allocate_point(&mut prover, "G_y_3", &system_parameters.G_y[2]);
        let v_G_m_3 = prover_allocate_point(&mut prover, "G_m_3", &system_parameters.G_m[2]);
        let v_C_y_2 = prover_allocate_point(&mut prover, "C_y_2", &C_y_2);
        let v_C_y_3 = prover_allocate_point(&mut prover, "C_y_3", &C_y_3);
        let v_C_y_2_prime = prover_allocate_point(&mut prover, "C_y_2'", &C_y_2_prime);
        let v_C_y_1_minus_E2 = prover_allocate_point(&mut prover, "C_y_1-E2", &C_y_1_minus_E2);
        let v_E1 = prover_allocate_point(&mut prover, "E1", &ciphertext.E1);
        let v_minus_E1 = prover_allocate_point(&mut prover, "-E1", &minus_E1);

        // Constraint 0: pk = a*G_a + a0*G_a0 + a1*G_a1.
        let mut terms0: Vec<(zkp::toolbox::prover::ScalarVar, zkp::toolbox::prover::PointVar)> =
            Vec::new();
        terms0.push((v_a, v_G_a));
        terms0.push((v_a0, v_G_a_0));
        terms0.push((v_a1, v_G_a_1));
        prover_constrain(&mut prover, v_pk, terms0);
        // Constraint 1: C_y_1 - E2 = z*G_y_1 + a*(-E1).
        let mut terms1: Vec<(zkp::toolbox::prover::ScalarVar, zkp::toolbox::prover::PointVar)> =
            Vec::new();
        terms1.push((v_z, v_G_y_1));
        terms1.push((v_a, v_minus_E1));
        prover_constrain(&mut prover, v_C_y_1_minus_E2, terms1);
        // Constraint 2: C_y_2' = a1*C_y_2.
        let mut terms2: Vec<(zkp::toolbox::prover::ScalarVar, zkp::toolbox::prover::PointVar)> =
            Vec::new();
        terms2.push((v_a1, v_C_y_2));
        prover_constrain(&mut prover, v_C_y_2_prime, terms2);
        // Constraint 3: E1 = a0*C_y_2 + m3*C_y_2' + z1*G_y_2.
        let mut terms3: Vec<(zkp::toolbox::prover::ScalarVar, zkp::toolbox::prover::PointVar)> =
            Vec::new();
        terms3.push((v_a0, v_C_y_2));
        terms3.push((v_m3, v_C_y_2_prime));
        terms3.push((v_z1, v_G_y_2));
        prover_constrain(&mut prover, v_E1, terms3);
        // Constraint 4: C_y_3 = z*G_y_3 + m3*G_m_3.
        let mut terms4: Vec<(zkp::toolbox::prover::ScalarVar, zkp::toolbox::prover::PointVar)> =
            Vec::new();
        terms4.push((v_z, v_G_y_3));
        terms4.push((v_m3, v_G_m_3));
        prover_constrain(&mut prover, v_C_y_3, terms4);

        let ghost stmt = encryption_statement(
            spv,
            kpv.pk,
            point_log(C_y_2),
            point_log(C_y_3),
            point_log(C_y_2_prime),
            fadd(point_log(C_y_1), fneg(point_log(ciphertext.E2))),
            point_log(ciphertext.E1),
        );
        proof {
            assert(prover@.stmt.scalar_labels =~= encryption_scalar_labels());
            assert(prover@.stmt.point_labels =~= encryption_point_labels());
            assert(prover@.stmt.point_values =~= stmt.point_values);
            assert(prover@.stmt.constraints[0].terms =~= seq![
                (0int, 1int),
                (1int, 2int),
                (2int, 3int),
            ]);
            assert(prover@.stmt.constraints[1].terms =~= seq![(4int, 4int), (0int, 13int)]);
            assert(prover@.stmt.constraints[2].terms =~= seq![(2int, 8int)]);
            assert(prover@.stmt.constraints[3].terms =~= seq![
                (1int, 8int),
                (3int, 10int),
                (5int, 5int),
            ]);
            assert(prover@.stmt.constraints[4].terms =~= seq![(4int, 6int), (3int, 7int)]);
            assert(prover@.stmt.constraints =~= encryption_constraints());
            assert(prover@.stmt == stmt);
            assert(prover@.witness =~= encryption_witness(
                kpv,
                crate::symmetric::plaintext_scalar(plaintext@),
                zv,
            ));
            lemma_encryption_statement_wf(
                spv,
                kpv.pk,
                point_log(C_y_2),
                point_log(C_y_3),
                point_log(C_y_2_prime),
                fadd(point_log(C_y_1), fneg(point_log(ciphertext.E2))),
                point_log(ciphertext.E1),
            );
            if keypair_consistent(spv, kpv) {
                lemma_encryption_satisfied(
                    spv,
                    kpv,
                    plaintext@,
                    point_log(ciphertext.E1),
                    point_log(ciphertext.E2),
                    point_log(C_y_1),
                    point_log(C_y_2),
                    point_log(C_y_3),
                    point_log(C_y_2_prime),
                    zv,
                );
            }
        }
        let compact = prover_prove_compact(prover);
        (
            ciphertext,
            ProofOfEncryption {
                proof: compact,
                public_key: keypair.public,
                C_y_1,
                C_y_2,
                C_y_3,
                C_y_2_prime,
            },
        )
    }

    /// Verify the proof against the encryption statement determined by the
    /// carried commitments, the ciphertext, and the public key. Verification
    /// succeeds exactly when no statement point is the identity and the
    /// engine accepts the proof.
    pub fn verify(
        &self,
        system_parameters: &SystemParameters,
        ciphertext: &Ciphertext,
        public_key: &PublicKey,
    ) -> (r: Result<(), CredentialError>)
        requires
            system_parameters.wf(),
            system_parameters@.n >= 3,
        ensures
            r is Ok <==> {
                &&& encryption_points_nonzero(
                    system_parameters@,
                    point_log(public_key.pk),
                    point_log(self.C_y_2),
                    point_log(self.C_y_3),
                    point_log(self.C_y_2_prime),
                    fadd(point_log(self.C_y_1), fneg(point_log(ciphertext.E2))),
                    point_log(ciphertext.E1),
                )
                &&& accepts(
                    self.proof,
                    encryption_statement(
                        system_parameters@,
                        point_log(public_key.pk),
                        point_log(self.C_y_2),
                        point_log(self.C_y_3),
                        point_log(self.C_y_2_prime),
                        fadd(point_log(self.C_y_1), fneg(point_log(ciphertext.E2))),
                        point_log(ciphertext.E1),
                    ),
                )
            },
            r is Err ==> r->Err_0 == CredentialError::VerificationFailure,
    {
        let ghost spv = system_parameters@;
        let ghost pkv = point_log(public_key.pk);
        let ghost pv = encryption_point_values(
            spv,
            pkv,
            point_log(self.C_y_2),
            point_log(self.C_y_3),
            point_log(self.C_y_2_prime),
            fadd(point_log(self.C_y_1), fneg(point_log(ciphertext.E2))),
            point_log(ciphertext.E1),
        );
        let C_y_1_minus_E2 = point_sub(&self.C_y_1, &ciphertext.E2);
        let minus_E1 = point_neg(&ciphertext.E1);
        proof {
            lemma_encryption_statement_wf(
                spv,
                pkv,
                point_log(self.C_y_2),
                point_log(self.C_y_3),
                point_log(self.C_y_2_prime),
                fadd(point_log(self.C_y_1), fneg(point_log(ciphertext.E2))),
                point_log(ciphertext.E1),
            );
        }

        let mut transcript = transcript_new("2019/1416 anonymous credentials");
        let mut verifier = verifier_new("2019/1416 proof of encryption", &mut transcript);

        let v_a = verifier_allocate_scalar(&mut verifier, "a");
        let v_a0 = verifier_allocate_scalar(&mut verifier, "a0");
        let v_a1 = verifier_allocate_scalar(&mut verifier, "a1");
        let v_m3 = verifier_allocate_scalar(&mut verifier, "m3");
        let v_z = verifier_allocate_scalar(&mut verifier, "z");
        let v_z1 = verifier_allocate_scalar(&mut verifier, "z1");

        let v_pk = match verifier_allocate_point(&mut verifier, "pk", &public_key.pk) {
            Some(v) => v,
            None => {
                proof {
                    assert(pv[0] == 0);
                }
                return Err(CredentialError::VerificationFailure);
            },
        };
        let v_G_a = match verifier_allocate_point(&mut verifier, "G_a", &system_parameters.G_a) {
            Some(v) => v,
            None => {
                proof {
                    assert(pv[1] == 0);
                }
                return Err(CredentialError::VerificationFailure);
            },
        };
        let v_G_a_0 = match verifier_allocate_point(&mut verifier, "G_a_0", &system_parameters.G_a0) {
            Some(v) => v,
            None => {
                proof {
                    assert(pv[2] == 0);
                }
                return Err(CredentialError::VerificationFailure);
            },
        };
        let v_G_a_1 = match verifier_allocate_point(&mut verifier, "G_a_1", &system_parameters.G_a1) {
            Some(v) => v,
            None => {
                proof {
                    assert(pv[3] == 0);
                }
                return Err(CredentialError::VerificationFailure);
            },
        };
        let v_G_y_1 = match verifier_allocate_point(&mut verifier, "G_y_1", &system_parameters.G_y[0]) {
            Some(v) => v,
            None => {
                proof {
                    assert(pv[4] == 0);
                }
                return Err(CredentialError::VerificationFailure);
            },
        };
        let v_G_y_2 = match verifier_allocate_point(&mut verifier, "G_y_2", &system_parameters.G_y[1]) {
            Some(v) => v,
            None => {
                proof {
                    assert(pv[5] == 0);
                }
                return Err(CredentialError::VerificationFailure);
            },
        };
        let v_G_y_3 = match verifier_allocate_point(&mut verifier, "G_y_3", &system_parameters.G_y[2]) {
            Some(v) => v,
            None => {
                proof {
                    assert(pv[6] == 0);
                }
                return Err(CredentialError::VerificationFailure);
            },
        };
        let v_G_m_3 = match verifier_allocate_point(&mut verifier, "G_m_3", &system_parameters.G_m[2]) {
            Some(v) => v,
            None => {
                proof {
                    assert(pv[7] == 0);
                }
                return Err(CredentialError::VerificationFailure);
            },
        };
        let v_C_y_2 = match verifier_allocate_point(&mut verifier, "C_y_2", &self.C_y_2) {
            Some(v) => v,
            None => {
                proof {
                    assert(pv[8] == 0);
                }
                return Err(CredentialError::VerificationFailure);
            },
        };
        let v_C_y_3 = match verifier_allocate_point(&mut verifier, "C_y_3", &self.C_y_3) {
            Some(v) => v,
            None => {
                proof {
                    assert(pv[9] == 0);
                }
                return Err(CredentialError::VerificationFailure);
            },
        };
        let v_C_y_2_prime = match verifier_allocate_point(&mut verifier, "C_y_2'", &self.C_y_2_prime) {
            Some(v) => v,
            None => {
                proof {
                    assert(pv[10] == 0);
                }
                return Err(CredentialError::VerificationFailure);
            },
        };
        let v_C_y_1_minus_E2 = match verifier_allocate_point(
            &mut verifier,
            "C_y_1-E2",
            &C_y_1_minus_E2,
        ) {
            Some(v) => v,
            None => {
                proof {
                    assert(pv[11] == 0);
                }
                return Err(CredentialError::VerificationFailure);
            },
        };
        let v_E1 = match verifier_allocate_point(&mut verifier, "E1", &ciphertext.E1) {
            Some(v) => v,
            None => {
                proof {
                    assert(pv[12] == 0);
                }
                return Err(CredentialError::VerificationFailure);
            },
        };
        let v_minus_E1 = match verifier_allocate_point(&mut verifier, "-E1", &minus_E1) {
            Some(v) => v,
            None => {
                proof {
                    assert(pv[13] == 0);
                }
                return Err(CredentialError::VerificationFailure);
            },
        };

        // Constraint 0: pk = a*G_a + a0*G_a0 + a1*G_a1.
        let mut terms0: Vec<(zkp::toolbox::verifier::ScalarVar, zkp::toolbox::verifier::PointVar)> =
            Vec::new();
        terms0.push((v_a, v_G_a));
        terms0.push((v_a0, v_G_a_0));
        terms0.push((v_a1, v_G_a_1));
        verifier_constrain(&mut verifier, v_pk, terms0);
        // Constraint 1: C_y_1 - E2 = z*G_y_1 + a*(-E1).
        let mut terms1: Vec<(zkp::toolbox::verifier::ScalarVar, zkp::toolbox::verifier::PointVar)> =
            Vec::new();
        terms1.push((v_z, v_G_y_1));
        terms1.push((v_a, v_minus_E1));
        verifier_constrain(&mut verifier, v_C_y_1_minus_E2, terms1);
        // Constraint 2: C_y_2' = a1*C_y_2.
        let mut terms2: Vec<(zkp::toolbox::verifier::ScalarVar, zkp::toolbox::verifier::PointVar)> =
            Vec::new();
        terms2.push((v_a1, v_C_y_2));
        verifier_constrain(&mut verifier, v_C_y_2_prime, terms2);
        // Constraint 3: E1 = a0*C_y_2 + m3*C_y_2' + z1*G_y_2.
        let mut terms3: Vec<(zkp::toolbox::verifier::ScalarVar, zkp::toolbox::verifier::PointVar)> =
            Vec::new();
        terms3.push((v_a0, v_C_y_2));
        terms3.push((v_m3, v_C_y_2_prime));
        terms3.push((v_z1, v_G_y_2));
        verifier_constrain(&mut verifier, v_E1, terms3);
        // Constraint 4: C_y_3 = z*G_y_3 + m3*G_m_3.
        let mut terms4: Vec<(zkp::toolbox::verifier::ScalarVar, zkp::toolbox::verifier::PointVar)> =
            Vec::new();
        terms4.push((v_z, v_G_y_3));
        terms4.push((v_m3, v_G_m_3));
        verifier_constrain(&mut verifier, v_C_y_3, terms4);

        proof {
            assert(verifier@.scalar_labels =~= encryption_scalar_labels());
            assert(verifier@.point_labels =~= encryption_point_labels());
            assert(verifier@.point_values =~= pv);
            assert(verifier@.constraints[0].terms =~= seq![
                (0int, 1int),
                (1int, 2int),
                (2int, 3int),
            ]);
            assert(verifier@.constraints[1].terms =~= seq![(4int, 4int), (0int, 13int)]);
            assert(verifier@.constraints[2].terms =~= seq![(2int, 8int)]);
            assert(verifier@.constraints[3].terms =~= seq![
                (1int, 8int),
                (3int, 10int),
                (5int, 5int),
            ]);
            assert(verifier@.constraints[4].terms =~= seq![(4int, 6int), (3int, 7int)]);
            assert(verifier@.constraints =~= encryption_constraints());
            assert forall|j: int| 0 <= j < 14 implies #[trigger] pv[j] != 0 by {
            }
        }
        if verifier_verify_compact(verifier, &self.proof) {
            Ok(())
        } else {
            Err(CredentialError::VerificationFailure)
        }
    }
}

/// The encryption statement is well formed.
pub proof fn lemma_encryption_statement_wf(
    sp: SystemParametersV,
    pk: nat,
    c_y_2: nat,
    c_y_3: nat,
    c_y_2_prime: nat,
    c_y_1_minus_e2: nat,
    e1: nat,
)
    requires
        sp.g_y.len() >= 3,
        sp.g_m.len() >= 3,
    ensures
        stmt_wf(encryption_statement(sp, pk, c_y_2, c_y_3, c_y_2_prime, c_y_1_minus_e2, e1)),
{
    let stmt = encryption_statement(sp, pk, c_y_2, c_y_3, c_y_2_prime, c_y_1_minus_e2, e1);
    assert forall|i: int| 0 <= i < stmt.constraints.len() implies crate::engine::constraint_in_range(
        #[trigger] stmt.constraints[i],
        stmt.scalar_labels.len() as int,
        stmt.point_values.len() as int,
    ) by {
        assert(stmt.constraints.len() == 5);
        assert(crate::engine::constraint_in_range(stmt.constraints[0], 6, 14));
        assert(crate::engine::constraint_in_range(stmt.constraints[1], 6, 14));
        assert(crate::engine::constraint_in_range(stmt.constraints[2], 6, 14));
        assert(crate::engine::constraint_in_range(stmt.constraints[3], 6, 14));
        assert(crate::engine::constraint_in_range(stmt.constraints[4], 6, 14));
    }
}

} // verus!
