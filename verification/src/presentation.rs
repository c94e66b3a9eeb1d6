//! Proof of valid credential: the holder proves possession of a valid MAC
//! over a vector of attributes, hiding the MAC and the hidden attributes
//! behind commitments blinded by a fresh nonce.

use vstd::prelude::*;
use crate::amacs::{
    attributes_view, lemma_secret_scalar_values_index, lemma_secret_scalar_values_take,
    secret_count, secret_scalar_values, Attribute, AttributeV,
};
use crate::credential::{AnonymousCredential, AnonymousCredentialV};
use crate::engine::{
    accepts, lc_value, prover_allocate_point, prover_allocate_scalar, prover_constrain,
    prover_new, prover_prove_compact, satisfied, stmt_wf, transcript_new,
    verifier_allocate_point, verifier_allocate_scalar, verifier_constrain, verifier_new,
    verifier_verify_compact, Constraint, Statement,
};
use crate::errors::CredentialError;
use crate::field::{
    fadd, fmul, fneg, group_order, lemma_fadd_assoc, lemma_fadd_comm, lemma_fadd_fneg,
    lemma_fadd_mod_noop, lemma_fadd_reduced, lemma_fadd_tail, lemma_fadd_zero, lemma_fmul_assoc,
    lemma_fmul_distrib, lemma_fmul_one, lemma_fneg_fmul, lemma_mod_noop,
};
use crate::group::{
    point_add, point_identity, point_log, point_mul, scalar_mul, scalar_neg, scalar_one,
    scalar_random, scalar_value,
};
use crate::issuance::{lemma_lc_empty, lemma_lc_step};
use crate::parameters::{IssuerParameters, IssuerParametersV, SystemParameters, SystemParametersV};
use curve25519_dalek_ng::ristretto::RistrettoPoint;
use curve25519_dalek_ng::scalar::Scalar;
use rand::rngs::ThreadRng;
use zkp::CompactProof;

verus! {

/// A proof of possession of a valid credential, together with the blinded
/// commitments that the verifier reconstructs the statement from.
pub struct ProofOfValidCredential {
    pub proof: CompactProof,
    pub C_x_0: RistrettoPoint,
    pub C_x_1: RistrettoPoint,
    pub C_V: RistrettoPoint,
    pub C_y: Vec<RistrettoPoint>,
    pub Z: RistrettoPoint,
}

/// The models of the commitments of a presentation.
pub ghost struct PresCommitmentsV {
    pub z_big: nat,
    pub c_x_0: nat,
    pub c_x_1: nat,
    pub c_v: nat,
    pub c_y: Seq<nat>,
}

/// The commitment models carried by a presentation proof.
pub open spec fn presentation_commitments(p: ProofOfValidCredential) -> PresCommitmentsV {
    PresCommitmentsV {
        z_big: point_log(p.Z),
        c_x_0: point_log(p.C_x_0),
        c_x_1: point_log(p.C_x_1),
        c_v: point_log(p.C_V),
        c_y: p.C_y@.map_values(|q: RistrettoPoint| point_log(q)),
    }
}

/// What an attribute contributes to its commitment `C_y[i]`: nothing when
/// revealed, the hidden point, or the hidden scalar times its message base.
pub open spec fn commitment_term(a: AttributeV, g_m_i: nat) -> nat {
    match a {
        AttributeV::PublicScalar(_) => 0,
        AttributeV::PublicPoint(_) => 0,
        AttributeV::SecretPoint(p) => p,
        AttributeV::SecretScalar(m) => fmul(m, g_m_i),
    }
}

/// The point allocated for the attribute's message variable: the identity
/// when revealed, the hidden point, or the message base that the hidden
/// scalar is proven against.
pub open spec fn pres_message_value(a: AttributeV, g_m_i: nat) -> nat {
    match a {
        AttributeV::PublicScalar(_) => 0,
        AttributeV::PublicPoint(_) => 0,
        AttributeV::SecretPoint(p) => p,
        AttributeV::SecretScalar(_) => g_m_i,
    }
}

/// The message-variable values of a presentation, per attribute index.
pub open spec fn pres_message_values(attributes: Seq<AttributeV>, g_m: Seq<nat>) -> Seq<nat> {
    Seq::new(attributes.len(), |i: int| pres_message_value(attributes[i], g_m[i]))
}

/// Scalar labels of the presentation statement, in allocation order.
pub open spec fn presentation_scalar_labels(n_secret: nat) -> Seq<Seq<char>> {
    seq!["1"@, "z"@, "z_0"@, "t"@] + Seq::new(n_secret, |i: int| "m"@)
}

/// Point labels of the presentation statement, in allocation order.
pub open spec fn presentation_point_labels(n: nat) -> Seq<Seq<char>> {
    seq!["Z"@, "I"@, "C_x_1"@, "C_x_0"@, "G_x_0"@, "G_x_1"@] + Seq::new(n, |i: int| "C_y"@)
        + Seq::new(n, |i: int| "G_y"@) + Seq::new(n, |i: int| "M"@)
}

/// Point values of the presentation statement, in allocation order.
pub open spec fn presentation_point_values(
    sp: SystemParametersV,
    ip: IssuerParametersV,
    attributes: Seq<AttributeV>,
    coms: PresCommitmentsV,
) -> Seq<nat> {
    seq![coms.z_big, ip.i, coms.c_x_1, coms.c_x_0, sp.g_x_0, sp.g_x_1] + coms.c_y + sp.g_y
        + pres_message_values(attributes, sp.g_m)
}

/// The witness of the presentation statement, in allocation order.
pub open spec fn presentation_witness(t: nat, z: nat, attributes: Seq<AttributeV>) -> Seq<nat> {
    seq![1nat, z, fmul(fneg(t), z), t] + secret_scalar_values(attributes)
}

/// The scalar-variable index used in the constraint of `C_y[i]`: the hidden
/// scalar's variable, or the constant one.
pub open spec fn pres_m_scalar_index(attributes: Seq<AttributeV>, i: int) -> int {
    match attributes[i] {
        AttributeV::SecretScalar(_) => 4 + secret_count(attributes, i) as int,
        _ => 0,
    }
}

/// The presentation constraints, over variable indices: `Z = z*I`,
/// `C_x_1 = t*C_x_0 + z_0*G_x_0 + z*G_x_1`, and for each attribute
/// `C_y[i] = z*G_y[i] + s*M[i]` with `s` the hidden scalar or one.
pub open spec fn presentation_constraints(attributes: Seq<AttributeV>, n: nat) -> Seq<Constraint> {
    seq![
        Constraint { lhs: 0, terms: seq![(1int, 1int)] },
        Constraint { lhs: 2, terms: seq![(3int, 3int), (2int, 4int), (1int, 5int)] },
    ] + Seq::new(
        n,
        |i: int|
            Constraint {
                lhs: 6 + i,
                terms: seq![
                    (1int, 6 + n as int + i),
                    (pres_m_scalar_index(attributes, i), 6 + 2 * n as int + i),
                ],
            },
    )
}

/// The full presentation statement.
pub open spec fn presentation_statement(
    sp: SystemParametersV,
    ip: IssuerParametersV,
    attributes: Seq<AttributeV>,
    coms: PresCommitmentsV,
) -> Statement {
    Statement {
        transcript_label: "2019/1416 anonymous credential"@,
        proof_label: "2019/1416 presentation proof"@,
        scalar_labels: presentation_scalar_labels(secret_scalar_values(attributes).len()),
        point_labels: presentation_point_labels(sp.n),
        point_values: presentation_point_values(sp, ip, attributes, coms),
        constraints: presentation_constraints(attributes, sp.n),
    }
}

/// The commitments were derived from the credential with the nonce `z`.
pub open spec fn presentation_honest(
    sp: SystemParametersV,
    ip: IssuerParametersV,
    cred: AnonymousCredentialV,
    coms: PresCommitmentsV,
    z: nat,
) -> bool {
    &&& coms.z_big == fmul(z, ip.i)
    &&& coms.c_x_0 == fadd(fmul(z, sp.g_x_0), cred.u)
    &&& coms.c_x_1 == fadd(fmul(z, sp.g_x_1), fmul(cred.t, cred.u))
    &&& coms.c_v == fadd(fmul(z, sp.g_v), cred.v)
    &&& coms.c_y.len() == sp.n
    &&& forall|i: int|
        0 <= i < sp.n ==> #[trigger] coms.c_y[i] == fadd(
            fmul(z, sp.g_y[i]),
            commitment_term(cred.attributes[i], sp.g_m[i]),
        )
}

/// No point of the presentation statement is the identity element.
pub open spec fn presentation_points_nonzero(
    sp: SystemParametersV,
    ip: IssuerParametersV,
    attributes: Seq<AttributeV>,
    coms: PresCommitmentsV,
) -> bool {
    forall|j: int|
        0 <= j < presentation_point_values(sp, ip, attributes, coms).len()
            ==> #[trigger] presentation_point_values(sp, ip, attributes, coms)[j] != 0
}

/// Bounds of the hidden-scalar indices, and well-formedness of the
/// presentation statement.
pub proof fn lemma_presentation_statement_wf(
    sp: SystemParametersV,
    ip: IssuerParametersV,
    attributes: Seq<AttributeV>,
    coms: PresCommitmentsV,
)
    requires
        sp.g_y.len() == sp.n,
        sp.g_m.len() == sp.n,
        attributes.len() == sp.n,
        coms.c_y.len() == sp.n,
    ensures
        stmt_wf(presentation_statement(sp, ip, attributes, coms)),
        presentation_point_values(sp, ip, attributes, coms).len() == 6 + 3 * sp.n,
        presentation_scalar_labels(secret_scalar_values(attributes).len()).len() == 4
            + secret_scalar_values(attributes).len(),
{
    let stmt = presentation_statement(sp, ip, attributes, coms);
    let n_s = secret_scalar_values(attributes).len();
    assert forall|i: int| 0 <= i < stmt.constraints.len() implies crate::engine::constraint_in_range(
        #[trigger] stmt.constraints[i],
        stmt.scalar_labels.len() as int,
        stmt.point_values.len() as int,
    ) by {
        if i >= 2 {
            let k = i - 2;
            if attributes[k] is SecretScalar {
                lemma_secret_scalar_values_index(attributes, k);
            }
        }
    }
}

/// The algebra of the `C_x_1` constraint: with `z_0 = -t*z`, the blinded
/// terms cancel.
proof fn lemma_cx1_algebra(z: nat, t: nat, u: nat, gx0: nat, gx1: nat)
    ensures
        fadd(
            fmul(t, fadd(fmul(z, gx0), u)),
            fadd(fmul(fmul(fneg(t), z), gx0), fadd(fmul(z, gx1), 0)),
        ) == fadd(fmul(z, gx1), fmul(t, u)),
{
    let a = fmul(t, fmul(z, gx0));
    let b = fmul(t, u);
    let c = fmul(z, gx1);
    lemma_fmul_distrib(t, fmul(z, gx0), u);
    assert(fmul(t, fadd(fmul(z, gx0), u)) == fadd(a, b)) by {
        crate::field::lemma_fmul_mod_noop(t, (fmul(z, gx0) + u) as nat);
        lemma_fmul_distrib(t, fmul(z, gx0), u);
    }
    assert(fmul(fmul(fneg(t), z), gx0) == fneg(a)) by {
        lemma_fmul_assoc(fneg(t), z, gx0);
        lemma_fneg_fmul(t, fmul(z, gx0));
    }
    lemma_fadd_reduced(fmul(z, gx0), u);
    lemma_fadd_zero(c);
    lemma_fadd_reduced(z * gx1, 0);
    assert(fadd(c, 0) == c) by {
        lemma_mod_noop((z * gx1) as nat);
    }
    // fadd(fadd(a, b), fadd(fneg a, c)) == fadd(c, b)
    lemma_fadd_assoc(a, b, fadd(fneg(a), c));
    lemma_fadd_assoc(b, fneg(a), c);
    lemma_fadd_comm(b, fneg(a));
    lemma_fadd_assoc(fneg(a), b, c);
    assert(fadd(b, fadd(fneg(a), c)) == fadd(fneg(a), fadd(b, c)));
    lemma_fadd_assoc(a, fneg(a), fadd(b, c));
    lemma_fadd_fneg(a);
    lemma_fadd_zero(fadd(b, c));
    lemma_fadd_reduced(b, c);
    assert(fadd(a, fadd(fneg(a), fadd(b, c))) == fadd(b, c));
    lemma_fadd_comm(b, c);
}

/// Completeness of the presentation statement: commitments derived from any
/// credential with any nonce satisfy every constraint with the holder's
/// witness, with no assumption on how the credential was made. Together with
/// the contracts of `ProofOfValidCredential::prove` and
/// `ProofOfValidCredential::verify`, a presentation verifies against the
/// same attribute vector whenever no statement point is the identity.
pub proof fn lemma_presentation_satisfied(
    sp: SystemParametersV,
    ip: IssuerParametersV,
    cred: AnonymousCredentialV,
    coms: PresCommitmentsV,
    z: nat,
)
    requires
        sp.g_y.len() == sp.n,
        sp.g_m.len() == sp.n,
        cred.attributes.len() == sp.n,
        presentation_honest(sp, ip, cred, coms, z),
    ensures
        satisfied(
            presentation_statement(sp, ip, cred.attributes, coms),
            presentation_witness(cred.t, z, cred.attributes),
        ),
{
    let attrs = cred.attributes;
    let stmt = presentation_statement(sp, ip, attrs, coms);
    let w = presentation_witness(cred.t, z, attrs);
    let pv = stmt.point_values;
    let n = sp.n;
    // Constraint 0: Z = z*I.
    let c0 = stmt.constraints[0];
    lemma_lc_step(pv, w, c0.terms);
    assert(c0.terms.drop_first() =~= Seq::<(int, int)>::empty());
    lemma_lc_empty(pv, w);
    assert(w[1] == z);
    assert(pv[1] == ip.i);
    assert(lc_value(pv, w, c0.terms) == fadd(fmul(z, ip.i), 0));
    lemma_fadd_zero(fmul(z, ip.i));
    lemma_mod_noop((z * ip.i) as nat);
    assert(pv[c0.lhs] == coms.z_big);
    assert(constraint_ok(stmt, w, 0));
    // Constraint 1: C_x_1 = t*C_x_0 + z_0*G_x_0 + z*G_x_1.
    let c1 = stmt.constraints[1];
    lemma_lc_step(pv, w, c1.terms);
    assert(c1.terms.drop_first() =~= seq![(2int, 4int), (1int, 5int)]);
    lemma_lc_step(pv, w, seq![(2int, 4int), (1int, 5int)]);
    assert(seq![(2int, 4int), (1int, 5int)].drop_first() =~= seq![(1int, 5int)]);
    lemma_lc_step(pv, w, seq![(1int, 5int)]);
    assert(seq![(1int, 5int)].drop_first() =~= Seq::<(int, int)>::empty());
    lemma_lc_empty(pv, w);
    assert(w[3] == cred.t);
    assert(w[2] == fmul(fneg(cred.t), z));
    assert(pv[3] == coms.c_x_0);
    assert(pv[4] == sp.g_x_0);
    assert(pv[5] == sp.g_x_1);
    assert(lc_value(pv, w, c1.terms) == fadd(
        fmul(cred.t, coms.c_x_0),
        fadd(fmul(fmul(fneg(cred.t), z), sp.g_x_0), fadd(fmul(z, sp.g_x_1), 0)),
    ));
    lemma_cx1_algebra(z, cred.t, cred.u, sp.g_x_0, sp.g_x_1);
    lemma_fadd_comm(fmul(z, sp.g_x_1), fmul(cred.t, cred.u));
    assert(pv[c1.lhs] == coms.c_x_1);
    lemma_fadd_reduced(fmul(z, sp.g_x_1), fmul(cred.t, cred.u));
    assert(constraint_ok(stmt, w, 1));
    // Constraint 2 + i: C_y[i] = z*G_y[i] + s*M[i].
    assert forall|k: int| 2 <= k < stmt.constraints.len() implies constraint_ok(stmt, w, k) by {
        let i = k - 2;
        let ci = stmt.constraints[k];
        assert(ci == Constraint {
            lhs: 6 + i,
            terms: seq![
                (1int, 6 + n as int + i),
                (pres_m_scalar_index(attrs, i), 6 + 2 * n as int + i),
            ],
        });
        lemma_lc_step(pv, w, ci.terms);
        assert(ci.terms.drop_first() =~= seq![
            (pres_m_scalar_index(attrs, i), 6 + 2 * n as int + i),
        ]);
        lemma_lc_step(pv, w, seq![(pres_m_scalar_index(attrs, i), 6 + 2 * n as int + i)]);
        assert(seq![(pres_m_scalar_index(attrs, i), 6 + 2 * n as int + i)].drop_first()
            =~= Seq::<(int, int)>::empty());
        lemma_lc_empty(pv, w);
        let zgy = fmul(z, sp.g_y[i]);
        assert(pv[6 + n as int + i] == sp.g_y[i]);
        let mval = pres_message_value(attrs[i], sp.g_m[i]);
        assert(pv[6 + 2 * n as int + i] == mval);
        let sidx = pres_m_scalar_index(attrs, i);
        let second = fmul(w[sidx], mval);
        assert(lc_value(pv, w, ci.terms) == fadd(zgy, fadd(second, 0)));
        lemma_fadd_tail(zgy, second);
        let cterm = commitment_term(attrs[i], sp.g_m[i]);
        assert(fadd(zgy, second) == fadd(zgy, cterm)) by {
            match attrs[i] {
                AttributeV::PublicScalar(_) => {
                    assert(w[0] == 1nat);
                    lemma_fmul_one(0);
                    crate::field::lemma_mod_noop(0);
                },
                AttributeV::PublicPoint(_) => {
                    assert(w[0] == 1nat);
                    lemma_fmul_one(0);
                    crate::field::lemma_mod_noop(0);
                },
                AttributeV::SecretPoint(p) => {
                    assert(w[0] == 1nat);
                    lemma_fmul_one(p);
                    lemma_fadd_mod_noop(zgy, p);
                },
                AttributeV::SecretScalar(m) => {
                    lemma_secret_scalar_values_index(attrs, i);
                    assert(w[sidx] == m);
                },
            }
        }
        assert(pv[ci.lhs] == coms.c_y[i]);
        lemma_fadd_reduced(fmul(z, sp.g_y[i]), cterm);
        assert(coms.c_y[i] == fadd(zgy, cterm));
    }
    assert forall|k: int| 0 <= k < stmt.constraints.len() implies crate::engine::constraint_holds(
        stmt,
        w,
        #[trigger] stmt.constraints[k],
    ) by {
        if k == 0 {
            assert(constraint_ok(stmt, w, 0));
        } else if k == 1 {
            assert(constraint_ok(stmt, w, 1));
        } else {
            assert(constraint_ok(stmt, w, k));
        }
    }
}

/// Abbreviation: the `i`-th constraint of a statement holds.
pub open spec fn constraint_ok(stmt: Statement, witness: Seq<nat>, i: int) -> bool {
    crate::engine::constraint_holds(stmt, witness, stmt.constraints[i])
}

impl ProofOfValidCredential {
    /// Prove possession of a valid credential. A fresh nonce blinds the MAC
    /// and every attribute commitment; the proof is always accepted for the
    /// statement over the returned commitments.
    #[verifier::loop_isolation(false)]
    pub fn prove(
        system_parameters: &SystemParameters,
        issuer_parameters: &IssuerParameters,
        credential: &AnonymousCredential,
        csprng: &mut ThreadRng,
    ) -> (r: ProofOfValidCredential)
        requires
            system_parameters.wf(),
            credential.wf(system_parameters@),
        ensures
            exists|z: nat|
                {
                    &&& z < group_order()
                    &&& #[trigger] presentation_honest(
                        system_parameters@,
                        issuer_parameters@,
                        credential@,
                        presentation_commitments(r),
                        z,
                    )
                    &&& accepts(
                        r.proof,
                        presentation_statement(
                            system_parameters@,
                            issuer_parameters@,
                            credential@.attributes,
                            presentation_commitments(r),
                        ),
                    )
                },
    {
        let ghost spv = system_parameters@;
        let ghost ipv = issuer_parameters@;
        let ghost credv = credential@;
        let ghost attrsv = credv.attributes;
        let n: usize = credential.attributes.len();

        let z = scalar_random(csprng);
        let ghost zv = scalar_value(z);
        let z_0 = scalar_mul(&scalar_neg(&credential.amac.t), &z);

        // Commitments to the attributes; hidden scalars are collected for the
        // proof of knowledge.
        let mut c_y_points: Vec<RistrettoPoint> = Vec::new();
        let mut m_points: Vec<RistrettoPoint> = Vec::new();
        let mut h_s: Vec<Scalar> = Vec::new();
        let mut i: usize = 0;
        while i < n
            invariant
                i <= n,
                c_y_points@.len() == i as nat,
                m_points@.len() == i as nat,
                forall|j: int|
                    0 <= j < i as int ==> point_log(#[trigger] c_y_points@[j]) == fadd(
                        fmul(zv, spv.g_y[j]),
                        commitment_term(attrsv[j], spv.g_m[j]),
                    ),
                forall|j: int|
                    0 <= j < i as int ==> point_log(#[trigger] m_points@[j]) == pres_message_value(
                        attrsv[j],
                        spv.g_m[j],
                    ),
                h_s@.map_values(|s: Scalar| scalar_value(s)) == secret_scalar_values(
                    attrsv.take(i as int),
                ),
            decreases n - i,
        {
            let (cterm, mpoint): (RistrettoPoint, RistrettoPoint) = match &credential.attributes[i] {
                Attribute::PublicScalar(_) => (point_identity(), point_identity()),
                Attribute::PublicPoint(_) => (point_identity(), point_identity()),
                Attribute::SecretPoint(p) => (*p, *p),
                Attribute::SecretScalar(m) => {
                    h_s.push(*m);
                    (point_mul(&system_parameters.G_m[i], m), system_parameters.G_m[i])
                },
            };
            let c_y_i = point_add(&point_mul(&system_parameters.G_y[i], &z), &cterm);
            c_y_points.push(c_y_i);
            m_points.push(mpoint);
            proof {
                lemma_secret_scalar_values_take(attrsv, i as int);
                assert(h_s@.map_values(|s: Scalar| scalar_value(s)) =~= secret_scalar_values(
                    attrsv.take(i as int + 1),
                ));
            }
            i = i + 1;
        }
        proof {
            assert(attrsv.take(n as int) =~= attrsv);
        }
        let ghost hsv = secret_scalar_values(attrsv);
        let n_s: usize = h_s.len();

        let C_x_0 = point_add(
            &point_mul(&system_parameters.G_x_0, &z),
            &credential.amac.U,
        );
        let C_x_1 = point_add(
            &point_mul(&system_parameters.G_x_1, &z),
            &point_mul(&credential.amac.U, &credential.amac.t),
        );
        let C_V = point_add(&point_mul(&system_parameters.G_V, &z), &credential.amac.V);
        let Z_big = point_mul(&issuer_parameters.I, &z);

        let mut transcript = transcript_new("2019/1416 anonymous credential");
        let mut prover = prover_new("2019/1416 presentation proof", &mut transcript);

        let one_scalar = scalar_one();
        let v_one = prover_allocate_scalar(&mut prover, "1", &one_scalar);
        let v_z = prover_allocate_scalar(&mut prover, "z", &z);
        let v_z_0 = prover_allocate_scalar(&mut prover, "z_0", &z_0);
        let v_t = prover_allocate_scalar(&mut prover, "t", &credential.amac.t);
        proof {
            assert(prover@.stmt.scalar_labels =~= seq!["1"@, "z"@, "z_0"@, "t"@] + Seq::new(
                0,
                |k: int| "m"@,
            ));
            assert(prover@.witness =~= seq![1nat, zv, fmul(fneg(credv.t), zv), credv.t]
                + hsv.subrange(0, 0));
        }
        let mut m_scalar_vars: Vec<zkp::toolbox::prover::ScalarVar> = Vec::new();
        let mut i: usize = 0;
        while i < n_s
            invariant
                i <= n_s,
                n_s == hsv.len(),
                n_s == h_s@.len(),
                h_s@.map_values(|s: Scalar| scalar_value(s)) == hsv,
                m_scalar_vars@.len() == i as nat,
                forall|j: int|
                    0 <= j < i as int ==> crate::engine::prover_scalar_index(
                        #[trigger] m_scalar_vars@[j],
                    ) == 4 + j,
                prover@.stmt.transcript_label == "2019/1416 anonymous credential"@,
                prover@.stmt.proof_label == "2019/1416 presentation proof"@,
                prover@.stmt.scalar_labels == seq!["1"@, "z"@, "z_0"@, "t"@] + Seq::new(
                    i as nat,
                    |k: int| "m"@,
                ),
                prover@.stmt.point_labels == Seq::<Seq<char>>::empty(),
                prover@.stmt.point_values == Seq::<nat>::empty(),
                prover@.stmt.constraints == Seq::<Constraint>::empty(),
                prover@.witness == seq![1nat, zv, fmul(fneg(credv.t), zv), credv.t] + hsv.subrange(
                    0,
                    i as int,
                ),
            decreases n_s - i,
        {
            let v = prover_allocate_scalar(&mut prover, "m", &h_s[i]);
            m_scalar_vars.push(v);
            proof {
                assert(prover@.stmt.scalar_labels =~= seq!["1"@, "z"@, "z_0"@, "t"@] + Seq::new(
                    (i + 1) as nat,
                    |k: int| "m"@,
                ));
                assert(scalar_value(h_s@[i as int]) == hsv[i as int]);
                assert(prover@.witness =~= seq![1nat, zv, fmul(fneg(credv.t), zv), credv.t]
                    + hsv.subrange(0, i as int + 1));
            }
            i = i + 1;
        }
        proof {
            assert(hsv.subrange(0, n_s as int) =~= hsv);
            assert(prover@.stmt.scalar_labels =~= presentation_scalar_labels(hsv.len()));
            assert(prover@.witness =~= presentation_witness(credv.t, zv, attrsv));
        }

        let v_Z = prover_allocate_point(&mut prover, "Z", &Z_big);
        let v_I = prover_allocate_point(&mut prover, "I", &issuer_parameters.I);
        let v_C_x_1 = prover_allocate_point(&mut prover, "C_x_1", &C_x_1);
        let v_C_x_0 = prover_allocate_point(&mut prover, "C_x_0", &C_x_0);
        let v_G_x_0 = prover_allocate_point(&mut prover, "G_x_0", &system_parameters.G_x_0);
        let v_G_x_1 = prover_allocate_point(&mut prover, "G_x_1", &system_parameters.G_x_1);
        let ghost cyv = c_y_points@.map_values(|q: RistrettoPoint| point_log(q));
        let ghost base_labels = seq!["Z"@, "I"@, "C_x_1"@, "C_x_0"@, "G_x_0"@, "G_x_1"@];
        let ghost base_values = seq![
            point_log(Z_big),
            ipv.i,
            point_log(C_x_1),
            point_log(C_x_0),
            spv.g_x_0,
            spv.g_x_1,
        ];
        proof {
            assert(prover@.stmt.point_labels =~= base_labels + Seq::new(0, |k: int| "C_y"@));
            assert(prover@.stmt.point_values =~= base_values + cyv.subrange(0, 0));
        }
        let mut cy_vars: Vec<zkp::toolbox::prover::PointVar> = Vec::new();
        let mut i: usize = 0;
        while i < n
            invariant
                i <= n,
                n == c_y_points@.len(),
                cyv == c_y_points@.map_values(|q: RistrettoPoint| point_log(q)),
                cy_vars@.len() == i as nat,
                forall|j: int|
                    0 <= j < i as int ==> crate::engine::prover_point_index(#[trigger] cy_vars@[j])
                        == 6 + j,
                prover@.stmt.transcript_label == "2019/1416 anonymous credential"@,
                prover@.stmt.proof_label == "2019/1416 presentation proof"@,
                prover@.stmt.scalar_labels == presentation_scalar_labels(hsv.len()),
                prover@.witness == presentation_witness(credv.t, zv, attrsv),
                prover@.stmt.point_labels == base_labels + Seq::new(i as nat, |k: int| "C_y"@),
                prover@.stmt.point_values == base_values + cyv.subrange(0, i as int),
                prover@.stmt.constraints == Seq::<Constraint>::empty(),
            decreases n - i,
        {
            let v = prover_allocate_point(&mut prover, "C_y", &c_y_points[i]);
            cy_vars.push(v);
            proof {
                assert(prover@.stmt.point_labels =~= base_labels + Seq::new(
                    (i + 1) as nat,
                    |k: int| "C_y"@,
                ));
                assert(point_log(c_y_points@[i as int]) == cyv[i as int]);
                assert(prover@.stmt.point_values =~= base_values + cyv.subrange(0, i as int + 1));
            }
            i = i + 1;
        }
        let ghost mid1_labels = (base_labels + Seq::new(spv.n, |k: int| "C_y"@));
        let ghost mid1_values = base_values + cyv;
        proof {
            assert(cyv.subrange(0, n as int) =~= cyv);
            assert(prover@.stmt.point_labels =~= mid1_labels + Seq::new(0, |k: int| "G_y"@));
            assert(prover@.stmt.point_values =~= mid1_values + spv.g_y.subrange(0, 0));
        }
        let mut gy_vars: Vec<zkp::toolbox::prover::PointVar> = Vec::new();
        let mut i: usize = 0;
        while i < n
            invariant
                i <= n,
                gy_vars@.len() == i as nat,
                forall|j: int|
                    0 <= j < i as int ==> crate::engine::prover_point_index(#[trigger] gy_vars@[j])
                        == 6 + spv.n + j,
                prover@.stmt.transcript_label == "2019/1416 anonymous credential"@,
                prover@.stmt.proof_label == "2019/1416 presentation proof"@,
                prover@.stmt.scalar_labels == presentation_scalar_labels(hsv.len()),
                prover@.witness == presentation_witness(credv.t, zv, attrsv),
                prover@.stmt.point_labels == mid1_labels + Seq::new(i as nat, |k: int| "G_y"@),
                prover@.stmt.point_values == mid1_values + spv.g_y.subrange(0, i as int),
                prover@.stmt.constraints == Seq::<Constraint>::empty(),
            decreases n - i,
        {
            let v = prover_allocate_point(&mut prover, "G_y", &system_parameters.G_y[i]);
            gy_vars.push(v);
            proof {
                assert(prover@.stmt.point_labels =~= mid1_labels + Seq::new(
                    (i + 1) as nat,
                    |k: int| "G_y"@,
                ));
                assert(point_log(system_parameters.G_y@[i as int]) == spv.g_y[i as int]);
                assert(prover@.stmt.point_values =~= mid1_values + spv.g_y.subrange(
                    0,
                    i as int + 1,
                ));
            }
            i = i + 1;
        }
        let ghost mid2_labels = mid1_labels + Seq::new(spv.n, |k: int| "G_y"@);
        let ghost mid2_values = mid1_values + spv.g_y;
        let ghost mvals = pres_message_values(attrsv, spv.g_m);
        proof {
            assert(spv.g_y.subrange(0, n as int) =~= spv.g_y);
            assert(prover@.stmt.point_labels =~= mid2_labels + Seq::new(0, |k: int| "M"@));
            assert(prover@.stmt.point_values =~= mid2_values + mvals.subrange(0, 0));
        }
        let mut m_vars: Vec<zkp::toolbox::prover::PointVar> = Vec::new();
        let mut i: usize = 0;
        while i < n
            invariant
                i <= n,
                n == m_points@.len(),
                forall|j: int|
                    0 <= j < n as int ==> point_log(#[trigger] m_points@[j]) == pres_message_value(
                        attrsv[j],
                        spv.g_m[j],
                    ),
                m_vars@.len() == i as nat,
                forall|j: int|
                    0 <= j < i as int ==> crate::engine::prover_point_index(#[trigger] m_vars@[j])
                        == 6 + 2 * spv.n + j,
                prover@.stmt.transcript_label == "2019/1416 anonymous credential"@,
                prover@.stmt.proof_label == "2019/1416 presentation proof"@,
                prover@.stmt.scalar_labels == presentation_scalar_labels(hsv.len()),
                prover@.witness == presentation_witness(credv.t, zv, attrsv),
                prover@.stmt.point_labels == mid2_labels + Seq::new(i as nat, |k: int| "M"@),
                prover@.stmt.point_values == mid2_values + mvals.subrange(0, i as int),
                prover@.stmt.constraints == Seq::<Constraint>::empty(),
            decreases n - i,
        {
            let v = prover_allocate_point(&mut prover, "M", &m_points[i]);
            m_vars.push(v);
            proof {
                assert(prover@.stmt.point_labels =~= mid2_labels + Seq::new(
                    (i + 1) as nat,
                    |k: int| "M"@,
                ));
                assert(mvals[i as int] == point_log(m_points@[i as int]));
                assert(prover@.stmt.point_values =~= mid2_values + mvals.subrange(0, i as int + 1));
            }
            i = i + 1;
        }
        let ghost coms = PresCommitmentsV {
            z_big: point_log(Z_big),
            c_x_0: point_log(C_x_0),
            c_x_1: point_log(C_x_1),
            c_v: point_log(C_V),
            c_y: cyv,
        };
        proof {
            assert(mvals.subrange(0, n as int) =~= mvals);
            assert(prover@.stmt.point_labels =~= presentation_point_labels(spv.n));
            assert(prover@.stmt.point_values =~= presentation_point_values(spv, ipv, attrsv, coms));
        }

        // Constraint 0: Z = z*I.
        let mut terms0: Vec<(zkp::toolbox::prover::ScalarVar, zkp::toolbox::prover::PointVar)> =
            Vec::new();
        terms0.push((v_z, v_I));
        prover_constrain(&mut prover, v_Z, terms0);
        proof {
            assert(prover@.stmt.constraints[0].terms =~= seq![(1int, 1int)]);
            assert(prover@.stmt.constraints =~= presentation_constraints(attrsv, spv.n).subrange(
                0,
                1,
            ));
        }
        // Constraint 1: C_x_1 = t*C_x_0 + z_0*G_x_0 + z*G_x_1.
        let mut terms1: Vec<(zkp::toolbox::prover::ScalarVar, zkp::toolbox::prover::PointVar)> =
            Vec::new();
        terms1.push((v_t, v_C_x_0));
        terms1.push((v_z_0, v_G_x_0));
        terms1.push((v_z, v_G_x_1));
        prover_constrain(&mut prover, v_C_x_1, terms1);
        proof {
            assert(prover@.stmt.constraints[1].terms =~= seq![
                (3int, 3int),
                (2int, 4int),
                (1int, 5int),
            ]);
            assert(prover@.stmt.constraints =~= presentation_constraints(attrsv, spv.n).subrange(
                0,
                2,
            ));
        }
        // Constraint 2 + i: C_y[i] = z*G_y[i] + s*M[i].
        let ghost pres_cons = presentation_constraints(attrsv, spv.n);
        let mut k: usize = 0;
        let mut i: usize = 0;
        while i < n
            invariant
                i <= n,
                k as nat == secret_count(attrsv, i as int),
                k <= n_s,
                prover@.stmt.transcript_label == "2019/1416 anonymous credential"@,
                prover@.stmt.proof_label == "2019/1416 presentation proof"@,
                prover@.stmt.scalar_labels == presentation_scalar_labels(hsv.len()),
                prover@.witness == presentation_witness(credv.t, zv, attrsv),
                prover@.stmt.point_labels == presentation_point_labels(spv.n),
                prover@.stmt.point_values == presentation_point_values(spv, ipv, attrsv, coms),
                prover@.stmt.constraints == pres_cons.subrange(0, 2 + i as int),
            decreases n - i,
        {
            proof {
                assert(attrsv.take(i as int).len() == i as nat);
                if attrsv[i as int] is SecretScalar {
                    lemma_secret_scalar_values_index(attrsv, i as int);
                }
            }
            let s_var: zkp::toolbox::prover::ScalarVar = match &credential.attributes[i] {
                Attribute::SecretScalar(_) => {
                    let sv = m_scalar_vars[k];
                    k = k + 1;
                    sv
                },
                _ => v_one,
            };
            let mut terms_i: Vec<(
                zkp::toolbox::prover::ScalarVar,
                zkp::toolbox::prover::PointVar,
            )> = Vec::new();
            terms_i.push((v_z, gy_vars[i]));
            terms_i.push((s_var, m_vars[i]));
            prover_constrain(&mut prover, cy_vars[i], terms_i);
            proof {
                lemma_secret_scalar_values_take(attrsv, i as int);
                assert(prover@.stmt.constraints[2 + i as int].terms =~= seq![
                    (1int, 6 + spv.n as int + i as int),
                    (pres_m_scalar_index(attrsv, i as int), 6 + 2 * spv.n as int + i as int),
                ]);
                assert(prover@.stmt.constraints[2 + i as int] == pres_cons[2 + i as int]);
                assert(prover@.stmt.constraints =~= pres_cons.subrange(0, 2 + i as int + 1));
            }
            i = i + 1;
        }
        proof {
            assert(pres_cons.subrange(0, 2 + n as int) =~= pres_cons);
            assert(prover@.stmt == presentation_statement(spv, ipv, attrsv, coms));
            lemma_presentation_statement_wf(spv, ipv, attrsv, coms);
            assert(presentation_honest(spv, ipv, credv, coms, zv));
            lemma_presentation_satisfied(spv, ipv, credv, coms, zv);
        }
        let compact = prover_prove_compact(prover);
        let r = ProofOfValidCredential { proof: compact, C_x_0, C_x_1, C_V, C_y: c_y_points, Z: Z_big };
        proof {
            assert(presentation_commitments(r) == coms);
            assert(presentation_honest(spv, ipv, credv, presentation_commitments(r), zv));
        }
        r
    }

    /// Verify the proof against the statement determined by the carried
    /// commitments and the attribute vector as the verifier sees it: revealed
    /// attributes contribute nothing, hidden points are disclosed as message
    /// variables, hidden scalars are proven against their message base.
    /// Verification succeeds exactly when the commitment count matches, no
    /// statement point is the identity, and the engine accepts the proof.
    ///
    /// This checks the zero-knowledge statement only: knowledge of a nonce
    /// and tag relating the carried commitments, including `Z = z*I`. It does
    /// not check credential validity against the MAC secret key, which a
    /// keyed verifier holding that key would do by recomputing `Z` from the
    /// commitments.
    #[verifier::loop_isolation(false)]
    #[verifier::rlimit(60)]
    pub fn verify(
        &self,
        system_parameters: &SystemParameters,
        issuer_parameters: &IssuerParameters,
        attributes: &Vec<Attribute>,
    ) -> (r: Result<(), CredentialError>)
        requires
            system_parameters.wf(),
            attributes@.len() == system_parameters@.n,
        ensures
            r is Ok <==> {
                &&& self.C_y@.len() == system_parameters@.n
                &&& presentation_points_nonzero(
                    system_parameters@,
                    issuer_parameters@,
                    attributes_view(attributes@),
                    presentation_commitments(*self),
                )
                &&& accepts(
                    self.proof,
                    presentation_statement(
                        system_parameters@,
                        issuer_parameters@,
                        attributes_view(attributes@),
                        presentation_commitments(*self),
                    ),
                )
            },
            r is Err ==> r->Err_0 == CredentialError::VerificationFailure,
    {
        let ghost spv = system_parameters@;
        let ghost ipv = issuer_parameters@;
        let ghost attrsv = attributes_view(attributes@);
        let ghost coms = presentation_commitments(*self);
        let ghost pv = presentation_point_values(spv, ipv, attrsv, coms);
        let ghost stmt = presentation_statement(spv, ipv, attrsv, coms);
        let n: usize = attributes.len();
        if self.C_y.len() != n {
            return Err(CredentialError::VerificationFailure);
        }
        proof {
            lemma_presentation_statement_wf(spv, ipv, attrsv, coms);
        }

        // The message variables as the verifier reconstructs them.
        let mut m_points: Vec<RistrettoPoint> = Vec::new();
        let mut i: usize = 0;
        while i < n
            invariant
                i <= n,
                m_points@.len() == i as nat,
                forall|j: int|
                    0 <= j < i as int ==> point_log(#[trigger] m_points@[j]) == pres_message_value(
                        attrsv[j],
                        spv.g_m[j],
                    ),
            decreases n - i,
        {
            let mpoint: RistrettoPoint = match &attributes[i] {
                Attribute::PublicScalar(_) => point_identity(),
                Attribute::PublicPoint(_) => point_identity(),
                Attribute::SecretPoint(p) => *p,
                Attribute::SecretScalar(_) => system_parameters.G_m[i],
            };
            m_points.push(mpoint);
            i = i + 1;
        }

        let mut transcript = transcript_new("2019/1416 anonymous credential");
        let mut verifier = verifier_new("2019/1416 presentation proof", &mut transcript);

        let v_one = verifier_allocate_scalar(&mut verifier, "1");
        let v_z = verifier_allocate_scalar(&mut verifier, "z");
        let v_z_0 = verifier_allocate_scalar(&mut verifier, "z_0");
        let v_t = verifier_allocate_scalar(&mut verifier, "t");
        proof {
            assert(verifier@.scalar_labels =~= seq!["1"@, "z"@, "z_0"@, "t"@] + Seq::new(
                0,
                |j: int| "m"@,
            ));
            assert(attrsv.take(0) =~= Seq::<AttributeV>::empty());
        }
        let mut m_scalar_vars: Vec<zkp::toolbox::verifier::ScalarVar> = Vec::new();
        let mut k: usize = 0;
        let mut i: usize = 0;
        while i < n
            invariant
                i <= n,
                k <= i,
                k as nat == secret_count(attrsv, i as int),
                m_scalar_vars@.len() == k as nat,
                forall|j: int|
                    0 <= j < k as int ==> crate::engine::verifier_scalar_index(
                        #[trigger] m_scalar_vars@[j],
                    ) == 4 + j,
                verifier@.transcript_label == stmt.transcript_label,
                verifier@.proof_label == stmt.proof_label,
                verifier@.scalar_labels == seq!["1"@, "z"@, "z_0"@, "t"@] + Seq::new(
                    k as nat,
                    |j: int| "m"@,
                ),
                verifier@.point_labels == Seq::<Seq<char>>::empty(),
                verifier@.point_values == Seq::<nat>::empty(),
                verifier@.constraints == Seq::<Constraint>::empty(),
            decreases n - i,
        {
            proof {
                lemma_secret_scalar_values_take(attrsv, i as int);
            }
            match &attributes[i] {
                Attribute::SecretScalar(_) => {
                    let v = verifier_allocate_scalar(&mut verifier, "m");
                    m_scalar_vars.push(v);
                    k = k + 1;
                    proof {
                        assert(verifier@.scalar_labels =~= seq!["1"@, "z"@, "z_0"@, "t"@]
                            + Seq::new(k as nat, |j: int| "m"@));
                    }
                },
                _ => {},
            };
            i = i + 1;
        }
        let ghost hsv = secret_scalar_values(attrsv);
        proof {
            assert(attrsv.take(n as int) =~= attrsv);
            assert(verifier@.scalar_labels =~= presentation_scalar_labels(hsv.len()));
        }
        let n_s: usize = k;

        let v_Z = match verifier_allocate_point(&mut verifier, "Z", &self.Z) {
            Some(v) => v,
            None => {
                proof {
                    assert(pv[0] == 0);
                    assert(!presentation_points_nonzero(spv, ipv, attrsv, coms));
                }
                return Err(CredentialError::VerificationFailure);
            },
        };
        let v_I = match verifier_allocate_point(&mut verifier, "I", &issuer_parameters.I) {
            Some(v) => v,
            None => {
                proof {
                    assert(pv[1] == 0);
                    assert(!presentation_points_nonzero(spv, ipv, attrsv, coms));
                }
                return Err(CredentialError::VerificationFailure);
            },
        };
        let v_C_x_1 = match verifier_allocate_point(&mut verifier, "C_x_1", &self.C_x_1) {
            Some(v) => v,
            None => {
                proof {
                    assert(pv[2] == 0);
                    assert(!presentation_points_nonzero(spv, ipv, attrsv, coms));
                }
                return Err(CredentialError::VerificationFailure);
            },
        };
        let v_C_x_0 = match verifier_allocate_point(&mut verifier, "C_x_0", &self.C_x_0) {
            Some(v) => v,
            None => {
                proof {
                    assert(pv[3] == 0);
                    assert(!presentation_points_nonzero(spv, ipv, attrsv, coms));
                }
                return Err(CredentialError::VerificationFailure);
            },
        };
        let v_G_x_0 = match verifier_allocate_point(
            &mut verifier,
            "G_x_0",
            &system_parameters.G_x_0,
        ) {
            Some(v) => v,
            None => {
                proof {
                    assert(pv[4] == 0);
                    assert(!presentation_points_nonzero(spv, ipv, attrsv, coms));
                }
                return Err(CredentialError::VerificationFailure);
            },
        };
        let v_G_x_1 = match verifier_allocate_point(
            &mut verifier,
            "G_x_1",
            &system_parameters.G_x_1,
        ) {
            Some(v) => v,
            None => {
                proof {
                    assert(pv[5] == 0);
                    assert(!presentation_points_nonzero(spv, ipv, attrsv, coms));
                }
                return Err(CredentialError::VerificationFailure);
            },
        };
        let ghost base_labels = seq!["Z"@, "I"@, "C_x_1"@, "C_x_0"@, "G_x_0"@, "G_x_1"@];
        let ghost base_values = seq![coms.z_big, ipv.i, coms.c_x_1, coms.c_x_0, spv.g_x_0, spv.g_x_1];
        proof {
            assert(verifier@.point_labels =~= base_labels + Seq::new(0, |j: int| "C_y"@));
            assert(verifier@.point_values =~= base_values + coms.c_y.subrange(0, 0));
        }
        let mut cy_vars: Vec<zkp::toolbox::verifier::PointVar> = Vec::new();
        let mut i: usize = 0;
        while i < n
            invariant
                i <= n,
                n == self.C_y@.len(),
                cy_vars@.len() == i as nat,
                forall|j: int|
                    0 <= j < i as int ==> crate::engine::verifier_point_index(
                        #[trigger] cy_vars@[j],
                    ) == 6 + j,
                forall|j: int| 0 <= j < i as int ==> coms.c_y[j] != 0,
                verifier@.transcript_label == stmt.transcript_label,
                verifier@.proof_label == stmt.proof_label,
                verifier@.scalar_labels == presentation_scalar_labels(hsv.len()),
                verifier@.point_labels == base_labels + Seq::new(i as nat, |j: int| "C_y"@),
                verifier@.point_values == base_values + coms.c_y.subrange(0, i as int),
                verifier@.constraints == Seq::<Constraint>::empty(),
            decreases n - i,
        {
            let v = match verifier_allocate_point(&mut verifier, "C_y", &self.C_y[i]) {
                Some(v) => v,
                None => {
                    proof {
                        assert(pv[6 + i as int] == coms.c_y[i as int]);
                        assert(!presentation_points_nonzero(spv, ipv, attrsv, coms));
                    }
                    return Err(CredentialError::VerificationFailure);
                },
            };
            cy_vars.push(v);
            proof {
                assert(verifier@.point_labels =~= base_labels + Seq::new(
                    (i + 1) as nat,
                    |j: int| "C_y"@,
                ));
                assert(point_log(self.C_y@[i as int]) == coms.c_y[i as int]);
                assert(verifier@.point_values =~= base_values + coms.c_y.subrange(0, i as int + 1));
            }
            i = i + 1;
        }
        let ghost mid1_labels = base_labels + Seq::new(spv.n, |j: int| "C_y"@);
        let ghost mid1_values = base_values + coms.c_y;
        proof {
            assert(coms.c_y.subrange(0, n as int) =~= coms.c_y);
            assert(verifier@.point_labels =~= mid1_labels + Seq::new(0, |j: int| "G_y"@));
            assert(verifier@.point_values =~= mid1_values + spv.g_y.subrange(0, 0));
        }
        let mut gy_vars: Vec<zkp::toolbox::verifier::PointVar> = Vec::new();
        let mut i: usize = 0;
        while i < n
            invariant
                i <= n,
                gy_vars@.len() == i as nat,
                forall|j: int|
                    0 <= j < i as int ==> crate::engine::verifier_point_index(
                        #[trigger] gy_vars@[j],
                    ) == 6 + spv.n + j,
                forall|j: int| 0 <= j < i as int ==> spv.g_y[j] != 0,
                verifier@.transcript_label == stmt.transcript_label,
                verifier@.proof_label == stmt.proof_label,
                verifier@.scalar_labels == presentation_scalar_labels(hsv.len()),
                verifier@.point_labels == mid1_labels + Seq::new(i as nat, |j: int| "G_y"@),
                verifier@.point_values == mid1_values + spv.g_y.subrange(0, i as int),
                verifier@.constraints == Seq::<Constraint>::empty(),
            decreases n - i,
        {
            let v = match verifier_allocate_point(&mut verifier, "G_y", &system_parameters.G_y[i]) {
                Some(v) => v,
                None => {
                    proof {
                        assert(pv[6 + spv.n as int + i as int] == spv.g_y[i as int]);
                        assert(!presentation_points_nonzero(spv, ipv, attrsv, coms));
                    }
                    return Err(CredentialError::VerificationFailure);
                },
            };
            gy_vars.push(v);
            proof {
                assert(verifier@.point_labels =~= mid1_labels + Seq::new(
                    (i + 1) as nat,
                    |j: int| "G_y"@,
                ));
                assert(point_log(system_parameters.G_y@[i as int]) == spv.g_y[i as int]);
                assert(verifier@.point_values =~= mid1_values + spv.g_y.subrange(0, i as int + 1));
            }
            i = i + 1;
        }
        let ghost mid2_labels = mid1_labels + Seq::new(spv.n, |j: int| "G_y"@);
        let ghost mid2_values = mid1_values + spv.g_y;
        let ghost mvals = pres_message_values(attrsv, spv.g_m);
        proof {
            assert(spv.g_y.subrange(0, n as int) =~= spv.g_y);
            assert(verifier@.point_labels =~= mid2_labels + Seq::new(0, |j: int| "M"@));
            assert(verifier@.point_values =~= mid2_values + mvals.subrange(0, 0));
        }
        let mut m_vars: Vec<zkp::toolbox::verifier::PointVar> = Vec::new();
        let mut i: usize = 0;
        while i < n
            invariant
                i <= n,
                n == m_points@.len(),
                forall|j: int|
                    0 <= j < n as int ==> point_log(#[trigger] m_points@[j]) == pres_message_value(
                        attrsv[j],
                        spv.g_m[j],
                    ),
                m_vars@.len() == i as nat,
                forall|j: int|
                    0 <= j < i as int ==> crate::engine::verifier_point_index(
                        #[trigger] m_vars@[j],
                    ) == 6 + 2 * spv.n + j,
                forall|j: int| 0 <= j < i as int ==> mvals[j] != 0,
                verifier@.transcript_label == stmt.transcript_label,
                verifier@.proof_label == stmt.proof_label,
                verifier@.scalar_labels == presentation_scalar_labels(hsv.len()),
                verifier@.point_labels == mid2_labels + Seq::new(i as nat, |j: int| "M"@),
                verifier@.point_values == mid2_values + mvals.subrange(0, i as int),
                verifier@.constraints == Seq::<Constraint>::empty(),
            decreases n - i,
        {
            let v = match verifier_allocate_point(&mut verifier, "M", &m_points[i]) {
                Some(v) => v,
                None => {
                    proof {
                        assert(pv[6 + 2 * spv.n as int + i as int] == mvals[i as int]);
                        assert(!presentation_points_nonzero(spv, ipv, attrsv, coms));
                    }
                    return Err(CredentialError::VerificationFailure);
                },
            };
            m_vars.push(v);
            proof {
                assert(verifier@.point_labels =~= mid2_labels + Seq::new(
                    (i + 1) as nat,
                    |j: int| "M"@,
                ));
                assert(mvals[i as int] == point_log(m_points@[i as int]));
                assert(verifier@.point_values =~= mid2_values + mvals.subrange(0, i as int + 1));
            }
            i = i + 1;
        }
        proof {
            assert(mvals.subrange(0, n as int) =~= mvals);
            assert(verifier@.point_labels =~= presentation_point_labels(spv.n));
            assert(verifier@.point_values =~= presentation_point_values(spv, ipv, attrsv, coms));
        }

        // Constraint 0: Z = z*I.
        let mut terms0: Vec<(zkp::toolbox::verifier::ScalarVar, zkp::toolbox::verifier::PointVar)> =
            Vec::new();
        terms0.push((v_z, v_I));
        verifier_constrain(&mut verifier, v_Z, terms0);
        proof {
            assert(verifier@.constraints[0].terms =~= seq![(1int, 1int)]);
            assert(verifier@.constraints =~= presentation_constraints(attrsv, spv.n).subrange(
                0,
                1,
            ));
        }
        // Constraint 1: C_x_1 = t*C_x_0 + z_0*G_x_0 + z*G_x_1.
        let mut terms1: Vec<(zkp::toolbox::verifier::ScalarVar, zkp::toolbox::verifier::PointVar)> =
            Vec::new();
        terms1.push((v_t, v_C_x_0));
        terms1.push((v_z_0, v_G_x_0));
        terms1.push((v_z, v_G_x_1));
        verifier_constrain(&mut verifier, v_C_x_1, terms1);
        proof {
            assert(verifier@.constraints[1].terms =~= seq![
                (3int, 3int),
                (2int, 4int),
                (1int, 5int),
            ]);
            assert(verifier@.constraints =~= presentation_constraints(attrsv, spv.n).subrange(
                0,
                2,
            ));
        }
        // Constraint 2 + i: C_y[i] = z*G_y[i] + s*M[i].
        let ghost pres_cons = presentation_constraints(attrsv, spv.n);
        let mut k: usize = 0;
        let mut i: usize = 0;
        while i < n
            invariant
                i <= n,
                k as nat == secret_count(attrsv, i as int),
                k <= n_s,
                n_s == m_scalar_vars@.len(),
                n_s == hsv.len(),
                forall|j: int|
                    0 <= j < n_s as int ==> crate::engine::verifier_scalar_index(
                        #[trigger] m_scalar_vars@[j],
                    ) == 4 + j,
                cy_vars@.len() == n as nat,
                gy_vars@.len() == n as nat,
                m_vars@.len() == n as nat,
                forall|j: int|
                    0 <= j < n as int ==> crate::engine::verifier_point_index(
                        #[trigger] cy_vars@[j],
                    ) == 6 + j,
                forall|j: int|
                    0 <= j < n as int ==> crate::engine::verifier_point_index(
                        #[trigger] gy_vars@[j],
                    ) == 6 + spv.n + j,
                forall|j: int|
                    0 <= j < n as int ==> crate::engine::verifier_point_index(
                        #[trigger] m_vars@[j],
                    ) == 6 + 2 * spv.n + j,
                verifier@.transcript_label == stmt.transcript_label,
                verifier@.proof_label == stmt.proof_label,
                verifier@.scalar_labels == presentation_scalar_labels(hsv.len()),
                verifier@.point_labels == presentation_point_labels(spv.n),
                verifier@.point_values == presentation_point_values(spv, ipv, attrsv, coms),
                verifier@.constraints == pres_cons.subrange(0, 2 + i as int),
            decreases n - i,
        {
            proof {
                if attrsv[i as int] is SecretScalar {
                    lemma_secret_scalar_values_index(attrsv, i as int);
                }
            }
            let s_var: zkp::toolbox::verifier::ScalarVar = match &attributes[i] {
                Attribute::SecretScalar(_) => {
                    let sv = m_scalar_vars[k];
                    k = k + 1;
                    sv
                },
                _ => v_one,
            };
            let mut terms_i: Vec<(
                zkp::toolbox::verifier::ScalarVar,
                zkp::toolbox::verifier::PointVar,
            )> = Vec::new();
            terms_i.push((v_z, gy_vars[i]));
            terms_i.push((s_var, m_vars[i]));
            verifier_constrain(&mut verifier, cy_vars[i], terms_i);
            proof {
                lemma_secret_scalar_values_take(attrsv, i as int);
                assert(verifier@.constraints[2 + i as int].terms =~= seq![
                    (1int, 6 + spv.n as int + i as int),
                    (pres_m_scalar_index(attrsv, i as int), 6 + 2 * spv.n as int + i as int),
                ]);
                assert(verifier@.constraints[2 + i as int] == pres_cons[2 + i as int]);
                assert(verifier@.constraints =~= pres_cons.subrange(0, 2 + i as int + 1));
            }
            i = i + 1;
        }
        proof {
            assert(pres_cons.subrange(0, 2 + n as int) =~= pres_cons);
            assert(verifier@ == stmt);
            assert(presentation_points_nonzero(spv, ipv, attrsv, coms)) by {
                assert forall|j: int| 0 <= j < pv.len() implies #[trigger] pv[j] != 0 by {
                    if j == 0 {
                        assert(pv[0] == coms.z_big);
                    } else if j == 1 {
                        assert(pv[1] == ipv.i);
                    } else if j == 2 {
                        assert(pv[2] == coms.c_x_1);
                    } else if j == 3 {
                        assert(pv[3] == coms.c_x_0);
                    } else if j == 4 {
                        assert(pv[4] == spv.g_x_0);
                    } else if j == 5 {
                        assert(pv[5] == spv.g_x_1);
                    } else if 6 <= j < 6 + spv.n {
                        assert(pv[j] == coms.c_y[j - 6]);
                    } else if 6 + spv.n <= j < 6 + 2 * spv.n {
                        assert(pv[j] == spv.g_y[j - 6 - spv.n]);
                    } else {
                        assert(pv[j] == mvals[j - 6 - 2 * spv.n]);
                    }
                }
            }
        }
        if verifier_verify_compact(verifier, &self.proof) {
            Ok(())
        } else {
            Err(CredentialError::VerificationFailure)
        }
    }
}

/// When every attribute is revealed, nothing is hidden inside the attribute
/// commitments: each `C_y[i]` equals `z*G_y[i]` exactly.
pub proof fn lemma_all_public_commitments(
    sp: SystemParametersV,
    ip: IssuerParametersV,
    cred: AnonymousCredentialV,
    coms: PresCommitmentsV,
    z: nat,
)
    requires
        cred.attributes.len() == sp.n,
        presentation_honest(sp, ip, cred, coms, z),
        forall|i: int|
            0 <= i < sp.n ==> !((#[trigger] cred.attributes[i]) is SecretScalar)
                && !(cred.attributes[i] is SecretPoint),
    ensures
        forall|i: int| 0 <= i < sp.n ==> #[trigger] coms.c_y[i] == fmul(z, sp.g_y[i]),
{
    assert forall|i: int| 0 <= i < sp.n implies #[trigger] coms.c_y[i] == fmul(z, sp.g_y[i]) by {
        assert(commitment_term(cred.attributes[i], sp.g_m[i]) == 0);
        lemma_fadd_zero(fmul(z, sp.g_y[i]));
        lemma_mod_noop((z * sp.g_y[i]) as nat);
    }
}

/// A presentation made with `t = 0` carries the response `z_0 = -t*z = 0`:
/// the witness entry for `z_0` vanishes, and the proof still verifies, since
/// completeness holds for every `t`.
pub proof fn lemma_zero_tag_zero_response(z: nat, attributes: Seq<AttributeV>)
    ensures
        presentation_witness(0, z, attributes)[2] == 0,
{
    let l = group_order();
    crate::field::lemma_mod_noop(0);
    assert(fneg(0) == (l - 0nat) as nat % l);
    vstd::arithmetic::div_mod::lemma_mod_self_0(l as int);
    assert(fneg(0) == 0);
    crate::field::lemma_fmul_zero(z);
    lemma_fmul_one(z);
}

} // verus!
