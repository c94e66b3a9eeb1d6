//! Proof of issuance: the issuer proves that a credential's MAC was computed
//! correctly under the committed MAC key.

use vstd::prelude::*;
use crate::amacs::{message_values, Messages, SecretKey, SecretKeyV};
use crate::credential::{credential_consistent, AnonymousCredential, AnonymousCredentialV};
use crate::engine::{
    accepts, lemma_lc_concat, lemma_lc_uniform, lc_value, prover_allocate_point,
    prover_allocate_scalar, prover_constrain, prover_new, prover_prove_compact, satisfied,
    stmt_wf, transcript_new, verifier_allocate_point, verifier_allocate_scalar,
    verifier_constrain, verifier_new, verifier_verify_compact, Constraint, Statement,
};
use crate::errors::CredentialError;
use crate::field::{
    fadd, fmul, fneg, group_order, lemma_fadd_assoc, lemma_fadd_reduced, lemma_fadd_tail,
    lemma_fmul_one, lemma_fneg_reduced, lemma_mod_noop, msum,
};
use crate::group::{point_log, point_neg, scalar_one, scalar_value};
use crate::parameters::{
    issuer_parameters_consistent, IssuerParameters, IssuerParametersV, SystemParameters,
    SystemParametersV,
};
use curve25519_dalek_ng::ristretto::RistrettoPoint;
use zkp::CompactProof;

verus! {

/// A proof that an issued credential's MAC is well formed with respect to
/// the published issuer parameters.
pub struct ProofOfIssuance(pub CompactProof);

/// Scalar labels of the issuance statement, in allocation order.
pub open spec fn issuance_scalar_labels(n: nat) -> Seq<Seq<char>> {
    seq!["w"@, "w'"@, "x_0"@, "x_1"@] + Seq::new(n, |i: int| "y"@) + seq!["1"@, "t"@]
}

/// Point labels of the issuance statement, in allocation order.
pub open spec fn issuance_point_labels(n: nat) -> Seq<Seq<char>> {
    seq!["-G_V"@, "G"@, "G_w"@, "G_w_prime"@, "G_x_0"@, "G_x_1"@] + Seq::new(n, |i: int| "G_y"@)
        + seq!["C_W"@, "I"@, "U"@, "V"@] + Seq::new(n, |i: int| "M"@)
}

/// Point values of the issuance statement, in allocation order.
pub open spec fn issuance_point_values(
    sp: SystemParametersV,
    ip: IssuerParametersV,
    cred: AnonymousCredentialV,
) -> Seq<nat> {
    seq![fneg(sp.g_v), sp.g, sp.g_w, sp.g_w_prime, sp.g_x_0, sp.g_x_1] + sp.g_y + seq![
        ip.c_w,
        ip.i,
        cred.u,
        cred.v,
    ] + message_values(cred.attributes, sp.g_m)
}

/// The witness of the issuance statement, in allocation order.
pub open spec fn issuance_witness(sk: SecretKeyV, cred: AnonymousCredentialV) -> Seq<nat> {
    seq![sk.w, sk.w_prime, sk.x_0, sk.x_1] + sk.y + seq![1nat, cred.t]
}

/// The three issuance constraints, over variable indices:
/// `C_W = w*G_w + w'*G_w'`,
/// `I = 1*(-G_V) + x_0*G_x_0 + x_1*G_x_1 + sum y_i*G_y_i`, and
/// `V = w*G_w + x_0*U + x_1*U + t*U + sum y_i*M_i`.
pub open spec fn issuance_constraints(n: nat) -> Seq<Constraint> {
    seq![
        Constraint { lhs: 6 + n as int, terms: seq![(0int, 2int), (1int, 3int)] },
        Constraint {
            lhs: 7 + n as int,
            terms: seq![(4 + n as int, 0int), (2int, 4int), (3int, 5int)] + Seq::new(
                n,
                |i: int| (4 + i, 6 + i),
            ),
        },
        Constraint {
            lhs: 9 + n as int,
            terms: seq![
                (0int, 2int),
                (2int, 8 + n as int),
                (3int, 8 + n as int),
                (5 + n as int, 8 + n as int),
            ] + Seq::new(n, |i: int| (4 + i, 10 + n as int + i)),
        },
    ]
}

/// The full issuance statement for the given parameters and credential.
pub open spec fn issuance_statement(
    sp: SystemParametersV,
    ip: IssuerParametersV,
    cred: AnonymousCredentialV,
) -> Statement {
    Statement {
        transcript_label: "2019/1416 anonymous credential"@,
        proof_label: "2019/1416 issuance proof"@,
        scalar_labels: issuance_scalar_labels(sp.n),
        point_labels: issuance_point_labels(sp.n),
        point_values: issuance_point_values(sp, ip, cred),
        constraints: issuance_constraints(sp.n),
    }
}

/// No point of the issuance statement is the identity element.
pub open spec fn issuance_points_nonzero(
    sp: SystemParametersV,
    ip: IssuerParametersV,
    cred: AnonymousCredentialV,
) -> bool {
    forall|j: int|
        0 <= j < issuance_point_values(sp, ip, cred).len() ==> #[trigger] issuance_point_values(
            sp,
            ip,
            cred,
        )[j] != 0
}

/// The issuance statement is well formed.
pub proof fn lemma_issuance_statement_wf(
    sp: SystemParametersV,
    ip: IssuerParametersV,
    cred: AnonymousCredentialV,
)
    requires
        sp.g_y.len() == sp.n,
        sp.g_m.len() == sp.n,
        cred.attributes.len() == sp.n,
    ensures
        stmt_wf(issuance_statement(sp, ip, cred)),
        issuance_point_values(sp, ip, cred).len() == 10 + 2 * sp.n,
        issuance_point_labels(sp.n).len() == 10 + 2 * sp.n,
        issuance_scalar_labels(sp.n).len() == 6 + sp.n,
{
}

/// One unfolding step of a linear combination.
pub proof fn lemma_lc_step(point_values: Seq<nat>, witness: Seq<nat>, terms: Seq<(int, int)>)
    requires
        terms.len() > 0,
    ensures
        lc_value(point_values, witness, terms) == fadd(
            fmul(witness[terms[0].0], point_values[terms[0].1]),
            lc_value(point_values, witness, terms.drop_first()),
        ),
{
}

/// The empty linear combination is zero.
pub proof fn lemma_lc_empty(point_values: Seq<nat>, witness: Seq<nat>)
    ensures
        lc_value(point_values, witness, Seq::<(int, int)>::empty()) == 0,
{
}

/// Constraint 0 of the issuance statement holds: `C_W = w*G_w + w'*G_w'`.
proof fn lemma_issuance_c0(
    sp: SystemParametersV,
    sk: SecretKeyV,
    ip: IssuerParametersV,
    cred: AnonymousCredentialV,
)
    requires
        sp.g_y.len() == sp.n,
        sp.g_m.len() == sp.n,
        sk.y.len() == sp.n,
        cred.attributes.len() == sp.n,
        issuer_parameters_consistent(sp, sk, ip),
    ensures
        constraint_holds_for(
            issuance_statement(sp, ip, cred),
            issuance_witness(sk, cred),
            0,
        ),
{
    let stmt = issuance_statement(sp, ip, cred);
    let w = issuance_witness(sk, cred);
    let pv = stmt.point_values;
    let n = sp.n;
    let c0 = stmt.constraints[0];
    let t_w = fmul(sk.w, sp.g_w);
    let t_wp = fmul(sk.w_prime, sp.g_w_prime);
    lemma_lc_step(pv, w, c0.terms);
    assert(c0.terms.drop_first() =~= seq![(1int, 3int)]);
    lemma_lc_step(pv, w, seq![(1int, 3int)]);
    assert(seq![(1int, 3int)].drop_first() =~= Seq::<(int, int)>::empty());
    lemma_lc_empty(pv, w);
    assert(w[0] == sk.w);
    assert(pv[2] == sp.g_w);
    assert(w[1] == sk.w_prime);
    assert(pv[3] == sp.g_w_prime);
    assert(lc_value(pv, w, c0.terms) == fadd(t_w, fadd(t_wp, 0)));
    lemma_fadd_tail(t_w, t_wp);
    lemma_fadd_reduced(t_w, t_wp);
    assert(pv[c0.lhs] == ip.c_w);
}

/// Completeness of the issuance statement: an honestly derived issuer
/// parameter set and a correctly MACed credential satisfy all three
/// constraints with the issuer's witness. Together with the contracts of
/// `ProofOfIssuance::prove` and `ProofOfIssuance::verify`, a proof over such
/// a credential verifies whenever no statement point is the identity.
pub proof fn lemma_issuance_satisfied(
    sp: SystemParametersV,
    sk: SecretKeyV,
    ip: IssuerParametersV,
    cred: AnonymousCredentialV,
)
    requires
        sp.g_y.len() == sp.n,
        sp.g_m.len() == sp.n,
        sk.y.len() == sp.n,
        cred.attributes.len() == sp.n,
        issuer_parameters_consistent(sp, sk, ip),
        credential_consistent(sp, sk, cred),
    ensures
        satisfied(issuance_statement(sp, ip, cred), issuance_witness(sk, cred)),
{
    let stmt = issuance_statement(sp, ip, cred);
    let w = issuance_witness(sk, cred);
    lemma_issuance_c0(sp, sk, ip, cred);
    lemma_issuance_c1(sp, sk, ip, cred);
    lemma_issuance_c2(sp, sk, ip, cred);
    assert forall|i: int| 0 <= i < stmt.constraints.len() implies crate::engine::constraint_holds(
        stmt,
        w,
        #[trigger] stmt.constraints[i],
    ) by {
        if i == 0 {
            assert(constraint_holds_for(stmt, w, 0));
        } else if i == 1 {
            assert(constraint_holds_for(stmt, w, 1));
        } else {
            assert(constraint_holds_for(stmt, w, 2));
        }
    }
}

/// Constraint 1 of the issuance statement holds:
/// `I = 1*(-G_V) + x_0*G_x_0 + x_1*G_x_1 + sum y_i*G_y_i`.
proof fn lemma_issuance_c1(
    sp: SystemParametersV,
    sk: SecretKeyV,
    ip: IssuerParametersV,
    cred: AnonymousCredentialV,
)
    requires
        sp.g_y.len() == sp.n,
        sp.g_m.len() == sp.n,
        sk.y.len() == sp.n,
        cred.attributes.len() == sp.n,
        issuer_parameters_consistent(sp, sk, ip),
    ensures
        constraint_holds_for(
            issuance_statement(sp, ip, cred),
            issuance_witness(sk, cred),
            1,
        ),
{
    let stmt = issuance_statement(sp, ip, cred);
    let w = issuance_witness(sk, cred);
    let pv = stmt.point_values;
    let n = sp.n;
    let c1 = stmt.constraints[1];
    let head1 = seq![(4 + n as int, 0int), (2int, 4int), (3int, 5int)];
    let seg1 = Seq::new(n, |i: int| (4 + i, 6 + i));
    assert(c1.terms == head1 + seg1);
    lemma_lc_concat(pv, w, head1, seg1);
    let t_one = fmul(w[4 + n as int], pv[0]);
    let t_x0 = fmul(sk.x_0, sp.g_x_0);
    let t_x1 = fmul(sk.x_1, sp.g_x_1);
    assert(w[4 + n as int] == 1nat);
    assert(pv[0] == fneg(sp.g_v));
    assert(w[2] == sk.x_0);
    assert(pv[4] == sp.g_x_0);
    assert(w[3] == sk.x_1);
    assert(pv[5] == sp.g_x_1);
    lemma_lc_step(pv, w, head1);
    assert(head1.drop_first() =~= seq![(2int, 4int), (3int, 5int)]);
    lemma_lc_step(pv, w, seq![(2int, 4int), (3int, 5int)]);
    assert(seq![(2int, 4int), (3int, 5int)].drop_first() =~= seq![(3int, 5int)]);
    lemma_lc_step(pv, w, seq![(3int, 5int)]);
    assert(seq![(3int, 5int)].drop_first() =~= Seq::<(int, int)>::empty());
    lemma_lc_empty(pv, w);
    assert(lc_value(pv, w, head1) == fadd(t_one, fadd(t_x0, fadd(t_x1, 0))));
    lemma_fadd_tail(t_x0, t_x1);
    lemma_lc_uniform(pv, w, 4, 6, n);
    assert(w.subrange(4, 4 + n as int) =~= sk.y);
    assert(pv.subrange(6, 6 + n as int) =~= sp.g_y);
    let ysum = msum(sk.y, sp.g_y);
    assert(lc_value(pv, w, c1.terms) == fadd(fadd(t_one, fadd(t_x0, t_x1)), ysum));
    // Reassociate and drop the scalar one.
    lemma_fmul_one(fneg(sp.g_v));
    lemma_fneg_reduced(sp.g_v);
    assert(t_one == fneg(sp.g_v));
    lemma_fadd_assoc(t_one, fadd(t_x0, t_x1), ysum);
    lemma_fadd_assoc(t_x0, t_x1, ysum);
    assert(lc_value(pv, w, c1.terms) == fadd(fneg(sp.g_v), fadd(t_x0, fadd(t_x1, ysum))));
    assert(pv[c1.lhs] == ip.i);
    lemma_fadd_reduced(fneg(sp.g_v), fadd(t_x0, fadd(t_x1, ysum)));
}

/// Constraint 2 of the issuance statement holds:
/// `V = w*G_w + x_0*U + x_1*U + t*U + sum y_i*M_i`.
proof fn lemma_issuance_c2(
    sp: SystemParametersV,
    sk: SecretKeyV,
    ip: IssuerParametersV,
    cred: AnonymousCredentialV,
)
    requires
        sp.g_y.len() == sp.n,
        sp.g_m.len() == sp.n,
        sk.y.len() == sp.n,
        cred.attributes.len() == sp.n,
        credential_consistent(sp, sk, cred),
    ensures
        constraint_holds_for(
            issuance_statement(sp, ip, cred),
            issuance_witness(sk, cred),
            2,
        ),
{
    let stmt = issuance_statement(sp, ip, cred);
    let w = issuance_witness(sk, cred);
    let pv = stmt.point_values;
    let n = sp.n;
    let msgs = message_values(cred.attributes, sp.g_m);
    let c2 = stmt.constraints[2];
    let head2 = seq![
        (0int, 2int),
        (2int, 8 + n as int),
        (3int, 8 + n as int),
        (5 + n as int, 8 + n as int),
    ];
    let seg2 = Seq::new(n, |i: int| (4 + i, 10 + n as int + i));
    assert(c2.terms == head2 + seg2);
    lemma_lc_concat(pv, w, head2, seg2);
    assert(pv[8 + n as int] == cred.u);
    assert(w[5 + n as int] == cred.t);
    assert(w[0] == sk.w);
    assert(pv[2] == sp.g_w);
    assert(w[2] == sk.x_0);
    assert(w[3] == sk.x_1);
    let s_w = fmul(sk.w, sp.g_w);
    let s_x0 = fmul(sk.x_0, cred.u);
    let s_x1 = fmul(sk.x_1, cred.u);
    let s_t = fmul(cred.t, cred.u);
    lemma_lc_step(pv, w, head2);
    assert(head2.drop_first() =~= seq![
        (2int, 8 + n as int),
        (3int, 8 + n as int),
        (5 + n as int, 8 + n as int),
    ]);
    lemma_lc_step(
        pv,
        w,
        seq![(2int, 8 + n as int), (3int, 8 + n as int), (5 + n as int, 8 + n as int)],
    );
    assert(seq![(2int, 8 + n as int), (3int, 8 + n as int), (5 + n as int, 8 + n as int)].drop_first()
        =~= seq![(3int, 8 + n as int), (5 + n as int, 8 + n as int)]);
    lemma_lc_step(pv, w, seq![(3int, 8 + n as int), (5 + n as int, 8 + n as int)]);
    assert(seq![(3int, 8 + n as int), (5 + n as int, 8 + n as int)].drop_first() =~= seq![
        (5 + n as int, 8 + n as int),
    ]);
    lemma_lc_step(pv, w, seq![(5 + n as int, 8 + n as int)]);
    assert(seq![(5 + n as int, 8 + n as int)].drop_first() =~= Seq::<(int, int)>::empty());
    lemma_lc_empty(pv, w);
    assert(lc_value(pv, w, head2) == fadd(s_w, fadd(s_x0, fadd(s_x1, fadd(s_t, 0)))));
    lemma_fadd_tail(s_x1, s_t);
    // Uniform segment: witness indices 4..4+n, point indices 10+n..10+2n.
    lemma_lc_uniform(pv, w, 4, 10 + n as int, n);
    assert(w.subrange(4, 4 + n as int) =~= sk.y);
    assert(pv.subrange(10 + n as int, 10 + n as int + n as int) =~= msgs);
    let msum_m = msum(sk.y, msgs);
    assert(lc_value(pv, w, c2.terms) == fadd(fadd(s_w, fadd(s_x0, fadd(s_x1, s_t))), msum_m));
    lemma_fadd_assoc(s_w, fadd(s_x0, fadd(s_x1, s_t)), msum_m);
    lemma_fadd_assoc(s_x0, fadd(s_x1, s_t), msum_m);
    lemma_fadd_assoc(s_x1, s_t, msum_m);
    assert(lc_value(pv, w, c2.terms) == fadd(s_w, fadd(s_x0, fadd(s_x1, fadd(s_t, msum_m)))));
    assert(pv[c2.lhs] == cred.v);
    lemma_fadd_reduced(s_w, fadd(s_x0, fadd(s_x1, fadd(s_t, msum_m))));
}

impl ProofOfIssuance {
    /// Prove that the credential's MAC is well formed under the MAC key
    /// committed to by the issuer parameters. If the issuer parameters and
    /// the credential were honestly derived from the key, the proof is
    /// accepted for the issuance statement.
    #[verifier::loop_isolation(false)]
    pub fn prove(
        secret_key: &SecretKey,
        system_parameters: &SystemParameters,
        issuer_parameters: &IssuerParameters,
        credential: &AnonymousCredential,
    ) -> (r: ProofOfIssuance)
        requires
            system_parameters.wf(),
            secret_key.wf(system_parameters@),
            credential.wf(system_parameters@),
        ensures
            issuer_parameters_consistent(system_parameters@, secret_key@, issuer_parameters@)
                && credential_consistent(system_parameters@, secret_key@, credential@) ==> accepts(
                r.0,
                issuance_statement(system_parameters@, issuer_parameters@, credential@),
            ),
    {
        let ghost spv = system_parameters@;
        let ghost skv = secret_key@;
        let ghost ipv = issuer_parameters@;
        let ghost credv = credential@;
        let ghost stmt = issuance_statement(spv, ipv, credv);
        let n: usize = secret_key.y.len();

        let mut transcript = transcript_new("2019/1416 anonymous credential");
        let mut prover = prover_new("2019/1416 issuance proof", &mut transcript);

        let w = prover_allocate_scalar(&mut prover, "w", &secret_key.w);
        let w_prime = prover_allocate_scalar(&mut prover, "w'", &secret_key.w_prime);
        let x_0 = prover_allocate_scalar(&mut prover, "x_0", &secret_key.x_0);
        let x_1 = prover_allocate_scalar(&mut prover, "x_1", &secret_key.x_1);
        proof {
            assert(prover@.stmt.scalar_labels =~= seq!["w"@, "w'"@, "x_0"@, "x_1"@] + Seq::new(
                0,
                |k: int| "y"@,
            ));
            assert(prover@.witness =~= seq![skv.w, skv.w_prime, skv.x_0, skv.x_1] + skv.y.subrange(
                0,
                0,
            ));
        }
        let mut y_vars: Vec<zkp::toolbox::prover::ScalarVar> = Vec::new();
        let mut i: usize = 0;
        while i < n
            invariant
                i <= n,
                n == skv.y.len(),
                n == secret_key.y@.len(),
                skv == secret_key@,
                y_vars@.len() == i as nat,
                forall|j: int|
                    0 <= j < i as int ==> crate::engine::prover_scalar_index(#[trigger] y_vars@[j])
                        == 4 + j,
                prover@.stmt.transcript_label == "2019/1416 anonymous credential"@,
                prover@.stmt.proof_label == "2019/1416 issuance proof"@,
                prover@.stmt.scalar_labels == seq!["w"@, "w'"@, "x_0"@, "x_1"@] + Seq::new(
                    i as nat,
                    |k: int| "y"@,
                ),
                prover@.stmt.point_labels == Seq::<Seq<char>>::empty(),
                prover@.stmt.point_values == Seq::<nat>::empty(),
                prover@.stmt.constraints == Seq::<Constraint>::empty(),
                prover@.witness == seq![skv.w, skv.w_prime, skv.x_0, skv.x_1] + skv.y.subrange(
                    0,
                    i as int,
                ),
            decreases n - i,
        {
            let v = prover_allocate_scalar(&mut prover, "y", &secret_key.y[i]);
            y_vars.push(v);
            proof {
                assert(prover@.stmt.scalar_labels =~= seq!["w"@, "w'"@, "x_0"@, "x_1"@] + Seq::new(
                    (i + 1) as nat,
                    |k: int| "y"@,
                ));
                assert(scalar_value(secret_key.y@[i as int]) == skv.y[i as int]);
                assert(prover@.witness =~= seq![skv.w, skv.w_prime, skv.x_0, skv.x_1]
                    + skv.y.subrange(0, i as int + 1));
            }
            i = i + 1;
        }
        let one_scalar = scalar_one();
        let one = prover_allocate_scalar(&mut prover, "1", &one_scalar);
        let t = prover_allocate_scalar(&mut prover, "t", &credential.amac.t);
        proof {
            assert(skv.y.subrange(0, n as int) =~= skv.y);
            assert(prover@.stmt.scalar_labels =~= issuance_scalar_labels(spv.n));
            assert(prover@.witness =~= issuance_witness(skv, credv));
        }

        let neg_G_V = point_neg(&system_parameters.G_V);
        let v_neg_G_V = prover_allocate_point(&mut prover, "-G_V", &neg_G_V);
        let v_G = prover_allocate_point(&mut prover, "G", &system_parameters.G);
        let v_G_w = prover_allocate_point(&mut prover, "G_w", &system_parameters.G_w);
        let v_G_w_prime = prover_allocate_point(
            &mut prover,
            "G_w_prime",
            &system_parameters.G_w_prime,
        );
        let v_G_x_0 = prover_allocate_point(&mut prover, "G_x_0", &system_parameters.G_x_0);
        let v_G_x_1 = prover_allocate_point(&mut prover, "G_x_1", &system_parameters.G_x_1);
        let ghost base_labels = seq!["-G_V"@, "G"@, "G_w"@, "G_w_prime"@, "G_x_0"@, "G_x_1"@];
        let ghost base_values = seq![
            fneg(spv.g_v),
            spv.g,
            spv.g_w,
            spv.g_w_prime,
            spv.g_x_0,
            spv.g_x_1,
        ];
        proof {
            assert(prover@.stmt.point_labels =~= base_labels + Seq::new(0, |k: int| "G_y"@));
            assert(prover@.stmt.point_values =~= base_values + spv.g_y.subrange(0, 0));
        }
        let mut gy_vars: Vec<zkp::toolbox::prover::PointVar> = Vec::new();
        let mut i: usize = 0;
        while i < n
            invariant
                i <= n,
                n == spv.g_y.len(),
                n == system_parameters.G_y@.len(),
                spv == system_parameters@,
                gy_vars@.len() == i as nat,
                forall|j: int|
                    0 <= j < i as int ==> crate::engine::prover_point_index(#[trigger] gy_vars@[j])
                        == 6 + j,
                prover@.stmt.transcript_label == "2019/1416 anonymous credential"@,
                prover@.stmt.proof_label == "2019/1416 issuance proof"@,
                prover@.stmt.scalar_labels == issuance_scalar_labels(spv.n),
                prover@.witness == issuance_witness(skv, credv),
                prover@.stmt.point_labels == base_labels + Seq::new(i as nat, |k: int| "G_y"@),
                prover@.stmt.point_values == base_values + spv.g_y.subrange(0, i as int),
                prover@.stmt.constraints == Seq::<Constraint>::empty(),
            decreases n - i,
        {
            let v = prover_allocate_point(&mut prover, "G_y", &system_parameters.G_y[i]);
            gy_vars.push(v);
            proof {
                assert(prover@.stmt.point_labels =~= base_labels + Seq::new(
                    (i + 1) as nat,
                    |k: int| "G_y"@,
                ));
                assert(point_log(system_parameters.G_y@[i as int]) == spv.g_y[i as int]);
                assert(prover@.stmt.point_values =~= base_values + spv.g_y.subrange(
                    0,
                    i as int + 1,
                ));
            }
            i = i + 1;
        }
        proof {
            assert(spv.g_y.subrange(0, n as int) =~= spv.g_y);
        }
        let v_C_W = prover_allocate_point(&mut prover, "C_W", &issuer_parameters.C_W);
        let v_I = prover_allocate_point(&mut prover, "I", &issuer_parameters.I);
        let v_U = prover_allocate_point(&mut prover, "U", &credential.amac.U);
        let v_V = prover_allocate_point(&mut prover, "V", &credential.amac.V);
        let ghost mid_labels = (base_labels + Seq::new(spv.n, |k: int| "G_y"@)) + seq![
            "C_W"@,
            "I"@,
            "U"@,
            "V"@,
        ];
        let ghost mid_values = (base_values + spv.g_y) + seq![ipv.c_w, ipv.i, credv.u, credv.v];
        let ghost msgs = message_values(credv.attributes, spv.g_m);
        proof {
            assert(prover@.stmt.point_labels =~= mid_labels + Seq::new(0, |k: int| "M"@));
            assert(prover@.stmt.point_values =~= mid_values + msgs.subrange(0, 0));
        }
        let messages = Messages::from_attributes(&credential.attributes, system_parameters);
        let mut m_vars: Vec<zkp::toolbox::prover::PointVar> = Vec::new();
        let mut i: usize = 0;
        while i < n
            invariant
                i <= n,
                n == spv.n,
                n == messages.0@.len(),
                msgs.len() == n,
                messages.0@.map_values(|p: RistrettoPoint| point_log(p)) == msgs,
                m_vars@.len() == i as nat,
                forall|j: int|
                    0 <= j < i as int ==> crate::engine::prover_point_index(#[trigger] m_vars@[j])
                        == 10 + spv.n + j,
                prover@.stmt.transcript_label == "2019/1416 anonymous credential"@,
                prover@.stmt.proof_label == "2019/1416 issuance proof"@,
                prover@.stmt.scalar_labels == issuance_scalar_labels(spv.n),
                prover@.witness == issuance_witness(skv, credv),
                prover@.stmt.point_labels == mid_labels + Seq::new(i as nat, |k: int| "M"@),
                prover@.stmt.point_values == mid_values + msgs.subrange(0, i as int),
                prover@.stmt.constraints == Seq::<Constraint>::empty(),
            decreases n - i,
        {
            let v = prover_allocate_point(&mut prover, "M", &messages.0[i]);
            m_vars.push(v);
            proof {
                assert(prover@.stmt.point_labels =~= mid_labels + Seq::new(
                    (i + 1) as nat,
                    |k: int| "M"@,
                ));
                assert(point_log(messages.0@[i as int]) == msgs[i as int]);
                assert(prover@.stmt.point_values =~= mid_values + msgs.subrange(0, i as int + 1));
            }
            i = i + 1;
        }
        proof {
            assert(msgs.subrange(0, n as int) =~= msgs);
            assert(prover@.stmt.point_labels =~= issuance_point_labels(spv.n));
            assert(prover@.stmt.point_values =~= issuance_point_values(spv, ipv, credv));
        }

        // Constraint 0: C_W = w*G_w + w'*G_w'.
        let mut terms0: Vec<(zkp::toolbox::prover::ScalarVar, zkp::toolbox::prover::PointVar)> =
            Vec::new();
        terms0.push((w, v_G_w));
        terms0.push((w_prime, v_G_w_prime));
        prover_constrain(&mut prover, v_C_W, terms0);
        proof {
            let f = |tv: (zkp::toolbox::prover::ScalarVar, zkp::toolbox::prover::PointVar)|
                (
                    crate::engine::prover_scalar_index(tv.0),
                    crate::engine::prover_point_index(tv.1),
                );
            assert(prover@.stmt.constraints[0].terms =~= seq![(0int, 2int), (1int, 3int)]);
            assert(prover@.stmt.constraints =~= issuance_constraints(spv.n).subrange(0, 1));
        }

        // Constraint 1: I = 1*(-G_V) + x_0*G_x_0 + x_1*G_x_1 + sum y_i*G_y_i.
        let mut terms1: Vec<(zkp::toolbox::prover::ScalarVar, zkp::toolbox::prover::PointVar)> =
            Vec::new();
        terms1.push((one, v_neg_G_V));
        terms1.push((x_0, v_G_x_0));
        terms1.push((x_1, v_G_x_1));
        let mut i: usize = 0;
        while i < n
            invariant
                i <= n,
                n == spv.n,
                y_vars@.len() == n,
                gy_vars@.len() == n,
                forall|j: int|
                    0 <= j < n as int ==> crate::engine::prover_scalar_index(
                        #[trigger] y_vars@[j],
                    ) == 4 + j,
                forall|j: int|
                    0 <= j < n as int ==> crate::engine::prover_point_index(#[trigger] gy_vars@[j])
                        == 6 + j,
                terms1@.len() == 3 + i as nat,
                terms1@[0] == (one, v_neg_G_V),
                terms1@[1] == (x_0, v_G_x_0),
                terms1@[2] == (x_1, v_G_x_1),
                forall|j: int|
                    3 <= j < terms1@.len() ==> #[trigger] terms1@[j] == (
                        y_vars@[j - 3],
                        gy_vars@[j - 3],
                    ),
            decreases n - i,
        {
            terms1.push((y_vars[i], gy_vars[i]));
            i = i + 1;
        }
        let ghost terms1_view = terms1@;
        prover_constrain(&mut prover, v_I, terms1);
        proof {
            assert(prover@.stmt.constraints[1].terms =~= seq![
                (4 + spv.n as int, 0int),
                (2int, 4int),
                (3int, 5int),
            ] + Seq::new(spv.n, |k: int| (4 + k, 6 + k)));
            assert(prover@.stmt.constraints =~= issuance_constraints(spv.n).subrange(0, 2));
        }

        // Constraint 2: V = w*G_w + x_0*U + x_1*U + t*U + sum y_i*M_i.
        let mut terms2: Vec<(zkp::toolbox::prover::ScalarVar, zkp::toolbox::prover::PointVar)> =
            Vec::new();
        terms2.push((w, v_G_w));
        terms2.push((x_0, v_U));
        terms2.push((x_1, v_U));
        terms2.push((t, v_U));
        let mut i: usize = 0;
        while i < n
            invariant
                i <= n,
                n == spv.n,
                y_vars@.len() == n,
                m_vars@.len() == n,
                forall|j: int|
                    0 <= j < n as int ==> crate::engine::prover_scalar_index(
                        #[trigger] y_vars@[j],
                    ) == 4 + j,
                forall|j: int|
                    0 <= j < n as int ==> crate::engine::prover_point_index(#[trigger] m_vars@[j])
                        == 10 + spv.n + j,
                terms2@.len() == 4 + i as nat,
                terms2@[0] == (w, v_G_w),
                terms2@[1] == (x_0, v_U),
                terms2@[2] == (x_1, v_U),
                terms2@[3] == (t, v_U),
                forall|j: int|
                    4 <= j < terms2@.len() ==> #[trigger] terms2@[j] == (
                        y_vars@[j - 4],
                        m_vars@[j - 4],
                    ),
            decreases n - i,
        {
            terms2.push((y_vars[i], m_vars[i]));
            i = i + 1;
        }
        prover_constrain(&mut prover, v_V, terms2);
        proof {
            assert(prover@.stmt.constraints[2].terms =~= seq![
                (0int, 2int),
                (2int, 8 + spv.n as int),
                (3int, 8 + spv.n as int),
                (5 + spv.n as int, 8 + spv.n as int),
            ] + Seq::new(spv.n, |k: int| (4 + k, 10 + spv.n as int + k)));
            assert(prover@.stmt.constraints =~= issuance_constraints(spv.n));
            assert(prover@.stmt == stmt);
            lemma_issuance_statement_wf(spv, ipv, credv);
            if issuer_parameters_consistent(spv, skv, ipv) && credential_consistent(
                spv,
                skv,
                credv,
            ) {
                lemma_issuance_satisfied(spv, skv, ipv, credv);
            }
        }
        ProofOfIssuance(prover_prove_compact(prover))
    }

    /// Verify the proof against the issuance statement determined by the
    /// parameters and the credential. Verification succeeds exactly when no
    /// statement point is the identity and the engine accepts the proof.
    #[verifier::loop_isolation(false)]
    pub fn verify(
        &self,
        system_parameters: &SystemParameters,
        issuer_parameters: &IssuerParameters,
        credential: &AnonymousCredential,
    ) -> (r: Result<(), CredentialError>)
        requires
            system_parameters.wf(),
            credential.wf(system_parameters@),
        ensures
            r is Ok <==> issuance_points_nonzero(system_parameters@, issuer_parameters@, credential@)
                && accepts(
                self.0,
                issuance_statement(system_parameters@, issuer_parameters@, credential@),
            ),
            r is Err ==> r->Err_0 == CredentialError::VerificationFailure,
    {
        let ghost spv = system_parameters@;
        let ghost ipv = issuer_parameters@;
        let ghost credv = credential@;
        let ghost stmt = issuance_statement(spv, ipv, credv);
        let ghost pv = issuance_point_values(spv, ipv, credv);
        let n: usize = system_parameters.G_y.len();
        proof {
            lemma_issuance_statement_wf(spv, ipv, credv);
        }

        let mut transcript = transcript_new("2019/1416 anonymous credential");
        let mut verifier = verifier_new("2019/1416 issuance proof", &mut transcript);

        let w = verifier_allocate_scalar(&mut verifier, "w");
        let w_prime = verifier_allocate_scalar(&mut verifier, "w'");
        let x_0 = verifier_allocate_scalar(&mut verifier, "x_0");
        let x_1 = verifier_allocate_scalar(&mut verifier, "x_1");
        proof {
            assert(verifier@.scalar_labels =~= seq!["w"@, "w'"@, "x_0"@, "x_1"@] + Seq::new(
                0,
                |k: int| "y"@,
            ));
        }
        let mut y_vars: Vec<zkp::toolbox::verifier::ScalarVar> = Vec::new();
        let mut i: usize = 0;
        while i < n
            invariant
                i <= n,
                y_vars@.len() == i as nat,
                forall|j: int|
                    0 <= j < i as int ==> crate::engine::verifier_scalar_index(
                        #[trigger] y_vars@[j],
                    ) == 4 + j,
                verifier@.scalar_labels == seq!["w"@, "w'"@, "x_0"@, "x_1"@] + Seq::new(
                    i as nat,
                    |k: int| "y"@,
                ),
                verifier@.transcript_label == stmt.transcript_label,
                verifier@.proof_label == stmt.proof_label,
                verifier@.point_labels == Seq::<Seq<char>>::empty(),
                verifier@.point_values == Seq::<nat>::empty(),
                verifier@.constraints == Seq::<Constraint>::empty(),
            decreases n - i,
        {
            let v = verifier_allocate_scalar(&mut verifier, "y");
            y_vars.push(v);
            proof {
                assert(verifier@.scalar_labels =~= seq!["w"@, "w'"@, "x_0"@, "x_1"@] + Seq::new(
                    (i + 1) as nat,
                    |k: int| "y"@,
                ));
            }
            i = i + 1;
        }
        let one = verifier_allocate_scalar(&mut verifier, "1");
        let t = verifier_allocate_scalar(&mut verifier, "t");
        proof {
            assert(verifier@.scalar_labels =~= issuance_scalar_labels(spv.n));
        }

        let neg_G_V = point_neg(&system_parameters.G_V);
        let v_neg_G_V = match verifier_allocate_point(&mut verifier, "-G_V", &neg_G_V) {
            Some(v) => v,
            None => {
                proof {
                    assert(pv[0] == 0);
                    assert(!issuance_points_nonzero(spv, ipv, credv));
                }
                return Err(CredentialError::VerificationFailure);
            },
        };
        let v_G = match verifier_allocate_point(&mut verifier, "G", &system_parameters.G) {
            Some(v) => v,
            None => {
                proof {
                    assert(pv[1] == 0);
                    assert(!issuance_points_nonzero(spv, ipv, credv));
                }
                return Err(CredentialError::VerificationFailure);
            },
        };
        let v_G_w = match verifier_allocate_point(&mut verifier, "G_w", &system_parameters.G_w) {
            Some(v) => v,
            None => {
                proof {
                    assert(pv[2] == 0);
                    assert(!issuance_points_nonzero(spv, ipv, credv));
                }
                return Err(CredentialError::VerificationFailure);
            },
        };
        let v_G_w_prime = match verifier_allocate_point(
            &mut verifier,
            "G_w_prime",
            &system_parameters.G_w_prime,
        ) {
            Some(v) => v,
            None => {
                proof {
                    assert(pv[3] == 0);
                    assert(!issuance_points_nonzero(spv, ipv, credv));
                }
                return Err(CredentialError::VerificationFailure);
            },
        };
        let v_G_x_0 = match verifier_allocate_point(
            &mut verifier,
            "G_x_0",
            &system_parameters.G_x_0,
        ) {
            Some(v) => v,
            None => {
                proof {
                    assert(pv[4] == 0);
                    assert(!issuance_points_nonzero(spv, ipv, credv));
                }
                return Err(CredentialError::VerificationFailure);
            },
        };
        let v_G_x_1 = match verifier_allocate_point(
            &mut verifier,
            "G_x_1",
            &system_parameters.G_x_1,
        ) {
            Some(v) => v,
            None => {
                proof {
                    assert(pv[5] == 0);
                    assert(!issuance_points_nonzero(spv, ipv, credv));
                }
                return Err(CredentialError::VerificationFailure);
            },
        };
        let ghost base_labels = seq!["-G_V"@, "G"@, "G_w"@, "G_w_prime"@, "G_x_0"@, "G_x_1"@];
        let ghost base_values = seq![
            fneg(spv.g_v),
            spv.g,
            spv.g_w,
            spv.g_w_prime,
            spv.g_x_0,
            spv.g_x_1,
        ];
        proof {
            assert(verifier@.point_labels =~= base_labels + Seq::new(0, |k: int| "G_y"@));
            assert(verifier@.point_values =~= base_values + spv.g_y.subrange(0, 0));
        }
        let mut gy_vars: Vec<zkp::toolbox::verifier::PointVar> = Vec::new();
        let mut i: usize = 0;
        while i < n
            invariant
                i <= n,
                gy_vars@.len() == i as nat,
                forall|j: int|
                    0 <= j < i as int ==> crate::engine::verifier_point_index(
                        #[trigger] gy_vars@[j],
                    ) == 6 + j,
                forall|j: int| 0 <= j < i as int ==> spv.g_y[j] != 0,
                verifier@.scalar_labels == issuance_scalar_labels(spv.n),
                verifier@.transcript_label == stmt.transcript_label,
                verifier@.proof_label == stmt.proof_label,
                verifier@.point_labels == base_labels + Seq::new(i as nat, |k: int| "G_y"@),
                verifier@.point_values == base_values + spv.g_y.subrange(0, i as int),
                verifier@.constraints == Seq::<Constraint>::empty(),
            decreases n - i,
        {
            let v = match verifier_allocate_point(&mut verifier, "G_y", &system_parameters.G_y[i]) {
                Some(v) => v,
                None => {
                    proof {
                        assert(pv[6 + i as int] == spv.g_y[i as int]);
                        assert(!issuance_points_nonzero(spv, ipv, credv));
                    }
                    return Err(CredentialError::VerificationFailure);
                },
            };
            gy_vars.push(v);
            proof {
                assert(verifier@.point_labels =~= base_labels + Seq::new(
                    (i + 1) as nat,
                    |k: int| "G_y"@,
                ));
                assert(verifier@.point_values =~= base_values + spv.g_y.subrange(0, i as int + 1));
            }
            i = i + 1;
        }
        proof {
            assert(spv.g_y.subrange(0, n as int) =~= spv.g_y);
        }
        let v_C_W = match verifier_allocate_point(&mut verifier, "C_W", &issuer_parameters.C_W) {
            Some(v) => v,
            None => {
                proof {
                    assert(pv[6 + spv.n as int] == 0);
                    assert(!issuance_points_nonzero(spv, ipv, credv));
                }
                return Err(CredentialError::VerificationFailure);
            },
        };
        let v_I = match verifier_allocate_point(&mut verifier, "I", &issuer_parameters.I) {
            Some(v) => v,
            None => {
                proof {
                    assert(pv[7 + spv.n as int] == 0);
                    assert(!issuance_points_nonzero(spv, ipv, credv));
                }
                return Err(CredentialError::VerificationFailure);
            },
        };
        let v_U = match verifier_allocate_point(&mut verifier, "U", &credential.amac.U) {
            Some(v) => v,
            None => {
                proof {
                    assert(pv[8 + spv.n as int] == 0);
                    assert(!issuance_points_nonzero(spv, ipv, credv));
                }
                return Err(CredentialError::VerificationFailure);
            },
        };
        let v_V = match verifier_allocate_point(&mut verifier, "V", &credential.amac.V) {
            Some(v) => v,
            None => {
                proof {
                    assert(pv[9 + spv.n as int] == 0);
                    assert(!issuance_points_nonzero(spv, ipv, credv));
                }
                return Err(CredentialError::VerificationFailure);
            },
        };
        let ghost mid_labels = (base_labels + Seq::new(spv.n, |k: int| "G_y"@)) + seq![
            "C_W"@,
            "I"@,
            "U"@,
            "V"@,
        ];
        let ghost mid_values = (base_values + spv.g_y) + seq![ipv.c_w, ipv.i, credv.u, credv.v];
        let ghost msgs = message_values(credv.attributes, spv.g_m);
        proof {
            assert(verifier@.point_labels =~= mid_labels + Seq::new(0, |k: int| "M"@));
            assert(verifier@.point_values =~= mid_values + msgs.subrange(0, 0));
        }
        let messages = Messages::from_attributes(&credential.attributes, system_parameters);
        let mut m_vars: Vec<zkp::toolbox::verifier::PointVar> = Vec::new();
        let mut i: usize = 0;
        while i < n
            invariant
                i <= n,
                n == messages.0@.len(),
                messages.0@.map_values(|p: RistrettoPoint| point_log(p)) == msgs,
                m_vars@.len() == i as nat,
                forall|j: int|
                    0 <= j < i as int ==> crate::engine::verifier_point_index(
                        #[trigger] m_vars@[j],
                    ) == 10 + spv.n + j,
                forall|j: int| 0 <= j < i as int ==> msgs[j] != 0,
                verifier@.scalar_labels == issuance_scalar_labels(spv.n),
                verifier@.transcript_label == stmt.transcript_label,
                verifier@.proof_label == stmt.proof_label,
                verifier@.point_labels == mid_labels + Seq::new(i as nat, |k: int| "M"@),
                verifier@.point_values == mid_values + msgs.subrange(0, i as int),
                verifier@.constraints == Seq::<Constraint>::empty(),
            decreases n - i,
        {
            let v = match verifier_allocate_point(&mut verifier, "M", &messages.0[i]) {
                Some(v) => v,
                None => {
                    proof {
                        assert(pv[10 + spv.n as int + i as int] == msgs[i as int]);
                        assert(!issuance_points_nonzero(spv, ipv, credv));
                    }
                    return Err(CredentialError::VerificationFailure);
                },
            };
            m_vars.push(v);
            proof {
                assert(verifier@.point_labels =~= mid_labels + Seq::new(
                    (i + 1) as nat,
                    |k: int| "M"@,
                ));
                assert(verifier@.point_values =~= mid_values + msgs.subrange(0, i as int + 1));
            }
            i = i + 1;
        }
        proof {
            assert(msgs.subrange(0, n as int) =~= msgs);
            assert(verifier@.point_labels =~= issuance_point_labels(spv.n));
            assert(verifier@.point_values =~= issuance_point_values(spv, ipv, credv));
        }

        // Constraint 0: C_W = w*G_w + w'*G_w'.
        let mut terms0: Vec<(zkp::toolbox::verifier::ScalarVar, zkp::toolbox::verifier::PointVar)> =
            Vec::new();
        terms0.push((w, v_G_w));
        terms0.push((w_prime, v_G_w_prime));
        verifier_constrain(&mut verifier, v_C_W, terms0);
        proof {
            assert(verifier@.constraints[0].terms =~= seq![(0int, 2int), (1int, 3int)]);
            assert(verifier@.constraints =~= issuance_constraints(spv.n).subrange(0, 1));
        }

        // Constraint 1: I = 1*(-G_V) + x_0*G_x_0 + x_1*G_x_1 + sum y_i*G_y_i.
        let mut terms1: Vec<(zkp::toolbox::verifier::ScalarVar, zkp::toolbox::verifier::PointVar)> =
            Vec::new();
        terms1.push((one, v_neg_G_V));
        terms1.push((x_0, v_G_x_0));
        terms1.push((x_1, v_G_x_1));
        let mut i: usize = 0;
        while i < n
            invariant
                i <= n,
                terms1@.len() == 3 + i as nat,
                terms1@[0] == (one, v_neg_G_V),
                terms1@[1] == (x_0, v_G_x_0),
                terms1@[2] == (x_1, v_G_x_1),
                forall|j: int|
                    3 <= j < terms1@.len() ==> #[trigger] terms1@[j] == (
                        y_vars@[j - 3],
                        gy_vars@[j - 3],
                    ),
            decreases n - i,
        {
            terms1.push((y_vars[i], gy_vars[i]));
            i = i + 1;
        }
        verifier_constrain(&mut verifier, v_I, terms1);
        proof {
            assert(verifier@.constraints[1].terms =~= seq![
                (4 + spv.n as int, 0int),
                (2int, 4int),
                (3int, 5int),
            ] + Seq::new(spv.n, |k: int| (4 + k, 6 + k)));
            assert(verifier@.constraints =~= issuance_constraints(spv.n).subrange(0, 2));
        }

        // Constraint 2: V = w*G_w + x_0*U + x_1*U + t*U + sum y_i*M_i.
        let mut terms2: Vec<(zkp::toolbox::verifier::ScalarVar, zkp::toolbox::verifier::PointVar)> =
            Vec::new();
        terms2.push((w, v_G_w));
        terms2.push((x_0, v_U));
        terms2.push((x_1, v_U));
        terms2.push((t, v_U));
        let mut i: usize = 0;
        while i < n
            invariant
                i <= n,
                terms2@.len() == 4 + i as nat,
                terms2@[0] == (w, v_G_w),
                terms2@[1] == (x_0, v_U),
                terms2@[2] == (x_1, v_U),
                terms2@[3] == (t, v_U),
                forall|j: int|
                    4 <= j < terms2@.len() ==> #[trigger] terms2@[j] == (
                        y_vars@[j - 4],
                        m_vars@[j - 4],
                    ),
            decreases n - i,
        {
            terms2.push((y_vars[i], m_vars[i]));
            i = i + 1;
        }
        verifier_constrain(&mut verifier, v_V, terms2);
        proof {
            assert(verifier@.constraints[2].terms =~= seq![
                (0int, 2int),
                (2int, 8 + spv.n as int),
                (3int, 8 + spv.n as int),
                (5 + spv.n as int, 8 + spv.n as int),
            ] + Seq::new(spv.n, |k: int| (4 + k, 10 + spv.n as int + k)));
            assert(verifier@.constraints =~= issuance_constraints(spv.n));
            assert(verifier@ == stmt);
            assert(issuance_points_nonzero(spv, ipv, credv)) by {
                assert forall|j: int| 0 <= j < pv.len() implies #[trigger] pv[j] != 0 by {
                    if j < 6 {
                    } else if j < 6 + spv.n {
                        assert(pv[j] == spv.g_y[j - 6]);
                    } else if j < 10 + spv.n {
                    } else {
                        assert(pv[j] == msgs[j - 10 - spv.n]);
                    }
                }
            }
        }
        if verifier_verify_compact(verifier, &self.0) {
            Ok(())
        } else {
            Err(CredentialError::VerificationFailure)
        }
    }
}

/// Abbreviation: the `i`-th constraint of a statement holds.
pub open spec fn constraint_holds_for(stmt: Statement, witness: Seq<nat>, i: int) -> bool {
    crate::engine::constraint_holds(stmt, witness, stmt.constraints[i])
}

} // verus!

