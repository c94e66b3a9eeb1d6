//! Trusted boundary to the Schnorr constraint-system proof engine.
//!
//! A proof statement is modeled as the ordered transcript content that both
//! sides feed the engine: the transcript and proof labels, the labels of the
//! secret scalar variables, the labels and discrete logarithms of the public
//! point variables, and the list of linear constraints over variable indices.
//! The prover additionally carries the witness: the residues assigned to the
//! scalar variables, in allocation order.
//!
//! The transcript absorbs each allocation at call time, so the challenge
//! depends on how scalar and point allocations interleave. The model keeps
//! the two label lists separately and therefore describes only sessions that
//! allocate every scalar variable before any point variable; the scalar
//! allocation wrappers require exactly that. Under this discipline the
//! statement determines the transcript: the session label, the proof label,
//! the scalar labels in order, the point labels with their compressed values
//! in order, and one recomputed commitment per constraint in order.
//!
//! A compact proof is accepted exactly when the engine's recomputed
//! Fiat-Shamir challenge over that statement matches the proof, which is
//! then a deterministic function of the proof and the statement; `accepts`
//! names it. Completeness of the Schnorr protocol is exact: a proof produced
//! over a statement whose constraints its witness satisfies is always
//! accepted for that same statement.

use vstd::prelude::*;
use crate::field::{fmul, fadd, group_order};
use crate::group::point_log;
use curve25519_dalek_ng::ristretto::RistrettoPoint;
use curve25519_dalek_ng::scalar::Scalar;
use zkp::CompactProof;
use zkp::Transcript;
use zkp::toolbox::SchnorrCS;
use zkp::toolbox::prover::Prover;
use zkp::toolbox::verifier::Verifier;

verus! {

/// Declares the append-only Fiat-Shamir transcript, kept opaque.
#[verifier::external_type_specification]
#[verifier::external_body]
pub struct ExTranscript(Transcript);

/// Declares a compact Schnorr proof: one challenge and one response per secret variable, kept opaque.
#[verifier::external_type_specification]
#[verifier::external_body]
pub struct ExCompactProof(CompactProof);

/// Declares the engine's prover, kept opaque.
#[verifier::external_type_specification]
#[verifier::external_body]
pub struct ExProver<'a>(Prover<'a>);

/// Declares a prover-side scalar variable handle, kept opaque.
#[verifier::external_type_specification]
#[verifier::external_body]
pub struct ExProverScalarVar(zkp::toolbox::prover::ScalarVar);

/// Declares a prover-side point variable handle, kept opaque.
#[verifier::external_type_specification]
#[verifier::external_body]
pub struct ExProverPointVar(zkp::toolbox::prover::PointVar);

/// Declares the engine's verifier, kept opaque.
#[verifier::external_type_specification]
#[verifier::external_body]
pub struct ExVerifier<'a>(Verifier<'a>);

/// Declares a verifier-side scalar variable handle, kept opaque.
#[verifier::external_type_specification]
#[verifier::external_body]
pub struct ExVerifierScalarVar(zkp::toolbox::verifier::ScalarVar);

/// Declares a verifier-side point variable handle, kept opaque.
#[verifier::external_type_specification]
#[verifier::external_body]
pub struct ExVerifierPointVar(zkp::toolbox::verifier::PointVar);

/// One linear constraint: the point variable `lhs` equals the sum of
/// `witness[terms[j].0] * points[terms[j].1]` over all terms.
pub ghost struct Constraint {
    pub lhs: int,
    pub terms: Seq<(int, int)>,
}

/// The transcript content that determines a proof statement.
pub ghost struct Statement {
    pub transcript_label: Seq<char>,
    pub proof_label: Seq<char>,
    pub scalar_labels: Seq<Seq<char>>,
    pub point_labels: Seq<Seq<char>>,
    pub point_values: Seq<nat>,
    pub constraints: Seq<Constraint>,
}

/// The prover's statement together with the witness it assigned.
pub ghost struct ProverModel {
    pub stmt: Statement,
    pub witness: Seq<nat>,
}

/// Value of the linear combination described by `terms`.
pub open spec fn lc_value(point_values: Seq<nat>, witness: Seq<nat>, terms: Seq<(int, int)>) -> nat
    decreases terms.len(),
{
    if terms.len() == 0 {
        0
    } else {
        fadd(
            fmul(witness[terms[0].0], point_values[terms[0].1]),
            lc_value(point_values, witness, terms.drop_first()),
        )
    }
}

/// The value of a linear combination is a reduced residue.
pub proof fn lemma_lc_bound(point_values: Seq<nat>, witness: Seq<nat>, terms: Seq<(int, int)>)
    ensures
        terms.len() > 0 ==> lc_value(point_values, witness, terms) < group_order(),
{
    if terms.len() > 0 {
        crate::field::lemma_fadd_reduced(
            fmul(witness[terms[0].0], point_values[terms[0].1]),
            lc_value(point_values, witness, terms.drop_first()),
        );
    }
}

/// A linear combination splits over concatenation of its term lists.
pub proof fn lemma_lc_concat(
    point_values: Seq<nat>,
    witness: Seq<nat>,
    a: Seq<(int, int)>,
    b: Seq<(int, int)>,
)
    ensures
        lc_value(point_values, witness, a + b) == fadd(
            lc_value(point_values, witness, a),
            lc_value(point_values, witness, b),
        ),
    decreases a.len(),
{
    let l = group_order();
    if a.len() == 0 {
        assert(a + b =~= b);
        let vb = lc_value(point_values, witness, b);
        crate::field::lemma_fadd_zero(vb);
        if b.len() == 0 {
            crate::field::lemma_mod_noop(0);
        } else {
            lemma_lc_bound(point_values, witness, b);
            crate::field::lemma_mod_noop(vb);
        }
    } else {
        assert((a + b).drop_first() =~= a.drop_first() + b);
        lemma_lc_concat(point_values, witness, a.drop_first(), b);
        let t0 = fmul(witness[a[0].0], point_values[a[0].1]);
        assert((a + b)[0] == a[0]);
        crate::field::lemma_fadd_assoc(
            t0,
            lc_value(point_values, witness, a.drop_first()),
            lc_value(point_values, witness, b),
        );
    }
}

/// A linear combination over consecutively indexed variables is the product
/// sum of the corresponding segments.
pub proof fn lemma_lc_uniform(
    point_values: Seq<nat>,
    witness: Seq<nat>,
    s0: int,
    p0: int,
    len: nat,
)
    requires
        0 <= s0,
        s0 + len <= witness.len(),
        0 <= p0,
        p0 + len <= point_values.len(),
    ensures
        lc_value(point_values, witness, Seq::new(len, |i: int| (s0 + i, p0 + i))) == crate::field::msum(
            witness.subrange(s0, s0 + len),
            point_values.subrange(p0, p0 + len),
        ),
    decreases len,
{
    let terms = Seq::new(len, |i: int| (s0 + i, p0 + i));
    if len == 0 {
        assert(witness.subrange(s0, s0 + len).len() == 0);
    } else {
        let rest = Seq::new((len - 1) as nat, |i: int| (s0 + 1 + i, p0 + 1 + i));
        assert(terms.drop_first() =~= rest);
        lemma_lc_uniform(point_values, witness, s0 + 1, p0 + 1, (len - 1) as nat);
        assert(witness.subrange(s0, s0 + len).drop_first() =~= witness.subrange(
            s0 + 1,
            s0 + len,
        ));
        assert(point_values.subrange(p0, p0 + len).drop_first() =~= point_values.subrange(
            p0 + 1,
            p0 + len,
        ));
        assert(witness.subrange(s0, s0 + len)[0] == witness[s0]);
        assert(point_values.subrange(p0, p0 + len)[0] == point_values[p0]);
    }
}

/// The witness satisfies one constraint of the statement.
pub open spec fn constraint_holds(stmt: Statement, witness: Seq<nat>, c: Constraint) -> bool {
    stmt.point_values[c.lhs] % group_order() == lc_value(stmt.point_values, witness, c.terms)
}

/// The witness satisfies every constraint of the statement.
pub open spec fn satisfied(stmt: Statement, witness: Seq<nat>) -> bool {
    forall|i: int|
        0 <= i < stmt.constraints.len() ==> constraint_holds(stmt, witness, #[trigger] stmt.constraints[i])
}

/// Every index of one constraint is in range.
pub open spec fn constraint_in_range(c: Constraint, n_scalars: int, n_points: int) -> bool {
    &&& 0 <= c.lhs < n_points
    &&& forall|j: int|
        0 <= j < c.terms.len() ==> {
            &&& 0 <= (#[trigger] c.terms[j]).0 < n_scalars
            &&& 0 <= c.terms[j].1 < n_points
        }
}

/// The statement is internally consistent: one value per point label, and
/// every constraint index in range.
pub open spec fn stmt_wf(stmt: Statement) -> bool {
    &&& stmt.point_values.len() == stmt.point_labels.len()
    &&& forall|i: int|
        0 <= i < stmt.constraints.len() ==> constraint_in_range(
            #[trigger] stmt.constraints[i],
            stmt.scalar_labels.len() as int,
            stmt.point_values.len() as int,
        )
}

/// Whether the engine's compact verification accepts the proof for the
/// statement: the recomputed challenge matches and the response count equals
/// the statement's scalar count. This is a function of the proof and the
/// statement for sessions that allocate every scalar variable before any
/// point variable, the discipline the scalar allocation wrappers require.
pub uninterp spec fn accepts(proof: CompactProof, stmt: Statement) -> bool;

/// The label that a transcript was initialized with.
pub uninterp spec fn transcript_init_label(t: Transcript) -> Seq<char>;

/// Index of a prover scalar variable.
pub uninterp spec fn prover_scalar_index(v: zkp::toolbox::prover::ScalarVar) -> int;

/// Index of a prover point variable.
pub uninterp spec fn prover_point_index(v: zkp::toolbox::prover::PointVar) -> int;

/// Index of a verifier scalar variable.
pub uninterp spec fn verifier_scalar_index(v: zkp::toolbox::verifier::ScalarVar) -> int;

/// Index of a verifier point variable.
pub uninterp spec fn verifier_point_index(v: zkp::toolbox::verifier::PointVar) -> int;

/// The proof engine in proving mode, with its statement model.
pub struct ProverCtx<'a> {
    inner: Prover<'a>,
    model: Ghost<ProverModel>,
}

impl<'a> View for ProverCtx<'a> {
    type V = ProverModel;

    closed spec fn view(&self) -> ProverModel {
        self.model@
    }
}

/// The proof engine in verifying mode, with its statement model.
pub struct VerifierCtx<'a> {
    inner: Verifier<'a>,
    model: Ghost<Statement>,
}

impl<'a> View for VerifierCtx<'a> {
    type V = Statement;

    closed spec fn view(&self) -> Statement {
        self.model@
    }
}

/// Relies on the transcript's constructor, which seeds a fresh transcript
/// with the given domain-separation label.
#[verifier::external_body]
pub fn transcript_new(label: &'static str) -> (t: Transcript)
    ensures
        transcript_init_label(t) == label@,
{
    Transcript::new(label.as_bytes())
}

/// Relies on the engine's prover constructor, which appends the proof label
/// to the transcript and starts with no variables and no constraints.
#[verifier::external_body]
fn prover_new_raw<'a>(proof_label: &'static str, transcript: &'a mut Transcript) -> Prover<'a> {
    Prover::new(proof_label.as_bytes(), transcript)
}

/// Start a proving session on a fresh transcript.
pub fn prover_new<'a>(proof_label: &'static str, transcript: &'a mut Transcript) -> (p: ProverCtx<
    'a,
>)
    ensures
        p@ == (ProverModel {
            stmt: Statement {
                transcript_label: transcript_init_label(*old(transcript)),
                proof_label: proof_label@,
                scalar_labels: Seq::empty(),
                point_labels: Seq::empty(),
                point_values: Seq::empty(),
                constraints: Seq::empty(),
            },
            witness: Seq::empty(),
        }),
{
    let ghost transcript_label = transcript_init_label(*transcript);
    let inner = prover_new_raw(proof_label, transcript);
    ProverCtx {
        inner,
        model: Ghost(
            ProverModel {
                stmt: Statement {
                    transcript_label,
                    proof_label: proof_label@,
                    scalar_labels: Seq::empty(),
                    point_labels: Seq::empty(),
                    point_values: Seq::empty(),
                    constraints: Seq::empty(),
                },
                witness: Seq::empty(),
            },
        ),
    }
}

/// Relies on the prover's scalar allocation, which appends the label to the
/// transcript and records the assignment as the next scalar variable. Scalar
/// variables must all be allocated before any point variable, so that the
/// statement determines the transcript.
#[verifier::external_body]
pub fn prover_allocate_scalar<'a>(
    p: &mut ProverCtx<'a>,
    label: &'static str,
    assignment: &Scalar,
) -> (v: zkp::toolbox::prover::ScalarVar)
    requires
        old(p)@.stmt.point_labels.len() == 0,
    ensures
        final(p)@ == (ProverModel {
            stmt: Statement {
                scalar_labels: old(p)@.stmt.scalar_labels.push(label@),
                ..old(p)@.stmt
            },
            witness: old(p)@.witness.push(crate::group::scalar_value(*assignment)),
        }),
        prover_scalar_index(v) == old(p)@.witness.len() as int,
{
    p.inner.allocate_scalar(label.as_bytes(), *assignment)
}

/// Relies on the prover's point allocation, which appends the label and the
/// compressed point to the transcript and records it as the next point
/// variable.
#[verifier::external_body]
pub fn prover_allocate_point<'a>(
    p: &mut ProverCtx<'a>,
    label: &'static str,
    assignment: &RistrettoPoint,
) -> (v: zkp::toolbox::prover::PointVar)
    ensures
        final(p)@ == (ProverModel {
            stmt: Statement {
                point_labels: old(p)@.stmt.point_labels.push(label@),
                point_values: old(p)@.stmt.point_values.push(point_log(*assignment)),
                ..old(p)@.stmt
            },
            witness: old(p)@.witness,
        }),
        prover_point_index(v) == old(p)@.stmt.point_values.len() as int,
{
    p.inner.allocate_point(label.as_bytes(), *assignment).0
}

/// Relies on the prover's `constrain`, which records the linear constraint.
#[verifier::external_body]
pub fn prover_constrain<'a>(
    p: &mut ProverCtx<'a>,
    lhs: zkp::toolbox::prover::PointVar,
    terms: Vec<(zkp::toolbox::prover::ScalarVar, zkp::toolbox::prover::PointVar)>,
)
    requires
        0 <= prover_point_index(lhs) < old(p)@.stmt.point_values.len(),
        forall|j: int|
            0 <= j < terms@.len() ==> {
                &&& 0 <= prover_scalar_index((#[trigger] terms@[j]).0) < old(p)@.witness.len()
                &&& 0 <= prover_point_index(terms@[j].1) < old(p)@.stmt.point_values.len()
            },
    ensures
        final(p)@ == (ProverModel {
            stmt: Statement {
                constraints: old(p)@.stmt.constraints.push(
                    Constraint {
                        lhs: prover_point_index(lhs),
                        terms: terms@.map_values(
                            |t: (zkp::toolbox::prover::ScalarVar, zkp::toolbox::prover::PointVar)|
                                (prover_scalar_index(t.0), prover_point_index(t.1)),
                        ),
                    },
                ),
                ..old(p)@.stmt
            },
            witness: old(p)@.witness,
        }),
{
    p.inner.constrain(lhs, terms)
}

/// Relies on the prover's `prove_compact`. Schnorr completeness is exact: a
/// witness that satisfies every constraint yields a proof that the compact
/// verification of the same statement accepts. The statement determines the
/// transcript because scalar allocation requires that no point has been
/// allocated yet.
#[verifier::external_body]
pub fn prover_prove_compact<'a>(p: ProverCtx<'a>) -> (proof: CompactProof)
    requires
        stmt_wf(p@.stmt),
        p@.witness.len() == p@.stmt.scalar_labels.len(),
    ensures
        satisfied(p@.stmt, p@.witness) ==> accepts(proof, p@.stmt),
{
    p.inner.prove_compact()
}

/// Relies on the engine's verifier constructor, which appends the proof
/// label to the transcript and starts with no variables and no constraints.
#[verifier::external_body]
fn verifier_new_raw<'a>(proof_label: &'static str, transcript: &'a mut Transcript) -> Verifier<
    'a,
> {
    Verifier::new(proof_label.as_bytes(), transcript)
}

/// Start a verifying session on a fresh transcript.
pub fn verifier_new<'a>(proof_label: &'static str, transcript: &'a mut Transcript) -> (v:
    VerifierCtx<'a>)
    ensures
        v@ == (Statement {
            transcript_label: transcript_init_label(*old(transcript)),
            proof_label: proof_label@,
            scalar_labels: Seq::empty(),
            point_labels: Seq::empty(),
            point_values: Seq::empty(),
            constraints: Seq::empty(),
        }),
{
    let ghost transcript_label = transcript_init_label(*transcript);
    let inner = verifier_new_raw(proof_label, transcript);
    VerifierCtx {
        inner,
        model: Ghost(
            Statement {
                transcript_label,
                proof_label: proof_label@,
                scalar_labels: Seq::empty(),
                point_labels: Seq::empty(),
                point_values: Seq::empty(),
                constraints: Seq::empty(),
            },
        ),
    }
}

/// Relies on the verifier's scalar allocation, which appends the label to
/// the transcript. Scalar variables must all be allocated before any point
/// variable, so that the statement determines the transcript.
#[verifier::external_body]
pub fn verifier_allocate_scalar<'a>(v: &mut VerifierCtx<'a>, label: &'static str) -> (sv:
    zkp::toolbox::verifier::ScalarVar)
    requires
        old(v)@.point_labels.len() == 0,
    ensures
        final(v)@ == (Statement { scalar_labels: old(v)@.scalar_labels.push(label@), ..old(v)@ }),
        verifier_scalar_index(sv) == old(v)@.scalar_labels.len() as int,
{
    v.inner.allocate_scalar(label.as_bytes())
}

/// Relies on the verifier's point allocation, which compresses the point,
/// rejects the identity element, and otherwise appends the label and the
/// encoding to the transcript. Compression of a group element is canonical,
/// so allocation fails exactly on the identity, whose discrete logarithm is
/// zero, and on failure the transcript is left untouched.
#[verifier::external_body]
pub fn verifier_allocate_point<'a>(
    v: &mut VerifierCtx<'a>,
    label: &'static str,
    assignment: &RistrettoPoint,
) -> (r: Option<zkp::toolbox::verifier::PointVar>)
    ensures
        r is Some <==> point_log(*assignment) != 0,
        r is Some ==> final(v)@ == (Statement {
            point_labels: old(v)@.point_labels.push(label@),
            point_values: old(v)@.point_values.push(point_log(*assignment)),
            ..old(v)@
        }),
        r is Some ==> verifier_point_index(r->0) == old(v)@.point_values.len() as int,
        r is None ==> final(v)@ == old(v)@,
{
    match v.inner.allocate_point(label.as_bytes(), assignment.compress()) {
        Ok(pv) => Some(pv),
        Err(_) => None,
    }
}

/// Relies on the verifier's `constrain`, which records the linear constraint.
#[verifier::external_body]
pub fn verifier_constrain<'a>(
    v: &mut VerifierCtx<'a>,
    lhs: zkp::toolbox::verifier::PointVar,
    terms: Vec<(zkp::toolbox::verifier::ScalarVar, zkp::toolbox::verifier::PointVar)>,
)
    requires
        0 <= verifier_point_index(lhs) < old(v)@.point_values.len(),
        forall|j: int|
            0 <= j < terms@.len() ==> {
                &&& 0 <= verifier_scalar_index((#[trigger] terms@[j]).0) < old(
                    v,
                )@.scalar_labels.len()
                &&& 0 <= verifier_point_index(terms@[j].1) < old(v)@.point_values.len()
            },
    ensures
        final(v)@ == (Statement {
            constraints: old(v)@.constraints.push(
                Constraint {
                    lhs: verifier_point_index(lhs),
                    terms: terms@.map_values(
                        |t: (
                            zkp::toolbox::verifier::ScalarVar,
                            zkp::toolbox::verifier::PointVar,
                        )| (verifier_scalar_index(t.0), verifier_point_index(t.1)),
                    ),
                },
            ),
            ..old(v)@
        }),
{
    v.inner.constrain(lhs, terms)
}

/// Relies on the verifier's `verify_compact`, a deterministic recomputation
/// of the Fiat-Shamir challenge from the statement: it succeeds exactly when
/// the proof is accepted for the verifier's statement. The statement
/// determines the transcript because scalar allocation requires that no
/// point has been allocated yet.
#[verifier::external_body]
pub fn verifier_verify_compact<'a>(v: VerifierCtx<'a>, proof: &CompactProof) -> (r: bool)
    requires
        stmt_wf(v@),
    ensures
        r <==> accepts(*proof, v@),
{
    v.inner.verify_compact(proof).is_ok()
}

} // verus!

