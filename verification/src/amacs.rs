//! Algebraic MACs: attributes, the issuer's MAC key, and the message vector.

use vstd::prelude::*;
use crate::field::{fadd, fmul, msum};
use crate::group::{point_log, point_mul, scalar_random, scalar_value};
use crate::parameters::{SystemParameters, SystemParametersV};
use curve25519_dalek_ng::ristretto::RistrettoPoint;
use curve25519_dalek_ng::scalar::Scalar;
use rand::rngs::ThreadRng;

verus! {

/// One entry of an attribute vector.
pub enum Attribute {
    /// A revealed scalar, placed at `m * G_m[i]` in the message vector.
    PublicScalar(Scalar),
    /// A hidden scalar, placed at `m * G_m[i]` in the message vector.
    SecretScalar(Scalar),
    /// A revealed group element, placed as itself in the message vector.
    PublicPoint(RistrettoPoint),
    /// A hidden group element, placed as itself in the message vector.
    SecretPoint(RistrettoPoint),
}

/// The model of an attribute: the residue of its scalar, or the discrete
/// logarithm of its point.
pub ghost enum AttributeV {
    PublicScalar(nat),
    SecretScalar(nat),
    PublicPoint(nat),
    SecretPoint(nat),
}

impl View for Attribute {
    type V = AttributeV;

    open spec fn view(&self) -> AttributeV {
        match self {
            Attribute::PublicScalar(m) => AttributeV::PublicScalar(scalar_value(*m)),
            Attribute::SecretScalar(m) => AttributeV::SecretScalar(scalar_value(*m)),
            Attribute::PublicPoint(p) => AttributeV::PublicPoint(point_log(*p)),
            Attribute::SecretPoint(p) => AttributeV::SecretPoint(point_log(*p)),
        }
    }
}

/// The models of a vector of attributes.
pub open spec fn attributes_view(attributes: Seq<Attribute>) -> Seq<AttributeV> {
    attributes.map_values(|a: Attribute| a@)
}

/// The entry that an attribute contributes to the message vector `M`.
pub open spec fn message_value(a: AttributeV, g_m_i: nat) -> nat {
    match a {
        AttributeV::PublicScalar(m) => fmul(m, g_m_i),
        AttributeV::SecretScalar(m) => fmul(m, g_m_i),
        AttributeV::PublicPoint(p) => p,
        AttributeV::SecretPoint(p) => p,
    }
}

/// The message vector determined by an attribute vector.
pub open spec fn message_values(attributes: Seq<AttributeV>, g_m: Seq<nat>) -> Seq<nat> {
    Seq::new(attributes.len(), |i: int| message_value(attributes[i], g_m[i]))
}

/// The values of the hidden scalar attributes, in order.
pub open spec fn secret_scalar_values(attributes: Seq<AttributeV>) -> Seq<nat>
    decreases attributes.len(),
{
    if attributes.len() == 0 {
        Seq::empty()
    } else {
        secret_scalar_values(attributes.drop_last()) + (match attributes.last() {
            AttributeV::SecretScalar(m) => seq![m],
            _ => Seq::empty(),
        })
    }
}

/// How many of the first `k` attributes are hidden scalars.
pub open spec fn secret_count(attributes: Seq<AttributeV>, k: int) -> nat {
    secret_scalar_values(attributes.take(k)).len()
}

/// Appending one attribute extends the hidden-scalar values by its value, if
/// it is a hidden scalar.
pub proof fn lemma_secret_scalar_values_take(attributes: Seq<AttributeV>, i: int)
    requires
        0 <= i < attributes.len(),
    ensures
        secret_scalar_values(attributes.take(i + 1)) == secret_scalar_values(attributes.take(i))
            + (match attributes[i] {
            AttributeV::SecretScalar(m) => seq![m],
            _ => Seq::<nat>::empty(),
        }),
{
    let prefix = attributes.take(i + 1);
    assert(prefix.drop_last() =~= attributes.take(i));
    assert(prefix.last() == attributes[i]);
}

/// The hidden-scalar value at an index: the attribute's value stands at the
/// position given by the count of hidden scalars before it.
pub proof fn lemma_secret_scalar_values_index(attributes: Seq<AttributeV>, i: int)
    requires
        0 <= i < attributes.len(),
        attributes[i] is SecretScalar,
    ensures
        secret_count(attributes, i) < secret_scalar_values(attributes).len(),
        secret_scalar_values(attributes)[secret_count(attributes, i) as int]
            == attributes[i]->SecretScalar_0,
    decreases attributes.len(),
{
    if i == attributes.len() - 1 {
        assert(attributes.take(i) =~= attributes.drop_last());
        assert(attributes.take(attributes.len() as int) =~= attributes);
        assert(attributes.last() == attributes[i]);
    } else {
        let shorter = attributes.drop_last();
        assert(shorter[i] == attributes[i]);
        lemma_secret_scalar_values_index(shorter, i);
        assert(shorter.take(i) =~= attributes.take(i));
        assert(secret_scalar_values(attributes)[secret_count(attributes, i) as int]
            == secret_scalar_values(shorter)[secret_count(shorter, i) as int]);
    }
}

/// The issuer's MAC key.
pub struct SecretKey {
    pub w: Scalar,
    pub w_prime: Scalar,
    pub x_0: Scalar,
    pub x_1: Scalar,
    pub y: Vec<Scalar>,
}

/// The model of the MAC key: the residues of its scalars.
pub ghost struct SecretKeyV {
    pub w: nat,
    pub w_prime: nat,
    pub x_0: nat,
    pub x_1: nat,
    pub y: Seq<nat>,
}

impl View for SecretKey {
    type V = SecretKeyV;

    open spec fn view(&self) -> SecretKeyV {
        SecretKeyV {
            w: scalar_value(self.w),
            w_prime: scalar_value(self.w_prime),
            x_0: scalar_value(self.x_0),
            x_1: scalar_value(self.x_1),
            y: self.y@.map_values(|s: Scalar| scalar_value(s)),
        }
    }
}

impl SecretKey {
    /// One attribute key per attribute.
    pub open spec fn wf(&self, sp: SystemParametersV) -> bool {
        self@.y.len() == sp.n
    }

    /// Sample a fresh MAC key for the given system parameters.
    pub fn generate(csprng: &mut ThreadRng, system_parameters: &SystemParameters) -> (r: SecretKey)
        ensures
            r.wf(system_parameters@),
    {
        let w = scalar_random(csprng);
        let w_prime = scalar_random(csprng);
        let x_0 = scalar_random(csprng);
        let x_1 = scalar_random(csprng);
        let mut y: Vec<Scalar> = Vec::new();
        let n = system_parameters.NUMBER_OF_ATTRIBUTES;
        let mut i: u32 = 0;
        while i < n
            invariant
                y@.len() == i as nat,
                i <= n,
            decreases n - i,
        {
            y.push(scalar_random(csprng));
            i = i + 1;
        }
        SecretKey { w, w_prime, x_0, x_1, y }
    }
}

/// An algebraic MAC over a message vector.
pub struct Amac {
    pub t: Scalar,
    pub U: RistrettoPoint,
    pub V: RistrettoPoint,
}

/// The model of an algebraic MAC.
pub ghost struct AmacV {
    pub t: nat,
    pub u: nat,
    pub v: nat,
}

impl View for Amac {
    type V = AmacV;

    open spec fn view(&self) -> AmacV {
        AmacV { t: scalar_value(self.t), u: point_log(self.U), v: point_log(self.V) }
    }
}

/// The MAC equation: the tag `V` combines the key, the nonce point `U`, and
/// the message vector.
pub open spec fn amac_consistent(
    sp: SystemParametersV,
    sk: SecretKeyV,
    amac: AmacV,
    attributes: Seq<AttributeV>,
) -> bool {
    amac.v == fadd(
        fmul(sk.w, sp.g_w),
        fadd(
            fmul(sk.x_0, amac.u),
            fadd(
                fmul(sk.x_1, amac.u),
                fadd(fmul(amac.t, amac.u), msum(sk.y, message_values(attributes, sp.g_m))),
            ),
        ),
    )
}

/// The message vector of an attribute vector: one group element per
/// attribute, as the `message_value` of its entry.
pub struct Messages(pub Vec<RistrettoPoint>);

impl Messages {
    /// Compute the message vector of an attribute vector.
    pub fn from_attributes(attributes: &Vec<Attribute>, system_parameters: &SystemParameters) -> (r:
        Messages)
        requires
            system_parameters.wf(),
            attributes@.len() == system_parameters@.n,
        ensures
            r.0@.len() == attributes@.len(),
            r.0@.map_values(|p: RistrettoPoint| point_log(p)) == message_values(
                attributes_view(attributes@),
                system_parameters@.g_m,
            ),
    {
        let n = attributes.len();
        let mut out: Vec<RistrettoPoint> = Vec::new();
        let mut i: usize = 0;
        while i < n
            invariant
                i <= n,
                n == attributes@.len(),
                n == system_parameters@.g_m.len(),
                system_parameters.wf(),
                out@.len() == i as nat,
                forall|j: int|
                    0 <= j < i as int ==> point_log(#[trigger] out@[j]) == message_value(
                        attributes@[j]@,
                        system_parameters@.g_m[j],
                    ),
            decreases n - i,
        {
            let m_i: RistrettoPoint = match &attributes[i] {
                Attribute::PublicScalar(m) => point_mul(&system_parameters.G_m[i], m),
                Attribute::SecretScalar(m) => point_mul(&system_parameters.G_m[i], m),
                Attribute::PublicPoint(p) => *p,
                Attribute::SecretPoint(p) => *p,
            };
            out.push(m_i);
            i = i + 1;
        }
        proof {
            assert(out@.map_values(|p: RistrettoPoint| point_log(p)) =~= message_values(
                attributes_view(attributes@),
                system_parameters@.g_m,
            ));
        }
        Messages(out)
    }
}

} // verus!
