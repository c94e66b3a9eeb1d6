//! System-wide generators and the issuer's public parameters.

use vstd::prelude::*;
use crate::field::{fadd, fmul, fneg, msum};
use crate::group::{point_add, point_identity, point_log, point_mul, point_neg, point_random};
use crate::amacs::SecretKey;
use curve25519_dalek_ng::ristretto::RistrettoPoint;
use rand::rngs::ThreadRng;

verus! {

/// The fixed generators of one deployment, indexed by role, together with
/// the number of attributes.
pub struct SystemParameters {
    pub NUMBER_OF_ATTRIBUTES: u32,
    pub G: RistrettoPoint,
    pub G_V: RistrettoPoint,
    pub G_w: RistrettoPoint,
    pub G_w_prime: RistrettoPoint,
    pub G_x_0: RistrettoPoint,
    pub G_x_1: RistrettoPoint,
    pub G_y: Vec<RistrettoPoint>,
    pub G_m: Vec<RistrettoPoint>,
    pub G_a: RistrettoPoint,
    pub G_a0: RistrettoPoint,
    pub G_a1: RistrettoPoint,
}

/// The model of the system parameters: the discrete logarithm of each
/// generator.
pub ghost struct SystemParametersV {
    pub n: nat,
    pub g: nat,
    pub g_v: nat,
    pub g_w: nat,
    pub g_w_prime: nat,
    pub g_x_0: nat,
    pub g_x_1: nat,
    pub g_y: Seq<nat>,
    pub g_m: Seq<nat>,
    pub g_a: nat,
    pub g_a0: nat,
    pub g_a1: nat,
}

impl View for SystemParameters {
    type V = SystemParametersV;

    open spec fn view(&self) -> SystemParametersV {
        SystemParametersV {
            n: self.NUMBER_OF_ATTRIBUTES as nat,
            g: point_log(self.G),
            g_v: point_log(self.G_V),
            g_w: point_log(self.G_w),
            g_w_prime: point_log(self.G_w_prime),
            g_x_0: point_log(self.G_x_0),
            g_x_1: point_log(self.G_x_1),
            g_y: self.G_y@.map_values(|p: RistrettoPoint| point_log(p)),
            g_m: self.G_m@.map_values(|p: RistrettoPoint| point_log(p)),
            g_a: point_log(self.G_a),
            g_a0: point_log(self.G_a0),
            g_a1: point_log(self.G_a1),
        }
    }
}

impl SystemParameters {
    /// One attribute-commitment and one attribute-message generator per
    /// attribute.
    pub open spec fn wf(&self) -> bool {
        self@.g_y.len() == self@.n && self@.g_m.len() == self@.n
    }

    /// Sample fresh, independent generators for a deployment with the given
    /// number of attributes. Sampling cannot fail.
    pub fn generate(csprng: &mut ThreadRng, number_of_attributes: u32) -> (r: Result<
        SystemParameters,
        crate::errors::CredentialError,
    >)
        ensures
            r is Ok,
            r matches Ok(sp) ==> sp.wf() && sp@.n == number_of_attributes as nat,
    {
        let G = point_random(csprng);
        let G_V = point_random(csprng);
        let G_w = point_random(csprng);
        let G_w_prime = point_random(csprng);
        let G_x_0 = point_random(csprng);
        let G_x_1 = point_random(csprng);
        let G_a = point_random(csprng);
        let G_a0 = point_random(csprng);
        let G_a1 = point_random(csprng);
        let mut G_y: Vec<RistrettoPoint> = Vec::new();
        let mut G_m: Vec<RistrettoPoint> = Vec::new();
        let mut i: u32 = 0;
        while i < number_of_attributes
            invariant
                i <= number_of_attributes,
                G_y@.len() == i as nat,
                G_m@.len() == i as nat,
            decreases number_of_attributes - i,
        {
            G_y.push(point_random(csprng));
            G_m.push(point_random(csprng));
            i = i + 1;
        }
        Ok(
            SystemParameters {
                NUMBER_OF_ATTRIBUTES: number_of_attributes,
                G,
                G_V,
                G_w,
                G_w_prime,
                G_x_0,
                G_x_1,
                G_y,
                G_m,
                G_a,
                G_a0,
                G_a1,
            },
        )
    }
}

/// Copy a vector of group elements.
pub fn clone_points(points: &Vec<RistrettoPoint>) -> (r: Vec<RistrettoPoint>)
    ensures
        r@ == points@,
{
    let mut out: Vec<RistrettoPoint> = Vec::new();
    let mut i: usize = 0;
    while i < points.len()
        invariant
            i <= points@.len(),
            out@ == points@.take(i as int),
        decreases points@.len() - i,
    {
        out.push(points[i]);
        i = i + 1;
    }
    proof {
        assert(points@.take(points@.len() as int) =~= points@);
    }
    out
}

/// Copy a vector of scalars.
pub fn clone_scalars(scalars: &Vec<curve25519_dalek_ng::scalar::Scalar>) -> (r: Vec<
    curve25519_dalek_ng::scalar::Scalar,
>)
    ensures
        r@ == scalars@,
{
    let mut out: Vec<curve25519_dalek_ng::scalar::Scalar> = Vec::new();
    let mut i: usize = 0;
    while i < scalars.len()
        invariant
            i <= scalars@.len(),
            out@ == scalars@.take(i as int),
        decreases scalars@.len() - i,
    {
        out.push(scalars[i]);
        i = i + 1;
    }
    proof {
        assert(scalars@.take(scalars@.len() as int) =~= scalars@);
    }
    out
}

impl Clone for SystemParameters {
    /// Copy the parameters field by field.
    fn clone(&self) -> (r: Self)
        ensures
            r@ == self@,
            r.wf() == self.wf(),
    {
        let r = SystemParameters {
            NUMBER_OF_ATTRIBUTES: self.NUMBER_OF_ATTRIBUTES,
            G: self.G,
            G_V: self.G_V,
            G_w: self.G_w,
            G_w_prime: self.G_w_prime,
            G_x_0: self.G_x_0,
            G_x_1: self.G_x_1,
            G_y: clone_points(&self.G_y),
            G_m: clone_points(&self.G_m),
            G_a: self.G_a,
            G_a0: self.G_a0,
            G_a1: self.G_a1,
        };
        proof {
            assert(r.G_y@ =~= self.G_y@);
            assert(r.G_m@ =~= self.G_m@);
        }
        r
    }
}

/// The issuer's public parameters: commitments to the MAC key.
pub struct IssuerParameters {
    pub C_W: RistrettoPoint,
    pub I: RistrettoPoint,
}

/// The model of the issuer parameters.
pub ghost struct IssuerParametersV {
    pub c_w: nat,
    pub i: nat,
}

impl View for IssuerParameters {
    type V = IssuerParametersV;

    open spec fn view(&self) -> IssuerParametersV {
        IssuerParametersV { c_w: point_log(self.C_W), i: point_log(self.I) }
    }
}

/// The issuer parameters are the published commitments of the MAC key:
/// `C_W = w*G_w + w'*G_w'` and
/// `I = -G_V + x_0*G_x_0 + x_1*G_x_1 + sum y_i*G_y_i`.
pub open spec fn issuer_parameters_consistent(
    sp: SystemParametersV,
    sk: crate::amacs::SecretKeyV,
    ip: IssuerParametersV,
) -> bool {
    &&& ip.c_w == fadd(fmul(sk.w, sp.g_w), fmul(sk.w_prime, sp.g_w_prime))
    &&& ip.i == fadd(
        fneg(sp.g_v),
        fadd(fmul(sk.x_0, sp.g_x_0), fadd(fmul(sk.x_1, sp.g_x_1), msum(sk.y, sp.g_y))),
    )
}

/// Sum of `scalars[i] * points[i]` over a tail of two equal-length vectors,
/// as a group element; the fold runs from the front.
pub fn msum_points(scalars: &Vec<curve25519_dalek_ng::scalar::Scalar>, points: &Vec<
    RistrettoPoint,
>) -> (r: RistrettoPoint)
    requires
        scalars@.len() == points@.len(),
    ensures
        point_log(r) == msum(
            scalars@.map_values(|s: curve25519_dalek_ng::scalar::Scalar| crate::group::scalar_value(s)),
            points@.map_values(|p: RistrettoPoint| point_log(p)),
        ),
{
    let ghost svals = scalars@.map_values(
        |s: curve25519_dalek_ng::scalar::Scalar| crate::group::scalar_value(s),
    );
    let ghost pvals = points@.map_values(|p: RistrettoPoint| point_log(p));
    let mut acc = point_identity();
    let mut i = scalars.len();
    proof {
        assert(svals.skip(i as int) =~= Seq::<nat>::empty());
    }
    while i > 0
        invariant
            i <= scalars@.len(),
            scalars@.len() == points@.len(),
            svals == scalars@.map_values(
                |s: curve25519_dalek_ng::scalar::Scalar| crate::group::scalar_value(s),
            ),
            pvals == points@.map_values(|p: RistrettoPoint| point_log(p)),
            point_log(acc) == msum(svals.skip(i as int), pvals.skip(i as int)),
        decreases i,
    {
        i = i - 1;
        let term = point_mul(&points[i], &scalars[i]);
        acc = point_add(&term, &acc);
        proof {
            assert(svals.skip(i as int).drop_first() =~= svals.skip(i as int + 1));
            assert(pvals.skip(i as int).drop_first() =~= pvals.skip(i as int + 1));
            assert(svals.skip(i as int)[0] == svals[i as int]);
            assert(pvals.skip(i as int)[0] == pvals[i as int]);
        }
    }
    proof {
        assert(svals.skip(0) =~= svals);
        assert(pvals.skip(0) =~= pvals);
    }
    acc
}

impl IssuerParameters {
    /// Derive the issuer parameters from the MAC key.
    pub fn generate(system_parameters: &SystemParameters, secret_key: &SecretKey) -> (r:
        IssuerParameters)
        requires
            system_parameters.wf(),
            secret_key.wf(system_parameters@),
        ensures
            issuer_parameters_consistent(system_parameters@, secret_key@, r@),
    {
        let C_W = point_add(
            &point_mul(&system_parameters.G_w, &secret_key.w),
            &point_mul(&system_parameters.G_w_prime, &secret_key.w_prime),
        );
        let y_sum = msum_points(&secret_key.y, &system_parameters.G_y);
        let I = point_add(
            &point_neg(&system_parameters.G_V),
            &point_add(
                &point_mul(&system_parameters.G_x_0, &secret_key.x_0),
                &point_add(&point_mul(&system_parameters.G_x_1, &secret_key.x_1), &y_sum),
            ),
        );
        IssuerParameters { C_W, I }
    }
}

impl Clone for IssuerParameters {
    /// Copy the parameters field by field.
    fn clone(&self) -> (r: Self)
        ensures
            r == *self,
    {
        IssuerParameters { C_W: self.C_W, I: self.I }
    }
}

} // verus!
