//! The issuer: holds the MAC key and issues credentials.

use vstd::prelude::*;
use crate::amacs::{amac_consistent, attributes_view, Amac, Attribute, Messages, SecretKey};
use crate::credential::AnonymousCredential;
use crate::errors::CredentialError;
use crate::group::{point_add, point_mul, point_random, scalar_random};
use crate::parameters::{IssuerParameters, SystemParameters};
use rand::rngs::ThreadRng;

verus! {

/// An issuer, with its system parameters, public parameters, and MAC key.
pub struct Issuer {
    pub system_parameters: SystemParameters,
    pub issuer_parameters: IssuerParameters,
    pub amacs_key: SecretKey,
}

impl Clone for SecretKey {
    /// Copy the key field by field.
    fn clone(&self) -> (r: Self)
        ensures
            r@ == self@,
    {
        let r = SecretKey {
            w: self.w,
            w_prime: self.w_prime,
            x_0: self.x_0,
            x_1: self.x_1,
            y: crate::parameters::clone_scalars(&self.y),
        };
        proof {
            assert(r@.y =~= self@.y);
        }
        r
    }
}

impl Issuer {
    /// The stored parameters and key fit together.
    pub open spec fn wf(&self) -> bool {
        &&& self.system_parameters.wf()
        &&& self.amacs_key@.y.len() == self.system_parameters@.n
    }

    /// Keep copies of the system parameters, issuer parameters, and MAC key.
    pub fn new(
        system_parameters: &SystemParameters,
        issuer_parameters: &IssuerParameters,
        amacs_key: &SecretKey,
    ) -> (r: Issuer)
        requires
            system_parameters.wf(),
            amacs_key.wf(system_parameters@),
        ensures
            r.wf(),
            r.system_parameters@ == system_parameters@,
            r.issuer_parameters@ == issuer_parameters@,
            r.amacs_key@ == amacs_key@,
    {
        Issuer {
            system_parameters: system_parameters.clone(),
            issuer_parameters: issuer_parameters.clone(),
            amacs_key: amacs_key.clone(),
        }
    }

    /// MAC an attribute vector: sample `t` and `U` and compute
    /// `V = w*G_w + x_0*U + x_1*U + t*U + sum y_i*M_i`. Fails exactly when
    /// the attribute count differs from the system parameter.
    pub fn issue(&self, attributes: Vec<Attribute>, csprng: &mut ThreadRng) -> (r: Result<
        AnonymousCredential,
        CredentialError,
    >)
        requires
            self.wf(),
        ensures
            r is Ok <==> attributes@.len() == self.system_parameters@.n,
            r is Err ==> r->Err_0 == CredentialError::BadAttributeCount,
            r matches Ok(cred) ==> {
                &&& amac_consistent(
                    self.system_parameters@,
                    self.amacs_key@,
                    cred.amac@,
                    cred@.attributes,
                )
                &&& cred@.attributes == attributes_view(attributes@)
                &&& cred.wf(self.system_parameters@)
            },
    {
        if attributes.len() != self.system_parameters.NUMBER_OF_ATTRIBUTES as usize {
            return Err(CredentialError::BadAttributeCount);
        }
        let t = scalar_random(csprng);
        let U = point_random(csprng);
        let messages = Messages::from_attributes(&attributes, &self.system_parameters);
        let y_msum = crate::parameters::msum_points(&self.amacs_key.y, &messages.0);
        let V = point_add(
            &point_mul(&self.system_parameters.G_w, &self.amacs_key.w),
            &point_add(
                &point_mul(&U, &self.amacs_key.x_0),
                &point_add(
                    &point_mul(&U, &self.amacs_key.x_1),
                    &point_add(&point_mul(&U, &t), &y_msum),
                ),
            ),
        );
        Ok(AnonymousCredential { amac: Amac { t, U, V }, attributes })
    }
}

} // verus!
