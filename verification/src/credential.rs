//! The anonymous credential: an algebraic MAC over an attribute vector.

use vstd::prelude::*;
use crate::amacs::{amac_consistent, attributes_view, Amac, AmacV, Attribute, AttributeV};
use crate::amacs::SecretKeyV;
use crate::parameters::SystemParametersV;

verus! {

/// The credential's MAC is consistent with the key and its attributes.
pub open spec fn credential_consistent(
    sp: SystemParametersV,
    sk: SecretKeyV,
    cred: AnonymousCredentialV,
) -> bool {
    amac_consistent(sp, sk, AmacV { t: cred.t, u: cred.u, v: cred.v }, cred.attributes)
}

/// A credential: the MAC and the attribute vector it covers.
pub struct AnonymousCredential {
    pub amac: Amac,
    pub attributes: Vec<Attribute>,
}

/// The model of a credential.
pub ghost struct AnonymousCredentialV {
    pub t: nat,
    pub u: nat,
    pub v: nat,
    pub attributes: Seq<AttributeV>,
}

impl View for AnonymousCredential {
    type V = AnonymousCredentialV;

    open spec fn view(&self) -> AnonymousCredentialV {
        AnonymousCredentialV {
            t: self.amac@.t,
            u: self.amac@.u,
            v: self.amac@.v,
            attributes: attributes_view(self.attributes@),
        }
    }
}

impl AnonymousCredential {
    /// One attribute per attribute index of the system parameters.
    pub open spec fn wf(&self, sp: SystemParametersV) -> bool {
        self@.attributes.len() == sp.n
    }
}

} // verus!
