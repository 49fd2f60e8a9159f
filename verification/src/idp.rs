//! The identity provider that logs people in on the registry's behalf.

use vstd::prelude::*;

verus! {

/// Where the identity provider is, and under which identifiers it and the
/// registry know each other.
#[derive(Debug)]
pub struct IdpConnector {
    pub idp_url: String,
    pub client_eori: String,
    pub idp_eori: String,
}

impl IdpConnector {
    pub fn new(idp_url: String, client_eori: String, idp_eori: String) -> (connector: IdpConnector)
        ensures
            connector.idp_url@ == idp_url@,
            connector.client_eori@ == client_eori@,
            connector.idp_eori@ == idp_eori@,
    {
        IdpConnector { idp_url, client_eori, idp_eori }
    }
}

impl Clone for IdpConnector {
    fn clone(&self) -> (copy: IdpConnector)
        ensures
            copy.idp_url@ == self.idp_url@,
            copy.client_eori@ == self.client_eori@,
            copy.idp_eori@ == self.idp_eori@,
    {
        IdpConnector {
            idp_url: self.idp_url.clone(),
            client_eori: self.client_eori.clone(),
            idp_eori: self.idp_eori.clone(),
        }
    }
}

} // verus!
