use vstd::prelude::*;

verus! {

/// keyplace's recovery credential. The registry never looks inside it: it is
/// only carried from a save to later lookups.
#[verifier::external_type_specification]
#[verifier::external_body]
pub struct ExCustodialAgentKey(keyplace::CustodialAgentKey);

/// What the registry stores for an identifier, kept verbatim.
pub struct CredentialRecord {
    pub custodial_key: keyplace::CustodialAgentKey,
}

impl CredentialRecord {
    pub fn new(custodial_key: keyplace::CustodialAgentKey) -> (r: CredentialRecord)
        ensures
            r.custodial_key == custodial_key,
    {
        CredentialRecord { custodial_key }
    }
}

} // verus!
