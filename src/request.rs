use crate::record::CredentialRecord;
use crate::registry::{lookup_result, Registry, RegistryError};
use vstd::prelude::*;

verus! {

/// The status a request answers with when it succeeds.
pub const STATUS_OK: u16 = 200;

/// The status of a request whose payload could not be read.
pub const STATUS_BAD_REQUEST: u16 = 400;

/// The status of a lookup for an identifier with no record.
pub const STATUS_NOT_FOUND: u16 = 404;

/// A save request: the identifier and the custodial key to store under it.
pub struct SaveKeyInput {
    pub email: String,
    pub custodial_key: keyplace::CustodialAgentKey,
}

/// A lookup request: the identifier whose record is wanted.
pub struct GetKeyInput {
    pub email: String,
}

/// The status that answers a request with outcome `outcome`.
pub open spec fn status_spec<T>(outcome: Result<T, RegistryError>) -> u16 {
    match outcome {
        Ok(_) => STATUS_OK,
        Err(RegistryError::MalformedInput) => STATUS_BAD_REQUEST,
        Err(RegistryError::NotFound) => STATUS_NOT_FOUND,
    }
}

/// The transport status for a request's outcome.
pub fn status_of<T>(outcome: &Result<T, RegistryError>) -> (code: u16)
    ensures
        code == status_spec(*outcome),
{
    match outcome {
        Ok(_) => STATUS_OK,
        Err(RegistryError::MalformedInput) => STATUS_BAD_REQUEST,
        Err(RegistryError::NotFound) => STATUS_NOT_FOUND,
    }
}

/// Handles a save request. `request` is `None` when the payload could not be
/// parsed; the registry is then left as it was.
pub fn save_key(registry: &mut Registry, request: Option<SaveKeyInput>) -> (r: Result<
    (),
    RegistryError,
>)
    ensures
        match request {
            Some(input) => {
                &&& r == Ok::<(), RegistryError>(())
                &&& final(registry)@ == old(registry)@.insert(
                    input.email@,
                    CredentialRecord { custodial_key: input.custodial_key },
                )
            },
            None => {
                &&& r == Err::<(), RegistryError>(RegistryError::MalformedInput)
                &&& final(registry)@ == old(registry)@
            },
        },
{
    match request {
        Some(input) => {
            registry.save(input.email, CredentialRecord::new(input.custodial_key));
            Ok(())
        },
        None => Err(RegistryError::MalformedInput),
    }
}

/// Handles a lookup request. `request` is `None` when the payload could not
/// be parsed.
pub fn get_key<'a>(registry: &'a Registry, request: Option<GetKeyInput>) -> (r: Result<
    &'a CredentialRecord,
    RegistryError,
>)
    ensures
        match request {
            Some(input) => match r {
                Ok(rec) => lookup_result(registry@, input.email@) == Ok::<
                    CredentialRecord,
                    RegistryError,
                >(*rec),
                Err(e) => lookup_result(registry@, input.email@) == Err::<
                    CredentialRecord,
                    RegistryError,
                >(e),
            },
            None => r == Err::<&CredentialRecord, RegistryError>(RegistryError::MalformedInput),
        },
{
    match request {
        Some(input) => registry.lookup(&input.email),
        None => Err(RegistryError::MalformedInput),
    }
}

} // verus!
