use vstd::prelude::*;
use crate::storage::types::errors::RentACarError;
use crate::storage::types::identity::Identity;
use crate::storage::types::ledger::Ledger;
use crate::storage::types::storage::Storage;

verus! {

/// The asset that rentals are paid in.
pub fn read_token(store: &Storage) -> (res: Result<Identity, RentACarError>)
    ensures
        res == store@.token_lookup(),
{
    match store.token {
        Some(token) => Ok(token),
        None => Err(RentACarError::NotInitialized),
    }
}

/// Sets the asset that rentals are paid in.
pub fn write_token(store: &mut Storage, token: &Identity)
    ensures
        final(store)@ == (Ledger { token: Some(*token), ..old(store)@ }),
{
    store.token = Some(*token);
}

} // verus!
