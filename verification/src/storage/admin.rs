use vstd::prelude::*;
use crate::storage::types::errors::RentACarError;
use crate::storage::types::identity::Identity;
use crate::storage::types::ledger::Ledger;
use crate::storage::types::storage::Storage;

verus! {

/// Whether an administrator has been set.
pub fn has_admin(store: &Storage) -> (set: bool)
    ensures
        set == (store@.admin is Some),
{
    store.admin.is_some()
}

/// The administrator.
pub fn read_admin(store: &Storage) -> (res: Result<Identity, RentACarError>)
    ensures
        res == store@.admin_lookup(),
{
    match store.admin {
        Some(admin) => Ok(admin),
        None => Err(RentACarError::NotInitialized),
    }
}

/// Sets the administrator.
pub fn write_admin(store: &mut Storage, admin: &Identity)
    ensures
        final(store)@ == (Ledger { admin: Some(*admin), ..old(store)@ }),
{
    store.admin = Some(*admin);
}

} // verus!
