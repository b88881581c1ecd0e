use vstd::prelude::*;
use crate::storage::types::ledger::Ledger;
use crate::storage::types::storage::Storage;

verus! {

/// The value held in custody.
pub fn read_contract_balance(store: &Storage) -> (amount: i128)
    ensures
        amount == store@.contract_balance,
{
    store.contract_balance
}

/// Sets the value held in custody.
pub fn write_contract_balance(store: &mut Storage, amount: &i128)
    ensures
        final(store)@ == (Ledger { contract_balance: *amount as int, ..old(store)@ }),
{
    store.contract_balance = *amount;
}

} // verus!
