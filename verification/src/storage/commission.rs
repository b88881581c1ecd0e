use vstd::prelude::*;
use crate::storage::types::ledger::Ledger;
use crate::storage::types::storage::Storage;

verus! {

/// The fee added to every rental. It is zero until it is set.
pub fn read_commission(store: &Storage) -> (commission: i128)
    ensures
        commission == store@.commission,
{
    store.commission
}

/// Sets the fee added to every rental.
pub fn write_commission(store: &mut Storage, commission: &i128)
    ensures
        final(store)@ == (Ledger { commission: *commission as int, ..old(store)@ }),
{
    store.commission = *commission;
}

/// The fees collected and not yet withdrawn. It is zero until a fee is
/// collected.
pub fn read_admin_commission_balance(store: &Storage) -> (amount: i128)
    ensures
        amount == store@.admin_commission_balance,
{
    store.admin_commission_balance
}

/// Sets the fees collected and not yet withdrawn.
pub fn write_admin_commission_balance(store: &mut Storage, amount: &i128)
    ensures
        final(store)@ == (Ledger { admin_commission_balance: *amount as int, ..old(store)@ }),
{
    store.admin_commission_balance = *amount;
}

} // verus!
