use vstd::prelude::*;
use crate::methods::auth::Party;
use crate::storage::token::read_token;
use crate::storage::types::errors::RentACarError;
use crate::storage::types::identity::Identity;
use crate::storage::types::ledger::Ledger;
use crate::storage::types::storage::Storage;

verus! {

/// A movement of value that the host carries out for the engine, as the last
/// step of the call that ordered it.
#[derive(Copy, Clone, Debug, PartialEq, Eq, Structural)]
pub struct Transfer {
    /// The asset that moves.
    pub token: Identity,
    /// Who pays.
    pub from: Party,
    /// Who is paid.
    pub to: Party,
    /// How much moves.
    pub amount: i128,
}

/// What [`token_transfer`] answers: the order is made out in the asset that
/// the engine was initialized with.
pub open spec fn transfer_order(state: Ledger, from: Party, to: Party, amount: i128) -> Result<
    Transfer,
    RentACarError,
> {
    match state.token {
        Some(token) => Ok(Transfer { token, from, to, amount }),
        None => Err(RentACarError::NotInitialized),
    }
}

/// Makes out the order to move `amount` from `from` to `to`.
pub fn token_transfer(store: &Storage, from: &Party, to: &Party, amount: &i128) -> (res: Result<
    Transfer,
    RentACarError,
>)
    ensures
        res == transfer_order(store@, *from, *to, *amount),
{
    match read_token(store) {
        Ok(token) => Ok(Transfer { token, from: *from, to: *to, amount: *amount }),
        Err(e) => Err(e),
    }
}

} // verus!
