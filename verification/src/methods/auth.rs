use vstd::prelude::*;
use crate::storage::types::errors::RentACarError;
use crate::storage::types::identity::Identity;

verus! {

/// A party that can hold value and approve its movement.
#[derive(Copy, Clone, Debug, PartialEq, Eq, Structural)]
pub enum Party {
    /// The engine's own custodial account, which holds the escrowed funds.
    Custody,
    /// An outside account.
    Account(Identity),
}

/// What the host established about one call before handing it to the engine:
/// the time, and the parties whose approval of this call it has verified.
pub struct Invocation {
    /// Time of the call, in seconds.
    pub timestamp: u64,
    /// Parties that approved this call.
    pub authorized: Vec<Party>,
}

impl Invocation {
    /// Whether `party` approved this call.
    pub open spec fn authorizes(&self, party: Party) -> bool {
        self.authorized@.contains(party)
    }

    /// A call at time `timestamp` that nobody has approved yet.
    pub fn new(timestamp: u64) -> (call: Invocation)
        ensures
            call.timestamp == timestamp,
            call.authorized@ == Seq::<Party>::empty(),
            forall|party: Party| !call.authorizes(party),
    {
        Invocation { timestamp, authorized: Vec::new() }
    }

    /// Records that `party` approved this call.
    pub fn authorize(&mut self, party: Party)
        ensures
            final(self).timestamp == old(self).timestamp,
            final(self).authorized@ == old(self).authorized@.push(party),
            forall|other: Party|
                final(self).authorizes(other) <==> (other == party || old(self).authorizes(other)),
    {
        self.authorized.push(party);
        proof {
            let before = old(self).authorized@;
            let after = self.authorized@;
            assert forall|other: Party|
                after.contains(other) <==> (other == party || before.contains(other)) by {
                if after.contains(other) {
                    let i = choose|i: int| 0 <= i < after.len() && after[i] == other;
                    if i < before.len() {
                        assert(before[i] == other);
                    }
                }
                if other == party {
                    assert(after[before.len() as int] == other);
                }
                if before.contains(other) {
                    let i = choose|i: int| 0 <= i < before.len() && before[i] == other;
                    assert(after[i] == other);
                }
            }
        }
    }
}

/// What [`require_auth`] answers.
pub open spec fn auth_verdict(call: Invocation, party: Party) -> Result<(), RentACarError> {
    if call.authorizes(party) {
        Ok(())
    } else {
        Err(RentACarError::Unauthorized)
    }
}

/// Refuses the call unless `party` approved it.
pub fn require_auth(call: &Invocation, party: &Party) -> (res: Result<(), RentACarError>)
    ensures
        res == auth_verdict(*call, *party),
{
    let mut i: usize = 0;
    while i < call.authorized.len()
        invariant
            i <= call.authorized@.len(),
            forall|j: int| 0 <= j < i ==> call.authorized@[j] != *party,
        decreases call.authorized@.len() - i,
    {
        if call.authorized[i] == *party {
            return Ok(());
        }
        i += 1;
    }
    Err(RentACarError::Unauthorized)
}

} // verus!
