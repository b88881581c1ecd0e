use vstd::prelude::*;
use crate::storage::structs::rental::Rental;
use crate::storage::types::errors::RentACarError;
use crate::storage::types::identity::Identity;
use crate::storage::types::ledger::Ledger;
use crate::storage::types::record::{
    lemma_records_map_absent, lemma_records_map_last, lemma_records_map_update,
    lemma_records_map_without, records_map, records_without, Record,
};
use crate::storage::types::storage::{RentalRecord, Storage};

verus! {

/// The position of the record that counts for the pair: the last one stored
/// under that key.
fn find_rental(records: &Vec<RentalRecord>, renter: Identity, owner: Identity) -> (found: Option<
    usize,
>)
    ensures
        match found {
            Some(i) => {
                &&& i < records@.len()
                &&& records@[i as int].key == (renter, owner)
                &&& forall|j: int| i < j < records@.len() ==> records@[j].key != (renter, owner)
                &&& records_map(records@).dom().contains((renter, owner))
                &&& records_map(records@)[(renter, owner)] == records@[i as int].value
            },
            None => !records_map(records@).dom().contains((renter, owner)),
        },
{
    let mut i: usize = records.len();
    while i > 0
        invariant
            i <= records@.len(),
            forall|j: int| i <= j < records@.len() ==> records@[j].key != (renter, owner),
        decreases i,
    {
        i -= 1;
        if records[i].key.0 == renter && records[i].key.1 == owner {
            proof {
                lemma_records_map_last(records@, i as int);
            }
            return Some(i);
        }
    }
    proof {
        lemma_records_map_absent(records@, (renter, owner));
    }
    None
}

/// Whether `renter` has an active rental of `owner`'s car.
pub fn has_rental(store: &Storage, renter: &Identity, owner: &Identity) -> (active: bool)
    ensures
        active == store@.rentals.dom().contains((*renter, *owner)),
{
    find_rental(&store.rentals, *renter, *owner).is_some()
}

/// The active rental of `owner`'s car by `renter`.
pub fn read_rental(store: &Storage, renter: &Identity, owner: &Identity) -> (res: Result<
    Rental,
    RentACarError,
>)
    ensures
        res == store@.rental_lookup(*renter, *owner),
{
    match find_rental(&store.rentals, *renter, *owner) {
        Some(i) => Ok(store.rentals[i].value),
        None => Err(RentACarError::NotFound),
    }
}

/// Stores `rental` as the rental of `owner`'s car by `renter`, in place of
/// any rental stored for the pair before.
pub fn write_rental(store: &mut Storage, renter: &Identity, owner: &Identity, rental: &Rental)
    ensures
        final(store)@ == (Ledger {
            rentals: old(store)@.rentals.insert((*renter, *owner), *rental),
            ..old(store)@
        }),
{
    match find_rental(&store.rentals, *renter, *owner) {
        Some(i) => {
            proof {
                lemma_records_map_update(store.rentals@, i as int, *rental);
            }
            store.rentals.set(i, Record { key: (*renter, *owner), value: *rental });
        },
        None => {
            store.rentals.push(Record { key: (*renter, *owner), value: *rental });
            assert(store.rentals@.drop_last() == old(store).rentals@);
        },
    }
}

/// Deletes the rental of `owner`'s car by `renter`, if there is one.
pub fn remove_rental(store: &mut Storage, renter: &Identity, owner: &Identity)
    ensures
        final(store)@ == (Ledger {
            rentals: old(store)@.rentals.remove((*renter, *owner)),
            ..old(store)@
        }),
{
    let mut kept: Vec<RentalRecord> = Vec::new();
    let mut i: usize = 0;
    while i < store.rentals.len()
        invariant
            i <= store.rentals@.len(),
            kept@ == records_without(store.rentals@.take(i as int), (*renter, *owner)),
        decreases store.rentals@.len() - i,
    {
        proof {
            assert(store.rentals@.take(i + 1).drop_last() == store.rentals@.take(i as int));
        }
        let record = store.rentals[i];
        if !(record.key.0 == *renter && record.key.1 == *owner) {
            kept.push(record);
        }
        i += 1;
    }
    proof {
        assert(store.rentals@.take(store.rentals@.len() as int) == store.rentals@);
        lemma_records_map_without(store.rentals@, (*renter, *owner));
    }
    store.rentals = kept;
}

} // verus!
