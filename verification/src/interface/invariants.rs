use vstd::prelude::*;
use crate::methods::auth::Invocation;
use crate::storage::structs::car::Car;
use crate::storage::types::identity::Identity;
use crate::storage::types::ledger::{total_withdrawable, Ledger};
use crate::storage::types::record::without;

verus! {

/// An item is in a list exactly when it is the last item or in the rest.
pub proof fn lemma_contains_last_or_rest<T>(items: Seq<T>, item: T)
    requires
        items.len() > 0,
    ensures
        items.contains(item) <==> (items.last() == item || items.drop_last().contains(item)),
{
    let rest = items.drop_last();
    if items.contains(item) {
        let i = choose|i: int| 0 <= i < items.len() && items[i] == item;
        if i < items.len() - 1 {
            assert(rest[i] == item);
        }
    }
    if rest.contains(item) {
        let i = choose|i: int| 0 <= i < rest.len() && rest[i] == item;
        assert(items[i] == item);
    }
    if items.last() == item {
        assert(items[items.len() - 1] == item);
    }
}

/// In a list without repetition, the last item does not occur in the rest,
/// and the rest is without repetition.
pub proof fn lemma_no_duplicates_rest<T>(items: Seq<T>)
    requires
        items.len() > 0,
        items.no_duplicates(),
    ensures
        items.drop_last().no_duplicates(),
        !items.drop_last().contains(items.last()),
{
    let rest = items.drop_last();
    assert forall|i: int, j: int| 0 <= i < rest.len() && 0 <= j < rest.len() && i != j implies rest[i]
        != rest[j] by {
        assert(items[i] != items[j]);
    }
    if rest.contains(items.last()) {
        let i = choose|i: int| 0 <= i < rest.len() && rest[i] == items.last();
        assert(items[i] == items[items.len() - 1]);
    }
}

/// A list without repetition stays so when an item that it lacks is put
/// behind it.
pub proof fn lemma_no_duplicates_push<T>(items: Seq<T>, item: T)
    requires
        items.no_duplicates(),
        !items.contains(item),
    ensures
        items.push(item).no_duplicates(),
        forall|other: T|
            #[trigger] items.push(item).contains(other) <==> (other == item || items.contains(
                other,
            )),
{
    let longer = items.push(item);
    assert forall|i: int, j: int| 0 <= i < longer.len() && 0 <= j < longer.len() && i != j implies longer[i]
        != longer[j] by {
        if i < items.len() && j < items.len() {
            assert(items[i] != items[j]);
        } else if i < items.len() {
            assert(items.contains(items[i]));
        } else {
            assert(items.contains(items[j]));
        }
    }
    assert forall|other: T| #[trigger]
        longer.contains(other) <==> (other == item || items.contains(other)) by {
        assert(longer.drop_last() == items);
        lemma_contains_last_or_rest(longer, other);
    }
}

/// What is left of a list without one item holds every other item of the
/// list and nothing else.
pub proof fn lemma_without_contains<T>(items: Seq<T>, item: T, other: T)
    ensures
        without(items, item).contains(other) <==> (other != item && items.contains(other)),
    decreases items.len(),
{
    if items.len() > 0 {
        let rest = items.drop_last();
        lemma_without_contains(rest, item, other);
        lemma_contains_last_or_rest(items, other);
        if items.last() != item {
            let kept = without(rest, item).push(items.last());
            assert(kept.drop_last() == without(rest, item));
            lemma_contains_last_or_rest(kept, other);
        }
    }
}

/// What is left of a list without repetition is without repetition.
pub proof fn lemma_without_no_duplicates<T>(items: Seq<T>, item: T)
    requires
        items.no_duplicates(),
    ensures
        without(items, item).no_duplicates(),
    decreases items.len(),
{
    if items.len() > 0 {
        let rest = items.drop_last();
        lemma_no_duplicates_rest(items);
        lemma_without_no_duplicates(rest, item);
        if items.last() != item {
            lemma_without_contains(rest, item, items.last());
            lemma_no_duplicates_push(without(rest, item), items.last());
        }
    }
}

/// The sum over a list of owners depends on the cars of those owners alone.
pub proof fn lemma_total_agrees(owners: Seq<Identity>, first: Map<Identity, Car>, second: Map<
    Identity,
    Car,
>)
    requires
        forall|i: int|
            0 <= i < owners.len() ==> first[#[trigger] owners[i]].available_to_withdraw
                == second[owners[i]].available_to_withdraw,
    ensures
        total_withdrawable(owners, first) == total_withdrawable(owners, second),
    decreases owners.len(),
{
    if owners.len() > 0 {
        let rest = owners.drop_last();
        assert forall|i: int| 0 <= i < rest.len() implies first[#[trigger] rest[i]].available_to_withdraw
            == second[rest[i]].available_to_withdraw by {
            assert(rest[i] == owners[i]);
        }
        lemma_total_agrees(rest, first, second);
        assert(owners.last() == owners[owners.len() - 1]);
    }
}

/// The sum over a list that lacks an owner does not change with that owner's
/// car.
pub proof fn lemma_total_ignores(owners: Seq<Identity>, cars: Map<Identity, Car>, owner: Identity, car: Car)
    requires
        !owners.contains(owner),
    ensures
        total_withdrawable(owners, cars.insert(owner, car)) == total_withdrawable(owners, cars),
        total_withdrawable(owners, cars.remove(owner)) == total_withdrawable(owners, cars),
{
    assert forall|i: int| 0 <= i < owners.len() implies cars.insert(owner, car)[#[trigger] owners[i]]
        == cars[owners[i]] && cars.remove(owner)[owners[i]] == cars[owners[i]] by {
        assert(owners.contains(owners[i]));
    }
    lemma_total_agrees(owners, cars.insert(owner, car), cars);
    lemma_total_agrees(owners, cars.remove(owner), cars);
}

/// Replacing the car of a listed owner changes the sum by the change in what
/// that owner may withdraw.
pub proof fn lemma_total_update(owners: Seq<Identity>, cars: Map<Identity, Car>, owner: Identity, car: Car)
    requires
        owners.no_duplicates(),
        owners.contains(owner),
    ensures
        total_withdrawable(owners, cars.insert(owner, car)) == total_withdrawable(owners, cars)
            + car.available_to_withdraw - cars[owner].available_to_withdraw,
    decreases owners.len(),
{
    let rest = owners.drop_last();
    lemma_no_duplicates_rest(owners);
    lemma_contains_last_or_rest(owners, owner);
    if owners.last() == owner {
        lemma_total_ignores(rest, cars, owner, car);
    } else {
        lemma_total_update(rest, cars, owner, car);
    }
}

/// Taking a listed owner off the list, with their car, takes what that owner
/// may withdraw off the sum.
pub proof fn lemma_total_without(owners: Seq<Identity>, cars: Map<Identity, Car>, owner: Identity)
    requires
        owners.no_duplicates(),
        owners.contains(owner),
    ensures
        total_withdrawable(without(owners, owner), cars.remove(owner)) == total_withdrawable(
            owners,
            cars,
        ) - cars[owner].available_to_withdraw,
    decreases owners.len(),
{
    let rest = owners.drop_last();
    lemma_no_duplicates_rest(owners);
    lemma_contains_last_or_rest(owners, owner);
    if owners.last() == owner {
        lemma_without_absent(rest, owner);
        lemma_total_ignores(rest, cars, owner, cars[owner]);
    } else {
        lemma_total_without(rest, cars, owner);
        let kept = without(rest, owner).push(owners.last());
        assert(kept.drop_last() == without(rest, owner));
    }
}

/// A list that lacks an item is what is left of it without that item.
pub proof fn lemma_without_absent<T>(items: Seq<T>, item: T)
    requires
        !items.contains(item),
    ensures
        without(items, item) == items,
    decreases items.len(),
{
    if items.len() > 0 {
        lemma_contains_last_or_rest(items, item);
        lemma_without_absent(items.drop_last(), item);
        assert(items.drop_last().push(items.last()) == items);
    }
}



/// Rentals and car statuses still agree after a change that leaves the
/// rentals as they were, and the cars that are out as they were but for what
/// their owners may withdraw.
pub proof fn lemma_rentals_still_match(state: Ledger, after: Ledger)
    requires
        state.rentals_match_cars(),
        after.rentals == state.rentals,
        forall|owner: Identity| #[trigger]
            state.is_out(owner) ==> after.is_out(owner) && after.cars[owner].price_per_day
                == state.cars[owner].price_per_day,
        forall|owner: Identity| #[trigger] after.is_out(owner) ==> state.is_out(owner),
    ensures
        after.rentals_match_cars(),
{
    assert forall|renter: Identity, owner: Identity| #[trigger]
        after.rentals.dom().contains((renter, owner)) implies after.rental_sound(renter, owner) by {
        assert(state.rental_sound(renter, owner));
        assert(state.is_out(owner));
    }
    assert forall|owner: Identity| #[trigger] after.is_out(owner) implies after.has_renter(
        owner,
    ) by {
        assert(state.is_out(owner));
        assert(state.has_renter(owner));
        let witness = choose|renter: Identity| #[trigger]
            state.rentals.dom().contains((renter, owner));
        assert(after.rentals.dom().contains((witness, owner)));
    }
}

/// Initialization keeps the invariant, and the balance of custody against
/// claims.
pub proof fn lemma_initialize_keeps_inv(state: Ledger, admin: Identity, token: Identity)
    requires
        state.inv(),
    ensures
        state.initialize_state(admin, token).inv(),
        state.balanced() ==> state.initialize_state(admin, token).balanced(),
{
    lemma_rentals_still_match(state, state.initialize_state(admin, token));
}

/// Listing a car keeps the invariant, and the balance of custody against
/// claims.
pub proof fn lemma_add_car_keeps_inv(state: Ledger, call: Invocation, owner: Identity, price_per_day: i128)
    requires
        state.inv(),
    ensures
        state.add_car_state(call, owner, price_per_day).inv(),
        state.balanced() ==> state.add_car_state(call, owner, price_per_day).balanced(),
{
    if state.add_car_refusal(call, owner, price_per_day) is None {
        let after = state.add_car_state(call, owner, price_per_day);
        assert(!state.car_owners.contains(owner));
        assert(after.car_owners == state.car_owners.push(owner));
        lemma_no_duplicates_push(state.car_owners, owner);
        assert(after.car_owners.drop_last() == state.car_owners);
        lemma_total_ignores(state.car_owners, state.cars, owner, after.cars[owner]);
        assert(after.owed_to_owners() == state.owed_to_owners());
        assert(after.owners_listed());
        assert(after.cars_sound());
        lemma_rentals_still_match(state, after);
    }
}

/// Delisting a car keeps the invariant.
pub proof fn lemma_remove_car_keeps_inv(state: Ledger, call: Invocation, owner: Identity)
    requires
        state.inv(),
    ensures
        state.remove_car_state(call, owner).inv(),
{
    if state.remove_car_refusal(call, owner) is None {
        let after = state.remove_car_state(call, owner);
        assert(state.car_owners.contains(owner));
        lemma_without_no_duplicates(state.car_owners, owner);
        lemma_total_without(state.car_owners, state.cars, owner);
        assert forall|other: Identity|
            #![trigger after.cars.dom().contains(other)]
            #![trigger after.car_owners.contains(other)]
            after.cars.dom().contains(other) <==> after.car_owners.contains(other) by {
            lemma_without_contains(state.car_owners, owner, other);
        }
        lemma_rentals_still_match(state, after);
    }
}

/// Delisting a car keeps the balance of custody against claims, unless the
/// car's owner could still withdraw something: that value stays in custody
/// and nobody can claim it.
pub proof fn lemma_remove_car_keeps_balance(state: Ledger, call: Invocation, owner: Identity)
    requires
        state.inv(),
        state.balanced(),
        state.cars.dom().contains(owner) ==> state.cars[owner].available_to_withdraw == 0,
    ensures
        state.remove_car_state(call, owner).balanced(),
{
    if state.remove_car_refusal(call, owner) is None {
        assert(state.car_owners.contains(owner));
        lemma_total_without(state.car_owners, state.cars, owner);
    }
}

/// A rental keeps the invariant, and the balance of custody against claims.
pub proof fn lemma_rental_keeps_inv(
    state: Ledger,
    call: Invocation,
    renter: Identity,
    owner: Identity,
    days: u32,
    amount: i128,
)
    requires
        state.inv(),
    ensures
        state.rental_state(call, renter, owner, days, amount).inv(),
        state.balanced() ==> state.rental_state(call, renter, owner, days, amount).balanced(),
{
    if state.rental_refusal(call, renter, owner, days, amount) is None {
        let after = state.rental_state(call, renter, owner, days, amount);
        assert(state.car_owners.contains(owner));
        lemma_total_update(state.car_owners, state.cars, owner, after.cars[owner]);
        assert(after.cars.dom() == state.cars.dom());
        assert(after.owners_listed());
        assert(after.cars_sound());
        assert(!state.is_out(owner));
        assert forall|renter2: Identity, other: Identity| #[trigger]
            after.rentals.dom().contains((renter2, other)) implies after.rental_sound(
            renter2,
            other,
        ) by {
            if (renter2, other) != (renter, owner) {
                assert(state.rental_sound(renter2, other));
            }
        }
        assert forall|other: Identity| #[trigger] after.is_out(other) implies after.has_renter(
            other,
        ) by {
            if other == owner {
                assert(after.rentals.dom().contains((renter, owner)));
            } else {
                assert(state.is_out(other));
                assert(state.has_renter(other));
                let witness = choose|r: Identity| #[trigger]
                    state.rentals.dom().contains((r, other));
                assert(after.rentals.dom().contains((witness, other)));
            }
        }
        assert forall|first: Identity, second: Identity, other: Identity|
            #[trigger] after.rentals.dom().contains((first, other))
                && #[trigger] after.rentals.dom().contains((second, other)) implies first
            == second by {
            if other == owner {
                if first != renter {
                    assert(state.rental_sound(first, owner));
                }
                if second != renter {
                    assert(state.rental_sound(second, owner));
                }
            }
        }
    }
}

/// Ending a rental keeps the invariant, and the balance of custody against
/// claims.
pub proof fn lemma_end_rental_keeps_inv(state: Ledger, call: Invocation, renter: Identity, owner: Identity)
    requires
        state.inv(),
    ensures
        state.end_rental_state(call, renter, owner).inv(),
        state.balanced() ==> state.end_rental_state(call, renter, owner).balanced(),
{
    if state.end_rental_refusal(call, renter, owner) is None {
        let after = state.end_rental_state(call, renter, owner);
        assert(state.car_owners.contains(owner));
        lemma_total_update(state.car_owners, state.cars, owner, after.cars[owner]);
        assert(after.cars.dom() == state.cars.dom());
        assert(after.owners_listed());
        assert(after.cars_sound());
        assert forall|renter2: Identity, other: Identity| #[trigger]
            after.rentals.dom().contains((renter2, other)) implies after.rental_sound(
            renter2,
            other,
        ) by {
            assert(state.rental_sound(renter2, other));
            assert(state.rentals.dom().contains((renter, owner)));
        }
        assert forall|other: Identity| #[trigger] after.is_out(other) implies after.has_renter(
            other,
        ) by {
            assert(state.is_out(other));
            assert(state.has_renter(other));
            let witness = choose|r: Identity| #[trigger] state.rentals.dom().contains((r, other));
            assert(after.rentals.dom().contains((witness, other)));
        }
    }
}

/// A payout keeps the invariant, and the balance of custody against claims.
pub proof fn lemma_payout_owner_keeps_inv(state: Ledger, call: Invocation, owner: Identity, amount: i128)
    requires
        state.inv(),
    ensures
        state.payout_owner_state(call, owner, amount).inv(),
        state.balanced() ==> state.payout_owner_state(call, owner, amount).balanced(),
{
    if state.payout_owner_refusal(call, owner, amount) is None {
        let after = state.payout_owner_state(call, owner, amount);
        assert(state.car_owners.contains(owner));
        lemma_total_update(state.car_owners, state.cars, owner, after.cars[owner]);
        assert(after.cars.dom() == state.cars.dom());
        assert(after.owners_listed());
        assert(after.cars_sound());
        lemma_rentals_still_match(state, after);
    }
}

/// Setting the commission keeps the invariant, and the balance of custody
/// against claims.
pub proof fn lemma_set_commission_keeps_inv(state: Ledger, call: Invocation, commission: i128)
    requires
        state.inv(),
    ensures
        state.set_commission_state(call, commission).inv(),
        state.balanced() ==> state.set_commission_state(call, commission).balanced(),
{
    lemma_rentals_still_match(state, state.set_commission_state(call, commission));
}

/// Withdrawing the commissions keeps the invariant, and the balance of
/// custody against claims.
pub proof fn lemma_withdraw_admin_commissions_keeps_inv(state: Ledger, call: Invocation)
    requires
        state.inv(),
    ensures
        state.withdraw_admin_commissions_state(call).inv(),
        state.balanced() ==> state.withdraw_admin_commissions_state(call).balanced(),
{
    lemma_rentals_still_match(state, state.withdraw_admin_commissions_state(call));
}

} // verus!
