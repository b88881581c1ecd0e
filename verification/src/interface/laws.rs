use vstd::prelude::*;
use crate::interface::invariants::{
    lemma_add_car_keeps_inv, lemma_end_rental_keeps_inv, lemma_initialize_keeps_inv,
    lemma_payout_owner_keeps_inv, lemma_remove_car_keeps_balance, lemma_remove_car_keeps_inv,
    lemma_rental_keeps_inv, lemma_set_commission_keeps_inv,
    lemma_withdraw_admin_commissions_keeps_inv,
};
use crate::methods::auth::{Invocation, Party};
use crate::methods::token::Transfer;
use crate::storage::types::car_status::CarStatus;
use crate::storage::types::errors::RentACarError;
use crate::storage::types::identity::Identity;
use crate::storage::types::ledger::Ledger;

verus! {

/// One step of the engine: an operation that changes its state, with what
/// the host established about the call and the inputs.
pub enum Operation {
    Initialize { admin: Identity, token: Identity },
    AddCar { call: Invocation, owner: Identity, price_per_day: i128 },
    RemoveCar { call: Invocation, owner: Identity },
    Rental { call: Invocation, renter: Identity, owner: Identity, days: u32, amount: i128 },
    EndRental { call: Invocation, renter: Identity, owner: Identity },
    PayoutOwner { call: Invocation, owner: Identity, amount: i128 },
    SetCommission { call: Invocation, commission: i128 },
    WithdrawAdminCommissions { call: Invocation },
}

impl Ledger {
    /// The state that a step leaves.
    pub open spec fn after(self, step: Operation) -> Ledger {
        match step {
            Operation::Initialize { admin, token } => self.initialize_state(admin, token),
            Operation::AddCar { call, owner, price_per_day } => self.add_car_state(
                call,
                owner,
                price_per_day,
            ),
            Operation::RemoveCar { call, owner } => self.remove_car_state(call, owner),
            Operation::Rental { call, renter, owner, days, amount } => self.rental_state(
                call,
                renter,
                owner,
                days,
                amount,
            ),
            Operation::EndRental { call, renter, owner } => self.end_rental_state(
                call,
                renter,
                owner,
            ),
            Operation::PayoutOwner { call, owner, amount } => self.payout_owner_state(
                call,
                owner,
                amount,
            ),
            Operation::SetCommission { call, commission } => self.set_commission_state(
                call,
                commission,
            ),
            Operation::WithdrawAdminCommissions { call } => self.withdraw_admin_commissions_state(
                call,
            ),
        }
    }

    /// Whether a step delists a car whose owner could still withdraw
    /// something. That value stays in custody and nobody can claim it.
    pub open spec fn strands_value(self, step: Operation) -> bool {
        match step {
            Operation::RemoveCar { call, owner } => {
                &&& self.remove_car_refusal(call, owner) is None
                &&& self.cars[owner].available_to_withdraw > 0
            },
            _ => false,
        }
    }
}

/// The state that a history of steps leaves, starting from the blank state.
pub open spec fn run(steps: Seq<Operation>) -> Ledger
    decreases steps.len(),
{
    if steps.len() == 0 {
        Ledger::blank()
    } else {
        run(steps.drop_last()).after(steps.last())
    }
}

/// Whether no step of a history delists a car whose owner could still
/// withdraw something.
pub open spec fn strands_nothing(steps: Seq<Operation>) -> bool
    decreases steps.len(),
{
    if steps.len() == 0 {
        true
    } else {
        strands_nothing(steps.drop_last()) && !run(steps.drop_last()).strands_value(steps.last())
    }
}

/// Nothing is listed, rented or held before the first call.
pub proof fn lemma_blank_is_sound()
    ensures
        Ledger::blank().inv(),
        Ledger::blank().balanced(),
{
    let blank = Ledger::blank();
    assert forall|owner: Identity| #[trigger] blank.is_out(owner) implies blank.has_renter(
        owner,
    ) by {}
}

/// Every step keeps the invariant.
pub proof fn lemma_step_keeps_inv(state: Ledger, step: Operation)
    requires
        state.inv(),
    ensures
        state.after(step).inv(),
{
    match step {
        Operation::Initialize { admin, token } => lemma_initialize_keeps_inv(state, admin, token),
        Operation::AddCar { call, owner, price_per_day } => lemma_add_car_keeps_inv(
            state,
            call,
            owner,
            price_per_day,
        ),
        Operation::RemoveCar { call, owner } => lemma_remove_car_keeps_inv(state, call, owner),
        Operation::Rental { call, renter, owner, days, amount } => lemma_rental_keeps_inv(
            state,
            call,
            renter,
            owner,
            days,
            amount,
        ),
        Operation::EndRental { call, renter, owner } => lemma_end_rental_keeps_inv(
            state,
            call,
            renter,
            owner,
        ),
        Operation::PayoutOwner { call, owner, amount } => lemma_payout_owner_keeps_inv(
            state,
            call,
            owner,
            amount,
        ),
        Operation::SetCommission { call, commission } => lemma_set_commission_keeps_inv(
            state,
            call,
            commission,
        ),
        Operation::WithdrawAdminCommissions { call } => lemma_withdraw_admin_commissions_keeps_inv(
            state,
            call,
        ),
    }
}

/// Every step keeps custody equal to what owners and the administrator may
/// claim, but the delisting of a car whose owner could still withdraw
/// something.
pub proof fn lemma_step_keeps_balance(state: Ledger, step: Operation)
    requires
        state.inv(),
        state.balanced(),
        !state.strands_value(step),
    ensures
        state.after(step).balanced(),
{
    match step {
        Operation::Initialize { admin, token } => lemma_initialize_keeps_inv(state, admin, token),
        Operation::AddCar { call, owner, price_per_day } => lemma_add_car_keeps_inv(
            state,
            call,
            owner,
            price_per_day,
        ),
        Operation::RemoveCar { call, owner } => {
            if state.remove_car_refusal(call, owner) is None {
                lemma_remove_car_keeps_balance(state, call, owner);
            }
        },
        Operation::Rental { call, renter, owner, days, amount } => lemma_rental_keeps_inv(
            state,
            call,
            renter,
            owner,
            days,
            amount,
        ),
        Operation::EndRental { call, renter, owner } => lemma_end_rental_keeps_inv(
            state,
            call,
            renter,
            owner,
        ),
        Operation::PayoutOwner { call, owner, amount } => lemma_payout_owner_keeps_inv(
            state,
            call,
            owner,
            amount,
        ),
        Operation::SetCommission { call, commission } => lemma_set_commission_keeps_inv(
            state,
            call,
            commission,
        ),
        Operation::WithdrawAdminCommissions { call } => lemma_withdraw_admin_commissions_keeps_inv(
            state,
            call,
        ),
    }
}

/// The invariant holds after every history of steps: in particular, in every
/// state that can be reached, custody covers what owners and the
/// administrator may claim, and rentals and car statuses agree.
pub proof fn lemma_reachable_states_are_sound(steps: Seq<Operation>)
    ensures
        run(steps).inv(),
    decreases steps.len(),
{
    if steps.len() == 0 {
        lemma_blank_is_sound();
    } else {
        lemma_reachable_states_are_sound(steps.drop_last());
        lemma_step_keeps_inv(run(steps.drop_last()), steps.last());
    }
}

/// After every history of steps that delists no car whose owner could still
/// withdraw something, custody holds exactly the sum of what all owners may
/// withdraw and of the commissions collected for the administrator.
pub proof fn lemma_reachable_states_are_balanced(steps: Seq<Operation>)
    requires
        strands_nothing(steps),
    ensures
        run(steps).balanced(),
    decreases steps.len(),
{
    if steps.len() == 0 {
        lemma_blank_is_sound();
    } else {
        lemma_reachable_states_are_balanced(steps.drop_last());
        lemma_reachable_states_are_sound(steps.drop_last());
        lemma_step_keeps_balance(run(steps.drop_last()), steps.last());
    }
}

/// Where the invariant holds, a rental is recorded for a renter and an owner
/// only while the owner's car is out, and then it is the only rental of that
/// car: nobody else has one.
pub proof fn lemma_rental_means_car_is_out(state: Ledger, renter: Identity, owner: Identity)
    requires
        state.inv(),
        state.rentals.dom().contains((renter, owner)),
    ensures
        state.cars.dom().contains(owner),
        state.cars[owner].car_status == CarStatus::Rented,
        forall|other: Identity| #[trigger]
            state.rentals.dom().contains((other, owner)) ==> other == renter,
{
    assert(state.rental_sound(renter, owner));
}

/// Where the invariant holds, a car that is out has exactly one rental
/// recorded, and a car that is not out has none.
pub proof fn lemma_car_is_out_means_rental(state: Ledger, owner: Identity)
    requires
        state.inv(),
        state.cars.dom().contains(owner),
    ensures
        state.cars[owner].car_status == CarStatus::Rented ==> exists|renter: Identity|
            #![trigger state.rentals.dom().contains((renter, owner))]
            state.rentals.dom().contains((renter, owner)) && forall|other: Identity| #[trigger]
                state.rentals.dom().contains((other, owner)) ==> other == renter,
        state.cars[owner].car_status != CarStatus::Rented ==> forall|renter: Identity|
            !#[trigger] state.rentals.dom().contains((renter, owner)),
{
    if state.cars[owner].car_status == CarStatus::Rented {
        assert(state.is_out(owner));
        assert(state.has_renter(owner));
        let renter = choose|renter: Identity| #[trigger]
            state.rentals.dom().contains((renter, owner));
        lemma_rental_means_car_is_out(state, renter, owner);
    } else {
        assert forall|renter: Identity| !#[trigger] state.rentals.dom().contains(
            (renter, owner),
        ) by {
            if state.rentals.dom().contains((renter, owner)) {
                assert(state.rental_sound(renter, owner));
            }
        }
    }
}

/// Ending the same rental a second time is refused: the rental is no longer
/// found. Nothing changes.
pub proof fn lemma_end_rental_twice_is_refused(
    state: Ledger,
    first: Invocation,
    second: Invocation,
    renter: Identity,
    owner: Identity,
)
    requires
        state.end_rental_result(first, renter, owner) is Ok,
    ensures
        state.end_rental_state(first, renter, owner).end_rental_result(second, renter, owner)
            == Err::<(), RentACarError>(
            if second.authorizes(Party::Account(renter)) {
                RentACarError::NotFound
            } else {
                RentACarError::Unauthorized
            },
        ),
        state.end_rental_state(first, renter, owner).end_rental_state(second, renter, owner)
            == state.end_rental_state(first, renter, owner),
{
}

/// A rental whose payment differs from the price per day times the days is
/// refused, whatever the product is and whatever the sign of the payment.
/// Once the call has passed the checks that come before the payment's, the
/// refusal is `AmountMismatch`. Nothing changes.
pub proof fn lemma_wrong_payment_is_refused(
    state: Ledger,
    call: Invocation,
    renter: Identity,
    owner: Identity,
    days: u32,
    amount: i128,
)
    requires
        state.cars.dom().contains(owner),
        amount != state.cars[owner].price_per_day * days,
    ensures
        state.rental_result(call, renter, owner, days, amount) is Err,
        state.rental_state(call, renter, owner, days, amount) == state,
        call.authorizes(Party::Account(renter)) && days > 0 && renter != owner
            && state.cars[owner].car_status == CarStatus::Available ==> state.rental_result(
            call,
            renter,
            owner,
            days,
            amount,
        ) == Err::<
            Transfer,
            RentACarError,
        >(RentACarError::AmountMismatch),
{
}

/// A payout of more than the owner may withdraw is refused with
/// `InsufficientFunds`, once the call has passed the checks that come before
/// the amount's. Nothing changes.
pub proof fn lemma_excessive_payout_is_refused(
    state: Ledger,
    call: Invocation,
    owner: Identity,
    amount: i128,
)
    requires
        state.inv(),
        state.cars.dom().contains(owner),
        amount > state.cars[owner].available_to_withdraw,
    ensures
        state.payout_owner_result(call, owner, amount) is Err,
        state.payout_owner_state(call, owner, amount) == state,
        call.authorizes(Party::Account(owner)) && call.authorizes(Party::Custody)
            && state.cars[owner].car_status == CarStatus::Available
            ==> state.payout_owner_result(call, owner, amount) == Err::<
            Transfer,
            RentACarError,
        >(RentACarError::InsufficientFunds),
{
}

/// A payout is refused while the car is out, whatever the amount. Nothing
/// changes.
pub proof fn lemma_payout_waits_for_return(
    state: Ledger,
    call: Invocation,
    owner: Identity,
    amount: i128,
)
    requires
        state.cars.dom().contains(owner),
        state.cars[owner].car_status == CarStatus::Rented,
    ensures
        state.payout_owner_result(call, owner, amount) is Err,
        state.payout_owner_state(call, owner, amount) == state,
        call.authorizes(Party::Account(owner)) && call.authorizes(Party::Custody)
            ==> state.payout_owner_result(call, owner, amount) == Err::<
            Transfer,
            RentACarError,
        >(RentACarError::CarNotAvailable),
{
}

/// Renting one's own car is refused with `SelfRental`, once the renter's
/// approval and the days have been checked. Nothing changes.
pub proof fn lemma_self_rental_is_refused(
    state: Ledger,
    call: Invocation,
    renter: Identity,
    days: u32,
    amount: i128,
)
    ensures
        state.rental_result(call, renter, renter, days, amount) is Err,
        state.rental_state(call, renter, renter, days, amount) == state,
        call.authorizes(Party::Account(renter)) && days > 0 ==> state.rental_result(
            call,
            renter,
            renter,
            days,
            amount,
        ) == Err::<Transfer, RentACarError>(RentACarError::SelfRental),
{
}

/// While a rental is active, a second rental of the same car is refused,
/// whoever asks for it, the same renter or another, and whatever its inputs.
/// Nothing changes, no balance either.
pub proof fn lemma_second_rental_is_refused(
    state: Ledger,
    first: Invocation,
    second: Invocation,
    renter: Identity,
    owner: Identity,
    days: u32,
    amount: i128,
    next_renter: Identity,
    more_days: u32,
    more_amount: i128,
)
    requires
        state.rental_result(first, renter, owner, days, amount) is Ok,
    ensures
        state.rental_state(first, renter, owner, days, amount).rental_result(
            second,
            next_renter,
            owner,
            more_days,
            more_amount,
        ) is Err,
        state.rental_state(first, renter, owner, days, amount).rental_state(
            second,
            next_renter,
            owner,
            more_days,
            more_amount,
        ) == state.rental_state(first, renter, owner, days, amount),
        second.authorizes(Party::Account(next_renter)) && more_days > 0 && next_renter != owner
            ==> state.rental_state(first, renter, owner, days, amount).rental_result(
            second,
            next_renter,
            owner,
            more_days,
            more_amount,
        ) == Err::<Transfer, RentACarError>(RentACarError::CarNotAvailable),
{
}

/// Once set, the administrator and the asset never change.
pub proof fn lemma_admin_and_token_are_set_once(state: Ledger, step: Operation)
    ensures
        state.admin is Some ==> state.after(step).admin == state.admin,
        state.token is Some && state.admin is Some ==> state.after(step).token == state.token,
{
}

/// The commission changes only when the administrator sets it.
pub proof fn lemma_commission_changes_only_by_its_setter(state: Ledger, step: Operation)
    requires
        state.after(step).commission != state.commission,
    ensures
        step is SetCommission,
        state.admin_refusal(step->SetCommission_call) is None,
{
}

/// What an owner may withdraw grows only by a rental of their car, and by
/// the payment; it shrinks only by a payout to them, and by the amount paid.
/// The price of a listed car never changes.
pub proof fn lemma_claim_changes_only_by_rental_and_payout(
    state: Ledger,
    step: Operation,
    owner: Identity,
)
    requires
        state.cars.dom().contains(owner),
        state.after(step).cars.dom().contains(owner),
    ensures
        state.after(step).cars[owner].price_per_day == state.cars[owner].price_per_day,
        state.after(step).cars[owner].available_to_withdraw
            > state.cars[owner].available_to_withdraw ==> {
            &&& step matches Operation::Rental { call, renter, owner: rented, days, amount }
            &&& rented == owner
            &&& state.rental_refusal(call, renter, owner, days, amount) is None
            &&& state.after(step).cars[owner].available_to_withdraw
                == state.cars[owner].available_to_withdraw + amount
        },
        state.after(step).cars[owner].available_to_withdraw
            < state.cars[owner].available_to_withdraw ==> {
            &&& step matches Operation::PayoutOwner { call, owner: paid, amount }
            &&& paid == owner
            &&& state.payout_owner_refusal(call, owner, amount) is None
            &&& state.after(step).cars[owner].available_to_withdraw
                == state.cars[owner].available_to_withdraw - amount
        },
{
}

/// A listed car goes out only by a rental of it, and comes back only by the
/// end of a rental of it.
pub proof fn lemma_status_changes_only_by_rental_and_return(
    state: Ledger,
    step: Operation,
    owner: Identity,
)
    requires
        state.cars.dom().contains(owner),
        state.after(step).cars.dom().contains(owner),
        state.after(step).cars[owner].car_status != state.cars[owner].car_status,
    ensures
        state.cars[owner].car_status == CarStatus::Available ==> {
            &&& step matches Operation::Rental { call, renter, owner: rented, days, amount }
            &&& rented == owner
            &&& state.rental_refusal(call, renter, owner, days, amount) is None
        },
        state.cars[owner].car_status == CarStatus::Rented ==> {
            &&& step matches Operation::EndRental { call, renter, owner: returned }
            &&& returned == owner
            &&& state.end_rental_refusal(call, renter, owner) is None
        },
{
}



impl Operation {
    /// Whether a step reads or changes the list of owners.
    pub open spec fn concerns_listing(self) -> bool {
        self is AddCar || self is RemoveCar
    }

    /// Whether a step names `party` as the owner or the renter it is about.
    pub open spec fn concerns(self, party: Identity) -> bool {
        match self {
            Operation::AddCar { owner, .. } => party == owner,
            Operation::RemoveCar { owner, .. } => party == owner,
            Operation::Rental { renter, owner, .. } => party == renter || party == owner,
            Operation::EndRental { renter, owner, .. } => party == renter || party == owner,
            Operation::PayoutOwner { owner, .. } => party == owner,
            _ => false,
        }
    }
}

impl Ledger {
    /// The check that refuses a step, if any.
    pub open spec fn refusal(self, step: Operation) -> Option<RentACarError> {
        match step {
            Operation::Initialize { .. } => self.initialize_refusal(),
            Operation::AddCar { call, owner, price_per_day } => self.add_car_refusal(
                call,
                owner,
                price_per_day,
            ),
            Operation::RemoveCar { call, owner } => self.remove_car_refusal(call, owner),
            Operation::Rental { call, renter, owner, days, amount } => self.rental_refusal(
                call,
                renter,
                owner,
                days,
                amount,
            ),
            Operation::EndRental { call, renter, owner } => self.end_rental_refusal(
                call,
                renter,
                owner,
            ),
            Operation::PayoutOwner { call, owner, amount } => self.payout_owner_refusal(
                call,
                owner,
                amount,
            ),
            Operation::SetCommission { call, commission } => self.set_commission_refusal(
                call,
                commission,
            ),
            Operation::WithdrawAdminCommissions { call } => self.withdraw_admin_commissions_refusal(
                call,
            ),
        }
    }

    /// The transfer that a step orders, if it orders one.
    pub open spec fn order(self, step: Operation) -> Option<Transfer> {
        if self.refusal(step) is Some {
            None
        } else {
            match step {
                Operation::Rental { renter, amount, .. } => Some(
                    self.rental_transfer(renter, amount),
                ),
                Operation::PayoutOwner { owner, amount, .. } => Some(
                    self.payout_owner_transfer(owner, amount),
                ),
                Operation::WithdrawAdminCommissions { .. } => Some(
                    self.withdraw_admin_commissions_transfer(),
                ),
                _ => None,
            }
        }
    }

    /// Whether two states hold the same administrator, asset, balances and
    /// commission, and the same cars and rentals of the parties that a step
    /// is about.
    pub open spec fn agrees_with(self, other: Ledger, step: Operation) -> bool {
        &&& self.admin == other.admin
        &&& self.token == other.token
        &&& self.contract_balance == other.contract_balance
        &&& self.commission == other.commission
        &&& self.admin_commission_balance == other.admin_commission_balance
        &&& forall|party: Identity| #[trigger]
            step.concerns(party) ==> self.car_lookup(party) == other.car_lookup(party)
        &&& forall|renter: Identity, owner: Identity|
            #![trigger self.rental_lookup(renter, owner)]
            #![trigger other.rental_lookup(renter, owner)]
            step.concerns(renter) && step.concerns(owner) ==> self.rental_lookup(renter, owner)
                == other.rental_lookup(renter, owner)
    }
}

/// Whether a step is refused, what it orders and what it leaves of the
/// administrator, the asset, the balances, the commission, and the cars and
/// rentals of the parties it is about, depend on these alone: on two states
/// that agree on them, it is refused alike or orders the same transfer, and
/// it leaves states that agree on them again. No answer depends on the list
/// of owners. So a host may hand the engine that part of what it stores, and
/// store that part again afterwards.
pub proof fn lemma_step_reads_only_what_concerns_it(first: Ledger, second: Ledger, step: Operation)
    requires
        first.agrees_with(second, step),
    ensures
        first.refusal(step) == second.refusal(step),
        first.order(step) == second.order(step),
        first.after(step).agrees_with(second.after(step), step),
{
    match step {
        Operation::Rental { call, renter, owner, days, amount } => {
            assert(step.concerns(renter) && step.concerns(owner));
            assert(first.car_lookup(owner) == second.car_lookup(owner));
            assert(first.rental_lookup(renter, owner) == second.rental_lookup(renter, owner));
        },
        Operation::EndRental { call, renter, owner } => {
            assert(step.concerns(renter) && step.concerns(owner));
            assert(first.car_lookup(owner) == second.car_lookup(owner));
            assert(first.rental_lookup(renter, owner) == second.rental_lookup(renter, owner));
        },
        Operation::AddCar { call, owner, price_per_day } => {
            assert(step.concerns(owner));
            assert(first.car_lookup(owner) == second.car_lookup(owner));
        },
        Operation::RemoveCar { call, owner } => {
            assert(step.concerns(owner));
            assert(first.car_lookup(owner) == second.car_lookup(owner));
        },
        Operation::PayoutOwner { call, owner, amount } => {
            assert(step.concerns(owner));
            assert(first.car_lookup(owner) == second.car_lookup(owner));
        },
        _ => {},
    }
    let first_after = first.after(step);
    let second_after = second.after(step);
    assert forall|party: Identity| #[trigger] step.concerns(party) implies first_after.car_lookup(
        party,
    ) == second_after.car_lookup(party) by {
        assert(first.car_lookup(party) == second.car_lookup(party));
    }
    assert forall|renter: Identity, owner: Identity|
        step.concerns(renter) && step.concerns(owner) implies #[trigger] first_after.rental_lookup(
        renter,
        owner,
    ) == second_after.rental_lookup(renter, owner) by {
        assert(first.rental_lookup(renter, owner) == second.rental_lookup(renter, owner));
    }
}

/// A step changes no car of an owner that it is not about, no rental but
/// of the renter and the owner that it is about, and the list of owners only
/// where it lists or delists a car.
pub proof fn lemma_step_changes_only_what_concerns_it(state: Ledger, step: Operation)
    ensures
        !step.concerns_listing() ==> state.after(step).car_owners == state.car_owners,
        forall|party: Identity|
            !step.concerns(party) ==> #[trigger] state.after(step).car_lookup(party)
                == state.car_lookup(party),
        forall|renter: Identity, owner: Identity|
            !(step.concerns(renter) && step.concerns(owner)) ==> #[trigger] state.after(
                step,
            ).rental_lookup(renter, owner) == state.rental_lookup(renter, owner),
{
}

} // verus!
