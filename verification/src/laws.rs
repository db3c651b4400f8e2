//! The library's stated laws: proof functions over the spec-level
//! transitions, one per guarantee the policy core gives beyond the single
//! operation contracts.

use vstd::prelude::*;

use crate::controller::{
    payout, spec_close, spec_initialize, spec_withdraw, Party, TransferRequest,
};
use crate::errors::CustomError;
use crate::limiter::{epoch_elapsed, rolled};
use crate::registry::spec_add_payee;
use crate::scheduler::{spec_claim_payout, spec_schedule_payout};
use crate::state::{
    first_active, has_active, has_limit, lemma_first_active_props, lemma_limit_index_is,
    lemma_limit_index_props, limit_index, Identity, PayoutSchedule, VaultModel, MAX_PAYEES,
};

verus! {

/// Creation is not idempotent: once an `initialize` has succeeded, the
/// payee set is empty and any second `initialize`, by anyone, fails with
/// `AlreadyInitialized` and changes nothing.
pub proof fn lemma_initialize_once(
    v: VaultModel,
    c1: Identity,
    r1: u64,
    c2: Identity,
    r2: u64,
)
    ensures
        ({
            let (v1, res1) = spec_initialize(v, c1, r1);
            res1 is Ok ==> v1.payees.len() == 0 && spec_initialize(v1, c2, r2) == (
                v1,
                Err::<TransferRequest, CustomError>(CustomError::AlreadyInitialized),
            )
        }),
{
}

/// The payee set never grows past capacity, and never takes a duplicate:
/// with the set full, adding always fails with `MaxPayeesReached`; with
/// spare room, adding a present identity always fails with
/// `PayeeAlreadyExists`; either way an already-present identity is never
/// added again, wherever it sits in the set.
pub proof fn lemma_add_payee_bounds(v: VaultModel, caller: Identity, p: Identity)
    requires
        caller == v.admin,
    ensures
        v.payees.len() >= MAX_PAYEES ==> spec_add_payee(v, caller, p) == (
            v,
            Err::<(), CustomError>(CustomError::MaxPayeesReached),
        ),
        v.payees.len() < MAX_PAYEES && v.payees.contains(p) ==> spec_add_payee(v, caller, p) == (
            v,
            Err::<(), CustomError>(CustomError::PayeeAlreadyExists),
        ),
        v.payees.contains(p) ==> spec_add_payee(v, caller, p).0 == v && spec_add_payee(
            v,
            caller,
            p,
        ).1 is Err,
{
}

/// A payee with no configured limit is unrestricted: the core approves any
/// requested amount, at any time, without touching the state.
pub proof fn lemma_withdraw_unlimited(v: VaultModel, caller: Identity, amount: u64, now: i64)
    requires
        caller != v.admin,
        v.payees.contains(caller),
        !has_limit(v.limits, caller),
    ensures
        spec_withdraw(v, caller, amount, now) == (
            v,
            Ok::<TransferRequest, CustomError>(payout(caller, amount)),
        ),
{
}

/// One limited withdrawal, exactly: after the rolling reset — which, when
/// the window has elapsed, restarts it at `now` with nothing spent — the
/// request is refused exactly when it would push the window's spending over
/// the cap, and otherwise raises it by exactly the approved amount, never
/// past the cap.
pub proof fn lemma_withdraw_limited(v: VaultModel, caller: Identity, amount: u64, now: i64)
    requires
        v.wf(),
        caller != v.admin,
        v.payees.contains(caller),
        has_limit(v.limits, caller),
    ensures
        ({
            let i = limit_index(v.limits, caller);
            let e = v.limits[i].spending;
            let e1 = rolled(e, now);
            let (v2, res) = spec_withdraw(v, caller, amount, now);
            &&& epoch_elapsed(e, now) ==> e1.spent_amount == 0 && e1.epoch_start == now
            &&& e1.spent_amount + amount > e1.limit ==> res == Err::<
                TransferRequest,
                CustomError,
            >(CustomError::EpochSpendingLimitReached) && v2 == v
            &&& e1.spent_amount + amount <= e1.limit ==> res == Ok::<
                TransferRequest,
                CustomError,
            >(payout(caller, amount)) && v2.limits[i].spending.spent_amount == e1.spent_amount
                + amount && v2.limits[i].spending.spent_amount <= e.limit
        }),
{
    lemma_limit_index_props(v.limits, caller);
}

/// No two withdrawals within one window can together exceed the cap: when a
/// limited payee's withdrawal succeeds, and a second one succeeds before
/// the window opened by the first has elapsed, the two amounts sum to at
/// most the configured limit.
pub proof fn lemma_two_withdrawals_capped(
    v: VaultModel,
    caller: Identity,
    a1: u64,
    a2: u64,
    t1: i64,
    t2: i64,
)
    requires
        v.wf(),
        caller != v.admin,
        v.payees.contains(caller),
        has_limit(v.limits, caller),
        spec_withdraw(v, caller, a1, t1).1 is Ok,
        !epoch_elapsed(
            spec_withdraw(v, caller, a1, t1).0.limits[limit_index(v.limits, caller)].spending,
            t2,
        ),
        spec_withdraw(spec_withdraw(v, caller, a1, t1).0, caller, a2, t2).1 is Ok,
    ensures
        a1 + a2 <= v.limits[limit_index(v.limits, caller)].spending.limit,
{
    lemma_limit_index_props(v.limits, caller);
    let i = limit_index(v.limits, caller);
    let e0 = v.limits[i].spending;
    let v1 = spec_withdraw(v, caller, a1, t1).0;
    let e1 = rolled(e0, t1);
    assert(v1.limits[i].spending.spent_amount == e1.spent_amount + a1);
    assert(v1.limits[i].payee == caller);
    assert(forall|j: int| 0 <= j < i ==> v1.limits[j] == v.limits[j]);
    lemma_limit_index_is(v1.limits, caller, i);
    let e2 = v1.limits[i].spending;
    assert(rolled(e2, t2) == e2);
    assert(e2.spent_amount + a2 <= e2.limit);
    assert(e2.limit == e0.limit);
}

/// A payout can never be scheduled to start in the past or the present:
/// whatever the other arguments, the admin's request with a start time at
/// or before the current time fails with `InvalidPayoutSchedule` and
/// changes nothing.
pub proof fn lemma_schedule_payout_needs_future_start(
    v: VaultModel,
    caller: Identity,
    payee: Identity,
    amount: u64,
    start_time: i64,
    interval: i64,
    now: i64,
)
    requires
        caller == v.admin,
        start_time <= now,
    ensures
        spec_schedule_payout(v, caller, payee, amount, start_time, interval, now) == (
            v,
            Err::<(), CustomError>(CustomError::InvalidPayoutSchedule),
        ),
{
}

/// Claims are gated by the schedule's own clock: before the first active
/// schedule's next payout time a claim fails with `PayoutTimeNotReached`
/// and changes nothing; at or after it, the claim pays the schedule's
/// amount and advances its next payout time by exactly one interval — not
/// to `now` plus the interval — leaving every other schedule untouched.
pub proof fn lemma_claim_timing(v: VaultModel, caller: Identity, now: i64)
    requires
        v.wf(),
        v.payees.contains(caller),
        has_active(v.schedules),
        v.schedules[first_active(v.schedules)].next_payout_time + v.schedules[first_active(
            v.schedules,
        )].interval <= i64::MAX,
    ensures
        ({
            let k = first_active(v.schedules);
            let s = v.schedules[k];
            let (v2, res) = spec_claim_payout(v, caller, now);
            &&& now < s.next_payout_time ==> res == Err::<
                TransferRequest,
                CustomError,
            >(CustomError::PayoutTimeNotReached) && v2 == v
            &&& now >= s.next_payout_time ==> res == Ok::<
                TransferRequest,
                CustomError,
            >(payout(caller, s.amount)) && v2.schedules[k].next_payout_time == s.next_payout_time
                + s.interval && v2.schedules[k].amount == s.amount && v2.schedules[k].interval
                == s.interval && v2.schedules == v.schedules.update(
                k,
                PayoutSchedule { next_payout_time: (s.next_payout_time + s.interval) as i64, ..s },
            )
        }),
{
    lemma_first_active_props(v.schedules);
}

/// `close` pays the admin the entire remaining custody balance, and refuses
/// anyone else; afterwards the record is consumed, so no operation can ever
/// be applied to the vault again.
pub proof fn lemma_close_full_balance(v: VaultModel, caller: Identity, balance: u64)
    ensures
        caller == v.admin ==> spec_close(v, caller, balance) == Ok::<
            TransferRequest,
            CustomError,
        >(
            TransferRequest {
                source: Party::Custody,
                dest: Party::Principal(v.admin),
                amount: balance,
            },
        ),
        caller != v.admin ==> spec_close(v, caller, balance) == Err::<
            TransferRequest,
            CustomError,
        >(CustomError::UnauthorizedAdmin),
{
}

} // verus!
