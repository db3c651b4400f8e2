//! Recurring payouts: admin-defined schedules, cancellation, and the
//! time-gated claim. Claims and cancellations select the first active
//! schedule in scan order; the stored schedule is not keyed to a payee, so
//! no identity match is attempted.

use vstd::prelude::*;

use crate::controller::{payout, TransferRequest};
use crate::errors::CustomError;
use crate::state::{
    contains_identity, find_first_active, first_active, has_active, lemma_first_active_is,
    wf_schedule, Identity, PayoutSchedule, VaultModel, VaultState, MAX_SCHEDULES,
};

verus! {

/// What `schedule_payout` does: the admin appends a new active schedule of
/// a positive amount per positive interval, first claimable at `start_time`,
/// which must lie strictly in the future; the payee must be known and the
/// schedule list must have spare capacity.
pub open spec fn spec_schedule_payout(
    v: VaultModel,
    caller: Identity,
    payee: Identity,
    amount: u64,
    start_time: i64,
    interval: i64,
    now: i64,
) -> (VaultModel, Result<(), CustomError>) {
    if caller != v.admin {
        (v, Err(CustomError::UnauthorizedAdmin))
    } else if amount == 0 {
        (v, Err(CustomError::InvalidPayoutSchedule))
    } else if interval <= 0 {
        (v, Err(CustomError::InvalidPayoutSchedule))
    } else if start_time <= now {
        (v, Err(CustomError::InvalidPayoutSchedule))
    } else if !v.payees.contains(payee) {
        (v, Err(CustomError::PayeeNotFound))
    } else if v.schedules.len() >= MAX_SCHEDULES {
        (v, Err(CustomError::MaxSchedulesReached))
    } else {
        let s = PayoutSchedule { amount, next_payout_time: start_time, interval, is_active: true };
        (VaultModel { schedules: v.schedules.push(s), ..v }, Ok(()))
    }
}

/// What `cancel_payout` does: the admin deactivates the first schedule that
/// is still active, in scan order and regardless of the payee named in the
/// call; the named payee must merely be known. With no active schedule the
/// call fails with `ScheduleNotFound`.
pub open spec fn spec_cancel_payout(v: VaultModel, caller: Identity, payee: Identity) -> (
    VaultModel,
    Result<(), CustomError>,
) {
    if caller != v.admin {
        (v, Err(CustomError::UnauthorizedAdmin))
    } else if !v.payees.contains(payee) {
        (v, Err(CustomError::PayeeNotFound))
    } else if !has_active(v.schedules) {
        (v, Err(CustomError::ScheduleNotFound))
    } else {
        let k = first_active(v.schedules);
        let s = v.schedules[k];
        (
            VaultModel {
                schedules: v.schedules.update(k, PayoutSchedule { is_active: false, ..s }),
                ..v
            },
            Ok(()),
        )
    }
}

/// Whether a claim by `caller` at time `now` would be paid: the caller is a
/// known payee, some schedule is active, and the first active schedule's
/// next payout time has arrived.
pub open spec fn claim_ready(v: VaultModel, caller: Identity, now: i64) -> bool {
    &&& v.payees.contains(caller)
    &&& has_active(v.schedules)
    &&& now >= v.schedules[first_active(v.schedules)].next_payout_time
}

/// Advancing the first active schedule's next payout time stays within the
/// timestamp type. A paid claim advances it by one interval, so on inputs
/// violating this the stored record could not hold the result.
pub open spec fn claim_advance_fits(v: VaultModel, caller: Identity, now: i64) -> bool {
    claim_ready(v, caller, now) ==> v.schedules[first_active(v.schedules)].next_payout_time
        + v.schedules[first_active(v.schedules)].interval <= i64::MAX
}

/// What `claim_payout` does: a known payee claims the first active schedule
/// in scan order — not matched to the caller's identity — once its next
/// payout time has arrived; the payout is the schedule's amount and its next
/// payout time advances by exactly one interval, keeping the fixed cadence
/// whatever the claim's actual time.
pub open spec fn spec_claim_payout(v: VaultModel, caller: Identity, now: i64) -> (
    VaultModel,
    Result<TransferRequest, CustomError>,
) {
    if !v.payees.contains(caller) {
        (v, Err(CustomError::UnauthorizedPayee))
    } else if !has_active(v.schedules) {
        (v, Err(CustomError::ScheduleNotFound))
    } else {
        let k = first_active(v.schedules);
        let s = v.schedules[k];
        if now < s.next_payout_time {
            (v, Err(CustomError::PayoutTimeNotReached))
        } else {
            (
                VaultModel {
                    schedules: v.schedules.update(
                        k,
                        PayoutSchedule {
                            next_payout_time: (s.next_payout_time + s.interval) as i64,
                            ..s
                        },
                    ),
                    ..v
                },
                Ok(payout(caller, s.amount)),
            )
        }
    }
}

impl VaultState {
    /// Schedules a recurring payout: `amount` per `interval` seconds, first
    /// claimable at `start_time`. Admin only; amount and interval must be
    /// positive, `start_time` strictly after `now`, the payee known, and
    /// the schedule list below capacity. On failure nothing changes.
    pub fn schedule_payout(
        &mut self,
        caller: Identity,
        payee: Identity,
        amount: u64,
        start_time: i64,
        interval: i64,
        now: i64,
    ) -> (r: Result<(), CustomError>)
        requires
            old(self).wf(),
        ensures
            final(self).wf(),
            ({
                let (m, res) = spec_schedule_payout(
                    old(self)@,
                    caller,
                    payee,
                    amount,
                    start_time,
                    interval,
                    now,
                );
                final(self)@ == m && r == res
            }),
    {
        if caller != self.admin {
            return Err(CustomError::UnauthorizedAdmin);
        }
        if amount == 0 {
            return Err(CustomError::InvalidPayoutSchedule);
        }
        if interval <= 0 {
            return Err(CustomError::InvalidPayoutSchedule);
        }
        if start_time <= now {
            return Err(CustomError::InvalidPayoutSchedule);
        }
        if !contains_identity(&self.payees, payee) {
            return Err(CustomError::PayeeNotFound);
        }
        if self.payout_schedules.len() >= MAX_SCHEDULES {
            return Err(CustomError::MaxSchedulesReached);
        }
        self.payout_schedules.push(
            PayoutSchedule { amount, next_payout_time: start_time, interval, is_active: true },
        );
        Ok(())
    }

    /// Cancels the first still-active schedule in scan order, whoever it was
    /// meant for; `payee` must merely be a known payee. Admin only; fails
    /// with `ScheduleNotFound` when no schedule is active.
    pub fn cancel_payout(&mut self, caller: Identity, payee: Identity) -> (r: Result<
        (),
        CustomError,
    >)
        requires
            old(self).wf(),
        ensures
            final(self).wf(),
            ({
                let (m, res) = spec_cancel_payout(old(self)@, caller, payee);
                final(self)@ == m && r == res
            }),
    {
        if caller != self.admin {
            return Err(CustomError::UnauthorizedAdmin);
        }
        if !contains_identity(&self.payees, payee) {
            return Err(CustomError::PayeeNotFound);
        }
        match find_first_active(&self.payout_schedules) {
            None => Err(CustomError::ScheduleNotFound),
            Some(k) => {
                proof {
                    lemma_first_active_is(old(self)@.schedules, k as int);
                }
                let s = self.payout_schedules[k];
                self.payout_schedules[k] = PayoutSchedule {
                    amount: s.amount,
                    next_payout_time: s.next_payout_time,
                    interval: s.interval,
                    is_active: false,
                };
                proof {
                    let q0 = old(self)@.schedules;
                    let q1 = self@.schedules;
                    assert forall|a: int| 0 <= a < q1.len() implies wf_schedule(q1[a]) by {
                        if a != k {
                            assert(q1[a] == q0[a]);
                        }
                    }
                }
                Ok(())
            },
        }
    }

    /// Claims the first active schedule in scan order — not matched to the
    /// caller's identity. The caller must be a known payee and the
    /// schedule's next payout time must have arrived; the payout is the
    /// schedule's amount, and its next payout time advances by exactly one
    /// interval, not to `now` plus the interval, so infrequent claimers
    /// accumulate a backlog of fixed-size catch-up claims.
    pub fn claim_payout(&mut self, caller: Identity, now: i64) -> (r: Result<
        TransferRequest,
        CustomError,
    >)
        requires
            old(self).wf(),
            claim_advance_fits(old(self)@, caller, now),
        ensures
            final(self).wf(),
            ({
                let (m, res) = spec_claim_payout(old(self)@, caller, now);
                final(self)@ == m && r == res
            }),
    {
        if !contains_identity(&self.payees, caller) {
            return Err(CustomError::UnauthorizedPayee);
        }
        match find_first_active(&self.payout_schedules) {
            None => Err(CustomError::ScheduleNotFound),
            Some(k) => {
                proof {
                    lemma_first_active_is(old(self)@.schedules, k as int);
                }
                let s = self.payout_schedules[k];
                if now < s.next_payout_time {
                    return Err(CustomError::PayoutTimeNotReached);
                }
                assert(claim_ready(old(self)@, caller, now));
                assert(wf_schedule(old(self)@.schedules[k as int]));
                self.payout_schedules[k] = PayoutSchedule {
                    amount: s.amount,
                    next_payout_time: s.next_payout_time + s.interval,
                    interval: s.interval,
                    is_active: s.is_active,
                };
                proof {
                    let q0 = old(self)@.schedules;
                    let q1 = self@.schedules;
                    assert forall|a: int| 0 <= a < q1.len() implies wf_schedule(q1[a]) by {
                        if a != k {
                            assert(q1[a] == q0[a]);
                        }
                    }
                }
                Ok(TransferRequest {
                    source: crate::controller::Party::Custody,
                    dest: crate::controller::Party::Principal(caller),
                    amount: s.amount,
                })
            },
        }
    }
}

} // verus!
