//! The rolling per-window spending cap: admin configuration of a payee's
//! limit and the reset-then-check-then-commit step applied on every limited
//! withdrawal.

use vstd::prelude::*;

use crate::errors::CustomError;
use crate::state::{
    contains_identity, find_limit_index, has_limit, lemma_limit_index_is, limit_index,
    wf_spending, EpochLimitEntry, EpochSpending, Identity, VaultModel, VaultState,
};

verus! {

/// Whether the spending window of `e` has elapsed by `now`.
pub open spec fn epoch_elapsed(e: EpochSpending, now: i64) -> bool {
    now >= e.epoch_start + e.duration
}

/// The record after the rolling reset: a fresh window starting at `now` with
/// nothing spent if the old window has elapsed, otherwise unchanged. Unspent
/// capacity of the old window is forfeited, never carried over.
pub open spec fn rolled(e: EpochSpending, now: i64) -> EpochSpending {
    if epoch_elapsed(e, now) {
        EpochSpending { epoch_start: now, spent_amount: 0, ..e }
    } else {
        e
    }
}

/// What one limited withdrawal does to a spending record: after the rolling
/// reset, the request is refused if it would push the window's spending over
/// the cap, and otherwise committed together with the reset.
pub open spec fn spec_record_spend(e: EpochSpending, amount: u64, now: i64) -> Result<
    EpochSpending,
    CustomError,
> {
    let e1 = rolled(e, now);
    if e1.spent_amount + amount > e1.limit {
        Err(CustomError::EpochSpendingLimitReached)
    } else {
        Ok(EpochSpending { spent_amount: (e1.spent_amount + amount) as u64, ..e1 })
    }
}

/// What `set_epoch_limit` does: the admin replaces, or creates, the named
/// payee's spending record with a fresh window of the given cap and length
/// starting at `now`; any partially spent current window is discarded.
pub open spec fn spec_set_epoch_limit(
    v: VaultModel,
    caller: Identity,
    payee: Identity,
    limit: u64,
    duration: i64,
    now: i64,
) -> (VaultModel, Result<(), CustomError>) {
    if caller != v.admin {
        (v, Err(CustomError::UnauthorizedAdmin))
    } else if duration <= 0 {
        (v, Err(CustomError::InvalidEpochConfig))
    } else if limit == 0 {
        (v, Err(CustomError::InvalidEpochConfig))
    } else if !v.payees.contains(payee) {
        (v, Err(CustomError::PayeeNotFound))
    } else {
        let fresh = EpochSpending { epoch_start: now, spent_amount: 0, limit, duration };
        let entry = EpochLimitEntry { payee, spending: fresh };
        let limits1 = if has_limit(v.limits, payee) {
            v.limits.update(limit_index(v.limits, payee), entry)
        } else {
            v.limits.push(entry)
        };
        (VaultModel { limits: limits1, ..v }, Ok(()))
    }
}

impl EpochSpending {
    /// Applies one limited withdrawal of `amount` at time `now` to this
    /// record: rolling reset first, then the cap check, then the commit.
    pub fn record_spend(&self, amount: u64, now: i64) -> (r: Result<EpochSpending, CustomError>)
        requires
            wf_spending(*self),
        ensures
            r == spec_record_spend(*self, amount, now),
            r matches Ok(e2) ==> wf_spending(e2),
    {
        let elapsed: bool = (now as i128) >= (self.epoch_start as i128) + (self.duration as i128);
        let start: i64 = if elapsed { now } else { self.epoch_start };
        let spent: u64 = if elapsed { 0 } else { self.spent_amount };
        if amount > self.limit - spent {
            Err(CustomError::EpochSpendingLimitReached)
        } else {
            Ok(
                EpochSpending {
                    epoch_start: start,
                    spent_amount: spent + amount,
                    limit: self.limit,
                    duration: self.duration,
                },
            )
        }
    }
}

impl VaultState {
    /// Configures the spending limit of `payee`: a cap of `limit` per window
    /// of `duration` seconds, with a fresh window starting at `now`. Admin
    /// only; both values must be positive and the payee must be known. On
    /// failure nothing changes.
    pub fn set_epoch_limit(
        &mut self,
        caller: Identity,
        payee: Identity,
        limit: u64,
        duration: i64,
        now: i64,
    ) -> (r: Result<(), CustomError>)
        requires
            old(self).wf(),
        ensures
            final(self).wf(),
            ({
                let (m, res) = spec_set_epoch_limit(old(self)@, caller, payee, limit, duration, now);
                final(self)@ == m && r == res
            }),
    {
        if caller != self.admin {
            return Err(CustomError::UnauthorizedAdmin);
        }
        if duration <= 0 {
            return Err(CustomError::InvalidEpochConfig);
        }
        if limit == 0 {
            return Err(CustomError::InvalidEpochConfig);
        }
        if !contains_identity(&self.payees, payee) {
            return Err(CustomError::PayeeNotFound);
        }
        let fresh = EpochSpending { epoch_start: now, spent_amount: 0, limit, duration };
        let entry = EpochLimitEntry { payee, spending: fresh };
        match find_limit_index(&self.epoch_limits, payee) {
            Some(i) => {
                proof {
                    lemma_limit_index_is(old(self)@.limits, payee, i as int);
                }
                self.epoch_limits[i] = entry;
            },
            None => {
                self.epoch_limits.push(entry);
                proof {
                    let s0 = old(self)@.limits;
                    let s1 = self@.limits;
                    assert forall|a: int, b: int|
                        0 <= a < b < s1.len() implies s1[a].payee != s1[b].payee by {
                        if b == s0.len() {
                            assert(s1[a] == s0[a]);
                        }
                    }
                }
            },
        }
        Ok(())
    }
}

} // verus!
