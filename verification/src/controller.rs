//! The orchestrating entry points: initialize, deposit, withdraw and close.
//! Each one classifies the authenticated caller, applies the policy, and on
//! success describes the value movement as a [`TransferRequest`] for the
//! surrounding code to carry out. Any failure leaves the vault untouched and
//! requests no transfer.

use vstd::prelude::*;

use crate::errors::CustomError;
use crate::limiter::spec_record_spend;
use crate::state::{
    contains_identity, find_limit_index, has_limit, lemma_limit_index_is, limit_index,
    wf_spending, EpochLimitEntry, Identity, VaultModel, VaultState,
};

verus! {

/// One side of a transfer: the vault's pooled custody account, or an
/// authenticated principal.
#[derive(Clone, Copy, Debug, PartialEq, Eq, Structural)]
pub enum Party {
    Custody,
    Principal(Identity),
}

/// A value movement the policy core has approved and asks the surrounding
/// code to perform. The core never moves value itself; it only ever hands
/// one of these out, and only after every check has passed.
#[derive(Clone, Copy, Debug, PartialEq, Eq, Structural)]
pub struct TransferRequest {
    pub source: Party,
    pub dest: Party,
    pub amount: u64,
}

/// The caller's role with respect to one vault, computed once per operation
/// from the authenticated identity.
#[derive(Clone, Copy, Debug, PartialEq, Eq, Structural)]
pub enum Role {
    /// The vault's sole administrator.
    Admin,
    /// An authorized payee.
    Payee,
    /// Anyone else.
    Unauthorized,
}

/// The role of `caller` in vault `v`.
pub open spec fn spec_role(v: VaultModel, caller: Identity) -> Role {
    if caller == v.admin {
        Role::Admin
    } else if v.payees.contains(caller) {
        Role::Payee
    } else {
        Role::Unauthorized
    }
}

/// A transfer of `amount` out of custody to `to`.
pub open spec fn payout(to: Identity, amount: u64) -> TransferRequest {
    TransferRequest { source: Party::Custody, dest: Party::Principal(to), amount }
}

/// A transfer of `amount` from `from` into custody.
pub open spec fn funding(from: Identity, amount: u64) -> TransferRequest {
    TransferRequest { source: Party::Principal(from), dest: Party::Custody, amount }
}

/// What `initialize` does: on a not-yet-initialized record, the caller
/// becomes the admin, the payee set becomes empty, the record is marked
/// initialized, and the caller funds custody with the minimum value the
/// storage layer requires. A second call always fails: creation is not
/// idempotent.
pub open spec fn spec_initialize(v: VaultModel, caller: Identity, rent_exempt: u64) -> (
    VaultModel,
    Result<TransferRequest, CustomError>,
) {
    if v.is_initialized {
        (v, Err(CustomError::AlreadyInitialized))
    } else {
        (
            VaultModel { admin: caller, payees: Seq::empty(), is_initialized: true, ..v },
            Ok(funding(caller, rent_exempt)),
        )
    }
}

/// What `deposit` does: any caller funds custody with the given amount; the
/// core adds no check and no state change of its own.
pub open spec fn spec_deposit(caller: Identity, amount: u64) -> TransferRequest {
    funding(caller, amount)
}

/// What `withdraw` does: the admin withdraws unconditionally; a payee with
/// no configured limit withdraws unconditionally; a limited payee's request
/// goes through the rolling-window check of
/// [`spec_record_spend`]; anyone else is refused.
pub open spec fn spec_withdraw(v: VaultModel, caller: Identity, amount: u64, now: i64) -> (
    VaultModel,
    Result<TransferRequest, CustomError>,
) {
    match spec_role(v, caller) {
        Role::Unauthorized => (v, Err(CustomError::UnauthorizedPayee)),
        Role::Admin => (v, Ok(payout(caller, amount))),
        Role::Payee => {
            if !has_limit(v.limits, caller) {
                (v, Ok(payout(caller, amount)))
            } else {
                let i = limit_index(v.limits, caller);
                match spec_record_spend(v.limits[i].spending, amount, now) {
                    Err(e) => (v, Err(e)),
                    Ok(e2) => (
                        VaultModel {
                            limits: v.limits.update(
                                i,
                                EpochLimitEntry { payee: caller, spending: e2 },
                            ),
                            ..v
                        },
                        Ok(payout(caller, amount)),
                    ),
                }
            }
        },
    }
}

/// What `close` does: the admin is owed the entire remaining custody
/// balance; anyone else is refused and the record survives.
pub open spec fn spec_close(v: VaultModel, caller: Identity, custody_balance: u64) -> Result<
    TransferRequest,
    CustomError,
> {
    if caller != v.admin {
        Err(CustomError::UnauthorizedAdmin)
    } else {
        Ok(payout(v.admin, custody_balance))
    }
}

impl VaultState {
    /// Classifies `caller`: the admin, an authorized payee, or neither.
    pub fn role_of(&self, caller: Identity) -> (r: Role)
        ensures
            r == spec_role(self@, caller),
    {
        if caller == self.admin {
            Role::Admin
        } else if contains_identity(&self.payees, caller) {
            Role::Payee
        } else {
            Role::Unauthorized
        }
    }

    /// Creates the vault: the caller becomes the sole admin and must fund
    /// custody with `rent_exempt`, the minimum the storage layer requires
    /// for the record to persist. Fails with `AlreadyInitialized` on a
    /// record that was already created.
    pub fn initialize(&mut self, caller: Identity, rent_exempt: u64) -> (r: Result<
        TransferRequest,
        CustomError,
    >)
        requires
            old(self).wf(),
        ensures
            final(self).wf(),
            ({
                let (m, res) = spec_initialize(old(self)@, caller, rent_exempt);
                final(self)@ == m && r == res
            }),
    {
        if self.is_initialized {
            return Err(CustomError::AlreadyInitialized);
        }
        self.admin = caller;
        self.payees = Vec::new();
        self.is_initialized = true;
        Ok(TransferRequest {
            source: Party::Principal(caller),
            dest: Party::Custody,
            amount: rent_exempt,
        })
    }

    /// Deposits `amount` into custody. Open to any principal; the core
    /// performs no validation and changes nothing, it only describes the
    /// transfer. Whether the caller can fund it is for the transfer
    /// primitive to decide.
    pub fn deposit(&self, caller: Identity, amount: u64) -> (t: TransferRequest)
        ensures
            t == spec_deposit(caller, amount),
    {
        TransferRequest { source: Party::Principal(caller), dest: Party::Custody, amount }
    }

    /// Withdraws `amount` from custody at time `now`. The admin is never
    /// limited; a payee is gated by their configured rolling spending limit,
    /// or unrestricted if none is configured; anyone else is refused. On
    /// failure nothing changes and no transfer is requested.
    pub fn withdraw(&mut self, caller: Identity, amount: u64, now: i64) -> (r: Result<
        TransferRequest,
        CustomError,
    >)
        requires
            old(self).wf(),
        ensures
            final(self).wf(),
            ({
                let (m, res) = spec_withdraw(old(self)@, caller, amount, now);
                final(self)@ == m && r == res
            }),
    {
        let role = self.role_of(caller);
        match role {
            Role::Unauthorized => Err(CustomError::UnauthorizedPayee),
            Role::Admin => Ok(TransferRequest {
                source: Party::Custody,
                dest: Party::Principal(caller),
                amount,
            }),
            Role::Payee => {
                match find_limit_index(&self.epoch_limits, caller) {
                    None => Ok(TransferRequest {
                        source: Party::Custody,
                        dest: Party::Principal(caller),
                        amount,
                    }),
                    Some(i) => {
                        proof {
                            lemma_limit_index_is(old(self)@.limits, caller, i as int);
                        }
                        let e = self.epoch_limits[i].spending;
                        match e.record_spend(amount, now) {
                            Err(err) => Err(err),
                            Ok(e2) => {
                                self.epoch_limits[i] = EpochLimitEntry {
                                    payee: caller,
                                    spending: e2,
                                };
                                proof {
                                    let s0 = old(self)@.limits;
                                    let s1 = self@.limits;
                                    assert forall|a: int, b: int|
                                        0 <= a < b < s1.len() implies s1[a].payee
                                        != s1[b].payee by {
                                        if a != i {
                                            assert(s1[a] == s0[a]);
                                        } else {
                                            assert(s1[a].payee == s0[a].payee);
                                        }
                                        if b != i {
                                            assert(s1[b] == s0[b]);
                                        } else {
                                            assert(s1[b].payee == s0[b].payee);
                                        }
                                    }
                                    assert forall|a: int|
                                        0 <= a < s1.len() implies wf_spending(
                                        s1[a].spending,
                                    ) by {
                                        if a != i {
                                            assert(s1[a] == s0[a]);
                                        }
                                    }
                                }
                                Ok(TransferRequest {
                                    source: Party::Custody,
                                    dest: Party::Principal(caller),
                                    amount,
                                })
                            },
                        }
                    },
                }
            },
        }
    }

    /// Destroys the vault, handing the entire remaining custody balance back
    /// to the admin. Admin only: any other caller is refused and given the
    /// record back untouched. On success the record is consumed, so no later
    /// operation can ever see this vault again.
    pub fn close(self, caller: Identity, custody_balance: u64) -> (r: Result<
        TransferRequest,
        (VaultState, CustomError),
    >)
        ensures
            ({
                let res = spec_close(self@, caller, custody_balance);
                match r {
                    Ok(t) => res == Ok::<TransferRequest, CustomError>(t),
                    Err((v, e)) => v == self && res == Err::<TransferRequest, CustomError>(e),
                }
            }),
    {
        if caller != self.admin {
            return Err((self, CustomError::UnauthorizedAdmin));
        }
        let admin = self.admin;
        Ok(TransferRequest {
            source: Party::Custody,
            dest: Party::Principal(admin),
            amount: custody_balance,
        })
    }
}

} // verus!
