//! Admin-only management of the authorized payee set: adding a payee within
//! capacity and removing one, with the documented cascade that removal also
//! drops the first active payout schedule, whoever it was meant for.

use vstd::prelude::*;

use crate::errors::CustomError;
use crate::state::{
    first_active, has_active, lemma_first_active_is, lemma_payee_index_is, payee_index,
    contains_identity, find_first_active, find_payee_index, Identity, VaultModel, VaultState,
    MAX_PAYEES,
};

verus! {

/// What `add_payee` does: the admin appends a new identity to the payee set,
/// refused at capacity or when the identity is already present.
pub open spec fn spec_add_payee(v: VaultModel, caller: Identity, payee: Identity) -> (VaultModel,
    Result<(), CustomError>) {
    if caller != v.admin {
        (v, Err(CustomError::UnauthorizedAdmin))
    } else if v.payees.len() >= MAX_PAYEES {
        (v, Err(CustomError::MaxPayeesReached))
    } else if v.payees.contains(payee) {
        (v, Err(CustomError::PayeeAlreadyExists))
    } else {
        (VaultModel { payees: v.payees.push(payee), ..v }, Ok(()))
    }
}

/// What `remove_payee` does: the admin removes a present identity from the
/// payee set. As a side effect the first active schedule, if any, is removed
/// as well; the data model does not bind a schedule to a payee, so no
/// identity match is attempted.
pub open spec fn spec_remove_payee(v: VaultModel, caller: Identity, payee: Identity) -> (
    VaultModel,
    Result<(), CustomError>,
) {
    if caller != v.admin {
        (v, Err(CustomError::UnauthorizedAdmin))
    } else if !v.payees.contains(payee) {
        (v, Err(CustomError::PayeeNotFound))
    } else {
        let payees1 = v.payees.remove(payee_index(v.payees, payee));
        let schedules1 = if has_active(v.schedules) {
            v.schedules.remove(first_active(v.schedules))
        } else {
            v.schedules
        };
        (VaultModel { payees: payees1, schedules: schedules1, ..v }, Ok(()))
    }
}

impl VaultState {
    /// Adds `payee` to the authorized set. Admin only; fails with
    /// `MaxPayeesReached` at capacity and `PayeeAlreadyExists` on a
    /// duplicate. On failure nothing changes.
    pub fn add_payee(&mut self, caller: Identity, payee: Identity) -> (r: Result<
        (),
        CustomError,
    >)
        requires
            old(self).wf(),
        ensures
            final(self).wf(),
            ({
                let (m, res) = spec_add_payee(old(self)@, caller, payee);
                final(self)@ == m && r == res
            }),
    {
        if caller != self.admin {
            return Err(CustomError::UnauthorizedAdmin);
        }
        if self.payees.len() >= MAX_PAYEES {
            return Err(CustomError::MaxPayeesReached);
        }
        if contains_identity(&self.payees, payee) {
            return Err(CustomError::PayeeAlreadyExists);
        }
        self.payees.push(payee);
        proof {
            let s0 = old(self)@.payees;
            let s1 = self@.payees;
            assert forall|i: int, j: int| 0 <= i < j < s1.len() implies s1[i] != s1[j] by {
                if j == s0.len() {
                    assert(s1[i] == s0[i]);
                    assert(s1[j] == payee);
                }
            }
        }
        Ok(())
    }

    /// Removes `payee` from the authorized set. Admin only; fails with
    /// `PayeeNotFound` when absent. On success also removes the first active
    /// payout schedule, if one exists, without checking whose it is.
    pub fn remove_payee(&mut self, caller: Identity, payee: Identity) -> (r: Result<
        (),
        CustomError,
    >)
        requires
            old(self).wf(),
        ensures
            final(self).wf(),
            ({
                let (m, res) = spec_remove_payee(old(self)@, caller, payee);
                final(self)@ == m && r == res
            }),
    {
        if caller != self.admin {
            return Err(CustomError::UnauthorizedAdmin);
        }
        match find_payee_index(&self.payees, payee) {
            None => Err(CustomError::PayeeNotFound),
            Some(i) => {
                proof {
                    assert(old(self)@.payees.contains(payee));
                    lemma_payee_index_is(old(self)@.payees, payee, i as int);
                }
                self.payees.remove(i);
                proof {
                    let s0 = old(self)@.payees;
                    let s1 = self@.payees;
                    s0.remove_ensures(i as int);
                    assert forall|a: int, b: int| 0 <= a < b < s1.len() implies s1[a] != s1[b] by {
                        assert(s1[a] == if a < i { s0[a] } else { s0[a + 1] });
                        assert(s1[b] == if b < i { s0[b] } else { s0[b + 1] });
                    }
                }
                match find_first_active(&self.payout_schedules) {
                    Some(k) => {
                        proof {
                            lemma_first_active_is(self.payout_schedules@, k as int);
                            assert(has_active(self.payout_schedules@));
                        }
                        self.payout_schedules.remove(k);
                        proof {
                            let q0 = old(self)@.schedules;
                            let q1 = self@.schedules;
                            q0.remove_ensures(k as int);
                            assert forall|a: int| 0 <= a < q1.len() implies crate::state::wf_schedule(
                                q1[a],
                            ) by {
                                assert(q1[a] == if a < k {
                                    q0[a]
                                } else {
                                    q0[a + 1]
                                });
                            }
                        }
                    },
                    None => {},
                }
                Ok(())
            },
        }
    }
}

} // verus!
