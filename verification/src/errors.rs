//! The error taxonomy of the vault. Every operation either succeeds or
//! aborts with exactly one of these kinds, with no partial mutation.

use vstd::prelude::*;

verus! {

/// One error kind per way an operation can be refused. A failed operation
/// leaves the vault state exactly as it was.
#[derive(Clone, Copy, Debug, PartialEq, Eq, Structural)]
pub enum CustomError {
    /// A second creation attempt on a vault that already exists.
    AlreadyInitialized,
    /// An administration operation attempted by someone other than the admin.
    UnauthorizedAdmin,
    /// The payee set is already at capacity.
    MaxPayeesReached,
    /// The identity is already an authorized payee.
    PayeeAlreadyExists,
    /// The named identity is not an authorized payee.
    PayeeNotFound,
    /// A withdrawal or claim attempted by someone who is neither the admin
    /// nor an authorized payee.
    UnauthorizedPayee,
    /// A payout schedule with a non-positive amount or interval, or a start
    /// time that is not in the future.
    InvalidPayoutSchedule,
    /// The schedule list is already at capacity.
    MaxSchedulesReached,
    /// No active payout schedule exists.
    ScheduleNotFound,
    /// The active schedule's next payout time has not arrived yet.
    PayoutTimeNotReached,
    /// The withdrawal would push the payee's spending in the current window
    /// over the configured limit.
    EpochSpendingLimitReached,
    /// A spending limit with a non-positive limit or window duration.
    InvalidEpochConfig,
}

} // verus!
