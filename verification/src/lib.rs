//! A custody policy engine: one administrator, a bounded set of authorized
//! payees, per-payee rolling spending limits, and recurring payout schedules.
//! Every operation checks the caller's role and the policy before asking the
//! surrounding code to move any value; the value movement itself is described
//! by a returned transfer request and is carried out by the caller.

pub mod controller;
pub mod errors;
pub mod laws;
pub mod limiter;
pub mod registry;
pub mod scheduler;
pub mod state;

pub use controller::{Party, Role, TransferRequest};
pub use errors::CustomError;
pub use state::{EpochLimitEntry, EpochSpending, Identity, PayoutSchedule, VaultModel, VaultState};
