//! Recurring payout schedules: creation, cancellation and claiming.

use devquest_vault::{CustomError, Identity, Party, VaultState};

fn ident(n: u64) -> Identity {
    Identity::new(n, 0, 0, 0)
}

fn vault_with_payee() -> (VaultState, Identity, Identity) {
    let mut v = VaultState::new();
    let admin = ident(1);
    let payee = ident(2);
    v.initialize(admin, 100).unwrap();
    v.add_payee(admin, payee).unwrap();
    (v, admin, payee)
}

#[test]
fn schedule_payout_validates_its_arguments() {
    let (mut v, admin, payee) = vault_with_payee();
    assert_eq!(
        v.schedule_payout(payee, payee, 50, 100, 10, 0),
        Err(CustomError::UnauthorizedAdmin)
    );
    assert_eq!(
        v.schedule_payout(admin, payee, 0, 100, 10, 0),
        Err(CustomError::InvalidPayoutSchedule)
    );
    assert_eq!(
        v.schedule_payout(admin, payee, 50, 100, 0, 0),
        Err(CustomError::InvalidPayoutSchedule)
    );
    assert_eq!(
        v.schedule_payout(admin, ident(50), 50, 100, 10, 0),
        Err(CustomError::PayeeNotFound)
    );
    assert_eq!(v.payout_schedules.len(), 0);
}

#[test]
fn schedule_payout_rejects_a_start_time_not_in_the_future() {
    let (mut v, admin, payee) = vault_with_payee();
    // start_time == now
    assert_eq!(
        v.schedule_payout(admin, payee, 50, 100, 10, 100),
        Err(CustomError::InvalidPayoutSchedule)
    );
    // start_time < now
    assert_eq!(
        v.schedule_payout(admin, payee, 50, 99, 10, 100),
        Err(CustomError::InvalidPayoutSchedule)
    );
    // start_time > now
    assert!(v.schedule_payout(admin, payee, 50, 101, 10, 100).is_ok());
}

#[test]
fn sixth_schedule_fails_with_max_schedules_reached() {
    let (mut v, admin, payee) = vault_with_payee();
    for k in 0..5 {
        v.schedule_payout(admin, payee, 50 + k, 100, 10, 0).unwrap();
    }
    assert_eq!(
        v.schedule_payout(admin, payee, 99, 100, 10, 0),
        Err(CustomError::MaxSchedulesReached)
    );
    assert_eq!(v.payout_schedules.len(), 5);
}

#[test]
fn new_schedule_starts_active_at_its_start_time() {
    let (mut v, admin, payee) = vault_with_payee();
    v.schedule_payout(admin, payee, 50, 1_000, 60, 0).unwrap();
    let s = v.payout_schedules[0];
    assert_eq!(s.amount, 50);
    assert_eq!(s.next_payout_time, 1_000);
    assert_eq!(s.interval, 60);
    assert!(s.is_active);
}

#[test]
fn claim_requires_a_known_payee_and_an_active_schedule() {
    let (mut v, admin, payee) = vault_with_payee();
    assert_eq!(v.claim_payout(ident(99), 0), Err(CustomError::UnauthorizedPayee));
    assert_eq!(v.claim_payout(payee, 0), Err(CustomError::ScheduleNotFound));
    v.schedule_payout(admin, payee, 50, 100, 10, 0).unwrap();
    v.cancel_payout(admin, payee).unwrap();
    assert_eq!(v.claim_payout(payee, 200), Err(CustomError::ScheduleNotFound));
}

#[test]
fn claim_before_the_payout_time_fails_and_changes_nothing() {
    let (mut v, admin, payee) = vault_with_payee();
    v.schedule_payout(admin, payee, 50, 100, 10, 0).unwrap();
    assert_eq!(v.claim_payout(payee, 99), Err(CustomError::PayoutTimeNotReached));
    assert_eq!(v.payout_schedules[0].next_payout_time, 100);
}

#[test]
fn claim_at_the_payout_time_pays_and_advances_by_exactly_one_interval() {
    let (mut v, admin, payee) = vault_with_payee();
    v.schedule_payout(admin, payee, 50, 100, 10, 0).unwrap();
    // Claim late, at t=105: the next time still becomes 110, not 115.
    let t = v.claim_payout(payee, 105).unwrap();
    assert_eq!(t.amount, 50);
    assert_eq!(t.source, Party::Custody);
    assert_eq!(t.dest, Party::Principal(payee));
    assert_eq!(v.payout_schedules[0].next_payout_time, 110);
    assert!(v.payout_schedules[0].is_active);
}

#[test]
fn infrequent_claims_catch_up_one_interval_at_a_time() {
    let (mut v, admin, payee) = vault_with_payee();
    v.schedule_payout(admin, payee, 50, 10, 10, 0).unwrap();
    // At t=35 three intervals have passed since the start time; each claim
    // pays one fixed amount and advances the cadence by one interval.
    assert_eq!(v.claim_payout(payee, 35).unwrap().amount, 50);
    assert_eq!(v.payout_schedules[0].next_payout_time, 20);
    assert_eq!(v.claim_payout(payee, 35).unwrap().amount, 50);
    assert_eq!(v.payout_schedules[0].next_payout_time, 30);
    assert_eq!(v.claim_payout(payee, 35).unwrap().amount, 50);
    assert_eq!(v.payout_schedules[0].next_payout_time, 40);
    assert_eq!(v.claim_payout(payee, 35), Err(CustomError::PayoutTimeNotReached));
}

#[test]
fn claim_takes_the_first_active_schedule_not_the_callers_own() {
    let (mut v, admin, p1) = vault_with_payee();
    let p2 = ident(3);
    v.add_payee(admin, p2).unwrap();
    v.schedule_payout(admin, p1, 50, 100, 10, 0).unwrap();
    v.schedule_payout(admin, p2, 60, 100, 10, 0).unwrap();
    // p2 claims, but the first active schedule is the one meant for p1.
    let t = v.claim_payout(p2, 100).unwrap();
    assert_eq!(t.amount, 50);
    assert_eq!(t.dest, Party::Principal(p2));
}

#[test]
fn cancel_payout_deactivates_the_first_active_schedule() {
    let (mut v, admin, payee) = vault_with_payee();
    assert_eq!(v.cancel_payout(payee, payee), Err(CustomError::UnauthorizedAdmin));
    assert_eq!(v.cancel_payout(admin, ident(50)), Err(CustomError::PayeeNotFound));
    assert_eq!(v.cancel_payout(admin, payee), Err(CustomError::ScheduleNotFound));
    v.schedule_payout(admin, payee, 50, 100, 10, 0).unwrap();
    v.schedule_payout(admin, payee, 60, 100, 10, 0).unwrap();
    v.cancel_payout(admin, payee).unwrap();
    assert!(!v.payout_schedules[0].is_active);
    assert!(v.payout_schedules[1].is_active);
    // A claim now pays the second schedule, the first still active.
    assert_eq!(v.claim_payout(payee, 100).unwrap().amount, 60);
    // Cancelling again deactivates the second.
    v.cancel_payout(admin, payee).unwrap();
    assert!(!v.payout_schedules[1].is_active);
    // With nothing active left, cancelling fails.
    assert_eq!(v.cancel_payout(admin, payee), Err(CustomError::ScheduleNotFound));
}
