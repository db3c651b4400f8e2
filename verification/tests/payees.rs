//! Managing the authorized payee set.

use devquest_vault::{CustomError, Identity, VaultState};

fn ident(n: u64) -> Identity {
    Identity::new(n, 0, 0, 0)
}

fn vault_with_admin() -> (VaultState, Identity) {
    let mut v = VaultState::new();
    let admin = ident(1);
    v.initialize(admin, 100).unwrap();
    (v, admin)
}

#[test]
fn add_payee_appends_in_order() {
    let (mut v, admin) = vault_with_admin();
    v.add_payee(admin, ident(10)).unwrap();
    v.add_payee(admin, ident(11)).unwrap();
    v.add_payee(admin, ident(12)).unwrap();
    assert_eq!(v.payees, vec![ident(10), ident(11), ident(12)]);
}

#[test]
fn add_payee_is_admin_only() {
    let (mut v, _) = vault_with_admin();
    let r = v.add_payee(ident(10), ident(10));
    assert_eq!(r, Err(CustomError::UnauthorizedAdmin));
    assert_eq!(v.payees.len(), 0);
}

#[test]
fn sixth_payee_always_fails_with_max_payees_reached() {
    let (mut v, admin) = vault_with_admin();
    for n in 10..15 {
        v.add_payee(admin, ident(n)).unwrap();
    }
    assert_eq!(v.payees.len(), 5);
    assert_eq!(v.add_payee(admin, ident(15)), Err(CustomError::MaxPayeesReached));
    // At capacity even a duplicate is reported as the capacity failure,
    // because the capacity check comes first.
    assert_eq!(v.add_payee(admin, ident(12)), Err(CustomError::MaxPayeesReached));
    assert_eq!(v.payees.len(), 5);
}

#[test]
fn duplicate_payee_always_fails_whatever_its_position() {
    let (mut v, admin) = vault_with_admin();
    v.add_payee(admin, ident(10)).unwrap();
    v.add_payee(admin, ident(11)).unwrap();
    v.add_payee(admin, ident(12)).unwrap();
    assert_eq!(v.add_payee(admin, ident(10)), Err(CustomError::PayeeAlreadyExists));
    assert_eq!(v.add_payee(admin, ident(11)), Err(CustomError::PayeeAlreadyExists));
    assert_eq!(v.add_payee(admin, ident(12)), Err(CustomError::PayeeAlreadyExists));
    assert_eq!(v.payees.len(), 3);
}

#[test]
fn remove_payee_requires_presence() {
    let (mut v, admin) = vault_with_admin();
    assert_eq!(v.remove_payee(admin, ident(10)), Err(CustomError::PayeeNotFound));
    v.add_payee(admin, ident(10)).unwrap();
    assert_eq!(v.remove_payee(ident(10), ident(10)), Err(CustomError::UnauthorizedAdmin));
    v.remove_payee(admin, ident(10)).unwrap();
    assert_eq!(v.payees.len(), 0);
}

#[test]
fn remove_payee_keeps_the_others_in_order() {
    let (mut v, admin) = vault_with_admin();
    v.add_payee(admin, ident(10)).unwrap();
    v.add_payee(admin, ident(11)).unwrap();
    v.add_payee(admin, ident(12)).unwrap();
    v.remove_payee(admin, ident(11)).unwrap();
    assert_eq!(v.payees, vec![ident(10), ident(12)]);
}

#[test]
fn remove_payee_drops_the_first_active_schedule_even_of_another_payee() {
    let (mut v, admin) = vault_with_admin();
    let p1 = ident(10);
    let p2 = ident(11);
    v.add_payee(admin, p1).unwrap();
    v.add_payee(admin, p2).unwrap();
    // The only schedule was meant for p2, yet removing p1 takes it away:
    // schedules are not bound to a payee in the data model.
    v.schedule_payout(admin, p2, 50, 100, 10, 0).unwrap();
    assert_eq!(v.payout_schedules.len(), 1);
    v.remove_payee(admin, p1).unwrap();
    assert_eq!(v.payout_schedules.len(), 0);
}

#[test]
fn remove_payee_skips_inactive_schedules() {
    let (mut v, admin) = vault_with_admin();
    let p1 = ident(10);
    let p2 = ident(11);
    v.add_payee(admin, p1).unwrap();
    v.add_payee(admin, p2).unwrap();
    v.schedule_payout(admin, p1, 50, 100, 10, 0).unwrap();
    v.schedule_payout(admin, p2, 60, 100, 10, 0).unwrap();
    // Deactivate the first schedule; removal must then drop the second,
    // the first active one in scan order.
    v.cancel_payout(admin, p1).unwrap();
    v.remove_payee(admin, p1).unwrap();
    assert_eq!(v.payout_schedules.len(), 1);
    assert!(!v.payout_schedules[0].is_active);
    assert_eq!(v.payout_schedules[0].amount, 50);
}

#[test]
fn removing_a_payee_leaves_its_epoch_limit_entry_behind() {
    let (mut v, admin) = vault_with_admin();
    let p = ident(10);
    v.add_payee(admin, p).unwrap();
    v.set_epoch_limit(admin, p, 100, 86_400, 0).unwrap();
    v.remove_payee(admin, p).unwrap();
    // The limit list is only ever rewritten by set_epoch_limit; removal of
    // the payee does not touch it.
    assert_eq!(v.epoch_limits.len(), 1);
    assert_eq!(v.epoch_limits[0].payee, p);
}
