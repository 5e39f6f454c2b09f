//! The parking ledger, end to end: tickets, passes, fines, revenue, the
//! guard and withdrawals.

use parking_ledger::admin::{
    approve_withdrawal, check_approve_withdrawal, cancel_withdrawal, check_admin_status, get_contract_config,
    get_withdrawal_proposal, propose_withdrawal, require_admin, require_multi_admin,
    update_annual_price, update_hourly_price,
};
use parking_ledger::annual::{
    check_purchase_annual_pass, check_renew_annual_pass, exit_annual_parking, get_annual_pass_info, is_annual_pass_valid, park_with_annual_pass,
    purchase_annual_pass, renew_annual_pass,
};
use parking_ledger::errors::ParkingError;
use parking_ledger::fines::{
    apply_overdue_penalty, check_apply_overdue_penalty, check_pay_fine, calculate_fine_amount, get_fine_age, get_fine_info,
    has_outstanding_fine, is_fine_overdue, issue_fine, pay_fine,
};
use parking_ledger::hourly::{
    check_exit_hourly_parking, check_purchase_hourly_ticket, exit_hourly_parking, get_parking_ticket, payment_covers, purchase_hourly_ticket,
};
use parking_ledger::ledger::ParkingContract;
use parking_ledger::storage::{
    add_revenue, clear_reentrancy_guard, get_annual_price, get_fine, get_hourly_price,
    get_ticket, get_total_revenue, has_active_ticket, has_unpaid_fine, has_valid_annual_pass,
    initialize_contract, is_admin, is_initialized, remove_fine, remove_ticket, revenue_fits,
    set_annual_price, set_hourly_price, set_reentrancy_guard, store_annual_pass, store_fine,
    store_ticket, withdraw_revenue,
};
use parking_ledger::sweep::PlateStatus;
use parking_ledger::types::{
    Address, AnnualPass, FineReason, FineRecord, ParkingConfig, ParkingTicket, Plate,
    WithdrawalProposal,
};

const HOUR: u64 = 3600;
const YEAR: u64 = 31_536_000;
const THIRTY_DAYS: u64 = 2_592_000;
const T0: u64 = 1_700_000_000;

fn plate(text: &str) -> Plate {
    Plate::new(text).unwrap()
}

fn admins() -> (Address, Address, Address) {
    (Address::new("GADMIN-A"), Address::new("GADMIN-B"), Address::new("GADMIN-C"))
}

/// A ledger initialized with hourly price 100, annual price 5000, 10 spots.
fn ledger() -> ParkingContract {
    let mut c = ParkingContract::new();
    let (a, b, d) = admins();
    assert_eq!(initialize_contract(&mut c, a, b, d, 100, 5000, 10), Ok(()));
    c
}

/// At most one of ticket, valid pass and fine for the plate.
fn exclusive(c: &ParkingContract, p: &Plate, now: u64) -> bool {
    let held = [has_active_ticket(c, p), has_valid_annual_pass(c, p, now), has_unpaid_fine(c, p)];
    held.iter().filter(|h| **h).count() <= 1
}

#[test]
fn a_new_ledger_is_empty_and_uninitialized() {
    let c = ParkingContract::new();
    assert!(!is_initialized(&c));
    assert_eq!(get_total_revenue(&c), 0);
    assert_eq!(get_hourly_price(&c), Err(ParkingError::NotInitialized));
    assert_eq!(get_annual_price(&c), Err(ParkingError::NotInitialized));
    assert!(!is_admin(&c, &Address::new("GADMIN-A")));
    assert!(!c.guard);
    assert_eq!(get_ticket(&c, &plate("ABC123")), None);
}

#[test]
fn initialize_sets_admins_prices_and_zero_revenue() {
    let c = ledger();
    let (a, b, d) = admins();
    assert!(is_initialized(&c));
    assert!(is_admin(&c, &a) && is_admin(&c, &b) && is_admin(&c, &d));
    assert!(!is_admin(&c, &Address::new("GSOMEONE")));
    assert_eq!(get_hourly_price(&c), Ok(100));
    assert_eq!(get_annual_price(&c), Ok(5000));
    assert_eq!(
        get_contract_config(&c, &a),
        Ok(ParkingConfig { hourly_price: 100, annual_price: 5000, total_spots: 10, total_revenue: 0 })
    );
    assert_eq!(c.get_parking_info().total_spots, 10);
}

#[test]
fn initialize_twice_fails_and_keeps_the_first_setup() {
    let mut c = ledger();
    let r = initialize_contract(
        &mut c,
        Address::new("X"),
        Address::new("Y"),
        Address::new("Z"),
        1,
        2,
        3,
    );
    assert_eq!(r, Err(ParkingError::AlreadyInitialized));
    assert_eq!(get_hourly_price(&c), Ok(100));
    assert!(!is_admin(&c, &Address::new("X")));
}

#[test]
fn scenario_purchase_then_immediate_exit() {
    let mut c = ledger();
    let p = plate("ABC123");
    assert_eq!(purchase_hourly_ticket(&mut c, &p, 2, 200, T0), Ok(()));
    assert_eq!(get_total_revenue(&c), 200);
    assert_eq!(
        get_parking_ticket(&c, &p),
        Some(ParkingTicket {
            plate: plate("ABC123"),
            entry_time: T0,
            hours_paid: 2,
            amount_paid: 200,
            has_exited: false,
        })
    );
    assert_eq!(exit_hourly_parking(&mut c, &p, T0), Ok(()));
    assert_eq!(get_ticket(&c, &p), None);
    assert_eq!(get_total_revenue(&c), 200);
    assert!(!has_unpaid_fine(&c, &p));
    assert!(!c.guard);
}

#[test]
fn scenario_expired_exit_issues_fine_then_fine_is_paid() {
    let mut c = ledger();
    let p = plate("ABC123");
    assert_eq!(purchase_hourly_ticket(&mut c, &p, 2, 200, T0), Ok(()));
    let later = T0 + 3 * HOUR;
    assert_eq!(exit_hourly_parking(&mut c, &p, later), Err(ParkingError::TicketExpired));
    assert_eq!(get_ticket(&c, &p), None);
    assert_eq!(
        get_fine(&c, &p),
        Some(FineRecord {
            plate: plate("ABC123"),
            issue_time: later,
            fine_amount: 200,
            is_paid: false,
            reason: FineReason::Expired,
        })
    );
    assert_eq!(get_total_revenue(&c), 200);
    assert!(!c.guard);
    assert_eq!(pay_fine(&mut c, &p, 200), Ok(()));
    assert_eq!(get_fine_info(&c, &p), None);
    assert_eq!(get_total_revenue(&c), 400);
}

#[test]
fn scenario_withdrawal_needs_a_second_admin() {
    let mut c = ledger();
    let (a, b, _) = admins();
    add_revenue(&mut c, 1000);
    assert_eq!(propose_withdrawal(&mut c, &a, 300, Address::new("GRECIPIENT"), T0), Ok(()));
    assert_eq!(get_total_revenue(&c), 1000);
    assert_eq!(approve_withdrawal(&mut c, &a), Err(ParkingError::NotAdmin));
    assert_eq!(get_total_revenue(&c), 1000);
    assert!(get_withdrawal_proposal(&c, &a).unwrap().is_some());
    assert_eq!(approve_withdrawal(&mut c, &b), Ok(()));
    assert_eq!(get_total_revenue(&c), 700);
    assert_eq!(get_withdrawal_proposal(&c, &a), Ok(None));
}

#[test]
fn hours_outside_one_to_twenty_four_are_refused() {
    let mut c = ledger();
    let p = plate("ABC123");
    for hours in [0u32, 25, 26, 1000, u32::MAX] {
        assert_eq!(
            purchase_hourly_ticket(&mut c, &p, hours, i128::MAX, T0),
            Err(ParkingError::InvalidHours)
        );
        assert_eq!(get_ticket(&c, &p), None);
        assert_eq!(get_total_revenue(&c), 0);
        assert!(!c.guard);
    }
}

#[test]
fn invalid_hours_win_over_later_refusals() {
    let mut c = ParkingContract::new();
    let p = plate("ABC123");
    assert_eq!(purchase_hourly_ticket(&mut c, &p, 0, 0, T0), Err(ParkingError::InvalidHours));
    assert_eq!(purchase_hourly_ticket(&mut c, &p, 1, 0, T0), Err(ParkingError::NotInitialized));
}

#[test]
fn one_and_twenty_four_hours_are_accepted() {
    let mut c = ledger();
    assert_eq!(purchase_hourly_ticket(&mut c, &plate("ONE"), 1, 100, T0), Ok(()));
    assert_eq!(purchase_hourly_ticket(&mut c, &plate("DAY"), 24, 2400, T0), Ok(()));
    assert_eq!(get_total_revenue(&c), 2500);
}

#[test]
fn payment_must_cover_price_times_hours() {
    let mut c = ledger();
    let p = plate("ABC123");
    assert_eq!(
        purchase_hourly_ticket(&mut c, &p, 3, 299, T0),
        Err(ParkingError::InsufficientPayment)
    );
    assert_eq!(get_ticket(&c, &p), None);
    assert_eq!(get_total_revenue(&c), 0);
    assert_eq!(purchase_hourly_ticket(&mut c, &p, 3, 300, T0), Ok(()));
    assert_eq!(get_total_revenue(&c), 300);
}

#[test]
fn overpayment_is_kept_whole() {
    let mut c = ledger();
    let p = plate("ABC123");
    assert_eq!(purchase_hourly_ticket(&mut c, &p, 1, 175, T0), Ok(()));
    assert_eq!(get_total_revenue(&c), 175);
    assert_eq!(get_ticket(&c, &p).unwrap().amount_paid, 175);
}

#[test]
fn payment_covers_compares_over_the_integers() {
    assert!(payment_covers(100, 2, 200));
    assert!(!payment_covers(100, 2, 199));
    assert!(payment_covers(0, 24, 0));
    assert!(!payment_covers(i128::MAX, 2, i128::MAX));
    assert!(payment_covers(i128::MAX, 1, i128::MAX));
    assert!(payment_covers(i128::MIN, 2, i128::MIN));
    assert!(payment_covers(-5, 3, -15));
    assert!(!payment_covers(-5, 3, -16));
}

#[test]
fn a_second_ticket_for_the_same_plate_is_refused() {
    let mut c = ledger();
    let p = plate("ABC123");
    assert_eq!(purchase_hourly_ticket(&mut c, &p, 1, 100, T0), Ok(()));
    assert_eq!(purchase_hourly_ticket(&mut c, &p, 1, 100, T0 + 1), Err(ParkingError::AlreadyParked));
    assert_eq!(get_total_revenue(&c), 100);
    assert_eq!(get_ticket(&c, &p).unwrap().entry_time, T0);
}

#[test]
fn tickets_are_kept_per_plate() {
    let mut c = ledger();
    assert_eq!(purchase_hourly_ticket(&mut c, &plate("AAA"), 1, 100, T0), Ok(()));
    assert_eq!(purchase_hourly_ticket(&mut c, &plate("BBB"), 2, 200, T0 + 5), Ok(()));
    assert_eq!(get_ticket(&c, &plate("AAA")).unwrap().hours_paid, 1);
    assert_eq!(get_ticket(&c, &plate("BBB")).unwrap().hours_paid, 2);
    assert_eq!(exit_hourly_parking(&mut c, &plate("AAA"), T0 + 10), Ok(()));
    assert!(!has_active_ticket(&c, &plate("AAA")));
    assert!(has_active_ticket(&c, &plate("BBB")));
}

#[test]
fn a_valid_pass_blocks_a_ticket() {
    let mut c = ledger();
    let p = plate("PASS1");
    assert_eq!(purchase_annual_pass(&mut c, &p, 5000, T0), Ok(()));
    assert_eq!(
        purchase_hourly_ticket(&mut c, &p, 1, 100, T0 + 10),
        Err(ParkingError::AlreadyParked)
    );
    assert_eq!(
        purchase_hourly_ticket(&mut c, &p, 1, 100, T0 + YEAR - 1),
        Err(ParkingError::AlreadyParked)
    );
    assert_eq!(get_total_revenue(&c), 5000);
    assert_eq!(purchase_hourly_ticket(&mut c, &p, 1, 100, T0 + YEAR), Ok(()));
}

#[test]
fn an_outstanding_fine_blocks_tickets_and_passes() {
    let mut c = ledger();
    let p = plate("FINED");
    assert_eq!(issue_fine(&mut c, &p, 200, T0), Ok(()));
    assert_eq!(
        purchase_hourly_ticket(&mut c, &p, 1, 100, T0),
        Err(ParkingError::FinePaymentRequired)
    );
    assert_eq!(purchase_annual_pass(&mut c, &p, 5000, T0), Err(ParkingError::FinePaymentRequired));
    assert_eq!(renew_annual_pass(&mut c, &p, 5000, T0), Err(ParkingError::FinePaymentRequired));
    assert_eq!(get_total_revenue(&c), 0);
    assert_eq!(pay_fine(&mut c, &p, 200), Ok(()));
    assert_eq!(purchase_hourly_ticket(&mut c, &p, 1, 100, T0), Ok(()));
}

#[test]
fn exit_one_second_before_expiry_succeeds_without_fine() {
    let mut c = ledger();
    let p = plate("ABC123");
    assert_eq!(purchase_hourly_ticket(&mut c, &p, 2, 200, T0), Ok(()));
    assert_eq!(exit_hourly_parking(&mut c, &p, T0 + 2 * HOUR - 1), Ok(()));
    assert!(!has_unpaid_fine(&c, &p));
    assert!(!has_active_ticket(&c, &p));
}

#[test]
fn exit_at_the_last_paid_second_succeeds() {
    let mut c = ledger();
    let p = plate("ABC123");
    assert_eq!(purchase_hourly_ticket(&mut c, &p, 2, 200, T0), Ok(()));
    assert_eq!(exit_hourly_parking(&mut c, &p, T0 + 2 * HOUR), Ok(()));
    assert!(!has_unpaid_fine(&c, &p));
}

#[test]
fn exit_one_second_after_expiry_fails_and_fines_twice_the_hourly_price() {
    let mut c = ledger();
    let p = plate("ABC123");
    assert_eq!(update_hourly_price(&mut c, &admins().0, 70), Ok(()));
    assert_eq!(purchase_hourly_ticket(&mut c, &p, 2, 140, T0), Ok(()));
    assert_eq!(
        exit_hourly_parking(&mut c, &p, T0 + 2 * HOUR + 1),
        Err(ParkingError::TicketExpired)
    );
    let fine = get_fine(&c, &p).unwrap();
    assert_eq!(fine.fine_amount, 140);
    assert_eq!(fine.issue_time, T0 + 2 * HOUR + 1);
    assert!(!has_active_ticket(&c, &p));
    assert_eq!(get_total_revenue(&c), 140);
}

#[test]
fn exit_before_the_entry_time_is_not_expired() {
    let mut c = ledger();
    let p = plate("ABC123");
    assert_eq!(purchase_hourly_ticket(&mut c, &p, 1, 100, T0), Ok(()));
    assert_eq!(exit_hourly_parking(&mut c, &p, T0 - 50), Ok(()));
}

#[test]
fn expiry_is_computed_without_overflow_near_the_end_of_time() {
    let mut c = ledger();
    let p = plate("ABC123");
    assert_eq!(purchase_hourly_ticket(&mut c, &p, 24, 2400, u64::MAX - 10), Ok(()));
    assert_eq!(exit_hourly_parking(&mut c, &p, u64::MAX), Ok(()));
}

#[test]
fn exit_without_a_ticket_is_not_parked() {
    let mut c = ledger();
    let p = plate("NOBODY");
    assert_eq!(exit_hourly_parking(&mut c, &p, T0), Err(ParkingError::NotParked));
    assert!(!c.guard);
    assert!(!has_unpaid_fine(&c, &p));
}

#[test]
fn paying_exactly_the_fine_clears_it() {
    let mut c = ledger();
    let p = plate("FINED");
    assert_eq!(issue_fine(&mut c, &p, 250, T0), Ok(()));
    assert_eq!(pay_fine(&mut c, &p, 250), Ok(()));
    assert!(!has_outstanding_fine(&c, &p));
    assert_eq!(get_total_revenue(&c), 250);
}

#[test]
fn paying_one_less_than_the_fine_fails_and_the_fine_remains() {
    let mut c = ledger();
    let p = plate("FINED");
    assert_eq!(issue_fine(&mut c, &p, 250, T0), Ok(()));
    assert_eq!(pay_fine(&mut c, &p, 249), Err(ParkingError::InsufficientPayment));
    assert!(has_outstanding_fine(&c, &p));
    assert_eq!(get_fine(&c, &p).unwrap().fine_amount, 250);
    assert_eq!(get_total_revenue(&c), 0);
    assert!(!c.guard);
}

#[test]
fn paying_a_fine_that_does_not_exist_is_not_parked() {
    let mut c = ledger();
    assert_eq!(pay_fine(&mut c, &plate("CLEAN"), 1000), Err(ParkingError::NotParked));
    assert_eq!(get_total_revenue(&c), 0);
    assert!(!c.guard);
}

#[test]
fn a_second_fine_for_the_same_plate_is_refused() {
    let mut c = ledger();
    let p = plate("FINED");
    assert_eq!(issue_fine(&mut c, &p, 250, T0), Ok(()));
    assert_eq!(issue_fine(&mut c, &p, 999, T0 + 1), Err(ParkingError::AlreadyParked));
    assert_eq!(get_fine(&c, &p).unwrap().fine_amount, 250);
}

#[test]
fn taking_the_guard_twice_fails_the_second_time() {
    let mut c = ledger();
    assert_eq!(set_reentrancy_guard(&mut c), Ok(()));
    assert_eq!(set_reentrancy_guard(&mut c), Err(ParkingError::ReentrancyDetected));
    assert!(c.guard);
    clear_reentrancy_guard(&mut c);
    assert_eq!(set_reentrancy_guard(&mut c), Ok(()));
}

#[test]
fn clearing_a_free_guard_is_harmless() {
    let mut c = ledger();
    clear_reentrancy_guard(&mut c);
    assert!(!c.guard);
    assert_eq!(set_reentrancy_guard(&mut c), Ok(()));
}

#[test]
fn guarded_operations_are_refused_while_the_guard_is_held() {
    let mut c = ledger();
    let p = plate("ABC123");
    let (a, _, _) = admins();
    assert_eq!(issue_fine(&mut c, &plate("FINED"), 10, T0), Ok(()));
    assert_eq!(set_reentrancy_guard(&mut c), Ok(()));
    let refused = Err(ParkingError::ReentrancyDetected);
    assert_eq!(purchase_hourly_ticket(&mut c, &p, 0, 0, T0), refused);
    assert_eq!(purchase_hourly_ticket(&mut c, &p, 1, 100, T0), refused);
    assert_eq!(exit_hourly_parking(&mut c, &p, T0), refused);
    assert_eq!(purchase_annual_pass(&mut c, &p, 5000, T0), refused);
    assert_eq!(renew_annual_pass(&mut c, &p, 5000, T0), refused);
    assert_eq!(pay_fine(&mut c, &plate("FINED"), 10), refused);
    assert_eq!(c.process_expired_tickets(&a, &vec![plate("ABC123")], T0), refused);
    assert!(c.guard);
    assert_eq!(get_total_revenue(&c), 0);
    assert!(has_unpaid_fine(&c, &plate("FINED")));
}

#[test]
fn purchase_pass_stores_it_and_adds_revenue() {
    let mut c = ledger();
    let p = plate("PASS1");
    assert_eq!(purchase_annual_pass(&mut c, &p, 5000, T0), Ok(()));
    assert_eq!(
        get_annual_pass_info(&c, &p),
        Some(AnnualPass { plate: plate("PASS1"), purchase_time: T0, amount_paid: 5000 })
    );
    assert_eq!(get_total_revenue(&c), 5000);
    assert!(is_annual_pass_valid(&c, &p, T0));
}

#[test]
fn purchase_pass_refusals() {
    let mut c = ledger();
    let p = plate("PASS1");
    assert_eq!(purchase_annual_pass(&mut c, &p, 4999, T0), Err(ParkingError::InsufficientPayment));
    assert_eq!(purchase_annual_pass(&mut c, &p, 5000, T0), Ok(()));
    assert_eq!(purchase_annual_pass(&mut c, &p, 5000, T0 + 1), Err(ParkingError::AlreadyParked));
    let q = plate("TICKET");
    assert_eq!(purchase_hourly_ticket(&mut c, &q, 1, 100, T0), Ok(()));
    assert_eq!(purchase_annual_pass(&mut c, &q, 5000, T0), Err(ParkingError::AlreadyParked));
    assert_eq!(get_total_revenue(&c), 5100);
    let mut fresh = ParkingContract::new();
    assert_eq!(purchase_annual_pass(&mut fresh, &p, 5000, T0), Err(ParkingError::NotInitialized));
}

#[test]
fn a_pass_is_valid_for_exactly_a_year() {
    let mut c = ledger();
    let p = plate("PASS1");
    assert_eq!(purchase_annual_pass(&mut c, &p, 5000, T0), Ok(()));
    assert!(has_valid_annual_pass(&c, &p, T0));
    assert!(has_valid_annual_pass(&c, &p, T0 + YEAR - 1));
    assert!(!has_valid_annual_pass(&c, &p, T0 + YEAR));
    assert!(has_valid_annual_pass(&c, &p, T0 - 1));
    assert_eq!(exit_annual_parking(&c, &p, T0 + YEAR - 1), Ok(()));
    assert_eq!(exit_annual_parking(&c, &p, T0 + YEAR), Err(ParkingError::NotParked));
    assert!(get_annual_pass_info(&c, &p).is_some());
}

#[test]
fn pass_validity_does_not_overflow_near_the_end_of_time() {
    let mut c = ledger();
    let p = plate("PASS1");
    assert_eq!(purchase_annual_pass(&mut c, &p, 5000, u64::MAX - 5), Ok(()));
    assert!(has_valid_annual_pass(&c, &p, u64::MAX));
}

#[test]
fn exit_on_a_pass_leaves_the_pass_in_place() {
    let mut c = ledger();
    let p = plate("PASS1");
    assert_eq!(exit_annual_parking(&c, &p, T0), Err(ParkingError::NotParked));
    assert_eq!(purchase_annual_pass(&mut c, &p, 5000, T0), Ok(()));
    assert_eq!(exit_annual_parking(&c, &p, T0 + 100), Ok(()));
    assert_eq!(exit_annual_parking(&c, &p, T0 + 200), Ok(()));
    assert_eq!(get_annual_pass_info(&c, &p).unwrap().purchase_time, T0);
}

#[test]
fn exit_on_a_pass_does_not_look_at_fines_but_entry_does() {
    let mut c = ledger();
    let p = plate("PASS1");
    assert_eq!(purchase_annual_pass(&mut c, &p, 5000, T0), Ok(()));
    assert_eq!(park_with_annual_pass(&c, &p, T0 + 1), Ok(()));
    assert_eq!(issue_fine(&mut c, &p, 50, T0 + 2), Ok(()));
    assert_eq!(park_with_annual_pass(&c, &p, T0 + 3), Err(ParkingError::FinePaymentRequired));
    assert_eq!(exit_annual_parking(&c, &p, T0 + 3), Ok(()));
    assert_eq!(park_with_annual_pass(&c, &plate("NONE"), T0), Err(ParkingError::NotParked));
}

#[test]
fn renewal_overwrites_the_purchase_time() {
    let mut c = ledger();
    let p = plate("PASS1");
    assert_eq!(purchase_annual_pass(&mut c, &p, 5000, T0), Ok(()));
    assert_eq!(renew_annual_pass(&mut c, &p, 4999, T0 + 10), Err(ParkingError::InsufficientPayment));
    assert_eq!(get_annual_pass_info(&c, &p).unwrap().purchase_time, T0);
    assert_eq!(renew_annual_pass(&mut c, &p, 6000, T0 + YEAR + 7), Ok(()));
    assert_eq!(
        get_annual_pass_info(&c, &p),
        Some(AnnualPass { plate: plate("PASS1"), purchase_time: T0 + YEAR + 7, amount_paid: 6000 })
    );
    assert_eq!(get_total_revenue(&c), 11000);
    assert!(has_valid_annual_pass(&c, &p, T0 + 2 * YEAR));
    let mut fresh = ParkingContract::new();
    assert_eq!(renew_annual_pass(&mut fresh, &p, 5000, T0), Err(ParkingError::NotInitialized));
}

#[test]
fn at_most_one_of_ticket_pass_and_fine_along_a_run() {
    let mut c = ledger();
    let (a, _, _) = admins();
    let plates = [plate("CAR-A"), plate("CAR-B"), plate("CAR-C")];
    let mut now = T0;
    let check = |c: &ParkingContract, now: u64| {
        for p in [plate("CAR-A"), plate("CAR-B"), plate("CAR-C")].iter() {
            assert!(exclusive(c, p, now));
        }
    };
    check(&c, now);
    assert_eq!(purchase_hourly_ticket(&mut c, &plates[0], 1, 100, now), Ok(()));
    check(&c, now);
    assert_eq!(purchase_annual_pass(&mut c, &plates[1], 5000, now), Ok(()));
    check(&c, now);
    assert!(purchase_annual_pass(&mut c, &plates[0], 5000, now).is_err());
    assert!(purchase_hourly_ticket(&mut c, &plates[1], 1, 100, now).is_err());
    check(&c, now);
    now += 2 * HOUR;
    let all = vec![plate("CAR-A"), plate("CAR-B"), plate("CAR-C")];
    assert_eq!(c.process_expired_tickets(&a, &all, now), Ok(()));
    check(&c, now);
    assert_eq!(c.check_parking_status(&plates[0], now), PlateStatus::HasFine);
    assert_eq!(c.check_parking_status(&plates[1], now), PlateStatus::HasPass);
    assert_eq!(c.check_parking_status(&plates[2], now), PlateStatus::Free);
    assert!(purchase_hourly_ticket(&mut c, &plates[0], 1, 100, now).is_err());
    check(&c, now);
    assert_eq!(pay_fine(&mut c, &plates[0], 200), Ok(()));
    check(&c, now);
    assert_eq!(purchase_hourly_ticket(&mut c, &plates[0], 1, 100, now), Ok(()));
    assert_eq!(c.check_parking_status(&plates[0], now), PlateStatus::HasTicket);
    check(&c, now);
    now += YEAR;
    check(&c, now);
}

#[test]
fn revenue_is_the_sum_of_accepted_payments() {
    let mut c = ledger();
    let calls: [(&str, u32, i128); 6] =
        [("A", 1, 100), ("B", 2, 150), ("C", 3, 300), ("A", 1, 100), ("D", 0, 500), ("E", 24, 2500)];
    let mut expected: i128 = 0;
    let mut previous = get_total_revenue(&c);
    for (text, hours, payment) in calls {
        if purchase_hourly_ticket(&mut c, &plate(text), hours, payment, T0).is_ok() {
            expected += payment;
        }
        assert!(get_total_revenue(&c) >= previous);
        previous = get_total_revenue(&c);
    }
    if purchase_annual_pass(&mut c, &plate("F"), 5001, T0).is_ok() {
        expected += 5001;
    }
    if purchase_annual_pass(&mut c, &plate("G"), 10, T0).is_ok() {
        expected += 10;
    }
    assert_eq!(expected, 100 + 300 + 2500 + 5001);
    assert_eq!(get_total_revenue(&c), expected);
}

#[test]
fn revenue_accessors() {
    let mut c = ParkingContract::new();
    add_revenue(&mut c, 40);
    add_revenue(&mut c, 2);
    assert_eq!(get_total_revenue(&c), 42);
    assert_eq!(withdraw_revenue(&mut c, 43), Err(ParkingError::InsufficientRevenue));
    assert_eq!(get_total_revenue(&c), 42);
    assert_eq!(withdraw_revenue(&mut c, 42), Ok(()));
    assert_eq!(get_total_revenue(&c), 0);
    assert!(revenue_fits(&c, i128::MAX));
    add_revenue(&mut c, 1);
    assert!(!revenue_fits(&c, i128::MAX));
    assert!(revenue_fits(&c, i128::MAX - 1));
}

#[test]
fn only_admins_change_prices_and_zero_is_refused() {
    let mut c = ledger();
    let (a, b, _) = admins();
    let stranger = Address::new("GSOMEONE");
    assert_eq!(update_hourly_price(&mut c, &stranger, 150), Err(ParkingError::NotAdmin));
    assert_eq!(update_hourly_price(&mut c, &a, 0), Err(ParkingError::InsufficientPayment));
    assert_eq!(get_hourly_price(&c), Ok(100));
    assert_eq!(update_hourly_price(&mut c, &a, 150), Ok(()));
    assert_eq!(get_hourly_price(&c), Ok(150));
    assert_eq!(get_annual_price(&c), Ok(5000));
    assert_eq!(update_annual_price(&mut c, &stranger, 1), Err(ParkingError::NotAdmin));
    assert_eq!(update_annual_price(&mut c, &b, 0), Err(ParkingError::InsufficientPayment));
    assert_eq!(update_annual_price(&mut c, &b, 7000), Ok(()));
    assert_eq!(get_annual_price(&c), Ok(7000));
    assert_eq!(set_hourly_price(&mut c, &stranger, 5), Err(ParkingError::NotAdmin));
    assert_eq!(set_hourly_price(&mut c, &b, 5), Ok(()));
    assert_eq!(set_annual_price(&mut c, &stranger, 5), Err(ParkingError::NotAdmin));
    assert_eq!(set_annual_price(&mut c, &b, 6), Ok(()));
    assert_eq!(c.get_parking_info().hourly_price, 5);
    assert_eq!(c.get_parking_info().annual_price, 6);
}

#[test]
fn price_updates_need_an_initialized_ledger() {
    let mut c = ParkingContract::new();
    let (a, _, _) = admins();
    assert_eq!(update_hourly_price(&mut c, &a, 150), Err(ParkingError::NotInitialized));
    assert_eq!(update_annual_price(&mut c, &a, 150), Err(ParkingError::NotInitialized));
    assert_eq!(
        propose_withdrawal(&mut c, &a, 0, Address::new("R"), T0),
        Err(ParkingError::NotInitialized)
    );
    assert_eq!(approve_withdrawal(&mut c, &a), Err(ParkingError::NotInitialized));
}

#[test]
fn admin_checks() {
    let c = ledger();
    let (a, b, _) = admins();
    let stranger = Address::new("GSOMEONE");
    assert!(check_admin_status(&c, &a));
    assert!(!check_admin_status(&c, &stranger));
    assert_eq!(require_admin(&c, &b), Ok(()));
    assert_eq!(require_admin(&c, &stranger), Err(ParkingError::NotAdmin));
    assert_eq!(require_multi_admin(&c, &a, &b), Ok(()));
    assert_eq!(require_multi_admin(&c, &a, &a), Err(ParkingError::MultiAuthRequired));
    assert_eq!(require_multi_admin(&c, &a, &stranger), Err(ParkingError::MultiAuthRequired));
    assert_eq!(require_multi_admin(&c, &stranger, &b), Err(ParkingError::MultiAuthRequired));
    assert_eq!(get_contract_config(&c, &stranger), Err(ParkingError::NotAdmin));
    assert_eq!(get_withdrawal_proposal(&c, &stranger), Err(ParkingError::NotAdmin));
}

#[test]
fn proposal_refusals() {
    let mut c = ledger();
    let (a, _, _) = admins();
    add_revenue(&mut c, 100);
    assert_eq!(
        propose_withdrawal(&mut c, &Address::new("GSOMEONE"), 10, Address::new("R"), T0),
        Err(ParkingError::NotAdmin)
    );
    assert_eq!(
        propose_withdrawal(&mut c, &a, 101, Address::new("R"), T0),
        Err(ParkingError::InsufficientRevenue)
    );
    assert_eq!(get_withdrawal_proposal(&c, &a), Ok(None));
    assert_eq!(propose_withdrawal(&mut c, &a, 100, Address::new("R"), T0), Ok(()));
    assert_eq!(
        get_withdrawal_proposal(&c, &a),
        Ok(Some(WithdrawalProposal {
            proposer: Address::new("GADMIN-A"),
            amount: 100,
            recipient: Address::new("R"),
            timestamp: T0,
        }))
    );
}

#[test]
fn approval_refusals() {
    let mut c = ledger();
    let (a, b, _) = admins();
    add_revenue(&mut c, 100);
    assert_eq!(approve_withdrawal(&mut c, &b), Err(ParkingError::NotParked));
    assert_eq!(propose_withdrawal(&mut c, &a, 100, Address::new("R"), T0), Ok(()));
    assert_eq!(approve_withdrawal(&mut c, &Address::new("GSOMEONE")), Err(ParkingError::NotAdmin));
    assert_eq!(withdraw_revenue(&mut c, 1), Ok(()));
    assert_eq!(approve_withdrawal(&mut c, &b), Err(ParkingError::InsufficientRevenue));
    assert_eq!(get_total_revenue(&c), 99);
    assert!(get_withdrawal_proposal(&c, &a).unwrap().is_some());
    add_revenue(&mut c, 1);
    assert_eq!(approve_withdrawal(&mut c, &b), Ok(()));
    assert_eq!(get_total_revenue(&c), 0);
    assert_eq!(approve_withdrawal(&mut c, &b), Err(ParkingError::NotParked));
}

#[test]
fn only_the_proposer_cancels() {
    let mut c = ledger();
    let (a, b, _) = admins();
    add_revenue(&mut c, 100);
    assert_eq!(cancel_withdrawal(&mut c, &a), Err(ParkingError::NotParked));
    assert_eq!(propose_withdrawal(&mut c, &a, 50, Address::new("R"), T0), Ok(()));
    assert_eq!(cancel_withdrawal(&mut c, &Address::new("GSOMEONE")), Err(ParkingError::NotAdmin));
    assert_eq!(cancel_withdrawal(&mut c, &b), Err(ParkingError::NotAdmin));
    assert!(get_withdrawal_proposal(&c, &a).unwrap().is_some());
    assert_eq!(cancel_withdrawal(&mut c, &a), Ok(()));
    assert_eq!(get_withdrawal_proposal(&c, &a), Ok(None));
    assert_eq!(get_total_revenue(&c), 100);
}

#[test]
fn fine_age_and_overdue_threshold() {
    let mut c = ledger();
    let p = plate("FINED");
    assert_eq!(get_fine_age(&c, &p, T0), 0);
    assert!(!is_fine_overdue(&c, &p, T0 + 10 * THIRTY_DAYS));
    assert_eq!(issue_fine(&mut c, &p, 200, T0), Ok(()));
    assert_eq!(get_fine_age(&c, &p, T0 + 77), 77);
    assert_eq!(get_fine_age(&c, &p, T0 - 5), 0);
    assert!(!is_fine_overdue(&c, &p, T0 + THIRTY_DAYS));
    assert!(is_fine_overdue(&c, &p, T0 + THIRTY_DAYS + 1));
}

#[test]
fn overdue_penalty_doubles_the_fine() {
    let mut c = ledger();
    let (a, _, _) = admins();
    let p = plate("FINED");
    assert_eq!(issue_fine(&mut c, &p, 200, T0), Ok(()));
    let late = T0 + THIRTY_DAYS + 1;
    assert_eq!(
        apply_overdue_penalty(&mut c, &Address::new("GSOMEONE"), &p, late),
        Err(ParkingError::NotAdmin)
    );
    assert_eq!(apply_overdue_penalty(&mut c, &a, &p, T0 + THIRTY_DAYS), Err(ParkingError::NotParked));
    assert_eq!(apply_overdue_penalty(&mut c, &a, &plate("CLEAN"), late), Err(ParkingError::NotParked));
    assert_eq!(get_fine(&c, &p).unwrap().fine_amount, 200);
    assert_eq!(set_reentrancy_guard(&mut c), Ok(()));
    assert_eq!(apply_overdue_penalty(&mut c, &a, &p, late), Err(ParkingError::ReentrancyDetected));
    assert_eq!(get_fine(&c, &p).unwrap().fine_amount, 200);
    clear_reentrancy_guard(&mut c);
    assert_eq!(apply_overdue_penalty(&mut c, &a, &p, late), Ok(()));
    assert!(!c.guard);
    assert_eq!(
        get_fine(&c, &p),
        Some(FineRecord {
            plate: plate("FINED"),
            issue_time: T0,
            fine_amount: 400,
            is_paid: false,
            reason: FineReason::Overdue,
        })
    );
    assert_eq!(pay_fine(&mut c, &p, 399), Err(ParkingError::InsufficientPayment));
    assert_eq!(pay_fine(&mut c, &p, 400), Ok(()));
}

#[test]
fn a_fine_is_doubled_once_only() {
    let mut c = ledger();
    let (a, b, _) = admins();
    let p = plate("FINED");
    assert_eq!(issue_fine(&mut c, &p, 200, T0), Ok(()));
    let late = T0 + THIRTY_DAYS + 1;
    assert_eq!(apply_overdue_penalty(&mut c, &a, &p, late), Ok(()));
    assert_eq!(get_fine(&c, &p).unwrap().fine_amount, 400);
    assert_eq!(get_fine(&c, &p).unwrap().reason, FineReason::Overdue);
    assert_eq!(apply_overdue_penalty(&mut c, &a, &p, late), Err(ParkingError::NotParked));
    assert_eq!(apply_overdue_penalty(&mut c, &b, &p, late + 10 * THIRTY_DAYS), Err(ParkingError::NotParked));
    assert_eq!(check_apply_overdue_penalty(&c, &a, &p, late), Err(ParkingError::NotParked));
    assert_eq!(get_fine(&c, &p).unwrap().fine_amount, 400);
    assert_eq!(get_fine(&c, &p).unwrap().issue_time, T0);
    assert!(!c.guard);
    assert_eq!(pay_fine(&mut c, &p, 400), Ok(()));
    assert_eq!(issue_fine(&mut c, &p, 50, late), Ok(()));
    assert_eq!(apply_overdue_penalty(&mut c, &a, &p, late + THIRTY_DAYS + 1), Ok(()));
    assert_eq!(get_fine(&c, &p).unwrap().fine_amount, 100);
}

#[test]
fn renewal_is_refused_for_a_plate_with_a_ticket() {
    let mut c = ledger();
    let p = plate("ABC123");
    assert_eq!(purchase_hourly_ticket(&mut c, &p, 2, 200, 1000), Ok(()));
    assert_eq!(renew_annual_pass(&mut c, &p, 5000, 1000), Err(ParkingError::AlreadyParked));
    assert_eq!(get_annual_pass_info(&c, &p), None);
    assert!(has_active_ticket(&c, &p));
    assert!(!has_valid_annual_pass(&c, &p, 1000));
    assert_eq!(get_total_revenue(&c), 200);
    assert!(!c.guard);
    assert!(exclusive(&c, &p, 1000));
}

#[test]
fn renewal_beside_a_ticket_is_refused_even_with_a_pass_that_ran_out() {
    let mut c = ledger();
    let p = plate("ABC123");
    assert_eq!(purchase_annual_pass(&mut c, &p, 5000, T0), Ok(()));
    let later = T0 + YEAR;
    assert_eq!(purchase_hourly_ticket(&mut c, &p, 1, 100, later), Ok(()));
    assert_eq!(renew_annual_pass(&mut c, &p, 5000, later), Err(ParkingError::AlreadyParked));
    assert_eq!(get_annual_pass_info(&c, &p).unwrap().purchase_time, T0);
    assert!(exclusive(&c, &p, later));
    assert_eq!(exit_hourly_parking(&mut c, &p, later), Ok(()));
    assert_eq!(renew_annual_pass(&mut c, &p, 5000, later), Ok(()));
    assert!(has_valid_annual_pass(&c, &p, later));
}

#[test]
fn checks_tell_the_outcome_and_change_nothing() {
    let mut c = ledger();
    let (a, b, _) = admins();
    let p = plate("ABC123");
    assert_eq!(check_purchase_hourly_ticket(&c, &p, 0, i128::MAX, T0), Err(ParkingError::InvalidHours));
    assert_eq!(check_purchase_hourly_ticket(&c, &p, 2, 199, T0), Err(ParkingError::InsufficientPayment));
    assert_eq!(check_purchase_hourly_ticket(&c, &p, 2, 200, T0), Ok(()));
    assert_eq!(get_ticket(&c, &p), None);
    assert_eq!(check_exit_hourly_parking(&c, &p, T0), Err(ParkingError::NotParked));
    assert_eq!(purchase_hourly_ticket(&mut c, &p, 2, 200, T0), Ok(()));
    assert_eq!(check_exit_hourly_parking(&c, &p, T0 + 2 * HOUR), Ok(()));
    assert_eq!(check_exit_hourly_parking(&c, &p, T0 + 2 * HOUR + 1), Err(ParkingError::TicketExpired));
    assert!(has_active_ticket(&c, &p));
    assert_eq!(check_purchase_annual_pass(&c, &p, 5000, T0), Err(ParkingError::AlreadyParked));
    assert_eq!(check_renew_annual_pass(&c, &p, 5000), Err(ParkingError::AlreadyParked));
    assert_eq!(check_purchase_annual_pass(&c, &plate("OTHER"), 5000, T0), Ok(()));
    assert_eq!(check_renew_annual_pass(&c, &plate("OTHER"), 4999), Err(ParkingError::InsufficientPayment));
    assert_eq!(check_pay_fine(&c, &p, 1), Err(ParkingError::NotParked));
    assert_eq!(issue_fine(&mut c, &plate("FINED"), 50, T0), Ok(()));
    assert_eq!(check_pay_fine(&c, &plate("FINED"), 49), Err(ParkingError::InsufficientPayment));
    assert_eq!(check_pay_fine(&c, &plate("FINED"), 50), Ok(()));
    let late = T0 + THIRTY_DAYS + 1;
    assert_eq!(check_apply_overdue_penalty(&c, &a, &plate("FINED"), late - 1), Err(ParkingError::NotParked));
    assert_eq!(check_apply_overdue_penalty(&c, &a, &plate("FINED"), late), Ok(()));
    assert_eq!(get_fine(&c, &plate("FINED")).unwrap().fine_amount, 50);
    assert_eq!(check_approve_withdrawal(&c, &b), Err(ParkingError::NotParked));
    assert_eq!(propose_withdrawal(&mut c, &a, 100, Address::new("R"), T0), Ok(()));
    assert_eq!(check_approve_withdrawal(&c, &a), Err(ParkingError::NotAdmin));
    assert_eq!(check_approve_withdrawal(&c, &b), Ok(()));
    assert_eq!(get_total_revenue(&c), 200);
    assert_eq!(c.check_process_expired_tickets(&a), Ok(()));
    assert_eq!(c.check_process_expired_tickets(&Address::new("GSOMEONE")), Err(ParkingError::NotAdmin));
    let list = vec![plate("NONE"), plate("ABC123")];
    assert!(!c.any_expired(&list, T0 + 2 * HOUR));
    assert!(c.any_expired(&list, T0 + 2 * HOUR + 1));
    assert!(!c.any_expired(&vec![plate("NONE")], T0 + 9 * HOUR));
    assert_eq!(set_reentrancy_guard(&mut c), Ok(()));
    assert_eq!(check_pay_fine(&c, &plate("FINED"), 50), Err(ParkingError::ReentrancyDetected));
    assert_eq!(c.check_process_expired_tickets(&a), Err(ParkingError::ReentrancyDetected));
}

#[test]
fn graded_fine_is_twice_the_price_plus_the_price_per_hour() {
    let c = ledger();
    assert_eq!(calculate_fine_amount(&c, 0), Ok(200));
    assert_eq!(calculate_fine_amount(&c, 3), Ok(500));
    assert_eq!(calculate_fine_amount(&ParkingContract::new(), 3), Err(ParkingError::NotInitialized));
}

#[test]
fn sweep_fines_expired_tickets_only() {
    let mut c = ledger();
    let (a, _, _) = admins();
    assert_eq!(purchase_hourly_ticket(&mut c, &plate("OLD"), 1, 100, T0), Ok(()));
    assert_eq!(purchase_hourly_ticket(&mut c, &plate("NEW"), 5, 500, T0), Ok(()));
    assert_eq!(purchase_hourly_ticket(&mut c, &plate("UNLISTED"), 1, 100, T0), Ok(()));
    let now = T0 + HOUR + 1;
    let list = vec![plate("OLD"), plate("NEW"), plate("ABSENT"), plate("OLD")];
    assert_eq!(
        c.process_expired_tickets(&Address::new("GSOMEONE"), &list, now),
        Err(ParkingError::NotAdmin)
    );
    assert!(has_active_ticket(&c, &plate("OLD")));
    assert_eq!(c.process_expired_tickets(&a, &list, now), Ok(()));
    assert!(!has_active_ticket(&c, &plate("OLD")));
    assert_eq!(
        get_fine(&c, &plate("OLD")),
        Some(FineRecord {
            plate: plate("OLD"),
            issue_time: now,
            fine_amount: 200,
            is_paid: false,
            reason: FineReason::Expired,
        })
    );
    assert!(has_active_ticket(&c, &plate("NEW")));
    assert!(!has_unpaid_fine(&c, &plate("NEW")));
    assert!(has_active_ticket(&c, &plate("UNLISTED")));
    assert!(!has_unpaid_fine(&c, &plate("UNLISTED")));
    assert!(!has_unpaid_fine(&c, &plate("ABSENT")));
    assert_eq!(get_total_revenue(&c), 700);
    assert!(!c.guard);
}

#[test]
fn sweep_of_nothing_changes_nothing() {
    let mut c = ledger();
    let (a, _, _) = admins();
    assert_eq!(purchase_hourly_ticket(&mut c, &plate("OLD"), 1, 100, T0), Ok(()));
    assert_eq!(c.process_expired_tickets(&a, &Vec::new(), T0 + 10 * HOUR), Ok(()));
    assert!(has_active_ticket(&c, &plate("OLD")));
    assert!(!has_unpaid_fine(&c, &plate("OLD")));
}

#[test]
fn status_prefers_fine_then_ticket_then_pass() {
    let mut c = ledger();
    let p = plate("ABC123");
    assert_eq!(c.check_parking_status(&p, T0), PlateStatus::Free);
    store_annual_pass(&mut c, &p, &AnnualPass { plate: plate("ABC123"), purchase_time: T0, amount_paid: 1 });
    assert_eq!(c.check_parking_status(&p, T0), PlateStatus::HasPass);
    assert_eq!(c.check_parking_status(&p, T0 + YEAR), PlateStatus::Free);
    store_ticket(
        &mut c,
        &p,
        &ParkingTicket { plate: plate("ABC123"), entry_time: T0, hours_paid: 1, amount_paid: 1, has_exited: false },
    );
    assert_eq!(c.check_parking_status(&p, T0), PlateStatus::HasTicket);
    store_fine(
        &mut c,
        &p,
        &FineRecord { plate: plate("ABC123"), issue_time: T0, fine_amount: 1, is_paid: false, reason: FineReason::NoTicket },
    );
    assert_eq!(c.check_parking_status(&p, T0), PlateStatus::HasFine);
    remove_fine(&mut c, &p);
    assert_eq!(c.check_parking_status(&p, T0), PlateStatus::HasTicket);
    remove_ticket(&mut c, &p);
    assert_eq!(c.check_parking_status(&p, T0), PlateStatus::HasPass);
}

#[test]
fn plates_longer_than_thirty_two_bytes_are_refused() {
    assert!(Plate::new("").is_ok());
    assert!(Plate::new("ABC123").is_ok());
    assert_eq!(Plate::new("ABC123").unwrap().as_str(), "ABC123");
    assert!(Plate::new("ABCDEFGHIJKLMNOPQRSTUVWXYZ012345").is_ok());
    assert_eq!(Plate::new("ABCDEFGHIJKLMNOPQRSTUVWXYZ0123456"), Err(ParkingError::PlateTooLong));
}

#[test]
fn plates_and_addresses_compare_by_text() {
    assert!(plate("ABC123").same(&plate("ABC123")));
    assert!(!plate("ABC123").same(&plate("ABC124")));
    assert!(!plate("ABC").same(&plate("ABC1")));
    assert!(Address::new("GA").same(&Address::new("GA")));
    assert!(!Address::new("GA").same(&Address::new("GB")));
    assert_eq!(Address::new("GA").as_str(), "GA");
    assert_eq!(plate("X").clone(), plate("X"));
}

#[test]
fn error_codes_are_one_to_fourteen() {
    let all = [
        ParkingError::NotAdmin,
        ParkingError::AlreadyParked,
        ParkingError::NotParked,
        ParkingError::TicketExpired,
        ParkingError::InsufficientPayment,
        ParkingError::InvalidHours,
        ParkingError::PlateTooLong,
        ParkingError::ReentrancyDetected,
        ParkingError::MultiAuthRequired,
        ParkingError::NotInitialized,
        ParkingError::AlreadyInitialized,
        ParkingError::InvalidAdmin,
        ParkingError::InsufficientRevenue,
        ParkingError::FinePaymentRequired,
    ];
    for (i, e) in all.iter().enumerate() {
        assert_eq!(e.code() as usize, i + 1);
    }
}
