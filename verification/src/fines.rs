//! Fines: issuing, paying, ageing and the overdue penalty.

use crate::errors::ParkingError;
use crate::hourly::base_fine;
use crate::ledger::{accepted, exclusive_after_change_at, same_admins, LedgerView, ParkingContract};
use crate::storage::{
    add_revenue, clear_reentrancy_guard, get_fine, get_hourly_price, has_unpaid_fine, is_admin,
    remove_fine, set_reentrancy_guard, store_fine,
};
use crate::types::{Address, FineReason, FineRecord, Plate};
use vstd::prelude::*;

verus! {

/// The fine that `issue_fine` stores at `now`.
pub open spec fn issued_fine(plate: Plate, fine_amount: i128, now: u64) -> FineRecord {
    FineRecord { plate, issue_time: now, fine_amount, is_paid: false, reason: FineReason::Expired }
}

/// Issues a fine of `fine_amount` against `plate` at `now`.
///
/// Fails with `AlreadyParked`, and changes nothing, when the plate already
/// has an outstanding fine. It looks at nothing else: mutual exclusion is
/// kept for a plate that holds neither a ticket nor a valid pass.
pub fn issue_fine(c: &mut ParkingContract, plate: &Plate, fine_amount: i128, now: u64) -> (r: Result<
    (),
    ParkingError,
>)
    requires
        old(c).wf(),
    ensures
        final(c).wf(),
        old(c)@.has_fine(plate@) ==> r == Err::<(), ParkingError>(ParkingError::AlreadyParked)
            && *final(c) == *old(c),
        !old(c)@.has_fine(plate@) ==> r == Ok::<(), ParkingError>(()) && final(c)@ == (LedgerView {
            fines: old(c)@.fines.insert(plate@, issued_fine(*plate, fine_amount, now)),
            ..old(c)@
        }),
        old(c)@.exclusive(now) && !old(c)@.has_ticket(plate@) && !old(c)@.has_valid_pass(plate@, now)
            ==> final(c)@.exclusive(now),
{
    if has_unpaid_fine(c, plate) {
        return Err(ParkingError::AlreadyParked);
    }
    let fine = FineRecord {
        plate: plate.clone(),
        issue_time: now,
        fine_amount,
        is_paid: false,
        reason: FineReason::Expired,
    };
    store_fine(c, plate, &fine);
    proof {
        if old(c)@.exclusive(now) && !old(c)@.has_ticket(plate@) && !old(c)@.has_valid_pass(plate@, now) {
            exclusive_after_change_at(old(c)@, c@, plate@, now);
        }
    }
    Ok(())
}

/// What paying a fine comes to, the first refusal that applies winning.
pub open spec fn pay_fine_outcome(v: LedgerView, plate: Seq<char>, payment: i128) -> Result<
    (),
    ParkingError,
> {
    if v.guard {
        Err(ParkingError::ReentrancyDetected)
    } else if !v.has_fine(plate) {
        Err(ParkingError::NotParked)
    } else if payment < v.fines[plate].fine_amount {
        Err(ParkingError::InsufficientPayment)
    } else {
        Ok(())
    }
}

/// The ledger after a payment: without the fine and with the payment
/// booked when the payment is accepted, unchanged when it is refused.
pub open spec fn pay_fine_effect(v: LedgerView, plate: Seq<char>, payment: i128) -> LedgerView {
    if pay_fine_outcome(v, plate, payment) is Ok {
        LedgerView { fines: v.fines.remove(plate), ..v.with_revenue_added(payment as int) }
    } else {
        v
    }
}

/// Tells what paying the fine would come to, without paying it.
pub fn check_pay_fine(c: &ParkingContract, plate: &Plate, payment: i128) -> (r: Result<
    (),
    ParkingError,
>)
    requires
        c.wf(),
    ensures
        r == pay_fine_outcome(c@, plate@, payment),
{
    if c.guard {
        return Err(ParkingError::ReentrancyDetected);
    }
    match c.fines.get(plate) {
        None => Err(ParkingError::NotParked),
        Some(fine) => {
            if payment < fine.fine_amount {
                Err(ParkingError::InsufficientPayment)
            } else {
                Ok(())
            }
        },
    }
}

/// Pays the outstanding fine of `plate` with `payment`.
///
/// A payment of at least the fine's amount removes the fine and adds the
/// whole payment to revenue. A refused payment leaves the ledger, and so
/// the fine, as it was.
pub fn pay_fine(c: &mut ParkingContract, plate: &Plate, payment: i128) -> (r: Result<
    (),
    ParkingError,
>)
    requires
        old(c).wf(),
        pay_fine_outcome(old(c)@, plate@, payment) is Ok ==> old(c)@.revenue_fits(payment as int),
    ensures
        final(c).wf(),
        r == pay_fine_outcome(old(c)@, plate@, payment),
        final(c)@ == pay_fine_effect(old(c)@, plate@, payment),
        r is Err ==> *final(c) == *old(c),
        r is Ok ==> final(c)@ == (LedgerView {
            fines: old(c)@.fines.remove(plate@),
            ..old(c)@.with_revenue_added(payment as int)
        }),
        final(c)@.config.total_revenue == old(c)@.config.total_revenue + accepted(r, payment),
        !old(c)@.guard && old(c)@.has_fine(plate@) && payment >= old(c)@.fines[plate@].fine_amount
            ==> r is Ok && !final(c)@.has_fine(plate@),
        !old(c)@.guard && old(c)@.has_fine(plate@) && payment < old(c)@.fines[plate@].fine_amount
            ==> r == Err::<(), ParkingError>(ParkingError::InsufficientPayment) && final(c)@.fines
            == old(c)@.fines,
        forall|now: u64| old(c)@.exclusive(now) ==> final(c)@.exclusive(now),
{
    set_reentrancy_guard(c)?;
    let fine = match get_fine(c, plate) {
        Some(f) => f,
        None => {
            clear_reentrancy_guard(c);
            return Err(ParkingError::NotParked);
        },
    };
    if payment < fine.fine_amount {
        clear_reentrancy_guard(c);
        return Err(ParkingError::InsufficientPayment);
    }
    remove_fine(c, plate);
    add_revenue(c, payment);
    clear_reentrancy_guard(c);
    proof {
        assert forall|now: u64| old(c)@.exclusive(now) implies c@.exclusive(now) by {
            exclusive_after_change_at(old(c)@, c@, plate@, now);
        }
    }
    Ok(())
}

/// The outstanding fine of `plate`, if it has one.
pub fn get_fine_info(c: &ParkingContract, plate: &Plate) -> (r: Option<FineRecord>)
    requires
        c.wf(),
    ensures
        r == if c@.has_fine(plate@) {
            Some(c@.fines[plate@])
        } else {
            None
        },
{
    get_fine(c, plate)
}

/// Whether `plate` has an outstanding fine.
pub fn has_outstanding_fine(c: &ParkingContract, plate: &Plate) -> (r: bool)
    ensures
        r == c@.has_fine(plate@),
{
    has_unpaid_fine(c, plate)
}

/// The fine for a ticket overstayed by `hours_overdue` hours: twice the
/// hourly price, and the hourly price once more for each hour.
pub open spec fn graded_fine(hourly_price: i128, hours_overdue: u32) -> int {
    base_fine(hourly_price) + hourly_price * hours_overdue
}

/// Computes the fine for a ticket overstayed by `hours_overdue` hours, or
/// fails with `NotInitialized` before prices are set.
pub fn calculate_fine_amount(c: &ParkingContract, hours_overdue: u32) -> (r: Result<
    i128,
    ParkingError,
>)
    requires
        c@.initialized ==> i128::MIN <= graded_fine(c@.config.hourly_price, hours_overdue)
            <= i128::MAX,
    ensures
        r == if c@.initialized {
            Ok::<i128, ParkingError>(graded_fine(c@.config.hourly_price, hours_overdue) as i128)
        } else {
            Err::<i128, ParkingError>(ParkingError::NotInitialized)
        },
{
    let hourly_price = get_hourly_price(c)?;
    let factor: i128 = 2 + (hours_overdue as i128);
    assert(hourly_price * factor == graded_fine(hourly_price, hours_overdue)) by (nonlinear_arith)
        requires
            factor == 2 + hours_overdue,
    ;
    Ok(hourly_price * factor)
}

/// How long the fine of `plate` has been outstanding at `now`; zero
/// without a fine.
pub fn get_fine_age(c: &ParkingContract, plate: &Plate, now: u64) -> (r: u64)
    requires
        c.wf(),
    ensures
        r == if c@.has_fine(plate@) {
            c@.fines[plate@].age_at(now)
        } else {
            0
        },
{
    match c.fines.get(plate) {
        Some(fine) => fine.age(now),
        None => 0,
    }
}

/// Whether `plate` has a fine that is overdue at `now`.
pub open spec fn fine_overdue(v: LedgerView, plate: Seq<char>, now: u64) -> bool {
    v.has_fine(plate) && v.fines[plate].overdue_at(now)
}

/// Returns whether `plate` has a fine that is overdue at `now`.
pub fn is_fine_overdue(c: &ParkingContract, plate: &Plate, now: u64) -> (r: bool)
    requires
        c.wf(),
    ensures
        r == fine_overdue(c@, plate@, now),
{
    get_fine_age(c, plate, now) > crate::types::OVERDUE_AFTER
}

/// Whether `plate` has a fine that already carries the overdue penalty.
pub open spec fn penalised(v: LedgerView, plate: Seq<char>) -> bool {
    v.has_fine(plate) && v.fines[plate].reason == FineReason::Overdue
}

/// What a request for the overdue penalty comes to, the first refusal
/// that applies winning. A fine is doubled once: one that carries the
/// penalty already is refused like one that is not overdue.
pub open spec fn penalty_outcome(v: LedgerView, caller: Seq<char>, plate: Seq<char>, now: u64) -> Result<
    (),
    ParkingError,
> {
    if v.guard {
        Err(ParkingError::ReentrancyDetected)
    } else if !v.is_admin(caller) {
        Err(ParkingError::NotAdmin)
    } else if !fine_overdue(v, plate, now) {
        Err(ParkingError::NotParked)
    } else if penalised(v, plate) {
        Err(ParkingError::NotParked)
    } else {
        Ok(())
    }
}

/// A fine with its amount doubled and marked as carrying the overdue
/// penalty; plate, issue time and payment status are kept.
pub open spec fn doubled(fine: FineRecord) -> FineRecord
    recommends
        i128::MIN <= 2 * fine.fine_amount <= i128::MAX,
{
    FineRecord {
        fine_amount: (2 * fine.fine_amount) as i128,
        reason: FineReason::Overdue,
        ..fine
    }
}

/// The ledger after a request for the penalty: with the fine doubled when
/// the request is accepted, unchanged when it is refused.
pub open spec fn penalty_effect(v: LedgerView, caller: Seq<char>, plate: Seq<char>, now: u64) -> LedgerView {
    if penalty_outcome(v, caller, plate, now) is Ok {
        LedgerView { fines: v.fines.insert(plate, doubled(v.fines[plate])), ..v }
    } else {
        v
    }
}

/// Tells what a request for the penalty would come to, without making it.
pub fn check_apply_overdue_penalty(c: &ParkingContract, caller: &Address, plate: &Plate, now: u64) -> (r:
    Result<(), ParkingError>)
    requires
        c.wf(),
    ensures
        r == penalty_outcome(c@, caller@, plate@, now),
{
    if c.guard {
        return Err(ParkingError::ReentrancyDetected);
    }
    if !is_admin(c, caller) {
        return Err(ParkingError::NotAdmin);
    }
    match c.fines.get(plate) {
        None => Err(ParkingError::NotParked),
        Some(fine) => {
            if fine.age(now) <= crate::types::OVERDUE_AFTER {
                Err(ParkingError::NotParked)
            } else if fine.reason == FineReason::Overdue {
                Err(ParkingError::NotParked)
            } else {
                Ok(())
            }
        },
    }
}

/// Doubles the overdue fine of `plate` on behalf of an administrator,
/// once.
///
/// Fails with `NotAdmin` for a caller who is no administrator, and with
/// `NotParked` when the plate has no fine, when its fine is not overdue at
/// `now`, or when its fine has been doubled before; either way the ledger
/// stays as it was. An accepted request doubles the amount and marks the
/// fine as `Overdue`, so that no further request raises it again. The
/// guard is taken on entry and free again on return.
pub fn apply_overdue_penalty(c: &mut ParkingContract, caller: &Address, plate: &Plate, now: u64) -> (r:
    Result<(), ParkingError>)
    requires
        old(c).wf(),
        penalty_outcome(old(c)@, caller@, plate@, now) is Ok ==> i128::MIN <= 2 * old(
            c,
        )@.fines[plate@].fine_amount <= i128::MAX,
    ensures
        final(c).wf(),
        r == penalty_outcome(old(c)@, caller@, plate@, now),
        final(c)@ == penalty_effect(old(c)@, caller@, plate@, now),
        r is Err ==> *final(c) == *old(c),
        r is Ok ==> final(c)@.fines[plate@].issue_time == old(c)@.fines[plate@].issue_time
            && final(c)@.fines[plate@].fine_amount == 2 * old(c)@.fines[plate@].fine_amount,
        r is Ok ==> final(c)@.fines[plate@].reason == FineReason::Overdue,
        r is Ok ==> old(c)@.fines[plate@].reason != FineReason::Overdue,
        forall|t: u64| old(c)@.exclusive(t) ==> final(c)@.exclusive(t),
{
    set_reentrancy_guard(c)?;
    proof {
        same_admins(old(c)@, c@, caller@);
    }
    if !is_admin(c, caller) {
        clear_reentrancy_guard(c);
        return Err(ParkingError::NotAdmin);
    }
    let fine = match get_fine(c, plate) {
        Some(f) => f,
        None => {
            clear_reentrancy_guard(c);
            return Err(ParkingError::NotParked);
        },
    };
    if fine.age(now) <= crate::types::OVERDUE_AFTER {
        clear_reentrancy_guard(c);
        return Err(ParkingError::NotParked);
    }
    if fine.reason == FineReason::Overdue {
        clear_reentrancy_guard(c);
        return Err(ParkingError::NotParked);
    }
    let raised = FineRecord {
        plate: fine.plate,
        issue_time: fine.issue_time,
        fine_amount: fine.fine_amount * 2,
        is_paid: fine.is_paid,
        reason: FineReason::Overdue,
    };
    store_fine(c, plate, &raised);
    clear_reentrancy_guard(c);
    proof {
        assert forall|t: u64| old(c)@.exclusive(t) implies c@.exclusive(t) by {
            exclusive_after_change_at(old(c)@, c@, plate@, t);
        }
    }
    Ok(())
}

} // verus!
