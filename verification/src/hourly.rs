//! Hourly parking: buying a ticket and leaving on it.

use crate::errors::ParkingError;
use crate::ledger::{accepted, exclusive_after_change_at, LedgerView, ParkingContract};
use crate::storage::{
    add_revenue, clear_reentrancy_guard, get_hourly_price, get_ticket, has_active_ticket,
    has_unpaid_fine, has_valid_annual_pass, remove_ticket, set_reentrancy_guard, store_fine,
    store_ticket,
};
use crate::types::{FineReason, FineRecord, ParkingTicket, Plate, MAX_HOURS};
use vstd::prelude::*;

verus! {

/// Whether `payment` covers `units` times `price`.
pub open spec fn covers(price: i128, units: u32, payment: i128) -> bool {
    payment >= price * units
}

/// Returns whether `payment` covers `units` times `price`; the product is
/// taken over the integers, so a price too large to multiply is never
/// covered.
pub fn payment_covers(price: i128, units: u32, payment: i128) -> (r: bool)
    ensures
        r == covers(price, units, payment),
{
    match price.checked_mul(units as i128) {
        Some(required) => payment >= required,
        None => {
            assert(price > 0 ==> price * units >= 0) by (nonlinear_arith);
            assert(price < 0 ==> price * units <= 0) by (nonlinear_arith);
            price < 0
        },
    }
}

/// The fine for overstaying a ticket: twice the hourly price.
pub open spec fn base_fine(hourly_price: i128) -> int {
    2 * hourly_price
}

/// What buying a ticket comes to, the first refusal that applies winning.
pub open spec fn purchase_ticket_outcome(
    v: LedgerView,
    plate: Seq<char>,
    hours: u32,
    payment: i128,
    now: u64,
) -> Result<(), ParkingError> {
    if v.guard {
        Err(ParkingError::ReentrancyDetected)
    } else if hours == 0 || hours > MAX_HOURS {
        Err(ParkingError::InvalidHours)
    } else if v.has_ticket(plate) || v.has_valid_pass(plate, now) {
        Err(ParkingError::AlreadyParked)
    } else if v.has_fine(plate) {
        Err(ParkingError::FinePaymentRequired)
    } else if !v.initialized {
        Err(ParkingError::NotInitialized)
    } else if !covers(v.config.hourly_price, hours, payment) {
        Err(ParkingError::InsufficientPayment)
    } else {
        Ok(())
    }
}

/// The ticket that a purchase at `now` stores.
pub open spec fn new_ticket(plate: Plate, hours: u32, payment: i128, now: u64) -> ParkingTicket {
    ParkingTicket { plate, entry_time: now, hours_paid: hours, amount_paid: payment, has_exited: false }
}

/// The ledger after a purchase: with the new ticket and the payment booked
/// when the purchase is accepted, unchanged when it is refused.
pub open spec fn purchase_ticket_effect(
    v: LedgerView,
    plate: Plate,
    hours: u32,
    payment: i128,
    now: u64,
) -> LedgerView {
    if purchase_ticket_outcome(v, plate@, hours, payment, now) is Ok {
        LedgerView {
            tickets: v.tickets.insert(plate@, new_ticket(plate, hours, payment, now)),
            ..v.with_revenue_added(payment as int)
        }
    } else {
        v
    }
}

/// Tells what buying the ticket would come to, without buying it.
pub fn check_purchase_hourly_ticket(
    c: &ParkingContract,
    plate: &Plate,
    hours: u32,
    payment: i128,
    now: u64,
) -> (r: Result<(), ParkingError>)
    requires
        c.wf(),
    ensures
        r == purchase_ticket_outcome(c@, plate@, hours, payment, now),
{
    if c.guard {
        return Err(ParkingError::ReentrancyDetected);
    }
    if hours == 0 || hours > MAX_HOURS {
        return Err(ParkingError::InvalidHours);
    }
    if has_active_ticket(c, plate) || has_valid_annual_pass(c, plate, now) {
        return Err(ParkingError::AlreadyParked);
    }
    if has_unpaid_fine(c, plate) {
        return Err(ParkingError::FinePaymentRequired);
    }
    let hourly_price = get_hourly_price(c)?;
    if !payment_covers(hourly_price, hours, payment) {
        return Err(ParkingError::InsufficientPayment);
    }
    Ok(())
}

/// Buys a ticket of `hours` hours for `plate`, paid with `payment`.
///
/// On success the ticket is stored with `now` as its entry time and the
/// whole payment is added to revenue. A refused purchase leaves the ledger
/// as it was. The guard is taken on entry and free again on return.
pub fn purchase_hourly_ticket(
    c: &mut ParkingContract,
    plate: &Plate,
    hours: u32,
    payment: i128,
    now: u64,
) -> (r: Result<(), ParkingError>)
    requires
        old(c).wf(),
        purchase_ticket_outcome(old(c)@, plate@, hours, payment, now) is Ok ==> old(
            c,
        )@.revenue_fits(payment as int),
    ensures
        final(c).wf(),
        r == purchase_ticket_outcome(old(c)@, plate@, hours, payment, now),
        final(c)@ == purchase_ticket_effect(old(c)@, *plate, hours, payment, now),
        r is Err ==> *final(c) == *old(c),
        r is Ok ==> final(c)@ == (LedgerView {
            tickets: old(c)@.tickets.insert(plate@, new_ticket(*plate, hours, payment, now)),
            ..old(c)@.with_revenue_added(payment as int)
        }),
        final(c)@.config.total_revenue == old(c)@.config.total_revenue + accepted(r, payment),
        !old(c)@.guard && (hours == 0 || hours > MAX_HOURS) ==> r == Err::<(), ParkingError>(
            ParkingError::InvalidHours,
        ) && *final(c) == *old(c),
        !old(c)@.guard && 1 <= hours <= MAX_HOURS && old(c)@.has_valid_pass(plate@, now) ==> r
            == Err::<(), ParkingError>(ParkingError::AlreadyParked),
        old(c)@.exclusive(now) ==> final(c)@.exclusive(now),
{
    set_reentrancy_guard(c)?;
    if hours == 0 || hours > MAX_HOURS {
        clear_reentrancy_guard(c);
        return Err(ParkingError::InvalidHours);
    }
    if has_active_ticket(c, plate) || has_valid_annual_pass(c, plate, now) {
        clear_reentrancy_guard(c);
        return Err(ParkingError::AlreadyParked);
    }
    if has_unpaid_fine(c, plate) {
        clear_reentrancy_guard(c);
        return Err(ParkingError::FinePaymentRequired);
    }
    let hourly_price = match get_hourly_price(c) {
        Ok(price) => price,
        Err(e) => {
            clear_reentrancy_guard(c);
            return Err(e);
        },
    };
    if !payment_covers(hourly_price, hours, payment) {
        clear_reentrancy_guard(c);
        return Err(ParkingError::InsufficientPayment);
    }
    let ticket = ParkingTicket {
        plate: plate.clone(),
        entry_time: now,
        hours_paid: hours,
        amount_paid: payment,
        has_exited: false,
    };
    store_ticket(c, plate, &ticket);
    add_revenue(c, payment);
    clear_reentrancy_guard(c);
    proof {
        if old(c)@.exclusive(now) {
            exclusive_after_change_at(old(c)@, c@, plate@, now);
        }
    }
    Ok(())
}

/// What leaving on a ticket comes to, the first refusal that applies
/// winning.
pub open spec fn exit_hourly_outcome(v: LedgerView, plate: Seq<char>, now: u64) -> Result<
    (),
    ParkingError,
> {
    if v.guard {
        Err(ParkingError::ReentrancyDetected)
    } else if !v.has_ticket(plate) {
        Err(ParkingError::NotParked)
    } else if !v.tickets[plate].expired_at(now) {
        Ok(())
    } else if !v.initialized {
        Err(ParkingError::NotInitialized)
    } else {
        Err(ParkingError::TicketExpired)
    }
}

/// The fine that an overstayed ticket turns into at `now`.
pub open spec fn expiry_fine(plate: Plate, hourly_price: i128, now: u64) -> FineRecord
    recommends
        i128::MIN <= base_fine(hourly_price) <= i128::MAX,
{
    FineRecord {
        plate,
        issue_time: now,
        fine_amount: base_fine(hourly_price) as i128,
        is_paid: false,
        reason: FineReason::Expired,
    }
}

/// The ledger after an exit: without the ticket when the exit succeeds,
/// with a fine in its place when the ticket had expired, unchanged after
/// every other refusal.
pub open spec fn exit_hourly_effect(v: LedgerView, plate: Plate, now: u64) -> LedgerView {
    match exit_hourly_outcome(v, plate@, now) {
        Ok(_) => LedgerView { tickets: v.tickets.remove(plate@), ..v },
        Err(ParkingError::TicketExpired) => LedgerView {
            tickets: v.tickets.remove(plate@),
            fines: v.fines.insert(plate@, expiry_fine(plate, v.config.hourly_price, now)),
            ..v
        },
        Err(_) => v,
    }
}

/// Tells what leaving on the ticket would come to, without leaving.
pub fn check_exit_hourly_parking(c: &ParkingContract, plate: &Plate, now: u64) -> (r: Result<
    (),
    ParkingError,
>)
    requires
        c.wf(),
    ensures
        r == exit_hourly_outcome(c@, plate@, now),
{
    if c.guard {
        return Err(ParkingError::ReentrancyDetected);
    }
    match c.tickets.get(plate) {
        None => Err(ParkingError::NotParked),
        Some(ticket) => {
            if !ticket.is_expired(now) {
                Ok(())
            } else if !c.initialized {
                Err(ParkingError::NotInitialized)
            } else {
                Err(ParkingError::TicketExpired)
            }
        },
    }
}

/// Leaves the parking on the ticket of `plate`.
///
/// Up to and including the last paid second the ticket is removed and the
/// exit succeeds. After that the exit fails with `TicketExpired`, and the
/// failure has an effect: the ticket is replaced by a fine of twice the
/// hourly price, issued at `now`. Every other refusal leaves the ledger as
/// it was. Revenue never changes.
pub fn exit_hourly_parking(c: &mut ParkingContract, plate: &Plate, now: u64) -> (r: Result<
    (),
    ParkingError,
>)
    requires
        old(c).wf(),
        exit_hourly_outcome(old(c)@, plate@, now) == Err::<(), ParkingError>(
            ParkingError::TicketExpired,
        ) ==> i128::MIN <= base_fine(old(c)@.config.hourly_price) <= i128::MAX,
    ensures
        final(c).wf(),
        r == exit_hourly_outcome(old(c)@, plate@, now),
        final(c)@ == exit_hourly_effect(old(c)@, *plate, now),
        r is Ok ==> final(c)@ == (LedgerView {
            tickets: old(c)@.tickets.remove(plate@),
            ..old(c)@
        }),
        r == Err::<(), ParkingError>(ParkingError::TicketExpired) ==> final(c)@ == (LedgerView {
            tickets: old(c)@.tickets.remove(plate@),
            fines: old(c)@.fines.insert(
                plate@,
                expiry_fine(*plate, old(c)@.config.hourly_price, now),
            ),
            ..old(c)@
        }),
        r is Err && r != Err::<(), ParkingError>(ParkingError::TicketExpired) ==> *final(c) == *old(
            c,
        ),
        final(c)@.config == old(c)@.config,
        !old(c)@.guard && old(c)@.has_ticket(plate@) && now <= old(c)@.tickets[plate@].expiry()
            ==> r is Ok && !final(c)@.has_ticket(plate@) && final(c)@.fines == old(c)@.fines,
        !old(c)@.guard && old(c)@.has_ticket(plate@) && now > old(c)@.tickets[plate@].expiry()
            && old(c)@.initialized ==> r == Err::<(), ParkingError>(ParkingError::TicketExpired)
            && !final(c)@.has_ticket(plate@) && final(c)@.has_fine(plate@)
            && final(c)@.fines[plate@].fine_amount == base_fine(old(c)@.config.hourly_price),
        old(c)@.exclusive(now) ==> final(c)@.exclusive(now),
{
    set_reentrancy_guard(c)?;
    let ticket = match get_ticket(c, plate) {
        Some(t) => t,
        None => {
            clear_reentrancy_guard(c);
            return Err(ParkingError::NotParked);
        },
    };
    if ticket.is_expired(now) {
        let hourly_price = match get_hourly_price(c) {
            Ok(price) => price,
            Err(e) => {
                clear_reentrancy_guard(c);
                return Err(e);
            },
        };
        let fine = FineRecord {
            plate: plate.clone(),
            issue_time: now,
            fine_amount: hourly_price * 2,
            is_paid: false,
            reason: FineReason::Expired,
        };
        store_fine(c, plate, &fine);
        remove_ticket(c, plate);
        clear_reentrancy_guard(c);
        proof {
            if old(c)@.exclusive(now) {
                exclusive_after_change_at(old(c)@, c@, plate@, now);
            }
        }
        return Err(ParkingError::TicketExpired);
    }
    remove_ticket(c, plate);
    clear_reentrancy_guard(c);
    proof {
        if old(c)@.exclusive(now) {
            exclusive_after_change_at(old(c)@, c@, plate@, now);
        }
    }
    Ok(())
}

/// The ticket of `plate`, if it holds one.
pub fn get_parking_ticket(c: &ParkingContract, plate: &Plate) -> (r: Option<ParkingTicket>)
    requires
        c.wf(),
    ensures
        r == if c@.has_ticket(plate@) {
            Some(c@.tickets[plate@])
        } else {
            None
        },
{
    get_ticket(c, plate)
}

} // verus!
