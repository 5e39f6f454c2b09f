//! Annual passes: buying, renewing and parking on one.

use crate::errors::ParkingError;
use crate::ledger::{accepted, exclusive_after_change_at, LedgerView, ParkingContract};
use crate::storage::{
    add_revenue, clear_reentrancy_guard, get_annual_pass, get_annual_price, has_active_ticket,
    has_unpaid_fine, has_valid_annual_pass, set_reentrancy_guard, store_annual_pass,
};
use crate::types::{AnnualPass, Plate};
use vstd::prelude::*;

verus! {

/// The pass that a purchase or a renewal at `now` stores.
pub open spec fn new_pass(plate: Plate, payment: i128, now: u64) -> AnnualPass {
    AnnualPass { plate, purchase_time: now, amount_paid: payment }
}

/// What buying a pass comes to, the first refusal that applies winning.
pub open spec fn purchase_pass_outcome(v: LedgerView, plate: Seq<char>, payment: i128, now: u64) -> Result<
    (),
    ParkingError,
> {
    if v.guard {
        Err(ParkingError::ReentrancyDetected)
    } else if v.has_valid_pass(plate, now) || v.has_ticket(plate) {
        Err(ParkingError::AlreadyParked)
    } else if v.has_fine(plate) {
        Err(ParkingError::FinePaymentRequired)
    } else if !v.initialized {
        Err(ParkingError::NotInitialized)
    } else if payment < v.config.annual_price {
        Err(ParkingError::InsufficientPayment)
    } else {
        Ok(())
    }
}

/// The ledger after a purchase: with the new pass and the payment booked
/// when the purchase is accepted, unchanged when it is refused.
pub open spec fn purchase_pass_effect(v: LedgerView, plate: Plate, payment: i128, now: u64) -> LedgerView {
    if purchase_pass_outcome(v, plate@, payment, now) is Ok {
        LedgerView {
            passes: v.passes.insert(plate@, new_pass(plate, payment, now)),
            ..v.with_revenue_added(payment as int)
        }
    } else {
        v
    }
}

/// Tells what buying the pass would come to, without buying it.
pub fn check_purchase_annual_pass(c: &ParkingContract, plate: &Plate, payment: i128, now: u64) -> (r:
    Result<(), ParkingError>)
    requires
        c.wf(),
    ensures
        r == purchase_pass_outcome(c@, plate@, payment, now),
{
    if c.guard {
        return Err(ParkingError::ReentrancyDetected);
    }
    if has_valid_annual_pass(c, plate, now) || has_active_ticket(c, plate) {
        return Err(ParkingError::AlreadyParked);
    }
    if has_unpaid_fine(c, plate) {
        return Err(ParkingError::FinePaymentRequired);
    }
    let annual_price = get_annual_price(c)?;
    if payment < annual_price {
        return Err(ParkingError::InsufficientPayment);
    }
    Ok(())
}

/// Buys an annual pass for `plate`, paid with `payment`.
///
/// On success the pass is stored with `now` as its purchase time, in place
/// of a pass that has run out if there was one, and the whole payment is
/// added to revenue. A refused purchase leaves the ledger as it was.
pub fn purchase_annual_pass(c: &mut ParkingContract, plate: &Plate, payment: i128, now: u64) -> (r:
    Result<(), ParkingError>)
    requires
        old(c).wf(),
        purchase_pass_outcome(old(c)@, plate@, payment, now) is Ok ==> old(c)@.revenue_fits(
            payment as int,
        ),
    ensures
        final(c).wf(),
        r == purchase_pass_outcome(old(c)@, plate@, payment, now),
        final(c)@ == purchase_pass_effect(old(c)@, *plate, payment, now),
        r is Err ==> *final(c) == *old(c),
        r is Ok ==> final(c)@ == (LedgerView {
            passes: old(c)@.passes.insert(plate@, new_pass(*plate, payment, now)),
            ..old(c)@.with_revenue_added(payment as int)
        }),
        final(c)@.config.total_revenue == old(c)@.config.total_revenue + accepted(r, payment),
        old(c)@.exclusive(now) ==> final(c)@.exclusive(now),
{
    set_reentrancy_guard(c)?;
    if has_valid_annual_pass(c, plate, now) {
        clear_reentrancy_guard(c);
        return Err(ParkingError::AlreadyParked);
    }
    if has_active_ticket(c, plate) {
        clear_reentrancy_guard(c);
        return Err(ParkingError::AlreadyParked);
    }
    if has_unpaid_fine(c, plate) {
        clear_reentrancy_guard(c);
        return Err(ParkingError::FinePaymentRequired);
    }
    let annual_price = match get_annual_price(c) {
        Ok(price) => price,
        Err(e) => {
            clear_reentrancy_guard(c);
            return Err(e);
        },
    };
    if payment < annual_price {
        clear_reentrancy_guard(c);
        return Err(ParkingError::InsufficientPayment);
    }
    let pass = AnnualPass { plate: plate.clone(), purchase_time: now, amount_paid: payment };
    store_annual_pass(c, plate, &pass);
    add_revenue(c, payment);
    clear_reentrancy_guard(c);
    proof {
        if old(c)@.exclusive(now) {
            exclusive_after_change_at(old(c)@, c@, plate@, now);
        }
    }
    Ok(())
}

/// What entering on a pass comes to: `NotParked` without a pass valid at
/// `now`, `FinePaymentRequired` with an outstanding fine.
pub open spec fn park_with_pass_outcome(v: LedgerView, plate: Seq<char>, now: u64) -> Result<
    (),
    ParkingError,
> {
    if !v.has_valid_pass(plate, now) {
        Err(ParkingError::NotParked)
    } else if v.has_fine(plate) {
        Err(ParkingError::FinePaymentRequired)
    } else {
        Ok(())
    }
}

/// Checks that `plate` may enter on its annual pass at `now`.
pub fn park_with_annual_pass(c: &ParkingContract, plate: &Plate, now: u64) -> (r: Result<
    (),
    ParkingError,
>)
    requires
        c.wf(),
    ensures
        r == park_with_pass_outcome(c@, plate@, now),
{
    if !has_valid_annual_pass(c, plate, now) {
        return Err(ParkingError::NotParked);
    }
    if has_unpaid_fine(c, plate) {
        return Err(ParkingError::FinePaymentRequired);
    }
    Ok(())
}

/// Checks that `plate` may leave on its annual pass at `now`: it succeeds
/// exactly when the pass is valid, and fails with `NotParked` otherwise.
/// The pass stays where it is.
pub fn exit_annual_parking(c: &ParkingContract, plate: &Plate, now: u64) -> (r: Result<
    (),
    ParkingError,
>)
    requires
        c.wf(),
    ensures
        r == if c@.has_valid_pass(plate@, now) {
            Ok::<(), ParkingError>(())
        } else {
            Err::<(), ParkingError>(ParkingError::NotParked)
        },
{
    if !has_valid_annual_pass(c, plate, now) {
        return Err(ParkingError::NotParked);
    }
    Ok(())
}

/// The annual pass of `plate`, valid or not, if it has one.
pub fn get_annual_pass_info(c: &ParkingContract, plate: &Plate) -> (r: Option<AnnualPass>)
    requires
        c.wf(),
    ensures
        r == if c@.passes.contains_key(plate@) {
            Some(c@.passes[plate@])
        } else {
            None
        },
{
    get_annual_pass(c, plate)
}

/// Whether `plate` has an annual pass that is valid at `now`.
pub fn is_annual_pass_valid(c: &ParkingContract, plate: &Plate, now: u64) -> (r: bool)
    requires
        c.wf(),
    ensures
        r == c@.has_valid_pass(plate@, now),
{
    has_valid_annual_pass(c, plate, now)
}

/// What renewing a pass comes to, the first refusal that applies winning.
pub open spec fn renew_pass_outcome(v: LedgerView, plate: Seq<char>, payment: i128) -> Result<
    (),
    ParkingError,
> {
    if v.guard {
        Err(ParkingError::ReentrancyDetected)
    } else if v.has_ticket(plate) {
        Err(ParkingError::AlreadyParked)
    } else if v.has_fine(plate) {
        Err(ParkingError::FinePaymentRequired)
    } else if !v.initialized {
        Err(ParkingError::NotInitialized)
    } else if payment < v.config.annual_price {
        Err(ParkingError::InsufficientPayment)
    } else {
        Ok(())
    }
}

/// The ledger after a renewal: with the new pass and the payment booked
/// when the renewal is accepted, unchanged when it is refused.
pub open spec fn renew_pass_effect(v: LedgerView, plate: Plate, payment: i128, now: u64) -> LedgerView {
    if renew_pass_outcome(v, plate@, payment) is Ok {
        LedgerView {
            passes: v.passes.insert(plate@, new_pass(plate, payment, now)),
            ..v.with_revenue_added(payment as int)
        }
    } else {
        v
    }
}

/// Tells what renewing the pass would come to, without renewing it.
pub fn check_renew_annual_pass(c: &ParkingContract, plate: &Plate, payment: i128) -> (r: Result<
    (),
    ParkingError,
>)
    ensures
        r == renew_pass_outcome(c@, plate@, payment),
{
    if c.guard {
        return Err(ParkingError::ReentrancyDetected);
    }
    if has_active_ticket(c, plate) {
        return Err(ParkingError::AlreadyParked);
    }
    if has_unpaid_fine(c, plate) {
        return Err(ParkingError::FinePaymentRequired);
    }
    let annual_price = get_annual_price(c)?;
    if payment < annual_price {
        return Err(ParkingError::InsufficientPayment);
    }
    Ok(())
}

/// Renews the annual pass of `plate`, paid with `payment`.
///
/// A plate that holds a ticket is refused with `AlreadyParked`: a pass
/// never stands beside a ticket. On success a pass purchased at `now` takes
/// the place of the old one, whether or not that was still valid, and the
/// whole payment is added to revenue. A refused renewal leaves the ledger
/// as it was.
pub fn renew_annual_pass(c: &mut ParkingContract, plate: &Plate, payment: i128, now: u64) -> (r:
    Result<(), ParkingError>)
    requires
        old(c).wf(),
        renew_pass_outcome(old(c)@, plate@, payment) is Ok ==> old(c)@.revenue_fits(payment as int),
    ensures
        final(c).wf(),
        r == renew_pass_outcome(old(c)@, plate@, payment),
        final(c)@ == renew_pass_effect(old(c)@, *plate, payment, now),
        r is Err ==> *final(c) == *old(c),
        r is Ok ==> final(c)@ == (LedgerView {
            passes: old(c)@.passes.insert(plate@, new_pass(*plate, payment, now)),
            ..old(c)@.with_revenue_added(payment as int)
        }),
        final(c)@.config.total_revenue == old(c)@.config.total_revenue + accepted(r, payment),
        old(c)@.exclusive(now) ==> final(c)@.exclusive(now),
{
    set_reentrancy_guard(c)?;
    if has_active_ticket(c, plate) {
        clear_reentrancy_guard(c);
        return Err(ParkingError::AlreadyParked);
    }
    if has_unpaid_fine(c, plate) {
        clear_reentrancy_guard(c);
        return Err(ParkingError::FinePaymentRequired);
    }
    let annual_price = match get_annual_price(c) {
        Ok(price) => price,
        Err(e) => {
            clear_reentrancy_guard(c);
            return Err(e);
        },
    };
    if payment < annual_price {
        clear_reentrancy_guard(c);
        return Err(ParkingError::InsufficientPayment);
    }
    let pass = AnnualPass { plate: plate.clone(), purchase_time: now, amount_paid: payment };
    store_annual_pass(c, plate, &pass);
    add_revenue(c, payment);
    clear_reentrancy_guard(c);
    proof {
        if old(c)@.exclusive(now) {
            exclusive_after_change_at(old(c)@, c@, plate@, now);
        }
    }
    Ok(())
}

} // verus!
