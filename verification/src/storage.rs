//! Typed access to the ledger's data: configuration, the reentrancy guard,
//! revenue, and the per-plate records of each kind.

use crate::errors::ParkingError;
use crate::ledger::{LedgerView, ParkingContract};
use crate::types::{Address, AnnualPass, FineRecord, ParkingConfig, ParkingTicket, Plate};
use vstd::prelude::*;

verus! {

/// Registers the three administrators, the prices and the capacity, and
/// resets revenue to zero. Fails with `AlreadyInitialized` on a ledger that
/// was initialized before, which it leaves as it was.
pub fn initialize_contract(
    c: &mut ParkingContract,
    admin1: Address,
    admin2: Address,
    admin3: Address,
    hourly_price: i128,
    annual_price: i128,
    total_spots: u32,
) -> (r: Result<(), ParkingError>)
    ensures
        old(c).wf() ==> final(c).wf(),
        old(c)@.initialized ==> r == Err::<(), ParkingError>(ParkingError::AlreadyInitialized)
            && *final(c) == *old(c),
        !old(c)@.initialized ==> r == Ok::<(), ParkingError>(()) && final(c)@ == (LedgerView {
            initialized: true,
            admins: seq![admin1, admin2, admin3],
            config: ParkingConfig { hourly_price, annual_price, total_spots, total_revenue: 0 },
            ..old(c)@
        }),
{
    if c.initialized {
        return Err(ParkingError::AlreadyInitialized);
    }
    let mut admins: Vec<Address> = Vec::new();
    admins.push(admin1);
    admins.push(admin2);
    admins.push(admin3);
    assert(admins@ =~= seq![admin1, admin2, admin3]);
    c.admins = admins;
    c.config = ParkingConfig { hourly_price, annual_price, total_spots, total_revenue: 0 };
    c.initialized = true;
    Ok(())
}

/// Whether the ledger has been initialized.
pub fn is_initialized(c: &ParkingContract) -> (r: bool)
    ensures
        r == c@.initialized,
{
    c.initialized
}

/// Whether `address` is one of the registered administrators.
pub fn is_admin(c: &ParkingContract, address: &Address) -> (r: bool)
    ensures
        r == c@.is_admin(address@),
{
    let mut i: usize = 0;
    while i < c.admins.len()
        invariant
            i <= c.admins@.len(),
            forall|j: int| 0 <= j < i ==> c.admins@[j]@ != address@,
        decreases c.admins@.len() - i,
    {
        if c.admins[i].same(address) {
            assert(c@.admins[i as int]@ == address@);
            return true;
        }
        i = i + 1;
    }
    false
}

/// The price of one hour, or `NotInitialized` before initialization.
pub fn get_hourly_price(c: &ParkingContract) -> (r: Result<i128, ParkingError>)
    ensures
        r == if c@.initialized {
            Ok::<i128, ParkingError>(c@.config.hourly_price)
        } else {
            Err::<i128, ParkingError>(ParkingError::NotInitialized)
        },
{
    if c.initialized {
        Ok(c.config.hourly_price)
    } else {
        Err(ParkingError::NotInitialized)
    }
}

/// The price of an annual pass, or `NotInitialized` before initialization.
pub fn get_annual_price(c: &ParkingContract) -> (r: Result<i128, ParkingError>)
    ensures
        r == if c@.initialized {
            Ok::<i128, ParkingError>(c@.config.annual_price)
        } else {
            Err::<i128, ParkingError>(ParkingError::NotInitialized)
        },
{
    if c.initialized {
        Ok(c.config.annual_price)
    } else {
        Err(ParkingError::NotInitialized)
    }
}

/// What a request to change a price comes to: `NotAdmin` for a caller who
/// is no administrator, `InsufficientPayment` for a price of zero.
pub open spec fn price_change_outcome(v: LedgerView, caller: Seq<char>, new_price: i128) -> Result<
    (),
    ParkingError,
> {
    if !v.is_admin(caller) {
        Err(ParkingError::NotAdmin)
    } else if new_price == 0 {
        Err(ParkingError::InsufficientPayment)
    } else {
        Ok(())
    }
}

/// Sets the hourly price on behalf of one administrator. A refused request
/// leaves the ledger as it was.
pub fn set_hourly_price(c: &mut ParkingContract, caller: &Address, new_price: i128) -> (r: Result<
    (),
    ParkingError,
>)
    ensures
        old(c).wf() ==> final(c).wf(),
        r == price_change_outcome(old(c)@, caller@, new_price),
        r is Err ==> *final(c) == *old(c),
        r is Ok ==> final(c)@ == (LedgerView {
            config: ParkingConfig { hourly_price: new_price, ..old(c)@.config },
            ..old(c)@
        }),
{
    if !is_admin(c, caller) {
        return Err(ParkingError::NotAdmin);
    }
    if new_price == 0 {
        return Err(ParkingError::InsufficientPayment);
    }
    c.config.hourly_price = new_price;
    Ok(())
}

/// Sets the annual price on behalf of one administrator. A refused request
/// leaves the ledger as it was.
pub fn set_annual_price(c: &mut ParkingContract, caller: &Address, new_price: i128) -> (r: Result<
    (),
    ParkingError,
>)
    ensures
        old(c).wf() ==> final(c).wf(),
        r == price_change_outcome(old(c)@, caller@, new_price),
        r is Err ==> *final(c) == *old(c),
        r is Ok ==> final(c)@ == (LedgerView {
            config: ParkingConfig { annual_price: new_price, ..old(c)@.config },
            ..old(c)@
        }),
{
    if !is_admin(c, caller) {
        return Err(ParkingError::NotAdmin);
    }
    if new_price == 0 {
        return Err(ParkingError::InsufficientPayment);
    }
    c.config.annual_price = new_price;
    Ok(())
}

/// Whether the revenue counter can change by `amount` without overflow.
pub fn revenue_fits(c: &ParkingContract, amount: i128) -> (r: bool)
    ensures
        r == c@.revenue_fits(amount as int),
{
    c.config.total_revenue.checked_add(amount).is_some()
}

/// Adds `amount` to the revenue.
pub fn add_revenue(c: &mut ParkingContract, amount: i128)
    requires
        old(c)@.revenue_fits(amount as int),
    ensures
        old(c).wf() ==> final(c).wf(),
        final(c)@ == old(c)@.with_revenue_added(amount as int),
{
    c.config.total_revenue = c.config.total_revenue + amount;
}

/// The revenue on hand.
pub fn get_total_revenue(c: &ParkingContract) -> (r: i128)
    ensures
        r == c@.config.total_revenue,
{
    c.config.total_revenue
}

/// Takes `amount` out of the revenue. Fails with `InsufficientRevenue`, and
/// changes nothing, when `amount` exceeds the revenue on hand.
pub fn withdraw_revenue(c: &mut ParkingContract, amount: i128) -> (r: Result<(), ParkingError>)
    requires
        amount <= old(c)@.config.total_revenue ==> old(c)@.revenue_fits(-amount),
    ensures
        old(c).wf() ==> final(c).wf(),
        amount > old(c)@.config.total_revenue ==> r == Err::<(), ParkingError>(
            ParkingError::InsufficientRevenue,
        ) && *final(c) == *old(c),
        amount <= old(c)@.config.total_revenue ==> r == Ok::<(), ParkingError>(()) && final(c)@
            == old(c)@.with_revenue_added(-amount),
{
    if amount > c.config.total_revenue {
        return Err(ParkingError::InsufficientRevenue);
    }
    c.config.total_revenue = c.config.total_revenue - amount;
    Ok(())
}

/// What taking the guard comes to: `ReentrancyDetected` when it is held.
pub open spec fn guard_outcome(v: LedgerView) -> Result<(), ParkingError> {
    if v.guard {
        Err(ParkingError::ReentrancyDetected)
    } else {
        Ok(())
    }
}

/// The ledger with the guard held.
pub open spec fn guarded(v: LedgerView) -> LedgerView {
    LedgerView { guard: true, ..v }
}

/// Takes the reentrancy guard. Fails with `ReentrancyDetected` when the
/// guard is already held. Either way the guard is held afterwards and
/// nothing else has changed.
pub fn set_reentrancy_guard(c: &mut ParkingContract) -> (r: Result<(), ParkingError>)
    ensures
        old(c).wf() ==> final(c).wf(),
        r == guard_outcome(old(c)@),
        *final(c) == (ParkingContract { guard: true, ..*old(c) }),
        final(c)@ == guarded(old(c)@),
{
    if c.guard {
        return Err(ParkingError::ReentrancyDetected);
    }
    c.guard = true;
    Ok(())
}

/// Releases the reentrancy guard, whether or not it was held.
pub fn clear_reentrancy_guard(c: &mut ParkingContract)
    ensures
        old(c).wf() ==> final(c).wf(),
        *final(c) == (ParkingContract { guard: false, ..*old(c) }),
{
    c.guard = false;
}

/// Stores `ticket` as the ticket of `plate`, in place of any earlier one.
pub fn store_ticket(c: &mut ParkingContract, plate: &Plate, ticket: &ParkingTicket)
    requires
        old(c).wf(),
    ensures
        final(c).wf(),
        final(c)@ == (LedgerView { tickets: old(c)@.tickets.insert(plate@, *ticket), ..old(c)@ }),
{
    c.tickets.set(plate.clone(), ticket.clone());
}

/// The ticket of `plate`, if it holds one.
pub fn get_ticket(c: &ParkingContract, plate: &Plate) -> (r: Option<ParkingTicket>)
    requires
        c.wf(),
    ensures
        r == if c@.has_ticket(plate@) {
            Some(c@.tickets[plate@])
        } else {
            None
        },
{
    match c.tickets.get(plate) {
        Some(t) => Some(t.clone()),
        None => None,
    }
}

/// Removes the ticket of `plate`, if it holds one.
pub fn remove_ticket(c: &mut ParkingContract, plate: &Plate)
    requires
        old(c).wf(),
    ensures
        final(c).wf(),
        final(c)@ == (LedgerView { tickets: old(c)@.tickets.remove(plate@), ..old(c)@ }),
{
    c.tickets.remove(plate);
}

/// Whether `plate` holds a ticket.
pub fn has_active_ticket(c: &ParkingContract, plate: &Plate) -> (r: bool)
    ensures
        r == c@.has_ticket(plate@),
{
    c.tickets.has(plate)
}

/// Stores `pass` as the annual pass of `plate`, in place of any earlier one.
pub fn store_annual_pass(c: &mut ParkingContract, plate: &Plate, pass: &AnnualPass)
    requires
        old(c).wf(),
    ensures
        final(c).wf(),
        final(c)@ == (LedgerView { passes: old(c)@.passes.insert(plate@, *pass), ..old(c)@ }),
{
    c.passes.set(plate.clone(), pass.clone());
}

/// The annual pass of `plate`, valid or not, if it has one.
pub fn get_annual_pass(c: &ParkingContract, plate: &Plate) -> (r: Option<AnnualPass>)
    requires
        c.wf(),
    ensures
        r == if c@.passes.contains_key(plate@) {
            Some(c@.passes[plate@])
        } else {
            None
        },
{
    match c.passes.get(plate) {
        Some(p) => Some(p.clone()),
        None => None,
    }
}

/// Whether `plate` has an annual pass that is valid at `now`.
pub fn has_valid_annual_pass(c: &ParkingContract, plate: &Plate, now: u64) -> (r: bool)
    requires
        c.wf(),
    ensures
        r == c@.has_valid_pass(plate@, now),
{
    match c.passes.get(plate) {
        Some(p) => p.is_valid(now),
        None => false,
    }
}

/// Stores `fine` as the outstanding fine of `plate`, in place of any
/// earlier one.
pub fn store_fine(c: &mut ParkingContract, plate: &Plate, fine: &FineRecord)
    requires
        old(c).wf(),
    ensures
        final(c).wf(),
        final(c)@ == (LedgerView { fines: old(c)@.fines.insert(plate@, *fine), ..old(c)@ }),
{
    c.fines.set(plate.clone(), fine.clone());
}

/// The outstanding fine of `plate`, if it has one.
pub fn get_fine(c: &ParkingContract, plate: &Plate) -> (r: Option<FineRecord>)
    requires
        c.wf(),
    ensures
        r == if c@.has_fine(plate@) {
            Some(c@.fines[plate@])
        } else {
            None
        },
{
    match c.fines.get(plate) {
        Some(f) => Some(f.clone()),
        None => None,
    }
}

/// Removes the outstanding fine of `plate`, if it has one.
pub fn remove_fine(c: &mut ParkingContract, plate: &Plate)
    requires
        old(c).wf(),
    ensures
        final(c).wf(),
        final(c)@ == (LedgerView { fines: old(c)@.fines.remove(plate@), ..old(c)@ }),
{
    c.fines.remove(plate);
}

/// Whether `plate` has an outstanding fine.
pub fn has_unpaid_fine(c: &ParkingContract, plate: &Plate) -> (r: bool)
    ensures
        r == c@.has_fine(plate@),
{
    c.fines.has(plate)
}

} // verus!
