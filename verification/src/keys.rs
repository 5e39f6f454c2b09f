//! Where each kind of per-plate record is kept: its storage tier and its
//! composite key.

use crate::types::{Plate, SECONDS_PER_HOUR, SECONDS_PER_YEAR, TICKET_GRACE};
use vstd::prelude::*;

verus! {

/// A class of storage, by how long what is kept there lives.
#[derive(Copy, Clone, Debug, PartialEq, Eq, Structural, Hash)]
pub enum Tier {
    /// Short-lived data that may lapse: tickets, the guard, proposals.
    Temporary,
    /// Durable per-plate data: passes and fines.
    Persistent,
    /// Configuration of the ledger itself: administrators, prices, revenue.
    Instance,
}

/// A kind of per-plate record.
#[derive(Copy, Clone, Debug, PartialEq, Eq, Structural, Hash)]
pub enum Category {
    Ticket,
    AnnualPass,
    Fine,
}

/// The key of one record: its tier, its kind and its plate.
#[derive(Debug, PartialEq, Eq, Hash)]
pub struct StorageKey {
    pub tier: Tier,
    pub category: Category,
    pub plate: Plate,
}

/// The tier in which records of a kind are kept: tickets are short-lived,
/// passes and fines durable.
pub open spec fn tier_of(category: Category) -> Tier {
    match category {
        Category::Ticket => Tier::Temporary,
        Category::AnnualPass => Tier::Persistent,
        Category::Fine => Tier::Persistent,
    }
}

/// The key of the record of kind `category` for `plate`.
pub open spec fn key_of(category: Category, plate: Plate) -> StorageKey {
    StorageKey { tier: tier_of(category), category, plate }
}

/// The key under which the ticket of `plate` is kept.
pub fn get_ticket_key(plate: &Plate) -> (k: StorageKey)
    ensures
        k == key_of(Category::Ticket, *plate),
{
    StorageKey { tier: Tier::Temporary, category: Category::Ticket, plate: plate.clone() }
}

/// The key under which the annual pass of `plate` is kept.
pub fn get_annual_key(plate: &Plate) -> (k: StorageKey)
    ensures
        k == key_of(Category::AnnualPass, *plate),
{
    StorageKey { tier: Tier::Persistent, category: Category::AnnualPass, plate: plate.clone() }
}

/// The key under which the fine of `plate` is kept.
pub fn get_fine_key(plate: &Plate) -> (k: StorageKey)
    ensures
        k == key_of(Category::Fine, *plate),
{
    StorageKey { tier: Tier::Persistent, category: Category::Fine, plate: plate.clone() }
}

/// Keys are composite: two keys are the same only for the same kind of
/// record and the same plate.
pub proof fn keys_tell_records_apart(kind: Category, plate: Plate, other_kind: Category, other: Plate)
    ensures
        key_of(kind, plate) == key_of(other_kind, other) <==> kind == other_kind && plate == other,
{
}

/// For how many seconds a ticket of `hours` hours covers its vehicle.
pub fn ticket_lifetime(hours: u32) -> (secs: u64)
    ensures
        secs == hours * SECONDS_PER_HOUR,
{
    (hours as u64) * SECONDS_PER_HOUR
}

/// For how many seconds a ticket of `hours` hours is kept on record: its
/// paid time and the grace period after it, in which an exit or a sweep
/// still finds the ticket and turns it into a fine.
pub fn ticket_retention(hours: u32) -> (secs: u64)
    ensures
        secs == hours * SECONDS_PER_HOUR + TICKET_GRACE,
{
    (hours as u64) * SECONDS_PER_HOUR + TICKET_GRACE
}

/// For how many seconds an unpaid fine is kept on record.
pub fn fine_lifetime() -> (secs: u64)
    ensures
        secs == SECONDS_PER_YEAR,
{
    SECONDS_PER_YEAR
}

/// After how many ledgers a guard that was never released gives way.
pub fn guard_lifetime() -> (ledgers: u32)
    ensures
        ledgers == 100,
{
    100
}

/// The number of ledgers that span `seconds` when one closes every
/// `ledger_seconds`: rounded up, and no more than the largest count.
pub open spec fn spanning_ledgers(seconds: u64, ledger_seconds: u64) -> int
    recommends
        ledger_seconds > 0,
{
    let whole = seconds as int / ledger_seconds as int;
    let count = if seconds as int % ledger_seconds as int > 0 {
        whole + 1
    } else {
        whole
    };
    if count > u32::MAX {
        u32::MAX as int
    } else {
        count
    }
}

/// Returns the number of ledgers that span `seconds`.
pub fn ledgers_for(seconds: u64, ledger_seconds: u64) -> (ledgers: u32)
    requires
        ledger_seconds > 0,
    ensures
        ledgers == spanning_ledgers(seconds, ledger_seconds),
{
    let whole: u64 = seconds / ledger_seconds;
    let rest: u64 = seconds % ledger_seconds;
    if whole >= 0xffff_ffff {
        u32::MAX
    } else if rest > 0 {
        (whole + 1) as u32
    } else {
        whole as u32
    }
}

/// For how many seconds an annual pass is valid.
pub fn pass_lifetime() -> (secs: u64)
    ensures
        secs == SECONDS_PER_YEAR,
{
    SECONDS_PER_YEAR
}

} // verus!
