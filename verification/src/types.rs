//! Plain data of the ledger: plates, addresses and the per-plate records.

use crate::errors::ParkingError;
use vstd::prelude::*;

verus! {

/// The longest plate identifier, in bytes.
pub const MAX_PLATE_LEN: usize = 32;

/// Seconds in one paid hour.
pub const SECONDS_PER_HOUR: u64 = 3600;

/// Seconds for which an annual pass is valid (365 days).
pub const SECONDS_PER_YEAR: u64 = 31_536_000;

/// Age in seconds beyond which a fine is overdue (30 days).
pub const OVERDUE_AFTER: u64 = 2_592_000;

/// Seconds for which a ticket is kept on record after its paid time, so
/// that an overstay can still be fined (30 days).
pub const TICKET_GRACE: u64 = 2_592_000;

/// The most hours one ticket may pay for.
pub const MAX_HOURS: u32 = 24;

/// A vehicle's plate: the key of every per-vehicle record.
#[derive(Debug, PartialEq, Eq, Hash)]
pub struct Plate {
    pub text: String,
}

impl View for Plate {
    type V = Seq<char>;

    open spec fn view(&self) -> Seq<char> {
        self.text@
    }
}

impl Clone for Plate {
    fn clone(&self) -> (r: Self)
        ensures
            r == *self,
    {
        Plate { text: self.text.clone() }
    }
}

impl Plate {
    /// Makes a plate from its text; a text longer than `MAX_PLATE_LEN` bytes
    /// is refused with `PlateTooLong`.
    pub fn new(text: &str) -> (r: Result<Plate, ParkingError>)
        ensures
            text.len() <= MAX_PLATE_LEN ==> r is Ok && r->Ok_0@ == text@,
            text.len() > MAX_PLATE_LEN ==> r == Err::<Plate, ParkingError>(
                ParkingError::PlateTooLong,
            ),
    {
        if text.len() > MAX_PLATE_LEN {
            Err(ParkingError::PlateTooLong)
        } else {
            Ok(Plate { text: String::from_str(text) })
        }
    }

    /// Whether two plates name the same vehicle.
    pub fn same(&self, other: &Plate) -> (r: bool)
        ensures
            r == (self@ == other@),
    {
        self.text == other.text
    }

    /// The plate's text.
    pub fn as_str(&self) -> (r: &str)
        ensures
            r@ == self@,
    {
        self.text.as_str()
    }
}

/// An account's address: the identity that authorization is checked against.
#[derive(Debug, PartialEq, Eq, Hash)]
pub struct Address {
    pub key: String,
}

impl View for Address {
    type V = Seq<char>;

    open spec fn view(&self) -> Seq<char> {
        self.key@
    }
}

impl Clone for Address {
    fn clone(&self) -> (r: Self)
        ensures
            r == *self,
    {
        Address { key: self.key.clone() }
    }
}

impl Address {
    /// Makes an address from its textual key.
    pub fn new(key: &str) -> (r: Address)
        ensures
            r@ == key@,
    {
        Address { key: String::from_str(key) }
    }

    /// Whether two addresses are the same account.
    pub fn same(&self, other: &Address) -> (r: bool)
        ensures
            r == (self@ == other@),
    {
        self.key == other.key
    }

    /// The address's textual key.
    pub fn as_str(&self) -> (r: &str)
        ensures
            r@ == self@,
    {
        self.key.as_str()
    }
}

/// Why a fine was issued.
#[derive(Copy, Clone, Debug, PartialEq, Eq, Structural, Hash)]
pub enum FineReason {
    /// The paid duration of a ticket elapsed before the vehicle left.
    Expired,
    /// The vehicle was found parked without a ticket.
    NoTicket,
    /// The fine stayed unpaid for so long that it was doubled.
    Overdue,
}

/// One active hourly-parking session.
#[derive(Debug, PartialEq, Eq)]
pub struct ParkingTicket {
    pub plate: Plate,
    pub entry_time: u64,
    pub hours_paid: u32,
    pub amount_paid: i128,
    pub has_exited: bool,
}

impl Clone for ParkingTicket {
    fn clone(&self) -> (r: Self)
        ensures
            r == *self,
    {
        ParkingTicket {
            plate: self.plate.clone(),
            entry_time: self.entry_time,
            hours_paid: self.hours_paid,
            amount_paid: self.amount_paid,
            has_exited: self.has_exited,
        }
    }
}

impl ParkingTicket {
    /// The last instant at which the ticket still covers the vehicle.
    pub open spec fn expiry(self) -> int {
        self.entry_time + self.hours_paid * SECONDS_PER_HOUR
    }

    /// Whether the paid duration has elapsed at `now`.
    pub open spec fn expired_at(self, now: u64) -> bool {
        now > self.expiry()
    }

    /// Returns whether the paid duration has elapsed at `now`.
    pub fn is_expired(&self, now: u64) -> (r: bool)
        ensures
            r == self.expired_at(now),
    {
        if now <= self.entry_time {
            false
        } else {
            let elapsed: u64 = now - self.entry_time;
            let paid: u64 = (self.hours_paid as u64) * SECONDS_PER_HOUR;
            elapsed > paid
        }
    }
}

/// A year-long parking entitlement for one plate.
#[derive(Debug, PartialEq, Eq)]
pub struct AnnualPass {
    pub plate: Plate,
    pub purchase_time: u64,
    pub amount_paid: i128,
}

impl Clone for AnnualPass {
    fn clone(&self) -> (r: Self)
        ensures
            r == *self,
    {
        AnnualPass {
            plate: self.plate.clone(),
            purchase_time: self.purchase_time,
            amount_paid: self.amount_paid,
        }
    }
}

impl AnnualPass {
    /// Whether the pass is valid at `now`: strictly less than a year after
    /// its purchase.
    pub open spec fn valid_at(self, now: u64) -> bool {
        now < self.purchase_time + SECONDS_PER_YEAR
    }

    /// Returns whether the pass is valid at `now`.
    pub fn is_valid(&self, now: u64) -> (r: bool)
        ensures
            r == self.valid_at(now),
    {
        now < self.purchase_time || now - self.purchase_time < SECONDS_PER_YEAR
    }
}

/// An unpaid penalty owed for a plate.
#[derive(Debug, PartialEq, Eq)]
pub struct FineRecord {
    pub plate: Plate,
    pub issue_time: u64,
    pub fine_amount: i128,
    pub is_paid: bool,
    pub reason: FineReason,
}

impl Clone for FineRecord {
    fn clone(&self) -> (r: Self)
        ensures
            r == *self,
    {
        FineRecord {
            plate: self.plate.clone(),
            issue_time: self.issue_time,
            fine_amount: self.fine_amount,
            is_paid: self.is_paid,
            reason: self.reason,
        }
    }
}

impl FineRecord {
    /// How long the fine has been outstanding at `now`, zero if `now` is
    /// earlier than its issue.
    pub open spec fn age_at(self, now: u64) -> int {
        if now >= self.issue_time {
            now - self.issue_time
        } else {
            0
        }
    }

    /// Whether the fine is overdue at `now`: outstanding for more than
    /// `OVERDUE_AFTER` seconds.
    pub open spec fn overdue_at(self, now: u64) -> bool {
        self.age_at(now) > OVERDUE_AFTER
    }

    /// Returns how long the fine has been outstanding at `now`.
    pub fn age(&self, now: u64) -> (r: u64)
        ensures
            r == self.age_at(now),
    {
        if now >= self.issue_time {
            now - self.issue_time
        } else {
            0
        }
    }
}

/// Prices, capacity and the revenue counter.
#[derive(Copy, Clone, Debug, PartialEq, Eq, Structural)]
pub struct ParkingConfig {
    pub hourly_price: i128,
    pub annual_price: i128,
    pub total_spots: u32,
    pub total_revenue: i128,
}

/// A pending request to withdraw revenue, waiting for a second administrator.
#[derive(Debug, PartialEq, Eq)]
pub struct WithdrawalProposal {
    pub proposer: Address,
    pub amount: i128,
    pub recipient: Address,
    pub timestamp: u64,
}

impl Clone for WithdrawalProposal {
    fn clone(&self) -> (r: Self)
        ensures
            r == *self,
    {
        WithdrawalProposal {
            proposer: self.proposer.clone(),
            amount: self.amount,
            recipient: self.recipient.clone(),
            timestamp: self.timestamp,
        }
    }
}

} // verus!
