//! The error kinds that ledger operations report.

use vstd::prelude::*;

verus! {

/// Why a ledger operation was refused.
#[derive(Copy, Clone, Debug, PartialEq, Eq, Structural, PartialOrd, Ord, Hash)]
pub enum ParkingError {
    /// The caller is not a registered administrator.
    NotAdmin,
    /// The plate already holds a ticket or a valid pass.
    AlreadyParked,
    /// The plate holds no record of the kind the operation needs.
    NotParked,
    /// The paid duration of the ticket has elapsed.
    TicketExpired,
    /// The payment (or a price) is below what the operation asks for.
    InsufficientPayment,
    /// The number of hours is outside 1..=24.
    InvalidHours,
    /// The plate identifier is longer than a plate may be.
    PlateTooLong,
    /// A guarded operation was entered while the guard was held.
    ReentrancyDetected,
    /// Two distinct administrators are needed.
    MultiAuthRequired,
    /// The ledger has not been initialized.
    NotInitialized,
    /// The ledger has already been initialized.
    AlreadyInitialized,
    /// An administrator address was rejected.
    InvalidAdmin,
    /// The amount exceeds the revenue on hand.
    InsufficientRevenue,
    /// The plate has an outstanding fine.
    FinePaymentRequired,
}

impl ParkingError {
    /// The numeric code of the error kind, as callers across a wire see it.
    pub open spec fn spec_code(self) -> u32 {
        match self {
            ParkingError::NotAdmin => 1,
            ParkingError::AlreadyParked => 2,
            ParkingError::NotParked => 3,
            ParkingError::TicketExpired => 4,
            ParkingError::InsufficientPayment => 5,
            ParkingError::InvalidHours => 6,
            ParkingError::PlateTooLong => 7,
            ParkingError::ReentrancyDetected => 8,
            ParkingError::MultiAuthRequired => 9,
            ParkingError::NotInitialized => 10,
            ParkingError::AlreadyInitialized => 11,
            ParkingError::InvalidAdmin => 12,
            ParkingError::InsufficientRevenue => 13,
            ParkingError::FinePaymentRequired => 14,
        }
    }

    /// Returns the numeric code of the error kind.
    pub fn code(self) -> (c: u32)
        ensures
            c == self.spec_code(),
            1 <= c <= 14,
    {
        match self {
            ParkingError::NotAdmin => 1,
            ParkingError::AlreadyParked => 2,
            ParkingError::NotParked => 3,
            ParkingError::TicketExpired => 4,
            ParkingError::InsufficientPayment => 5,
            ParkingError::InvalidHours => 6,
            ParkingError::PlateTooLong => 7,
            ParkingError::ReentrancyDetected => 8,
            ParkingError::MultiAuthRequired => 9,
            ParkingError::NotInitialized => 10,
            ParkingError::AlreadyInitialized => 11,
            ParkingError::InvalidAdmin => 12,
            ParkingError::InsufficientRevenue => 13,
            ParkingError::FinePaymentRequired => 14,
        }
    }
}

} // verus!
