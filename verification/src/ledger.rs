//! The ledger's state and the predicates that its operations are stated over.

use crate::errors::ParkingError;
use crate::table::Table;
use crate::types::{Address, AnnualPass, FineRecord, ParkingConfig, ParkingTicket, WithdrawalProposal};
use vstd::prelude::*;

verus! {

/// The whole state of one parking ledger.
///
/// Tickets and the reentrancy guard are short-lived data; passes, fines,
/// prices, administrators and revenue are durable.
pub struct ParkingContract {
    /// Set exactly once, by initialization.
    pub initialized: bool,
    /// The registered administrators.
    pub admins: Vec<Address>,
    /// Prices, capacity and revenue.
    pub config: ParkingConfig,
    /// Whether a guarded operation is in progress.
    pub guard: bool,
    /// The active ticket of each plate.
    pub tickets: Table<ParkingTicket>,
    /// The annual pass of each plate.
    pub passes: Table<AnnualPass>,
    /// The outstanding fine of each plate.
    pub fines: Table<FineRecord>,
    /// The pending withdrawal, if one was proposed.
    pub proposal: Option<WithdrawalProposal>,
}

/// The ledger as a mathematical value.
pub struct LedgerView {
    pub initialized: bool,
    pub admins: Seq<Address>,
    pub config: ParkingConfig,
    pub guard: bool,
    pub tickets: Map<Seq<char>, ParkingTicket>,
    pub passes: Map<Seq<char>, AnnualPass>,
    pub fines: Map<Seq<char>, FineRecord>,
    pub proposal: Option<WithdrawalProposal>,
}

impl LedgerView {
    /// Whether `who` is one of the registered administrators.
    pub open spec fn is_admin(self, who: Seq<char>) -> bool {
        exists|i: int| 0 <= i < self.admins.len() && #[trigger] self.admins[i]@ == who
    }

    /// Whether the plate holds a ticket.
    pub open spec fn has_ticket(self, plate: Seq<char>) -> bool {
        self.tickets.contains_key(plate)
    }

    /// Whether the plate holds a pass that is valid at `now`.
    pub open spec fn has_valid_pass(self, plate: Seq<char>, now: u64) -> bool {
        self.passes.contains_key(plate) && self.passes[plate].valid_at(now)
    }

    /// Whether the plate has an outstanding fine.
    pub open spec fn has_fine(self, plate: Seq<char>) -> bool {
        self.fines.contains_key(plate)
    }

    /// At most one of ticket, valid pass and fine exists for the plate.
    pub open spec fn exclusive_at(self, plate: Seq<char>, now: u64) -> bool {
        &&& !(self.has_ticket(plate) && self.has_valid_pass(plate, now))
        &&& !(self.has_ticket(plate) && self.has_fine(plate))
        &&& !(self.has_valid_pass(plate, now) && self.has_fine(plate))
    }

    /// At most one of ticket, valid pass and fine exists for every plate.
    pub open spec fn exclusive(self, now: u64) -> bool {
        forall|plate: Seq<char>| #[trigger] self.exclusive_at(plate, now)
    }

    /// Whether `plate` holds the same kinds of record here and in `other`
    /// at `now`.
    pub open spec fn same_holdings(self, other: LedgerView, plate: Seq<char>, now: u64) -> bool {
        &&& self.has_ticket(plate) == other.has_ticket(plate)
        &&& self.has_valid_pass(plate, now) == other.has_valid_pass(plate, now)
        &&& self.has_fine(plate) == other.has_fine(plate)
    }

    /// Whether the revenue counter can change by `amount` without leaving
    /// the range of its type.
    pub open spec fn revenue_fits(self, amount: int) -> bool {
        i128::MIN <= self.config.total_revenue + amount <= i128::MAX
    }

    /// The ledger with its revenue changed by `amount`.
    pub open spec fn with_revenue_added(self, amount: int) -> LedgerView
        recommends
            self.revenue_fits(amount),
    {
        LedgerView {
            config: ParkingConfig {
                total_revenue: (self.config.total_revenue + amount) as i128,
                ..self.config
            },
            ..self
        }
    }
}

/// Who is an administrator depends on the list of administrators alone.
pub proof fn same_admins(v: LedgerView, w: LedgerView, who: Seq<char>)
    requires
        v.admins == w.admins,
    ensures
        v.is_admin(who) == w.is_admin(who),
{
    if v.is_admin(who) {
        let i = choose|i: int| 0 <= i < v.admins.len() && #[trigger] v.admins[i]@ == who;
        assert(w.admins[i]@ == who);
    }
    if w.is_admin(who) {
        let i = choose|i: int| 0 <= i < w.admins.len() && #[trigger] w.admins[i]@ == who;
        assert(v.admins[i]@ == who);
    }
}

/// A change to what one plate holds keeps mutual exclusion, as long as
/// that plate is left with at most one kind of record.
pub proof fn exclusive_after_change_at(pre: LedgerView, post: LedgerView, plate: Seq<char>, now: u64)
    requires
        pre.exclusive(now),
        pre.exclusive_at(plate, now) ==> post.exclusive_at(plate, now),
        forall|p: Seq<char>| p != plate ==> #[trigger] post.same_holdings(pre, p, now),
    ensures
        post.exclusive(now),
{
    assert forall|p: Seq<char>| #[trigger] post.exclusive_at(p, now) by {
        assert(pre.exclusive_at(p, now));
        if p != plate {
            assert(post.same_holdings(pre, p, now));
        }
    }
}

/// What a payment contributes to revenue: all of it when it was accepted,
/// nothing when it was refused.
pub open spec fn accepted(r: Result<(), ParkingError>, payment: i128) -> int {
    if r is Ok {
        payment as int
    } else {
        0
    }
}

impl View for ParkingContract {
    type V = LedgerView;

    open spec fn view(&self) -> LedgerView {
        LedgerView {
            initialized: self.initialized,
            admins: self.admins@,
            config: self.config,
            guard: self.guard,
            tickets: self.tickets@,
            passes: self.passes@,
            fines: self.fines@,
            proposal: self.proposal,
        }
    }
}

impl ParkingContract {
    /// The three record stores are well formed. Every operation keeps this.
    pub open spec fn wf(&self) -> bool {
        self.tickets.wf() && self.passes.wf() && self.fines.wf()
    }

    /// A ledger that has not been initialized: no administrators, no
    /// records, zero prices and revenue, guard free.
    pub open spec fn empty_view() -> LedgerView {
        LedgerView {
            initialized: false,
            admins: Seq::empty(),
            config: ParkingConfig {
                hourly_price: 0,
                annual_price: 0,
                total_spots: 0,
                total_revenue: 0,
            },
            guard: false,
            tickets: Map::empty(),
            passes: Map::empty(),
            fines: Map::empty(),
            proposal: None,
        }
    }

    /// Makes a ledger that has not been initialized.
    pub fn new() -> (c: ParkingContract)
        ensures
            c.wf(),
            c@ == Self::empty_view(),
    {
        ParkingContract {
            initialized: false,
            admins: Vec::new(),
            config: ParkingConfig {
                hourly_price: 0,
                annual_price: 0,
                total_spots: 0,
                total_revenue: 0,
            },
            guard: false,
            tickets: Table::new(),
            passes: Table::new(),
            fines: Table::new(),
            proposal: None,
        }
    }
}

} // verus!
