//! The administrative sweep that turns expired tickets into fines, and the
//! per-plate status that the ledger's rules keep unambiguous.

use crate::errors::ParkingError;
use crate::hourly::{base_fine, expiry_fine};
use crate::ledger::{same_admins, LedgerView, ParkingContract};
use crate::storage::{
    clear_reentrancy_guard, get_hourly_price, has_active_ticket, has_unpaid_fine,
    has_valid_annual_pass, is_admin, remove_ticket, set_reentrancy_guard, store_fine,
};
use crate::types::{Address, FineReason, FineRecord, ParkingConfig, Plate};
use vstd::prelude::*;

verus! {

/// What a plate holds, in the order in which it is looked up: a fine
/// before a ticket, a ticket before a valid pass.
#[derive(Copy, Clone, Debug, PartialEq, Eq, Structural, Hash)]
pub enum PlateStatus {
    /// Neither ticket, nor valid pass, nor fine.
    Free,
    /// An hourly ticket.
    HasTicket,
    /// An annual pass that is valid now.
    HasPass,
    /// An outstanding fine.
    HasFine,
}

/// The status of `plate` at `now`.
pub open spec fn status_of(v: LedgerView, plate: Seq<char>, now: u64) -> PlateStatus {
    if v.has_fine(plate) {
        PlateStatus::HasFine
    } else if v.has_ticket(plate) {
        PlateStatus::HasTicket
    } else if v.has_valid_pass(plate, now) {
        PlateStatus::HasPass
    } else {
        PlateStatus::Free
    }
}

/// Whether `plate` is named in `plates`.
pub open spec fn listed(plates: Seq<Plate>, plate: Seq<char>) -> bool {
    exists|i: int| 0 <= i < plates.len() && #[trigger] plates[i]@ == plate
}

/// Whether a sweep of `plates` at `now` turns the ticket of `plate` into a
/// fine: the plate is listed and holds a ticket that has expired.
pub open spec fn swept(v: LedgerView, plates: Seq<Plate>, plate: Seq<char>, now: u64) -> bool {
    listed(plates, plate) && v.has_ticket(plate) && v.tickets[plate].expired_at(now)
}

/// The ledger after looking at one plate: an expired ticket is replaced by
/// a fine of twice the hourly price, anything else stays.
pub open spec fn sweep_one(v: LedgerView, plate: Plate, now: u64) -> LedgerView {
    if v.has_ticket(plate@) && v.tickets[plate@].expired_at(now) {
        LedgerView {
            tickets: v.tickets.remove(plate@),
            fines: v.fines.insert(plate@, expiry_fine(plate, v.config.hourly_price, now)),
            ..v
        }
    } else {
        v
    }
}

/// The ledger after looking at each of `plates` in turn.
pub open spec fn sweep(v: LedgerView, plates: Seq<Plate>, now: u64) -> LedgerView
    decreases plates.len(),
{
    if plates.len() == 0 {
        v
    } else {
        sweep_one(sweep(v, plates.drop_last(), now), plates.last(), now)
    }
}

/// What a sweep does, plate by plate.
///
/// It touches tickets and fines only. A ticket is gone exactly when its
/// plate was swept, and every other ticket is as before. A swept plate has
/// a fine of twice the hourly price, issued at `now` against that plate,
/// unpaid, for expiry; every other fine is as before and none is added.
pub proof fn sweep_effect(v: LedgerView, plates: Seq<Plate>, now: u64)
    ensures
        sweep(v, plates, now) == (LedgerView {
            tickets: sweep(v, plates, now).tickets,
            fines: sweep(v, plates, now).fines,
            ..v
        }),
        forall|p: Seq<char>| #[trigger]
            sweep(v, plates, now).tickets.contains_key(p) <==> v.tickets.contains_key(p) && !swept(
                v,
                plates,
                p,
                now,
            ),
        forall|p: Seq<char>| #[trigger]
            sweep(v, plates, now).tickets.contains_key(p) ==> sweep(v, plates, now).tickets[p]
                == v.tickets[p],
        forall|p: Seq<char>| #[trigger]
            sweep(v, plates, now).fines.contains_key(p) <==> v.fines.contains_key(p) || swept(
                v,
                plates,
                p,
                now,
            ),
        forall|p: Seq<char>|
            swept(v, plates, p, now) ==> {
                let fine = #[trigger] sweep(v, plates, now).fines[p];
                &&& fine.plate@ == p
                &&& fine.issue_time == now
                &&& fine.fine_amount == base_fine(v.config.hourly_price) as i128
                &&& !fine.is_paid
                &&& fine.reason == FineReason::Expired
            },
        forall|p: Seq<char>|
            !swept(v, plates, p, now) && v.fines.contains_key(p) ==> #[trigger] sweep(
                v,
                plates,
                now,
            ).fines[p] == v.fines[p],
    decreases plates.len(),
{
    if plates.len() > 0 {
        let head = plates.drop_last();
        let last = plates.last();
        let mid = sweep(v, head, now);
        let end = sweep(v, plates, now);
        sweep_effect(v, head, now);
        assert(end == sweep_one(mid, last, now));
        assert forall|p: Seq<char>| listed(plates, p) <==> (listed(head, p) || p == last@) by {
            if listed(head, p) {
                let i = choose|i: int| 0 <= i < head.len() && #[trigger] head[i]@ == p;
                assert(plates[i]@ == p);
            }
            if p == last@ {
                assert(plates[plates.len() - 1]@ == p);
            }
            if listed(plates, p) {
                let i = choose|i: int| 0 <= i < plates.len() && #[trigger] plates[i]@ == p;
                if i < head.len() {
                    assert(head[i]@ == p);
                }
            }
        }
        assert forall|p: Seq<char>| #[trigger]
            end.tickets.contains_key(p) <==> v.tickets.contains_key(p) && !swept(
                v,
                plates,
                p,
                now,
            ) by {
            assert(mid.tickets.contains_key(p) <==> v.tickets.contains_key(p) && !swept(
                v,
                head,
                p,
                now,
            ));
        }
        assert forall|p: Seq<char>| #[trigger] end.tickets.contains_key(p) implies end.tickets[p]
            == v.tickets[p] by {
            assert(mid.tickets.contains_key(p));
        }
        assert forall|p: Seq<char>| #[trigger]
            end.fines.contains_key(p) <==> v.fines.contains_key(p) || swept(v, plates, p, now) by {
            assert(mid.fines.contains_key(p) <==> v.fines.contains_key(p) || swept(
                v,
                head,
                p,
                now,
            ));
            assert(mid.tickets.contains_key(p) <==> v.tickets.contains_key(p) && !swept(
                v,
                head,
                p,
                now,
            ));
            if mid.tickets.contains_key(p) {
                assert(mid.tickets[p] == v.tickets[p]);
            }
        }
        assert forall|p: Seq<char>| swept(v, plates, p, now) implies ({
            let fine = #[trigger] end.fines[p];
            &&& fine.plate@ == p
            &&& fine.issue_time == now
            &&& fine.fine_amount == base_fine(v.config.hourly_price) as i128
            &&& !fine.is_paid
            &&& fine.reason == FineReason::Expired
        }) by {
            assert(mid.tickets.contains_key(p) <==> v.tickets.contains_key(p) && !swept(
                v,
                head,
                p,
                now,
            ));
            if mid.tickets.contains_key(p) {
                assert(mid.tickets[p] == v.tickets[p]);
            }
            if swept(v, head, p, now) {
                let before = mid.fines[p];
                assert(before.plate@ == p);
            }
        }
        assert forall|p: Seq<char>| !swept(v, plates, p, now) && v.fines.contains_key(
            p,
        ) implies #[trigger] end.fines[p] == v.fines[p] by {
            assert(mid.fines[p] == v.fines[p]);
            assert(mid.tickets.contains_key(p) <==> v.tickets.contains_key(p) && !swept(
                v,
                head,
                p,
                now,
            ));
            if mid.tickets.contains_key(p) {
                assert(mid.tickets[p] == v.tickets[p]);
            }
        }
    }
}

/// A sweep does not depend on the reentrancy guard and leaves it alone.
proof fn sweep_ignores_guard(v: LedgerView, plates: Seq<Plate>, now: u64, guard: bool)
    ensures
        sweep(LedgerView { guard, ..v }, plates, now) == (LedgerView {
            guard,
            ..sweep(v, plates, now)
        }),
    decreases plates.len(),
{
    if plates.len() > 0 {
        sweep_ignores_guard(v, plates.drop_last(), now, guard);
    }
}

/// A sweep keeps mutual exclusion: a plate that was swept held a ticket,
/// so it had neither a valid pass nor a fine, and now has a fine alone.
pub proof fn sweep_keeps_exclusive(v: LedgerView, plates: Seq<Plate>, now: u64)
    requires
        v.exclusive(now),
    ensures
        sweep(v, plates, now).exclusive(now),
{
    sweep_effect(v, plates, now);
    let w = sweep(v, plates, now);
    assert forall|p: Seq<char>| #[trigger] w.exclusive_at(p, now) by {
        assert(v.exclusive_at(p, now));
        assert(w.tickets.contains_key(p) <==> v.tickets.contains_key(p) && !swept(
            v,
            plates,
            p,
            now,
        ));
        assert(w.fines.contains_key(p) <==> v.fines.contains_key(p) || swept(v, plates, p, now));
        assert(w.passes == v.passes);
    }
}

/// What a request for a sweep comes to, the first refusal that applies
/// winning.
pub open spec fn sweep_outcome(v: LedgerView, admin: Seq<char>) -> Result<(), ParkingError> {
    if v.guard {
        Err(ParkingError::ReentrancyDetected)
    } else if !v.is_admin(admin) {
        Err(ParkingError::NotAdmin)
    } else if !v.initialized {
        Err(ParkingError::NotInitialized)
    } else {
        Ok(())
    }
}

impl ParkingContract {
    /// Tells what a request for a sweep would come to, without sweeping.
    pub fn check_process_expired_tickets(&self, admin: &Address) -> (r: Result<(), ParkingError>)
        ensures
            r == sweep_outcome(self@, admin@),
    {
        if self.guard {
            return Err(ParkingError::ReentrancyDetected);
        }
        if !is_admin(self, admin) {
            return Err(ParkingError::NotAdmin);
        }
        if !self.initialized {
            return Err(ParkingError::NotInitialized);
        }
        Ok(())
    }

    /// Tells whether a sweep of `plates` at `now` would fine any plate.
    pub fn any_expired(&self, plates: &Vec<Plate>, now: u64) -> (found: bool)
        requires
            self.wf(),
        ensures
            found == exists|p: Seq<char>| swept(self@, plates@, p, now),
    {
        let mut i: usize = 0;
        while i < plates.len()
            invariant
                i <= plates@.len(),
                self.wf(),
                forall|j: int|
                    0 <= j < i ==> !(self@.has_ticket(#[trigger] plates@[j]@)
                        && self@.tickets[plates@[j]@].expired_at(now)),
            decreases plates@.len() - i,
        {
            match self.tickets.get(&plates[i]) {
                Some(ticket) => {
                    if ticket.is_expired(now) {
                        assert(plates@[i as int]@ == plates@[i as int]@);
                        assert(swept(self@, plates@, plates@[i as int]@, now));
                        return true;
                    }
                },
                None => {},
            }
            i = i + 1;
        }
        assert forall|p: Seq<char>| !swept(self@, plates@, p, now) by {
            if listed(plates@, p) {
                let j = choose|j: int| 0 <= j < plates@.len() && #[trigger] plates@[j]@ == p;
                assert(!(self@.has_ticket(plates@[j]@) && self@.tickets[plates@[j]@].expired_at(
                    now,
                )));
            }
        }
        false
    }

    /// Turns the expired tickets among `plates` into fines, on behalf of an
    /// administrator.
    ///
    /// Each listed plate whose ticket has expired at `now` loses the ticket
    /// and gets a fine of twice the hourly price; plates without a ticket,
    /// or with one still running, are passed over. A refused sweep leaves
    /// the ledger as it was.
    pub fn process_expired_tickets(&mut self, admin: &Address, plates: &Vec<Plate>, now: u64) -> (r:
        Result<(), ParkingError>)
        requires
            old(self).wf(),
            sweep_outcome(old(self)@, admin@) is Ok && (exists|p: Seq<char>|
                swept(old(self)@, plates@, p, now)) ==> i128::MIN <= base_fine(
                old(self)@.config.hourly_price,
            ) <= i128::MAX,
        ensures
            final(self).wf(),
            r == sweep_outcome(old(self)@, admin@),
            r is Err ==> *final(self) == *old(self),
            r is Ok ==> final(self)@ == sweep(old(self)@, plates@, now),
            old(self)@.exclusive(now) ==> final(self)@.exclusive(now),
    {
        set_reentrancy_guard(self)?;
        proof {
            same_admins(old(self)@, self@, admin@);
        }
        if !is_admin(self, admin) {
            clear_reentrancy_guard(self);
            return Err(ParkingError::NotAdmin);
        }
        let hourly_price = match get_hourly_price(self) {
            Ok(price) => price,
            Err(e) => {
                clear_reentrancy_guard(self);
                return Err(e);
            },
        };
        let ghost start = self@;
        proof {
            assert forall|p: Seq<char>| swept(start, plates@, p, now) implies swept(
                old(self)@,
                plates@,
                p,
                now,
            ) by {}
        }
        let mut i: usize = 0;
        while i < plates.len()
            invariant
                i <= plates@.len(),
                self.wf(),
                self@ == sweep(start, plates@.take(i as int), now),
                start.config.hourly_price == hourly_price,
                (exists|p: Seq<char>| swept(start, plates@, p, now)) ==> i128::MIN <= base_fine(
                    hourly_price,
                ) <= i128::MAX,
            decreases plates@.len() - i,
        {
            let plate = &plates[i];
            proof {
                sweep_effect(start, plates@.take(i as int), now);
                assert(plates@.take(i as int + 1).drop_last() == plates@.take(i as int));
                assert(plates@.take(i as int + 1).last() == plates@[i as int]);
            }
            match self.tickets.get(plate) {
                Some(ticket) => {
                    if ticket.is_expired(now) {
                        proof {
                            assert(start.tickets.contains_key(plate@));
                            assert(start.tickets[plate@] == *ticket);
                            assert(plates@[i as int]@ == plate@);
                            assert(swept(start, plates@, plate@, now));
                        }
                        let fine = FineRecord {
                            plate: plate.clone(),
                            issue_time: now,
                            fine_amount: hourly_price * 2,
                            is_paid: false,
                            reason: FineReason::Expired,
                        };
                        store_fine(self, plate, &fine);
                        remove_ticket(self, plate);
                    }
                },
                None => {},
            }
            i = i + 1;
        }
        clear_reentrancy_guard(self);
        proof {
            assert(plates@.take(plates@.len() as int) == plates@);
            sweep_ignores_guard(old(self)@, plates@, now, true);
            sweep_effect(old(self)@, plates@, now);
            if old(self)@.exclusive(now) {
                sweep_keeps_exclusive(old(self)@, plates@, now);
            }
        }
        Ok(())
    }

    /// Tells what `plate` holds at `now`.
    pub fn check_parking_status(&self, plate: &Plate, now: u64) -> (s: PlateStatus)
        requires
            self.wf(),
        ensures
            s == status_of(self@, plate@, now),
    {
        if has_unpaid_fine(self, plate) {
            PlateStatus::HasFine
        } else if has_active_ticket(self, plate) {
            PlateStatus::HasTicket
        } else if has_valid_annual_pass(self, plate, now) {
            PlateStatus::HasPass
        } else {
            PlateStatus::Free
        }
    }

    /// Prices, capacity and revenue, open to anyone.
    pub fn get_parking_info(&self) -> (info: ParkingConfig)
        ensures
            info == self@.config,
    {
        self.config
    }
}

} // verus!
