//! Properties of the ledger that hold across operations.

use crate::annual::{
    purchase_pass_effect, purchase_pass_outcome, renew_pass_effect, renew_pass_outcome,
};
use crate::errors::ParkingError;
use crate::fines::{
    pay_fine_effect, pay_fine_outcome, penalised, penalty_effect, penalty_outcome,
};
use crate::hourly::{
    exit_hourly_effect, purchase_ticket_effect, purchase_ticket_outcome,
};
use crate::ledger::{accepted, exclusive_after_change_at, LedgerView, ParkingContract};
use crate::types::Plate;
use crate::storage::{guard_outcome, guarded};
use crate::sweep::{status_of, PlateStatus};
use vstd::prelude::*;

verus! {

/// A ledger that was never touched holds no records, so no plate has two
/// kinds of them.
pub proof fn empty_ledger_is_exclusive(now: u64)
    ensures
        ParkingContract::empty_view().exclusive(now),
{
    let v = ParkingContract::empty_view();
    assert forall|p: Seq<char>| #[trigger] v.exclusive_at(p, now) by {}
}

/// Mutual exclusion survives the passing of time: a pass only ever stops
/// being valid, and tickets and fines do not come or go by themselves.
pub proof fn exclusive_persists(v: LedgerView, earlier: u64, later: u64)
    requires
        v.exclusive(earlier),
        earlier <= later,
    ensures
        v.exclusive(later),
{
    assert forall|p: Seq<char>| #[trigger] v.exclusive_at(p, later) by {
        assert(v.exclusive_at(p, earlier));
    }
}

/// Mutual exclusion is a matter of the three record stores alone: changes
/// to administrators, prices, revenue, the guard or the pending withdrawal
/// cannot break it.
pub proof fn exclusive_depends_on_records(v: LedgerView, w: LedgerView, now: u64)
    requires
        v.exclusive(now),
        w.tickets == v.tickets,
        w.passes == v.passes,
        w.fines == v.fines,
    ensures
        w.exclusive(now),
{
    assert forall|p: Seq<char>| #[trigger] w.exclusive_at(p, now) by {
        assert(v.exclusive_at(p, now));
    }
}

/// Buying a ticket keeps mutual exclusion, whatever the arguments and
/// whether the purchase is accepted or refused; and a ticket is only ever
/// sold to a plate that holds nothing.
pub proof fn ticket_purchase_keeps_exclusion(
    v: LedgerView,
    plate: Plate,
    hours: u32,
    payment: i128,
    now: u64,
)
    requires
        v.exclusive(now),
    ensures
        purchase_ticket_effect(v, plate, hours, payment, now).exclusive(now),
        purchase_ticket_outcome(v, plate@, hours, payment, now) is Ok ==> status_of(v, plate@, now)
            == PlateStatus::Free,
{
    exclusive_after_change_at(
        v,
        purchase_ticket_effect(v, plate, hours, payment, now),
        plate@,
        now,
    );
}

/// Buying a pass keeps mutual exclusion, whatever the arguments and whether
/// the purchase is accepted or refused; and a pass is only ever sold to a
/// plate with no ticket, no valid pass and no fine. A pass that has run out
/// does not stand in the way.
pub proof fn pass_purchase_keeps_exclusion(v: LedgerView, plate: Plate, payment: i128, now: u64)
    requires
        v.exclusive(now),
    ensures
        purchase_pass_effect(v, plate, payment, now).exclusive(now),
        purchase_pass_outcome(v, plate@, payment, now) is Ok ==> status_of(v, plate@, now)
            == PlateStatus::Free,
{
    exclusive_after_change_at(v, purchase_pass_effect(v, plate, payment, now), plate@, now);
}

/// Renewing a pass keeps mutual exclusion, whatever the arguments: a plate
/// with a ticket or a fine is refused.
pub proof fn renewal_keeps_exclusion(v: LedgerView, plate: Plate, payment: i128, now: u64)
    requires
        v.exclusive(now),
    ensures
        renew_pass_effect(v, plate, payment, now).exclusive(now),
        renew_pass_outcome(v, plate@, payment) is Ok ==> !v.has_ticket(plate@) && !v.has_fine(
            plate@,
        ),
{
    exclusive_after_change_at(v, renew_pass_effect(v, plate, payment, now), plate@, now);
}

/// Leaving on a ticket keeps mutual exclusion, whether the exit succeeds,
/// turns the ticket into a fine, or is refused.
pub proof fn exit_keeps_exclusion(v: LedgerView, plate: Plate, now: u64)
    requires
        v.exclusive(now),
    ensures
        exit_hourly_effect(v, plate, now).exclusive(now),
{
    exclusive_after_change_at(v, exit_hourly_effect(v, plate, now), plate@, now);
}

/// Paying a fine and doubling one keep mutual exclusion at every time.
pub proof fn fines_keep_exclusion(
    v: LedgerView,
    caller: Seq<char>,
    plate: Seq<char>,
    payment: i128,
    now: u64,
    at: u64,
)
    requires
        v.exclusive(at),
    ensures
        pay_fine_effect(v, plate, payment).exclusive(at),
        penalty_effect(v, caller, plate, now).exclusive(at),
{
    exclusive_after_change_at(v, pay_fine_effect(v, plate, payment), plate, at);
    exclusive_after_change_at(v, penalty_effect(v, caller, plate, now), plate, at);
}

/// A fine is doubled at most once.
///
/// An accepted penalty doubles the amount and marks the fine; and a fine
/// that is marked is left exactly as it is by every later request, whoever
/// makes it and whenever. So after one accepted penalty no request changes
/// the amount again.
pub proof fn penalty_applies_once(
    v: LedgerView,
    caller: Seq<char>,
    plate: Seq<char>,
    now: u64,
    next_caller: Seq<char>,
    later: u64,
)
    requires
        penalty_outcome(v, caller, plate, now) is Ok,
    ensures
        !penalised(v, plate),
        penalised(penalty_effect(v, caller, plate, now), plate),
        penalty_outcome(penalty_effect(v, caller, plate, now), next_caller, plate, later) is Err,
        penalty_effect(penalty_effect(v, caller, plate, now), next_caller, plate, later)
            == penalty_effect(v, caller, plate, now),
        penalty_effect(
            penalty_effect(v, caller, plate, now),
            next_caller,
            plate,
            later,
        ).fines[plate].fine_amount == penalty_effect(v, caller, plate, now).fines[plate].fine_amount,
{
}

/// A fine that carries the penalty is refused a further one, and the
/// refusal changes nothing, whatever else the ledger holds.
pub proof fn penalised_fine_is_left_alone(v: LedgerView, caller: Seq<char>, plate: Seq<char>, now: u64)
    requires
        penalised(v, plate),
    ensures
        penalty_outcome(v, caller, plate, now) is Err,
        penalty_effect(v, caller, plate, now) == v,
{
}

/// Buying a ticket with a positive hourly price never lowers revenue: an
/// accepted purchase pays at least the price of its hours, which is
/// positive, and a refused one leaves the ledger as it was.
pub proof fn ticket_purchase_never_lowers_revenue(
    v: LedgerView,
    plate: Plate,
    hours: u32,
    payment: i128,
    now: u64,
)
    requires
        v.config.hourly_price > 0,
    ensures
        purchase_ticket_outcome(v, plate@, hours, payment, now) is Ok ==> payment
            >= v.config.hourly_price * hours > 0,
        purchase_ticket_outcome(v, plate@, hours, payment, now) is Err ==> purchase_ticket_effect(
            v,
            plate,
            hours,
            payment,
            now,
        ) == v,
        v.revenue_fits(accepted(purchase_ticket_outcome(v, plate@, hours, payment, now), payment))
            ==> purchase_ticket_effect(v, plate, hours, payment, now).config.total_revenue
            == v.config.total_revenue + accepted(
            purchase_ticket_outcome(v, plate@, hours, payment, now),
            payment,
        ) >= v.config.total_revenue,
{
    assert(hours >= 1 ==> v.config.hourly_price * hours > 0) by (nonlinear_arith)
        requires
            v.config.hourly_price > 0,
    ;
}

/// With prices and fines that are not negative, no accepted payment is
/// negative: what a purchase, a renewal or a fine payment contributes to
/// revenue is at least the price, and a refusal contributes nothing. So
/// revenue never goes down by a payment.
pub proof fn accepted_payments_are_not_negative(
    v: LedgerView,
    plate: Seq<char>,
    hours: u32,
    payment: i128,
    now: u64,
)
    ensures
        v.config.hourly_price >= 0 ==> accepted(
            purchase_ticket_outcome(v, plate, hours, payment, now),
            payment,
        ) >= 0,
        purchase_ticket_outcome(v, plate, hours, payment, now) is Ok ==> payment
            >= v.config.hourly_price * hours,
        v.config.annual_price >= 0 ==> accepted(
            purchase_pass_outcome(v, plate, payment, now),
            payment,
        ) >= 0 && accepted(renew_pass_outcome(v, plate, payment), payment) >= 0,
        purchase_pass_outcome(v, plate, payment, now) is Ok || renew_pass_outcome(
            v,
            plate,
            payment,
        ) is Ok ==> payment >= v.config.annual_price,
        v.has_fine(plate) && v.fines[plate].fine_amount >= 0 ==> accepted(
            pay_fine_outcome(v, plate, payment),
            payment,
        ) >= 0,
        pay_fine_outcome(v, plate, payment) is Ok ==> payment >= v.fines[plate].fine_amount,
{
    assert(v.config.hourly_price >= 0 ==> v.config.hourly_price * hours >= 0) by (nonlinear_arith);
}

/// Under mutual exclusion the status of a plate names the one kind of
/// record that it holds, and `Free` means that it holds none.
pub proof fn status_is_unambiguous(v: LedgerView, plate: Seq<char>, now: u64)
    requires
        v.exclusive(now),
    ensures
        status_of(v, plate, now) == PlateStatus::HasTicket <==> v.has_ticket(plate),
        status_of(v, plate, now) == PlateStatus::HasPass <==> v.has_valid_pass(plate, now),
        status_of(v, plate, now) == PlateStatus::HasFine <==> v.has_fine(plate),
        status_of(v, plate, now) == PlateStatus::Free <==> !v.has_ticket(plate)
            && !v.has_valid_pass(plate, now) && !v.has_fine(plate),
{
    assert(v.exclusive_at(plate, now));
}

/// The sum of a sequence of amounts.
pub open spec fn total(amounts: Seq<int>) -> int
    decreases amounts.len(),
{
    if amounts.len() == 0 {
        0
    } else {
        total(amounts.drop_last()) + amounts.last()
    }
}

/// Revenue is the sum of what was accepted.
///
/// `states` are the ledgers before, between and after a run of payments and
/// `accepted` what each payment contributed: all of it when the payment
/// succeeded, nothing when it was refused. Then the revenue at the end is
/// the revenue at the start plus the sum of the contributions; and when no
/// contribution is negative, revenue never goes down along the run.
pub proof fn revenue_is_sum_of_payments(states: Seq<LedgerView>, accepted: Seq<int>)
    requires
        states.len() == accepted.len() + 1,
        forall|i: int|
            0 <= i < accepted.len() ==> (#[trigger] states[i + 1]).config.total_revenue
                == states[i].config.total_revenue + accepted[i],
    ensures
        states.last().config.total_revenue == states[0].config.total_revenue + total(accepted),
        (forall|i: int| 0 <= i < accepted.len() ==> accepted[i] >= 0) ==> forall|i: int, j: int|
            0 <= i <= j < states.len() ==> states[i].config.total_revenue
                <= states[j].config.total_revenue,
    decreases accepted.len(),
{
    if accepted.len() > 0 {
        let n = accepted.len() as int;
        let head_states = states.drop_last();
        let head = accepted.drop_last();
        assert forall|i: int| 0 <= i < head.len() implies (#[trigger] head_states[i
            + 1]).config.total_revenue == head_states[i].config.total_revenue + head[i] by {
            assert(states[i + 1].config.total_revenue == states[i].config.total_revenue
                + accepted[i]);
        }
        revenue_is_sum_of_payments(head_states, head);
        assert(states[(n - 1) + 1].config.total_revenue == states[n - 1].config.total_revenue
            + accepted[n - 1]);
        assert(head_states.last() == states[n - 1]);
        assert(head_states[0] == states[0]);
        if forall|i: int| 0 <= i < accepted.len() ==> accepted[i] >= 0 {
            assert forall|i: int| 0 <= i < head.len() implies head[i] >= 0 by {
                assert(accepted[i] >= 0);
            }
            assert(accepted[n - 1] >= 0);
            assert forall|i: int, j: int| 0 <= i <= j < states.len() implies states[i].config.total_revenue
                <= states[j].config.total_revenue by {
                if j < n {
                    assert(head_states[i] == states[i]);
                    assert(head_states[j] == states[j]);
                } else if i < n {
                    assert(head_states[i] == states[i]);
                    assert(head_states[n - 1] == states[n - 1]);
                }
            }
        }
    }
}

/// Taking the guard twice without releasing it fails the second time,
/// whatever the first attempt came to.
pub proof fn second_entry_is_refused(v: LedgerView)
    ensures
        guard_outcome(guarded(v)) == Err::<(), ParkingError>(ParkingError::ReentrancyDetected),
{
}

} // verus!
