//! Administration: who may act, price changes, and the two-administrator
//! withdrawal of revenue.
//!
//! A withdrawal needs two distinct administrators. The proposal carries the
//! first signature; the approval of any other administrator is the second
//! and executes the withdrawal at once.

use crate::errors::ParkingError;
use crate::ledger::{LedgerView, ParkingContract};
use crate::storage::{
    get_total_revenue, is_admin, is_initialized, set_annual_price, set_hourly_price,
    withdraw_revenue,
};
use crate::types::{Address, ParkingConfig, WithdrawalProposal};
use vstd::prelude::*;

verus! {

/// Confirms that `caller` is a registered administrator; fails with
/// `NotAdmin` otherwise.
pub fn require_admin(c: &ParkingContract, caller: &Address) -> (r: Result<(), ParkingError>)
    ensures
        r == if c@.is_admin(caller@) {
            Ok::<(), ParkingError>(())
        } else {
            Err::<(), ParkingError>(ParkingError::NotAdmin)
        },
{
    if is_admin(c, caller) {
        Ok(())
    } else {
        Err(ParkingError::NotAdmin)
    }
}

/// Confirms that `first` and `second` are two distinct registered
/// administrators; fails with `MultiAuthRequired` otherwise.
pub fn require_multi_admin(c: &ParkingContract, first: &Address, second: &Address) -> (r: Result<
    (),
    ParkingError,
>)
    ensures
        r == if c@.is_admin(first@) && c@.is_admin(second@) && first@ != second@ {
            Ok::<(), ParkingError>(())
        } else {
            Err::<(), ParkingError>(ParkingError::MultiAuthRequired)
        },
{
    if !is_admin(c, first) || !is_admin(c, second) || first.same(second) {
        Err(ParkingError::MultiAuthRequired)
    } else {
        Ok(())
    }
}

/// What a price update comes to, the first refusal that applies winning.
pub open spec fn update_price_outcome(v: LedgerView, caller: Seq<char>, new_price: i128) -> Result<
    (),
    ParkingError,
> {
    if !v.initialized {
        Err(ParkingError::NotInitialized)
    } else {
        crate::storage::price_change_outcome(v, caller, new_price)
    }
}

/// Changes the hourly price on behalf of one administrator of an
/// initialized ledger. A refused update leaves the ledger as it was.
pub fn update_hourly_price(c: &mut ParkingContract, caller: &Address, new_price: i128) -> (r: Result<
    (),
    ParkingError,
>)
    ensures
        old(c).wf() ==> final(c).wf(),
        r == update_price_outcome(old(c)@, caller@, new_price),
        r is Err ==> *final(c) == *old(c),
        r is Ok ==> final(c)@ == (LedgerView {
            config: ParkingConfig { hourly_price: new_price, ..old(c)@.config },
            ..old(c)@
        }),
{
    if !is_initialized(c) {
        return Err(ParkingError::NotInitialized);
    }
    set_hourly_price(c, caller, new_price)
}

/// Changes the annual price on behalf of one administrator of an
/// initialized ledger. A refused update leaves the ledger as it was.
pub fn update_annual_price(c: &mut ParkingContract, caller: &Address, new_price: i128) -> (r: Result<
    (),
    ParkingError,
>)
    ensures
        old(c).wf() ==> final(c).wf(),
        r == update_price_outcome(old(c)@, caller@, new_price),
        r is Err ==> *final(c) == *old(c),
        r is Ok ==> final(c)@ == (LedgerView {
            config: ParkingConfig { annual_price: new_price, ..old(c)@.config },
            ..old(c)@
        }),
{
    if !is_initialized(c) {
        return Err(ParkingError::NotInitialized);
    }
    set_annual_price(c, caller, new_price)
}

/// What proposing a withdrawal comes to, the first refusal that applies
/// winning.
pub open spec fn propose_outcome(v: LedgerView, caller: Seq<char>, amount: i128) -> Result<
    (),
    ParkingError,
> {
    if !v.initialized {
        Err(ParkingError::NotInitialized)
    } else if !v.is_admin(caller) {
        Err(ParkingError::NotAdmin)
    } else if amount > v.config.total_revenue {
        Err(ParkingError::InsufficientRevenue)
    } else {
        Ok(())
    }
}

/// Proposes to withdraw `amount` of revenue to `recipient`.
///
/// On success the proposal, stamped with `now`, takes the place of any
/// pending one; revenue is untouched until another administrator approves.
/// A refused proposal leaves the ledger as it was.
pub fn propose_withdrawal(
    c: &mut ParkingContract,
    caller: &Address,
    amount: i128,
    recipient: Address,
    now: u64,
) -> (r: Result<(), ParkingError>)
    ensures
        old(c).wf() ==> final(c).wf(),
        r == propose_outcome(old(c)@, caller@, amount),
        r is Err ==> *final(c) == *old(c),
        r is Ok ==> final(c)@ == (LedgerView {
            proposal: Some(
                WithdrawalProposal { proposer: *caller, amount, recipient, timestamp: now },
            ),
            ..old(c)@
        }),
{
    if !is_initialized(c) {
        return Err(ParkingError::NotInitialized);
    }
    if !is_admin(c, caller) {
        return Err(ParkingError::NotAdmin);
    }
    if amount > get_total_revenue(c) {
        return Err(ParkingError::InsufficientRevenue);
    }
    c.proposal = Some(
        WithdrawalProposal { proposer: caller.clone(), amount, recipient, timestamp: now },
    );
    Ok(())
}

/// What approving the pending withdrawal comes to, the first refusal that
/// applies winning. A proposer who approves their own proposal is refused
/// as `NotAdmin`; a missing proposal is reported as `NotParked`.
pub open spec fn approve_outcome(v: LedgerView, caller: Seq<char>) -> Result<(), ParkingError> {
    if !v.initialized {
        Err(ParkingError::NotInitialized)
    } else if !v.is_admin(caller) {
        Err(ParkingError::NotAdmin)
    } else if v.proposal is None {
        Err(ParkingError::NotParked)
    } else if v.proposal->Some_0.proposer@ == caller {
        Err(ParkingError::NotAdmin)
    } else if v.proposal->Some_0.amount > v.config.total_revenue {
        Err(ParkingError::InsufficientRevenue)
    } else {
        Ok(())
    }
}

/// Tells what approving the pending withdrawal would come to, without
/// approving it.
pub fn check_approve_withdrawal(c: &ParkingContract, caller: &Address) -> (r: Result<
    (),
    ParkingError,
>)
    ensures
        r == approve_outcome(c@, caller@),
{
    if !is_initialized(c) {
        return Err(ParkingError::NotInitialized);
    }
    if !is_admin(c, caller) {
        return Err(ParkingError::NotAdmin);
    }
    match &c.proposal {
        None => Err(ParkingError::NotParked),
        Some(proposal) => {
            if proposal.proposer.same(caller) {
                Err(ParkingError::NotAdmin)
            } else if proposal.amount > get_total_revenue(c) {
                Err(ParkingError::InsufficientRevenue)
            } else {
                Ok(())
            }
        },
    }
}

/// Approves the pending withdrawal as a second administrator.
///
/// On success the proposed amount leaves the revenue and the proposal is
/// cleared. A refused approval leaves the ledger, and so the proposal, as
/// it was.
pub fn approve_withdrawal(c: &mut ParkingContract, caller: &Address) -> (r: Result<
    (),
    ParkingError,
>)
    requires
        approve_outcome(old(c)@, caller@) is Ok ==> old(c)@.revenue_fits(
            -old(c)@.proposal->Some_0.amount,
        ),
    ensures
        old(c).wf() ==> final(c).wf(),
        r == approve_outcome(old(c)@, caller@),
        r is Err ==> *final(c) == *old(c),
        r is Ok ==> final(c)@ == (LedgerView {
            proposal: None,
            ..old(c)@.with_revenue_added(-old(c)@.proposal->Some_0.amount)
        }),
{
    if !is_initialized(c) {
        return Err(ParkingError::NotInitialized);
    }
    if !is_admin(c, caller) {
        return Err(ParkingError::NotAdmin);
    }
    let amount = match &c.proposal {
        None => {
            return Err(ParkingError::NotParked);
        },
        Some(proposal) => {
            if proposal.proposer.same(caller) {
                return Err(ParkingError::NotAdmin);
            }
            proposal.amount
        },
    };
    withdraw_revenue(c, amount)?;
    c.proposal = None;
    Ok(())
}

/// The pending withdrawal, shown to administrators only.
pub fn get_withdrawal_proposal(c: &ParkingContract, caller: &Address) -> (r: Result<
    Option<WithdrawalProposal>,
    ParkingError,
>)
    ensures
        r == if c@.is_admin(caller@) {
            Ok::<Option<WithdrawalProposal>, ParkingError>(c@.proposal)
        } else {
            Err::<Option<WithdrawalProposal>, ParkingError>(ParkingError::NotAdmin)
        },
{
    if !is_admin(c, caller) {
        return Err(ParkingError::NotAdmin);
    }
    match &c.proposal {
        Some(proposal) => Ok(Some(proposal.clone())),
        None => Ok(None),
    }
}

/// What cancelling the pending withdrawal comes to: only its proposer may
/// cancel it.
pub open spec fn cancel_outcome(v: LedgerView, caller: Seq<char>) -> Result<(), ParkingError> {
    if !v.is_admin(caller) {
        Err(ParkingError::NotAdmin)
    } else if v.proposal is None {
        Err(ParkingError::NotParked)
    } else if v.proposal->Some_0.proposer@ != caller {
        Err(ParkingError::NotAdmin)
    } else {
        Ok(())
    }
}

/// Cancels the pending withdrawal on behalf of its proposer. A refused
/// request leaves the ledger as it was.
pub fn cancel_withdrawal(c: &mut ParkingContract, caller: &Address) -> (r: Result<
    (),
    ParkingError,
>)
    ensures
        old(c).wf() ==> final(c).wf(),
        r == cancel_outcome(old(c)@, caller@),
        r is Err ==> *final(c) == *old(c),
        r is Ok ==> final(c)@ == (LedgerView { proposal: None, ..old(c)@ }),
{
    if !is_admin(c, caller) {
        return Err(ParkingError::NotAdmin);
    }
    match &c.proposal {
        None => {
            return Err(ParkingError::NotParked);
        },
        Some(proposal) => {
            if !proposal.proposer.same(caller) {
                return Err(ParkingError::NotAdmin);
            }
        },
    }
    c.proposal = None;
    Ok(())
}

/// Prices, capacity and revenue, shown to administrators of an initialized
/// ledger only.
pub fn get_contract_config(c: &ParkingContract, caller: &Address) -> (r: Result<
    ParkingConfig,
    ParkingError,
>)
    ensures
        r == if !c@.is_admin(caller@) {
            Err::<ParkingConfig, ParkingError>(ParkingError::NotAdmin)
        } else if !c@.initialized {
            Err::<ParkingConfig, ParkingError>(ParkingError::NotInitialized)
        } else {
            Ok::<ParkingConfig, ParkingError>(c@.config)
        },
{
    if !is_admin(c, caller) {
        return Err(ParkingError::NotAdmin);
    }
    if !is_initialized(c) {
        return Err(ParkingError::NotInitialized);
    }
    Ok(c.config)
}

/// Whether `address` is one of the registered administrators.
pub fn check_admin_status(c: &ParkingContract, address: &Address) -> (r: bool)
    ensures
        r == c@.is_admin(address@),
{
    is_admin(c, address)
}

} // verus!
