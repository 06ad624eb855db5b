//! End of the two-phase stake withdrawal.
//!
//! Once the receipt's maturity timestamp passes, its recorded payment legs
//! are released and the receipt is burned, exactly once. The host layer then
//! performs the token transfers from the escrow vaults to the recorded
//! recipients. On any failure nothing is changed.

use vstd::prelude::*;

use crate::error::RegistryError;
use crate::pending_withdrawal::PendingWithdrawal;

verus! {

/// Whether the payout is owed: the receipt is unburned, mature at time
/// `now`, and — when a delegate payment leg exists — the delegate
/// destination accounts were supplied.
pub open spec fn accepts(
    pending_withdrawal: PendingWithdrawal,
    now: i64,
    delegate_accounts_provided: bool,
) -> bool {
    &&& !pending_withdrawal.burned
    &&& now >= pending_withdrawal.end_ts
    &&& (pending_withdrawal.delegate_payment.owes_spec() ==> delegate_accounts_provided)
}

/// The receipt after payout: burned, everything else unchanged.
pub open spec fn after_burn(pending_withdrawal: PendingWithdrawal) -> PendingWithdrawal {
    PendingWithdrawal { burned: true, ..pending_withdrawal }
}

/// Releases the receipt's payments and burns it. The caller pays each
/// non-zero leg to its recorded recipient; `delegate_accounts_provided`
/// says whether delegate destination accounts were supplied with the call.
pub fn handler(
    pending_withdrawal: &mut PendingWithdrawal,
    now: i64,
    delegate_accounts_provided: bool,
) -> (r: Result<(), RegistryError>)
    ensures
        r is Err ==> *final(pending_withdrawal) == *old(pending_withdrawal),
        old(pending_withdrawal).burned ==> r == Err::<(), RegistryError>(
            RegistryError::AlreadyBurned,
        ),
        !old(pending_withdrawal).burned && now < old(pending_withdrawal).end_ts ==> r == Err::<
            (),
            RegistryError,
        >(RegistryError::WithdrawalTimelockNotPassed),
        !old(pending_withdrawal).burned && now >= old(pending_withdrawal).end_ts && old(
            pending_withdrawal,
        ).delegate_payment.owes_spec() && !delegate_accounts_provided ==> r == Err::<
            (),
            RegistryError,
        >(RegistryError::DelegateAccountsNotProvided),
        r is Ok <==> accepts(*old(pending_withdrawal), now, delegate_accounts_provided),
        r is Ok ==> *final(pending_withdrawal) == after_burn(*old(pending_withdrawal)),
{
    // Burned receipts never pay out again.
    if pending_withdrawal.burned {
        return Err(RegistryError::AlreadyBurned);
    }
    if now < pending_withdrawal.end_ts {
        return Err(RegistryError::WithdrawalTimelockNotPassed);
    }
    if (pending_withdrawal.delegate_payment.asset_amount > 0
        || pending_withdrawal.delegate_payment.mega_asset_amount > 0)
        && !delegate_accounts_provided {
        return Err(RegistryError::DelegateAccountsNotProvided);
    }

    // Burn for one-time use.
    pending_withdrawal.burned = true;

    Ok(())
}

} // verus!
