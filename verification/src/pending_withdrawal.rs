//! Pending-withdrawal receipts.
//!
//! Starting a withdrawal redeems pool tokens into escrow and prints a
//! one-shot receipt; once its maturity timestamp passes, the receipt can be
//! burned exactly once in exchange for the recorded payouts.

use vstd::prelude::*;

use crate::address::Address;

verus! {

/// One payment leg of a pending withdrawal.
#[derive(Clone, Copy, Debug, PartialEq, Eq, Structural)]
pub struct PendingPayment {
    /// The amount of the primary asset to be received.
    pub asset_amount: u64,
    /// The amount of the mega asset to be received.
    pub mega_asset_amount: u64,
    /// Primary-asset token account the payment is sent to.
    pub recipient: Address,
    /// Mega-asset token account the payment is sent to.
    pub mega_recipient: Address,
}

impl PendingPayment {
    /// True when this leg owes anything at all.
    pub open spec fn owes_spec(self) -> bool {
        self.asset_amount > 0 || self.mega_asset_amount > 0
    }
}

/// A receipt created to initiate a withdrawal. Once `end_ts` passes, the
/// receipt can be burned in exchange for the recorded payment amounts; a
/// burned receipt can never pay out again.
#[derive(Clone, Copy, Debug, PartialEq, Eq, Structural)]
pub struct PendingWithdrawal {
    pub initialized: bool,
    /// One-time token: true once the withdrawal has been paid out.
    pub burned: bool,
    /// True if the member's delegate initiated the withdrawal.
    pub delegate: bool,
    /// Member record this receipt belongs to.
    pub member: Address,
    /// Unix timestamp when this receipt was created.
    pub start_ts: i64,
    /// Timestamp when the pending withdrawal matures.
    pub end_ts: i64,
    /// The number of staking pool tokens redeemed.
    pub spt_amount: u64,
    /// The pool being withdrawn from.
    pub pool: Address,
    /// Payment to be sent to the member's main owner.
    pub payment: PendingPayment,
    /// Payment to be sent to the member's delegate owner.
    pub delegate_payment: PendingPayment,
}

} // verus!
