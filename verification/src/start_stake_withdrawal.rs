//! Start of the two-phase stake withdrawal.
//!
//! The host layer redeems `spt_amount` pool tokens into the program's
//! escrow vaults; this transition performs the bookkeeping and prints the
//! one-shot receipt that pays out once the timelock passes. If the entity is
//! inactive, the payout is re-priced down to the basket recorded the last
//! time this member staked — an inactive position earns no rewards — and the
//! per-asset difference between the current and the recorded price is
//! returned to the pool; the function reports those forfeited amounts so the
//! host layer can transfer them back. On any failure nothing is changed.

use vstd::prelude::*;

use crate::address::Address;
use crate::basket::StakeContext;
use crate::entity::{Entity, EntityState};
use crate::error::RegistryError;
use crate::member::{Member, RedemptionBasket};
use crate::pending_withdrawal::{PendingPayment, PendingWithdrawal};
use crate::registrar::Registrar;

verus! {

/// Whether the payout is re-priced to the member's recorded context: true
/// exactly when the entity is inactive after the pre-operation
/// state-machine evaluation.
pub open spec fn repriced(
    entity: Entity,
    registrar: Registrar,
    stake_ctx: StakeContext,
    now: i64,
) -> bool {
    entity.fsm_next(stake_ctx, registrar, now).state is Inactive
}

/// The per-asset amounts the withdrawal pays into escrow, in basket order:
/// the current redemption value, re-priced down to the member's recorded
/// context when the entity is inactive.
pub open spec fn payout_amounts(
    entity: Entity,
    member: Member,
    registrar: Registrar,
    stake_ctx: StakeContext,
    now: i64,
    spt_amount: u64,
    mega: bool,
) -> Seq<u64> {
    if repriced(entity, registrar, stake_ctx, now) {
        member.last_active_stake_ctx.quantities_spec(spt_amount as int, mega)
    } else {
        stake_ctx.quantities_spec(spt_amount as int, mega)
    }
}

/// The per-asset amounts returned to the pool: the difference between the
/// current redemption value and the re-priced payout (zero for an active
/// entity). Primary asset first in the pair, as in a redemption leg.
pub open spec fn forfeited(
    entity: Entity,
    member: Member,
    registrar: Registrar,
    stake_ctx: StakeContext,
    now: i64,
    spt_amount: u64,
    mega: bool,
) -> RedemptionBasket {
    if repriced(entity, registrar, stake_ctx, now) {
        let current = stake_ctx.quantities_spec(spt_amount as int, mega);
        let marked = member.last_active_stake_ctx.quantities_spec(spt_amount as int, mega);
        if mega {
            RedemptionBasket {
                asset: (current[1] - marked[1]) as u64,
                mega_asset: (current[0] - marked[0]) as u64,
            }
        } else {
            RedemptionBasket { asset: (current[0] - marked[0]) as u64, mega_asset: 0 }
        }
    } else {
        RedemptionBasket::zero_spec()
    }
}

/// Whether the whole computation stays within the 64-bit range: the current
/// (and, for an inactive entity, the recorded) redemption value is
/// representable, the recorded price does not exceed the current one, the
/// member's book covers the redeemed tokens, and the entity's aggregate
/// covers the move into escrow.
pub open spec fn fits(
    entity: Entity,
    member: Member,
    registrar: Registrar,
    stake_ctx: StakeContext,
    now: i64,
    spt_amount: u64,
    mega: bool,
    delegate: bool,
) -> bool {
    let e1 = entity.fsm_next(stake_ctx, registrar, now);
    let current = stake_ctx.quantities_spec(spt_amount as int, mega);
    let marked = member.last_active_stake_ctx.quantities_spec(spt_amount as int, mega);
    let repricing_ok = if repriced(entity, registrar, stake_ctx, now) {
        &&& member.last_active_stake_ctx.quantities_fit(spt_amount as int, mega)
        &&& (if mega {
            marked[0] <= current[0] && marked[1] <= current[1]
        } else {
            marked[0] <= current[0]
        })
    } else {
        true
    };
    let amounts = payout_amounts(entity, member, registrar, stake_ctx, now, spt_amount, mega);
    &&& stake_ctx.quantities_fit(spt_amount as int, mega)
    &&& repricing_ok
    &&& member.spt_redeem_fits(spt_amount, mega, delegate)
    &&& e1.transfer_pending_withdrawal_fits(spt_amount, amounts, mega)
}

/// All checks pass: the receipt record is fresh and the bookkeeping stays
/// within range.
pub open spec fn accepts(
    pending_withdrawal: PendingWithdrawal,
    entity: Entity,
    member: Member,
    registrar: Registrar,
    stake_ctx: StakeContext,
    now: i64,
    spt_amount: u64,
    mega: bool,
    delegate: bool,
) -> bool {
    &&& !pending_withdrawal.initialized
    &&& fits(entity, member, registrar, stake_ctx, now, spt_amount, mega, delegate)
}

/// The entity after a successful start: state machine, the redeemed tokens
/// moved into in-flight withdrawal, state machine again.
pub open spec fn entity_after(
    entity: Entity,
    member: Member,
    registrar: Registrar,
    stake_ctx: StakeContext,
    now: i64,
    spt_amount: u64,
    mega: bool,
) -> Entity {
    let e1 = entity.fsm_next(stake_ctx, registrar, now);
    let amounts = payout_amounts(entity, member, registrar, stake_ctx, now, spt_amount, mega);
    e1.after_transfer_pending_withdrawal(spt_amount, amounts, mega).fsm_next(
        stake_ctx,
        registrar,
        now,
    )
}

/// The member after a successful start: the redeemed tokens leave the
/// selected book and the cost basis shrinks by the repaid part.
pub open spec fn member_after(
    entity: Entity,
    member: Member,
    registrar: Registrar,
    stake_ctx: StakeContext,
    now: i64,
    spt_amount: u64,
    mega: bool,
    delegate: bool,
) -> Member {
    let amounts = payout_amounts(entity, member, registrar, stake_ctx, now, spt_amount, mega);
    member.after_spt_redeem(spt_amount, amounts, mega, delegate)
}

/// The receipt a successful start prints: unburned, maturing one
/// deactivation timelock from now, with the payout split into the main and
/// delegate legs by the member's cost-basis rule.
pub open spec fn receipt(
    entity: Entity,
    member: Member,
    registrar: Registrar,
    stake_ctx: StakeContext,
    now: i64,
    member_address: Address,
    spt_amount: u64,
    mega: bool,
    delegate: bool,
    recipient: Address,
    mega_recipient: Address,
    delegate_recipient: Address,
    delegate_mega_recipient: Address,
) -> PendingWithdrawal {
    let amounts = payout_amounts(entity, member, registrar, stake_ctx, now, spt_amount, mega);
    let legs = member.redemption_legs(amounts, mega, delegate);
    PendingWithdrawal {
        initialized: true,
        burned: false,
        delegate,
        member: member_address,
        start_ts: now,
        end_ts: (now + registrar.deactivation_timelock_spec()) as i64,
        spt_amount,
        pool: if mega {
            registrar.mega_pool
        } else {
            registrar.pool
        },
        payment: PendingPayment {
            asset_amount: legs.0.asset,
            mega_asset_amount: legs.0.mega_asset,
            recipient,
            mega_recipient,
        },
        delegate_payment: PendingPayment {
            asset_amount: legs.1.asset,
            mega_asset_amount: legs.1.mega_asset,
            recipient: delegate_recipient,
            mega_recipient: delegate_mega_recipient,
        },
    }
}

/// Redeems `spt_amount` staked pool tokens into escrow and prints the
/// pending-withdrawal receipt. Returns the per-asset amounts forfeited back
/// to the pool (non-zero only for an inactive entity).
pub fn handler(
    pending_withdrawal: &mut PendingWithdrawal,
    entity: &mut Entity,
    member: &mut Member,
    registrar: &Registrar,
    stake_ctx: &StakeContext,
    now: i64,
    member_address: Address,
    spt_amount: u64,
    mega: bool,
    delegate: bool,
    recipient: Address,
    mega_recipient: Address,
    delegate_recipient: Address,
    delegate_mega_recipient: Address,
) -> (r: Result<RedemptionBasket, RegistryError>)
    requires
        old(entity).wf(),
        registrar.wf(),
        registrar.clock_ok(now),
        old(entity).generation < u64::MAX,
    ensures
        r is Err ==> *final(entity) == *old(entity) && *final(member) == *old(member)
            && *final(pending_withdrawal) == *old(pending_withdrawal),
        old(pending_withdrawal).initialized ==> r == Err::<
            RedemptionBasket,
            RegistryError,
        >(RegistryError::AlreadyInitialized),
        !old(pending_withdrawal).initialized && !fits(
            *old(entity),
            *old(member),
            *registrar,
            *stake_ctx,
            now,
            spt_amount,
            mega,
            delegate,
        ) ==> r == Err::<RedemptionBasket, RegistryError>(RegistryError::CheckedFailure),
        r is Ok <==> accepts(
            *old(pending_withdrawal),
            *old(entity),
            *old(member),
            *registrar,
            *stake_ctx,
            now,
            spt_amount,
            mega,
            delegate,
        ),
        r is Ok ==> r == Ok::<RedemptionBasket, RegistryError>(
            forfeited(*old(entity), *old(member), *registrar, *stake_ctx, now, spt_amount, mega),
        ),
        r is Ok ==> *final(entity) == entity_after(
            *old(entity),
            *old(member),
            *registrar,
            *stake_ctx,
            now,
            spt_amount,
            mega,
        ),
        r is Ok ==> *final(member) == member_after(
            *old(entity),
            *old(member),
            *registrar,
            *stake_ctx,
            now,
            spt_amount,
            mega,
            delegate,
        ),
        r is Ok ==> *final(pending_withdrawal) == receipt(
            *old(entity),
            *old(member),
            *registrar,
            *stake_ctx,
            now,
            member_address,
            spt_amount,
            mega,
            delegate,
            recipient,
            mega_recipient,
            delegate_recipient,
            delegate_mega_recipient,
        ),
        final(entity).wf(),
{
    let mut e1 = *entity;
    e1.transition_activation_if_needed(stake_ctx, registrar, now);

    if pending_withdrawal.initialized {
        return Err(RegistryError::AlreadyInitialized);
    }

    // The current redemption value of the tokens, per asset.
    let current = match stake_ctx.basket_quantities(spt_amount, mega) {
        Ok(v) => v,
        Err(e) => {
            return Err(e);
        },
    };

    // Inactive entities receive no rewards: re-price the payout down to the
    // basket recorded the last time this member staked, and forfeit the
    // difference back to the pool.
    let inactive = matches!(e1.state, EntityState::Inactive);
    let (amounts, forfeit) = if inactive {
        let marked = match member.last_active_stake_ctx.basket_quantities(spt_amount, mega) {
            Ok(v) => v,
            Err(e) => {
                return Err(e);
            },
        };
        if mega {
            if marked[0] > current[0] || marked[1] > current[1] {
                return Err(RegistryError::CheckedFailure);
            }
            let f = RedemptionBasket {
                asset: current[1] - marked[1],
                mega_asset: current[0] - marked[0],
            };
            (marked, f)
        } else {
            if marked[0] > current[0] {
                return Err(RegistryError::CheckedFailure);
            }
            let f = RedemptionBasket { asset: current[0] - marked[0], mega_asset: 0 };
            (marked, f)
        }
    } else {
        (current, RedemptionBasket { asset: 0, mega_asset: 0 })
    };

    let book = if delegate {
        member.books.delegate.balances
    } else {
        member.books.main.balances
    };
    let member_covers = if mega {
        spt_amount <= book.spt_mega_amount
    } else {
        spt_amount <= book.spt_amount
    };
    let entity_covers = if mega {
        spt_amount <= e1.balances.spt_mega_amount
            && e1.balances.mega_pending_withdrawals.checked_add(amounts[0]).is_some()
            && e1.balances.pending_withdrawals.checked_add(amounts[1]).is_some()
    } else {
        spt_amount <= e1.balances.spt_amount && e1.balances.pending_withdrawals.checked_add(
            amounts[0],
        ).is_some()
    };
    if !(member_covers && entity_covers) {
        return Err(RegistryError::CheckedFailure);
    }

    *entity = e1;
    let legs = member.spt_did_redeem(spt_amount, amounts.as_slice(), mega, delegate);
    entity.transfer_pending_withdrawal(spt_amount, amounts.as_slice(), mega);
    entity.transition_activation_if_needed(stake_ctx, registrar, now);

    // Print the receipt.
    pending_withdrawal.initialized = true;
    pending_withdrawal.burned = false;
    pending_withdrawal.delegate = delegate;
    pending_withdrawal.member = member_address;
    pending_withdrawal.start_ts = now;
    pending_withdrawal.end_ts = now + registrar.deactivation_timelock();
    pending_withdrawal.spt_amount = spt_amount;
    pending_withdrawal.pool = if mega {
        registrar.mega_pool
    } else {
        registrar.pool
    };
    pending_withdrawal.payment = PendingPayment {
        asset_amount: legs.0.asset,
        mega_asset_amount: legs.0.mega_asset,
        recipient,
        mega_recipient,
    };
    pending_withdrawal.delegate_payment = PendingPayment {
        asset_amount: legs.1.asset,
        mega_asset_amount: legs.1.mega_asset,
        recipient: delegate_recipient,
        mega_recipient: delegate_mega_recipient,
    };

    Ok(forfeit)
}

} // verus!
