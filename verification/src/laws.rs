//! Registry-wide laws, stated and proved over the same spec functions the
//! operations' contracts use.

use vstd::prelude::*;

use crate::basket::StakeContext;
use crate::deposit;
use crate::end_stake_withdrawal;
use crate::entity::Entity;
use crate::member::{Member, RedemptionBasket};
use crate::pending_withdrawal::PendingWithdrawal;
use crate::registrar::Registrar;
use crate::stake;
use crate::stake_intent_withdrawal;
use crate::start_stake_withdrawal;
use crate::switch_entity;

verus! {

/// An entity's generation never decreases across a state-machine
/// evaluation; it changes exactly on an `Inactive -> Active` transition,
/// where it grows by one, and never on `Active -> PendingDeactivation` or
/// `PendingDeactivation -> Inactive`.
pub proof fn lemma_generation_monotonic(
    entity: Entity,
    stake_ctx: StakeContext,
    registrar: Registrar,
    now: i64,
)
    requires
        entity.state is Inactive ==> entity.generation < u64::MAX,
    ensures
        entity.fsm_next(stake_ctx, registrar, now).generation >= entity.generation,
        entity.fsm_next(stake_ctx, registrar, now).generation != entity.generation ==> {
            &&& entity.state is Inactive
            &&& entity.fsm_next(stake_ctx, registrar, now).state is Active
            &&& entity.fsm_next(stake_ctx, registrar, now).generation == entity.generation + 1
        },
        !(entity.state is Inactive) ==> entity.fsm_next(stake_ctx, registrar, now).generation
            == entity.generation,
{
}

/// The generation never decreases across any of the operations that touch
/// an entity: their effect on it is a state-machine evaluation, a pure
/// balance update that leaves the generation alone, and a second
/// state-machine evaluation.
pub proof fn lemma_operations_generation_monotonic(
    entity: Entity,
    member: Member,
    registrar: Registrar,
    stake_ctx: StakeContext,
    now: i64,
    amount: u64,
    spt_amount: u64,
    is_mega: bool,
)
    requires
        entity.generation < u64::MAX,
    ensures
        deposit::entity_after(entity, registrar, stake_ctx, now, amount, is_mega).generation
            >= entity.generation,
        stake_intent_withdrawal::entity_after(
            entity,
            registrar,
            stake_ctx,
            now,
            amount,
            is_mega,
        ).generation >= entity.generation,
        stake::entity_after(entity, registrar, stake_ctx, now, spt_amount, is_mega).generation
            >= entity.generation,
        start_stake_withdrawal::entity_after(
            entity,
            member,
            registrar,
            stake_ctx,
            now,
            spt_amount,
            is_mega,
        ).generation >= entity.generation,
        switch_entity::curr_entity_after(entity, member, registrar, stake_ctx, now).generation
            >= entity.generation,
        switch_entity::new_entity_after(entity, member, registrar, stake_ctx, now).generation
            >= entity.generation,
{
    lemma_generation_monotonic(entity, stake_ctx, registrar, now);
    let e1 = entity.fsm_next(stake_ctx, registrar, now);
    lemma_generation_monotonic(e1.after_add_stake_intent(amount, is_mega), stake_ctx, registrar, now);
    lemma_generation_monotonic(e1.after_sub_stake_intent(amount, is_mega), stake_ctx, registrar, now);
    let pp = stake_ctx.quantities_spec(spt_amount as int, is_mega);
    let staked = if is_mega {
        e1.after_sub_stake_intent(pp[0], true).after_sub_stake_intent(pp[1], false)
    } else {
        e1.after_sub_stake_intent(pp[0], false)
    };
    lemma_generation_monotonic(staked.after_spt_add(spt_amount, is_mega), stake_ctx, registrar, now);
    let amounts = start_stake_withdrawal::payout_amounts(
        entity,
        member,
        registrar,
        stake_ctx,
        now,
        spt_amount,
        is_mega,
    );
    lemma_generation_monotonic(
        e1.after_transfer_pending_withdrawal(spt_amount, amounts, is_mega),
        stake_ctx,
        registrar,
        now,
    );
    lemma_generation_monotonic(e1.after_remove_member(member), stake_ctx, registrar, now);
    lemma_generation_monotonic(e1.after_add_member(member), stake_ctx, registrar, now);
}

/// Staking conserves the normalized value: converting staged stake-intent
/// into pool tokens at the same prices moves value into the pool without
/// creating or destroying any, so the activation amount is unchanged by the
/// conversion itself.
pub proof fn lemma_stake_preserves_activation_amount(
    entity: Entity,
    registrar: Registrar,
    stake_ctx: StakeContext,
    now: i64,
    spt_amount: u64,
    is_mega: bool,
)
    requires
        stake_ctx.quantities_fit(spt_amount as int, is_mega),
        ({
            let e1 = entity.fsm_next(stake_ctx, registrar, now);
            let pp = stake_ctx.quantities_spec(spt_amount as int, is_mega);
            if is_mega {
                pp[0] <= e1.balances.mega_stake_intent && pp[1] <= e1.balances.stake_intent
                    && e1.balances.spt_mega_amount + spt_amount <= u64::MAX
            } else {
                pp[0] <= e1.balances.stake_intent && e1.balances.spt_amount + spt_amount
                    <= u64::MAX
            }
        }),
    ensures
        ({
            let e1 = entity.fsm_next(stake_ctx, registrar, now);
            let pp = stake_ctx.quantities_spec(spt_amount as int, is_mega);
            let e2 = if is_mega {
                e1.after_sub_stake_intent(pp[0], true).after_sub_stake_intent(pp[1], false)
            } else {
                e1.after_sub_stake_intent(pp[0], false)
            };
            e2.after_spt_add(spt_amount, is_mega).activation_amount_spec(stake_ctx)
                == e1.activation_amount_spec(stake_ctx)
        }),
{
    let e1 = entity.fsm_next(stake_ctx, registrar, now);
    let ds = spt_amount as int;
    if is_mega {
        let mq = stake_ctx.mega_basket.mega_quantity as int;
        let q = stake_ctx.mega_basket.quantity as int;
        let s0 = e1.balances.spt_mega_amount as int;
        assert(mq * (s0 + ds) * 1_000_000 == mq * s0 * 1_000_000 + mq * ds * 1_000_000)
            by (nonlinear_arith);
        assert(q * (s0 + ds) == q * s0 + q * ds) by (nonlinear_arith);
    } else {
        let q = stake_ctx.basket.quantity as int;
        let s0 = e1.balances.spt_amount as int;
        assert(q * (s0 + ds) == q * s0 + q * ds) by (nonlinear_arith);
    }
}

/// An entity that meets the activation requirements is active after the
/// next state-machine evaluation, whatever state it starts from. Together
/// with the stake operation's gating clause this says that stake crossing
/// the threshold is immediately reflected as eligibility.
pub proof fn lemma_meets_requirements_activates(
    entity: Entity,
    stake_ctx: StakeContext,
    registrar: Registrar,
    now: i64,
)
    requires
        entity.meets_activation_spec(stake_ctx, registrar),
    ensures
        entity.fsm_next(stake_ctx, registrar, now).state is Active,
{
}

/// Conservation of the redemption split: across each asset, the main and
/// delegate legs together are exactly the purchase price — no value is
/// created or destroyed by the split.
pub proof fn lemma_redemption_conservation(
    member: Member,
    purchase_price: Seq<u64>,
    mega: bool,
    delegate: bool,
)
    requires
        purchase_price.len() == (if mega {
            2int
        } else {
            1int
        }),
    ensures
        ({
            let (main_leg, delegate_leg) = member.redemption_legs(purchase_price, mega, delegate);
            &&& main_leg.asset + delegate_leg.asset == (if mega {
                purchase_price[1]
            } else {
                purchase_price[0]
            })
            &&& main_leg.mega_asset + delegate_leg.mega_asset == (if mega {
                purchase_price[0] as int
            } else {
                0int
            })
        }),
{
}

/// Delegate cap: the delegate leg of a redemption never exceeds the cost
/// basis the delegate contributed, per asset; the excess always flows to
/// the main owner. A main-book redemption pays the delegate nothing.
pub proof fn lemma_redemption_delegate_cap(
    member: Member,
    purchase_price: Seq<u64>,
    mega: bool,
    delegate: bool,
)
    requires
        purchase_price.len() == (if mega {
            2int
        } else {
            1int
        }),
    ensures
        ({
            let (main_leg, delegate_leg) = member.redemption_legs(purchase_price, mega, delegate);
            &&& delegate_leg.asset <= member.book_spec(delegate).balances.cost_basis
            &&& delegate_leg.mega_asset <= member.book_spec(delegate).balances.mega_cost_basis
            &&& !delegate ==> delegate_leg == RedemptionBasket::zero_spec()
        }),
{
}

/// Burning is final: after a successful payout the receipt is burned, and a
/// burned receipt is never owed a payout again, at any later time and with
/// any accounts supplied — ending the same withdrawal twice fails the
/// second time.
pub proof fn lemma_end_withdrawal_burn_is_final(
    pending_withdrawal: PendingWithdrawal,
    now: i64,
    delegate_accounts_provided: bool,
)
    ensures
        end_stake_withdrawal::after_burn(pending_withdrawal).burned,
        !end_stake_withdrawal::accepts(
            end_stake_withdrawal::after_burn(pending_withdrawal),
            now,
            delegate_accounts_provided,
        ),
{
}

} // verus!
