//! Stake: converts staged stake-intent into staking pool tokens.
//!
//! The host layer instructs the pool to create `spt_amount` pool tokens for
//! the current basket price; this transition performs the business checks
//! and the bookkeeping. A member may not add stake while it still holds pool
//! tokens from an earlier entity generation, and stake may only be added
//! when the entity's normalized value — including the proposed amount —
//! reaches the activation threshold. The purchase price (every basket
//! quantity times the token count) moves out of the staged balances and the
//! pool tokens are credited to the selected book, which stamps the price
//! context used. On any failure nothing is changed.

use vstd::prelude::*;

use crate::basket::{lemma_srm_equivalent_nonneg, StakeContext};
use crate::entity::Entity;
use crate::error::RegistryError;
use crate::member::Member;
use crate::registrar::Registrar;

verus! {

/// The member still holds pool tokens staked under an earlier entity
/// generation; it must withdraw fully before staking again.
pub open spec fn stale_stake(
    entity: Entity,
    member: Member,
    registrar: Registrar,
    stake_ctx: StakeContext,
    now: i64,
) -> bool {
    let e1 = entity.fsm_next(stake_ctx, registrar, now);
    member.generation != e1.generation && !member.stake_is_empty_spec()
}

/// Even with the proposed stake added, the entity's normalized value stays
/// below the reward activation threshold: stake cannot be added to an
/// entity that would remain ineligible.
pub open spec fn gated(
    entity: Entity,
    registrar: Registrar,
    stake_ctx: StakeContext,
    now: i64,
    spt_amount: u64,
    is_mega: bool,
) -> bool {
    let e1 = entity.fsm_next(stake_ctx, registrar, now);
    stake_ctx.srm_equivalent_spec(spt_amount as int, is_mega) + e1.activation_amount_spec(stake_ctx)
        < registrar.reward_activation_threshold
}

/// The selected book's staged balances do not cover the purchase price.
pub open spec fn insufficient(
    member: Member,
    stake_ctx: StakeContext,
    spt_amount: u64,
    is_mega: bool,
    is_delegate: bool,
) -> bool {
    let pp = stake_ctx.quantities_spec(spt_amount as int, is_mega);
    let b = member.book_spec(is_delegate).balances;
    if is_mega {
        pp[0] > b.mega_stake_intent || pp[1] > b.stake_intent
    } else {
        pp[0] > b.stake_intent
    }
}

/// Whether the remaining bookkeeping stays within the 64-bit range: the
/// entity's aggregate covers the purchase price, and the pool-token credits
/// do not overflow.
pub open spec fn fits(
    entity: Entity,
    member: Member,
    registrar: Registrar,
    stake_ctx: StakeContext,
    now: i64,
    spt_amount: u64,
    is_mega: bool,
    is_delegate: bool,
) -> bool {
    let e1 = entity.fsm_next(stake_ctx, registrar, now);
    let pp = stake_ctx.quantities_spec(spt_amount as int, is_mega);
    &&& member.spt_create_fits(spt_amount, is_mega, is_delegate)
    &&& (if is_mega {
        pp[0] <= e1.balances.mega_stake_intent && pp[1] <= e1.balances.stake_intent
    } else {
        pp[0] <= e1.balances.stake_intent
    })
    &&& (if is_mega {
        e1.balances.spt_mega_amount + spt_amount <= u64::MAX
    } else {
        e1.balances.spt_amount + spt_amount <= u64::MAX
    })
}

/// All checks pass: no stale stake, the activation gate is met, the
/// purchase price is representable and covered, and nothing overflows.
pub open spec fn accepts(
    entity: Entity,
    member: Member,
    registrar: Registrar,
    stake_ctx: StakeContext,
    now: i64,
    spt_amount: u64,
    is_mega: bool,
    is_delegate: bool,
) -> bool {
    &&& !stale_stake(entity, member, registrar, stake_ctx, now)
    &&& !gated(entity, registrar, stake_ctx, now, spt_amount, is_mega)
    &&& stake_ctx.quantities_fit(spt_amount as int, is_mega)
    &&& !insufficient(member, stake_ctx, spt_amount, is_mega, is_delegate)
    &&& fits(entity, member, registrar, stake_ctx, now, spt_amount, is_mega, is_delegate)
}

/// The member after a successful stake: the purchase price leaves the
/// staged balances (the cost basis stays — the value keeps backing the
/// position), the new pool tokens are credited, stamping the price context,
/// and the member adopts the generation the entity ends up with — so that
/// stake whose addition itself activates the entity belongs to the new
/// generation, not the old one.
pub open spec fn member_after(
    entity: Entity,
    member: Member,
    registrar: Registrar,
    stake_ctx: StakeContext,
    now: i64,
    spt_amount: u64,
    is_mega: bool,
    is_delegate: bool,
) -> Member {
    let pp = stake_ctx.quantities_spec(spt_amount as int, is_mega);
    let m1 = if is_mega {
        member.after_sub_stake_intent(pp[0], true, is_delegate).after_sub_stake_intent(
            pp[1],
            false,
            is_delegate,
        )
    } else {
        member.after_sub_stake_intent(pp[0], false, is_delegate)
    };
    let m2 = m1.after_spt_create(stake_ctx, spt_amount, is_mega, is_delegate);
    Member {
        generation: entity_after(entity, registrar, stake_ctx, now, spt_amount, is_mega).generation,
        ..m2
    }
}

/// The entity after a successful stake: state machine, purchase price out
/// of the staged balances, pool tokens in, state machine again.
pub open spec fn entity_after(
    entity: Entity,
    registrar: Registrar,
    stake_ctx: StakeContext,
    now: i64,
    spt_amount: u64,
    is_mega: bool,
) -> Entity {
    let e1 = entity.fsm_next(stake_ctx, registrar, now);
    let pp = stake_ctx.quantities_spec(spt_amount as int, is_mega);
    let e2 = if is_mega {
        e1.after_sub_stake_intent(pp[0], true).after_sub_stake_intent(pp[1], false)
    } else {
        e1.after_sub_stake_intent(pp[0], false)
    };
    e2.after_spt_add(spt_amount, is_mega).fsm_next(stake_ctx, registrar, now)
}

/// Converts staged stake-intent into `spt_amount` staking pool tokens on
/// the selected book.
pub fn handler(
    entity: &mut Entity,
    member: &mut Member,
    registrar: &Registrar,
    stake_ctx: &StakeContext,
    now: i64,
    spt_amount: u64,
    is_mega: bool,
    is_delegate: bool,
) -> (r: Result<(), RegistryError>)
    requires
        old(entity).wf(),
        registrar.wf(),
        registrar.clock_ok(now),
        old(entity).generation < u64::MAX,
    ensures
        r is Err ==> *final(entity) == *old(entity) && *final(member) == *old(member),
        stale_stake(*old(entity), *old(member), *registrar, *stake_ctx, now) ==> r == Err::<
            (),
            RegistryError,
        >(RegistryError::StaleStakeNeedsWithdrawal),
        !stale_stake(*old(entity), *old(member), *registrar, *stake_ctx, now) && gated(
            *old(entity),
            *registrar,
            *stake_ctx,
            now,
            spt_amount,
            is_mega,
        ) ==> r == Err::<(), RegistryError>(RegistryError::EntityNotActivated),
        !stale_stake(*old(entity), *old(member), *registrar, *stake_ctx, now) && !gated(
            *old(entity),
            *registrar,
            *stake_ctx,
            now,
            spt_amount,
            is_mega,
        ) && !stake_ctx.quantities_fit(spt_amount as int, is_mega) ==> r == Err::<
            (),
            RegistryError,
        >(RegistryError::CheckedFailure),
        !stale_stake(*old(entity), *old(member), *registrar, *stake_ctx, now) && !gated(
            *old(entity),
            *registrar,
            *stake_ctx,
            now,
            spt_amount,
            is_mega,
        ) && stake_ctx.quantities_fit(spt_amount as int, is_mega) && insufficient(
            *old(member),
            *stake_ctx,
            spt_amount,
            is_mega,
            is_delegate,
        ) ==> r == Err::<(), RegistryError>(RegistryError::InsufficientStakeIntentBalance),
        !stale_stake(*old(entity), *old(member), *registrar, *stake_ctx, now) && !gated(
            *old(entity),
            *registrar,
            *stake_ctx,
            now,
            spt_amount,
            is_mega,
        ) && stake_ctx.quantities_fit(spt_amount as int, is_mega) && !insufficient(
            *old(member),
            *stake_ctx,
            spt_amount,
            is_mega,
            is_delegate,
        ) && !fits(
            *old(entity),
            *old(member),
            *registrar,
            *stake_ctx,
            now,
            spt_amount,
            is_mega,
            is_delegate,
        ) ==> r == Err::<(), RegistryError>(RegistryError::CheckedFailure),
        r is Ok <==> accepts(
            *old(entity),
            *old(member),
            *registrar,
            *stake_ctx,
            now,
            spt_amount,
            is_mega,
            is_delegate,
        ),
        r is Ok ==> *final(entity) == entity_after(
            *old(entity),
            *registrar,
            *stake_ctx,
            now,
            spt_amount,
            is_mega,
        ),
        r is Ok ==> *final(member) == member_after(
            *old(entity),
            *old(member),
            *registrar,
            *stake_ctx,
            now,
            spt_amount,
            is_mega,
            is_delegate,
        ),
        final(entity).wf(),
{
    let mut e1 = *entity;
    e1.transition_activation_if_needed(stake_ctx, registrar, now);

    // All stake from a previous generation must be withdrawn before adding
    // stake for a new generation. Does not include stake-intent.
    if member.generation != e1.generation && !member.stake_is_empty() {
        return Err(RegistryError::StaleStakeNeedsWithdrawal);
    }

    // Only entities that are activated — or that this stake activates — can
    // accept stake. An amount beyond the 64-bit range exceeds any threshold.
    proof {
        lemma_srm_equivalent_nonneg(*stake_ctx, spt_amount as int, is_mega);
        e1.lemma_activation_amount_nonneg(*stake_ctx);
    }
    let below_threshold = match (
        stake_ctx.srm_equivalent_checked(spt_amount, is_mega),
        e1.activation_amount_checked(stake_ctx),
    ) {
        (Some(se), Some(aa)) => match se.checked_add(aa) {
            Some(total) => total < registrar.reward_activation_threshold,
            None => false,
        },
        _ => false,
    };
    if below_threshold {
        return Err(RegistryError::EntityNotActivated);
    }

    // The price of the new pool tokens, per asset in basket order.
    let pp = match stake_ctx.basket_quantities(spt_amount, is_mega) {
        Ok(v) => v,
        Err(e) => {
            return Err(e);
        },
    };

    let book = if is_delegate {
        member.books.delegate.balances
    } else {
        member.books.main.balances
    };
    if is_mega {
        if pp[0] > book.mega_stake_intent || pp[1] > book.stake_intent {
            return Err(RegistryError::InsufficientStakeIntentBalance);
        }
    } else {
        if pp[0] > book.stake_intent {
            return Err(RegistryError::InsufficientStakeIntentBalance);
        }
    }

    let member_fits = if is_mega {
        book.spt_mega_amount.checked_add(spt_amount).is_some()
    } else {
        book.spt_amount.checked_add(spt_amount).is_some()
    };
    let entity_fits = if is_mega {
        pp[0] <= e1.balances.mega_stake_intent && pp[1] <= e1.balances.stake_intent
            && e1.balances.spt_mega_amount.checked_add(spt_amount).is_some()
    } else {
        pp[0] <= e1.balances.stake_intent && e1.balances.spt_amount.checked_add(
            spt_amount,
        ).is_some()
    };
    if !(member_fits && entity_fits) {
        return Err(RegistryError::CheckedFailure);
    }

    *entity = e1;
    if is_mega {
        member.sub_stake_intent(pp[0], true, is_delegate);
        member.sub_stake_intent(pp[1], false, is_delegate);
        entity.sub_stake_intent(pp[0], true);
        entity.sub_stake_intent(pp[1], false);
    } else {
        member.sub_stake_intent(pp[0], false, is_delegate);
        entity.sub_stake_intent(pp[0], false);
    }
    member.spt_did_create(stake_ctx, spt_amount, pp.as_slice(), is_mega, is_delegate);
    entity.spt_add(spt_amount, is_mega);
    entity.transition_activation_if_needed(stake_ctx, registrar, now);
    member.generation = entity.generation;

    Ok(())
}

} // verus!
