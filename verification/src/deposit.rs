//! Deposit: stages funds as stake-intent.
//!
//! The host layer authorizes the depositor, moves the tokens into the
//! stake-intent vault, and then applies this transition: the member's
//! selected book and the entity's aggregate both gain the deposited amount,
//! with the entity state machine re-evaluated before and after the effect.
//! On any failure nothing is changed.

use vstd::prelude::*;

use crate::basket::StakeContext;
use crate::entity::Entity;
use crate::error::RegistryError;
use crate::member::Member;
use crate::registrar::Registrar;

verus! {

/// Whether the deposit's bookkeeping stays within the 64-bit range, on the
/// state as it stands after the pre-operation state-machine evaluation.
pub open spec fn accepts(
    entity: Entity,
    member: Member,
    registrar: Registrar,
    stake_ctx: StakeContext,
    now: i64,
    amount: u64,
    is_mega: bool,
    is_delegate: bool,
) -> bool {
    let e1 = entity.fsm_next(stake_ctx, registrar, now);
    &&& member.stake_intent_deposit_fits(amount, is_mega, is_delegate)
    &&& e1.add_stake_intent_fits(amount, is_mega)
}

/// The entity after a successful deposit: state machine, then the credit,
/// then the state machine again (the credit itself may activate the entity).
pub open spec fn entity_after(
    entity: Entity,
    registrar: Registrar,
    stake_ctx: StakeContext,
    now: i64,
    amount: u64,
    is_mega: bool,
) -> Entity {
    entity.fsm_next(stake_ctx, registrar, now).after_add_stake_intent(amount, is_mega).fsm_next(
        stake_ctx,
        registrar,
        now,
    )
}

/// Credits `amount` to the member's and the entity's stake-intent balances.
pub fn handler(
    entity: &mut Entity,
    member: &mut Member,
    registrar: &Registrar,
    stake_ctx: &StakeContext,
    now: i64,
    amount: u64,
    is_mega: bool,
    is_delegate: bool,
) -> (r: Result<(), RegistryError>)
    requires
        old(entity).wf(),
        registrar.wf(),
        registrar.clock_ok(now),
        old(entity).generation < u64::MAX,
    ensures
        r is Ok <==> accepts(
            *old(entity),
            *old(member),
            *registrar,
            *stake_ctx,
            now,
            amount,
            is_mega,
            is_delegate,
        ),
        r is Ok ==> *final(entity) == entity_after(
            *old(entity),
            *registrar,
            *stake_ctx,
            now,
            amount,
            is_mega,
        ),
        r is Ok ==> *final(member) == old(member).after_stake_intent_deposit(
            amount,
            is_mega,
            is_delegate,
        ),
        r is Err ==> r == Err::<(), RegistryError>(RegistryError::CheckedFailure) && *final(entity)
            == *old(entity) && *final(member) == *old(member),
        final(entity).wf(),
{
    let mut e1 = *entity;
    e1.transition_activation_if_needed(stake_ctx, registrar, now);

    let book = if is_delegate {
        member.books.delegate.balances
    } else {
        member.books.main.balances
    };
    let member_fits = if is_mega {
        book.mega_stake_intent.checked_add(amount).is_some() && book.mega_cost_basis.checked_add(
            amount,
        ).is_some()
    } else {
        book.stake_intent.checked_add(amount).is_some() && book.cost_basis.checked_add(
            amount,
        ).is_some()
    };
    let entity_fits = if is_mega {
        e1.balances.mega_stake_intent.checked_add(amount).is_some()
    } else {
        e1.balances.stake_intent.checked_add(amount).is_some()
    };
    if !(member_fits && entity_fits) {
        return Err(RegistryError::CheckedFailure);
    }

    *entity = e1;
    member.stake_intent_did_deposit(amount, is_mega, is_delegate);
    entity.add_stake_intent(amount, is_mega);
    entity.transition_activation_if_needed(stake_ctx, registrar, now);

    Ok(())
}

} // verus!
