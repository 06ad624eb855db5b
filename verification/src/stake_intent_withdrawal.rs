//! Stake-intent withdrawal: returns staged funds to the depositor.
//!
//! The amount must not exceed the selected book's recorded stake-intent.
//! The member's book and the entity's aggregate are debited symmetrically
//! (including the book's cost basis), and the host layer then moves the
//! tokens from the stake-intent vault back to the depositor. On any failure
//! nothing is changed.

use vstd::prelude::*;

use crate::basket::StakeContext;
use crate::entity::Entity;
use crate::error::RegistryError;
use crate::member::Member;
use crate::registrar::Registrar;

verus! {

/// The withdrawal amount exceeds the selected book's staged stake-intent.
pub open spec fn insufficient(member: Member, amount: u64, is_mega: bool, is_delegate: bool) -> bool {
    amount > member.stake_intent_spec(is_mega, is_delegate)
}

/// Whether the debits stay within range: the book's cost basis covers the
/// amount, and so does the entity's aggregate, after the pre-operation
/// state-machine evaluation. A shortfall here is a corrupted ledger and is
/// rejected as a fatal arithmetic failure.
pub open spec fn fits(
    entity: Entity,
    member: Member,
    registrar: Registrar,
    stake_ctx: StakeContext,
    now: i64,
    amount: u64,
    is_mega: bool,
    is_delegate: bool,
) -> bool {
    let e1 = entity.fsm_next(stake_ctx, registrar, now);
    &&& member.stake_intent_withdraw_fits(amount, is_mega, is_delegate)
    &&& e1.sub_stake_intent_fits(amount, is_mega)
}

/// The entity after a successful withdrawal: state machine, then the debit,
/// then the state machine again (the debit itself may start deactivation).
pub open spec fn entity_after(
    entity: Entity,
    registrar: Registrar,
    stake_ctx: StakeContext,
    now: i64,
    amount: u64,
    is_mega: bool,
) -> Entity {
    entity.fsm_next(stake_ctx, registrar, now).after_sub_stake_intent(amount, is_mega).fsm_next(
        stake_ctx,
        registrar,
        now,
    )
}

/// Debits `amount` from the member's and the entity's stake-intent balances.
pub fn handler(
    entity: &mut Entity,
    member: &mut Member,
    registrar: &Registrar,
    stake_ctx: &StakeContext,
    now: i64,
    amount: u64,
    is_mega: bool,
    is_delegate: bool,
) -> (r: Result<(), RegistryError>)
    requires
        old(entity).wf(),
        registrar.wf(),
        registrar.clock_ok(now),
        old(entity).generation < u64::MAX,
    ensures
        r is Err ==> *final(entity) == *old(entity) && *final(member) == *old(member),
        insufficient(*old(member), amount, is_mega, is_delegate) ==> r == Err::<
            (),
            RegistryError,
        >(RegistryError::InsufficientStakeIntentBalance),
        !insufficient(*old(member), amount, is_mega, is_delegate) && !fits(
            *old(entity),
            *old(member),
            *registrar,
            *stake_ctx,
            now,
            amount,
            is_mega,
            is_delegate,
        ) ==> r == Err::<(), RegistryError>(RegistryError::CheckedFailure),
        r is Ok <==> !insufficient(*old(member), amount, is_mega, is_delegate) && fits(
            *old(entity),
            *old(member),
            *registrar,
            *stake_ctx,
            now,
            amount,
            is_mega,
            is_delegate,
        ),
        r is Ok ==> *final(entity) == entity_after(
            *old(entity),
            *registrar,
            *stake_ctx,
            now,
            amount,
            is_mega,
        ),
        r is Ok ==> *final(member) == old(member).after_stake_intent_withdraw(
            amount,
            is_mega,
            is_delegate,
        ),
        final(entity).wf(),
{
    let mut e1 = *entity;
    e1.transition_activation_if_needed(stake_ctx, registrar, now);

    if amount > member.stake_intent(is_mega, is_delegate) {
        return Err(RegistryError::InsufficientStakeIntentBalance);
    }

    let book = if is_delegate {
        member.books.delegate.balances
    } else {
        member.books.main.balances
    };
    let member_fits = if is_mega {
        amount <= book.mega_cost_basis
    } else {
        amount <= book.cost_basis
    };
    let entity_fits = if is_mega {
        amount <= e1.balances.mega_stake_intent
    } else {
        amount <= e1.balances.stake_intent
    };
    if !(member_fits && entity_fits) {
        return Err(RegistryError::CheckedFailure);
    }

    *entity = e1;
    member.stake_intent_did_withdraw(amount, is_mega, is_delegate);
    entity.sub_stake_intent(amount, is_mega);
    entity.transition_activation_if_needed(stake_ctx, registrar, now);

    Ok(())
}

} // verus!
