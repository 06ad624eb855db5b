//! Entity switch: moves a member's books from one entity to another.
//!
//! Both aggregates are adjusted by the member's full books and both state
//! machines are re-evaluated, since losing or gaining the stake may move
//! either entity across the activation boundary. On any failure nothing is
//! changed.

use vstd::prelude::*;

use crate::address::Address;
use crate::basket::StakeContext;
use crate::entity::Entity;
use crate::error::RegistryError;
use crate::member::Member;
use crate::registrar::Registrar;

verus! {

/// Whether both adjustments stay within the 64-bit range, each on the state
/// after its entity's pre-operation state-machine evaluation: the current
/// aggregate covers the member's books and the new aggregate has room for
/// them.
pub open spec fn fits(
    curr_entity: Entity,
    new_entity: Entity,
    member: Member,
    registrar: Registrar,
    stake_ctx: StakeContext,
    now: i64,
) -> bool {
    let c1 = curr_entity.fsm_next(stake_ctx, registrar, now);
    let n1 = new_entity.fsm_next(stake_ctx, registrar, now);
    &&& c1.remove_member_fits(member)
    &&& n1.add_member_fits(member)
}

/// The outgoing entity after a successful switch: state machine, the
/// member's books taken out, state machine again.
pub open spec fn curr_entity_after(
    curr_entity: Entity,
    member: Member,
    registrar: Registrar,
    stake_ctx: StakeContext,
    now: i64,
) -> Entity {
    curr_entity.fsm_next(stake_ctx, registrar, now).after_remove_member(member).fsm_next(
        stake_ctx,
        registrar,
        now,
    )
}

/// The incoming entity after a successful switch: state machine, the
/// member's books added in, state machine again.
pub open spec fn new_entity_after(
    new_entity: Entity,
    member: Member,
    registrar: Registrar,
    stake_ctx: StakeContext,
    now: i64,
) -> Entity {
    new_entity.fsm_next(stake_ctx, registrar, now).after_add_member(member).fsm_next(
        stake_ctx,
        registrar,
        now,
    )
}

/// Moves the member's books from `curr_entity` to `new_entity` and points
/// the member at its new entity.
pub fn handler(
    member: &mut Member,
    curr_entity: &mut Entity,
    new_entity: &mut Entity,
    registrar: &Registrar,
    stake_ctx: &StakeContext,
    now: i64,
    new_entity_address: Address,
) -> (r: Result<(), RegistryError>)
    requires
        old(curr_entity).wf(),
        old(new_entity).wf(),
        registrar.wf(),
        registrar.clock_ok(now),
        old(curr_entity).generation < u64::MAX,
        old(new_entity).generation < u64::MAX,
    ensures
        r is Ok <==> fits(
            *old(curr_entity),
            *old(new_entity),
            *old(member),
            *registrar,
            *stake_ctx,
            now,
        ),
        r is Ok ==> *final(curr_entity) == curr_entity_after(
            *old(curr_entity),
            *old(member),
            *registrar,
            *stake_ctx,
            now,
        ),
        r is Ok ==> *final(new_entity) == new_entity_after(
            *old(new_entity),
            *old(member),
            *registrar,
            *stake_ctx,
            now,
        ),
        r is Ok ==> *final(member) == (Member { entity: new_entity_address, ..*old(member) }),
        r is Err ==> r == Err::<(), RegistryError>(RegistryError::CheckedFailure) && *final(member)
            == *old(member) && *final(curr_entity) == *old(curr_entity) && *final(new_entity)
            == *old(new_entity),
        final(curr_entity).wf(),
        final(new_entity).wf(),
{
    let mut c1 = *curr_entity;
    c1.transition_activation_if_needed(stake_ctx, registrar, now);
    let mut n1 = *new_entity;
    n1.transition_activation_if_needed(stake_ctx, registrar, now);

    let mn = member.books.main.balances;
    let dl = member.books.delegate.balances;
    let remove_ok = {
        let spt = mn.spt_amount.checked_add(dl.spt_amount);
        let spt_mega = mn.spt_mega_amount.checked_add(dl.spt_mega_amount);
        let intent = mn.stake_intent.checked_add(dl.stake_intent);
        let mega_intent = mn.mega_stake_intent.checked_add(dl.mega_stake_intent);
        match (spt, spt_mega, intent, mega_intent) {
            (Some(a), Some(b), Some(c), Some(d)) => a <= c1.balances.spt_amount && b
                <= c1.balances.spt_mega_amount && c <= c1.balances.stake_intent && d
                <= c1.balances.mega_stake_intent,
            _ => false,
        }
    };
    let add_ok = {
        let spt = n1.balances.spt_amount.checked_add(mn.spt_amount);
        let spt2 = match spt {
            Some(v) => v.checked_add(dl.spt_amount),
            None => None,
        };
        let spt_mega = n1.balances.spt_mega_amount.checked_add(mn.spt_mega_amount);
        let spt_mega2 = match spt_mega {
            Some(v) => v.checked_add(dl.spt_mega_amount),
            None => None,
        };
        let intent = n1.balances.stake_intent.checked_add(mn.stake_intent);
        let intent2 = match intent {
            Some(v) => v.checked_add(dl.stake_intent),
            None => None,
        };
        let mega_intent = n1.balances.mega_stake_intent.checked_add(mn.mega_stake_intent);
        let mega_intent2 = match mega_intent {
            Some(v) => v.checked_add(dl.mega_stake_intent),
            None => None,
        };
        spt2.is_some() && spt_mega2.is_some() && intent2.is_some() && mega_intent2.is_some()
    };
    if !(remove_ok && add_ok) {
        return Err(RegistryError::CheckedFailure);
    }

    *curr_entity = c1;
    *new_entity = n1;
    curr_entity.remove(member);
    curr_entity.transition_activation_if_needed(stake_ctx, registrar, now);
    new_entity.add(member);
    new_entity.transition_activation_if_needed(stake_ctx, registrar, now);
    member.entity = new_entity_address;

    Ok(())
}

} // verus!
