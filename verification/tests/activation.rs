//! The entity activation state machine: thresholds, generations, and the
//! deactivation countdown.

use serum_registry::address::Address;
use serum_registry::basket::{Basket, MegaBasket, StakeContext};
use serum_registry::deposit;
use serum_registry::entity::{Entity, EntityState};
use serum_registry::member::{Member, MemberBooks, Watchtower};
use serum_registry::registrar::{Escrow, Registrar};

fn addr(n: u64) -> Address {
    Address { w0: n, w1: 0, w2: 0, w3: 0 }
}

fn registrar_with(threshold: u64, withdrawal_timelock: i64, premium: i64) -> Registrar {
    Registrar::new(
        addr(1),
        0,
        threshold,
        withdrawal_timelock,
        premium,
        addr(2),
        addr(3),
        addr(4),
        addr(5),
        Escrow { vault: addr(6), mega_vault: addr(7) },
    )
}

fn fresh_member() -> Member {
    Member {
        initialized: true,
        registrar: addr(1),
        entity: addr(10),
        beneficiary: addr(20),
        generation: 0,
        watchtower: Watchtower::new(addr(0), addr(0)),
        books: MemberBooks::new(addr(20), addr(21)),
        last_active_stake_ctx: StakeContext::default(),
    }
}

#[test]
fn activation_at_exact_threshold() {
    // A mega pool token is worth nothing here, so it satisfies the "at
    // least one mega unit staked" gate without moving the value total.
    let registrar = registrar_with(1_000, 10, 10);
    let ctx = StakeContext::new(
        Basket { quantity: 0 },
        MegaBasket { mega_quantity: 0, quantity: 0 },
    );

    let mut entity = Entity::new(addr(1), addr(11));
    entity.spt_add(1, true);
    entity.add_stake_intent(999, false);
    let mut member = fresh_member();
    member.books.main.balances.spt_mega_amount = 1;
    member.books.main.balances.stake_intent = 999;

    // 999 of 1000: requirements not met, the entity stays inactive.
    assert!(!entity.meets_activation_requirements(&ctx, &registrar));
    entity.transition_activation_if_needed(&ctx, &registrar, 50);
    assert_eq!(entity.state, EntityState::Inactive);
    assert_eq!(entity.generation, 0);

    // One more unit reaches exactly 1000 with one mega unit staked: the
    // deposit's own re-evaluation activates the entity and the generation
    // becomes 1.
    deposit::handler(&mut entity, &mut member, &registrar, &ctx, 50, 1, false, false).unwrap();
    assert_eq!(entity.activation_amount(&ctx), 1_000);
    assert_eq!(entity.state, EntityState::Active);
    assert_eq!(entity.generation, 1);
}

#[test]
fn mega_unit_required_for_activation() {
    let registrar = registrar_with(10, 10, 10);
    let ctx = StakeContext::new(
        Basket { quantity: 1 },
        MegaBasket { mega_quantity: 1, quantity: 0 },
    );
    let mut entity = Entity::new(addr(1), addr(11));
    entity.add_stake_intent(1_000, false);

    // Value far above the threshold, but no mega unit staked.
    assert!(!entity.meets_activation_requirements(&ctx, &registrar));
    entity.transition_activation_if_needed(&ctx, &registrar, 50);
    assert_eq!(entity.state, EntityState::Inactive);

    entity.spt_add(1, true);
    assert!(entity.meets_activation_requirements(&ctx, &registrar));
    entity.transition_activation_if_needed(&ctx, &registrar, 50);
    assert_eq!(entity.state, EntityState::Active);
    assert_eq!(entity.generation, 1);
}

#[test]
fn deactivation_countdown() {
    // Timelock 500 in total.
    let registrar = registrar_with(10, 300, 200);
    let ctx = StakeContext::new(
        Basket { quantity: 1 },
        MegaBasket { mega_quantity: 1, quantity: 0 },
    );

    // An active entity whose requirements no longer hold (no stake at all).
    let mut entity = Entity::new(addr(1), addr(11));
    entity.generation = 1;
    entity.state = EntityState::Active;

    let t0 = 10_000;
    entity.transition_activation_if_needed(&ctx, &registrar, t0);
    assert_eq!(
        entity.state,
        EntityState::PendingDeactivation { deactivation_start_ts: t0, timelock: 500 }
    );
    assert_eq!(entity.generation, 1);

    // Still pending shortly before expiry.
    entity.transition_activation_if_needed(&ctx, &registrar, t0 + 499);
    assert_eq!(
        entity.state,
        EntityState::PendingDeactivation { deactivation_start_ts: t0, timelock: 500 }
    );

    // Expired: the next evaluation lands in Inactive, without touching the
    // generation.
    entity.transition_activation_if_needed(&ctx, &registrar, t0 + 501);
    assert_eq!(entity.state, EntityState::Inactive);
    assert_eq!(entity.generation, 1);
}

#[test]
fn pending_deactivation_recovers_to_active() {
    let registrar = registrar_with(10, 300, 200);
    let ctx = StakeContext::new(
        Basket { quantity: 1 },
        MegaBasket { mega_quantity: 1, quantity: 0 },
    );

    let mut entity = Entity::new(addr(1), addr(11));
    entity.generation = 3;
    entity.state = EntityState::PendingDeactivation { deactivation_start_ts: 100, timelock: 500 };
    entity.spt_add(1, true);
    entity.add_stake_intent(100, false);

    // Requirements hold again while pending: back to Active with the same
    // generation.
    entity.transition_activation_if_needed(&ctx, &registrar, 300);
    assert_eq!(entity.state, EntityState::Active);
    assert_eq!(entity.generation, 3);
}

#[test]
fn generation_changes_only_on_activation() {
    let registrar = registrar_with(10, 300, 200);
    let ctx = StakeContext::new(
        Basket { quantity: 1 },
        MegaBasket { mega_quantity: 1, quantity: 0 },
    );

    // Inactive, not meeting requirements: nothing changes.
    let mut entity = Entity::new(addr(1), addr(11));
    entity.transition_activation_if_needed(&ctx, &registrar, 100);
    assert_eq!(entity.generation, 0);
    assert_eq!(entity.state, EntityState::Inactive);

    // Inactive -> Active: generation increments.
    entity.spt_add(1, true);
    entity.add_stake_intent(50, false);
    entity.transition_activation_if_needed(&ctx, &registrar, 100);
    assert_eq!(entity.state, EntityState::Active);
    assert_eq!(entity.generation, 1);

    // Active -> PendingDeactivation: generation unchanged.
    entity.sub_stake_intent(50, false);
    entity.spt_sub(1, true);
    entity.transition_activation_if_needed(&ctx, &registrar, 200);
    assert_eq!(
        entity.state,
        EntityState::PendingDeactivation { deactivation_start_ts: 200, timelock: 500 }
    );
    assert_eq!(entity.generation, 1);

    // PendingDeactivation -> Inactive: generation unchanged.
    entity.transition_activation_if_needed(&ctx, &registrar, 1_000);
    assert_eq!(entity.state, EntityState::Inactive);
    assert_eq!(entity.generation, 1);
}

#[test]
fn activation_amount_formula() {
    let ctx = StakeContext::new(
        Basket { quantity: 3 },
        MegaBasket { mega_quantity: 7, quantity: 2 },
    );
    let mut entity = Entity::new(addr(1), addr(11));
    entity.spt_add(10, false);
    entity.spt_add(2, true);
    entity.add_stake_intent(40, false);
    entity.add_stake_intent(5, true);

    // 10 primary tokens at 3 each, plus 2 mega tokens at 7 mega + 2 primary
    // each (a mega unit counts a million), plus 40 staged primary units,
    // plus 5 staged mega units at a million each.
    let expected = 10 * 3 + (2 * 7 * 1_000_000 + 2 * 2) + 40 + 5 * 1_000_000;
    assert_eq!(entity.activation_amount(&ctx), expected);

    // The pricing adapter agrees piecewise.
    assert_eq!(ctx.srm_equivalent(10, false), 30);
    assert_eq!(ctx.srm_equivalent(2, true), 14_000_004);
}
