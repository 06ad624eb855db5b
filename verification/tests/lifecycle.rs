//! A full walk through the registry: initialization, membership, deposits,
//! staking, and the two-phase withdrawal.

use serum_registry::address::Address;
use serum_registry::basket::{Basket, MegaBasket, StakeContext};
use serum_registry::create_member;
use serum_registry::deposit;
use serum_registry::end_stake_withdrawal;
use serum_registry::entity::{Entity, EntityState};
use serum_registry::error::RegistryError;
use serum_registry::member::{Member, MemberBooks, Watchtower};
use serum_registry::pending_withdrawal::{PendingPayment, PendingWithdrawal};
use serum_registry::registrar::{Escrow, Registrar};
use serum_registry::stake;
use serum_registry::stake_intent_withdrawal;
use serum_registry::start_stake_withdrawal;

fn addr(n: u64) -> Address {
    Address { w0: n, w1: 0, w2: 0, w3: 0 }
}

fn fresh_receipt() -> PendingWithdrawal {
    PendingWithdrawal {
        initialized: false,
        burned: false,
        delegate: false,
        member: addr(0),
        start_ts: 0,
        end_ts: 0,
        spt_amount: 0,
        pool: addr(0),
        payment: zero_payment(),
        delegate_payment: zero_payment(),
    }
}

fn zero_payment() -> PendingPayment {
    PendingPayment {
        asset_amount: 0,
        mega_asset_amount: 0,
        recipient: addr(0),
        mega_recipient: addr(0),
    }
}

#[test]
fn lifecycle() {
    let withdrawal_timelock = 1234;
    let deactivation_timelock_premium = 1000;
    let reward_activation_threshold = 10;
    let registrar = Registrar::new(
        addr(1),
        0,
        reward_activation_threshold,
        withdrawal_timelock,
        deactivation_timelock_premium,
        addr(2),
        addr(3),
        addr(4),
        addr(5),
        Escrow { vault: addr(6), mega_vault: addr(7) },
    );
    assert!(registrar.initialized);
    assert_eq!(registrar.authority, addr(1));
    assert_eq!(registrar.deactivation_timelock(), 2234);

    // Prices: one primary unit per pool token; one mega unit (and no primary
    // units) per mega pool token.
    let ctx = StakeContext::new(
        Basket { quantity: 1 },
        MegaBasket { mega_quantity: 1, quantity: 0 },
    );

    // Create entity.
    let mut entity = Entity::new(addr(10), addr(11));
    assert!(entity.initialized);
    assert_eq!(entity.leader, addr(11));
    assert_eq!(entity.balances.spt_amount, 0);
    assert_eq!(entity.balances.spt_mega_amount, 0);

    // Update entity.
    entity.update_leader(addr(12));
    assert_eq!(entity.leader, addr(12));

    // Create member.
    let beneficiary = addr(20);
    let delegate = addr(21);
    let mut member = Member {
        initialized: false,
        registrar: addr(0),
        entity: addr(0),
        beneficiary: addr(0),
        generation: 0,
        watchtower: Watchtower::new(addr(0), addr(0)),
        books: MemberBooks::new(addr(0), addr(0)),
        last_active_stake_ctx: StakeContext::default(),
    };
    create_member::handler(
        &mut member,
        addr(10),
        addr(13),
        beneficiary,
        delegate,
        Watchtower::new(addr(0), addr(0)),
    )
    .unwrap();
    assert!(member.initialized);
    assert_eq!(member.entity, addr(13));
    assert_eq!(member.beneficiary, beneficiary);
    assert_eq!(member.books.delegate.owner, delegate);
    assert_eq!(member.books.main.balances.spt_amount, 0);
    assert_eq!(member.books.main.balances.spt_mega_amount, 0);

    // Deposit 100 primary units as stake-intent.
    let now = 1_000;
    let stake_intent_amount = 100;
    deposit::handler(
        &mut entity,
        &mut member,
        &registrar,
        &ctx,
        now,
        stake_intent_amount,
        false,
        false,
    )
    .unwrap();
    assert_eq!(member.books.main.balances.stake_intent, 100);
    assert_eq!(member.books.main.balances.cost_basis, 100);
    assert_eq!(entity.balances.stake_intent, 100);

    // Withdraw all 100 again.
    stake_intent_withdrawal::handler(
        &mut entity,
        &mut member,
        &registrar,
        &ctx,
        now,
        stake_intent_amount,
        false,
        false,
    )
    .unwrap();
    assert_eq!(member.books.main.balances.stake_intent, 0);
    assert_eq!(member.books.main.balances.cost_basis, 0);
    assert_eq!(entity.balances.stake_intent, 0);

    // Deposit 1 mega unit and stake it; this activates the entity.
    deposit::handler(&mut entity, &mut member, &registrar, &ctx, now, 1, true, false).unwrap();
    assert_eq!(member.books.main.balances.mega_stake_intent, 1);
    assert_eq!(entity.state, EntityState::Inactive);
    stake::handler(&mut entity, &mut member, &registrar, &ctx, now, 1, true, false).unwrap();
    assert_eq!(member.books.main.balances.mega_stake_intent, 0);
    assert_eq!(member.books.main.balances.spt_mega_amount, 1);
    assert_eq!(entity.balances.spt_mega_amount, 1);
    assert_eq!(entity.state, EntityState::Active);
    assert_eq!(entity.generation, 1);
    assert_eq!(member.generation, 1);

    // Deposit 100 primary units and stake them.
    deposit::handler(&mut entity, &mut member, &registrar, &ctx, now, 100, false, false).unwrap();
    stake::handler(&mut entity, &mut member, &registrar, &ctx, now, 100, false, false).unwrap();
    assert_eq!(member.books.main.balances.stake_intent, 0);
    assert_eq!(member.books.main.balances.spt_amount, 100);
    assert_eq!(member.books.main.balances.cost_basis, 100);
    assert_eq!(entity.balances.spt_amount, 100);
    assert_eq!(entity.state, EntityState::Active);

    // Start withdrawing the 100 pool tokens.
    let mut receipt = fresh_receipt();
    let forfeited = start_stake_withdrawal::handler(
        &mut receipt,
        &mut entity,
        &mut member,
        &registrar,
        &ctx,
        now,
        addr(30),
        100,
        false,
        false,
        addr(31),
        addr(32),
        addr(0),
        addr(0),
    )
    .unwrap();
    // The entity is active: nothing is forfeited back to the pool.
    assert_eq!(forfeited.asset, 0);
    assert_eq!(forfeited.mega_asset, 0);
    assert!(receipt.initialized);
    assert!(!receipt.burned);
    assert_eq!(receipt.member, addr(30));
    assert_eq!(receipt.start_ts, now);
    assert_eq!(receipt.end_ts, now + 2234);
    assert_eq!(receipt.spt_amount, 100);
    assert_eq!(receipt.pool, addr(4));
    assert_eq!(receipt.payment.asset_amount, 100);
    assert_eq!(receipt.payment.mega_asset_amount, 0);
    assert_eq!(receipt.payment.recipient, addr(31));
    assert_eq!(receipt.delegate_payment.asset_amount, 0);
    assert_eq!(member.books.main.balances.spt_amount, 0);
    assert_eq!(member.books.main.balances.cost_basis, 0);
    assert_eq!(entity.balances.spt_amount, 0);
    assert_eq!(entity.balances.pending_withdrawals, 100);

    // Too early to finish.
    let end_ts = receipt.end_ts;
    let r = end_stake_withdrawal::handler(&mut receipt, end_ts - 1, false);
    assert_eq!(r, Err(RegistryError::WithdrawalTimelockNotPassed));
    assert!(!receipt.burned);

    // Exactly at maturity the payout is released, once.
    end_stake_withdrawal::handler(&mut receipt, end_ts, false).unwrap();
    assert!(receipt.burned);
    let again = end_stake_withdrawal::handler(&mut receipt, end_ts + 1, false);
    assert_eq!(again, Err(RegistryError::AlreadyBurned));
}
