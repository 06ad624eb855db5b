//! The two-phase withdrawal: receipts, timelocks, burning, delegate legs,
//! and inactive-entity repricing.

use serum_registry::address::Address;
use serum_registry::basket::{Basket, MegaBasket, StakeContext};
use serum_registry::end_stake_withdrawal;
use serum_registry::entity::{Entity, EntityState};
use serum_registry::error::RegistryError;
use serum_registry::member::{Member, MemberBooks, Watchtower};
use serum_registry::pending_withdrawal::{PendingPayment, PendingWithdrawal};
use serum_registry::registrar::{Escrow, Registrar};
use serum_registry::start_stake_withdrawal;

fn addr(n: u64) -> Address {
    Address { w0: n, w1: 0, w2: 0, w3: 0 }
}

fn payment(asset: u64, mega: u64) -> PendingPayment {
    PendingPayment {
        asset_amount: asset,
        mega_asset_amount: mega,
        recipient: addr(31),
        mega_recipient: addr(32),
    }
}

fn receipt(burned: bool, end_ts: i64, delegate_asset: u64) -> PendingWithdrawal {
    PendingWithdrawal {
        initialized: true,
        burned,
        delegate: delegate_asset > 0,
        member: addr(30),
        start_ts: 0,
        end_ts,
        spt_amount: 10,
        pool: addr(4),
        payment: payment(100, 0),
        delegate_payment: payment(delegate_asset, 0),
    }
}

fn fresh_receipt() -> PendingWithdrawal {
    PendingWithdrawal {
        initialized: false,
        burned: false,
        delegate: false,
        member: addr(0),
        start_ts: 0,
        end_ts: 0,
        spt_amount: 0,
        pool: addr(0),
        payment: payment(0, 0),
        delegate_payment: payment(0, 0),
    }
}

fn registrar() -> Registrar {
    Registrar::new(
        addr(1),
        0,
        10,
        300,
        200,
        addr(2),
        addr(3),
        addr(4),
        addr(5),
        Escrow { vault: addr(6), mega_vault: addr(7) },
    )
}

fn member_with_stake(spt: u64, cost_basis: u64, marked_quantity: u64) -> Member {
    let mut member = Member {
        initialized: true,
        registrar: addr(1),
        entity: addr(10),
        beneficiary: addr(20),
        generation: 1,
        watchtower: Watchtower::new(addr(0), addr(0)),
        books: MemberBooks::new(addr(20), addr(21)),
        last_active_stake_ctx: StakeContext::new(
            Basket { quantity: marked_quantity },
            MegaBasket { mega_quantity: 1, quantity: 0 },
        ),
    };
    member.books.main.balances.spt_amount = spt;
    member.books.main.balances.cost_basis = cost_basis;
    member
}

#[test]
fn end_withdrawal_timelock_boundary() {
    let mut pw = receipt(false, 500, 0);
    assert_eq!(
        end_stake_withdrawal::handler(&mut pw, 499, false),
        Err(RegistryError::WithdrawalTimelockNotPassed)
    );
    assert!(!pw.burned);
    // Exactly at maturity it succeeds.
    assert_eq!(end_stake_withdrawal::handler(&mut pw, 500, false), Ok(()));
    assert!(pw.burned);
}

#[test]
fn end_withdrawal_twice_fails() {
    let mut pw = receipt(false, 500, 0);
    end_stake_withdrawal::handler(&mut pw, 600, false).unwrap();
    assert!(pw.burned);
    assert_eq!(
        end_stake_withdrawal::handler(&mut pw, 700, false),
        Err(RegistryError::AlreadyBurned)
    );
    // Everything but the burn flag is untouched.
    assert_eq!(pw.payment.asset_amount, 100);
    assert_eq!(pw.end_ts, 500);
}

#[test]
fn end_withdrawal_needs_delegate_accounts() {
    let mut pw = receipt(false, 500, 40);
    assert_eq!(
        end_stake_withdrawal::handler(&mut pw, 600, false),
        Err(RegistryError::DelegateAccountsNotProvided)
    );
    assert!(!pw.burned);
    assert_eq!(end_stake_withdrawal::handler(&mut pw, 600, true), Ok(()));
    assert!(pw.burned);
}

#[test]
fn start_withdrawal_on_initialized_receipt_fails() {
    let registrar = registrar();
    let ctx = StakeContext::new(
        Basket { quantity: 2 },
        MegaBasket { mega_quantity: 1, quantity: 0 },
    );
    let mut entity = Entity::new(addr(1), addr(11));
    entity.spt_add(10, false);
    let mut member = member_with_stake(10, 20, 1);
    let mut pw = receipt(false, 500, 0);

    let r = start_stake_withdrawal::handler(
        &mut pw,
        &mut entity,
        &mut member,
        &registrar,
        &ctx,
        1_000,
        addr(30),
        10,
        false,
        false,
        addr(31),
        addr(32),
        addr(0),
        addr(0),
    );
    assert_eq!(r, Err(RegistryError::AlreadyInitialized));
    assert_eq!(member.books.main.balances.spt_amount, 10);
    assert_eq!(entity.balances.spt_amount, 10);
}

#[test]
fn start_withdrawal_reprices_inactive_entity() {
    let registrar = registrar();
    // Current price doubled since the member last staked at quantity 1.
    let ctx = StakeContext::new(
        Basket { quantity: 2 },
        MegaBasket { mega_quantity: 1, quantity: 0 },
    );
    // No mega unit staked: the entity stays inactive.
    let mut entity = Entity::new(addr(1), addr(11));
    entity.generation = 1;
    entity.spt_add(10, false);
    let mut member = member_with_stake(10, 20, 1);
    let mut pw = fresh_receipt();

    let forfeited = start_stake_withdrawal::handler(
        &mut pw,
        &mut entity,
        &mut member,
        &registrar,
        &ctx,
        1_000,
        addr(30),
        10,
        false,
        false,
        addr(31),
        addr(32),
        addr(0),
        addr(0),
    )
    .unwrap();

    // Of the 20 units the tokens are worth now, only the 10 units they were
    // worth at the recorded price are paid out; the rest goes back to the
    // pool.
    assert_eq!(forfeited.asset, 10);
    assert_eq!(forfeited.mega_asset, 0);
    assert_eq!(pw.payment.asset_amount, 10);
    assert_eq!(pw.payment.mega_asset_amount, 0);
    assert_eq!(pw.end_ts, 1_000 + 500);
    assert_eq!(entity.balances.spt_amount, 0);
    assert_eq!(entity.balances.pending_withdrawals, 10);
    assert_eq!(member.books.main.balances.spt_amount, 0);
    // The payout repaid part of the cost basis.
    assert_eq!(member.books.main.balances.cost_basis, 10);
    assert_eq!(entity.state, EntityState::Inactive);
}

#[test]
fn start_withdrawal_records_delegate_legs() {
    let registrar = registrar();
    let ctx = StakeContext::new(
        Basket { quantity: 1 },
        MegaBasket { mega_quantity: 1, quantity: 0 },
    );
    // Active entity; the withdrawal comes from the delegate book, which
    // contributed 6 of the 10 units the tokens are now worth.
    let mut entity = Entity::new(addr(1), addr(11));
    entity.generation = 1;
    entity.state = EntityState::Active;
    entity.spt_add(10, false);
    entity.spt_add(1, true);
    let mut member = member_with_stake(0, 0, 1);
    member.books.main.balances.spt_mega_amount = 1;
    member.books.delegate.balances.spt_amount = 10;
    member.books.delegate.balances.cost_basis = 6;
    let mut pw = fresh_receipt();

    start_stake_withdrawal::handler(
        &mut pw,
        &mut entity,
        &mut member,
        &registrar,
        &ctx,
        1_000,
        addr(30),
        10,
        false,
        true,
        addr(31),
        addr(32),
        addr(33),
        addr(34),
    )
    .unwrap();

    // The delegate recovers its cost basis; the excess is the main owner's.
    assert!(pw.delegate);
    assert_eq!(pw.delegate_payment.asset_amount, 6);
    assert_eq!(pw.delegate_payment.recipient, addr(33));
    assert_eq!(pw.payment.asset_amount, 4);
    assert_eq!(pw.payment.recipient, addr(31));
    assert_eq!(member.books.delegate.balances.spt_amount, 0);
    assert_eq!(member.books.delegate.balances.cost_basis, 0);

    // Finishing it requires the delegate destination accounts.
    let end_ts = pw.end_ts;
    assert_eq!(
        end_stake_withdrawal::handler(&mut pw, end_ts, false),
        Err(RegistryError::DelegateAccountsNotProvided)
    );
    end_stake_withdrawal::handler(&mut pw, end_ts, true).unwrap();
    assert!(pw.burned);
}

#[test]
fn start_withdrawal_active_entity_pays_current_price() {
    let registrar = registrar();
    let ctx = StakeContext::new(
        Basket { quantity: 2 },
        MegaBasket { mega_quantity: 1, quantity: 0 },
    );
    // A mega unit keeps the entity active throughout.
    let mut entity = Entity::new(addr(1), addr(11));
    entity.generation = 1;
    entity.state = EntityState::Active;
    entity.spt_add(10, false);
    entity.spt_add(1, true);
    let mut member = member_with_stake(10, 20, 1);
    member.books.main.balances.spt_mega_amount = 1;
    let mut pw = fresh_receipt();

    let forfeited = start_stake_withdrawal::handler(
        &mut pw,
        &mut entity,
        &mut member,
        &registrar,
        &ctx,
        1_000,
        addr(30),
        10,
        false,
        false,
        addr(31),
        addr(32),
        addr(0),
        addr(0),
    )
    .unwrap();

    // Active entities are paid the full current value; nothing is forfeited.
    assert_eq!(forfeited.asset, 0);
    assert_eq!(pw.payment.asset_amount, 20);
    assert_eq!(member.books.main.balances.cost_basis, 0);
    assert_eq!(entity.balances.pending_withdrawals, 20);
}
