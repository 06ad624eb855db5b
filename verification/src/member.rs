//! Members: the per-depositor ledger.
//!
//! A member's balances are partitioned into two books: the `main` book owned
//! by the beneficiary and the `delegate` book owned by a third-party
//! delegate. Each book tracks staged deposits (stake-intent), staked pool
//! tokens, and the cost basis — the original deposited value backing the
//! position, which caps what a redemption owes back to the delegate; any
//! excess over the cost basis is accrued reward and belongs to the main
//! owner.

use vstd::prelude::*;

use crate::address::Address;
use crate::basket::StakeContext;

verus! {

pub open spec fn min_u64(a: u64, b: u64) -> u64 {
    if a <= b {
        a
    } else {
        b
    }
}

/// Balances of one book.
#[derive(Clone, Copy, Debug, PartialEq, Eq, Structural)]
pub struct Balances {
    /// The amount of pool tokens of the primary pool.
    pub spt_amount: u64,
    /// The amount of pool tokens of the mega pool.
    pub spt_mega_amount: u64,
    /// Primary asset staged in the stake-intent vault.
    pub stake_intent: u64,
    /// Mega asset staged in the stake-intent vault.
    pub mega_stake_intent: u64,
    /// The primary-asset value deposited into this book before rewards.
    /// These funds can be both in the stake-intent vault and in the staking
    /// pool. Funds in excess of the cost basis are rewards and are not owed
    /// to a delegate.
    pub cost_basis: u64,
    /// The mega-asset counterpart of `cost_basis`.
    pub mega_cost_basis: u64,
}

impl Balances {
    pub open spec fn zero_spec() -> Balances {
        Balances {
            spt_amount: 0,
            spt_mega_amount: 0,
            stake_intent: 0,
            mega_stake_intent: 0,
            cost_basis: 0,
            mega_cost_basis: 0,
        }
    }

    pub fn zero() -> (b: Balances)
        ensures
            b == Balances::zero_spec(),
    {
        Balances {
            spt_amount: 0,
            spt_mega_amount: 0,
            stake_intent: 0,
            mega_stake_intent: 0,
            cost_basis: 0,
            mega_cost_basis: 0,
        }
    }

    pub open spec fn is_empty_spec(self) -> bool {
        &&& self.spt_amount == 0
        &&& self.spt_mega_amount == 0
        &&& self.stake_intent == 0
        &&& self.mega_stake_intent == 0
    }

    /// True when the book holds no pool tokens and no staged deposits.
    pub fn is_empty(&self) -> (r: bool)
        ensures
            r == self.is_empty_spec(),
    {
        self.spt_amount == 0 && self.spt_mega_amount == 0 && self.stake_intent == 0
            && self.mega_stake_intent == 0
    }
}

/// One balance book and its owner.
#[derive(Clone, Copy, Debug, PartialEq, Eq, Structural)]
pub struct Book {
    pub owner: Address,
    pub balances: Balances,
}

/// The two balance books that partition a member's stake.
///
/// The delegate book is owned by an authority allowed to deposit and
/// withdraw on behalf of the beneficiary; operations on it must be
/// authorized by both the delegate and the beneficiary. Although its funds
/// are part of the member record, they are not directly accessible by the
/// beneficiary.
#[derive(Clone, Copy, Debug, PartialEq, Eq, Structural)]
pub struct MemberBooks {
    pub main: Book,
    pub delegate: Book,
}

impl MemberBooks {
    pub fn new(beneficiary: Address, delegate: Address) -> (b: MemberBooks)
        ensures
            b == (MemberBooks {
                main: Book { owner: beneficiary, balances: Balances::zero_spec() },
                delegate: Book { owner: delegate, balances: Balances::zero_spec() },
            }),
    {
        MemberBooks {
            main: Book { owner: beneficiary, balances: Balances::zero() },
            delegate: Book { owner: delegate, balances: Balances::zero() },
        }
    }

    pub fn delegate(&self) -> (b: &Book)
        ensures
            *b == self.delegate,
    {
        &self.delegate
    }

    pub fn main(&self) -> (b: &Book)
        ensures
            *b == self.main,
    {
        &self.main
    }
}

/// An optional authority that can act on the member's main book on behalf
/// of the beneficiary, together with the destination token account such
/// withdrawals are sent to.
#[derive(Clone, Copy, Debug, PartialEq, Eq, Structural)]
pub struct Watchtower {
    /// The signing key that can withdraw main-book stake on the
    /// beneficiary's behalf in the case of a pending deactivation.
    pub authority: Address,
    /// The destination token account such withdrawals are sent to.
    pub dst: Address,
}

impl Watchtower {
    pub fn new(authority: Address, dst: Address) -> (w: Watchtower)
        ensures
            w == (Watchtower { authority, dst }),
    {
        Watchtower { authority, dst }
    }
}

/// The per-asset amounts one party receives from a redemption: primary
/// asset, then mega asset.
#[derive(Clone, Copy, Debug, PartialEq, Eq, Structural)]
pub struct RedemptionBasket {
    pub asset: u64,
    pub mega_asset: u64,
}

impl RedemptionBasket {
    pub fn new(asset: u64, mega_asset: u64) -> (b: RedemptionBasket)
        ensures
            b == (RedemptionBasket { asset, mega_asset }),
    {
        RedemptionBasket { asset, mega_asset }
    }

    pub open spec fn zero_spec() -> RedemptionBasket {
        RedemptionBasket { asset: 0, mega_asset: 0 }
    }
}

/// Member record: tracks one depositor's membership with an entity.
#[derive(Clone, Copy, Debug, PartialEq, Eq, Structural)]
pub struct Member {
    /// Set by the program on creation.
    pub initialized: bool,
    /// Registrar the member belongs to.
    pub registrar: Address,
    /// Entity record providing membership.
    pub entity: Address,
    /// The key that is allowed to redeem assets from the staking pool.
    pub beneficiary: Address,
    /// The entity activation generation this member's staked position
    /// belongs to, used to detect stale stake.
    pub generation: u64,
    /// The watchtower that can act on this member's main book.
    pub watchtower: Watchtower,
    /// The balance books that partition the member's stake.
    pub books: MemberBooks,
    /// The *last* price context used when creating a staking pool token,
    /// used to mark the price of a pool token when a withdrawal happens on
    /// an inactive entity: while inactive, a position earns no rewards, so
    /// the payout is re-priced down to this recorded basket.
    pub last_active_stake_ctx: StakeContext,
}

impl Member {
    /// The book selected by the `delegate` flag.
    pub open spec fn book_spec(self, delegate: bool) -> Book {
        if delegate {
            self.books.delegate
        } else {
            self.books.main
        }
    }

    /// The member with the selected book's balances replaced.
    pub open spec fn with_book_balances(self, delegate: bool, b: Balances) -> Member {
        if delegate {
            Member {
                books: MemberBooks {
                    delegate: Book { balances: b, ..self.books.delegate },
                    ..self.books
                },
                ..self
            }
        } else {
            Member {
                books: MemberBooks { main: Book { balances: b, ..self.books.main }, ..self.books },
                ..self
            }
        }
    }

    /// The staged stake-intent of the selected book and asset.
    pub open spec fn stake_intent_spec(self, mega: bool, delegate: bool) -> u64 {
        if mega {
            self.book_spec(delegate).balances.mega_stake_intent
        } else {
            self.book_spec(delegate).balances.stake_intent
        }
    }

    pub fn stake_intent(&self, mega: bool, delegate: bool) -> (r: u64)
        ensures
            r == self.stake_intent_spec(mega, delegate),
    {
        if delegate {
            if mega {
                self.books.delegate.balances.mega_stake_intent
            } else {
                self.books.delegate.balances.stake_intent
            }
        } else {
            if mega {
                self.books.main.balances.mega_stake_intent
            } else {
                self.books.main.balances.stake_intent
            }
        }
    }

    pub open spec fn after_stake_intent_deposit(self, amount: u64, mega: bool, delegate: bool) -> Member {
        let b = self.book_spec(delegate).balances;
        let nb = if mega {
            Balances {
                mega_stake_intent: (b.mega_stake_intent + amount) as u64,
                mega_cost_basis: (b.mega_cost_basis + amount) as u64,
                ..b
            }
        } else {
            Balances {
                stake_intent: (b.stake_intent + amount) as u64,
                cost_basis: (b.cost_basis + amount) as u64,
                ..b
            }
        };
        self.with_book_balances(delegate, nb)
    }

    pub open spec fn stake_intent_deposit_fits(self, amount: u64, mega: bool, delegate: bool) -> bool {
        let b = self.book_spec(delegate).balances;
        if mega {
            b.mega_stake_intent + amount <= u64::MAX && b.mega_cost_basis + amount <= u64::MAX
        } else {
            b.stake_intent + amount <= u64::MAX && b.cost_basis + amount <= u64::MAX
        }
    }

    /// Credits a deposit to the selected book: the staged balance and the
    /// cost basis both grow by the deposited amount.
    pub fn stake_intent_did_deposit(&mut self, amount: u64, mega: bool, delegate: bool)
        requires
            old(self).stake_intent_deposit_fits(amount, mega, delegate),
        ensures
            *final(self) == old(self).after_stake_intent_deposit(amount, mega, delegate),
    {
        if delegate {
            if mega {
                self.books.delegate.balances.mega_stake_intent =
                    self.books.delegate.balances.mega_stake_intent + amount;
                self.books.delegate.balances.mega_cost_basis =
                    self.books.delegate.balances.mega_cost_basis + amount;
            } else {
                self.books.delegate.balances.stake_intent = self.books.delegate.balances.stake_intent
                    + amount;
                self.books.delegate.balances.cost_basis = self.books.delegate.balances.cost_basis
                    + amount;
            }
        } else {
            if mega {
                self.books.main.balances.mega_stake_intent =
                    self.books.main.balances.mega_stake_intent + amount;
                self.books.main.balances.mega_cost_basis = self.books.main.balances.mega_cost_basis
                    + amount;
            } else {
                self.books.main.balances.stake_intent = self.books.main.balances.stake_intent
                    + amount;
                self.books.main.balances.cost_basis = self.books.main.balances.cost_basis + amount;
            }
        }
    }

    pub open spec fn after_stake_intent_withdraw(self, amount: u64, mega: bool, delegate: bool) -> Member {
        let b = self.book_spec(delegate).balances;
        let nb = if mega {
            Balances {
                mega_stake_intent: (b.mega_stake_intent - amount) as u64,
                mega_cost_basis: (b.mega_cost_basis - amount) as u64,
                ..b
            }
        } else {
            Balances {
                stake_intent: (b.stake_intent - amount) as u64,
                cost_basis: (b.cost_basis - amount) as u64,
                ..b
            }
        };
        self.with_book_balances(delegate, nb)
    }

    pub open spec fn stake_intent_withdraw_fits(self, amount: u64, mega: bool, delegate: bool) -> bool {
        let b = self.book_spec(delegate).balances;
        if mega {
            amount <= b.mega_stake_intent && amount <= b.mega_cost_basis
        } else {
            amount <= b.stake_intent && amount <= b.cost_basis
        }
    }

    /// Debits a stake-intent withdrawal from the selected book: the staged
    /// balance and the cost basis both shrink by the withdrawn amount.
    pub fn stake_intent_did_withdraw(&mut self, amount: u64, mega: bool, delegate: bool)
        requires
            old(self).stake_intent_withdraw_fits(amount, mega, delegate),
        ensures
            *final(self) == old(self).after_stake_intent_withdraw(amount, mega, delegate),
    {
        if delegate {
            if mega {
                self.books.delegate.balances.mega_stake_intent =
                    self.books.delegate.balances.mega_stake_intent - amount;
                self.books.delegate.balances.mega_cost_basis =
                    self.books.delegate.balances.mega_cost_basis - amount;
            } else {
                self.books.delegate.balances.stake_intent = self.books.delegate.balances.stake_intent
                    - amount;
                self.books.delegate.balances.cost_basis = self.books.delegate.balances.cost_basis
                    - amount;
            }
        } else {
            if mega {
                self.books.main.balances.mega_stake_intent =
                    self.books.main.balances.mega_stake_intent - amount;
                self.books.main.balances.mega_cost_basis = self.books.main.balances.mega_cost_basis
                    - amount;
            } else {
                self.books.main.balances.stake_intent = self.books.main.balances.stake_intent
                    - amount;
                self.books.main.balances.cost_basis = self.books.main.balances.cost_basis - amount;
            }
        }
    }

    pub open spec fn after_sub_stake_intent(self, amount: u64, mega: bool, delegate: bool) -> Member {
        let b = self.book_spec(delegate).balances;
        let nb = if mega {
            Balances { mega_stake_intent: (b.mega_stake_intent - amount) as u64, ..b }
        } else {
            Balances { stake_intent: (b.stake_intent - amount) as u64, ..b }
        };
        self.with_book_balances(delegate, nb)
    }

    pub open spec fn sub_stake_intent_fits(self, amount: u64, mega: bool, delegate: bool) -> bool {
        amount <= self.stake_intent_spec(mega, delegate)
    }

    /// Debits staged stake-intent that is being converted into pool tokens.
    /// Unlike a withdrawal, the cost basis stays: the deposited value keeps
    /// backing the position, now inside the pool.
    pub fn sub_stake_intent(&mut self, amount: u64, mega: bool, delegate: bool)
        requires
            old(self).sub_stake_intent_fits(amount, mega, delegate),
        ensures
            *final(self) == old(self).after_sub_stake_intent(amount, mega, delegate),
    {
        if delegate {
            if mega {
                self.books.delegate.balances.mega_stake_intent =
                    self.books.delegate.balances.mega_stake_intent - amount;
            } else {
                self.books.delegate.balances.stake_intent = self.books.delegate.balances.stake_intent
                    - amount;
            }
        } else {
            if mega {
                self.books.main.balances.mega_stake_intent =
                    self.books.main.balances.mega_stake_intent - amount;
            } else {
                self.books.main.balances.stake_intent = self.books.main.balances.stake_intent
                    - amount;
            }
        }
    }

    pub open spec fn after_spt_create(
        self,
        stake_ctx: StakeContext,
        amount: u64,
        mega: bool,
        delegate: bool,
    ) -> Member {
        let b = self.book_spec(delegate).balances;
        let nb = if mega {
            Balances { spt_mega_amount: (b.spt_mega_amount + amount) as u64, ..b }
        } else {
            Balances { spt_amount: (b.spt_amount + amount) as u64, ..b }
        };
        Member { last_active_stake_ctx: stake_ctx, ..self.with_book_balances(delegate, nb) }
    }

    pub open spec fn spt_create_fits(self, amount: u64, mega: bool, delegate: bool) -> bool {
        let b = self.book_spec(delegate).balances;
        if mega {
            b.spt_mega_amount + amount <= u64::MAX
        } else {
            b.spt_amount + amount <= u64::MAX
        }
    }

    /// Credits newly created pool tokens to the selected book and stamps the
    /// price context they were created at, across either book. The purchase
    /// price is the per-asset amount paid for them, in basket order.
    pub fn spt_did_create(
        &mut self,
        stake_ctx: &StakeContext,
        amount: u64,
        purchase_price: &[u64],
        mega: bool,
        delegate: bool,
    )
        requires
            purchase_price@.len() == (if mega {
                2int
            } else {
                1int
            }),
            old(self).spt_create_fits(amount, mega, delegate),
        ensures
            *final(self) == old(self).after_spt_create(*stake_ctx, amount, mega, delegate),
    {
        if delegate {
            if mega {
                self.books.delegate.balances.spt_mega_amount =
                    self.books.delegate.balances.spt_mega_amount + amount;
            } else {
                self.books.delegate.balances.spt_amount = self.books.delegate.balances.spt_amount
                    + amount;
            }
        } else {
            if mega {
                self.books.main.balances.spt_mega_amount =
                    self.books.main.balances.spt_mega_amount + amount;
            } else {
                self.books.main.balances.spt_amount = self.books.main.balances.spt_amount + amount;
            }
        }
        self.last_active_stake_ctx = *stake_ctx;
    }

    /// The two payout legs of a redemption: `(main, delegate)`.
    ///
    /// For a delegate-book redemption, the delegate is owed at most its
    /// remaining cost basis per asset; any excess of the purchase price over
    /// the cost basis is accrued reward and goes to the main owner. For a
    /// main-book redemption the entire purchase price goes to the main owner
    /// and the delegate leg is zero.
    ///
    /// `purchase_price` is in basket order: for the mega pool, the mega
    /// asset first and then the primary asset; for the primary pool, the
    /// single primary-asset amount.
    pub open spec fn redemption_legs(
        self,
        purchase_price: Seq<u64>,
        mega: bool,
        delegate: bool,
    ) -> (RedemptionBasket, RedemptionBasket) {
        let b = self.book_spec(delegate).balances;
        if delegate {
            if mega {
                let mega_cost = min_u64(purchase_price[0], b.mega_cost_basis);
                let cost = min_u64(purchase_price[1], b.cost_basis);
                (
                    RedemptionBasket {
                        asset: (purchase_price[1] - cost) as u64,
                        mega_asset: (purchase_price[0] - mega_cost) as u64,
                    },
                    RedemptionBasket { asset: cost, mega_asset: mega_cost },
                )
            } else {
                let cost = min_u64(purchase_price[0], b.cost_basis);
                (
                    RedemptionBasket { asset: (purchase_price[0] - cost) as u64, mega_asset: 0 },
                    RedemptionBasket { asset: cost, mega_asset: 0 },
                )
            }
        } else {
            if mega {
                (
                    RedemptionBasket { asset: purchase_price[1], mega_asset: purchase_price[0] },
                    RedemptionBasket::zero_spec(),
                )
            } else {
                (
                    RedemptionBasket { asset: purchase_price[0], mega_asset: 0 },
                    RedemptionBasket::zero_spec(),
                )
            }
        }
    }

    /// The member after a redemption: the redeemed pool tokens leave the
    /// selected book and its cost basis shrinks by the part of the purchase
    /// price that repaid it.
    pub open spec fn after_spt_redeem(
        self,
        spt_amount: u64,
        purchase_price: Seq<u64>,
        mega: bool,
        delegate: bool,
    ) -> Member {
        let b = self.book_spec(delegate).balances;
        let nb = if mega {
            Balances {
                spt_mega_amount: (b.spt_mega_amount - spt_amount) as u64,
                cost_basis: (b.cost_basis - min_u64(purchase_price[1], b.cost_basis)) as u64,
                mega_cost_basis: (b.mega_cost_basis - min_u64(
                    purchase_price[0],
                    b.mega_cost_basis,
                )) as u64,
                ..b
            }
        } else {
            Balances {
                spt_amount: (b.spt_amount - spt_amount) as u64,
                cost_basis: (b.cost_basis - min_u64(purchase_price[0], b.cost_basis)) as u64,
                ..b
            }
        };
        self.with_book_balances(delegate, nb)
    }

    pub open spec fn spt_redeem_fits(self, spt_amount: u64, mega: bool, delegate: bool) -> bool {
        let b = self.book_spec(delegate).balances;
        if mega {
            spt_amount <= b.spt_mega_amount
        } else {
            spt_amount <= b.spt_amount
        }
    }

    /// Redeems `spt_amount` pool tokens of the selected book for the
    /// underlying basket's `purchase_price` (in basket order). Returns the
    /// amounts owed to the (main, delegate) owners.
    ///
    /// Across each asset, the two legs together are exactly the purchase
    /// price — the split never creates or destroys value — and the delegate
    /// leg never exceeds the cost basis the delegate contributed; the excess
    /// (accrued reward) always flows to the main owner.
    pub fn spt_did_redeem(
        &mut self,
        spt_amount: u64,
        purchase_price: &[u64],
        mega: bool,
        delegate: bool,
    ) -> (r: (RedemptionBasket, RedemptionBasket))
        requires
            purchase_price@.len() == (if mega {
                2int
            } else {
                1int
            }),
            old(self).spt_redeem_fits(spt_amount, mega, delegate),
        ensures
            r == old(self).redemption_legs(purchase_price@, mega, delegate),
            *final(self) == old(self).after_spt_redeem(spt_amount, purchase_price@, mega, delegate),
            // Conservation: nothing is created or destroyed by the split.
            r.0.asset + r.1.asset == (if mega {
                purchase_price@[1]
            } else {
                purchase_price@[0]
            }),
            r.0.mega_asset + r.1.mega_asset == (if mega {
                purchase_price@[0] as int
            } else {
                0int
            }),
            // Delegate cap: the delegate never receives more than it is owed.
            r.1.asset <= old(self).book_spec(delegate).balances.cost_basis,
            r.1.mega_asset <= old(self).book_spec(delegate).balances.mega_cost_basis,
            !delegate ==> r.1 == RedemptionBasket::zero_spec(),
    {
        if delegate {
            if mega {
                let pp_mega = purchase_price[0];
                let pp = purchase_price[1];
                let mega_cost = if pp_mega <= self.books.delegate.balances.mega_cost_basis {
                    pp_mega
                } else {
                    self.books.delegate.balances.mega_cost_basis
                };
                let cost = if pp <= self.books.delegate.balances.cost_basis {
                    pp
                } else {
                    self.books.delegate.balances.cost_basis
                };

                self.books.delegate.balances.spt_mega_amount =
                    self.books.delegate.balances.spt_mega_amount - spt_amount;
                self.books.delegate.balances.cost_basis = self.books.delegate.balances.cost_basis
                    - cost;
                self.books.delegate.balances.mega_cost_basis =
                    self.books.delegate.balances.mega_cost_basis - mega_cost;

                (
                    RedemptionBasket::new(pp - cost, pp_mega - mega_cost),
                    RedemptionBasket::new(cost, mega_cost),
                )
            } else {
                let pp = purchase_price[0];
                let cost = if pp <= self.books.delegate.balances.cost_basis {
                    pp
                } else {
                    self.books.delegate.balances.cost_basis
                };

                self.books.delegate.balances.spt_amount = self.books.delegate.balances.spt_amount
                    - spt_amount;
                self.books.delegate.balances.cost_basis = self.books.delegate.balances.cost_basis
                    - cost;

                (RedemptionBasket::new(pp - cost, 0), RedemptionBasket::new(cost, 0))
            }
        } else {
            if mega {
                let pp_mega = purchase_price[0];
                let pp = purchase_price[1];
                let mega_cost = if pp_mega <= self.books.main.balances.mega_cost_basis {
                    pp_mega
                } else {
                    self.books.main.balances.mega_cost_basis
                };
                let cost = if pp <= self.books.main.balances.cost_basis {
                    pp
                } else {
                    self.books.main.balances.cost_basis
                };

                self.books.main.balances.spt_mega_amount = self.books.main.balances.spt_mega_amount
                    - spt_amount;
                self.books.main.balances.cost_basis = self.books.main.balances.cost_basis - cost;
                self.books.main.balances.mega_cost_basis = self.books.main.balances.mega_cost_basis
                    - mega_cost;

                (RedemptionBasket::new(pp, pp_mega), RedemptionBasket::new(0, 0))
            } else {
                let pp = purchase_price[0];
                let cost = if pp <= self.books.main.balances.cost_basis {
                    pp
                } else {
                    self.books.main.balances.cost_basis
                };

                self.books.main.balances.spt_amount = self.books.main.balances.spt_amount
                    - spt_amount;
                self.books.main.balances.cost_basis = self.books.main.balances.cost_basis - cost;

                (RedemptionBasket::new(pp, 0), RedemptionBasket::new(0, 0))
            }
        }
    }

    /// True when neither book holds any staking pool tokens, of either pool.
    /// Gates whether a member may carry its position across an entity
    /// generation change.
    pub open spec fn stake_is_empty_spec(self) -> bool {
        &&& self.books.main.balances.spt_amount == 0
        &&& self.books.main.balances.spt_mega_amount == 0
        &&& self.books.delegate.balances.spt_amount == 0
        &&& self.books.delegate.balances.spt_mega_amount == 0
    }

    pub fn stake_is_empty(&self) -> (r: bool)
        ensures
            r == self.stake_is_empty_spec(),
    {
        self.books.main.balances.spt_amount == 0 && self.books.main.balances.spt_mega_amount == 0
            && self.books.delegate.balances.spt_amount == 0
            && self.books.delegate.balances.spt_mega_amount == 0
    }

    /// Replaces the delegate book's owner. Only permitted while the delegate
    /// book is completely empty, so that no staked or staged value is
    /// silently orphaned under the ownership change.
    pub fn set_delegate(&mut self, delegate: Address)
        requires
            old(self).books.delegate.balances == Balances::zero_spec(),
        ensures
            *final(self) == (Member {
                books: MemberBooks {
                    delegate: Book { owner: delegate, balances: Balances::zero_spec() },
                    ..old(self).books
                },
                ..*old(self)
            }),
    {
        self.books.delegate = Book { owner: delegate, balances: Balances::zero() };
    }
}

} // verus!
