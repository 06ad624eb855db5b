//! Entities: the per-node aggregate ledger and the activation state machine.
//!
//! An entity's balances are the incrementally maintained sum of the books of
//! all members staking with it. Its `EntityState` machine decides reward
//! eligibility from the normalized value of that stake against the
//! registrar's activation threshold, re-evaluated before and after every
//! mutating operation.

use vstd::prelude::*;

use crate::address::Address;
use crate::basket::{
    lemma_mul_nonneg, lemma_srm_equivalent_nonneg, StakeContext, MEGA_ASSET_VALUE_RATIO,
};
use crate::member::Member;
use crate::registrar::Registrar;

verus! {

/// Cumulative balances of an entity, each split between the primary and the
/// mega asset. Pool-token counts for the staked part, asset amounts for the
/// staging (stake-intent) and in-flight-withdrawal parts.
#[derive(Clone, Copy, Debug, PartialEq, Eq, Structural)]
pub struct Balances {
    /// Staking pool tokens held across all member books.
    pub spt_amount: u64,
    pub spt_mega_amount: u64,
    /// Asset amounts sitting in withdrawal escrow.
    pub pending_withdrawals: u64,
    pub mega_pending_withdrawals: u64,
    /// Deposited asset amounts not yet converted into pool tokens.
    pub stake_intent: u64,
    pub mega_stake_intent: u64,
}

impl Balances {
    pub open spec fn zero_spec() -> Balances {
        Balances {
            spt_amount: 0,
            spt_mega_amount: 0,
            pending_withdrawals: 0,
            mega_pending_withdrawals: 0,
            stake_intent: 0,
            mega_stake_intent: 0,
        }
    }
}

/// EntityState defines a finite state machine deciding the actions a member
/// can take with respect to staking an entity and receiving rewards.
///
/// Inactive -> Active: the entity's `generation` is incremented and members
/// may stake. Active -> PendingDeactivation: requirements no longer hold; a
/// deactivation countdown starts. PendingDeactivation -> Active: the
/// requirements hold again before the countdown ends; the generation does
/// not change. PendingDeactivation -> Inactive: the countdown expired; stake
/// left behind earns no further rewards and must be withdrawn in full before
/// the member may stake again.
#[derive(Clone, Copy, Debug, PartialEq, Eq, Structural)]
pub enum EntityState {
    /// The entity is ineligible for rewards.
    Inactive,
    /// The entity is on a deactivation countdown lasting until
    /// `deactivation_start_ts + timelock`.
    PendingDeactivation { deactivation_start_ts: i64, timelock: i64 },
    /// The entity is eligible for rewards and accepts new stake.
    Active,
}

impl Default for EntityState {
    fn default() -> (s: Self)
        ensures
            s is Inactive,
    {
        Self::Inactive
    }
}

/// Entity is the record representing a single node that addresses can stake
/// with.
#[derive(Clone, Copy, Debug, PartialEq, Eq, Structural)]
pub struct Entity {
    /// Set when this entity is registered with the program.
    pub initialized: bool,
    /// The registrar this entity belongs to.
    pub registrar: Address,
    /// Leader of the entity.
    pub leader: Address,
    /// Cumulative stake balances from all member records.
    pub balances: Balances,
    /// The activation generation number, incremented exactly on every
    /// `Inactive -> Active` transition.
    pub generation: u64,
    /// See `EntityState`.
    pub state: EntityState,
}

impl Entity {
    /// Record well-formedness: a running deactivation countdown has
    /// non-negative start and length whose sum stays representable.
    pub open spec fn wf(self) -> bool {
        match self.state {
            EntityState::PendingDeactivation { deactivation_start_ts, timelock } => {
                &&& 0 <= deactivation_start_ts
                &&& 0 <= timelock
                &&& deactivation_start_ts + timelock <= i64::MAX
            },
            _ => true,
        }
    }

    /// Creates a fresh entity: inactive, generation zero, empty balances.
    pub fn new(registrar: Address, leader: Address) -> (e: Entity)
        ensures
            e == (Entity {
                initialized: true,
                registrar,
                leader,
                balances: Balances::zero_spec(),
                generation: 0,
                state: EntityState::Inactive,
            }),
            e.wf(),
    {
        Entity {
            initialized: true,
            registrar,
            leader,
            balances: Balances {
                spt_amount: 0,
                spt_mega_amount: 0,
                pending_withdrawals: 0,
                mega_pending_withdrawals: 0,
                stake_intent: 0,
                mega_stake_intent: 0,
            },
            generation: 0,
            state: EntityState::Inactive,
        }
    }

    /// Replaces the entity's leader.
    pub fn update_leader(&mut self, leader: Address)
        ensures
            *final(self) == (Entity { leader, ..*old(self) }),
    {
        self.leader = leader;
    }

    /// Normalized value of the staging (stake-intent) balances.
    pub open spec fn stake_intent_equivalent_spec(self) -> int {
        self.balances.stake_intent + self.balances.mega_stake_intent * MEGA_ASSET_VALUE_RATIO
    }

    /// Normalized value of the staked pool tokens at the given prices.
    pub open spec fn amount_equivalent_spec(self, ctx: StakeContext) -> int {
        ctx.srm_equivalent_spec(self.balances.spt_amount as int, false)
            + ctx.srm_equivalent_spec(self.balances.spt_mega_amount as int, true)
    }

    /// The normalized amount of stake contributing to the activation level:
    /// staked pool tokens at current prices plus staged stake-intent.
    pub open spec fn activation_amount_spec(self, ctx: StakeContext) -> int {
        self.amount_equivalent_spec(ctx) + self.stake_intent_equivalent_spec()
    }

    /// True when this entity qualifies as active: the normalized stake value
    /// reaches the reward activation threshold and at least one unit of the
    /// mega (voting) asset is staked.
    pub open spec fn meets_activation_spec(self, ctx: StakeContext, registrar: Registrar) -> bool {
        &&& self.activation_amount_spec(ctx) >= registrar.reward_activation_threshold
        &&& self.balances.spt_mega_amount >= 1
    }

    /// The state this entity's machine moves to when evaluated at time `now`
    /// with prices `ctx`.
    pub open spec fn fsm_next(self, ctx: StakeContext, registrar: Registrar, now: i64) -> Entity {
        match self.state {
            EntityState::Inactive => {
                if self.meets_activation_spec(ctx, registrar) {
                    Entity {
                        state: EntityState::Active,
                        generation: (self.generation + 1) as u64,
                        ..self
                    }
                } else {
                    self
                }
            },
            EntityState::PendingDeactivation { deactivation_start_ts, timelock } => {
                if self.meets_activation_spec(ctx, registrar) {
                    Entity { state: EntityState::Active, ..self }
                } else if now > deactivation_start_ts + timelock {
                    Entity { state: EntityState::Inactive, ..self }
                } else {
                    self
                }
            },
            EntityState::Active => {
                if !self.meets_activation_spec(ctx, registrar) {
                    Entity {
                        state: EntityState::PendingDeactivation {
                            deactivation_start_ts: now,
                            timelock: registrar.deactivation_timelock_spec() as i64,
                        },
                        ..self
                    }
                } else {
                    self
                }
            },
        }
    }

    /// The activation amount, or `None` exactly when it exceeds the 64-bit
    /// range (in which case it certainly exceeds any threshold).
    pub(crate) fn activation_amount_checked(&self, ctx: &StakeContext) -> (r: Option<u64>)
        ensures
            r == (if self.activation_amount_spec(*ctx) <= u64::MAX {
                Some(self.activation_amount_spec(*ctx) as u64)
            } else {
                None::<u64>
            }),
    {
        proof {
            lemma_srm_equivalent_nonneg(*ctx, self.balances.spt_amount as int, false);
            lemma_srm_equivalent_nonneg(*ctx, self.balances.spt_mega_amount as int, true);
            lemma_mul_nonneg(
                self.balances.mega_stake_intent as int,
                MEGA_ASSET_VALUE_RATIO as int,
            );
        }
        let part_spt = match ctx.srm_equivalent_checked(self.balances.spt_amount, false) {
            Some(v) => v,
            None => {
                return None;
            },
        };
        let part_mega_spt = match ctx.srm_equivalent_checked(self.balances.spt_mega_amount, true) {
            Some(v) => v,
            None => {
                return None;
            },
        };
        let part_mega_intent = match self.balances.mega_stake_intent.checked_mul(
            MEGA_ASSET_VALUE_RATIO,
        ) {
            Some(v) => v,
            None => {
                return None;
            },
        };
        let staked = match part_spt.checked_add(part_mega_spt) {
            Some(v) => v,
            None => {
                return None;
            },
        };
        let with_intent = match staked.checked_add(self.balances.stake_intent) {
            Some(v) => v,
            None => {
                return None;
            },
        };
        with_intent.checked_add(part_mega_intent)
    }

    /// Returns the normalized amount of stake contributing to the activation
    /// level.
    pub fn activation_amount(&self, ctx: &StakeContext) -> (r: u64)
        requires
            self.activation_amount_spec(*ctx) <= u64::MAX,
        ensures
            r == self.activation_amount_spec(*ctx),
    {
        match self.activation_amount_checked(ctx) {
            Some(v) => v,
            None => {
                proof {
                    assert(false);
                }
                0
            },
        }
    }

    /// Returns true if this entity is capable of being activated, i.e., can
    /// enter the staking pool.
    pub fn meets_activation_requirements(&self, ctx: &StakeContext, registrar: &Registrar) -> (r:
        bool)
        ensures
            r == self.meets_activation_spec(*ctx, *registrar),
    {
        let amount_ok = match self.activation_amount_checked(ctx) {
            Some(v) => v >= registrar.reward_activation_threshold,
            // An amount beyond the 64-bit range exceeds any threshold.
            None => true,
        };
        amount_ok && self.balances.spt_mega_amount >= 1
    }

    /// Transitions the entity state machine. This is called immediately
    /// before processing any operation relying on the current state, and
    /// again after any mutation of the entity's normalized amount, since the
    /// mutation itself may move the entity across the activation boundary.
    pub fn transition_activation_if_needed(
        &mut self,
        ctx: &StakeContext,
        registrar: &Registrar,
        now: i64,
    )
        requires
            old(self).wf(),
            registrar.wf(),
            registrar.clock_ok(now),
            old(self).state is Inactive ==> old(self).generation < u64::MAX,
        ensures
            *final(self) == old(self).fsm_next(*ctx, *registrar, now),
            final(self).wf(),
    {
        match self.state {
            EntityState::Inactive => {
                if self.meets_activation_requirements(ctx, registrar) {
                    self.state = EntityState::Active;
                    self.generation = self.generation + 1;
                }
            },
            EntityState::PendingDeactivation { deactivation_start_ts, timelock } => {
                if self.meets_activation_requirements(ctx, registrar) {
                    self.state = EntityState::Active;
                } else if now > deactivation_start_ts + timelock {
                    self.state = EntityState::Inactive;
                }
            },
            EntityState::Active => {
                if !self.meets_activation_requirements(ctx, registrar) {
                    self.state = EntityState::PendingDeactivation {
                        deactivation_start_ts: now,
                        timelock: registrar.deactivation_timelock(),
                    };
                }
            },
        }
    }

    pub open spec fn after_add_stake_intent(self, amount: u64, mega: bool) -> Entity {
        if mega {
            Entity {
                balances: Balances {
                    mega_stake_intent: (self.balances.mega_stake_intent + amount) as u64,
                    ..self.balances
                },
                ..self
            }
        } else {
            Entity {
                balances: Balances {
                    stake_intent: (self.balances.stake_intent + amount) as u64,
                    ..self.balances
                },
                ..self
            }
        }
    }

    pub open spec fn add_stake_intent_fits(self, amount: u64, mega: bool) -> bool {
        if mega {
            self.balances.mega_stake_intent + amount <= u64::MAX
        } else {
            self.balances.stake_intent + amount <= u64::MAX
        }
    }

    /// Adds to the stake-intent balance.
    pub fn add_stake_intent(&mut self, amount: u64, mega: bool)
        requires
            old(self).add_stake_intent_fits(amount, mega),
        ensures
            *final(self) == old(self).after_add_stake_intent(amount, mega),
    {
        if mega {
            self.balances.mega_stake_intent = self.balances.mega_stake_intent + amount;
        } else {
            self.balances.stake_intent = self.balances.stake_intent + amount;
        }
    }

    pub open spec fn after_sub_stake_intent(self, amount: u64, mega: bool) -> Entity {
        if mega {
            Entity {
                balances: Balances {
                    mega_stake_intent: (self.balances.mega_stake_intent - amount) as u64,
                    ..self.balances
                },
                ..self
            }
        } else {
            Entity {
                balances: Balances {
                    stake_intent: (self.balances.stake_intent - amount) as u64,
                    ..self.balances
                },
                ..self
            }
        }
    }

    pub open spec fn sub_stake_intent_fits(self, amount: u64, mega: bool) -> bool {
        if mega {
            amount <= self.balances.mega_stake_intent
        } else {
            amount <= self.balances.stake_intent
        }
    }

    /// Subtracts from the stake-intent balance.
    pub fn sub_stake_intent(&mut self, amount: u64, mega: bool)
        requires
            old(self).sub_stake_intent_fits(amount, mega),
        ensures
            *final(self) == old(self).after_sub_stake_intent(amount, mega),
    {
        if mega {
            self.balances.mega_stake_intent = self.balances.mega_stake_intent - amount;
        } else {
            self.balances.stake_intent = self.balances.stake_intent - amount;
        }
    }

    pub open spec fn after_spt_add(self, amount: u64, is_mega: bool) -> Entity {
        if is_mega {
            Entity {
                balances: Balances {
                    spt_mega_amount: (self.balances.spt_mega_amount + amount) as u64,
                    ..self.balances
                },
                ..self
            }
        } else {
            Entity {
                balances: Balances {
                    spt_amount: (self.balances.spt_amount + amount) as u64,
                    ..self.balances
                },
                ..self
            }
        }
    }

    pub open spec fn spt_add_fits(self, amount: u64, is_mega: bool) -> bool {
        if is_mega {
            self.balances.spt_mega_amount + amount <= u64::MAX
        } else {
            self.balances.spt_amount + amount <= u64::MAX
        }
    }

    /// Adds to the staked pool-token balance.
    pub fn spt_add(&mut self, amount: u64, is_mega: bool)
        requires
            old(self).spt_add_fits(amount, is_mega),
        ensures
            *final(self) == old(self).after_spt_add(amount, is_mega),
    {
        if is_mega {
            self.balances.spt_mega_amount = self.balances.spt_mega_amount + amount;
        } else {
            self.balances.spt_amount = self.balances.spt_amount + amount;
        }
    }

    pub open spec fn after_spt_sub(self, amount: u64, is_mega: bool) -> Entity {
        if is_mega {
            Entity {
                balances: Balances {
                    spt_mega_amount: (self.balances.spt_mega_amount - amount) as u64,
                    ..self.balances
                },
                ..self
            }
        } else {
            Entity {
                balances: Balances {
                    spt_amount: (self.balances.spt_amount - amount) as u64,
                    ..self.balances
                },
                ..self
            }
        }
    }

    pub open spec fn spt_sub_fits(self, amount: u64, is_mega: bool) -> bool {
        if is_mega {
            amount <= self.balances.spt_mega_amount
        } else {
            amount <= self.balances.spt_amount
        }
    }

    /// Subtracts from the staked pool-token balance.
    pub fn spt_sub(&mut self, amount: u64, is_mega: bool)
        requires
            old(self).spt_sub_fits(amount, is_mega),
        ensures
            *final(self) == old(self).after_spt_sub(amount, is_mega),
    {
        if is_mega {
            self.balances.spt_mega_amount = self.balances.spt_mega_amount - amount;
        } else {
            self.balances.spt_amount = self.balances.spt_amount - amount;
        }
    }

    pub open spec fn after_pending_add(self, amount: u64, is_mega: bool) -> Entity {
        if is_mega {
            Entity {
                balances: Balances {
                    mega_pending_withdrawals: (self.balances.mega_pending_withdrawals
                        + amount) as u64,
                    ..self.balances
                },
                ..self
            }
        } else {
            Entity {
                balances: Balances {
                    pending_withdrawals: (self.balances.pending_withdrawals + amount) as u64,
                    ..self.balances
                },
                ..self
            }
        }
    }

    pub open spec fn pending_add_fits(self, amount: u64, is_mega: bool) -> bool {
        if is_mega {
            self.balances.mega_pending_withdrawals + amount <= u64::MAX
        } else {
            self.balances.pending_withdrawals + amount <= u64::MAX
        }
    }

    /// Adds to the in-flight-withdrawal balance.
    pub fn pending_add(&mut self, amount: u64, is_mega: bool)
        requires
            old(self).pending_add_fits(amount, is_mega),
        ensures
            *final(self) == old(self).after_pending_add(amount, is_mega),
    {
        if is_mega {
            self.balances.mega_pending_withdrawals = self.balances.mega_pending_withdrawals
                + amount;
        } else {
            self.balances.pending_withdrawals = self.balances.pending_withdrawals + amount;
        }
    }

    pub open spec fn after_pending_sub(self, amount: u64, is_mega: bool) -> Entity {
        if is_mega {
            Entity {
                balances: Balances {
                    mega_pending_withdrawals: (self.balances.mega_pending_withdrawals
                        - amount) as u64,
                    ..self.balances
                },
                ..self
            }
        } else {
            Entity {
                balances: Balances {
                    pending_withdrawals: (self.balances.pending_withdrawals - amount) as u64,
                    ..self.balances
                },
                ..self
            }
        }
    }

    pub open spec fn pending_sub_fits(self, amount: u64, is_mega: bool) -> bool {
        if is_mega {
            amount <= self.balances.mega_pending_withdrawals
        } else {
            amount <= self.balances.pending_withdrawals
        }
    }

    /// Subtracts from the in-flight-withdrawal balance.
    pub fn pending_sub(&mut self, amount: u64, is_mega: bool)
        requires
            old(self).pending_sub_fits(amount, is_mega),
        ensures
            *final(self) == old(self).after_pending_sub(amount, is_mega),
    {
        if is_mega {
            self.balances.mega_pending_withdrawals = self.balances.mega_pending_withdrawals
                - amount;
        } else {
            self.balances.pending_withdrawals = self.balances.pending_withdrawals - amount;
        }
    }

    /// Effect of a started withdrawal on the aggregate: the redeemed pool
    /// tokens leave the staked balance and the redeemed asset amounts (in
    /// basket order, mega first for the mega pool) enter withdrawal escrow.
    pub open spec fn after_transfer_pending_withdrawal(
        self,
        spt_amount: u64,
        asset_amounts: Seq<u64>,
        mega: bool,
    ) -> Entity {
        if mega {
            self.after_spt_sub(spt_amount, true).after_pending_add(
                asset_amounts[0],
                true,
            ).after_pending_add(asset_amounts[1], false)
        } else {
            self.after_spt_sub(spt_amount, false).after_pending_add(asset_amounts[0], false)
        }
    }

    pub open spec fn transfer_pending_withdrawal_fits(
        self,
        spt_amount: u64,
        asset_amounts: Seq<u64>,
        mega: bool,
    ) -> bool {
        if mega {
            &&& spt_amount <= self.balances.spt_mega_amount
            &&& self.balances.mega_pending_withdrawals + asset_amounts[0] <= u64::MAX
            &&& self.balances.pending_withdrawals + asset_amounts[1] <= u64::MAX
        } else {
            &&& spt_amount <= self.balances.spt_amount
            &&& self.balances.pending_withdrawals + asset_amounts[0] <= u64::MAX
        }
    }

    /// Moves `spt_amount` staked pool tokens into in-flight withdrawal,
    /// recording the redeemed per-asset amounts.
    pub fn transfer_pending_withdrawal(
        &mut self,
        spt_amount: u64,
        asset_amounts: &[u64],
        mega: bool,
    )
        requires
            asset_amounts@.len() == (if mega {
                2int
            } else {
                1int
            }),
            old(self).transfer_pending_withdrawal_fits(spt_amount, asset_amounts@, mega),
        ensures
            *final(self) == old(self).after_transfer_pending_withdrawal(
                spt_amount,
                asset_amounts@,
                mega,
            ),
    {
        if mega {
            self.spt_sub(spt_amount, true);
            let a0 = asset_amounts[0];
            let a1 = asset_amounts[1];
            self.pending_add(a0, true);
            self.pending_add(a1, false);
        } else {
            self.spt_sub(spt_amount, false);
            let a0 = asset_amounts[0];
            self.pending_add(a0, false);
        }
    }

    /// The activation amount is a sum of products of non-negative numbers.
    pub(crate) proof fn lemma_activation_amount_nonneg(self, ctx: StakeContext)
        ensures
            0 <= self.activation_amount_spec(ctx),
    {
        lemma_srm_equivalent_nonneg(ctx, self.balances.spt_amount as int, false);
        lemma_srm_equivalent_nonneg(ctx, self.balances.spt_mega_amount as int, true);
        lemma_mul_nonneg(self.balances.mega_stake_intent as int, MEGA_ASSET_VALUE_RATIO as int);
    }

    /// The aggregate after a member's two books have been added in.
    pub open spec fn after_add_member(self, member: Member) -> Entity {
        let mn = member.books.main.balances;
        let dl = member.books.delegate.balances;
        Entity {
            balances: Balances {
                spt_amount: (self.balances.spt_amount + mn.spt_amount + dl.spt_amount) as u64,
                spt_mega_amount: (self.balances.spt_mega_amount + mn.spt_mega_amount
                    + dl.spt_mega_amount) as u64,
                stake_intent: (self.balances.stake_intent + mn.stake_intent
                    + dl.stake_intent) as u64,
                mega_stake_intent: (self.balances.mega_stake_intent + mn.mega_stake_intent
                    + dl.mega_stake_intent) as u64,
                ..self.balances
            },
            ..self
        }
    }

    pub open spec fn add_member_fits(self, member: Member) -> bool {
        let mn = member.books.main.balances;
        let dl = member.books.delegate.balances;
        &&& self.balances.spt_amount + mn.spt_amount + dl.spt_amount <= u64::MAX
        &&& self.balances.spt_mega_amount + mn.spt_mega_amount + dl.spt_mega_amount <= u64::MAX
        &&& self.balances.stake_intent + mn.stake_intent + dl.stake_intent <= u64::MAX
        &&& self.balances.mega_stake_intent + mn.mega_stake_intent + dl.mega_stake_intent
            <= u64::MAX
    }

    /// Adds a member's books into the aggregate (entity switch, incoming
    /// side).
    pub fn add(&mut self, member: &Member)
        requires
            old(self).add_member_fits(*member),
        ensures
            *final(self) == old(self).after_add_member(*member),
    {
        let mn = member.books.main.balances;
        let dl = member.books.delegate.balances;
        self.balances.spt_amount = self.balances.spt_amount + mn.spt_amount + dl.spt_amount;
        self.balances.spt_mega_amount = self.balances.spt_mega_amount + mn.spt_mega_amount
            + dl.spt_mega_amount;
        self.balances.stake_intent = self.balances.stake_intent + mn.stake_intent
            + dl.stake_intent;
        self.balances.mega_stake_intent = self.balances.mega_stake_intent + mn.mega_stake_intent
            + dl.mega_stake_intent;
    }

    /// The aggregate after a member's two books have been taken out.
    pub open spec fn after_remove_member(self, member: Member) -> Entity {
        let mn = member.books.main.balances;
        let dl = member.books.delegate.balances;
        Entity {
            balances: Balances {
                spt_amount: (self.balances.spt_amount - mn.spt_amount - dl.spt_amount) as u64,
                spt_mega_amount: (self.balances.spt_mega_amount - mn.spt_mega_amount
                    - dl.spt_mega_amount) as u64,
                stake_intent: (self.balances.stake_intent - mn.stake_intent
                    - dl.stake_intent) as u64,
                mega_stake_intent: (self.balances.mega_stake_intent - mn.mega_stake_intent
                    - dl.mega_stake_intent) as u64,
                ..self.balances
            },
            ..self
        }
    }

    pub open spec fn remove_member_fits(self, member: Member) -> bool {
        let mn = member.books.main.balances;
        let dl = member.books.delegate.balances;
        &&& mn.spt_amount + dl.spt_amount <= self.balances.spt_amount
        &&& mn.spt_mega_amount + dl.spt_mega_amount <= self.balances.spt_mega_amount
        &&& mn.stake_intent + dl.stake_intent <= self.balances.stake_intent
        &&& mn.mega_stake_intent + dl.mega_stake_intent <= self.balances.mega_stake_intent
    }

    /// Takes a member's books out of the aggregate (entity switch, outgoing
    /// side).
    pub fn remove(&mut self, member: &Member)
        requires
            old(self).remove_member_fits(*member),
        ensures
            *final(self) == old(self).after_remove_member(*member),
    {
        let mn = member.books.main.balances;
        let dl = member.books.delegate.balances;
        self.balances.spt_amount = self.balances.spt_amount - mn.spt_amount - dl.spt_amount;
        self.balances.spt_mega_amount = self.balances.spt_mega_amount - mn.spt_mega_amount
            - dl.spt_mega_amount;
        self.balances.stake_intent = self.balances.stake_intent - mn.stake_intent
            - dl.stake_intent;
        self.balances.mega_stake_intent = self.balances.mega_stake_intent - mn.mega_stake_intent
            - dl.mega_stake_intent;
    }
}

} // verus!
