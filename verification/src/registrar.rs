//! Global registry configuration.
//!
//! One `Registrar` exists per deployment. It is created once, read by every
//! operation, and never mutated afterwards by the operations modeled here.

use vstd::prelude::*;

use crate::address::Address;

verus! {

/// The escrow token accounts where funds sit during a pending withdrawal.
#[derive(Clone, Copy, Debug, PartialEq, Eq, Structural)]
pub struct Escrow {
    pub vault: Address,
    pub mega_vault: Address,
}

/// Registrar defines the record representing an instance of the program.
#[derive(Clone, Copy, Debug, PartialEq, Eq, Structural)]
pub struct Registrar {
    /// Set by the program on initialization.
    pub initialized: bool,
    /// Privileged account.
    pub authority: Address,
    /// Nonce to derive the program-derived address owning the vaults.
    pub nonce: u8,
    /// The normalized stake value that must be deposited to be eligible for
    /// rewards, denominated in the primary asset.
    pub reward_activation_threshold: u64,
    /// Number of seconds that must pass for a withdrawal to complete.
    pub withdrawal_timelock: i64,
    /// Number of seconds *in addition* to the withdrawal timelock it takes
    /// for an entity to be deactivated, from the moment its normalized
    /// amount drops below the required threshold.
    pub deactivation_timelock_premium: i64,
    /// Vault holding stake-intent tokens.
    pub vault: Address,
    /// Vault holding stake-intent mega tokens.
    pub mega_vault: Address,
    /// Address of the primary staking pool.
    pub pool: Address,
    /// Address of the mega staking pool.
    pub mega_pool: Address,
    /// Withdrawal escrow, where funds sit during the pending-withdrawal
    /// period.
    pub escrow: Escrow,
}

impl Registrar {
    /// Configuration well-formedness: both timelocks are non-negative and
    /// their sum stays representable.
    pub open spec fn wf(self) -> bool {
        &&& 0 <= self.withdrawal_timelock
        &&& 0 <= self.deactivation_timelock_premium
        &&& self.withdrawal_timelock + self.deactivation_timelock_premium <= i64::MAX
    }

    pub open spec fn deactivation_timelock_spec(self) -> int {
        self.deactivation_timelock_premium + self.withdrawal_timelock
    }

    /// A clock reading `now` is usable with this configuration: it is a
    /// non-negative Unix timestamp and adding the deactivation timelock to
    /// it stays representable.
    pub open spec fn clock_ok(self, now: i64) -> bool {
        &&& 0 <= now
        &&& now + self.deactivation_timelock_spec() <= i64::MAX
    }

    /// Creates the one registrar record of a deployment.
    pub fn new(
        authority: Address,
        nonce: u8,
        reward_activation_threshold: u64,
        withdrawal_timelock: i64,
        deactivation_timelock_premium: i64,
        vault: Address,
        mega_vault: Address,
        pool: Address,
        mega_pool: Address,
        escrow: Escrow,
    ) -> (r: Registrar)
        requires
            0 <= withdrawal_timelock,
            0 <= deactivation_timelock_premium,
            withdrawal_timelock + deactivation_timelock_premium <= i64::MAX,
        ensures
            r == (Registrar {
                initialized: true,
                authority,
                nonce,
                reward_activation_threshold,
                withdrawal_timelock,
                deactivation_timelock_premium,
                vault,
                mega_vault,
                pool,
                mega_pool,
                escrow,
            }),
            r.wf(),
    {
        Registrar {
            initialized: true,
            authority,
            nonce,
            reward_activation_threshold,
            withdrawal_timelock,
            deactivation_timelock_premium,
            vault,
            mega_vault,
            pool,
            mega_pool,
            escrow,
        }
    }

    /// Number of seconds it takes for an entity to be fully deactivated, and
    /// for a started withdrawal to mature.
    pub fn deactivation_timelock(&self) -> (r: i64)
        requires
            self.wf(),
        ensures
            r == self.deactivation_timelock_spec(),
    {
        self.deactivation_timelock_premium + self.withdrawal_timelock
    }
}

} // verus!
