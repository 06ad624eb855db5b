//! Basket pricing adapter.
//!
//! A basket is the list of underlying asset quantities backing exactly one
//! staking pool token. The primary pool's basket has a single quantity (the
//! primary asset); the mega pool's basket has two quantities, the mega asset
//! first and then the primary asset. A `StakeContext` pairs the two baskets
//! as read from the live pools and converts a pool-token count into either
//! the per-asset purchase price or one normalized value.

use vstd::prelude::*;

use crate::error::RegistryError;

verus! {

/// Fixed value ratio between one unit of the mega asset and one unit of the
/// primary asset, used when collapsing balances into one normalized value.
pub const MEGA_ASSET_VALUE_RATIO: u64 = 1_000_000;

/// Exchange rate of the primary pool: the primary-asset amount backing one
/// staking pool token.
#[derive(Clone, Copy, Debug, PartialEq, Eq, Structural)]
pub struct Basket {
    pub quantity: u64,
}

/// Exchange rate of the mega pool: the mega-asset amount and then the
/// primary-asset amount backing one mega staking pool token.
#[derive(Clone, Copy, Debug, PartialEq, Eq, Structural)]
pub struct MegaBasket {
    pub mega_quantity: u64,
    pub quantity: u64,
}

/// The current exchange rates of both staking pools, read fresh from the
/// pools before every operation.
#[derive(Clone, Copy, Debug, PartialEq, Eq, Structural)]
pub struct StakeContext {
    pub basket: Basket,
    pub mega_basket: MegaBasket,
}

impl Default for StakeContext {
    /// An all-zero price context, recorded on members before they first
    /// stake.
    fn default() -> (s: Self)
        ensures
            s == StakeContext::zero_spec(),
    {
        StakeContext {
            basket: Basket { quantity: 0 },
            mega_basket: MegaBasket { mega_quantity: 0, quantity: 0 },
        }
    }
}

impl StakeContext {
    pub open spec fn zero_spec() -> StakeContext {
        StakeContext {
            basket: Basket { quantity: 0 },
            mega_basket: MegaBasket { mega_quantity: 0, quantity: 0 },
        }
    }

    pub fn new(basket: Basket, mega_basket: MegaBasket) -> (s: Self)
        ensures
            s == (StakeContext { basket, mega_basket }),
    {
        StakeContext { basket, mega_basket }
    }

    /// Parses the two quantity lists returned by the pools' basket queries.
    /// The primary basket must have exactly one quantity and the mega basket
    /// exactly two (mega asset first).
    pub fn from_quantities(quantities: &Vec<u64>, mega_quantities: &Vec<u64>) -> (r: Option<Self>)
        ensures
            r is Some <==> quantities@.len() == 1 && mega_quantities@.len() == 2,
            r matches Some(s) ==> s == (StakeContext {
                basket: Basket { quantity: quantities@[0] },
                mega_basket: MegaBasket {
                    mega_quantity: mega_quantities@[0],
                    quantity: mega_quantities@[1],
                },
            }),
    {
        if quantities.len() == 1 && mega_quantities.len() == 2 {
            Some(StakeContext {
                basket: Basket { quantity: quantities[0] },
                mega_basket: MegaBasket {
                    mega_quantity: mega_quantities[0],
                    quantity: mega_quantities[1],
                },
            })
        } else {
            None
        }
    }

    /// Normalized value (in primary-asset units) of `spt` pool tokens: the
    /// mega asset counts `MEGA_ASSET_VALUE_RATIO` times the primary asset.
    pub open spec fn srm_equivalent_spec(self, spt: int, is_mega: bool) -> int {
        if is_mega {
            self.mega_basket.mega_quantity * spt * MEGA_ASSET_VALUE_RATIO
                + self.mega_basket.quantity * spt
        } else {
            self.basket.quantity * spt
        }
    }

    /// True when every per-asset quantity of the purchase price for `spt`
    /// pool tokens fits in a 64-bit amount.
    pub open spec fn quantities_fit(self, spt: int, is_mega: bool) -> bool {
        if is_mega {
            self.mega_basket.mega_quantity * spt <= u64::MAX
                && self.mega_basket.quantity * spt <= u64::MAX
        } else {
            self.basket.quantity * spt <= u64::MAX
        }
    }

    /// The per-asset purchase price of `spt` pool tokens, in basket order.
    pub open spec fn quantities_spec(self, spt: int, is_mega: bool) -> Seq<u64>
        recommends
            self.quantities_fit(spt, is_mega),
    {
        if is_mega {
            seq![
                (self.mega_basket.mega_quantity * spt) as u64,
                (self.mega_basket.quantity * spt) as u64,
            ]
        } else {
            seq![(self.basket.quantity * spt) as u64]
        }
    }

    /// Returns the amount of the primary asset that the given `spt_count`
    /// staking pool tokens are worth, as one normalized value.
    pub fn srm_equivalent(&self, spt_count: u64, is_mega: bool) -> (r: u64)
        requires
            self.srm_equivalent_spec(spt_count as int, is_mega) <= u64::MAX,
        ensures
            r == self.srm_equivalent_spec(spt_count as int, is_mega),
    {
        if is_mega {
            proof {
                lemma_mega_parts_fit(
                    self.mega_basket.mega_quantity as int,
                    self.mega_basket.quantity as int,
                    spt_count as int,
                );
            }
            self.mega_basket.mega_quantity * spt_count * MEGA_ASSET_VALUE_RATIO
                + self.mega_basket.quantity * spt_count
        } else {
            self.basket.quantity * spt_count
        }
    }

    /// As `srm_equivalent`, but total: `None` exactly when the normalized
    /// value exceeds the 64-bit range.
    pub fn srm_equivalent_checked(&self, spt_count: u64, is_mega: bool) -> (r: Option<u64>)
        ensures
            r == (if self.srm_equivalent_spec(spt_count as int, is_mega) <= u64::MAX {
                Some(self.srm_equivalent_spec(spt_count as int, is_mega) as u64)
            } else {
                None::<u64>
            }),
    {
        if is_mega {
            let mega_part = match self.mega_basket.mega_quantity.checked_mul(spt_count) {
                Some(p) => p.checked_mul(MEGA_ASSET_VALUE_RATIO),
                None => {
                    proof {
                        lemma_mul_at_least(
                            (self.mega_basket.mega_quantity * spt_count) as int,
                            MEGA_ASSET_VALUE_RATIO as int,
                        );
                        lemma_mul_nonneg(self.mega_basket.quantity as int, spt_count as int);
                    }
                    None
                },
            };
            match mega_part {
                Some(m) => {
                    match self.mega_basket.quantity.checked_mul(spt_count) {
                        Some(p) => m.checked_add(p),
                        None => {
                            proof {
                                lemma_mul_nonneg(self.mega_basket.mega_quantity as int, spt_count as int);
                                lemma_mul_nonneg(
                                    (self.mega_basket.mega_quantity * spt_count) as int,
                                    MEGA_ASSET_VALUE_RATIO as int,
                                );
                            }
                            None
                        },
                    }
                },
                None => {
                    proof {
                        lemma_mul_nonneg(self.mega_basket.quantity as int, spt_count as int);
                    }
                    None
                },
            }
        } else {
            self.basket.quantity.checked_mul(spt_count)
        }
    }

    /// The per-asset purchase price of `spt_count` staking pool tokens:
    /// every basket quantity times the token count, in basket order. Fails
    /// with `CheckedFailure` when any multiplication overflows.
    pub fn basket_quantities(&self, spt_count: u64, mega: bool) -> (r: Result<
        Vec<u64>,
        RegistryError,
    >)
        ensures
            r is Ok <==> self.quantities_fit(spt_count as int, mega),
            r matches Ok(v) ==> v@ == self.quantities_spec(spt_count as int, mega),
            r is Err ==> r == Err::<Vec<u64>, RegistryError>(RegistryError::CheckedFailure),
    {
        if mega {
            let m = self.mega_basket.mega_quantity.checked_mul(spt_count);
            let p = self.mega_basket.quantity.checked_mul(spt_count);
            match (m, p) {
                (Some(mv), Some(pv)) => {
                    let v = vec![mv, pv];
                    proof {
                        assert(v@ =~= self.quantities_spec(spt_count as int, true));
                    }
                    Ok(v)
                },
                _ => Err(RegistryError::CheckedFailure),
            }
        } else {
            match self.basket.quantity.checked_mul(spt_count) {
                Some(pv) => {
                    let v = vec![pv];
                    proof {
                        assert(v@ =~= self.quantities_spec(spt_count as int, false));
                    }
                    Ok(v)
                },
                None => Err(RegistryError::CheckedFailure),
            }
        }
    }
}

/// A product of non-negative factors is at least the first factor when the
/// second is at least one.
pub(crate) proof fn lemma_mul_at_least(a: int, k: int)
    by (nonlinear_arith)
    requires
        0 <= a,
        1 <= k,
    ensures
        a <= a * k,
{
}

pub(crate) proof fn lemma_mul_nonneg(a: int, b: int)
    by (nonlinear_arith)
    requires
        0 <= a,
        0 <= b,
    ensures
        0 <= a * b,
{
}

/// The normalized value of a non-negative token count is non-negative.
pub(crate) proof fn lemma_srm_equivalent_nonneg(ctx: StakeContext, spt: int, is_mega: bool)
    requires
        0 <= spt,
    ensures
        0 <= ctx.srm_equivalent_spec(spt, is_mega),
{
    if is_mega {
        lemma_mul_nonneg(ctx.mega_basket.mega_quantity as int, spt);
        lemma_mul_nonneg(ctx.mega_basket.mega_quantity * spt, MEGA_ASSET_VALUE_RATIO as int);
        lemma_mul_nonneg(ctx.mega_basket.quantity as int, spt);
    } else {
        lemma_mul_nonneg(ctx.basket.quantity as int, spt);
    }
}

/// When the normalized mega value fits in 64 bits, so does each of its two
/// summands and the inner mega product.
proof fn lemma_mega_parts_fit(mq: int, q: int, spt: int)
    by (nonlinear_arith)
    requires
        0 <= mq,
        0 <= q,
        0 <= spt,
        mq * spt * MEGA_ASSET_VALUE_RATIO + q * spt <= u64::MAX,
    ensures
        mq * spt <= u64::MAX,
        mq * spt * MEGA_ASSET_VALUE_RATIO <= u64::MAX,
        q * spt <= u64::MAX,
{
}

} // verus!
