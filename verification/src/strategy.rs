//! A leveraged farm of a CW20 asset paired with UST, where UST is borrowed and every transfer
//! of UST is charged the chain's tax.

use vstd::prelude::*;

use crate::assets::{coin_amount, find_coin_amount, string_eq, Coin};
use crate::callbacks::debt_share;
use crate::health::{compute_health, health_computable, health_model, Market};
use crate::math::{
    lemma_ratio_at_most, mul_decimal, multiply_ratio, ratio, Decimal, DECIMAL_FRACTIONAL,
};
use crate::state::{
    ContractError, DEFAULT_BOND_UNITS_PER_SHARE_BONDED, DEFAULT_DEBT_UNITS_PER_ASSET_BORROWED,
};

verus! {

/// The chain's tax on transfers of a native coin: a rate, and a cap per transfer.
#[derive(Debug, Clone, Copy)]
pub struct TaxInfo {
    pub rate: Decimal,
    pub cap: u128,
}

/// The part of a transfer of `amount` that the tax takes: the amount less what remains once
/// divided by one plus the rate, rounded down, at most the cap; none for `uluna`.
pub open spec fn tax_on_deduct(amount: u128, is_uluna: bool, tax: TaxInfo) -> int {
    if is_uluna {
        0
    } else {
        let kept = ratio(
            amount as int,
            DECIMAL_FRACTIONAL as int,
            tax.rate.atomics + DECIMAL_FRACTIONAL,
        );
        let t = amount - kept;
        if t < tax.cap {
            t
        } else {
            tax.cap as int
        }
    }
}

/// Whether a denom is the given one.
fn denom_is(denom: &String, name: &str) -> (r: bool)
    ensures
        r == (denom@ == name@),
{
    string_eq(denom, &String::from_str(name))
}

/// What arrives of a transfer of `amount` once the tax is taken.
pub fn deduct_tax(amount: u128, denom: &String, tax: TaxInfo) -> (r: u128)
    requires
        tax.rate.atomics + DECIMAL_FRACTIONAL <= u128::MAX,
    ensures
        r == amount - tax_on_deduct(amount, denom@ == "uluna"@, tax),
        r <= amount,
{
    if denom_is(denom, "uluna") {
        return amount;
    }
    let denominator = tax.rate.atomics + DECIMAL_FRACTIONAL;
    proof {
        lemma_ratio_at_most(amount as int, DECIMAL_FRACTIONAL as int, denominator as int);
    }
    let kept = multiply_ratio(amount, DECIMAL_FRACTIONAL, denominator);
    let t = amount - kept;
    let tax_amount = if t < tax.cap {
        t
    } else {
        tax.cap
    };
    amount - tax_amount
}

/// The tax added on top of an amount to be delivered: the amount times the rate, at most the
/// cap; none for `uluna`, as deducting takes none from it.
pub open spec fn tax_on_add(amount: u128, is_uluna: bool, tax: TaxInfo) -> int {
    if is_uluna {
        0
    } else {
        let t = ratio(amount as int, tax.rate.atomics as int, DECIMAL_FRACTIONAL as int);
        if t < tax.cap {
            t
        } else {
            tax.cap as int
        }
    }
}

/// What must be sent for `amount` to arrive once the tax is taken.
pub fn add_tax(amount: u128, denom: &String, tax: TaxInfo) -> (r: u128)
    requires
        denom@ != "uluna"@ ==> ratio(amount as int, tax.rate.atomics as int, DECIMAL_FRACTIONAL as int)
            <= u128::MAX,
        amount + tax_on_add(amount, denom@ == "uluna"@, tax) <= u128::MAX,
    ensures
        r == amount + tax_on_add(amount, denom@ == "uluna"@, tax),
{
    if denom_is(denom, "uluna") {
        return amount;
    }
    let t = mul_decimal(amount, tax.rate);
    let tax_amount = if t < tax.cap {
        t
    } else {
        tax.cap
    };
    amount + tax_amount
}

/// The pair's commission on swaps: three in a thousand.
pub const COMMISSION_RATE_ATOMICS: u128 = 3_000_000_000_000_000u128;

/// What a constant-product pool returns for `offer_amount` before commission: the ask depth less
/// the product of the depths over the new offer depth, rounded down.
pub open spec fn swap_return_before_commission(offer_amount: u128, offer_pool: u128, ask_pool: u128) -> int {
    ask_pool - ratio(
        (offer_pool * ask_pool) as int,
        1,
        offer_pool + offer_amount,
    )
}

/// What arrives of the return less the commission, once the UST tax is taken.
pub open spec fn swap_return_model(
    offer_amount: u128,
    offer_pool: u128,
    ask_pool: u128,
    tax: TaxInfo,
) -> int {
    let ret = swap_return_before_commission(offer_amount, offer_pool, ask_pool);
    let commission = ratio(ret, COMMISSION_RATE_ATOMICS as int, DECIMAL_FRACTIONAL as int);
    let net = (ret - commission) as u128;
    net - tax_on_deduct(net, false, tax)
}

/// The UST that arrives from swapping `offer_amount` of the asset at a constant-product pool of
/// the given depths, after the pool's commission and the tax.
pub fn compute_swap_return_amount(
    offer_amount: u128,
    offer_pool: u128,
    ask_pool: u128,
    tax: TaxInfo,
) -> (r: u128)
    requires
        offer_pool * ask_pool <= u128::MAX,
        offer_pool + offer_amount <= u128::MAX,
        offer_pool + offer_amount > 0,
        tax.rate.atomics + DECIMAL_FRACTIONAL <= u128::MAX,
    ensures
        r == swap_return_model(offer_amount, offer_pool, ask_pool, tax),
{
    let cp = offer_pool * ask_pool;
    let new_offer_pool = offer_pool + offer_amount;
    proof {
        lemma_ratio_at_most(ask_pool as int, offer_pool as int, new_offer_pool as int);
        assert(ratio(cp as int, 1, new_offer_pool as int) == ratio(
            ask_pool as int,
            offer_pool as int,
            new_offer_pool as int,
        )) by (nonlinear_arith)
            requires
                cp == offer_pool * ask_pool,
        ;
    }
    let return_amount = ask_pool - multiply_ratio(cp, 1, new_offer_pool);
    proof {
        lemma_ratio_at_most(
            return_amount as int,
            COMMISSION_RATE_ATOMICS as int,
            DECIMAL_FRACTIONAL as int,
        );
    }
    let commission = mul_decimal(return_amount, Decimal::raw(COMMISSION_RATE_ATOMICS));
    let uusd = String::from_str("uusd");
    proof {
        reveal_strlit("uusd");
        reveal_strlit("uluna");
        assert(uusd@.len() != "uluna"@.len());
    }
    deduct_tax(return_amount - commission, &uusd, tax)
}

// ---------------------------------------------------------------------------------------------
// Positions
// ---------------------------------------------------------------------------------------------

/// A user's position in the UST farm.
#[derive(Debug, Clone, Copy, PartialEq, Eq, Structural)]
pub struct Position {
    /// The user's share of the bonded liquidity tokens
    pub bond_units: u128,
    /// The user's share of the debt
    pub debt_units: u128,
    /// UST not bonded: pending refund
    pub unbonded_ust_amount: u128,
    /// Asset tokens not bonded: pending refund or liquidation
    pub unbonded_asset_amount: u128,
}

/// The units of all positions.
#[derive(Debug, Clone, Copy, PartialEq, Eq, Structural)]
pub struct State {
    pub total_bond_units: u128,
    pub total_debt_units: u128,
}

impl Position {
    /// A position holding nothing.
    pub fn default() -> (p: Position)
        ensures
            p == (Position {
                bond_units: 0,
                debt_units: 0,
                unbonded_ust_amount: 0,
                unbonded_asset_amount: 0,
            }),
    {
        Position { bond_units: 0, debt_units: 0, unbonded_ust_amount: 0, unbonded_asset_amount: 0 }
    }

    /// Whether the position still has bonded liquidity.
    pub fn is_active(&self) -> (r: bool)
        ensures
            r == (self.bond_units != 0),
    {
        self.bond_units != 0
    }

    /// Whether the position holds nothing at all.
    pub fn is_empty(&self) -> (r: bool)
        ensures
            r == (self.bond_units == 0 && self.debt_units == 0 && self.unbonded_ust_amount == 0
                && self.unbonded_asset_amount == 0),
    {
        self.bond_units == 0 && self.debt_units == 0 && self.unbonded_ust_amount == 0
            && self.unbonded_asset_amount == 0
    }
}

// ---------------------------------------------------------------------------------------------
// Loan-to-value ratio
// ---------------------------------------------------------------------------------------------

/// What the UST farm knows of the pool and of its holdings when it values a position: a
/// liquidity token is worth twice the pool's UST over the token supply.
pub open spec fn ltv_market(
    state: State,
    pool_ust: u128,
    pool_token_supply: u128,
    total_bond: u128,
    total_debt: u128,
) -> Market {
    Market {
        secondary_depth: pool_ust,
        share_supply: pool_token_supply,
        total_bonded: total_bond,
        total_debt,
        total_bond_units: state.total_bond_units,
        total_debt_units: state.total_debt_units,
    }
}

/// The units valued: those of the user's position, or all of the farm's.
pub open spec fn ltv_units(state: State, position: Option<Position>) -> (u128, u128) {
    match position {
        Some(p) => (p.bond_units, p.debt_units),
        None => (state.total_bond_units, state.total_debt_units),
    }
}

/// The value of a position's bonded liquidity tokens, the value of its debt, and their ratio
/// (`None` when nothing of value is bonded); of the whole farm when `position` is `None`.
/// `total_bond` tokens are bonded and `total_debt` UST is owed by the farm.
pub fn compute_ltv(
    state: State,
    position: Option<Position>,
    pool_ust: u128,
    pool_token_supply: u128,
    total_bond: u128,
    total_debt: u128,
) -> (r: (u128, u128, Option<Decimal>))
    requires
        health_computable(
            ltv_market(state, pool_ust, pool_token_supply, total_bond, total_debt),
            ltv_units(state, position).0,
            ltv_units(state, position).1,
        ),
    ensures
        ({
            let h = health_model(
                ltv_market(state, pool_ust, pool_token_supply, total_bond, total_debt),
                ltv_units(state, position).0,
                ltv_units(state, position).1,
            );
            r == (h.bond_value, h.debt_value, h.ltv)
        }),
{
    let m = Market {
        secondary_depth: pool_ust,
        share_supply: pool_token_supply,
        total_bonded: total_bond,
        total_debt,
        total_bond_units: state.total_bond_units,
        total_debt_units: state.total_debt_units,
    };
    let (bond_units, debt_units) = match position {
        Some(p) => (p.bond_units, p.debt_units),
        None => (state.total_bond_units, state.total_debt_units),
    };
    let h = compute_health(m, bond_units, debt_units);
    (h.bond_value, h.debt_value, h.ltv)
}

// ---------------------------------------------------------------------------------------------
// Increase position
// ---------------------------------------------------------------------------------------------

/// A step of opening or adding to a position, in the order it is sent.
#[derive(Debug, Clone, Copy, PartialEq, Eq, Structural)]
pub enum IncreaseStep {
    /// Borrow UST from the lender for the user
    Borrow { amount: u128 },
    /// Draw the asset from the user's wallet
    DrawAsset { amount: u128 },
    /// Provide the asset and UST to the pool for the user
    ProvideLiquidity { asset_amount: u128, ust_amount: u128 },
}

/// What opening or adding to a position decides.
#[derive(Debug)]
pub struct IncreasePlan {
    /// UST to borrow, when what was sent does not match the asset drawn at the pool's price
    pub ust_to_borrow: u128,
    /// UST to provide alongside the asset
    pub ust_to_provide: u128,
    /// The steps to send
    pub steps: Vec<IncreaseStep>,
}

/// The steps of adding `asset_to_draw` of the asset: a loan only when something is borrowed,
/// then drawing the asset, then providing it with the UST.
pub open spec fn increase_steps(ust_to_borrow: u128, asset_to_draw: u128, ust_to_provide: u128) -> Seq<
    IncreaseStep,
> {
    let tail = seq![
        IncreaseStep::DrawAsset { amount: asset_to_draw },
        IncreaseStep::ProvideLiquidity { asset_amount: asset_to_draw, ust_amount: ust_to_provide },
    ];
    if ust_to_borrow > 0 {
        seq![IncreaseStep::Borrow { amount: ust_to_borrow }] + tail
    } else {
        tail
    }
}

/// The UST that matches `asset_to_draw` at the pool's price, rounded down.
pub open spec fn ust_needed(asset_to_draw: u128, pool_ust: u128, pool_asset: u128) -> int {
    ratio(pool_ust as int, asset_to_draw as int, pool_asset as int)
}

/// Plans adding `asset_to_draw` of the asset to a position with `ust_received` UST sent: the UST
/// missing at the pool's price is borrowed, and what arrives of the loan after tax is provided
/// along with what was sent.
pub fn increase_position(
    asset_to_draw: u128,
    ust_received: u128,
    pool_ust: u128,
    pool_asset: u128,
    tax: TaxInfo,
) -> (r: IncreasePlan)
    requires
        pool_asset > 0,
        ust_needed(asset_to_draw, pool_ust, pool_asset) <= u128::MAX,
        tax.rate.atomics + DECIMAL_FRACTIONAL <= u128::MAX,
        ust_needed(asset_to_draw, pool_ust, pool_asset) > ust_received ==> ust_received + (
        ust_needed(asset_to_draw, pool_ust, pool_asset) - ust_received) <= u128::MAX,
    ensures
        r.ust_to_borrow == if ust_needed(asset_to_draw, pool_ust, pool_asset) > ust_received {
            ust_needed(asset_to_draw, pool_ust, pool_asset) - ust_received
        } else {
            0
        },
        r.ust_to_borrow == 0 ==> r.ust_to_provide == ust_received,
        r.ust_to_borrow != 0 ==> r.ust_to_provide == ust_received + r.ust_to_borrow
            - tax_on_deduct(r.ust_to_borrow, false, tax),
        r.steps@ == increase_steps(r.ust_to_borrow, asset_to_draw, r.ust_to_provide),
{
    let needed = multiply_ratio(pool_ust, asset_to_draw, pool_asset);
    let ust_to_borrow = if needed > ust_received {
        needed - ust_received
    } else {
        0
    };
    let ust_to_provide = if ust_to_borrow == 0 {
        ust_received
    } else {
        let uusd = String::from_str("uusd");
        proof {
            reveal_strlit("uusd");
            reveal_strlit("uluna");
            assert(uusd@.len() != "uluna"@.len());
        }
        ust_received + deduct_tax(ust_to_borrow, &uusd, tax)
    };
    let mut steps: Vec<IncreaseStep> = Vec::new();
    if ust_to_borrow > 0 {
        steps.push(IncreaseStep::Borrow { amount: ust_to_borrow });
    }
    steps.push(IncreaseStep::DrawAsset { amount: asset_to_draw });
    steps.push(
        IncreaseStep::ProvideLiquidity { asset_amount: asset_to_draw, ust_amount: ust_to_provide },
    );
    proof {
        assert(steps@ =~= increase_steps(ust_to_borrow, asset_to_draw, ust_to_provide));
    }
    IncreasePlan { ust_to_borrow, ust_to_provide, steps }
}

// ---------------------------------------------------------------------------------------------
// Reinvesting rewards
// ---------------------------------------------------------------------------------------------

/// How harvested rewards are split.
#[derive(Debug, Clone, Copy, PartialEq, Eq, Structural)]
pub struct RewardSplit {
    /// The performance fee, sent to the treasury
    pub fee_amount: u128,
    /// The reward left after the fee
    pub reward_amount_after_fee: u128,
    /// Half of that, swapped for UST
    pub reward_to_swap: u128,
    /// The other half, provided to the pool
    pub asset_to_provide: u128,
    /// The UST expected from the swap, provided to the pool
    pub ust_to_provide: u128,
}

/// Taking half as eighteen-place decimal rounds down the same way as halving.
proof fn lemma_half_of(x: int)
    requires
        x >= 0,
    ensures
        ratio(x, 500_000_000_000_000_000, DECIMAL_FRACTIONAL as int) == ratio(x, 1, 2),
{
    let q = x / 2;
    let r = x % 2;
    vstd::arithmetic::div_mod::lemma_fundamental_div_mod(x, 2);
    assert(x * 500_000_000_000_000_000 == DECIMAL_FRACTIONAL * q + r * 500_000_000_000_000_000)
        by (nonlinear_arith)
        requires
            x == 2 * q + r,
    ;
    vstd::arithmetic::div_mod::lemma_div_multiples_vanish_fancy(
        q,
        r * 500_000_000_000_000_000,
        DECIMAL_FRACTIONAL as int,
    );
}

/// The reward left after the performance fee.
pub open spec fn reward_after_fee(reward_amount: u128, performance_fee_rate: Decimal) -> int {
    reward_amount - ratio(
        reward_amount as int,
        performance_fee_rate.atomics as int,
        DECIMAL_FRACTIONAL as int,
    )
}

/// Splits `reward_amount` of harvested reward: the fee rate's share is charged, half of the
/// rest (rounded down) is swapped for UST at the pool, and the other half is provided with that
/// UST. Only a reward token that is the farmed asset is supported.
pub fn swap_reward(
    reward_amount: u128,
    performance_fee_rate: Decimal,
    reward_is_asset: bool,
    pool_asset: u128,
    pool_ust: u128,
    tax: TaxInfo,
) -> (r: Result<RewardSplit, ContractError>)
    requires
        ratio(reward_amount as int, performance_fee_rate.atomics as int, DECIMAL_FRACTIONAL as int)
            <= u128::MAX,
        tax.rate.atomics + DECIMAL_FRACTIONAL <= u128::MAX,
        reward_is_asset && reward_after_fee(reward_amount, performance_fee_rate) >= 0 ==> ({
            let to_swap = ratio(reward_after_fee(reward_amount, performance_fee_rate), 1, 2);
            &&& pool_asset * pool_ust <= u128::MAX
            &&& pool_asset + to_swap <= u128::MAX
            &&& pool_asset + to_swap > 0
        }),
    ensures
        ({
            let fee = ratio(
                reward_amount as int,
                performance_fee_rate.atomics as int,
                DECIMAL_FRACTIONAL as int,
            );
            let after = reward_amount - fee;
            let to_swap = ratio(after, 1, 2);
            &&& fee > reward_amount ==> r == Err::<RewardSplit, ContractError>(
                ContractError::Underflow { minuend: reward_amount, subtrahend: fee as u128 },
            )
            &&& fee <= reward_amount && !reward_is_asset ==> (r matches Err(
                ContractError::Unimplemented,
            ))
            &&& fee <= reward_amount && reward_is_asset ==> r == Ok::<RewardSplit, ContractError>(
                RewardSplit {
                    fee_amount: fee as u128,
                    reward_amount_after_fee: after as u128,
                    reward_to_swap: to_swap as u128,
                    asset_to_provide: (after - to_swap) as u128,
                    ust_to_provide: swap_return_model(to_swap as u128, pool_asset, pool_ust, tax) as u128,
                },
            )
        }),
{
    let fee_amount = mul_decimal(reward_amount, performance_fee_rate);
    if fee_amount > reward_amount {
        return Err(ContractError::Underflow { minuend: reward_amount, subtrahend: fee_amount });
    }
    let after_fee = reward_amount - fee_amount;
    if !reward_is_asset {
        return Err(ContractError::Unimplemented);
    }
    proof {
        lemma_ratio_at_most(after_fee as int, 1, 2);
    }
    let half = Decimal::from_ratio(1, 2);
    proof {
        lemma_ratio_at_most(after_fee as int, half.atomics as int, DECIMAL_FRACTIONAL as int);
        lemma_half_of(after_fee as int);
    }
    let reward_to_swap = mul_decimal(after_fee, half);
    let asset_to_provide = after_fee - reward_to_swap;
    let ust_to_provide = compute_swap_return_amount(reward_to_swap, pool_asset, pool_ust, tax);
    Ok(
        RewardSplit {
            fee_amount,
            reward_amount_after_fee: after_fee,
            reward_to_swap,
            asset_to_provide,
            ust_to_provide,
        },
    )
}

// ---------------------------------------------------------------------------------------------
// Removing liquidity
// ---------------------------------------------------------------------------------------------

/// What removing liquidity decides: UST to repay on the user's debt.
#[derive(Debug, Clone, Copy, PartialEq, Eq, Structural)]
pub struct Removal {
    pub ust_released: u128,
    pub asset_released: u128,
    pub ust_to_repay: u128,
    pub ust_to_refund: u128,
}

/// What the pool releases when `burned` of `supply` liquidity tokens are burned: that share of
/// each depth, the share rounded down to eighteen places and each amount rounded down.
pub open spec fn released(depth: u128, burned: u128, supply: u128) -> int {
    ratio(depth as int, ratio(burned as int, DECIMAL_FRACTIONAL as int, supply as int), DECIMAL_FRACTIONAL as int)
}

/// The split of removed liquidity: of the UST that arrives after tax, what the user owes (plus
/// the tax on repaying it) is repaid and the rest is kept for the user.
pub open spec fn removal_model(
    position: Position,
    state: State,
    burned: u128,
    pool_ust: u128,
    pool_asset: u128,
    supply: u128,
    total_owed: u128,
    tax: TaxInfo,
) -> Removal {
    let ust_released = released(pool_ust, burned, supply);
    let asset_released = released(pool_asset, burned, supply);
    let receive = ust_released - tax_on_deduct(ust_released as u128, false, tax);
    let owed = if state.total_debt_units == 0 {
        0
    } else {
        debt_share(total_owed, position.debt_units, state.total_debt_units)
    };
    let owed_with_tax = owed + tax_on_add(owed as u128, false, tax);
    let repay = if receive < owed_with_tax {
        receive
    } else {
        owed_with_tax
    };
    Removal {
        ust_released: ust_released as u128,
        asset_released: asset_released as u128,
        ust_to_repay: repay as u128,
        ust_to_refund: (receive - repay) as u128,
    }
}

/// Whether the arithmetic of removing liquidity stays within 128 bits.
pub open spec fn removal_fits(
    position: Position,
    state: State,
    burned: u128,
    pool_ust: u128,
    pool_asset: u128,
    supply: u128,
    total_owed: u128,
    tax: TaxInfo,
) -> bool {
    let share = ratio(burned as int, DECIMAL_FRACTIONAL as int, supply as int);
    let owed = if state.total_debt_units == 0 {
        0
    } else {
        debt_share(total_owed, position.debt_units, state.total_debt_units)
    };
    let m = removal_model(position, state, burned, pool_ust, pool_asset, supply, total_owed, tax);
    &&& supply > 0
    &&& share <= u128::MAX
    &&& released(pool_ust, burned, supply) <= u128::MAX
    &&& released(pool_asset, burned, supply) <= u128::MAX
    &&& owed <= u128::MAX
    &&& ratio(owed, tax.rate.atomics as int, DECIMAL_FRACTIONAL as int) <= u128::MAX
    &&& owed + tax_on_add(owed as u128, false, tax) <= u128::MAX
    &&& tax.rate.atomics + DECIMAL_FRACTIONAL <= u128::MAX
    &&& position.unbonded_asset_amount + m.asset_released <= u128::MAX
    &&& position.unbonded_ust_amount + m.ust_to_refund <= u128::MAX
}

/// After `burned` liquidity tokens are unbonded: the asset released joins the user's unbonded
/// asset, the UST that arrives repays the user's debt (with its tax) as far as it goes, and the
/// rest joins the user's unbonded UST.
pub fn remove_liquidity(
    position: &mut Position,
    state: &State,
    burned: u128,
    pool_ust: u128,
    pool_asset: u128,
    supply: u128,
    total_owed: u128,
    tax: TaxInfo,
) -> (r: Removal)
    requires
        removal_fits(*old(position), *state, burned, pool_ust, pool_asset, supply, total_owed, tax),
    ensures
        r == removal_model(*old(position), *state, burned, pool_ust, pool_asset, supply, total_owed, tax),
        *final(position) == (Position {
            unbonded_asset_amount: (old(position).unbonded_asset_amount + r.asset_released) as u128,
            unbonded_ust_amount: (old(position).unbonded_ust_amount + r.ust_to_refund) as u128,
            ..*old(position)
        }),
{
    let uusd = String::from_str("uusd");
    proof {
        reveal_strlit("uusd");
        reveal_strlit("uluna");
        assert(uusd@.len() != "uluna"@.len());
    }
    let share = Decimal::from_ratio(burned, supply);
    let ust_released = mul_decimal(pool_ust, share);
    let asset_released = mul_decimal(pool_asset, share);
    let receive = deduct_tax(ust_released, &uusd, tax);
    let owed = if state.total_debt_units == 0 {
        0
    } else {
        multiply_ratio(total_owed, position.debt_units, state.total_debt_units)
    };
    let owed_with_tax = add_tax(owed, &uusd, tax);
    let repay = if receive < owed_with_tax {
        receive
    } else {
        owed_with_tax
    };
    let refund = if repay < receive {
        receive - repay
    } else {
        0
    };
    position.unbonded_asset_amount = position.unbonded_asset_amount + asset_released;
    position.unbonded_ust_amount = position.unbonded_ust_amount + refund;
    Removal { ust_released, asset_released, ust_to_repay: repay, ust_to_refund: refund }
}

// ---------------------------------------------------------------------------------------------
// Repaying
// ---------------------------------------------------------------------------------------------

/// What repaying UST decides.
#[derive(Debug, Clone, Copy, PartialEq, Eq, Structural)]
pub struct Repayment {
    /// What reaches the lender after tax
    pub ust_repaid: u128,
    pub debt_units_reduced: u128,
    /// Whether the position, now empty, is deleted
    pub position_deleted: bool,
}

/// The debt units a repayment of `repaid` takes off: all of them when at least what the user
/// owes is repaid, the repaid share of the user's debt otherwise.
pub open spec fn units_repaid(position: Position, repaid: int, owed: int) -> int {
    if repaid >= owed {
        position.debt_units as int
    } else {
        ratio(position.debt_units as int, repaid, owed)
    }
}

/// Repays `repay_amount` UST (what arrives after tax) on a user's debt, where `total_debt` is
/// what the vault owes; the position is to be deleted when it is left empty.
pub fn repay(
    state: &mut State,
    position: &mut Position,
    repay_amount: u128,
    total_debt: u128,
    tax: TaxInfo,
) -> (r: Result<Repayment, ContractError>)
    requires
        tax.rate.atomics + DECIMAL_FRACTIONAL <= u128::MAX,
        repay_amount != 0 && old(position).debt_units != 0 ==> old(state).total_debt_units > 0
            && debt_share(total_debt, old(position).debt_units, old(state).total_debt_units)
            <= u128::MAX,
    ensures
        repay_amount == 0 ==> (r matches Err(ContractError::RepayZero)),
        repay_amount != 0 && old(position).debt_units == 0 ==> (r matches Err(
            ContractError::NoDebt,
        )),
        repay_amount != 0 && old(position).debt_units != 0 ==> ({
            let repaid = repay_amount - tax_on_deduct(repay_amount, false, tax);
            let owed = debt_share(total_debt, old(position).debt_units, old(state).total_debt_units);
            let units = units_repaid(*old(position), repaid, owed);
            &&& units <= old(position).debt_units
            &&& units > old(state).total_debt_units ==> r == Err::<Repayment, ContractError>(
                ContractError::Underflow {
                    minuend: old(state).total_debt_units,
                    subtrahend: units as u128,
                },
            )
            &&& units <= old(state).total_debt_units ==> {
                &&& r is Ok
                &&& r->Ok_0.ust_repaid == repaid
                &&& r->Ok_0.debt_units_reduced == units
                &&& final(state).total_debt_units == old(state).total_debt_units - units
                &&& final(position).debt_units == old(position).debt_units - units
                &&& r->Ok_0.position_deleted == final(position).is_empty_spec()
            }
        }),
        r is Err ==> *final(state) == *old(state) && *final(position) == *old(position),
{
    if repay_amount == 0 {
        return Err(ContractError::RepayZero);
    }
    if position.debt_units == 0 {
        return Err(ContractError::NoDebt);
    }
    let uusd = String::from_str("uusd");
    proof {
        reveal_strlit("uusd");
        reveal_strlit("uluna");
        assert(uusd@.len() != "uluna"@.len());
    }
    let owed = multiply_ratio(total_debt, position.debt_units, state.total_debt_units);
    let repaid = deduct_tax(repay_amount, &uusd, tax);
    let units = if repaid >= owed {
        position.debt_units
    } else {
        proof {
            lemma_ratio_at_most(position.debt_units as int, repaid as int, owed as int);
        }
        multiply_ratio(position.debt_units, repaid, owed)
    };
    if units > state.total_debt_units {
        return Err(ContractError::Underflow { minuend: state.total_debt_units, subtrahend: units });
    }
    state.total_debt_units = state.total_debt_units - units;
    position.debt_units = position.debt_units - units;
    let position_deleted = position.is_empty();
    Ok(Repayment { ust_repaid: repaid, debt_units_reduced: units, position_deleted })
}

impl Position {
    /// Whether the position holds nothing at all.
    pub open spec fn is_empty_spec(self) -> bool {
        self.bond_units == 0 && self.debt_units == 0 && self.unbonded_ust_amount == 0
            && self.unbonded_asset_amount == 0
    }
}

// ---------------------------------------------------------------------------------------------
// Liquidation
// ---------------------------------------------------------------------------------------------

/// The asset a liquidator receives for repaying `repay_amount` UST (what arrives after tax):
/// all of the position's unbonded asset when the user's debt is covered, the repaid share of it
/// otherwise.
pub open spec fn collateral_released(position: Position, repaid: int, debt: int) -> int {
    if repaid > debt {
        position.unbonded_asset_amount as int
    } else {
        ratio(position.unbonded_asset_amount as int, repaid, debt)
    }
}

/// Pays a liquidator who repays `repay_amount` UST of a closed position's debt their share of
/// the position's unbonded asset; returns the amount released.
pub fn claim_collateral(
    state: &State,
    position: &mut Position,
    repay_amount: u128,
    total_debt: u128,
    tax: TaxInfo,
) -> (r: u128)
    requires
        tax.rate.atomics + DECIMAL_FRACTIONAL <= u128::MAX,
        state.total_debt_units > 0,
        debt_share(total_debt, old(position).debt_units, state.total_debt_units) <= u128::MAX,
        repay_amount - tax_on_deduct(repay_amount, false, tax) <= debt_share(
            total_debt,
            old(position).debt_units,
            state.total_debt_units,
        ) ==> debt_share(total_debt, old(position).debt_units, state.total_debt_units) > 0,
    ensures
        r == collateral_released(
            *old(position),
            repay_amount - tax_on_deduct(repay_amount, false, tax),
            debt_share(total_debt, old(position).debt_units, state.total_debt_units),
        ),
        r <= old(position).unbonded_asset_amount,
        *final(position) == (Position {
            unbonded_asset_amount: (old(position).unbonded_asset_amount - r) as u128,
            ..*old(position)
        }),
{
    let uusd = String::from_str("uusd");
    proof {
        reveal_strlit("uusd");
        reveal_strlit("uluna");
        assert(uusd@.len() != "uluna"@.len());
    }
    let repaid = deduct_tax(repay_amount, &uusd, tax);
    let debt = multiply_ratio(total_debt, position.debt_units, state.total_debt_units);
    let release = if repaid > debt {
        position.unbonded_asset_amount
    } else {
        proof {
            lemma_ratio_at_most(position.unbonded_asset_amount as int, repaid as int, debt as int);
        }
        multiply_ratio(position.unbonded_asset_amount, repaid, debt)
    };
    position.unbonded_asset_amount = position.unbonded_asset_amount - release;
    release
}

/// What liquidating a position of the UST farm sends: an unbonding of all its bond units
/// when it is still active, then the claim of its collateral.
#[derive(Debug, Clone, Copy, PartialEq, Eq, Structural)]
pub struct LiquidationPlan {
    pub unbond_units: Option<u128>,
}

/// Lets anyone liquidate a position whose loan-to-value ratio is not at most the limit (a
/// closed position has none and may always be liquidated).
pub fn liquidate(position: &Position, ltv: Option<Decimal>, max_ltv: Decimal) -> (r: Result<
    LiquidationPlan,
    ContractError,
>)
    ensures
        (ltv matches Some(l) && l.atomics <= max_ltv.atomics) ==> (r matches Err(
            ContractError::CannotLiquidateHealthy,
        )),
        !(ltv matches Some(l) && l.atomics <= max_ltv.atomics) ==> r == Ok::<
            LiquidationPlan,
            ContractError,
        >(
            LiquidationPlan {
                unbond_units: if position.bond_units != 0 {
                    Some(position.bond_units)
                } else {
                    None
                },
            },
        ),
{
    if let Some(l) = ltv {
        if l.atomics <= max_ltv.atomics {
            return Err(ContractError::CannotLiquidateHealthy);
        }
    }
    let unbond_units = if position.is_active() {
        Some(position.bond_units)
    } else {
        None
    };
    Ok(LiquidationPlan { unbond_units })
}

/// What refunding a position of the UST farm pays out, after checking that the position's
/// debt, if any, is within the loan-to-value limit: all its unbonded asset, and what arrives of
/// its unbonded UST after tax. The position keeps no unbonded amounts.
pub fn refund(
    position: &mut Position,
    debt_value: u128,
    ltv: Option<Decimal>,
    max_ltv: Decimal,
    tax: TaxInfo,
) -> (r: Result<(u128, u128), ContractError>)
    requires
        tax.rate.atomics + DECIMAL_FRACTIONAL <= u128::MAX,
        debt_value != 0 ==> ltv is Some,
    ensures
        debt_value != 0 && ltv->0.atomics > max_ltv.atomics ==> (r matches Err(
            ContractError::AboveLiquidationThreshold,
        )),
        !(debt_value != 0 && ltv->0.atomics > max_ltv.atomics) ==> {
            &&& r is Ok
            &&& r->Ok_0.0 == old(position).unbonded_asset_amount
            &&& r->Ok_0.1 == old(position).unbonded_ust_amount - tax_on_deduct(
                old(position).unbonded_ust_amount,
                false,
                tax,
            )
            &&& *final(position) == (Position {
                unbonded_asset_amount: 0,
                unbonded_ust_amount: 0,
                ..*old(position)
            })
        },
        r is Err ==> *final(position) == *old(position),
{
    if debt_value != 0 {
        let l = match ltv {
            Some(l) => l,
            None => Decimal::zero(),
        };
        if l.atomics > max_ltv.atomics {
            return Err(ContractError::AboveLiquidationThreshold);
        }
    }
    let uusd = String::from_str("uusd");
    proof {
        reveal_strlit("uusd");
        reveal_strlit("uluna");
        assert(uusd@.len() != "uluna"@.len());
    }
    let ust = deduct_tax(position.unbonded_ust_amount, &uusd, tax);
    let asset = position.unbonded_asset_amount;
    position.unbonded_ust_amount = 0;
    position.unbonded_asset_amount = 0;
    Ok((asset, ust))
}

// ---------------------------------------------------------------------------------------------
// Requests and bookkeeping
// ---------------------------------------------------------------------------------------------

/// The UST sent along with a message: the amount of the first `uusd` coin, or zero.
pub fn parse_ust_received(funds: &Vec<Coin>) -> (r: u128)
    ensures
        r == coin_amount(funds@, "uusd"@),
{
    let uusd = String::from_str("uusd");
    find_coin_amount(funds, &uusd)
}

/// The UST a borrower owes among the debts a lender reports: that of the first `uusd` entry,
/// or zero.
pub fn ust_debt(debts: &Vec<Coin>) -> (r: u128)
    ensures
        r == coin_amount(debts@, "uusd"@),
{
    let uusd = String::from_str("uusd");
    find_coin_amount(debts, &uusd)
}

/// The bond units a reduction gives up: those asked for, or all of the position's.
pub fn reduce_units(position: &Position, bond_units: Option<u128>) -> (r: u128)
    ensures
        r == match bond_units {
            Some(u) => u,
            None => position.bond_units,
        },
{
    match bond_units {
        Some(u) => u,
        None => position.bond_units,
    }
}

/// Whose debt a payment goes to, and how much UST it brings: the named user's, or the
/// sender's when none is named.
pub fn pay_debt(user: Option<String>, sender: &String, funds: &Vec<Coin>) -> (r: (String, u128))
    ensures
        r.0@ == match user {
            Some(u) => u@,
            None => sender@,
        },
        r.1 == coin_amount(funds@, "uusd"@),
{
    let target = match user {
        Some(u) => u,
        None => sender.clone(),
    };
    (target, parse_ust_received(funds))
}

/// For now only the owner may harvest.
pub fn check_harvester(owner: &String, sender: &String) -> (r: Result<(), ContractError>)
    ensures
        r is Ok <==> sender@ == owner@,
        r is Err ==> r matches Err(ContractError::NotOwner),
{
    if string_eq(sender, owner) {
        Ok(())
    } else {
        Err(ContractError::NotOwner)
    }
}

/// Only the owner may update the configuration.
pub fn check_owner(owner: &String, sender: &String) -> (r: Result<(), ContractError>)
    ensures
        r is Ok <==> sender@ == owner@,
        r is Err ==> r matches Err(ContractError::NotOwner),
{
    if string_eq(sender, owner) {
        Ok(())
    } else {
        Err(ContractError::NotOwner)
    }
}

/// The bond units credited for bonding `amount` liquidity tokens for a user when
/// `total_bond` are bonded: a fixed number per token for the first bond, a proportional
/// share otherwise; none when bonding for the strategy itself.
pub open spec fn strategy_bond_units(state: State, for_user: bool, amount: u128, total_bond: u128) -> int {
    if !for_user {
        0
    } else if total_bond == 0 {
        amount * DEFAULT_BOND_UNITS_PER_SHARE_BONDED
    } else {
        ratio(state.total_bond_units as int, amount as int, total_bond as int)
    }
}

/// Bonds `amount` liquidity tokens, where `total_bond` are bonded already, and credits the
/// user (if any) bond units; returns the units credited.
pub fn bond(
    state: &mut State,
    position: &mut Position,
    for_user: bool,
    amount: u128,
    total_bond: u128,
) -> (r: u128)
    requires
        strategy_bond_units(*old(state), for_user, amount, total_bond) <= u128::MAX,
        old(state).total_bond_units + strategy_bond_units(*old(state), for_user, amount, total_bond)
            <= u128::MAX,
        old(position).bond_units + strategy_bond_units(*old(state), for_user, amount, total_bond)
            <= u128::MAX,
    ensures
        r == strategy_bond_units(*old(state), for_user, amount, total_bond),
        *final(state) == (State {
            total_bond_units: (old(state).total_bond_units + r) as u128,
            ..*old(state)
        }),
        *final(position) == (Position {
            bond_units: (old(position).bond_units + r) as u128,
            ..*old(position)
        }),
{
    let units = if !for_user {
        0
    } else if total_bond == 0 {
        amount * DEFAULT_BOND_UNITS_PER_SHARE_BONDED
    } else {
        multiply_ratio(state.total_bond_units, amount, total_bond)
    };
    if units != 0 {
        state.total_bond_units = state.total_bond_units + units;
        position.bond_units = position.bond_units + units;
    }
    units
}

/// Unbonds the liquidity tokens that `bond_units` of the user's units stand for, where
/// `total_bond` are bonded; returns the amount to unbond. Giving up more units than the
/// strategy or the user has is refused.
pub fn unbond(state: &mut State, position: &mut Position, bond_units: u128, total_bond: u128) -> (r:
    Result<u128, ContractError>)
    requires
        old(state).total_bond_units > 0,
        ratio(total_bond as int, bond_units as int, old(state).total_bond_units as int) <= u128::MAX,
    ensures
        bond_units > old(state).total_bond_units ==> r == Err::<u128, ContractError>(
            ContractError::Underflow {
                minuend: old(state).total_bond_units,
                subtrahend: bond_units,
            },
        ),
        bond_units <= old(state).total_bond_units && bond_units > old(position).bond_units ==> r
            == Err::<u128, ContractError>(
            ContractError::Underflow { minuend: old(position).bond_units, subtrahend: bond_units },
        ),
        bond_units <= old(state).total_bond_units && bond_units <= old(position).bond_units ==> {
            &&& r == Ok::<u128, ContractError>(
                ratio(total_bond as int, bond_units as int, old(state).total_bond_units as int)
                    as u128,
            )
            &&& *final(state) == (State {
                total_bond_units: (old(state).total_bond_units - bond_units) as u128,
                ..*old(state)
            })
            &&& *final(position) == (Position {
                bond_units: (old(position).bond_units - bond_units) as u128,
                ..*old(position)
            })
        },
        r is Err ==> *final(state) == *old(state) && *final(position) == *old(position),
{
    let amount = multiply_ratio(total_bond, bond_units, state.total_bond_units);
    if bond_units > state.total_bond_units {
        return Err(
            ContractError::Underflow { minuend: state.total_bond_units, subtrahend: bond_units },
        );
    }
    if bond_units > position.bond_units {
        return Err(ContractError::Underflow { minuend: position.bond_units, subtrahend: bond_units });
    }
    state.total_bond_units = state.total_bond_units - bond_units;
    position.bond_units = position.bond_units - bond_units;
    Ok(amount)
}

/// The debt units charged for borrowing `amount` UST when `total_debt` is owed: a fixed
/// number per UST for the first loan, a proportional share otherwise.
pub open spec fn strategy_debt_units(state: State, amount: u128, total_debt: u128) -> int {
    if total_debt == 0 {
        amount * DEFAULT_DEBT_UNITS_PER_ASSET_BORROWED
    } else {
        ratio(state.total_debt_units as int, amount as int, total_debt as int)
    }
}

/// Borrows `amount` UST for the user, where `total_debt` is what the strategy owes; returns
/// the debt units charged. A zero amount is refused.
pub fn borrow(state: &mut State, position: &mut Position, amount: u128, total_debt: u128) -> (r:
    Result<u128, ContractError>)
    requires
        amount != 0 ==> ({
            let units = strategy_debt_units(*old(state), amount, total_debt);
            &&& units <= u128::MAX
            &&& old(state).total_debt_units + units <= u128::MAX
            &&& old(position).debt_units + units <= u128::MAX
        }),
    ensures
        amount == 0 ==> r matches Err(ContractError::BorrowZero),
        r is Err ==> *final(state) == *old(state) && *final(position) == *old(position),
        amount != 0 ==> {
            let units = strategy_debt_units(*old(state), amount, total_debt);
            &&& r == Ok::<u128, ContractError>(units as u128)
            &&& *final(state) == (State {
                total_debt_units: (old(state).total_debt_units + units) as u128,
                ..*old(state)
            })
            &&& *final(position) == (Position {
                debt_units: (old(position).debt_units + units) as u128,
                ..*old(position)
            })
        },
{
    if amount == 0 {
        return Err(ContractError::BorrowZero);
    }
    let units = if total_debt == 0 {
        amount * DEFAULT_DEBT_UNITS_PER_ASSET_BORROWED
    } else {
        multiply_ratio(state.total_debt_units, amount, total_debt)
    };
    state.total_debt_units = state.total_debt_units + units;
    position.debt_units = position.debt_units + units;
    Ok(units)
}

/// The kind of staking contract the strategy bonds at.
#[derive(Debug, Clone, Copy, PartialEq, Eq, Structural)]
pub enum StakingKind {
    Anchor,
    Mirror,
}

/// The kind of staking contract named in the configuration: `anchor` or `mirror`; any other
/// name is refused.
pub fn staking_kind(staking_type: &String) -> (r: Result<StakingKind, ContractError>)
    ensures
        staking_type@ == "anchor"@ ==> r == Ok::<StakingKind, ContractError>(StakingKind::Anchor),
        staking_type@ == "mirror"@ ==> r == Ok::<StakingKind, ContractError>(StakingKind::Mirror),
        staking_type@ != "anchor"@ && staking_type@ != "mirror"@ ==> r matches Err(
            ContractError::InvalidStakingType,
        ),
{
    proof {
        reveal_strlit("anchor");
        reveal_strlit("mirror");
        assert("anchor"@[0] != "mirror"@[0]);
    }
    if denom_is(staking_type, "anchor") {
        Ok(StakingKind::Anchor)
    } else if denom_is(staking_type, "mirror") {
        Ok(StakingKind::Mirror)
    } else {
        Err(ContractError::InvalidStakingType)
    }
}

/// A staker's bonded amount and pending reward as a staking contract reports them.
#[derive(Debug, Clone, Copy, PartialEq, Eq, Structural)]
pub struct RewardInfo {
    pub bond_amount: u128,
    pub pending_reward: u128,
}

/// The bonded amount and pending reward of a staker from the reward infos a staking contract
/// returns for one asset: the first one, or nothing when there is none.
pub fn first_reward_info(infos: &Vec<RewardInfo>) -> (r: RewardInfo)
    ensures
        infos.len() > 0 ==> r == infos@[0],
        infos.len() == 0 ==> r == (RewardInfo { bond_amount: 0, pending_reward: 0 }),
{
    if infos.len() > 0 {
        infos[0]
    } else {
        RewardInfo { bond_amount: 0, pending_reward: 0 }
    }
}

} // verus!
