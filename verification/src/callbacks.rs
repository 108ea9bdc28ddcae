//! The steps the vault performs when it receives one of its own callback messages.
//!
//! Each step takes the values the vault has loaded or queried, changes the state and the
//! position in place, and returns what it sends out. A refused step leaves nothing to keep:
//! the whole transaction is reverted.

use vstd::prelude::*;

use crate::assets::{
    amount_of, asset_list_entries, entries_add, entries_add_many, entries_deduct,
    entries_deduct_many, entries_find, entries_scaled, list_add, list_add_many, list_clone,
    list_deduct, list_deduct_many, list_find, list_purge, list_scale, purged, scale_fits, Asset, AssetEntry, AssetInfo, AssetKey, AssetList,
};
use crate::math::{lemma_ratio_at_most, mul_decimal, multiply_ratio, ratio, Decimal, DECIMAL_FRACTIONAL};
use crate::state::{
    Config, ContractError, ErrorKind, Position, PositionView, State, StateView,
    DEFAULT_BOND_UNITS_PER_SHARE_BONDED, DEFAULT_DEBT_UNITS_PER_ASSET_BORROWED,
};

verus! {

/// What identifies the pair's liquidity token.
pub open spec fn lp_key(config: &Config) -> AssetKey {
    (true, config.primary_pair.liquidity_token@)
}

/// Whether a step returned what its model describes and left the state and position as the
/// model says; a refused step is refused with the model's kind of error.
pub open spec fn step_matches<T>(
    r: Result<T, ContractError>,
    state: StateView,
    position: PositionView,
    model: Result<(StateView, PositionView, T), ErrorKind>,
) -> bool {
    match model {
        Ok(m) => r == Ok::<T, ContractError>(m.2) && state == m.0 && position == m.1,
        Err(k) => r is Err && r->Err_0.kind() == k,
    }
}

/// The assets a step works on: the position's unlocked assets for a user, the pending rewards
/// otherwise.
pub open spec fn held(state: StateView, position: PositionView, for_user: bool) -> Seq<AssetEntry> {
    if for_user {
        position.unlocked_assets
    } else {
        state.pending_rewards
    }
}

// ---------------------------------------------------------------------------------------------
// Bond
// ---------------------------------------------------------------------------------------------

/// What a bond step sends out: a message bonding `shares_bonded` liquidity tokens.
pub struct BondOutcome {
    pub bond_units_added: u128,
    pub shares_bonded: u128,
}

/// The bond units credited for bonding `amount` liquidity tokens when `total_bonded` tokens are
/// bonded against `total_bond_units` units: none for a harvest, a fixed number per token for
/// the first bond, and a proportional share otherwise.
pub open spec fn bond_units_for(
    for_user: bool,
    total_bond_units: u128,
    amount: u128,
    total_bonded: u128,
) -> int {
    if !for_user {
        0
    } else if total_bonded == 0 {
        amount * DEFAULT_BOND_UNITS_PER_SHARE_BONDED
    } else {
        ratio(total_bond_units as int, amount as int, total_bonded as int)
    }
}

/// What bonding does: all the held liquidity tokens are bonded, the user (if any) is credited
/// bond units, and the rewards the generator pays out on bonding join the pending rewards.
pub open spec fn bond_model(
    config: &Config,
    state: StateView,
    position: PositionView,
    for_user: bool,
    total_bonded: u128,
    rewards: Seq<AssetEntry>,
) -> Result<(StateView, PositionView, BondOutcome), ErrorKind> {
    let assets = held(state, position, for_user);
    match entries_find(assets, lp_key(config)) {
        None => Err(ErrorKind::NoLiquidityToken),
        Some(amount) => {
            let units = bond_units_for(for_user, state.total_bond_units, amount, total_bonded);
            if units > u128::MAX {
                Err(ErrorKind::Overflow)
            } else {
                let rest = entries_deduct(assets, (true, lp_key(config).1, amount))->Ok_0;
                let pending_before = if for_user {
                    state.pending_rewards
                } else {
                    rest
                };
                match entries_add_many(pending_before, rewards) {
                    None => Err(ErrorKind::Asset),
                    Some(pending) => {
                        if state.total_bond_units + units > u128::MAX {
                            Err(ErrorKind::Overflow)
                        } else if for_user && position.bond_units + units > u128::MAX {
                            Err(ErrorKind::Overflow)
                        } else {
                            Ok(
                                (
                                    StateView {
                                        total_bond_units: (state.total_bond_units + units) as u128,
                                        total_debt_units: state.total_debt_units,
                                        pending_rewards: pending,
                                    },
                                    PositionView {
                                        bond_units: if for_user {
                                            (position.bond_units + units) as u128
                                        } else {
                                            position.bond_units
                                        },
                                        debt_units: position.debt_units,
                                        unlocked_assets: if for_user {
                                            rest
                                        } else {
                                            position.unlocked_assets
                                        },
                                    },
                                    BondOutcome { bond_units_added: units as u128, shares_bonded: amount },
                                ),
                            )
                        }
                    },
                }
            }
        },
    }
}

/// Whether the proportional share of a bond fits in 128 bits.
pub open spec fn bond_fits(
    config: &Config,
    state: StateView,
    position: PositionView,
    for_user: bool,
    total_bonded: u128,
) -> bool {
    for_user && total_bonded > 0 ==> ratio(
        state.total_bond_units as int,
        amount_of(held(state, position, for_user), lp_key(config)) as int,
        total_bonded as int,
    ) <= u128::MAX
}

/// Bonds all the liquidity tokens held by the user (`user_addr` given) or by the vault (a
/// harvest), where `total_bonded_amount` is what the vault has bonded so far and `rewards` what
/// the generator pays out on bonding.
pub fn bond(
    config: &Config,
    state: &mut State,
    position: &mut Position,
    user_addr: &Option<String>,
    total_bonded_amount: u128,
    rewards: &AssetList,
) -> (r: Result<BondOutcome, ContractError>)
    requires
        bond_fits(config, old(state)@, old(position)@, user_addr is Some, total_bonded_amount),
    ensures
        step_matches(
            r,
            final(state)@,
            final(position)@,
            bond_model(
                config,
                old(state)@,
                old(position)@,
                user_addr is Some,
                total_bonded_amount,
                asset_list_entries(*rewards),
            ),
        ),
        r is Err ==> final(state)@ == old(state)@,
        r is Err ==> final(position)@ == old(position)@,
{
    let mut state_copy = state.duplicate();
    let mut position_copy = position.duplicate();
    let r = bond_in_place(config, &mut state_copy, &mut position_copy, user_addr, total_bonded_amount, rewards);
    if r.is_ok() {
        *state = state_copy;
        *position = position_copy;
    }
    r
}

/// The steps of `bond`, done in place.
fn bond_in_place(
    config: &Config,
    state: &mut State,
    position: &mut Position,
    user_addr: &Option<String>,
    total_bonded_amount: u128,
    rewards: &AssetList,
) -> (r: Result<BondOutcome, ContractError>)
    requires
        bond_fits(config, old(state)@, old(position)@, user_addr is Some, total_bonded_amount),
    ensures
        step_matches(
            r,
            final(state)@,
            final(position)@,
            bond_model(
                config,
                old(state)@,
                old(position)@,
                user_addr is Some,
                total_bonded_amount,
                asset_list_entries(*rewards),
            ),
        ),
{
    let for_user = user_addr.is_some();
    let lp_info = AssetInfo::Cw20(config.primary_pair.liquidity_token.clone());
    let found = if for_user {
        list_find(&position.unlocked_assets, &lp_info)
    } else {
        list_find(&state.pending_rewards, &lp_info)
    };
    let amount = match found {
        Some(a) => a,
        None => return Err(ContractError::NoLiquidityToken),
    };
    let units: u128 = if !for_user {
        0
    } else if total_bonded_amount == 0 {
        match amount.checked_mul(DEFAULT_BOND_UNITS_PER_SHARE_BONDED) {
            Some(u) => u,
            None => return Err(ContractError::Overflow),
        }
    } else {
        multiply_ratio(state.total_bond_units, amount, total_bonded_amount)
    };
    let lp_asset = Asset { info: lp_info, amount };
    let deducted = if for_user {
        list_deduct(&mut position.unlocked_assets, &lp_asset)
    } else {
        list_deduct(&mut state.pending_rewards, &lp_asset)
    };
    if let Err(e) = deducted {
        return Err(ContractError::Asset(e));
    }
    if let Err(e) = list_add_many(&mut state.pending_rewards, rewards) {
        return Err(ContractError::Asset(e));
    }
    state.total_bond_units = match state.total_bond_units.checked_add(units) {
        Some(t) => t,
        None => return Err(ContractError::Overflow),
    };
    if for_user {
        position.bond_units = match position.bond_units.checked_add(units) {
            Some(t) => t,
            None => return Err(ContractError::Overflow),
        };
    }
    Ok(BondOutcome { bond_units_added: units, shares_bonded: amount })
}

// ---------------------------------------------------------------------------------------------
// Unbond
// ---------------------------------------------------------------------------------------------

/// What an unbond step sends out: a message unbonding `shares_unbonded` liquidity tokens.
pub struct UnbondOutcome {
    pub bond_units_deducted: u128,
    pub shares_unbonded: u128,
}

/// What unbonding does: the user gives up bond units and receives the proportional share of
/// the bonded liquidity tokens as unlocked assets; the rewards paid out on unbonding join the
/// pending rewards.
pub open spec fn unbond_model(
    config: &Config,
    state: StateView,
    position: PositionView,
    bond_units: u128,
    total_bonded: u128,
    rewards: Seq<AssetEntry>,
) -> Result<(StateView, PositionView, UnbondOutcome), ErrorKind> {
    let amount = ratio(total_bonded as int, bond_units as int, state.total_bond_units as int) as u128;
    if state.total_bond_units < bond_units {
        Err(ErrorKind::Overflow)
    } else {
        match entries_add_many(state.pending_rewards, rewards) {
            None => Err(ErrorKind::Asset),
            Some(pending) => if position.bond_units < bond_units {
                Err(ErrorKind::Overflow)
            } else {
                match entries_add(position.unlocked_assets, (true, lp_key(config).1, amount)) {
                    None => Err(ErrorKind::Asset),
                    Some(unlocked) => Ok(
                        (
                            StateView {
                                total_bond_units: (state.total_bond_units - bond_units) as u128,
                                total_debt_units: state.total_debt_units,
                                pending_rewards: pending,
                            },
                            PositionView {
                                bond_units: (position.bond_units - bond_units) as u128,
                                debt_units: position.debt_units,
                                unlocked_assets: unlocked,
                            },
                            UnbondOutcome { bond_units_deducted: bond_units, shares_unbonded: amount },
                        ),
                    ),
                }
            },
        }
    }
}

/// Unbonds the liquidity tokens that `bond_units_to_deduct` of the user's bond units stand for,
/// where `total_bonded_amount` is what the vault has bonded and `rewards` what the generator
/// pays out on unbonding.
pub fn unbond(
    config: &Config,
    state: &mut State,
    position: &mut Position,
    bond_units_to_deduct: u128,
    total_bonded_amount: u128,
    rewards: &AssetList,
) -> (r: Result<UnbondOutcome, ContractError>)
    requires
        old(state).total_bond_units > 0,
        ratio(
            total_bonded_amount as int,
            bond_units_to_deduct as int,
            old(state).total_bond_units as int,
        ) <= u128::MAX,
    ensures
        step_matches(
            r,
            final(state)@,
            final(position)@,
            unbond_model(
                config,
                old(state)@,
                old(position)@,
                bond_units_to_deduct,
                total_bonded_amount,
                asset_list_entries(*rewards),
            ),
        ),
        r is Err ==> final(state)@ == old(state)@,
        r is Err ==> final(position)@ == old(position)@,
{
    let mut state_copy = state.duplicate();
    let mut position_copy = position.duplicate();
    let r = unbond_in_place(config, &mut state_copy, &mut position_copy, bond_units_to_deduct, total_bonded_amount, rewards);
    if r.is_ok() {
        *state = state_copy;
        *position = position_copy;
    }
    r
}

/// The steps of `unbond`, done in place.
fn unbond_in_place(
    config: &Config,
    state: &mut State,
    position: &mut Position,
    bond_units_to_deduct: u128,
    total_bonded_amount: u128,
    rewards: &AssetList,
) -> (r: Result<UnbondOutcome, ContractError>)
    requires
        old(state).total_bond_units > 0,
        ratio(
            total_bonded_amount as int,
            bond_units_to_deduct as int,
            old(state).total_bond_units as int,
        ) <= u128::MAX,
    ensures
        step_matches(
            r,
            final(state)@,
            final(position)@,
            unbond_model(
                config,
                old(state)@,
                old(position)@,
                bond_units_to_deduct,
                total_bonded_amount,
                asset_list_entries(*rewards),
            ),
        ),
{
    let amount = multiply_ratio(total_bonded_amount, bond_units_to_deduct, state.total_bond_units);
    let lp_asset = Asset {
        info: AssetInfo::Cw20(config.primary_pair.liquidity_token.clone()),
        amount,
    };
    state.total_bond_units = match state.total_bond_units.checked_sub(bond_units_to_deduct) {
        Some(t) => t,
        None => return Err(ContractError::Overflow),
    };
    if let Err(e) = list_add_many(&mut state.pending_rewards, rewards) {
        return Err(ContractError::Asset(e));
    }
    position.bond_units = match position.bond_units.checked_sub(bond_units_to_deduct) {
        Some(t) => t,
        None => return Err(ContractError::Overflow),
    };
    if let Err(e) = list_add(&mut position.unlocked_assets, &lp_asset) {
        return Err(ContractError::Asset(e));
    }
    Ok(UnbondOutcome { bond_units_deducted: bond_units_to_deduct, shares_unbonded: amount })
}

// ---------------------------------------------------------------------------------------------
// Borrow
// ---------------------------------------------------------------------------------------------

/// What a borrow step sends out: a message borrowing `secondary_borrowed` of the secondary asset.
pub struct BorrowOutcome {
    pub debt_units_added: u128,
    pub secondary_borrowed: u128,
}

/// The debt units charged for borrowing `amount` when `total_debt` is owed against
/// `total_debt_units` units: a fixed number per unit for the first loan, a proportional share
/// otherwise.
pub open spec fn debt_units_for(total_debt_units: u128, amount: u128, total_debt: u128) -> int {
    if total_debt == 0 {
        amount * DEFAULT_DEBT_UNITS_PER_ASSET_BORROWED
    } else {
        ratio(total_debt_units as int, amount as int, total_debt as int)
    }
}

/// What borrowing does: the user is charged debt units and the borrowed amount joins the
/// position's unlocked assets.
pub open spec fn borrow_model(
    config: &Config,
    state: StateView,
    position: PositionView,
    amount: u128,
    total_debt: u128,
) -> Result<(StateView, PositionView, BorrowOutcome), ErrorKind> {
    let units = debt_units_for(state.total_debt_units, amount, total_debt);
    if units > u128::MAX {
        Err(ErrorKind::Overflow)
    } else if state.total_debt_units + units > u128::MAX {
        Err(ErrorKind::Overflow)
    } else if position.debt_units + units > u128::MAX {
        Err(ErrorKind::Overflow)
    } else {
        match entries_add(
            position.unlocked_assets,
            (config.secondary_asset_info.key().0, config.secondary_asset_info.key().1, amount),
        ) {
            None => Err(ErrorKind::Asset),
            Some(unlocked) => Ok(
                (
                    StateView {
                        total_bond_units: state.total_bond_units,
                        total_debt_units: (state.total_debt_units + units) as u128,
                        pending_rewards: state.pending_rewards,
                    },
                    PositionView {
                        bond_units: position.bond_units,
                        debt_units: (position.debt_units + units) as u128,
                        unlocked_assets: unlocked,
                    },
                    BorrowOutcome { debt_units_added: units as u128, secondary_borrowed: amount },
                ),
            ),
        }
    }
}

/// Borrows `borrow_amount` of the secondary asset for the user, where `total_debt_amount` is
/// what the vault owes the lender.
pub fn borrow(
    config: &Config,
    state: &mut State,
    position: &mut Position,
    borrow_amount: u128,
    total_debt_amount: u128,
) -> (r: Result<BorrowOutcome, ContractError>)
    requires
        total_debt_amount > 0 ==> ratio(
            old(state).total_debt_units as int,
            borrow_amount as int,
            total_debt_amount as int,
        ) <= u128::MAX,
    ensures
        step_matches(
            r,
            final(state)@,
            final(position)@,
            borrow_model(config, old(state)@, old(position)@, borrow_amount, total_debt_amount),
        ),
        r is Err ==> final(state)@ == old(state)@,
        r is Err ==> final(position)@ == old(position)@,
{
    let mut state_copy = state.duplicate();
    let mut position_copy = position.duplicate();
    let r = borrow_in_place(config, &mut state_copy, &mut position_copy, borrow_amount, total_debt_amount);
    if r.is_ok() {
        *state = state_copy;
        *position = position_copy;
    }
    r
}

/// The steps of `borrow`, done in place.
fn borrow_in_place(
    config: &Config,
    state: &mut State,
    position: &mut Position,
    borrow_amount: u128,
    total_debt_amount: u128,
) -> (r: Result<BorrowOutcome, ContractError>)
    requires
        total_debt_amount > 0 ==> ratio(
            old(state).total_debt_units as int,
            borrow_amount as int,
            total_debt_amount as int,
        ) <= u128::MAX,
    ensures
        step_matches(
            r,
            final(state)@,
            final(position)@,
            borrow_model(config, old(state)@, old(position)@, borrow_amount, total_debt_amount),
        ),
{
    let units: u128 = if total_debt_amount == 0 {
        match borrow_amount.checked_mul(DEFAULT_DEBT_UNITS_PER_ASSET_BORROWED) {
            Some(u) => u,
            None => return Err(ContractError::Overflow),
        }
    } else {
        multiply_ratio(state.total_debt_units, borrow_amount, total_debt_amount)
    };
    let secondary = Asset { info: config.secondary_asset_info.duplicate(), amount: borrow_amount };
    state.total_debt_units = match state.total_debt_units.checked_add(units) {
        Some(t) => t,
        None => return Err(ContractError::Overflow),
    };
    position.debt_units = match position.debt_units.checked_add(units) {
        Some(t) => t,
        None => return Err(ContractError::Overflow),
    };
    if let Err(e) = list_add(&mut position.unlocked_assets, &secondary) {
        return Err(ContractError::Asset(e));
    }
    Ok(BorrowOutcome { debt_units_added: units, secondary_borrowed: borrow_amount })
}

// ---------------------------------------------------------------------------------------------
// Repay
// ---------------------------------------------------------------------------------------------

/// What a repay step sends out: a message repaying `secondary_repaid` of the secondary asset.
pub struct RepayOutcome {
    pub debt_units_deducted: u128,
    pub secondary_repaid: u128,
}

/// The user's share of the vault's debt.
pub open spec fn debt_share(total_debt: u128, debt_units: u128, total_debt_units: u128) -> int {
    ratio(total_debt as int, debt_units as int, total_debt_units as int)
}

/// The amount repaid: the amount asked for (by default all the unlocked secondary asset), at
/// most the user's debt.
pub open spec fn repay_amount_for(
    config: &Config,
    position: PositionView,
    asked: Option<u128>,
    debt: int,
) -> int {
    let wanted = match asked {
        Some(a) => a as int,
        None => amount_of(position.unlocked_assets, config.secondary_asset_info.key()) as int,
    };
    if wanted < debt {
        wanted
    } else {
        debt
    }
}

/// What repaying does: the repaid amount leaves the unlocked assets and the user's debt units
/// shrink in proportion to the share of the debt repaid.
pub open spec fn repay_model(
    config: &Config,
    state: StateView,
    position: PositionView,
    asked: Option<u128>,
    total_debt: u128,
) -> Result<(StateView, PositionView, RepayOutcome), ErrorKind> {
    let debt = debt_share(total_debt, position.debt_units, state.total_debt_units);
    let amount = repay_amount_for(config, position, asked, debt);
    let units = if debt == 0 {
        0
    } else {
        ratio(position.debt_units as int, amount, debt)
    };
    if state.total_debt_units < units {
        Err(ErrorKind::Overflow)
    } else if position.debt_units < units {
        Err(ErrorKind::Overflow)
    } else {
        match entries_deduct(
            position.unlocked_assets,
            (
                config.secondary_asset_info.key().0,
                config.secondary_asset_info.key().1,
                amount as u128,
            ),
        ) {
            Err(_) => Err(ErrorKind::Asset),
            Ok(unlocked) => Ok(
                (
                    StateView {
                        total_bond_units: state.total_bond_units,
                        total_debt_units: (state.total_debt_units - units) as u128,
                        pending_rewards: state.pending_rewards,
                    },
                    PositionView {
                        bond_units: position.bond_units,
                        debt_units: (position.debt_units - units) as u128,
                        unlocked_assets: unlocked,
                    },
                    RepayOutcome {
                        debt_units_deducted: units as u128,
                        secondary_repaid: amount as u128,
                    },
                ),
            ),
        }
    }
}

/// Repays the user's debt from the unlocked secondary asset: `repay_amount`, or all that is
/// unlocked, at most the user's share of `total_debt_amount`.
pub fn repay(
    config: &Config,
    state: &mut State,
    position: &mut Position,
    repay_amount: Option<u128>,
    total_debt_amount: u128,
) -> (r: Result<RepayOutcome, ContractError>)
    requires
        old(state).total_debt_units > 0,
        debt_share(total_debt_amount, old(position).debt_units, old(state).total_debt_units)
            <= u128::MAX,
    ensures
        step_matches(
            r,
            final(state)@,
            final(position)@,
            repay_model(config, old(state)@, old(position)@, repay_amount, total_debt_amount),
        ),
        r is Err ==> final(state)@ == old(state)@,
        r is Err ==> final(position)@ == old(position)@,
{
    let mut state_copy = state.duplicate();
    let mut position_copy = position.duplicate();
    let r = repay_in_place(config, &mut state_copy, &mut position_copy, repay_amount, total_debt_amount);
    if r.is_ok() {
        *state = state_copy;
        *position = position_copy;
    }
    r
}

/// The steps of `repay`, done in place.
fn repay_in_place(
    config: &Config,
    state: &mut State,
    position: &mut Position,
    repay_amount: Option<u128>,
    total_debt_amount: u128,
) -> (r: Result<RepayOutcome, ContractError>)
    requires
        old(state).total_debt_units > 0,
        debt_share(total_debt_amount, old(position).debt_units, old(state).total_debt_units)
            <= u128::MAX,
    ensures
        step_matches(
            r,
            final(state)@,
            final(position)@,
            repay_model(config, old(state)@, old(position)@, repay_amount, total_debt_amount),
        ),
{
    let debt_amount = multiply_ratio(total_debt_amount, position.debt_units, state.total_debt_units);
    let wanted = match repay_amount {
        Some(a) => a,
        None => match list_find(&position.unlocked_assets, &config.secondary_asset_info) {
            Some(a) => a,
            None => 0,
        },
    };
    let amount = if wanted < debt_amount {
        wanted
    } else {
        debt_amount
    };
    let units = if debt_amount == 0 {
        0
    } else {
        proof {
            lemma_ratio_at_most(position.debt_units as int, amount as int, debt_amount as int);
        }
        multiply_ratio(position.debt_units, amount, debt_amount)
    };
    let secondary = Asset { info: config.secondary_asset_info.duplicate(), amount };
    state.total_debt_units = match state.total_debt_units.checked_sub(units) {
        Some(t) => t,
        None => return Err(ContractError::Overflow),
    };
    position.debt_units = match position.debt_units.checked_sub(units) {
        Some(t) => t,
        None => return Err(ContractError::Overflow),
    };
    if let Err(e) = list_deduct(&mut position.unlocked_assets, &secondary) {
        return Err(ContractError::Asset(e));
    }
    Ok(RepayOutcome { debt_units_deducted: units, secondary_repaid: amount })
}

// ---------------------------------------------------------------------------------------------
// Clear bad debt
// ---------------------------------------------------------------------------------------------

/// What waiving a user's remaining debt records: the amount waived and the units waived.
pub struct BadDebt {
    pub bad_debt_amount: u128,
    pub debt_units_waived: u128,
}

/// What clearing bad debt does: a position that still owes has all its debt units waived.
pub open spec fn clear_bad_debt_model(
    state: StateView,
    position: PositionView,
    total_debt: u128,
) -> Result<(StateView, PositionView, Option<BadDebt>), ErrorKind> {
    if position.debt_units == 0 {
        Ok((state, position, None))
    } else if state.total_debt_units < position.debt_units {
        Err(ErrorKind::Overflow)
    } else {
        Ok(
            (
                StateView {
                    total_bond_units: state.total_bond_units,
                    total_debt_units: (state.total_debt_units - position.debt_units) as u128,
                    pending_rewards: state.pending_rewards,
                },
                PositionView {
                    bond_units: position.bond_units,
                    debt_units: 0,
                    unlocked_assets: position.unlocked_assets,
                },
                Some(
                    BadDebt {
                        bad_debt_amount: debt_share(
                            total_debt,
                            position.debt_units,
                            state.total_debt_units,
                        ) as u128,
                        debt_units_waived: position.debt_units,
                    },
                ),
            ),
        )
    }
}

/// Waives whatever the user still owes after a liquidation, where `total_debt_amount` is what
/// the vault owes the lender.
pub fn clear_bad_debt(
    state: &mut State,
    position: &mut Position,
    total_debt_amount: u128,
) -> (r: Result<Option<BadDebt>, ContractError>)
    requires
        old(position).debt_units > 0 ==> old(state).total_debt_units > 0 && debt_share(
            total_debt_amount,
            old(position).debt_units,
            old(state).total_debt_units,
        ) <= u128::MAX,
    ensures
        step_matches(
            r,
            final(state)@,
            final(position)@,
            clear_bad_debt_model(old(state)@, old(position)@, total_debt_amount),
        ),
        r is Err ==> final(state)@ == old(state)@,
        r is Err ==> final(position)@ == old(position)@,
{
    let mut state_copy = state.duplicate();
    let mut position_copy = position.duplicate();
    let r = clear_bad_debt_in_place(&mut state_copy, &mut position_copy, total_debt_amount);
    if r.is_ok() {
        *state = state_copy;
        *position = position_copy;
    }
    r
}

/// The steps of `clear_bad_debt`, done in place.
fn clear_bad_debt_in_place(
    state: &mut State,
    position: &mut Position,
    total_debt_amount: u128,
) -> (r: Result<Option<BadDebt>, ContractError>)
    requires
        old(position).debt_units > 0 ==> old(state).total_debt_units > 0 && debt_share(
            total_debt_amount,
            old(position).debt_units,
            old(state).total_debt_units,
        ) <= u128::MAX,
    ensures
        step_matches(
            r,
            final(state)@,
            final(position)@,
            clear_bad_debt_model(old(state)@, old(position)@, total_debt_amount),
        ),
{
    if position.debt_units == 0 {
        return Ok(None);
    }
    let bad_debt_amount = multiply_ratio(
        total_debt_amount,
        position.debt_units,
        state.total_debt_units,
    );
    let waived = position.debt_units;
    position.debt_units = 0;
    state.total_debt_units = match state.total_debt_units.checked_sub(waived) {
        Some(t) => t,
        None => return Err(ContractError::Overflow),
    };
    Ok(Some(BadDebt { bad_debt_amount, debt_units_waived: waived }))
}

// ---------------------------------------------------------------------------------------------
// Provide liquidity
// ---------------------------------------------------------------------------------------------

/// What a provide step sends out: a message providing these amounts to the primary pair.
pub struct ProvideOutcome {
    pub primary_provided: u128,
    pub secondary_provided: u128,
}

/// Replaces the held assets of the user (`for_user`) or of the vault.
pub open spec fn with_held(
    state: StateView,
    position: PositionView,
    for_user: bool,
    assets: Seq<AssetEntry>,
) -> (StateView, PositionView) {
    if for_user {
        (state, PositionView { unlocked_assets: assets, ..position })
    } else {
        (StateView { pending_rewards: assets, ..state }, position)
    }
}

/// What providing liquidity does: all the held primary and secondary assets leave the held
/// assets, to be provided to the pair.
pub open spec fn provide_liquidity_model(
    config: &Config,
    state: StateView,
    position: PositionView,
    for_user: bool,
) -> Result<(StateView, PositionView, ProvideOutcome), ErrorKind> {
    let assets = held(state, position, for_user);
    let p = config.primary_asset_info.key();
    let q = config.secondary_asset_info.key();
    match entries_find(assets, p) {
        None => Err(ErrorKind::NoPrimaryAsset),
        Some(pa) => match entries_find(assets, q) {
            None => Err(ErrorKind::NoSecondaryAsset),
            Some(qa) => {
                let after_primary = entries_deduct(assets, (p.0, p.1, pa))->Ok_0;
                match entries_deduct(after_primary, (q.0, q.1, qa)) {
                    Err(_) => Err(ErrorKind::Asset),
                    Ok(rest) => {
                        let (s2, p2) = with_held(state, position, for_user, rest);
                        Ok((s2, p2, ProvideOutcome { primary_provided: pa, secondary_provided: qa }))
                    },
                }
            },
        },
    }
}

/// Takes all the primary and secondary assets held by the user (`user_addr` given) or by the
/// vault, to be provided as liquidity.
pub fn provide_liquidity(
    config: &Config,
    state: &mut State,
    position: &mut Position,
    user_addr: &Option<String>,
) -> (r: Result<ProvideOutcome, ContractError>)
    ensures
        step_matches(
            r,
            final(state)@,
            final(position)@,
            provide_liquidity_model(config, old(state)@, old(position)@, user_addr is Some),
        ),
        r is Err ==> final(state)@ == old(state)@,
        r is Err ==> final(position)@ == old(position)@,
{
    let mut state_copy = state.duplicate();
    let mut position_copy = position.duplicate();
    let r = provide_liquidity_in_place(config, &mut state_copy, &mut position_copy, user_addr);
    if r.is_ok() {
        *state = state_copy;
        *position = position_copy;
    }
    r
}

/// The steps of `provide_liquidity`, done in place.
fn provide_liquidity_in_place(
    config: &Config,
    state: &mut State,
    position: &mut Position,
    user_addr: &Option<String>,
) -> (r: Result<ProvideOutcome, ContractError>)
    ensures
        step_matches(
            r,
            final(state)@,
            final(position)@,
            provide_liquidity_model(config, old(state)@, old(position)@, user_addr is Some),
        ),
{
    let for_user = user_addr.is_some();
    let primary = if for_user {
        list_find(&position.unlocked_assets, &config.primary_asset_info)
    } else {
        list_find(&state.pending_rewards, &config.primary_asset_info)
    };
    let primary_amount = match primary {
        Some(a) => a,
        None => return Err(ContractError::NoPrimaryAsset),
    };
    let secondary = if for_user {
        list_find(&position.unlocked_assets, &config.secondary_asset_info)
    } else {
        list_find(&state.pending_rewards, &config.secondary_asset_info)
    };
    let secondary_amount = match secondary {
        Some(a) => a,
        None => return Err(ContractError::NoSecondaryAsset),
    };
    let primary_asset = Asset { info: config.primary_asset_info.duplicate(), amount: primary_amount };
    let secondary_asset = Asset {
        info: config.secondary_asset_info.duplicate(),
        amount: secondary_amount,
    };
    let first = if for_user {
        list_deduct(&mut position.unlocked_assets, &primary_asset)
    } else {
        list_deduct(&mut state.pending_rewards, &primary_asset)
    };
    if let Err(e) = first {
        return Err(ContractError::Asset(e));
    }
    let second = if for_user {
        list_deduct(&mut position.unlocked_assets, &secondary_asset)
    } else {
        list_deduct(&mut state.pending_rewards, &secondary_asset)
    };
    if let Err(e) = second {
        return Err(ContractError::Asset(e));
    }
    Ok(ProvideOutcome { primary_provided: primary_amount, secondary_provided: secondary_amount })
}

// ---------------------------------------------------------------------------------------------
// Withdraw liquidity
// ---------------------------------------------------------------------------------------------

/// What withdrawing liquidity does: all the unlocked liquidity tokens leave the position, to be
/// burned at the pair; the result is the amount burned.
pub open spec fn withdraw_liquidity_model(config: &Config, position: PositionView) -> Result<
    (PositionView, u128),
    ErrorKind,
> {
    match entries_find(position.unlocked_assets, lp_key(config)) {
        None => Err(ErrorKind::NoUnlockedShares),
        Some(amount) => Ok(
            (
                PositionView {
                    unlocked_assets: entries_deduct(
                        position.unlocked_assets,
                        (true, lp_key(config).1, amount),
                    )->Ok_0,
                    ..position
                },
                amount,
            ),
        ),
    }
}

/// Takes all the user's unlocked liquidity tokens, to be burned at the pair; returns the
/// amount taken.
pub fn withdraw_liquidity(config: &Config, position: &mut Position) -> (r: Result<
    u128,
    ContractError,
>)
    ensures
        match withdraw_liquidity_model(config, old(position)@) {
            Ok(m) => r == Ok::<u128, ContractError>(m.1) && final(position)@ == m.0,
            Err(k) => r is Err && r->Err_0.kind() == k,
        },
        r is Err ==> final(position)@ == old(position)@,
{
    let mut position_copy = position.duplicate();
    let r = withdraw_liquidity_in_place(config, &mut position_copy);
    if r.is_ok() {
        *position = position_copy;
    }
    r
}

/// The steps of `withdraw_liquidity`, done in place.
fn withdraw_liquidity_in_place(config: &Config, position: &mut Position) -> (r: Result<
    u128,
    ContractError,
>)
    ensures
        match withdraw_liquidity_model(config, old(position)@) {
            Ok(m) => r == Ok::<u128, ContractError>(m.1) && final(position)@ == m.0,
            Err(k) => r is Err && r->Err_0.kind() == k,
        },
{
    let lp_info = AssetInfo::Cw20(config.primary_pair.liquidity_token.clone());
    let amount = match list_find(&position.unlocked_assets, &lp_info) {
        Some(a) => a,
        None => return Err(ContractError::NoUnlockedShares),
    };
    let lp_asset = Asset { info: lp_info, amount };
    if let Err(e) = list_deduct(&mut position.unlocked_assets, &lp_asset) {
        return Err(ContractError::Asset(e));
    }
    Ok(amount)
}

// ---------------------------------------------------------------------------------------------
// Swap
// ---------------------------------------------------------------------------------------------

/// The pair a swap goes through.
#[derive(Debug, PartialEq, Eq, Structural)]
pub enum SwapPair {
    /// The pair of the primary and secondary assets
    Primary,
    /// The pair of the reward token and the secondary asset
    Astro,
}

/// What a swap step sends out: a swap of `offer_amount` of the offered asset at `pair`.
pub struct SwapOutcome {
    pub pair: SwapPair,
    pub offer_amount: u128,
}

/// What swapping does: the offered amount (by default all that is held) leaves the held
/// assets, to be swapped for the secondary asset at the primary pair (primary asset) or the
/// reward pair (reward token).
pub open spec fn swap_model(
    config: &Config,
    state: StateView,
    position: PositionView,
    for_user: bool,
    offer: AssetKey,
    offer_amount: Option<u128>,
) -> Result<(StateView, PositionView, SwapOutcome), ErrorKind> {
    let assets = held(state, position, for_user);
    let pair = if offer == config.primary_asset_info.key() {
        Some(SwapPair::Primary)
    } else if offer == config.astro_token_info.key() {
        Some(SwapPair::Astro)
    } else {
        None
    };
    match pair {
        None => Err(ErrorKind::InvalidOfferAsset),
        Some(pair) => {
            let amount = match offer_amount {
                Some(a) => a,
                None => amount_of(assets, offer),
            };
            match entries_deduct(assets, (offer.0, offer.1, amount)) {
                Err(_) => Err(ErrorKind::Asset),
                Ok(rest) => {
                    let (s2, p2) = with_held(state, position, for_user, rest);
                    Ok((s2, p2, SwapOutcome { pair, offer_amount: amount }))
                },
            }
        },
    }
}

/// Takes an amount of the primary asset or of the reward token held by the user
/// (`user_addr` given) or by the vault, to be swapped for the secondary asset.
pub fn swap(
    config: &Config,
    state: &mut State,
    position: &mut Position,
    user_addr: &Option<String>,
    offer_asset_info: &AssetInfo,
    offer_amount: Option<u128>,
) -> (r: Result<SwapOutcome, ContractError>)
    ensures
        step_matches(
            r,
            final(state)@,
            final(position)@,
            swap_model(
                config,
                old(state)@,
                old(position)@,
                user_addr is Some,
                offer_asset_info.key(),
                offer_amount,
            ),
        ),
        r is Err ==> final(state)@ == old(state)@,
        r is Err ==> final(position)@ == old(position)@,
{
    let mut state_copy = state.duplicate();
    let mut position_copy = position.duplicate();
    let r = swap_in_place(config, &mut state_copy, &mut position_copy, user_addr, offer_asset_info, offer_amount);
    if r.is_ok() {
        *state = state_copy;
        *position = position_copy;
    }
    r
}

/// The steps of `swap`, done in place.
fn swap_in_place(
    config: &Config,
    state: &mut State,
    position: &mut Position,
    user_addr: &Option<String>,
    offer_asset_info: &AssetInfo,
    offer_amount: Option<u128>,
) -> (r: Result<SwapOutcome, ContractError>)
    ensures
        step_matches(
            r,
            final(state)@,
            final(position)@,
            swap_model(
                config,
                old(state)@,
                old(position)@,
                user_addr is Some,
                offer_asset_info.key(),
                offer_amount,
            ),
        ),
{
    let for_user = user_addr.is_some();
    let pair = if offer_asset_info.same_as(&config.primary_asset_info) {
        SwapPair::Primary
    } else if offer_asset_info.same_as(&config.astro_token_info) {
        SwapPair::Astro
    } else {
        return Err(ContractError::InvalidOfferAsset { offer_asset_info: offer_asset_info.duplicate() });
    };
    let amount = match offer_amount {
        Some(a) => a,
        None => {
            let found = if for_user {
                list_find(&position.unlocked_assets, offer_asset_info)
            } else {
                list_find(&state.pending_rewards, offer_asset_info)
            };
            match found {
                Some(a) => a,
                None => 0,
            }
        },
    };
    let offer = Asset { info: offer_asset_info.duplicate(), amount };
    let deducted = if for_user {
        list_deduct(&mut position.unlocked_assets, &offer)
    } else {
        list_deduct(&mut state.pending_rewards, &offer)
    };
    if let Err(e) = deducted {
        return Err(ContractError::Asset(e));
    }
    Ok(SwapOutcome { pair, offer_amount: amount })
}

// ---------------------------------------------------------------------------------------------
// Balance
// ---------------------------------------------------------------------------------------------

/// What a balance step decides.
pub enum BalanceOutcome {
    /// The pending primary and secondary assets are of equal value: nothing to swap
    Balanced,
    /// An amount of the richer asset leaves the pending rewards, to be swapped at the primary
    /// pair when it is not zero
    Swapped {
        offer_primary: bool,
        offer_amount: u128,
        primary_amount: u128,
        secondary_amount: u128,
    },
}

/// The value of an amount at a price, rounded down.
pub open spec fn value_at(amount: u128, price: Decimal) -> int {
    ratio(amount as int, price.atomics as int, DECIMAL_FRACTIONAL as int)
}

/// The amount of the richer asset to swap: its amount times half the difference of the two
/// values over its value, rounded down at each step.
pub open spec fn balance_offer_amount(available: u128, higher: int, lower: int) -> int {
    ratio(available as int, (higher - lower) / 2, higher)
}

/// What balancing does: the pending rewards' primary and secondary assets are valued at the
/// given prices, and the richer one offers the amount that stands for half the difference.
pub open spec fn balance_model(
    config: &Config,
    state: StateView,
    primary_price: Decimal,
    secondary_price: Decimal,
) -> Result<(StateView, BalanceOutcome), ErrorKind> {
    let pa = amount_of(state.pending_rewards, config.primary_asset_info.key());
    let sa = amount_of(state.pending_rewards, config.secondary_asset_info.key());
    let pv = value_at(pa, primary_price);
    let sv = value_at(sa, secondary_price);
    if pv == sv {
        Ok((state, BalanceOutcome::Balanced))
    } else {
        let offer_primary = pv > sv;
        let (key, available, higher, lower) = if offer_primary {
            (config.primary_asset_info.key(), pa, pv, sv)
        } else {
            (config.secondary_asset_info.key(), sa, sv, pv)
        };
        let amount = balance_offer_amount(available, higher, lower) as u128;
        match entries_deduct(state.pending_rewards, (key.0, key.1, amount)) {
            Err(_) => Err(ErrorKind::Asset),
            Ok(rest) => Ok(
                (
                    StateView { pending_rewards: rest, ..state },
                    BalanceOutcome::Swapped {
                        offer_primary,
                        offer_amount: amount,
                        primary_amount: pa,
                        secondary_amount: sa,
                    },
                ),
            ),
        }
    }
}

/// Whether valuing the pending primary and secondary assets fits in 128 bits.
pub open spec fn balance_fits(
    config: &Config,
    state: StateView,
    primary_price: Decimal,
    secondary_price: Decimal,
) -> bool {
    &&& value_at(amount_of(state.pending_rewards, config.primary_asset_info.key()), primary_price)
        <= u128::MAX
    &&& value_at(
        amount_of(state.pending_rewards, config.secondary_asset_info.key()),
        secondary_price,
    ) <= u128::MAX
}

/// Before the pending rewards are provided as liquidity, swaps half the difference in value
/// between the primary and secondary assets from the richer one to the other, at the oracle's
/// prices.
pub fn balance(
    config: &Config,
    state: &mut State,
    primary_price: Decimal,
    secondary_price: Decimal,
) -> (r: Result<BalanceOutcome, ContractError>)
    requires
        balance_fits(config, old(state)@, primary_price, secondary_price),
    ensures
        match balance_model(config, old(state)@, primary_price, secondary_price) {
            Ok(m) => r == Ok::<BalanceOutcome, ContractError>(m.1) && final(state)@ == m.0,
            Err(k) => r is Err && r->Err_0.kind() == k,
        },
        r is Err ==> final(state)@ == old(state)@,
{
    let mut state_copy = state.duplicate();
    let r = balance_in_place(config, &mut state_copy, primary_price, secondary_price);
    if r.is_ok() {
        *state = state_copy;
    }
    r
}

/// The steps of `balance`, done in place.
fn balance_in_place(
    config: &Config,
    state: &mut State,
    primary_price: Decimal,
    secondary_price: Decimal,
) -> (r: Result<BalanceOutcome, ContractError>)
    requires
        balance_fits(config, old(state)@, primary_price, secondary_price),
    ensures
        match balance_model(config, old(state)@, primary_price, secondary_price) {
            Ok(m) => r == Ok::<BalanceOutcome, ContractError>(m.1) && final(state)@ == m.0,
            Err(k) => r is Err && r->Err_0.kind() == k,
        },
{
    let pa = match list_find(&state.pending_rewards, &config.primary_asset_info) {
        Some(a) => a,
        None => 0,
    };
    let sa = match list_find(&state.pending_rewards, &config.secondary_asset_info) {
        Some(a) => a,
        None => 0,
    };
    let pv = mul_decimal(pa, primary_price);
    let sv = mul_decimal(sa, secondary_price);
    if pv == sv {
        return Ok(BalanceOutcome::Balanced);
    }
    let offer_primary = pv > sv;
    let (available, higher, lower) = if offer_primary {
        (pa, pv, sv)
    } else {
        (sa, sv, pv)
    };
    let value_diff = higher - lower;
    let value_to_swap = multiply_ratio(value_diff, 1, 2);
    proof {
        lemma_ratio_at_most(available as int, value_to_swap as int, higher as int);
    }
    let amount = multiply_ratio(available, value_to_swap, higher);
    let offer_info = if offer_primary {
        config.primary_asset_info.duplicate()
    } else {
        config.secondary_asset_info.duplicate()
    };
    let offer = Asset { info: offer_info, amount };
    if let Err(e) = list_deduct(&mut state.pending_rewards, &offer) {
        return Err(ContractError::Asset(e));
    }
    Ok(
        BalanceOutcome::Swapped {
            offer_primary,
            offer_amount: amount,
            primary_amount: pa,
            secondary_amount: sa,
        },
    )
}

// ---------------------------------------------------------------------------------------------
// Cover
// ---------------------------------------------------------------------------------------------

/// How much more of the secondary asset the user needs to pay off their share of the debt,
/// or `None` when the unlocked secondary asset already covers it.
pub open spec fn cover_shortfall_model(
    config: &Config,
    state: StateView,
    position: PositionView,
    total_debt: u128,
) -> Option<u128> {
    let debt = debt_share(total_debt, position.debt_units, state.total_debt_units);
    let available = amount_of(position.unlocked_assets, config.secondary_asset_info.key());
    if debt > available {
        Some((debt - available) as u128)
    } else {
        None
    }
}

/// The first half of a cover step: how much more of the secondary asset a liquidated user
/// needs to pay off their share of `total_debt_amount`. When some is needed, the pair is asked
/// how much primary asset that takes, and [`cover`] completes the step.
pub fn cover_shortfall(
    config: &Config,
    state: &State,
    position: &Position,
    total_debt_amount: u128,
) -> (r: Option<u128>)
    requires
        state.total_debt_units > 0,
        debt_share(total_debt_amount, position.debt_units, state.total_debt_units) <= u128::MAX,
    ensures
        r == cover_shortfall_model(config, state@, position@, total_debt_amount),
{
    let debt_amount = multiply_ratio(total_debt_amount, position.debt_units, state.total_debt_units);
    let available = match list_find(&position.unlocked_assets, &config.secondary_asset_info) {
        Some(a) => a,
        None => 0,
    };
    if debt_amount > available {
        Some(debt_amount - available)
    } else {
        None
    }
}

/// What selling primary asset to cover a shortfall does: one unit more than the reverse
/// simulation asks for (rounding at the pair can leave the swap a unit short), at most what is
/// unlocked, leaves the position, to be swapped; the result is the amount sold.
pub open spec fn cover_model(config: &Config, position: PositionView, reverse_simulated: u128) -> Result<
    (PositionView, u128),
    ErrorKind,
> {
    if reverse_simulated + 1 > u128::MAX {
        Err(ErrorKind::Overflow)
    } else {
        let available = amount_of(position.unlocked_assets, config.primary_asset_info.key());
        let sell = if reverse_simulated + 1 < available {
            (reverse_simulated + 1) as u128
        } else {
            available
        };
        let p = config.primary_asset_info.key();
        match entries_deduct(position.unlocked_assets, (p.0, p.1, sell)) {
            Err(_) => Err(ErrorKind::Asset),
            Ok(rest) => Ok((PositionView { unlocked_assets: rest, ..position }, sell)),
        }
    }
}

/// The second half of a cover step: given how much primary asset the pair says it takes to
/// obtain the shortfall, takes that amount plus one from the user's unlocked primary asset, at
/// most what is there, to be sold; returns the amount taken.
pub fn cover(config: &Config, position: &mut Position, reverse_simulated: u128) -> (r: Result<
    u128,
    ContractError,
>)
    ensures
        match cover_model(config, old(position)@, reverse_simulated) {
            Ok(m) => r == Ok::<u128, ContractError>(m.1) && final(position)@ == m.0,
            Err(k) => r is Err && r->Err_0.kind() == k,
        },
        r is Err ==> final(position)@ == old(position)@,
{
    let mut position_copy = position.duplicate();
    let r = cover_in_place(config, &mut position_copy, reverse_simulated);
    if r.is_ok() {
        *position = position_copy;
    }
    r
}

/// The steps of `cover`, done in place.
fn cover_in_place(config: &Config, position: &mut Position, reverse_simulated: u128) -> (r: Result<
    u128,
    ContractError,
>)
    ensures
        match cover_model(config, old(position)@, reverse_simulated) {
            Ok(m) => r == Ok::<u128, ContractError>(m.1) && final(position)@ == m.0,
            Err(k) => r is Err && r->Err_0.kind() == k,
        },
{
    let wanted = match reverse_simulated.checked_add(1) {
        Some(w) => w,
        None => return Err(ContractError::Overflow),
    };
    let available = match list_find(&position.unlocked_assets, &config.primary_asset_info) {
        Some(a) => a,
        None => 0,
    };
    let sell = if wanted < available {
        wanted
    } else {
        available
    };
    let primary = Asset { info: config.primary_asset_info.duplicate(), amount: sell };
    if let Err(e) = list_deduct(&mut position.unlocked_assets, &primary) {
        return Err(ContractError::Asset(e));
    }
    Ok(sell)
}

// ---------------------------------------------------------------------------------------------
// Refund
// ---------------------------------------------------------------------------------------------

/// The assets refunded: every unlocked amount times the percentage, rounded down, without the
/// zero amounts.
pub open spec fn refund_amounts(unlocked: Seq<AssetEntry>, percentage: Decimal) -> Seq<AssetEntry> {
    purged(entries_scaled(unlocked, percentage.atomics))
}

/// What refunding does: the refunded assets leave the position, to be sent to the recipient;
/// the result is the refunded assets.
pub open spec fn refund_model(position: PositionView, percentage: Decimal) -> Result<
    (PositionView, Seq<AssetEntry>),
    ErrorKind,
> {
    let refunded = refund_amounts(position.unlocked_assets, percentage);
    match entries_deduct_many(position.unlocked_assets, refunded) {
        Err(_) => Err(ErrorKind::Asset),
        Ok(rest) => Ok((PositionView { unlocked_assets: rest, ..position }, refunded)),
    }
}

/// Takes `percentage` of each of the user's unlocked assets, to be sent to a recipient;
/// returns the assets taken.
pub fn refund(position: &mut Position, percentage: Decimal) -> (r: Result<
    AssetList,
    ContractError,
>)
    requires
        scale_fits(old(position)@.unlocked_assets, percentage.atomics),
    ensures
        match refund_model(old(position)@, percentage) {
            Ok(m) => r is Ok && asset_list_entries(r->Ok_0) == m.1 && final(position)@ == m.0,
            Err(k) => r is Err && r->Err_0.kind() == k,
        },
        r is Err ==> final(position)@ == old(position)@,
{
    let mut position_copy = position.duplicate();
    let r = refund_in_place(&mut position_copy, percentage);
    if r.is_ok() {
        *position = position_copy;
    }
    r
}

/// The steps of `refund`, done in place.
fn refund_in_place(position: &mut Position, percentage: Decimal) -> (r: Result<
    AssetList,
    ContractError,
>)
    requires
        scale_fits(old(position)@.unlocked_assets, percentage.atomics),
    ensures
        match refund_model(old(position)@, percentage) {
            Ok(m) => r is Ok && asset_list_entries(r->Ok_0) == m.1 && final(position)@ == m.0,
            Err(k) => r is Err && r->Err_0.kind() == k,
        },
{
    let mut to_refund = list_clone(&position.unlocked_assets);
    list_scale(&mut to_refund, percentage);
    list_purge(&mut to_refund);
    if let Err(e) = list_deduct_many(&mut position.unlocked_assets, &to_refund) {
        return Err(ContractError::Asset(e));
    }
    Ok(to_refund)
}

// ---------------------------------------------------------------------------------------------
// Assert health, purge storage
// ---------------------------------------------------------------------------------------------

/// Whether a position is healthy: its loan-to-value ratio is at most the limit, or, when it
/// has no bonded value, it has no debt units.
pub open spec fn is_healthy(max_ltv: Decimal, ltv: Option<Decimal>, debt_units: u128) -> bool {
    match ltv {
        Some(l) => l.atomics <= max_ltv.atomics,
        None => debt_units == 0,
    }
}

/// Refuses a position whose loan-to-value ratio `ltv` exceeds the limit, or which has debt
/// units but no bonded value (`ltv` is `None`).
pub fn assert_health(config: &Config, position: &Position, ltv: Option<Decimal>) -> (r: Result<
    (),
    ContractError,
>)
    ensures
        r is Ok <==> is_healthy(config.max_ltv, ltv, position.debt_units),
        r is Err ==> r == Err::<(), ContractError>(ContractError::Unhealthy { ltv }),
{
    let healthy = match ltv {
        Some(l) => l.atomics <= config.max_ltv.atomics,
        None => position.debt_units == 0,
    };
    if healthy {
        Ok(())
    } else {
        Err(ContractError::Unhealthy { ltv })
    }
}

/// Whether a position is to be removed from storage: it holds nothing.
pub fn purge_storage(position: &Position) -> (r: bool)
    ensures
        r == position@.is_empty(),
{
    position.is_empty()
}

} // verus!
