//! What the vault answers about itself and its positions.

use vstd::prelude::*;

use crate::assets::{asset_list_entries, list_clone, AssetList};
use crate::health::Health;
use crate::math::Decimal;
use crate::state::{Position, State};

verus! {

/// The most positions listed in one page.
pub const MAX_LIMIT: u32 = 30;

/// The number of positions listed in a page when none is asked for.
pub const DEFAULT_LIMIT: u32 = 10;

/// The number of positions to list: the number asked for (by default ten), at most thirty.
pub fn page_limit(limit: Option<u32>) -> (r: usize)
    ensures
        r == match limit {
            Some(l) => if l < MAX_LIMIT {
                l
            } else {
                MAX_LIMIT
            },
            None => DEFAULT_LIMIT,
        },
{
    let asked = match limit {
        Some(l) => l,
        None => DEFAULT_LIMIT,
    };
    let l = if asked < MAX_LIMIT {
        asked
    } else {
        MAX_LIMIT
    };
    l as usize
}

/// A position's units, its health, and its unlocked assets.
#[derive(Debug)]
pub struct PositionResponse {
    pub bond_units: u128,
    pub bond_amount: u128,
    pub bond_value: u128,
    pub debt_units: u128,
    pub debt_amount: u128,
    pub debt_value: u128,
    pub ltv: Option<Decimal>,
    pub unlocked_assets: AssetList,
}

/// Composes the answer about a position from the position and its health.
pub fn position_response(position: &Position, health: &Health) -> (r: PositionResponse)
    ensures
        r.bond_units == position.bond_units,
        r.debt_units == position.debt_units,
        r.bond_amount == health.bond_amount,
        r.bond_value == health.bond_value,
        r.debt_amount == health.debt_amount,
        r.debt_value == health.debt_value,
        r.ltv == health.ltv,
        asset_list_entries(r.unlocked_assets) == asset_list_entries(position.unlocked_assets),
{
    PositionResponse {
        bond_units: position.bond_units,
        bond_amount: health.bond_amount,
        bond_value: health.bond_value,
        debt_units: position.debt_units,
        debt_amount: health.debt_amount,
        debt_value: health.debt_value,
        ltv: health.ltv,
        unlocked_assets: list_clone(&position.unlocked_assets),
    }
}

/// The vault as a whole seen as one position: all bond units, all debt units, and the pending
/// rewards as its unlocked assets.
pub fn state_as_position(state: &State) -> (p: Position)
    ensures
        p.bond_units == state.total_bond_units,
        p.debt_units == state.total_debt_units,
        asset_list_entries(p.unlocked_assets) == asset_list_entries(state.pending_rewards),
{
    Position {
        bond_units: state.total_bond_units,
        debt_units: state.total_debt_units,
        unlocked_assets: list_clone(&state.pending_rewards),
    }
}

} // verus!
