//! The value of a position's bonded liquidity, its debt, and its loan-to-value ratio.

use vstd::prelude::*;

use crate::math::{
    checked_multiply_ratio, checked_multiply_ratio_ceil, mul_decimal, multiply_ratio, ratio,
    ratio_ceil, Decimal, DECIMAL_FRACTIONAL,
};

verus! {

/// What the vault knows of the pair and of its own holdings when it values a position.
#[derive(Debug, Clone, Copy)]
pub struct Market {
    /// The pair's depth of the secondary asset, in which values are measured
    pub secondary_depth: u128,
    /// The supply of the pair's liquidity token
    pub share_supply: u128,
    /// The liquidity tokens the vault has bonded
    pub total_bonded: u128,
    /// What the vault owes the lender
    pub total_debt: u128,
    /// The bond units of all positions
    pub total_bond_units: u128,
    /// The debt units of all positions
    pub total_debt_units: u128,
}

/// A position's bonded amount and value, its debt amount and value, and its loan-to-value
/// ratio (`None` when nothing of value is bonded), whose last decimal place is rounded up.
#[derive(Debug, Clone, Copy)]
pub struct Health {
    pub bond_amount: u128,
    pub bond_value: u128,
    pub debt_amount: u128,
    pub debt_value: u128,
    pub ltv: Option<Decimal>,
}

/// A share of a total by units, zero when there are no units at all.
pub open spec fn unit_share(total: u128, units: u128, total_units: u128) -> int {
    if total_units == 0 {
        0
    } else {
        ratio(total as int, units as int, total_units as int)
    }
}

/// The value of one liquidity token, in atomics of the secondary asset: the pool holds twice its
/// secondary depth in value.
pub open spec fn share_value(m: Market) -> int {
    ratio(2 * m.secondary_depth, DECIMAL_FRACTIONAL as int, m.share_supply as int)
}

/// The health of a position with the given units; the loan-to-value ratio is rounded up in its
/// last decimal place (a debt of 100 against a value of 150 is 0.666666666666666667).
pub open spec fn health_model(m: Market, bond_units: u128, debt_units: u128) -> Health {
    let bond_amount = unit_share(m.total_bonded, bond_units, m.total_bond_units);
    let bond_value = ratio(bond_amount, share_value(m), DECIMAL_FRACTIONAL as int);
    let debt = unit_share(m.total_debt, debt_units, m.total_debt_units);
    Health {
        bond_amount: bond_amount as u128,
        bond_value: bond_value as u128,
        debt_amount: debt as u128,
        debt_value: debt as u128,
        ltv: if bond_value == 0 {
            None
        } else {
            Some(
                Decimal {
                    atomics: ratio_ceil(debt, DECIMAL_FRACTIONAL as int, bond_value) as u128,
                },
            )
        },
    }
}

/// Whether valuing a position with the given units stays within 128 bits and divides by no
/// zero.
pub open spec fn health_computable(m: Market, bond_units: u128, debt_units: u128) -> bool {
    let bond_amount = unit_share(m.total_bonded, bond_units, m.total_bond_units);
    let bond_value = ratio(bond_amount, share_value(m), DECIMAL_FRACTIONAL as int);
    let debt = unit_share(m.total_debt, debt_units, m.total_debt_units);
    &&& m.share_supply > 0
    &&& 2 * m.secondary_depth <= u128::MAX
    &&& share_value(m) <= u128::MAX
    &&& bond_amount <= u128::MAX
    &&& bond_value <= u128::MAX
    &&& debt <= u128::MAX
    &&& bond_value > 0 ==> ratio_ceil(debt, DECIMAL_FRACTIONAL as int, bond_value) <= u128::MAX
}

/// Values a position with `bond_units` and `debt_units`: its share of the bonded liquidity
/// tokens at the value of a token, its share of the debt, and their ratio.
pub fn compute_health(m: Market, bond_units: u128, debt_units: u128) -> (h: Health)
    requires
        health_computable(m, bond_units, debt_units),
    ensures
        h == health_model(m, bond_units, debt_units),
{
    let value_per_share = Decimal::from_ratio(m.secondary_depth + m.secondary_depth, m.share_supply);
    let bond_amount = if m.total_bond_units == 0 {
        0
    } else {
        multiply_ratio(m.total_bonded, bond_units, m.total_bond_units)
    };
    let bond_value = mul_decimal(bond_amount, value_per_share);
    let debt_amount = if m.total_debt_units == 0 {
        0
    } else {
        multiply_ratio(m.total_debt, debt_units, m.total_debt_units)
    };
    let ltv = if bond_value == 0 {
        None
    } else {
        match checked_multiply_ratio_ceil(debt_amount, DECIMAL_FRACTIONAL, bond_value) {
            Some(atomics) => Some(Decimal { atomics }),
            None => None,
        }
    };
    Health { bond_amount, bond_value, debt_amount, debt_value: debt_amount, ltv }
}

/// The health of the vault as a whole: all bond units and all debt units.
pub fn compute_state_health(m: Market) -> (h: Health)
    requires
        health_computable(m, m.total_bond_units, m.total_debt_units),
    ensures
        h == health_model(m, m.total_bond_units, m.total_debt_units),
{
    compute_health(m, m.total_bond_units, m.total_debt_units)
}

/// The health of a position with the given units.
pub fn compute_position_health(m: Market, bond_units: u128, debt_units: u128) -> (h: Health)
    requires
        health_computable(m, bond_units, debt_units),
    ensures
        h == health_model(m, bond_units, debt_units),
{
    compute_health(m, bond_units, debt_units)
}

/// Whether valuing a position with the given units stays within 128 bits and divides by no
/// zero: what `compute_health` needs of its arguments.
pub fn health_fits(m: Market, bond_units: u128, debt_units: u128) -> (r: bool)
    ensures
        r == health_computable(m, bond_units, debt_units),
{
    if m.share_supply == 0 {
        return false;
    }
    let pool_value = match m.secondary_depth.checked_add(m.secondary_depth) {
        Some(v) => v,
        None => return false,
    };
    let share_value = match checked_multiply_ratio(pool_value, DECIMAL_FRACTIONAL, m.share_supply) {
        Some(v) => v,
        None => return false,
    };
    let bond_amount = if m.total_bond_units == 0 {
        0
    } else {
        match checked_multiply_ratio(m.total_bonded, bond_units, m.total_bond_units) {
            Some(v) => v,
            None => return false,
        }
    };
    let bond_value = match checked_multiply_ratio(bond_amount, share_value, DECIMAL_FRACTIONAL) {
        Some(v) => v,
        None => return false,
    };
    let debt = if m.total_debt_units == 0 {
        0
    } else {
        match checked_multiply_ratio(m.total_debt, debt_units, m.total_debt_units) {
            Some(v) => v,
            None => return false,
        }
    };
    if bond_value > 0 {
        checked_multiply_ratio_ceil(debt, DECIMAL_FRACTIONAL, bond_value).is_some()
    } else {
        true
    }
}

} // verus!
