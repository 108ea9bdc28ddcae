//! Stand-ins for the staking, generator and lending contracts the vault talks to, as used to
//! exercise the vault: they keep plain per-user balances.

use vstd::prelude::*;

use crate::assets::{coin_amount, coin_of, find_coin, find_coin_amount, string_eq, Coin};
use crate::math::{mul_decimal, multiply_ratio, ratio, Decimal, DECIMAL_FRACTIONAL};
use crate::state::ContractError;

verus! {

/// The configuration of a staking stand-in: the reward token and the token that is staked,
/// as addresses of type `T` (unchecked strings in messages, checked addresses in storage).
#[derive(Debug, Clone, PartialEq, Eq)]
pub struct ConfigBase<T> {
    pub anchor_token: T,
    pub staking_token: T,
}

/// The reward a staking stand-in pays on every withdrawal, and reports as pending.
pub const MOCK_REWARD_AMOUNT: u128 = 1_000_000u128;

/// The reward token a generator stand-in pays on every deposit and withdrawal.
pub const MOCK_ASTRO_REWARD_AMOUNT: u128 = 1_000_000u128;

/// The proxy reward a generator stand-in pays when a proxy reward token is configured.
pub const MOCK_PROXY_REWARD_AMOUNT: u128 = 500_000u128;

/// The amount offered to a pair to probe its spot price.
pub const PROBE_AMOUNT: u128 = 1_000_000u128;

/// A staking stand-in accepts bonds of the staking token only.
pub fn check_staking_token(sender: &String, config: &ConfigBase<String>) -> (r: Result<
    (),
    ContractError,
>)
    ensures
        sender@ == config.staking_token@ ==> r is Ok,
        sender@ != config.staking_token@ ==> (r matches Err(ContractError::Unauthorized)),
{
    if !string_eq(sender, &config.staking_token) {
        return Err(ContractError::Unauthorized);
    }
    Ok(())
}

/// A staker's bonded amount after bonding `amount` more.
pub fn bond_amount_after_bond(bonded: u128, amount: u128) -> (r: u128)
    requires
        bonded + amount <= u128::MAX,
    ensures
        r == bonded + amount,
{
    bonded + amount
}

/// A staker's bonded amount after unbonding `amount`.
pub fn bond_amount_after_unbond(bonded: u128, amount: u128) -> (r: u128)
    requires
        amount <= bonded,
    ensures
        r == bonded - amount,
{
    bonded - amount
}

/// The reward a staking stand-in reports as pending on one asset: the fixed reward when the
/// asset was asked for by name, and otherwise the fixed reward when something is bonded on it
/// and nothing when nothing is.
pub fn reported_pending_reward(bond_amount: u128, asked_by_name: bool) -> (r: u128)
    ensures
        r == if asked_by_name || bond_amount != 0 {
            MOCK_REWARD_AMOUNT
        } else {
            0
        },
{
    if asked_by_name || bond_amount != 0 {
        MOCK_REWARD_AMOUNT
    } else {
        0
    }
}

/// The sum of a sequence of amounts.
pub open spec fn amounts_sum(s: Seq<u128>) -> int
    decreases s.len(),
{
    if s.len() == 0 {
        0
    } else {
        amounts_sum(s.drop_last()) + s.last()
    }
}

/// A prefix of a sequence of amounts sums to at most the whole.
proof fn lemma_prefix_sum_at_most(s: Seq<u128>, k: int)
    requires
        0 <= k <= s.len(),
    ensures
        amounts_sum(s.take(k)) <= amounts_sum(s),
    decreases s.len(),
{
    if k == s.len() {
        assert(s.take(k) =~= s);
    } else {
        assert(s.take(k) =~= s.drop_last().take(k));
        lemma_prefix_sum_at_most(s.drop_last(), k);
    }
}

/// The reward a staking stand-in pays on a withdrawal: the sum of the rewards pending on each
/// asset.
pub fn total_reward(pending: &Vec<u128>) -> (r: u128)
    requires
        amounts_sum(pending@) <= u128::MAX,
    ensures
        r == amounts_sum(pending@),
{
    let mut total: u128 = 0;
    let mut i: usize = 0;
    while i < pending.len()
        invariant
            i <= pending.len(),
            total == amounts_sum(pending@.take(i as int)),
            amounts_sum(pending@) <= u128::MAX,
        decreases pending.len() - i,
    {
        assert(pending@.take(i as int) =~= pending@.take(i as int + 1).drop_last());
        proof {
            lemma_prefix_sum_at_most(pending@, i as int + 1);
        }
        total = total + pending[i];
        i = i + 1;
    }
    assert(pending@.take(pending.len() as int) =~= pending@);
    total
}

/// A generator stand-in accepts deposits and withdrawals of its liquidity token only.
pub fn check_liquidity_token(token: &String, configured: &String) -> (r: Result<(), ContractError>)
    ensures
        token@ == configured@ ==> r is Ok,
        token@ != configured@ ==> (r matches Err(ContractError::InvalidLiquidityToken)),
{
    if !string_eq(token, configured) {
        return Err(ContractError::InvalidLiquidityToken);
    }
    Ok(())
}

/// A user's deposit with a generator stand-in after depositing `amount` more.
pub fn deposit_after_deposit(deposit: u128, amount: u128) -> (r: Result<u128, ContractError>)
    ensures
        deposit + amount <= u128::MAX ==> r == Ok::<u128, ContractError>((deposit + amount) as u128),
        deposit + amount > u128::MAX ==> (r matches Err(ContractError::Overflow)),
{
    match deposit.checked_add(amount) {
        Some(d) => Ok(d),
        None => Err(ContractError::Overflow),
    }
}

/// A user's deposit with a generator stand-in after withdrawing `amount`.
pub fn deposit_after_withdraw(deposit: u128, amount: u128) -> (r: Result<u128, ContractError>)
    ensures
        amount <= deposit ==> r == Ok::<u128, ContractError>((deposit - amount) as u128),
        amount > deposit ==> (r matches Err(ContractError::Overflow)),
{
    match deposit.checked_sub(amount) {
        Some(d) => Ok(d),
        None => Err(ContractError::Overflow),
    }
}

/// The rewards a generator stand-in pays or reports as pending: a fixed amount of the reward
/// token, and a fixed amount of the proxy reward token when one is configured.
pub fn pending_rewards(has_proxy_reward: bool) -> (r: (u128, Option<u128>))
    ensures
        r.0 == MOCK_ASTRO_REWARD_AMOUNT,
        r.1 == if has_proxy_reward {
            Some(MOCK_PROXY_REWARD_AMOUNT)
        } else {
            None
        },
{
    let proxy = if has_proxy_reward {
        Some(MOCK_PROXY_REWARD_AMOUNT)
    } else {
        None
    };
    (MOCK_ASTRO_REWARD_AMOUNT, proxy)
}

/// The amount of a denom among the coins sent: that of the first coin of the denom, or zero.
pub fn get_denom_amount_from_coins(funds: &Vec<Coin>, denom: &String) -> (r: u128)
    ensures
        r == coin_amount(funds@, denom@),
{
    find_coin_amount(funds, denom)
}

/// A borrower's debt with a lending stand-in after borrowing `amount` more.
pub fn debt_after_borrow(debt: u128, amount: u128) -> (r: u128)
    requires
        debt + amount <= u128::MAX,
    ensures
        r == debt + amount,
{
    debt + amount
}

/// A borrower's debt with a lending stand-in after repaying `amount`: overpaying leaves none.
pub fn debt_after_repay(debt: u128, amount: u128) -> (r: u128)
    ensures
        r == if amount <= debt {
            debt - amount
        } else {
            0
        },
{
    match debt.checked_sub(amount) {
        Some(d) => d,
        None => 0,
    }
}

/// A borrower's debt with a lending stand-in that takes no overpayment after repaying
/// `amount`.
pub fn debt_after_exact_repay(debt: u128, amount: u128) -> (r: u128)
    requires
        amount <= debt,
    ensures
        r == debt - amount,
{
    debt - amount
}

/// The debt a lending stand-in that accrues interest reports: the amount lent times its
/// interest rate, rounded down.
pub fn debt_with_interest(borrowed: u128, rate: Decimal) -> (r: u128)
    requires
        ratio(borrowed as int, rate.atomics as int, DECIMAL_FRACTIONAL as int) <= u128::MAX,
    ensures
        r == ratio(borrowed as int, rate.atomics as int, DECIMAL_FRACTIONAL as int),
{
    mul_decimal(borrowed, rate)
}

/// The amount lent after a repayment of `amount` to a lending stand-in that accrues interest:
/// the repayment counts for itself divided by the interest rate, rounded down.
pub fn borrowed_after_repay(borrowed: u128, amount: u128, rate: Decimal) -> (r: u128)
    requires
        rate.atomics > 0,
        ratio(amount as int, DECIMAL_FRACTIONAL as int, rate.atomics as int) <= borrowed,
    ensures
        r == borrowed - ratio(amount as int, DECIMAL_FRACTIONAL as int, rate.atomics as int),
{
    borrowed - multiply_ratio(amount, DECIMAL_FRACTIONAL, rate.atomics)
}

/// The parameters of a liquid-staking hub stand-in.
#[derive(Debug, Clone, Copy, PartialEq, Eq, Structural)]
pub struct HubConfig {
    /// What one staked-asset token is worth in the native coin
    pub exchange_rate: Decimal,
    /// The exchange rate below which minting is charged a peg fee
    pub er_threshold: Decimal,
    /// The largest share of a mint charged as peg fee
    pub peg_recovery_fee: Decimal,
    /// Tokens already requested for unbonding, with their fee
    pub requested_with_fee: u128,
}

/// `a` divided by a decimal, rounded down.
pub fn decimal_division(a: u128, b: Decimal) -> (r: u128)
    requires
        b.atomics > 0,
        ratio(a as int, DECIMAL_FRACTIONAL as int, b.atomics as int) <= u128::MAX,
    ensures
        r == ratio(a as int, DECIMAL_FRACTIONAL as int, b.atomics as int),
{
    multiply_ratio(a, DECIMAL_FRACTIONAL, b.atomics)
}

/// What a hub stand-in mints for `payment` coins: the payment at the exchange rate, less, when
/// the rate is below the threshold, a peg fee that is the smaller of the fee rate's share of
/// the mint and what the supply (with the mint and the requested unbondings) exceeds the
/// bonded amount (with the payment) by. `None` when that excess or the mint less the fee would
/// fall below zero.
pub open spec fn hub_mint(payment: u128, total_supply: u128, total_bond: u128, config: HubConfig) -> Option<int> {
    let mint = ratio(payment as int, DECIMAL_FRACTIONAL as int, config.exchange_rate.atomics as int);
    if config.exchange_rate.atomics < config.er_threshold.atomics {
        let max_fee = ratio(mint, config.peg_recovery_fee.atomics as int, DECIMAL_FRACTIONAL as int);
        let required = (total_supply + mint + config.requested_with_fee) - (total_bond + payment);
        if required < 0 {
            None
        } else {
            let fee = if max_fee < required {
                max_fee
            } else {
                required
            };
            if fee > mint {
                None
            } else {
                Some(mint - fee)
            }
        }
    } else {
        Some(mint)
    }
}

/// Whether the arithmetic of a hub stand-in's bond fits in 128 bits.
pub open spec fn hub_bond_fits(payment: u128, total_supply: u128, total_bond: u128, config: HubConfig) -> bool {
    let mint = ratio(payment as int, DECIMAL_FRACTIONAL as int, config.exchange_rate.atomics as int);
    &&& config.exchange_rate.atomics > 0
    &&& mint <= u128::MAX
    &&& ratio(mint, config.peg_recovery_fee.atomics as int, DECIMAL_FRACTIONAL as int) <= u128::MAX
    &&& total_supply + mint + config.requested_with_fee <= u128::MAX
    &&& total_bond + payment <= u128::MAX
}

/// Bonds the `uluna` sent with a message at a hub stand-in whose token has `total_supply`
/// minted against `total_bond` bonded: returns what is minted and the new bonded amount.
pub fn hub_bond(funds: &Vec<Coin>, total_supply: u128, total_bond: u128, config: HubConfig) -> (r:
    Result<(u128, u128), ContractError>)
    requires
        coin_of(funds@, "uluna"@) matches Some(p) ==> hub_bond_fits(p, total_supply, total_bond, config),
    ensures
        coin_of(funds@, "uluna"@) is None ==> r matches Err(ContractError::NoCoinsToBond),
        coin_of(funds@, "uluna"@) matches Some(p) ==> match hub_mint(p, total_supply, total_bond, config) {
            Some(m) => r == Ok::<(u128, u128), ContractError>((m as u128, (total_bond + p) as u128)),
            None => r matches Err(ContractError::Overflow),
        },
{
    let uluna = String::from_str("uluna");
    let payment = match find_coin(funds, &uluna) {
        Some(p) => p,
        None => return Err(ContractError::NoCoinsToBond),
    };
    let mint = decimal_division(payment, config.exchange_rate);
    let minted = if config.exchange_rate.atomics < config.er_threshold.atomics {
        let max_fee = mul_decimal(mint, config.peg_recovery_fee);
        let supplied = total_supply + mint + config.requested_with_fee;
        let bonded = total_bond + payment;
        if supplied < bonded {
            return Err(ContractError::Overflow);
        }
        let required = supplied - bonded;
        let fee = if max_fee < required {
            max_fee
        } else {
            required
        };
        if fee > mint {
            return Err(ContractError::Overflow);
        }
        mint - fee
    } else {
        mint
    };
    Ok((minted, total_bond + payment))
}

/// The spot price a pair quotes for its asset: what it returns, with its commission, for the
/// probe amount, per unit offered.
pub fn spot_price(return_amount: u128, commission_amount: u128) -> (r: Decimal)
    requires
        return_amount + commission_amount <= u128::MAX,
        ratio(
            (return_amount + commission_amount) as int,
            DECIMAL_FRACTIONAL as int,
            PROBE_AMOUNT as int,
        ) <= u128::MAX,
    ensures
        r.atomics == ratio(
            (return_amount + commission_amount) as int,
            DECIMAL_FRACTIONAL as int,
            PROBE_AMOUNT as int,
        ),
{
    Decimal::from_ratio(return_amount + commission_amount, PROBE_AMOUNT)
}

} // verus!
