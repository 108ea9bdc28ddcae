use martian_field::assets::Coin;
use martian_field::math::Decimal;
use martian_field::mocks::{
    decimal_division, hub_bond, HubConfig, borrowed_after_repay, debt_after_exact_repay, debt_with_interest, bond_amount_after_bond, bond_amount_after_unbond, check_liquidity_token, check_staking_token,
    debt_after_borrow, debt_after_repay, deposit_after_deposit, deposit_after_withdraw,
    get_denom_amount_from_coins, pending_rewards, spot_price, ConfigBase, MOCK_ASTRO_REWARD_AMOUNT,
    MOCK_PROXY_REWARD_AMOUNT, MOCK_REWARD_AMOUNT, reported_pending_reward, total_reward,
};
use martian_field::state::ContractError;

fn coins(list: &[(&str, u128)]) -> Vec<Coin> {
    list.iter().map(|(denom, amount)| Coin { denom: denom.to_string(), amount: *amount }).collect()
}

#[test]
fn staking_accepts_the_staking_token_only() {
    let config = ConfigBase {
        anchor_token: "anchor_token".to_string(),
        staking_token: "anchor_ust_lp".to_string(),
    };
    assert!(check_staking_token(&"anchor_ust_lp".to_string(), &config).is_ok());
    let res = check_staking_token(&"anchor_token".to_string(), &config);
    assert!(matches!(res, Err(ContractError::Unauthorized)));
    let copy = config.clone();
    assert_eq!(copy, config);
}

#[test]
fn staking_balances_move_by_the_amount() {
    assert_eq!(bond_amount_after_bond(100, 23), 123);
    assert_eq!(bond_amount_after_unbond(100, 23), 77);
    assert_eq!(bond_amount_after_unbond(23, 23), 0);
}

#[test]
fn generator_deposits_are_of_the_liquidity_token() {
    let lp = "uluna_uusd_lp".to_string();
    assert!(check_liquidity_token(&lp, &lp).is_ok());
    let res = check_liquidity_token(&"other_lp".to_string(), &lp);
    assert!(matches!(res, Err(ContractError::InvalidLiquidityToken)));
    assert_eq!(deposit_after_deposit(10, 5).unwrap(), 15);
    assert!(matches!(deposit_after_deposit(u128::MAX, 1), Err(ContractError::Overflow)));
    assert_eq!(deposit_after_withdraw(10, 4).unwrap(), 6);
    assert!(matches!(deposit_after_withdraw(3, 4), Err(ContractError::Overflow)));
}

#[test]
fn generator_pays_fixed_rewards() {
    assert_eq!(pending_rewards(false), (MOCK_ASTRO_REWARD_AMOUNT, None));
    assert_eq!(pending_rewards(true), (1_000_000, Some(MOCK_PROXY_REWARD_AMOUNT)));
    assert_eq!(MOCK_PROXY_REWARD_AMOUNT, 500_000);
}

#[test]
fn coin_amounts_come_from_the_first_coin_of_the_denom() {
    let funds = coins(&[("uluna", 5), ("uusd", 7), ("uusd", 9)]);
    assert_eq!(get_denom_amount_from_coins(&funds, &"uusd".to_string()), 7);
    assert_eq!(get_denom_amount_from_coins(&funds, &"uluna".to_string()), 5);
    assert_eq!(get_denom_amount_from_coins(&funds, &"uatom".to_string()), 0);
    assert_eq!(get_denom_amount_from_coins(&vec![], &"uusd".to_string()), 0);
}

#[test]
fn lending_debt_moves_by_the_amount() {
    assert_eq!(debt_after_borrow(100, 50), 150);
    assert_eq!(debt_after_repay(100, 30), 70);
    assert_eq!(debt_after_repay(100, 130), 0);
}

#[test]
fn spot_price_is_return_per_probe_unit() {
    assert_eq!(spot_price(990_000, 10_000), Decimal::one());
    assert_eq!(spot_price(1_990_000, 10_000), Decimal::from_ratio(2, 1));
    assert_eq!(spot_price(500, 0), Decimal::from_ratio(1, 2000));
}

#[test]
fn interest_scales_debt_and_repayments() {
    let rate = Decimal::from_ratio(3, 2);
    assert_eq!(debt_with_interest(100, rate), 150);
    assert_eq!(debt_with_interest(101, rate), 151);
    assert_eq!(borrowed_after_repay(100, 150, rate), 0);
    assert_eq!(borrowed_after_repay(100, 30, rate), 80);
    assert_eq!(debt_with_interest(7, Decimal::one()), 7);
}

#[test]
fn exact_repayments_reduce_the_debt() {
    assert_eq!(debt_after_exact_repay(100, 40), 60);
    assert_eq!(debt_after_exact_repay(40, 40), 0);
}

fn hub(exchange_rate: Decimal) -> HubConfig {
    HubConfig {
        exchange_rate,
        er_threshold: Decimal::one(),
        peg_recovery_fee: Decimal::from_ratio(1, 10),
        requested_with_fee: 0,
    }
}

#[test]
fn hub_mints_at_the_exchange_rate() {
    assert_eq!(decimal_division(100, Decimal::from_ratio(8, 10)), 125);
    let at_peg = hub(Decimal::one());
    assert_eq!(hub_bond(&coins(&[("uluna", 100)]), 1000, 950, at_peg).unwrap(), (100, 1050));
}

#[test]
fn hub_charges_a_peg_fee_below_the_threshold() {
    let off_peg = hub(Decimal::from_ratio(8, 10));
    let funds = coins(&[("uusd", 5), ("uluna", 80)]);
    assert_eq!(hub_bond(&funds, 1000, 950, off_peg).unwrap(), (90, 1030));
    assert_eq!(hub_bond(&funds, 935, 950, off_peg).unwrap(), (95, 1030));
    assert!(matches!(hub_bond(&funds, 900, 950, off_peg), Err(ContractError::Overflow)));
}

#[test]
fn hub_needs_coins_to_bond() {
    let err = hub_bond(&coins(&[("uusd", 5)]), 1000, 950, hub(Decimal::one())).err().unwrap();
    assert!(matches!(err, ContractError::NoCoinsToBond));
    assert_eq!(err.message(), "No uluna assets are provided to bond");
}

#[test]
fn staking_reports_the_fixed_reward_where_something_is_bonded() {
    assert_eq!(reported_pending_reward(0, true), MOCK_REWARD_AMOUNT);
    assert_eq!(reported_pending_reward(5, false), MOCK_REWARD_AMOUNT);
    assert_eq!(reported_pending_reward(0, false), 0);
}

#[test]
fn staking_pays_the_sum_of_the_pending_rewards() {
    assert_eq!(total_reward(&vec![]), 0);
    assert_eq!(total_reward(&vec![MOCK_REWARD_AMOUNT, 0, MOCK_REWARD_AMOUNT]), 2 * MOCK_REWARD_AMOUNT);
}
