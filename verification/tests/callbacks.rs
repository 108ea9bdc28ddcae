use martian_field::assets::{Asset, AssetInfo, AssetList};
use martian_field::callbacks::{
    assert_health, balance, bond, borrow, clear_bad_debt, cover, cover_shortfall,
    provide_liquidity, purge_storage, refund, repay, swap, unbond, withdraw_liquidity,
    BalanceOutcome, SwapPair,
};
use martian_field::math::Decimal;
use martian_field::state::{Config, ContractError, Pair, Position, State};

fn vault_config() -> Config {
    Config {
        primary_asset_info: AssetInfo::Native("uluna".to_string()),
        secondary_asset_info: AssetInfo::Native("uusd".to_string()),
        astro_token_info: AssetInfo::Cw20("astro_token".to_string()),
        primary_pair: Pair {
            contract_addr: "uluna_uusd_pair".to_string(),
            liquidity_token: "uluna_uusd_lp_token".to_string(),
        },
        astro_pair: Pair {
            contract_addr: "astro_uusd_pair".to_string(),
            liquidity_token: "astro_uusd_lp_token".to_string(),
        },
        astro_generator: "astro_generator".to_string(),
        red_bank: "red_bank".to_string(),
        oracle: "oracle".to_string(),
        treasury: "treasury".to_string(),
        governance: "governance".to_string(),
        operators: vec!["operator".to_string()],
        max_ltv: Decimal::from_ratio(65, 100),
        fee_rate: Decimal::from_ratio(5, 100),
        bonus_rate: Decimal::from_ratio(1, 100),
    }
}

fn luna() -> AssetInfo {
    AssetInfo::Native("uluna".to_string())
}

fn usd() -> AssetInfo {
    AssetInfo::Native("uusd".to_string())
}

fn astro() -> AssetInfo {
    AssetInfo::Cw20("astro_token".to_string())
}

fn lp() -> AssetInfo {
    AssetInfo::Cw20("uluna_uusd_lp_token".to_string())
}

fn holding(assets: Vec<(AssetInfo, u128)>) -> AssetList {
    AssetList::from_assets(assets.into_iter().map(|(info, amount)| Asset { info, amount }).collect())
}

fn state_with(total_bond_units: u128, total_debt_units: u128, pending: Vec<(AssetInfo, u128)>) -> State {
    State { total_bond_units, total_debt_units, pending_rewards: holding(pending) }
}

fn position_with(bond_units: u128, debt_units: u128, unlocked: Vec<(AssetInfo, u128)>) -> Position {
    Position { bond_units, debt_units, unlocked_assets: holding(unlocked) }
}

fn user() -> Option<String> {
    Some("alice".to_string())
}

#[test]
fn first_bond_credits_default_units_per_share() {
    let config = vault_config();
    let mut state = State::default();
    let mut position = position_with(0, 0, vec![(lp(), 100)]);
    let out = bond(&config, &mut state, &mut position, &user(), 0, &AssetList::new()).unwrap();
    assert_eq!(out.bond_units_added, 100_000_000);
    assert_eq!(out.shares_bonded, 100);
    assert_eq!(state.total_bond_units, 100_000_000);
    assert_eq!(position.bond_units, 100_000_000);
    assert_eq!(position.unlocked_assets.find(&lp()), None);
}

#[test]
fn later_bond_credits_proportional_units() {
    let config = vault_config();
    let mut state = state_with(1000, 0, vec![]);
    let mut position = position_with(10, 0, vec![(lp(), 50), (luna(), 7)]);
    let rewards = holding(vec![(astro(), 12)]);
    let out = bond(&config, &mut state, &mut position, &user(), 500, &rewards).unwrap();
    assert_eq!(out.bond_units_added, 100);
    assert_eq!(state.total_bond_units, 1100);
    assert_eq!(position.bond_units, 110);
    assert_eq!(position.unlocked_assets.find(&luna()), Some(7));
    assert_eq!(position.unlocked_assets.len(), 1);
    assert_eq!(state.pending_rewards.find(&astro()), Some(12));
}

#[test]
fn bonding_for_the_vault_credits_no_units() {
    let config = vault_config();
    let mut state = state_with(1000, 0, vec![(lp(), 30)]);
    let mut position = Position::default();
    let out = bond(&config, &mut state, &mut position, &None, 500, &AssetList::new()).unwrap();
    assert_eq!(out.bond_units_added, 0);
    assert_eq!(out.shares_bonded, 30);
    assert_eq!(state.total_bond_units, 1000);
    assert_eq!(state.pending_rewards.len(), 0);
}

#[test]
fn bonding_without_liquidity_tokens_is_refused() {
    let config = vault_config();
    let mut state = State::default();
    let mut position = position_with(0, 0, vec![(luna(), 5)]);
    let res = bond(&config, &mut state, &mut position, &user(), 0, &AssetList::new());
    assert!(matches!(res, Err(ContractError::NoLiquidityToken)));
}

#[test]
fn unbonding_releases_a_proportional_share_of_tokens() {
    let config = vault_config();
    let mut state = state_with(1000, 0, vec![]);
    let mut position = position_with(200, 0, vec![]);
    let out = unbond(&config, &mut state, &mut position, 100, 500, &AssetList::new()).unwrap();
    assert_eq!(out.bond_units_deducted, 100);
    assert_eq!(out.shares_unbonded, 50);
    assert_eq!(state.total_bond_units, 900);
    assert_eq!(position.bond_units, 100);
    assert_eq!(position.unlocked_assets.find(&lp()), Some(50));
}

#[test]
fn unbonding_more_units_than_held_is_refused() {
    let config = vault_config();
    let mut state = state_with(1000, 0, vec![]);
    let mut position = position_with(50, 0, vec![]);
    let res = unbond(&config, &mut state, &mut position, 100, 500, &AssetList::new());
    assert!(matches!(res, Err(ContractError::Overflow)));
}

#[test]
fn first_borrow_charges_default_units_per_asset() {
    let config = vault_config();
    let mut state = State::default();
    let mut position = Position::default();
    let out = borrow(&config, &mut state, &mut position, 100, 0).unwrap();
    assert_eq!(out.debt_units_added, 100_000_000);
    assert_eq!(out.secondary_borrowed, 100);
    assert_eq!(state.total_debt_units, 100_000_000);
    assert_eq!(position.debt_units, 100_000_000);
    assert_eq!(position.unlocked_assets.find(&usd()), Some(100));
}

#[test]
fn later_borrow_charges_proportional_units() {
    let config = vault_config();
    let mut state = state_with(0, 3000, vec![]);
    let mut position = position_with(0, 10, vec![(usd(), 5)]);
    let out = borrow(&config, &mut state, &mut position, 100, 1500).unwrap();
    assert_eq!(out.debt_units_added, 200);
    assert_eq!(state.total_debt_units, 3200);
    assert_eq!(position.debt_units, 210);
    assert_eq!(position.unlocked_assets.find(&usd()), Some(105));
}

#[test]
fn repaying_all_unlocked_secondary_asset() {
    let config = vault_config();
    let mut state = state_with(0, 1000, vec![]);
    let mut position = position_with(0, 400, vec![(usd(), 150)]);
    let out = repay(&config, &mut state, &mut position, None, 500).unwrap();
    assert_eq!(out.secondary_repaid, 150);
    assert_eq!(out.debt_units_deducted, 300);
    assert_eq!(state.total_debt_units, 700);
    assert_eq!(position.debt_units, 100);
    assert_eq!(position.unlocked_assets.find(&usd()), None);
}

#[test]
fn repaying_more_than_owed_repays_the_debt_only() {
    let config = vault_config();
    let mut state = state_with(0, 1000, vec![]);
    let mut position = position_with(0, 400, vec![(usd(), 300)]);
    let out = repay(&config, &mut state, &mut position, Some(1000), 500).unwrap();
    assert_eq!(out.secondary_repaid, 200);
    assert_eq!(out.debt_units_deducted, 400);
    assert_eq!(position.debt_units, 0);
    assert_eq!(state.total_debt_units, 600);
    assert_eq!(position.unlocked_assets.find(&usd()), Some(100));
}

#[test]
fn repaying_more_than_unlocked_is_refused() {
    let config = vault_config();
    let mut state = state_with(0, 1000, vec![]);
    let mut position = position_with(0, 400, vec![(usd(), 100)]);
    let res = repay(&config, &mut state, &mut position, Some(150), 500);
    assert!(matches!(res, Err(ContractError::Asset(_))));
}

#[test]
fn clearing_bad_debt_waives_remaining_units() {
    let mut state = state_with(0, 1000, vec![]);
    let mut position = position_with(0, 400, vec![]);
    let out = clear_bad_debt(&mut state, &mut position, 500).unwrap().unwrap();
    assert_eq!(out.bad_debt_amount, 200);
    assert_eq!(out.debt_units_waived, 400);
    assert_eq!(position.debt_units, 0);
    assert_eq!(state.total_debt_units, 600);

    let mut clean = Position::default();
    assert!(clear_bad_debt(&mut state, &mut clean, 500).unwrap().is_none());
    assert_eq!(state.total_debt_units, 600);
}

#[test]
fn providing_liquidity_takes_all_primary_and_secondary() {
    let config = vault_config();
    let mut state = State::default();
    let mut position = position_with(0, 0, vec![(luna(), 10), (usd(), 20), (lp(), 5)]);
    let out = provide_liquidity(&config, &mut state, &mut position, &user()).unwrap();
    assert_eq!(out.primary_provided, 10);
    assert_eq!(out.secondary_provided, 20);
    assert_eq!(position.unlocked_assets.len(), 1);
    assert_eq!(position.unlocked_assets.find(&lp()), Some(5));
}

#[test]
fn providing_liquidity_needs_both_assets() {
    let config = vault_config();
    let mut state = State::default();
    let mut position = position_with(0, 0, vec![(usd(), 20)]);
    let res = provide_liquidity(&config, &mut state, &mut position, &user());
    assert!(matches!(res, Err(ContractError::NoPrimaryAsset)));

    let mut position = position_with(0, 0, vec![(luna(), 20)]);
    let res = provide_liquidity(&config, &mut state, &mut position, &user());
    assert!(matches!(res, Err(ContractError::NoSecondaryAsset)));

    let mut state = state_with(0, 0, vec![(usd(), 3), (luna(), 4)]);
    let mut position = Position::default();
    let out = provide_liquidity(&config, &mut state, &mut position, &None).unwrap();
    assert_eq!((out.primary_provided, out.secondary_provided), (4, 3));
    assert_eq!(state.pending_rewards.len(), 0);
}

#[test]
fn withdrawing_liquidity_takes_all_unlocked_tokens() {
    let config = vault_config();
    let mut position = position_with(0, 0, vec![(lp(), 5), (usd(), 1)]);
    assert_eq!(withdraw_liquidity(&config, &mut position).unwrap(), 5);
    assert_eq!(position.unlocked_assets.find(&lp()), None);
    assert_eq!(position.unlocked_assets.find(&usd()), Some(1));
    let res = withdraw_liquidity(&config, &mut position);
    assert!(matches!(res, Err(ContractError::NoUnlockedShares)));
}

#[test]
fn swapping_picks_the_pair_of_the_offered_asset() {
    let config = vault_config();
    let mut state = state_with(0, 0, vec![(astro(), 9)]);
    let mut position = position_with(0, 0, vec![(luna(), 40)]);
    let out = swap(&config, &mut state, &mut position, &user(), &luna(), None).unwrap();
    assert!(out.pair == SwapPair::Primary);
    assert_eq!(out.offer_amount, 40);
    assert_eq!(position.unlocked_assets.len(), 0);

    let out = swap(&config, &mut state, &mut position, &None, &astro(), Some(4)).unwrap();
    assert!(out.pair == SwapPair::Astro);
    assert_eq!(out.offer_amount, 4);
    assert_eq!(state.pending_rewards.find(&astro()), Some(5));
}

#[test]
fn swapping_other_assets_or_more_than_held_is_refused() {
    let config = vault_config();
    let mut state = State::default();
    let mut position = position_with(0, 0, vec![(luna(), 40), (usd(), 1)]);
    let res = swap(&config, &mut state, &mut position, &user(), &usd(), None);
    assert!(matches!(res, Err(ContractError::InvalidOfferAsset { .. })));
    let res = swap(&config, &mut state, &mut position, &user(), &luna(), Some(41));
    assert!(matches!(res, Err(ContractError::Asset(_))));
    assert_eq!(position.unlocked_assets.find(&luna()), Some(40));
}

#[test]
fn balancing_offers_half_the_value_difference() {
    let config = vault_config();
    let mut state = state_with(0, 0, vec![(luna(), 100), (usd(), 50)]);
    let out = balance(&config, &mut state, Decimal::from_ratio(2, 1), Decimal::one()).unwrap();
    match out {
        BalanceOutcome::Swapped { offer_primary, offer_amount, primary_amount, secondary_amount } => {
            assert!(offer_primary);
            assert_eq!(offer_amount, 37);
            assert_eq!(primary_amount, 100);
            assert_eq!(secondary_amount, 50);
        }
        BalanceOutcome::Balanced => panic!("expected a swap"),
    }
    assert_eq!(state.pending_rewards.find(&luna()), Some(63));

    let mut state = state_with(0, 0, vec![(luna(), 10), (usd(), 90)]);
    let out = balance(&config, &mut state, Decimal::one(), Decimal::one()).unwrap();
    match out {
        BalanceOutcome::Swapped { offer_primary, offer_amount, .. } => {
            assert!(!offer_primary);
            assert_eq!(offer_amount, 40);
        }
        BalanceOutcome::Balanced => panic!("expected a swap"),
    }
    assert_eq!(state.pending_rewards.find(&usd()), Some(50));
}

#[test]
fn balanced_rewards_are_left_alone() {
    let config = vault_config();
    let mut state = state_with(0, 0, vec![(luna(), 50), (usd(), 100)]);
    let out = balance(&config, &mut state, Decimal::from_ratio(2, 1), Decimal::one()).unwrap();
    assert!(matches!(out, BalanceOutcome::Balanced));
    assert_eq!(state.pending_rewards.find(&luna()), Some(50));
}

#[test]
fn cover_shortfall_is_the_debt_beyond_unlocked_secondary() {
    let config = vault_config();
    let state = state_with(0, 1000, vec![]);
    let short = position_with(0, 400, vec![(usd(), 50)]);
    assert_eq!(cover_shortfall(&config, &state, &short, 500), Some(150));
    let covered = position_with(0, 400, vec![(usd(), 300)]);
    assert_eq!(cover_shortfall(&config, &state, &covered, 500), None);
}

#[test]
fn cover_sells_one_unit_more_than_simulated_at_most_all() {
    let config = vault_config();
    let mut position = position_with(0, 0, vec![(luna(), 100)]);
    assert_eq!(cover(&config, &mut position, 40).unwrap(), 41);
    assert_eq!(position.unlocked_assets.find(&luna()), Some(59));
    assert_eq!(cover(&config, &mut position, 200).unwrap(), 59);
    assert_eq!(position.unlocked_assets.find(&luna()), None);
    let res = cover(&config, &mut position, u128::MAX);
    assert!(matches!(res, Err(ContractError::Overflow)));
}

#[test]
fn refund_takes_a_percentage_of_each_unlocked_asset() {
    let mut position = position_with(0, 0, vec![(luna(), 100), (usd(), 33), (lp(), 1)]);
    let refunded = refund(&mut position, Decimal::from_ratio(1, 2)).unwrap();
    assert_eq!(refunded.len(), 2);
    assert_eq!(refunded.find(&luna()), Some(50));
    assert_eq!(refunded.find(&usd()), Some(16));
    assert_eq!(refunded.find(&lp()), None);
    assert_eq!(position.unlocked_assets.find(&luna()), Some(50));
    assert_eq!(position.unlocked_assets.find(&usd()), Some(17));
    assert_eq!(position.unlocked_assets.find(&lp()), Some(1));

    let all = refund(&mut position, Decimal::one()).unwrap();
    assert_eq!(all.len(), 3);
    assert_eq!(position.unlocked_assets.len(), 0);
}

#[test]
fn partial_refund_and_what_is_kept_add_up_per_asset() {
    let mut position = position_with(0, 0, vec![(luna(), 7), (usd(), 3)]);
    let refunded = refund(&mut position, Decimal::from_ratio(3, 10)).unwrap();
    assert_eq!(refunded.find(&luna()), Some(2));
    assert_eq!(refunded.find(&usd()), None);
    assert_eq!(position.unlocked_assets.find(&luna()), Some(5));
    assert_eq!(position.unlocked_assets.find(&usd()), Some(3));
}

#[test]
fn health_is_asserted_against_the_limit() {
    let config = vault_config();
    let indebted = position_with(1, 10, vec![]);
    assert!(assert_health(&config, &indebted, Some(Decimal::from_ratio(1, 2))).is_ok());
    assert!(assert_health(&config, &indebted, Some(Decimal::from_ratio(65, 100))).is_ok());
    let res = assert_health(&config, &indebted, Some(Decimal::from_ratio(7, 10)));
    assert!(matches!(res, Err(ContractError::Unhealthy { ltv: Some(_) })));
    let res = assert_health(&config, &indebted, None);
    assert!(matches!(res, Err(ContractError::Unhealthy { ltv: None })));
    assert!(assert_health(&config, &Position::default(), None).is_ok());
}

#[test]
fn only_empty_positions_are_purged() {
    assert!(purge_storage(&Position::default()));
    assert!(!purge_storage(&position_with(1, 0, vec![])));
    assert!(!purge_storage(&position_with(0, 1, vec![])));
    assert!(!purge_storage(&position_with(0, 0, vec![(usd(), 1)])));
}

#[test]
fn units_of_two_users_add_up_to_the_vaults() {
    let config = vault_config();
    let mut state = State::default();
    let mut alice = position_with(0, 0, vec![(lp(), 100)]);
    let mut bob = position_with(0, 0, vec![(lp(), 30)]);
    bond(&config, &mut state, &mut alice, &user(), 0, &AssetList::new()).unwrap();
    bond(&config, &mut state, &mut bob, &user(), 100, &AssetList::new()).unwrap();
    assert_eq!(alice.bond_units + bob.bond_units, state.total_bond_units);
    unbond(&config, &mut state, &mut alice, 40_000_000, 130, &AssetList::new()).unwrap();
    assert_eq!(alice.bond_units + bob.bond_units, state.total_bond_units);
}
