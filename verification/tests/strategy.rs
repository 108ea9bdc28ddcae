use martian_field::math::Decimal;
use martian_field::state::ContractError;
use martian_field::assets::Coin;
use martian_field::strategy::{
    add_tax, bond, borrow, check_harvester, check_owner, claim_collateral, compute_ltv,
    compute_swap_return_amount, deduct_tax, first_reward_info, increase_position, liquidate,
    parse_ust_received, pay_debt, reduce_units, refund, remove_liquidity, repay, staking_kind,
    swap_reward, unbond, ust_debt, IncreaseStep, LiquidationPlan, Position, RewardInfo,
    StakingKind, State, TaxInfo,
};

fn terra_tax() -> TaxInfo {
    TaxInfo { rate: Decimal::from_ratio(1, 1000), cap: 1_000_000 }
}

fn strategy_position(debt_units: u128, unbonded_ust_amount: u128, unbonded_asset_amount: u128) -> Position {
    Position { bond_units: 0, debt_units, unbonded_ust_amount, unbonded_asset_amount }
}

#[test]
fn tax_is_deducted_from_ust_only() {
    let tax = terra_tax();
    assert_eq!(deduct_tax(1_000_000, &"uusd".to_string(), tax), 999_000);
    assert_eq!(deduct_tax(1_000_000, &"uluna".to_string(), tax), 1_000_000);
    let capped = TaxInfo { rate: Decimal::from_ratio(1, 1000), cap: 500 };
    assert_eq!(deduct_tax(1_000_000, &"uusd".to_string(), capped), 999_500);
    assert_eq!(deduct_tax(0, &"uusd".to_string(), tax), 0);
}

#[test]
fn tax_is_added_on_top() {
    let tax = terra_tax();
    assert_eq!(add_tax(1_000_000, &"uusd".to_string(), tax), 1_001_000);
    assert_eq!(add_tax(1_000_000, &"uluna".to_string(), tax), 1_000_000);
    assert_eq!(add_tax(1_000_000, &"luna".to_string(), tax), 1_001_000);
    let capped = TaxInfo { rate: Decimal::from_ratio(1, 1000), cap: 500 };
    assert_eq!(add_tax(1_000_000, &"uusd".to_string(), capped), 1_000_500);
}

#[test]
fn swap_return_follows_the_constant_product() {
    assert_eq!(compute_swap_return_amount(1000, 1_000_000, 2_000_000, terra_tax()), 1992);
    let no_tax = TaxInfo { rate: Decimal::zero(), cap: 0 };
    assert_eq!(compute_swap_return_amount(1000, 1_000_000, 2_000_000, no_tax), 1994);
}

#[test]
fn increasing_borrows_the_missing_ust() {
    let plan = increase_position(100, 150, 2000, 1000, terra_tax());
    assert_eq!((plan.ust_to_borrow, plan.ust_to_provide), (50, 199));
    assert_eq!(
        plan.steps,
        vec![
            IncreaseStep::Borrow { amount: 50 },
            IncreaseStep::DrawAsset { amount: 100 },
            IncreaseStep::ProvideLiquidity { asset_amount: 100, ust_amount: 199 },
        ]
    );
    let plan = increase_position(100, 250, 2000, 1000, terra_tax());
    assert_eq!((plan.ust_to_borrow, plan.ust_to_provide), (0, 250));
    assert_eq!(
        plan.steps,
        vec![
            IncreaseStep::DrawAsset { amount: 100 },
            IncreaseStep::ProvideLiquidity { asset_amount: 100, ust_amount: 250 },
        ]
    );
}

#[test]
fn rewards_are_split_after_the_fee() {
    let split = swap_reward(1000, Decimal::from_ratio(2, 10), true, 1_000_000, 2_000_000, terra_tax()).unwrap();
    assert_eq!(split.fee_amount, 200);
    assert_eq!(split.reward_amount_after_fee, 800);
    assert_eq!(split.reward_to_swap, 400);
    assert_eq!(split.asset_to_provide, 400);
    assert_eq!(split.ust_to_provide, 797);
    let odd = swap_reward(801, Decimal::zero(), true, 1_000_000, 2_000_000, terra_tax()).unwrap();
    assert_eq!((odd.reward_to_swap, odd.asset_to_provide), (400, 401));
    let res = swap_reward(1000, Decimal::from_ratio(2, 10), false, 1_000_000, 2_000_000, terra_tax());
    assert!(matches!(res, Err(ContractError::Unimplemented)));
}

#[test]
fn removed_liquidity_repays_debt_first() {
    let mut position = strategy_position(100, 0, 0);
    let state = State { total_bond_units: 0, total_debt_units: 1000 };
    let removal = remove_liquidity(&mut position, &state, 10, 2000, 1000, 100, 500, terra_tax());
    assert_eq!(removal.ust_released, 200);
    assert_eq!(removal.asset_released, 100);
    assert_eq!(removal.ust_to_repay, 50);
    assert_eq!(removal.ust_to_refund, 149);
    assert_eq!(position.unbonded_asset_amount, 100);
    assert_eq!(position.unbonded_ust_amount, 149);
    assert_eq!(position.debt_units, 100);
}

#[test]
fn removed_liquidity_without_debt_is_all_refunded() {
    let mut position = strategy_position(0, 1, 2);
    let state = State { total_bond_units: 0, total_debt_units: 0 };
    let removal = remove_liquidity(&mut position, &state, 10, 2000, 1000, 100, 500, terra_tax());
    assert_eq!(removal.ust_to_repay, 0);
    assert_eq!(removal.ust_to_refund, 199);
    assert_eq!(position.unbonded_ust_amount, 200);
    assert_eq!(position.unbonded_asset_amount, 102);
}

#[test]
fn repaying_reduces_debt_units_in_proportion() {
    let mut state = State { total_bond_units: 0, total_debt_units: 1000 };
    let mut position = strategy_position(400, 0, 0);
    let out = repay(&mut state, &mut position, 101, 500, terra_tax()).unwrap();
    assert_eq!(out.ust_repaid, 100);
    assert_eq!(out.debt_units_reduced, 200);
    assert!(!out.position_deleted);
    assert_eq!(state.total_debt_units, 800);
    assert_eq!(position.debt_units, 200);
}

#[test]
fn repaying_more_than_the_whole_debt_clears_the_position() {
    let mut state = State { total_bond_units: 0, total_debt_units: 1000 };
    let mut position = strategy_position(400, 0, 0);
    let out = repay(&mut state, &mut position, 1001, 500, terra_tax()).unwrap();
    assert_eq!(out.ust_repaid, 1000);
    assert_eq!(out.debt_units_reduced, 400);
    assert!(out.position_deleted);
    assert_eq!(state.total_debt_units, 600);
    assert_eq!(position.debt_units, 0);
}

#[test]
fn repaying_nothing_or_no_debt_is_refused() {
    let mut state = State { total_bond_units: 0, total_debt_units: 1000 };
    let mut position = strategy_position(400, 0, 0);
    let res = repay(&mut state, &mut position, 0, 500, terra_tax());
    let err = res.err().unwrap();
    assert!(matches!(err, ContractError::RepayZero));
    assert_eq!(err.message(), "repay amount must be greater than zero");
    let mut clean = Position::default();
    let res = repay(&mut state, &mut clean, 10, 500, terra_tax());
    assert!(matches!(res, Err(ContractError::NoDebt)));
}

#[test]
fn liquidators_claim_the_repaid_share_of_collateral() {
    let state = State { total_bond_units: 0, total_debt_units: 1000 };
    let mut position = strategy_position(400, 0, 300);
    assert_eq!(claim_collateral(&state, &mut position, 101, 500, terra_tax()), 150);
    assert_eq!(position.unbonded_asset_amount, 150);
    let mut position = strategy_position(400, 0, 300);
    assert_eq!(claim_collateral(&state, &mut position, 1001, 500, terra_tax()), 300);
    assert_eq!(position.unbonded_asset_amount, 0);
}

#[test]
fn strategy_liquidation_needs_an_unhealthy_or_closed_position() {
    let max_ltv = Decimal::from_ratio(6, 10);
    let active = Position { bond_units: 9, debt_units: 1, unbonded_ust_amount: 0, unbonded_asset_amount: 0 };
    let res = liquidate(&active, Some(Decimal::from_ratio(5, 10)), max_ltv);
    let err = res.err().unwrap();
    assert!(matches!(err, ContractError::CannotLiquidateHealthy));
    assert_eq!(err.message(), "cannot liquidate a healthy position");
    let plan = liquidate(&active, Some(Decimal::from_ratio(7, 10)), max_ltv).unwrap();
    assert_eq!(plan, LiquidationPlan { unbond_units: Some(9) });
    let closed = strategy_position(1, 0, 5);
    assert_eq!(liquidate(&closed, None, max_ltv).unwrap(), LiquidationPlan { unbond_units: None });
}

#[test]
fn strategy_refund_pays_out_unbonded_amounts() {
    let max_ltv = Decimal::from_ratio(6, 10);
    let mut position = strategy_position(0, 1_000_000, 55);
    let paid = refund(&mut position, 0, None, max_ltv, terra_tax()).unwrap();
    assert_eq!(paid, (55, 999_000));
    assert_eq!(position, Position::default());
    let mut indebted = strategy_position(3, 10, 10);
    let res = refund(&mut indebted, 10, Some(Decimal::from_ratio(7, 10)), max_ltv, terra_tax());
    let err = res.err().unwrap();
    assert!(matches!(err, ContractError::AboveLiquidationThreshold));
    assert_eq!(err.message(), "LTV above liquidation threshold");
    assert_eq!(indebted.unbonded_ust_amount, 10);
    let paid = refund(&mut indebted, 10, Some(Decimal::from_ratio(1, 10)), max_ltv, terra_tax()).unwrap();
    assert_eq!(paid, (10, 9));
}

#[test]
fn strategy_positions_report_activity() {
    let p = Position { bond_units: 1, debt_units: 0, unbonded_ust_amount: 0, unbonded_asset_amount: 0 };
    assert!(p.is_active());
    assert!(!p.is_empty());
    assert!(!Position::default().is_active());
    assert!(Position::default().is_empty());
}

fn sent(list: &[(&str, u128)]) -> Vec<Coin> {
    list.iter().map(|(denom, amount)| Coin { denom: denom.to_string(), amount: *amount }).collect()
}

#[test]
fn ust_received_is_the_first_uusd_coin() {
    assert_eq!(parse_ust_received(&sent(&[("uluna", 5), ("uusd", 7), ("uusd", 9)])), 7);
    assert_eq!(parse_ust_received(&sent(&[("uluna", 5)])), 0);
    assert_eq!(ust_debt(&sent(&[("uusd", 42)])), 42);
    assert_eq!(ust_debt(&vec![]), 0);
}

#[test]
fn reductions_default_to_all_units() {
    let p = Position { bond_units: 9, debt_units: 0, unbonded_ust_amount: 0, unbonded_asset_amount: 0 };
    assert_eq!(reduce_units(&p, None), 9);
    assert_eq!(reduce_units(&p, Some(3)), 3);
}

#[test]
fn debt_payments_go_to_the_named_user_or_the_sender() {
    let funds = sent(&[("uusd", 100)]);
    let sender = "alice".to_string();
    assert_eq!(pay_debt(None, &sender, &funds), ("alice".to_string(), 100));
    assert_eq!(pay_debt(Some("bob".to_string()), &sender, &funds), ("bob".to_string(), 100));
}

#[test]
fn harvesting_and_configuring_are_restricted() {
    let owner = "owner".to_string();
    assert!(check_harvester(&owner, &owner).is_ok());
    let res = check_harvester(&owner, &"op2".to_string());
    let err = res.err().unwrap();
    assert!(matches!(err, ContractError::NotOwner));
    assert_eq!(err.message(), "Unauthorized");
    assert!(check_owner(&owner, &owner).is_ok());
    assert!(matches!(check_owner(&owner, &"op1".to_string()), Err(ContractError::NotOwner)));
}

#[test]
fn strategy_bonding_credits_users_only() {
    let mut state = State { total_bond_units: 0, total_debt_units: 0 };
    let mut position = Position::default();
    assert_eq!(bond(&mut state, &mut position, true, 10, 0), 10_000_000);
    assert_eq!((state.total_bond_units, position.bond_units), (10_000_000, 10_000_000));
    assert_eq!(bond(&mut state, &mut position, true, 5, 10), 5_000_000);
    assert_eq!(state.total_bond_units, 15_000_000);
    assert_eq!(bond(&mut state, &mut position, false, 5, 15), 0);
    assert_eq!((state.total_bond_units, position.bond_units), (15_000_000, 15_000_000));
}

#[test]
fn strategy_unbonding_checks_the_units() {
    let mut state = State { total_bond_units: 1000, total_debt_units: 0 };
    let mut position = Position { bond_units: 200, debt_units: 0, unbonded_ust_amount: 0, unbonded_asset_amount: 0 };
    assert_eq!(unbond(&mut state, &mut position, 100, 500).unwrap(), 50);
    assert_eq!((state.total_bond_units, position.bond_units), (900, 100));
    let res = unbond(&mut state, &mut position, 300, 450);
    let err = res.err().unwrap();
    assert!(matches!(err, ContractError::Underflow { minuend: 100, subtrahend: 300 }));
    assert_eq!(err.message(), "Cannot subtract 300 from 100");
    assert_eq!((state.total_bond_units, position.bond_units), (900, 100));
}

#[test]
fn strategy_borrowing_charges_debt_units() {
    let mut state = State { total_bond_units: 0, total_debt_units: 0 };
    let mut position = Position::default();
    let err = borrow(&mut state, &mut position, 0, 0).err().unwrap();
    assert!(matches!(err, ContractError::BorrowZero));
    assert_eq!(err.message(), "borrow amount must be greater than zero");
    assert_eq!(borrow(&mut state, &mut position, 5, 0).unwrap(), 5_000_000);
    assert_eq!(borrow(&mut state, &mut position, 5, 10).unwrap(), 2_500_000);
    assert_eq!((state.total_debt_units, position.debt_units), (7_500_000, 7_500_000));
}

#[test]
fn staking_contracts_are_anchor_or_mirror() {
    assert_eq!(staking_kind(&"anchor".to_string()).unwrap(), StakingKind::Anchor);
    assert_eq!(staking_kind(&"mirror".to_string()).unwrap(), StakingKind::Mirror);
    let err = staking_kind(&"pylon".to_string()).err().unwrap();
    assert!(matches!(err, ContractError::InvalidStakingType));
    assert_eq!(err.message(), "Invalid staking contract type");
}

#[test]
fn reward_info_is_the_first_reported() {
    let infos = vec![
        RewardInfo { bond_amount: 10, pending_reward: 3 },
        RewardInfo { bond_amount: 99, pending_reward: 99 },
    ];
    assert_eq!(first_reward_info(&infos), RewardInfo { bond_amount: 10, pending_reward: 3 });
    assert_eq!(first_reward_info(&vec![]), RewardInfo { bond_amount: 0, pending_reward: 0 });
}

#[test]
fn adding_then_deducting_the_tax_gives_the_amount_back() {
    let tax = terra_tax();
    let uusd = "uusd".to_string();
    let sent = add_tax(1_000_000, &uusd, tax);
    assert_eq!(deduct_tax(sent, &uusd, tax), 1_000_000);
    let sent = add_tax(999, &uusd, tax);
    assert_eq!(deduct_tax(sent, &uusd, tax), 998);
    let capped = TaxInfo { rate: Decimal::from_ratio(1, 1000), cap: 500 };
    let sent = add_tax(1_000_000, &uusd, capped);
    assert_eq!(deduct_tax(sent, &uusd, capped), 1_000_000);
}

#[test]
fn strategy_ltv_values_bonded_tokens_at_the_pool() {
    let state = State { total_bond_units: 100, total_debt_units: 50 };
    let position = Position { bond_units: 50, debt_units: 25, unbonded_ust_amount: 0, unbonded_asset_amount: 0 };
    let (bond_value, debt_value, ltv) = compute_ltv(state, Some(position), 1000, 2000, 200, 100);
    assert_eq!((bond_value, debt_value, ltv), (100, 50, Some(Decimal::from_ratio(1, 2))));
    let (bond_value, debt_value, ltv) = compute_ltv(state, None, 1000, 2000, 200, 100);
    assert_eq!((bond_value, debt_value, ltv), (200, 100, Some(Decimal::from_ratio(1, 2))));
    let empty = Position::default();
    assert_eq!(compute_ltv(state, Some(empty), 1000, 2000, 200, 100), (0, 0, None));
}

#[test]
fn repaying_what_is_owed_or_more_clears_the_debt_units() {
    let mut state = State { total_bond_units: 0, total_debt_units: 1000 };
    let mut position = Position { bond_units: 0, debt_units: 100, unbonded_ust_amount: 0, unbonded_asset_amount: 0 };
    let out = repay(&mut state, &mut position, 12, 100, terra_tax()).unwrap();
    assert_eq!(out.ust_repaid, 11);
    assert_eq!(out.debt_units_reduced, 100);
    assert_eq!((state.total_debt_units, position.debt_units), (900, 0));
    assert!(out.position_deleted);
    let mut state = State { total_bond_units: 0, total_debt_units: 1000 };
    let mut position = Position { bond_units: 0, debt_units: 100, unbonded_ust_amount: 0, unbonded_asset_amount: 0 };
    let out = repay(&mut state, &mut position, 6, 100, terra_tax()).unwrap();
    assert_eq!((out.ust_repaid, out.debt_units_reduced), (5, 50));
    assert_eq!(position.debt_units, 50);
}
