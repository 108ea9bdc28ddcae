use martian_field::assets::{Asset, AssetInfo, Coin};
use martian_field::math::Decimal;
use martian_field::slots::{
    assert_health, bond, borrow, close_position, harvest, increase_position, liquidate,
    pay_debt, plan_provide, plan_reinvest, provide_liquidity, query_health, reduce_position,
    refund, reinvest, remove_liquidity, repay, unbond, update_config, FieldCallback,
    FieldConfig, FieldMarket, FieldPosition, FieldState, SlotTaxes,
};
use martian_field::state::ContractError;
use martian_field::strategy::TaxInfo;

fn field_config() -> FieldConfig {
    FieldConfig {
        long_asset: AssetInfo::Cw20("anc_token".to_string()),
        short_asset: AssetInfo::Native("uusd".to_string()),
        share_token: AssetInfo::Cw20("anc_ust_lp".to_string()),
        keepers: vec!["keeper".to_string()],
        governance: "governance".to_string(),
        max_ltv: Decimal::from_ratio(75, 100),
        fee_rate: Decimal::from_ratio(2, 10),
    }
}

fn ust_tax() -> TaxInfo {
    TaxInfo { rate: Decimal::from_ratio(1, 1000), cap: 1_000_000 }
}

fn slot_taxes() -> SlotTaxes {
    SlotTaxes { long: ust_tax(), short: ust_tax(), shares: ust_tax() }
}

fn anc(amount: u128) -> Asset {
    Asset { info: AssetInfo::Cw20("anc_token".to_string()), amount }
}

fn ust(amount: u128) -> Asset {
    Asset { info: AssetInfo::Native("uusd".to_string()), amount }
}

fn ust_coins(amount: u128) -> Vec<Coin> {
    vec![Coin { denom: "uusd".to_string(), amount }]
}

fn holding(long: u128, short: u128, shares: u128) -> FieldPosition {
    FieldPosition {
        bond_units: 0,
        debt_units: 0,
        unlocked_long: long,
        unlocked_short: short,
        unlocked_shares: shares,
    }
}

#[test]
fn increasing_borrows_the_short_asset_missing_at_the_pool_price() {
    let config = field_config();
    let mut position = FieldPosition::new();
    let user = "alice".to_string();
    let out = increase_position(
        &config,
        &mut position,
        &user,
        &vec![anc(100), ust(150)],
        &ust_coins(150),
        1000,
        2000,
    )
    .unwrap();
    assert_eq!((out.long_deposited, out.short_deposited, out.short_to_borrow), (100, 150, 50));
    assert_eq!(out.pulls.len(), 1);
    assert_eq!(out.pulls[0].amount, 100);
    assert_eq!(out.callbacks.len(), 5);
    assert!(matches!(out.callbacks[0], FieldCallback::Borrow { amount: 50, .. }));
    assert!(matches!(out.callbacks[1], FieldCallback::ProvideLiquidity { .. }));
    assert!(matches!(out.callbacks[2], FieldCallback::Bond { .. }));
    assert!(matches!(out.callbacks[3], FieldCallback::AssertHealth { .. }));
    assert!(matches!(out.callbacks[4], FieldCallback::Snapshot { .. }));
    assert_eq!((position.unlocked_long, position.unlocked_short), (100, 150));
}

#[test]
fn increasing_with_enough_short_asset_borrows_nothing() {
    let config = field_config();
    let mut position = FieldPosition::new();
    let out = increase_position(
        &config,
        &mut position,
        &"alice".to_string(),
        &vec![ust(300), anc(100)],
        &ust_coins(300),
        1000,
        2000,
    )
    .unwrap();
    assert_eq!(out.short_to_borrow, 0);
    assert!(matches!(out.callbacks[0], FieldCallback::Borrow { amount: 0, .. }));
}

#[test]
fn increasing_without_the_coins_is_refused() {
    let config = field_config();
    let mut position = FieldPosition::new();
    let res = increase_position(
        &config,
        &mut position,
        &"alice".to_string(),
        &vec![anc(100), ust(150)],
        &ust_coins(149),
        1000,
        2000,
    );
    let err = res.err().unwrap();
    assert_eq!(err.message(), "sent fund mismatch! expected: native:uusd:150, received 149");
}

#[test]
fn reducing_lists_the_chosen_steps() {
    let user = "alice".to_string();
    let steps = reduce_position(&user, Some(10), true, false);
    assert_eq!(steps.len(), 5);
    assert!(matches!(steps[0], FieldCallback::Unbond { bond_units: Some(10), .. }));
    assert!(matches!(steps[1], FieldCallback::RemoveLiquidity { .. }));
    assert!(matches!(steps[2], FieldCallback::AssertHealth { .. }));
    match &steps[3] {
        FieldCallback::Refund { recipient, percentage, .. } => {
            assert_eq!(recipient, "alice");
            assert_eq!(*percentage, Decimal::one());
        }
        other => panic!("unexpected step {:?}", other),
    }
    assert!(matches!(steps[4], FieldCallback::Snapshot { .. }));
    let steps = reduce_position(&user, None, false, true);
    assert_eq!(steps.len(), 5);
    assert!(matches!(steps[0], FieldCallback::Unbond { bond_units: None, .. }));
    assert!(matches!(steps[1], FieldCallback::Repay { .. }));
    assert_eq!(reduce_position(&user, None, true, true).len(), 6);
}

#[test]
fn debt_is_paid_in_the_short_asset_only() {
    let config = field_config();
    let mut position = holding(0, 5, 0);
    let uusd = "uusd".to_string();
    let out = pay_debt(&config, &mut position, &"alice".to_string(), &ust(100), &ust_coins(100), &uusd).unwrap();
    assert_eq!(out.pulls.len(), 0);
    assert_eq!(out.callbacks.len(), 2);
    assert!(matches!(out.callbacks[0], FieldCallback::Repay { .. }));
    assert_eq!(position.unlocked_short, 105);
    let res = pay_debt(&config, &mut position, &"alice".to_string(), &anc(100), &vec![], &uusd);
    let err = res.err().unwrap();
    assert!(matches!(err, ContractError::MustDeposit { .. }));
    assert_eq!(err.message(), "must deposit uusd!");
    let res = pay_debt(&config, &mut position, &"alice".to_string(), &ust(100), &ust_coins(99), &uusd);
    assert!(res.is_err());
    assert_eq!(position.unlocked_short, 105);
}

#[test]
fn only_keepers_harvest() {
    let config = field_config();
    let contract = "field".to_string();
    let steps = harvest(&config, &"keeper".to_string(), &contract, 777).unwrap();
    assert_eq!(steps.len(), 3);
    assert!(matches!(steps[0], FieldCallback::Reinvest { amount: 777 }));
    match &steps[1] {
        FieldCallback::ProvideLiquidity { user } => assert_eq!(user, "field"),
        other => panic!("unexpected step {:?}", other),
    }
    let res = harvest(&config, &"alice".to_string(), &contract, 777);
    let err = res.err().unwrap();
    assert!(matches!(err, ContractError::KeepersOnly));
    assert_eq!(err.message(), "only whitelisted keepers can harvest!");
}

#[test]
fn only_unhealthy_active_positions_close() {
    let config = field_config();
    let user = "alice".to_string();
    let closed = FieldPosition::new();
    let err = close_position(&config, &closed, &user, None).err().unwrap();
    assert!(matches!(err, ContractError::AlreadyClosed));
    assert_eq!(err.message(), "position is already closed!");
    let active = FieldPosition { bond_units: 5, ..FieldPosition::new() };
    let res = close_position(&config, &active, &user, Some(Decimal::from_ratio(75, 100)));
    let err = res.err().unwrap();
    assert!(matches!(err, ContractError::HealthyLtv { .. }));
    assert_eq!(err.message(), "position is healthy! ltv: 0.75");
    let steps = close_position(&config, &active, &user, Some(Decimal::from_ratio(8, 10))).unwrap();
    assert_eq!(steps.len(), 3);
    assert!(matches!(steps[0], FieldCallback::Unbond { bond_units: None, .. }));
    assert!(matches!(steps[2], FieldCallback::Repay { .. }));
}

#[test]
fn liquidators_earn_the_share_they_repay() {
    let config = field_config();
    let state = FieldState { total_bond_units: 0, total_debt_units: 1000 };
    let user = "alice".to_string();
    let bob = "bob".to_string();
    let mut position = FieldPosition { debt_units: 400, ..FieldPosition::new() };
    let out = liquidate(&config, &state, &mut position, &user, &bob, &ust(101), &ust_coins(101), 500, ust_tax())
        .unwrap();
    assert_eq!(out.percentage, Decimal::from_ratio(1, 2));
    assert_eq!(position.unlocked_short, 101);
    assert_eq!(out.callbacks.len(), 2);
    match &out.callbacks[1] {
        FieldCallback::Refund { recipient, percentage, .. } => {
            assert_eq!(recipient, "bob");
            assert_eq!(*percentage, Decimal::from_ratio(1, 2));
        }
        other => panic!("unexpected step {:?}", other),
    }
    let mut position = FieldPosition { debt_units: 400, ..FieldPosition::new() };
    let out = liquidate(&config, &state, &mut position, &user, &bob, &ust(1001), &ust_coins(1001), 500, ust_tax())
        .unwrap();
    assert_eq!(out.percentage, Decimal::one());
}

#[test]
fn active_positions_and_other_assets_are_not_liquidated() {
    let config = field_config();
    let state = FieldState { total_bond_units: 10, total_debt_units: 1000 };
    let user = "alice".to_string();
    let bob = "bob".to_string();
    let mut active = FieldPosition { bond_units: 10, debt_units: 400, ..FieldPosition::new() };
    let res = liquidate(&config, &state, &mut active, &user, &bob, &ust(10), &ust_coins(10), 500, ust_tax());
    let err = res.err().unwrap();
    assert!(matches!(err, ContractError::PositionActive));
    assert_eq!(err.message(), "cannot liquidate an active position!");
    let mut closed = FieldPosition { debt_units: 400, ..FieldPosition::new() };
    let res = liquidate(&config, &state, &mut closed, &user, &bob, &anc(10), &vec![], 500, ust_tax());
    assert!(matches!(res, Err(ContractError::MustDepositShortAsset)));
}

#[test]
fn field_config_is_updated_by_governance_only() {
    let config = field_config();
    let mut next = field_config();
    next.max_ltv = Decimal::from_ratio(7, 10);
    let stored = update_config(&config, &"governance".to_string(), next).unwrap();
    assert_eq!(stored.max_ltv, Decimal::from_ratio(7, 10));
    let res = update_config(&config, &"alice".to_string(), field_config());
    let err = res.err().unwrap();
    assert!(matches!(err, ContractError::GovernanceOnly));
    assert_eq!(err.message(), "only governance can update config!");
}

#[test]
fn providing_liquidity_pays_the_tax_on_native_coins() {
    let config = field_config();
    let mut position = holding(1000, 1_000_000, 3);
    let plan = plan_provide(&config, &position, slot_taxes());
    assert_eq!((plan.long_provided, plan.long_cost), (1000, 1000));
    assert_eq!((plan.short_provided, plan.short_cost), (999_000, 999_999));
    provide_liquidity(&mut position, &plan, 77);
    assert_eq!((position.unlocked_long, position.unlocked_short, position.unlocked_shares), (0, 1, 80));
}

#[test]
fn removing_liquidity_burns_all_unlocked_shares() {
    let mut position = holding(1, 2, 77);
    assert_eq!(remove_liquidity(&mut position, 10, 20), 77);
    assert_eq!((position.unlocked_long, position.unlocked_short, position.unlocked_shares), (11, 22, 0));
}

#[test]
fn bonding_credits_units_except_to_the_farm_itself() {
    let alice = "alice".to_string();
    let farm = "field".to_string();
    let mut state = FieldState { total_bond_units: 0, total_debt_units: 0 };
    let mut position = holding(0, 0, 100);
    let done = bond(&mut state, &mut position, &alice, &farm, 0);
    assert_eq!((done.bond_amount, done.bond_units_added), (100, 100_000_000));
    assert_eq!(state.total_bond_units, 100_000_000);
    assert_eq!((position.bond_units, position.unlocked_shares), (100_000_000, 0));

    let mut state = FieldState { total_bond_units: 1000, total_debt_units: 0 };
    let mut position = holding(0, 0, 50);
    let done = bond(&mut state, &mut position, &alice, &farm, 500);
    assert_eq!(done.bond_units_added, 100);
    assert_eq!(state.total_bond_units, 1100);

    let mut vault = holding(0, 0, 50);
    let done = bond(&mut state, &mut vault, &farm, &farm, 550);
    assert_eq!((done.bond_amount, done.bond_units_added), (50, 0));
    assert_eq!(state.total_bond_units, 1100);
    assert_eq!((vault.bond_units, vault.unlocked_shares), (0, 0));
}

#[test]
fn unbonding_returns_the_units_share_of_bonded_shares() {
    let mut state = FieldState { total_bond_units: 1000, total_debt_units: 0 };
    let mut position = FieldPosition { bond_units: 200, ..FieldPosition::new() };
    let done = unbond(&mut state, &mut position, Some(100), 500);
    assert_eq!((done.bond_units_reduced, done.unbond_amount), (100, 50));
    assert_eq!((state.total_bond_units, position.bond_units, position.unlocked_shares), (900, 100, 50));
    let done = unbond(&mut state, &mut position, None, 450);
    assert_eq!((done.bond_units_reduced, done.unbond_amount), (100, 50));
    assert_eq!(position.bond_units, 0);
}

#[test]
fn bond_then_unbond_returns_no_more_than_bonded() {
    let alice = "alice".to_string();
    let farm = "field".to_string();
    let mut state = FieldState { total_bond_units: 1000, total_debt_units: 0 };
    let mut position = holding(0, 0, 33);
    let done = bond(&mut state, &mut position, &alice, &farm, 700);
    let back = unbond(&mut state, &mut position, Some(done.bond_units_added), 733);
    assert!(back.unbond_amount <= 33);
    assert_eq!(back.unbond_amount, 32);
}

#[test]
fn borrowing_credits_what_arrives_after_tax() {
    let config = field_config();
    let mut state = FieldState { total_bond_units: 0, total_debt_units: 0 };
    let mut position = FieldPosition::new();
    assert!(borrow(&config, &mut state, &mut position, 0, 0, ust_tax()).is_none());
    let done = borrow(&config, &mut state, &mut position, 1000, 0, ust_tax()).unwrap();
    assert_eq!((done.debt_units_added, done.amount_after_tax), (1_000_000_000, 999));
    assert_eq!((state.total_debt_units, position.debt_units, position.unlocked_short), (1_000_000_000, 1_000_000_000, 999));
    let done = borrow(&config, &mut state, &mut position, 500, 1000, ust_tax()).unwrap();
    assert_eq!(done.debt_units_added, 500_000_000);
}

#[test]
fn repaying_uses_what_arrives_up_to_the_debt() {
    let config = field_config();
    let mut state = FieldState { total_bond_units: 0, total_debt_units: 1000 };
    let mut position = FieldPosition { debt_units: 400, unlocked_short: 1001, ..FieldPosition::new() };
    let done = repay(&config, &mut state, &mut position, 500, ust_tax()).unwrap();
    assert_eq!((done.repay_amount, done.repay_cost, done.debt_units_reduced), (200, 200, 400));
    assert_eq!((state.total_debt_units, position.debt_units, position.unlocked_short), (600, 0, 801));
    assert!(repay(&config, &mut state, &mut position, 500, ust_tax()).is_none());

    let mut state = FieldState { total_bond_units: 0, total_debt_units: 1000 };
    let mut position = FieldPosition { debt_units: 400, unlocked_short: 101, ..FieldPosition::new() };
    let done = repay(&config, &mut state, &mut position, 500, ust_tax()).unwrap();
    assert_eq!((done.repay_amount, done.repay_cost, done.debt_units_reduced), (100, 100, 200));
    assert_eq!(position.unlocked_short, 1);
}

#[test]
fn refunding_sends_the_share_of_each_slot() {
    let config = field_config();
    let mut position = holding(100, 1_000_000, 3);
    let out = refund(&config, &mut position, Decimal::from_ratio(1, 2), slot_taxes());
    assert_eq!((out.long_refunded, out.short_refunded, out.shares_refunded), (50, 499_500, 1));
    assert_eq!((position.unlocked_long, position.unlocked_short, position.unlocked_shares), (50, 500_001, 2));
    assert_eq!(out.transfers.len(), 3);
    assert_eq!(out.transfers[1].amount, 499_500);

    let mut only_short = holding(0, 10, 0);
    let out = refund(&config, &mut only_short, Decimal::one(), slot_taxes());
    assert_eq!(out.transfers.len(), 1);
    assert_eq!(out.transfers[0].amount, 9);
    assert_eq!(only_short.unlocked_short, 1);
}

#[test]
fn reinvesting_charges_the_fee_and_keeps_half() {
    let config = field_config();
    let plan = plan_reinvest(&config, 1000, ust_tax());
    assert_eq!((plan.fee, plan.retain_amount, plan.offer_amount, plan.offer_after_tax), (200, 400, 400, 400));
    let odd = plan_reinvest(&config, 1001, ust_tax());
    assert_eq!((odd.fee, odd.retain_amount, odd.offer_amount), (200, 400, 401));
    let mut farm = FieldPosition::new();
    assert_eq!(reinvest(&config, &mut farm, &plan, 2000, ust_tax()), 1998);
    assert_eq!((farm.unlocked_long, farm.unlocked_short), (400, 1998));
}

#[test]
fn field_health_is_checked_against_the_limit() {
    let config = field_config();
    assert!(assert_health(&config, Some(Decimal::from_ratio(1, 2)), 10).is_ok());
    let res = assert_health(&config, Some(Decimal::from_ratio(8, 10)), 10);
    let err = res.err().unwrap();
    assert!(matches!(err, ContractError::LtvAboveThreshold { ltv: Some(_) }));
    assert_eq!(err.message(), "ltv is greater than threshold: 0.8");
    assert!(assert_health(&config, None, 0).is_ok());
    let err = assert_health(&config, None, 5).err().unwrap();
    assert!(matches!(err, ContractError::LtvAboveThreshold { ltv: None }));
    assert_eq!(err.message(), "ltv is greater than threshold: null");
}

#[test]
fn field_health_values_bond_and_debt() {
    let m = FieldMarket {
        short_depth: 1000,
        share_supply: 100,
        total_bond: 50,
        total_debt: 300,
        total_bond_units: 500,
        total_debt_units: 600,
    };
    let h = query_health(m, 100, 200);
    assert_eq!((h.bond_value, h.debt_value), (200, 100));
    assert_eq!(h.ltv, Some(Decimal::from_ratio(1, 2)));
    let whole = query_health(m, 500, 600);
    assert_eq!((whole.bond_value, whole.debt_value), (1000, 300));
    let empty = FieldMarket { total_bond_units: 0, ..m };
    let h = query_health(empty, 0, 200);
    assert_eq!((h.bond_value, h.debt_value, h.ltv), (0, 100, None));
}
