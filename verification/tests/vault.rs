use martian_field::assets::{list_scale_fits, Asset, AssetInfo, AssetList, Coin};
use martian_field::closure::{check_purge, refund_batch, UserUnits};
use martian_field::execute::{
    check_callback_sender, contains_address, harvest, harvest_fee_fits, liquidate, reply_step,
    update_config, update_position, ReplyStep,
};
use martian_field::health::{
    compute_health, compute_position_health, compute_state_health, health_fits, Market,
};
use martian_field::math::{mul_decimal, multiply_ratio, Decimal, DECIMAL_FRACTIONAL};
use martian_field::queries::{page_limit, position_response, state_as_position, DEFAULT_LIMIT, MAX_LIMIT};
use martian_field::replies::{after_provide_liquidity, after_swap, after_withdraw_liquidity};
use martian_field::state::{Action, CallbackMsg, Config, ContractError, Pair, Position, State};

fn farm_config() -> Config {
    Config {
        primary_asset_info: AssetInfo::Native("uluna".to_string()),
        secondary_asset_info: AssetInfo::Native("uusd".to_string()),
        astro_token_info: AssetInfo::Cw20("astro_token".to_string()),
        primary_pair: Pair {
            contract_addr: "uluna_uusd_pair".to_string(),
            liquidity_token: "uluna_uusd_lp_token".to_string(),
        },
        astro_pair: Pair {
            contract_addr: "astro_uusd_pair".to_string(),
            liquidity_token: "astro_uusd_lp_token".to_string(),
        },
        astro_generator: "astro_generator".to_string(),
        red_bank: "red_bank".to_string(),
        oracle: "oracle".to_string(),
        treasury: "treasury".to_string(),
        governance: "governance".to_string(),
        operators: vec!["operator".to_string(), "keeper".to_string()],
        max_ltv: Decimal::from_ratio(65, 100),
        fee_rate: Decimal::from_ratio(5, 100),
        bonus_rate: Decimal::from_ratio(1, 100),
    }
}

fn native_info(denom: &str) -> AssetInfo {
    AssetInfo::Native(denom.to_string())
}

fn cw20_info(addr: &str) -> AssetInfo {
    AssetInfo::Cw20(addr.to_string())
}

fn list_of(assets: Vec<(AssetInfo, u128)>) -> AssetList {
    AssetList::from_assets(assets.into_iter().map(|(info, amount)| Asset { info, amount }).collect())
}

fn market() -> Market {
    Market {
        secondary_depth: 1000,
        share_supply: 100,
        total_bonded: 50,
        total_debt: 300,
        total_bond_units: 500,
        total_debt_units: 600,
    }
}

#[test]
fn actions_become_callbacks_in_order() {
    let config = farm_config();
    let alice = "alice".to_string();
    let actions = vec![
        Action::Deposit(Asset { info: cw20_info("token_x"), amount: 10 }),
        Action::Deposit(Asset { info: native_info("uluna"), amount: 0 }),
        Action::Bond { slippage_tolerance: None },
        Action::Unbond { bond_units_to_reduce: 5 },
        Action::Repay { amount: 3 },
        Action::Swap { offer_amount: 7, max_spread: None },
    ];
    let mut position = Position::default();
    let out = update_position(&config, &alice, &vec![], &actions, &mut position).unwrap();
    assert_eq!(out.pulls.len(), 1);
    assert_eq!(out.pulls[0].amount, 10);
    assert_eq!(out.deposits.len(), 1);
    assert_eq!(out.callbacks.len(), 9);
    assert!(matches!(out.callbacks[0], CallbackMsg::ProvideLiquidity { user_addr: Some(_), .. }));
    assert!(matches!(out.callbacks[1], CallbackMsg::Bond { user_addr: Some(_) }));
    assert!(matches!(out.callbacks[2], CallbackMsg::Unbond { bond_units_to_reduce: 5, .. }));
    assert!(matches!(out.callbacks[3], CallbackMsg::WithdrawLiquidity { .. }));
    assert!(matches!(out.callbacks[4], CallbackMsg::Repay { repay_amount: Some(3), .. }));
    assert!(matches!(out.callbacks[5], CallbackMsg::Swap { offer_amount: Some(7), .. }));
    assert!(matches!(out.callbacks[6], CallbackMsg::Refund { .. }));
    assert!(matches!(out.callbacks[7], CallbackMsg::AssertHealth { .. }));
    assert!(matches!(out.callbacks[8], CallbackMsg::PurgeStorage { .. }));
    assert_eq!(position.unlocked_assets.find(&cw20_info("token_x")), Some(10));
    assert_eq!(position.unlocked_assets.len(), 1);
}

#[test]
fn harvest_charges_fees_and_reinvests_the_rest() {
    let config = farm_config();
    let mut state = State::default();
    let rewards = list_of(vec![(cw20_info("astro_token"), 1000)]);
    let out = harvest(&config, &mut state, &"keeper".to_string(), &rewards, None, None).unwrap();
    assert!(out.claim_rewards);
    assert_eq!(out.fees.len(), 1);
    assert_eq!(out.fees.find(&cw20_info("astro_token")), Some(50));
    assert_eq!(state.pending_rewards.find(&cw20_info("astro_token")), Some(950));
    assert_eq!(out.callbacks.len(), 4);
    assert!(matches!(out.callbacks[0], CallbackMsg::Swap { user_addr: None, offer_amount: Some(950), .. }));
    assert!(matches!(out.callbacks[1], CallbackMsg::Balance { .. }));
    assert!(matches!(out.callbacks[2], CallbackMsg::ProvideLiquidity { user_addr: None, .. }));
    assert!(matches!(out.callbacks[3], CallbackMsg::Bond { user_addr: None }));
}

#[test]
fn harvest_without_rewards_reinvests_pending_only() {
    let config = farm_config();
    let mut state = State {
        total_bond_units: 0,
        total_debt_units: 0,
        pending_rewards: list_of(vec![(native_info("uusd"), 200)]),
    };
    let out = harvest(&config, &mut state, &"operator".to_string(), &AssetList::new(), None, None).unwrap();
    assert!(!out.claim_rewards);
    assert_eq!(out.fees.find(&native_info("uusd")), Some(10));
    assert_eq!(state.pending_rewards.find(&native_info("uusd")), Some(190));
    assert_eq!(out.callbacks.len(), 3);
}

#[test]
fn only_operators_may_harvest() {
    let config = farm_config();
    let mut state = State::default();
    let res = harvest(&config, &mut state, &"mallory".to_string(), &AssetList::new(), None, None);
    assert!(matches!(res, Err(ContractError::NotOperator)));
    assert_eq!(res.err().unwrap().message(), "caller is not a whitelisted operator");
}

#[test]
fn only_unhealthy_open_positions_are_liquidated() {
    let config = farm_config();
    let position = Position { bond_units: 77, debt_units: 5, unlocked_assets: AssetList::new() };
    let alice = "alice".to_string();
    let bob = "bob".to_string();
    let res = liquidate(&config, &position, &alice, &bob, None);
    assert!(matches!(res, Err(ContractError::PositionClosed)));
    let res = liquidate(&config, &position, &alice, &bob, Some(Decimal::from_ratio(65, 100)));
    assert!(matches!(res, Err(ContractError::PositionHealthy)));
    let callbacks = liquidate(&config, &position, &alice, &bob, Some(Decimal::from_ratio(7, 10))).unwrap();
    assert_eq!(callbacks.len(), 8);
    assert!(matches!(callbacks[0], CallbackMsg::Unbond { bond_units_to_reduce: 77, .. }));
    assert!(matches!(callbacks[2], CallbackMsg::Cover { .. }));
    assert!(matches!(callbacks[3], CallbackMsg::Repay { repay_amount: None, .. }));
    match &callbacks[4] {
        CallbackMsg::Refund { recipient_addr, percentage, .. } => {
            assert_eq!(recipient_addr, "bob");
            assert_eq!(*percentage, Decimal::from_ratio(1, 100));
        }
        other => panic!("unexpected callback {:?}", other),
    }
    match &callbacks[5] {
        CallbackMsg::Refund { recipient_addr, percentage, .. } => {
            assert_eq!(recipient_addr, "alice");
            assert_eq!(*percentage, Decimal::one());
        }
        other => panic!("unexpected callback {:?}", other),
    }
    assert!(matches!(callbacks[6], CallbackMsg::ClearBadDebt { .. }));
    assert!(matches!(callbacks[7], CallbackMsg::PurgeStorage { .. }));
}

#[test]
fn only_governance_updates_the_config() {
    let config = farm_config();
    let mut new_config = farm_config();
    new_config.treasury = "new_treasury".to_string();
    let updated = update_config(&config, &"governance".to_string(), new_config, Ok(())).unwrap();
    assert_eq!(updated.treasury, "new_treasury");
    let res = update_config(&config, &"alice".to_string(), farm_config(), Ok(()));
    assert!(matches!(res, Err(ContractError::NotGovernance)));
    let refused = Err("invalid max_ltv".to_string());
    let err = update_config(&config, &"governance".to_string(), farm_config(), refused).err().unwrap();
    assert!(matches!(err, ContractError::InvalidConfig { .. }));
    assert_eq!(err.message(), "invalid max_ltv");
}

#[test]
fn callbacks_only_from_the_vault_itself() {
    let contract = "cosmos2contract".to_string();
    assert!(check_callback_sender(&contract, &contract).is_ok());
    let res = check_callback_sender(&"alice".to_string(), &contract);
    assert!(matches!(res, Err(ContractError::ExternalCallback)));
}

#[test]
fn reply_identifiers_select_the_step() {
    assert_eq!(reply_step(0).unwrap(), ReplyStep::AfterProvideLiquidity);
    assert_eq!(reply_step(1).unwrap(), ReplyStep::AfterWithdrawLiquidity);
    assert_eq!(reply_step(2).unwrap(), ReplyStep::AfterSwap);
    let err = reply_step(3).err().unwrap();
    assert!(matches!(err, ContractError::InvalidReplyId { id: 3 }));
    assert_eq!(err.message(), "invalid reply id: 3");
}

#[test]
fn operator_lookup() {
    let operators = vec!["operator".to_string(), "keeper".to_string()];
    assert!(contains_address(&operators, &"keeper".to_string()));
    assert!(!contains_address(&operators, &"kee".to_string()));
    assert!(!contains_address(&vec![], &"keeper".to_string()));
}

#[test]
fn minted_tokens_go_to_the_cached_user_or_the_vault() {
    let config = farm_config();
    let mut state = State::default();
    let mut position = Position::default();
    after_provide_liquidity(&config, &mut state, &mut position, &Some("alice".to_string()), 12).unwrap();
    assert_eq!(position.unlocked_assets.find(&cw20_info("uluna_uusd_lp_token")), Some(12));
    after_provide_liquidity(&config, &mut state, &mut position, &None, 8).unwrap();
    assert_eq!(state.pending_rewards.find(&cw20_info("uluna_uusd_lp_token")), Some(8));
    assert_eq!(position.unlocked_assets.find(&cw20_info("uluna_uusd_lp_token")), Some(12));
}

#[test]
fn withdrawn_and_swapped_assets_are_credited() {
    let mut state = State::default();
    let mut position = Position::default();
    let luna = Asset { info: native_info("uluna"), amount: 30 };
    let usd = Asset { info: native_info("uusd"), amount: 60 };
    after_withdraw_liquidity(&mut position, &luna, &usd).unwrap();
    assert_eq!(position.unlocked_assets.find(&native_info("uluna")), Some(30));
    assert_eq!(position.unlocked_assets.find(&native_info("uusd")), Some(60));
    let more_usd = Asset { info: native_info("uusd"), amount: 5 };
    after_swap(&mut state, &mut position, &Some("alice".to_string()), &more_usd).unwrap();
    assert_eq!(position.unlocked_assets.find(&native_info("uusd")), Some(65));
    after_swap(&mut state, &mut position, &None, &more_usd).unwrap();
    assert_eq!(state.pending_rewards.find(&native_info("uusd")), Some(5));
    let overflow = Asset { info: native_info("uusd"), amount: u128::MAX };
    let res = after_swap(&mut state, &mut position, &None, &overflow);
    assert!(matches!(res, Err(ContractError::Asset(_))));
}

#[test]
fn position_health_values_bond_and_debt() {
    let h = compute_health(market(), 100, 200);
    assert_eq!(h.bond_amount, 10);
    assert_eq!(h.bond_value, 200);
    assert_eq!(h.debt_amount, 100);
    assert_eq!(h.debt_value, 100);
    assert_eq!(h.ltv, Some(Decimal::from_ratio(1, 2)));
    let p = compute_position_health(market(), 100, 200);
    assert_eq!(p.ltv, h.ltv);
}

#[test]
fn state_health_values_everything_bonded() {
    let h = compute_state_health(market());
    assert_eq!(h.bond_amount, 50);
    assert_eq!(h.bond_value, 1000);
    assert_eq!(h.debt_amount, 300);
    assert_eq!(h.ltv, Some(Decimal::from_ratio(3, 10)));
}

#[test]
fn positions_without_bond_have_no_ltv() {
    let h = compute_health(market(), 0, 200);
    assert_eq!(h.bond_amount, 0);
    assert_eq!(h.bond_value, 0);
    assert_eq!(h.debt_amount, 100);
    assert_eq!(h.ltv, None);
}

#[test]
fn page_limits_are_capped() {
    assert_eq!(page_limit(None), DEFAULT_LIMIT as usize);
    assert_eq!(page_limit(Some(5)), 5);
    assert_eq!(page_limit(Some(100)), MAX_LIMIT as usize);
}

#[test]
fn position_query_reports_health_and_assets() {
    let position = Position {
        bond_units: 100,
        debt_units: 200,
        unlocked_assets: list_of(vec![(native_info("uusd"), 4)]),
    };
    let health = compute_health(market(), 100, 200);
    let res = position_response(&position, &health);
    assert_eq!(res.bond_units, 100);
    assert_eq!(res.bond_value, 200);
    assert_eq!(res.debt_amount, 100);
    assert_eq!(res.ltv, Some(Decimal::from_ratio(1, 2)));
    assert_eq!(res.unlocked_assets.find(&native_info("uusd")), Some(4));

    let state = State {
        total_bond_units: 500,
        total_debt_units: 600,
        pending_rewards: list_of(vec![(native_info("uluna"), 9)]),
    };
    let as_position = state_as_position(&state);
    assert_eq!(as_position.bond_units, 500);
    assert_eq!(as_position.debt_units, 600);
    assert_eq!(as_position.unlocked_assets.find(&native_info("uluna")), Some(9));
}

#[test]
fn closing_refunds_users_by_bond_units() {
    let mut primary = 1000u128;
    let mut secondary = 600u128;
    let mut units = 100u128;
    let users = vec![
        UserUnits { user: "alice".to_string(), bond_units: 30 },
        UserUnits { user: "bob".to_string(), bond_units: 70 },
    ];
    let refunds = refund_batch(&mut primary, &mut secondary, &mut units, &users);
    assert_eq!(refunds.len(), 2);
    assert_eq!(refunds[0].user, "alice");
    assert_eq!((refunds[0].primary_refunded, refunds[0].secondary_refunded), (300, 180));
    assert_eq!((refunds[1].primary_refunded, refunds[1].secondary_refunded), (700, 420));
    assert_eq!((primary, secondary, units), (0, 0, 0));
    assert!(check_purge(units).is_ok());
}

#[test]
fn closing_in_batches_keeps_what_is_left() {
    let mut primary = 1001u128;
    let mut secondary = 7u128;
    let mut units = 3u128;
    let first = vec![UserUnits { user: "alice".to_string(), bond_units: 1 }];
    let refunds = refund_batch(&mut primary, &mut secondary, &mut units, &first);
    assert_eq!((refunds[0].primary_refunded, refunds[0].secondary_refunded), (333, 2));
    assert_eq!((primary, secondary, units), (668, 5, 2));
    let res = check_purge(units);
    assert!(matches!(res, Err(ContractError::RefundsPending)));
    assert_eq!(
        res.err().unwrap().message(),
        "can only purge after all positions have been refunded"
    );
    let rest = vec![UserUnits { user: "bob".to_string(), bond_units: 2 }];
    let refunds = refund_batch(&mut primary, &mut secondary, &mut units, &rest);
    assert_eq!((refunds[0].primary_refunded, refunds[0].secondary_refunded), (668, 5));
    assert_eq!((primary, secondary, units), (0, 0, 0));
}

#[test]
fn ratio_arithmetic_rounds_down() {
    assert_eq!(multiply_ratio(10, 3, 4), 7);
    assert_eq!(multiply_ratio(u128::MAX, 2, 4), u128::MAX / 2);
    assert_eq!(mul_decimal(100, Decimal::from_ratio(65, 100)), 65);
    assert_eq!(mul_decimal(7, Decimal::from_ratio(1, 2)), 3);
    assert_eq!(Decimal::from_ratio(1, 3).atomics, 333_333_333_333_333_333);
    assert_eq!(Decimal::one().atomics, DECIMAL_FRACTIONAL);
    assert_eq!(Decimal::zero().atomics, 0);
    assert_eq!(Decimal::raw(5).atomics, 5);
}

#[test]
fn refusal_messages() {
    let unhealthy = ContractError::Unhealthy { ltv: Some(Decimal::from_ratio(7, 10)) };
    assert_eq!(unhealthy.message(), "ltv greater than threshold: 0.7");
    let closed = ContractError::Unhealthy { ltv: None };
    assert_eq!(closed.message(), "ltv greater than threshold: null");
    let whole = ContractError::Unhealthy { ltv: Some(Decimal::from_ratio(3, 2)) };
    assert_eq!(whole.message(), "ltv greater than threshold: 1.5");
    let offer = ContractError::InvalidOfferAsset { offer_asset_info: cw20_info("abc") };
    assert_eq!(offer.message(), "invalid offer asset: cw20:abc");
    assert_eq!(ContractError::Overflow.message(), "overflow");
    assert_eq!(ContractError::PositionClosed.message(), "position is already closed");
    assert_eq!(ContractError::PositionHealthy.message(), "position is healthy");
    assert_eq!(ContractError::NotGovernance.message(), "only governance can update config");
    assert_eq!(ContractError::ExternalCallback.message(), "callbacks cannot be invoked externally");
    assert_eq!(ContractError::NoPrimaryAsset.message(), "no primary asset available");
    assert_eq!(ContractError::NoSecondaryAsset.message(), "no secondary asset available");
    assert_eq!(ContractError::NoUnlockedShares.message(), "no unlocked share token available");
    assert_eq!(ContractError::NoLiquidityToken.message(), "no liquidity token available");
    assert_eq!(ContractError::Unimplemented.message(), "unimplemented");
    assert_eq!(ContractError::NoDebt.message(), "no debt to repay");
    assert_eq!(ContractError::Unauthorized.message(), "unauthorized");
    assert_eq!(ContractError::InvalidLiquidityToken.message(), "invalid liquidity token");
    let extra = ContractError::ExtraFundsReceived {
        received: list_of(vec![(native_info("uatom"), 1), (cw20_info("tok"), 2)]),
    };
    assert_eq!(extra.message(), "extra funds received: native:uatom:1,cw20:tok:2");
}

#[test]
fn deposits_of_coins_must_match() {
    let config = farm_config();
    let alice = "alice".to_string();
    let funds = vec![Coin { denom: "uusd".to_string(), amount: 5 }];
    let actions = vec![Action::Deposit(Asset { info: native_info("uusd"), amount: 5 })];
    let mut position = Position::default();
    let out = update_position(&config, &alice, &funds, &actions, &mut position).unwrap();
    assert_eq!(out.deposits.len(), 1);
    assert_eq!(out.pulls.len(), 0);
    assert_eq!(out.callbacks.len(), 3);
    assert_eq!(position.unlocked_assets.find(&native_info("uusd")), Some(5));
}

#[test]
fn a_zero_deposit_changes_nothing() {
    let config = farm_config();
    let alice = "alice".to_string();
    let funds = vec![Coin { denom: "uusd".to_string(), amount: 5 }];
    let with_zero = vec![
        Action::Deposit(Asset { info: native_info("uluna"), amount: 0 }),
        Action::Deposit(Asset { info: native_info("uusd"), amount: 5 }),
    ];
    let without = vec![Action::Deposit(Asset { info: native_info("uusd"), amount: 5 })];
    let mut p1 = Position::default();
    let mut p2 = Position::default();
    let a = update_position(&config, &alice, &funds, &with_zero, &mut p1).unwrap();
    let b = update_position(&config, &alice, &funds, &without, &mut p2).unwrap();
    assert_eq!((a.deposits.len(), a.pulls.len(), a.callbacks.len()), (b.deposits.len(), b.pulls.len(), b.callbacks.len()));
    assert_eq!(p1.unlocked_assets.len(), p2.unlocked_assets.len());
    assert_eq!(p1.unlocked_assets.find(&native_info("uusd")), p2.unlocked_assets.find(&native_info("uusd")));
    assert_eq!(p1.unlocked_assets.find(&native_info("uluna")), None);
}

#[test]
fn fee_charges_that_would_overflow_are_found_before_harvesting() {
    let state = State::default();
    let rewards = list_of(vec![(cw20_info("astro_token"), 1000)]);
    assert!(harvest_fee_fits(&state, &rewards, Decimal::from_ratio(1, 20)));
    let huge = list_of(vec![(cw20_info("astro_token"), u128::MAX)]);
    assert!(!harvest_fee_fits(&state, &huge, Decimal::from_ratio(2, 1)));
    assert!(list_scale_fits(&huge, Decimal::one()));
    assert!(!list_scale_fits(&huge, Decimal::from_ratio(2, 1)));
}

#[test]
fn ltv_rounds_its_last_place_up() {
    let m = Market {
        secondary_depth: 75,
        share_supply: 100,
        total_bonded: 100,
        total_debt: 100,
        total_bond_units: 1,
        total_debt_units: 1,
    };
    let h = compute_position_health(m, 1, 1);
    assert_eq!((h.bond_value, h.debt_value), (150, 100));
    assert_eq!(h.ltv.unwrap().atomics, 666_666_666_666_666_667);
    assert!(health_fits(m, 1, 1));
    let broken = Market { share_supply: 0, ..m };
    assert!(!health_fits(broken, 1, 1));
}
