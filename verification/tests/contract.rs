use martian_field::assets::{Asset, AssetInfo, AssetList, Coin};
use martian_field::execute::update_position;
use martian_field::math::Decimal;
use martian_field::state::{Action, Config, Pair, Position};

fn mock_config() -> Config {
    Config {
        primary_asset_info: AssetInfo::Native("uluna".to_string()),
        secondary_asset_info: AssetInfo::Native("uusd".to_string()),
        astro_token_info: AssetInfo::Cw20("astro_token".to_string()),
        primary_pair: Pair {
            contract_addr: "uluna_uusd_pair".to_string(),
            liquidity_token: "uluna_uusd_lp_token".to_string(),
        },
        astro_pair: Pair {
            contract_addr: "astro_uusd_pair".to_string(),
            liquidity_token: "astro_uusd_lp_token".to_string(),
        },
        astro_generator: "astro_generator".to_string(),
        red_bank: "red_bank".to_string(),
        oracle: "oracle".to_string(),
        treasury: "treasury".to_string(),
        governance: "governance".to_string(),
        operators: vec!["operator".to_string()],
        max_ltv: Decimal::from_ratio(65, 100),
        fee_rate: Decimal::from_ratio(5, 100),
        bonus_rate: Decimal::from_ratio(1, 100),
    }
}

fn coin(amount: u128, denom: &str) -> Coin {
    Coin { denom: denom.to_string(), amount }
}

fn native(denom: &str, amount: u128) -> Asset {
    Asset { info: AssetInfo::Native(denom.to_string()), amount }
}

#[test]
fn handling_native_deposits() {
    let config = mock_config();
    let alice = "alice".to_string();

    // missing fund
    let deposits = vec![coin(12345, "uluna")];
    let actions = vec![
        Action::Deposit(native("uluna", 12345)),
        Action::Deposit(native("uusd", 67890)),
    ];
    let mut position = Position::default();
    let res = update_position(&config, &alice, &deposits, &actions, &mut position);
    assert_eq!(
        res.err().map(|e| e.message()),
        Some("sent fund mismatch! expected: native:uusd:67890, received 0".to_string())
    );

    // fund amount mismatch
    let deposits = vec![coin(12345, "uluna"), coin(69420, "uusd")];
    let actions = vec![
        Action::Deposit(native("uluna", 12345)),
        Action::Deposit(native("uusd", 67890)),
    ];
    let mut position = Position::default();
    let res = update_position(&config, &alice, &deposits, &actions, &mut position);
    assert_eq!(
        res.err().map(|e| e.message()),
        Some("sent fund mismatch! expected: native:uusd:67890, received 69420".to_string())
    );

    // extra fund
    let deposits = vec![coin(12345, "uluna"), coin(69420, "uusd"), coin(88888, "uatom")];
    let actions = vec![
        Action::Deposit(native("uluna", 12345)),
        Action::Deposit(native("uusd", 69420)),
    ];
    let mut position = Position::default();
    let res = update_position(&config, &alice, &deposits, &actions, &mut position);
    assert_eq!(
        res.err().map(|e| e.message()),
        Some("extra funds received: native:uatom:88888".to_string())
    );
}

#[test]
fn matching_deposits_are_credited_and_closed_with_refund() {
    let config = mock_config();
    let alice = "alice".to_string();
    let deposits = vec![coin(12345, "uluna"), coin(69420, "uusd")];
    let actions = vec![
        Action::Deposit(native("uluna", 12345)),
        Action::Deposit(native("uusd", 69420)),
        Action::Borrow { amount: 100 },
    ];
    let mut position = Position::default();
    let out = update_position(&config, &alice, &deposits, &actions, &mut position).unwrap();
    assert_eq!(out.deposits.len(), 2);
    assert_eq!(out.pulls.len(), 0);
    assert_eq!(out.callbacks.len(), 4);
    assert_eq!(position.unlocked_assets.find(&AssetInfo::Native("uluna".to_string())), Some(12345));
    assert_eq!(position.unlocked_assets.find(&AssetInfo::Native("uusd".to_string())), Some(69420));
    let _ = AssetList::new();
}
