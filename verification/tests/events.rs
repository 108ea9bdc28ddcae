use martian_field::assets::AssetInfo;
use martian_field::events::{
    asset_with_label, find_attribute, parse_amount, split_amount, split_pair, withdrawn_amounts,
    Attribute,
};

fn attr(key: &str, value: &str) -> Attribute {
    Attribute { key: key.to_string(), value: value.to_string() }
}

#[test]
fn the_first_attribute_with_the_key_is_found() {
    let attrs = vec![attr("action", "swap"), attr("return_amount", "123"), attr("return_amount", "5")];
    assert_eq!(find_attribute(&attrs, &"return_amount".to_string()), Some("123".to_string()));
    assert_eq!(find_attribute(&attrs, &"share".to_string()), None);
    assert_eq!(find_attribute(&vec![], &"share".to_string()), None);
}

#[test]
fn amounts_are_read_in_decimal() {
    assert_eq!(parse_amount(&"123".to_string()), Some(123));
    assert_eq!(parse_amount(&"007".to_string()), Some(7));
    assert_eq!(parse_amount(&"+7".to_string()), Some(7));
    assert_eq!(parse_amount(&"".to_string()), None);
    assert_eq!(parse_amount(&"+".to_string()), None);
    assert_eq!(parse_amount(&"12a".to_string()), None);
    assert_eq!(parse_amount(&"-1".to_string()), None);
    assert_eq!(
        parse_amount(&"340282366920938463463374607431768211455".to_string()),
        Some(u128::MAX)
    );
    assert_eq!(parse_amount(&"340282366920938463463374607431768211456".to_string()), None);
}

#[test]
fn assets_are_read_as_amount_and_label() {
    assert_eq!(split_amount(&"100uluna".to_string()), Some((100, "uluna".to_string())));
    assert_eq!(split_amount(&"5".to_string()), Some((5, "".to_string())));
    assert_eq!(split_amount(&"uluna".to_string()), None);
    assert_eq!(split_amount(&"999999999999999999999999999999999999999999uusd".to_string()), None);
}

#[test]
fn pairs_split_at_the_first_separator() {
    assert_eq!(
        split_pair(&"100uluna, 200uusd".to_string()),
        Some(("100uluna".to_string(), "200uusd".to_string()))
    );
    assert_eq!(split_pair(&"a, b, c".to_string()), Some(("a".to_string(), "b, c".to_string())));
    assert_eq!(split_pair(&"a,b".to_string()), None);
    assert_eq!(split_pair(&"".to_string()), None);
}

#[test]
fn withdrawn_assets_are_matched_by_label() {
    let luna = AssetInfo::Native("uluna".to_string());
    let usd = AssetInfo::Native("uusd".to_string());
    assert_eq!(withdrawn_amounts(&"100uluna, 200uusd".to_string(), &luna, &usd), Some((100, 200)));
    assert_eq!(withdrawn_amounts(&"200uusd, 100uluna".to_string(), &luna, &usd), Some((100, 200)));
    assert_eq!(withdrawn_amounts(&"200uatom, 100uluna".to_string(), &luna, &usd), None);
    assert_eq!(withdrawn_amounts(&"100uluna".to_string(), &luna, &usd), None);
}

#[test]
fn assets_are_found_by_label() {
    let luna = AssetInfo::Native("uluna".to_string());
    let astro = AssetInfo::Cw20("astro_token".to_string());
    assert!(matches!(asset_with_label(&"uluna".to_string(), &luna, &astro), Some(AssetInfo::Native(_))));
    assert!(matches!(asset_with_label(&"astro_token".to_string(), &luna, &astro), Some(AssetInfo::Cw20(_))));
    assert!(asset_with_label(&"uusd".to_string(), &luna, &astro).is_none());
}
