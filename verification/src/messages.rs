//! The text of the vault's refusals, and the text forms of amounts, decimals and assets.

use vstd::prelude::*;

use crate::assets::{asset_list_entries, asset_list_text, Asset, AssetEntry, AssetInfo, AssetKey};
use crate::math::{Decimal, DECIMAL_FRACTIONAL};
use crate::state::ContractError;

verus! {

/// The character of a decimal digit.
pub open spec fn digit_char(d: nat) -> char {
    (48 + d) as char
}

/// A number written in decimal, without leading zeros.
pub open spec fn digits(n: nat) -> Seq<char>
    decreases n,
{
    if n < 10 {
        seq![digit_char(n)]
    } else {
        digits(n / 10) + seq![digit_char(n % 10)]
    }
}

/// Text with its trailing zeros removed.
pub open spec fn trim_trailing_zeros(s: Seq<char>) -> Seq<char>
    decreases s.len(),
{
    if s.len() > 0 && s.last() == '0' {
        trim_trailing_zeros(s.drop_last())
    } else {
        s
    }
}

/// Text with zeros added in front up to the given width.
pub open spec fn zero_padded(s: Seq<char>, width: nat) -> Seq<char> {
    if s.len() >= width {
        s
    } else {
        Seq::new((width - s.len()) as nat, |i: int| '0') + s
    }
}

/// A decimal with eighteen places written out: the whole part, and, when there is a fraction,
/// a point and the fraction's digits without trailing zeros.
pub open spec fn decimal_display(atomics: u128) -> Seq<char> {
    let whole = atomics / DECIMAL_FRACTIONAL;
    let fraction = atomics % DECIMAL_FRACTIONAL;
    if fraction == 0 {
        digits(whole as nat)
    } else {
        digits(whole as nat) + seq!['.'] + trim_trailing_zeros(zero_padded(digits(fraction as nat), 18))
    }
}

/// An asset kind written out: `native:` and the denom, or `cw20:` and the contract address.
pub open spec fn asset_info_display(key: AssetKey) -> Seq<char> {
    if key.0 {
        seq!['c', 'w', '2', '0', ':'] + key.1
    } else {
        seq!['n', 'a', 't', 'i', 'v', 'e', ':'] + key.1
    }
}

/// An asset written out: its kind, a colon and its amount.
pub open spec fn asset_display(e: AssetEntry) -> Seq<char> {
    asset_info_display((e.0, e.1)) + seq![':'] + digits(e.2 as nat)
}

/// Assets written out one after the other, separated by commas.
pub open spec fn joined_display(s: Seq<AssetEntry>) -> Seq<char>
    decreases s.len(),
{
    if s.len() == 0 {
        Seq::empty()
    } else if s.len() == 1 {
        asset_display(s[0])
    } else {
        joined_display(s.drop_last()) + seq![','] + asset_display(s.last())
    }
}

/// An asset list written out: `[]` when empty, otherwise its assets separated by commas.
pub open spec fn list_display(s: Seq<AssetEntry>) -> Seq<char> {
    if s.len() == 0 {
        seq!['[', ']']
    } else {
        joined_display(s)
    }
}

/// The text of one decimal digit.
fn digit_text(d: u128) -> (r: String)
    requires
        d < 10,
    ensures
        r@ == seq![digit_char(d as nat)],
{
    proof {
        reveal_strlit("0");
        reveal_strlit("1");
        reveal_strlit("2");
        reveal_strlit("3");
        reveal_strlit("4");
        reveal_strlit("5");
        reveal_strlit("6");
        reveal_strlit("7");
        reveal_strlit("8");
        reveal_strlit("9");
    }
    if d == 0 {
        String::from_str("0")
    } else if d == 1 {
        String::from_str("1")
    } else if d == 2 {
        String::from_str("2")
    } else if d == 3 {
        String::from_str("3")
    } else if d == 4 {
        String::from_str("4")
    } else if d == 5 {
        String::from_str("5")
    } else if d == 6 {
        String::from_str("6")
    } else if d == 7 {
        String::from_str("7")
    } else if d == 8 {
        String::from_str("8")
    } else {
        String::from_str("9")
    }
}

/// A number written in decimal, without leading zeros.
fn amount_text(n: u128) -> (r: String)
    ensures
        r@ == digits(n as nat),
    decreases n,
{
    if n < 10 {
        digit_text(n)
    } else {
        let mut s = amount_text(n / 10);
        let d = digit_text(n % 10);
        s.append(d.as_str());
        s
    }
}

/// Calls `Display` of `cosmwasm_std::Decimal`, which writes the whole part and, when there is
/// a fraction, a point and the fraction's digits without trailing zeros.
#[verifier::external_body]
fn decimal_text(d: Decimal) -> (r: String)
    ensures
        r@ == decimal_display(d.atomics),
{
    cosmwasm_std::Decimal::raw(d.atomics).to_string()
}

/// Calls `Display` of `cw_asset::AssetInfo`, which writes `native:` and the denom or `cw20:`
/// and the address.
#[verifier::external_body]
fn asset_info_text(info: &AssetInfo) -> (r: String)
    ensures
        r@ == asset_info_display(info.key()),
{
    match info {
        AssetInfo::Native(d) => cw_asset::AssetInfo::Native(d.clone()).to_string(),
        AssetInfo::Cw20(a) => cw_asset::AssetInfo::Cw20(cosmwasm_std::Addr::unchecked(a.clone())).to_string(),
    }
}

/// Calls `Display` of `cw_asset::Asset`, which writes the asset kind, a colon and the amount.
#[verifier::external_body]
fn asset_text(asset: &Asset) -> (r: String)
    ensures
        r@ == asset_display(asset.entry()),
{
    let info = match &asset.info {
        AssetInfo::Native(d) => cw_asset::AssetInfo::Native(d.clone()),
        AssetInfo::Cw20(a) => cw_asset::AssetInfo::Cw20(cosmwasm_std::Addr::unchecked(a.clone())),
    };
    cw_asset::Asset::new(info, asset.amount).to_string()
}

/// Calls `Display` of `cw_asset::AssetError`. What it writes is not stated.
#[verifier::external_body]
fn asset_error_text(e: &cw_asset::AssetError) -> (r: String) {
    e.to_string()
}

/// The text of a refusal; `None` for a refusal by an asset list, whose text is that list's.
pub open spec fn error_text(e: &ContractError) -> Option<Seq<char>> {
    match e {
        ContractError::Asset(_) => None,
        ContractError::Overflow => Some("overflow"@),
        ContractError::SentFundMismatch { expected, received } => Some(
            "sent fund mismatch! expected: "@ + asset_display(expected.entry()) + ", received "@
                + digits(*received as nat),
        ),
        ContractError::ExtraFundsReceived { received } => Some(
            "extra funds received: "@ + list_display(asset_list_entries(*received)),
        ),
        ContractError::NotOperator => Some("caller is not a whitelisted operator"@),
        ContractError::NotGovernance => Some("only governance can update config"@),
        ContractError::ExternalCallback => Some("callbacks cannot be invoked externally"@),
        ContractError::PositionClosed => Some("position is already closed"@),
        ContractError::PositionHealthy => Some("position is healthy"@),
        ContractError::Unhealthy { ltv } => Some(
            "ltv greater than threshold: "@ + match ltv {
                Some(l) => decimal_display(l.atomics),
                None => "null"@,
            },
        ),
        ContractError::NoPrimaryAsset => Some("no primary asset available"@),
        ContractError::NoSecondaryAsset => Some("no secondary asset available"@),
        ContractError::NoUnlockedShares => Some("no unlocked share token available"@),
        ContractError::NoLiquidityToken => Some("no liquidity token available"@),
        ContractError::InvalidOfferAsset { offer_asset_info } => Some(
            "invalid offer asset: "@ + asset_info_display(offer_asset_info.key()),
        ),
        ContractError::InvalidReplyId { id } => Some("invalid reply id: "@ + digits(*id as nat)),
        ContractError::RefundsPending => Some(
            "can only purge after all positions have been refunded"@,
        ),
        ContractError::Unimplemented => Some("unimplemented"@),
        ContractError::NoDebt => Some("no debt to repay"@),
        ContractError::Unauthorized => Some("unauthorized"@),
        ContractError::InvalidLiquidityToken => Some("invalid liquidity token"@),
        ContractError::PositionActive => Some("cannot liquidate an active position!"@),
        ContractError::MustDepositShortAsset => Some("must deposit short asset!"@),
        ContractError::InvalidStakingType => Some("Invalid staking contract type"@),
        ContractError::NoCoinsToBond => Some("No uluna assets are provided to bond"@),
        ContractError::KeepersOnly => Some("only whitelisted keepers can harvest!"@),
        ContractError::AlreadyClosed => Some("position is already closed!"@),
        ContractError::HealthyLtv { ltv } => Some(
            "position is healthy! ltv: "@ + decimal_display(ltv.atomics),
        ),
        ContractError::MustDeposit { denom } => Some("must deposit "@ + denom@ + "!"@),
        ContractError::GovernanceOnly => Some("only governance can update config!"@),
        ContractError::LtvAboveThreshold { ltv } => Some(
            "ltv is greater than threshold: "@ + match ltv {
                Some(l) => decimal_display(l.atomics),
                None => "null"@,
            },
        ),
        ContractError::NotOwner => Some("Unauthorized"@),
        ContractError::CannotLiquidateHealthy => Some("cannot liquidate a healthy position"@),
        ContractError::AboveLiquidationThreshold => Some("LTV above liquidation threshold"@),
        ContractError::BorrowZero => Some("borrow amount must be greater than zero"@),
        ContractError::RepayZero => Some("repay amount must be greater than zero"@),
        ContractError::InvalidConfig { reason } => Some(reason@),
        ContractError::Underflow { minuend, subtrahend } => Some(
            "Cannot subtract "@ + digits(*subtrahend as nat) + " from "@ + digits(*minuend as nat),
        ),
    }
}

impl ContractError {
    /// The text of this refusal.
    pub fn message(&self) -> (r: String)
        ensures
            error_text(self) matches Some(t) ==> r@ == t,
    {
        match self {
            ContractError::Asset(e) => asset_error_text(e),
            ContractError::Overflow => String::from_str("overflow"),
            ContractError::SentFundMismatch { expected, received } => {
                let mut s = String::from_str("sent fund mismatch! expected: ");
                s.append(asset_text(expected).as_str());
                s.append(", received ");
                s.append(amount_text(*received).as_str());
                s
            },
            ContractError::ExtraFundsReceived { received } => {
                let mut s = String::from_str("extra funds received: ");
                s.append(asset_list_text(received).as_str());
                s
            },
            ContractError::NotOperator => String::from_str("caller is not a whitelisted operator"),
            ContractError::NotGovernance => String::from_str("only governance can update config"),
            ContractError::ExternalCallback => String::from_str(
                "callbacks cannot be invoked externally",
            ),
            ContractError::PositionClosed => String::from_str("position is already closed"),
            ContractError::PositionHealthy => String::from_str("position is healthy"),
            ContractError::Unhealthy { ltv } => {
                let mut s = String::from_str("ltv greater than threshold: ");
                match ltv {
                    Some(l) => s.append(decimal_text(*l).as_str()),
                    None => s.append("null"),
                }
                s
            },
            ContractError::NoPrimaryAsset => String::from_str("no primary asset available"),
            ContractError::NoSecondaryAsset => String::from_str("no secondary asset available"),
            ContractError::NoUnlockedShares => String::from_str("no unlocked share token available"),
            ContractError::NoLiquidityToken => String::from_str("no liquidity token available"),
            ContractError::InvalidOfferAsset { offer_asset_info } => {
                let mut s = String::from_str("invalid offer asset: ");
                s.append(asset_info_text(offer_asset_info).as_str());
                s
            },
            ContractError::InvalidReplyId { id } => {
                let mut s = String::from_str("invalid reply id: ");
                s.append(amount_text(*id as u128).as_str());
                s
            },
            ContractError::RefundsPending => String::from_str(
                "can only purge after all positions have been refunded",
            ),
            ContractError::Unimplemented => String::from_str("unimplemented"),
            ContractError::NoDebt => String::from_str("no debt to repay"),
            ContractError::Unauthorized => String::from_str("unauthorized"),
            ContractError::InvalidLiquidityToken => String::from_str("invalid liquidity token"),
            ContractError::PositionActive => String::from_str("cannot liquidate an active position!"),
            ContractError::MustDepositShortAsset => String::from_str("must deposit short asset!"),
            ContractError::InvalidStakingType => String::from_str("Invalid staking contract type"),
            ContractError::NoCoinsToBond => String::from_str("No uluna assets are provided to bond"),
            ContractError::KeepersOnly => String::from_str("only whitelisted keepers can harvest!"),
            ContractError::AlreadyClosed => String::from_str("position is already closed!"),
            ContractError::HealthyLtv { ltv } => {
                let mut s = String::from_str("position is healthy! ltv: ");
                s.append(decimal_text(*ltv).as_str());
                s
            },
            ContractError::MustDeposit { denom } => {
                let mut s = String::from_str("must deposit ");
                s.append(denom.as_str());
                s.append("!");
                s
            },
            ContractError::GovernanceOnly => String::from_str("only governance can update config!"),
            ContractError::LtvAboveThreshold { ltv } => {
                let mut s = String::from_str("ltv is greater than threshold: ");
                match ltv {
                    Some(l) => s.append(decimal_text(*l).as_str()),
                    None => s.append("null"),
                }
                s
            },
            ContractError::NotOwner => String::from_str("Unauthorized"),
            ContractError::CannotLiquidateHealthy => String::from_str(
                "cannot liquidate a healthy position",
            ),
            ContractError::AboveLiquidationThreshold => String::from_str(
                "LTV above liquidation threshold",
            ),
            ContractError::BorrowZero => String::from_str("borrow amount must be greater than zero"),
            ContractError::RepayZero => String::from_str("repay amount must be greater than zero"),
            ContractError::InvalidConfig { reason } => reason.clone(),
            ContractError::Underflow { minuend, subtrahend } => {
                let mut s = String::from_str("Cannot subtract ");
                s.append(amount_text(*subtrahend).as_str());
                s.append(" from ");
                s.append(amount_text(*minuend).as_str());
                s
            },
        }
    }
}

} // verus!
