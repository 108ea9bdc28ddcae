//! The vault's configuration, its global state, user positions, and the messages it sends
//! itself.

use vstd::prelude::*;

use crate::assets::{asset_list_entries, list_clone, list_len, Asset, AssetEntry, AssetInfo, AssetList};
use crate::math::Decimal;

verus! {

/// Bond units credited per liquidity token when nothing is bonded yet.
pub const DEFAULT_BOND_UNITS_PER_SHARE_BONDED: u128 = 1_000_000u128;

/// Debt units credited per secondary asset unit when nothing is owed yet.
pub const DEFAULT_DEBT_UNITS_PER_ASSET_BORROWED: u128 = 1_000_000u128;

/// An automated market maker pair and its liquidity token.
#[derive(Debug)]
pub struct Pair {
    pub contract_addr: String,
    pub liquidity_token: String,
}

/// Parameters of the vault.
#[derive(Debug)]
pub struct Config {
    /// The asset whose price the farm is exposed to
    pub primary_asset_info: AssetInfo,
    /// The asset that is borrowed and in which debt is owed
    pub secondary_asset_info: AssetInfo,
    /// The reward token of the generator
    pub astro_token_info: AssetInfo,
    /// The pair of the primary and secondary assets
    pub primary_pair: Pair,
    /// The pair of the reward token and the secondary asset
    pub astro_pair: Pair,
    /// The contract at which liquidity tokens are bonded
    pub astro_generator: String,
    /// The lender
    pub red_bank: String,
    /// The price oracle
    pub oracle: String,
    /// The receiver of fees
    pub treasury: String,
    /// The account that may update the configuration
    pub governance: String,
    /// The accounts that may harvest
    pub operators: Vec<String>,
    /// The loan-to-value ratio above which a position may be liquidated
    pub max_ltv: Decimal,
    /// The share of harvested rewards charged as fees
    pub fee_rate: Decimal,
    /// The share of a liquidated position's assets paid to the liquidator
    pub bonus_rate: Decimal,
}

/// The vault's global state.
#[derive(Debug)]
pub struct State {
    /// Total amount of bond units; each user's share of the bonded liquidity tokens
    pub total_bond_units: u128,
    /// Total amount of debt units; each user's share of the debt
    pub total_debt_units: u128,
    /// Rewards that can be reinvested in the next harvest
    pub pending_rewards: AssetList,
}

/// The global state as plain values.
pub struct StateView {
    pub total_bond_units: u128,
    pub total_debt_units: u128,
    pub pending_rewards: Seq<AssetEntry>,
}

impl View for State {
    type V = StateView;

    open spec fn view(&self) -> StateView {
        StateView {
            total_bond_units: self.total_bond_units,
            total_debt_units: self.total_debt_units,
            pending_rewards: asset_list_entries(self.pending_rewards),
        }
    }
}

/// A user's position.
#[derive(Debug)]
pub struct Position {
    /// The user's share of the bonded liquidity tokens
    pub bond_units: u128,
    /// The user's share of the debt
    pub debt_units: u128,
    /// Assets not locked in the pool: pending refund or liquidation
    pub unlocked_assets: AssetList,
}

/// A position as plain values.
pub struct PositionView {
    pub bond_units: u128,
    pub debt_units: u128,
    pub unlocked_assets: Seq<AssetEntry>,
}

impl View for Position {
    type V = PositionView;

    open spec fn view(&self) -> PositionView {
        PositionView {
            bond_units: self.bond_units,
            debt_units: self.debt_units,
            unlocked_assets: asset_list_entries(self.unlocked_assets),
        }
    }
}

impl PositionView {
    /// Whether the position holds nothing: no bond units, no debt units, no unlocked assets.
    pub open spec fn is_empty(self) -> bool {
        self.bond_units == 0 && self.debt_units == 0 && self.unlocked_assets.len() == 0
    }
}

impl Position {
    /// A copy of this position.
    pub fn duplicate(&self) -> (r: Position)
        ensures
            r@ == self@,
    {
        Position {
            bond_units: self.bond_units,
            debt_units: self.debt_units,
            unlocked_assets: list_clone(&self.unlocked_assets),
        }
    }

    /// Whether the position holds nothing: no bond units, no debt units, no unlocked assets.
    pub fn is_empty(&self) -> (r: bool)
        ensures
            r == self@.is_empty(),
    {
        self.bond_units == 0 && self.debt_units == 0 && list_len(&self.unlocked_assets) == 0
    }
}

impl State {
    /// A copy of this state.
    pub fn duplicate(&self) -> (r: State)
        ensures
            r@ == self@,
    {
        State {
            total_bond_units: self.total_bond_units,
            total_debt_units: self.total_debt_units,
            pending_rewards: list_clone(&self.pending_rewards),
        }
    }
}

impl Default for Position {
    /// A position with no units and no unlocked assets.
    fn default() -> (r: Position)
        ensures
            r.bond_units == 0,
            r.debt_units == 0,
            asset_list_entries(r.unlocked_assets) == Seq::<AssetEntry>::empty(),
    {
        Position { bond_units: 0, debt_units: 0, unlocked_assets: AssetList::new() }
    }
}

impl Default for State {
    /// A state with no units and no pending rewards.
    fn default() -> (r: State)
        ensures
            r.total_bond_units == 0,
            r.total_debt_units == 0,
            asset_list_entries(r.pending_rewards) == Seq::<AssetEntry>::empty(),
    {
        State { total_bond_units: 0, total_debt_units: 0, pending_rewards: AssetList::new() }
    }
}

/// What a user may ask the vault to do, in the order given.
#[derive(Debug)]
pub enum Action {
    /// Deposit an asset into the position's unlocked assets
    Deposit(Asset),
    /// Borrow an amount of the secondary asset
    Borrow { amount: u128 },
    /// Repay an amount of the secondary asset
    Repay { amount: u128 },
    /// Provide the unlocked primary and secondary assets as liquidity and bond the tokens
    Bond { slippage_tolerance: Option<Decimal> },
    /// Unbond liquidity tokens and withdraw the liquidity
    Unbond { bond_units_to_reduce: u128 },
    /// Swap an amount of the primary asset for the secondary asset
    Swap { offer_amount: u128, max_spread: Option<Decimal> },
}

/// The steps the vault performs by sending messages to itself.
#[derive(Debug)]
pub enum CallbackMsg {
    ProvideLiquidity { user_addr: Option<String>, slippage_tolerance: Option<Decimal> },
    WithdrawLiquidity { user_addr: String },
    Bond { user_addr: Option<String> },
    Unbond { user_addr: String, bond_units_to_reduce: u128 },
    Borrow { user_addr: String, borrow_amount: u128 },
    Repay { user_addr: String, repay_amount: Option<u128> },
    Refund { user_addr: String, recipient_addr: String, percentage: Decimal },
    Swap {
        user_addr: Option<String>,
        offer_asset_info: AssetInfo,
        offer_amount: Option<u128>,
        max_spread: Option<Decimal>,
    },
    Balance { max_spread: Option<Decimal> },
    Cover { user_addr: String },
    AssertHealth { user_addr: String },
    ClearBadDebt { user_addr: String },
    PurgeStorage { user_addr: String },
}

/// Why the vault refuses a request.
#[derive(Debug)]
pub enum ContractError {
    /// An asset list refused an addition or a deduction
    Asset(cw_asset::AssetError),
    /// An amount or a unit count does not fit in 128 bits, or would fall below zero
    Overflow,
    /// A native deposit does not match the coins sent with the message
    SentFundMismatch { expected: Asset, received: u128 },
    /// Coins were sent that no deposit accounts for
    ExtraFundsReceived { received: AssetList },
    /// Only whitelisted operators may harvest
    NotOperator,
    /// Only governance may update the configuration
    NotGovernance,
    /// Callbacks may only be sent by the vault itself
    ExternalCallback,
    /// A closed position cannot be liquidated
    PositionClosed,
    /// A position within the loan-to-value limit cannot be liquidated
    PositionHealthy,
    /// A position's loan-to-value ratio exceeds the limit
    Unhealthy { ltv: Option<Decimal> },
    /// The assets hold none of the primary asset
    NoPrimaryAsset,
    /// The assets hold none of the secondary asset
    NoSecondaryAsset,
    /// The position holds no unlocked liquidity token
    NoUnlockedShares,
    /// The assets hold no liquidity token to bond
    NoLiquidityToken,
    /// Only the primary asset and the reward token can be swapped
    InvalidOfferAsset { offer_asset_info: AssetInfo },
    /// A reply carries an identifier that no submessage was sent with
    InvalidReplyId { id: u64 },
    /// Storage can only be wiped once every position has been refunded
    RefundsPending,
    /// The request asks for something not supported
    Unimplemented,
    /// The position has no debt to repay
    NoDebt,
    /// The sender may not do this
    Unauthorized,
    /// A deposit or withdrawal is not of the configured liquidity token
    InvalidLiquidityToken,
    /// Only a closed position can be liquidated
    PositionActive,
    /// Debt can only be paid in the short asset
    MustDepositShortAsset,
    /// The configured staking contract is of no known kind
    InvalidStakingType,
    /// Bonding needs coins of the staked denom
    NoCoinsToBond,
    /// Only a whitelisted keeper may harvest the three-slot farm
    KeepersOnly,
    /// A closed position of the three-slot farm cannot be closed again
    AlreadyClosed,
    /// A position of the three-slot farm within the loan-to-value limit cannot be closed
    HealthyLtv { ltv: Decimal },
    /// Debt of the three-slot farm can only be paid in its short asset, named here
    MustDeposit { denom: String },
    /// Only governance may update the three-slot farm's configuration
    GovernanceOnly,
    /// A position of the three-slot farm exceeds the loan-to-value limit
    LtvAboveThreshold { ltv: Option<Decimal> },
    /// Only the owner may do this in the UST farm
    NotOwner,
    /// A position of the UST farm within the loan-to-value limit cannot be liquidated
    CannotLiquidateHealthy,
    /// A position of the UST farm over the loan-to-value limit cannot be refunded
    AboveLiquidationThreshold,
    /// The UST farm borrows no zero amount
    BorrowZero,
    /// The UST farm repays no zero amount
    RepayZero,
    /// A subtraction in the UST farm would fall below zero
    Underflow { minuend: u128, subtrahend: u128 },
    /// A new configuration breaks the configuration rules, for the reason given
    InvalidConfig { reason: String },
}

/// The kind of a refusal, without the data it carries.
pub enum ErrorKind {
    Asset,
    Overflow,
    SentFundMismatch { expected: AssetEntry, received: u128 },
    ExtraFundsReceived { received: Seq<AssetEntry> },
    NotOperator,
    NotGovernance,
    ExternalCallback,
    PositionClosed,
    PositionHealthy,
    Unhealthy,
    NoPrimaryAsset,
    NoSecondaryAsset,
    NoUnlockedShares,
    NoLiquidityToken,
    InvalidOfferAsset,
    InvalidReplyId,
    RefundsPending,
    Unimplemented,
    NoDebt,
    Unauthorized,
    InvalidLiquidityToken,
    PositionActive,
    MustDepositShortAsset,
    InvalidStakingType,
    NoCoinsToBond,
    KeepersOnly,
    AlreadyClosed,
    HealthyLtv,
    MustDeposit,
    GovernanceOnly,
    LtvAboveThreshold,
    NotOwner,
    CannotLiquidateHealthy,
    AboveLiquidationThreshold,
    BorrowZero,
    RepayZero,
    Underflow,
    InvalidConfig,
}

impl ContractError {
    /// The kind of this refusal.
    pub open spec fn kind(&self) -> ErrorKind {
        match self {
            ContractError::Asset(_) => ErrorKind::Asset,
            ContractError::Overflow => ErrorKind::Overflow,
            ContractError::SentFundMismatch { expected, received } => ErrorKind::SentFundMismatch {
                expected: expected.entry(),
                received: *received,
            },
            ContractError::ExtraFundsReceived { received } => ErrorKind::ExtraFundsReceived {
                received: asset_list_entries(*received),
            },
            ContractError::NotOperator => ErrorKind::NotOperator,
            ContractError::NotGovernance => ErrorKind::NotGovernance,
            ContractError::ExternalCallback => ErrorKind::ExternalCallback,
            ContractError::PositionClosed => ErrorKind::PositionClosed,
            ContractError::PositionHealthy => ErrorKind::PositionHealthy,
            ContractError::Unhealthy { .. } => ErrorKind::Unhealthy,
            ContractError::NoPrimaryAsset => ErrorKind::NoPrimaryAsset,
            ContractError::NoSecondaryAsset => ErrorKind::NoSecondaryAsset,
            ContractError::NoUnlockedShares => ErrorKind::NoUnlockedShares,
            ContractError::NoLiquidityToken => ErrorKind::NoLiquidityToken,
            ContractError::InvalidOfferAsset { .. } => ErrorKind::InvalidOfferAsset,
            ContractError::InvalidReplyId { .. } => ErrorKind::InvalidReplyId,
            ContractError::RefundsPending => ErrorKind::RefundsPending,
            ContractError::Unimplemented => ErrorKind::Unimplemented,
            ContractError::NoDebt => ErrorKind::NoDebt,
            ContractError::Unauthorized => ErrorKind::Unauthorized,
            ContractError::InvalidLiquidityToken => ErrorKind::InvalidLiquidityToken,
            ContractError::PositionActive => ErrorKind::PositionActive,
            ContractError::MustDepositShortAsset => ErrorKind::MustDepositShortAsset,
            ContractError::InvalidStakingType => ErrorKind::InvalidStakingType,
            ContractError::NoCoinsToBond => ErrorKind::NoCoinsToBond,
            ContractError::KeepersOnly => ErrorKind::KeepersOnly,
            ContractError::AlreadyClosed => ErrorKind::AlreadyClosed,
            ContractError::HealthyLtv { .. } => ErrorKind::HealthyLtv,
            ContractError::MustDeposit { .. } => ErrorKind::MustDeposit,
            ContractError::GovernanceOnly => ErrorKind::GovernanceOnly,
            ContractError::LtvAboveThreshold { .. } => ErrorKind::LtvAboveThreshold,
            ContractError::NotOwner => ErrorKind::NotOwner,
            ContractError::CannotLiquidateHealthy => ErrorKind::CannotLiquidateHealthy,
            ContractError::AboveLiquidationThreshold => ErrorKind::AboveLiquidationThreshold,
            ContractError::BorrowZero => ErrorKind::BorrowZero,
            ContractError::RepayZero => ErrorKind::RepayZero,
            ContractError::Underflow { .. } => ErrorKind::Underflow,
            ContractError::InvalidConfig { .. } => ErrorKind::InvalidConfig,
        }
    }
}

} // verus!
