//! A leveraged farm whose positions keep their unlocked assets in three fixed slots: the long
//! asset, the short asset (the one borrowed), and the pair's share token. Transfers of native
//! coins are charged the chain's tax.

use vstd::prelude::*;

use crate::assets::{coin_amount, find_coin_amount, string_eq, Asset, AssetInfo, AssetKey, Coin};
use crate::execute::{contains_address, has_address};
use crate::math::{lemma_ratio_at_most, mul_decimal, multiply_ratio, ratio, Decimal, DECIMAL_FRACTIONAL};
use crate::state::{
    ContractError, ErrorKind, DEFAULT_BOND_UNITS_PER_SHARE_BONDED,
    DEFAULT_DEBT_UNITS_PER_ASSET_BORROWED,
};
use crate::strategy::{add_tax, deduct_tax, tax_on_add, tax_on_deduct, TaxInfo};

verus! {

/// The parameters of the farm that its decisions read.
#[derive(Debug)]
pub struct FieldConfig {
    /// The asset whose price the farm is exposed to
    pub long_asset: AssetInfo,
    /// The asset that is borrowed and in which values are measured
    pub short_asset: AssetInfo,
    /// The pair's share token
    pub share_token: AssetInfo,
    /// The accounts that may harvest
    pub keepers: Vec<String>,
    /// The account that may update the configuration
    pub governance: String,
    /// The loan-to-value ratio above which a position may be closed
    pub max_ltv: Decimal,
    /// The share of harvested rewards charged as fees
    pub fee_rate: Decimal,
}

/// The units of all positions.
#[derive(Debug, Clone, Copy, PartialEq, Eq, Structural)]
pub struct FieldState {
    pub total_bond_units: u128,
    pub total_debt_units: u128,
}

/// A user's position: units, and the three unlocked slots.
#[derive(Debug, Clone, Copy, PartialEq, Eq, Structural)]
pub struct FieldPosition {
    pub bond_units: u128,
    pub debt_units: u128,
    pub unlocked_long: u128,
    pub unlocked_short: u128,
    pub unlocked_shares: u128,
}

impl FieldPosition {
    /// A position holding nothing.
    pub fn new() -> (p: FieldPosition)
        ensures
            p == (FieldPosition {
                bond_units: 0,
                debt_units: 0,
                unlocked_long: 0,
                unlocked_short: 0,
                unlocked_shares: 0,
            }),
    {
        FieldPosition {
            bond_units: 0,
            debt_units: 0,
            unlocked_long: 0,
            unlocked_short: 0,
            unlocked_shares: 0,
        }
    }

    /// Whether the position still has bonded shares.
    pub fn is_active(&self) -> (r: bool)
        ensures
            r == (self.bond_units != 0),
    {
        self.bond_units != 0
    }
}

// ---------------------------------------------------------------------------------------------
// Tax
// ---------------------------------------------------------------------------------------------

/// Whether the tax rate leaves room for the arithmetic of deducting it.
pub open spec fn tax_ok(tax: TaxInfo) -> bool {
    tax.rate.atomics + DECIMAL_FRACTIONAL <= u128::MAX
}

/// Whether adding the tax to `amount` fits in 128 bits.
pub open spec fn add_fits(amount: int, tax: TaxInfo) -> bool {
    &&& 0 <= amount <= u128::MAX
    &&& ratio(amount, tax.rate.atomics as int, DECIMAL_FRACTIONAL as int) <= u128::MAX
    &&& amount + tax_on_add(amount as u128, false, tax) <= u128::MAX
}

/// What arrives of a transfer of `amount` of an asset: CW20 tokens are not taxed.
pub open spec fn after_tax(info: AssetInfo, amount: u128, tax: TaxInfo) -> int {
    match info {
        AssetInfo::Cw20(_) => amount as int,
        AssetInfo::Native(d) => amount - tax_on_deduct(amount, d@ == "uluna"@, tax),
    }
}

/// What a transfer that delivers `amount` of an asset costs: CW20 tokens are not taxed.
pub open spec fn with_tax(info: AssetInfo, amount: u128, tax: TaxInfo) -> int {
    match info {
        AssetInfo::Cw20(_) => amount as int,
        AssetInfo::Native(d) => amount + tax_on_add(amount, d@ == "uluna"@, tax),
    }
}

/// What arrives of a transfer of `amount` of the asset `info`.
pub fn deliverable(info: &AssetInfo, amount: u128, tax: TaxInfo) -> (r: u128)
    requires
        tax_ok(tax),
    ensures
        r == after_tax(*info, amount, tax),
        r <= amount,
{
    match info {
        AssetInfo::Cw20(_) => amount,
        AssetInfo::Native(d) => deduct_tax(amount, d, tax),
    }
}

/// What a transfer that delivers `amount` of the asset `info` costs.
pub fn cost_of(info: &AssetInfo, amount: u128, tax: TaxInfo) -> (r: u128)
    requires
        add_fits(amount as int, tax),
    ensures
        r == with_tax(*info, amount, tax),
        r >= amount,
{
    match info {
        AssetInfo::Cw20(_) => amount,
        AssetInfo::Native(d) => add_tax(amount, d, tax),
    }
}

// ---------------------------------------------------------------------------------------------
// What the farm sends itself
// ---------------------------------------------------------------------------------------------

/// The steps the farm performs by sending messages to itself.
#[derive(Debug)]
pub enum FieldCallback {
    ProvideLiquidity { user: String },
    RemoveLiquidity { user: String },
    Bond { user: String },
    Unbond { user: String, bond_units: Option<u128> },
    Borrow { user: String, amount: u128 },
    Repay { user: String },
    Refund { user: String, recipient: String, percentage: Decimal },
    Reinvest { amount: u128 },
    Snapshot { user: String },
    AssertHealth { user: String },
}

/// What a request sends out: CW20 deposits to draw from a wallet, and callbacks, in order.
pub struct FieldOutcome {
    pub pulls: Vec<Asset>,
    pub callbacks: Vec<FieldCallback>,
}

/// The amount of the first of two deposits that is of the asset `key`.
pub open spec fn deposit_of(deposits: Seq<Asset>, key: AssetKey) -> Option<u128> {
    if deposits.len() > 0 && deposits[0].info.key() == key {
        Some(deposits[0].amount)
    } else if deposits.len() > 1 && deposits[1].info.key() == key {
        Some(deposits[1].amount)
    } else {
        None
    }
}

/// Whether a deposit is accounted for: a CW20 deposit is drawn from the wallet, a native one
/// must have come with a coin of exactly that amount (the first coin of its denom).
pub open spec fn fund_sent(deposit: Asset, funds: Seq<Coin>) -> bool {
    match deposit.info {
        AssetInfo::Cw20(_) => true,
        AssetInfo::Native(d) => coin_amount(funds, d@) == deposit.amount,
    }
}

/// The refusal of a native deposit that did not come with the matching coin.
pub open spec fn fund_mismatch(deposit: Asset, funds: Seq<Coin>) -> ErrorKind {
    ErrorKind::SentFundMismatch {
        expected: deposit.entry(),
        received: coin_amount(funds, deposit.info->Native_0@),
    }
}

/// The CW20 deposits among some, in order.
pub open spec fn pulls_of(deposits: Seq<Asset>) -> Seq<Asset>
    decreases deposits.len(),
{
    if deposits.len() == 0 {
        Seq::empty()
    } else {
        let rest = pulls_of(deposits.drop_last());
        if deposits.last().info is Cw20 {
            rest.push(deposits.last())
        } else {
            rest
        }
    }
}

/// Whether every deposit among the first `n` is accounted for.
pub open spec fn funds_sent_upto(deposits: Seq<Asset>, funds: Seq<Coin>, n: int) -> bool {
    forall|i: int| 0 <= i < n ==> #[trigger] fund_sent(deposits[i], funds)
}

/// The first deposit that is not accounted for, if any.
pub open spec fn first_unsent(deposits: Seq<Asset>, funds: Seq<Coin>) -> Option<int> {
    if exists|i: int| 0 <= i < deposits.len() && !#[trigger] fund_sent(deposits[i], funds) {
        Some(
            choose|i: int|
                0 <= i < deposits.len() && !#[trigger] fund_sent(deposits[i], funds)
                    && funds_sent_upto(deposits, funds, i),
        )
    } else {
        None
    }
}

/// Accounts for deposits in order: CW20 deposits are to be drawn, native ones are checked
/// against the coins sent; the first native deposit without its coin is refused.
fn receive_deposits(deposits: &Vec<Asset>, funds: &Vec<Coin>) -> (r: Result<Vec<Asset>, ContractError>)
    ensures
        funds_sent_upto(deposits@, funds@, deposits.len() as int) ==> r is Ok && r->Ok_0@
            == pulls_of(deposits@),
        !funds_sent_upto(deposits@, funds@, deposits.len() as int) ==> ({
            let i = first_unsent(deposits@, funds@)->0;
            r is Err && r->Err_0.kind() == fund_mismatch(deposits@[i], funds@)
        }),
{
    let mut pulls: Vec<Asset> = Vec::new();
    let mut i: usize = 0;
    while i < deposits.len()
        invariant
            i <= deposits.len(),
            funds_sent_upto(deposits@, funds@, i as int),
            pulls@ == pulls_of(deposits@.take(i as int)),
        decreases deposits.len() - i,
    {
        assert(deposits@.take(i + 1).drop_last() =~= deposits@.take(i as int));
        match &deposits[i].info {
            AssetInfo::Cw20(_) => {
                pulls.push(deposits[i].duplicate());
            },
            AssetInfo::Native(denom) => {
                let received = find_coin_amount(funds, denom);
                if received != deposits[i].amount {
                    proof {
                        assert(!fund_sent(deposits@[i as int], funds@));
                        let k = first_unsent(deposits@, funds@)->0;
                        assert(exists|j: int|
                            0 <= j < deposits.len() && !#[trigger] fund_sent(deposits@[j], funds@));
                        assert(0 <= i < deposits.len() && !fund_sent(deposits@[i as int], funds@)
                            && funds_sent_upto(deposits@, funds@, i as int));
                        if k < i {
                            assert(fund_sent(deposits@[k], funds@));
                        } else if k > i {
                            assert(fund_sent(deposits@[i as int], funds@));
                        }
                    }
                    return Err(
                        ContractError::SentFundMismatch {
                            expected: deposits[i].duplicate(),
                            received,
                        },
                    );
                }
            },
        }
        i = i + 1;
    }
    assert(deposits@.take(deposits.len() as int) =~= deposits@);
    Ok(pulls)
}

// ---------------------------------------------------------------------------------------------
// Requests
// ---------------------------------------------------------------------------------------------

/// The short asset that matches `long` of the long asset at the pool's depths, rounded down.
pub open spec fn short_needed(long: u128, long_depth: u128, short_depth: u128) -> int {
    ratio(long as int, short_depth as int, long_depth as int)
}

/// What a position must borrow: the short asset needed beyond what was deposited.
pub open spec fn short_to_borrow(long: u128, short: u128, long_depth: u128, short_depth: u128) -> int {
    let needed = short_needed(long, long_depth, short_depth);
    if needed > short {
        needed - short
    } else {
        0
    }
}

/// The callbacks that open or add to a position: borrow what is missing, provide liquidity,
/// bond the shares, check the loan-to-value ratio, and record a snapshot.
pub open spec fn increase_callbacks(user: String, borrow: u128) -> Seq<FieldCallback> {
    seq![
        FieldCallback::Borrow { user, amount: borrow },
        FieldCallback::ProvideLiquidity { user },
        FieldCallback::Bond { user },
        FieldCallback::AssertHealth { user },
        FieldCallback::Snapshot { user },
    ]
}

/// What an increase sends out besides the deposits to draw.
pub struct IncreaseOutcome {
    pub long_deposited: u128,
    pub short_deposited: u128,
    pub short_to_borrow: u128,
    pub pulls: Vec<Asset>,
    pub callbacks: Vec<FieldCallback>,
}

/// Opens or adds to `user`'s position with two deposits, one of the long and one of the short
/// asset, at a pool holding `long_depth` and `short_depth`: the deposits join the unlocked
/// slots, and the short asset missing to match the long one at the pool's price is borrowed.
pub fn increase_position(
    config: &FieldConfig,
    position: &mut FieldPosition,
    user: &String,
    deposits: &Vec<Asset>,
    funds: &Vec<Coin>,
    long_depth: u128,
    short_depth: u128,
) -> (r: Result<IncreaseOutcome, ContractError>)
    requires
        deposits.len() == 2,
        deposit_of(deposits@, config.long_asset.key()) is Some,
        deposit_of(deposits@, config.short_asset.key()) is Some,
        long_depth > 0,
        short_needed(deposit_of(deposits@, config.long_asset.key())->0, long_depth, short_depth)
            <= u128::MAX,
        old(position).unlocked_long + deposit_of(deposits@, config.long_asset.key())->0
            <= u128::MAX,
        old(position).unlocked_short + deposit_of(deposits@, config.short_asset.key())->0
            <= u128::MAX,
    ensures
        ({
            let long = deposit_of(deposits@, config.long_asset.key())->0;
            let short = deposit_of(deposits@, config.short_asset.key())->0;
            let borrow = short_to_borrow(long, short, long_depth, short_depth) as u128;
            &&& funds_sent_upto(deposits@, funds@, 2) ==> {
                &&& r is Ok
                &&& r->Ok_0.long_deposited == long
                &&& r->Ok_0.short_deposited == short
                &&& r->Ok_0.short_to_borrow == borrow
                &&& r->Ok_0.pulls@ == pulls_of(deposits@)
                &&& r->Ok_0.callbacks@ == increase_callbacks(*user, borrow)
                &&& *final(position) == (FieldPosition {
                    unlocked_long: (old(position).unlocked_long + long) as u128,
                    unlocked_short: (old(position).unlocked_short + short) as u128,
                    ..*old(position)
                })
            }
            &&& !funds_sent_upto(deposits@, funds@, 2) ==> r is Err && r->Err_0.kind()
                == fund_mismatch(deposits@[first_unsent(deposits@, funds@)->0], funds@)
        }),
        r is Err ==> *final(position) == *old(position),
{
    let long = if deposits[0].info.same_as(&config.long_asset) {
        deposits[0].amount
    } else {
        deposits[1].amount
    };
    let short = if deposits[0].info.same_as(&config.short_asset) {
        deposits[0].amount
    } else {
        deposits[1].amount
    };
    let needed = multiply_ratio(long, short_depth, long_depth);
    let borrow = if needed > short {
        needed - short
    } else {
        0
    };
    let pulls = match receive_deposits(deposits, funds) {
        Ok(p) => p,
        Err(e) => return Err(e),
    };
    position.unlocked_long = position.unlocked_long + long;
    position.unlocked_short = position.unlocked_short + short;
    let mut callbacks: Vec<FieldCallback> = Vec::new();
    callbacks.push(FieldCallback::Borrow { user: user.clone(), amount: borrow });
    callbacks.push(FieldCallback::ProvideLiquidity { user: user.clone() });
    callbacks.push(FieldCallback::Bond { user: user.clone() });
    callbacks.push(FieldCallback::AssertHealth { user: user.clone() });
    callbacks.push(FieldCallback::Snapshot { user: user.clone() });
    assert(callbacks@ =~= increase_callbacks(*user, borrow));
    Ok(
        IncreaseOutcome {
            long_deposited: long,
            short_deposited: short,
            short_to_borrow: borrow,
            pulls,
            callbacks,
        },
    )
}

/// The callbacks that reduce a position: unbond the given units (all when `None`), optionally
/// remove the liquidity and repay, then check the loan-to-value ratio, refund all that is
/// unlocked, and record a snapshot.
pub open spec fn reduce_callbacks(
    user: String,
    bond_units: Option<u128>,
    remove: bool,
    repay: bool,
) -> Seq<FieldCallback> {
    let start = seq![FieldCallback::Unbond { user, bond_units }];
    let removed = if remove {
        start.push(FieldCallback::RemoveLiquidity { user })
    } else {
        start
    };
    let repaid = if repay {
        removed.push(FieldCallback::Repay { user })
    } else {
        removed
    };
    repaid + seq![
        FieldCallback::AssertHealth { user },
        FieldCallback::Refund {
            user,
            recipient: user,
            percentage: Decimal { atomics: DECIMAL_FRACTIONAL },
        },
        FieldCallback::Snapshot { user },
    ]
}

/// Reduces `user`'s position.
pub fn reduce_position(user: &String, bond_units: Option<u128>, remove: bool, repay: bool) -> (r: Vec<
    FieldCallback,
>)
    ensures
        r@ == reduce_callbacks(*user, bond_units, remove, repay),
{
    let mut callbacks: Vec<FieldCallback> = Vec::new();
    callbacks.push(FieldCallback::Unbond { user: user.clone(), bond_units });
    if remove {
        callbacks.push(FieldCallback::RemoveLiquidity { user: user.clone() });
    }
    if repay {
        callbacks.push(FieldCallback::Repay { user: user.clone() });
    }
    callbacks.push(FieldCallback::AssertHealth { user: user.clone() });
    callbacks.push(
        FieldCallback::Refund {
            user: user.clone(),
            recipient: user.clone(),
            percentage: Decimal::one(),
        },
    );
    callbacks.push(FieldCallback::Snapshot { user: user.clone() });
    assert(callbacks@ =~= reduce_callbacks(*user, bond_units, remove, repay));
    callbacks
}

/// Receives a deposit of the short asset into a position: once the coins sent are found to
/// match it, it joins the unlocked short slot. A refused deposit leaves the position as it was.
fn receive_short(position: &mut FieldPosition, deposit: &Asset, funds: &Vec<Coin>) -> (r: Result<
    Vec<Asset>,
    ContractError,
>)
    requires
        old(position).unlocked_short + deposit.amount <= u128::MAX,
    ensures
        fund_sent(*deposit, funds@) ==> {
            &&& r is Ok
            &&& r->Ok_0@ == pulls_of(seq![*deposit])
            &&& *final(position) == (FieldPosition {
                unlocked_short: (old(position).unlocked_short + deposit.amount) as u128,
                ..*old(position)
            })
        },
        !fund_sent(*deposit, funds@) ==> r is Err && r->Err_0.kind() == fund_mismatch(
            *deposit,
            funds@,
        ) && *final(position) == *old(position),
{
    let mut deposits: Vec<Asset> = Vec::new();
    deposits.push(deposit.duplicate());
    let r = receive_deposits(&deposits, funds);
    proof {
        assert(deposits@ =~= seq![*deposit]);
        if !fund_sent(*deposit, funds@) {
            assert(!fund_sent(deposits@[0], funds@));
            assert(first_unsent(deposits@, funds@)->0 == 0);
        } else {
            assert(funds_sent_upto(deposits@, funds@, 1));
        }
    }
    if r.is_ok() {
        position.unlocked_short = position.unlocked_short + deposit.amount;
    }
    r
}

/// The callbacks that pay down `user`'s debt: repay, and record a snapshot.
pub open spec fn pay_debt_callbacks(user: String) -> Seq<FieldCallback> {
    seq![FieldCallback::Repay { user }, FieldCallback::Snapshot { user }]
}

/// Pays down `user`'s debt with a deposit of the short asset, which joins the unlocked short
/// slot to be repaid.
/// `short_denom` is the short asset's name as the chain reports it (its denom, or the CW20
/// token's symbol), which a deposit of another asset is refused with. A refused deposit leaves
/// the position as it was.
pub fn pay_debt(
    config: &FieldConfig,
    position: &mut FieldPosition,
    user: &String,
    deposit: &Asset,
    funds: &Vec<Coin>,
    short_denom: &String,
) -> (r: Result<FieldOutcome, ContractError>)
    requires
        deposit.info.key() == config.short_asset.key() ==> old(position).unlocked_short
            + deposit.amount <= u128::MAX,
    ensures
        deposit.info.key() != config.short_asset.key() ==> (r matches Err(
            ContractError::MustDeposit { denom },
        ) && denom@ == short_denom@),
        r is Err ==> *final(position) == *old(position),
        deposit.info.key() == config.short_asset.key() && fund_sent(*deposit, funds@) ==> {
            &&& r is Ok
            &&& r->Ok_0.pulls@ == pulls_of(seq![*deposit])
            &&& r->Ok_0.callbacks@ == pay_debt_callbacks(*user)
            &&& *final(position) == (FieldPosition {
                unlocked_short: (old(position).unlocked_short + deposit.amount) as u128,
                ..*old(position)
            })
        },
        deposit.info.key() == config.short_asset.key() && !fund_sent(*deposit, funds@) ==> r is Err
            && r->Err_0.kind() == fund_mismatch(*deposit, funds@),
{
    if !deposit.info.same_as(&config.short_asset) {
        return Err(ContractError::MustDeposit { denom: short_denom.clone() });
    }
    let pulls = match receive_short(position, deposit, funds) {
        Ok(p) => p,
        Err(e) => return Err(e),
    };
    let mut callbacks: Vec<FieldCallback> = Vec::new();
    callbacks.push(FieldCallback::Repay { user: user.clone() });
    callbacks.push(FieldCallback::Snapshot { user: user.clone() });
    assert(callbacks@ =~= pay_debt_callbacks(*user));
    Ok(FieldOutcome { pulls, callbacks })
}

/// The callbacks of a harvest: reinvest the reward, provide the farm's own liquidity, and bond
/// its shares.
pub open spec fn harvest_callbacks(contract: String, reward: u128) -> Seq<FieldCallback> {
    seq![
        FieldCallback::Reinvest { amount: reward },
        FieldCallback::ProvideLiquidity { user: contract },
        FieldCallback::Bond { user: contract },
    ]
}

/// Lets a keeper claim `reward_amount` of staking reward and reinvest it in the farm's own
/// position, held at `contract`.
pub fn harvest(config: &FieldConfig, sender: &String, contract: &String, reward_amount: u128) -> (r:
    Result<Vec<FieldCallback>, ContractError>)
    ensures
        !has_address(config.keepers@, sender@) ==> r matches Err(ContractError::KeepersOnly),
        has_address(config.keepers@, sender@) ==> r is Ok && r->Ok_0@ == harvest_callbacks(
            *contract,
            reward_amount,
        ),
{
    if !contains_address(&config.keepers, sender) {
        return Err(ContractError::KeepersOnly);
    }
    let mut callbacks: Vec<FieldCallback> = Vec::new();
    callbacks.push(FieldCallback::Reinvest { amount: reward_amount });
    callbacks.push(FieldCallback::ProvideLiquidity { user: contract.clone() });
    callbacks.push(FieldCallback::Bond { user: contract.clone() });
    assert(callbacks@ =~= harvest_callbacks(*contract, reward_amount));
    Ok(callbacks)
}

/// The callbacks that close a position: unbond everything, remove the liquidity, and repay.
pub open spec fn close_callbacks(user: String) -> Seq<FieldCallback> {
    seq![
        FieldCallback::Unbond { user, bond_units: None },
        FieldCallback::RemoveLiquidity { user },
        FieldCallback::Repay { user },
    ]
}

/// Lets anyone close `user`'s active position once its loan-to-value ratio `ltv` exceeds the
/// limit.
pub fn close_position(config: &FieldConfig, position: &FieldPosition, user: &String, ltv: Option<
    Decimal,
>) -> (r: Result<Vec<FieldCallback>, ContractError>)
    requires
        position.bond_units != 0 ==> ltv is Some,
    ensures
        position.bond_units == 0 ==> r matches Err(ContractError::AlreadyClosed),
        position.bond_units != 0 && ltv->0.atomics <= config.max_ltv.atomics ==> r == Err::<
            Vec<FieldCallback>,
            ContractError,
        >(ContractError::HealthyLtv { ltv: ltv->0 }),
        position.bond_units != 0 && ltv->0.atomics > config.max_ltv.atomics ==> r is Ok
            && r->Ok_0@ == close_callbacks(*user),
{
    if !position.is_active() {
        return Err(ContractError::AlreadyClosed);
    }
    let l = match ltv {
        Some(l) => l,
        None => return Err(ContractError::AlreadyClosed),
    };
    if l.atomics <= config.max_ltv.atomics {
        return Err(ContractError::HealthyLtv { ltv: l });
    }
    let mut callbacks: Vec<FieldCallback> = Vec::new();
    callbacks.push(FieldCallback::Unbond { user: user.clone(), bond_units: None });
    callbacks.push(FieldCallback::RemoveLiquidity { user: user.clone() });
    callbacks.push(FieldCallback::Repay { user: user.clone() });
    assert(callbacks@ =~= close_callbacks(*user));
    Ok(callbacks)
}

/// The share of a closed position's unlocked assets a liquidator earns for `deliverable` of
/// the short asset towards a debt of `debt`: all of it once the debt is covered.
pub open spec fn liquidation_share(deliverable: int, debt: int) -> int {
    if deliverable > debt {
        DECIMAL_FRACTIONAL as int
    } else {
        ratio(deliverable, DECIMAL_FRACTIONAL as int, debt)
    }
}

/// The user's share of `total_debt`.
pub open spec fn field_debt(total_debt: u128, position: FieldPosition, state: FieldState) -> int {
    ratio(total_debt as int, position.debt_units as int, state.total_debt_units as int)
}

/// What a liquidation sends out.
pub struct LiquidationOutcome {
    /// The share of the position's unlocked assets refunded to the liquidator
    pub percentage: Decimal,
    pub pulls: Vec<Asset>,
    pub callbacks: Vec<FieldCallback>,
}

/// The callbacks of a liquidation: repay the debt, and refund the liquidator their share.
pub open spec fn liquidation_callbacks(user: String, liquidator: String, percentage: Decimal) -> Seq<
    FieldCallback,
> {
    seq![
        FieldCallback::Repay { user },
        FieldCallback::Refund { user, recipient: liquidator, percentage },
    ]
}

/// Lets a liquidator pay a closed position's debt with a deposit of the short asset, for the
/// share of the position's unlocked assets that the deposit (after tax) covers of the debt;
/// `total_debt` is what the farm owes.
pub fn liquidate(
    config: &FieldConfig,
    state: &FieldState,
    position: &mut FieldPosition,
    user: &String,
    liquidator: &String,
    deposit: &Asset,
    funds: &Vec<Coin>,
    total_debt: u128,
    short_tax: TaxInfo,
) -> (r: Result<LiquidationOutcome, ContractError>)
    requires
        tax_ok(short_tax),
        old(position).bond_units == 0 && deposit.info.key() == config.short_asset.key() ==> {
            &&& state.total_debt_units > 0
            &&& field_debt(total_debt, *old(position), *state) <= u128::MAX
            &&& after_tax(config.short_asset, deposit.amount, short_tax) <= field_debt(
                total_debt,
                *old(position),
                *state,
            ) ==> field_debt(total_debt, *old(position), *state) > 0
            &&& old(position).unlocked_short + deposit.amount <= u128::MAX
        },
    ensures
        old(position).bond_units != 0 ==> r matches Err(ContractError::PositionActive),
        old(position).bond_units == 0 && deposit.info.key() != config.short_asset.key() ==> r matches Err(
            ContractError::MustDepositShortAsset,
        ),
        old(position).bond_units == 0 && deposit.info.key() == config.short_asset.key() ==> ({
            let percentage = Decimal {
                atomics: liquidation_share(
                    after_tax(config.short_asset, deposit.amount, short_tax),
                    field_debt(total_debt, *old(position), *state),
                ) as u128,
            };
            &&& fund_sent(*deposit, funds@) ==> {
                &&& r is Ok
                &&& r->Ok_0.percentage == percentage
                &&& r->Ok_0.pulls@ == pulls_of(seq![*deposit])
                &&& r->Ok_0.callbacks@ == liquidation_callbacks(*user, *liquidator, percentage)
                &&& *final(position) == (FieldPosition {
                    unlocked_short: (old(position).unlocked_short + deposit.amount) as u128,
                    ..*old(position)
                })
            }
            &&& !fund_sent(*deposit, funds@) ==> r is Err && r->Err_0.kind() == fund_mismatch(
                *deposit,
                funds@,
            )
        }),
        r is Err ==> *final(position) == *old(position),
{
    if position.is_active() {
        return Err(ContractError::PositionActive);
    }
    if !deposit.info.same_as(&config.short_asset) {
        return Err(ContractError::MustDepositShortAsset);
    }
    let debt = multiply_ratio(total_debt, position.debt_units, state.total_debt_units);
    let delivered = deliverable(&config.short_asset, deposit.amount, short_tax);
    let percentage = if delivered > debt {
        Decimal::one()
    } else {
        proof {
            lemma_ratio_at_most(DECIMAL_FRACTIONAL as int, delivered as int, debt as int);
            assert(ratio(delivered as int, DECIMAL_FRACTIONAL as int, debt as int) == ratio(
                DECIMAL_FRACTIONAL as int,
                delivered as int,
                debt as int,
            )) by (nonlinear_arith);
        }
        Decimal::from_ratio(delivered, debt)
    };
    let pulls = match receive_short(position, deposit, funds) {
        Ok(p) => p,
        Err(e) => return Err(e),
    };
    let mut callbacks: Vec<FieldCallback> = Vec::new();
    callbacks.push(FieldCallback::Repay { user: user.clone() });
    callbacks.push(
        FieldCallback::Refund { user: user.clone(), recipient: liquidator.clone(), percentage },
    );
    assert(callbacks@ =~= liquidation_callbacks(*user, *liquidator, percentage));
    Ok(LiquidationOutcome { percentage, pulls, callbacks })
}

/// Lets governance replace the configuration; returns the configuration to store.
pub fn update_config(config: &FieldConfig, sender: &String, new_config: FieldConfig) -> (r: Result<
    FieldConfig,
    ContractError,
>)
    ensures
        sender@ == config.governance@ ==> r == Ok::<FieldConfig, ContractError>(new_config),
        sender@ != config.governance@ ==> r matches Err(ContractError::GovernanceOnly),
{
    if !string_eq(sender, &config.governance) {
        return Err(ContractError::GovernanceOnly);
    }
    Ok(new_config)
}

// ---------------------------------------------------------------------------------------------
// Callbacks
// ---------------------------------------------------------------------------------------------

/// The chain's tax on each slot's asset.
#[derive(Debug, Clone, Copy)]
pub struct SlotTaxes {
    pub long: TaxInfo,
    pub short: TaxInfo,
    pub shares: TaxInfo,
}

/// What providing liquidity hands the pair and what it costs the position.
#[derive(Debug, Clone, Copy, PartialEq, Eq, Structural)]
pub struct ProvidePlan {
    pub long_provided: u128,
    pub short_provided: u128,
    pub long_cost: u128,
    pub short_cost: u128,
}

/// The first half of providing liquidity: all the unlocked long and short asset is provided,
/// less what the transfer's tax takes; each transfer costs the amount provided plus its tax.
/// The pair is then asked how many shares that provision mints, and [`provide_liquidity`]
/// completes the step.
pub fn plan_provide(config: &FieldConfig, position: &FieldPosition, taxes: SlotTaxes) -> (r:
    ProvidePlan)
    requires
        tax_ok(taxes.long),
        tax_ok(taxes.short),
        add_fits(after_tax(config.long_asset, position.unlocked_long, taxes.long), taxes.long),
        add_fits(after_tax(config.short_asset, position.unlocked_short, taxes.short), taxes.short),
    ensures
        r.long_provided == after_tax(config.long_asset, position.unlocked_long, taxes.long),
        r.short_provided == after_tax(config.short_asset, position.unlocked_short, taxes.short),
        r.long_cost == with_tax(config.long_asset, r.long_provided, taxes.long),
        r.short_cost == with_tax(config.short_asset, r.short_provided, taxes.short),
{
    let long_provided = deliverable(&config.long_asset, position.unlocked_long, taxes.long);
    let short_provided = deliverable(&config.short_asset, position.unlocked_short, taxes.short);
    let long_cost = cost_of(&config.long_asset, long_provided, taxes.long);
    let short_cost = cost_of(&config.short_asset, short_provided, taxes.short);
    ProvidePlan { long_provided, short_provided, long_cost, short_cost }
}

/// The second half of providing liquidity: the costs leave the long and short slots and the
/// `shares` minted join the share slot.
pub fn provide_liquidity(position: &mut FieldPosition, plan: &ProvidePlan, shares: u128)
    requires
        plan.long_cost <= old(position).unlocked_long,
        plan.short_cost <= old(position).unlocked_short,
        old(position).unlocked_shares + shares <= u128::MAX,
    ensures
        *final(position) == (FieldPosition {
            unlocked_long: (old(position).unlocked_long - plan.long_cost) as u128,
            unlocked_short: (old(position).unlocked_short - plan.short_cost) as u128,
            unlocked_shares: (old(position).unlocked_shares + shares) as u128,
            ..*old(position)
        }),
{
    position.unlocked_long = position.unlocked_long - plan.long_cost;
    position.unlocked_short = position.unlocked_short - plan.short_cost;
    position.unlocked_shares = position.unlocked_shares + shares;
}

/// Removes liquidity: all the unlocked shares are burned, and what the pair returns for them
/// (after tax) joins the long and short slots; returns the shares burned.
pub fn remove_liquidity(position: &mut FieldPosition, long_returned: u128, short_returned: u128) -> (r:
    u128)
    requires
        old(position).unlocked_long + long_returned <= u128::MAX,
        old(position).unlocked_short + short_returned <= u128::MAX,
    ensures
        r == old(position).unlocked_shares,
        *final(position) == (FieldPosition {
            unlocked_long: (old(position).unlocked_long + long_returned) as u128,
            unlocked_short: (old(position).unlocked_short + short_returned) as u128,
            unlocked_shares: 0,
            ..*old(position)
        }),
{
    let shares = position.unlocked_shares;
    position.unlocked_long = position.unlocked_long + long_returned;
    position.unlocked_short = position.unlocked_short + short_returned;
    position.unlocked_shares = position.unlocked_shares - shares;
    shares
}

/// The bond units for bonding `amount` shares when `total_bond` shares are bonded against
/// `total_units` units: a fixed number per share for the first bond, a proportional share
/// otherwise.
pub open spec fn field_bond_units(total_units: u128, amount: u128, total_bond: u128) -> int {
    if total_bond == 0 {
        amount * DEFAULT_BOND_UNITS_PER_SHARE_BONDED
    } else {
        ratio(total_units as int, amount as int, total_bond as int)
    }
}

/// What a bond step does.
#[derive(Debug, Clone, Copy, PartialEq, Eq, Structural)]
pub struct BondDone {
    pub bond_amount: u128,
    pub bond_units_added: u128,
}

/// Bonds all of `user`'s unlocked shares, where `total_bond` shares are bonded already; the
/// user is credited bond units, unless the user is the farm itself (`contract`), which
/// reinvests for everyone.
pub fn bond(
    state: &mut FieldState,
    position: &mut FieldPosition,
    user: &String,
    contract: &String,
    total_bond: u128,
) -> (r: BondDone)
    requires
        field_bond_units(old(state).total_bond_units, old(position).unlocked_shares, total_bond)
            <= u128::MAX,
        user@ != contract@ ==> old(state).total_bond_units + field_bond_units(
            old(state).total_bond_units,
            old(position).unlocked_shares,
            total_bond,
        ) <= u128::MAX && old(position).bond_units + field_bond_units(
            old(state).total_bond_units,
            old(position).unlocked_shares,
            total_bond,
        ) <= u128::MAX,
    ensures
        ({
            let units = if user@ == contract@ {
                0
            } else {
                field_bond_units(old(state).total_bond_units, old(position).unlocked_shares, total_bond)
            };
            &&& r == (BondDone {
                bond_amount: old(position).unlocked_shares,
                bond_units_added: units as u128,
            })
            &&& *final(state) == (FieldState {
                total_bond_units: (old(state).total_bond_units + units) as u128,
                ..*old(state)
            })
            &&& *final(position) == (FieldPosition {
                bond_units: (old(position).bond_units + units) as u128,
                unlocked_shares: 0,
                ..*old(position)
            })
        }),
{
    let amount = position.unlocked_shares;
    let computed = if total_bond == 0 {
        amount * DEFAULT_BOND_UNITS_PER_SHARE_BONDED
    } else {
        multiply_ratio(state.total_bond_units, amount, total_bond)
    };
    let units = if string_eq(user, contract) {
        0
    } else {
        computed
    };
    state.total_bond_units = state.total_bond_units + units;
    position.bond_units = position.bond_units + units;
    position.unlocked_shares = position.unlocked_shares - amount;
    BondDone { bond_amount: amount, bond_units_added: units }
}

/// What an unbond step does.
#[derive(Debug, Clone, Copy, PartialEq, Eq, Structural)]
pub struct UnbondDone {
    pub bond_units_reduced: u128,
    pub unbond_amount: u128,
}

/// Unbonds the shares that `bond_units` of the user's units (all of them when `None`) stand
/// for, where `total_bond` shares are bonded; the shares join the share slot.
pub fn unbond(
    state: &mut FieldState,
    position: &mut FieldPosition,
    bond_units: Option<u128>,
    total_bond: u128,
) -> (r: UnbondDone)
    requires
        old(state).total_bond_units > 0,
        ({
            let units = match bond_units {
                Some(u) => u,
                None => old(position).bond_units,
            };
            let amount = ratio(total_bond as int, units as int, old(state).total_bond_units as int);
            &&& amount <= u128::MAX
            &&& units <= old(state).total_bond_units
            &&& units <= old(position).bond_units
            &&& old(position).unlocked_shares + amount <= u128::MAX
        }),
    ensures
        ({
            let units = match bond_units {
                Some(u) => u,
                None => old(position).bond_units,
            };
            let amount = ratio(total_bond as int, units as int, old(state).total_bond_units as int);
            &&& r == (UnbondDone { bond_units_reduced: units, unbond_amount: amount as u128 })
            &&& *final(state) == (FieldState {
                total_bond_units: (old(state).total_bond_units - units) as u128,
                ..*old(state)
            })
            &&& *final(position) == (FieldPosition {
                bond_units: (old(position).bond_units - units) as u128,
                unlocked_shares: (old(position).unlocked_shares + amount) as u128,
                ..*old(position)
            })
        }),
{
    let units = match bond_units {
        Some(u) => u,
        None => position.bond_units,
    };
    let amount = multiply_ratio(total_bond, units, state.total_bond_units);
    state.total_bond_units = state.total_bond_units - units;
    position.bond_units = position.bond_units - units;
    position.unlocked_shares = position.unlocked_shares + amount;
    UnbondDone { bond_units_reduced: units, unbond_amount: amount }
}

/// The debt units for borrowing `amount` when `total_debt` is owed against `total_units`
/// units: a fixed number per unit for the first loan, a proportional share otherwise.
pub open spec fn field_debt_units(total_units: u128, amount: u128, total_debt: u128) -> int {
    if total_debt == 0 {
        amount * DEFAULT_DEBT_UNITS_PER_ASSET_BORROWED
    } else {
        ratio(total_units as int, amount as int, total_debt as int)
    }
}

/// What a borrow step does.
#[derive(Debug, Clone, Copy, PartialEq, Eq, Structural)]
pub struct BorrowDone {
    pub debt_units_added: u128,
    pub amount_after_tax: u128,
}

/// Borrows `amount` of the short asset for the user, where `total_debt` is what the farm owes;
/// what arrives after tax joins the short slot. Nothing happens for a zero amount.
pub fn borrow(
    config: &FieldConfig,
    state: &mut FieldState,
    position: &mut FieldPosition,
    amount: u128,
    total_debt: u128,
    short_tax: TaxInfo,
) -> (r: Option<BorrowDone>)
    requires
        tax_ok(short_tax),
        amount != 0 ==> ({
            let units = field_debt_units(old(state).total_debt_units, amount, total_debt);
            &&& units <= u128::MAX
            &&& old(state).total_debt_units + units <= u128::MAX
            &&& old(position).debt_units + units <= u128::MAX
            &&& old(position).unlocked_short + after_tax(config.short_asset, amount, short_tax)
                <= u128::MAX
        }),
    ensures
        amount == 0 ==> r is None && *final(state) == *old(state) && *final(position) == *old(
            position,
        ),
        amount != 0 ==> ({
            let units = field_debt_units(old(state).total_debt_units, amount, total_debt);
            let arrived = after_tax(config.short_asset, amount, short_tax);
            &&& r == Some(
                BorrowDone { debt_units_added: units as u128, amount_after_tax: arrived as u128 },
            )
            &&& *final(state) == (FieldState {
                total_debt_units: (old(state).total_debt_units + units) as u128,
                ..*old(state)
            })
            &&& *final(position) == (FieldPosition {
                debt_units: (old(position).debt_units + units) as u128,
                unlocked_short: (old(position).unlocked_short + arrived) as u128,
                ..*old(position)
            })
        }),
{
    if amount == 0 {
        return None;
    }
    let units = if total_debt == 0 {
        amount * DEFAULT_DEBT_UNITS_PER_ASSET_BORROWED
    } else {
        multiply_ratio(state.total_debt_units, amount, total_debt)
    };
    let arrived = deliverable(&config.short_asset, amount, short_tax);
    state.total_debt_units = state.total_debt_units + units;
    position.debt_units = position.debt_units + units;
    position.unlocked_short = position.unlocked_short + arrived;
    Some(BorrowDone { debt_units_added: units, amount_after_tax: arrived })
}

/// What a repay step does.
#[derive(Debug, Clone, Copy, PartialEq, Eq, Structural)]
pub struct RepayDone {
    /// What reaches the lender
    pub repay_amount: u128,
    /// What leaves the short slot, tax included
    pub repay_cost: u128,
    pub debt_units_reduced: u128,
}

/// The amount repaid: what arrives of the unlocked short asset, at most the user's debt.
pub open spec fn field_repay_amount(config: &FieldConfig, position: FieldPosition, debt: int, tax: TaxInfo) -> int {
    let deliverable = after_tax(config.short_asset, position.unlocked_short, tax);
    if deliverable < debt {
        deliverable
    } else {
        debt
    }
}

/// Repays the user's debt with the unlocked short asset, where `total_debt` is what the farm
/// owes: what arrives after tax, at most the user's share of the debt, is repaid; the debt
/// units shrink in proportion. Nothing happens when there is no short asset or no debt.
pub fn repay(
    config: &FieldConfig,
    state: &mut FieldState,
    position: &mut FieldPosition,
    total_debt: u128,
    short_tax: TaxInfo,
) -> (r: Option<RepayDone>)
    requires
        tax_ok(short_tax),
        old(position).unlocked_short != 0 && old(position).debt_units != 0 ==> ({
            let debt = field_debt(total_debt, *old(position), *old(state));
            let amount = field_repay_amount(config, *old(position), debt, short_tax);
            &&& old(state).total_debt_units > 0
            &&& 0 < debt <= u128::MAX
            &&& add_fits(amount, short_tax)
            &&& with_tax(config.short_asset, amount as u128, short_tax) <= old(position).unlocked_short
            &&& ratio(old(position).debt_units as int, amount, debt) <= old(state).total_debt_units
        }),
    ensures
        !(old(position).unlocked_short != 0 && old(position).debt_units != 0) ==> r is None
            && *final(state) == *old(state) && *final(position) == *old(position),
        old(position).unlocked_short != 0 && old(position).debt_units != 0 ==> ({
            let debt = field_debt(total_debt, *old(position), *old(state));
            let amount = field_repay_amount(config, *old(position), debt, short_tax);
            let cost = with_tax(config.short_asset, amount as u128, short_tax);
            let units = ratio(old(position).debt_units as int, amount, debt);
            &&& r == Some(
                RepayDone {
                    repay_amount: amount as u128,
                    repay_cost: cost as u128,
                    debt_units_reduced: units as u128,
                },
            )
            &&& units <= old(position).debt_units
            &&& *final(state) == (FieldState {
                total_debt_units: (old(state).total_debt_units - units) as u128,
                ..*old(state)
            })
            &&& *final(position) == (FieldPosition {
                debt_units: (old(position).debt_units - units) as u128,
                unlocked_short: (old(position).unlocked_short - cost) as u128,
                ..*old(position)
            })
        }),
{
    if position.unlocked_short == 0 || position.debt_units == 0 {
        return None;
    }
    let debt = multiply_ratio(total_debt, position.debt_units, state.total_debt_units);
    let delivered = deliverable(&config.short_asset, position.unlocked_short, short_tax);
    let amount = if delivered < debt {
        delivered
    } else {
        debt
    };
    let cost = cost_of(&config.short_asset, amount, short_tax);
    proof {
        lemma_ratio_at_most(position.debt_units as int, amount as int, debt as int);
    }
    let units = multiply_ratio(position.debt_units, amount, debt);
    state.total_debt_units = state.total_debt_units - units;
    position.debt_units = position.debt_units - units;
    position.unlocked_short = position.unlocked_short - cost;
    Some(RepayDone { repay_amount: amount, repay_cost: cost, debt_units_reduced: units })
}

/// What refunding takes from one slot holding `unlocked`: the percentage of it, less the
/// transfer's tax, is sent; the slot pays that plus its tax.
pub open spec fn slot_refund(info: AssetInfo, unlocked: u128, percentage: Decimal, tax: TaxInfo) -> (int, int) {
    let sent = after_tax(info, ratio(unlocked as int, percentage.atomics as int, DECIMAL_FRACTIONAL as int) as u128, tax);
    (sent, with_tax(info, sent as u128, tax))
}

/// Whether refunding a slot stays within 128 bits and within what the slot holds.
pub open spec fn slot_refund_fits(info: AssetInfo, unlocked: u128, percentage: Decimal, tax: TaxInfo) -> bool {
    &&& tax_ok(tax)
    &&& ratio(unlocked as int, percentage.atomics as int, DECIMAL_FRACTIONAL as int) <= u128::MAX
    &&& add_fits(slot_refund(info, unlocked, percentage, tax).0, tax)
    &&& slot_refund(info, unlocked, percentage, tax).1 <= unlocked
}

/// Refunds one slot: returns what is sent and what the slot pays.
fn refund_slot(info: &AssetInfo, unlocked: u128, percentage: Decimal, tax: TaxInfo) -> (r: (u128, u128))
    requires
        slot_refund_fits(*info, unlocked, percentage, tax),
    ensures
        r.0 == slot_refund(*info, unlocked, percentage, tax).0,
        r.1 == slot_refund(*info, unlocked, percentage, tax).1,
{
    let share = mul_decimal(unlocked, percentage);
    let sent = deliverable(info, share, tax);
    let cost = cost_of(info, sent, tax);
    (sent, cost)
}

/// The assets worth sending: those with a non-zero amount, in order.
pub open spec fn nonzero_assets(assets: Seq<Asset>) -> Seq<Asset> {
    assets.filter(|a: Asset| a.amount != 0)
}

/// What a refund sends: the amounts taken from each slot, and the transfers of the non-zero
/// ones.
pub struct Refunded {
    pub long_refunded: u128,
    pub short_refunded: u128,
    pub shares_refunded: u128,
    pub transfers: Vec<Asset>,
}

/// Refunds `percentage` of each unlocked slot to a recipient: from each slot that share, less
/// the transfer's tax, is sent, and the slot pays what is sent plus the tax.
pub fn refund(
    config: &FieldConfig,
    position: &mut FieldPosition,
    percentage: Decimal,
    taxes: SlotTaxes,
) -> (r: Refunded)
    requires
        slot_refund_fits(config.long_asset, old(position).unlocked_long, percentage, taxes.long),
        slot_refund_fits(config.short_asset, old(position).unlocked_short, percentage, taxes.short),
        slot_refund_fits(config.share_token, old(position).unlocked_shares, percentage, taxes.shares),
    ensures
        ({
            let long = slot_refund(config.long_asset, old(position).unlocked_long, percentage, taxes.long);
            let short = slot_refund(config.short_asset, old(position).unlocked_short, percentage, taxes.short);
            let shares = slot_refund(config.share_token, old(position).unlocked_shares, percentage, taxes.shares);
            &&& r.long_refunded == long.0
            &&& r.short_refunded == short.0
            &&& r.shares_refunded == shares.0
            &&& r.transfers@ == nonzero_assets(
                seq![
                    Asset { info: config.long_asset, amount: long.0 as u128 },
                    Asset { info: config.short_asset, amount: short.0 as u128 },
                    Asset { info: config.share_token, amount: shares.0 as u128 },
                ],
            )
            &&& *final(position) == (FieldPosition {
                unlocked_long: (old(position).unlocked_long - long.1) as u128,
                unlocked_short: (old(position).unlocked_short - short.1) as u128,
                unlocked_shares: (old(position).unlocked_shares - shares.1) as u128,
                ..*old(position)
            })
        }),
{
    let (long_sent, long_cost) = refund_slot(&config.long_asset, position.unlocked_long, percentage, taxes.long);
    let (short_sent, short_cost) = refund_slot(&config.short_asset, position.unlocked_short, percentage, taxes.short);
    let (shares_sent, shares_cost) = refund_slot(&config.share_token, position.unlocked_shares, percentage, taxes.shares);
    position.unlocked_long = position.unlocked_long - long_cost;
    position.unlocked_short = position.unlocked_short - short_cost;
    position.unlocked_shares = position.unlocked_shares - shares_cost;
    let ghost all = seq![
        Asset { info: config.long_asset, amount: long_sent },
        Asset { info: config.short_asset, amount: short_sent },
        Asset { info: config.share_token, amount: shares_sent },
    ];
    let mut transfers: Vec<Asset> = Vec::new();
    if long_sent != 0 {
        transfers.push(Asset { info: config.long_asset.duplicate(), amount: long_sent });
    }
    if short_sent != 0 {
        transfers.push(Asset { info: config.short_asset.duplicate(), amount: short_sent });
    }
    if shares_sent != 0 {
        transfers.push(Asset { info: config.share_token.duplicate(), amount: shares_sent });
    }
    proof {
        reveal_with_fuel(Seq::filter, 4);
        assert(all.drop_last().drop_last().drop_last() =~= Seq::<Asset>::empty());
        assert(all.drop_last().drop_last() =~= seq![all[0]]);
        assert(all.drop_last() =~= seq![all[0], all[1]]);
        assert(transfers@ =~= nonzero_assets(all));
    }
    Refunded {
        long_refunded: long_sent,
        short_refunded: short_sent,
        shares_refunded: shares_sent,
        transfers,
    }
}

/// What reinvesting a reward decides before the swap.
#[derive(Debug, Clone, Copy, PartialEq, Eq, Structural)]
pub struct ReinvestPlan {
    /// The fee sent to the treasury
    pub fee: u128,
    /// Half of the reward after the fee, rounded down, kept as long asset
    pub retain_amount: u128,
    /// The rest, swapped for the short asset
    pub offer_amount: u128,
    /// What arrives at the pair of the offer after tax
    pub offer_after_tax: u128,
}

/// How `amount` of reward, which is of the long asset, is split: the fee rate's share is
/// charged, half the rest (rounded down) is kept, and the other half is offered for the short
/// asset, less the transfer's tax.
pub open spec fn reinvest_plan_model(config: &FieldConfig, amount: u128, long_tax: TaxInfo) -> ReinvestPlan {
    let fee = ratio(amount as int, config.fee_rate.atomics as int, DECIMAL_FRACTIONAL as int);
    let after = amount - fee;
    let retain = ratio(after, 1, 2);
    let offer = after - retain;
    ReinvestPlan {
        fee: fee as u128,
        retain_amount: retain as u128,
        offer_amount: offer as u128,
        offer_after_tax: after_tax(config.long_asset, offer as u128, long_tax) as u128,
    }
}

/// The first half of reinvesting `amount` of reward. The pair is then asked what the offer
/// returns, and [`reinvest`] completes the step.
pub fn plan_reinvest(config: &FieldConfig, amount: u128, long_tax: TaxInfo) -> (r: ReinvestPlan)
    requires
        tax_ok(long_tax),
        ratio(amount as int, config.fee_rate.atomics as int, DECIMAL_FRACTIONAL as int) <= amount,
    ensures
        r == reinvest_plan_model(config, amount, long_tax),
{
    let fee = mul_decimal(amount, config.fee_rate);
    let after = amount - fee;
    proof {
        lemma_ratio_at_most(after as int, 1, 2);
    }
    let retain = multiply_ratio(after, 1, 2);
    let offer = after - retain;
    let offer_after_tax = deliverable(&config.long_asset, offer, long_tax);
    ReinvestPlan { fee, retain_amount: retain, offer_amount: offer, offer_after_tax }
}

/// The second half of reinvesting: the kept half joins the farm's long slot, and what arrives
/// of the swap's `return_amount` after tax joins its short slot; returns what arrives.
pub fn reinvest(
    config: &FieldConfig,
    position: &mut FieldPosition,
    plan: &ReinvestPlan,
    return_amount: u128,
    short_tax: TaxInfo,
) -> (r: u128)
    requires
        tax_ok(short_tax),
        old(position).unlocked_long + plan.retain_amount <= u128::MAX,
        old(position).unlocked_short + after_tax(config.short_asset, return_amount, short_tax)
            <= u128::MAX,
    ensures
        r == after_tax(config.short_asset, return_amount, short_tax),
        *final(position) == (FieldPosition {
            unlocked_long: (old(position).unlocked_long + plan.retain_amount) as u128,
            unlocked_short: (old(position).unlocked_short + r) as u128,
            ..*old(position)
        }),
{
    let arrived = deliverable(&config.short_asset, return_amount, short_tax);
    position.unlocked_long = position.unlocked_long + plan.retain_amount;
    position.unlocked_short = position.unlocked_short + arrived;
    arrived
}

/// Whether a position is healthy: its loan-to-value ratio is at most the limit, or, when it
/// has no bonded value, it has no debt.
pub open spec fn field_healthy(max_ltv: Decimal, ltv: Option<Decimal>, debt_value: u128) -> bool {
    match ltv {
        Some(l) => l.atomics <= max_ltv.atomics,
        None => debt_value == 0,
    }
}

/// Refuses a position whose loan-to-value ratio exceeds the limit, or which owes without any
/// bonded value.
pub fn assert_health(config: &FieldConfig, ltv: Option<Decimal>, debt_value: u128) -> (r: Result<
    (),
    ContractError,
>)
    ensures
        r is Ok <==> field_healthy(config.max_ltv, ltv, debt_value),
        r is Err ==> r == Err::<(), ContractError>(ContractError::LtvAboveThreshold { ltv }),
{
    let healthy = match ltv {
        Some(l) => l.atomics <= config.max_ltv.atomics,
        None => debt_value == 0,
    };
    if healthy {
        Ok(())
    } else {
        Err(ContractError::LtvAboveThreshold { ltv })
    }
}

// ---------------------------------------------------------------------------------------------
// Health
// ---------------------------------------------------------------------------------------------

/// What valuing a position reads of the pair, the staking contract, the lender and the state.
#[derive(Debug, Clone, Copy)]
pub struct FieldMarket {
    /// The pair's depth of the short asset
    pub short_depth: u128,
    /// The supply of the pair's share token
    pub share_supply: u128,
    /// The shares the farm has bonded
    pub total_bond: u128,
    /// What the farm owes the lender
    pub total_debt: u128,
    pub total_bond_units: u128,
    pub total_debt_units: u128,
}

/// A position's value, debt, and their ratio.
#[derive(Debug, Clone, Copy, PartialEq, Eq, Structural)]
pub struct FieldHealth {
    pub bond_value: u128,
    pub debt_value: u128,
    pub ltv: Option<Decimal>,
}

/// The value of `bond_units`: the pool is worth twice its short depth, the farm holds its
/// bonded share of the supply, and the units hold their share of that; each step rounds down.
pub open spec fn field_bond_value(m: FieldMarket, bond_units: u128) -> int {
    if m.total_bond_units == 0 {
        0
    } else {
        ratio(
            ratio(2 * m.short_depth, m.total_bond as int, m.share_supply as int),
            bond_units as int,
            m.total_bond_units as int,
        )
    }
}

/// The debt that `debt_units` stand for.
pub open spec fn field_debt_value(m: FieldMarket, debt_units: u128) -> int {
    if m.total_debt_units == 0 {
        0
    } else {
        ratio(m.total_debt as int, debt_units as int, m.total_debt_units as int)
    }
}

/// The health of a position with the given units.
pub open spec fn field_health(m: FieldMarket, bond_units: u128, debt_units: u128) -> FieldHealth {
    let bond_value = field_bond_value(m, bond_units);
    let debt_value = field_debt_value(m, debt_units);
    FieldHealth {
        bond_value: bond_value as u128,
        debt_value: debt_value as u128,
        ltv: if bond_value == 0 {
            None
        } else {
            Some(Decimal { atomics: ratio(debt_value, DECIMAL_FRACTIONAL as int, bond_value) as u128 })
        },
    }
}

/// Whether valuing a position stays within 128 bits and divides by no zero.
pub open spec fn field_health_computable(m: FieldMarket, bond_units: u128, debt_units: u128) -> bool {
    let bond_value = field_bond_value(m, bond_units);
    let debt_value = field_debt_value(m, debt_units);
    &&& m.total_bond_units > 0 ==> {
        &&& m.share_supply > 0
        &&& 2 * m.short_depth <= u128::MAX
        &&& ratio(2 * m.short_depth, m.total_bond as int, m.share_supply as int) <= u128::MAX
        &&& bond_value <= u128::MAX
    }
    &&& debt_value <= u128::MAX
    &&& bond_value > 0 ==> ratio(debt_value, DECIMAL_FRACTIONAL as int, bond_value) <= u128::MAX
}

/// Values a position with `bond_units` and `debt_units` (the farm as a whole with the total
/// units).
pub fn query_health(m: FieldMarket, bond_units: u128, debt_units: u128) -> (h: FieldHealth)
    requires
        field_health_computable(m, bond_units, debt_units),
    ensures
        h == field_health(m, bond_units, debt_units),
{
    let bond_value = if m.total_bond_units == 0 {
        0
    } else {
        let pool_value = m.short_depth + m.short_depth;
        let farm_value = multiply_ratio(pool_value, m.total_bond, m.share_supply);
        multiply_ratio(farm_value, bond_units, m.total_bond_units)
    };
    let debt_value = if m.total_debt_units == 0 {
        0
    } else {
        multiply_ratio(m.total_debt, debt_units, m.total_debt_units)
    };
    let ltv = if bond_value == 0 {
        None
    } else {
        Some(Decimal::from_ratio(debt_value, bond_value))
    };
    FieldHealth { bond_value, debt_value, ltv }
}

} // verus!
