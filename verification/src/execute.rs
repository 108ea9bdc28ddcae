//! What the vault does with the requests of its users, operators, liquidators and governance.
//!
//! A request is answered with the callbacks the vault then sends itself, in order.

use vstd::prelude::*;

use crate::assets::{
    amount_of, asset_list_entries, coins_entries, entries_add, entries_add_many, entries_deduct,
    entries_deduct_many, entries_find, list_add, list_add_many, list_clone, list_deduct,
    list_deduct_many, list_find, list_from_coins, list_len, list_purge, list_scale,
    list_scale_fits, purged,
    scale_fits, entries_scaled, string_eq, Asset, AssetEntry, AssetInfo, AssetList, Coin,
};
use crate::math::Decimal;
use crate::state::{
    Action, CallbackMsg, Config, ContractError, ErrorKind, Position, PositionView, State,
    StateView,
};

verus! {

/// Whether `addr` is one of `list`.
pub open spec fn has_address(list: Seq<String>, addr: Seq<char>) -> bool {
    exists|i: int| 0 <= i < list.len() && (#[trigger] list[i])@ == addr
}

/// Whether `addr` is one of `list`.
pub fn contains_address(list: &Vec<String>, addr: &String) -> (r: bool)
    ensures
        r == has_address(list@, addr@),
{
    let mut i: usize = 0;
    while i < list.len()
        invariant
            i <= list.len(),
            forall|j: int| 0 <= j < i ==> (#[trigger] list@[j])@ != addr@,
        decreases list.len() - i,
    {
        if string_eq(&list[i], addr) {
            return true;
        }
        i = i + 1;
    }
    false
}

// ---------------------------------------------------------------------------------------------
// Update position
// ---------------------------------------------------------------------------------------------

/// Where a sequence of actions has got to.
pub struct UpdateProgress {
    /// Coins sent with the request that no deposit has accounted for yet
    pub received: Seq<AssetEntry>,
    /// The position's unlocked assets
    pub unlocked: Seq<AssetEntry>,
    /// CW20 deposits to draw from the user's wallet, in order
    pub pulls: Seq<Asset>,
    /// All non-zero deposits, in order
    pub deposits: Seq<Asset>,
    /// Callbacks to send, in order
    pub callbacks: Seq<CallbackMsg>,
}

/// What a deposit does: nothing for a zero amount; otherwise a CW20 token is drawn from the
/// user, a native coin must have been sent in exactly that amount, and the asset joins the
/// unlocked assets.
pub open spec fn deposit_step(p: UpdateProgress, asset: Asset) -> Result<UpdateProgress, ErrorKind> {
    if asset.amount == 0 {
        Ok(p)
    } else {
        let received = if asset.info is Cw20 {
            Ok(p.received)
        } else {
            let got = amount_of(p.received, asset.info.key());
            if got != asset.amount {
                Err(ErrorKind::SentFundMismatch { expected: asset.entry(), received: got })
            } else {
                match entries_deduct(p.received, asset.entry()) {
                    Ok(rest) => Ok(rest),
                    Err(_) => Err(ErrorKind::Asset),
                }
            }
        };
        match received {
            Err(k) => Err(k),
            Ok(received) => match entries_add(p.unlocked, asset.entry()) {
                None => Err(ErrorKind::Asset),
                Some(unlocked) => Ok(
                    UpdateProgress {
                        received,
                        unlocked,
                        pulls: if asset.info is Cw20 {
                            p.pulls.push(asset)
                        } else {
                            p.pulls
                        },
                        deposits: p.deposits.push(asset),
                        callbacks: p.callbacks,
                    },
                ),
            },
        }
    }
}

/// The callbacks an action other than a deposit asks for.
pub open spec fn action_callbacks(config: &Config, sender: String, action: Action) -> Seq<
    CallbackMsg,
> {
    match action {
        Action::Deposit(_) => Seq::empty(),
        Action::Borrow { amount } => seq![
            CallbackMsg::Borrow { user_addr: sender, borrow_amount: amount },
        ],
        Action::Repay { amount } => seq![
            CallbackMsg::Repay { user_addr: sender, repay_amount: Some(amount) },
        ],
        Action::Bond { slippage_tolerance } => seq![
            CallbackMsg::ProvideLiquidity { user_addr: Some(sender), slippage_tolerance },
            CallbackMsg::Bond { user_addr: Some(sender) },
        ],
        Action::Unbond { bond_units_to_reduce } => seq![
            CallbackMsg::Unbond { user_addr: sender, bond_units_to_reduce },
            CallbackMsg::WithdrawLiquidity { user_addr: sender },
        ],
        Action::Swap { offer_amount, max_spread } => seq![
            CallbackMsg::Swap {
                user_addr: Some(sender),
                offer_asset_info: config.primary_asset_info,
                offer_amount: Some(offer_amount),
                max_spread,
            },
        ],
    }
}

/// One action applied to the progress so far.
pub open spec fn action_step(
    config: &Config,
    sender: String,
    p: UpdateProgress,
    action: Action,
) -> Result<UpdateProgress, ErrorKind> {
    match action {
        Action::Deposit(asset) => deposit_step(p, asset),
        _ => Ok(UpdateProgress { callbacks: p.callbacks + action_callbacks(config, sender, action), ..p }),
    }
}

/// The actions applied in order, from the coins sent and the position's unlocked assets.
pub open spec fn actions_progress(
    config: &Config,
    sender: String,
    received: Seq<AssetEntry>,
    unlocked: Seq<AssetEntry>,
    actions: Seq<Action>,
) -> Result<UpdateProgress, ErrorKind>
    decreases actions.len(),
{
    if actions.len() == 0 {
        Ok(
            UpdateProgress {
                received,
                unlocked,
                pulls: Seq::empty(),
                deposits: Seq::empty(),
                callbacks: Seq::empty(),
            },
        )
    } else {
        match actions_progress(config, sender, received, unlocked, actions.drop_last()) {
            Err(k) => Err(k),
            Ok(p) => action_step(config, sender, p, actions.last()),
        }
    }
}

/// Once an action is refused, the whole sequence of actions is refused the same way.
proof fn lemma_refusal_sticks(
    config: &Config,
    sender: String,
    received: Seq<AssetEntry>,
    unlocked: Seq<AssetEntry>,
    actions: Seq<Action>,
    m: int,
)
    requires
        0 <= m <= actions.len(),
        actions_progress(config, sender, received, unlocked, actions.take(m)) is Err,
    ensures
        actions_progress(config, sender, received, unlocked, actions) == actions_progress(
            config,
            sender,
            received,
            unlocked,
            actions.take(m),
        ),
    decreases actions.len() - m,
{
    if m == actions.len() {
        assert(actions.take(m) == actions);
    } else {
        assert(actions.take(m + 1).drop_last() == actions.take(m));
        lemma_refusal_sticks(config, sender, received, unlocked, actions, m + 1);
    }
}

/// The callbacks closing every update: refund what is not farmed, check the loan-to-value
/// ratio, and drop the position if it is empty.
pub open spec fn closing_callbacks(sender: String) -> Seq<CallbackMsg> {
    seq![
        CallbackMsg::Refund {
            user_addr: sender,
            recipient_addr: sender,
            percentage: Decimal { atomics: crate::math::DECIMAL_FRACTIONAL },
        },
        CallbackMsg::AssertHealth { user_addr: sender },
        CallbackMsg::PurgeStorage { user_addr: sender },
    ]
}

/// What an update of a position sends out.
pub struct UpdatePositionOutcome {
    /// CW20 deposits to draw from the user's wallet, in order
    pub pulls: Vec<Asset>,
    /// All non-zero deposits, in order
    pub deposits: Vec<Asset>,
    /// Callbacks to send, in order
    pub callbacks: Vec<CallbackMsg>,
}

/// What updating a position does: the actions are applied in order; every coin sent must be
/// accounted for by a deposit; the callbacks end with a full refund, a health check and a purge.
pub open spec fn update_position_model(
    config: &Config,
    sender: String,
    funds: Seq<Coin>,
    unlocked: Seq<AssetEntry>,
    actions: Seq<Action>,
) -> Result<UpdateProgress, ErrorKind> {
    let received = coins_entries(funds);
    match actions_progress(config, sender, received, unlocked, actions) {
        Err(k) => Err(k),
        Ok(p) => if p.received.len() > 0 {
            Err(ErrorKind::ExtraFundsReceived { received: p.received })
        } else {
            Ok(UpdateProgress { callbacks: p.callbacks + closing_callbacks(sender), ..p })
        },
    }
}

/// Applies a user's actions to their position, given the coins `funds` sent with the request.
pub fn update_position(
    config: &Config,
    sender: &String,
    funds: &Vec<Coin>,
    actions: &Vec<Action>,
    position: &mut Position,
) -> (r: Result<UpdatePositionOutcome, ContractError>)
    ensures
        match update_position_model(
            config,
            *sender,
            funds@,
            old(position)@.unlocked_assets,
            actions@,
        ) {
            Ok(m) => r is Ok && r->Ok_0.pulls@ == m.pulls && r->Ok_0.deposits@ == m.deposits
                && r->Ok_0.callbacks@ == m.callbacks && final(position)@ == PositionView {
                unlocked_assets: m.unlocked,
                ..old(position)@
            },
            Err(k) => r is Err && r->Err_0.kind() == k,
        },
        r is Err ==> final(position)@ == old(position)@,
{
    let mut position_copy = position.duplicate();
    let r = update_position_in_place(config, sender, funds, actions, &mut position_copy);
    if r.is_ok() {
        *position = position_copy;
    }
    r
}

/// The steps of `update_position`, done in place.
fn update_position_in_place(
    config: &Config,
    sender: &String,
    funds: &Vec<Coin>,
    actions: &Vec<Action>,
    position: &mut Position,
) -> (r: Result<UpdatePositionOutcome, ContractError>)
    ensures
        match update_position_model(
            config,
            *sender,
            funds@,
            old(position)@.unlocked_assets,
            actions@,
        ) {
            Ok(m) => r is Ok && r->Ok_0.pulls@ == m.pulls && r->Ok_0.deposits@ == m.deposits
                && r->Ok_0.callbacks@ == m.callbacks && final(position)@ == PositionView {
                unlocked_assets: m.unlocked,
                ..old(position)@
            },
            Err(k) => r is Err && r->Err_0.kind() == k,
        },
{
    let mut received = list_from_coins(funds);
    let ghost received0 = asset_list_entries(received);
    let ghost position0 = position@;
    let mut pulls: Vec<Asset> = Vec::new();
    let mut deposits: Vec<Asset> = Vec::new();
    let mut callbacks: Vec<CallbackMsg> = Vec::new();
    let mut i: usize = 0;
    while i < actions.len()
        invariant
            i <= actions.len(),
            received0 == coins_entries(funds@),
            position0 == old(position)@,
            position@.bond_units == position0.bond_units,
            position@.debt_units == position0.debt_units,
            actions_progress(config, *sender, received0, position0.unlocked_assets, actions@.take(i as int))
                == Ok::<UpdateProgress, ErrorKind>(
                UpdateProgress {
                    received: asset_list_entries(received),
                    unlocked: position@.unlocked_assets,
                    pulls: pulls@,
                    deposits: deposits@,
                    callbacks: callbacks@,
                },
            ),
        decreases actions.len() - i,
    {
        let ghost prefix = actions@.take(i as int);
        assert(actions@.take(i + 1).drop_last() == prefix);
        assert(actions@.take(i + 1).last() == actions@[i as int]);
        let ghost callbacks_before = callbacks@;
        match &actions[i] {
            Action::Deposit(asset) => {
                if asset.amount != 0 {
                    match &asset.info {
                        AssetInfo::Cw20(_) => {
                            pulls.push(asset.duplicate());
                        },
                        AssetInfo::Native(_) => {
                            let got = match list_find(&received, &asset.info) {
                                Some(a) => a,
                                None => 0,
                            };
                            if got != asset.amount {
                                proof {

                                    lemma_refusal_sticks(
                                        config,
                                        *sender,
                                        received0,
                                        position0.unlocked_assets,
                                        actions@,
                                        i + 1,
                                    );
                                }
                                return Err(
                                    ContractError::SentFundMismatch {
                                        expected: asset.duplicate(),
                                        received: got,
                                    },
                                );
                            }
                            if let Err(e) = list_deduct(&mut received, asset) {
                                proof {
                                    lemma_refusal_sticks(
                                        config,
                                        *sender,
                                        received0,
                                        position0.unlocked_assets,
                                        actions@,
                                        i + 1,
                                    );
                                }
                                return Err(ContractError::Asset(e));
                            }
                        },
                    }
                    if let Err(e) = list_add(&mut position.unlocked_assets, asset) {
                        proof {
                            lemma_refusal_sticks(
                                config,
                                *sender,
                                received0,
                                position0.unlocked_assets,
                                actions@,
                                i + 1,
                            );
                        }
                        return Err(ContractError::Asset(e));
                    }
                    deposits.push(asset.duplicate());
                }
            },
            Action::Borrow { amount } => {
                callbacks.push(CallbackMsg::Borrow { user_addr: sender.clone(), borrow_amount: *amount });
            },
            Action::Repay { amount } => {
                callbacks.push(
                    CallbackMsg::Repay { user_addr: sender.clone(), repay_amount: Some(*amount) },
                );
            },
            Action::Bond { slippage_tolerance } => {
                callbacks.push(
                    CallbackMsg::ProvideLiquidity {
                        user_addr: Some(sender.clone()),
                        slippage_tolerance: *slippage_tolerance,
                    },
                );
                callbacks.push(CallbackMsg::Bond { user_addr: Some(sender.clone()) });
            },
            Action::Unbond { bond_units_to_reduce } => {
                callbacks.push(
                    CallbackMsg::Unbond {
                        user_addr: sender.clone(),
                        bond_units_to_reduce: *bond_units_to_reduce,
                    },
                );
                callbacks.push(CallbackMsg::WithdrawLiquidity { user_addr: sender.clone() });
            },
            Action::Swap { offer_amount, max_spread } => {
                callbacks.push(
                    CallbackMsg::Swap {
                        user_addr: Some(sender.clone()),
                        offer_asset_info: config.primary_asset_info.duplicate(),
                        offer_amount: Some(*offer_amount),
                        max_spread: *max_spread,
                    },
                );
            },
        }
        assert(callbacks@ =~= callbacks_before + action_callbacks(config, *sender, actions@[i as int]));
        i = i + 1;
    }
    assert(actions@.take(actions.len() as int) == actions@);
    if list_len(&received) > 0 {
        return Err(ContractError::ExtraFundsReceived { received });
    }
    callbacks.push(
        CallbackMsg::Refund {
            user_addr: sender.clone(),
            recipient_addr: sender.clone(),
            percentage: Decimal::one(),
        },
    );
    callbacks.push(CallbackMsg::AssertHealth { user_addr: sender.clone() });
    callbacks.push(CallbackMsg::PurgeStorage { user_addr: sender.clone() });
    Ok(UpdatePositionOutcome { pulls, deposits, callbacks })
}

// ---------------------------------------------------------------------------------------------
// Harvest
// ---------------------------------------------------------------------------------------------

/// The pending rewards once the claimable rewards have joined them (when there are any).
pub open spec fn harvested_pending(state: StateView, rewards: Seq<AssetEntry>) -> Option<
    Seq<AssetEntry>,
> {
    if rewards.len() > 0 {
        entries_add_many(state.pending_rewards, rewards)
    } else {
        Some(state.pending_rewards)
    }
}

/// The callbacks reinvesting the pending rewards: sell any reward token, balance the primary
/// and secondary assets, provide them as liquidity, and bond the liquidity tokens.
pub open spec fn reinvest_callbacks(
    config: &Config,
    pending: Seq<AssetEntry>,
    max_spread: Option<Decimal>,
    slippage_tolerance: Option<Decimal>,
) -> Seq<CallbackMsg> {
    let sell = match entries_find(pending, config.astro_token_info.key()) {
        Some(a) => seq![
            CallbackMsg::Swap {
                user_addr: None,
                offer_asset_info: config.astro_token_info,
                offer_amount: Some(a),
                max_spread,
            },
        ],
        None => Seq::empty(),
    };
    sell + seq![
        CallbackMsg::Balance { max_spread },
        CallbackMsg::ProvideLiquidity { user_addr: None, slippage_tolerance },
        CallbackMsg::Bond { user_addr: None },
    ]
}

/// What a harvest sends out.
pub struct HarvestOutcome {
    /// Whether there are rewards to claim from the generator
    pub claim_rewards: bool,
    /// The fees sent to the treasury
    pub fees: AssetList,
    /// Callbacks to send, in order
    pub callbacks: Vec<CallbackMsg>,
}

/// What harvesting does: the claimable rewards join the pending rewards, the fee rate's share
/// of each pending reward goes to the treasury, and the rest is reinvested.
pub open spec fn harvest_model(
    config: &Config,
    sender: Seq<char>,
    state: StateView,
    rewards: Seq<AssetEntry>,
    max_spread: Option<Decimal>,
    slippage_tolerance: Option<Decimal>,
) -> Result<(StateView, Seq<AssetEntry>, Seq<CallbackMsg>), ErrorKind> {
    if !has_address(config.operators@, sender) {
        Err(ErrorKind::NotOperator)
    } else {
        match harvested_pending(state, rewards) {
            None => Err(ErrorKind::Asset),
            Some(pending) => {
                let fees = purged(entries_scaled(pending, config.fee_rate.atomics));
                match entries_deduct_many(pending, fees) {
                    Err(_) => Err(ErrorKind::Asset),
                    Ok(rest) => Ok(
                        (
                            StateView { pending_rewards: rest, ..state },
                            fees,
                            reinvest_callbacks(config, rest, max_spread, slippage_tolerance),
                        ),
                    ),
                }
            },
        }
    }
}

/// Whether charging the fee rate on the pending rewards, once the claimable `rewards` have
/// joined them, stays within 128 bits: what `harvest` needs of its arguments.
pub fn harvest_fee_fits(state: &State, rewards: &AssetList, fee_rate: Decimal) -> (r: bool)
    ensures
        r == (harvested_pending(state@, asset_list_entries(*rewards)) is Some ==> scale_fits(
            harvested_pending(state@, asset_list_entries(*rewards))->0,
            fee_rate.atomics,
        )),
{
    let mut pending = list_clone(&state.pending_rewards);
    if list_len(rewards) > 0 {
        if list_add_many(&mut pending, rewards).is_err() {
            return true;
        }
    }
    list_scale_fits(&pending, fee_rate)
}

/// Lets a whitelisted operator claim the generator's rewards (`rewards` is what can be
/// claimed), charge fees on them, and reinvest the rest.
pub fn harvest(
    config: &Config,
    state: &mut State,
    sender: &String,
    rewards: &AssetList,
    max_spread: Option<Decimal>,
    slippage_tolerance: Option<Decimal>,
) -> (r: Result<HarvestOutcome, ContractError>)
    requires
        has_address(config.operators@, sender@) && harvested_pending(
            old(state)@,
            asset_list_entries(*rewards),
        ) is Some ==> scale_fits(
            harvested_pending(old(state)@, asset_list_entries(*rewards))->0,
            config.fee_rate.atomics,
        ),
    ensures
        match harvest_model(
            config,
            sender@,
            old(state)@,
            asset_list_entries(*rewards),
            max_spread,
            slippage_tolerance,
        ) {
            Ok(m) => r is Ok && final(state)@ == m.0 && asset_list_entries(r->Ok_0.fees) == m.1
                && r->Ok_0.callbacks@ == m.2 && r->Ok_0.claim_rewards == (
            asset_list_entries(*rewards).len() > 0),
            Err(k) => r is Err && r->Err_0.kind() == k,
        },
        r is Err ==> final(state)@ == old(state)@,
{
    let mut state_copy = state.duplicate();
    let r = harvest_in_place(config, &mut state_copy, sender, rewards, max_spread, slippage_tolerance);
    if r.is_ok() {
        *state = state_copy;
    }
    r
}

/// Harvests as `harvest` does, after testing that charging the fee on what is pending fits in
/// 128 bits; when an operator's harvest would not fit, it is refused as an overflow and the
/// state is left as it was.
pub fn harvest_checked(
    config: &Config,
    state: &mut State,
    sender: &String,
    rewards: &AssetList,
    max_spread: Option<Decimal>,
    slippage_tolerance: Option<Decimal>,
) -> (r: Result<HarvestOutcome, ContractError>)
    ensures
        ({
            let fits = harvested_pending(old(state)@, asset_list_entries(*rewards)) is Some
                ==> scale_fits(
                harvested_pending(old(state)@, asset_list_entries(*rewards))->0,
                config.fee_rate.atomics,
            );
            &&& has_address(config.operators@, sender@) && !fits ==> (r matches Err(
                ContractError::Overflow,
            )) && final(state)@ == old(state)@
            &&& !(has_address(config.operators@, sender@) && !fits) ==> match harvest_model(
                config,
                sender@,
                old(state)@,
                asset_list_entries(*rewards),
                max_spread,
                slippage_tolerance,
            ) {
                Ok(m) => r is Ok && final(state)@ == m.0 && asset_list_entries(r->Ok_0.fees)
                    == m.1 && r->Ok_0.callbacks@ == m.2 && r->Ok_0.claim_rewards == (
                asset_list_entries(*rewards).len() > 0),
                Err(k) => r is Err && r->Err_0.kind() == k,
            }
        }),
{
    if contains_address(&config.operators, sender) && !harvest_fee_fits(
        state,
        rewards,
        config.fee_rate,
    ) {
        return Err(ContractError::Overflow);
    }
    harvest(config, state, sender, rewards, max_spread, slippage_tolerance)
}

/// The steps of `harvest`, done in place.
fn harvest_in_place(
    config: &Config,
    state: &mut State,
    sender: &String,
    rewards: &AssetList,
    max_spread: Option<Decimal>,
    slippage_tolerance: Option<Decimal>,
) -> (r: Result<HarvestOutcome, ContractError>)
    requires
        has_address(config.operators@, sender@) && harvested_pending(
            old(state)@,
            asset_list_entries(*rewards),
        ) is Some ==> scale_fits(
            harvested_pending(old(state)@, asset_list_entries(*rewards))->0,
            config.fee_rate.atomics,
        ),
    ensures
        match harvest_model(
            config,
            sender@,
            old(state)@,
            asset_list_entries(*rewards),
            max_spread,
            slippage_tolerance,
        ) {
            Ok(m) => r is Ok && final(state)@ == m.0 && asset_list_entries(r->Ok_0.fees) == m.1
                && r->Ok_0.callbacks@ == m.2 && r->Ok_0.claim_rewards == (
            asset_list_entries(*rewards).len() > 0),
            Err(k) => r is Err && r->Err_0.kind() == k,
        },
{
    if !contains_address(&config.operators, sender) {
        return Err(ContractError::NotOperator);
    }
    let claim_rewards = list_len(rewards) > 0;
    if claim_rewards {
        if let Err(e) = list_add_many(&mut state.pending_rewards, rewards) {
            return Err(ContractError::Asset(e));
        }
    }
    let mut fees = list_clone(&state.pending_rewards);
    list_scale(&mut fees, config.fee_rate);
    list_purge(&mut fees);
    if let Err(e) = list_deduct_many(&mut state.pending_rewards, &fees) {
        return Err(ContractError::Asset(e));
    }
    let mut callbacks: Vec<CallbackMsg> = Vec::new();
    if let Some(a) = list_find(&state.pending_rewards, &config.astro_token_info) {
        callbacks.push(
            CallbackMsg::Swap {
                user_addr: None,
                offer_asset_info: config.astro_token_info.duplicate(),
                offer_amount: Some(a),
                max_spread,
            },
        );
    }
    callbacks.push(CallbackMsg::Balance { max_spread });
    callbacks.push(CallbackMsg::ProvideLiquidity { user_addr: None, slippage_tolerance });
    callbacks.push(CallbackMsg::Bond { user_addr: None });
    assert(callbacks@ =~= reinvest_callbacks(
        config,
        asset_list_entries(state.pending_rewards),
        max_spread,
        slippage_tolerance,
    ));
    Ok(HarvestOutcome { claim_rewards, fees, callbacks })
}

// ---------------------------------------------------------------------------------------------
// Liquidate
// ---------------------------------------------------------------------------------------------

/// Whether a position may be liquidated: it is open (has a loan-to-value ratio) and that ratio
/// exceeds the limit.
pub open spec fn is_liquidatable(max_ltv: Decimal, ltv: Option<Decimal>) -> bool {
    match ltv {
        Some(l) => l.atomics > max_ltv.atomics,
        None => false,
    }
}

/// The callbacks liquidating a position: unbond everything, withdraw the liquidity, sell just
/// enough primary asset to cover the debt, repay it, pay the liquidator the bonus share, refund
/// the user the rest, waive any debt left, and drop the position if empty.
pub open spec fn liquidation_callbacks(
    config: &Config,
    user: String,
    liquidator: String,
    bond_units: u128,
) -> Seq<CallbackMsg> {
    seq![
        CallbackMsg::Unbond { user_addr: user, bond_units_to_reduce: bond_units },
        CallbackMsg::WithdrawLiquidity { user_addr: user },
        CallbackMsg::Cover { user_addr: user },
        CallbackMsg::Repay { user_addr: user, repay_amount: None },
        CallbackMsg::Refund { user_addr: user, recipient_addr: liquidator, percentage: config.bonus_rate },
        CallbackMsg::Refund {
            user_addr: user,
            recipient_addr: user,
            percentage: Decimal { atomics: crate::math::DECIMAL_FRACTIONAL },
        },
        CallbackMsg::ClearBadDebt { user_addr: user },
        CallbackMsg::PurgeStorage { user_addr: user },
    ]
}

/// Lets anyone liquidate a position whose loan-to-value ratio `ltv` exceeds the limit; a closed
/// position (`ltv` is `None`) and a healthy one are refused.
pub fn liquidate(
    config: &Config,
    position: &Position,
    user: &String,
    liquidator: &String,
    ltv: Option<Decimal>,
) -> (r: Result<Vec<CallbackMsg>, ContractError>)
    ensures
        ltv is None ==> r matches Err(ContractError::PositionClosed),
        ltv is Some && !is_liquidatable(config.max_ltv, ltv) ==> r matches Err(
            ContractError::PositionHealthy,
        ),
        is_liquidatable(config.max_ltv, ltv) ==> r is Ok && r->Ok_0@ == liquidation_callbacks(
            config,
            *user,
            *liquidator,
            position.bond_units,
        ),
{
    let l = match ltv {
        Some(l) => l,
        None => return Err(ContractError::PositionClosed),
    };
    if l.atomics <= config.max_ltv.atomics {
        return Err(ContractError::PositionHealthy);
    }
    let mut callbacks: Vec<CallbackMsg> = Vec::new();
    callbacks.push(
        CallbackMsg::Unbond { user_addr: user.clone(), bond_units_to_reduce: position.bond_units },
    );
    callbacks.push(CallbackMsg::WithdrawLiquidity { user_addr: user.clone() });
    callbacks.push(CallbackMsg::Cover { user_addr: user.clone() });
    callbacks.push(CallbackMsg::Repay { user_addr: user.clone(), repay_amount: None });
    callbacks.push(
        CallbackMsg::Refund {
            user_addr: user.clone(),
            recipient_addr: liquidator.clone(),
            percentage: config.bonus_rate,
        },
    );
    callbacks.push(
        CallbackMsg::Refund {
            user_addr: user.clone(),
            recipient_addr: user.clone(),
            percentage: Decimal::one(),
        },
    );
    callbacks.push(CallbackMsg::ClearBadDebt { user_addr: user.clone() });
    callbacks.push(CallbackMsg::PurgeStorage { user_addr: user.clone() });
    assert(callbacks@ =~= liquidation_callbacks(config, *user, *liquidator, position.bond_units));
    Ok(callbacks)
}

// ---------------------------------------------------------------------------------------------
// Update config, callbacks, replies
// ---------------------------------------------------------------------------------------------

/// Lets governance replace the configuration; returns the configuration to store.
/// `validation` is the outcome of checking the new configuration against the rules of the
/// vault's shared configuration package (with its refusal text when it fails); a configuration
/// it refuses is not stored, and the stored one stays as it is.
pub fn update_config(
    config: &Config,
    sender: &String,
    new_config: Config,
    validation: Result<(), String>,
) -> (r: Result<Config, ContractError>)
    ensures
        sender@ != config.governance@ ==> r matches Err(ContractError::NotGovernance),
        sender@ == config.governance@ && validation is Err ==> (r matches Err(
            ContractError::InvalidConfig { reason },
        ) && reason@ == validation->Err_0@),
        sender@ == config.governance@ && validation is Ok ==> r == Ok::<Config, ContractError>(
            new_config,
        ),
{
    if !string_eq(sender, &config.governance) {
        return Err(ContractError::NotGovernance);
    }
    match validation {
        Err(reason) => Err(ContractError::InvalidConfig { reason }),
        Ok(()) => Ok(new_config),
    }
}

/// Refuses a callback that the vault did not send itself.
pub fn check_callback_sender(sender: &String, contract_addr: &String) -> (r: Result<
    (),
    ContractError,
>)
    ensures
        sender@ == contract_addr@ ==> r is Ok,
        sender@ != contract_addr@ ==> r matches Err(ContractError::ExternalCallback),
{
    if !string_eq(sender, contract_addr) {
        return Err(ContractError::ExternalCallback);
    }
    Ok(())
}

/// The step that handles a submessage's reply.
#[derive(Debug, PartialEq, Eq, Structural)]
pub enum ReplyStep {
    AfterProvideLiquidity,
    AfterWithdrawLiquidity,
    AfterSwap,
}

/// The step for a reply identifier: providing liquidity is sent with 0, withdrawing it with 1,
/// a swap with 2; any other identifier is refused.
pub fn reply_step(id: u64) -> (r: Result<ReplyStep, ContractError>)
    ensures
        id == 0 ==> r == Ok::<ReplyStep, ContractError>(ReplyStep::AfterProvideLiquidity),
        id == 1 ==> r == Ok::<ReplyStep, ContractError>(ReplyStep::AfterWithdrawLiquidity),
        id == 2 ==> r == Ok::<ReplyStep, ContractError>(ReplyStep::AfterSwap),
        id > 2 ==> r == Err::<ReplyStep, ContractError>(ContractError::InvalidReplyId { id }),
{
    match id {
        0 => Ok(ReplyStep::AfterProvideLiquidity),
        1 => Ok(ReplyStep::AfterWithdrawLiquidity),
        2 => Ok(ReplyStep::AfterSwap),
        _ => Err(ContractError::InvalidReplyId { id }),
    }
}

} // verus!
