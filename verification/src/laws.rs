//! Properties that hold across the vault's steps.

use vstd::prelude::*;

use crate::assets::{
    amount_of, coins_entries, entries_add, entries_deduct, entries_find, entries_scaled,
    entries_wf, entry_key, keys_unique, lemma_add_many_wf, lemma_add_wf, lemma_amount_of_entry,
    lemma_amount_of_purged, lemma_deduct_all, lemma_deduct_many_amounts, lemma_deduct_many_wf,
    lemma_deduct_wf, lemma_purged_from, lemma_purged_wf, lemma_purged_without_zeros,
    lemma_scaled_amounts, lemma_scaled_by_one, lemma_scaled_keeps_keys, purged, AssetEntry,
    AssetKey, Coin,
};
use crate::callbacks::{
    balance_model, bond_model, bond_units_for, borrow_model, clear_bad_debt_model, cover_model,
    debt_share, held, lp_key, provide_liquidity_model, refund_amounts, refund_model,
    repay_amount_for, repay_model, swap_model, unbond_model, withdraw_liquidity_model,
    balance_offer_amount, value_at, BalanceOutcome,
};
use crate::execute::{actions_progress, harvest_model, harvested_pending, update_position_model};
use crate::replies::{after_withdraw_model, receive_model};
use crate::closure::{refund_round, RefundRound, UserRefund, UserUnits};
use crate::execute::{is_liquidatable, liquidation_callbacks};
use crate::callbacks::is_healthy;
use crate::health::{health_computable, health_model, unit_share, Market};
use crate::math::{
    lemma_ratio_at_least, lemma_ratio_at_most, lemma_ratio_bounded, lemma_ratio_cancel,
    lemma_ratio_plus_one_above, lemma_ratio_times_divisor, ratio,
    Decimal, DECIMAL_FRACTIONAL,
};
use crate::state::{Action, CallbackMsg, Config, PositionView, StateView, DEFAULT_BOND_UNITS_PER_SHARE_BONDED};
use crate::assets::AssetInfo;
use crate::slots::{
    add_fits, after_tax, increase_callbacks, reduce_callbacks, short_to_borrow, FieldCallback,
    field_bond_units, field_debt, field_healthy, field_repay_amount,
    liquidation_share, reinvest_plan_model, tax_ok, with_tax, FieldConfig, FieldPosition,
    FieldState,
};
use crate::strategy::{
    removal_fits, removal_model, strategy_bond_units, tax_on_add, tax_on_deduct, Position as StrategyPosition,
    State as StrategyState, TaxInfo,
};

verus! {

/// Bonding liquidity tokens and then unbonding the bond units credited for them returns at most
/// the tokens bonded: rounding never lets a user take tokens from the others.
pub proof fn law_bond_unbond_round_trip(
    config: &Config,
    state: StateView,
    position: PositionView,
    total_bonded: u128,
    rewards: Seq<AssetEntry>,
    later_rewards: Seq<AssetEntry>,
)
    requires
        bond_model(config, state, position, true, total_bonded, rewards) is Ok,
        total_bonded + bond_model(config, state, position, true, total_bonded, rewards)->Ok_0.2.shares_bonded
            <= u128::MAX,
        bond_model(config, state, position, true, total_bonded, rewards)->Ok_0.0.total_bond_units
            > 0,
    ensures
        ({
            let m = bond_model(config, state, position, true, total_bonded, rewards)->Ok_0;
            let bonded_after = (total_bonded + m.2.shares_bonded) as u128;
            &&& ratio(
                bonded_after as int,
                m.2.bond_units_added as int,
                m.0.total_bond_units as int,
            ) <= m.2.shares_bonded
            &&& unbond_model(config, m.0, m.1, m.2.bond_units_added, bonded_after, later_rewards) is Ok
                ==> unbond_model(
                config,
                m.0,
                m.1,
                m.2.bond_units_added,
                bonded_after,
                later_rewards,
            )->Ok_0.2.shares_unbonded <= m.2.shares_bonded
        }),
{
    let m = bond_model(config, state, position, true, total_bonded, rewards)->Ok_0;
    let a = m.2.shares_bonded as int;
    let u = m.2.bond_units_added as int;
    let big_u = state.total_bond_units as int;
    let b = total_bonded as int;
    assert(u == bond_units_for(true, state.total_bond_units, m.2.shares_bonded, total_bonded));
    assert(m.0.total_bond_units == big_u + u);
    if total_bonded == 0 {
        lemma_ratio_at_most(a, u, big_u + u);
    } else {
        lemma_ratio_times_divisor(big_u, a, b);
        assert(u * b <= big_u * a);
        assert((b + a) * u <= a * (big_u + u)) by (nonlinear_arith)
            requires
                u * b <= big_u * a,
                0 <= u,
                0 <= a,
        ;
        lemma_ratio_bounded(b + a, u, big_u + u, a);
    }
}

/// Repaying, from the unlocked secondary asset, at least the whole of a user's share of the
/// debt succeeds when the vault's debt units cover the user's, and leaves the user no debt
/// units.
pub proof fn law_full_repayment_clears_debt_units(
    config: &Config,
    state: StateView,
    position: PositionView,
    total_debt: u128,
)
    requires
        state.total_debt_units >= position.debt_units,
        state.total_debt_units > 0,
        debt_share(total_debt, position.debt_units, state.total_debt_units) > 0,
        amount_of(position.unlocked_assets, config.secondary_asset_info.key()) >= debt_share(
            total_debt,
            position.debt_units,
            state.total_debt_units,
        ),
    ensures
        repay_model(config, state, position, None, total_debt) is Ok,
        repay_model(config, state, position, None, total_debt)->Ok_0.1.debt_units == 0,
        repay_model(config, state, position, None, total_debt)->Ok_0.0.total_debt_units
            == state.total_debt_units - position.debt_units,
{
    let d = debt_share(total_debt, position.debt_units, state.total_debt_units);
    lemma_ratio_cancel(position.debt_units as int, d);
}

/// Bonding changes the vault's bond units and the user's by the same amount, and no debt units.
pub proof fn law_bond_moves_units_together(
    config: &Config,
    state: StateView,
    position: PositionView,
    total_bonded: u128,
    rewards: Seq<AssetEntry>,
)
    requires
        bond_model(config, state, position, true, total_bonded, rewards) is Ok,
    ensures
        ({
            let m = bond_model(config, state, position, true, total_bonded, rewards)->Ok_0;
            &&& m.0.total_bond_units - state.total_bond_units == m.1.bond_units - position.bond_units
            &&& m.0.total_debt_units == state.total_debt_units
            &&& m.1.debt_units == position.debt_units
        }),
{
}

/// Unbonding changes the vault's bond units and the user's by the same amount, and no debt units.
pub proof fn law_unbond_moves_units_together(
    config: &Config,
    state: StateView,
    position: PositionView,
    bond_units: u128,
    total_bonded: u128,
    rewards: Seq<AssetEntry>,
)
    requires
        unbond_model(config, state, position, bond_units, total_bonded, rewards) is Ok,
    ensures
        ({
            let m = unbond_model(config, state, position, bond_units, total_bonded, rewards)->Ok_0;
            &&& state.total_bond_units - m.0.total_bond_units == bond_units
            &&& position.bond_units - m.1.bond_units == bond_units
            &&& m.0.total_debt_units == state.total_debt_units
            &&& m.1.debt_units == position.debt_units
        }),
{
}

/// Borrowing changes the vault's debt units and the user's by the same amount, and no bond units.
pub proof fn law_borrow_moves_units_together(
    config: &Config,
    state: StateView,
    position: PositionView,
    amount: u128,
    total_debt: u128,
)
    requires
        borrow_model(config, state, position, amount, total_debt) is Ok,
    ensures
        ({
            let m = borrow_model(config, state, position, amount, total_debt)->Ok_0;
            &&& m.0.total_debt_units - state.total_debt_units == m.1.debt_units - position.debt_units
            &&& m.0.total_bond_units == state.total_bond_units
            &&& m.1.bond_units == position.bond_units
        }),
{
}

/// Repaying changes the vault's debt units and the user's by the same amount, and no bond units.
pub proof fn law_repay_moves_units_together(
    config: &Config,
    state: StateView,
    position: PositionView,
    asked: Option<u128>,
    total_debt: u128,
)
    requires
        state.total_debt_units > 0,
        repay_model(config, state, position, asked, total_debt) is Ok,
    ensures
        ({
            let m = repay_model(config, state, position, asked, total_debt)->Ok_0;
            &&& state.total_debt_units - m.0.total_debt_units == position.debt_units - m.1.debt_units
            &&& m.0.total_bond_units == state.total_bond_units
            &&& m.1.bond_units == position.bond_units
        }),
{
    let d = debt_share(total_debt, position.debt_units, state.total_debt_units);
    vstd::arithmetic::div_mod::lemma_div_pos_is_pos(
        total_debt * position.debt_units,
        state.total_debt_units as int,
    );
    let wanted = match asked {
        Some(a) => a as int,
        None => amount_of(position.unlocked_assets, config.secondary_asset_info.key()) as int,
    };
    let amount = if wanted < d {
        wanted
    } else {
        d
    };
    if d != 0 {
        lemma_ratio_at_most(position.debt_units as int, amount, d);
    }
}

/// Clearing bad debt changes the vault's debt units and the user's by the same amount, and
/// leaves the user none.
pub proof fn law_clearing_bad_debt_moves_units_together(
    state: StateView,
    position: PositionView,
    total_debt: u128,
)
    requires
        clear_bad_debt_model(state, position, total_debt) is Ok,
    ensures
        ({
            let m = clear_bad_debt_model(state, position, total_debt)->Ok_0;
            &&& state.total_debt_units - m.0.total_debt_units == position.debt_units - m.1.debt_units
            &&& m.1.debt_units == 0
            &&& m.0.total_bond_units == state.total_bond_units
        }),
{
}

/// The bond units of some positions, summed.
pub open spec fn bond_units_sum(positions: Seq<PositionView>) -> int
    decreases positions.len(),
{
    if positions.len() == 0 {
        0
    } else {
        bond_units_sum(positions.drop_last()) + positions.last().bond_units
    }
}

/// The debt units of some positions, summed.
pub open spec fn debt_units_sum(positions: Seq<PositionView>) -> int
    decreases positions.len(),
{
    if positions.len() == 0 {
        0
    } else {
        debt_units_sum(positions.drop_last()) + positions.last().debt_units
    }
}

/// Whether the vault's bond units and debt units are those of all the users' positions.
pub open spec fn units_summed(state: StateView, positions: Seq<PositionView>) -> bool {
    &&& bond_units_sum(positions) == state.total_bond_units
    &&& debt_units_sum(positions) == state.total_debt_units
}

/// Replacing one position changes the sums by the difference in its units.
proof fn lemma_units_sum_update(positions: Seq<PositionView>, i: int, p: PositionView)
    requires
        0 <= i < positions.len(),
    ensures
        bond_units_sum(positions.update(i, p)) == bond_units_sum(positions)
            - positions[i].bond_units + p.bond_units,
        debt_units_sum(positions.update(i, p)) == debt_units_sum(positions)
            - positions[i].debt_units + p.debt_units,
    decreases positions.len(),
{
    let q = positions.update(i, p);
    if i == positions.len() - 1 {
        assert(q.drop_last() =~= positions.drop_last());
    } else {
        assert(q.drop_last() =~= positions.drop_last().update(i, p));
        lemma_units_sum_update(positions.drop_last(), i, p);
    }
}

/// Bonding, for a user or for the vault's own rewards, keeps the vault's units those of all
/// the users' positions: a user's new units are added to the vault's, and the vault's own
/// bonding adds none.
pub proof fn law_bond_keeps_units_summed(
    config: &Config,
    state: StateView,
    positions: Seq<PositionView>,
    i: int,
    for_user: bool,
    total_bonded: u128,
    rewards: Seq<AssetEntry>,
)
    requires
        units_summed(state, positions),
        0 <= i < positions.len(),
        bond_model(config, state, positions[i], for_user, total_bonded, rewards) is Ok,
    ensures
        ({
            let m = bond_model(config, state, positions[i], for_user, total_bonded, rewards)->Ok_0;
            units_summed(m.0, if for_user { positions.update(i, m.1) } else { positions })
        }),
{
    let m = bond_model(config, state, positions[i], for_user, total_bonded, rewards)->Ok_0;
    lemma_units_sum_update(positions, i, m.1);
}

/// Unbonding keeps the vault's units those of all the users' positions.
pub proof fn law_unbond_keeps_units_summed(
    config: &Config,
    state: StateView,
    positions: Seq<PositionView>,
    i: int,
    bond_units: u128,
    total_bonded: u128,
    rewards: Seq<AssetEntry>,
)
    requires
        units_summed(state, positions),
        0 <= i < positions.len(),
        unbond_model(config, state, positions[i], bond_units, total_bonded, rewards) is Ok,
    ensures
        units_summed(
            unbond_model(config, state, positions[i], bond_units, total_bonded, rewards)->Ok_0.0,
            positions.update(
                i,
                unbond_model(config, state, positions[i], bond_units, total_bonded, rewards)->Ok_0.1,
            ),
        ),
{
    let m = unbond_model(config, state, positions[i], bond_units, total_bonded, rewards)->Ok_0;
    lemma_units_sum_update(positions, i, m.1);
}

/// Borrowing keeps the vault's units those of all the users' positions.
pub proof fn law_borrow_keeps_units_summed(
    config: &Config,
    state: StateView,
    positions: Seq<PositionView>,
    i: int,
    amount: u128,
    total_debt: u128,
)
    requires
        units_summed(state, positions),
        0 <= i < positions.len(),
        borrow_model(config, state, positions[i], amount, total_debt) is Ok,
    ensures
        units_summed(
            borrow_model(config, state, positions[i], amount, total_debt)->Ok_0.0,
            positions.update(i, borrow_model(config, state, positions[i], amount, total_debt)->Ok_0.1),
        ),
{
    let m = borrow_model(config, state, positions[i], amount, total_debt)->Ok_0;
    lemma_units_sum_update(positions, i, m.1);
}

/// Repaying keeps the vault's units those of all the users' positions.
pub proof fn law_repay_keeps_units_summed(
    config: &Config,
    state: StateView,
    positions: Seq<PositionView>,
    i: int,
    asked: Option<u128>,
    total_debt: u128,
)
    requires
        units_summed(state, positions),
        0 <= i < positions.len(),
        repay_model(config, state, positions[i], asked, total_debt) is Ok,
    ensures
        units_summed(
            repay_model(config, state, positions[i], asked, total_debt)->Ok_0.0,
            positions.update(i, repay_model(config, state, positions[i], asked, total_debt)->Ok_0.1),
        ),
{
    let m = repay_model(config, state, positions[i], asked, total_debt)->Ok_0;
    if state.total_debt_units > 0 {
        law_repay_moves_units_together(config, state, positions[i], asked, total_debt);
    } else {
        lemma_debt_units_at_most_sum(positions, i);
        let p = positions[i];
        let d = debt_share(total_debt, p.debt_units, state.total_debt_units);
        let amount = repay_amount_for(config, p, asked, d);
        assert(p.debt_units == 0);
        assert(0 * amount == 0);
    }
    lemma_units_sum_update(positions, i, m.1);
}

/// A position's debt units are at most those of all the positions.
proof fn lemma_debt_units_at_most_sum(positions: Seq<PositionView>, i: int)
    requires
        0 <= i < positions.len(),
    ensures
        positions[i].debt_units <= debt_units_sum(positions),
    decreases positions.len(),
{
    if i < positions.len() - 1 {
        lemma_debt_units_at_most_sum(positions.drop_last(), i);
    } else {
        lemma_debt_units_nonneg(positions.drop_last());
    }
}

/// Summed debt units are never negative.
proof fn lemma_debt_units_nonneg(positions: Seq<PositionView>)
    ensures
        debt_units_sum(positions) >= 0,
    decreases positions.len(),
{
    if positions.len() > 0 {
        lemma_debt_units_nonneg(positions.drop_last());
    }
}

/// Clearing a user's bad debt keeps the vault's units those of all the users' positions.
pub proof fn law_clearing_bad_debt_keeps_units_summed(
    state: StateView,
    positions: Seq<PositionView>,
    i: int,
    total_debt: u128,
)
    requires
        units_summed(state, positions),
        0 <= i < positions.len(),
        clear_bad_debt_model(state, positions[i], total_debt) is Ok,
    ensures
        units_summed(
            clear_bad_debt_model(state, positions[i], total_debt)->Ok_0.0,
            positions.update(i, clear_bad_debt_model(state, positions[i], total_debt)->Ok_0.1),
        ),
{
    let m = clear_bad_debt_model(state, positions[i], total_debt)->Ok_0;
    lemma_units_sum_update(positions, i, m.1);
}

/// Leaving out a deposit of zero changes nothing the actions do.
proof fn lemma_zero_deposit_progress(
    config: &Config,
    sender: String,
    received: Seq<AssetEntry>,
    unlocked: Seq<AssetEntry>,
    actions: Seq<Action>,
    k: int,
)
    requires
        0 <= k < actions.len(),
        actions[k] matches Action::Deposit(a) && a.amount == 0,
    ensures
        actions_progress(config, sender, received, unlocked, actions) == actions_progress(
            config,
            sender,
            received,
            unlocked,
            actions.remove(k),
        ),
    decreases actions.len(),
{
    if k == actions.len() - 1 {
        assert(actions.remove(k) =~= actions.drop_last());
    } else {
        assert(actions.remove(k).drop_last() =~= actions.drop_last().remove(k));
        assert(actions.remove(k).last() == actions.last());
        lemma_zero_deposit_progress(config, sender, received, unlocked, actions.drop_last(), k);
    }
}

/// A deposit of zero has no effect on updating a position: leaving it out gives the same
/// result, with the same deposits, transfers and callbacks.
pub proof fn law_zero_deposit_has_no_effect(
    config: &Config,
    sender: String,
    funds: Seq<Coin>,
    unlocked: Seq<AssetEntry>,
    actions: Seq<Action>,
    k: int,
)
    requires
        0 <= k < actions.len(),
        actions[k] matches Action::Deposit(a) && a.amount == 0,
    ensures
        update_position_model(config, sender, funds, unlocked, actions) == update_position_model(
            config,
            sender,
            funds,
            unlocked,
            actions.remove(k),
        ),
{
    lemma_zero_deposit_progress(config, sender, coins_entries(funds), unlocked, actions, k);
}

/// A position that passes the health check cannot be liquidated.
pub proof fn law_healthy_positions_are_not_liquidatable(
    max_ltv: Decimal,
    ltv: Option<Decimal>,
    debt_units: u128,
)
    requires
        is_healthy(max_ltv, ltv, debt_units),
    ensures
        !is_liquidatable(max_ltv, ltv),
{
}

/// A position whose loan-to-value ratio exceeds the limit fails the health check and can be
/// liquidated.
pub proof fn law_positions_over_the_limit_are_liquidatable(
    max_ltv: Decimal,
    ltv: Decimal,
    debt_units: u128,
)
    requires
        ltv.atomics > max_ltv.atomics,
    ensures
        !is_healthy(max_ltv, Some(ltv), debt_units),
        is_liquidatable(max_ltv, Some(ltv)),
{
}

/// Balancing never offers more than half of the richer asset's pending amount.
pub proof fn law_balance_offers_at_most_half(
    config: &Config,
    state: StateView,
    primary_price: Decimal,
    secondary_price: Decimal,
)
    requires
        balance_model(config, state, primary_price, secondary_price) is Ok,
    ensures
        match balance_model(config, state, primary_price, secondary_price)->Ok_0.1 {
            BalanceOutcome::Balanced => true,
            BalanceOutcome::Swapped { offer_primary, offer_amount, primary_amount, secondary_amount } => 2
                * offer_amount <= if offer_primary {
                primary_amount
            } else {
                secondary_amount
            },
        },
{
    let pa = amount_of(state.pending_rewards, config.primary_asset_info.key());
    let sa = amount_of(state.pending_rewards, config.secondary_asset_info.key());
    let pv = ratio(pa as int, primary_price.atomics as int, crate::math::DECIMAL_FRACTIONAL as int);
    let sv = ratio(sa as int, secondary_price.atomics as int, crate::math::DECIMAL_FRACTIONAL as int);
    vstd::arithmetic::div_mod::lemma_div_pos_is_pos(
        pa * primary_price.atomics,
        crate::math::DECIMAL_FRACTIONAL as int,
    );
    vstd::arithmetic::div_mod::lemma_div_pos_is_pos(
        sa * secondary_price.atomics,
        crate::math::DECIMAL_FRACTIONAL as int,
    );
    if pv != sv {
        let (available, higher, lower) = if pv > sv {
            (pa as int, pv, sv)
        } else {
            (sa as int, sv, pv)
        };
        let half = (higher - lower) / 2;
        let offer = ratio(available, half, higher);
        lemma_ratio_times_divisor(available, half, higher);
        assert(2 * half <= higher);
        assert(2 * offer <= available) by (nonlinear_arith)
            requires
                offer * higher <= available * half,
                2 * half <= higher,
                higher > 0,
                available >= 0,
                half >= 0,
                offer >= 0,
        ;
    }
}

/// Covering a shortfall never sells more primary asset than the position has unlocked.
pub proof fn law_cover_sells_at_most_unlocked(
    config: &Config,
    position: PositionView,
    reverse_simulated: u128,
)
    requires
        cover_model(config, position, reverse_simulated) is Ok,
    ensures
        cover_model(config, position, reverse_simulated)->Ok_0.1 <= amount_of(
            position.unlocked_assets,
            config.primary_asset_info.key(),
        ),
{
}

/// A position's share of a total, by units, is at most the total.
pub proof fn law_unit_share_at_most_total(total: u128, units: u128, total_units: u128)
    requires
        units <= total_units,
    ensures
        0 <= unit_share(total, units, total_units) <= total,
{
    if total_units > 0 {
        lemma_ratio_at_most(total as int, units as int, total_units as int);
    }
}

/// Refunding all (a percentage of one) of a well-kept list of unlocked assets refunds every
/// one of them in full and leaves the position with no unlocked assets.
pub proof fn law_full_refund_empties_unlocked(position: PositionView)
    requires
        entries_wf(position.unlocked_assets),
    ensures
        refund_model(position, Decimal { atomics: DECIMAL_FRACTIONAL }) is Ok,
        refund_model(position, Decimal { atomics: DECIMAL_FRACTIONAL })->Ok_0.0.unlocked_assets
            == Seq::<AssetEntry>::empty(),
        refund_model(position, Decimal { atomics: DECIMAL_FRACTIONAL })->Ok_0.1
            == position.unlocked_assets,
{
    let s = position.unlocked_assets;
    lemma_scaled_by_one(s);
    lemma_purged_without_zeros(s);
    lemma_deduct_all(s);
}

/// Refunding a percentage (at most one) of a well-kept list of unlocked assets succeeds; of
/// every asset it refunds that percentage of the amount held, rounded down, and the position
/// keeps the rest, so that what is refunded and what is kept add up to what was held.
pub proof fn law_partial_refund_splits_each_asset(position: PositionView, percentage: Decimal)
    requires
        entries_wf(position.unlocked_assets),
        percentage.atomics <= DECIMAL_FRACTIONAL,
    ensures
        refund_model(position, percentage) is Ok,
        forall|key: AssetKey| #[trigger]
            amount_of(refund_model(position, percentage)->Ok_0.1, key) == ratio(
                amount_of(position.unlocked_assets, key) as int,
                percentage.atomics as int,
                DECIMAL_FRACTIONAL as int,
            ),
        forall|key: AssetKey|
            amount_of(#[trigger] refund_model(position, percentage)->Ok_0.0.unlocked_assets, key)
                + amount_of(refund_model(position, percentage)->Ok_0.1, key) == amount_of(
                position.unlocked_assets,
                key,
            ),
{
    let s = position.unlocked_assets;
    let p = percentage.atomics;
    let sc = entries_scaled(s, p);
    let t = refund_amounts(s, percentage);
    lemma_scaled_keeps_keys(s, p);
    lemma_purged_wf(sc);
    assert forall|j: int| 0 <= j < t.len() implies t[j].2 <= #[trigger] amount_of(
        s,
        entry_key(t[j]),
    ) by {
        lemma_purged_from(sc, j);
        let i = choose|i: int| 0 <= i < sc.len() && t[j] == #[trigger] sc[i];
        lemma_amount_of_entry(s, i);
        lemma_ratio_at_most(s[i].2 as int, p as int, DECIMAL_FRACTIONAL as int);
    }
    lemma_deduct_many_amounts(s, t);
    assert forall|key: AssetKey| #[trigger] amount_of(t, key) == ratio(
        amount_of(s, key) as int,
        p as int,
        DECIMAL_FRACTIONAL as int,
    ) by {
        lemma_amount_of_purged(sc, key);
        lemma_scaled_amounts(s, p, key);
        lemma_ratio_at_most(amount_of(s, key) as int, p as int, DECIMAL_FRACTIONAL as int);
    }
}

/// The bond units of some users, summed.
pub open spec fn users_units(users: Seq<UserUnits>) -> int
    decreases users.len(),
{
    if users.len() == 0 {
        0
    } else {
        users_units(users.drop_last()) + users.last().bond_units
    }
}

/// The bond units of the users of some batches, summed.
pub open spec fn batches_units(batches: Seq<Seq<UserUnits>>) -> int
    decreases batches.len(),
{
    if batches.len() == 0 {
        0
    } else {
        batches_units(batches.drop_last()) + users_units(batches.last())
    }
}

/// Refunding batches of users one after the other, each batch starting a new list of refunds
/// from what the previous ones left.
pub open spec fn refund_rounds(start: RefundRound, batches: Seq<Seq<UserUnits>>) -> Option<
    RefundRound,
>
    decreases batches.len(),
{
    if batches.len() == 0 {
        Some(start)
    } else {
        match refund_rounds(start, batches.drop_last()) {
            None => None,
            Some(r) => refund_round(RefundRound { refunds: Seq::empty(), ..r }, batches.last()),
        }
    }
}

/// Refunding users who each hold bond units, and together no more than are left, succeeds
/// and takes exactly their units from those left.
pub proof fn law_refund_round_takes_their_units(start: RefundRound, users: Seq<UserUnits>)
    requires
        forall|j: int| 0 <= j < users.len() ==> (#[trigger] users[j]).bond_units > 0,
        users_units(users) <= start.total_bond_units,
    ensures
        refund_round(start, users) is Some,
        refund_round(start, users)->0.total_bond_units == start.total_bond_units - users_units(
            users,
        ),
    decreases users.len(),
{
    if users.len() > 0 {
        let rest = users.drop_last();
        assert forall|j: int| 0 <= j < rest.len() implies (#[trigger] rest[j]).bond_units > 0 by {
            assert(rest[j] == users[j]);
        }
        assert(users.last() == users[users.len() - 1]);
        law_refund_round_takes_their_units(start, rest);
    }
}

/// Refunding, batch after batch, users who each hold bond units and together hold all the
/// units left, succeeds and leaves no bond units: once every user has been refunded, storage
/// can be wiped.
pub proof fn law_refunding_every_batch_leaves_no_units(
    start: RefundRound,
    batches: Seq<Seq<UserUnits>>,
)
    requires
        forall|b: int, j: int|
            0 <= b < batches.len() && 0 <= j < batches[b].len() ==> (
            #[trigger] batches[b][j]).bond_units > 0,
        batches_units(batches) == start.total_bond_units,
    ensures
        refund_rounds(start, batches) is Some,
        refund_rounds(start, batches)->0.total_bond_units == 0,
{
    lemma_refund_rounds_take_units(start, batches);
}

/// Refunding batches takes exactly their users' units from those left.
proof fn lemma_refund_rounds_take_units(start: RefundRound, batches: Seq<Seq<UserUnits>>)
    requires
        forall|b: int, j: int|
            0 <= b < batches.len() && 0 <= j < batches[b].len() ==> (
            #[trigger] batches[b][j]).bond_units > 0,
        batches_units(batches) <= start.total_bond_units,
    ensures
        refund_rounds(start, batches) is Some,
        refund_rounds(start, batches)->0.total_bond_units == start.total_bond_units
            - batches_units(batches),
    decreases batches.len(),
{
    if batches.len() > 0 {
        let rest = batches.drop_last();
        let last = batches.last();
        assert forall|b: int, j: int|
            0 <= b < rest.len() && 0 <= j < rest[b].len() implies (
            #[trigger] rest[b][j]).bond_units > 0 by {
            assert(rest[b] == batches[b]);
        }
        lemma_users_units_nonneg(last);
        lemma_refund_rounds_take_units(start, rest);
        let r = refund_rounds(start, rest)->0;
        assert forall|j: int| 0 <= j < last.len() implies (#[trigger] last[j]).bond_units > 0 by {
            assert(last == batches[batches.len() - 1]);
            assert(batches[batches.len() - 1][j] == last[j]);
        }
        law_refund_round_takes_their_units(RefundRound { refunds: Seq::empty(), ..r }, last);
    }
}

/// Summed bond units are never negative.
proof fn lemma_users_units_nonneg(users: Seq<UserUnits>)
    ensures
        users_units(users) >= 0,
    decreases users.len(),
{
    if users.len() > 0 {
        lemma_users_units_nonneg(users.drop_last());
    }
}

/// The total refunded to a user so far, of the primary asset.
pub open spec fn primary_refunded(refunds: Seq<UserRefund>) -> int
    decreases refunds.len(),
{
    if refunds.len() == 0 {
        0
    } else {
        primary_refunded(refunds.drop_last()) + refunds.last().primary_refunded
    }
}

/// The total refunded so far, of the secondary asset.
pub open spec fn secondary_refunded(refunds: Seq<UserRefund>) -> int
    decreases refunds.len(),
{
    if refunds.len() == 0 {
        0
    } else {
        secondary_refunded(refunds.drop_last()) + refunds.last().secondary_refunded
    }
}

/// The bond units of a batch of users.
pub open spec fn units_of(users: Seq<UserUnits>) -> int
    decreases users.len(),
{
    if users.len() == 0 {
        0
    } else {
        units_of(users.drop_last()) + users.last().bond_units
    }
}

/// A refund round gives away exactly what it takes: what is left plus what was refunded is what
/// there was, for both assets, and the bond units left plus those refunded are those there were.
pub proof fn law_refund_round_conserves(start: RefundRound, users: Seq<UserUnits>)
    requires
        start.refunds.len() == 0,
        refund_round(start, users) is Some,
    ensures
        ({
            let r = refund_round(start, users)->0;
            &&& r.primary + primary_refunded(r.refunds) == start.primary
            &&& r.secondary + secondary_refunded(r.refunds) == start.secondary
            &&& r.total_bond_units + units_of(users) == start.total_bond_units
        }),
    decreases users.len(),
{
    if users.len() > 0 {
        let prev = refund_round(start, users.drop_last())->0;
        law_refund_round_conserves(start, users.drop_last());
        let u = users.last();
        lemma_ratio_at_most(prev.primary as int, u.bond_units as int, prev.total_bond_units as int);
        lemma_ratio_at_most(
            prev.secondary as int,
            u.bond_units as int,
            prev.total_bond_units as int,
        );
        let r = refund_round(start, users)->0;
        assert(r.refunds.drop_last() =~= prev.refunds);
    }
}

/// The asset lists of the vault and of a position are well kept: no two entries of one asset,
/// no zero amounts.
pub open spec fn lists_well_kept(state: StateView, position: PositionView) -> bool {
    entries_wf(state.pending_rewards) && entries_wf(position.unlocked_assets)
}

/// Bonding keeps the asset lists well kept.
pub proof fn law_bond_keeps_lists_well_kept(
    config: &Config,
    state: StateView,
    position: PositionView,
    for_user: bool,
    total_bonded: u128,
    rewards: Seq<AssetEntry>,
)
    requires
        lists_well_kept(state, position),
        bond_model(config, state, position, for_user, total_bonded, rewards) is Ok,
    ensures
        ({
            let m = bond_model(config, state, position, for_user, total_bonded, rewards)->Ok_0;
            lists_well_kept(m.0, m.1)
        }),
{
    let assets = held(state, position, for_user);
    let amount = entries_find(assets, lp_key(config))->0;
    let lp = (true, lp_key(config).1, amount);
    lemma_deduct_wf(assets, lp);
    let rest = entries_deduct(assets, lp)->Ok_0;
    let pending_before = if for_user {
        state.pending_rewards
    } else {
        rest
    };
    lemma_add_many_wf(pending_before, rewards);
}

/// Unbonding keeps the asset lists well kept.
pub proof fn law_unbond_keeps_lists_well_kept(
    config: &Config,
    state: StateView,
    position: PositionView,
    bond_units: u128,
    total_bonded: u128,
    rewards: Seq<AssetEntry>,
)
    requires
        lists_well_kept(state, position),
        unbond_model(config, state, position, bond_units, total_bonded, rewards) is Ok,
    ensures
        ({
            let m = unbond_model(config, state, position, bond_units, total_bonded, rewards)->Ok_0;
            lists_well_kept(m.0, m.1)
        }),
{
    let amount = ratio(total_bonded as int, bond_units as int, state.total_bond_units as int) as u128;
    lemma_add_many_wf(state.pending_rewards, rewards);
    lemma_add_wf(position.unlocked_assets, (true, lp_key(config).1, amount));
}

/// Borrowing keeps the asset lists well kept.
pub proof fn law_borrow_keeps_lists_well_kept(
    config: &Config,
    state: StateView,
    position: PositionView,
    amount: u128,
    total_debt: u128,
)
    requires
        lists_well_kept(state, position),
        borrow_model(config, state, position, amount, total_debt) is Ok,
    ensures
        ({
            let m = borrow_model(config, state, position, amount, total_debt)->Ok_0;
            lists_well_kept(m.0, m.1)
        }),
{
    let k = config.secondary_asset_info.key();
    lemma_add_wf(position.unlocked_assets, (k.0, k.1, amount));
}

/// Repaying keeps the asset lists well kept.
pub proof fn law_repay_keeps_lists_well_kept(
    config: &Config,
    state: StateView,
    position: PositionView,
    asked: Option<u128>,
    total_debt: u128,
)
    requires
        lists_well_kept(state, position),
        repay_model(config, state, position, asked, total_debt) is Ok,
    ensures
        ({
            let m = repay_model(config, state, position, asked, total_debt)->Ok_0;
            lists_well_kept(m.0, m.1)
        }),
{
    let debt = debt_share(total_debt, position.debt_units, state.total_debt_units);
    let amount = repay_amount_for(config, position, asked, debt);
    let k = config.secondary_asset_info.key();
    lemma_deduct_wf(position.unlocked_assets, (k.0, k.1, amount as u128));
}

/// Providing liquidity keeps the asset lists well kept.
pub proof fn law_provide_liquidity_keeps_lists_well_kept(
    config: &Config,
    state: StateView,
    position: PositionView,
    for_user: bool,
)
    requires
        lists_well_kept(state, position),
        provide_liquidity_model(config, state, position, for_user) is Ok,
    ensures
        ({
            let m = provide_liquidity_model(config, state, position, for_user)->Ok_0;
            lists_well_kept(m.0, m.1)
        }),
{
    let assets = held(state, position, for_user);
    let p = config.primary_asset_info.key();
    let q = config.secondary_asset_info.key();
    let pa = entries_find(assets, p)->0;
    let qa = entries_find(assets, q)->0;
    lemma_deduct_wf(assets, (p.0, p.1, pa));
    lemma_deduct_wf(entries_deduct(assets, (p.0, p.1, pa))->Ok_0, (q.0, q.1, qa));
}

/// Swapping keeps the asset lists well kept.
pub proof fn law_swap_keeps_lists_well_kept(
    config: &Config,
    state: StateView,
    position: PositionView,
    for_user: bool,
    offer: AssetKey,
    offer_amount: Option<u128>,
)
    requires
        lists_well_kept(state, position),
        swap_model(config, state, position, for_user, offer, offer_amount) is Ok,
    ensures
        ({
            let m = swap_model(config, state, position, for_user, offer, offer_amount)->Ok_0;
            lists_well_kept(m.0, m.1)
        }),
{
    let assets = held(state, position, for_user);
    let amount = match offer_amount {
        Some(a) => a,
        None => amount_of(assets, offer),
    };
    lemma_deduct_wf(assets, (offer.0, offer.1, amount));
}

/// Receiving an asset in a reply keeps the asset lists well kept.
pub proof fn law_receiving_keeps_lists_well_kept(
    state: StateView,
    position: PositionView,
    for_user: bool,
    asset: AssetEntry,
)
    requires
        lists_well_kept(state, position),
        receive_model(state, position, for_user, asset) is Ok,
    ensures
        ({
            let m = receive_model(state, position, for_user, asset)->Ok_0;
            lists_well_kept(m.0, m.1)
        }),
{
    lemma_add_wf(held(state, position, for_user), asset);
}

/// Refunding keeps the asset lists well kept.
pub proof fn law_refund_keeps_lists_well_kept(position: PositionView, percentage: Decimal)
    requires
        entries_wf(position.unlocked_assets),
        refund_model(position, percentage) is Ok,
    ensures
        entries_wf(refund_model(position, percentage)->Ok_0.0.unlocked_assets),
        entries_wf(refund_model(position, percentage)->Ok_0.1),
{
    let s = position.unlocked_assets;
    lemma_deduct_many_wf(s, refund_amounts(s, percentage));
    lemma_scaled_keeps_keys(s, percentage.atomics);
    lemma_purged_wf(entries_scaled(s, percentage.atomics));
}

/// Withdrawing liquidity keeps the position's unlocked assets well kept.
pub proof fn law_withdraw_liquidity_keeps_lists_well_kept(config: &Config, position: PositionView)
    requires
        entries_wf(position.unlocked_assets),
        withdraw_liquidity_model(config, position) is Ok,
    ensures
        entries_wf(withdraw_liquidity_model(config, position)->Ok_0.0.unlocked_assets),
{
    let amount = entries_find(position.unlocked_assets, lp_key(config))->0;
    lemma_deduct_wf(position.unlocked_assets, (true, lp_key(config).1, amount));
}

/// Receiving the withdrawn assets keeps the position's unlocked assets well kept.
pub proof fn law_after_withdraw_keeps_lists_well_kept(
    position: PositionView,
    primary: AssetEntry,
    secondary: AssetEntry,
)
    requires
        entries_wf(position.unlocked_assets),
        after_withdraw_model(position, primary, secondary) is Ok,
    ensures
        entries_wf(after_withdraw_model(position, primary, secondary)->Ok_0.unlocked_assets),
{
    lemma_add_wf(position.unlocked_assets, primary);
    lemma_add_wf(entries_add(position.unlocked_assets, primary)->0, secondary);
}

/// Balancing keeps the pending rewards well kept.
pub proof fn law_balance_keeps_lists_well_kept(
    config: &Config,
    state: StateView,
    primary_price: Decimal,
    secondary_price: Decimal,
)
    requires
        entries_wf(state.pending_rewards),
        balance_model(config, state, primary_price, secondary_price) is Ok,
    ensures
        entries_wf(balance_model(config, state, primary_price, secondary_price)->Ok_0.0.pending_rewards),
{
    let pa = amount_of(state.pending_rewards, config.primary_asset_info.key());
    let sa = amount_of(state.pending_rewards, config.secondary_asset_info.key());
    let pv = value_at(pa, primary_price);
    let sv = value_at(sa, secondary_price);
    if pv != sv {
        let (key, available, higher, lower) = if pv > sv {
            (config.primary_asset_info.key(), pa, pv, sv)
        } else {
            (config.secondary_asset_info.key(), sa, sv, pv)
        };
        let amount = balance_offer_amount(available, higher, lower) as u128;
        lemma_deduct_wf(state.pending_rewards, (key.0, key.1, amount));
    }
}

/// Covering keeps the position's unlocked assets well kept.
pub proof fn law_cover_keeps_lists_well_kept(
    config: &Config,
    position: PositionView,
    reverse_simulated: u128,
)
    requires
        entries_wf(position.unlocked_assets),
        cover_model(config, position, reverse_simulated) is Ok,
    ensures
        entries_wf(cover_model(config, position, reverse_simulated)->Ok_0.0.unlocked_assets),
{
    let available = amount_of(position.unlocked_assets, config.primary_asset_info.key());
    let sell = if reverse_simulated + 1 < available {
        (reverse_simulated + 1) as u128
    } else {
        available
    };
    let p = config.primary_asset_info.key();
    lemma_deduct_wf(position.unlocked_assets, (p.0, p.1, sell));
}

/// Applying actions keeps the unlocked assets well kept.
proof fn lemma_actions_keep_unlocked_well_kept(
    config: &Config,
    sender: String,
    received: Seq<AssetEntry>,
    unlocked: Seq<AssetEntry>,
    actions: Seq<Action>,
)
    requires
        entries_wf(unlocked),
        actions_progress(config, sender, received, unlocked, actions) is Ok,
    ensures
        entries_wf(actions_progress(config, sender, received, unlocked, actions)->Ok_0.unlocked),
    decreases actions.len(),
{
    if actions.len() > 0 {
        lemma_actions_keep_unlocked_well_kept(
            config,
            sender,
            received,
            unlocked,
            actions.drop_last(),
        );
        let p = actions_progress(config, sender, received, unlocked, actions.drop_last())->Ok_0;
        match actions.last() {
            Action::Deposit(asset) => {
                if asset.amount != 0 {
                    lemma_add_wf(p.unlocked, asset.entry());
                }
            },
            _ => {},
        }
    }
}

/// Updating a position keeps its unlocked assets well kept.
pub proof fn law_update_position_keeps_lists_well_kept(
    config: &Config,
    sender: String,
    funds: Seq<Coin>,
    unlocked: Seq<AssetEntry>,
    actions: Seq<Action>,
)
    requires
        entries_wf(unlocked),
        update_position_model(config, sender, funds, unlocked, actions) is Ok,
    ensures
        entries_wf(update_position_model(config, sender, funds, unlocked, actions)->Ok_0.unlocked),
{
    lemma_actions_keep_unlocked_well_kept(config, sender, coins_entries(funds), unlocked, actions);
}

/// Harvesting keeps the pending rewards and the fees well kept.
pub proof fn law_harvest_keeps_lists_well_kept(
    config: &Config,
    sender: Seq<char>,
    state: StateView,
    rewards: Seq<AssetEntry>,
    max_spread: Option<Decimal>,
    slippage_tolerance: Option<Decimal>,
)
    requires
        entries_wf(state.pending_rewards),
        harvest_model(config, sender, state, rewards, max_spread, slippage_tolerance) is Ok,
    ensures
        entries_wf(
            harvest_model(config, sender, state, rewards, max_spread, slippage_tolerance)->Ok_0.0.pending_rewards,
        ),
        entries_wf(
            harvest_model(config, sender, state, rewards, max_spread, slippage_tolerance)->Ok_0.1,
        ),
{
    if rewards.len() > 0 {
        lemma_add_many_wf(state.pending_rewards, rewards);
    }
    let pending = harvested_pending(state, rewards)->0;
    let fees = purged(entries_scaled(pending, config.fee_rate.atomics));
    lemma_deduct_many_wf(pending, fees);
    lemma_scaled_keeps_keys(pending, config.fee_rate.atomics);
    lemma_purged_wf(entries_scaled(pending, config.fee_rate.atomics));
}

// ---------------------------------------------------------------------------------------------
// The three-slot farm and the UST farm
// ---------------------------------------------------------------------------------------------

/// With `total_units` bond units standing for `total_bond` bonded shares, crediting `units` for
/// `shares` more by the proportional (or, for the first bond, the fixed) rule and then
/// unbonding those units returns at most the shares bonded.
proof fn lemma_unit_round_trip(total_units: int, total_bond: int, shares: int, units: int)
    requires
        0 <= total_units,
        0 <= total_bond,
        0 <= shares,
        0 <= units,
        total_units + units > 0,
        total_bond == 0 ==> total_units == 0,
        total_bond > 0 ==> units == ratio(total_units, shares, total_bond),
    ensures
        ratio(total_bond + shares, units, total_units + units) <= shares,
{
    if total_bond == 0 {
        lemma_ratio_at_most(shares, units, units);
    } else {
        lemma_ratio_times_divisor(total_units, shares, total_bond);
        assert(units * total_bond <= total_units * shares);
        assert((total_bond + shares) * units <= shares * (total_units + units)) by (nonlinear_arith)
            requires
                units * total_bond <= total_units * shares,
                0 <= units,
                0 <= shares,
        ;
        lemma_ratio_bounded(total_bond + shares, units, total_units + units, shares);
    }
}

/// In the three-slot farm, bonding a user's shares and then unbonding the bond units credited
/// for them returns at most the shares bonded, while the farm's units all stand for bonded
/// shares (no units without shares).
pub proof fn law_field_bond_unbond_round_trip(total_units: u128, total_bond: u128, shares: u128)
    requires
        total_bond == 0 ==> total_units == 0,
        field_bond_units(total_units, shares, total_bond) > 0,
    ensures
        ({
            let units = field_bond_units(total_units, shares, total_bond);
            ratio(total_bond + shares, units, total_units + units) <= shares
        }),
{
    let units = field_bond_units(total_units, shares, total_bond);
    if total_bond == 0 {
        assert(units >= 0) by (nonlinear_arith)
            requires
                units == shares * DEFAULT_BOND_UNITS_PER_SHARE_BONDED,
        ;
    } else {
        lemma_ratio_times_divisor(total_units as int, shares as int, total_bond as int);
        vstd::arithmetic::div_mod::lemma_div_pos_is_pos(
            total_units as int * shares as int,
            total_bond as int,
        );
    }
    lemma_unit_round_trip(total_units as int, total_bond as int, shares as int, units);
}

/// In the UST farm, bonding liquidity tokens for a user and then unbonding the bond units
/// credited for them returns at most the tokens bonded.
pub proof fn law_strategy_bond_unbond_round_trip(state: StrategyState, amount: u128, total_bond: u128)
    requires
        total_bond == 0 ==> state.total_bond_units == 0,
        strategy_bond_units(state, true, amount, total_bond) > 0,
    ensures
        ({
            let units = strategy_bond_units(state, true, amount, total_bond);
            ratio(total_bond + amount, units, state.total_bond_units + units) <= amount
        }),
{
    law_field_bond_unbond_round_trip(state.total_bond_units, total_bond, amount);
}

/// What arrives of a transfer, delivered onwards with its tax, costs at most the amount first
/// sent: a slot can always pay for passing on what it received.
pub proof fn law_tax_round_trip_within_amount(info: AssetInfo, amount: u128, tax: TaxInfo)
    requires
        tax_ok(tax),
        add_fits(after_tax(info, amount, tax), tax),
    ensures
        with_tax(info, after_tax(info, amount, tax) as u128, tax) <= amount,
{
    if let AssetInfo::Native(d) = info {
        if d@ == "uluna"@ {
            return;
        }
        let x = amount as int;
        let df = DECIMAL_FRACTIONAL as int;
        let rate = tax.rate.atomics as int;
        let kept = ratio(x, df, rate + df);
        lemma_ratio_at_most(x, df, rate + df);
        let arrived = after_tax(info, amount, tax);
        if x - kept < tax.cap {
            assert(arrived == kept);
            lemma_ratio_times_divisor(x, df, rate + df);
            assert(kept * (rate + df) <= x * df);
            assert(kept * rate <= (x - kept) * df) by (nonlinear_arith)
                requires
                    kept * (rate + df) <= x * df,
            ;
            lemma_ratio_bounded(kept, rate, df, x - kept);
        }
    }
}

/// Adding the tax to an amount and then deducting it from the sum gives the amount back, or one
/// less for rounding; exactly the amount when the added tax reached the cap, or when the coin
/// is `uluna`, which is not taxed.
pub proof fn law_add_then_deduct_tax(amount: u128, is_uluna: bool, tax: TaxInfo)
    requires
        tax.rate.atomics + DECIMAL_FRACTIONAL <= u128::MAX,
        amount + tax_on_add(amount, is_uluna, tax) <= u128::MAX,
    ensures
        ({
            let sent = amount + tax_on_add(amount, is_uluna, tax);
            let back = sent - tax_on_deduct(sent as u128, is_uluna, tax);
            &&& amount - 1 <= back <= amount
            &&& is_uluna || ratio(amount as int, tax.rate.atomics as int, DECIMAL_FRACTIONAL as int)
                >= tax.cap ==> back == amount
        }),
{
    if !is_uluna {
        let x = amount as int;
        let df = DECIMAL_FRACTIONAL as int;
        let r = tax.rate.atomics as int;
        let a = ratio(x, r, df);
        let added = tax_on_add(amount, false, tax);
        let y = x + added;
        lemma_ratio_times_divisor(x, r, df);
        assert(added * df <= x * r) by (nonlinear_arith)
            requires
                added <= a,
                0 <= added,
                a * df <= x * r,
                df > 0,
        ;
        assert(y * df <= x * (r + df)) by (nonlinear_arith)
            requires
                y == x + added,
                added * df <= x * r,
        ;
        let kept = ratio(y, df, r + df);
        lemma_ratio_bounded(y, df, r + df, x);
        if a < tax.cap && x >= 1 {
            lemma_ratio_plus_one_above(x, r, df);
            assert((x - 1) * (r + df) <= y * df) by (nonlinear_arith)
                requires
                    y == x + a,
                    x * r < (a + 1) * df,
                    r >= 0,
            ;
            lemma_ratio_at_least(y, df, r + df, x - 1);
        }
    }
}

/// A liquidator's share of a closed position is at most the whole of it, and the whole of it
/// once what they deliver covers the debt.
pub proof fn law_liquidation_share_at_most_whole(deliverable: u128, debt: u128)
    requires
        deliverable <= debt ==> debt > 0,
    ensures
        0 <= liquidation_share(deliverable as int, debt as int) <= DECIMAL_FRACTIONAL,
        deliverable >= debt ==> liquidation_share(deliverable as int, debt as int)
            == DECIMAL_FRACTIONAL,
{
    if deliverable <= debt {
        lemma_ratio_at_most(DECIMAL_FRACTIONAL as int, deliverable as int, debt as int);
        assert(ratio(deliverable as int, DECIMAL_FRACTIONAL as int, debt as int) == ratio(
            DECIMAL_FRACTIONAL as int,
            deliverable as int,
            debt as int,
        )) by (nonlinear_arith);
        if deliverable == debt {
            lemma_ratio_cancel(DECIMAL_FRACTIONAL as int, debt as int);
        }
    }
}

/// In the three-slot farm, repaying when what arrives of the unlocked short asset covers the
/// user's whole debt clears all the user's debt units.
pub proof fn law_field_full_repayment_clears_debt_units(
    config: &FieldConfig,
    state: FieldState,
    position: FieldPosition,
    total_debt: u128,
    tax: TaxInfo,
)
    requires
        field_debt(total_debt, position, state) > 0,
        after_tax(config.short_asset, position.unlocked_short, tax) >= field_debt(
            total_debt,
            position,
            state,
        ),
    ensures
        ratio(
            position.debt_units as int,
            field_repay_amount(config, position, field_debt(total_debt, position, state), tax),
            field_debt(total_debt, position, state),
        ) == position.debt_units,
{
    lemma_ratio_cancel(position.debt_units as int, field_debt(total_debt, position, state));
}

/// A reward reinvested by the three-slot farm is wholly accounted for: the fee, the half kept
/// and the half offered add up to it, and the half offered is the kept half or one more.
pub proof fn law_reinvest_accounts_for_the_reward(config: &FieldConfig, amount: u128, tax: TaxInfo)
    requires
        ratio(amount as int, config.fee_rate.atomics as int, DECIMAL_FRACTIONAL as int) <= amount,
    ensures
        ({
            let plan = reinvest_plan_model(config, amount, tax);
            &&& plan.fee + plan.retain_amount + plan.offer_amount == amount
            &&& plan.retain_amount <= plan.offer_amount <= plan.retain_amount + 1
        }),
{
    let fee = ratio(amount as int, config.fee_rate.atomics as int, DECIMAL_FRACTIONAL as int);
    assert(0 <= fee) by (nonlinear_arith)
        requires
            fee == ratio(amount as int, config.fee_rate.atomics as int, DECIMAL_FRACTIONAL as int),
    ;
    let after = amount - fee;
    lemma_ratio_at_most(after, 1, 2);
}

/// A position that passes the three-slot farm's health check cannot be closed, and an active
/// one that fails it can.
pub proof fn law_field_healthy_positions_cannot_be_closed(
    max_ltv: Decimal,
    ltv: Decimal,
    debt_value: u128,
)
    ensures
        field_healthy(max_ltv, Some(ltv), debt_value) <==> ltv.atomics <= max_ltv.atomics,
{
}

/// In the UST farm, the UST that arrives from removed liquidity is wholly split between
/// repaying the user's debt (with its tax) and refunding the user, and no more than the debt
/// with its tax is repaid.
pub proof fn law_removal_splits_what_arrives(
    position: StrategyPosition,
    state: StrategyState,
    burned: u128,
    pool_ust: u128,
    pool_asset: u128,
    supply: u128,
    total_owed: u128,
    tax: TaxInfo,
)
    requires
        removal_fits(position, state, burned, pool_ust, pool_asset, supply, total_owed, tax),
    ensures
        ({
            let m = removal_model(position, state, burned, pool_ust, pool_asset, supply, total_owed, tax);
            let released = m.ust_released;
            &&& m.ust_to_repay + m.ust_to_refund == released - tax_on_deduct(released, false, tax)
        }),
{
    let share = ratio(burned as int, DECIMAL_FRACTIONAL as int, supply as int);
    assert(0 <= share) by (nonlinear_arith)
        requires
            share == ratio(burned as int, DECIMAL_FRACTIONAL as int, supply as int),
            supply > 0,
    ;
    assert(0 <= ratio(pool_ust as int, share, DECIMAL_FRACTIONAL as int)) by (nonlinear_arith)
        requires
            0 <= share,
    ;
    let released = ratio(pool_ust as int, share, DECIMAL_FRACTIONAL as int) as u128;
    let kept = ratio(released as int, DECIMAL_FRACTIONAL as int, tax.rate.atomics + DECIMAL_FRACTIONAL);
    lemma_ratio_at_most(released as int, DECIMAL_FRACTIONAL as int, tax.rate.atomics + DECIMAL_FRACTIONAL);
}

/// Adding to a position of the three-slot farm borrows exactly the short asset missing to match
/// the long deposit at the pool's price: with what was deposited it covers
/// `long * short_depth / long_depth` (rounded down), and it is zero only when the deposit
/// already covers that, whatever the short deposit, zero included.
pub proof fn law_increase_borrows_the_shortfall(
    long: u128,
    short: u128,
    long_depth: u128,
    short_depth: u128,
)
    requires
        long_depth > 0,
    ensures
        ({
            let matched = (long as int) * (short_depth as int) / (long_depth as int);
            let borrow = short_to_borrow(long, short, long_depth, short_depth);
            &&& borrow >= 0
            &&& borrow + short >= matched
            &&& borrow > 0 ==> borrow + short == matched
            &&& short < matched ==> borrow == matched - short
        }),
{
}

/// Adding to a position of the three-slot farm first borrows the amount decided, then provides
/// liquidity, bonds, checks the loan-to-value ratio and records a snapshot, all for the user.
pub proof fn law_increase_steps(user: String, borrow: u128)
    ensures
        ({
            let s = increase_callbacks(user, borrow);
            &&& s.len() == 5
            &&& s[0] == FieldCallback::Borrow { user, amount: borrow }
            &&& s[1] == FieldCallback::ProvideLiquidity { user }
            &&& s[2] == FieldCallback::Bond { user }
        }),
{
}

/// Reducing a position of the three-slot farm unbonds first; the liquidity is removed right
/// after the unbonding when asked, and the debt repaid right after that (from what the removal
/// returned) when asked; then the ratio is checked, everything unlocked is refunded to the
/// user, and a snapshot is recorded. No other step is sent.
pub proof fn law_reduce_steps(user: String, bond_units: Option<u128>, remove: bool, repay: bool)
    ensures
        ({
            let s = reduce_callbacks(user, bond_units, remove, repay);
            let k = 1 + (if remove { 1int } else { 0 }) + (if repay { 1int } else { 0 });
            &&& s.len() == k + 3
            &&& s[0] == FieldCallback::Unbond { user, bond_units }
            &&& remove ==> s[1] == FieldCallback::RemoveLiquidity { user }
            &&& repay ==> s[k - 1] == FieldCallback::Repay { user }
            &&& s[k] == FieldCallback::AssertHealth { user }
            &&& s[k + 1] == FieldCallback::Refund {
                user,
                recipient: user,
                percentage: Decimal { atomics: DECIMAL_FRACTIONAL },
            }
            &&& s[k + 2] == FieldCallback::Snapshot { user }
            &&& forall|i: int|
                0 <= i < s.len() && (#[trigger] s[i]) is RemoveLiquidity ==> remove && i == 1
            &&& forall|i: int| 0 <= i < s.len() && (#[trigger] s[i]) is Repay ==> repay && i == k - 1
        }),
{
    let s = reduce_callbacks(user, bond_units, remove, repay);
    let k = 1 + (if remove { 1int } else { 0 }) + (if repay { 1int } else { 0 });
    assert forall|i: int| 0 <= i < s.len() && (#[trigger] s[i]) is RemoveLiquidity implies remove
        && i == 1 by {
    }
    assert forall|i: int| 0 <= i < s.len() && (#[trigger] s[i]) is Repay implies repay && i == k
        - 1 by {
    }
}

/// Liquidating a vault position unbonds all its bond units, then withdraws the liquidity those
/// units stood for; it never bonds anything again. It goes on to cover the shortfall, repay,
/// pay the liquidator their bonus share, refund the user the rest, clear any bad debt and
/// purge the position.
pub proof fn law_liquidation_steps(
    config: &Config,
    user: String,
    liquidator: String,
    bond_units: u128,
)
    ensures
        ({
            let s = liquidation_callbacks(config, user, liquidator, bond_units);
            &&& s.len() == 8
            &&& s[0] == CallbackMsg::Unbond { user_addr: user, bond_units_to_reduce: bond_units }
            &&& s[1] == CallbackMsg::WithdrawLiquidity { user_addr: user }
            &&& s[3] == CallbackMsg::Repay { user_addr: user, repay_amount: None }
            &&& s[4] == CallbackMsg::Refund {
                user_addr: user,
                recipient_addr: liquidator,
                percentage: config.bonus_rate,
            }
            &&& s[7] == CallbackMsg::PurgeStorage { user_addr: user }
            &&& forall|i: int| 0 <= i < s.len() ==> !((#[trigger] s[i]) is Bond)
        }),
{
    let s = liquidation_callbacks(config, user, liquidator, bond_units);
    assert forall|i: int| 0 <= i < s.len() implies !((#[trigger] s[i]) is Bond) by {
    }
}

/// A position's loan-to-value ratio is absent exactly when nothing of value is bonded;
/// otherwise it is the debt value over the bond value, rounded up to eighteen places: the
/// smallest number of atomics whose product with the bond value reaches the debt value.
pub proof fn law_ltv_is_debt_over_bond_value(m: Market, bond_units: u128, debt_units: u128)
    requires
        health_computable(m, bond_units, debt_units),
    ensures
        ({
            let h = health_model(m, bond_units, debt_units);
            &&& h.ltv is None <==> h.bond_value == 0
            &&& h.ltv matches Some(l) ==> {
                &&& (l.atomics as int) * (h.bond_value as int) >= (h.debt_value as int)
                    * DECIMAL_FRACTIONAL
                &&& (l.atomics as int - 1) * (h.bond_value as int) < (h.debt_value as int)
                    * DECIMAL_FRACTIONAL
            }
        }),
{
    let h = health_model(m, bond_units, debt_units);
    if h.bond_value != 0 {
        let b = h.bond_value as int;
        let d = h.debt_value as int;
        let x = d * DECIMAL_FRACTIONAL + b - 1;
        let q = x / b;
        vstd::arithmetic::div_mod::lemma_fundamental_div_mod(x, b);
        vstd::arithmetic::div_mod::lemma_mod_pos_bound(x, b);
        assert(b * q == q * b) by (nonlinear_arith);
        assert((q - 1) * b == q * b - b) by (nonlinear_arith);
        assert(h.ltv->0.atomics == q);
    }
}

} // verus!
