//! What the vault does with the replies to the submessages it sends to the pair.

use vstd::prelude::*;

use crate::assets::{asset_list_entries, entries_add, list_add, Asset, AssetInfo};
use crate::callbacks::{held, lp_key, step_matches, with_held};
use crate::state::{
    Config, ContractError, ErrorKind, Position, PositionView, State, StateView,
};

verus! {

/// What a reply that returns an asset does: the asset joins the held assets of the user
/// (`for_user`) or of the vault.
pub open spec fn receive_model(
    state: StateView,
    position: PositionView,
    for_user: bool,
    asset: (bool, Seq<char>, u128),
) -> Result<(StateView, PositionView, ()), ErrorKind> {
    match entries_add(held(state, position, for_user), asset) {
        None => Err(ErrorKind::Asset),
        Some(assets) => {
            let (s2, p2) = with_held(state, position, for_user, assets);
            Ok((s2, p2, ()))
        },
    }
}

/// After liquidity is provided, the `minted` liquidity tokens join the assets of the user whose
/// address was cached, or the pending rewards when none was.
pub fn after_provide_liquidity(
    config: &Config,
    state: &mut State,
    position: &mut Position,
    cached_user: &Option<String>,
    minted: u128,
) -> (r: Result<(), ContractError>)
    ensures
        step_matches(
            r,
            final(state)@,
            final(position)@,
            receive_model(
                old(state)@,
                old(position)@,
                cached_user is Some,
                (true, lp_key(config).1, minted),
            ),
        ),
        r is Err ==> final(state)@ == old(state)@,
        r is Err ==> final(position)@ == old(position)@,
{
    let mut state_copy = state.duplicate();
    let mut position_copy = position.duplicate();
    let r = after_provide_liquidity_in_place(config, &mut state_copy, &mut position_copy, cached_user, minted);
    if r.is_ok() {
        *state = state_copy;
        *position = position_copy;
    }
    r
}

/// The steps of `after_provide_liquidity`, done in place.
fn after_provide_liquidity_in_place(
    config: &Config,
    state: &mut State,
    position: &mut Position,
    cached_user: &Option<String>,
    minted: u128,
) -> (r: Result<(), ContractError>)
    ensures
        step_matches(
            r,
            final(state)@,
            final(position)@,
            receive_model(
                old(state)@,
                old(position)@,
                cached_user is Some,
                (true, lp_key(config).1, minted),
            ),
        ),
{
    let lp = Asset { info: AssetInfo::Cw20(config.primary_pair.liquidity_token.clone()), amount: minted };
    let added = if cached_user.is_some() {
        list_add(&mut position.unlocked_assets, &lp)
    } else {
        list_add(&mut state.pending_rewards, &lp)
    };
    match added {
        Ok(()) => Ok(()),
        Err(e) => Err(ContractError::Asset(e)),
    }
}

/// What withdrawing liquidity returns: the withdrawn primary and then secondary asset join the
/// position's unlocked assets.
pub open spec fn after_withdraw_model(
    position: PositionView,
    primary: (bool, Seq<char>, u128),
    secondary: (bool, Seq<char>, u128),
) -> Result<PositionView, ErrorKind> {
    match entries_add(position.unlocked_assets, primary) {
        None => Err(ErrorKind::Asset),
        Some(a) => match entries_add(a, secondary) {
            None => Err(ErrorKind::Asset),
            Some(b) => Ok(PositionView { unlocked_assets: b, ..position }),
        },
    }
}

/// After liquidity is withdrawn, the returned primary and secondary assets join the cached
/// user's unlocked assets.
pub fn after_withdraw_liquidity(
    position: &mut Position,
    primary_withdrawn: &Asset,
    secondary_withdrawn: &Asset,
) -> (r: Result<(), ContractError>)
    ensures
        match after_withdraw_model(
            old(position)@,
            primary_withdrawn.entry(),
            secondary_withdrawn.entry(),
        ) {
            Ok(p) => r is Ok && final(position)@ == p,
            Err(k) => r is Err && r->Err_0.kind() == k,
        },
        r is Err ==> final(position)@ == old(position)@,
{
    let mut position_copy = position.duplicate();
    let r = after_withdraw_liquidity_in_place(&mut position_copy, primary_withdrawn, secondary_withdrawn);
    if r.is_ok() {
        *position = position_copy;
    }
    r
}

/// The steps of `after_withdraw_liquidity`, done in place.
fn after_withdraw_liquidity_in_place(
    position: &mut Position,
    primary_withdrawn: &Asset,
    secondary_withdrawn: &Asset,
) -> (r: Result<(), ContractError>)
    ensures
        match after_withdraw_model(
            old(position)@,
            primary_withdrawn.entry(),
            secondary_withdrawn.entry(),
        ) {
            Ok(p) => r is Ok && final(position)@ == p,
            Err(k) => r is Err && r->Err_0.kind() == k,
        },
{
    if let Err(e) = list_add(&mut position.unlocked_assets, primary_withdrawn) {
        return Err(ContractError::Asset(e));
    }
    if let Err(e) = list_add(&mut position.unlocked_assets, secondary_withdrawn) {
        return Err(ContractError::Asset(e));
    }
    Ok(())
}

/// After a swap, the returned asset joins the assets of the user whose address was cached, or
/// the pending rewards when none was.
pub fn after_swap(
    state: &mut State,
    position: &mut Position,
    cached_user: &Option<String>,
    returned: &Asset,
) -> (r: Result<(), ContractError>)
    ensures
        step_matches(
            r,
            final(state)@,
            final(position)@,
            receive_model(old(state)@, old(position)@, cached_user is Some, returned.entry()),
        ),
        r is Err ==> final(state)@ == old(state)@,
        r is Err ==> final(position)@ == old(position)@,
{
    let mut state_copy = state.duplicate();
    let mut position_copy = position.duplicate();
    let r = after_swap_in_place(&mut state_copy, &mut position_copy, cached_user, returned);
    if r.is_ok() {
        *state = state_copy;
        *position = position_copy;
    }
    r
}

/// The steps of `after_swap`, done in place.
fn after_swap_in_place(
    state: &mut State,
    position: &mut Position,
    cached_user: &Option<String>,
    returned: &Asset,
) -> (r: Result<(), ContractError>)
    ensures
        step_matches(
            r,
            final(state)@,
            final(position)@,
            receive_model(old(state)@, old(position)@, cached_user is Some, returned.entry()),
        ),
{
    let added = if cached_user.is_some() {
        list_add(&mut position.unlocked_assets, returned)
    } else {
        list_add(&mut state.pending_rewards, returned)
    };
    match added {
        Ok(()) => Ok(()),
        Err(e) => Err(ContractError::Asset(e)),
    }
}

} // verus!
