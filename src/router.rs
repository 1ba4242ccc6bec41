use vstd::prelude::*;

use crate::asset::{stable_denom, stable_denom_string, Asset, AssetInfo, Coin};
use crate::msg::{ExecuteMsg, State};

verus! {

/// How a share of the stable deposit becomes a basket component.
#[derive(Debug, Clone, Copy, PartialEq, Eq, Structural)]
pub enum Route {
    /// The component is the stable denom itself: kept as it is.
    Keep,
    /// A native denom: swapped on the chain's exchange module.
    NativeSwap,
    /// A token with a trading pair against stable: swapped on that pair.
    PairSwap,
    /// The lending-receipt token: obtained by a deposit into the lending market.
    Deposit,
}

/// A deferred external call that a stage schedules.
#[derive(Debug, Clone, PartialEq, Eq)]
pub enum Effect {
    /// Swap `offer_amount` of stable for `ask_denom` on the chain's exchange
    /// module.
    NativeSwap { offer_amount: u128, ask_denom: String },
    /// Swap `offer_amount` of stable for `ask_asset` on the pair of
    /// (`ask_asset`, stable) that the exchange factory `factory` lists.
    PairSwap { factory: String, ask_asset: AssetInfo, offer_amount: u128 },
    /// Deposit `amount` of stable into the lending market `market`.
    DepositStable { market: String, amount: u128 },
    /// Let `spender` pull `amount` of the token `token` from the contract.
    IncreaseAllowance { token: String, spender: String, amount: u128 },
    /// Ask the mint authority `incentives` to mint the cluster's token from
    /// `asset_amounts`, sending `funds` along.
    IncentivesCreate {
        incentives: String,
        cluster_contract: String,
        asset_amounts: Vec<Asset>,
        funds: Vec<Coin>,
    },
    /// Send `amount` of the token `token` to `recipient`.
    Transfer { token: String, recipient: String, amount: u128 },
    /// Call the contract `contract` (the contract itself) with `msg`.
    CallSelf { contract: String, msg: ExecuteMsg },
}

/// The route of a component, given the address of the lending-receipt token.
pub open spec fn route_of(info: AssetInfo, lending_token: Seq<char>) -> Route {
    match info {
        AssetInfo::NativeToken { denom } => if denom@ == stable_denom() {
            Route::Keep
        } else {
            Route::NativeSwap
        },
        AssetInfo::Token { contract_addr } => if contract_addr@ == lending_token {
            Route::Deposit
        } else {
            Route::PairSwap
        },
    }
}

/// The effect that turns `amount` of stable into the component `info`, if
/// any is needed.
pub open spec fn component_effect(info: AssetInfo, amount: u128, state: State) -> Option<Effect> {
    match route_of(info, state.aust_token_address@) {
        Route::Keep => None,
        Route::NativeSwap => Some(
            Effect::NativeSwap {
                offer_amount: amount,
                ask_denom: info->NativeToken_denom,
            },
        ),
        Route::PairSwap => Some(
            Effect::PairSwap {
                factory: state.astroport_factory_address,
                ask_asset: info,
                offer_amount: amount,
            },
        ),
        Route::Deposit => Some(
            Effect::DepositStable { market: state.anchor_market_contract, amount },
        ),
    }
}

/// The route of a component.
pub fn route(info: &AssetInfo, lending_token: &String) -> (r: Route)
    ensures
        r == route_of(*info, lending_token@),
{
    match info {
        AssetInfo::NativeToken { denom } => {
            if *denom == stable_denom_string() {
                Route::Keep
            } else {
                Route::NativeSwap
            }
        },
        AssetInfo::Token { contract_addr } => {
            if *contract_addr == *lending_token {
                Route::Deposit
            } else {
                Route::PairSwap
            }
        },
    }
}

/// The swap of `offer_asset.amount` of stable for the asset
/// `offer_asset.info`, on its trading pair against stable that the exchange
/// factory lists.
pub fn swap_to_ust(offer_asset: Asset, astroport_factory_address: String) -> (r: Effect)
    ensures
        r == (Effect::PairSwap {
            factory: astroport_factory_address,
            ask_asset: offer_asset.info,
            offer_amount: offer_asset.amount,
        }),
{
    Effect::PairSwap {
        factory: astroport_factory_address,
        ask_asset: offer_asset.info,
        offer_amount: offer_asset.amount,
    }
}

/// The effect that turns `amount` of stable into the component `info`, if
/// any is needed.
pub fn route_component(info: &AssetInfo, amount: u128, state: &State) -> (r: Option<Effect>)
    ensures
        r == component_effect(*info, amount, *state),
{
    match route(info, &state.aust_token_address) {
        Route::Keep => None,
        Route::NativeSwap => {
            match info {
                AssetInfo::NativeToken { denom } => Some(
                    Effect::NativeSwap { offer_amount: amount, ask_denom: denom.clone() },
                ),
                AssetInfo::Token { .. } => None,
            }
        },
        Route::PairSwap => Some(
            swap_to_ust(
                Asset { info: info.duplicate(), amount },
                state.astroport_factory_address.clone(),
            ),
        ),
        Route::Deposit => Some(
            Effect::DepositStable { market: state.anchor_market_contract.clone(), amount },
        ),
    }
}

} // verus!
