use vstd::prelude::*;
use vstd::arithmetic::div_mod::{lemma_fundamental_div_mod, lemma_hoist_over_denominator};

use crate::allocator::{allocate, products_fit, share, weight_sum};
use crate::asset::{Asset, AssetInfo};
use crate::error::MintError;
use crate::msg::State;
use crate::router::{component_effect, route, route_of, Effect, Route};

verus! {

/// One decimal unit in atomics: decimals count in units of 10^-18.
pub const DECIMAL_ONE: u128 = 1_000_000_000_000_000_000u128;

/// The fixed-point scale of the lending-receipt conversion: 10^9.
pub const DECIMAL_FRACTIONAL: u128 = 1_000_000_000u128;

/// What the preview needs to learn about one component, with the component's
/// share of the stable amount.
#[derive(Debug, Clone, PartialEq, Eq)]
pub enum PreviewStep {
    /// The stable denom itself: the share is contributed as it is.
    Kept { amount: u128 },
    /// The exchange module's quote for swapping `offer_amount` of stable
    /// into `ask_denom`.
    QuoteNativeSwap { offer_amount: u128, ask_denom: String },
    /// The quote of the pair of (`ask_asset`, stable), which the exchange
    /// factory `factory` lists, for swapping `offer_amount` of stable.
    QuotePairSwap { factory: String, ask_asset: AssetInfo, offer_amount: u128 },
    /// The price authority `oracle`'s current rate of the lending-receipt
    /// token `asset_token`, for a deposit of `amount` of stable.
    QueryPrice { oracle: String, asset_token: String, amount: u128 },
}

/// The preview step of the component `info` with the share `amount`.
pub open spec fn preview_step(info: AssetInfo, amount: u128, state: State) -> PreviewStep {
    match route_of(info, state.aust_token_address@) {
        Route::Keep => PreviewStep::Kept { amount },
        Route::NativeSwap => PreviewStep::QuoteNativeSwap {
            offer_amount: amount,
            ask_denom: info->NativeToken_denom,
        },
        Route::PairSwap => PreviewStep::QuotePairSwap {
            factory: state.astroport_factory_address,
            ask_asset: info,
            offer_amount: amount,
        },
        Route::Deposit => PreviewStep::QueryPrice {
            oracle: state.oracle_hub_contract,
            asset_token: info->Token_contract_addr,
            amount,
        },
    }
}

/// The preview steps of a basket, one per component in basket order, for a
/// stable amount `u`.
pub open spec fn preview_plan(t: Seq<Asset>, u: int, state: State) -> Seq<PreviewStep> {
    Seq::new(
        t.len(),
        |i: int| preview_step(t[i].info, share(u, t[i].amount as int, weight_sum(t)) as u128, state),
    )
}

/// A price of `rate` atomics, scaled to `DECIMAL_FRACTIONAL` and truncated.
pub open spec fn scaled_price(rate: int) -> int {
    rate * DECIMAL_FRACTIONAL / DECIMAL_ONE as int
}

/// The receipt tokens expected for a deposit of `amount` of stable at a
/// price of `rate` atomics.
pub open spec fn lending_return(amount: int, rate: int) -> int {
    amount * DECIMAL_FRACTIONAL / scaled_price(rate)
}

/// Whether the receipt amount of a deposit can be computed.
pub open spec fn lending_ok(amount: int, rate: int) -> bool {
    scaled_price(rate) > 0 && lending_return(amount, rate) <= u128::MAX
}

/// Whether a step can be completed with the answer `answer`.
pub open spec fn step_ok(step: PreviewStep, answer: u128) -> bool {
    match step {
        PreviewStep::QueryPrice { amount, .. } => lending_ok(amount as int, answer as int),
        _ => true,
    }
}

/// The expected contribution of a component, given the answer to its step:
/// the kept share, the quoted return amount, or the receipt tokens of the
/// deposit at the answered rate.
pub open spec fn expected_amount(step: PreviewStep, answer: u128) -> int {
    match step {
        PreviewStep::Kept { amount } => amount as int,
        PreviewStep::QuoteNativeSwap { .. } => answer as int,
        PreviewStep::QuotePairSwap { .. } => answer as int,
        PreviewStep::QueryPrice { amount, .. } => lending_return(amount as int, answer as int),
    }
}

/// Whether a preview step stands for the live effect `effect` of the same
/// component: the same route, the same stable amount, the same target.
pub open spec fn mirrors(step: PreviewStep, effect: Option<Effect>, state: State) -> bool {
    match step {
        PreviewStep::Kept { .. } => effect is None,
        PreviewStep::QuoteNativeSwap { offer_amount, ask_denom } => effect == Some(
            Effect::NativeSwap { offer_amount, ask_denom },
        ),
        PreviewStep::QuotePairSwap { factory, ask_asset, offer_amount } => effect == Some(
            Effect::PairSwap { factory, ask_asset, offer_amount },
        ),
        PreviewStep::QueryPrice { amount, .. } => effect == Some(
            Effect::DepositStable { market: state.anchor_market_contract, amount },
        ),
    }
}

/// The stable amount that a preview step stands for.
pub open spec fn step_amount(step: PreviewStep) -> u128 {
    match step {
        PreviewStep::Kept { amount } => amount,
        PreviewStep::QuoteNativeSwap { offer_amount, .. } => offer_amount,
        PreviewStep::QuotePairSwap { offer_amount, .. } => offer_amount,
        PreviewStep::QueryPrice { amount, .. } => amount,
    }
}

/// The preview and the live mint agree component by component: for the
/// same basket and stable amount, each preview step stands for the same
/// share of stable, routed the same way, as the effect that the request
/// stage schedules for that component (or, for the stable denom itself, as
/// the share that it keeps).
pub proof fn lemma_preview_mirrors_live(state: State, targets: Seq<Asset>, u: u128)
    requires
        weight_sum(targets) > 0,
    ensures
        preview_plan(targets, u as int, state).len() == targets.len(),
        forall|i: int|
            0 <= i < targets.len() ==> {
                let a = share(u as int, targets[i].amount as int, weight_sum(targets)) as u128;
                &&& step_amount(#[trigger] preview_plan(targets, u as int, state)[i]) == a
                &&& mirrors(
                    preview_plan(targets, u as int, state)[i],
                    component_effect(targets[i].info, a, state),
                    state,
                )
            },
{
}

/// Relies on cosmwasm_std's `Decimal * Uint128`: for a decimal of `rate`
/// atomics, floor(rate * x / 10^18), which panics when above 128 bits.
#[verifier::external_body]
fn decimal_mul(rate: u128, x: u128) -> (r: u128)
    requires
        rate * x / DECIMAL_ONE as int <= u128::MAX,
    ensures
        r == rate * x / DECIMAL_ONE as int,
{
    let price = cosmwasm_std::Decimal::from_ratio(rate, DECIMAL_ONE);
    (price * cosmwasm_std::Uint128::new(x)).u128()
}

/// Relies on cosmwasm_std's `Uint128::multiply_ratio`: floor(x * numerator
/// / denominator) without intermediate overflow; it panics on a zero
/// denominator or a result above 128 bits.
#[verifier::external_body]
fn multiply_ratio(x: u128, numerator: u128, denominator: u128) -> (r: u128)
    requires
        denominator > 0,
        x * numerator / denominator as int <= u128::MAX,
    ensures
        r == x * numerator / denominator as int,
{
    cosmwasm_std::Uint128::new(x).multiply_ratio(numerator, denominator).u128()
}

/// The receipt tokens expected for a deposit of `amount` of stable at a
/// price of `rate` atomics: `amount * 10^9 / floor(rate * 10^9 / 10^18)`.
pub fn receipt_amount(amount: u128, rate: u128) -> (r: Result<u128, MintError>)
    ensures
        r == Err::<u128, MintError>(MintError::ZeroPrice) <==> scaled_price(rate as int) == 0,
        r == Err::<u128, MintError>(MintError::Overflow) <==> (scaled_price(rate as int) > 0
            && lending_return(amount as int, rate as int) > u128::MAX),
        match r {
            Ok(x) => x == lending_return(amount as int, rate as int),
            Err(e) => e == MintError::ZeroPrice || e == MintError::Overflow,
        },
{
    assert(rate * DECIMAL_FRACTIONAL / DECIMAL_ONE as int <= rate as int / DECIMAL_FRACTIONAL as int)
        by (nonlinear_arith);
    let p = decimal_mul(rate, DECIMAL_FRACTIONAL);
    if p == 0 {
        return Err(MintError::ZeroPrice);
    }
    assert(p * DECIMAL_FRACTIONAL <= rate) by (nonlinear_arith)
        requires
            p <= rate as int / DECIMAL_FRACTIONAL as int,
    ;
    // Whether amount * 10^9 / p fits is decided from amount = q * p + rem,
    // where rem * 10^9 < p * 10^9 <= rate cannot overflow.
    let q = amount / p;
    let rem = amount % p;
    let ghost total = amount * DECIMAL_FRACTIONAL / p as int;
    proof {
        lemma_fundamental_div_mod(amount as int, p as int);
        assert(amount * DECIMAL_FRACTIONAL == rem * DECIMAL_FRACTIONAL + (q * DECIMAL_FRACTIONAL)
            * p) by (nonlinear_arith)
            requires
                amount == p * q + rem,
        ;
        lemma_hoist_over_denominator(rem * DECIMAL_FRACTIONAL, q * DECIMAL_FRACTIONAL, p as nat);
        assert(rem * DECIMAL_FRACTIONAL < p * DECIMAL_FRACTIONAL) by (nonlinear_arith)
            requires
                rem < p,
        ;
        assert(rem * DECIMAL_FRACTIONAL / p as int >= 0) by (nonlinear_arith)
            requires
                rem >= 0,
                p > 0,
        ;
    }
    let hi = match q.checked_mul(DECIMAL_FRACTIONAL) {
        Some(h) => h,
        None => {
            return Err(MintError::Overflow);
        },
    };
    let lo = rem * DECIMAL_FRACTIONAL / p;
    if hi.checked_add(lo).is_none() {
        return Err(MintError::Overflow);
    }
    Ok(multiply_ratio(amount, DECIMAL_FRACTIONAL, p))
}

/// The preview step of the component `info` with the share `amount`.
pub fn preview_component(info: &AssetInfo, amount: u128, state: &State) -> (r: PreviewStep)
    ensures
        r == preview_step(*info, amount, *state),
{
    match route(info, &state.aust_token_address) {
        Route::Keep => PreviewStep::Kept { amount },
        Route::NativeSwap => match info {
            AssetInfo::NativeToken { denom } => PreviewStep::QuoteNativeSwap {
                offer_amount: amount,
                ask_denom: denom.clone(),
            },
            AssetInfo::Token { .. } => PreviewStep::Kept { amount },
        },
        Route::PairSwap => PreviewStep::QuotePairSwap {
            factory: state.astroport_factory_address.clone(),
            ask_asset: info.duplicate(),
            offer_amount: amount,
        },
        Route::Deposit => match info {
            AssetInfo::Token { contract_addr } => PreviewStep::QueryPrice {
                oracle: state.oracle_hub_contract.clone(),
                asset_token: contract_addr.clone(),
                amount,
            },
            AssetInfo::NativeToken { .. } => PreviewStep::Kept { amount },
        },
    }
}

/// The first half of the preview: the basket is allocated exactly as the
/// request stage allocates it, and each component's share becomes the
/// query that stands in for its effect.
pub fn preview_steps(state: &State, targets: &Vec<Asset>, ust_amount: u128) -> (r: Result<
    Vec<PreviewStep>,
    MintError,
>)
    ensures
        r is Ok <==> 0 < weight_sum(targets@) <= u128::MAX && products_fit(
            ust_amount as int,
            targets@,
        ),
        r == Err::<Vec<PreviewStep>, MintError>(MintError::ZeroTotalWeight) <==> weight_sum(
            targets@,
        ) == 0,
        r == Err::<Vec<PreviewStep>, MintError>(MintError::Overflow) <==> (weight_sum(targets@)
            > u128::MAX || !products_fit(ust_amount as int, targets@)),
        match r {
            Ok(v) => v@ == preview_plan(targets@, ust_amount as int, *state),
            Err(_) => true,
        },
{
    let ratios = match allocate(ust_amount, targets) {
        Ok(v) => v,
        Err(e) => {
            return Err(e);
        },
    };
    let mut steps: Vec<PreviewStep> = Vec::new();
    let mut i: usize = 0;
    while i < targets.len()
        invariant
            0 <= i <= targets.len(),
            ratios@.len() == targets@.len(),
            forall|j: int|
                0 <= j < ratios@.len() ==> #[trigger] ratios@[j] == share(
                    ust_amount as int,
                    targets@[j].amount as int,
                    weight_sum(targets@),
                ),
            steps@ == preview_plan(targets@, ust_amount as int, *state).take(i as int),
        decreases targets.len() - i,
    {
        steps.push(preview_component(&targets[i].info, ratios[i], state));
        assert(steps@ =~= preview_plan(targets@, ust_amount as int, *state).take(i + 1));
        i = i + 1;
    }
    assert(steps@ =~= preview_plan(targets@, ust_amount as int, *state));
    Ok(steps)
}

/// The second half of the preview: with `answers[i]` the answer to the
/// query of step `i` (a quoted return amount, or a rate in atomics; ignored
/// for a kept share), the expected contributed amount of each component.
pub fn simulate_mint(steps: &Vec<PreviewStep>, answers: &Vec<u128>) -> (r: Result<
    Vec<u128>,
    MintError,
>)
    ensures
        r == Err::<Vec<u128>, MintError>(MintError::LengthMismatch) <==> answers@.len()
            != steps@.len(),
        r is Ok <==> answers@.len() == steps@.len() && forall|i: int|
            0 <= i < steps@.len() ==> step_ok(#[trigger] steps@[i], answers@[i]),
        match r {
            Ok(v) => v@.len() == steps@.len() && forall|i: int|
                0 <= i < v@.len() ==> #[trigger] v@[i] == expected_amount(steps@[i], answers@[i]),
            Err(e) => e == MintError::LengthMismatch || e == MintError::ZeroPrice || e
                == MintError::Overflow,
        },
{
    if answers.len() != steps.len() {
        return Err(MintError::LengthMismatch);
    }
    let mut out: Vec<u128> = Vec::new();
    let mut i: usize = 0;
    while i < steps.len()
        invariant
            0 <= i <= steps@.len(),
            answers@.len() == steps@.len(),
            out@.len() == i,
            forall|j: int| 0 <= j < i ==> step_ok(#[trigger] steps@[j], answers@[j]),
            forall|j: int| 0 <= j < i ==> #[trigger] out@[j] == expected_amount(steps@[j], answers@[j]),
        decreases steps.len() - i,
    {
        let amount = match &steps[i] {
            PreviewStep::Kept { amount } => *amount,
            PreviewStep::QuoteNativeSwap { .. } => answers[i],
            PreviewStep::QuotePairSwap { .. } => answers[i],
            PreviewStep::QueryPrice { amount, .. } => match receipt_amount(*amount, answers[i]) {
                Ok(x) => x,
                Err(e) => {
                    return Err(e);
                },
            },
        };
        out.push(amount);
        i = i + 1;
    }
    Ok(out)
}

} // verus!
