use vstd::prelude::*;

use crate::allocator::{allocate, products_fit, share, weight_sum};
use crate::asset::{Asset, AssetInfo, Coin};
use crate::error::MintError;
use crate::msg::{ExecuteMsg, State};
use crate::router::{component_effect, route_component, Effect};

verus! {

/// The effects that turn each component's share of `u` into that component,
/// in basket order, skipping components that need none.
pub open spec fn planned_effects(t: Seq<Asset>, u: int, total: int, state: State) -> Seq<Effect>
    decreases t.len(),
{
    if t.len() == 0 {
        Seq::empty()
    } else {
        let init = planned_effects(t.drop_last(), u, total, state);
        match component_effect(t.last().info, share(u, t.last().amount as int, total) as u128, state) {
            Some(e) => init.push(e),
            None => init,
        }
    }
}

/// The denoms of the native components, in basket order.
pub open spec fn native_denoms(t: Seq<Asset>) -> Seq<String>
    decreases t.len(),
{
    if t.len() == 0 {
        Seq::empty()
    } else {
        match t.last().info {
            AssetInfo::NativeToken { denom } => native_denoms(t.drop_last()).push(denom),
            AssetInfo::Token { .. } => native_denoms(t.drop_last()),
        }
    }
}

/// The addresses of the token components, in basket order.
pub open spec fn token_addrs(t: Seq<Asset>) -> Seq<String>
    decreases t.len(),
{
    if t.len() == 0 {
        Seq::empty()
    } else {
        match t.last().info {
            AssetInfo::NativeToken { .. } => token_addrs(t.drop_last()),
            AssetInfo::Token { contract_addr } => token_addrs(t.drop_last()).push(contract_addr),
        }
    }
}

/// The allowances that let `spender` pull each token's balance.
pub open spec fn allowances(tokens: Seq<String>, balances: Seq<u128>, spender: String) -> Seq<Effect> {
    Seq::new(
        tokens.len(),
        |i: int| Effect::IncreaseAllowance { token: tokens[i], spender, amount: balances[i] },
    )
}

/// The contributed assets: each native denom, then each token, with the
/// balance read for it.
pub open spec fn contributed_assets(
    natives: Seq<String>,
    native_balances: Seq<u128>,
    tokens: Seq<String>,
    token_balances: Seq<u128>,
) -> Seq<Asset> {
    Seq::new(
        natives.len(),
        |i: int| Asset { info: AssetInfo::NativeToken { denom: natives[i] }, amount: native_balances[i] },
    ) + Seq::new(
        tokens.len(),
        |i: int| Asset { info: AssetInfo::Token { contract_addr: tokens[i] }, amount: token_balances[i] },
    )
}

/// The native coins sent along with the mint request.
pub open spec fn native_funds(natives: Seq<String>, native_balances: Seq<u128>) -> Seq<Coin> {
    Seq::new(natives.len(), |i: int| Coin { denom: natives[i], amount: native_balances[i] })
}

/// Whether `e` calls the contract `contract` for the collect stage with
/// these parameters.
pub open spec fn is_collect_call(
    e: Effect,
    contract: String,
    cluster_address: String,
    natives: Seq<String>,
    tokens: Seq<String>,
    cluster_token: String,
    user: String,
) -> bool {
    match e {
        Effect::CallSelf { contract: c, msg } => c == contract && match msg {
            ExecuteMsg::_MintCT {
                cluster_address: a,
                natives: n,
                tokens: k,
                cluster_token: t,
                user: u,
            } => a == cluster_address && n@ == natives && k@ == tokens && t == cluster_token && u
                == user,
            _ => false,
        },
        _ => false,
    }
}

/// Whether `e` asks the mint authority `incentives` to mint the cluster's
/// token from `assets`, sending `funds` along.
pub open spec fn is_create_call(
    e: Effect,
    incentives: String,
    cluster_contract: String,
    assets: Seq<Asset>,
    funds: Seq<Coin>,
) -> bool {
    match e {
        Effect::IncentivesCreate { incentives: i, cluster_contract: c, asset_amounts, funds: f } => i
            == incentives && c == cluster_contract && asset_amounts@ == assets && f@ == funds,
        _ => false,
    }
}

proof fn lemma_take_step(t: Seq<Asset>, i: int)
    requires
        0 <= i < t.len(),
    ensures
        t.take(i + 1).drop_last() == t.take(i),
        t.take(i + 1).last() == t[i],
{
    assert(t.take(i + 1).drop_last() =~= t.take(i));
}

/// The request stage of the mint. From the basket's target weights and the
/// contract's stable balance `ust_balance`, it schedules the effect that
/// converts each component's share, then a call of the contract to itself
/// for the collect stage, carrying the native denoms and token addresses of
/// the basket, the cluster token and the recipient `user`.
pub fn mint_ct(
    state: &State,
    contract: &String,
    cluster_address: String,
    user: String,
    targets: &Vec<Asset>,
    cluster_token: String,
    ust_balance: u128,
) -> (r: Result<Vec<Effect>, MintError>)
    ensures
        r is Ok <==> 0 < weight_sum(targets@) <= u128::MAX && products_fit(
            ust_balance as int,
            targets@,
        ),
        r == Err::<Vec<Effect>, MintError>(MintError::ZeroTotalWeight) <==> weight_sum(targets@)
            == 0,
        r == Err::<Vec<Effect>, MintError>(MintError::Overflow) <==> (weight_sum(targets@)
            > u128::MAX || !products_fit(ust_balance as int, targets@)),
        match r {
            Ok(effects) => {
                let planned = planned_effects(
                    targets@,
                    ust_balance as int,
                    weight_sum(targets@),
                    *state,
                );
                &&& effects@.len() == planned.len() + 1
                &&& effects@.take(planned.len() as int) == planned
                &&& is_collect_call(
                    effects@.last(),
                    *contract,
                    cluster_address,
                    native_denoms(targets@),
                    token_addrs(targets@),
                    cluster_token,
                    user,
                )
            },
            Err(_) => true,
        },
{
    let ratios = match allocate(ust_balance, targets) {
        Ok(v) => v,
        Err(e) => {
            return Err(e);
        },
    };
    let ghost total = weight_sum(targets@);
    let mut natives: Vec<String> = Vec::new();
    let mut tokens: Vec<String> = Vec::new();
    let mut effects: Vec<Effect> = Vec::new();
    let mut i: usize = 0;
    while i < targets.len()
        invariant
            0 <= i <= targets.len(),
            ratios@.len() == targets@.len(),
            total == weight_sum(targets@),
            forall|j: int|
                0 <= j < ratios@.len() ==> #[trigger] ratios@[j] == share(
                    ust_balance as int,
                    targets@[j].amount as int,
                    total,
                ),
            effects@ == planned_effects(targets@.take(i as int), ust_balance as int, total, *state),
            natives@ == native_denoms(targets@.take(i as int)),
            tokens@ == token_addrs(targets@.take(i as int)),
        decreases targets.len() - i,
    {
        proof {
            lemma_take_step(targets@, i as int);
        }
        let target = &targets[i];
        match &target.info {
            AssetInfo::NativeToken { denom } => natives.push(denom.clone()),
            AssetInfo::Token { contract_addr } => tokens.push(contract_addr.clone()),
        }
        match route_component(&target.info, ratios[i], state) {
            Some(e) => effects.push(e),
            None => {},
        }
        i = i + 1;
    }
    assert(targets@.take(i as int) =~= targets@);
    let ghost planned = effects@;
    effects.push(
        Effect::CallSelf {
            contract: contract.clone(),
            msg: ExecuteMsg::_MintCT { cluster_address, natives, tokens, cluster_token, user },
        },
    );
    assert(effects@.take(planned.len() as int) =~= planned);
    Ok(effects)
}

/// The collect stage of the mint, callable by the contract alone. With the
/// contract's current balance of each native denom and of each token, it
/// lets the mint authority pull each token balance, asks it to mint from all
/// of them, sending the native balances along, and then calls the contract
/// to itself for the delivery stage.
pub fn _mint_ct(
    state: &State,
    contract: &String,
    sender: &String,
    cluster_address: String,
    natives: Vec<String>,
    tokens: Vec<String>,
    cluster_token: String,
    user: String,
    native_balances: Vec<u128>,
    token_balances: Vec<u128>,
) -> (r: Result<Vec<Effect>, MintError>)
    ensures
        r == Err::<Vec<Effect>, MintError>(MintError::Unauthorized) <==> sender@ != contract@,
        r == Err::<Vec<Effect>, MintError>(MintError::LengthMismatch) <==> (sender@ == contract@
            && (native_balances@.len() != natives@.len() || token_balances@.len()
            != tokens@.len())),
        match r {
            Ok(effects) => {
                &&& effects@.len() == tokens@.len() + 2
                &&& effects@.take(tokens@.len() as int) == allowances(
                    tokens@,
                    token_balances@,
                    state.incentive_contract,
                )
                &&& is_create_call(
                    effects@[tokens@.len() as int],
                    state.incentive_contract,
                    cluster_address,
                    contributed_assets(natives@, native_balances@, tokens@, token_balances@),
                    native_funds(natives@, native_balances@),
                )
                &&& effects@[tokens@.len() as int + 1] == (Effect::CallSelf {
                    contract: *contract,
                    msg: ExecuteMsg::_SendToUser { cluster_token, user },
                })
            },
            Err(e) => e == MintError::Unauthorized || e == MintError::LengthMismatch,
        },
{
    if *sender != *contract {
        return Err(MintError::Unauthorized);
    }
    if native_balances.len() != natives.len() || token_balances.len() != tokens.len() {
        return Err(MintError::LengthMismatch);
    }
    let mut effects: Vec<Effect> = Vec::new();
    let mut funds: Vec<Coin> = Vec::new();
    let mut assets: Vec<Asset> = Vec::new();
    let mut i: usize = 0;
    while i < natives.len()
        invariant
            0 <= i <= natives@.len(),
            native_balances@.len() == natives@.len(),
            funds@ == native_funds(natives@, native_balances@).take(i as int),
            assets@ == contributed_assets(natives@, native_balances@, tokens@, token_balances@).take(
                i as int,
            ),
        decreases natives.len() - i,
    {
        funds.push(Coin { denom: natives[i].clone(), amount: native_balances[i] });
        assets.push(
            Asset {
                info: AssetInfo::NativeToken { denom: natives[i].clone() },
                amount: native_balances[i],
            },
        );
        assert(funds@ =~= native_funds(natives@, native_balances@).take(i + 1));
        assert(assets@ =~= contributed_assets(natives@, native_balances@, tokens@, token_balances@).take(
            i + 1,
        ));
        i = i + 1;
    }
    let mut j: usize = 0;
    while j < tokens.len()
        invariant
            0 <= j <= tokens@.len(),
            token_balances@.len() == tokens@.len(),
            native_balances@.len() == natives@.len(),
            assets@ == contributed_assets(natives@, native_balances@, tokens@, token_balances@).take(
                natives@.len() + j,
            ),
            effects@ == allowances(tokens@, token_balances@, state.incentive_contract).take(j as int),
        decreases tokens.len() - j,
    {
        effects.push(
            Effect::IncreaseAllowance {
                token: tokens[j].clone(),
                spender: state.incentive_contract.clone(),
                amount: token_balances[j],
            },
        );
        assets.push(
            Asset {
                info: AssetInfo::Token { contract_addr: tokens[j].clone() },
                amount: token_balances[j],
            },
        );
        assert(effects@ =~= allowances(tokens@, token_balances@, state.incentive_contract).take(
            j + 1,
        ));
        assert(assets@ =~= contributed_assets(natives@, native_balances@, tokens@, token_balances@).take(
            natives@.len() + j + 1,
        ));
        j = j + 1;
    }
    assert(funds@ =~= native_funds(natives@, native_balances@));
    assert(assets@ =~= contributed_assets(natives@, native_balances@, tokens@, token_balances@));
    assert(effects@ =~= allowances(tokens@, token_balances@, state.incentive_contract));
    effects.push(
        Effect::IncentivesCreate {
            incentives: state.incentive_contract.clone(),
            cluster_contract: cluster_address,
            asset_amounts: assets,
            funds,
        },
    );
    effects.push(
        Effect::CallSelf {
            contract: contract.clone(),
            msg: ExecuteMsg::_SendToUser { cluster_token, user },
        },
    );
    assert(effects@.take(tokens@.len() as int) =~= allowances(
        tokens@,
        token_balances@,
        state.incentive_contract,
    ));
    Ok(effects)
}

/// The total amount of the token `token` that the transfers among `effects`
/// send out of the contract.
pub open spec fn sent_amount(effects: Seq<Effect>, token: String) -> int
    decreases effects.len(),
{
    if effects.len() == 0 {
        0
    } else {
        sent_amount(effects.drop_last(), token) + match effects.last() {
            Effect::Transfer { token: t, amount, .. } => if t == token {
                amount as int
            } else {
                0
            },
            _ => 0,
        }
    }
}

/// The delivery stage of the mint, callable by the contract alone: it sends
/// the contract's whole balance `balance` of the cluster token to `user`,
/// which leaves the contract with none of it.
pub fn _send_to_user(
    contract: &String,
    sender: &String,
    cluster_token: String,
    user: String,
    balance: u128,
) -> (r: Result<Vec<Effect>, MintError>)
    ensures
        r is Err <==> sender@ != contract@,
        match r {
            Ok(effects) => {
                &&& effects@ == seq![
                    Effect::Transfer { token: cluster_token, recipient: user, amount: balance },
                ]
                &&& balance - sent_amount(effects@, cluster_token) == 0
            },
            Err(e) => e == MintError::Unauthorized,
        },
{
    if *sender != *contract {
        return Err(MintError::Unauthorized);
    }
    let effects = vec![Effect::Transfer { token: cluster_token, recipient: user, amount: balance }];
    assert(effects@ =~= seq![
        Effect::Transfer { token: cluster_token, recipient: user, amount: balance },
    ]);
    assert(effects@.drop_last() =~= Seq::<Effect>::empty());
    assert(sent_amount(effects@.drop_last(), cluster_token) == 0);
    assert(sent_amount(effects@, cluster_token) == balance);
    Ok(effects)
}

} // verus!
