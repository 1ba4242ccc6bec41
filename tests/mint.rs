use mint_ct_with_ust::allocator::{allocate, total_target_weight};
use mint_ct_with_ust::asset::{stable_denom_string, Asset, AssetInfo, Coin};
use mint_ct_with_ust::chain::{_mint_ct, _send_to_user, mint_ct};
use mint_ct_with_ust::error::MintError;
use mint_ct_with_ust::msg::{instantiate, ExecuteMsg, InstantiateMsg, State};
use mint_ct_with_ust::router::{route, swap_to_ust, Effect, Route};
use mint_ct_with_ust::simulate::{preview_steps, receipt_amount, simulate_mint, PreviewStep};

const ONE: u128 = 1_000_000_000_000_000_000;

fn native(denom: &str, amount: u128) -> Asset {
    Asset { info: AssetInfo::NativeToken { denom: denom.to_string() }, amount }
}

fn token(addr: &str, amount: u128) -> Asset {
    Asset { info: AssetInfo::Token { contract_addr: addr.to_string() }, amount }
}

fn config() -> State {
    State {
        incentive_contract: "incentives".to_string(),
        astroport_factory_address: "factory".to_string(),
        aust_token_address: "aust".to_string(),
        anchor_market_contract: "anchor".to_string(),
        oracle_hub_contract: "oracle".to_string(),
        owner_address: "owner".to_string(),
    }
}

fn s(x: &str) -> String {
    x.to_string()
}

#[test]
fn allocation_follows_weights() {
    let targets = vec![native("uusd", 3), native("ukrw", 7)];
    assert_eq!(allocate(1000, &targets), Ok(vec![300, 700]));
}

#[test]
fn allocation_truncates_and_loses_only_dust() {
    let targets = vec![native("uusd", 1), native("ukrw", 1), token("mir", 1)];
    let shares = allocate(100, &targets).unwrap();
    assert_eq!(shares, vec![33, 33, 33]);
    let sum: u128 = shares.iter().sum();
    assert!(sum <= 100);
    let remainders: u128 = targets.iter().map(|t| (100 * t.amount) % 3).sum();
    assert_eq!(3 * (100 - sum), remainders);
}

#[test]
fn allocation_uneven_weights_exact_values() {
    let targets = vec![native("uusd", 2), token("mir", 5), token("aust", 6)];
    // 1001 * 2 / 13 = 154, 1001 * 5 / 13 = 385, 1001 * 6 / 13 = 462
    assert_eq!(allocate(1001, &targets), Ok(vec![154, 385, 462]));
    assert_eq!(allocate(1000, &targets), Ok(vec![153, 384, 461]));
}

#[test]
fn allocation_of_zero_deposit_is_zero() {
    let targets = vec![native("uusd", 4), token("mir", 9)];
    assert_eq!(allocate(0, &targets), Ok(vec![0, 0]));
}

#[test]
fn allocation_with_zero_total_weight_fails() {
    let targets = vec![native("uusd", 0), native("ukrw", 0)];
    assert_eq!(allocate(1000, &targets), Err(MintError::ZeroTotalWeight));
    assert_eq!(allocate(1000, &vec![]), Err(MintError::ZeroTotalWeight));
}

#[test]
fn allocation_overflow_is_reported() {
    let targets = vec![native("uusd", 2), native("ukrw", 1)];
    assert_eq!(allocate(u128::MAX, &targets), Err(MintError::Overflow));
    let heavy = vec![native("uusd", u128::MAX), native("ukrw", 1)];
    assert_eq!(total_target_weight(&heavy), Err(MintError::Overflow));
    assert_eq!(allocate(1, &heavy), Err(MintError::Overflow));
}

#[test]
fn total_weight_sums_targets() {
    let targets = vec![native("uusd", 3), token("mir", 7), token("aust", 10)];
    assert_eq!(total_target_weight(&targets), Ok(20));
}

#[test]
fn routes_by_asset_kind() {
    let aust = s("aust");
    assert_eq!(route(&native("uusd", 1).info, &aust), Route::Keep);
    assert_eq!(route(&native("ukrw", 1).info, &aust), Route::NativeSwap);
    assert_eq!(route(&token("aust", 1).info, &aust), Route::Deposit);
    assert_eq!(route(&token("mir", 1).info, &aust), Route::PairSwap);
    assert_eq!(stable_denom_string(), "uusd");
}

#[test]
fn swap_to_ust_targets_the_pair() {
    let e = swap_to_ust(token("mir", 55), s("factory"));
    assert_eq!(
        e,
        Effect::PairSwap {
            factory: s("factory"),
            ask_asset: AssetInfo::Token { contract_addr: s("mir") },
            offer_amount: 55,
        }
    );
}

#[test]
fn two_native_basket_end_to_end() {
    let state = config();
    let targets = vec![native("uusd", 3), native("ukrw", 7)];
    let effects = mint_ct(&state, &s("contract"), s("cluster"), s("alice"), &targets, s("ct"), 1000)
        .unwrap();
    assert_eq!(
        effects,
        vec![
            Effect::NativeSwap { offer_amount: 700, ask_denom: s("ukrw") },
            Effect::CallSelf {
                contract: s("contract"),
                msg: ExecuteMsg::_MintCT {
                    cluster_address: s("cluster"),
                    natives: vec![s("uusd"), s("ukrw")],
                    tokens: vec![],
                    cluster_token: s("ct"),
                    user: s("alice"),
                },
            },
        ]
    );
    // the swap realised 695 ukrw, not an estimate of 700
    let collect = _mint_ct(
        &state,
        &s("contract"),
        &s("contract"),
        s("cluster"),
        vec![s("uusd"), s("ukrw")],
        vec![],
        s("ct"),
        s("alice"),
        vec![300, 695],
        vec![],
    )
    .unwrap();
    assert_eq!(
        collect,
        vec![
            Effect::IncentivesCreate {
                incentives: s("incentives"),
                cluster_contract: s("cluster"),
                asset_amounts: vec![native("uusd", 300), native("ukrw", 695)],
                funds: vec![
                    Coin { denom: s("uusd"), amount: 300 },
                    Coin { denom: s("ukrw"), amount: 695 },
                ],
            },
            Effect::CallSelf {
                contract: s("contract"),
                msg: ExecuteMsg::_SendToUser { cluster_token: s("ct"), user: s("alice") },
            },
        ]
    );
}

#[test]
fn lending_receipt_component_is_deposited() {
    let state = config();
    let targets = vec![token("aust", 1), token("mir", 1)];
    let effects = mint_ct(&state, &s("contract"), s("cluster"), s("bob"), &targets, s("ct"), 1000)
        .unwrap();
    assert_eq!(effects.len(), 3);
    assert_eq!(effects[0], Effect::DepositStable { market: s("anchor"), amount: 500 });
    assert_eq!(
        effects[1],
        Effect::PairSwap {
            factory: s("factory"),
            ask_asset: AssetInfo::Token { contract_addr: s("mir") },
            offer_amount: 500,
        }
    );
    assert!(effects.iter().all(|e| !matches!(
        e,
        Effect::PairSwap { ask_asset: AssetInfo::Token { contract_addr }, .. } if contract_addr == "aust"
    )));
}

#[test]
fn collect_stage_grants_allowances_for_tokens() {
    let state = config();
    let collect = _mint_ct(
        &state,
        &s("contract"),
        &s("contract"),
        s("cluster"),
        vec![s("uusd")],
        vec![s("aust"), s("mir")],
        s("ct"),
        s("carol"),
        vec![10],
        vec![480, 20],
    )
    .unwrap();
    assert_eq!(collect.len(), 4);
    assert_eq!(
        collect[0],
        Effect::IncreaseAllowance { token: s("aust"), spender: s("incentives"), amount: 480 }
    );
    assert_eq!(
        collect[1],
        Effect::IncreaseAllowance { token: s("mir"), spender: s("incentives"), amount: 20 }
    );
    match &collect[2] {
        Effect::IncentivesCreate { asset_amounts, funds, .. } => {
            assert_eq!(asset_amounts, &vec![native("uusd", 10), token("aust", 480), token("mir", 20)]);
            assert_eq!(funds, &vec![Coin { denom: s("uusd"), amount: 10 }]);
        }
        other => panic!("unexpected effect {:?}", other),
    }
}

#[test]
fn collect_stage_rejects_mismatched_balances() {
    let r = _mint_ct(
        &config(),
        &s("contract"),
        &s("contract"),
        s("cluster"),
        vec![s("uusd")],
        vec![],
        s("ct"),
        s("carol"),
        vec![],
        vec![],
    );
    assert_eq!(r, Err(MintError::LengthMismatch));
}

#[test]
fn delivery_forwards_whole_balance() {
    let r = _send_to_user(&s("contract"), &s("contract"), s("ct"), s("dave"), 1234).unwrap();
    assert_eq!(r, vec![Effect::Transfer { token: s("ct"), recipient: s("dave"), amount: 1234 }]);
}

#[test]
fn internal_stages_reject_other_callers() {
    let r = _send_to_user(&s("contract"), &s("mallory"), s("ct"), s("dave"), 1234);
    assert_eq!(r, Err(MintError::Unauthorized));
    let r = _mint_ct(
        &config(),
        &s("contract"),
        &s("mallory"),
        s("cluster"),
        vec![],
        vec![],
        s("ct"),
        s("dave"),
        vec![],
        vec![],
    );
    assert_eq!(r, Err(MintError::Unauthorized));
}

#[test]
fn request_stage_fails_on_zero_weight() {
    let targets = vec![token("mir", 0)];
    let r = mint_ct(&config(), &s("contract"), s("cluster"), s("e"), &targets, s("ct"), 10);
    assert_eq!(r, Err(MintError::ZeroTotalWeight));
}

#[test]
fn receipt_amount_uses_scaled_price() {
    // price 1.25: 1000 * 10^9 / 1_250_000_000 = 800
    assert_eq!(receipt_amount(1000, ONE + ONE / 4), Ok(800));
    // price 3: 1000 * 10^9 / 3 * 10^9 = 333
    assert_eq!(receipt_amount(1000, 3 * ONE), Ok(333));
    // price 1.000000000999: the scaled price truncates to 10^9
    assert_eq!(receipt_amount(7, ONE + 999_999_999), Ok(7));
}

#[test]
fn receipt_amount_errors() {
    assert_eq!(receipt_amount(1000, 999_999_999), Err(MintError::ZeroPrice));
    assert_eq!(receipt_amount(1000, 0), Err(MintError::ZeroPrice));
    // price 10^-9: scaled price 1, the result needs more than 128 bits
    assert_eq!(receipt_amount(u128::MAX, 1_000_000_000), Err(MintError::Overflow));
    assert_eq!(receipt_amount(u128::MAX / 1_000_000_000, 1_000_000_000), Ok(u128::MAX / 1_000_000_000 * 1_000_000_000));
}

#[test]
fn preview_matches_live_allocation() {
    let state = config();
    let targets = vec![native("uusd", 3), native("ukrw", 7), token("aust", 5), token("mir", 5)];
    let steps = preview_steps(&state, &targets, 2000).unwrap();
    assert_eq!(
        steps,
        vec![
            PreviewStep::Kept { amount: 300 },
            PreviewStep::QuoteNativeSwap { offer_amount: 700, ask_denom: s("ukrw") },
            PreviewStep::QueryPrice { oracle: s("oracle"), asset_token: s("aust"), amount: 500 },
            PreviewStep::QuotePairSwap {
                factory: s("factory"),
                ask_asset: AssetInfo::Token { contract_addr: s("mir") },
                offer_amount: 500,
            },
        ]
    );
    let live = mint_ct(&state, &s("contract"), s("cluster"), s("u"), &targets, s("ct"), 2000).unwrap();
    assert_eq!(live[0], Effect::NativeSwap { offer_amount: 700, ask_denom: s("ukrw") });
    assert_eq!(live[1], Effect::DepositStable { market: s("anchor"), amount: 500 });
    assert_eq!(
        live[2],
        Effect::PairSwap {
            factory: s("factory"),
            ask_asset: AssetInfo::Token { contract_addr: s("mir") },
            offer_amount: 500,
        }
    );
    let amounts = simulate_mint(&steps, &vec![0, 690, ONE + ONE / 4, 41]).unwrap();
    assert_eq!(amounts, vec![300, 690, 400, 41]);
}

#[test]
fn simulate_mint_errors() {
    let steps = vec![PreviewStep::QueryPrice { oracle: s("o"), asset_token: s("aust"), amount: 5 }];
    assert_eq!(simulate_mint(&steps, &vec![]), Err(MintError::LengthMismatch));
    assert_eq!(simulate_mint(&steps, &vec![5]), Err(MintError::ZeroPrice));
    assert_eq!(simulate_mint(&vec![], &vec![]), Ok(vec![]));
}

#[test]
fn instantiate_records_configuration() {
    let msg = InstantiateMsg {
        incentive_contract: s("i"),
        astroport_factory_address: s("f"),
        aust_token_address: s("a"),
        anchor_market_contract: s("m"),
        oracle_hub_contract: s("o"),
        owner_address: s("ignored"),
    };
    let st = instantiate(msg, s("deployer"));
    assert_eq!(st.incentive_contract, "i");
    assert_eq!(st.astroport_factory_address, "f");
    assert_eq!(st.aust_token_address, "a");
    assert_eq!(st.anchor_market_contract, "m");
    assert_eq!(st.oracle_hub_contract, "o");
    assert_eq!(st.owner_address, "deployer");
}
