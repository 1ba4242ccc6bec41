use vstd::prelude::*;

verus! {

/// Setup of the contract: the addresses of its collaborators.
#[derive(Debug, Clone, PartialEq, Eq)]
pub struct InstantiateMsg {
    pub incentive_contract: String,
    pub astroport_factory_address: String,
    pub aust_token_address: String,
    pub anchor_market_contract: String,
    pub oracle_hub_contract: String,
    pub owner_address: String,
}

/// The contract's operations: the user-facing mint request and the two
/// internal stages that it schedules for itself.
#[allow(non_camel_case_types)]
#[derive(Debug, Clone, PartialEq, Eq)]
pub enum ExecuteMsg {
    MintCT { cluster_address: String },
    _MintCT {
        cluster_address: String,
        natives: Vec<String>,
        tokens: Vec<String>,
        cluster_token: String,
        user: String,
    },
    _SendToUser { cluster_token: String, user: String },
}

/// The cluster's query for its current state.
#[derive(Debug, Clone, Copy, PartialEq, Eq, Structural)]
pub enum QueryMsgNebula {
    ClusterState {},
}

/// The lending market's deposit operation.
#[derive(Debug, Clone, Copy, PartialEq, Eq, Structural)]
pub enum AnchorMsg {
    DepositStable {},
}

/// The price authority's query: the price of a token, at most `timeframe`
/// blocks old when given.
#[derive(Debug, Clone, PartialEq, Eq)]
pub enum QueryMsgOracleHub {
    Price { asset_token: String, timeframe: Option<u64> },
}

/// The contract's configuration, written once at setup.
#[derive(Debug, Clone, PartialEq, Eq)]
pub struct State {
    pub incentive_contract: String,
    pub astroport_factory_address: String,
    pub aust_token_address: String,
    pub anchor_market_contract: String,
    pub oracle_hub_contract: String,
    pub owner_address: String,
}

/// The configuration made from a setup message (whose addresses were
/// validated by the host); the caller of the setup becomes the owner.
pub fn instantiate(msg: InstantiateMsg, sender: String) -> (r: State)
    ensures
        r.incentive_contract == msg.incentive_contract,
        r.astroport_factory_address == msg.astroport_factory_address,
        r.aust_token_address == msg.aust_token_address,
        r.anchor_market_contract == msg.anchor_market_contract,
        r.oracle_hub_contract == msg.oracle_hub_contract,
        r.owner_address == sender,
{
    State {
        incentive_contract: msg.incentive_contract,
        astroport_factory_address: msg.astroport_factory_address,
        aust_token_address: msg.aust_token_address,
        anchor_market_contract: msg.anchor_market_contract,
        oracle_hub_contract: msg.oracle_hub_contract,
        owner_address: sender,
    }
}

} // verus!
