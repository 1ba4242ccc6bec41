use vstd::prelude::*;

verus! {

/// What kind of asset a basket component is.
#[derive(Debug, Clone, PartialEq, Eq)]
pub enum AssetInfo {
    /// A native ledger asset, named by its denom.
    NativeToken { denom: String },
    /// A contract-issued token, named by its contract address.
    Token { contract_addr: String },
}

/// An asset kind paired with an amount (a holding, or a target weight).
#[derive(Debug, Clone, PartialEq, Eq)]
pub struct Asset {
    pub info: AssetInfo,
    pub amount: u128,
}

/// A native coin attached to a call.
#[derive(Debug, Clone, PartialEq, Eq)]
pub struct Coin {
    pub denom: String,
    pub amount: u128,
}

/// The stable denom every deposit is made in.
pub open spec fn stable_denom() -> Seq<char> {
    seq!['u', 'u', 's', 'd']
}

/// The stable denom as a string.
pub fn stable_denom_string() -> (r: String)
    ensures
        r@ == stable_denom(),
{
    let r = String::from_str("uusd");
    proof {
        reveal_strlit("uusd");
    }
    r
}

impl AssetInfo {
    /// A copy of this asset kind.
    pub fn duplicate(&self) -> (r: AssetInfo)
        ensures
            r == *self,
    {
        match self {
            AssetInfo::NativeToken { denom } => AssetInfo::NativeToken { denom: denom.clone() },
            AssetInfo::Token { contract_addr } => AssetInfo::Token {
                contract_addr: contract_addr.clone(),
            },
        }
    }
}

impl Asset {
    /// A copy of this asset.
    pub fn duplicate(&self) -> (r: Asset)
        ensures
            r == *self,
    {
        Asset { info: self.info.duplicate(), amount: self.amount }
    }
}

} // verus!
