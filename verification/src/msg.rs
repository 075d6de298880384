use vstd::prelude::*;

use crate::error::ContractError;

verus! {

/// The one-time initialization request: descriptive fields, the initial
/// circulating supply, and the supply cap.
#[derive(Debug, Clone, PartialEq, Eq)]
pub struct InstantiateMsg {
    pub name: String,
    pub symbol: String,
    pub cap: u128,
    pub total_supply: u128,
}

impl InstantiateMsg {
    /// Structural validation of the request itself. No field carries a
    /// constraint beyond its type, so every request is accepted; the
    /// supply-versus-cap check belongs to initialization proper.
    pub fn validate(&self) -> (r: Result<(), ContractError>)
        ensures
            r is Ok,
    {
        Ok(())
    }
}

/// A mutating operation request. The host authenticates the caller and
/// passes it alongside; `recipient` addresses are validated by the host.
#[derive(Debug, Clone, PartialEq, Eq)]
pub enum ExecuteMsg {
    Transfer { recipient: String, amount: u128 },
    Burn { amount: u128 },
    Mint { recipient: String, amount: u128 },
}

/// A read-only query.
#[derive(Debug, Clone, PartialEq, Eq)]
pub enum QueryMsg {
    Balance { address: String },
}

} // verus!
