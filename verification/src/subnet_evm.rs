//! Genesis of an optional EVM-compatible subnet.
//!
//! When the subnet is requested, its allocation table is seeded with every
//! generated address, and those addresses are granted contract-deployer
//! allow-list administration.

use vstd::prelude::*;

verus! {

/// One funded account of the subnet's allocation table.
#[derive(Debug, PartialEq, Clone)]
pub struct AllocAccount {
    /// Starting balance, as a hex-rendered big number.
    pub balance: String,
}

impl AllocAccount {
    /// An account with the stock starting balance.
    pub fn default() -> (r: Self)
        ensures
            r.balance@ == "0x204FCE5E3E25026110000000"@,
    {
        Self { balance: "0x204FCE5E3E25026110000000".to_owned() }
    }
}

/// The contract-deployer allow list precompile configuration.
#[derive(Debug, PartialEq, Clone)]
pub struct ContractDeployerAllowListConfig {
    /// Addresses allowed to administer the deployer allow list.
    pub allow_list_admins: Option<Vec<String>>,
    /// When the precompile activates, in seconds since the epoch.
    pub block_timestamp: u64,
}

impl ContractDeployerAllowListConfig {
    /// An allow list active from genesis with no administrators yet.
    pub fn default() -> (r: Self)
        ensures
            r.allow_list_admins is None,
            r.block_timestamp == 0,
    {
        Self { allow_list_admins: None, block_timestamp: 0 }
    }
}

/// Chain-level configuration of the subnet.
#[derive(Debug, PartialEq, Clone)]
pub struct ChainConfig {
    pub chain_id: u64,
    pub contract_deployer_allow_list_config: Option<ContractDeployerAllowListConfig>,
}

impl ChainConfig {
    /// The stock chain configuration.
    pub fn default() -> (r: Self)
        ensures
            r.chain_id == 13213,
            r.contract_deployer_allow_list_config is None,
    {
        Self { chain_id: 13213, contract_deployer_allow_list_config: None }
    }
}

/// One entry of the allocation table, keyed by the `0x`-stripped address.
#[derive(Debug, PartialEq, Clone)]
pub struct Alloc {
    pub address: String,
    pub account: AllocAccount,
}

/// The genesis document of the subnet.
#[derive(Debug, PartialEq, Clone)]
pub struct Genesis {
    pub config: Option<ChainConfig>,
    pub alloc: Option<Vec<Alloc>>,
}

impl Genesis {
    /// An empty genesis: no chain configuration, no allocations.
    pub fn default() -> (r: Self)
        ensures
            r.config is None,
            r.alloc is None,
    {
        Self { config: None, alloc: None }
    }
}

} // verus!
