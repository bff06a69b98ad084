//! Genesis template for a custom network.
//!
//! The template pre-funds every generated seed key; the first key's
//! balance is locked behind the initial stake duration, the rest are
//! unlocked immediately.

use vstd::prelude::*;

use crate::key::{generate_n, well_formed_key, KeyInfo};

verus! {

/// Unlocked balance given to each pre-funded address.
pub const DEFAULT_INITIAL_AMOUNT: u64 = 300000000000000000;

/// Balance locked behind the initial stake duration for the first key.
pub const DEFAULT_LOCKED_AMOUNT: u64 = 200000000000000000;

/// How long the initial stake stays locked, in seconds.
pub const DEFAULT_INITIAL_STAKE_DURATION: u64 = 31536000;

/// One pre-funded address of the genesis document.
#[derive(Debug, PartialEq, Clone)]
pub struct Allocation {
    /// The funded address.
    pub eth_addr: String,
    /// Balance unlocked from the start.
    pub initial_amount: u64,
    /// Balance locked behind the initial stake duration.
    pub locked_amount: u64,
}

/// The genesis template of a custom network.  It has no stakers yet:
/// those are added once the anchor nodes' ids are known.
#[derive(Debug, PartialEq, Clone)]
pub struct Genesis {
    pub network_id: u32,
    pub allocations: Vec<Allocation>,
    /// Addresses whose balance backs the initial stake: the first key.
    pub initial_staked_funds: Vec<String>,
    pub initial_stake_duration: u64,
}

impl Genesis {
    /// Builds a genesis template for `network_id`, generating
    /// `keys_to_generate` seed keys: every key is pre-funded, the first
    /// one additionally backs the locked initial stake.
    pub fn new(network_id: u32, keys_to_generate: usize) -> (r: (Genesis, Vec<KeyInfo>))
        requires
            keys_to_generate >= 1,
        ensures
            r.1@.len() == keys_to_generate,
            forall|i: int| 0 <= i < keys_to_generate ==> well_formed_key(#[trigger] r.1@[i]),
            r.0.network_id == network_id,
            r.0.allocations@.len() == keys_to_generate,
            forall|i: int|
                0 <= i < keys_to_generate ==> (#[trigger] r.0.allocations@[i]).eth_addr@
                    == r.1@[i].eth_address@,
            forall|i: int|
                0 <= i < keys_to_generate ==> (#[trigger] r.0.allocations@[i]).initial_amount
                    == DEFAULT_INITIAL_AMOUNT,
            r.0.allocations@[0].locked_amount == DEFAULT_LOCKED_AMOUNT,
            forall|i: int|
                1 <= i < keys_to_generate ==> (#[trigger] r.0.allocations@[i]).locked_amount == 0,
            r.0.initial_staked_funds@.len() == 1,
            r.0.initial_staked_funds@[0]@ == r.1@[0].eth_address@,
            r.0.initial_stake_duration == DEFAULT_INITIAL_STAKE_DURATION,
    {
        let keys = generate_n(keys_to_generate);
        let mut allocations: Vec<Allocation> = Vec::new();
        let mut i: usize = 0;
        while i < keys_to_generate
            invariant
                i <= keys_to_generate,
                keys@.len() == keys_to_generate,
                allocations@.len() == i,
                forall|j: int|
                    0 <= j < i ==> (#[trigger] allocations@[j]).eth_addr@ == keys@[j].eth_address@,
                forall|j: int|
                    0 <= j < i ==> (#[trigger] allocations@[j]).initial_amount
                        == DEFAULT_INITIAL_AMOUNT,
                i >= 1 ==> allocations@[0].locked_amount == DEFAULT_LOCKED_AMOUNT,
                forall|j: int| 1 <= j < i ==> (#[trigger] allocations@[j]).locked_amount == 0,
            decreases keys_to_generate - i,
        {
            let locked: u64 = if i == 0 {
                DEFAULT_LOCKED_AMOUNT
            } else {
                0
            };
            allocations.push(
                Allocation {
                    eth_addr: keys[i].eth_address.clone(),
                    initial_amount: DEFAULT_INITIAL_AMOUNT,
                    locked_amount: locked,
                },
            );
            i += 1;
        }
        let mut staked: Vec<String> = Vec::new();
        staked.push(keys[0].eth_address.clone());
        let g = Genesis {
            network_id,
            allocations,
            initial_staked_funds: staked,
            initial_stake_duration: DEFAULT_INITIAL_STAKE_DURATION,
        };
        (g, keys)
    }
}

} // verus!
