//! Value shapes of the reward pool: a whitelisted payout vault.

use crate::address::Address;
use vstd::prelude::*;

verus! {

/// The reward pool contract.
#[derive(Clone, Copy, Debug, PartialEq, Eq, Structural)]
pub struct RewardPool;

/// Emitted once the pool has been given its admin and token.
#[derive(Clone, Debug, PartialEq, Eq)]
pub struct PoolInitialized {
    pub admin: Address,
    pub token: Address,
}

/// Emitted when a spender is approved.
#[derive(Clone, Debug, PartialEq, Eq)]
pub struct SpenderAdded {
    pub spender: Address,
}

/// Emitted when an approved spender pays a learner.
#[derive(Clone, Debug, PartialEq, Eq)]
pub struct RewardDistributed {
    pub caller: Address,
    pub learner: Address,
    pub amount: i128,
}

/// Emitted when a donor funds the pool.
#[derive(Clone, Debug, PartialEq, Eq)]
pub struct PoolFunded {
    pub donor: Address,
}

/// Storage keys of the reward pool.
#[derive(Clone, Debug, PartialEq, Eq)]
pub enum DataKey {
    /// Instance: registered admin address.
    Admin,
    /// Instance: the payout token.
    Token,
    /// Instance: pause flag.
    IsPaused,
    /// Persistent: whitelist entry of one approved spender.
    Spender(Address),
}

} // verus!
