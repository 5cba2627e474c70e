//! Storage and value shapes of the stake vault.
//!
//! The `lock_timestamp` of a stake record is reset on every stake-write;
//! there is no way to extend a lock or to leave it early.
//!
//! | amount   | multiplier |
//! |----------|------------|
//! | >= 500   | 200        |
//! | >= 100   | 120        |
//! | <  100   | 100        |

use crate::address::Address;
use vstd::prelude::*;

verus! {

/// Per-staker stake record. The record is removed entirely on unstake,
/// never zeroed out.
#[derive(Clone, Copy, Debug, PartialEq, Eq, Structural)]
pub struct StakeInfo {
    /// Total staked amount, in token base units.
    pub amount: i128,
    /// Ledger timestamp of the most recent stake-write.
    pub lock_timestamp: u64,
}

/// Storage keys of the stake vault.
#[derive(Clone, Debug, PartialEq, Eq)]
pub enum DataKey {
    /// Instance: registered admin address.
    Admin,
    /// Instance: address of the staking token.
    Token,
    /// Persistent: the stake record of one staker.
    UserStake(Address),
}

} // verus!
