//! Value shapes of the governance contract.
//!
//! A vote weighs as many as the voter's badges; each voter votes once per
//! proposal.

use crate::address::Address;
use vstd::prelude::*;

verus! {

/// A badge-weighted proposal.
#[derive(Clone, Debug, PartialEq, Eq)]
pub struct Proposal {
    /// Proposal id.
    pub id: u32,
    /// Address that opened the proposal.
    pub proposer: Address,
    /// Hash of the proposal text kept off-chain.
    pub metadata_hash: [u8; 32],
    /// Sum of the weights of the votes in favour.
    pub votes_for: u32,
    /// Sum of the weights of the votes against.
    pub votes_against: u32,
    /// Ledger timestamp at which voting closes.
    pub end_time: u64,
    /// Whether the proposal has been executed or cancelled.
    pub executed: bool,
}

/// Storage keys of the governance contract.
#[derive(Clone, Debug, PartialEq, Eq)]
pub enum DataKey {
    /// Persistent: the proposal of one id.
    Proposal(u32),
    /// Persistent: the vote of one voter on one proposal.
    UserVote(Address, u32),
    /// Instance: registered admin address.
    Admin,
}

} // verus!
