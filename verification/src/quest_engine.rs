//! Value shapes of the quest engine.
//!
//! A `Build` quest is funded by an employer into escrow and approved by
//! them; an `Explore` quest is verified by the admin and paid from the
//! reward pool. A submission goes from `Pending` to `Approved` or `Rejected`.

use crate::address::Address;
use vstd::prelude::*;

verus! {

/// The kinds of quest.
#[derive(Clone, Copy, Debug, PartialEq, Eq, Structural)]
pub enum QuestType {
    /// Employer-funded quest with escrow and employer approval.
    Build,
    /// Admin-verified off-chain action paid from the reward pool.
    Explore,
}

/// A quest record.
#[derive(Clone, Debug, PartialEq, Eq)]
pub struct Quest {
    /// Address that funded the quest.
    pub employer: Address,
    /// Reward amount in token base units.
    pub reward_amount: i128,
    /// Build or Explore.
    pub quest_type: QuestType,
    /// Hash of the quest content kept off-chain.
    pub metadata_hash: [u8; 32],
    /// Whether the quest accepts submissions and reviews.
    pub active: bool,
}

/// Where a submission stands.
#[derive(Clone, Copy, Debug, PartialEq, Eq, Structural)]
pub enum SubmissionStatus {
    /// Awaiting review.
    Pending,
    /// Approved and paid.
    Approved,
    /// Rejected, without payout.
    Rejected,
}

/// The submission of one learner to one quest.
#[derive(Clone, Debug, PartialEq, Eq)]
pub struct Submission {
    /// Hash of the submitted proof kept off-chain.
    pub proof_hash: [u8; 32],
    /// Review state.
    pub status: SubmissionStatus,
}

/// Storage keys of the quest engine.
#[derive(Clone, Debug, PartialEq, Eq)]
pub enum DataKey {
    /// Instance: registered admin address.
    Admin,
    /// Persistent: the quest of one id.
    Quest(u32),
    /// Persistent: the submission of one learner to one quest.
    Submission(Address, u32),
    /// Instance: the payment token.
    Token,
    /// Instance: the quest id counter.
    QuestCounter,
    /// Instance: configured reward pool address.
    RewardPool,
    /// Instance: pause flag.
    IsPaused,
    /// Instance: configured stake vault address.
    StakeVault,
}

} // verus!
