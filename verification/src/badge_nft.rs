//! Value shapes of the badge contract.
//!
//! A badge is a small non-transferable record: once minted it stays in the
//! learner's badge list until the admin revokes it.

use crate::address::Address;
use vstd::prelude::*;

verus! {

/// A soulbound course-completion badge.
#[derive(Clone, Copy, Debug, PartialEq, Eq, Structural)]
pub struct Badge {
    /// The course this badge stands for.
    pub course_id: u32,
    /// Ledger timestamp at mint time.
    pub minted_at: u64,
}

/// Storage keys of the badge contract.
#[derive(Clone, Debug, PartialEq, Eq)]
pub enum DataKey {
    /// Instance: the authorized registry address.
    Admin,
    /// Persistent: the badges of one learner.
    UserBadges(Address),
}

} // verus!
