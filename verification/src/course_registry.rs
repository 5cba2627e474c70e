//! Value shapes of the course registry.
//!
//! An admin creates a course under an incrementing id; a learner enrolls and
//! their progress is counted per completed module; on the last module the
//! registry mints a badge and pays a reward.

use crate::address::Address;
use vstd::prelude::*;

verus! {

/// A course as stored on-chain.
#[derive(Clone, Debug, PartialEq, Eq)]
pub struct Course {
    /// Instructor address, transferable by the owner.
    pub instructor: Address,
    /// Number of modules required to complete the course.
    pub total_modules: u32,
    /// Hash of the course content kept off-chain.
    pub metadata_hash: [u8; 32],
    /// Soft-delete flag: an inactive course takes no enrollments but stays stored.
    pub active: bool,
}

/// Storage keys of the course registry.
#[derive(Clone, Debug, PartialEq, Eq)]
pub enum DataKey {
    /// Persistent: the course of one id.
    Course(u32),
    /// Persistent: the progress of one learner in one course.
    Progress(Address, u32),
    /// Instance: the course id counter.
    CourseCount,
    /// Instance: registered admin address.
    Admin,
    /// Instance: configured badge contract address.
    BadgeNftAddress,
    /// Instance: configured reward pool address.
    RewardPoolAddress,
}

} // verus!
