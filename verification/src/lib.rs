//! Verified core of the KayStichs protocol contracts: the stake vault's
//! rules and state, and the value shapes of the other contracts.

pub mod address;
pub mod badge_nft;
pub mod course_registry;
pub mod governance;
pub mod quest_engine;
pub mod reward_pool;
pub mod stake_vault;
