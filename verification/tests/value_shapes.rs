use kaystichs::address::Address;
use kaystichs::badge_nft::Badge;
use kaystichs::course_registry::Course;
use kaystichs::governance::Proposal;
use kaystichs::quest_engine::{Quest, QuestType, Submission, SubmissionStatus};
use kaystichs::reward_pool::{RewardDistributed, RewardPool};

fn addr(s: &str) -> Address {
    Address::from_strkey(s.to_string())
}

#[test]
fn records_keep_their_fields() {
    let badge = Badge { course_id: 3, minted_at: 1_700_000_000 };
    assert_eq!(badge, Badge { course_id: 3, minted_at: 1_700_000_000 });
    let course = Course {
        instructor: addr("GINSTRUCTOR"),
        total_modules: 4,
        metadata_hash: [1u8; 32],
        active: true,
    };
    assert_eq!(course.clone(), course);
    let proposal = Proposal {
        id: 1,
        proposer: addr("GPROPOSER"),
        metadata_hash: [2u8; 32],
        votes_for: 0,
        votes_against: 0,
        end_time: 99,
        executed: false,
    };
    assert!(!proposal.executed);
    let quest = Quest {
        employer: addr("GEMPLOYER"),
        reward_amount: 1_000,
        quest_type: QuestType::Build,
        metadata_hash: [3u8; 32],
        active: true,
    };
    assert_ne!(quest.quest_type, QuestType::Explore);
    let sub = Submission { proof_hash: [4u8; 32], status: SubmissionStatus::Pending };
    assert_ne!(sub.status, SubmissionStatus::Approved);
    let ev = RewardDistributed { caller: addr("CPOOL"), learner: addr("GLEARNER"), amount: 10 };
    assert_eq!(ev.amount, 10);
    assert_eq!(RewardPool, RewardPool);
}
