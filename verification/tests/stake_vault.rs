use kaystichs::address::Address;
use kaystichs::stake_vault::rules::{
    multiplier_for, multiplier_for_amount, plan_initialize, plan_stake, plan_unstake,
    plan_upgrade, VaultError, LOCK_PERIOD,
};
use kaystichs::stake_vault::types::{DataKey, StakeInfo};
use kaystichs::stake_vault::{StakeVault, Staked, Unstaked, VaultCall};

const VAULT: &str = "CAAAAAAAAAAAAAAAAAAAAAAAAAAAAAAAAAAAAAAAAAAAAAAAAAAAAAAD";
const TOKEN: &str = "CBBBBBBBBBBBBBBBBBBBBBBBBBBBBBBBBBBBBBBBBBBBBBBBBBBBBBBD";
const ADMIN: &str = "GAAAAAAAAAAAAAAAAAAAAAAAAAAAAAAAAAAAAAAAAAAAAAAAAAAAAAAB";
const ALICE: &str = "GBBBBBBBBBBBBBBBBBBBBBBBBBBBBBBBBBBBBBBBBBBBBBBBBBBBBBBB";
const BOB: &str = "GCCCCCCCCCCCCCCCCCCCCCCCCCCCCCCCCCCCCCCCCCCCCCCCCCCCCCCC";

fn addr(s: &str) -> Address {
    Address::from_strkey(s.to_string())
}

fn ready_vault() -> StakeVault {
    let mut v = StakeVault::new(addr(VAULT));
    v.initialize(&addr(ADMIN), &addr(TOKEN)).unwrap();
    v
}

#[test]
fn multiplier_tiers_follow_the_table() {
    assert_eq!(multiplier_for_amount(0), 100);
    assert_eq!(multiplier_for_amount(99), 100);
    assert_eq!(multiplier_for_amount(100), 120);
    assert_eq!(multiplier_for_amount(499), 120);
    assert_eq!(multiplier_for_amount(500), 200);
    assert_eq!(multiplier_for_amount(i128::MAX), 200);
    assert_eq!(multiplier_for_amount(-5), 100);
    assert_eq!(multiplier_for(None), 100);
    assert_eq!(multiplier_for(Some(StakeInfo { amount: 120, lock_timestamp: 9 })), 120);
}

#[test]
fn fresh_vault_has_no_admin_token_or_stakes() {
    let v = StakeVault::new(addr(VAULT));
    assert!(v.admin().is_none());
    assert!(v.token().is_none());
    assert_eq!(v.contract().strkey(), VAULT);
    assert_eq!(v.stake_of(&addr(ALICE)), None);
    assert_eq!(v.get_multiplier(&addr(ALICE)), 100);
}

#[test]
fn initialize_happens_once() {
    let mut v = StakeVault::new(addr(VAULT));
    let ev = v.initialize(&addr(ADMIN), &addr(TOKEN)).unwrap();
    assert_eq!(ev.admin, addr(ADMIN));
    assert_eq!(ev.token, addr(TOKEN));
    assert_eq!(v.admin().as_ref().unwrap().strkey(), ADMIN);
    assert_eq!(v.token().as_ref().unwrap().strkey(), TOKEN);
    let again = v.initialize(&addr(BOB), &addr(BOB));
    assert_eq!(again, Err(VaultError::AlreadyInitialized));
    assert_eq!(again.unwrap_err().message(), "Already initialized");
    assert_eq!(v.admin().as_ref().unwrap().strkey(), ADMIN);
}

#[test]
fn stake_before_initialize_is_rejected() {
    let mut v = StakeVault::new(addr(VAULT));
    assert_eq!(v.stake(&addr(ALICE), 10, 5), Err(VaultError::NotInitialized));
    assert_eq!(VaultError::NotInitialized.message(), "Not initialized");
    assert_eq!(v.stake_of(&addr(ALICE)), None);
}

#[test]
fn non_positive_stake_is_rejected_first() {
    let mut v = StakeVault::new(addr(VAULT));
    assert_eq!(v.stake(&addr(ALICE), 0, 5), Err(VaultError::AmountNotPositive));
    let mut v = ready_vault();
    assert_eq!(v.stake(&addr(ALICE), -3, 5), Err(VaultError::AmountNotPositive));
    assert_eq!(VaultError::AmountNotPositive.message(), "Amount must be positive");
    assert_eq!(v.stake_of(&addr(ALICE)), None);
}

#[test]
fn stakes_add_up_and_restart_the_lock() {
    let mut v = ready_vault();
    let p = v.stake(&addr(ALICE), 60, 1_000).unwrap();
    assert_eq!(p.record, StakeInfo { amount: 60, lock_timestamp: 1_000 });
    assert_eq!(p.transfer.token, addr(TOKEN));
    assert_eq!(p.transfer.from, addr(ALICE));
    assert_eq!(p.transfer.to, addr(VAULT));
    assert_eq!(p.transfer.amount, 60);
    assert_eq!(
        p.event,
        Staked { user: addr(ALICE), amount: 60, total_staked: 60, lock_timestamp: 1_000 }
    );
    assert_eq!(v.get_multiplier(&addr(ALICE)), 100);
    let p = v.stake(&addr(ALICE), 40, 2_000).unwrap();
    assert_eq!(p.record, StakeInfo { amount: 100, lock_timestamp: 2_000 });
    assert_eq!(p.event.total_staked, 100);
    assert_eq!(v.stake_of(&addr(ALICE)), Some(StakeInfo { amount: 100, lock_timestamp: 2_000 }));
    assert_eq!(v.get_multiplier(&addr(ALICE)), 120);
    v.stake(&addr(ALICE), 400, 3_000).unwrap();
    assert_eq!(v.get_multiplier(&addr(ALICE)), 200);
}

#[test]
fn unstake_waits_for_the_lock() {
    let mut v = ready_vault();
    v.stake(&addr(ALICE), 600, 1_000).unwrap();
    let early = v.unstake(&addr(ALICE), 1_000 + LOCK_PERIOD - 1);
    assert_eq!(early, Err(VaultError::LockPeriodActive));
    assert_eq!(VaultError::LockPeriodActive.message(), "Lock period active");
    assert_eq!(v.stake_of(&addr(ALICE)), Some(StakeInfo { amount: 600, lock_timestamp: 1_000 }));
    let p = v.unstake(&addr(ALICE), 1_000 + 604_800).unwrap();
    assert_eq!(p.transfer.token, addr(TOKEN));
    assert_eq!(p.transfer.from, addr(VAULT));
    assert_eq!(p.transfer.to, addr(ALICE));
    assert_eq!(p.transfer.amount, 600);
    assert_eq!(p.event, Unstaked { user: addr(ALICE), amount: 600 });
    assert_eq!(v.stake_of(&addr(ALICE)), None);
    assert_eq!(v.get_multiplier(&addr(ALICE)), 100);
}

#[test]
fn restaking_restarts_the_lock() {
    let mut v = ready_vault();
    v.stake(&addr(ALICE), 50, 1_000).unwrap();
    v.stake(&addr(ALICE), 50, 500_000).unwrap();
    assert_eq!(
        v.unstake(&addr(ALICE), 1_000 + LOCK_PERIOD),
        Err(VaultError::LockPeriodActive)
    );
    assert_eq!(v.unstake(&addr(ALICE), 500_000 + LOCK_PERIOD).unwrap().transfer.amount, 100);
}

#[test]
fn unstake_without_stake_is_rejected() {
    let mut v = ready_vault();
    assert_eq!(v.unstake(&addr(BOB), 10_000_000), Err(VaultError::NoStakeFound));
    assert_eq!(VaultError::NoStakeFound.message(), "No stake found");
}

#[test]
fn stakers_do_not_disturb_each_other() {
    let mut v = ready_vault();
    v.stake(&addr(ALICE), 500, 10).unwrap();
    v.stake(&addr(BOB), 100, 20).unwrap();
    assert_eq!(v.get_multiplier(&addr(ALICE)), 200);
    assert_eq!(v.get_multiplier(&addr(BOB)), 120);
    v.unstake(&addr(ALICE), 10 + LOCK_PERIOD).unwrap();
    assert_eq!(v.stake_of(&addr(ALICE)), None);
    assert_eq!(v.stake_of(&addr(BOB)), Some(StakeInfo { amount: 100, lock_timestamp: 20 }));
}

#[test]
fn stake_then_unstake_leaves_nothing_behind() {
    let mut v = ready_vault();
    v.stake(&addr(ALICE), 7, 42).unwrap();
    v.unstake(&addr(ALICE), 42 + LOCK_PERIOD).unwrap();
    assert_eq!(v.stake_of(&addr(ALICE)), None);
    v.stake(&addr(ALICE), 3, 50).unwrap();
    assert_eq!(v.stake_of(&addr(ALICE)), Some(StakeInfo { amount: 3, lock_timestamp: 50 }));
}

#[test]
fn overflowing_stakes_are_rejected_and_late_locks_hold() {
    let mut v = ready_vault();
    v.stake(&addr(ALICE), i128::MAX, 1).unwrap();
    assert_eq!(v.stake(&addr(ALICE), 1, 2), Err(VaultError::ArithmeticOverflow));
    assert_eq!(v.stake_of(&addr(ALICE)).unwrap().amount, i128::MAX);
    v.stake(&addr(BOB), 5, u64::MAX).unwrap();
    assert_eq!(v.unstake(&addr(BOB), u64::MAX), Err(VaultError::LockPeriodActive));
    v.stake(&addr(BOB), 5, u64::MAX - LOCK_PERIOD + 1).unwrap();
    assert_eq!(v.unstake(&addr(BOB), u64::MAX), Err(VaultError::LockPeriodActive));
    assert_eq!(VaultError::ArithmeticOverflow.message(), "attempt to add with overflow");
}

#[test]
fn only_the_admin_may_upgrade() {
    let hash = [7u8; 32];
    let v = StakeVault::new(addr(VAULT));
    assert_eq!(v.upgrade_contract(&addr(ADMIN), hash), Err(VaultError::NotInitialized));
    let v = ready_vault();
    assert_eq!(v.upgrade_contract(&addr(BOB), hash), Err(VaultError::Unauthorized));
    assert_eq!(VaultError::Unauthorized.message(), "Unauthorized");
    let ev = v.upgrade_contract(&addr(ADMIN), hash).unwrap();
    assert_eq!(ev.admin, addr(ADMIN));
    assert_eq!(ev.new_wasm_hash, hash);
}

#[test]
fn plans_on_read_values() {
    let vault = addr(VAULT);
    let token = Some(addr(TOKEN));
    let alice = addr(ALICE);
    assert_eq!(
        plan_initialize(&Some(addr(ADMIN)), &alice, &addr(TOKEN)),
        Err(VaultError::AlreadyInitialized)
    );
    assert!(plan_initialize(&None, &alice, &addr(TOKEN)).is_ok());
    let existing = Some(StakeInfo { amount: 10, lock_timestamp: 3 });
    let p = plan_stake(&vault, &token, &alice, existing, 5, 9).unwrap();
    assert_eq!(p.record, StakeInfo { amount: 15, lock_timestamp: 9 });
    assert_eq!(plan_stake(&vault, &None, &alice, existing, 5, 9), Err(VaultError::NotInitialized));
    assert_eq!(plan_unstake(&vault, &token, &alice, None, 9), Err(VaultError::NoStakeFound));
    assert_eq!(
        plan_unstake(&vault, &None, &alice, existing, 3 + LOCK_PERIOD),
        Err(VaultError::NotInitialized)
    );
    assert_eq!(
        plan_unstake(&vault, &token, &alice, existing, 3 + LOCK_PERIOD).unwrap().transfer.amount,
        10
    );
    assert_eq!(plan_upgrade(&None, &alice, [0u8; 32]), Err(VaultError::NotInitialized));
    assert_eq!(plan_upgrade(&Some(addr(ADMIN)), &alice, [0u8; 32]), Err(VaultError::Unauthorized));
}

#[test]
fn addresses_compare_by_strkey() {
    assert!(addr(ALICE).same_as(&addr(ALICE)));
    assert!(!addr(ALICE).same_as(&addr(BOB)));
    assert_eq!(addr(BOB).clone().strkey(), BOB);
    let key = DataKey::UserStake(addr(ALICE));
    assert_eq!(key, DataKey::UserStake(addr(ALICE)));
    assert_ne!(key, DataKey::Admin);
}

#[test]
fn each_call_names_its_signer() {
    let init = VaultCall::Initialize { admin: addr(ADMIN), token: addr(TOKEN) };
    assert_eq!(init.required_signer().unwrap().strkey(), ADMIN);
    let stake = VaultCall::Stake { user: addr(ALICE), amount: 5, now: 1 };
    assert_eq!(stake.required_signer().unwrap().strkey(), ALICE);
    let unstake = VaultCall::Unstake { user: addr(BOB), now: 1 };
    assert_eq!(unstake.required_signer().unwrap().strkey(), BOB);
    assert!(VaultCall::GetMultiplier { user: addr(ALICE) }.required_signer().is_none());
    let up = VaultCall::UpgradeContract { admin: addr(ADMIN), new_wasm_hash: [0u8; 32] };
    assert_eq!(up.required_signer().unwrap().strkey(), ADMIN);
}

#[test]
fn a_stake_is_paid_out_once() {
    let mut v = ready_vault();
    v.stake(&addr(ALICE), 300, 10).unwrap();
    assert_eq!(v.unstake(&addr(ALICE), 10 + LOCK_PERIOD).unwrap().transfer.amount, 300);
    v.stake(&addr(BOB), 50, 20).unwrap();
    assert_eq!(v.unstake(&addr(ALICE), 10 + 2 * LOCK_PERIOD), Err(VaultError::NoStakeFound));
    assert_eq!(v.get_multiplier(&addr(ALICE)), 100);
    assert_eq!(v.initialize(&addr(BOB), &addr(BOB)), Err(VaultError::AlreadyInitialized));
    assert_eq!(v.admin().as_ref().unwrap().strkey(), ADMIN);
}
