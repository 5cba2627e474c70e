//! The decisions of the stake vault, one per entry point, taken on the
//! values that the entry point reads from storage and the ledger.
//!
//! Each decision either rejects the call with a [`VaultError`] or says what
//! the call writes, which token transfer it makes and which event it emits.

use super::types::StakeInfo;
use super::{ContractUpgraded, StakeVaultInitialized, Staked, Unstaked};
use crate::address::Address;
use vstd::prelude::*;

verus! {

/// Seconds after the last stake-write before a stake can be withdrawn (~7 days).
pub const LOCK_PERIOD: u64 = 604800;

/// Smallest stake that earns the top multiplier.
pub const TOP_TIER_STAKE: i128 = 500;

/// Smallest stake that earns the middle multiplier.
pub const MID_TIER_STAKE: i128 = 100;

/// Multiplier (in percent) of the top tier: a 2.0x boost.
pub const TOP_MULTIPLIER: u32 = 200;

/// Multiplier (in percent) of the middle tier: a 1.2x boost.
pub const MID_MULTIPLIER: u32 = 120;

/// Multiplier (in percent) without a boost.
pub const BASE_MULTIPLIER: u32 = 100;

/// Why a call to the vault is rejected.
#[derive(Clone, Copy, Debug, PartialEq, Eq, Structural)]
pub enum VaultError {
    /// `initialize` was called on a vault that already has an admin.
    AlreadyInitialized,
    /// The vault has no admin or no token yet.
    NotInitialized,
    /// A stake of zero or less was offered.
    AmountNotPositive,
    /// The user has no stake to withdraw.
    NoStakeFound,
    /// The lock of the stake has not yet run out.
    LockPeriodActive,
    /// The caller is not the registered admin.
    Unauthorized,
    /// A stake would push the staker's total past the largest amount.
    ArithmeticOverflow,
}

/// The text with which a rejected call aborts.
pub open spec fn error_text(e: VaultError) -> Seq<char> {
    match e {
        VaultError::AlreadyInitialized => "Already initialized"@,
        VaultError::NotInitialized => "Not initialized"@,
        VaultError::AmountNotPositive => "Amount must be positive"@,
        VaultError::NoStakeFound => "No stake found"@,
        VaultError::LockPeriodActive => "Lock period active"@,
        VaultError::Unauthorized => "Unauthorized"@,
        VaultError::ArithmeticOverflow => "attempt to add with overflow"@,
    }
}

impl VaultError {
    /// The text with which a call rejected for this reason aborts.
    pub fn message(&self) -> (m: &'static str)
        ensures
            m@ == error_text(*self),
    {
        match self {
            VaultError::AlreadyInitialized => "Already initialized",
            VaultError::NotInitialized => "Not initialized",
            VaultError::AmountNotPositive => "Amount must be positive",
            VaultError::NoStakeFound => "No stake found",
            VaultError::LockPeriodActive => "Lock period active",
            VaultError::Unauthorized => "Unauthorized",
            VaultError::ArithmeticOverflow => "attempt to add with overflow",
        }
    }
}

/// A movement of `amount` units of the token at `token` from `from` to `to`.
#[derive(Clone, Debug, PartialEq, Eq)]
pub struct TokenTransfer {
    pub token: Address,
    pub from: Address,
    pub to: Address,
    pub amount: i128,
}

/// Whether `t` moves `amount` units of `token` from `from` to `to`.
pub open spec fn transfer_is(
    t: TokenTransfer,
    token: Seq<char>,
    from: Seq<char>,
    to: Seq<char>,
    amount: int,
) -> bool {
    &&& t.token@ == token
    &&& t.from@ == from
    &&& t.to@ == to
    &&& t.amount == amount
}

/// The address views of an optional address.
pub open spec fn opt_view(a: Option<Address>) -> Option<Seq<char>> {
    match a {
        Some(x) => Some(x@),
        None => None,
    }
}

/// The multiplier (in percent) that a stake of `amount` earns.
pub open spec fn tier_multiplier(amount: int) -> u32 {
    if amount >= TOP_TIER_STAKE {
        TOP_MULTIPLIER
    } else if amount >= MID_TIER_STAKE {
        MID_MULTIPLIER
    } else {
        BASE_MULTIPLIER
    }
}

/// The amount of an optional stake record; no record counts as nothing staked.
pub open spec fn staked_amount(stake: Option<StakeInfo>) -> int {
    match stake {
        Some(s) => s.amount as int,
        None => 0,
    }
}

/// The multiplier (in percent) that a stake of `amount` earns.
pub fn multiplier_for_amount(amount: i128) -> (m: u32)
    ensures
        m == tier_multiplier(amount as int),
{
    if amount >= TOP_TIER_STAKE {
        TOP_MULTIPLIER
    } else if amount >= MID_TIER_STAKE {
        MID_MULTIPLIER
    } else {
        BASE_MULTIPLIER
    }
}

/// The multiplier (in percent) of a staker whose record is `stake`.
pub fn multiplier_for(stake: Option<StakeInfo>) -> (m: u32)
    ensures
        m == tier_multiplier(staked_amount(stake)),
{
    match stake {
        Some(s) => multiplier_for_amount(s.amount),
        None => multiplier_for_amount(0),
    }
}

/// Why `initialize` is rejected when the stored admin is `stored_admin`.
pub open spec fn initialize_error(stored_admin: Option<Seq<char>>) -> Option<VaultError> {
    if stored_admin is Some {
        Some(VaultError::AlreadyInitialized)
    } else {
        None
    }
}

/// Decides `initialize(admin, token)` on a vault whose stored admin is
/// `stored_admin`: a vault is initialized once.
pub fn plan_initialize(stored_admin: &Option<Address>, admin: &Address, token: &Address) -> (r:
    Result<StakeVaultInitialized, VaultError>)
    ensures
        match r {
            Ok(ev) => {
                &&& initialize_error(opt_view(*stored_admin)) is None
                &&& ev.admin@ == admin@
                &&& ev.token@ == token@
            },
            Err(e) => initialize_error(opt_view(*stored_admin)) == Some(e),
        },
{
    match stored_admin {
        Some(_) => Err(VaultError::AlreadyInitialized),
        None => Ok(StakeVaultInitialized { admin: admin.clone(), token: token.clone() }),
    }
}

/// Why `stake(user, amount)` is rejected, given whether a token is
/// configured and the user's current record.
pub open spec fn stake_error(token_set: bool, existing: Option<StakeInfo>, amount: int) -> Option<
    VaultError,
> {
    if amount <= 0 {
        Some(VaultError::AmountNotPositive)
    } else if !token_set {
        Some(VaultError::NotInitialized)
    } else if staked_amount(existing) + amount > i128::MAX {
        Some(VaultError::ArithmeticOverflow)
    } else {
        None
    }
}

/// The record that `stake(user, amount)` at time `now` writes: the amounts
/// add up and the lock restarts at `now`.
pub open spec fn staked_record(existing: Option<StakeInfo>, amount: int, now: u64) -> StakeInfo {
    StakeInfo { amount: (staked_amount(existing) + amount) as i128, lock_timestamp: now }
}

/// What an accepted `stake` call does.
#[derive(Clone, Debug, PartialEq, Eq)]
pub struct StakePlan {
    /// The stake record written for the staker.
    pub record: StakeInfo,
    /// The tokens pulled from the staker into the vault.
    pub transfer: TokenTransfer,
    /// The event emitted.
    pub event: Staked,
}

/// Decides `stake(user, amount)` at ledger time `now`, where `contract` is
/// the vault's own address, `token` the configured staking token and
/// `existing` the user's current record.
pub fn plan_stake(
    contract: &Address,
    token: &Option<Address>,
    user: &Address,
    existing: Option<StakeInfo>,
    amount: i128,
    now: u64,
) -> (r: Result<StakePlan, VaultError>)
    ensures
        match r {
            Ok(p) => {
                &&& stake_error(token is Some, existing, amount as int) is None
                &&& p.record == staked_record(existing, amount as int, now)
                &&& transfer_is(p.transfer, token->0@, user@, contract@, amount as int)
                &&& token is Some && p.transfer.token@ == token->0@
                &&& p.transfer.from@ == user@ && p.transfer.to@ == contract@
                &&& p.transfer.amount == amount && amount > 0
                &&& existing is None ==> p.record.amount == amount
                &&& existing is Some ==> p.record.amount == existing->0.amount + amount
                &&& p.record.lock_timestamp == now
                &&& p.event.user@ == user@
                &&& p.event.amount == amount
                &&& p.event.total_staked == p.record.amount
                &&& p.event.lock_timestamp == now
            },
            Err(e) => stake_error(token is Some, existing, amount as int) == Some(e),
        },
{
    if amount <= 0 {
        return Err(VaultError::AmountNotPositive);
    }
    let token_id = match token {
        Some(t) => t.clone(),
        None => {
            return Err(VaultError::NotInitialized);
        },
    };
    let current: i128 = match existing {
        Some(s) => s.amount,
        None => 0,
    };
    let total = match current.checked_add(amount) {
        Some(t) => t,
        None => {
            return Err(VaultError::ArithmeticOverflow);
        },
    };
    let record = StakeInfo { amount: total, lock_timestamp: now };
    Ok(StakePlan {
        record,
        transfer: TokenTransfer {
            token: token_id,
            from: user.clone(),
            to: contract.clone(),
            amount,
        },
        event: Staked { user: user.clone(), amount, total_staked: total, lock_timestamp: now },
    })
}

/// Why `unstake(user)` at time `now` is rejected, given whether a token is
/// configured and the user's current record.
pub open spec fn unstake_error(token_set: bool, existing: Option<StakeInfo>, now: u64) -> Option<
    VaultError,
> {
    match existing {
        None => Some(VaultError::NoStakeFound),
        Some(s) => if now < s.lock_timestamp + LOCK_PERIOD {
            Some(VaultError::LockPeriodActive)
        } else if !token_set {
            Some(VaultError::NotInitialized)
        } else {
            None
        },
    }
}

/// What an accepted `unstake` call does; the staker's record is removed.
#[derive(Clone, Debug, PartialEq, Eq)]
pub struct UnstakePlan {
    /// The whole stake, paid back from the vault to the staker.
    pub transfer: TokenTransfer,
    /// The event emitted.
    pub event: Unstaked,
}

/// Decides `unstake(user)` at ledger time `now`, where `contract` is the
/// vault's own address, `token` the configured staking token and `existing`
/// the user's current record.
pub fn plan_unstake(
    contract: &Address,
    token: &Option<Address>,
    user: &Address,
    existing: Option<StakeInfo>,
    now: u64,
) -> (r: Result<UnstakePlan, VaultError>)
    ensures
        match r {
            Ok(p) => {
                &&& unstake_error(token is Some, existing, now) is None
                &&& transfer_is(
                    p.transfer,
                    token->0@,
                    contract@,
                    user@,
                    staked_amount(existing),
                )
                &&& existing is Some && token is Some
                &&& now >= existing->0.lock_timestamp + LOCK_PERIOD
                &&& p.transfer.token@ == token->0@
                &&& p.transfer.from@ == contract@ && p.transfer.to@ == user@
                &&& p.transfer.amount == existing->0.amount
                &&& p.event.amount == existing->0.amount
                &&& p.event.user@ == user@
                &&& p.event.amount == staked_amount(existing)
            },
            Err(e) => unstake_error(token is Some, existing, now) == Some(e),
        },
{
    let info = match existing {
        Some(s) => s,
        None => {
            return Err(VaultError::NoStakeFound);
        },
    };
    // A lock that would run out past the largest timestamp has not run out.
    let unlocked = match info.lock_timestamp.checked_add(LOCK_PERIOD) {
        Some(unlock_at) => now >= unlock_at,
        None => false,
    };
    if !unlocked {
        return Err(VaultError::LockPeriodActive);
    }
    let token_id = match token {
        Some(t) => t.clone(),
        None => {
            return Err(VaultError::NotInitialized);
        },
    };
    Ok(UnstakePlan {
        transfer: TokenTransfer {
            token: token_id,
            from: contract.clone(),
            to: user.clone(),
            amount: info.amount,
        },
        event: Unstaked { user: user.clone(), amount: info.amount },
    })
}

/// Why `upgrade_contract` called by `admin` is rejected when the stored
/// admin is `stored_admin`.
pub open spec fn upgrade_error(stored_admin: Option<Seq<char>>, admin: Seq<char>) -> Option<
    VaultError,
> {
    match stored_admin {
        None => Some(VaultError::NotInitialized),
        Some(a) => if a != admin {
            Some(VaultError::Unauthorized)
        } else {
            None
        },
    }
}

/// Decides `upgrade_contract(admin, new_wasm_hash)`: only the stored admin
/// may replace the vault's code.
pub fn plan_upgrade(stored_admin: &Option<Address>, admin: &Address, new_wasm_hash: [u8; 32]) -> (r:
    Result<ContractUpgraded, VaultError>)
    ensures
        match r {
            Ok(ev) => {
                &&& upgrade_error(opt_view(*stored_admin), admin@) is None
                &&& ev.admin@ == admin@
                &&& ev.new_wasm_hash == new_wasm_hash
            },
            Err(e) => upgrade_error(opt_view(*stored_admin), admin@) == Some(e),
        },
{
    match stored_admin {
        None => Err(VaultError::NotInitialized),
        Some(a) => if !admin.same_as(a) {
            Err(VaultError::Unauthorized)
        } else {
            Ok(ContractUpgraded { admin: admin.clone(), new_wasm_hash })
        },
    }
}

} // verus!
