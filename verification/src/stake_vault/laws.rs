//! What holds of the stake vault across calls.

use super::rules::{
    staked_amount, tier_multiplier, VaultError, BASE_MULTIPLIER, LOCK_PERIOD, MID_MULTIPLIER,
    TOP_MULTIPLIER,
};
use super::types::StakeInfo;
use super::{after, stakes_for, sum_amounts, VaultCall, VaultState};
use vstd::prelude::*;

verus! {

/// A vault is initialized once: after a successful `initialize`, every
/// further `initialize` is rejected with `AlreadyInitialized`.
pub proof fn lemma_initialize_once(
    s: VaultState,
    admin: Seq<char>,
    token: Seq<char>,
    admin2: Seq<char>,
    token2: Seq<char>,
)
    requires
        s.initialized(admin, token) is Ok,
    ensures
        s.initialized(admin, token)->Ok_0.admin == Some(admin),
        s.initialized(admin, token)->Ok_0.token == Some(token),
        s.initialized(admin, token)->Ok_0.initialized(admin2, token2) == Err::<VaultState, _>(
            VaultError::AlreadyInitialized,
        ),
{
}

/// Stakes add up and each stake restarts the lock: after two accepted
/// stakes of one user, the record holds the earlier amount plus both stakes,
/// locked from the time of the second.
pub proof fn lemma_stakes_accumulate(
    s: VaultState,
    user: Seq<char>,
    amount1: int,
    now1: u64,
    amount2: int,
    now2: u64,
)
    requires
        s.staked(user, amount1, now1) is Ok,
        s.staked(user, amount1, now1)->Ok_0.staked(user, amount2, now2) is Ok,
    ensures
        s.staked(user, amount1, now1)->Ok_0.staked(user, amount2, now2)->Ok_0.stake_of(user)
            == Some(
            StakeInfo {
                amount: (staked_amount(s.stake_of(user)) + amount1 + amount2) as i128,
                lock_timestamp: now2,
            },
        ),
{
}

/// The lock is enforced: after a stake at time `t`, withdrawing before
/// `t + LOCK_PERIOD` is rejected with `LockPeriodActive`, and from then on
/// it is accepted and removes the user's record.
pub proof fn lemma_lock_enforced(s: VaultState, user: Seq<char>, amount: int, t: u64, now: u64)
    requires
        s.staked(user, amount, t) is Ok,
    ensures
        now < t + LOCK_PERIOD ==> s.staked(user, amount, t)->Ok_0.unstaked(user, now) == Err::<
            VaultState,
            _,
        >(VaultError::LockPeriodActive),
        now >= t + LOCK_PERIOD ==> s.staked(user, amount, t)->Ok_0.unstaked(user, now) == Ok::<
            _,
            VaultError,
        >(VaultState { stakes: s.stakes.remove(user), ..s }),
{
    let s1 = s.staked(user, amount, t)->Ok_0;
    assert(s1.stakes.insert(user, s1.stakes[user]) =~= s1.stakes);
    assert(s1.stakes.remove(user) =~= s.stakes.remove(user));
}

/// Withdrawing undoes staking: a user without a stake who stakes and, once
/// the lock has run out, withdraws, leaves the vault as it was.
pub proof fn lemma_unstake_undoes_stake(
    s: VaultState,
    user: Seq<char>,
    amount: int,
    t: u64,
    now: u64,
)
    requires
        s.stake_of(user) is None,
        s.staked(user, amount, t) is Ok,
        t + LOCK_PERIOD <= now,
    ensures
        s.staked(user, amount, t)->Ok_0.unstaked(user, now) == Ok::<_, VaultError>(s),
{
    lemma_lock_enforced(s, user, amount, t, now);
    assert(s.stakes.remove(user) =~= s.stakes);
}

/// Withdrawing drops the user back to the base multiplier at once.
pub proof fn lemma_unstake_resets_multiplier(s: VaultState, user: Seq<char>, now: u64)
    requires
        s.unstaked(user, now) is Ok,
    ensures
        s.unstaked(user, now)->Ok_0.multiplier(user) == BASE_MULTIPLIER,
{
}

/// A call on behalf of one staker leaves every other staker's record as it was.
pub proof fn lemma_other_stakers_untouched(
    s: VaultState,
    user: Seq<char>,
    other: Seq<char>,
    amount: int,
    now: u64,
)
    requires
        user != other,
    ensures
        after(s, s.staked(user, amount, now)).stake_of(other) == s.stake_of(other),
        after(s, s.unstaked(user, now)).stake_of(other) == s.stake_of(other),
{
}

/// Only the registered admin may upgrade the vault.
pub proof fn lemma_upgrade_only_by_admin(s: VaultState, admin: Seq<char>)
    ensures
        s.upgrade_refusal(admin) is None <==> s.admin == Some(admin),
{
}

/// Every call keeps every stake record positive.
pub proof fn lemma_calls_keep_stakes_positive(
    s: VaultState,
    user: Seq<char>,
    amount: int,
    now: u64,
    admin: Seq<char>,
    token: Seq<char>,
)
    requires
        s.consistent(),
    ensures
        after(s, s.initialized(admin, token)).consistent(),
        after(s, s.staked(user, amount, now)).consistent(),
        after(s, s.unstaked(user, now)).consistent(),
{
}

/// The multiplier is one of the three tiers and never falls as the stake grows.
pub proof fn lemma_multiplier_monotone(a: int, b: int)
    requires
        a <= b,
    ensures
        tier_multiplier(a) <= tier_multiplier(b),
        tier_multiplier(a) == BASE_MULTIPLIER || tier_multiplier(a) == MID_MULTIPLIER
            || tier_multiplier(a) == TOP_MULTIPLIER,
{
}

/// An accepted stake never lowers the staker's multiplier.
pub proof fn lemma_stake_never_lowers_multiplier(
    s: VaultState,
    user: Seq<char>,
    amount: int,
    now: u64,
)
    requires
        s.staked(user, amount, now) is Ok,
    ensures
        s.staked(user, amount, now)->Ok_0.multiplier(user) >= s.multiplier(user),
{
    lemma_multiplier_monotone(
        staked_amount(s.stake_of(user)),
        staked_amount(s.stake_of(user)) + amount,
    );
}

/// Whether `c` is an `unstake` by `u` at a ledger time from which the lock
/// of record `r` has run out.
pub open spec fn unstake_after_lock(c: VaultCall, u: Seq<char>, r: StakeInfo) -> bool {
    match c {
        VaultCall::Unstake { user, now } => user@ == u && now >= r.lock_timestamp + LOCK_PERIOD,
        _ => false,
    }
}

/// What one call does to the record of staker `v`: only a stake or an
/// unstake by `v` touches it, and the record changes by exactly the tokens
/// that the call moves from `v` into the vault.
pub proof fn lemma_step_record(s: VaultState, c: VaultCall, v: Seq<char>)
    ensures
        staked_amount(s.step(c).stake_of(v)) == staked_amount(s.stake_of(v)) + s.deposit(c, v),
        !stakes_for(c, v) ==> s.step(c).stake_of(v) == s.stake_of(v) || s.step(c).stake_of(v) is None,
        !stakes_for(c, v) && s.step(c).stake_of(v) != s.stake_of(v) ==> {
            &&& s.stake_of(v) is Some
            &&& unstake_after_lock(c, v, s.stake_of(v)->0)
            &&& s.deposit(c, v) == -staked_amount(s.stake_of(v))
        },
        stakes_for(c, v) && s.outcome(c) is Err ==> s.step(c) == s,
{
}

/// Over any calls, each staker's record holds exactly the tokens that the
/// staker has moved into the vault and not been paid back: the stake is
/// escrowed, and no call pays out more than was staked.
pub proof fn lemma_escrow(s: VaultState, calls: Seq<VaultCall>, v: Seq<char>)
    ensures
        staked_amount(s.run(calls).stake_of(v)) == staked_amount(s.stake_of(v)) + s.deposits(
            calls,
            v,
        ),
    decreases calls.len(),
{
    if calls.len() > 0 {
        lemma_escrow(s, calls.drop_last(), v);
        lemma_step_record(s.run(calls.drop_last()), calls.last(), v);
    }
}

/// Admin and token are written once: once a vault is initialized, any
/// calls keep its admin and token, and a further `initialize` is rejected
/// with `AlreadyInitialized`.
pub proof fn lemma_initialized_for_good(
    s: VaultState,
    calls: Seq<VaultCall>,
    admin: Seq<char>,
    token: Seq<char>,
)
    requires
        s.admin is Some,
    ensures
        s.run(calls).admin == s.admin,
        s.run(calls).token == s.token,
        s.run(calls).initialized(admin, token) == Err::<VaultState, _>(
            VaultError::AlreadyInitialized,
        ),
    decreases calls.len(),
{
    if calls.len() > 0 {
        lemma_initialized_for_good(s, calls.drop_last(), admin, token);
    }
}

/// No stake of `u` was accepted among the calls `calls` run from `s`.
pub open spec fn no_accepted_stake(s: VaultState, calls: Seq<VaultCall>, u: Seq<char>) -> bool {
    forall|i: int|
        0 <= i < calls.len() && stakes_for(#[trigger] calls[i], u) ==> s.run(
            calls.take(i),
        ).outcome(calls[i]) is Err
}

/// A shorter run of calls without an accepted stake of `u` has none either.
proof fn lemma_no_accepted_stake_prefix(s: VaultState, calls: Seq<VaultCall>, u: Seq<char>)
    requires
        calls.len() > 0,
        no_accepted_stake(s, calls, u),
    ensures
        no_accepted_stake(s, calls.drop_last(), u),
        stakes_for(calls.last(), u) ==> s.run(calls.drop_last()).outcome(calls.last()) is Err,
{
    let d = calls.drop_last();
    assert forall|i: int| 0 <= i < d.len() && stakes_for(#[trigger] d[i], u) implies s.run(
        d.take(i),
    ).outcome(d[i]) is Err by {
        assert(d.take(i) =~= calls.take(i));
        assert(d[i] == calls[i]);
    }
    let n = calls.len() - 1;
    assert(calls.take(n) =~= d);
    if stakes_for(calls.last(), u) {
        assert(stakes_for(calls[n], u));
    }
}

/// Without an accepted stake of `u`, the record of `u` can only stay as it
/// was or be paid out and removed; it is paid out only by an `unstake` of
/// `u` once its lock has run out, and then in full.
pub proof fn lemma_record_only_released_after_lock(
    s: VaultState,
    calls: Seq<VaultCall>,
    u: Seq<char>,
)
    requires
        no_accepted_stake(s, calls, u),
    ensures
        s.run(calls).stake_of(u) == s.stake_of(u) || s.run(calls).stake_of(u) is None,
        forall|i: int|
            0 <= i < calls.len() && #[trigger] s.run(calls.take(i)).deposit(calls[i], u) < 0
                ==> {
                &&& s.stake_of(u) is Some
                &&& unstake_after_lock(calls[i], u, s.stake_of(u)->0)
                &&& s.run(calls.take(i)).deposit(calls[i], u) == -s.stake_of(u)->0.amount
            },
    decreases calls.len(),
{
    if calls.len() > 0 {
        let d = calls.drop_last();
        let n = calls.len() - 1;
        lemma_no_accepted_stake_prefix(s, calls, u);
        lemma_record_only_released_after_lock(s, d, u);
        lemma_step_record(s.run(d), calls.last(), u);
        assert(calls.take(n) =~= d);
        assert forall|i: int|
            0 <= i < calls.len() && #[trigger] s.run(calls.take(i)).deposit(calls[i], u) < 0
                implies {
            &&& s.stake_of(u) is Some
            &&& unstake_after_lock(calls[i], u, s.stake_of(u)->0)
            &&& s.run(calls.take(i)).deposit(calls[i], u) == -s.stake_of(u)->0.amount
        } by {
            if i < n {
                assert(d.take(i) =~= calls.take(i));
                assert(d[i] == calls[i]);
                assert(s.run(d.take(i)).deposit(d[i], u) < 0);
            } else {
                assert(calls[i] == calls.last());
                if stakes_for(calls.last(), u) {
                    assert(s.run(d).outcome(calls.last()) is Err);
                }
            }
        }
    }
}

/// A stake is paid out once: after an accepted `unstake` of `u`, and until
/// a stake of `u` is accepted again, every `unstake` of `u` is rejected
/// with `NoStakeFound`, nothing more is paid to `u`, and `u` earns the
/// base multiplier.
pub proof fn lemma_paid_out_once(
    s: VaultState,
    u: Seq<char>,
    now: u64,
    calls: Seq<VaultCall>,
    later: u64,
)
    requires
        s.unstaked(u, now) is Ok,
        no_accepted_stake(s.unstaked(u, now)->Ok_0, calls, u),
    ensures
        s.unstaked(u, now)->Ok_0.run(calls).stake_of(u) is None,
        s.unstaked(u, now)->Ok_0.run(calls).unstaked(u, later) == Err::<VaultState, _>(
            VaultError::NoStakeFound,
        ),
        s.unstaked(u, now)->Ok_0.run(calls).multiplier(u) == BASE_MULTIPLIER,
        s.unstaked(u, now)->Ok_0.deposits(calls, u) == 0,
{
    let s1 = s.unstaked(u, now)->Ok_0;
    lemma_record_only_released_after_lock(s1, calls, u);
    lemma_escrow(s1, calls, u);
}

/// A staker without a record keeps the base multiplier until one of their
/// stakes is accepted, and every `unstake` of theirs is rejected with
/// `NoStakeFound` meanwhile.
pub proof fn lemma_base_until_staked(s: VaultState, u: Seq<char>, calls: Seq<VaultCall>, later: u64)
    requires
        s.stake_of(u) is None,
        no_accepted_stake(s, calls, u),
    ensures
        s.run(calls).stake_of(u) is None,
        s.run(calls).multiplier(u) == BASE_MULTIPLIER,
        s.run(calls).unstaked(u, later) == Err::<VaultState, _>(VaultError::NoStakeFound),
{
    lemma_record_only_released_after_lock(s, calls, u);
}

/// The sum over a finite set of stakers splits off any one of them.
proof fn lemma_sum_split(m: Map<Seq<char>, StakeInfo>, keys: Set<Seq<char>>, k: Seq<char>)
    requires
        keys.finite(),
        keys.contains(k),
    ensures
        sum_amounts(m, keys) == m[k].amount + sum_amounts(m, keys.remove(k)),
    decreases keys.len(),
{
    let c = keys.choose();
    if c != k {
        lemma_sum_split(m, keys.remove(c), k);
        lemma_sum_split(m, keys.remove(k), c);
        assert(keys.remove(c).remove(k) =~= keys.remove(k).remove(c));
    }
}

/// The sum over a set of stakers depends only on their amounts.
proof fn lemma_sum_agree(
    m1: Map<Seq<char>, StakeInfo>,
    m2: Map<Seq<char>, StakeInfo>,
    keys: Set<Seq<char>>,
)
    requires
        keys.finite(),
        forall|k: Seq<char>| #[trigger] keys.contains(k) ==> m1[k].amount == m2[k].amount,
    ensures
        sum_amounts(m1, keys) == sum_amounts(m2, keys),
    decreases keys.len(),
{
    if keys.len() > 0 {
        let c = keys.choose();
        lemma_sum_agree(m1, m2, keys.remove(c));
    }
}

/// One call changes the total of all stakes by exactly the tokens it moves
/// into the vault.
pub proof fn lemma_step_total(s: VaultState, c: VaultCall)
    requires
        s.consistent(),
    ensures
        s.step(c).consistent(),
        s.step(c).total_staked() == s.total_staked() + s.inflow(c),
{
    let m = s.stakes;
    let t = s.step(c);
    match c {
        VaultCall::Stake { user, amount, now } => {
            lemma_calls_keep_stakes_positive(s, user@, amount as int, now, user@, user@);
            if s.outcome(c) is Ok {
                let u = user@;
                let m2 = t.stakes;
                assert(m2 == m.insert(u, m2[u]));
                if m.dom().contains(u) {
                    assert(m2.dom() =~= m.dom());
                    lemma_sum_split(m2, m2.dom(), u);
                    lemma_sum_split(m, m.dom(), u);
                    lemma_sum_agree(m2, m, m.dom().remove(u));
                } else {
                    assert(m2.dom() =~= m.dom().insert(u));
                    lemma_sum_split(m2, m2.dom(), u);
                    assert(m2.dom().remove(u) =~= m.dom());
                    lemma_sum_agree(m2, m, m.dom());
                }
            }
        },
        VaultCall::Unstake { user, now } => {
            lemma_calls_keep_stakes_positive(s, user@, 0, now, user@, user@);
            if s.outcome(c) is Ok {
                let u = user@;
                let m2 = t.stakes;
                assert(m2 == m.remove(u));
                assert(m2.dom() =~= m.dom().remove(u));
                lemma_sum_split(m, m.dom(), u);
                lemma_sum_agree(m2, m, m2.dom());
            }
        },
        VaultCall::Initialize { admin, token } => {
            lemma_calls_keep_stakes_positive(s, admin@, 0, 0, admin@, token@);
        },
        _ => {},
    }
}

/// The escrow covers every stake: over any calls, the total of all stakes
/// changes by exactly the tokens the calls move into the vault, so a vault
/// whose token balance covered the total before, and which gains or loses
/// tokens only by these moves (or gains more from outside), covers it after.
pub proof fn lemma_total_escrow(s: VaultState, calls: Seq<VaultCall>)
    requires
        s.consistent(),
    ensures
        s.run(calls).consistent(),
        s.run(calls).total_staked() == s.total_staked() + s.inflows(calls),
        forall|balance: int|
            balance >= s.total_staked() ==> #[trigger] (balance + s.inflows(calls))
                >= s.run(calls).total_staked(),
    decreases calls.len(),
{
    if calls.len() > 0 {
        lemma_total_escrow(s, calls.drop_last());
        lemma_step_total(s.run(calls.drop_last()), calls.last());
    }
}

/// The tier table: a stake of 500 or more earns 200, one of 100 to 499
/// earns 120, anything less earns 100.
pub proof fn lemma_tier_table(amount: int)
    ensures
        amount >= 500 ==> tier_multiplier(amount) == 200,
        100 <= amount < 500 ==> tier_multiplier(amount) == 120,
        amount < 100 ==> tier_multiplier(amount) == 100,
{
}

/// A staker's multiplier follows the tier table on the amount recorded for
/// them, and is 100 without a record.
pub proof fn lemma_multiplier_table(s: VaultState, u: Seq<char>)
    ensures
        !s.stakes.dom().contains(u) ==> s.multiplier(u) == 100,
        s.stakes.dom().contains(u) && s.stakes[u].amount >= 500 ==> s.multiplier(u) == 200,
        s.stakes.dom().contains(u) && 100 <= s.stakes[u].amount < 500 ==> s.multiplier(u) == 120,
        s.stakes.dom().contains(u) && s.stakes[u].amount < 100 ==> s.multiplier(u) == 100,
{
}

/// When a stake is accepted and what it does: a positive amount on a vault
/// with a token is accepted whenever the new total fits in an `i128`,
/// whatever the staker already holds, and the record becomes the old amount
/// (none counts as 0) plus the stake, locked from `now`.
pub proof fn lemma_stake_outcome(s: VaultState, u: Seq<char>, amount: int, now: u64)
    ensures
        amount <= 0 ==> s.staked(u, amount, now) == Err::<VaultState, _>(
            VaultError::AmountNotPositive,
        ),
        amount > 0 && s.token is None ==> s.staked(u, amount, now) == Err::<VaultState, _>(
            VaultError::NotInitialized,
        ),
        amount > 0 && s.token is Some && !s.stakes.dom().contains(u) && amount <= i128::MAX
            ==> s.staked(u, amount, now) == Ok::<_, VaultError>(
            VaultState {
                stakes: s.stakes.insert(u, StakeInfo { amount: amount as i128, lock_timestamp: now }),
                ..s
            },
        ),
        amount > 0 && s.token is Some && s.stakes.dom().contains(u) && s.stakes[u].amount + amount
            <= i128::MAX ==> s.staked(u, amount, now) == Ok::<_, VaultError>(
            VaultState {
                stakes: s.stakes.insert(
                    u,
                    StakeInfo {
                        amount: (s.stakes[u].amount + amount) as i128,
                        lock_timestamp: now,
                    },
                ),
                ..s
            },
        ),
        amount > 0 && s.token is Some && s.stakes.dom().contains(u) && s.stakes[u].amount + amount
            > i128::MAX ==> s.staked(u, amount, now) == Err::<VaultState, _>(
            VaultError::ArithmeticOverflow,
        ),
        amount > i128::MAX && s.token is Some && !s.stakes.dom().contains(u) ==> s.staked(u, amount, now) == Err::<VaultState, _>(
            VaultError::ArithmeticOverflow,
        ),
{
}

/// When a withdrawal is accepted and what it does: with no record it is
/// refused with `NoStakeFound`; before the record's lock time plus
/// 604 800 s with `LockPeriodActive`; from then on, on a vault with a
/// token, it is accepted and removes exactly that record.
pub proof fn lemma_unstake_outcome(s: VaultState, u: Seq<char>, now: u64)
    ensures
        !s.stakes.dom().contains(u) ==> s.unstaked(u, now) == Err::<VaultState, _>(
            VaultError::NoStakeFound,
        ),
        s.stakes.dom().contains(u) && now < s.stakes[u].lock_timestamp + 604800 ==> s.unstaked(
            u,
            now,
        ) == Err::<VaultState, _>(VaultError::LockPeriodActive),
        s.stakes.dom().contains(u) && now >= s.stakes[u].lock_timestamp + 604800 && s.token is None
            ==> s.unstaked(u, now) == Err::<VaultState, _>(VaultError::NotInitialized),
        s.stakes.dom().contains(u) && now >= s.stakes[u].lock_timestamp + 604800 && s.token is Some
            ==> s.unstaked(u, now) == Ok::<_, VaultError>(
            VaultState { stakes: s.stakes.remove(u), ..s },
        ),
{
}

/// When `initialize` is accepted and what it does: on a vault without an
/// admin it is accepted for every admin and token and stores exactly them;
/// on a vault with an admin it is refused with `AlreadyInitialized`.
pub proof fn lemma_initialize_outcome(s: VaultState, admin: Seq<char>, token: Seq<char>)
    ensures
        s.admin is None ==> s.initialized(admin, token) == Ok::<_, VaultError>(
            VaultState { admin: Some(admin), token: Some(token), ..s },
        ),
        s.admin is Some ==> s.initialized(admin, token) == Err::<VaultState, _>(
            VaultError::AlreadyInitialized,
        ),
{
}

/// When an upgrade is accepted: refused with `NotInitialized` before
/// initialization, with `Unauthorized` for anyone but the stored admin,
/// and accepted for the stored admin.
pub proof fn lemma_upgrade_outcome(s: VaultState, admin: Seq<char>)
    ensures
        s.admin is None ==> s.upgrade_refusal(admin) == Some(VaultError::NotInitialized),
        s.admin is Some && s.admin->0 != admin ==> s.upgrade_refusal(admin) == Some(
            VaultError::Unauthorized,
        ),
        s.admin == Some(admin) ==> s.upgrade_refusal(admin) is None,
{
}

} // verus!
