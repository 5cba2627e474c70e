//! The stake vault: learners stake a single token and earn one of three
//! reward multipliers.
//!
//! | Stake amount | Multiplier |
//! |--------------|------------|
//! | `>= 500`     | `200`      |
//! | `>= 100`     | `120`      |
//! | `< 100`      | `100`      |
//!
//! The 7-day lock (604 800 s) restarts on every stake-write; there is no
//! early unlock.

pub mod laws;
pub mod rules;
pub mod table;
pub mod types;

use crate::address::Address;
use self::rules::{
    initialize_error, opt_view, plan_initialize, plan_stake, plan_unstake, plan_upgrade,
    stake_error, staked_amount, staked_record, tier_multiplier, transfer_is, unstake_error,
    upgrade_error, multiplier_for, StakePlan, UnstakePlan, VaultError,
};
use self::table::StakeTable;
use self::types::StakeInfo;
use vstd::prelude::*;

verus! {

/// Emitted once the vault has been given its admin and token.
#[derive(Clone, Debug, PartialEq, Eq)]
pub struct StakeVaultInitialized {
    pub admin: Address,
    pub token: Address,
}

/// Emitted on every accepted stake.
#[derive(Clone, Debug, PartialEq, Eq)]
pub struct Staked {
    pub user: Address,
    pub amount: i128,
    pub total_staked: i128,
    pub lock_timestamp: u64,
}

/// Emitted when a staker withdraws the whole stake.
#[derive(Clone, Debug, PartialEq, Eq)]
pub struct Unstaked {
    pub user: Address,
    pub amount: i128,
}

/// Emitted when the admin replaces the vault's code.
#[derive(Clone, Debug, PartialEq, Eq)]
pub struct ContractUpgraded {
    pub admin: Address,
    pub new_wasm_hash: [u8; 32],
}

/// What a stake vault holds: its own address, the admin and staking token
/// once initialized, and the stake record of each staker.
pub struct VaultState {
    pub contract: Seq<char>,
    pub admin: Option<Seq<char>>,
    pub token: Option<Seq<char>>,
    pub stakes: Map<Seq<char>, StakeInfo>,
}

/// The state after a call with outcome `r` on state `s`: a rejected call
/// leaves the state as it was.
pub open spec fn after(s: VaultState, r: Result<VaultState, VaultError>) -> VaultState {
    match r {
        Ok(t) => t,
        Err(_) => s,
    }
}

impl VaultState {
    /// There are finitely many stake records, and each holds a positive amount.
    pub open spec fn consistent(self) -> bool {
        &&& self.stakes.dom().finite()
        &&& forall|k: Seq<char>| #[trigger] self.stakes.dom().contains(k) ==> self.stakes[k].amount > 0
    }

    /// The stake record of `user`, if any.
    pub open spec fn stake_of(self, user: Seq<char>) -> Option<StakeInfo> {
        self.stakes.get(user)
    }

    /// The multiplier (in percent) of `user`; without a record it is the base one.
    pub open spec fn multiplier(self, user: Seq<char>) -> u32 {
        tier_multiplier(staked_amount(self.stake_of(user)))
    }

    /// The outcome of `initialize(admin, token)`.
    pub open spec fn initialized(self, admin: Seq<char>, token: Seq<char>) -> Result<
        VaultState,
        VaultError,
    > {
        match initialize_error(self.admin) {
            Some(e) => Err(e),
            None => Ok(VaultState { admin: Some(admin), token: Some(token), ..self }),
        }
    }

    /// The outcome of `stake(user, amount)` at ledger time `now`.
    pub open spec fn staked(self, user: Seq<char>, amount: int, now: u64) -> Result<
        VaultState,
        VaultError,
    > {
        match stake_error(self.token is Some, self.stake_of(user), amount) {
            Some(e) => Err(e),
            None => Ok(
                VaultState {
                    stakes: self.stakes.insert(user, staked_record(self.stake_of(user), amount, now)),
                    ..self
                },
            ),
        }
    }

    /// The outcome of `unstake(user)` at ledger time `now`.
    pub open spec fn unstaked(self, user: Seq<char>, now: u64) -> Result<VaultState, VaultError> {
        match unstake_error(self.token is Some, self.stake_of(user), now) {
            Some(e) => Err(e),
            None => Ok(VaultState { stakes: self.stakes.remove(user), ..self }),
        }
    }

    /// Why `upgrade_contract` called by `admin` is rejected, if it is.
    pub open spec fn upgrade_refusal(self, admin: Seq<char>) -> Option<VaultError> {
        upgrade_error(self.admin, admin)
    }
}

/// A call of one of the vault's entry points, with the ledger time at
/// which the time-dependent ones run.
#[derive(Clone, Debug, PartialEq, Eq)]
pub enum VaultCall {
    Initialize { admin: Address, token: Address },
    Stake { user: Address, amount: i128, now: u64 },
    Unstake { user: Address, now: u64 },
    GetMultiplier { user: Address },
    UpgradeContract { admin: Address, new_wasm_hash: [u8; 32] },
}

/// The address whose signature `c` needs: the admin for `initialize` and
/// `upgrade_contract`, the staker for `stake` and `unstake`, none for
/// `get_multiplier`.
pub open spec fn signer(c: VaultCall) -> Option<Seq<char>> {
    match c {
        VaultCall::Initialize { admin, .. } => Some(admin@),
        VaultCall::Stake { user, .. } => Some(user@),
        VaultCall::Unstake { user, .. } => Some(user@),
        VaultCall::GetMultiplier { .. } => None,
        VaultCall::UpgradeContract { admin, .. } => Some(admin@),
    }
}

/// Whether `c` is a stake by `u`.
pub open spec fn stakes_for(c: VaultCall, u: Seq<char>) -> bool {
    c matches VaultCall::Stake { user, .. } && user@ == u
}

impl VaultCall {
    /// The address whose signature this call needs, if any.
    pub fn required_signer(&self) -> (r: Option<&Address>)
        ensures
            match r {
                Some(a) => signer(*self) == Some(a@),
                None => signer(*self) is None,
            },
    {
        match self {
            VaultCall::Initialize { admin, .. } => Some(admin),
            VaultCall::Stake { user, .. } => Some(user),
            VaultCall::Unstake { user, .. } => Some(user),
            VaultCall::GetMultiplier { .. } => None,
            VaultCall::UpgradeContract { admin, .. } => Some(admin),
        }
    }
}

impl VaultState {
    /// The outcome of call `c`; `get_multiplier` and an accepted
    /// `upgrade_contract` leave the stored state as it is.
    pub open spec fn outcome(self, c: VaultCall) -> Result<VaultState, VaultError> {
        match c {
            VaultCall::Initialize { admin, token } => self.initialized(admin@, token@),
            VaultCall::Stake { user, amount, now } => self.staked(user@, amount as int, now),
            VaultCall::Unstake { user, now } => self.unstaked(user@, now),
            VaultCall::GetMultiplier { .. } => Ok(self),
            VaultCall::UpgradeContract { admin, .. } => match self.upgrade_refusal(admin@) {
                Some(e) => Err(e),
                None => Ok(self),
            },
        }
    }

    /// The state after call `c`.
    pub open spec fn step(self, c: VaultCall) -> VaultState {
        after(self, self.outcome(c))
    }

    /// The state after the calls `calls`, in order.
    pub open spec fn run(self, calls: Seq<VaultCall>) -> VaultState
        decreases calls.len(),
    {
        if calls.len() == 0 {
            self
        } else {
            self.run(calls.drop_last()).step(calls.last())
        }
    }

    /// The tokens that call `c` moves from `v` into the vault; a payout to
    /// `v` counts negative.
    pub open spec fn deposit(self, c: VaultCall, v: Seq<char>) -> int {
        match c {
            VaultCall::Stake { user, amount, now } => if user@ == v && self.outcome(c) is Ok {
                amount as int
            } else {
                0
            },
            VaultCall::Unstake { user, now } => if user@ == v && self.outcome(c) is Ok {
                -staked_amount(self.stake_of(v))
            } else {
                0
            },
            _ => 0,
        }
    }

    /// The tokens that the calls `calls`, in order, move from `v` into the vault.
    pub open spec fn deposits(self, calls: Seq<VaultCall>, v: Seq<char>) -> int
        decreases calls.len(),
    {
        if calls.len() == 0 {
            0
        } else {
            self.deposits(calls.drop_last(), v) + self.run(calls.drop_last()).deposit(
                calls.last(),
                v,
            )
        }
    }
}

/// The sum of the amounts that `stakes` records for the stakers in `keys`.
pub open spec fn sum_amounts(stakes: Map<Seq<char>, StakeInfo>, keys: Set<Seq<char>>) -> int
    decreases keys.len(),
    when keys.finite()
{
    if keys.len() == 0 {
        0
    } else {
        let k = keys.choose();
        stakes[k].amount + sum_amounts(stakes, keys.remove(k))
    }
}

impl VaultState {
    /// The total of all recorded stakes.
    pub open spec fn total_staked(self) -> int {
        sum_amounts(self.stakes, self.stakes.dom())
    }

    /// The tokens that call `c` moves into the vault; a payout counts negative.
    pub open spec fn inflow(self, c: VaultCall) -> int {
        match c {
            VaultCall::Stake { user, .. } => self.deposit(c, user@),
            VaultCall::Unstake { user, .. } => self.deposit(c, user@),
            _ => 0,
        }
    }

    /// The tokens that the calls `calls`, in order, move into the vault.
    pub open spec fn inflows(self, calls: Seq<VaultCall>) -> int
        decreases calls.len(),
    {
        if calls.len() == 0 {
            0
        } else {
            self.inflows(calls.drop_last()) + self.run(calls.drop_last()).inflow(calls.last())
        }
    }
}

/// A stake vault: the state of the contract and its entry points. Each
/// entry point takes the decision of `rules` on the record of the calling
/// staker, the same decision that a contract over keyed storage takes.
pub struct StakeVault {
    contract: Address,
    admin: Option<Address>,
    token: Option<Address>,
    stakes: StakeTable,
}

impl View for StakeVault {
    type V = VaultState;

    closed spec fn view(&self) -> VaultState {
        VaultState {
            contract: self.contract@,
            admin: opt_view(self.admin),
            token: opt_view(self.token),
            stakes: self.stakes@,
        }
    }
}

impl StakeVault {
    /// The vault's records are well kept and every stake is positive.
    #[verifier::type_invariant]
    spec fn wf(&self) -> bool {
        &&& self.stakes.wf()
        &&& self@.consistent()
    }

    /// A freshly deployed vault at address `contract`, not yet initialized.
    pub fn new(contract: Address) -> (v: StakeVault)
        ensures
            v@.consistent(),
            v@ == (VaultState {
                contract: contract@,
                admin: None,
                token: None,
                stakes: Map::empty(),
            }),
    {
        StakeVault { contract, admin: None, token: None, stakes: StakeTable::new() }
    }

    /// Registers the admin and the staking token; a vault is initialized once.
    pub fn initialize(&mut self, admin: &Address, token: &Address) -> (r: Result<
        StakeVaultInitialized,
        VaultError,
    >)
        ensures
            final(self)@.consistent(),
            final(self)@ == after(old(self)@, old(self)@.initialized(admin@, token@)),
            match r {
                Ok(ev) => {
                    &&& old(self)@.initialized(admin@, token@) is Ok
                    &&& ev.admin@ == admin@
                    &&& ev.token@ == token@
                },
                Err(e) => old(self)@.initialized(admin@, token@) == Err::<VaultState, _>(e),
            },
    {
        proof {
            use_type_invariant(&*self);
        }
        let r = plan_initialize(&self.admin, admin, token);
        if r.is_ok() {
            self.admin = Some(admin.clone());
            self.token = Some(token.clone());
        }
        r
    }

    /// Pulls `amount` tokens from `user` into the vault at ledger time `now`:
    /// the amounts add up and the user's lock restarts at `now`.
    pub fn stake(&mut self, user: &Address, amount: i128, now: u64) -> (r: Result<
        StakePlan,
        VaultError,
    >)
        ensures
            final(self)@.consistent(),
            final(self)@ == after(old(self)@, old(self)@.staked(user@, amount as int, now)),
            match r {
                Ok(p) => {
                    &&& old(self)@.staked(user@, amount as int, now) is Ok
                    &&& p.record == staked_record(old(self)@.stake_of(user@), amount as int, now)
                    &&& transfer_is(
                        p.transfer,
                        old(self)@.token->0,
                        user@,
                        old(self)@.contract,
                        amount as int,
                    )
                    &&& p.transfer.from@ == user@ && p.transfer.to@ == old(self)@.contract
                    &&& p.transfer.amount == amount
                    &&& final(self)@.stakes.dom().contains(user@)
                    &&& final(self)@.stakes[user@] == p.record
                    &&& p.record.lock_timestamp == now
                    &&& p.event.user@ == user@
                    &&& p.event.amount == amount
                    &&& p.event.total_staked == p.record.amount
                    &&& p.event.lock_timestamp == now
                },
                Err(e) => old(self)@.staked(user@, amount as int, now) == Err::<VaultState, _>(e),
            },
    {
        proof {
            use_type_invariant(&*self);
        }
        let existing = self.stakes.get(user);
        let r = plan_stake(&self.contract, &self.token, user, existing, amount, now);
        match &r {
            Ok(p) => {
                let mut table = StakeTable::new();
                std::mem::swap(&mut table, &mut self.stakes);
                table.set(user, p.record);
                self.stakes = table;
                assert(self@.stakes =~= old(self)@.staked(user@, amount as int, now)->Ok_0.stakes);
            },
            Err(_) => {},
        }
        r
    }

    /// Pays the whole stake of `user` back at ledger time `now`, once the
    /// lock has run out, and removes the record.
    pub fn unstake(&mut self, user: &Address, now: u64) -> (r: Result<UnstakePlan, VaultError>)
        ensures
            final(self)@.consistent(),
            final(self)@ == after(old(self)@, old(self)@.unstaked(user@, now)),
            match r {
                Ok(p) => {
                    &&& old(self)@.unstaked(user@, now) is Ok
                    &&& transfer_is(
                        p.transfer,
                        old(self)@.token->0,
                        old(self)@.contract,
                        user@,
                        staked_amount(old(self)@.stake_of(user@)),
                    )
                    &&& old(self)@.stakes.dom().contains(user@)
                    &&& !final(self)@.stakes.dom().contains(user@)
                    &&& p.transfer.from@ == old(self)@.contract && p.transfer.to@ == user@
                    &&& p.transfer.amount == old(self)@.stakes[user@].amount
                    &&& p.event.user@ == user@
                    &&& p.event.amount == staked_amount(old(self)@.stake_of(user@))
                },
                Err(e) => old(self)@.unstaked(user@, now) == Err::<VaultState, _>(e),
            },
    {
        proof {
            use_type_invariant(&*self);
        }
        let existing = self.stakes.get(user);
        let r = plan_unstake(&self.contract, &self.token, user, existing, now);
        if r.is_ok() {
            let mut table = StakeTable::new();
            std::mem::swap(&mut table, &mut self.stakes);
            table.remove(user);
            self.stakes = table;
        }
        r
    }

    /// The multiplier (in percent) that `user`'s stake earns right now.
    pub fn get_multiplier(&self, user: &Address) -> (m: u32)
        ensures
            m == self@.multiplier(user@),
    {
        proof {
            use_type_invariant(self);
        }
        multiplier_for(self.stakes.get(user))
    }

    /// Checks a request by `admin` to replace the vault's code with the code
    /// of hash `new_wasm_hash`: only the registered admin may do so.
    pub fn upgrade_contract(&self, admin: &Address, new_wasm_hash: [u8; 32]) -> (r: Result<
        ContractUpgraded,
        VaultError,
    >)
        ensures
            match r {
                Ok(ev) => {
                    &&& self@.upgrade_refusal(admin@) is None
                    &&& ev.admin@ == admin@
                    &&& ev.new_wasm_hash == new_wasm_hash
                },
                Err(e) => self@.upgrade_refusal(admin@) == Some(e),
            },
    {
        plan_upgrade(&self.admin, admin, new_wasm_hash)
    }

    /// The stake record of `user`, if any.
    pub fn stake_of(&self, user: &Address) -> (r: Option<StakeInfo>)
        ensures
            r == self@.stake_of(user@),
    {
        proof {
            use_type_invariant(self);
        }
        self.stakes.get(user)
    }

    /// The registered admin, if the vault is initialized.
    pub fn admin(&self) -> (r: &Option<Address>)
        ensures
            opt_view(*r) == self@.admin,
    {
        &self.admin
    }

    /// The staking token, if the vault is initialized.
    pub fn token(&self) -> (r: &Option<Address>)
        ensures
            opt_view(*r) == self@.token,
    {
        &self.token
    }

    /// The vault's own address.
    pub fn contract(&self) -> (r: &Address)
        ensures
            r@ == self@.contract,
    {
        &self.contract
    }
}

} // verus!
