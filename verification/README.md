# kaystichs

Verified core of the KayStichs Soroban contracts.

- `src/stake_vault/rules.rs`: the decision each stake-vault entry point takes
  on the values it reads (stored admin, token, the caller's stake record,
  ledger time): the error it aborts with, or the record it writes, the token
  transfer it makes and the event it emits.
- `src/stake_vault/table.rs`: the per-staker records, no staker twice.
- `src/stake_vault.rs`: the vault as a state machine (`StakeVault`, viewed as
  `VaultState`), its events, and the spec of each transition.
- `src/stake_vault/laws.rs`: what holds across calls.
- The other modules hold the value shapes of the badge, course, governance,
  quest and reward-pool contracts.
- `app/`: the Soroban contracts. They read storage and ledger time, check
  authorization, call the library's decisions, and perform the transfers,
  storage writes, events and code upgrades that the decisions name.
