# teachlink

Reward bookkeeping and input validation for the TeachLink knowledge-sharing
contract on Stellar, written in Verus.

- `src/` is the verified library. `storage::RewardsState` holds the rewards
  entries of the contract's instance storage as plain values;
  `rewards::Rewards` funds the pool, issues and claims rewards and manages
  rates, each operation with an exact contract; `validation` holds the input
  checks; `laws` states properties of the operations taken together (the
  pool always covers pending rewards, an issued reward can be claimed in
  full, a claim empties what is pending, the guard refuses reentry).
- `app/` is the Soroban contract around the library: it loads and stores the
  state, checks authorization, performs the token transfers the library
  returns and publishes the events.
- `tests/` exercises the library on concrete values.
