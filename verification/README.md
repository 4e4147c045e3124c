# token-staking

A staking pool for tokens. Users stake tokens and earn reward tokens by the
second; a lock period may hold the stake back; an admin sets the reward rate
and the lock period, and can pause the pool.

`src/` is the library: the rules of the pool, verified with Verus.

- `instruction`: the instructions, each a decision from the accounts and the
  replies heard so far (the clock, a transfer) to what to do next
- `accounts`: the accounts of each instruction and what has to hold between them
- `process`: the same instructions on accounts that are yet to be checked
- `address`: the addresses derived for pools and stakes
- `rewards`: how rewards accrue
- `state`, `event`, `error`, `progress`, `key`: the data
- `ledger`, `law`: what holds of the pool as a whole, proved

`app/` is the on-chain program around it: it loads the accounts, reads the
clock, moves the tokens, stores the accounts and emits the events.
