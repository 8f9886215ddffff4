# lq-express-sm

A CosmWasm contract that keeps a registry of Astroport pools and forwards
swaps of native tokens to them, keeping a fee of `fee_rate` ten-thousandths
on each swap.

- `src/` is the verified library (Verus): the messages, the contract's state,
  and every decision the contract takes — instantiation, pool registration
  and its storage key, the checks and the sub-message of a swap, the fee,
  the handling of replies, and the answers to queries.
- `app/` is the contract around it: the entry points, the chain storage
  (`cw-storage-plus`), the queries to Astroport pairs and bank balances, and
  the JSON encoding of messages. It hands the library what it read and
  performs what the library decided.
- `tests/` runs the library on concrete values.
