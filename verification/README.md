# ats_smart_contract

An order book for an automated trading system on the Provenance chain:
sellers place asks (base for a quote denomination), buyers place bids,
authorised executors match them, approvers ready asks in convertible base
denominations, fees are charged on both sides, and the stored settings and
orders migrate between versions of the contract.

The library under `src/` is written in Verus. Its operations work on the
contract's storage as a value (`store::ContractStore`) and on the chain's
answers as plain data (`store::Api`, `store::Querier`), and each states in
its contract what it answers and what it leaves stored:

- `contract`: setting up, the order operations, matching, migrating and
  answering questions;
- `execute::modify_contract`: changing the settings while the book runs;
- `contract_info`, `version_info`, `ask_order`, `bid_order`: the stored
  shapes and their migrations;
- `decimal`, `msg`, `response`, `error`, `common`: prices, messages, answers
  and errors;
- `laws`: properties that span operations (what a read gives back after a
  write, what cancelling, rejecting and matching leave, how a bid's amounts
  add up, what a migration keeps);
- `profiler`: the messages and names of the profiler tool.

`app/` holds what runs on the chain around the library: the CosmWasm entry
points, the storage and chain queries they need, the JSON shapes of the
messages and stored values, and the profiler's command line.
