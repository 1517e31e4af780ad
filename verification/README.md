# amitis_contracts

The decision logic of five CosmWasm contracts of the Amitis network, verified with Verus:

- `amitis_swap`: sells AMTS for accepted input tokens at the oracle rate (never below the
  floor price) and splits the fee between a rebate, liquidity and validators;
- `clssc`: the closed-loop stablecoin (minters, caps, proof-of-reserve gate, frozen
  accounts, transfer whitelist, pause) on top of a CW20 token;
- `meridian_factory`: issuer registry, stablecoin deployment and fee reporting;
- `por_aggregator`: proof-of-reserve rounds finalised at the median of oracle
  submissions, and the mint check;
- `por_onchain`: sums an issuer's CW20 reserve balances and reports them.

Layout:

- `src/`: the library. Each contract module holds its state, messages, errors, the
  functions that decide each request (from stored values and validated addresses to new
  values, messages and errors, each with a contract) and, in `laws.rs`, properties that
  hold across requests.
- `app/`: the contracts' entry points: storage, queries to other contracts, CW20 base
  calls, JSON messages and responses around the library.
- `tests/`: tests of the library on concrete values.
