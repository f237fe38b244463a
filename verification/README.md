# metadao

The logic of the MetaDemocracia contracts for NEAR, written in Verus and
verified against its contracts:

- `src/dao/` — the DAO: policies of roles and vote rules, proposals, votes,
  the effects of approved proposals, bonds and delegations.  `laws.rs` holds
  what holds across its calls.
- `src/democracy.rs` — the council contract: administrators, council members,
  proposal types and up and down votes.
- `src/nft/` — the series bookkeeping of the NFT contract: series, minting,
  sales and royalty payouts.  `laws.rs` holds what holds across mints and
  payouts.
- `src/collections.rs` — maps and sets kept in vectors, with their contents
  given as `Map` and `Set`.
- `src/text.rs`, `src/json.rs`, `src/amounts.rs` — decimal numbers and
  account ids, the JSON reply of another contract, sums of amounts.

Every call takes the chain's context (signer, time, deposit, replies of other
contracts) as plain values and returns the new state and what the chain must
do next.  `app/` is the NEAR side around it: it reads the context, stores the
state, logs, makes the calls and transfers, keeps the token registry of the
NFT standard, and does the floating-point price and vote-share arithmetic.
