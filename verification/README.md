# archer_dflow

The Archer market as an automated market maker for an aggregator, verified with Verus: which
accounts of the chain it needs, how its state follows from their data, what it quotes, and which
accounts and payload a swap instruction has.

- `src/amm.rs` is the market maker, `ArcherAmm`. Its contracts are stated over `src/model.rs`, which
  describes its state and every step of an update; `src/laws.rs` proves what holds of it as a whole
  (a second update is idempotent for the same decoding results, an update needs only the accounts
  that it asked for, no book outlives an update, the announced number of accounts is the number a
  swap lists, and so on). A law that compares two calls asks for decoders or an engine that repeat
  themselves, and says so.
- `src/state.rs` and `src/quote.rs` say what is known of the program's accounts and of its quote
  engine. How an account is decoded and how an amount is matched against the books is handed in
  through the traits `StateDecoder` and `QuoteEngine`; nothing is assumed of what they return, and
  the contracts hold for every result.
- `src/address.rs` derives a market's other addresses. The derivation and the sysvar's address come
  from `solana_program`, behind two trusted functions.
- `src/account.rs`, `src/pubkey.rs`, `src/swap.rs` and `src/error.rs` hold the values that go in and
  out.
- `app/` puts the market maker behind the aggregator's own trait.
