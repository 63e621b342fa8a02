# invoice-token

Tokenized accounts-receivable invoices: issuance up to the face value, transfers with fees,
partial and full settlement, pro-rata redemption, allowances, and an audit journal for each
invoice. The library is written in Verus: every function has a contract, and the laws of the
token as a whole are proved.

- `src/` is the verified library.
  - `types`, `text`, `table`, `ids`: values, strings, finite maps, and the lists that the
    contract host keeps.
  - `invoice`, `token`: the state, with its mathematical view.
  - `step`: how a call asks its surroundings (authorization, KYC, compliance) and why it stops.
  - `effect`: what a call writes, extends, registers and publishes.
  - `amount`, `transfer`, `redeem`, `settle`, `admin`, `query`: the calls.
  - `history`: calls as values, and what a sequence of them leads to.
  - `laws`: what holds of every call and of every state.
- `app/` runs the library on a Soroban ledger. The helpers for administration, KYC and
  compliance are a trait that a deployment implements.
- `tests/` runs the token in simulated surroundings (`invoice_token.rs`) and call by call
  (`rules.rs`).

The only parts that are taken on trust are the calls into `soroban-sdk` in `src/ids.rs`.
