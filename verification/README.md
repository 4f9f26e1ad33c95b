# felidae_dao

A DAO registry — members, projects, tasks, opinions on tasks, stakes,
governance tokens and partner DAOs — written in Verus.

- `src/model.rs` states the DAO as a mathematical value (`DaoView`: maps and
  sequences) and every operation as a function from a state and the
  operation's inputs to the next state and the result.
- `src/dao.rs` holds the executable `FelidaeDao`; each operation is proved to
  do exactly what its model function says. What the chain supplies (caller,
  block time, contract balance) comes in as plain values; chain transfers and
  calls into token contracts come in as closures, and the contracts state the
  outcome for either answer.
- `src/laws.rs` proves properties across operations: refused requests change
  nothing, only the administrator manages the DAO, the registry stays
  consistent, what is written is read back, ids are not reused.
- `src/table.rs` is the verified map behind every collection; `src/text.rs`
  renders timestamps; `src/ownership.rs` computes ownership shares with the
  `fixed` crate; `src/base58.rs` reads base-58 account addresses with `bs58`.
- `app/` connects the library to the ink! environment, and holds the
  governance token (`app/token.rs`), a PSP-22 token kept by openbrush.
