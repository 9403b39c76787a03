# ducklake

The decisions of an accelerator that keeps datasets in a DuckLake, verified with Verus: which database
file a dataset uses, how its connection pool is sized and set up, which options a table is created with,
whether it is kept in the local DuckDB or at a hosted Flight SQL endpoint, and the SQL that creates it
there.

- `src/` is the library. Every function has a contract over plain texts, numbers and maps. `quoting.rs`,
  `column_laws.rs` and `laws.rs` prove what holds of the functions together.
- `app/` carries out what the library decides: it opens pools, touches files, and talks to endpoints.
- `tests/` runs the library on concrete values.

What is taken on trust: that `secrecy`'s string container gives back the text that was put into it
(`src/secret.rs`), and that `String::push` appends one character (`src/text.rs`).
