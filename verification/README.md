# sea-orm-spanner

A Google Cloud Spanner backend for SeaORM. The logic of the backend is a library verified
with Verus (`src/`); the parts that talk to Spanner, run async code, or need the derives and
traits of SeaORM, SeaQuery and clap live in an ordinary Rust crate around it (`app/`).

## `src/`: the verified library

- `schema`, `types`: builders for `CREATE TABLE`, `CREATE INDEX` and `ALTER TABLE`, and the
  mapping of SeaQuery column types to Spanner types. Each builder's output is specified
  exactly by a spec function of its abstract model.
- `ddl`: rewriting MySQL DDL, as SeaQuery's MySQL backend writes it, into Spanner DDL.
- `rewrite`, `columns`, `statement`: `?` placeholders to `@pN`, backtick removal outside
  literals, the column names of a `SELECT`, and whole statements with their parameters.
- `value`, `literal`, `bind`, `array`: SeaQuery values as plain data, their SQL literals, and
  which Spanner parameter each one is bound as, element by element for arrays.
- `read`, `roundtrip`: which type a result column is read as by its type code, what the
  cell read (handed over by `app/` as plain data) becomes, and the proof that a value written through the proxy reads back as stated.
- `database`, `migration`, `error`, `query_builder`: database paths and creation outcomes,
  the migration runner's decisions, error mapping, and the SeaQuery dialect's rules.
- `text`: string helpers shared by the rest, with their lemmas.

Calls into regex, base64, chrono, rust_decimal, serde_json and uuid stand behind small trusted wrappers whose doc comments say what each one claims.

## `app/`

The SeaORM proxy (which reads each row's cells and hands them to the library), connections
and transactions, the `ToKind` encodings for the Spanner
client, the SeaQuery trait impls of the dialect, and the migration runner with its CLI.
