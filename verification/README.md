# project_scan

The projection operator (`SELECT col1, col2 FROM ...`) of a small teaching
database engine, in the Volcano (iterator) model, written in Verus.

- `src/scan.rs` — the `Scan` trait: each operator is described by its number
  of records, its cursor, what reading a field gives at each position and
  which fields it offers; the contracts of `next`, `before_first` and the
  getters are stated over these.
- `src/project_scan.rs` — `ProjectScan`, which hands navigation and reading to
  the scan beneath and lets through only the fields of its list.
- `src/mock_scan.rs` — `MockTableScan`, an in-memory table.
- `src/row.rs`, `src/value.rs`, `src/error.rs` — records, values, errors.
- `src/laws.rs` — properties that span several operations, proved.
- `app/` — the error type with its messages (`thiserror`), `Display` for
  values, and the demo that prints a projection.
