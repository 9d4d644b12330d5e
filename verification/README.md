# pythia_db

Test-mode database access for Pythia: test profiles and the CAN frames
scheduled in them, stored in SQLite.

- `src/` is the verified library: the rows as plain values, the services'
  decisions on what each query gave (lookups by name, the errors of refused
  inserts, the row that adding a CAN message inserts), and the HTTP answers
  of the endpoints. `src/laws.rs` proves properties that span them.
- `app/` is the server: the diesel schema, migrations and queries, the axum
  handlers, and the copies of the library's types that carry diesel and serde
  derives.
- `tests/` runs the library's functions on concrete values.
