# sqlexec

The SQL information schema of a set of DataFusion catalogs, verified with Verus.

- `src/` is the verified library. From a plain copy of what the catalogs list
  (`catalog.rs`) it builds the Arrow columns of `information_schema.tables`,
  `information_schema.views` and `information_schema.columns`
  (`information_schema.rs`, `builders.rs`), row by row, into Arrow's
  `StringBuilder` and `UInt64Builder` (`arrow_columns.rs`), then into in-memory
  DataFusion tables with their PostgreSQL-style columns (`mem_tables.rs`). The rows each table
  must hold are stated in `rows.rs`; laws on them (every table is listed, nothing
  else is, `table_exist` agrees with `table`) are proof functions in
  `information_schema.rs` and `builders.rs`. `errors.rs` holds the errors of the
  RPC service and their messages.
- `app/` reads the catalogs through DataFusion's catalog traits, implements
  `SchemaProvider` with the library's tables, and gives the
  error type its `Display`, `Error` and gRPC `Status`.
- `tests/` runs the library on sample catalogs.
