# tql_macros

The decisions behind the `tql` procedural macros, written in Verus and proved against their
contracts.

- `src/` is the verified library. It works on a plain model of what the macros receive
  (`model`: structs, fields and their Rust types) and says what to generate:
  - `parse`: the macros' token input, given as text, parsed with `syn` into that model, and the
    text-level entry points `sql_table_text`, `check_missing_fields_text` and
    `stable_check_missing_fieds`;
  - `types`: the SQL type of a field's Rust type;
  - `fields`: checking the fields of a table struct (`get_struct_fields`);
  - `methods`: `SqlTable`, `Debug` and `ToSql` implementations (`table_methods`, `tosql_impl`);
  - `macros`: the helper macros generated for each table (`table_macro`);
  - `missing`: the check that an insert gives every mandatory field (`gen_check_missing_fields`);
  - `query`: the type checks of a query's arguments (`typecheck_arguments`) and related pieces;
  - `expand`: the whole table derive (`sql_table`);
  - `error`, `text`: diagnostics and text helpers.
- `app/` hands the macros' tokens to the library as text, draws the random seed from which the
  foreign-key check structs are named, and writes the library's answers back as tokens with
  `quote`. The parts of the output that depend on the database backend go through its
  `BackendGen` trait, of which this crate holds no implementation.
- `tests/` runs the library on concrete tables, queries and macro inputs.

## What is not here

The query macros `sql!` and `to_sql!`, their stable form `StableToSql`, and the functions behind
them (`to_sql_query`, `gen_query`) are not part of this crate: they turn a query expression into
SQL through a parser, an analyzer, an optimizer and backend code generators that this crate does
not contain. The span rewriting of the nightly-only expansion (`respan_with`) is not here either:
it is built only for an unstable compiler interface that no longer exists. Diagnostics are
emitted as `compile_error!` with their message; their code, severity and position are kept in the
library's `Error` values but not rendered.
