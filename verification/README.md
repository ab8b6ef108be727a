# daox_models

Data-access models for a set of MySQL, PostgreSQL and SQLite tables, verified
with Verus. For each table the library holds the row type, the patch type,
the orderings, the column constraints and the SQL statements that read and
write the rows. The statements are plain values (`Statement`: the SQL text and
the values bound to its placeholders, or `CopyPlan`: a `COPY ... FROM STDIN`
and its CSV payloads); the program under `app/` sends them with `sqlx`.

Layout of `src/`:

- `text`, `value`, `sql`, `copy`, `order`, `validation`, `paging`, `time`:
  the building blocks — placeholders and multi-row `VALUES` clauses, statement
  plans cut into chunks, CSV payloads, `ORDER BY` checks, constraint checks,
  limits and counts, and dates as `chrono` displays them.
- `csv_read`: how a CSV reader reads the `COPY` payloads back.
- `env_file`: the `KEY=value` settings of a `.env` file, line by line.
- `models`, `models_mysql`, `models_pg`, `models_sqlite`: one module per
  table; `models_mysql::daox_generated` and `models_pg::daox_generated` hold
  the same tables in a more compact layout.

Every function carries its contract; the laws that relate several functions
(no value lost when a batch is cut into statements, a batch of one row is the
single-row statement, a `COPY` sends every row once and in order, a full patch
is the full update, a rewritten `ORDER BY` holds only allowed columns, CSV
fields read back as written, a reader of the `COPY` payloads gets every row
back field by field, no `COPY` payload is empty, different orderings have
different `ORDER BY` terms, loading a `.env` file keeps the variables already
set and takes the first setting of the others) are proof functions whose names start with
`law_`.
