# huiyu_db_mapper

A persistence layer for several databases (SQLite, MySQL, PostgreSQL,
Oracle, Dameng): a query builder, the SQL text of queries, inserts, updates
and deletes with the values they bind, pagination, parameter values and
their conversions, and the registries of data sources.

The library under `src/` is verified with Verus:

- `base/` — database kinds, configurations, errors, pages, date-times,
  parameter values and their conversions, the entity trait and column
  descriptions, and (`describe`) what an entity or mapping declaration
  describes: field attributes, column types, the table name, the key and
  the errors of a declaration that cannot be mapped.
- `query/` — the condition tree (`query`), the builder (`query_wrapper`)
  and the planning of inserts (`base_mapper`).
- `sql/` — the `where` clause (`where_sql`) and the generator traits
  (`sql_generator`), with the law that every bound value has one
  placeholder; reading a row into an entity (`row`); how a transaction
  ends and what it gives back (`transaction`).
- `db/` — the dialects (page SQL, key read-back) and Dameng URL parsing.
- `pool/` — data source names and kinds, and the registry of instances.
- `sample/` — two entities, one written out by hand and one in the shape
  the entity derive gives.
- `util/` — decimal text, joining, and `str::parse`-compatible reading.

`app/` holds what touches the world: the task-local data source, the
process-wide registries, SQLite statements through rusqlite, the
asynchronous mapper, serde/thiserror copies of library types, and
local-time helpers.
