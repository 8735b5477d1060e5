# rinha_backend

The rules of a small banking API (clients with a credit limit, credits and
debits, statements), proved with Verus.

- `src/` is the verified library: the validation of a submitted transaction,
  the steps of carrying a transaction out against the database (which update
  to ask for, what to record once it is done), the cache of the clients'
  limits, the reading of the rows the database returns, the statement, and
  the mapping of errors to HTTP answers.
- `app/` is the actix-web service around it: HTTP, JSON, the PostgreSQL pool
  and the queries; it performs each request that the library asks for.
- `tests/` runs the library on concrete values.
