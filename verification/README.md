# library_service

A small lending-library HTTP service (books, members, loans) over MySQL,
whose logic is verified with Verus.

- `src/` is the verified library: which SQL statement each request runs and
  which values it binds (`books`, `members`, `loans`, `statement`), how every
  outcome is answered (`reply`), the steps that open a loan and the plan that
  changes one (`loans`), dates and their text forms (`date`, through chrono),
  and decimal text (`text`).
- `app/` is the service itself: actix-web routes, the sqlx pool and queries,
  the reqwest calls to the book service, JSON (serde) copies of the records,
  and the clock.
- `tests/` runs the library on concrete values.
