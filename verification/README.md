# reservation

The core of a resource-reservation service, verified with Verus.

- `src/` is the library. It covers:
  - time ranges and their conversion to UTC (through chrono);
  - reservation and id validation;
  - statuses and their codes and names;
  - how database failures become service errors, including reading the
    overlap report of the reservations table;
  - the decisions behind each service operation: what to insert, what to
    answer, how query results are forwarded, and how a filter is checked,
    planned and cut into pages.

  Every public function states its result in `ensures`. The laws of the
  library are public proof functions beside the code they speak of.
- `app/` is the Postgres side (sqlx, tokio). It runs the statements that the
  library plans and converts rows and errors to and from the library's types.
- `tests/` runs the library on concrete values.

The database needs the `rsvp` schema: the `reservations` table with an
exclusion constraint on `(resource_id, timespan)`, the `reservation_status`
enum and the `query` function.
