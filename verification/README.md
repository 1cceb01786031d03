# klondike

A small collaboration service — channels with threads and append-only posts,
an issue kanban with a full event history, versioned artifacts, users with
channel and thread subscriptions and an unread feed — whose core is verified
with Verus.

* `src/` is the verified library:
  * `ids`, `time` — identifiers (UUIDs) and instants, through the `uuid` and
    `chrono` crates;
  * `status`, `error`, `records` — the domain types;
  * `codec` — writing records to table rows and reading them back, with the
    law that a stored record reads back as itself whenever each of its
    instants lies in the years 1 to 9999 and is not a leap second (the range in
    which `chrono` is known to read its own RFC 3339 text back exactly);
  * `issues` — moving an issue as a compare-and-set, the event it records,
    and the law that the events of successive moves chain from the starting
    status to the current one;
  * `feed` — which posts a feed shows (those stored later than the read
    marker, compared as stored texts) and where the marker moves;
  * `migrate` — the schema migrator, a state machine, with the laws that a
    migration completes, is idempotent, records each version exactly once
    and never re-creates existing schema;
  * `store` — the remaining decisions of the storage layer.
* `app/` holds the SQLite adapter (sqlx), the service and the HTTP API (axum),
  which run the queries and hand every decision to the library.
* `tests/` exercises the library on concrete values.
