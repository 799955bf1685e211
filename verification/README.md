# outbox_messaging

Domain events for components, written to a transactional outbox and relayed
to NATS JetStream.

- `src/` is the verified library: component and event types with their JSON
  payload text, message headers, settings read from an environment snapshot
  (with a decimal integer reader), database start-up decisions and SQL
  identifier quoting, the outbox rows a component creation writes, and the
  relay's decisions (subjects, envelopes, how each row is settled, what each
  wake-up does), plus the view service's settings and event summaries.
- `app/` runs the three programs around it: the component demo (default),
  `relay` and `view`. It holds the database, NATS and environment access.
- `tests/` exercises the library on concrete values.

Settings: the database keys `DB_HOST`, `DB_PORT`, `DB_USER`, `DB_PASSWORD`
and `DB_NAME` are required (`DB_TYPE` defaults to `postgres`); the relay keys
are required; the view service's four variables are optional, with the
defaults `nats://127.0.0.1:4222`, `events`, `PROCESS_EVENTS` and
`DUMMY_VIEW_SERVICE`. The programs load their migrations at start-up from
`db_utils/migrations` and `outbox-relay/migrations` below the working
directory.
