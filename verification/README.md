# countersyncd

Counter synchronisation for SONiC high-frequency telemetry: the kernel
streams IPFIX messages over generic netlink; the daemon decodes them into SAI
counter readings, prints periodic reports and writes changed counters to the
`COUNTERS` table of the counter database.

Layout:

- `src/` — the verified library (Verus):
  - `actor/data_netlink.rs` — framing of the netlink byte stream, the data
    socket's reconnect decisions, the constants file settings;
  - `actor/control_netlink.rs` — generic-netlink control messages and the
    family watcher's decisions;
  - `actor/ipfix.rs`, `actor/ipfix_decoder.rs` — IPFIX framing, template
    bookkeeping per telemetry session, and records turned into statistics;
  - `actor/ipfix_templates.rs` — the check that every template record of a
    message describes some data, made before a message is decoded;
  - `actor/ipfix_dump.rs` — the debug dump of a decoded IPFIX message;
  - `actor/counter_db.rs` — the counter cache of the database writer;
  - `actor/stats_reporter.rs`, `actor/stats_report.rs` — the reporter's
    state and the content of its reports;
  - `sai/` — SAI statistic tables; `message/` — messages between tasks;
  - `assoc.rs`, `text.rs`, `wire.rs`, `clock.rs` — tables, text, byte and
    time helpers.

  The daemon's caches (counters, OIDs, templates, object names, report
  counts) are keyed by strings or by structs with derived `Hash`/`Eq`.
  Verus proves next to nothing of a `HashMap` with such keys, so these
  tables are `assoc::AssocList`: a vector of entries without repeated keys,
  in insertion order, whose contents are a `Map`. Lookups are linear, which
  suits tables of a few hundred entries.
- `app/` — the daemon: command line, logging, sockets, channels, the Redis
  connection and the console output.
- `tests/` — tests of the library.
