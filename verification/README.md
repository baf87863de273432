# oysterpack

Building blocks for secure, message based services, written in Verus. The library's functions
in `src/` carry contracts that Verus proves, apart from a few small trusted wrappers around
outside crates and std (marked `external_body`), whose contracts are believed, not proved.

- `id`, `uid`, `ulid`: typed numeric identifiers and ULIDs.
- `errors`, `failures`, `events`, `event`: identified, leveled errors with their chains of
  causes, and events with their levels, sources and tags.
- `logging`: log configuration, log records and their text, and the decisions of logging
  initialization.
- `message`: addresses, envelopes, metadata and messages; data encodings and compression;
  base58 text; deadlines; signed hashes; stream framing; and the message service's routing.
- `command`, `monix`: progress of commands and tasks.
- `actor`: service identity, life cycle events, the event log, arbiters and the application.

`app/` holds what runs around the library: serde, snappy, libsodium, the log system's set-up,
and the drivers of commands, byte streams and the message service.
