# stream_gate

Admission control for a live-streaming server, with its decisions verified by Verus.

- `src/` is the library: the answer to the media server, the queue of players and their
  permissions, the keys of streams and of the admin, the pages and the sockets as state machines.
  Every function states in its contract what it returns or changes. The proof functions named
  `law_...` state what holds of several of them together.
- `app/` is the web server around it: routes, sockets, the database and the media server.
- `tests/` runs the library on concrete values.

The library rests on a few trusted items, each with a comment that says what is believed: reading
and writing UUIDs and drawing random ones (`src/uuids.rs`), and hashing and checking keys with
Argon2 (`src/keys.rs`).
