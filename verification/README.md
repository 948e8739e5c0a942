# Turso SQL provider

SQLite-compatible SQL for a provider whose durable files, entropy and clocks all
belong to its host. The engine is `turso_core`.

| Capability | Effect | Behavior |
|---|---|---|
| `turso.exec` | `local-write` | Executes an ordered array of SQL statements against the namespace database and returns each statement's rows plus the host calls the engine produced. |

```json
{"statements":["CREATE TABLE IF NOT EXISTS note(id INTEGER PRIMARY KEY, body TEXT)","INSERT INTO note(body) VALUES('first')","SELECT id, body FROM note"]}
```

## Layout

- `src/` is the library, verified with Verus. It decides what is asked of the
  engine and of the host and what their answers become. It performs no I/O: a
  state says what has to be done next, and a function takes what came of it.
- `app/` is the component around it: it implements the engine's `IO` and `File`
  over the host's durable files, drives the engine, and exports the provider.
- `tests/` runs the library, alone and between the real engine and a host that
  is kept in memory.

## What is proved

- Which inputs hold statements, and with which failure every other input is
  answered. A statement whose leading word is `vacuum`, in any casing, never
  reaches the engine. White space and semicolons in front of the word are
  skipped, and it ends at white space, a semicolon or an opening parenthesis. A
  comment in front of the word hides it.
- An invocation runs the two pragmas, the statements in their order and the
  checkpoint that empties the write-ahead log, and nothing else. It succeeds
  only with the checkpoint, and answers with exactly the rows that the engine
  gave.
- A read fills its whole buffer, with zeros where the host gave less, and the
  trace accounts for every byte.
- The report of an answer names as many opened paths as it counts opens.
- Entropy is asked for in calls of at most 256 bytes, and the bytes of the
  answers stand in the buffer one behind the other.
- A lock climbs the host's ladder one rung at a time; an unlock is one call.
- Shared-memory sidecars (`-shm`, `-tshm`) are refused before the host is asked.

What `serde_json` and `turso_core::io::FileId::from_path_hash` do is taken from
their documentation and source, in `src/json.rs` and `src/io.rs`.

## What is not available

No `VACUUM`: `VACUUM INTO` opens its destination on a platform of
its own, and plain `VACUUM` rewrites the whole file inside the byte budget of
one invocation. A blob comes back as its length.
