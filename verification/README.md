# shadow-core (verified)

The core of the Shadow platform's local store, written in Verus.

`src/` is the verified library:

- `hex`, `digest` — lowercase hex text and SHA-256 digests (the `sha2` hasher
  behind trusted wrappers), one-shot and fed piece by piece.
- `ident`, `clock` — random version-4 UUID identifiers (`uuid`) and Unix
  timestamps.
- `session` — the rows that the session store writes (sessions, sealed
  messages, audit events) and the messages it reads back.
- `migration` — which schema migration steps run for a stored version.
- `export` — export paths and export control with its audit actions.
- `json`, `doctor` — a plain JSON model of model capabilities, the model file
  that tamper detection checks, and the verdicts of the health check.
- `chat` — adapter choice, the AI layer's launch command, input handling and
  the conversation history of an interactive chat.

`app/` holds the SQLite side (`rusqlite`): opening and migrating the store,
the session store and the audit log, file digests, and the serde forms of
the records.
