# shark_share

A file-sharing service organised around *blocks*: each block is a sending or a
receiving task, has a storage path `<kind>/<uuid>`, and holds the objects
uploaded to it, each stored under `<block path>/<uuid>`.

- `src/` is the verified library. The request handlers are written as state
  machines (`delete_block`, `delete_objects`, `list_objects`, `put_object`,
  `get_object`): each step takes what the last database, storage or request
  operation gave (`flow::Event`) and answers the next operation to perform
  (`flow::Action`). `auth` issues and verifies tokens, `block` builds new blocks, `util`
  draws random names, `laws` proves properties that span the handlers.
- `app/` is the HTTP server: routing, configuration, the database and storage
  calls, and the loops that drive the state machines.
- `tests/` exercises the library.
