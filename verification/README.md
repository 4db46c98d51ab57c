# mongo_embedded

Runs a MongoDB Community server for local tests and development: picks the release for the
host, downloads and unpacks it once, starts `mongod`, waits until it answers, and optionally
creates a user.

- `src/` is the verified library (Verus). It holds every decision: the release URL and file
  name for a host (`downloader`), the unpacker for an archive (`extractor`), the server's
  executable name and arguments (`process`), the configuration and its connection strings
  (`lib.rs`), and the start-up as a state machine (`startup`): each step takes the outcome of
  the last operation and names the next one. Laws about these are proved beside them.
- `app/` performs the operations the state machine asks for: files, HTTP downloads, archive
  unpacking, the `mongod` process and the MongoDB client.
- `tests/` runs the library on concrete values.
