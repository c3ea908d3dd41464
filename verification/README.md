# adacs_job_client

Client daemon of the ADACS job controller: it keeps a WebSocket connection to
the job controller server, runs job bundles (Python) to submit, check, cancel
and delete jobs, and serves file listings, downloads and uploads.

## Layout

- `src/` — the library, verified with Verus:
  - `message` — the binary message format (length-prefixed strings and
    blobs, little-endian integers) with round-trip laws;
  - `db` — database requests and replies, the record layout laws, and the
    decisions of the database bridge;
  - `jobs` — submission, status checking, completion, cancel and delete
    decisions;
  - `files` — path containment, listing/download/upload requests, the
    download and upload state machines and their deadlines;
  - `bundle_db`, `bundle_logging`, `bundle_manager`, `bundle_interface` —
    what bundle code sends to the database, how its output is logged, and
    how bundle results are turned into replies;
  - `config` — configuration validation and settings;
  - `text` — string helpers with exact specifications.
- `tests/` — tests of the library.
- `app/` — the program: configuration file, logging, daemonizing, the
  WebSocket connections, the embedded Python interpreter, and the file
  system work, all calling the library for every decision.
