# api_server

The account service of a remote desktop server. Users log in and get a session for three days,
keep an address book, and log out; the server asks whether a session is valid for a client's
address; an administrator adds, enables and disables users and changes their passwords.

* `src/` decides. A request comes in, and the library names the next command to run on the
  database or the reply; what the command brought goes into the next decision. Every decision is
  verified with Verus; the short functions marked `external_body`, each around one call into
  another crate or std, are not. `src/store.rs` models the tables, `src/runs.rs` strings the
  decisions of a request together on them, and `src/laws.rs` proves what holds of the service as a
  whole.
* `app/` is the program around it: the command line, the sockets (axum), the SQLite connection
  (sqlx).
* `tests/` runs the decisions one by one, and whole requests on a database in memory.

The library trusts what it says of the crates it calls (bcrypt, http, serde_json, uuid) and of a
few functions of std; each such item carries a comment that says what is claimed. That the SQL
statements do to the database what `apply`, `Database::created` and the `find_` functions of
`src/store.rs` say is not proved.
