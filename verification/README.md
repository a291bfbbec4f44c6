# MCP gateway

A bridge between a Model Context Protocol client that speaks over standard input
and output and an MCP server that speaks Streamable HTTP. Each line of the input
is posted to the endpoint; each message of the server is printed on a line. When it
starts the bridge also subscribes to the endpoint, and prints what the server sends
over the subscription at any time.

- `src/` holds the decisions, verified with Verus: which request carries a line
  (`request`), what is read of a response (`response`, `text`), how an event
  stream is followed (`stream`), and how one thing leads to the next (`bridge`).
  `laws` states what holds of every run.
- `src/http_types.rs` and `src/text.rs` hold what is believed of the `http` crate
  and of the standard library.
- `app/` is the program: the command line, the standard streams and the HTTP
  client. It reports events to a `Bridge` and carries out its commands. Besides
  the crates in `Cargo.toml` it needs `http_client` and `http_client_reqwest`,
  which are not published on crates.io: a build of the program has to supply them.
- `tests/` runs the library.
