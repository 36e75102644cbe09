# yashandb

A driver core for YashanDB whose decisions are proved with Verus.

The native client library (`yascli`) is treated as an outside service. The
verified library in `src/` describes every exchange with it as plain values:
state machines decide the next native call from the reply to the previous one
(establishing a connection, executing statements with parameters, one-row
queries, draining result sets, loading the client library), and pure functions
decide column bindings, column reads, output write-backs, LOB transfer sizes,
diagnostic messages and error texts.

- `src/` — the verified library (`conn`, `connect`, `stmt`, `result_set`,
  `param`, `lob`, `query`, `transaction`, `library`, `ffi`, `error`, `column`,
  `text`).
- `tests/` — tests of the library on concrete values.
- `app/` — the native layer: loads the client library with `libloading`,
  performs the C calls, and runs the library's state machines.

JSON values are bound as input parameters, in their binary form, through a
temporary BLOB (`param::json_input`); JSON output parameters and JSON column
reads are not provided.
