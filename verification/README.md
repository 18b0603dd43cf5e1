# mockapi

A mock API server: register fake HTTP endpoints with a JSON body or a file,
route requests to them by URL and request headers, and keep a log of the
requests each one received.

- `src/` is the verified library (Verus): request routing by header rules,
  mock reply planning, request logging, client address and user agent
  extraction, stored-row conversion, the save and upload rules, static asset
  replies, PID file text, daemon arguments and the shutdown protocol.
- `app/` is the server program around it: command line, SQLite store,
  HTTP handlers, file and process I/O.
- `tests/` exercises the library on concrete values.
