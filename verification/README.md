# connect-io

A unified transport layer over TCP, UDP and serial lines, with a session
manager for Tauri front ends.

- `src/` is the library, verified with Verus: address and configuration
  values and their parsing, serial-line settings, the error type and its
  texts, the session registry (create, look up, close, list, clean up), and
  the decisions of a session's background task (what a command or a read
  result leads to, what a poll of pending events collects).
- `app/` performs the I/O those decisions call for: blocking and tokio
  sockets, serial ports, the session tasks and the Tauri commands.
- `tests/` exercises the library on concrete values.
