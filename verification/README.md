# persona-introspect

The introspection component of a persona engine. It answers questions about an engine, its
components and its deliveries over a Unix socket, and has a command line that asks them.

- `src/` is the core, verified with Verus: the answers (`runtime`), the length of frames and what
  is taken from them (`codec`), the environment (`environment`, `targets`), how the daemon comes up
  and serves (`daemon`, `serving`), how a question is asked (`client`, `command`), and what holds of
  a question and its answer from one end of a socket to the other (`exchange`). It does no input or
  output: each step takes the outcome of what was to be done and says what is to be done next.
- `app/` does what the core says: sockets, actors, the process's environment and arguments.
- `tests/` run the core on given values.

What the core takes on trust stands in `actor` (the failures of `kameo`), `path` (paths of the
standard library) and `error` (`std::io::Error`).
