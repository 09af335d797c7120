# Log Archive Orchestrator

A control-plane daemon that keeps many `iox2-log-recorder` workers in line
with a durable desired state, and the command-line client that administers
it (`serve`, `enable`, `disable`, `pause`, `resume`, `start`, `stop`,
`status`, `list`, `reconcile`, `daemon-status`, `shutdown`).

## Layout

- `src/` is the library, verified with Verus: the data model and its
  validation, the ordered service table, the lifecycle commands, the
  reconcile decisions with bounded retries, the recorder and control command
  lines, the versioned control API, error codes and configuration
  precedence. `src/laws.rs` states the properties that span calls
  (idempotent lifecycle commands, monotonic generations, reconcile never
  starting a live recorder, a whole reconcile pass keeping its lists ordered
  and disjoint and stopping only live unwanted recorders, bounded retries,
  answers reaching the client unchanged).
- `app/` is the program around it: argument parsing, the iceoryx2 transport,
  the desired-state file, the environment and configuration file, running
  the recorder and control binaries, output serialization and the
  floating-point backoff delay.
- `tests/` exercises the library on concrete values, including simulated
  lifecycle and retry scenarios.
