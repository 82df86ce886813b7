# tank_vm

The host-call layer of a WebAssembly tank controller, verified with Verus.

- `src/calls.rs` — the host calls a tank program may import (upcalls,
  constants, one- and two-argument float functions), their names, numeric
  ids and signatures, and the values of the constants.
- `src/host.rs` — resolving an import by name and signature, and answering
  a call of a host function by id: the upcall it makes, the value it
  returns, or the trap it raises.
- `src/text.rs` — string comparison and reading NUL-terminated UTF-8 strings
  from linear memory.
- `src/upcall.rs`, `src/machine.rs` — requests to the simulator and the
  ready/waiting state of a suspended program.
- `src/laws.rs` — properties spanning these functions.
- `app/` — the `wasmi` glue (module instantiation, execution with an
  instruction budget) and the floating-point host functions.
