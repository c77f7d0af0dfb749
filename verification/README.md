# subinterp

The sub-interpreter state of a Python extension runtime, verified with Verus.

A Python object belongs to exactly one interpreter. When several interpreters, each under its
own GIL, use one extension in one process, the runtime has to know which interpreter a thread
attaches to, whose object a dropped reference was, and where each interpreter keeps its own
cached values. `src/` holds these decisions and the state behind them, with contracts; `app/`
makes the calls into CPython.

- `src/internal/home.rs`: the home interpreter of an extension copy.
- `src/internal/state.rs`: the attach count, its guards, and how a thread attaches.
- `src/internal/pool.rs`: the decrefs deferred for each interpreter.
- `src/sync/per_interpreter.rs`: cells with one value per interpreter.
- `src/sync/interpreter_handle.rs`: the way back to the interpreter of an object.
- `src/sync/registry.rs`, `src/sync/keys.rs`: how an interpreter gets its registry.
- `src/sync/teardown.rs`: the teardown hook and the teardown.
- `src/impl_/pymodule.rs`, `src/impl_/version.rs`: module slots and module definitions.
- `src/table.rs`: the table from keys to values that pools, registries and hooks are kept in.
- `src/probe.rs`: the probe extension.

The files that end in `_laws.rs` state what holds over whole histories and runs.
