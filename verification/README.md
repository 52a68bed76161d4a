# debugger

The decision logic of a code editor's debugger, written in Verus and proved
against its contracts: the debug adapter protocol messages and their wire
forms, the breakpoint stores, debug sessions and their clients, stack frame
and variable lists, the debug panel item, adapter installation as step
functions, and the file finder's ranking and history matching.

Layout:

- `src/` is the verified library. Each module opens with a comment on what
  it decides. Calls into std and into the outside crates `regex` and
  `serde_json` go through small trusted wrappers whose doc comments say what
  is believed of them.
- `tests/` runs the library on concrete inputs.
- `app/` is the unverified part that touches the machine: the process table,
  the file system, child processes and the home directory. It hands the
  library plain values and carries out what the library decides.
