# smauglys

The logic of the Smauglys installer and of its VS Code wrapper, verified with
Verus.

- `src/` is the verified library: paths and process invocations as plain
  values (`path`, `process`), UTF-8 decoding and word splitting (`text`), the
  VS Code command line and its output (`code`), the extension installation
  state machine (`extensions`), the earlier iced installation window's state
  (`extension_installer`), and the decisions of the installer (`installer`).
- `app/` runs processes, shows the windows and drives the state machines: it
  asks the library what to do next, does it, and hands the outcome back.
- `tests/` exercises the library on concrete values.
