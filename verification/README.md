# flutter_test_runner

Runs Flutter integration tests on Android emulators and iOS simulators and
writes an HTML report of the outcomes.

- `src/` is the verified library: the text primitives (`text`), the
  emulator and simulator commands and how their output is read
  (`platform`), the `flutter` invocations and test outcomes (`runner`,
  `result`), the report (`reporter`), and the test session as a state
  machine (`command`, `command::execution`). Regular expressions
  (`pattern`) and date formatting go through the `regex` and `chrono`
  crates behind trusted wrappers.
- `app/` is the command-line tool: arguments (`clap`), the YAML config
  (`serde`, `serde_yaml`), and the effects a session asks for — shell
  commands, pauses and the report file — run with `tokio`.
- `tests/` exercises the library on concrete values.
