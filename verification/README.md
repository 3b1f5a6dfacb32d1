# gnirehtet

The command logic of gnirehtet, the reverse-tethering relay for Android,
written in Verus and proved against its contracts.

- `src/` is the verified library:
  - `adb`: the adb argument lists and the ops of each command
    (`cmd_install`, `cmd_start`, ...);
  - `session`: the `Session` state machine that carries out ops one by one,
    stopping at the first failure, and the laws about how sequences of ops run;
  - `client`: the decision, from `dumpsys package`, whether the client must be
    installed;
  - `command`: the commands, their parameters, descriptions and lookup;
  - `cli_args`: command-line parameters;
  - `usage`: the usage text;
  - `devices`: which devices became ready between two device listings;
  - `text`, `execution_error`: text search and error values.
- `app/` is the program: it runs adb, sleeps, spawns threads, handles Ctrl+C,
  runs the relay server and logs, as the library decides.
- `tests/` runs the library on concrete values.
