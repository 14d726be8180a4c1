# win_open

Opens a path or URL with the program that Windows associates with it, through
PowerShell, Nushell or Command Prompt, whichever is found first.

The crate is in two parts:

- `src/` is the library, verified with Verus. It decides which shell to use
  (`detect`), how the command that opens a path is spelled for each shell
  (`command`), what each outcome of running or spawning that command is
  answered with (`launch`), how shell names are parsed (`shell`), the error
  type (`error`), and the NUL-terminated UTF-16 form of a string that the
  Windows shell API takes (`wide`). Every function there carries a contract
  that Verus proves.
- `app/` runs the processes: it probes for a shell once per process, turns
  the library's commands into `std::process::Command`s, runs or spawns them,
  and offers the familiar entry points `that`, `with`, `that_detached`,
  `with_detached`, their background variants, and the shell-API variants on
  Windows.

`tests/` runs the library on concrete values.
