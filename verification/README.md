# arranger

A command-line tool for Python environments (create, fix, run commands in,
list packages of virtual environments; download Python releases), Rust task
files for VS Code, and file search.

- `src/` is the library, written in Verus: parsers (versions, release file
  names, pip output, configuration files, task files), the layout of tables
  and grids, the console writer, the search criteria and ordering, and the
  step functions that decide what each command does next. Each public
  function states its result in `requires`/`ensures`; the laws of the library
  are public proof functions named `law_*`.
- `app/` is the program around it: argument parsing, files, processes,
  network, threads and the terminal. It hands plain values to the library
  and performs the actions the library decides.
- `tests/` runs the library on concrete inputs.
