# cargo-temp

A Cargo subcommand that creates a temporary Rust project with the
dependencies given on the command line, opens a shell (or an editor) in it,
and deletes the project when the shell exits, unless its `TO_DELETE` file was
removed.

## Layout

- `src/` is the library, verified with Verus:
  - `dependency.rs`: the dependency syntax (`NAME`, `NAME=VERSION`, git URLs
    with `#branch:`, `#tag:`, `#rev:`, local paths, `+FEATURE`s), how a git
    reference is classified, and how a dependency is written into
    `Cargo.toml` (inline, or as a `[dependencies.NAME]` table when long);
  - `project.rs`: the session as a state machine, from the creation of the
    directory to the clean-up: each step takes the last event and returns
    the next stage and the action to perform;
  - `config.rs`, `subprocess.rs`, `benchmarking.rs`, `cli.rs`: the
    configuration, the subprocesses started beside the shell, the
    `criterion` benchmark, and the command line;
  - `lib.rs`: the first command-line interface, with its own dependency
    syntax;
  - `matching.rs`: named-group matching with the `regex` crate;
  - `paths.rs`: Unix paths as `std::path` reads them (components, file
    names, parents, joining), used to decide where a preserved project goes;
  - `text.rs`: the text operations the rest is written with;
  - `laws.rs`: properties of the library as a whole, proved.
- `app/` is the program: it parses the command line with clap, reads the
  configuration with serde and toml, and performs the actions of the state
  machine (files, processes, the prompt).
- `tests/` runs the library on concrete inputs.
