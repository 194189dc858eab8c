# c3_cargo_husky

Git hooks with a task runner. `src/` is the verified library (Verus), `app/` is
the `husky` program around it, `tests/` exercises the library.

- `src/cli.rs`: the command line arguments.
- `src/husky.rs`: the line that `set` appends to a hook script.
- `src/husky/task_runner.rs`: tasks, the include/exclude decision, choosing
  tasks by name or group, the run of a list of tasks and its stopping rule,
  and the lines that `list` prints.
- `src/husky/globs.rs`: glob matching through `globset`.
- `src/husky/text.rs`: trimming and ASCII case-insensitive comparison.
- `src/husky/filesystem_manager.rs`, `src/husky/repository.rs`: the computing
  parts of the file and git operations.
- `src/husky/error.rs`: the shared error.

The hook scripts (`hook`, `husky.sh`, `task-runner.json`) are read from an
`assets` directory beside Cargo.toml when the program is built.
