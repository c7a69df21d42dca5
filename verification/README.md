# crossbundle

Command line tool and library for building, packaging and signing Rust
applications for Android and iOS, verified with Verus.

- `src/cli/` — the command line of `crossbundle`: a grammar of long and short
  options and subcommands (`grammar.rs`, `values.rs`), the option tables and
  checks of each command (`build_command.rs`, `run_command.rs`, `doctor.rs`,
  `install.rs`, `update.rs`) and the whole command line (`opts.rs`).
  `plan_steps.rs` holds the decisions of the Android build and run steps.
  `Opts::try_parse_from` is proved to return exactly what the grammar and the
  checks say of the arguments.
- `src/tools/` — command lines of `aapt2`, `bundletool` and `jarsigner`, each
  proved equal to a specification of its arguments.
- `src/types/` — targets, profiles, the Android manifest (rendered as XML) and
  the data of `Info.plist`.
- `src/argv.rs`, `src/text.rs` — building argument lists and decimal text.
- `app/` — the program: reads the process's arguments, runs the tools, does
  downloads and file work.
