//! The whole command line of `crossbundle`: its global options, its commands,
//! and reading it from the arguments the process was started with.
use vstd::prelude::*;
use crate::argv::opt_view;
use crate::cli::build_command::{
    AndroidBuildCommand, BuildCommand, IosBuildCommand, android_check, android_defs, android_fields, android_from,
    android_table, ios_check, ios_defs, ios_fields, ios_from, ios_table,
};
use crate::cli::doctor::{DoctorCommand, doctor_check, doctor_defs, doctor_fields, doctor_from, doctor_table};
use crate::cli::grammar::{failure, exit_code_of, fail, find_char_from, find_long_from, step, is_value_token, lemma_inline_value_is_recorded, lemma_optional_value_without_inline, lemma_scan_keeps_earlier, scan, Step, 
    ArgDef, ArgKind, ArgSpec, ErrorKind, Failure, Occ, ParseError, ScanOutcome, Scanned, defs_view, level, scan_level,
};
use crate::cli::install::{
    InstallCommand, bundletool_defs, bundletool_table, command_line_tools_defs, command_line_tools_table, install_check,
    install_defs, install_fields, install_sub_names, install_subs, install_table, leaf_occurrences, leaf_scan_check,
    parse_install, sdkmanager_defs, sdkmanager_table,
};
use crate::cli::run_command::{
    AndroidRunCommand, IosRunCommand, RunCommand, android_run_fields, android_run_from, ios_run_check, ios_run_fields,
    ios_run_from,
};
use crate::cli::table::{arg_spec, help_spec, names, push_def, push_help};
use crate::cli::update::{UpdateCommand, update_defs, update_fields, update_from, update_table};
use crate::cli::values::{check_repeats, count_of, first, first_of, given, is_given, lemma_values_of_first, repetition_check, values_of};
use crate::utils::shell::Verbosity;

verus! {

/// The commands of `crossbundle`.
#[derive(Debug, Clone)]
pub enum Commands {
    /// Starts the process of building/packaging/signing of the rust crate
    Build(BuildCommand),
    /// Checks host tools and, optionally, a project without changing anything
    Doctor(DoctorCommand),
    /// Executes `build` command and then deploys and launches the application on the
    /// device/emulator
    Run(RunCommand),
    /// Installs bundletool and Android Studio's sdkmanager
    Install(InstallCommand),
    /// Updates or checks for new version of Crossbundle
    Update(UpdateCommand),
}

/// The command line of `crossbundle`.
#[derive(Debug, Clone)]
pub struct Opts {
    /// The current directory where to run all commands
    pub current_dir: Option<String>,
    /// A level of verbosity, and can be used multiple times
    pub verbose: u8,
    /// No output printed to stdout
    pub quiet: bool,
    pub cmd: Commands,
}

impl Commands {
    /// Whether the command first checks for a newer version of the tool: all
    /// but `update`, `doctor` and the dry runs of Android builds and runs do.
    pub fn requires_update_check(&self) -> (r: bool)
        ensures
            r == match self {
                Commands::Update(_) => false,
                Commands::Doctor(_) => false,
                Commands::Build(BuildCommand::Android(c)) => !c.dry_run,
                Commands::Run(RunCommand::Android(c)) => !c.build_command.dry_run,
                _ => true,
            },
    {
        match self {
            Commands::Update(_) => false,
            Commands::Doctor(_) => false,
            Commands::Build(BuildCommand::Android(c)) => !c.dry_run,
            Commands::Run(RunCommand::Android(c)) => !c.build_command.dry_run,
            _ => true,
        }
    }
}

/// The amount of output asked for: none with `--quiet`, else more with
/// `--verbose`, else normal.
pub open spec fn verbosity_of(quiet: bool, verbose: u8) -> Verbosity {
    if quiet {
        Verbosity::Quiet
    } else if verbose == 0 {
        Verbosity::Normal
    } else {
        Verbosity::Verbose
    }
}

impl Opts {
    /// The amount of output asked for.
    pub fn get_verbosity(&self) -> (r: Verbosity)
        ensures r == verbosity_of(self.quiet, self.verbose),
    {
        if self.quiet {
            Verbosity::Quiet
        } else if self.verbose == 0 {
            Verbosity::Normal
        } else {
            Verbosity::Verbose
        }
    }

    /// Whether every log message is to be shown: `--verbose` given more than
    /// once, without `--quiet`.
    pub fn trace_logging(&self) -> (r: bool)
        ensures r == (!self.quiet && self.verbose >= 2),
    {
        !self.quiet && self.verbose >= 2
    }
}

/// The global options.
pub open spec fn top_table() -> Seq<ArgSpec> {
    seq![
        arg_spec("current-dir"@, Some('c'), ArgKind::Single),
        arg_spec("verbose"@, Some('v'), ArgKind::Count),
        arg_spec("quiet"@, Some('q'), ArgKind::Flag),
        help_spec(),
        arg_spec("version"@, Some('V'), ArgKind::Version),
    ]
}

/// The commands, by name.
pub open spec fn top_subs() -> Seq<Seq<char>> {
    seq!["build"@, "doctor"@, "run"@, "install"@, "update"@, "help"@]
}

/// The options of `build` and `run` before their platform: only help.
pub open spec fn selector_table() -> Seq<ArgSpec> {
    seq![help_spec()]
}

/// The platforms of `build` and `run`.
pub open spec fn platform_subs() -> Seq<Seq<char>> {
    seq!["android"@, "ios"@, "help"@]
}

/// The option table of the global options.
pub fn top_defs() -> (r: Vec<ArgDef>)
    ensures defs_view(r@) == top_table(),
{
    let mut defs: Vec<ArgDef> = Vec::new();
    push_def(&mut defs, "current-dir", Some('c'), ArgKind::Single);
    push_def(&mut defs, "verbose", Some('v'), ArgKind::Count);
    push_def(&mut defs, "quiet", Some('q'), ArgKind::Flag);
    push_help(&mut defs);
    push_def(&mut defs, "version", Some('V'), ArgKind::Version);
    assert(defs_view(defs@) =~= top_table());
    defs
}

/// The command names.
pub fn top_sub_names() -> (r: Vec<&'static str>)
    ensures r.deep_view() == top_subs(),
{
    let r = names(&["build", "doctor", "run", "install", "update", "help"]);
    assert(r.deep_view() =~= top_subs());
    r
}

/// The option table of `build` and `run` before their platform.
pub fn selector_defs() -> (r: Vec<ArgDef>)
    ensures defs_view(r@) == selector_table(),
{
    let mut defs: Vec<ArgDef> = Vec::new();
    push_help(&mut defs);
    assert(defs_view(defs@) =~= selector_table());
    defs
}

/// The platform names of `build` and `run`.
pub fn platform_sub_names() -> (r: Vec<&'static str>)
    ensures r.deep_view() == platform_subs(),
{
    let r = names(&["android", "ios", "help"]);
    assert(r.deep_view() =~= platform_subs());
    r
}

/// The occurrences of a level without subcommands, once it was read without rejection.
pub open spec fn leaf_acc(defs: Seq<ArgSpec>, toks: Seq<Seq<char>>, start: nat) -> Seq<Occ> {
    leaf_scan_check(level(defs, Seq::empty(), toks, start))->Ok_0
}

/// Whether a level without subcommands at `start` is accepted, given the
/// check of its occurrences.
pub open spec fn leaf_check(defs: Seq<ArgSpec>, toks: Seq<Seq<char>>, start: nat, check: Result<(), Failure>) -> Result<(), Failure> {
    match leaf_scan_check(level(defs, Seq::empty(), toks, start)) {
        Err(f) => Err(f),
        Ok(_) => check,
    }
}

/// Whether `build android` (or, with `run`, `run android`) at `start` is accepted.
pub open spec fn android_level_check(toks: Seq<Seq<char>>, start: nat, run: bool) -> Result<(), Failure> {
    leaf_check(android_table(run), toks, start, android_check(leaf_acc(android_table(run), toks, start), run))
}

/// Whether `build ios` at `start` is accepted.
pub open spec fn ios_build_level_check(toks: Seq<Seq<char>>, start: nat) -> Result<(), Failure> {
    leaf_check(ios_table(false), toks, start, ios_check(leaf_acc(ios_table(false), toks, start), false))
}

/// Whether `run ios` at `start` is accepted.
pub open spec fn ios_run_level_check(toks: Seq<Seq<char>>, start: nat) -> Result<(), Failure> {
    leaf_check(ios_table(true), toks, start, ios_run_check(leaf_acc(ios_table(true), toks, start)))
}

/// Whether `doctor` at `start` is accepted.
pub open spec fn doctor_level_check(toks: Seq<Seq<char>>, start: nat) -> Result<(), Failure> {
    leaf_check(doctor_table(), toks, start, doctor_check(leaf_acc(doctor_table(), toks, start)))
}

/// Whether `update` at `start` is accepted.
pub open spec fn update_level_check(toks: Seq<Seq<char>>, start: nat) -> Result<(), Failure> {
    leaf_check(update_table(), toks, start, repetition_check(update_table(), leaf_acc(update_table(), toks, start)))
}

/// Whether `build` (or, with `run`, `run`) at `start`, with its platform, is accepted.
pub open spec fn platform_check(toks: Seq<Seq<char>>, start: nat, run: bool) -> Result<(), Failure> {
    match level(selector_table(), platform_subs(), toks, start) {
        Scanned::Failed(f) => Err(f),
        Scanned::Done(_) => Err(failure(ErrorKind::MissingSubcommand, Seq::empty())),
        Scanned::Sub(_, k, next) => {
            if k == 0 {
                android_level_check(toks, next, run)
            } else if k == 1 {
                if run { ios_run_level_check(toks, next) } else { ios_build_level_check(toks, next) }
            } else {
                Err(failure(ErrorKind::DisplayHelp, "help"@))
            }
        },
    }
}

/// Whether the command named by index `k`, whose level starts at `next`, is accepted.
pub open spec fn command_check(toks: Seq<Seq<char>>, k: nat, next: nat) -> Result<(), Failure> {
    if k == 0 {
        platform_check(toks, next, false)
    } else if k == 1 {
        doctor_level_check(toks, next)
    } else if k == 2 {
        platform_check(toks, next, true)
    } else if k == 3 {
        install_check(toks, next)
    } else if k == 4 {
        update_level_check(toks, next)
    } else {
        Err(failure(ErrorKind::DisplayHelp, "help"@))
    }
}

/// Whether the command line `toks` (its first token the program's name) is
/// accepted; the error says why not, or that help or the version was asked for.
pub open spec fn opts_check(toks: Seq<Seq<char>>) -> Result<(), Failure> {
    match level(top_table(), top_subs(), toks, 1) {
        Scanned::Failed(f) => Err(f),
        Scanned::Done(acc) => {
            if repetition_check(top_table(), acc) is Err {
                repetition_check(top_table(), acc)
            } else {
                Err(failure(ErrorKind::MissingSubcommand, Seq::empty()))
            }
        },
        Scanned::Sub(acc, k, next) => {
            if repetition_check(top_table(), acc) is Err {
                repetition_check(top_table(), acc)
            } else {
                command_check(toks, k, next)
            }
        },
    }
}

/// A command line whose first argument asks for help is answered with the
/// help text (exit code 0), whatever follows.
pub proof fn lemma_help_is_answered(toks: Seq<Seq<char>>)
    requires
        toks.len() >= 2,
        toks[1] == "--help"@,
    ensures
        opts_check(toks) == Err::<(), Failure>(failure(ErrorKind::DisplayHelp, "--help"@)),
        exit_code_of(ErrorKind::DisplayHelp) == 0,
{
    reveal_strlit("--help");
    reveal_strlit("help");
    reveal_strlit("current-dir");
    reveal_strlit("verbose");
    reveal_strlit("quiet");
    let t = toks[1];
    let body = t.subrange(2, t.len() as int);
    assert(body =~= "help"@);
    assert(find_char_from(body, '=', 0) is None) by {
        reveal_with_fuel(find_char_from, 5);
    }
    let table = top_table();
    assert(table[0].long != "help"@ && table[1].long != "help"@ && table[2].long != "help"@);
    assert(find_long_from(table, "help"@, 0) == Some(3nat)) by {
        reveal_with_fuel(find_long_from, 4);
    }
    assert(seq!['-', '-'] + "help"@ =~= "--help"@);
    assert(t != seq!['-', '-']);
    assert(step(table, top_subs(), toks, 1, 0, Seq::empty()) == fail(ErrorKind::DisplayHelp, "--help"@));
}

/// A command line whose first argument asks for the version is answered with
/// the version (exit code 0), whatever follows.
pub proof fn lemma_version_is_answered(toks: Seq<Seq<char>>)
    requires
        toks.len() >= 2,
        toks[1] == "--version"@,
    ensures
        opts_check(toks) == Err::<(), Failure>(failure(ErrorKind::DisplayVersion, "--version"@)),
        exit_code_of(ErrorKind::DisplayVersion) == 0,
{
    reveal_strlit("--version");
    reveal_strlit("version");
    reveal_strlit("help");
    reveal_strlit("current-dir");
    reveal_strlit("verbose");
    reveal_strlit("quiet");
    let t = toks[1];
    let body = t.subrange(2, t.len() as int);
    assert(body =~= "version"@);
    assert(find_char_from(body, '=', 0) is None) by {
        reveal_with_fuel(find_char_from, 8);
    }
    let table = top_table();
    assert(table[0].long != "version"@ && table[2].long != "version"@ && table[3].long != "version"@);
    assert(table[1].long != "version"@) by {
        assert("verbose"@[3] != "version"@[3]);
    }
    assert(find_long_from(table, "version"@, 0) == Some(4nat)) by {
        reveal_with_fuel(find_long_from, 5);
    }
    assert(seq!['-', '-'] + "version"@ =~= "--version"@);
    assert(t != seq!['-', '-']);
    assert(step(table, top_subs(), toks, 1, 0, Seq::empty()) == fail(ErrorKind::DisplayVersion, "--version"@));
}

/// What an accepted `build` (or `run`) level at `start` says of its platform.
pub open spec fn build_fields(toks: Seq<Seq<char>>, start: nat, c: BuildCommand) -> bool {
    match level(selector_table(), platform_subs(), toks, start) {
        Scanned::Sub(_, k, next) => match c {
            BuildCommand::Android(a) => k == 0 && android_fields(leaf_acc(android_table(false), toks, next), a),
            BuildCommand::Ios(i) => k == 1 && ios_fields(leaf_acc(ios_table(false), toks, next), i),
        },
        _ => false,
    }
}

/// What an accepted `run` level at `start` says of its platform.
pub open spec fn run_fields(toks: Seq<Seq<char>>, start: nat, c: RunCommand) -> bool {
    match level(selector_table(), platform_subs(), toks, start) {
        Scanned::Sub(_, k, next) => match c {
            RunCommand::Android(a) => k == 0 && android_run_fields(leaf_acc(android_table(true), toks, next), a),
            RunCommand::Ios(i) => k == 1 && ios_run_fields(leaf_acc(ios_table(true), toks, next), i),
        },
        _ => false,
    }
}

/// What the accepted command named by index `k`, at `next`, says.
pub open spec fn command_fields(toks: Seq<Seq<char>>, k: nat, next: nat, c: Commands) -> bool {
    match c {
        Commands::Build(b) => k == 0 && build_fields(toks, next, b),
        Commands::Doctor(d) => k == 1 && doctor_fields(leaf_acc(doctor_table(), toks, next), d),
        Commands::Run(r) => k == 2 && run_fields(toks, next, r),
        Commands::Install(i) => k == 3 && install_fields(toks, next, i),
        Commands::Update(u) => k == 4 && update_fields(leaf_acc(update_table(), toks, next), u),
    }
}

/// How many times `--verbose` was given, counting up to 255.
pub open spec fn verbose_count(acc: Seq<Occ>) -> u8 {
    let n = values_of(acc, 1).len();
    if n > 255 { 255u8 } else { n as u8 }
}

/// What an accepted command line `toks` says.
pub open spec fn opts_fields(toks: Seq<Seq<char>>, o: Opts) -> bool {
    match level(top_table(), top_subs(), toks, 1) {
        Scanned::Sub(acc, k, next) => {
            &&& opt_view(o.current_dir) == first_of(acc, 0)
            &&& o.verbose == verbose_count(acc)
            &&& o.quiet == given(acc, 2)
            &&& command_fields(toks, k, next, o.cmd)
        },
        _ => false,
    }
}

fn parse_android_build(toks: &[&str], start: usize) -> (r: Result<AndroidBuildCommand, ParseError>)
    ensures
        match r {
            Ok(c) => android_level_check(toks.deep_view(), start as nat, false) is Ok
                && android_fields(leaf_acc(android_table(false), toks.deep_view(), start as nat), c),
            Err(e) => android_level_check(toks.deep_view(), start as nat, false) == Err::<(), Failure>(e@),
        },
{
    let defs = android_defs(false);
    let acc = leaf_occurrences(&defs, toks, start)?;
    android_from(&acc, false)
}

fn parse_android_run(toks: &[&str], start: usize) -> (r: Result<AndroidRunCommand, ParseError>)
    ensures
        match r {
            Ok(c) => android_level_check(toks.deep_view(), start as nat, true) is Ok
                && android_run_fields(leaf_acc(android_table(true), toks.deep_view(), start as nat), c),
            Err(e) => android_level_check(toks.deep_view(), start as nat, true) == Err::<(), Failure>(e@),
        },
{
    let defs = android_defs(true);
    let acc = leaf_occurrences(&defs, toks, start)?;
    android_run_from(&acc)
}

fn parse_ios_build(toks: &[&str], start: usize) -> (r: Result<IosBuildCommand, ParseError>)
    ensures
        match r {
            Ok(c) => ios_build_level_check(toks.deep_view(), start as nat) is Ok
                && ios_fields(leaf_acc(ios_table(false), toks.deep_view(), start as nat), c),
            Err(e) => ios_build_level_check(toks.deep_view(), start as nat) == Err::<(), Failure>(e@),
        },
{
    let defs = ios_defs(false);
    let acc = leaf_occurrences(&defs, toks, start)?;
    ios_from(&acc, false)
}

fn parse_ios_run(toks: &[&str], start: usize) -> (r: Result<IosRunCommand, ParseError>)
    ensures
        match r {
            Ok(c) => ios_run_level_check(toks.deep_view(), start as nat) is Ok
                && ios_run_fields(leaf_acc(ios_table(true), toks.deep_view(), start as nat), c),
            Err(e) => ios_run_level_check(toks.deep_view(), start as nat) == Err::<(), Failure>(e@),
        },
{
    let defs = ios_defs(true);
    let acc = leaf_occurrences(&defs, toks, start)?;
    ios_run_from(&acc)
}

fn parse_doctor(toks: &[&str], start: usize) -> (r: Result<DoctorCommand, ParseError>)
    ensures
        match r {
            Ok(c) => doctor_level_check(toks.deep_view(), start as nat) is Ok
                && doctor_fields(leaf_acc(doctor_table(), toks.deep_view(), start as nat), c),
            Err(e) => doctor_level_check(toks.deep_view(), start as nat) == Err::<(), Failure>(e@),
        },
{
    let defs = doctor_defs();
    let acc = leaf_occurrences(&defs, toks, start)?;
    doctor_from(&acc)
}

fn parse_update(toks: &[&str], start: usize) -> (r: Result<UpdateCommand, ParseError>)
    ensures
        match r {
            Ok(c) => update_level_check(toks.deep_view(), start as nat) is Ok
                && update_fields(leaf_acc(update_table(), toks.deep_view(), start as nat), c),
            Err(e) => update_level_check(toks.deep_view(), start as nat) == Err::<(), Failure>(e@),
        },
{
    let defs = update_defs();
    let acc = leaf_occurrences(&defs, toks, start)?;
    update_from(&acc)
}

fn parse_build(toks: &[&str], start: usize) -> (r: Result<BuildCommand, ParseError>)
    ensures
        match r {
            Ok(c) => platform_check(toks.deep_view(), start as nat, false) is Ok && build_fields(toks.deep_view(), start as nat, c),
            Err(e) => platform_check(toks.deep_view(), start as nat, false) == Err::<(), Failure>(e@),
        },
{
    let defs = selector_defs();
    let subs = platform_sub_names();
    match scan_level(&defs, &subs, toks, start) {
        ScanOutcome::Failed(e) => Err(e),
        ScanOutcome::Done(_) => {
            Err(ParseError::bare(ErrorKind::MissingSubcommand))
        },
        ScanOutcome::Sub(_, k, next) => {
            if k == 0 {
                match parse_android_build(toks, next) {
                Ok(c) => Ok(BuildCommand::Android(c)),
                Err(e) => Err(e),
            }
            } else if k == 1 {
                match parse_ios_build(toks, next) {
                Ok(c) => Ok(BuildCommand::Ios(c)),
                Err(e) => Err(e),
            }
            } else {
                Err(ParseError::new(ErrorKind::DisplayHelp, "help"))
            }
        },
    }
}

fn parse_run(toks: &[&str], start: usize) -> (r: Result<RunCommand, ParseError>)
    ensures
        match r {
            Ok(c) => platform_check(toks.deep_view(), start as nat, true) is Ok && run_fields(toks.deep_view(), start as nat, c),
            Err(e) => platform_check(toks.deep_view(), start as nat, true) == Err::<(), Failure>(e@),
        },
{
    let defs = selector_defs();
    let subs = platform_sub_names();
    match scan_level(&defs, &subs, toks, start) {
        ScanOutcome::Failed(e) => Err(e),
        ScanOutcome::Done(_) => {
            Err(ParseError::bare(ErrorKind::MissingSubcommand))
        },
        ScanOutcome::Sub(_, k, next) => {
            if k == 0 {
                match parse_android_run(toks, next) {
                Ok(c) => Ok(RunCommand::Android(c)),
                Err(e) => Err(e),
            }
            } else if k == 1 {
                match parse_ios_run(toks, next) {
                Ok(c) => Ok(RunCommand::Ios(c)),
                Err(e) => Err(e),
            }
            } else {
                Err(ParseError::new(ErrorKind::DisplayHelp, "help"))
            }
        },
    }
}

fn parse_command(toks: &[&str], k: usize, next: usize) -> (r: Result<Commands, ParseError>)
    ensures
        match r {
            Ok(c) => command_check(toks.deep_view(), k as nat, next as nat) is Ok
                && command_fields(toks.deep_view(), k as nat, next as nat, c),
            Err(e) => command_check(toks.deep_view(), k as nat, next as nat) == Err::<(), Failure>(e@),
        },
{
    if k == 0 {
        match parse_build(toks, next) {
                Ok(c) => Ok(Commands::Build(c)),
                Err(e) => Err(e),
            }
    } else if k == 1 {
        match parse_doctor(toks, next) {
                Ok(c) => Ok(Commands::Doctor(c)),
                Err(e) => Err(e),
            }
    } else if k == 2 {
        match parse_run(toks, next) {
                Ok(c) => Ok(Commands::Run(c)),
                Err(e) => Err(e),
            }
    } else if k == 3 {
        match parse_install(toks, next) {
                Ok(c) => Ok(Commands::Install(c)),
                Err(e) => Err(e),
            }
    } else if k == 4 {
        match parse_update(toks, next) {
                Ok(c) => Ok(Commands::Update(c)),
                Err(e) => Err(e),
            }
    } else {
        Err(ParseError::new(ErrorKind::DisplayHelp, "help"))
    }
}

impl Opts {
    /// Reads the command line `args`, whose first item is the program's name.
    /// The error says why the command line was not accepted, or that it asked
    /// for help or the version (exit code 0).
    pub fn try_parse_from(args: &[&str]) -> (r: Result<Opts, ParseError>)
        ensures
            match r {
                Ok(o) => opts_check(args.deep_view()) is Ok && opts_fields(args.deep_view(), o),
                Err(e) => opts_check(args.deep_view()) == Err::<(), Failure>(e@),
            },
    {
        let defs = top_defs();
        let subs = top_sub_names();
        match scan_level(&defs, &subs, args, 1) {
            ScanOutcome::Failed(e) => Err(e),
            ScanOutcome::Done(acc) => {
                check_repeats(&defs, &acc)?;
                    Err(ParseError::bare(ErrorKind::MissingSubcommand))
            },
            ScanOutcome::Sub(acc, k, next) => {
                check_repeats(&defs, &acc)?;
                let n = count_of(&acc, 1);
                let verbose: u8 = if n > 255 { 255 } else { n as u8 };
                let current_dir = first(&acc, 0);
                let quiet = is_given(&acc, 2);
                match parse_command(args, k, next) {
                    Ok(cmd) => Ok(Opts { current_dir, verbose, quiet, cmd }),
                    Err(e) => Err(e),
                }
            },
        }
    }
}

/// Two options that can be told apart: different long names, and different
/// short names where the first has one.
pub open spec fn distinct_options(a: ArgSpec, b: ArgSpec) -> bool {
    a.long != b.long && (a.short is Some ==> a.short != b.short)
}

/// A table in which every two options can be told apart.
pub open spec fn table_is_consistent(defs: Seq<ArgSpec>) -> bool {
    forall|i: int, j: int| 0 <= i < j < defs.len() ==> #[trigger] distinct_options(defs[i], defs[j])
        && distinct_options(defs[j], defs[i])
}

/// A list of subcommand names in which no name occurs twice.
pub open spec fn names_are_distinct(names: Seq<Seq<char>>) -> bool {
    forall|i: int, j: int| 0 <= i < j < names.len() ==> names[i] != names[j]
}

fn options_apart(a: &ArgDef, b: &ArgDef) -> (r: bool)
    ensures r == (distinct_options(a@, b@) && distinct_options(b@, a@)),
{
    let long_differs = !crate::text::str_eq(a.long, b.long);
    let short_differs = match (a.short, b.short) {
        (Some(x), Some(y)) => x != y,
        _ => true,
    };
    long_differs && short_differs
}

/// Whether every two options of a table can be told apart.
#[verifier::spinoff_prover]
pub fn check_table(defs: &Vec<ArgDef>) -> (r: bool)
    ensures r == table_is_consistent(defs_view(defs@)),
{
    let ghost dv = defs_view(defs@);
    let mut i: usize = 0;
    while i < defs.len()
        invariant
            i <= defs.len(),
            dv == defs_view(defs@),
            dv.len() == defs.len(),
            forall|a: int, b: int| 0 <= a < i && a < b < dv.len() ==> #[trigger] distinct_options(dv[a], dv[b])
                && distinct_options(dv[b], dv[a]),
        decreases defs.len() - i,
    {
        let mut j: usize = i + 1;
        while j < defs.len()
            invariant
                i < defs.len(),
                i + 1 <= j <= defs.len(),
                dv == defs_view(defs@),
                dv.len() == defs.len(),
                forall|a: int, b: int| 0 <= a < i && a < b < dv.len() ==> #[trigger] distinct_options(dv[a], dv[b])
                    && distinct_options(dv[b], dv[a]),
                forall|b: int| i < b < j ==> #[trigger] distinct_options(dv[i as int], dv[b])
                    && distinct_options(dv[b], dv[i as int]),
            decreases defs.len() - j,
        {
            if !options_apart(&defs[i], &defs[j]) {
                assert(!(distinct_options(dv[i as int], dv[j as int]) && distinct_options(dv[j as int], dv[i as int])));
                return false;
            }
            j = j + 1;
        }
        assert forall|a: int, b: int| 0 <= a < i + 1 && a < b < dv.len() implies #[trigger] distinct_options(dv[a], dv[b])
            && distinct_options(dv[b], dv[a]) by {
            if a == i as int {
                assert(distinct_options(dv[i as int], dv[b]) && distinct_options(dv[b], dv[i as int]));
            }
        }
        i = i + 1;
    }
    assert forall|a: int, b: int| 0 <= a < b < dv.len() implies #[trigger] distinct_options(dv[a], dv[b])
        && distinct_options(dv[b], dv[a]) by {
        assert(0 <= a < i && a < b < dv.len());
    }
    assert(table_is_consistent(dv));
    true
}

/// Whether no subcommand name occurs twice.
pub fn check_names(names: &Vec<&'static str>) -> (r: bool)
    ensures r == names_are_distinct(names.deep_view()),
{
    let ghost nv = names.deep_view();
    let mut i: usize = 0;
    while i < names.len()
        invariant
            i <= names.len(),
            nv == names.deep_view(),
            nv.len() == names.len(),
            forall|a: int, b: int| 0 <= a < i && a < b < nv.len() ==> nv[a] != nv[b],
        decreases names.len() - i,
    {
        let mut j: usize = i + 1;
        while j < names.len()
            invariant
                i < names.len(),
                i + 1 <= j <= names.len(),
                nv == names.deep_view(),
                nv.len() == names.len(),
                forall|a: int, b: int| 0 <= a < i && a < b < nv.len() ==> nv[a] != nv[b],
                forall|b: int| i < b < j ==> nv[i as int] != nv[b],
            decreases names.len() - j,
        {
            assert(nv[i as int] == names@[i as int]@ && nv[j as int] == names@[j as int]@);
            if crate::text::str_eq(names[i], names[j]) {
                return false;
            }
            j = j + 1;
        }
        i = i + 1;
    }
    true
}

/// Whether the whole command line definition is consistent: in every level,
/// options can be told apart by their long and short names, and no
/// subcommand name occurs twice.
pub open spec fn definition_consistent() -> bool {
    &&& table_is_consistent(top_table()) && names_are_distinct(top_subs())
    &&& table_is_consistent(selector_table()) && names_are_distinct(platform_subs())
    &&& table_is_consistent(android_table(false)) && table_is_consistent(android_table(true))
    &&& table_is_consistent(ios_table(false)) && table_is_consistent(ios_table(true))
    &&& table_is_consistent(doctor_table()) && table_is_consistent(update_table())
    &&& table_is_consistent(install_table()) && names_are_distinct(install_subs())
    &&& table_is_consistent(bundletool_table()) && table_is_consistent(command_line_tools_table())
    &&& table_is_consistent(sdkmanager_table())
}

/// Checks the whole command line definition for consistency.
pub fn definition_is_consistent() -> (r: bool)
    ensures r == definition_consistent(),
{
    let a = check_table(&top_defs()) && check_names(&top_sub_names());
    let b = check_table(&selector_defs()) && check_names(&platform_sub_names());
    let c = check_table(&android_defs(false)) && check_table(&android_defs(true));
    let d = check_table(&ios_defs(false)) && check_table(&ios_defs(true));
    let e = check_table(&doctor_defs()) && check_table(&update_defs());
    let f = check_table(&install_defs()) && check_names(&install_sub_names());
    let g = check_table(&bundletool_defs()) && check_table(&command_line_tools_defs());
    let h = check_table(&sdkmanager_defs());
    a && b && c && d && e && f && g && h
}

/// On the Android build level, `--lib=value` as the level's first option
/// keeps its value: the command compiles the library named `value` (the
/// default `crossbow_android` is only for a `--lib` written without one).
pub proof fn lemma_android_lib_inline_value_is_kept(
    toks: Seq<Seq<char>>,
    start: nat,
    run: bool,
    value: Seq<char>,
    c: AndroidBuildCommand,
)
    requires
        start < toks.len(),
        toks[start as int] == "--lib="@ + value,
        android_level_check(toks, start, run) is Ok,
        android_fields(leaf_acc(android_table(run), toks, start), c),
    ensures
        c.lib is Some,
        c.lib->0@ == value,
{
    let defs = android_table(run);
    let name = "lib"@;
    reveal_strlit("lib");
    reveal_strlit("--lib=");
    assert(toks[start as int] =~= seq!['-', '-'] + name + seq!['='] + value);
    lemma_android_table_finds_lib(run);
    lemma_inline_value_is_recorded(defs, Seq::empty(), toks, start, Seq::empty(), name, value, 8);
    let occ = Occ { arg: 8, value: Some(value) };
    let a = Seq::<Occ>::empty().push(occ);
    assert(step(defs, Seq::empty(), toks, start, 0, Seq::empty()) == Step::Next(start + 1, 0, a));
    assert(level(defs, Seq::empty(), toks, start) == scan(defs, Seq::empty(), toks, start + 1, 0, a));
    lemma_scan_keeps_earlier(defs, Seq::empty(), toks, start + 1, 0, a);
    let r = leaf_acc(defs, toks, start);
    assert(level(defs, Seq::empty(), toks, start) == Scanned::Done(r));
    assert(r[0] == r.subrange(0, 1)[0]);
    lemma_values_of_first(r, 8);
}

/// On the Android build level, a bare `--lib` as the level's first option,
/// with no value after it, compiles the default library `crossbow_android`;
/// followed by a value, it compiles the library of that name.
pub proof fn lemma_android_bare_lib_takes_default(
    toks: Seq<Seq<char>>,
    start: nat,
    run: bool,
    c: AndroidBuildCommand,
)
    requires
        start < toks.len(),
        toks[start as int] == "--lib"@,
        android_level_check(toks, start, run) is Ok,
        android_fields(leaf_acc(android_table(run), toks, start), c),
    ensures
        !(start + 1 < toks.len() && is_value_token(toks[start + 1int])) ==> c.lib is Some && c.lib->0@ == "crossbow_android"@,
        (start + 1 < toks.len() && is_value_token(toks[start + 1int])) ==> c.lib is Some && c.lib->0@ == toks[start + 1int],
{
    let defs = android_table(run);
    let name = "lib"@;
    reveal_strlit("lib");
    reveal_strlit("--lib");
    assert(toks[start as int] =~= seq!['-', '-'] + name);
    lemma_android_table_finds_lib(run);
    lemma_optional_value_without_inline(defs, Seq::empty(), toks, start, Seq::empty(), name, 8);
    let following = start + 1 < toks.len() && is_value_token(toks[start + 1int]);
    let occ = if following { Occ { arg: 8, value: Some(toks[start + 1int]) } } else { Occ { arg: 8, value: None } };
    let next: nat = if following { start + 2 } else { start + 1 };
    let a = Seq::<Occ>::empty().push(occ);
    assert(step(defs, Seq::empty(), toks, start, 0, Seq::empty()) == Step::Next(next, 0, a));
    assert(level(defs, Seq::empty(), toks, start) == scan(defs, Seq::empty(), toks, next, 0, a));
    lemma_scan_keeps_earlier(defs, Seq::empty(), toks, next, 0, a);
    let r = leaf_acc(defs, toks, start);
    assert(level(defs, Seq::empty(), toks, start) == Scanned::Done(r));
    assert(r[0] == r.subrange(0, 1)[0]);
    lemma_values_of_first(r, 8);
}

proof fn lemma_android_table_finds_lib(run: bool)
    ensures
        find_long_from(android_table(run), "lib"@, 0) == Some(8nat),
        android_table(run).len() > 8,
        android_table(run)[8].kind == ArgKind::OptionalValue,
{
    let defs = android_table(run);
    reveal_strlit("lib");
    reveal_strlit("example");
    reveal_strlit("features");
    reveal_strlit("all-features");
    reveal_strlit("no-default-features");
    reveal_strlit("release");
    reveal_strlit("target-dir");
    reveal_strlit("target");
    reveal_strlit("strategy");
    assert(defs[8].long == "lib"@);
    assert(defs[7].long != "lib"@);
    assert(defs[6].long != "lib"@);
    assert(defs[5].long != "lib"@);
    assert(defs[4].long != "lib"@);
    assert(defs[3].long != "lib"@);
    assert(defs[2].long != "lib"@);
    assert(defs[1].long != "lib"@);
    assert(defs[0].long != "lib"@);
    assert(find_long_from(defs, "lib"@, 8) == Some(8nat));
    assert(find_long_from(defs, "lib"@, 7) == Some(8nat));
    assert(find_long_from(defs, "lib"@, 6) == Some(8nat));
    assert(find_long_from(defs, "lib"@, 5) == Some(8nat));
    assert(find_long_from(defs, "lib"@, 4) == Some(8nat));
    assert(find_long_from(defs, "lib"@, 3) == Some(8nat));
    assert(find_long_from(defs, "lib"@, 2) == Some(8nat));
    assert(find_long_from(defs, "lib"@, 1) == Some(8nat));
}

} // verus!
