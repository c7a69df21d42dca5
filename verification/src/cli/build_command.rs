//! The `build` command: its options for Android and iOS, and how they are read
//! from the command line.
use vstd::prelude::*;
use crate::argv::opt_view;
use crate::argv::{join, join_strings};
use crate::cli::choices::{
    AndroidRuntime, AndroidStrategy, IosTarget, host_simulator_of, ios_target_of_text, runtime_text, strategy_of_text,
};
use crate::text::str_eq;
use crate::cli::grammar::{
    ArgDef, ArgKind, ArgSpec, ErrorKind, Failure, Occ, Occurrence, ParseError, defs_view, failure, occs_view,
};
use crate::cli::table::{arg_spec, help_spec, lemma_parse_each_prefix_err, lemma_parse_each_step, parse_each, push_def, push_help};
use crate::cli::values::{
    check_repeats, first, first_of, given, is_given, optional, optional_of, repetition_check, texts, texts_of,
};
use crate::types::build_target::{AndroidTarget, android_target_of_triple};
use crate::types::profile::Profile;

verus! {

/// The options shared by the Android and iOS builds.
#[derive(Debug, Clone, Default)]
pub struct SharedBuildCommand {
    /// Build the specified example
    pub example: Option<String>,
    /// Features to activate; the option may be repeated
    pub features: Vec<String>,
    /// Activate all available features of selected package
    pub all_features: bool,
    /// Do not activate the `default` feature of the current directory's package
    pub no_default_features: bool,
    /// Build optimized artifact with the `release` profile
    pub release: bool,
    /// Directory for generated artifact and intermediate files
    pub target_dir: Option<String>,
}

impl SharedBuildCommand {
    /// The profile the build uses: release when asked for, debug otherwise.
    pub fn profile(&self) -> (r: Profile)
        ensures r == (if self.release { Profile::Release } else { Profile::Debug }),
    {
        if self.release { Profile::Release } else { Profile::Debug }
    }
}

/// The options of an Android build.
#[derive(Debug, Clone)]
pub struct AndroidBuildCommand {
    pub shared: SharedBuildCommand,
    /// Build for the given android architectures
    pub target: Vec<AndroidTarget>,
    /// What and how to build
    pub strategy: AndroidStrategy,
    /// Only compile rust code as a dynamic library of this name
    pub lib: Option<String>,
    /// Path to export the Gradle project to
    pub export_path: Option<String>,
    /// Path to the signing key
    pub sign_key_path: Option<String>,
    /// Signing key password
    pub sign_key_pass: Option<String>,
    /// Signing key alias
    pub sign_key_alias: Option<String>,
    /// Print the build plan without creating files or running commands
    pub dry_run: bool,
    /// Emit the dry-run plan as JSON
    pub json: bool,
}

/// The options of an iOS build.
#[derive(Debug, Clone)]
pub struct IosBuildCommand {
    pub shared: SharedBuildCommand,
    /// Build the specified Cargo binary target
    pub bin: Option<String>,
    /// Build for the given iOS Rust targets
    pub target: Vec<IosTarget>,
    /// Absolute path to provisioning profile
    pub profile_path: Option<String>,
    /// Apple Developer Team ID
    pub team_id: Option<String>,
    /// Certificate name or SHA-1 hash used to sign the application
    pub signing_identity: Option<String>,
}

/// The `build` subcommands.
#[derive(Debug, Clone)]
pub enum BuildCommand {
    /// Builds, packages and signs the crate for Android
    Android(AndroidBuildCommand),
    /// Builds, packages and signs the crate for iOS
    Ios(IosBuildCommand),
}

/// The options of both builds, at indices 0 to 5 of their tables.
pub open spec fn shared_table() -> Seq<ArgSpec> {
    seq![
        arg_spec("example"@, None, ArgKind::Single),
        arg_spec("features"@, None, ArgKind::Append),
        arg_spec("all-features"@, None, ArgKind::Flag),
        arg_spec("no-default-features"@, None, ArgKind::Flag),
        arg_spec("release"@, None, ArgKind::Flag),
        arg_spec("target-dir"@, None, ArgKind::Single),
    ]
}

/// The options of an Android build; `run` adds the option `--log` of `run android`.
pub open spec fn android_table(run: bool) -> Seq<ArgSpec> {
    shared_table() + seq![
        arg_spec("target"@, Some('t'), ArgKind::Append),
        arg_spec("strategy"@, Some('s'), ArgKind::Single),
        arg_spec("lib"@, None, ArgKind::OptionalValue),
        arg_spec("export-path"@, None, ArgKind::Single),
        arg_spec("sign-key-path"@, None, ArgKind::Single),
        arg_spec("sign-key-pass"@, None, ArgKind::Single),
        arg_spec("sign-key-alias"@, None, ArgKind::Single),
        arg_spec("dry-run"@, None, ArgKind::Flag),
        arg_spec("json"@, None, ArgKind::Flag),
    ] + (if run { seq![arg_spec("log"@, None, ArgKind::Flag)] } else { Seq::empty() }) + seq![help_spec()]
}

/// The options of an iOS build; `run` adds the options of `run ios`.
pub open spec fn ios_table(run: bool) -> Seq<ArgSpec> {
    shared_table() + seq![
        arg_spec("bin"@, None, ArgKind::Single),
        arg_spec("target"@, Some('t'), ArgKind::Append),
        arg_spec("profile-path"@, None, ArgKind::Single),
        arg_spec("team-id"@, None, ArgKind::Single),
        arg_spec("signing-identity"@, None, ArgKind::Single),
    ] + (if run {
        seq![
            arg_spec("simulator"@, Some('s'), ArgKind::Single),
            arg_spec("no-open"@, None, ArgKind::Flag),
            arg_spec("detach"@, None, ArgKind::Flag),
            arg_spec("debug"@, None, ArgKind::Flag),
            arg_spec("device"@, Some('d'), ArgKind::Flag),
            arg_spec("device-id"@, Some('D'), ArgKind::Single),
        ]
    } else {
        Seq::empty()
    }) + seq![help_spec()]
}

fn push_shared_defs(defs: &mut Vec<ArgDef>)
    ensures defs_view(final(defs)@) == defs_view(old(defs)@) + shared_table(),
{
    let ghost start = defs_view(defs@);
    push_def(defs, "example", None, ArgKind::Single);
    push_def(defs, "features", None, ArgKind::Append);
    push_def(defs, "all-features", None, ArgKind::Flag);
    push_def(defs, "no-default-features", None, ArgKind::Flag);
    push_def(defs, "release", None, ArgKind::Flag);
    push_def(defs, "target-dir", None, ArgKind::Single);
    assert(defs_view(defs@) =~= start + shared_table());
}

/// The option table of an Android build.
pub fn android_defs(run: bool) -> (r: Vec<ArgDef>)
    ensures defs_view(r@) == android_table(run),
{
    let mut defs: Vec<ArgDef> = Vec::new();
    push_shared_defs(&mut defs);
    let ghost base = defs_view(defs@);
    push_def(&mut defs, "target", Some('t'), ArgKind::Append);
    push_def(&mut defs, "strategy", Some('s'), ArgKind::Single);
    push_def(&mut defs, "lib", None, ArgKind::OptionalValue);
    push_def(&mut defs, "export-path", None, ArgKind::Single);
    push_def(&mut defs, "sign-key-path", None, ArgKind::Single);
    push_def(&mut defs, "sign-key-pass", None, ArgKind::Single);
    push_def(&mut defs, "sign-key-alias", None, ArgKind::Single);
    push_def(&mut defs, "dry-run", None, ArgKind::Flag);
    push_def(&mut defs, "json", None, ArgKind::Flag);
    let ghost mid = defs_view(defs@);
    if run {
        push_def(&mut defs, "log", None, ArgKind::Flag);
    }
    let ghost with_run = defs_view(defs@);
    push_help(&mut defs);
    assert(base =~= Seq::<ArgSpec>::empty() + shared_table());
    assert(defs_view(defs@) =~= android_table(run));
    defs
}

/// The option table of an iOS build.
pub fn ios_defs(run: bool) -> (r: Vec<ArgDef>)
    ensures defs_view(r@) == ios_table(run),
{
    let mut defs: Vec<ArgDef> = Vec::new();
    push_shared_defs(&mut defs);
    let ghost base = defs_view(defs@);
    push_def(&mut defs, "bin", None, ArgKind::Single);
    push_def(&mut defs, "target", Some('t'), ArgKind::Append);
    push_def(&mut defs, "profile-path", None, ArgKind::Single);
    push_def(&mut defs, "team-id", None, ArgKind::Single);
    push_def(&mut defs, "signing-identity", None, ArgKind::Single);
    if run {
        push_def(&mut defs, "simulator", Some('s'), ArgKind::Single);
        push_def(&mut defs, "no-open", None, ArgKind::Flag);
        push_def(&mut defs, "detach", None, ArgKind::Flag);
        push_def(&mut defs, "debug", None, ArgKind::Flag);
        push_def(&mut defs, "device", Some('d'), ArgKind::Flag);
        push_def(&mut defs, "device-id", Some('D'), ArgKind::Single);
    }
    push_help(&mut defs);
    assert(base =~= Seq::<ArgSpec>::empty() + shared_table());
    assert(defs_view(defs@) =~= ios_table(run));
    defs
}

/// What the shared options of a build level say.
pub open spec fn shared_fields(acc: Seq<Occ>, s: SharedBuildCommand) -> bool {
    &&& opt_view(s.example) == first_of(acc, 0)
    &&& s.features.deep_view() == texts_of(acc, 1)
    &&& s.all_features == given(acc, 2)
    &&& s.no_default_features == given(acc, 3)
    &&& s.release == given(acc, 4)
    &&& opt_view(s.target_dir) == first_of(acc, 5)
}

/// Reads the shared options of a build level.
pub fn shared_from(acc: &Vec<Occurrence>) -> (r: SharedBuildCommand)
    ensures shared_fields(occs_view(acc@), r),
{
    SharedBuildCommand {
        example: first(acc, 0),
        features: texts(acc, 1),
        all_features: is_given(acc, 2),
        no_default_features: is_given(acc, 3),
        release: is_given(acc, 4),
        target_dir: first(acc, 5),
    }
}

/// Reading an Android target from its Rust triple.
pub open spec fn android_target_reader() -> spec_fn(Seq<char>) -> Option<AndroidTarget> {
    |s: Seq<char>| android_target_of_triple(s)
}

/// Reading an iOS target from its Rust triple.
pub open spec fn ios_target_reader() -> spec_fn(Seq<char>) -> Option<IosTarget> {
    |s: Seq<char>| ios_target_of_text(s)
}

/// Reads Android targets from their Rust triples; the error is the first text
/// that names none.
pub fn read_android_targets(list: &Vec<String>) -> (r: Result<Vec<AndroidTarget>, String>)
    ensures
        match r {
            Ok(v) => parse_each(list.deep_view(), android_target_reader()) == Ok::<Seq<AndroidTarget>, Seq<char>>(v@),
            Err(e) => parse_each(list.deep_view(), android_target_reader()) == Err::<Seq<AndroidTarget>, Seq<char>>(e@),
        },
{
    let ghost lv = list.deep_view();
    let ghost f = android_target_reader();
    let mut out: Vec<AndroidTarget> = Vec::new();
    let mut idx: usize = 0;
    assert(lv.take(0) =~= Seq::<Seq<char>>::empty());
    while idx < list.len()
        invariant
            idx <= list.len(),
            lv == list.deep_view(),
            f == android_target_reader(),
            parse_each(lv.take(idx as int), f) == Ok::<Seq<AndroidTarget>, Seq<char>>(out@),
        decreases list.len() - idx,
    {
        proof { lemma_parse_each_step(lv, f, idx as int); }
        assert(lv[idx as int] == list@[idx as int]@);
        match AndroidTarget::from_str(list[idx].as_str()) {
            Ok(t) => {
                out.push(t);
            },
            Err(_) => {
                proof { lemma_parse_each_prefix_err(lv, f, idx + 1); }
                return Err(list[idx].clone());
            },
        }
        idx = idx + 1;
    }
    assert(lv.take(list.len() as int) =~= lv);
    Ok(out)
}

/// Reads iOS targets from their Rust triples; the error is the first text
/// that names none.
pub fn read_ios_targets(list: &Vec<String>) -> (r: Result<Vec<IosTarget>, String>)
    ensures
        match r {
            Ok(v) => parse_each(list.deep_view(), ios_target_reader()) == Ok::<Seq<IosTarget>, Seq<char>>(v@),
            Err(e) => parse_each(list.deep_view(), ios_target_reader()) == Err::<Seq<IosTarget>, Seq<char>>(e@),
        },
{
    let ghost lv = list.deep_view();
    let ghost f = ios_target_reader();
    let mut out: Vec<IosTarget> = Vec::new();
    let mut idx: usize = 0;
    assert(lv.take(0) =~= Seq::<Seq<char>>::empty());
    while idx < list.len()
        invariant
            idx <= list.len(),
            lv == list.deep_view(),
            f == ios_target_reader(),
            parse_each(lv.take(idx as int), f) == Ok::<Seq<IosTarget>, Seq<char>>(out@),
        decreases list.len() - idx,
    {
        proof { lemma_parse_each_step(lv, f, idx as int); }
        assert(lv[idx as int] == list@[idx as int]@);
        match IosTarget::from_text(list[idx].as_str()) {
            Some(t) => {
                out.push(t);
            },
            None => {
                proof { lemma_parse_each_prefix_err(lv, f, idx + 1); }
                return Err(list[idx].clone());
            },
        }
        idx = idx + 1;
    }
    assert(lv.take(list.len() as int) =~= lv);
    Ok(out)
}

/// Whether an Android build level is accepted: no option repeated that may be
/// given once, every target a known triple, the strategy one of the known
/// names, `--sign-key-path` only with `--sign-key-pass` and
/// `--sign-key-alias`, and `--json` only with `--dry-run`.
pub open spec fn android_check(acc: Seq<Occ>, run: bool) -> Result<(), Failure> {
    let strategy = first_of(acc, 7);
    if repetition_check(android_table(run), acc) is Err {
        repetition_check(android_table(run), acc)
    } else if parse_each(texts_of(acc, 6), android_target_reader()) is Err {
        Err(failure(ErrorKind::ValueValidation, parse_each(texts_of(acc, 6), android_target_reader())->Err_0))
    } else if strategy is Some && strategy_of_text(strategy->0) is None {
        Err(failure(ErrorKind::InvalidValue, strategy->0))
    } else if given(acc, 10) && !given(acc, 11) {
        Err(failure(ErrorKind::MissingRequiredArgument, "--sign-key-pass"@))
    } else if given(acc, 10) && !given(acc, 12) {
        Err(failure(ErrorKind::MissingRequiredArgument, "--sign-key-alias"@))
    } else if given(acc, 14) && !given(acc, 13) {
        Err(failure(ErrorKind::MissingRequiredArgument, "--dry-run"@))
    } else {
        Ok(())
    }
}

/// `--json` is accepted only with `--dry-run`.
pub proof fn lemma_json_needs_dry_run(acc: Seq<Occ>, run: bool)
    requires
        given(acc, 14),
        !given(acc, 13),
    ensures android_check(acc, run) is Err,
{
}

/// A signing key path is accepted only with its password and its alias.
pub proof fn lemma_sign_key_needs_pass_and_alias(acc: Seq<Occ>, run: bool)
    requires
        given(acc, 10),
        !given(acc, 11) || !given(acc, 12),
    ensures android_check(acc, run) is Err,
{
}

/// The strategy of an accepted level: the one named, `gradle-apk` when none is.
pub open spec fn strategy_or_default(named: Option<Seq<char>>) -> AndroidStrategy {
    match named {
        Some(s) => match strategy_of_text(s) {
            Some(x) => x,
            None => AndroidStrategy::GradleApk,
        },
        None => AndroidStrategy::GradleApk,
    }
}

/// The library name of an accepted level: `crossbow_android` when `--lib` was
/// given without a value.
pub open spec fn lib_or_default(o: Option<Option<Seq<char>>>) -> Option<Seq<char>> {
    match o {
        None => None,
        Some(None) => Some("crossbow_android"@),
        Some(Some(v)) => Some(v),
    }
}

/// What an accepted Android build level says.
pub open spec fn android_fields(acc: Seq<Occ>, c: AndroidBuildCommand) -> bool {
    &&& shared_fields(acc, c.shared)
    &&& parse_each(texts_of(acc, 6), android_target_reader()) == Ok::<Seq<AndroidTarget>, Seq<char>>(c.target@)
    &&& c.strategy == strategy_or_default(first_of(acc, 7))
    &&& opt_view(c.lib) == lib_or_default(optional_of(acc, 8))
    &&& opt_view(c.export_path) == first_of(acc, 9)
    &&& opt_view(c.sign_key_path) == first_of(acc, 10)
    &&& opt_view(c.sign_key_pass) == first_of(acc, 11)
    &&& opt_view(c.sign_key_alias) == first_of(acc, 12)
    &&& c.dry_run == given(acc, 13)
    &&& c.json == given(acc, 14)
}

/// A rejection of the given kind.
pub fn reject(kind: ErrorKind, argument: &str) -> (r: ParseError)
    ensures r@ == failure(kind, argument@),
{
    ParseError::new(kind, argument)
}

/// Reads the options of an Android build level, given its occurrences.
pub fn android_from(acc: &Vec<Occurrence>, run: bool) -> (r: Result<AndroidBuildCommand, ParseError>)
    ensures
        match r {
            Ok(c) => android_check(occs_view(acc@), run) is Ok && android_fields(occs_view(acc@), c),
            Err(e) => android_check(occs_view(acc@), run) == Err::<(), Failure>(e@),
        },
{
    let ghost av = occs_view(acc@);
    let defs = android_defs(run);
    match check_repeats(&defs, acc) {
        Err(e) => { return Err(e); },
        Ok(()) => {},
    }
    let target = match read_android_targets(&texts(acc, 6)) {
        Err(bad) => { return Err(ParseError { kind: ErrorKind::ValueValidation, argument: bad }); },
        Ok(t) => t,
    };
    let strategy_text = first(acc, 7);
    let strategy = match &strategy_text {
        Some(s) => match AndroidStrategy::from_text(s.as_str()) {
            Some(x) => x,
            None => { return Err(ParseError { kind: ErrorKind::InvalidValue, argument: s.clone() }); },
        },
        None => AndroidStrategy::GradleApk,
    };
    let sign_key_path = first(acc, 10);
    let sign_key_pass = first(acc, 11);
    let sign_key_alias = first(acc, 12);
    let dry_run = is_given(acc, 13);
    let json = is_given(acc, 14);
    if sign_key_path.is_some() && sign_key_pass.is_none() {
        return Err(reject(ErrorKind::MissingRequiredArgument, "--sign-key-pass"));
    }
    if sign_key_path.is_some() && sign_key_alias.is_none() {
        return Err(reject(ErrorKind::MissingRequiredArgument, "--sign-key-alias"));
    }
    if json && !dry_run {
        return Err(reject(ErrorKind::MissingRequiredArgument, "--dry-run"));
    }
    let lib = match optional(acc, 8) {
        None => None,
        Some(None) => Some("crossbow_android".to_owned()),
        Some(Some(v)) => Some(v),
    };
    Ok(AndroidBuildCommand {
        shared: shared_from(acc),
        target,
        strategy,
        lib,
        export_path: first(acc, 9),
        sign_key_path,
        sign_key_pass,
        sign_key_alias,
        dry_run,
        json,
    })
}

/// Whether an iOS build level is accepted: no option repeated that may be
/// given once, every target a known triple, `--bin` not with `--example`,
/// `--profile-path` and `--team-id` only with `--signing-identity`, and
/// `--signing-identity` only with both of them.
pub open spec fn ios_check(acc: Seq<Occ>, run: bool) -> Result<(), Failure> {
    if repetition_check(ios_table(run), acc) is Err {
        repetition_check(ios_table(run), acc)
    } else if parse_each(texts_of(acc, 7), ios_target_reader()) is Err {
        Err(failure(ErrorKind::ValueValidation, parse_each(texts_of(acc, 7), ios_target_reader())->Err_0))
    } else if given(acc, 6) && given(acc, 0) {
        Err(failure(ErrorKind::ArgumentConflict, "--bin"@))
    } else if (given(acc, 8) || given(acc, 9)) && !given(acc, 10) {
        Err(failure(ErrorKind::MissingRequiredArgument, "--signing-identity"@))
    } else if given(acc, 10) && !given(acc, 8) {
        Err(failure(ErrorKind::MissingRequiredArgument, "--profile-path"@))
    } else if given(acc, 10) && !given(acc, 9) {
        Err(failure(ErrorKind::MissingRequiredArgument, "--team-id"@))
    } else {
        Ok(())
    }
}

/// `--bin` and `--example` exclude each other.
pub proof fn lemma_bin_excludes_example(acc: Seq<Occ>, run: bool)
    requires
        given(acc, 6),
        given(acc, 0),
    ensures ios_check(acc, run) is Err,
{
}

/// What an accepted iOS build level says.
pub open spec fn ios_fields(acc: Seq<Occ>, c: IosBuildCommand) -> bool {
    &&& shared_fields(acc, c.shared)
    &&& opt_view(c.bin) == first_of(acc, 6)
    &&& parse_each(texts_of(acc, 7), ios_target_reader()) == Ok::<Seq<IosTarget>, Seq<char>>(c.target@)
    &&& opt_view(c.profile_path) == first_of(acc, 8)
    &&& opt_view(c.team_id) == first_of(acc, 9)
    &&& opt_view(c.signing_identity) == first_of(acc, 10)
}

/// Reads the options of an iOS build level, given its occurrences.
pub fn ios_from(acc: &Vec<Occurrence>, run: bool) -> (r: Result<IosBuildCommand, ParseError>)
    ensures
        match r {
            Ok(c) => ios_check(occs_view(acc@), run) is Ok && ios_fields(occs_view(acc@), c),
            Err(e) => ios_check(occs_view(acc@), run) == Err::<(), Failure>(e@),
        },
{
    let defs = ios_defs(run);
    match check_repeats(&defs, acc) {
        Err(e) => { return Err(e); },
        Ok(()) => {},
    }
    let target = match read_ios_targets(&texts(acc, 7)) {
        Err(bad) => { return Err(ParseError { kind: ErrorKind::ValueValidation, argument: bad }); },
        Ok(t) => t,
    };
    let bin = first(acc, 6);
    let example_given = is_given(acc, 0);
    let profile_path = first(acc, 8);
    let team_id = first(acc, 9);
    let signing_identity = first(acc, 10);
    if bin.is_some() && example_given {
        return Err(reject(ErrorKind::ArgumentConflict, "--bin"));
    }
    if (profile_path.is_some() || team_id.is_some()) && signing_identity.is_none() {
        return Err(reject(ErrorKind::MissingRequiredArgument, "--signing-identity"));
    }
    if signing_identity.is_some() && profile_path.is_none() {
        return Err(reject(ErrorKind::MissingRequiredArgument, "--profile-path"));
    }
    if signing_identity.is_some() && team_id.is_none() {
        return Err(reject(ErrorKind::MissingRequiredArgument, "--team-id"));
    }
    Ok(IosBuildCommand { shared: shared_from(acc), bin, target, profile_path, team_id, signing_identity })
}

/// A copy of a list of plain values.
pub fn copy_all<T: Copy>(items: &[T]) -> (r: Vec<T>)
    ensures r@ == items@,
{
    let mut r: Vec<T> = Vec::new();
    let mut k: usize = 0;
    while k < items.len()
        invariant
            k <= items.len(),
            r@ == items@.take(k as int),
        decreases items.len() - k,
    {
        r.push(items[k]);
        k = k + 1;
        assert(r@ =~= items@.take(k as int));
    }
    assert(items@.take(k as int) =~= items@);
    r
}

/// The Android targets a build compiles for: those asked for on the command
/// line; else those the project configures for the profile; else 64-bit ARM.
pub open spec fn android_targets_for(
    profile: Profile,
    requested: Seq<AndroidTarget>,
    debug_targets: Seq<AndroidTarget>,
    release_targets: Seq<AndroidTarget>,
) -> Seq<AndroidTarget> {
    if requested.len() > 0 {
        requested
    } else if profile == Profile::Debug && debug_targets.len() > 0 {
        debug_targets
    } else if profile == Profile::Release && release_targets.len() > 0 {
        release_targets
    } else {
        seq![AndroidTarget::Aarch64LinuxAndroid]
    }
}

/// The Android targets a build compiles for, given the targets asked for and
/// those the project configures for debug and release builds.
pub fn android_build_targets(
    profile: Profile,
    build_targets: &[AndroidTarget],
    debug_targets: &[AndroidTarget],
    release_targets: &[AndroidTarget],
) -> (r: Vec<AndroidTarget>)
    ensures r@ == android_targets_for(profile, build_targets@, debug_targets@, release_targets@),
{
    if build_targets.len() > 0 {
        copy_all(build_targets)
    } else if profile == Profile::Debug && debug_targets.len() > 0 {
        copy_all(debug_targets)
    } else if profile == Profile::Release && release_targets.len() > 0 {
        copy_all(release_targets)
    } else {
        let mut v = Vec::new();
        v.push(AndroidTarget::Aarch64LinuxAndroid);
        assert(v@ =~= seq![AndroidTarget::Aarch64LinuxAndroid]);
        v
    }
}

/// The iOS targets a build compiles for: those asked for on the command line;
/// else those the project configures for the profile; else the host's Simulator.
pub open spec fn ios_targets_for(
    profile: Profile,
    requested: Seq<IosTarget>,
    debug_targets: Seq<IosTarget>,
    release_targets: Seq<IosTarget>,
    host_is_aarch64: bool,
) -> Seq<IosTarget> {
    if requested.len() > 0 {
        requested
    } else if profile == Profile::Debug && debug_targets.len() > 0 {
        debug_targets
    } else if profile == Profile::Release && release_targets.len() > 0 {
        release_targets
    } else {
        seq![host_simulator_of(host_is_aarch64)]
    }
}

/// The iOS targets a build compiles for, given the targets asked for, those
/// the project configures, and whether the host is a 64-bit ARM machine.
pub fn ios_build_targets(
    profile: Profile,
    build_targets: &[IosTarget],
    debug_targets: &[IosTarget],
    release_targets: &[IosTarget],
    host_is_aarch64: bool,
) -> (r: Vec<IosTarget>)
    ensures r@ == ios_targets_for(profile, build_targets@, debug_targets@, release_targets@, host_is_aarch64),
{
    if build_targets.len() > 0 {
        copy_all(build_targets)
    } else if profile == Profile::Debug && debug_targets.len() > 0 {
        copy_all(debug_targets)
    } else if profile == Profile::Release && release_targets.len() > 0 {
        copy_all(release_targets)
    } else {
        let mut v = Vec::new();
        v.push(IosTarget::host_simulator(host_is_aarch64));
        assert(v@ =~= seq![host_simulator_of(host_is_aarch64)]);
        v
    }
}

/// The message when a standard Android build is asked to build an example.
pub open spec fn example_selected_message(example: Seq<char>) -> Seq<char> {
    "standard Cargo Android builds require a library target, but `--example "@ + example
        + "` selects a binary. Move the mobile entry point into `[lib]` with `crate-type = [\"cdylib\", \"rlib\"]`."@
}

/// The message when the package has no library target.
pub open spec fn library_missing_message() -> Seq<char> {
    "standard Cargo Android builds require a library target. Add `[lib]` and `crate-type = [\"cdylib\", \"rlib\"]` to Cargo.toml."@
}

/// The message when the library target produces no dynamic library.
pub open spec fn not_cdylib_message(name: Seq<char>) -> Seq<char> {
    "Cargo library target `"@ + name
        + "` does not produce a cdylib. Add `crate-type = [\"cdylib\", \"rlib\"]` under `[lib]` in Cargo.toml."@
}

/// The library a standard Android build compiles: the package's library
/// target (its name and whether it is a `cdylib`), which must exist and be a
/// `cdylib`; an example cannot be built this way.
pub open spec fn cargo_library_target(example: Option<Seq<char>>, library: Option<(Seq<char>, bool)>) -> Result<Seq<char>, Seq<char>> {
    match example {
        Some(e) => Err(example_selected_message(e)),
        None => match library {
            None => Err(library_missing_message()),
            Some((name, is_cdylib)) => if is_cdylib { Ok(name) } else { Err(not_cdylib_message(name)) },
        },
    }
}

/// The name of the library a standard Android build compiles; the error
/// explains what the package lacks.
pub fn validate_cargo_library_target(example: Option<&str>, library: Option<(&str, bool)>) -> (r: Result<String, String>)
    ensures
        match r {
            Ok(n) => cargo_library_target(
                match example { Some(e) => Some(e@), None => None },
                match library { Some((n, c)) => Some((n@, c)), None => None },
            ) == Ok::<Seq<char>, Seq<char>>(n@),
            Err(m) => cargo_library_target(
                match example { Some(e) => Some(e@), None => None },
                match library { Some((n, c)) => Some((n@, c)), None => None },
            ) == Err::<Seq<char>, Seq<char>>(m@),
        },
{
    match example {
        Some(e) => {
            let mut m = "standard Cargo Android builds require a library target, but `--example ".to_owned();
            m.append(e);
            m.append("` selects a binary. Move the mobile entry point into `[lib]` with `crate-type = [\"cdylib\", \"rlib\"]`.");
            Err(m)
        },
        None => match library {
            None => Err("standard Cargo Android builds require a library target. Add `[lib]` and `crate-type = [\"cdylib\", \"rlib\"]` to Cargo.toml.".to_owned()),
            Some((name, is_cdylib)) => {
                if is_cdylib {
                    Ok(name.to_owned())
                } else {
                    let mut m = "Cargo library target `".to_owned();
                    m.append(name);
                    m.append("` does not produce a cdylib. Add `crate-type = [\"cdylib\", \"rlib\"]` under `[lib]` in Cargo.toml.");
                    Err(m)
                }
            },
        },
    }
}

/// The `android-activity` feature a runtime needs; the Miniquad runtime needs none.
pub open spec fn expected_activity_feature(runtime: AndroidRuntime) -> Option<Seq<char>> {
    match runtime {
        AndroidRuntime::NativeActivity => Some("native-activity"@),
        AndroidRuntime::GameActivity => Some("game-activity"@),
        AndroidRuntime::Miniquad => None,
    }
}

/// Whether a feature selects an activity.
pub open spec fn is_activity_feature(f: Seq<char>) -> bool {
    f == "native-activity"@ || f == "game-activity"@
}

/// Whether the activated `android-activity` features fit the runtime: the
/// expected activity is among them and no other activity is.
pub open spec fn activity_features_fit(runtime: AndroidRuntime, features: Seq<Seq<char>>) -> bool {
    match expected_activity_feature(runtime) {
        None => true,
        Some(expected) => {
            &&& features.contains(expected)
            &&& !(exists|i: int| 0 <= i < features.len() && is_activity_feature(#[trigger] features[i]) && features[i] != expected)
        },
    }
}

/// The message when the activated features do not fit the runtime.
pub open spec fn activity_mismatch_message(runtime: AndroidRuntime, features: Seq<Seq<char>>) -> Seq<char> {
    "Android runtime `"@ + runtime_text(runtime) + "` requires the resolved `android-activity` feature `"@
        + expected_activity_feature(runtime)->0 + "`, but its activated features are ["@ + join(features, ", "@)
        + "]. Align `package.metadata.android.runtime` with the Bevy or android-activity Android feature."@
}

/// Checks that the activated `android-activity` features fit the runtime the
/// project is configured with; the error explains the mismatch.
pub fn validate_android_activity_features(runtime: AndroidRuntime, features: &Vec<String>) -> (r: Result<(), String>)
    ensures
        match r {
            Ok(()) => activity_features_fit(runtime, features.deep_view()),
            Err(m) => !activity_features_fit(runtime, features.deep_view())
                && m@ == activity_mismatch_message(runtime, features.deep_view()),
        },
{
    let ghost fv = features.deep_view();
    let expected: &str = match runtime {
        AndroidRuntime::NativeActivity => "native-activity",
        AndroidRuntime::GameActivity => "game-activity",
        AndroidRuntime::Miniquad => { return Ok(()); },
    };
    let mut found = false;
    let mut other = false;
    let mut k: usize = 0;
    while k < features.len()
        invariant
            k <= features.len(),
            fv == features.deep_view(),
            found == (exists|i: int| 0 <= i < k && fv[i] == expected@),
            other == (exists|i: int| 0 <= i < k && is_activity_feature(#[trigger] fv[i]) && fv[i] != expected@),
        decreases features.len() - k,
    {
        let f = features[k].as_str();
        assert(fv[k as int] == f@);
        if str_eq(f, expected) {
            found = true;
        }
        let activity = str_eq(f, "native-activity") || str_eq(f, "game-activity");
        if activity && !str_eq(f, expected) {
            other = true;
        }
        k = k + 1;
    }
    proof {
        if found {
            let i = choose|i: int| 0 <= i < features.len() && fv[i] == expected@;
            assert(fv.contains(expected@));
        }
        if fv.contains(expected@) {
            let i = choose|i: int| 0 <= i < fv.len() && fv[i] == expected@;
            assert(found);
        }
    }
    if found && !other {
        return Ok(());
    }
    let mut m = "Android runtime `".to_owned();
    m.append(runtime.as_str());
    m.append("` requires the resolved `android-activity` feature `");
    m.append(expected);
    m.append("`, but its activated features are [");
    let joined = join_strings(features, ", ");
    m.append(joined.as_str());
    m.append("]. Align `package.metadata.android.runtime` with the Bevy or android-activity Android feature.");
    Err(m)
}

/// Targets asked for on the command line are built exactly; without them the
/// targets the project configures for the build's profile are built, those of
/// the other profile never count; with neither, a build of either profile is
/// for 64-bit ARM devices (`aarch64-linux-android`) alone.
pub proof fn lemma_android_targets_choice(
    profile: Profile,
    requested: Seq<AndroidTarget>,
    debug_targets: Seq<AndroidTarget>,
    release_targets: Seq<AndroidTarget>,
    other: Seq<AndroidTarget>,
)
    ensures
        requested.len() > 0 ==> android_targets_for(profile, requested, debug_targets, release_targets) == requested,
        requested.len() == 0 && profile == Profile::Debug && debug_targets.len() > 0
            ==> android_targets_for(profile, requested, debug_targets, release_targets) == debug_targets,
        requested.len() == 0 && profile == Profile::Release && release_targets.len() > 0
            ==> android_targets_for(profile, requested, debug_targets, release_targets) == release_targets,
        requested.len() == 0 && profile == Profile::Debug && debug_targets.len() == 0
            ==> android_targets_for(profile, requested, debug_targets, release_targets)
                == seq![AndroidTarget::Aarch64LinuxAndroid],
        requested.len() == 0 && profile == Profile::Release && release_targets.len() == 0
            ==> android_targets_for(profile, requested, debug_targets, release_targets)
                == seq![AndroidTarget::Aarch64LinuxAndroid],
        android_targets_for(Profile::Debug, requested, debug_targets, release_targets)
            == android_targets_for(Profile::Debug, requested, debug_targets, other),
        android_targets_for(Profile::Release, requested, debug_targets, release_targets)
            == android_targets_for(Profile::Release, requested, other, release_targets),
        android_targets_for(profile, requested, debug_targets, release_targets).len() > 0,
{
}

/// Targets asked for on the command line are built exactly; without them the
/// targets the project configures for the build's profile are built, those of
/// the other profile never count; with neither, a build of either profile is
/// for the Simulator of the host's architecture (ARM Simulator on a 64-bit
/// ARM host, x86_64 Simulator otherwise).
pub proof fn lemma_ios_targets_choice(
    profile: Profile,
    requested: Seq<IosTarget>,
    debug_targets: Seq<IosTarget>,
    release_targets: Seq<IosTarget>,
    other: Seq<IosTarget>,
    host_is_aarch64: bool,
)
    ensures
        requested.len() > 0
            ==> ios_targets_for(profile, requested, debug_targets, release_targets, host_is_aarch64) == requested,
        requested.len() == 0 && profile == Profile::Debug && debug_targets.len() > 0
            ==> ios_targets_for(profile, requested, debug_targets, release_targets, host_is_aarch64) == debug_targets,
        requested.len() == 0 && profile == Profile::Release && release_targets.len() > 0
            ==> ios_targets_for(profile, requested, debug_targets, release_targets, host_is_aarch64) == release_targets,
        requested.len() == 0 && (profile == Profile::Debug ==> debug_targets.len() == 0)
            && (profile == Profile::Release ==> release_targets.len() == 0)
            ==> ios_targets_for(profile, requested, debug_targets, release_targets, host_is_aarch64)
                == (if host_is_aarch64 { seq![IosTarget::Aarch64Simulator] } else { seq![IosTarget::X86_64Simulator] }),
        ios_targets_for(Profile::Debug, requested, debug_targets, release_targets, host_is_aarch64)
            == ios_targets_for(Profile::Debug, requested, debug_targets, other, host_is_aarch64),
        ios_targets_for(Profile::Release, requested, debug_targets, release_targets, host_is_aarch64)
            == ios_targets_for(Profile::Release, requested, other, release_targets, host_is_aarch64),
{
}

} // verus!
