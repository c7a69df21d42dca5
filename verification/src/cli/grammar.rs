//! The command-line grammar: long options (`--name`, `--name=value`), short
//! options that may be bundled (`-vv`, `-tVALUE`, `-t=VALUE`), and
//! subcommands. A command line is read one level at a time: the options of a
//! level are collected until its subcommand, whose own level starts at the
//! next token.
use vstd::prelude::*;
use crate::argv::opt_view;
use crate::text::str_eq;

verus! {

/// How an option takes its values.
#[derive(Debug, Clone, Copy, PartialEq, Eq, Structural)]
pub enum ArgKind {
    /// A switch that may be given once.
    Flag,
    /// A switch whose occurrences are counted.
    Count,
    /// An option with one value, given at most once.
    Single,
    /// An option with one value per occurrence, repeatable.
    Append,
    /// A repeatable option whose values are split at commas.
    Delimited,
    /// An option whose value may be left out.
    OptionalValue,
    /// Asks for the help text.
    Help,
    /// Asks for the version.
    Version,
}

/// One option of a command level.
#[derive(Debug, Clone, Copy)]
pub struct ArgDef {
    pub long: &'static str,
    pub short: Option<char>,
    pub kind: ArgKind,
}

/// An option, with its long name as characters.
pub struct ArgSpec {
    pub long: Seq<char>,
    pub short: Option<char>,
    pub kind: ArgKind,
}

impl View for ArgDef {
    type V = ArgSpec;

    open spec fn view(&self) -> ArgSpec {
        ArgSpec { long: self.long@, short: self.short, kind: self.kind }
    }
}

/// The options of a level, as specifications.
pub open spec fn defs_view(defs: Seq<ArgDef>) -> Seq<ArgSpec> {
    defs.map_values(|d: ArgDef| d@)
}

/// Why a command line was not accepted, or what it asked for instead of a run.
#[derive(Debug, Clone, Copy, PartialEq, Eq, Structural)]
pub enum ErrorKind {
    /// An option or argument that the level does not know.
    UnknownArgument,
    /// A word that names no subcommand of the level.
    InvalidSubcommand,
    /// An option that needs a value got none, or a value outside its choices.
    InvalidValue,
    /// A value that does not parse as the option's type.
    ValueValidation,
    /// A switch was given a value.
    TooManyValues,
    /// An option given twice, or two options that exclude each other.
    ArgumentConflict,
    /// An option that another one requires is absent.
    MissingRequiredArgument,
    /// A level that needs a subcommand got none.
    MissingSubcommand,
    /// The help text was asked for.
    DisplayHelp,
    /// The version was asked for.
    DisplayVersion,
}

/// A command line that was not accepted, with the argument it is about.
#[derive(Debug, Clone)]
pub struct ParseError {
    pub kind: ErrorKind,
    pub argument: String,
}

/// A rejection as specification: its kind and the argument's characters.
pub struct Failure {
    pub kind: ErrorKind,
    pub argument: Seq<char>,
}

impl View for ParseError {
    type V = Failure;

    open spec fn view(&self) -> Failure {
        Failure { kind: self.kind, argument: self.argument@ }
    }
}

/// The exit status that goes with a kind of rejection: 0 when help or the
/// version was asked for, 2 for a usage error.
pub open spec fn exit_code_of(kind: ErrorKind) -> i32 {
    match kind {
        ErrorKind::DisplayHelp | ErrorKind::DisplayVersion => 0,
        _ => 2,
    }
}

impl ParseError {
    /// A rejection of the given kind about `argument`.
    pub fn new(kind: ErrorKind, argument: &str) -> (r: ParseError)
        ensures r@ == (Failure { kind: kind, argument: argument@ }),
    {
        ParseError { kind, argument: argument.to_owned() }
    }

    /// A rejection of the given kind about no particular argument.
    pub fn bare(kind: ErrorKind) -> (r: ParseError)
        ensures r@ == (Failure { kind: kind, argument: Seq::empty() }),
    {
        let r = ParseError { kind, argument: String::new() };
        assert(r@.argument =~= Seq::<char>::empty());
        r
    }

    /// The exit status of the process that stops on this rejection.
    pub fn exit_code(&self) -> (r: i32)
        ensures r == exit_code_of(self.kind),
    {
        match self.kind {
            ErrorKind::DisplayHelp | ErrorKind::DisplayVersion => 0,
            _ => 2,
        }
    }

    /// The kind of rejection.
    pub fn kind(&self) -> (r: ErrorKind)
        ensures r == self.kind,
    {
        self.kind
    }
}

/// One option as it occurred on the command line: which one, and its value.
#[derive(Debug, Clone)]
pub struct Occurrence {
    pub arg: usize,
    pub value: Option<String>,
}

/// An occurrence as specification.
pub struct Occ {
    pub arg: nat,
    pub value: Option<Seq<char>>,
}

impl View for Occurrence {
    type V = Occ;

    open spec fn view(&self) -> Occ {
        Occ { arg: self.arg as nat, value: opt_view(self.value) }
    }
}

/// The occurrences of a level, as specifications.
pub open spec fn occs_view(v: Seq<Occurrence>) -> Seq<Occ> {
    v.map_values(|o: Occurrence| o@)
}

/// What reading one level gives.
pub enum Scanned {
    /// The tokens ran out; the occurrences of the level.
    Done(Seq<Occ>),
    /// The occurrences, the subcommand named (by its index) and the token where
    /// its level starts.
    Sub(Seq<Occ>, nat, nat),
    /// The level was rejected.
    Failed(Failure),
}

/// One step of reading a level.
pub enum Step {
    /// Go on at token `.0`, character `.1` (0: the token's start; more: inside a
    /// bundle of short options), with these occurrences.
    Next(nat, nat, Seq<Occ>),
    /// The level is read.
    Stop(Scanned),
}

/// A rejection of the given kind as specification.
pub open spec fn failure(kind: ErrorKind, argument: Seq<char>) -> Failure {
    Failure { kind, argument }
}

/// A rejection of the given kind.
pub open spec fn fail(kind: ErrorKind, argument: Seq<char>) -> Step {
    Step::Stop(Scanned::Failed(Failure { kind, argument }))
}

/// A token that can stand as a value: anything but an option (`-` alone is a value).
pub open spec fn is_value_token(t: Seq<char>) -> bool {
    !(t.len() > 1 && t[0] == '-')
}

/// The first option at index `k` or later with the long name `name`.
pub open spec fn find_long_from(defs: Seq<ArgSpec>, name: Seq<char>, k: nat) -> Option<nat>
    decreases defs.len() - k,
{
    if k >= defs.len() {
        None
    } else if defs[k as int].long == name {
        Some(k)
    } else {
        find_long_from(defs, name, k + 1)
    }
}

/// The first option at index `k` or later with the short name `c`.
pub open spec fn find_short_from(defs: Seq<ArgSpec>, c: char, k: nat) -> Option<nat>
    decreases defs.len() - k,
{
    if k >= defs.len() {
        None
    } else if defs[k as int].short == Some(c) {
        Some(k)
    } else {
        find_short_from(defs, c, k + 1)
    }
}

/// The first name at index `k` or later equal to `name`.
pub open spec fn find_name_from(names: Seq<Seq<char>>, name: Seq<char>, k: nat) -> Option<nat>
    decreases names.len() - k,
{
    if k >= names.len() {
        None
    } else if names[k as int] == name {
        Some(k)
    } else {
        find_name_from(names, name, k + 1)
    }
}

/// The first index at `k` or later where `t` holds `c`.
pub open spec fn find_char_from(t: Seq<char>, c: char, k: nat) -> Option<nat>
    decreases t.len() - k,
{
    if k >= t.len() {
        None
    } else if t[k as int] == c {
        Some(k)
    } else {
        find_char_from(t, c, k + 1)
    }
}

/// Records option `k`, given as `shown`, with its inline value `inline`; the
/// token after the option is at `next`.
pub open spec fn value_step(
    kind: ArgKind,
    k: nat,
    inline: Option<Seq<char>>,
    toks: Seq<Seq<char>>,
    next: nat,
    acc: Seq<Occ>,
    shown: Seq<char>,
) -> Step {
    let following = next < toks.len() && is_value_token(toks[next as int]);
    match kind {
        ArgKind::Help => fail(ErrorKind::DisplayHelp, shown),
        ArgKind::Version => fail(ErrorKind::DisplayVersion, shown),
        ArgKind::Flag | ArgKind::Count => {
            if inline is Some {
                fail(ErrorKind::TooManyValues, shown)
            } else {
                Step::Next(next, 0, acc.push(Occ { arg: k, value: None }))
            }
        },
        ArgKind::OptionalValue => {
            match inline {
                Some(v) => Step::Next(next, 0, acc.push(Occ { arg: k, value: Some(v) })),
                None => if following {
                    Step::Next(next + 1, 0, acc.push(Occ { arg: k, value: Some(toks[next as int]) }))
                } else {
                    Step::Next(next, 0, acc.push(Occ { arg: k, value: None }))
                },
            }
        },
        _ => {
            match inline {
                Some(v) => Step::Next(next, 0, acc.push(Occ { arg: k, value: Some(v) })),
                None => if following {
                    Step::Next(next + 1, 0, acc.push(Occ { arg: k, value: Some(toks[next as int]) }))
                } else {
                    fail(ErrorKind::InvalidValue, shown)
                },
            }
        },
    }
}

/// Reads the long option at token `i` (`--name` or `--name=value`).
pub open spec fn long_step(defs: Seq<ArgSpec>, toks: Seq<Seq<char>>, i: nat, acc: Seq<Occ>) -> Step {
    let t = toks[i as int];
    let body = t.subrange(2, t.len() as int);
    let eq = find_char_from(body, '=', 0);
    let name = match eq {
        Some(e) => body.subrange(0, e as int),
        None => body,
    };
    let inline = match eq {
        Some(e) => Some(body.subrange(e + 1 as int, body.len() as int)),
        None => None,
    };
    match find_long_from(defs, name, 0) {
        None => fail(ErrorKind::UnknownArgument, t),
        Some(k) => value_step(defs[k as int].kind, k, inline, toks, i + 1, acc, seq!['-', '-'] + name),
    }
}

/// Reads the short option at character `j` of token `i`.
pub open spec fn short_step(defs: Seq<ArgSpec>, toks: Seq<Seq<char>>, i: nat, j: nat, acc: Seq<Occ>) -> Step {
    let t = toks[i as int];
    let c = t[j as int];
    let shown = seq!['-', c];
    match find_short_from(defs, c, 0) {
        None => fail(ErrorKind::UnknownArgument, shown),
        Some(k) => {
            let kind = defs[k as int].kind;
            if kind == ArgKind::Flag || kind == ArgKind::Count {
                let acc2 = acc.push(Occ { arg: k, value: None });
                if j + 1 < t.len() {
                    Step::Next(i, j + 1, acc2)
                } else {
                    Step::Next(i + 1, 0, acc2)
                }
            } else if j + 1 < t.len() && kind != ArgKind::Help && kind != ArgKind::Version {
                let rest = t.subrange(j + 1 as int, t.len() as int);
                let v = if rest[0] == '=' { rest.subrange(1, rest.len() as int) } else { rest };
                Step::Next(i + 1, 0, acc.push(Occ { arg: k, value: Some(v) }))
            } else {
                value_step(kind, k, None, toks, i + 1, acc, shown)
            }
        },
    }
}

/// One step of reading a level whose options are `defs` and whose
/// subcommands are `subs`, at token `i`, character `j`.
pub open spec fn step(
    defs: Seq<ArgSpec>,
    subs: Seq<Seq<char>>,
    toks: Seq<Seq<char>>,
    i: nat,
    j: nat,
    acc: Seq<Occ>,
) -> Step {
    if i >= toks.len() {
        Step::Stop(Scanned::Done(acc))
    } else if j > 0 {
        if j < toks[i as int].len() {
            short_step(defs, toks, i, j, acc)
        } else {
            Step::Next(i + 1, 0, acc)
        }
    } else {
        let t = toks[i as int];
        if t == seq!['-', '-'] {
            if i + 1 >= toks.len() {
                Step::Stop(Scanned::Done(acc))
            } else {
                fail(ErrorKind::UnknownArgument, toks[i + 1 as int])
            }
        } else if t.len() > 2 && t[0] == '-' && t[1] == '-' {
            long_step(defs, toks, i, acc)
        } else if t.len() > 1 && t[0] == '-' {
            short_step(defs, toks, i, 1, acc)
        } else {
            match find_name_from(subs, t, 0) {
                Some(k) => Step::Stop(Scanned::Sub(acc, k, i + 1)),
                None => fail(
                    if subs.len() > 0 { ErrorKind::InvalidSubcommand } else { ErrorKind::UnknownArgument },
                    t,
                ),
            }
        }
    }
}

/// Whether going from (`i`, `j`) to (`i2`, `j2`) moves forward.
pub open spec fn advances(toks: Seq<Seq<char>>, i: nat, j: nat, i2: nat, j2: nat) -> bool {
    ||| i < i2 && i2 <= toks.len()
    ||| i2 == i && i < toks.len() && j < j2 && j2 < toks[i as int].len()
}

/// Reads a level from token `i`, character `j`, with the occurrences `acc`
/// collected so far.
pub open spec fn scan(
    defs: Seq<ArgSpec>,
    subs: Seq<Seq<char>>,
    toks: Seq<Seq<char>>,
    i: nat,
    j: nat,
    acc: Seq<Occ>,
) -> Scanned
    decreases toks.len() - i, (if i < toks.len() { toks[i as int].len() as int } else { 0 }) - j,
{
    match step(defs, subs, toks, i, j, acc) {
        Step::Next(i2, j2, acc2) => {
            if advances(toks, i, j, i2, j2) {
                scan(defs, subs, toks, i2, j2, acc2)
            } else {
                Scanned::Done(acc2)
            }
        },
        Step::Stop(r) => r,
    }
}

/// Reads the level that starts at token `start`.
pub open spec fn level(defs: Seq<ArgSpec>, subs: Seq<Seq<char>>, toks: Seq<Seq<char>>, start: nat) -> Scanned {
    scan(defs, subs, toks, start, 0, Seq::empty())
}

/// The outcome of reading a level.
pub enum ScanOutcome {
    Done(Vec<Occurrence>),
    Sub(Vec<Occurrence>, usize, usize),
    Failed(ParseError),
}

impl View for ScanOutcome {
    type V = Scanned;

    open spec fn view(&self) -> Scanned {
        match self {
            ScanOutcome::Done(v) => Scanned::Done(occs_view(v@)),
            ScanOutcome::Sub(v, k, n) => Scanned::Sub(occs_view(v@), *k as nat, *n as nat),
            ScanOutcome::Failed(e) => Scanned::Failed(e@),
        }
    }
}

enum StepOutcome {
    Next(usize, usize, Vec<Occurrence>),
    Stop(ScanOutcome),
}

impl View for StepOutcome {
    type V = Step;

    closed spec fn view(&self) -> Step {
        match self {
            StepOutcome::Next(i, j, v) => Step::Next(*i as nat, *j as nat, occs_view(v@)),
            StepOutcome::Stop(r) => Step::Stop(r@),
        }
    }
}

fn find_long(defs: &Vec<ArgDef>, name: &str) -> (r: Option<usize>)
    ensures
        match r {
            Some(k) => find_long_from(defs_view(defs@), name@, 0) == Some(k as nat) && k < defs.len(),
            None => find_long_from(defs_view(defs@), name@, 0) is None,
        },
{
    let ghost dv = defs_view(defs@);
    let mut k: usize = 0;
    while k < defs.len()
        invariant
            k <= defs.len(),
            dv == defs_view(defs@),
            find_long_from(dv, name@, 0) == find_long_from(dv, name@, k as nat),
        decreases defs.len() - k,
    {
        if str_eq(defs[k].long, name) {
            return Some(k);
        }
        k = k + 1;
    }
    None
}

fn find_short(defs: &Vec<ArgDef>, c: char) -> (r: Option<usize>)
    ensures
        match r {
            Some(k) => find_short_from(defs_view(defs@), c, 0) == Some(k as nat) && k < defs.len(),
            None => find_short_from(defs_view(defs@), c, 0) is None,
        },
{
    let ghost dv = defs_view(defs@);
    let mut k: usize = 0;
    while k < defs.len()
        invariant
            k <= defs.len(),
            dv == defs_view(defs@),
            find_short_from(dv, c, 0) == find_short_from(dv, c, k as nat),
        decreases defs.len() - k,
    {
        let found = match defs[k].short {
            Some(s) => s == c,
            None => false,
        };
        if found {
            return Some(k);
        }
        k = k + 1;
    }
    None
}

fn find_name(names: &Vec<&'static str>, name: &str) -> (r: Option<usize>)
    ensures
        match r {
            Some(k) => find_name_from(names.deep_view(), name@, 0) == Some(k as nat) && k < names.len(),
            None => find_name_from(names.deep_view(), name@, 0) is None,
        },
{
    let ghost nv = names.deep_view();
    let mut k: usize = 0;
    while k < names.len()
        invariant
            k <= names.len(),
            nv == names.deep_view(),
            find_name_from(nv, name@, 0) == find_name_from(nv, name@, k as nat),
        decreases names.len() - k,
    {
        if str_eq(names[k], name) {
            return Some(k);
        }
        k = k + 1;
    }
    None
}

fn find_char(t: &str, c: char) -> (r: Option<usize>)
    ensures
        match r {
            Some(k) => find_char_from(t@, c, 0) == Some(k as nat) && k < t@.len(),
            None => find_char_from(t@, c, 0) is None,
        },
{
    let n = t.unicode_len();
    let mut k: usize = 0;
    while k < n
        invariant
            k <= n,
            n == t@.len(),
            find_char_from(t@, c, 0) == find_char_from(t@, c, k as nat),
        decreases n - k,
    {
        if t.get_char(k) == c {
            return Some(k);
        }
        k = k + 1;
    }
    None
}

fn is_value(t: &str) -> (r: bool)
    ensures r == is_value_token(t@),
{
    let n = t.unicode_len();
    !(n > 1 && t.get_char(0) == '-')
}

fn push_occ(acc: Vec<Occurrence>, k: usize, value: Option<String>) -> (r: Vec<Occurrence>)
    ensures occs_view(r@) == occs_view(acc@).push(Occ { arg: k as nat, value: opt_view(value) }),
{
    let mut acc = acc;
    let ghost before = acc@;
    acc.push(Occurrence { arg: k, value });
    assert(occs_view(acc@) =~= occs_view(before).push(Occ { arg: k as nat, value: opt_view(value) }));
    acc
}

fn failed(kind: ErrorKind, argument: &str) -> (r: StepOutcome)
    ensures r@ == fail(kind, argument@),
{
    StepOutcome::Stop(ScanOutcome::Failed(ParseError::new(kind, argument)))
}

fn long_name(name: &str) -> (r: String)
    ensures r@ == seq!['-', '-'] + name@,
{
    let mut s = String::new();
    proof { reveal_strlit("--"); }
    s.append("--");
    s.append(name);
    assert(s@ =~= seq!['-', '-'] + name@);
    s
}

fn exec_value_step(
    kind: ArgKind,
    k: usize,
    inline: Option<String>,
    toks: &[&str],
    next: usize,
    acc: Vec<Occurrence>,
    shown: &str,
) -> (r: StepOutcome)
    requires
        next <= toks.len(),
    ensures
        r@ == value_step(kind, k as nat, opt_view(inline), toks.deep_view(), next as nat, occs_view(acc@), shown@),
        r matches StepOutcome::Next(i2, j2, _) ==> j2 == 0 && next <= i2 <= toks.len(),
{
    let ghost tv = toks.deep_view();
    let following = next < toks.len() && is_value(toks[next]);
    proof {
        if next < toks.len() {
            assert(tv[next as int] == toks@[next as int]@);
        }
    }
    match kind {
        ArgKind::Help => failed(ErrorKind::DisplayHelp, shown),
        ArgKind::Version => failed(ErrorKind::DisplayVersion, shown),
        ArgKind::Flag | ArgKind::Count => {
            if inline.is_some() {
                failed(ErrorKind::TooManyValues, shown)
            } else {
                StepOutcome::Next(next, 0, push_occ(acc, k, None))
            }
        },
        ArgKind::OptionalValue => {
            match inline {
                Some(v) => StepOutcome::Next(next, 0, push_occ(acc, k, Some(v))),
                None => if following {
                    StepOutcome::Next(next + 1, 0, push_occ(acc, k, Some(toks[next].to_owned())))
                } else {
                    StepOutcome::Next(next, 0, push_occ(acc, k, None))
                },
            }
        },
        _ => {
            match inline {
                Some(v) => StepOutcome::Next(next, 0, push_occ(acc, k, Some(v))),
                None => if following {
                    StepOutcome::Next(next + 1, 0, push_occ(acc, k, Some(toks[next].to_owned())))
                } else {
                    failed(ErrorKind::InvalidValue, shown)
                },
            }
        },
    }
}

fn exec_long_step(defs: &Vec<ArgDef>, toks: &[&str], i: usize, acc: Vec<Occurrence>) -> (r: StepOutcome)
    requires
        i < toks.len(),
        toks@[i as int]@.len() > 2,
    ensures
        r@ == long_step(defs_view(defs@), toks.deep_view(), i as nat, occs_view(acc@)),
        r matches StepOutcome::Next(i2, j2, _) ==> j2 == 0 && i < i2 <= toks.len(),
{
    let ghost tv = toks.deep_view();
    let t = toks[i];
    assert(tv[i as int] == t@);
    let n = t.unicode_len();
    let body = t.substring_char(2, n);
    let eq = find_char(body, '=');
    let (name, inline) = match eq {
        Some(e) => {
            let name = body.substring_char(0, e);
            let blen = body.unicode_len();
            let v = body.substring_char(e + 1, blen);
            (name, Some(v.to_owned()))
        },
        None => (body, None),
    };
    match find_long(defs, name) {
        None => failed(ErrorKind::UnknownArgument, t),
        Some(k) => {
            let shown = long_name(name);
            let r = exec_value_step(defs[k].kind, k, inline, toks, i + 1, acc, shown.as_str());
            assert(defs_view(defs@)[k as int].kind == defs@[k as int].kind);
            r
        },
    }
}

fn exec_short_step(defs: &Vec<ArgDef>, toks: &[&str], i: usize, j: usize, acc: Vec<Occurrence>) -> (r: StepOutcome)
    requires
        i < toks.len(),
        j < toks@[i as int]@.len(),
    ensures
        r@ == short_step(defs_view(defs@), toks.deep_view(), i as nat, j as nat, occs_view(acc@)),
        r matches StepOutcome::Next(i2, j2, _) ==> advances(toks.deep_view(), i as nat, j as nat, i2 as nat, j2 as nat),
{
    let ghost tv = toks.deep_view();
    let t = toks[i];
    assert(tv[i as int] == t@);
    let n = t.unicode_len();
    let c = t.get_char(j);
    let mut shown = String::new();
    proof { reveal_strlit("-"); }
    shown.append("-");
    let cs = t.substring_char(j, j + 1);
    shown.append(cs);
    assert(shown@ =~= seq!['-', c]);
    match find_short(defs, c) {
        None => failed(ErrorKind::UnknownArgument, shown.as_str()),
        Some(k) => {
            let kind = defs[k].kind;
            assert(defs_view(defs@)[k as int].kind == kind);
            if kind == ArgKind::Flag || kind == ArgKind::Count {
                let acc2 = push_occ(acc, k, None);
                if j + 1 < n {
                    StepOutcome::Next(i, j + 1, acc2)
                } else {
                    StepOutcome::Next(i + 1, 0, acc2)
                }
            } else if j + 1 < n && kind != ArgKind::Help && kind != ArgKind::Version {
                let rest = t.substring_char(j + 1, n);
                let rn = rest.unicode_len();
                let v = if rest.get_char(0) == '=' { rest.substring_char(1, rn) } else { rest };
                StepOutcome::Next(i + 1, 0, push_occ(acc, k, Some(v.to_owned())))
            } else {
                exec_value_step(kind, k, None, toks, i + 1, acc, shown.as_str())
            }
        },
    }
}

fn exec_step(
    defs: &Vec<ArgDef>,
    subs: &Vec<&'static str>,
    toks: &[&str],
    i: usize,
    j: usize,
    acc: Vec<Occurrence>,
) -> (r: StepOutcome)
    ensures
        r@ == step(defs_view(defs@), subs.deep_view(), toks.deep_view(), i as nat, j as nat, occs_view(acc@)),
        r matches StepOutcome::Next(i2, j2, _) ==> advances(toks.deep_view(), i as nat, j as nat, i2 as nat, j2 as nat),
        r matches StepOutcome::Stop(ScanOutcome::Sub(_, k, n)) ==> k < subs.len() && n <= toks.len(),
{
    let ghost tv = toks.deep_view();
    if i >= toks.len() {
        return StepOutcome::Stop(ScanOutcome::Done(acc));
    }
    let t = toks[i];
    assert(tv[i as int] == t@);
    let n = t.unicode_len();
    if j > 0 {
        if j < n {
            return exec_short_step(defs, toks, i, j, acc);
        } else {
            return StepOutcome::Next(i + 1, 0, acc);
        }
    }
    let dash0 = n > 0 && t.get_char(0) == '-';
    let dash1 = n > 1 && t.get_char(1) == '-';
    if n == 2 && dash0 && dash1 {
        assert(t@ =~= seq!['-', '-']);
        if i + 1 >= toks.len() {
            StepOutcome::Stop(ScanOutcome::Done(acc))
        } else {
            assert(tv[i + 1] == toks@[i + 1]@);
            failed(ErrorKind::UnknownArgument, toks[i + 1])
        }
    } else if n > 2 && dash0 && dash1 {
        assert(!(t@ == seq!['-', '-']));
        exec_long_step(defs, toks, i, acc)
    } else if n > 1 && dash0 {
        assert(!(t@ == seq!['-', '-']));
        exec_short_step(defs, toks, i, 1, acc)
    } else {
        assert(!(t@ == seq!['-', '-']));
        match find_name(subs, t) {
            Some(k) => StepOutcome::Stop(ScanOutcome::Sub(acc, k, i + 1)),
            None => failed(
                if subs.len() > 0 { ErrorKind::InvalidSubcommand } else { ErrorKind::UnknownArgument },
                t,
            ),
        }
    }
}

/// Reads the level of the command line `toks` that starts at token `start`,
/// with the options `defs` and the subcommands `subs`.
pub fn scan_level(defs: &Vec<ArgDef>, subs: &Vec<&'static str>, toks: &[&str], start: usize) -> (r: ScanOutcome)
    ensures
        r@ == level(defs_view(defs@), subs.deep_view(), toks.deep_view(), start as nat),
        r matches ScanOutcome::Sub(_, k, n) ==> k < subs.len() && n <= toks.len(),
{
    let ghost dv = defs_view(defs@);
    let ghost sv = subs.deep_view();
    let ghost tv = toks.deep_view();
    let mut i: usize = start;
    let mut j: usize = 0;
    let mut acc: Vec<Occurrence> = Vec::new();
    assert(occs_view(acc@) =~= Seq::<Occ>::empty());
    loop
        invariant
            dv == defs_view(defs@),
            sv == subs.deep_view(),
            tv == toks.deep_view(),
            level(dv, sv, tv, start as nat) == scan(dv, sv, tv, i as nat, j as nat, occs_view(acc@)),
            i > toks.len() ==> j == 0,
        decreases tv.len() - i, (if i < tv.len() { tv[i as int].len() as int } else { 0 }) - j,
    {
        let ghost old_i = i;
        let ghost old_j = j;
        let ghost old_acc = occs_view(acc@);
        match exec_step(defs, subs, toks, i, j, acc) {
            StepOutcome::Next(i2, j2, acc2) => {
                assert(advances(tv, old_i as nat, old_j as nat, i2 as nat, j2 as nat));
                assert(scan(dv, sv, tv, old_i as nat, old_j as nat, old_acc) == scan(dv, sv, tv, i2 as nat, j2 as nat, occs_view(acc2@)));
                i = i2;
                j = j2;
                acc = acc2;
            },
            StepOutcome::Stop(r) => {
                assert(scan(dv, sv, tv, old_i as nat, old_j as nat, old_acc) == r@);
                return r;
            },
        }
    }
}

proof fn lemma_find_char_first(t: Seq<char>, c: char, k: nat, p: nat)
    requires
        k <= p < t.len(),
        t[p as int] == c,
        forall|q: int| k <= q < p ==> t[q] != c,
    ensures
        find_char_from(t, c, k) == Some(p),
    decreases p - k,
{
    if k < p {
        lemma_find_char_first(t, c, k + 1, p);
    }
}

/// An option that takes a value, written `--name=value`, is recorded with
/// that value (whatever the value is, an empty one too), and reading goes on
/// with the next token: the value written inline is never dropped or replaced.
pub proof fn lemma_inline_value_is_recorded(
    defs: Seq<ArgSpec>,
    subs: Seq<Seq<char>>,
    toks: Seq<Seq<char>>,
    i: nat,
    acc: Seq<Occ>,
    name: Seq<char>,
    value: Seq<char>,
    k: nat,
)
    requires
        i < toks.len(),
        toks[i as int] == seq!['-', '-'] + name + seq!['='] + value,
        forall|q: int| 0 <= q < name.len() ==> name[q] != '=',
        find_long_from(defs, name, 0) == Some(k),
        k < defs.len(),
        defs[k as int].kind != ArgKind::Flag,
        defs[k as int].kind != ArgKind::Count,
        defs[k as int].kind != ArgKind::Help,
        defs[k as int].kind != ArgKind::Version,
    ensures
        step(defs, subs, toks, i, 0, acc) == Step::Next(i + 1, 0, acc.push(Occ { arg: k, value: Some(value) })),
{
    let t = toks[i as int];
    let body = t.subrange(2, t.len() as int);
    assert(body =~= name + seq!['='] + value);
    lemma_find_char_first(body, '=', 0, name.len());
    assert(body.subrange(0, name.len() as int) =~= name);
    assert(body.subrange(name.len() + 1int, body.len() as int) =~= value);
    assert(t[0] == '-' && t[1] == '-');
    assert(t != seq!['-', '-']);
}

/// An option whose value may be left out, written `--name` with no value
/// after it (at the end, or before another option), is recorded without a
/// value; followed by a value, it is recorded with that value.
pub proof fn lemma_optional_value_without_inline(
    defs: Seq<ArgSpec>,
    subs: Seq<Seq<char>>,
    toks: Seq<Seq<char>>,
    i: nat,
    acc: Seq<Occ>,
    name: Seq<char>,
    k: nat,
)
    requires
        i < toks.len(),
        toks[i as int] == seq!['-', '-'] + name,
        name.len() > 0,
        forall|q: int| 0 <= q < name.len() ==> name[q] != '=',
        find_long_from(defs, name, 0) == Some(k),
        k < defs.len(),
        defs[k as int].kind == ArgKind::OptionalValue,
    ensures
        !(i + 1 < toks.len() && is_value_token(toks[i + 1int]))
            ==> step(defs, subs, toks, i, 0, acc) == Step::Next(i + 1, 0, acc.push(Occ { arg: k, value: None })),
        (i + 1 < toks.len() && is_value_token(toks[i + 1int]))
            ==> step(defs, subs, toks, i, 0, acc)
                == Step::Next(i + 2, 0, acc.push(Occ { arg: k, value: Some(toks[i + 1int]) })),
{
    let t = toks[i as int];
    let body = t.subrange(2, t.len() as int);
    assert(body =~= name);
    lemma_find_char_none(body, '=', 0);
    assert(t[0] == '-' && t[1] == '-');
    assert(t != seq!['-', '-']);
}

proof fn lemma_find_char_none(t: Seq<char>, c: char, k: nat)
    requires
        forall|q: int| k <= q < t.len() ==> t[q] != c,
    ensures
        find_char_from(t, c, k) is None,
    decreases t.len() - k,
{
    if k < t.len() {
        lemma_find_char_none(t, c, k + 1);
    }
}

/// Whether `r` starts with the occurrences `acc`.
pub open spec fn extends(r: Seq<Occ>, acc: Seq<Occ>) -> bool {
    r.len() >= acc.len() && r.subrange(0, acc.len() as int) == acc
}

proof fn lemma_extends_push(acc: Seq<Occ>, o: Occ)
    ensures
        extends(acc.push(o), acc),
{
    assert(acc.push(o).subrange(0, acc.len() as int) =~= acc);
}

proof fn lemma_extends_trans(a: Seq<Occ>, b: Seq<Occ>, c: Seq<Occ>)
    requires
        extends(a, b),
        extends(b, c),
    ensures
        extends(a, c),
{
    assert(a.subrange(0, c.len() as int) =~= b.subrange(0, c.len() as int));
}

proof fn lemma_step_extends(defs: Seq<ArgSpec>, subs: Seq<Seq<char>>, toks: Seq<Seq<char>>, i: nat, j: nat, acc: Seq<Occ>)
    ensures
        match step(defs, subs, toks, i, j, acc) {
            Step::Next(_, _, a2) => extends(a2, acc),
            Step::Stop(Scanned::Done(a2)) => extends(a2, acc),
            Step::Stop(Scanned::Sub(a2, _, _)) => extends(a2, acc),
            Step::Stop(Scanned::Failed(_)) => true,
        },
{
    assert(acc.subrange(0, acc.len() as int) =~= acc);
    assert forall|o: Occ| #[trigger] extends(acc.push(o), acc) by {
        lemma_extends_push(acc, o);
    }
}

/// Reading a level keeps the occurrences collected before, in front of
/// those it adds.
pub proof fn lemma_scan_keeps_earlier(
    defs: Seq<ArgSpec>,
    subs: Seq<Seq<char>>,
    toks: Seq<Seq<char>>,
    i: nat,
    j: nat,
    acc: Seq<Occ>,
)
    ensures
        match scan(defs, subs, toks, i, j, acc) {
            Scanned::Done(r) => extends(r, acc),
            Scanned::Sub(r, _, _) => extends(r, acc),
            Scanned::Failed(_) => true,
        },
    decreases toks.len() - i, (if i < toks.len() { toks[i as int].len() as int } else { 0 }) - j,
{
    lemma_step_extends(defs, subs, toks, i, j, acc);
    match step(defs, subs, toks, i, j, acc) {
        Step::Next(i2, j2, acc2) => {
            if advances(toks, i, j, i2, j2) {
                lemma_scan_keeps_earlier(defs, subs, toks, i2, j2, acc2);
                match scan(defs, subs, toks, i2, j2, acc2) {
                    Scanned::Done(r) => lemma_extends_trans(r, acc2, acc),
                    Scanned::Sub(r, _, _) => lemma_extends_trans(r, acc2, acc),
                    Scanned::Failed(_) => {},
                }
            }
        },
        Step::Stop(_) => {},
    }
}

/// A short option that takes a value, written with its value in the same
/// token (`-cvalue` or `-c=value`), is recorded with that value; a short
/// switch written alone (`-c`) is recorded without one.
pub proof fn lemma_short_option_value_is_recorded(
    defs: Seq<ArgSpec>,
    subs: Seq<Seq<char>>,
    toks: Seq<Seq<char>>,
    i: nat,
    acc: Seq<Occ>,
    c: char,
    value: Seq<char>,
    k: nat,
)
    requires
        i < toks.len(),
        c != '-',
        find_short_from(defs, c, 0) == Some(k),
        k < defs.len(),
    ensures
        defs[k as int].kind != ArgKind::Flag && defs[k as int].kind != ArgKind::Count
            && defs[k as int].kind != ArgKind::Help && defs[k as int].kind != ArgKind::Version
            && value.len() > 0 && value[0] != '=' && toks[i as int] == seq!['-', c] + value
            ==> step(defs, subs, toks, i, 0, acc) == Step::Next(i + 1, 0, acc.push(Occ { arg: k, value: Some(value) })),
        defs[k as int].kind != ArgKind::Flag && defs[k as int].kind != ArgKind::Count
            && defs[k as int].kind != ArgKind::Help && defs[k as int].kind != ArgKind::Version
            && toks[i as int] == seq!['-', c, '='] + value
            ==> step(defs, subs, toks, i, 0, acc) == Step::Next(i + 1, 0, acc.push(Occ { arg: k, value: Some(value) })),
        (defs[k as int].kind == ArgKind::Flag || defs[k as int].kind == ArgKind::Count)
            && toks[i as int] == seq!['-', c]
            ==> step(defs, subs, toks, i, 0, acc) == Step::Next(i + 1, 0, acc.push(Occ { arg: k, value: None })),
{
    let t = toks[i as int];
    if t == seq!['-', c] + value && value.len() > 0 {
        assert(t.subrange(2, t.len() as int) =~= value);
        assert(t[1] == c);
    }
    if t == seq!['-', c, '='] + value {
        assert(t.subrange(2, t.len() as int).subrange(1, t.len() - 2) =~= value);
        assert(t[1] == c);
        assert(t[2] == '=');
    }
    if t == seq!['-', c] {
        assert(t[1] == c);
    }
}

} // verus!
