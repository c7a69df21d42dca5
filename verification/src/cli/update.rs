//! The `update` command and the comparison of the tool's version with the
//! latest one published.
use vstd::prelude::*;
use crate::cli::grammar::{ArgDef, ArgKind, ArgSpec, Failure, Occ, Occurrence, ParseError, defs_view, occs_view};
use crate::cli::table::{arg_spec, help_spec, push_def, push_help};
use crate::cli::values::{check_repeats, given, is_given, parse_u32, repetition_check, split_on, split_text, u32_of_text};
use crate::text::str_eq;

verus! {

/// The version of this tool.
pub const VERSION: &'static str = "0.1.0";

/// The options of `update`.
#[derive(Debug, Clone)]
pub struct UpdateCommand {
    /// Compare the version in use with the latest one on `crates.io`
    pub check: bool,
    /// Update crossbundle if a new version was found on `crates.io`
    pub update: bool,
}

/// The options of `update`.
pub open spec fn update_table() -> Seq<ArgSpec> {
    seq![arg_spec("check"@, None, ArgKind::Flag), arg_spec("update"@, None, ArgKind::Flag), help_spec()]
}

/// The option table of `update`.
pub fn update_defs() -> (r: Vec<ArgDef>)
    ensures defs_view(r@) == update_table(),
{
    let mut defs: Vec<ArgDef> = Vec::new();
    push_def(&mut defs, "check", None, ArgKind::Flag);
    push_def(&mut defs, "update", None, ArgKind::Flag);
    push_help(&mut defs);
    assert(defs_view(defs@) =~= update_table());
    defs
}

/// What an accepted `update` level says.
pub open spec fn update_fields(acc: Seq<Occ>, c: UpdateCommand) -> bool {
    c.check == given(acc, 0) && c.update == given(acc, 1)
}

/// Reads the options of `update`, given its occurrences.
pub fn update_from(acc: &Vec<Occurrence>) -> (r: Result<UpdateCommand, ParseError>)
    ensures
        match r {
            Ok(c) => repetition_check(update_table(), occs_view(acc@)) is Ok && update_fields(occs_view(acc@), c),
            Err(e) => repetition_check(update_table(), occs_view(acc@)) == Err::<(), Failure>(e@),
        },
{
    let defs = update_defs();
    check_repeats(&defs, acc)?;
    Ok(UpdateCommand { check: is_given(acc, 0), update: is_given(acc, 1) })
}

/// A version: major, minor and patch numbers.
#[derive(Debug, Clone, Copy, PartialEq, Eq, Structural)]
pub struct Version {
    pub major: u32,
    pub minor: u32,
    pub patch: u32,
}

/// A number of a version: decimal digits only.
pub open spec fn version_number(s: Seq<char>) -> Option<u32> {
    if s.len() > 0 && s[0] == '+' { None } else { u32_of_text(s) }
}

/// The version that `s` writes as `major.minor.patch`, if it does.
pub open spec fn version_of_text(s: Seq<char>) -> Option<Version> {
    let parts = split_on(s, '.');
    if parts.len() == 3 && version_number(parts[0]) is Some && version_number(parts[1]) is Some
        && version_number(parts[2]) is Some {
        Some(Version {
            major: version_number(parts[0])->0,
            minor: version_number(parts[1])->0,
            patch: version_number(parts[2])->0,
        })
    } else {
        None
    }
}

fn read_version_number(s: &str) -> (r: Option<u32>)
    ensures r == version_number(s@),
{
    let n = s.unicode_len();
    if n > 0 && s.get_char(0) == '+' {
        None
    } else {
        parse_u32(s)
    }
}

impl Version {
    /// Reads a version written `major.minor.patch`.
    pub fn from_semver(s: &str) -> (r: Option<Version>)
        ensures r == version_of_text(s@),
    {
        let parts = split_text(s, '.');
        if parts.len() != 3 {
            return None;
        }
        assert(parts.deep_view()[0] == parts@[0]@);
        assert(parts.deep_view()[1] == parts@[1]@);
        assert(parts.deep_view()[2] == parts@[2]@);
        let major = read_version_number(parts[0].as_str());
        let minor = read_version_number(parts[1].as_str());
        let patch = read_version_number(parts[2].as_str());
        match (major, minor, patch) {
            (Some(major), Some(minor), Some(patch)) => Some(Version { major, minor, patch }),
            _ => None,
        }
    }
}

/// Whether `new` is newer than `old`: a greater major number, or the same
/// major number and a greater minor number, or the same major and minor
/// numbers and a greater patch number.
pub open spec fn newer(old: Version, new: Version) -> bool {
    if new.major == old.major {
        new.minor > old.minor || (new.minor == old.minor && new.patch > old.patch)
    } else {
        new.major > old.major
    }
}

/// Whether a version with another major number is newer: its major number is greater.
pub fn version_comparison(new_values: Version, old_values: Version) -> (r: bool)
    ensures r == (new_values.major > old_values.major),
{
    new_values.major > old_values.major
}

/// Whether the version `new_string` is newer than `old_string`;
/// `default_result` when either does not read as a version.
pub open spec fn is_newer_spec(old_string: Seq<char>, new_string: Seq<char>, default_result: bool) -> bool {
    match (version_of_text(old_string), version_of_text(new_string)) {
        (Some(o), Some(n)) => newer(o, n),
        _ => default_result,
    }
}

/// Whether the versions `version1` and `version2` are the same;
/// `default_result` when either does not read as a version.
pub open spec fn is_same_spec(version1: Seq<char>, version2: Seq<char>, default_result: bool) -> bool {
    match (version_of_text(version1), version_of_text(version2)) {
        (Some(a), Some(b)) => a == b,
        _ => default_result,
    }
}

/// Whether the version `new_string` is newer than `old_string`.
pub fn is_newer(old_string: &str, new_string: &str, default_result: bool) -> (r: bool)
    ensures r == is_newer_spec(old_string@, new_string@, default_result),
{
    match Version::from_semver(old_string) {
        Some(old_values) => match Version::from_semver(new_string) {
            Some(new_values) => {
                if new_values.major == old_values.major {
                    if new_values.minor > old_values.minor {
                        true
                    } else {
                        new_values.minor == old_values.minor && new_values.patch > old_values.patch
                    }
                } else {
                    version_comparison(new_values, old_values)
                }
            },
            None => default_result,
        },
        None => default_result,
    }
}

/// Whether the versions `version1` and `version2` are the same.
pub fn is_same(version1: &str, version2: &str, default_result: bool) -> (r: bool)
    ensures r == is_same_spec(version1@, version2@, default_result),
{
    match Version::from_semver(version1) {
        Some(values1) => match Version::from_semver(version2) {
            Some(values2) => values1.major == values2.major && values1.minor == values2.minor
                && values1.patch == values2.patch,
            None => default_result,
        },
        None => default_result,
    }
}

/// Whether `version_string` is newer than the version of this tool.
pub fn is_newer_found(version_string: &str) -> (r: bool)
    ensures r == is_newer_spec(VERSION@, version_string@, false),
{
    is_newer(VERSION, version_string, false)
}

/// Whether `version_string` is the version of this tool.
pub fn is_same_found(version_string: &str) -> (r: bool)
    ensures r == is_same_spec(VERSION@, version_string@, false),
{
    is_same(VERSION, version_string, false)
}

/// A version is the same as itself and not newer than itself.
pub proof fn lemma_version_compares_equal_to_itself(v: Seq<char>, default_result: bool)
    requires version_of_text(v) is Some,
    ensures
        is_same_spec(v, v, default_result),
        !is_newer_spec(v, v, default_result),
{
}

/// Of two versions, at most one is newer than the other, and a newer one is
/// not the same.
pub proof fn lemma_newer_is_asymmetric(a: Seq<char>, b: Seq<char>, default_result: bool)
    requires
        version_of_text(a) is Some,
        version_of_text(b) is Some,
    ensures
        !(is_newer_spec(a, b, default_result) && is_newer_spec(b, a, default_result)),
        is_newer_spec(a, b, default_result) ==> !is_same_spec(a, b, default_result),
{
}

/// Being newer is transitive.
pub proof fn lemma_newer_is_transitive(a: Seq<char>, b: Seq<char>, c: Seq<char>, default_result: bool)
    requires
        version_of_text(a) is Some,
        version_of_text(b) is Some,
        version_of_text(c) is Some,
        is_newer_spec(a, b, default_result),
        is_newer_spec(b, c, default_result),
    ensures is_newer_spec(a, c, default_result),
{
}

/// Two versions compare one way or the other: the same, or one newer.
pub proof fn lemma_versions_are_ordered(a: Seq<char>, b: Seq<char>, default_result: bool)
    requires
        version_of_text(a) is Some,
        version_of_text(b) is Some,
    ensures
        is_same_spec(a, b, default_result) || is_newer_spec(a, b, default_result) || is_newer_spec(b, a, default_result),
{
}

/// What a comparison with the latest published version found.
#[derive(Debug, Clone, Copy, PartialEq, Eq, Structural)]
pub enum VersionCheck {
    /// A newer version is published.
    NewVersion,
    /// The version in use is the latest.
    LatestUsed,
    /// No latest version is known, or it compares in no way.
    Unknown,
}

/// What comparing the version in use with the `latest` one finds.
pub open spec fn version_check_of(latest: Option<Seq<char>>) -> VersionCheck {
    match latest {
        Some(v) => if is_newer_spec(VERSION@, v, false) {
            VersionCheck::NewVersion
        } else if is_same_spec(VERSION@, v, false) {
            VersionCheck::LatestUsed
        } else {
            VersionCheck::Unknown
        },
        None => VersionCheck::Unknown,
    }
}

/// Compares the version in use with the `latest` one found.
pub fn version_check(latest: &Option<String>) -> (r: VersionCheck)
    ensures r == version_check_of(crate::argv::opt_view(*latest)),
{
    match latest {
        Some(v) => if is_newer_found(v.as_str()) {
            VersionCheck::NewVersion
        } else if is_same_found(v.as_str()) {
            VersionCheck::LatestUsed
        } else {
            VersionCheck::Unknown
        },
        None => VersionCheck::Unknown,
    }
}

/// `s` without the character `c`.
pub open spec fn without_char(s: Seq<char>, c: char) -> Seq<char>
    decreases s.len(),
{
    if s.len() == 0 {
        Seq::empty()
    } else {
        let p = without_char(s.drop_last(), c);
        if s.last() == c { p } else { p.push(s.last()) }
    }
}

fn remove_char(s: &str, c: char) -> (r: String)
    ensures r@ == without_char(s@, c),
{
    let n = s.unicode_len();
    let mut r = String::new();
    let mut k: usize = 0;
    assert(s@.take(0) =~= Seq::<char>::empty());
    while k < n
        invariant
            k <= n,
            n == s@.len(),
            r@ == without_char(s@.take(k as int), c),
        decreases n - k,
    {
        assert(s@.take(k + 1).drop_last() =~= s@.take(k as int));
        assert(s@.take(k + 1).last() == s@[k as int]);
        if s.get_char(k) != c {
            let piece = s.substring_char(k, k + 1);
            r.append(piece);
            assert(r@ =~= without_char(s@.take(k + 1), c));
        }
        k = k + 1;
    }
    assert(s@.take(n as int) =~= s@);
    r
}

/// The version in a line of `cargo search` output (`name = "version" ...`):
/// its third space-separated word without quotes.
pub open spec fn version_in_line(line: Seq<char>) -> Option<Seq<char>> {
    let parts = split_on(line, ' ');
    if parts.len() >= 3 { Some(without_char(parts[2], '"')) } else { None }
}

/// Reads the version from a line of `cargo search` output.
pub fn get_version_from_output(line: &str) -> (r: Option<String>)
    ensures crate::argv::opt_view(r) == version_in_line(line@),
{
    let parts = split_text(line, ' ');
    if parts.len() >= 3 {
        assert(parts.deep_view()[2] == parts@[2]@);
        Some(remove_char(parts[2].as_str(), '"'))
    } else {
        None
    }
}

/// The characters that `str::trim` removes: Unicode white space.
pub open spec fn is_white_space(c: char) -> bool {
    ||| c == ' ' || c == '\t' || c == '\n' || c == '\r'
    ||| c == '\u{000B}' || c == '\u{000C}' || c == '\u{0085}' || c == '\u{00A0}'
    ||| c == '\u{1680}' || ('\u{2000}' <= c && c <= '\u{200A}')
    ||| c == '\u{2028}' || c == '\u{2029}' || c == '\u{202F}' || c == '\u{205F}' || c == '\u{3000}'
}

fn white_space(c: char) -> (r: bool)
    ensures r == is_white_space(c),
{
    c == ' ' || c == '\t' || c == '\n' || c == '\r' || c == '\u{000B}' || c == '\u{000C}' || c == '\u{0085}'
        || c == '\u{00A0}' || c == '\u{1680}' || ('\u{2000}' <= c && c <= '\u{200A}') || c == '\u{2028}'
        || c == '\u{2029}' || c == '\u{202F}' || c == '\u{205F}' || c == '\u{3000}'
}

/// The index of the first character at `k` or later that is not white space
/// (the length when there is none).
pub open spec fn text_start_from(s: Seq<char>, k: nat) -> nat
    decreases s.len() - k,
{
    if k >= s.len() {
        s.len()
    } else if is_white_space(s[k as int]) {
        text_start_from(s, k + 1)
    } else {
        k
    }
}

/// The index just after the last character before `k` that is not white
/// space, no lower than `low`.
pub open spec fn text_end_before(s: Seq<char>, low: nat, k: nat) -> nat
    decreases k,
{
    if k <= low {
        low
    } else if is_white_space(s[k - 1]) {
        text_end_before(s, low, (k - 1) as nat)
    } else {
        k
    }
}

/// `s` without white space at either end, as `str::trim` gives it.
pub open spec fn trimmed(s: Seq<char>) -> Seq<char> {
    let a = text_start_from(s, 0);
    s.subrange(a as int, text_end_before(s, a, s.len()) as int)
}

proof fn lemma_text_start_bound(s: Seq<char>, k: nat)
    requires k <= s.len(),
    ensures k <= text_start_from(s, k) <= s.len(),
    decreases s.len() - k,
{
    if k < s.len() && is_white_space(s[k as int]) {
        lemma_text_start_bound(s, k + 1);
    }
}

proof fn lemma_text_end_bound(s: Seq<char>, low: nat, k: nat)
    requires low <= k,
    ensures low <= text_end_before(s, low, k) <= k,
    decreases k,
{
    if k > low && is_white_space(s[k - 1]) {
        lemma_text_end_bound(s, low, (k - 1) as nat);
    }
}

/// `s` without white space at either end.
pub fn trim(s: &str) -> (r: &str)
    ensures r@ == trimmed(s@),
{
    let n = s.unicode_len();
    let mut a: usize = 0;
    while a < n && white_space(s.get_char(a))
        invariant
            a <= n,
            n == s@.len(),
            text_start_from(s@, 0) == text_start_from(s@, a as nat),
        decreases n - a,
    {
        a = a + 1;
    }
    proof { lemma_text_start_bound(s@, a as nat); }
    let mut b: usize = n;
    while b > a && white_space(s.get_char(b - 1))
        invariant
            a <= b <= n,
            n == s@.len(),
            a == text_start_from(s@, 0),
            text_end_before(s@, a as nat, n as nat) == text_end_before(s@, a as nat, b as nat),
        decreases b,
    {
        b = b - 1;
    }
    s.substring_char(a, b)
}

/// Whether `s` starts with `prefix`.
pub open spec fn starts_with(s: Seq<char>, prefix: Seq<char>) -> bool {
    prefix.len() <= s.len() && s.subrange(0, prefix.len() as int) == prefix
}

fn has_prefix(s: &str, prefix: &str) -> (r: bool)
    ensures r == starts_with(s@, prefix@),
{
    let n = s.unicode_len();
    let m = prefix.unicode_len();
    if m > n {
        return false;
    }
    let head = s.substring_char(0, m);
    str_eq(head, prefix)
}

/// The first line at index `k` or later that, trimmed, starts with `crossbundle = `.
pub open spec fn search_line_from(lines: Seq<Seq<char>>, k: nat) -> Option<Seq<char>>
    decreases lines.len() - k,
{
    if k >= lines.len() {
        None
    } else if starts_with(trimmed(lines[k as int]), "crossbundle = "@) {
        Some(trimmed(lines[k as int]))
    } else {
        search_line_from(lines, k + 1)
    }
}

/// The latest version in the output of `cargo search crossbundle`: read from
/// the first line that, trimmed, starts with `crossbundle = `.
pub open spec fn latest_version_in_spec(output: Seq<char>) -> Option<Seq<char>> {
    match search_line_from(split_on(output, '\n'), 0) {
        Some(line) => version_in_line(line),
        None => None,
    }
}

/// Reads the latest version from the output of `cargo search crossbundle`.
pub fn latest_version_in(output: &str) -> (r: Option<String>)
    ensures crate::argv::opt_view(r) == latest_version_in_spec(output@),
{
    let lines = split_text(output, '\n');
    let ghost lv = lines.deep_view();
    let mut k: usize = 0;
    while k < lines.len()
        invariant
            k <= lines.len(),
            lv == lines.deep_view(),
            lv == split_on(output@, '\n'),
            search_line_from(lv, 0) == search_line_from(lv, k as nat),
        decreases lines.len() - k,
    {
        assert(lv[k as int] == lines@[k as int]@);
        let line = trim(lines[k].as_str());
        if has_prefix(line, "crossbundle = ") {
            return get_version_from_output(line);
        }
        k = k + 1;
    }
    None
}

} // verus!
