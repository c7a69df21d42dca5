//! The `doctor` command: which platforms to diagnose, and how to report.
use vstd::prelude::*;
use crate::argv::opt_view;
use crate::cli::choices::{DoctorPlatform, platform_of_text};
use crate::cli::grammar::{failure, ArgDef, ArgKind, ArgSpec, ErrorKind, Failure, Occ, Occurrence, ParseError, defs_view, occs_view};
use crate::cli::table::{arg_spec, help_spec, lemma_parse_each_prefix_err, lemma_parse_each_step, parse_each, push_def, push_help};
use crate::cli::values::{
    check_repeats, first, first_of, given, is_given, repetition_check, split_all, split_values, texts, texts_of,
};

verus! {

/// The options of `doctor`.
#[derive(Debug, Clone, Default)]
pub struct DoctorCommand {
    /// Platforms to diagnose (repeat or use comma-delimited values)
    pub platform: Vec<DoctorPlatform>,
    /// Also validate the project at this directory or Cargo.toml path
    pub project: Option<String>,
    /// Emit a JSON report to stdout
    pub json: bool,
    /// Treat unsupported and unknown versions as failures
    pub strict: bool,
}

/// The options of `doctor`.
pub open spec fn doctor_table() -> Seq<ArgSpec> {
    seq![
        arg_spec("platform"@, None, ArgKind::Delimited),
        arg_spec("project"@, None, ArgKind::Single),
        arg_spec("json"@, None, ArgKind::Flag),
        arg_spec("strict"@, None, ArgKind::Flag),
        help_spec(),
    ]
}

/// The option table of `doctor`.
pub fn doctor_defs() -> (r: Vec<ArgDef>)
    ensures defs_view(r@) == doctor_table(),
{
    let mut defs: Vec<ArgDef> = Vec::new();
    push_def(&mut defs, "platform", None, ArgKind::Delimited);
    push_def(&mut defs, "project", None, ArgKind::Single);
    push_def(&mut defs, "json", None, ArgKind::Flag);
    push_def(&mut defs, "strict", None, ArgKind::Flag);
    push_help(&mut defs);
    assert(defs_view(defs@) =~= doctor_table());
    defs
}

/// Reading a platform from its name.
pub open spec fn platform_reader() -> spec_fn(Seq<char>) -> Option<DoctorPlatform> {
    |s: Seq<char>| platform_of_text(s)
}

/// The platform names given with `--platform`, split at commas.
pub open spec fn platform_names(acc: Seq<Occ>) -> Seq<Seq<char>> {
    split_all(texts_of(acc, 0), ',')
}

/// Whether a `doctor` level is accepted: no option repeated that may be given
/// once, and every platform name known.
pub open spec fn doctor_check(acc: Seq<Occ>) -> Result<(), Failure> {
    if repetition_check(doctor_table(), acc) is Err {
        repetition_check(doctor_table(), acc)
    } else if parse_each(platform_names(acc), platform_reader()) is Err {
        Err(failure(ErrorKind::InvalidValue, parse_each(platform_names(acc), platform_reader())->Err_0))
    } else {
        Ok(())
    }
}

/// What an accepted `doctor` level says.
pub open spec fn doctor_fields(acc: Seq<Occ>, c: DoctorCommand) -> bool {
    &&& parse_each(platform_names(acc), platform_reader()) == Ok::<Seq<DoctorPlatform>, Seq<char>>(c.platform@)
    &&& opt_view(c.project) == first_of(acc, 1)
    &&& c.json == given(acc, 2)
    &&& c.strict == given(acc, 3)
}

/// Reads platforms from their names; the error is the first name that names none.
pub fn read_platforms(list: &Vec<String>) -> (r: Result<Vec<DoctorPlatform>, String>)
    ensures
        match r {
            Ok(v) => parse_each(list.deep_view(), platform_reader()) == Ok::<Seq<DoctorPlatform>, Seq<char>>(v@),
            Err(e) => parse_each(list.deep_view(), platform_reader()) == Err::<Seq<DoctorPlatform>, Seq<char>>(e@),
        },
{
    let ghost lv = list.deep_view();
    let ghost f = platform_reader();
    let mut out: Vec<DoctorPlatform> = Vec::new();
    let mut idx: usize = 0;
    assert(lv.take(0) =~= Seq::<Seq<char>>::empty());
    while idx < list.len()
        invariant
            idx <= list.len(),
            lv == list.deep_view(),
            f == platform_reader(),
            parse_each(lv.take(idx as int), f) == Ok::<Seq<DoctorPlatform>, Seq<char>>(out@),
        decreases list.len() - idx,
    {
        proof { lemma_parse_each_step(lv, f, idx as int); }
        assert(lv[idx as int] == list@[idx as int]@);
        match DoctorPlatform::from_text(list[idx].as_str()) {
            Some(p) => {
                out.push(p);
            },
            None => {
                proof { lemma_parse_each_prefix_err(lv, f, idx + 1); }
                return Err(list[idx].clone());
            },
        }
        idx = idx + 1;
    }
    assert(lv.take(list.len() as int) =~= lv);
    Ok(out)
}

/// Reads the options of `doctor`, given its occurrences.
pub fn doctor_from(acc: &Vec<Occurrence>) -> (r: Result<DoctorCommand, ParseError>)
    ensures
        match r {
            Ok(c) => doctor_check(occs_view(acc@)) is Ok && doctor_fields(occs_view(acc@), c),
            Err(e) => doctor_check(occs_view(acc@)) == Err::<(), Failure>(e@),
        },
{
    let defs = doctor_defs();
    check_repeats(&defs, acc)?;
    let names = split_values(&texts(acc, 0), ',');
    let platform = match read_platforms(&names) {
        Ok(p) => p,
        Err(bad) => { return Err(ParseError { kind: ErrorKind::InvalidValue, argument: bad }); },
    };
    Ok(DoctorCommand { platform, project: first(acc, 1), json: is_given(acc, 2), strict: is_given(acc, 3) })
}

/// The platforms a diagnosis covers, in a fixed order and each once: those
/// asked for, or all of them when none is.
pub open spec fn resolved_platforms(asked: Seq<DoctorPlatform>) -> Seq<DoctorPlatform> {
    let all = asked.len() == 0;
    (if all || asked.contains(DoctorPlatform::Android) { seq![DoctorPlatform::Android] } else { Seq::empty() })
        + (if all || asked.contains(DoctorPlatform::Apple) { seq![DoctorPlatform::Apple] } else { Seq::empty() })
}

/// The platforms a diagnosis covers. Both platforms are built into this
/// library, so no platform asked for is refused.
pub fn resolve_platforms(platforms: &[DoctorPlatform]) -> (r: Result<Vec<DoctorPlatform>, DoctorPlatform>)
    ensures r matches Ok(v) && v@ == resolved_platforms(platforms@),
{
    let mut android = false;
    let mut apple = false;
    let mut k: usize = 0;
    while k < platforms.len()
        invariant
            k <= platforms.len(),
            android == platforms@.take(k as int).contains(DoctorPlatform::Android),
            apple == platforms@.take(k as int).contains(DoctorPlatform::Apple),
        decreases platforms.len() - k,
    {
        let ghost prev = platforms@.take(k as int);
        let ghost next = platforms@.take(k + 1);
        assert(next =~= prev.push(platforms@[k as int]));
        match platforms[k] {
            DoctorPlatform::Android => { android = true; },
            DoctorPlatform::Apple => { apple = true; },
        }
        proof {
            if next.contains(DoctorPlatform::Android) {
                let w = choose|w: int| 0 <= w < next.len() && next[w] == DoctorPlatform::Android;
                if w < prev.len() { assert(prev[w] == DoctorPlatform::Android); }
            }
            if next.contains(DoctorPlatform::Apple) {
                let w = choose|w: int| 0 <= w < next.len() && next[w] == DoctorPlatform::Apple;
                if w < prev.len() { assert(prev[w] == DoctorPlatform::Apple); }
            }
            if prev.contains(DoctorPlatform::Android) {
                let w = choose|w: int| 0 <= w < prev.len() && prev[w] == DoctorPlatform::Android;
                assert(next[w] == DoctorPlatform::Android);
            }
            if prev.contains(DoctorPlatform::Apple) {
                let w = choose|w: int| 0 <= w < prev.len() && prev[w] == DoctorPlatform::Apple;
                assert(next[w] == DoctorPlatform::Apple);
            }
            assert(next[k as int] == platforms@[k as int]);
        }
        k = k + 1;
    }
    assert(platforms@.take(platforms.len() as int) =~= platforms@);
    let all = platforms.len() == 0;
    let mut out: Vec<DoctorPlatform> = Vec::new();
    if all || android {
        out.push(DoctorPlatform::Android);
    }
    if all || apple {
        out.push(DoctorPlatform::Apple);
    }
    assert(out@ =~= resolved_platforms(platforms@));
    Ok(out)
}

/// The platforms of a diagnosis are those asked for (all when none is), each
/// once, Android before Apple.
pub proof fn lemma_resolved_platforms_are_the_asked_ones(asked: Seq<DoctorPlatform>)
    ensures
        forall|p: DoctorPlatform| #[trigger] resolved_platforms(asked).contains(p) <==> (asked.len() == 0 || asked.contains(p)),
        forall|i: int, j: int| 0 <= i < j < resolved_platforms(asked).len() ==>
            resolved_platforms(asked)[i] == DoctorPlatform::Android && resolved_platforms(asked)[j] == DoctorPlatform::Apple,
{
    let r = resolved_platforms(asked);
    assert forall|p: DoctorPlatform| r.contains(p) <==> (asked.len() == 0 || asked.contains(p)) by {
        if asked.len() == 0 || asked.contains(p) {
            match p {
                DoctorPlatform::Android => { assert(r[0] == p); },
                DoctorPlatform::Apple => { assert(r[r.len() - 1] == p); },
            }
        }
        if r.contains(p) {
            let w = choose|w: int| 0 <= w < r.len() && r[w] == p;
        }
    }
}

/// Resolving platforms again changes nothing.
pub proof fn lemma_resolve_platforms_idempotent(asked: Seq<DoctorPlatform>)
    ensures resolved_platforms(resolved_platforms(asked)) == resolved_platforms(asked),
{
    let r = resolved_platforms(asked);
    lemma_resolved_platforms_are_the_asked_ones(asked);
    if asked.len() > 0 {
        assert(asked.contains(asked[0]));
        assert(r.contains(asked[0]));
    } else {
        assert(r.contains(DoctorPlatform::Android));
    }
    assert(r.len() > 0);
    assert(r.contains(DoctorPlatform::Android) == (asked.len() == 0 || asked.contains(DoctorPlatform::Android)));
    assert(r.contains(DoctorPlatform::Apple) == (asked.len() == 0 || asked.contains(DoctorPlatform::Apple)));
    assert(resolved_platforms(r) =~= r);
}

} // verus!
