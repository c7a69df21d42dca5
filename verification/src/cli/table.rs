//! Building the option tables of the command levels, and reading lists of
//! enumerated values.
use vstd::prelude::*;
use crate::cli::grammar::{ArgDef, ArgKind, ArgSpec, defs_view};

verus! {

/// An option as specification.
pub open spec fn arg_spec(long: Seq<char>, short: Option<char>, kind: ArgKind) -> ArgSpec {
    ArgSpec { long, short, kind }
}

/// The help option that every level has.
pub open spec fn help_spec() -> ArgSpec {
    arg_spec("help"@, Some('h'), ArgKind::Help)
}

/// Adds an option to a table.
pub fn push_def(defs: &mut Vec<ArgDef>, long: &'static str, short: Option<char>, kind: ArgKind)
    ensures defs_view(final(defs)@) == defs_view(old(defs)@).push(arg_spec(long@, short, kind)),
{
    let ghost before = defs@;
    defs.push(ArgDef { long, short, kind });
    assert(defs_view(defs@) =~= defs_view(before).push(arg_spec(long@, short, kind)));
}

/// Adds the help option to a table.
pub fn push_help(defs: &mut Vec<ArgDef>)
    ensures defs_view(final(defs)@) == defs_view(old(defs)@).push(help_spec()),
{
    push_def(defs, "help", Some('h'), ArgKind::Help);
}

/// The names of a level's subcommands.
pub fn names(list: &[&'static str]) -> (r: Vec<&'static str>)
    ensures r.deep_view() == list.deep_view(),
{
    let mut r: Vec<&'static str> = Vec::new();
    let mut k: usize = 0;
    while k < list.len()
        invariant
            k <= list.len(),
            r.deep_view() == list.deep_view().take(k as int),
        decreases list.len() - k,
    {
        let ghost before = r.deep_view();
        r.push(list[k]);
        assert(r.deep_view() =~= before.push(list@[k as int]@));
        assert(list.deep_view().take(k + 1) =~= list.deep_view().take(k as int).push(list@[k as int]@));
        k = k + 1;
    }
    assert(list.deep_view().take(list.len() as int) =~= list.deep_view());
    r
}

/// Reads each text with `f`: all the values, or the first text that `f` does not read.
pub open spec fn parse_each<T>(texts: Seq<Seq<char>>, f: spec_fn(Seq<char>) -> Option<T>) -> Result<Seq<T>, Seq<char>>
    decreases texts.len(),
{
    if texts.len() == 0 {
        Ok(Seq::empty())
    } else {
        match parse_each(texts.drop_last(), f) {
            Err(e) => Err(e),
            Ok(p) => match f(texts.last()) {
                Some(x) => Ok(p.push(x)),
                None => Err(texts.last()),
            },
        }
    }
}

/// Once a prefix of the texts fails to read, so do all of them, on the same text.
pub proof fn lemma_parse_each_prefix_err<T>(texts: Seq<Seq<char>>, f: spec_fn(Seq<char>) -> Option<T>, m: int)
    requires
        0 <= m <= texts.len(),
        parse_each(texts.take(m), f) is Err,
    ensures parse_each(texts, f) == parse_each(texts.take(m), f),
    decreases texts.len(),
{
    if m == texts.len() {
        assert(texts.take(m) =~= texts);
    } else {
        assert(texts.drop_last().take(m) =~= texts.take(m));
        lemma_parse_each_prefix_err(texts.drop_last(), f, m);
    }
}

/// Reading one more text extends the values read from the prefix.
pub proof fn lemma_parse_each_step<T>(texts: Seq<Seq<char>>, f: spec_fn(Seq<char>) -> Option<T>, m: int)
    requires 0 <= m < texts.len(),
    ensures
        parse_each(texts.take(m + 1), f) == match parse_each(texts.take(m), f) {
            Err(e) => Err(e),
            Ok(p) => match f(texts[m]) {
                Some(x) => Ok(p.push(x)),
                None => Err(texts[m]),
            },
        },
{
    assert(texts.take(m + 1).drop_last() =~= texts.take(m));
    assert(texts.take(m + 1).last() == texts[m]);
}

} // verus!
