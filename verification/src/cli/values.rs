//! What a level's occurrences say of each option: whether it was given, its
//! values, comma-separated lists and numbers.
use vstd::prelude::*;
use crate::argv::{join, opt_view};
use crate::cli::grammar::{ArgDef, ArgKind, ArgSpec, ErrorKind, Failure, Occ, Occurrence, ParseError, defs_view, occs_view};

verus! {

/// The values of option `k` in the order given (`None` for an occurrence
/// without a value).
pub open spec fn values_of(acc: Seq<Occ>, k: nat) -> Seq<Option<Seq<char>>>
    decreases acc.len(),
{
    if acc.len() == 0 {
        Seq::empty()
    } else {
        let p = values_of(acc.drop_last(), k);
        if acc.last().arg == k { p.push(acc.last().value) } else { p }
    }
}

/// Whether option `k` was given.
pub open spec fn given(acc: Seq<Occ>, k: nat) -> bool {
    values_of(acc, k).len() > 0
}

/// A value's text; an absent value reads as empty.
pub open spec fn text_of(v: Option<Seq<char>>) -> Seq<char> {
    match v {
        Some(t) => t,
        None => Seq::empty(),
    }
}

/// The texts of all values of option `k`, in order.
pub open spec fn texts_of(acc: Seq<Occ>, k: nat) -> Seq<Seq<char>> {
    values_of(acc, k).map_values(|v: Option<Seq<char>>| text_of(v))
}

/// The value of option `k` if it was given: the first one.
pub open spec fn first_of(acc: Seq<Occ>, k: nat) -> Option<Seq<char>> {
    if given(acc, k) { Some(text_of(values_of(acc, k)[0])) } else { None }
}

/// For an option whose value may be left out: `None` when it is absent,
/// `Some(None)` when it was given without a value.
pub open spec fn optional_of(acc: Seq<Occ>, k: nat) -> Option<Option<Seq<char>>> {
    if given(acc, k) { Some(values_of(acc, k)[0]) } else { None }
}

/// The values of a list of optional strings, as text.
pub open spec fn opt_strings_view(v: Seq<Option<String>>) -> Seq<Option<Seq<char>>> {
    v.map_values(|o: Option<String>| opt_view(o))
}

/// The values of option `k`.
pub fn collect_values(acc: &Vec<Occurrence>, k: usize) -> (r: Vec<Option<String>>)
    ensures opt_strings_view(r@) == values_of(occs_view(acc@), k as nat),
{
    let ghost av = occs_view(acc@);
    let mut r: Vec<Option<String>> = Vec::new();
    let mut idx: usize = 0;
    assert(av.take(0) =~= Seq::<Occ>::empty());
    assert(opt_strings_view(r@) =~= Seq::<Option<Seq<char>>>::empty());
    while idx < acc.len()
        invariant
            idx <= acc.len(),
            av == occs_view(acc@),
            opt_strings_view(r@) == values_of(av.take(idx as int), k as nat),
        decreases acc.len() - idx,
    {
        let ghost before = r@;
        assert(av.take(idx + 1).drop_last() =~= av.take(idx as int));
        assert(av.take(idx + 1).last() == acc@[idx as int]@);
        if acc[idx].arg == k {
            r.push(acc[idx].value.clone());
            assert(opt_strings_view(r@) =~= opt_strings_view(before).push(opt_view(acc@[idx as int].value)));
        }
        idx = idx + 1;
    }
    assert(av.take(acc.len() as int) =~= av);
    r
}

/// How many times option `k` was given.
pub fn count_of(acc: &Vec<Occurrence>, k: usize) -> (r: usize)
    ensures r == values_of(occs_view(acc@), k as nat).len(),
{
    let v = collect_values(acc, k);
    v.len()
}

/// The texts of the values of option `k`.
pub fn texts(acc: &Vec<Occurrence>, k: usize) -> (r: Vec<String>)
    ensures r.deep_view() == texts_of(occs_view(acc@), k as nat),
{
    let v = collect_values(acc, k);
    let ghost vv = opt_strings_view(v@);
    let mut r: Vec<String> = Vec::new();
    let mut idx: usize = 0;
    while idx < v.len()
        invariant
            idx <= v.len(),
            vv == opt_strings_view(v@),
            vv == values_of(occs_view(acc@), k as nat),
            r.deep_view() == vv.take(idx as int).map_values(|o: Option<Seq<char>>| text_of(o)),
        decreases v.len() - idx,
    {
        let t = match &v[idx] {
            Some(s) => s.clone(),
            None => String::new(),
        };
        let ghost before = r.deep_view();
        r.push(t);
        assert(r.deep_view() =~= before.push(text_of(vv[idx as int])));
        assert(vv.take(idx + 1).map_values(|o: Option<Seq<char>>| text_of(o)) =~= vv.take(idx as int).map_values(
            |o: Option<Seq<char>>| text_of(o),
        ).push(text_of(vv[idx as int])));
        idx = idx + 1;
    }
    assert(vv.take(v.len() as int) =~= vv);
    r
}

/// The value of option `k`, if it was given.
pub fn first(acc: &Vec<Occurrence>, k: usize) -> (r: Option<String>)
    ensures opt_view(r) == first_of(occs_view(acc@), k as nat),
{
    let v = collect_values(acc, k);
    if v.len() == 0 {
        None
    } else {
        assert(opt_strings_view(v@)[0] == opt_view(v@[0]));
        match &v[0] {
            Some(s) => Some(s.clone()),
            None => Some(String::new()),
        }
    }
}

/// Whether option `k` was given.
pub fn is_given(acc: &Vec<Occurrence>, k: usize) -> (r: bool)
    ensures r == given(occs_view(acc@), k as nat),
{
    count_of(acc, k) > 0
}

/// The value of an option whose value may be left out.
pub fn optional(acc: &Vec<Occurrence>, k: usize) -> (r: Option<Option<String>>)
    ensures
        match r {
            Some(o) => optional_of(occs_view(acc@), k as nat) == Some(opt_view(o)),
            None => optional_of(occs_view(acc@), k as nat) is None,
        },
{
    let v = collect_values(acc, k);
    if v.len() == 0 {
        None
    } else {
        assert(opt_strings_view(v@)[0] == opt_view(v@[0]));
        Some(v[0].clone())
    }
}

/// Whether an option of this kind may be given only once.
pub open spec fn once_only(kind: ArgKind) -> bool {
    kind == ArgKind::Flag || kind == ArgKind::Single || kind == ArgKind::OptionalValue
}

/// The first option, at index `k` or later, that may be given only once and
/// was given more often.
pub open spec fn repeated_from(defs: Seq<ArgSpec>, acc: Seq<Occ>, k: nat) -> Option<nat>
    decreases defs.len() - k,
{
    if k >= defs.len() {
        None
    } else if once_only(defs[k as int].kind) && values_of(acc, k).len() > 1 {
        Some(k)
    } else {
        repeated_from(defs, acc, k + 1)
    }
}

/// A level's options are accepted as to repetition unless one that may be
/// given once was given twice; that one is named in the rejection.
pub open spec fn repetition_check(defs: Seq<ArgSpec>, acc: Seq<Occ>) -> Result<(), Failure> {
    match repeated_from(defs, acc, 0) {
        Some(k) => Err(Failure { kind: ErrorKind::ArgumentConflict, argument: seq!['-', '-'] + defs[k as int].long }),
        None => Ok(()),
    }
}

/// The result of a check, as specification.
pub open spec fn check_view(r: Result<(), ParseError>) -> Result<(), Failure> {
    match r {
        Ok(()) => Ok(()),
        Err(e) => Err(e@),
    }
}

/// Rejects a level in which an option that may be given once was repeated.
pub fn check_repeats(defs: &Vec<ArgDef>, acc: &Vec<Occurrence>) -> (r: Result<(), ParseError>)
    ensures check_view(r) == repetition_check(defs_view(defs@), occs_view(acc@)),
{
    let ghost dv = defs_view(defs@);
    let ghost av = occs_view(acc@);
    let mut k: usize = 0;
    while k < defs.len()
        invariant
            k <= defs.len(),
            dv == defs_view(defs@),
            av == occs_view(acc@),
            repeated_from(dv, av, 0) == repeated_from(dv, av, k as nat),
        decreases defs.len() - k,
    {
        let kind = defs[k].kind;
        assert(dv[k as int].kind == kind);
        let once = kind == ArgKind::Flag || kind == ArgKind::Single || kind == ArgKind::OptionalValue;
        if once && count_of(acc, k) > 1 {
            let mut name = String::new();
            proof { reveal_strlit("--"); }
            name.append("--");
            name.append(defs[k].long);
            assert(name@ =~= seq!['-', '-'] + dv[k as int].long);
            return Err(ParseError { kind: ErrorKind::ArgumentConflict, argument: name });
        }
        k = k + 1;
    }
    Ok(())
}

/// The pieces of `s` between the occurrences of `c`, as `str::split` gives them.
pub open spec fn split_on(s: Seq<char>, c: char) -> Seq<Seq<char>>
    decreases s.len(),
{
    if s.len() == 0 {
        seq![Seq::empty()]
    } else {
        let p = split_on(s.drop_last(), c);
        if s.last() == c {
            p.push(Seq::empty())
        } else {
            p.update(p.len() - 1, p.last().push(s.last()))
        }
    }
}

/// Splitting gives at least one piece.
pub proof fn lemma_split_on_nonempty(s: Seq<char>, c: char)
    ensures split_on(s, c).len() >= 1,
    decreases s.len(),
{
    if s.len() > 0 {
        lemma_split_on_nonempty(s.drop_last(), c);
    }
}

/// Joining the pieces of a split with the separator gives the text back.
pub proof fn lemma_split_then_join(s: Seq<char>, c: char)
    ensures join(split_on(s, c), seq![c]) == s,
    decreases s.len(),
{
    if s.len() > 0 {
        let p = split_on(s.drop_last(), c);
        lemma_split_then_join(s.drop_last(), c);
        lemma_split_on_nonempty(s.drop_last(), c);
        if s.last() == c {
            assert(p.push(Seq::empty()).drop_last() =~= p);
            assert(s =~= s.drop_last() + seq![c] + Seq::<char>::empty());
        } else {
            let q = p.update(p.len() - 1, p.last().push(s.last()));
            if p.len() == 1 {
                assert(s =~= p[0].push(s.last()));
            } else {
                assert(q.drop_last() =~= p.drop_last());
                assert(join(q, seq![c]) =~= join(p, seq![c]).push(s.last()));
            }
            assert(s =~= s.drop_last().push(s.last()));
        }
    } else {
        assert(split_on(s, c) =~= seq![Seq::<char>::empty()]);
        assert(s =~= Seq::<char>::empty());
    }
}

/// All the pieces of all the values, split at `c`, in order.
pub open spec fn split_all(values: Seq<Seq<char>>, c: char) -> Seq<Seq<char>>
    decreases values.len(),
{
    if values.len() == 0 {
        Seq::empty()
    } else {
        split_all(values.drop_last(), c) + split_on(values.last(), c)
    }
}

/// Splitting two texts joined by the delimiter gives the pieces of the first
/// followed by those of the second.
pub proof fn lemma_split_of_joined(a: Seq<char>, b: Seq<char>, c: char)
    ensures split_on(a + seq![c] + b, c) == split_on(a, c) + split_on(b, c),
    decreases b.len(),
{
    let ac = a + seq![c];
    if b.len() == 0 {
        assert(a + seq![c] + b =~= ac);
        assert(ac.drop_last() =~= a);
        assert(split_on(b, c) =~= seq![Seq::<char>::empty()]);
        assert(split_on(a, c).push(Seq::empty()) =~= split_on(a, c) + seq![Seq::<char>::empty()]);
    } else {
        let b0 = b.drop_last();
        let x = b.last();
        lemma_split_of_joined(a, b0, c);
        lemma_split_on_nonempty(b0, c);
        let whole = a + seq![c] + b;
        assert(whole.drop_last() =~= a + seq![c] + b0);
        assert(whole.last() == x);
        let p = split_on(a + seq![c] + b0, c);
        let q = split_on(b0, c);
        let left = split_on(a, c);
        assert(p == left + q);
        if x == c {
            assert(p.push(Seq::empty()) =~= left + q.push(Seq::empty()));
        } else {
            assert(p.update(p.len() - 1, p.last().push(x)) =~= left + q.update(q.len() - 1, q.last().push(x)));
        }
    }
}

/// A text without the delimiter is one piece.
pub proof fn lemma_split_without_delimiter(s: Seq<char>, c: char)
    requires !s.contains(c),
    ensures split_on(s, c) == seq![s],
    decreases s.len(),
{
    if s.len() == 0 {
        assert(s =~= Seq::<char>::empty());
        assert(split_on(s, c) =~= seq![s]);
    } else {
        let s0 = s.drop_last();
        assert(!s0.contains(c)) by {
            if s0.contains(c) {
                let w = choose|w: int| 0 <= w < s0.len() && s0[w] == c;
                assert(s[w] == c);
            }
        }
        lemma_split_without_delimiter(s0, c);
        assert(s[s.len() - 1] != c);
        assert(s0.push(s.last()) =~= s);
        assert(seq![s0].update(0, s0.push(s.last())) =~= seq![s]);
    }
}

/// Giving a delimited option `a,b` reads the same values as giving it twice,
/// once with `a` and once with `b`, where neither holds a comma.
pub proof fn lemma_delimited_values_match_repeated_values(a: Seq<char>, b: Seq<char>)
    requires
        !a.contains(','),
        !b.contains(','),
    ensures split_all(seq![a + seq![','] + b], ',') == split_all(seq![a, b], ','),
{
    lemma_split_of_joined(a, b, ',');
    lemma_split_without_delimiter(a, ',');
    lemma_split_without_delimiter(b, ',');
    let one = seq![a + seq![','] + b];
    let two = seq![a, b];
    assert(one.drop_last() =~= Seq::<Seq<char>>::empty());
    assert(two.drop_last() =~= seq![a]);
    assert(seq![a].drop_last() =~= Seq::<Seq<char>>::empty());
    assert(one.last() == a + seq![','] + b);
    assert(split_all(one.drop_last(), ',') == Seq::<Seq<char>>::empty());
    assert(split_all(one, ',') =~= split_on(a + seq![','] + b, ','));
    assert(seq![a].last() == a);
    assert(split_all(seq![a].drop_last(), ',') == Seq::<Seq<char>>::empty());
    assert(split_all(seq![a], ',') =~= split_on(a, ','));
    assert(two.last() == b);
    assert(split_all(two, ',') =~= split_on(a, ',') + split_on(b, ','));
}

/// Splits `s` at each `c`.
pub fn split_text(s: &str, c: char) -> (r: Vec<String>)
    ensures r.deep_view() == split_on(s@, c),
{
    let n = s.unicode_len();
    let mut pieces: Vec<String> = Vec::new();
    let mut start: usize = 0;
    let mut idx: usize = 0;
    assert(s@.take(0) =~= Seq::<char>::empty());
    assert(pieces.deep_view().push(s@.subrange(0, 0)) =~= split_on(s@.take(0), c));
    while idx < n
        invariant
            n == s@.len(),
            start <= idx <= n,
            pieces.deep_view().push(s@.subrange(start as int, idx as int)) == split_on(s@.take(idx as int), c),
        decreases n - idx,
    {
        let ghost prev = s@.take(idx as int);
        assert(s@.take(idx + 1).drop_last() =~= prev);
        assert(s@.take(idx + 1).last() == s@[idx as int]);
        proof { lemma_split_on_nonempty(prev, c); }
        if s.get_char(idx) == c {
            let piece = s.substring_char(start, idx);
            let ghost before = pieces.deep_view();
            pieces.push(piece.to_owned());
            assert(pieces.deep_view() =~= before.push(s@.subrange(start as int, idx as int)));
            start = idx + 1;
            assert(s@.subrange(start as int, idx + 1) =~= Seq::<char>::empty());
            assert(pieces.deep_view().push(s@.subrange(start as int, idx + 1)) =~= split_on(s@.take(idx + 1), c));
        } else {
            assert(s@.subrange(start as int, idx + 1) =~= s@.subrange(start as int, idx as int).push(s@[idx as int]));
            let ghost p = split_on(prev, c);
            assert(p == pieces.deep_view().push(s@.subrange(start as int, idx as int)));
            assert(split_on(s@.take(idx + 1), c) == p.update(p.len() - 1, p.last().push(s@[idx as int])));
            assert(pieces.deep_view().push(s@.subrange(start as int, idx + 1)) =~= split_on(s@.take(idx + 1), c));
        }
        idx = idx + 1;
    }
    let last = s.substring_char(start, n);
    pieces.push(last.to_owned());
    assert(s@.take(n as int) =~= s@);
    pieces
}

/// Splits each value at `c` and collects the pieces in order.
pub fn split_values(values: &Vec<String>, c: char) -> (r: Vec<String>)
    ensures r.deep_view() == split_all(values.deep_view(), c),
{
    let ghost vv = values.deep_view();
    let mut r: Vec<String> = Vec::new();
    let mut idx: usize = 0;
    assert(vv.take(0) =~= Seq::<Seq<char>>::empty());
    while idx < values.len()
        invariant
            idx <= values.len(),
            vv == values.deep_view(),
            r.deep_view() == split_all(vv.take(idx as int), c),
        decreases values.len() - idx,
    {
        let pieces = split_text(values[idx].as_str(), c);
        let mut p: usize = 0;
        let ghost base = r.deep_view();
        while p < pieces.len()
            invariant
                p <= pieces.len(),
                r.deep_view() == base + pieces.deep_view().take(p as int),
            decreases pieces.len() - p,
        {
            let ghost before = r.deep_view();
            r.push(pieces[p].clone());
            assert(r.deep_view() =~= before.push(pieces.deep_view()[p as int]));
            assert(pieces.deep_view().take(p + 1) =~= pieces.deep_view().take(p as int).push(pieces.deep_view()[p as int]));
            p = p + 1;
        }
        assert(pieces.deep_view().take(pieces.len() as int) =~= pieces.deep_view());
        assert(vv.take(idx + 1).drop_last() =~= vv.take(idx as int));
        assert(vv.take(idx + 1).last() == vv[idx as int]);
        idx = idx + 1;
    }
    assert(vv.take(values.len() as int) =~= vv);
    r
}

/// The value of a digit character.
pub open spec fn digit_value(c: char) -> nat {
    (c as int - '0' as int) as nat
}

/// Whether every character of `s` is a decimal digit.
pub open spec fn all_digits(s: Seq<char>) -> bool {
    forall|i: int| 0 <= i < s.len() ==> '0' <= #[trigger] s[i] <= '9'
}

/// The number that the decimal digits `s` write.
pub open spec fn digits_value(s: Seq<char>) -> nat
    decreases s.len(),
{
    if s.len() == 0 { 0 } else { digits_value(s.drop_last()) * 10 + digit_value(s.last()) }
}

/// The digits of an unsigned number as `u32::from_str` reads them: an
/// optional `+`, then at least one digit.
pub open spec fn number_digits(s: Seq<char>) -> Seq<char> {
    if s.len() > 0 && s[0] == '+' { s.subrange(1, s.len() as int) } else { s }
}

/// The `u32` that `s` writes, as `u32::from_str` reads it.
pub open spec fn u32_of_text(s: Seq<char>) -> Option<u32> {
    let d = number_digits(s);
    if d.len() > 0 && all_digits(d) && digits_value(d) <= u32::MAX {
        Some(digits_value(d) as u32)
    } else {
        None
    }
}

/// A prefix of digits writes a number no larger than the whole.
proof fn lemma_digits_value_prefix(s: Seq<char>, i: int)
    requires
        0 <= i <= s.len(),
        all_digits(s),
    ensures digits_value(s.take(i)) <= digits_value(s),
    decreases s.len() - i,
{
    if i < s.len() {
        lemma_digits_value_prefix(s, i + 1);
        assert(s.take(i + 1).drop_last() =~= s.take(i));
        assert(s.take(i + 1).last() == s[i]);
    } else {
        assert(s.take(i) =~= s);
    }
}

/// Reads an unsigned number.
pub fn parse_u32(s: &str) -> (r: Option<u32>)
    ensures r == u32_of_text(s@),
{
    let n = s.unicode_len();
    let start: usize = if n > 0 && s.get_char(0) == '+' { 1 } else { 0 };
    let ghost d = number_digits(s@);
    assert(d =~= s@.subrange(start as int, n as int));
    if start >= n {
        return None;
    }
    let mut value: u64 = 0;
    let mut idx: usize = start;
    assert(d.take(0) =~= Seq::<char>::empty());
    while idx < n
        invariant
            start <= idx <= n,
            n == s@.len(),
            d == s@.subrange(start as int, n as int),
            d == number_digits(s@),
            all_digits(d.take(idx - start)),
            value == digits_value(d.take(idx - start)),
            value <= u32::MAX,
        decreases n - idx,
    {
        let c = s.get_char(idx);
        assert(d[idx - start] == c);
        if c < '0' || c > '9' {
            assert(!all_digits(d));
            return None;
        }
        let dv = (c as u32 - '0' as u32) as u64;
        assert(d.take(idx - start + 1).drop_last() =~= d.take(idx - start));
        assert(d.take(idx - start + 1).last() == c);
        value = value * 10 + dv;
        assert(all_digits(d.take(idx - start + 1)));
        if value > 0xffff_ffff {
            proof {
                if all_digits(d) {
                    lemma_digits_value_prefix(d, idx - start + 1);
                }
            }
            return None;
        }
        idx = idx + 1;
    }
    assert(d.take(n - start) =~= d);
    Some(value as u32)
}

/// When the first occurrence of a level is of option `k`, its value is the
/// first value of `k`.
pub proof fn lemma_values_of_first(acc: Seq<Occ>, k: nat)
    requires
        acc.len() > 0,
        acc[0].arg == k,
    ensures
        values_of(acc, k).len() > 0,
        values_of(acc, k)[0] == acc[0].value,
    decreases acc.len(),
{
    if acc.len() > 1 {
        let init = acc.drop_last();
        lemma_values_of_first(init, k);
        assert(init[0] == acc[0]);
    } else {
        assert(values_of(acc.drop_last(), k) =~= Seq::<Option<Seq<char>>>::empty());
        assert(acc.last() == acc[0]);
    }
}

} // verus!
