//! Building the argument list of an external tool's command line.
//!
//! An argument list is viewed as `Seq<Seq<char>>`, one entry per argument.
use vstd::prelude::*;
use crate::text::{decimal, i64_to_string, signed_decimal, u64_to_string};

verus! {

/// The text of an optional string.
pub open spec fn opt_view(o: Option<String>) -> Option<Seq<char>> {
    match o {
        Some(s) => Some(s@),
        None => None,
    }
}

/// A switch that appears on the command line only when it is on.
#[verifier::opaque]
pub open spec fn flag_arg(on: bool, name: Seq<char>) -> Seq<Seq<char>> {
    if on { seq![name] } else { Seq::empty() }
}

/// An option followed by its value, present only when the value is.
#[verifier::opaque]
pub open spec fn opt_arg(name: Seq<char>, value: Option<Seq<char>>) -> Seq<Seq<char>> {
    match value {
        Some(v) => seq![name, v],
        None => Seq::empty(),
    }
}

/// An option followed by an unsigned number, present only when the number is.
#[verifier::opaque]
pub open spec fn opt_num_arg(name: Seq<char>, value: Option<u32>) -> Seq<Seq<char>> {
    match value {
        Some(v) => seq![name, decimal(v as nat)],
        None => Seq::empty(),
    }
}

/// An option followed by a signed number, present only when the number is.
#[verifier::opaque]
pub open spec fn opt_int_arg(name: Seq<char>, value: Option<i32>) -> Seq<Seq<char>> {
    match value {
        Some(v) => seq![name, signed_decimal(v as int)],
        None => Seq::empty(),
    }
}

/// The option `name` repeated before each of `values`.
pub open spec fn each_arg(name: Seq<char>, values: Seq<Seq<char>>) -> Seq<Seq<char>>
    decreases values.len(),
{
    if values.len() == 0 {
        Seq::empty()
    } else {
        each_arg(name, values.drop_last()) + seq![name, values.last()]
    }
}

/// The items of `list` with `sep` between each two of them.
pub open spec fn join(list: Seq<Seq<char>>, sep: Seq<char>) -> Seq<char>
    decreases list.len(),
{
    if list.len() == 0 {
        Seq::empty()
    } else if list.len() == 1 {
        list[0]
    } else {
        join(list.drop_last(), sep) + sep + list.last()
    }
}

/// An option followed by the joined values, present only when there are values.
#[verifier::opaque]
pub open spec fn joined_arg(name: Seq<char>, values: Seq<Seq<char>>, sep: Seq<char>) -> Seq<Seq<char>> {
    if values.len() > 0 {
        seq![name, join(values, sep)]
    } else {
        Seq::empty()
    }
}

/// Appends one argument.
pub fn push_arg(args: &mut Vec<String>, arg: &str)
    ensures final(args).deep_view() == old(args).deep_view().push(arg@),
{
    args.push(arg.to_owned());
    assert(args.deep_view() =~= old(args).deep_view().push(arg@));
}

/// Appends one argument that is already a `String`.
pub fn push_string(args: &mut Vec<String>, arg: String)
    ensures final(args).deep_view() == old(args).deep_view().push(arg@),
{
    let ghost a = arg@;
    args.push(arg);
    assert(args.deep_view() =~= old(args).deep_view().push(a));
}

/// Appends `name` when `on` holds.
pub fn push_flag(args: &mut Vec<String>, on: bool, name: &str)
    ensures final(args).deep_view() == old(args).deep_view() + flag_arg(on, name@),
{
    reveal(flag_arg);
    if on {
        push_arg(args, name);
    }
    assert(args.deep_view() =~= old(args).deep_view() + flag_arg(on, name@));
}

/// Appends `name` and the value when there is one.
pub fn push_opt(args: &mut Vec<String>, name: &str, value: &Option<String>)
    ensures final(args).deep_view() == old(args).deep_view() + opt_arg(name@, opt_view(*value)),
{
    reveal(opt_arg);
    match value {
        Some(v) => {
            push_arg(args, name);
            push_arg(args, v.as_str());
        },
        None => {},
    }
    assert(args.deep_view() =~= old(args).deep_view() + opt_arg(name@, opt_view(*value)));
}

/// Appends `name` and the number when there is one.
pub fn push_opt_u32(args: &mut Vec<String>, name: &str, value: Option<u32>)
    ensures final(args).deep_view() == old(args).deep_view() + opt_num_arg(name@, value),
{
    reveal(opt_num_arg);
    match value {
        Some(v) => {
            push_arg(args, name);
            push_string(args, u64_to_string(v as u64));
        },
        None => {},
    }
    assert(args.deep_view() =~= old(args).deep_view() + opt_num_arg(name@, value));
}

/// Appends `name` and the signed number when there is one.
pub fn push_opt_i32(args: &mut Vec<String>, name: &str, value: Option<i32>)
    ensures final(args).deep_view() == old(args).deep_view() + opt_int_arg(name@, value),
{
    reveal(opt_int_arg);
    match value {
        Some(v) => {
            push_arg(args, name);
            push_string(args, i64_to_string(v as i64));
        },
        None => {},
    }
    assert(args.deep_view() =~= old(args).deep_view() + opt_int_arg(name@, value));
}

/// Appends every one of `values`.
pub fn push_all(args: &mut Vec<String>, values: &Vec<String>)
    ensures final(args).deep_view() == old(args).deep_view() + values.deep_view(),
{
    let ghost start = args.deep_view();
    let mut i: usize = 0;
    while i < values.len()
        invariant
            i <= values.len(),
            args.deep_view() == start + values.deep_view().take(i as int),
        decreases values.len() - i,
    {
        push_arg(args, values[i].as_str());
        i = i + 1;
        assert(values.deep_view().take(i as int) =~= values.deep_view().take(i - 1).push(values[i - 1]@));
        assert(args.deep_view() =~= start + values.deep_view().take(i as int));
    }
    assert(values.deep_view().take(i as int) =~= values.deep_view());
}

/// The items of `values` when `on` holds, none otherwise.
#[verifier::opaque]
pub open spec fn all_if(on: bool, values: Seq<Seq<char>>) -> Seq<Seq<char>> {
    if on { values } else { Seq::empty() }
}

/// Appends every one of `values` when `on` holds.
pub fn push_all_if(args: &mut Vec<String>, on: bool, values: &Vec<String>)
    ensures final(args).deep_view() == old(args).deep_view() + all_if(on, values.deep_view()),
{
    reveal(all_if);
    if on {
        push_all(args, values);
    }
    assert(args.deep_view() =~= old(args).deep_view() + all_if(on, values.deep_view()));
}

/// Appends `name` before each of `values`.
pub fn push_each(args: &mut Vec<String>, name: &str, values: &Vec<String>)
    ensures final(args).deep_view() == old(args).deep_view() + each_arg(name@, values.deep_view()),
{
    let ghost start = args.deep_view();
    let mut i: usize = 0;
    assert(values.deep_view().take(0) =~= Seq::<Seq<char>>::empty());
    assert(args.deep_view() =~= start + each_arg(name@, values.deep_view().take(0)));
    while i < values.len()
        invariant
            i <= values.len(),
            args.deep_view() == start + each_arg(name@, values.deep_view().take(i as int)),
        decreases values.len() - i,
    {
        push_arg(args, name);
        push_arg(args, values[i].as_str());
        i = i + 1;
        assert(values.deep_view().take(i as int).drop_last() =~= values.deep_view().take(i - 1));
        assert(args.deep_view() =~= start + each_arg(name@, values.deep_view().take(i as int)));
    }
    assert(values.deep_view().take(i as int) =~= values.deep_view());
}

/// The items of `values` joined by `sep`, as `[String]::join` gives it.
pub fn join_strings(values: &Vec<String>, sep: &str) -> (r: String)
    ensures r@ == join(values.deep_view(), sep@),
{
    let mut r = String::new();
    let mut i: usize = 0;
    while i < values.len()
        invariant
            i <= values.len(),
            r@ == join(values.deep_view().take(i as int), sep@),
        decreases values.len() - i,
    {
        if i > 0 {
            r.append(sep);
        }
        r.append(values[i].as_str());
        i = i + 1;
        assert(values.deep_view().take(i as int).drop_last() =~= values.deep_view().take(i - 1));
        assert(r@ =~= join(values.deep_view().take(i as int), sep@));
    }
    assert(values.deep_view().take(i as int) =~= values.deep_view());
    r
}

/// Appends `name` and the values joined by `sep`, when there are values.
pub fn push_joined(args: &mut Vec<String>, name: &str, values: &Vec<String>, sep: &str)
    ensures final(args).deep_view() == old(args).deep_view() + joined_arg(name@, values.deep_view(), sep@),
{
    reveal(joined_arg);
    if values.len() > 0 {
        push_arg(args, name);
        push_string(args, join_strings(values, sep));
    }
    assert(args.deep_view() =~= old(args).deep_view() + joined_arg(name@, values.deep_view(), sep@));
}

/// A copy of a list of strings.
pub fn clone_strings(values: &[String]) -> (r: Vec<String>)
    ensures r@ == values@,
{
    let mut r: Vec<String> = Vec::new();
    let mut i: usize = 0;
    while i < values.len()
        invariant
            i <= values.len(),
            r@ == values@.take(i as int),
        decreases values.len() - i,
    {
        r.push(values[i].clone());
        i = i + 1;
        assert(r@ =~= values@.take(i as int));
    }
    assert(values@.take(i as int) =~= values@);
    r
}

/// `prefix` and the value written together as one argument, present only
/// when the value is (`--name=value`).
#[verifier::opaque]
pub open spec fn prefixed_arg(prefix: Seq<char>, value: Option<Seq<char>>) -> Seq<Seq<char>> {
    match value {
        Some(v) => seq![prefix + v],
        None => Seq::empty(),
    }
}

/// The decimal text of an optional number.
pub open spec fn opt_decimal(value: Option<u32>) -> Option<Seq<char>> {
    match value {
        Some(v) => Some(decimal(v as nat)),
        None => None,
    }
}

/// Appends `prefix` and the value as one argument, when there is a value.
pub fn push_prefixed(args: &mut Vec<String>, prefix: &str, value: &Option<String>)
    ensures final(args).deep_view() == old(args).deep_view() + prefixed_arg(prefix@, opt_view(*value)),
{
    reveal(prefixed_arg);
    match value {
        Some(v) => {
            let mut a = prefix.to_owned();
            a.append(v.as_str());
            push_string(args, a);
        },
        None => {},
    }
    assert(args.deep_view() =~= old(args).deep_view() + prefixed_arg(prefix@, opt_view(*value)));
}

/// Appends `prefix` and the number as one argument, when there is a number.
pub fn push_prefixed_u32(args: &mut Vec<String>, prefix: &str, value: Option<u32>)
    ensures final(args).deep_view() == old(args).deep_view() + prefixed_arg(prefix@, opt_decimal(value)),
{
    let text = match value {
        Some(v) => Some(u64_to_string(v as u64)),
        None => None,
    };
    assert(opt_view(text) == opt_decimal(value));
    push_prefixed(args, prefix, &text);
}

/// A program and the arguments it is run with.
#[derive(Debug, Clone)]
pub struct ToolCommand {
    pub program: String,
    pub args: Vec<String>,
}

impl ToolCommand {
    /// The command line of `program` with no arguments yet.
    pub fn new(program: &str) -> (r: ToolCommand)
        ensures r.program@ == program@, r.args.deep_view() == Seq::<Seq<char>>::empty(),
    {
        let r = ToolCommand { program: program.to_owned(), args: Vec::new() };
        assert(r.args.deep_view() =~= Seq::<Seq<char>>::empty());
        r
    }
}

/// An item of either part of a concatenation is an item of the whole.
pub proof fn lemma_concat_contains<A>(a: Seq<A>, b: Seq<A>, x: A)
    ensures
        a.contains(x) ==> (a + b).contains(x),
        b.contains(x) ==> (a + b).contains(x),
{
    if a.contains(x) {
        let i = choose|i: int| 0 <= i < a.len() && a[i] == x;
        assert((a + b)[i] == x);
    }
    if b.contains(x) {
        let i = choose|i: int| 0 <= i < b.len() && b[i] == x;
        assert((a + b)[a.len() + i] == x);
    }
}

/// A sequence holds each of its items.
pub proof fn lemma_index_contains<A>(s: Seq<A>, i: int)
    requires
        0 <= i < s.len(),
    ensures
        s.contains(s[i]),
{
}

/// A switch that is on is among its arguments.
pub proof fn lemma_flag_arg_contains(on: bool, name: Seq<char>)
    ensures
        on ==> flag_arg(on, name).contains(name),
{
    reveal(flag_arg);
    if on {
        assert(flag_arg(on, name)[0] == name);
    }
}

/// An option written as `prefix` and its value is among its arguments when
/// the value is there.
pub proof fn lemma_prefixed_arg_contains(prefix: Seq<char>, value: Option<Seq<char>>)
    ensures
        value is Some ==> prefixed_arg(prefix, value).contains(prefix + value->0),
{
    reveal(prefixed_arg);
    if value is Some {
        assert(prefixed_arg(prefix, value)[0] == prefix + value->0);
    }
}

/// Whether `name` is immediately followed by `value` somewhere in `args`.
pub open spec fn has_option(args: Seq<Seq<char>>, name: Seq<char>, value: Seq<char>) -> bool {
    exists|i: int| #![trigger args[i]] 0 <= i && i + 1 < args.len() && args[i] == name && args[i + 1] == value
}

/// An argument of either part of a concatenation is an argument of the whole.
pub broadcast proof fn lemma_concat_keeps_items(a: Seq<Seq<char>>, b: Seq<Seq<char>>, x: Seq<char>)
    ensures
        (a.contains(x) || b.contains(x)) ==> #[trigger] (a + b).contains(x),
{
    lemma_concat_contains(a, b, x);
}

/// An option and its value in either part of a concatenation stay together
/// in the whole.
pub broadcast proof fn lemma_concat_keeps_options(a: Seq<Seq<char>>, b: Seq<Seq<char>>, name: Seq<char>, value: Seq<char>)
    ensures
        (has_option(a, name, value) || has_option(b, name, value)) ==> #[trigger] has_option(a + b, name, value),
{
    if has_option(a, name, value) {
        let i = choose|i: int| #![trigger a[i]] 0 <= i && i + 1 < a.len() && a[i] == name && a[i + 1] == value;
        assert((a + b)[i] == name && (a + b)[i + 1] == value);
    } else if has_option(b, name, value) {
        let i = choose|i: int| #![trigger b[i]] 0 <= i && i + 1 < b.len() && b[i] == name && b[i + 1] == value;
        assert((a + b)[a.len() + i] == name && (a + b)[a.len() + i + 1] == value);
    }
}

/// A switch that is on is passed.
pub broadcast proof fn lemma_flag_arg_passed(on: bool, name: Seq<char>)
    ensures
        on ==> #[trigger] flag_arg(on, name).contains(name),
{
    lemma_flag_arg_contains(on, name);
}

/// An option with a value is passed followed by it.
pub broadcast proof fn lemma_opt_arg_passed(name: Seq<char>, value: Option<Seq<char>>)
    ensures
        value is Some ==> has_option(#[trigger] opt_arg(name, value), name, value->0),
{
    reveal(opt_arg);
    if value is Some {
        assert(opt_arg(name, value)[0] == name && opt_arg(name, value)[1] == value->0);
    }
}

/// An option with a number is passed followed by the number's decimal text.
pub broadcast proof fn lemma_opt_num_arg_passed(name: Seq<char>, value: Option<u32>)
    ensures
        value is Some ==> has_option(#[trigger] opt_num_arg(name, value), name, decimal(value->0 as nat)),
{
    reveal(opt_num_arg);
    if value is Some {
        assert(opt_num_arg(name, value)[0] == name && opt_num_arg(name, value)[1] == decimal(value->0 as nat));
    }
}

/// An option with a signed number is passed followed by the number's decimal text.
pub broadcast proof fn lemma_opt_int_arg_passed(name: Seq<char>, value: Option<i32>)
    ensures
        value is Some ==> has_option(#[trigger] opt_int_arg(name, value), name, signed_decimal(value->0 as int)),
{
    reveal(opt_int_arg);
    if value is Some {
        assert(opt_int_arg(name, value)[0] == name
            && opt_int_arg(name, value)[1] == signed_decimal(value->0 as int));
    }
}

/// A list option with values is passed followed by the values joined.
pub broadcast proof fn lemma_joined_arg_passed(name: Seq<char>, values: Seq<Seq<char>>, sep: Seq<char>)
    ensures
        values.len() > 0 ==> has_option(#[trigger] joined_arg(name, values, sep), name, join(values, sep)),
{
    reveal(joined_arg);
    if values.len() > 0 {
        assert(joined_arg(name, values, sep)[0] == name && joined_arg(name, values, sep)[1] == join(values, sep));
    }
}

/// A repeated option is passed before each of its values.
pub proof fn lemma_each_arg_passed(name: Seq<char>, values: Seq<Seq<char>>)
    ensures
        forall|k: int| 0 <= k < values.len() ==> #[trigger] has_option(each_arg(name, values), name, values[k]),
    decreases values.len(),
{
    if values.len() > 0 {
        let init = values.drop_last();
        lemma_each_arg_passed(name, init);
        let tail = seq![name, values.last()];
        assert forall|k: int| 0 <= k < values.len() implies #[trigger] has_option(each_arg(name, values), name, values[k]) by {
            if k < init.len() {
                assert(init[k] == values[k]);
                lemma_concat_keeps_options(each_arg(name, init), tail, name, values[k]);
            } else {
                assert(tail[0] == name && tail[1] == values[k]);
                assert(has_option(tail, name, values[k]));
                lemma_concat_keeps_options(each_arg(name, init), tail, name, values[k]);
            }
        }
    }
}

/// An option written with its value in one argument is passed when the
/// value is there.
pub broadcast proof fn lemma_prefixed_arg_passed(prefix: Seq<char>, value: Option<Seq<char>>)
    ensures
        value is Some ==> (#[trigger] prefixed_arg(prefix, value)).contains(prefix + value->0),
{
    lemma_prefixed_arg_contains(prefix, value);
}

/// How options show in argument lists.
pub broadcast group group_args_passed {
    lemma_prefixed_arg_passed,
    lemma_concat_keeps_items,
    lemma_concat_keeps_options,
    lemma_flag_arg_passed,
    lemma_opt_arg_passed,
    lemma_opt_num_arg_passed,
    lemma_opt_int_arg_passed,
    lemma_joined_arg_passed,
}

/// Where item `k` of `list` starts in `join(list, sep)`.
pub open spec fn join_offset(list: Seq<Seq<char>>, sep: Seq<char>, k: nat) -> int
    decreases k,
{
    if k == 0 {
        0
    } else {
        join_offset(list, sep, (k - 1) as nat) + list[k - 1].len() + sep.len()
    }
}

proof fn lemma_join_offset_nonneg(list: Seq<Seq<char>>, sep: Seq<char>, k: nat)
    ensures
        0 <= join_offset(list, sep, k),
    decreases k,
{
    if k > 0 {
        lemma_join_offset_nonneg(list, sep, (k - 1) as nat);
    }
}

proof fn lemma_join_offset_prefix(list: Seq<Seq<char>>, sep: Seq<char>, k: nat)
    requires
        k < list.len(),
    ensures
        join_offset(list, sep, k) == join_offset(list.drop_last(), sep, k),
    decreases k,
{
    if k > 0 {
        lemma_join_offset_prefix(list, sep, (k - 1) as nat);
    }
}

proof fn lemma_join_end(list: Seq<Seq<char>>, sep: Seq<char>)
    requires
        list.len() > 0,
    ensures
        join_offset(list, sep, (list.len() - 1) as nat) + list.last().len() == join(list, sep).len(),
    decreases list.len(),
{
    if list.len() > 1 {
        let init = list.drop_last();
        lemma_join_end(init, sep);
        lemma_join_offset_prefix(list, sep, (list.len() - 2) as nat);
        assert(init.last() == list[list.len() - 2]);
    }
}

proof fn lemma_join_item(list: Seq<Seq<char>>, sep: Seq<char>, k: int)
    requires
        0 <= k < list.len(),
    ensures
        0 <= join_offset(list, sep, k as nat),
        join_offset(list, sep, k as nat) + list[k].len() <= join(list, sep).len(),
        join(list, sep).subrange(join_offset(list, sep, k as nat), join_offset(list, sep, k as nat) + list[k].len())
            == list[k],
    decreases list.len(),
{
    lemma_join_offset_nonneg(list, sep, k as nat);
    let o = join_offset(list, sep, k as nat);
    if list.len() == 1 {
        assert(join(list, sep).subrange(o, o + list[k].len()) =~= list[0]);
    } else {
        let init = list.drop_last();
        let j0 = join(init, sep);
        assert(join(list, sep) == j0 + sep + list.last());
        if k < list.len() - 1 {
            lemma_join_item(init, sep, k);
            lemma_join_offset_prefix(list, sep, k as nat);
            assert(init[k] == list[k]);
            assert(join(list, sep).subrange(o, o + list[k].len()) =~= j0.subrange(o, o + list[k].len()));
        } else {
            lemma_join_end(init, sep);
            lemma_join_offset_prefix(list, sep, (k - 1) as nat);
            assert(init.last() == list[k - 1]);
            assert(o == j0.len() + sep.len());
            assert(join(list, sep).subrange(o, o + list[k].len()) =~= list.last());
        }
    }
}

/// The items of a joined list stand in it in order, each at its offset, with
/// the separator between each two; the last one ends the text.
pub proof fn lemma_join_holds_items(list: Seq<Seq<char>>, sep: Seq<char>)
    ensures
        forall|k: int| #![trigger list[k]] 0 <= k < list.len() ==> {
            &&& 0 <= join_offset(list, sep, k as nat)
            &&& join_offset(list, sep, k as nat) + list[k].len() <= join(list, sep).len()
            &&& join(list, sep).subrange(join_offset(list, sep, k as nat), join_offset(list, sep, k as nat) + list[k].len())
                == list[k]
        },
        list.len() > 0 ==> join_offset(list, sep, (list.len() - 1) as nat) + list.last().len() == join(list, sep).len(),
{
    assert forall|k: int| #![trigger list[k]] 0 <= k < list.len() implies {
        &&& 0 <= join_offset(list, sep, k as nat)
        &&& join_offset(list, sep, k as nat) + list[k].len() <= join(list, sep).len()
        &&& join(list, sep).subrange(join_offset(list, sep, k as nat), join_offset(list, sep, k as nat) + list[k].len())
            == list[k]
    } by {
        lemma_join_item(list, sep, k);
    }
    if list.len() > 0 {
        lemma_join_end(list, sep);
    }
}

/// Whether the text `x` stands somewhere in the text `t`.
pub open spec fn occurs_in(t: Seq<char>, x: Seq<char>) -> bool {
    exists|p: int| 0 <= p && p + x.len() <= t.len() && #[trigger] t.subrange(p, p + x.len()) == x
}

/// A text that stands in either part of a concatenation stands in the whole.
pub broadcast proof fn lemma_occurs_in_concat(a: Seq<char>, b: Seq<char>, x: Seq<char>)
    ensures
        (occurs_in(a, x) || occurs_in(b, x)) ==> #[trigger] occurs_in(a + b, x),
{
    if occurs_in(a, x) {
        let p = choose|p: int| 0 <= p && p + x.len() <= a.len() && #[trigger] a.subrange(p, p + x.len()) == x;
        assert((a + b).subrange(p, p + x.len()) =~= a.subrange(p, p + x.len()));
    } else if occurs_in(b, x) {
        let p = choose|p: int| 0 <= p && p + x.len() <= b.len() && #[trigger] b.subrange(p, p + x.len()) == x;
        assert((a + b).subrange(a.len() + p, a.len() + p + x.len()) =~= b.subrange(p, p + x.len()));
    }
}

/// Each item of a joined list stands in the joined text.
pub proof fn lemma_join_items_occur(list: Seq<Seq<char>>, sep: Seq<char>)
    ensures
        forall|k: int| 0 <= k < list.len() ==> occurs_in(join(list, sep), #[trigger] list[k]),
{
    lemma_join_holds_items(list, sep);
    assert forall|k: int| 0 <= k < list.len() implies occurs_in(join(list, sep), #[trigger] list[k]) by {
        let o = join_offset(list, sep, k as nat);
        assert(join(list, sep).subrange(o, o + list[k].len()) == list[k]);
    }
}

} // verus!
