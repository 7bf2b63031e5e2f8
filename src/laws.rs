use vstd::prelude::*;
use crate::data::{data_run, data_values, lines_of};
use crate::error::ErrorSpec;
use crate::func_id::function_id;
use crate::grammar::{classify, LineSpec};
use crate::parser::{
    empty_model, find_obj, is_signed_name, lookup, parse_spec, pass, read_file, read_libs, ref_end,
    render, run, subst_from, substitute, update_spec, Model, Section,
};
use crate::text::{is_name_char, run_end, Class};

verus! {

/// Closing the section of a global function records, under the function's
/// identifier, whether its name ends with `_authorized`.
pub proof fn lemma_signed_suffix(m: Model, name: Seq<char>, body: Seq<char>, first: bool)
    requires
        find_obj(m.globals, name, 0) >= 0,
        m.globals[find_obj(m.globals, name, 0)].dtype is Function,
        update_spec(m, Section::Globl, name, body, first) is Ok,
    ensures
        update_spec(m, Section::Globl, name, body, first)->Ok_0.signed[function_id(name)]
            == is_signed_name(name),
{
}

/// Once a selector has been read, closing another selector section fails.
pub proof fn lemma_second_selector(m: Model, name: Seq<char>, body: Seq<char>, first: bool)
    requires
        m.entry.len() > 0,
    ensures
        update_spec(m, Section::Selector, name, body, first) == Err::<Model, ErrorSpec>(
            ErrorSpec::AnotherSelector,
        ),
{
}

/// A parse that succeeds has found a selector.
pub proof fn lemma_selector_found(m: Model, source: Seq<char>, libs: Seq<Seq<char>>)
    ensures
        parse_spec(m, source, libs) matches Ok(result) ==> result.entry.len() > 0,
{
}

/// No line of `text` is a `.selector` line.
pub open spec fn no_selector_line(text: Seq<char>) -> bool {
    forall|k: int|
        0 <= k < lines_of(text, true).len() ==> !(classify(#[trigger] lines_of(text, true)[k]) is Selector)
}

proof fn lemma_run_keeps_entry(m: Model, lines: Seq<Seq<char>>, k: int, first: bool)
    requires
        0 <= k <= lines.len(),
        forall|j: int| 0 <= j < lines.len() ==> !(classify(#[trigger] lines[j]) is Selector),
        run(m, lines, k, first) is Ok,
    ensures
        run(m, lines, k, first)->Ok_0.0.entry == m.entry,
        !(run(m, lines, k, first)->Ok_0.1.section is Selector),
    decreases k,
{
    if k > 0 {
        lemma_run_keeps_entry(m, lines, k - 1, first);
        assert(!(classify(lines[k - 1]) is Selector));
    }
}

proof fn lemma_pass_keeps_entry(m: Model, text: Seq<char>, first: bool)
    requires
        no_selector_line(text),
        pass(m, text, first) is Ok,
    ensures
        pass(m, text, first)->Ok_0.entry == m.entry,
{
    let lines = lines_of(text, true);
    assert forall|j: int| 0 <= j < lines.len() implies !(classify(#[trigger] lines[j]) is Selector) by {
        assert(!(classify(lines_of(text, true)[j]) is Selector));
    }
    lemma_run_keeps_entry(m, lines, lines.len() as int, first);
}

proof fn lemma_libs_keep_entry(m: Model, libs: Seq<Seq<char>>, k: int)
    requires
        0 <= k <= libs.len(),
        forall|i: int| 0 <= i < libs.len() ==> no_selector_line(#[trigger] libs[i]),
        read_libs(m, libs, k) is Ok,
    ensures
        read_libs(m, libs, k)->Ok_0.entry == m.entry,
    decreases k,
{
    if k > 0 {
        lemma_libs_keep_entry(m, libs, k - 1);
        let m1 = read_libs(m, libs, k - 1)->Ok_0;
        assert(no_selector_line(libs[k - 1]));
        lemma_pass_keeps_entry(m1, libs[k - 1], true);
        lemma_pass_keeps_entry(pass(m1, libs[k - 1], true)->Ok_0, libs[k - 1], false);
    }
}

/// Without a `.selector` line in any input, a parse from empty tables fails.
pub proof fn lemma_selector_required(source: Seq<char>, libs: Seq<Seq<char>>)
    requires
        no_selector_line(source),
        forall|i: int| 0 <= i < libs.len() ==> no_selector_line(#[trigger] libs[i]),
    ensures
        parse_spec(empty_model(), source, libs) is Err,
{
    let m = empty_model();
    if read_libs(m, libs, libs.len() as int) is Ok {
        lemma_libs_keep_entry(m, libs, libs.len() as int);
        let m1 = read_libs(m, libs, libs.len() as int)->Ok_0;
        if read_file(m1, source) is Ok {
            lemma_pass_keeps_entry(m1, source, true);
            lemma_pass_keeps_entry(pass(m1, source, true)->Ok_0, source, false);
        }
    }
}

/// Some line of `text` is a `.selector` line.
pub open spec fn has_selector_line(text: Seq<char>) -> bool {
    exists|k: int|
        0 <= k < lines_of(text, true).len() && (classify(#[trigger] lines_of(text, true)[k]) is Selector)
}

proof fn lemma_run_entry_stays(m: Model, lines: Seq<Seq<char>>, k: int, first: bool)
    requires
        m.entry.len() > 0,
        run(m, lines, k, first) is Ok,
    ensures
        run(m, lines, k, first)->Ok_0.0.entry.len() > 0,
    decreases k,
{
    if k > 0 {
        lemma_run_entry_stays(m, lines, k - 1, first);
    }
}

proof fn lemma_pass_entry_stays(m: Model, text: Seq<char>, first: bool)
    requires
        m.entry.len() > 0,
        pass(m, text, first) is Ok,
    ensures
        pass(m, text, first)->Ok_0.entry.len() > 0,
{
    let lines = lines_of(text, true);
    lemma_run_entry_stays(m, lines, lines.len() as int, first);
}

/// In a second pass with a selector already known, the section that a
/// `.selector` line at `j` opens stays open until it fails.
proof fn lemma_selector_stays_open(m: Model, lines: Seq<Seq<char>>, j: int, k: int)
    requires
        m.entry.len() > 0,
        0 <= j < k <= lines.len(),
        classify(lines[j]) is Selector,
        run(m, lines, k, false) is Ok,
    ensures
        run(m, lines, k, false)->Ok_0.1.section is Selector,
    decreases k,
{
    lemma_run_entry_stays(m, lines, k - 1, false);
    if k - 1 > j {
        lemma_selector_stays_open(m, lines, j, k - 1);
    }
}

/// With a selector already known, the second pass over a file with a
/// `.selector` line fails.
proof fn lemma_second_pass_fails(m: Model, text: Seq<char>)
    requires
        m.entry.len() > 0,
        has_selector_line(text),
    ensures
        pass(m, text, false) is Err,
{
    let lines = lines_of(text, true);
    let j = choose|j: int| 0 <= j < lines.len() && (classify(#[trigger] lines[j]) is Selector);
    if run(m, lines, lines.len() as int, false) is Ok {
        lemma_selector_stays_open(m, lines, j, lines.len() as int);
        lemma_run_entry_stays(m, lines, lines.len() as int, false);
    }
}

/// When the libraries leave a selector in the tables, a source with a
/// `.selector` line of its own makes the parse fail.
pub proof fn lemma_selector_unique(m: Model, source: Seq<char>, libs: Seq<Seq<char>>)
    requires
        read_libs(m, libs, libs.len() as int) matches Ok(m1) && m1.entry.len() > 0,
        has_selector_line(source),
    ensures
        parse_spec(m, source, libs) is Err,
{
    let m1 = read_libs(m, libs, libs.len() as int)->Ok_0;
    if pass(m1, source, true) is Ok {
        lemma_pass_entry_stays(m1, source, true);
        lemma_second_pass_fails(pass(m1, source, true)->Ok_0, source);
    }
}

/// Closing an internal function's section fails when no alias gave its name
/// an identifier.
pub proof fn lemma_alias_required(m: Model, name: Seq<char>, body: Seq<char>, first: bool)
    requires
        lookup(m.aliases, name) is None,
    ensures
        update_spec(m, Section::Internal, name, body, first) == Err::<Model, ErrorSpec>(
            ErrorSpec::AliasNotFound(name),
        ),
{
}

/// The total width of a list of values.
pub open spec fn widths(v: Seq<(i64, nat)>) -> nat
    decreases v.len(),
{
    if v.len() == 0 {
        0
    } else {
        widths(v.drop_last()) + v.last().1
    }
}

proof fn lemma_data_run_size(lines: Seq<Seq<char>>, k: int, size: nat, values: Seq<(i64, nat)>)
    requires
        data_run(lines, k, size, values) is Ok,
    ensures
        ({
            let (left, v) = data_run(lines, k, size, values)->Ok_0;
            &&& values.len() <= v.len()
            &&& v.subrange(0, values.len() as int) == values
            &&& left + widths(v.subrange(values.len() as int, v.len() as int)) == size
        }),
    decreases k,
{
    if k <= 0 {
        assert(values.subrange(0, values.len() as int) =~= values);
        assert(values.subrange(values.len() as int, values.len() as int) =~= Seq::<(i64, nat)>::empty());
    } else {
        lemma_data_run_size(lines, k - 1, size, values);
        let (s0, v0) = data_run(lines, k - 1, size, values)->Ok_0;
        let (s1, v1) = data_run(lines, k, size, values)->Ok_0;
        if v1 != v0 {
            let tail0 = v0.subrange(values.len() as int, v0.len() as int);
            let tail1 = v1.subrange(values.len() as int, v1.len() as int);
            assert(v1 == v0.push(v1.last()));
            assert(tail1.drop_last() =~= tail0);
            assert(v1.subrange(0, values.len() as int) =~= v0.subrange(0, values.len() as int));
        }
    }
}

/// The values that a data object's body lists fill its `.size` exactly: on
/// success, the values appended take `size` bytes in all.
pub proof fn lemma_data_size(body: Seq<char>, size: nat, values: Seq<(i64, nat)>)
    requires
        data_values(body, size, values) is Ok,
    ensures
        ({
            let v = data_values(body, size, values)->Ok_0;
            &&& values.len() <= v.len()
            &&& v.subrange(0, values.len() as int) == values
            &&& widths(v.subrange(values.len() as int, v.len() as int)) == size
        }),
{
    let lines = lines_of(body, false);
    lemma_data_run_size(lines, lines.len() as int, size, values);
}

/// A run of name characters ends at the first other character.
proof fn lemma_name_run(s: Seq<char>, i: int, e: int)
    requires
        0 <= i <= e < s.len(),
        forall|k: int| i <= k < e ==> is_name_char(#[trigger] s[k]),
        !is_name_char(s[e]),
    ensures
        run_end(s, i, Class::Name) == e,
    decreases e - i,
{
    if i < e {
        lemma_name_run(s, i + 1, e);
    }
}

/// Text with no `$` is left as it is, up to the first reference.
proof fn lemma_plain_prefix(m: Model, s: Seq<char>, i: int, p: int)
    requires
        0 <= i <= p <= s.len(),
        forall|k: int| 0 <= k < p ==> #[trigger] s[k] != '$',
    ensures
        subst_from(m, s, i) == s.subrange(i, p) + subst_from(m, s, p),
    decreases p - i,
{
    if i < p {
        assert(ref_end(s, i) == -1);
        lemma_plain_prefix(m, s, i + 1, p);
        assert(s.subrange(i, p) =~= seq![s[i]] + s.subrange(i + 1, p));
    } else {
        assert(s.subrange(i, p) =~= Seq::<char>::empty());
    }
}

/// A label reference after text without `$` is replaced by the identifier
/// it refers to, or by `???`; the text before it is kept.
pub proof fn lemma_substitute_reference(m: Model, pre: Seq<char>, key: Seq<char>)
    requires
        forall|k: int| 0 <= k < pre.len() ==> #[trigger] pre[k] != '$',
        key.len() > 0,
        ({
            let start = if key[0] == ':' { 1int } else { 0int };
            &&& start < key.len()
            &&& forall|k: int| start <= k < key.len() ==> is_name_char(#[trigger] key[k])
        }),
    ensures
        substitute(m, pre + seq!['$'] + key + seq!['$']) == pre + render(m, key),
{
    let s = pre + seq!['$'] + key + seq!['$'];
    let p = pre.len() as int;
    let start = if key[0] == ':' { 1int } else { 0int };
    let e = p + 1 + key.len();
    assert(s[p] == '$');
    assert(s[e] == '$');
    assert forall|k: int| 0 <= k < p implies #[trigger] s[k] != '$' by {
        assert(s[k] == pre[k]);
    }
    lemma_plain_prefix(m, s, 0, p);
    assert forall|k: int| p + 1 + start <= k < e implies is_name_char(#[trigger] s[k]) by {
        assert(s[k] == key[k - p - 1]);
    }
    if start == 1 {
        assert(s[p + 1] == ':');
    } else {
        assert(is_name_char(s[p + 1]));
    }
    lemma_name_run(s, p + 1 + start, e);
    assert(ref_end(s, p) == e + 1);
    assert(s.subrange(p + 1, e) =~= key);
    assert(subst_from(m, s, e + 1) =~= Seq::<char>::empty());
    assert(s.subrange(0, p) =~= pre);
    assert(render(m, key) + Seq::<char>::empty() =~= render(m, key));
}

} // verus!
