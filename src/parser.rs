use vstd::prelude::*;
use std::collections::HashMap;
use crate::data::{data_values, encode_value, lines_of, split_lines, update_data, values_view, DataValue};
use crate::error::{ErrorSpec, ParseError};
use crate::func_id::{calc_func_id, function_id};
use crate::grammar::{chars_view, classify, classify_line, Line, LineSpec};
use crate::text::{
    append_chars, decimal, decimal_chars, run_end, same_chars, signed_decimal, signed_decimal_chars,
    skip_run, trim_end, trim_end_chars, Class,
};

verus! {

broadcast use vstd::std_specs::hash::group_hash_axioms;

/// The type of a global object, as the specification sees it.
pub enum DType {
    /// No `.type` yet, or an unknown one.
    Untyped,
    /// A function: its identifier and its body.
    Function(u32, Seq<char>),
    /// A data object: its values and their widths in bytes.
    Data(Seq<(i64, nat)>),
}

/// A global object, as the specification sees it.
pub struct ObjSpec {
    pub name: Seq<char>,
    pub size: nat,
    pub dtype: DType,
}

/// The type of a global object.
pub enum ObjectType {
    /// No `.type` yet, or an unknown one.
    Untyped,
    Function(u32, Vec<char>),
    Data(Vec<DataValue>),
}

impl ObjectType {
    pub open spec fn view(&self) -> DType {
        match self {
            ObjectType::Untyped => DType::Untyped,
            ObjectType::Function(id, body) => DType::Function(*id, body@),
            ObjectType::Data(values) => DType::Data(values_view(values@)),
        }
    }

    /// The type that `.type NAME, @KIND` names: `function`, `object`, or
    /// none for any other kind.
    pub fn from(stype: &Vec<char>) -> (r: ObjectType)
        ensures
            r@ == dtype_of(stype@),
    {
        if same_chars(stype, &vec!['f', 'u', 'n', 'c', 't', 'i', 'o', 'n']) {
            ObjectType::Function(0, Vec::new())
        } else if same_chars(stype, &vec!['o', 'b', 'j', 'e', 'c', 't']) {
            let r = ObjectType::Data(Vec::new());
            assert(values_view(Seq::<DataValue>::empty()) =~= Seq::<(i64, nat)>::empty());
            r
        } else {
            ObjectType::Untyped
        }
    }
}

pub open spec fn dtype_of(kind: Seq<char>) -> DType {
    if kind == seq!['f', 'u', 'n', 'c', 't', 'i', 'o', 'n'] {
        DType::Function(0, Seq::empty())
    } else if kind == seq!['o', 'b', 'j', 'e', 'c', 't'] {
        DType::Data(Seq::empty())
    } else {
        DType::Untyped
    }
}

/// A named global symbol.
pub struct Object {
    pub name: Vec<char>,
    /// The bytes still to be filled, for a data object.
    pub size: usize,
    pub dtype: ObjectType,
}

impl Object {
    pub open spec fn view(&self) -> ObjSpec {
        ObjSpec { name: self.name@, size: self.size as nat, dtype: self.dtype@ }
    }

    /// A new object of size 0 with the type that `stype` names.
    pub fn new(name: Vec<char>, stype: &Vec<char>) -> (r: Object)
        ensures
            r@ == (ObjSpec { name: name@, size: 0, dtype: dtype_of(stype@) }),
    {
        Object { name, size: 0, dtype: ObjectType::from(stype) }
    }
}

/// Which section the lines being read belong to.
#[derive(Clone, Copy, Debug, PartialEq, Eq, Structural)]
pub enum Section {
    /// Outside any section: lines are read and dropped.
    Outside,
    Globl,
    Internal,
    Data,
    Selector,
}

/// The state of a parse, as the specification sees it.
pub struct Model {
    /// Global function name to identifier.
    pub xrefs: Seq<(Seq<char>, u32)>,
    /// Internal function name to identifier.
    pub intrefs: Seq<(Seq<char>, i32)>,
    /// Internal names declared by `.internal-alias`.
    pub aliases: Seq<(Seq<char>, i32)>,
    /// The global objects, in order of first mention.
    pub globals: Seq<ObjSpec>,
    /// Internal function identifier to body.
    pub internals: Map<i32, Seq<char>>,
    /// Function identifier to whether its name ends in `_authorized`.
    pub signed: Map<u32, bool>,
    /// The body of the selector.
    pub entry: Seq<char>,
}

/// The position of the first entry from `i` on whose key is `k`, or -1.
pub open spec fn find_from<V>(s: Seq<(Seq<char>, V)>, k: Seq<char>, i: int) -> int
    decreases s.len() - i,
{
    if i < 0 || i >= s.len() {
        -1
    } else if s[i].0 == k {
        i
    } else {
        find_from(s, k, i + 1)
    }
}

/// The value stored under `k`.
pub open spec fn lookup<V>(s: Seq<(Seq<char>, V)>, k: Seq<char>) -> Option<V> {
    let i = find_from(s, k, 0);
    if i >= 0 {
        Some(s[i].1)
    } else {
        None
    }
}

/// `s` with `v` stored under `k`: in place when `k` is there, at the end
/// otherwise.
pub open spec fn assign<V>(s: Seq<(Seq<char>, V)>, k: Seq<char>, v: V) -> Seq<(Seq<char>, V)> {
    let i = find_from(s, k, 0);
    if i >= 0 {
        s.update(i, (k, v))
    } else {
        s.push((k, v))
    }
}

pub proof fn lemma_find_from<V>(s: Seq<(Seq<char>, V)>, k: Seq<char>, i: int)
    requires
        0 <= i,
    ensures
        find_from(s, k, i) == -1 || (i <= find_from(s, k, i) < s.len() && s[find_from(s, k, i)].0 == k),
        find_from(s, k, i) == -1 ==> forall|j: int| i <= j < s.len() ==> s[j].0 != k,
    decreases s.len() - i,
{
    if 0 <= i < s.len() && s[i].0 != k {
        lemma_find_from(s, k, i + 1);
    }
}

/// The position of the object named `name`, or -1.
pub open spec fn find_obj(g: Seq<ObjSpec>, name: Seq<char>, i: int) -> int
    decreases g.len() - i,
{
    if i < 0 || i >= g.len() {
        -1
    } else if g[i].name == name {
        i
    } else {
        find_obj(g, name, i + 1)
    }
}

pub proof fn lemma_find_obj(g: Seq<ObjSpec>, name: Seq<char>, i: int)
    requires
        0 <= i,
    ensures
        find_obj(g, name, i) == -1 || (i <= find_obj(g, name, i) < g.len() && g[find_obj(g, name, i)].name
            == name),
        find_obj(g, name, i) == -1 ==> forall|j: int| i <= j < g.len() ==> g[j].name != name,
    decreases g.len() - i,
{
    if 0 <= i < g.len() && g[i].name != name {
        lemma_find_obj(g, name, i + 1);
    }
}

/// The name ends with `_authorized`: the function checks a signature.
pub open spec fn is_signed_name(name: Seq<char>) -> bool {
    let suffix = seq!['_', 'a', 'u', 't', 'h', 'o', 'r', 'i', 'z', 'e', 'd'];
    name.len() >= suffix.len() && name.subrange(name.len() - suffix.len(), name.len() as int) == suffix
}

pub open spec fn with_globals(m: Model, globals: Seq<ObjSpec>) -> Model {
    Model {
        xrefs: m.xrefs,
        intrefs: m.intrefs,
        aliases: m.aliases,
        globals,
        internals: m.internals,
        signed: m.signed,
        entry: m.entry,
    }
}

/// `.type NAME, @KIND`: the object gets the type KIND; it is created if new.
pub open spec fn set_type(m: Model, name: Seq<char>, kind: Seq<char>) -> Model {
    let i = find_obj(m.globals, name, 0);
    if i >= 0 {
        with_globals(
            m,
            m.globals.update(i, ObjSpec { name: m.globals[i].name, size: m.globals[i].size, dtype: dtype_of(kind) }),
        )
    } else {
        with_globals(m, m.globals.push(ObjSpec { name, size: 0, dtype: dtype_of(kind) }))
    }
}

/// `.size NAME, N`: the object gets the size N; it is created if new.
pub open spec fn set_size(m: Model, name: Seq<char>, size: nat) -> Model {
    let i = find_obj(m.globals, name, 0);
    if i >= 0 {
        with_globals(
            m,
            m.globals.update(i, ObjSpec { name: m.globals[i].name, size, dtype: m.globals[i].dtype }),
        )
    } else {
        with_globals(m, m.globals.push(ObjSpec { name, size, dtype: DType::Untyped }))
    }
}

/// `.globl NAME`: the object is created if new.
pub open spec fn declare(m: Model, name: Seq<char>) -> Model {
    if find_obj(m.globals, name, 0) >= 0 {
        m
    } else {
        with_globals(m, m.globals.push(ObjSpec { name, size: 0, dtype: DType::Untyped }))
    }
}

/// Closing a section: what its name and body add to the tables.
pub open spec fn update_spec(m: Model, section: Section, name: Seq<char>, body: Seq<char>, first: bool) -> Result<
    Model,
    ErrorSpec,
> {
    match section {
        Section::Selector => if m.entry.len() == 0 {
            Ok(
                Model {
                    xrefs: m.xrefs,
                    intrefs: m.intrefs,
                    aliases: m.aliases,
                    globals: m.globals,
                    internals: m.internals,
                    signed: m.signed,
                    entry: trim_end(body),
                },
            )
        } else {
            Err(ErrorSpec::AnotherSelector)
        },
        Section::Globl => {
            let i = find_obj(m.globals, name, 0);
            if i < 0 {
                Err(ErrorSpec::UnknownType(name))
            } else {
                let g = m.globals[i];
                match g.dtype {
                    DType::Function(_, _) => {
                        let id = function_id(name);
                        if first && lookup(m.xrefs, name) is Some {
                            Err(ErrorSpec::DuplicateGlobal(id))
                        } else {
                            Ok(
                                Model {
                                    xrefs: assign(m.xrefs, name, id),
                                    intrefs: m.intrefs,
                                    aliases: m.aliases,
                                    globals: m.globals.update(
                                        i,
                                        ObjSpec { name: g.name, size: g.size, dtype: DType::Function(id, trim_end(body)) },
                                    ),
                                    internals: m.internals,
                                    signed: m.signed.insert(id, is_signed_name(name)),
                                    entry: m.entry,
                                },
                            )
                        }
                    },
                    DType::Data(values) => match data_values(body, g.size, values) {
                        Ok(v) => Ok(
                            with_globals(
                                m,
                                m.globals.update(i, ObjSpec { name: g.name, size: 0, dtype: DType::Data(v) }),
                            ),
                        ),
                        Err(e) => Err(e),
                    },
                    DType::Untyped => Err(ErrorSpec::UnknownType(name)),
                }
            }
        },
        Section::Internal => match lookup(m.aliases, name) {
            None => Err(ErrorSpec::AliasNotFound(name)),
            Some(id) => if first && m.internals.contains_key(id) {
                Err(ErrorSpec::DuplicateInternal(id))
            } else {
                Ok(
                    Model {
                        xrefs: m.xrefs,
                        intrefs: assign(m.intrefs, name, id),
                        aliases: m.aliases,
                        globals: m.globals,
                        internals: m.internals.insert(id, trim_end(body)),
                        signed: m.signed,
                        entry: m.entry,
                    },
                )
            },
        },
        _ => Ok(m),
    }
}

pub open spec fn names_view<V>(s: Seq<(Vec<char>, V)>) -> Seq<(Seq<char>, V)> {
    s.map_values(|p: (Vec<char>, V)| (p.0@, p.1))
}

pub open spec fn objects_view(s: Seq<Object>) -> Seq<ObjSpec> {
    s.map_values(|o: Object| o@)
}

/// If a label reference `$NAME$` or `$:NAME$` starts at `i`, the position
/// just after it; -1 otherwise.
pub open spec fn ref_end(s: Seq<char>, i: int) -> int {
    if 0 <= i < s.len() && s[i] == '$' {
        let j = if i + 1 < s.len() && s[i + 1] == ':' { i + 2 } else { i + 1 };
        let k = run_end(s, j, Class::Name);
        if k > j && k < s.len() && s[k] == '$' {
            k + 1
        } else {
            -1
        }
    } else {
        -1
    }
}

/// What stands for an unresolved reference.
pub open spec fn unresolved() -> Seq<char> {
    seq!['?', '?', '?']
}

/// The decimal identifier that the label `key` refers to: an internal one
/// when `key` starts with `:`, a global one otherwise.
pub open spec fn render(m: Model, key: Seq<char>) -> Seq<char> {
    if key.len() > 0 && key[0] == ':' {
        match lookup(m.intrefs, key) {
            Some(v) => signed_decimal(v as int),
            None => unresolved(),
        }
    } else {
        match lookup(m.xrefs, key) {
            Some(v) => decimal(v as nat),
            None => unresolved(),
        }
    }
}

/// `s` from position `i` on, with every label reference replaced by the
/// identifier it refers to.
pub open spec fn subst_from(m: Model, s: Seq<char>, i: int) -> Seq<char>
    decreases s.len() - i,
{
    if i < 0 || i >= s.len() {
        Seq::empty()
    } else {
        let e = ref_end(s, i);
        if e > i {
            render(m, s.subrange(i + 1, e - 1)) + subst_from(m, s, e)
        } else {
            seq![s[i]] + subst_from(m, s, i + 1)
        }
    }
}

pub open spec fn substitute(m: Model, s: Seq<char>) -> Seq<char> {
    subst_from(m, s, 0)
}

/// Where the parser stands in a file: the open section, its name and the
/// body read so far.
pub struct Cursor {
    pub section: Section,
    pub name: Seq<char>,
    pub body: Seq<char>,
}

pub open spec fn start() -> Cursor {
    Cursor { section: Section::Outside, name: Seq::empty(), body: Seq::empty() }
}

/// Closes the open section and opens `next`.
pub open spec fn reopen(m: Model, c: Cursor, first: bool, next: Cursor) -> Result<(Model, Cursor), ErrorSpec> {
    match update_spec(m, c.section, c.name, c.body, first) {
        Ok(m2) => Ok((m2, next)),
        Err(e) => Err(e),
    }
}

/// Reads one line. In the first pass a selector is skipped and references
/// are left alone; in the second the selector is read and references are
/// replaced.
pub open spec fn step(m: Model, c: Cursor, line: Seq<char>, first: bool) -> Result<(Model, Cursor), ErrorSpec> {
    match classify(line) {
        LineSpec::Type(name, kind) => Ok((set_type(m, name, kind), c)),
        LineSpec::Size(name, size) => match size {
            Some(n) => Ok((set_size(m, name, n), c)),
            None => Err(ErrorSpec::InvalidSize(line)),
        },
        LineSpec::Globl(name) => match reopen(m, c, first, Cursor { section: Section::Globl, name, body: Seq::empty() }) {
            Ok(p) => Ok((declare(p.0, name), p.1)),
            Err(e) => Err(e),
        },
        LineSpec::Data => reopen(m, c, first, Cursor { section: Section::Data, name: Seq::empty(), body: Seq::empty() }),
        LineSpec::Selector => reopen(
            m,
            c,
            first,
            Cursor {
                section: if first { Section::Outside } else { Section::Selector },
                name: Seq::empty(),
                body: Seq::empty(),
            },
        ),
        LineSpec::Internal(name) => reopen(m, c, first, Cursor { section: Section::Internal, name, body: Seq::empty() }),
        LineSpec::Alias(name, id) => match id {
            Some(v) => Ok(
                (
                    Model {
                        xrefs: m.xrefs,
                        intrefs: m.intrefs,
                        aliases: assign(m.aliases, name, v),
                        globals: m.globals,
                        internals: m.internals,
                        signed: m.signed,
                        entry: m.entry,
                    },
                    c,
                ),
            ),
            None => Err(ErrorSpec::InvalidAlias(line)),
        },
        LineSpec::Label => Ok((m, c)),
        LineSpec::Param => Ok((m, Cursor { section: c.section, name: c.name, body: c.body + line })),
        LineSpec::Body => Ok(
            (
                m,
                Cursor {
                    section: c.section,
                    name: c.name,
                    body: c.body + if first { line } else { substitute(m, line) },
                },
            ),
        ),
    }
}

/// Reads the first `k` lines.
pub open spec fn run(m: Model, lines: Seq<Seq<char>>, k: int, first: bool) -> Result<(Model, Cursor), ErrorSpec>
    decreases k,
{
    if k <= 0 {
        Ok((m, start()))
    } else {
        match run(m, lines, k - 1, first) {
            Ok(p) => step(p.0, p.1, lines[k - 1], first),
            Err(e) => Err(e),
        }
    }
}

/// One pass over a file: every line, then the last section is closed.
pub open spec fn pass(m: Model, text: Seq<char>, first: bool) -> Result<Model, ErrorSpec> {
    let lines = lines_of(text, true);
    match run(m, lines, lines.len() as int, first) {
        Ok(p) => update_spec(p.0, p.1.section, p.1.name, p.1.body, first),
        Err(e) => Err(e),
    }
}

/// Both passes over a file.
pub open spec fn read_file(m: Model, text: Seq<char>) -> Result<Model, ErrorSpec> {
    match pass(m, text, true) {
        Ok(m1) => pass(m1, text, false),
        Err(e) => Err(e),
    }
}

/// The first `k` libraries, each read in full before the next.
pub open spec fn read_libs(m: Model, libs: Seq<Seq<char>>, k: int) -> Result<Model, ErrorSpec>
    decreases k,
{
    if k <= 0 {
        Ok(m)
    } else {
        match read_libs(m, libs, k - 1) {
            Ok(m1) => read_file(m1, libs[k - 1]),
            Err(e) => Err(e),
        }
    }
}

/// A parse: the libraries, then the source; a selector must have been found.
pub open spec fn parse_spec(m: Model, source: Seq<char>, libs: Seq<Seq<char>>) -> Result<Model, ErrorSpec> {
    match read_libs(m, libs, libs.len() as int) {
        Ok(m1) => match read_file(m1, source) {
            Ok(m2) => if m2.entry.len() == 0 {
                Err(ErrorSpec::SelectorNotFound)
            } else {
                Ok(m2)
            },
            Err(e) => Err(e),
        },
        Err(e) => Err(e),
    }
}

pub proof fn lemma_run_failed(m: Model, lines: Seq<Seq<char>>, j: int, n: int, first: bool)
    requires
        0 <= j <= n,
        run(m, lines, j, first) is Err,
    ensures
        run(m, lines, n, first) == run(m, lines, j, first),
    decreases n - j,
{
    if j < n {
        lemma_run_failed(m, lines, j, n - 1, first);
    }
}

pub proof fn lemma_read_libs_failed(m: Model, libs: Seq<Seq<char>>, j: int, n: int)
    requires
        0 <= j <= n,
        read_libs(m, libs, j) is Err,
    ensures
        read_libs(m, libs, n) == read_libs(m, libs, j),
    decreases n - j,
{
    if j < n {
        lemma_read_libs_failed(m, libs, j, n - 1);
    }
}

/// If a label reference starts at `i`, the position just after it.
fn ref_end_exec(s: &Vec<char>, i: usize) -> (r: Option<usize>)
    requires
        i < s@.len(),
    ensures
        match r {
            Some(e) => ref_end(s@, i as int) == e as int && i < e <= s@.len(),
            None => ref_end(s@, i as int) == -1,
        },
{
    if s[i] != '$' {
        return None;
    }
    assert(i < s.len());
    let j = if i + 1 < s.len() && s[i + 1] == ':' { i + 2 } else { i + 1 };
    let k = skip_run(s, j, Class::Name);
    if k > j && k < s.len() && s[k] == '$' {
        Some(k + 1)
    } else {
        None
    }
}

/// Relies on `FromIterator<char>` for `String`: the string of the
/// characters `cs`, in order.
#[verifier::external_body]
fn string_from(cs: &Vec<char>) -> (r: String)
    ensures
        r@ == cs@,
{
    cs.iter().collect()
}

/// Relies on `str::chars` collected into a `Vec`: the characters of `s`,
/// in order.
#[verifier::external_body]
fn chars_of(s: &str) -> (r: Vec<char>)
    ensures
        r@ == s@,
{
    s.chars().collect()
}

/// The position of the entry whose key is `k`, as `find_from` gives it.
fn find_name<V: Copy>(list: &Vec<(Vec<char>, V)>, k: &Vec<char>) -> (r: Option<usize>)
    ensures
        match r {
            Some(i) => find_from(names_view(list@), k@, 0) == i as int,
            None => find_from(names_view(list@), k@, 0) == -1,
        },
{
    let ghost s = names_view(list@);
    let mut i: usize = 0;
    while i < list.len()
        invariant
            s == names_view(list@),
            i <= list@.len(),
            find_from(s, k@, i as int) == find_from(s, k@, 0),
        decreases list@.len() - i,
    {
        if same_chars(&list[i].0, k) {
            return Some(i);
        }
        i = i + 1;
    }
    None
}

/// Stores `v` under `k`, as `assign` describes.
fn assign_exec<V: Copy>(list: &mut Vec<(Vec<char>, V)>, k: &Vec<char>, v: V)
    ensures
        names_view(final(list)@) == assign(names_view(old(list)@), k@, v),
{
    let key = crate::text::slice_chars(k, 0, k.len());
    assert(k@.subrange(0, k@.len() as int) =~= k@);
    match find_name(list, k) {
        Some(i) => {
            proof {
                lemma_find_from(names_view(list@), k@, 0);
            }
            list.set(i, (key, v));
            assert(names_view(list@) =~= assign(names_view(old(list)@), k@, v));
        },
        None => {
            list.push((key, v));
            assert(names_view(list@) =~= assign(names_view(old(list)@), k@, v));
        },
    }
}

/// The position of the object named `name`, as `find_obj` gives it.
fn find_object(list: &Vec<Object>, name: &Vec<char>) -> (r: Option<usize>)
    ensures
        match r {
            Some(i) => find_obj(objects_view(list@), name@, 0) == i as int,
            None => find_obj(objects_view(list@), name@, 0) == -1,
        },
{
    let ghost s = objects_view(list@);
    let mut i: usize = 0;
    while i < list.len()
        invariant
            s == objects_view(list@),
            i <= list@.len(),
            find_obj(s, name@, i as int) == find_obj(s, name@, 0),
        decreases list@.len() - i,
    {
        if same_chars(&list[i].name, name) {
            return Some(i);
        }
        i = i + 1;
    }
    None
}

fn copy_chars(s: &Vec<char>) -> (r: Vec<char>)
    ensures
        r@ == s@,
{
    let r = crate::text::slice_chars(s, 0, s.len());
    assert(s@.subrange(0, s@.len() as int) =~= s@);
    r
}

fn copy_values(v: &Vec<DataValue>) -> (r: Vec<DataValue>)
    ensures
        r@ == v@,
{
    let mut r: Vec<DataValue> = Vec::new();
    let mut i: usize = 0;
    while i < v.len()
        invariant
            i <= v@.len(),
            r@ == v@.subrange(0, i as int),
        decreases v@.len() - i,
    {
        r.push(v[i]);
        i = i + 1;
        assert(r@ =~= v@.subrange(0, i as int));
    }
    assert(v@.subrange(0, v@.len() as int) =~= v@);
    r
}

fn ends_with_authorized(name: &Vec<char>) -> (r: bool)
    ensures
        r == is_signed_name(name@),
{
    let suffix = vec!['_', 'a', 'u', 't', 'h', 'o', 'r', 'i', 'z', 'e', 'd'];
    if name.len() < suffix.len() {
        return false;
    }
    crate::text::has_word(name, name.len() - suffix.len(), &suffix)
}

/// The assembler's state: its symbol tables and the selector's body.
pub struct ParseEngine {
    xrefs: Vec<(Vec<char>, u32)>,
    intrefs: Vec<(Vec<char>, i32)>,
    aliases: Vec<(Vec<char>, i32)>,
    globals: Vec<Object>,
    internals: HashMap<i32, String>,
    signed: HashMap<u32, bool>,
    entry_point: String,
}

impl ParseEngine {
    /// The tables, as the specification sees them.
    pub closed spec fn model(&self) -> Model {
        Model {
            xrefs: names_view(self.xrefs@),
            intrefs: names_view(self.intrefs@),
            aliases: names_view(self.aliases@),
            globals: objects_view(self.globals@),
            internals: self.internals@.map_values(|s: String| s@),
            signed: self.signed@,
            entry: self.entry_point@,
        }
    }

    /// An engine with empty tables.
    pub fn new() -> (r: ParseEngine)
        ensures
            r.model() == empty_model(),
    {
        let r = ParseEngine {
            xrefs: Vec::new(),
            intrefs: Vec::new(),
            aliases: Vec::new(),
            globals: Vec::new(),
            internals: HashMap::new(),
            signed: HashMap::new(),
            entry_point: String::new(),
        };
        assert(r.model().xrefs =~= Seq::<(Seq<char>, u32)>::empty());
        assert(r.model().intrefs =~= Seq::<(Seq<char>, i32)>::empty());
        assert(r.model().aliases =~= Seq::<(Seq<char>, i32)>::empty());
        assert(r.model().globals =~= Seq::<ObjSpec>::empty());
        assert(r.model().internals =~= Map::<i32, Seq<char>>::empty());
        r
    }

    /// The decimal identifier that the label `key` refers to, or `???`.
    fn render_exec(&self, key: &Vec<char>) -> (r: Vec<char>)
        ensures
            r@ == render(self.model(), key@),
    {
        if key.len() > 0 && key[0] == ':' {
            match find_name(&self.intrefs, key) {
                Some(k) => {
                    proof {
                        lemma_find_from(self.model().intrefs, key@, 0);
                    }
                    signed_decimal_chars(self.intrefs[k].1)
                },
                None => vec!['?', '?', '?'],
            }
        } else {
            match find_name(&self.xrefs, key) {
                Some(k) => {
                    proof {
                        lemma_find_from(self.model().xrefs, key@, 0);
                    }
                    decimal_chars(self.xrefs[k].1 as u64)
                },
                None => vec!['?', '?', '?'],
            }
        }
    }

    /// `line` with every label reference `$NAME$` or `$:NAME$` replaced by
    /// the decimal identifier it refers to, or by `???` when there is none.
    fn substitute_exec(&self, line: &Vec<char>) -> (r: Vec<char>)
        ensures
            r@ == substitute(self.model(), line@),
    {
        let ghost m = self.model();
        let mut out: Vec<char> = Vec::new();
        let mut i: usize = 0;
        assert(out@ + subst_from(m, line@, 0) =~= subst_from(m, line@, 0));
        while i < line.len()
            invariant
                m == self.model(),
                i <= line@.len(),
                out@ + subst_from(m, line@, i as int) == subst_from(m, line@, 0),
            decreases line@.len() - i,
        {
            let ghost before = out@;
            match ref_end_exec(line, i) {
                Some(e) => {
                    let key = crate::text::slice_chars(line, i + 1, e - 1);
                    let text = self.render_exec(&key);
                    append_chars(&mut out, &text);
                    assert(before + subst_from(m, line@, i as int) =~= out@ + subst_from(m, line@, e as int));
                    i = e;
                },
                None => {
                    out.push(line[i]);
                    assert(before + subst_from(m, line@, i as int) =~= out@ + subst_from(m, line@, i + 1));
                    i = i + 1;
                },
            }
        }
        assert(out@ + Seq::<char>::empty() =~= out@);
        out
    }

    /// Replaces the label references of `line` as a second pass does.
    pub fn replace_labels(&self, line: &str) -> (r: String)
        ensures
            r@ == substitute(self.model(), line@),
    {
        let chars = chars_of(line);
        let replaced = self.substitute_exec(&chars);
        string_from(&replaced)
    }

    fn set_type(&mut self, name: &Vec<char>, kind: &Vec<char>)
        ensures
            final(self).model() == set_type(old(self).model(), name@, kind@),
    {
        let ghost m = self.model();
        match find_object(&self.globals, name) {
            Some(i) => {
                proof {
                    lemma_find_obj(m.globals, name@, 0);
                }
                let obj = Object {
                    name: copy_chars(&self.globals[i].name),
                    size: self.globals[i].size,
                    dtype: ObjectType::from(kind),
                };
                self.globals.set(i, obj);
            },
            None => {
                self.globals.push(Object::new(copy_chars(name), kind));
            },
        }
        assert(self.model().globals =~= set_type(m, name@, kind@).globals);
        assert(self.model().internals =~= m.internals);
    }

    fn set_size(&mut self, name: &Vec<char>, size: usize)
        ensures
            final(self).model() == set_size(old(self).model(), name@, size as nat),
    {
        let ghost m = self.model();
        match find_object(&self.globals, name) {
            Some(i) => {
                proof {
                    lemma_find_obj(m.globals, name@, 0);
                }
                let dtype = match &self.globals[i].dtype {
                    ObjectType::Untyped => ObjectType::Untyped,
                    ObjectType::Function(id, body) => ObjectType::Function(*id, copy_chars(body)),
                    ObjectType::Data(values) => ObjectType::Data(copy_values(values)),
                };
                let obj = Object { name: copy_chars(&self.globals[i].name), size, dtype };
                self.globals.set(i, obj);
            },
            None => {
                self.globals.push(Object { name: copy_chars(name), size, dtype: ObjectType::Untyped });
            },
        }
        assert(self.model().globals =~= set_size(m, name@, size as nat).globals);
        assert(self.model().internals =~= m.internals);
    }

    fn declare(&mut self, name: &Vec<char>)
        ensures
            final(self).model() == declare(old(self).model(), name@),
    {
        let ghost m = self.model();
        if find_object(&self.globals, name).is_none() {
            self.globals.push(Object { name: copy_chars(name), size: 0, dtype: ObjectType::Untyped });
            assert(self.model().globals =~= declare(m, name@).globals);
            assert(self.model().internals =~= m.internals);
        }
    }

    /// One pass over the lines of `text`.
    fn parse_code(&mut self, text: &Vec<char>, first_pass: bool) -> (r: Result<(), ParseError>)
        ensures
            match pass(old(self).model(), text@, first_pass) {
                Ok(m) => r is Ok && final(self).model() == m,
                Err(e) => r matches Err(x) && x@ == e,
            },
    {
        let ghost m0 = self.model();
        let lines = split_lines(text, true);
        let ghost ls = lines_of(text@, true);
        let mut section = Section::Outside;
        let mut obj_name: Vec<char> = Vec::new();
        let mut obj_body: Vec<char> = Vec::new();
        let mut k: usize = 0;
        while k < lines.len()
            invariant
                m0 == old(self).model(),
                ls == lines_of(text@, true),
                chars_view(lines@) == ls,
                k <= lines@.len(),
                run(m0, ls, k as int, first_pass) == Ok::<(Model, Cursor), ErrorSpec>(
                    (self.model(), Cursor { section, name: obj_name@, body: obj_body@ }),
                ),
            decreases lines@.len() - k,
        {
            let line = &lines[k];
            assert(ls[k as int] == line@);
            let ghost m = self.model();
            let ghost c = Cursor { section, name: obj_name@, body: obj_body@ };
            let kind = classify_line(line);
            match kind {
                Line::Type { name, kind } => {
                    self.set_type(&name, &kind);
                },
                Line::Size { name, size } => {
                    match size {
                        Some(n) => {
                            self.set_size(&name, n);
                        },
                        None => {
                            proof {
                                lemma_run_failed(m0, ls, k + 1, ls.len() as int, first_pass);
                            }
                            return Err(ParseError::InvalidSize(copy_chars(line)));
                        },
                    }
                },
                Line::Globl { name } => {
                    if let Err(e) = self.update(section, &obj_name, &obj_body, first_pass) {
                        proof {
                            lemma_run_failed(m0, ls, k + 1, ls.len() as int, first_pass);
                        }
                        return Err(e);
                    }
                    self.declare(&name);
                    section = Section::Globl;
                    obj_name = name;
                    obj_body = Vec::new();
                },
                Line::Data => {
                    if let Err(e) = self.update(section, &obj_name, &obj_body, first_pass) {
                        proof {
                            lemma_run_failed(m0, ls, k + 1, ls.len() as int, first_pass);
                        }
                        return Err(e);
                    }
                    section = Section::Data;
                    obj_name = Vec::new();
                    obj_body = Vec::new();
                },
                Line::Selector => {
                    if let Err(e) = self.update(section, &obj_name, &obj_body, first_pass) {
                        proof {
                            lemma_run_failed(m0, ls, k + 1, ls.len() as int, first_pass);
                        }
                        return Err(e);
                    }
                    section = if first_pass { Section::Outside } else { Section::Selector };
                    obj_name = Vec::new();
                    obj_body = Vec::new();
                },
                Line::Internal { name } => {
                    if let Err(e) = self.update(section, &obj_name, &obj_body, first_pass) {
                        proof {
                            lemma_run_failed(m0, ls, k + 1, ls.len() as int, first_pass);
                        }
                        return Err(e);
                    }
                    section = Section::Internal;
                    obj_name = name;
                    obj_body = Vec::new();
                },
                Line::Alias { name, id } => {
                    match id {
                        Some(v) => {
                            assign_exec(&mut self.aliases, &name, v);
                            assert(self.model().internals =~= m.internals);
                        },
                        None => {
                            proof {
                                lemma_run_failed(m0, ls, k + 1, ls.len() as int, first_pass);
                            }
                            return Err(ParseError::InvalidAlias(copy_chars(line)));
                        },
                    }
                },
                Line::Label => {},
                Line::Param => {
                    append_chars(&mut obj_body, line);
                },
                Line::Body => {
                    if first_pass {
                        append_chars(&mut obj_body, line);
                    } else {
                        let replaced = self.substitute_exec(line);
                        append_chars(&mut obj_body, &replaced);
                    }
                },
            }
            k = k + 1;
        }
        self.update(section, &obj_name, &obj_body, first_pass)
    }

    /// Parses `source` together with the libraries `libs`: each library in
    /// turn, then the source, each read in two passes. Fails when no
    /// selector was found.
    pub fn parse(&mut self, source: &str, libs: Vec<&str>) -> (r: Result<(), ParseError>)
        ensures
            match parse_spec(old(self).model(), source@, libs@.map_values(|s: &str| s@)) {
                Ok(m) => r is Ok && final(self).model() == m,
                Err(e) => r matches Err(x) && x@ == e,
            },
    {
        let ghost m0 = self.model();
        let ghost lv = libs@.map_values(|s: &str| s@);
        let mut k: usize = 0;
        while k < libs.len()
            invariant
                m0 == old(self).model(),
                lv == libs@.map_values(|s: &str| s@),
                k <= libs@.len(),
                read_libs(m0, lv, k as int) == Ok::<Model, ErrorSpec>(self.model()),
            decreases libs@.len() - k,
        {
            let text = chars_of(libs[k]);
            assert(text@ == lv[k as int]);
            if let Err(e) = self.parse_code(&text, true) {
                proof {
                    lemma_read_libs_failed(m0, lv, k + 1, lv.len() as int);
                }
                return Err(e);
            }
            if let Err(e) = self.parse_code(&text, false) {
                proof {
                    lemma_read_libs_failed(m0, lv, k + 1, lv.len() as int);
                }
                return Err(e);
            }
            k = k + 1;
        }
        let text = chars_of(source);
        self.parse_code(&text, true)?;
        self.parse_code(&text, false)?;
        if self.entry_point.as_str().unicode_len() == 0 {
            return Err(ParseError::SelectorNotFound);
        }
        Ok(())
    }

    /// The body of the selector.
    pub fn entry(&self) -> (r: &str)
        ensures
            r@ == self.model().entry,
    {
        self.entry_point.as_str()
    }

    /// Internal function identifier to body.
    pub fn internals(&self) -> (r: &HashMap<i32, String>)
        ensures
            r@.map_values(|s: String| s@) == self.model().internals,
    {
        &self.internals
    }

    /// Function identifier to whether the function checks a signature.
    pub fn signed(&self) -> (r: &HashMap<u32, bool>)
        ensures
            r@ == self.model().signed,
    {
        &self.signed
    }

    /// Global function identifier to body, for every global function.
    pub fn globals(&self) -> (r: HashMap<u32, String>)
        ensures
            r@.map_values(|s: String| s@) == functions_of(self.model().globals, self.model().globals.len() as int),
    {
        let ghost g = self.model().globals;
        let mut funcs: HashMap<u32, String> = HashMap::new();
        let mut i: usize = 0;
        assert(funcs@.map_values(|s: String| s@) =~= Map::<u32, Seq<char>>::empty());
        while i < self.globals.len()
            invariant
                g == self.model().globals,
                i <= g.len(),
                funcs@.map_values(|s: String| s@) == functions_of(g, i as int),
            decreases g.len() - i,
        {
            assert(self.globals@[i as int]@ == g[i as int]);
            if let ObjectType::Function(id, body) = &self.globals[i].dtype {
                let ghost before = funcs@.map_values(|s: String| s@);
                funcs.insert(*id, string_from(body));
                assert(funcs@.map_values(|s: String| s@) =~= before.insert(*id, body@));
            }
            i = i + 1;
        }
        funcs
    }

    /// The internal function named `name`: its identifier and body.
    pub fn internal_by_name(&self, name: &str) -> (r: Option<(i32, String)>)
        ensures
            match lookup(self.model().intrefs, name@) {
                Some(id) => if self.model().internals.contains_key(id) {
                    r matches Some(p) && p.0 == id && p.1@ == self.model().internals[id]
                } else {
                    r is None
                },
                None => r is None,
            },
    {
        let key = chars_of(name);
        let k = match find_name(&self.intrefs, &key) {
            Some(k) => k,
            None => {
                return None;
            },
        };
        proof {
            lemma_find_from(self.model().intrefs, key@, 0);
        }
        let id = self.intrefs[k].1;
        match self.internals.get(&id) {
            Some(body) => Some((id, body.clone())),
            None => None,
        }
    }

    /// The data segment: every value of every data object, objects in order
    /// of first mention, numbered from 0, each with its encoding.
    /// These are the entries of the 64-bit-keyed dictionary that the data
    /// cell holds; building that cell is left to the caller.
    pub fn data(&self) -> (r: Vec<(u64, Vec<u8>)>)
        ensures
            r@.len() == data_of(self.model().globals, self.model().globals.len() as int).len(),
            forall|k: int|
                0 <= k < r@.len() ==> #[trigger] r@[k].0 == k && r@[k].1@ == encode_value(
                    data_of(self.model().globals, self.model().globals.len() as int)[k].0,
                    data_of(self.model().globals, self.model().globals.len() as int)[k].1,
                ),
    {
        let ghost g = self.model().globals;
        let mut all: Vec<DataValue> = Vec::new();
        let mut i: usize = 0;
        assert(values_view(all@) =~= data_of(g, 0));
        while i < self.globals.len()
            invariant
                g == self.model().globals,
                i <= g.len(),
                g.len() == self.globals@.len(),
                values_view(all@) == data_of(g, i as int),
            decreases g.len() - i,
        {
            assert(self.globals@[i as int]@ == g[i as int]);
            if let ObjectType::Data(values) = &self.globals[i].dtype {
                let ghost base = data_of(g, i as int);
                let ghost vv = values_view(values@);
                assert(data_of(g, i + 1) == base + vv);
                let mut j: usize = 0;
                assert(vv.take(0) =~= Seq::<(i64, nat)>::empty());
                assert(values_view(all@) =~= base + vv.take(0));
                while j < values.len()
                    invariant
                        vv == values_view(values@),
                        j <= values@.len(),
                        values_view(all@) == base + vv.take(j as int),
                    decreases values@.len() - j,
                {
                    let ghost before = values_view(all@);
                    all.push(values[j]);
                    assert(values_view(all@) =~= before.push(vv[j as int]));
                    assert(vv.take(j + 1) =~= vv.take(j as int).push(vv[j as int]));
                    j = j + 1;
                    assert(values_view(all@) =~= base + vv.take(j as int));
                }
                assert(vv.take(j as int) =~= vv);
            }
            i = i + 1;
        }
        let ghost flat = values_view(all@);
        let mut out: Vec<(u64, Vec<u8>)> = Vec::new();
        let mut k: usize = 0;
        while k < all.len()
            invariant
                g == self.model().globals,
                flat == data_of(g, g.len() as int),
                flat == values_view(all@),
                k <= all@.len(),
                out@.len() == k,
                forall|m: int|
                    0 <= m < out@.len() ==> #[trigger] out@[m].0 == m && out@[m].1@ == encode_value(
                        flat[m].0,
                        flat[m].1,
                    ),
            decreases all@.len() - k,
        {
            let bytes = all[k].write();
            out.push((k as u64, bytes));
            k = k + 1;
        }
        out
    }

    /// Closes a section: adds what its name and body define to the tables.
    fn update(&mut self, section: Section, func: &Vec<char>, body: &Vec<char>, first_pass: bool) -> (r: Result<(), ParseError>)
        ensures
            match update_spec(old(self).model(), section, func@, body@, first_pass) {
                Ok(m) => r is Ok && final(self).model() == m,
                Err(e) => r matches Err(x) && x@ == e,
            },
    {
        let ghost m = self.model();
        match section {
            Section::Selector => {
                if self.entry_point.as_str().unicode_len() == 0 {
                    let trimmed = trim_end_chars(body);
                    self.entry_point = string_from(&trimmed);
                    Ok(())
                } else {
                    Err(ParseError::AnotherSelector)
                }
            },
            Section::Globl => {
                let i = match find_object(&self.globals, func) {
                    Some(i) => i,
                    None => {
                        return Err(ParseError::UnknownType(copy_chars(func)));
                    },
                };
                proof {
                    lemma_find_obj(m.globals, func@, 0);
                }
                let ghost g = m.globals[i as int];
                assert(self.globals@[i as int]@ == g);
                match &self.globals[i].dtype {
                    ObjectType::Function(_, _) => {
                        let name = string_from(func);
                        let id = calc_func_id(name.as_str());
                        let signed = ends_with_authorized(func);
                        let prev = find_name(&self.xrefs, func);
                        if first_pass && prev.is_some() {
                            return Err(ParseError::DuplicateGlobal(id));
                        }
                        let obj = Object {
                            name: copy_chars(&self.globals[i].name),
                            size: self.globals[i].size,
                            dtype: ObjectType::Function(id, trim_end_chars(body)),
                        };
                        self.globals.set(i, obj);
                        self.signed.insert(id, signed);
                        assign_exec(&mut self.xrefs, func, id);
                        proof {
                            assert(self.model().globals =~= m.globals.update(
                                i as int,
                                ObjSpec { name: g.name, size: g.size, dtype: DType::Function(id, trim_end(body@)) },
                            ));
                            assert(self.model().internals =~= m.internals);
                        }
                        Ok(())
                    },
                    ObjectType::Data(values) => {
                        let mut values = copy_values(values);
                        let mut size = self.globals[i].size;
                        match update_data(body, &mut size, &mut values) {
                            Ok(()) => {},
                            Err(e) => {
                                return Err(e);
                            },
                        }
                        let obj = Object {
                            name: copy_chars(&self.globals[i].name),
                            size,
                            dtype: ObjectType::Data(values),
                        };
                        self.globals.set(i, obj);
                        proof {
                            assert(self.model().globals =~= m.globals.update(
                                i as int,
                                ObjSpec { name: g.name, size: 0, dtype: DType::Data(values_view(values@)) },
                            ));
                            assert(self.model().internals =~= m.internals);
                        }
                        Ok(())
                    },
                    ObjectType::Untyped => Err(ParseError::UnknownType(copy_chars(func))),
                }
            },
            Section::Internal => {
                let f_id = match find_name(&self.aliases, func) {
                    Some(k) => {
                        proof {
                            lemma_find_from(m.aliases, func@, 0);
                        }
                        self.aliases[k].1
                    },
                    None => {
                        return Err(ParseError::AliasNotFound(copy_chars(func)));
                    },
                };
                let prev = self.internals.contains_key(&f_id);
                if first_pass && prev {
                    return Err(ParseError::DuplicateInternal(f_id));
                }
                let trimmed = trim_end_chars(body);
                let text = string_from(&trimmed);
                self.internals.insert(f_id, text);
                assign_exec(&mut self.intrefs, func, f_id);
                proof {
                    assert(self.model().internals =~= m.internals.insert(f_id, trim_end(body@)));
                }
                Ok(())
            },
            _ => Ok(()),
        }
    }
}

/// Global function identifier to body, over the first `k` objects.
pub open spec fn functions_of(g: Seq<ObjSpec>, k: int) -> Map<u32, Seq<char>>
    decreases k,
{
    if k <= 0 {
        Map::empty()
    } else {
        match g[k - 1].dtype {
            DType::Function(id, body) => functions_of(g, k - 1).insert(id, body),
            _ => functions_of(g, k - 1),
        }
    }
}

/// The values of the data objects among the first `k` objects, in order.
pub open spec fn data_of(g: Seq<ObjSpec>, k: int) -> Seq<(i64, nat)>
    decreases k,
{
    if k <= 0 {
        Seq::empty()
    } else {
        match g[k - 1].dtype {
            DType::Data(values) => data_of(g, k - 1) + values,
            _ => data_of(g, k - 1),
        }
    }
}

pub open spec fn empty_model() -> Model {
    Model {
        xrefs: Seq::empty(),
        intrefs: Seq::empty(),
        aliases: Seq::empty(),
        globals: Seq::empty(),
        internals: Map::empty(),
        signed: Map::empty(),
        entry: Seq::empty(),
    }
}

} // verus!
