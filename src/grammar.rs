use vstd::prelude::*;
use crate::text::{
    all_digits, digits_to_u64, digits_value, run_end, skip_run, slice_chars, has_word,
    word_at, Class,
};

verus! {

/// One element of a line pattern. Patterns are read from the start of the
/// line, each element in turn, without backtracking; runs are as long as
/// possible.
pub enum Token {
    /// These characters, literally.
    Lit(Vec<char>),
    /// This character or nothing; what was read is captured.
    Opt(char),
    /// A run of white space; `true` asks for at least one character.
    Spaces(bool),
    /// A run of at least one character of the class, captured.
    Cap(Class),
}

/// A pattern element as the specification sees it.
pub enum TokenSpec {
    Lit(Seq<char>),
    Opt(char),
    Spaces(bool),
    Cap(Class),
}

impl Token {
    pub open spec fn view(&self) -> TokenSpec {
        match self {
            Token::Lit(w) => TokenSpec::Lit(w@),
            Token::Opt(c) => TokenSpec::Opt(*c),
            Token::Spaces(one) => TokenSpec::Spaces(*one),
            Token::Cap(class) => TokenSpec::Cap(*class),
        }
    }
}

pub open spec fn tokens_view(toks: Seq<Token>) -> Seq<TokenSpec> {
    toks.map_values(|t: Token| t.view())
}

pub open spec fn chars_view(cs: Seq<Vec<char>>) -> Seq<Seq<char>> {
    cs.map_values(|v: Vec<char>| v@)
}

/// Matches the pattern `toks` against `s` from position `i`; on success, the
/// captured pieces in order.
pub open spec fn match_from(s: Seq<char>, i: int, toks: Seq<TokenSpec>) -> Option<Seq<Seq<char>>>
    decreases toks.len(),
{
    if toks.len() == 0 {
        Some(Seq::empty())
    } else {
        let rest = toks.drop_first();
        match toks[0] {
            TokenSpec::Lit(w) => if word_at(s, i, w) {
                match_from(s, i + w.len(), rest)
            } else {
                None
            },
            TokenSpec::Opt(c) => {
                let j = if 0 <= i < s.len() && s[i] == c { i + 1 } else { i };
                prepend(s.subrange(i, j), match_from(s, j, rest))
            },
            TokenSpec::Spaces(one) => {
                let j = run_end(s, i, Class::Space);
                if one && j == i {
                    None
                } else {
                    match_from(s, j, rest)
                }
            },
            TokenSpec::Cap(class) => {
                let j = run_end(s, i, class);
                if j == i {
                    None
                } else {
                    prepend(s.subrange(i, j), match_from(s, j, rest))
                }
            },
        }
    }
}

pub open spec fn prepend(c: Seq<char>, r: Option<Seq<Seq<char>>>) -> Option<Seq<Seq<char>>> {
    match r {
        Some(cs) => Some(seq![c] + cs),
        None => None,
    }
}

pub open spec fn prepend_all(cs: Seq<Seq<char>>, r: Option<Seq<Seq<char>>>) -> Option<
    Seq<Seq<char>>,
> {
    match r {
        Some(more) => Some(cs + more),
        None => None,
    }
}

/// Matches `toks` against the start of `s`.
pub fn match_line(s: &Vec<char>, toks: &Vec<Token>) -> (r: Option<Vec<Vec<char>>>)
    ensures
        match r {
            Some(cs) => match_from(s@, 0, tokens_view(toks@)) == Some(chars_view(cs@)),
            None => match_from(s@, 0, tokens_view(toks@)) is None,
        },
{
    let ghost pat = tokens_view(toks@);
    let mut caps: Vec<Vec<char>> = Vec::new();
    let mut i: usize = 0;
    let mut k: usize = 0;
    assert(pat.skip(0) =~= pat);
    assert(chars_view(caps@) =~= Seq::<Seq<char>>::empty());
    while k < toks.len()
        invariant
            pat == tokens_view(toks@),
            k <= toks@.len(),
            i <= s@.len(),
            match_from(s@, 0, pat) == prepend_all(chars_view(caps@), match_from(s@, i as int, pat.skip(k as int))),
        decreases toks@.len() - k,
    {
        let ghost rest = pat.skip(k as int);
        assert(rest[0] == toks@[k as int].view());
        assert(rest.drop_first() =~= pat.skip(k + 1));
        let ghost before = chars_view(caps@);
        match &toks[k] {
            Token::Lit(w) => {
                if !has_word(s, i, w) {
                    return None;
                }
                assert(i + w.len() <= s.len());
                i = i + w.len();
            },
            Token::Opt(c) => {
                let j = if i < s.len() && s[i] == *c { i + 1 } else { i };
                let piece = slice_chars(s, i, j);
                caps.push(piece);
                assert(chars_view(caps@) =~= before.push(s@.subrange(i as int, j as int)));
                assert(before.push(s@.subrange(i as int, j as int)) =~= before + seq![s@.subrange(i as int, j as int)]);
                i = j;
            },
            Token::Spaces(one) => {
                let j = skip_run(s, i, Class::Space);
                if *one && j == i {
                    return None;
                }
                i = j;
            },
            Token::Cap(class) => {
                let j = skip_run(s, i, *class);
                if j == i {
                    return None;
                }
                let piece = slice_chars(s, i, j);
                caps.push(piece);
                assert(chars_view(caps@) =~= before.push(s@.subrange(i as int, j as int)));
                i = j;
            },
        }
        proof {
            if let Some(more) = match_from(s@, i as int, pat.skip(k + 1)) {
                if chars_view(caps@).len() > before.len() {
                    let c = chars_view(caps@).last();
                    assert(chars_view(caps@) =~= before + seq![c]);
                    assert(before + (seq![c] + more) =~= chars_view(caps@) + more);
                }
            }
        }
        k = k + 1;
    }
    assert(pat.skip(k as int) =~= Seq::<TokenSpec>::empty());
    assert(chars_view(caps@) + Seq::<Seq<char>>::empty() =~= chars_view(caps@));
    Some(caps)
}

/// How many pieces a pattern captures.
pub open spec fn n_captures(toks: Seq<TokenSpec>) -> nat
    decreases toks.len(),
{
    if toks.len() == 0 {
        0
    } else {
        n_captures(toks.drop_first()) + match toks[0] {
            TokenSpec::Opt(_) | TokenSpec::Cap(_) => 1nat,
            _ => 0nat,
        }
    }
}

/// A match captures one piece per capturing element; a `Cap` piece is a
/// non-empty run of its class.
pub proof fn lemma_match_captures(s: Seq<char>, i: int, toks: Seq<TokenSpec>)
    requires
        match_from(s, i, toks) is Some,
    ensures
        match_from(s, i, toks)->0.len() == n_captures(toks),
    decreases toks.len(),
{
    if toks.len() > 0 {
        let rest = toks.drop_first();
        match toks[0] {
            TokenSpec::Lit(w) => lemma_match_captures(s, i + w.len(), rest),
            TokenSpec::Opt(c) => {
                let j = if 0 <= i < s.len() && s[i] == c { i + 1 } else { i };
                lemma_match_captures(s, j, rest);
            },
            TokenSpec::Spaces(_) => lemma_match_captures(s, run_end(s, i, Class::Space), rest),
            TokenSpec::Cap(class) => lemma_match_captures(s, run_end(s, i, class), rest),
        }
    }
}

pub open spec fn type_pattern() -> Seq<TokenSpec> {
    seq![
        TokenSpec::Spaces(false),
        TokenSpec::Lit(seq!['.', 't', 'y', 'p', 'e']),
        TokenSpec::Spaces(true),
        TokenSpec::Cap(Class::Name),
        TokenSpec::Lit(seq![',']),
        TokenSpec::Spaces(false),
        TokenSpec::Lit(seq!['@']),
        TokenSpec::Cap(Class::Letter),
    ]
}

pub open spec fn size_pattern() -> Seq<TokenSpec> {
    seq![
        TokenSpec::Spaces(false),
        TokenSpec::Lit(seq!['.', 's', 'i', 'z', 'e']),
        TokenSpec::Spaces(true),
        TokenSpec::Cap(Class::Name),
        TokenSpec::Lit(seq![',']),
        TokenSpec::Spaces(false),
        TokenSpec::Cap(Class::Word),
    ]
}

pub open spec fn globl_pattern() -> Seq<TokenSpec> {
    seq![
        TokenSpec::Spaces(false),
        TokenSpec::Lit(seq!['.', 'g', 'l', 'o', 'b', 'l']),
        TokenSpec::Spaces(true),
        TokenSpec::Cap(Class::Name),
    ]
}

pub open spec fn data_pattern() -> Seq<TokenSpec> {
    seq![TokenSpec::Spaces(false), TokenSpec::Lit(seq!['.', 'd', 'a', 't', 'a'])]
}

pub open spec fn selector_pattern() -> Seq<TokenSpec> {
    seq![
        TokenSpec::Spaces(false),
        TokenSpec::Lit(seq!['.', 's', 'e', 'l', 'e', 'c', 't', 'o', 'r']),
    ]
}

pub open spec fn internal_pattern() -> Seq<TokenSpec> {
    seq![
        TokenSpec::Spaces(false),
        TokenSpec::Lit(seq!['.', 'i', 'n', 't', 'e', 'r', 'n', 'a', 'l']),
        TokenSpec::Spaces(true),
        TokenSpec::Lit(seq![':']),
        TokenSpec::Cap(Class::Name),
    ]
}

pub open spec fn alias_pattern() -> Seq<TokenSpec> {
    seq![
        TokenSpec::Spaces(false),
        TokenSpec::Lit(
            seq!['.', 'i', 'n', 't', 'e', 'r', 'n', 'a', 'l', '-', 'a', 'l', 'i', 'a', 's', ' ', ':'],
        ),
        TokenSpec::Cap(Class::Name),
        TokenSpec::Lit(seq![',']),
        TokenSpec::Spaces(true),
        TokenSpec::Opt('-'),
        TokenSpec::Cap(Class::Digit),
    ]
}

pub open spec fn label_pattern() -> Seq<TokenSpec> {
    seq![TokenSpec::Cap(Class::Name), TokenSpec::Lit(seq![':'])]
}

pub open spec fn param_pattern() -> Seq<TokenSpec> {
    seq![TokenSpec::Spaces(true), TokenSpec::Lit(seq!['.']), TokenSpec::Cap(Class::Name)]
}

fn type_tokens() -> (r: Vec<Token>)
    ensures
        tokens_view(r@) == type_pattern(),
{
    let r = vec![
        Token::Spaces(false),
        Token::Lit(vec!['.', 't', 'y', 'p', 'e']),
        Token::Spaces(true),
        Token::Cap(Class::Name),
        Token::Lit(one(',')),
        Token::Spaces(false),
        Token::Lit(one('@')),
        Token::Cap(Class::Letter),
    ];
    assert(tokens_view(r@) =~= type_pattern());
    r
}

fn size_tokens() -> (r: Vec<Token>)
    ensures
        tokens_view(r@) == size_pattern(),
{
    let r = vec![
        Token::Spaces(false),
        Token::Lit(vec!['.', 's', 'i', 'z', 'e']),
        Token::Spaces(true),
        Token::Cap(Class::Name),
        Token::Lit(one(',')),
        Token::Spaces(false),
        Token::Cap(Class::Word),
    ];
    assert(tokens_view(r@) =~= size_pattern());
    r
}

fn globl_tokens() -> (r: Vec<Token>)
    ensures
        tokens_view(r@) == globl_pattern(),
{
    let r = vec![
        Token::Spaces(false),
        Token::Lit(vec!['.', 'g', 'l', 'o', 'b', 'l']),
        Token::Spaces(true),
        Token::Cap(Class::Name),
    ];
    assert(tokens_view(r@) =~= globl_pattern());
    r
}

fn data_tokens() -> (r: Vec<Token>)
    ensures
        tokens_view(r@) == data_pattern(),
{
    let r = vec![Token::Spaces(false), Token::Lit(vec!['.', 'd', 'a', 't', 'a'])];
    assert(tokens_view(r@) =~= data_pattern());
    r
}

fn selector_tokens() -> (r: Vec<Token>)
    ensures
        tokens_view(r@) == selector_pattern(),
{
    let r = vec![Token::Spaces(false), Token::Lit(vec!['.', 's', 'e', 'l', 'e', 'c', 't', 'o', 'r'])];
    assert(tokens_view(r@) =~= selector_pattern());
    r
}

fn internal_tokens() -> (r: Vec<Token>)
    ensures
        tokens_view(r@) == internal_pattern(),
{
    let r = vec![
        Token::Spaces(false),
        Token::Lit(vec!['.', 'i', 'n', 't', 'e', 'r', 'n', 'a', 'l']),
        Token::Spaces(true),
        Token::Lit(one(':')),
        Token::Cap(Class::Name),
    ];
    assert(tokens_view(r@) =~= internal_pattern());
    r
}

fn alias_tokens() -> (r: Vec<Token>)
    ensures
        tokens_view(r@) == alias_pattern(),
{
    let r = vec![
        Token::Spaces(false),
        Token::Lit(vec!['.', 'i', 'n', 't', 'e', 'r', 'n', 'a', 'l', '-', 'a', 'l', 'i', 'a', 's', ' ', ':']),
        Token::Cap(Class::Name),
        Token::Lit(one(',')),
        Token::Spaces(true),
        Token::Opt('-'),
        Token::Cap(Class::Digit),
    ];
    assert(tokens_view(r@) =~= alias_pattern());
    r
}

fn label_tokens() -> (r: Vec<Token>)
    ensures
        tokens_view(r@) == label_pattern(),
{
    let r = vec![Token::Cap(Class::Name), Token::Lit(one(':'))];
    assert(tokens_view(r@) =~= label_pattern());
    r
}

fn param_tokens() -> (r: Vec<Token>)
    ensures
        tokens_view(r@) == param_pattern(),
{
    let r = vec![Token::Spaces(true), Token::Lit(one('.')), Token::Cap(Class::Name)];
    assert(tokens_view(r@) =~= param_pattern());
    r
}

/// What a source line is.
pub enum LineSpec {
    /// `.type NAME, @KIND`
    Type(Seq<char>, Seq<char>),
    /// `.size NAME, N`; `None` when `N` is not a decimal number that fits a
    /// `usize`.
    Size(Seq<char>, Option<nat>),
    /// `.globl NAME`
    Globl(Seq<char>),
    /// `.data`
    Data,
    /// `.selector`
    Selector,
    /// `.internal :NAME`, with the name's colon.
    Internal(Seq<char>),
    /// `.internal-alias :NAME, N`; `None` when `N` does not fit an `i32`.
    Alias(Seq<char>, Option<i32>),
    /// `LABEL:`
    Label,
    /// An indented line that starts with `.`.
    Param,
    /// Anything else.
    Body,
}

/// The value of a `.size` argument: a decimal number that fits a `usize`;
/// `None` for anything else.
pub open spec fn size_value(w: Seq<char>) -> Option<nat> {
    if all_digits(w) && digits_value(w) <= usize::MAX {
        Some(digits_value(w))
    } else {
        None
    }
}

/// The identifier of an alias, from its sign and digits.
pub open spec fn alias_id(sign: Seq<char>, digits: Seq<char>) -> Option<i32> {
    let v = digits_value(digits);
    if !all_digits(digits) {
        None
    } else if sign.len() == 0 {
        if v <= i32::MAX {
            Some(v as i32)
        } else {
            None
        }
    } else {
        if v <= 0x8000_0000 {
            Some((0 - v) as i32)
        } else {
            None
        }
    }
}

/// The kind of a line: the patterns are tried in this order.
pub open spec fn classify(s: Seq<char>) -> LineSpec {
    match match_from(s, 0, type_pattern()) {
        Some(c) => LineSpec::Type(c[0], c[1]),
        None => match match_from(s, 0, size_pattern()) {
            Some(c) => LineSpec::Size(c[0], size_value(c[1])),
            None => match match_from(s, 0, globl_pattern()) {
                Some(c) => LineSpec::Globl(c[0]),
                None => if match_from(s, 0, data_pattern()) is Some {
                    LineSpec::Data
                } else if match_from(s, 0, selector_pattern()) is Some {
                    LineSpec::Selector
                } else {
                    match match_from(s, 0, internal_pattern()) {
                        Some(c) => LineSpec::Internal(seq![':'] + c[0]),
                        None => match match_from(s, 0, alias_pattern()) {
                            Some(c) => LineSpec::Alias(seq![':'] + c[0], alias_id(c[1], c[2])),
                            None => if match_from(s, 0, label_pattern()) is Some {
                                LineSpec::Label
                            } else if match_from(s, 0, param_pattern()) is Some {
                                LineSpec::Param
                            } else {
                                LineSpec::Body
                            },
                        },
                    }
                },
            },
        },
    }
}

/// A classified line, as the parser uses it.
pub enum Line {
    Type { name: Vec<char>, kind: Vec<char> },
    Size { name: Vec<char>, size: Option<usize> },
    Globl { name: Vec<char> },
    Data,
    Selector,
    Internal { name: Vec<char> },
    Alias { name: Vec<char>, id: Option<i32> },
    Label,
    Param,
    Body,
}

impl Line {
    pub open spec fn view(&self) -> LineSpec {
        match self {
            Line::Type { name, kind } => LineSpec::Type(name@, kind@),
            Line::Size { name, size } => LineSpec::Size(
                name@,
                match size {
                    Some(n) => Some(*n as nat),
                    None => None,
                },
            ),
            Line::Globl { name } => LineSpec::Globl(name@),
            Line::Data => LineSpec::Data,
            Line::Selector => LineSpec::Selector,
            Line::Internal { name } => LineSpec::Internal(name@),
            Line::Alias { name, id } => LineSpec::Alias(name@, *id),
            Line::Label => LineSpec::Label,
            Line::Param => LineSpec::Param,
            Line::Body => LineSpec::Body,
        }
    }
}

/// The one-character text `c`.
fn one(c: char) -> (r: Vec<char>)
    ensures
        r@ == seq![c],
{
    let mut r = Vec::new();
    r.push(c);
    r
}

/// A copy of capture `k`.
fn piece(caps: &Vec<Vec<char>>, k: usize) -> (r: Vec<char>)
    requires
        k < caps@.len(),
    ensures
        r@ == caps@[k as int]@,
{
    let c = &caps[k];
    let r = slice_chars(c, 0, c.len());
    assert(c@.subrange(0, c@.len() as int) =~= c@);
    r
}

/// `:` followed by `name`.
fn with_colon(name: &Vec<char>) -> (r: Vec<char>)
    ensures
        r@ == seq![':'] + name@,
{
    let mut r = one(':');
    crate::text::append_chars(&mut r, name);
    r
}

/// Whether all characters of `s` are digits, and there is one at least.
fn is_all_digits(s: &Vec<char>) -> (r: bool)
    ensures
        r == all_digits(s@),
{
    if s.len() == 0 {
        return false;
    }
    let mut k: usize = 0;
    while k < s.len()
        invariant
            k <= s@.len(),
            forall|m: int| 0 <= m < k ==> crate::text::is_digit(#[trigger] s@[m]),
        decreases s@.len() - k,
    {
        if !crate::text::in_class_exec(s[k], Class::Digit) {
            return false;
        }
        k = k + 1;
    }
    true
}

/// Classifies a source line.
pub fn classify_line(s: &Vec<char>) -> (r: Line)
    ensures
        r@ == classify(s@),
{
    let ghost v = s@;
    if let Some(c) = match_line(s, &type_tokens()) {
        proof {
            lemma_match_captures(v, 0, type_pattern());
            reveal_with_fuel(n_captures, 9);
        }
        return Line::Type { name: piece(&c, 0), kind: piece(&c, 1) };
    }
    if let Some(c) = match_line(s, &size_tokens()) {
        proof {
            lemma_match_captures(v, 0, size_pattern());
            reveal_with_fuel(n_captures, 8);
        }
        let word = piece(&c, 1);
        let size: Option<usize> = if is_all_digits(&word) {
            match digits_to_u64(&word, usize::MAX as u64) {
                Some(n) => Some(n as usize),
                None => None,
            }
        } else {
            None
        };
        return Line::Size { name: piece(&c, 0), size };
    }
    if let Some(c) = match_line(s, &globl_tokens()) {
        proof {
            lemma_match_captures(v, 0, globl_pattern());
            reveal_with_fuel(n_captures, 5);
        }
        return Line::Globl { name: piece(&c, 0) };
    }
    if match_line(s, &data_tokens()).is_some() {
        return Line::Data;
    }
    if match_line(s, &selector_tokens()).is_some() {
        return Line::Selector;
    }
    if let Some(c) = match_line(s, &internal_tokens()) {
        proof {
            lemma_match_captures(v, 0, internal_pattern());
            reveal_with_fuel(n_captures, 6);
        }
        return Line::Internal { name: with_colon(&c[0]) };
    }
    if let Some(c) = match_line(s, &alias_tokens()) {
        proof {
            lemma_match_captures(v, 0, alias_pattern());
            reveal_with_fuel(n_captures, 8);
        }
        let digits = piece(&c, 2);
        let id = if !is_all_digits(&digits) {
            None
        } else {
            match digits_to_u64(&digits, 0x8000_0000) {
                Some(n) => if c[1].len() == 0 {
                    if n <= 0x7FFF_FFFF {
                        Some(n as i32)
                    } else {
                        None
                    }
                } else {
                    Some((0 - (n as i64)) as i32)
                },
                None => None,
            }
        };
        return Line::Alias { name: with_colon(&c[0]), id };
    }
    if match_line(s, &label_tokens()).is_some() {
        return Line::Label;
    }
    if match_line(s, &param_tokens()).is_some() {
        return Line::Param;
    }
    Line::Body
}


} // verus!
