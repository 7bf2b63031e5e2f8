use vstd::prelude::*;
use crate::error::{ErrorSpec, ParseError};
use crate::grammar::{chars_view, match_from, match_line, lemma_match_captures, n_captures, Token, TokenSpec, tokens_view};
use crate::text::{all_digits, digits_to_u64, digits_value, Class};

verus! {

/// Where the line that starts at `i` ends: the next `\n`, or the end of `s`.
pub open spec fn line_end(s: Seq<char>, i: int) -> int
    decreases s.len() - i,
{
    if i < s.len() && s[i] != '\n' {
        line_end(s, i + 1)
    } else {
        i
    }
}

/// The lines of `s` from position `i` on. With `keep`, each line keeps its
/// `\n`; otherwise the `\n` is dropped. A final line without `\n` counts.
pub open spec fn lines_from(s: Seq<char>, i: int, keep: bool) -> Seq<Seq<char>>
    decreases s.len() + 1 - i,
{
    if i < 0 || i >= s.len() {
        Seq::empty()
    } else {
        proof {
            lemma_line_end(s, i);
        }
        let e = line_end(s, i);
        let stop = if keep && e < s.len() { e + 1 } else { e };
        seq![s.subrange(i, stop)] + lines_from(s, e + 1, keep)
    }
}

pub proof fn lemma_line_end(s: Seq<char>, i: int)
    requires
        0 <= i <= s.len(),
    ensures
        i <= line_end(s, i) <= s.len(),
    decreases s.len() - i,
{
    if i < s.len() && s[i] != '\n' {
        lemma_line_end(s, i + 1);
    }
}

pub open spec fn lines_of(s: Seq<char>, keep: bool) -> Seq<Seq<char>> {
    lines_from(s, 0, keep)
}

/// Splits `s` into lines.
pub fn split_lines(s: &Vec<char>, keep: bool) -> (r: Vec<Vec<char>>)
    ensures
        chars_view(r@) == lines_of(s@, keep),
{
    let mut out: Vec<Vec<char>> = Vec::new();
    let mut i: usize = 0;
    assert(chars_view(out@) + lines_from(s@, 0, keep) =~= lines_from(s@, 0, keep));
    while i < s.len()
        invariant
            i <= s@.len(),
            chars_view(out@) + lines_from(s@, i as int, keep) == lines_from(s@, 0, keep),
        decreases s@.len() - i,
    {
        let mut e = i;
        while e < s.len() && s[e] != '\n'
            invariant
                i <= e <= s@.len(),
                line_end(s@, e as int) == line_end(s@, i as int),
            decreases s@.len() - e,
        {
            e = e + 1;
        }
        proof {
            lemma_line_end(s@, i as int);
        }
        let stop = if keep && e < s.len() { e + 1 } else { e };
        let line = crate::text::slice_chars(s, i, stop);
        let ghost before = chars_view(out@);
        out.push(line);
        assert(chars_view(out@) =~= before.push(s@.subrange(i as int, stop as int)));
        assert(before + lines_from(s@, i as int, keep) =~= chars_view(out@) + lines_from(s@, e + 1, keep));
        if e == s.len() {
            assert(lines_from(s@, e + 1, keep) =~= Seq::<Seq<char>>::empty());
            assert(chars_view(out@) + Seq::<Seq<char>>::empty() =~= chars_view(out@));
            return out;
        }
        i = e + 1;
    }
    assert(lines_from(s@, i as int, keep) =~= Seq::<Seq<char>>::empty());
    assert(chars_view(out@) + Seq::<Seq<char>>::empty() =~= chars_view(out@));
    out
}

/// One value of a data object: a signed integer stored in `width` bytes.
#[derive(Clone, Copy, Debug, PartialEq, Eq)]
pub struct DataValue {
    pub value: i64,
    pub width: usize,
}

/// The last `n` bytes of the base-256 form of `u`, most significant first.
pub open spec fn be_bytes(u: nat, n: nat) -> Seq<u8>
    decreases n,
{
    if n == 0 {
        Seq::empty()
    } else {
        be_bytes(u / 256, (n - 1) as nat).push((u % 256) as u8)
    }
}

/// The encoding of a value: the last `width` bytes, most significant first,
/// of `value` taken modulo 2^64. For a value that fits `width` bytes this is
/// its two's complement in `width` bytes.
pub open spec fn encode_value(value: i64, width: nat) -> Seq<u8> {
    be_bytes((value as int % 0x1_0000_0000_0000_0000) as nat, width)
}

fn be_bytes_exec(u: u64, n: usize) -> (r: Vec<u8>)
    ensures
        r@ == be_bytes(u as nat, n as nat),
    decreases n,
{
    if n == 0 {
        Vec::new()
    } else {
        let mut r = be_bytes_exec(u / 256, n - 1);
        r.push((u % 256) as u8);
        r
    }
}

impl DataValue {
    /// The value as stored in the data segment: its two's complement in
    /// `width` bytes, most significant first.
    pub fn write(&self) -> (r: Vec<u8>)
        ensures
            r@ == encode_value(self.value, self.width as nat),
    {
        let v = self.value;
        let u: u64 = if v < 0 {
            ((v + i64::MAX) + 1) as u64 + 0x8000_0000_0000_0000u64
        } else {
            v as u64
        };
        assert(u as int == v as int % 0x1_0000_0000_0000_0000);
        be_bytes_exec(u, self.width)
    }
}

/// The width in bytes of a value directive: `.byte`, `.short`, `.long` and
/// `.quad` hold 1, 2, 4 and 8 bytes.
pub open spec fn kind_width(kind: Seq<char>) -> Option<nat> {
    if kind == seq!['b', 'y', 't', 'e'] {
        Some(1)
    } else if kind == seq!['s', 'h', 'o', 'r', 't'] {
        Some(2)
    } else if kind == seq!['l', 'o', 'n', 'g'] {
        Some(4)
    } else if kind == seq!['q', 'u', 'a', 'd'] {
        Some(8)
    } else {
        None
    }
}

/// A line of a data object's body that starts with `.KIND`.
pub open spec fn kind_pattern() -> Seq<TokenSpec> {
    seq![TokenSpec::Spaces(false), TokenSpec::Lit(seq!['.']), TokenSpec::Cap(Class::Name)]
}

/// `.KIND` followed by a decimal number, which may have a `-`.
pub open spec fn value_pattern() -> Seq<TokenSpec> {
    seq![
        TokenSpec::Spaces(false),
        TokenSpec::Lit(seq!['.']),
        TokenSpec::Cap(Class::Name),
        TokenSpec::Spaces(true),
        TokenSpec::Opt('-'),
        TokenSpec::Cap(Class::Digit),
    ]
}

/// 2 to the power `8 * width - 1`: the bound of a signed value of `width` bytes.
pub open spec fn half_range(width: nat) -> nat {
    if width == 1 {
        0x80
    } else if width == 2 {
        0x8000
    } else if width == 4 {
        0x8000_0000
    } else {
        0x8000_0000_0000_0000
    }
}

/// The number that a sign and digits denote, when it fits `width` bytes.
pub open spec fn value_of(sign: Seq<char>, digits: Seq<char>, width: nat) -> Option<i64> {
    let v = digits_value(digits);
    if !all_digits(digits) {
        None
    } else if sign.len() == 0 {
        if v < half_range(width) {
            Some(v as i64)
        } else {
            None
        }
    } else if v <= half_range(width) {
        Some((0 - v) as i64)
    } else {
        None
    }
}

/// Reads one line of a data object's body, with `size` bytes still to fill.
pub open spec fn data_step(line: Seq<char>, size: nat, values: Seq<(i64, nat)>) -> Result<
    (nat, Seq<(i64, nat)>),
    ErrorSpec,
> {
    match match_from(line, 0, kind_pattern()) {
        None => Ok((size, values)),
        Some(c) => match kind_width(c[0]) {
            None => Err(ErrorSpec::UnsupportedParameter(c[0])),
            Some(w) => if size < w {
                Err(ErrorSpec::SizeTooSmall)
            } else {
                match match_from(line, 0, value_pattern()) {
                    Some(v) => match value_of(v[1], v[2], w) {
                        Some(x) => Ok(((size - w) as nat, values.push((x, w)))),
                        None => Err(ErrorSpec::InvalidNumber),
                    },
                    None => Err(ErrorSpec::InvalidNumber),
                }
            },
        },
    }
}

/// Reads the first `k` lines.
pub open spec fn data_run(lines: Seq<Seq<char>>, k: int, size: nat, values: Seq<(i64, nat)>) -> Result<
    (nat, Seq<(i64, nat)>),
    ErrorSpec,
>
    decreases k,
{
    if k <= 0 {
        Ok((size, values))
    } else {
        match data_run(lines, k - 1, size, values) {
            Ok((s, v)) => data_step(lines[k - 1], s, v),
            Err(e) => Err(e),
        }
    }
}

/// The values of a data object whose body is `body`, appended to `values`;
/// they must fill `size` bytes exactly.
pub open spec fn data_values(body: Seq<char>, size: nat, values: Seq<(i64, nat)>) -> Result<
    Seq<(i64, nat)>,
    ErrorSpec,
> {
    let lines = lines_of(body, false);
    let r = data_run(lines, lines.len() as int, size, values);
    if r is Err {
        Err(r->Err_0)
    } else {
        let p = r->Ok_0;
        if p.0 > 0 {
            Err(ErrorSpec::SizeTooBig)
        } else {
            Ok(p.1)
        }
    }
}

/// Once reading the lines has failed, it stays failed.
pub proof fn lemma_data_run_failed(
    lines: Seq<Seq<char>>,
    j: int,
    n: int,
    size: nat,
    values: Seq<(i64, nat)>,
)
    requires
        0 <= j <= n,
        data_run(lines, j, size, values) is Err,
    ensures
        data_run(lines, n, size, values) == data_run(lines, j, size, values),
    decreases n - j,
{
    if j < n {
        lemma_data_run_failed(lines, j, n - 1, size, values);
    }
}

pub open spec fn values_view(v: Seq<DataValue>) -> Seq<(i64, nat)> {
    v.map_values(|d: DataValue| (d.value, d.width as nat))
}

fn kind_tokens() -> (r: Vec<Token>)
    ensures
        tokens_view(r@) == kind_pattern(),
{
    let mut dot = Vec::new();
    dot.push('.');
    let r = vec![Token::Spaces(false), Token::Lit(dot), Token::Cap(Class::Name)];
    assert(tokens_view(r@) =~= kind_pattern());
    r
}

fn value_tokens() -> (r: Vec<Token>)
    ensures
        tokens_view(r@) == value_pattern(),
{
    let mut dot = Vec::new();
    dot.push('.');
    let r = vec![
        Token::Spaces(false),
        Token::Lit(dot),
        Token::Cap(Class::Name),
        Token::Spaces(true),
        Token::Opt('-'),
        Token::Cap(Class::Digit),
    ];
    assert(tokens_view(r@) =~= value_pattern());
    r
}

fn width_of(kind: &Vec<char>) -> (r: Option<usize>)
    ensures
        match r {
            Some(w) => kind_width(kind@) == Some(w as nat),
            None => kind_width(kind@) is None,
        },
{
    let byte = vec!['b', 'y', 't', 'e'];
    let short = vec!['s', 'h', 'o', 'r', 't'];
    let long = vec!['l', 'o', 'n', 'g'];
    let quad = vec!['q', 'u', 'a', 'd'];
    if crate::text::same_chars(kind, &byte) {
        Some(1)
    } else if crate::text::same_chars(kind, &short) {
        Some(2)
    } else if crate::text::same_chars(kind, &long) {
        Some(4)
    } else if crate::text::same_chars(kind, &quad) {
        Some(8)
    } else {
        None
    }
}

fn all_digits_exec(s: &Vec<char>) -> (r: bool)
    ensures
        r == all_digits(s@),
{
    if s.len() == 0 {
        return false;
    }
    let mut k: usize = 0;
    while k < s.len()
        invariant
            k <= s@.len(),
            forall|m: int| 0 <= m < k ==> crate::text::is_digit(#[trigger] s@[m]),
        decreases s@.len() - k,
    {
        if !crate::text::in_class_exec(s[k], Class::Digit) {
            return false;
        }
        k = k + 1;
    }
    true
}

fn value_exec(sign: &Vec<char>, digits: &Vec<char>, width: usize) -> (r: Option<i64>)
    requires
        width == 1 || width == 2 || width == 4 || width == 8,
    ensures
        r == value_of(sign@, digits@, width as nat),
{
    if !all_digits_exec(digits) {
        return None;
    }
    let half: u64 = if width == 1 {
        0x80
    } else if width == 2 {
        0x8000
    } else if width == 4 {
        0x8000_0000
    } else {
        0x8000_0000_0000_0000
    };
    match digits_to_u64(digits, half) {
        None => None,
        Some(v) => if sign.len() == 0 {
            if v < half {
                Some(v as i64)
            } else {
                None
            }
        } else if v == 0x8000_0000_0000_0000 {
            Some(i64::MIN)
        } else {
            Some(0 - (v as i64))
        },
    }
}

/// Reads a data object's body: appends its values to `values` and takes
/// their widths from `item_size`, which must end at zero.
pub fn update_data(body: &Vec<char>, item_size: &mut usize, values: &mut Vec<DataValue>) -> (r: Result<(), ParseError>)
    ensures
        match data_values(body@, *old(item_size) as nat, values_view(old(values)@)) {
            Ok(v) => r is Ok && values_view(final(values)@) == v && *final(item_size) == 0,
            Err(e) => r matches Err(x) && x@ == e,
        },
{
    let lines = split_lines(body, false);
    let ghost ls = lines_of(body@, false);
    let ghost size0 = *item_size as nat;
    let ghost values0 = values_view(values@);
    let kinds = kind_tokens();
    let numbers = value_tokens();
    let mut k: usize = 0;
    while k < lines.len()
        invariant
            ls == lines_of(body@, false),
            size0 == *old(item_size) as nat,
            values0 == values_view(old(values)@),
            chars_view(lines@) == ls,
            tokens_view(kinds@) == kind_pattern(),
            tokens_view(numbers@) == value_pattern(),
            k <= lines@.len(),
            data_run(ls, k as int, size0, values0) == Ok::<(nat, Seq<(i64, nat)>), ErrorSpec>((*item_size as nat, values_view(values@))),
        decreases lines@.len() - k,
    {
        let line = &lines[k];
        assert(ls[k as int] == line@);
        let ghost size = *item_size as nat;
        let ghost before = values_view(values@);
        match match_line(line, &kinds) {
            None => {},
            Some(c) => {
                proof {
                    lemma_match_captures(line@, 0, kind_pattern());
                    reveal_with_fuel(n_captures, 4);
                }
                match width_of(&c[0]) {
                    None => {
                        let kind = crate::text::slice_chars(&c[0], 0, c[0].len());
                        assert(c@[0]@.subrange(0, c@[0]@.len() as int) =~= c@[0]@);
                        proof {
                            lemma_data_run_failed(ls, k + 1, ls.len() as int, size0, values0);
                        }
                        return Err(ParseError::UnsupportedParameter(kind));
                    },
                    Some(w) => {
                        if *item_size < w {
                            proof {
                            lemma_data_run_failed(ls, k + 1, ls.len() as int, size0, values0);
                        }
                        return Err(ParseError::SizeTooSmall);
                        }
                        match match_line(line, &numbers) {
                            None => {
                                proof {
                                    lemma_data_run_failed(ls, k + 1, ls.len() as int, size0, values0);
                                }
                                return Err(ParseError::InvalidNumber);
                            },
                            Some(v) => {
                                proof {
                                    lemma_match_captures(line@, 0, value_pattern());
                                    reveal_with_fuel(n_captures, 7);
                                }
                                match value_exec(&v[1], &v[2], w) {
                                    None => {
                                        proof {
                                            lemma_data_run_failed(ls, k + 1, ls.len() as int, size0, values0);
                                        }
                                        return Err(ParseError::InvalidNumber);
                                    },
                                    Some(x) => {
                                        *item_size = *item_size - w;
                                        values.push(DataValue { value: x, width: w });
                                        assert(values_view(values@) =~= before.push((x, w as nat)));
                                    },
                                }
                            },
                        }
                    },
                }
            },
        }
        k = k + 1;
    }
    if *item_size > 0 {
        return Err(ParseError::SizeTooBig);
    }
    Ok(())
}

} // verus!
