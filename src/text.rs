use vstd::prelude::*;

verus! {

/// White space as the assembly grammar sees it: space, tab and the other
/// ASCII white-space characters.
pub open spec fn is_space(c: char) -> bool {
    c == ' ' || c == '\t' || c == '\n' || c == '\r' || c == '\x0B' || c == '\x0C'
}

pub open spec fn is_letter(c: char) -> bool {
    ('a' <= c && c <= 'z') || ('A' <= c && c <= 'Z')
}

pub open spec fn is_digit(c: char) -> bool {
    '0' <= c && c <= '9'
}

/// A character of a name: an ASCII letter or digit, or `_`.
pub open spec fn is_name_char(c: char) -> bool {
    is_letter(c) || is_digit(c) || c == '_'
}

/// The classes of characters that the grammar reads in runs.
#[derive(Clone, Copy, Debug, PartialEq, Eq, Structural)]
pub enum Class {
    Space,
    Letter,
    Digit,
    Name,
    /// Name characters and `.`.
    Word,
}

pub open spec fn in_class(c: char, class: Class) -> bool {
    match class {
        Class::Space => is_space(c),
        Class::Letter => is_letter(c),
        Class::Digit => is_digit(c),
        Class::Name => is_name_char(c),
        Class::Word => is_name_char(c) || c == '.',
    }
}

/// The end of the longest run of `class` characters in `s` from `i` on.
pub open spec fn run_end(s: Seq<char>, i: int, class: Class) -> int
    decreases s.len() - i,
{
    if 0 <= i < s.len() && in_class(s[i], class) {
        run_end(s, i + 1, class)
    } else {
        i
    }
}

/// `s` holds `word` at position `i`.
pub open spec fn word_at(s: Seq<char>, i: int, word: Seq<char>) -> bool {
    0 <= i && i + word.len() <= s.len() && s.subrange(i, i + word.len()) == word
}

/// The value of a run of decimal digits.
pub open spec fn digits_value(s: Seq<char>) -> nat
    decreases s.len(),
{
    if s.len() == 0 {
        0
    } else {
        digits_value(s.drop_last()) * 10 + (s.last() as nat - '0' as nat) as nat
    }
}

/// All characters of `s` are decimal digits, and there is at least one.
pub open spec fn all_digits(s: Seq<char>) -> bool {
    s.len() > 0 && forall|i: int| 0 <= i < s.len() ==> is_digit(#[trigger] s[i])
}

/// The decimal notation of `n`, without leading zeros.
pub open spec fn decimal(n: nat) -> Seq<char>
    decreases n,
{
    if n < 10 {
        seq![digit_char(n)]
    } else {
        decimal(n / 10).push(digit_char(n % 10))
    }
}

pub open spec fn digit_char(d: nat) -> char {
    ((d + 48) as u8) as char
}

fn digit_exec(d: u64) -> (r: char)
    requires
        d < 10,
    ensures
        r == digit_char(d as nat),
{
    ((d as u8) + 48) as char
}

/// The decimal notation of `n`.
pub fn decimal_chars(n: u64) -> (r: Vec<char>)
    ensures
        r@ == decimal(n as nat),
    decreases n,
{
    if n < 10 {
        let mut r = Vec::new();
        r.push(digit_exec(n));
        r
    } else {
        let mut r = decimal_chars(n / 10);
        r.push(digit_exec(n % 10));
        r
    }
}

/// The decimal notation of `n`, with a `-` when it is negative.
pub fn signed_decimal_chars(n: i32) -> (r: Vec<char>)
    ensures
        r@ == signed_decimal(n as int),
{
    if n < 0 {
        let mut r = Vec::new();
        r.push('-');
        let magnitude = decimal_chars((0 - (n as i64)) as u64);
        append_chars(&mut r, &magnitude);
        r
    } else {
        decimal_chars(n as u64)
    }
}

/// The decimal notation of a signed number: a `-` before the magnitude of a
/// negative one.
pub open spec fn signed_decimal(n: int) -> Seq<char> {
    if n < 0 {
        seq!['-'] + decimal((-n) as nat)
    } else {
        decimal(n as nat)
    }
}

/// `s` without the white space at its end.
pub open spec fn trim_end(s: Seq<char>) -> Seq<char>
    decreases s.len(),
{
    if s.len() > 0 && is_space(s.last()) {
        trim_end(s.drop_last())
    } else {
        s
    }
}

pub fn in_class_exec(c: char, class: Class) -> (r: bool)
    ensures
        r == in_class(c, class),
{
    let letter = ('a' <= c && c <= 'z') || ('A' <= c && c <= 'Z');
    let digit = '0' <= c && c <= '9';
    match class {
        Class::Space => c == ' ' || c == '\t' || c == '\n' || c == '\r' || c == '\x0B' || c == '\x0C',
        Class::Letter => letter,
        Class::Digit => digit,
        Class::Name => letter || digit || c == '_',
        Class::Word => letter || digit || c == '_' || c == '.',
    }
}

/// The end of the run of `class` characters that starts at `i`.
pub fn skip_run(s: &Vec<char>, i: usize, class: Class) -> (r: usize)
    requires
        i <= s@.len(),
    ensures
        r == run_end(s@, i as int, class),
        i <= r <= s@.len(),
{
    let mut j = i;
    while j < s.len() && in_class_exec(s[j], class)
        invariant
            i <= j <= s@.len(),
            run_end(s@, j as int, class) == run_end(s@, i as int, class),
        decreases s@.len() - j,
    {
        j = j + 1;
    }
    j
}

/// Whether `s` holds `word` at position `i`.
pub fn has_word(s: &Vec<char>, i: usize, word: &Vec<char>) -> (r: bool)
    ensures
        r == word_at(s@, i as int, word@),
{
    if i > s.len() || word.len() > s.len() - i {
        return false;
    }
    assert(s@.len() == s.len() && word@.len() == word.len());
    let mut k: usize = 0;
    while k < word.len()
        invariant
            i <= s@.len(),
            i + word@.len() <= s@.len(),
            k <= word@.len(),
            forall|m: int| 0 <= m < k ==> s@[i + m] == word@[m],
        decreases word@.len() - k,
    {
        assert(i + k < s.len());
        if s[i + k] != word[k] {
            assert(s@.subrange(i as int, i + word@.len())[k as int] != word@[k as int]);
            return false;
        }
        k = k + 1;
    }
    assert(s@.subrange(i as int, i + word@.len()) =~= word@);
    true
}

/// The characters `s[from..to]`.
pub fn slice_chars(s: &Vec<char>, from: usize, to: usize) -> (r: Vec<char>)
    requires
        from <= to <= s@.len(),
    ensures
        r@ == s@.subrange(from as int, to as int),
{
    let mut r: Vec<char> = Vec::new();
    let mut k = from;
    while k < to
        invariant
            from <= k <= to <= s@.len(),
            r@ == s@.subrange(from as int, k as int),
        decreases to - k,
    {
        r.push(s[k]);
        k = k + 1;
        assert(r@ =~= s@.subrange(from as int, k as int));
    }
    r
}

/// Appends `t` to `s`.
pub fn append_chars(s: &mut Vec<char>, t: &Vec<char>)
    ensures
        final(s)@ == old(s)@ + t@,
{
    let mut k: usize = 0;
    while k < t.len()
        invariant
            k <= t@.len(),
            s@ == old(s)@ + t@.subrange(0, k as int),
        decreases t@.len() - k,
    {
        s.push(t[k]);
        k = k + 1;
        assert(s@ =~= old(s)@ + t@.subrange(0, k as int));
    }
    assert(t@.subrange(0, t@.len() as int) =~= t@);
}

/// Whether `a` and `b` hold the same characters.
pub fn same_chars(a: &Vec<char>, b: &Vec<char>) -> (r: bool)
    ensures
        r == (a@ == b@),
{
    if a.len() != b.len() {
        return false;
    }
    let mut k: usize = 0;
    while k < a.len()
        invariant
            a@.len() == b@.len(),
            k <= a@.len(),
            forall|m: int| 0 <= m < k ==> a@[m] == b@[m],
        decreases a@.len() - k,
    {
        if a[k] != b[k] {
            return false;
        }
        k = k + 1;
    }
    assert(a@ =~= b@);
    true
}

/// `s` without its trailing white space.
pub fn trim_end_chars(s: &Vec<char>) -> (r: Vec<char>)
    ensures
        r@ == trim_end(s@),
{
    let mut end = s.len();
    assert(s@.subrange(0, s@.len() as int) =~= s@);
    while end > 0 && in_class_exec(s[end - 1], Class::Space)
        invariant
            end <= s@.len(),
            trim_end(s@.subrange(0, end as int)) == trim_end(s@),
        decreases end,
    {
        assert(s@.subrange(0, end as int).drop_last() =~= s@.subrange(0, end - 1));
        end = end - 1;
    }
    assert(s@.subrange(0, s@.len() as int) =~= s@);
    slice_chars(s, 0, end)
}

/// The value of the decimal digits `s`, or `None` when it exceeds `limit`.
pub fn digits_to_u64(s: &Vec<char>, limit: u64) -> (r: Option<u64>)
    requires
        all_digits(s@),
        limit >= 9,
    ensures
        match r {
            Some(v) => v == digits_value(s@) && v <= limit,
            None => digits_value(s@) > limit,
        },
{
    let mut v: u64 = 0;
    let mut k: usize = 0;
    while k < s.len()
        invariant
            all_digits(s@),
            limit >= 9,
            k <= s@.len(),
            v == digits_value(s@.subrange(0, k as int)),
            v <= limit,
        decreases s@.len() - k,
    {
        let d = (s[k] as u32 - '0' as u32) as u64;
        assert(is_digit(s@[k as int]));
        assert(s@.subrange(0, k + 1).drop_last() =~= s@.subrange(0, k as int));
        if v > (limit - d) / 10 {
            proof {
                lemma_digits_grow(s@, k as int, limit);
            }
            return None;
        }
        assert(v * 10 + d <= limit) by (nonlinear_arith)
            requires
                v <= (limit - d) / 10,
                d <= 9,
                limit >= 9,
        {
        }
        v = v * 10 + d;
        k = k + 1;
    }
    assert(s@.subrange(0, s@.len() as int) =~= s@);
    Some(v)
}

/// Once the value of a prefix of digits passes a limit, the value of the
/// whole run does too.
proof fn lemma_digits_grow(s: Seq<char>, k: int, limit: u64)
    requires
        all_digits(s),
        0 <= k < s.len(),
        limit >= 9,
        digits_value(s.subrange(0, k)) > (limit - (s[k] as nat - '0' as nat)) / 10,
    ensures
        digits_value(s) > limit,
{
    let d = (s[k] as nat - '0' as nat) as nat;
    assert(is_digit(s[k]));
    assert(s.subrange(0, k + 1).drop_last() =~= s.subrange(0, k));
    let p = digits_value(s.subrange(0, k));
    assert(p * 10 + d > limit) by (nonlinear_arith)
        requires
            p > (limit - d) / 10,
            d <= 9,
            limit >= 9,
    {
    }
    lemma_digits_prefix(s, k + 1);
}

/// The value of a run of digits is at least that of any prefix.
proof fn lemma_digits_prefix(s: Seq<char>, j: int)
    requires
        all_digits(s),
        0 <= j <= s.len(),
    ensures
        digits_value(s.subrange(0, j)) <= digits_value(s),
    decreases s.len() - j,
{
    if j < s.len() {
        assert(s.subrange(0, j + 1).drop_last() =~= s.subrange(0, j));
        assert(is_digit(s[j]));
        lemma_digits_prefix(s, j + 1);
    } else {
        assert(s.subrange(0, j) =~= s);
    }
}

} // verus!
