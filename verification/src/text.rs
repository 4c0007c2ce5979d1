//! Character-level text utilities: trimming, splitting, and hexadecimal
//! parsing, each with a spec-level definition over `Seq<char>` and an
//! executable counterpart proved to match it.

use vstd::prelude::*;
use vstd::string::StrSliceExecFns;

verus! {

/// The characters treated as blank when lines and fields are trimmed.
pub open spec fn is_space(c: char) -> bool {
    c == ' ' || c == '\t' || c == '\r' || c == '\n'
}

fn is_space_char(c: char) -> (r: bool)
    ensures
        r == is_space(c),
{
    c == ' ' || c == '\t' || c == '\r' || c == '\n'
}

/// `s` with its leading blank characters removed.
pub open spec fn trim_start(s: Seq<char>) -> Seq<char>
    decreases s.len(),
{
    if s.len() > 0 && is_space(s[0]) {
        trim_start(s.drop_first())
    } else {
        s
    }
}

/// `s` with its trailing blank characters removed.
pub open spec fn trim_end(s: Seq<char>) -> Seq<char>
    decreases s.len(),
{
    if s.len() > 0 && is_space(s[s.len() - 1]) {
        trim_end(s.drop_last())
    } else {
        s
    }
}

/// `s` with blank characters removed from both ends.
pub open spec fn trim(s: Seq<char>) -> Seq<char> {
    trim_end(trim_start(s))
}

proof fn lemma_trim_start_skip(s: Seq<char>, i: int)
    requires
        0 <= i <= s.len(),
        forall|k: int| 0 <= k < i ==> is_space(s[k]),
        i == s.len() || !is_space(s[i]),
    ensures
        trim_start(s) == s.skip(i),
    decreases i,
{
    if i == 0 {
        assert(s.skip(0) =~= s);
    } else {
        lemma_trim_start_skip(s.drop_first(), i - 1);
        assert(s.drop_first().skip(i - 1) =~= s.skip(i));
    }
}

proof fn lemma_trim_end_take(s: Seq<char>, j: int)
    requires
        0 <= j <= s.len(),
        forall|k: int| j <= k < s.len() ==> is_space(s[k]),
        j == 0 || !is_space(s[j - 1]),
    ensures
        trim_end(s) == s.take(j),
    decreases s.len() - j,
{
    if j == s.len() {
        assert(s.take(j) =~= s);
    } else {
        lemma_trim_end_take(s.drop_last(), j);
        assert(s.drop_last().take(j) =~= s.take(j));
    }
}

/// Trims blank characters from both ends of `s`.
pub fn trim_str(s: &str) -> (r: &str)
    ensures
        r@ == trim(s@),
{
    let n = s.unicode_len();
    let mut lo: usize = 0;
    while lo < n && is_space_char(s.get_char(lo))
        invariant
            n == s@.len(),
            lo <= n,
            forall|k: int| 0 <= k < lo ==> is_space(s@[k]),
        decreases n - lo,
    {
        lo = lo + 1;
    }
    let mut hi: usize = n;
    while hi > lo && is_space_char(s.get_char(hi - 1))
        invariant
            n == s@.len(),
            lo <= hi <= n,
            forall|k: int| hi <= k < n ==> is_space(s@[k]),
        decreases hi,
    {
        hi = hi - 1;
    }
    proof {
        lemma_trim_start_skip(s@, lo as int);
        lemma_trim_end_take(s@.skip(lo as int), hi - lo);
        assert(s@.skip(lo as int).take(hi - lo) =~= s@.subrange(lo as int, hi as int));
    }
    s.substring_char(lo, hi)
}

/// The index of the first occurrence of `sep` in `s`, or `s.len()` when
/// `sep` does not occur.
pub open spec fn find_sep(s: Seq<char>, sep: char) -> int
    decreases s.len(),
{
    if s.len() == 0 {
        0
    } else if s[0] == sep {
        0
    } else {
        1 + find_sep(s.drop_first(), sep)
    }
}

pub proof fn lemma_find_sep_at(s: Seq<char>, sep: char, m: int)
    requires
        0 <= m <= s.len(),
        forall|k: int| 0 <= k < m ==> s[k] != sep,
        m == s.len() || s[m] == sep,
    ensures
        find_sep(s, sep) == m,
    decreases m,
{
    if m > 0 {
        lemma_find_sep_at(s.drop_first(), sep, m - 1);
    }
}

/// The fields of `s` delimited by `sep`: splitting an `n`-separator text
/// yields `n + 1` fields, empty fields included.
pub open spec fn split_on(s: Seq<char>, sep: char) -> Seq<Seq<char>>
    decreases s.len(),
{
    let i = find_sep(s, sep);
    if 0 <= i < s.len() {
        seq![s.take(i)] + split_on(s.skip(i + 1), sep)
    } else {
        seq![s]
    }
}

proof fn lemma_split_on_step(s: Seq<char>, sep: char, m: int)
    requires
        0 <= m < s.len(),
        forall|k: int| 0 <= k < m ==> s[k] != sep,
        s[m] == sep,
    ensures
        split_on(s, sep) == seq![s.take(m)] + split_on(s.skip(m + 1), sep),
{
    lemma_find_sep_at(s, sep, m);
}

pub proof fn lemma_split_on_whole(s: Seq<char>, sep: char)
    requires
        forall|k: int| 0 <= k < s.len() ==> s[k] != sep,
    ensures
        split_on(s, sep) == seq![s],
{
    lemma_find_sep_at(s, sep, s.len() as int);
}

/// Splitting a field without the separator off the front of a text peels
/// exactly that field.
pub proof fn lemma_split_on_prefix(a: Seq<char>, b: Seq<char>, sep: char)
    requires
        forall|i: int| 0 <= i < a.len() ==> a[i] != sep,
    ensures
        split_on(a + seq![sep] + b, sep) == seq![a] + split_on(b, sep),
{
    let s = a + seq![sep] + b;
    lemma_find_sep_at(s, sep, a.len() as int);
    assert(s.take(a.len() as int) =~= a);
    assert(s.skip(a.len() as int + 1) =~= b);
}

/// Splits `s` into the fields delimited by `sep`.
pub fn split_str<'a>(s: &'a str, sep: char) -> (r: Vec<&'a str>)
    ensures
        r.deep_view() == split_on(s@, sep),
        r@.len() >= 1,
{
    let n = s.unicode_len();
    let mut parts: Vec<&'a str> = Vec::new();
    let mut start: usize = 0;
    let mut j: usize = 0;
    proof {
        assert(s@.skip(0) =~= s@);
        assert(parts.deep_view() + split_on(s@, sep) =~= split_on(s@, sep));
    }
    while j < n
        invariant
            n == s@.len(),
            start <= j <= n,
            forall|k: int| start <= k < j ==> s@[k] != sep,
            split_on(s@, sep) == parts.deep_view() + split_on(s@.skip(start as int), sep),
        decreases n - j,
    {
        if s.get_char(j) == sep {
            let piece = s.substring_char(start, j);
            proof {
                let tail = s@.skip(start as int);
                lemma_split_on_step(tail, sep, j - start);
                assert(tail.take(j - start) =~= s@.subrange(start as int, j as int));
                assert(tail.skip(j - start + 1) =~= s@.skip(j + 1));
                assert(parts.deep_view().push(piece@) =~= parts.deep_view() + seq![piece@]);
            }
            parts.push(piece);
            start = j + 1;
        }
        j = j + 1;
    }
    let piece = s.substring_char(start, n);
    proof {
        let tail = s@.skip(start as int);
        lemma_split_on_whole(tail, sep);
        assert(tail =~= s@.subrange(start as int, n as int));
        assert(parts.deep_view().push(piece@) =~= parts.deep_view() + seq![piece@]);
    }
    parts.push(piece);
    parts
}

/// The length of the maximal non-blank prefix of `s`.
pub open spec fn token_len(s: Seq<char>) -> int
    decreases s.len(),
{
    if s.len() == 0 || is_space(s[0]) {
        0
    } else {
        1 + token_len(s.drop_first())
    }
}

proof fn lemma_token_len_at(s: Seq<char>, m: int)
    requires
        0 <= m <= s.len(),
        forall|k: int| 0 <= k < m ==> !is_space(s[k]),
        m == s.len() || is_space(s[m]),
    ensures
        token_len(s) == m,
    decreases m,
{
    if m > 0 {
        lemma_token_len_at(s.drop_first(), m - 1);
    }
}

/// The blank-delimited tokens of `s`, in order, with no empty tokens.
pub open spec fn split_ws(s: Seq<char>) -> Seq<Seq<char>>
    decreases s.len(),
{
    if s.len() == 0 {
        Seq::empty()
    } else if is_space(s[0]) {
        split_ws(s.drop_first())
    } else {
        let k = token_len(s);
        if 1 <= k <= s.len() {
            seq![s.take(k)] + split_ws(s.skip(k))
        } else {
            Seq::empty()
        }
    }
}

/// Splits `s` into its blank-delimited tokens.
pub fn split_whitespace_str<'a>(s: &'a str) -> (r: Vec<&'a str>)
    ensures
        r.deep_view() == split_ws(s@),
{
    let n = s.unicode_len();
    let mut tokens: Vec<&'a str> = Vec::new();
    let mut i: usize = 0;
    proof {
        assert(s@.skip(0) =~= s@);
        assert(tokens.deep_view() + split_ws(s@) =~= split_ws(s@));
    }
    while i < n
        invariant
            n == s@.len(),
            i <= n,
            split_ws(s@) == tokens.deep_view() + split_ws(s@.skip(i as int)),
        decreases n - i,
    {
        if is_space_char(s.get_char(i)) {
            proof {
                assert(s@.skip(i as int).drop_first() =~= s@.skip(i + 1));
            }
            i = i + 1;
        } else {
            let start = i;
            let mut j = i + 1;
            while j < n && !is_space_char(s.get_char(j))
                invariant
                    n == s@.len(),
                    start < j <= n,
                    forall|k: int| start <= k < j ==> !is_space(s@[k]),
                decreases n - j,
            {
                j = j + 1;
            }
            let piece = s.substring_char(start, j);
            proof {
                let tail = s@.skip(start as int);
                lemma_token_len_at(tail, j - start);
                assert(tail.take(j - start) =~= s@.subrange(start as int, j as int));
                assert(tail.skip(j - start) =~= s@.skip(j as int));
                assert(tokens.deep_view().push(piece@) =~= tokens.deep_view() + seq![piece@]);
            }
            tokens.push(piece);
            i = j;
        }
    }
    proof {
        assert(s@.skip(n as int) =~= Seq::<char>::empty());
        assert(tokens.deep_view() + Seq::<Seq<char>>::empty() =~= tokens.deep_view());
    }
    tokens
}

/// `s` with one optional leading `0x` removed.
pub open spec fn strip_0x(s: Seq<char>) -> Seq<char> {
    if s.len() >= 2 && s[0] == '0' && s[1] == 'x' {
        s.skip(2)
    } else {
        s
    }
}

/// Removes one optional leading `0x` from `s`.
pub fn strip_0x_str(s: &str) -> (r: &str)
    ensures
        r@ == strip_0x(s@),
{
    let n = s.unicode_len();
    if n >= 2 && s.get_char(0) == '0' && s.get_char(1) == 'x' {
        proof {
            assert(s@.subrange(2, n as int) =~= s@.skip(2));
        }
        s.substring_char(2, n)
    } else {
        s
    }
}

/// `s` with one optional leading `(` and one optional trailing `)` removed.
pub open spec fn strip_parens(s: Seq<char>) -> Seq<char> {
    let a = if s.len() > 0 && s[0] == '(' {
        s.drop_first()
    } else {
        s
    };
    if a.len() > 0 && a[a.len() - 1] == ')' {
        a.drop_last()
    } else {
        a
    }
}

/// Removes one optional outer layer of parentheses from `s`.
pub fn strip_parens_str(s: &str) -> (r: &str)
    ensures
        r@ == strip_parens(s@),
{
    let n = s.unicode_len();
    let lo: usize = if n > 0 && s.get_char(0) == '(' {
        1
    } else {
        0
    };
    let hi: usize = if n > lo && s.get_char(n - 1) == ')' {
        n - 1
    } else {
        n
    };
    proof {
        let a = if s@.len() > 0 && s@[0] == '(' {
            s@.drop_first()
        } else {
            s@
        };
        assert(a =~= s@.subrange(lo as int, n as int));
        if a.len() > 0 && a[a.len() - 1] == ')' {
            assert(a.drop_last() =~= s@.subrange(lo as int, hi as int));
        } else {
            assert(a =~= s@.subrange(lo as int, hi as int));
        }
    }
    s.substring_char(lo, hi)
}

/// The numeric value of a hexadecimal digit, upper or lower case.
pub open spec fn hex_digit_val(c: char) -> Option<u64> {
    let v = c as u32;
    if 48 <= v && v <= 57 {
        Some((v - 48) as u64)
    } else if 97 <= v && v <= 102 {
        Some((v - 87) as u64)
    } else if 65 <= v && v <= 70 {
        Some((v - 55) as u64)
    } else {
        None
    }
}

fn hex_digit(c: char) -> (r: Option<u64>)
    ensures
        r == hex_digit_val(c),
{
    let v = c as u32;
    if 48 <= v && v <= 57 {
        Some((v - 48) as u64)
    } else if 97 <= v && v <= 102 {
        Some((v - 87) as u64)
    } else if 65 <= v && v <= 70 {
        Some((v - 55) as u64)
    } else {
        None
    }
}

/// The value of the hexadecimal digits `s` appended to an accumulated value
/// `acc`, or `None` on a non-digit or once the value would exceed `max`.
pub open spec fn hex_rec(s: Seq<char>, acc: u64, max: u64) -> Option<u64>
    decreases s.len(),
{
    if s.len() == 0 {
        Some(acc)
    } else {
        match hex_digit_val(s[0]) {
            None => None,
            Some(d) => if 16 * (acc as int) + (d as int) <= max as int {
                hex_rec(s.drop_first(), (16 * (acc as int) + d as int) as u64, max)
            } else {
                None
            },
        }
    }
}

/// The value of `s` read as an unsigned hexadecimal numeral of at most
/// `max`, or `None` when `s` is empty, holds a non-digit, or exceeds `max`.
pub open spec fn parse_hex(s: Seq<char>, max: u64) -> Option<u64> {
    if s.len() == 0 {
        None
    } else {
        hex_rec(s, 0, max)
    }
}

/// A text that reads as a hexadecimal numeral consists of hexadecimal
/// digits alone.
pub proof fn lemma_parse_hex_digits(s: Seq<char>, max: u64)
    requires
        parse_hex(s, max) is Some,
    ensures
        forall|i: int| 0 <= i < s.len() ==> hex_digit_val(s[i]) is Some,
{
    lemma_hex_rec_digits(s, 0, max);
}

proof fn lemma_hex_rec_digits(s: Seq<char>, acc: u64, max: u64)
    requires
        hex_rec(s, acc, max) is Some,
    ensures
        forall|i: int| 0 <= i < s.len() ==> hex_digit_val(s[i]) is Some,
    decreases s.len(),
{
    if s.len() > 0 {
        let d = hex_digit_val(s[0])->Some_0;
        lemma_hex_rec_digits(s.drop_first(), (16 * (acc as int) + d as int) as u64, max);
        assert forall|i: int| 0 <= i < s.len() implies hex_digit_val(s[i]) is Some by {
            if i > 0 {
                assert(s.drop_first()[i - 1] == s[i]);
            }
        }
    }
}

/// A hexadecimal digit is not a blank, a comma or a parenthesis.
pub proof fn lemma_hex_digit_benign(c: char)
    requires
        hex_digit_val(c) is Some,
    ensures
        !is_space(c),
        c != ',',
        c != '(',
        c != ')',
{
}

/// A text with no blank at either end is already trimmed.
pub proof fn lemma_trim_identity(s: Seq<char>)
    requires
        s.len() == 0 || (!is_space(s[0]) && !is_space(s[s.len() - 1])),
    ensures
        trim(s) == s,
{
}

/// Reads `s` as an unsigned hexadecimal numeral of at most `max`.
pub fn parse_hex_str(s: &str, max: u64) -> (r: Option<u64>)
    ensures
        r == parse_hex(s@, max),
{
    let n = s.unicode_len();
    if n == 0 {
        return None;
    }
    let mut acc: u64 = 0;
    let mut i: usize = 0;
    proof {
        assert(s@.skip(0) =~= s@);
    }
    while i < n
        invariant
            n == s@.len(),
            i <= n,
            hex_rec(s@, 0, max) == hex_rec(s@.skip(i as int), acc, max),
        decreases n - i,
    {
        proof {
            assert(s@.skip(i as int)[0] == s@[i as int]);
            assert(s@.skip(i as int).drop_first() =~= s@.skip(i + 1));
        }
        match hex_digit(s.get_char(i)) {
            None => {
                return None;
            },
            Some(d) => {
                let wide: u128 = 16 * (acc as u128) + (d as u128);
                if wide <= max as u128 {
                    acc = wide as u64;
                } else {
                    return None;
                }
            },
        }
        i = i + 1;
    }
    proof {
        assert(s@.skip(n as int) =~= Seq::<char>::empty());
    }
    Some(acc)
}

/// Whether `s` equals the text `lit`.
pub fn eq_str(s: &str, lit: &str) -> (r: bool)
    ensures
        r == (s@ == lit@),
{
    let n = s.unicode_len();
    if n != lit.unicode_len() {
        proof {
            if s@ == lit@ {
                assert(s@.len() == lit@.len());
            }
        }
        return false;
    }
    let mut i: usize = 0;
    while i < n
        invariant
            n == s@.len() == lit@.len(),
            i <= n,
            forall|k: int| 0 <= k < i ==> s@[k] == lit@[k],
        decreases n - i,
    {
        if s.get_char(i) != lit.get_char(i) {
            return false;
        }
        i = i + 1;
    }
    proof {
        assert(s@ =~= lit@);
    }
    true
}

} // verus!
