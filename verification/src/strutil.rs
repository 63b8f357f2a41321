//! Small verified helpers on strings and characters: case folding,
//! substring search, lexicographic order, decimal parsing and rendering,
//! and whitespace trimming.

use vstd::prelude::*;

verus! {

/// Relies on alloc's `String::push`: appends one character at the end.
pub assume_specification[ String::push ](s: &mut String, c: char)
    ensures
        final(s)@ == old(s)@.push(c),
;

/// Relies on alloc's `String::pop`: removes and returns the last character,
/// or returns `None` on an empty string.
pub assume_specification[ String::pop ](s: &mut String) -> (r: Option<char>)
    ensures
        old(s)@.len() == 0 ==> r is None && final(s)@ == old(s)@,
        old(s)@.len() > 0 ==> r == Some(old(s)@.last()) && final(s)@ == old(s)@.drop_last(),
;

/// Relies on alloc's `String::clear`: leaves the string empty.
pub assume_specification[ String::clear ](s: &mut String)
    ensures
        final(s)@ == Seq::<char>::empty(),
;

/// The lower-case form of an ASCII letter; any other character is unchanged.
pub open spec fn lower_char(c: char) -> char {
    if 'A' <= c && c <= 'Z' {
        ((c as u8) + 32) as char
    } else {
        c
    }
}

/// A sequence of characters folded to ASCII lower case.
pub open spec fn lower_seq(s: Seq<char>) -> Seq<char> {
    s.map_values(|c: char| lower_char(c))
}

pub fn to_lower_char(c: char) -> (r: char)
    ensures
        r == lower_char(c),
{
    if 'A' <= c && c <= 'Z' {
        ((c as u8) + 32) as char
    } else {
        c
    }
}

/// The characters of a string slice, as a vector.
pub fn chars_of(s: &str) -> (r: Vec<char>)
    ensures
        r@ == s@,
{
    let n: usize = s.unicode_len();
    let mut out: Vec<char> = Vec::new();
    let mut i: usize = 0;
    while i < n
        invariant
            i <= n,
            n == s@.len(),
            out@ == s@.take(i as int),
        decreases n - i,
    {
        let c = s.get_char(i);
        out.push(c);
        proof {
            assert(out@ =~= s@.take(i + 1));
        }
        i = i + 1;
    }
    proof {
        assert(s@.take(n as int) =~= s@);
    }
    out
}

/// The characters of a string slice, folded to ASCII lower case.
pub fn lower_chars_of(s: &str) -> (r: Vec<char>)
    ensures
        r@ == lower_seq(s@),
{
    let n: usize = s.unicode_len();
    let mut out: Vec<char> = Vec::new();
    let mut i: usize = 0;
    while i < n
        invariant
            i <= n,
            n == s@.len(),
            out@ == lower_seq(s@.take(i as int)),
        decreases n - i,
    {
        let c = s.get_char(i);
        out.push(to_lower_char(c));
        proof {
            assert(out@ =~= lower_seq(s@.take(i + 1)));
        }
        i = i + 1;
    }
    proof {
        assert(s@.take(n as int) =~= s@);
    }
    out
}

/// `needle` occurs in `hay` starting at position `i`.
pub open spec fn is_substring_at(hay: Seq<char>, needle: Seq<char>, i: int) -> bool {
    0 <= i && i + needle.len() <= hay.len() && hay.subrange(i, i + needle.len() as int)
        == needle
}

/// `needle` occurs somewhere in `hay`.
pub open spec fn is_substring(hay: Seq<char>, needle: Seq<char>) -> bool {
    exists|i: int| is_substring_at(hay, needle, i)
}

/// `needle` occurs in `hay` when both are compared ASCII-case-insensitively.
pub open spec fn contains_ci(hay: Seq<char>, needle: Seq<char>) -> bool {
    is_substring(lower_seq(hay), lower_seq(needle))
}

fn match_at(hay: &Vec<char>, needle: &Vec<char>, i: usize) -> (r: bool)
    requires
        i + needle@.len() <= hay@.len(),
    ensures
        r == is_substring_at(hay@, needle@, i as int),
{
    let n: usize = needle.len();
    let hn: usize = hay.len();
    let mut j: usize = 0;
    while j < n
        invariant
            j <= n,
            n == needle@.len(),
            hn == hay@.len(),
            i + n <= hn,
            forall|k: int| 0 <= k < j ==> hay@[i + k] == needle@[k],
        decreases n - j,
    {
        if hay[i + j] != needle[j] {
            proof {
                assert(hay@.subrange(i as int, i + n) != needle@) by {
                    assert(hay@.subrange(i as int, i + n)[j as int] == hay@[i + j]);
                }
            }
            return false;
        }
        j = j + 1;
    }
    proof {
        assert(hay@.subrange(i as int, i + n) =~= needle@);
    }
    true
}

/// Naive substring search over character vectors.
pub fn contains_seq(hay: &Vec<char>, needle: &Vec<char>) -> (r: bool)
    ensures
        r == is_substring(hay@, needle@),
{
    if needle.len() > hay.len() {
        proof {
            assert forall|i: int| !is_substring_at(hay@, needle@, i) by {}
        }
        return false;
    }
    let last: usize = hay.len() - needle.len();
    let mut i: usize = 0;
    loop
        invariant
            i <= last,
            last == hay@.len() - needle@.len(),
            needle@.len() <= hay@.len(),
            forall|k: int| 0 <= k < i ==> !is_substring_at(hay@, needle@, k),
        ensures
            forall|k: int| 0 <= k <= last ==> !is_substring_at(hay@, needle@, k),
        decreases last - i,
    {
        if match_at(hay, needle, i) {
            return true;
        }
        if i == last {
            break;
        }
        i = i + 1;
    }
    proof {
        assert forall|k: int| !is_substring_at(hay@, needle@, k) by {
            if k > last {
                assert(k + needle@.len() > hay@.len());
            }
        }
    }
    false
}

/// ASCII-case-insensitive substring test on string slices.
pub fn contains_ci_str(hay: &str, needle: &str) -> (r: bool)
    ensures
        r == contains_ci(hay@, needle@),
{
    let h = lower_chars_of(hay);
    let n = lower_chars_of(needle);
    contains_seq(&h, &n)
}

/// Character-for-character equality of two string slices.
pub fn str_eq(a: &str, b: &str) -> (r: bool)
    ensures
        r == (a@ == b@),
{
    let an: usize = a.unicode_len();
    let bn: usize = b.unicode_len();
    if an != bn {
        return false;
    }
    let mut i: usize = 0;
    while i < an
        invariant
            i <= an,
            an == a@.len(),
            an == b@.len(),
            forall|k: int| 0 <= k < i ==> a@[k] == b@[k],
        decreases an - i,
    {
        if a.get_char(i) != b.get_char(i) {
            return false;
        }
        i = i + 1;
    }
    proof {
        assert(a@ =~= b@);
    }
    true
}

/// Strict lexicographic order on character sequences, by code point.
pub open spec fn lex_lt(a: Seq<char>, b: Seq<char>) -> bool
    decreases a.len(),
{
    if b.len() == 0 {
        false
    } else if a.len() == 0 {
        true
    } else if a[0] != b[0] {
        a[0] < b[0]
    } else {
        lex_lt(a.skip(1), b.skip(1))
    }
}

pub proof fn lemma_lex_lt_trans(a: Seq<char>, b: Seq<char>, c: Seq<char>)
    requires
        lex_lt(a, b),
        lex_lt(b, c),
    ensures
        lex_lt(a, c),
    decreases a.len(),
{
    if c.len() == 0 {
        assert(false);
    } else if a.len() == 0 {
    } else {
        if b.len() == 0 {
            assert(false);
        } else {
            if a[0] != b[0] {
                if b[0] != c[0] {
                } else {
                }
            } else {
                if b[0] != c[0] {
                } else {
                    lemma_lex_lt_trans(a.skip(1), b.skip(1), c.skip(1));
                }
            }
        }
    }
}

pub proof fn lemma_lex_lt_irrefl(a: Seq<char>)
    ensures
        !lex_lt(a, a),
    decreases a.len(),
{
    if a.len() > 0 {
        lemma_lex_lt_irrefl(a.skip(1));
    }
}

proof fn lemma_lex_lt_skip(a: Seq<char>, b: Seq<char>, i: int)
    requires
        0 <= i <= a.len(),
        i <= b.len(),
        forall|k: int| 0 <= k < i ==> a[k] == b[k],
    ensures
        lex_lt(a, b) == lex_lt(a.skip(i), b.skip(i)),
    decreases i,
{
    if i > 0 {
        assert(a[0] == b[0]);
        assert(a.len() > 0 && b.len() > 0);
        assert forall|k: int| 0 <= k < i - 1 implies a.skip(1)[k] == b.skip(1)[k] by {
            assert(a[k + 1] == b[k + 1]);
        }
        lemma_lex_lt_skip(a.skip(1), b.skip(1), i - 1);
        assert(a.skip(1).skip(i - 1) =~= a.skip(i));
        assert(b.skip(1).skip(i - 1) =~= b.skip(i));
        assert(lex_lt(a, b) == lex_lt(a.skip(1), b.skip(1)));
    } else {
        assert(a.skip(0) =~= a);
        assert(b.skip(0) =~= b);
    }
}

/// Lexicographic comparison of string slices, by code point.
pub fn str_lt(a: &str, b: &str) -> (r: bool)
    ensures
        r == lex_lt(a@, b@),
{
    let an: usize = a.unicode_len();
    let bn: usize = b.unicode_len();
    let mut i: usize = 0;
    while i < an && i < bn
        invariant
            i <= an,
            i <= bn,
            an == a@.len(),
            bn == b@.len(),
            forall|k: int| 0 <= k < i ==> a@[k] == b@[k],
        decreases an - i,
    {
        let ca = a.get_char(i);
        let cb = b.get_char(i);
        if ca != cb {
            proof {
                lemma_lex_lt_skip(a@, b@, i as int);
                assert(a@.skip(i as int)[0] == ca);
                assert(b@.skip(i as int)[0] == cb);
            }
            return ca < cb;
        }
        i = i + 1;
    }
    proof {
        lemma_lex_lt_skip(a@, b@, i as int);
    }
    an < bn
}

/// The decimal digit character for a value in `0..10`.
pub open spec fn dec_digit_char(d: int) -> char {
    ((48 + d) as u8) as char
}

/// The decimal representation of a natural number, most significant digit
/// first, with no leading zeros (a single `'0'` for zero).
pub open spec fn dec_rep(n: nat) -> Seq<char>
    decreases n,
{
    if n < 10 {
        seq![dec_digit_char(n as int)]
    } else {
        dec_rep(n / 10).push(dec_digit_char((n % 10) as int))
    }
}

/// Appends the decimal representation of `n` to `out`.
pub fn push_dec_u64(n: u64, out: &mut String)
    ensures
        final(out)@ == old(out)@ + dec_rep(n as nat),
    decreases n,
{
    if n < 10 {
        let c: char = ((48 + (n as u8)) as u8) as char;
        out.push(c);
        proof {
            assert(old(out)@.push(c) =~= old(out)@ + dec_rep(n as nat));
        }
    } else {
        push_dec_u64(n / 10, out);
        let d: u8 = (n % 10) as u8;
        let c: char = (48 + d) as char;
        out.push(c);
        proof {
            assert((old(out)@ + dec_rep((n / 10) as nat)).push(c) =~= old(out)@ + dec_rep(
                n as nat,
            ));
        }
    }
}

/// The decimal representation of `n`, as a fresh string.
pub fn dec_string_u64(n: u64) -> (r: String)
    ensures
        r@ == dec_rep(n as nat),
{
    let mut out = String::new();
    push_dec_u64(n, &mut out);
    proof {
        assert(Seq::<char>::empty() + dec_rep(n as nat) =~= dec_rep(n as nat));
    }
    out
}

/// Every character of `s` is a decimal digit, and there is at least one.
pub open spec fn is_dec_digits(s: Seq<char>) -> bool {
    s.len() > 0 && forall|i: int| 0 <= i < s.len() ==> '0' <= #[trigger] s[i] && s[i] <= '9'
}

/// The numeric value of a sequence of decimal digits.
pub open spec fn dec_value(s: Seq<char>) -> int
    decreases s.len(),
{
    if s.len() == 0 {
        0
    } else {
        dec_value(s.drop_last()) * 10 + (s.last() as int - 48)
    }
}

proof fn lemma_dec_value_nonneg(s: Seq<char>)
    requires
        forall|i: int| 0 <= i < s.len() ==> '0' <= #[trigger] s[i] && s[i] <= '9',
    ensures
        dec_value(s) >= 0,
    decreases s.len(),
{
    if s.len() > 0 {
        lemma_dec_value_nonneg(s.drop_last());
        assert(dec_value(s.drop_last()) * 10 >= 0) by (nonlinear_arith)
            requires
                dec_value(s.drop_last()) >= 0,
        ;
    }
}

proof fn lemma_dec_value_grows(s: Seq<char>, i: int)
    requires
        forall|k: int| 0 <= k < s.len() ==> '0' <= #[trigger] s[k] && s[k] <= '9',
        0 <= i <= s.len(),
    ensures
        dec_value(s) >= dec_value(s.take(i)),
    decreases s.len() - i,
{
    if i < s.len() {
        lemma_dec_value_grows(s, i + 1);
        let p = s.take(i);
        let q = s.take(i + 1);
        assert(q.drop_last() =~= p);
        assert(q.last() == s[i]);
        lemma_dec_value_nonneg(p);
        assert(dec_value(p) * 10 >= dec_value(p)) by (nonlinear_arith)
            requires
                dec_value(p) >= 0,
        ;
        assert(dec_value(q) >= dec_value(p));
    } else {
        assert(s.take(i) =~= s);
    }
}

/// Parses a string of decimal digits into a non-negative 64-bit integer.
///
/// Returns `Some` exactly when the string is non-empty, every character is a
/// decimal digit, and the value fits; mirrors how the standard integer parse
/// behaves on digit-only input.
pub fn parse_u63(s: &str) -> (r: Option<i64>)
    ensures
        r is Some <==> is_dec_digits(s@) && dec_value(s@) <= i64::MAX,
        r matches Some(v) ==> v == dec_value(s@) && v >= 0,
{
    let n: usize = s.unicode_len();
    if n == 0 {
        return None;
    }
    let mut acc: i64 = 0;
    let mut i: usize = 0;
    while i < n
        invariant
            i <= n,
            n == s@.len(),
            n > 0,
            forall|k: int| 0 <= k < i ==> '0' <= #[trigger] s@[k] && s@[k] <= '9',
            acc == dec_value(s@.take(i as int)),
            0 <= acc <= i64::MAX,
        decreases n - i,
    {
        let c = s.get_char(i);
        if !('0' <= c && c <= '9') {
            return None;
        }
        let d: i64 = ((c as u8) - 48) as i64;
        if acc > (i64::MAX - d) / 10 {
            proof {
                let p = s@.take(i as int);
                let q = s@.take(i + 1);
                assert(q.drop_last() =~= p);
                assert(q.last() == s@[i as int]);
                assert(acc * 10 + d > i64::MAX) by (nonlinear_arith)
                    requires
                        acc > (i64::MAX - d) / 10,
                        0 <= d <= 9,
                        acc >= 0,
                ;
                assert(dec_value(q) > i64::MAX);
                if is_dec_digits(s@) {
                    lemma_dec_value_grows(s@, i + 1);
                }
            }
            return None;
        }
        proof {
            let p = s@.take(i as int);
            let q = s@.take(i + 1);
            assert(q.drop_last() =~= p);
            assert(q.last() == s@[i as int]);
            assert(acc * 10 + d <= i64::MAX) by (nonlinear_arith)
                requires
                    acc <= (i64::MAX - d) / 10,
                    0 <= d <= 9,
                    acc >= 0,
            ;
            assert(acc * 10 >= 0) by (nonlinear_arith)
                requires
                    acc >= 0,
            ;
        }
        acc = acc * 10 + d;
        i = i + 1;
    }
    proof {
        assert(s@.take(n as int) =~= s@);
    }
    Some(acc)
}

/// An ASCII whitespace character.
pub open spec fn is_space(c: char) -> bool {
    c == ' ' || c == '\t' || c == '\n' || c == '\r'
}

/// `s` with leading ASCII whitespace removed.
pub open spec fn trim_front(s: Seq<char>) -> Seq<char>
    decreases s.len(),
{
    if s.len() > 0 && is_space(s[0]) {
        trim_front(s.skip(1))
    } else {
        s
    }
}

/// `s` with trailing ASCII whitespace removed.
pub open spec fn trim_back(s: Seq<char>) -> Seq<char>
    decreases s.len(),
{
    if s.len() > 0 && is_space(s.last()) {
        trim_back(s.drop_last())
    } else {
        s
    }
}

/// `s` with leading and trailing ASCII whitespace removed.
pub open spec fn trim_seq(s: Seq<char>) -> Seq<char> {
    trim_back(trim_front(s))
}

proof fn lemma_trim_front_skip(s: Seq<char>, i: int)
    requires
        0 <= i <= s.len(),
        forall|k: int| 0 <= k < i ==> is_space(#[trigger] s[k]),
        i == s.len() || !is_space(s[i]),
    ensures
        trim_front(s) == s.skip(i),
    decreases i,
{
    if i == 0 {
        assert(s.skip(0) =~= s);
    } else {
        assert(is_space(s[0]));
        lemma_trim_front_skip(s.skip(1), i - 1);
        assert(s.skip(1).skip(i - 1) =~= s.skip(i));
    }
}

proof fn lemma_trim_back_take(s: Seq<char>, i: int)
    requires
        0 <= i <= s.len(),
        forall|k: int| i <= k < s.len() ==> is_space(#[trigger] s[k]),
        i == 0 || !is_space(s[i - 1]),
    ensures
        trim_back(s) == s.take(i),
    decreases s.len() - i,
{
    if i == s.len() {
        assert(s.take(i) =~= s);
    } else {
        assert(is_space(s.last()));
        lemma_trim_back_take(s.drop_last(), i);
        assert(s.drop_last() =~= s.take(s.len() - 1));
        assert(s.take(s.len() - 1).take(i) =~= s.take(i));
    }
}

/// The characters of `s` with leading and trailing ASCII whitespace removed.
pub fn trim_chars(s: &Vec<char>) -> (r: Vec<char>)
    ensures
        r@ == trim_seq(s@),
{
    let n: usize = s.len();
    let mut a: usize = 0;
    while a < n && is_space_char(s[a])
        invariant
            a <= n,
            n == s@.len(),
            forall|k: int| 0 <= k < a ==> is_space(#[trigger] s@[k]),
        decreases n - a,
    {
        a = a + 1;
    }
    proof {
        lemma_trim_front_skip(s@, a as int);
    }
    let mut b: usize = n;
    while b > a && is_space_char(s[b - 1])
        invariant
            a <= b <= n,
            n == s@.len(),
            forall|k: int| b <= k < n ==> is_space(#[trigger] s@[k]),
        decreases b,
    {
        b = b - 1;
    }
    let mut out: Vec<char> = Vec::new();
    let mut i: usize = a;
    while i < b
        invariant
            a <= i <= b <= n,
            n == s@.len(),
            out@ == s@.subrange(a as int, i as int),
        decreases b - i,
    {
        out.push(s[i]);
        proof {
            assert(out@ =~= s@.subrange(a as int, i + 1));
        }
        i = i + 1;
    }
    proof {
        let f = s@.skip(a as int);
        if b == a {
            lemma_trim_back_take(f, 0);
        } else {
            assert(!is_space(f[b - a - 1]));
            lemma_trim_back_take(f, b - a);
        }
        assert(f.take(b - a) =~= s@.subrange(a as int, b as int));
    }
    out
}

fn is_space_char(c: char) -> (r: bool)
    ensures
        r == is_space(c),
{
    c == ' ' || c == '\t' || c == '\n' || c == '\r'
}

} // verus!
