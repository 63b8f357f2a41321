//! Verified hexadecimal encoding, and the lenient pairwise decoding used
//! when a binary attribute is edited as text: digit pairs are read left to
//! right, a malformed pair is dropped, and a trailing unpaired digit is
//! dropped.

use vstd::prelude::*;

verus! {

/// A hexadecimal digit, upper or lower case.
pub open spec fn is_hex_digit(c: char) -> bool {
    ('0' <= c && c <= '9') || ('a' <= c && c <= 'f') || ('A' <= c && c <= 'F')
}

/// The value of a hexadecimal digit.
pub open spec fn hex_val(c: char) -> int {
    if '0' <= c && c <= '9' {
        c as int - 48
    } else if 'a' <= c && c <= 'f' {
        c as int - 87
    } else {
        c as int - 55
    }
}

/// The lower-case hexadecimal digit for a value in `0..16`.
pub open spec fn hex_digit_char(d: int) -> char {
    if d < 10 {
        ((48 + d) as u8) as char
    } else {
        ((87 + d) as u8) as char
    }
}

/// The two lower-case digits of one byte, high digit first.
pub open spec fn hex_pair(b: u8) -> Seq<char> {
    seq![hex_digit_char(b as int / 16), hex_digit_char(b as int % 16)]
}

/// The lower-case hexadecimal rendering of a byte sequence.
pub open spec fn hex_encode(bs: Seq<u8>) -> Seq<char>
    decreases bs.len(),
{
    if bs.len() == 0 {
        Seq::<char>::empty()
    } else {
        hex_pair(bs[0]) + hex_encode(bs.skip(1))
    }
}

/// The bytes read from `s` two digits at a time: a pair with a non-digit is
/// dropped, and so is a trailing unpaired character.
pub open spec fn hex_decode_lenient(s: Seq<char>) -> Seq<u8>
    decreases s.len(),
{
    if s.len() < 2 {
        Seq::<u8>::empty()
    } else if is_hex_digit(s[0]) && is_hex_digit(s[1]) {
        seq![(hex_val(s[0]) * 16 + hex_val(s[1])) as u8] + hex_decode_lenient(s.skip(2))
    } else {
        hex_decode_lenient(s.skip(2))
    }
}

proof fn lemma_hex_encode_push(bs: Seq<u8>, b: u8)
    ensures
        hex_encode(bs.push(b)) == hex_encode(bs) + hex_pair(b),
    decreases bs.len(),
{
    if bs.len() == 0 {
        assert(bs.push(b)[0] == b);
        assert(bs.push(b).skip(1) =~= Seq::<u8>::empty());
        assert(hex_encode(bs.push(b)) == hex_pair(b) + hex_encode(Seq::<u8>::empty()));
        assert(hex_encode(Seq::<u8>::empty()) == Seq::<char>::empty());
        assert(hex_pair(b) + Seq::<char>::empty() =~= Seq::<char>::empty() + hex_pair(b));
    } else {
        assert(bs.push(b)[0] == bs[0]);
        assert(bs.push(b).skip(1) =~= bs.skip(1).push(b));
        lemma_hex_encode_push(bs.skip(1), b);
        assert(hex_encode(bs.push(b)) == hex_pair(bs[0]) + (hex_encode(bs.skip(1)) + hex_pair(
            b,
        )));
        assert(hex_pair(bs[0]) + (hex_encode(bs.skip(1)) + hex_pair(b)) =~= (hex_pair(bs[0])
            + hex_encode(bs.skip(1))) + hex_pair(b));
    }
}

fn hex_digit_of(d: u8) -> (c: char)
    requires
        d < 16,
    ensures
        c == hex_digit_char(d as int),
{
    if d < 10 {
        (48 + d) as char
    } else {
        (87 + d) as char
    }
}

/// Appends the hexadecimal rendering of `bs` to `out`.
pub fn push_hex(bs: &Vec<u8>, out: &mut String)
    ensures
        final(out)@ == old(out)@ + hex_encode(bs@),
{
    let n: usize = bs.len();
    let mut i: usize = 0;
    proof {
        assert(out@ =~= old(out)@ + hex_encode(bs@.take(0)));
    }
    while i < n
        invariant
            i <= n,
            n == bs@.len(),
            out@ == old(out)@ + hex_encode(bs@.take(i as int)),
        decreases n - i,
    {
        let b = bs[i];
        out.push(hex_digit_of(b / 16));
        out.push(hex_digit_of(b % 16));
        proof {
            assert(bs@.take(i + 1) =~= bs@.take(i as int).push(b));
            lemma_hex_encode_push(bs@.take(i as int), b);
            assert(out@ =~= old(out)@ + hex_encode(bs@.take(i + 1)));
        }
        i = i + 1;
    }
    proof {
        assert(bs@.take(n as int) =~= bs@);
    }
}

/// The hexadecimal rendering of `bs`, as a fresh string.
pub fn hex_string(bs: &Vec<u8>) -> (r: String)
    ensures
        r@ == hex_encode(bs@),
{
    let mut out = String::new();
    push_hex(bs, &mut out);
    proof {
        assert(Seq::<char>::empty() + hex_encode(bs@) =~= hex_encode(bs@));
    }
    out
}

fn is_hex_digit_char(c: char) -> (r: bool)
    ensures
        r == is_hex_digit(c),
{
    ('0' <= c && c <= '9') || ('a' <= c && c <= 'f') || ('A' <= c && c <= 'F')
}

fn hex_val_of(c: char) -> (v: u8)
    requires
        is_hex_digit(c),
    ensures
        v == hex_val(c),
        v < 16,
{
    if '0' <= c && c <= '9' {
        (c as u8) - 48
    } else if 'a' <= c && c <= 'f' {
        (c as u8) - 87
    } else {
        (c as u8) - 55
    }
}

/// Decodes a character sequence as lenient hexadecimal digit pairs.
pub fn hex_decode_chars(s: &Vec<char>) -> (r: Vec<u8>)
    ensures
        r@ == hex_decode_lenient(s@),
{
    let n: usize = s.len();
    let mut out: Vec<u8> = Vec::new();
    let mut i: usize = 0;
    proof {
        assert(s@.skip(0) =~= s@);
        assert(out@ + hex_decode_lenient(s@) =~= hex_decode_lenient(s@));
    }
    while n - i >= 2
        invariant
            i <= n,
            n == s@.len(),
            hex_decode_lenient(s@) == out@ + hex_decode_lenient(s@.skip(i as int)),
        decreases n - i,
    {
        let hi = s[i];
        let lo = s[i + 1];
        proof {
            let t = s@.skip(i as int);
            assert(t.len() >= 2);
            assert(t[0] == s@[i as int]);
            assert(t[1] == s@[i + 1]);
            assert(t.skip(2) =~= s@.skip(i + 2));
        }
        if is_hex_digit_char(hi) && is_hex_digit_char(lo) {
            let b: u8 = hex_val_of(hi) * 16 + hex_val_of(lo);
            let ghost prev = out@;
            out.push(b);
            proof {
                assert(hex_decode_lenient(s@.skip(i as int)) =~= seq![b] + hex_decode_lenient(
                    s@.skip(i + 2),
                ));
                assert(out@ + hex_decode_lenient(s@.skip(i + 2)) =~= prev + hex_decode_lenient(
                    s@.skip(i as int),
                ));
            }
        }
        i = i + 2;
    }
    proof {
        assert(s@.skip(i as int).len() < 2);
        assert(out@ + hex_decode_lenient(s@.skip(i as int)) =~= out@);
    }
    out
}

/// Every byte survives a round trip through its hexadecimal rendering and
/// the lenient pairwise decoder.
pub proof fn lemma_hex_round_trip(bs: Seq<u8>)
    ensures
        hex_decode_lenient(hex_encode(bs)) == bs,
    decreases bs.len(),
{
    if bs.len() == 0 {
    } else {
        let b = bs[0];
        let e = hex_encode(bs);
        lemma_hex_digit_char(b as int / 16);
        lemma_hex_digit_char(b as int % 16);
        assert(e[0] == hex_digit_char(b as int / 16));
        assert(e[1] == hex_digit_char(b as int % 16));
        assert(e.skip(2) =~= hex_encode(bs.skip(1)));
        lemma_hex_round_trip(bs.skip(1));
        assert(hex_val(e[0]) * 16 + hex_val(e[1]) == b);
        assert(hex_decode_lenient(e) =~= bs);
    }
}

proof fn lemma_hex_digit_char(d: int)
    requires
        0 <= d < 16,
    ensures
        is_hex_digit(hex_digit_char(d)),
        hex_val(hex_digit_char(d)) == d,
{
}

} // verus!
