//! Character-level text helpers shared by the request handling code.

use vstd::prelude::*;
use vstd::string::*;
use vstd::utf8::*;

verus! {

/// Unicode `White_Space` property, the notion of whitespace used by `str::trim`.
pub open spec fn is_unicode_whitespace(c: char) -> bool {
    ||| ('\u{9}' <= c && c <= '\u{d}')
    ||| c == ' '
    ||| c == '\u{85}'
    ||| c == '\u{a0}'
    ||| c == '\u{1680}'
    ||| ('\u{2000}' <= c && c <= '\u{200a}')
    ||| c == '\u{2028}'
    ||| c == '\u{2029}'
    ||| c == '\u{202f}'
    ||| c == '\u{205f}'
    ||| c == '\u{3000}'
}

/// `s` without its leading whitespace.
pub open spec fn trim_start_spec(s: Seq<char>) -> Seq<char>
    decreases s.len(),
{
    if s.len() > 0 && is_unicode_whitespace(s[0]) {
        trim_start_spec(s.drop_first())
    } else {
        s
    }
}

/// `s` without its trailing whitespace.
pub open spec fn trim_end_spec(s: Seq<char>) -> Seq<char>
    decreases s.len(),
{
    if s.len() > 0 && is_unicode_whitespace(s.last()) {
        trim_end_spec(s.drop_last())
    } else {
        s
    }
}

/// `s` without leading and trailing whitespace, as `str::trim` returns it.
pub open spec fn trim_spec(s: Seq<char>) -> Seq<char> {
    trim_end_spec(trim_start_spec(s))
}

/// Whether `c` is Unicode whitespace.
pub fn is_whitespace(c: char) -> (r: bool)
    ensures
        r == is_unicode_whitespace(c),
{
    ('\u{9}' <= c && c <= '\u{d}') || c == ' ' || c == '\u{85}' || c == '\u{a0}' || c
        == '\u{1680}' || ('\u{2000}' <= c && c <= '\u{200a}') || c == '\u{2028}' || c
        == '\u{2029}' || c == '\u{202f}' || c == '\u{205f}' || c == '\u{3000}'
}

/// Returns `s` with leading and trailing Unicode whitespace removed.
pub fn trim(s: &str) -> (r: &str)
    ensures
        r@ == trim_spec(s@),
{
    let n = s.unicode_len();
    let mut i: usize = 0;
    assert(s@.subrange(0, n as int) =~= s@);
    while i < n && is_whitespace(s.get_char(i))
        invariant
            n == s@.len(),
            i <= n,
            trim_start_spec(s@) == trim_start_spec(s@.subrange(i as int, n as int)),
        decreases n - i,
    {
        assert(s@.subrange(i as int, n as int).drop_first() =~= s@.subrange(
            i + 1,
            n as int,
        ));
        i = i + 1;
    }
    assert(trim_start_spec(s@.subrange(i as int, n as int)) == s@.subrange(i as int, n as int));
    let mut j: usize = n;
    while j > i && is_whitespace(s.get_char(j - 1))
        invariant
            n == s@.len(),
            i <= j <= n,
            trim_spec(s@) == trim_end_spec(s@.subrange(i as int, j as int)),
        decreases j - i,
    {
        assert(s@.subrange(i as int, j as int).drop_last() =~= s@.subrange(
            i as int,
            j - 1,
        ));
        j = j - 1;
    }
    assert(trim_end_spec(s@.subrange(i as int, j as int)) == s@.subrange(i as int, j as int));
    s.substring_char(i, j)
}

/// `char::from_u32` yields the character with the given scalar value, and
/// `None` for surrogates and values above `0x10FFFF`, as its documentation states.
pub assume_specification[ <char>::from_u32 ](i: u32) -> (r: Option<char>)
    ensures
        r == (if is_scalar(i) {
            Some(i as char)
        } else {
            None
        }),
;

/// Decodes the character whose UTF-8 encoding starts at `bytes[i]`, with the
/// number of bytes it takes; `None` when no well-formed scalar starts there.
pub fn decode_first_char(bytes: &[u8], i: usize) -> (r: Option<(char, usize)>)
    requires
        i < bytes@.len(),
    ensures
        ({
            let s = bytes@.subrange(i as int, bytes@.len() as int);
            &&& r is Some <==> valid_first_scalar(s)
            &&& r matches Some((c, l)) ==> c == decode_first_scalar(s) as char && l
                == length_of_first_scalar(s)
        }),
{
    let ghost s = bytes@.subrange(i as int, bytes@.len() as int);
    let n = bytes.len();
    let b0 = bytes[i];
    assert(s[0] == b0);
    if b0 <= 0x7f {
        let cp: u32 = (b0 & 0x7f) as u32;
        assert(cp <= 0x7f) by (bit_vector)
            requires
                cp == (b0 & 0x7f) as u32,
        ;
        match char::from_u32(cp) {
            Some(c) => Some((c, 1)),
            None => None,
        }
    } else if 0xc0 <= b0 && b0 <= 0xdf {
        if n - i < 2 {
            return None;
        }
        let b1 = bytes[i + 1];
        assert(s[1] == b1);
        if !(0x80 <= b1 && b1 <= 0xbf) {
            return None;
        }
        let cp: u32 = (((b0 & 0x1f) as u32) << 6) | ((b1 & 0x3f) as u32);
        assert(cp <= 0x7ff) by (bit_vector)
            requires
                cp == (((b0 & 0x1f) as u32) << 6) | ((b1 & 0x3f) as u32),
        ;
        if cp < 0x80 {
            return None;
        }
        match char::from_u32(cp) {
            Some(c) => Some((c, 2)),
            None => None,
        }
    } else if 0xe0 <= b0 && b0 <= 0xef {
        if n - i < 3 {
            return None;
        }
        let b1 = bytes[i + 1];
        let b2 = bytes[i + 2];
        assert(s[1] == b1 && s[2] == b2);
        if !(0x80 <= b1 && b1 <= 0xbf) || !(0x80 <= b2 && b2 <= 0xbf) {
            return None;
        }
        let cp: u32 = (((b0 & 0x0f) as u32) << 12) | (((b1 & 0x3f) as u32) << 6) | ((b2
            & 0x3f) as u32);
        assert(cp <= 0xffff) by (bit_vector)
            requires
                cp == (((b0 & 0x0f) as u32) << 12) | (((b1 & 0x3f) as u32) << 6) | ((b2
                    & 0x3f) as u32),
        ;
        if cp < 0x800 || (0xd800 <= cp && cp <= 0xdfff) {
            return None;
        }
        match char::from_u32(cp) {
            Some(c) => Some((c, 3)),
            None => None,
        }
    } else if 0xf0 <= b0 && b0 <= 0xf7 {
        if n - i < 4 {
            return None;
        }
        let b1 = bytes[i + 1];
        let b2 = bytes[i + 2];
        let b3 = bytes[i + 3];
        assert(s[1] == b1 && s[2] == b2 && s[3] == b3);
        if !(0x80 <= b1 && b1 <= 0xbf) || !(0x80 <= b2 && b2 <= 0xbf) || !(0x80 <= b3 && b3
            <= 0xbf) {
            return None;
        }
        let cp: u32 = (((b0 & 0x07) as u32) << 18) | (((b1 & 0x3f) as u32) << 12) | (((b2
            & 0x3f) as u32) << 6) | ((b3 & 0x3f) as u32);
        if cp < 0x10000 || cp > 0x10ffff {
            return None;
        }
        match char::from_u32(cp) {
            Some(c) => Some((c, 4)),
            None => None,
        }
    } else {
        None
    }
}

/// Decodes `bytes` as UTF-8, the way `str::from_utf8` accepts or rejects it.
pub fn decode_utf8_chars(bytes: &[u8]) -> (r: Option<Vec<char>>)
    ensures
        r is Some <==> valid_utf8(bytes@),
        r matches Some(v) ==> v@ == decode_utf8(bytes@),
{
    let n = bytes.len();
    let mut out: Vec<char> = Vec::new();
    let mut i: usize = 0;
    assert(bytes@.subrange(0, n as int) =~= bytes@);
    while i < n
        invariant
            i <= n,
            n == bytes@.len(),
            valid_utf8(bytes@) == valid_utf8(bytes@.subrange(i as int, n as int)),
            valid_utf8(bytes@) ==> decode_utf8(bytes@) == out@ + decode_utf8(
                bytes@.subrange(i as int, n as int),
            ),
        decreases n - i,
    {
        let ghost s = bytes@.subrange(i as int, n as int);
        match decode_first_char(bytes, i) {
            None => {
                return None;
            },
            Some((c, l)) => {
                assert(pop_first_scalar(s) =~= bytes@.subrange(i + l, n as int));
                out.push(c);
                i = i + l;
            },
        }
    }
    let ghost empty: Seq<u8> = seq![];
    assert(bytes@.subrange(n as int, n as int) =~= empty);
    Some(out)
}

/// Whether the characters `v[from..to]` spell exactly `s`.
pub fn chars_equal_str(v: &Vec<char>, from: usize, to: usize, s: &str) -> (r: bool)
    requires
        from <= to <= v@.len(),
    ensures
        r == (v@.subrange(from as int, to as int) == s@),
{
    let n = s.unicode_len();
    if to - from != n {
        return false;
    }
    let mut k: usize = 0;
    while k < n
        invariant
            from <= to <= v@.len(),
            to - from == n,
            n == s@.len(),
            k <= n,
            forall|m: int| 0 <= m < k ==> v@[from + m] == s@[m],
        decreases n - k,
    {
        if v[from + k] != s.get_char(k) {
            assert(v@.subrange(from as int, to as int)[k as int] != s@[k as int]);
            return false;
        }
        k = k + 1;
    }
    assert(v@.subrange(from as int, to as int) =~= s@);
    true
}

/// Whether two strings hold the same characters.
pub fn str_equal(a: &str, b: &str) -> (r: bool)
    ensures
        r == (a@ == b@),
{
    let x = a.as_bytes();
    let y = b.as_bytes();
    proof {
        encode_utf8_decode_utf8(a@);
        encode_utf8_decode_utf8(b@);
    }
    if x.len() != y.len() {
        return false;
    }
    let n = x.len();
    let mut k: usize = 0;
    while k < n
        invariant
            n == x@.len(),
            n == y@.len(),
            x@ == encode_utf8(a@),
            y@ == encode_utf8(b@),
            k <= n,
            forall|m: int| 0 <= m < k ==> x@[m] == y@[m],
        decreases n - k,
    {
        if x[k] != y[k] {
            assert(x@ != y@);
            return false;
        }
        k = k + 1;
    }
    assert(x@ =~= y@);
    true
}

/// The decimal digit character for `d` (`d < 10`).
pub open spec fn digit_char(d: nat) -> char {
    (48 + d) as char
}

/// The decimal text of `n`, without leading zeros.
pub open spec fn decimal_text(n: nat) -> Seq<char>
    decreases n,
{
    if n < 10 {
        seq![digit_char(n)]
    } else {
        decimal_text(n / 10) + seq![digit_char(n % 10)]
    }
}

/// The decimal text of `n`, padded with zeros to at least two digits (`{:02}`).
pub open spec fn two_digit_text(n: nat) -> Seq<char> {
    if n < 10 {
        seq!['0', digit_char(n)]
    } else {
        decimal_text(n)
    }
}

/// The one-character text of the digit `d`.
fn digit_str(d: u32) -> (s: &'static str)
    requires
        d < 10,
    ensures
        s@ == seq![digit_char(d as nat)],
{
    if d == 0 {
        proof {
            reveal_strlit("0");
        }
        "0"
    } else if d == 1 {
        proof {
            reveal_strlit("1");
        }
        "1"
    } else if d == 2 {
        proof {
            reveal_strlit("2");
        }
        "2"
    } else if d == 3 {
        proof {
            reveal_strlit("3");
        }
        "3"
    } else if d == 4 {
        proof {
            reveal_strlit("4");
        }
        "4"
    } else if d == 5 {
        proof {
            reveal_strlit("5");
        }
        "5"
    } else if d == 6 {
        proof {
            reveal_strlit("6");
        }
        "6"
    } else if d == 7 {
        proof {
            reveal_strlit("7");
        }
        "7"
    } else if d == 8 {
        proof {
            reveal_strlit("8");
        }
        "8"
    } else {
        proof {
            reveal_strlit("9");
        }
        "9"
    }
}

/// The decimal text of `n`.
pub fn decimal_string(n: u32) -> (s: String)
    ensures
        s@ == decimal_text(n as nat),
    decreases n,
{
    if n < 10 {
        String::from_str(digit_str(n))
    } else {
        let mut s = decimal_string(n / 10);
        s.append(digit_str(n % 10));
        s
    }
}

/// The decimal text of `n`, padded with zeros to at least two digits.
pub fn two_digit_string(n: u32) -> (s: String)
    ensures
        s@ == two_digit_text(n as nat),
{
    if n < 10 {
        let mut s = String::from_str(digit_str(0));
        s.append(digit_str(n));
        s
    } else {
        decimal_string(n)
    }
}

} // verus!
