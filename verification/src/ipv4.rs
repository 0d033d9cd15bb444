//! IPv4 addresses in dotted decimal notation.

use crate::text::{decimal_digits, digit_char};
use vstd::prelude::*;
use vstd::string::*;

verus! {

/// The four numbers in decimal notation, separated by dots.
pub open spec fn dotted_quad(a: nat, b: nat, c: nat, d: nat) -> Seq<char> {
    decimal_digits(a) + seq!['.'] + decimal_digits(b) + seq!['.'] + decimal_digits(c) + seq!['.']
        + decimal_digits(d)
}

/// Whether `s` writes an IPv4 address: four numbers of at most 255 in
/// decimal notation, separated by dots.
pub open spec fn is_ipv4(s: Seq<char>) -> bool {
    exists|a: nat, b: nat, c: nat, d: nat|
        a <= 255 && b <= 255 && c <= 255 && d <= 255 && s == #[trigger] dotted_quad(a, b, c, d)
}

/// Whether `c` is a decimal digit.
pub open spec fn is_digit(c: char) -> bool {
    '0' <= c <= '9'
}

/// Whether `t` is the decimal notation of a number of at most 255.
pub open spec fn is_octet(t: Seq<char>) -> bool {
    exists|n: nat| n <= 255 && t == #[trigger] decimal_digits(n)
}

/// The number that the decimal digit `c` writes.
spec fn digit_value(c: char) -> nat {
    (c as nat - '0' as nat) as nat
}

/// `digit_char` and `digit_value` undo each other.
proof fn lemma_digit_round_trip()
    ensures
        forall|d: nat| d < 10 ==> is_digit(#[trigger] digit_char(d)) && digit_value(digit_char(d)) == d,
        forall|c: char| is_digit(c) ==> digit_char(#[trigger] digit_value(c)) == c,
{
}

/// What the decimal notation of a number of at most 255 looks like: one to
/// three digits, the first of which is no zero unless it is the only one.
proof fn lemma_octet_shape(n: nat)
    requires
        n <= 255,
    ensures
        n < 10 ==> decimal_digits(n) == seq![digit_char(n)],
        10 <= n < 100 ==> decimal_digits(n) == seq![digit_char(n / 10), digit_char(n % 10)],
        100 <= n ==> decimal_digits(n) == seq![
            digit_char(n / 100),
            digit_char((n / 10) % 10),
            digit_char(n % 10),
        ],
{
    reveal_with_fuel(decimal_digits, 3);
    if 10 <= n < 100 {
        assert(decimal_digits(n) =~= seq![digit_char(n / 10), digit_char(n % 10)]);
    }
    if 100 <= n {
        assert((n / 10) / 10 == n / 100);
        assert(decimal_digits(n) =~= seq![
            digit_char(n / 100),
            digit_char((n / 10) % 10),
            digit_char(n % 10),
        ]);
    }
}

/// Whether the digits of `s` that start at `pos` end just before `end`:
/// digits from `pos` up to `end`, and none at `end`.
spec fn is_run(s: Seq<char>, pos: int, end: int) -> bool {
    &&& 0 <= pos <= end <= s.len()
    &&& forall|i: int| pos <= i < end ==> is_digit(#[trigger] s[i])
    &&& (end == s.len() || !is_digit(s[end]))
}

/// The digits that start at a position end at one place only.
proof fn lemma_run_unique(s: Seq<char>, pos: int, e: int, f: int)
    requires
        is_run(s, pos, e),
        is_run(s, pos, f),
    ensures
        e == f,
{
    if e < f {
        assert(is_digit(s[e]));
    }
    if f < e {
        assert(is_digit(s[f]));
    }
}

/// Whether `s` is four octets that end just before `e1`, `e2`, `e3` and
/// the end of `s`, with a dot after each of the first three.
spec fn parses(s: Seq<char>, e1: int, e2: int, e3: int) -> bool {
    &&& is_run(s, 0, e1)
    &&& is_octet(s.subrange(0, e1))
    &&& e1 < s.len() && s[e1] == '.'
    &&& is_run(s, e1 + 1, e2)
    &&& is_octet(s.subrange(e1 + 1, e2))
    &&& e2 < s.len() && s[e2] == '.'
    &&& is_run(s, e2 + 1, e3)
    &&& is_octet(s.subrange(e2 + 1, e3))
    &&& e3 < s.len() && s[e3] == '.'
    &&& is_run(s, e3 + 1, s.len() as int)
    &&& is_octet(s.subrange(e3 + 1, s.len() as int))
}

/// The decimal notation of a number of at most 255 has one to three
/// characters, all of them digits.
proof fn lemma_octet_digits(n: nat)
    requires
        n <= 255,
    ensures
        1 <= decimal_digits(n).len() <= 3,
        forall|i: int| 0 <= i < decimal_digits(n).len() ==> is_digit(#[trigger] decimal_digits(n)[i]),
{
    lemma_octet_shape(n);
    lemma_digit_round_trip();
    if n >= 100 {
        assert(n / 100 < 10 && (n / 10) % 10 < 10 && n % 10 < 10);
    } else if n >= 10 {
        assert(n / 10 < 10 && n % 10 < 10);
    }
}

/// A text that parses as four octets is an IPv4 address.
proof fn lemma_parses_is_ipv4(s: Seq<char>, e1: int, e2: int, e3: int)
    requires
        parses(s, e1, e2, e3),
    ensures
        is_ipv4(s),
{
    let a = choose|n: nat| n <= 255 && s.subrange(0, e1) == #[trigger] decimal_digits(n);
    let b = choose|n: nat| n <= 255 && s.subrange(e1 + 1, e2) == #[trigger] decimal_digits(n);
    let c = choose|n: nat| n <= 255 && s.subrange(e2 + 1, e3) == #[trigger] decimal_digits(n);
    let d = choose|n: nat|
        n <= 255 && s.subrange(e3 + 1, s.len() as int) == #[trigger] decimal_digits(n);
    assert(s =~= dotted_quad(a, b, c, d));
}

/// An IPv4 address parses as four octets.
proof fn lemma_ipv4_parses(s: Seq<char>)
    requires
        is_ipv4(s),
    ensures
        exists|e1: int, e2: int, e3: int| parses(s, e1, e2, e3),
{
    let (a, b, c, d) = choose|a: nat, b: nat, c: nat, d: nat|
        a <= 255 && b <= 255 && c <= 255 && d <= 255 && s == #[trigger] dotted_quad(a, b, c, d);
    lemma_octet_digits(a);
    lemma_octet_digits(b);
    lemma_octet_digits(c);
    lemma_octet_digits(d);
    let ta = decimal_digits(a);
    let tb = decimal_digits(b);
    let tc = decimal_digits(c);
    let td = decimal_digits(d);
    let e1 = ta.len() as int;
    let e2 = e1 + 1 + tb.len();
    let e3 = e2 + 1 + tc.len();
    assert(s.len() == e3 + 1 + td.len());
    assert(s.subrange(0, e1) =~= ta);
    assert(s.subrange(e1 + 1, e2) =~= tb);
    assert(s.subrange(e2 + 1, e3) =~= tc);
    assert(s.subrange(e3 + 1, s.len() as int) =~= td);
    assert(s[e1] == '.' && s[e2] == '.' && s[e3] == '.');
    assert forall|i: int| 0 <= i < e1 implies is_digit(#[trigger] s[i]) by {
        assert(s[i] == ta[i]);
    }
    assert forall|i: int| e1 + 1 <= i < e2 implies is_digit(#[trigger] s[i]) by {
        assert(s[i] == tb[i - e1 - 1]);
    }
    assert forall|i: int| e2 + 1 <= i < e3 implies is_digit(#[trigger] s[i]) by {
        assert(s[i] == tc[i - e2 - 1]);
    }
    assert forall|i: int| e3 + 1 <= i < s.len() implies is_digit(#[trigger] s[i]) by {
        assert(s[i] == td[i - e3 - 1]);
    }
    assert(parses(s, e1, e2, e3));
}

/// An IPv4 address is written in ASCII.
proof fn lemma_ipv4_is_ascii(s: Seq<char>)
    requires
        is_ipv4(s),
    ensures
        vstd::utf8::is_ascii_chars(s),
{
    lemma_ipv4_parses(s);
    let (e1, e2, e3) = choose|e1: int, e2: int, e3: int| parses(s, e1, e2, e3);
    assert forall|i: int| 0 <= i < s.len() implies '\0' <= #[trigger] s[i] <= '\u{7f}' by {
        if i < e1 {
            assert(is_digit(s[i]));
        } else if i == e1 {
        } else if i < e2 {
            assert(is_digit(s[i]));
        } else if i == e2 {
        } else if i < e3 {
            assert(is_digit(s[i]));
        } else if i == e3 {
        } else {
            assert(is_digit(s[i]));
        }
    }
}

/// Whether `bytes` holds the characters of `s`, which are all ASCII.
spec fn spells(bytes: Seq<u8>, s: Seq<char>) -> bool {
    &&& bytes.len() == s.len()
    &&& forall|i: int| 0 <= i < s.len() ==> '\0' <= #[trigger] s[i] <= '\u{7f}'
    &&& forall|i: int| 0 <= i < s.len() ==> #[trigger] bytes[i] == s[i] as u8
}

/// Reads the digits that start at `pos`: where they end, if they write an
/// octet.
fn read_octet(bytes: &[u8], Ghost(s): Ghost<Seq<char>>, pos: usize) -> (r: Option<usize>)
    requires
        spells(bytes@, s),
        pos <= bytes@.len(),
    ensures
        r matches Some(end) ==> is_run(s, pos as int, end as int) && is_octet(
            s.subrange(pos as int, end as int),
        ),
        r is None ==> forall|end: int|
            is_run(s, pos as int, end) ==> !is_octet(#[trigger] s.subrange(pos as int, end)),
{
    let n: usize = bytes.len();
    let mut end: usize = pos;
    while end < n && 48 <= bytes[end] && bytes[end] <= 57
        invariant
            spells(bytes@, s),
            n == bytes@.len(),
            pos <= end <= n,
            forall|i: int| pos <= i < end ==> is_digit(#[trigger] s[i]),
        decreases n - end,
    {
        assert(is_digit(s[end as int])) by {
            assert(bytes@[end as int] == s[end as int] as u8);
        }
        end = end + 1;
    }
    assert(is_run(s, pos as int, end as int)) by {
        if end < n {
            assert(bytes@[end as int] == s[end as int] as u8);
        }
    }
    let ghost t = s.subrange(pos as int, end as int);
    proof {
        lemma_digit_round_trip();
        assert forall|f: int| is_run(s, pos as int, f) implies f == end by {
            lemma_run_unique(s, pos as int, end as int, f);
        }
    }
    let count: usize = end - pos;
    if count == 0 || count > 3 {
        proof {
            assert forall|m: nat| m <= 255 implies t != #[trigger] decimal_digits(m) by {
                lemma_octet_digits(m);
            }
        }
        return None;
    }
    assert(bytes@[pos as int] == s[pos as int] as u8);
    assert(t[0] == s[pos as int]);
    if count > 1 && bytes[pos] == 48 {
        proof {
            assert(t[0] == '0');
            assert forall|m: nat| m <= 255 implies t != #[trigger] decimal_digits(m) by {
                lemma_octet_shape(m);
                if m >= 100 {
                    assert(decimal_digits(m)[0] == digit_char(m / 100));
                    assert(m / 100 >= 1);
                } else if m >= 10 {
                    assert(decimal_digits(m)[0] == digit_char(m / 10));
                    assert(m / 10 >= 1);
                } else {
                    assert(decimal_digits(m).len() == 1);
                    assert(t.len() == count);
                }
            }
        }
        return None;
    }
    let mut value: u32 = 0;
    let mut i: usize = pos;
    while i < end
        invariant
            spells(bytes@, s),
            pos <= i <= end <= bytes@.len(),
            end - pos <= 3,
            forall|j: int| pos <= j < end ==> is_digit(#[trigger] s[j]),
            i == pos ==> value == 0,
            i == pos + 1 ==> value == digit_value(s[pos as int]),
            i == pos + 2 ==> value == digit_value(s[pos as int]) * 10 + digit_value(
                s[pos + 1],
            ),
            i == pos + 3 ==> value == digit_value(s[pos as int]) * 100 + digit_value(
                s[pos + 1],
            ) * 10 + digit_value(s[pos + 2]),
        decreases end - i,
    {
        assert(bytes@[i as int] == s[i as int] as u8);
        assert(is_digit(s[i as int]));
        assert(is_digit(s[pos as int]));
        if i >= pos + 1 {
            assert(is_digit(s[pos + 1]));
        }
        let digit: u32 = (bytes[i] - 48) as u32;
        assert(digit == digit_value(s[i as int]));
        value = value * 10 + digit;
        i = i + 1;
    }
    proof {
        assert(is_digit(s[pos as int]));
        let d0 = digit_value(s[pos as int]);
        if count == 1 {
            assert(t =~= seq![s[pos as int]]);
            assert forall|m: nat| m <= 255 && t == decimal_digits(m) implies m == value by {
                lemma_octet_shape(m);
            }
            if value <= 255 {
                lemma_octet_shape(value as nat);
                assert(t =~= decimal_digits(value as nat));
            }
        } else if count == 2 {
            assert(is_digit(s[pos + 1]));
            let d1 = digit_value(s[pos + 1]);
            assert(t =~= seq![s[pos as int], s[pos + 1]]);
            assert(d0 >= 1);
            assert forall|m: nat| m <= 255 && t == decimal_digits(m) implies m == value by {
                lemma_octet_shape(m);
                if 10 <= m < 100 {
                    assert(t[0] == digit_char(m / 10) && t[1] == digit_char(m % 10));
                    assert(m / 10 < 10 && m % 10 < 10);
                }
            }
            if value <= 255 {
                lemma_octet_shape(value as nat);
                assert((d0 * 10 + d1) / 10 == d0 && (d0 * 10 + d1) % 10 == d1);
                assert(t =~= decimal_digits(value as nat));
            }
        } else {
            assert(is_digit(s[pos + 1]));
            assert(is_digit(s[pos + 2]));
            let d1 = digit_value(s[pos + 1]);
            let d2 = digit_value(s[pos + 2]);
            assert(t =~= seq![s[pos as int], s[pos + 1], s[pos + 2]]);
            assert(d0 >= 1);
            assert forall|m: nat| m <= 255 && t == decimal_digits(m) implies m == value by {
                lemma_octet_shape(m);
                if 100 <= m {
                    assert(t[0] == digit_char(m / 100) && t[1] == digit_char((m / 10) % 10) && t[2]
                        == digit_char(m % 10));
                    assert(m / 100 < 10 && (m / 10) % 10 < 10 && m % 10 < 10);
                }
            }
            if value <= 255 {
                lemma_octet_shape(value as nat);
                let v = d0 * 100 + d1 * 10 + d2;
                assert(v / 100 == d0 && (v / 10) % 10 == d1 && v % 10 == d2);
                assert(t =~= decimal_digits(value as nat));
            }
        }
    }
    if value > 255 {
        None
    } else {
        Some(end)
    }
}

/// Whether `s` writes an IPv4 address in dotted decimal notation.
pub fn is_ipv4_text(s: &str) -> (ok: bool)
    ensures
        ok == is_ipv4(s@),
{
    if !s.is_ascii() {
        proof {
            if is_ipv4(s@) {
                lemma_ipv4_is_ascii(s@);
            }
        }
        return false;
    }
    let bytes = s.as_bytes();
    proof {
        broadcast use is_ascii_spec_bytes;

        assert(spells(bytes@, s@));
    }
    let ghost text = s@;
    let ghost (x, y, z) = choose|x: int, y: int, z: int| parses(text, x, y, z);
    proof {
        if is_ipv4(text) {
            lemma_ipv4_parses(text);
        }
    }
    let n: usize = bytes.len();
    let e1: usize = match read_octet(bytes, Ghost(text), 0) {
        Some(end) => end,
        None => {
            return false;
        },
    };
    proof {
        if is_ipv4(text) {
            lemma_run_unique(text, 0, e1 as int, x);
        }
    }
    if e1 >= n || bytes[e1] != 46 {
        return false;
    }
    let e2: usize = match read_octet(bytes, Ghost(text), e1 + 1) {
        Some(end) => end,
        None => {
            return false;
        },
    };
    proof {
        if is_ipv4(text) {
            lemma_run_unique(text, e1 + 1, e2 as int, y);
        }
    }
    if e2 >= n || bytes[e2] != 46 {
        return false;
    }
    let e3: usize = match read_octet(bytes, Ghost(text), e2 + 1) {
        Some(end) => end,
        None => {
            return false;
        },
    };
    proof {
        if is_ipv4(text) {
            lemma_run_unique(text, e2 + 1, e3 as int, z);
        }
    }
    if e3 >= n || bytes[e3] != 46 {
        return false;
    }
    let e4: usize = match read_octet(bytes, Ghost(text), e3 + 1) {
        Some(end) => end,
        None => {
            return false;
        },
    };
    proof {
        if is_ipv4(text) {
            lemma_run_unique(text, e3 + 1, e4 as int, text.len() as int);
        }
    }
    if e4 != n {
        return false;
    }
    proof {
        assert(text[e1 as int] == '.' && text[e2 as int] == '.' && text[e3 as int] == '.');
        lemma_parses_is_ipv4(text, e1 as int, e2 as int, e3 as int);
    }
    true
}

} // verus!
