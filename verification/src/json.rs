//! The JSON string layer of the wire codec: escaping, unescaping, and the
//! proof that the one inverts the other.
//!
//! Payload envelopes travel as JSON text.  A message string is emitted with
//! `"` and `\\` escaped and control characters written as `\u00XX`; the
//! scanner accepts exactly those escapes, so every string the encoder can
//! produce reads back to the original.

use crate::text::push_char;
use vstd::prelude::*;

verus! {

/// The lower-case hexadecimal digit of `n`, for `0 <= n < 16`.
pub open spec fn hex_digit(n: int) -> char {
    if n == 0 { '0' } else if n == 1 { '1' } else if n == 2 { '2' } else if n == 3 { '3' } else if n == 4 { '4' } else if n == 5 { '5' } else if n == 6 { '6' } else if n == 7 { '7' } else if n == 8 { '8' } else if n == 9 { '9' } else if n == 10 { 'a' } else if n == 11 { 'b' } else if n == 12 { 'c' } else if n == 13 { 'd' } else if n == 14 { 'e' } else if n == 15 { 'f' } else { '0' }
}

/// The value of a lower-case hexadecimal digit, `-1` for any other character.
pub open spec fn hex_val(c: char) -> int {
    if c == '0' { 0 } else if c == '1' { 1 } else if c == '2' { 2 } else if c == '3' { 3 } else if c == '4' { 4 } else if c == '5' { 5 } else if c == '6' { 6 } else if c == '7' { 7 } else if c == '8' { 8 } else if c == '9' { 9 } else if c == 'a' { 10 } else if c == 'b' { 11 } else if c == 'c' { 12 } else if c == 'd' { 13 } else if c == 'e' { 14 } else if c == 'f' { 15 } else { -1 }
}

/// Whether `c` is a lower-case hexadecimal digit.
pub open spec fn is_hex(c: char) -> bool {
    hex_val(c) >= 0
}

/// The control character with code `n`, for `0 <= n < 32`.
pub open spec fn control_char(n: int) -> char {
    if n == 0 { '\u{00}' } else if n == 1 { '\u{01}' } else if n == 2 { '\u{02}' } else if n == 3 { '\u{03}' } else if n == 4 { '\u{04}' } else if n == 5 { '\u{05}' } else if n == 6 { '\u{06}' } else if n == 7 { '\u{07}' } else if n == 8 { '\u{08}' } else if n == 9 { '\u{09}' } else if n == 10 { '\u{0a}' } else if n == 11 { '\u{0b}' } else if n == 12 { '\u{0c}' } else if n == 13 { '\u{0d}' } else if n == 14 { '\u{0e}' } else if n == 15 { '\u{0f}' } else if n == 16 { '\u{10}' } else if n == 17 { '\u{11}' } else if n == 18 { '\u{12}' } else if n == 19 { '\u{13}' } else if n == 20 { '\u{14}' } else if n == 21 { '\u{15}' } else if n == 22 { '\u{16}' } else if n == 23 { '\u{17}' } else if n == 24 { '\u{18}' } else if n == 25 { '\u{19}' } else if n == 26 { '\u{1a}' } else if n == 27 { '\u{1b}' } else if n == 28 { '\u{1c}' } else if n == 29 { '\u{1d}' } else if n == 30 { '\u{1e}' } else if n == 31 { '\u{1f}' } else { ' ' }
}

/// How one character is written inside a JSON string literal.
pub open spec fn esc_char(c: char) -> Seq<char> {
    if c == '"' {
        seq!['\\', '"']
    } else if c == '\\' {
        seq!['\\', '\\']
    } else if (c as u32) < 0x20 {
        seq!['\\', 'u', '0', '0', hex_digit(c as u32 as int / 16), hex_digit(c as u32 as int % 16)]
    } else {
        seq![c]
    }
}

/// How a whole string is written inside a JSON string literal.
pub open spec fn escape(s: Seq<char>) -> Seq<char>
    decreases s.len(),
{
    if s.len() == 0 {
        Seq::empty()
    } else {
        esc_char(s.first()) + escape(s.drop_first())
    }
}

/// Reads a JSON string body up to its closing quote: the unescaped content
/// and whatever follows the quote, or `None` if the input ends early or
/// holds an escape the encoder never writes.
pub open spec fn scan_string(s: Seq<char>) -> Option<(Seq<char>, Seq<char>)>
    decreases s.len(),
{
    if s.len() == 0 {
        None
    } else if s.first() == '"' {
        Some((Seq::empty(), s.drop_first()))
    } else if s.first() == '\\' {
        if s.len() < 2 {
            None
        } else if s[1] == '"' || s[1] == '\\' {
            match scan_string(s.skip(2)) {
                Some(p) => Some((seq![s[1]] + p.0, p.1)),
                None => None,
            }
        } else if s[1] == 'u' {
            if s.len() >= 6 && s[2] == '0' && s[3] == '0' && is_hex(s[4]) && is_hex(s[5]) && 16
                * hex_val(s[4]) + hex_val(s[5]) < 0x20 {
                match scan_string(s.skip(6)) {
                    Some(p) => Some((seq![control_char(16 * hex_val(s[4]) + hex_val(s[5]))] + p.0, p.1)),
                    None => None,
                }
            } else {
                None
            }
        } else {
            None
        }
    } else {
        match scan_string(s.drop_first()) {
            Some(p) => Some((seq![s.first()] + p.0, p.1)),
            None => None,
        }
    }
}

/// A hexadecimal digit reads back to its value.
proof fn lemma_hex_digit_val(n: int)
    requires
        0 <= n < 16,
    ensures
        is_hex(hex_digit(n)),
        hex_val(hex_digit(n)) == n,
{
}

/// A control character reads back from its code.
proof fn lemma_control_char_code(c: char)
    requires
        (c as u32) < 0x20,
    ensures
        control_char(c as u32 as int) == c,
{
}

/// Unescaping inverts escaping: scanning an escaped string followed by its
/// closing quote yields the original string and the unread remainder.
pub proof fn lemma_scan_escape(m: Seq<char>, rest: Seq<char>)
    ensures
        scan_string(escape(m) + seq!['"'] + rest) == Some((m, rest)),
    decreases m.len(),
{
    let s = escape(m) + seq!['"'] + rest;
    if m.len() == 0 {
        assert(escape(m) =~= Seq::<char>::empty());
        assert(s =~= seq!['"'] + rest);
        assert(s.first() == '"');
        assert(s.drop_first() =~= rest);
    } else {
        let c = m.first();
        let mm = m.drop_first();
        lemma_scan_escape(mm, rest);
        let t = escape(mm) + seq!['"'] + rest;
        assert(escape(m) == esc_char(c) + escape(mm));
        if c == '"' {
            assert(s =~= seq!['\\', '"'] + t);
            assert(s.first() == '\\' && s[1] == '"');
            assert(s.skip(2) =~= t);
            assert(seq![s[1]] + mm =~= m);
        } else if c == '\\' {
            assert(s =~= seq!['\\', '\\'] + t);
            assert(s.first() == '\\' && s[1] == '\\');
            assert(s.skip(2) =~= t);
            assert(seq![s[1]] + mm =~= m);
        } else if (c as u32) < 0x20 {
            let v = c as u32 as int;
            let h1 = hex_digit(v / 16);
            let h2 = hex_digit(v % 16);
            lemma_hex_digit_val(v / 16);
            lemma_hex_digit_val(v % 16);
            lemma_control_char_code(c);
            assert(s =~= seq!['\\', 'u', '0', '0', h1, h2] + t);
            assert(s.first() == '\\' && s[1] == 'u' && s[2] == '0' && s[3] == '0' && s[4] == h1
                && s[5] == h2);
            assert(16 * hex_val(s[4]) + hex_val(s[5]) == v);
            assert(s.skip(6) =~= t);
            assert(seq![control_char(v)] + mm =~= m);
        } else {
            assert(s =~= seq![c] + t);
            assert(s.first() == c && c != '"' && c != '\\');
            assert(s.drop_first() =~= t);
            assert(seq![c] + mm =~= m);
        }
    }
}

/// The snoc form of [`escape`]: escaping extends character by character.
proof fn lemma_escape_snoc(s: Seq<char>, c: char)
    ensures
        escape(s.push(c)) == escape(s) + esc_char(c),
    decreases s.len(),
{
    if s.len() == 0 {
        assert(s.push(c).first() == c);
        assert(s.push(c).drop_first() =~= Seq::<char>::empty());
        assert(escape(s) =~= Seq::<char>::empty());
        assert(escape(s.push(c).drop_first()) =~= Seq::<char>::empty());
        assert(escape(s.push(c)) =~= escape(s) + esc_char(c));
    } else {
        assert(s.push(c).first() == s.first());
        assert(s.push(c).drop_first() =~= s.drop_first().push(c));
        lemma_escape_snoc(s.drop_first(), c);
        assert(escape(s.push(c)) =~= escape(s) + esc_char(c));
    }
}

/// The lower-case hexadecimal digit of `v`.
fn hex_digit_char(v: u32) -> (c: char)
    requires
        v < 16,
    ensures
        c == hex_digit(v as int),
{
    if v == 0 { '0' }
    else if v == 1 { '1' }
    else if v == 2 { '2' }
    else if v == 3 { '3' }
    else if v == 4 { '4' }
    else if v == 5 { '5' }
    else if v == 6 { '6' }
    else if v == 7 { '7' }
    else if v == 8 { '8' }
    else if v == 9 { '9' }
    else if v == 10 { 'a' }
    else if v == 11 { 'b' }
    else if v == 12 { 'c' }
    else if v == 13 { 'd' }
    else if v == 14 { 'e' }
    else { 'f' }
}

/// Appends the escaped form of `s` to `out`.
pub fn append_escaped(out: &mut String, s: &str)
    ensures
        final(out)@ == old(out)@ + escape(s@),
{
    let n = s.unicode_len();
    let mut i: usize = 0;
    proof {
        assert(s@.take(0) =~= Seq::<char>::empty());
        assert(out@ + escape(s@.take(0)) =~= out@);
    }
    let ghost start = out@;
    while i < n
        invariant
            0 <= i <= n,
            n == s@.len(),
            out@ == start + escape(s@.take(i as int)),
        decreases n - i,
    {
        let c = s.get_char(i);
        if c == '"' {
            out.append("\\\"");
            proof {
                assert("\\\""@ =~= esc_char(c)) by {
                    reveal_strlit("\\\"");
                }
            }
        } else if c == '\\' {
            out.append("\\\\");
            proof {
                assert("\\\\"@ =~= esc_char(c)) by {
                    reveal_strlit("\\\\");
                }
            }
        } else if (c as u32) < 0x20 {
            out.append("\\u00");
            let v = c as u32;
            push_char(out, hex_digit_char(v / 16));
            push_char(out, hex_digit_char(v % 16));
            proof {
                reveal_strlit("\\u00");
                assert("\\u00"@.push(hex_digit(v as int / 16)).push(hex_digit(v as int % 16))
                    =~= esc_char(c));
            }
        } else {
            push_char(out, c);
        }
        proof {
            assert(s@.take(i + 1) =~= s@.take(i as int).push(s@[i as int]));
            lemma_escape_snoc(s@.take(i as int), s@[i as int]);
            assert(out@ =~= start + escape(s@.take(i + 1)));
        }
        i = i + 1;
    }
    proof {
        assert(s@.take(n as int) =~= s@);
    }
}

/// Whether `lit` occurs in `s` at character position `i`.
pub open spec fn match_at(s: Seq<char>, i: int, lit: Seq<char>) -> bool {
    0 <= i && i + lit.len() <= s.len() && s.subrange(i, i + lit.len()) == lit
}

/// Compares `lit` against `s` at position `i`.
pub fn match_lit(s: &str, i: usize, lit: &str) -> (r: bool)
    ensures
        r == match_at(s@, i as int, lit@),
{
    let n = s.unicode_len();
    let k = lit.unicode_len();
    if i > n || k > n - i {
        return false;
    }
    let mut j: usize = 0;
    while j < k
        invariant
            0 <= j <= k,
            i + k <= n,
            n == s@.len(),
            k == lit@.len(),
            forall|t: int| 0 <= t < j ==> s@[i + t] == lit@[t],
        decreases k - j,
    {
        if s.get_char(i + j) != lit.get_char(j) {
            assert(s@.subrange(i as int, i + lit@.len()) != lit@) by {
                assert(s@.subrange(i as int, i + lit@.len())[j as int] == s@[i + j]);
            }
            return false;
        }
        j = j + 1;
    }
    assert(s@.subrange(i as int, i + lit@.len()) =~= lit@);
    true
}

/// Character-wise string equality.
pub fn str_eq(a: &str, b: &str) -> (r: bool)
    ensures
        r == (a@ == b@),
{
    let n = a.unicode_len();
    if n != b.unicode_len() {
        proof {
            assert(a@.len() != b@.len());
        }
        return false;
    }
    let mut i: usize = 0;
    while i < n
        invariant
            0 <= i <= n,
            n == a@.len(),
            n == b@.len(),
            forall|t: int| 0 <= t < i ==> a@[t] == b@[t],
        decreases n - i,
    {
        if a.get_char(i) != b.get_char(i) {
            return false;
        }
        i = i + 1;
    }
    assert(a@ =~= b@);
    true
}

/// What prepending `a` to a scanned message does to a scan outcome.
pub open spec fn scan_prepend(a: Seq<char>, o: Option<(Seq<char>, Seq<char>)>) -> Option<
    (Seq<char>, Seq<char>),
> {
    match o {
        Some(p) => Some((a + p.0, p.1)),
        None => None,
    }
}

/// Reads a JSON string body of `s` starting at `start`, unescaping as it
/// goes: the content and the position just past the closing quote, or
/// `Err` where [`scan_string`] fails.
pub fn scan_message(s: &str, start: usize) -> (r: Result<(String, usize), ()>)
    requires
        start <= s@.len(),
    ensures
        match r {
            Ok(p) => start <= p.1 <= s@.len() && scan_string(s@.skip(start as int)) == Some(
                (p.0@, s@.skip(p.1 as int)),
            ),
            Err(_) => scan_string(s@.skip(start as int)) is None,
        },
{
    let n = s.unicode_len();
    let mut acc = String::new();
    let mut i: usize = start;
    loop
        invariant
            start <= i <= n,
            n == s@.len(),
            scan_string(s@.skip(start as int)) == scan_prepend(
                acc@,
                scan_string(s@.skip(i as int)),
            ),
        decreases n - i,
    {
        let ghost tail = s@.skip(i as int);
        if i >= n {
            proof {
                assert(tail.len() == 0);
            }
            return Err(());
        }
        let c = s.get_char(i);
        proof {
            assert(tail.first() == s@[i as int]);
        }
        if c == '"' {
            proof {
                assert(tail.drop_first() =~= s@.skip(i + 1));
                assert(scan_string(tail) == Some((Seq::<char>::empty(), s@.skip(i + 1))));
                assert(acc@ + Seq::<char>::empty() =~= acc@);
            }
            return Ok((acc, i + 1));
        }
        if c == '\\' {
            if n - i < 2 {
                proof {
                    assert(tail.len() < 2);
                }
                return Err(());
            }
            let e = s.get_char(i + 1);
            proof {
                assert(tail[1] == s@[i + 1]);
            }
            if e == '"' || e == '\\' {
                push_char(&mut acc, e);
                proof {
                    assert(tail.skip(2) =~= s@.skip(i + 2));
                    assert(scan_string(s@.skip(start as int)) == scan_prepend(
                        acc@,
                        scan_string(s@.skip(i + 2)),
                    )) by {
                        assert(scan_string(tail) == scan_prepend(
                            seq![e],
                            scan_string(s@.skip(i + 2)),
                        ));
                        lemma_scan_prepend_assoc(
                            acc@.drop_last(),
                            seq![e],
                            scan_string(s@.skip(i + 2)),
                        );
                        assert(acc@.drop_last().push(e) =~= acc@);
                        assert(acc@.drop_last() + seq![e] =~= acc@);
                    }
                }
                i = i + 2;
                continue;
            }
            if e == 'u' {
                if n - i < 6 {
                    proof {
                        assert(tail.len() < 6);
                    }
                    return Err(());
                }
                let d2 = s.get_char(i + 2);
                let d3 = s.get_char(i + 3);
                let d4 = s.get_char(i + 4);
                let d5 = s.get_char(i + 5);
                proof {
                    assert(tail[2] == s@[i + 2] && tail[3] == s@[i + 3] && tail[4] == s@[i + 4]
                        && tail[5] == s@[i + 5]);
                }
                let v4 = hex_value(d4);
                let v5 = hex_value(d5);
                if !(d2 == '0' && d3 == '0' && v4 >= 0 && v5 >= 0 && 16 * v4 + v5 < 0x20) {
                    return Err(());
                }
                let u = control_char_of(16 * v4 + v5);
                push_char(&mut acc, u);
                proof {
                    assert(tail.skip(6) =~= s@.skip(i + 6));
                    assert(scan_string(tail) == scan_prepend(
                        seq![u],
                        scan_string(s@.skip(i + 6)),
                    ));
                    lemma_scan_prepend_assoc(
                        acc@.drop_last(),
                        seq![u],
                        scan_string(s@.skip(i + 6)),
                    );
                    assert(acc@.drop_last() + seq![u] =~= acc@);
                }
                i = i + 6;
                continue;
            }
            return Err(());
        }
        push_char(&mut acc, c);
        proof {
            assert(tail.drop_first() =~= s@.skip(i + 1));
            assert(scan_string(tail) == scan_prepend(seq![c], scan_string(s@.skip(i + 1))));
            lemma_scan_prepend_assoc(acc@.drop_last(), seq![c], scan_string(s@.skip(i + 1)));
            assert(acc@.drop_last() + seq![c] =~= acc@);
        }
        i = i + 1;
    }
}

/// Prepending distributes over itself.
proof fn lemma_scan_prepend_assoc(a: Seq<char>, b: Seq<char>, o: Option<(Seq<char>, Seq<char>)>)
    ensures
        scan_prepend(a + b, o) == scan_prepend(a, scan_prepend(b, o)),
{
    match o {
        Some(p) => {
            assert((a + b) + p.0 =~= a + (b + p.0));
        },
        None => {},
    }
}

/// The value of a hexadecimal digit, `-1` for any other character.
fn hex_value(c: char) -> (v: i32)
    ensures
        v as int == hex_val(c),
{
    if c == '0' { 0 }
    else if c == '1' { 1 }
    else if c == '2' { 2 }
    else if c == '3' { 3 }
    else if c == '4' { 4 }
    else if c == '5' { 5 }
    else if c == '6' { 6 }
    else if c == '7' { 7 }
    else if c == '8' { 8 }
    else if c == '9' { 9 }
    else if c == 'a' { 10 }
    else if c == 'b' { 11 }
    else if c == 'c' { 12 }
    else if c == 'd' { 13 }
    else if c == 'e' { 14 }
    else if c == 'f' { 15 }
    else { -1 }
}

/// The control character with code `v`.
fn control_char_of(v: i32) -> (c: char)
    requires
        0 <= v < 32,
    ensures
        c == control_char(v as int),
{
    let u = v as u32;
    let c = match u {
        0u32 => '\u{00}',
        1u32 => '\u{01}',
        2u32 => '\u{02}',
        3u32 => '\u{03}',
        4u32 => '\u{04}',
        5u32 => '\u{05}',
        6u32 => '\u{06}',
        7u32 => '\u{07}',
        8u32 => '\u{08}',
        9u32 => '\u{09}',
        10u32 => '\u{0a}',
        11u32 => '\u{0b}',
        12u32 => '\u{0c}',
        13u32 => '\u{0d}',
        14u32 => '\u{0e}',
        15u32 => '\u{0f}',
        16u32 => '\u{10}',
        17u32 => '\u{11}',
        18u32 => '\u{12}',
        19u32 => '\u{13}',
        20u32 => '\u{14}',
        21u32 => '\u{15}',
        22u32 => '\u{16}',
        23u32 => '\u{17}',
        24u32 => '\u{18}',
        25u32 => '\u{19}',
        26u32 => '\u{1a}',
        27u32 => '\u{1b}',
        28u32 => '\u{1c}',
        29u32 => '\u{1d}',
        30u32 => '\u{1e}',
        31u32 => '\u{1f}',
        _ => ' ',
    };
    c
}

/// The decimal digits of `n`.
pub open spec fn dec_str(n: int) -> Seq<char>
    decreases n,
{
    if n < 10 {
        seq![hex_digit(n)]
    } else {
        dec_str(n / 10) + seq![hex_digit(n % 10)]
    }
}

/// Writes `n` in decimal.
pub fn u64_to_string(n: u64) -> (r: String)
    ensures
        r@ == dec_str(n as int),
{
    let mut digits: Vec<char> = Vec::new();
    let mut m: u64 = n;
    while !(m == 0 && digits.len() > 0)
        invariant
            digits@.len() == 0 ==> m == n,
            m > 0 ==> dec_str(n as int) == dec_str(m as int) + digits@.reverse(),
            (m == 0 && digits@.len() > 0) ==> dec_str(n as int) == digits@.reverse(),
        decreases m, (if digits@.len() == 0 { 1int } else { 0int }),
    {
        let d = (m % 10) as u32;
        let c = hex_digit_char(d);
        let ghost before = digits@;
        digits.push(c);
        proof {
            lemma_reverse_push(before, c);
            assert(digits@.reverse() =~= seq![c] + before.reverse());
            if m == 0 {
                assert(dec_str(m as int) =~= seq![c]);
                assert(dec_str(n as int) =~= digits@.reverse());
            } else if m < 10 {
                assert(dec_str(m as int) =~= seq![c]);
                assert(dec_str(m as int) + before.reverse() =~= digits@.reverse());
            } else {
                assert(dec_str(m as int) == dec_str(m as int / 10) + seq![hex_digit(
                    m as int % 10,
                )]);
                assert(dec_str(m as int) + before.reverse() =~= dec_str(m as int / 10)
                    + digits@.reverse());
            }
        }
        m = m / 10;
    }
    let mut out = String::new();
    let k = digits.len();
    let mut i: usize = 0;
    while i < k
        invariant
            0 <= i <= k,
            k == digits@.len(),
            out@ == digits@.reverse().take(i as int),
        decreases k - i,
    {
        push_char(&mut out, digits[k - 1 - i]);
        proof {
            assert(digits@.reverse()[i as int] == digits@[k - 1 - i]);
            assert(digits@.reverse().take(i + 1) =~= digits@.reverse().take(i as int).push(
                digits@[k - 1 - i],
            ));
        }
        i = i + 1;
    }
    proof {
        assert(digits@.reverse().take(k as int) =~= digits@.reverse());
    }
    out
}

/// Reversal turns a push into a prepend.
proof fn lemma_reverse_push(s: Seq<char>, c: char)
    ensures
        s.push(c).reverse() =~= seq![c] + s.reverse(),
{
    assert(s.push(c).reverse().len() == s.len() + 1);
    assert forall|i: int| 0 <= i < s.len() + 1 implies s.push(c).reverse()[i] == (seq![c]
        + s.reverse())[i] by {
        if i == 0 {
        } else {
            assert(s.push(c).reverse()[i] == s.push(c)[s.len() - i]);
            assert((seq![c] + s.reverse())[i] == s.reverse()[i - 1]);
            assert(s.reverse()[i - 1] == s[s.len() - i]);
        }
    }
}

} // verus!
