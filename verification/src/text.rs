//! Character-level text building: decimal and hexadecimal digits, and the
//! compact JSON forms of strings and unsigned integers.

use vstd::prelude::*;

verus! {

/// Calls `String::push`. Claimed: afterwards the string holds its former
/// characters followed by `c`.
#[verifier::external_body]
pub(crate) fn push_char(s: &mut String, c: char)
    ensures
        final(s)@ == old(s)@.push(c),
{
    s.push(c);
}

/// The lowercase hexadecimal digit of a value below 16.
pub open spec fn hex_digit(n: int) -> char {
    if n < 10 {
        ((n + 48) as u8) as char
    } else {
        ((n + 87) as u8) as char
    }
}

/// Decimal digits of `n`, most significant first, with no leading zeros.
pub open spec fn decimal(n: nat) -> Seq<char>
    decreases n,
{
    if n < 10 {
        seq![((n + 48) as u8) as char]
    } else {
        decimal(n / 10).push((((n % 10) + 48) as u8) as char)
    }
}

fn digit_char(d: u64) -> (c: char)
    requires
        d < 10,
    ensures
        c == ((d + 48) as u8) as char,
{
    ((d as u8) + 48u8) as char
}

/// Appends the decimal form of `n` to `out`.
pub fn push_decimal(out: &mut String, n: u64)
    ensures
        final(out)@ == old(out)@ + decimal(n as nat),
    decreases n,
{
    if n < 10 {
        push_char(out, digit_char(n));
    } else {
        push_decimal(out, n / 10);
        push_char(out, digit_char(n % 10));
    }
}


/// JSON escape of one character in the compact form: quote, backslash and
/// the control characters below U+0020 are escaped, all others pass through.
pub open spec fn json_escape_char(c: char) -> Seq<char> {
    if c == '"' {
        seq!['\\', '"']
    } else if c == '\\' {
        seq!['\\', '\\']
    } else if c == '\u{8}' {
        seq!['\\', 'b']
    } else if c == '\t' {
        seq!['\\', 't']
    } else if c == '\n' {
        seq!['\\', 'n']
    } else if c == '\u{c}' {
        seq!['\\', 'f']
    } else if c == '\r' {
        seq!['\\', 'r']
    } else if (c as u32) < 0x20 {
        seq!['\\', 'u', '0', '0', hex_digit((c as u32) as int / 16), hex_digit((c as u32) as int % 16)]
    } else {
        seq![c]
    }
}

/// JSON escape of a whole text, character by character.
pub open spec fn json_escape(s: Seq<char>) -> Seq<char>
    decreases s.len(),
{
    if s.len() == 0 {
        Seq::empty()
    } else {
        json_escape(s.drop_last()) + json_escape_char(s.last())
    }
}

/// A JSON string literal: the escaped text between double quotes.
pub open spec fn json_string(s: Seq<char>) -> Seq<char> {
    seq!['"'] + json_escape(s) + seq!['"']
}

fn push_escaped_char(out: &mut String, c: char)
    ensures
        final(out)@ == old(out)@ + json_escape_char(c),
{
    let code = c as u32;
    if c == '"' {
        push_char(out, '\\');
        push_char(out, '"');
    } else if c == '\\' {
        push_char(out, '\\');
        push_char(out, '\\');
    } else if c == '\u{8}' {
        push_char(out, '\\');
        push_char(out, 'b');
    } else if c == '\t' {
        push_char(out, '\\');
        push_char(out, 't');
    } else if c == '\n' {
        push_char(out, '\\');
        push_char(out, 'n');
    } else if c == '\u{c}' {
        push_char(out, '\\');
        push_char(out, 'f');
    } else if c == '\r' {
        push_char(out, '\\');
        push_char(out, 'r');
    } else if code < 0x20 {
        push_char(out, '\\');
        push_char(out, 'u');
        push_char(out, '0');
        push_char(out, '0');
        push_char(out, hex_digit_char(code / 16));
        push_char(out, hex_digit_char(code % 16));
    } else {
        push_char(out, c);
    }
    assert(final(out)@ =~= old(out)@ + json_escape_char(c));
}

/// The lowercase hexadecimal digit character of a value below 16.
pub fn hex_digit_char(n: u32) -> (c: char)
    requires
        n < 16,
    ensures
        c == hex_digit(n as int),
{
    if n < 10 {
        ((n as u8) + 48u8) as char
    } else {
        ((n as u8) + 87u8) as char
    }
}

/// Appends the JSON string literal of `s` to `out`.
pub fn push_json_string(out: &mut String, s: &str)
    ensures
        final(out)@ == old(out)@ + json_string(s@),
{
    let ghost init = out@;
    push_char(out, '"');
    broadcast use vstd::string::group_string_axioms;
    for c in it: s.chars()
        invariant
            it.seq() == s@,
            out@ == init + seq!['"'] + json_escape(s@.take(it.index() as int)),
    {
        assert(c == s@[it.index() as int]);
        assert(s@.take(it.index() + 1).drop_last() =~= s@.take(it.index() as int));
        push_escaped_char(out, c);
    }
    push_char(out, '"');
    assert(s@.take(s@.len() as int) =~= s@);
    assert(out@ =~= init + json_string(s@));
}


/// Lowercase hexadecimal form of a byte sequence, two digits per byte.
pub open spec fn hex_bytes(b: Seq<u8>) -> Seq<char>
    decreases b.len(),
{
    if b.len() == 0 {
        Seq::empty()
    } else {
        hex_bytes(b.drop_last()) + seq![
            hex_digit(b.last() as int / 16),
            hex_digit(b.last() as int % 16),
        ]
    }
}

/// Whether the text starts with `count` copies of the digit zero.
pub open spec fn has_zero_prefix(s: Seq<char>, count: nat) -> bool {
    &&& count <= s.len()
    &&& forall|i: int| 0 <= i < count ==> s[i] == '0'
}

/// The hexadecimal digits of a byte slice, as characters.
pub fn hex_chars(bytes: &[u8]) -> (v: Vec<char>)
    ensures
        v@ == hex_bytes(bytes@),
{
    let mut v: Vec<char> = Vec::new();
    let n = bytes.len();
    for i in 0..n
        invariant
            n == bytes@.len(),
            v@ == hex_bytes(bytes@.take(i as int)),
    {
        let b = bytes[i];
        assert(bytes@.take(i + 1).drop_last() =~= bytes@.take(i as int));
        v.push(hex_digit_char((b / 16) as u32));
        v.push(hex_digit_char((b % 16) as u32));
        assert(v@ =~= hex_bytes(bytes@.take(i + 1)));
    }
    assert(bytes@.take(n as int) =~= bytes@);
    v
}

/// A string holding exactly the given characters.
pub fn string_from_chars(chars: &Vec<char>) -> (s: String)
    ensures
        s@ == chars@,
{
    let mut s = String::new();
    let n = chars.len();
    for i in 0..n
        invariant
            n == chars@.len(),
            s@ == chars@.take(i as int),
    {
        push_char(&mut s, chars[i]);
        assert(s@ =~= chars@.take(i + 1));
    }
    assert(chars@.take(n as int) =~= chars@);
    s
}

/// Whether the characters start with `count` zero digits.
pub fn chars_have_zero_prefix(chars: &Vec<char>, count: usize) -> (b: bool)
    ensures
        b == has_zero_prefix(chars@, count as nat),
{
    if count > chars.len() {
        return false;
    }
    for i in 0..count
        invariant
            count <= chars@.len(),
            forall|j: int| 0 <= j < i ==> chars@[j] == '0',
    {
        if chars[i] != '0' {
            return false;
        }
    }
    true
}

/// Two hexadecimal digits per byte.
pub proof fn lemma_hex_bytes_len(b: Seq<u8>)
    ensures
        hex_bytes(b).len() == 2 * b.len(),
    decreases b.len(),
{
    if b.len() > 0 {
        lemma_hex_bytes_len(b.drop_last());
    }
}


/// Whether a character is a decimal digit `0`..`9`.
pub open spec fn is_decimal_digit(c: char) -> bool {
    48 <= (c as u32) && (c as u32) <= 57
}

/// The number a sequence of decimal digit characters denotes.
pub open spec fn decimal_value(s: Seq<char>) -> int
    decreases s.len(),
{
    if s.len() == 0 {
        0
    } else {
        decimal_value(s.drop_last()) * 10 + ((s.last() as u32) as int - 48)
    }
}

/// `decimal(n)` is the base-10 numeral of `n`: a non-empty run of decimal
/// digits, without a leading zero unless `n` is zero, that reads back as `n`.
pub proof fn lemma_decimal_is_numeral(n: nat)
    ensures
        decimal(n).len() > 0,
        forall|i: int| 0 <= i < decimal(n).len() ==> is_decimal_digit(#[trigger] decimal(n)[i]),
        decimal_value(decimal(n)) == n,
        decimal(n)[0] == '0' ==> n == 0,
    decreases n,
{
    if n < 10 {
        let c = ((n + 48) as u8) as char;
        assert((c as u32) == n + 48);
        assert(decimal(n).drop_last() =~= Seq::<char>::empty());
        assert(decimal_value(decimal(n)) == decimal_value(Seq::<char>::empty()) * 10 + ((c as u32) as int - 48));
    } else {
        lemma_decimal_is_numeral(n / 10);
        let p = decimal(n / 10);
        let c = (((n % 10) + 48) as u8) as char;
        assert(decimal(n) == p.push(c));
        assert(p.push(c).drop_last() =~= p);
        assert(p.push(c)[0] == p[0]);
        assert((c as u32) == (n % 10) + 48);
        assert(decimal_value(decimal(n)) == decimal_value(p) * 10 + ((c as u32) as int - 48));
        assert forall|i: int| 0 <= i < decimal(n).len() implies is_decimal_digit(
            #[trigger] decimal(n)[i],
        ) by {
            if i < p.len() {
                assert(decimal(n)[i] == p[i]);
            }
        }
    }
}

/// Whether a character is a lowercase hexadecimal digit.
pub open spec fn is_hex_digit(c: char) -> bool {
    (48 <= (c as u32) && (c as u32) <= 57) || (97 <= (c as u32) && (c as u32) <= 102)
}

/// The value of a lowercase hexadecimal digit character.
pub open spec fn hex_digit_value(c: char) -> int {
    if (c as u32) <= 57 {
        (c as u32) as int - 48
    } else {
        (c as u32) as int - 87
    }
}

/// `hex_digit(n)` is the lowercase hexadecimal digit whose value is `n`.
pub proof fn lemma_hex_digit_reads_back(n: int)
    requires
        0 <= n < 16,
    ensures
        is_hex_digit(hex_digit(n)),
        hex_digit_value(hex_digit(n)) == n,
{
}

/// `hex_bytes(b)` gives each byte as two lowercase hexadecimal digits, high
/// nibble first, that read back as the byte.
pub proof fn lemma_hex_bytes_reads_back(b: Seq<u8>)
    ensures
        hex_bytes(b).len() == 2 * b.len(),
        forall|i: int|
            0 <= i < b.len() ==> {
                &&& is_hex_digit(#[trigger] hex_bytes(b)[2 * i])
                &&& is_hex_digit(hex_bytes(b)[2 * i + 1])
                &&& hex_digit_value(hex_bytes(b)[2 * i]) * 16 + hex_digit_value(
                    hex_bytes(b)[2 * i + 1],
                ) == b[i] as int
            },
    decreases b.len(),
{
    if b.len() > 0 {
        let p = b.drop_last();
        lemma_hex_bytes_reads_back(p);
        let last = b.last();
        lemma_hex_digit_reads_back(last as int / 16);
        lemma_hex_digit_reads_back(last as int % 16);
        let h = hex_bytes(b);
        assert(h == hex_bytes(p) + seq![hex_digit(last as int / 16), hex_digit(last as int % 16)]);
        assert forall|i: int| 0 <= i < b.len() implies {
            &&& is_hex_digit(#[trigger] hex_bytes(b)[2 * i])
            &&& is_hex_digit(hex_bytes(b)[2 * i + 1])
            &&& hex_digit_value(hex_bytes(b)[2 * i]) * 16 + hex_digit_value(hex_bytes(b)[2 * i + 1])
                == b[i] as int
        } by {
            if i < p.len() {
                assert(h[2 * i] == hex_bytes(p)[2 * i]);
                assert(h[2 * i + 1] == hex_bytes(p)[2 * i + 1]);
                assert(b[i] == p[i]);
                assert(is_hex_digit(hex_bytes(p)[2 * i]));
            } else {
                assert(i == p.len());
                assert(h[2 * i] == hex_digit(last as int / 16));
                assert(h[2 * i + 1] == hex_digit(last as int % 16));
            }
        }
    }
}

/// A text has a zero prefix of length `count` exactly when it is at least
/// that long and its first `count` characters are all `0`; what follows
/// them does not matter.
pub proof fn lemma_zero_prefix_meaning(s: Seq<char>, t: Seq<char>, count: nat)
    ensures
        has_zero_prefix(s, count) <==> (count <= s.len() && forall|i: int|
            0 <= i < count ==> s[i] == '0'),
        has_zero_prefix(s, count) ==> has_zero_prefix(s + t, count),
        count <= s.len() ==> (has_zero_prefix(s + t, count) <==> has_zero_prefix(s, count)),
{
    if count <= s.len() {
        assert forall|i: int| 0 <= i < count implies (s + t)[i] == s[i] by {}
    }
}

/// A zero prefix of some length contains every shorter zero prefix.
pub proof fn lemma_zero_prefix_monotone(s: Seq<char>, longer: nat, shorter: nat)
    requires
        shorter <= longer,
        has_zero_prefix(s, longer),
    ensures
        has_zero_prefix(s, shorter),
{
}

/// A character that needs no escape stands for itself.
pub proof fn lemma_json_escape_plain_char(c: char)
    requires
        c != '"',
        c != '\\',
        (c as u32) >= 0x20,
    ensures
        json_escape_char(c) == seq![c],
{
}

/// Escaping a quote, a backslash or a control character gives a backslash
/// and then either one of the letters `"`, `\\`, `b`, `t`, `n`, `f`, `r`, or
/// `u00` and two hexadecimal digits whose value is the character's code;
/// the escape contains no control character.
pub proof fn lemma_json_escape_special_char(c: char)
    requires
        c == '"' || c == '\\' || (c as u32) < 0x20,
    ensures
        json_escape_char(c).len() >= 2,
        json_escape_char(c)[0] == '\\',
        forall|i: int|
            0 <= i < json_escape_char(c).len() ==> (#[trigger] json_escape_char(c)[i] as u32)
                >= 0x20,
        c == '"' ==> json_escape_char(c) == seq!['\\', '"'],
        c == '\\' ==> json_escape_char(c) == seq!['\\', '\\'],
        c == '\u{8}' ==> json_escape_char(c) == seq!['\\', 'b'],
        c == '\t' ==> json_escape_char(c) == seq!['\\', 't'],
        c == '\n' ==> json_escape_char(c) == seq!['\\', 'n'],
        c == '\u{c}' ==> json_escape_char(c) == seq!['\\', 'f'],
        c == '\r' ==> json_escape_char(c) == seq!['\\', 'r'],
        (c as u32) < 0x20 && c != '\u{8}' && c != '\t' && c != '\n' && c != '\u{c}' && c != '\r'
            ==> {
            let e = json_escape_char(c);
            &&& e.len() == 6
            &&& e[1] == 'u' && e[2] == '0' && e[3] == '0'
            &&& is_hex_digit(e[4]) && is_hex_digit(e[5])
            &&& hex_digit_value(e[4]) * 16 + hex_digit_value(e[5]) == c as u32
        },
{
    if (c as u32) < 0x20 && c != '\u{8}' && c != '\t' && c != '\n' && c != '\u{c}' && c != '\r' {
        lemma_hex_digit_reads_back((c as u32) as int / 16);
        lemma_hex_digit_reads_back((c as u32) as int % 16);
    }
}

/// Escaping works character by character: the escape of a concatenation is
/// the concatenation of the escapes.
pub proof fn lemma_json_escape_concat(s: Seq<char>, t: Seq<char>)
    ensures
        json_escape(s + t) == json_escape(s) + json_escape(t),
    decreases t.len(),
{
    if t.len() == 0 {
        assert(s + t =~= s);
        assert(json_escape(s) + json_escape(t) =~= json_escape(s));
    } else {
        lemma_json_escape_concat(s, t.drop_last());
        assert((s + t).drop_last() =~= s + t.drop_last());
        assert((s + t).last() == t.last());
        assert(json_escape(s + t) =~= json_escape(s) + json_escape(t));
    }
}

/// An escaped text holds no control character.
pub proof fn lemma_json_escape_has_no_control_chars(s: Seq<char>)
    ensures
        forall|i: int| 0 <= i < json_escape(s).len() ==> (#[trigger] json_escape(s)[i] as u32) >= 0x20,
    decreases s.len(),
{
    if s.len() > 0 {
        lemma_json_escape_has_no_control_chars(s.drop_last());
        let c = s.last();
        if c == '"' || c == '\\' || (c as u32) < 0x20 {
            lemma_json_escape_special_char(c);
        }
        let a = json_escape(s.drop_last());
        let e = json_escape_char(c);
        assert forall|i: int| 0 <= i < json_escape(s).len() implies (#[trigger] json_escape(s)[i]
            as u32) >= 0x20 by {
            if i < a.len() {
                assert(json_escape(s)[i] == a[i]);
            } else {
                assert(json_escape(s)[i] == e[i - a.len()]);
            }
        }
    }
}

} // verus!
