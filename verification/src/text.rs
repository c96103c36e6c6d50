//! Text helpers shared by the rest of the library: case folding, digits,
//! hexadecimal dumps and best-effort decoding of received bytes.

use vstd::prelude::*;

verus! {

/// The lower-case form of an ASCII letter; every other character stays as it is.
pub open spec fn ascii_lower(c: char) -> char {
    if 'A' <= c && c <= 'Z' {
        ((c as u8) + 32) as char
    } else {
        c
    }
}

/// A string with each ASCII upper-case letter replaced by its lower-case form.
pub open spec fn ascii_lowercase(s: Seq<char>) -> Seq<char> {
    Seq::new(s.len(), |i: int| ascii_lower(s[i]))
}

/// The character that stands for a digit below sixteen, letters in upper case.
pub open spec fn digit_char(d: int) -> char {
    if 0 <= d < 10 {
        (48 + d) as char
    } else if 10 <= d < 16 {
        (55 + d) as char
    } else {
        '?'
    }
}

/// The decimal notation of a number, without leading zeros.
pub open spec fn decimal(n: nat) -> Seq<char>
    decreases n,
{
    if n < 10 {
        seq![digit_char(n as int)]
    } else {
        decimal(n / 10).push(digit_char((n % 10) as int))
    }
}

/// The two hexadecimal digits of a byte, high nibble first.
pub open spec fn hex_pair(b: u8) -> Seq<char> {
    seq![digit_char(b as int / 16), digit_char(b as int % 16)]
}

/// The hexadecimal dump of a byte string: two digits per byte, bytes separated
/// by one space.
pub open spec fn hex_dump(bytes: Seq<u8>) -> Seq<char>
    decreases bytes.len(),
{
    if bytes.len() == 0 {
        Seq::empty()
    } else if bytes.len() == 1 {
        hex_pair(bytes[0])
    } else {
        hex_dump(bytes.drop_last()) + seq![' '] + hex_pair(bytes.last())
    }
}

/// The text that lossy UTF-8 decoding makes of a byte string.
pub uninterp spec fn lossy_utf8(bytes: Seq<u8>) -> Seq<char>;

/// Calls `String::from_utf8_lossy` and takes ownership of what it returns.
/// The result is named `lossy_utf8`; for bytes that are valid UTF-8 it is
/// their decoding, as std documents.
#[verifier::external_body]
pub(crate) fn decode_lossy(bytes: &[u8]) -> (r: String)
    ensures
        r@ == lossy_utf8(bytes@),
        vstd::utf8::valid_utf8(bytes@) ==> r@ == vstd::utf8::decode_utf8(bytes@),
{
    String::from_utf8_lossy(bytes).into_owned()
}

/// The characters of `s`, ASCII letters in lower case.
pub fn to_ascii_lowercase(s: &str) -> (r: Vec<char>)
    ensures
        r@ == ascii_lowercase(s@),
{
    let mut lowered: Vec<char> = Vec::new();
    for c in it: s.chars()
        invariant
            it.seq() == s@,
            lowered@ == ascii_lowercase(s@.take(it.index() as int)),
    {
        let d: char = if 'A' <= c && c <= 'Z' {
            ((c as u8) + 32u8) as char
        } else {
            c
        };
        lowered.push(d);
        assert(s@.take(it.index() + 1).drop_last() == s@.take(it.index() as int));
    }
    assert(s@.take(s@.len() as int) == s@);
    lowered
}

/// Whether `chars` spells exactly `word`.
pub fn spells(chars: &Vec<char>, word: &str) -> (r: bool)
    ensures
        r == (chars@ == word@),
{
    if word.unicode_len() != chars.len() {
        return false;
    }
    let mut i: usize = 0;
    while i < chars.len()
        invariant
            i <= chars.len(),
            chars.len() == word@.len(),
            chars@.take(i as int) == word@.take(i as int),
        decreases chars.len() - i,
    {
        if chars[i] != word.get_char(i) {
            return false;
        }
        assert(chars@.take(i + 1) == chars@.take(i as int).push(chars@[i as int]));
        assert(word@.take(i + 1) == word@.take(i as int).push(word@[i as int]));
        i = i + 1;
    }
    assert(chars@.take(chars.len() as int) == chars@);
    assert(word@.take(chars.len() as int) == word@);
    true
}

/// The one-character string of a digit below sixteen.
fn digit_str(d: u8) -> (r: &'static str)
    requires
        d < 16,
    ensures
        r@ == seq![digit_char(d as int)],
{
    proof {
        reveal_strlit("0");
        reveal_strlit("1");
        reveal_strlit("2");
        reveal_strlit("3");
        reveal_strlit("4");
        reveal_strlit("5");
        reveal_strlit("6");
        reveal_strlit("7");
        reveal_strlit("8");
        reveal_strlit("9");
        reveal_strlit("A");
        reveal_strlit("B");
        reveal_strlit("C");
        reveal_strlit("D");
        reveal_strlit("E");
        reveal_strlit("F");
    }
    let r = match d {
        0 => "0",
        1 => "1",
        2 => "2",
        3 => "3",
        4 => "4",
        5 => "5",
        6 => "6",
        7 => "7",
        8 => "8",
        9 => "9",
        10 => "A",
        11 => "B",
        12 => "C",
        13 => "D",
        14 => "E",
        _ => "F",
    };
    assert(r@ =~= seq![digit_char(d as int)]);
    r
}

/// Appends the decimal notation of `n` to `out`.
pub fn push_decimal(out: &mut String, n: u32)
    ensures
        final(out)@ == old(out)@ + decimal(n as nat),
    decreases n,
{
    if n >= 10 {
        push_decimal(out, n / 10);
    }
    out.append(digit_str((n % 10) as u8));
}

/// The decimal notation of `n`.
pub fn format_decimal(n: u32) -> (r: String)
    ensures
        r@ == decimal(n as nat),
{
    let mut out = String::new();
    push_decimal(&mut out, n);
    out
}

/// The hexadecimal dump of `bytes`.
pub fn hex_encode(bytes: &[u8]) -> (r: String)
    ensures
        r@ == hex_dump(bytes@),
{
    let mut out = String::new();
    let mut i: usize = 0;
    while i < bytes.len()
        invariant
            i <= bytes.len(),
            out@ == hex_dump(bytes@.take(i as int)),
        decreases bytes.len() - i,
    {
        let b: u8 = bytes[i];
        if i > 0 {
            proof {
                reveal_strlit(" ");
            }
            out.append(" ");
        }
        out.append(digit_str(b / 16));
        out.append(digit_str(b % 16));
        proof {
            let prefix = bytes@.take(i + 1);
            assert(prefix.drop_last() == bytes@.take(i as int));
            assert(prefix.last() == b);
            assert(" "@ =~= seq![' ']) by {
                reveal_strlit(" ");
            }
            assert(seq![digit_char(b as int / 16)] + seq![digit_char(b as int % 16)]
                =~= hex_pair(b));
        }
        i = i + 1;
    }
    assert(bytes@.take(bytes.len() as int) == bytes@);
    out
}

/// The number that a character stands for as a decimal digit.
pub open spec fn digit_value(c: char) -> nat {
    if '0' <= c && c <= '9' {
        (c as u8 - 48) as nat
    } else {
        0
    }
}

/// The number that a string of decimal digits stands for.
pub open spec fn decimal_value(digits: Seq<char>) -> nat
    decreases digits.len(),
{
    if digits.len() == 0 {
        0
    } else {
        decimal_value(digits.drop_last()) * 10 + digit_value(digits.last())
    }
}

/// The decimal notation of a number consists of decimal digits, stands for
/// that number, and starts with `0` only for zero itself.
pub proof fn law_decimal_reads_back(n: nat)
    ensures
        decimal(n).len() >= 1,
        forall|i: int| 0 <= i < decimal(n).len() ==> '0' <= #[trigger] decimal(n)[i] <= '9',
        decimal_value(decimal(n)) == n,
        decimal(n)[0] == '0' <==> n == 0,
    decreases n,
{
    if n < 10 {
        assert(decimal(n).drop_last() =~= Seq::<char>::empty());
        assert(decimal_value(decimal(n).drop_last()) == 0);
    } else {
        law_decimal_reads_back(n / 10);
        let head = decimal(n / 10);
        let last = digit_char((n % 10) as int);
        assert(decimal(n) == head.push(last));
        assert(decimal(n).drop_last() =~= head);
        assert(decimal(n).last() == last);
        assert(decimal(n)[0] == head[0]);
    }
}

/// The dump of `n` bytes is empty for none and `3 * n - 1` characters long
/// otherwise: at `3 * i` and `3 * i + 1` stand the high and the low digit of
/// byte `i`, and one space follows every byte but the last.
pub proof fn law_hex_dump_layout(bytes: Seq<u8>)
    ensures
        bytes.len() == 0 ==> hex_dump(bytes).len() == 0,
        bytes.len() > 0 ==> hex_dump(bytes).len() == 3 * bytes.len() - 1,
        forall|i: int|
            0 <= i < bytes.len() ==> hex_dump(bytes)[3 * i] == digit_char(
                (#[trigger] bytes[i]) as int / 16,
            ) && hex_dump(bytes)[3 * i + 1] == digit_char(bytes[i] as int % 16) && (i + 1
                < bytes.len() ==> hex_dump(bytes)[3 * i + 2] == ' '),
    decreases bytes.len(),
{
    if bytes.len() >= 2 {
        let head = bytes.drop_last();
        law_hex_dump_layout(head);
        let dump = hex_dump(bytes);
        assert(dump == hex_dump(head) + seq![' '] + hex_pair(bytes.last()));
        assert forall|i: int| 0 <= i < bytes.len() implies dump[3 * i] == digit_char(
            (#[trigger] bytes[i]) as int / 16,
        ) && dump[3 * i + 1] == digit_char(bytes[i] as int % 16) && (i + 1 < bytes.len()
            ==> dump[3 * i + 2] == ' ') by {
            if i < head.len() {
                assert(head[i] == bytes[i]);
                assert(dump[3 * i] == hex_dump(head)[3 * i]);
                assert(dump[3 * i + 1] == hex_dump(head)[3 * i + 1]);
                if i + 1 < head.len() {
                    assert(dump[3 * i + 2] == hex_dump(head)[3 * i + 2]);
                }
            }
        }
    }
}

} // verus!
