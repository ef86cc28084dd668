//! What holds of trimming, lower case and hexadecimal digits over all texts.

use crate::hex_text::HexError;
use crate::text::{decimal, join2, join3, same_text};
use vstd::prelude::*;

verus! {

/// Every character is whitespace.
pub open spec fn all_whitespace(s: Seq<char>) -> bool {
    forall|i: int| 0 <= i < s.len() ==> crate::text::is_whitespace(#[trigger] s[i])
}

proof fn leading_whitespace_is_dropped(space: Seq<char>, s: Seq<char>)
    requires
        all_whitespace(space),
    ensures
        crate::text::without_leading_whitespace(space + s)
            == crate::text::without_leading_whitespace(s),
    decreases space.len(),
{
    if space.len() == 0 {
        assert(space + s == s);
    } else {
        assert((space + s)[0] == space[0]);
        assert((space + s).drop_first() == space.drop_first() + s);
        leading_whitespace_is_dropped(space.drop_first(), s);
    }
}

proof fn trailing_whitespace_is_dropped(s: Seq<char>, space: Seq<char>)
    requires
        all_whitespace(space),
    ensures
        crate::text::without_trailing_whitespace(s + space)
            == crate::text::without_trailing_whitespace(s),
    decreases space.len(),
{
    if space.len() == 0 {
        assert(s + space == s);
    } else {
        assert((s + space).last() == space.last());
        assert((s + space).drop_last() == s + space.drop_last());
        trailing_whitespace_is_dropped(s, space.drop_last());
    }
}

proof fn dropping_leading_keeps_the_tail(s: Seq<char>, space: Seq<char>)
    requires
        all_whitespace(space),
    ensures
        crate::text::without_trailing_whitespace(
            crate::text::without_leading_whitespace(s + space),
        ) == crate::text::without_trailing_whitespace(crate::text::without_leading_whitespace(s)),
    decreases s.len(),
{
    if s.len() == 0 {
        assert(s + space == space + Seq::<char>::empty());
        leading_whitespace_is_dropped(space, Seq::<char>::empty());
        assert(s == Seq::<char>::empty());
    } else if crate::text::is_whitespace(s[0]) {
        assert((s + space)[0] == s[0]);
        assert((s + space).drop_first() == s.drop_first() + space);
        dropping_leading_keeps_the_tail(s.drop_first(), space);
    } else {
        assert((s + space)[0] == s[0]);
        trailing_whitespace_is_dropped(s, space);
    }
}

/// Trimming leaves out any space around a text.
pub proof fn trimming_drops_space_around(before: Seq<char>, s: Seq<char>, after: Seq<char>)
    requires
        all_whitespace(before),
        all_whitespace(after),
    ensures
        crate::text::trimmed(before + s + after) == crate::text::trimmed(s),
{
    assert(before + s + after == before + (s + after));
    leading_whitespace_is_dropped(before, s + after);
    dropping_leading_keeps_the_tail(s, after);
}

/// A letter in lower case stays as it is, and is no more whitespace than before.
pub proof fn lower_case_letter(c: char)
    ensures
        crate::text::ascii_lower(crate::text::ascii_lower(c)) == crate::text::ascii_lower(c),
        crate::text::is_whitespace(crate::text::ascii_lower(c)) == crate::text::is_whitespace(c),
{
    if 'A' <= c <= 'Z' {
        assert(0x41 <= c as u32 <= 0x5a);
        let lower = (c as u32 + 32) as char;
        assert(lower as u32 == c as u32 + 32);
    }
}

/// Trimming and lower case do not depend on which comes first.
pub proof fn lowercasing_commutes_with_trimming(s: Seq<char>)
    ensures
        crate::text::trimmed(crate::text::ascii_lowercase(s)) == crate::text::ascii_lowercase(
            crate::text::trimmed(s),
        ),
{
    lowercasing_keeps_leading(s);
    lowercasing_keeps_trailing(crate::text::without_leading_whitespace(s));
}

proof fn lowercasing_keeps_leading(s: Seq<char>)
    ensures
        crate::text::without_leading_whitespace(crate::text::ascii_lowercase(s))
            == crate::text::ascii_lowercase(crate::text::without_leading_whitespace(s)),
    decreases s.len(),
{
    let lower = crate::text::ascii_lowercase(s);
    if s.len() > 0 {
        lower_case_letter(s[0]);
        if crate::text::is_whitespace(s[0]) {
            assert(lower.drop_first() == crate::text::ascii_lowercase(s.drop_first()));
            lowercasing_keeps_leading(s.drop_first());
        }
    } else {
        assert(lower == s);
    }
}

proof fn lowercasing_keeps_trailing(s: Seq<char>)
    ensures
        crate::text::without_trailing_whitespace(crate::text::ascii_lowercase(s))
            == crate::text::ascii_lowercase(crate::text::without_trailing_whitespace(s)),
    decreases s.len(),
{
    let lower = crate::text::ascii_lowercase(s);
    if s.len() > 0 {
        lower_case_letter(s.last());
        if crate::text::is_whitespace(s.last()) {
            assert(lower.drop_last() == crate::text::ascii_lowercase(s.drop_last()));
            lowercasing_keeps_trailing(s.drop_last());
        }
    } else {
        assert(lower == s);
    }
}

/// Reading hexadecimal digits has one outcome.
pub proof fn decoding_has_one_outcome(
    text: Seq<u8>,
    a: Result<Seq<u8>, HexError>,
    b: Result<Seq<u8>, HexError>,
)
    requires
        crate::hex_text::decodes_to(text, a),
        crate::hex_text::decodes_to(text, b),
    ensures
        a == b,
{
    match (a, b) {
        (
            Err(HexError::InvalidHexCharacter { index: i, .. }),
            Err(HexError::InvalidHexCharacter { index: j, .. }),
        ) => {
            if i < j {
                assert(crate::hex_text::digit_value(text[i as int]) is Some);
            }
            if j < i {
                assert(crate::hex_text::digit_value(text[j as int]) is Some);
            }
        },
        (Err(HexError::InvalidHexCharacter { index, .. }), Ok(_)) => {
            assert(crate::hex_text::digit_value(text[index as int]) is Some);
        },
        (Ok(_), Err(HexError::InvalidHexCharacter { index, .. })) => {
            assert(crate::hex_text::digit_value(text[index as int]) is Some);
        },
        _ => {},
    }
}

proof fn hex_digit_is_read_back(v: int)
    requires
        0 <= v < 16,
    ensures
        ({
            let c = crate::hex_text::hex_digit(v);
            &&& (c as u32) < 128
            &&& !crate::text::is_whitespace(c)
            &&& crate::hex_text::digit_value(c as u8) == Some(v)
        }),
{
    let c = crate::hex_text::hex_digit(v);
    if v < 10 {
        assert(c as u32 == 0x30 + v);
    } else {
        assert(c as u32 == 0x61 + v - 10);
    }
    assert(c as u8 == c as u32);
}

/// Bytes written in hexadecimal digits are read back as they were.
pub proof fn written_bytes_are_read_back(bytes: Seq<u8>)
    ensures
        crate::hex_text::decodes_to(
            vstd::utf8::encode_utf8(crate::hex_text::hex_digits(bytes)),
            Ok(bytes),
        ),
{
    let digits = crate::hex_text::hex_digits(bytes);
    let text = vstd::utf8::encode_utf8(digits);
    assert forall|i: int| 0 <= i < digits.len() implies (#[trigger] digits[i] as u32) < 128 by {
        hex_digit_is_read_back(bytes[i / 2] as int / 16);
        hex_digit_is_read_back(bytes[i / 2] as int % 16);
    }
    assert(vstd::utf8::is_ascii_chars(digits));
    vstd::utf8::is_ascii_chars_encode_utf8(digits);
    assert forall|i: int| 0 <= i < text.len() implies crate::hex_text::digit_value(
        #[trigger] text[i],
    ) is Some by {
        hex_digit_is_read_back(bytes[i / 2] as int / 16);
        hex_digit_is_read_back(bytes[i / 2] as int % 16);
        assert(text[i] == digits[i] as u8);
    }
    assert(crate::hex_text::bytes_of(text) == bytes) by {
        assert forall|i: int| 0 <= i < bytes.len() implies #[trigger] crate::hex_text::bytes_of(
            text,
        )[i] == bytes[i] by {
            let high = bytes[i] as int / 16;
            let low = bytes[i] as int % 16;
            hex_digit_is_read_back(high);
            hex_digit_is_read_back(low);
            assert((2 * i) / 2 == i && (2 * i) % 2 == 0);
            assert((2 * i + 1) / 2 == i && (2 * i + 1) % 2 == 1);
            assert(text[2 * i] == digits[2 * i] as u8);
            assert(text[2 * i + 1] == digits[2 * i + 1] as u8);
            assert(16 * high + low == bytes[i] as int);
        }
    }
}

/// Space around hexadecimal digits is all that trimming leaves out.
pub proof fn trimming_keeps_digits(before: Seq<char>, bytes: Seq<u8>, after: Seq<char>)
    requires
        all_whitespace(before),
        all_whitespace(after),
    ensures
        crate::text::trimmed(before + crate::hex_text::hex_digits(bytes) + after)
            == crate::hex_text::hex_digits(bytes),
{
    let digits = crate::hex_text::hex_digits(bytes);
    trimming_drops_space_around(before, digits, after);
    if bytes.len() > 0 {
        hex_digit_is_read_back(bytes[0] as int / 16);
        hex_digit_is_read_back(bytes[bytes.len() - 1] as int % 16);
        assert(digits[0] == crate::hex_text::hex_digit(bytes[0] as int / 16));
        assert(digits.last() == crate::hex_text::hex_digit(
            bytes[bytes.len() - 1] as int % 16,
        ));
    }
}

proof fn leading_whitespace_is_a_prefix(s: Seq<char>) -> (from: int)
    ensures
        0 <= from <= s.len(),
        all_whitespace(s.take(from)),
        from < s.len() ==> !crate::text::is_whitespace(s[from]),
        crate::text::without_leading_whitespace(s) == s.skip(from),
    decreases s.len(),
{
    if s.len() > 0 && crate::text::is_whitespace(s[0]) {
        let rest = s.drop_first();
        let n = leading_whitespace_is_a_prefix(rest);
        assert(rest.skip(n) == s.skip(n + 1));
        assert forall|i: int| 0 <= i < n + 1 implies crate::text::is_whitespace(
            #[trigger] s.take(n + 1)[i],
        ) by {
            if i > 0 {
                assert(rest.take(n)[i - 1] == s[i]);
            }
        }
        n + 1
    } else {
        assert(s.skip(0) == s);
        0
    }
}

proof fn trailing_whitespace_is_a_suffix(s: Seq<char>) -> (to: int)
    ensures
        0 <= to <= s.len(),
        all_whitespace(s.skip(to)),
        to > 0 ==> !crate::text::is_whitespace(s[to - 1]),
        crate::text::without_trailing_whitespace(s) == s.take(to),
    decreases s.len(),
{
    if s.len() > 0 && crate::text::is_whitespace(s.last()) {
        let rest = s.drop_last();
        let n = trailing_whitespace_is_a_suffix(rest);
        assert(rest.take(n) == s.take(n));
        assert forall|i: int| 0 <= i < s.skip(n).len() implies crate::text::is_whitespace(
            #[trigger] s.skip(n)[i],
        ) by {
            if i < rest.skip(n).len() {
                assert(rest.skip(n)[i] == s[n + i]);
            }
        }
        n
    } else {
        assert(s.take(s.len() as int) == s);
        s.len() as int
    }
}

/// Trimming leaves exactly what stands between the space in front and the space
/// behind: it drops nothing but space, and leaves none at either end.
pub proof fn trimming_finds_the_core(s: Seq<char>) -> (span: (int, int))
    ensures
        0 <= span.0 <= span.1 <= s.len(),
        crate::text::trimmed(s) == s.subrange(span.0, span.1),
        all_whitespace(s.take(span.0)),
        all_whitespace(s.skip(span.1)),
        span.0 < span.1 ==> !crate::text::is_whitespace(s[span.0])
            && !crate::text::is_whitespace(s[span.1 - 1]),
{
    let from = leading_whitespace_is_a_prefix(s);
    let rest = s.skip(from);
    let n = trailing_whitespace_is_a_suffix(rest);
    assert(rest.take(n) == s.subrange(from, from + n));
    assert(rest.skip(n) == s.skip(from + n));
    (from, from + n)
}

/// A text without space in it is left as it is.
pub proof fn word_is_its_own_core(s: Seq<char>)
    requires
        forall|i: int| 0 <= i < s.len() ==> !crate::text::is_whitespace(#[trigger] s[i]),
    ensures
        crate::text::trimmed(s) == s,
{
}

/// Space is what Unicode calls so: tabs and line ends, the blank, and the spaces of
/// other widths and scripts. No letter, digit or other visible ASCII character is.
pub proof fn space_is_what_unicode_calls_so(c: char)
    ensures
        crate::text::is_whitespace(c) <==> {
            let code = c as u32;
            ||| code == 9 || code == 10 || code == 11 || code == 12 || code == 13
            ||| code == 32 || code == 133 || code == 160 || code == 5760
            ||| code >= 8192 && code <= 8202
            ||| code == 8232 || code == 8233 || code == 8239 || code == 8287 || code == 12288
        },
        33 <= c as u32 <= 126 ==> !crate::text::is_whitespace(c),
{
}

/// Lower case moves the 26 ASCII capitals by 32, and nothing else.
pub proof fn lower_case_moves_capitals_only(s: Seq<char>, i: int)
    requires
        0 <= i < s.len(),
    ensures
        crate::text::ascii_lowercase(s).len() == s.len(),
        65 <= s[i] as u32 <= 90 ==> crate::text::ascii_lowercase(s)[i] as u32 == s[i] as u32 + 32,
        !(65 <= s[i] as u32 <= 90) ==> crate::text::ascii_lowercase(s)[i] == s[i],
{
    if 'A' <= s[i] <= 'Z' {
        let lower = (s[i] as u32 + 32) as char;
        assert(lower as u32 == s[i] as u32 + 32);
    }
}

/// The number that decimal digits stand for.
pub open spec fn value_of(digits: Seq<char>) -> int
    decreases digits.len(),
{
    if digits.len() == 0 {
        0
    } else {
        10 * value_of(digits.drop_last()) + (digits.last() as u32 - 48)
    }
}

/// A number in decimal is written in the digits that stand for it, without a zero in
/// front.
pub proof fn decimal_stands_for_the_number(n: nat)
    ensures
        crate::text::decimal_text(n).len() > 0,
        value_of(crate::text::decimal_text(n)) == n,
        forall|i: int|
            0 <= i < crate::text::decimal_text(n).len() ==> 48 <= (
            #[trigger] crate::text::decimal_text(n)[i]) as u32 <= 57,
        crate::text::decimal_text(n)[0] == '0' ==> n == 0 && crate::text::decimal_text(n).len()
            == 1,
    decreases n,
{
    let text = crate::text::decimal_text(n);
    if n < 10 {
        assert(text.drop_last() == Seq::<char>::empty());
        assert(value_of(Seq::<char>::empty()) == 0);
        digit_stands_for_its_value(n as int);
    } else {
        decimal_stands_for_the_number(n / 10);
        let head = crate::text::decimal_text(n / 10);
        assert(text.drop_last() == head);
        digit_stands_for_its_value((n % 10) as int);
        assert(text[0] == head[0]);
    }
}

proof fn digit_stands_for_its_value(d: int)
    requires
        0 <= d < 10,
    ensures
        crate::text::digit_char(d) as u32 == 48 + d,
{
}

/// Writing a number, joining and comparing texts do what they say.
pub proof fn texts_are_built_as_said(
    n: u64,
    number: String,
    a: &str,
    b: &str,
    c: &str,
    two: String,
    three: String,
    same: bool,
)
    requires
        call_ensures(decimal, (n,), number),
        call_ensures(join2, (a, b), two),
        call_ensures(join3, (a, b, c), three),
        call_ensures(same_text, (a, b), same),
    ensures
        value_of(number@) == n,
        number@ == crate::text::decimal_text(n as nat),
        two@ == a@ + b@,
        three@ == a@ + b@ + c@,
        same <==> a@ == b@,
{
    decimal_stands_for_the_number(n as nat);
}

/// A text without its line ends is what stands in front of them: it drops line ends
/// only, and leaves none behind.
pub proof fn line_ends_behind_are_left_out(s: Seq<char>) -> (to: int)
    ensures
        0 <= to <= s.len(),
        crate::text::without_trailing_newlines(s) == s.take(to),
        forall|i: int| to <= i < s.len() ==> #[trigger] s[i] == '\n',
        to > 0 ==> s[to - 1] != '\n',
    decreases s.len(),
{
    if s.len() > 0 && s.last() == '\n' {
        let rest = s.drop_last();
        let n = line_ends_behind_are_left_out(rest);
        assert(rest.take(n) == s.take(n));
        assert forall|i: int| n <= i < s.len() implies #[trigger] s[i] == '\n' by {
            if i < rest.len() {
                assert(rest[i] == s[i]);
            }
        }
        n
    } else {
        assert(s.take(s.len() as int) == s);
        s.len() as int
    }
}

/// Hexadecimal digits have the values that they stand for, in either case, and
/// nothing else is one.
pub proof fn hexadecimal_digits(b: u8)
    ensures
        crate::hex_text::digit_value(b) == match b as int {
            v if 48 <= v <= 57 => Some(v - 48),
            v if 97 <= v <= 102 => Some(v - 87),
            v if 65 <= v <= 70 => Some(v - 55),
            _ => None,
        },
{
}

/// Bytes are written two digits to a byte, the upper half first, in lower case.
pub proof fn bytes_are_written_in_pairs(bytes: Seq<u8>, i: int)
    requires
        0 <= i < bytes.len(),
    ensures
        ({
            let digits = crate::hex_text::hex_digits(bytes);
            let high = bytes[i] as int / 16;
            let low = bytes[i] as int % 16;
            &&& digits.len() == 2 * bytes.len()
            &&& digits[2 * i] as u32 == high + if high < 10 {
                48int
            } else {
                87
            }
            &&& digits[2 * i + 1] as u32 == low + if low < 10 {
                48int
            } else {
                87
            }
        }),
{
    hex_digit_is_read_back(bytes[i] as int / 16);
    hex_digit_is_read_back(bytes[i] as int % 16);
    assert((2 * i) / 2 == i && (2 * i) % 2 == 0);
    assert((2 * i + 1) / 2 == i && (2 * i + 1) % 2 == 1);
}

} // verus!
