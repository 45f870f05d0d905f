//! Text handling shared by the other modules: comparing, trimming and
//! case-folding lines, and reading decimal numbers.

use vstd::prelude::*;
use vstd::string::{is_ascii_spec_bytes, StrSliceExecFns, StringSliceAdditionalSpecFns};

verus! {

/// Whether `c` is white space, as `char::is_whitespace` tells it: whether
/// it has the Unicode property White_Space.
pub uninterp spec fn white_space(c: char) -> bool;

/// The lower-case form of a text, as `str::to_lowercase` produces it.
pub uninterp spec fn lowercased(s: Seq<char>) -> Seq<char>;

/// `s` without the white space at its start.
pub open spec fn trimmed_start(s: Seq<char>) -> Seq<char>
    decreases s.len(),
{
    if s.len() > 0 && white_space(s[0]) {
        trimmed_start(s.drop_first())
    } else {
        s
    }
}

/// `s` without the white space at its end.
pub open spec fn trimmed_end(s: Seq<char>) -> Seq<char>
    decreases s.len(),
{
    if s.len() > 0 && white_space(s.last()) {
        trimmed_end(s.drop_last())
    } else {
        s
    }
}

/// `s` without the white space at its start and at its end.
pub open spec fn trimmed(s: Seq<char>) -> Seq<char> {
    trimmed_end(trimmed_start(s))
}

/// Calls `char::is_whitespace`. The contract only names the result: whether
/// the character has the Unicode property White_Space, which depends on
/// nothing but the character.
#[verifier::external_body]
fn is_whitespace(c: char) -> (r: bool)
    ensures
        r == white_space(c),
{
    c.is_whitespace()
}

/// What is left of `s` without the white space at its start begins where
/// the first other character stands.
proof fn lemma_trimmed_start(s: Seq<char>, start: int)
    requires
        0 <= start <= s.len(),
        forall|i: int| 0 <= i < start ==> white_space(#[trigger] s[i]),
        start < s.len() ==> !white_space(s[start]),
    ensures
        trimmed_start(s) == s.subrange(start, s.len() as int),
    decreases start,
{
    if start > 0 {
        let rest = s.drop_first();
        assert(white_space(s[0]));
        assert forall|i: int| 0 <= i < start - 1 implies white_space(#[trigger] rest[i]) by {
            assert(rest[i] == s[i + 1]);
        }
        lemma_trimmed_start(rest, start - 1);
        assert(rest.subrange(start - 1, rest.len() as int) =~= s.subrange(start, s.len() as int));
    } else {
        assert(s.subrange(0, s.len() as int) =~= s);
    }
}

/// What is left of `s` without the white space at its end stops behind the
/// last other character.
proof fn lemma_trimmed_end(s: Seq<char>, end: int)
    requires
        0 <= end <= s.len(),
        forall|i: int| end <= i < s.len() ==> white_space(#[trigger] s[i]),
        end > 0 ==> !white_space(s[end - 1]),
    ensures
        trimmed_end(s) == s.subrange(0, end),
    decreases s.len() - end,
{
    if end < s.len() {
        let rest = s.drop_last();
        assert(white_space(s.last()));
        lemma_trimmed_end(rest, end);
        assert(rest.subrange(0, end) =~= s.subrange(0, end));
    } else {
        assert(s.subrange(0, end) =~= s);
    }
}

/// The text without the white space at its start and at its end.
pub fn trim(s: &str) -> (r: &str)
    ensures
        r@ == trimmed(s@),
{
    let total = s.unicode_len();
    let mut start: usize = 0;
    let mut end: usize = 0;
    let mut index: usize = 0;
    for c in it: s.chars()
        invariant
            it.seq() == s@,
            index == it.index(),
            total == s@.len(),
            start <= index <= total,
            forall|i: int| 0 <= i < start ==> white_space(#[trigger] s@[i]),
            start < index ==> !white_space(s@[start as int]) && start < end <= index
                && !white_space(s@[end - 1]),
            start == index ==> end == 0,
            forall|i: int| start <= i < index && end <= i ==> white_space(#[trigger] s@[i]),
    {
        if !is_whitespace(c) {
            end = index + 1;
        } else if start == index {
            start += 1;
        }
        index += 1;
    }
    if end < start {
        end = start;
    }
    proof {
        let rest = s@.subrange(start as int, s@.len() as int);
        lemma_trimmed_start(s@, start as int);
        assert forall|i: int| end - start <= i < rest.len() implies white_space(
            #[trigger] rest[i],
        ) by {
            assert(rest[i] == s@[i + start]);
        }
        lemma_trimmed_end(rest, end - start);
        assert(rest.subrange(0, end - start) =~= s@.subrange(start as int, end as int));
    }
    s.substring_char(start, end)
}

/// Calls `str::to_lowercase`. The contract only names the result: it is the
/// lower-case form of the input, which depends on nothing else.
#[verifier::external_body]
pub(crate) fn to_lowercase(s: &str) -> (r: String)
    ensures
        r@ == lowercased(s@),
{
    s.to_lowercase()
}

/// Calls `==` on two string slices. The contract says that the result tells
/// whether both hold the same characters.
#[verifier::external_body]
pub(crate) fn same_text(a: &str, b: &str) -> (r: bool)
    ensures
        r == (a@ == b@),
{
    a == b
}

/// Whether `a` comes before `b` when both are compared character by
/// character, by code point, a proper prefix coming first.
pub open spec fn lex_less(a: Seq<char>, b: Seq<char>) -> bool
    decreases a.len(),
{
    if b.len() == 0 {
        false
    } else if a.len() == 0 {
        true
    } else if a[0] == b[0] {
        lex_less(a.drop_first(), b.drop_first())
    } else {
        a[0] < b[0]
    }
}

/// Calls `<` on two string slices. The contract says that the result is
/// the lexicographic order of the two texts by code point, which is how the
/// standard library orders strings.
#[verifier::external_body]
pub(crate) fn text_before(a: &str, b: &str) -> (r: bool)
    ensures
        r == lex_less(a@, b@),
{
    a < b
}

/// Of two texts, at most one comes before the other.
pub proof fn lemma_lex_asymmetric(a: Seq<char>, b: Seq<char>)
    ensures
        !(lex_less(a, b) && lex_less(b, a)),
    decreases a.len(),
{
    if a.len() > 0 && b.len() > 0 && a[0] == b[0] {
        lemma_lex_asymmetric(a.drop_first(), b.drop_first());
    }
}

/// "Does not come after" is transitive.
pub proof fn lemma_lex_transitive(a: Seq<char>, b: Seq<char>, c: Seq<char>)
    requires
        !lex_less(b, a),
        !lex_less(c, b),
    ensures
        !lex_less(c, a),
    decreases a.len(),
{
    if a.len() > 0 && b.len() > 0 && c.len() > 0 {
        if a[0] == b[0] && b[0] == c[0] {
            lemma_lex_transitive(a.drop_first(), b.drop_first(), c.drop_first());
        }
    }
}

/// Whether a typed answer means yes: after trimming and case-folding it
/// reads `y`.
pub open spec fn affirmative(line: Seq<char>) -> bool {
    lowercased(trimmed(line)) == "y"@
}

/// Whether a trimmed, case-folded answer means yes.
pub fn is_yes(folded: &str) -> (yes: bool)
    ensures
        yes == (folded@ == "y"@),
{
    same_text(folded, "y")
}

/// Whether a line typed by the user means yes.
pub fn is_affirmative(line: &str) -> (yes: bool)
    ensures
        yes == affirmative(line@),
{
    let folded = to_lowercase(trim(line));
    is_yes(folded.as_str())
}

/// Whether `c` is one of the ten decimal digits.
pub open spec fn is_digit(c: char) -> bool {
    '0' <= c <= '9'
}

/// The number that a decimal digit stands for.
pub open spec fn digit_value(c: char) -> nat {
    (c as u32 - 48) as nat
}

/// The number that a run of decimal digits stands for.
pub open spec fn digits_value(digits: Seq<char>) -> nat
    decreases digits.len(),
{
    if digits.len() == 0 {
        0
    } else {
        digits_value(digits.drop_last()) * 10 + digit_value(digits.last())
    }
}

/// A run of at least one decimal digit.
pub open spec fn is_number(digits: Seq<char>) -> bool {
    digits.len() > 0 && forall|i: int| 0 <= i < digits.len() ==> is_digit(#[trigger] digits[i])
}

/// The unsigned number written in `text`: an optional `+`, then decimal
/// digits and nothing else, with a value that fits. `None` for any other
/// text.
pub open spec fn decimal_u64(text: Seq<char>) -> Option<u64> {
    let digits = if text.len() > 0 && text[0] == '+' {
        text.drop_first()
    } else {
        text
    };
    if is_number(digits) && digits_value(digits) <= u64::MAX {
        Some(digits_value(digits) as u64)
    } else {
        None
    }
}

/// The signed number written in `text`: an optional `+` or `-`, then
/// decimal digits and nothing else, with a value that fits. `None` for any
/// other text.
pub open spec fn decimal_i32(text: Seq<char>) -> Option<i32> {
    let digits = if text.len() > 0 && (text[0] == '+' || text[0] == '-') {
        text.drop_first()
    } else {
        text
    };
    let value = if text.len() > 0 && text[0] == '-' {
        -(digits_value(digits) as int)
    } else {
        digits_value(digits) as int
    };
    if is_number(digits) && i32::MIN <= value <= i32::MAX {
        Some(value as i32)
    } else {
        None
    }
}

/// A run of digits is worth at least as much as any of its prefixes.
proof fn lemma_digits_value_grows(digits: Seq<char>, k: int)
    requires
        0 <= k <= digits.len(),
    ensures
        digits_value(digits.subrange(0, k)) <= digits_value(digits),
    decreases digits.len(),
{
    if k == digits.len() {
        assert(digits.subrange(0, k) =~= digits);
    } else {
        lemma_digits_value_grows(digits.drop_last(), k);
        assert(digits.drop_last().subrange(0, k) =~= digits.subrange(0, k));
    }
}

/// The number that the bytes from `start` on spell in decimal digits, when
/// there is at least one byte, each is a digit, and the number is at most
/// `limit`. The bytes are those of the ASCII text `text`.
fn read_digits(bytes: &[u8], start: usize, limit: u64, Ghost(text): Ghost<Seq<char>>) -> (value:
    Option<u64>)
    requires
        start <= bytes@.len(),
        limit >= 9,
        bytes@.len() == text.len(),
        forall|i: int| 0 <= i < bytes@.len() ==> #[trigger] bytes@[i] == text[i] as u8,
        forall|i: int| 0 <= i < text.len() ==> '\0' <= #[trigger] text[i] <= '\u{7f}',
    ensures
        value == (if is_number(text.subrange(start as int, text.len() as int)) && digits_value(
            text.subrange(start as int, text.len() as int),
        ) <= limit {
            Some(digits_value(text.subrange(start as int, text.len() as int)) as u64)
        } else {
            None
        }),
{
    let ghost digits = text.subrange(start as int, text.len() as int);
    if start == bytes.len() {
        return None;
    }
    let mut value: u64 = 0;
    let mut at: usize = start;
    while at < bytes.len()
        invariant
            start <= at <= bytes@.len(),
            limit >= 9,
            bytes@.len() == text.len(),
            digits == text.subrange(start as int, text.len() as int),
            forall|i: int| 0 <= i < bytes@.len() ==> #[trigger] bytes@[i] == text[i] as u8,
            forall|i: int| 0 <= i < text.len() ==> '\0' <= #[trigger] text[i] <= '\u{7f}',
            forall|i: int| 0 <= i < at - start ==> is_digit(#[trigger] digits[i]),
            value == digits_value(digits.subrange(0, at - start)),
            value <= limit,
        decreases bytes@.len() - at,
    {
        let byte = bytes[at];
        assert(digits[at - start] == text[at as int]);
        if byte < 48 || byte > 57 {
            // Not a digit: the text is no number.
            return None;
        }
        let digit: u64 = (byte - 48) as u64;
        let ghost longer = digits.subrange(0, at - start + 1);
        assert(longer.drop_last() =~= digits.subrange(0, at - start));
        if value > (limit - digit) / 10 {
            // The digits so far are worth more than the limit, and so are all of them.
            proof {
                lemma_digits_value_grows(digits, at - start + 1);
            }
            return None;
        }
        value = value * 10 + digit;
        at += 1;
    }
    assert(digits.subrange(0, digits.len() as int) =~= digits);
    Some(value)
}

/// A text with a character outside ASCII holds no decimal number.
proof fn lemma_not_ascii_not_number(text: Seq<char>, i: int)
    requires
        0 <= i < text.len(),
        !('\0' <= text[i] <= '\u{7f}'),
    ensures
        decimal_u64(text) is None,
        decimal_i32(text) is None,
{
    if i > 0 {
        assert(text.drop_first()[i - 1] == text[i]);
    }
}

/// The unsigned decimal number written in `text`, if it is one.
pub fn parse_u64(text: &str) -> (number: Option<u64>)
    ensures
        number == decimal_u64(text@),
{
    if !text.is_ascii() {
        proof {
            let i = choose|i: int|
                0 <= i < text@.len() && !('\0' <= #[trigger] text@[i] <= '\u{7f}');
            lemma_not_ascii_not_number(text@, i);
        }
        return None;
    }
    let bytes = text.as_bytes();
    proof {
        is_ascii_spec_bytes(text);
    }
    let start: usize = if bytes.len() > 0 && bytes[0] == 43 {
        1
    } else {
        0
    };
    assert(text@.subrange(0, text@.len() as int) =~= text@);
    read_digits(bytes, start, u64::MAX, Ghost(text@))
}

/// The signed decimal number written in `text`, if it is one.
pub fn parse_i32(text: &str) -> (number: Option<i32>)
    ensures
        number == decimal_i32(text@),
{
    if !text.is_ascii() {
        proof {
            let i = choose|i: int|
                0 <= i < text@.len() && !('\0' <= #[trigger] text@[i] <= '\u{7f}');
            lemma_not_ascii_not_number(text@, i);
        }
        return None;
    }
    let bytes = text.as_bytes();
    proof {
        is_ascii_spec_bytes(text);
    }
    let negative = bytes.len() > 0 && bytes[0] == 45;
    let start: usize = if bytes.len() > 0 && (bytes[0] == 43 || bytes[0] == 45) {
        1
    } else {
        0
    };
    assert(text@.subrange(0, text@.len() as int) =~= text@);
    if negative {
        match read_digits(bytes, start, 2147483648, Ghost(text@)) {
            Some(magnitude) => Some((-(magnitude as i64)) as i32),
            None => None,
        }
    } else {
        match read_digits(bytes, start, 2147483647, Ghost(text@)) {
            Some(magnitude) => Some(magnitude as i32),
            None => None,
        }
    }
}

} // verus!
