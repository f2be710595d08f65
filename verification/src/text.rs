//! Text as a sequence of characters: searching, replacing and trimming.

use vstd::prelude::*;

verus! {

/// `pattern` stands in `text` at position `at`.
pub open spec fn occurs_at(text: Seq<char>, pattern: Seq<char>, at: int) -> bool {
    &&& 0 <= at
    &&& at + pattern.len() <= text.len()
    &&& text.subrange(at, at + pattern.len()) == pattern
}

/// `pattern` stands somewhere in `text`.
pub open spec fn contains_text(text: Seq<char>, pattern: Seq<char>) -> bool {
    exists|at: int| occurs_at(text, pattern, at)
}

/// `text` with every occurrence of `pattern` replaced by `with`: occurrences
/// are taken from the left and do not overlap.
pub open spec fn replaced(text: Seq<char>, pattern: Seq<char>, with: Seq<char>) -> Seq<char>
    recommends
        pattern.len() > 0,
    decreases text.len(),
{
    if text.len() == 0 || pattern.len() == 0 {
        text
    } else if occurs_at(text, pattern, 0) {
        with + replaced(text.skip(pattern.len() as int), pattern, with)
    } else {
        seq![text[0]] + replaced(text.skip(1), pattern, with)
    }
}

/// The Unicode property `White_Space`.
pub open spec fn is_white_space(c: char) -> bool {
    ||| '\u{9}' <= c <= '\u{d}'
    ||| c == ' '
    ||| c == '\u{85}'
    ||| c == '\u{a0}'
    ||| c == '\u{1680}'
    ||| '\u{2000}' <= c <= '\u{200a}'
    ||| c == '\u{2028}'
    ||| c == '\u{2029}'
    ||| c == '\u{202f}'
    ||| c == '\u{205f}'
    ||| c == '\u{3000}'
}

/// One of the digits `0` to `9`.
pub open spec fn is_digit(c: char) -> bool {
    '0' <= c <= '9'
}

/// `text` without the white space it starts with.
pub open spec fn trimmed_start(text: Seq<char>) -> Seq<char>
    decreases text.len(),
{
    if text.len() > 0 && is_white_space(text[0]) {
        trimmed_start(text.skip(1))
    } else {
        text
    }
}

/// `text` without the white space it ends with.
pub open spec fn trimmed_end(text: Seq<char>) -> Seq<char>
    decreases text.len(),
{
    if text.len() > 0 && is_white_space(text.last()) {
        trimmed_end(text.drop_last())
    } else {
        text
    }
}

/// `text` without the white space around it.
pub open spec fn trimmed(text: Seq<char>) -> Seq<char> {
    trimmed_end(trimmed_start(text))
}

/// The decimal digit that stands for `value`.
pub open spec fn digit_char(value: nat) -> char
    recommends
        value < 10,
{
    ((48 + value) as u8) as char
}

/// `value` in decimal, without leading zeros.
pub open spec fn decimal(value: nat) -> Seq<char>
    decreases value,
{
    if value < 10 {
        seq![digit_char(value)]
    } else {
        decimal(value / 10).push(digit_char(value % 10))
    }
}

/// `text` with `A` to `Z` replaced by `a` to `z`.
pub open spec fn ascii_lowered(text: Seq<char>) -> Seq<char> {
    text.map_values(
        |c: char|
            if 'A' <= c <= 'Z' {
                ((c as u8 + 32) as u8) as char
            } else {
                c
            },
    )
}

/// What `str::to_lowercase` makes of a text.
pub uninterp spec fn lowercase(text: Seq<char>) -> Seq<char>;

/// Appends a character, as `String::push` does.
pub assume_specification[ String::push ](s: &mut String, c: char)
    ensures
        final(s)@ == old(s)@.push(c),
;

/// The characters of `s`.
pub fn chars_of(s: &str) -> (chars: Vec<char>)
    ensures
        chars@ == s@,
{
    let mut chars: Vec<char> = Vec::new();
    for c in it: s.chars()
        invariant
            chars@ == s@.take(it.index() as int),
            it.seq() == s@,
    {
        chars.push(c);
    }
    chars
}

/// The characters `from..to` of `chars` as a string.
pub fn text_of(chars: &Vec<char>, from: usize, to: usize) -> (text: String)
    requires
        from <= to <= chars@.len(),
    ensures
        text@ == chars@.subrange(from as int, to as int),
{
    let mut text: String = String::new();
    let mut at: usize = from;
    while at < to
        invariant
            from <= at <= to <= chars@.len(),
            text@ == chars@.subrange(from as int, at as int),
        decreases to - at,
    {
        text.push(chars[at]);
        at = at + 1;
    }
    text
}

/// Whether `a` and `b` hold the same characters.
pub fn same_text(a: &str, b: &str) -> (same: bool)
    ensures
        same == (a@ == b@),
{
    let left: Vec<char> = chars_of(a);
    let right: Vec<char> = chars_of(b);
    assert(left@.subrange(0, left@.len() as int) =~= left@);
    left.len() == right.len() && stands_at(&left, &right, 0)
}

/// Whether `pattern` stands in `text` at position `at`.
fn stands_at(text: &Vec<char>, pattern: &Vec<char>, at: usize) -> (found: bool)
    ensures
        found == occurs_at(text@, pattern@, at as int),
{
    if at > text.len() || text.len() - at < pattern.len() {
        return false;
    }
    let mut matched: usize = 0;
    while matched < pattern.len()
        invariant
            matched <= pattern@.len(),
            at + pattern@.len() <= text.len(),
            forall|k: int| 0 <= k < matched ==> text@[at + k] == pattern@[k],
        decreases pattern@.len() - matched,
    {
        if text[at + matched] != pattern[matched] {
            assert(text@.subrange(at as int, at + pattern@.len())[matched as int]
                != pattern@[matched as int]);
            return false;
        }
        matched = matched + 1;
    }
    assert(text@.subrange(at as int, at + pattern@.len()) =~= pattern@);
    true
}

/// Whether `pattern` stands somewhere in `text`.
pub fn contains(text: &str, pattern: &str) -> (found: bool)
    ensures
        found == contains_text(text@, pattern@),
{
    let text_chars: Vec<char> = chars_of(text);
    let pattern_chars: Vec<char> = chars_of(pattern);
    let mut at: usize = 0;
    while at < text_chars.len()
        invariant
            text_chars@ == text@,
            pattern_chars@ == pattern@,
            at <= text_chars@.len(),
            forall|k: int| 0 <= k < at ==> !occurs_at(text@, pattern@, k),
        decreases text_chars@.len() - at,
    {
        if stands_at(&text_chars, &pattern_chars, at) {
            return true;
        }
        at = at + 1;
    }
    stands_at(&text_chars, &pattern_chars, at)
}

/// `text` with every occurrence of `pattern` replaced by `with`.
pub fn replace_all(text: &str, pattern: &str, with: &str) -> (result: String)
    requires
        pattern@.len() > 0,
    ensures
        result@ == replaced(text@, pattern@, with@),
{
    let text_chars: Vec<char> = chars_of(text);
    let pattern_chars: Vec<char> = chars_of(pattern);
    let mut result: String = String::new();
    let mut at: usize = 0;
    assert(text@.skip(0) =~= text@);
    while at < text_chars.len()
        invariant
            text_chars@ == text@,
            pattern_chars@ == pattern@,
            pattern@.len() > 0,
            at <= text_chars@.len(),
            result@ + replaced(text@.skip(at as int), pattern@, with@) == replaced(
                text@,
                pattern@,
                with@,
            ),
        decreases text_chars@.len() - at,
    {
        let ghost rest = text@.skip(at as int);
        let ghost before = result@;
        if stands_at(&text_chars, &pattern_chars, at) {
            assert(rest.subrange(0, pattern@.len() as int) =~= text@.subrange(
                at as int,
                at + pattern@.len(),
            ));
            assert(occurs_at(rest, pattern@, 0));
            result.append(with);
            at = at + pattern_chars.len();
            assert(rest.skip(pattern@.len() as int) =~= text@.skip(at as int));
            assert(before + (with@ + replaced(text@.skip(at as int), pattern@, with@))
                =~= result@ + replaced(text@.skip(at as int), pattern@, with@));
        } else {
            assert(!occurs_at(rest, pattern@, 0)) by {
                if occurs_at(rest, pattern@, 0) {
                    assert(rest.subrange(0, pattern@.len() as int) =~= text@.subrange(
                        at as int,
                        at + pattern@.len(),
                    ));
                }
            }
            result.push(text_chars[at]);
            at = at + 1;
            assert(rest.skip(1) =~= text@.skip(at as int));
            assert(before + (seq![rest[0]] + replaced(text@.skip(at as int), pattern@, with@))
                =~= result@ + replaced(text@.skip(at as int), pattern@, with@));
        }
    }
    assert(result@ + replaced(text@.skip(at as int), pattern@, with@) =~= result@);
    result
}

/// Whether `c` is white space.
pub fn is_whitespace(c: char) -> (white: bool)
    ensures
        white == is_white_space(c),
{
    ('\u{9}' <= c && c <= '\u{d}') || c == ' ' || c == '\u{85}' || c == '\u{a0}' || c
        == '\u{1680}' || ('\u{2000}' <= c && c <= '\u{200a}') || c == '\u{2028}' || c
        == '\u{2029}' || c == '\u{202f}' || c == '\u{205f}' || c == '\u{3000}'
}

/// `text` without the white space around it.
pub fn trim(text: &str) -> (result: String)
    ensures
        result@ == trimmed(text@),
{
    let chars: Vec<char> = chars_of(text);
    let mut from: usize = 0;
    assert(text@.skip(0) =~= text@);
    while from < chars.len() && is_whitespace(chars[from])
        invariant
            chars@ == text@,
            from <= chars@.len(),
            trimmed_start(text@.skip(from as int)) == trimmed_start(text@),
        decreases chars@.len() - from,
    {
        assert(text@.skip(from as int).skip(1) =~= text@.skip(from + 1));
        from = from + 1;
    }
    let ghost start = text@.skip(from as int);
    assert(trimmed_start(text@) == start);
    let mut to: usize = chars.len();
    assert(text@.subrange(from as int, to as int) =~= start);
    while from < to && is_whitespace(chars[to - 1])
        invariant
            chars@ == text@,
            from <= to <= chars@.len(),
            trimmed_end(text@.subrange(from as int, to as int)) == trimmed_end(start),
        decreases to - from,
    {
        assert(text@.subrange(from as int, to as int).drop_last() =~= text@.subrange(
            from as int,
            to - 1,
        ));
        to = to - 1;
    }
    text_of(&chars, from, to)
}

/// Different numbers differ in decimal.
pub proof fn decimal_tells_numbers_apart(first: nat, second: nat)
    requires
        decimal(first) == decimal(second),
    ensures
        first == second,
    decreases first,
{
    assert(decimal(first).last() == digit_char(first % 10));
    assert(decimal(second).last() == digit_char(second % 10));
    assert(first % 10 == second % 10);
    if first >= 10 && second >= 10 {
        assert(decimal(first).drop_last() =~= decimal(first / 10));
        assert(decimal(second).drop_last() =~= decimal(second / 10));
        decimal_tells_numbers_apart(first / 10, second / 10);
    } else if first >= 10 || second >= 10 {
        lemma_decimal_length(first);
        lemma_decimal_length(second);
    }
}

/// A number has one digit exactly if it is below ten.
proof fn lemma_decimal_length(value: nat)
    ensures
        decimal(value).len() >= 1,
        decimal(value).len() == 1 <==> value < 10,
    decreases value,
{
    if value >= 10 {
        lemma_decimal_length(value / 10);
    }
}

/// Appends `value` in decimal to `out`.
pub fn push_decimal(out: &mut String, value: u64)
    ensures
        final(out)@ == old(out)@ + decimal(value as nat),
    decreases value,
{
    if value >= 10 {
        push_decimal(out, value / 10);
    }
    out.push((48u8 + (value % 10) as u8) as char);
    assert(out@ =~= old(out)@ + decimal(value as nat));
}

/// `text` in lower case, from `str::to_lowercase`. Two texts that are equal
/// have the same lower case; where every character is ASCII, `A` to `Z` become
/// `a` to `z` and the rest stays.
#[verifier::external_body]
pub(crate) fn to_lowercase(text: &str) -> (result: String)
    ensures
        result@ == lowercase(text@),
        vstd::utf8::is_ascii_chars(text@) ==> result@ == ascii_lowered(text@),
{
    text.to_lowercase()
}

/// The hexadecimal digit that stands for `value`.
pub open spec fn hex_char(value: nat) -> char
    recommends
        value < 16,
{
    if value < 10 {
        digit_char(value)
    } else {
        ((87 + value) as u8) as char
    }
}

/// The last `digits` hexadecimal digits of `value`.
pub open spec fn hex_digits(value: nat, digits: nat) -> Seq<char>
    decreases digits,
{
    if digits == 0 {
        Seq::empty()
    } else {
        hex_digits(value / 16, (digits - 1) as nat).push(hex_char(value % 16))
    }
}

/// `value` with sixteen hexadecimal digits.
pub open spec fn hex16(value: nat) -> Seq<char> {
    hex_digits(value, 16)
}

/// Appends the last `digits` hexadecimal digits of `value`.
fn push_hex_digits(out: &mut String, value: u64, digits: usize)
    ensures
        final(out)@ == old(out)@ + hex_digits(value as nat, digits as nat),
    decreases digits,
{
    if digits > 0 {
        push_hex_digits(out, value / 16, digits - 1);
        let last: u8 = (value % 16) as u8;
        let c: char = if last < 10 {
            (48 + last) as char
        } else {
            (87 + last) as char
        };
        out.push(c);
    }
    assert(out@ =~= old(out)@ + hex_digits(value as nat, digits as nat));
}

/// Appends `value` with sixteen hexadecimal digits.
pub fn push_hex(out: &mut String, value: u64)
    ensures
        final(out)@ == old(out)@ + hex16(value as nat),
{
    push_hex_digits(out, value, 16)
}

} // verus!
