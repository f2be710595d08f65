//! Detection of one-time passwords: digit sequences that stand near a word
//! which announces them.

use crate::models::{OtpCandidateEmail, OtpMatch};
#[allow(unused_imports)]
use crate::models::{EmailView, MatchView};
#[allow(unused_imports)]
use crate::otp_laws::{announces, code_beside_a_word_is_not_missed, stands_at_byte};
use crate::text::{chars_of, contains, is_whitespace, replace_all, to_lowercase, trim};
#[allow(unused_imports)]
use crate::text::{
    ascii_lowered, contains_text, is_digit, is_white_space, lowercase, occurs_at, replaced, trimmed, trimmed_end,
    trimmed_start,
};
use regex::Regex;
use vstd::prelude::*;
#[allow(unused_imports)]
use vstd::utf8::{decode_utf8, encode_utf8, is_ascii_chars, is_char_boundary};

verus! {

/// Four to eight digits, each but the last followed by at most one white space
/// or hyphen, that stand apart from other word characters.
pub const OTP_CODE_PATTERN: &'static str = r"\b((?:[0-9][\s-]?){3,7}[0-9])\b";

/// A date with a year of four digits, a month and a day.
pub const DATE_PATTERN: &'static str = r"^\d{4}-\d{2}-\d{2}$";

/// A character of a word, in the sense of the code pattern's boundaries.
pub const WORD_PATTERN: &'static str = r"\w";

/// How many bytes on either side of a code count as its surroundings.
pub const CONTEXT_BYTES: usize = 72;

/// The error of a pattern that does not compile.
#[verifier::external_type_specification]
#[verifier::external_body]
pub struct ExRegexError(regex::Error);

/// The byte ranges of the matches that `regex::Regex::find_iter` yields for a
/// pattern in a text, or `None` where the pattern does not compile.
pub uninterp spec fn regex_spans(pattern: Seq<char>, text: Seq<char>) -> Option<
    Seq<(usize, usize)>,
>;

/// Whether `regex::Regex::is_match` finds a pattern in a text, or `None` where
/// the pattern does not compile.
pub uninterp spec fn regex_matches(pattern: Seq<char>, text: Seq<char>) -> Option<bool>;

/// The bytes `from` and `to` of `text` are the ends of a slice.
pub open spec fn sliceable(text: Seq<char>, from: int, to: int) -> bool {
    &&& 0 <= from <= to <= encode_utf8(text).len()
    &&& is_char_boundary(encode_utf8(text), from)
    &&& is_char_boundary(encode_utf8(text), to)
}

/// The characters of `text` that its bytes `from..to` encode.
pub open spec fn byte_slice(text: Seq<char>, from: int, to: int) -> Seq<char> {
    decode_utf8(encode_utf8(text).subrange(from, to))
}

/// A character that may stand in a candidate: a digit, a hyphen or white space.
pub open spec fn is_candidate_char(c: char) -> bool {
    is_digit(c) || c == '-' || is_white_space(c)
}

/// A text of digits, hyphens and white space.
pub open spec fn is_candidate_text(text: Seq<char>) -> bool {
    forall|i: int| 0 <= i < text.len() ==> is_candidate_char(#[trigger] text[i])
}

/// `span` is a byte range of `text` that holds digits, hyphens and white space.
pub open spec fn is_candidate_span(text: Seq<char>, span: (usize, usize)) -> bool {
    &&& sliceable(text, span.0 as int, span.1 as int)
    &&& is_candidate_text(byte_slice(text, span.0 as int, span.1 as int))
}

/// A text in which every character is ASCII or white space.
pub open spec fn is_plain_text(text: Seq<char>) -> bool {
    forall|i: int|
        0 <= i < text.len() ==> #[trigger] text[i] <= '\u{7f}' || is_white_space(text[i])
}

/// A character of a word: a letter, digit, mark or connector of any script, as
/// the pattern for one matches it.
pub open spec fn is_word_char(c: char) -> bool {
    regex_matches(WORD_PATTERN@, seq![c]) == Some(true)
}

/// The digits of `text`, in order.
pub open spec fn digits_of(text: Seq<char>) -> Seq<char> {
    text.filter(|c: char| is_digit(c))
}

/// A text of four to eight digits and nothing else.
pub open spec fn is_bare_code(text: Seq<char>) -> bool {
    &&& 4 <= text.len() <= 8
    &&& forall|i: int| 0 <= i < text.len() ==> is_digit(#[trigger] text[i])
}

/// Four to eight digits, each but the last followed by at most one separator.
pub open spec fn is_code_text(text: Seq<char>) -> bool {
    &&& text.len() > 0
    &&& is_candidate_text(text)
    &&& is_digit(text[0])
    &&& is_digit(text.last())
    &&& forall|i: int|
        0 <= i < text.len() - 1 ==> is_digit(#[trigger] text[i]) || is_digit(text[i + 1])
    &&& 4 <= digits_of(text).len() <= 8
}

/// A byte that encodes an ASCII letter, a digit or an underscore.
pub open spec fn is_ascii_word_byte(b: u8) -> bool {
    48 <= b <= 57 || 65 <= b <= 90 || b == 95 || 97 <= b <= 122
}

/// `span` is a byte range of `text` that holds a code, and no character of a
/// word stands beside it. ASCII letters, digits and underscores are such
/// characters.
pub open spec fn is_code_span(text: Seq<char>, span: (usize, usize)) -> bool {
    let bytes = encode_utf8(text);
    &&& sliceable(text, span.0 as int, span.1 as int)
    &&& is_code_text(byte_slice(text, span.0 as int, span.1 as int))
    &&& span.0 > 0 ==> {
        &&& !is_ascii_word_byte(bytes[span.0 - 1])
        &&& !is_word_char(byte_slice(text, 0, span.0 as int).last())
    }
    &&& span.1 < bytes.len() ==> {
        &&& !is_ascii_word_byte(bytes[span.1 as int])
        &&& !is_word_char(byte_slice(text, span.1 as int, bytes.len() as int)[0])
    }
}

/// `spans` are code spans of `text` from left to right, without overlap.
pub open spec fn are_code_spans(text: Seq<char>, spans: Seq<(usize, usize)>) -> bool {
    &&& forall|k: int| 0 <= k < spans.len() ==> is_code_span(text, #[trigger] spans[k])
    &&& forall|j: int, k: int|
        0 <= j < k < spans.len() ==> (#[trigger] spans[j]).1 <= (#[trigger] spans[k]).0
}

/// A byte that encodes one of the digits `0` to `9`.
pub open spec fn is_digit_byte(b: u8) -> bool {
    48 <= b <= 57
}

/// A byte that encodes a hyphen or ASCII white space.
pub open spec fn is_separator_byte(b: u8) -> bool {
    b == 45 || b == 32 || 9 <= b <= 13
}

/// `span` is a byte range of `text` that holds four to eight digits and nothing
/// else, beside ASCII characters that neither continue a word nor lead on to
/// another digit.
pub open spec fn is_isolated_code(text: Seq<char>, span: (usize, usize)) -> bool {
    let bytes = encode_utf8(text);
    let (from, to) = (span.0 as int, span.1 as int);
    &&& to <= bytes.len()
    &&& 4 <= to - from <= 8
    &&& forall|i: int| from <= i < to ==> is_digit_byte(#[trigger] bytes[i])
    &&& from >= 1 ==> bytes[from - 1] < 128 && !is_ascii_word_byte(bytes[from - 1])
    &&& from >= 2 ==> !(is_separator_byte(bytes[from - 1]) && is_digit_byte(bytes[from - 2]))
    &&& to < bytes.len() ==> bytes[to] < 128 && !is_ascii_word_byte(bytes[to])
    &&& to + 1 < bytes.len() ==> !(is_separator_byte(bytes[to]) && is_digit_byte(bytes[to + 1]))
}

/// A date such as `2026-03-13`.
pub open spec fn is_iso_date(text: Seq<char>) -> bool {
    &&& text.len() == 10
    &&& forall|i: int|
        0 <= i < 10 ==> if i == 4 || i == 7 {
            #[trigger] text[i] == '-'
        } else {
            is_digit(text[i])
        }
}

/// The byte ranges in which the code pattern matches `text`.
pub open spec fn code_spans(text: Seq<char>) -> Seq<(usize, usize)> {
    regex_spans(OTP_CODE_PATTERN@, text).unwrap()
}

/// The byte ranges of the matches of `pattern` in `text`, from
/// `regex::Regex::new` and `regex::Regex::find_iter`. The code pattern
/// compiles. Each of its matches is a run of four to eight digits with at most
/// one separator between neighbours; no ASCII word character adjoins a match,
/// nor does any character that the word pattern matches alone, which is what a
/// word boundary excludes; and matches follow one another without overlap. Four to eight digits that
/// stand apart from everything that could lengthen them are a match. A text of
/// four to eight digits and nothing else is one match.
#[verifier::external_body]
fn find_spans(pattern: &str, text: &str) -> (found: Result<Vec<(usize, usize)>, regex::Error>)
    ensures
        match found {
            Ok(spans) => regex_spans(pattern@, text@) == Some(spans@),
            Err(_) => regex_spans(pattern@, text@) is None,
        },
        pattern@ == OTP_CODE_PATTERN@ ==> found is Ok,
        pattern@ == OTP_CODE_PATTERN@ ==> are_code_spans(text@, found.unwrap()@),
        pattern@ == OTP_CODE_PATTERN@ ==> forall|span: (usize, usize)|
            is_isolated_code(text@, span) ==> #[trigger] found.unwrap()@.contains(span),
        pattern@ == OTP_CODE_PATTERN@ && is_bare_code(text@) ==> found.unwrap()@ == seq![
            (0usize, text@.len() as usize),
        ],
{
    Ok(Regex::new(pattern)?.find_iter(text).map(|found| (found.start(), found.end())).collect())
}

/// Whether `pattern` matches in `text`, from `regex::Regex::new` and
/// `regex::Regex::is_match`. The date pattern compiles, and among texts of ASCII
/// characters and white space it matches the dates: the only digits there are
/// `0` to `9`.
#[verifier::external_body]
fn is_match(pattern: &str, text: &str) -> (found: Result<bool, regex::Error>)
    ensures
        match found {
            Ok(matched) => regex_matches(pattern@, text@) == Some(matched),
            Err(_) => regex_matches(pattern@, text@) is None,
        },
        pattern@ == DATE_PATTERN@ ==> found is Ok,
        pattern@ == DATE_PATTERN@ && is_plain_text(text@) ==> found.unwrap() == is_iso_date(text@),
{
    Ok(Regex::new(pattern)?.is_match(text))
}

/// One of the words that announce a code stands in `text`.
pub open spec fn has_context(text: Seq<char>) -> bool {
    ||| contains_text(text, "code"@)
    ||| contains_text(text, "verification"@)
    ||| contains_text(text, "2fa"@)
    ||| contains_text(text, "two-factor"@)
    ||| contains_text(text, "two factor"@)
    ||| contains_text(text, "one-time"@)
    ||| contains_text(text, "one time"@)
    ||| contains_text(text, "otp"@)
    ||| contains_text(text, "security"@)
    ||| contains_text(text, "signin"@)
    ||| contains_text(text, "sign in"@)
}

/// Whether one of the words that announce a code stands in `text`.
pub fn has_context_term(text: &str) -> (found: bool)
    ensures
        found == has_context(text@),
{
    contains(text, "code") || contains(text, "verification") || contains(text, "2fa") || contains(
        text,
        "two-factor",
    ) || contains(text, "two factor") || contains(text, "one-time") || contains(text, "one time")
        || contains(text, "otp") || contains(text, "security") || contains(text, "signin")
        || contains(text, "sign in")
}

/// `text` with plain spaces and line feeds: no-break spaces become spaces, and
/// carriage returns, with a line feed behind them or not, become line feeds.
pub open spec fn plain_breaks(text: Seq<char>) -> Seq<char> {
    replaced(
        replaced(replaced(text, "\u{a0}"@, " "@), "\r\n"@, "\n"@),
        "\r"@,
        "\n"@,
    )
}

/// `text` as it is searched: plain breaks, in lower case.
pub open spec fn normalized(text: Seq<char>) -> Seq<char> {
    lowercase(plain_breaks(text))
}

/// `text` with plain breaks and with `A` to `Z` in lower case.
pub open spec fn ascii_normalized(text: Seq<char>) -> Seq<char> {
    ascii_lowered(plain_breaks(text))
}

/// Replacing a pattern whose first character does not occur changes nothing.
proof fn lemma_replaced_foreign(text: Seq<char>, pattern: Seq<char>, with: Seq<char>)
    requires
        pattern.len() > 0,
        !text.contains(pattern[0]),
    ensures
        replaced(text, pattern, with) == text,
    decreases text.len(),
{
    if text.len() > 0 {
        if occurs_at(text, pattern, 0) {
            assert(text.subrange(0, pattern.len() as int)[0] == pattern[0]);
            assert(text.contains(text[0]));
        }
        let rest = text.skip(1);
        assert forall|i: int| 0 <= i < rest.len() implies rest[i] != pattern[0] by {
            assert(text[i + 1] == rest[i]);
        }
        lemma_replaced_foreign(rest, pattern, with);
        assert(seq![text[0]] + rest =~= text);
    }
}

/// Replacing one character by another does so in each place.
proof fn lemma_replaced_char(text: Seq<char>, from: char, to: char)
    ensures
        replaced(text, seq![from], seq![to]) == text.map_values(
            |c: char|
                if c == from {
                    to
                } else {
                    c
                },
        ),
    decreases text.len(),
{
    let each = |c: char|
        if c == from {
            to
        } else {
            c
        };
    if text.len() > 0 {
        lemma_replaced_char(text.skip(1), from, to);
        assert(text.subrange(0, 1) =~= seq![text[0]]);
        assert(seq![text[0]][0] == text[0] && seq![from][0] == from);
        assert(occurs_at(text, seq![from], 0) <==> text[0] == from);
        assert(seq![each(text[0])] + text.skip(1).map_values(each) =~= text.map_values(each));
    } else {
        assert(text.map_values(each) =~= text);
    }
}

/// Replacing brings in only characters of the replacement.
proof fn lemma_replaced_keeps_out(
    text: Seq<char>,
    pattern: Seq<char>,
    with: Seq<char>,
    out: char,
)
    requires
        !text.contains(out),
        !with.contains(out),
    ensures
        !replaced(text, pattern, with).contains(out),
    decreases text.len(),
{
    if text.len() > 0 && pattern.len() > 0 {
        let skipped: int = if occurs_at(text, pattern, 0) {
            pattern.len() as int
        } else {
            1
        };
        let head = if occurs_at(text, pattern, 0) {
            with
        } else {
            seq![text[0]]
        };
        let rest = text.skip(skipped);
        assert forall|i: int| 0 <= i < rest.len() implies rest[i] != out by {
            assert(text[i + skipped] == rest[i]);
        }
        lemma_replaced_keeps_out(rest, pattern, with, out);
        let tail = replaced(rest, pattern, with);
        assert(text.contains(text[0]));
        assert forall|i: int| 0 <= i < (head + tail).len() implies (head + tail)[i] != out by {
            if i < head.len() {
                assert(head.contains((head + tail)[i]) || head =~= seq![text[0]]);
            } else {
                assert((head + tail)[i] == tail[i - head.len()]);
                assert(tail.contains(tail[i - head.len()]));
            }
        }
    }
}

/// Plain breaks hold neither carriage returns nor no-break spaces, and making
/// them a second time changes nothing.
pub proof fn plain_breaks_are_plain(text: Seq<char>)
    ensures
        !plain_breaks(text).contains('\r'),
        !plain_breaks(text).contains('\u{a0}'),
        plain_breaks(plain_breaks(text)) == plain_breaks(text),
{
    reveal_strlit("\u{a0}");
    reveal_strlit(" ");
    reveal_strlit("\r\n");
    reveal_strlit("\n");
    reveal_strlit("\r");
    let spaced = replaced(text, "\u{a0}"@, " "@);
    let joined = replaced(spaced, "\r\n"@, "\n"@);
    let plain = plain_breaks(text);
    assert("\u{a0}"@ =~= seq!['\u{a0}'] && " "@ =~= seq![' ']);
    assert("\r"@ =~= seq!['\r'] && "\n"@ =~= seq!['\n']);
    lemma_replaced_char(text, '\u{a0}', ' ');
    lemma_replaced_keeps_out(spaced, "\r\n"@, "\n"@, '\u{a0}');
    lemma_replaced_char(joined, '\r', '\n');
    lemma_replaced_keeps_out(joined, "\r"@, "\n"@, '\u{a0}');
    lemma_replaced_foreign(plain, "\u{a0}"@, " "@);
    lemma_replaced_foreign(plain, "\r\n"@, "\n"@);
    lemma_replaced_foreign(plain, "\r"@, "\n"@);
}

/// Normalized text of ASCII characters holds no `A` to `Z`, no carriage returns
/// and no no-break spaces, and normalizing it a second time changes nothing.
pub proof fn normalizing_twice_changes_nothing(text: Seq<char>)
    requires
        is_ascii_chars(plain_breaks(text)),
    ensures
        is_ascii_chars(ascii_normalized(text)),
        forall|i: int|
            0 <= i < ascii_normalized(text).len() ==> !('A' <= #[trigger] ascii_normalized(text)[i]
                <= 'Z'),
        !ascii_normalized(text).contains('\r'),
        !ascii_normalized(text).contains('\u{a0}'),
        plain_breaks(ascii_normalized(text)) == ascii_normalized(text),
        ascii_normalized(ascii_normalized(text)) == ascii_normalized(text),
{
    let plain = plain_breaks(text);
    let lowered = ascii_normalized(text);
    plain_breaks_are_plain(text);
    assert forall|i: int| 0 <= i < lowered.len() implies !('A' <= #[trigger] lowered[i] <= 'Z')
        && lowered[i] != '\r' && '\0' <= lowered[i] <= '\u{7f}' by {
        assert('\0' <= plain[i] <= '\u{7f}');
        assert(plain.contains(plain[i]));
    }
    reveal_strlit("\u{a0}");
    reveal_strlit("\r\n");
    reveal_strlit("\r");
    lemma_replaced_foreign(lowered, "\u{a0}"@, " "@);
    lemma_replaced_foreign(lowered, "\r\n"@, "\n"@);
    lemma_replaced_foreign(lowered, "\r"@, "\n"@);
    assert(ascii_lowered(lowered) =~= lowered);
}

/// `input` as it is searched: plain breaks, in lower case.
pub fn normalize_text(input: &str) -> (text: String)
    ensures
        text@ == normalized(input@),
        is_ascii_chars(plain_breaks(input@)) ==> text@ == ascii_normalized(input@),
        is_bare_code(input@) ==> text@ == input@,
{
    proof {
        reveal_strlit("\u{a0}");
        reveal_strlit("\r\n");
        reveal_strlit("\r");
    }
    let spaced: String = replace_all(input, "\u{a0}", " ");
    let joined: String = replace_all(spaced.as_str(), "\r\n", "\n");
    let plain: String = replace_all(joined.as_str(), "\r", "\n");
    proof {
        if is_bare_code(input@) {
            lemma_replaced_foreign(input@, "\u{a0}"@, " "@);
            lemma_replaced_foreign(input@, "\r\n"@, "\n"@);
            lemma_replaced_foreign(input@, "\r"@, "\n"@);
            assert(ascii_lowered(input@) =~= input@);
        }
    }
    to_lowercase(plain.as_str())
}

/// The characters of `text` that its bytes `from..to` encode.
fn byte_text(text: &str, from: usize, to: usize) -> (slice: &str)
    requires
        sliceable(text@, from as int, to as int),
    ensures
        slice@ == byte_slice(text@, from as int, to as int),
{
    let ghost bytes = encode_utf8(text@);
    let (head, _tail) = text.split_at(to);
    let ghost head_bytes = encode_utf8(head@);
    proof {
        vstd::utf8::encode_utf8_valid_utf8(text@);
        vstd::utf8::encode_utf8_valid_utf8(head@);
        if from < to {
            vstd::utf8::is_char_boundary_iff_not_is_continuation_byte(bytes, from as int);
            vstd::utf8::is_char_boundary_iff_not_is_continuation_byte(head_bytes, from as int);
        } else {
            vstd::utf8::is_char_boundary_start_end_of_seq(head_bytes);
        }
    }
    let (_start, slice) = head.split_at(from);
    proof {
        assert(head_bytes.subrange(from as int, head_bytes.len() as int) =~= bytes.subrange(
            from as int,
            to as int,
        ));
        vstd::utf8::encode_utf8_decode_utf8(slice@);
    }
    slice
}

/// The digits of `text`, in order.
fn only_digits(text: &str) -> (digits: String)
    ensures
        digits@ == digits_of(text@),
{
    let mut digits: String = String::new();
    let chars: Vec<char> = chars_of(text);
    let mut at: usize = 0;
    reveal(Seq::filter);
    while at < chars.len()
        invariant
            chars@ == text@,
            at <= chars@.len(),
            digits@ == digits_of(text@.take(at as int)),
        decreases chars@.len() - at,
    {
        reveal(Seq::filter);
        assert(text@.take(at + 1).drop_last() =~= text@.take(at as int));
        if '0' <= chars[at] && chars[at] <= '9' {
            digits.push(chars[at]);
        }
        at = at + 1;
    }
    assert(text@.take(at as int) =~= text@);
    digits
}

/// Trimming keeps a text plain.
proof fn lemma_trimmed_plain(text: Seq<char>)
    requires
        is_plain_text(text),
    ensures
        is_plain_text(trimmed(text)),
{
    lemma_trimmed_start_plain(text);
    lemma_trimmed_end_plain(trimmed_start(text));
}

proof fn lemma_trimmed_start_plain(text: Seq<char>)
    requires
        is_plain_text(text),
    ensures
        is_plain_text(trimmed_start(text)),
    decreases text.len(),
{
    if text.len() > 0 && is_white_space(text[0]) {
        lemma_trimmed_start_plain(text.skip(1));
    }
}

proof fn lemma_trimmed_end_plain(text: Seq<char>)
    requires
        is_plain_text(text),
    ensures
        is_plain_text(trimmed_end(text)),
    decreases text.len(),
{
    if text.len() > 0 && is_white_space(text.last()) {
        lemma_trimmed_end_plain(text.drop_last());
    }
}

/// Whether `candidate` is a date, apart from white space around it.
pub fn looks_like_date(candidate: &str) -> (date: bool)
    ensures
        regex_matches(DATE_PATTERN@, trimmed(candidate@)) == Some(date),
        is_plain_text(candidate@) ==> date == is_iso_date(trimmed(candidate@)),
{
    let bare: String = trim(candidate);
    proof {
        if is_plain_text(candidate@) {
            lemma_trimmed_plain(candidate@);
        }
    }
    match is_match(DATE_PATTERN, bare.as_str()) {
        Ok(date) => date,
        Err(_) => false,
    }
}

/// A character that may stand beside a bare code.
pub open spec fn is_sparse_char(c: char) -> bool {
    ||| is_digit(c)
    ||| is_white_space(c)
    ||| c == '-'
    ||| c == ':'
    ||| c == '.'
    ||| c == ','
    ||| c == '('
    ||| c == ')'
    ||| c == '['
    ||| c == ']'
    ||| c == '|'
    ||| c == '/'
}

/// A text of digits, white space and a little punctuation.
pub open spec fn is_sparse(text: Seq<char>) -> bool {
    forall|i: int| 0 <= i < text.len() ==> is_sparse_char(#[trigger] text[i])
}

/// Whether `text` holds only digits, white space and a little punctuation.
pub fn is_sparse_code_surface(text: &str) -> (sparse: bool)
    ensures
        sparse == is_sparse(text@),
{
    let chars: Vec<char> = chars_of(text);
    let mut at: usize = 0;
    while at < chars.len()
        invariant
            chars@ == text@,
            at <= chars@.len(),
            forall|i: int| 0 <= i < at ==> is_sparse_char(#[trigger] text@[i]),
        decreases chars@.len() - at,
    {
        let c: char = chars[at];
        let sparse: bool = ('0' <= c && c <= '9') || is_whitespace(c) || c == '-' || c == ':' || c
            == '.' || c == ',' || c == '(' || c == ')' || c == '[' || c == ']' || c == '|' || c
            == '/';
        if !sparse {
            assert(!is_sparse_char(text@[at as int]));
            return false;
        }
        at = at + 1;
    }
    true
}

/// Where the surroundings of a code begin, in bytes.
pub open spec fn context_start(span: (usize, usize)) -> int {
    if span.0 > CONTEXT_BYTES {
        span.0 - CONTEXT_BYTES
    } else {
        0
    }
}

/// Where the surroundings of a code end, in bytes.
pub open spec fn context_end(text: Seq<char>, span: (usize, usize)) -> int {
    if span.1 + CONTEXT_BYTES < encode_utf8(text).len() {
        span.1 + CONTEXT_BYTES
    } else {
        encode_utf8(text).len() as int
    }
}

/// The text of a code with the separators in it.
pub open spec fn raw_code(text: Seq<char>, span: (usize, usize)) -> Seq<char> {
    byte_slice(text, span.0 as int, span.1 as int)
}

/// What a search for a code that stands near a context word comes to.
pub ghost enum ScanView {
    /// This code stands near a context word.
    Confirmed(Seq<char>),
    /// These codes were seen, none of them near a context word.
    Unconfirmed(Seq<Seq<char>>),
    /// The surroundings of a code begin or end inside a character.
    SplitCharacter,
}

/// `span` is passed over: what it holds is a date, or does not have four to
/// eight digits.
pub open spec fn is_passed_over(text: Seq<char>, span: (usize, usize)) -> bool {
    is_iso_date(trimmed(raw_code(text, span))) || !(4 <= digits_of(raw_code(text, span)).len()
        <= 8)
}

/// A context word stands in the surroundings of `span`.
pub open spec fn is_near_context(text: Seq<char>, span: (usize, usize)) -> bool {
    has_context(byte_slice(text, context_start(span), context_end(text, span)))
}

/// `span` holds a code that stands apart, with a context word in its
/// surroundings.
pub open spec fn is_announced_code(text: Seq<char>, span: (usize, usize)) -> bool {
    is_isolated_code(text, span) && is_near_context(text, span)
}

/// A code that stands apart in `text` has a context word in its surroundings.
pub open spec fn announces_code(text: Seq<char>) -> bool {
    exists|span: (usize, usize)| is_announced_code(text, span)
}

/// The search through `spans` from the one at `from` on, after the codes
/// `seen`: the first code near a context word wins.
pub open spec fn scan(
    text: Seq<char>,
    spans: Seq<(usize, usize)>,
    from: int,
    seen: Seq<Seq<char>>,
) -> ScanView
    decreases spans.len() - from,
{
    if from < 0 || from >= spans.len() {
        ScanView::Unconfirmed(seen)
    } else if is_passed_over(text, spans[from]) {
        scan(text, spans, from + 1, seen)
    } else if !sliceable(text, context_start(spans[from]), context_end(text, spans[from])) {
        ScanView::SplitCharacter
    } else if is_near_context(text, spans[from]) {
        ScanView::Confirmed(digits_of(raw_code(text, spans[from])))
    } else {
        scan(text, spans, from + 1, seen.push(digits_of(raw_code(text, spans[from]))))
    }
}

/// What the search for a code in a text comes to.
pub ghost enum FindingView {
    /// The text holds this code.
    Code(Seq<char>),
    /// The text holds no code.
    Nothing,
    /// The surroundings of a code begin or end inside a character.
    SplitCharacter,
}

/// The code in `text` whose candidates are at `spans`. Where no code stands
/// near a context word, `announced` lets a single code through that has nothing
/// but digits, white space and punctuation around it.
pub open spec fn finding(
    text: Seq<char>,
    spans: Seq<(usize, usize)>,
    announced: bool,
) -> FindingView {
    match scan(text, spans, 0, Seq::empty()) {
        ScanView::Confirmed(code) => FindingView::Code(code),
        ScanView::Unconfirmed(seen) => if announced && seen.len() == 1 && is_sparse(text) {
            FindingView::Code(seen[0])
        } else {
            FindingView::Nothing
        },
        ScanView::SplitCharacter => FindingView::SplitCharacter,
    }
}

/// The surroundings of a code begin or end inside a character, so that they
/// cannot be cut out of the text.
#[derive(Debug, Clone, Copy, PartialEq, Eq)]
pub struct SplitCharacter;

/// The texts in a vector of strings.
pub open spec fn texts(strings: Seq<String>) -> Seq<Seq<char>> {
    strings.map_values(|s: String| s@)
}

/// The code in `text` whose candidates are at `spans`.
pub fn select_code(text: &str, spans: &Vec<(usize, usize)>, announced: bool) -> (selected: Result<
    Option<String>,
    SplitCharacter,
>)
    requires
        forall|k: int| 0 <= k < spans@.len() ==> is_candidate_span(text@, #[trigger] spans@[k]),
    ensures
        match finding(text@, spans@, announced) {
            FindingView::Code(code) => selected matches Ok(Some(s)) && s@ == code,
            FindingView::Nothing => selected == Ok::<Option<String>, SplitCharacter>(None),
            FindingView::SplitCharacter => selected is Err,
        },
{
    let mut seen: Vec<String> = Vec::new();
    let mut at: usize = 0;
    let length: usize = text.as_bytes().len();
    assert(texts(seen@) =~= Seq::empty());
    while at < spans.len()
        invariant
            forall|k: int| 0 <= k < spans@.len() ==> is_candidate_span(text@, #[trigger] spans@[k]),
            length == encode_utf8(text@).len(),
            at <= spans@.len(),
            scan(text@, spans@, at as int, texts(seen@)) == scan(text@, spans@, 0, Seq::empty()),
        decreases spans@.len() - at,
    {
        let (start, end) = spans[at];
        let ghost span = spans@[at as int];
        assert(is_candidate_span(text@, span));
        let candidate: &str = byte_text(text, start, end);
        assert forall|i: int| 0 <= i < candidate@.len() implies #[trigger] candidate@[i] <= '\u{7f}'
            || is_white_space(candidate@[i]) by {
            assert(is_candidate_char(candidate@[i]));
        }
        let code: String = only_digits(candidate);
        let code_length: usize = code.unicode_len();
        if !looks_like_date(candidate) && 4 <= code_length && code_length <= 8 {
            let from: usize = start.saturating_sub(CONTEXT_BYTES);
            let to: usize = if length - end > CONTEXT_BYTES {
                end + CONTEXT_BYTES
            } else {
                length
            };
            if !text.is_char_boundary(from) || !text.is_char_boundary(to) {
                return Err(SplitCharacter);
            }
            if has_context_term(byte_text(text, from, to)) {
                return Ok(Some(code));
            }
            let ghost before = seen@;
            seen.push(code);
            assert(texts(seen@) =~= texts(before).push(code@));
        }
        at = at + 1;
    }
    if announced && seen.len() == 1 && is_sparse_code_surface(text) {
        assert(texts(seen@)[0] == seen@[0]@);
        Ok(Some(seen[0].clone()))
    } else {
        Ok(None)
    }
}

/// The byte ranges in which the code pattern matches `text`.
fn spans_of(text: &str) -> (spans: Vec<(usize, usize)>)
    ensures
        spans@ == code_spans(text@),
        are_code_spans(text@, spans@),
        forall|span: (usize, usize)|
            is_isolated_code(text@, span) ==> #[trigger] spans@.contains(span),
        is_bare_code(text@) ==> spans@ == seq![(0usize, text@.len() as usize)],
{
    match find_spans(OTP_CODE_PATTERN, text) {
        Ok(spans) => spans,
        Err(_) => Vec::new(),
    }
}

/// The code in `text`: near a context word or, if `announced`, alone.
pub fn find_otp_code(text: &str, announced: bool) -> (found: Result<Option<String>, SplitCharacter>)
    ensures
        match finding(text@, code_spans(text@), announced) {
            FindingView::Code(code) => found matches Ok(Some(s)) && s@ == code,
            FindingView::Nothing => found == Ok::<Option<String>, SplitCharacter>(None),
            FindingView::SplitCharacter => found is Err,
        },
        are_code_spans(text@, code_spans(text@)),
        forall|span: (usize, usize)|
            is_isolated_code(text@, span) ==> #[trigger] code_spans(text@).contains(span),
        is_bare_code(text@) ==> code_spans(text@) == seq![(0usize, text@.len() as usize)],
        announces_code(text@) ==> finding(text@, code_spans(text@), announced) !is Nothing,
        forall|span: (usize, usize), word: Seq<char>, at: int|
            #![trigger is_isolated_code(text@, span), stands_at_byte(text@, word, at)]
            is_isolated_code(text@, span) && announces(word) && stands_at_byte(text@, word, at) && (
            (span.1 <= at && at + encode_utf8(word).len() <= span.1 + 72) || (span.0 - 72 <= at && at
                + encode_utf8(word).len() <= span.0)) ==> found != Ok::<
                Option<String>,
                SplitCharacter,
            >(None),
{
    let spans: Vec<(usize, usize)> = spans_of(text);
    proof {
        assert forall|span: (usize, usize), word: Seq<char>, at: int|
            #![trigger is_isolated_code(text@, span), stands_at_byte(text@, word, at)]
            is_isolated_code(text@, span) && announces(word) && stands_at_byte(text@, word, at) && (
            (span.1 <= at && at + encode_utf8(word).len() <= span.1 + 72) || (span.0 - 72 <= at && at
                + encode_utf8(word).len() <= span.0)) implies finding(
            text@,
            spans@,
            announced,
        ) !is Nothing by {
            assert(spans@.contains(span));
            code_beside_a_word_is_not_missed(text@, spans@, announced, span, word, at);
        }
        if announces_code(text@) {
            let span = choose|span: (usize, usize)| is_announced_code(text@, span);
            assert(spans@.contains(span));
            code_near_context_is_found(text@, spans@, announced, span);
        }
    }
    select_code(text, &spans, announced)
}

/// The code of a mail with the given body and subject, whose candidates are at
/// the given spans. The body comes first, and counts as announced where the
/// subject has a context word; then the subject itself.
pub open spec fn picked(
    body: Seq<char>,
    body_spans: Seq<(usize, usize)>,
    subject: Seq<char>,
    subject_spans: Seq<(usize, usize)>,
) -> FindingView {
    match finding(body, body_spans, has_context(subject)) {
        FindingView::Nothing => finding(subject, subject_spans, false),
        found => found,
    }
}

/// The code of a mail with the given body and subject, whose candidates are at
/// the given spans.
pub fn pick_code(
    body: &str,
    body_spans: &Vec<(usize, usize)>,
    subject: &str,
    subject_spans: &Vec<(usize, usize)>,
) -> (found: Result<Option<String>, SplitCharacter>)
    requires
        forall|k: int|
            0 <= k < body_spans@.len() ==> is_candidate_span(body@, #[trigger] body_spans@[k]),
        forall|k: int|
            0 <= k < subject_spans@.len() ==> is_candidate_span(
                subject@,
                #[trigger] subject_spans@[k],
            ),
    ensures
        match picked(body@, body_spans@, subject@, subject_spans@) {
            FindingView::Code(code) => found matches Ok(Some(s)) && s@ == code,
            FindingView::Nothing => found == Ok::<Option<String>, SplitCharacter>(None),
            FindingView::SplitCharacter => found is Err,
        },
{
    match select_code(body, body_spans, has_context_term(subject)) {
        Ok(None) => select_code(subject, subject_spans, false),
        found => found,
    }
}

/// The subject of `email` as it is searched; no subject is an empty one.
pub open spec fn searched_subject(email: EmailView) -> Seq<char> {
    match email.subject {
        Some(subject) => normalized(subject),
        None => Seq::empty(),
    }
}

/// The label of the source of a code: the sender, else the subject, else the
/// name of the mail service.
pub open spec fn source_label(email: EmailView) -> Seq<char> {
    match email.sender {
        Some(sender) => sender,
        None => match email.subject {
            Some(subject) => subject,
            None => "Proton Mail"@,
        },
    }
}

/// What the search for a code in `email` comes to.
pub open spec fn detection(email: EmailView) -> FindingView {
    let body = normalized(email.body_text);
    let subject = searched_subject(email);
    picked(body, code_spans(body), subject, code_spans(subject))
}

/// The subject of `email` as it is searched.
fn normalize_subject(email: &OtpCandidateEmail) -> (subject: String)
    ensures
        subject@ == searched_subject(email@),
{
    match &email.subject {
        Some(subject) => normalize_text(subject.as_str()),
        None => String::new(),
    }
}

/// The label of the source of a code in `email`.
pub fn label_of(email: &OtpCandidateEmail) -> (label: String)
    ensures
        label@ == source_label(email@),
{
    match &email.sender {
        Some(sender) => sender.clone(),
        None => match &email.subject {
            Some(subject) => subject.clone(),
            None => "Proton Mail".to_owned(),
        },
    }
}

/// The code in `email`, with the label of its source.
pub fn detect_otp(email: &OtpCandidateEmail) -> (found: Option<OtpMatch>)
    requires
        detection(email@) !is SplitCharacter,
    ensures
        match detection(email@) {
            FindingView::Code(code) => found matches Some(m) && m@ == (MatchView {
                code,
                source_label: source_label(email@),
            }),
            _ => found is None,
        },
{
    let subject: String = normalize_subject(email);
    let body: String = normalize_text(email.body_text.as_str());
    let subject_has_context: bool = has_context_term(subject.as_str());
    if let Ok(Some(code)) = find_otp_code(body.as_str(), subject_has_context) {
        return Some(OtpMatch { code, source_label: label_of(email) });
    }
    match find_otp_code(subject.as_str(), false) {
        Ok(Some(code)) => Some(OtpMatch { code, source_label: label_of(email) }),
        _ => None,
    }
}

/// The digits of a text of digits are all of it.
proof fn lemma_all_digits(text: Seq<char>)
    requires
        forall|i: int| 0 <= i < text.len() ==> is_digit(#[trigger] text[i]),
    ensures
        digits_of(text) == text,
    decreases text.len(),
{
    reveal(Seq::filter);
    if text.len() > 0 {
        assert forall|i: int| 0 <= i < text.drop_last().len() implies is_digit(
            #[trigger] text.drop_last()[i],
        ) by {
            assert(is_digit(text[i]));
        }
        lemma_all_digits(text.drop_last());
        assert(is_digit(text.last()));
        assert(text.drop_last().push(text.last()) =~= text);
    }
}

/// An announced mail whose body is nothing but a code yields that code.
pub proof fn bare_announced_code_is_found(
    code: Seq<char>,
    subject: Seq<char>,
    subject_spans: Seq<(usize, usize)>,
)
    requires
        is_bare_code(code),
        has_context(subject),
    ensures
        picked(code, seq![(0usize, code.len() as usize)], subject, subject_spans)
            == FindingView::Code(code),
{
    let spans = seq![(0usize, code.len() as usize)];
    let span = spans[0];
    let bytes = encode_utf8(code);
    vstd::utf8::is_ascii_chars_encode_utf8(code);
    vstd::utf8::encode_utf8_valid_utf8(code);
    vstd::utf8::encode_utf8_decode_utf8(code);
    vstd::utf8::is_char_boundary_start_end_of_seq(bytes);
    assert(bytes.subrange(0, bytes.len() as int) =~= bytes);
    assert(raw_code(code, span) == code);
    lemma_all_digits(code);
    assert(is_digit(code[0]) && is_digit(code.last()));
    assert(trimmed(code) == code);
    assert forall|i: int| 0 <= i < code.len() implies is_sparse_char(#[trigger] code[i]) by {
        assert(is_digit(code[i]));
    }
    reveal_with_fuel(scan, 3);
    assert(Seq::<Seq<char>>::empty().push(code)[0] == code);
}

/// The code in `email`, with the label of its source, for every mail: fails
/// where the surroundings of a code begin or end inside a character.
pub fn try_detect_otp(email: &OtpCandidateEmail) -> (found: Result<
    Option<OtpMatch>,
    SplitCharacter,
>)
    ensures
        match detection(email@) {
            FindingView::Code(code) => found matches Ok(Some(m)) && m@ == (MatchView {
                code,
                source_label: source_label(email@),
            }),
            FindingView::Nothing => found == Ok::<Option<OtpMatch>, SplitCharacter>(None),
            FindingView::SplitCharacter => found is Err,
        },
        is_bare_code(email@.body_text) && has_context(searched_subject(email@)) ==> (
        found matches Ok(Some(m)) && m@.code == email@.body_text),
        are_code_spans(
            normalized(email@.body_text),
            code_spans(normalized(email@.body_text)),
        ),
        are_code_spans(searched_subject(email@), code_spans(searched_subject(email@))),
        announces_code(normalized(email@.body_text)) || announces_code(searched_subject(email@))
            ==> detection(email@) !is Nothing,
{
    let subject: String = normalize_subject(email);
    let body: String = normalize_text(email.body_text.as_str());
    let body_spans: Vec<(usize, usize)> = spans_of(body.as_str());
    let subject_spans: Vec<(usize, usize)> = spans_of(subject.as_str());
    proof {
        if is_bare_code(email@.body_text) && has_context(subject@) {
            bare_announced_code_is_found(body@, subject@, subject_spans@);
        }
        if announces_code(body@) {
            let span = choose|span: (usize, usize)| is_announced_code(body@, span);
            assert(body_spans@.contains(span));
            code_near_context_is_found(body@, body_spans@, has_context(subject@), span);
        }
        if announces_code(subject@) {
            let span = choose|span: (usize, usize)| is_announced_code(subject@, span);
            assert(subject_spans@.contains(span));
            code_near_context_is_found(subject@, subject_spans@, false, span);
        }
    }
    match pick_code(body.as_str(), &body_spans, subject.as_str(), &subject_spans) {
        Ok(_) => Ok(detect_otp(email)),
        Err(split) => Err(split),
    }
}

/// `code` is what the span at `k` holds, and that span is neither a date nor
/// of the wrong length.
pub open spec fn comes_from(
    text: Seq<char>,
    spans: Seq<(usize, usize)>,
    k: int,
    code: Seq<char>,
) -> bool {
    &&& 0 <= k < spans.len()
    &&& !is_passed_over(text, spans[k])
    &&& code == digits_of(raw_code(text, spans[k]))
}

/// `code` comes from a span that no context word is near.
pub open spec fn is_unconfirmed(
    text: Seq<char>,
    spans: Seq<(usize, usize)>,
    code: Seq<char>,
) -> bool {
    exists|k: int| #[trigger]
        comes_from(text, spans, k, code) && !is_near_context(text, spans[k])
}

/// No span before the one at `end` holds a code near a context word.
pub open spec fn none_confirmed(text: Seq<char>, spans: Seq<(usize, usize)>, end: int) -> bool {
    forall|j: int|
        0 <= j < end ==> is_passed_over(text, #[trigger] spans[j]) || !is_near_context(
            text,
            spans[j],
        )
}

/// `code` comes from the span at `k`, the first one near a context word.
pub open spec fn is_confirmed(
    text: Seq<char>,
    spans: Seq<(usize, usize)>,
    k: int,
    code: Seq<char>,
) -> bool {
    &&& comes_from(text, spans, k, code)
    &&& sliceable(text, context_start(spans[k]), context_end(text, spans[k]))
    &&& is_near_context(text, spans[k])
    &&& none_confirmed(text, spans, k)
}

/// `code` comes from the first span near a context word.
pub open spec fn has_confirmed(
    text: Seq<char>,
    spans: Seq<(usize, usize)>,
    code: Seq<char>,
) -> bool {
    exists|k: int| is_confirmed(text, spans, k, code)
}

/// The search for a confirmed code stops at the first span that is near a
/// context word, and every code it has seen comes from a span.
proof fn lemma_scan(text: Seq<char>, spans: Seq<(usize, usize)>, from: int, seen: Seq<Seq<char>>)
    requires
        0 <= from <= spans.len(),
        forall|i: int| 0 <= i < seen.len() ==> is_unconfirmed(text, spans, #[trigger] seen[i]),
        none_confirmed(text, spans, from),
    ensures
        scan(text, spans, from, seen) matches ScanView::Confirmed(code) ==> has_confirmed(
            text,
            spans,
            code,
        ),
        scan(text, spans, from, seen) matches ScanView::Unconfirmed(codes) ==> forall|i: int|
            0 <= i < codes.len() ==> is_unconfirmed(text, spans, #[trigger] codes[i]),
        scan(text, spans, from, seen) is Unconfirmed ==> none_confirmed(
            text,
            spans,
            spans.len() as int,
        ),
    decreases spans.len() - from,
{
    if from < spans.len() {
        let span = spans[from];
        let code = digits_of(raw_code(text, span));
        if is_passed_over(text, span) {
            lemma_scan(text, spans, from + 1, seen);
        } else if !sliceable(text, context_start(span), context_end(text, span)) {
        } else if is_near_context(text, span) {
            assert(is_confirmed(text, spans, from, code));
        } else {
            let more = seen.push(code);
            assert(comes_from(text, spans, from, code));
            assert forall|i: int| 0 <= i < more.len() implies is_unconfirmed(
                text,
                spans,
                #[trigger] more[i],
            ) by {
                if i < seen.len() {
                    assert(more[i] == seen[i]);
                }
            }
            lemma_scan(text, spans, from + 1, more);
        }
    }
}

/// A code that is found is what one of the candidates holds: four to eight
/// digits that stand apart from other letters and digits and are not a date.
/// Either it is the first candidate near a context word, or no candidate is
/// near one and an announced text has nothing else to read.
pub proof fn found_code_is_a_candidate(
    text: Seq<char>,
    spans: Seq<(usize, usize)>,
    announced: bool,
    code: Seq<char>,
) -> (k: int)
    requires
        are_code_spans(text, spans),
        finding(text, spans, announced) == FindingView::Code(code),
    ensures
        is_bare_code(code),
        0 <= k < spans.len(),
        code == digits_of(raw_code(text, spans[k])),
        is_code_span(text, spans[k]),
        !is_iso_date(trimmed(raw_code(text, spans[k]))),
        is_near_context(text, spans[k]) ==> none_confirmed(text, spans, k),
        !is_near_context(text, spans[k]) ==> announced && is_sparse(text) && none_confirmed(
            text,
            spans,
            spans.len() as int,
        ),
{
    lemma_scan(text, spans, 0, Seq::empty());
    let k: int = match scan(text, spans, 0, Seq::empty()) {
        ScanView::Confirmed(c) => choose|k: int| is_confirmed(text, spans, k, c),
        ScanView::Unconfirmed(codes) => {
            assert(is_unconfirmed(text, spans, codes[0]));
            choose|k: int| #[trigger]
                comes_from(text, spans, k, codes[0]) && !is_near_context(text, spans[k])
        },
        ScanView::SplitCharacter => 0,
    };
    assert(comes_from(text, spans, k, code));
    lemma_digits(raw_code(text, spans[k]));
    assert(is_code_span(text, spans[k]));
    k
}

/// The bytes of a slice encode text, and no more characters than there are
/// bytes.
proof fn lemma_slice_length(text: Seq<char>, from: int, to: int)
    requires
        sliceable(text, from, to),
    ensures
        byte_slice(text, from, to).len() <= to - from,
{
    let bytes = encode_utf8(text);
    let head = bytes.subrange(0, to);
    vstd::utf8::encode_utf8_valid_utf8(text);
    vstd::utf8::valid_utf8_split(bytes, to);
    if from < to {
        vstd::utf8::is_char_boundary_iff_not_is_continuation_byte(bytes, from);
        vstd::utf8::is_char_boundary_iff_not_is_continuation_byte(head, from);
    } else {
        vstd::utf8::is_char_boundary_start_end_of_seq(head);
    }
    vstd::utf8::valid_utf8_split(head, from);
    assert(head.subrange(from, head.len() as int) =~= bytes.subrange(from, to));
    lemma_decoded_length(bytes.subrange(from, to));
}

proof fn lemma_decoded_length(bytes: Seq<u8>)
    requires
        vstd::utf8::valid_utf8(bytes),
    ensures
        decode_utf8(bytes).len() <= bytes.len(),
    decreases bytes.len(),
{
    if bytes.len() > 0 {
        lemma_decoded_length(vstd::utf8::pop_first_scalar(bytes));
    }
}

/// Trimming does not lengthen a text.
proof fn lemma_trimmed_length(text: Seq<char>)
    ensures
        trimmed(text).len() <= text.len(),
{
    lemma_trimmed_start_length(text);
    lemma_trimmed_end_length(trimmed_start(text));
}

proof fn lemma_trimmed_start_length(text: Seq<char>)
    ensures
        trimmed_start(text).len() <= text.len(),
    decreases text.len(),
{
    if text.len() > 0 && is_white_space(text[0]) {
        lemma_trimmed_start_length(text.skip(1));
    }
}

proof fn lemma_trimmed_end_length(text: Seq<char>)
    ensures
        trimmed_end(text).len() <= text.len(),
    decreases text.len(),
{
    if text.len() > 0 && is_white_space(text.last()) {
        lemma_trimmed_end_length(text.drop_last());
    }
}

/// A text in which a code that stands apart has a context word in its
/// surroundings yields a code, unless it cannot be searched.
pub proof fn code_near_context_is_found(
    text: Seq<char>,
    spans: Seq<(usize, usize)>,
    announced: bool,
    span: (usize, usize),
)
    requires
        are_code_spans(text, spans),
        spans.contains(span),
        is_announced_code(text, span),
    ensures
        finding(text, spans, announced) !is Nothing,
{
    let k = choose|k: int| 0 <= k < spans.len() && spans[k] == span;
    assert(is_code_span(text, spans[k]));
    lemma_slice_length(text, span.0 as int, span.1 as int);
    lemma_trimmed_length(raw_code(text, span));
    assert(!is_passed_over(text, spans[k]));
    lemma_scan(text, spans, 0, Seq::empty());
}

/// The digits of a text are digits.
proof fn lemma_digits(text: Seq<char>)
    ensures
        forall|i: int| 0 <= i < digits_of(text).len() ==> is_digit(#[trigger] digits_of(text)[i]),
    decreases text.len(),
{
    reveal(Seq::filter);
    if text.len() > 0 {
        lemma_digits(text.drop_last());
    }
}

/// Every code found in a mail has four to eight digits and nothing else.
pub proof fn found_code_has_four_to_eight_digits(email: EmailView)
    ensures
        detection(email) matches FindingView::Code(code) ==> is_bare_code(code),
{
    let body = normalized(email.body_text);
    let subject = searched_subject(email);
    lemma_finding_digits(body, code_spans(body), has_context(subject));
    lemma_finding_digits(subject, code_spans(subject), false);
}

proof fn lemma_finding_digits(text: Seq<char>, spans: Seq<(usize, usize)>, announced: bool)
    ensures
        finding(text, spans, announced) matches FindingView::Code(code) ==> is_bare_code(code),
{
    lemma_scan(text, spans, 0, Seq::empty());
    match scan(text, spans, 0, Seq::empty()) {
        ScanView::Confirmed(code) => {
            let k = choose|k: int| is_confirmed(text, spans, k, code);
            lemma_digits(raw_code(text, spans[k]));
        },
        ScanView::Unconfirmed(codes) => {
            if codes.len() == 1 {
                assert(is_unconfirmed(text, spans, codes[0]));
                let k = choose|k: int| #[trigger]
                    comes_from(text, spans, k, codes[0]) && !is_near_context(text, spans[k]);
                lemma_digits(raw_code(text, spans[k]));
            }
        },
        ScanView::SplitCharacter => {},
    }
}

/// A text whose only candidates are dates holds no code, announced or not.
pub proof fn dates_are_no_codes(text: Seq<char>, spans: Seq<(usize, usize)>, announced: bool)
    requires
        forall|k: int|
            0 <= k < spans.len() ==> is_iso_date(trimmed(raw_code(text, #[trigger] spans[k]))),
    ensures
        finding(text, spans, announced) == FindingView::Nothing,
{
    lemma_scan_dates(text, spans, 0);
}

proof fn lemma_scan_dates(text: Seq<char>, spans: Seq<(usize, usize)>, from: int)
    requires
        0 <= from <= spans.len(),
        forall|k: int|
            0 <= k < spans.len() ==> is_iso_date(trimmed(raw_code(text, #[trigger] spans[k]))),
    ensures
        scan(text, spans, from, Seq::empty()) == ScanView::Unconfirmed(Seq::empty()),
    decreases spans.len() - from,
{
    if from < spans.len() {
        assert(is_passed_over(text, spans[from]));
        lemma_scan_dates(text, spans, from + 1);
    }
}

/// What stands in a slice of a text stands in the text.
proof fn lemma_slice_contains(text: Seq<char>, from: int, to: int, pattern: Seq<char>)
    requires
        sliceable(text, from, to),
        contains_text(byte_slice(text, from, to), pattern),
    ensures
        contains_text(text, pattern),
{
    let bytes = encode_utf8(text);
    let head = bytes.subrange(0, to);
    vstd::utf8::encode_utf8_valid_utf8(text);
    vstd::utf8::encode_utf8_decode_utf8(text);
    vstd::utf8::valid_utf8_split(bytes, to);
    vstd::utf8::decode_utf8_split(bytes, to);
    if from < to {
        vstd::utf8::is_char_boundary_iff_not_is_continuation_byte(bytes, from);
        vstd::utf8::is_char_boundary_iff_not_is_continuation_byte(head, from);
    } else {
        vstd::utf8::is_char_boundary_start_end_of_seq(head);
    }
    vstd::utf8::decode_utf8_split(head, from);
    assert(head.subrange(from, head.len() as int) =~= bytes.subrange(from, to));
    let before = decode_utf8(head.subrange(0, from));
    let slice = byte_slice(text, from, to);
    let after = decode_utf8(bytes.subrange(to, bytes.len() as int));
    assert(text == before + slice + after);
    let at = choose|at: int| occurs_at(slice, pattern, at);
    assert(text.subrange(before.len() + at, before.len() + at + pattern.len())
        =~= slice.subrange(at, at + pattern.len()));
    assert(occurs_at(text, pattern, before.len() + at));
}

/// A context word in a slice of a text is one in the text.
proof fn lemma_slice_context(text: Seq<char>, from: int, to: int)
    requires
        sliceable(text, from, to),
        has_context(byte_slice(text, from, to)),
    ensures
        has_context(text),
{
    let slice = byte_slice(text, from, to);
    if contains_text(slice, "code"@) {
        lemma_slice_contains(text, from, to, "code"@);
    } else if contains_text(slice, "verification"@) {
        lemma_slice_contains(text, from, to, "verification"@);
    } else if contains_text(slice, "2fa"@) {
        lemma_slice_contains(text, from, to, "2fa"@);
    } else if contains_text(slice, "two-factor"@) {
        lemma_slice_contains(text, from, to, "two-factor"@);
    } else if contains_text(slice, "two factor"@) {
        lemma_slice_contains(text, from, to, "two factor"@);
    } else if contains_text(slice, "one-time"@) {
        lemma_slice_contains(text, from, to, "one-time"@);
    } else if contains_text(slice, "one time"@) {
        lemma_slice_contains(text, from, to, "one time"@);
    } else if contains_text(slice, "otp"@) {
        lemma_slice_contains(text, from, to, "otp"@);
    } else if contains_text(slice, "security"@) {
        lemma_slice_contains(text, from, to, "security"@);
    } else if contains_text(slice, "signin"@) {
        lemma_slice_contains(text, from, to, "signin"@);
    } else {
        lemma_slice_contains(text, from, to, "sign in"@);
    }
}

/// A mail without a context word in body and subject yields no code, whatever
/// numbers it holds.
pub proof fn no_context_no_code(
    body: Seq<char>,
    body_spans: Seq<(usize, usize)>,
    subject: Seq<char>,
    subject_spans: Seq<(usize, usize)>,
)
    requires
        !has_context(body),
        !has_context(subject),
    ensures
        picked(body, body_spans, subject, subject_spans) !is Code,
{
    lemma_unconfirmed(body, body_spans);
    lemma_unconfirmed(subject, subject_spans);
}

/// A mail without a word that announces a code, in its body or its subject, has
/// no code.
pub proof fn mail_without_context_has_no_code(email: EmailView)
    requires
        !has_context(normalized(email.body_text)),
        !has_context(searched_subject(email)),
    ensures
        detection(email) !is Code,
{
    let body = normalized(email.body_text);
    let subject = searched_subject(email);
    no_context_no_code(body, code_spans(body), subject, code_spans(subject));
}

proof fn lemma_unconfirmed(text: Seq<char>, spans: Seq<(usize, usize)>)
    requires
        !has_context(text),
    ensures
        scan(text, spans, 0, Seq::empty()) !is Confirmed,
{
    lemma_scan(text, spans, 0, Seq::empty());
    if let ScanView::Confirmed(code) = scan(text, spans, 0, Seq::empty()) {
        let k = choose|k: int| is_confirmed(text, spans, k, code);
        lemma_slice_context(text, context_start(spans[k]), context_end(text, spans[k]));
    }
}

} // verus!
