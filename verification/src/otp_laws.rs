//! What holds of the search for one-time passwords, said of bytes: where words
//! and digits stand in the encoding of a text.

#[allow(unused_imports)]
use crate::models::EmailView;
#[allow(unused_imports)]
use crate::otp::{
    are_code_spans, byte_slice, context_end, context_start, detection, digits_of, finding,
    has_context, is_code_span, is_near_context, is_passed_over, plain_breaks, raw_code,
    regex_spans, scan, sliceable, source_label, FindingView, OTP_CODE_PATTERN,
};
#[allow(unused_imports)]
use crate::text::{contains_text, is_white_space, lowercase, occurs_at, trimmed};
use vstd::prelude::*;
#[allow(unused_imports)]
use vstd::utf8::{decode_utf8, encode_utf8, is_ascii_chars, is_char_boundary, valid_utf8};

verus! {

/// `word` stands in `text` from its byte `at` on.
pub open spec fn stands_at_byte(text: Seq<char>, word: Seq<char>, at: int) -> bool {
    let letters = encode_utf8(word);
    &&& 0 <= at
    &&& at + letters.len() <= encode_utf8(text).len()
    &&& encode_utf8(text).subrange(at, at + letters.len()) == letters
}

/// A word that announces a code.
pub open spec fn announces(word: Seq<char>) -> bool {
    ||| word == "code"@
    ||| word == "verification"@
    ||| word == "2fa"@
    ||| word == "two-factor"@
    ||| word == "two factor"@
    ||| word == "one-time"@
    ||| word == "one time"@
    ||| word == "otp"@
    ||| word == "security"@
    ||| word == "signin"@
    ||| word == "sign in"@
}

/// A word that announces a code stands in the bytes `from..to` of `text`.
pub open spec fn word_between(text: Seq<char>, from: int, to: int) -> bool {
    exists|word: Seq<char>, at: int| #[trigger]
        stands_at_byte(text, word, at) && announces(word) && from <= at && at + encode_utf8(
            word,
        ).len() <= to
}

/// A word that announces a code stands no more than 72 bytes away from the
/// bytes `span` of `text`.
pub open spec fn word_near(text: Seq<char>, span: (usize, usize)) -> bool {
    word_between(text, span.0 - 72, span.1 + 72)
}

/// No character of `text` is cut 72 bytes before or behind `span`.
pub open spec fn ends_are_whole(text: Seq<char>, span: (usize, usize)) -> bool {
    let bytes = encode_utf8(text);
    &&& span.0 > 72 ==> is_char_boundary(bytes, span.0 - 72)
    &&& span.1 + 72 < bytes.len() ==> is_char_boundary(bytes, span.1 + 72)
}

/// The bytes `span` of `text` are a date: four digits, two and two, with hyphens
/// between.
pub open spec fn holds_date(text: Seq<char>, span: (usize, usize)) -> bool {
    let bytes = encode_utf8(text);
    &&& span.1 == span.0 + 10
    &&& forall|i: int|
        0 <= i < 10 ==> if i == 4 || i == 7 {
            #[trigger] bytes[span.0 + i] == 45
        } else {
            48 <= bytes[span.0 + i] <= 57
        }
}

/// The digits among the characters that the bytes `span` of `text` encode.
pub open spec fn digits_at(text: Seq<char>, span: (usize, usize)) -> Seq<char> {
    digits_of(decode_utf8(encode_utf8(text).subrange(span.0 as int, span.1 as int)))
}

/// `text` is made of digits, white space and the punctuation of a bare code.
pub open spec fn is_bare(text: Seq<char>) -> bool {
    forall|i: int|
        0 <= i < text.len() ==> {
            let c = #[trigger] text[i];
            ||| '0' <= c <= '9'
            ||| is_white_space(c)
            ||| c == '-' || c == ':' || c == '.' || c == ','
            ||| c == '(' || c == ')' || c == '[' || c == ']'
            ||| c == '|' || c == '/'
        }
}

/// The encoding of two texts one after the other.
proof fn lemma_encoded_sum(first: Seq<char>, second: Seq<char>)
    ensures
        encode_utf8(first + second) == encode_utf8(first) + encode_utf8(second),
    decreases first.len(),
{
    if first.len() == 0 {
        assert(first + second =~= second);
        assert(encode_utf8(first) + encode_utf8(second) =~= encode_utf8(second));
    } else {
        lemma_encoded_sum(first.drop_first(), second);
        assert((first + second).drop_first() =~= first.drop_first() + second);
        let head = vstd::utf8::encode_scalar(first[0] as u32);
        assert(head + (encode_utf8(first.drop_first()) + encode_utf8(second)) =~= (head
            + encode_utf8(first.drop_first())) + encode_utf8(second));
    }
}

/// A slice of a text is encoded by the bytes it was cut from.
proof fn lemma_slice_bytes(text: Seq<char>, from: int, to: int)
    requires
        sliceable(text, from, to),
    ensures
        valid_utf8(encode_utf8(text).subrange(from, to)),
        encode_utf8(byte_slice(text, from, to)) == encode_utf8(text).subrange(from, to),
{
    let bytes = encode_utf8(text);
    let head = bytes.subrange(0, to);
    vstd::utf8::encode_utf8_valid_utf8(text);
    vstd::utf8::valid_utf8_split(bytes, to);
    if from < to {
        vstd::utf8::is_char_boundary_iff_not_is_continuation_byte(bytes, from);
        vstd::utf8::is_char_boundary_iff_not_is_continuation_byte(head, from);
    } else {
        vstd::utf8::is_char_boundary_start_end_of_seq(head);
    }
    vstd::utf8::valid_utf8_split(head, from);
    assert(head.subrange(from, head.len() as int) =~= bytes.subrange(from, to));
    vstd::utf8::decode_utf8_encode_utf8(bytes.subrange(from, to));
}

/// A word that stands in the bytes of a slice stands in the slice.
proof fn lemma_word_in_slice(text: Seq<char>, from: int, to: int, word: Seq<char>, at: int)
    requires
        sliceable(text, from, to),
        is_ascii_chars(word),
        word.len() > 0,
        stands_at_byte(text, word, at),
        from <= at,
        at + encode_utf8(word).len() <= to,
    ensures
        contains_text(byte_slice(text, from, to), word),
{
    lemma_slice_bytes(text, from, to);
    let bytes = encode_utf8(text);
    let slice = bytes.subrange(from, to);
    let letters = encode_utf8(word);
    let n = letters.len() as int;
    let p = at - from;
    vstd::utf8::is_ascii_chars_encode_utf8(word);
    assert(slice.subrange(p, p + n) =~= letters);
    assert(slice[p] == letters[0]) by {
        assert(slice.subrange(p, p + n)[0] == slice[p]);
    }
    assert(letters[0] == word[0] as u8);
    vstd::utf8::is_char_boundary_iff_not_is_continuation_byte(slice, p);
    vstd::utf8::valid_utf8_split(slice, p);
    vstd::utf8::decode_utf8_split(slice, p);
    let rest = slice.subrange(p, slice.len() as int);
    assert(rest.subrange(0, n) =~= letters);
    vstd::utf8::encode_utf8_valid_utf8(word);
    vstd::utf8::encode_utf8_decode_utf8(word);
    if !valid_utf8(rest.subrange(n, rest.len() as int)) {
        vstd::utf8::partial_valid_partial_invalid_utf8(rest, n);
    }
    if n < rest.len() {
        let tail = rest.subrange(n, rest.len() as int);
        assert(tail[0] == rest[n]);
        assert(vstd::utf8::valid_first_scalar(tail));
        vstd::utf8::is_char_boundary_iff_not_is_continuation_byte(rest, n);
    } else {
        vstd::utf8::is_char_boundary_start_end_of_seq(rest);
    }
    vstd::utf8::decode_utf8_split(rest, n);
    let before = decode_utf8(slice.subrange(0, p));
    let after = decode_utf8(rest.subrange(n, rest.len() as int));
    let chars = byte_slice(text, from, to);
    assert(chars =~= before + (word + after));
    assert(chars.subrange(before.len() as int, (before.len() + word.len()) as int) =~= word);
    assert(occurs_at(chars, word, before.len() as int));
}

/// A word that stands in a slice stands in its bytes.
proof fn lemma_word_in_bytes(text: Seq<char>, from: int, to: int, word: Seq<char>) -> (at: int)
    requires
        sliceable(text, from, to),
        contains_text(byte_slice(text, from, to), word),
    ensures
        stands_at_byte(text, word, at),
        from <= at,
        at + encode_utf8(word).len() <= to,
{
    lemma_slice_bytes(text, from, to);
    let chars = byte_slice(text, from, to);
    let slice = encode_utf8(text).subrange(from, to);
    let k = choose|k: int| occurs_at(chars, word, k);
    let before = chars.subrange(0, k);
    let after = chars.subrange(k + word.len(), chars.len() as int);
    assert(chars =~= before + (word + after));
    lemma_encoded_sum(before, word + after);
    lemma_encoded_sum(word, after);
    let p = encode_utf8(before).len() as int;
    let n = encode_utf8(word).len() as int;
    assert(slice.subrange(p, p + n) =~= encode_utf8(word));
    assert(encode_utf8(text).subrange(from + p, from + p + n) =~= slice.subrange(p, p + n));
    from + p
}

/// The words that announce a code are short and plain.
proof fn lemma_announcing_word(word: Seq<char>)
    requires
        announces(word),
    ensures
        is_ascii_chars(word),
        word.len() > 0,
{
    reveal_strlit("code");
    reveal_strlit("verification");
    reveal_strlit("2fa");
    reveal_strlit("two-factor");
    reveal_strlit("two factor");
    reveal_strlit("one-time");
    reveal_strlit("one time");
    reveal_strlit("otp");
    reveal_strlit("security");
    reveal_strlit("signin");
    reveal_strlit("sign in");
}

/// A slice has a context word exactly if an announcing word stands in its bytes.
proof fn lemma_context(text: Seq<char>, from: int, to: int)
    requires
        sliceable(text, from, to),
    ensures
        has_context(byte_slice(text, from, to)) <==> word_between(text, from, to),
{
    let chars = byte_slice(text, from, to);
    if word_between(text, from, to) {
        let (word, at) = choose|word: Seq<char>, at: int| #[trigger]
            stands_at_byte(text, word, at) && announces(word) && from <= at && at + encode_utf8(
                word,
            ).len() <= to;
        lemma_announcing_word(word);
        lemma_word_in_slice(text, from, to, word, at);
    }
    if has_context(chars) {
        let word = choose|word: Seq<char>| announces(word) && contains_text(chars, word);
        assert(announces("code"@) && announces("verification"@) && announces("2fa"@) && announces(
            "two-factor"@,
        ) && announces("two factor"@) && announces("one-time"@) && announces("one time"@)
            && announces("otp"@) && announces("security"@) && announces("signin"@) && announces(
            "sign in"@,
        ));
        let at = lemma_word_in_bytes(text, from, to, word);
        assert(stands_at_byte(text, word, at));
    }
}

/// The surroundings of a code can be cut out exactly if no character is cut, and
/// hold a context word exactly if an announcing word is near.
proof fn lemma_near(text: Seq<char>, span: (usize, usize))
    requires
        is_code_span(text, span),
    ensures
        sliceable(text, context_start(span), context_end(text, span)) <==> ends_are_whole(
            text,
            span,
        ),
        ends_are_whole(text, span) ==> (is_near_context(text, span) <==> word_near(text, span)),
{
    let bytes = encode_utf8(text);
    let (from, to) = (context_start(span), context_end(text, span));
    vstd::utf8::encode_utf8_valid_utf8(text);
    vstd::utf8::is_char_boundary_start_end_of_seq(bytes);
    if ends_are_whole(text, span) {
        lemma_context(text, from, to);
        if word_near(text, span) {
            let (word, at) = choose|word: Seq<char>, at: int| #[trigger]
                stands_at_byte(text, word, at) && announces(word) && span.0 - 72 <= at && at
                    + encode_utf8(word).len() <= span.1 + 72;
            assert(stands_at_byte(text, word, at) && from <= at && at + encode_utf8(word).len()
                <= to);
        }
        if word_between(text, from, to) {
            let (word, at) = choose|word: Seq<char>, at: int| #[trigger]
                stands_at_byte(text, word, at) && announces(word) && from <= at && at
                    + encode_utf8(word).len() <= to;
            assert(stands_at_byte(text, word, at) && span.0 - 72 <= at && at + encode_utf8(
                word,
            ).len() <= span.1 + 72);
        }
    }
}

/// A match of the code pattern is passed over exactly if it is a date.
proof fn lemma_date(text: Seq<char>, span: (usize, usize))
    requires
        is_code_span(text, span),
    ensures
        is_passed_over(text, span) <==> holds_date(text, span),
        raw_code(text, span) == decode_utf8(
            encode_utf8(text).subrange(span.0 as int, span.1 as int),
        ),
{
    let bytes = encode_utf8(text);
    let (from, to) = (span.0 as int, span.1 as int);
    let raw = raw_code(text, span);
    lemma_slice_bytes(text, from, to);
    assert(trimmed(raw) == raw);
    if is_passed_over(text, span) {
        vstd::utf8::is_ascii_chars_encode_utf8(raw);
        assert forall|i: int| 0 <= i < 10 implies if i == 4 || i == 7 {
            #[trigger] bytes[span.0 + i] == 45
        } else {
            48 <= bytes[span.0 + i] <= 57
        } by {
            assert(bytes.subrange(from, to)[i] == raw[i] as u8);
        }
    }
    if holds_date(text, span) {
        let chars = Seq::new(10, |i: int| bytes[from + i] as char);
        assert forall|i: int| 0 <= i < 10 implies '\0' <= #[trigger] chars[i] <= '\u{7f}' && chars[i]
            as u8 == bytes[from + i] by {
            assert(if i == 4 || i == 7 {
                bytes[span.0 + i] == 45
            } else {
                48 <= bytes[span.0 + i] <= 57
            });
        }
        vstd::utf8::is_ascii_chars_encode_utf8(chars);
        assert(encode_utf8(chars) =~= bytes.subrange(from, to));
        vstd::utf8::encode_utf8_decode_utf8(chars);
        assert(raw == chars);
    }
}

/// The codes at `from..to` of `spans` that are no dates.
spec fn codes_between(text: Seq<char>, spans: Seq<(usize, usize)>, from: int, to: int) -> Seq<
    Seq<char>,
>
    decreases to - from,
{
    if from >= to {
        Seq::empty()
    } else if holds_date(text, spans[from]) {
        codes_between(text, spans, from + 1, to)
    } else {
        seq![digits_at(text, spans[from])] + codes_between(text, spans, from + 1, to)
    }
}

/// Dates and codes that no announcing word is near do not end the search.
proof fn lemma_scan_past(
    text: Seq<char>,
    spans: Seq<(usize, usize)>,
    from: int,
    to: int,
    seen: Seq<Seq<char>>,
)
    requires
        are_code_spans(text, spans),
        0 <= from <= to <= spans.len(),
        forall|j: int|
            from <= j < to ==> holds_date(text, #[trigger] spans[j]) || (ends_are_whole(
                text,
                spans[j],
            ) && !word_near(text, spans[j])),
    ensures
        scan(text, spans, from, seen) == scan(
            text,
            spans,
            to,
            seen + codes_between(text, spans, from, to),
        ),
    decreases to - from,
{
    if from == to {
        assert(seen + codes_between(text, spans, from, to) =~= seen);
    } else {
        assert(is_code_span(text, spans[from]));
        lemma_date(text, spans[from]);
        lemma_near(text, spans[from]);
        if holds_date(text, spans[from]) {
            lemma_scan_past(text, spans, from + 1, to, seen);
        } else {
            let code = digits_at(text, spans[from]);
            lemma_scan_past(text, spans, from + 1, to, seen.push(code));
            assert(seen.push(code) + codes_between(text, spans, from + 1, to) =~= seen
                + codes_between(text, spans, from, to));
        }
    }
}

/// How many codes there are among spans of which none, one or more are no dates.
proof fn lemma_codes_between(
    text: Seq<char>,
    spans: Seq<(usize, usize)>,
    from: int,
    to: int,
    first: int,
    second: int,
)
    requires
        0 <= from <= to <= spans.len(),
    ensures
        (forall|j: int| from <= j < to ==> holds_date(text, #[trigger] spans[j]))
            ==> codes_between(text, spans, from, to).len() == 0,
        from <= first < to && !holds_date(text, spans[first]) ==> codes_between(
            text,
            spans,
            from,
            to,
        ).len() >= 1,
        from <= first < second < to && !holds_date(text, spans[first]) && !holds_date(
            text,
            spans[second],
        ) ==> codes_between(text, spans, from, to).len() >= 2,
        from <= first < to && !holds_date(text, spans[first]) && (forall|j: int|
            from <= j < to && j != first ==> holds_date(text, #[trigger] spans[j]))
            ==> codes_between(text, spans, from, to) == seq![digits_at(text, spans[first])],
    decreases to - from,
{
    if from < to {
        lemma_codes_between(text, spans, from + 1, to, first, second);
        lemma_codes_between(text, spans, from + 1, to, second, second);
        let rest = codes_between(text, spans, from + 1, to);
        if from == first && rest.len() == 0 {
            assert(seq![digits_at(text, spans[from])] + rest =~= seq![digits_at(text, spans[from])]);
        }
    }
}

/// The first code wins that is no date and has an announcing word no more than
/// 72 bytes before or behind it: its digits are what is found, whether or not
/// the text is announced.
pub proof fn first_code_near_a_word_is_found(
    text: Seq<char>,
    spans: Seq<(usize, usize)>,
    announced: bool,
    k: int,
)
    requires
        are_code_spans(text, spans),
        0 <= k < spans.len(),
        !holds_date(text, spans[k]),
        word_near(text, spans[k]),
        ends_are_whole(text, spans[k]),
        forall|j: int|
            0 <= j < k ==> holds_date(text, #[trigger] spans[j]) || (ends_are_whole(text, spans[j])
                && !word_near(text, spans[j])),
    ensures
        finding(text, spans, announced) == FindingView::Code(digits_at(text, spans[k])),
{
    lemma_scan_past(text, spans, 0, k, Seq::empty());
    assert(is_code_span(text, spans[k]));
    lemma_date(text, spans[k]);
    lemma_near(text, spans[k]);
}

/// Where no code has an announcing word near it, an announced text yields its
/// code if it has exactly one and nothing but digits, white space and
/// punctuation; every other text yields none.
pub proof fn code_far_from_words_needs_an_announcement(
    text: Seq<char>,
    spans: Seq<(usize, usize)>,
    announced: bool,
    first: int,
    second: int,
)
    requires
        are_code_spans(text, spans),
        forall|j: int|
            0 <= j < spans.len() ==> holds_date(text, #[trigger] spans[j]) || (ends_are_whole(
                text,
                spans[j],
            ) && !word_near(text, spans[j])),
    ensures
        announced && is_bare(text) && 0 <= first < spans.len() && !holds_date(text, spans[first])
            && (forall|j: int|
            0 <= j < spans.len() && j != first ==> holds_date(text, #[trigger] spans[j]))
            ==> finding(text, spans, announced) == FindingView::Code(digits_at(text, spans[first])),
        !announced || !is_bare(text) ==> finding(text, spans, announced) is Nothing,
        (forall|j: int| 0 <= j < spans.len() ==> holds_date(text, #[trigger] spans[j]))
            ==> finding(text, spans, announced) is Nothing,
        0 <= first < second < spans.len() && !holds_date(text, spans[first]) && !holds_date(
            text,
            spans[second],
        ) ==> finding(text, spans, announced) is Nothing,
{
    let n = spans.len() as int;
    lemma_scan_past(text, spans, 0, n, Seq::empty());
    lemma_codes_between(text, spans, 0, n, first, second);
    let codes = codes_between(text, spans, 0, n);
    assert(Seq::<Seq<char>>::empty() + codes =~= codes);
    assert(crate::otp::is_sparse(text) <==> is_bare(text)) by {
        if is_bare(text) {
            assert forall|i: int| 0 <= i < text.len() implies crate::otp::is_sparse_char(
                #[trigger] text[i],
            ) by {}
        }
        if crate::otp::is_sparse(text) {
            assert forall|i: int| 0 <= i < text.len() implies crate::otp::is_sparse_char(
                #[trigger] text[i],
            ) by {}
        }
    }
}

/// A text cannot be searched exactly where a character is cut 72 bytes away from
/// a code that is no date and comes before every code with an announcing word
/// near it.
pub proof fn cut_characters_stop_the_search(
    text: Seq<char>,
    spans: Seq<(usize, usize)>,
    announced: bool,
    k: int,
)
    requires
        are_code_spans(text, spans),
        0 <= k < spans.len(),
        !holds_date(text, spans[k]),
        !ends_are_whole(text, spans[k]),
        forall|j: int|
            0 <= j < k ==> holds_date(text, #[trigger] spans[j]) || (ends_are_whole(text, spans[j])
                && !word_near(text, spans[j])),
    ensures
        finding(text, spans, announced) is SplitCharacter,
{
    lemma_scan_past(text, spans, 0, k, Seq::empty());
    assert(is_code_span(text, spans[k]));
    lemma_date(text, spans[k]);
    lemma_near(text, spans[k]);
}

/// A match of the code pattern that is no date, such as four to eight digits that
/// stand apart, is not missed where an announcing word lies within the 72 bytes
/// before it or within the 72 bytes behind it: the text yields a code, unless a
/// character is cut 72 bytes away from one.
pub proof fn code_beside_a_word_is_not_missed(
    text: Seq<char>,
    spans: Seq<(usize, usize)>,
    announced: bool,
    span: (usize, usize),
    word: Seq<char>,
    at: int,
)
    requires
        are_code_spans(text, spans),
        spans.contains(span),
        !holds_date(text, span),
        announces(word),
        stands_at_byte(text, word, at),
        (span.1 <= at && at + encode_utf8(word).len() <= span.1 + 72) || (span.0 - 72 <= at && at
            + encode_utf8(word).len() <= span.0),
    ensures
        finding(text, spans, announced) !is Nothing,
        (forall|j: int| 0 <= j < spans.len() ==> ends_are_whole(text, #[trigger] spans[j]))
            ==> finding(text, spans, announced) is Code,
        (forall|j: int| 0 <= j < spans.len() ==> ends_are_whole(text, #[trigger] spans[j]))
            && spans[0] == span ==> finding(text, spans, announced) == FindingView::Code(
            digits_at(text, span),
        ),
{
    let k = choose|k: int| 0 <= k < spans.len() && spans[k] == span;
    assert(stands_at_byte(text, word, at) && span.0 - 72 <= at && at + encode_utf8(word).len()
        <= span.1 + 72);
    assert(word_near(text, span));
    lemma_first_end(text, spans, announced, 0, k);
    if spans[0] == span && ends_are_whole(text, span) {
        first_code_near_a_word_is_found(text, spans, announced, 0);
    }
}

/// The search ends no later than at a code with an announcing word near it.
proof fn lemma_first_end(
    text: Seq<char>,
    spans: Seq<(usize, usize)>,
    announced: bool,
    from: int,
    k: int,
)
    requires
        are_code_spans(text, spans),
        0 <= from <= k < spans.len(),
        !holds_date(text, spans[k]),
        word_near(text, spans[k]),
        forall|j: int|
            0 <= j < from ==> holds_date(text, #[trigger] spans[j]) || (ends_are_whole(
                text,
                spans[j],
            ) && !word_near(text, spans[j])),
    ensures
        finding(text, spans, announced) !is Nothing,
        (forall|j: int| 0 <= j < spans.len() ==> ends_are_whole(text, #[trigger] spans[j]))
            ==> finding(text, spans, announced) is Code,
    decreases k - from,
{
    if holds_date(text, spans[from]) || (ends_are_whole(text, spans[from]) && !word_near(
        text,
        spans[from],
    )) {
        lemma_first_end(text, spans, announced, from + 1, k);
    } else if ends_are_whole(text, spans[from]) {
        first_code_near_a_word_is_found(text, spans, announced, from);
    } else {
        cut_characters_stop_the_search(text, spans, announced, from);
    }
}

/// The digits of a text are its digits in their order, and nothing else of it.
pub proof fn separators_are_dropped(first: Seq<char>, second: Seq<char>, c: char)
    ensures
        digits_of(first + second) == digits_of(first) + digits_of(second),
        '0' <= c <= '9' ==> digits_of(seq![c]) == seq![c],
        !('0' <= c <= '9') ==> digits_of(seq![c]) == Seq::<char>::empty(),
        digits_of(Seq::empty()) == Seq::<char>::empty(),
    decreases second.len(),
{
    reveal(Seq::filter);
    let none = Seq::<char>::empty();
    assert(seq![c].drop_last() =~= none);
    assert(digits_of(none) =~= none);
    assert(digits_of(seq![c]) =~= if '0' <= c <= '9' {
        none.push(c)
    } else {
        none
    });
    assert(none.push(c) =~= seq![c]);
    if second.len() == 0 {
        assert(first + second =~= first);
        assert(digits_of(first) + digits_of(second) =~= digits_of(first));
    } else {
        separators_are_dropped(first, second.drop_last(), c);
        assert((first + second).drop_last() =~= first + second.drop_last());
        assert((first + second).last() == second.last());
        assert(digits_of(first + second) =~= digits_of(first) + digits_of(second));
    }
}

/// Replacing a pattern at the first character of a text, or going past it.
proof fn lemma_replaced_head(c: char, rest: Seq<char>, pattern: Seq<char>, with: Seq<char>)
    requires
        pattern.len() > 0,
    ensures
        pattern[0] != c ==> crate::text::replaced(seq![c] + rest, pattern, with) == seq![c]
            + crate::text::replaced(rest, pattern, with),
        pattern == seq![c] ==> crate::text::replaced(seq![c] + rest, pattern, with) == with
            + crate::text::replaced(rest, pattern, with),
        pattern.len() == 2 && pattern[0] == c && !(rest.len() > 0 && rest[0] == pattern[1])
            ==> crate::text::replaced(seq![c] + rest, pattern, with) == seq![c]
            + crate::text::replaced(rest, pattern, with),
        pattern.len() == 2 && pattern[0] == c && rest.len() > 0 && rest[0] == pattern[1]
            ==> crate::text::replaced(seq![c] + rest, pattern, with) == with
            + crate::text::replaced(rest.skip(1), pattern, with),
{
    let text = seq![c] + rest;
    assert(text[0] == c);
    assert(text.skip(1) =~= rest);
    if occurs_at(text, pattern, 0) {
        assert(text.subrange(0, pattern.len() as int)[0] == pattern[0]);
        if pattern.len() == 2 {
            assert(text.subrange(0, 2)[1] == pattern[1]);
            assert(text[1] == rest[0]);
        }
    }
    if pattern == seq![c] {
        assert(text.subrange(0, 1) =~= pattern);
    }
    if pattern.len() == 2 && pattern[0] == c && rest.len() > 0 && rest[0] == pattern[1] {
        assert(text.subrange(0, 2) =~= pattern);
        assert(text.skip(2) =~= rest.skip(1));
    }
}

/// Before a text is searched, each no-break space becomes a space, each carriage
/// return a line feed, and one with a line feed behind it a single line feed;
/// every other character stays.
pub proof fn breaks_become_plain(c: char, rest: Seq<char>)
    ensures
        plain_breaks(Seq::empty()) == Seq::<char>::empty(),
        c != '\r' && c != '\u{a0}' ==> plain_breaks(seq![c] + rest) == seq![c] + plain_breaks(rest),
        plain_breaks(seq!['\u{a0}'] + rest) == seq![' '] + plain_breaks(rest),
        !(rest.len() > 0 && rest[0] == '\n') ==> plain_breaks(seq!['\r'] + rest) == seq!['\n']
            + plain_breaks(rest),
        plain_breaks(seq!['\r', '\n'] + rest) == seq!['\n'] + plain_breaks(rest),
{
    reveal_strlit("\u{a0}");
    reveal_strlit(" ");
    reveal_strlit("\r\n");
    reveal_strlit("\n");
    reveal_strlit("\r");
    assert("\u{a0}"@ =~= seq!['\u{a0}'] && " "@ =~= seq![' ']);
    assert("\r"@ =~= seq!['\r'] && "\n"@ =~= seq!['\n']);
    let spaced = crate::text::replaced(rest, "\u{a0}"@, " "@);
    let joined = crate::text::replaced(spaced, "\r\n"@, "\n"@);
    if rest.len() > 0 {
        lemma_replaced_head(rest[0], rest.skip(1), "\u{a0}"@, " "@);
        assert(seq![rest[0]] + rest.skip(1) =~= rest);
    }
    lemma_replaced_head(c, rest, "\u{a0}"@, " "@);
    lemma_replaced_head(c, spaced, "\r\n"@, "\n"@);
    lemma_replaced_head(c, joined, "\r"@, "\n"@);
    lemma_replaced_head('\u{a0}', rest, "\u{a0}"@, " "@);
    lemma_replaced_head(' ', spaced, "\r\n"@, "\n"@);
    lemma_replaced_head(' ', joined, "\r"@, "\n"@);
    lemma_replaced_head('\r', rest, "\u{a0}"@, " "@);
    lemma_replaced_head('\r', spaced, "\r\n"@, "\n"@);
    lemma_replaced_head('\r', joined, "\r"@, "\n"@);
    let next = seq!['\n'] + rest;
    assert(seq!['\r', '\n'] + rest =~= seq!['\r'] + next);
    lemma_replaced_head('\n', rest, "\u{a0}"@, " "@);
    lemma_replaced_head('\r', next, "\u{a0}"@, " "@);
    lemma_replaced_head('\r', seq!['\n'] + spaced, "\r\n"@, "\n"@);
    assert((seq!['\n'] + spaced).skip(1) =~= spaced);
    lemma_replaced_head('\n', joined, "\r"@, "\n"@);
}

/// A mail is searched in lower case and with plain breaks, the body first. The
/// body counts as announced exactly if an announcing word stands in the subject.
/// Where the body yields nothing, the subject itself is searched, unannounced; a
/// missing subject is an empty one.
pub proof fn body_is_searched_before_the_subject(
    email: EmailView,
    body_spans: Seq<(usize, usize)>,
    subject_spans: Seq<(usize, usize)>,
)
    requires
        ({
            let body = lowercase(plain_breaks(email.body_text));
            let subject = match email.subject {
                Some(subject) => lowercase(plain_breaks(subject)),
                None => Seq::empty(),
            };
            &&& regex_spans(OTP_CODE_PATTERN@, body) == Some(body_spans)
            &&& regex_spans(OTP_CODE_PATTERN@, subject) == Some(subject_spans)
        }),
    ensures
        ({
            let body = lowercase(plain_breaks(email.body_text));
            let subject = match email.subject {
                Some(subject) => lowercase(plain_breaks(subject)),
                None => Seq::empty(),
            };
            let announced = word_between(subject, 0, encode_utf8(subject).len() as int);
            detection(email) == match finding(body, body_spans, announced) {
                FindingView::Code(code) => FindingView::Code(code),
                FindingView::SplitCharacter => FindingView::SplitCharacter,
                FindingView::Nothing => finding(subject, subject_spans, false),
            }
        }),
{
    let subject = match email.subject {
        Some(subject) => lowercase(plain_breaks(subject)),
        None => Seq::empty(),
    };
    let bytes = encode_utf8(subject);
    vstd::utf8::encode_utf8_valid_utf8(subject);
    vstd::utf8::encode_utf8_decode_utf8(subject);
    vstd::utf8::is_char_boundary_start_end_of_seq(bytes);
    assert(bytes.subrange(0, bytes.len() as int) =~= bytes);
    lemma_context(subject, 0, bytes.len() as int);
}

/// A mail is not missed whose body has a match of the code pattern that is no
/// date, such as four to eight digits that stand apart, and an announcing word
/// within the 72 bytes before or behind it, in lower case and with plain breaks.
pub proof fn mail_with_an_announced_code_is_not_missed(
    email: EmailView,
    body_spans: Seq<(usize, usize)>,
    span: (usize, usize),
    word: Seq<char>,
    at: int,
)
    requires
        ({
            let body = lowercase(plain_breaks(email.body_text));
            &&& regex_spans(OTP_CODE_PATTERN@, body) == Some(body_spans)
            &&& are_code_spans(body, body_spans)
            &&& body_spans.contains(span)
            &&& !holds_date(body, span)
            &&& stands_at_byte(body, word, at)
        }),
        announces(word),
        (span.1 <= at && at + encode_utf8(word).len() <= span.1 + 72) || (span.0 - 72 <= at && at
            + encode_utf8(word).len() <= span.0),
    ensures
        detection(email) !is Nothing,
        ({
            let body = lowercase(plain_breaks(email.body_text));
            (forall|j: int|
                0 <= j < body_spans.len() ==> ends_are_whole(body, #[trigger] body_spans[j]))
                ==> detection(email) is Code
        }),
{
    let body = lowercase(plain_breaks(email.body_text));
    code_beside_a_word_is_not_missed(body, body_spans, true, span, word, at);
    code_beside_a_word_is_not_missed(body, body_spans, false, span, word, at);
}

/// A code is shown under the name of the sender, else under the subject as it
/// was written, else under the name of the mail service. What else a mail says
/// has no part in that, nor in whether it holds a code.
pub proof fn codes_are_named_after_the_sender(email: EmailView, other: EmailView)
    ensures
        email.sender matches Some(sender) ==> source_label(email) == sender,
        email.sender is None && email.subject is Some ==> source_label(email)
            == email.subject.unwrap(),
        email.sender is None && email.subject is None ==> source_label(email) == "Proton Mail"@,
        email.body_text == other.body_text && email.subject == other.subject ==> detection(email)
            == detection(other),
{
}

} // verus!
