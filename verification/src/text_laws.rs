//! What holds of searching, replacing, trimming and writing numbers.

#[allow(unused_imports)]
use crate::text::{
    contains_text, decimal, hex_digits, is_white_space, occurs_at, replaced, trimmed, trimmed_end,
    trimmed_start,
};
use vstd::prelude::*;

verus! {

/// A text contains exactly what stands in it with something, or nothing, before
/// and behind.
pub proof fn containing_is_standing_between(
    text: Seq<char>,
    before: Seq<char>,
    pattern: Seq<char>,
    after: Seq<char>,
)
    ensures
        contains_text(before + pattern + after, pattern),
        contains_text(text, pattern) ==> exists|head: Seq<char>, tail: Seq<char>|
            text == #[trigger] (head + pattern + tail),
{
    let whole = before + pattern + after;
    let at = before.len() as int;
    assert(whole.subrange(at, at + pattern.len()) =~= pattern);
    assert(occurs_at(whole, pattern, at));
    if contains_text(text, pattern) {
        let k = choose|k: int| occurs_at(text, pattern, k);
        let head = text.subrange(0, k);
        let tail = text.subrange(k + pattern.len(), text.len() as int);
        assert(text =~= head + pattern + tail);
    }
}

/// An occurrence in the rest of a text is one in the text.
proof fn lemma_occurs_later(text: Seq<char>, pattern: Seq<char>, at: int)
    requires
        text.len() > 0,
        0 <= at,
    ensures
        occurs_at(text.skip(1), pattern, at) <==> occurs_at(text, pattern, at + 1),
{
    let rest = text.skip(1);
    if at + pattern.len() <= rest.len() {
        assert(text.subrange(at + 1, at + 1 + pattern.len()) =~= rest.subrange(
            at,
            at + pattern.len(),
        ));
    }
}

/// A text in which the pattern does not occur stays as it is.
pub proof fn nothing_is_replaced_without_an_occurrence(
    text: Seq<char>,
    pattern: Seq<char>,
    with: Seq<char>,
)
    requires
        !contains_text(text, pattern),
    ensures
        replaced(text, pattern, with) == text,
    decreases text.len(),
{
    if text.len() > 0 && pattern.len() > 0 {
        let rest = text.skip(1);
        assert(!occurs_at(text, pattern, 0));
        if contains_text(rest, pattern) {
            let at = choose|at: int| occurs_at(rest, pattern, at);
            lemma_occurs_later(text, pattern, at);
        }
        nothing_is_replaced_without_an_occurrence(rest, pattern, with);
        assert(seq![text[0]] + rest =~= text);
    }
}

/// Replacing puts the new text in the place of the first occurrence and goes on
/// behind it.
pub proof fn first_occurrence_is_replaced(
    text: Seq<char>,
    pattern: Seq<char>,
    with: Seq<char>,
    at: int,
)
    requires
        pattern.len() > 0,
        occurs_at(text, pattern, at),
        forall|i: int| 0 <= i < at ==> !occurs_at(text, pattern, i),
    ensures
        replaced(text, pattern, with) == text.take(at) + with + replaced(
            text.skip(at + pattern.len()),
            pattern,
            with,
        ),
    decreases at,
{
    if at == 0 {
        assert(text.take(0) + with =~= with);
    } else {
        let rest = text.skip(1);
        assert(!occurs_at(text, pattern, 0));
        assert forall|i: int| 0 <= i < at - 1 implies !occurs_at(rest, pattern, i) by {
            lemma_occurs_later(text, pattern, i);
        }
        lemma_occurs_later(text, pattern, at - 1);
        first_occurrence_is_replaced(rest, pattern, with, at - 1);
        assert(rest.skip(at - 1 + pattern.len()) =~= text.skip(at + pattern.len()));
        let tail = replaced(text.skip(at + pattern.len()), pattern, with);
        assert(seq![text[0]] + (rest.take(at - 1) + with + tail) =~= text.take(at) + with + tail);
    }
}

/// Trimming takes away white space at both ends and nothing else.
pub proof fn trimming_takes_white_space_alone(text: Seq<char>) -> (ends: (int, int))
    ensures
        0 <= ends.0 <= ends.1 <= text.len(),
        trimmed(text) == text.subrange(ends.0, ends.1),
        forall|i: int| 0 <= i < ends.0 ==> is_white_space(#[trigger] text[i]),
        forall|i: int| ends.1 <= i < text.len() ==> is_white_space(#[trigger] text[i]),
        ends.0 < ends.1 ==> !is_white_space(text[ends.0]) && !is_white_space(text[ends.1 - 1]),
{
    let from = lemma_trimmed_start(text);
    let start = trimmed_start(text);
    let kept = lemma_trimmed_end(start);
    assert(text.skip(from).take(kept) =~= text.subrange(from, from + kept));
    assert forall|i: int| from + kept <= i < text.len() implies is_white_space(#[trigger] text[i]) by {
        assert(start[i - from] == text[i]);
    }
    (from, from + kept)
}

proof fn lemma_trimmed_start(text: Seq<char>) -> (from: int)
    ensures
        0 <= from <= text.len(),
        trimmed_start(text) == text.skip(from),
        forall|i: int| 0 <= i < from ==> is_white_space(#[trigger] text[i]),
        from < text.len() ==> !is_white_space(text[from]),
    decreases text.len(),
{
    if text.len() > 0 && is_white_space(text[0]) {
        let rest = text.skip(1);
        let from = lemma_trimmed_start(rest);
        assert(rest.skip(from) =~= text.skip(from + 1));
        assert forall|i: int| 0 <= i < from + 1 implies is_white_space(#[trigger] text[i]) by {
            if i > 0 {
                assert(rest[i - 1] == text[i]);
            }
        }
        from + 1
    } else {
        assert(text.skip(0) =~= text);
        0
    }
}

proof fn lemma_trimmed_end(text: Seq<char>) -> (to: int)
    ensures
        0 <= to <= text.len(),
        trimmed_end(text) == text.take(to),
        forall|i: int| to <= i < text.len() ==> is_white_space(#[trigger] text[i]),
        to > 0 ==> !is_white_space(text[to - 1]),
    decreases text.len(),
{
    if text.len() > 0 && is_white_space(text.last()) {
        let rest = text.drop_last();
        let to = lemma_trimmed_end(rest);
        assert(rest.take(to) =~= text.take(to));
        assert forall|i: int| to <= i < text.len() implies is_white_space(#[trigger] text[i]) by {
            if i < rest.len() {
                assert(rest[i] == text[i]);
            }
        }
        to
    } else {
        assert(text.take(text.len() as int) =~= text);
        text.len() as int
    }
}

/// Numbers are written in decimal: a number below ten as its digit, and every
/// other one as the number of its tens with the digit of its ones behind.
pub proof fn decimal_is_positional(tens: nat, ones: nat)
    requires
        ones < 10,
    ensures
        decimal(ones) == seq!["0123456789"@[ones as int]],
        tens > 0 ==> decimal(10 * tens + ones) == decimal(tens).push("0123456789"@[ones as int]),
{
    reveal_strlit("0123456789");
    assert((10 * tens + ones) / 10 == tens);
    assert((10 * tens + ones) % 10 == ones);
}

/// A number has as many hexadecimal digits as asked for, each of which stands for
/// a sixteenth of the one before it.
pub proof fn hexadecimal_is_positional(value: nat, digits: nat)
    ensures
        hex_digits(value, 0) == Seq::<char>::empty(),
        hex_digits(value, digits + 1) == hex_digits(value / 16, digits).push(
            "0123456789abcdef"@[(value % 16) as int],
        ),
        hex_digits(value, digits + 1).len() == digits + 1,
    decreases digits,
{
    reveal_strlit("0123456789abcdef");
    if digits > 0 {
        hexadecimal_is_positional(value / 16, (digits - 1) as nat);
    }
}

/// White space is what Unicode calls so: twenty-five characters and no others.
pub proof fn white_space_is_that_of_unicode(c: char)
    ensures
        is_white_space(c) <==> seq![
            '\u{9}', '\u{a}', '\u{b}', '\u{c}', '\u{d}', '\u{20}', '\u{85}', '\u{a0}',
            '\u{1680}', '\u{2000}', '\u{2001}', '\u{2002}', '\u{2003}', '\u{2004}', '\u{2005}',
            '\u{2006}', '\u{2007}', '\u{2008}', '\u{2009}', '\u{200a}', '\u{2028}', '\u{2029}',
            '\u{202f}', '\u{205f}', '\u{3000}',
        ].contains(c),
{
    let all = seq![
        '\u{9}', '\u{a}', '\u{b}', '\u{c}', '\u{d}', '\u{20}', '\u{85}', '\u{a0}',
        '\u{1680}', '\u{2000}', '\u{2001}', '\u{2002}', '\u{2003}', '\u{2004}', '\u{2005}',
        '\u{2006}', '\u{2007}', '\u{2008}', '\u{2009}', '\u{200a}', '\u{2028}', '\u{2029}',
        '\u{202f}', '\u{205f}', '\u{3000}',
    ];
    assert(all[0] == '\u{9}' && all[1] == '\u{a}' && all[2] == '\u{b}' && all[3] == '\u{c}');
    assert(all[4] == '\u{d}' && all[5] == '\u{20}' && all[6] == '\u{85}' && all[7] == '\u{a0}');
    assert(all[8] == '\u{1680}' && all[9] == '\u{2000}' && all[10] == '\u{2001}');
    assert(all[11] == '\u{2002}' && all[12] == '\u{2003}' && all[13] == '\u{2004}');
    assert(all[14] == '\u{2005}' && all[15] == '\u{2006}' && all[16] == '\u{2007}');
    assert(all[17] == '\u{2008}' && all[18] == '\u{2009}' && all[19] == '\u{200a}');
    assert(all[20] == '\u{2028}' && all[21] == '\u{2029}' && all[22] == '\u{202f}');
    assert(all[23] == '\u{205f}' && all[24] == '\u{3000}');
}

} // verus!
