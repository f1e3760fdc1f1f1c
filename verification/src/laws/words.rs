//! What the names of things and the texts about them come down to, character by character.

use vstd::prelude::*;
use vstd::utf8::*;

use crate::laws::keys_are_joined;
use crate::text::{
    ascii_lower, ascii_lowercase, contains_text, decoded, event_key, is_ascii_alphanumeric,
    is_white_space, lossy_text, lowercase, occurs_at, replaced, trimmed, unicode_lowercase,
};

verus! {

/// Whether `small` is `c`, or the small letter to the ASCII capital letter `c`.
pub open spec fn is_small_char(c: char, small: char) -> bool {
    if 'A' <= c <= 'Z' {
        'a' <= small <= 'z' && small as int - 'a' as int == c as int - 'A' as int
    } else {
        small == c
    }
}

/// Whether `small` is `text` with its ASCII capital letters made small.
pub open spec fn is_small(text: Seq<char>, small: Seq<char>) -> bool {
    &&& small.len() == text.len()
    &&& forall|i: int| 0 <= i < text.len() ==> is_small_char(#[trigger] text[i], small[i])
}

/// Making a text small keeps its length, and every character but the ASCII capital letters.
pub proof fn a_small_text_differs_in_capitals_alone(text: Seq<char>, small: Seq<char>)
    ensures
        is_small(text, small) <==> ascii_lowercase(text) == small,
        is_ascii_chars(text) ==> lowercase(text) == ascii_lowercase(text),
        !is_ascii_chars(text) ==> lowercase(text) == unicode_lowercase(text),
{
    assert forall|c: char, d: char| is_small_char(c, d) <==> ascii_lower(c) == d by {
        lemma_small_char(c, d);
    }
    if is_small(text, small) {
        assert forall|i: int| 0 <= i < text.len() implies ascii_lowercase(text)[i] == small[i] by {
            assert(is_small_char(text[i], small[i]));
        }
        assert(ascii_lowercase(text) =~= small);
    }
    if ascii_lowercase(text) == small {
        assert forall|i: int| 0 <= i < text.len() implies is_small_char(
            #[trigger] text[i],
            small[i],
        ) by {
            assert(ascii_lowercase(text)[i] == ascii_lower(text[i]));
        }
    }
}

proof fn lemma_small_char(c: char, d: char)
    ensures
        is_small_char(c, d) <==> ascii_lower(c) == d,
{
    if 'A' <= c <= 'Z' {
        let n = c as u8;
        assert(n as int == c as int);
        assert((n + 32) as u8 as int == c as int + 32);
    }
}

/// The key of a single character is the character, made small, where it is an ASCII letter or
/// digit, and nothing otherwise. With the keys of joined names this gives the key of every name.
pub proof fn the_key_of_a_character(c: char, small: char)
    requires
        is_small_char(c, small),
    ensures
        event_key(seq![c]) == if 'a' <= c <= 'z' || 'A' <= c <= 'Z' || '0' <= c <= '9' {
            seq![small]
        } else {
            seq![]
        },
        event_key(seq![]) == Seq::<char>::empty(),
{
    reveal_with_fuel(Seq::filter, 2);
    lemma_small_char(c, small);
    assert(seq![c].drop_last() =~= Seq::<char>::empty());
    assert(event_key(seq![]) =~= Seq::<char>::empty());
    assert(event_key(seq![c]) =~= if is_ascii_alphanumeric(c) {
        seq![small]
    } else {
        seq![]
    });
}

/// A name of small ASCII letters and digits is its own key.
pub proof fn a_plain_name_is_its_own_key(name: Seq<char>)
    requires
        forall|i: int|
            0 <= i < name.len() ==> 'a' <= #[trigger] name[i] <= 'z' || '0' <= name[i] <= '9',
    ensures
        event_key(name) == name,
    decreases name.len(),
{
    if name.len() > 0 {
        let last = name.last();
        assert forall|i: int| 0 <= i < name.drop_last().len() implies 'a'
            <= #[trigger] name.drop_last()[i] <= 'z' || '0' <= name.drop_last()[i] <= '9' by {
            assert(name.drop_last()[i] == name[i]);
        }
        a_plain_name_is_its_own_key(name.drop_last());
        assert(name[name.len() - 1] == last);
        the_key_of_a_character(last, last);
        keys_are_joined(name.drop_last(), seq![last]);
        assert(name =~= name.drop_last() + seq![last]);
    } else {
        the_key_of_a_character('a', 'a');
        assert(name =~= seq![]);
    }
}

/// A pattern occurs in a text exactly where the text is the pattern with something, perhaps
/// nothing, on each side.
pub proof fn a_pattern_occurs_between_two_parts(
    before: Seq<char>,
    pattern: Seq<char>,
    after: Seq<char>,
    text: Seq<char>,
)
    ensures
        contains_text(before + pattern + after, pattern),
        contains_text(text, pattern) ==> exists|head: Seq<char>, tail: Seq<char>|
            text == #[trigger] (head + pattern + tail),
{
    let whole = before + pattern + after;
    assert(whole.subrange(before.len() as int, (before.len() + pattern.len()) as int) =~= pattern);
    assert(occurs_at(whole, pattern, before.len() as int));
    if contains_text(text, pattern) {
        let i = choose|i: int| occurs_at(text, pattern, i);
        let head = text.take(i);
        let tail = text.skip(i + pattern.len());
        assert(text =~= head + pattern + tail);
    }
}

/// A text is its trimmed form between two runs of white space, and the trimmed form neither begins
/// nor ends with white space.
pub proof fn trimming_takes_white_space_off_the_ends(text: Seq<char>) -> (ends: (
    Seq<char>,
    Seq<char>,
))
    ensures
        text == ends.0 + trimmed(text) + ends.1,
        forall|i: int| 0 <= i < ends.0.len() ==> is_white_space(#[trigger] ends.0[i]),
        forall|i: int| 0 <= i < ends.1.len() ==> is_white_space(#[trigger] ends.1[i]),
        trimmed(text).len() > 0 ==> !is_white_space(trimmed(text).first()) && !is_white_space(
            trimmed(text).last(),
        ),
    decreases text.len(),
{
    if text.len() > 0 && is_white_space(text.first()) {
        let (before, after) = trimming_takes_white_space_off_the_ends(text.drop_first());
        let ends = (seq![text.first()] + before, after);
        assert(text =~= seq![text.first()] + text.drop_first());
        assert(text =~= ends.0 + trimmed(text) + ends.1);
        ends
    } else if text.len() > 0 && is_white_space(text.last()) {
        let (before, after) = trimming_takes_white_space_off_the_ends(text.drop_last());
        let ends = (before, after.push(text.last()));
        assert(text =~= text.drop_last().push(text.last()));
        assert(text =~= ends.0 + trimmed(text) + ends.1);
        ends
    } else {
        let ends = (Seq::<char>::empty(), Seq::<char>::empty());
        assert(text =~= ends.0 + trimmed(text) + ends.1);
        ends
    }
}

/// Of the ASCII characters the space and the controls from the tab to the carriage return are white
/// space.
pub proof fn ascii_white_space(c: char)
    requires
        (c as int) < 128,
    ensures
        is_white_space(c) <==> c == ' ' || c == '\t' || c == '\n' || c == '\r' || c as int == 11
            || c as int == 12,
{
}

/// A text in which the pattern does not occur stays as it is.
pub proof fn nothing_is_replaced_where_nothing_occurs(
    text: Seq<char>,
    from: Seq<char>,
    to: Seq<char>,
)
    requires
        !contains_text(text, from),
    ensures
        replaced(text, from, to) == text,
    decreases text.len(),
{
    if from.len() > 0 && text.len() >= from.len() {
        if text.take(from.len() as int) == from {
            assert(text.subrange(0, from.len() as int) =~= from);
            assert(occurs_at(text, from, 0));
        }
        let rest = text.skip(1);
        if contains_text(rest, from) {
            let i = choose|i: int| occurs_at(rest, from, i);
            assert(text.subrange(i + 1, i + 1 + from.len()) =~= rest.subrange(
                i,
                i + from.len(),
            ));
            assert(occurs_at(text, from, i + 1));
        }
        nothing_is_replaced_where_nothing_occurs(rest, from, to);
        assert(seq![text[0]] + rest =~= text);
    }
}

/// The first occurrence of the pattern is replaced, what stands before it stays, and what stands
/// after it is treated in the same way.
pub proof fn the_first_occurrence_is_replaced(
    before: Seq<char>,
    from: Seq<char>,
    after: Seq<char>,
    to: Seq<char>,
)
    requires
        from.len() > 0,
        forall|i: int| #[trigger]
            occurs_at(before + from + after, from, i) ==> before.len() <= i,
    ensures
        replaced(before + from + after, from, to) == before + to + replaced(after, from, to),
    decreases before.len(),
{
    let text = before + from + after;
    if before.len() == 0 {
        assert(text.take(from.len() as int) =~= from);
        assert(text.skip(from.len() as int) =~= after);
        assert(before + to =~= to);
    } else {
        let rest = before.skip(1);
        if text.take(from.len() as int) == from {
            assert(text.subrange(0, from.len() as int) =~= from);
            assert(occurs_at(text, from, 0));
        }
        assert(text.skip(1) =~= rest + from + after);
        assert forall|i: int| #[trigger]
            occurs_at(rest + from + after, from, i) implies rest.len() <= i by {
            assert(text.subrange(i + 1, i + 1 + from.len()) =~= text.skip(1).subrange(
                i,
                i + from.len(),
            ));
            assert(occurs_at(text, from, i + 1));
        }
        the_first_occurrence_is_replaced(rest, from, after, to);
        assert(text[0] == before[0]);
        assert(seq![before[0]] + (rest + to + replaced(after, from, to)) =~= before + to
            + replaced(after, from, to));
    }
}

/// Bytes that are UTF-8 are the text that they encode, and only others are mended.
pub proof fn utf8_is_decoded_as_it_is(bytes: Seq<u8>)
    ensures
        valid_utf8(bytes) ==> decoded(bytes) == decode_utf8(bytes),
        !valid_utf8(bytes) ==> decoded(bytes) == lossy_text(bytes),
{
}

} // verus!
