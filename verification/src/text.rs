//! Text primitives: what the standard library's string functions compute, over `Seq<char>`.

use vstd::prelude::*;
use vstd::string::*;
use vstd::utf8::*;

verus! {

/// Whether `c` has the Unicode property White_Space.
pub open spec fn is_white_space(c: char) -> bool {
    ||| '\u{9}' <= c <= '\u{d}'
    ||| c == '\u{20}'
    ||| c == '\u{85}'
    ||| c == '\u{a0}'
    ||| c == '\u{1680}'
    ||| '\u{2000}' <= c <= '\u{200a}'
    ||| '\u{2028}' <= c <= '\u{2029}'
    ||| c == '\u{202f}'
    ||| c == '\u{205f}'
    ||| c == '\u{3000}'
}

/// `s` without its leading and trailing white space.
pub open spec fn trimmed(s: Seq<char>) -> Seq<char>
    decreases s.len(),
{
    if s.len() > 0 && is_white_space(s.first()) {
        trimmed(s.drop_first())
    } else if s.len() > 0 && is_white_space(s.last()) {
        trimmed(s.drop_last())
    } else {
        s
    }
}

/// `c` with an ASCII capital letter made small and any other character unchanged.
pub open spec fn ascii_lower(c: char) -> char {
    if 'A' <= c <= 'Z' {
        (c as u8 + 32) as u8 as char
    } else {
        c
    }
}

/// `s` with its ASCII capital letters made small.
pub open spec fn ascii_lowercase(s: Seq<char>) -> Seq<char> {
    s.map_values(|c: char| ascii_lower(c))
}

/// Whether `c` is an ASCII letter or digit.
pub open spec fn is_ascii_alphanumeric(c: char) -> bool {
    'a' <= c <= 'z' || 'A' <= c <= 'Z' || '0' <= c <= '9'
}

/// Whether `pattern` occurs in `s` at the position `i`.
pub open spec fn occurs_at(s: Seq<char>, pattern: Seq<char>, i: int) -> bool {
    0 <= i <= s.len() - pattern.len() && s.subrange(i, i + pattern.len()) == pattern
}

/// Whether `pattern` occurs somewhere in `s`.
pub open spec fn contains_text(s: Seq<char>, pattern: Seq<char>) -> bool {
    exists|i: int| occurs_at(s, pattern, i)
}

/// `s` with the non-overlapping occurrences of `from`, found from left to right, replaced by `to`.
pub open spec fn replaced(s: Seq<char>, from: Seq<char>, to: Seq<char>) -> Seq<char>
    decreases s.len(),
{
    if from.len() == 0 || s.len() < from.len() {
        s
    } else if s.take(from.len() as int) == from {
        to + replaced(s.skip(from.len() as int), from, to)
    } else {
        seq![s[0]] + replaced(s.skip(1), from, to)
    }
}

/// What `str::to_lowercase` makes of a text that is not all ASCII.
pub uninterp spec fn unicode_lowercase(s: Seq<char>) -> Seq<char>;

/// What `String::from_utf8_lossy` makes of bytes that are no UTF-8.
pub uninterp spec fn lossy_text(bytes: Seq<u8>) -> Seq<char>;

/// `s` with its capital letters made small.
pub open spec fn lowercase(s: Seq<char>) -> Seq<char> {
    if is_ascii_chars(s) {
        ascii_lowercase(s)
    } else {
        unicode_lowercase(s)
    }
}

/// The text that `bytes` are, with something in the place of what is no UTF-8.
pub open spec fn decoded(bytes: Seq<u8>) -> Seq<char> {
    if valid_utf8(bytes) {
        decode_utf8(bytes)
    } else {
        lossy_text(bytes)
    }
}

/// `str::trim` drops the leading and trailing characters with the property White_Space.
pub assume_specification[ str::trim ](s: &str) -> (r: &str)
    ensures
        r@ == trimmed(s@),
;

/// `==` on `str` holds where both texts have the same characters.
pub assume_specification[ <str as PartialEq>::eq ](a: &str, b: &str) -> (r: bool)
    ensures
        r == (a@ == b@),
;

/// `String::push` appends one character.
pub assume_specification[ String::push ](s: &mut String, c: char)
    ensures
        final(s)@ == old(s)@.push(c),
;

/// `str::to_lowercase` maps a text by the Unicode tables; of these only the ASCII part is written
/// out: an ASCII text has its capital letters made small.
pub assume_specification[ str::to_lowercase ](s: &str) -> (r: String)
    ensures
        is_ascii_chars(s@) ==> r@ == ascii_lowercase(s@),
        !is_ascii_chars(s@) ==> r@ == unicode_lowercase(s@),
;

/// `str::eq_ignore_ascii_case` compares two texts after making ASCII capital letters small.
pub assume_specification[ str::eq_ignore_ascii_case ](a: &str, b: &str) -> (r: bool)
    ensures
        r == (ascii_lowercase(a@) == ascii_lowercase(b@)),
;

/// `str::contains`, with a text as the pattern, tells whether the pattern occurs.
#[verifier::external_body]
pub(crate) fn text_contains(text: &str, pattern: &str) -> (found: bool)
    ensures
        found == contains_text(text@, pattern@),
{
    text.contains(pattern)
}

/// `str::replace`, with a non-empty text as the pattern, replaces every occurrence of it.
#[verifier::external_body]
pub(crate) fn replace_text(text: &str, from: &str, to: &str) -> (result: String)
    requires
        from@.len() > 0,
    ensures
        result@ == replaced(text@, from@, to@),
{
    text.replace(from, to)
}

/// `String::from_utf8_lossy` decodes UTF-8; what it puts in the place of invalid bytes is not
/// written out.
#[verifier::external_body]
pub(crate) fn decode_lossy(bytes: &[u8]) -> (text: String)
    ensures
        valid_utf8(bytes@) ==> text@ == decode_utf8(bytes@),
        !valid_utf8(bytes@) ==> text@ == lossy_text(bytes@),
{
    String::from_utf8_lossy(bytes).into_owned()
}

/// The two texts one after the other.
pub fn joined(head: &str, tail: &str) -> (text: String)
    ensures
        text@ == head@ + tail@,
{
    let mut text = head.to_owned();
    text.append(tail);
    text
}

/// An event name or a type name reduced to its ASCII letters and digits, in small letters.
pub open spec fn event_key(name: Seq<char>) -> Seq<char> {
    ascii_lowercase(name.filter(|c: char| is_ascii_alphanumeric(c)))
}

/// Reduces a name to its key, so that `turn_started`, `turn.started` and `TurnStarted` agree.
pub fn normalize_event_key(value: &str) -> (key: String)
    ensures
        key@ == event_key(value@),
{
    let ghost keeps = |c: char| is_ascii_alphanumeric(c);
    let name = value.trim();
    let mut kept = String::new();
    for c in it: name.chars()
        invariant
            it.seq() == name@,
            keeps == (|c: char| is_ascii_alphanumeric(c)),
            kept@ == name@.take(it.index() as int).filter(keeps),
    {
        proof {
            assert(name@.take(it.index() + 1).drop_last() =~= name@.take(it.index() as int));
            reveal(Seq::filter);
        }
        if ('a' <= c && c <= 'z') || ('A' <= c && c <= 'Z') || ('0' <= c && c <= '9') {
            kept.push(c);
        }
    }
    proof {
        assert(name@.take(name@.len() as int) =~= name@);
        lemma_trimmed_keeps(value@);
        lemma_kept_is_ascii(name@);
    }
    kept.to_lowercase()
}

proof fn lemma_trimmed_keeps(s: Seq<char>)
    ensures
        trimmed(s).filter(|c: char| is_ascii_alphanumeric(c)) == s.filter(
            |c: char| is_ascii_alphanumeric(c),
        ),
    decreases s.len(),
{
    let keeps = |c: char| is_ascii_alphanumeric(c);
    reveal_with_fuel(Seq::filter, 2);
    if s.len() > 0 && is_white_space(s.first()) {
        lemma_trimmed_keeps(s.drop_first());
        let head = seq![s.first()];
        assert(s =~= head + s.drop_first());
        Seq::filter_distributes_over_add(head, s.drop_first(), keeps);
        assert(head.drop_last() =~= Seq::<char>::empty());
        assert(head.filter(keeps) =~= Seq::<char>::empty());
    } else if s.len() > 0 && is_white_space(s.last()) {
        lemma_trimmed_keeps(s.drop_last());
    }
}

proof fn lemma_kept_is_ascii(s: Seq<char>)
    ensures
        is_ascii_chars(s.filter(|c: char| is_ascii_alphanumeric(c))),
    decreases s.len(),
{
    reveal(Seq::filter);
    if s.len() > 0 {
        lemma_kept_is_ascii(s.drop_last());
    }
}

} // verus!
