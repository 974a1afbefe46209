//! Small helpers on strings: comparison and concatenation over the
//! sequence of characters that a string holds.

use vstd::prelude::*;
use vstd::string::{StrSliceExecFns, StringExecFns};

verus! {

/// Whether two string slices hold the same characters.
pub fn same_text(a: &str, b: &str) -> (equal: bool)
    ensures
        equal == (a@ == b@),
{
    let left = a.to_owned();
    let right = b.to_owned();
    left == right
}

/// The two pieces, one after the other.
pub fn join2(a: &str, b: &str) -> (joined: String)
    ensures
        joined@ == a@ + b@,
{
    let mut out = String::from_str(a);
    out.append(b);
    out
}

/// The three pieces, one after the other.
pub fn join3(a: &str, b: &str, c: &str) -> (joined: String)
    ensures
        joined@ == a@ + b@ + c@,
{
    let mut out = String::from_str(a);
    out.append(b);
    out.append(c);
    out
}

/// Whether `text` ends with `suffix`, character for character.
pub open spec fn ends_with_spec(text: Seq<char>, suffix: Seq<char>) -> bool {
    suffix.len() <= text.len() && text.subrange(text.len() - suffix.len(), text.len() as int)
        == suffix
}

/// Whether `text` ends with `suffix`.
pub fn ends_with(text: &str, suffix: &str) -> (ends: bool)
    ensures
        ends == ends_with_spec(text@, suffix@),
{
    let length = text.unicode_len();
    let tail = suffix.unicode_len();
    if tail > length {
        return false;
    }
    let start = length - tail;
    let mut i: usize = 0;
    while i < tail
        invariant
            i <= tail,
            tail == suffix@.len(),
            length == text@.len(),
            start == length - tail,
            forall|j: int| 0 <= j < i ==> text@[start + j] == suffix@[j],
        decreases tail - i,
    {
        if text.get_char(start + i) != suffix.get_char(i) {
            assert(text@.subrange(start as int, length as int)[i as int] != suffix@[i as int]);
            return false;
        }
        i += 1;
    }
    assert(text@.subrange(start as int, length as int) =~= suffix@);
    true
}

/// Whether `needle` stands somewhere in `text`, character for character.
pub open spec fn contains_spec(text: Seq<char>, needle: Seq<char>) -> bool {
    exists|i: int|
        0 <= i <= text.len() - needle.len() && #[trigger] text.subrange(i, i + needle.len())
            == needle
}

/// The pieces of `text` from `start` on, between the separators, where no
/// separator stands from `start` up to `here`.
pub open spec fn split_from(text: Seq<char>, separator: char, start: int, here: int) -> Seq<
    Seq<char>,
>
    decreases text.len() - here,
{
    if here >= text.len() {
        seq![text.subrange(start, text.len() as int)]
    } else if text[here] == separator {
        seq![text.subrange(start, here)] + split_from(text, separator, here + 1, here + 1)
    } else {
        split_from(text, separator, start, here + 1)
    }
}

/// The pieces of `text` between the separators, in their order. A text
/// without separator is one piece; two separators in a row have an empty
/// piece between them.
pub open spec fn split_spec(text: Seq<char>, separator: char) -> Seq<Seq<char>> {
    split_from(text, separator, 0, 0)
}

/// Whether `needle` stands somewhere in `text`.
pub fn contains(text: &str, needle: &str) -> (found: bool)
    ensures
        found == contains_spec(text@, needle@),
{
    let length = text.unicode_len();
    let width = needle.unicode_len();
    if width > length {
        return false;
    }
    let last = length - width;
    let mut i: usize = 0;
    while i < last
        invariant
            i <= last,
            last == length - width,
            length == text@.len(),
            width == needle@.len(),
            forall|j: int| 0 <= j < i ==> #[trigger] text@.subrange(j, j + width) != needle@,
        decreases last - i,
    {
        if same_text(text.substring_char(i, i + width), needle) {
            return true;
        }
        i += 1;
    }
    let found = same_text(text.substring_char(last, length), needle);
    assert(text@.subrange(last as int, length as int) == text@.subrange(
        last as int,
        last + width,
    ));
    found
}

/// Cuts `text` into the pieces between the separators.
pub fn split(text: &str, separator: char) -> (pieces: Vec<String>)
    ensures
        pieces.deep_view() == split_spec(text@, separator),
{
    let length = text.unicode_len();
    let mut pieces: Vec<String> = Vec::new();
    let mut start: usize = 0;
    let mut here: usize = 0;
    assert(pieces.deep_view() =~= Seq::<Seq<char>>::empty());
    while here < length
        invariant
            start <= here <= length,
            length == text@.len(),
            pieces.deep_view() + split_from(text@, separator, start as int, here as int)
                == split_spec(text@, separator),
        decreases length - here,
    {
        if text.get_char(here) == separator {
            let ghost before = pieces.deep_view();
            let piece = text.substring_char(start, here).to_owned();
            pieces.push(piece);
            assert(pieces.deep_view() =~= before.push(text@.subrange(start as int, here as int)));
            assert(before.push(text@.subrange(start as int, here as int)) + split_from(
                text@,
                separator,
                here + 1,
                here + 1,
            ) =~= before + split_from(text@, separator, start as int, here as int));
            start = here + 1;
        }
        here += 1;
    }
    let ghost before = pieces.deep_view();
    let piece = text.substring_char(start, length).to_owned();
    pieces.push(piece);
    assert(pieces.deep_view() =~= before.push(text@.subrange(start as int, length as int)));
    assert(before.push(text@.subrange(start as int, length as int)) =~= before + split_from(
        text@,
        separator,
        start as int,
        here as int,
    ));
    pieces
}

/// A text that is put together from three pieces holds the middle one.
pub proof fn lemma_middle_is_contained(before: Seq<char>, middle: Seq<char>, after: Seq<char>)
    ensures
        contains_spec(before + middle + after, middle),
{
    let whole = before + middle + after;
    let at = before.len() as int;
    assert(whole.subrange(at, at + middle.len()) =~= middle);
}

/// A text that holds a piece still holds it with more text around it.
pub proof fn lemma_contained_in_wrapped(
    before: Seq<char>,
    text: Seq<char>,
    after: Seq<char>,
    piece: Seq<char>,
)
    requires
        contains_spec(text, piece),
    ensures
        contains_spec(before + text + after, piece),
{
    let at = choose|i: int|
        0 <= i <= text.len() - piece.len() && #[trigger] text.subrange(i, i + piece.len())
            == piece;
    let whole = before + text + after;
    let moved = before.len() + at;
    assert(whole.subrange(moved, moved + piece.len()) =~= text.subrange(at, at + piece.len()));
}

/// The pieces put together again, with the separator between them.
pub open spec fn join_spec(pieces: Seq<Seq<char>>, separator: char) -> Seq<char>
    decreases pieces.len(),
{
    if pieces.len() == 0 {
        Seq::empty()
    } else if pieces.len() == 1 {
        pieces[0]
    } else {
        pieces[0] + seq![separator] + join_spec(pieces.drop_first(), separator)
    }
}

/// Whether the piece holds no separator.
pub open spec fn is_free_of(piece: Seq<char>, separator: char) -> bool {
    forall|k: int| 0 <= k < piece.len() ==> piece[k] != separator
}

/// What holds of the pieces from `start` on: there is at least one, none
/// holds the separator, and put together again they are the text from
/// `start` on.
proof fn lemma_split_from_is_faithful(text: Seq<char>, separator: char, start: int, here: int)
    requires
        0 <= start <= here <= text.len(),
        forall|k: int| start <= k < here ==> text[k] != separator,
    ensures
        split_from(text, separator, start, here).len() >= 1,
        join_spec(split_from(text, separator, start, here), separator) == text.subrange(
            start,
            text.len() as int,
        ),
        forall|i: int|
            0 <= i < split_from(text, separator, start, here).len() ==> is_free_of(
                #[trigger] split_from(text, separator, start, here)[i],
                separator,
            ),
    decreases text.len() - here,
{
    let pieces = split_from(text, separator, start, here);
    if here >= text.len() {
    } else if text[here] == separator {
        let rest = split_from(text, separator, here + 1, here + 1);
        lemma_split_from_is_faithful(text, separator, here + 1, here + 1);
        assert(pieces.drop_first() =~= rest);
        assert(text.subrange(start, here) + seq![separator] + text.subrange(
            here + 1,
            text.len() as int,
        ) =~= text.subrange(start, text.len() as int));
        assert forall|i: int| 0 <= i < pieces.len() implies is_free_of(
            #[trigger] pieces[i],
            separator,
        ) by {
            if i > 0 {
                assert(pieces[i] == rest[i - 1]);
            }
        }
    } else {
        lemma_split_from_is_faithful(text, separator, start, here + 1);
    }
}

/// Cutting a text loses nothing and leaves no separator: the pieces, put
/// together again with the separator between them, are the text, and no
/// piece holds the separator.
pub proof fn lemma_split_is_faithful(text: Seq<char>, separator: char)
    ensures
        split_spec(text, separator).len() >= 1,
        join_spec(split_spec(text, separator), separator) == text,
        forall|i: int|
            0 <= i < split_spec(text, separator).len() ==> is_free_of(
                #[trigger] split_spec(text, separator)[i],
                separator,
            ),
{
    lemma_split_from_is_faithful(text, separator, 0, 0);
    assert(text.subrange(0, text.len() as int) =~= text);
}

} // verus!
