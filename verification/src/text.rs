//! Trimming of surrounding white space.

use vstd::prelude::*;
use vstd::string::StrSliceExecFns;

verus! {

/// Whether a character is white space: one of the twenty-five code points
/// that carry the Unicode property `White_Space`.
pub open spec fn is_space(c: char) -> bool {
    let code = c as u32;
    ||| 0x09 <= code <= 0x0d
    ||| code == 0x20
    ||| code == 0x85
    ||| code == 0xa0
    ||| code == 0x1680
    ||| 0x2000 <= code <= 0x200a
    ||| code == 0x2028
    ||| code == 0x2029
    ||| code == 0x202f
    ||| code == 0x205f
    ||| code == 0x3000
}

/// A text without the white space it starts with.
pub open spec fn trim_start(text: Seq<char>) -> Seq<char>
    decreases text.len(),
{
    if text.len() > 0 && is_space(text.first()) {
        trim_start(text.drop_first())
    } else {
        text
    }
}

/// A text without the white space it ends with.
pub open spec fn trim_end(text: Seq<char>) -> Seq<char>
    decreases text.len(),
{
    if text.len() > 0 && is_space(text.last()) {
        trim_end(text.drop_last())
    } else {
        text
    }
}

/// A text without the white space around it.
pub open spec fn trimmed(text: Seq<char>) -> Seq<char> {
    trim_end(trim_start(text))
}

/// Decides whether a character is white space.
pub fn is_space_char(c: char) -> (space: bool)
    ensures
        space == is_space(c),
{
    let code: u32 = c as u32;
    (0x09 <= code && code <= 0x0d) || code == 0x20 || code == 0x85 || code == 0xa0 || code
        == 0x1680 || (0x2000 <= code && code <= 0x200a) || code == 0x2028 || code == 0x2029
        || code == 0x202f || code == 0x205f || code == 0x3000
}

/// Returns the part of `text` that is left when the white space at both ends
/// is taken away.
pub fn trim(text: &str) -> (kept: &str)
    ensures
        kept@ == trimmed(text@),
{
    let len: usize = text.unicode_len();
    let mut start: usize = 0;
    assert(text@.subrange(0, len as int) == text@);
    loop
        invariant
            start <= len == text@.len(),
            trim_start(text@) == trim_start(text@.subrange(start as int, len as int)),
        ensures
            trim_start(text@) == text@.subrange(start as int, len as int),
        decreases len - start,
    {
        let ghost rest = text@.subrange(start as int, len as int);
        if start == len {
            break ;
        }
        if !is_space_char(text.get_char(start)) {
            break ;
        }
        assert(rest.drop_first() == text@.subrange(start + 1, len as int));
        start += 1;
    }
    let mut end: usize = len;
    loop
        invariant
            start <= end <= len == text@.len(),
            trimmed(text@) == trim_end(text@.subrange(start as int, end as int)),
        ensures
            start <= end <= len,
            trimmed(text@) == text@.subrange(start as int, end as int),
        decreases end - start,
    {
        let ghost rest = text@.subrange(start as int, end as int);
        if end == start {
            break ;
        }
        if !is_space_char(text.get_char(end - 1)) {
            break ;
        }
        assert(rest.drop_last() == text@.subrange(start as int, end - 1));
        end -= 1;
    }
    text.substring_char(start, end)
}

/// What `trim_start` cuts off is white space, and what it keeps does not
/// begin with white space.
pub proof fn lemma_trim_start_cut(text: Seq<char>) -> (cut: int)
    ensures
        0 <= cut <= text.len(),
        trim_start(text) == text.subrange(cut, text.len() as int),
        forall|i: int| 0 <= i < cut ==> is_space(#[trigger] text[i]),
        cut < text.len() ==> !is_space(text[cut]),
    decreases text.len(),
{
    if text.len() > 0 && is_space(text.first()) {
        let rest = text.drop_first();
        let inner = lemma_trim_start_cut(rest);
        assert(rest.subrange(inner, rest.len() as int) == text.subrange(
            inner + 1,
            text.len() as int,
        ));
        assert forall|i: int| 0 <= i < inner + 1 implies is_space(#[trigger] text[i]) by {
            if i > 0 {
                assert(text[i] == rest[i - 1]);
            }
        }
        inner + 1
    } else {
        assert(text.subrange(0, text.len() as int) == text);
        0
    }
}

/// What `trim_end` cuts off is white space, and what it keeps does not end
/// with white space.
pub proof fn lemma_trim_end_cut(text: Seq<char>) -> (kept: int)
    ensures
        0 <= kept <= text.len(),
        trim_end(text) == text.subrange(0, kept),
        forall|i: int| kept <= i < text.len() ==> is_space(#[trigger] text[i]),
        0 < kept ==> !is_space(text[kept - 1]),
    decreases text.len(),
{
    if text.len() > 0 && is_space(text.last()) {
        let rest = text.drop_last();
        let inner = lemma_trim_end_cut(rest);
        assert(rest.subrange(0, inner) == text.subrange(0, inner));
        assert forall|i: int| inner <= i < text.len() implies is_space(#[trigger] text[i]) by {
            if i < rest.len() {
                assert(text[i] == rest[i]);
            }
        }
        inner
    } else {
        assert(text.subrange(0, text.len() as int) == text);
        text.len() as int
    }
}

/// The trimmed text is the one stretch of the text that has nothing but
/// white space before it and after it, and that neither begins nor ends with
/// white space.
pub proof fn lemma_trimmed_core(text: Seq<char>) -> (bounds: (int, int))
    ensures
        0 <= bounds.0 <= bounds.1 <= text.len(),
        trimmed(text) == text.subrange(bounds.0, bounds.1),
        forall|i: int| 0 <= i < bounds.0 ==> is_space(#[trigger] text[i]),
        forall|i: int| bounds.1 <= i < text.len() ==> is_space(#[trigger] text[i]),
        bounds.0 < bounds.1 ==> !is_space(text[bounds.0]) && !is_space(text[bounds.1 - 1]),
{
    let from = lemma_trim_start_cut(text);
    let tail = text.subrange(from, text.len() as int);
    let kept = lemma_trim_end_cut(tail);
    assert(tail.subrange(0, kept) == text.subrange(from, from + kept));
    assert forall|i: int| from + kept <= i < text.len() implies is_space(#[trigger] text[i]) by {
        assert(text[i] == tail[i - from]);
    }
    if kept > 0 {
        assert(tail[0] == text[from]);
        assert(tail[kept - 1] == text[from + kept - 1]);
    }
    (from, from + kept)
}

/// Trimming a text that is already trimmed changes nothing.
pub proof fn lemma_trimmed_idempotent(text: Seq<char>)
    ensures
        trimmed(trimmed(text)) == trimmed(text),
{
    let bounds = lemma_trimmed_core(text);
    let core = trimmed(text);
    if core.len() > 0 {
        assert(core.first() == text[bounds.0]);
        assert(core.last() == text[bounds.1 - 1]);
    }
}

/// A text that neither begins nor ends with white space is its own trimmed
/// form.
pub proof fn lemma_trimmed_fixed(text: Seq<char>)
    requires
        text.len() > 0 ==> !is_space(text.first()) && !is_space(text.last()),
    ensures
        trimmed(text) == text,
{
}

} // verus!
