//! Text transformations: trimming, which is defined and proved here, and
//! upper case, which is borrowed from the standard library.

use vstd::prelude::*;
use vstd::std_specs::iter::IteratorSpec;

verus! {

/// Whether `c` is white space: one of the characters that carry the Unicode
/// property White_Space.
pub open spec fn is_white_space(c: char) -> bool {
    let code = c as u32;
    ||| 0x09 <= code <= 0x0D
    ||| code == 0x20
    ||| code == 0x85
    ||| code == 0xA0
    ||| code == 0x1680
    ||| 0x2000 <= code <= 0x200A
    ||| code == 0x2028
    ||| code == 0x2029
    ||| code == 0x202F
    ||| code == 0x205F
    ||| code == 0x3000
}

/// `text` without the white space it begins with and the white space it ends
/// with. White space between other characters stays.
pub open spec fn trimmed(text: Seq<char>) -> Seq<char>
    decreases text.len(),
{
    if text.len() == 0 {
        text
    } else if is_white_space(text.first()) {
        trimmed(text.drop_first())
    } else if is_white_space(text.last()) {
        trimmed(text.drop_last())
    } else {
        text
    }
}

/// Trimming cuts out one stretch of the text: if everything before `start`
/// and everything from `end` on is white space, and the stretch between them
/// neither begins nor ends with white space, then that stretch is the trimmed
/// text.
pub proof fn lemma_trimmed_is_core(text: Seq<char>, start: int, end: int)
    requires
        0 <= start <= end <= text.len(),
        forall|i: int| 0 <= i < start ==> is_white_space(#[trigger] text[i]),
        forall|i: int| end <= i < text.len() ==> is_white_space(#[trigger] text[i]),
        start < end ==> !is_white_space(text[start]) && !is_white_space(text[end - 1]),
    ensures
        trimmed(text) == text.subrange(start, end),
    decreases text.len(),
{
    if text.len() == 0 {
    } else if is_white_space(text.first()) {
        let rest = text.drop_first();
        if start == 0 {
            lemma_trimmed_is_core(rest, 0, 0);
            assert(rest.subrange(0, 0) =~= text.subrange(start, end));
        } else {
            lemma_trimmed_is_core(rest, start - 1, end - 1);
            assert(rest.subrange(start - 1, end - 1) =~= text.subrange(start, end));
        }
    } else if is_white_space(text.last()) {
        let rest = text.drop_last();
        assert(start == 0);
        assert(end < text.len());
        lemma_trimmed_is_core(rest, start, end);
        assert(rest.subrange(start, end) =~= text.subrange(start, end));
    } else {
        assert(start == 0);
        assert(end == text.len());
        assert(text.subrange(start, end) =~= text);
    }
}

/// Trimmed text neither begins nor ends with white space, so trimming it
/// again changes nothing.
pub proof fn lemma_trimmed_is_bare(text: Seq<char>)
    ensures
        trimmed(text).len() <= text.len(),
        trimmed(text).len() > 0 ==> !is_white_space(trimmed(text).first()) && !is_white_space(
            trimmed(text).last(),
        ),
        trimmed(trimmed(text)) == trimmed(text),
    decreases text.len(),
{
    if text.len() == 0 {
    } else if is_white_space(text.first()) {
        lemma_trimmed_is_bare(text.drop_first());
    } else if is_white_space(text.last()) {
        lemma_trimmed_is_bare(text.drop_last());
    } else {
    }
}

/// Tells whether `c` is white space.
pub fn white_space(c: char) -> (b: bool)
    ensures
        b == is_white_space(c),
{
    let code: u32 = c as u32;
    (0x09 <= code && code <= 0x0D) || code == 0x20 || code == 0x85 || code == 0xA0 || code
        == 0x1680 || (0x2000 <= code && code <= 0x200A) || code == 0x2028 || code == 0x2029
        || code == 0x202F || code == 0x205F || code == 0x3000
}

/// Returns the part of `text` that is left when the white space at its
/// beginning and at its end is taken away.
pub fn trim(text: &str) -> (core: &str)
    ensures
        core@ == trimmed(text@),
{
    broadcast use {vstd::string::axiom_spec_iter, vstd::string::next_postcondition};

    let len = text.unicode_len();
    let mut start: usize = 0;
    let mut end: usize = 0;
    let mut seen: usize = 0;
    let mut rest = text.chars();
    while seen < len
        invariant
            seen <= len == text@.len(),
            rest.remaining() == text@.skip(seen as int),
            start <= end <= seen,
            forall|i: int| 0 <= i < start ==> is_white_space(#[trigger] text@[i]),
            forall|i: int| end <= i < seen ==> is_white_space(#[trigger] text@[i]),
            start < end ==> !is_white_space(text@[start as int]) && !is_white_space(
                text@[end - 1],
            ),
            start == end ==> start == seen,
        decreases len - seen,
    {
        match rest.next() {
            Some(c) => {
                if white_space(c) {
                    if start == end {
                        start = seen + 1;
                        end = seen + 1;
                    }
                } else {
                    if start == end {
                        start = seen;
                    }
                    end = seen + 1;
                }
                seen += 1;
            },
            None => {},
        }
    }
    proof {
        lemma_trimmed_is_core(text@, start as int, end as int);
    }
    text.substring_char(start, end)
}

/// The uppercase form of `text`: what `str::to_uppercase` returns for a string
/// made of these characters. The mapping follows the Unicode case tables that
/// the standard library carries, so it is named here rather than spelled out.
pub uninterp spec fn uppercase_of(text: Seq<char>) -> Seq<char>;

/// `str::to_uppercase` returns a new string holding the uppercase form of the
/// slice. The result depends on the characters of the slice and on nothing
/// else, which is all this contract claims: the result is the value that
/// [`uppercase_of`] names.
pub assume_specification[ str::to_uppercase ](text: &str) -> (upper: String)
    ensures
        upper@ == uppercase_of(text@),
;

} // verus!
