//! Scans of the text for the limits of words and lines.

use crate::utf8::{
    char_at, char_at_boundary, lemma_boundary_bytes, lemma_prev_boundary, lemma_scalar_at,
    next_boundary, next_char_boundary, prev_boundary, prev_char_boundary, tail,
};
use vstd::prelude::*;
use vstd::utf8::*;

verus! {

/// What `char::is_alphanumeric` says of a character, by the Unicode tables
/// that the standard library carries.
pub uninterp spec fn alphanumeric(c: char) -> bool;

/// What `char::is_alphanumeric` returns.
pub assume_specification[ char::is_alphanumeric ](c: char) -> (r: bool)
    ensures
        r == alphanumeric(c),
;

/// Whether a character is white space: whether it has the Unicode property
/// `White_Space`.
pub open spec fn whitespace(c: char) -> bool {
    let u = c as u32;
    ||| 0x09 <= u <= 0x0d
    ||| u == 0x20
    ||| u == 0x85
    ||| u == 0xa0
    ||| u == 0x1680
    ||| 0x2000 <= u <= 0x200a
    ||| u == 0x2028
    ||| u == 0x2029
    ||| u == 0x202f
    ||| u == 0x205f
    ||| u == 0x3000
}

/// What `char::is_whitespace` returns: whether the character has the
/// property `White_Space`.
pub assume_specification[ char::is_whitespace ](c: char) -> (r: bool)
    ensures
        r == whitespace(c),
;

/// The line feed character as a byte.
pub const LINE_FEED: u8 = 0x0a;

/// A character that is not alphanumeric starts at offset `i`.
pub open spec fn delimiter_at(s: Seq<u8>, i: int) -> bool {
    0 <= i < s.len() && is_char_boundary(s, i) && !alphanumeric(char_at(s, i))
}

/// A character that is not alphanumeric ends at offset `e`.
pub open spec fn delimiter_before(s: Seq<u8>, e: int) -> bool {
    0 < e <= s.len() && is_char_boundary(s, e) && delimiter_at(s, prev_boundary(s, e))
}

/// `start` is where the word around `offset` begins: behind the last
/// delimiter that ends at or before `offset`, or at the start of the text.
pub open spec fn is_word_start(s: Seq<u8>, offset: int, start: int) -> bool {
    &&& start == 0 || (start <= offset && delimiter_before(s, start))
    &&& forall|e: int| start < e <= offset ==> !delimiter_before(s, e)
}

/// `end` is where the word around `offset` ends: at the first delimiter that
/// starts at or behind `offset`, or at the end of the text.
pub open spec fn is_word_end(s: Seq<u8>, offset: int, end: int) -> bool {
    &&& end == s.len() || (offset <= end && delimiter_at(s, end))
    &&& forall|i: int| offset <= i < end ==> !delimiter_at(s, i)
}

/// `start` is where the line around `offset` begins: behind the last line
/// feed before `offset`, or at the start of the text.
pub open spec fn is_line_start(s: Seq<u8>, offset: int, start: int) -> bool {
    &&& 0 <= start <= offset
    &&& start == 0 || s[start - 1] == LINE_FEED
    &&& forall|k: int| start <= k < offset ==> s[k] != LINE_FEED
}

/// `end` is where the line around `offset` ends: at the first line feed at
/// or behind `offset`, or at the end of the text.
pub open spec fn is_line_end(s: Seq<u8>, offset: int, end: int) -> bool {
    &&& offset <= end <= s.len()
    &&& end == s.len() || s[end] == LINE_FEED
    &&& forall|k: int| offset <= k < end ==> s[k] != LINE_FEED
}

/// Finds the limits of the word around the boundary `offset`.
///
/// A character that is not alphanumeric is a delimiter and ends the word:
/// the word begins behind the nearest delimiter to the left of `offset` and
/// ends at the nearest one to its right.
pub fn word_bounds(bytes: &Vec<u8>, offset: usize) -> (bounds: (usize, usize))
    requires
        valid_utf8(bytes@),
        is_char_boundary(bytes@, offset as int),
    ensures
        is_word_start(bytes@, offset as int, bounds.0 as int),
        is_word_end(bytes@, offset as int, bounds.1 as int),
        bounds.0 <= offset <= bounds.1 <= bytes@.len(),
        is_char_boundary(bytes@, bounds.0 as int),
        is_char_boundary(bytes@, bounds.1 as int),
{
    let len: usize = bytes.len();
    proof {
        lemma_boundary_bytes(bytes@, offset as int);
    }
    let mut start: usize = offset;
    while start > 0 && char_at_boundary(
        bytes,
        prev_char_boundary(bytes, start),
    ).is_alphanumeric()
        invariant
            valid_utf8(bytes@),
            offset <= len == bytes@.len(),
            start <= offset,
            is_char_boundary(bytes@, start as int),
            forall|e: int| start < e <= offset ==> !delimiter_before(bytes@, e),
        decreases start,
    {
        proof {
            lemma_prev_boundary(bytes@, start as int);
        }
        start = prev_char_boundary(bytes, start);
    }
    proof {
        if start > 0 {
            lemma_prev_boundary(bytes@, start as int);
        }
    }
    let mut end: usize = offset;
    while end < len && char_at_boundary(bytes, end).is_alphanumeric()
        invariant
            valid_utf8(bytes@),
            len == bytes@.len(),
            offset <= end <= len,
            is_char_boundary(bytes@, end as int),
            forall|j: int| offset <= j < end ==> !delimiter_at(bytes@, j),
        decreases len - end,
    {
        proof {
            lemma_scalar_at(bytes@, end as int);
        }
        end = next_char_boundary(bytes, end);
    }
    (start, end)
}

/// Finds the limits of the line around `offset`.
pub fn line_bounds(bytes: &Vec<u8>, offset: usize) -> (bounds: (usize, usize))
    requires
        valid_utf8(bytes@),
        offset <= bytes@.len(),
    ensures
        is_line_start(bytes@, offset as int, bounds.0 as int),
        is_line_end(bytes@, offset as int, bounds.1 as int),
        is_char_boundary(bytes@, bounds.0 as int),
        is_char_boundary(bytes@, bounds.1 as int),
{
    let len: usize = bytes.len();
    let mut start: usize = offset;
    while start > 0 && bytes[start - 1] != LINE_FEED
        invariant
            start <= offset <= len == bytes@.len(),
            forall|k: int| start <= k < offset ==> bytes@[k] != LINE_FEED,
        decreases start,
    {
        start -= 1;
    }
    let mut end: usize = offset;
    while end < len && bytes[end] != LINE_FEED
        invariant
            offset <= end <= len == bytes@.len(),
            forall|k: int| offset <= k < end ==> bytes@[k] != LINE_FEED,
        decreases len - end,
    {
        end += 1;
    }
    proof {
        lemma_boundary_bytes(bytes@, end as int);
        lemma_boundary_bytes(bytes@, start as int);
        if start > 0 {
            lemma_boundary_bytes(bytes@, start - 1);
            lemma_scalar_at(bytes@, start - 1);
            assert(tail(bytes@, start - 1)[0] == bytes@[start - 1]);
        }
    }
    (start, end)
}

/// The limits of the word around an offset are determined: two offsets
/// that both begin it are equal, and so are two that both end it.
pub proof fn lemma_word_bounds_unique(
    s: Seq<u8>,
    offset: int,
    start1: int,
    end1: int,
    start2: int,
    end2: int,
)
    requires
        is_word_start(s, offset, start1),
        is_word_start(s, offset, start2),
        is_word_end(s, offset, end1),
        is_word_end(s, offset, end2),
    ensures
        start1 == start2,
        end1 == end2,
{
    if start1 < start2 {
        assert(!delimiter_before(s, start2));
    }
    if start2 < start1 {
        assert(!delimiter_before(s, start1));
    }
    if end1 < end2 {
        assert(!delimiter_at(s, end1));
    }
    if end2 < end1 {
        assert(!delimiter_at(s, end2));
    }
}

/// The limits of the line around an offset are determined.
pub proof fn lemma_line_bounds_unique(
    s: Seq<u8>,
    offset: int,
    start1: int,
    end1: int,
    start2: int,
    end2: int,
)
    requires
        is_line_start(s, offset, start1),
        is_line_start(s, offset, start2),
        is_line_end(s, offset, end1),
        is_line_end(s, offset, end2),
    ensures
        start1 == start2,
        end1 == end2,
{
    if start1 < start2 {
        assert(s[start2 - 1] != LINE_FEED);
    }
    if start2 < start1 {
        assert(s[start1 - 1] != LINE_FEED);
    }
    if end1 < end2 {
        assert(s[end1] != LINE_FEED);
    }
    if end2 < end1 {
        assert(s[end2] != LINE_FEED);
    }
}

/// What the character at boundary `i` means for the search of list items.
pub enum ItemStep {
    /// A line feed.
    Newline,
    /// White space other than a line feed.
    Blank,
    /// Anything else.
    Content,
}

/// What the character at boundary `i` means for the search of list items.
pub open spec fn item_step(s: Seq<u8>, i: int) -> ItemStep {
    if s[i] == LINE_FEED {
        ItemStep::Newline
    } else if whitespace(char_at(s, i)) {
        ItemStep::Blank
    } else {
        ItemStep::Content
    }
}

/// The offsets from boundary `i` on at which a list item begins, when
/// `newlines` line feeds, counted up to two, lie between `i` and the last
/// character before it that is not white space.
///
/// An item begins at a character that is not white space and that follows
/// an empty line, that is at least two line feeds with nothing but white
/// space between them and it.
pub open spec fn items_from(s: Seq<u8>, i: int, newlines: int) -> Seq<usize>
    decreases s.len() - i,
{
    let next = next_boundary(s, i);
    if i < 0 || next <= i || next > s.len() {
        Seq::<usize>::empty()
    } else {
        match item_step(s, i) {
            ItemStep::Newline => items_from(
                s,
                next,
                if newlines < 2 {
                    newlines + 1
                } else {
                    2
                },
            ),
            ItemStep::Blank => items_from(s, next, newlines),
            ItemStep::Content => if newlines >= 2 {
                seq![i as usize] + items_from(s, next, 0)
            } else {
                items_from(s, next, 0)
            },
        }
    }
}

/// The offsets at which the list items of a text begin; the first line
/// begins one.
pub open spec fn item_offsets(s: Seq<u8>) -> Seq<usize> {
    items_from(s, 0, 2)
}

/// Finds the offsets at which list items begin, in rising order.
pub fn list_items(bytes: &Vec<u8>) -> (items: Vec<usize>)
    requires
        valid_utf8(bytes@),
    ensures
        items@ == item_offsets(bytes@),
{
    let len: usize = bytes.len();
    let mut items: Vec<usize> = Vec::new();
    let mut newlines: u8 = 2;
    let mut i: usize = 0;
    proof {
        is_char_boundary_start_end_of_seq(bytes@);
    }
    while i < len
        invariant
            valid_utf8(bytes@),
            len == bytes@.len(),
            i <= len,
            is_char_boundary(bytes@, i as int),
            newlines <= 2,
            items@ + items_from(bytes@, i as int, newlines as int) == item_offsets(bytes@),
        decreases len - i,
    {
        proof {
            lemma_scalar_at(bytes@, i as int);
        }
        let ghost before = items@;
        let c: char = char_at_boundary(bytes, i);
        let next: usize = next_char_boundary(bytes, i);
        if bytes[i] == LINE_FEED {
            if newlines < 2 {
                newlines += 1;
            }
        } else if c.is_whitespace() {
        } else {
            if newlines >= 2 {
                items.push(i);
                assert(items@ + items_from(bytes@, next as int, 0) =~= before + (seq![i]
                    + items_from(bytes@, next as int, 0)));
            }
            newlines = 0;
        }
        i = next;
    }
    assert(items@ + Seq::<usize>::empty() =~= items@);
    items
}

} // verus!
