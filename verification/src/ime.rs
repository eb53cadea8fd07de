//! The window of text that is shown to an input method.
//!
//! An input method sees the text around the cursor, but no more than
//! `MAX_SURROUNDING_BYTES` of it: up to half of that behind the cursor, and
//! before the cursor what the other side has left over.

use crate::utf8::{ceil_boundary, ceil_char_boundary, floor_boundary, floor_char_boundary};
use crate::utf8::{lemma_ceil_boundary, lemma_floor_boundary};
use vstd::prelude::*;
use vstd::utf8::*;

verus! {

/// Maximum number of surrounding bytes submitted to an input method.
pub const MAX_SURROUNDING_BYTES: usize = 4000;

/// Where the window around `cursor` ends: half the budget behind the cursor,
/// not beyond the text, stepped back to a character boundary.
pub open spec fn window_end(s: Seq<u8>, cursor: int) -> int {
    floor_boundary(s, cursor + MAX_SURROUNDING_BYTES / 2)
}

/// Where the window around `cursor` starts: before the cursor by what the
/// budget has left, not before the text, stepped forward to a character
/// boundary.
pub open spec fn window_start(s: Seq<u8>, cursor: int) -> int {
    let remaining = MAX_SURROUNDING_BYTES - (window_end(s, cursor) - cursor);
    ceil_boundary(
        s,
        if cursor >= remaining {
            cursor - remaining
        } else {
            0
        },
    )
}

/// The window encloses the cursor, keeps to the budget and has character
/// boundaries at both ends.
pub proof fn lemma_window(s: Seq<u8>, cursor: int)
    requires
        valid_utf8(s),
        is_char_boundary(s, cursor),
    ensures
        0 <= window_start(s, cursor) <= cursor <= window_end(s, cursor) <= s.len(),
        window_end(s, cursor) - window_start(s, cursor) <= MAX_SURROUNDING_BYTES,
        window_end(s, cursor) - cursor <= MAX_SURROUNDING_BYTES / 2,
        is_char_boundary(s, window_start(s, cursor)),
        is_char_boundary(s, window_end(s, cursor)),
{
    crate::utf8::lemma_boundary_bytes(s, cursor);
    let end = window_end(s, cursor);
    lemma_floor_boundary(s, cursor + MAX_SURROUNDING_BYTES / 2);
    if end < cursor {
        assert(!is_char_boundary(s, cursor));
    }
    let remaining = MAX_SURROUNDING_BYTES - (end - cursor);
    let from = if cursor >= remaining {
        cursor - remaining
    } else {
        0
    };
    lemma_ceil_boundary(s, from);
    if window_start(s, cursor) > cursor {
        assert(!is_char_boundary(s, cursor));
    }
}

/// Computes the window of text around `cursor` for the input method.
pub fn surrounding_window(bytes: &Vec<u8>, cursor: usize) -> (window: (usize, usize))
    requires
        valid_utf8(bytes@),
        is_char_boundary(bytes@, cursor as int),
    ensures
        window.0 == window_start(bytes@, cursor as int),
        window.1 == window_end(bytes@, cursor as int),
        window.0 <= cursor <= window.1 <= bytes@.len(),
        window.1 - window.0 <= MAX_SURROUNDING_BYTES,
        is_char_boundary(bytes@, window.0 as int),
        is_char_boundary(bytes@, window.1 as int),
{
    proof {
        lemma_window(bytes@, cursor as int);
        crate::utf8::lemma_boundary_bytes(bytes@, cursor as int);
    }
    let len: usize = bytes.len();
    let half: usize = MAX_SURROUNDING_BYTES / 2;
    let end: usize = if len - cursor <= half {
        len
    } else {
        floor_char_boundary(bytes, cursor + half)
    };
    let remaining: usize = MAX_SURROUNDING_BYTES - (end - cursor);
    let from: usize = if cursor >= remaining {
        cursor - remaining
    } else {
        0
    };
    let start: usize = ceil_char_boundary(bytes, from);
    (start, end)
}

/// Brings an offset difference into the range of `i32`.
pub open spec fn clamp_i32(v: int) -> i32 {
    if v > i32::MAX {
        i32::MAX
    } else if v < i32::MIN {
        i32::MIN
    } else {
        v as i32
    }
}

/// The position of `offset` relative to `origin`, brought into the range of
/// `i32`.
pub fn relative_offset(offset: usize, origin: usize) -> (r: i32)
    ensures
        r == clamp_i32(offset - origin),
{
    if offset >= origin {
        let d: usize = offset - origin;
        if d > 0x7fff_ffff {
            i32::MAX
        } else {
            d as i32
        }
    } else {
        let d: usize = origin - offset;
        if d >= 0x8000_0000 {
            i32::MIN
        } else {
            -(d as i32)
        }
    }
}

/// What an input method has asked for since its last `done`.
///
/// The requests of one round are collected and take effect together: first
/// the deletion around the cursor, then the committed text, then the
/// composition text.
#[derive(Debug)]
pub struct TextInputState {
    /// Composition text with the cursor range inside it.
    pub preedit_string: Option<(String, i32, i32)>,
    /// Text to insert at the cursor.
    pub commit_string: Option<String>,
    /// Bytes to delete before and behind the cursor.
    pub delete_surrounding_text: Option<(u32, u32)>,
}

impl TextInputState {
    /// State without requests.
    pub fn new() -> (state: Self)
        ensures
            state.preedit_string is None,
            state.commit_string is None,
            state.delete_surrounding_text is None,
    {
        TextInputState {
            preedit_string: None,
            commit_string: None,
            delete_surrounding_text: None,
        }
    }

    /// Notes a request to show composition text; no text means empty text.
    pub fn preedit(&mut self, text: Option<String>, cursor_begin: i32, cursor_end: i32)
        ensures
            final(self).preedit_string matches Some(request) && request.1 == cursor_begin
                && request.2 == cursor_end && request.0@ == match text {
                Some(text) => text@,
                None => Seq::<char>::empty(),
            },
            final(self).commit_string == old(self).commit_string,
            final(self).delete_surrounding_text == old(self).delete_surrounding_text,
    {
        let text = match text {
            Some(text) => text,
            None => String::new(),
        };
        self.preedit_string = Some((text, cursor_begin, cursor_end));
    }

    /// Notes a request to insert text; no text means empty text.
    pub fn commit(&mut self, text: Option<String>)
        ensures
            final(self).commit_string matches Some(request) && request@ == match text {
                Some(text) => text@,
                None => Seq::<char>::empty(),
            },
            final(self).preedit_string == old(self).preedit_string,
            final(self).delete_surrounding_text == old(self).delete_surrounding_text,
    {
        let text = match text {
            Some(text) => text,
            None => String::new(),
        };
        self.commit_string = Some(text);
    }

    /// Notes a request to delete around the cursor.
    pub fn delete_surrounding(&mut self, before_length: u32, after_length: u32)
        ensures
            final(self).delete_surrounding_text == Some((before_length, after_length)),
            final(self).preedit_string == old(self).preedit_string,
            final(self).commit_string == old(self).commit_string,
    {
        self.delete_surrounding_text = Some((before_length, after_length));
    }
}

} // verus!
