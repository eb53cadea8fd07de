//! Text input area: the document, its cursor and selection, and what keys,
//! touches and the input method do to them.

use crate::config::MillisDuration;
use crate::geometry::Size;
use crate::ime::{
    clamp_i32, relative_offset, surrounding_window, window_end, window_start, TextInputState,
};
use crate::keys::{classify_key, key_command, KeyCommand, Modifiers};
use crate::layout::{
    CaretAnchor, CaretRequest, DrawPlan, GlyphHit, RunStyle, ScrollRequest, TextRun,
};
use crate::persist::{
    add_trailing_newline, loaded_form, pending_after, pending_after_write, persist_decision,
    stored_form, strip_trailing_newline, PersistAction, PersistenceState,
};
use crate::scan::{
    is_line_end, is_line_start, is_word_end, is_word_start, item_offsets, line_bounds,
    list_items, word_bounds, LINE_FEED,
};
use crate::touch::{
    down_action, motion_action, within_multi_tap, HandleDistance, MotionOrigin, TouchAction,
    TouchState,
};
use crate::utf8::{
    bytes_equal, bytes_to_string, char_distance, chars_apart, copy_range, floor_boundary,
    floor_char_boundary,
    lemma_encode_char, lemma_floor_boundary, lemma_floor_boundary_monotone, lemma_splice,
    next_boundary, next_char_boundary, prev_boundary, prev_char_boundary, push_char, splice,
    splice_bytes, string_to_bytes,
};
use std::ops::Range;
use vstd::prelude::*;
use vstd::utf8::*;

verus! {

/// An area for text input.
pub struct TextBox {
    preedit_text: String,
    text: Vec<u8>,
    selection: Option<Range<usize>>,
    cursor_index: usize,
    size: Size,
    touch_state: TouchState,
    keyboard_focused: bool,
    ime_focused: bool,
    persist: PersistenceState,
    focus_cursor: bool,
    text_input_dirty: bool,
    dirty: bool,
}

/// What a text box holds, as plain values.
pub struct TextBoxView {
    /// The text as UTF-8 bytes.
    pub text: Seq<u8>,
    /// Composition text of the input method, not yet part of the text.
    pub preedit: Seq<char>,
    /// Selected byte range, if any.
    pub selection: Option<Range<usize>>,
    /// Byte offset of the cursor.
    pub cursor: usize,
    /// Physical size of the text box.
    pub size: Size,
    /// Gesture recognizer state.
    pub touch: TouchState,
    /// Whether the keyboard is focused on the text box.
    pub keyboard_focused: bool,
    /// Whether an input method is focused on the text box.
    pub ime_focused: bool,
    /// Time of the first edit that is not written to storage yet.
    pub pending_since: Option<u64>,
    /// Whether the next drawing has to scroll to the cursor.
    pub focus_cursor: bool,
    /// Whether the input method has to be told about a change.
    pub text_input_dirty: bool,
    /// Whether the text box has to be drawn again.
    pub dirty: bool,
}

impl TextBoxView {
    /// The document is well formed: the text is valid UTF-8, the cursor lies
    /// on a character boundary within it, and a selection is a non-empty
    /// range within the text whose two ends lie on character boundaries.
    pub open spec fn wf(self) -> bool {
        &&& valid_utf8(self.text)
        &&& is_char_boundary(self.text, self.cursor as int)
        &&& self.cursor <= self.text.len()
        &&& match self.selection {
            Some(selection) => {
                &&& selection.start < selection.end <= self.text.len()
                &&& is_char_boundary(self.text, selection.start as int)
                &&& is_char_boundary(self.text, selection.end as int)
            },
            None => true,
        }
    }

    /// Start of the range that typed text replaces: the start of the
    /// selection, or the cursor.
    pub open spec fn edit_start(self) -> int {
        match self.selection {
            Some(selection) => selection.start as int,
            None => self.cursor as int,
        }
    }

    /// End of the range that typed text replaces: the end of the selection,
    /// or the cursor.
    pub open spec fn edit_end(self) -> int {
        match self.selection {
            Some(selection) => selection.end as int,
            None => self.cursor as int,
        }
    }

    /// The state after the bytes in `[a, b)` were replaced by `ins` at time
    /// `now`: the cursor stands behind the inserted bytes, nothing is
    /// selected, the edit is pending, and the view and the input method are
    /// due for an update.
    pub open spec fn edited(self, a: int, b: int, ins: Seq<u8>, now: u64) -> TextBoxView {
        TextBoxView {
            text: splice(self.text, a, b, ins),
            cursor: (a + ins.len()) as usize,
            selection: None,
            pending_since: pending_after(self.pending_since, now),
            focus_cursor: true,
            text_input_dirty: true,
            dirty: true,
            ..self
        }
    }

    /// The state after the cursor was placed at `cursor`: nothing is
    /// selected, and the view and the input method are due for an update.
    pub open spec fn moved(self, cursor: usize) -> TextBoxView {
        TextBoxView {
            cursor,
            selection: None,
            focus_cursor: true,
            text_input_dirty: true,
            dirty: true,
            ..self
        }
    }

    /// The range that `select` makes of two offsets: ordered, brought into
    /// the text and stepped back to character boundaries; nothing when that
    /// leaves no byte between them.
    pub open spec fn normalized_selection(self, start: usize, end: usize) -> Option<Range<usize>> {
        let low = if start <= end {
            start
        } else {
            end
        };
        let high = if start <= end {
            end
        } else {
            start
        };
        let first = floor_boundary(self.text, low as int);
        let last = floor_boundary(self.text, high as int);
        if first < last {
            Some(Range { start: first as usize, end: last as usize })
        } else {
            None
        }
    }

    /// The state after `select` was called with two offsets.
    pub open spec fn selected(self, start: usize, end: usize) -> TextBoxView {
        let selection = self.normalized_selection(start, end);
        TextBoxView {
            selection,
            focus_cursor: self.focus_cursor || selection is Some,
            text_input_dirty: true,
            dirty: true,
            ..self
        }
    }
}

impl View for TextBox {
    type V = TextBoxView;

    closed spec fn view(&self) -> TextBoxView {
        TextBoxView {
            text: self.text@,
            preedit: self.preedit_text@,
            selection: self.selection,
            cursor: self.cursor_index,
            size: self.size,
            touch: self.touch_state,
            keyboard_focused: self.keyboard_focused,
            ime_focused: self.ime_focused,
            pending_since: self.persist.pending_since,
            focus_cursor: self.focus_cursor,
            text_input_dirty: self.text_input_dirty,
            dirty: self.dirty,
        }
    }
}

/// Replacing the bytes between two boundaries of a well-formed document by
/// valid UTF-8 leaves a well-formed document.
pub proof fn lemma_edited_wf(v: TextBoxView, a: int, b: int, ins: Seq<u8>, now: u64)
    requires
        v.wf(),
        valid_utf8(ins),
        is_char_boundary(v.text, a),
        is_char_boundary(v.text, b),
        a <= b,
        a + ins.len() <= usize::MAX,
    ensures
        v.edited(a, b, ins, now).wf(),
        v.edited(a, b, ins, now).text.len() == v.text.len() - (b - a) + ins.len(),
{
    crate::utf8::lemma_boundary_bytes(v.text, a);
    crate::utf8::lemma_boundary_bytes(v.text, b);
    lemma_splice(v.text, a, b, ins);
    is_char_boundary_start_end_of_seq(ins);
}

impl TextBox {
    /// The document is well formed.
    pub open spec fn wf(&self) -> bool {
        self@.wf()
    }

    /// A text box that holds `text`, with the cursor at its end.
    pub fn new(text: String) -> (text_box: Self)
        ensures
            text_box.wf(),
            text_box@ == (TextBoxView {
                text: encode_utf8(text@),
                preedit: Seq::<char>::empty(),
                selection: None,
                cursor: encode_utf8(text@).len() as usize,
                size: Size { width: 0, height: 0 },
                touch: TouchState { action: TouchAction::Tap, last_time: 0, start_offset: 0 },
                keyboard_focused: false,
                ime_focused: false,
                pending_since: None,
                focus_cursor: false,
                text_input_dirty: true,
                dirty: true,
            }),
    {
        let bytes = string_to_bytes(text.as_str());
        let cursor_index: usize = bytes.len();
        proof {
            is_char_boundary_start_end_of_seq(bytes@);
        }
        Self {
            preedit_text: String::new(),
            text: bytes,
            selection: None,
            cursor_index,
            size: Size { width: 0, height: 0 },
            touch_state: TouchState::new(),
            keyboard_focused: false,
            ime_focused: false,
            persist: PersistenceState::new(),
            focus_cursor: false,
            text_input_dirty: true,
            dirty: true,
        }
    }

    /// Check whether the text box requires a redraw.
    pub fn dirty(&self) -> (dirty: bool)
        ensures
            dirty == self@.dirty,
    {
        self.dirty
    }

    /// Retrieve and reset current IME dirtiness state.
    pub fn take_text_input_dirty(&mut self) -> (was_dirty: bool)
        ensures
            was_dirty == old(self)@.text_input_dirty,
            final(self)@ == (TextBoxView { text_input_dirty: false, ..old(self)@ }),
    {
        let was_dirty = self.text_input_dirty;
        self.text_input_dirty = false;
        was_dirty
    }

    /// The text.
    pub fn text(&self) -> (text: String)
        requires
            self.wf(),
        ensures
            text@ == decode_utf8(self@.text),
            encode_utf8(text@) == self@.text,
    {
        bytes_to_string(self.text.clone())
    }

    /// Length of the text in bytes.
    pub fn len(&self) -> (len: usize)
        ensures
            len == self@.text.len(),
    {
        self.text.len()
    }

    /// The composition text of the input method.
    pub fn preedit_text(&self) -> (preedit: String)
        ensures
            preedit@ == self@.preedit,
    {
        self.preedit_text.clone()
    }

    /// Byte offset of the cursor.
    pub fn cursor_index(&self) -> (cursor: usize)
        ensures
            cursor == self@.cursor,
    {
        self.cursor_index
    }

    /// The selected byte range.
    pub fn selection(&self) -> (selection: Option<Range<usize>>)
        ensures
            selection == self@.selection,
    {
        match &self.selection {
            Some(selection) => Some(Range { start: selection.start, end: selection.end }),
            None => None,
        }
    }

    /// Classification of the current touch gesture.
    pub fn touch_action(&self) -> (action: TouchAction)
        ensures
            action == self@.touch.action,
    {
        self.touch_state.action
    }

    /// Whether the next drawing scrolls to the cursor.
    pub fn focus_cursor(&self) -> (focus: bool)
        ensures
            focus == self@.focus_cursor,
    {
        self.focus_cursor
    }

    /// Time of the first edit that is not written to storage yet.
    pub fn pending_since(&self) -> (pending: Option<u64>)
        ensures
            pending == self@.pending_since,
    {
        self.persist.pending_since
    }

    /// Set the text box's physical size.
    pub fn set_size(&mut self, size: Size)
        ensures
            final(self)@ == if old(self)@.size == size {
                old(self)@
            } else {
                TextBoxView { size, focus_cursor: true, dirty: true, ..old(self)@ }
            },
    {
        if self.size.width == size.width && self.size.height == size.height {
            return ;
        }
        self.size = size;
        self.focus_cursor = true;
        self.dirty = true;
    }

    /// Set keyboard focus state.
    pub fn set_keyboard_focus(&mut self, focused: bool)
        ensures
            final(self)@ == (TextBoxView {
                keyboard_focused: focused,
                dirty: old(self)@.dirty || old(self)@.keyboard_focused != focused,
                ..old(self)@
            }),
    {
        self.dirty = self.dirty || self.keyboard_focused != focused;
        self.keyboard_focused = focused;
    }

    /// Set IME focus state.
    pub fn set_ime_focus(&mut self, focused: bool)
        ensures
            final(self)@ == (TextBoxView {
                ime_focused: focused,
                dirty: old(self)@.dirty || old(self)@.ime_focused != focused,
                ..old(self)@
            }),
    {
        self.dirty = self.dirty || self.ime_focused != focused;
        self.ime_focused = focused;
    }

    /// Replace the entire text box content.
    pub fn set_text(&mut self, text: String)
        ensures
            final(self).wf(),
            final(self)@ == (TextBoxView {
                text: encode_utf8(text@),
                cursor: encode_utf8(text@).len() as usize,
                selection: None,
                focus_cursor: true,
                text_input_dirty: true,
                dirty: true,
                ..old(self)@
            }),
    {
        let bytes = string_to_bytes(text.as_str());
        proof {
            is_char_boundary_start_end_of_seq(bytes@);
        }
        self.cursor_index = bytes.len();
        self.focus_cursor = true;
        self.text = bytes;
        self.selection = None;
        self.text_input_dirty = true;
        self.dirty = true;
    }

    /// Modify text selection.
    ///
    /// The two offsets are put in order, brought into the text and stepped
    /// back to character boundaries. A range that is empty after that
    /// clears the selection.
    pub fn select(&mut self, start: usize, end: usize)
        requires
            old(self).wf(),
        ensures
            final(self).wf(),
            final(self)@ == old(self)@.selected(start, end),
    {
        let low: usize = if start <= end {
            start
        } else {
            end
        };
        let high: usize = if start <= end {
            end
        } else {
            start
        };
        let first: usize = floor_char_boundary(&self.text, low);
        let last: usize = floor_char_boundary(&self.text, high);
        if first < last {
            self.selection = Some(Range { start: first, end: last });
            self.focus_cursor = true;
        } else {
            self.selection = None;
        }
        self.text_input_dirty = true;
        self.dirty = true;
    }

    /// Clear text selection.
    pub fn clear_selection(&mut self)
        requires
            old(self).wf(),
        ensures
            final(self).wf(),
            final(self)@ == (TextBoxView {
                selection: None,
                text_input_dirty: true,
                dirty: true,
                ..old(self)@
            }),
    {
        self.selection = None;
        self.text_input_dirty = true;
        self.dirty = true;
    }

    /// Get selection text.
    pub fn selection_text(&self) -> (text: Option<String>)
        requires
            self.wf(),
        ensures
            match self@.selection {
                Some(selection) => text matches Some(t) && t@ == decode_utf8(
                    self@.text.subrange(selection.start as int, selection.end as int),
                ),
                None => text is None,
            },
    {
        match &self.selection {
            Some(selection) => {
                let part = copy_range(&self.text, selection.start, selection.end);
                proof {
                    lemma_subrange_valid(
                        self.text@,
                        selection.start as int,
                        selection.end as int,
                    );
                }
                Some(bytes_to_string(part))
            },
            None => None,
        }
    }

    /// Replaces the bytes in `[from, to)` by `ins` and asks for a write.
    fn replace_range(&mut self, from: usize, to: usize, ins: &Vec<u8>, now: u64) -> (action:
        PersistAction)
        requires
            old(self).wf(),
            valid_utf8(ins@),
            is_char_boundary(old(self)@.text, from as int),
            is_char_boundary(old(self)@.text, to as int),
            from <= to <= old(self)@.text.len(),
        ensures
            final(self).wf(),
            final(self)@ == old(self)@.edited(from as int, to as int, ins@, now),
            final(self)@.cursor == from + ins@.len(),
            action == persist_decision(old(self)@.pending_since, now),
    {
        let text = splice_bytes(&self.text, from, to, ins);
        let prefix: usize = text.len() - (self.text.len() - to);
        proof {
            lemma_edited_wf(self@, from as int, to as int, ins@, now);
        }
        self.text = text;
        self.cursor_index = prefix;
        self.selection = None;
        self.focus_cursor = true;
        self.text_input_dirty = true;
        self.dirty = true;
        self.persist.mutated(now)
    }
}

/// The bytes between two boundaries of valid UTF-8 are valid UTF-8.
pub proof fn lemma_subrange_valid(s: Seq<u8>, a: int, b: int)
    requires
        valid_utf8(s),
        is_char_boundary(s, a),
        is_char_boundary(s, b),
        a <= b,
    ensures
        valid_utf8(s.subrange(a, b)),
{
    crate::utf8::lemma_boundary_bytes(s, a);
    crate::utf8::lemma_boundary_bytes(s, b);
    valid_utf8_split(s, b);
    let head = s.subrange(0, b);
    crate::utf8::lemma_boundary_bytes(head, a);
    valid_utf8_split(head, a);
    assert(head.subrange(a, head.len() as int) =~= s.subrange(a, b));
}

/// What the host is asked to do with the clipboard.
#[derive(Debug)]
pub enum ClipboardRequest {
    /// Leave the clipboard alone.
    Untouched,
    /// Put this text on the clipboard.
    Copy(String),
    /// Fetch the text of the clipboard and hand it to `paste`.
    Paste,
}

/// What a key press leaves for the host to do.
#[derive(Debug)]
pub struct KeyOutcome {
    /// Request for the clipboard.
    pub clipboard: ClipboardRequest,
    /// Request for storage, if the text was changed.
    pub persist: Option<PersistAction>,
}

impl TextBoxView {
    /// Where the cursor goes on a step to the left: to the start of the
    /// selection, else one character back, and nowhere from the start.
    pub open spec fn left_target(self) -> usize {
        match self.selection {
            Some(selection) => selection.start,
            None => if self.cursor == 0 {
                0
            } else {
                prev_boundary(self.text, self.cursor as int) as usize
            },
        }
    }

    /// Where the cursor goes on a step to the right: to the end of the
    /// selection, else one character on, and nowhere from the end.
    pub open spec fn right_target(self) -> usize {
        match self.selection {
            Some(selection) => selection.end,
            None => if self.cursor >= self.text.len() {
                self.cursor
            } else {
                next_boundary(self.text, self.cursor as int) as usize
            },
        }
    }

    /// The range that a backward deletion removes: the selection, else the
    /// character before the cursor, and nothing at the start of the text.
    pub open spec fn backward_range(self) -> Option<(int, int)> {
        match self.selection {
            Some(selection) => Some((selection.start as int, selection.end as int)),
            None => if self.cursor == 0 {
                None
            } else {
                Some((prev_boundary(self.text, self.cursor as int), self.cursor as int))
            },
        }
    }

    /// The range that a forward deletion removes: the selection, else the
    /// character behind the cursor, and nothing at the end of the text.
    pub open spec fn forward_range(self) -> Option<(int, int)> {
        match self.selection {
            Some(selection) => Some((selection.start as int, selection.end as int)),
            None => if self.cursor >= self.text.len() {
                None
            } else {
                Some((self.cursor as int, next_boundary(self.text, self.cursor as int)))
            },
        }
    }

    /// The state after the bytes of `range` were removed at time `now`, and
    /// the same state if there is no range.
    pub open spec fn removed(self, range: Option<(int, int)>, now: u64) -> TextBoxView {
        match range {
            Some((a, b)) => self.edited(a, b, Seq::<u8>::empty(), now),
            None => self,
        }
    }

    /// The state after `ins` took the place of the selection, or was
    /// inserted at the cursor, at time `now`.
    pub open spec fn typed(self, ins: Seq<u8>, now: u64) -> TextBoxView {
        self.edited(self.edit_start(), self.edit_end(), ins, now)
    }

    /// Start of the range that the input method asks to delete: `before`
    /// bytes before the cursor, not before the text, stepped back to a
    /// character boundary.
    pub open spec fn surrounding_start(self, before: u32) -> int {
        floor_boundary(self.text, self.cursor - before)
    }

    /// End of the range that the input method asks to delete: `after` bytes
    /// behind the cursor, not behind the text, stepped back to a character
    /// boundary.
    pub open spec fn surrounding_end(self, after: u32) -> int {
        floor_boundary(self.text, self.cursor + after)
    }

    /// Whether composition text `text` that is set replaces a selection.
    pub open spec fn composing_edits(self, text: Seq<char>) -> bool {
        text.len() > 0 && self.selection is Some
    }

    /// The state after the composition text was set to `text` at time `now`:
    /// a composition that begins replaces the selection.
    pub open spec fn composing(self, text: Seq<char>, now: u64) -> TextBoxView {
        TextBoxView {
            preedit: text,
            focus_cursor: true,
            dirty: true,
            ..if self.composing_edits(text) {
                self.typed(Seq::<u8>::empty(), now)
            } else {
                self
            }
        }
    }

    /// The state after the key command `command` at time `now`.
    pub open spec fn after_key(self, command: KeyCommand, now: u64) -> TextBoxView {
        let focused = TextBoxView { focus_cursor: true, ..self };
        match command {
            KeyCommand::Ignore => self,
            KeyCommand::MoveLeft => self.moved(self.left_target()),
            KeyCommand::MoveRight => self.moved(self.right_target()),
            KeyCommand::DeleteBackward => focused.removed(self.backward_range(), now),
            KeyCommand::DeleteForward => focused.removed(self.forward_range(), now),
            KeyCommand::Insert(c) => self.typed(encode_utf8(seq![c]), now),
            KeyCommand::Copy => focused,
            KeyCommand::Paste => focused,
            KeyCommand::Unbound => focused,
        }
    }

    /// Whether the key command `command` changes the text.
    pub open spec fn key_edits(self, command: KeyCommand) -> bool {
        match command {
            KeyCommand::DeleteBackward => self.backward_range() is Some,
            KeyCommand::DeleteForward => self.forward_range() is Some,
            KeyCommand::Insert(_) => true,
            _ => false,
        }
    }
}

impl TextBox {
    /// Paste text into the input element: it takes the place of the
    /// selection, or is inserted at the cursor, and the cursor moves behind
    /// it. Returns what to do about storage.
    pub fn paste(&mut self, text: &str, now: u64) -> (action: PersistAction)
        requires
            old(self).wf(),
        ensures
            final(self).wf(),
            final(self)@ == old(self)@.typed(encode_utf8(text@), now),
            action == persist_decision(old(self)@.pending_since, now),
    {
        let ins = string_to_bytes(text);
        self.type_bytes(&ins, now)
    }

    /// Insert text at the current cursor position.
    pub fn commit_string(&mut self, text: &str, now: u64) -> (action: PersistAction)
        requires
            old(self).wf(),
        ensures
            final(self).wf(),
            final(self)@ == old(self)@.typed(encode_utf8(text@), now),
            action == persist_decision(old(self)@.pending_since, now),
    {
        self.paste(text, now)
    }

    /// Inserts a character in place of the selection, or at the cursor, and
    /// moves the cursor behind it.
    pub fn insert_char(&mut self, c: char, now: u64) -> (action: PersistAction)
        requires
            old(self).wf(),
        ensures
            final(self).wf(),
            final(self)@ == old(self)@.typed(encode_utf8(seq![c]), now),
            final(self)@.cursor == old(self)@.edit_start() + encode_utf8(seq![c]).len(),
            action == persist_decision(old(self)@.pending_since, now),
    {
        let mut ins: Vec<u8> = Vec::new();
        push_char(&mut ins, c);
        proof {
            lemma_encode_char(c);
            assert(ins@ =~= encode_utf8(seq![c]));
        }
        self.type_bytes(&ins, now)
    }

    /// Puts `ins` in place of the selection, or at the cursor.
    fn type_bytes(&mut self, ins: &Vec<u8>, now: u64) -> (action: PersistAction)
        requires
            old(self).wf(),
            valid_utf8(ins@),
        ensures
            final(self).wf(),
            final(self)@ == old(self)@.typed(ins@, now),
            final(self)@.cursor == old(self)@.edit_start() + ins@.len(),
            action == persist_decision(old(self)@.pending_since, now),
    {
        let (from, to): (usize, usize) = match &self.selection {
            Some(selection) => (selection.start, selection.end),
            None => (self.cursor_index, self.cursor_index),
        };
        self.replace_range(from, to, ins, now)
    }

    /// Moves the cursor one character to the left, or to the start of the
    /// selection, which is given up.
    pub fn move_left(&mut self)
        requires
            old(self).wf(),
        ensures
            final(self).wf(),
            final(self)@ == old(self)@.moved(old(self)@.left_target()),
    {
        let target: usize = match &self.selection {
            Some(selection) => selection.start,
            None => if self.cursor_index == 0 {
                0
            } else {
                prev_char_boundary(&self.text, self.cursor_index)
            },
        };
        self.place_cursor(target);
    }

    /// Moves the cursor one character to the right, or to the end of the
    /// selection, which is given up.
    pub fn move_right(&mut self)
        requires
            old(self).wf(),
        ensures
            final(self).wf(),
            final(self)@ == old(self)@.moved(old(self)@.right_target()),
    {
        let target: usize = match &self.selection {
            Some(selection) => selection.end,
            None => if self.cursor_index >= self.text.len() {
                self.cursor_index
            } else {
                next_char_boundary(&self.text, self.cursor_index)
            },
        };
        self.place_cursor(target);
    }

    /// Puts the cursor on a boundary and gives up the selection.
    fn place_cursor(&mut self, target: usize)
        requires
            old(self).wf(),
            is_char_boundary(old(self)@.text, target as int),
            target <= old(self)@.text.len(),
        ensures
            final(self).wf(),
            final(self)@ == old(self)@.moved(target),
    {
        self.cursor_index = target;
        self.selection = None;
        self.focus_cursor = true;
        self.text_input_dirty = true;
        self.dirty = true;
    }

    /// Deletes the selection, or the character before the cursor. Does
    /// nothing at the start of the text. Returns what to do about storage
    /// if something was deleted.
    pub fn delete_backward(&mut self, now: u64) -> (action: Option<PersistAction>)
        requires
            old(self).wf(),
        ensures
            final(self).wf(),
            final(self)@ == old(self)@.removed(old(self)@.backward_range(), now),
            action == if old(self)@.backward_range() is Some {
                Some(persist_decision(old(self)@.pending_since, now))
            } else {
                None
            },
    {
        let (from, to): (usize, usize) = match &self.selection {
            Some(selection) => (selection.start, selection.end),
            None => {
                if self.cursor_index == 0 {
                    return None;
                }
                (prev_char_boundary(&self.text, self.cursor_index), self.cursor_index)
            },
        };
        let nothing: Vec<u8> = Vec::new();
        Some(self.replace_range(from, to, &nothing, now))
    }

    /// Deletes the selection, or the character behind the cursor. Does
    /// nothing at the end of the text. Returns what to do about storage if
    /// something was deleted.
    pub fn delete_forward(&mut self, now: u64) -> (action: Option<PersistAction>)
        requires
            old(self).wf(),
        ensures
            final(self).wf(),
            final(self)@ == old(self)@.removed(old(self)@.forward_range(), now),
            action == if old(self)@.forward_range() is Some {
                Some(persist_decision(old(self)@.pending_since, now))
            } else {
                None
            },
    {
        let (from, to): (usize, usize) = match &self.selection {
            Some(selection) => (selection.start, selection.end),
            None => {
                if self.cursor_index >= self.text.len() {
                    return None;
                }
                (self.cursor_index, next_char_boundary(&self.text, self.cursor_index))
            },
        };
        let nothing: Vec<u8> = Vec::new();
        Some(self.replace_range(from, to, &nothing, now))
    }

    /// Delete text around the current cursor position: `before_length`
    /// bytes before it and `after_length` bytes behind it, as far as the
    /// text reaches, with both ends stepped back to character boundaries.
    /// The cursor goes to the start of what was deleted and the selection
    /// is given up. Returns what to do about storage.
    pub fn delete_surrounding_text(
        &mut self,
        before_length: u32,
        after_length: u32,
        now: u64,
    ) -> (action: PersistAction)
        requires
            old(self).wf(),
        ensures
            final(self).wf(),
            final(self)@ == old(self)@.edited(
                old(self)@.surrounding_start(before_length),
                old(self)@.surrounding_end(after_length),
                Seq::<u8>::empty(),
                now,
            ),
            final(self)@.cursor == old(self)@.surrounding_start(before_length),
            action == persist_decision(old(self)@.pending_since, now),
    {
        let len: usize = self.text.len();
        let cursor: usize = self.cursor_index;
        let before: usize = before_length as usize;
        let after: usize = after_length as usize;
        let low: usize = if cursor >= before {
            cursor - before
        } else {
            0
        };
        let high: usize = if len - cursor >= after {
            cursor + after
        } else {
            len
        };
        proof {
            lemma_floor_boundary(self.text@, cursor as int);
            lemma_floor_boundary_monotone(self.text@, low as int, cursor as int);
            lemma_floor_boundary_monotone(self.text@, cursor as int, high as int);
        }
        let from: usize = floor_char_boundary(&self.text, low);
        let to: usize = floor_char_boundary(&self.text, high);
        let nothing: Vec<u8> = Vec::new();
        self.replace_range(from, to, &nothing, now)
    }

    /// Set preedit text at the current cursor position. A composition that
    /// begins replaces the selection: with a non-empty `text` the selected
    /// bytes are deleted. Returns what to do about storage if so.
    pub fn set_preedit_string(
        &mut self,
        text: String,
        _cursor_begin: i32,
        _cursor_end: i32,
        now: u64,
    ) -> (action: Option<PersistAction>)
        requires
            old(self).wf(),
        ensures
            final(self).wf(),
            final(self)@ == old(self)@.composing(text@, now),
            action == if old(self)@.composing_edits(text@) {
                Some(persist_decision(old(self)@.pending_since, now))
            } else {
                None
            },
    {
        let mut action: Option<PersistAction> = None;
        if !text.as_str().is_empty() && self.selection.is_some() {
            let nothing: Vec<u8> = Vec::new();
            action = Some(self.type_bytes(&nothing, now));
        }
        self.preedit_text = text;
        self.focus_cursor = true;
        self.dirty = true;
        action
    }

    /// Handle new key press.
    ///
    /// The key and the modifiers are turned into a command, see
    /// `key_command`, and the command is carried out. What is left for the
    /// host to do is returned: a request for the clipboard, and one for
    /// storage if the text was changed.
    pub fn press_key(&mut self, keysym: u32, modifiers: Modifiers, now: u64) -> (outcome:
        KeyOutcome)
        requires
            old(self).wf(),
        ensures
            final(self).wf(),
            final(self)@ == old(self)@.after_key(key_command(keysym, modifiers), now),
            outcome.persist == if old(self)@.key_edits(key_command(keysym, modifiers)) {
                Some(persist_decision(old(self)@.pending_since, now))
            } else {
                None
            },
            match key_command(keysym, modifiers) {
                KeyCommand::Copy => match old(self)@.selection {
                    Some(selection) => outcome.clipboard matches ClipboardRequest::Copy(text)
                        && text@ == decode_utf8(
                        old(self)@.text.subrange(selection.start as int, selection.end as int),
                    ),
                    None => outcome.clipboard is Untouched,
                },
                KeyCommand::Paste => outcome.clipboard is Paste,
                _ => outcome.clipboard is Untouched,
            },
    {
        let command = classify_key(keysym, modifiers);
        self.apply_key(command, now)
    }

    /// Carries out a key command.
    pub fn apply_key(&mut self, command: KeyCommand, now: u64) -> (outcome: KeyOutcome)
        requires
            old(self).wf(),
        ensures
            final(self).wf(),
            final(self)@ == old(self)@.after_key(command, now),
            outcome.persist == if old(self)@.key_edits(command) {
                Some(persist_decision(old(self)@.pending_since, now))
            } else {
                None
            },
            match command {
                KeyCommand::Copy => match old(self)@.selection {
                    Some(selection) => outcome.clipboard matches ClipboardRequest::Copy(text)
                        && text@ == decode_utf8(
                        old(self)@.text.subrange(selection.start as int, selection.end as int),
                    ),
                    None => outcome.clipboard is Untouched,
                },
                KeyCommand::Paste => outcome.clipboard is Paste,
                _ => outcome.clipboard is Untouched,
            },
    {
        let mut outcome = KeyOutcome { clipboard: ClipboardRequest::Untouched, persist: None };
        match command {
            KeyCommand::Ignore => {},
            KeyCommand::MoveLeft => {
                self.move_left();
            },
            KeyCommand::MoveRight => {
                self.move_right();
            },
            KeyCommand::DeleteBackward => {
                self.focus_cursor = true;
                outcome.persist = self.delete_backward(now);
            },
            KeyCommand::DeleteForward => {
                self.focus_cursor = true;
                outcome.persist = self.delete_forward(now);
            },
            KeyCommand::Insert(c) => {
                outcome.persist = Some(self.insert_char(c, now));
            },
            KeyCommand::Copy => {
                self.focus_cursor = true;
                match self.selection_text() {
                    Some(text) => {
                        outcome.clipboard = ClipboardRequest::Copy(text);
                    },
                    None => {},
                }
            },
            KeyCommand::Paste => {
                self.focus_cursor = true;
                outcome.clipboard = ClipboardRequest::Paste;
            },
            KeyCommand::Unbound => {
                self.focus_cursor = true;
            },
        }
        outcome
    }
}

/// What a touch motion did.
#[derive(PartialEq, Eq, Structural, Copy, Clone, Debug)]
pub enum TouchMotion {
    /// Nothing: the gesture is still a tap, or has no effect while moving.
    Pending,
    /// The gesture scrolls the text by the distance moved since the given
    /// point.
    Scroll(MotionOrigin),
    /// The gesture drags a selection handle; the selection was updated.
    SelectionDrag,
}

/// What the release of a touch did.
#[derive(PartialEq, Eq, Structural, Copy, Clone, Debug)]
pub enum TouchRelease {
    /// Nothing: the gesture was a drag.
    Ignored,
    /// The cursor was placed at this offset.
    CursorPlaced(usize),
    /// The word between these offsets was asked to be selected.
    WordSelected(usize, usize),
    /// The line between these offsets was asked to be selected.
    LineSelected(usize, usize),
}

/// The selection after one of its handles was dragged to `offset`, and
/// whether the start handle is the dragged one from then on. A handle does
/// not move onto the other one. When the handles cross, the two ends are
/// swapped and the drag goes on with the other handle.
pub open spec fn dragged_selection(selection: Range<usize>, drags_start: bool, offset: usize) -> (
    Range<usize>,
    bool,
) {
    let start = if drags_start && offset != selection.end {
        offset
    } else {
        selection.start
    };
    let end = if !drags_start && offset != selection.start {
        offset
    } else {
        selection.end
    };
    if start > end {
        (Range { start: end, end: start }, !drags_start)
    } else {
        (Range { start, end }, drags_start)
    }
}

impl TextBoxView {
    /// The byte offset that a touch at `hit` means: the nearer end of the
    /// cluster, brought into the text and stepped back to a character
    /// boundary. Nothing when the touch hit no cluster.
    pub open spec fn offset_at(self, hit: Option<GlyphHit>) -> Option<usize> {
        match hit {
            Some(hit) => Some(floor_boundary(self.text, hit.nearest_edge() as int) as usize),
            None => None,
        }
    }

    /// The byte offset that a touch at `hit` means, and the start of the
    /// text when it hit no cluster.
    pub open spec fn touch_offset(self, hit: Option<GlyphHit>) -> usize {
        match self.offset_at(hit) {
            Some(offset) => offset,
            None => 0,
        }
    }

    /// How far the offset where the gesture began lies from the two ends of
    /// the selection, in characters, if text is selected.
    pub open spec fn handle_distance(self) -> Option<HandleDistance> {
        match self.selection {
            Some(selection) => Some(
                HandleDistance {
                    start: chars_apart(
                        self.text,
                        self.touch.start_offset as int,
                        selection.start as int,
                    ) as usize,
                    end: chars_apart(
                        self.text,
                        self.touch.start_offset as int,
                        selection.end as int,
                    ) as usize,
                },
            ),
            None => None,
        }
    }

    /// The state after a touch motion.
    pub open spec fn after_motion(
        self,
        beyond_tap_distance: bool,
        hit: Option<GlyphHit>,
    ) -> TextBoxView {
        let action = motion_action(self.touch, beyond_tap_distance, self.handle_distance());
        let touched = TextBoxView { touch: TouchState { action, ..self.touch }, ..self };
        match action {
            TouchAction::Drag => TextBoxView { text_input_dirty: true, dirty: true, ..touched },
            TouchAction::DragSelectionStart
            | TouchAction::DragSelectionEnd => match self.selection {
                Some(selection) => {
                    let (dragged, drags_start) = dragged_selection(
                        selection,
                        action == TouchAction::DragSelectionStart,
                        self.touch_offset(hit),
                    );
                    TextBoxView {
                        selection: Some(dragged),
                        touch: TouchState {
                            action: if drags_start {
                                TouchAction::DragSelectionStart
                            } else {
                                TouchAction::DragSelectionEnd
                            },
                            ..self.touch
                        },
                        focus_cursor: true,
                        text_input_dirty: true,
                        dirty: true,
                        ..self
                    }
                },
                None => touched,
            },
            _ => touched,
        }
    }

    /// What a touch motion reports.
    pub open spec fn motion_report(self, beyond_tap_distance: bool) -> TouchMotion {
        match motion_action(self.touch, beyond_tap_distance, self.handle_distance()) {
            TouchAction::Drag => TouchMotion::Scroll(
                if self.touch.action == TouchAction::Tap {
                    MotionOrigin::TouchDown
                } else {
                    MotionOrigin::LastMotion
                },
            ),
            TouchAction::DragSelectionStart
            | TouchAction::DragSelectionEnd => if self.selection is Some {
                TouchMotion::SelectionDrag
            } else {
                TouchMotion::Pending
            },
            _ => TouchMotion::Pending,
        }
    }
}

impl TextBox {
    /// Get byte index at the specified position, given the glyph cluster
    /// nearest to it.
    pub fn offset_at(&self, hit: Option<GlyphHit>) -> (offset: Option<usize>)
        requires
            self.wf(),
        ensures
            offset == self@.offset_at(hit),
            offset matches Some(o) ==> o <= self@.text.len() && is_char_boundary(
                self@.text,
                o as int,
            ),
    {
        match hit {
            Some(hit) => Some(floor_char_boundary(&self.text, hit.edge())),
            None => None,
        }
    }

    /// The offset that a touch at `hit` means, the start of the text when it
    /// hit nothing.
    fn touch_offset(&self, hit: Option<GlyphHit>) -> (offset: usize)
        requires
            self.wf(),
        ensures
            offset == self@.touch_offset(hit),
            offset <= self@.text.len(),
            is_char_boundary(self@.text, offset as int),
    {
        match self.offset_at(hit) {
            Some(offset) => offset,
            None => 0,
        }
    }

    /// Handle touch press events.
    ///
    /// `near_last_tap` says whether the touch lies within the tap distance
    /// of the previous touch-down, `hit` is the glyph cluster nearest to it.
    pub fn touch_down(
        &mut self,
        max_multi_tap: MillisDuration,
        time: u32,
        near_last_tap: bool,
        hit: Option<GlyphHit>,
    )
        requires
            old(self).wf(),
        ensures
            final(self).wf(),
            final(self)@ == (TextBoxView {
                touch: TouchState {
                    action: down_action(
                        old(self)@.touch.action,
                        within_multi_tap(old(self)@.touch.last_time, max_multi_tap, time),
                        near_last_tap,
                    ),
                    last_time: time,
                    start_offset: old(self)@.touch_offset(hit),
                },
                ..old(self)@
            }),
    {
        let offset = self.touch_offset(hit);
        self.touch_state.down(max_multi_tap, time, near_last_tap, offset);
    }

    /// Handle touch motion.
    ///
    /// `beyond_tap_distance` says whether the touch has moved farther from
    /// the touch-down than the tap distance, `hit` is the glyph cluster
    /// nearest to the touch. A scrolling drag is left to the caller, who is
    /// told from where the distance counts. The drag of a selection handle
    /// moves that end of the selection to the touch.
    pub fn touch_motion(&mut self, beyond_tap_distance: bool, hit: Option<GlyphHit>) -> (motion:
        TouchMotion)
        requires
            old(self).wf(),
        ensures
            final(self).wf(),
            final(self)@ == old(self)@.after_motion(beyond_tap_distance, hit),
            motion == old(self)@.motion_report(beyond_tap_distance),
    {
        let distance = match &self.selection {
            Some(selection) => Some(
                HandleDistance {
                    start: char_distance(
                        &self.text,
                        self.touch_state.start_offset,
                        selection.start,
                    ),
                    end: char_distance(&self.text, self.touch_state.start_offset, selection.end),
                },
            ),
            None => None,
        };
        let origin = self.touch_state.motion(beyond_tap_distance, distance);
        match self.touch_state.action {
            TouchAction::Drag => {
                self.text_input_dirty = true;
                self.dirty = true;
                TouchMotion::Scroll(origin)
            },
            TouchAction::DragSelectionStart | TouchAction::DragSelectionEnd => {
                let offset = self.touch_offset(hit);
                let (old_start, old_end): (usize, usize) = match &self.selection {
                    Some(selection) => (selection.start, selection.end),
                    None => {
                        return TouchMotion::Pending;
                    },
                };
                let modifies_start: bool = self.touch_state.action
                    == TouchAction::DragSelectionStart;
                let mut start: usize = old_start;
                let mut end: usize = old_end;
                if modifies_start && offset != end {
                    start = offset;
                } else if !modifies_start && offset != start {
                    end = offset;
                }
                if start > end {
                    let swapped: usize = start;
                    start = end;
                    end = swapped;
                    self.touch_state.action = if modifies_start {
                        TouchAction::DragSelectionEnd
                    } else {
                        TouchAction::DragSelectionStart
                    };
                }
                self.selection = Some(Range { start, end });
                self.focus_cursor = true;
                self.text_input_dirty = true;
                self.dirty = true;
                TouchMotion::SelectionDrag
            },
            _ => TouchMotion::Pending,
        }
    }

    /// Selects the word around `offset`, see `word_bounds`. Returns the
    /// limits of the word.
    pub fn select_word_at(&mut self, offset: usize) -> (bounds: (usize, usize))
        requires
            old(self).wf(),
        ensures
            final(self).wf(),
            is_word_start(
                old(self)@.text,
                floor_boundary(old(self)@.text, offset as int),
                bounds.0 as int,
            ),
            is_word_end(
                old(self)@.text,
                floor_boundary(old(self)@.text, offset as int),
                bounds.1 as int,
            ),
            final(self)@ == old(self)@.selected(bounds.0, bounds.1),
            final(self)@.selection == if bounds.0 < bounds.1 {
                Some(Range { start: bounds.0, end: bounds.1 })
            } else {
                None
            },
    {
        let at = floor_char_boundary(&self.text, offset);
        let bounds = word_bounds(&self.text, at);
        proof {
            lemma_floor_boundary(self.text@, bounds.0 as int);
            lemma_floor_boundary(self.text@, bounds.1 as int);
        }
        self.select(bounds.0, bounds.1);
        bounds
    }

    /// Selects the line around `offset`, see `line_bounds`. Returns the
    /// limits of the line.
    pub fn select_line_at(&mut self, offset: usize) -> (bounds: (usize, usize))
        requires
            old(self).wf(),
        ensures
            final(self).wf(),
            is_line_start(
                old(self)@.text,
                floor_boundary(old(self)@.text, offset as int),
                bounds.0 as int,
            ),
            is_line_end(
                old(self)@.text,
                floor_boundary(old(self)@.text, offset as int),
                bounds.1 as int,
            ),
            final(self)@ == old(self)@.selected(bounds.0, bounds.1),
            final(self)@.selection == if bounds.0 < bounds.1 {
                Some(Range { start: bounds.0, end: bounds.1 })
            } else {
                None
            },
    {
        let at = floor_char_boundary(&self.text, offset);
        let bounds = line_bounds(&self.text, at);
        proof {
            lemma_floor_boundary(self.text@, bounds.0 as int);
            lemma_floor_boundary(self.text@, bounds.1 as int);
        }
        self.select(bounds.0, bounds.1);
        bounds
    }

    /// Handle touch release.
    ///
    /// `hit` is the glyph cluster nearest to the point where the gesture
    /// began. A tap places the cursor there, a double tap selects the word
    /// and a triple tap the line around it. A drag has had its effect while
    /// moving.
    pub fn touch_up(&mut self, hit: Option<GlyphHit>) -> (release: TouchRelease)
        requires
            old(self).wf(),
        ensures
            final(self).wf(),
            match old(self)@.touch.action {
                TouchAction::Tap => {
                    &&& release == TouchRelease::CursorPlaced(old(self)@.touch_offset(hit))
                    &&& final(self)@ == old(self)@.moved(old(self)@.touch_offset(hit))
                },
                TouchAction::DoubleTap => {
                    &&& release matches TouchRelease::WordSelected(start, end)
                    &&& is_word_start(
                        old(self)@.text,
                        old(self)@.touch_offset(hit) as int,
                        start as int,
                    )
                    &&& is_word_end(
                        old(self)@.text,
                        old(self)@.touch_offset(hit) as int,
                        end as int,
                    )
                    &&& final(self)@ == old(self)@.selected(start, end)
                },
                TouchAction::TripleTap => {
                    &&& release matches TouchRelease::LineSelected(start, end)
                    &&& is_line_start(
                        old(self)@.text,
                        old(self)@.touch_offset(hit) as int,
                        start as int,
                    )
                    &&& is_line_end(
                        old(self)@.text,
                        old(self)@.touch_offset(hit) as int,
                        end as int,
                    )
                    &&& final(self)@ == old(self)@.selected(start, end)
                },
                _ => release == TouchRelease::Ignored && final(self)@ == old(self)@,
            },
    {
        match self.touch_state.action {
            TouchAction::Tap => {
                let offset = self.touch_offset(hit);
                self.place_cursor(offset);
                TouchRelease::CursorPlaced(offset)
            },
            TouchAction::DoubleTap => {
                let offset = self.touch_offset(hit);
                proof {
                    lemma_floor_boundary(self.text@, offset as int);
                }
                let bounds = self.select_word_at(offset);
                TouchRelease::WordSelected(bounds.0, bounds.1)
            },
            TouchAction::TripleTap => {
                let offset = self.touch_offset(hit);
                proof {
                    lemma_floor_boundary(self.text@, offset as int);
                }
                let bounds = self.select_line_at(offset);
                TouchRelease::LineSelected(bounds.0, bounds.1)
            },
            _ => TouchRelease::Ignored,
        }
    }
}

impl TextBoxView {
    /// Whether there is anything to lay out: text, or composition text.
    pub open spec fn has_content(self) -> bool {
        self.text.len() > 0 || self.preedit.len() > 0
    }

    /// What is to be scrolled into view at the next drawing.
    pub open spec fn scroll_request(self) -> ScrollRequest {
        if !self.has_content() {
            ScrollRequest::Reset
        } else if !self.focus_cursor {
            ScrollRequest::Clamp
        } else {
            match self.selection {
                Some(selection) => ScrollRequest::RevealSelection(selection.start, selection.end),
                None => ScrollRequest::RevealCursor(self.cursor),
            }
        }
    }

    /// The carets to draw: none without focus, the two selection handles
    /// while text is selected, the cursor otherwise.
    pub open spec fn caret_request(self) -> CaretRequest {
        if !(self.keyboard_focused || self.ime_focused) {
            CaretRequest::Hidden
        } else {
            match self.selection {
                Some(selection) => CaretRequest::Selection(selection.start, selection.end),
                None => CaretRequest::Cursor(self.cursor),
            }
        }
    }

    /// The pieces that the paragraph is built from, each with its style and
    /// its bytes: the text before the selection, the selected text and the
    /// text behind it if anything is selected, and the composition text if
    /// there is any.
    pub open spec fn runs(self) -> Seq<(RunStyle, Seq<u8>)> {
        let len = self.text.len() as int;
        let start = match self.selection {
            Some(selection) => selection.start as int,
            None => len,
        };
        let end = match self.selection {
            Some(selection) => selection.end as int,
            None => len,
        };
        let before = if start > 0 {
            seq![(RunStyle::Plain, self.text.subrange(0, start))]
        } else {
            seq![]
        };
        let inside = if start < len {
            seq![
                (RunStyle::Selected, self.text.subrange(start, end)),
                (RunStyle::Plain, self.text.subrange(end, len)),
            ]
        } else {
            seq![]
        };
        let composed = if self.preedit.len() > 0 {
            seq![(RunStyle::Preedit, encode_utf8(self.preedit))]
        } else {
            seq![]
        };
        before + inside + composed
    }

    /// Where the metrics for a caret at `offset` come from.
    pub open spec fn caret_anchor(self, has_layout: bool, offset: usize) -> CaretAnchor {
        if !has_layout {
            CaretAnchor::FontMetrics
        } else if offset == 0 || self.text.len() == 0 {
            CaretAnchor::FirstLine
        } else if offset <= self.text.len() && self.text[offset - 1] == LINE_FEED {
            CaretAnchor::AfterNewline((offset - 1) as usize)
        } else {
            CaretAnchor::AfterCluster((offset - 1) as usize)
        }
    }
}

impl TextBox {
    /// Get surrounding text for IME.
    ///
    /// This will return at most `MAX_SURROUNDING_BYTES` bytes plus the
    /// current cursor positions relative to the surrounding text's origin:
    /// the two ends of the selection, or the cursor twice.
    pub fn surrounding_text(&self) -> (surrounding: (String, i32, i32))
        requires
            self.wf(),
        ensures
            surrounding.0@ == decode_utf8(
                self@.text.subrange(
                    window_start(self@.text, self@.cursor as int),
                    window_end(self@.text, self@.cursor as int),
                ),
            ),
            surrounding.1 == clamp_i32(
                self@.edit_start() - window_start(self@.text, self@.cursor as int),
            ),
            surrounding.2 == clamp_i32(
                self@.edit_end() - window_start(self@.text, self@.cursor as int),
            ),
    {
        let (start, end) = surrounding_window(&self.text, self.cursor_index);
        let (cursor_start, cursor_end): (usize, usize) = match &self.selection {
            Some(selection) => (selection.start, selection.end),
            None => (self.cursor_index, self.cursor_index),
        };
        proof {
            lemma_subrange_valid(self.text@, start as int, end as int);
        }
        let text = bytes_to_string(copy_range(&self.text, start, end));
        (text, relative_offset(cursor_start, start), relative_offset(cursor_end, start))
    }

    /// Persist current text content to disk.
    ///
    /// This is automatically debounced to avoid excessive write operations:
    /// the call records a mutation at time `now` and returns whether to
    /// write at once or after which delay.
    pub fn persist_text(&mut self, now: u64) -> (action: PersistAction)
        ensures
            final(self)@ == (TextBoxView {
                pending_since: pending_after(old(self)@.pending_since, now),
                ..old(self)@
            }),
            action == persist_decision(old(self)@.pending_since, now),
    {
        self.persist.mutated(now)
    }

    /// The bytes to store in a write: the text followed by one line feed.
    /// What is pending stays so until `write_finished` tells how the write
    /// has ended.
    pub fn begin_write(&self) -> (content: Vec<u8>)
        ensures
            content@ == stored_form(self@.text),
            loaded_form(content@) == self@.text,
            self.wf() ==> valid_utf8(content@),
    {
        proof {
            crate::persist::lemma_store_load_round_trip(self@.text);
        }
        add_trailing_newline(&self.text)
    }

    /// Records how a write has ended. After a write that succeeded nothing
    /// is pending. A write that failed leaves the text and what is pending
    /// as they are, so that the next mutation or timer tries again.
    pub fn write_finished(&mut self, succeeded: bool)
        ensures
            final(self)@ == (TextBoxView {
                pending_since: pending_after_write(old(self)@.pending_since, succeeded),
                ..old(self)@
            }),
    {
        self.persist.write_finished(succeeded);
    }

    /// Takes over the content of the storage file if it differs from the
    /// text. The content counts without one trailing line feed. Returns
    /// whether the text was replaced.
    pub fn reload(&mut self, content: &str) -> (changed: bool)
        requires
            old(self).wf(),
        ensures
            final(self).wf(),
            changed == (loaded_form(encode_utf8(content@)) != old(self)@.text),
            final(self)@ == if changed {
                TextBoxView {
                    text: loaded_form(encode_utf8(content@)),
                    cursor: loaded_form(encode_utf8(content@)).len() as usize,
                    selection: None,
                    focus_cursor: true,
                    text_input_dirty: true,
                    dirty: true,
                    ..old(self)@
                }
            } else {
                old(self)@
            },
    {
        let bytes = strip_trailing_newline(string_to_bytes(content));
        if bytes_equal(&self.text, &bytes) {
            return false;
        }
        proof {
            is_char_boundary_start_end_of_seq(bytes@);
        }
        self.cursor_index = bytes.len();
        self.focus_cursor = true;
        self.text = bytes;
        self.selection = None;
        self.text_input_dirty = true;
        self.dirty = true;
        true
    }

    /// Starts a drawing: the text box is no longer due for one, and the
    /// request to scroll to the cursor is used up if there is anything to
    /// lay out. Returns what the drawing consists of.
    pub fn draw(&mut self) -> (plan: DrawPlan)
        requires
            old(self).wf(),
        ensures
            final(self).wf(),
            final(self)@ == (TextBoxView {
                dirty: false,
                focus_cursor: old(self)@.focus_cursor && !old(self)@.has_content(),
                ..old(self)@
            }),
            plan == (DrawPlan {
                has_content: old(self)@.has_content(),
                scroll: old(self)@.scroll_request(),
                carets: old(self)@.caret_request(),
            }),
    {
        self.dirty = false;
        let has_content: bool = self.text.len() > 0 || !self.preedit_text.as_str().is_empty();
        let scroll = if !has_content {
            ScrollRequest::Reset
        } else if !self.focus_cursor {
            ScrollRequest::Clamp
        } else {
            self.focus_cursor = false;
            match &self.selection {
                Some(selection) => ScrollRequest::RevealSelection(selection.start, selection.end),
                None => ScrollRequest::RevealCursor(self.cursor_index),
            }
        };
        let carets = if !(self.keyboard_focused || self.ime_focused) {
            CaretRequest::Hidden
        } else {
            match &self.selection {
                Some(selection) => CaretRequest::Selection(selection.start, selection.end),
                None => CaretRequest::Cursor(self.cursor_index),
            }
        };
        DrawPlan { has_content, scroll, carets }
    }

    /// The pieces of text to lay out, in order, each with its style.
    pub fn paragraph_runs(&self) -> (runs: Vec<TextRun>)
        requires
            self.wf(),
        ensures
            runs@.len() == self@.runs().len(),
            forall|i: int|
                0 <= i < runs@.len() ==> runs@[i].style == self@.runs()[i].0 && encode_utf8(
                    runs@[i].text@,
                ) == self@.runs()[i].1,
    {
        let len: usize = self.text.len();
        let (start, end): (usize, usize) = match &self.selection {
            Some(selection) => (selection.start, selection.end),
            None => (len, len),
        };
        proof {
            is_char_boundary_start_end_of_seq(self.text@);
            lemma_subrange_valid(self.text@, 0, start as int);
            lemma_subrange_valid(self.text@, start as int, end as int);
            lemma_subrange_valid(self.text@, end as int, len as int);
        }
        let mut runs: Vec<TextRun> = Vec::new();
        if start > 0 {
            runs.push(
                TextRun {
                    style: RunStyle::Plain,
                    text: bytes_to_string(copy_range(&self.text, 0, start)),
                },
            );
        }
        if start < len {
            runs.push(
                TextRun {
                    style: RunStyle::Selected,
                    text: bytes_to_string(copy_range(&self.text, start, end)),
                },
            );
            runs.push(
                TextRun {
                    style: RunStyle::Plain,
                    text: bytes_to_string(copy_range(&self.text, end, len)),
                },
            );
        }
        if !self.preedit_text.as_str().is_empty() {
            runs.push(TextRun { style: RunStyle::Preedit, text: self.preedit_text.clone() });
        }
        runs
    }

    /// The byte offsets at which list items begin, each of which gets a
    /// bullet point in front of its line.
    pub fn bullet_offsets(&self) -> (offsets: Vec<usize>)
        requires
            self.wf(),
        ensures
            offsets@ == item_offsets(self@.text),
    {
        list_items(&self.text)
    }

    /// Marks the text box as due for a redraw, as after a change of its
    /// font or colors.
    pub fn mark_dirty(&mut self)
        ensures
            final(self)@ == (TextBoxView { dirty: true, ..old(self)@ }),
    {
        self.dirty = true;
    }

    /// Tells where the metrics for a caret at `offset` come from.
    ///
    /// Without a laid-out paragraph the fallback font decides. At the start
    /// of the text, and while there is no text, it is the first line. Behind a line feed the caret
    /// belongs to the start of the following line, since the line feed is
    /// a glyph without width at the end of its line. Elsewhere the caret
    /// stands at the right edge of the cluster before it.
    pub fn caret_anchor(&self, has_layout: bool, offset: usize) -> (anchor: CaretAnchor)
        ensures
            anchor == self@.caret_anchor(has_layout, offset),
    {
        if !has_layout {
            CaretAnchor::FontMetrics
        } else if offset == 0 || self.text.len() == 0 {
            CaretAnchor::FirstLine
        } else if offset <= self.text.len() && self.text[offset - 1] == LINE_FEED {
            CaretAnchor::AfterNewline(offset - 1)
        } else {
            CaretAnchor::AfterCluster(offset - 1)
        }
    }
}

/// The end handle that is dragged before the start of the selection makes
/// the selection reach from there to the old start, and the drag goes on
/// with the start handle. Likewise the start handle that is dragged behind
/// the end.
pub proof fn lemma_handle_crossover(selection: Range<usize>, offset: usize)
    requires
        selection.start < selection.end,
    ensures
        offset < selection.start ==> dragged_selection(selection, false, offset) == (
            Range { start: offset, end: selection.start },
            true,
        ),
        offset > selection.end ==> dragged_selection(selection, true, offset) == (
            Range { start: selection.end, end: offset },
            false,
        ),
{
}

impl TextBoxView {
    /// The state after the deletion that an input method asked for.
    pub open spec fn ime_deleted(self, request: Option<(u32, u32)>, now: u64) -> TextBoxView {
        match request {
            Some((before, after)) => self.edited(
                self.surrounding_start(before),
                self.surrounding_end(after),
                Seq::<u8>::empty(),
                now,
            ),
            None => self,
        }
    }

    /// The state after the insertion that an input method asked for.
    pub open spec fn ime_committed(self, request: Option<String>, now: u64) -> TextBoxView {
        match request {
            Some(text) => self.typed(encode_utf8(text@), now),
            None => self,
        }
    }

    /// The composition text that an input method asked for, empty if it
    /// asked for none.
    pub open spec fn ime_preedit(request: Option<(String, i32, i32)>) -> Seq<char> {
        match request {
            Some(request) => request.0@,
            None => Seq::<char>::empty(),
        }
    }

    /// The state after one round of requests of an input method: the
    /// deletion, then the insertion, then the composition text.
    pub open spec fn ime_done(self, state: TextInputState, now: u64) -> TextBoxView {
        self.ime_deleted(state.delete_surrounding_text, now).ime_committed(
            state.commit_string,
            now,
        ).composing(Self::ime_preedit(state.preedit_string), now)
    }

    /// What one round of requests of an input method asks of storage, in
    /// order: one action for each change of the text.
    pub open spec fn ime_actions(self, state: TextInputState, now: u64) -> Seq<PersistAction> {
        let deleted = self.ime_deleted(state.delete_surrounding_text, now);
        let committed = deleted.ime_committed(state.commit_string, now);
        let first = if state.delete_surrounding_text is Some {
            seq![persist_decision(self.pending_since, now)]
        } else {
            seq![]
        };
        let second = if state.commit_string is Some {
            seq![persist_decision(deleted.pending_since, now)]
        } else {
            seq![]
        };
        let third = if committed.composing_edits(Self::ime_preedit(state.preedit_string)) {
            seq![persist_decision(committed.pending_since, now)]
        } else {
            seq![]
        };
        first + second + third
    }
}

impl TextBox {
    /// Carries out what an input method has asked for in one round, and
    /// forgets the requests: first the deletion around the cursor, then the
    /// insertion, then the composition text, each against the cursor as it
    /// stands by then. Returns what to do about storage, in order.
    pub fn text_input_done(&mut self, state: &mut TextInputState, now: u64) -> (actions: Vec<
        PersistAction,
    >)
        requires
            old(self).wf(),
        ensures
            final(self).wf(),
            final(self)@ == old(self)@.ime_done(*old(state), now),
            actions@ == old(self)@.ime_actions(*old(state), now),
            final(state).preedit_string is None,
            final(state).commit_string is None,
            final(state).delete_surrounding_text is None,
    {
        let mut actions: Vec<PersistAction> = Vec::new();
        let delete = state.delete_surrounding_text.take();
        let commit = state.commit_string.take();
        let preedit = state.preedit_string.take();
        match delete {
            Some((before_length, after_length)) => {
                actions.push(self.delete_surrounding_text(before_length, after_length, now));
            },
            None => {},
        }
        match commit {
            Some(text) => {
                actions.push(self.commit_string(text.as_str(), now));
            },
            None => {},
        }
        let (text, cursor_begin, cursor_end): (String, i32, i32) = match preedit {
            Some(request) => request,
            None => (String::new(), 0, 0),
        };
        match self.set_preedit_string(text, cursor_begin, cursor_end, now) {
            Some(action) => {
                actions.push(action);
            },
            None => {},
        }
        assert(actions@ =~= old(self)@.ime_actions(*old(state), now));
        actions
    }
}

} // verus!
