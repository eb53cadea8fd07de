//! Sequences of edits, and what holds after any of them.

use crate::text_box::{lemma_edited_wf, TextBoxView};
use crate::utf8::{
    lemma_floor_boundary, lemma_floor_boundary_monotone, lemma_prev_boundary, lemma_scalar_at,
};
use vstd::prelude::*;
use vstd::utf8::*;

verus! {

/// One step of editing.
pub enum EditOp {
    /// Type a character.
    InsertChar(char),
    /// Paste or commit a string.
    InsertStr(Seq<char>),
    /// Delete backward.
    DeleteBackward,
    /// Delete forward.
    DeleteForward,
    /// Delete this many bytes before and behind the cursor.
    DeleteSurrounding(u32, u32),
    /// Step to the left.
    MoveLeft,
    /// Step to the right.
    MoveRight,
    /// Select between two offsets.
    Select(usize, usize),
}

/// The state after one step of editing at time `now`.
pub open spec fn apply_edit(v: TextBoxView, op: EditOp, now: u64) -> TextBoxView {
    match op {
        EditOp::InsertChar(c) => v.typed(encode_utf8(seq![c]), now),
        EditOp::InsertStr(text) => v.typed(encode_utf8(text), now),
        EditOp::DeleteBackward => v.removed(v.backward_range(), now),
        EditOp::DeleteForward => v.removed(v.forward_range(), now),
        EditOp::DeleteSurrounding(before, after) => v.edited(
            v.surrounding_start(before),
            v.surrounding_end(after),
            Seq::<u8>::empty(),
            now,
        ),
        EditOp::MoveLeft => v.moved(v.left_target()),
        EditOp::MoveRight => v.moved(v.right_target()),
        EditOp::Select(start, end) => v.selected(start, end),
    }
}

/// The text that a step inserts.
pub open spec fn inserted(op: EditOp) -> Seq<u8> {
    match op {
        EditOp::InsertChar(c) => encode_utf8(seq![c]),
        EditOp::InsertStr(text) => encode_utf8(text),
        _ => Seq::<u8>::empty(),
    }
}

/// The state after the first `n` of the steps `ops`, all at time `now`.
pub open spec fn apply_edits(v: TextBoxView, ops: Seq<EditOp>, n: int, now: u64) -> TextBoxView
    decreases n,
{
    if n <= 0 {
        v
    } else {
        apply_edit(apply_edits(v, ops, n - 1, now), ops[n - 1], now)
    }
}

/// The text stays within what the memory can address throughout the first
/// `n` steps.
pub open spec fn edits_fit(v: TextBoxView, ops: Seq<EditOp>, n: int, now: u64) -> bool
    decreases n,
{
    n <= 0 || (edits_fit(v, ops, n - 1, now) && apply_edits(v, ops, n - 1, now).text.len()
        + inserted(ops[n - 1]).len() <= usize::MAX)
}

/// One step of editing leaves a well-formed document well formed.
pub proof fn lemma_edit_keeps_wf(v: TextBoxView, op: EditOp, now: u64)
    requires
        v.wf(),
        v.text.len() + inserted(op).len() <= usize::MAX,
    ensures
        apply_edit(v, op, now).wf(),
{
    let nothing = Seq::<u8>::empty();
    is_char_boundary_start_end_of_seq(v.text);
    match op {
        EditOp::InsertChar(c) => {
            encode_utf8_valid_utf8(seq![c]);
            lemma_edited_wf(v, v.edit_start(), v.edit_end(), encode_utf8(seq![c]), now);
        },
        EditOp::InsertStr(text) => {
            encode_utf8_valid_utf8(text);
            lemma_edited_wf(v, v.edit_start(), v.edit_end(), encode_utf8(text), now);
        },
        EditOp::DeleteBackward => {
            if v.selection is None && v.cursor > 0 {
                lemma_prev_boundary(v.text, v.cursor as int);
            }
            match v.backward_range() {
                Some((a, b)) => {
                    lemma_edited_wf(v, a, b, nothing, now);
                },
                None => {},
            }
        },
        EditOp::DeleteForward => {
            if v.selection is None && v.cursor < v.text.len() {
                lemma_scalar_at(v.text, v.cursor as int);
            }
            match v.forward_range() {
                Some((a, b)) => {
                    lemma_edited_wf(v, a, b, nothing, now);
                },
                None => {},
            }
        },
        EditOp::DeleteSurrounding(before, after) => {
            let a = v.surrounding_start(before);
            let b = v.surrounding_end(after);
            lemma_floor_boundary(v.text, v.cursor - before);
            lemma_floor_boundary(v.text, v.cursor + after);
            lemma_floor_boundary_monotone(v.text, v.cursor - before, v.cursor + after);
            lemma_edited_wf(v, a, b, nothing, now);
        },
        EditOp::MoveLeft => {
            if v.selection is None && v.cursor > 0 {
                lemma_prev_boundary(v.text, v.cursor as int);
            }
        },
        EditOp::MoveRight => {
            if v.selection is None && v.cursor < v.text.len() {
                lemma_scalar_at(v.text, v.cursor as int);
            }
        },
        EditOp::Select(start, end) => {
            lemma_floor_boundary(v.text, start as int);
            lemma_floor_boundary(v.text, end as int);
        },
    }
}

/// Whatever sequence of insertions, deletions, cursor steps and selections
/// is applied to a well-formed document, and whatever lengths a deletion
/// around the cursor is given: afterwards the text is valid UTF-8, the
/// cursor lies on a character boundary within the text, and the two ends of
/// a selection lie on character boundaries with
/// `start < end <= text.len()`.
pub proof fn lemma_edits_keep_boundaries(v: TextBoxView, ops: Seq<EditOp>, n: int, now: u64)
    requires
        v.wf(),
        0 <= n <= ops.len(),
        edits_fit(v, ops, n, now),
    ensures
        ({
            let after = apply_edits(v, ops, n, now);
            &&& after.wf()
            &&& valid_utf8(after.text)
            &&& 0 <= after.cursor <= after.text.len()
            &&& is_char_boundary(after.text, after.cursor as int)
            &&& after.selection matches Some(selection) ==> {
                &&& 0 <= selection.start < selection.end <= after.text.len()
                &&& is_char_boundary(after.text, selection.start as int)
                &&& is_char_boundary(after.text, selection.end as int)
            }
        }),
    decreases n,
{
    if n > 0 {
        lemma_edits_keep_boundaries(v, ops, n - 1, now);
        lemma_edit_keeps_wf(apply_edits(v, ops, n - 1, now), ops[n - 1], now);
    }
}

} // verus!
