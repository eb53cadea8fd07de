//! Debounced persistence policy and the on-disk form of the text.
//!
//! Every mutation of the text asks for a write. Writes are delayed so that a
//! burst of edits causes one write, yet never longer than `MAX_DEBOUNCE`
//! after the first edit that has not reached the disk.

use crate::utf8::{bytes_to_string, string_to_bytes};
use vstd::prelude::*;
use vstd::utf8::*;

verus! {

/// Quiet period in milliseconds after which pending edits are written.
pub const MIN_DEBOUNCE: u64 = 1000;

/// Longest time in milliseconds that an edit may stay unwritten.
pub const MAX_DEBOUNCE: u64 = 5000;

/// The byte that ends the stored file.
pub const NEWLINE: u8 = 0x0a;

/// What the host has to do after a mutation. Either way a write timer that was
/// scheduled earlier is cancelled first.
#[derive(PartialEq, Eq, Structural, Copy, Clone, Debug)]
pub enum PersistAction {
    /// Write the text now.
    Flush,
    /// Write the text after this many milliseconds.
    Schedule(u64),
}

/// Time in milliseconds since the first unwritten edit; zero when there is
/// none or when the clock reads earlier than that edit.
pub open spec fn elapsed_since(pending_since: Option<u64>, now: u64) -> int {
    match pending_since {
        Some(start) => if now >= start {
            now - start
        } else {
            0
        },
        None => 0,
    }
}

/// The action that a mutation at time `now` asks for.
pub open spec fn persist_decision(pending_since: Option<u64>, now: u64) -> PersistAction {
    let elapsed = elapsed_since(pending_since, now);
    if elapsed >= MAX_DEBOUNCE {
        PersistAction::Flush
    } else if MAX_DEBOUNCE - elapsed < MIN_DEBOUNCE {
        PersistAction::Schedule((MAX_DEBOUNCE - elapsed) as u64)
    } else {
        PersistAction::Schedule(MIN_DEBOUNCE)
    }
}

/// The time of the first unwritten edit after a mutation at time `now`: the
/// time that was pending, or `now` if nothing was. It stays pending until a
/// write has succeeded, also where the mutation asks to write at once.
pub open spec fn pending_after(pending_since: Option<u64>, now: u64) -> Option<u64> {
    match pending_since {
        Some(start) => Some(start),
        None => Some(now),
    }
}

/// What is pending after a write has ended: nothing if it has succeeded,
/// and what was pending before if it has failed, so that the next mutation
/// or timer tries again.
pub open spec fn pending_after_write(pending_since: Option<u64>, succeeded: bool) -> Option<u64> {
    if succeeded {
        None
    } else {
        pending_since
    }
}

/// Bookkeeping of edits that have not reached the disk.
#[derive(PartialEq, Eq, Structural, Copy, Clone, Debug)]
pub struct PersistenceState {
    /// Time in milliseconds of the first edit that is not written yet.
    pub pending_since: Option<u64>,
}

impl PersistenceState {
    /// State with nothing to write.
    pub fn new() -> (state: Self)
        ensures
            state.pending_since is None,
    {
        Self { pending_since: None }
    }

    /// Records a mutation at time `now` and decides when to write.
    ///
    /// A scheduled write never lies later than `MAX_DEBOUNCE` after the first
    /// unwritten edit, and is delayed by the full `MIN_DEBOUNCE` unless that
    /// ceiling cuts the delay short.
    pub fn mutated(&mut self, now: u64) -> (action: PersistAction)
        ensures
            action == persist_decision(old(self).pending_since, now),
            final(self).pending_since == pending_after(old(self).pending_since, now),
            action is Flush <==> elapsed_since(old(self).pending_since, now) >= MAX_DEBOUNCE,
            action matches PersistAction::Schedule(delay) ==> {
                &&& 0 < delay <= MIN_DEBOUNCE
                &&& elapsed_since(old(self).pending_since, now) + delay <= MAX_DEBOUNCE
                &&& delay < MIN_DEBOUNCE ==> elapsed_since(old(self).pending_since, now) + delay
                    == MAX_DEBOUNCE
            },
    {
        let start: u64 = match self.pending_since {
            Some(start) => start,
            None => now,
        };
        let elapsed: u64 = if now >= start {
            now - start
        } else {
            0
        };
        self.pending_since = Some(start);
        if elapsed >= MAX_DEBOUNCE {
            PersistAction::Flush
        } else {
            let remaining: u64 = MAX_DEBOUNCE - elapsed;
            if remaining < MIN_DEBOUNCE {
                PersistAction::Schedule(remaining)
            } else {
                PersistAction::Schedule(MIN_DEBOUNCE)
            }
        }
    }

    /// Records how a write has ended. After a write that succeeded nothing
    /// is pending. A write that failed changes nothing: the edits stay
    /// pending since the same time, and the next mutation or timer tries
    /// again.
    pub fn write_finished(&mut self, succeeded: bool)
        ensures
            final(self).pending_since == pending_after_write(old(self).pending_since, succeeded),
    {
        if succeeded {
            self.pending_since = None;
        }
    }
}

/// The first `n` mutations of a stream that starts with nothing pending, as
/// long as no write has succeeded: the pending time they leave behind.
pub open spec fn pending_after_stream(times: Seq<u64>, n: int) -> Option<u64>
    decreases n,
{
    if n <= 0 {
        None
    } else {
        pending_after(pending_after_stream(times, n - 1), times[n - 1])
    }
}

/// Debounce bound. Take mutations at non-decreasing times, the first at
/// `times[0]`, with nothing pending before. As long as no write has
/// succeeded, the edit that is pending is the first one, and the mutation
/// at `times[n - 1]` either asks to write at once or schedules the write no
/// later than `times[0] + MAX_DEBOUNCE`. It asks to write at once exactly
/// when `MAX_DEBOUNCE` has passed since `times[0]`, and it schedules sooner
/// than `MIN_DEBOUNCE` ahead only to keep that ceiling.
pub proof fn lemma_debounce_bound(times: Seq<u64>, n: int)
    requires
        0 < n <= times.len(),
        forall|i: int, j: int| 0 <= i <= j < times.len() ==> times[i] <= times[j],
    ensures
        forall|k: int| 0 < k <= n ==> pending_after_stream(times, k) == Some(times[0]),
        ({
            let before = pending_after_stream(times, n - 1);
            let now = times[n - 1];
            match persist_decision(before, now) {
                PersistAction::Flush => now - times[0] >= MAX_DEBOUNCE,
                PersistAction::Schedule(delay) => {
                    &&& now - times[0] < MAX_DEBOUNCE
                    &&& now + delay <= times[0] + MAX_DEBOUNCE
                    &&& delay == MIN_DEBOUNCE || now + delay == times[0] + MAX_DEBOUNCE
                },
            }
        }),
    decreases n,
{
    if n > 1 {
        lemma_debounce_bound(times, n - 1);
        assert(pending_after_stream(times, n - 1) == Some(times[0]));
    } else {
        assert(pending_after_stream(times, 0) is None);
    }
}

/// A write that fails loses nothing: the mutation that follows it decides
/// as if the write had not been tried, and once `MAX_DEBOUNCE` has passed
/// it asks to write at once again.
pub proof fn lemma_failed_write_retries(pending_since: Option<u64>, now: u64)
    ensures
        persist_decision(pending_after_write(pending_since, false), now) == persist_decision(
            pending_since,
            now,
        ),
        persist_decision(pending_since, now) is Flush ==> persist_decision(
            pending_after_write(pending_after(pending_since, now), false),
            now,
        ) is Flush,
{
}

/// Whether a change that the watch of the storage directory reports calls
/// for reading the storage file again: it does unless the event tells of
/// mere access, or names other files only.
pub fn reload_wanted(access_only: bool, names_storage_file: bool) -> (wanted: bool)
    ensures
        wanted == (!access_only && names_storage_file),
{
    !access_only && names_storage_file
}

/// The stored form of a text: its bytes followed by one newline.
pub open spec fn stored_form(text: Seq<u8>) -> Seq<u8> {
    text.push(NEWLINE)
}

/// The text that a stored file holds: its bytes without one trailing newline.
pub open spec fn loaded_form(content: Seq<u8>) -> Seq<u8> {
    if content.len() > 0 && content.last() == NEWLINE {
        content.drop_last()
    } else {
        content
    }
}

/// Appends the newline that ends the stored file.
pub fn add_trailing_newline(text: &Vec<u8>) -> (content: Vec<u8>)
    ensures
        content@ == stored_form(text@),
        valid_utf8(text@) ==> valid_utf8(content@),
{
    proof {
        if valid_utf8(text@) {
            lemma_stored_form_valid(text@);
        }
    }
    let mut content = text.clone();
    content.push(NEWLINE);
    content
}

/// Removes one trailing newline, as editors commonly add one.
pub fn strip_trailing_newline(content: Vec<u8>) -> (text: Vec<u8>)
    ensures
        text@ == loaded_form(content@),
        valid_utf8(content@) ==> valid_utf8(text@),
{
    let mut text = content;
    let len: usize = text.len();
    if len > 0 && text[len - 1] == NEWLINE {
        proof {
            if valid_utf8(text@) {
                lemma_strip_valid(text@);
            }
        }
        text.truncate(len - 1);
        assert(text@ =~= content@.drop_last());
    }
    text
}

/// The text that the content of a stored file stands for: the content
/// without one trailing newline.
pub fn loaded_text(content: &str) -> (text: String)
    ensures
        encode_utf8(text@) == loaded_form(encode_utf8(content@)),
{
    bytes_to_string(strip_trailing_newline(string_to_bytes(content)))
}

/// Valid UTF-8 that ends in a newline stays valid without it.
proof fn lemma_strip_valid(content: Seq<u8>)
    requires
        valid_utf8(content),
        content.len() > 0,
        content.last() == NEWLINE,
    ensures
        valid_utf8(content.drop_last()),
{
    let i = content.len() - 1;
    crate::utf8::lemma_boundary_bytes(content, i);
    valid_utf8_split(content, i);
    assert(content.subrange(0, i) =~= content.drop_last());
}

/// Round trip: a text that is stored and loaded again comes back unchanged.
pub proof fn lemma_store_load_round_trip(text: Seq<u8>)
    ensures
        loaded_form(stored_form(text)) == text,
{
    assert(text.push(NEWLINE).drop_last() =~= text);
}

/// The stored form of valid UTF-8 is valid UTF-8, one byte longer, and ends
/// in a newline.
pub proof fn lemma_stored_form_valid(text: Seq<u8>)
    requires
        valid_utf8(text),
    ensures
        valid_utf8(stored_form(text)),
        stored_form(text).len() == text.len() + 1,
        stored_form(text).last() == NEWLINE,
{
    let nl = seq![NEWLINE];
    assert(valid_utf8(nl)) by {
        reveal_with_fuel(valid_utf8, 2);
        assert(pop_first_scalar(nl) =~= Seq::<u8>::empty());
    }
    valid_utf8_concat(text, nl);
    assert(text + nl =~= text.push(NEWLINE));
}

} // verus!
