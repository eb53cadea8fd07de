use pinax::config::MillisDuration;
use pinax::keys::{
    Modifiers, KEY_BACKSPACE, KEY_C, KEY_DELETE, KEY_LEFT, KEY_RETURN, KEY_RIGHT, KEY_V,
    KEY_XF86_COPY, KEY_XF86_PASTE,
};
use pinax::layout::GlyphHit;
use pinax::persist::PersistAction;
use pinax::text_box::{ClipboardRequest, TextBox, TouchMotion, TouchRelease};
use pinax::touch::{MotionOrigin, TouchAction};

fn plain() -> Modifiers {
    Modifiers { ctrl: false, alt: false, shift: false, logo: false }
}

fn hit(offset: usize) -> Option<GlyphHit> {
    Some(GlyphHit { start: offset, end: offset + 1, leading_half: true })
}

fn tap_interval() -> MillisDuration {
    MillisDuration::from_millis(300)
}

#[test]
fn basic_edit_scenario() {
    let mut text_box = TextBox::new(String::new());
    text_box.paste("Hello", 0);
    assert_eq!(text_box.text(), "Hello");
    assert_eq!(text_box.cursor_index(), 5);
    let outcome = text_box.press_key(KEY_BACKSPACE, plain(), 10);
    assert_eq!(text_box.text(), "Hell");
    assert_eq!(text_box.cursor_index(), 4);
    assert_eq!(outcome.persist, Some(PersistAction::Schedule(1000)));
}

#[test]
fn surrounding_delete_scenario() {
    let mut text_box = TextBox::new(String::from("abcdef"));
    text_box.press_key(KEY_LEFT, plain(), 0);
    text_box.press_key(KEY_LEFT, plain(), 0);
    text_box.press_key(KEY_LEFT, plain(), 0);
    assert_eq!(text_box.cursor_index(), 3);
    text_box.delete_surrounding_text(1, 2, 0);
    assert_eq!(text_box.text(), "abf");
    assert_eq!(text_box.cursor_index(), 2);
}

#[test]
fn surrounding_delete_is_clamped_and_snapped() {
    let mut text_box = TextBox::new(String::from("aé€b"));
    // Cursor behind "é" (bytes: a=1, é=2, €=3, b=1).
    text_box.press_key(KEY_LEFT, plain(), 0);
    text_box.press_key(KEY_LEFT, plain(), 0);
    assert_eq!(text_box.cursor_index(), 3);
    // One byte before the cursor lies inside "é", two bytes behind inside "€".
    text_box.delete_surrounding_text(1, 2, 0);
    assert_eq!(text_box.text(), "a€b");
    assert_eq!(text_box.cursor_index(), 1);
    text_box.delete_surrounding_text(u32::MAX, u32::MAX, 0);
    assert_eq!(text_box.text(), "");
    assert_eq!(text_box.cursor_index(), 0);
}

#[test]
fn ime_window_scenario() {
    let text: String = "x".repeat(10000);
    let mut text_box = TextBox::new(text);
    text_box.touch_down(tap_interval(), 100_000, false, hit(5000));
    text_box.touch_up(hit(5000));
    assert_eq!(text_box.cursor_index(), 5000);
    let (surrounding, cursor_start, cursor_end) = text_box.surrounding_text();
    assert_eq!(surrounding.len(), 4000);
    assert_eq!(cursor_start, 2000);
    assert_eq!(cursor_end, 2000);
}

#[test]
fn ime_window_near_the_ends() {
    let text: String = "x".repeat(10000);
    let mut text_box = TextBox::new(text);
    let (surrounding, cursor_start, cursor_end) = text_box.surrounding_text();
    assert_eq!(surrounding.len(), 4000);
    assert_eq!((cursor_start, cursor_end), (4000, 4000));
    text_box.touch_down(tap_interval(), 100_000, false, hit(100));
    text_box.touch_up(hit(100));
    let (surrounding, cursor_start, _) = text_box.surrounding_text();
    assert_eq!(surrounding.len(), 2100);
    assert_eq!(cursor_start, 100);
}

#[test]
fn ime_window_reports_selection() {
    let mut text_box = TextBox::new(String::from("hello world"));
    text_box.select(6, 11);
    let (surrounding, start, end) = text_box.surrounding_text();
    assert_eq!(surrounding, "hello world");
    assert_eq!((start, end), (6, 11));
}

#[test]
fn ime_window_keeps_to_character_boundaries() {
    let text: String = "€".repeat(2000);
    let mut text_box = TextBox::new(text);
    text_box.touch_down(tap_interval(), 100_000, false, hit(3000));
    text_box.touch_up(hit(3000));
    assert_eq!(text_box.cursor_index(), 3000);
    let (surrounding, cursor_start, _) = text_box.surrounding_text();
    // End: 3000 + 2000 = 5000 steps back to 4998; start: 3000 - 2002 = 998 steps on to 999.
    assert_eq!(surrounding.len(), 4998 - 999);
    assert_eq!(cursor_start, 3000 - 999);
}

#[test]
fn tap_cycle() {
    let mut text_box = TextBox::new(String::from("one two\nthree four"));
    text_box.touch_down(tap_interval(), 10_000, false, hit(5));
    assert_eq!(text_box.touch_action(), TouchAction::Tap);
    assert_eq!(text_box.touch_up(hit(5)), TouchRelease::CursorPlaced(5));
    assert_eq!(text_box.cursor_index(), 5);
    assert_eq!(text_box.selection(), None);

    text_box.touch_down(tap_interval(), 10_100, true, hit(5));
    assert_eq!(text_box.touch_action(), TouchAction::DoubleTap);
    assert_eq!(text_box.touch_up(hit(5)), TouchRelease::WordSelected(4, 7));
    assert_eq!(text_box.selection(), Some(4..7));

    text_box.touch_down(tap_interval(), 10_200, true, hit(5));
    assert_eq!(text_box.touch_action(), TouchAction::TripleTap);
    assert_eq!(text_box.touch_up(hit(5)), TouchRelease::LineSelected(0, 7));
    assert_eq!(text_box.selection(), Some(0..7));

    text_box.touch_down(tap_interval(), 10_300, true, hit(5));
    assert_eq!(text_box.touch_action(), TouchAction::Tap);
    assert_eq!(text_box.touch_up(hit(5)), TouchRelease::CursorPlaced(5));
    assert_eq!(text_box.selection(), None);
}

#[test]
fn late_or_distant_tap_starts_over() {
    let mut text_box = TextBox::new(String::from("one two"));
    text_box.touch_down(tap_interval(), 10_000, false, hit(1));
    text_box.touch_up(hit(1));
    text_box.touch_down(tap_interval(), 10_301, true, hit(1));
    assert_eq!(text_box.touch_action(), TouchAction::Tap);
    text_box.touch_up(hit(1));
    text_box.touch_down(tap_interval(), 10_601, true, hit(1));
    assert_eq!(text_box.touch_action(), TouchAction::DoubleTap);
    text_box.touch_up(hit(1));
    text_box.touch_down(tap_interval(), 10_602, false, hit(1));
    assert_eq!(text_box.touch_action(), TouchAction::Tap);
}

#[test]
fn selection_handle_crossover() {
    let mut text_box = TextBox::new("x".repeat(30));
    text_box.select(10, 20);
    text_box.touch_down(tap_interval(), 50_000, false, hit(20));
    assert_eq!(text_box.touch_motion(false, hit(20)), TouchMotion::Pending);
    assert_eq!(text_box.touch_action(), TouchAction::Tap);
    assert_eq!(text_box.touch_motion(true, hit(5)), TouchMotion::SelectionDrag);
    assert_eq!(text_box.selection(), Some(5..10));
    assert_eq!(text_box.touch_action(), TouchAction::DragSelectionStart);
    assert_eq!(text_box.touch_motion(true, hit(3)), TouchMotion::SelectionDrag);
    assert_eq!(text_box.selection(), Some(3..10));
    assert_eq!(text_box.touch_up(hit(3)), TouchRelease::Ignored);
    assert_eq!(text_box.selection(), Some(3..10));
}

#[test]
fn handle_does_not_move_onto_the_other() {
    let mut text_box = TextBox::new("x".repeat(30));
    text_box.select(10, 20);
    text_box.touch_down(tap_interval(), 50_000, false, hit(11));
    assert_eq!(text_box.touch_motion(true, hit(20)), TouchMotion::SelectionDrag);
    assert_eq!(text_box.touch_action(), TouchAction::DragSelectionStart);
    assert_eq!(text_box.selection(), Some(10..20));
    assert_eq!(text_box.touch_motion(true, hit(25)), TouchMotion::SelectionDrag);
    assert_eq!(text_box.selection(), Some(20..25));
    assert_eq!(text_box.touch_action(), TouchAction::DragSelectionEnd);
}

#[test]
fn drag_away_from_handles_scrolls() {
    let mut text_box = TextBox::new("x".repeat(30));
    text_box.select(10, 20);
    text_box.touch_down(tap_interval(), 50_000, false, hit(15));
    assert_eq!(
        text_box.touch_motion(true, hit(16)),
        TouchMotion::Scroll(MotionOrigin::TouchDown)
    );
    assert_eq!(text_box.touch_action(), TouchAction::Drag);
    assert_eq!(
        text_box.touch_motion(false, hit(16)),
        TouchMotion::Scroll(MotionOrigin::LastMotion)
    );
    assert_eq!(text_box.selection(), Some(10..20));
    assert_eq!(text_box.touch_up(hit(16)), TouchRelease::Ignored);
}

#[test]
fn key_inserts_its_character() {
    let mut text_box = TextBox::new(String::from("ac"));
    text_box.press_key(KEY_LEFT, plain(), 0);
    let outcome = text_box.press_key(0x62, plain(), 0);
    assert_eq!(text_box.text(), "abc");
    assert_eq!(text_box.cursor_index(), 2);
    assert!(matches!(outcome.clipboard, ClipboardRequest::Untouched));
    assert_eq!(outcome.persist, Some(PersistAction::Schedule(1000)));
    // The keysym of "ä" is its Latin-1 code.
    text_box.press_key(0xe4, plain(), 0);
    assert_eq!(text_box.text(), "abäc");
    assert_eq!(text_box.cursor_index(), 4);
    // A key without a character changes nothing.
    let outcome = text_box.press_key(0xffe1, plain(), 0);
    assert_eq!(text_box.text(), "abäc");
    assert_eq!(outcome.persist, None);
}

#[test]
fn key_with_control_or_logo_is_not_typed() {
    let mut text_box = TextBox::new(String::new());
    let ctrl = Modifiers { ctrl: true, ..plain() };
    let logo = Modifiers { logo: true, ..plain() };
    let alt = Modifiers { alt: true, ..plain() };
    assert_eq!(text_box.press_key(0x61, ctrl, 0).persist, None);
    assert_eq!(text_box.press_key(0x61, logo, 0).persist, None);
    assert_eq!(text_box.press_key(0x61, alt, 0).persist, None);
    assert_eq!(text_box.text(), "");
    let shift = Modifiers { shift: true, ..plain() };
    text_box.press_key(0x41, shift, 0);
    assert_eq!(text_box.text(), "A");
}

#[test]
fn return_replaces_selection_by_line_feed() {
    let mut text_box = TextBox::new(String::from("ab cd"));
    text_box.select(2, 3);
    text_box.press_key(KEY_RETURN, plain(), 0);
    assert_eq!(text_box.text(), "ab\ncd");
    assert_eq!(text_box.cursor_index(), 3);
    assert_eq!(text_box.selection(), None);
}

#[test]
fn cursor_moves_by_characters() {
    let mut text_box = TextBox::new(String::from("a€é"));
    assert_eq!(text_box.cursor_index(), 6);
    text_box.press_key(KEY_RIGHT, plain(), 0);
    assert_eq!(text_box.cursor_index(), 6);
    text_box.press_key(KEY_LEFT, plain(), 0);
    assert_eq!(text_box.cursor_index(), 4);
    text_box.press_key(KEY_LEFT, plain(), 0);
    assert_eq!(text_box.cursor_index(), 1);
    text_box.press_key(KEY_LEFT, plain(), 0);
    assert_eq!(text_box.cursor_index(), 0);
    text_box.press_key(KEY_LEFT, plain(), 0);
    assert_eq!(text_box.cursor_index(), 0);
    text_box.press_key(KEY_RIGHT, plain(), 0);
    assert_eq!(text_box.cursor_index(), 1);
    text_box.press_key(KEY_RIGHT, plain(), 0);
    assert_eq!(text_box.cursor_index(), 4);
}

#[test]
fn cursor_keys_collapse_selection() {
    let mut text_box = TextBox::new(String::from("hello world"));
    text_box.select(2, 7);
    text_box.press_key(KEY_LEFT, plain(), 0);
    assert_eq!((text_box.cursor_index(), text_box.selection()), (2, None));
    text_box.select(2, 7);
    text_box.press_key(KEY_RIGHT, plain(), 0);
    assert_eq!((text_box.cursor_index(), text_box.selection()), (7, None));
}

#[test]
fn deletion_removes_whole_characters() {
    let mut text_box = TextBox::new(String::from("a€é"));
    text_box.press_key(KEY_BACKSPACE, plain(), 0);
    assert_eq!(text_box.text(), "a€");
    assert_eq!(text_box.cursor_index(), 4);
    text_box.press_key(KEY_LEFT, plain(), 0);
    text_box.press_key(KEY_DELETE, plain(), 0);
    assert_eq!(text_box.text(), "a");
    assert_eq!(text_box.cursor_index(), 1);
    assert_eq!(text_box.press_key(KEY_DELETE, plain(), 0).persist, None);
    text_box.press_key(KEY_BACKSPACE, plain(), 0);
    assert_eq!(text_box.text(), "");
    assert_eq!(text_box.press_key(KEY_BACKSPACE, plain(), 0).persist, None);
    assert_eq!(text_box.text(), "");
}

#[test]
fn deletion_removes_selection() {
    let mut text_box = TextBox::new(String::from("hello world"));
    text_box.select(5, 11);
    text_box.press_key(KEY_BACKSPACE, plain(), 0);
    assert_eq!(text_box.text(), "hello");
    assert_eq!(text_box.cursor_index(), 5);
    text_box.select(0, 1);
    text_box.press_key(KEY_DELETE, plain(), 0);
    assert_eq!(text_box.text(), "ello");
    assert_eq!(text_box.cursor_index(), 0);
}

#[test]
fn paste_replaces_selection() {
    let mut text_box = TextBox::new(String::from("hello world"));
    text_box.select(6, 11);
    text_box.paste("wörld!", 0);
    assert_eq!(text_box.text(), "hello wörld!");
    assert_eq!(text_box.cursor_index(), 13);
    assert_eq!(text_box.selection(), None);
    text_box.commit_string("", 0);
    assert_eq!(text_box.text(), "hello wörld!");
}

#[test]
fn copy_and_paste_keys() {
    let mut text_box = TextBox::new(String::from("hello wörld"));
    let chord = Modifiers { ctrl: true, shift: true, ..plain() };
    assert!(matches!(
        text_box.press_key(KEY_XF86_COPY, plain(), 0).clipboard,
        ClipboardRequest::Untouched
    ));
    text_box.select(6, 12);
    match text_box.press_key(KEY_C, chord, 0).clipboard {
        ClipboardRequest::Copy(text) => assert_eq!(text, "wörld"),
        other => panic!("unexpected request {:?}", other),
    }
    match text_box.press_key(KEY_XF86_COPY, plain(), 0).clipboard {
        ClipboardRequest::Copy(text) => assert_eq!(text, "wörld"),
        other => panic!("unexpected request {:?}", other),
    }
    assert!(matches!(text_box.press_key(KEY_V, chord, 0).clipboard, ClipboardRequest::Paste));
    assert!(matches!(
        text_box.press_key(KEY_XF86_PASTE, plain(), 0).clipboard,
        ClipboardRequest::Paste
    ));
    assert_eq!(text_box.text(), "hello wörld");
    assert_eq!(text_box.selection(), Some(6..12));
}

#[test]
fn select_normalizes_its_bounds() {
    let mut text_box = TextBox::new(String::from("a€b"));
    text_box.select(4, 1);
    assert_eq!(text_box.selection(), Some(1..4));
    text_box.select(2, 100);
    assert_eq!(text_box.selection(), Some(1..5));
    text_box.select(2, 3);
    assert_eq!(text_box.selection(), None);
    text_box.select(5, 5);
    assert_eq!(text_box.selection(), None);
    text_box.select(0, 5);
    assert_eq!(text_box.selection_text(), Some(String::from("a€b")));
    text_box.clear_selection();
    assert_eq!(text_box.selection_text(), None);
}

#[test]
fn word_selection_uses_unicode_classes() {
    let mut text_box = TextBox::new(String::from("übér 日本語, x"));
    assert_eq!(text_box.select_word_at(1), (0, 6));
    assert_eq!(text_box.selection_text(), Some(String::from("übér")));
    assert_eq!(text_box.select_word_at(10), (7, 16));
    assert_eq!(text_box.selection_text(), Some(String::from("日本語")));
    assert_eq!(text_box.select_word_at(7), (7, 16));
    assert_eq!(text_box.select_word_at(6), (0, 6));
}

#[test]
fn word_selection_ends_at_adjacent_delimiter() {
    let mut text_box = TextBox::new(String::from("ab cd"));
    assert_eq!(text_box.select_word_at(2), (0, 2));
    assert_eq!(text_box.select_word_at(3), (3, 5));
    assert_eq!(text_box.select_word_at(4), (3, 5));
    assert_eq!(text_box.select_word_at(1), (0, 2));
    assert_eq!(text_box.select_word_at(0), (0, 2));
    assert_eq!(text_box.select_word_at(5), (3, 5));
    assert_eq!(text_box.selection(), Some(3..5));
}

#[test]
fn word_selection_between_delimiters_selects_nothing() {
    let mut text_box = TextBox::new(String::from("a, b"));
    assert_eq!(text_box.select_word_at(2), (2, 2));
    assert_eq!(text_box.selection(), None);
}

#[test]
fn double_tap_behind_a_space_selects_the_following_word() {
    let mut text_box = TextBox::new(String::from("hello world"));
    text_box.touch_down(tap_interval(), 10_000, false, hit(6));
    text_box.touch_up(hit(6));
    text_box.touch_down(tap_interval(), 10_100, true, hit(6));
    assert_eq!(text_box.touch_up(hit(6)), TouchRelease::WordSelected(6, 11));
    assert_eq!(text_box.selection(), Some(6..11));
}

#[test]
fn handle_leeway_is_one_character() {
    let mut text_box = TextBox::new(String::from("ab€cd€ef"));
    // Selection "cd", with a three-byte character on either side.
    text_box.select(5, 7);
    text_box.touch_down(tap_interval(), 50_000, false, hit(2));
    assert_eq!(text_box.touch_motion(true, hit(1)), TouchMotion::SelectionDrag);
    assert_eq!(text_box.touch_action(), TouchAction::DragSelectionStart);
    assert_eq!(text_box.selection(), Some(1..7));
    text_box.select(5, 7);
    text_box.touch_down(tap_interval(), 60_000, false, hit(10));
    assert_eq!(text_box.touch_motion(true, hit(11)), TouchMotion::SelectionDrag);
    assert_eq!(text_box.touch_action(), TouchAction::DragSelectionEnd);
    assert_eq!(text_box.selection(), Some(5..11));
    text_box.select(5, 7);
    text_box.touch_down(tap_interval(), 70_000, false, hit(1));
    assert_eq!(
        text_box.touch_motion(true, hit(0)),
        TouchMotion::Scroll(MotionOrigin::TouchDown)
    );
}

#[test]
fn line_selection() {
    let mut text_box = TextBox::new(String::from("one\n\ntwo three\nfour"));
    assert_eq!(text_box.select_line_at(0), (0, 3));
    assert_eq!(text_box.select_line_at(3), (0, 3));
    assert_eq!(text_box.select_line_at(4), (4, 4));
    assert_eq!(text_box.selection(), None);
    assert_eq!(text_box.select_line_at(8), (5, 14));
    assert_eq!(text_box.selection_text(), Some(String::from("two three")));
    assert_eq!(text_box.select_line_at(100), (15, 19));
}

#[test]
fn preedit_replaces_selection() {
    let mut text_box = TextBox::new(String::from("hello world"));
    text_box.select(0, 6);
    assert_eq!(text_box.set_preedit_string(String::new(), 0, 0, 0), None);
    assert_eq!(text_box.selection(), Some(0..6));
    assert_eq!(
        text_box.set_preedit_string(String::from("ni"), 0, 2, 0),
        Some(PersistAction::Schedule(1000))
    );
    assert_eq!(text_box.text(), "world");
    assert_eq!(text_box.cursor_index(), 0);
    assert_eq!(text_box.preedit_text(), "ni");
    assert_eq!(text_box.set_preedit_string(String::new(), 0, 0, 0), None);
    assert_eq!(text_box.preedit_text(), "");
}

#[test]
fn touch_offset_is_clamped_and_snapped() {
    let text_box = TextBox::new(String::from("a€b"));
    assert_eq!(text_box.offset_at(None), None);
    let cluster = GlyphHit { start: 1, end: 4, leading_half: true };
    assert_eq!(text_box.offset_at(Some(cluster)), Some(1));
    let cluster = GlyphHit { start: 1, end: 4, leading_half: false };
    assert_eq!(text_box.offset_at(Some(cluster)), Some(4));
    let cluster = GlyphHit { start: 2, end: 3, leading_half: false };
    assert_eq!(text_box.offset_at(Some(cluster)), Some(1));
    let cluster = GlyphHit { start: 5, end: 9, leading_half: false };
    assert_eq!(text_box.offset_at(Some(cluster)), Some(5));
}

#[test]
fn edits_keep_cursor_and_selection_on_boundaries() {
    let mut text_box = TextBox::new(String::from("añ€𝄞"));
    let mut time = 0;
    for before in 0..6u32 {
        for after in 0..6u32 {
            text_box.set_text(String::from("añ€𝄞añ€𝄞"));
            text_box.select(after as usize, 20 - before as usize);
            text_box.press_key(KEY_LEFT, plain(), time);
            text_box.press_key(KEY_RIGHT, plain(), time);
            text_box.delete_surrounding_text(before, after, time);
            text_box.press_key(0xe4, plain(), time);
            text_box.select(before as usize, 3 * after as usize);
            text_box.press_key(KEY_BACKSPACE, plain(), time);
            text_box.press_key(KEY_DELETE, plain(), time);
            time += 1;
            let text = text_box.text();
            assert!(text.is_char_boundary(text_box.cursor_index()));
            assert!(text_box.cursor_index() <= text.len());
            assert_eq!(text_box.len(), text.len());
            if let Some(selection) = text_box.selection() {
                assert!(selection.start < selection.end && selection.end <= text.len());
                assert!(text.is_char_boundary(selection.start));
                assert!(text.is_char_boundary(selection.end));
            }
        }
    }
}
