use pinax::layout::{CaretAnchor, CaretRequest, DrawPlan, RunStyle, ScrollRequest};
use pinax::persist::{add_trailing_newline, strip_trailing_newline, PersistAction};
use pinax::scan::{line_bounds, list_items, word_bounds};
use pinax::text_box::TextBox;
use pinax::utf8::{
    bytes_equal, bytes_to_string, ceil_char_boundary, char_at_boundary, char_distance,
    floor_char_boundary,
    is_boundary, next_char_boundary, prev_char_boundary, push_char, splice_bytes,
    string_to_bytes,
};

#[test]
fn stored_form_round_trip() {
    for text in ["", "notes", "two\nlines", "ends in newline\n", "€uro"] {
        let bytes = text.as_bytes().to_vec();
        let stored = add_trailing_newline(&bytes);
        assert_eq!(stored.last(), Some(&b'\n'));
        assert_eq!(stored.len(), bytes.len() + 1);
        assert_eq!(strip_trailing_newline(stored), bytes);
    }
    assert_eq!(strip_trailing_newline(b"a\n\n".to_vec()), b"a\n".to_vec());
    assert_eq!(strip_trailing_newline(b"a".to_vec()), b"a".to_vec());
    assert_eq!(strip_trailing_newline(Vec::new()), Vec::<u8>::new());
}

#[test]
fn write_and_reload_round_trip() {
    let mut text_box = TextBox::new(String::from("grüße"));
    text_box.paste("!", 0);
    assert_eq!(text_box.pending_since(), Some(0));
    let content = text_box.begin_write();
    assert_eq!(content, "grüße!\n".as_bytes().to_vec());
    assert_eq!(text_box.pending_since(), Some(0));
    text_box.write_finished(false);
    assert_eq!(text_box.pending_since(), Some(0));
    assert_eq!(text_box.text(), "grüße!");
    text_box.write_finished(true);
    assert_eq!(text_box.pending_since(), None);
    let stored = String::from_utf8(content).unwrap();
    assert!(!text_box.reload(&stored));
    let mut other = TextBox::new(String::new());
    assert!(other.reload(&stored));
    assert_eq!(other.text(), "grüße!");
    assert_eq!(other.cursor_index(), 8);
    assert!(other.focus_cursor());
}

#[test]
fn reload_replaces_text_and_clears_selection() {
    let mut text_box = TextBox::new(String::from("hello"));
    text_box.select(0, 2);
    text_box.draw();
    text_box.take_text_input_dirty();
    assert!(!text_box.reload("hello\n"));
    assert!(!text_box.reload("hello"));
    assert_eq!(text_box.selection(), Some(0..2));
    assert!(!text_box.dirty());
    assert!(text_box.reload("hello\n\n"));
    assert_eq!(text_box.text(), "hello\n");
    assert_eq!(text_box.cursor_index(), 6);
    assert_eq!(text_box.selection(), None);
    assert!(text_box.dirty());
    assert!(text_box.take_text_input_dirty());
    assert!(!text_box.take_text_input_dirty());
}

#[test]
fn mutations_are_debounced() {
    let mut text_box = TextBox::new(String::new());
    assert_eq!(text_box.paste("a", 1000), PersistAction::Schedule(1000));
    assert_eq!(text_box.paste("b", 1500), PersistAction::Schedule(1000));
    assert_eq!(text_box.paste("c", 5500), PersistAction::Schedule(500));
    assert_eq!(text_box.pending_since(), Some(1000));
    assert_eq!(text_box.paste("d", 6000), PersistAction::Flush);
    assert_eq!(text_box.pending_since(), Some(1000));
    text_box.write_finished(false);
    assert_eq!(text_box.paste("e", 6100), PersistAction::Flush);
    assert_eq!(text_box.begin_write(), b"abcde\n".to_vec());
    text_box.write_finished(true);
    assert_eq!(text_box.pending_since(), None);
    assert_eq!(text_box.persist_text(6101), PersistAction::Schedule(1000));
    assert_eq!(text_box.pending_since(), Some(6101));
    assert_eq!(text_box.persist_text(6000), PersistAction::Schedule(1000));
    text_box.write_finished(true);
    assert_eq!(text_box.persist_text(20_000), PersistAction::Schedule(1000));
}

#[test]
fn draw_plan() {
    let mut text_box = TextBox::new(String::new());
    assert!(text_box.dirty());
    let hidden =
        DrawPlan { has_content: false, scroll: ScrollRequest::Reset, carets: CaretRequest::Hidden };
    assert_eq!(text_box.draw(), hidden);
    assert!(!text_box.dirty());
    text_box.set_keyboard_focus(true);
    assert!(text_box.dirty());
    text_box.paste("hello", 0);
    assert_eq!(
        text_box.draw(),
        DrawPlan {
            has_content: true,
            scroll: ScrollRequest::RevealCursor(5),
            carets: CaretRequest::Cursor(5),
        }
    );
    assert_eq!(
        text_box.draw(),
        DrawPlan {
            has_content: true,
            scroll: ScrollRequest::Clamp,
            carets: CaretRequest::Cursor(5),
        }
    );
    text_box.select(1, 3);
    text_box.set_keyboard_focus(false);
    text_box.set_ime_focus(true);
    assert_eq!(
        text_box.draw(),
        DrawPlan {
            has_content: true,
            scroll: ScrollRequest::RevealSelection(1, 3),
            carets: CaretRequest::Selection(1, 3),
        }
    );
    text_box.set_ime_focus(false);
    assert_eq!(text_box.draw().carets, CaretRequest::Hidden);
}

#[test]
fn focus_request_waits_for_content() {
    let mut text_box = TextBox::new(String::new());
    text_box.set_size(pinax::geometry::Size::new(10, 10));
    assert!(text_box.focus_cursor());
    text_box.draw();
    assert!(text_box.focus_cursor());
    text_box.set_preedit_string(String::from("x"), 0, 0, 0);
    assert_eq!(text_box.draw().scroll, ScrollRequest::RevealCursor(0));
    assert!(!text_box.focus_cursor());
    text_box.set_size(pinax::geometry::Size::new(10, 10));
    assert!(!text_box.focus_cursor());
    assert!(!text_box.dirty());
    text_box.mark_dirty();
    assert!(text_box.dirty());
}

#[test]
fn paragraph_runs() {
    let mut text_box = TextBox::new(String::new());
    assert!(text_box.paragraph_runs().is_empty());
    text_box.set_text(String::from("hello wörld"));
    let runs = text_box.paragraph_runs();
    assert_eq!(runs.len(), 1);
    assert_eq!((runs[0].style, runs[0].text.as_str()), (RunStyle::Plain, "hello wörld"));
    text_box.select(6, 9);
    text_box.set_preedit_string(String::new(), 0, 0, 0);
    let runs = text_box.paragraph_runs();
    let pieces: Vec<(RunStyle, &str)> =
        runs.iter().map(|run| (run.style, run.text.as_str())).collect();
    assert_eq!(
        pieces,
        vec![(RunStyle::Plain, "hello "), (RunStyle::Selected, "wö"), (RunStyle::Plain, "rld")]
    );
    text_box.select(0, 12);
    let runs = text_box.paragraph_runs();
    let pieces: Vec<(RunStyle, &str)> =
        runs.iter().map(|run| (run.style, run.text.as_str())).collect();
    assert_eq!(pieces, vec![(RunStyle::Selected, "hello wörld"), (RunStyle::Plain, "")]);
    text_box.clear_selection();
    text_box.set_preedit_string(String::from("か"), 0, 0, 0);
    let runs = text_box.paragraph_runs();
    let pieces: Vec<(RunStyle, &str)> =
        runs.iter().map(|run| (run.style, run.text.as_str())).collect();
    assert_eq!(pieces, vec![(RunStyle::Plain, "hello wörld"), (RunStyle::Preedit, "か")]);
}

#[test]
fn caret_anchor() {
    let text_box = TextBox::new(String::from("ab\ncd"));
    assert_eq!(text_box.caret_anchor(false, 3), CaretAnchor::FontMetrics);
    assert_eq!(text_box.caret_anchor(true, 0), CaretAnchor::FirstLine);
    assert_eq!(text_box.caret_anchor(true, 2), CaretAnchor::AfterCluster(1));
    assert_eq!(text_box.caret_anchor(true, 3), CaretAnchor::AfterNewline(2));
    assert_eq!(text_box.caret_anchor(true, 5), CaretAnchor::AfterCluster(4));
    assert_eq!(text_box.caret_anchor(true, 9), CaretAnchor::AfterCluster(8));
    let empty = TextBox::new(String::new());
    assert_eq!(empty.caret_anchor(true, 2), CaretAnchor::FirstLine);
    assert_eq!(empty.caret_anchor(false, 0), CaretAnchor::FontMetrics);
}

#[test]
fn bullet_offsets() {
    let text = "first\nsecond\n\nthird\n \n  fourth\n\n\n€\n";
    let text_box = TextBox::new(String::from(text));
    assert_eq!(text_box.bullet_offsets(), vec![0, 14, 24, 33]);
    assert_eq!(TextBox::new(String::new()).bullet_offsets(), Vec::<usize>::new());
    assert_eq!(TextBox::new(String::from("\n\n")).bullet_offsets(), Vec::<usize>::new());
    assert_eq!(TextBox::new(String::from(" \u{a0}x")).bullet_offsets(), vec![3]);
    assert_eq!(TextBox::new(String::from("a\n\u{3000}\n\u{2028}b")).bullet_offsets(), vec![0, 9]);
    assert_eq!(TextBox::new(String::from("a\n\u{200b}\nb")).bullet_offsets(), vec![0]);
    assert_eq!(list_items(&b"a\n\nb".to_vec()), vec![0, 3]);
}

#[test]
fn boundary_navigation() {
    let bytes = "a€𝄞é".as_bytes().to_vec();
    let boundaries = [0usize, 1, 4, 8, 10];
    for index in 0..12 {
        assert_eq!(is_boundary(&bytes, index), boundaries.contains(&index));
    }
    assert_eq!(floor_char_boundary(&bytes, 3), 1);
    assert_eq!(floor_char_boundary(&bytes, 7), 4);
    assert_eq!(floor_char_boundary(&bytes, 8), 8);
    assert_eq!(floor_char_boundary(&bytes, 99), 10);
    assert_eq!(ceil_char_boundary(&bytes, 2), 4);
    assert_eq!(ceil_char_boundary(&bytes, 5), 8);
    assert_eq!(ceil_char_boundary(&bytes, 9), 10);
    assert_eq!(ceil_char_boundary(&bytes, 99), 10);
    assert_eq!(next_char_boundary(&bytes, 0), 1);
    assert_eq!(next_char_boundary(&bytes, 1), 4);
    assert_eq!(next_char_boundary(&bytes, 4), 8);
    assert_eq!(next_char_boundary(&bytes, 8), 10);
    assert_eq!(prev_char_boundary(&bytes, 10), 8);
    assert_eq!(prev_char_boundary(&bytes, 8), 4);
    assert_eq!(prev_char_boundary(&bytes, 1), 0);
    assert_eq!(char_at_boundary(&bytes, 0), 'a');
    assert_eq!(char_at_boundary(&bytes, 1), '€');
    assert_eq!(char_at_boundary(&bytes, 4), '𝄞');
    assert_eq!(char_at_boundary(&bytes, 8), 'é');
}

#[test]
fn encoding_and_conversion() {
    let mut bytes = Vec::new();
    let chars = [
        'a', 'é', '€', '𝄞', '\u{7f}', '\u{80}', '\u{7ff}', '\u{800}', '\u{ffff}', '\u{10000}',
        '\u{10ffff}',
    ];
    for c in chars {
        let before = bytes.len();
        push_char(&mut bytes, c);
        let mut expected = [0u8; 4];
        assert_eq!(&bytes[before..], c.encode_utf8(&mut expected).as_bytes());
        assert_eq!(char_at_boundary(&bytes, before), c);
    }
    let text = bytes_to_string(bytes.clone());
    assert_eq!(text.as_bytes(), &bytes[..]);
    assert_eq!(string_to_bytes(&text), bytes);
    assert!(bytes_equal(&bytes, &bytes.clone()));
    assert!(!bytes_equal(&bytes, &b"a".to_vec()));
    assert!(!bytes_equal(&b"b".to_vec(), &b"a".to_vec()));
    let text = "a€b".as_bytes().to_vec();
    assert_eq!(char_distance(&text, 1, 1), 0);
    assert_eq!(char_distance(&text, 1, 4), 1);
    assert_eq!(char_distance(&text, 4, 1), 1);
    assert_eq!(char_distance(&text, 0, 4), 2);
    assert_eq!(char_distance(&text, 5, 0), 2);
    assert_eq!(char_distance(&text, 4, 5), 1);
    assert_eq!(splice_bytes(&b"abcdef".to_vec(), 2, 5, &b"XY".to_vec()), b"abXYf".to_vec());
}

#[test]
fn word_and_line_bounds() {
    let bytes = "one, two\nthree".as_bytes().to_vec();
    assert_eq!(word_bounds(&bytes, 1), (0, 3));
    assert_eq!(word_bounds(&bytes, 0), (0, 3));
    assert_eq!(word_bounds(&bytes, 3), (0, 3));
    assert_eq!(word_bounds(&bytes, 6), (5, 8));
    assert_eq!(word_bounds(&bytes, 5), (5, 8));
    assert_eq!(word_bounds(&bytes, 4), (4, 4));
    assert_eq!(word_bounds(&bytes, 8), (5, 8));
    assert_eq!(word_bounds(&bytes, 9), (9, 14));
    assert_eq!(word_bounds(&bytes, 14), (9, 14));
    assert_eq!(word_bounds(&Vec::new(), 0), (0, 0));
    assert_eq!(line_bounds(&bytes, 6), (0, 8));
    assert_eq!(line_bounds(&bytes, 8), (0, 8));
    assert_eq!(line_bounds(&bytes, 9), (9, 14));
    assert_eq!(line_bounds(&Vec::new(), 0), (0, 0));
}

#[test]
fn white_space_is_the_unicode_property() {
    let listed = |c: char| {
        let u = c as u32;
        (0x09..=0x0d).contains(&u)
            || u == 0x20
            || u == 0x85
            || u == 0xa0
            || u == 0x1680
            || (0x2000..=0x200a).contains(&u)
            || u == 0x2028
            || u == 0x2029
            || u == 0x202f
            || u == 0x205f
            || u == 0x3000
    };
    for u in 0..=0x10ffffu32 {
        if let Some(c) = char::from_u32(u) {
            assert_eq!(c.is_whitespace(), listed(c), "U+{:04X}", u);
        }
    }
    for c in ['\t', ' ', '\u{85}', '\u{1680}', '\u{2003}', '\u{202f}', '\u{205f}', '\u{3000}'] {
        let text = format!("a\n\n{}b", c);
        assert_eq!(list_items(&text.into_bytes()), vec![0, 3 + c.len_utf8()]);
    }
    for c in ['\u{200b}', '\u{feff}', '_', '\u{180e}'] {
        let text = format!("a\n\n{}b", c);
        assert_eq!(list_items(&text.into_bytes()), vec![0, 3]);
    }
}
