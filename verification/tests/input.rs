use pinax::config::MillisDuration;
use pinax::ime::{relative_offset, surrounding_window, TextInputState};
use pinax::keyboard::{
    ClipboardState, CurrentRepeat, KeyboardState, RepeatInfo, RepeatRequest, RepeatTiming,
};
use pinax::keys::{classify_key, command_for, KeyCommand, Modifiers, KEY_LEFT, KEY_RETURN};
use pinax::persist::PersistAction;
use pinax::text_box::TextBox;
use pinax::touch::{HandleDistance, MotionOrigin, TouchAction, TouchState};
use pinax::window::{ChangeCause, TextInput, TextInputUpdate, Window};

fn no_modifiers() -> Modifiers {
    Modifiers::default()
}

#[test]
fn key_constants_match_keysyms() {
    assert_eq!(pinax::keys::KEY_LEFT, xkeysym::key::Left);
    assert_eq!(pinax::keys::KEY_RIGHT, xkeysym::key::Right);
    assert_eq!(pinax::keys::KEY_BACKSPACE, xkeysym::key::BackSpace);
    assert_eq!(pinax::keys::KEY_DELETE, xkeysym::key::Delete);
    assert_eq!(pinax::keys::KEY_RETURN, xkeysym::key::Return);
    assert_eq!(pinax::keys::KEY_XF86_COPY, xkeysym::key::XF86_Copy);
    assert_eq!(pinax::keys::KEY_XF86_PASTE, xkeysym::key::XF86_Paste);
    assert_eq!(pinax::keys::KEY_C, xkeysym::key::C);
    assert_eq!(pinax::keys::KEY_V, xkeysym::key::V);
}

#[test]
fn key_classification() {
    assert_eq!(classify_key(KEY_LEFT, no_modifiers()), KeyCommand::MoveLeft);
    assert_eq!(classify_key(KEY_RETURN, no_modifiers()), KeyCommand::Insert('\n'));
    assert_eq!(classify_key(xkeysym::key::a, no_modifiers()), KeyCommand::Insert('a'));
    assert_eq!(classify_key(xkeysym::key::EuroSign, no_modifiers()), KeyCommand::Insert('€'));
    assert_eq!(classify_key(xkeysym::key::Shift_L, no_modifiers()), KeyCommand::Unbound);
    let shift = Modifiers { shift: true, ..no_modifiers() };
    assert_eq!(classify_key(KEY_LEFT, shift), KeyCommand::Unbound);
    assert_eq!(classify_key(KEY_RETURN, shift), KeyCommand::Insert('\r'));
    let ctrl = Modifiers { ctrl: true, ..no_modifiers() };
    assert_eq!(classify_key(xkeysym::key::a, ctrl), KeyCommand::Unbound);
    assert_eq!(classify_key(xkeysym::key::C, ctrl), KeyCommand::Unbound);
    let logo = Modifiers { logo: true, ..no_modifiers() };
    assert_eq!(classify_key(xkeysym::key::a, logo), KeyCommand::Ignore);
    assert_eq!(command_for(0, no_modifiers(), Some('x')), KeyCommand::Insert('x'));
    assert_eq!(command_for(0x61, no_modifiers(), Some('a')), KeyCommand::Insert('a'));
    assert_eq!(command_for(KEY_LEFT, no_modifiers(), None), KeyCommand::MoveLeft);
    assert_eq!(command_for(KEY_LEFT, no_modifiers(), Some('x')), KeyCommand::MoveLeft);
    assert_eq!(command_for(0, no_modifiers(), None), KeyCommand::Unbound);
}

#[test]
fn touch_state_down_and_motion() {
    let mut state = TouchState::new();
    let interval = MillisDuration::from_millis(300);
    state.down(interval, 1000, true, 7);
    assert_eq!(state, TouchState { action: TouchAction::Tap, last_time: 1000, start_offset: 7 });
    state.down(interval, 1300, true, 8);
    assert_eq!(state.action, TouchAction::DoubleTap);
    assert_eq!(state.motion(true, None), MotionOrigin::LastMotion);
    assert_eq!(state.action, TouchAction::DoubleTap);
    state.down(interval, 5000, true, 8);
    assert_eq!(state.action, TouchAction::Tap);
    assert_eq!(state.motion(false, None), MotionOrigin::TouchDown);
    assert_eq!(state.action, TouchAction::Tap);
    let distance = HandleDistance { start: 2, end: 1 };
    assert_eq!(state.motion(true, Some(distance)), MotionOrigin::TouchDown);
    assert_eq!(state.action, TouchAction::DragSelectionEnd);
}

#[test]
fn touch_state_picks_nearer_handle() {
    let interval = MillisDuration::from_millis(300);
    let cases = [
        ((1, 0), TouchAction::DragSelectionEnd),
        ((0, 1), TouchAction::DragSelectionStart),
        ((1, 1), TouchAction::DragSelectionEnd),
        ((1, 2), TouchAction::DragSelectionStart),
        ((2, 1), TouchAction::DragSelectionEnd),
        ((2, 2), TouchAction::Drag),
    ];
    for ((start, end), action) in cases {
        let mut state = TouchState::new();
        state.down(interval, 1000, false, 4);
        state.motion(true, Some(HandleDistance { start, end }));
        assert_eq!(state.action, action);
    }
    let mut state = TouchState::new();
    state.down(interval, 1000, false, 4);
    state.motion(true, None);
    assert_eq!(state.action, TouchAction::Drag);
}

#[test]
fn touch_state_time_near_wraparound() {
    let mut state = TouchState::new();
    let interval = MillisDuration::from_millis(u64::MAX);
    state.down(interval, u32::MAX, false, 0);
    state.down(interval, 5, true, 0);
    assert_eq!(state.action, TouchAction::DoubleTap);
    let interval = MillisDuration::from_millis(300);
    state.down(interval, u32::MAX, true, 0);
    assert_eq!(state.action, TouchAction::Tap);
}

#[test]
fn surrounding_window_and_offsets() {
    let bytes = vec![b'x'; 10000];
    assert_eq!(surrounding_window(&bytes, 5000), (3000, 7000));
    assert_eq!(surrounding_window(&bytes, 0), (0, 2000));
    assert_eq!(surrounding_window(&bytes, 9000), (6000, 10000));
    assert_eq!(relative_offset(5000, 3000), 2000);
    assert_eq!(relative_offset(10, 30), -20);
    assert_eq!(relative_offset(usize::MAX, 0), i32::MAX);
    assert_eq!(relative_offset(0, usize::MAX), i32::MIN);
}

#[test]
fn input_method_round() {
    let mut text_box = TextBox::new(String::from("abcdef"));
    let mut state = TextInputState::new();
    state.delete_surrounding(2, 0);
    state.commit(Some(String::from("XY")));
    state.preedit(Some(String::from("z")), 0, 1);
    let actions = text_box.text_input_done(&mut state, 100);
    assert_eq!(text_box.text(), "abcdXY");
    assert_eq!(text_box.cursor_index(), 6);
    assert_eq!(text_box.preedit_text(), "z");
    assert_eq!(actions, vec![PersistAction::Schedule(1000), PersistAction::Schedule(1000)]);
    assert!(state.preedit_string.is_none());
    assert!(state.commit_string.is_none());
    assert!(state.delete_surrounding_text.is_none());
    let actions = text_box.text_input_done(&mut state, 200);
    assert_eq!(text_box.preedit_text(), "");
    assert_eq!(text_box.text(), "abcdXY");
    assert!(actions.is_empty());
}

#[test]
fn input_method_round_without_text_means_empty_text() {
    let mut text_box = TextBox::new(String::from("abc"));
    text_box.select(0, 1);
    let mut state = TextInputState::new();
    state.commit(None);
    state.preedit(None, 0, 0);
    let actions = text_box.text_input_done(&mut state, 0);
    assert_eq!(text_box.text(), "bc");
    assert_eq!(actions, vec![PersistAction::Schedule(1000)]);
}

#[test]
fn key_repetition() {
    let mut keyboard = KeyboardState::new();
    assert_eq!(keyboard.press_key(10, 30, false), RepeatRequest::Cancel);
    keyboard.repeat_info = RepeatInfo::Repeat { rate: 25, delay: 600 };
    assert_eq!(
        keyboard.press_key(10, 30, false),
        RepeatRequest::Restart(RepeatTiming { delay: 600, interval: 40 })
    );
    assert_eq!(keyboard.current_repeat, Some(CurrentRepeat::new(30, 10, 600)));
    assert_eq!(keyboard.press_key(20, 50, true), RepeatRequest::Keep);
    assert_eq!(keyboard.release_key(31), RepeatRequest::Keep);
    assert_eq!(keyboard.release_key(30), RepeatRequest::Cancel);
    assert_eq!(keyboard.current_repeat, None);
    keyboard.repeat_info = RepeatInfo::Repeat { rate: 0, delay: 600 };
    assert_eq!(keyboard.press_key(10, 30, false), RepeatRequest::Cancel);
    keyboard.repeat_info = RepeatInfo::Repeat { rate: 3, delay: 1 };
    assert_eq!(
        keyboard.press_key(10, 30, false),
        RepeatRequest::Restart(RepeatTiming { delay: 1, interval: 333 })
    );
    keyboard.cancel_repeat();
    assert_eq!(keyboard.current_repeat, None);
}

#[test]
fn repeat_time_and_clipboard_serial() {
    let mut repeat = CurrentRepeat::new(1, 100, 40);
    assert_eq!(repeat.next_time(), 140);
    assert_eq!(repeat.next_time(), 180);
    let mut repeat = CurrentRepeat::new(1, u32::MAX, 2);
    assert_eq!(repeat.next_time(), 1);
    let mut clipboard = ClipboardState::new();
    assert_eq!(clipboard.next_serial(), 1);
    assert_eq!(clipboard.next_serial(), 2);
    clipboard.serial = u32::MAX;
    assert_eq!(clipboard.next_serial(), 0);
}

#[test]
fn window_stalls_and_unstalls() {
    let mut window = Window::new();
    assert!(window.dirty(false));
    assert!(window.unstall());
    assert!(!window.unstall());
    assert!(window.draw(false));
    assert!(window.initial_draw_done);
    assert!(!window.dirty(false));
    assert!(window.dirty(true));
    assert!(!window.draw(false));
    assert!(window.stalled);
    assert!(window.draw(true));
    assert!(window.unstall());
    window.mark_dirty();
    assert!(window.draw(false));
}

#[test]
fn window_size() {
    let mut window = Window::new();
    window.draw(false);
    assert!(!window.set_size(pinax::geometry::Size::new(360, 720)));
    assert!(!window.dirty);
    assert!(window.set_size(pinax::geometry::Size::new(361, 720)));
    assert!(window.dirty);
}

#[test]
fn window_reports_change_cause_once() {
    let mut window = Window::new();
    window.user_input();
    assert_eq!(window.update_text_input(), None);
    window.text_input_enter();
    assert_eq!(
        window.update_text_input(),
        Some(TextInputUpdate { enable: true, cause: ChangeCause::Other })
    );
    assert_eq!(
        window.update_text_input(),
        Some(TextInputUpdate { enable: false, cause: ChangeCause::InputMethod })
    );
    window.text_input_leave();
    assert_eq!(window.update_text_input(), None);
    window.text_input_enter();
    assert_eq!(window.text_input, Some(TextInput { enabled: false }));
}
