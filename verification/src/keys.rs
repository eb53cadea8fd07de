//! Keyboard symbols and modifiers as the editor reads them.

use vstd::prelude::*;

verus! {

/// Keyboard symbol of the cursor-left key.
pub const KEY_LEFT: u32 = 0xff51;

/// Keyboard symbol of the cursor-right key.
pub const KEY_RIGHT: u32 = 0xff53;

/// Keyboard symbol of the backspace key.
pub const KEY_BACKSPACE: u32 = 0xff08;

/// Keyboard symbol of the delete key.
pub const KEY_DELETE: u32 = 0xffff;

/// Keyboard symbol of the return key.
pub const KEY_RETURN: u32 = 0xff0d;

/// Keyboard symbol of the dedicated copy key.
pub const KEY_XF86_COPY: u32 = 0x1008ff57;

/// Keyboard symbol of the dedicated paste key.
pub const KEY_XF86_PASTE: u32 = 0x1008ff6d;

/// Keyboard symbol of the capital letter C.
pub const KEY_C: u32 = 0x43;

/// Keyboard symbol of the capital letter V.
pub const KEY_V: u32 = 0x56;

/// The modifier keys that decide what a key press means.
#[derive(PartialEq, Eq, Structural, Copy, Clone, Debug)]
pub struct Modifiers {
    /// The "control" key.
    pub ctrl: bool,
    /// The "alt" key.
    pub alt: bool,
    /// The "shift" key.
    pub shift: bool,
    /// The "logo" key.
    pub logo: bool,
}

impl Default for Modifiers {
    fn default() -> (modifiers: Self)
        ensures
            modifiers == (Modifiers { ctrl: false, alt: false, shift: false, logo: false }),
    {
        Modifiers { ctrl: false, alt: false, shift: false, logo: false }
    }
}

/// The character that `xkeysym::Keysym::key_char` gives for a keyboard
/// symbol, if it gives one. The lookup goes by fixed ranges and a fixed
/// table, so a symbol always has the same character.
pub uninterp spec fn keysym_char(keysym: u32) -> Option<char>;

/// Calls `xkeysym::Keysym::key_char` on the symbol with the raw value
/// `keysym`.
#[verifier::external_body]
pub(crate) fn key_char(keysym: u32) -> (c: Option<char>)
    ensures
        c == keysym_char(keysym),
{
    xkeysym::Keysym::new(keysym).key_char()
}

/// What a key press asks the editor to do.
#[derive(PartialEq, Eq, Structural, Copy, Clone, Debug)]
pub enum KeyCommand {
    /// The press is not meant for the editor.
    Ignore,
    /// Move the cursor one character to the left.
    MoveLeft,
    /// Move the cursor one character to the right.
    MoveRight,
    /// Delete the selection, or the character before the cursor.
    DeleteBackward,
    /// Delete the selection, or the character behind the cursor.
    DeleteForward,
    /// Replace the selection by a character, or insert it at the cursor.
    Insert(char),
    /// Put the selected text on the clipboard.
    Copy,
    /// Insert the text of the clipboard.
    Paste,
    /// The key has no meaning for the text.
    Unbound,
}

/// The command that a key press with the given modifiers stands for, when
/// `key_char` is the character of the key, if it has one.
///
/// Nothing reaches the editor while the logo or the alt key is held. The
/// cursor and deletion keys and the return key act only without shift and
/// control. Copy and paste have their own keys and are also bound to the
/// capital letters C and V with shift and control. Any other key inserts
/// its character, if it has one, unless control is held.
pub open spec fn command_of(
    keysym: u32,
    modifiers: Modifiers,
    key_char: Option<char>,
) -> KeyCommand {
    let plain = !modifiers.shift && !modifiers.ctrl;
    let chord = modifiers.shift && modifiers.ctrl;
    if modifiers.logo || modifiers.alt {
        KeyCommand::Ignore
    } else if keysym == KEY_LEFT && plain {
        KeyCommand::MoveLeft
    } else if keysym == KEY_RIGHT && plain {
        KeyCommand::MoveRight
    } else if keysym == KEY_BACKSPACE && plain {
        KeyCommand::DeleteBackward
    } else if keysym == KEY_DELETE && plain {
        KeyCommand::DeleteForward
    } else if keysym == KEY_RETURN && plain {
        KeyCommand::Insert('\n')
    } else if keysym == KEY_XF86_COPY || (keysym == KEY_C && chord) {
        KeyCommand::Copy
    } else if keysym == KEY_XF86_PASTE || (keysym == KEY_V && chord) {
        KeyCommand::Paste
    } else if !modifiers.ctrl {
        match key_char {
            Some(c) => KeyCommand::Insert(c),
            None => KeyCommand::Unbound,
        }
    } else {
        KeyCommand::Unbound
    }
}

/// The command that a key press with the given modifiers stands for: the
/// one that goes with the character of the key.
pub open spec fn key_command(keysym: u32, modifiers: Modifiers) -> KeyCommand {
    command_of(keysym, modifiers, keysym_char(keysym))
}

/// The command for a key press, given the character that the key stands
/// for.
pub fn command_for(keysym: u32, modifiers: Modifiers, key_char: Option<char>) -> (command:
    KeyCommand)
    ensures
        command == command_of(keysym, modifiers, key_char),
{
    let plain: bool = !modifiers.shift && !modifiers.ctrl;
    let chord: bool = modifiers.shift && modifiers.ctrl;
    if modifiers.logo || modifiers.alt {
        KeyCommand::Ignore
    } else if keysym == KEY_LEFT && plain {
        KeyCommand::MoveLeft
    } else if keysym == KEY_RIGHT && plain {
        KeyCommand::MoveRight
    } else if keysym == KEY_BACKSPACE && plain {
        KeyCommand::DeleteBackward
    } else if keysym == KEY_DELETE && plain {
        KeyCommand::DeleteForward
    } else if keysym == KEY_RETURN && plain {
        KeyCommand::Insert('\n')
    } else if keysym == KEY_XF86_COPY || (keysym == KEY_C && chord) {
        KeyCommand::Copy
    } else if keysym == KEY_XF86_PASTE || (keysym == KEY_V && chord) {
        KeyCommand::Paste
    } else if !modifiers.ctrl {
        match key_char {
            Some(c) => KeyCommand::Insert(c),
            None => KeyCommand::Unbound,
        }
    } else {
        KeyCommand::Unbound
    }
}

/// The command that a key press with the given modifiers stands for.
pub fn classify_key(keysym: u32, modifiers: Modifiers) -> (command: KeyCommand)
    ensures
        command == key_command(keysym, modifiers),
{
    command_for(keysym, modifiers, key_char(keysym))
}

} // verus!
