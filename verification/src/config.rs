//! Configuration values that the editor core reads.

use crate::utf8::{bytes_to_string, string_to_bytes};
use std::path::PathBuf;
use vstd::prelude::*;
use vstd::utf8::*;

verus! {

/// A path of the file system, carried through without looking inside.
#[verifier::external_type_specification]
#[verifier::external_body]
pub struct ExPathBuf(PathBuf);

/// General configuration.
#[derive(Debug)]
pub struct General {
    /// Location the notes are saved to.
    pub path: Option<PathBuf>,
}

/// Directory of the notes file below the user's data directory.
pub const DEFAULT_STORAGE_SUBPATH: &'static str = "pinax/notes";

/// Asks `dirs::data_dir` for the user's data directory. The answer depends on
/// the environment of the process, so nothing is claimed of it.
#[verifier::external_body]
fn user_data_dir() -> Option<PathBuf> {
    dirs::data_dir()
}

/// The path `base` extended by `sub`, as `Path::join` builds it.
pub uninterp spec fn joined_path(base: PathBuf, sub: Seq<char>) -> PathBuf;

/// Calls `Path::join`, which returns `base` extended by `sub`.
#[verifier::external_body]
fn join_path(base: &PathBuf, sub: &str) -> (joined: PathBuf)
    ensures
        joined == joined_path(*base, sub@),
{
    base.join(sub)
}

/// Calls `PathBuf::clone`, which returns an equal path.
#[verifier::external_body]
fn clone_path(path: &PathBuf) -> (copy: PathBuf)
    ensures
        copy == *path,
{
    path.clone()
}

/// The storage path for a configured path and a data directory: the
/// configured path if there is one, else the default location below the data
/// directory, and nothing when neither is known.
pub open spec fn resolved_storage_path(
    configured: Option<PathBuf>,
    data_dir: Option<PathBuf>,
) -> Option<PathBuf> {
    match configured {
        Some(path) => Some(path),
        None => match data_dir {
            Some(dir) => Some(joined_path(dir, DEFAULT_STORAGE_SUBPATH@)),
            None => None,
        },
    }
}

impl General {
    /// Get the storage path, given the user's data directory.
    pub fn storage_path_in(&self, data_dir: Option<PathBuf>) -> (path: Option<PathBuf>)
        ensures
            path == resolved_storage_path(self.path, data_dir),
    {
        match &self.path {
            Some(path) => Some(clone_path(path)),
            None => match data_dir {
                Some(dir) => Some(join_path(&dir, DEFAULT_STORAGE_SUBPATH)),
                None => None,
            },
        }
    }

    /// Get the storage path: the configured one, else the default location
    /// below the user's data directory. Without a configured path and without
    /// a data directory there is none.
    pub fn storage_path(&self) -> (path: Option<PathBuf>)
        ensures
            self.path is Some ==> path == self.path,
            self.path is None ==> (path matches Some(p) ==> exists|dir: PathBuf|
                p == joined_path(dir, DEFAULT_STORAGE_SUBPATH@)),
    {
        let data_dir = match &self.path {
            Some(_) => None,
            None => user_data_dir(),
        };
        self.storage_path_in(data_dir)
    }
}

impl Default for General {
    fn default() -> (general: Self)
        ensures
            general.path is None,
    {
        Self { path: None }
    }
}

/// Config wrapper for millisecond-precision durations.
#[derive(PartialEq, Eq, Structural, Copy, Clone, Hash, Debug)]
pub struct MillisDuration(pub u64);

impl MillisDuration {
    /// Duration of `millis` milliseconds.
    pub fn from_millis(millis: u64) -> (duration: Self)
        ensures
            duration.0 == millis,
    {
        Self(millis)
    }

    /// Number of whole milliseconds.
    pub fn as_millis(&self) -> (millis: u64)
        ensures
            millis == self.0,
    {
        self.0
    }
}

/// RGB color.
#[derive(PartialEq, Eq, Structural, Copy, Clone, Hash, Debug)]
pub struct Color {
    pub r: u8,
    pub g: u8,
    pub b: u8,
}

/// Color configuration.
#[derive(PartialEq, Eq, Structural, Copy, Clone, Hash, Debug)]
pub struct Colors {
    /// Primary foreground color.
    pub foreground: Color,
    /// Primary background color.
    pub background: Color,
    /// Primary accent color.
    pub highlight: Color,
}

impl Default for Colors {
    fn default() -> (colors: Self)
        ensures
            colors == (Colors {
                foreground: Color { r: 255, g: 255, b: 255 },
                background: Color { r: 24, g: 24, b: 24 },
                highlight: Color { r: 117, g: 42, b: 42 },
            }),
    {
        Self {
            foreground: Color::new(255, 255, 255),
            background: Color::new(24, 24, 24),
            highlight: Color::new(117, 42, 42),
        }
    }
}

/// Why a text is no color.
#[derive(PartialEq, Eq, Structural, Copy, Clone, Debug)]
pub enum ColorError {
    /// The text does not start with `#`.
    MissingHash,
    /// The text has this many bytes behind the `#` where six are expected.
    WrongDigitCount(usize),
    /// A byte behind the `#` is no hexadecimal digit.
    NonHexDigit,
}

/// The byte `#`.
pub const HASH: u8 = 0x23;

/// The byte `+`.
pub const PLUS: u8 = 0x2b;

/// The value of a hexadecimal digit, in either case.
pub open spec fn hex_value(digit: u8) -> Option<u8> {
    if 0x30 <= digit <= 0x39 {
        Some((digit - 0x30) as u8)
    } else if 0x61 <= digit <= 0x66 {
        Some((digit - 0x61 + 10) as u8)
    } else if 0x41 <= digit <= 0x46 {
        Some((digit - 0x41 + 10) as u8)
    } else {
        None
    }
}

/// The value of the first of six digits, where a plus sign may stand for a
/// zero.
pub open spec fn leading_hex_value(digit: u8) -> Option<u8> {
    if digit == PLUS {
        Some(0u8)
    } else {
        hex_value(digit)
    }
}

/// The lower-case hexadecimal digit for a value below sixteen.
pub open spec fn hex_digit(value: u8) -> u8 {
    if value < 10 {
        (0x30 + value) as u8
    } else {
        (0x61 + value - 10) as u8
    }
}

/// The color that a text of the form `#rrggbb` names, or why it names none.
pub open spec fn parse_color(text: Seq<u8>) -> Result<Color, ColorError> {
    if text.len() == 0 || text[0] != HASH {
        Err(ColorError::MissingHash)
    } else if text.len() != 7 {
        Err(ColorError::WrongDigitCount((text.len() - 1) as usize))
    } else if leading_hex_value(text[1]) is None || hex_value(text[2]) is None || hex_value(
        text[3],
    ) is None || hex_value(text[4]) is None || hex_value(text[5]) is None || hex_value(text[6])
        is None {
        Err(ColorError::NonHexDigit)
    } else {
        Ok(
            Color {
                r: (leading_hex_value(text[1])->0 * 16 + hex_value(text[2])->0) as u8,
                g: (hex_value(text[3])->0 * 16 + hex_value(text[4])->0) as u8,
                b: (hex_value(text[5])->0 * 16 + hex_value(text[6])->0) as u8,
            },
        )
    }
}

/// The text `#rrggbb` for a color, in lower-case digits.
pub open spec fn hex_form(color: Color) -> Seq<u8> {
    seq![
        HASH,
        hex_digit(color.r / 16),
        hex_digit(color.r % 16),
        hex_digit(color.g / 16),
        hex_digit(color.g % 16),
        hex_digit(color.b / 16),
        hex_digit(color.b % 16),
    ]
}

/// The value of a hexadecimal digit.
fn digit_value(digit: u8) -> (value: Option<u8>)
    ensures
        value == hex_value(digit),
        value matches Some(v) ==> v < 16,
{
    if 0x30 <= digit && digit <= 0x39 {
        Some(digit - 0x30)
    } else if 0x61 <= digit && digit <= 0x66 {
        Some(digit - 0x61 + 10)
    } else if 0x41 <= digit && digit <= 0x46 {
        Some(digit - 0x41 + 10)
    } else {
        None
    }
}

/// The value of two hexadecimal digits, the first of which may be given
/// as already decoded.
fn channel_value(high: Option<u8>, low: u8) -> (value: Option<u8>)
    requires
        high matches Some(h) ==> h < 16,
    ensures
        value == match (high, hex_value(low)) {
            (Some(h), Some(l)) => Some((h * 16 + l) as u8),
            _ => None,
        },
{
    match (high, digit_value(low)) {
        (Some(h), Some(l)) => Some(h * 16 + l),
        _ => None,
    }
}

/// The lower-case hexadecimal digit for a value below sixteen.
fn digit_for(value: u8) -> (digit: u8)
    requires
        value < 16,
    ensures
        digit == hex_digit(value),
        digit < 0x80,
        hex_value(digit) == Some(value),
{
    if value < 10 {
        0x30 + value
    } else {
        0x61 + value - 10
    }
}

impl Color {
    pub fn new(r: u8, g: u8, b: u8) -> (color: Self)
        ensures
            color == (Color { r, g, b }),
    {
        Self { r, g, b }
    }

    /// Reads a color from text like `#ff00ff`.
    ///
    /// The text has to start with `#` and to go on with six hexadecimal
    /// digits in either case; a plus sign may stand in the place of the
    /// first digit.
    pub fn from_hex(value: &str) -> (color: Result<Color, ColorError>)
        ensures
            color == parse_color(encode_utf8(value@)),
    {
        let text = string_to_bytes(value);
        if text.len() == 0 || text[0] != HASH {
            return Err(ColorError::MissingHash);
        }
        if text.len() != 7 {
            return Err(ColorError::WrongDigitCount(text.len() - 1));
        }
        let first: Option<u8> = if text[1] == PLUS {
            Some(0)
        } else {
            digit_value(text[1])
        };
        let r = channel_value(first, text[2]);
        let g = channel_value(digit_value(text[3]), text[4]);
        let b = channel_value(digit_value(text[5]), text[6]);
        match (r, g, b) {
            (Some(r), Some(g), Some(b)) => Ok(Color { r, g, b }),
            _ => Err(ColorError::NonHexDigit),
        }
    }

    /// Writes the color as text like `#ff00ff`.
    pub fn to_hex(&self) -> (text: String)
        ensures
            encode_utf8(text@) == hex_form(*self),
    {
        let mut bytes: Vec<u8> = Vec::new();
        bytes.push(HASH);
        bytes.push(digit_for(self.r / 16));
        bytes.push(digit_for(self.r % 16));
        bytes.push(digit_for(self.g / 16));
        bytes.push(digit_for(self.g % 16));
        bytes.push(digit_for(self.b / 16));
        bytes.push(digit_for(self.b % 16));
        proof {
            assert(bytes@ =~= hex_form(*self));
            assert(bytes@.subrange(0, 0) =~= Seq::<u8>::empty());
            assert(partial_valid_utf8(bytes@, 0));
            partial_valid_utf8_extend_ascii_block(bytes@, 0, 7);
            assert(bytes@.subrange(0, 7) =~= bytes@);
        }
        bytes_to_string(bytes)
    }
}

/// A color that is written as text is read back as the same color.
pub proof fn lemma_color_round_trip(color: Color)
    ensures
        parse_color(hex_form(color)) == Ok::<Color, ColorError>(color),
{
    let text = hex_form(color);
    assert(text.len() == 7);
    lemma_hex_digit_value((color.r / 16) as u8);
    lemma_hex_digit_value((color.r % 16) as u8);
    lemma_hex_digit_value((color.g / 16) as u8);
    lemma_hex_digit_value((color.g % 16) as u8);
    lemma_hex_digit_value((color.b / 16) as u8);
    lemma_hex_digit_value((color.b % 16) as u8);
}

/// The digit for a value has that value, and is no plus sign.
proof fn lemma_hex_digit_value(value: u8)
    requires
        value < 16,
    ensures
        hex_value(hex_digit(value)) == Some(value),
        leading_hex_value(hex_digit(value)) == Some(value),
{
}

} // verus!
