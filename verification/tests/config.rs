use pinax::config::{Color, ColorError, Colors, General, MillisDuration};
use pinax::geometry::{Position, Size};
use std::path::PathBuf;

#[test]
fn color_from_hex() {
    assert_eq!(Color::from_hex("#ff00ff"), Ok(Color::new(255, 0, 255)));
    assert_eq!(Color::from_hex("#181818"), Ok(Color::new(24, 24, 24)));
    assert_eq!(Color::from_hex("#752A2a"), Ok(Color::new(117, 42, 42)));
    assert_eq!(Color::from_hex("#000000"), Ok(Color::new(0, 0, 0)));
}

#[test]
fn color_from_hex_accepts_plus_for_first_digit() {
    assert_eq!(Color::from_hex("#+12345"), Ok(Color::new(0x01, 0x23, 0x45)));
    assert_eq!(Color::from_hex("#-12345"), Err(ColorError::NonHexDigit));
    assert_eq!(Color::from_hex("#1+2345"), Err(ColorError::NonHexDigit));
}

#[test]
fn color_from_hex_errors() {
    assert_eq!(Color::from_hex(""), Err(ColorError::MissingHash));
    assert_eq!(Color::from_hex("ff00ff"), Err(ColorError::MissingHash));
    assert_eq!(Color::from_hex("#"), Err(ColorError::WrongDigitCount(0)));
    assert_eq!(Color::from_hex("#fff"), Err(ColorError::WrongDigitCount(3)));
    assert_eq!(Color::from_hex("#ff00ff00"), Err(ColorError::WrongDigitCount(8)));
    assert_eq!(Color::from_hex("#ff00fg"), Err(ColorError::NonHexDigit));
    assert_eq!(Color::from_hex("#ééé"), Err(ColorError::NonHexDigit));
    assert_eq!(Color::from_hex("#éé"), Err(ColorError::WrongDigitCount(4)));
}

#[test]
fn color_to_hex_round_trip() {
    assert_eq!(Color::new(255, 0, 255).to_hex(), "#ff00ff");
    assert_eq!(Color::new(1, 35, 69).to_hex(), "#012345");
    assert_eq!(Color::new(171, 205, 239).to_hex(), "#abcdef");
    for value in [0u8, 9, 10, 15, 16, 127, 128, 255] {
        let color = Color::new(value, 255 - value, value / 2);
        assert_eq!(Color::from_hex(&color.to_hex()), Ok(color));
    }
}

#[test]
fn default_colors() {
    let colors = Colors::default();
    assert_eq!(colors.foreground, Color::new(255, 255, 255));
    assert_eq!(colors.background, Color::new(24, 24, 24));
    assert_eq!(colors.highlight, Color::new(117, 42, 42));
}

#[test]
fn storage_path_prefers_configured_path() {
    let general = General { path: Some(PathBuf::from("/tmp/notes")) };
    assert_eq!(general.storage_path(), Some(PathBuf::from("/tmp/notes")));
    assert_eq!(
        general.storage_path_in(Some(PathBuf::from("/data"))),
        Some(PathBuf::from("/tmp/notes"))
    );
}

#[test]
fn storage_path_defaults_below_data_dir() {
    let general = General::default();
    assert_eq!(
        general.storage_path_in(Some(PathBuf::from("/data"))),
        Some(PathBuf::from("/data/pinax/notes"))
    );
    assert_eq!(general.storage_path_in(None), None);
    if let Some(path) = general.storage_path() {
        assert!(path.ends_with("pinax/notes"));
    }
}

#[test]
fn millis_duration() {
    assert_eq!(MillisDuration::from_millis(300).as_millis(), 300);
    assert_eq!(MillisDuration::from_millis(0), MillisDuration(0));
}

#[test]
fn geometry_constructors() {
    let position: Position = Position::new(3, -4);
    assert_eq!((position.x, position.y), (3, -4));
    let size: Size = Size::new(360, 720);
    assert_eq!((size.width, size.height), (360, 720));
    let point = Position::new(1.5f64, 2.5f64);
    assert_eq!(point, Position { x: 1.5, y: 2.5 });
}

#[test]
fn geometry_conversions_and_differences() {
    let position: Position = (7, -2).into();
    assert_eq!(position, Position::new(7, -2));
    let size: Size = Size::from((8u32, 6u32));
    assert_eq!(size, Size::new(8, 6));
    assert_eq!(Position::new(7, -2) - Position::new(10, 3), Position::new(-3, -5));
    assert_eq!(Size::new(360, 720) - Size::new(45, 30), Size::new(315, 690));
    assert_eq!(Size::new(5, 5) - Size::new(5, 5), Size::new(0, 0));
}
