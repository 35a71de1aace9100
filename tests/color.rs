use zsh_prompts::color::{Color, ParseError};

#[test]
fn parses_each_name() {
    assert_eq!(Color::parse("red"), Ok(Color::Red));
    assert_eq!(Color::parse("green"), Ok(Color::Green));
    assert_eq!(Color::parse("yellow"), Ok(Color::Yellow));
    assert_eq!(Color::parse("blue"), Ok(Color::Blue));
    assert_eq!(Color::parse("magenta"), Ok(Color::Magenta));
    assert_eq!(Color::parse("cyan"), Ok(Color::Cyan));
    assert_eq!(Color::parse("white"), Ok(Color::White));
    assert_eq!(Color::parse("black"), Ok(Color::Black));
}

#[test]
fn names_ignore_case() {
    assert_eq!(Color::parse("RED"), Ok(Color::Red));
    assert_eq!(Color::parse("Magenta"), Ok(Color::Magenta));
}

#[test]
fn lowercasing_follows_unicode() {
    // KELVIN SIGN lowercases to an ASCII `k`.
    assert_eq!(Color::parse("blac\u{212A}"), Ok(Color::Black));
}

#[test]
fn parses_long_hex() {
    assert_eq!(Color::parse("#1a2b3c"), Ok(Color::Rgb(0x1a, 0x2b, 0x3c)));
    assert_eq!(Color::parse("#FF8000"), Ok(Color::Rgb(255, 128, 0)));
}

#[test]
fn short_hex_equals_doubled_digits() {
    assert_eq!(Color::parse("#ABC"), Color::parse("#AABBCC"));
    assert_eq!(Color::parse("#ABC"), Ok(Color::Rgb(0xaa, 0xbb, 0xcc)));
    assert_eq!(Color::parse("#f0a"), Ok(Color::Rgb(0xff, 0x00, 0xaa)));
}

#[test]
fn refuses_other_shapes() {
    assert_eq!(Color::parse("purple"), Err(ParseError::InvalidColorSpec));
    assert_eq!(Color::parse(""), Err(ParseError::InvalidColorSpec));
    assert_eq!(Color::parse("#12"), Err(ParseError::InvalidColorSpec));
    assert_eq!(Color::parse("#12345"), Err(ParseError::InvalidColorSpec));
    assert_eq!(Color::parse("123456"), Err(ParseError::InvalidColorSpec));
    assert_eq!(Color::parse("#ggg"), Err(ParseError::InvalidColorSpec));
    assert_eq!(Color::parse("#12345z"), Err(ParseError::InvalidColorSpec));
    assert_eq!(Color::parse("#+f0000"), Err(ParseError::InvalidColorSpec));
    assert_eq!(Color::parse("#\u{e9}12"), Err(ParseError::InvalidColorSpec));
}

#[test]
fn canonical_text() {
    assert_eq!(Color::Red.to_canonical_string(), "red");
    assert_eq!(Color::Black.to_canonical_string(), "black");
    assert_eq!(Color::Rgb(0x1a, 0x2b, 0x3c).to_canonical_string(), "#1a2b3c");
    assert_eq!(Color::Rgb(0, 255, 9).to_canonical_string(), "#00ff09");
}

#[test]
fn canonical_text_parses_back() {
    let all = [
        Color::Red,
        Color::Green,
        Color::Yellow,
        Color::Blue,
        Color::Magenta,
        Color::Cyan,
        Color::White,
        Color::Black,
        Color::Rgb(0, 0, 0),
        Color::Rgb(255, 255, 255),
        Color::Rgb(0x1a, 0x2b, 0x3c),
        Color::Rgb(200, 7, 99),
    ];
    for c in all {
        assert_eq!(Color::parse(&c.to_canonical_string()), Ok(c));
    }
}

#[test]
fn ansi_codes() {
    assert_eq!(Color::Black.as_ansi_code(), "30");
    assert_eq!(Color::Red.as_ansi_code(), "31");
    assert_eq!(Color::Green.as_ansi_code(), "32");
    assert_eq!(Color::Yellow.as_ansi_code(), "33");
    assert_eq!(Color::Blue.as_ansi_code(), "34");
    assert_eq!(Color::Magenta.as_ansi_code(), "35");
    assert_eq!(Color::Cyan.as_ansi_code(), "36");
    assert_eq!(Color::White.as_ansi_code(), "37");
    assert_eq!(Color::Rgb(1, 22, 255).as_ansi_code(), "38;2;1;22;255");
    assert_eq!(Color::Rgb(0, 0, 0).as_ansi_code(), "38;2;0;0;0");
}

#[test]
fn from_str_parses_like_parse() {
    assert_eq!("cyan".parse::<Color>(), Ok(Color::Cyan));
    assert_eq!("#000".parse::<Color>(), Ok(Color::Rgb(0, 0, 0)));
    assert_eq!("nope".parse::<Color>(), Err(ParseError::InvalidColorSpec));
}
