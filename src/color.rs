//! The color model: eight named terminal colors and 24-bit RGB, parsed from
//! and printed to a canonical lowercase text form, and rendered as the
//! parameter of a foreground-color escape sequence.

use vstd::prelude::*;
use vstd::string::*;
use crate::text::{digit_char, decimal, digit_str, decimal_string};

verus! {

/// A foreground color.
#[derive(Debug, PartialEq, Eq, Structural, Hash, Clone, Copy)]
pub enum Color {
    Red,
    Green,
    Yellow,
    Blue,
    Magenta,
    Cyan,
    White,
    Black,
    Rgb(u8, u8, u8),
}

/// Why a color specification was refused.
#[derive(Debug, PartialEq, Eq, Structural, Clone, Copy)]
pub enum ParseError {
    InvalidColorSpec,
}

/// What `str::to_lowercase` returns for a string: lowercasing by the
/// Unicode `Lowercase` property.
pub uninterp spec fn lower_of(s: Seq<char>) -> Seq<char>;

/// Every character of `s` is ASCII.
pub open spec fn is_ascii_text(s: Seq<char>) -> bool {
    forall|i: int| 0 <= i < s.len() ==> (#[trigger] s[i] as int) < 128
}

/// `t` is `s` with each ASCII capital letter replaced by its small letter.
pub open spec fn is_ascii_lowering(s: Seq<char>, t: Seq<char>) -> bool {
    &&& t.len() == s.len()
    &&& forall|i: int|
        0 <= i < s.len() ==> if 'A' <= #[trigger] s[i] <= 'Z' {
            t[i] as int == s[i] as int + 32
        } else {
            t[i] == s[i]
        }
}

/// Relies on `str::to_lowercase`: the result depends on the characters
/// alone, and on ASCII text it changes only the capital letters `A`..`Z`,
/// each to its small letter.
#[verifier::external_body]
fn lowercase(s: &str) -> (r: String)
    ensures
        r@ == lower_of(s@),
        is_ascii_text(s@) ==> is_ascii_lowering(s@, r@),
{
    s.to_lowercase()
}


/// The color that an exact lowercase name stands for.
pub open spec fn named_color(s: Seq<char>) -> Option<Color> {
    if s == "red"@ {
        Some(Color::Red)
    } else if s == "green"@ {
        Some(Color::Green)
    } else if s == "yellow"@ {
        Some(Color::Yellow)
    } else if s == "blue"@ {
        Some(Color::Blue)
    } else if s == "magenta"@ {
        Some(Color::Magenta)
    } else if s == "cyan"@ {
        Some(Color::Cyan)
    } else if s == "white"@ {
        Some(Color::White)
    } else if s == "black"@ {
        Some(Color::Black)
    } else {
        None
    }
}

/// The value of a hexadecimal digit of either case.
pub open spec fn hex_value(c: char) -> Option<int> {
    if '0' <= c <= '9' {
        Some(c as int - '0' as int)
    } else if 'a' <= c <= 'f' {
        Some(c as int - 'a' as int + 10)
    } else if 'A' <= c <= 'F' {
        Some(c as int - 'A' as int + 10)
    } else {
        None
    }
}

pub open spec fn is_hex(c: char) -> bool {
    hex_value(c) is Some
}

pub open spec fn hex_of(c: char) -> int {
    hex_value(c)->0
}

/// `#RRGGBB`, or `#RGB` with each digit standing for itself twice.
pub open spec fn hex_color(s: Seq<char>) -> Option<Color> {
    if s.len() == 7 && s[0] == '#' && (forall|i: int| 1 <= i < 7 ==> is_hex(#[trigger] s[i])) {
        Some(
            Color::Rgb(
                (16 * hex_of(s[1]) + hex_of(s[2])) as u8,
                (16 * hex_of(s[3]) + hex_of(s[4])) as u8,
                (16 * hex_of(s[5]) + hex_of(s[6])) as u8,
            ),
        )
    } else if s.len() == 4 && s[0] == '#' && (forall|i: int| 1 <= i < 4 ==> is_hex(#[trigger] s[i])) {
        Some(
            Color::Rgb(
                (17 * hex_of(s[1])) as u8,
                (17 * hex_of(s[2])) as u8,
                (17 * hex_of(s[3])) as u8,
            ),
        )
    } else {
        None
    }
}

/// What a color specification means: a name, matched after lowercasing,
/// or else a hex form.
pub open spec fn parse_color(s: Seq<char>) -> Result<Color, ParseError> {
    match named_color(lower_of(s)) {
        Some(c) => Ok(c),
        None => match hex_color(s) {
            Some(c) => Ok(c),
            None => Err(ParseError::InvalidColorSpec),
        },
    }
}

/// Two lowercase hexadecimal digits for a byte.
pub open spec fn hex_byte(b: u8) -> Seq<char> {
    seq![digit_char(b as int / 16), digit_char(b as int % 16)]
}

/// The canonical text of a color: its lowercase name, or `#rrggbb`.
pub open spec fn canonical(c: Color) -> Seq<char> {
    match c {
        Color::Red => "red"@,
        Color::Green => "green"@,
        Color::Yellow => "yellow"@,
        Color::Blue => "blue"@,
        Color::Magenta => "magenta"@,
        Color::Cyan => "cyan"@,
        Color::White => "white"@,
        Color::Black => "black"@,
        Color::Rgb(r, g, b) => seq!['#'] + hex_byte(r) + hex_byte(g) + hex_byte(b),
    }
}

/// The SGR parameter that selects a color as foreground: `30`..`37` for the
/// named colors (black first), `38;2;R;G;B` for RGB.
pub open spec fn ansi_code(c: Color) -> Seq<char> {
    match c {
        Color::Black => "30"@,
        Color::Red => "31"@,
        Color::Green => "32"@,
        Color::Yellow => "33"@,
        Color::Blue => "34"@,
        Color::Magenta => "35"@,
        Color::Cyan => "36"@,
        Color::White => "37"@,
        Color::Rgb(r, g, b) => "38;2;"@ + decimal(r as nat) + ";"@ + decimal(g as nat) + ";"@
            + decimal(b as nat),
    }
}

/// `s` spells the lowercase ASCII word `name`, each letter in either case.
pub open spec fn same_ignoring_case(s: Seq<char>, name: Seq<char>) -> bool {
    is_ascii_lowering(s, name)
}

/// What a color specification in ASCII means: a name in any case, or else a hex form.
pub open spec fn parse_ascii(s: Seq<char>) -> Result<Color, ParseError> {
    if same_ignoring_case(s, "red"@) {
        Ok(Color::Red)
    } else if same_ignoring_case(s, "green"@) {
        Ok(Color::Green)
    } else if same_ignoring_case(s, "yellow"@) {
        Ok(Color::Yellow)
    } else if same_ignoring_case(s, "blue"@) {
        Ok(Color::Blue)
    } else if same_ignoring_case(s, "magenta"@) {
        Ok(Color::Magenta)
    } else if same_ignoring_case(s, "cyan"@) {
        Ok(Color::Cyan)
    } else if same_ignoring_case(s, "white"@) {
        Ok(Color::White)
    } else if same_ignoring_case(s, "black"@) {
        Ok(Color::Black)
    } else {
        match hex_color(s) {
            Some(c) => Ok(c),
            None => Err(ParseError::InvalidColorSpec),
        }
    }
}

/// On ASCII text, the lowered form of `s` is a name exactly when `s`
/// spells that name in either case.
proof fn lemma_lowered_name(s: Seq<char>, t: Seq<char>, name: Seq<char>)
    requires
        is_ascii_lowering(s, t),
    ensures
        (t == name) <==> same_ignoring_case(s, name),
{
    if same_ignoring_case(s, name) {
        assert forall|i: int| 0 <= i < t.len() implies t[i] == name[i] by {
            if 'A' <= s[i] <= 'Z' {
                assert(t[i] as int == name[i] as int);
            } else {
                assert(t[i] == s[i]);
            }
        }
        assert(t =~= name);
    }
}

/// Whether two strings hold the same characters.
fn same_text(a: &str, b: &str) -> (r: bool)
    ensures
        r == (a@ == b@),
{
    let n = a.unicode_len();
    if n != b.unicode_len() {
        return false;
    }
    let mut i: usize = 0;
    while i < n
        invariant
            n == a@.len(),
            n == b@.len(),
            i <= n,
            a@.subrange(0, i as int) == b@.subrange(0, i as int),
        decreases n - i,
    {
        if a.get_char(i) != b.get_char(i) {
            return false;
        }
        proof {
            assert(a@.subrange(0, i + 1) == a@.subrange(0, i as int).push(a@[i as int]));
            assert(b@.subrange(0, i + 1) == b@.subrange(0, i as int).push(b@[i as int]));
        }
        i = i + 1;
    }
    proof {
        assert(a@.subrange(0, n as int) == a@);
        assert(b@.subrange(0, n as int) == b@);
    }
    true
}

/// The color named by `s`, if `s` is exactly one of the eight names.
fn lookup_name(s: &str) -> (r: Option<Color>)
    ensures
        r == named_color(s@),
{
    if same_text(s, "red") {
        Some(Color::Red)
    } else if same_text(s, "green") {
        Some(Color::Green)
    } else if same_text(s, "yellow") {
        Some(Color::Yellow)
    } else if same_text(s, "blue") {
        Some(Color::Blue)
    } else if same_text(s, "magenta") {
        Some(Color::Magenta)
    } else if same_text(s, "cyan") {
        Some(Color::Cyan)
    } else if same_text(s, "white") {
        Some(Color::White)
    } else if same_text(s, "black") {
        Some(Color::Black)
    } else {
        None
    }
}

/// The value of a hexadecimal digit.
fn hex_digit(c: char) -> (r: Option<u8>)
    ensures
        r is Some <==> is_hex(c),
        r matches Some(v) ==> v as int == hex_of(c) && v < 16,
{
    if '0' <= c && c <= '9' {
        Some((c as u32 - '0' as u32) as u8)
    } else if 'a' <= c && c <= 'f' {
        Some((c as u32 - 'a' as u32 + 10) as u8)
    } else if 'A' <= c && c <= 'F' {
        Some((c as u32 - 'A' as u32 + 10) as u8)
    } else {
        None
    }
}

/// Decodes `#RRGGBB` or `#RGB`.
fn parse_hex(s: &str) -> (r: Option<Color>)
    ensures
        r == hex_color(s@),
{
    let n = s.unicode_len();
    if (n != 7 && n != 4) || s.get_char(0) != '#' {
        return None;
    }
    let mut digits: Vec<u8> = Vec::new();
    let mut i: usize = 1;
    while i < n
        invariant
            n == s@.len(),
            n == 7 || n == 4,
            1 <= i <= n,
            digits@.len() == i - 1,
            forall|j: int| 1 <= j < i ==> is_hex(#[trigger] s@[j]),
            forall|j: int| 1 <= j < i ==> digits@[j - 1] as int == hex_of(#[trigger] s@[j]),
            forall|j: int| 0 <= j < digits@.len() ==> #[trigger] digits@[j] < 16,
        decreases n - i,
    {
        match hex_digit(s.get_char(i)) {
            Some(v) => digits.push(v),
            None => return None,
        }
        i = i + 1;
    }
    if n == 7 {
        Some(Color::Rgb(
            16 * digits[0] + digits[1],
            16 * digits[2] + digits[3],
            16 * digits[4] + digits[5],
        ))
    } else {
        Some(Color::Rgb(17 * digits[0], 17 * digits[1], 17 * digits[2]))
    }
}

impl Color {
    /// Parses a color specification: one of the eight names in any case,
    /// `#RRGGBB`, or `#RGB` (each digit doubled); anything else is refused.
    pub fn parse(s: &str) -> (r: Result<Color, ParseError>)
        ensures
            r == parse_color(s@),
            is_ascii_text(s@) ==> r == parse_ascii(s@),
    {
        let lower = lowercase(s);
        proof {
            if is_ascii_text(s@) {
                lemma_lowered_name(s@, lower@, "red"@);
                lemma_lowered_name(s@, lower@, "green"@);
                lemma_lowered_name(s@, lower@, "yellow"@);
                lemma_lowered_name(s@, lower@, "blue"@);
                lemma_lowered_name(s@, lower@, "magenta"@);
                lemma_lowered_name(s@, lower@, "cyan"@);
                lemma_lowered_name(s@, lower@, "white"@);
                lemma_lowered_name(s@, lower@, "black"@);
            }
        }
        match lookup_name(lower.as_str()) {
            Some(c) => Ok(c),
            None => match parse_hex(s) {
                Some(c) => Ok(c),
                None => Err(ParseError::InvalidColorSpec),
            },
        }
    }

    /// The canonical text of the color: its lowercase name, or `#rrggbb`.
    pub fn to_canonical_string(&self) -> (r: String)
        ensures
            r@ == canonical(*self),
    {
        match *self {
            Color::Red => String::from_str("red"),
            Color::Green => String::from_str("green"),
            Color::Yellow => String::from_str("yellow"),
            Color::Blue => String::from_str("blue"),
            Color::Magenta => String::from_str("magenta"),
            Color::Cyan => String::from_str("cyan"),
            Color::White => String::from_str("white"),
            Color::Black => String::from_str("black"),
            Color::Rgb(r, g, b) => {
                proof {
                    reveal_strlit("#");
                }
                let mut out = String::from_str("#");
                out.append(digit_str(r / 16));
                out.append(digit_str(r % 16));
                out.append(digit_str(g / 16));
                out.append(digit_str(g % 16));
                out.append(digit_str(b / 16));
                out.append(digit_str(b % 16));
                proof {
                    assert(out@ =~= seq!['#'] + hex_byte(r) + hex_byte(g) + hex_byte(b));
                }
                out
            },
        }
    }

    /// The SGR parameter selecting this color as foreground: `30`..`37` for
    /// the named colors, `38;2;R;G;B` for RGB.
    pub fn as_ansi_code(&self) -> (r: String)
        ensures
            r@ == ansi_code(*self),
    {
        match *self {
            Color::Black => String::from_str("30"),
            Color::Red => String::from_str("31"),
            Color::Green => String::from_str("32"),
            Color::Yellow => String::from_str("33"),
            Color::Blue => String::from_str("34"),
            Color::Magenta => String::from_str("35"),
            Color::Cyan => String::from_str("36"),
            Color::White => String::from_str("37"),
            Color::Rgb(r, g, b) => {
                let mut out = String::from_str("38;2;");
                out.append(decimal_string(r as u64).as_str());
                out.append(";");
                out.append(decimal_string(g as u64).as_str());
                out.append(";");
                out.append(decimal_string(b as u64).as_str());
                out
            },
        }
    }
}

impl std::str::FromStr for Color {
    type Err = ParseError;

    fn from_str(s: &str) -> Result<Color, ParseError> {
        Color::parse(s)
    }
}

/// Reading back the digits that `hex_byte` writes gives the byte.
proof fn lemma_hex_byte(b: u8)
    ensures
        is_hex(hex_byte(b)[0]),
        is_hex(hex_byte(b)[1]),
        16 * hex_of(hex_byte(b)[0]) + hex_of(hex_byte(b)[1]) == b as int,
        (hex_byte(b)[0] as int) < 128,
        (hex_byte(b)[1] as int) < 128,
{
    let hi = b as int / 16;
    let lo = b as int % 16;
    assert(0 <= hi < 16 && 0 <= lo < 16);
    assert(hex_of(digit_char(hi)) == hi && is_hex(digit_char(hi)));
    assert(hex_of(digit_char(lo)) == lo && is_hex(digit_char(lo)));
}

/// Parsing the canonical text of any color gives that color back.
pub proof fn lemma_parse_canonical(c: Color)
    ensures
        is_ascii_text(canonical(c)),
        parse_ascii(canonical(c)) == Ok::<Color, ParseError>(c),
{
    reveal_strlit("red");
    reveal_strlit("green");
    reveal_strlit("yellow");
    reveal_strlit("blue");
    reveal_strlit("magenta");
    reveal_strlit("cyan");
    reveal_strlit("white");
    reveal_strlit("black");
    let s = canonical(c);
    if let Color::Rgb(r, g, b) = c {
        lemma_hex_byte(r);
        lemma_hex_byte(g);
        lemma_hex_byte(b);
        assert(s[0] == '#');
        assert(s[1] == hex_byte(r)[0] && s[2] == hex_byte(r)[1]);
        assert(s[3] == hex_byte(g)[0] && s[4] == hex_byte(g)[1]);
        assert(s[5] == hex_byte(b)[0] && s[6] == hex_byte(b)[1]);
        assert(!same_ignoring_case(s, "magenta"@));
        assert(hex_color(s) == Some(c));
    } else {
        assert(same_ignoring_case(s, s));
    }
}

/// The three-digit form `#RGB` means the same as `#RRGGBB`.
pub proof fn lemma_hex_shorthand(r: char, g: char, b: char)
    requires
        is_hex(r),
        is_hex(g),
        is_hex(b),
    ensures
        is_ascii_text(seq!['#', r, g, b]),
        is_ascii_text(seq!['#', r, r, g, g, b, b]),
        parse_ascii(seq!['#', r, g, b]) == parse_ascii(seq!['#', r, r, g, g, b, b]),
        parse_ascii(seq!['#', r, g, b]) is Ok,
{
    reveal_strlit("red");
    reveal_strlit("green");
    reveal_strlit("yellow");
    reveal_strlit("blue");
    reveal_strlit("magenta");
    reveal_strlit("cyan");
    reveal_strlit("white");
    reveal_strlit("black");
    let short = seq!['#', r, g, b];
    let long = seq!['#', r, r, g, g, b, b];
    assert(!same_ignoring_case(long, "magenta"@));
    assert(!same_ignoring_case(short, "blue"@));
    assert(!same_ignoring_case(short, "cyan"@));
    assert(hex_color(short) == hex_color(long));
}

} // verus!
