//! A segment: a piece of prompt text with an optional foreground color,
//! and the rendering of segments into one prompt line.

use vstd::prelude::*;
use vstd::string::*;
use crate::color::{Color, ParseError, ansi_code, parse_color, parse_ascii, is_ascii_text};

verus! {

/// One colorable unit of prompt output.
#[derive(Debug, Clone)]
pub struct PromptSegment {
    pub content: String,
    pub color: Option<Color>,
}

impl View for PromptSegment {
    type V = (Seq<char>, Option<Color>);

    open spec fn view(&self) -> (Seq<char>, Option<Color>) {
        (self.content@, self.color)
    }
}

/// The color of a parse result, if it succeeded.
pub open spec fn parsed(r: Result<Color, ParseError>) -> Option<Color> {
    match r {
        Ok(c) => Some(c),
        Err(_) => None,
    }
}

/// The escape sequence that starts a foreground color, without its parameter.
pub open spec fn csi() -> Seq<char> {
    seq!['\x1b', '[']
}

/// The escape sequence that restores the default foreground color only.
pub open spec fn reset_foreground() -> Seq<char> {
    seq!['\x1b', '[', '3', '9', 'm']
}

/// A segment's text as shown: wrapped in its color and a foreground reset
/// when it has a color, unchanged otherwise.
pub open spec fn formatted(s: (Seq<char>, Option<Color>)) -> Seq<char> {
    match s.1 {
        Some(c) => csi() + ansi_code(c) + seq!['m'] + s.0 + reset_foreground(),
        None => s.0,
    }
}

impl PromptSegment {
    /// A segment without a color.
    pub fn new(content: String) -> (r: Self)
        ensures
            r@ == (content@, None::<Color>),
    {
        Self { content, color: None }
    }

    /// A segment colored by a color specification; a specification that
    /// does not parse leaves the segment without a color.
    pub fn new_with_color(content: String, color_str: &str) -> (r: Self)
        ensures
            r.content@ == content@,
            r.color == parsed(parse_color(color_str@)),
            is_ascii_text(color_str@) ==> r.color == parsed(parse_ascii(color_str@)),
    {
        let color = match Color::parse(color_str) {
            Ok(c) => Some(c),
            Err(_) => None,
        };
        Self { content, color }
    }

    /// The segment's text wrapped in its color, or unchanged without one.
    pub fn format(&self) -> (r: String)
        ensures
            r@ == formatted(self@),
    {
        match self.color {
            Some(c) => {
                proof {
                    reveal_strlit("\x1b[");
                    reveal_strlit("m");
                    reveal_strlit("\x1b[39m");
                }
                let mut out = String::from_str("\x1b[");
                out.append(c.as_ansi_code().as_str());
                out.append("m");
                out.append(self.content.as_str());
                out.append("\x1b[39m");
                out
            },
            None => self.content.clone(),
        }
    }
}

/// Formatted segments joined by single spaces; an empty segment still
/// takes its place between two spaces.
pub open spec fn joined(segs: Seq<(Seq<char>, Option<Color>)>) -> Seq<char>
    decreases segs.len(),
{
    if segs.len() == 0 {
        Seq::empty()
    } else if segs.len() == 1 {
        formatted(segs[0])
    } else {
        joined(segs.drop_last()) + seq![' '] + formatted(segs.last())
    }
}

/// The prompt line for a list of segments.
pub fn render_line(segments: &Vec<PromptSegment>) -> (r: String)
    ensures
        r@ == joined(segments@.map_values(|s: PromptSegment| s@)),
{
    let ghost views = segments@.map_values(|s: PromptSegment| s@);
    let mut out = String::new();
    let mut i: usize = 0;
    while i < segments.len()
        invariant
            i <= segments@.len(),
            views == segments@.map_values(|s: PromptSegment| s@),
            out@ == joined(views.subrange(0, i as int)),
        decreases segments@.len() - i,
    {
        proof {
            reveal_strlit(" ");
            let prev = views.subrange(0, i as int);
            let next = views.subrange(0, i + 1);
            assert(next.drop_last() =~= prev);
            assert(next.last() == segments@[i as int]@);
        }
        if i > 0 {
            out.append(" ");
        }
        out.append(segments[i].format().as_str());
        i = i + 1;
    }
    proof {
        assert(views.subrange(0, i as int) =~= views);
    }
    out
}

} // verus!
