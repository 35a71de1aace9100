//! The clock segment.

use vstd::prelude::*;
use vstd::string::*;
use crate::color::Color;
use crate::policy::{resolve, resolved};
use crate::segment::PromptSegment;

verus! {

/// The clock segment: a clock icon, a space and the time of day as given,
/// magenta unless a color is given.
pub fn clock_segment(clock: &str, color: Option<Color>) -> (r: PromptSegment)
    ensures
        r@ == (seq!['\u{f017}', ' '] + clock@, Some(resolved(Color::Magenta, color, None))),
{
    proof {
        reveal_strlit("\u{f017} ");
    }
    let mut content = String::from_str("\u{f017} ");
    content.append(clock);
    PromptSegment { content, color: Some(resolve(Color::Magenta, color, None)) }
}

} // verus!
