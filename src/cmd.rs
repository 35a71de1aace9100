//! The last-command segment: whether the previous command succeeded, how
//! long it ran, and its exit status when it failed.

use vstd::prelude::*;
use vstd::string::*;
use crate::color::Color;
use crate::policy::{resolve, resolved};
use crate::segment::PromptSegment;
use crate::text::{decimal, decimal_string};

verus! {

pub const SECONDS_PER_DAY: u64 = 86400;

pub const SECONDS_PER_HOUR: u64 = 3600;

pub const SECONDS_PER_MINUTE: u64 = 60;

/// A count followed by its unit, or nothing when the count is zero.
pub open spec fn unit_part(n: nat, unit: char) -> Seq<char> {
    if n > 0 {
        decimal(n) + seq![unit]
    } else {
        Seq::empty()
    }
}

/// A duration in whole seconds as days, hours and minutes, each only when
/// not zero, then seconds: `1d2h3m4s`, `2m30s`, `0s`.
pub open spec fn duration_of(total: nat) -> Seq<char> {
    unit_part(total / 86400, 'd') + unit_part((total % 86400) / 3600, 'h') + unit_part(
        (total % 3600) / 60,
        'm',
    ) + decimal(total % 60) + seq!['s']
}

/// An integer in decimal, with `-` in front when negative.
pub open spec fn signed_decimal(n: int) -> Seq<char> {
    if n < 0 {
        seq!['-'] + decimal((-n) as nat)
    } else {
        decimal(n as nat)
    }
}

/// The status icon: a check for success, a warning sign for failure.
pub open spec fn status_icon(last_status: i32) -> Seq<char> {
    if last_status == 0 {
        seq!['\u{f058}']
    } else {
        seq!['\u{f071}']
    }
}

/// The text of the last-command segment: the icon, the duration after a
/// space when there is one, and for a failure the status after a space.
pub open spec fn execution_text(last_status: i32, duration: Seq<char>) -> Seq<char> {
    let with_time = if duration.len() > 0 {
        status_icon(last_status) + seq![' '] + duration
    } else {
        status_icon(last_status)
    };
    if last_status != 0 {
        with_time + seq![' '] + signed_decimal(last_status as int)
    } else {
        with_time
    }
}

fn append_unit(out: &mut String, n: u64, unit: &str)
    requires
        unit@.len() == 1,
    ensures
        final(out)@ == old(out)@ + unit_part(n as nat, unit@[0]),
{
    if n > 0 {
        out.append(decimal_string(n).as_str());
        out.append(unit);
        proof {
            assert(unit@ =~= seq![unit@[0]]);
        }
    } else {
        proof {
            assert(final(out)@ =~= old(out)@ + unit_part(n as nat, unit@[0]));
        }
    }
}

/// Writes a duration in whole seconds as `1d2h3m4s`, leaving out zero days,
/// hours and minutes.
pub fn duration_text(total_seconds: u64) -> (r: String)
    ensures
        r@ == duration_of(total_seconds as nat),
{
    proof {
        reveal_strlit("d");
        reveal_strlit("h");
        reveal_strlit("m");
        reveal_strlit("s");
    }
    let mut out = String::new();
    append_unit(&mut out, total_seconds / SECONDS_PER_DAY, "d");
    append_unit(&mut out, (total_seconds % SECONDS_PER_DAY) / SECONDS_PER_HOUR, "h");
    append_unit(&mut out, (total_seconds % SECONDS_PER_HOUR) / SECONDS_PER_MINUTE, "m");
    out.append(decimal_string(total_seconds % SECONDS_PER_MINUTE).as_str());
    out.append("s");
    proof {
        assert(out@ =~= duration_of(total_seconds as nat));
    }
    out
}

/// Writes an integer in decimal, with `-` in front when negative.
pub fn signed_decimal_string(n: i32) -> (r: String)
    ensures
        r@ == signed_decimal(n as int),
{
    if n < 0 {
        proof {
            reveal_strlit("-");
        }
        let mut out = String::from_str("-");
        let magnitude: i64 = -(n as i64);
        out.append(decimal_string(magnitude as u64).as_str());
        out
    } else {
        decimal_string(n as u64)
    }
}

/// The last-command segment, green after success and red after failure
/// unless a color is given. `duration` is the elapsed time as text, empty
/// when not worth showing.
pub fn execution_segment(last_status: i32, duration: &str, color: Option<Color>) -> (r:
    PromptSegment)
    ensures
        r@ == (
            execution_text(last_status, duration@),
            Some(
                resolved(
                    if last_status == 0 {
                        Color::Green
                    } else {
                        Color::Red
                    },
                    color,
                    None,
                ),
            ),
        ),
{
    proof {
        reveal_strlit("\u{f058}");
        reveal_strlit("\u{f071}");
        reveal_strlit(" ");
    }
    let (icon, default_color) = if last_status == 0 {
        ("\u{f058}", Color::Green)
    } else {
        ("\u{f071}", Color::Red)
    };
    let mut info = String::from_str(icon);
    if duration.unicode_len() > 0 {
        info.append(" ");
        info.append(duration);
    }
    if last_status != 0 {
        info.append(" ");
        info.append(signed_decimal_string(last_status).as_str());
    }
    proof {
        assert(icon@ =~= status_icon(last_status));
        assert(info@ =~= execution_text(last_status, duration@));
    }
    PromptSegment { content: info, color: Some(resolve(default_color, color, None)) }
}

} // verus!
