//! The working-directory segments: a folder icon and the directory, with
//! the home directory written `~` and long paths shortened. Lengths count
//! characters.

use vstd::prelude::*;
use vstd::string::*;
use crate::color::Color;
use crate::policy::{resolve, resolved};
use crate::segment::PromptSegment;
use crate::text::{chars_of, find_text, first_occurrence_from, occurs_at, replace_first};

verus! {

/// Paths longer than this are shortened.
pub const MAX_PATH_LEN: usize = 100;

/// Where the working directory lies relative to the home directory.
#[derive(Debug, Clone)]
pub enum HomePlace {
    /// It is the home directory.
    AtHome,
    /// It lies below the home directory, whose path is given.
    Below(String),
    /// Anywhere else, or there is no home directory.
    Elsewhere,
}

pub enum HomePlaceView {
    AtHome,
    Below(Seq<char>),
    Elsewhere,
}

impl View for HomePlace {
    type V = HomePlaceView;

    open spec fn view(&self) -> HomePlaceView {
        match self {
            HomePlace::AtHome => HomePlaceView::AtHome,
            HomePlace::Below(home) => HomePlaceView::Below(home@),
            HomePlace::Elsewhere => HomePlaceView::Elsewhere,
        }
    }
}

/// The directory as shown before shortening: `~` for home, the home prefix
/// replaced by `~` below it.
pub open spec fn home_relative(path: Seq<char>, place: HomePlaceView) -> Seq<char> {
    match place {
        HomePlaceView::AtHome => seq!['~'],
        HomePlaceView::Below(home) => replace_first(path, home, seq!['~']),
        HomePlaceView::Elsewhere => path,
    }
}

/// The position of the first `/` at or after `i`, or the length when none.
pub open spec fn slash_from(s: Seq<char>, i: int) -> int
    decreases s.len() - i,
{
    if i < 0 || i >= s.len() {
        s.len() as int
    } else if s[i] == '/' {
        i
    } else {
        slash_from(s, i + 1)
    }
}

/// The position of the last `/` before `i`, or -1 when none.
pub open spec fn slash_before(s: Seq<char>, i: int) -> int
    decreases i,
{
    if i <= 0 || i > s.len() {
        -1
    } else if s[i - 1] == '/' {
        i - 1
    } else {
        slash_before(s, i - 1)
    }
}

/// The text before the first `/`.
pub open spec fn first_part(s: Seq<char>) -> Seq<char> {
    s.take(slash_from(s, 0))
}

/// The text after the last `/`.
pub open spec fn last_part(s: Seq<char>) -> Seq<char> {
    s.skip(slash_before(s, s.len() as int) + 1)
}

/// A path no longer than the limit is kept. A longer one becomes its first
/// and last parts around `/.../` when that fits, else `...` and its tail.
pub open spec fn shortened(p: Seq<char>) -> Seq<char> {
    if p.len() <= MAX_PATH_LEN {
        p
    } else if slash_from(p, 0) < p.len() && first_part(p).len() + last_part(p).len() + 3
        < MAX_PATH_LEN {
        first_part(p) + seq!['/', '.', '.', '.', '/'] + last_part(p)
    } else {
        seq!['.', '.', '.'] + p.skip(p.len() - (MAX_PATH_LEN - 3))
    }
}

/// The folder icon: a house at home, a lock where the directory is not
/// writable, an open folder otherwise.
pub open spec fn pwd_icon(display: Seq<char>, read_only: bool) -> Seq<char> {
    if display == seq!['~'] {
        seq!['\u{f015}']
    } else if read_only {
        seq!['\u{f023}']
    } else {
        seq!['\u{f07c}']
    }
}

proof fn lemma_slash_from_bounds(s: Seq<char>, i: int)
    requires
        0 <= i <= s.len(),
    ensures
        i <= slash_from(s, i) <= s.len(),
    decreases s.len() - i,
{
    if i < s.len() && s[i] != '/' {
        lemma_slash_from_bounds(s, i + 1);
    }
}

proof fn lemma_slash_before_bounds(s: Seq<char>, i: int)
    requires
        0 <= i <= s.len(),
    ensures
        -1 <= slash_before(s, i) < i,
    decreases i,
{
    if i > 0 && s[i - 1] != '/' {
        lemma_slash_before_bounds(s, i - 1);
    }
}

proof fn lemma_found_occurs(hay: Seq<char>, needle: Seq<char>, i: int)
    ensures
        first_occurrence_from(hay, needle, i) matches Some(j) ==> occurs_at(hay, needle, j),
    decreases hay.len() + 1 - i,
{
    if !(i < 0 || i + needle.len() > hay.len()) && !occurs_at(hay, needle, i) {
        lemma_found_occurs(hay, needle, i + 1);
    }
}

/// The home-relative form of the directory.
fn relative_to_home(path: &str, place: &HomePlace) -> (r: String)
    ensures
        r@ == home_relative(path@, place@),
{
    match place {
        HomePlace::AtHome => {
            proof {
                reveal_strlit("~");
            }
            String::from_str("~")
        },
        HomePlace::Below(home) => {
            let hay = chars_of(path);
            let needle = chars_of(home.as_str());
            match find_text(&hay, &needle) {
                Some(i) => {
                    proof {
                        reveal_strlit("~");
                        lemma_found_occurs(hay@, needle@, 0);
                    }
                    let mut out = String::from_str(path.substring_char(0, i));
                    out.append("~");
                    let hay_len = hay.len();
                    assert(i + needle@.len() <= hay_len);
                    out.append(path.substring_char(i + needle.len(), hay_len));
                    out
                },
                None => String::from_str(path),
            }
        },
        HomePlace::Elsewhere => String::from_str(path),
    }
}

/// Shortens a path that is over the limit.
pub fn shorten_path(p: &str) -> (r: String)
    ensures
        r@ == shortened(p@),
{
    let cs = chars_of(p);
    let n = cs.len();
    if n <= MAX_PATH_LEN {
        return String::from_str(p);
    }
    let mut first: usize = 0;
    while first < n && cs[first] != '/'
        invariant
            n == p@.len(),
            cs@ == p@,
            first <= n,
            slash_from(p@, 0) == slash_from(p@, first as int),
        decreases n - first,
    {
        first = first + 1;
    }
    let mut after_last: usize = n;
    while after_last > 0 && cs[after_last - 1] != '/'
        invariant
            n == p@.len(),
            cs@ == p@,
            after_last <= n,
            slash_before(p@, n as int) == slash_before(p@, after_last as int),
        decreases after_last,
    {
        after_last = after_last - 1;
    }
    proof {
        lemma_slash_from_bounds(p@, first as int);
        lemma_slash_before_bounds(p@, after_last as int);
        reveal_strlit("/.../");
        reveal_strlit("...");
    }
    if first < n && first < MAX_PATH_LEN && n - after_last < MAX_PATH_LEN && first + (n
        - after_last) + 3 < MAX_PATH_LEN {
        let mut out = String::from_str(p.substring_char(0, first));
        out.append("/.../");
        out.append(p.substring_char(after_last, n));
        proof {
            assert(after_last > 0);
            assert(slash_before(p@, n as int) == after_last - 1);
        }
        out
    } else {
        let mut out = String::from_str("...");
        out.append(p.substring_char(n - (MAX_PATH_LEN - 3), n));
        out
    }
}

/// The working-directory segments: the icon, then the directory, both cyan
/// unless a color is given.
pub fn pwd_segments(path: &str, place: &HomePlace, read_only: bool, color: Option<Color>) -> (r: Vec<
    PromptSegment,
>)
    ensures
        r@.len() == 2,
        r@[0]@ == (
            pwd_icon(home_relative(path@, place@), read_only),
            Some(resolved(Color::Cyan, color, None)),
        ),
        r@[1]@ == (shortened(home_relative(path@, place@)), Some(resolved(Color::Cyan, color, None))),
{
    let display = relative_to_home(path, place);
    proof {
        reveal_strlit("\u{f015}");
        reveal_strlit("\u{f023}");
        reveal_strlit("\u{f07c}");
        reveal_strlit("~");
        assert("\u{f015}"@ =~= seq!['\u{f015}']);
        assert("\u{f023}"@ =~= seq!['\u{f023}']);
        assert("\u{f07c}"@ =~= seq!['\u{f07c}']);
        assert("~"@ =~= seq!['~']);
    }
    let at_home = display.eq(&String::from_str("~"));
    let icon = if at_home {
        "\u{f015}"
    } else if read_only {
        "\u{f023}"
    } else {
        "\u{f07c}"
    };
    let c = resolve(Color::Cyan, color, None);
    let mut out: Vec<PromptSegment> = Vec::new();
    out.push(PromptSegment { content: String::from_str(icon), color: Some(c) });
    out.push(PromptSegment { content: shorten_path(display.as_str()), color: Some(c) });
    out
}

/// The segments shown when the working directory cannot be read.
pub fn unreadable_pwd_segments() -> (r: Vec<PromptSegment>)
    ensures
        r@.len() == 2,
        r@[0]@ == (seq!['\u{f07c}', ' '], Some(Color::Red)),
        r@[1]@ == ("Error"@, Some(Color::Red)),
{
    proof {
        reveal_strlit("\u{f07c} ");
    }
    let mut out: Vec<PromptSegment> = Vec::new();
    out.push(PromptSegment { content: String::from_str("\u{f07c} "), color: Some(Color::Red) });
    out.push(PromptSegment { content: String::from_str("Error"), color: Some(Color::Red) });
    out
}

} // verus!
