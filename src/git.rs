//! The status aggregator: turns a repository snapshot and the caller's
//! color overrides into the ordered segments of the version-control part of
//! the prompt.

use vstd::prelude::*;
use vstd::string::*;
use crate::color::Color;
use crate::inspect::{
    FindingView, HeadState, HeadView, Query, RemoteHost, RepositoryStatus,
    RepositoryView, run, start, step,
};
use crate::policy::{resolve, resolved};
use crate::segment::PromptSegment;
use crate::text::{decimal, decimal_string};

verus! {

/// Color overrides for the version-control segments: one for every role,
/// and one per role that wins over it.
#[derive(Debug, PartialEq, Eq, Structural, Clone, Copy)]
pub struct GitStatusOptions {
    pub default_color_option: Option<Color>,
    pub git_icon_color_option: Option<Color>,
    pub branch_color_option: Option<Color>,
    pub staged_color_option: Option<Color>,
    pub unstaged_color_option: Option<Color>,
    pub untracked_color_option: Option<Color>,
    pub conflict_color_option: Option<Color>,
    pub stashed_color_option: Option<Color>,
    pub clean_color_option: Option<Color>,
    pub ahead_color_option: Option<Color>,
    pub behind_color_option: Option<Color>,
}

pub type SegmentView = (Seq<char>, Option<Color>);

/// The icon of the host of the `origin` remote.
pub open spec fn remote_icon(h: RemoteHost) -> Seq<char> {
    match h {
        RemoteHost::GitHub => seq!['\u{eba1}'],
        RemoteHost::GitLab => seq!['\u{f296}'],
        RemoteHost::Other => seq!['\u{f02a2}'],
    }
}

/// The version-control icon.
pub open spec fn vcs_icon() -> Seq<char> {
    seq!['\u{e725}']
}

/// The marker in front of the conflict count.
pub open spec fn conflict_marker() -> char {
    '\u{f071}'
}

/// The icon shown when a stash entry exists.
pub open spec fn stash_icon() -> Seq<char> {
    seq!['\u{f01c}']
}

/// The icon shown for a tree with nothing to commit and no stash.
pub open spec fn clean_icon() -> Seq<char> {
    seq!['\u{f00c}']
}

/// The marker in front of the count of commits ahead of the upstream.
pub open spec fn ahead_marker() -> char {
    '\u{2191}'
}

/// The marker in front of the count of commits behind the upstream.
pub open spec fn behind_marker() -> char {
    '\u{2193}'
}

/// The text that describes HEAD: the branch name, `:` and a short commit
/// id when detached, `empty` before the first commit.
pub open spec fn head_label(h: HeadView) -> Seq<char> {
    match h {
        HeadView::OnBranch(name) => name,
        HeadView::Detached(id) => seq![':'] + id,
        HeadView::Unborn => "empty"@,
    }
}

/// A marker followed by a count.
pub open spec fn counted(marker: char, n: nat) -> Seq<char> {
    seq![marker] + decimal(n)
}

/// One segment when `b` holds, none otherwise.
pub open spec fn when(b: bool, s: SegmentView) -> Seq<SegmentView> {
    if b {
        seq![s]
    } else {
        Seq::empty()
    }
}

/// No file counts in any category and no stash exists.
pub open spec fn is_clean(v: RepositoryView) -> bool {
    v.staged == 0 && v.unstaged == 0 && v.untracked == 0 && v.conflicts == 0 && !v.has_stash
}

/// A segment in the color that the policy picks for its role.
pub open spec fn in_role(
    text: Seq<char>,
    role_default: Color,
    role_override: Option<Color>,
    o: GitStatusOptions,
) -> SegmentView {
    (text, Some(resolved(role_default, role_override, o.default_color_option)))
}

/// The default color of the HEAD segment: red when detached, else yellow.
pub open spec fn head_default(h: HeadView) -> Color {
    if h is Detached {
        Color::Red
    } else {
        Color::Yellow
    }
}

/// The segments that always lead: remote icon, version-control icon, HEAD.
pub open spec fn leading(v: RepositoryView, o: GitStatusOptions) -> Seq<SegmentView> {
    seq![
        in_role(remote_icon(v.remote_host), Color::Blue, o.git_icon_color_option, o),
        in_role(vcs_icon(), Color::White, o.git_icon_color_option, o),
        in_role(head_label(v.head), head_default(v.head), o.branch_color_option, o),
    ]
}

/// The segments for a dirty tree: counts above zero, in a fixed order, then
/// the stash icon.
pub open spec fn dirty(v: RepositoryView, o: GitStatusOptions) -> Seq<SegmentView> {
    when(v.staged > 0, in_role(counted('+', v.staged), Color::Green, o.staged_color_option, o))
        + when(
        v.unstaged > 0,
        in_role(counted('!', v.unstaged), Color::Red, o.unstaged_color_option, o),
    ) + when(
        v.untracked > 0,
        in_role(counted('?', v.untracked), Color::Cyan, o.untracked_color_option, o),
    ) + when(
        v.conflicts > 0,
        in_role(counted(conflict_marker(), v.conflicts), Color::Magenta, o.conflict_color_option, o),
    ) + when(v.has_stash, in_role(stash_icon(), Color::Blue, o.stashed_color_option, o))
}

/// The clean icon, when there is nothing dirty to show.
pub open spec fn clean(v: RepositoryView, o: GitStatusOptions) -> Seq<SegmentView> {
    when(is_clean(v), in_role(clean_icon(), Color::Green, o.clean_color_option, o))
}

/// The ahead and behind counts, each when above zero.
pub open spec fn divergence(v: RepositoryView, o: GitStatusOptions) -> Seq<SegmentView> {
    when(v.ahead > 0, in_role(counted(ahead_marker(), v.ahead), Color::White, o.ahead_color_option, o))
        + when(
        v.behind > 0,
        in_role(counted(behind_marker(), v.behind), Color::Red, o.behind_color_option, o),
    )
}

/// The version-control segments of a snapshot, in order; none outside a
/// repository.
pub open spec fn segments_for(v: RepositoryView, o: GitStatusOptions) -> Seq<SegmentView> {
    if !v.is_repository {
        Seq::empty()
    } else {
        leading(v, o) + dirty(v, o) + clean(v, o) + divergence(v, o)
    }
}

/// The views of a list of segments.
pub open spec fn views(segs: Seq<PromptSegment>) -> Seq<SegmentView> {
    segs.map_values(|s: PromptSegment| s@)
}

/// Appends a segment of the given text and color.
fn push_colored(out: &mut Vec<PromptSegment>, text: String, color: Color)
    ensures
        views(final(out)@) == views(old(out)@).push((text@, Some(color))),
{
    let seg = PromptSegment { content: text, color: Some(color) };
    out.push(seg);
    proof {
        assert(views(final(out)@) =~= views(old(out)@).push((text@, Some(color))));
    }
}

/// A marker followed by a count, as a string.
fn counted_text(marker: &str, n: usize) -> (r: String)
    ensures
        marker@.len() == 1 ==> r@ == counted(marker@[0], n as nat),
{
    let mut s = String::from_str(marker);
    s.append(decimal_string(n as u64).as_str());
    proof {
        if marker@.len() == 1 {
            assert(marker@ =~= seq![marker@[0]]);
        }
    }
    s
}

fn remote_icon_text(h: RemoteHost) -> (r: String)
    ensures
        r@ == remote_icon(h),
{
    proof {
        reveal_strlit("\u{eba1}");
        reveal_strlit("\u{f296}");
        reveal_strlit("\u{f02a2}");
    }
    match h {
        RemoteHost::GitHub => String::from_str("\u{eba1}"),
        RemoteHost::GitLab => String::from_str("\u{f296}"),
        RemoteHost::Other => String::from_str("\u{f02a2}"),
    }
}

fn head_label_text(h: &HeadState) -> (r: String)
    ensures
        r@ == head_label(h@),
{
    match h {
        HeadState::OnBranch(name) => name.clone(),
        HeadState::Detached(id) => {
            proof {
                reveal_strlit(":");
            }
            let mut s = String::from_str(":");
            s.append(id.as_str());
            s
        },
        HeadState::Unborn => String::from_str("empty"),
    }
}

fn push_leading(out: &mut Vec<PromptSegment>, status: &RepositoryStatus, o: GitStatusOptions)
    ensures
        views(final(out)@) == views(old(out)@) + leading(status@, o),
{
    let global = o.default_color_option;
    proof {
        reveal_strlit("\u{e725}");
        assert("\u{e725}"@ =~= vcs_icon());
    }
    push_colored(
        out,
        remote_icon_text(status.remote_host),
        resolve(Color::Blue, o.git_icon_color_option, global),
    );
    push_colored(
        out,
        String::from_str("\u{e725}"),
        resolve(Color::White, o.git_icon_color_option, global),
    );
    let head_color = match status.head {
        HeadState::Detached(_) => Color::Red,
        _ => Color::Yellow,
    };
    push_colored(out, head_label_text(&status.head), resolve(head_color, o.branch_color_option, global));
    proof {
        assert(views(final(out)@) =~= views(old(out)@) + leading(status@, o));
    }
}

fn push_dirty(out: &mut Vec<PromptSegment>, status: &RepositoryStatus, o: GitStatusOptions)
    ensures
        views(final(out)@) == views(old(out)@) + dirty(status@, o),
{
    let global = o.default_color_option;
    proof {
        reveal_strlit("+");
        reveal_strlit("!");
        reveal_strlit("?");
        reveal_strlit("\u{f071}");
        reveal_strlit("\u{f01c}");
        assert("\u{f01c}"@ =~= stash_icon());
    }
    let ghost start = views(out@);
    if status.staged_count > 0 {
        push_colored(
            out,
            counted_text("+", status.staged_count),
            resolve(Color::Green, o.staged_color_option, global),
        );
    }
    if status.unstaged_count > 0 {
        push_colored(
            out,
            counted_text("!", status.unstaged_count),
            resolve(Color::Red, o.unstaged_color_option, global),
        );
    }
    if status.untracked_count > 0 {
        push_colored(
            out,
            counted_text("?", status.untracked_count),
            resolve(Color::Cyan, o.untracked_color_option, global),
        );
    }
    if status.conflict_count > 0 {
        push_colored(
            out,
            counted_text("\u{f071}", status.conflict_count),
            resolve(Color::Magenta, o.conflict_color_option, global),
        );
    }
    if status.has_stash {
        push_colored(
            out,
            String::from_str("\u{f01c}"),
            resolve(Color::Blue, o.stashed_color_option, global),
        );
    }
    proof {
        assert(views(out@) =~= start + dirty(status@, o));
    }
}

fn push_clean(out: &mut Vec<PromptSegment>, status: &RepositoryStatus, o: GitStatusOptions)
    ensures
        views(final(out)@) == views(old(out)@) + clean(status@, o),
{
    proof {
        reveal_strlit("\u{f00c}");
        assert("\u{f00c}"@ =~= clean_icon());
    }
    let ghost start = views(out@);
    if status.staged_count == 0 && status.unstaged_count == 0 && status.untracked_count == 0
        && status.conflict_count == 0 && !status.has_stash {
        push_colored(
            out,
            String::from_str("\u{f00c}"),
            resolve(Color::Green, o.clean_color_option, o.default_color_option),
        );
    }
    proof {
        assert(views(out@) =~= start + clean(status@, o));
    }
}

fn push_divergence(out: &mut Vec<PromptSegment>, status: &RepositoryStatus, o: GitStatusOptions)
    ensures
        views(final(out)@) == views(old(out)@) + divergence(status@, o),
{
    proof {
        reveal_strlit("\u{2191}");
        reveal_strlit("\u{2193}");
    }
    let ghost start = views(out@);
    if status.ahead > 0 {
        push_colored(
            out,
            counted_text("\u{2191}", status.ahead),
            resolve(Color::White, o.ahead_color_option, o.default_color_option),
        );
    }
    if status.behind > 0 {
        push_colored(
            out,
            counted_text("\u{2193}", status.behind),
            resolve(Color::Red, o.behind_color_option, o.default_color_option),
        );
    }
    proof {
        assert(views(out@) =~= start + divergence(status@, o));
    }
}

/// The version-control segments of a snapshot, colored by the overrides.
pub fn git_segments(status: &RepositoryStatus, options: &GitStatusOptions) -> (r: Vec<
    PromptSegment,
>)
    ensures
        views(r@) == segments_for(status@, *options),
{
    let mut out: Vec<PromptSegment> = Vec::new();
    proof {
        assert(views(out@) =~= Seq::<SegmentView>::empty());
    }
    if !status.is_repository {
        return out;
    }
    push_leading(&mut out, status, *options);
    push_dirty(&mut out, status, *options);
    push_clean(&mut out, status, *options);
    push_divergence(&mut out, status, *options);
    proof {
        assert(views(out@) =~= segments_for(status@, *options));
    }
    out
}

/// The clean icon stands after the leading segments exactly when no file
/// counts in any category and no stash exists; dirty and clean indicators
/// never show together.
pub proof fn lemma_clean_exclusive(v: RepositoryView, o: GitStatusOptions)
    requires
        v.is_repository,
    ensures
        (exists|i: int|
            3 <= i < segments_for(v, o).len() && (#[trigger] segments_for(v, o)[i]).0
                == clean_icon()) <==> is_clean(v),
{
    let segs = segments_for(v, o);
    let lead = leading(v, o);
    let d = dirty(v, o);
    let c = clean(v, o);
    let g = divergence(v, o);
    assert(segs == lead + d + c + g);
    // Every text outside the clean piece starts with a character other than
    // the clean icon's.
    assert forall|i: int| 0 <= i < d.len() implies (#[trigger] d[i]).0.len() > 0 && d[i].0[0]
        != clean_icon()[0] by {
    }
    assert forall|i: int| 0 <= i < g.len() implies (#[trigger] g[i]).0.len() > 0 && g[i].0[0]
        != clean_icon()[0] by {
    }
    if is_clean(v) {
        assert(d.len() == 0);
        assert(segs[3] == c[0]);
        assert(segs[3].0 == clean_icon());
    } else {
        assert(c.len() == 0);
        assert forall|i: int| 3 <= i < segs.len() implies (#[trigger] segs[i]).0 != clean_icon() by {
            if i < 3 + d.len() {
                assert(segs[i] == d[i - 3]);
            } else {
                assert(segs[i] == g[i - 3 - d.len()]);
            }
        }
    }
}

/// Outside a repository the inspection ends right after discovery, asks
/// nothing more whatever it is handed, and yields no segments.
pub proof fn lemma_outside_repository(o: GitStatusOptions)
    ensures
        step(start(), FindingView::Discovered(false)).pending == Query::Finished,
        forall|f: FindingView|
            #[trigger] step(step(start(), FindingView::Discovered(false)), f) == step(
                start(),
                FindingView::Discovered(false),
            ),
        !step(start(), FindingView::Discovered(false)).status.is_repository,
        segments_for(step(start(), FindingView::Discovered(false)).status, o).len() == 0,
{
}

/// A snapshot that says "no repository" gives no segments, whatever its
/// other fields hold.
pub proof fn lemma_no_repository_no_segments(v: RepositoryView, o: GitStatusOptions)
    requires
        !v.is_repository,
    ensures
        segments_for(v, o).len() == 0,
{
}

/// Each inspection starts afresh: two inspections of an unchanged tree,
/// which find the same things, give the same snapshot and the same segments.
pub proof fn lemma_repeatable(fs1: Seq<FindingView>, fs2: Seq<FindingView>, o: GitStatusOptions)
    requires
        fs1 == fs2,
    ensures
        run(fs1) == run(fs2),
        segments_for(run(fs1).status, o) == segments_for(run(fs2).status, o),
{
}

} // verus!
