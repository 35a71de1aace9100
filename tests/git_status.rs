use zsh_prompts::color::Color;
use zsh_prompts::git::{git_segments, GitStatusOptions};
use zsh_prompts::inspect::{
    classify_remote, describe_head, tally_entries, EntryStatus, Finding, HeadReading, HeadState,
    Inspection, Query, RemoteHost, RepositoryStatus,
};
use zsh_prompts::segment::PromptSegment;

fn no_overrides() -> GitStatusOptions {
    GitStatusOptions {
        default_color_option: None,
        git_icon_color_option: None,
        branch_color_option: None,
        staged_color_option: None,
        unstaged_color_option: None,
        untracked_color_option: None,
        conflict_color_option: None,
        stashed_color_option: None,
        clean_color_option: None,
        ahead_color_option: None,
        behind_color_option: None,
    }
}

fn entry() -> EntryStatus {
    EntryStatus {
        index_new: false,
        index_modified: false,
        index_deleted: false,
        index_renamed: false,
        index_typechange: false,
        wt_new: false,
        wt_modified: false,
        wt_deleted: false,
        wt_renamed: false,
        wt_typechange: false,
        conflicted: false,
    }
}

fn inspect(findings: Vec<Finding>) -> Inspection {
    let mut ins = Inspection::new();
    for f in findings {
        ins.record(f);
    }
    ins
}

fn texts(segs: &[PromptSegment]) -> Vec<String> {
    segs.iter().map(|s| s.content.clone()).collect()
}

fn clean_repo_on(branch: &str, ahead_behind: Option<(usize, usize)>) -> Vec<Finding> {
    vec![
        Finding::Discovered(true),
        Finding::OriginUrl(Some("git@github.com:me/repo.git".to_string())),
        Finding::Head(HeadReading::Branch(Some(branch.to_string()))),
        Finding::Statuses(Some(Vec::new())),
        Finding::AheadBehind(ahead_behind),
        Finding::Stash(false),
    ]
}

#[test]
fn two_staged_files_on_main() {
    let mut staged = entry();
    staged.index_modified = true;
    let mut added = entry();
    added.index_new = true;
    let ins = inspect(vec![
        Finding::Discovered(true),
        Finding::OriginUrl(Some("https://github.com/me/repo.git".to_string())),
        Finding::Head(HeadReading::Branch(Some("main".to_string()))),
        Finding::Statuses(Some(vec![staged, added])),
        Finding::AheadBehind(Some((0, 0))),
        Finding::Stash(false),
    ]);
    assert_eq!(ins.pending(), Query::Finished);
    let segs = git_segments(ins.status(), &no_overrides());
    assert_eq!(texts(&segs), vec!["\u{eba1}", "\u{e725}", "main", "+2"]);
    assert_eq!(segs[0].color, Some(Color::Blue));
    assert_eq!(segs[1].color, Some(Color::White));
    assert_eq!(segs[2].color, Some(Color::Yellow));
    assert_eq!(segs[3].color, Some(Color::Green));
}

#[test]
fn clean_main_three_behind() {
    let ins = inspect(clean_repo_on("main", Some((0, 3))));
    let segs = git_segments(ins.status(), &no_overrides());
    assert_eq!(texts(&segs), vec!["\u{eba1}", "\u{e725}", "main", "\u{f00c}", "\u{2193}3"]);
    assert_eq!(segs[3].color, Some(Color::Green));
    assert_eq!(segs[4].color, Some(Color::Red));
}

#[test]
fn clean_and_ahead_together() {
    let ins = inspect(clean_repo_on("dev", Some((2, 0))));
    let segs = git_segments(ins.status(), &no_overrides());
    assert_eq!(texts(&segs), vec!["\u{eba1}", "\u{e725}", "dev", "\u{f00c}", "\u{2191}2"]);
    assert_eq!(segs[4].color, Some(Color::White));
}

#[test]
fn detached_head_shows_short_id() {
    let ins = inspect(vec![
        Finding::Discovered(true),
        Finding::OriginUrl(None),
        Finding::Head(HeadReading::Detached(Some("abcdef1234".to_string()))),
        Finding::Statuses(Some(Vec::new())),
        Finding::Stash(false),
    ]);
    assert_eq!(ins.pending(), Query::Finished);
    let segs = git_segments(ins.status(), &no_overrides());
    assert_eq!(texts(&segs), vec!["\u{f02a2}", "\u{e725}", ":abcdef1", "\u{f00c}"]);
    assert_eq!(segs[2].color, Some(Color::Red));
}

#[test]
fn detached_head_skips_ahead_behind_query() {
    let mut ins = Inspection::new();
    ins.record(Finding::Discovered(true));
    ins.record(Finding::OriginUrl(None));
    ins.record(Finding::Head(HeadReading::Detached(Some("0123456789abcdef".to_string()))));
    ins.record(Finding::Statuses(None));
    assert_eq!(ins.pending(), Query::Stash);
}

#[test]
fn outside_repository_gives_nothing() {
    let mut ins = Inspection::new();
    assert_eq!(ins.pending(), Query::Discover);
    ins.record(Finding::Discovered(false));
    assert_eq!(ins.pending(), Query::Finished);
    ins.record(Finding::Statuses(Some(vec![entry()])));
    ins.record(Finding::Stash(true));
    assert_eq!(ins.pending(), Query::Finished);
    assert!(!ins.status().is_repository);
    let segs = git_segments(ins.status(), &no_overrides());
    assert!(segs.is_empty());
}

#[test]
fn every_category_in_order() {
    let mut both = entry();
    both.index_modified = true;
    both.wt_modified = true;
    let mut new_file = entry();
    new_file.wt_new = true;
    let mut conflict = entry();
    conflict.conflicted = true;
    let ins = inspect(vec![
        Finding::Discovered(true),
        Finding::OriginUrl(Some("https://gitlab.com/g/p".to_string())),
        Finding::Head(HeadReading::Branch(Some("feature".to_string()))),
        Finding::Statuses(Some(vec![both, new_file, conflict, new_file])),
        Finding::AheadBehind(Some((4, 12))),
        Finding::Stash(true),
    ]);
    let segs = git_segments(ins.status(), &no_overrides());
    assert_eq!(
        texts(&segs),
        vec![
            "\u{f296}",
            "\u{e725}",
            "feature",
            "+1",
            "!1",
            "?2",
            "\u{f071}1",
            "\u{f01c}",
            "\u{2191}4",
            "\u{2193}12"
        ]
    );
    assert!(!texts(&segs).contains(&"\u{f00c}".to_string()));
}

#[test]
fn stash_alone_suppresses_clean_icon() {
    let mut findings = clean_repo_on("main", None);
    findings[5] = Finding::Stash(true);
    let segs = git_segments(inspect(findings).status(), &no_overrides());
    assert_eq!(texts(&segs), vec!["\u{eba1}", "\u{e725}", "main", "\u{f01c}"]);
}

#[test]
fn overrides_follow_precedence() {
    let mut o = no_overrides();
    o.default_color_option = Some(Color::Black);
    o.branch_color_option = Some(Color::Rgb(1, 2, 3));
    let segs = git_segments(inspect(clean_repo_on("main", None)).status(), &o);
    assert_eq!(segs[0].color, Some(Color::Black));
    assert_eq!(segs[1].color, Some(Color::Black));
    assert_eq!(segs[2].color, Some(Color::Rgb(1, 2, 3)));
    assert_eq!(segs[3].color, Some(Color::Black));
}

#[test]
fn aggregating_twice_gives_same_segments() {
    let first = git_segments(inspect(clean_repo_on("main", Some((1, 1)))).status(), &no_overrides());
    let second = git_segments(inspect(clean_repo_on("main", Some((1, 1)))).status(), &no_overrides());
    assert_eq!(texts(&first), texts(&second));
    let c1: Vec<Option<Color>> = first.iter().map(|s| s.color).collect();
    let c2: Vec<Option<Color>> = second.iter().map(|s| s.color).collect();
    assert_eq!(c1, c2);
}

#[test]
fn unborn_head_reads_empty() {
    let ins = inspect(vec![
        Finding::Discovered(true),
        Finding::OriginUrl(None),
        Finding::Head(HeadReading::Unresolved),
        Finding::Statuses(Some(Vec::new())),
        Finding::Stash(false),
    ]);
    let segs = git_segments(ins.status(), &no_overrides());
    assert_eq!(texts(&segs), vec!["\u{f02a2}", "\u{e725}", "empty", "\u{f00c}"]);
    assert_eq!(segs[2].color, Some(Color::Yellow));
}

#[test]
fn remote_classification() {
    assert_eq!(classify_remote(&Some("https://github.com/a/b".to_string())), RemoteHost::GitHub);
    assert_eq!(classify_remote(&Some("git@gitlab.com:a/b.git".to_string())), RemoteHost::GitLab);
    assert_eq!(classify_remote(&Some("https://example.org/a/b".to_string())), RemoteHost::Other);
    assert_eq!(classify_remote(&Some("https://githubXcom/a".to_string())), RemoteHost::Other);
    assert_eq!(classify_remote(&None), RemoteHost::Other);
}

#[test]
fn head_classification() {
    match describe_head(HeadReading::Detached(Some("abcdef1234".to_string()))) {
        HeadState::Detached(id) => assert_eq!(id, "abcdef1"),
        other => panic!("unexpected {:?}", other),
    }
    match describe_head(HeadReading::Detached(Some("abc".to_string()))) {
        HeadState::Detached(id) => assert_eq!(id, "abc"),
        other => panic!("unexpected {:?}", other),
    }
    match describe_head(HeadReading::Branch(None)) {
        HeadState::OnBranch(name) => assert_eq!(name, "unknown"),
        other => panic!("unexpected {:?}", other),
    }
    assert!(matches!(describe_head(HeadReading::Unresolved), HeadState::Unborn));
}

#[test]
fn tally_counts_partially_staged_twice() {
    let mut both = entry();
    both.index_renamed = true;
    both.wt_deleted = true;
    let mut typechange = entry();
    typechange.wt_typechange = true;
    let t = tally_entries(&vec![both, typechange, entry()]);
    assert_eq!(t.staged, 1);
    assert_eq!(t.unstaged, 2);
    assert_eq!(t.untracked, 0);
    assert_eq!(t.conflicts, 0);
}

#[test]
fn large_counts_render_in_decimal() {
    let status = RepositoryStatus {
        is_repository: true,
        remote_host: RemoteHost::Other,
        head: HeadState::OnBranch("main".to_string()),
        staged_count: 1234567,
        unstaged_count: 0,
        untracked_count: 10,
        conflict_count: 0,
        has_stash: false,
        ahead: 100,
        behind: 0,
    };
    let segs = git_segments(&status, &no_overrides());
    assert_eq!(texts(&segs), vec!["\u{f02a2}", "\u{e725}", "main", "+1234567", "?10", "\u{2191}100"]);
}
