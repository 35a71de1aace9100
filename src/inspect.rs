//! The repository inspector. Reading a working tree is outside work: the
//! caller performs each query that an `Inspection` asks for and records
//! what it found. The inspection classifies those findings into a
//! `RepositoryStatus` snapshot and decides which query comes next.

use vstd::prelude::*;
use vstd::string::*;
use crate::text::{contains, contains_text};

verus! {

/// Where the `origin` remote is hosted.
#[derive(Debug, PartialEq, Eq, Structural, Clone, Copy)]
pub enum RemoteHost {
    GitHub,
    GitLab,
    Other,
}

/// What HEAD points at.
#[derive(Debug, Clone)]
pub enum HeadState {
    /// A named branch.
    OnBranch(String),
    /// A commit, by the first seven characters of its id.
    Detached(String),
    /// Nothing yet: a repository without commits.
    Unborn,
}

pub enum HeadView {
    OnBranch(Seq<char>),
    Detached(Seq<char>),
    Unborn,
}

impl View for HeadState {
    type V = HeadView;

    open spec fn view(&self) -> HeadView {
        match self {
            HeadState::OnBranch(name) => HeadView::OnBranch(name@),
            HeadState::Detached(id) => HeadView::Detached(id@),
            HeadState::Unborn => HeadView::Unborn,
        }
    }
}

/// The state of one file as the status query reports it.
#[derive(Debug, PartialEq, Eq, Structural, Clone, Copy)]
pub struct EntryStatus {
    pub index_new: bool,
    pub index_modified: bool,
    pub index_deleted: bool,
    pub index_renamed: bool,
    pub index_typechange: bool,
    pub wt_new: bool,
    pub wt_modified: bool,
    pub wt_deleted: bool,
    pub wt_renamed: bool,
    pub wt_typechange: bool,
    pub conflicted: bool,
}

/// The categories that file entries are counted in.
#[derive(Debug, PartialEq, Eq, Structural, Clone, Copy)]
pub enum Category {
    /// A change recorded in the index.
    Staged,
    /// A modification, deletion, rename or type change in the working tree.
    Unstaged,
    /// A new file not yet in the index.
    Untracked,
    /// An unmerged file.
    Conflicted,
}

/// Whether an entry counts in a category; one entry may count in several.
pub open spec fn in_category(e: EntryStatus, k: Category) -> bool {
    match k {
        Category::Staged => e.index_new || e.index_modified || e.index_deleted || e.index_renamed
            || e.index_typechange,
        Category::Unstaged => e.wt_modified || e.wt_deleted || e.wt_renamed || e.wt_typechange,
        Category::Untracked => e.wt_new,
        Category::Conflicted => e.conflicted,
    }
}

/// How many entries count in a category.
pub open spec fn count_in(es: Seq<EntryStatus>, k: Category) -> nat
    decreases es.len(),
{
    if es.len() == 0 {
        0
    } else {
        count_in(es.drop_last(), k) + if in_category(es.last(), k) {
            1nat
        } else {
            0nat
        }
    }
}

proof fn lemma_count_bounded(es: Seq<EntryStatus>, k: Category)
    ensures
        count_in(es, k) <= es.len(),
    decreases es.len(),
{
    if es.len() > 0 {
        lemma_count_bounded(es.drop_last(), k);
    }
}

/// The tallies of one status query.
#[derive(Debug, PartialEq, Eq, Structural, Clone, Copy)]
pub struct StatusTally {
    pub staged: usize,
    pub unstaged: usize,
    pub untracked: usize,
    pub conflicts: usize,
}

/// Counts the entries of each category.
pub fn tally_entries(entries: &Vec<EntryStatus>) -> (r: StatusTally)
    ensures
        r.staged == count_in(entries@, Category::Staged),
        r.unstaged == count_in(entries@, Category::Unstaged),
        r.untracked == count_in(entries@, Category::Untracked),
        r.conflicts == count_in(entries@, Category::Conflicted),
{
    let mut t = StatusTally { staged: 0, unstaged: 0, untracked: 0, conflicts: 0 };
    let mut i: usize = 0;
    while i < entries.len()
        invariant
            i <= entries@.len(),
            t.staged == count_in(entries@.subrange(0, i as int), Category::Staged),
            t.unstaged == count_in(entries@.subrange(0, i as int), Category::Unstaged),
            t.untracked == count_in(entries@.subrange(0, i as int), Category::Untracked),
            t.conflicts == count_in(entries@.subrange(0, i as int), Category::Conflicted),
        decreases entries@.len() - i,
    {
        let e = entries[i];
        let ghost before = entries@.subrange(0, i as int);
        let ghost after = entries@.subrange(0, i + 1);
        proof {
            assert(after.drop_last() =~= before);
            lemma_count_bounded(before, Category::Staged);
            lemma_count_bounded(before, Category::Unstaged);
            lemma_count_bounded(before, Category::Untracked);
            lemma_count_bounded(before, Category::Conflicted);
        }
        if e.index_new || e.index_modified || e.index_deleted || e.index_renamed
            || e.index_typechange {
            t.staged = t.staged + 1;
        }
        if e.wt_modified || e.wt_deleted || e.wt_renamed || e.wt_typechange {
            t.unstaged = t.unstaged + 1;
        }
        if e.wt_new {
            t.untracked = t.untracked + 1;
        }
        if e.conflicted {
            t.conflicts = t.conflicts + 1;
        }
        i = i + 1;
    }
    proof {
        assert(entries@.subrange(0, i as int) =~= entries@);
    }
    t
}

/// The host of a remote URL, by the host name that it mentions.
pub open spec fn host_of(url: Option<Seq<char>>) -> RemoteHost {
    match url {
        Some(u) => if contains(u, "github.com"@) {
            RemoteHost::GitHub
        } else if contains(u, "gitlab.com"@) {
            RemoteHost::GitLab
        } else {
            RemoteHost::Other
        },
        None => RemoteHost::Other,
    }
}

/// The view of an optional string.
pub open spec fn opt_view(s: Option<String>) -> Option<Seq<char>> {
    match s {
        Some(t) => Some(t@),
        None => None,
    }
}

/// Classifies the `origin` remote by its URL; no remote, or no readable
/// URL, is `Other`.
pub fn classify_remote(url: &Option<String>) -> (r: RemoteHost)
    ensures
        r == host_of(opt_view(*url)),
{
    match url {
        Some(u) => if contains_text(u.as_str(), "github.com") {
            RemoteHost::GitHub
        } else if contains_text(u.as_str(), "gitlab.com") {
            RemoteHost::GitLab
        } else {
            RemoteHost::Other
        },
        None => RemoteHost::Other,
    }
}


/// What reading HEAD gave.
#[derive(Debug, Clone)]
pub enum HeadReading {
    /// HEAD could not be resolved.
    Unresolved,
    /// HEAD is a branch, with its short name when that is readable.
    Branch(Option<String>),
    /// HEAD is not a branch, with the full id of its commit when it has one.
    Detached(Option<String>),
}

pub enum HeadReadingView {
    Unresolved,
    Branch(Option<Seq<char>>),
    Detached(Option<Seq<char>>),
}

impl View for HeadReading {
    type V = HeadReadingView;

    open spec fn view(&self) -> HeadReadingView {
        match self {
            HeadReading::Unresolved => HeadReadingView::Unresolved,
            HeadReading::Branch(name) => HeadReadingView::Branch(opt_view(*name)),
            HeadReading::Detached(id) => HeadReadingView::Detached(opt_view(*id)),
        }
    }
}

/// How many characters of a commit id a detached HEAD shows.
pub const SHORT_ID_LEN: usize = 7;

/// The first seven characters of a commit id, or all of a shorter one.
pub open spec fn short_id(id: Seq<char>) -> Seq<char> {
    if id.len() <= SHORT_ID_LEN {
        id
    } else {
        id.take(SHORT_ID_LEN as int)
    }
}

/// What HEAD is, from what reading it gave; a name or id that could not be
/// read shows as `unknown`.
pub open spec fn head_of(h: HeadReadingView) -> HeadView {
    match h {
        HeadReadingView::Unresolved => HeadView::Unborn,
        HeadReadingView::Branch(Some(name)) => HeadView::OnBranch(name),
        HeadReadingView::Branch(None) => HeadView::OnBranch("unknown"@),
        HeadReadingView::Detached(Some(id)) => HeadView::Detached(short_id(id)),
        HeadReadingView::Detached(None) => HeadView::Detached("unknown"@),
    }
}

/// The first seven characters of a commit id.
fn shorten_id(id: &str) -> (r: String)
    ensures
        r@ == short_id(id@),
{
    let n = id.unicode_len();
    if n <= SHORT_ID_LEN {
        String::from_str(id)
    } else {
        String::from_str(id.substring_char(0, SHORT_ID_LEN))
    }
}

/// Classifies HEAD.
pub fn describe_head(h: HeadReading) -> (r: HeadState)
    ensures
        r@ == head_of(h@),
{
    match h {
        HeadReading::Unresolved => HeadState::Unborn,
        HeadReading::Branch(Some(name)) => HeadState::OnBranch(name),
        HeadReading::Branch(None) => HeadState::OnBranch(String::from_str("unknown")),
        HeadReading::Detached(Some(id)) => HeadState::Detached(shorten_id(id.as_str())),
        HeadReading::Detached(None) => HeadState::Detached(String::from_str("unknown")),
    }
}

/// A point-in-time account of a working tree. When `is_repository` is
/// false the other fields carry no information.
#[derive(Debug, Clone)]
pub struct RepositoryStatus {
    pub is_repository: bool,
    pub remote_host: RemoteHost,
    pub head: HeadState,
    pub staged_count: usize,
    pub unstaged_count: usize,
    pub untracked_count: usize,
    pub conflict_count: usize,
    pub has_stash: bool,
    pub ahead: usize,
    pub behind: usize,
}

pub struct RepositoryView {
    pub is_repository: bool,
    pub remote_host: RemoteHost,
    pub head: HeadView,
    pub staged: nat,
    pub unstaged: nat,
    pub untracked: nat,
    pub conflicts: nat,
    pub has_stash: bool,
    pub ahead: nat,
    pub behind: nat,
}

impl View for RepositoryStatus {
    type V = RepositoryView;

    open spec fn view(&self) -> RepositoryView {
        RepositoryView {
            is_repository: self.is_repository,
            remote_host: self.remote_host,
            head: self.head@,
            staged: self.staged_count as nat,
            unstaged: self.unstaged_count as nat,
            untracked: self.untracked_count as nat,
            conflicts: self.conflict_count as nat,
            has_stash: self.has_stash,
            ahead: self.ahead as nat,
            behind: self.behind as nat,
        }
    }
}

/// The account of a directory that is no repository; it is also where an
/// inspection starts.
pub open spec fn blank_view() -> RepositoryView {
    RepositoryView {
        is_repository: false,
        remote_host: RemoteHost::Other,
        head: HeadView::Unborn,
        staged: 0,
        unstaged: 0,
        untracked: 0,
        conflicts: 0,
        has_stash: false,
        ahead: 0,
        behind: 0,
    }
}

/// The next piece of outside work an inspection needs.
#[derive(Debug, PartialEq, Eq, Structural, Clone, Copy)]
pub enum Query {
    /// Is the current directory inside a working tree?
    Discover,
    /// The URL of the `origin` remote.
    OriginUrl,
    /// What HEAD points at.
    Head,
    /// The status of every file, untracked ones included.
    Statuses,
    /// Commits on the branch and not on its upstream, and the reverse.
    AheadBehind,
    /// Whether any stash entry exists.
    Stash,
    /// Nothing more: the snapshot is complete.
    Finished,
}

/// What the caller found for a query. `None` stands for a query that
/// failed or found nothing, which leaves the category at its default.
#[derive(Debug, Clone)]
pub enum Finding {
    Discovered(bool),
    OriginUrl(Option<String>),
    Head(HeadReading),
    Statuses(Option<Vec<EntryStatus>>),
    AheadBehind(Option<(usize, usize)>),
    Stash(bool),
}

pub enum FindingView {
    Discovered(bool),
    OriginUrl(Option<Seq<char>>),
    Head(HeadReadingView),
    Statuses(Option<Seq<EntryStatus>>),
    AheadBehind(Option<(usize, usize)>),
    Stash(bool),
}

impl View for Finding {
    type V = FindingView;

    open spec fn view(&self) -> FindingView {
        match self {
            Finding::Discovered(b) => FindingView::Discovered(*b),
            Finding::OriginUrl(u) => FindingView::OriginUrl(opt_view(*u)),
            Finding::Head(h) => FindingView::Head(h@),
            Finding::Statuses(Some(es)) => FindingView::Statuses(Some(es@)),
            Finding::Statuses(None) => FindingView::Statuses(None),
            Finding::AheadBehind(ab) => FindingView::AheadBehind(*ab),
            Finding::Stash(b) => FindingView::Stash(*b),
        }
    }
}

/// One inspection of a working tree, from the first query to the snapshot.
#[derive(Debug, Clone)]
pub struct Inspection {
    pending: Query,
    status: RepositoryStatus,
}

pub struct InspectionView {
    pub pending: Query,
    pub status: RepositoryView,
}

impl View for Inspection {
    type V = InspectionView;

    closed spec fn view(&self) -> InspectionView {
        InspectionView { pending: self.pending, status: self.status@ }
    }
}

/// An inspection that has asked nothing yet.
pub open spec fn start() -> InspectionView {
    InspectionView { pending: Query::Discover, status: blank_view() }
}

/// How a finding moves an inspection on. Queries come in a fixed order:
/// discovery, remote, HEAD, file status, ahead/behind (only on a branch),
/// stash. Outside a repository the inspection ends at once. A finding that
/// does not answer the pending query changes nothing.
pub open spec fn step(s: InspectionView, f: FindingView) -> InspectionView {
    let st = s.status;
    match (s.pending, f) {
        (Query::Discover, FindingView::Discovered(found)) => if found {
            InspectionView {
                pending: Query::OriginUrl,
                status: RepositoryView { is_repository: true, ..st },
            }
        } else {
            InspectionView { pending: Query::Finished, status: st }
        },
        (Query::OriginUrl, FindingView::OriginUrl(url)) => InspectionView {
            pending: Query::Head,
            status: RepositoryView { remote_host: host_of(url), ..st },
        },
        (Query::Head, FindingView::Head(h)) => InspectionView {
            pending: Query::Statuses,
            status: RepositoryView { head: head_of(h), ..st },
        },
        (Query::Statuses, FindingView::Statuses(found)) => InspectionView {
            pending: if st.head is OnBranch {
                Query::AheadBehind
            } else {
                Query::Stash
            },
            status: match found {
                Some(es) => RepositoryView {
                    staged: count_in(es, Category::Staged),
                    unstaged: count_in(es, Category::Unstaged),
                    untracked: count_in(es, Category::Untracked),
                    conflicts: count_in(es, Category::Conflicted),
                    ..st
                },
                None => RepositoryView { staged: 0, unstaged: 0, untracked: 0, conflicts: 0, ..st },
            },
        },
        (Query::AheadBehind, FindingView::AheadBehind(found)) => InspectionView {
            pending: Query::Stash,
            status: match found {
                Some((a, b)) => RepositoryView { ahead: a as nat, behind: b as nat, ..st },
                None => RepositoryView { ahead: 0, behind: 0, ..st },
            },
        },
        (Query::Stash, FindingView::Stash(found)) => InspectionView {
            pending: Query::Finished,
            status: RepositoryView { has_stash: found, ..st },
        },
        _ => s,
    }
}

/// Whether a finding answers a query; nothing answers `Finished`.
pub open spec fn answers(q: Query, f: FindingView) -> bool {
    match (q, f) {
        (Query::Discover, FindingView::Discovered(_)) => true,
        (Query::OriginUrl, FindingView::OriginUrl(_)) => true,
        (Query::Head, FindingView::Head(_)) => true,
        (Query::Statuses, FindingView::Statuses(_)) => true,
        (Query::AheadBehind, FindingView::AheadBehind(_)) => true,
        (Query::Stash, FindingView::Stash(_)) => true,
        _ => false,
    }
}

/// How many queries can still come after `q`, itself included.
pub open spec fn queries_left(q: Query) -> nat {
    match q {
        Query::Discover => 6,
        Query::OriginUrl => 5,
        Query::Head => 4,
        Query::Statuses => 3,
        Query::AheadBehind => 2,
        Query::Stash => 1,
        Query::Finished => 0,
    }
}

/// Every answered query moves the inspection forward, so an inspection
/// asks at most six queries before its snapshot is complete.
pub proof fn lemma_each_answer_advances(s: InspectionView, f: FindingView)
    requires
        answers(s.pending, f),
    ensures
        queries_left(step(s, f).pending) < queries_left(s.pending),
{
}

/// Where an inspection stands after recording findings in order from the start.
pub open spec fn run(fs: Seq<FindingView>) -> InspectionView
    decreases fs.len(),
{
    if fs.len() == 0 {
        start()
    } else {
        step(run(fs.drop_last()), fs.last())
    }
}

impl Inspection {
    /// An inspection that has asked nothing yet; its first query is discovery.
    pub fn new() -> (r: Self)
        ensures
            r@ == start(),
    {
        Inspection {
            pending: Query::Discover,
            status: RepositoryStatus {
                is_repository: false,
                remote_host: RemoteHost::Other,
                head: HeadState::Unborn,
                staged_count: 0,
                unstaged_count: 0,
                untracked_count: 0,
                conflict_count: 0,
                has_stash: false,
                ahead: 0,
                behind: 0,
            },
        }
    }

    /// The query to perform next; `Finished` once the snapshot is complete.
    pub fn pending(&self) -> (r: Query)
        ensures
            r == self@.pending,
    {
        self.pending
    }

    /// The snapshot so far.
    pub fn status(&self) -> (r: &RepositoryStatus)
        ensures
            r@ == self@.status,
    {
        &self.status
    }

    /// Records what the pending query found.
    pub fn record(&mut self, finding: Finding)
        ensures
            final(self)@ == step(old(self)@, finding@),
    {
        match (self.pending, finding) {
            (Query::Discover, Finding::Discovered(found)) => {
                if found {
                    self.status.is_repository = true;
                    self.pending = Query::OriginUrl;
                } else {
                    self.pending = Query::Finished;
                }
            },
            (Query::OriginUrl, Finding::OriginUrl(url)) => {
                self.status.remote_host = classify_remote(&url);
                self.pending = Query::Head;
            },
            (Query::Head, Finding::Head(h)) => {
                self.status.head = describe_head(h);
                self.pending = Query::Statuses;
            },
            (Query::Statuses, Finding::Statuses(found)) => {
                match found {
                    Some(es) => {
                        let t = tally_entries(&es);
                        self.status.staged_count = t.staged;
                        self.status.unstaged_count = t.unstaged;
                        self.status.untracked_count = t.untracked;
                        self.status.conflict_count = t.conflicts;
                    },
                    None => {
                        self.status.staged_count = 0;
                        self.status.unstaged_count = 0;
                        self.status.untracked_count = 0;
                        self.status.conflict_count = 0;
                    },
                }
                self.pending = match self.status.head {
                    HeadState::OnBranch(_) => Query::AheadBehind,
                    _ => Query::Stash,
                };
            },
            (Query::AheadBehind, Finding::AheadBehind(found)) => {
                match found {
                    Some((a, b)) => {
                        self.status.ahead = a;
                        self.status.behind = b;
                    },
                    None => {
                        self.status.ahead = 0;
                        self.status.behind = 0;
                    },
                }
                self.pending = Query::Stash;
            },
            (Query::Stash, Finding::Stash(found)) => {
                self.status.has_stash = found;
                self.pending = Query::Finished;
            },
            _ => {},
        }
    }

    /// The snapshot; complete once `pending` is `Finished`.
    pub fn into_status(self) -> (r: RepositoryStatus)
        ensures
            r@ == self@.status,
    {
        self.status
    }
}

} // verus!
