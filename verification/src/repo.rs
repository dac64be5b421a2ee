//! What is known of one repository: its pull status, log, details and page data.

use std::collections::VecDeque;
use vstd::prelude::*;

verus! {

/// Maximum lines in the per-repo ring buffer.
pub const RING_BUFFER_CAPACITY: usize = 10_000;

/// Where a repo's pull stands.
#[derive(Debug, Clone, Copy, PartialEq, Eq, Structural)]
pub enum RepoStatus {
    Queued,
    Running { pid: u32 },
    UpToDate,
    Updated,
    /// The branch tracks nothing that could be pulled.
    NoUpstream,
    Skipped,
    /// The remote limits the rate; the pull is tried again later.
    Throttled,
    Failed,
}

impl RepoStatus {
    /// The pull is over.
    pub open spec fn terminal(self) -> bool {
        self is UpToDate || self is Updated || self is NoUpstream || self is Skipped
            || self is Failed
    }

    /// The repo has an issue worth retrying.
    pub open spec fn retryable(self) -> bool {
        self is Failed || self is Skipped
    }

    /// The status without the process that runs.
    pub open spec fn kind(self) -> RepoStatus {
        match self {
            RepoStatus::Running { pid } => RepoStatus::Running { pid: 0 },
            other => other,
        }
    }

    /// The status without the process that runs.
    pub fn kind_of(&self) -> (res: RepoStatus)
        ensures
            res == self.kind(),
    {
        match *self {
            RepoStatus::Running { .. } => RepoStatus::Running { pid: 0 },
            other => other,
        }
    }

    /// The pull is over.
    pub fn is_terminal(&self) -> (res: bool)
        ensures
            res == self.terminal(),
    {
        match self {
            RepoStatus::UpToDate => true,
            RepoStatus::Updated => true,
            RepoStatus::NoUpstream => true,
            RepoStatus::Skipped => true,
            RepoStatus::Failed => true,
            _ => false,
        }
    }

    /// The pull failed.
    pub fn is_failed(&self) -> (res: bool)
        ensures
            res == (self is Failed),
    {
        match self {
            RepoStatus::Failed => true,
            _ => false,
        }
    }

    /// A repo "has an issue" worth retrying: it failed, or was skipped (dirty).
    pub fn is_retryable(&self) -> (res: bool)
        ensures
            res == self.retryable(),
    {
        match self {
            RepoStatus::Failed => true,
            RepoStatus::Skipped => true,
            _ => false,
        }
    }
}

/// What can be retried can also be fetched again.
pub proof fn law_retryable_is_terminal(status: RepoStatus)
    ensures
        status.retryable() ==> status.terminal(),
{
}

/// Extra per-repo facts fetched lazily for the info panel (one git call each).
#[derive(Debug, Clone)]
pub struct RepoDetails {
    /// Commits ahead/behind upstream; None when there's no upstream.
    pub ahead: Option<u32>,
    pub behind: Option<u32>,
    pub dirty_count: u32,
    pub stash_count: u32,
    /// Local branches excluding `main`/`dev`.
    pub branch_count: u32,
    pub commit_hash: String,
    pub commit_subject: String,
    pub commit_author: String,
    pub commit_rel_date: String,
}

/// How many files a branch adds, modifies and deletes against its base.
#[derive(Debug, Clone, Copy, PartialEq, Eq, Structural)]
pub struct BranchStats {
    pub added: u32,
    pub modified: u32,
    pub deleted: u32,
}

impl BranchStats {
    /// The number of changed files, as far as it can be counted.
    pub open spec fn sum(self) -> nat {
        let sum = self.added as nat + self.modified as nat + self.deleted as nat;
        if sum <= u32::MAX {
            sum
        } else {
            u32::MAX as nat
        }
    }

    /// The number of changed files, as far as it can be counted.
    pub fn total(&self) -> (res: u32)
        ensures
            res == self.sum(),
    {
        let sum: u64 = self.added as u64 + self.modified as u64 + self.deleted as u64;
        if sum <= u32::MAX as u64 {
            sum as u32
        } else {
            u32::MAX
        }
    }
}

/// One local branch on the repo page.
#[derive(Debug, Clone)]
pub struct BranchInfo {
    pub name: String,
    pub is_head: bool,
    pub upstream: Option<String>,
    pub ahead: Option<u32>,
    pub behind: Option<u32>,
    pub last_commit_rel: String,
    pub subject: String,
    /// Changes against the base branch; None until they are counted.
    pub stats: Option<BranchStats>,
    /// The branch that the stats compare against.
    pub base: Option<String>,
    /// The base was picked by hand.
    pub base_is_override: bool,
    /// Uncommitted files.
    pub dirty_count: u32,
    /// Abbreviated hash of the commit where the branch left its base.
    pub merge_base_short: Option<String>,
    pub commit_sha: String,
    pub author: String,
}

impl BranchInfo {
    /// Not the current branch, and without unpushed commits.
    pub open spec fn may_delete(self) -> bool {
        !self.is_head && (self.ahead is None || self.ahead == Some(0u32))
    }

    /// Deletable from the UI: not the current branch, and no unpushed commits (ahead 0 or
    /// no upstream). `git branch -d` (merged-only) is the final safety net.
    pub fn deletable(&self) -> (res: bool)
        ensures
            res == self.may_delete(),
    {
        !self.is_head && match self.ahead {
            None => true,
            Some(ahead) => ahead == 0,
        }
    }
}

/// One worktree on the repo page.
#[derive(Debug, Clone)]
pub struct WorktreeInfo {
    pub branch: String,
    pub path: String,
}

impl DeepView for WorktreeInfo {
    type V = (Seq<char>, Seq<char>);

    open spec fn deep_view(&self) -> (Seq<char>, Seq<char>) {
        (self.branch@, self.path@)
    }
}

/// One entry from `git stash list`.
#[derive(Debug, Clone)]
pub struct StashInfo {
    pub index: usize,
    pub label: String,
}

impl DeepView for StashInfo {
    type V = (usize, Seq<char>);

    open spec fn deep_view(&self) -> (usize, Seq<char>) {
        (self.index, self.label@)
    }
}

/// Data backing the dedicated repo page (branches + worktrees + fetch state).
#[derive(Debug, Clone)]
pub struct RepoPageData {
    pub branches: Vec<BranchInfo>,
    pub worktrees: Vec<WorktreeInfo>,
    pub stashes: Vec<StashInfo>,
    /// Main worktree has uncommitted changes (marks the HEAD branch row as diff-able).
    pub head_dirty: bool,
    /// Worktree paths with uncommitted changes (mark those rows as diff-able).
    pub dirty_worktrees: Vec<String>,
    /// True once `git fetch` finished (false during the instant pre-fetch phase).
    pub fetched: bool,
    pub fetch_error: Option<String>,
    /// The branch that the repo's branches are compared against.
    pub base_branch: Option<String>,
}

/// Ring buffer capped at `RING_BUFFER_CAPACITY` lines.
#[derive(Debug)]
pub struct LogBuffer {
    lines: VecDeque<String>,
}

/// The characters of each text of a list.
pub open spec fn texts(lines: Seq<String>) -> Seq<Seq<char>> {
    Seq::new(lines.len(), |i: int| lines[i]@)
}

impl View for LogBuffer {
    type V = Seq<Seq<char>>;

    closed spec fn view(&self) -> Seq<Seq<char>> {
        texts(self.lines@)
    }
}

impl LogBuffer {
    #[verifier::type_invariant]
    spec fn within_capacity(self) -> bool {
        self.lines@.len() <= RING_BUFFER_CAPACITY
    }

    /// A buffer without lines.
    pub fn new() -> (res: LogBuffer)
        ensures
            res@ == Seq::<Seq<char>>::empty(),
    {
        let res = LogBuffer { lines: VecDeque::new() };
        assert(res@ =~= Seq::<Seq<char>>::empty());
        res
    }

    /// Appends a line; the oldest one makes room when the buffer is full.
    pub fn push(&mut self, line: String)
        ensures
            final(self)@ == logged(old(self)@, line@),
            final(self)@.len() <= RING_BUFFER_CAPACITY,
    {
        proof {
            use_type_invariant(&*self);
        }
        let ghost before = self@;
        let mut lines: VecDeque<String> = VecDeque::new();
        std::mem::swap(&mut lines, &mut self.lines);
        if lines.len() >= RING_BUFFER_CAPACITY {
            lines.pop_front();
        }
        lines.push_back(line);
        self.lines = lines;
        assert(self@ =~= logged(before, line@));
    }

    /// The lines, oldest first.
    pub fn lines(&self) -> (res: &VecDeque<String>)
        ensures
            texts(res@) == self@,
            res@.len() <= RING_BUFFER_CAPACITY,
    {
        proof {
            use_type_invariant(self);
        }
        &self.lines
    }

    /// Drops every line.
    pub fn clear(&mut self)
        ensures
            final(self)@ == Seq::<Seq<char>>::empty(),
    {
        self.lines = VecDeque::new();
        assert(self@ =~= Seq::<Seq<char>>::empty());
    }
}

/// A log after one more line: the oldest line makes room in a full one.
pub open spec fn logged(lines: Seq<Seq<char>>, line: Seq<char>) -> Seq<Seq<char>> {
    if lines.len() >= RING_BUFFER_CAPACITY {
        lines.skip(1).push(line)
    } else {
        lines.push(line)
    }
}

/// A log after several more lines.
pub open spec fn logged_all(lines: Seq<Seq<char>>, more: Seq<Seq<char>>) -> Seq<Seq<char>>
    decreases more.len(),
{
    if more.len() == 0 {
        lines
    } else {
        logged(logged_all(lines, more.drop_last()), more.last())
    }
}

/// Whatever is logged, a log holds the newest lines of all that was written to it,
/// in order, and at most `RING_BUFFER_CAPACITY` of them.
pub proof fn law_log_keeps_the_newest(lines: Seq<Seq<char>>, more: Seq<Seq<char>>)
    requires
        lines.len() <= RING_BUFFER_CAPACITY,
    ensures
        logged_all(lines, more).len() <= RING_BUFFER_CAPACITY,
        ({
            let written = lines + more;
            let kept = if written.len() < RING_BUFFER_CAPACITY {
                written.len() as int
            } else {
                RING_BUFFER_CAPACITY as int
            };
            logged_all(lines, more) == written.skip(written.len() - kept)
        }),
    decreases more.len(),
{
    let written = lines + more;
    if more.len() == 0 {
        assert(written =~= lines);
        assert(written.skip(0) =~= written);
    } else {
        law_log_keeps_the_newest(lines, more.drop_last());
        let before = lines + more.drop_last();
        assert(written =~= before.push(more.last()));
        let kept = if written.len() < RING_BUFFER_CAPACITY {
            written.len() as int
        } else {
            RING_BUFFER_CAPACITY as int
        };
        assert(logged_all(lines, more) =~= written.skip(written.len() - kept));
    }
}

/// The cells of a repo's row that changed in a refetch.
#[derive(Debug, Clone, Copy, PartialEq, Eq, Structural)]
pub struct Flash {
    pub status: bool,
    pub ahead_behind: bool,
    pub dirty: bool,
    pub last_commit: bool,
    pub worktrees: bool,
    pub branches: bool,
    pub stashes: bool,
}

/// Nothing changed.
pub open spec fn no_flash() -> Flash {
    Flash {
        status: false,
        ahead_behind: false,
        dirty: false,
        last_commit: false,
        worktrees: false,
        branches: false,
        stashes: false,
    }
}

impl Flash {
    /// Nothing changed.
    pub fn none() -> (res: Flash)
        ensures
            res == no_flash(),
    {
        Flash {
            status: false,
            ahead_behind: false,
            dirty: false,
            last_commit: false,
            worktrees: false,
            branches: false,
            stashes: false,
        }
    }
}

/// One repository.
#[derive(Debug)]
pub struct RepoState {
    pub name: String,
    pub path: String,
    pub branch: Option<String>,
    /// Browsable https URL of the `origin` remote, discovered asynchronously.
    pub remote_url: Option<String>,
    pub status: RepoStatus,
    /// Log ring buffer (stdout + stderr from git pull).
    pub log: LogBuffer,
    /// Whether the preview pane should auto-scroll to bottom.
    pub auto_scroll: bool,
    /// Preview pane scroll offset (lines from top).
    pub preview_scroll: usize,
    /// Nanoseconds spent on this repo, set when a terminal status is assigned.
    pub elapsed: Option<u64>,
    /// Lazily-fetched info-panel details (last commit, ahead/behind, dirty/stash counts).
    pub details: Option<RepoDetails>,
    /// Guard so the details fetch is spawned at most once per repo.
    pub details_loading: bool,
    /// Transient diff-view buffer (filled lazily when the Diff view is opened).
    pub diff: Option<Vec<String>>,
    /// Dedicated repo-page data (branches + worktrees), filled lazily when the page opens.
    pub page: Option<RepoPageData>,
    /// Guard so the repo-page fetch is spawned at most once per open.
    pub page_loading: bool,
    /// True while a repo-page pull (`p`/`P`) is in flight, for the page spinner.
    pub pull_loading: bool,
    /// The cells that changed in the last refetch.
    pub flash: Flash,
    /// Those cells stand out at the moment.
    pub flash_on: bool,
}

impl RepoState {
    /// A repo that waits for its first pull.
    pub fn new(name: String, path: String) -> (res: RepoState)
        ensures
            res.log@ == Seq::<Seq<char>>::empty(),
            res == (RepoState {
                name,
                path,
                branch: None,
                remote_url: None,
                status: RepoStatus::Queued,
                log: res.log,
                auto_scroll: true,
                preview_scroll: 0,
                elapsed: None,
                details: None,
                details_loading: false,
                diff: None,
                page: None,
                page_loading: false,
                pull_loading: false,
                flash: no_flash(),
                flash_on: false,
            }),
    {
        RepoState {
            name,
            path,
            branch: None,
            remote_url: None,
            status: RepoStatus::Queued,
            log: LogBuffer::new(),
            auto_scroll: true,
            preview_scroll: 0,
            elapsed: None,
            details: None,
            details_loading: false,
            diff: None,
            page: None,
            page_loading: false,
            pull_loading: false,
            flash: Flash::none(),
            flash_on: false,
        }
    }
}

/// Worktree entry discovered from `<repo>.worktrees/<branch>/.git`.
#[derive(Debug, Clone)]
pub struct WorktreeEntry {
    pub repo: String,
    pub branch: String,
}

/// A repo is done when it was brought up to date, updated, skipped, failed, or has no upstream; it
/// is not while it waits, runs or is throttled. Only a failed and a skipped repo have an issue.
pub proof fn law_statuses(status: RepoStatus)
    ensures
        status is Queued || status is Running || status is Throttled <==> !status.terminal(),
        status is UpToDate || status is Updated || status is NoUpstream ==> status.terminal()
            && !status.retryable(),
        status is Skipped || status is Failed <==> status.retryable(),
{
}

/// A branch can be deleted exactly if it is not the current one and has no unpushed commits.
pub proof fn law_deletable(branch: BranchInfo)
    ensures
        branch.is_head ==> !branch.may_delete(),
        branch.ahead matches Some(n) && n > 0 ==> !branch.may_delete(),
        !branch.is_head && branch.ahead is None ==> branch.may_delete(),
        !branch.is_head && branch.ahead == Some(0u32) ==> branch.may_delete(),
{
}

/// The log keeps the last ten thousand lines, in their order.
pub proof fn law_log_holds_ten_thousand(lines: Seq<Seq<char>>, line: Seq<char>)
    requires
        lines.len() <= 10_000,
    ensures
        logged(lines, line).last() == line,
        lines.len() < 10_000 ==> logged(lines, line).drop_last() == lines,
        lines.len() == 10_000 ==> logged(lines, line).drop_last() == lines.drop_first(),
        logged(lines, line).len() <= 10_000,
{
    assert(lines.push(line).drop_last() =~= lines);
    assert(lines.skip(1).push(line).drop_last() =~= lines.drop_first());
}

} // verus!
