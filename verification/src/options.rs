//! The choices a user can make: views, columns, filters, settings and commands.

use vstd::prelude::*;

use crate::repo::RepoStatus;
use crate::screen::Rect;

verus! {

/// What the right pane shows for the selected repo. The info block is an additive overlay
/// (`info_pinned`) drawn above whichever of these is active, not a separate variant.
#[derive(Debug, Clone, Copy, PartialEq, Eq, Structural)]
pub enum RightView {
    Log,
    Diff,
}

/// Which diff a dirty row's modal shows. (Stash rows ignore this.)
#[derive(Debug, Clone, Copy, PartialEq, Eq, Structural)]
pub enum DiffMode {
    /// Uncommitted work vs the branch's own HEAD (`git diff HEAD`).
    Uncommitted,
    /// Everything the branch changed since it forked from its base branch.
    BaseBranch,
}

/// Which panel of the diff modal the keys drive.
#[derive(Debug, Clone, Copy, PartialEq, Eq, Structural)]
pub enum DiffFocus {
    Files,
    Diff,
}

/// An optional list column the user can toggle on via the `t` leader.
#[derive(Debug, Clone, Copy, PartialEq, Eq, Structural)]
pub enum Column {
    AheadBehind,
    Dirty,
    LastCommit,
    Worktrees,
    Branches,
    Stashes,
}

/// Which optional list columns are enabled.
#[derive(Debug, Clone, Copy, PartialEq, Eq, Structural)]
pub struct ColumnFlags {
    pub ahead_behind: bool,
    pub dirty: bool,
    pub last_commit: bool,
    pub worktrees: bool,
    pub branches: bool,
    pub stashes: bool,
}

impl ColumnFlags {
    /// No optional column.
    pub open spec fn nothing() -> ColumnFlags {
        ColumnFlags {
            ahead_behind: false,
            dirty: false,
            last_commit: false,
            worktrees: false,
            branches: false,
            stashes: false,
        }
    }

    /// No optional column.
    pub fn none() -> (res: ColumnFlags)
        ensures
            res == Self::nothing(),
    {
        ColumnFlags {
            ahead_behind: false,
            dirty: false,
            last_commit: false,
            worktrees: false,
            branches: false,
            stashes: false,
        }
    }

    /// Whether a column is enabled.
    pub open spec fn shows(self, column: Column) -> bool {
        match column {
            Column::AheadBehind => self.ahead_behind,
            Column::Dirty => self.dirty,
            Column::LastCommit => self.last_commit,
            Column::Worktrees => self.worktrees,
            Column::Branches => self.branches,
            Column::Stashes => self.stashes,
        }
    }

    /// The flags with one column flipped.
    pub open spec fn flipped(self, column: Column) -> ColumnFlags {
        match column {
            Column::AheadBehind => ColumnFlags { ahead_behind: !self.ahead_behind, ..self },
            Column::Dirty => ColumnFlags { dirty: !self.dirty, ..self },
            Column::LastCommit => ColumnFlags { last_commit: !self.last_commit, ..self },
            Column::Worktrees => ColumnFlags { worktrees: !self.worktrees, ..self },
            Column::Branches => ColumnFlags { branches: !self.branches, ..self },
            Column::Stashes => ColumnFlags { stashes: !self.stashes, ..self },
        }
    }

    /// The flags with one column flipped.
    pub fn flip(self, column: Column) -> (res: ColumnFlags)
        ensures
            res == self.flipped(column),
    {
        let mut flags = self;
        match column {
            Column::AheadBehind => flags.ahead_behind = !flags.ahead_behind,
            Column::Dirty => flags.dirty = !flags.dirty,
            Column::LastCommit => flags.last_commit = !flags.last_commit,
            Column::Worktrees => flags.worktrees = !flags.worktrees,
            Column::Branches => flags.branches = !flags.branches,
            Column::Stashes => flags.stashes = !flags.stashes,
        }
        flags
    }

    /// A column is shown that needs a per-repo `git` call.
    pub open spec fn needs_git(self) -> bool {
        exists|column: Column| column !is Worktrees && self.shows(column)
    }

    /// Any column that needs a per-repo `git` call (drives the background details pass).
    pub fn any_git(&self) -> (res: bool)
        ensures
            res == self.needs_git(),
    {
        let res = self.ahead_behind || self.dirty || self.last_commit || self.branches
            || self.stashes;
        proof {
            if self.ahead_behind {
                assert(self.shows(Column::AheadBehind));
            }
            if self.dirty {
                assert(self.shows(Column::Dirty));
            }
            if self.last_commit {
                assert(self.shows(Column::LastCommit));
            }
            if self.branches {
                assert(self.shows(Column::Branches));
            }
            if self.stashes {
                assert(self.shows(Column::Stashes));
            }
        }
        res
    }
}

/// Flipping a column changes that column alone, and flipping it again restores the flags.
pub proof fn law_flipping_a_column(flags: ColumnFlags, column: Column, other: Column)
    ensures
        flags.flipped(column).shows(column) == !flags.shows(column),
        other != column ==> flags.flipped(column).shows(other) == flags.shows(other),
        flags.flipped(column).flipped(column) == flags,
{
}

/// An optional column of the repo page's branch table.
#[derive(Debug, Clone, Copy, PartialEq, Eq, Structural)]
pub enum RepoPageColumn {
    AheadBehind,
    Dirty,
    Added,
    Modified,
    Deleted,
    Total,
    Upstream,
    Base,
    Age,
    Subject,
}

/// Which optional columns of the repo page are enabled.
#[derive(Debug, Clone, Copy, PartialEq, Eq, Structural)]
pub struct RepoPageColumns {
    pub ahead_behind: bool,
    pub dirty: bool,
    pub added: bool,
    pub modified: bool,
    pub deleted: bool,
    pub total: bool,
    pub upstream: bool,
    pub base: bool,
    pub age: bool,
    pub subject: bool,
}

impl RepoPageColumns {
    /// Whether a column is enabled.
    pub open spec fn shows(self, column: RepoPageColumn) -> bool {
        match column {
            RepoPageColumn::AheadBehind => self.ahead_behind,
            RepoPageColumn::Dirty => self.dirty,
            RepoPageColumn::Added => self.added,
            RepoPageColumn::Modified => self.modified,
            RepoPageColumn::Deleted => self.deleted,
            RepoPageColumn::Total => self.total,
            RepoPageColumn::Upstream => self.upstream,
            RepoPageColumn::Base => self.base,
            RepoPageColumn::Age => self.age,
            RepoPageColumn::Subject => self.subject,
        }
    }

    /// The flags with one column flipped.
    pub open spec fn flipped(self, column: RepoPageColumn) -> RepoPageColumns {
        match column {
            RepoPageColumn::AheadBehind => RepoPageColumns {
                ahead_behind: !self.ahead_behind,
                ..self
            },
            RepoPageColumn::Dirty => RepoPageColumns { dirty: !self.dirty, ..self },
            RepoPageColumn::Added => RepoPageColumns { added: !self.added, ..self },
            RepoPageColumn::Modified => RepoPageColumns { modified: !self.modified, ..self },
            RepoPageColumn::Deleted => RepoPageColumns { deleted: !self.deleted, ..self },
            RepoPageColumn::Total => RepoPageColumns { total: !self.total, ..self },
            RepoPageColumn::Upstream => RepoPageColumns { upstream: !self.upstream, ..self },
            RepoPageColumn::Base => RepoPageColumns { base: !self.base, ..self },
            RepoPageColumn::Age => RepoPageColumns { age: !self.age, ..self },
            RepoPageColumn::Subject => RepoPageColumns { subject: !self.subject, ..self },
        }
    }

    /// The flags with one column flipped.
    pub fn flip(self, column: RepoPageColumn) -> (res: RepoPageColumns)
        ensures
            res == self.flipped(column),
    {
        let mut flags = self;
        match column {
            RepoPageColumn::AheadBehind => flags.ahead_behind = !flags.ahead_behind,
            RepoPageColumn::Dirty => flags.dirty = !flags.dirty,
            RepoPageColumn::Added => flags.added = !flags.added,
            RepoPageColumn::Modified => flags.modified = !flags.modified,
            RepoPageColumn::Deleted => flags.deleted = !flags.deleted,
            RepoPageColumn::Total => flags.total = !flags.total,
            RepoPageColumn::Upstream => flags.upstream = !flags.upstream,
            RepoPageColumn::Base => flags.base = !flags.base,
            RepoPageColumn::Age => flags.age = !flags.age,
            RepoPageColumn::Subject => flags.subject = !flags.subject,
        }
        flags
    }
}

/// Flipping a column of the repo page changes that column alone, and flipping it again
/// restores the flags.
pub proof fn law_flipping_a_page_column(
    flags: RepoPageColumns,
    column: RepoPageColumn,
    other: RepoPageColumn,
)
    ensures
        flags.flipped(column).shows(column) == !flags.shows(column),
        other != column ==> flags.flipped(column).shows(other) == flags.shows(other),
        flags.flipped(column).flipped(column) == flags,
{
}

/// What the list can be sorted by.
#[derive(Debug, Clone, Copy, PartialEq, Eq, Structural)]
pub enum SortColumn {
    Name,
    Branch,
    Status,
    AheadBehind,
    Dirty,
    LastCommit,
    Worktrees,
    Branches,
    Stashes,
}

/// Which way the list is sorted.
#[derive(Debug, Clone, Copy, PartialEq, Eq, Structural)]
pub enum SortDir {
    Asc,
    Desc,
}

impl SortColumn {
    /// The name of the column.
    pub open spec fn named(self) -> Seq<char> {
        match self {
            SortColumn::Name => "name"@,
            SortColumn::Branch => "branch"@,
            SortColumn::Status => "status"@,
            SortColumn::AheadBehind => "ahead/behind"@,
            SortColumn::Dirty => "dirty"@,
            SortColumn::LastCommit => "last-commit"@,
            SortColumn::Worktrees => "worktrees"@,
            SortColumn::Branches => "branches"@,
            SortColumn::Stashes => "stashes"@,
        }
    }

    /// The name of the column.
    pub fn label(self) -> (res: &'static str)
        ensures
            res@ == self.named(),
    {
        match self {
            SortColumn::Name => "name",
            SortColumn::Branch => "branch",
            SortColumn::Status => "status",
            SortColumn::AheadBehind => "ahead/behind",
            SortColumn::Dirty => "dirty",
            SortColumn::LastCommit => "last-commit",
            SortColumn::Worktrees => "worktrees",
            SortColumn::Branches => "branches",
            SortColumn::Stashes => "stashes",
        }
    }
}

impl SortDir {
    /// The arrow that shows the direction.
    pub open spec fn pointer(self) -> Seq<char> {
        match self {
            SortDir::Asc => "▲"@,
            SortDir::Desc => "▼"@,
        }
    }

    /// The arrow that shows the direction.
    pub fn arrow(self) -> (res: &'static str)
        ensures
            res@ == self.pointer(),
    {
        match self {
            SortDir::Asc => "▲",
            SortDir::Desc => "▼",
        }
    }

    /// The other direction.
    pub open spec fn reversed(self) -> SortDir {
        match self {
            SortDir::Asc => SortDir::Desc,
            SortDir::Desc => SortDir::Asc,
        }
    }

    /// The other direction.
    pub fn flip(self) -> (res: SortDir)
        ensures
            res == self.reversed(),
    {
        match self {
            SortDir::Asc => SortDir::Desc,
            SortDir::Desc => SortDir::Asc,
        }
    }
}

/// A pending two-key chord: the next key picks a column, a filter, a sort column, a view or
/// a fold operation.
#[derive(Debug, Clone, Copy, PartialEq, Eq, Structural)]
pub enum Leader {
    Toggle,
    Filter,
    Sort,
    View,
    Fold,
}

/// Filter the repo list by pull outcome. Applied on top of the `/` name filter.
#[derive(Debug, Clone, Copy, PartialEq, Eq, Structural)]
pub enum StatusFilter {
    All,
    Updated,
    UpToDate,
    Skipped,
    Failed,
    /// Failed or skipped — the repos that need attention.
    Issues,
}

impl StatusFilter {
    /// Whether a repo with `status` passes this filter.
    pub open spec fn admits(self, status: RepoStatus) -> bool {
        match self {
            StatusFilter::All => true,
            StatusFilter::Updated => status is Updated,
            StatusFilter::UpToDate => status is UpToDate,
            StatusFilter::Skipped => status is Skipped,
            StatusFilter::Failed => status is Failed,
            StatusFilter::Issues => status.retryable(),
        }
    }

    /// The tag of an active filter.
    pub open spec fn label(self) -> Option<Seq<char>> {
        match self {
            StatusFilter::All => None,
            StatusFilter::Updated => Some("updated"@),
            StatusFilter::UpToDate => Some("up-to-date"@),
            StatusFilter::Skipped => Some("skipped"@),
            StatusFilter::Failed => Some("failed"@),
            StatusFilter::Issues => Some("issues"@),
        }
    }

    /// Whether a repo with `status` passes this filter.
    pub fn matches(&self, status: &RepoStatus) -> (res: bool)
        ensures
            res == self.admits(*status),
            *self is All ==> res,
            *self is Updated ==> res == (*status is Updated),
            *self is UpToDate ==> res == (*status is UpToDate),
            *self is Skipped ==> res == (*status is Skipped),
            *self is Failed ==> res == (*status is Failed),
            *self is Issues ==> res == (*status is Failed || *status is Skipped),
    {
        match self {
            StatusFilter::All => true,
            StatusFilter::Updated => matches!(status, RepoStatus::Updated),
            StatusFilter::UpToDate => matches!(status, RepoStatus::UpToDate),
            StatusFilter::Skipped => matches!(status, RepoStatus::Skipped),
            StatusFilter::Failed => matches!(status, RepoStatus::Failed),
            StatusFilter::Issues => status.is_retryable(),
        }
    }

    /// Short tag shown in the status bar when the filter is active (None for All).
    pub fn tag(&self) -> (res: Option<&'static str>)
        ensures
            match res {
                Some(tag) => self.label() == Some(tag@),
                None => self.label() is None,
            },
    {
        match self {
            StatusFilter::All => None,
            StatusFilter::Updated => Some("updated"),
            StatusFilter::UpToDate => Some("up-to-date"),
            StatusFilter::Skipped => Some("skipped"),
            StatusFilter::Failed => Some("failed"),
            StatusFilter::Issues => Some("issues"),
        }
    }
}

/// The `Issues` filter admits what the `Failed` and the `Skipped` filter admit, and every
/// filter admits only what `All` admits.
pub proof fn law_issues_are_failed_or_skipped(filter: StatusFilter, status: RepoStatus)
    ensures
        StatusFilter::Issues.admits(status) <==> (StatusFilter::Failed.admits(status)
            || StatusFilter::Skipped.admits(status)),
        filter.admits(status) ==> StatusFilter::All.admits(status),
{
}

/// Each filter admits the statuses that it is named for, and no others.
pub proof fn law_filters_admit_what_they_name(status: RepoStatus)
    ensures
        StatusFilter::All.admits(status),
        StatusFilter::Updated.admits(status) <==> status is Updated,
        StatusFilter::UpToDate.admits(status) <==> status is UpToDate,
        StatusFilter::Skipped.admits(status) <==> status is Skipped,
        StatusFilter::Failed.admits(status) <==> status is Failed,
        StatusFilter::Issues.admits(status) <==> (status is Failed || status is Skipped),
        StatusFilter::All.label() is None,
        StatusFilter::Updated.label() == Some("updated"@),
        StatusFilter::UpToDate.label() == Some("up-to-date"@),
        StatusFilter::Skipped.label() == Some("skipped"@),
        StatusFilter::Failed.label() == Some("failed"@),
        StatusFilter::Issues.label() == Some("issues"@),
{
}

/// Which palette the screen is painted with.
#[derive(Debug, Clone, Copy, PartialEq, Eq, Structural)]
pub enum Theme {
    Auto,
    Dark,
    Light,
}

/// How strong the surface tones are.
#[derive(Debug, Clone, Copy, PartialEq, Eq, Structural)]
pub enum Background {
    Normal,
    Soft,
    /// The terminal's own background.
    Terminal,
}

/// How strong text and accents stand out.
#[derive(Debug, Clone, Copy, PartialEq, Eq, Structural)]
pub enum Contrast {
    Normal,
    Soft,
}

/// The background level of kept preferences. Those from before the two levels were apart tell
/// only the contrast, which then holds for both.
pub open spec fn kept_background(background: Option<Background>, contrast: Contrast) -> Background {
    match background {
        Some(background) => background,
        None => match contrast {
            Contrast::Normal => Background::Normal,
            Contrast::Soft => Background::Soft,
        },
    }
}

/// The background level of kept preferences.
pub fn restored_background(background: Option<Background>, contrast: Contrast) -> (res: Background)
    ensures
        res == kept_background(background, contrast),
{
    match background {
        Some(background) => background,
        None => match contrast {
            Contrast::Normal => Background::Normal,
            Contrast::Soft => Background::Soft,
        },
    }
}

/// A tab of the help modal.
#[derive(Debug, Clone, Copy, PartialEq, Eq, Structural)]
pub enum HelpTab {
    Hotkeys,
    Cli,
    Legend,
    About,
}

impl HelpTab {
    /// The tab after this one; the first follows the last.
    pub open spec fn following(self) -> HelpTab {
        match self {
            HelpTab::Hotkeys => HelpTab::Cli,
            HelpTab::Cli => HelpTab::Legend,
            HelpTab::Legend => HelpTab::About,
            HelpTab::About => HelpTab::Hotkeys,
        }
    }

    /// The tab before this one; the last precedes the first.
    pub open spec fn preceding(self) -> HelpTab {
        match self {
            HelpTab::Hotkeys => HelpTab::About,
            HelpTab::Cli => HelpTab::Hotkeys,
            HelpTab::Legend => HelpTab::Cli,
            HelpTab::About => HelpTab::Legend,
        }
    }

    /// The tab after this one; the first follows the last.
    pub fn next(self) -> (res: HelpTab)
        ensures
            res == self.following(),
    {
        match self {
            HelpTab::Hotkeys => HelpTab::Cli,
            HelpTab::Cli => HelpTab::Legend,
            HelpTab::Legend => HelpTab::About,
            HelpTab::About => HelpTab::Hotkeys,
        }
    }

    /// The tab before this one; the last precedes the first.
    pub fn prev(self) -> (res: HelpTab)
        ensures
            res == self.preceding(),
    {
        match self {
            HelpTab::Hotkeys => HelpTab::About,
            HelpTab::Cli => HelpTab::Hotkeys,
            HelpTab::Legend => HelpTab::Cli,
            HelpTab::About => HelpTab::Legend,
        }
    }
}

/// Going to the next help tab and back leads nowhere else, and four steps go round.
pub proof fn law_help_tabs_go_round(tab: HelpTab)
    ensures
        tab.following().preceding() == tab,
        tab.preceding().following() == tab,
        tab.following().following().following().following() == tab,
{
}

/// A command dispatchable by key OR by clicking its status-bar hint.
#[derive(Debug, Clone, Copy, PartialEq, Eq, Structural)]
pub enum Command {
    Retry,
    RetryAll,
    Refetch,
    RefetchAll,
    Info,
    Help,
    OpenPage,
    ToggleLeader,
    ToggleColumn(Column),
    FilterLeader,
    SetFilter(StatusFilter),
    SortLeader,
    SetSort(SortColumn),
    LeaderCancel,
    FlipSort,
    NameFilter,
    ClearNameFilter,
    ResultOverlay,
    FocusToggle,
    SplitNarrow,
    SplitWiden,
    GroupingToggle,
    TreeToggle,
    FoldCollapseAll,
    FoldExpandAll,
    FoldExpandSubtree,
    ToggleGroupCollapsed(usize),
    DiffView,
    Claude,
    Lazygit,
    OpenRemote,
    CopyPath,
    CopyRemote,
    Settings,
    ShowBuildInfo,
    Quit,
}

/// A mouse-clickable command region in the status bar (rebuilt each render).
#[derive(Debug, Clone, Copy, PartialEq, Eq, Structural)]
pub struct ClickRegion {
    pub row: u16,
    pub col_start: u16,
    pub col_end: u16,
    pub command: Command,
}

/// Which scrollable panel a scrollbar belongs to.
#[derive(Debug, Clone, Copy, PartialEq, Eq, Structural)]
pub enum ScrollKind {
    Preview,
    DiffFiles,
    DiffBody,
    Help,
    RepoPage,
}

/// A scrollbar that only shows where its content stands: its track and what it scrolls over.
#[derive(Debug, Clone, Copy, PartialEq, Eq, Structural)]
pub struct Gauge {
    pub track: Rect,
    pub total: usize,
    pub viewport: usize,
}

/// A scrollbar on the screen: its track and what it scrolls over.
#[derive(Debug, Clone, Copy, PartialEq, Eq, Structural)]
pub struct ScrollHit {
    pub kind: ScrollKind,
    pub track: Rect,
    pub total: usize,
    pub viewport: usize,
}

/// Each filter is shown by its own name, and the one that admits all by none.
pub proof fn law_names_of_filters()
    ensures
        StatusFilter::All.label() is None,
        StatusFilter::Updated.label() == Some("updated"@),
        StatusFilter::UpToDate.label() == Some("up-to-date"@),
        StatusFilter::Skipped.label() == Some("skipped"@),
        StatusFilter::Failed.label() == Some("failed"@),
        StatusFilter::Issues.label() == Some("issues"@),
{
}

/// Each column that can be sorted by has its own name.
pub proof fn law_names_of_sort_columns()
    ensures
        SortColumn::Name.named() == "name"@,
        SortColumn::Branch.named() == "branch"@,
        SortColumn::Status.named() == "status"@,
        SortColumn::AheadBehind.named() == "ahead/behind"@,
        SortColumn::Dirty.named() == "dirty"@,
        SortColumn::LastCommit.named() == "last-commit"@,
        SortColumn::Worktrees.named() == "worktrees"@,
        SortColumn::Branches.named() == "branches"@,
        SortColumn::Stashes.named() == "stashes"@,
        SortDir::Asc.pointer() == "▲"@ && SortDir::Desc.pointer() == "▼"@,
        SortDir::Asc.reversed() is Desc && SortDir::Desc.reversed() is Asc,
{
}

/// Every column but the worktrees is filled from git.
pub proof fn law_columns_that_need_git(flags: ColumnFlags)
    ensures
        flags.needs_git() <==> flags.ahead_behind || flags.dirty || flags.last_commit
            || flags.branches || flags.stashes,
{
    assert(flags.shows(Column::AheadBehind) == flags.ahead_behind);
    assert(flags.shows(Column::Dirty) == flags.dirty);
    assert(flags.shows(Column::LastCommit) == flags.last_commit);
    assert(flags.shows(Column::Branches) == flags.branches);
    assert(flags.shows(Column::Stashes) == flags.stashes);
    if flags.needs_git() {
        let column = choose|column: Column| column !is Worktrees && flags.shows(column);
        assert(column !is Worktrees && flags.shows(column));
    }
}

/// Which flag a column stands for.
pub proof fn law_flags_of_columns(flags: ColumnFlags, page: RepoPageColumns)
    ensures
        flags.shows(Column::AheadBehind) == flags.ahead_behind,
        flags.shows(Column::Dirty) == flags.dirty,
        flags.shows(Column::LastCommit) == flags.last_commit,
        flags.shows(Column::Worktrees) == flags.worktrees,
        flags.shows(Column::Branches) == flags.branches,
        flags.shows(Column::Stashes) == flags.stashes,
        page.shows(RepoPageColumn::AheadBehind) == page.ahead_behind,
        page.shows(RepoPageColumn::Dirty) == page.dirty,
        page.shows(RepoPageColumn::Added) == page.added,
        page.shows(RepoPageColumn::Modified) == page.modified,
        page.shows(RepoPageColumn::Deleted) == page.deleted,
        page.shows(RepoPageColumn::Total) == page.total,
        page.shows(RepoPageColumn::Upstream) == page.upstream,
        page.shows(RepoPageColumn::Base) == page.base,
        page.shows(RepoPageColumn::Age) == page.age,
        page.shows(RepoPageColumn::Subject) == page.subject,
{
}

/// A background that was never chosen goes with the contrast.
pub proof fn law_background_goes_with_contrast(background: Background, contrast: Contrast)
    ensures
        kept_background(Some(background), contrast) == background,
        kept_background(None, Contrast::Normal) is Normal,
        kept_background(None, Contrast::Soft) is Soft,
{
}

/// The order of the help tabs.
pub proof fn law_order_of_help_tabs()
    ensures
        HelpTab::Hotkeys.following() is Cli,
        HelpTab::Cli.following() is Legend,
        HelpTab::Legend.following() is About,
        HelpTab::About.following() is Hotkeys,
{
}

} // verus!
