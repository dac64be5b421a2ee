//! The state of the dashboard and the operations on it.

use vstd::prelude::*;

use crate::dialogs::{BasePicker, ConfirmDialog, DiffModal, InfoAction};
use crate::groups::Outline;
use crate::icons::{IconSet, IconStyle};
use crate::options::{
    Background, ClickRegion, ColumnFlags, Contrast, HelpTab, Leader, RepoPageColumn,
    RepoPageColumns, RightView, ScrollHit, ScrollKind, SortColumn, SortDir, StatusFilter, Theme,
};
use crate::repo::{RepoState, RepoStatus, WorktreeEntry};
use crate::rows::{
    last_stop, lemma_last_stop, lemma_lines_same, lemma_stops, next_stop, stop_from, stop_upto, ListRow,
};
use crate::screen::{Rect, Region};
use crate::text::{contains, has_text, lowercase, to_lower};

verus! {

/// The preferences that outlive a run.
#[derive(Debug, Clone, Copy, PartialEq, Eq, Structural)]
pub struct Prefs {
    /// Which optional list columns are enabled.
    pub columns: ColumnFlags,
    /// Whether a compact info section is pinned above the log/diff.
    pub info_pinned: bool,
    /// Draw 1-cell inner padding inside every bordered panel/modal.
    pub panel_padding: bool,
    /// Which glyph set to render (Unicode vs emoji).
    pub icon_style: IconStyle,
    pub theme: Theme,
    pub background: Background,
    pub contrast: Contrast,
    /// The list is shown in group sections.
    pub grouping_enabled: bool,
    /// The list is shown as a directory tree.
    pub tree_enabled: bool,
    pub sort_column: SortColumn,
    pub sort_dir: SortDir,
    /// The help tab shown last.
    pub help_tab: HelpTab,
    pub repo_page_columns: RepoPageColumns,
    /// Whether the repo page shows its info panel.
    pub repo_page_info: bool,
}

impl Prefs {
    /// The preferences of a first run: no optional list column, the Unicode glyphs, the theme
    /// of the terminal, the list sorted by name, all columns of the repo page.
    pub open spec fn initial() -> Prefs {
        Prefs {
            columns: ColumnFlags {
                ahead_behind: false,
                dirty: false,
                last_commit: false,
                worktrees: false,
                branches: false,
                stashes: false,
            },
            info_pinned: false,
            panel_padding: false,
            icon_style: IconStyle::Unicode,
            theme: Theme::Auto,
            background: Background::Normal,
            contrast: Contrast::Normal,
            grouping_enabled: false,
            tree_enabled: false,
            sort_column: SortColumn::Name,
            sort_dir: SortDir::Asc,
            help_tab: HelpTab::Hotkeys,
            repo_page_columns: RepoPageColumns {
                ahead_behind: true,
                dirty: true,
                added: true,
                modified: true,
                deleted: true,
                total: true,
                upstream: true,
                base: true,
                age: true,
                subject: true,
            },
            repo_page_info: false,
        }
    }

    /// The preferences of a first run.
    pub fn new() -> (res: Prefs)
        ensures
            res == Prefs::initial(),
    {
        Prefs {
            columns: ColumnFlags {
                ahead_behind: false,
                dirty: false,
                last_commit: false,
                worktrees: false,
                branches: false,
                stashes: false,
            },
            info_pinned: false,
            panel_padding: false,
            icon_style: IconStyle::Unicode,
            theme: Theme::Auto,
            background: Background::Normal,
            contrast: Contrast::Normal,
            grouping_enabled: false,
            tree_enabled: false,
            sort_column: SortColumn::Name,
            sort_dir: SortDir::Asc,
            help_tab: HelpTab::Hotkeys,
            repo_page_columns: RepoPageColumns {
                ahead_behind: true,
                dirty: true,
                added: true,
                modified: true,
                deleted: true,
                total: true,
                upstream: true,
                base: true,
                age: true,
                subject: true,
            },
            repo_page_info: false,
        }
    }
}

/// Where things stand on the screen, captured each render for hit-testing.
#[derive(Debug)]
pub struct Hits {
    /// Main content area (above the status bar).
    pub main_area: Rect,
    /// Left list pane.
    pub list_area: Rect,
    /// Right preview pane.
    pub preview_area: Rect,
    /// Column of the divider between the panes (= preview_area.x).
    pub divider_col: u16,
    /// Scroll offset of the list widget.
    pub list_offset: usize,
    /// Clickable command regions in the status bar.
    pub clickable: Vec<ClickRegion>,
    /// Clickable column headers of the list.
    pub headers: Vec<(Region, SortColumn)>,
    /// Clickable values of the info block.
    pub info: Vec<(Region, InfoAction)>,
    /// Lines and visible lines of the preview.
    pub preview_total: usize,
    pub preview_viewport: usize,
    /// Clickable links in the help modal: (absolute screen row, url).
    pub help_links: Vec<(u16, String)>,
    pub help_tabs: Vec<(Region, HelpTab)>,
    pub help_area: Rect,
    pub help_close: Option<Region>,
    /// Repo-page row hit map: (absolute screen row, selectable index).
    pub page_rows: Vec<(u16, usize)>,
    /// The `base` cells of the repo page, each with its selectable index.
    pub page_bases: Vec<(Region, usize)>,
    pub page_columns: Vec<(Region, RepoPageColumn)>,
    pub page_back: Option<Region>,
    pub diff_area: Rect,
    pub diff_close: Option<Region>,
    /// Visible line count of the diff modal's diff panel.
    pub diff_viewport: usize,
    /// Visible line count of the diff modal's file panel.
    pub diff_files_viewport: usize,
    /// Inner rect of the diff modal's file-list panel (mouse hit-testing + wheel routing).
    pub diff_files_area: Rect,
    /// Inner rect of the diff modal's diff panel (wheel routing).
    pub diff_body_area: Rect,
    pub diff_chips: Vec<(Region, Option<char>)>,
    pub confirm_area: Rect,
    pub confirm_yes: Option<Region>,
    pub confirm_no: Option<Region>,
    pub confirm_close: Option<Region>,
    pub settings_area: Rect,
    pub settings_close: Option<Region>,
    /// Settings rows and chips: (region, row, chip).
    pub settings: Vec<(Region, usize, Option<usize>)>,
    pub copy_area: Rect,
    pub copy_close: Option<Region>,
    pub copy_rows: Vec<(u16, usize)>,
    pub picker_area: Rect,
    pub picker_close: Option<Region>,
    pub picker_rows: Vec<(u16, usize)>,
    pub build_info_close: Option<Region>,
    pub build_info_reload: Option<Region>,
    pub update_close: Option<Region>,
    pub update_reload: Option<Region>,
    /// The scrollbars on the screen.
    pub scrollbars: Vec<ScrollHit>,
}

impl Hits {
    /// Nothing on the screen can be hit.
    pub open spec fn nothing(self) -> bool {
        let none = crate::screen::empty_rect();
        &&& self.main_area == none
        &&& self.list_area == none
        &&& self.preview_area == none
        &&& self.divider_col == 0
        &&& self.list_offset == 0
        &&& self.clickable@.len() == 0
        &&& self.headers@.len() == 0
        &&& self.info@.len() == 0
        &&& self.preview_total == 0
        &&& self.preview_viewport == 0
        &&& self.help_links@.len() == 0
        &&& self.help_tabs@.len() == 0
        &&& self.help_area == none
        &&& self.help_close is None
        &&& self.page_rows@.len() == 0
        &&& self.page_bases@.len() == 0
        &&& self.page_columns@.len() == 0
        &&& self.page_back is None
        &&& self.diff_area == none
        &&& self.diff_close is None
        &&& self.diff_viewport == 0
        &&& self.diff_files_viewport == 0
        &&& self.diff_files_area == none
        &&& self.diff_body_area == none
        &&& self.diff_chips@.len() == 0
        &&& self.confirm_area == none
        &&& self.confirm_yes is None
        &&& self.confirm_no is None
        &&& self.confirm_close is None
        &&& self.settings_area == none
        &&& self.settings_close is None
        &&& self.settings@.len() == 0
        &&& self.copy_area == none
        &&& self.copy_close is None
        &&& self.copy_rows@.len() == 0
        &&& self.picker_area == none
        &&& self.picker_close is None
        &&& self.picker_rows@.len() == 0
        &&& self.build_info_close is None
        &&& self.build_info_reload is None
        &&& self.update_close is None
        &&& self.update_reload is None
        &&& self.scrollbars@.len() == 0
    }

    /// Nothing on the screen can be hit.
    pub fn new() -> (res: Hits)
        ensures
            res.nothing(),
    {
        let none = Rect::empty();
        Hits {
            main_area: none,
            list_area: none,
            preview_area: none,
            divider_col: 0,
            list_offset: 0,
            clickable: Vec::new(),
            headers: Vec::new(),
            info: Vec::new(),
            preview_total: 0,
            preview_viewport: 0,
            help_links: Vec::new(),
            help_tabs: Vec::new(),
            help_area: none,
            help_close: None,
            page_rows: Vec::new(),
            page_bases: Vec::new(),
            page_columns: Vec::new(),
            page_back: None,
            diff_area: none,
            diff_close: None,
            diff_viewport: 0,
            diff_files_viewport: 0,
            diff_files_area: none,
            diff_body_area: none,
            diff_chips: Vec::new(),
            confirm_area: none,
            confirm_yes: None,
            confirm_no: None,
            confirm_close: None,
            settings_area: none,
            settings_close: None,
            settings: Vec::new(),
            copy_area: none,
            copy_close: None,
            copy_rows: Vec::new(),
            picker_area: none,
            picker_close: None,
            picker_rows: Vec::new(),
            build_info_close: None,
            build_info_reload: None,
            update_close: None,
            update_reload: None,
            scrollbars: Vec::new(),
        }
    }
}

/// How far the batch of pulls has come.
#[derive(Debug)]
pub struct Progress {
    /// Worktree entries (discovered asynchronously).
    pub worktrees: Vec<WorktreeEntry>,
    /// Worktree discovery complete?
    pub worktrees_done: bool,
    /// Repo discovery complete?
    pub discovery_done: bool,
    /// Nanoseconds that the batch took once everything finished; `None` while work is
    /// running. Restarts (back to `None`) on any re-run.
    pub finished_elapsed: Option<u64>,
    /// All pulls are done?
    pub all_done: bool,
    /// Number of jobs configured.
    pub max_jobs: usize,
    /// Whether the background "fetch details for all repos" pass has been spawned.
    pub details_pass_spawned: bool,
    /// The directory being scanned (for re-running worktree discovery on refetch).
    pub root_dir: String,
}

/// The dedicated repo page.
#[derive(Debug)]
pub struct PageState {
    /// When Some, the page is open for this absolute repo index.
    pub repo: Option<usize>,
    /// Selected row (index into the selectable branch/worktree/stash rows).
    pub selected: usize,
    /// The selection is still to be put on the current branch.
    pub focus_pending: bool,
    /// Scroll offset.
    pub scroll: usize,
    /// Transient banner (action result or error).
    pub message: Option<String>,
    /// Whether the column menu is open.
    pub toggle: bool,
}

/// The modals that may lie over the list or the repo page.
#[derive(Debug)]
pub struct Overlays {
    /// Active confirmation dialog, if any.
    pub confirm: Option<ConfirmDialog>,
    /// The copy menu's selected row, while it is open.
    pub copy_menu: Option<usize>,
    /// The base-branch picker, while it is open.
    pub base_picker: Option<BasePicker>,
    /// The 90% diff modal (stash diff or a dirty branch/worktree diff), if open.
    pub diff: Option<DiffModal>,
    /// Whether the help modal (`?`) is open.
    pub help: bool,
    /// Scroll offset within the help modal.
    pub help_scroll: usize,
    /// Whether the settings modal (`,`) is open.
    pub settings: bool,
    /// Selected row in the settings modal.
    pub settings_selected: usize,
    /// Whether the build-info modal is open.
    pub build_info: bool,
}

/// What the program reports on its own.
#[derive(Debug)]
pub struct Notices {
    /// A newer build lies on disk.
    pub update_available: bool,
    /// The notice of the newer build was closed.
    pub update_dismissed: bool,
    /// A short notice over the screen.
    pub toast: Option<String>,
    /// The terminal's background is dark.
    pub auto_dark: bool,
}

/// What is being dragged with the mouse.
#[derive(Debug, Clone, Copy, PartialEq, Eq, Structural)]
pub struct Drag {
    /// The divider between the panes.
    pub divider: bool,
    /// A scrollbar.
    pub scrollbar: Option<ScrollKind>,
}

/// The overall application state, shared between the worker tasks and the UI.
#[derive(Debug)]
pub struct AppState {
    /// Repos in alphabetical order.
    pub repos: Vec<RepoState>,
    /// Index of the selected item in the list (0 = first repo, repos.len() = Result).
    pub selected: usize,
    /// Whether the user has manually moved the selection (disables auto-select).
    pub user_navigated: bool,
    /// Whether focus is on the preview pane (for preview scroll keys).
    pub preview_focused: bool,
    /// Filter string (from `/` mode).
    pub filter: Option<String>,
    /// Status filter picked via the `f` leader (default: show all).
    pub status_filter: StatusFilter,
    /// Filter input mode active?
    pub filter_input_mode: bool,
    /// When true, the preview shows the Result summary regardless of selection.
    pub result_overlay: bool,
    /// What the right pane shows for the selected repo (log or diff).
    pub right_view: RightView,
    /// Fields of the info block that are shown in full.
    pub info_expanded: Vec<String>,
    /// A pending leader chord (e.g. `t` awaiting a column key).
    pub pending_leader: Option<Leader>,
    pub progress: Progress,
    pub page: PageState,
    pub overlays: Overlays,
    pub notices: Notices,
    pub drag: Drag,
    pub prefs: Prefs,
    /// The groups, and what is folded in the list.
    pub outline: Outline,
    pub hits: Hits,
}

/// Number of rows in the settings modal.
pub const SETTINGS_ROWS: usize = 7;

/// Number of rows in the copy menu.
pub const COPY_MENU_ROWS: usize = 3;

/// A copy of an optional text.
pub fn clone_text(text: &Option<String>) -> (res: Option<String>)
    ensures
        res == *text,
{
    match text {
        Some(text) => Some(text.clone()),
        None => None,
    }
}

/// Whether a name passes the name filter: it holds the filter's text, whatever the case.
pub open spec fn name_passes(filter: Option<String>, name: Seq<char>) -> bool {
    match filter {
        Some(filter) => has_text(lowercase(name), lowercase(filter@)),
        None => true,
    }
}

/// How many of a list's repos have a status of a kind.
pub open spec fn tally(repos: Seq<RepoState>, kind: RepoStatus) -> nat
    decreases repos.len(),
{
    if repos.len() == 0 {
        0
    } else {
        tally(repos.drop_last(), kind) + if repos.last().status.kind() == kind {
            1nat
        } else {
            0nat
        }
    }
}

impl AppState {
    /// The list fits the machine, and an open repo page shows one of its repos.
    pub open spec fn wf(self) -> bool {
        &&& self.repos@.len() + 4 <= usize::MAX
        &&& self.page.repo matches Some(idx) ==> idx < self.repos@.len()
    }

    /// The pulls are still to be done.
    pub open spec fn not_started(progress: Progress, max_jobs: usize) -> bool {
        &&& progress.worktrees@.len() == 0
        &&& !progress.worktrees_done
        &&& !progress.discovery_done
        &&& progress.finished_elapsed is None
        &&& !progress.all_done
        &&& progress.max_jobs == max_jobs
        &&& !progress.details_pass_spawned
        &&& progress.root_dir@ == Seq::<char>::empty()
    }

    /// The repo page is closed.
    pub open spec fn closed_page() -> PageState {
        PageState {
            repo: None,
            selected: 0,
            focus_pending: false,
            scroll: 0,
            message: None,
            toggle: false,
        }
    }

    /// No modal is open.
    pub open spec fn no_overlays() -> Overlays {
        Overlays {
            confirm: None,
            copy_menu: None,
            base_picker: None,
            diff: None,
            help: false,
            help_scroll: 0,
            settings: false,
            settings_selected: 0,
            build_info: false,
        }
    }

    /// A state without any repo page, modal, filter or selection.
    pub fn new(repos: Vec<RepoState>, max_jobs: usize, prefs: Prefs, auto_dark: bool) -> (res: Self)
        requires
            repos@.len() + 4 <= usize::MAX,
        ensures
            res.wf(),
            res.hits.nothing(),
            res.outline.is_none(),
            res.info_expanded@.len() == 0,
            Self::not_started(res.progress, max_jobs),
            res == (AppState {
                repos,
                selected: 0,
                user_navigated: false,
                preview_focused: false,
                filter: None,
                status_filter: StatusFilter::All,
                filter_input_mode: false,
                result_overlay: false,
                right_view: RightView::Log,
                info_expanded: res.info_expanded,
                pending_leader: None,
                progress: res.progress,
                page: Self::closed_page(),
                overlays: Self::no_overlays(),
                notices: (Notices {
                    update_available: false,
                    update_dismissed: false,
                    toast: None,
                    auto_dark,
                }),
                drag: (Drag { divider: false, scrollbar: None }),
                prefs,
                outline: res.outline,
                hits: res.hits,
            }),
    {
        AppState {
            repos,
            selected: 0,
            user_navigated: false,
            preview_focused: false,
            filter: None,
            status_filter: StatusFilter::All,
            filter_input_mode: false,
            result_overlay: false,
            right_view: RightView::Log,
            info_expanded: Vec::new(),
            pending_leader: None,
            progress: Progress {
                worktrees: Vec::new(),
                worktrees_done: false,
                discovery_done: false,
                finished_elapsed: None,
                all_done: false,
                max_jobs,
                details_pass_spawned: false,
                root_dir: String::new(),
            },
            page: PageState {
                repo: None,
                selected: 0,
                focus_pending: false,
                scroll: 0,
                message: None,
                toggle: false,
            },
            overlays: Overlays {
                confirm: None,
                copy_menu: None,
                base_picker: None,
                diff: None,
                help: false,
                help_scroll: 0,
                settings: false,
                settings_selected: 0,
                build_info: false,
            },
            notices: Notices {
                update_available: false,
                update_dismissed: false,
                toast: None,
                auto_dark,
            },
            drag: Drag { divider: false, scrollbar: None },
            prefs,
            outline: Outline::none(),
            hits: Hits::new(),
        }
    }

    /// The active glyph set for the current icon-style setting.
    pub fn icons(&self) -> (res: IconSet)
        ensures
            self.prefs.icon_style.names(res),
    {
        self.prefs.icon_style.icons()
    }

    /// The preferences to be kept for the next run.
    pub fn save_state(&self) -> (res: Prefs)
        ensures
            res == self.prefs,
    {
        self.prefs
    }

    // ---- the list ----

    /// Whether the list shows a repo.
    pub open spec fn shows(self, repo: RepoState) -> bool {
        name_passes(self.filter, repo.name@) && self.status_filter.admits(repo.status)
    }

    /// The indices of the repos among the first `n` that the list shows.
    pub open spec fn visible_upto(self, n: nat) -> Seq<usize>
        decreases n,
    {
        if n == 0 || n > self.repos@.len() {
            Seq::empty()
        } else {
            let before = self.visible_upto((n - 1) as nat);
            if self.shows(self.repos@[n - 1]) {
                before.push((n - 1) as usize)
            } else {
                before
            }
        }
    }

    /// The indices of the repos that the list shows, in its order.
    pub open spec fn visible(self) -> Seq<usize> {
        self.arranged(self.visible_upto(self.repos@.len()))
    }

    /// Some repo failed.
    pub open spec fn any_failed(self) -> bool {
        tally(self.repos@, RepoStatus::Failed) > 0
    }

    /// The number of rows of the list: the repos shown and their headers, the Result and perhaps
    /// the Errors.
    pub open spec fn rows(self) -> nat {
        self.lines().len() + 1 + if self.any_failed() {
            1nat
        } else {
            0nat
        }
    }

    /// The repo under the selection.
    pub open spec fn current(self) -> Option<usize> {
        if self.selected < self.lines().len() {
            match self.lines()[self.selected as int] {
                ListRow::Repo { idx, .. } => Some(idx),
                _ => None,
            }
        } else {
            None
        }
    }

    proof fn lemma_visible_upto(self, n: nat)
        requires
            n <= self.repos@.len(),
            self.repos@.len() <= usize::MAX,
        ensures
            self.visible_upto(n).len() <= n,
            forall|i: int|
                0 <= i < self.visible_upto(n).len() ==> (#[trigger] self.visible_upto(n)[i]) < n
                    && self.shows(self.repos@[self.visible_upto(n)[i] as int]),
            forall|i: int, j: int|
                0 <= i < j < self.visible_upto(n).len() ==> self.visible_upto(n)[i]
                    < self.visible_upto(n)[j],
            forall|k: int|
                0 <= k < n && self.shows(#[trigger] self.repos@[k]) ==> self.visible_upto(
                    n,
                ).contains(k as usize),
        decreases n,
    {
        if n > 0 {
            let m = (n - 1) as nat;
            self.lemma_visible_upto(m);
            let before = self.visible_upto(m);
            assert forall|k: int|
                0 <= k < n && self.shows(#[trigger] self.repos@[k]) implies self.visible_upto(
                n,
            ).contains(k as usize) by {
                if k < m {
                    let i = choose|i: int| 0 <= i < before.len() && before[i] == k as usize;
                    assert(self.visible_upto(n)[i] == k as usize);
                } else {
                    assert(self.visible_upto(n).last() == k as usize);
                }
            }
        }
    }

    /// The list shows exactly the repos that pass both filters, each once, in the order of the
    /// sorting.
    pub proof fn law_visible_repos(self)
        requires
            self.wf(),
        ensures
            self.visible().len() <= self.repos@.len(),
            forall|k: usize|
                #[trigger] self.visible().contains(k) <==> k < self.repos@.len() && self.shows(
                    self.repos@[k as int],
                ),
            forall|k: usize| #[trigger] self.visible().to_multiset().count(k) <= 1,
            forall|i: int, j: int|
                0 <= i < j < self.visible().len() ==> #[trigger] self.in_order(
                    self.visible()[i],
                    self.visible()[j],
                ),
    {
        broadcast use vstd::seq_lib::group_to_multiset_ensures;

        let shown = self.visible_upto(self.repos@.len());
        self.lemma_visible_upto(self.repos@.len());
        self.lemma_arranged_members(shown);
        self.law_arranged_list(shown);
        assert forall|k: usize| #[trigger] self.visible().contains(k) <==> k < self.repos@.len()
            && self.shows(self.repos@[k as int]) by {
            if k < self.repos@.len() && self.shows(self.repos@[k as int]) {
                assert(shown.contains(k));
            }
            if shown.contains(k) {
                let i = choose|i: int| 0 <= i < shown.len() && shown[i] == k;
                assert(shown[i] < self.repos@.len());
            }
        }
        assert(shown.no_duplicates());
        shown.lemma_multiset_has_no_duplicates();
        assert forall|k: usize| #[trigger] self.visible().to_multiset().count(k) <= 1 by {
            if shown.to_multiset().contains(k) {
                assert(shown.to_multiset().count(k) == 1);
            }
        }
    }

    /// A repo stands in the list exactly if its status is the one that the status filter names and
    /// its name holds the text of the name filter, whatever the case. Without filters every repo
    /// stands in it.
    pub proof fn law_filters_pick_the_repos(self, k: usize)
        requires
            self.wf(),
            k < self.repos@.len(),
        ensures
            self.visible().contains(k) && self.status_filter is Updated
                ==> self.repos@[k as int].status is Updated,
            self.visible().contains(k) && self.status_filter is UpToDate
                ==> self.repos@[k as int].status is UpToDate,
            self.visible().contains(k) && self.status_filter is Skipped
                ==> self.repos@[k as int].status is Skipped,
            self.visible().contains(k) && self.status_filter is Failed
                ==> self.repos@[k as int].status is Failed,
            self.visible().contains(k) && self.status_filter is Issues
                ==> self.repos@[k as int].status is Failed || self.repos@[k as int].status is Skipped,
            self.visible().contains(k) && self.filter is Some ==> has_text(
                lowercase(self.repos@[k as int].name@),
                lowercase(self.filter->0@),
            ),
            self.filter is None ==> (self.visible().contains(k) <==> match self.status_filter {
                StatusFilter::All => true,
                StatusFilter::Updated => self.repos@[k as int].status is Updated,
                StatusFilter::UpToDate => self.repos@[k as int].status is UpToDate,
                StatusFilter::Skipped => self.repos@[k as int].status is Skipped,
                StatusFilter::Failed => self.repos@[k as int].status is Failed,
                StatusFilter::Issues => self.repos@[k as int].status is Failed
                    || self.repos@[k as int].status is Skipped,
            }),
            self.filter is Some && self.status_filter is All ==> (self.visible().contains(k)
                <==> has_text(
                lowercase(self.repos@[k as int].name@),
                lowercase(self.filter->0@),
            )),
    {
        self.law_visible_repos();
    }

    /// Returns indices of repos visible given the current filter.
    pub fn visible_indices(&self) -> (res: Vec<usize>)
        requires
            self.wf(),
        ensures
            res@ == self.visible(),
            res@.len() <= self.repos@.len(),
            forall|i: int| 0 <= i < res@.len() ==> #[trigger] res@[i] < self.repos@.len(),
    {
        let needle: Option<String> = match &self.filter {
            Some(filter) => Some(to_lower(filter.as_str())),
            None => None,
        };
        let mut out: Vec<usize> = Vec::new();
        let mut i: usize = 0;
        while i < self.repos.len()
            invariant
                i <= self.repos@.len(),
                match needle {
                    Some(needle) => self.filter is Some && needle@ == lowercase(
                        self.filter->0@,
                    ),
                    None => self.filter is None,
                },
                out@ == self.visible_upto(i as nat),
            decreases self.repos@.len() - i,
        {
            let repo = &self.repos[i];
            let name_ok = match &needle {
                Some(needle) => contains(to_lower(repo.name.as_str()).as_str(), needle.as_str()),
                None => true,
            };
            if name_ok && self.status_filter.matches(&repo.status) {
                out.push(i);
            }
            i += 1;
        }
        proof {
            self.lemma_visible_upto(self.repos@.len());
            self.lemma_arranged_members(out@);
        }
        let ordered = self.arrange(&out);
        assert forall|i: int| 0 <= i < ordered@.len() implies #[trigger] ordered@[i]
            < self.repos@.len() by {
            assert(self.arranged(out@).contains(ordered@[i]));
            let j = choose|j: int| 0 <= j < out@.len() && out@[j] == ordered@[i];
            assert(self.visible_upto(self.repos@.len())[j] < self.repos@.len());
        }
        ordered
    }

    /// Map mouse coordinates to a list selection index, or None for the
    /// separator row / outside the list. Result maps to `visible_len`.
    pub fn list_selection_at(&self, col: u16, row: u16) -> (res: Option<usize>)
        requires
            self.wf(),
        ensures
            res == self.selection_at(col, row),
    {
        let area = self.hits.list_area;
        if area.width < 2 || area.height < 2 {
            return None;
        }
        let inner_x: u32 = area.x as u32 + 1;
        let inner_y: u32 = area.y as u32 + 1;
        let inner_right: u32 = inner_x + (area.width as u32 - 2);
        let inner_bottom: u32 = inner_y + (area.height as u32 - 2);
        let c: u32 = col as u32;
        let r: u32 = row as u32;
        if c < inner_x || c >= inner_right || r < inner_y || r >= inner_bottom {
            return None;
        }
        let row_idx: u128 = (r - inner_y) as u128 + self.hits.list_offset as u128;
        let rows = self.visible_rows();
        let visible_len: usize = rows.len();
        let errors = self.has_errors();
        if row_idx < visible_len as u128 {
            if rows[row_idx as usize].is_selectable() {
                Some(row_idx as usize)
            } else {
                None
            }
        } else if row_idx == visible_len as u128 + 1 {
            Some(visible_len)
        } else if errors && row_idx == visible_len as u128 + 3 {
            Some(visible_len + 1)
        } else {
            None
        }
    }

    /// What a click selects in the list. Physical rows: the repos and their headers, a separator,
    /// the Result, and with failed repos another separator and the Errors.
    pub open spec fn selection_at(self, col: u16, row: u16) -> Option<usize> {
        let area = self.hits.list_area;
        let row_idx = row - (area.y + 1) + self.hits.list_offset;
        let shown = self.lines().len();
        if !(area.x + 1 <= col < area.x + area.width - 1 && area.y + 1 <= row < area.y
            + area.height - 1) {
            None
        } else if row_idx < shown {
            if self.lines()[row_idx].selectable() {
                Some(row_idx as usize)
            } else {
                None
            }
        } else if row_idx == shown + 1 {
            Some(shown as usize)
        } else if self.any_failed() && row_idx == shown + 3 {
            Some((shown + 1) as usize)
        } else {
            None
        }
    }

    /// The state with another status filter, and the first row selected.
    #[verifier::opaque]
    pub open spec fn with_status_filter(self, status_filter: StatusFilter) -> AppState {
        AppState { status_filter, result_overlay: false, ..self }.topped()
    }

    /// Apply a status filter and reset the selection (the visible set just changed).
    pub fn set_status_filter(&mut self, filter: StatusFilter)
        requires
            old(self).wf(),
        ensures
            final(self).wf(),
            *final(self) == old(self).with_status_filter(filter),
    {
        reveal(AppState::with_status_filter);
        self.status_filter = filter;
        self.result_overlay = false;
        self.go_top();
    }

    /// Total items in the list (visible repos + Result item + optional Errors item).
    pub fn list_len(&self) -> (res: usize)
        requires
            self.wf(),
        ensures
            res == self.rows(),
    {
        let shown: usize = self.visible_rows().len();
        if self.has_errors() {
            shown + 2
        } else {
            shown + 1
        }
    }

    /// Count of repos in each state: queued, running, updated, up to date, skipped, failed,
    /// without upstream, throttled.
    pub fn counts(&self) -> (res: (usize, usize, usize, usize, usize, usize, usize, usize))
        ensures
            res.0 == tally(self.repos@, RepoStatus::Queued),
            res.1 == tally(self.repos@, RepoStatus::Running { pid: 0 }),
            res.2 == tally(self.repos@, RepoStatus::Updated),
            res.3 == tally(self.repos@, RepoStatus::UpToDate),
            res.4 == tally(self.repos@, RepoStatus::Skipped),
            res.5 == tally(self.repos@, RepoStatus::Failed),
            res.6 == tally(self.repos@, RepoStatus::NoUpstream),
            res.7 == tally(self.repos@, RepoStatus::Throttled),
            res.0 + res.1 + res.2 + res.3 + res.4 + res.5 + res.6 + res.7 == self.repos@.len(),
    {
        let mut queued: usize = 0;
        let mut running: usize = 0;
        let mut updated: usize = 0;
        let mut up_to_date: usize = 0;
        let mut skipped: usize = 0;
        let mut failed: usize = 0;
        let mut no_upstream: usize = 0;
        let mut throttled: usize = 0;
        let n: usize = self.repos.len();
        let mut i: usize = 0;
        while i < n
            invariant
                i <= n,
                n == self.repos@.len(),
                queued + running + updated + up_to_date + skipped + failed + no_upstream + throttled
                    == i,
                queued == tally(self.repos@.take(i as int), RepoStatus::Queued),
                running == tally(self.repos@.take(i as int), RepoStatus::Running { pid: 0 }),
                updated == tally(self.repos@.take(i as int), RepoStatus::Updated),
                up_to_date == tally(self.repos@.take(i as int), RepoStatus::UpToDate),
                skipped == tally(self.repos@.take(i as int), RepoStatus::Skipped),
                failed == tally(self.repos@.take(i as int), RepoStatus::Failed),
                no_upstream == tally(self.repos@.take(i as int), RepoStatus::NoUpstream),
                throttled == tally(self.repos@.take(i as int), RepoStatus::Throttled),
            decreases n - i,
        {
            assert(self.repos@.take(i + 1).drop_last() =~= self.repos@.take(i as int));
            match self.repos[i].status {
                RepoStatus::Queued => queued += 1,
                RepoStatus::Running { .. } => running += 1,
                RepoStatus::Updated => updated += 1,
                RepoStatus::UpToDate => up_to_date += 1,
                RepoStatus::Skipped => skipped += 1,
                RepoStatus::Failed => failed += 1,
                RepoStatus::NoUpstream => no_upstream += 1,
                RepoStatus::Throttled => throttled += 1,
            }
            i += 1;
        }
        assert(self.repos@.take(n as int) =~= self.repos@);
        (queued, running, updated, up_to_date, skipped, failed, no_upstream, throttled)
    }

    /// How many repos are done: updated, up to date, skipped, failed or without upstream.
    pub fn done_count(&self) -> (res: usize)
        ensures
            res == finished(self.repos@),
    {
        let counts = self.counts();
        proof {
            lemma_finished(self.repos@);
        }
        let n: usize = self.repos.len();
        assert(counts.2 + counts.3 + counts.4 + counts.5 + counts.6 <= n);
        counts.2 + counts.3 + counts.4 + counts.5 + counts.6
    }

    /// Any repo ended in `Failed` — gates the dynamic "Errors" list row.
    pub fn has_errors(&self) -> (res: bool)
        ensures
            res == self.any_failed(),
    {
        self.counts().5 > 0
    }

    /// The indices of the repos among the first `n` with an issue.
    pub open spec fn retryable_upto(self, n: nat) -> Seq<usize>
        decreases n,
    {
        if n == 0 || n > self.repos@.len() {
            Seq::empty()
        } else if self.repos@[n - 1].status.retryable() {
            self.retryable_upto((n - 1) as nat).push((n - 1) as usize)
        } else {
            self.retryable_upto((n - 1) as nat)
        }
    }

    /// The indices of the repos among the first `n` that are not in progress.
    pub open spec fn finished_upto(self, n: nat) -> Seq<usize>
        decreases n,
    {
        if n == 0 || n > self.repos@.len() {
            Seq::empty()
        } else if self.repos@[n - 1].status.terminal() {
            self.finished_upto((n - 1) as nat).push((n - 1) as usize)
        } else {
            self.finished_upto((n - 1) as nat)
        }
    }

    /// The targets of "retry".
    pub open spec fn retry_targets(self) -> Seq<usize> {
        self.retryable_upto(self.repos@.len())
    }

    /// The targets of "refetch".
    pub open spec fn refetch_targets(self) -> Seq<usize> {
        self.finished_upto(self.repos@.len())
    }

    proof fn lemma_targets(self, n: nat)
        requires
            n <= self.repos@.len() <= usize::MAX,
        ensures
            forall|k: usize|
                #[trigger] self.retryable_upto(n).contains(k) <==> k < n
                    && self.repos@[k as int].status.retryable(),
            forall|k: usize|
                #[trigger] self.finished_upto(n).contains(k) <==> k < n
                    && self.repos@[k as int].status.terminal(),
        decreases n,
    {
        if n > 0 {
            let m = (n - 1) as nat;
            self.lemma_targets(m);
            assert forall|k: usize| #[trigger]
                self.retryable_upto(n).contains(k) <==> k < n
                    && self.repos@[k as int].status.retryable() by {
                let before = self.retryable_upto(m);
                let after = self.retryable_upto(n);
                if before.contains(k) {
                    let i = choose|i: int| 0 <= i < before.len() && before[i] == k;
                    assert(after[i] == k);
                }
                if after.contains(k) {
                    let i = choose|i: int| 0 <= i < after.len() && after[i] == k;
                    if i < before.len() {
                        assert(before[i] == k);
                    }
                }
                if k == m && self.repos@[m as int].status.retryable() {
                    assert(after.last() == k);
                }
            }
            assert forall|k: usize| #[trigger]
                self.finished_upto(n).contains(k) <==> k < n
                    && self.repos@[k as int].status.terminal() by {
                let before = self.finished_upto(m);
                let after = self.finished_upto(n);
                if before.contains(k) {
                    let i = choose|i: int| 0 <= i < before.len() && before[i] == k;
                    assert(after[i] == k);
                }
                if after.contains(k) {
                    let i = choose|i: int| 0 <= i < after.len() && after[i] == k;
                    if i < before.len() {
                        assert(before[i] == k);
                    }
                }
                if k == m && self.repos@[m as int].status.terminal() {
                    assert(after.last() == k);
                }
            }
        }
    }

    /// Retry reaches exactly the failed and skipped repos, refetch exactly those that are not
    /// in progress; so refetch reaches every repo that retry reaches.
    pub proof fn law_targets(self)
        requires
            self.wf(),
        ensures
            forall|k: usize|
                #[trigger] self.retry_targets().contains(k) <==> k < self.repos@.len()
                    && self.repos@[k as int].status.retryable(),
            forall|k: usize|
                #[trigger] self.refetch_targets().contains(k) <==> k < self.repos@.len()
                    && self.repos@[k as int].status.terminal(),
            forall|k: usize| #[trigger]
                self.retry_targets().contains(k) ==> self.refetch_targets().contains(k),
    {
        self.lemma_targets(self.repos@.len());
    }

    /// Repos with an issue (failed or skipped) — the targets of "retry".
    pub fn retryable_repos(&self) -> (res: Vec<usize>)
        ensures
            res@ == self.retry_targets(),
    {
        let mut out: Vec<usize> = Vec::new();
        let mut i: usize = 0;
        while i < self.repos.len()
            invariant
                i <= self.repos@.len(),
                out@ == self.retryable_upto(i as nat),
            decreases self.repos@.len() - i,
        {
            if self.repos[i].status.is_retryable() {
                out.push(i);
            }
            i += 1;
        }
        out
    }

    /// Repos not currently in progress — the targets of "refetch" (re-run regardless of status).
    pub fn refetchable_repos(&self) -> (res: Vec<usize>)
        ensures
            res@ == self.refetch_targets(),
    {
        let mut out: Vec<usize> = Vec::new();
        let mut i: usize = 0;
        while i < self.repos.len()
            invariant
                i <= self.repos@.len(),
                out@ == self.finished_upto(i as nat),
            decreases self.repos@.len() - i,
        {
            if self.repos[i].status.is_terminal() {
                out.push(i);
            }
            i += 1;
        }
        out
    }

    /// The status of the selected repo.
    pub open spec fn current_status(self) -> Option<RepoStatus> {
        match self.current() {
            Some(idx) => Some(self.repos@[idx as int].status),
            None => None,
        }
    }

    fn selected_status(&self) -> (res: Option<RepoStatus>)
        requires
            self.wf(),
        ensures
            res == self.current_status(),
    {
        match self.selected_repo_index() {
            Some(idx) => Some(self.repos[idx].status),
            None => None,
        }
    }

    /// The selected repo has an issue (failed or skipped) — `r` is meaningful.
    pub fn selected_repo_retryable(&self) -> (res: bool)
        requires
            self.wf(),
        ensures
            res == (self.current_status() is Some && self.current_status()->0.retryable()),
    {
        match self.selected_status() {
            Some(status) => status.is_retryable(),
            None => false,
        }
    }

    /// The selected repo is done (not in progress) — `e` is meaningful.
    pub fn selected_repo_refetchable(&self) -> (res: bool)
        requires
            self.wf(),
        ensures
            res == (self.current_status() is Some && self.current_status()->0.terminal()),
    {
        match self.selected_status() {
            Some(status) => status.is_terminal(),
            None => false,
        }
    }

    /// Any repo has an issue — `R` is meaningful.
    pub fn any_retryable(&self) -> (res: bool)
        ensures
            res == exists|k: int|
                0 <= k < self.repos@.len() && (#[trigger] self.repos@[k]).status.retryable(),
    {
        let mut i: usize = 0;
        while i < self.repos.len()
            invariant
                i <= self.repos@.len(),
                forall|k: int| 0 <= k < i ==> !(#[trigger] self.repos@[k]).status.retryable(),
            decreases self.repos@.len() - i,
        {
            if self.repos[i].status.is_retryable() {
                return true;
            }
            i += 1;
        }
        false
    }

    /// Any repo is done (not in progress) — `E` is meaningful.
    pub fn any_refetchable(&self) -> (res: bool)
        ensures
            res == exists|k: int|
                0 <= k < self.repos@.len() && (#[trigger] self.repos@[k]).status.terminal(),
    {
        let mut i: usize = 0;
        while i < self.repos.len()
            invariant
                i <= self.repos@.len(),
                forall|k: int| 0 <= k < i ==> !(#[trigger] self.repos@[k]).status.terminal(),
            decreases self.repos@.len() - i,
        {
            if self.repos[i].status.is_terminal() {
                return true;
            }
            i += 1;
        }
        false
    }

    // ---- navigation ----

    /// The state after a navigation that leads to a row.
    #[verifier::opaque]
    pub open spec fn navigated(self, row: int) -> AppState {
        AppState {
            user_navigated: true,
            result_overlay: false,
            selected: row as usize,
            ..self
        }
    }

    pub(crate) fn go_to(&mut self, row: usize)
        ensures
            final(self).wf() == old(self).wf(),
            *final(self) == old(self).navigated(row as int),
    {
        reveal(AppState::navigated);
        self.user_navigated = true;
        self.result_overlay = false;
        self.selected = row;
    }

    /// The row above the selected one at which navigation stops.
    pub open spec fn row_above(self) -> int {
        match stop_upto(self.lines(), self.selected - 1) {
            Some(row) => row,
            None => self.selected as int,
        }
    }

    /// The row below the selected one at which navigation stops.
    pub open spec fn row_below(self) -> int {
        if self.selected < self.rows() - 1 {
            stop_from(self.lines(), self.selected + 1)
        } else {
            self.selected as int
        }
    }

    /// Navigate selection up, returns true if changed. The right-pane view is intentionally
    /// preserved so an open info view (`i`) follows the selection across repos.
    pub fn nav_up(&mut self) -> (res: bool)
        requires
            old(self).wf(),
        ensures
            final(self).wf(),
            res == (old(self).row_above() != old(self).selected),
            *final(self) == old(self).navigated(old(self).row_above()),
    {
        let rows = self.visible_rows();
        let above: Option<usize> = if self.selected > 0 {
            last_stop(&rows, self.selected - 1)
        } else {
            None
        };
        let row: usize = match above {
            Some(row) => row,
            None => self.selected,
        };
        let changed = row != self.selected;
        self.go_to(row);
        changed
    }

    /// Navigate selection down, returns true if changed.
    pub fn nav_down(&mut self) -> (res: bool)
        requires
            old(self).wf(),
        ensures
            final(self).wf(),
            res == (old(self).row_below() != old(self).selected),
            *final(self) == old(self).navigated(old(self).row_below()),
    {
        let rows = self.visible_rows();
        let len: usize = self.list_len();
        let row: usize = if self.selected < len - 1 {
            next_stop(&rows, self.selected + 1)
        } else {
            self.selected
        };
        let changed = row != self.selected;
        self.go_to(row);
        changed
    }

    /// Selects the first row at which navigation stops.
    pub fn nav_top(&mut self)
        requires
            old(self).wf(),
        ensures
            final(self).wf(),
            *final(self) == old(self).navigated(stop_from(old(self).lines(), 0)),
    {
        let row: usize = next_stop(&self.visible_rows(), 0);
        self.go_to(row);
    }

    /// Selects the last row.
    pub fn nav_bottom(&mut self)
        requires
            old(self).wf(),
        ensures
            final(self).wf() == old(self).wf(),
            *final(self) == old(self).navigated(old(self).rows() - 1),
    {
        let len: usize = self.list_len();
        self.go_to(len - 1);
    }

    /// The row a page up leads to: `step` rows, at least one, and not above the first; then on to
    /// one at which navigation stops.
    pub open spec fn row_up(self, step: usize) -> int {
        let moved = self.selected - if step >= 1 {
            step as int
        } else {
            1
        };
        let aim = if moved > 0 {
            moved
        } else {
            0
        };
        match stop_upto(self.lines(), aim) {
            Some(row) => row,
            None => stop_from(self.lines(), aim),
        }
    }

    /// The row a page down leads to: `step` rows, at least one, and not past the last; then on to
    /// one at which navigation stops.
    pub open spec fn row_down(self, step: usize) -> int {
        let moved = self.selected + if step >= 1 {
            step as int
        } else {
            1
        };
        stop_from(
            self.lines(),
            if moved < self.rows() - 1 {
                moved
            } else {
                self.rows() - 1
            },
        )
    }

    /// Move the selection up by `step` rows (PageUp).
    pub fn nav_page_up(&mut self, step: usize)
        requires
            old(self).wf(),
        ensures
            final(self).wf() == old(self).wf(),
            *final(self) == old(self).navigated(old(self).row_up(step)),
    {
        let rows = self.visible_rows();
        let step: usize = if step >= 1 {
            step
        } else {
            1
        };
        let aim: usize = if self.selected > step {
            self.selected - step
        } else {
            0
        };
        let row: usize = match last_stop(&rows, aim) {
            Some(row) => row,
            None => next_stop(&rows, aim),
        };
        self.go_to(row);
    }

    /// Move the selection down by `step` rows (PageDown), clamped to the last row.
    pub fn nav_page_down(&mut self, step: usize)
        requires
            old(self).wf(),
        ensures
            final(self).wf() == old(self).wf(),
            *final(self) == old(self).navigated(old(self).row_down(step)),
    {
        let rows = self.visible_rows();
        let len: usize = self.list_len();
        let step: usize = if step >= 1 {
            step
        } else {
            1
        };
        let last: usize = len - 1;
        let aim: usize = if self.selected < last && step < last - self.selected {
            self.selected + step
        } else {
            last
        };
        self.go_to(next_stop(&rows, aim));
    }

    /// Returns the repo index for the current selection, or None if Result is selected.
    pub fn selected_repo_index(&self) -> (res: Option<usize>)
        requires
            self.wf(),
        ensures
            res == self.current(),
            res matches Some(idx) ==> idx < self.repos@.len(),
    {
        let rows = self.visible_rows();
        if self.selected < rows.len() {
            let row = rows[self.selected];
            assert(self.row_ok(row));
            match row {
                ListRow::Repo { idx, .. } => Some(idx),
                _ => None,
            }
        } else {
            None
        }
    }
}

/// How many of a list's repos are not in progress.
pub open spec fn finished(repos: Seq<RepoState>) -> nat
    decreases repos.len(),
{
    if repos.len() == 0 {
        0
    } else {
        finished(repos.drop_last()) + if repos.last().status.terminal() {
            1nat
        } else {
            0nat
        }
    }
}

proof fn lemma_finished(repos: Seq<RepoState>)
    ensures
        finished(repos) == tally(repos, RepoStatus::Updated) + tally(repos, RepoStatus::UpToDate)
            + tally(repos, RepoStatus::Skipped) + tally(repos, RepoStatus::Failed) + tally(
            repos,
            RepoStatus::NoUpstream,
        ),
    decreases repos.len(),
{
    if repos.len() > 0 {
        lemma_finished(repos.drop_last());
    }
}

/// The repos that are done and those that are queued, running or throttled are all the repos.
pub proof fn law_counts_cover_all_repos(repos: Seq<RepoState>)
    ensures
        finished(repos) + tally(repos, RepoStatus::Queued) + tally(
            repos,
            RepoStatus::Running { pid: 0 },
        ) + tally(repos, RepoStatus::Throttled) == repos.len(),
    decreases repos.len(),
{
    if repos.len() > 0 {
        law_counts_cover_all_repos(repos.drop_last());
    }
}

/// Wherever the selection stands in the list, a navigation keeps it there, and on a row that can be
/// selected.
pub proof fn law_navigation_stays_in_the_list(app: AppState, step: usize)
    requires
        app.selected < app.rows(),
        app.selected >= app.lines().len() || app.lines()[app.selected as int].selectable(),
    ensures
        0 <= app.row_up(step) <= app.selected,
        app.selected <= app.row_down(step) < app.rows(),
        0 <= app.row_above() <= app.selected <= app.row_below() < app.rows(),
        stops_at(app, app.row_up(step)),
        stops_at(app, app.row_down(step)),
        stops_at(app, app.row_above()),
        stops_at(app, app.row_below()),
        app.navigated(app.row_down(step)).rows() == app.rows(),
{
    reveal(AppState::navigated);
    let moved = app.navigated(app.row_down(step));
    assert(moved.repos == app.repos);
    lemma_lines_same(app, moved);
    let lines = app.lines();
    let up = app.selected - if step >= 1 {
        step as int
    } else {
        1
    };
    let aim = if up > 0 {
        up
    } else {
        0
    };
    lemma_last_stop(lines, aim);
    lemma_stops(lines, aim, app.selected as int);
    lemma_last_stop(lines, app.selected - 1);
    let down = app.selected + if step >= 1 {
        step as int
    } else {
        1
    };
    let low = if down < app.rows() - 1 {
        down
    } else {
        app.rows() - 1
    };
    lemma_stops(lines, low, app.rows() - 1);
    if app.selected < app.rows() - 1 {
        lemma_stops(lines, app.selected + 1, app.rows() - 1);
    }
}

/// Navigation stops at a row.
pub open spec fn stops_at(app: AppState, row: int) -> bool {
    row >= app.lines().len() || app.lines()[row].selectable()
}

/// The rows of the list depend only on the repos and the filters.
pub(crate) proof fn lemma_visible_same(a: AppState, b: AppState, n: nat)
    requires
        a.repos == b.repos,
        a.filter == b.filter,
        a.status_filter == b.status_filter,
    ensures
        a.visible_upto(n) == b.visible_upto(n),
    decreases n,
{
    if n > 0 && n <= a.repos@.len() {
        lemma_visible_same(a, b, (n - 1) as nat);
    }
}

/// Each number of the tally is the number of repos with that status, and the repos that are done
/// are those that wait for nothing more.
pub proof fn law_tallies(repos: Seq<RepoState>)
    ensures
        tally(repos, RepoStatus::Queued) == repos.filter(
            |repo: RepoState| repo.status is Queued,
        ).len(),
        tally(repos, RepoStatus::Running { pid: 0 }) == repos.filter(
            |repo: RepoState| repo.status is Running,
        ).len(),
        tally(repos, RepoStatus::Updated) == repos.filter(
            |repo: RepoState| repo.status is Updated,
        ).len(),
        tally(repos, RepoStatus::UpToDate) == repos.filter(
            |repo: RepoState| repo.status is UpToDate,
        ).len(),
        tally(repos, RepoStatus::Skipped) == repos.filter(
            |repo: RepoState| repo.status is Skipped,
        ).len(),
        tally(repos, RepoStatus::Failed) == repos.filter(
            |repo: RepoState| repo.status is Failed,
        ).len(),
        tally(repos, RepoStatus::NoUpstream) == repos.filter(
            |repo: RepoState| repo.status is NoUpstream,
        ).len(),
        tally(repos, RepoStatus::Throttled) == repos.filter(
            |repo: RepoState| repo.status is Throttled,
        ).len(),
        finished(repos) == repos.filter(
            |repo: RepoState|
                !(repo.status is Queued || repo.status is Running || repo.status is Throttled),
        ).len(),
    decreases repos.len(),
{
    reveal(Seq::filter);
    if repos.len() > 0 {
        law_tallies(repos.drop_last());
    }
}

/// Retry reaches exactly the failed and the skipped repos, refetch all that neither wait nor run
/// nor are throttled.
pub proof fn law_what_is_pulled_again(app: AppState, k: usize)
    requires
        app.wf(),
        k < app.repos@.len(),
    ensures
        app.retry_targets().contains(k) <==> (app.repos@[k as int].status is Failed
            || app.repos@[k as int].status is Skipped),
        app.refetch_targets().contains(k) <==> !(app.repos@[k as int].status is Queued
            || app.repos@[k as int].status is Running || app.repos@[k as int].status is Throttled),
{
    app.law_targets();
}

} // verus!
