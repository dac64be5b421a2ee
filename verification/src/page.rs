//! The dedicated page of one repository: its rows and what a selection on them means.

use vstd::prelude::*;

use crate::app::{clone_text, AppState, PageState};
use crate::dialogs::{DiffSource, PageRow, PageRowKind};
use crate::paths::{path_eq, same_path};
use crate::repo::{BranchInfo, RepoPageData, RepoState, StashInfo, WorktreeInfo};
use crate::text::same;

verus! {

/// The row of a branch.
pub open spec fn is_branch_row(
    row: PageRow,
    branch: BranchInfo,
    page: RepoPageData,
    path: String,
) -> bool {
    row == (PageRow {
        kind: PageRowKind::Branch,
        branch: branch.name,
        path,
        deletable: branch.may_delete(),
        is_head: branch.is_head,
        dirty: branch.is_head && page.head_dirty,
        stash_index: None,
        ahead: branch.ahead,
        behind: branch.behind,
        upstream: branch.upstream,
        last_commit_rel: branch.last_commit_rel,
        subject: branch.subject,
        stats: branch.stats,
        base: branch.base,
        base_is_override: branch.base_is_override,
        dirty_count: branch.dirty_count,
        merge_base_short: branch.merge_base_short,
        commit_sha: branch.commit_sha,
        author: branch.author,
    })
}

/// The first branch of a name among the branches from `from` on.
pub open spec fn branch_named(branches: Seq<BranchInfo>, name: Seq<char>, from: int) -> Option<
    BranchInfo,
>
    decreases branches.len() - from,
{
    if from < 0 || from >= branches.len() {
        None
    } else if branches[from].name@ == name {
        Some(branches[from])
    } else {
        branch_named(branches, name, from + 1)
    }
}

/// Whether a list of paths holds a path.
pub open spec fn holds_path(paths: Seq<String>, path: Seq<char>) -> bool {
    exists|i: int| 0 <= i < paths.len() && path_eq((#[trigger] paths[i])@, path)
}

/// The row of a worktree: what is known of its branch stands on it too.
pub open spec fn is_worktree_row(row: PageRow, tree: WorktreeInfo, page: RepoPageData) -> bool {
    let info = branch_named(page.branches@, tree.branch@, 0);
    &&& row.kind is Worktree
    &&& row.branch == tree.branch
    &&& row.path == tree.path
    &&& !row.deletable
    &&& !row.is_head
    &&& row.dirty == holds_path(page.dirty_worktrees@, tree.path@)
    &&& row.stash_index is None
    &&& row.subject@ == Seq::<char>::empty()
    &&& match info {
        Some(branch) => {
            &&& row.ahead == branch.ahead
            &&& row.behind == branch.behind
            &&& row.upstream == branch.upstream
            &&& row.last_commit_rel == branch.last_commit_rel
            &&& row.stats == branch.stats
            &&& row.base == branch.base
            &&& row.base_is_override == branch.base_is_override
            &&& row.dirty_count == branch.dirty_count
            &&& row.merge_base_short == branch.merge_base_short
            &&& row.commit_sha == branch.commit_sha
            &&& row.author == branch.author
        },
        None => no_branch_facts(row),
    }
}

/// A row that tells nothing of a branch.
pub open spec fn no_branch_facts(row: PageRow) -> bool {
    &&& row.ahead is None
    &&& row.behind is None
    &&& row.upstream is None
    &&& row.last_commit_rel@ == Seq::<char>::empty()
    &&& row.stats is None
    &&& row.base is None
    &&& !row.base_is_override
    &&& row.dirty_count == 0
    &&& row.merge_base_short is None
    &&& row.commit_sha@ == Seq::<char>::empty()
    &&& row.author@ == Seq::<char>::empty()
}

/// The row of a stash.
pub open spec fn is_stash_row(row: PageRow, stash: StashInfo, path: String) -> bool {
    &&& row.kind is Stash
    &&& row.branch == stash.label
    &&& row.path == path
    &&& !row.deletable
    &&& !row.is_head
    &&& !row.dirty
    &&& row.stash_index == Some(stash.index)
    &&& row.subject@ == Seq::<char>::empty()
    &&& no_branch_facts(row)
}

/// The number of rows of a repo's page.
pub open spec fn row_count(repo: RepoState) -> nat {
    match repo.page {
        Some(page) => page.branches@.len() + page.worktrees@.len() + page.stashes@.len(),
        None => 0,
    }
}

/// Row `i` of a repo's page: the branches come first, then the worktrees, then the stashes.
pub open spec fn is_row_at(repo: RepoState, i: int, row: PageRow) -> bool {
    match repo.page {
        Some(page) => {
            let b = page.branches@.len();
            let w = page.worktrees@.len();
            if i < b {
                is_branch_row(row, page.branches@[i], page, repo.path)
            } else if i < b + w {
                is_worktree_row(row, page.worktrees@[i - b], page)
            } else {
                is_stash_row(row, page.stashes@[i - b - w], repo.path)
            }
        },
        None => false,
    }
}

fn branch_row(branch: &BranchInfo, page: &RepoPageData, path: &String) -> (res: PageRow)
    ensures
        is_branch_row(res, *branch, *page, *path),
{
    PageRow {
        kind: PageRowKind::Branch,
        branch: branch.name.clone(),
        path: path.clone(),
        deletable: branch.deletable(),
        is_head: branch.is_head,
        dirty: branch.is_head && page.head_dirty,
        stash_index: None,
        ahead: branch.ahead,
        behind: branch.behind,
        upstream: clone_text(&branch.upstream),
        last_commit_rel: branch.last_commit_rel.clone(),
        subject: branch.subject.clone(),
        stats: branch.stats,
        base: clone_text(&branch.base),
        base_is_override: branch.base_is_override,
        dirty_count: branch.dirty_count,
        merge_base_short: clone_text(&branch.merge_base_short),
        commit_sha: branch.commit_sha.clone(),
        author: branch.author.clone(),
    }
}

fn find_branch<'a>(branches: &'a Vec<BranchInfo>, name: &str) -> (res: Option<&'a BranchInfo>)
    ensures
        match res {
            Some(branch) => branch_named(branches@, name@, 0) == Some(*branch),
            None => branch_named(branches@, name@, 0) is None,
        },
{
    let mut i: usize = 0;
    while i < branches.len()
        invariant
            i <= branches@.len(),
            branch_named(branches@, name@, 0) == branch_named(branches@, name@, i as int),
        decreases branches@.len() - i,
    {
        if same(branches[i].name.as_str(), name) {
            return Some(&branches[i]);
        }
        i += 1;
    }
    None
}

fn contains_path(paths: &Vec<String>, path: &str) -> (res: bool)
    ensures
        res == holds_path(paths@, path@),
{
    let mut i: usize = 0;
    while i < paths.len()
        invariant
            i <= paths@.len(),
            forall|j: int| 0 <= j < i ==> !path_eq((#[trigger] paths@[j])@, path@),
        decreases paths@.len() - i,
    {
        if same_path(paths[i].as_str(), path) {
            return true;
        }
        i += 1;
    }
    false
}

fn worktree_row(tree: &WorktreeInfo, page: &RepoPageData) -> (res: PageRow)
    ensures
        is_worktree_row(res, *tree, *page),
{
    let dirty = contains_path(&page.dirty_worktrees, tree.path.as_str());
    let mut row = PageRow {
        kind: PageRowKind::Worktree,
        branch: tree.branch.clone(),
        path: tree.path.clone(),
        deletable: false,
        is_head: false,
        dirty,
        stash_index: None,
        ahead: None,
        behind: None,
        upstream: None,
        last_commit_rel: String::new(),
        subject: String::new(),
        stats: None,
        base: None,
        base_is_override: false,
        dirty_count: 0,
        merge_base_short: None,
        commit_sha: String::new(),
        author: String::new(),
    };
    match find_branch(&page.branches, tree.branch.as_str()) {
        Some(branch) => {
            row.ahead = branch.ahead;
            row.behind = branch.behind;
            row.upstream = clone_text(&branch.upstream);
            row.last_commit_rel = branch.last_commit_rel.clone();
            row.stats = branch.stats;
            row.base = clone_text(&branch.base);
            row.base_is_override = branch.base_is_override;
            row.dirty_count = branch.dirty_count;
            row.merge_base_short = clone_text(&branch.merge_base_short);
            row.commit_sha = branch.commit_sha.clone();
            row.author = branch.author.clone();
        },
        None => {},
    }
    row
}

fn stash_row(stash: &StashInfo, path: &String) -> (res: PageRow)
    ensures
        is_stash_row(res, *stash, *path),
{
    PageRow {
        kind: PageRowKind::Stash,
        branch: stash.label.clone(),
        path: path.clone(),
        deletable: false,
        is_head: false,
        dirty: false,
        stash_index: Some(stash.index),
        ahead: None,
        behind: None,
        upstream: None,
        last_commit_rel: String::new(),
        subject: String::new(),
        stats: None,
        base: None,
        base_is_override: false,
        dirty_count: 0,
        merge_base_short: None,
        commit_sha: String::new(),
        author: String::new(),
    }
}

fn page_rows(repo: &RepoState) -> (res: Vec<PageRow>)
    ensures
        res@.len() == row_count(*repo),
        forall|i: int| 0 <= i < res@.len() ==> is_row_at(*repo, i, #[trigger] res@[i]),
{
    let mut rows: Vec<PageRow> = Vec::new();
    match &repo.page {
        None => rows,
        Some(page) => {
            let mut i: usize = 0;
            while i < page.branches.len()
                invariant
                    repo.page == Some(*page),
                    i <= page.branches@.len(),
                    rows@.len() == i,
                    forall|k: int| 0 <= k < i ==> is_row_at(*repo, k, #[trigger] rows@[k]),
                decreases page.branches@.len() - i,
            {
                rows.push(branch_row(&page.branches[i], page, &repo.path));
                i += 1;
            }
            let mut i: usize = 0;
            while i < page.worktrees.len()
                invariant
                    repo.page == Some(*page),
                    i <= page.worktrees@.len(),
                    rows@.len() == page.branches@.len() + i,
                    forall|k: int| 0 <= k < rows@.len() ==> is_row_at(*repo, k, #[trigger] rows@[k]),
                decreases page.worktrees@.len() - i,
            {
                rows.push(worktree_row(&page.worktrees[i], page));
                i += 1;
            }
            let mut i: usize = 0;
            while i < page.stashes.len()
                invariant
                    repo.page == Some(*page),
                    i <= page.stashes@.len(),
                    rows@.len() == page.branches@.len() + page.worktrees@.len() + i,
                    forall|k: int| 0 <= k < rows@.len() ==> is_row_at(*repo, k, #[trigger] rows@[k]),
                decreases page.stashes@.len() - i,
            {
                rows.push(stash_row(&page.stashes[i], &repo.path));
                i += 1;
            }
            rows
        },
    }
}

impl AppState {
    /// The number of rows of the open repo page.
    pub open spec fn page_len(self) -> nat {
        match self.page.repo {
            Some(idx) => row_count(self.repos@[idx as int]),
            None => 0,
        }
    }

    /// A value is the selected row of the open repo page.
    pub open spec fn is_target(self, row: PageRow) -> bool {
        self.page.repo matches Some(idx) && self.page.selected < self.page_len() && is_row_at(
            self.repos@[idx as int],
            self.page.selected as int,
            row,
        )
    }

    /// The repo page of the selected repo was opened, to be read afresh.
    #[verifier::opaque]
    pub open spec fn page_opened(self, after: AppState) -> bool {
        match self.current() {
            Some(idx) => {
                &&& after.repos@ == self.repos@.update(
                    idx as int,
                    RepoState { page: None, ..self.repos@[idx as int] },
                )
                &&& after == (AppState {
                    repos: after.repos,
                    page: (PageState {
                        repo: Some(idx),
                        selected: 0,
                        focus_pending: true,
                        scroll: 0,
                        message: None,
                        toggle: self.page.toggle,
                    }),
                    ..self
                })
            },
            None => after == self,
        }
    }

    /// Open the dedicated repo page for the selected repo (forces a fresh fetch).
    pub fn open_repo_page(&mut self)
        requires
            old(self).wf(),
        ensures
            final(self).wf(),
            old(self).page_opened(*final(self)),
    {
        reveal(AppState::page_opened);
        match self.selected_repo_index() {
            Some(idx) => {
                self.page.repo = Some(idx);
                self.page.selected = 0;
                self.page.focus_pending = true;
                self.page.scroll = 0;
                self.page.message = None;
                self.repos[idx].page = None;
            },
            None => {},
        }
    }

    /// Back to the list.
    pub fn close_repo_page(&mut self)
        ensures
            old(self).wf() ==> final(self).wf(),
            *final(self) == old(self).with_page_closed(),
    {
        reveal(AppState::with_page_closed);
        self.page.repo = None;
        self.page.message = None;
    }

    /// The repo page's selectable rows (branches, worktrees, stashes), in display order.
    pub fn repo_page_rows(&self) -> (res: Vec<PageRow>)
        requires
            self.wf(),
        ensures
            res@.len() == self.page_len(),
            self.page.repo matches Some(idx) ==> forall|i: int|
                0 <= i < res@.len() ==> is_row_at(self.repos@[idx as int], i, #[trigger] res@[i]),
    {
        match self.page.repo {
            Some(idx) => page_rows(&self.repos[idx]),
            None => Vec::new(),
        }
    }

    /// The number of selectable rows.
    pub fn repo_page_selectable_len(&self) -> (res: usize)
        requires
            self.wf(),
        ensures
            res == self.page_len(),
    {
        self.repo_page_rows().len()
    }

    /// The currently selected repo-page row, if any.
    pub fn repo_page_target(&self) -> (res: Option<PageRow>)
        requires
            self.wf(),
        ensures
            match res {
                Some(row) => self.is_target(row),
                None => self.page.selected >= self.page_len(),
            },
    {
        let mut rows = self.repo_page_rows();
        if self.page.selected < rows.len() {
            Some(rows.remove(self.page.selected))
        } else {
            None
        }
    }

    /// What a diff modal on a row shows: a stash, the uncommitted changes of a dirty branch
    /// or worktree, or what a clean branch changed against its base.
    pub open spec fn source_of(row: PageRow) -> Option<DiffSource> {
        match row.kind {
            PageRowKind::Stash => match row.stash_index {
                Some(index) => Some(
                    DiffSource::Stash { path: row.path, index, label: row.branch },
                ),
                None => None,
            },
            PageRowKind::Branch => if row.dirty {
                Some(DiffSource::Dirty { path: row.path, name: row.branch })
            } else {
                Some(DiffSource::Branch { path: row.path, name: row.branch })
            },
            PageRowKind::Worktree => if row.dirty {
                Some(DiffSource::Dirty { path: row.path, name: row.branch })
            } else {
                None
            },
        }
    }

    /// Build a `DiffSource` for the selected repo-page row if it's diff-able
    /// (a stash, a dirty branch/worktree, or a branch); otherwise None.
    pub fn diff_source_for_selected(&self) -> (res: Option<DiffSource>)
        requires
            self.wf(),
        ensures
            self.page.selected < self.page_len() ==> exists|row: PageRow|
                self.is_target(row) && res == #[trigger] Self::source_of(row),
            self.page.selected >= self.page_len() ==> res is None,
    {
        match self.repo_page_target() {
            Some(row) => {
                let ghost target = row;
                let res = match row.kind {
                    PageRowKind::Stash => match row.stash_index {
                        Some(index) => Some(
                            DiffSource::Stash { path: row.path, index, label: row.branch },
                        ),
                        None => None,
                    },
                    PageRowKind::Branch => if row.dirty {
                        Some(DiffSource::Dirty { path: row.path, name: row.branch })
                    } else {
                        Some(DiffSource::Branch { path: row.path, name: row.branch })
                    },
                    PageRowKind::Worktree => if row.dirty {
                        Some(DiffSource::Dirty { path: row.path, name: row.branch })
                    } else {
                        None
                    },
                };
                assert(res == Self::source_of(target));
                res
            },
            None => None,
        }
    }

    /// The selectable repo-page row at a screen row, if any (mouse hit-test).
    pub fn repo_page_row_at(&self, row: u16) -> (res: Option<usize>)
        ensures
            res == first_at(self.hits.page_rows@, row, 0),
    {
        find_at(&self.hits.page_rows, row)
    }

    /// The current branch of the open repo page among its branches from `from` on.
    pub open spec fn head_row(branches: Seq<BranchInfo>, from: int) -> int
        decreases branches.len() - from,
    {
        if from < 0 || from >= branches.len() {
            0
        } else if branches[from].is_head {
            from
        } else {
            Self::head_row(branches, from + 1)
        }
    }

    /// Puts the selection on the current branch once the page's rows are there.
    pub fn focus_head_branch_if_pending(&mut self)
        requires
            old(self).wf(),
        ensures
            final(self).wf(),
            match old(self).page.repo {
                Some(idx) => match old(self).repos@[idx as int].page {
                    Some(page) => if old(self).page.focus_pending && page.branches@.len() > 0 {
                        *final(self) == (AppState {
                            page: (PageState {
                                selected: Self::head_row(page.branches@, 0) as usize,
                                focus_pending: false,
                                ..old(self).page
                            }),
                            ..*old(self)
                        })
                    } else {
                        *final(self) == *old(self)
                    },
                    None => *final(self) == *old(self),
                },
                None => *final(self) == *old(self),
            },
    {
        if !self.page.focus_pending {
            return;
        }
        let head: Option<usize> = match self.page.repo {
            Some(idx) => match &self.repos[idx].page {
                Some(page) => if page.branches.len() > 0 {
                    Some(head_index(&page.branches))
                } else {
                    None
                },
                None => None,
            },
            None => None,
        };
        match head {
            Some(row) => {
                self.page.selected = row;
                self.page.focus_pending = false;
            },
            None => {},
        }
    }
}

fn head_index(branches: &Vec<BranchInfo>) -> (res: usize)
    ensures
        res == AppState::head_row(branches@, 0),
{
    let mut i: usize = 0;
    while i < branches.len()
        invariant
            i <= branches@.len(),
            AppState::head_row(branches@, 0) == AppState::head_row(branches@, i as int),
        decreases branches@.len() - i,
    {
        if branches[i].is_head {
            return i;
        }
        i += 1;
    }
    0
}

/// The first entry from `from` on that stands at a screen row.
pub open spec fn first_at(entries: Seq<(u16, usize)>, row: u16, from: int) -> Option<usize>
    decreases entries.len() - from,
{
    if from < 0 || from >= entries.len() {
        None
    } else if entries[from].0 == row {
        Some(entries[from].1)
    } else {
        first_at(entries, row, from + 1)
    }
}

/// The first entry that stands at a screen row.
pub fn find_at(entries: &Vec<(u16, usize)>, row: u16) -> (res: Option<usize>)
    ensures
        res == first_at(entries@, row, 0),
{
    let mut i: usize = 0;
    while i < entries.len()
        invariant
            i <= entries@.len(),
            first_at(entries@, row, 0) == first_at(entries@, row, i as int),
        decreases entries@.len() - i,
    {
        if entries[i].0 == row {
            return Some(entries[i].1);
        }
        i += 1;
    }
    None
}

// ---- what the rows of the page are ----

/// The page shows the branches, then the worktrees, then the stashes, each in its order.
pub proof fn law_rows_in_order(repo: RepoState, page: RepoPageData, i: int, row: PageRow)
    requires
        repo.page == Some(page),
        0 <= i < row_count(repo),
        is_row_at(repo, i, row),
    ensures
        row_count(repo) == page.branches@.len() + page.worktrees@.len() + page.stashes@.len(),
        row.kind is Branch <==> i < page.branches@.len(),
        row.kind is Stash <==> page.branches@.len() + page.worktrees@.len() <= i,
        row.kind is Branch ==> row.branch == page.branches@[i].name && row.path == repo.path
            && row.is_head == page.branches@[i].is_head,
        row.kind is Branch ==> (row.dirty <==> page.branches@[i].is_head && page.head_dirty),
        row.kind is Worktree ==> row.path == page.worktrees@[i - page.branches@.len()].path
            && row.branch == page.worktrees@[i - page.branches@.len()].branch && !row.is_head,
        row.kind is Stash ==> row.stash_index == Some(
            page.stashes@[i - page.branches@.len() - page.worktrees@.len()].index,
        ) && row.path == repo.path && !row.dirty,
        row.kind !is Stash ==> row.stash_index is None,
        row.kind !is Branch ==> !row.deletable,
{
}

/// A worktree has uncommitted changes exactly if its path is among those that were found to have
/// them; what else its row says it has from the branch that is checked out there.
pub proof fn law_facts_of_a_worktree(row: PageRow, tree: WorktreeInfo, page: RepoPageData, k: int)
    requires
        is_worktree_row(row, tree, page),
        0 <= k < page.branches@.len(),
        page.branches@[k].name@ == tree.branch@,
        forall|j: int|
            0 <= j < k ==> (#[trigger] page.branches@[j]).name@ != tree.branch@,
    ensures
        row.dirty <==> exists|i: int|
            0 <= i < page.dirty_worktrees@.len() && path_eq(
                (#[trigger] page.dirty_worktrees@[i])@,
                tree.path@,
            ),
        row.ahead == page.branches@[k].ahead && row.behind == page.branches@[k].behind,
        row.base == page.branches@[k].base && row.upstream == page.branches@[k].upstream,
        row.stats == page.branches@[k].stats,
{
    lemma_branch_named(page.branches@, tree.branch@, 0, k);
}

proof fn lemma_branch_named(branches: Seq<BranchInfo>, name: Seq<char>, from: int, k: int)
    requires
        0 <= from <= k < branches.len(),
        branches[k].name@ == name,
        forall|j: int| 0 <= j < k ==> (#[trigger] branches[j]).name@ != name,
    ensures
        branch_named(branches, name, from) == Some(branches[k]),
    decreases k - from,
{
    if from < k {
        assert(branches[from].name@ != name);
        lemma_branch_named(branches, name, from + 1, k);
    }
}

/// What a row is compared with when it is opened: a stash by its number, uncommitted changes
/// where there are some, and a clean branch with its base; a clean worktree is not opened.
pub proof fn law_what_a_row_opens(row: PageRow)
    ensures
        row.kind is Branch && row.dirty ==> AppState::source_of(row) == Some(
            DiffSource::Dirty { path: row.path, name: row.branch },
        ),
        row.kind is Branch && !row.dirty ==> AppState::source_of(row) == Some(
            DiffSource::Branch { path: row.path, name: row.branch },
        ),
        row.kind is Worktree && row.dirty ==> AppState::source_of(row) == Some(
            DiffSource::Dirty { path: row.path, name: row.branch },
        ),
        row.kind is Worktree && !row.dirty ==> AppState::source_of(row) is None,
        row.kind is Stash && row.stash_index is Some ==> AppState::source_of(row) == Some(
            DiffSource::Stash { path: row.path, index: row.stash_index->0, label: row.branch },
        ),
{
}

proof fn lemma_head_row(branches: Seq<BranchInfo>, from: int, k: int)
    requires
        0 <= from <= k < branches.len(),
        branches[k].is_head,
        forall|j: int| from <= j < k ==> !(#[trigger] branches[j]).is_head,
    ensures
        AppState::head_row(branches, from) == k,
    decreases k - from,
{
    if from < k {
        lemma_head_row(branches, from + 1, k);
    }
}

/// The page opens with the current branch selected.
pub proof fn law_page_opens_on_the_current_branch(branches: Seq<BranchInfo>, k: int)
    requires
        0 <= k < branches.len(),
        branches[k].is_head,
        forall|j: int| 0 <= j < k ==> !(#[trigger] branches[j]).is_head,
    ensures
        AppState::head_row(branches, 0) == k,
{
    lemma_head_row(branches, 0, k);
}

/// Opening the page of the selected repo reads it anew and starts at its first row.
pub proof fn law_opening_the_page(before: AppState, after: AppState, k: usize)
    requires
        before.page_opened(after),
        before.current() == Some(k),
        k < before.repos@.len(),
    ensures
        after.page.repo == Some(k),
        after.repos@[k as int].page is None,
        after.page.selected == 0 && after.page.scroll == 0 && after.page.message is None,
        after.page.focus_pending,
        forall|j: int|
            0 <= j < before.repos@.len() && j != k ==> after.repos@[j] == #[trigger] before.repos@[j],
{
    reveal(AppState::page_opened);
}

} // verus!
