//! What a key does in the diff modal and on the repo page.

use vstd::prelude::*;
use vstd::string::*;

use crate::app::AppState;
use crate::dialogs::{
    ConfirmAction, ConfirmDialog, DiffModal, DiffSource, PageRow, PageRowKind,
};
use crate::input::{Effect, Key, KeyCode, INTERRUPTED};
use crate::modals::shift;
use crate::options::{DiffFocus, RepoPageColumn, RepoPageColumns};
use crate::paths::{path_eq, same_path};
use crate::repo::{BranchInfo, BranchStats};
use crate::text::cat3;

verus! {

// ---- the diff modal ----

/// What moving the file selection does: the newly selected file's diff is to be fetched.
pub open spec fn file_stepped(before: AppState, delta: int, after: AppState, effect: Effect) -> bool {
    let modal = before.overlays.diff->0;
    if modal.listed().len() > 0 && modal.stepped(delta) != modal.selected {
        before.file_picked(after, modal.stepped(delta) as int) && effect is LoadFile
    } else {
        after == before && effect is Nothing
    }
}

/// What picking a file does: its diff is to be fetched unless it was selected already.
pub open spec fn file_chosen(before: AppState, index: int, after: AppState, effect: Effect) -> bool {
    let modal = before.overlays.diff->0;
    if index < modal.files@.len() && index != modal.selected {
        before.file_picked(after, index) && effect is LoadFile
    } else {
        after == before && effect is Nothing
    }
}

/// A count of lines that a page key moves by: at least one.
pub open spec fn page_step(viewport: usize) -> int {
    if viewport == 0 {
        1
    } else if viewport > isize::MAX {
        isize::MAX as int
    } else {
        viewport as int
    }
}

/// The status filter went on to its next letter.
pub open spec fn filter_cycled(before: AppState, after: AppState, effect: Effect) -> bool {
    match before.next_filter() {
        Some(letter) => match before.filtered(letter).reselected() {
            Some(index) => before.filtered(letter).file_picked(after, index as int)
                && effect is LoadFile,
            None => after == before.filtered(letter) && effect is Nothing,
        },
        None => after == before && effect is Nothing,
    }
}

/// The other diff of a dirty row is to be shown.
pub open spec fn mode_toggled(before: AppState, after: AppState, effect: Effect) -> bool {
    let modal = before.overlays.diff->0;
    if modal.source is Dirty {
        &&& after.overlays.diff is Some
        &&& after.overlays.diff->0.fresh(
            modal.source,
            crate::modals::other_mode(modal.mode),
            modal.focus,
        )
        &&& after == before.with_diff(after.overlays.diff)
        &&& effect is LoadDiff
    } else {
        after == before && effect is Nothing
    }
}

/// The question before a worktree with changes is removed.
pub open spec fn lost_question(path: Seq<char>) -> Seq<char> {
    "Remove worktree "@ + path + "? Uncommitted changes will be LOST."@
}

/// What `d` does in the diff modal: a branch diff is read-only; any other modal closes, and what
/// it shows is dropped, discarded or removed after a confirmation.
pub open spec fn diff_cleared(before: AppState, after: AppState, effect: Effect) -> bool {
    match before.overlays.diff->0.source {
        DiffSource::Branch { .. } => after == before && effect is Nothing,
        DiffSource::Stash { index, .. } => {
            &&& after == before.with_diff(None)
            &&& match before.page.repo {
                Some(idx) => effect == Effect::PrepareDropStash { repo_idx: idx, index },
                None => effect is Nothing,
            }
        },
        DiffSource::Dirty { path, .. } => match before.page.repo {
            Some(idx) => if path_eq(path@, before.repos@[idx as int].path@) {
                &&& after == before.with_diff(None)
                &&& effect == Effect::PrepareDiscard { repo_idx: idx, path }
            } else {
                &&& after.overlays.confirm is Some
                &&& after.overlays.confirm->0.is_simple(
                    lost_question(path@),
                    ConfirmAction::RemoveWorktree { repo_idx: idx, path, force: true },
                    true,
                )
                &&& after == before.with_diff(None).with_confirm(after.overlays.confirm)
                &&& effect is Nothing
            },
            None => after == before.with_diff(None) && effect is Nothing,
        },
    }
}

/// What a key does in the diff modal.
pub open spec fn diff_keyed(before: AppState, key: Key, after: AppState, effect: Effect) -> bool {
    let modal = before.overlays.diff->0;
    let files = modal.focus is Files;
    if key.interrupts() {
        after == before && effect == Effect::Exit(INTERRUPTED)
    } else if key.code is Esc || key.types('q') {
        after == before.with_diff(None) && effect is Nothing
    } else if key.types('?') {
        after == before.with_help_opened() && effect is Nothing
    } else if key.code is Tab || key.code is BackTab {
        after == before.refocused() && effect is Nothing
    } else if key.types('j') || key.code is Down {
        if files {
            file_stepped(before, 1, after, effect)
        } else {
            after == before.diff_scrolled(1) && effect is Nothing
        }
    } else if key.types('k') || key.code is Up {
        if files {
            file_stepped(before, -1, after, effect)
        } else {
            after == before.diff_scrolled(-1) && effect is Nothing
        }
    } else if key.types('g') || key.code is Home {
        if files {
            file_chosen(before, 0, after, effect)
        } else {
            after == before.diff_at(0) && effect is Nothing
        }
    } else if key.types('G') || key.code is End {
        if files {
            file_chosen(
                before,
                if modal.files@.len() > 0 {
                    modal.files@.len() - 1
                } else {
                    0
                },
                after,
                effect,
            )
        } else {
            after == before.diff_at(usize::MAX) && effect is Nothing
        }
    } else if key.code is PageDown {
        if key.shift || key.alt {
            file_stepped(before, page_step(before.hits.diff_files_viewport), after, effect)
        } else {
            after == before.diff_scrolled(page_step(before.hits.diff_viewport)) && effect is Nothing
        }
    } else if key.code is PageUp {
        if key.shift || key.alt {
            file_stepped(before, -page_step(before.hits.diff_files_viewport), after, effect)
        } else {
            after == before.diff_scrolled(-page_step(before.hits.diff_viewport))
                && effect is Nothing
        }
    } else if key.types('f') {
        filter_cycled(before, after, effect)
    } else if key.types('t') {
        mode_toggled(before, after, effect)
    } else if key.types('d') {
        diff_cleared(before, after, effect)
    } else {
        after == before && effect is Nothing
    }
}

fn step_of(viewport: usize) -> (res: isize)
    ensures
        res == page_step(viewport),
        res >= 1,
{
    if viewport == 0 {
        1
    } else if viewport > isize::MAX as usize {
        isize::MAX
    } else {
        viewport as isize
    }
}

pub(crate) fn step_file(app: &mut AppState, delta: isize) -> (res: Effect)
    requires
        old(app).overlays.diff is Some,
    ensures
        final(app).wf() == old(app).wf(),
        file_stepped(*old(app), delta as int, *final(app), res),
{
    if app.diff_modal_select(delta) {
        Effect::LoadFile
    } else {
        Effect::Nothing
    }
}

pub(crate) fn choose_file(app: &mut AppState, index: usize) -> (res: Effect)
    requires
        old(app).overlays.diff is Some,
    ensures
        final(app).wf() == old(app).wf(),
        file_chosen(*old(app), index as int, *final(app), res),
{
    if app.diff_modal_select_index(index) {
        Effect::LoadFile
    } else {
        Effect::Nothing
    }
}

fn cycle_filter(app: &mut AppState) -> (res: Effect)
    ensures
        final(app).wf() == old(app).wf(),
        filter_cycled(*old(app), *final(app), res),
{
    if app.diff_modal_cycle_filter() {
        Effect::LoadFile
    } else {
        Effect::Nothing
    }
}

fn toggle_mode(app: &mut AppState) -> (res: Effect)
    requires
        old(app).overlays.diff is Some,
    ensures
        final(app).wf() == old(app).wf(),
        mode_toggled(*old(app), *final(app), res),
{
    reveal(AppState::with_diff);
    if app.diff_modal_toggle_mode() {
        Effect::LoadDiff
    } else {
        Effect::Nothing
    }
}

fn remove_question(repo_idx: usize, path: &String) -> (res: ConfirmDialog)
    ensures
        res.is_simple(
            lost_question(path@),
            ConfirmAction::RemoveWorktree { repo_idx, path: *path, force: true },
            true,
        ),
{
    ConfirmDialog::simple(
        cat3("Remove worktree ", path.as_str(), "? Uncommitted changes will be LOST."),
        ConfirmAction::RemoveWorktree { repo_idx, path: path.clone(), force: true },
        true,
    )
}

fn ask_removal(app: &mut AppState, repo_idx: usize, path: &String)
    ensures
        final(app).wf() == old(app).wf(),
        final(app).overlays.confirm is Some,
        final(app).overlays.confirm->0.is_simple(
            lost_question(path@),
            ConfirmAction::RemoveWorktree { repo_idx, path: *path, force: true },
            true,
        ),
        *final(app) == old(app).with_confirm(final(app).overlays.confirm),
{
    reveal(AppState::with_confirm);
    let dialog = remove_question(repo_idx, path);
    app.set_confirm(Some(dialog));
}

fn clear_diff(app: &mut AppState) -> (res: Effect)
    requires
        old(app).wf(),
        old(app).overlays.diff is Some,
    ensures
        final(app).wf(),
        diff_cleared(*old(app), *final(app), res),
{
    let source: DiffSource = match &app.overlays.diff {
        Some(modal) => modal.source.clone(),
        None => return Effect::Nothing,
    };
    let repo = app.page.repo;
    match source {
        DiffSource::Branch { .. } => Effect::Nothing,
        DiffSource::Stash { index, .. } => {
            app.set_diff(None);
            match repo {
                Some(idx) => Effect::PrepareDropStash { repo_idx: idx, index },
                None => Effect::Nothing,
            }
        },
        DiffSource::Dirty { path, .. } => match repo {
            Some(idx) => {
                let here = same_path(path.as_str(), app.repos[idx].path.as_str());
                app.set_diff(None);
                if here {
                    Effect::PrepareDiscard { repo_idx: idx, path }
                } else {
                    ask_removal(app, idx, &path);
                    Effect::Nothing
                }
            },
            None => {
                app.set_diff(None);
                Effect::Nothing
            },
        },
    }
}

/// A key in the diff modal: pick a file or scroll the diff, toggle the diff's mode, filter the
/// files, clear what is shown, or close.
pub fn diff_key(app: &mut AppState, key: Key) -> (res: Effect)
    requires
        old(app).wf(),
        old(app).overlays.diff is Some,
    ensures
        final(app).wf(),
        diff_keyed(*old(app), key, *final(app), res),
{
    if key.is_interrupt() {
        return Effect::Exit(INTERRUPTED);
    }
    let (files, last): (bool, usize) = match &app.overlays.diff {
        Some(modal) => (
            modal.focus == DiffFocus::Files,
            if modal.files.len() > 0 {
                modal.files.len() - 1
            } else {
                0
            },
        ),
        None => (true, 0),
    };
    let file_page: isize = step_of(app.hits.diff_files_viewport);
    let diff_page: isize = step_of(app.hits.diff_viewport);
    match key.code {
        KeyCode::Esc | KeyCode::Char('q') => {
            app.set_diff(None);
            return Effect::Nothing;
        },
        KeyCode::Char('?') => {
            app.open_help();
            return Effect::Nothing;
        },
        KeyCode::Tab | KeyCode::BackTab => {
            app.diff_modal_toggle_focus();
            return Effect::Nothing;
        },
        KeyCode::Char('j') | KeyCode::Down => {
            if files {
                return step_file(app, 1);
            }
            app.diff_scroll_by(1);
            return Effect::Nothing;
        },
        KeyCode::Char('k') | KeyCode::Up => {
            if files {
                return step_file(app, -1);
            }
            app.diff_scroll_by(-1);
            return Effect::Nothing;
        },
        KeyCode::Char('g') | KeyCode::Home => {
            if files {
                return choose_file(app, 0);
            }
            app.diff_scroll_to(0);
            return Effect::Nothing;
        },
        KeyCode::Char('G') | KeyCode::End => {
            if files {
                return choose_file(app, last);
            }
            app.diff_scroll_to(usize::MAX);
            return Effect::Nothing;
        },
        KeyCode::PageDown => {
            if key.shift || key.alt {
                return step_file(app, file_page);
            }
            app.diff_scroll_by(diff_page);
            return Effect::Nothing;
        },
        KeyCode::PageUp => {
            if key.shift || key.alt {
                return step_file(app, -file_page);
            }
            app.diff_scroll_by(-diff_page);
            return Effect::Nothing;
        },
        KeyCode::Char('f') => return cycle_filter(app),
        KeyCode::Char('t') => return toggle_mode(app),
        KeyCode::Char('d') => return clear_diff(app),
        _ => return Effect::Nothing,
    }
}

// ---- confirmations on the repo page ----

/// The dialog before a row of the repo page is cleared.
pub open spec fn is_row_dialog(
    dialog: Option<ConfirmDialog>,
    repo_idx: usize,
    row: PageRow,
) -> bool {
    match row.kind {
        PageRowKind::Stash => dialog is None,
        PageRowKind::Worktree => dialog is Some && dialog->0.is_simple(
            if row.dirty {
                lost_question(row.path@)
            } else {
                "Remove worktree "@ + row.path@ + "?"@
            },
            ConfirmAction::RemoveWorktree { repo_idx, path: row.path, force: row.dirty },
            row.dirty,
        ),
        PageRowKind::Branch => if row.is_head {
            dialog is None
        } else if row.deletable {
            dialog is Some && dialog->0.is_simple(
                "Delete branch '"@ + row.branch@ + "'?"@,
                ConfirmAction::DeleteBranch { repo_idx, branch: row.branch, force: false },
                false,
            )
        } else {
            dialog is Some && dialog->0.is_simple(
                "Force-delete unmerged branch '"@ + row.branch@
                    + "'? Unmerged commits will be lost."@,
                ConfirmAction::DeleteBranch { repo_idx, branch: row.branch, force: true },
                true,
            )
        },
    }
}

/// Build the confirm dialog for clearing/deleting a repo-page row. Returns None for the HEAD
/// branch (which can't be deleted) and for a stash (whose files are listed first); the danger
/// flag scales the dialog's severity.
pub fn confirm_for_row(repo_idx: usize, row: &PageRow) -> (res: Option<ConfirmDialog>)
    ensures
        is_row_dialog(res, repo_idx, *row),
{
    match row.kind {
        PageRowKind::Stash => None,
        PageRowKind::Worktree => {
            let message = if row.dirty {
                cat3("Remove worktree ", row.path.as_str(), "? Uncommitted changes will be LOST.")
            } else {
                cat3("Remove worktree ", row.path.as_str(), "?")
            };
            Some(
                ConfirmDialog::simple(
                    message,
                    ConfirmAction::RemoveWorktree {
                        repo_idx,
                        path: row.path.clone(),
                        force: row.dirty,
                    },
                    row.dirty,
                ),
            )
        },
        PageRowKind::Branch => if row.is_head {
            None
        } else if row.deletable {
            Some(
                ConfirmDialog::simple(
                    cat3("Delete branch '", row.branch.as_str(), "'?"),
                    ConfirmAction::DeleteBranch {
                        repo_idx,
                        branch: row.branch.clone(),
                        force: false,
                    },
                    false,
                ),
            )
        } else {
            Some(
                ConfirmDialog::simple(
                    cat3(
                        "Force-delete unmerged branch '",
                        row.branch.as_str(),
                        "'? Unmerged commits will be lost.",
                    ),
                    ConfirmAction::DeleteBranch {
                        repo_idx,
                        branch: row.branch.clone(),
                        force: true,
                    },
                    true,
                ),
            )
        },
    }
}

/// A dialog that is marked as dangerous is exactly one whose action is forced, and the current
/// branch is never offered for deletion.
pub proof fn law_danger_means_force(dialog: ConfirmDialog, repo_idx: usize, row: PageRow)
    requires
        is_row_dialog(Some(dialog), repo_idx, row),
    ensures
        match dialog.action {
            ConfirmAction::DeleteBranch { force, .. } => dialog.danger == force && !row.is_head,
            ConfirmAction::RemoveWorktree { force, .. } => dialog.danger == force && force
                == row.dirty,
            _ => false,
        },
{
}

// ---- columns of the repo page ----

/// Whether a branch has something to show in a column, or may still turn out to have.
pub open spec fn fills(branch: BranchInfo, column: RepoPageColumn) -> bool {
    match column {
        RepoPageColumn::AheadBehind => branch.ahead is Some,
        RepoPageColumn::Dirty => branch.dirty_count > 0,
        RepoPageColumn::Added => branch.stats is None || branch.stats->0.added > 0,
        RepoPageColumn::Modified => branch.stats is None || branch.stats->0.modified > 0,
        RepoPageColumn::Deleted => branch.stats is None || branch.stats->0.deleted > 0,
        RepoPageColumn::Total => branch.stats is None || branch.stats->0.sum() > 0,
        RepoPageColumn::Upstream => branch.upstream is Some,
        RepoPageColumn::Base => branch.stats is None || branch.base is Some,
        RepoPageColumn::Age => branch.last_commit_rel@.len() > 0,
        RepoPageColumn::Subject => branch.subject@.len() > 0,
    }
}

fn fills_column(branch: &BranchInfo, column: RepoPageColumn) -> (res: bool)
    ensures
        res == fills(*branch, column),
{
    match column {
        RepoPageColumn::AheadBehind => branch.ahead.is_some(),
        RepoPageColumn::Dirty => branch.dirty_count > 0,
        RepoPageColumn::Added => match &branch.stats {
            Some(stats) => stats.added > 0,
            None => true,
        },
        RepoPageColumn::Modified => match &branch.stats {
            Some(stats) => stats.modified > 0,
            None => true,
        },
        RepoPageColumn::Deleted => match &branch.stats {
            Some(stats) => stats.deleted > 0,
            None => true,
        },
        RepoPageColumn::Total => match &branch.stats {
            Some(stats) => stats.total() > 0,
            None => true,
        },
        RepoPageColumn::Upstream => branch.upstream.is_some(),
        RepoPageColumn::Base => branch.stats.is_none() || branch.base.is_some(),
        RepoPageColumn::Age => !branch.last_commit_rel.as_str().is_empty(),
        RepoPageColumn::Subject => !branch.subject.as_str().is_empty(),
    }
}

impl AppState {
    /// Whether some branch of the open repo page fills a column.
    pub open spec fn page_column_filled(self, column: RepoPageColumn) -> bool {
        match self.page.repo {
            Some(idx) => match self.repos@[idx as int].page {
                Some(page) => exists|i: int|
                    0 <= i < page.branches@.len() && fills(#[trigger] page.branches@[i], column),
                None => true,
            },
            None => true,
        }
    }

    /// Whether a column of the repo page has anything to show: one that every branch leaves
    /// empty has not.
    pub fn repo_page_column_available(&self, column: RepoPageColumn) -> (res: bool)
        requires
            self.wf(),
        ensures
            res == self.page_column_filled(column),
    {
        match self.page.repo {
            Some(idx) => match &self.repos[idx].page {
                Some(page) => {
                    let mut i: usize = 0;
                    while i < page.branches.len()
                        invariant
                            i <= page.branches@.len(),
                            self.page.repo == Some(idx),
                            self.repos@[idx as int].page == Some(*page),
                            forall|k: int|
                                0 <= k < i ==> !fills(#[trigger] page.branches@[k], column),
                        decreases page.branches@.len() - i,
                    {
                        if fills_column(&page.branches[i], column) {
                            return true;
                        }
                        i += 1;
                    }
                    false
                },
                None => true,
            },
            None => true,
        }
    }

    /// The enabled columns of the repo page that have something to show.
    pub open spec fn shown_page_columns(self) -> RepoPageColumns {
        let columns = self.prefs.repo_page_columns;
        RepoPageColumns {
            ahead_behind: columns.ahead_behind && self.page_column_filled(
                RepoPageColumn::AheadBehind,
            ),
            dirty: columns.dirty && self.page_column_filled(RepoPageColumn::Dirty),
            added: columns.added && self.page_column_filled(RepoPageColumn::Added),
            modified: columns.modified && self.page_column_filled(RepoPageColumn::Modified),
            deleted: columns.deleted && self.page_column_filled(RepoPageColumn::Deleted),
            total: columns.total && self.page_column_filled(RepoPageColumn::Total),
            upstream: columns.upstream && self.page_column_filled(RepoPageColumn::Upstream),
            base: columns.base && self.page_column_filled(RepoPageColumn::Base),
            age: columns.age && self.page_column_filled(RepoPageColumn::Age),
            subject: columns.subject && self.page_column_filled(RepoPageColumn::Subject),
        }
    }

    /// The enabled columns of the repo page that have something to show.
    pub fn effective_repo_page_columns(&self) -> (res: RepoPageColumns)
        requires
            self.wf(),
        ensures
            res == self.shown_page_columns(),
    {
        let columns = self.prefs.repo_page_columns;
        RepoPageColumns {
            ahead_behind: columns.ahead_behind && self.repo_page_column_available(
                RepoPageColumn::AheadBehind,
            ),
            dirty: columns.dirty && self.repo_page_column_available(RepoPageColumn::Dirty),
            added: columns.added && self.repo_page_column_available(RepoPageColumn::Added),
            modified: columns.modified && self.repo_page_column_available(
                RepoPageColumn::Modified,
            ),
            deleted: columns.deleted && self.repo_page_column_available(RepoPageColumn::Deleted),
            total: columns.total && self.repo_page_column_available(RepoPageColumn::Total),
            upstream: columns.upstream && self.repo_page_column_available(RepoPageColumn::Upstream),
            base: columns.base && self.repo_page_column_available(RepoPageColumn::Base),
            age: columns.age && self.repo_page_column_available(RepoPageColumn::Age),
            subject: columns.subject && self.repo_page_column_available(RepoPageColumn::Subject),
        }
    }
}

/// What `d` does in the diff modal: a stash is offered to be dropped, the changes of the repo to
/// be discarded, a worktree with changes to be removed; a branch is left alone. Nothing is done
/// without being asked about.
pub proof fn law_clearing_a_diff(before: AppState, key: Key, after: AppState, effect: Effect, idx: usize)
    requires
        diff_keyed(before, key, after, effect),
        before.overlays.diff is Some,
        before.page.repo == Some(idx),
        key.code == KeyCode::Char('d'),
    ensures
        match before.overlays.diff->0.source {
            DiffSource::Branch { .. } => after == before && effect is Nothing,
            DiffSource::Stash { index, .. } => after.overlays.diff is None && effect
                == (Effect::PrepareDropStash { repo_idx: idx, index }),
            DiffSource::Dirty { path, .. } => {
                &&& after.overlays.diff is None
                &&& path_eq(path@, before.repos@[idx as int].path@) ==> effect
                    == (Effect::PrepareDiscard { repo_idx: idx, path })
                &&& !path_eq(path@, before.repos@[idx as int].path@) ==> effect is Nothing
                    && after.overlays.confirm is Some && after.overlays.confirm->0.danger
                    && after.overlays.confirm->0.action == (ConfirmAction::RemoveWorktree {
                    repo_idx: idx,
                    path,
                    force: true,
                })
            },
        },
{
    reveal(AppState::with_diff);
    reveal(AppState::with_confirm);
}

/// The other keys of the diff modal: leaving closes it, `Tab` moves the focus, `t` changes what
/// uncommitted work is compared with, and what scrolls depends on the focus.
pub proof fn law_diff_keys(before: AppState, key: Key, after: AppState, effect: Effect, modal: DiffModal)
    requires
        diff_keyed(before, key, after, effect),
        before.overlays.diff == Some(modal),
        !key.interrupts(),
    ensures
        key.code is Esc || key.code == KeyCode::Char('q') ==> after.overlays.diff is None
            && after.repos == before.repos && effect is Nothing,
        key.code is Tab || key.code is BackTab ==> after.overlays.diff is Some
            && after.overlays.diff->0.focus != modal.focus && after.overlays.diff->0.selected
            == modal.selected && effect is Nothing,
        key.code == KeyCode::Char('t') && modal.source is Dirty ==> after.overlays.diff is Some
            && after.overlays.diff->0.mode != modal.mode && after.overlays.diff->0.source
            == modal.source && effect is LoadDiff,
        key.code == KeyCode::Char('t') && modal.source !is Dirty ==> after == before
            && effect is Nothing,
        (key.code == KeyCode::Char('j') || key.code is Down) && modal.focus is Diff && modal.scroll
            < usize::MAX ==> after.overlays.diff is Some && after.overlays.diff->0.scroll
            == modal.scroll + 1,
        (key.code == KeyCode::Char('k') || key.code is Up) && modal.focus is Diff && modal.scroll
            > 0 ==> after.overlays.diff is Some && after.overlays.diff->0.scroll == modal.scroll
            - 1,
        (key.code == KeyCode::Char('g') || key.code is Home) && modal.focus is Diff
            ==> after.overlays.diff is Some && after.overlays.diff->0.scroll == 0,
        (key.code == KeyCode::Char('g') || key.code is Home) && modal.focus is Files
            && modal.selected != 0 && modal.files@.len() > 0 ==> after.overlays.diff is Some
            && after.overlays.diff->0.selected == 0 && effect is LoadFile,
        (key.code == KeyCode::Char('G') || key.code is End) && modal.focus is Files
            && 0 < modal.files@.len() <= usize::MAX && modal.selected != modal.files@.len() - 1
            ==> after.overlays.diff is Some && after.overlays.diff->0.selected == modal.files@.len()
            - 1 && effect is LoadFile,
        modal.focus is Files && key.code is Down && modal.listed().len() > 0 && modal.stepped(1)
            != modal.selected ==> after.overlays.diff is Some && after.overlays.diff->0.selected
            == modal.stepped(1) && effect is LoadFile,
        modal.focus is Files && key.code is Up && modal.listed().len() > 0 && modal.stepped(-1)
            != modal.selected ==> after.overlays.diff is Some && after.overlays.diff->0.selected
            == modal.stepped(-1) && effect is LoadFile,
{
    reveal(AppState::with_diff);
}

/// A column of the repo page has something to show where some branch has, or where that is not
/// known yet.
pub proof fn law_what_fills_a_column(branch: BranchInfo, stats: BranchStats)
    ensures
        fills(branch, RepoPageColumn::AheadBehind) <==> branch.ahead is Some,
        fills(branch, RepoPageColumn::Dirty) <==> branch.dirty_count > 0,
        fills(branch, RepoPageColumn::Upstream) <==> branch.upstream is Some,
        fills(branch, RepoPageColumn::Age) <==> branch.last_commit_rel@.len() > 0,
        fills(branch, RepoPageColumn::Subject) <==> branch.subject@.len() > 0,
        branch.stats is None ==> fills(branch, RepoPageColumn::Added) && fills(
            branch,
            RepoPageColumn::Modified,
        ) && fills(branch, RepoPageColumn::Deleted) && fills(branch, RepoPageColumn::Total) && fills(
            branch,
            RepoPageColumn::Base,
        ),
        branch.stats == Some(stats) ==> {
            &&& fills(branch, RepoPageColumn::Added) <==> stats.added > 0
            &&& fills(branch, RepoPageColumn::Modified) <==> stats.modified > 0
            &&& fills(branch, RepoPageColumn::Deleted) <==> stats.deleted > 0
            &&& fills(branch, RepoPageColumn::Total) <==> stats.added > 0 || stats.modified > 0
                || stats.deleted > 0
            &&& fills(branch, RepoPageColumn::Base) <==> branch.base is Some
        },
{
}

/// What the rows of the page ask before they are cleared.
pub proof fn law_what_is_asked(dialog: ConfirmDialog, repo_idx: usize, row: PageRow)
    requires
        is_row_dialog(Some(dialog), repo_idx, row),
    ensures
        row.kind is Worktree && row.dirty ==> dialog.message@ == "Remove worktree "@ + row.path@
            + "? Uncommitted changes will be LOST."@,
        row.kind is Worktree && !row.dirty ==> dialog.message@ == "Remove worktree "@ + row.path@
            + "?"@,
        row.kind is Branch && row.deletable ==> dialog.message@ == "Delete branch '"@ + row.branch@
            + "'?"@,
        row.kind is Branch && !row.deletable ==> dialog.message@
            == "Force-delete unmerged branch '"@ + row.branch@
            + "'? Unmerged commits will be lost."@,
        row.kind is Branch ==> dialog.danger == !row.deletable,
        row.kind !is Stash,
{
}

} // verus!
