//! What a key does on the repo page.

use vstd::prelude::*;
use vstd::string::*;

use crate::app::{AppState, Notices, Prefs};
use crate::dialogs::{ConfirmAction, ConfirmDialog, DiffSource, PageRow, PageRowKind};
use crate::input::{further, Effect, Key, KeyCode, INTERRUPTED};
use crate::keys::{confirm_for_row, is_row_dialog};
use crate::modals::shift;
use crate::options::{DiffFocus, DiffMode, RepoPageColumn};
use crate::page::holds_path;
use crate::repo::{BranchInfo, RepoPageData, StashInfo, WorktreeInfo};
use crate::text::cat3;

verus! {

// ---- the column menu ----

/// The column that a key of the column menu stands for.
pub open spec fn menu_column(key: Key) -> Option<RepoPageColumn> {
    match key.code {
        KeyCode::Char('b') => Some(RepoPageColumn::AheadBehind),
        KeyCode::Char('y') => Some(RepoPageColumn::Dirty),
        KeyCode::Char('a') => Some(RepoPageColumn::Added),
        KeyCode::Char('m') => Some(RepoPageColumn::Modified),
        KeyCode::Char('d') => Some(RepoPageColumn::Deleted),
        KeyCode::Char('c') => Some(RepoPageColumn::Total),
        KeyCode::Char('u') => Some(RepoPageColumn::Upstream),
        KeyCode::Char('f') => Some(RepoPageColumn::Base),
        KeyCode::Char('g') => Some(RepoPageColumn::Age),
        KeyCode::Char('s') => Some(RepoPageColumn::Subject),
        _ => None,
    }
}

fn column_of(key: Key) -> (res: Option<RepoPageColumn>)
    ensures
        res == menu_column(key),
{
    match key.code {
        KeyCode::Char('b') => Some(RepoPageColumn::AheadBehind),
        KeyCode::Char('y') => Some(RepoPageColumn::Dirty),
        KeyCode::Char('a') => Some(RepoPageColumn::Added),
        KeyCode::Char('m') => Some(RepoPageColumn::Modified),
        KeyCode::Char('d') => Some(RepoPageColumn::Deleted),
        KeyCode::Char('c') => Some(RepoPageColumn::Total),
        KeyCode::Char('u') => Some(RepoPageColumn::Upstream),
        KeyCode::Char('f') => Some(RepoPageColumn::Base),
        KeyCode::Char('g') => Some(RepoPageColumn::Age),
        KeyCode::Char('s') => Some(RepoPageColumn::Subject),
        _ => None,
    }
}

/// The state with one column of the repo page flipped.
#[verifier::opaque]
pub open spec fn with_page_column(app: AppState, column: RepoPageColumn) -> AppState {
    AppState {
        prefs: Prefs {
            repo_page_columns: app.prefs.repo_page_columns.flipped(column),
            ..app.prefs
        },
        ..app
    }
}

/// A short notice is shown.
#[verifier::opaque]
pub open spec fn toasted(before: AppState, text: Seq<char>, after: AppState) -> bool {
    &&& after.notices.toast is Some
    &&& after.notices.toast->0@ == text
    &&& after == (AppState {
        notices: Notices { toast: after.notices.toast, ..before.notices },
        ..before
    })
}

pub(crate) fn toast(app: &mut AppState, text: String)
    ensures
        final(app).wf() == old(app).wf(),
        toasted(*old(app), text@, *final(app)),
{
    reveal(toasted);
    app.show_toast(text);
}

/// What picking a column in the menu does: a column without anything to show is only explained.
pub open spec fn column_picked(
    before: AppState,
    column: RepoPageColumn,
    after: AppState,
    effect: Effect,
) -> bool {
    if before.page_column_filled(column) {
        after == with_page_column(before, column) && effect is SavePrefs
    } else {
        toasted(before, "that column is empty for this repo"@, after) && effect is Nothing
    }
}

/// Picks a column in the menu.
fn pick_column(app: &mut AppState, column: RepoPageColumn) -> (res: Effect)
    requires
        old(app).wf(),
    ensures
        final(app).wf(),
        column_picked(*old(app), column, *final(app), res),
{
    if app.repo_page_column_available(column) {
        flip_page_column(app, column);
        Effect::SavePrefs
    } else {
        toast(app, "that column is empty for this repo".to_owned());
        Effect::Nothing
    }
}

/// Shows or hides a column of the repo page.
pub fn flip_page_column(app: &mut AppState, column: RepoPageColumn)
    ensures
        final(app).wf() == old(app).wf(),
        *final(app) == with_page_column(*old(app), column),
{
    reveal(with_page_column);
    app.toggle_repo_page_column(column);
}

// ---- acting on the selected row ----

/// Something holds of the selected row of the open repo page.
pub open spec fn on_target(app: AppState, holds: spec_fn(PageRow) -> bool) -> bool {
    exists|row: PageRow| #[trigger] app.is_target(row) && holds(row)
}

/// The diff modal was opened on what a row shows, which is to be fetched.
pub open spec fn diff_opened(
    before: AppState,
    source: DiffSource,
    after: AppState,
    effect: Effect,
) -> bool {
    &&& after.overlays.diff is Some
    &&& after.overlays.diff->0.fresh(source, DiffMode::Uncommitted, DiffFocus::Files)
    &&& after == before.with_diff(after.overlays.diff)
    &&& effect is LoadDiff
}

/// What opening the selected row does: its diff modal where it can be shown.
pub open spec fn row_opened(before: AppState, after: AppState, effect: Effect) -> bool {
    if before.page.selected < before.page_len() {
        on_target(
            before,
            |row: PageRow|
                match AppState::source_of(row) {
                    Some(source) => diff_opened(before, source, after, effect),
                    None => after == before && effect is Nothing,
                },
        )
    } else {
        after == before && effect is Nothing
    }
}

/// Opens the diff modal on the selected row of the repo page, where it can be shown.
pub fn open_row(app: &mut AppState) -> (res: Effect)
    requires
        old(app).wf(),
    ensures
        final(app).wf(),
        row_opened(*old(app), *final(app), res),
{
    reveal(AppState::with_diff);
    match app.diff_source_for_selected() {
        Some(source) => {
            app.open_diff_modal(source);
            Effect::LoadDiff
        },
        None => Effect::Nothing,
    }
}

/// What checking out the selected row does: a branch that is not the current one is checked out.
pub open spec fn row_checked_out(before: AppState, effect: Effect) -> bool {
    match before.page.repo {
        Some(idx) => if before.page.selected < before.page_len() {
            on_target(
                before,
                |row: PageRow|
                    if row.kind is Branch && !row.is_head {
                        effect == (Effect::Checkout { repo_idx: idx, branch: row.branch })
                    } else {
                        effect is Nothing
                    },
            )
        } else {
            effect is Nothing
        },
        None => effect is Nothing,
    }
}

fn check_out_row(app: &AppState) -> (res: Effect)
    requires
        app.wf(),
    ensures
        row_checked_out(*app, res),
{
    match (app.page.repo, app.repo_page_target()) {
        (Some(idx), Some(row)) => {
            let ghost target = row;
            assert(app.is_target(target));
            if row.kind == PageRowKind::Branch && !row.is_head {
                Effect::Checkout { repo_idx: idx, branch: row.branch }
            } else {
                Effect::Nothing
            }
        },
        _ => Effect::Nothing,
    }
}

/// What clearing a row does: a stash and the uncommitted changes of the current branch are looked
/// at first, anything else is asked for, and the current branch itself cannot be deleted.
pub open spec fn cleared(
    before: AppState,
    idx: usize,
    row: PageRow,
    after: AppState,
    effect: Effect,
) -> bool {
    if row.kind is Stash && row.stash_index is Some {
        after == before && effect == (Effect::PrepareDropStash {
            repo_idx: idx,
            index: row.stash_index->0,
        })
    } else if row.kind is Stash {
        after == before && effect is Nothing
    } else if row.kind is Branch && row.is_head {
        if row.dirty {
            after == before && effect == (Effect::PrepareDiscard { repo_idx: idx, path: row.path })
        } else {
            &&& after.page.message is Some
            &&& after.page.message->0@ == "can't delete the current branch"@
            &&& after == before.with_page_message(after.page.message)
            &&& effect is Nothing
        }
    } else {
        &&& is_row_dialog(after.overlays.confirm, idx, row)
        &&& after == before.with_confirm(after.overlays.confirm)
        &&& effect is Nothing
    }
}

/// What clearing the selected row does.
pub open spec fn row_cleared(before: AppState, after: AppState, effect: Effect) -> bool {
    match before.page.repo {
        Some(idx) => if before.page.selected < before.page_len() {
            on_target(before, |row: PageRow| cleared(before, idx, row, after, effect))
        } else {
            after == before && effect is Nothing
        },
        None => after == before && effect is Nothing,
    }
}

fn say_on_page(app: &mut AppState, text: String)
    ensures
        final(app).wf() == old(app).wf(),
        final(app).page.message is Some,
        final(app).page.message->0@ == text@,
        *final(app) == old(app).with_page_message(final(app).page.message),
{
    reveal(AppState::with_page_message);
    app.set_page_message(Some(text));
}

fn ask(app: &mut AppState, dialog: ConfirmDialog)
    ensures
        final(app).wf() == old(app).wf(),
        final(app).overlays.confirm == Some(dialog),
        *final(app) == old(app).with_confirm(final(app).overlays.confirm),
{
    reveal(AppState::with_confirm);
    app.set_confirm(Some(dialog));
}

fn clear_target(app: &mut AppState, idx: usize, row: PageRow) -> (res: Effect)
    requires
        old(app).wf(),
    ensures
        final(app).wf(),
        cleared(*old(app), idx, row, *final(app), res),
{
    match (row.kind, row.stash_index) {
        (PageRowKind::Stash, Some(index)) => {
            return Effect::PrepareDropStash { repo_idx: idx, index };
        },
        _ => {},
    }
    match confirm_for_row(idx, &row) {
        Some(dialog) => {
            ask(app, dialog);
            return Effect::Nothing;
        },
        None => {},
    }
    if row.kind == PageRowKind::Branch && row.is_head {
        if row.dirty {
            return Effect::PrepareDiscard { repo_idx: idx, path: row.path };
        }
        say_on_page(app, "can't delete the current branch".to_owned());
        return Effect::Nothing;
    }
    Effect::Nothing
}

fn clear_row(app: &mut AppState) -> (res: Effect)
    requires
        old(app).wf(),
    ensures
        final(app).wf(),
        row_cleared(*old(app), *final(app), res),
{
    let target = app.repo_page_target();
    match (app.page.repo, target) {
        (Some(idx), Some(row)) => {
            let ghost found = row;
            assert(app.is_target(found));
            clear_target(app, idx, row)
        },
        _ => Effect::Nothing,
    }
}

/// A directory to work in: that of the selected row.
pub open spec fn is_row_launch(app: AppState, lazygit: bool, effect: Effect) -> bool {
    if app.page.selected < app.page_len() {
        on_target(
            app,
            |row: PageRow|
                if lazygit {
                    effect == Effect::Lazygit(row.path)
                } else {
                    effect == Effect::Claude(row.path)
                },
        )
    } else {
        effect is Nothing
    }
}

fn launch_row(app: &AppState, lazygit: bool) -> (res: Effect)
    requires
        app.wf(),
    ensures
        is_row_launch(*app, lazygit, res),
{
    match app.repo_page_target() {
        Some(row) => {
            let ghost found = row;
            assert(app.is_target(found));
            if lazygit {
                Effect::Lazygit(row.path)
            } else {
                Effect::Claude(row.path)
            }
        },
        None => Effect::Nothing,
    }
}

/// The selected branch is opened on the remote host, where there is one.
pub open spec fn is_row_browse(app: AppState, effect: Effect) -> bool {
    match app.page.repo {
        Some(idx) => match app.repos@[idx as int].remote_url {
            Some(url) => if app.page.selected < app.page_len() {
                on_target(app, |row: PageRow| effect.opens(url@ + "/tree/"@ + row.branch@))
            } else {
                effect is Nothing
            },
            None => effect is Nothing,
        },
        None => effect is Nothing,
    }
}

fn browse_row(app: &AppState) -> (res: Effect)
    requires
        app.wf(),
    ensures
        is_row_browse(*app, res),
{
    match (app.page.repo, app.repo_page_target()) {
        (Some(idx), Some(row)) => {
            assert(app.is_target(row));
            match &app.repos[idx].remote_url {
                Some(url) => Effect::OpenUrl(cat3(url.as_str(), "/tree/", row.branch.as_str())),
                None => Effect::Nothing,
            }
        },
        _ => Effect::Nothing,
    }
}

/// The selected row is fast-forwarded.
pub open spec fn is_row_pull(app: AppState, effect: Effect) -> bool {
    match app.page.repo {
        Some(idx) => if app.page.selected < app.page_len() {
            on_target(
                app,
                |row: PageRow| effect == (Effect::PullBranch { repo_idx: idx, row }),
            )
        } else {
            effect is Nothing
        },
        None => effect is Nothing,
    }
}

fn pull_row(app: &AppState) -> (res: Effect)
    requires
        app.wf(),
    ensures
        is_row_pull(*app, res),
{
    match (app.page.repo, app.repo_page_target()) {
        (Some(idx), Some(row)) => {
            let ghost found = row;
            assert(app.is_target(found));
            Effect::PullBranch { repo_idx: idx, row }
        },
        _ => Effect::Nothing,
    }
}

/// All branches are fast-forwarded, once the page has been read.
pub open spec fn is_pull_all(app: AppState, effect: Effect) -> bool {
    match app.page.repo {
        Some(idx) => {
            let repo = app.repos@[idx as int];
            if repo.page is Some && !repo.page_loading {
                effect == (Effect::PullAllBranches { repo_idx: idx })
            } else {
                effect is Nothing
            }
        },
        None => effect is Nothing,
    }
}

fn pull_all(app: &AppState) -> (res: Effect)
    requires
        app.wf(),
    ensures
        is_pull_all(*app, res),
{
    match app.page.repo {
        Some(idx) => if app.repos[idx].page.is_some() && !app.repos[idx].page_loading {
            Effect::PullAllBranches { repo_idx: idx }
        } else {
            Effect::Nothing
        },
        None => Effect::Nothing,
    }
}

/// The base-branch picker was opened for a row of the repo page that is a branch.
#[verifier::opaque]
pub open spec fn picker_opened(before: AppState, selection: usize, after: AppState) -> bool {
    match before.page.repo {
        Some(idx) => match before.repos@[idx as int].page {
            Some(page) => if selection < page.branches@.len() {
                &&& after.overlays.base_picker is Some
                &&& AppState::is_picker_for(
                    after.overlays.base_picker->0,
                    idx,
                    page.branches@[selection as int],
                    page,
                )
                &&& after == before.with_picker(after.overlays.base_picker)
            } else {
                after == before
            },
            None => after == before,
        },
        None => after == before,
    }
}

/// Opens the base-branch picker for a row of the repo page.
pub fn open_picker(app: &mut AppState, selection: usize)
    requires
        old(app).wf(),
    ensures
        final(app).wf(),
        picker_opened(*old(app), selection, *final(app)),
{
    reveal(picker_opened);
    app.open_base_picker(selection);
}

/// The state with the repo page's info panel shown or hidden.
#[verifier::opaque]
pub open spec fn with_page_info(app: AppState, repo_page_info: bool) -> AppState {
    AppState { prefs: Prefs { repo_page_info, ..app.prefs }, ..app }
}

fn toggle_page_info(app: &mut AppState)
    ensures
        final(app).wf() == old(app).wf(),
        *final(app) == with_page_info(*old(app), !old(app).prefs.repo_page_info),
{
    reveal(with_page_info);
    let mut prefs = app.prefs;
    prefs.repo_page_info = !prefs.repo_page_info;
    app.prefs = prefs;
}

// ---- keys ----

/// What a key does on the repo page while its column menu is closed.
pub open spec fn page_acted(before: AppState, key: Key, after: AppState, effect: Effect) -> bool {
    let row = before.page.selected;
    let len = before.page_len();
    if key.code is Esc || key.types('q') {
        after == before.with_page_closed() && effect is Nothing
    } else if key.types('?') {
        after == before.with_help_opened() && effect is Nothing
    } else if key.types(',') {
        after == before.with_settings_opened() && effect is Nothing
    } else if key.types('t') {
        after == before.with_page_menu(true) && effect is Nothing
    } else if key.types('i') {
        after == with_page_info(before, !before.prefs.repo_page_info) && effect is SavePrefs
    } else if key.types('j') || key.code is Down {
        &&& effect is Nothing
        &&& after == if row + 1 < len {
            before.with_page_row((row + 1) as usize)
        } else {
            before
        }
    } else if key.types('k') || key.code is Up {
        after == before.with_page_row(further(row, -1)) && effect is Nothing
    } else if key.types('g') || key.code is Home {
        after == before.with_page_row(0) && effect is Nothing
    } else if key.types('G') || key.code is End {
        &&& effect is Nothing
        &&& after == before.with_page_row(
            if len > 0 {
                (len - 1) as usize
            } else {
                0
            },
        )
    } else if key.code is PageDown {
        after == before.with_page_scroll(further(before.page.scroll, 10)) && effect is Nothing
    } else if key.code is PageUp {
        after == before.with_page_scroll(further(before.page.scroll, -10)) && effect is Nothing
    } else if key.code is Enter && key.shift {
        after == before && row_checked_out(before, effect)
    } else if key.code is Enter || key.types(' ') {
        row_opened(before, after, effect)
    } else if key.types('d') {
        row_cleared(before, after, effect)
    } else if key.types('c') {
        after == before && is_row_launch(before, false, effect)
    } else if key.types('l') {
        after == before && is_row_launch(before, true, effect)
    } else if key.types('y') {
        &&& effect is Nothing
        &&& after == if row < len {
            before.with_copy_menu(Some(0usize))
        } else {
            before
        }
    } else if key.types('b') {
        picker_opened(before, row, after) && effect is Nothing
    } else if key.types('o') {
        after == before && is_row_browse(before, effect)
    } else if key.types('p') {
        after == before && is_row_pull(before, effect)
    } else if key.types('P') {
        after == before && is_pull_all(before, effect)
    } else {
        after == before && effect is Nothing
    }
}

/// What a key does on the repo page. While the column menu is open its keys flip columns; Esc
/// and `t` close it, and any other key closes it and then acts as always.
pub open spec fn page_keyed(before: AppState, key: Key, after: AppState, effect: Effect) -> bool {
    if key.interrupts() {
        after == before && effect == Effect::Exit(INTERRUPTED)
    } else if before.page.toggle {
        match menu_column(key) {
            Some(column) => column_picked(before, column, after, effect),
            None => if key.types('t') || key.code is Esc {
                after == before.with_page_menu(false) && effect is Nothing
            } else {
                page_acted(before.with_page_menu(false), key, after, effect)
            },
        }
    } else {
        page_acted(before, key, after, effect)
    }
}

fn act_on_page(app: &mut AppState, key: Key) -> (res: Effect)
    requires
        old(app).wf(),
    ensures
        final(app).wf(),
        page_acted(*old(app), key, *final(app), res),
{
    let row: usize = app.page.selected;
    match key.code {
        KeyCode::Esc | KeyCode::Char('q') => {
            app.close_repo_page();
            return Effect::Nothing;
        },
        KeyCode::Char('?') => {
            app.open_help();
            return Effect::Nothing;
        },
        KeyCode::Char(',') => {
            app.open_settings();
            return Effect::Nothing;
        },
        KeyCode::Char('t') => {
            app.set_page_menu(true);
            return Effect::Nothing;
        },
        KeyCode::Char('i') => {
            toggle_page_info(app);
            return Effect::SavePrefs;
        },
        KeyCode::Char('j') | KeyCode::Down => {
            let len: usize = app.repo_page_selectable_len();
            if row < len && row + 1 < len {
                app.set_page_row(row + 1);
            }
            return Effect::Nothing;
        },
        KeyCode::Char('k') | KeyCode::Up => {
            app.set_page_row(shift(row, -1, usize::MAX));
            return Effect::Nothing;
        },
        KeyCode::Char('g') | KeyCode::Home => {
            app.set_page_row(0);
            return Effect::Nothing;
        },
        KeyCode::Char('G') | KeyCode::End => {
            let len: usize = app.repo_page_selectable_len();
            app.set_page_row(
                if len > 0 {
                    len - 1
                } else {
                    0
                },
            );
            return Effect::Nothing;
        },
        KeyCode::PageDown => {
            let line: usize = shift(app.page.scroll, 10, usize::MAX);
            app.set_page_scroll(line);
            return Effect::Nothing;
        },
        KeyCode::PageUp => {
            let line: usize = shift(app.page.scroll, -10, usize::MAX);
            app.set_page_scroll(line);
            return Effect::Nothing;
        },
        KeyCode::Enter => {
            if key.shift {
                return check_out_row(app);
            }
            return open_row(app);
        },
        KeyCode::Char(' ') => return open_row(app),
        KeyCode::Char('d') => return clear_row(app),
        KeyCode::Char('c') => return launch_row(app, false),
        KeyCode::Char('l') => return launch_row(app, true),
        KeyCode::Char('y') => {
            let len: usize = app.repo_page_selectable_len();
            if row < len {
                app.set_copy_menu(Some(0));
            }
            return Effect::Nothing;
        },
        KeyCode::Char('b') => {
            open_picker(app, row);
            return Effect::Nothing;
        },
        KeyCode::Char('o') => return browse_row(app),
        KeyCode::Char('p') => return pull_row(app),
        KeyCode::Char('P') => return pull_all(app),
        _ => return Effect::Nothing,
    }
}

/// A key on the repo page: navigate branches, worktrees and stashes and act on the selected row.
pub fn page_key(app: &mut AppState, key: Key) -> (res: Effect)
    requires
        old(app).wf(),
    ensures
        final(app).wf(),
        page_keyed(*old(app), key, *final(app), res),
{
    if key.is_interrupt() {
        return Effect::Exit(INTERRUPTED);
    }
    if app.page.toggle {
        match column_of(key) {
            Some(column) => return pick_column(app, column),
            None => {},
        }
        app.set_page_menu(false);
        if key.code == KeyCode::Char('t') || key.code == KeyCode::Esc {
            return Effect::Nothing;
        }
    }
    act_on_page(app, key)
}

// ---- which key does what ----

/// The letter of each column of the repo page, and no other key stands for one.
pub proof fn law_page_column_letters(key: Key)
    ensures
        menu_column(key) == Some(RepoPageColumn::AheadBehind) <==> key.code == KeyCode::Char('b'),
        menu_column(key) == Some(RepoPageColumn::Dirty) <==> key.code == KeyCode::Char('y'),
        menu_column(key) == Some(RepoPageColumn::Added) <==> key.code == KeyCode::Char('a'),
        menu_column(key) == Some(RepoPageColumn::Modified) <==> key.code == KeyCode::Char('m'),
        menu_column(key) == Some(RepoPageColumn::Deleted) <==> key.code == KeyCode::Char('d'),
        menu_column(key) == Some(RepoPageColumn::Total) <==> key.code == KeyCode::Char('c'),
        menu_column(key) == Some(RepoPageColumn::Upstream) <==> key.code == KeyCode::Char('u'),
        menu_column(key) == Some(RepoPageColumn::Base) <==> key.code == KeyCode::Char('f'),
        menu_column(key) == Some(RepoPageColumn::Age) <==> key.code == KeyCode::Char('g'),
        menu_column(key) == Some(RepoPageColumn::Subject) <==> key.code == KeyCode::Char('s'),
{
}

/// What the keys do on the row of a branch: it is pulled, checked out, looked at, deleted or left
/// alone in the repo's own directory. The current branch is neither checked out nor deleted; its
/// changes are what `d` offers to discard. A branch is deleted by force only where commits of it
/// would be lost, and that is asked about as dangerous.
pub proof fn law_keys_on_a_branch(
    before: AppState,
    key: Key,
    after: AppState,
    effect: Effect,
    idx: usize,
    page: RepoPageData,
    branch: BranchInfo,
)
    requires
        page_keyed(before, key, after, effect),
        !before.page.toggle,
        !key.interrupts(),
        before.page.repo == Some(idx),
        before.repos@[idx as int].page == Some(page),
        before.page.selected < page.branches@.len(),
        branch == page.branches@[before.page.selected as int],
    ensures
        key.code == KeyCode::Char('p') ==> after == before && (effect matches Effect::PullBranch {
            repo_idx,
            row,
        } && repo_idx == idx && row.branch == branch.name && row.path
            == before.repos@[idx as int].path && row.kind is Branch),
        key.code is Enter && key.shift && !branch.is_head ==> after == before && effect
            == (Effect::Checkout { repo_idx: idx, branch: branch.name }),
        key.code is Enter && key.shift && branch.is_head ==> after == before && effect is Nothing,
        ((key.code is Enter && !key.shift) || key.code == KeyCode::Char(' '))
            ==> effect is LoadDiff && after.overlays.diff is Some
            && after.overlays.diff->0.source == (if branch.is_head && page.head_dirty {
            DiffSource::Dirty { path: before.repos@[idx as int].path, name: branch.name }
        } else {
            DiffSource::Branch { path: before.repos@[idx as int].path, name: branch.name }
        }),
        key.code == KeyCode::Char('d') && branch.is_head && page.head_dirty ==> after == before
            && effect == (Effect::PrepareDiscard {
            repo_idx: idx,
            path: before.repos@[idx as int].path,
        }),
        key.code == KeyCode::Char('d') && branch.is_head && !page.head_dirty ==> effect is Nothing
            && after.overlays.confirm == before.overlays.confirm && after.page.message is Some
            && after.page.message->0@ == "can't delete the current branch"@,
        key.code == KeyCode::Char('d') && !branch.is_head ==> effect is Nothing
            && after.overlays.confirm is Some && after.overlays.confirm->0.action
            == (ConfirmAction::DeleteBranch {
            repo_idx: idx,
            branch: branch.name,
            force: branch.ahead is Some && branch.ahead->0 > 0,
        }) && after.overlays.confirm->0.danger == (branch.ahead is Some && branch.ahead->0 > 0),
        key.code == KeyCode::Char('c') ==> after == before && effect == Effect::Claude(
            before.repos@[idx as int].path,
        ),
        key.code == KeyCode::Char('l') ==> after == before && effect == Effect::Lazygit(
            before.repos@[idx as int].path,
        ),
        key.code == KeyCode::Char('o') && before.repos@[idx as int].remote_url is Some
            ==> effect.opens(
            before.repos@[idx as int].remote_url->0@ + "/tree/"@ + branch.name@,
        ),
        key.code == KeyCode::Char('P') ==> after == before && (effect
            == (Effect::PullAllBranches { repo_idx: idx })
            <==> !before.repos@[idx as int].page_loading),
{
    reveal(AppState::with_confirm);
    reveal(AppState::with_diff);
    reveal(AppState::with_page_message);
    assert(before.page.selected < before.page_len());
}

/// What the keys do on the row of a worktree: everything in the worktree's own directory. It is
/// removed by force only where it has changes, and that is asked about as dangerous.
pub proof fn law_keys_on_a_worktree(
    before: AppState,
    key: Key,
    after: AppState,
    effect: Effect,
    idx: usize,
    page: RepoPageData,
    tree: WorktreeInfo,
)
    requires
        page_keyed(before, key, after, effect),
        !before.page.toggle,
        !key.interrupts(),
        before.page.repo == Some(idx),
        before.repos@[idx as int].page == Some(page),
        page.branches@.len() <= before.page.selected < page.branches@.len()
            + page.worktrees@.len(),
        tree == page.worktrees@[before.page.selected - page.branches@.len()],
    ensures
        key.code == KeyCode::Char('p') ==> after == before && (effect matches Effect::PullBranch {
            repo_idx,
            row,
        } && repo_idx == idx && row.branch == tree.branch && row.path == tree.path
            && row.kind is Worktree),
        key.code is Enter && key.shift ==> after == before && effect is Nothing,
        ((key.code is Enter && !key.shift) || key.code == KeyCode::Char(' ')) && holds_path(
            page.dirty_worktrees@,
            tree.path@,
        ) ==> effect is LoadDiff && after.overlays.diff is Some && after.overlays.diff->0.source
            == (DiffSource::Dirty { path: tree.path, name: tree.branch }),
        ((key.code is Enter && !key.shift) || key.code == KeyCode::Char(' ')) && !holds_path(
            page.dirty_worktrees@,
            tree.path@,
        ) ==> effect is Nothing && after == before,
        key.code == KeyCode::Char('d') ==> effect is Nothing
            && after.overlays.confirm is Some && after.overlays.confirm->0.action
            == (ConfirmAction::RemoveWorktree {
            repo_idx: idx,
            path: tree.path,
            force: holds_path(page.dirty_worktrees@, tree.path@),
        }) && after.overlays.confirm->0.danger == holds_path(page.dirty_worktrees@, tree.path@),
        key.code == KeyCode::Char('c') ==> after == before && effect == Effect::Claude(tree.path),
        key.code == KeyCode::Char('l') ==> after == before && effect == Effect::Lazygit(tree.path),
{
    reveal(AppState::with_confirm);
    reveal(AppState::with_diff);
    assert(before.page.selected < before.page_len());
}

/// What the keys do on the row of a stash: that stash is looked at or offered to be dropped, and
/// no other.
pub proof fn law_keys_on_a_stash(
    before: AppState,
    key: Key,
    after: AppState,
    effect: Effect,
    idx: usize,
    page: RepoPageData,
    stash: StashInfo,
)
    requires
        page_keyed(before, key, after, effect),
        !before.page.toggle,
        !key.interrupts(),
        before.page.repo == Some(idx),
        before.repos@[idx as int].page == Some(page),
        page.branches@.len() + page.worktrees@.len() <= before.page.selected
            < page.branches@.len() + page.worktrees@.len() + page.stashes@.len(),
        stash == page.stashes@[before.page.selected - page.branches@.len()
            - page.worktrees@.len()],
    ensures
        key.code == KeyCode::Char('d') ==> after == before && effect == (Effect::PrepareDropStash {
            repo_idx: idx,
            index: stash.index,
        }),
        ((key.code is Enter && !key.shift) || key.code == KeyCode::Char(' '))
            ==> effect is LoadDiff && after.overlays.diff is Some
            && after.overlays.diff->0.source == (DiffSource::Stash {
            path: before.repos@[idx as int].path,
            index: stash.index,
            label: stash.label,
        }),
        key.code is Enter && key.shift ==> after == before && effect is Nothing,
{
    reveal(AppState::with_diff);
    assert(before.page.selected < before.page_len());
}

/// Moving on the repo page keeps to its rows, and leaving it keeps everything else.
pub proof fn law_page_movement(before: AppState, key: Key, after: AppState, effect: Effect)
    requires
        page_keyed(before, key, after, effect),
        !before.page.toggle,
        !key.interrupts(),
        before.page.selected < before.page_len() <= usize::MAX,
    ensures
        key.code == KeyCode::Char('j') || key.code is Down ==> after.page.selected == (if before.page.selected
            + 1 < before.page_len() {
            before.page.selected + 1
        } else {
            before.page.selected as int
        }),
        key.code == KeyCode::Char('k') || key.code is Up ==> after.page.selected == (if before.page.selected
            > 0 {
            before.page.selected - 1
        } else {
            0
        }),
        key.code == KeyCode::Char('g') || key.code is Home ==> after.page.selected == 0,
        key.code == KeyCode::Char('G') || key.code is End ==> after.page.selected
            == before.page_len() - 1,
        key.code is Esc || key.code == KeyCode::Char('q') ==> after.page.repo is None && after.repos
            == before.repos && after.prefs == before.prefs && effect is Nothing,
        key.code == KeyCode::Char('i') ==> after.prefs.repo_page_info
            == !before.prefs.repo_page_info && effect is SavePrefs,
        key.code == KeyCode::Char('t') ==> after.page.toggle,
{
    reveal(AppState::with_page_row);
    reveal(AppState::with_page_closed);
    reveal(AppState::with_page_menu);
    reveal(with_page_info);
}

/// A letter of the column menu turns its column on or off, and the menu stays; a column that has
/// nothing to show stays as it is.
pub proof fn law_column_menu(
    before: AppState,
    key: Key,
    after: AppState,
    effect: Effect,
    column: RepoPageColumn,
)
    requires
        page_keyed(before, key, after, effect),
        before.page.toggle,
        !key.interrupts(),
        menu_column(key) == Some(column),
    ensures
        before.page_column_filled(column) ==> effect is SavePrefs
            && after.prefs.repo_page_columns.shows(column)
            == !before.prefs.repo_page_columns.shows(column),
        !before.page_column_filled(column) ==> effect is Nothing && after.prefs == before.prefs
            && after.notices.toast is Some,
        after.page.toggle,
{
    reveal(with_page_column);
    reveal(toasted);
}

} // verus!
