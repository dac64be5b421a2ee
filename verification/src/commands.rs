//! Commands, and what a key does in the list.

use vstd::prelude::*;
use vstd::string::*;

use crate::app::{AppState, Prefs};
use crate::folds::{
    collapsed_all, expanded_all, expanded_subtree, flipped, header_toggled, refolded,
    resolving_started, went_left, went_right,
};
use crate::input::{
    build_info_key, confirm_key, confirm_keyed, copy_key, copy_keyed, docs_url, filter_key,
    filter_keyed, further, help_key, help_keyed, open_docs, picker_key, picker_keyed, settings_key,
    settings_keyed, Effect, Key, KeyCode, INTERRUPTED,
};
use crate::keys::{diff_key, diff_keyed};
use crate::modals::shift;
use crate::options::{Column, Command, Leader, SortColumn, StatusFilter};
use crate::pagekeys::{page_key, page_keyed, toast, toasted};
use crate::repo::{RepoState, RepoStatus};
use crate::rows::stop_from;
use crate::text::cat3;

verus! {

// ---- exit codes ----

/// The exit code of a run that was left: 0 where all is done and no repo failed, 1 where one
/// did, 2 where the run was not over.
pub open spec fn exit_code(app: AppState) -> i32 {
    if !app.progress.all_done {
        2
    } else if app.any_failed() {
        1
    } else {
        0
    }
}

/// The exit code of a finished run: 1 where a repo failed, 0 otherwise.
pub fn compute_exit_code(app: &AppState) -> (res: i32)
    ensures
        res == (if app.any_failed() {
            1i32
        } else {
            0i32
        }),
{
    if app.has_errors() {
        1
    } else {
        0
    }
}

proof fn lemma_tally_failed(repos: Seq<RepoState>)
    ensures
        (crate::app::tally(repos, RepoStatus::Failed) > 0) <==> exists|i: int|
            0 <= i < repos.len() && (#[trigger] repos[i]).status is Failed,
    decreases repos.len(),
{
    if repos.len() > 0 {
        let init = repos.drop_last();
        lemma_tally_failed(init);
        if exists|i: int| 0 <= i < init.len() && (#[trigger] init[i]).status is Failed {
            let i = choose|i: int| 0 <= i < init.len() && (#[trigger] init[i]).status is Failed;
            assert(repos[i].status is Failed);
        }
        if repos.last().status is Failed {
            assert(repos[repos.len() - 1].status is Failed);
        }
        if exists|i: int| 0 <= i < repos.len() && (#[trigger] repos[i]).status is Failed {
            let i = choose|i: int| 0 <= i < repos.len() && (#[trigger] repos[i]).status is Failed;
            if i < init.len() {
                assert(init[i].status is Failed);
            }
        }
    }
}

/// A finished run exits with 1 exactly if some repo failed; a repo that has no upstream or was
/// skipped does not count as failed.
pub proof fn law_exit_code(app: AppState)
    requires
        app.progress.all_done,
    ensures
        exit_code(app) == 0 || exit_code(app) == 1,
        exit_code(app) == 1 <==> exists|i: int|
            0 <= i < app.repos@.len() && (#[trigger] app.repos@[i]).status is Failed,
{
    lemma_tally_failed(app.repos@);
}

// ---- commands ----

/// Repos are to be pulled again.
pub open spec fn reruns(effect: Effect, repos: Seq<usize>) -> bool {
    match effect {
        Effect::Rerun(list) => list@ == repos,
        _ => false,
    }
}

/// The selected repo is pulled again where its status allows.
pub open spec fn is_rerun(app: AppState, only_issues: bool, effect: Effect) -> bool {
    match app.current() {
        Some(idx) => {
            let status = app.repos@[idx as int].status;
            if (if only_issues {
                status.retryable()
            } else {
                status.terminal()
            }) {
                reruns(effect, seq![idx])
            } else {
                effect is Nothing
            }
        },
        None => effect is Nothing,
    }
}

fn rerun_selected(app: &AppState, only_issues: bool) -> (res: Effect)
    requires
        app.wf(),
    ensures
        is_rerun(*app, only_issues, res),
{
    match app.selected_repo_index() {
        Some(idx) => {
            let eligible = if only_issues {
                app.repos[idx].status.is_retryable()
            } else {
                app.repos[idx].status.is_terminal()
            };
            if eligible {
                let mut list: Vec<usize> = Vec::new();
                list.push(idx);
                assert(list@ =~= seq![idx]);
                Effect::Rerun(list)
            } else {
                Effect::Nothing
            }
        },
        None => Effect::Nothing,
    }
}

/// What is done with the selected repo outside.
#[derive(Debug, Clone, Copy, PartialEq, Eq, Structural)]
pub enum RepoUse {
    Claude,
    Lazygit,
    OpenRemote,
    CopyPath,
    CopyRemote,
}

/// What using the selected repo hands out: nothing without a repo, or without a remote where
/// that is used.
pub open spec fn is_use(app: AppState, how: RepoUse, effect: Effect) -> bool {
    match app.current() {
        Some(idx) => {
            let repo = app.repos@[idx as int];
            match how {
                RepoUse::Claude => effect == Effect::Claude(repo.path),
                RepoUse::Lazygit => effect == Effect::Lazygit(repo.path),
                RepoUse::CopyPath => effect == Effect::CopyText(repo.path),
                RepoUse::OpenRemote => match repo.remote_url {
                    Some(url) => effect == Effect::OpenUrl(url),
                    None => effect is Nothing,
                },
                RepoUse::CopyRemote => match repo.remote_url {
                    Some(url) => effect == Effect::CopyText(url),
                    None => effect is Nothing,
                },
            }
        },
        None => effect is Nothing,
    }
}

fn use_repo(app: &AppState, how: RepoUse) -> (res: Effect)
    requires
        app.wf(),
    ensures
        is_use(*app, how, res),
{
    match app.selected_repo_index() {
        Some(idx) => {
            let repo = &app.repos[idx];
            match how {
                RepoUse::Claude => Effect::Claude(repo.path.clone()),
                RepoUse::Lazygit => Effect::Lazygit(repo.path.clone()),
                RepoUse::CopyPath => Effect::CopyText(repo.path.clone()),
                RepoUse::OpenRemote => match &repo.remote_url {
                    Some(url) => Effect::OpenUrl(url.clone()),
                    None => Effect::Nothing,
                },
                RepoUse::CopyRemote => match &repo.remote_url {
                    Some(url) => Effect::CopyText(url.clone()),
                    None => Effect::Nothing,
                },
            }
        },
        None => Effect::Nothing,
    }
}

/// The state with the info block shown or hidden.
#[verifier::opaque]
pub open spec fn with_info(app: AppState, info_pinned: bool) -> AppState {
    AppState { prefs: Prefs { info_pinned, ..app.prefs }, ..app }
}

fn toggle_info(app: &mut AppState)
    ensures
        final(app).wf() == old(app).wf(),
        *final(app) == with_info(*old(app), !old(app).prefs.info_pinned),
{
    reveal(with_info);
    let mut prefs = app.prefs;
    prefs.info_pinned = !prefs.info_pinned;
    app.prefs = prefs;
}

/// The state with the grouped view on or off.
#[verifier::opaque]
pub open spec fn with_grouping(app: AppState, grouping_enabled: bool) -> AppState {
    AppState { prefs: Prefs { grouping_enabled, ..app.prefs }, ..app }
}

fn toggle_grouping(app: &mut AppState)
    ensures
        final(app).wf() == old(app).wf(),
        *final(app) == with_grouping(*old(app), !old(app).prefs.grouping_enabled),
{
    reveal(with_grouping);
    let mut prefs = app.prefs;
    prefs.grouping_enabled = !prefs.grouping_enabled;
    app.prefs = prefs;
}

/// The state with the tree view on or off.
#[verifier::opaque]
pub open spec fn with_tree(app: AppState, tree_enabled: bool) -> AppState {
    AppState { prefs: Prefs { tree_enabled, ..app.prefs }, ..app }
}

fn toggle_tree(app: &mut AppState)
    ensures
        final(app).wf() == old(app).wf(),
        *final(app) == with_tree(*old(app), !old(app).prefs.tree_enabled),
{
    reveal(with_tree);
    let mut prefs = app.prefs;
    prefs.tree_enabled = !prefs.tree_enabled;
    app.prefs = prefs;
}

/// The name filter is being typed; one that there was is kept.
#[verifier::opaque]
pub open spec fn filter_opened(before: AppState, after: AppState) -> bool {
    &&& match before.filter {
        Some(_) => after.filter == before.filter,
        None => after.filter is Some && after.filter->0@ == Seq::<char>::empty(),
    }
    &&& after == (AppState { filter_input_mode: true, filter: after.filter, ..before })
}

fn open_filter(app: &mut AppState)
    ensures
        final(app).wf() == old(app).wf(),
        filter_opened(*old(app), *final(app)),
{
    reveal(filter_opened);
    if app.filter.is_none() {
        app.filter = Some(String::new());
    }
    app.filter_input_mode = true;
}

/// The state without a name filter.
#[verifier::opaque]
pub open spec fn without_filter(app: AppState) -> AppState {
    AppState { filter_input_mode: false, filter: None, ..app }
}

fn drop_filter(app: &mut AppState)
    ensures
        final(app).wf() == old(app).wf(),
        *final(app) == without_filter(*old(app)),
{
    reveal(without_filter);
    app.filter = None;
    app.filter_input_mode = false;
}

/// The state with the Result summary shown over the preview or not.
#[verifier::opaque]
pub open spec fn with_result(app: AppState, result_overlay: bool) -> AppState {
    AppState { result_overlay, ..app }
}

fn toggle_result(app: &mut AppState)
    ensures
        final(app).wf() == old(app).wf(),
        *final(app) == with_result(*old(app), !old(app).result_overlay),
{
    reveal(with_result);
    app.result_overlay = !app.result_overlay;
}

/// The chord that is pending after its own hint was clicked.
pub open spec fn flipped_leader(app: AppState, leader: Leader) -> Option<Leader> {
    if app.pending_leader == Some(leader) {
        None
    } else {
        Some(leader)
    }
}

fn flip_leader(app: &mut AppState, leader: Leader)
    ensures
        final(app).wf() == old(app).wf(),
        *final(app) == old(app).with_leader(flipped_leader(*old(app), leader)),
{
    let armed = match app.pending_leader {
        Some(pending) => pending == leader,
        None => false,
    };
    if armed {
        app.set_leader(None);
    } else {
        app.set_leader(Some(leader));
    }
}

/// What a command does.
pub open spec fn dispatched(
    before: AppState,
    command: Command,
    after: AppState,
    effect: Effect,
) -> bool {
    match command {
        Command::Retry => after == before && is_rerun(before, true, effect),
        Command::RetryAll => after == before && reruns(effect, before.retry_targets()),
        Command::Refetch => after == before && is_rerun(before, false, effect),
        Command::RefetchAll => after == before && reruns(effect, before.refetch_targets()),
        Command::Info => after == with_info(before, !before.prefs.info_pinned) && effect is Nothing,
        Command::Help => after == before.with_help_opened() && effect is Nothing,
        Command::OpenPage => before.page_opened(after) && effect is Nothing,
        Command::ToggleLeader => after == before.with_leader(
            flipped_leader(before, Leader::Toggle),
        ) && effect is Nothing,
        Command::ToggleColumn(column) => after == before.with_columns(
            before.prefs.columns.flipped(column),
        ) && effect is Nothing,
        Command::FilterLeader => after == before.with_leader(
            flipped_leader(before, Leader::Filter),
        ) && effect is Nothing,
        Command::SetFilter(filter) => after == before.with_status_filter(filter).with_leader(None)
            && effect is Nothing,
        Command::SortLeader => after == before.with_leader(flipped_leader(before, Leader::Sort))
            && effect is Nothing,
        Command::SetSort(column) => after == before.sorted_by(column).with_leader(None)
            && effect is Nothing,
        Command::LeaderCancel => after == before.with_leader(None) && effect is Nothing,
        Command::FlipSort => after == before.sorted_by(before.prefs.sort_column)
            && effect is Nothing,
        Command::NameFilter => filter_opened(before, after) && effect is Nothing,
        Command::ClearNameFilter => after == without_filter(before) && effect is Nothing,
        Command::ResultOverlay => after == with_result(before, !before.result_overlay)
            && effect is Nothing,
        Command::FocusToggle => after == before.with_focus(!before.preview_focused)
            && effect is Nothing,
        Command::SplitNarrow => after == before && effect == (Effect::ResizeSplit { wider: false }),
        Command::SplitWiden => after == before && effect == (Effect::ResizeSplit { wider: true }),
        Command::GroupingToggle => after == with_grouping(
            before,
            !before.prefs.grouping_enabled,
        ).topped() && effect is SavePrefs,
        Command::TreeToggle => after == with_tree(before, !before.prefs.tree_enabled).topped()
            && effect is SavePrefs,
        Command::FoldCollapseAll => collapsed_all(before, after) && effect is SavePrefs,
        Command::FoldExpandAll => expanded_all(before, after) && effect is SavePrefs,
        Command::FoldExpandSubtree => expanded_subtree(before, after) && effect is SavePrefs,
        Command::ToggleGroupCollapsed(group) => refolded(
            before,
            flipped(before, ":"@ + before.group_name(group as int)),
            after,
        ) && effect is SavePrefs,
        Command::DiffView => after == before.with_other_view() && effect is Nothing,
        Command::Claude => after == before && is_use(before, RepoUse::Claude, effect),
        Command::Lazygit => after == before && is_use(before, RepoUse::Lazygit, effect),
        Command::OpenRemote => after == before && is_use(before, RepoUse::OpenRemote, effect),
        Command::CopyPath => after == before && is_use(before, RepoUse::CopyPath, effect),
        Command::CopyRemote => after == before && is_use(before, RepoUse::CopyRemote, effect),
        Command::Settings => after == before.with_settings_opened() && effect is Nothing,
        Command::ShowBuildInfo => after == before.with_build_info(true) && effect is Nothing,
        Command::Quit => after == before && effect == Effect::Exit(exit_code(before)),
    }
}

/// Apply a command triggered by key OR by clicking its status-bar hint.
pub fn dispatch_command(app: &mut AppState, command: Command) -> (res: Effect)
    requires
        old(app).wf(),
    ensures
        final(app).wf(),
        dispatched(*old(app), command, *final(app), res),
{
    match command {
        Command::Retry => return rerun_selected(app, true),
        Command::RetryAll => return Effect::Rerun(app.retryable_repos()),
        Command::Refetch => return rerun_selected(app, false),
        Command::RefetchAll => return Effect::Rerun(app.refetchable_repos()),
        Command::Info => {
            toggle_info(app);
            return Effect::Nothing;
        },
        Command::Help => {
            app.open_help();
            return Effect::Nothing;
        },
        Command::OpenPage => {
            app.open_repo_page();
            return Effect::Nothing;
        },
        Command::ToggleLeader => {
            flip_leader(app, Leader::Toggle);
            return Effect::Nothing;
        },
        Command::ToggleColumn(column) => {
            app.toggle_column(column);
            return Effect::Nothing;
        },
        Command::FilterLeader => {
            flip_leader(app, Leader::Filter);
            return Effect::Nothing;
        },
        Command::SetFilter(filter) => {
            app.set_status_filter(filter);
            app.set_leader(None);
            return Effect::Nothing;
        },
        Command::SortLeader => {
            flip_leader(app, Leader::Sort);
            return Effect::Nothing;
        },
        Command::SetSort(column) => {
            app.set_sort(column);
            app.set_leader(None);
            return Effect::Nothing;
        },
        Command::LeaderCancel => {
            app.set_leader(None);
            return Effect::Nothing;
        },
        Command::FlipSort => {
            let column = app.prefs.sort_column;
            app.set_sort(column);
            return Effect::Nothing;
        },
        Command::NameFilter => {
            open_filter(app);
            return Effect::Nothing;
        },
        Command::ClearNameFilter => {
            drop_filter(app);
            return Effect::Nothing;
        },
        Command::ResultOverlay => {
            toggle_result(app);
            return Effect::Nothing;
        },
        Command::FocusToggle => {
            let preview = !app.preview_focused;
            app.set_focus(preview);
            return Effect::Nothing;
        },
        Command::SplitNarrow => return Effect::ResizeSplit { wider: false },
        Command::SplitWiden => return Effect::ResizeSplit { wider: true },
        Command::GroupingToggle => {
            toggle_grouping(app);
            app.go_top();
            return Effect::SavePrefs;
        },
        Command::TreeToggle => {
            toggle_tree(app);
            app.go_top();
            return Effect::SavePrefs;
        },
        Command::FoldCollapseAll => {
            app.collapse_all();
            return Effect::SavePrefs;
        },
        Command::FoldExpandAll => {
            app.expand_all();
            return Effect::SavePrefs;
        },
        Command::FoldExpandSubtree => {
            app.expand_subtree();
            return Effect::SavePrefs;
        },
        Command::ToggleGroupCollapsed(group) => {
            app.toggle_group_collapsed(group);
            return Effect::SavePrefs;
        },
        Command::DiffView => {
            app.toggle_diff_view();
            return Effect::Nothing;
        },
        Command::Claude => return use_repo(app, RepoUse::Claude),
        Command::Lazygit => return use_repo(app, RepoUse::Lazygit),
        Command::OpenRemote => return use_repo(app, RepoUse::OpenRemote),
        Command::CopyPath => return use_repo(app, RepoUse::CopyPath),
        Command::CopyRemote => return use_repo(app, RepoUse::CopyRemote),
        Command::Settings => {
            app.open_settings();
            return Effect::Nothing;
        },
        Command::ShowBuildInfo => {
            app.set_build_info(true);
            return Effect::Nothing;
        },
        Command::Quit => {
            let code: i32 = if app.progress.all_done {
                compute_exit_code(app)
            } else {
                2
            };
            return Effect::Exit(code);
        },
    }
}

// ---- the list ----

/// What a key stands for in the list.
#[derive(Debug, Clone, Copy, PartialEq, Eq, Structural)]
pub enum ListAction {
    Nothing,
    Interrupt,
    Run(Command),
    Down,
    Up,
    Top,
    Bottom,
    PageUp,
    PageDown,
    PreviewUp,
    PreviewDown,
    /// The preview follows the log again.
    PreviewEnd,
    Focus { preview: bool },
    Arm(Leader),
    ClearLog,
    Docs,
    /// Fold the selected header, or go to the one that encloses the row.
    Left,
    /// Unfold the selected header.
    Right,
    /// Fold or unfold the selected header; on another row run the command.
    HeaderOr(Command),
    /// Look up the members of the groups again.
    RefreshGroups,
}

/// What a key stands for in the list; the page keys and End drive the preview while it has the
/// focus, and Esc takes a name filter away before it quits.
pub open spec fn list_action(key: Key, preview: bool, filtered: bool) -> ListAction {
    let only_control = key.control && !key.shift && !key.alt && !key.more;
    match key.code {
        KeyCode::Char('q') => ListAction::Run(Command::Quit),
        KeyCode::Esc => if filtered {
            ListAction::Run(Command::ClearNameFilter)
        } else {
            ListAction::Run(Command::Quit)
        },
        KeyCode::Char('j') => ListAction::Down,
        KeyCode::Down => ListAction::Down,
        KeyCode::Char('k') => ListAction::Up,
        KeyCode::Up => ListAction::Up,
        KeyCode::Char('g') => ListAction::Top,
        KeyCode::Char('G') => ListAction::Bottom,
        KeyCode::Tab => ListAction::Run(Command::FocusToggle),
        KeyCode::Char('1') => ListAction::Focus { preview: false },
        KeyCode::Char('2') => ListAction::Focus { preview: true },
        KeyCode::Left => ListAction::Left,
        KeyCode::Right => ListAction::Right,
        KeyCode::Char(' ') => ListAction::HeaderOr(Command::ResultOverlay),
        KeyCode::Char('v') => ListAction::Arm(Leader::View),
        KeyCode::Char('z') => ListAction::Arm(Leader::Fold),
        KeyCode::Char('-') => ListAction::Run(Command::FoldCollapseAll),
        KeyCode::Char('+') => ListAction::Run(Command::FoldExpandAll),
        KeyCode::Char('=') => ListAction::Run(Command::FoldExpandAll),
        KeyCode::Char('*') => ListAction::Run(Command::FoldExpandSubtree),
        KeyCode::Char('Z') => ListAction::RefreshGroups,
        KeyCode::Char('?') => ListAction::Run(Command::Help),
        KeyCode::Char('t') => ListAction::Arm(Leader::Toggle),
        KeyCode::Char('s') => ListAction::Arm(Leader::Sort),
        KeyCode::Char('f') => ListAction::Arm(Leader::Filter),
        KeyCode::Char(',') => ListAction::Run(Command::Settings),
        KeyCode::Char('[') => ListAction::Run(Command::SplitNarrow),
        KeyCode::Char(']') => ListAction::Run(Command::SplitWiden),
        KeyCode::Char('/') => ListAction::Run(Command::NameFilter),
        KeyCode::PageUp => if preview {
            ListAction::PreviewUp
        } else {
            ListAction::PageUp
        },
        KeyCode::PageDown => if preview {
            ListAction::PreviewDown
        } else {
            ListAction::PageDown
        },
        KeyCode::End => if preview {
            ListAction::PreviewEnd
        } else {
            ListAction::Bottom
        },
        KeyCode::Home => ListAction::Top,
        KeyCode::Char('x') => ListAction::ClearLog,
        KeyCode::Char('i') => ListAction::Run(Command::Info),
        KeyCode::Char('d') => ListAction::Run(Command::DiffView),
        KeyCode::Char('o') => ListAction::Run(Command::OpenRemote),
        KeyCode::Char('D') => ListAction::Docs,
        KeyCode::Char('y') => ListAction::Run(Command::CopyPath),
        KeyCode::Char('Y') => ListAction::Run(Command::CopyRemote),
        KeyCode::Char('c') => if only_control {
            ListAction::Interrupt
        } else {
            ListAction::Run(Command::Claude)
        },
        KeyCode::Char('l') => ListAction::Run(Command::Lazygit),
        KeyCode::Enter => ListAction::HeaderOr(Command::OpenPage),
        KeyCode::Char('r') => ListAction::Run(Command::Retry),
        KeyCode::Char('R') => ListAction::Run(Command::RetryAll),
        KeyCode::Char('e') => ListAction::Run(Command::Refetch),
        KeyCode::Char('E') => ListAction::Run(Command::RefetchAll),
        _ => ListAction::Nothing,
    }
}

fn action_of(key: Key, preview: bool, filtered: bool) -> (res: ListAction)
    ensures
        res == list_action(key, preview, filtered),
{
    let only_control = key.control && !key.shift && !key.alt && !key.more;
    match key.code {
        KeyCode::Char('q') => ListAction::Run(Command::Quit),
        KeyCode::Esc => if filtered {
            ListAction::Run(Command::ClearNameFilter)
        } else {
            ListAction::Run(Command::Quit)
        },
        KeyCode::Char('j') => ListAction::Down,
        KeyCode::Down => ListAction::Down,
        KeyCode::Char('k') => ListAction::Up,
        KeyCode::Up => ListAction::Up,
        KeyCode::Char('g') => ListAction::Top,
        KeyCode::Char('G') => ListAction::Bottom,
        KeyCode::Tab => ListAction::Run(Command::FocusToggle),
        KeyCode::Char('1') => ListAction::Focus { preview: false },
        KeyCode::Char('2') => ListAction::Focus { preview: true },
        KeyCode::Left => ListAction::Left,
        KeyCode::Right => ListAction::Right,
        KeyCode::Char(' ') => ListAction::HeaderOr(Command::ResultOverlay),
        KeyCode::Char('v') => ListAction::Arm(Leader::View),
        KeyCode::Char('z') => ListAction::Arm(Leader::Fold),
        KeyCode::Char('-') => ListAction::Run(Command::FoldCollapseAll),
        KeyCode::Char('+') => ListAction::Run(Command::FoldExpandAll),
        KeyCode::Char('=') => ListAction::Run(Command::FoldExpandAll),
        KeyCode::Char('*') => ListAction::Run(Command::FoldExpandSubtree),
        KeyCode::Char('Z') => ListAction::RefreshGroups,
        KeyCode::Char('?') => ListAction::Run(Command::Help),
        KeyCode::Char('t') => ListAction::Arm(Leader::Toggle),
        KeyCode::Char('s') => ListAction::Arm(Leader::Sort),
        KeyCode::Char('f') => ListAction::Arm(Leader::Filter),
        KeyCode::Char(',') => ListAction::Run(Command::Settings),
        KeyCode::Char('[') => ListAction::Run(Command::SplitNarrow),
        KeyCode::Char(']') => ListAction::Run(Command::SplitWiden),
        KeyCode::Char('/') => ListAction::Run(Command::NameFilter),
        KeyCode::PageUp => if preview {
            ListAction::PreviewUp
        } else {
            ListAction::PageUp
        },
        KeyCode::PageDown => if preview {
            ListAction::PreviewDown
        } else {
            ListAction::PageDown
        },
        KeyCode::End => if preview {
            ListAction::PreviewEnd
        } else {
            ListAction::Bottom
        },
        KeyCode::Home => ListAction::Top,
        KeyCode::Char('x') => ListAction::ClearLog,
        KeyCode::Char('i') => ListAction::Run(Command::Info),
        KeyCode::Char('d') => ListAction::Run(Command::DiffView),
        KeyCode::Char('o') => ListAction::Run(Command::OpenRemote),
        KeyCode::Char('D') => ListAction::Docs,
        KeyCode::Char('y') => ListAction::Run(Command::CopyPath),
        KeyCode::Char('Y') => ListAction::Run(Command::CopyRemote),
        KeyCode::Char('c') => if only_control {
            ListAction::Interrupt
        } else {
            ListAction::Run(Command::Claude)
        },
        KeyCode::Char('l') => ListAction::Run(Command::Lazygit),
        KeyCode::Enter => ListAction::HeaderOr(Command::OpenPage),
        KeyCode::Char('r') => ListAction::Run(Command::Retry),
        KeyCode::Char('R') => ListAction::Run(Command::RetryAll),
        KeyCode::Char('e') => ListAction::Run(Command::Refetch),
        KeyCode::Char('E') => ListAction::Run(Command::RefetchAll),
        _ => ListAction::Nothing,
    }
}

/// The rows that fit the list pane.
pub open spec fn list_page(app: AppState) -> usize {
    if app.hits.list_area.height > 2 {
        (app.hits.list_area.height - 2) as usize
    } else {
        0
    }
}

fn page_of_list(app: &AppState) -> (res: usize)
    ensures
        res == list_page(*app),
{
    if app.hits.list_area.height > 2 {
        app.hits.list_area.height as usize - 2
    } else {
        0
    }
}

/// The row that a step down leads to.
pub open spec fn row_below(app: AppState) -> int {
    app.row_below()
}

/// The row that a step up leads to.
pub open spec fn row_above(app: AppState) -> int {
    app.row_above()
}

/// What scrolling the preview does to the selected repo.
pub open spec fn preview_scrolled(before: AppState, action: ListAction, after: AppState) -> bool {
    match before.current() {
        Some(idx) => {
            let repo = before.repos@[idx as int];
            let total = repo.log@.len();
            match action {
                ListAction::PreviewUp => before.with_repo(
                    after,
                    idx as int,
                    RepoState {
                        auto_scroll: false,
                        preview_scroll: further(repo.preview_scroll, -20),
                        ..repo
                    },
                ),
                ListAction::PreviewDown => before.with_repo(
                    after,
                    idx as int,
                    RepoState {
                        preview_scroll: if repo.preview_scroll + 20 < total {
                            (repo.preview_scroll + 20) as usize
                        } else if total > 0 {
                            (total - 1) as usize
                        } else {
                            0
                        },
                        ..repo
                    },
                ),
                _ => before.with_repo(after, idx as int, RepoState { auto_scroll: true, ..repo }),
            }
        },
        None => after == before,
    }
}

fn scroll_preview(app: &mut AppState, action: ListAction)
    requires
        old(app).wf(),
        action is PreviewUp || action is PreviewDown || action is PreviewEnd,
    ensures
        final(app).wf(),
        preview_scrolled(*old(app), action, *final(app)),
{
    match app.selected_repo_index() {
        Some(idx) => {
            let scroll: usize = app.repos[idx].preview_scroll;
            let auto = app.repos[idx].auto_scroll;
            let total: usize = app.repos[idx].log.lines().len();
            assert(total == old(app).repos@[idx as int].log@.len());
            match action {
                ListAction::PreviewUp => app.scroll_preview(
                    idx,
                    shift(scroll, -20, usize::MAX),
                    false,
                ),
                ListAction::PreviewDown => {
                    let line: usize = if total > 20 && scroll < total - 20 {
                        scroll + 20
                    } else if total > 0 {
                        total - 1
                    } else {
                        0
                    };
                    app.scroll_preview(idx, line, auto)
                },
                _ => app.scroll_preview(idx, scroll, true),
            }
        },
        None => {},
    }
}

/// The log of the selected repo was emptied.
pub open spec fn log_cleared(before: AppState, after: AppState) -> bool {
    match before.current() {
        Some(idx) => {
            &&& after.repos@[idx as int].log@ == Seq::<Seq<char>>::empty()
            &&& before.with_repo(
                after,
                idx as int,
                RepoState { log: after.repos@[idx as int].log, ..before.repos@[idx as int] },
            )
        },
        None => after == before,
    }
}

fn clear_selected_log(app: &mut AppState)
    requires
        old(app).wf(),
    ensures
        final(app).wf(),
        log_cleared(*old(app), *final(app)),
{
    match app.selected_repo_index() {
        Some(idx) => app.clear_log(idx),
        None => {},
    }
}

/// What is to be done after folding: what is folded is kept where that changed.
pub open spec fn keeps_folds(changed: bool, effect: Effect) -> bool {
    if changed {
        effect is SavePrefs
    } else {
        effect is Nothing
    }
}

fn keep_folds(changed: bool) -> (res: Effect)
    ensures
        keeps_folds(changed, res),
{
    if changed {
        Effect::SavePrefs
    } else {
        Effect::Nothing
    }
}

/// What looking up the groups again does: with groups of which none has to be looked up, a note.
pub open spec fn groups_refreshed(before: AppState, after: AppState, effect: Effect) -> bool {
    if before.some_dynamic() {
        resolving_started(before, after) && effect is ResolveGroups
    } else if before.outline.groups@.len() > 0 {
        toasted(before, "no dynamic groups to refresh"@, after) && effect is Nothing
    } else {
        after == before && effect is Nothing
    }
}

fn refresh_groups(app: &mut AppState) -> (res: Effect)
    requires
        old(app).wf(),
    ensures
        final(app).wf(),
        groups_refreshed(*old(app), *final(app), res),
{
    if app.any_dynamic_groups() {
        app.start_resolving();
        return Effect::ResolveGroups;
    }
    if app.outline.groups.len() > 0 {
        toast(app, "no dynamic groups to refresh".to_owned());
    }
    Effect::Nothing
}

/// What an action does in the list.
pub open spec fn list_acted(
    before: AppState,
    action: ListAction,
    after: AppState,
    effect: Effect,
) -> bool {
    match action {
        ListAction::Nothing => after == before && effect is Nothing,
        ListAction::Interrupt => after == before && effect == Effect::Exit(INTERRUPTED),
        ListAction::Run(command) => dispatched(before, command, after, effect),
        ListAction::Down => after == before.navigated(row_below(before)) && effect is Nothing,
        ListAction::Up => after == before.navigated(row_above(before)) && effect is Nothing,
        ListAction::Top => after == before.navigated(stop_from(before.lines(), 0))
            && effect is Nothing,
        ListAction::Bottom => after == before.navigated(before.rows() - 1) && effect is Nothing,
        ListAction::PageUp => after == before.navigated(before.row_up(list_page(before)))
            && effect is Nothing,
        ListAction::PageDown => after == before.navigated(before.row_down(list_page(before)))
            && effect is Nothing,
        ListAction::PreviewUp => preview_scrolled(before, action, after) && effect is Nothing,
        ListAction::PreviewDown => preview_scrolled(before, action, after) && effect is Nothing,
        ListAction::PreviewEnd => preview_scrolled(before, action, after) && effect is Nothing,
        ListAction::Focus { preview } => after == before.with_focus(preview) && effect is Nothing,
        ListAction::Arm(leader) => after == before.with_leader(Some(leader)) && effect is Nothing,
        ListAction::ClearLog => log_cleared(before, after) && effect is Nothing,
        ListAction::Docs => after == before && effect.opens(docs_url()),
        ListAction::Left => went_left(before, after) && keeps_folds(before.folds_left(), effect),
        ListAction::Right => went_right(before, after) && keeps_folds(
            before.unfolds_right(),
            effect,
        ),
        ListAction::HeaderOr(command) => if before.picked_key() is Some {
            header_toggled(before, after) && effect is SavePrefs
        } else {
            dispatched(before, command, after, effect)
        },
        ListAction::RefreshGroups => groups_refreshed(before, after, effect),
    }
}

fn act(app: &mut AppState, action: ListAction) -> (res: Effect)
    requires
        old(app).wf(),
    ensures
        final(app).wf(),
        list_acted(*old(app), action, *final(app), res),
{
    match action {
        ListAction::Nothing => return Effect::Nothing,
        ListAction::Interrupt => return Effect::Exit(INTERRUPTED),
        ListAction::Run(command) => return dispatch_command(app, command),
        ListAction::Down => {
            app.nav_down();
            return Effect::Nothing;
        },
        ListAction::Up => {
            app.nav_up();
            return Effect::Nothing;
        },
        ListAction::Top => {
            app.nav_top();
            return Effect::Nothing;
        },
        ListAction::Bottom => {
            app.nav_bottom();
            return Effect::Nothing;
        },
        ListAction::PageUp => {
            let step: usize = page_of_list(app);
            app.nav_page_up(step);
            return Effect::Nothing;
        },
        ListAction::PageDown => {
            let step: usize = page_of_list(app);
            app.nav_page_down(step);
            return Effect::Nothing;
        },
        ListAction::PreviewUp => {
            scroll_preview(app, action);
            return Effect::Nothing;
        },
        ListAction::PreviewDown => {
            scroll_preview(app, action);
            return Effect::Nothing;
        },
        ListAction::PreviewEnd => {
            scroll_preview(app, action);
            return Effect::Nothing;
        },
        ListAction::Focus { preview } => {
            app.set_focus(preview);
            return Effect::Nothing;
        },
        ListAction::Arm(leader) => {
            app.set_leader(Some(leader));
            return Effect::Nothing;
        },
        ListAction::ClearLog => {
            clear_selected_log(app);
            return Effect::Nothing;
        },
        ListAction::Docs => return open_docs(),
        ListAction::Left => {
            let changed = app.nav_left();
            return keep_folds(changed);
        },
        ListAction::Right => {
            let changed = app.nav_right();
            return keep_folds(changed);
        },
        ListAction::HeaderOr(command) => {
            if app.toggle_selected_header() {
                return Effect::SavePrefs;
            }
            return dispatch_command(app, command);
        },
        ListAction::RefreshGroups => return refresh_groups(app),
    }
}

// ---- chords ----

/// The list column that a key of the column menu stands for.
pub open spec fn chord_column(key: Key) -> Option<Column> {
    match key.code {
        KeyCode::Char('a') => Some(Column::AheadBehind),
        KeyCode::Char('d') => Some(Column::Dirty),
        KeyCode::Char('l') => Some(Column::LastCommit),
        KeyCode::Char('w') => Some(Column::Worktrees),
        KeyCode::Char('b') => Some(Column::Branches),
        KeyCode::Char('s') => Some(Column::Stashes),
        _ => None,
    }
}

fn column_of(key: Key) -> (res: Option<Column>)
    ensures
        res == chord_column(key),
{
    match key.code {
        KeyCode::Char('a') => Some(Column::AheadBehind),
        KeyCode::Char('d') => Some(Column::Dirty),
        KeyCode::Char('l') => Some(Column::LastCommit),
        KeyCode::Char('w') => Some(Column::Worktrees),
        KeyCode::Char('b') => Some(Column::Branches),
        KeyCode::Char('s') => Some(Column::Stashes),
        _ => None,
    }
}

/// What a column counts, in words.
pub open spec fn column_noun(column: Column) -> Seq<char> {
    match column {
        Column::Worktrees => "worktrees"@,
        Column::Branches => "extra branches"@,
        _ => "stashes"@,
    }
}

/// What picking a list column does: one that no repo fills is only explained.
pub open spec fn column_flipped(before: AppState, column: Column, after: AppState) -> bool {
    if before.has_data(column) {
        after == before.with_columns(before.prefs.columns.flipped(column))
    } else {
        toasted(
            before,
            "no repo has any "@ + column_noun(column) + " — nothing to show"@,
            after,
        )
    }
}

fn flip_column(app: &mut AppState, column: Column)
    requires
        old(app).wf(),
    ensures
        final(app).wf(),
        column_flipped(*old(app), column, *final(app)),
{
    if app.column_available(column) {
        app.toggle_column(column);
    } else {
        let noun = match column {
            Column::Worktrees => "worktrees",
            Column::Branches => "extra branches",
            _ => "stashes",
        };
        toast(app, cat3("no repo has any ", noun, " — nothing to show"));
    }
}

/// The status filter that a key of the filter menu stands for.
pub open spec fn chord_filter(key: Key) -> Option<StatusFilter> {
    match key.code {
        KeyCode::Char('a') => Some(StatusFilter::All),
        KeyCode::Char('u') => Some(StatusFilter::Updated),
        KeyCode::Char('c') => Some(StatusFilter::UpToDate),
        KeyCode::Char('s') => Some(StatusFilter::Skipped),
        KeyCode::Char('f') => Some(StatusFilter::Failed),
        KeyCode::Char('i') => Some(StatusFilter::Issues),
        _ => None,
    }
}

fn filter_of(key: Key) -> (res: Option<StatusFilter>)
    ensures
        res == chord_filter(key),
{
    match key.code {
        KeyCode::Char('a') => Some(StatusFilter::All),
        KeyCode::Char('u') => Some(StatusFilter::Updated),
        KeyCode::Char('c') => Some(StatusFilter::UpToDate),
        KeyCode::Char('s') => Some(StatusFilter::Skipped),
        KeyCode::Char('f') => Some(StatusFilter::Failed),
        KeyCode::Char('i') => Some(StatusFilter::Issues),
        _ => None,
    }
}

/// The sort column that a key of the sort menu stands for.
pub open spec fn chord_sort(key: Key) -> Option<SortColumn> {
    match key.code {
        KeyCode::Char('n') => Some(SortColumn::Name),
        KeyCode::Char('c') => Some(SortColumn::Branch),
        KeyCode::Char('s') => Some(SortColumn::Status),
        KeyCode::Char('a') => Some(SortColumn::AheadBehind),
        KeyCode::Char('d') => Some(SortColumn::Dirty),
        KeyCode::Char('l') => Some(SortColumn::LastCommit),
        KeyCode::Char('w') => Some(SortColumn::Worktrees),
        KeyCode::Char('b') => Some(SortColumn::Branches),
        KeyCode::Char('k') => Some(SortColumn::Stashes),
        _ => None,
    }
}

fn sort_of(key: Key) -> (res: Option<SortColumn>)
    ensures
        res == chord_sort(key),
{
    match key.code {
        KeyCode::Char('n') => Some(SortColumn::Name),
        KeyCode::Char('c') => Some(SortColumn::Branch),
        KeyCode::Char('s') => Some(SortColumn::Status),
        KeyCode::Char('a') => Some(SortColumn::AheadBehind),
        KeyCode::Char('d') => Some(SortColumn::Dirty),
        KeyCode::Char('l') => Some(SortColumn::LastCommit),
        KeyCode::Char('w') => Some(SortColumn::Worktrees),
        KeyCode::Char('b') => Some(SortColumn::Branches),
        KeyCode::Char('k') => Some(SortColumn::Stashes),
        _ => None,
    }
}

/// What the second key of a fold chord does: `a` toggles the selected header, `o` unfolds and `c`
/// folds it, `O` unfolds all below it, `M` folds and `R` unfolds everything.
pub open spec fn fold_picked(before: AppState, key: Key, after: AppState, effect: Effect) -> bool {
    match key.code {
        KeyCode::Char('a') => header_toggled(before, after) && keeps_folds(
            before.picked_key() is Some,
            effect,
        ),
        KeyCode::Char('o') => went_right(before, after) && keeps_folds(
            before.unfolds_right(),
            effect,
        ),
        KeyCode::Char('c') => went_left(before, after) && keeps_folds(before.folds_left(), effect),
        KeyCode::Char('O') => expanded_subtree(before, after) && effect is SavePrefs,
        KeyCode::Char('M') => collapsed_all(before, after) && effect is SavePrefs,
        KeyCode::Char('R') => expanded_all(before, after) && effect is SavePrefs,
        _ => after == before && effect is Nothing,
    }
}

fn pick_fold(app: &mut AppState, key: Key) -> (res: Effect)
    requires
        old(app).wf(),
    ensures
        final(app).wf(),
        fold_picked(*old(app), key, *final(app), res),
{
    match key.code {
        KeyCode::Char('a') => {
            let changed = app.toggle_selected_header();
            return keep_folds(changed);
        },
        KeyCode::Char('o') => {
            let changed = app.nav_right();
            return keep_folds(changed);
        },
        KeyCode::Char('c') => {
            let changed = app.nav_left();
            return keep_folds(changed);
        },
        KeyCode::Char('O') => {
            app.expand_subtree();
            return Effect::SavePrefs;
        },
        KeyCode::Char('M') => {
            app.collapse_all();
            return Effect::SavePrefs;
        },
        KeyCode::Char('R') => {
            app.expand_all();
            return Effect::SavePrefs;
        },
        _ => return Effect::Nothing,
    }
}

/// A key that leaves the column menu and acts as always.
pub open spec fn leaves_menu(key: Key) -> bool {
    key.code is Up || key.code is Down || key.code is Home || key.code is End || key.code is Enter
}

/// What a key does in the list while the column menu is open: it stays open while columns are
/// flipped; `t` and Esc close it, navigation keys close it and act, others are ignored.
pub open spec fn toggle_keyed(before: AppState, key: Key, after: AppState, effect: Effect) -> bool {
    match chord_column(key) {
        Some(column) => column_flipped(before, column, after) && effect is Nothing,
        None => if leaves_menu(key) {
            list_acted(
                before.with_leader(None),
                list_action(key, before.preview_focused, before.filter is Some),
                after,
                effect,
            )
        } else if key.types('t') || key.code is Esc {
            after == before.with_leader(None) && effect is Nothing
        } else {
            after == before && effect is Nothing
        },
    }
}

/// What a key does in the list: the second key of a chord picks a filter, a sort column, a view
/// or a fold and ends the chord whatever it is.
pub open spec fn list_keyed(before: AppState, key: Key, after: AppState, effect: Effect) -> bool {
    match before.pending_leader {
        Some(Leader::Toggle) => toggle_keyed(before, key, after, effect),
        Some(Leader::Filter) => {
            &&& effect is Nothing
            &&& after == match chord_filter(key) {
                Some(filter) => before.with_status_filter(filter).with_leader(None),
                None => before.with_leader(None),
            }
        },
        Some(Leader::Sort) => {
            &&& effect is Nothing
            &&& after == match chord_sort(key) {
                Some(column) => before.sorted_by(column).with_leader(None),
                None => before.with_leader(None),
            }
        },
        Some(Leader::View) => if key.types('g') {
            after == with_grouping(
                before,
                !before.prefs.grouping_enabled,
            ).topped().with_leader(None) && effect is SavePrefs
        } else if key.types('t') {
            after == with_tree(before, !before.prefs.tree_enabled).topped().with_leader(None)
                && effect is SavePrefs
        } else {
            after == before.with_leader(None) && effect is Nothing
        },
        Some(Leader::Fold) => exists|mid: AppState|
            #[trigger] fold_picked(before, key, mid, effect) && after == mid.with_leader(None),
        None => list_acted(before, list_action(key, before.preview_focused, before.filter is Some), after, effect),
    }
}

fn toggle_key(app: &mut AppState, key: Key) -> (res: Effect)
    requires
        old(app).wf(),
    ensures
        final(app).wf(),
        toggle_keyed(*old(app), key, *final(app), res),
{
    match column_of(key) {
        Some(column) => {
            flip_column(app, column);
            return Effect::Nothing;
        },
        None => {},
    }
    match key.code {
        KeyCode::Up | KeyCode::Down | KeyCode::Home | KeyCode::End | KeyCode::Enter => {
            let action = action_of(key, app.preview_focused, app.filter.is_some());
            app.set_leader(None);
            return act(app, action);
        },
        KeyCode::Char('t') | KeyCode::Esc => {
            app.set_leader(None);
            return Effect::Nothing;
        },
        _ => return Effect::Nothing,
    }
}

/// A key in the list.
pub fn list_key(app: &mut AppState, key: Key) -> (res: Effect)
    requires
        old(app).wf(),
    ensures
        final(app).wf(),
        list_keyed(*old(app), key, *final(app), res),
{
    match app.pending_leader {
        Some(Leader::Toggle) => return toggle_key(app, key),
        Some(Leader::Filter) => {
            match filter_of(key) {
                Some(filter) => {
                    app.set_status_filter(filter);
                },
                None => {},
            }
            app.set_leader(None);
            return Effect::Nothing;
        },
        Some(Leader::Sort) => {
            match sort_of(key) {
                Some(column) => {
                    app.set_sort(column);
                },
                None => {},
            }
            app.set_leader(None);
            return Effect::Nothing;
        },
        Some(Leader::View) => {
            if key.code == KeyCode::Char('g') {
                toggle_grouping(app);
                app.go_top();
                app.set_leader(None);
                return Effect::SavePrefs;
            }
            if key.code == KeyCode::Char('t') {
                toggle_tree(app);
                app.go_top();
                app.set_leader(None);
                return Effect::SavePrefs;
            }
            app.set_leader(None);
            return Effect::Nothing;
        },
        Some(Leader::Fold) => {
            let effect = pick_fold(app, key);
            let ghost mid = *app;
            app.set_leader(None);
            assert(fold_picked(*old(app), key, mid, effect));
            return effect;
        },
        None => {
            let action = action_of(key, app.preview_focused, app.filter.is_some());
            return act(app, action);
        },
    }
}

// ---- all keys ----

/// What takes a key: the topmost of what is open.
#[derive(Debug, Clone, Copy, PartialEq, Eq, Structural)]
pub enum Layer {
    Filter,
    Confirm,
    BuildInfo,
    Settings,
    CopyMenu,
    BasePicker,
    Diff,
    Page,
    Help,
    List,
}

/// What takes a key. The help modal lies over the diff modal and the repo page.
pub open spec fn key_layer(app: AppState) -> Layer {
    if app.filter_input_mode {
        Layer::Filter
    } else if app.overlays.confirm is Some {
        Layer::Confirm
    } else if app.overlays.build_info {
        Layer::BuildInfo
    } else if app.overlays.settings {
        Layer::Settings
    } else if app.overlays.copy_menu is Some {
        Layer::CopyMenu
    } else if app.overlays.base_picker is Some {
        Layer::BasePicker
    } else if app.overlays.diff is Some && !app.overlays.help {
        Layer::Diff
    } else if app.page.repo is Some && !app.overlays.help {
        Layer::Page
    } else if app.overlays.help {
        Layer::Help
    } else {
        Layer::List
    }
}

fn layer_of(app: &AppState) -> (res: Layer)
    ensures
        res == key_layer(*app),
{
    if app.filter_input_mode {
        Layer::Filter
    } else if app.overlays.confirm.is_some() {
        Layer::Confirm
    } else if app.overlays.build_info {
        Layer::BuildInfo
    } else if app.overlays.settings {
        Layer::Settings
    } else if app.overlays.copy_menu.is_some() {
        Layer::CopyMenu
    } else if app.overlays.base_picker.is_some() {
        Layer::BasePicker
    } else if app.overlays.diff.is_some() && !app.overlays.help {
        Layer::Diff
    } else if app.page.repo.is_some() && !app.overlays.help {
        Layer::Page
    } else if app.overlays.help {
        Layer::Help
    } else {
        Layer::List
    }
}

/// What a key does.
pub open spec fn keyed(before: AppState, key: Key, after: AppState, effect: Effect) -> bool {
    match key_layer(before) {
        Layer::Filter => filter_keyed(before, key, after) && effect is Nothing,
        Layer::Confirm => confirm_keyed(before, key, after, effect),
        Layer::BuildInfo => if key.interrupts() {
            after == before && effect == Effect::Exit(INTERRUPTED)
        } else if key.types('r') {
            after == before && effect is Reload
        } else {
            after == before.with_build_info(false) && effect is Nothing
        },
        Layer::Settings => settings_keyed(before, key, after, effect),
        Layer::CopyMenu => copy_keyed(before, key, after, effect),
        Layer::BasePicker => picker_keyed(before, key, after, effect),
        Layer::Diff => diff_keyed(before, key, after, effect),
        Layer::Page => page_keyed(before, key, after, effect),
        Layer::Help => help_keyed(before, key, after, effect),
        Layer::List => list_keyed(before, key, after, effect),
    }
}

/// A key press: changes the state, and says what is to be done outside it.
pub fn handle_key(app: &mut AppState, key: Key) -> (res: Effect)
    requires
        old(app).wf(),
    ensures
        final(app).wf(),
        keyed(*old(app), key, *final(app), res),
{
    match layer_of(app) {
        Layer::Filter => {
            filter_key(app, key);
            return Effect::Nothing;
        },
        Layer::Confirm => return confirm_key(app, key),
        Layer::BuildInfo => return build_info_key(app, key),
        Layer::Settings => return settings_key(app, key),
        Layer::CopyMenu => return copy_key(app, key),
        Layer::BasePicker => return picker_key(app, key),
        Layer::Diff => return diff_key(app, key),
        Layer::Page => return page_key(app, key),
        Layer::Help => return help_key(app, key),
        Layer::List => return list_key(app, key),
    }
}

/// Control and `c` leaves the program at once, whatever is open, except while the name filter is
/// typed or a chord is pending.
pub proof fn law_control_c_leaves(before: AppState, key: Key, after: AppState, effect: Effect)
    requires
        keyed(before, key, after, effect),
        key == (Key {
            code: KeyCode::Char('c'),
            control: true,
            shift: false,
            alt: false,
            more: false,
        }),
        !before.filter_input_mode,
        before.pending_leader is None,
    ensures
        effect == Effect::Exit(INTERRUPTED),
        after == before,
{
}

// ---- which key does what ----

/// The keys that pull again: `r` and `e` the selected repo, `R` and `E` all of them, and no other.
pub proof fn law_pull_keys(key: Key, preview: bool, filtered: bool)
    ensures
        list_action(key, preview, filtered) == ListAction::Run(Command::Retry) <==> key.code == KeyCode::Char('r'),
        list_action(key, preview, filtered) == ListAction::Run(Command::RetryAll) <==> key.code == KeyCode::Char('R'),
        list_action(key, preview, filtered) == ListAction::Run(Command::Refetch) <==> key.code == KeyCode::Char('e'),
        list_action(key, preview, filtered) == ListAction::Run(Command::RefetchAll) <==> key.code == KeyCode::Char('E'),
{
}

/// The keys that move the selection or scroll, and no other: what a page key and `End` move
/// depends on which panel has the focus.
pub proof fn law_movement_keys(key: Key, preview: bool, filtered: bool)
    ensures
        list_action(key, preview, filtered) == ListAction::Down <==> key.code == KeyCode::Char('j') || key.code is Down,
        list_action(key, preview, filtered) == ListAction::Up <==> key.code == KeyCode::Char('k') || key.code is Up,
        list_action(key, preview, filtered) == ListAction::Top <==> key.code == KeyCode::Char('g') || key.code is Home,
        list_action(key, preview, filtered) == ListAction::Bottom <==> key.code == KeyCode::Char('G')
            || (key.code is End && !preview),
        list_action(key, preview, filtered) == ListAction::PreviewEnd <==> key.code is End && preview,
        list_action(key, preview, filtered) == ListAction::PageUp <==> key.code is PageUp
            && !preview,
        list_action(key, preview, filtered) == ListAction::PreviewUp <==> key.code is PageUp
            && preview,
        list_action(key, preview, filtered) == ListAction::PageDown <==> key.code is PageDown
            && !preview,
        list_action(key, preview, filtered) == ListAction::PreviewDown <==> key.code is PageDown
            && preview,
        list_action(key, preview, filtered) == ListAction::Run(Command::FocusToggle) <==> key.code is Tab,
        list_action(key, preview, filtered) == (ListAction::Focus { preview: false }) <==> key.code == KeyCode::Char('1'),
        list_action(key, preview, filtered) == (ListAction::Focus { preview: true }) <==> key.code == KeyCode::Char('2'),
{
}

/// The keys that leave, and no other: `q`, and `Esc` where it has no name filter to clear;
/// control and `c` interrupts.
pub proof fn law_leaving_keys(key: Key, preview: bool, filtered: bool)
    ensures
        list_action(key, preview, filtered) == ListAction::Run(Command::Quit) <==> key.code
            == KeyCode::Char('q') || (key.code is Esc && !filtered),
        list_action(key, preview, filtered) == ListAction::Run(Command::ClearNameFilter)
            <==> key.code is Esc && filtered,
        list_action(key, preview, filtered) is Interrupt <==> key.code == KeyCode::Char('c')
            && key.control && !key.shift && !key.alt && !key.more,
        INTERRUPTED == 130,
{
}

/// The keys that fold, and no other.
pub proof fn law_fold_keys(key: Key, preview: bool, filtered: bool)
    ensures
        list_action(key, preview, filtered) == ListAction::Left <==> key.code is Left,
        list_action(key, preview, filtered) == ListAction::Right <==> key.code is Right,
        list_action(key, preview, filtered) == ListAction::HeaderOr(Command::ResultOverlay) <==> key.code == KeyCode::Char(' '),
        list_action(key, preview, filtered) == ListAction::HeaderOr(Command::OpenPage) <==> key.code is Enter,
        list_action(key, preview, filtered) == ListAction::Run(Command::FoldCollapseAll) <==> key.code == KeyCode::Char('-'),
        list_action(key, preview, filtered) == ListAction::Run(Command::FoldExpandAll) <==> key.code == KeyCode::Char('+') || key.code == KeyCode::Char('='),
        list_action(key, preview, filtered) == ListAction::Run(Command::FoldExpandSubtree) <==> key.code == KeyCode::Char('*'),
        list_action(key, preview, filtered) == ListAction::RefreshGroups <==> key.code == KeyCode::Char('Z'),
{
}

/// The keys that start a chord, and no other.
pub proof fn law_chord_keys(key: Key, preview: bool, filtered: bool)
    ensures
        list_action(key, preview, filtered) == ListAction::Arm(Leader::View) <==> key.code == KeyCode::Char('v'),
        list_action(key, preview, filtered) == ListAction::Arm(Leader::Fold) <==> key.code == KeyCode::Char('z'),
        list_action(key, preview, filtered) == ListAction::Arm(Leader::Toggle) <==> key.code == KeyCode::Char('t'),
        list_action(key, preview, filtered) == ListAction::Arm(Leader::Sort) <==> key.code == KeyCode::Char('s'),
        list_action(key, preview, filtered) == ListAction::Arm(Leader::Filter) <==> key.code == KeyCode::Char('f'),
{
}

/// The keys that show or change something, and no other.
pub proof fn law_view_keys(key: Key, preview: bool, filtered: bool)
    ensures
        list_action(key, preview, filtered) == ListAction::Run(Command::Help) <==> key.code == KeyCode::Char('?'),
        list_action(key, preview, filtered) == ListAction::Run(Command::Settings) <==> key.code == KeyCode::Char(','),
        list_action(key, preview, filtered) == ListAction::Run(Command::SplitNarrow) <==> key.code == KeyCode::Char('['),
        list_action(key, preview, filtered) == ListAction::Run(Command::SplitWiden) <==> key.code == KeyCode::Char(']'),
        list_action(key, preview, filtered) == ListAction::Run(Command::NameFilter) <==> key.code == KeyCode::Char('/'),
        list_action(key, preview, filtered) == ListAction::ClearLog <==> key.code == KeyCode::Char('x'),
        list_action(key, preview, filtered) == ListAction::Run(Command::Info) <==> key.code == KeyCode::Char('i'),
        list_action(key, preview, filtered) == ListAction::Run(Command::DiffView) <==> key.code == KeyCode::Char('d'),
{
}

/// The keys that use the selected repo elsewhere, and no other.
pub proof fn law_outside_keys(key: Key, preview: bool, filtered: bool)
    ensures
        list_action(key, preview, filtered) == ListAction::Run(Command::OpenRemote) <==> key.code == KeyCode::Char('o'),
        list_action(key, preview, filtered) == ListAction::Docs <==> key.code == KeyCode::Char('D'),
        list_action(key, preview, filtered) == ListAction::Run(Command::CopyPath) <==> key.code == KeyCode::Char('y'),
        list_action(key, preview, filtered) == ListAction::Run(Command::CopyRemote) <==> key.code == KeyCode::Char('Y'),
        list_action(key, preview, filtered) == ListAction::Run(Command::Lazygit) <==> key.code == KeyCode::Char('l'),
        list_action(key, preview, filtered) == ListAction::Run(Command::Claude) <==> key.code
            == KeyCode::Char('c') && !(key.control && !key.shift && !key.alt && !key.more),
{
}

/// After `t` a letter stands for the column it begins with, and no other key for a column.
pub proof fn law_column_letters(key: Key)
    ensures
        chord_column(key) == Some(Column::AheadBehind) <==> key.code == KeyCode::Char('a'),
        chord_column(key) == Some(Column::Dirty) <==> key.code == KeyCode::Char('d'),
        chord_column(key) == Some(Column::LastCommit) <==> key.code == KeyCode::Char('l'),
        chord_column(key) == Some(Column::Worktrees) <==> key.code == KeyCode::Char('w'),
        chord_column(key) == Some(Column::Branches) <==> key.code == KeyCode::Char('b'),
        chord_column(key) == Some(Column::Stashes) <==> key.code == KeyCode::Char('s'),
{
}

/// After `f` a letter stands for a filter: `c` for what is current, the others for the word they
/// begin.
pub proof fn law_filter_letters(key: Key)
    ensures
        chord_filter(key) == Some(StatusFilter::All) <==> key.code == KeyCode::Char('a'),
        chord_filter(key) == Some(StatusFilter::Updated) <==> key.code == KeyCode::Char('u'),
        chord_filter(key) == Some(StatusFilter::UpToDate) <==> key.code == KeyCode::Char('c'),
        chord_filter(key) == Some(StatusFilter::Skipped) <==> key.code == KeyCode::Char('s'),
        chord_filter(key) == Some(StatusFilter::Failed) <==> key.code == KeyCode::Char('f'),
        chord_filter(key) == Some(StatusFilter::Issues) <==> key.code == KeyCode::Char('i'),
{
}

/// After `s` a letter stands for the column to sort by.
pub proof fn law_sort_letters(key: Key)
    ensures
        chord_sort(key) == Some(SortColumn::Name) <==> key.code == KeyCode::Char('n'),
        chord_sort(key) == Some(SortColumn::Branch) <==> key.code == KeyCode::Char('c'),
        chord_sort(key) == Some(SortColumn::Status) <==> key.code == KeyCode::Char('s'),
        chord_sort(key) == Some(SortColumn::AheadBehind) <==> key.code == KeyCode::Char('a'),
        chord_sort(key) == Some(SortColumn::Dirty) <==> key.code == KeyCode::Char('d'),
        chord_sort(key) == Some(SortColumn::LastCommit) <==> key.code == KeyCode::Char('l'),
        chord_sort(key) == Some(SortColumn::Worktrees) <==> key.code == KeyCode::Char('w'),
        chord_sort(key) == Some(SortColumn::Branches) <==> key.code == KeyCode::Char('b'),
        chord_sort(key) == Some(SortColumn::Stashes) <==> key.code == KeyCode::Char('k'),
{
}

/// What each chord does: it applies the filter, the order or the view that its letter stands
/// for, and is over.
pub proof fn law_chords(before: AppState, key: Key, after: AppState, effect: Effect)
    requires
        list_keyed(before, key, after, effect),
    ensures
        before.pending_leader == Some(Leader::Filter) ==> {
            &&& after.pending_leader is None
            &&& chord_filter(key) matches Some(filter) ==> after.status_filter == filter
            &&& chord_filter(key) is None ==> after.status_filter == before.status_filter
        },
        before.pending_leader == Some(Leader::Sort) ==> {
            &&& after.pending_leader is None
            &&& chord_sort(key) matches Some(column) ==> after.prefs.sort_column == column
            &&& chord_sort(key) is None ==> after.prefs == before.prefs
        },
        before.pending_leader == Some(Leader::View) ==> {
            &&& after.pending_leader is None
            &&& after.prefs.grouping_enabled == (before.prefs.grouping_enabled
                != (key.code == KeyCode::Char('g')))
            &&& after.prefs.tree_enabled == (before.prefs.tree_enabled != (key.code
                == KeyCode::Char('t')))
        },
        before.pending_leader == Some(Leader::Toggle) ==> {
            &&& chord_column(key) matches Some(column) ==> before.has_data(column)
                ==> after.prefs.columns.shows(column) == !before.prefs.columns.shows(column)
            &&& chord_column(key) matches Some(column) ==> !before.has_data(column)
                ==> after.prefs.columns == before.prefs.columns
        },
{
    reveal(AppState::with_status_filter);
    reveal(AppState::sorted_by);
    reveal(AppState::with_columns);
    reveal(AppState::with_leader);
    reveal(with_grouping);
    reveal(with_tree);
    reveal(toasted);
}

/// What pulls the selected repo again: a retry only a repo that failed or was skipped, a refetch
/// any repo that is done; neither touches another repo.
pub proof fn law_rerun_selected(
    before: AppState,
    command: Command,
    after: AppState,
    effect: Effect,
    k: usize,
)
    requires
        dispatched(before, command, after, effect),
        before.current() == Some(k),
    ensures
        command == Command::Retry ==> {
            let status = before.repos@[k as int].status;
            &&& after == before
            &&& status is Failed || status is Skipped ==> (effect matches Effect::Rerun(list)
                && list@ == seq![k])
            &&& !(status is Failed || status is Skipped) ==> effect is Nothing
        },
        command == Command::Refetch ==> {
            let status = before.repos@[k as int].status;
            let busy = status is Queued || status is Running || status is Throttled;
            &&& after == before
            &&& busy ==> effect is Nothing
            &&& !busy ==> (effect matches Effect::Rerun(list)
                && list@ == seq![k])
        },
{
}

/// What the commands that use the selected repo hand out: its own path, or its own address.
pub proof fn law_use_selected(
    before: AppState,
    command: Command,
    after: AppState,
    effect: Effect,
    k: usize,
)
    requires
        dispatched(before, command, after, effect),
        before.current() == Some(k),
    ensures
        command == Command::Claude ==> effect == Effect::Claude(
            before.repos@[k as int].path,
        ),
        command == Command::Lazygit ==> effect == Effect::Lazygit(
            before.repos@[k as int].path,
        ),
        command == Command::CopyPath ==> effect == Effect::CopyText(
            before.repos@[k as int].path,
        ),
        command == Command::OpenRemote ==> match before.repos@[k as int].remote_url {
            Some(url) => effect == Effect::OpenUrl(url),
            None => effect is Nothing,
        },
        command == Command::CopyRemote ==> match before.repos@[k as int].remote_url {
            Some(url) => effect == Effect::CopyText(url),
            None => effect is Nothing,
        },
{
}

/// What the commands that switch something change: the one thing they are named after.
pub proof fn law_switches(before: AppState, command: Command, after: AppState, effect: Effect)
    requires
        dispatched(before, command, after, effect),
    ensures
        command == Command::Info ==> after.prefs.info_pinned
            == !before.prefs.info_pinned && after.repos == before.repos,
        command == Command::ResultOverlay ==> after.result_overlay
            == !before.result_overlay && after.prefs == before.prefs,
        command == Command::FocusToggle ==> after.preview_focused
            == !before.preview_focused && after.prefs == before.prefs,
        command == Command::GroupingToggle ==> after.prefs.grouping_enabled
            == !before.prefs.grouping_enabled && after.prefs.tree_enabled
            == before.prefs.tree_enabled && effect is SavePrefs,
        command == Command::TreeToggle ==> after.prefs.tree_enabled
            == !before.prefs.tree_enabled && after.prefs.grouping_enabled
            == before.prefs.grouping_enabled && effect is SavePrefs,
        command == Command::DiffView ==> after.right_view
            != before.right_view && after.prefs == before.prefs,
        command == Command::ClearNameFilter ==> after.filter is None
            && !after.filter_input_mode,
        command == Command::NameFilter ==> after.filter_input_mode
            && after.filter is Some && (before.filter is Some ==> after.filter == before.filter),
        command == Command::Help ==> after.overlays.help
            && after.overlays.help_scroll == 0,
        command == Command::Settings ==> after.overlays.settings
            && after.overlays.settings_selected == 0,
        command == Command::ShowBuildInfo ==> after.overlays.build_info,
        command == Command::SplitNarrow ==> effect
            == (Effect::ResizeSplit { wider: false }),
        command == Command::SplitWiden ==> effect
            == (Effect::ResizeSplit { wider: true }),
{
    reveal(with_info);
    reveal(with_result);
    reveal(with_grouping);
    reveal(with_tree);
    reveal(without_filter);
    reveal(filter_opened);
    reveal(AppState::with_focus);
    reveal(AppState::with_other_view);
    reveal(AppState::with_help_opened);
    reveal(AppState::with_settings_opened);
    reveal(AppState::with_build_info);
}

/// Leaving early exits with 2, leaving a finished run with 1 where a repo failed and with 0 where
/// none did.
pub proof fn law_quitting(before: AppState, after: AppState, effect: Effect)
    requires
        dispatched(before, Command::Quit, after, effect),
    ensures
        !before.progress.all_done <==> effect == Effect::Exit(2),
        before.progress.all_done ==> (effect == Effect::Exit(1) <==> exists|i: int|
            0 <= i < before.repos@.len() && (#[trigger] before.repos@[i]).status is Failed),
        before.progress.all_done ==> effect == Effect::Exit(0) || effect == Effect::Exit(1),
{
    lemma_tally_failed(before.repos@);
}

/// What is on top gets the keys: while the name filter is typed it does, then a dialog, and the
/// list only where nothing is open.
pub proof fn law_top_gets_the_keys(app: AppState)
    ensures
        app.filter_input_mode ==> key_layer(app) is Filter,
        !app.filter_input_mode && app.overlays.confirm is Some ==> key_layer(app) is Confirm,
        key_layer(app) is List <==> !app.filter_input_mode && app.overlays.confirm is None
            && !app.overlays.build_info && !app.overlays.settings && app.overlays.copy_menu is None
            && app.overlays.base_picker is None && app.overlays.diff is None && app.page.repo is None
            && !app.overlays.help,
        key_layer(app) is Page ==> app.page.repo is Some && app.overlays.diff is None
            && !app.overlays.help,
        key_layer(app) is Diff ==> app.overlays.diff is Some && !app.overlays.help
            && app.overlays.base_picker is None && app.overlays.copy_menu is None,
        key_layer(app) is Help ==> app.overlays.help,
{
}

} // verus!
