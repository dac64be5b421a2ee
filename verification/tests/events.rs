//! Keys and clicks, and what the background work changes.

use pull_all::app::{AppState, Prefs};
use pull_all::commands::{compute_exit_code, dispatch_command, handle_key};
use pull_all::dialogs::{ConfirmAction, ConfirmDialog, DiffSource, PageRowKind};
use pull_all::input::{Effect, Key, KeyCode};
use pull_all::keys::confirm_for_row;
use pull_all::mouse::{handle_mouse, ClickMemory, Mouse, MouseKind};
use pull_all::options::{
    Column, Command, DiffMode, Leader, RightView, ScrollHit, ScrollKind, SortColumn, StatusFilter,
    Theme,
};
use pull_all::repo::{
    BranchInfo, RepoDetails, RepoPageData, RepoState, RepoStatus, StashInfo, WorktreeInfo,
};
use pull_all::screen::Rect;
use pull_all::ticks::{
    begin_batch, build_profile_rows, build_seen, depth_for, discovery_ended, jobs_for,
    lazygit_missing, reload_path, repos_arrived, settle, take_details_load, take_page_load,
};
use pull_all::worker::{
    delete_message, diff_arrived, drop_message, finish_checkout, finish_repo_mutation,
    prepare_discard, prepare_drop_stash,
};

fn repo(name: &str, status: RepoStatus) -> RepoState {
    let mut repo = RepoState::new(name.to_string(), format!("/src/{name}"));
    repo.status = status;
    repo
}

fn state() -> AppState {
    AppState::new(
        vec![
            repo("alpha", RepoStatus::UpToDate),
            repo("beta", RepoStatus::Failed),
            repo("gamma", RepoStatus::Running { pid: 7 }),
        ],
        4,
        Prefs::new(),
        true,
    )
}

fn branch(name: &str, is_head: bool, ahead: Option<u32>) -> BranchInfo {
    BranchInfo {
        name: name.to_string(),
        is_head,
        upstream: Some(format!("origin/{name}")),
        ahead,
        behind: Some(0),
        last_commit_rel: String::new(),
        subject: String::new(),
        stats: None,
        base: None,
        base_is_override: false,
        dirty_count: 0,
        merge_base_short: None,
        commit_sha: String::new(),
        author: String::new(),
    }
}

fn page_state(head_dirty: bool) -> AppState {
    let mut app = state();
    app.open_repo_page();
    app.repos[0].page = Some(RepoPageData {
        branches: vec![branch("main", true, Some(0)), branch("topic", false, Some(3))],
        worktrees: vec![WorktreeInfo { branch: "wt".to_string(), path: "/src/wt".to_string() }],
        stashes: vec![StashInfo { index: 0, label: "WIP".to_string() }],
        head_dirty,
        dirty_worktrees: vec!["/src/wt".to_string()],
        fetched: true,
        fetch_error: None,
        base_branch: None,
    });
    app.page.focus_pending = false;
    app
}

fn key(code: KeyCode) -> Key {
    Key { code, control: false, shift: false, alt: false, more: false }
}

fn press(app: &mut AppState, c: char) -> Effect {
    handle_key(app, key(KeyCode::Char(c)))
}

fn click(col: u16, row: u16) -> Mouse {
    Mouse { kind: MouseKind::Press, col, row, shift: false, alt: false }
}

#[test]
fn control_c_leaves_at_once() {
    let mut app = state();
    let interrupt = Key { control: true, ..key(KeyCode::Char('c')) };
    assert!(matches!(handle_key(&mut app, interrupt), Effect::Exit(130)));
}

#[test]
fn exit_codes() {
    let mut app = state();
    assert!(matches!(press(&mut app, 'q'), Effect::Exit(2)));
    app.repos[2].status = RepoStatus::Updated;
    discovery_ended(&mut app);
    settle(&mut app, 100);
    assert_eq!(compute_exit_code(&app), 1);
    assert!(matches!(press(&mut app, 'q'), Effect::Exit(1)));
    app.repos[1].status = RepoStatus::Skipped;
    assert_eq!(compute_exit_code(&app), 0);
    assert!(matches!(press(&mut app, 'q'), Effect::Exit(0)));
}

#[test]
fn escape_clears_the_filter_before_it_quits() {
    let mut app = state();
    app.filter = Some("al".to_string());
    assert!(matches!(handle_key(&mut app, key(KeyCode::Esc)), Effect::Nothing));
    assert_eq!(app.filter, None);
    assert!(matches!(handle_key(&mut app, key(KeyCode::Esc)), Effect::Exit(2)));
}

#[test]
fn typing_a_filter() {
    let mut app = state();
    press(&mut app, '/');
    assert!(app.filter_input_mode);
    press(&mut app, 'b');
    press(&mut app, 'e');
    assert_eq!(app.filter.as_deref(), Some("be"));
    assert_eq!(app.visible_indices(), vec![1]);
    handle_key(&mut app, key(KeyCode::Backspace));
    assert_eq!(app.filter.as_deref(), Some("b"));
    handle_key(&mut app, key(KeyCode::Enter));
    assert!(!app.filter_input_mode);
    assert_eq!(app.filter.as_deref(), Some("b"));
}

#[test]
fn moving_through_the_list() {
    let mut app = state();
    press(&mut app, 'j');
    assert_eq!(app.selected, 1);
    press(&mut app, 'G');
    // Three repos, the Result, the Errors.
    assert_eq!(app.selected, 4);
    press(&mut app, 'j');
    assert_eq!(app.selected, 4);
    press(&mut app, 'g');
    assert_eq!(app.selected, 0);
    press(&mut app, 'k');
    assert_eq!(app.selected, 0);
}

#[test]
fn retry_and_refetch() {
    let mut app = state();
    assert!(matches!(press(&mut app, 'r'), Effect::Nothing));
    match press(&mut app, 'e') {
        Effect::Rerun(queue) => assert_eq!(queue, vec![0]),
        other => panic!("{other:?}"),
    }
    match press(&mut app, 'R') {
        Effect::Rerun(queue) => assert_eq!(queue, vec![1]),
        other => panic!("{other:?}"),
    }
    match press(&mut app, 'E') {
        Effect::Rerun(queue) => assert_eq!(queue, vec![0, 1]),
        other => panic!("{other:?}"),
    }
}

#[test]
fn leaders_take_the_next_key() {
    let mut app = state();
    press(&mut app, 't');
    assert_eq!(app.pending_leader, Some(Leader::Toggle));
    press(&mut app, 'd');
    assert!(app.prefs.columns.dirty);
    // The column leader stays until Escape.
    assert_eq!(app.pending_leader, Some(Leader::Toggle));
    handle_key(&mut app, key(KeyCode::Esc));
    assert_eq!(app.pending_leader, None);
    press(&mut app, 's');
    press(&mut app, 'c');
    assert_eq!(app.prefs.sort_column, SortColumn::Branch);
    press(&mut app, 'f');
    press(&mut app, 'f');
    assert_eq!(app.status_filter, StatusFilter::Failed);
    assert_eq!(app.visible_indices(), vec![1]);
}

#[test]
fn commands_change_the_view() {
    let mut app = state();
    dispatch_command(&mut app, Command::DiffView);
    assert_eq!(app.right_view, RightView::Diff);
    dispatch_command(&mut app, Command::ToggleColumn(Column::Stashes));
    assert!(app.prefs.columns.stashes);
    match dispatch_command(&mut app, Command::CopyPath) {
        Effect::CopyText(text) => assert_eq!(text, "/src/alpha"),
        other => panic!("{other:?}"),
    }
    assert!(matches!(dispatch_command(&mut app, Command::OpenRemote), Effect::Nothing));
    app.repos[0].remote_url = Some("https://github.com/o/alpha".to_string());
    match dispatch_command(&mut app, Command::OpenRemote) {
        Effect::OpenUrl(url) => assert_eq!(url, "https://github.com/o/alpha"),
        other => panic!("{other:?}"),
    }
    match dispatch_command(&mut app, Command::Lazygit) {
        Effect::Lazygit(path) => assert_eq!(path, "/src/alpha"),
        other => panic!("{other:?}"),
    }
}

#[test]
fn settings_by_key_and_by_mouse() {
    let mut app = state();
    press(&mut app, ',');
    assert!(app.overlays.settings);
    for _ in 0..4 {
        press(&mut app, 'j');
    }
    assert_eq!(app.overlays.settings_selected, 4);
    assert!(matches!(press(&mut app, ' '), Effect::SavePrefs));
    assert_eq!(app.prefs.theme, Theme::Dark);
    app.hits.settings_area = Rect { x: 10, y: 10, width: 40, height: 15 };
    app.hits.settings = vec![((12, 20, 25), 0, Some(0))];
    handle_mouse(&mut app, click(20, 12), None);
    assert!(app.prefs.panel_padding);
    assert!(app.overlays.settings);
    handle_mouse(&mut app, click(1, 1), None);
    assert!(!app.overlays.settings);
    assert_eq!(app.selected, 0);
}

#[test]
fn a_double_click_opens_the_page() {
    let mut app = state();
    app.hits.list_area = Rect { x: 0, y: 0, width: 40, height: 20 };
    app.hits.divider_col = 40;
    let (_, memory) = handle_mouse(&mut app, click(5, 2), None);
    assert_eq!(memory, ClickMemory::Remember(1));
    assert_eq!(app.selected, 1);
    let (_, memory) = handle_mouse(&mut app, click(5, 2), Some(1));
    assert_eq!(memory, ClickMemory::Clear);
    assert_eq!(app.page.repo, Some(1));
}

#[test]
fn the_wheel_moves_the_selection() {
    let mut app = state();
    app.hits.divider_col = 40;
    let wheel = Mouse { kind: MouseKind::WheelDown, ..click(5, 5) };
    handle_mouse(&mut app, wheel, None);
    assert_eq!(app.selected, 1);
}

#[test]
fn dragging_a_scrollbar() {
    let mut app = state();
    app.overlays.help = true;
    app.hits.scrollbars = vec![ScrollHit {
        kind: ScrollKind::Help,
        track: Rect { x: 20, y: 0, width: 60, height: 11 },
        total: 50,
        viewport: 10,
    }];
    handle_mouse(&mut app, click(79, 10), None);
    assert_eq!(app.overlays.help_scroll, 40);
    assert_eq!(app.drag.scrollbar, Some(ScrollKind::Help));
    let drag = Mouse { kind: MouseKind::Drag, ..click(3, 5) };
    handle_mouse(&mut app, drag, None);
    assert_eq!(app.overlays.help_scroll, 20);
    let release = Mouse { kind: MouseKind::Release, ..click(3, 5) };
    handle_mouse(&mut app, release, None);
    assert_eq!(app.drag.scrollbar, None);
}

#[test]
fn the_keys_of_the_repo_page() {
    let mut app = page_state(false);
    assert_eq!(app.repo_page_selectable_len(), 4);
    press(&mut app, 'j');
    assert_eq!(app.page.selected, 1);
    match handle_key(&mut app, Key { shift: true, ..key(KeyCode::Enter) }) {
        Effect::Checkout { repo_idx, branch } => assert_eq!((repo_idx, branch.as_str()), (0, "topic")),
        other => panic!("{other:?}"),
    }
    match press(&mut app, 'P') {
        Effect::PullAllBranches { repo_idx } => assert_eq!(repo_idx, 0),
        other => panic!("{other:?}"),
    }
    press(&mut app, 'd');
    let dialog = app.overlays.confirm.as_ref().unwrap();
    assert!(dialog.danger);
    match press(&mut app, 'y') {
        Effect::Confirmed(ConfirmAction::DeleteBranch { branch, force, .. }) => {
            assert_eq!((branch.as_str(), force), ("topic", true));
        }
        other => panic!("{other:?}"),
    }
    assert!(app.overlays.confirm.is_none());
    handle_key(&mut app, key(KeyCode::Esc));
    assert_eq!(app.page.repo, None);
}

#[test]
fn copying_from_the_repo_page() {
    let mut app = page_state(false);
    app.page.selected = 1;
    press(&mut app, 'y');
    assert_eq!(app.overlays.copy_menu, Some(0));
    press(&mut app, 'j');
    match handle_key(&mut app, key(KeyCode::Enter)) {
        Effect::CopyText(text) => assert_eq!(text, "topic"),
        other => panic!("{other:?}"),
    }
}

#[test]
fn opening_rows_of_the_repo_page() {
    let mut app = page_state(true);
    assert!(matches!(handle_key(&mut app, key(KeyCode::Enter)), Effect::LoadDiff));
    assert!(matches!(app.overlays.diff.as_ref().unwrap().source, DiffSource::Dirty { .. }));
    handle_key(&mut app, key(KeyCode::Esc));
    assert!(app.overlays.diff.is_none());
    app.page.selected = 3;
    handle_key(&mut app, key(KeyCode::Enter));
    assert!(matches!(
        app.overlays.diff.as_ref().unwrap().source,
        DiffSource::Stash { index: 0, .. }
    ));
    app.overlays.diff = None;
    app.page.selected = 1;
    handle_key(&mut app, key(KeyCode::Enter));
    assert!(matches!(app.overlays.diff.as_ref().unwrap().source, DiffSource::Branch { .. }));
}

#[test]
fn choosing_a_base() {
    let mut app = page_state(false);
    app.page.selected = 1;
    press(&mut app, 'b');
    let picker = app.overlays.base_picker.as_ref().unwrap();
    assert_eq!(picker.branch, "topic");
    assert_eq!(picker.candidates, vec!["main".to_string()]);
    press(&mut app, 'j');
    match handle_key(&mut app, key(KeyCode::Enter)) {
        Effect::SetBase { branch, base, .. } => {
            assert_eq!(branch, "topic");
            assert_eq!(base.as_deref(), Some("main"));
        }
        other => panic!("{other:?}"),
    }
    assert!(app.overlays.base_picker.is_none());
}

#[test]
fn dialogs_for_each_kind_of_row() {
    let app = page_state(false);
    let rows = app.repo_page_rows();
    assert_eq!(rows[0].kind, PageRowKind::Branch);
    assert!(confirm_for_row(0, &rows[0]).is_none());
    let tree = confirm_for_row(0, &rows[2]).unwrap();
    assert_eq!(tree.message, "Remove worktree /src/wt? Uncommitted changes will be LOST.");
    assert!(tree.danger);
    assert_eq!(rows[0].delete_action(), None);
    assert_eq!(rows[3].delete_action(), Some("drop"));
}

#[test]
fn a_diff_arrives_where_it_is_wanted() {
    let mut app = page_state(true);
    let source =
        DiffSource::Dirty { path: "/src/alpha".to_string(), name: "alpha".to_string() };
    app.open_diff_modal(source.clone());
    let late = DiffSource::Stash {
        path: "/src/alpha".to_string(),
        index: 1,
        label: "x".to_string(),
    };
    diff_arrived(&mut app, &late, DiffMode::Uncommitted, vec!["other".to_string()]);
    assert!(app.overlays.diff.as_ref().unwrap().loading);
    diff_arrived(&mut app, &source, DiffMode::Uncommitted, vec!["+x".to_string()]);
    assert_eq!(app.overlays.diff.as_ref().unwrap().lines, vec!["+x".to_string()]);
    // A notice stands in for a modal with nothing in it.
    diff_arrived(&mut app, &source, DiffMode::Uncommitted, vec!["(no changes)".to_string()]);
    assert!(app.overlays.diff.is_none());
    assert_eq!(app.notices.toast.as_deref(), Some("no changes"));
}

#[test]
fn after_a_change_to_the_repo() {
    let mut app = page_state(false);
    finish_repo_mutation(&mut app, 0, None, drop_message(1, &Err("locked".to_string())));
    assert_eq!(app.page.message.as_deref(), Some("drop failed: locked"));
    assert!(app.repos[0].page.is_none());
    finish_checkout(&mut app, 0, "topic".to_string(), Ok(()), Some(no_details()));
    assert_eq!(app.page.message.as_deref(), Some("Checked out topic"));
    assert_eq!(app.repos[0].branch.as_deref(), Some("topic"));
    assert_eq!(delete_message("topic", &Ok(())), "Deleted topic");
}

fn no_details() -> RepoDetails {
    RepoDetails {
        ahead: None,
        behind: None,
        dirty_count: 0,
        stash_count: 0,
        branch_count: 0,
        commit_hash: String::new(),
        commit_subject: String::new(),
        commit_author: String::new(),
        commit_rel_date: String::new(),
    }
}

#[test]
fn asking_before_something_is_lost() {
    let mut app = page_state(true);
    prepare_drop_stash(&mut app, 0, 2, vec!["a.rs".to_string()]);
    let dialog: &ConfirmDialog = app.overlays.confirm.as_ref().unwrap();
    assert_eq!(dialog.message, "Drop stash@{2}? 1 file(s) will be lost.");
    assert!(dialog.danger);
    app.overlays.confirm = None;
    prepare_discard(
        &mut app,
        0,
        "/src/alpha".to_string(),
        Ok((vec!["a.rs".to_string()], vec!["b.rs".to_string()])),
    );
    let dialog = app.overlays.confirm.as_ref().unwrap();
    assert_eq!(dialog.restore_files, vec!["a.rs".to_string()]);
    assert_eq!(dialog.delete_files, vec!["b.rs".to_string()]);
}

#[test]
fn the_batch_settles_once_all_is_done() {
    let mut app = state();
    settle(&mut app, 500);
    assert!(!app.progress.all_done);
    app.repos[2].status = RepoStatus::Updated;
    settle(&mut app, 600);
    assert!(!app.progress.all_done);
    discovery_ended(&mut app);
    settle(&mut app, 700);
    assert!(app.progress.all_done);
    assert_eq!(app.progress.finished_elapsed, Some(700));
    begin_batch(&mut app, &vec![1]);
    assert!(!app.progress.all_done);
    assert_eq!(app.repos[1].status, RepoStatus::Queued);
    assert_eq!(app.repos[0].status, RepoStatus::UpToDate);
}

#[test]
fn loads_are_started_once() {
    let mut app = state();
    assert_eq!(take_page_load(&mut app), None);
    app.open_repo_page();
    assert_eq!(take_page_load(&mut app), Some(0));
    assert_eq!(take_page_load(&mut app), None);
    app.prefs.info_pinned = true;
    assert_eq!(take_details_load(&mut app), Some(0));
    assert_eq!(take_details_load(&mut app), None);
}

#[test]
fn repos_stream_in() {
    let mut app = AppState::new(vec![], 4, Prefs::new(), true);
    assert!(repos_arrived(&mut app, vec![repo("b", RepoStatus::Queued)]));
    assert!(repos_arrived(&mut app, vec![repo("a", RepoStatus::Queued)]));
    assert_eq!(app.repos.len(), 2);
    assert_eq!(app.visible_indices(), vec![1, 0]);
}

#[test]
fn small_decisions() {
    assert_eq!(jobs_for(Some(3), 8), 3);
    assert_eq!(jobs_for(Some(0), 8), 8);
    assert_eq!(jobs_for(None, 8), 8);
    assert_eq!(depth_for(true, 16), 1);
    assert_eq!(depth_for(false, 0), 1);
    assert_eq!(depth_for(false, 16), 16);
    assert_eq!(reload_path("/bin/pull-all (deleted)"), "/bin/pull-all");
    assert_eq!(reload_path("/bin/pull-all"), "/bin/pull-all");
    let mut app = state();
    lazygit_missing(&mut app);
    assert_eq!(app.repos[0].log.lines()[0], "lazygit not found on PATH");
    app.notices.update_dismissed = true;
    assert!(!build_seen(&mut app, (10, Some(1)), (10, Some(1))));
    assert!(build_seen(&mut app, (10, Some(1)), (10, Some(2))));
    assert!(app.notices.update_available && !app.notices.update_dismissed);
}

#[test]
fn rows_of_the_timing_report() {
    let mut app = state();
    app.repos[0].log.push("Already up to date.".to_string());
    app.repos[0].log.push("  ".to_string());
    app.repos[0].elapsed = Some(1_500);
    let rows = build_profile_rows(&app);
    assert_eq!(rows.len(), 3);
    assert_eq!(rows[0].name, "alpha");
    assert_eq!(rows[0].branch, "?");
    assert_eq!(rows[0].status, "uptodate");
    assert_eq!(rows[0].elapsed, 1_500);
    assert_eq!(rows[0].last_log_line, "Already up to date.");
}

#[test]
fn the_timing_report_lists_the_slowest_first() {
    let mut app = state();
    app.repos[0].elapsed = Some(500_000_000);
    app.repos[1].elapsed = Some(1_500_000_000);
    app.repos[1].branch = Some("main".to_string());
    let report = pull_all::profile::format_report(build_profile_rows(&app));
    let lines: Vec<&str> = report.lines().collect();
    assert_eq!(lines[0], "1.50s     failed      beta (main)  ");
    assert!(lines[1].starts_with("0.50s     uptodate    alpha (?)"));
    assert_eq!(lines.len(), 3);
}
