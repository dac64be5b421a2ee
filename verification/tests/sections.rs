//! Groups, folders and folding, flashing cells, and the bases of branches.

use std::time::Duration;

use pull_all::app::{AppState, Prefs};
use pull_all::bases::{
    branch_arrived, branch_stats, fork_candidates, fork_parent, short_sha, BranchFacts, Fork,
};
use pull_all::commands::handle_key;
use pull_all::dialogs::{DiffFile, DiffSource};
use pull_all::diffview::diff_modal_view;
use pull_all::files::{whole_call, whole_lines};
use pull_all::flash::{flash_shown, pulse, refetched, Shown as Cells};
use pull_all::git::{
    classify_pull_output, normalize_remote_url, parse_ahead_behind, parse_track, PullOutcome,
};
use pull_all::groups::{
    basename, configured_group, group_of, matches_pattern, names_found, names_in, wants_lookup,
    Found, Group, GroupSource, NameKind, Sources,
};
use pull_all::icons::unicode_icons;
use pull_all::input::{Effect, Key, KeyCode};
use pull_all::layout::{divide, divide_three, screen_panes, screen_rows, Part, Way};
use pull_all::listview::list_view;
use pull_all::mouse::{handle_mouse, ClickMemory, Mouse, MouseKind};
use pull_all::options::{Command, DiffMode};
use pull_all::plain::{plain_exit_code, plain_totals, pulled_result, PlainState};
use pull_all::preview::{info_pane, preview_areas, preview_pane, what_is_shown, Shown};
use pull_all::repo::{
    BranchInfo, BranchStats, RepoDetails, RepoPageData, RepoState, RepoStatus,
};
use pull_all::rows::ListRow;
use pull_all::screen::{Line, Lines, Rect};
use pull_all::spans::gauge_thumb;
use pull_all::statusbar::sections_of;
use pull_all::times::{format_seconds, format_tenths};
use pull_all::worker::{diff_arrived, start_pull};

const SCREEN: Rect = Rect { x: 0, y: 0, width: 120, height: 40 };

fn text_of(line: &Line) -> String {
    line.spans.iter().map(|span| span.content.as_str()).collect()
}

fn texts(lines: &Lines) -> Vec<String> {
    lines.lines.iter().map(text_of).collect()
}

fn repo(name: &str) -> RepoState {
    let mut repo = RepoState::new(name.to_string(), format!("/src/{name}"));
    repo.status = RepoStatus::UpToDate;
    repo
}

fn state(names: &[&str]) -> AppState {
    let mut app =
        AppState::new(names.iter().map(|name| repo(name)).collect(), 4, Prefs::new(), true);
    app.progress.discovery_done = true;
    app
}

fn group(name: &str, sources: Sources) -> Group {
    configured_group(name.to_string(), sources).unwrap()
}

fn no_sources() -> Sources {
    Sources { pattern: None, repos: None, command: None, url: None }
}

fn pattern(name: &str, pattern: &str) -> Group {
    group(name, Sources { pattern: Some(pattern.to_string()), ..no_sources() })
}

fn listed(name: &str, repos: &[&str]) -> Group {
    let repos = repos.iter().map(|name| name.to_string()).collect();
    group(name, Sources { repos: Some(repos), ..no_sources() })
}

fn press(app: &mut AppState, code: KeyCode) -> Effect {
    handle_key(app, Key { code, control: false, shift: false, alt: false, more: false })
}

fn type_all(app: &mut AppState, keys: &str) {
    for c in keys.chars() {
        press(app, KeyCode::Char(c));
    }
}

/// Six repos in one group, and two in none.
fn grouped() -> AppState {
    let mut app = state(&["a1", "a2", "a3", "a4", "a5", "a6", "other", "zed"]);
    app.outline.groups.push(pattern("as", "A*"));
    type_all(&mut app, "vg");
    app
}

/// Repos at the root, in a folder and in a folder of that.
fn nested() -> AppState {
    let mut app = state(&["work/api", "work/ui/web", "work/ui/site", "home", "notes"]);
    type_all(&mut app, "vt");
    app
}

fn items(app: &AppState) -> Vec<String> {
    let view = list_view(app, SCREEN, 4, 0, &unicode_icons(), 0);
    texts(&view.items)
}

fn details() -> RepoDetails {
    RepoDetails {
        ahead: Some(1),
        behind: Some(0),
        dirty_count: 2,
        stash_count: 0,
        branch_count: 3,
        commit_hash: "abc".to_string(),
        commit_subject: "s".to_string(),
        commit_author: "a".to_string(),
        commit_rel_date: "1 day ago".to_string(),
    }
}

// ---- groups ----

#[test]
fn patterns_stand_for_names() {
    assert!(matches_pattern("mfe-*", "mfe-shop"));
    assert!(matches_pattern("*", ""));
    assert!(matches_pattern("a*c*", "abcd"));
    assert!(!matches_pattern("mfe-*", "a-mfe-shop"));
    // Without a star a pattern is itself and nothing else.
    assert!(matches_pattern("abc", "abc"));
    assert!(!matches_pattern("abc", "abcd"));
}

#[test]
fn a_group_has_one_source() {
    assert!(configured_group("x".to_string(), no_sources()).is_none());
    let both = Sources {
        pattern: Some("a*".to_string()),
        url: Some("https://example.com".to_string()),
        ..no_sources()
    };
    assert!(configured_group("x".to_string(), both).is_none());
    let command = group("x", Sources { command: Some("cat x".to_string()), ..no_sources() });
    assert_eq!(command.source, GroupSource::Command);
    assert_eq!(command.detail, "cat x");
    assert!(command.members.is_none());
    assert!(wants_lookup(&command, 60));
    let fresh = Group { resolved_minutes: Some(59), ..command };
    assert!(!wants_lookup(&fresh, 60));
    assert!(!wants_lookup(&pattern("p", "a*"), 0));
}

#[test]
fn the_first_group_that_holds_a_repo_takes_it() {
    let groups = vec![pattern("front", "MFE-*"), listed("tools", &["mfe-x", "dotfiles"])];
    assert_eq!(group_of(&groups, "work/mfe-x"), 0);
    assert_eq!(group_of(&groups, "dotfiles"), 1);
    assert_eq!(group_of(&groups, "rest"), 2);
    // With a slash the pattern is one for paths.
    let paths = vec![pattern("work", "work/*")];
    assert_eq!(group_of(&paths, "work/a"), 0);
    assert_eq!(group_of(&paths, "home/work"), 1);
    assert_eq!(basename("work/ui/web"), "web");
}

#[test]
fn a_command_prints_names() {
    assert_eq!(names_in(" a \n\n b\r\n"), vec!["a".to_string(), "b".to_string()]);
    assert_eq!(names_in("\n  \n"), Vec::<String>::new());
}

// ---- the rows ----

#[test]
fn groups_make_sections() {
    let app = grouped();
    let rows = app.visible_rows();
    assert_eq!(
        rows[0],
        ListRow::Group { of: 0, group: 0, within: 0, collapsible: true }
    );
    assert_eq!(rows[1], ListRow::Repo { idx: 0, depth: 0 });
    assert_eq!(rows[7], ListRow::Spacer);
    assert_eq!(
        rows[8],
        ListRow::Group { of: 6, group: 1, within: 0, collapsible: false }
    );
    assert_eq!(rows[9], ListRow::Repo { idx: 6, depth: 0 });
    assert_eq!(rows.len(), 11);
    let lines = items(&app);
    assert!(lines[0].starts_with("▾ as ─"));
    assert!(lines[0].ends_with(" (6)"));
    assert_eq!(lines[7], "");
    assert!(lines[8].starts_with("  ungrouped ─"));
    let sections = sections_of(&app);
    assert!(sections.groups && sections.grouping_on && !sections.folders && !sections.tree_on);
}

#[test]
fn folders_make_a_tree() {
    let app = nested();
    let rows = app.visible_rows();
    assert!(matches!(rows[0], ListRow::Folder { level: 0, .. }));
    let lines = items(&app);
    assert!(lines[0].starts_with("▾ work/ ─"));
    assert!(lines[0].ends_with(" (3)"));
    assert!(lines[1].starts_with("  ▾ ui/ ─"));
    assert!(lines[1].ends_with(" (2)"));
    assert!(lines[2].contains("    site"));
    assert!(lines[3].contains("    web"));
    assert!(lines[4].contains("  api"));
    assert!(!lines[4].contains("work/api"));
    assert!(lines[5].contains("home"));
    assert!(sections_of(&app).folders);
}

#[test]
fn every_repo_has_one_row_where_nothing_is_folded() {
    for mut app in [grouped(), nested()] {
        app.outline.groups = vec![pattern("s", "*s*"), listed("web", &["web", "a1"])];
        for keys in ["", "vg", "vt"] {
            type_all(&mut app, keys);
            let mut shown: Vec<usize> = app
                .visible_rows()
                .iter()
                .filter_map(|row| match row {
                    ListRow::Repo { idx, .. } => Some(*idx),
                    _ => None,
                })
                .collect();
            shown.sort();
            assert_eq!(shown, (0..app.repos.len()).collect::<Vec<usize>>());
        }
    }
}

#[test]
fn groups_divide_each_folder() {
    let mut app = nested();
    app.outline.groups.push(pattern("ws", "w*"));
    type_all(&mut app, "vg");
    let rows = app.visible_rows();
    let headers: Vec<(usize, usize)> = rows
        .iter()
        .filter_map(|row| match row {
            ListRow::Group { group, within, .. } => Some((*group, *within)),
            _ => None,
        })
        .collect();
    assert_eq!(headers, vec![(0, 2), (1, 2), (1, 1), (1, 0)]);
}

#[test]
fn navigation_skips_what_cannot_be_selected() {
    let mut app = grouped();
    assert_eq!(app.selected, 0);
    for _ in 0..6 {
        press(&mut app, KeyCode::Down);
    }
    assert_eq!(app.selected, 6);
    // The blank row and the header of the small section are passed over, both ways.
    press(&mut app, KeyCode::Down);
    assert_eq!(app.selected, 9);
    assert_eq!(app.selected_repo_index(), Some(6));
    press(&mut app, KeyCode::Up);
    assert_eq!(app.selected, 6);
    press(&mut app, KeyCode::Char('G'));
    assert_eq!(app.selected, 11);
    press(&mut app, KeyCode::Char('g'));
    assert_eq!(app.selected, 0);
    assert_eq!(app.selected_repo_index(), None);
}

#[test]
fn without_groups_and_folders_the_list_is_flat() {
    let mut app = state(&["a", "b", "c"]);
    let flat: Vec<ListRow> = (0..3).map(|idx| ListRow::Repo { idx, depth: 0 }).collect();
    assert_eq!(app.visible_rows(), flat);
    // The views show nothing else where there are neither groups nor folders.
    type_all(&mut app, "vgvt");
    assert_eq!(app.visible_rows(), flat);
    press(&mut app, KeyCode::Down);
    assert_eq!((app.selected, app.selected_repo_index()), (1, Some(1)));
    press(&mut app, KeyCode::Up);
    press(&mut app, KeyCode::Up);
    assert_eq!(app.selected, 0);
}

// ---- folding ----

#[test]
fn a_header_is_folded_and_unfolded() {
    let mut app = grouped();
    assert!(matches!(press(&mut app, KeyCode::Enter), Effect::SavePrefs));
    assert_eq!(app.outline.folded, vec![":as".to_string()]);
    assert_eq!(app.visible_rows().len(), 5);
    assert!(items(&app)[0].starts_with("▸ as"));
    press(&mut app, KeyCode::Char(' '));
    assert_eq!(app.outline.folded, Vec::<String>::new());
    // On a repo the keys keep what they do.
    press(&mut app, KeyCode::Down);
    press(&mut app, KeyCode::Char(' '));
    assert!(app.result_overlay);
    press(&mut app, KeyCode::Char(' '));
    press(&mut app, KeyCode::Enter);
    assert_eq!(app.page.repo, Some(0));
}

#[test]
fn left_and_right_fold_and_go_up() {
    let mut app = nested();
    app.selected = 3;
    assert!(matches!(press(&mut app, KeyCode::Left), Effect::Nothing));
    assert_eq!(app.selected, 1);
    assert!(matches!(press(&mut app, KeyCode::Left), Effect::SavePrefs));
    assert_eq!(app.outline.folded, vec!["work/ui/".to_string()]);
    press(&mut app, KeyCode::Left);
    assert_eq!(app.selected, 0);
    press(&mut app, KeyCode::Right);
    assert_eq!(app.outline.folded, vec!["work/ui/".to_string()]);
    press(&mut app, KeyCode::Down);
    assert!(matches!(press(&mut app, KeyCode::Right), Effect::SavePrefs));
    assert_eq!(app.outline.folded, Vec::<String>::new());
}

#[test]
fn everything_is_folded_and_unfolded() {
    let mut app = nested();
    press(&mut app, KeyCode::Char('-'));
    assert_eq!(app.outline.folded, vec!["work/".to_string(), "work/ui/".to_string()]);
    assert_eq!(app.visible_rows().len(), 3);
    assert_eq!(app.selected, 0);
    press(&mut app, KeyCode::Char('*'));
    assert_eq!(app.outline.folded, Vec::<String>::new());
    type_all(&mut app, "zM");
    assert_eq!(app.visible_rows().len(), 3);
    type_all(&mut app, "zo");
    assert_eq!(app.outline.folded, vec!["work/ui/".to_string()]);
    type_all(&mut app, "zc");
    assert_eq!(app.outline.folded, vec!["work/ui/".to_string(), "work/".to_string()]);
    type_all(&mut app, "za");
    assert_eq!(app.outline.folded, vec!["work/ui/".to_string()]);
    type_all(&mut app, "zR");
    assert_eq!(app.visible_rows().len(), 7);
    press(&mut app, KeyCode::Char('-'));
    press(&mut app, KeyCode::Char('='));
    assert_eq!(app.outline.folded, Vec::<String>::new());
    assert_eq!(app.pending_leader, None);
}

#[test]
fn a_click_on_a_header_folds_it() {
    let mut app = grouped();
    app.begin_frame();
    let view = list_view(&app, SCREEN, 4, 0, &unicode_icons(), 0);
    app.capture_list(&view, 0);
    let (col, row) = (view.rows_area.x + 1, view.rows_area.y);
    let click = |row| Mouse { kind: MouseKind::Press, col, row, shift: false, alt: false };
    let (effect, memory) = handle_mouse(&mut app, click(row), None);
    assert!(matches!(effect, Effect::SavePrefs));
    assert!(matches!(memory, ClickMemory::Clear));
    assert_eq!(app.outline.folded, vec![":as".to_string()]);
    // The blank row and the header of the small section take no click.
    handle_mouse(&mut app, click(row + 1), None);
    handle_mouse(&mut app, click(row + 2), None);
    assert_eq!(app.selected, 0);
    assert_eq!(app.outline.folded, vec![":as".to_string()]);
}

#[test]
fn groups_are_looked_up_again() {
    let mut app = state(&["a"]);
    assert!(matches!(press(&mut app, KeyCode::Char('Z')), Effect::Nothing));
    assert_eq!(app.notices.toast, None);
    app.outline.groups.push(pattern("p", "a*"));
    press(&mut app, KeyCode::Char('Z'));
    assert_eq!(app.notices.toast.as_deref(), Some("no dynamic groups to refresh"));
    app.outline.groups.push(group(
        "team",
        Sources { command: Some("x".to_string()), ..no_sources() },
    ));
    assert!(matches!(press(&mut app, KeyCode::Char('Z')), Effect::ResolveGroups));
    assert!(!app.outline.groups[0].resolving);
    assert!(app.outline.groups[1].resolving);
    app.group_failed(1, "no network".to_string());
    assert_eq!(app.outline.groups[1].error.as_deref(), Some("no network"));
    app.group_resolved(1, vec!["a".to_string()]);
    assert_eq!(app.outline.groups[1].error, None);
    assert_eq!(app.outline.groups[1].resolved_minutes, Some(0));
    assert_eq!(group_of(&app.outline.groups, "a"), 0);
}

// ---- the preview of headers ----

#[test]
fn the_preview_of_a_group() {
    let mut app = grouped();
    assert_eq!(what_is_shown(&app), Shown::Group(0));
    let area = Rect { x: 40, y: 0, width: 80, height: 20 };
    let view = preview_pane(&app, Shown::Group(0), area, None, &unicode_icons());
    assert_eq!(view.title, " [2] as · group ");
    let lines = texts(&view.content);
    assert!(lines.iter().any(|line| line.contains("pattern · A*")));
    assert!(lines.iter().any(|line| line.contains("by pattern (6 visible)")));
    assert_eq!(text_of(&view.footer), " enter/space collapse/expand · z ungrouped view ");
    let first = &view.footer_clicks[0];
    assert_eq!((first.row, first.col_start), (19, 40 + 80 - 48 - 1));
    assert_eq!(first.command, Command::ToggleGroupCollapsed(0));
    app.begin_frame();
    app.capture_preview(&view, &None);
    let (col, row) = (view.footer_clicks[0].col_start, 19);
    let mouse = Mouse { kind: MouseKind::Press, col, row, shift: false, alt: false };
    handle_mouse(&mut app, mouse, None);
    assert_eq!(app.outline.folded, vec![":as".to_string()]);
}

#[test]
fn the_preview_of_a_folder() {
    let app = nested();
    let shown = what_is_shown(&app);
    let view = preview_pane(&app, shown, SCREEN, None, &unicode_icons());
    assert_eq!(view.title, " [2] work · folder ");
    let lines = texts(&view.content);
    assert!(lines.iter().any(|line| line.contains("3 (subtree)")));
    assert!(lines.iter().any(|line| line.contains("1 · ui")));
    assert!(view.footer_clicks.is_empty());
    assert!(view.copy.is_none());
}

// ---- flashing ----

#[test]
fn changed_cells_flash() {
    let mut app = state(&["alpha"]);
    app.prefs.columns.ahead_behind = true;
    app.prefs.columns.branches = true;
    let before = Cells { status: RepoStatus::UpToDate, details: Some(details()), worktrees: 0 };
    let mut after = details();
    after.branch_count = 4;
    refetched(&mut app.repos[0], &before, after, 0);
    assert!(app.repos[0].flash.branches);
    assert!(!app.repos[0].flash.status && !app.repos[0].flash.dirty);
    let reversed = |app: &AppState| -> Vec<String> {
        let view = list_view(app, SCREEN, 4, 0, &unicode_icons(), 0);
        let spans = view.items.lines[0].spans.iter();
        spans.filter(|span| span.style.reversed).map(|span| span.content.clone()).collect()
    };
    let lit = reversed(&app);
    assert!(!lit.is_empty() && lit.iter().any(|text| text.contains('4')));
    assert!(!lit.iter().any(|text| text.contains("alpha")));
    pulse(&mut app.repos[0], false);
    assert_eq!(reversed(&app), Vec::<String>::new());
    // What is as it was does not flash.
    let again = Cells { status: RepoStatus::UpToDate, details: Some(details()), worktrees: 0 };
    refetched(&mut app.repos[0], &again, details(), 0);
    assert!(!app.repos[0].flash.branches);
}

// ---- bases ----

fn branch(name: &str) -> BranchInfo {
    BranchInfo {
        name: name.to_string(),
        is_head: false,
        upstream: None,
        ahead: None,
        behind: None,
        last_commit_rel: String::new(),
        subject: String::new(),
        stats: None,
        base: None,
        base_is_override: false,
        dirty_count: 0,
        merge_base_short: None,
        commit_sha: String::new(),
        author: String::new(),
    }
}

fn fork(name: &str, own: u32, theirs: u32) -> Fork {
    Fork { name: name.to_string(), own, theirs }
}

#[test]
fn a_branch_is_compared_with_what_it_left_last() {
    let found = fork_candidates("main\ntopic\nother\n", "topic", &None);
    assert_eq!(found, vec!["main".to_string(), "other".to_string()]);
    let forks = vec![fork("main", 5, 1), fork("other", 2, 9), fork("late", 2, 3)];
    let fallback = Some("main".to_string());
    assert_eq!(fork_parent(&branch("topic"), &forks, &fallback).as_deref(), Some("late"));
    assert_eq!(fork_parent(&branch("topic"), &vec![], &fallback).as_deref(), Some("main"));
    assert_eq!(fork_parent(&branch("main"), &forks, &fallback).as_deref(), Some("main"));
}

#[test]
fn what_was_read_of_a_branch_arrives() {
    let file = |status: &str| DiffFile {
        status: status.to_string(),
        path: "p".to_string(),
        untracked: false,
    };
    let stats = branch_stats(&vec![file("A"), file("M"), file("D"), file("M")]);
    assert_eq!((stats.added, stats.modified, stats.deleted), (1, 2, 1));
    assert_eq!(short_sha(" 0123456789abcdef\n"), "0123456");
    let mut repo = repo("alpha");
    repo.page = Some(RepoPageData {
        branches: vec![branch("main"), branch("topic")],
        worktrees: vec![],
        stashes: vec![],
        head_dirty: false,
        dirty_worktrees: vec![],
        fetched: true,
        fetch_error: None,
        base_branch: None,
    });
    let facts = BranchFacts {
        base: Some("main".to_string()),
        chosen: true,
        start: Some("0123456".to_string()),
        stats: Some(BranchStats { added: 1, modified: 2, deleted: 1 }),
    };
    branch_arrived(&mut repo, "topic", facts);
    let page = repo.page.as_ref().unwrap();
    assert_eq!(page.branches[1].base.as_deref(), Some("main"));
    assert!(page.branches[1].base_is_override);
    assert_eq!(page.branches[1].stats.as_ref().unwrap().modified, 2);
    assert!(page.branches[0].stats.is_none());
}

#[test]
fn a_whole_diff_is_asked_for_by_its_source() {
    let path = || "/src/a".to_string();
    let stash = DiffSource::Stash { path: path(), index: 3, label: "x".to_string() };
    assert_eq!(
        whole_call(&stash, DiffMode::Uncommitted, "").args("/r"),
        pull_all::calls::GitCall::StashDiff { index: 3 }.args("/r")
    );
    let dirty = DiffSource::Dirty { path: path(), name: "a".to_string() };
    assert_eq!(
        whole_call(&dirty, DiffMode::Uncommitted, "").args("/r"),
        pull_all::calls::GitCall::UncommittedDiff.args("/r")
    );
    let lines = whole_lines(Some("main"), vec!["+x".to_string()]);
    assert_eq!(lines, vec!["(vs base branch: main)".to_string(), "+x".to_string()]);
    assert_eq!(whole_lines(None, vec!["+x".to_string()]), vec!["+x".to_string()]);
}

// ---- times ----

fn agrees(nanos: u64) {
    let seconds = Duration::from_nanos(nanos).as_secs_f64();
    assert_eq!(format_seconds(nanos), format!("{seconds:.2}"), "{nanos}");
    assert_eq!(format_tenths(nanos), format!("{seconds:.1}"), "{nanos}");
}

#[test]
fn times_are_rounded_as_the_numbers_they_are_held_as() {
    assert_eq!(format_seconds(0), "0.00");
    assert_eq!(format_seconds(15_000_000), "0.01");
    assert_eq!(format_seconds(15_000_001), "0.02");
    assert_eq!(format_seconds(125_000_000), "0.12");
    assert_eq!(format_seconds(375_000_000), "0.38");
    assert_eq!(format_seconds(1_250_000_000), "1.25");
    assert_eq!(format_seconds(59_999_000_000), "60.00");
    assert_eq!(format_tenths(12_500_000_000), "12.5");
    assert_eq!(format_tenths(50_000_000), "0.1");
    assert_eq!(format_tenths(250_000_000), "0.2");
}

#[test]
fn every_tie_is_rounded_as_a_number_would_be() {
    for millis in 0..20_000_u64 {
        agrees(millis * 1_000_000);
        agrees(millis * 1_000_000 + 1);
        agrees((millis * 1_000_000).saturating_sub(1));
    }
    for nanos in 0..1_000 {
        agrees(nanos);
        agrees(u64::MAX - nanos);
        agrees(nanos * 5_000_000 + 18_000_000_000_000_000_000);
        agrees(nanos * 5_000_000 + 3_600_000_000_000);
        agrees(nanos * 5_000_000 + (1 << 53));
    }
    let mut nanos: u64 = 7;
    for _ in 0..20_000 {
        nanos = nanos.wrapping_mul(6_364_136_223_846_793_005).wrapping_add(1);
        agrees(nanos);
        agrees(nanos >> 20);
        agrees(nanos >> 31);
    }
}

// ---- scrollbars ----

#[test]
fn the_info_block_shows_that_it_overflows() {
    let mut app = state(&["alpha"]);
    app.prefs.info_pinned = true;
    let pane = Rect { x: 40, y: 0, width: 80, height: 30 };
    let area = Rect { height: 5, ..pane };
    let view = info_pane(&app, 0, pane, area);
    assert_eq!(view.scrollbar.track, Rect { x: 40, y: 1, width: 80, height: 3 });
    assert_eq!(view.scrollbar.total, view.lines.lines.len());
    assert_eq!(view.scrollbar.viewport, 3);
    assert!(view.scrollbar.total > 3);
    let thumb = gauge_thumb(view.scrollbar, 0).unwrap();
    assert_eq!((thumb.places, thumb.position), (view.scrollbar.total - 2, 0));
    assert!(!thumb.highlighted);
    // Where every line fits there is none.
    let whole = info_pane(&app, 0, pane, pane);
    assert!(gauge_thumb(whole.scrollbar, 0).is_none());
}

#[test]
fn the_list_has_a_scrollbar_beside_its_rows() {
    let app = state(&["a", "b", "c", "d", "e", "f"]);
    let area = Rect { x: 0, y: 0, width: 60, height: 8 };
    let view = list_view(&app, area, 4, 0, &unicode_icons(), 0);
    assert_eq!(view.scrollbar.track, Rect { x: 0, y: 3, width: 60, height: 4 });
    assert_eq!((view.scrollbar.total, view.scrollbar.viewport), (8, 4));
    assert_eq!(gauge_thumb(view.scrollbar, 2).unwrap().places, 5);
}

// ---- the rest ----

#[test]
fn a_flash_ends_plain() {
    let turns: Vec<bool> = (1..=4).map(|turn| flash_shown(turn, 4)).collect();
    assert_eq!(turns, vec![false, true, false, false]);
}

#[test]
fn a_pull_from_the_page_is_marked() {
    let mut repo = repo("alpha");
    start_pull(&mut repo);
    assert!(repo.pull_loading);
}

#[test]
fn names_stand_in_a_document() {
    let entry = |key: &str, value: Option<&str>| (key.to_string(), value.map(str::to_string));
    let entries = Found::Entries(vec![entry("a", Some("x")), entry("b", None)]);
    let names = |list: &[&str]| Ok(list.iter().map(|name| name.to_string()).collect());
    assert_eq!(names_found(NameKind::Keys, &entries, "/e"), names(&["a", "b"]));
    assert_eq!(names_found(NameKind::Values, &entries, "/e"), names(&["x"]));
    let items = Found::Items(vec![Some("x".to_string()), None, Some("y".to_string())]);
    assert_eq!(names_found(NameKind::Values, &items, "/e"), names(&["x", "y"]));
    let none = Err("no names at \"/e\"".to_string());
    assert_eq!(names_found(NameKind::Keys, &items, "/e"), none);
    assert_eq!(names_found(NameKind::Values, &Found::Other, "/e"), none);
    let missing = Err("nothing at \"/e\"".to_string());
    assert_eq!(names_found(NameKind::Keys, &Found::Nothing, "/e"), missing);
}

#[test]
fn a_diff_of_another_directory_is_not_wanted() {
    let mut app = state(&["alpha", "beta"]);
    let stash = |path: &str| DiffSource::Stash {
        path: path.to_string(),
        index: 0,
        label: "x".to_string(),
    };
    app.open_diff_modal(stash("/src/alpha"));
    let lines = || vec!["+x".to_string()];
    diff_arrived(&mut app, &stash("/src/beta"), DiffMode::Uncommitted, lines());
    assert!(app.overlays.diff.as_ref().unwrap().loading);
    diff_arrived(&mut app, &stash("/src/alpha"), DiffMode::Uncommitted, lines());
    assert!(!app.overlays.diff.as_ref().unwrap().loading);
}

#[test]
fn browsable_addresses_are_https() {
    assert_eq!(
        normalize_remote_url("http://example.com/org/repo.git").as_deref(),
        Some("https://example.com/org/repo")
    );
}

#[test]
fn a_repo_without_upstream_is_no_failure() {
    let text = "There is no tracking information for the current branch.";
    assert_eq!(classify_pull_output(text, false), PullOutcome::NoUpstream);
    let alone = pulled_result(
        "alpha".to_string(),
        "main".to_string(),
        PullOutcome::NoUpstream,
        text,
        "",
    );
    assert_eq!(alone.state, PlainState::NoUpstream);
    let limited = pulled_result(
        "beta".to_string(),
        "main".to_string(),
        PullOutcome::Throttled,
        "rate limit",
        "",
    );
    assert_eq!(limited.state, PlainState::Throttled);
    let results = vec![alone, limited];
    assert_eq!(plain_exit_code(&results), 0);
    assert!(!plain_totals(&results).contains("Failed: 1"));
}

#[test]
fn counts_are_read_back() {
    assert_eq!(parse_ahead_behind("12\t3\n"), (Some(12), Some(3)));
    assert_eq!(parse_track("origin/main", "ahead 2, behind 5"), (Some(2), Some(5)));
    assert_eq!(parse_track("origin/main", "behind 5"), (Some(0), Some(5)));
}

#[test]
fn the_screen_is_divided_without_gaps() {
    let (main, bar) = screen_rows(SCREEN);
    assert_eq!(main, Rect { height: 37, ..SCREEN });
    assert_eq!(bar, Rect { y: 37, height: 3, ..SCREEN });
    let (list, preview) = screen_panes(main, 45);
    assert_eq!(list, Rect { width: 45, ..main });
    assert_eq!(preview, Rect { x: 45, width: 75, ..main });
    let (top, rest) = divide(Way::Down, Part::Length(5), Part::Min(0), main);
    assert_eq!((top.height, rest.y, rest.height), (5, 5, 32));
    let (a, b, c) =
        divide_three(Way::Along, Part::Length(10), Part::Min(4), Part::Length(20), SCREEN);
    assert_eq!((a.width, b.x, b.width, c.x, c.width), (10, 10, 90, 100, 20));
}

#[test]
fn the_info_block_takes_the_top_of_the_preview() {
    let mut app = state(&["alpha"]);
    app.prefs.info_pinned = true;
    let area = Rect { x: 40, y: 0, width: 80, height: 30 };
    let (info, rest) = preview_areas(&app, area);
    let info = info.unwrap();
    assert_eq!((info.x, info.y, info.width), (40, 0, 80));
    assert_eq!(rest, Rect { y: info.height, height: 30 - info.height, ..area });
    app.open_diff_modal(DiffSource::Dirty { path: "/src/alpha".to_string(), name: "a".to_string() });
    let view = diff_modal_view(&app, SCREEN).unwrap();
    assert_eq!(view.diff.area.y, view.files.area.y + view.files.area.height + 1);
    assert_eq!((view.diff.area.x, view.diff.area.width), (view.files.area.x, view.files.area.width));
}
