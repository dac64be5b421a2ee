//! What the screen shows, and what is kept of it for the mouse.

use pull_all::app::{AppState, Prefs};
use pull_all::boxes::{base_picker, build_info, confirm_view, copy_menu};
use pull_all::dialogs::{
    BasePicker, ConfirmAction, ConfirmDialog, DiffFile, DiffModal, DiffSource, InfoAction, PageRow,
    PageRowKind,
};
use pull_all::diffview::{diff_modal_view, diff_panel, file_panel};
use pull_all::frame::{frame_layers, FrameLayer};
use pull_all::groups::{configured_group, Group, Sources};
use pull_all::help::{help_items_about, help_items_cli, help_items_hotkeys, help_items_legend, HelpView};
use pull_all::helpview::help_modal;
use pull_all::icons::{emoji_icons, unicode_icons};
use pull_all::infoview::build_info_lines;
use pull_all::layout::{clamp_list_width, screen_panes, screen_rows};
use pull_all::listview::list_view;
use pull_all::notices::{
    divider_grip, shadowed, throttle_banner, toast_view, update_notice, Throttle,
};
use pull_all::options::{
    Command, DiffFocus, DiffMode, HelpTab, RepoPageColumn, ScrollHit, ScrollKind, SortColumn,
};
use pull_all::pageview::{build_repo_page_info_lines, page_view, repo_page_view};
use pull_all::preview::{preview_areas, preview_pane, what_is_shown, Shown};
use pull_all::repo::{
    BranchInfo, BranchStats, RepoDetails, RepoPageData, RepoState, RepoStatus, StashInfo,
    WorktreeInfo,
};
use pull_all::screen::{Color, Line, Lines, Rect};
use pull_all::settingsview::settings_view;
use pull_all::spans::{
    ahead_behind_spans, scrollbar_thumb, spinner_frame, status_glyph_colored, status_label,
};
use pull_all::statusbar::{format_ago, status_bar};
use pull_all::summaries::{build_error_summary, build_result_summary};

const SCREEN: Rect = Rect { x: 0, y: 0, width: 120, height: 40 };

fn text_of(line: &Line) -> String {
    line.spans.iter().map(|span| span.content.as_str()).collect()
}

fn texts(lines: &Lines) -> Vec<String> {
    lines.lines.iter().map(text_of).collect()
}

fn repo(name: &str, status: RepoStatus) -> RepoState {
    let mut repo = RepoState::new(name.to_string(), format!("/src/{name}"));
    repo.status = status;
    repo.branch = Some("main".to_string());
    repo
}

fn state() -> AppState {
    let mut app = AppState::new(
        vec![
            repo("alpha", RepoStatus::UpToDate),
            repo("beta", RepoStatus::Failed),
            repo("gamma", RepoStatus::Running { pid: 7 }),
        ],
        4,
        Prefs::new(),
        true,
    );
    app.progress.discovery_done = true;
    app
}

fn listed(name: &str, repos: &[&str]) -> Group {
    let sources = Sources {
        pattern: None,
        repos: Some(repos.iter().map(|name| name.to_string()).collect()),
        command: None,
        url: None,
    };
    configured_group(name.to_string(), sources).unwrap()
}

fn branch(name: &str, is_head: bool) -> BranchInfo {
    BranchInfo {
        name: name.to_string(),
        is_head,
        upstream: Some(format!("origin/{name}")),
        ahead: Some(1),
        behind: Some(2),
        last_commit_rel: "2 days ago".to_string(),
        subject: "A subject".to_string(),
        stats: Some(BranchStats { added: 1, modified: 2, deleted: 3 }),
        base: Some("main".to_string()),
        base_is_override: false,
        dirty_count: 0,
        merge_base_short: Some("abc1234".to_string()),
        commit_sha: "def5678".to_string(),
        author: "Ada".to_string(),
    }
}

fn page_state() -> AppState {
    let mut app = state();
    app.open_repo_page();
    app.repos[0].page = Some(RepoPageData {
        branches: vec![branch("main", true), branch("feature", false)],
        worktrees: vec![WorktreeInfo { branch: "wt".to_string(), path: "/src/wt".to_string() }],
        stashes: vec![StashInfo { index: 0, label: "WIP on main".to_string() }],
        head_dirty: false,
        dirty_worktrees: vec![],
        fetched: true,
        fetch_error: None,
        base_branch: Some("main".to_string()),
    });
    app
}

fn file(status: &str, path: &str) -> DiffFile {
    DiffFile { status: status.to_string(), path: path.to_string(), untracked: false }
}

fn modal(files: Vec<DiffFile>) -> DiffModal {
    DiffModal {
        source: DiffSource::Dirty { path: "/src/alpha".to_string(), name: "alpha".to_string() },
        mode: DiffMode::Uncommitted,
        files,
        selected: 0,
        file_scroll: 0,
        lines: vec!["+added".to_string(), "-removed".to_string()],
        scroll: 0,
        loading: false,
        diff_loading: false,
        focus: DiffFocus::Files,
        status_filter: None,
    }
}

#[test]
fn glyphs_and_labels() {
    let icons = unicode_icons();
    assert_eq!(spinner_frame(0, &icons), "◐");
    assert_eq!(spinner_frame(2, &icons), "◓");
    assert_eq!(spinner_frame(8, &icons), "◐");
    assert_eq!(spinner_frame(2, &emoji_icons()), "🌓");
    assert_eq!(status_glyph_colored(&RepoStatus::Failed, 0, &icons).0, "✗");
    assert_eq!(status_label(&RepoStatus::UpToDate), "up-to-date");
    assert_eq!(text_of(&ahead_behind_spans(Some(1), Some(0), 9, &icons)).trim_end(), "↑1 ↓0");
}

#[test]
fn times_and_ages() {
    assert_eq!(format_ago(59), "59s ago");
    assert_eq!(format_ago(60), "1m ago");
    assert_eq!(format_ago(7_200), "2h ago");
    assert_eq!(format_ago(90_000), "1d ago");
}

#[test]
fn the_list_pane() {
    let app = state();
    let area = Rect { x: 0, y: 0, width: 50, height: 20 };
    let view = list_view(&app, area, 4, 12_300_000_000, &unicode_icons(), 0);
    assert_eq!(view.title, " [1] pull-all · 2/3 · ⇄ 1/4 · 12.3s ");
    let items = texts(&view.items);
    assert!(items[0].starts_with("◌ alpha"));
    assert!(items[1].starts_with("✗ beta"));
    assert!(items[2].starts_with("◐ gamma"));
    assert_eq!(view.rows_area, Rect { x: 1, y: 3, width: 48, height: 16 });
    assert_eq!(view.selected, 0);
    assert!(view.header_clicks.iter().any(|(_, column)| *column == SortColumn::Name));
}

#[test]
fn a_reduced_limit_shows_in_the_title() {
    let app = state();
    let area = Rect { x: 0, y: 0, width: 50, height: 20 };
    let view = list_view(&app, area, 2, 0, &unicode_icons(), 0);
    assert_eq!(view.title, " [1] pull-all · 2/3 · ⇄ 1/2↓4 · 0.0s ");
}

#[test]
fn a_click_selects_the_row_that_is_shown() {
    let mut app = state();
    let area = Rect { x: 0, y: 0, width: 50, height: 20 };
    let view = list_view(&app, area, 4, 0, &unicode_icons(), 0);
    app.capture_list(&view, 0);
    assert_eq!(app.list_selection_at(5, view.rows_area.y + 1), Some(1));
    // The rule behind the repos, the Result, another rule, the Errors.
    assert_eq!(app.list_selection_at(5, view.rows_area.y + 3), None);
    assert_eq!(app.list_selection_at(5, view.rows_area.y + 4), Some(3));
    assert_eq!(app.list_selection_at(5, view.rows_area.y + 6), Some(4));
    assert_eq!(app.list_selection_at(0, view.rows_area.y), None);
}

#[test]
fn the_preview_of_a_running_pull() {
    let mut app = state();
    app.selected = 2;
    app.repos[2].log.push("Fetching".to_string());
    assert_eq!(what_is_shown(&app), Shown::Log(2));
    let area = Rect { x: 50, y: 0, width: 60, height: 20 };
    let view = preview_pane(&app, Shown::Log(2), area, Some(1_250_000_000), &unicode_icons());
    assert_eq!(view.title, " [2] gamma · running · pid 7 · 1.25s ");
    assert_eq!(texts(&view.content), vec!["Fetching"]);
    match view.copy {
        Some((_, InfoAction::CopyText(ref text))) => assert_eq!(text, "Fetching"),
        _ => panic!("no copy button"),
    }
}

#[test]
fn a_followed_log_shows_its_end() {
    let mut app = state();
    for i in 0..50 {
        app.repos[0].log.push(format!("line {i}"));
    }
    let area = Rect { x: 50, y: 0, width: 60, height: 20 };
    let view = preview_pane(&app, Shown::Log(0), area, None, &unicode_icons());
    assert_eq!(view.scroll, 32);
    app.follow_log(Shown::Log(0), view.scroll);
    assert_eq!(app.repos[0].preview_scroll, 32);
    app.repos[0].auto_scroll = false;
    app.repos[0].preview_scroll = 5;
    let view = preview_pane(&app, Shown::Log(0), area, None, &unicode_icons());
    assert_eq!(view.scroll, 5);
}

#[test]
fn the_info_block_hides_what_is_empty() {
    let mut app = state();
    app.repos[0].details = Some(RepoDetails {
        ahead: Some(0),
        behind: Some(0),
        dirty_count: 0,
        stash_count: 0,
        branch_count: 0,
        commit_hash: "abc1234".to_string(),
        commit_subject: "Fix it".to_string(),
        commit_author: "Ada".to_string(),
        commit_rel_date: "2 days ago".to_string(),
    });
    let info = build_info_lines(&app, 0, 60);
    let shown = texts(&info.lines);
    assert!(shown[0].starts_with("Status"));
    assert!(!shown.iter().any(|line| line.contains("↑0")));
    assert!(!shown.iter().any(|line| line.starts_with("Changes")));
    assert!(shown.iter().any(|line| line.contains("/src/alpha")));
}

#[test]
fn the_result_and_the_errors() {
    let mut app = state();
    app.repos[1].log.push("fatal: no".to_string());
    let result = build_result_summary(&app, &unicode_icons());
    assert!(result.iter().any(|line| line.contains("beta")));
    let errors = build_error_summary(&app, &unicode_icons());
    assert!(errors.iter().any(|line| line.contains("fatal: no")));
    assert!(!errors.iter().any(|line| line.contains("alpha")));
}

#[test]
fn the_status_bar_is_clickable() {
    let mut app = state();
    let area = Rect { x: 0, y: 37, width: 120, height: 3 };
    let bar = status_bar(&app, "1.2.3", Some(120), "helper", area);
    let lines = texts(&bar.lines);
    assert_eq!(lines.len(), 3);
    assert!(lines[0].trim_end().ends_with("v1.2.3"));
    assert!(lines[1].trim_end().ends_with("built 2m ago"));
    assert!(lines[2].contains("c helper"));
    app.begin_frame();
    app.capture_status_bar(&bar);
    let quit = bar.clickable.iter().find(|region| region.command == Command::Quit).unwrap();
    assert_eq!(app.clicked_command(quit.col_start, quit.row), Some(Command::Quit));
    assert_eq!(app.clicked_command(0, 0), None);
}

#[test]
fn the_repo_page() {
    let mut app = page_state();
    let view = repo_page_view(&app, SCREEN, &unicode_icons(), 0).unwrap();
    assert_eq!(view.title, " alpha · main · /src/alpha ");
    let lines = texts(&view.visible.lines);
    assert_eq!(lines[0], "⑂ BRANCHES (2)");
    assert!(lines[1].starts_with("  branch"));
    assert!(lines[2].starts_with("* main"));
    assert!(lines[3].starts_with("  feature"));
    assert_eq!(lines[5], "⑃ WORKTREES (1)");
    assert_eq!(lines[8], "≡ STASHES (1)");
    assert_eq!(lines[9], "  stash@{0}   WIP on main");
    assert_eq!(view.visible.rows, vec![(3, 0), (4, 1), (7, 2), (10, 3)]);
    assert_eq!(
        view.footer,
        " ↑↓ move · enter diff · ⇧enter checkout · p pull · t cols · i info · y copy · ? help · esc "
    );
    app.capture_page(&view);
    assert_eq!(app.repo_page_row_at(4), Some(1));
    app.page.selected = 1;
    let view = repo_page_view(&app, SCREEN, &unicode_icons(), 0).unwrap();
    assert!(view.footer.contains(" · d delete"));
    assert_eq!(view.visible.selected, Some(3));
}

#[test]
fn the_base_cells_of_the_repo_page() {
    let mut app = page_state();
    let view = repo_page_view(&app, SCREEN, &unicode_icons(), 0).unwrap();
    let (region, row) = view.visible.bases[1];
    assert_eq!(row, 1);
    app.capture_page(&view);
    assert_eq!(app.base_cell_at(region.1, region.0), Some(1));
    if let Some(page) = app.repos[0].page.as_mut() {
        page.branches[1].base_is_override = true;
    }
    let view = repo_page_view(&app, SCREEN, &unicode_icons(), 0).unwrap();
    assert!(text_of(&view.visible.lines.lines[3]).contains("  main*"));
}

#[test]
fn the_column_menu_and_the_banner() {
    let mut app = page_state();
    app.page.toggle = true;
    app.page.message = Some("Checked out main".to_string());
    let view = repo_page_view(&app, SCREEN, &unicode_icons(), 0).unwrap();
    let (area, menu) = view.panels.menu.as_ref().unwrap();
    assert_eq!(area.y, 37);
    assert!(text_of(menu).starts_with(" cols: ● b ↑↓"));
    assert!(text_of(menu).contains("● f base"));
    let (area, banner) = view.panels.banner.as_ref().unwrap();
    assert_eq!(area.y, 38);
    assert_eq!(text_of(banner), " Checked out main");
    let (region, column) = view.panels.menu_clicks[0];
    assert_eq!(column, RepoPageColumn::AheadBehind);
    app.capture_page(&view);
    assert_eq!(app.repo_page_toggle_at(region.1, region.0), Some(RepoPageColumn::AheadBehind));
}

#[test]
fn a_page_that_is_read_spins() {
    let mut app = page_state();
    app.repos[0].page_loading = true;
    let view = repo_page_view(&app, SCREEN, &unicode_icons(), 2).unwrap();
    assert_eq!(view.title, " alpha · main · /src/alpha · ◓ fetching… ");
    app.repos[0].pull_loading = true;
    let view = repo_page_view(&app, SCREEN, &unicode_icons(), 2).unwrap();
    assert_eq!(view.title, " alpha · main · /src/alpha · ◓ pulling… ");
}

#[test]
fn no_page_without_an_open_one() {
    assert!(repo_page_view(&state(), SCREEN, &unicode_icons(), 0).is_none());
    let app = state();
    let view = page_view(&app, &app.repos[0], &Vec::new(), SCREEN, &unicode_icons(), 0);
    assert_eq!(texts(&view.visible.lines)[0], "⑂ BRANCHES (0)");
    assert_eq!(view.visible.selected, None);
}

#[test]
fn the_info_of_a_page_row() {
    let row = PageRow {
        kind: PageRowKind::Branch,
        branch: "feature".to_string(),
        path: "/src/alpha".to_string(),
        deletable: true,
        is_head: false,
        dirty: false,
        stash_index: None,
        ahead: Some(1),
        behind: Some(2),
        upstream: None,
        last_commit_rel: "2 days ago".to_string(),
        subject: "A subject".to_string(),
        stats: Some(BranchStats { added: 1, modified: 2, deleted: 3 }),
        base: None,
        base_is_override: false,
        dirty_count: 4,
        merge_base_short: Some("abc1234".to_string()),
        commit_sha: "def5678".to_string(),
        author: "Ada".to_string(),
    };
    let lines = texts(&build_repo_page_info_lines(&row, &Some("main".to_string())));
    assert_eq!(
        lines,
        vec![
            "branch       feature",
            "upstream     (none)",
            "base         main @ abc1234",
            "ahead/behind ↑1 ↓2",
            "changes      +1 ~2 -3  (Σ 6)",
            "commit       def5678 · Ada · 2 days ago",
            "subject      A subject",
            "uncommitted  4 file(s)",
        ]
    );
    let stash = PageRow { kind: PageRowKind::Stash, stash_index: Some(2), ..row };
    let lines = texts(&build_repo_page_info_lines(&stash, &None));
    assert_eq!(lines, vec!["stash        stash@{2}", "label        feature"]);
}

#[test]
fn the_file_panel_without_files() {
    let area = Rect { x: 0, y: 0, width: 60, height: 10 };
    let panel = file_panel(&modal(vec![]), area, false);
    assert_eq!(panel.title, " files (0) ");
    assert_eq!(texts(&panel.lines), vec!["(no changed files)"]);
    assert!(panel.scrollbar.is_none());
    let diff = diff_panel(&modal(vec![]), area, false);
    assert_eq!(diff.title, " diff ");
    assert_eq!(texts(&diff.lines), vec!["+added", "-removed"]);
}

#[test]
fn chips_group_the_files_by_status() {
    let mut files: Vec<DiffFile> = (0..6).map(|i| file("M", &format!("m{i}.rs"))).collect();
    files.push(file("A", "new.rs"));
    files.extend((6..11).map(|i| file("M", &format!("m{i}.rs"))));
    let mut modal = modal(files);
    assert!(modal.chips_active());
    assert_eq!(modal.status_chips(), vec![('M', 11), ('A', 1)]);
    // All modified files come before the added one.
    assert_eq!(modal.visible_file_indices().last(), Some(&6));
    let area = Rect { x: 0, y: 0, width: 60, height: 10 };
    let panel = file_panel(&modal, area, false);
    assert_eq!(text_of(&panel.chips.as_ref().unwrap().1), "[ all 12 ] [ M 11 ] [ A 1 ] ");
    assert_eq!(panel.chip_clicks[1], ((1, 12, 20), Some('M')));
    modal.status_filter = Some('A');
    let panel = file_panel(&modal, area, false);
    assert_eq!(panel.title, " files (1/12) ");
    assert_eq!(texts(&panel.lines), vec![" A new.rs"]);
}

#[test]
fn the_diff_modal_in_its_place() {
    let mut app = page_state();
    app.overlays.diff = Some(modal(vec![file("M", "src/main.rs"), file("A", "src/lib.rs")]));
    let view = diff_modal_view(&app, SCREEN).unwrap();
    assert_eq!(view.area, Rect { x: 6, y: 2, width: 108, height: 36 });
    assert_eq!(view.title, " alpha · uncommitted ");
    assert_eq!(view.files.title, " files (2) ");
    assert_eq!(view.files.selected, Some(0));
    assert_eq!(view.diff.title, " file 1/2 — src/main.rs ");
    // The file panel holds its two rows and its border, a row lies between the panels.
    assert_eq!(view.files.area.height, 4);
    assert_eq!(view.diff.area.y, view.files.area.y + 5);
    app.begin_frame();
    app.capture_diff(&view);
    assert_eq!(app.diff_modal_file_at(view.files.content.y + 1), Some(1));
    assert_eq!(app.hits.scrollbars.len(), 2);
}

#[test]
fn the_help_modal() {
    let mut app = state();
    app.overlays.help = true;
    let modal = help_modal(&app, "helper", SCREEN);
    assert_eq!(modal.title, " pull-all — help · repo list ");
    assert_eq!(texts(&modal.lines)[0], "HOTKEYS — repo list");
    let size = modal.area;
    app.prefs.help_tab = HelpTab::About;
    app.capture_help(&modal);
    let modal = help_modal(&app, "helper", SCREEN);
    assert_eq!(modal.area, size);
    assert_eq!(modal.links[0].1, "https://steven-pribilinskiy.github.io/pull-all/");
    app.capture_help(&modal);
    assert_eq!(
        app.help_link_at(modal.content.y + 7),
        Some("https://github.com/steven-pribilinskiy/pull-all".to_string())
    );
    let (region, tab) = modal.tabs[1];
    assert_eq!(tab, HelpTab::Cli);
    assert_eq!(app.help_tab_at(region.1, region.0), Some(HelpTab::Cli));
}

#[test]
fn what_the_help_says() {
    let lines = |items: pull_all::help::HelpItems| -> Vec<String> {
        items.list.iter().map(|item| text_of(&item.line)).collect()
    };
    let hotkeys = lines(help_items_hotkeys(HelpView::DiffModal, "helper"));
    assert_eq!(hotkeys[1], "    tab            switch file list ⇄ diff focus");
    let list = lines(help_items_hotkeys(HelpView::List, "helper"));
    // Two short sections stand side by side.
    assert!(list[2].starts_with("  Navigate") && list[2].ends_with("  Views & panes"));
    let page = lines(help_items_hotkeys(HelpView::RepoPage, "helper"));
    assert!(page.contains(&"    c              helper in the row's path".to_string()));
    let cli = lines(help_items_cli());
    assert_eq!(cli[1], "  pull-all go [args]           Go / bubbletea build");
    assert_eq!(cli[7], "  --depth N                    max scan depth (default: 16; 1 = flat)");
    assert_eq!(lines(help_items_legend())[4], "    ◯    ⏳     queued — waiting for a worker");
    assert_eq!(lines(help_items_about()).len(), 11);
}

#[test]
fn the_confirmation() {
    let dialog = ConfirmDialog {
        message: "Drop it?".to_string(),
        action: ConfirmAction::DropStash { repo_idx: 0, index: 0 },
        danger: true,
        restore_files: vec![],
        delete_files: (0..12).map(|i| format!("file{i}")).collect(),
    };
    let view = confirm_view(&dialog, false, SCREEN, &unicode_icons());
    assert_eq!(view.title, " ⚠ Confirm — destructive ");
    assert_eq!(view.border, Color::Red);
    let lines = texts(&view.lines);
    assert_eq!(lines[1], "  Drop it?");
    assert_eq!(lines[3], "  Delete (12):");
    assert_eq!(lines[4], "    file0");
    assert_eq!(lines[14], "    … and 2 more");
    assert_eq!(lines[16], "  ⚠ This cannot be undone.");
    assert_eq!(lines[18], "  [y/enter] yes     [n] no");
    let (row, start, end) = view.yes.unwrap();
    assert_eq!((row, end - start), (view.inner.y + 18, 13));
    // On a low screen the prompt is cut off, and cannot be clicked.
    let low = Rect { x: 0, y: 0, width: 80, height: 10 };
    assert_eq!(confirm_view(&dialog, false, low, &unicode_icons()).yes, None);
}

#[test]
fn the_settings_modal() {
    let mut app = state();
    app.overlays.settings_selected = 3;
    let note = settings_view(&app, SCREEN);
    assert_eq!(texts(&note.lines)[4], "      no groups defined — ~/.config/pull-all/groups.json");
    app.outline.groups.push(listed("tools", &["alpha"]));
    let view = settings_view(&app, SCREEN);
    let lines = texts(&view.lines);
    assert_eq!(lines[1], "  General");
    assert_eq!(lines[2], "    Panel padding ○ on  ● off");
    assert_eq!(lines[6], "  Theming");
    assert_eq!(lines[7], "  > Icons         ● unicode  ○ emoji");
    assert_eq!(lines[8], "    Theme         ● auto  ○ dark  ○ light");
    assert_eq!(view.area.height, 15);
    app.capture_settings(&view);
    let (region, row, chip) = view.clicks[1];
    assert_eq!((row, chip), (0, Some(0)));
    assert_eq!(app.settings_hit_at(region.1, region.0), Some((0, Some(0))));
}

#[test]
fn the_copy_menu_and_the_picker() {
    let menu = copy_menu(1, false, SCREEN);
    let lines = texts(&menu.lines);
    assert_eq!(lines[1], "    absolute path");
    assert_eq!(lines[2], "  > branch name");
    assert_eq!(menu.rows[0], (menu.inner.y + 1, 0));
    let picker = BasePicker {
        repo_index: 0,
        branch: "feature".to_string(),
        candidates: (0..30).map(|i| format!("branch{i}")).collect(),
        detected: Some("branch1".to_string()),
        current: Some("branch2".to_string()),
        selected: 0,
    };
    let menu = base_picker(&picker, false, SCREEN);
    let lines = texts(&menu.lines);
    assert_eq!(menu.title, " base for feature ");
    assert_eq!(lines[0], "  >   auto-detect (branch1)");
    assert_eq!(lines[2], "      branch1  (detected)");
    assert_eq!(lines[3], "    ✓ branch2");
    // Further down the list scrolls with the selection.
    let menu = base_picker(&BasePicker { selected: 20, ..picker }, false, SCREEN);
    assert_eq!(texts(&menu.lines)[11], "  >   branch19");
    assert_eq!(menu.rows[0], (menu.inner.y, 9));
}

#[test]
fn the_build_info() {
    let mut app = state();
    let modal = build_info(&app, "1.2.3", Some(60), "/usr/bin/pull-all", SCREEN);
    let lines = texts(&modal.lines);
    assert_eq!(lines[0], "Version  v1.2.3");
    assert_eq!(lines[1], "Built    1m ago");
    assert_eq!(lines[9], "✓ Running the latest build on disk.");
    app.notices.update_available = true;
    let modal = build_info(&app, "1.2.3", None, "/usr/bin/pull-all", SCREEN);
    let lines = texts(&modal.lines);
    assert_eq!(lines[1], "Built    unknown");
    assert_eq!(lines[9], "● A new build is available — click [reload] to restart.");
}

#[test]
fn notices_over_the_screen() {
    let mut app = state();
    assert!(update_notice(&app, SCREEN, 0).is_none());
    assert!(toast_view(&app, SCREEN).is_none());
    app.notices.update_available = true;
    let notice = update_notice(&app, SCREEN, 0).unwrap();
    assert_eq!(text_of(&notice.line), " ↺ new build installed · [reload] [x] ");
    assert_eq!(notice.area.y, 1);
    assert_eq!(notice.glint.len(), 6);
    assert_eq!(notice.glint[0], (notice.area.x, notice.area.y));
    app.show_toast("copied".to_string());
    let toast = toast_view(&app, SCREEN).unwrap();
    assert_eq!(toast.area, Rect { x: 54, y: 34, width: 12, height: 3 });
    let sliver = Rect { x: 0, y: 0, width: 7, height: 2 };
    assert!(toast_view(&app, sliver).is_none());
}

#[test]
fn the_throttle_banner() {
    let mut app = state();
    let calm = Throttle { recent: false, effective: 4, configured: 4 };
    assert!(throttle_banner(&app, calm, SCREEN, &unicode_icons()).is_none());
    app.repos[0].status = RepoStatus::Throttled;
    let banner = throttle_banner(&app, calm, SCREEN, &unicode_icons()).unwrap();
    assert_eq!(text_of(&banner.line), " ↯ remote throttling detected · 1 repo(s) backing off ");
    let low = Throttle { recent: true, effective: 2, configured: 8 };
    let banner = throttle_banner(&app, low, SCREEN, &unicode_icons()).unwrap();
    assert_eq!(text_of(&banner.line), " ↯ remote throttling — concurrency 2↓8 · retrying 1 ");
}

#[test]
fn layers_and_areas() {
    let mut app = state();
    app.overlays.help = true;
    app.overlays.settings = true;
    assert_eq!(
        frame_layers(&app),
        vec![
            FrameLayer::Dashboard,
            FrameLayer::ThrottleBanner,
            FrameLayer::Help,
            FrameLayer::Settings,
            FrameLayer::UpdateNotice,
            FrameLayer::Toast,
        ]
    );
    let mut app = page_state();
    app.overlays.help = true;
    app.overlays.diff = Some(modal(vec![]));
    assert_eq!(
        frame_layers(&app),
        vec![
            FrameLayer::RepoPage,
            FrameLayer::ThrottleBanner,
            FrameLayer::Diff,
            FrameLayer::Help,
            FrameLayer::UpdateNotice,
            FrameLayer::Toast,
        ]
    );
    let (main, status) = screen_rows(SCREEN);
    assert_eq!(main, Rect { x: 0, y: 0, width: 120, height: 37 });
    assert_eq!(status, Rect { x: 0, y: 37, width: 120, height: 3 });
    let (list, preview) = screen_panes(main, 48);
    assert_eq!(list, Rect { x: 0, y: 0, width: 48, height: 37 });
    assert_eq!(preview, Rect { x: 48, y: 0, width: 72, height: 37 });
    assert_eq!(clamp_list_width(0, 120), 1);
    assert_eq!(clamp_list_width(500, 120), 119);
}

#[test]
fn the_info_block_stands_over_the_log() {
    let mut app = state();
    let area = Rect { x: 48, y: 0, width: 72, height: 37 };
    assert_eq!(preview_areas(&app, area), (None, area));
    app.prefs.info_pinned = true;
    let (info, log) = preview_areas(&app, area);
    let info = info.unwrap();
    assert_eq!(info.y, 0);
    assert_eq!(log.y, info.height);
    assert_eq!(info.height + log.height, 37);
}

#[test]
fn the_divider_and_shadows() {
    let mut app = state();
    assert!(divider_grip(&app).is_none());
    let main = Rect { x: 0, y: 0, width: 120, height: 37 };
    app.capture_panes(main, Rect { x: 48, y: 0, width: 72, height: 37 });
    let grip = divider_grip(&app).unwrap();
    assert_eq!((grip.left, grip.right), (47, 48));
    assert_eq!((grip.start, grip.end), (15, 22));
    let modal = Rect { x: 10, y: 10, width: 20, height: 5 };
    assert!(shadowed(modal, SCREEN, 30, 12));
    assert!(shadowed(modal, SCREEN, 15, 15));
    assert!(!shadowed(modal, SCREEN, 15, 12));
}

#[test]
fn scrollbars_show_on_overflow() {
    let track = Rect { x: 0, y: 0, width: 1, height: 10 };
    let bar = ScrollHit { kind: ScrollKind::Help, track, total: 10, viewport: 10 };
    assert!(scrollbar_thumb(bar, 0, None).is_none());
    let bar = ScrollHit { total: 30, ..bar };
    let thumb = scrollbar_thumb(bar, 20, Some(ScrollKind::Help)).unwrap();
    assert_eq!((thumb.places, thumb.position), (21, 20));
    assert!(thumb.highlighted);
    let mut app = state();
    app.hits.scrollbars = vec![bar];
    assert_eq!(app.scroll_value_for(ScrollKind::Help, 0), Some(0));
    assert_eq!(app.scroll_value_for(ScrollKind::Help, 9), Some(20));
    assert_eq!(app.scroll_value_for(ScrollKind::Preview, 0), None);
}
