//! Statuses, rerun targets, parsers of git's output, text fitting and palettes.

use pull_all::app::{AppState, Prefs};
use pull_all::dialogs::DiffSource;
use pull_all::git::{
    classify_pull_output, normalize_remote_url, parse_ahead_behind, parse_branch_line,
    parse_commit_line, parse_track, parse_worktree_porcelain, PullOutcome,
};
use pull_all::options::{Background, Contrast, DiffFocus};
use pull_all::repo::{RepoState, RepoStatus};
use pull_all::screen::Color;
use pull_all::spans::{count_cell_text, diff_modal_footer};
use pull_all::theme::{
    colorfgbg_dark, dark_normal, dark_soft, light_soft, palette, reg_output_dark,
};
use pull_all::widths::truncate_left;
use unicode_width::UnicodeWidthStr;

fn state_with(statuses: &[RepoStatus]) -> AppState {
    let repos: Vec<RepoState> = statuses
        .iter()
        .enumerate()
        .map(|(index, status)| {
            let mut repo = RepoState::new(format!("repo{index}"), "/tmp".to_string());
            repo.status = *status;
            repo
        })
        .collect();
    AppState::new(repos, 4, Prefs::new(), true)
}

#[test]
fn is_retryable_covers_failed_and_skipped_only() {
    assert!(RepoStatus::Failed.is_retryable());
    assert!(RepoStatus::Skipped.is_retryable());
    assert!(!RepoStatus::UpToDate.is_retryable());
    assert!(!RepoStatus::Updated.is_retryable());
    assert!(!RepoStatus::Queued.is_retryable());
    assert!(!RepoStatus::Running { pid: 1 }.is_retryable());
}

#[test]
fn retry_targets_are_failed_and_skipped() {
    let state = state_with(&[
        RepoStatus::UpToDate,
        RepoStatus::Failed,
        RepoStatus::Skipped,
        RepoStatus::Running { pid: 1 },
    ]);
    assert_eq!(state.retryable_repos(), vec![1, 2]);
    assert!(state.any_retryable());
}

#[test]
fn refetch_targets_are_terminal_repos_only() {
    let state = state_with(&[
        RepoStatus::UpToDate,
        RepoStatus::Failed,
        RepoStatus::Skipped,
        RepoStatus::Running { pid: 1 },
        RepoStatus::Queued,
    ]);
    assert_eq!(state.refetchable_repos(), vec![0, 1, 2]);
    assert!(state.any_refetchable());
}

#[test]
fn selected_helpers_track_the_current_row() {
    let mut state = state_with(&[
        RepoStatus::UpToDate,
        RepoStatus::Failed,
        RepoStatus::Skipped,
        RepoStatus::Running { pid: 1 },
    ]);

    state.selected = 0; // clean success: refetchable but not retryable
    assert!(!state.selected_repo_retryable());
    assert!(state.selected_repo_refetchable());

    state.selected = 1; // failed: both
    assert!(state.selected_repo_retryable());
    assert!(state.selected_repo_refetchable());

    state.selected = 2; // skipped: both
    assert!(state.selected_repo_retryable());
    assert!(state.selected_repo_refetchable());

    state.selected = 3; // running: neither
    assert!(!state.selected_repo_retryable());
    assert!(!state.selected_repo_refetchable());

    state.selected = 4; // Result item (no repo)
    assert!(!state.selected_repo_retryable());
    assert!(!state.selected_repo_refetchable());
}

#[test]
fn all_clean_successes_have_no_retry_targets() {
    let state = state_with(&[RepoStatus::UpToDate, RepoStatus::Updated]);
    assert!(!state.any_retryable());
    assert!(state.retryable_repos().is_empty());
    assert!(state.any_refetchable());
    assert_eq!(state.refetchable_repos(), vec![0, 1]);
}

#[test]
fn test_classify_already_up_to_date() {
    let output = "From github.com:org/repo\nAlready up to date.\n";
    assert_eq!(classify_pull_output(output, true), PullOutcome::AlreadyUpToDate);
}

#[test]
fn test_classify_updated() {
    let output = "Updating abc1234..def5678\nFast-forward\n src/foo.ts | 12 +++\n";
    assert_eq!(classify_pull_output(output, true), PullOutcome::Updated);
}

#[test]
fn test_classify_failed_nonzero_exit() {
    let output = "Already up to date.\n";
    // Even if the text says "up to date", non-zero exit means failed
    assert_eq!(classify_pull_output(output, false), PullOutcome::Failed);
}

#[test]
fn test_classify_failed_exit_error_output() {
    let output = "error: Your local changes would be overwritten by merge.\n";
    assert_eq!(classify_pull_output(output, false), PullOutcome::Failed);
}

#[test]
fn test_classify_updated_no_already_up_to_date_text() {
    let output = "From github.com:org/repo\n   abc1234..def5678  dev -> origin/dev\n";
    assert_eq!(classify_pull_output(output, true), PullOutcome::Updated);
}

#[test]
fn test_classify_already_up_to_date_case_sensitive() {
    let output = "already up to date.\n";
    // lowercase → classified as Updated (no exact match)
    assert_eq!(classify_pull_output(output, true), PullOutcome::Updated);
}

#[test]
fn test_classify_table_data() {
    let cases: &[(&str, bool, PullOutcome)] = &[
        ("Already up to date.\n", true, PullOutcome::AlreadyUpToDate),
        ("Already up to date.\n", false, PullOutcome::Failed),
        ("Updating abc..def\nFast-forward\n", true, PullOutcome::Updated),
        ("error: cannot lock ref\n", false, PullOutcome::Failed),
        ("", false, PullOutcome::Failed),
        ("", true, PullOutcome::Updated),
    ];

    for (output, exit_success, expected) in cases {
        assert_eq!(
            classify_pull_output(output, *exit_success),
            *expected,
            "classify_pull_output({output:?}, {exit_success}) should be {expected:?}"
        );
    }
}

#[test]
fn normalize_remote_url_handles_all_forms() {
    assert_eq!(
        normalize_remote_url("git@github.com:org/repo.git").as_deref(),
        Some("https://github.com/org/repo")
    );
    assert_eq!(
        normalize_remote_url("https://github.com/org/repo.git").as_deref(),
        Some("https://github.com/org/repo")
    );
    assert_eq!(
        normalize_remote_url("https://github.com/org/repo").as_deref(),
        Some("https://github.com/org/repo")
    );
    assert_eq!(
        normalize_remote_url("ssh://git@github.com/org/repo.git").as_deref(),
        Some("https://github.com/org/repo")
    );
    assert_eq!(normalize_remote_url(""), None);
    assert_eq!(normalize_remote_url("/local/path/repo"), None);
}

#[test]
fn parse_commit_line_splits_us_fields() {
    let line = "a1b2c3d\u{1f}fix: handle empty input\u{1f}Ada Byron\u{1f}2 hours ago\n";
    let (hash, subject, author, rel) = parse_commit_line(line);
    assert_eq!(hash, "a1b2c3d");
    assert_eq!(subject, "fix: handle empty input");
    assert_eq!(author, "Ada Byron");
    assert_eq!(rel, "2 hours ago");
}

#[test]
fn parse_commit_line_tolerates_missing_fields() {
    let (hash, subject, author, rel) = parse_commit_line("deadbee");
    assert_eq!(hash, "deadbee");
    assert_eq!(subject, "");
    assert_eq!(author, "");
    assert_eq!(rel, "");
}

#[test]
fn parse_ahead_behind_reads_behind_then_ahead() {
    assert_eq!(parse_ahead_behind("3\t5\n"), (Some(3), Some(5)));
    assert_eq!(parse_ahead_behind("0\t0\n"), (Some(0), Some(0)));
    assert_eq!(parse_ahead_behind(""), (None, None));
}

#[test]
fn parse_track_covers_upstream_states() {
    // No upstream → unknown.
    assert_eq!(parse_track("", ""), (None, None));
    // Upstream present, in sync.
    assert_eq!(parse_track("origin/main", ""), (Some(0), Some(0)));
    // Deleted upstream.
    assert_eq!(parse_track("origin/gone", "gone"), (None, None));
    // One-sided and two-sided.
    assert_eq!(parse_track("origin/main", "ahead 2"), (Some(2), Some(0)));
    assert_eq!(parse_track("origin/main", "behind 3"), (Some(0), Some(3)));
    assert_eq!(parse_track("origin/main", "ahead 1, behind 4"), (Some(1), Some(4)));
}

#[test]
fn parse_branch_line_splits_six_us_fields() {
    let line = "*\u{1f}main\u{1f}origin/main\u{1f}ahead 1\u{1f}3 days ago\u{1f}init repo";
    let branch = parse_branch_line(line).expect("parses");
    assert!(branch.is_head);
    assert_eq!(branch.name, "main");
    assert_eq!(branch.upstream.as_deref(), Some("origin/main"));
    assert_eq!((branch.ahead, branch.behind), (Some(1), Some(0)));
    assert_eq!(branch.last_commit_rel, "3 days ago");
    assert_eq!(branch.subject, "init repo");
}

#[test]
fn parse_worktree_porcelain_skips_main_and_detached() {
    let output = "\
worktree /repo
HEAD aaaa
branch refs/heads/main

worktree /repo.worktrees/feature
HEAD bbbb
branch refs/heads/feature

worktree /repo.worktrees/detached
HEAD cccc
detached
";
    let worktrees = parse_worktree_porcelain(output, "/repo");
    assert_eq!(worktrees.len(), 1);
    assert_eq!(worktrees[0].branch, "feature");
    assert_eq!(worktrees[0].path, "/repo.worktrees/feature");
}

#[test]
fn count_cell_text_is_tri_state() {
    assert_eq!(count_cell_text("⎇", None), ("…".to_string(), true));
    assert_eq!(count_cell_text("⎇", Some(0)), ("⎇0".to_string(), true));
    assert_eq!(count_cell_text("⎇", Some(3)), ("⎇3".to_string(), false));
}

#[test]
fn truncate_left_keeps_the_tail() {
    assert_eq!(truncate_left("short.rs", 20), "short.rs");
    // Keeps the filename end with a leading ellipsis when it overflows.
    let long = "src/features/CalendarStats/context/unassignedStatsProvider.test.tsx";
    let out = truncate_left(long, 20);
    assert!(out.starts_with('…'));
    assert!(out.ends_with("test.tsx"));
    assert!(UnicodeWidthStr::width(out.as_str()) <= 20);
}

#[test]
fn diff_modal_footer_depends_on_focus_and_source() {
    let stash = DiffSource::Stash { path: "/tmp".into(), index: 0, label: "x".into() };
    let files = diff_modal_footer(&stash, DiffFocus::Files, false);
    assert!(files.contains("tab → diff"));
    assert!(files.contains("⇧PgUp/PgDn page"));
    assert!(files.contains("d drop"));
    let diff = diff_modal_footer(&stash, DiffFocus::Diff, false);
    assert!(diff.contains("tab → files"));
    assert!(diff.contains("g/G top/end"));
    // A read-only branch diff has no verb; chips add `f filter` when active.
    let branch = DiffSource::Branch { path: "/tmp".into(), name: "b".into() };
    let plain = diff_modal_footer(&branch, DiffFocus::Files, false);
    assert!(!plain.contains(" d "));
    assert!(!plain.contains("f filter"));
    assert!(diff_modal_footer(&branch, DiffFocus::Files, true).contains("f filter"));
}

#[test]
fn colorfgbg_two_part_dark() {
    assert_eq!(colorfgbg_dark("15;0"), Some(true));
}

#[test]
fn colorfgbg_two_part_light() {
    assert_eq!(colorfgbg_dark("0;15"), Some(false));
}

#[test]
fn colorfgbg_three_part() {
    assert_eq!(colorfgbg_dark("15;default;0"), Some(true));
}

#[test]
fn colorfgbg_garbage() {
    assert_eq!(colorfgbg_dark("default;default"), None);
    assert_eq!(colorfgbg_dark(""), None);
}

#[test]
fn reg_light_theme() {
    let output = "\r\nHKEY_CURRENT_USER\\...\\Personalize\r\n    AppsUseLightTheme    REG_DWORD    0x1\r\n";
    assert_eq!(reg_output_dark(output), Some(false));
}

#[test]
fn reg_dark_theme() {
    let output = "    AppsUseLightTheme    REG_DWORD    0x0";
    assert_eq!(reg_output_dark(output), Some(true));
}

#[test]
fn reg_missing_value() {
    assert_eq!(reg_output_dark("ERROR: The system was unable to find the specified key"), None);
}

#[test]
fn map_bg_distinguishes_selection_from_faint_text() {
    let palette = palette(true, Background::Normal, Contrast::Normal);
    assert_ne!(palette.map_bg(Color::DarkGray), palette.map_fg(Color::DarkGray));
    assert_eq!(palette.map_bg(Color::Reset), palette.bg);
}

#[test]
fn palette_composes_two_axes() {
    // Soft background + normal contrast: the surface of the soft one, text/accent of the normal.
    let mixed = palette(true, Background::Soft, Contrast::Normal);
    assert_eq!(mixed.bg, dark_soft().bg);
    assert_eq!(mixed.selection_bg, dark_soft().selection_bg);
    assert_eq!(mixed.shadow, dark_soft().shadow);
    assert_eq!(mixed.fg, dark_normal().fg);
    assert_eq!(mixed.accent, dark_normal().accent);
    assert_eq!(mixed.ok, dark_normal().ok);
}

#[test]
fn palette_axis_equal_matches_static() {
    // When both axes agree, the composed palette is the one of that name.
    let composed = palette(false, Background::Soft, Contrast::Soft);
    assert_eq!(composed.bg, light_soft().bg);
    assert_eq!(composed.fg, light_soft().fg);
    assert_eq!(composed.error, light_soft().error);
}
