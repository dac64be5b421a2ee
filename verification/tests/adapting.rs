//! Adapting to the remote, the changed files of a diff, and what a run reads and reports.

use pull_all::app::{AppState, Prefs};
use pull_all::calls::GitCall;
use pull_all::details::{default_base, repo_diff_call};
use pull_all::dialogs::{DiffFile, DiffSource};
use pull_all::files::{
    file_arrived, file_call, files_arrived, files_call, needs_base, parse_name_status,
    with_untracked,
};
use pull_all::git::{visit, Visit};
use pull_all::options::{restored_background, Background, Contrast, DiffMode};
use pull_all::plain::{PlainState, RepoResult};
use pull_all::profile::result_row;
use pull_all::throttle::{backoff, ThrottleControl};

fn dirty() -> DiffSource {
    DiffSource::Dirty { path: "/src/repo".to_string(), name: "main".to_string() }
}

fn stash() -> DiffSource {
    DiffSource::Stash { path: "/src/repo".to_string(), index: 2, label: "wip".to_string() }
}

fn dashboard() -> AppState {
    AppState::new(Vec::new(), 4, Prefs::new(), true)
}

fn file(path: &str) -> DiffFile {
    DiffFile { status: "M".to_string(), path: path.to_string(), untracked: false }
}

#[test]
fn waits_double_up_to_a_longest() {
    assert_eq!(backoff(0), 2000);
    assert_eq!(backoff(1), 4000);
    assert_eq!(backoff(4), 32000);
    assert_eq!(backoff(5), 64000);
    assert_eq!(backoff(u32::MAX), 64000);
}

#[test]
fn throttling_halves_the_pulls() {
    let mut control = ThrottleControl::new(16);
    assert!(!control.reduced());
    control.repo_throttled(3, 1000);
    assert_eq!(control.effective(), 8);
    assert_eq!(control.configured(), 16);
    assert!(control.reduced());
    for turn in 0..10 {
        control.repo_throttled(turn, 1000);
    }
    assert_eq!(control.effective(), 1);
}

#[test]
fn a_throttled_repo_waits_longer_each_time() {
    let mut control = ThrottleControl::new(4);
    control.repo_throttled(7, 1000);
    assert!(control.take_due_retries(2999).is_empty());
    assert_eq!(control.take_due_retries(3000), vec![7]);
    assert!(control.take_due_retries(3000).is_empty());
    control.repo_throttled(7, 3000);
    assert!(control.take_due_retries(6999).is_empty());
    assert_eq!(control.take_due_retries(7000), vec![7]);
    control.repo_served(7);
    control.repo_throttled(7, 10000);
    assert_eq!(control.take_due_retries(12000), vec![7]);
}

#[test]
fn no_waiting_repo_is_lost() {
    let mut control = ThrottleControl::new(4);
    control.repo_throttled(1, 1000);
    control.repo_throttled(2, 5000);
    control.repo_throttled(3, 1500);
    assert_eq!(control.take_due_retries(4000), vec![1, 3]);
    assert_eq!(control.waiting.len(), 1);
    assert_eq!(control.take_due_retries(u64::MAX), vec![2]);
    assert!(control.waiting.is_empty());
}

#[test]
fn a_quiet_remote_gets_all_pulls_again() {
    let mut control = ThrottleControl::new(8);
    control.repo_throttled(0, 1000);
    control.recover(60999);
    assert!(control.recently_throttled(60999));
    assert_eq!(control.effective(), 4);
    control.recover(61000);
    assert!(!control.recently_throttled(61000));
    assert_eq!(control.effective(), 8);
}

#[test]
fn changed_files_are_read_with_their_status() {
    let files = parse_name_status("M\tsrc/main.rs\nR087\told name.rs\tsrc/new.rs\n\nnonsense\nD\tx\n");
    let read: Vec<(&str, &str, bool)> = files
        .iter()
        .map(|file| (file.status.as_str(), file.path.as_str(), file.untracked))
        .collect();
    assert_eq!(
        read,
        vec![("M", "src/main.rs", false), ("R", "src/new.rs", false), ("D", "x", false)]
    );
    let all = with_untracked(files, &vec!["notes.txt".to_string()]);
    assert_eq!(all.len(), 4);
    assert_eq!(all[3].status, "?");
    assert_eq!(all[3].path, "notes.txt");
    assert!(all[3].untracked);
}

#[test]
fn the_calls_depend_on_what_is_shown() {
    assert!(!needs_base(&dirty(), DiffMode::Uncommitted));
    assert!(needs_base(&dirty(), DiffMode::BaseBranch));
    assert!(!needs_base(&stash(), DiffMode::BaseBranch));
    assert_eq!(
        files_call(&dirty(), DiffMode::Uncommitted, "abc").args("/r"),
        vec!["-C", "/r", "diff", "--name-status", "HEAD"]
    );
    assert_eq!(
        files_call(&dirty(), DiffMode::BaseBranch, "abc").args("/r"),
        vec!["-C", "/r", "diff", "--name-status", "abc"]
    );
    assert_eq!(
        files_call(&stash(), DiffMode::Uncommitted, "").args("/r"),
        vec!["-C", "/r", "stash", "show", "--include-untracked", "--name-status", "stash@{2}"]
    );
    assert_eq!(
        file_call(&dirty(), DiffMode::BaseBranch, "abc", &file("a.rs")).args("/r"),
        vec!["-C", "/r", "diff", "--color=always", "abc", "--", "a.rs"]
    );
    assert_eq!(
        file_call(&stash(), DiffMode::Uncommitted, "", &file("a.rs")).args("/r"),
        vec!["-C", "/r", "diff", "--color=always", "stash@{2}^", "stash@{2}", "--", "a.rs"]
    );
    assert_eq!(
        GitCall::NewFileDiff { path: "n".to_string() }.args("/r"),
        vec!["-C", "/r", "diff", "--color=always", "--no-index", "--", "/dev/null", "n"]
    );
}

#[test]
fn files_that_arrive_are_listed() {
    let mut app = dashboard();
    app.open_diff_modal(dirty());
    let due =
        files_arrived(&mut app, &dirty(), DiffMode::Uncommitted, vec![file("a"), file("b")]);
    assert!(due);
    let modal = app.overlays.diff.as_ref().unwrap();
    assert_eq!(modal.files.len(), 2);
    assert_eq!(modal.selected, 0);
    assert!(modal.diff_loading);
    file_arrived(&mut app, &dirty(), DiffMode::Uncommitted, "b", vec!["stale".to_string()]);
    assert!(app.overlays.diff.as_ref().unwrap().diff_loading);
    file_arrived(&mut app, &dirty(), DiffMode::Uncommitted, "a", vec!["+line".to_string()]);
    let modal = app.overlays.diff.as_ref().unwrap();
    assert_eq!(modal.lines, vec!["+line".to_string()]);
    assert!(!modal.diff_loading);
}

#[test]
fn files_for_another_view_are_dropped() {
    let mut app = dashboard();
    app.open_diff_modal(dirty());
    assert!(!files_arrived(&mut app, &stash(), DiffMode::Uncommitted, vec![file("a")]));
    assert!(!files_arrived(&mut app, &dirty(), DiffMode::BaseBranch, vec![file("a")]));
    assert!(app.overlays.diff.as_ref().unwrap().files.is_empty());
}

#[test]
fn an_empty_list_of_files_shows_a_toast() {
    let mut app = dashboard();
    app.open_diff_modal(dirty());
    assert!(!files_arrived(&mut app, &dirty(), DiffMode::Uncommitted, Vec::new()));
    assert!(app.overlays.diff.is_none());
    assert_eq!(app.notices.toast.as_deref(), Some("no changes"));
}

#[test]
fn a_scan_takes_repos_and_enters_the_rest() {
    assert_eq!(visit("repo", true, false, true), Visit::Repo);
    assert_eq!(visit("linked", true, true, true), Visit::Repo);
    assert_eq!(visit("folder", true, false, false), Visit::Enter);
    assert_eq!(visit("linked", true, true, false), Visit::Skip);
    assert_eq!(visit("node_modules", true, false, false), Visit::Skip);
    assert_eq!(visit("repo.worktrees", true, false, true), Visit::Skip);
    assert_eq!(visit(".hidden", true, false, true), Visit::Repo);
    assert_eq!(visit("file", false, false, false), Visit::Skip);
}

#[test]
fn the_base_is_the_default_branch_or_a_usual_name() {
    let head = Some("origin/trunk".to_string());
    assert_eq!(default_base(head.clone(), &vec![true]), head);
    let usual = default_base(None, &vec![false, false, false, true]);
    assert_eq!(usual.as_deref(), Some("main"));
    assert_eq!(default_base(None, &vec![false; 6]), None);
}

#[test]
fn old_preferences_take_both_levels_from_the_contrast() {
    assert_eq!(restored_background(None, Contrast::Soft), Background::Soft);
    assert_eq!(restored_background(None, Contrast::Normal), Background::Normal);
    assert_eq!(
        restored_background(Some(Background::Terminal), Contrast::Soft),
        Background::Terminal
    );
}

#[test]
fn a_result_makes_a_row_of_the_timing_report() {
    let result = RepoResult {
        name: "alpha".to_string(),
        branch: "main".to_string(),
        output: "✅ alpha\n 1 file changed\n\n".to_string(),
        state: PlainState::Updated,
    };
    let row = result_row(&result, 1500);
    assert_eq!(row.name, "alpha");
    assert_eq!(row.status, "updated");
    assert_eq!(row.elapsed, 1500);
    assert_eq!(row.last_log_line, " 1 file changed");
}

#[test]
fn the_pane_shows_changes_or_the_last_pull() {
    assert_eq!(repo_diff_call(true).args("/r"), vec!["-C", "/r", "diff", "--color=always"]);
    assert_eq!(
        repo_diff_call(false).args("/r"),
        vec!["-C", "/r", "diff", "--color=always", "HEAD@{1}", "HEAD"]
    );
}
