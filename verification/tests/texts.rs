//! Fitting text to columns, wrapping, colors of terminal output, sorting.

use pull_all::app::{AppState, Prefs};
use pull_all::options::{SortColumn, SortDir};
use pull_all::repo::{LogBuffer, RepoDetails, RepoState, RepoStatus, WorktreeEntry};
use pull_all::screen::{centered_rect, inside_of, Color, Line, Rect, Style};
use pull_all::spans::{ansi_line, apply_sgr, find_ci, highlight_name, web_remote};
use pull_all::text::{count_text, join, lines_of, parse_number, split_once, trim};
use pull_all::widths::{
    clip_to_width, pad_display, truncate_left, truncate_str, wrap_chars, wrap_link,
};
use unicode_width::UnicodeWidthStr;

fn text_of(line: &Line) -> String {
    line.spans.iter().map(|span| span.content.as_str()).collect()
}

fn repo(name: &str) -> RepoState {
    RepoState::new(name.to_string(), format!("/src/{name}"))
}

fn details(ahead: Option<u32>, dirty: u32, stashes: u32, branches: u32, age: &str) -> RepoDetails {
    RepoDetails {
        ahead,
        behind: ahead,
        dirty_count: dirty,
        stash_count: stashes,
        branch_count: branches,
        commit_hash: "abc1234".to_string(),
        commit_subject: "subject".to_string(),
        commit_author: "author".to_string(),
        commit_rel_date: age.to_string(),
    }
}

fn names(app: &AppState) -> Vec<String> {
    app.visible_indices().iter().map(|&idx| app.repos[idx].name.clone()).collect()
}

#[test]
fn truncation_keeps_a_text_that_fits() {
    assert_eq!(truncate_str("hello", 5), "hello");
    assert_eq!(truncate_str("hello world", 5), "hell…");
    assert_eq!(truncate_str("日本日本", 5).width(), 5);
    assert_eq!(truncate_left("hello world", 5), "…orld");
    assert_eq!(truncate_left("hi", 5), "hi");
}

#[test]
fn clipping_cuts_without_a_mark() {
    assert_eq!(clip_to_width("hello", 3), "hel");
    assert_eq!(clip_to_width("日本", 3), "日");
    assert_eq!(pad_display("日", 4), "日  ");
    assert_eq!(pad_display("abc", 2), "abc");
}

#[test]
fn wrapping_keeps_the_text_and_fits() {
    let chunks = wrap_chars("abcdefgh", 3);
    assert_eq!(chunks, vec!["abc".to_string(), "def".to_string(), "gh".to_string()]);
    assert_eq!(chunks.concat(), "abcdefgh");
    assert_eq!(wrap_chars("abc", 0), vec!["abc".to_string()]);
    assert_eq!(wrap_chars("", 3), vec!["".to_string()]);
    let link = wrap_link("https://github.com/org/repo", 10);
    assert_eq!(link.concat(), "https://github.com/org/repo");
    assert!(link.iter().all(|chunk| chunk.width() <= 10));
}

#[test]
fn small_text_helpers() {
    assert_eq!(lines_of("a\nb\r\nc"), vec!["a".to_string(), "b".to_string(), "c".to_string()]);
    assert_eq!(join(&vec!["a".to_string(), "b".to_string()], ", "), "a, b");
    assert_eq!(split_once("a/b/c", "/"), Some(("a".to_string(), "b/c".to_string())));
    assert_eq!(split_once("abc", "/"), None);
    assert_eq!(trim(" \ta b\n"), "a b");
    assert_eq!(parse_number("42", u32::MAX), Some(42));
    assert_eq!(parse_number("x", u32::MAX), None);
    assert_eq!(parse_number("256", 255), None);
    assert_eq!(count_text(1200), "1200");
}

#[test]
fn colors_of_terminal_output() {
    let line = ansi_line("\u{1b}[31mred\u{1b}[0m plain");
    assert_eq!(text_of(&line), "red plain");
    assert_eq!(line.spans[0].style.fg, Some(Color::Red));
    assert_eq!(line.spans[1].style, Style::plain());
    let bold = apply_sgr(apply_sgr(Style::plain(), "1"), "32");
    assert!(bold.bold);
    assert_eq!(bold.fg, Some(Color::Green));
    assert_eq!(apply_sgr(bold, "0"), Style::plain());
    assert_eq!(text_of(&ansi_line("no escapes")), "no escapes");
}

#[test]
fn the_match_of_a_filter_stands_out() {
    let chars: Vec<char> = "MyRepo".chars().collect();
    assert_eq!(find_ci(&chars, "repo"), Some((2, 4)));
    assert_eq!(find_ci(&chars, "nope"), None);
    let line = highlight_name("MyRepo", &Some("repo".to_string()), Style::plain(), 8);
    assert_eq!(text_of(&line), "MyRepo  ");
    assert!(line.spans.iter().any(|span| span.content == "Repo"));
}

#[test]
fn remotes_with_a_web_page() {
    assert_eq!(web_remote("https://github.com/o/r.git/"), Some("https://github.com/o/r".to_string()));
    assert_eq!(web_remote("git@github.com:o/r.git"), None);
}

#[test]
fn a_centered_box_lies_inside() {
    let area = Rect { x: 0, y: 0, width: 100, height: 40 };
    assert_eq!(centered_rect(20, 10, area), Rect { x: 40, y: 15, width: 20, height: 10 });
    assert_eq!(centered_rect(200, 100, area), area);
    assert_eq!(inside_of(area, false), Rect { x: 1, y: 1, width: 98, height: 38 });
    assert_eq!(inside_of(area, true), Rect { x: 2, y: 2, width: 96, height: 36 });
}

#[test]
fn the_log_keeps_the_newest_lines() {
    let mut log = LogBuffer::new();
    for i in 0..10_500 {
        log.push(format!("line {i}"));
    }
    let lines = log.lines();
    assert_eq!(lines.len(), 10_000);
    assert_eq!(lines[0], "line 500");
    assert_eq!(lines[9_999], "line 10499");
    log.clear();
    assert!(log.lines().is_empty());
}

#[test]
fn the_list_is_sorted_by_name() {
    let app = AppState::new(vec![repo("beta"), repo("alpha"), repo("gamma")], 4, Prefs::new(), true);
    assert_eq!(names(&app), vec!["alpha", "beta", "gamma"]);
}

#[test]
fn sorting_again_flips_the_order() {
    let mut app =
        AppState::new(vec![repo("beta"), repo("alpha"), repo("gamma")], 4, Prefs::new(), true);
    app.set_sort(SortColumn::Name);
    assert_eq!(app.prefs.sort_dir, SortDir::Desc);
    assert_eq!(names(&app), vec!["gamma", "beta", "alpha"]);
    app.set_sort(SortColumn::Status);
    assert_eq!(app.prefs.sort_column, SortColumn::Status);
    assert_eq!(app.prefs.sort_dir, SortDir::Asc);
}

#[test]
fn sorting_by_a_count_and_by_age() {
    let mut one = repo("one");
    one.details = Some(details(Some(1), 5, 0, 1, "3 days ago"));
    let mut two = repo("two");
    two.details = Some(details(Some(2), 1, 0, 1, "2 hours ago"));
    let mut app = AppState::new(vec![one, two], 4, Prefs::new(), true);
    app.set_sort(SortColumn::Dirty);
    assert_eq!(names(&app), vec!["two", "one"]);
    app.set_sort(SortColumn::LastCommit);
    assert_eq!(names(&app), vec!["two", "one"]);
    app.set_sort(SortColumn::LastCommit);
    assert_eq!(names(&app), vec!["one", "two"]);
}

#[test]
fn sorting_by_worktrees() {
    let mut app = AppState::new(vec![repo("a"), repo("b")], 4, Prefs::new(), true);
    app.progress.worktrees =
        vec![WorktreeEntry { repo: "a".to_string(), branch: "x".to_string() }];
    app.set_sort(SortColumn::Worktrees);
    assert_eq!(names(&app), vec!["b", "a"]);
}

#[test]
fn filters_narrow_the_list() {
    let mut failed = repo("Alpha");
    failed.status = RepoStatus::Failed;
    let mut app = AppState::new(vec![failed, repo("beta")], 4, Prefs::new(), true);
    app.filter = Some("ALPHA".to_string());
    assert_eq!(names(&app), vec!["Alpha"]);
    app.filter = None;
    app.set_status_filter(pull_all::options::StatusFilter::Issues);
    assert_eq!(names(&app), vec!["Alpha"]);
}
