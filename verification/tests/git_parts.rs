//! What git is asked, what its answers say, and the plain report.

use pull_all::calls::{pull_args, run_in_script, sibling_target, stash_ref, url_openers, GitCall};
use pull_all::dialogs::{PageRow, PageRowKind};
use pull_all::details::{
    base_candidates, diff_lines, diff_result, diff_start, parse_discard_status, parse_stash_list,
    remote_default, repo_details, stash_files_result, DetailOutputs,
};
use pull_all::git::{
    branch_from, command_result, ff_refspec, fetch_result, should_descend, sort_repos,
    sort_worktrees, worktree_repo, PullOutcome,
};
use pull_all::paths::same_path;
use pull_all::plain::{
    plain_exit_code, plain_header, plain_lists, plain_nothing, plain_totals, pulled_result,
    skipped_result, unstarted_result,
};
use pull_all::pulls::{
    branch_step, pull_all_branches, pull_all_message, pull_message, pull_route, pull_step,
    BranchStep, PullEvent, PullPhase, PullVia,
};
use pull_all::repo::{BranchInfo, RepoState, RepoStatus, WorktreeEntry, WorktreeInfo};
use pull_all::theme::{appearance_dark, dark_normal, detect_dark_background};
use pull_all::screen::Color;

fn texts(words: &[&str]) -> Vec<String> {
    words.iter().map(|word| word.to_string()).collect()
}

fn branch(name: &str, is_head: bool, ahead: u32, behind: u32) -> BranchInfo {
    BranchInfo {
        name: name.to_string(),
        is_head,
        upstream: Some(format!("origin/{name}")),
        ahead: Some(ahead),
        behind: Some(behind),
        last_commit_rel: String::new(),
        subject: String::new(),
        stats: None,
        base: None,
        base_is_override: false,
        dirty_count: 0,
        merge_base_short: None,
        commit_sha: String::new(),
        author: String::new(),
    }
}

#[test]
fn arguments_for_git() {
    assert_eq!(
        GitCall::Checkout { branch: "topic".to_string() }.args("/src/a"),
        texts(&["-C", "/src/a", "checkout", "topic"])
    );
    assert_eq!(
        GitCall::DeleteBranch { branch: "topic".to_string(), force: true }.args("/src/a"),
        texts(&["-C", "/src/a", "branch", "-D", "topic"])
    );
    assert_eq!(
        GitCall::DropStash { index: 2 }.args("/src/a"),
        texts(&["-C", "/src/a", "stash", "drop", "stash@{2}"])
    );
    assert_eq!(
        pull_args(30, "/src/a"),
        texts(&["30", "git", "-C", "/src/a", "pull", "--ff-only"])
    );
    assert_eq!(stash_ref(0), "stash@{0}");
}

#[test]
fn programs_to_hand_over_to() {
    assert_eq!(sibling_target("go"), Some("pull-all-tui-go"));
    assert_eq!(sibling_target("dir"), None);
    assert_eq!(url_openers(Some("firefox")), texts(&["firefox", "wslview", "xdg-open", "open"]));
    assert_eq!(url_openers(Some("")), texts(&["wslview", "xdg-open", "open"]));
    assert_eq!(run_in_script("cc"), "cd \"$1\" && cc");
}

#[test]
fn answers_of_git() {
    assert_eq!(branch_from("main\n"), "main");
    assert_eq!(command_result(true, ""), Ok(()));
    assert_eq!(command_result(false, " fatal: no \n"), Err("fatal: no".to_string()));
    assert_eq!(fetch_result(true, ""), Ok(PullOutcome::AlreadyUpToDate));
    assert_eq!(
        ff_refspec("origin/topic", "topic"),
        Ok(("origin".to_string(), "topic:topic".to_string()))
    );
    assert!(ff_refspec("topic", "topic").is_err());
    assert_eq!(worktree_repo("app.worktrees"), "app");
    assert!(!should_descend("node_modules"));
    assert!(should_descend("src"));
    assert!(same_path("/src/a/", "/src/a"));
    assert!(!same_path("/src/a", "/src/b"));
}

#[test]
fn discovered_entries_are_sorted() {
    let entry = |a: &str, b: &str| (a.to_string(), b.to_string());
    assert_eq!(
        sort_worktrees(vec![entry("b", "x"), entry("a", "z"), entry("a", "y")]),
        vec![entry("a", "y"), entry("a", "z"), entry("b", "x")]
    );
    assert_eq!(
        sort_repos(vec![entry("b", "/b"), entry("a", "/a")]),
        vec![entry("a", "/a"), entry("b", "/b")]
    );
}

#[test]
fn details_from_the_outputs() {
    let outputs = DetailOutputs {
        log: Some("abc\u{1f}subject\u{1f}author\u{1f}now\n".to_string()),
        counts: Some("2\t1\n".to_string()),
        status: Some(" M a\n?? b\n".to_string()),
        stashes: None,
        heads: Some("main\ndev\ntopic\n".to_string()),
    };
    let details = repo_details(&outputs);
    assert_eq!(details.commit_hash, "abc");
    assert_eq!(details.commit_rel_date, "now");
    assert_eq!((details.behind, details.ahead), (Some(2), Some(1)));
    assert_eq!((details.dirty_count, details.stash_count, details.branch_count), (2, 0, 1));
}

#[test]
fn stashes_and_discards() {
    let stashes = parse_stash_list("WIP on main\nOn topic: x\n");
    assert_eq!((stashes[1].index, stashes[1].label.as_str()), (1, "On topic: x"));
    let (restored, deleted) = parse_discard_status(" M a.rs\n?? new.rs\n");
    assert_eq!((restored, deleted), (texts(&["a.rs"]), texts(&["new.rs"])));
    assert_eq!(stash_files_result(true, "a\nb\n", ""), Ok(texts(&["a", "b"])));
    assert!(stash_files_result(false, "", "no stash").is_err());
}

#[test]
fn diffs_and_bases() {
    assert_eq!(diff_lines(""), texts(&["(no changes)"]));
    assert_eq!(diff_lines("+a\n-b\n"), texts(&["+a", "-b"]));
    assert_eq!(diff_result(true, "+a\n", ""), texts(&["+a"]));
    assert_eq!(remote_default(true, "origin/main\n"), Some("origin/main".to_string()));
    assert_eq!(remote_default(false, ""), None);
    assert_eq!(diff_start(true, "abc\n", "main"), "abc");
    assert_eq!(diff_start(false, "", "main"), "main");
    assert!(base_candidates().contains(&"origin/main".to_string()));
}

#[test]
fn a_pull_goes_through_its_phases() {
    let mut repo = RepoState::new("a".to_string(), "/a".to_string());
    let phase = pull_step(&mut repo, PullPhase::Branch, PullEvent::Named(Some("main".to_string())));
    assert_eq!(phase, PullPhase::Dirty);
    assert_eq!(repo.branch.as_deref(), Some("main"));
    let phase = pull_step(&mut repo, phase, PullEvent::Status(false));
    assert_eq!(phase, PullPhase::Attempt(0));
    let phase = pull_step(&mut repo, phase, PullEvent::Started(42));
    assert_eq!(repo.status, RepoStatus::Running { pid: 42 });
    let phase = pull_step(&mut repo, phase, PullEvent::Ended("Fast-forward\n".to_string(), true));
    assert_eq!(phase, PullPhase::Settle(PullOutcome::Updated));
    let phase = pull_step(&mut repo, phase, PullEvent::Measured(900, String::new()));
    assert_eq!(phase, PullPhase::Over);
    assert_eq!(repo.status, RepoStatus::Updated);
    assert_eq!(repo.elapsed, Some(900));
}

#[test]
fn a_failed_pull_is_tried_once_more() {
    let mut repo = RepoState::new("a".to_string(), "/a".to_string());
    let ended = || PullEvent::Ended("fatal: unable to access\n".to_string(), false);
    let phase = pull_step(&mut repo, PullPhase::Attempt(0), ended());
    assert!(matches!(phase, PullPhase::Pause(_)));
    let phase = pull_step(&mut repo, phase, PullEvent::Waited);
    assert!(matches!(phase, PullPhase::Attempt(1)));
    let phase = pull_step(&mut repo, phase, ended());
    assert_eq!(phase, PullPhase::Settle(PullOutcome::Failed));
}

#[test]
fn a_dirty_repo_is_passed_over() {
    let mut repo = RepoState::new("a".to_string(), "/a".to_string());
    pull_step(&mut repo, PullPhase::Dirty, PullEvent::Status(true));
    assert_eq!(repo.log.lines()[0], "⊘ Skipping a (has uncommitted changes)");
}

#[test]
fn fast_forwarding_branches() {
    let trees = vec![WorktreeInfo { branch: "wt".to_string(), path: "/wt".to_string() }];
    let path = "/a".to_string();
    assert!(matches!(branch_step(&branch("main", true, 0, 0), &trees, &path), BranchStep::UpToDate));
    assert!(matches!(branch_step(&branch("topic", false, 1, 1), &trees, &path), BranchStep::Skip));
    match branch_step(&branch("wt", false, 0, 2), &trees, &path) {
        BranchStep::Pull(PullVia::Merge { path }) => assert_eq!(path, "/wt"),
        other => panic!("{other:?}"),
    }
    let branches = vec![branch("main", true, 0, 1), branch("x", false, 2, 0), branch("y", false, 0, 3)];
    let summary = pull_all_branches(
        &branches,
        &trees,
        &path,
        &vec![
            Ok(PullOutcome::Updated),
            Ok(PullOutcome::AlreadyUpToDate),
            Err("no".to_string()),
        ],
    );
    assert_eq!(pull_all_message(&summary), "Pulled: 1 updated, 0 up-to-date, 1 skipped, 1 failed");
    assert_eq!(pull_message("main", &Ok(PullOutcome::Updated)), "Pulled main");
    assert_eq!(pull_message("main", &Err("x".to_string())), "pull failed: x");
}

#[test]
fn a_stash_cannot_be_pulled() {
    let row = PageRow {
        kind: PageRowKind::Stash,
        branch: "WIP".to_string(),
        path: "/a".to_string(),
        deletable: true,
        is_head: false,
        dirty: false,
        stash_index: Some(0),
        ahead: None,
        behind: None,
        upstream: None,
        last_commit_rel: String::new(),
        subject: String::new(),
        stats: None,
        base: None,
        base_is_override: false,
        dirty_count: 0,
        merge_base_short: None,
        commit_sha: String::new(),
        author: String::new(),
    };
    let path = "/a".to_string();
    assert_eq!(pull_route(&row, &vec![], &path).unwrap_err(), "cannot pull a stash");
    let local = PageRow { kind: PageRowKind::Branch, branch: "local".to_string(), ..row };
    assert_eq!(pull_route(&local, &vec![], &path).unwrap_err(), "'local' has no upstream");
}

#[test]
fn the_plain_report() {
    assert_eq!(plain_header("src"), "🔄 Pulling all repositories in src...\n");
    assert!(plain_nothing("src").contains("No git repositories found in src."));
    let results = vec![
        pulled_result("a".to_string(), "main".to_string(), PullOutcome::Updated, "", " a | 1 +"),
        pulled_result(
            "b".to_string(),
            "main".to_string(),
            PullOutcome::Failed,
            "fatal: x\ny\n",
            "",
        ),
        skipped_result("c".to_string(), "dev".to_string()),
        unstarted_result("d".to_string(), "dev".to_string(), "no git"),
    ];
    assert_eq!(results[0].output, "✅ a\n a | 1 +\n\n");
    assert_eq!(results[1].output, "❌ Failed: b\n   fatal: x\n   y\n\n");
    let totals = plain_totals(&results);
    assert!(totals.ends_with("   4 total: 1 updated, 1 skipped, 2 failed\n"));
    let lists = plain_lists(
        &results,
        &vec![WorktreeEntry { repo: "a".to_string(), branch: "wt".to_string() }],
    );
    assert!(lists.contains("✨ Updated repositories:"));
    assert!(!lists.contains("📦 Unchanged repositories:"));
    assert_eq!(plain_exit_code(&results), 1);
    assert_eq!(plain_exit_code(&vec![]), 0);
}

#[test]
fn the_background_of_the_terminal() {
    assert!(appearance_dark(true, "Dark\n"));
    assert!(!appearance_dark(false, ""));
    let env = Some("15;0".to_string());
    let light = Some("    AppsUseLightTheme    REG_DWORD    0x1".to_string());
    assert!(!detect_dark_background(Some(false), &env, &None, None));
    assert!(detect_dark_background(None, &env, &light, None));
    assert!(!detect_dark_background(None, &None, &light, Some(true)));
    assert!(!detect_dark_background(None, &None, &None, Some(false)));
    assert!(detect_dark_background(None, &None, &None, None));
    let palette = dark_normal();
    let (fg, bg, dimmed) = palette.map_cell(Color::Cyan, Color::Reset, true);
    assert_eq!((fg, bg, dimmed), (palette.accent, palette.bg, true));
}
