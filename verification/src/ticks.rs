//! What happens between the keys: batches that start and settle, loads that fall due, and what
//! the loads bring.

use vstd::prelude::*;
use vstd::string::*;

use crate::app::{AppState, Notices, PageState, Progress};
use crate::options::{RightView, Theme};
use crate::repo::{
    logged, texts, RepoDetails, RepoPageData, RepoState, RepoStatus, WorktreeEntry,
};
use crate::text::{blank, is_blank, strip_suffix, without_suffix};

verus! {

// ---- batches ----

/// All repos that were found are done.
pub open spec fn settled(app: AppState) -> bool {
    &&& app.progress.discovery_done
    &&& app.repos@.len() > 0
    &&& forall|i: int| 0 <= i < app.repos@.len() ==> (#[trigger] app.repos@[i]).status.terminal()
}

fn all_terminal(repos: &Vec<RepoState>) -> (res: bool)
    ensures
        res == forall|i: int| 0 <= i < repos@.len() ==> (#[trigger] repos@[i]).status.terminal(),
{
    let mut i: usize = 0;
    while i < repos.len()
        invariant
            i <= repos@.len(),
            forall|j: int| 0 <= j < i ==> (#[trigger] repos@[j]).status.terminal(),
        decreases repos@.len() - i,
    {
        if !repos[i].status.is_terminal() {
            assert(!repos@[i as int].status.terminal());
            return false;
        }
        i += 1;
    }
    true
}

/// Takes note that all is done, once. Nothing settles before the scan is over and has found a
/// repo.
pub fn settle(app: &mut AppState, elapsed: u64)
    ensures
        final(app).wf() == old(app).wf(),
        *final(app) == (if settled(*old(app)) && !old(app).progress.all_done {
            AppState {
                progress: Progress {
                    all_done: true,
                    finished_elapsed: Some(elapsed),
                    ..old(app).progress
                },
                ..*old(app)
            }
        } else {
            *old(app)
        }),
{
    if app.progress.discovery_done && app.repos.len() > 0 && all_terminal(&app.repos)
        && !app.progress.all_done {
        app.progress.all_done = true;
        app.progress.finished_elapsed = Some(elapsed);
    }
}

/// A repo waits for a pull again: its log is empty and followed.
pub open spec fn requeued(before: RepoState, after: RepoState) -> bool {
    &&& after.log@ == Seq::<Seq<char>>::empty()
    &&& after == (RepoState {
        status: RepoStatus::Queued,
        log: after.log,
        auto_scroll: true,
        ..before
    })
}

fn requeue(repo: &mut RepoState)
    ensures
        requeued(*old(repo), *final(repo)),
{
    repo.status = RepoStatus::Queued;
    repo.log.clear();
    repo.auto_scroll = true;
}

/// The repos after those of a queue were put back to waiting.
pub open spec fn all_requeued(
    before: Seq<RepoState>,
    queue: Seq<usize>,
    after: Seq<RepoState>,
) -> bool {
    &&& after.len() == before.len()
    &&& forall|i: int|
        0 <= i < before.len() ==> if queue.contains(i as usize) {
            requeued(before[i], #[trigger] after[i])
        } else {
            after[i] == before[i]
        }
}

proof fn lemma_contains_step(queue: Seq<usize>, n: int, x: usize)
    requires
        0 <= n < queue.len(),
    ensures
        queue.take(n + 1).contains(x) == (queue.take(n).contains(x) || queue[n] == x),
{
    let longer = queue.take(n + 1);
    let shorter = queue.take(n);
    if shorter.contains(x) {
        let k = choose|k: int| 0 <= k < shorter.len() && shorter[k] == x;
        assert(longer[k] == x);
    }
    if queue[n] == x {
        assert(longer[n] == x);
    }
    if longer.contains(x) {
        let k = choose|k: int| 0 <= k < longer.len() && longer[k] == x;
        if k < n {
            assert(shorter[k] == x);
        }
    }
}

fn requeue_all(repos: &mut Vec<RepoState>, queue: &Vec<usize>)
    requires
        forall|k: int| 0 <= k < queue@.len() ==> #[trigger] queue@[k] < old(repos)@.len(),
        old(repos)@.len() <= usize::MAX,
    ensures
        all_requeued(old(repos)@, queue@, final(repos)@),
{
    let ghost before = repos@;
    let mut k: usize = 0;
    while k < queue.len()
        invariant
            k <= queue@.len(),
            before.len() <= usize::MAX,
            forall|k: int| 0 <= k < queue@.len() ==> #[trigger] queue@[k] < before.len(),
            all_requeued(before, queue@.take(k as int), repos@),
        decreases queue@.len() - k,
    {
        let ghost mid = repos@;
        let at: usize = queue[k];
        requeue(&mut repos[at]);
        proof {
            assert forall|i: int| 0 <= i < before.len() implies if queue@.take(
                k + 1,
            ).contains(i as usize) {
                requeued(before[i], #[trigger] repos@[i])
            } else {
                repos@[i] == before[i]
            } by {
                lemma_contains_step(queue@, k as int, i as usize);
                assert(repos@[i] == if i == at {
                    repos@[at as int]
                } else {
                    mid[i]
                });
            }
        }
        k += 1;
    }
    assert(queue@.take(queue@.len() as int) =~= queue@);
}

/// Starts a fresh batch of pulls: the repos of the queue wait again, and the batch settles anew.
pub fn begin_batch(app: &mut AppState, queue: &Vec<usize>)
    requires
        old(app).wf(),
        forall|k: int| 0 <= k < queue@.len() ==> #[trigger] queue@[k] < old(app).repos@.len(),
    ensures
        final(app).wf(),
        all_requeued(old(app).repos@, queue@, final(app).repos@),
        *final(app) == (AppState {
            repos: final(app).repos,
            progress: Progress {
                finished_elapsed: None,
                all_done: false,
                ..old(app).progress
            },
            ..*old(app)
        }),
{
    app.progress.finished_elapsed = None;
    app.progress.all_done = false;
    requeue_all(&mut app.repos, queue);
}

/// A batch of at least one repo is not done when it starts; it settles only after its repos are
/// done again.
pub proof fn law_batch_restarts(before: Seq<RepoState>, queue: Seq<usize>, after: AppState)
    requires
        all_requeued(before, queue, after.repos@),
        queue.len() > 0,
        queue[0] < before.len(),
    ensures
        !settled(after),
{
    assert(queue.contains(queue[0]));
    assert(requeued(before[queue[0] as int], after.repos@[queue[0] as int]));
}

// ---- loads that fall due ----

/// The open repo page is to be read: it has not been, and is not being read.
pub open spec fn page_due(app: AppState) -> Option<usize> {
    match app.page.repo {
        Some(idx) => if app.repos@[idx as int].page is None
            && !app.repos@[idx as int].page_loading {
            Some(idx)
        } else {
            None
        },
        None => None,
    }
}

/// Takes up reading the open repo page, if that is due; the repo to read is returned.
pub fn take_page_load(app: &mut AppState) -> (res: Option<usize>)
    requires
        old(app).wf(),
    ensures
        final(app).wf(),
        res == page_due(*old(app)),
        match res {
            Some(idx) => old(app).with_repo(
                *final(app),
                idx as int,
                (RepoState { page_loading: true, ..old(app).repos@[idx as int] }),
            ),
            None => *final(app) == *old(app),
        },
{
    match app.page.repo {
        Some(idx) => {
            if app.repos[idx].page.is_none() && !app.repos[idx].page_loading {
                app.repos[idx].page_loading = true;
                return Some(idx);
            }
            return None;
        },
        None => return None,
    }
}

/// Takes up the pass that reads the details of all repos: once, when a column needs them.
pub fn take_details_pass(app: &mut AppState) -> (res: bool)
    ensures
        final(app).wf() == old(app).wf(),
        res == (old(app).prefs.columns.needs_git() && !old(app).progress.details_pass_spawned),
        *final(app) == (if res {
            AppState {
                progress: Progress { details_pass_spawned: true, ..old(app).progress },
                ..*old(app)
            }
        } else {
            *old(app)
        }),
{
    if app.prefs.columns.any_git() && !app.progress.details_pass_spawned {
        app.progress.details_pass_spawned = true;
        return true;
    }
    false
}

/// The details of the selected repo are to be read: the info block is shown, and they have not
/// been read, nor are being.
pub open spec fn details_due(app: AppState) -> Option<usize> {
    match app.current() {
        Some(idx) => if app.prefs.info_pinned && app.repos@[idx as int].details is None
            && !app.repos@[idx as int].details_loading {
            Some(idx)
        } else {
            None
        },
        None => None,
    }
}

/// Takes up reading the details of the selected repo, if that is due.
pub fn take_details_load(app: &mut AppState) -> (res: Option<usize>)
    requires
        old(app).wf(),
    ensures
        final(app).wf(),
        res == details_due(*old(app)),
        match res {
            Some(idx) => old(app).with_repo(
                *final(app),
                idx as int,
                (RepoState { details_loading: true, ..old(app).repos@[idx as int] }),
            ),
            None => *final(app) == *old(app),
        },
{
    match app.selected_repo_index() {
        Some(idx) => {
            if app.prefs.info_pinned && app.repos[idx].details.is_none()
                && !app.repos[idx].details_loading {
                app.repos[idx].details_loading = true;
                return Some(idx);
            }
            return None;
        },
        None => return None,
    }
}

/// The diff of the selected repo is to be read: the diff view is shown, and it has not been.
pub open spec fn diff_due(app: AppState) -> Option<usize> {
    match app.current() {
        Some(idx) => if app.right_view is Diff && app.repos@[idx as int].diff is None {
            Some(idx)
        } else {
            None
        },
        None => None,
    }
}

/// A diff that is being read.
pub open spec fn diff_pending(diff: Option<Vec<String>>) -> bool {
    match diff {
        Some(lines) => lines@.len() == 1 && lines@[0]@ == "(loading…)"@,
        None => false,
    }
}

fn loading_diff() -> (res: Option<Vec<String>>)
    ensures
        diff_pending(res),
{
    let mut lines: Vec<String> = Vec::new();
    lines.push("(loading…)".to_owned());
    Some(lines)
}

/// Takes up reading the diff of the selected repo, if that is due.
pub fn take_diff_load(app: &mut AppState) -> (res: Option<usize>)
    requires
        old(app).wf(),
    ensures
        final(app).wf(),
        res == diff_due(*old(app)),
        match res {
            Some(idx) => {
                &&& diff_pending(final(app).repos@[idx as int].diff)
                &&& old(app).with_repo(
                    *final(app),
                    idx as int,
                    (RepoState {
                        diff: final(app).repos@[idx as int].diff,
                        ..old(app).repos@[idx as int]
                    }),
                )
            },
            None => *final(app) == *old(app),
        },
{
    match app.selected_repo_index() {
        Some(idx) => {
            let wanted = match app.right_view {
                RightView::Diff => true,
                RightView::Log => false,
            };
            if wanted && app.repos[idx].diff.is_none() {
                app.repos[idx].diff = loading_diff();
                return Some(idx);
            }
            return None;
        },
        None => return None,
    }
}

// ---- what the loads bring ----

/// The remote URL of a repo was found.
pub fn remote_arrived(repo: &mut RepoState, url: String)
    ensures
        *final(repo) == (RepoState { remote_url: Some(url), ..*old(repo) }),
{
    repo.remote_url = Some(url);
}

/// The details of a repo were read for the info block.
pub fn details_arrived(repo: &mut RepoState, details: RepoDetails)
    ensures
        *final(repo) == (RepoState {
            details: Some(details),
            details_loading: false,
            ..*old(repo)
        }),
{
    repo.details = Some(details);
    repo.details_loading = false;
}

/// The pass over all repos still has to read the details of this one.
pub fn lacks_details(repo: &RepoState) -> (res: bool)
    ensures
        res == (repo.details is None),
{
    repo.details.is_none()
}

/// The pass over all repos read the details of this one.
pub fn details_filled(repo: &mut RepoState, details: RepoDetails)
    ensures
        *final(repo) == (RepoState { details: Some(details), ..*old(repo) }),
{
    repo.details = Some(details);
}

/// The diff of a repo was read.
pub fn repo_diff_arrived(repo: &mut RepoState, lines: Vec<String>)
    ensures
        *final(repo) == (RepoState { diff: Some(lines), ..*old(repo) }),
{
    repo.diff = Some(lines);
}

/// The repo page was read: first before the remote was asked, then after.
pub fn page_arrived(repo: &mut RepoState, page: RepoPageData)
    ensures
        *final(repo) == (RepoState {
            page: Some(page),
            page_loading: if page.fetched {
                false
            } else {
                old(repo).page_loading
            },
            ..*old(repo)
        }),
{
    if page.fetched {
        repo.page_loading = false;
    }
    repo.page = Some(page);
}

/// The worktrees under the scanned directory were found.
pub fn worktrees_arrived(app: &mut AppState, worktrees: Vec<WorktreeEntry>)
    ensures
        final(app).wf() == old(app).wf(),
        *final(app) == (AppState {
            progress: Progress { worktrees, worktrees_done: true, ..old(app).progress },
            ..*old(app)
        }),
{
    app.progress.worktrees = worktrees;
    app.progress.worktrees_done = true;
}

/// Repos were found: they are appended. Returns false, with nothing changed, where there are
/// more repos than rows can be counted for.
pub fn repos_arrived(app: &mut AppState, batch: Vec<RepoState>) -> (res: bool)
    requires
        old(app).wf(),
    ensures
        final(app).wf(),
        res == (old(app).repos@.len() + batch@.len() <= usize::MAX - 4),
        res ==> {
            &&& final(app).repos@ == old(app).repos@ + batch@
            &&& *final(app) == (AppState { repos: final(app).repos, ..*old(app) })
        },
        !res ==> *final(app) == *old(app),
{
    let mut batch = batch;
    let room: usize = usize::MAX - 4 - app.repos.len();
    if batch.len() > room {
        return false;
    }
    app.repos.append(&mut batch);
    true
}

/// The scan for repos is over.
pub fn discovery_ended(app: &mut AppState)
    ensures
        final(app).wf() == old(app).wf(),
        *final(app) == (AppState {
            progress: Progress { discovery_done: true, ..old(app).progress },
            ..*old(app)
        }),
{
    app.progress.discovery_done = true;
}

/// lazygit cannot be run: the open repo page says so, or else the log of the selected repo.
pub fn lazygit_missing(app: &mut AppState)
    requires
        old(app).wf(),
    ensures
        final(app).wf(),
        match (old(app).page.repo, old(app).current()) {
            (Some(_), _) => {
                &&& final(app).page.message is Some
                &&& final(app).page.message->0@ == "lazygit not found on PATH"@
                &&& *final(app) == (AppState {
                    page: PageState { message: final(app).page.message, ..old(app).page },
                    ..*old(app)
                })
            },
            (None, Some(idx)) => {
                &&& final(app).repos@[idx as int].log@ == logged(
                    old(app).repos@[idx as int].log@,
                    "lazygit not found on PATH"@,
                )
                &&& old(app).with_repo(
                    *final(app),
                    idx as int,
                    (RepoState {
                        log: final(app).repos@[idx as int].log,
                        ..old(app).repos@[idx as int]
                    }),
                )
            },
            (None, None) => *final(app) == *old(app),
        },
{
    let note = "lazygit not found on PATH".to_owned();
    if app.page.repo.is_some() {
        app.page.message = Some(note);
        return;
    }
    match app.selected_repo_index() {
        Some(idx) => append_log(&mut app.repos[idx], note),
        None => {},
    }
}

fn append_log(repo: &mut RepoState, line: String)
    ensures
        final(repo).log@ == logged(old(repo).log@, line@),
        *final(repo) == (RepoState { log: final(repo).log, ..*old(repo) }),
{
    repo.log.push(line);
}

// ---- the build and the theme ----

/// The executable on disk was looked at, `seen` by its length and time before and `now` since: a
/// file that changed and is not empty raises the notice, even one that was closed. Returns
/// whether it did.
pub fn build_seen(app: &mut AppState, seen: (u64, Option<u128>), now: (u64, Option<u128>)) -> (res:
    bool)
    ensures
        final(app).wf() == old(app).wf(),
        res == (now != seen && now.0 > 0),
        *final(app) == (if res {
            AppState {
                notices: Notices {
                    update_available: true,
                    update_dismissed: false,
                    ..old(app).notices
                },
                ..*old(app)
            }
        } else {
            *old(app)
        }),
{
    let same_time = match (seen.1, now.1) {
        (Some(a), Some(b)) => a == b,
        (None, None) => true,
        _ => false,
    };
    let changed = !(seen.0 == now.0 && same_time);
    if changed && now.0 > 0 {
        app.notices.update_available = true;
        app.notices.update_dismissed = false;
        return true;
    }
    false
}

/// Whether the terminal's background is to be looked at again: only where the theme follows it.
pub fn follows_terminal(app: &AppState) -> (res: bool)
    ensures
        res == (app.prefs.theme is Auto),
{
    match app.prefs.theme {
        Theme::Auto => true,
        _ => false,
    }
}

/// The terminal's background was looked at.
pub fn background_seen(app: &mut AppState, dark: Option<bool>)
    ensures
        final(app).wf() == old(app).wf(),
        *final(app) == (match dark {
            Some(auto_dark) => AppState {
                notices: Notices { auto_dark, ..old(app).notices },
                ..*old(app)
            },
            None => *old(app),
        }),
{
    match dark {
        Some(dark) => {
            app.notices.auto_dark = dark;
        },
        None => {},
    }
}

/// The path of the build on disk: that of the running file, without the mark of a deleted one.
pub fn reload_path(exe: &str) -> (res: String)
    ensures
        res@ == without_suffix(exe@, " (deleted)"@),
{
    strip_suffix(exe, " (deleted)")
}

/// The number of pulls at a time: what was asked for, or one for each processor.
pub fn jobs_for(asked: Option<usize>, processors: usize) -> (res: usize)
    ensures
        res == (match asked {
            Some(jobs) => if jobs > 0 {
                jobs
            } else {
                processors
            },
            None => processors,
        }),
{
    match asked {
        Some(jobs) => if jobs > 0 {
            jobs
        } else {
            processors
        },
        None => processors,
    }
}

/// The depth of the scan: one without recursion, else what was asked for but at least one.
pub fn depth_for(no_recursive: bool, depth: usize) -> (res: usize)
    ensures
        res == (if no_recursive || depth < 1 {
            1
        } else {
            depth
        }),
{
    if no_recursive || depth < 1 {
        1
    } else {
        depth
    }
}

// ---- the timing report ----

/// A line of the timing report.
#[derive(Debug)]
pub struct ProfileRow {
    pub name: String,
    pub branch: String,
    pub status: String,
    /// Nanoseconds.
    pub elapsed: u64,
    pub last_log_line: String,
}

/// The name of a status in the timing report.
pub open spec fn status_name(status: RepoStatus) -> Seq<char> {
    match status {
        RepoStatus::Updated => "updated"@,
        RepoStatus::UpToDate => "uptodate"@,
        RepoStatus::NoUpstream => "noupstream"@,
        RepoStatus::Skipped => "skipped"@,
        RepoStatus::Throttled => "throttled"@,
        RepoStatus::Failed => "failed"@,
        RepoStatus::Running { .. } => "running"@,
        RepoStatus::Queued => "queued"@,
    }
}

/// The last line of a log that is not blank, or nothing.
pub open spec fn last_line(lines: Seq<Seq<char>>) -> Seq<char>
    decreases lines.len(),
{
    if lines.len() == 0 {
        Seq::empty()
    } else if !is_blank(lines.last()) {
        lines.last()
    } else {
        last_line(lines.drop_last())
    }
}

/// The line of the timing report for a repo.
pub open spec fn is_profile(repo: RepoState, row: ProfileRow) -> bool {
    &&& row.name == repo.name
    &&& row.branch@ == match repo.branch {
        Some(branch) => branch@,
        None => "?"@,
    }
    &&& row.status@ == status_name(repo.status)
    &&& row.elapsed == match repo.elapsed {
        Some(elapsed) => elapsed,
        None => 0,
    }
    &&& row.last_log_line@ == last_line(repo.log@)
}

fn profile_row(repo: &RepoState) -> (res: ProfileRow)
    ensures
        is_profile(*repo, res),
{
    let status = match repo.status {
        RepoStatus::Updated => "updated",
        RepoStatus::UpToDate => "uptodate",
        RepoStatus::NoUpstream => "noupstream",
        RepoStatus::Skipped => "skipped",
        RepoStatus::Throttled => "throttled",
        RepoStatus::Failed => "failed",
        RepoStatus::Running { .. } => "running",
        RepoStatus::Queued => "queued",
    };
    let lines = repo.log.lines();
    let ghost all = repo.log@;
    assert(all.take(all.len() as int) =~= all);
    let mut i: usize = lines.len();
    while i > 0 && blank(lines[i - 1].as_str())
        invariant
            i <= lines@.len(),
            all == texts(lines@),
            last_line(all) == last_line(all.take(i as int)),
        decreases i,
    {
        proof {
            assert(all.take(i as int).last() == lines@[i - 1]@);
            assert(all.take(i as int).drop_last() =~= all.take(i - 1));
        }
        i -= 1;
    }
    let last = if i > 0 {
        proof {
            assert(all.take(i as int).last() == lines@[i - 1]@);
        }
        lines[i - 1].clone()
    } else {
        String::new()
    };
    ProfileRow {
        name: repo.name.clone(),
        branch: match &repo.branch {
            Some(branch) => branch.clone(),
            None => "?".to_owned(),
        },
        status: status.to_owned(),
        elapsed: match repo.elapsed {
            Some(elapsed) => elapsed,
            None => 0,
        },
        last_log_line: last,
    }
}

/// The lines of the timing report, one for each repo.
pub fn build_profile_rows(app: &AppState) -> (res: Vec<ProfileRow>)
    ensures
        res@.len() == app.repos@.len(),
        forall|i: int| 0 <= i < res@.len() ==> is_profile(app.repos@[i], #[trigger] res@[i]),
{
    let mut rows: Vec<ProfileRow> = Vec::new();
    let mut i: usize = 0;
    while i < app.repos.len()
        invariant
            i <= app.repos@.len(),
            rows@.len() == i,
            forall|j: int| 0 <= j < i ==> is_profile(app.repos@[j], #[trigger] rows@[j]),
        decreases app.repos@.len() - i,
    {
        rows.push(profile_row(&app.repos[i]));
        i += 1;
    }
    rows
}

// ---- what the report says ----

/// A report calls each state by its own name.
pub proof fn law_names_of_states(waiting: RepoStatus, running: RepoStatus)
    requires
        waiting is Queued,
        running is Running,
    ensures
        status_name(RepoStatus::Updated) == "updated"@,
        status_name(RepoStatus::UpToDate) == "uptodate"@,
        status_name(RepoStatus::NoUpstream) == "noupstream"@,
        status_name(RepoStatus::Skipped) == "skipped"@,
        status_name(RepoStatus::Throttled) == "throttled"@,
        status_name(RepoStatus::Failed) == "failed"@,
        status_name(running) == "running"@,
        status_name(waiting) == "queued"@,
{
}

/// The last line of a log is the last that is not blank; there is none only where all are blank.
pub proof fn law_last_line(lines: Seq<Seq<char>>)
    ensures
        (forall|j: int| 0 <= j < lines.len() ==> is_blank(#[trigger] lines[j])) ==> last_line(
            lines,
        ).len() == 0,
        forall|k: int|
            0 <= k < lines.len() && !is_blank(#[trigger] lines[k]) && (forall|j: int|
                k < j < lines.len() ==> is_blank(#[trigger] lines[j])) ==> last_line(lines)
                == lines[k],
    decreases lines.len(),
{
    if lines.len() > 0 {
        let init = lines.drop_last();
        law_last_line(init);
        if is_blank(lines.last()) {
            if forall|j: int| 0 <= j < lines.len() ==> is_blank(#[trigger] lines[j]) {
                assert forall|j: int| 0 <= j < init.len() implies is_blank(#[trigger] init[j]) by {
                    assert(is_blank(lines[j]));
                }
            }
            assert forall|k: int|
                0 <= k < lines.len() && !is_blank(#[trigger] lines[k]) && (forall|j: int|
                    k < j < lines.len() ==> is_blank(#[trigger] lines[j])) implies last_line(lines)
                == lines[k] by {
                assert(init[k] == lines[k]);
                assert forall|j: int| k < j < init.len() implies is_blank(#[trigger] init[j]) by {
                    assert(is_blank(lines[j]));
                }
            }
        } else {
            assert forall|k: int|
                0 <= k < lines.len() && !is_blank(#[trigger] lines[k]) && (forall|j: int|
                    k < j < lines.len() ==> is_blank(#[trigger] lines[j])) implies last_line(lines)
                == lines[k] by {
                if k < lines.len() - 1 {
                    assert(is_blank(lines[lines.len() - 1]));
                }
            }
        }
    }
}

/// A run is over when the repos are found, there are some, and none waits, runs or is throttled.
pub proof fn law_when_a_run_is_over(app: AppState, k: int)
    requires
        0 <= k < app.repos@.len(),
    ensures
        settled(app) ==> app.progress.discovery_done && !(app.repos@[k].status is Queued
            || app.repos@[k].status is Running || app.repos@[k].status is Throttled),
        !app.progress.discovery_done ==> !settled(app),
        app.repos@[k].status is Queued || app.repos@[k].status is Running
            || app.repos@[k].status is Throttled ==> !settled(app),
{
}

/// What is fetched in the background is what is shown and not there yet, and nothing twice.
pub proof fn law_what_is_fetched(app: AppState, k: usize)
    ensures
        page_due(app) == Some(k) <==> app.page.repo == Some(k) && app.repos@[k as int].page is None
            && !app.repos@[k as int].page_loading,
        details_due(app) == Some(k) <==> app.current() == Some(k) && app.prefs.info_pinned
            && app.repos@[k as int].details is None && !app.repos@[k as int].details_loading,
        diff_due(app) == Some(k) <==> app.current() == Some(k) && app.right_view is Diff
            && app.repos@[k as int].diff is None,
{
}

/// A report has what the repo holds, each in its own place.
pub proof fn law_report_of_a_repo(repo: RepoState, row: ProfileRow)
    requires
        is_profile(repo, row),
    ensures
        row.name == repo.name,
        repo.branch matches Some(branch) ==> row.branch@ == branch@,
        repo.branch is None ==> row.branch@ == "?"@,
        repo.elapsed matches Some(elapsed) ==> row.elapsed == elapsed,
        repo.elapsed is None ==> row.elapsed == 0,
        row.status@ == status_name(repo.status),
        row.last_log_line@ == last_line(repo.log@),
{
}

} // verus!
