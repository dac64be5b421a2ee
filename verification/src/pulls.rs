//! Pulling: the steps of one repo's pull, and fast-forwarding branches from the repo page.

use vstd::prelude::*;
use vstd::string::*;

use crate::dialogs::{PageRow, PageRowKind};
use crate::git::{classify_pull_output, outcome_of, PullOutcome};
use crate::repo::{logged, logged_all, BranchInfo, RepoState, RepoStatus, WorktreeInfo};
use crate::text::{cat, cat3, decimal, lines_of, number, same, text_lines};

verus! {

// ---- one repo's pull ----

/// How often a pull is tried before it counts as failed.
pub const MAX_ATTEMPTS: u32 = 2;

/// Where a pull stands, and so what is to be done next.
#[derive(Debug, Clone, Copy, PartialEq, Eq, Structural)]
pub enum PullPhase {
    /// Ask for the current branch.
    Branch,
    /// Ask whether there are uncommitted changes.
    Dirty,
    /// Run `git pull --ff-only`; so many attempts came before.
    Attempt(u32),
    /// Wait a moment, then try again.
    Pause(u32),
    /// The pull is through; where it updated the repo, ask for its diff stat.
    Settle(PullOutcome),
    /// Nothing is left to be done.
    Over,
}

/// What the outside tells of a pull.
#[derive(Debug)]
pub enum PullEvent {
    /// The current branch, where it could be told.
    Named(Option<String>),
    /// Whether there are uncommitted changes.
    Status(bool),
    /// The pull runs in a process.
    Started(u32),
    /// The pull printed a line.
    Printed(String),
    /// The pull ended; all that it printed, and whether it succeeded.
    Ended(String, bool),
    /// The pause is over.
    Waited,
    /// The time spent in nanoseconds, and the diff stat.
    Measured(u64, String),
}

/// The note that a dirty repo is passed over.
pub open spec fn skip_note(name: Seq<char>) -> Seq<char> {
    "⊘ Skipping "@ + name + " (has uncommitted changes)"@
}

/// The status that an outcome leads to.
pub open spec fn status_of(outcome: PullOutcome) -> RepoStatus {
    match outcome {
        PullOutcome::AlreadyUpToDate => RepoStatus::UpToDate,
        PullOutcome::Updated => RepoStatus::Updated,
        PullOutcome::NoUpstream => RepoStatus::NoUpstream,
        PullOutcome::Throttled => RepoStatus::Throttled,
        PullOutcome::Failed => RepoStatus::Failed,
    }
}

/// What is left of a pull after an event, as far as the phase goes. An event that a phase does
/// not wait for changes nothing.
pub open spec fn next_phase(phase: PullPhase, event: PullEvent) -> PullPhase {
    match (phase, event) {
        (PullPhase::Branch, PullEvent::Named(_)) => PullPhase::Dirty,
        (PullPhase::Dirty, PullEvent::Status(dirty)) => if dirty {
            PullPhase::Over
        } else {
            PullPhase::Attempt(0)
        },
        (PullPhase::Attempt(n), PullEvent::Ended(output, success)) => {
            let outcome = outcome_of(output@, success);
            if outcome is Failed && n + 1 < MAX_ATTEMPTS {
                PullPhase::Pause((n + 1) as u32)
            } else {
                PullPhase::Settle(outcome)
            }
        },
        (PullPhase::Pause(n), PullEvent::Waited) => PullPhase::Attempt(n),
        (PullPhase::Settle(_), PullEvent::Measured(_, _)) => PullPhase::Over,
        _ => phase,
    }
}

/// What an event does to the repo.
pub open spec fn repo_after(
    repo: RepoState,
    phase: PullPhase,
    event: PullEvent,
    after: RepoState,
) -> bool {
    match (phase, event) {
        (PullPhase::Branch, PullEvent::Named(name)) => {
            &&& after == (RepoState { branch: after.branch, elapsed: None, ..repo })
            &&& after.branch is Some
            &&& after.branch->0@ == (match name {
                Some(name) => name@,
                None => "?"@,
            })
        },
        (PullPhase::Dirty, PullEvent::Status(dirty)) => if dirty {
            &&& after.log@ == logged(repo.log@, skip_note(repo.name@))
            &&& after == (RepoState {
                log: after.log,
                elapsed: Some(0u64),
                status: RepoStatus::Skipped,
                ..repo
            })
        } else {
            after == repo
        },
        (PullPhase::Attempt(_), PullEvent::Started(pid)) => after == (RepoState {
            status: RepoStatus::Running { pid },
            ..repo
        }),
        (PullPhase::Attempt(_), PullEvent::Printed(line)) => {
            &&& after.log@ == logged(repo.log@, line@)
            &&& after == (RepoState { log: after.log, ..repo })
        },
        (PullPhase::Attempt(n), PullEvent::Ended(output, success)) => if outcome_of(
            output@,
            success,
        ) is Failed && n + 1 < MAX_ATTEMPTS {
            &&& after.log@ == logged(repo.log@, "↻ pull failed — retrying…"@)
            &&& after == (RepoState { log: after.log, ..repo })
        } else {
            after == repo
        },
        (PullPhase::Settle(outcome), PullEvent::Measured(elapsed, stat)) => {
            &&& after.log@ == logged_all(
                repo.log@,
                if outcome is Updated {
                    text_lines(stat@)
                } else {
                    Seq::empty()
                },
            )
            &&& after == (RepoState {
                log: after.log,
                elapsed: Some(elapsed),
                status: status_of(outcome),
                ..repo
            })
        },
        _ => after == repo,
    }
}

fn log_line(repo: &mut RepoState, line: String)
    ensures
        final(repo).log@ == logged(old(repo).log@, line@),
        *final(repo) == (RepoState { log: final(repo).log, ..*old(repo) }),
{
    repo.log.push(line);
}

fn log_lines(repo: &mut RepoState, text: &str)
    ensures
        final(repo).log@ == logged_all(old(repo).log@, text_lines(text@)),
        *final(repo) == (RepoState { log: final(repo).log, ..*old(repo) }),
{
    let lines = lines_of(text);
    let ghost all = lines.deep_view();
    let ghost before = *repo;
    let mut i: usize = 0;
    while i < lines.len()
        invariant
            i <= lines@.len(),
            all == lines.deep_view(),
            repo.log@ == logged_all(before.log@, all.take(i as int)),
            *repo == (RepoState { log: repo.log, ..before }),
        decreases lines@.len() - i,
    {
        assert(all[i as int] == lines@[i as int]@);
        log_line(repo, lines[i].clone());
        assert(all.take(i + 1).drop_last() =~= all.take(i as int));
        i += 1;
    }
    assert(all.take(all.len() as int) =~= all);
}

fn finish(repo: &mut RepoState, outcome: PullOutcome, elapsed: u64)
    ensures
        *final(repo) == (RepoState {
            elapsed: Some(elapsed),
            status: status_of(outcome),
            ..*old(repo)
        }),
{
    let status = match outcome {
        PullOutcome::AlreadyUpToDate => RepoStatus::UpToDate,
        PullOutcome::Updated => RepoStatus::Updated,
        PullOutcome::NoUpstream => RepoStatus::NoUpstream,
        PullOutcome::Throttled => RepoStatus::Throttled,
        PullOutcome::Failed => RepoStatus::Failed,
    };
    repo.elapsed = Some(elapsed);
    repo.status = status;
}

/// One step of a repo's pull: takes what the outside told and says what is to be done next.
/// A failed pull is tried once more before it counts as failed.
#[verifier::rlimit(40)]
pub fn pull_step(repo: &mut RepoState, phase: PullPhase, event: PullEvent) -> (res: PullPhase)
    ensures
        res == next_phase(phase, event),
        repo_after(*old(repo), phase, event, *final(repo)),
{
    match (phase, event) {
        (PullPhase::Branch, PullEvent::Named(name)) => {
            let branch: String = match name {
                Some(name) => name,
                None => "?".to_owned(),
            };
            repo.branch = Some(branch);
            repo.elapsed = None;
            PullPhase::Dirty
        },
        (PullPhase::Dirty, PullEvent::Status(dirty)) => if dirty {
            let line = cat3("⊘ Skipping ", repo.name.as_str(), " (has uncommitted changes)");
            log_line(repo, line);
            repo.elapsed = Some(0);
            repo.status = RepoStatus::Skipped;
            PullPhase::Over
        } else {
            PullPhase::Attempt(0)
        },
        (PullPhase::Attempt(_), PullEvent::Started(pid)) => {
            repo.status = RepoStatus::Running { pid };
            phase
        },
        (PullPhase::Attempt(_), PullEvent::Printed(line)) => {
            log_line(repo, line);
            phase
        },
        (PullPhase::Attempt(n), PullEvent::Ended(output, success)) => {
            let outcome = classify_pull_output(output.as_str(), success);
            if outcome == PullOutcome::Failed && n < MAX_ATTEMPTS - 1 {
                log_line(repo, "↻ pull failed — retrying…".to_owned());
                PullPhase::Pause(n + 1)
            } else {
                PullPhase::Settle(outcome)
            }
        },
        (PullPhase::Pause(n), PullEvent::Waited) => PullPhase::Attempt(n),
        (PullPhase::Settle(outcome), PullEvent::Measured(elapsed, stat)) => {
            if outcome == PullOutcome::Updated {
                log_lines(repo, stat.as_str());
            }
            finish(repo, outcome, elapsed);
            PullPhase::Over
        },
        _ => phase,
    }
}

/// A pull is tried at most `MAX_ATTEMPTS` times: once one attempt fewer came before, the end
/// of an attempt settles the pull whatever came of it.
pub proof fn law_pulls_are_retried_once(n: u32, output: String, success: bool)
    requires
        n + 1 >= MAX_ATTEMPTS,
    ensures
        next_phase(PullPhase::Attempt(n), PullEvent::Ended(output, success)) == PullPhase::Settle(
            outcome_of(output@, success),
        ),
{
}

/// A pull that is through leaves a status that is either done or throttled.
pub proof fn law_pulls_end_done_or_throttled(
    repo: RepoState,
    phase: PullPhase,
    event: PullEvent,
    after: RepoState,
)
    requires
        repo_after(repo, phase, event, after),
        phase !is Over,
        next_phase(phase, event) is Over,
    ensures
        after.status.terminal() || after.status is Throttled,
        after.elapsed is Some,
{
}

// ---- fast-forwarding branches ----

/// How a branch is fast-forwarded.
#[derive(Debug)]
pub enum PullVia {
    /// `git merge --ff-only @{u}` where it is checked out.
    Merge { path: String },
    /// A fetch of its upstream into it.
    Fetch { upstream: String, branch: String },
}

/// The first worktree from `from` on that a branch is checked out in.
pub open spec fn checked_out(trees: Seq<WorktreeInfo>, branch: Seq<char>, from: int) -> Option<
    WorktreeInfo,
>
    decreases trees.len() - from,
{
    if from < 0 || from >= trees.len() {
        None
    } else if trees[from].branch@ == branch {
        Some(trees[from])
    } else {
        checked_out(trees, branch, from + 1)
    }
}

fn find_worktree<'a>(trees: &'a Vec<WorktreeInfo>, branch: &str) -> (res: Option<&'a WorktreeInfo>)
    ensures
        match res {
            Some(tree) => checked_out(trees@, branch@, 0) == Some(*tree),
            None => checked_out(trees@, branch@, 0) is None,
        },
{
    let mut i: usize = 0;
    while i < trees.len()
        invariant
            i <= trees@.len(),
            checked_out(trees@, branch@, 0) == checked_out(trees@, branch@, i as int),
        decreases trees@.len() - i,
    {
        if same(trees[i].branch.as_str(), branch) {
            return Some(&trees[i]);
        }
        i += 1;
    }
    None
}

/// What is done to a branch when all branches are fast-forwarded.
#[derive(Debug)]
pub enum BranchStep {
    /// It has no upstream, or commits that its upstream lacks.
    Skip,
    /// Its upstream has nothing new.
    UpToDate,
    /// It can be advanced.
    Pull(PullVia),
}

/// The current branch and a branch that a worktree has checked out are merged there, any other
/// one is fetched into; a branch that cannot be advanced cleanly is left untouched.
pub open spec fn step_for(
    branch: BranchInfo,
    trees: Seq<WorktreeInfo>,
    repo_path: String,
) -> BranchStep {
    match branch.upstream {
        None => BranchStep::Skip,
        Some(upstream) => if branch.ahead is Some && branch.ahead->0 > 0 {
            BranchStep::Skip
        } else if branch.behind is None || branch.behind->0 == 0 {
            BranchStep::UpToDate
        } else if branch.is_head {
            BranchStep::Pull(PullVia::Merge { path: repo_path })
        } else {
            match checked_out(trees, branch.name@, 0) {
                Some(tree) => BranchStep::Pull(PullVia::Merge { path: tree.path }),
                None => BranchStep::Pull(PullVia::Fetch { upstream, branch: branch.name }),
            }
        },
    }
}

/// What is done to a branch when all branches are fast-forwarded.
pub fn branch_step(
    branch: &BranchInfo,
    trees: &Vec<WorktreeInfo>,
    repo_path: &String,
) -> (res: BranchStep)
    ensures
        res == step_for(*branch, trees@, *repo_path),
        res matches BranchStep::Pull(PullVia::Fetch { upstream, branch: into }) ==> Some(upstream)
            == branch.upstream && into == branch.name && !branch.is_head,
        res matches BranchStep::Pull(PullVia::Merge { path }) ==> {
            ||| (branch.is_head && path == *repo_path)
            ||| (!branch.is_head && exists|k: int|
                0 <= k < trees@.len() && (#[trigger] trees@[k]).path == path && trees@[k].branch@
                    == branch.name@)
        },
{
    proof {
        law_branches_advance_where_they_are(*branch, trees@, *repo_path);
    }

    match &branch.upstream {
        None => BranchStep::Skip,
        Some(upstream) => {
            let ahead: u32 = match branch.ahead {
                Some(ahead) => ahead,
                None => 0,
            };
            let behind: u32 = match branch.behind {
                Some(behind) => behind,
                None => 0,
            };
            if ahead > 0 {
                BranchStep::Skip
            } else if behind == 0 {
                BranchStep::UpToDate
            } else if branch.is_head {
                BranchStep::Pull(PullVia::Merge { path: repo_path.clone() })
            } else {
                match find_worktree(trees, branch.name.as_str()) {
                    Some(tree) => BranchStep::Pull(PullVia::Merge { path: tree.path.clone() }),
                    None => BranchStep::Pull(
                        PullVia::Fetch { upstream: upstream.clone(), branch: branch.name.clone() },
                    ),
                }
            }
        },
    }
}

proof fn lemma_checked_out(trees: Seq<WorktreeInfo>, branch: Seq<char>, from: int)
    requires
        0 <= from,
    ensures
        match checked_out(trees, branch, from) {
            Some(tree) => exists|k: int|
                from <= k < trees.len() && #[trigger] trees[k] == tree && tree.branch@ == branch,
            None => forall|k: int| from <= k < trees.len() ==> (#[trigger] trees[k]).branch@ != branch,
        },
    decreases trees.len() - from,
{
    if from < trees.len() && trees[from].branch@ != branch {
        lemma_checked_out(trees, branch, from + 1);
    }
}

/// A branch is advanced only if it has an upstream with commits that it lacks, and itself no
/// commits that the upstream lacks. It is merged only where it is checked out: the current branch
/// in the repo itself, another one in a worktree that has it. A branch that is checked out nowhere
/// is fetched from its own upstream into its own name.
pub proof fn law_branches_advance_where_they_are(
    branch: BranchInfo,
    trees: Seq<WorktreeInfo>,
    path: String,
)
    ensures
        step_for(branch, trees, path) is Pull <==> {
            &&& branch.upstream is Some
            &&& (branch.ahead is None || branch.ahead == Some(0u32))
            &&& branch.behind is Some
            &&& branch.behind != Some(0u32)
        },
        step_for(branch, trees, path) is Skip <==> {
            ||| branch.upstream is None
            ||| (branch.ahead is Some && branch.ahead != Some(0u32))
        },
        step_for(branch, trees, path) matches BranchStep::Pull(PullVia::Merge { path: dir }) ==> {
            ||| (branch.is_head && dir == path)
            ||| (!branch.is_head && exists|k: int|
                0 <= k < trees.len() && (#[trigger] trees[k]).path == dir && trees[k].branch@
                    == branch.name@)
        },
        step_for(branch, trees, path) matches BranchStep::Pull(
            PullVia::Fetch { upstream, branch: into },
        ) ==> {
            &&& !branch.is_head
            &&& Some(upstream) == branch.upstream
            &&& into == branch.name
            &&& forall|k: int|
                0 <= k < trees.len() ==> (#[trigger] trees[k]).branch@ != branch.name@
        },
{
    lemma_checked_out(trees, branch.name@, 0);
}

/// The selected row is fast-forwarded where it is checked out: the current branch in the repo
/// itself, another one in a worktree that has it. One that is checked out nowhere is fetched from
/// its own upstream into its own name, and without an upstream it is refused. A stash is always
/// refused.
pub proof fn law_rows_advance_where_they_are(
    route: Result<PullVia, String>,
    row: PageRow,
    trees: Seq<WorktreeInfo>,
    path: String,
)
    requires
        is_route(route, row, trees, path),
    ensures
        row.kind is Stash ==> route is Err,
        row.kind is Worktree ==> route == Ok::<PullVia, String>(PullVia::Merge { path: row.path }),
        row.kind is Branch && row.is_head ==> route == Ok::<PullVia, String>(
            PullVia::Merge { path },
        ),
        row.kind is Branch && !row.is_head ==> match route {
            Ok(PullVia::Merge { path: dir }) => exists|k: int|
                0 <= k < trees.len() && (#[trigger] trees[k]).path == dir && trees[k].branch@
                    == row.branch@,
            Ok(PullVia::Fetch { upstream, branch }) => Some(upstream) == row.upstream && branch
                == row.branch && forall|k: int|
                0 <= k < trees.len() ==> (#[trigger] trees[k]).branch@ != row.branch@,
            Err(_) => row.upstream is None && forall|k: int|
                0 <= k < trees.len() ==> (#[trigger] trees[k]).branch@ != row.branch@,
        },
{
    lemma_checked_out(trees, row.branch@, 0);
}

/// Tally of a pass over all branches of one repo.
#[derive(Debug, Clone, Copy, PartialEq, Eq, Structural)]
pub struct PullAllSummary {
    pub updated: u32,
    pub up_to_date: u32,
    pub skipped: u32,
    pub failed: u32,
}

impl PullAllSummary {
    /// No branch has been counted.
    pub open spec fn nothing() -> PullAllSummary {
        PullAllSummary { updated: 0, up_to_date: 0, skipped: 0, failed: 0 }
    }

    /// How many branches have been counted.
    pub open spec fn total(self) -> int {
        self.updated + self.up_to_date + self.skipped + self.failed
    }

    /// The tally after one more branch: what came of its pull counts where it was pulled.
    pub open spec fn counted(
        self,
        step: BranchStep,
        result: Result<PullOutcome, String>,
    ) -> PullAllSummary {
        match step {
            BranchStep::Skip => PullAllSummary { skipped: (self.skipped + 1) as u32, ..self },
            BranchStep::UpToDate => PullAllSummary {
                up_to_date: (self.up_to_date + 1) as u32,
                ..self
            },
            BranchStep::Pull(_) => match result {
                Ok(PullOutcome::Updated) => PullAllSummary {
                    updated: (self.updated + 1) as u32,
                    ..self
                },
                Ok(_) => PullAllSummary { up_to_date: (self.up_to_date + 1) as u32, ..self },
                Err(_) => PullAllSummary { failed: (self.failed + 1) as u32, ..self },
            },
        }
    }

    /// No branch has been counted.
    pub fn new() -> (res: PullAllSummary)
        ensures
            res == Self::nothing(),
    {
        PullAllSummary { updated: 0, up_to_date: 0, skipped: 0, failed: 0 }
    }

    /// Counts one more branch.
    pub fn count(self, step: &BranchStep, result: &Result<PullOutcome, String>) -> (res:
        PullAllSummary)
        requires
            self.total() < u32::MAX,
        ensures
            res == self.counted(*step, *result),
            res.total() == self.total() + 1,
    {
        let mut summary = self;
        match step {
            BranchStep::Skip => summary.skipped += 1,
            BranchStep::UpToDate => summary.up_to_date += 1,
            BranchStep::Pull(_) => match result {
                Ok(PullOutcome::Updated) => summary.updated += 1,
                Ok(_) => summary.up_to_date += 1,
                Err(_) => summary.failed += 1,
            },
        }
        summary
    }
}

/// The tally of the first `n` branches.
pub open spec fn summary_upto(
    branches: Seq<BranchInfo>,
    trees: Seq<WorktreeInfo>,
    repo_path: String,
    results: Seq<Result<PullOutcome, String>>,
    n: nat,
) -> PullAllSummary
    decreases n,
{
    if n == 0 {
        PullAllSummary::nothing()
    } else {
        summary_upto(branches, trees, repo_path, results, (n - 1) as nat).counted(
            step_for(branches[n - 1], trees, repo_path),
            results[n - 1],
        )
    }
}

/// The tally of a pass over all branches, where `results` holds what came of each branch's
/// pull (and anything for a branch that was not pulled).
pub fn pull_all_branches(
    branches: &Vec<BranchInfo>,
    trees: &Vec<WorktreeInfo>,
    repo_path: &String,
    results: &Vec<Result<PullOutcome, String>>,
) -> (res: PullAllSummary)
    requires
        branches@.len() == results@.len(),
        branches@.len() <= u32::MAX,
    ensures
        res == summary_upto(branches@, trees@, *repo_path, results@, branches@.len()),
        res.total() == branches@.len(),
{
    let mut summary = PullAllSummary::new();
    let mut i: usize = 0;
    while i < branches.len()
        invariant
            i <= branches@.len(),
            branches@.len() == results@.len(),
            branches@.len() <= u32::MAX,
            summary == summary_upto(branches@, trees@, *repo_path, results@, i as nat),
            summary.total() == i,
        decreases branches@.len() - i,
    {
        let step = branch_step(&branches[i], trees, repo_path);
        summary = summary.count(&step, &results[i]);
        i += 1;
    }
    summary
}

/// The banner after all branches were fast-forwarded.
pub open spec fn pull_all_text(summary: PullAllSummary) -> Seq<char> {
    let counts = "Pulled: "@ + decimal(summary.updated as nat) + " updated, "@ + decimal(
        summary.up_to_date as nat,
    ) + " up-to-date, "@ + decimal(summary.skipped as nat) + " skipped"@;
    if summary.failed > 0 {
        counts + ", "@ + decimal(summary.failed as nat) + " failed"@
    } else {
        counts
    }
}

/// The banner after all branches were fast-forwarded.
pub fn pull_all_message(summary: &PullAllSummary) -> (res: String)
    ensures
        res@ == pull_all_text(*summary),
{
    let counts = "Pulled: ".to_owned().concat(number(summary.updated as u64).as_str()).concat(
        " updated, ",
    ).concat(number(summary.up_to_date as u64).as_str()).concat(" up-to-date, ").concat(
        number(summary.skipped as u64).as_str(),
    ).concat(" skipped");
    if summary.failed > 0 {
        counts.concat(", ").concat(number(summary.failed as u64).as_str()).concat(" failed")
    } else {
        counts
    }
}

/// How the selected row of the repo page is fast-forwarded, or why it cannot be.
pub open spec fn is_route(
    route: Result<PullVia, String>,
    row: PageRow,
    trees: Seq<WorktreeInfo>,
    repo_path: String,
) -> bool {
    match row.kind {
        PageRowKind::Stash => route matches Err(error) && error@ == "cannot pull a stash"@,
        PageRowKind::Worktree => route == Ok::<PullVia, String>(PullVia::Merge { path: row.path }),
        PageRowKind::Branch => if row.is_head {
            route == Ok::<PullVia, String>(PullVia::Merge { path: repo_path })
        } else {
            match checked_out(trees, row.branch@, 0) {
                Some(tree) => route == Ok::<PullVia, String>(PullVia::Merge { path: tree.path }),
                None => match row.upstream {
                    Some(upstream) => route == Ok::<PullVia, String>(
                        PullVia::Fetch { upstream, branch: row.branch },
                    ),
                    None => route matches Err(error) && error@ == "'"@ + row.branch@
                        + "' has no upstream"@,
                },
            }
        },
    }
}

/// How the selected row of the repo page is fast-forwarded, or why it cannot be.
pub fn pull_route(row: &PageRow, trees: &Vec<WorktreeInfo>, repo_path: &String) -> (res: Result<
    PullVia,
    String,
>)
    ensures
        is_route(res, *row, trees@, *repo_path),
{
    match row.kind {
        PageRowKind::Stash => Err("cannot pull a stash".to_owned()),
        PageRowKind::Worktree => Ok(PullVia::Merge { path: row.path.clone() }),
        PageRowKind::Branch => if row.is_head {
            Ok(PullVia::Merge { path: repo_path.clone() })
        } else {
            match find_worktree(trees, row.branch.as_str()) {
                Some(tree) => Ok(PullVia::Merge { path: tree.path.clone() }),
                None => match &row.upstream {
                    Some(upstream) => Ok(
                        PullVia::Fetch { upstream: upstream.clone(), branch: row.branch.clone() },
                    ),
                    None => Err(cat3("'", row.branch.as_str(), "' has no upstream")),
                },
            }
        },
    }
}

/// The banner after the selected row was fast-forwarded.
pub fn pull_message(branch: &str, result: &Result<PullOutcome, String>) -> (res: String)
    ensures
        res@ == (match *result {
            Ok(PullOutcome::Updated) => "Pulled "@ + branch@,
            Ok(_) => branch@ + " already up to date"@,
            Err(error) => "pull failed: "@ + error@,
        }),
{
    match result {
        Ok(PullOutcome::Updated) => cat("Pulled ", branch),
        Ok(_) => cat(branch, " already up to date"),
        Err(error) => cat("pull failed: ", error.as_str()),
    }
}

/// A status tells what came of the pull.
pub proof fn law_outcomes_become_statuses(outcome: PullOutcome)
    ensures
        status_of(outcome) is UpToDate <==> outcome is AlreadyUpToDate,
        status_of(outcome) is Updated <==> outcome is Updated,
        status_of(outcome) is NoUpstream <==> outcome is NoUpstream,
        status_of(outcome) is Throttled <==> outcome is Throttled,
        status_of(outcome) is Failed <==> outcome is Failed,
{
}

/// A repo with uncommitted changes is skipped and nothing is pulled; one without is pulled.
pub proof fn law_dirty_repos_are_not_pulled(repo: RepoState, dirty: bool, after: RepoState)
    requires
        repo_after(repo, PullPhase::Dirty, PullEvent::Status(dirty), after),
    ensures
        dirty ==> next_phase(PullPhase::Dirty, PullEvent::Status(dirty)) is Over
            && after.status is Skipped && after.branch == repo.branch,
        !dirty ==> next_phase(PullPhase::Dirty, PullEvent::Status(dirty)) == PullPhase::Attempt(0)
            && after == repo,
{
}

/// The first failed attempt is followed by a pause and one more; the second one settles the pull.
/// An attempt that did not fail settles it at once.
pub proof fn law_one_retry(output: String, success: bool)
    ensures
        outcome_of(output@, success) is Failed ==> next_phase(
            PullPhase::Attempt(0),
            PullEvent::Ended(output, success),
        ) == PullPhase::Pause(1),
        next_phase(PullPhase::Pause(1), PullEvent::Waited) == PullPhase::Attempt(1),
        next_phase(PullPhase::Attempt(1), PullEvent::Ended(output, success)) == PullPhase::Settle(
            outcome_of(output@, success),
        ),
        !(outcome_of(output@, success) is Failed) ==> next_phase(
            PullPhase::Attempt(0),
            PullEvent::Ended(output, success),
        ) == PullPhase::Settle(outcome_of(output@, success)),
{
}

/// Once its time was taken, a pull is over, and the repo has the status of what came of it.
pub proof fn law_pull_settles(
    repo: RepoState,
    outcome: PullOutcome,
    elapsed: u64,
    stat: String,
    after: RepoState,
)
    requires
        repo_after(repo, PullPhase::Settle(outcome), PullEvent::Measured(elapsed, stat), after),
    ensures
        next_phase(PullPhase::Settle(outcome), PullEvent::Measured(elapsed, stat)) is Over,
        after.elapsed == Some(elapsed),
        after.status is Failed <==> outcome is Failed,
        after.status is Updated <==> outcome is Updated,
        after.status is UpToDate <==> outcome is AlreadyUpToDate,
        after.status is NoUpstream <==> outcome is NoUpstream,
        after.status is Throttled <==> outcome is Throttled,
        !(outcome is Updated) ==> after.log@ == repo.log@,
        after.name == repo.name,
        after.branch == repo.branch,
{
}

/// A pull asks for the branch first, then for uncommitted changes; until it settles it changes
/// nothing of a repo but its branch, its log, its time and that it runs.
pub proof fn law_pull_steps(
    repo: RepoState,
    event: PullEvent,
    n: u32,
    after: RepoState,
    name: Option<String>,
)
    requires
        repo_after(repo, PullPhase::Attempt(n), event, after),
    ensures
        after.status == repo.status || (event matches PullEvent::Started(pid) && after.status
            == (RepoStatus::Running { pid })),
        event matches PullEvent::Started(pid) ==> after.status == (RepoStatus::Running { pid }),
        event matches PullEvent::Printed(line) ==> after.log@ == logged(repo.log@, line@),
        after.branch == repo.branch,
        after.details == repo.details,
        next_phase(PullPhase::Branch, PullEvent::Named(name)) is Dirty,
{
}

/// Each branch adds one to the tally: to the updated ones only if it was pulled and moved, to the
/// failed ones only if its pull failed, to the skipped ones only if it was not tried for want of
/// an upstream or for its own commits.
pub proof fn law_tally_of_branches(
    before: PullAllSummary,
    step: BranchStep,
    result: Result<PullOutcome, String>,
)
    requires
        before.total() < u32::MAX,
    ensures
        ({
            let after = before.counted(step, result);
            &&& after.total() == before.total() + 1
            &&& after.updated == before.updated + 1 <==> step is Pull && result
                == Ok::<PullOutcome, String>(PullOutcome::Updated)
            &&& after.failed == before.failed + 1 <==> step is Pull && result is Err
            &&& after.skipped == before.skipped + 1 <==> step is Skip
            &&& after.up_to_date == before.up_to_date + 1 <==> step is UpToDate || (step is Pull
                && result is Ok && result->Ok_0 != PullOutcome::Updated)
        }),
{
}

/// What is said once all branches were pulled: how many were updated, were up to date and were
/// skipped, in this order, and how many failed where any did.
pub proof fn law_pulled_branches_are_told(summary: PullAllSummary)
    ensures
        summary.failed == 0 ==> pull_all_text(summary) == "Pulled: "@ + decimal(
            summary.updated as nat,
        ) + " updated, "@ + decimal(summary.up_to_date as nat) + " up-to-date, "@ + decimal(
            summary.skipped as nat,
        ) + " skipped"@,
        summary.failed > 0 ==> pull_all_text(summary) == pull_all_text(
            PullAllSummary { failed: 0, ..summary },
        ) + ", "@ + decimal(summary.failed as nat) + " failed"@,
{
}

/// A repo with changes says why it was skipped.
pub proof fn law_skips_are_told(name: Seq<char>)
    ensures
        skip_note(name) == "⊘ Skipping "@ + name + " (has uncommitted changes)"@,
{
}

} // verus!
