//! The flash after a refetch: the cells of a repo's row that changed stand out for a moment.

use vstd::prelude::*;

use crate::repo::{Flash, RepoDetails, RepoState, RepoStatus};
use crate::text::same;

verus! {

/// What a repo's row showed before a refetch.
#[derive(Debug)]
pub struct Shown {
    pub status: RepoStatus,
    pub details: Option<RepoDetails>,
    /// The number of its worktrees.
    pub worktrees: usize,
}

/// The cells that changed. What was not known before does not count as changed.
pub open spec fn changed_cells(
    before: Shown,
    status: RepoStatus,
    details: RepoDetails,
    worktrees: usize,
) -> Flash {
    let known = before.details is Some;
    let old = before.details->0;
    Flash {
        status: before.status.kind() != status.kind(),
        ahead_behind: known && (old.ahead != details.ahead || old.behind != details.behind),
        dirty: known && old.dirty_count != details.dirty_count,
        last_commit: known && old.commit_hash@ != details.commit_hash@,
        worktrees: before.worktrees != worktrees,
        branches: known && old.branch_count != details.branch_count,
        stashes: known && old.stash_count != details.stash_count,
    }
}

/// A refetched repo's details have arrived: the cells that changed start to flash.
pub fn refetched(repo: &mut RepoState, before: &Shown, details: RepoDetails, worktrees: usize)
    ensures
        *final(repo) == (RepoState {
            details: Some(details),
            flash: changed_cells(*before, old(repo).status, details, worktrees),
            flash_on: true,
            ..*old(repo)
        }),
{
    let mut flash = Flash::none();
    flash.status = before.status.kind_of() != repo.status.kind_of();
    flash.worktrees = before.worktrees != worktrees;
    match &before.details {
        Some(old) => {
            flash.ahead_behind = old.ahead != details.ahead || old.behind != details.behind;
            flash.dirty = old.dirty_count != details.dirty_count;
            flash.last_commit = !same(old.commit_hash.as_str(), details.commit_hash.as_str());
            flash.branches = old.branch_count != details.branch_count;
            flash.stashes = old.stash_count != details.stash_count;
        },
        None => {},
    }
    repo.details = Some(details);
    repo.flash = flash;
    repo.flash_on = true;
}

/// The cells that flash stand out, or do not, at the moment.
pub fn pulse(repo: &mut RepoState, on: bool)
    ensures
        *final(repo) == (RepoState { flash_on: on, ..*old(repo) }),
{
    repo.flash_on = on;
}

/// Whether changed cells are shown reversed at a turn: at every other one, and not at the last.
pub fn flash_shown(turn: u32, turns: u32) -> (res: bool)
    ensures
        res == (turn < turns && turn % 2 == 0),
{
    turn < turns && turn % 2 == 0
}

/// A refetch that finds what was there before flashes nothing.
pub proof fn law_nothing_new_flashes_nothing(before: Shown, details: RepoDetails, worktrees: usize)
    requires
        before.details == Some(details),
        before.worktrees == worktrees,
    ensures
        changed_cells(before, before.status, details, worktrees) == crate::repo::no_flash(),
{
}

/// A cell stands out exactly if what it shows changed; what was not known before did not.
pub proof fn law_changed_cells_flash(
    before: Shown,
    status: RepoStatus,
    details: RepoDetails,
    worktrees: usize,
    old: RepoDetails,
)
    ensures
        before.details == Some(old) ==> {
            let flash = changed_cells(before, status, details, worktrees);
            &&& flash.ahead_behind <==> old.ahead != details.ahead || old.behind != details.behind
            &&& flash.dirty <==> old.dirty_count != details.dirty_count
            &&& flash.last_commit <==> old.commit_hash@ != details.commit_hash@
            &&& flash.branches <==> old.branch_count != details.branch_count
            &&& flash.stashes <==> old.stash_count != details.stash_count
        },
        before.details is None ==> {
            let flash = changed_cells(before, status, details, worktrees);
            &&& !flash.ahead_behind && !flash.dirty && !flash.last_commit
            &&& !flash.branches && !flash.stashes
        },
        changed_cells(before, status, details, worktrees).worktrees <==> before.worktrees
            != worktrees,
        before.status is Running && status is Running ==> !changed_cells(
            before,
            status,
            details,
            worktrees,
        ).status,
        before.status !is Running && status !is Running ==> (changed_cells(
            before,
            status,
            details,
            worktrees,
        ).status <==> before.status != status),
{
}

} // verus!
