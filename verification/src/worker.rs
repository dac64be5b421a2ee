//! What finished background work does to the state.

use vstd::prelude::*;
use vstd::string::*;

use crate::app::{AppState, Notices};
use crate::calls::{stash_name, stash_ref};
use crate::dialogs::{ConfirmAction, ConfirmDialog, DiffModal, DiffSource};
use crate::options::DiffMode;
use crate::paths::{path_eq, same_path};
use crate::repo::{RepoDetails, RepoState};
use crate::text::{cat, cat5, count_text, decimal};

verus! {

// ---- results of actions on the repo page ----

/// A repo after an action on its page: fresh details where the action succeeded, and the page
/// is to be read again.
pub open spec fn reread(repo: RepoState, details: Option<RepoDetails>) -> RepoState {
    RepoState {
        details: match details {
            Some(details) => Some(details),
            None => repo.details,
        },
        page: None,
        ..repo
    }
}

fn reread_repo(repo: &mut RepoState, details: Option<RepoDetails>)
    ensures
        *final(repo) == reread(*old(repo), details),
{
    match details {
        Some(details) => {
            repo.details = Some(details);
        },
        None => {},
    }
    repo.page = None;
}

/// Sets the banner of the repo page; on success the fresh details replace the old ones, and
/// the page is to be read again.
pub fn finish_repo_mutation(
    app: &mut AppState,
    repo_idx: usize,
    details: Option<RepoDetails>,
    message: String,
)
    requires
        old(app).wf(),
        repo_idx < old(app).repos@.len(),
    ensures
        final(app).wf(),
        final(app).repos@ == old(app).repos@.update(
            repo_idx as int,
            reread(old(app).repos@[repo_idx as int], details),
        ),
        *final(app) == (AppState {
            repos: final(app).repos,
            ..old(app).with_page_message(Some(message))
        }),
{
    reveal(AppState::with_page_message);
    app.set_page_message(Some(message));
    reread_repo(&mut app.repos[repo_idx], details);
}

/// The banner after a checkout.
pub open spec fn checkout_text(branch: Seq<char>, result: Result<(), String>) -> Seq<char> {
    match result {
        Ok(_) => "Checked out "@ + branch,
        Err(error) => "checkout failed: "@ + error@,
    }
}

/// What a checkout of a branch in a repo with uncommitted changes reports.
pub fn checkout_refusal() -> (res: String)
    ensures
        res@ == "working tree has uncommitted changes"@,
{
    "working tree has uncommitted changes".to_owned()
}

/// A repo after a branch was checked out, or could not be.
pub open spec fn switched(
    repo: RepoState,
    branch: String,
    details: Option<RepoDetails>,
) -> RepoState {
    match details {
        Some(details) => RepoState {
            branch: Some(branch),
            details: Some(details),
            page: None,
            ..repo
        },
        None => RepoState { page: None, ..repo },
    }
}

fn switch_repo(repo: &mut RepoState, branch: String, details: Option<RepoDetails>)
    ensures
        *final(repo) == switched(*old(repo), branch, details),
{
    match details {
        Some(details) => {
            repo.branch = Some(branch);
            repo.details = Some(details);
        },
        None => {},
    }
    repo.page = None;
}

/// After a checkout: the banner; and where it succeeded, so that there are fresh details, the
/// repo's branch and details.
pub fn finish_checkout(
    app: &mut AppState,
    repo_idx: usize,
    branch: String,
    result: Result<(), String>,
    details: Option<RepoDetails>,
)
    requires
        old(app).wf(),
        repo_idx < old(app).repos@.len(),
    ensures
        final(app).wf(),
        final(app).page.message is Some,
        final(app).page.message->0@ == checkout_text(branch@, result),
        final(app).repos@ == old(app).repos@.update(
            repo_idx as int,
            switched(old(app).repos@[repo_idx as int], branch, details),
        ),
        *final(app) == (AppState {
            repos: final(app).repos,
            ..old(app).with_page_message(final(app).page.message)
        }),
{
    reveal(AppState::with_page_message);
    let message = match result {
        Ok(_) => cat("Checked out ", branch.as_str()),
        Err(error) => cat("checkout failed: ", error.as_str()),
    };
    app.set_page_message(Some(message));
    switch_repo(&mut app.repos[repo_idx], branch, details);
}

/// The banner after a branch was deleted, or could not be.
pub fn delete_message(branch: &str, result: &Result<(), String>) -> (res: String)
    ensures
        res@ == (match *result {
            Ok(_) => "Deleted "@ + branch@,
            Err(error) => "delete failed: "@ + error@,
        }),
{
    match result {
        Ok(_) => cat("Deleted ", branch),
        Err(error) => cat("delete failed: ", error.as_str()),
    }
}

/// The banner after a stash was dropped, or could not be.
pub fn drop_message(index: usize, result: &Result<(), String>) -> (res: String)
    ensures
        res@ == (match *result {
            Ok(_) => "Dropped "@ + stash_name(index),
            Err(error) => "drop failed: "@ + error@,
        }),
{
    match result {
        Ok(_) => cat("Dropped ", stash_ref(index).as_str()),
        Err(error) => cat("drop failed: ", error.as_str()),
    }
}

/// The banner after a worktree was removed, or could not be.
pub fn remove_message(path: &str, result: &Result<(), String>) -> (res: String)
    ensures
        res@ == (match *result {
            Ok(_) => "Removed worktree "@ + path@,
            Err(error) => "remove failed: "@ + error@,
        }),
{
    match result {
        Ok(_) => cat("Removed worktree ", path),
        Err(error) => cat("remove failed: ", error.as_str()),
    }
}

/// The banner after changes were discarded, or could not be.
pub fn discard_message(result: &Result<(), String>) -> (res: String)
    ensures
        res@ == (match *result {
            Ok(_) => "Discarded uncommitted changes"@,
            Err(error) => "discard failed: "@ + error@,
        }),
{
    match result {
        Ok(_) => "Discarded uncommitted changes".to_owned(),
        Err(error) => cat("discard failed: ", error.as_str()),
    }
}

/// A pull from the repo page begins: the page says that it runs.
pub fn start_pull(repo: &mut RepoState)
    ensures
        *final(repo) == (RepoState { pull_loading: true, ..*old(repo) }),
{
    repo.pull_loading = true;
}

/// Clears the mark that a pull runs, sets the banner and has the page read again.
pub fn finish_pull(app: &mut AppState, repo_idx: usize, message: String)
    requires
        old(app).wf(),
        repo_idx < old(app).repos@.len(),
    ensures
        final(app).wf(),
        final(app).repos@ == old(app).repos@.update(
            repo_idx as int,
            (RepoState {
                pull_loading: false,
                page: None,
                ..old(app).repos@[repo_idx as int]
            }),
        ),
        *final(app) == (AppState {
            repos: final(app).repos,
            ..old(app).with_page_message(Some(message))
        }),
{
    reveal(AppState::with_page_message);
    app.set_page_message(Some(message));
    end_pull(&mut app.repos[repo_idx]);
}

fn end_pull(repo: &mut RepoState)
    ensures
        *final(repo) == (RepoState { pull_loading: false, page: None, ..*old(repo) }),
{
    repo.pull_loading = false;
    repo.page = None;
}

// ---- dialogs that list files ----

/// The dialog before uncommitted changes are discarded.
pub open spec fn is_discard_dialog(
    dialog: ConfirmDialog,
    repo_idx: usize,
    path: String,
    restore: Vec<String>,
    delete: Vec<String>,
) -> bool {
    &&& dialog.message@ == "Discard all uncommitted changes? "@ + decimal(restore@.len())
        + " restored, "@ + decimal(delete@.len()) + " deleted."@
    &&& dialog == (ConfirmDialog {
        message: dialog.message,
        action: ConfirmAction::DiscardChanges { repo_idx, path },
        danger: true,
        restore_files: restore,
        delete_files: delete,
    })
}

/// Once it is known what a discard would touch: asks for confirmation where it would touch
/// anything, and says so in the banner where it would not or cannot be told.
pub fn prepare_discard(
    app: &mut AppState,
    repo_idx: usize,
    path: String,
    status: Result<(Vec<String>, Vec<String>), String>,
)
    requires
        old(app).wf(),
    ensures
        final(app).wf(),
        match status {
            Ok(files) => if files.0@.len() == 0 && files.1@.len() == 0 {
                &&& final(app).page.message is Some
                &&& final(app).page.message->0@ == "nothing to discard"@
                &&& *final(app) == old(app).with_page_message(final(app).page.message)
            } else {
                &&& final(app).overlays.confirm is Some
                &&& is_discard_dialog(
                    final(app).overlays.confirm->0,
                    repo_idx,
                    path,
                    files.0,
                    files.1,
                )
                &&& *final(app) == old(app).with_confirm(final(app).overlays.confirm)
            },
            Err(error) => {
                &&& final(app).page.message is Some
                &&& final(app).page.message->0@ == "discard failed: "@ + error@
                &&& *final(app) == old(app).with_page_message(final(app).page.message)
            },
        },
{
    reveal(AppState::with_page_message);
    reveal(AppState::with_confirm);
    match status {
        Ok((restore, delete)) => {
            if restore.len() == 0 && delete.len() == 0 {
                app.set_page_message(Some("nothing to discard".to_owned()));
            } else {
                let message = cat5(
                    "Discard all uncommitted changes? ",
                    count_text(restore.len()).as_str(),
                    " restored, ",
                    count_text(delete.len()).as_str(),
                    " deleted.",
                );
                app.set_confirm(
                    Some(ConfirmDialog {
                        message,
                        action: ConfirmAction::DiscardChanges { repo_idx, path },
                        danger: true,
                        restore_files: restore,
                        delete_files: delete,
                    }),
                );
            }
        },
        Err(error) => {
            app.set_page_message(Some(cat("discard failed: ", error.as_str())));
        },
    }
}

/// The dialog before a stash is dropped.
pub open spec fn is_drop_dialog(
    dialog: ConfirmDialog,
    repo_idx: usize,
    index: usize,
    files: Vec<String>,
) -> bool {
    &&& dialog.message@ == "Drop "@ + stash_name(index) + "? "@ + decimal(files@.len())
        + " file(s) will be lost."@
    &&& dialog.restore_files@ == Seq::<String>::empty()
    &&& dialog == (ConfirmDialog {
        message: dialog.message,
        action: ConfirmAction::DropStash { repo_idx, index },
        danger: true,
        restore_files: dialog.restore_files,
        delete_files: files,
    })
}

/// Once it is known which files a stash holds: asks for confirmation, listing them as lost.
pub fn prepare_drop_stash(app: &mut AppState, repo_idx: usize, index: usize, files: Vec<String>)
    requires
        old(app).wf(),
    ensures
        final(app).wf(),
        final(app).overlays.confirm is Some,
        is_drop_dialog(final(app).overlays.confirm->0, repo_idx, index, files),
        *final(app) == old(app).with_confirm(final(app).overlays.confirm),
{
    reveal(AppState::with_confirm);
    let message = cat5(
        "Drop ",
        stash_ref(index).as_str(),
        "? ",
        count_text(files.len()).as_str(),
        " file(s) will be lost.",
    );
    app.set_confirm(
        Some(ConfirmDialog {
            message,
            action: ConfirmAction::DropStash { repo_idx, index },
            danger: true,
            restore_files: Vec::new(),
            delete_files: files,
        }),
    );
}

// ---- diffs that arrive ----

/// Whether two sources show the same thing: the same stash, or the same dirty place, or the
/// same branch, in the same directory.
pub open spec fn same_view(a: DiffSource, b: DiffSource) -> bool {
    match (a, b) {
        (
            DiffSource::Stash { path: p, index: i, .. },
            DiffSource::Stash { path: q, index: j, .. },
        ) => i == j && path_eq(p@, q@),
        (DiffSource::Dirty { path: p, .. }, DiffSource::Dirty { path: q, .. }) => path_eq(p@, q@),
        (
            DiffSource::Branch { path: p, name: m },
            DiffSource::Branch { path: q, name: n },
        ) => m@ == n@ && path_eq(p@, q@),
        _ => false,
    }
}

pub(crate) fn shows_same(a: &DiffSource, b: &DiffSource) -> (res: bool)
    ensures
        res == same_view(*a, *b),
{
    match (a, b) {
        (
            DiffSource::Stash { path: p, index: i, .. },
            DiffSource::Stash { path: q, index: j, .. },
        ) => *i == *j && same_path(p.as_str(), q.as_str()),
        (DiffSource::Dirty { path: p, .. }, DiffSource::Dirty { path: q, .. }) => same_path(
            p.as_str(),
            q.as_str(),
        ),
        (DiffSource::Branch { path: p, name: m }, DiffSource::Branch { path: q, name: n }) => {
            crate::text::same(m.as_str(), n.as_str()) && same_path(p.as_str(), q.as_str())
        },
        _ => false,
    }
}

/// The open modal still wants the diff of a source in a mode.
pub open spec fn wants(app: AppState, source: DiffSource, mode: DiffMode) -> bool {
    app.overlays.diff matches Some(modal) && same_view(modal.source, source) && modal.mode == mode
}

fn fill(modal: Option<DiffModal>, lines: Vec<String>) -> (res: Option<DiffModal>)
    ensures
        res == (match modal {
            Some(modal) => Some(
                DiffModal { lines, loading: false, diff_loading: false, ..modal },
            ),
            None => None,
        }),
{
    match modal {
        Some(modal) => {
            let mut modal = modal;
            modal.lines = lines;
            modal.loading = false;
            modal.diff_loading = false;
            Some(modal)
        },
        None => None,
    }
}

/// There is nothing in a diff.
pub open spec fn is_empty_diff(lines: Vec<String>) -> bool {
    lines.deep_view() == seq!["(no changes)"@]
}

fn empty_diff(lines: &Vec<String>) -> (res: bool)
    ensures
        res == is_empty_diff(*lines),
{
    assert(lines@.len() == lines.deep_view().len());
    if lines.len() != 1 {
        return false;
    }
    assert(lines.deep_view()[0] == lines@[0]@);
    let res = crate::text::same(lines[0].as_str(), "(no changes)");
    assert(res ==> lines.deep_view() =~= seq!["(no changes)"@]);
    res
}

/// The state with the diff modal closed for want of anything to show.
pub open spec fn nothing_to_show(before: AppState, after: AppState) -> bool {
    &&& after.notices.toast matches Some(toast) && toast@ == "no changes"@
    &&& after == (AppState {
        notices: Notices { toast: after.notices.toast, ..before.notices },
        ..before.with_diff(None)
    })
}

/// A diff has arrived: it is shown if the modal is still open and still wants this exact view,
/// and dropped otherwise. A notice takes the place of a modal with nothing in it.
pub fn diff_arrived(app: &mut AppState, source: &DiffSource, mode: DiffMode, lines: Vec<String>)
    ensures
        final(app).wf() == old(app).wf(),
        if wants(*old(app), *source, mode) {
            if is_empty_diff(lines) {
                nothing_to_show(*old(app), *final(app))
            } else {
                *final(app) == old(app).with_diff(
                    Some(
                        (DiffModal {
                            lines,
                            loading: false,
                            diff_loading: false,
                            ..old(app).overlays.diff->0
                        }),
                    ),
                )
            }
        } else {
            *final(app) == *old(app)
        },
{
    reveal(AppState::with_diff);
    let wanted = match &app.overlays.diff {
        Some(modal) => shows_same(&modal.source, source) && modal.mode == mode,
        None => false,
    };
    if wanted {
        if empty_diff(&lines) {
            app.overlays.diff = None;
            app.show_toast("no changes".to_owned());
            return;
        }
        let modal = app.overlays.diff.take();
        app.overlays.diff = fill(modal, lines);
    }
}

// ---- what the results mean ----

/// Two diffs are the same exactly if they are of one kind, of one place and of one thing: a stash
/// by its number, a branch by its name, changes by their directory alone.
pub proof fn law_same_diff(path: String, other: String, i: usize, j: usize, m: String, n: String)
    ensures
        same_view(
            DiffSource::Stash { path, index: i, label: m },
            DiffSource::Stash { path: other, index: j, label: n },
        ) <==> i == j && path_eq(path@, other@),
        same_view(DiffSource::Dirty { path, name: m }, DiffSource::Dirty { path: other, name: n })
            <==> path_eq(path@, other@),
        same_view(DiffSource::Branch { path, name: m }, DiffSource::Branch { path: other, name: n })
            <==> m@ == n@ && path_eq(path@, other@),
        !same_view(
            DiffSource::Stash { path, index: i, label: m },
            DiffSource::Dirty { path: other, name: n },
        ),
        !same_view(
            DiffSource::Dirty { path, name: m },
            DiffSource::Branch { path: other, name: n },
        ),
        !same_view(
            DiffSource::Branch { path, name: m },
            DiffSource::Stash { path: other, index: j, label: n },
        ),
{
}

/// A result is shown only in the modal that asked for it: of the same diff in the same mode.
pub proof fn law_only_what_was_asked_for(app: AppState, source: DiffSource, mode: DiffMode)
    ensures
        app.overlays.diff is None ==> !wants(app, source, mode),
        app.overlays.diff matches Some(modal) ==> (wants(app, source, mode) <==> same_view(
            modal.source,
            source,
        ) && modal.mode == mode),
{
}

/// Once something was done in a repo its page is read again; details that could not be read again
/// stay, and a checkout names the new branch only where they could.
pub proof fn law_read_again(repo: RepoState, branch: String, details: Option<RepoDetails>)
    ensures
        reread(repo, details).page is None,
        details is Some ==> reread(repo, details).details == details,
        details is None ==> reread(repo, details).details == repo.details,
        reread(repo, details).branch == repo.branch,
        reread(repo, details).status == repo.status,
        switched(repo, branch, details).page is None,
        details is Some ==> switched(repo, branch, details).branch == Some(branch) && switched(
            repo,
            branch,
            details,
        ).details == details,
        details is None ==> switched(repo, branch, details).branch == repo.branch && switched(
            repo,
            branch,
            details,
        ).details == repo.details,
        switched(repo, branch, details).status == repo.status,
{
}

/// A discard and a dropped stash are always asked about as dangerous, and what is listed as lost
/// is what is lost.
pub proof fn law_lost_files_are_listed(
    dialog: ConfirmDialog,
    repo_idx: usize,
    path: String,
    index: usize,
    restore: Vec<String>,
    delete: Vec<String>,
)
    ensures
        is_discard_dialog(dialog, repo_idx, path, restore, delete) ==> {
            &&& dialog.danger
            &&& dialog.restore_files == restore
            &&& dialog.delete_files == delete
            &&& dialog.action == (ConfirmAction::DiscardChanges { repo_idx, path })
            &&& dialog.message@ == "Discard all uncommitted changes? "@ + decimal(restore@.len())
                + " restored, "@ + decimal(delete@.len()) + " deleted."@
        },
        is_drop_dialog(dialog, repo_idx, index, delete) ==> {
            &&& dialog.danger
            &&& dialog.restore_files@.len() == 0
            &&& dialog.delete_files == delete
            &&& dialog.action == (ConfirmAction::DropStash { repo_idx, index })
            &&& dialog.message@ == "Drop stash@{"@ + decimal(index as nat) + "}? "@ + decimal(
                delete@.len(),
            ) + " file(s) will be lost."@
        },
{
    reveal_strlit("Drop ");
    reveal_strlit("stash@{");
    reveal_strlit("Drop stash@{");
    reveal_strlit("}");
    reveal_strlit("? ");
    reveal_strlit("}? ");
    assert("Drop "@ + stash_name(index) + "? "@ =~= "Drop stash@{"@ + decimal(index as nat)
        + "}? "@);
}

/// What a checkout says: the branch that it went to, or why it did not.
pub proof fn law_checkouts_are_told(branch: Seq<char>, error: String)
    ensures
        checkout_text(branch, Ok(())) == "Checked out "@ + branch,
        checkout_text(branch, Err(error)) == "checkout failed: "@ + error@,
{
}

} // verus!
