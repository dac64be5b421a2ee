//! The changed files of the diff modal: reading git's lists of them, and the diff of one of them.

use vstd::prelude::*;

use crate::app::AppState;
use crate::calls::GitCall;
use crate::details::with_base_note;
use crate::dialogs::{DiffFile, DiffModal, DiffSource};
use crate::options::DiffMode;
use crate::text::{chars_of, lines_of, pieces, same, split, text_between, text_lines, Separator};
use crate::worker::{nothing_to_show, shows_same, wants};

verus! {

/// A changed file: its status, its path, and whether git does not know it.
pub type FileView = (Seq<char>, Seq<char>, bool);

impl DeepView for DiffFile {
    type V = FileView;

    open spec fn deep_view(&self) -> FileView {
        (self.status@, self.path@, self.untracked)
    }
}

/// The fields of a line of `git diff --name-status`.
pub open spec fn fields(line: Seq<char>) -> Seq<Seq<char>> {
    pieces(line, Separator::One('\t'))
}

/// The file that a line of `git diff --name-status` tells: the letter of its status, and the
/// last of its paths, which for a renamed file is the new one.
pub open spec fn file_of(line: Seq<char>) -> FileView {
    (fields(line)[0].take(1), fields(line).last(), false)
}

/// A line tells of a file: it has a status and a path.
pub open spec fn tells_file(line: Seq<char>) -> bool {
    fields(line).len() >= 2 && fields(line)[0].len() > 0
}

/// The files that the first `n` lines tell of.
pub open spec fn files_upto(lines: Seq<Seq<char>>, n: nat) -> Seq<FileView>
    decreases n,
{
    if n == 0 || n > lines.len() {
        Seq::empty()
    } else if tells_file(lines[n - 1]) {
        files_upto(lines, (n - 1) as nat).push(file_of(lines[n - 1]))
    } else {
        files_upto(lines, (n - 1) as nat)
    }
}

fn read_file(line: &str) -> (res: Option<DiffFile>)
    ensures
        match res {
            Some(file) => tells_file(line@) && file.deep_view() == file_of(line@),
            None => !tells_file(line@),
        },
{
    let parts = split(line, Separator::One('\t'));
    assert(parts.deep_view().len() == parts@.len());
    assert(parts.deep_view()[0] == parts@[0]@);
    let last: usize = parts.len() - 1;
    assert(parts.deep_view()[last as int] == parts@[last as int]@);
    let status = chars_of(parts[0].as_str());
    if parts.len() < 2 || status.len() == 0 {
        return None;
    }
    let letter = text_between(&status, 0, 1);
    assert(letter@ =~= fields(line@)[0].take(1));
    Some(DiffFile { status: letter, path: parts[last].clone(), untracked: false })
}

/// The files that `git diff --name-status` lists.
pub fn parse_name_status(stdout: &str) -> (res: Vec<DiffFile>)
    ensures
        res.deep_view() == files_upto(text_lines(stdout@), text_lines(stdout@).len()),
{
    let lines = lines_of(stdout);
    let ghost all = lines.deep_view();
    let mut out: Vec<DiffFile> = Vec::new();
    let mut i: usize = 0;
    assert(out.deep_view() =~= files_upto(all, 0));
    while i < lines.len()
        invariant
            i <= lines@.len(),
            all == lines.deep_view(),
            out.deep_view() == files_upto(all, i as nat),
        decreases lines@.len() - i,
    {
        assert(all[i as int] == lines@[i as int]@);
        match read_file(lines[i].as_str()) {
            Some(file) => {
                let ghost before = out.deep_view();
                out.push(file);
                assert(out.deep_view() =~= before.push(file_of(all[i as int])));
            },
            None => {},
        }
        i += 1;
    }
    out
}

/// A file that git does not know.
pub open spec fn unknown_file(path: Seq<char>) -> FileView {
    ("?"@, path, true)
}

/// The files with those after them that git does not know.
pub fn with_untracked(files: Vec<DiffFile>, paths: &Vec<String>) -> (res: Vec<DiffFile>)
    ensures
        res.deep_view() == files.deep_view() + paths.deep_view().map_values(
            |path: Seq<char>| unknown_file(path),
        ),
{
    let ghost first = files.deep_view();
    let mut out = files;
    let mut i: usize = 0;
    assert(out.deep_view() =~= first + paths.deep_view().take(0).map_values(
        |path: Seq<char>| unknown_file(path),
    ));
    while i < paths.len()
        invariant
            i <= paths@.len(),
            out.deep_view() == first + paths.deep_view().take(i as int).map_values(
                |path: Seq<char>| unknown_file(path),
            ),
        decreases paths@.len() - i,
    {
        let ghost before = out.deep_view();
        assert(paths.deep_view()[i as int] == paths@[i as int]@);
        out.push(DiffFile { status: "?".to_owned(), path: paths[i].clone(), untracked: true });
        assert(out.deep_view() =~= before.push(unknown_file(paths@[i as int]@)));
        assert(paths.deep_view().take(i + 1) =~= paths.deep_view().take(i as int).push(
            paths.deep_view()[i as int],
        ));
        assert(out.deep_view() =~= first + paths.deep_view().take(i + 1).map_values(
            |path: Seq<char>| unknown_file(path),
        ));
        i += 1;
    }
    assert(paths.deep_view().take(i as int) =~= paths.deep_view());
    out
}

/// The modal compares with the base branch, and not with HEAD or the parent of a stash.
pub open spec fn against_base(source: DiffSource, mode: DiffMode) -> bool {
    match source {
        DiffSource::Stash { .. } => false,
        DiffSource::Dirty { .. } => mode is BaseBranch,
        DiffSource::Branch { .. } => true,
    }
}

/// Whether the modal compares with the base branch.
pub fn needs_base(source: &DiffSource, mode: DiffMode) -> (res: bool)
    ensures
        res == against_base(*source, mode),
        *source is Branch ==> res,
        *source is Stash ==> !res,
        *source is Dirty ==> res == (mode is BaseBranch),
{
    match source {
        DiffSource::Stash { .. } => false,
        DiffSource::Dirty { .. } => match mode {
            DiffMode::BaseBranch => true,
            DiffMode::Uncommitted => false,
        },
        DiffSource::Branch { .. } => true,
    }
}

/// The commit that the files are compared with.
pub open spec fn compared_with(source: DiffSource, mode: DiffMode, start: Seq<char>) -> Seq<char> {
    if against_base(source, mode) {
        start
    } else {
        "HEAD"@
    }
}

/// A branch is compared with the commit where it left its base, whatever the mode. A dirty row is
/// compared with that commit when the base is asked for, and else with HEAD. A stash never is.
pub proof fn law_what_is_compared(source: DiffSource, mode: DiffMode, start: Seq<char>)
    ensures
        source is Branch ==> against_base(source, mode) && compared_with(source, mode, start)
            == start,
        source is Dirty && mode is BaseBranch ==> against_base(source, mode) && compared_with(
            source,
            mode,
            start,
        ) == start,
        source is Dirty && mode is Uncommitted ==> !against_base(source, mode) && compared_with(
            source,
            mode,
            start,
        ) == "HEAD"@,
        source is Stash ==> !against_base(source, mode),
{
}

/// The call that lists the files of a source; `start` is where HEAD left its base.
pub fn files_call(source: &DiffSource, mode: DiffMode, start: &str) -> (res: GitCall)
    ensures
        match *source {
            DiffSource::Stash { index, .. } => res == (GitCall::StashChanges { index }),
            _ => res matches GitCall::ChangedFiles { commit } && commit@ == compared_with(
                *source,
                mode,
                start@,
            ),
        },
        *source is Branch ==> (res matches GitCall::ChangedFiles { commit } && commit@ == start@),
        *source is Dirty && mode is BaseBranch ==> (res matches GitCall::ChangedFiles { commit }
            && commit@ == start@),
        *source is Dirty && mode is Uncommitted ==> (res matches GitCall::ChangedFiles { commit }
            && commit@ == "HEAD"@),
{
    match source {
        DiffSource::Stash { index, .. } => GitCall::StashChanges { index: *index },
        _ => GitCall::ChangedFiles {
            commit: if needs_base(source, mode) {
                start.to_owned()
            } else {
                "HEAD".to_owned()
            },
        },
    }
}

/// The call that shows one file of a source; `start` is where HEAD left its base.
pub fn file_call(source: &DiffSource, mode: DiffMode, start: &str, file: &DiffFile) -> (res:
    GitCall)
    ensures
        if file.untracked {
            res == (GitCall::NewFileDiff { path: file.path })
        } else {
            match *source {
                DiffSource::Stash { index, .. } => res == (GitCall::StashFileDiff {
                    index,
                    path: file.path,
                }),
                _ => res matches GitCall::FileDiff { commit, path } && path@ == file.path@
                    && commit@ == compared_with(*source, mode, start@),
            }
        },
        *source is Branch && !file.untracked ==> (res matches GitCall::FileDiff { commit, path }
            && path@ == file.path@ && commit@ == start@),
        *source is Dirty && mode is BaseBranch && !file.untracked ==> (
        res matches GitCall::FileDiff { commit, path } && path@ == file.path@ && commit@ == start@),
        *source is Dirty && mode is Uncommitted && !file.untracked ==> (
        res matches GitCall::FileDiff { commit, path } && path@ == file.path@ && commit@
            == "HEAD"@),
{
    if file.untracked {
        return GitCall::NewFileDiff { path: file.path.clone() };
    }
    match source {
        DiffSource::Stash { index, .. } => GitCall::StashFileDiff {
            index: *index,
            path: file.path.clone(),
        },
        _ => GitCall::FileDiff {
            commit: if needs_base(source, mode) {
                start.to_owned()
            } else {
                "HEAD".to_owned()
            },
            path: file.path.clone(),
        },
    }
}

/// The call that shows the whole diff of a source; `start` is where HEAD left its base.
pub fn whole_call(source: &DiffSource, mode: DiffMode, start: &str) -> (res: GitCall)
    ensures
        match *source {
            DiffSource::Stash { index, .. } => res == (GitCall::StashDiff { index }),
            _ => if against_base(*source, mode) {
                res matches GitCall::DiffFrom { commit } && commit@ == start@
            } else {
                res == GitCall::UncommittedDiff
            },
        },
        *source is Branch ==> (res matches GitCall::DiffFrom { commit } && commit@ == start@),
        *source is Dirty && mode is BaseBranch ==> (res matches GitCall::DiffFrom { commit }
            && commit@ == start@),
        *source is Dirty && mode is Uncommitted ==> res == GitCall::UncommittedDiff,
{
    match source {
        DiffSource::Stash { index, .. } => GitCall::StashDiff { index: *index },
        _ => if needs_base(source, mode) {
            GitCall::DiffFrom { commit: start.to_owned() }
        } else {
            GitCall::UncommittedDiff
        },
    }
}

/// The lines of a whole diff, which name the base where there is one.
pub fn whole_lines(base: Option<&str>, lines: Vec<String>) -> (res: Vec<String>)
    ensures
        match base {
            Some(base) => res.deep_view() == seq!["(vs base branch: "@ + base@ + ")"@] + lines.deep_view(),
            None => res == lines,
        },
{
    match base {
        Some(base) => with_base_note(base, lines),
        None => lines,
    }
}

/// The open modal with a list of files: the first one is selected, and its diff is awaited.
pub open spec fn listed_files(modal: DiffModal, files: Vec<DiffFile>) -> DiffModal {
    DiffModal { files, selected: 0, file_scroll: 0, loading: false, diff_loading: true, ..modal }
}

fn list_files(modal: Option<DiffModal>, files: Vec<DiffFile>) -> (res: Option<DiffModal>)
    ensures
        res == (match modal {
            Some(modal) => Some(listed_files(modal, files)),
            None => None,
        }),
{
    match modal {
        Some(modal) => {
            let mut modal = modal;
            modal.files = files;
            modal.selected = 0;
            modal.file_scroll = 0;
            modal.loading = false;
            modal.diff_loading = true;
            Some(modal)
        },
        None => None,
    }
}

/// The files of a source have arrived: they are listed if the modal is still open and still
/// wants this exact view, and the diff of the first one is due, which the result tells. A notice
/// takes the place of a modal with no files.
pub fn files_arrived(app: &mut AppState, source: &DiffSource, mode: DiffMode, files: Vec<DiffFile>)
    -> (res: bool)
    ensures
        final(app).wf() == old(app).wf(),
        res == (wants(*old(app), *source, mode) && files@.len() > 0),
        if !wants(*old(app), *source, mode) {
            *final(app) == *old(app)
        } else if files@.len() == 0 {
            nothing_to_show(*old(app), *final(app))
        } else {
            *final(app) == old(app).with_diff(
                Some(listed_files(old(app).overlays.diff->0, files)),
            )
        },
{
    reveal(AppState::with_diff);
    let wanted = match &app.overlays.diff {
        Some(modal) => shows_same(&modal.source, source) && modal.mode == mode,
        None => false,
    };
    if !wanted {
        return false;
    }
    if files.len() == 0 {
        app.overlays.diff = None;
        app.show_toast("no changes".to_owned());
        return false;
    }
    let modal = app.overlays.diff.take();
    app.overlays.diff = list_files(modal, files);
    true
}

/// The open modal still wants the diff of a file: the one that is selected.
pub open spec fn wants_file(
    app: AppState,
    source: DiffSource,
    mode: DiffMode,
    path: Seq<char>,
) -> bool {
    wants(app, source, mode) && {
        let modal = app.overlays.diff->0;
        modal.selected < modal.files@.len() && modal.files@[modal.selected as int].path@ == path
    }
}

/// The diff of a file has arrived: it is shown if the modal still wants it, and dropped
/// otherwise.
pub fn file_arrived(
    app: &mut AppState,
    source: &DiffSource,
    mode: DiffMode,
    path: &str,
    lines: Vec<String>,
)
    ensures
        final(app).wf() == old(app).wf(),
        *final(app) == (if wants_file(*old(app), *source, mode, path@) {
            old(app).with_diff(
                Some((DiffModal { lines, diff_loading: false, ..old(app).overlays.diff->0 })),
            )
        } else {
            *old(app)
        }),
{
    reveal(AppState::with_diff);
    let wanted = match &app.overlays.diff {
        Some(modal) => shows_same(&modal.source, source) && modal.mode == mode && modal.selected
            < modal.files.len() && same(modal.files[modal.selected].path.as_str(), path),
        None => false,
    };
    if wanted {
        match app.overlays.diff.take() {
            Some(modal) => {
                let mut modal = modal;
                modal.lines = lines;
                modal.diff_loading = false;
                app.overlays.diff = Some(modal);
            },
            None => {},
        }
    }
}

proof fn lemma_files_read(lines: Seq<Seq<char>>, n: nat)
    requires
        n <= lines.len(),
    ensures
        files_upto(lines, n) =~= lines.take(n as int).filter(
            |line: Seq<char>| fields(line).len() >= 2 && fields(line)[0].len() > 0,
        ).map_values(
            |line: Seq<char>| (fields(line)[0].take(1), fields(line)[fields(line).len() - 1], false),
        ),
    decreases n,
{
    reveal(Seq::filter);
    if n > 0 {
        lemma_files_read(lines, (n - 1) as nat);
        assert(lines.take(n as int).drop_last() =~= lines.take(n - 1));
        assert(lines.take(n as int).last() == lines[n - 1]);
    } else {
        assert(lines.take(0) =~= Seq::empty());
    }
}

/// A changed file is read from each line with a status and a path, in their order: its status is
/// the first letter, its path the last field, the new one where it was renamed. A file unknown to
/// git has the status `?`.
pub proof fn law_changed_files_are_read(lines: Seq<Seq<char>>, path: Seq<char>)
    ensures
        files_upto(lines, lines.len()) == lines.filter(
            |line: Seq<char>| fields(line).len() >= 2 && fields(line)[0].len() > 0,
        ).map_values(
            |line: Seq<char>| (fields(line)[0].take(1), fields(line)[fields(line).len() - 1], false),
        ),
        unknown_file(path) == ("?"@, path, true),
{
    lemma_files_read(lines, lines.len());
    assert(lines.take(lines.len() as int) =~= lines);
}

/// The diff of a file is shown only while that file is selected in the modal that asked for it.
pub proof fn law_only_the_selected_file(
    app: AppState,
    source: DiffSource,
    mode: DiffMode,
    path: Seq<char>,
    modal: DiffModal,
)
    requires
        app.overlays.diff == Some(modal),
    ensures
        wants_file(app, source, mode, path) <==> wants(app, source, mode) && modal.selected
            < modal.files@.len() && modal.files@[modal.selected as int].path@ == path,
{
}

/// New files start at the first, and their list is no longer being fetched.
pub proof fn law_new_files_start_at_the_first(modal: DiffModal, files: Vec<DiffFile>)
    ensures
        listed_files(modal, files).files == files,
        listed_files(modal, files).selected == 0 && listed_files(modal, files).file_scroll == 0,
        !listed_files(modal, files).loading && listed_files(modal, files).diff_loading,
        listed_files(modal, files).source == modal.source && listed_files(modal, files).mode
            == modal.mode && listed_files(modal, files).focus == modal.focus,
{
}

} // verus!
