//! Facts gathered from several git commands: details, stashes, diffs and discards.

use vstd::prelude::*;
use vstd::string::*;

use crate::calls::GitCall;
use crate::git::{nth, parse_ahead_behind, parse_commit_line, unit_fields, word_number};
use crate::repo::{BranchInfo, RepoDetails, RepoPageData, StashInfo, WorktreeInfo};
use crate::text::{
    blank, byte_len, bytes_of, cat3, char_boundary, chars_in_bytes, chars_of, cut_end, cut_once,
    is_blank, lines_of, nonempty, pieces, same, split_once, text_between, text_lines, trim, trimmed,
    Separator,
};

verus! {

// ---- counting lines ----

/// How many of the first `n` lines are not blank.
pub open spec fn told_upto(lines: Seq<Seq<char>>, n: nat) -> nat
    decreases n,
{
    if n == 0 || n > lines.len() {
        0
    } else {
        told_upto(lines, (n - 1) as nat) + if is_blank(lines[n - 1]) {
            0nat
        } else {
            1nat
        }
    }
}

/// How many lines of a text are not blank.
pub open spec fn told(text: Seq<char>) -> nat {
    told_upto(text_lines(text), text_lines(text).len())
}

fn count_told(text: &str) -> (res: u32)
    ensures
        res == told(text@) as u32,
{
    let lines = lines_of(text);
    let ghost all = lines.deep_view();
    let mut n: usize = 0;
    let mut i: usize = 0;
    while i < lines.len()
        invariant
            n <= i <= lines@.len(),
            all == lines.deep_view(),
            n == told_upto(all, i as nat),
        decreases lines@.len() - i,
    {
        assert(all[i as int] == lines@[i as int]@);
        if !blank(lines[i].as_str()) {
            n += 1;
        }
        i += 1;
    }
    n as u32
}

/// A branch that does not count as a feature branch.
pub open spec fn excluded(name: Seq<char>) -> bool {
    name == "main"@ || name == "dev"@
}

/// How many of the first `n` lines name a feature branch.
pub open spec fn features_upto(lines: Seq<Seq<char>>, n: nat) -> nat
    decreases n,
{
    if n == 0 || n > lines.len() {
        0
    } else {
        let name = trimmed(lines[n - 1]);
        features_upto(lines, (n - 1) as nat) + if name.len() > 0 && !excluded(name) {
            1nat
        } else {
            0nat
        }
    }
}

/// How many lines of a text name a feature branch.
pub open spec fn features(text: Seq<char>) -> nat {
    features_upto(text_lines(text), text_lines(text).len())
}

fn count_features(text: &str) -> (res: u32)
    ensures
        res == features(text@) as u32,
{
    let lines = lines_of(text);
    let ghost all = lines.deep_view();
    let mut n: usize = 0;
    let mut i: usize = 0;
    while i < lines.len()
        invariant
            n <= i <= lines@.len(),
            all == lines.deep_view(),
            n == features_upto(all, i as nat),
        decreases lines@.len() - i,
    {
        assert(all[i as int] == lines@[i as int]@);
        let name = trim(lines[i].as_str());
        if !name.as_str().is_empty() && !same(name.as_str(), "main") && !same(name.as_str(), "dev") {
            n += 1;
        }
        i += 1;
    }
    n as u32
}

/// What the five git commands behind the info panel printed; `None` for one that could not be
/// run or, where its success counts, failed.
pub struct DetailOutputs {
    /// `git log -1`, on success.
    pub log: Option<String>,
    /// `git rev-list --left-right --count`, on success.
    pub counts: Option<String>,
    /// `git status --porcelain`, whatever its exit.
    pub status: Option<String>,
    /// `git stash list`, whatever its exit.
    pub stashes: Option<String>,
    /// `git for-each-ref refs/heads`, on success.
    pub heads: Option<String>,
}

/// The details that the outputs tell; a missing output leaves its facts empty.
pub open spec fn is_details(details: RepoDetails, outputs: DetailOutputs) -> bool {
    let commit = match outputs.log {
        Some(log) => unit_fields(cut_end(log@, "\n\r"@)),
        None => Seq::empty(),
    };
    let counts = match outputs.counts {
        Some(text) => nonempty(pieces(text@, Separator::Space)),
        None => Seq::empty(),
    };
    &&& details.commit_hash@ == nth(commit, 0)
    &&& details.commit_subject@ == nth(commit, 1)
    &&& details.commit_author@ == nth(commit, 2)
    &&& details.commit_rel_date@ == nth(commit, 3)
    &&& details.behind == word_number(counts, 0)
    &&& details.ahead == word_number(counts, 1)
    &&& details.dirty_count == (match outputs.status {
        Some(text) => told(text@) as u32,
        None => 0u32,
    })
    &&& details.stash_count == (match outputs.stashes {
        Some(text) => told(text@) as u32,
        None => 0u32,
    })
    &&& details.branch_count == (match outputs.heads {
        Some(text) => features(text@) as u32,
        None => 0u32,
    })
}

/// The info-panel details for one repo: last commit, ahead/behind vs upstream, dirty file
/// count, stash count and feature-branch count.
pub fn repo_details(outputs: &DetailOutputs) -> (res: RepoDetails)
    ensures
        is_details(res, *outputs),
{
    let (hash, subject, author, rel_date) = match &outputs.log {
        Some(log) => parse_commit_line(log.as_str()),
        None => (String::new(), String::new(), String::new(), String::new()),
    };
    let (behind, ahead) = match &outputs.counts {
        Some(text) => parse_ahead_behind(text.as_str()),
        None => (None, None),
    };
    RepoDetails {
        ahead,
        behind,
        dirty_count: match &outputs.status {
            Some(text) => count_told(text.as_str()),
            None => 0,
        },
        stash_count: match &outputs.stashes {
            Some(text) => count_told(text.as_str()),
            None => 0,
        },
        branch_count: match &outputs.heads {
            Some(text) => count_features(text.as_str()),
            None => 0,
        },
        commit_hash: hash,
        commit_subject: subject,
        commit_author: author,
        commit_rel_date: rel_date,
    }
}

// ---- stashes ----

/// The stashes, numbered from the newest, that the first `n` lines of `git stash list` tell.
pub open spec fn stashes_upto(lines: Seq<Seq<char>>, n: nat) -> Seq<(usize, Seq<char>)>
    decreases n,
{
    if n == 0 || n > lines.len() {
        Seq::empty()
    } else {
        let before = stashes_upto(lines, (n - 1) as nat);
        if is_blank(lines[n - 1]) {
            before
        } else {
            before.push((before.len() as usize, lines[n - 1]))
        }
    }
}

/// The stash entries of `git stash list --format=%gs`, newest (`stash@{0}`) first.
pub fn parse_stash_list(stdout: &str) -> (res: Vec<StashInfo>)
    ensures
        res.deep_view() == stashes_upto(text_lines(stdout@), text_lines(stdout@).len()),
{
    let lines = lines_of(stdout);
    let ghost all = lines.deep_view();
    let mut out: Vec<StashInfo> = Vec::new();
    let mut i: usize = 0;
    assert(out.deep_view() =~= stashes_upto(all, 0));
    while i < lines.len()
        invariant
            i <= lines@.len(),
            all == lines.deep_view(),
            out.deep_view() == stashes_upto(all, i as nat),
        decreases lines@.len() - i,
    {
        assert(all[i as int] == lines@[i as int]@);
        if !blank(lines[i].as_str()) {
            let ghost before = out.deep_view();
            let index: usize = out.len();
            out.push(StashInfo { index, label: lines[i].clone() });
            assert(out.deep_view() =~= before.push((index, all[i as int])));
        }
        i += 1;
    }
    out
}

/// The lines among the first `n` that are not empty.
pub open spec fn filled_upto(lines: Seq<Seq<char>>, n: nat) -> Seq<Seq<char>>
    decreases n,
{
    if n == 0 || n > lines.len() {
        Seq::empty()
    } else if lines[n - 1].len() > 0 {
        filled_upto(lines, (n - 1) as nat).push(lines[n - 1])
    } else {
        filled_upto(lines, (n - 1) as nat)
    }
}

/// What reading the files of a stash gives: the files that `git stash show --name-only` lists,
/// or the trimmed error output.
pub fn stash_files_result(success: bool, stdout: &str, stderr: &str) -> (res: Result<
    Vec<String>,
    String,
>)
    ensures
        match res {
            Ok(files) => success && files.deep_view() == filled_upto(
                text_lines(stdout@),
                text_lines(stdout@).len(),
            ),
            Err(error) => !success && error@ == trimmed(stderr@),
        },
{
    if !success {
        return Err(trim(stderr));
    }
    let lines = lines_of(stdout);
    let ghost all = lines.deep_view();
    let mut out: Vec<String> = Vec::new();
    let mut i: usize = 0;
    while i < lines.len()
        invariant
            i <= lines@.len(),
            all == lines.deep_view(),
            out.deep_view() =~= filled_upto(all, i as nat),
        decreases lines@.len() - i,
    {
        assert(all[i as int] == lines@[i as int]@);
        if !lines[i].as_str().is_empty() {
            out.push(lines[i].clone());
        }
        i += 1;
    }
    Ok(out)
}

// ---- diffs ----

/// The lines of a diff; a note where there are none.
pub open spec fn diff_text(stdout: Seq<char>) -> Seq<Seq<char>> {
    if text_lines(stdout).len() == 0 {
        seq!["(no changes)"@]
    } else {
        text_lines(stdout)
    }
}

fn note(text: &str) -> (res: Vec<String>)
    ensures
        res.deep_view() == seq![text@],
{
    let mut lines: Vec<String> = Vec::new();
    lines.push(text.to_owned());
    assert(lines.deep_view() =~= seq![text@]);
    lines
}

/// The lines of a diff; a note where there are none.
pub fn diff_lines(stdout: &str) -> (res: Vec<String>)
    ensures
        res.deep_view() == diff_text(stdout@),
{
    let lines = lines_of(stdout);
    assert(lines@.len() == lines.deep_view().len());
    if lines.len() == 0 {
        note("(no changes)")
    } else {
        lines
    }
}

/// What a diff command that could not be run shows.
pub fn diff_unavailable() -> (res: Vec<String>)
    ensures
        res.deep_view() == seq!["(diff unavailable)"@],
{
    note("(diff unavailable)")
}

/// The note on a diff command that failed.
pub open spec fn failure_note(stderr: Seq<char>) -> Seq<char> {
    if trimmed(stderr).len() == 0 {
        "(diff unavailable)"@
    } else {
        "(diff failed: "@ + trimmed(stderr) + ")"@
    }
}

/// What a diff command shows: its output, or a note on its failure.
pub fn diff_result(success: bool, stdout: &str, stderr: &str) -> (res: Vec<String>)
    ensures
        res.deep_view() == (if success {
            diff_text(stdout@)
        } else {
            seq![failure_note(stderr@)]
        }),
{
    if success {
        return diff_lines(stdout);
    }
    let error = trim(stderr);
    if error.as_str().is_empty() {
        note("(diff unavailable)")
    } else {
        note(cat3("(diff failed: ", error.as_str(), ")").as_str())
    }
}

/// The refs that may serve as base branch, best first.
pub open spec fn base_names() -> Seq<Seq<char>> {
    seq!["origin/main"@, "origin/master"@, "origin/dev"@, "main"@, "master"@, "dev"@]
}

/// The refs that may serve as base branch, best first.
pub fn base_candidates() -> (res: Vec<String>)
    ensures
        res.deep_view() == base_names(),
{
    let mut names: Vec<String> = Vec::new();
    names.push("origin/main".to_owned());
    names.push("origin/master".to_owned());
    names.push("origin/dev".to_owned());
    names.push("main".to_owned());
    names.push("master".to_owned());
    names.push("dev".to_owned());
    assert(names.deep_view() =~= base_names());
    names
}

/// The remote's default branch, where `git symbolic-ref` names one.
pub fn remote_default(success: bool, stdout: &str) -> (res: Option<String>)
    ensures
        match res {
            Some(head) => success && trimmed(stdout@).len() > 0 && head@ == trimmed(stdout@),
            None => !success || trimmed(stdout@).len() == 0,
        },
{
    let head = trim(stdout);
    if success && !head.as_str().is_empty() {
        Some(head)
    } else {
        None
    }
}

/// The first place from `from` on that is marked.
pub open spec fn first_marked(marks: Seq<bool>, from: int) -> Option<int>
    decreases marks.len() - from,
{
    if from < 0 || from >= marks.len() {
        None
    } else if marks[from] {
        Some(from)
    } else {
        first_marked(marks, from + 1)
    }
}

/// The base branch of a repo: the remote's default branch, or else the first of the usual names
/// that exists; `exist` tells of each whether it does.
pub fn default_base(remote: Option<String>, exist: &Vec<bool>) -> (res: Option<String>)
    requires
        exist@.len() <= base_names().len(),
    ensures
        match remote {
            Some(head) => res == Some(head),
            None => match first_marked(exist@, 0) {
                Some(k) => res is Some && res->0@ == base_names()[k],
                None => res is None,
            },
        },
{
    if remote.is_some() {
        return remote;
    }
    let names = base_candidates();
    assert(names@.len() == names.deep_view().len());
    let mut i: usize = 0;
    while i < exist.len()
        invariant
            i <= exist@.len(),
            exist@.len() <= names@.len(),
            names.deep_view() == base_names(),
            remote is None,
            first_marked(exist@, 0) == first_marked(exist@, i as int),
        decreases exist@.len() - i,
    {
        if exist[i] {
            assert(names.deep_view()[i as int] == names@[i as int]@);
            return Some(names[i].clone());
        }
        i += 1;
    }
    None
}

/// The call behind the diff of the right pane: the changes in the working tree, or what the last
/// pull brought where there are none.
pub fn repo_diff_call(dirty: bool) -> (res: GitCall)
    ensures
        res == (if dirty {
            GitCall::Diff
        } else {
            GitCall::PulledDiff
        }),
{
    if dirty {
        GitCall::Diff
    } else {
        GitCall::PulledDiff
    }
}

/// The commit that a base-branch diff starts from: where HEAD left the base, or the base
/// itself where that is not known.
pub fn diff_start(success: bool, merge_base: &str, base: &str) -> (res: String)
    ensures
        res@ == (if success {
            trimmed(merge_base@)
        } else {
            base@
        }),
{
    if success {
        trim(merge_base)
    } else {
        base.to_owned()
    }
}

/// A base-branch diff: a line that names the base comes before the diff.
pub fn with_base_note(base: &str, lines: Vec<String>) -> (res: Vec<String>)
    ensures
        res.deep_view() == seq!["(vs base branch: "@ + base@ + ")"@] + lines.deep_view(),
{
    let ghost before = lines.deep_view();
    let mut lines = lines;
    let title = cat3("(vs base branch: ", base, ")");
    let ghost t = title@;
    lines.insert(0, title);
    assert(lines.deep_view() =~= seq![t] + before);
    lines
}

/// What a base-branch diff shows where there is no base branch.
pub fn no_base_note() -> (res: Vec<String>)
    ensures
        res.deep_view() == seq!["(no base branch found — is there an origin remote?)"@],
{
    note("(no base branch found — is there an origin remote?)")
}

// ---- discards ----

/// A line of `git status --porcelain` whose status and path can be told apart: it is too short
/// for them, or characters end behind its second and its third byte.
pub open spec fn readable(line: Seq<char>) -> bool {
    byte_len(line) < 4 || (chars_in_bytes(line, 2) is Some && chars_in_bytes(line, 3) is Some)
}

/// The path that a line of `git status --porcelain` names: the new path of a renamed file.
pub open spec fn line_path(line: Seq<char>) -> Seq<char> {
    let rest = line.skip(chars_in_bytes(line, 3)->0);
    match cut_once(rest, " -> "@) {
        Some(cut) => cut.1,
        None => rest,
    }
}

/// The status that a line of `git status --porcelain` starts with.
pub open spec fn line_status(line: Seq<char>) -> Seq<char> {
    line.take(chars_in_bytes(line, 2)->0)
}

/// The files among the first `n` lines that a discard would revert, or delete.
pub open spec fn discards_upto(lines: Seq<Seq<char>>, deleted: bool, n: nat) -> Seq<Seq<char>>
    decreases n,
{
    if n == 0 || n > lines.len() {
        Seq::empty()
    } else {
        let before = discards_upto(lines, deleted, (n - 1) as nat);
        let line = lines[n - 1];
        if byte_len(line) >= 4 && (line_status(line) == "??"@) == deleted {
            before.push(line_path(line))
        } else {
            before
        }
    }
}

/// The files that a discard would revert, or delete, by the output of `git status`.
pub open spec fn discards(stdout: Seq<char>, deleted: bool) -> Seq<Seq<char>> {
    discards_upto(text_lines(stdout), deleted, text_lines(stdout).len())
}

/// Whether every line of the output of `git status` can be read.
pub open spec fn all_readable(stdout: Seq<char>) -> bool {
    forall|i: int| 0 <= i < text_lines(stdout).len() ==> readable(#[trigger] text_lines(stdout)[i])
}

/// Whether every line of the output of `git status` can be read.
pub fn status_readable(stdout: &str) -> (res: bool)
    ensures
        res == all_readable(stdout@),
{
    let lines = lines_of(stdout);
    let ghost all = lines.deep_view();
    let mut i: usize = 0;
    while i < lines.len()
        invariant
            i <= lines@.len(),
            all == lines.deep_view(),
            all == text_lines(stdout@),
            forall|k: int| 0 <= k < i ==> readable(#[trigger] all[k]),
        decreases lines@.len() - i,
    {
        assert(all[i as int] == lines@[i as int]@);
        let line = lines[i].as_str();
        if bytes_of(line) >= 4 && (char_boundary(line, 2).is_none() || char_boundary(
            line,
            3,
        ).is_none()) {
            assert(!readable(all[i as int]));
            return false;
        }
        i += 1;
    }
    true
}

/// The working-tree changes a discard would touch: first the files that `reset --hard` would
/// revert, then the files unknown to git that `clean -fd` would remove. Both are paths
/// relative to the repo root.
pub fn parse_discard_status(stdout: &str) -> (res: (Vec<String>, Vec<String>))
    requires
        all_readable(stdout@),
    ensures
        res.0.deep_view() == discards(stdout@, false),
        res.1.deep_view() == discards(stdout@, true),
{
    let lines = lines_of(stdout);
    let ghost all = lines.deep_view();
    let mut restore: Vec<String> = Vec::new();
    let mut delete: Vec<String> = Vec::new();
    let mut i: usize = 0;
    assert(restore.deep_view() =~= discards_upto(all, false, 0));
    assert(delete.deep_view() =~= discards_upto(all, true, 0));
    while i < lines.len()
        invariant
            i <= lines@.len(),
            all == lines.deep_view(),
            all == text_lines(stdout@),
            all_readable(stdout@),
            restore.deep_view() == discards_upto(all, false, i as nat),
            delete.deep_view() == discards_upto(all, true, i as nat),
        decreases lines@.len() - i,
    {
        assert(all[i as int] == lines@[i as int]@);
        assert(readable(text_lines(stdout@)[i as int]));
        let line = lines[i].as_str();
        if bytes_of(line) >= 4 {
            let chars = chars_of(line);
            let n: usize = chars.len();
            let mut untouched = false;
            match char_boundary(line, 2) {
                Some(k) => {
                    assert(chars@.subrange(0, k as int) =~= line@.take(k as int));
                    untouched = same(text_between(&chars, 0, k).as_str(), "??");
                },
                None => {},
            }
            match char_boundary(line, 3) {
                Some(k) => {
                    assert(chars@.subrange(k as int, n as int) =~= line@.skip(k as int));
                    let rest = text_between(&chars, k, n);
                    let path = match split_once(rest.as_str(), " -> ") {
                        Some((_, new)) => new,
                        None => rest,
                    };
                    let ghost restored = restore.deep_view();
                    let ghost deleted = delete.deep_view();
                    let ghost p = path@;
                    if untouched {
                        delete.push(path);
                        assert(delete.deep_view() =~= deleted.push(p));
                    } else {
                        restore.push(path);
                        assert(restore.deep_view() =~= restored.push(p));
                    }
                },
                None => {},
            }
        }
        i += 1;
    }
    (restore, delete)
}

// ---- the repo page ----

/// The paths of the worktrees among the first `n` that are marked.
pub open spec fn marked_upto(
    worktrees: Seq<WorktreeInfo>,
    marks: Seq<bool>,
    n: nat,
) -> Seq<Seq<char>>
    decreases n,
{
    if n == 0 || n > worktrees.len() {
        Seq::empty()
    } else if n <= marks.len() && marks[n - 1] {
        marked_upto(worktrees, marks, (n - 1) as nat).push(worktrees[n - 1].path@)
    } else {
        marked_upto(worktrees, marks, (n - 1) as nat)
    }
}

/// The data of a repo page from what git told: the worktrees marked in `dirty` have
/// uncommitted changes.
pub fn page_data(
    branches: Vec<BranchInfo>,
    worktrees: Vec<WorktreeInfo>,
    stashes: Vec<StashInfo>,
    head_dirty: bool,
    dirty: &Vec<bool>,
    fetched: bool,
    fetch_error: Option<String>,
) -> (res: RepoPageData)
    ensures
        res.dirty_worktrees.deep_view() == marked_upto(worktrees@, dirty@, worktrees@.len()),
        res == (RepoPageData {
            branches,
            worktrees,
            stashes,
            head_dirty,
            dirty_worktrees: res.dirty_worktrees,
            fetched,
            fetch_error,
            base_branch: None,
        }),
{
    let mut paths: Vec<String> = Vec::new();
    let mut i: usize = 0;
    while i < worktrees.len()
        invariant
            i <= worktrees@.len(),
            paths.deep_view() =~= marked_upto(worktrees@, dirty@, i as nat),
        decreases worktrees@.len() - i,
    {
        if i < dirty.len() && dirty[i] {
            paths.push(worktrees[i].path.clone());
        }
        i += 1;
    }
    RepoPageData {
        branches,
        worktrees,
        stashes,
        head_dirty,
        dirty_worktrees: paths,
        fetched,
        fetch_error,
        base_branch: None,
    }
}

// ---- what the outputs say ----

proof fn lemma_told(lines: Seq<Seq<char>>, n: nat)
    requires
        n <= lines.len(),
    ensures
        told_upto(lines, n) == lines.take(n as int).filter(|line: Seq<char>| !is_blank(line)).len(),
        features_upto(lines, n) == lines.take(n as int).filter(
            |line: Seq<char>|
                trimmed(line).len() > 0 && trimmed(line) != "main"@ && trimmed(line) != "dev"@,
        ).len(),
    decreases n,
{
    reveal(Seq::filter);
    if n > 0 {
        lemma_told(lines, (n - 1) as nat);
        assert(lines.take(n as int).drop_last() =~= lines.take(n - 1));
        assert(lines.take(n as int).last() == lines[n - 1]);
    } else {
        assert(lines.take(0) =~= Seq::empty());
    }
}

/// Changes and stashes are the lines that are not blank; the branches that count are those other
/// than `main` and `dev`.
pub proof fn law_what_is_counted(text: Seq<char>)
    ensures
        told(text) == text_lines(text).filter(|line: Seq<char>| !is_blank(line)).len(),
        features(text) == text_lines(text).filter(
            |line: Seq<char>|
                trimmed(line).len() > 0 && trimmed(line) != "main"@ && trimmed(line) != "dev"@,
        ).len(),
{
    let lines = text_lines(text);
    lemma_told(lines, lines.len());
    assert(lines.take(lines.len() as int) =~= lines);
}

proof fn lemma_stashes(lines: Seq<Seq<char>>, n: nat)
    requires
        n <= lines.len() <= usize::MAX,
    ensures
        stashes_upto(lines, n).len() <= n,
        stashes_upto(lines, n).map_values(|stash: (usize, Seq<char>)| stash.1) =~= lines.take(
            n as int,
        ).filter(|line: Seq<char>| !is_blank(line)),
        forall|k: int|
            0 <= k < stashes_upto(lines, n).len() ==> (#[trigger] stashes_upto(lines, n)[k]).0 == k,
    decreases n,
{
    reveal(Seq::filter);
    if n > 0 {
        lemma_stashes(lines, (n - 1) as nat);
        assert(lines.take(n as int).drop_last() =~= lines.take(n - 1));
        assert(lines.take(n as int).last() == lines[n - 1]);
    } else {
        assert(lines.take(0) =~= Seq::empty());
    }
}

/// Stash `k` is the `k`-th label that is not blank: git counts them from zero in the order in
/// which it lists them.
pub proof fn law_stashes_are_counted_from_zero(lines: Seq<Seq<char>>, k: int)
    requires
        lines.len() <= usize::MAX,
        0 <= k < stashes_upto(lines, lines.len()).len(),
    ensures
        stashes_upto(lines, lines.len()).len() == lines.filter(
            |line: Seq<char>| !is_blank(line),
        ).len(),
        stashes_upto(lines, lines.len())[k].0 == k,
        stashes_upto(lines, lines.len())[k].1 == lines.filter(
            |line: Seq<char>| !is_blank(line),
        )[k],
{
    lemma_stashes(lines, lines.len());
    assert(lines.take(lines.len() as int) =~= lines);
    let stashes = stashes_upto(lines, lines.len());
    assert(stashes.map_values(|stash: (usize, Seq<char>)| stash.1)[k] == stashes[k].1);
}

proof fn lemma_first_marked(marks: Seq<bool>, from: int)
    requires
        0 <= from,
    ensures
        match first_marked(marks, from) {
            Some(k) => from <= k < marks.len() && marks[k] && forall|j: int|
                from <= j < k ==> !#[trigger] marks[j],
            None => forall|j: int| from <= j < marks.len() ==> !#[trigger] marks[j],
        },
    decreases marks.len() - from,
{
    if from < marks.len() {
        lemma_first_marked(marks, from + 1);
    }
}

/// The base is the first name that exists, and there is none only where no name exists. The
/// remote's branches come before the local ones, and `main` before `master` before `dev`.
pub proof fn law_first_base_that_exists(marks: Seq<bool>)
    ensures
        match first_marked(marks, 0) {
            Some(k) => 0 <= k < marks.len() && marks[k] && forall|j: int|
                0 <= j < k ==> !#[trigger] marks[j],
            None => forall|j: int| 0 <= j < marks.len() ==> !#[trigger] marks[j],
        },
        base_names().len() == 6,
        base_names()[0] == "origin/main"@,
        base_names()[1] == "origin/master"@,
        base_names()[2] == "origin/dev"@,
        base_names()[3] == "main"@,
        base_names()[4] == "master"@,
        base_names()[5] == "dev"@,
{
    lemma_first_marked(marks, 0);
}

proof fn lemma_discards(lines: Seq<Seq<char>>, n: nat)
    requires
        n <= lines.len(),
    ensures
        discards_upto(lines, true, n) =~= lines.take(n as int).filter(
            |line: Seq<char>| byte_len(line) >= 4 && line_status(line) == "??"@,
        ).map_values(|line: Seq<char>| line_path(line)),
        discards_upto(lines, false, n) =~= lines.take(n as int).filter(
            |line: Seq<char>| byte_len(line) >= 4 && line_status(line) != "??"@,
        ).map_values(|line: Seq<char>| line_path(line)),
    decreases n,
{
    reveal(Seq::filter);
    if n > 0 {
        lemma_discards(lines, (n - 1) as nat);
        assert(lines.take(n as int).drop_last() =~= lines.take(n - 1));
        assert(lines.take(n as int).last() == lines[n - 1]);
    } else {
        assert(lines.take(0) =~= Seq::empty());
    }
}

/// A discard deletes exactly the files that git does not know, marked `??`, and restores all
/// others.
pub proof fn law_what_a_discard_does(stdout: Seq<char>)
    ensures
        discards(stdout, true) == text_lines(stdout).filter(
            |line: Seq<char>| byte_len(line) >= 4 && line_status(line) == "??"@,
        ).map_values(|line: Seq<char>| line_path(line)),
        discards(stdout, false) == text_lines(stdout).filter(
            |line: Seq<char>| byte_len(line) >= 4 && line_status(line) != "??"@,
        ).map_values(|line: Seq<char>| line_path(line)),
{
    let lines = text_lines(stdout);
    lemma_discards(lines, lines.len());
    assert(lines.take(lines.len() as int) =~= lines);
}

/// Each fact of the details stands in its own output: the hash, the subject, the author and the
/// age of the commit in this order, and of the two counts what is behind before what is ahead.
/// Nothing is made up where an output is missing.
pub proof fn law_details_are_what_git_said(details: RepoDetails, outputs: DetailOutputs)
    requires
        is_details(details, outputs),
    ensures
        outputs.log matches Some(log) ==> {
            let fields = unit_fields(cut_end(log@, "\n\r"@));
            &&& details.commit_hash@ == nth(fields, 0)
            &&& details.commit_subject@ == nth(fields, 1)
            &&& details.commit_author@ == nth(fields, 2)
            &&& details.commit_rel_date@ == nth(fields, 3)
        },
        outputs.counts matches Some(text) ==> {
            let words = nonempty(pieces(text@, Separator::Space));
            &&& details.behind == word_number(words, 0)
            &&& details.ahead == word_number(words, 1)
        },
        outputs.status matches Some(text) ==> details.dirty_count == text_lines(text@).filter(
            |line: Seq<char>| !is_blank(line),
        ).len() as u32,
        outputs.stashes matches Some(text) ==> details.stash_count == text_lines(text@).filter(
            |line: Seq<char>| !is_blank(line),
        ).len() as u32,
        outputs.heads matches Some(text) ==> details.branch_count == features(text@) as u32,
        outputs.status is None ==> details.dirty_count == 0,
        outputs.stashes is None ==> details.stash_count == 0,
        outputs.heads is None ==> details.branch_count == 0,
{
    if let Some(text) = outputs.status {
        law_what_is_counted(text@);
    }
    if let Some(text) = outputs.stashes {
        law_what_is_counted(text@);
    }
}

/// A diff without lines says so, and so does one that could not be had; what git said about the
/// failure is passed on.
pub proof fn law_empty_diffs_say_so(text: Seq<char>)
    ensures
        text_lines(text).len() == 0 ==> diff_text(text) == seq!["(no changes)"@],
        text_lines(text).len() > 0 ==> diff_text(text) == text_lines(text),
        is_blank(text) ==> failure_note(text) == "(diff unavailable)"@,
        !is_blank(text) ==> failure_note(text) == "(diff failed: "@ + trimmed(text) + ")"@,
{
}

/// A worktree is listed as dirty exactly when its own mark says so.
pub proof fn law_marked_worktrees(worktrees: Seq<WorktreeInfo>, marks: Seq<bool>, path: Seq<char>)
    requires
        marks.len() == worktrees.len(),
    ensures
        marked_upto(worktrees, marks, worktrees.len()).contains(path) <==> exists|k: int|
            0 <= k < worktrees.len() && #[trigger] marks[k] && worktrees[k].path@ == path,
{
    lemma_marked(worktrees, marks, path, worktrees.len());
}

proof fn lemma_marked(
    worktrees: Seq<WorktreeInfo>,
    marks: Seq<bool>,
    path: Seq<char>,
    n: nat,
)
    requires
        n <= marks.len() == worktrees.len(),
    ensures
        marked_upto(worktrees, marks, n).contains(path) <==> exists|k: int|
            0 <= k < n && #[trigger] marks[k] && worktrees[k].path@ == path,
    decreases n,
{
    let all = marked_upto(worktrees, marks, n);
    if n > 0 {
        lemma_marked(worktrees, marks, path, (n - 1) as nat);
        let before = marked_upto(worktrees, marks, (n - 1) as nat);
        if marks[n - 1] {
            assert(all == before.push(worktrees[n - 1].path@));
            if before.contains(path) {
                let i = choose|i: int| 0 <= i < before.len() && before[i] == path;
                assert(all[i] == path);
            }
            if worktrees[n - 1].path@ == path {
                assert(all[before.len() as int] == path);
            }
            if all.contains(path) && worktrees[n - 1].path@ != path {
                let i = choose|i: int| 0 <= i < all.len() && all[i] == path;
                assert(before[i] == path);
            }
        }
    }
}

} // verus!
