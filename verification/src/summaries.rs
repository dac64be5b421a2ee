//! The texts that sum up a run, a folder or a group.

use vstd::prelude::*;
use vstd::string::*;

use crate::app::{tally, AppState};
use crate::groups::Group;
use crate::icons::{IconSet, IconStyle};
use crate::plain::{countable, larger};
use crate::repo::{texts, RepoState, RepoStatus, WorktreeEntry};
use crate::spans::{count_members, members_in};
use crate::text::{
    byte_len, bytes_of, cat, cat3, cat4, cat5, count_text, decimal, join, joined, number, pad_right,
    padded,
};

verus! {

// ---- building lines ----

fn add_line(lines: &mut Vec<String>, line: String)
    ensures
        final(lines).deep_view() == old(lines).deep_view().push(line@),
{
    let ghost before = lines.deep_view();
    let ghost shown = line@;
    lines.push(line);
    assert(lines.deep_view() =~= before.push(shown));
}

/// Parts with a count after them, if it is not zero.
pub open spec fn with_part(parts: Seq<Seq<char>>, count: nat, label: Seq<char>) -> Seq<Seq<char>> {
    if count > 0 {
        parts.push(decimal(count) + " "@ + label)
    } else {
        parts
    }
}

fn add_part(parts: &mut Vec<String>, count: usize, label: &str)
    ensures
        final(parts).deep_view() == with_part(old(parts).deep_view(), count as nat, label@),
{
    if count > 0 {
        add_line(parts, cat3(count_text(count).as_str(), " ", label));
    }
}

fn no_texts() -> (res: Vec<String>)
    ensures
        res.deep_view() == Seq::<Seq<char>>::empty(),
{
    let res: Vec<String> = Vec::new();
    assert(res.deep_view() =~= Seq::<Seq<char>>::empty());
    res
}

/// A line with a labelled value.
pub open spec fn field(name: Seq<char>, value: Seq<char>) -> Seq<char> {
    padded(name, 13) + value
}

fn field_line(name: &str, value: &str) -> (res: String)
    ensures
        res@ == field(name@, value@),
{
    cat(pad_right(name, 13).as_str(), value)
}

// ---- the Result ----

/// The branch of a repo, or a question mark.
pub open spec fn branch_or(repo: RepoState) -> Seq<char> {
    match repo.branch {
        Some(branch) => branch@,
        None => "?"@,
    }
}

fn branch_of(repo: &RepoState) -> (res: String)
    ensures
        res@ == branch_or(*repo),
{
    match &repo.branch {
        Some(branch) => branch.clone(),
        None => "?".to_owned(),
    }
}

/// The length in bytes of the longest name among the first `n` repos.
pub open spec fn repo_width(repos: Seq<RepoState>, n: nat) -> nat
    decreases n,
{
    if n == 0 || n > repos.len() {
        0
    } else {
        larger(repo_width(repos, (n - 1) as nat), countable(byte_len(repos[n - 1].name@)))
    }
}

/// The length in bytes of the longest repo name among the first `n` worktrees, but at least
/// `floor`.
pub open spec fn tree_width(trees: Seq<WorktreeEntry>, floor: nat, n: nat) -> nat
    decreases n,
{
    if n == 0 || n > trees.len() {
        floor
    } else {
        larger(tree_width(trees, floor, (n - 1) as nat), countable(byte_len(trees[n - 1].repo@)))
    }
}

/// The width of the name column.
pub open spec fn name_pad(repos: Seq<RepoState>, trees: Seq<WorktreeEntry>) -> nat {
    tree_width(trees, repo_width(repos, repos.len()), trees.len())
}

fn pad_for(repos: &Vec<RepoState>, trees: &Vec<WorktreeEntry>) -> (res: usize)
    ensures
        res == name_pad(repos@, trees@),
{
    let mut pad: usize = 0;
    let mut i: usize = 0;
    while i < repos.len()
        invariant
            i <= repos@.len(),
            pad == repo_width(repos@, i as nat),
        decreases repos@.len() - i,
    {
        let bytes: usize = bytes_of(repos[i].name.as_str());
        if bytes > pad {
            pad = bytes;
        }
        i += 1;
    }
    let mut j: usize = 0;
    while j < trees.len()
        invariant
            j <= trees@.len(),
            pad == tree_width(trees@, repo_width(repos@, repos@.len()), j as nat),
        decreases trees@.len() - j,
    {
        let bytes: usize = bytes_of(trees[j].repo.as_str());
        if bytes > pad {
            pad = bytes;
        }
        j += 1;
    }
    pad
}

/// A line of a section.
pub open spec fn entry(name: Seq<char>, branch: Seq<char>, pad: nat) -> Seq<char> {
    "   - "@ + padded(name, pad) + "  "@ + branch
}

/// The lines of the repos of one kind among the first `n`.
pub open spec fn entries_upto(repos: Seq<RepoState>, kind: RepoStatus, pad: nat, n: nat) -> Seq<
    Seq<char>,
>
    decreases n,
{
    if n == 0 || n > repos.len() {
        Seq::empty()
    } else {
        let before = entries_upto(repos, kind, pad, (n - 1) as nat);
        if repos[n - 1].status.kind() == kind {
            before.push(entry(repos[n - 1].name@, branch_or(repos[n - 1]), pad))
        } else {
            before
        }
    }
}

/// The lines with a section for the repos of one kind after them, if there are any.
pub open spec fn with_section(
    lines: Seq<Seq<char>>,
    header: Seq<char>,
    repos: Seq<RepoState>,
    kind: RepoStatus,
    pad: nat,
) -> Seq<Seq<char>> {
    if tally(repos, kind) > 0 {
        lines.push(""@).push(header) + entries_upto(repos, kind, pad, repos.len())
    } else {
        lines
    }
}

fn add_section(
    lines: &mut Vec<String>,
    mark: &str,
    title: &str,
    repos: &Vec<RepoState>,
    kind: RepoStatus,
    count: usize,
    pad: usize,
)
    requires
        count == tally(repos@, kind),
    ensures
        final(lines).deep_view() == with_section(
            old(lines).deep_view(),
            mark@ + title@,
            repos@,
            kind,
            pad as nat,
        ),
{
    if count == 0 {
        return;
    }
    add_line(lines, "".to_owned());
    add_line(lines, cat(mark, title));
    let ghost head = lines.deep_view();
    let mut i: usize = 0;
    while i < repos.len()
        invariant
            i <= repos@.len(),
            lines.deep_view() =~= head + entries_upto(repos@, kind, pad as nat, i as nat),
        decreases repos@.len() - i,
    {
        if repos[i].status.kind_of() == kind {
            let line = cat4(
                "   - ",
                pad_right(repos[i].name.as_str(), pad).as_str(),
                "  ",
                branch_of(&repos[i]).as_str(),
            );
            add_line(lines, line);
        }
        i += 1;
    }
}

/// The lines of the first `n` worktrees.
pub open spec fn tree_entries(trees: Seq<WorktreeEntry>, pad: nat, n: nat) -> Seq<Seq<char>>
    decreases n,
{
    if n == 0 || n > trees.len() {
        Seq::empty()
    } else {
        tree_entries(trees, pad, (n - 1) as nat).push(
            entry(trees[n - 1].repo@, trees[n - 1].branch@, pad),
        )
    }
}

/// The mark of a section: the glyph of the status in the emoji set, else an ASCII one.
pub open spec fn mark_of(style: IconStyle, ascii: Seq<char>, glyph: Seq<char>) -> Seq<char> {
    if style is Emoji {
        glyph
    } else {
        ascii
    }
}

fn mark(style: IconStyle, ascii: &'static str, glyph: &'static str) -> (res: &'static str)
    ensures
        res@ == mark_of(style, ascii@, glyph@),
{
    match style {
        IconStyle::Emoji => glyph,
        IconStyle::Unicode => ascii,
    }
}

/// How many repos are neither queued nor running.
pub open spec fn told_total(repos: Seq<RepoState>) -> nat {
    tally(repos, RepoStatus::Updated) + tally(repos, RepoStatus::UpToDate) + tally(
        repos,
        RepoStatus::Skipped,
    ) + tally(repos, RepoStatus::Failed) + tally(repos, RepoStatus::NoUpstream) + tally(
        repos,
        RepoStatus::Throttled,
    )
}

/// How many repos there are of each kind, in words.
pub open spec fn told_parts(repos: Seq<RepoState>) -> Seq<Seq<char>> {
    let a = with_part(Seq::empty(), tally(repos, RepoStatus::Updated), "updated"@);
    let b = with_part(a, tally(repos, RepoStatus::UpToDate), "up-to-date"@);
    let c = with_part(b, tally(repos, RepoStatus::Skipped), "skipped"@);
    let d = with_part(c, tally(repos, RepoStatus::NoUpstream), "no-upstream"@);
    let e = with_part(d, tally(repos, RepoStatus::Throttled), "throttled"@);
    with_part(e, tally(repos, RepoStatus::Failed), "failed"@)
}

/// The sections of the Result after its first lines.
pub open spec fn result_sections(
    start: Seq<Seq<char>>,
    repos: Seq<RepoState>,
    trees: Seq<WorktreeEntry>,
    style: IconStyle,
    icons: IconSet,
) -> Seq<Seq<char>> {
    let pad = name_pad(repos, trees);
    let a = with_section(
        start,
        mark_of(style, "+"@, icons.updated@) + " Updated repositories:"@,
        repos,
        RepoStatus::Updated,
        pad,
    );
    let b = with_section(
        a,
        mark_of(style, "="@, icons.up_to_date@) + " Unchanged repositories:"@,
        repos,
        RepoStatus::UpToDate,
        pad,
    );
    let c = with_section(
        b,
        mark_of(style, "!"@, icons.skipped@) + " Skipped repositories (uncommitted changes):"@,
        repos,
        RepoStatus::Skipped,
        pad,
    );
    let d = with_section(
        c,
        mark_of(style, "~"@, icons.no_upstream@) + " No-upstream repositories (nothing to pull):"@,
        repos,
        RepoStatus::NoUpstream,
        pad,
    );
    let e = with_section(
        d,
        mark_of(style, "!"@, icons.throttled@)
            + " Throttled repositories (rate-limited; retrying):"@,
        repos,
        RepoStatus::Throttled,
        pad,
    );
    let f = with_section(
        e,
        mark_of(style, "x"@, icons.failed@) + " Failed repositories:"@,
        repos,
        RepoStatus::Failed,
        pad,
    );
    if trees.len() > 0 {
        f.push(""@).push(mark_of(style, ">"@, icons.worktrees@) + " Active worktrees:"@)
            + tree_entries(trees, pad, trees.len())
    } else {
        f
    }
}

/// The Result of a run.
pub open spec fn result_summary(app: AppState, icons: IconSet) -> Seq<Seq<char>> {
    let repos = app.repos@;
    let total = told_total(repos);
    let start = Seq::<Seq<char>>::empty().push("Pull completed!"@).push(""@);
    if total == 0 {
        start.push("   No git repositories found."@)
    } else {
        result_sections(
            start.push(
                "   "@ + decimal(total) + " total: "@ + joined(told_parts(repos), ", "@),
            ),
            repos,
            app.progress.worktrees@,
            app.prefs.icon_style,
            icons,
        )
    }
}

/// The Result of a run: the totals, and the repos of each kind with their branches.
pub fn build_result_summary(app: &AppState, icons: &IconSet) -> (res: Vec<String>)
    ensures
        res.deep_view() == result_summary(*app, *icons),
{
    let counts = app.counts();
    let all: usize = app.repos.len();
    assert(counts.2 + counts.3 + counts.4 + counts.5 + counts.6 + counts.7 <= all);
    let total: usize = counts.2 + counts.3 + counts.4 + counts.5 + counts.6 + counts.7;
    let mut lines = no_texts();
    add_line(&mut lines, "Pull completed!".to_owned());
    add_line(&mut lines, "".to_owned());
    if total == 0 {
        add_line(&mut lines, "   No git repositories found.".to_owned());
        return lines;
    }
    let mut parts = no_texts();
    add_part(&mut parts, counts.2, "updated");
    add_part(&mut parts, counts.3, "up-to-date");
    add_part(&mut parts, counts.4, "skipped");
    add_part(&mut parts, counts.6, "no-upstream");
    add_part(&mut parts, counts.7, "throttled");
    add_part(&mut parts, counts.5, "failed");
    add_line(
        &mut lines,
        cat4("   ", count_text(total).as_str(), " total: ", join(&parts, ", ").as_str()),
    );
    let trees = &app.progress.worktrees;
    let pad: usize = pad_for(&app.repos, trees);
    let style = app.prefs.icon_style;
    add_section(
        &mut lines,
        mark(style, "+", icons.updated),
        " Updated repositories:",
        &app.repos,
        RepoStatus::Updated,
        counts.2,
        pad,
    );
    add_section(
        &mut lines,
        mark(style, "=", icons.up_to_date),
        " Unchanged repositories:",
        &app.repos,
        RepoStatus::UpToDate,
        counts.3,
        pad,
    );
    add_section(
        &mut lines,
        mark(style, "!", icons.skipped),
        " Skipped repositories (uncommitted changes):",
        &app.repos,
        RepoStatus::Skipped,
        counts.4,
        pad,
    );
    add_section(
        &mut lines,
        mark(style, "~", icons.no_upstream),
        " No-upstream repositories (nothing to pull):",
        &app.repos,
        RepoStatus::NoUpstream,
        counts.6,
        pad,
    );
    add_section(
        &mut lines,
        mark(style, "!", icons.throttled),
        " Throttled repositories (rate-limited; retrying):",
        &app.repos,
        RepoStatus::Throttled,
        counts.7,
        pad,
    );
    add_section(
        &mut lines,
        mark(style, "x", icons.failed),
        " Failed repositories:",
        &app.repos,
        RepoStatus::Failed,
        counts.5,
        pad,
    );
    if trees.len() > 0 {
        add_line(&mut lines, "".to_owned());
        add_line(&mut lines, cat(mark(style, ">", icons.worktrees), " Active worktrees:"));
        let ghost head = lines.deep_view();
        let mut i: usize = 0;
        while i < trees.len()
            invariant
                i <= trees@.len(),
                lines.deep_view() =~= head + tree_entries(trees@, pad as nat, i as nat),
            decreases trees@.len() - i,
        {
            let line = cat4(
                "   - ",
                pad_right(trees[i].repo.as_str(), pad).as_str(),
                "  ",
                trees[i].branch.as_str(),
            );
            add_line(&mut lines, line);
            i += 1;
        }
    }
    lines
}

// ---- the Errors ----

/// The first line of a log that the Errors show: they show the last fifteen.
pub open spec fn tail_start(lines: nat) -> nat {
    if lines > 15 {
        (lines - 15) as nat
    } else {
        0
    }
}

/// The lines of a log from `from` up to `n`, indented.
pub open spec fn indented_log(log: Seq<Seq<char>>, from: nat, n: nat) -> Seq<Seq<char>>
    decreases n,
{
    if n <= from || n > log.len() {
        Seq::empty()
    } else {
        indented_log(log, from, (n - 1) as nat).push("   "@ + log[n - 1])
    }
}

/// What the Errors say of one failed repo.
pub open spec fn failure(repo: RepoState, glyph: Seq<char>) -> Seq<Seq<char>> {
    let log = repo.log@;
    let from = tail_start(log.len());
    let head = Seq::<Seq<char>>::empty().push(""@).push(
        glyph + " "@ + repo.name@ + " ("@ + (branch_or(repo) + ")"@),
    );
    let cut = if from > 0 {
        head.push("   …"@ + decimal(from) + " earlier line(s)"@)
    } else {
        head
    };
    cut + indented_log(log, from, log.len())
}

/// What the Errors say of the failed ones among the first `n` repos.
pub open spec fn failures_upto(repos: Seq<RepoState>, glyph: Seq<char>, n: nat) -> Seq<Seq<char>>
    decreases n,
{
    if n == 0 || n > repos.len() {
        Seq::empty()
    } else if repos[n - 1].status is Failed {
        failures_upto(repos, glyph, (n - 1) as nat) + failure(repos[n - 1], glyph)
    } else {
        failures_upto(repos, glyph, (n - 1) as nat)
    }
}

/// The Errors: each failed repo with the end of its log.
pub open spec fn error_summary(app: AppState, icons: IconSet) -> Seq<Seq<char>> {
    Seq::<Seq<char>>::empty().push(
        decimal(tally(app.repos@, RepoStatus::Failed)) + " repo(s) failed to pull:"@,
    ) + failures_upto(app.repos@, icons.failed@, app.repos@.len())
}

fn add_failure(lines: &mut Vec<String>, repo: &RepoState, glyph: &str)
    ensures
        final(lines).deep_view() == old(lines).deep_view() + failure(*repo, glyph@),
{
    let ghost before = lines.deep_view();
    add_line(lines, "".to_owned());
    let title = cat5(
        glyph,
        " ",
        repo.name.as_str(),
        " (",
        cat(branch_of(repo).as_str(), ")").as_str(),
    );
    add_line(lines, title);
    let log = repo.log.lines();
    let total: usize = log.len();
    let start: usize = if total > 15 {
        total - 15
    } else {
        0
    };
    if start > 0 {
        add_line(lines, cat3("   …", count_text(start).as_str(), " earlier line(s)"));
    }
    let ghost head = lines.deep_view();
    let mut i: usize = start;
    while i < total
        invariant
            start <= i <= total,
            total == log@.len(),
            repo.log@ == texts(log@),
            lines.deep_view() =~= head + indented_log(repo.log@, start as nat, i as nat),
        decreases total - i,
    {
        assert(repo.log@[i as int] == log@[i as int]@);
        add_line(lines, cat("   ", log[i].as_str()));
        i += 1;
    }
    assert(lines.deep_view() =~= before + failure(*repo, glyph@));
}

/// Right-pane content for the dynamic Errors row: each failed repo with the tail of its log
/// (the git stderr from the final failed attempt).
pub fn build_error_summary(app: &AppState, icons: &IconSet) -> (res: Vec<String>)
    ensures
        res.deep_view() == error_summary(*app, *icons),
{
    let failed: usize = app.counts().5;
    let mut lines = no_texts();
    add_line(&mut lines, cat(count_text(failed).as_str(), " repo(s) failed to pull:"));
    let ghost head = lines.deep_view();
    let mut i: usize = 0;
    while i < app.repos.len()
        invariant
            i <= app.repos@.len(),
            lines.deep_view() =~= head + failures_upto(app.repos@, icons.failed@, i as nat),
        decreases app.repos@.len() - i,
    {
        if app.repos[i].status.is_failed() {
            add_failure(&mut lines, &app.repos[i], icons.failed);
        }
        i += 1;
    }
    lines
}

// ---- folders and groups ----

/// How many of the members there are of each kind, in words.
pub open spec fn member_parts(repos: Seq<RepoState>, members: Seq<usize>) -> Seq<Seq<char>> {
    let a = with_part(
        Seq::empty(),
        members_in(repos, members, RepoStatus::Running { pid: 0 }),
        "running"@,
    );
    let b = with_part(a, members_in(repos, members, RepoStatus::Queued), "queued"@);
    let c = with_part(b, members_in(repos, members, RepoStatus::Updated), "updated"@);
    let d = with_part(c, members_in(repos, members, RepoStatus::UpToDate), "up-to-date"@);
    let e = with_part(d, members_in(repos, members, RepoStatus::Skipped), "skipped"@);
    let f = with_part(e, members_in(repos, members, RepoStatus::NoUpstream), "no-upstream"@);
    let g = with_part(f, members_in(repos, members, RepoStatus::Throttled), "throttled"@);
    with_part(g, members_in(repos, members, RepoStatus::Failed), "failed"@)
}

fn parts_of(repos: &Vec<RepoState>, members: &Vec<usize>) -> (res: Vec<String>)
    requires
        forall|k: int| 0 <= k < members@.len() ==> #[trigger] members@[k] < repos@.len(),
    ensures
        res.deep_view() == member_parts(repos@, members@),
{
    let mut parts = no_texts();
    let n: usize = count_members(repos, members, RepoStatus::Running { pid: 0 });
    add_part(&mut parts, n, "running");
    let n: usize = count_members(repos, members, RepoStatus::Queued);
    add_part(&mut parts, n, "queued");
    let n: usize = count_members(repos, members, RepoStatus::Updated);
    add_part(&mut parts, n, "updated");
    let n: usize = count_members(repos, members, RepoStatus::UpToDate);
    add_part(&mut parts, n, "up-to-date");
    let n: usize = count_members(repos, members, RepoStatus::Skipped);
    add_part(&mut parts, n, "skipped");
    let n: usize = count_members(repos, members, RepoStatus::NoUpstream);
    add_part(&mut parts, n, "no-upstream");
    let n: usize = count_members(repos, members, RepoStatus::Throttled);
    add_part(&mut parts, n, "throttled");
    let n: usize = count_members(repos, members, RepoStatus::Failed);
    add_part(&mut parts, n, "failed");
    parts
}

/// The lines with the tallies of the members after them, if there are any.
pub open spec fn with_status(
    lines: Seq<Seq<char>>,
    repos: Seq<RepoState>,
    members: Seq<usize>,
) -> Seq<Seq<char>> {
    let parts = member_parts(repos, members);
    if parts.len() > 0 {
        lines.push(field("Status"@, joined(parts, ", "@)))
    } else {
        lines
    }
}

fn add_status(lines: &mut Vec<String>, repos: &Vec<RepoState>, members: &Vec<usize>)
    requires
        forall|k: int| 0 <= k < members@.len() ==> #[trigger] members@[k] < repos@.len(),
    ensures
        final(lines).deep_view() == with_status(old(lines).deep_view(), repos@, members@),
{
    let parts = parts_of(repos, members);
    if parts.len() > 0 {
        add_line(lines, field_line("Status", join(&parts, ", ").as_str()));
    }
}

/// The preview of a folder: its path, how many repos lie under it, its subfolders, and the
/// tallies.
pub open spec fn folder_summary(
    repos: Seq<RepoState>,
    path: Seq<char>,
    subtree: Seq<usize>,
    children: Seq<Seq<char>>,
) -> Seq<Seq<char>> {
    let start = Seq::<Seq<char>>::empty().push(field("Folder"@, path + "/"@)).push(
        field("Repos"@, decimal(subtree.len()) + " (subtree)"@),
    );
    let folders = if children.len() > 0 {
        start.push(
            field("Subfolders"@, decimal(children.len()) + " · "@ + joined(children, ", "@)),
        )
    } else {
        start
    };
    with_status(folders, repos, subtree).push(""@).push("enter/space/←/→ to collapse or expand"@)
}

/// The folder-node preview: its path, repo + subfolder counts, and the subtree status breakdown.
pub fn build_folder_summary(
    repos: &Vec<RepoState>,
    path: &str,
    subtree: &Vec<usize>,
    children: &Vec<String>,
) -> (res: Vec<String>)
    requires
        forall|k: int| 0 <= k < subtree@.len() ==> #[trigger] subtree@[k] < repos@.len(),
    ensures
        res.deep_view() == folder_summary(repos@, path@, subtree@, children.deep_view()),
{
    let mut lines = no_texts();
    add_line(&mut lines, field_line("Folder", cat(path, "/").as_str()));
    add_line(
        &mut lines,
        field_line("Repos", cat(count_text(subtree.len()).as_str(), " (subtree)").as_str()),
    );
    if children.len() > 0 {
        let value = cat3(
            count_text(children.len()).as_str(),
            " · ",
            join(children, ", ").as_str(),
        );
        add_line(&mut lines, field_line("Subfolders", value.as_str()));
    }
    add_status(&mut lines, repos, subtree);
    add_line(&mut lines, "".to_owned());
    add_line(&mut lines, "enter/space/←/→ to collapse or expand".to_owned());
    lines
}

/// The members of a group, in words.
pub open spec fn membership(group: Group, visible: nat) -> Seq<char> {
    match group.members {
        Some(total) => decimal(total@.len()) + " ("@ + decimal(visible) + " visible)"@,
        None => if group.source.looked_up() {
            "(unresolved)"@
        } else {
            "by pattern ("@ + decimal(visible) + " visible)"@
        },
    }
}

/// When the members of a group were looked up, in words.
pub open spec fn resolved_text(minutes: Option<u64>) -> Seq<char> {
    match minutes {
        Some(minutes) => if minutes == 0 {
            "resolved just now"@
        } else if minutes < 120 {
            "resolved "@ + decimal(minutes as nat) + "m ago"@
        } else {
            "resolved "@ + decimal((minutes / 60) as nat) + "h ago"@
        },
        None => "never resolved"@,
    }
}

/// What the preview of a group says of it.
pub open spec fn group_lines(group: Group, visible: nat) -> Seq<Seq<char>> {
    let start = Seq::<Seq<char>>::empty().push(field("Group"@, group.name@)).push(
        field("Source"@, group.source.named() + " · "@ + group.detail@),
    ).push(field("Members"@, membership(group, visible)));
    let cache = if group.source.looked_up() {
        start.push(field("Cache"@, resolved_text(group.resolved_minutes)))
    } else {
        start
    };
    let refresh = if group.resolving {
        cache.push(field("Refresh"@, "resolving…"@))
    } else {
        cache
    };
    match group.error {
        Some(error) => refresh.push(""@).push("\u{1b}[31mError: "@ + error@ + "\u{1b}[0m"@),
        None => refresh,
    }
}

/// The preview of a group, or of the repos in none.
pub open spec fn group_summary(
    repos: Seq<RepoState>,
    group: Option<Group>,
    members: Seq<usize>,
) -> Seq<Seq<char>> {
    let facts = match group {
        Some(group) => group_lines(group, members.len()),
        None => Seq::<Seq<char>>::empty().push(field("Group"@, "ungrouped"@)).push(
            field("Source"@, "repos matching no configured group"@),
        ).push(field("Members"@, decimal(members.len()) + " visible"@)),
    };
    with_status(facts, repos, members)
}

fn membership_text(group: &Group, visible: usize) -> (res: String)
    ensures
        res@ == membership(*group, visible as nat),
{
    match &group.members {
        Some(total) => cat4(
            count_text(total.len()).as_str(),
            " (",
            count_text(visible).as_str(),
            " visible)",
        ),
        None => {
            if group.source.is_dynamic() {
                "(unresolved)".to_owned()
            } else {
                cat3("by pattern (", count_text(visible).as_str(), " visible)")
            }
        },
    }
}

fn resolved_note(minutes: Option<u64>) -> (res: String)
    ensures
        res@ == resolved_text(minutes),
{
    match minutes {
        Some(minutes) => {
            if minutes == 0 {
                "resolved just now".to_owned()
            } else if minutes < 120 {
                cat3("resolved ", number(minutes).as_str(), "m ago")
            } else {
                cat3("resolved ", number(minutes / 60).as_str(), "h ago")
            }
        },
        None => "never resolved".to_owned(),
    }
}

fn lines_of_group(group: &Group, visible: usize) -> (res: Vec<String>)
    ensures
        res.deep_view() == group_lines(*group, visible as nat),
{
    let mut lines = no_texts();
    add_line(&mut lines, field_line("Group", group.name.as_str()));
    let source = cat3(group.source.label(), " · ", group.detail.as_str());
    add_line(&mut lines, field_line("Source", source.as_str()));
    add_line(&mut lines, field_line("Members", membership_text(group, visible).as_str()));
    if group.source.is_dynamic() {
        let age = resolved_note(group.resolved_minutes);
        add_line(&mut lines, field_line("Cache", age.as_str()));
    }
    if group.resolving {
        add_line(&mut lines, field_line("Refresh", "resolving…"));
    }
    match &group.error {
        Some(error) => {
            add_line(&mut lines, "".to_owned());
            add_line(&mut lines, cat3("\u{1b}[31mError: ", error.as_str(), "\u{1b}[0m"));
        },
        None => {},
    }
    lines
}

/// Build the group preview shown when a group header is selected: source, membership,
/// per-status counts, cache age, and any resolution error.
pub fn build_group_summary(
    repos: &Vec<RepoState>,
    group: Option<&Group>,
    members: &Vec<usize>,
) -> (res: Vec<String>)
    requires
        forall|k: int| 0 <= k < members@.len() ==> #[trigger] members@[k] < repos@.len(),
    ensures
        res.deep_view() == group_summary(
            repos@,
            match group {
                Some(group) => Some(*group),
                None => None,
            },
            members@,
        ),
{
    let mut lines = match group {
        Some(group) => lines_of_group(group, members.len()),
        None => {
            let mut lines = no_texts();
            add_line(&mut lines, field_line("Group", "ungrouped"));
            add_line(&mut lines, field_line("Source", "repos matching no configured group"));
            let shown = cat(count_text(members.len()).as_str(), " visible");
            add_line(&mut lines, field_line("Members", shown.as_str()));
            lines
        },
    };
    add_status(&mut lines, repos, members);
    lines
}

// ---- what the summaries say ----

/// Whether lines stand next to each other in others.
pub open spec fn has_lines(lines: Seq<Seq<char>>, part: Seq<Seq<char>>) -> bool {
    exists|i: int|
        0 <= i <= lines.len() - part.len() && #[trigger] lines.subrange(i, i + part.len()) == part
}

proof fn lemma_has_more(lines: Seq<Seq<char>>, more: Seq<Seq<char>>, part: Seq<Seq<char>>)
    requires
        has_lines(lines, part),
        lines.len() <= more.len(),
        more.take(lines.len() as int) == lines,
    ensures
        has_lines(more, part),
{
    let i = choose|i: int|
        0 <= i <= lines.len() - part.len() && #[trigger] lines.subrange(i, i + part.len()) == part;
    assert(more.subrange(i, i + part.len()) =~= part) by {
        assert forall|k: int| 0 <= k < part.len() implies more[i + k] == part[k] by {
            assert(more.take(lines.len() as int)[i + k] == lines[i + k]);
            assert(lines.subrange(i, i + part.len())[k] == part[k]);
        }
    }
}

proof fn lemma_section(
    lines: Seq<Seq<char>>,
    header: Seq<char>,
    repos: Seq<RepoState>,
    kind: RepoStatus,
    pad: nat,
)
    ensures
        ({
            let all = with_section(lines, header, repos, kind, pad);
            &&& lines.len() <= all.len()
            &&& all.take(lines.len() as int) == lines
            &&& tally(repos, kind) > 0 ==> has_lines(
                all,
                seq![""@, header] + entries_upto(repos, kind, pad, repos.len()),
            )
        }),
{
    let all = with_section(lines, header, repos, kind, pad);
    assert(all.take(lines.len() as int) =~= lines);
    if tally(repos, kind) > 0 {
        let part = seq![""@, header] + entries_upto(repos, kind, pad, repos.len());
        assert(all.subrange(lines.len() as int, lines.len() as int + part.len()) =~= part);
    }
}

/// The result lists the repos of each state under the header of that state.
pub proof fn law_result_lists_by_state(
    start: Seq<Seq<char>>,
    repos: Seq<RepoState>,
    trees: Seq<WorktreeEntry>,
    style: IconStyle,
    icons: IconSet,
)
    ensures
        tally(repos, RepoStatus::Updated) > 0 ==> has_lines(
            result_sections(start, repos, trees, style, icons),
            seq![""@, mark_of(style, "+"@, icons.updated@) + " Updated repositories:"@] + entries_upto(
                repos,
                RepoStatus::Updated,
                name_pad(repos, trees),
                repos.len(),
            ),
        ),
        tally(repos, RepoStatus::UpToDate) > 0 ==> has_lines(
            result_sections(start, repos, trees, style, icons),
            seq![""@, mark_of(style, "="@, icons.up_to_date@) + " Unchanged repositories:"@] + entries_upto(
                repos,
                RepoStatus::UpToDate,
                name_pad(repos, trees),
                repos.len(),
            ),
        ),
        tally(repos, RepoStatus::Skipped) > 0 ==> has_lines(
            result_sections(start, repos, trees, style, icons),
            seq![""@, mark_of(style, "!"@, icons.skipped@) + " Skipped repositories (uncommitted changes):"@] + entries_upto(
                repos,
                RepoStatus::Skipped,
                name_pad(repos, trees),
                repos.len(),
            ),
        ),
        tally(repos, RepoStatus::NoUpstream) > 0 ==> has_lines(
            result_sections(start, repos, trees, style, icons),
            seq![""@, mark_of(style, "~"@, icons.no_upstream@) + " No-upstream repositories (nothing to pull):"@] + entries_upto(
                repos,
                RepoStatus::NoUpstream,
                name_pad(repos, trees),
                repos.len(),
            ),
        ),
        tally(repos, RepoStatus::Throttled) > 0 ==> has_lines(
            result_sections(start, repos, trees, style, icons),
            seq![""@, mark_of(style, "!"@, icons.throttled@) + " Throttled repositories (rate-limited; retrying):"@] + entries_upto(
                repos,
                RepoStatus::Throttled,
                name_pad(repos, trees),
                repos.len(),
            ),
        ),
        tally(repos, RepoStatus::Failed) > 0 ==> has_lines(
            result_sections(start, repos, trees, style, icons),
            seq![""@, mark_of(style, "x"@, icons.failed@) + " Failed repositories:"@] + entries_upto(
                repos,
                RepoStatus::Failed,
                name_pad(repos, trees),
                repos.len(),
            ),
        ),
{
    let pad = name_pad(repos, trees);
    let head_a = mark_of(style, "+"@, icons.updated@) + " Updated repositories:"@;
    let a = with_section(start, head_a, repos, RepoStatus::Updated, pad);
    lemma_section(start, head_a, repos, RepoStatus::Updated, pad);
    let head_b = mark_of(style, "="@, icons.up_to_date@) + " Unchanged repositories:"@;
    let b = with_section(a, head_b, repos, RepoStatus::UpToDate, pad);
    lemma_section(a, head_b, repos, RepoStatus::UpToDate, pad);
    let head_c = mark_of(style, "!"@, icons.skipped@) + " Skipped repositories (uncommitted changes):"@;
    let c = with_section(b, head_c, repos, RepoStatus::Skipped, pad);
    lemma_section(b, head_c, repos, RepoStatus::Skipped, pad);
    let head_d = mark_of(style, "~"@, icons.no_upstream@) + " No-upstream repositories (nothing to pull):"@;
    let d = with_section(c, head_d, repos, RepoStatus::NoUpstream, pad);
    lemma_section(c, head_d, repos, RepoStatus::NoUpstream, pad);
    let head_e = mark_of(style, "!"@, icons.throttled@) + " Throttled repositories (rate-limited; retrying):"@;
    let e = with_section(d, head_e, repos, RepoStatus::Throttled, pad);
    lemma_section(d, head_e, repos, RepoStatus::Throttled, pad);
    let head_f = mark_of(style, "x"@, icons.failed@) + " Failed repositories:"@;
    let f = with_section(e, head_f, repos, RepoStatus::Failed, pad);
    lemma_section(e, head_f, repos, RepoStatus::Failed, pad);
    let all = result_sections(start, repos, trees, style, icons);
    assert(all.take(f.len() as int) =~= f);
    if tally(repos, RepoStatus::Updated) > 0 {
        let part = seq![""@, head_a] + entries_upto(repos, RepoStatus::Updated, pad, repos.len());
        lemma_has_more(a, b, part);
        lemma_has_more(b, c, part);
        lemma_has_more(c, d, part);
        lemma_has_more(d, e, part);
        lemma_has_more(e, f, part);
        lemma_has_more(f, all, part);
    }
    if tally(repos, RepoStatus::UpToDate) > 0 {
        let part = seq![""@, head_b] + entries_upto(repos, RepoStatus::UpToDate, pad, repos.len());
        lemma_has_more(b, c, part);
        lemma_has_more(c, d, part);
        lemma_has_more(d, e, part);
        lemma_has_more(e, f, part);
        lemma_has_more(f, all, part);
    }
    if tally(repos, RepoStatus::Skipped) > 0 {
        let part = seq![""@, head_c] + entries_upto(repos, RepoStatus::Skipped, pad, repos.len());
        lemma_has_more(c, d, part);
        lemma_has_more(d, e, part);
        lemma_has_more(e, f, part);
        lemma_has_more(f, all, part);
    }
    if tally(repos, RepoStatus::NoUpstream) > 0 {
        let part = seq![""@, head_d] + entries_upto(repos, RepoStatus::NoUpstream, pad, repos.len());
        lemma_has_more(d, e, part);
        lemma_has_more(e, f, part);
        lemma_has_more(f, all, part);
    }
    if tally(repos, RepoStatus::Throttled) > 0 {
        let part = seq![""@, head_e] + entries_upto(repos, RepoStatus::Throttled, pad, repos.len());
        lemma_has_more(e, f, part);
        lemma_has_more(f, all, part);
    }
    if tally(repos, RepoStatus::Failed) > 0 {
        let part = seq![""@, head_f] + entries_upto(repos, RepoStatus::Failed, pad, repos.len());
        lemma_has_more(f, all, part);
    }
}

proof fn lemma_entries(repos: Seq<RepoState>, kind: RepoStatus, pad: nat, n: nat)
    requires
        n <= repos.len(),
    ensures
        entries_upto(repos, kind, pad, n) =~= repos.take(n as int).filter(
            |repo: RepoState| repo.status.kind() == kind,
        ).map_values(|repo: RepoState| "   - "@ + padded(repo.name@, pad) + "  "@ + branch_or(repo)),
    decreases n,
{
    reveal(Seq::filter);
    if n > 0 {
        lemma_entries(repos, kind, pad, (n - 1) as nat);
        assert(repos.take(n as int).drop_last() =~= repos.take(n - 1));
        assert(repos.take(n as int).last() == repos[n - 1]);
    } else {
        assert(repos.take(0) =~= Seq::empty());
    }
}

/// The lines under a header are those of the repos in its state, in their order, each with its
/// name and its branch.
pub proof fn law_entries_of_a_state(repos: Seq<RepoState>, kind: RepoStatus, pad: nat)
    ensures
        entries_upto(repos, kind, pad, repos.len()) == repos.filter(
            |repo: RepoState| repo.status.kind() == kind,
        ).map_values(|repo: RepoState| "   - "@ + padded(repo.name@, pad) + "  "@ + branch_or(repo)),
{
    lemma_entries(repos, kind, pad, repos.len());
    assert(repos.take(repos.len() as int) =~= repos);
}

proof fn lemma_part(parts: Seq<Seq<char>>, count: nat, label: Seq<char>)
    ensures
        ({
            let all = with_part(parts, count, label);
            &&& parts.len() <= all.len()
            &&& all.take(parts.len() as int) == parts
            &&& count > 0 ==> all.contains(decimal(count) + " "@ + label)
            &&& all.len() == parts.len() + if count > 0 { 1int } else { 0 }
        }),
{
    let all = with_part(parts, count, label);
    assert(all.take(parts.len() as int) =~= parts);
    if count > 0 {
        assert(all[parts.len() as int] == decimal(count) + " "@ + label);
    }
}

proof fn lemma_listed_on(parts: Seq<Seq<char>>, more: Seq<Seq<char>>, text: Seq<char>)
    requires
        parts.contains(text),
        parts.len() <= more.len(),
        more.take(parts.len() as int) == parts,
    ensures
        more.contains(text),
{
    let i = choose|i: int| 0 <= i < parts.len() && parts[i] == text;
    assert(more.take(parts.len() as int)[i] == more[i]);
}

/// The totals give the number of repos in each state under the name of that state, and leave a
/// state out exactly if no repo has it.
pub proof fn law_totals_by_state(repos: Seq<RepoState>)
    ensures
        tally(repos, RepoStatus::Updated) > 0 ==> told_parts(repos).contains(
            decimal(tally(repos, RepoStatus::Updated)) + " "@ + "updated"@,
        ),
        tally(repos, RepoStatus::UpToDate) > 0 ==> told_parts(repos).contains(
            decimal(tally(repos, RepoStatus::UpToDate)) + " "@ + "up-to-date"@,
        ),
        tally(repos, RepoStatus::Skipped) > 0 ==> told_parts(repos).contains(
            decimal(tally(repos, RepoStatus::Skipped)) + " "@ + "skipped"@,
        ),
        tally(repos, RepoStatus::NoUpstream) > 0 ==> told_parts(repos).contains(
            decimal(tally(repos, RepoStatus::NoUpstream)) + " "@ + "no-upstream"@,
        ),
        tally(repos, RepoStatus::Throttled) > 0 ==> told_parts(repos).contains(
            decimal(tally(repos, RepoStatus::Throttled)) + " "@ + "throttled"@,
        ),
        tally(repos, RepoStatus::Failed) > 0 ==> told_parts(repos).contains(
            decimal(tally(repos, RepoStatus::Failed)) + " "@ + "failed"@,
        ),
        told_parts(repos).len() == (if tally(repos, RepoStatus::Updated) > 0 { 1int } else { 0 }) + (if tally(repos, RepoStatus::UpToDate) > 0 { 1int } else { 0 }) + (if tally(repos, RepoStatus::Skipped) > 0 { 1int } else { 0 }) + (if tally(repos, RepoStatus::NoUpstream) > 0 { 1int } else { 0 }) + (if tally(repos, RepoStatus::Throttled) > 0 { 1int } else { 0 }) + (if tally(repos, RepoStatus::Failed) > 0 { 1int } else { 0 }),
{
    let none = Seq::<Seq<char>>::empty();
    let a = with_part(none, tally(repos, RepoStatus::Updated), "updated"@);
    lemma_part(none, tally(repos, RepoStatus::Updated), "updated"@);
    let b = with_part(a, tally(repos, RepoStatus::UpToDate), "up-to-date"@);
    lemma_part(a, tally(repos, RepoStatus::UpToDate), "up-to-date"@);
    let c = with_part(b, tally(repos, RepoStatus::Skipped), "skipped"@);
    lemma_part(b, tally(repos, RepoStatus::Skipped), "skipped"@);
    let d = with_part(c, tally(repos, RepoStatus::NoUpstream), "no-upstream"@);
    lemma_part(c, tally(repos, RepoStatus::NoUpstream), "no-upstream"@);
    let e = with_part(d, tally(repos, RepoStatus::Throttled), "throttled"@);
    lemma_part(d, tally(repos, RepoStatus::Throttled), "throttled"@);
    let f = with_part(e, tally(repos, RepoStatus::Failed), "failed"@);
    lemma_part(e, tally(repos, RepoStatus::Failed), "failed"@);
    if tally(repos, RepoStatus::Updated) > 0 {
        let text = decimal(tally(repos, RepoStatus::Updated)) + " "@ + "updated"@;
        lemma_listed_on(a, b, text);
        lemma_listed_on(b, c, text);
        lemma_listed_on(c, d, text);
        lemma_listed_on(d, e, text);
        lemma_listed_on(e, f, text);
    }
    if tally(repos, RepoStatus::UpToDate) > 0 {
        let text = decimal(tally(repos, RepoStatus::UpToDate)) + " "@ + "up-to-date"@;
        lemma_listed_on(b, c, text);
        lemma_listed_on(c, d, text);
        lemma_listed_on(d, e, text);
        lemma_listed_on(e, f, text);
    }
    if tally(repos, RepoStatus::Skipped) > 0 {
        let text = decimal(tally(repos, RepoStatus::Skipped)) + " "@ + "skipped"@;
        lemma_listed_on(c, d, text);
        lemma_listed_on(d, e, text);
        lemma_listed_on(e, f, text);
    }
    if tally(repos, RepoStatus::NoUpstream) > 0 {
        let text = decimal(tally(repos, RepoStatus::NoUpstream)) + " "@ + "no-upstream"@;
        lemma_listed_on(d, e, text);
        lemma_listed_on(e, f, text);
    }
    if tally(repos, RepoStatus::Throttled) > 0 {
        let text = decimal(tally(repos, RepoStatus::Throttled)) + " "@ + "throttled"@;
        lemma_listed_on(e, f, text);
    }
}

/// The errors show the last fifteen lines of a log, in their order and indented, and say how many
/// came before.
pub proof fn law_failures_show_the_end(repo: RepoState, glyph: Seq<char>)
    ensures
        failure(repo, glyph)[0] == ""@,
        failure(repo, glyph)[1] == glyph + " "@ + repo.name@ + " ("@ + (branch_or(repo) + ")"@),
        repo.log@.len() <= 15 ==> failure(repo, glyph).skip(2) == repo.log@.map_values(
            |line: Seq<char>| "   "@ + line,
        ),
        repo.log@.len() > 15 ==> failure(repo, glyph)[2] == "   …"@ + decimal(
            (repo.log@.len() - 15) as nat,
        ) + " earlier line(s)"@,
        repo.log@.len() > 15 ==> failure(repo, glyph).skip(3) == repo.log@.skip(
            repo.log@.len() - 15,
        ).map_values(|line: Seq<char>| "   "@ + line),
{
    let log = repo.log@;
    let from = tail_start(log.len());
    lemma_indented(log, from, log.len());
    assert(log.skip(0) =~= log);
    let body = indented_log(log, from, log.len());
    assert(log.subrange(from as int, log.len() as int) =~= log.skip(from as int));
    if from > 0 {
        assert(failure(repo, glyph).skip(3) =~= body);
    } else {
        assert(failure(repo, glyph).skip(2) =~= body);
    }
}

proof fn lemma_indented(log: Seq<Seq<char>>, from: nat, n: nat)
    requires
        from <= n <= log.len(),
    ensures
        indented_log(log, from, n) =~= log.subrange(from as int, n as int).map_values(
            |line: Seq<char>| "   "@ + line,
        ),
    decreases n,
{
    if n > from {
        lemma_indented(log, from, (n - 1) as nat);
        assert(log.subrange(from as int, n as int) =~= log.subrange(from as int, n - 1).push(
            log[n - 1],
        ));
    }
}

proof fn lemma_failures(repos: Seq<RepoState>, glyph: Seq<char>, k: int, n: nat)
    requires
        0 <= k < n <= repos.len(),
        repos[k].status is Failed,
    ensures
        has_lines(failures_upto(repos, glyph, n), failure(repos[k], glyph)),
    decreases n,
{
    let before = failures_upto(repos, glyph, (n - 1) as nat);
    let all = failures_upto(repos, glyph, n);
    let part = failure(repos[k], glyph);
    if k < n - 1 {
        lemma_failures(repos, glyph, k, (n - 1) as nat);
        assert(all.take(before.len() as int) =~= before);
        lemma_has_more(before, all, part);
    } else {
        assert(all.subrange(before.len() as int, before.len() as int + part.len()) =~= part);
    }
}

/// Every repo that failed is in the errors, which begin with how many there are.
pub proof fn law_errors_hold_every_failure(app: AppState, icons: IconSet, k: int)
    requires
        0 <= k < app.repos@.len(),
        app.repos@[k].status is Failed,
    ensures
        error_summary(app, icons)[0] == decimal(tally(app.repos@, RepoStatus::Failed))
            + " repo(s) failed to pull:"@,
        has_lines(error_summary(app, icons).skip(1), failure(app.repos@[k], icons.failed@)),
{
    lemma_failures(app.repos@, icons.failed@, k, app.repos@.len());
    assert(error_summary(app, icons).skip(1) =~= failures_upto(
        app.repos@,
        icons.failed@,
        app.repos@.len(),
    ));
}

/// How long ago the members were looked up: in minutes below two hours, in hours from then on.
pub proof fn law_when_it_was_looked_up(minutes: u64)
    ensures
        resolved_text(None) == "never resolved"@,
        resolved_text(Some(0)) == "resolved just now"@,
        0 < minutes < 120 ==> resolved_text(Some(minutes)) == "resolved "@ + decimal(minutes as nat)
            + "m ago"@,
        minutes >= 120 ==> resolved_text(Some(minutes)) == "resolved "@ + decimal(
            (minutes / 60) as nat,
        ) + "h ago"@,
{
}

/// What a group says of its members: how many it has and how many are shown, or that they were
/// not looked up yet.
pub proof fn law_members_of_a_group(group: Group, visible: nat)
    ensures
        group.members matches Some(list) ==> membership(group, visible) == decimal(list@.len())
            + " ("@ + decimal(visible) + " visible)"@,
        group.members is None && (group.source is Command || group.source is Url) ==> membership(
            group,
            visible,
        ) == "(unresolved)"@,
        group.members is None && (group.source is Pattern || group.source is Listed) ==> membership(
            group,
            visible,
        ) == "by pattern ("@ + decimal(visible) + " visible)"@,
{
}

} // verus!
