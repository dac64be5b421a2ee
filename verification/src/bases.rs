//! What a branch is compared with: the branch that it left, and what it changed since.

use vstd::prelude::*;

use crate::dialogs::DiffFile;
use crate::repo::{BranchInfo, BranchStats, RepoPageData, RepoState};
use crate::text::{blank, chars_of, is_blank, lines_of, same, text_between, text_lines, trim, trimmed};

verus! {

// ---- the candidates ----

/// A branch can be the base of another: it is neither that branch nor its upstream.
pub open spec fn may_be_base(
    name: Seq<char>,
    branch: Seq<char>,
    upstream: Option<String>,
) -> bool {
    &&& !is_blank(name)
    &&& name != branch
    &&& upstream matches Some(upstream) ==> name != upstream@
}

/// The names among the first `n` lines that can be the base of a branch.
pub open spec fn candidates_upto(
    lines: Seq<Seq<char>>,
    branch: Seq<char>,
    upstream: Option<String>,
    n: nat,
) -> Seq<Seq<char>>
    decreases n,
{
    if n == 0 || n > lines.len() {
        Seq::empty()
    } else {
        let before = candidates_upto(lines, branch, upstream, (n - 1) as nat);
        if may_be_base(lines[n - 1], branch, upstream) {
            before.push(lines[n - 1])
        } else {
            before
        }
    }
}

/// The branches in a list of all of them that a branch may have left.
pub fn fork_candidates(stdout: &str, branch: &str, upstream: &Option<String>) -> (res: Vec<String>)
    ensures
        res.deep_view() == candidates_upto(
            text_lines(stdout@),
            branch@,
            *upstream,
            text_lines(stdout@).len(),
        ),
{
    let lines = lines_of(stdout);
    let ghost all = lines.deep_view();
    let mut out: Vec<String> = Vec::new();
    let mut i: usize = 0;
    assert(out.deep_view() =~= candidates_upto(all, branch@, *upstream, 0));
    while i < lines.len()
        invariant
            i <= lines@.len(),
            all == lines.deep_view(),
            out.deep_view() == candidates_upto(all, branch@, *upstream, i as nat),
        decreases lines@.len() - i,
    {
        assert(all[i as int] == lines@[i as int]@);
        let line = lines[i].as_str();
        let is_upstream = match upstream {
            Some(upstream) => same(line, upstream.as_str()),
            None => false,
        };
        if !blank(line) && !same(line, branch) && !is_upstream {
            let ghost before = out.deep_view();
            out.push(lines[i].clone());
            assert(out.deep_view() =~= before.push(all[i as int]));
        }
        i += 1;
    }
    out
}

// ---- the nearest ----

/// How a branch and a candidate for its base lie apart.
#[derive(Debug)]
pub struct Fork {
    pub name: String,
    /// The commits that only the branch has.
    pub own: u32,
    /// The commits that only the candidate has.
    pub theirs: u32,
}

/// The branch left one candidate later than another: it has fewer commits of its own since, or
/// as many and the candidate went on less.
pub open spec fn nearer(a: Fork, b: Fork) -> bool {
    a.own < b.own || (a.own == b.own && a.theirs < b.theirs)
}

/// The nearest of the first `n` candidates, the first among equals. One that holds all of the
/// branch does not count: it may have been cut from it.
pub open spec fn nearest_upto(forks: Seq<Fork>, n: nat) -> Option<int>
    decreases n,
{
    if n == 0 || n > forks.len() {
        None
    } else {
        let before = nearest_upto(forks, (n - 1) as nat);
        if forks[n - 1].own == 0 {
            before
        } else {
            match before {
                Some(k) => if nearer(forks[n - 1], forks[k]) {
                    Some(n - 1)
                } else {
                    before
                },
                None => Some(n - 1),
            }
        }
    }
}

/// A candidate of some name holds all of the branch.
pub open spec fn is_merged_into(forks: Seq<Fork>, name: Seq<char>) -> bool {
    exists|k: int| 0 <= k < forks.len() && #[trigger] forks[k].name@ == name && forks[k].own == 0
}

fn merged_into(forks: &Vec<Fork>, name: &str) -> (res: bool)
    ensures
        res == is_merged_into(forks@, name@),
{
    let mut i: usize = 0;
    while i < forks.len()
        invariant
            i <= forks@.len(),
            forall|k: int|
                0 <= k < i ==> !(#[trigger] forks@[k].name@ == name@ && forks@[k].own == 0),
        decreases forks@.len() - i,
    {
        if same(forks[i].name.as_str(), name) && forks[i].own == 0 {
            assert(forks@[i as int].name@ == name@);
            return true;
        }
        i += 1;
    }
    false
}

/// A branch is the repo's default branch, or tracks it.
pub open spec fn is_default(branch: BranchInfo, fallback: Seq<char>) -> bool {
    branch.name@ == fallback || (branch.upstream matches Some(upstream) && upstream@ == fallback)
}

/// The branch that another was cut from: the nearest candidate; but the repo's default branch
/// where the branch is that one itself or is held by it already, or where there is no candidate.
pub fn fork_parent(branch: &BranchInfo, forks: &Vec<Fork>, fallback: &Option<String>) -> (res:
    Option<String>)
    ensures
        if fallback is Some && (is_default(*branch, fallback->0@) || is_merged_into(
            forks@,
            fallback->0@,
        )) {
            res == *fallback
        } else {
            match nearest_upto(forks@, forks@.len()) {
                Some(k) => res == Some(forks@[k].name),
                None => res == *fallback,
            }
        },
{
    match fallback {
        Some(name) => {
            let follows = match &branch.upstream {
                Some(upstream) => same(upstream.as_str(), name.as_str()),
                None => false,
            };
            if same(branch.name.as_str(), name.as_str()) || follows || merged_into(
                forks,
                name.as_str(),
            ) {
                return Some(name.clone());
            }
        },
        None => {},
    }
    let mut nearest: Option<usize> = None;
    let mut i: usize = 0;
    while i < forks.len()
        invariant
            i <= forks@.len(),
            match nearest {
                Some(k) => nearest_upto(forks@, i as nat) == Some(k as int) && k < i,
                None => nearest_upto(forks@, i as nat) is None,
            },
        decreases forks@.len() - i,
    {
        if forks[i].own != 0 {
            let better = match nearest {
                Some(k) => forks[i].own < forks[k].own || (forks[i].own == forks[k].own
                    && forks[i].theirs < forks[k].theirs),
                None => true,
            };
            if better {
                nearest = Some(i);
            }
        }
        i += 1;
    }
    match nearest {
        Some(k) => Some(forks[k].name.clone()),
        None => crate::app::clone_text(fallback),
    }
}

proof fn lemma_nearest(forks: Seq<Fork>, n: nat)
    requires
        n <= forks.len(),
    ensures
        nearest_upto(forks, n) matches Some(k) ==> 0 <= k < n && forks[k].own > 0 && forall|j: int|
            0 <= j < n && #[trigger] forks[j].own > 0 ==> !nearer(forks[j], forks[k]),
        nearest_upto(forks, n) is None ==> forall|j: int|
            0 <= j < n ==> #[trigger] forks[j].own == 0,
    decreases n,
{
    if n > 0 {
        lemma_nearest(forks, (n - 1) as nat);
    }
}

/// No candidate that lacks a part of the branch is nearer than the one that is picked.
pub proof fn law_fork_parent_is_nearest(forks: Seq<Fork>, k: int)
    requires
        nearest_upto(forks, forks.len()) == Some(k),
    ensures
        0 <= k < forks.len(),
        forks[k].own > 0,
        forall|j: int|
            0 <= j < forks.len() && #[trigger] forks[j].own > 0 ==> !nearer(forks[j], forks[k]),
{
    lemma_nearest(forks, forks.len());
}

// ---- the changes ----

/// How a status letter counts.
#[derive(Debug, Clone, Copy, PartialEq, Eq, Structural)]
pub enum Change {
    Added,
    Modified,
    Deleted,
}

/// What a file counts as: added, deleted, and modified in all other cases.
pub open spec fn change_of(letter: char) -> Change {
    if letter == 'A' || letter == '?' {
        Change::Added
    } else if letter == 'D' {
        Change::Deleted
    } else {
        Change::Modified
    }
}

/// How many of the first `n` files count as a kind of change.
pub open spec fn changes_upto(files: Seq<DiffFile>, change: Change, n: nat) -> nat
    decreases n,
{
    if n == 0 || n > files.len() {
        0
    } else {
        changes_upto(files, change, (n - 1) as nat) + (if change_of(files[n - 1].bucket())
            == change {
            1nat
        } else {
            0nat
        })
    }
}

/// A count as far as it goes.
pub open spec fn counted_to(n: nat) -> u32 {
    if n <= u32::MAX {
        n as u32
    } else {
        u32::MAX
    }
}

fn count_changes(files: &Vec<DiffFile>, change: Change) -> (res: u32)
    ensures
        res == counted_to(changes_upto(files@, change, files@.len())),
{
    let mut n: u32 = 0;
    let mut i: usize = 0;
    while i < files.len()
        invariant
            i <= files@.len(),
            n == counted_to(changes_upto(files@, change, i as nat)),
        decreases files@.len() - i,
    {
        let letter = files[i].status_letter();
        let kind = if letter == 'A' || letter == '?' {
            Change::Added
        } else if letter == 'D' {
            Change::Deleted
        } else {
            Change::Modified
        };
        if kind == change {
            n = n.saturating_add(1);
        }
        i += 1;
    }
    n
}

/// The changes of a branch against its base.
pub fn branch_stats(files: &Vec<DiffFile>) -> (res: BranchStats)
    ensures
        res.added == counted_to(changes_upto(files@, Change::Added, files@.len())),
        res.modified == counted_to(changes_upto(files@, Change::Modified, files@.len())),
        res.deleted == counted_to(changes_upto(files@, Change::Deleted, files@.len())),
{
    BranchStats {
        added: count_changes(files, Change::Added),
        modified: count_changes(files, Change::Modified),
        deleted: count_changes(files, Change::Deleted),
    }
}

proof fn lemma_changes(files: Seq<DiffFile>, n: nat)
    requires
        n <= files.len(),
    ensures
        changes_upto(files, Change::Added, n) + changes_upto(files, Change::Modified, n)
            + changes_upto(files, Change::Deleted, n) == n,
    decreases n,
{
    if n > 0 {
        lemma_changes(files, (n - 1) as nat);
    }
}

/// Every changed file counts once: as added, modified or deleted.
pub proof fn law_changes_cover_all_files(files: Seq<DiffFile>)
    ensures
        changes_upto(files, Change::Added, files.len()) + changes_upto(
            files,
            Change::Modified,
            files.len(),
        ) + changes_upto(files, Change::Deleted, files.len()) == files.len(),
{
    lemma_changes(files, files.len());
}

/// The first characters of a commit's name.
pub const SHORT_SHA: usize = 7;

/// The short name of a commit.
pub open spec fn short_of(text: Seq<char>) -> Seq<char> {
    let sha = trimmed(text);
    if sha.len() > SHORT_SHA {
        sha.take(SHORT_SHA as int)
    } else {
        sha
    }
}

/// The short name of a commit.
pub fn short_sha(text: &str) -> (res: String)
    ensures
        res@ == short_of(text@),
{
    let sha = trim(text);
    let chars = chars_of(sha.as_str());
    if chars.len() > SHORT_SHA {
        let short = text_between(&chars, 0, SHORT_SHA);
        assert(short@ =~= sha@.take(SHORT_SHA as int));
        short
    } else {
        sha
    }
}

// ---- what arrives ----

/// What was read of a branch: its base, whether that was chosen by hand, where the branch left
/// it, and what it changed since.
#[derive(Debug)]
pub struct BranchFacts {
    pub base: Option<String>,
    pub chosen: bool,
    pub start: Option<String>,
    pub stats: Option<BranchStats>,
}

/// A branch with what was read of it.
pub open spec fn informed(branch: BranchInfo, facts: BranchFacts) -> BranchInfo {
    BranchInfo {
        base: facts.base,
        base_is_override: facts.chosen,
        merge_base_short: facts.start,
        stats: facts.stats,
        ..branch
    }
}

/// The first branch of a name from `from` on.
pub open spec fn branch_named(branches: Seq<BranchInfo>, name: Seq<char>, from: int) -> Option<int>
    decreases branches.len() - from,
{
    if from < 0 || from >= branches.len() {
        None
    } else if branches[from].name@ == name {
        Some(from)
    } else {
        branch_named(branches, name, from + 1)
    }
}

fn find_branch(branches: &Vec<BranchInfo>, name: &str) -> (res: Option<usize>)
    ensures
        match res {
            Some(k) => k < branches@.len() && branch_named(branches@, name@, 0) == Some(k as int),
            None => branch_named(branches@, name@, 0) is None,
        },
{
    let mut i: usize = 0;
    while i < branches.len()
        invariant
            i <= branches@.len(),
            branch_named(branches@, name@, 0) == branch_named(branches@, name@, i as int),
        decreases branches@.len() - i,
    {
        if same(branches[i].name.as_str(), name) {
            return Some(i);
        }
        i += 1;
    }
    None
}

/// What was read of a branch has arrived: it is shown if the page still lists the branch.
pub fn branch_arrived(repo: &mut RepoState, name: &str, facts: BranchFacts)
    ensures
        match old(repo).page {
            Some(page) => match branch_named(page.branches@, name@, 0) {
                Some(k) => {
                    &&& final(repo).page matches Some(after) && after.branches@
                        == page.branches@.update(k, informed(page.branches@[k], facts))
                        && after == (RepoPageData { branches: after.branches, ..page })
                    &&& *final(repo) == (RepoState { page: final(repo).page, ..*old(repo) })
                },
                None => *final(repo) == *old(repo),
            },
            None => *final(repo) == *old(repo),
        },
{
    match repo.page.take() {
        Some(page) => {
            let mut page = page;
            match find_branch(&page.branches, name) {
                Some(k) => {
                    let ghost before = page.branches@;
                    let mut branch = page.branches.remove(k);
                    branch.base = facts.base;
                    branch.base_is_override = facts.chosen;
                    branch.merge_base_short = facts.start;
                    branch.stats = facts.stats;
                    page.branches.insert(k, branch);
                    assert(page.branches@ =~= before.update(k as int, branch));
                },
                None => {},
            }
            repo.page = Some(page);
        },
        None => {},
    }
}

// ---- what counts as a base ----

proof fn lemma_candidates(
    lines: Seq<Seq<char>>,
    branch: Seq<char>,
    upstream: Option<String>,
    n: nat,
)
    requires
        n <= lines.len(),
    ensures
        candidates_upto(lines, branch, upstream, n) =~= lines.take(n as int).filter(
            |name: Seq<char>|
                !is_blank(name) && name != branch && !(upstream is Some && name == upstream->0@),
        ),
    decreases n,
{
    reveal(Seq::filter);
    if n > 0 {
        lemma_candidates(lines, branch, upstream, (n - 1) as nat);
        assert(lines.take(n as int).drop_last() =~= lines.take(n - 1));
        assert(lines.take(n as int).last() == lines[n - 1]);
    } else {
        assert(lines.take(0) =~= Seq::empty());
    }
}

/// Every branch may be the base but the branch itself and its own upstream.
pub proof fn law_any_other_branch_may_be_base(
    lines: Seq<Seq<char>>,
    branch: Seq<char>,
    upstream: Option<String>,
)
    ensures
        candidates_upto(lines, branch, upstream, lines.len()) == lines.filter(
            |name: Seq<char>|
                !is_blank(name) && name != branch && !(upstream is Some && name == upstream->0@),
        ),
{
    lemma_candidates(lines, branch, upstream, lines.len());
    assert(lines.take(lines.len() as int) =~= lines);
}

/// The base is the candidate that lacks the fewest commits of the branch, of those that lack any;
/// of equals the one with the fewest commits of its own, and of equals again the first. There is
/// none only where no candidate lacks a commit.
pub proof fn law_fewest_own_commits_win(forks: Seq<Fork>)
    ensures
        match nearest_upto(forks, forks.len()) {
            Some(k) => {
                &&& 0 <= k < forks.len()
                &&& forks[k].own > 0
                &&& forall|j: int|
                    0 <= j < forks.len() && (#[trigger] forks[j]).own > 0 ==> {
                        &&& forks[k].own <= forks[j].own
                        &&& forks[k].own == forks[j].own ==> forks[k].theirs <= forks[j].theirs
                        &&& forks[k].own == forks[j].own && forks[k].theirs == forks[j].theirs
                            ==> k <= j
                    }
            },
            None => forall|j: int| 0 <= j < forks.len() ==> (#[trigger] forks[j]).own == 0,
        },
{
    lemma_fewest(forks, forks.len());
}

proof fn lemma_fewest(forks: Seq<Fork>, n: nat)
    requires
        n <= forks.len(),
    ensures
        match nearest_upto(forks, n) {
            Some(k) => {
                &&& 0 <= k < n
                &&& forks[k].own > 0
                &&& forall|j: int|
                    0 <= j < n && (#[trigger] forks[j]).own > 0 ==> {
                        &&& forks[k].own <= forks[j].own
                        &&& forks[k].own == forks[j].own ==> forks[k].theirs <= forks[j].theirs
                        &&& forks[k].own == forks[j].own && forks[k].theirs == forks[j].theirs
                            ==> k <= j
                    }
            },
            None => forall|j: int| 0 <= j < n ==> (#[trigger] forks[j]).own == 0,
        },
    decreases n,
{
    if n > 0 {
        lemma_fewest(forks, (n - 1) as nat);
    }
}

proof fn lemma_letters(files: Seq<DiffFile>, n: nat)
    requires
        n <= files.len(),
    ensures
        changes_upto(files, Change::Added, n) == files.take(n as int).filter(
            |file: DiffFile| file.bucket() == 'A' || file.bucket() == '?',
        ).len(),
        changes_upto(files, Change::Deleted, n) == files.take(n as int).filter(
            |file: DiffFile| file.bucket() == 'D',
        ).len(),
    decreases n,
{
    reveal(Seq::filter);
    if n > 0 {
        lemma_letters(files, (n - 1) as nat);
        assert(files.take(n as int).drop_last() =~= files.take(n - 1));
        assert(files.take(n as int).last() == files[n - 1]);
    } else {
        assert(files.take(0) =~= Seq::empty());
    }
}

/// New files and those unknown to git count as added, `D` as deleted, and all others as modified.
pub proof fn law_letters_count(files: Seq<DiffFile>)
    ensures
        changes_upto(files, Change::Added, files.len()) == files.filter(
            |file: DiffFile| file.bucket() == 'A' || file.bucket() == '?',
        ).len(),
        changes_upto(files, Change::Deleted, files.len()) == files.filter(
            |file: DiffFile| file.bucket() == 'D',
        ).len(),
        changes_upto(files, Change::Modified, files.len()) == files.len() - changes_upto(
            files,
            Change::Added,
            files.len(),
        ) - changes_upto(files, Change::Deleted, files.len()),
{
    lemma_letters(files, files.len());
    lemma_changes(files, files.len());
    assert(files.take(files.len() as int) =~= files);
}

/// A commit's short name is how its name begins, seven characters of it at most.
pub proof fn law_short_names(text: Seq<char>)
    ensures
        short_of(text) == trimmed(text).take(short_of(text).len() as int),
        short_of(text).len() == if trimmed(text).len() < 7 { trimmed(text).len() } else { 7 },
{
    assert(trimmed(text).take(trimmed(text).len() as int) =~= trimmed(text));
}

/// What was found out about a branch is kept in its own field, and nothing else of it changes.
pub proof fn law_facts_are_kept(branch: BranchInfo, facts: BranchFacts)
    ensures
        informed(branch, facts).base == facts.base,
        informed(branch, facts).base_is_override == facts.chosen,
        informed(branch, facts).merge_base_short == facts.start,
        informed(branch, facts).stats == facts.stats,
        informed(branch, facts).name == branch.name,
        informed(branch, facts).is_head == branch.is_head,
        informed(branch, facts).upstream == branch.upstream,
        informed(branch, facts).ahead == branch.ahead,
        informed(branch, facts).behind == branch.behind,
{
}

} // verus!
