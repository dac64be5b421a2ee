//! The order of the list.

use vstd::prelude::*;
use vstd::string::*;

use crate::app::{AppState, Prefs};
use crate::options::{SortColumn, SortDir};
use crate::repo::{RepoDetails, RepoState, RepoStatus, WorktreeEntry};
use crate::text::{
    lemma_text_total, lemma_text_transitive, not_after, parse_number, parsed, pieces, same, split,
    starts, starts_with, text_le, Separator,
};

verus! {

/// The rank of a status in the order of the list.
pub open spec fn status_rank(status: RepoStatus) -> nat {
    match status {
        RepoStatus::Queued => 0,
        RepoStatus::Running { .. } => 1,
        RepoStatus::UpToDate => 2,
        RepoStatus::Updated => 3,
        RepoStatus::NoUpstream => 4,
        RepoStatus::Skipped => 5,
        RepoStatus::Throttled => 6,
        RepoStatus::Failed => 7,
    }
}

fn rank_of(status: &RepoStatus) -> (res: u64)
    ensures
        res == status_rank(*status),
{
    match status {
        RepoStatus::Queued => 0,
        RepoStatus::Running { .. } => 1,
        RepoStatus::UpToDate => 2,
        RepoStatus::Updated => 3,
        RepoStatus::NoUpstream => 4,
        RepoStatus::Skipped => 5,
        RepoStatus::Throttled => 6,
        RepoStatus::Failed => 7,
    }
}

/// The seconds in a unit of time that a relative date counts in.
pub open spec fn unit_seconds(unit: Seq<char>) -> nat {
    if starts(unit, "second"@) {
        1
    } else if starts(unit, "minute"@) {
        60
    } else if starts(unit, "hour"@) {
        3_600
    } else if starts(unit, "day"@) {
        86_400
    } else if starts(unit, "week"@) {
        604_800
    } else if starts(unit, "month"@) {
        2_592_000
    } else {
        31_536_000
    }
}

fn seconds_of(unit: &str) -> (res: u64)
    ensures
        res == unit_seconds(unit@),
        res <= 31_536_000,
{
    if starts_with(unit, "second") {
        1
    } else if starts_with(unit, "minute") {
        60
    } else if starts_with(unit, "hour") {
        3_600
    } else if starts_with(unit, "day") {
        86_400
    } else if starts_with(unit, "week") {
        604_800
    } else if starts_with(unit, "month") {
        2_592_000
    } else {
        31_536_000
    }
}

/// The age in seconds that a relative date such as `3 days ago` stands for, by its first unit;
/// one that cannot be read is older than all others.
pub open spec fn age(date: Seq<char>) -> nat {
    let words = pieces(date, Separator::One(' '));
    if words.len() < 2 {
        u64::MAX as nat
    } else {
        match parsed(words[0], u32::MAX as nat) {
            Some(n) => n * unit_seconds(words[1]),
            None => u64::MAX as nat,
        }
    }
}

fn age_of(date: &str) -> (res: u64)
    ensures
        res == age(date@),
{
    let words = split(date, Separator::One(' '));
    if words.len() < 2 {
        return u64::MAX;
    }
    assert(words.deep_view()[0] == words@[0]@);
    assert(words.deep_view()[1] == words@[1]@);
    match parse_number(words[0].as_str(), u32::MAX) {
        Some(n) => {
            let unit: u64 = seconds_of(words[1].as_str());
            assert(n * unit <= u32::MAX * 31_536_000) by (nonlinear_arith)
                requires
                    n <= u32::MAX,
                    unit <= 31_536_000,
            ;
            n as u64 * unit
        },
        None => u64::MAX,
    }
}

/// The worktrees of a repo among the first `n`.
pub open spec fn trees_upto(trees: Seq<WorktreeEntry>, name: Seq<char>, n: nat) -> nat
    decreases n,
{
    if n == 0 || n > trees.len() {
        0
    } else {
        trees_upto(trees, name, (n - 1) as nat) + if trees[n - 1].repo@ == name {
            1nat
        } else {
            0nat
        }
    }
}

/// The number of worktrees of a repo.
pub open spec fn tree_count(trees: Seq<WorktreeEntry>, name: Seq<char>) -> nat {
    trees_upto(trees, name, trees.len())
}

/// The number of worktrees of a repo.
pub fn count_trees(trees: &Vec<WorktreeEntry>, name: &str) -> (res: usize)
    ensures
        res == tree_count(trees@, name@),
{
    let mut count: usize = 0;
    let mut i: usize = 0;
    while i < trees.len()
        invariant
            i <= trees@.len(),
            count <= i,
            count == trees_upto(trees@, name@, i as nat),
        decreases trees@.len() - i,
    {
        if same(trees[i].repo.as_str(), name) {
            count += 1;
        }
        i += 1;
    }
    count
}

/// The text that a repo is sorted by.
pub open spec fn sort_text(repo: RepoState, column: SortColumn) -> Seq<char> {
    match column {
        SortColumn::Branch => match repo.branch {
            Some(branch) => branch@,
            None => Seq::empty(),
        },
        _ => repo.name@,
    }
}

/// The number that a repo is sorted by; what is not known yet counts as nothing.
pub open spec fn sort_number(
    repo: RepoState,
    trees: Seq<WorktreeEntry>,
    column: SortColumn,
) -> nat {
    match column {
        SortColumn::Status => status_rank(repo.status),
        SortColumn::Worktrees => tree_count(trees, repo.name@),
        _ => match repo.details {
            Some(details) => match column {
                SortColumn::AheadBehind => (match details.ahead {
                    Some(n) => n as nat,
                    None => 0,
                }) + (match details.behind {
                    Some(n) => n as nat,
                    None => 0,
                }),
                SortColumn::Dirty => details.dirty_count as nat,
                SortColumn::LastCommit => age(details.commit_rel_date@),
                SortColumn::Branches => details.branch_count as nat,
                _ => details.stash_count as nat,
            },
            None => 0,
        },
    }
}

fn number_of(repo: &RepoState, trees: &Vec<WorktreeEntry>, column: SortColumn) -> (res: u64)
    ensures
        res == sort_number(*repo, trees@, column),
{
    match column {
        SortColumn::Status => rank_of(&repo.status),
        SortColumn::Worktrees => count_trees(trees, repo.name.as_str()) as u64,
        _ => match &repo.details {
            Some(details) => match column {
                SortColumn::AheadBehind => {
                    let ahead: u64 = match details.ahead {
                        Some(n) => n as u64,
                        None => 0,
                    };
                    let behind: u64 = match details.behind {
                        Some(n) => n as u64,
                        None => 0,
                    };
                    ahead + behind
                },
                SortColumn::Dirty => details.dirty_count as u64,
                SortColumn::LastCommit => age_of(details.commit_rel_date.as_str()),
                SortColumn::Branches => details.branch_count as u64,
                _ => details.stash_count as u64,
            },
            None => 0,
        },
    }
}

/// A column that is sorted by its text.
pub open spec fn by_text(column: SortColumn) -> bool {
    column is Name || column is Branch
}

/// A repo does not come after another where a column is sorted upwards.
pub open spec fn ascends(
    a: RepoState,
    b: RepoState,
    trees: Seq<WorktreeEntry>,
    column: SortColumn,
) -> bool {
    if by_text(column) {
        text_le(sort_text(a, column), sort_text(b, column))
    } else {
        sort_number(a, trees, column) <= sort_number(b, trees, column)
    }
}

fn branch_text(repo: &RepoState) -> (res: &str)
    ensures
        res@ == sort_text(*repo, SortColumn::Branch),
{
    match &repo.branch {
        Some(branch) => branch.as_str(),
        None => {
            proof {
                reveal_strlit("");
            }
            assert(""@ =~= Seq::<char>::empty());
            ""
        },
    }
}

fn does_ascend(
    a: &RepoState,
    b: &RepoState,
    trees: &Vec<WorktreeEntry>,
    column: SortColumn,
) -> (res: bool)
    ensures
        res == ascends(*a, *b, trees@, column),
{
    match column {
        SortColumn::Name => not_after(a.name.as_str(), b.name.as_str()),
        SortColumn::Branch => not_after(branch_text(a), branch_text(b)),
        _ => number_of(a, trees, column) <= number_of(b, trees, column),
    }
}

impl AppState {
    /// A repo does not come after another in the list.
    pub open spec fn in_order(self, a: usize, b: usize) -> bool {
        let trees = self.progress.worktrees@;
        match self.prefs.sort_dir {
            SortDir::Asc => ascends(
                self.repos@[a as int],
                self.repos@[b as int],
                trees,
                self.prefs.sort_column,
            ),
            SortDir::Desc => ascends(
                self.repos@[b as int],
                self.repos@[a as int],
                trees,
                self.prefs.sort_column,
            ),
        }
    }

    fn stand_in_order(&self, a: usize, b: usize) -> (res: bool)
        requires
            a < self.repos@.len(),
            b < self.repos@.len(),
        ensures
            res == self.in_order(a, b),
    {
        match self.prefs.sort_dir {
            SortDir::Asc => does_ascend(
                &self.repos[a],
                &self.repos[b],
                &self.progress.worktrees,
                self.prefs.sort_column,
            ),
            SortDir::Desc => does_ascend(
                &self.repos[b],
                &self.repos[a],
                &self.progress.worktrees,
                self.prefs.sort_column,
            ),
        }
    }

    /// Where a repo goes into a list in order: behind all that do not come after it.
    pub open spec fn slot(self, list: Seq<usize>, repo: usize) -> int
        decreases list.len(),
    {
        if list.len() == 0 || self.in_order(list.last(), repo) {
            list.len() as int
        } else {
            self.slot(list.drop_last(), repo)
        }
    }

    /// A list put in order; repos that sort alike keep their order.
    pub open spec fn arranged(self, list: Seq<usize>) -> Seq<usize>
        decreases list.len(),
    {
        if list.len() == 0 {
            Seq::empty()
        } else {
            let rest = self.arranged(list.drop_last());
            rest.insert(self.slot(rest, list.last()), list.last())
        }
    }

    proof fn lemma_slot(self, list: Seq<usize>, repo: usize)
        ensures
            0 <= self.slot(list, repo) <= list.len(),
            self.slot(list, repo) > 0 ==> self.in_order(list[self.slot(list, repo) - 1], repo),
            forall|j: int|
                self.slot(list, repo) <= j < list.len() ==> !self.in_order(#[trigger] list[j], repo),
        decreases list.len(),
    {
        if list.len() > 0 && !self.in_order(list.last(), repo) {
            self.lemma_slot(list.drop_last(), repo);
            assert forall|j: int| self.slot(list, repo) <= j < list.len() implies !self.in_order(
                #[trigger] list[j],
                repo,
            ) by {
                if j < list.len() - 1 {
                    assert(list.drop_last()[j] == list[j]);
                }
            }
        }
    }

    proof fn lemma_order_total(self, a: usize, b: usize)
        ensures
            self.in_order(a, b) || self.in_order(b, a),
    {
        let column = self.prefs.sort_column;
        lemma_text_total(
            sort_text(self.repos@[a as int], column),
            sort_text(self.repos@[b as int], column),
        );
    }

    proof fn lemma_order_transitive(self, a: usize, b: usize, c: usize)
        requires
            self.in_order(a, b),
            self.in_order(b, c),
        ensures
            self.in_order(a, c),
    {
        let column = self.prefs.sort_column;
        let x = sort_text(self.repos@[a as int], column);
        let y = sort_text(self.repos@[b as int], column);
        let z = sort_text(self.repos@[c as int], column);
        if by_text(column) {
            if self.prefs.sort_dir is Asc {
                lemma_text_transitive(x, y, z);
            } else {
                lemma_text_transitive(z, y, x);
            }
        }
    }

    /// Putting a list in order keeps its repos, each as often as it was there, and leaves no
    /// repo after one that it comes before.
    pub proof fn law_arranged_list(self, list: Seq<usize>)
        ensures
            self.arranged(list).len() == list.len(),
            self.arranged(list).to_multiset() == list.to_multiset(),
            forall|i: int, j: int|
                0 <= i < j < list.len() ==> #[trigger] self.in_order(
                    self.arranged(list)[i],
                    self.arranged(list)[j],
                ),
        decreases list.len(),
    {
        broadcast use vstd::seq_lib::group_to_multiset_ensures;

        if list.len() > 0 {
            let init = list.drop_last();
            let x = list.last();
            self.law_arranged_list(init);
            let rest = self.arranged(init);
            let at = self.slot(rest, x);
            self.lemma_slot(rest, x);
            let all = self.arranged(list);
            assert(list =~= init.push(x));
            assert(all.to_multiset() =~= rest.to_multiset().insert(x));
            assert forall|i: int, j: int| 0 <= i < j < list.len() implies #[trigger] self.in_order(
                all[i],
                all[j],
            ) by {
                if j < at {
                    assert(self.in_order(rest[i], rest[j]));
                } else if j == at {
                    if i < at - 1 {
                        assert(self.in_order(rest[i], rest[at - 1]));
                        self.lemma_order_transitive(rest[i], rest[at - 1], x);
                    }
                } else if i < at {
                    assert(self.in_order(rest[i], rest[j - 1]));
                } else if i == at {
                    assert(!self.in_order(rest[j - 1], x));
                    self.lemma_order_total(x, rest[j - 1]);
                } else {
                    assert(self.in_order(rest[i - 1], rest[j - 1]));
                }
            }
        }
    }

    /// The repos of a list in order are those of the list.
    pub(crate) proof fn lemma_arranged_members(self, list: Seq<usize>)
        ensures
            self.arranged(list).len() == list.len(),
            forall|k: usize| #[trigger] self.arranged(list).contains(k) <==> list.contains(k),
    {
        broadcast use vstd::seq_lib::group_to_multiset_ensures;

        self.law_arranged_list(list);
        let all = self.arranged(list);
        assert forall|k: usize| #[trigger] all.contains(k) <==> list.contains(k) by {
            assert(all.contains(k) <==> all.to_multiset().count(k) > 0);
            assert(list.contains(k) <==> list.to_multiset().count(k) > 0);
        }
    }

    /// Puts a list in order; repos that sort alike keep their order.
    pub(crate) fn arrange(&self, list: &Vec<usize>) -> (res: Vec<usize>)
        requires
            forall|k: int| 0 <= k < list@.len() ==> #[trigger] list@[k] < self.repos@.len(),
        ensures
            res@ == self.arranged(list@),
    {
        let mut out: Vec<usize> = Vec::new();
        let mut k: usize = 0;
        while k < list.len()
            invariant
                forall|k: int| 0 <= k < list@.len() ==> #[trigger] list@[k] < self.repos@.len(),
                k <= list@.len(),
                out@ == self.arranged(list@.take(k as int)),
            decreases list@.len() - k,
        {
            let x: usize = list[k];
            proof {
                self.lemma_arranged_members(list@.take(k as int));
            }
            assert(list@.take(k + 1).drop_last() =~= list@.take(k as int));
            let mut at: usize = out.len();
            assert(out@.take(at as int) =~= out@);
            while at > 0 && !self.ordered_pair(out[at - 1], x, list, k)
                invariant
                    forall|k: int| 0 <= k < list@.len() ==> #[trigger] list@[k] < self.repos@.len(),
                    k < list@.len(),
                    x == list@[k as int],
                    at <= out@.len(),
                    out@ == self.arranged(list@.take(k as int)),
                    self.slot(out@, x) == self.slot(out@.take(at as int), x),
                decreases at,
            {
                assert(out@.take(at as int).drop_last() =~= out@.take(at - 1));
                at -= 1;
            }
            assert(self.slot(out@.take(at as int), x) == at);
            out.insert(at, x);
            k += 1;
        }
        assert(list@.take(list@.len() as int) =~= list@);
        out
    }

    fn ordered_pair(&self, a: usize, b: usize, list: &Vec<usize>, k: usize) -> (res: bool)
        requires
            forall|k: int| 0 <= k < list@.len() ==> #[trigger] list@[k] < self.repos@.len(),
            k < list@.len(),
            b == list@[k as int],
            self.arranged(list@.take(k as int)).contains(a),
        ensures
            res == self.in_order(a, b),
    {
        proof {
            self.lemma_arranged_members(list@.take(k as int));
            let taken = list@.take(k as int);
            assert(taken.contains(a));
            let i = choose|i: int| 0 <= i < taken.len() && taken[i] == a;
            assert(list@[i] == a);
        }
        self.stand_in_order(a, b)
    }
}

/// The order of a list depends only on the repos, the worktrees and the sorting.
pub(crate) proof fn lemma_arranged_same(a: AppState, b: AppState, list: Seq<usize>)
    requires
        a.repos@ == b.repos@,
        a.progress.worktrees@ == b.progress.worktrees@,
        a.prefs.sort_column == b.prefs.sort_column,
        a.prefs.sort_dir == b.prefs.sort_dir,
    ensures
        a.arranged(list) == b.arranged(list),
    decreases list.len(),
{
    if list.len() > 0 {
        lemma_arranged_same(a, b, list.drop_last());
        lemma_slot_same(a, b, a.arranged(list.drop_last()), list.last());
    }
}

proof fn lemma_slot_same(a: AppState, b: AppState, list: Seq<usize>, repo: usize)
    requires
        a.repos@ == b.repos@,
        a.progress.worktrees@ == b.progress.worktrees@,
        a.prefs.sort_column == b.prefs.sort_column,
        a.prefs.sort_dir == b.prefs.sort_dir,
    ensures
        a.slot(list, repo) == b.slot(list, repo),
    decreases list.len(),
{
    if list.len() > 0 {
        lemma_slot_same(a, b, list.drop_last(), repo);
    }
}

// ---- what the columns sort by ----

/// The states in the order in which an ascending list shows them.
pub proof fn law_order_of_states(waiting: RepoStatus, running: RepoStatus)
    requires
        waiting is Queued,
        running is Running,
    ensures
        status_rank(waiting) < status_rank(running),
        status_rank(running) < status_rank(RepoStatus::UpToDate),
        status_rank(RepoStatus::UpToDate) < status_rank(RepoStatus::Updated),
        status_rank(RepoStatus::Updated) < status_rank(RepoStatus::NoUpstream),
        status_rank(RepoStatus::NoUpstream) < status_rank(RepoStatus::Skipped),
        status_rank(RepoStatus::Skipped) < status_rank(RepoStatus::Throttled),
        status_rank(RepoStatus::Throttled) < status_rank(RepoStatus::Failed),
{
}

proof fn lemma_trees(trees: Seq<WorktreeEntry>, name: Seq<char>, n: nat)
    requires
        n <= trees.len(),
    ensures
        trees_upto(trees, name, n) == trees.take(n as int).filter(
            |tree: WorktreeEntry| tree.repo@ == name,
        ).len(),
    decreases n,
{
    reveal(Seq::filter);
    if n > 0 {
        lemma_trees(trees, name, (n - 1) as nat);
        assert(trees.take(n as int).drop_last() =~= trees.take(n - 1));
        assert(trees.take(n as int).last() == trees[n - 1]);
    } else {
        assert(trees.take(0) =~= Seq::empty());
    }
}

/// A repo has the worktrees that carry its name.
pub proof fn law_worktrees_of_a_repo(trees: Seq<WorktreeEntry>, name: Seq<char>)
    ensures
        tree_count(trees, name) == trees.filter(|tree: WorktreeEntry| tree.repo@ == name).len(),
{
    lemma_trees(trees, name, trees.len());
    assert(trees.take(trees.len() as int) =~= trees);
}

/// What each column sorts by, in ascending order: the name, the branch and the state; how far
/// the repo is from its upstream, both ways added up; the changes, the age of the last commit, the
/// worktrees, the branches and the stashes.
pub proof fn law_columns_sort_by(app: AppState, a: usize, b: usize)
    requires
        app.prefs.sort_dir is Asc,
    ensures
        ({
            let x = app.repos@[a as int];
            let y = app.repos@[b as int];
            let column = app.prefs.sort_column;
            &&& column is Name ==> app.in_order(a, b) == text_le(x.name@, y.name@)
            &&& column is Branch && x.branch is Some && y.branch is Some ==> app.in_order(a, b)
                == text_le(x.branch->0@, y.branch->0@)
            &&& column is Branch && x.branch is None ==> app.in_order(a, b)
            &&& column is Status ==> app.in_order(a, b) == (status_rank(x.status) <= status_rank(
                y.status,
            ))
            &&& column is Worktrees ==> app.in_order(a, b) == (tree_count(
                app.progress.worktrees@,
                x.name@,
            ) <= tree_count(app.progress.worktrees@, y.name@))
        }),
{
}

/// What the columns sort by that stands in the details of a repo.
pub proof fn law_details_sort_by(app: AppState, a: usize, b: usize, x: RepoDetails, y: RepoDetails)
    requires
        app.prefs.sort_dir is Asc,
        app.repos@[a as int].details == Some(x),
        app.repos@[b as int].details == Some(y),
    ensures
        app.prefs.sort_column is Dirty ==> app.in_order(a, b) == (x.dirty_count <= y.dirty_count),
        app.prefs.sort_column is Branches ==> app.in_order(a, b) == (x.branch_count
            <= y.branch_count),
        app.prefs.sort_column is Stashes ==> app.in_order(a, b) == (x.stash_count <= y.stash_count),
        app.prefs.sort_column is LastCommit ==> app.in_order(a, b) == (age(x.commit_rel_date@)
            <= age(y.commit_rel_date@)),
        app.prefs.sort_column is AheadBehind && x.ahead is Some && x.behind is Some && y.ahead is Some
            && y.behind is Some ==> app.in_order(a, b) == (x.ahead->0 + x.behind->0 <= y.ahead->0
            + y.behind->0),
{
}

/// The other direction is the same order the other way round.
pub proof fn law_descending_reverses(app: AppState, a: usize, b: usize)
    ensures
        app.prefs.sort_dir is Asc ==> app.in_order(a, b) == (AppState {
            prefs: Prefs { sort_dir: SortDir::Desc, ..app.prefs },
            ..app
        }).in_order(b, a),
{
}

/// How many seconds a unit of time has.
pub proof fn law_units_of_time(unit: Seq<char>)
    ensures
        starts(unit, "second"@) ==> unit_seconds(unit) == 1,
        starts(unit, "minute"@) ==> unit_seconds(unit) == 60,
        starts(unit, "hour"@) ==> unit_seconds(unit) == 60 * 60,
        starts(unit, "day"@) ==> unit_seconds(unit) == 24 * 60 * 60,
        starts(unit, "week"@) ==> unit_seconds(unit) == 7 * 24 * 60 * 60,
        starts(unit, "month"@) ==> unit_seconds(unit) == 30 * 24 * 60 * 60,
        starts(unit, "year"@) ==> unit_seconds(unit) == 365 * 24 * 60 * 60,
{
    reveal_strlit("second");
    reveal_strlit("minute");
    reveal_strlit("hour");
    reveal_strlit("day");
    reveal_strlit("week");
    reveal_strlit("month");
    reveal_strlit("year");
    lemma_start(unit, "second"@);
    lemma_start(unit, "minute"@);
    lemma_start(unit, "hour"@);
    lemma_start(unit, "day"@);
    lemma_start(unit, "week"@);
    lemma_start(unit, "month"@);
    lemma_start(unit, "year"@);
}

proof fn lemma_start(unit: Seq<char>, word: Seq<char>)
    requires
        word.len() >= 2,
    ensures
        starts(unit, word) ==> unit.len() >= 2 && unit[0] == word[0] && unit[1] == word[1],
{
    if starts(unit, word) {
        assert(unit.subrange(0, word.len() as int)[0] == word[0]);
        assert(unit.subrange(0, word.len() as int)[1] == word[1]);
    }
}

/// An age is its number of units; a date that does not begin with a number is older than all.
pub proof fn law_ages(date: Seq<char>, words: Seq<Seq<char>>)
    requires
        words == pieces(date, Separator::One(' ')),
    ensures
        words.len() >= 2 && parsed(words[0], u32::MAX as nat) is Some ==> age(date) == parsed(
            words[0],
            u32::MAX as nat,
        )->0 * unit_seconds(words[1]),
        words.len() < 2 || parsed(words[0], u32::MAX as nat) is None ==> age(date) == u64::MAX,
{
}

/// Texts are ordered by their characters, the first that differs decides, and a text comes after
/// what it begins with.
pub proof fn law_text_order(head: Seq<char>, a: Seq<char>, b: Seq<char>)
    ensures
        text_le(head, head + b),
        b.len() > 0 ==> !text_le(head + b, head),
        a.len() > 0 && b.len() > 0 && (a[0] as int) < (b[0] as int) ==> text_le(head + a, head + b)
            && !text_le(head + b, head + a),
    decreases head.len(),
{
    if head.len() > 0 {
        law_text_order(head.skip(1), a, b);
        assert((head + a).skip(1) =~= head.skip(1) + a);
        assert((head + b).skip(1) =~= head.skip(1) + b);
    } else {
        assert(head + a =~= a);
        assert(head + b =~= b);
        assert(head =~= Seq::<char>::empty());
    }
}

} // verus!
