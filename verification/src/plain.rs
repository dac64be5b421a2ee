//! The streaming output without a screen.

use vstd::prelude::*;
use vstd::string::*;

use crate::git::PullOutcome;
use crate::repo::WorktreeEntry;
use crate::text::{
    byte_len, bytes_of, cat, cat3, count_text, decimal, has_text, join, joined, lines_of, pad_right,
    padded, stands_at, text_lines,
};

verus! {

/// What came of one repo.
#[derive(Debug, Clone, Copy, PartialEq, Eq, Structural)]
pub enum PlainState {
    Updated,
    UpToDate,
    Skipped,
    /// There is nothing to pull from, which is no failure.
    NoUpstream,
    /// The remote limits the rate of requests, which is no failure of the repo.
    Throttled,
    Failed,
}

/// One repo's part of the output.
#[derive(Debug)]
pub struct RepoResult {
    pub name: String,
    pub branch: String,
    pub output: String,
    pub state: PlainState,
}

/// The first line.
pub fn plain_header(cwd_name: &str) -> (res: String)
    ensures
        res@ == "🔄 Pulling all repositories in "@ + cwd_name@ + "...\n"@,
{
    cat3("🔄 Pulling all repositories in ", cwd_name, "...\n")
}

/// What follows the first line where there is nothing to pull.
pub fn plain_nothing(cwd_name: &str) -> (res: String)
    ensures
        res@ == "\n🎉 Pull completed!\n\n   No git repositories found in "@ + cwd_name@ + ".\n"@,
{
    cat3("\n🎉 Pull completed!\n\n   No git repositories found in ", cwd_name, ".\n")
}

/// The first `n` lines, each behind three blanks.
pub open spec fn indented_upto(lines: Seq<Seq<char>>, n: nat) -> Seq<char>
    decreases n,
{
    if n == 0 || n > lines.len() {
        Seq::empty()
    } else {
        indented_upto(lines, (n - 1) as nat) + "   "@ + lines[n - 1] + "\n"@
    }
}

/// The lines of a text, each behind three blanks.
pub open spec fn indented(text: Seq<char>) -> Seq<char> {
    indented_upto(text_lines(text), text_lines(text).len())
}

fn indent(text: &str) -> (res: String)
    ensures
        res@ == indented(text@),
{
    let lines = lines_of(text);
    let ghost all = lines.deep_view();
    let mut out = String::new();
    let mut i: usize = 0;
    while i < lines.len()
        invariant
            i <= lines@.len(),
            all == lines.deep_view(),
            out@ == indented_upto(all, i as nat),
        decreases lines@.len() - i,
    {
        assert(all[i as int] == lines@[i as int]@);
        out.append("   ");
        out.append(lines[i].as_str());
        out.append("\n");
        i += 1;
    }
    out
}

/// What is printed for a repo with uncommitted changes.
pub fn skipped_result(name: String, branch: String) -> (res: RepoResult)
    ensures
        res.output@ == "⚠️  Skipping "@ + name@ + " (has uncommitted changes)\n"@,
        res == (RepoResult { name, branch, output: res.output, state: PlainState::Skipped }),
{
    let output = cat3("⚠️  Skipping ", name.as_str(), " (has uncommitted changes)\n");
    RepoResult { name, branch, output, state: PlainState::Skipped }
}

/// What is printed where the pull could not be started.
pub fn unstarted_result(name: String, branch: String, error: &str) -> (res: RepoResult)
    ensures
        res.output@ == "❌ Failed: "@ + name@ + "\n   "@ + error@ + "\n\n"@,
        res == (RepoResult { name, branch, output: res.output, state: PlainState::Failed }),
{
    let output = "❌ Failed: ".to_owned().concat(name.as_str()).concat("\n   ").concat(error).concat(
        "\n\n",
    );
    RepoResult { name, branch, output, state: PlainState::Failed }
}

/// What an outcome counts as. A branch without an upstream has nothing to pull, and a throttled
/// pull waits for the remote: neither has failed.
pub open spec fn plain_state(outcome: PullOutcome) -> PlainState {
    match outcome {
        PullOutcome::AlreadyUpToDate => PlainState::UpToDate,
        PullOutcome::Updated => PlainState::Updated,
        PullOutcome::NoUpstream => PlainState::NoUpstream,
        PullOutcome::Throttled => PlainState::Throttled,
        PullOutcome::Failed => PlainState::Failed,
    }
}

/// What is printed for a pull that ran.
pub open spec fn pulled_text(
    name: Seq<char>,
    outcome: PullOutcome,
    combined: Seq<char>,
    stat: Seq<char>,
) -> Seq<char> {
    match plain_state(outcome) {
        PlainState::UpToDate => "✅ "@ + name + "\n"@,
        PlainState::Updated => if stat.len() == 0 {
            "✅ "@ + name + "\n"@
        } else {
            "✅ "@ + name + "\n"@ + stat + "\n\n"@
        },
        PlainState::NoUpstream => "⊝ "@ + name + " (no upstream)\n"@,
        PlainState::Throttled => "↯ "@ + name + " (throttled by the remote)\n"@,
        _ => "❌ Failed: "@ + name + "\n"@ + indented(combined) + "\n"@,
    }
}

/// What is printed for a pull that ran: `combined` is all that it printed, `stat` the diff stat
/// of an update.
pub fn pulled_result(
    name: String,
    branch: String,
    outcome: PullOutcome,
    combined: &str,
    stat: &str,
) -> (res: RepoResult)
    ensures
        res.output@ == pulled_text(name@, outcome, combined@, stat@),
        res == (RepoResult { name, branch, output: res.output, state: plain_state(outcome) }),
        res.state is Failed <==> outcome is Failed,
        res.state is Updated <==> outcome is Updated,
        res.state is UpToDate <==> outcome is AlreadyUpToDate,
        res.state is NoUpstream <==> outcome is NoUpstream,
        res.state is Throttled <==> outcome is Throttled,
{
    let (output, state) = match outcome {
        PullOutcome::AlreadyUpToDate => (
            cat3("✅ ", name.as_str(), "\n"),
            PlainState::UpToDate,
        ),
        PullOutcome::Updated => {
            let line = cat3("✅ ", name.as_str(), "\n");
            if stat.is_empty() {
                (line, PlainState::Updated)
            } else {
                (line.concat(stat).concat("\n\n"), PlainState::Updated)
            }
        },
        PullOutcome::NoUpstream => (
            cat3("⊝ ", name.as_str(), " (no upstream)\n"),
            PlainState::NoUpstream,
        ),
        PullOutcome::Throttled => (
            cat3("↯ ", name.as_str(), " (throttled by the remote)\n"),
            PlainState::Throttled,
        ),
        PullOutcome::Failed => (
            cat3("❌ Failed: ", name.as_str(), "\n").concat(indent(combined).as_str()).concat("\n"),
            PlainState::Failed,
        ),
    };
    RepoResult { name, branch, output, state }
}

// ---- the summary ----

/// How many of the first `n` results have a state.
pub open spec fn in_state_upto(results: Seq<RepoResult>, state: PlainState, n: nat) -> nat
    decreases n,
{
    if n == 0 || n > results.len() {
        0
    } else {
        in_state_upto(results, state, (n - 1) as nat) + if results[n - 1].state == state {
            1nat
        } else {
            0nat
        }
    }
}

/// How many results have a state.
pub open spec fn in_state(results: Seq<RepoResult>, state: PlainState) -> nat {
    in_state_upto(results, state, results.len())
}

proof fn lemma_states_cover(results: Seq<RepoResult>, n: nat)
    requires
        n <= results.len(),
    ensures
        in_state_upto(results, PlainState::Updated, n) + in_state_upto(
            results,
            PlainState::UpToDate,
            n,
        ) + in_state_upto(results, PlainState::Skipped, n) + in_state_upto(
            results,
            PlainState::NoUpstream,
            n,
        ) + in_state_upto(results, PlainState::Throttled, n) + in_state_upto(
            results,
            PlainState::Failed,
            n,
        ) == n,
    decreases n,
{
    if n > 0 {
        lemma_states_cover(results, (n - 1) as nat);
    }
}

/// Every repo counts in exactly one of the numbers of the summary, which add up to the
/// total that is printed.
pub proof fn law_states_cover_all_repos(results: Seq<RepoResult>)
    ensures
        in_state(results, PlainState::Updated) + in_state(results, PlainState::UpToDate) + in_state(
            results,
            PlainState::Skipped,
        ) + in_state(results, PlainState::NoUpstream) + in_state(results, PlainState::Throttled)
            + in_state(results, PlainState::Failed) == results.len(),
{
    lemma_states_cover(results, results.len());
}

fn count_state(results: &Vec<RepoResult>, state: PlainState) -> (res: usize)
    ensures
        res == in_state(results@, state),
{
    let mut n: usize = 0;
    let mut i: usize = 0;
    while i < results.len()
        invariant
            n <= i <= results@.len(),
            n == in_state_upto(results@, state, i as nat),
        decreases results@.len() - i,
    {
        if results[i].state == state {
            n += 1;
        }
        i += 1;
    }
    n
}

/// A list of texts with one more behind a count that is not zero.
pub open spec fn with_count(
    parts: Seq<Seq<char>>,
    count: nat,
    label: Seq<char>,
) -> Seq<Seq<char>> {
    if count > 0 {
        parts.push(decimal(count) + label)
    } else {
        parts
    }
}

fn push_count(parts: Vec<String>, count: usize, label: &str) -> (res: Vec<String>)
    ensures
        res.deep_view() == with_count(parts.deep_view(), count as nat, label@),
{
    let ghost before = parts.deep_view();
    let mut parts = parts;
    if count > 0 {
        parts.push(cat(count_text(count).as_str(), label));
        assert(parts.deep_view() =~= before.push(decimal(count as nat) + label@));
    }
    parts
}

/// The numbers of the summary: those that are not zero.
pub open spec fn total_parts(results: Seq<RepoResult>) -> Seq<Seq<char>> {
    let a = with_count(Seq::empty(), in_state(results, PlainState::Updated), " updated"@);
    let b = with_count(a, in_state(results, PlainState::UpToDate), " up-to-date"@);
    let c = with_count(b, in_state(results, PlainState::Skipped), " skipped"@);
    let d = with_count(c, in_state(results, PlainState::NoUpstream), " no-upstream"@);
    let e = with_count(d, in_state(results, PlainState::Throttled), " throttled"@);
    with_count(e, in_state(results, PlainState::Failed), " failed"@)
}

/// The larger of two numbers.
pub open spec fn larger(a: nat, b: nat) -> nat {
    if a >= b {
        a
    } else {
        b
    }
}

/// A number as far as it can be counted.
pub open spec fn countable(n: nat) -> nat {
    if n <= usize::MAX {
        n
    } else {
        usize::MAX as nat
    }
}

/// The length in bytes of the longest name among the first `n` results.
pub open spec fn name_width_upto(results: Seq<RepoResult>, n: nat) -> nat
    decreases n,
{
    if n == 0 || n > results.len() {
        0
    } else {
        larger(
            name_width_upto(results, (n - 1) as nat),
            countable(byte_len(results[n - 1].name@)),
        )
    }
}

/// The length in bytes of the longest repo name among the first `n` worktrees, but at least
/// `floor`.
pub open spec fn tree_width_upto(trees: Seq<WorktreeEntry>, floor: nat, n: nat) -> nat
    decreases n,
{
    if n == 0 || n > trees.len() {
        floor
    } else {
        larger(
            tree_width_upto(trees, floor, (n - 1) as nat),
            countable(byte_len(trees[n - 1].repo@)),
        )
    }
}

/// The width of the name column.
pub open spec fn name_column(results: Seq<RepoResult>, trees: Seq<WorktreeEntry>) -> nat {
    tree_width_upto(trees, name_width_upto(results, results.len()), trees.len())
}

fn name_width(results: &Vec<RepoResult>, trees: &Vec<WorktreeEntry>) -> (res: usize)
    ensures
        res == name_column(results@, trees@),
{
    let mut pad: usize = 0;
    let mut i: usize = 0;
    while i < results.len()
        invariant
            i <= results@.len(),
            pad == name_width_upto(results@, i as nat),
        decreases results@.len() - i,
    {
        let len: usize = bytes_of(results[i].name.as_str());
        if len > pad {
            pad = len;
        }
        i += 1;
    }
    let ghost floor = pad as nat;
    let mut i: usize = 0;
    while i < trees.len()
        invariant
            i <= trees@.len(),
            pad == tree_width_upto(trees@, floor, i as nat),
        decreases trees@.len() - i,
    {
        let len: usize = bytes_of(trees[i].repo.as_str());
        if len > pad {
            pad = len;
        }
        i += 1;
    }
    pad
}

/// One line of a section.
pub open spec fn entry_line(name: Seq<char>, branch: Seq<char>, width: nat) -> Seq<char> {
    "   - "@ + padded(name, width) + "  "@ + branch + "\n"@
}

fn entry(name: &str, branch: &str, width: usize) -> (res: String)
    ensures
        res@ == entry_line(name@, branch@, width as nat),
{
    "   - ".to_owned().concat(pad_right(name, width).as_str()).concat("  ").concat(branch).concat(
        "\n",
    )
}

/// The lines of the results among the first `n` that have a state.
pub open spec fn section_upto(
    results: Seq<RepoResult>,
    state: PlainState,
    width: nat,
    n: nat,
) -> Seq<char>
    decreases n,
{
    if n == 0 || n > results.len() {
        Seq::empty()
    } else if results[n - 1].state == state {
        section_upto(results, state, width, (n - 1) as nat) + entry_line(
            results[n - 1].name@,
            results[n - 1].branch@,
            width,
        )
    } else {
        section_upto(results, state, width, (n - 1) as nat)
    }
}

/// The section of a state: nothing where no repo has it.
pub open spec fn section(
    header: Seq<char>,
    results: Seq<RepoResult>,
    state: PlainState,
    width: nat,
) -> Seq<char> {
    if in_state(results, state) == 0 {
        Seq::empty()
    } else {
        "\n"@ + header + "\n"@ + section_upto(results, state, width, results.len())
    }
}

fn print_section(header: &str, results: &Vec<RepoResult>, state: PlainState, width: usize) -> (res:
    String)
    ensures
        res@ == section(header@, results@, state, width as nat),
{
    if count_state(results, state) == 0 {
        let none = String::new();
        assert(none@ =~= Seq::<char>::empty());
        return none;
    }
    let mut lines = String::new();
    let mut i: usize = 0;
    while i < results.len()
        invariant
            i <= results@.len(),
            lines@ == section_upto(results@, state, width as nat, i as nat),
        decreases results@.len() - i,
    {
        if results[i].state == state {
            lines.append(
                entry(results[i].name.as_str(), results[i].branch.as_str(), width).as_str(),
            );
        }
        i += 1;
    }
    cat3("\n", header, "\n").concat(lines.as_str())
}

/// The lines of the first `n` worktrees.
pub open spec fn trees_upto(trees: Seq<WorktreeEntry>, width: nat, n: nat) -> Seq<char>
    decreases n,
{
    if n == 0 || n > trees.len() {
        Seq::empty()
    } else {
        trees_upto(trees, width, (n - 1) as nat) + entry_line(
            trees[n - 1].repo@,
            trees[n - 1].branch@,
            width,
        )
    }
}

/// The section of the worktrees.
pub open spec fn tree_section(trees: Seq<WorktreeEntry>, width: nat) -> Seq<char> {
    if trees.len() == 0 {
        Seq::empty()
    } else {
        "\n🌳 Active worktrees:\n"@ + trees_upto(trees, width, trees.len())
    }
}

fn print_trees(trees: &Vec<WorktreeEntry>, width: usize) -> (res: String)
    ensures
        res@ == tree_section(trees@, width as nat),
{
    if trees.len() == 0 {
        let none = String::new();
        assert(none@ =~= Seq::<char>::empty());
        return none;
    }
    let mut lines = String::new();
    let mut i: usize = 0;
    while i < trees.len()
        invariant
            i <= trees@.len(),
            lines@ == trees_upto(trees@, width as nat, i as nat),
        decreases trees@.len() - i,
    {
        lines.append(entry(trees[i].repo.as_str(), trees[i].branch.as_str(), width).as_str());
        i += 1;
    }
    cat("\n🌳 Active worktrees:\n", lines.as_str())
}

/// What was printed for the first `n` repos.
pub open spec fn outputs_upto(results: Seq<RepoResult>, n: nat) -> Seq<char>
    decreases n,
{
    if n == 0 || n > results.len() {
        Seq::empty()
    } else {
        outputs_upto(results, (n - 1) as nat) + results[n - 1].output@
    }
}

/// What is printed once all pulls are done, up to the totals.
pub open spec fn totals_text(results: Seq<RepoResult>) -> Seq<char> {
    outputs_upto(results, results.len()) + "\n🎉 Pull completed!\n\n   "@ + decimal(results.len())
        + " total: "@ + joined(total_parts(results), ", "@) + "\n"@
}

/// What is printed once all pulls are done, up to the totals.
pub fn plain_totals(results: &Vec<RepoResult>) -> (res: String)
    ensures
        res@ == totals_text(results@),
{
    let mut out = String::new();
    let mut i: usize = 0;
    while i < results.len()
        invariant
            i <= results@.len(),
            out@ == outputs_upto(results@, i as nat),
        decreases results@.len() - i,
    {
        out.append(results[i].output.as_str());
        i += 1;
    }
    let parts: Vec<String> = Vec::new();
    assert(parts.deep_view() =~= Seq::<Seq<char>>::empty());
    let parts = push_count(parts, count_state(results, PlainState::Updated), " updated");
    let parts = push_count(parts, count_state(results, PlainState::UpToDate), " up-to-date");
    let parts = push_count(parts, count_state(results, PlainState::Skipped), " skipped");
    let parts = push_count(parts, count_state(results, PlainState::NoUpstream), " no-upstream");
    let parts = push_count(parts, count_state(results, PlainState::Throttled), " throttled");
    let parts = push_count(parts, count_state(results, PlainState::Failed), " failed");
    out.append("\n🎉 Pull completed!\n\n   ");
    out.append(count_text(results.len()).as_str());
    out.append(" total: ");
    out.append(join(&parts, ", ").as_str());
    out.append("\n");
    out
}

/// The lists at the end: the repos by what came of them, and the worktrees.
pub open spec fn lists_text(results: Seq<RepoResult>, trees: Seq<WorktreeEntry>) -> Seq<char> {
    let width = name_column(results, trees);
    section("✨ Updated repositories:"@, results, PlainState::Updated, width) + section(
        "📦 Unchanged repositories:"@,
        results,
        PlainState::UpToDate,
        width,
    ) + section(
        "⚠️  Skipped repositories (uncommitted changes):"@,
        results,
        PlainState::Skipped,
        width,
    ) + section(
        "⊝ No-upstream repositories (nothing to pull):"@,
        results,
        PlainState::NoUpstream,
        width,
    ) + section(
        "↯ Throttled repositories (rate-limited):"@,
        results,
        PlainState::Throttled,
        width,
    ) + section("❌ Failed repositories:"@, results, PlainState::Failed, width) + tree_section(
        trees,
        width,
    )
}

/// The lists at the end: the repos by what came of them, and the worktrees.
pub fn plain_lists(results: &Vec<RepoResult>, trees: &Vec<WorktreeEntry>) -> (res: String)
    ensures
        res@ == lists_text(results@, trees@),
{
    let width: usize = name_width(results, trees);
    print_section("✨ Updated repositories:", results, PlainState::Updated, width).concat(
        print_section("📦 Unchanged repositories:", results, PlainState::UpToDate, width).as_str(),
    ).concat(
        print_section(
            "⚠️  Skipped repositories (uncommitted changes):",
            results,
            PlainState::Skipped,
            width,
        ).as_str(),
    ).concat(
        print_section(
            "⊝ No-upstream repositories (nothing to pull):",
            results,
            PlainState::NoUpstream,
            width,
        ).as_str(),
    ).concat(
        print_section(
            "↯ Throttled repositories (rate-limited):",
            results,
            PlainState::Throttled,
            width,
        ).as_str(),
    ).concat(
        print_section("❌ Failed repositories:", results, PlainState::Failed, width).as_str(),
    ).concat(print_trees(trees, width).as_str())
}

// ---- what the output tells ----

/// The results of a state, in their order.
pub open spec fn of_state(results: Seq<RepoResult>, state: PlainState) -> Seq<RepoResult> {
    results.filter(|result: RepoResult| result.state == state)
}

/// A line for each result: a dash, its name padded to a width, two blanks and its branch.
pub open spec fn listed_lines(results: Seq<RepoResult>, width: nat) -> Seq<char>
    decreases results.len(),
{
    if results.len() == 0 {
        Seq::empty()
    } else {
        listed_lines(results.drop_last(), width) + ("   - "@ + padded(results.last().name@, width)
            + "  "@ + results.last().branch@ + "\n"@)
    }
}

proof fn lemma_section_lines(results: Seq<RepoResult>, state: PlainState, width: nat, n: nat)
    requires
        n <= results.len(),
    ensures
        section_upto(results, state, width, n) == listed_lines(
            of_state(results.take(n as int), state),
            width,
        ),
        in_state_upto(results, state, n) == of_state(results.take(n as int), state).len(),
    decreases n,
{
    let pick = |result: RepoResult| result.state == state;
    reveal(Seq::filter);
    if n > 0 {
        lemma_section_lines(results, state, width, (n - 1) as nat);
        let here = results.take(n as int);
        assert(here.drop_last() =~= results.take(n - 1));
        assert(here.last() == results[n - 1]);
        let before = of_state(results.take(n - 1), state);
        if results[n - 1].state == state {
            assert(of_state(here, state) == before.push(results[n - 1]));
            assert(before.push(results[n - 1]).drop_last() =~= before);
        }
    }
}

/// Some result has a state.
pub open spec fn some_in(results: Seq<RepoResult>, state: PlainState) -> bool {
    exists|k: int| 0 <= k < results.len() && (#[trigger] results[k]).state == state
}

proof fn lemma_some_in(results: Seq<RepoResult>, state: PlainState, n: nat)
    requires
        n <= results.len(),
    ensures
        in_state_upto(results, state, n) > 0 <==> exists|k: int|
            0 <= k < n && (#[trigger] results[k]).state == state,
    decreases n,
{
    if n > 0 {
        lemma_some_in(results, state, (n - 1) as nat);
        if results[n - 1].state == state {
            assert(results[n - 1].state == state);
        }
    }
}

proof fn lemma_stands_between(before: Seq<char>, part: Seq<char>, after: Seq<char>)
    ensures
        has_text(before + part + after, part),
{
    let text = before + part + after;
    assert(text.subrange(before.len() as int, before.len() as int + part.len()) =~= part);
    assert(stands_at(text, part, before.len() as int));
}

proof fn lemma_section_is(header: Seq<char>, results: Seq<RepoResult>, state: PlainState, width: nat)
    ensures
        section(header, results, state, width) == if some_in(results, state) {
            "\n"@ + header + "\n"@ + listed_lines(of_state(results, state), width)
        } else {
            Seq::empty()
        },
{
    lemma_section_lines(results, state, width, results.len());
    lemma_some_in(results, state, results.len());
    assert(results.take(results.len() as int) =~= results);
}

proof fn lemma_seven(
    a: Seq<char>,
    b: Seq<char>,
    c: Seq<char>,
    d: Seq<char>,
    e: Seq<char>,
    f: Seq<char>,
    g: Seq<char>,
)
    ensures
        has_text(a + b + c + d + e + f + g, a),
        has_text(a + b + c + d + e + f + g, b),
        has_text(a + b + c + d + e + f + g, c),
        has_text(a + b + c + d + e + f + g, d),
        has_text(a + b + c + d + e + f + g, e),
        has_text(a + b + c + d + e + f + g, f),
{
    let all = a + b + c + d + e + f + g;
    let none = Seq::<char>::empty();
    assert(has_text(all, a)) by {
        lemma_stands_between(none, a, b + c + d + e + f + g);
        assert(all =~= (none) + a + (b + c + d + e + f + g));
    }
    assert(has_text(all, b)) by {
        lemma_stands_between(a, b, c + d + e + f + g);
        assert(all =~= (a) + b + (c + d + e + f + g));
    }
    assert(has_text(all, c)) by {
        lemma_stands_between(a + b, c, d + e + f + g);
        assert(all =~= (a + b) + c + (d + e + f + g));
    }
    assert(has_text(all, d)) by {
        lemma_stands_between(a + b + c, d, e + f + g);
        assert(all =~= (a + b + c) + d + (e + f + g));
    }
    assert(has_text(all, e)) by {
        lemma_stands_between(a + b + c + d, e, f + g);
        assert(all =~= (a + b + c + d) + e + (f + g));
    }
    assert(has_text(all, f)) by {
        lemma_stands_between(a + b + c + d + e, f, g);
        assert(all =~= (a + b + c + d + e) + f + (g));
    }
}

/// The repos of each state are listed under the header of that state: where a result has it, the
/// lists hold the header with a line for each such result, in their order, and for no other.
pub proof fn law_repos_are_listed_by_state(results: Seq<RepoResult>, trees: Seq<WorktreeEntry>)
    ensures
        (exists|k: int| 0 <= k < results.len() && (#[trigger] results[k]).state is Updated)
            ==> has_text(
            lists_text(results, trees),
            "\n"@ + "✨ Updated repositories:"@ + "\n"@ + listed_lines(
                results.filter(|result: RepoResult| result.state == PlainState::Updated),
                name_column(results, trees),
            ),
        ),
        (exists|k: int| 0 <= k < results.len() && (#[trigger] results[k]).state is UpToDate)
            ==> has_text(
            lists_text(results, trees),
            "\n"@ + "📦 Unchanged repositories:"@ + "\n"@ + listed_lines(
                results.filter(|result: RepoResult| result.state == PlainState::UpToDate),
                name_column(results, trees),
            ),
        ),
        (exists|k: int| 0 <= k < results.len() && (#[trigger] results[k]).state is Skipped)
            ==> has_text(
            lists_text(results, trees),
            "\n"@ + "⚠️  Skipped repositories (uncommitted changes):"@ + "\n"@ + listed_lines(
                results.filter(|result: RepoResult| result.state == PlainState::Skipped),
                name_column(results, trees),
            ),
        ),
        (exists|k: int| 0 <= k < results.len() && (#[trigger] results[k]).state is NoUpstream)
            ==> has_text(
            lists_text(results, trees),
            "\n"@ + "⊝ No-upstream repositories (nothing to pull):"@ + "\n"@ + listed_lines(
                results.filter(|result: RepoResult| result.state == PlainState::NoUpstream),
                name_column(results, trees),
            ),
        ),
        (exists|k: int| 0 <= k < results.len() && (#[trigger] results[k]).state is Throttled)
            ==> has_text(
            lists_text(results, trees),
            "\n"@ + "↯ Throttled repositories (rate-limited):"@ + "\n"@ + listed_lines(
                results.filter(|result: RepoResult| result.state == PlainState::Throttled),
                name_column(results, trees),
            ),
        ),
        (exists|k: int| 0 <= k < results.len() && (#[trigger] results[k]).state is Failed)
            ==> has_text(
            lists_text(results, trees),
            "\n"@ + "❌ Failed repositories:"@ + "\n"@ + listed_lines(
                results.filter(|result: RepoResult| result.state == PlainState::Failed),
                name_column(results, trees),
            ),
        ),
{
    let width = name_column(results, trees);
    let a = section("✨ Updated repositories:"@, results, PlainState::Updated, width);
    lemma_section_is("✨ Updated repositories:"@, results, PlainState::Updated, width);
    let b = section("📦 Unchanged repositories:"@, results, PlainState::UpToDate, width);
    lemma_section_is("📦 Unchanged repositories:"@, results, PlainState::UpToDate, width);
    let c = section("⚠️  Skipped repositories (uncommitted changes):"@, results, PlainState::Skipped, width);
    lemma_section_is("⚠️  Skipped repositories (uncommitted changes):"@, results, PlainState::Skipped, width);
    let d = section("⊝ No-upstream repositories (nothing to pull):"@, results, PlainState::NoUpstream, width);
    lemma_section_is("⊝ No-upstream repositories (nothing to pull):"@, results, PlainState::NoUpstream, width);
    let e = section("↯ Throttled repositories (rate-limited):"@, results, PlainState::Throttled, width);
    lemma_section_is("↯ Throttled repositories (rate-limited):"@, results, PlainState::Throttled, width);
    let f = section("❌ Failed repositories:"@, results, PlainState::Failed, width);
    lemma_section_is("❌ Failed repositories:"@, results, PlainState::Failed, width);
    let g = tree_section(trees, width);
    lemma_seven(a, b, c, d, e, f, g);
    if exists|k: int| 0 <= k < results.len() && (#[trigger] results[k]).state is Updated {
        assert(some_in(results, PlainState::Updated));
    }
    if exists|k: int| 0 <= k < results.len() && (#[trigger] results[k]).state is UpToDate {
        assert(some_in(results, PlainState::UpToDate));
    }
    if exists|k: int| 0 <= k < results.len() && (#[trigger] results[k]).state is Skipped {
        assert(some_in(results, PlainState::Skipped));
    }
    if exists|k: int| 0 <= k < results.len() && (#[trigger] results[k]).state is NoUpstream {
        assert(some_in(results, PlainState::NoUpstream));
    }
    if exists|k: int| 0 <= k < results.len() && (#[trigger] results[k]).state is Throttled {
        assert(some_in(results, PlainState::Throttled));
    }
    if exists|k: int| 0 <= k < results.len() && (#[trigger] results[k]).state is Failed {
        assert(some_in(results, PlainState::Failed));
    }
}

/// A text is free of a character.
pub open spec fn free_of(text: Seq<char>, mark: char) -> bool {
    forall|i: int| 0 <= i < text.len() ==> #[trigger] text[i] != mark
}

proof fn lemma_line_free(name: Seq<char>, branch: Seq<char>, width: nat, mark: char)
    requires
        free_of(name, mark),
        free_of(branch, mark),
        mark != ' ' && mark != '-' && mark != '\n',
    ensures
        free_of(entry_line(name, branch, width), mark),
{
    reveal_strlit("   - ");
    reveal_strlit("  ");
    reveal_strlit("\n");
    let a = "   - "@;
    assert(free_of(a, mark));
    assert(free_of(padded(name, width), mark));
    assert(free_of(a + padded(name, width), mark));
    assert(free_of(a + padded(name, width) + "  "@, mark));
    assert(free_of(a + padded(name, width) + "  "@ + branch, mark));
}

/// No name and no branch holds a character.
pub open spec fn names_free_of(results: Seq<RepoResult>, trees: Seq<WorktreeEntry>, mark: char) -> bool {
    &&& forall|k: int|
        0 <= k < results.len() ==> free_of((#[trigger] results[k]).name@, mark) && free_of(
            results[k].branch@,
            mark,
        )
    &&& forall|k: int|
        0 <= k < trees.len() ==> free_of((#[trigger] trees[k]).repo@, mark) && free_of(
            trees[k].branch@,
            mark,
        )
}

proof fn lemma_lines_free(
    results: Seq<RepoResult>,
    trees: Seq<WorktreeEntry>,
    state: PlainState,
    width: nat,
    mark: char,
    n: nat,
)
    requires
        names_free_of(results, trees, mark),
        mark != ' ' && mark != '-' && mark != '\n',
    ensures
        free_of(section_upto(results, state, width, n), mark),
        free_of(trees_upto(trees, width, n), mark),
    decreases n,
{
    if n > 0 {
        lemma_lines_free(results, trees, state, width, mark, (n - 1) as nat);
        if n <= results.len() {
            lemma_line_free(results[n - 1].name@, results[n - 1].branch@, width, mark);
        }
        if n <= trees.len() {
            lemma_line_free(trees[n - 1].repo@, trees[n - 1].branch@, width, mark);
        }
    }
}

proof fn lemma_section_free(
    header: Seq<char>,
    results: Seq<RepoResult>,
    trees: Seq<WorktreeEntry>,
    state: PlainState,
    width: nat,
    mark: char,
)
    requires
        names_free_of(results, trees, mark),
        mark != ' ' && mark != '-' && mark != '\n',
        free_of(header, mark) || !some_in(results, state),
    ensures
        free_of(section(header, results, state, width), mark),
{
    lemma_some_in(results, state, results.len());
    lemma_lines_free(results, trees, state, width, mark, results.len());
    reveal_strlit("\n");
    assert(free_of("\n"@, mark));
    if some_in(results, state) {
        assert(free_of("\n"@ + header, mark));
        assert(free_of("\n"@ + header + "\n"@, mark));
    }
}

proof fn lemma_mark_updated(mark: char)
    requires
        mark != '✨',
        mark == '✨' || mark == '📦' || mark == '⚠' || mark == '⊝' || mark == '↯' || mark == '❌',
    ensures
        free_of("✨ Updated repositories:"@, mark),
{
    reveal_strlit("✨ Updated repositories:");
}

proof fn lemma_mark_uptodate(mark: char)
    requires
        mark != '📦',
        mark == '✨' || mark == '📦' || mark == '⚠' || mark == '⊝' || mark == '↯' || mark == '❌',
    ensures
        free_of("📦 Unchanged repositories:"@, mark),
{
    reveal_strlit("📦 Unchanged repositories:");
}

proof fn lemma_mark_skipped(mark: char)
    requires
        mark != '⚠',
        mark == '✨' || mark == '📦' || mark == '⚠' || mark == '⊝' || mark == '↯' || mark == '❌',
    ensures
        free_of("⚠️  Skipped repositories (uncommitted changes):"@, mark),
{
    reveal_strlit("⚠️  Skipped repositories (uncommitted changes):");
}

proof fn lemma_mark_noupstream(mark: char)
    requires
        mark != '⊝',
        mark == '✨' || mark == '📦' || mark == '⚠' || mark == '⊝' || mark == '↯' || mark == '❌',
    ensures
        free_of("⊝ No-upstream repositories (nothing to pull):"@, mark),
{
    reveal_strlit("⊝ No-upstream repositories (nothing to pull):");
}

proof fn lemma_mark_throttled(mark: char)
    requires
        mark != '↯',
        mark == '✨' || mark == '📦' || mark == '⚠' || mark == '⊝' || mark == '↯' || mark == '❌',
    ensures
        free_of("↯ Throttled repositories (rate-limited):"@, mark),
{
    reveal_strlit("↯ Throttled repositories (rate-limited):");
}

proof fn lemma_mark_failed(mark: char)
    requires
        mark != '❌',
        mark == '✨' || mark == '📦' || mark == '⚠' || mark == '⊝' || mark == '↯' || mark == '❌',
    ensures
        free_of("❌ Failed repositories:"@, mark),
{
    reveal_strlit("❌ Failed repositories:");
}

/// Where no result has a state, the lists lack the header of that state: the sign that it begins
/// with stands nowhere in them, unless in the name of a repo or a branch.
pub proof fn law_other_states_are_not_listed(
    results: Seq<RepoResult>,
    trees: Seq<WorktreeEntry>,
    mark: char,
)
    requires
        names_free_of(results, trees, mark),
    ensures
        mark == '✨' && !free_of(lists_text(results, trees), mark) ==> exists|k: int|
            0 <= k < results.len() && (#[trigger] results[k]).state is Updated,
        mark == '📦' && !free_of(lists_text(results, trees), mark) ==> exists|k: int|
            0 <= k < results.len() && (#[trigger] results[k]).state is UpToDate,
        mark == '⚠' && !free_of(lists_text(results, trees), mark) ==> exists|k: int|
            0 <= k < results.len() && (#[trigger] results[k]).state is Skipped,
        mark == '⊝' && !free_of(lists_text(results, trees), mark) ==> exists|k: int|
            0 <= k < results.len() && (#[trigger] results[k]).state is NoUpstream,
        mark == '↯' && !free_of(lists_text(results, trees), mark) ==> exists|k: int|
            0 <= k < results.len() && (#[trigger] results[k]).state is Throttled,
        mark == '❌' && !free_of(lists_text(results, trees), mark) ==> exists|k: int|
            0 <= k < results.len() && (#[trigger] results[k]).state is Failed,
{
    if mark == '✨' || mark == '📦' || mark == '⚠' || mark == '⊝' || mark == '↯' || mark == '❌' {
        let width = name_column(results, trees);
        if mark != '✨' {
            lemma_mark_updated(mark);
        }
        if mark != '✨' || !some_in(results, PlainState::Updated) {
            lemma_section_free("✨ Updated repositories:"@, results, trees, PlainState::Updated, width, mark);
        }
        if mark != '📦' {
            lemma_mark_uptodate(mark);
        }
        if mark != '📦' || !some_in(results, PlainState::UpToDate) {
            lemma_section_free("📦 Unchanged repositories:"@, results, trees, PlainState::UpToDate, width, mark);
        }
        if mark != '⚠' {
            lemma_mark_skipped(mark);
        }
        if mark != '⚠' || !some_in(results, PlainState::Skipped) {
            lemma_section_free("⚠️  Skipped repositories (uncommitted changes):"@, results, trees, PlainState::Skipped, width, mark);
        }
        if mark != '⊝' {
            lemma_mark_noupstream(mark);
        }
        if mark != '⊝' || !some_in(results, PlainState::NoUpstream) {
            lemma_section_free("⊝ No-upstream repositories (nothing to pull):"@, results, trees, PlainState::NoUpstream, width, mark);
        }
        if mark != '↯' {
            lemma_mark_throttled(mark);
        }
        if mark != '↯' || !some_in(results, PlainState::Throttled) {
            lemma_section_free("↯ Throttled repositories (rate-limited):"@, results, trees, PlainState::Throttled, width, mark);
        }
        if mark != '❌' {
            lemma_mark_failed(mark);
        }
        if mark != '❌' || !some_in(results, PlainState::Failed) {
            lemma_section_free("❌ Failed repositories:"@, results, trees, PlainState::Failed, width, mark);
        }
        lemma_lines_free(results, trees, PlainState::Failed, width, mark, trees.len());
        reveal_strlit("\n🌳 Active worktrees:\n");
        assert(free_of("\n🌳 Active worktrees:\n"@, mark));
        assert(free_of(tree_section(trees, width), mark));
    }
}

/// A repo of a state counts in the number of that state and in no other, and each number that is
/// not zero is told with its word.
pub proof fn law_totals_name_the_states(results: Seq<RepoResult>)
    ensures
        results.filter(|result: RepoResult| result.state == PlainState::Updated).len() > 0
            ==> total_parts(results).contains(
            decimal(results.filter(|result: RepoResult| result.state == PlainState::Updated).len())
                + " updated"@,
        ),
        results.filter(|result: RepoResult| result.state == PlainState::UpToDate).len() > 0
            ==> total_parts(results).contains(
            decimal(results.filter(|result: RepoResult| result.state == PlainState::UpToDate).len())
                + " up-to-date"@,
        ),
        results.filter(|result: RepoResult| result.state == PlainState::Skipped).len() > 0
            ==> total_parts(results).contains(
            decimal(results.filter(|result: RepoResult| result.state == PlainState::Skipped).len())
                + " skipped"@,
        ),
        results.filter(|result: RepoResult| result.state == PlainState::NoUpstream).len() > 0
            ==> total_parts(results).contains(
            decimal(results.filter(|result: RepoResult| result.state == PlainState::NoUpstream).len())
                + " no-upstream"@,
        ),
        results.filter(|result: RepoResult| result.state == PlainState::Throttled).len() > 0
            ==> total_parts(results).contains(
            decimal(results.filter(|result: RepoResult| result.state == PlainState::Throttled).len())
                + " throttled"@,
        ),
        results.filter(|result: RepoResult| result.state == PlainState::Failed).len() > 0
            ==> total_parts(results).contains(
            decimal(results.filter(|result: RepoResult| result.state == PlainState::Failed).len())
                + " failed"@,
        ),
{
    assert(results.take(results.len() as int) =~= results);
    lemma_section_lines(results, PlainState::Updated, 0, results.len());
    lemma_section_lines(results, PlainState::UpToDate, 0, results.len());
    lemma_section_lines(results, PlainState::Skipped, 0, results.len());
    lemma_section_lines(results, PlainState::NoUpstream, 0, results.len());
    lemma_section_lines(results, PlainState::Throttled, 0, results.len());
    lemma_section_lines(results, PlainState::Failed, 0, results.len());
    let none = Seq::<Seq<char>>::empty();
    let a = with_count(none, in_state(results, PlainState::Updated), " updated"@);
    if in_state(results, PlainState::Updated) > 0 {
        assert(a.last() == decimal(in_state(results, PlainState::Updated)) + " updated"@);
    }
    let b = with_count(a, in_state(results, PlainState::UpToDate), " up-to-date"@);
    if in_state(results, PlainState::UpToDate) > 0 {
        assert(b.last() == decimal(in_state(results, PlainState::UpToDate)) + " up-to-date"@);
    }
    let c = with_count(b, in_state(results, PlainState::Skipped), " skipped"@);
    if in_state(results, PlainState::Skipped) > 0 {
        assert(c.last() == decimal(in_state(results, PlainState::Skipped)) + " skipped"@);
    }
    let d = with_count(c, in_state(results, PlainState::NoUpstream), " no-upstream"@);
    if in_state(results, PlainState::NoUpstream) > 0 {
        assert(d.last() == decimal(in_state(results, PlainState::NoUpstream)) + " no-upstream"@);
    }
    let e = with_count(d, in_state(results, PlainState::Throttled), " throttled"@);
    if in_state(results, PlainState::Throttled) > 0 {
        assert(e.last() == decimal(in_state(results, PlainState::Throttled)) + " throttled"@);
    }
    let f = with_count(e, in_state(results, PlainState::Failed), " failed"@);
    if in_state(results, PlainState::Failed) > 0 {
        assert(f.last() == decimal(in_state(results, PlainState::Failed)) + " failed"@);
    }
    assert(a.is_prefix_of(f));
    assert(b.is_prefix_of(f));
    assert(c.is_prefix_of(f));
    assert(d.is_prefix_of(f));
    assert(e.is_prefix_of(f));
    if in_state(results, PlainState::Updated) > 0 {
        assert(f[a.len() - 1] == a.last());
    }
    if in_state(results, PlainState::UpToDate) > 0 {
        assert(f[b.len() - 1] == b.last());
    }
    if in_state(results, PlainState::Skipped) > 0 {
        assert(f[c.len() - 1] == c.last());
    }
    if in_state(results, PlainState::NoUpstream) > 0 {
        assert(f[d.len() - 1] == d.last());
    }
    if in_state(results, PlainState::Throttled) > 0 {
        assert(f[e.len() - 1] == e.last());
    }
    if in_state(results, PlainState::Failed) > 0 {
        assert(f[f.len() - 1] == f.last());
    }
}

/// The exit code is 1 exactly if some pull failed.
pub proof fn law_plain_exit_code(results: Seq<RepoResult>)
    ensures
        in_state(results, PlainState::Failed) > 0 <==> exists|k: int|
            0 <= k < results.len() && (#[trigger] results[k]).state is Failed,
{
    lemma_some_in(results, PlainState::Failed, results.len());
    if exists|k: int| 0 <= k < results.len() && (#[trigger] results[k]).state is Failed {
        assert(some_in(results, PlainState::Failed));
    }
}

/// What came of a pull is told as it is, and only a failed pull is told as failed, with all that
/// git printed.
pub proof fn law_pulls_are_told_as_they_are(
    name: Seq<char>,
    outcome: PullOutcome,
    combined: Seq<char>,
    stat: Seq<char>,
)
    ensures
        plain_state(outcome) is UpToDate <==> outcome is AlreadyUpToDate,
        plain_state(outcome) is Updated <==> outcome is Updated,
        plain_state(outcome) is NoUpstream <==> outcome is NoUpstream,
        plain_state(outcome) is Throttled <==> outcome is Throttled,
        plain_state(outcome) is Failed <==> outcome is Failed,
        outcome is AlreadyUpToDate ==> pulled_text(name, outcome, combined, stat) == "✅ "@ + name
            + "\n"@,
        outcome is Updated && stat.len() == 0 ==> pulled_text(name, outcome, combined, stat)
            == "✅ "@ + name + "\n"@,
        outcome is Updated && stat.len() > 0 ==> pulled_text(name, outcome, combined, stat) == "✅ "@
            + name + "\n"@ + stat + "\n\n"@,
        outcome is Failed ==> pulled_text(name, outcome, combined, stat) == "❌ Failed: "@ + name
            + "\n"@ + indented(combined) + "\n"@,
{
}

/// The exit code: 1 where a pull failed, 0 otherwise.
pub fn plain_exit_code(results: &Vec<RepoResult>) -> (res: i32)
    ensures
        res == (if in_state(results@, PlainState::Failed) > 0 {
            1i32
        } else {
            0i32
        }),
        res == 1 <==> exists|k: int|
            0 <= k < results@.len() && (#[trigger] results@[k]).state is Failed,
{
    proof {
        law_plain_exit_code(results@);
    }
    if count_state(results, PlainState::Failed) > 0 {
        1
    } else {
        0
    }
}

/// The active worktrees are listed last, in their order, each with its repo and its branch.
pub proof fn law_worktrees_are_listed(trees: Seq<WorktreeEntry>, width: nat)
    ensures
        trees.len() == 0 ==> tree_section(trees, width).len() == 0,
        trees.len() > 0 ==> tree_section(trees, width) == "\n🌳 Active worktrees:\n"@ + trees_upto(
            trees,
            width,
            (trees.len() - 1) as nat,
        ) + ("   - "@ + padded(trees.last().repo@, width) + "  "@ + trees.last().branch@ + "\n"@),
{
    if trees.len() > 0 {
        let n = (trees.len() - 1) as nat;
        assert("\n🌳 Active worktrees:\n"@ + trees_upto(trees, width, trees.len())
            =~= "\n🌳 Active worktrees:\n"@ + trees_upto(trees, width, n) + ("   - "@ + padded(
            trees.last().repo@,
            width,
        ) + "  "@ + trees.last().branch@ + "\n"@));
    }
}

/// What an outcome of a pull counts as.
pub proof fn law_outcomes_become_states(outcome: PullOutcome)
    ensures
        plain_state(outcome) is UpToDate <==> outcome is AlreadyUpToDate,
        plain_state(outcome) is Updated <==> outcome is Updated,
        plain_state(outcome) is NoUpstream <==> outcome is NoUpstream,
        plain_state(outcome) is Throttled <==> outcome is Throttled,
        plain_state(outcome) is Failed <==> outcome is Failed,
        plain_state(outcome) !is Skipped,
{
}

} // verus!
