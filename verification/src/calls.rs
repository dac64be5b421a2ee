//! The command lines handed to git.

use vstd::prelude::*;
use vstd::string::*;

use crate::text::{cat, cat3, count_text, decimal, number};

verus! {

/// The arguments of a command.
#[derive(Debug)]
pub struct Args {
    pub list: Vec<String>,
}

impl View for Args {
    type V = Seq<Seq<char>>;

    open spec fn view(&self) -> Seq<Seq<char>> {
        self.list.deep_view()
    }
}

impl Args {
    /// No arguments.
    pub fn new() -> (res: Args)
        ensures
            res@ == Seq::<Seq<char>>::empty(),
    {
        let res = Args { list: Vec::new() };
        assert(res@ =~= Seq::<Seq<char>>::empty());
        res
    }

    /// These arguments and one more.
    pub fn arg(self, arg: &str) -> (res: Args)
        ensures
            res@ == self@.push(arg@),
    {
        let ghost before = self@;
        let mut list = self.list;
        list.push(arg.to_owned());
        let res = Args { list };
        assert(res@ =~= before.push(arg@));
        res
    }
}

/// Something git is asked to do in a directory.
#[derive(Debug)]
pub enum GitCall {
    /// The current branch.
    CurrentBranch,
    /// The uncommitted changes.
    Status,
    /// The uncommitted changes with every file unknown to git.
    StatusAll,
    /// The diff stat of the last pull.
    DiffStat,
    /// The URL of `origin`.
    RemoteUrl,
    /// The last commit.
    LastCommit,
    /// The commits behind and ahead of the upstream.
    AheadBehind,
    /// The stashes.
    StashList,
    /// The labels of the stashes.
    StashLabels,
    /// The names of the local branches.
    Heads,
    /// The local branches, most recent first.
    Branches,
    /// The worktrees.
    Worktrees,
    /// The changes in the working tree.
    Diff,
    /// What the last pull changed.
    PulledDiff,
    /// The changes against HEAD.
    UncommittedDiff,
    /// The diff of a stash.
    StashDiff { index: usize },
    /// The changes against a commit.
    DiffFrom { commit: String },
    /// The files that differ from a commit, each with its status.
    ChangedFiles { commit: String },
    /// The files of a stash, each with its status.
    StashChanges { index: usize },
    /// The changes of one file against a commit.
    FileDiff { commit: String, path: String },
    /// The changes of one file in a stash.
    StashFileDiff { index: usize, path: String },
    /// A file unknown to git, as if it was added.
    NewFileDiff { path: String },
    /// The remote's default branch.
    RemoteHead,
    /// Whether a ref exists.
    Verify { name: String },
    /// Where HEAD left a base.
    MergeBase { base: String },
    /// The names of all branches, local and remote-tracking.
    AllBranches,
    /// The commits that only a base and only a branch have.
    Apart { base: String, branch: String },
    /// The files that a branch changed since it left a base, each with its status.
    BranchChanges { base: String, branch: String },
    /// Where a branch left a base.
    ForkPoint { base: String, branch: String },
    /// Refresh the remote-tracking refs.
    FetchAll,
    /// Fetch a refspec from a remote.
    Fetch { remote: String, refspec: String },
    /// Fast-forward to the upstream.
    Merge,
    Checkout { branch: String },
    DeleteBranch { branch: String, force: bool },
    StashFiles { index: usize },
    DropStash { index: usize },
    RemoveWorktree { path: String, force: bool },
    ResetHard,
    Clean,
}

/// The name of a stash.
pub open spec fn stash_name(index: usize) -> Seq<char> {
    "stash@{"@ + decimal(index as nat) + "}"@
}

/// The name of a stash.
pub fn stash_ref(index: usize) -> (res: String)
    ensures
        res@ == stash_name(index),
{
    cat3("stash@{", count_text(index).as_str(), "}")
}

/// The fields that describe a branch, as `git for-each-ref` formats them.
pub open spec fn branch_format() -> Seq<char> {
    "%(HEAD)%1f%(refname:short)%1f%(upstream:short)%1f%(upstream:track,nobracket)%1f%(committerdate:relative)%1f%(contents:subject)"@
}

impl GitCall {
    /// The arguments behind the directory.
    pub open spec fn words(self) -> Seq<Seq<char>> {
        let none = Seq::<Seq<char>>::empty();
        match self {
            GitCall::CurrentBranch => none.push("rev-parse"@).push("--abbrev-ref"@).push("HEAD"@),
            GitCall::Status => none.push("status"@).push("--porcelain"@),
            GitCall::StatusAll => none.push("status"@).push("--porcelain"@).push(
                "--untracked-files=all"@,
            ),
            GitCall::DiffStat => none.push("diff"@).push("--stat"@).push("--color=always"@).push(
                "HEAD@{1}"@,
            ).push("HEAD"@),
            GitCall::RemoteUrl => none.push("remote"@).push("get-url"@).push("origin"@),
            GitCall::LastCommit => none.push("log"@).push("-1"@).push(
                "--format=%h%x1f%s%x1f%an%x1f%cr"@,
            ),
            GitCall::AheadBehind => none.push("rev-list"@).push("--left-right"@).push(
                "--count"@,
            ).push("@{u}...HEAD"@),
            GitCall::StashList => none.push("stash"@).push("list"@),
            GitCall::StashLabels => none.push("stash"@).push("list"@).push("--format=%gs"@),
            GitCall::Heads => none.push("for-each-ref"@).push("--format=%(refname:short)"@).push(
                "refs/heads"@,
            ),
            GitCall::Branches => none.push("for-each-ref"@).push("--sort=-committerdate"@).push(
                "--format"@,
            ).push(branch_format()).push("refs/heads"@),
            GitCall::Worktrees => none.push("worktree"@).push("list"@).push("--porcelain"@),
            GitCall::Diff => none.push("diff"@).push("--color=always"@),
            GitCall::PulledDiff => none.push("diff"@).push("--color=always"@).push(
                "HEAD@{1}"@,
            ).push("HEAD"@),
            GitCall::UncommittedDiff => none.push("diff"@).push("--color=always"@).push("HEAD"@),
            GitCall::StashDiff { index } => none.push("stash"@).push("show"@).push("-p"@).push(
                "--color=always"@,
            ).push(stash_name(index)),
            GitCall::DiffFrom { commit } => none.push("diff"@).push("--color=always"@).push(
                commit@,
            ),
            GitCall::ChangedFiles { commit } => none.push("diff"@).push("--name-status"@).push(
                commit@,
            ),
            GitCall::StashChanges { index } => none.push("stash"@).push("show"@).push(
                "--include-untracked"@,
            ).push("--name-status"@).push(stash_name(index)),
            GitCall::FileDiff { commit, path } => none.push("diff"@).push("--color=always"@).push(
                commit@,
            ).push("--"@).push(path@),
            GitCall::StashFileDiff { index, path } => none.push("diff"@).push(
                "--color=always"@,
            ).push(stash_name(index) + "^"@).push(stash_name(index)).push("--"@).push(path@),
            GitCall::NewFileDiff { path } => none.push("diff"@).push("--color=always"@).push(
                "--no-index"@,
            ).push("--"@).push("/dev/null"@).push(path@),
            GitCall::RemoteHead => none.push("symbolic-ref"@).push("--short"@).push(
                "refs/remotes/origin/HEAD"@,
            ),
            GitCall::Verify { name } => none.push("rev-parse"@).push("--verify"@).push(
                "--quiet"@,
            ).push(name@),
            GitCall::MergeBase { base } => none.push("merge-base"@).push(base@).push("HEAD"@),
            GitCall::AllBranches => none.push("for-each-ref"@).push(
                "--format=%(if)%(symref)%(then)%(else)%(refname:short)%(end)"@,
            ).push("refs/heads"@).push("refs/remotes"@),
            GitCall::Apart { base, branch } => none.push("rev-list"@).push("--left-right"@).push(
                "--count"@,
            ).push(base@ + "..."@ + branch@),
            GitCall::BranchChanges { base, branch } => none.push("diff"@).push(
                "--name-status"@,
            ).push(base@ + "..."@ + branch@),
            GitCall::ForkPoint { base, branch } => none.push("merge-base"@).push(base@).push(
                branch@,
            ),
            GitCall::FetchAll => none.push("fetch"@).push("--all"@).push("--quiet"@),
            GitCall::Fetch { remote, refspec } => none.push("fetch"@).push(remote@).push(refspec@),
            GitCall::Merge => none.push("merge"@).push("--ff-only"@).push("@{u}"@),
            GitCall::Checkout { branch } => none.push("checkout"@).push(branch@),
            GitCall::DeleteBranch { branch, force } => none.push("branch"@).push(
                if force {
                    "-D"@
                } else {
                    "-d"@
                },
            ).push(branch@),
            GitCall::StashFiles { index } => none.push("stash"@).push("show"@).push(
                "--include-untracked"@,
            ).push("--name-only"@).push(stash_name(index)),
            GitCall::DropStash { index } => none.push("stash"@).push("drop"@).push(
                stash_name(index),
            ),
            GitCall::RemoveWorktree { path, force } => if force {
                none.push("worktree"@).push("remove"@).push("--force"@).push(path@)
            } else {
                none.push("worktree"@).push("remove"@).push(path@)
            },
            GitCall::ResetHard => none.push("reset"@).push("--hard"@),
            GitCall::Clean => none.push("clean"@).push("-fd"@),
        }
    }

    fn tail(&self) -> (res: Args)
        ensures
            res@ == self.words(),
    {
        let none = Args::new();
        match self {
            GitCall::CurrentBranch => none.arg("rev-parse").arg("--abbrev-ref").arg("HEAD"),
            GitCall::Status => none.arg("status").arg("--porcelain"),
            GitCall::StatusAll => none.arg("status").arg("--porcelain").arg(
                "--untracked-files=all",
            ),
            GitCall::DiffStat => none.arg("diff").arg("--stat").arg("--color=always").arg(
                "HEAD@{1}",
            ).arg("HEAD"),
            GitCall::RemoteUrl => none.arg("remote").arg("get-url").arg("origin"),
            GitCall::LastCommit => none.arg("log").arg("-1").arg("--format=%h%x1f%s%x1f%an%x1f%cr"),
            GitCall::AheadBehind => none.arg("rev-list").arg("--left-right").arg("--count").arg(
                "@{u}...HEAD",
            ),
            GitCall::StashList => none.arg("stash").arg("list"),
            GitCall::StashLabels => none.arg("stash").arg("list").arg("--format=%gs"),
            GitCall::Heads => none.arg("for-each-ref").arg("--format=%(refname:short)").arg(
                "refs/heads",
            ),
            GitCall::Branches => none.arg("for-each-ref").arg("--sort=-committerdate").arg(
                "--format",
            ).arg(
                "%(HEAD)%1f%(refname:short)%1f%(upstream:short)%1f%(upstream:track,nobracket)%1f%(committerdate:relative)%1f%(contents:subject)",
            ).arg("refs/heads"),
            GitCall::Worktrees => none.arg("worktree").arg("list").arg("--porcelain"),
            GitCall::Diff => none.arg("diff").arg("--color=always"),
            GitCall::PulledDiff => none.arg("diff").arg("--color=always").arg("HEAD@{1}").arg(
                "HEAD",
            ),
            GitCall::UncommittedDiff => none.arg("diff").arg("--color=always").arg("HEAD"),
            GitCall::StashDiff { index } => none.arg("stash").arg("show").arg("-p").arg(
                "--color=always",
            ).arg(stash_ref(*index).as_str()),
            GitCall::DiffFrom { commit } => none.arg("diff").arg("--color=always").arg(
                commit.as_str(),
            ),
            GitCall::ChangedFiles { commit } => none.arg("diff").arg("--name-status").arg(
                commit.as_str(),
            ),
            GitCall::StashChanges { index } => none.arg("stash").arg("show").arg(
                "--include-untracked",
            ).arg("--name-status").arg(stash_ref(*index).as_str()),
            GitCall::FileDiff { commit, path } => none.arg("diff").arg("--color=always").arg(
                commit.as_str(),
            ).arg("--").arg(path.as_str()),
            GitCall::StashFileDiff { index, path } => none.arg("diff").arg("--color=always").arg(
                cat(stash_ref(*index).as_str(), "^").as_str(),
            ).arg(stash_ref(*index).as_str()).arg("--").arg(path.as_str()),
            GitCall::NewFileDiff { path } => none.arg("diff").arg("--color=always").arg(
                "--no-index",
            ).arg("--").arg("/dev/null").arg(path.as_str()),
            GitCall::RemoteHead => none.arg("symbolic-ref").arg("--short").arg(
                "refs/remotes/origin/HEAD",
            ),
            GitCall::Verify { name } => none.arg("rev-parse").arg("--verify").arg("--quiet").arg(
                name.as_str(),
            ),
            GitCall::MergeBase { base } => none.arg("merge-base").arg(base.as_str()).arg("HEAD"),
            GitCall::AllBranches => none.arg("for-each-ref").arg(
                "--format=%(if)%(symref)%(then)%(else)%(refname:short)%(end)",
            ).arg("refs/heads").arg("refs/remotes"),
            GitCall::Apart { base, branch } => none.arg("rev-list").arg("--left-right").arg(
                "--count",
            ).arg(cat3(base.as_str(), "...", branch.as_str()).as_str()),
            GitCall::BranchChanges { base, branch } => none.arg("diff").arg("--name-status").arg(
                cat3(base.as_str(), "...", branch.as_str()).as_str(),
            ),
            GitCall::ForkPoint { base, branch } => none.arg("merge-base").arg(base.as_str()).arg(
                branch.as_str(),
            ),
            GitCall::FetchAll => none.arg("fetch").arg("--all").arg("--quiet"),
            GitCall::Fetch { remote, refspec } => none.arg("fetch").arg(remote.as_str()).arg(
                refspec.as_str(),
            ),
            GitCall::Merge => none.arg("merge").arg("--ff-only").arg("@{u}"),
            GitCall::Checkout { branch } => none.arg("checkout").arg(branch.as_str()),
            GitCall::DeleteBranch { branch, force } => none.arg("branch").arg(
                if *force {
                    "-D"
                } else {
                    "-d"
                },
            ).arg(branch.as_str()),
            GitCall::StashFiles { index } => none.arg("stash").arg("show").arg(
                "--include-untracked",
            ).arg("--name-only").arg(stash_ref(*index).as_str()),
            GitCall::DropStash { index } => none.arg("stash").arg("drop").arg(
                stash_ref(*index).as_str(),
            ),
            GitCall::RemoveWorktree { path, force } => if *force {
                none.arg("worktree").arg("remove").arg("--force").arg(path.as_str())
            } else {
                none.arg("worktree").arg("remove").arg(path.as_str())
            },
            GitCall::ResetHard => none.arg("reset").arg("--hard"),
            GitCall::Clean => none.arg("clean").arg("-fd"),
        }
    }

    /// All arguments for a call in a directory.
    pub fn args(&self, dir: &str) -> (res: Vec<String>)
        ensures
            res.deep_view() == seq!["-C"@, dir@] + self.words(),
    {
        let mut list: Vec<String> = Vec::new();
        list.push("-C".to_owned());
        list.push(dir.to_owned());
        let mut tail = self.tail();
        list.append(&mut tail.list);
        assert(list.deep_view() =~= seq!["-C"@, dir@] + self.words());
        list
    }
}

/// The arguments for `timeout` that pull a repo within so many seconds.
pub fn pull_args(timeout_secs: u64, dir: &str) -> (res: Vec<String>)
    ensures
        res.deep_view() == seq![
            decimal(timeout_secs as nat),
            "git"@,
            "-C"@,
            dir@,
            "pull"@,
            "--ff-only"@,
        ],
{
    let args = Args::new().arg(number(timeout_secs).as_str()).arg("git").arg("-C").arg(dir).arg(
        "pull",
    ).arg("--ff-only");
    assert(args@ =~= seq![
        decimal(timeout_secs as nat),
        "git"@,
        "-C"@,
        dir@,
        "pull"@,
        "--ff-only"@,
    ]);
    args.list
}

/// The programs that may open a URL, the likeliest first: the configured browser, where there
/// is one, then those of the desktops.
pub open spec fn opener_names(browser: Option<Seq<char>>) -> Seq<Seq<char>> {
    let none = Seq::<Seq<char>>::empty();
    let own = match browser {
        Some(browser) => if browser.len() > 0 {
            none.push(browser)
        } else {
            none
        },
        None => none,
    };
    own.push("wslview"@).push("xdg-open"@).push("open"@)
}

/// The programs that may open a URL, the likeliest first.
pub fn url_openers(browser: Option<&str>) -> (res: Vec<String>)
    ensures
        res.deep_view() == opener_names(
            match browser {
                Some(browser) => Some(browser@),
                None => None,
            },
        ),
{
    let mut args = Args::new();
    match browser {
        Some(browser) => {
            if !browser.is_empty() {
                args = args.arg(browser);
            }
        },
        None => {},
    }
    args = args.arg("wslview").arg("xdg-open").arg("open");
    args.list
}

/// The shell script that runs a command in the directory that is its first argument.
pub fn run_in_script(command: &str) -> (res: String)
    ensures
        res@ == "cd \"$1\" && "@ + command@,
{
    crate::text::cat("cd \"$1\" && ", command)
}

/// The sibling program that `pull-all go|bun|cli` hands over to.
pub open spec fn sibling_of(subcommand: Seq<char>) -> Option<Seq<char>> {
    if subcommand == "go"@ {
        Some("pull-all-tui-go"@)
    } else if subcommand == "bun"@ {
        Some("pull-all-tui-bun-jit"@)
    } else if subcommand == "cli"@ {
        Some("pull-all-repos"@)
    } else {
        None
    }
}

/// The sibling program that a first argument hands over to.
pub fn sibling_target(subcommand: &str) -> (res: Option<&'static str>)
    ensures
        match res {
            Some(program) => sibling_of(subcommand@) == Some(program@),
            None => sibling_of(subcommand@) is None,
        },
{
    if crate::text::same(subcommand, "go") {
        Some("pull-all-tui-go")
    } else if crate::text::same(subcommand, "bun") {
        Some("pull-all-tui-bun-jit")
    } else if crate::text::same(subcommand, "cli") {
        Some("pull-all-repos")
    } else {
        None
    }
}

// ---- what the calls ask for ----

/// Only a forced deletion gives up commits that are merged nowhere, only a forced removal gives
/// up what a worktree holds, and each call names what it was given last.
pub proof fn law_force_is_asked_for(branch: String, path: String, force: bool)
    ensures
        (GitCall::DeleteBranch { branch, force }).words() == seq![
            "branch"@,
            if force { "-D"@ } else { "-d"@ },
            branch@,
        ],
        (GitCall::RemoveWorktree { path, force: false }).words() == seq![
            "worktree"@,
            "remove"@,
            path@,
        ],
        (GitCall::RemoveWorktree { path, force: true }).words() == seq![
            "worktree"@,
            "remove"@,
            "--force"@,
            path@,
        ],
{
}

/// What gives up work is spelled out: the stash that was named and no other, and for a discard
/// the files known to git and then those unknown to it.
pub proof fn law_what_is_given_up(index: usize)
    ensures
        (GitCall::DropStash { index }).words() == seq!["stash"@, "drop"@, stash_name(index)],
        stash_name(index) == "stash@{"@ + decimal(index as nat) + "}"@,
        GitCall::ResetHard.words() == seq!["reset"@, "--hard"@],
        GitCall::Clean.words() == seq!["clean"@, "-fd"@],
{
}

/// Nothing is merged but what fast-forwards, and a branch is fetched from the remote that was
/// named.
pub proof fn law_pulls_fast_forward(remote: String, refspec: String, branch: String)
    ensures
        GitCall::Merge.words() == seq!["merge"@, "--ff-only"@, "@{u}"@],
        (GitCall::Fetch { remote, refspec }).words() == seq!["fetch"@, remote@, refspec@],
        GitCall::FetchAll.words() == seq!["fetch"@, "--all"@, "--quiet"@],
        (GitCall::Checkout { branch }).words() == seq!["checkout"@, branch@],
{
}

/// What the state of a repo is read from.
pub proof fn law_state_is_asked_for(name: String)
    ensures
        GitCall::CurrentBranch.words() == seq!["rev-parse"@, "--abbrev-ref"@, "HEAD"@],
        GitCall::Status.words() == seq!["status"@, "--porcelain"@],
        GitCall::StatusAll.words() == GitCall::Status.words().push("--untracked-files=all"@),
        GitCall::RemoteUrl.words() == seq!["remote"@, "get-url"@, "origin"@],
        GitCall::LastCommit.words() == seq!["log"@, "-1"@, "--format=%h%x1f%s%x1f%an%x1f%cr"@],
        GitCall::AheadBehind.words() == seq![
            "rev-list"@,
            "--left-right"@,
            "--count"@,
            "@{u}...HEAD"@,
        ],
        GitCall::StashList.words() == seq!["stash"@, "list"@],
        GitCall::StashLabels.words() == GitCall::StashList.words().push("--format=%gs"@),
        GitCall::Heads.words() == seq!["for-each-ref"@, "--format=%(refname:short)"@, "refs/heads"@],
        GitCall::Branches.words() == seq![
            "for-each-ref"@,
            "--sort=-committerdate"@,
            "--format"@,
            "%(HEAD)%1f%(refname:short)%1f%(upstream:short)%1f%(upstream:track,nobracket)%1f%(committerdate:relative)%1f%(contents:subject)"@,
            "refs/heads"@,
        ],
        GitCall::Worktrees.words() == seq!["worktree"@, "list"@, "--porcelain"@],
        GitCall::RemoteHead.words() == seq![
            "symbolic-ref"@,
            "--short"@,
            "refs/remotes/origin/HEAD"@,
        ],
        (GitCall::Verify { name }).words() == seq!["rev-parse"@, "--verify"@, "--quiet"@, name@],
        GitCall::AllBranches.words() == seq![
            "for-each-ref"@,
            "--format=%(if)%(symref)%(then)%(else)%(refname:short)%(end)"@,
            "refs/heads"@,
            "refs/remotes"@,
        ],
{
}

/// What a diff is read from: the later side comes last, a file after `--`, and a stash is held
/// against the commit that it was made on.
pub proof fn law_diffs_are_asked_for(commit: String, index: usize, path: String)
    ensures
        GitCall::Diff.words() == seq!["diff"@, "--color=always"@],
        GitCall::PulledDiff.words() == seq!["diff"@, "--color=always"@, "HEAD@{1}"@, "HEAD"@],
        GitCall::DiffStat.words() == seq![
            "diff"@,
            "--stat"@,
            "--color=always"@,
            "HEAD@{1}"@,
            "HEAD"@,
        ],
        GitCall::UncommittedDiff.words() == GitCall::Diff.words().push("HEAD"@),
        (GitCall::DiffFrom { commit }).words() == GitCall::Diff.words().push(commit@),
        (GitCall::FileDiff { commit, path }).words() == (GitCall::DiffFrom { commit }).words().push(
            "--"@,
        ).push(path@),
        (GitCall::ChangedFiles { commit }).words() == seq!["diff"@, "--name-status"@, commit@],
        (GitCall::NewFileDiff { path }).words() == seq![
            "diff"@,
            "--color=always"@,
            "--no-index"@,
            "--"@,
            "/dev/null"@,
            path@,
        ],
        (GitCall::StashDiff { index }).words() == seq![
            "stash"@,
            "show"@,
            "-p"@,
            "--color=always"@,
            stash_name(index),
        ],
        (GitCall::StashChanges { index }).words() == seq![
            "stash"@,
            "show"@,
            "--include-untracked"@,
            "--name-status"@,
            stash_name(index),
        ],
        (GitCall::StashFiles { index }).words() == seq![
            "stash"@,
            "show"@,
            "--include-untracked"@,
            "--name-only"@,
            stash_name(index),
        ],
        (GitCall::StashFileDiff { index, path }).words() == GitCall::Diff.words().push(
            stash_name(index) + "^"@,
        ).push(stash_name(index)).push("--"@).push(path@),
{
}

/// What a branch has beyond its base: the base comes first, the branch second.
pub proof fn law_bases_come_first(base: String, branch: String)
    ensures
        (GitCall::MergeBase { base }).words() == seq!["merge-base"@, base@, "HEAD"@],
        (GitCall::ForkPoint { base, branch }).words() == seq!["merge-base"@, base@, branch@],
        (GitCall::Apart { base, branch }).words() == seq![
            "rev-list"@,
            "--left-right"@,
            "--count"@,
            base@ + "..."@ + branch@,
        ],
        (GitCall::BranchChanges { base, branch }).words() == seq![
            "diff"@,
            "--name-status"@,
            base@ + "..."@ + branch@,
        ],
{
}

/// The browser that the user named is tried first, where there is one.
pub proof fn law_own_browser_first(browser: Seq<char>)
    ensures
        browser.len() > 0 ==> opener_names(Some(browser)) == seq![browser] + opener_names(None),
        browser.len() == 0 ==> opener_names(Some(browser)) == opener_names(None),
        opener_names(None) == seq!["wslview"@, "xdg-open"@, "open"@],
{
}

/// Each sister program has its own subcommand, and no other word starts one.
pub proof fn law_sister_programs(word: Seq<char>)
    ensures
        sibling_of("go"@) == Some("pull-all-tui-go"@),
        sibling_of("bun"@) == Some("pull-all-tui-bun-jit"@),
        sibling_of("cli"@) == Some("pull-all-repos"@),
        sibling_of(word) is Some <==> word == "go"@ || word == "bun"@ || word == "cli"@,
{
    reveal_strlit("go");
    reveal_strlit("bun");
    reveal_strlit("cli");
    assert("bun"@[0] != "cli"@[0]);
}

} // verus!
