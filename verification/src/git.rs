//! What git's output means: pull outcomes, branches, worktrees, stashes and diffs.

use vstd::prelude::*;
use vstd::string::*;

use crate::paths::{path_eq, same_path};
use crate::repo::{BranchInfo, WorktreeInfo};
use crate::text::{
    after_prefix, blank, cat, cat3, cat4, contains, cut_end, cut_once, has_text, is_blank,
    lemma_text_total, lemma_text_transitive, lines_of, nonempty, not_after, parse_number, parsed,
    pieces, same, split, split_nonempty, split_once, starts, starts_with, strip_prefix,
    strip_suffix, stands_at, text_le, text_lines, trim, trim_end_of, trimmed, without_suffix, Separator,
};

verus! {

// ---- pulls ----

/// Result of parsing git pull output to determine status.
#[derive(Debug, Clone, Copy, PartialEq, Eq, Structural)]
pub enum PullOutcome {
    AlreadyUpToDate,
    Updated,
    /// The branch tracks nothing, or its remote ref is gone.
    NoUpstream,
    /// The remote limits the rate of requests.
    Throttled,
    Failed,
}

/// The output says that there is nothing to pull from.
pub open spec fn tells_no_upstream(output: Seq<char>) -> bool {
    has_text(output, "no such ref was fetched"@) || has_text(
        output,
        "There is no tracking information"@,
    )
}

/// The output says that the remote limits the rate of requests.
pub open spec fn tells_throttled(output: Seq<char>) -> bool {
    has_text(output, "HTTP 429"@) || has_text(output, "error: 429"@) || has_text(
        output,
        "rate limit"@,
    ) || has_text(output, "kex_exchange_identification"@)
}

/// What the output and the exit of `git pull` say.
pub open spec fn outcome_of(output: Seq<char>, exit_success: bool) -> PullOutcome {
    if exit_success {
        if has_text(output, "Already up to date"@) {
            PullOutcome::AlreadyUpToDate
        } else {
            PullOutcome::Updated
        }
    } else if tells_no_upstream(output) {
        PullOutcome::NoUpstream
    } else if tells_throttled(output) {
        PullOutcome::Throttled
    } else {
        PullOutcome::Failed
    }
}

/// Parse combined stdout+stderr from `git pull` to determine outcome.
/// `exit_success` — did the process exit with code 0?
pub fn classify_pull_output(output: &str, exit_success: bool) -> (res: PullOutcome)
    ensures
        res == outcome_of(output@, exit_success),
        res is AlreadyUpToDate <==> exit_success && has_text(output@, "Already up to date"@),
        res is Updated <==> exit_success && !has_text(output@, "Already up to date"@),
        res is NoUpstream <==> !exit_success && (has_text(
            output@,
            "There is no tracking information"@,
        ) || has_text(output@, "no such ref was fetched"@)),
        res is Throttled <==> !exit_success && !has_text(
            output@,
            "There is no tracking information"@,
        ) && !has_text(output@, "no such ref was fetched"@) && (has_text(output@, "HTTP 429"@)
            || has_text(output@, "error: 429"@) || has_text(output@, "rate limit"@) || has_text(
            output@,
            "kex_exchange_identification"@,
        )),
{
    if exit_success {
        if contains(output, "Already up to date") {
            PullOutcome::AlreadyUpToDate
        } else {
            PullOutcome::Updated
        }
    } else if contains(output, "no such ref was fetched") || contains(
        output,
        "There is no tracking information",
    ) {
        PullOutcome::NoUpstream
    } else if contains(output, "HTTP 429") || contains(output, "error: 429") || contains(
        output,
        "rate limit",
    ) || contains(output, "kex_exchange_identification") {
        PullOutcome::Throttled
    } else {
        PullOutcome::Failed
    }
}

/// Whatever git prints, a pull counts as done exactly when the process exited with success.
pub proof fn law_only_success_is_done(output: Seq<char>, exit_success: bool)
    ensures
        exit_success <==> (outcome_of(output, exit_success) is AlreadyUpToDate || outcome_of(
            output,
            exit_success,
        ) is Updated),
{
}

/// A pull that did not succeed has no upstream exactly if git says that nothing is tracked or that
/// the remote ref is gone; it is throttled only if the remote says so; whatever else git prints
/// (that the branch has diverged, say), it failed.
pub proof fn law_failures_are_told_apart(output: Seq<char>)
    ensures
        outcome_of(output, false) is NoUpstream <==> (has_text(
            output,
            "There is no tracking information"@,
        ) || has_text(output, "no such ref was fetched"@)),
        outcome_of(output, false) is Throttled <==> !has_text(
            output,
            "There is no tracking information"@,
        ) && !has_text(output, "no such ref was fetched"@) && (has_text(output, "HTTP 429"@)
            || has_text(output, "error: 429"@) || has_text(output, "rate limit"@) || has_text(
            output,
            "kex_exchange_identification"@,
        )),
        outcome_of(output, false) is Failed <==> {
            &&& !has_text(output, "There is no tracking information"@)
            &&& !has_text(output, "no such ref was fetched"@)
            &&& !has_text(output, "HTTP 429"@)
            &&& !has_text(output, "error: 429"@)
            &&& !has_text(output, "rate limit"@)
            &&& !has_text(output, "kex_exchange_identification"@)
        },
{
}

/// A pull that succeeded brought nothing exactly if git says `Already up to date`.
pub proof fn law_success_is_told_apart(output: Seq<char>)
    ensures
        outcome_of(output, true) is AlreadyUpToDate <==> has_text(output, "Already up to date"@),
        outcome_of(output, true) is Updated <==> !has_text(output, "Already up to date"@),
{
}

/// The branch that `git rev-parse --abbrev-ref HEAD` reports; `?` where it reports none.
pub open spec fn branch_of(stdout: Seq<char>) -> Seq<char> {
    if trimmed(stdout).len() == 0 {
        "?"@
    } else {
        trimmed(stdout)
    }
}

/// The branch that `git rev-parse --abbrev-ref HEAD` reports; `?` where it reports none.
pub fn branch_from(stdout: &str) -> (res: String)
    ensures
        res@ == branch_of(stdout@),
{
    let branch = trim(stdout);
    if branch.as_str().is_empty() {
        "?".to_owned()
    } else {
        branch
    }
}

/// What a git command reports: nothing but its success, or its trimmed error output.
pub fn command_result(success: bool, stderr: &str) -> (res: Result<(), String>)
    ensures
        match res {
            Ok(_) => success,
            Err(error) => !success && error@ == trimmed(stderr@),
        },
{
    if success {
        Ok(())
    } else {
        Err(trim(stderr))
    }
}

/// What `git merge --ff-only @{u}` reports, from its combined output: the outcome, or the
/// trimmed output where it failed.
pub fn ff_result(combined: &str, success: bool) -> (res: Result<PullOutcome, String>)
    ensures
        match res {
            Ok(outcome) => success && outcome == outcome_of(combined@, true),
            Err(error) => !success && error@ == trimmed(combined@),
        },
{
    if success {
        Ok(classify_pull_output(combined, true))
    } else {
        Err(trim(combined))
    }
}

/// What fetching into a branch reports: an advancing fetch writes the ref update to stderr,
/// one that changes nothing is silent.
pub fn fetch_result(success: bool, stderr: &str) -> (res: Result<PullOutcome, String>)
    ensures
        match res {
            Ok(outcome) => success && outcome == (if is_blank(stderr@) {
                PullOutcome::AlreadyUpToDate
            } else {
                PullOutcome::Updated
            }),
            Err(error) => !success && error@ == trimmed(stderr@),
        },
{
    if !success {
        Err(trim(stderr))
    } else if blank(stderr) {
        Ok(PullOutcome::AlreadyUpToDate)
    } else {
        Ok(PullOutcome::Updated)
    }
}

/// The remote and the refspec that fast-forward the branch `local` to an
/// `origin/main`-style upstream, or why there are none.
pub fn ff_refspec(upstream: &str, local: &str) -> (res: Result<(String, String), String>)
    ensures
        match res {
            Ok(parts) => match cut_once(upstream@, "/"@) {
                Some(cut) => parts.0@ == cut.0 && parts.1@ == cut.1 + ":"@ + local@,
                None => false,
            },
            Err(error) => cut_once(upstream@, "/"@) is None && error@ == "malformed upstream '"@
                + upstream@ + "'"@,
        },
{
    match split_once(upstream, "/") {
        Some((remote, remote_ref)) => Ok((remote, cat3(remote_ref.as_str(), ":", local))),
        None => Err(cat3("malformed upstream '", upstream, "'")),
    }
}

// ---- remotes ----

/// The browsable https URL of a git remote (scp-like, ssh, or http(s)).
pub open spec fn browsable(raw: Seq<char>) -> Option<Seq<char>> {
    let raw = trimmed(raw);
    let https = match after_prefix(raw, "git@"@) {
        Some(rest) => match cut_once(rest, ":"@) {
            Some(cut) => Some("https://"@ + cut.0 + "/"@ + cut.1),
            None => None,
        },
        None => match after_prefix(raw, "ssh://"@) {
            Some(rest) => match after_prefix(rest, "git@"@) {
                Some(bare) => Some("https://"@ + bare),
                None => Some("https://"@ + rest),
            },
            None => match after_prefix(raw, "http://"@) {
                Some(rest) => Some("https://"@ + rest),
                None => if starts(raw, "https://"@) {
                    Some(raw)
                } else {
                    None
                },
            },
        },
    };
    match https {
        Some(https) => Some(without_suffix(https, ".git"@)),
        None => None,
    }
}

/// Convert a git remote URL (scp-like, ssh, or http(s)) into a browsable https URL.
/// `git@github.com:org/repo.git` and `ssh://git@github.com/org/repo.git` both become
/// `https://github.com/org/repo`, and so does `http://github.com/org/repo.git`. Returns None for local paths or unknown forms.
pub fn normalize_remote_url(raw: &str) -> (res: Option<String>)
    ensures
        res.deep_view() == browsable(raw@),
{
    let raw = trim(raw);
    let https: String = match strip_prefix(raw.as_str(), "git@") {
        Some(rest) => match split_once(rest.as_str(), ":") {
            Some((host, path)) => cat4("https://", host.as_str(), "/", path.as_str()),
            None => return None,
        },
        None => match strip_prefix(raw.as_str(), "ssh://") {
            Some(rest) => match strip_prefix(rest.as_str(), "git@") {
                Some(bare) => cat("https://", bare.as_str()),
                None => cat("https://", rest.as_str()),
            },
            None => match strip_prefix(raw.as_str(), "http://") {
                Some(rest) => cat("https://", rest.as_str()),
                None => if starts_with(raw.as_str(), "https://") {
                    raw
                } else {
                    return None;
                },
            },
        },
    };
    Some(strip_suffix(https.as_str(), ".git"))
}

/// The URL of a remote that can be browsed is an https one.
pub proof fn law_browsable_is_https(raw: Seq<char>)
    ensures
        browsable(raw) matches Some(url) ==> starts(url, "https://"@),
{
    reveal_strlit("https://");
    reveal_strlit(".git");
    match browsable(raw) {
        Some(url) => {
            let text = trimmed(raw);
            let https = match after_prefix(text, "git@"@) {
                Some(rest) => {
                    let cut = cut_once(rest, ":"@)->0;
                    "https://"@ + cut.0 + "/"@ + cut.1
                },
                None => match after_prefix(text, "ssh://"@) {
                    Some(rest) => match after_prefix(rest, "git@"@) {
                        Some(bare) => "https://"@ + bare,
                        None => "https://"@ + rest,
                    },
                    None => match after_prefix(text, "http://"@) {
                        Some(rest) => "https://"@ + rest,
                        None => text,
                    },
                },
            };
            assert(url == without_suffix(https, ".git"@));
            if after_prefix(text, "git@"@) is Some || after_prefix(text, "ssh://"@) is Some
                || after_prefix(text, "http://"@) is Some {
                assert(https.subrange(0, 8) =~= "https://"@);
            }
            lemma_suffix_keeps_prefix(https, "https://"@);
        },
        None => {},
    }
}

proof fn lemma_suffix_keeps_prefix(text: Seq<char>, prefix: Seq<char>)
    requires
        starts(text, prefix),
        forall|i: int| 0 <= i < prefix.len() ==> prefix[i] != '.',
    ensures
        starts(without_suffix(text, ".git"@), prefix),
{
    reveal_strlit(".git");
    if crate::text::ends(text, ".git"@) {
        let at = text.len() - 4;
        assert(text.subrange(at, at + 4)[0] == '.');
        if at < prefix.len() {
            assert(text.subrange(0, prefix.len() as int)[at] == prefix[at]);
        }
        assert(text.take(at).subrange(0, prefix.len() as int) =~= prefix);
    }
}

// ---- the last commit, ahead and behind ----

/// The `i`th text of a list, empty past its end.
pub open spec fn nth(parts: Seq<Seq<char>>, i: int) -> Seq<char> {
    if 0 <= i < parts.len() {
        parts[i]
    } else {
        Seq::empty()
    }
}

fn nth_text(parts: &Vec<String>, i: usize) -> (res: String)
    ensures
        res@ == nth(parts.deep_view(), i as int),
{
    if i < parts.len() {
        parts[i].clone()
    } else {
        let res = String::new();
        assert(res@ =~= Seq::<char>::empty());
        res
    }
}

/// The fields of a line that are separated by the unit separator.
pub open spec fn unit_fields(line: Seq<char>) -> Seq<Seq<char>> {
    pieces(line, Separator::One('\u{1f}'))
}

/// Parse the US (0x1f)-separated `git log -1 --format=%h%x1f%s%x1f%an%x1f%cr` line
/// into (hash, subject, author, relative-date).
pub fn parse_commit_line(line: &str) -> (res: (String, String, String, String))
    ensures
        ({
            let fields = unit_fields(cut_end(line@, "\n\r"@));
            &&& res.0@ == nth(fields, 0)
            &&& res.1@ == nth(fields, 1)
            &&& res.2@ == nth(fields, 2)
            &&& res.3@ == nth(fields, 3)
        }),
{
    let line = trim_end_of(line, "\n\r");
    let parts = split(line.as_str(), Separator::One('\u{1f}'));
    (nth_text(&parts, 0), nth_text(&parts, 1), nth_text(&parts, 2), nth_text(&parts, 3))
}

/// The number that the `i`th word of a list denotes.
pub open spec fn word_number(words: Seq<Seq<char>>, i: int) -> Option<u32> {
    if 0 <= i < words.len() {
        match parsed(words[i], u32::MAX as nat) {
            Some(n) => Some(n as u32),
            None => None,
        }
    } else {
        None
    }
}

fn number_at(words: &Vec<String>, i: usize) -> (res: Option<u32>)
    ensures
        res == word_number(words.deep_view(), i as int),
{
    if i < words.len() {
        assert(words.deep_view()[i as int] == words@[i as int]@);
        parse_number(words[i].as_str(), u32::MAX)
    } else {
        None
    }
}

/// Parse `git rev-list --left-right --count @{u}...HEAD` output ("behind\tahead")
/// into (behind, ahead). Empty/garbage input yields (None, None).
pub fn parse_ahead_behind(text: &str) -> (res: (Option<u32>, Option<u32>))
    ensures
        res.0 == word_number(nonempty(pieces(text@, Separator::Space)), 0),
        res.1 == word_number(nonempty(pieces(text@, Separator::Space)), 1),
{
    let words = split_nonempty(text, Separator::Space);
    (number_at(&words, 0), number_at(&words, 1))
}

/// What the words of a track value from `i` on say: each `ahead` and `behind` is followed by
/// its count, and the last one of each counts.
pub open spec fn track_counts(words: Seq<Seq<char>>, i: int, ahead: u32, behind: u32) -> (u32, u32)
    decreases words.len() - i + 2,
{
    let count = match word_number(words, i + 1) {
        Some(n) => n,
        None => 0,
    };
    if i < 0 || i >= words.len() {
        (ahead, behind)
    } else if words[i] == "ahead"@ {
        track_counts(words, i + 2, count, behind)
    } else if words[i] == "behind"@ {
        track_counts(words, i + 2, ahead, count)
    } else {
        track_counts(words, i + 1, ahead, behind)
    }
}

/// The commits ahead of and behind an upstream that a track value tells.
pub open spec fn track_of(upstream: Seq<char>, track: Seq<char>) -> (Option<u32>, Option<u32>) {
    if is_blank(upstream) || trimmed(track) == "gone"@ {
        (None, None)
    } else if trimmed(track).len() == 0 {
        (Some(0u32), Some(0u32))
    } else {
        let counts = track_counts(
            nonempty(pieces(trimmed(track), Separator::CommaOrBlank)),
            0,
            0,
            0,
        );
        (Some(counts.0), Some(counts.1))
    }
}

/// Parse a `%(upstream:track,nobracket)` value into (ahead, behind).
/// No upstream or `gone` → (None, None); present-but-current → (Some(0), Some(0)).
pub fn parse_track(upstream: &str, track: &str) -> (res: (Option<u32>, Option<u32>))
    ensures
        res == track_of(upstream@, track@),
{
    if blank(upstream) {
        return (None, None);
    }
    let track = trim(track);
    if same(track.as_str(), "gone") {
        return (None, None);
    }
    if track.as_str().is_empty() {
        return (Some(0), Some(0));
    }
    let tokens = split_nonempty(track.as_str(), Separator::CommaOrBlank);
    let ghost words = tokens.deep_view();
    let n: usize = tokens.len();
    let mut ahead: u32 = 0;
    let mut behind: u32 = 0;
    let mut i: usize = 0;
    while i < n
        invariant
            i <= n,
            n == tokens@.len(),
            words == tokens.deep_view(),
            track_counts(words, i as int, ahead, behind) == track_counts(words, 0, 0, 0),
        decreases n - i,
    {
        assert(words[i as int] == tokens@[i as int]@);
        let step_ahead = same(tokens[i].as_str(), "ahead");
        let step_behind = same(tokens[i].as_str(), "behind");
        if step_ahead || step_behind {
            let count: u32 = if i + 1 < n {
                match number_at(&tokens, i + 1) {
                    Some(count) => count,
                    None => 0,
                }
            } else {
                0
            };
            if step_ahead {
                ahead = count;
            } else {
                behind = count;
            }
            if i + 1 < n {
                i += 2;
            } else {
                assert(track_counts(words, i + 2, ahead, behind) == (ahead, behind));
                i = n;
            }
        } else {
            i += 1;
        }
    }
    (Some(ahead), Some(behind))
}

// ---- branches ----

/// A branch that a line of `git for-each-ref` describes.
pub open spec fn is_branch_of(branch: BranchInfo, line: Seq<char>) -> bool {
    let fields = unit_fields(line);
    &&& branch.is_head == (fields[0] == "*"@)
    &&& branch.name@ == fields[1]
    &&& match branch.upstream {
        Some(upstream) => fields[2].len() > 0 && upstream@ == fields[2],
        None => fields[2].len() == 0,
    }
    &&& (branch.ahead, branch.behind) == track_of(fields[2], fields[3])
    &&& branch.last_commit_rel@ == fields[4]
    &&& branch.subject@ == fields[5]
    &&& branch.stats is None
    &&& branch.base is None
    &&& !branch.base_is_override
    &&& branch.dirty_count == 0
    &&& branch.merge_base_short is None
    &&& branch.commit_sha@ == Seq::<char>::empty()
    &&& branch.author@ == Seq::<char>::empty()
}

/// A line that describes a branch: at least six fields, and a name.
pub open spec fn tells_branch(line: Seq<char>) -> bool {
    unit_fields(line).len() >= 6 && unit_fields(line)[1].len() > 0
}

/// Parse one US (0x1f)-separated `for-each-ref` line into a BranchInfo.
pub fn parse_branch_line(line: &str) -> (res: Option<BranchInfo>)
    ensures
        match res {
            Some(branch) => tells_branch(line@) && is_branch_of(branch, line@),
            None => !tells_branch(line@),
        },
{
    let fields = split(line, Separator::One('\u{1f}'));
    let ghost all = unit_fields(line@);
    assert(all.len() == fields@.len());
    assert(forall|i: int| 0 <= i < all.len() ==> all[i] == #[trigger] fields@[i]@);
    if fields.len() < 6 || fields[1].as_str().is_empty() {
        return None;
    }
    let upstream = if fields[2].as_str().is_empty() {
        None
    } else {
        Some(fields[2].clone())
    };
    let (ahead, behind) = parse_track(fields[2].as_str(), fields[3].as_str());
    Some(
        BranchInfo {
            is_head: same(fields[0].as_str(), "*"),
            name: fields[1].clone(),
            upstream,
            ahead,
            behind,
            last_commit_rel: fields[4].clone(),
            subject: fields[5].clone(),
            stats: None,
            base: None,
            base_is_override: false,
            dirty_count: 0,
            merge_base_short: None,
            commit_sha: String::new(),
            author: String::new(),
        },
    )
}

/// The lines among the first `n` that describe a branch.
pub open spec fn branch_lines(lines: Seq<Seq<char>>, n: nat) -> Seq<Seq<char>>
    decreases n,
{
    if n == 0 || n > lines.len() {
        Seq::empty()
    } else if tells_branch(lines[n - 1]) {
        branch_lines(lines, (n - 1) as nat).push(lines[n - 1])
    } else {
        branch_lines(lines, (n - 1) as nat)
    }
}

/// The branches that the output of `git for-each-ref` lists; a line that describes none is
/// passed over.
pub fn parse_branches(stdout: &str) -> (res: Vec<BranchInfo>)
    ensures
        ({
            let lines = text_lines(stdout@);
            let telling = branch_lines(lines, lines.len());
            &&& res@.len() == telling.len()
            &&& forall|i: int|
                0 <= i < res@.len() ==> is_branch_of(#[trigger] res@[i], telling[i])
        }),
{
    let lines = lines_of(stdout);
    let ghost all = lines.deep_view();
    let mut out: Vec<BranchInfo> = Vec::new();
    let mut i: usize = 0;
    while i < lines.len()
        invariant
            i <= lines@.len(),
            all == lines.deep_view(),
            out@.len() == branch_lines(all, i as nat).len(),
            forall|k: int|
                0 <= k < out@.len() ==> is_branch_of(
                    #[trigger] out@[k],
                    branch_lines(all, i as nat)[k],
                ),
        decreases lines@.len() - i,
    {
        assert(all[i as int] == lines@[i as int]@);
        match parse_branch_line(lines[i].as_str()) {
            Some(branch) => out.push(branch),
            None => {},
        }
        i += 1;
    }
    out
}

// ---- worktrees ----

/// How far `git worktree list --porcelain` has been read: the path and the branch of the entry
/// at hand, and the worktrees found before it.
pub struct WorktreeScan {
    pub path: Option<Seq<char>>,
    pub branch: Option<Seq<char>>,
    pub found: Seq<(Seq<char>, Seq<char>)>,
}

/// The worktrees found once the entry at hand ends: it counts if it has a branch and is not
/// the main checkout.
pub open spec fn flushed(scan: WorktreeScan, main_dir: Seq<char>) -> Seq<(Seq<char>, Seq<char>)> {
    match (scan.path, scan.branch) {
        (Some(path), Some(branch)) => if path_eq(path, main_dir) {
            scan.found
        } else {
            scan.found.push((branch, path))
        },
        _ => scan.found,
    }
}

/// A reading after the first `n` lines.
pub open spec fn scanned(lines: Seq<Seq<char>>, main_dir: Seq<char>, n: nat) -> WorktreeScan
    decreases n,
{
    if n == 0 || n > lines.len() {
        WorktreeScan { path: None, branch: None, found: Seq::empty() }
    } else {
        let before = scanned(lines, main_dir, (n - 1) as nat);
        match after_prefix(lines[n - 1], "worktree "@) {
            Some(path) => WorktreeScan {
                path: Some(path),
                branch: None,
                found: flushed(before, main_dir),
            },
            None => match after_prefix(lines[n - 1], "branch "@) {
                Some(rest) => WorktreeScan {
                    branch: match after_prefix(rest, "refs/heads/"@) {
                        Some(name) => Some(name),
                        None => Some(rest),
                    },
                    ..before
                },
                None => before,
            },
        }
    }
}

/// The worktrees, each as branch and path, that `git worktree list --porcelain` lists next to
/// the main checkout.
pub open spec fn worktrees_of(output: Seq<char>, main_dir: Seq<char>) -> Seq<
    (Seq<char>, Seq<char>),
> {
    let lines = text_lines(output);
    flushed(scanned(lines, main_dir, lines.len()), main_dir)
}

fn flush(
    path: Option<String>,
    branch: Option<String>,
    main_dir: &str,
    out: &mut Vec<WorktreeInfo>,
)
    ensures
        final(out).deep_view() == flushed(
            (WorktreeScan {
                path: path.deep_view(),
                branch: branch.deep_view(),
                found: old(out).deep_view(),
            }),
            main_dir@,
        ),
{
    match (path, branch) {
        (Some(path), Some(branch)) => {
            if !same_path(path.as_str(), main_dir) {
                let ghost before = out.deep_view();
                let ghost entry = (branch@, path@);
                out.push(WorktreeInfo { branch, path });
                assert(out.deep_view() =~= before.push(entry));
            }
        },
        _ => {},
    }
}

/// Parse `git worktree list --porcelain` output into worktrees, skipping the main checkout
/// (path == `main_dir`) and detached/bare entries (no branch).
pub fn parse_worktree_porcelain(output: &str, main_dir: &str) -> (res: Vec<WorktreeInfo>)
    ensures
        res.deep_view() == worktrees_of(output@, main_dir@),
{
    let lines = lines_of(output);
    let ghost all = lines.deep_view();
    let mut result: Vec<WorktreeInfo> = Vec::new();
    let mut path: Option<String> = None;
    let mut branch: Option<String> = None;
    let mut i: usize = 0;
    assert(result.deep_view() =~= Seq::<(Seq<char>, Seq<char>)>::empty());
    while i < lines.len()
        invariant
            i <= lines@.len(),
            all == lines.deep_view(),
            path.deep_view() == scanned(all, main_dir@, i as nat).path,
            branch.deep_view() == scanned(all, main_dir@, i as nat).branch,
            result.deep_view() == scanned(all, main_dir@, i as nat).found,
        decreases lines@.len() - i,
    {
        assert(all[i as int] == lines@[i as int]@);
        match strip_prefix(lines[i].as_str(), "worktree ") {
            Some(rest) => {
                flush(path, branch, main_dir, &mut result);
                path = Some(rest);
                branch = None;
            },
            None => match strip_prefix(lines[i].as_str(), "branch ") {
                Some(rest) => {
                    branch = match strip_prefix(rest.as_str(), "refs/heads/") {
                        Some(name) => Some(name),
                        None => Some(rest),
                    };
                },
                None => {},
            },
        }
        i += 1;
    }
    flush(path, branch, main_dir, &mut result);
    result
}

/// The name of the repo that a `<repo>.worktrees` directory belongs to.
pub open spec fn worktree_owner(dir_name: Seq<char>) -> Seq<char> {
    match cut_once(dir_name, ".worktrees"@) {
        Some(cut) => cut.0,
        None => dir_name,
    }
}

/// Whether a directory holds worktrees; such a directory is no repo itself.
pub fn holds_worktrees(dir_name: &str) -> (res: bool)
    ensures
        res == has_text(dir_name@, ".worktrees"@),
{
    contains(dir_name, ".worktrees")
}

/// The name of the repo that a `<repo>.worktrees` directory belongs to.
pub fn worktree_repo(dir_name: &str) -> (res: String)
    ensures
        res@ == worktree_owner(dir_name@),
{
    match split_once(dir_name, ".worktrees") {
        Some((repo, _)) => repo,
        None => dir_name.to_owned(),
    }
}

/// The directories that a scan does not enter: hidden ones, worktrees, and the usual places of
/// dependencies and build results.
pub open spec fn pruned(dir_name: Seq<char>) -> bool {
    ||| starts(dir_name, "."@)
    ||| has_text(dir_name, ".worktrees"@)
    ||| dir_name == "node_modules"@
    ||| dir_name == "vendor"@
    ||| dir_name == "target"@
    ||| dir_name == "dist"@
}

/// What a scan for repos does with an entry of a directory.
#[derive(Debug, Clone, Copy, PartialEq, Eq, Structural)]
pub enum Visit {
    Skip,
    /// It is a repo; the scan does not look inside.
    Repo,
    /// It may hold repos.
    Enter,
}

/// What a scan does with an entry: a directory with git data is a repo, and other directories
/// are entered, but for links and those that are never entered.
pub open spec fn visit_of(name: Seq<char>, is_dir: bool, is_link: bool, has_git: bool) -> Visit {
    if !is_dir || has_text(name, ".worktrees"@) {
        Visit::Skip
    } else if has_git {
        Visit::Repo
    } else if is_link || pruned(name) {
        Visit::Skip
    } else {
        Visit::Enter
    }
}

/// What a scan for repos does with an entry of a directory.
pub fn visit(name: &str, is_dir: bool, is_link: bool, has_git: bool) -> (res: Visit)
    ensures
        res == visit_of(name@, is_dir, is_link, has_git),
{
    if !is_dir || holds_worktrees(name) {
        Visit::Skip
    } else if has_git {
        Visit::Repo
    } else if is_link || !should_descend(name) {
        Visit::Skip
    } else {
        Visit::Enter
    }
}

/// Whether a scan for repos enters a directory.
pub fn should_descend(dir_name: &str) -> (res: bool)
    ensures
        res == !pruned(dir_name@),
{
    !(starts_with(dir_name, ".") || holds_worktrees(dir_name) || same(dir_name, "node_modules")
        || same(dir_name, "vendor") || same(dir_name, "target") || same(dir_name, "dist"))
}

/// Whether an entry (repo, branch) comes before another one or is the same.
pub open spec fn entry_le(a: (Seq<char>, Seq<char>), b: (Seq<char>, Seq<char>)) -> bool {
    if a.0 == b.0 {
        text_le(a.1, b.1)
    } else {
        text_le(a.0, b.0)
    }
}

/// The repo and the branch of each entry.
pub open spec fn entries_view(entries: Seq<(String, String)>) -> Seq<(Seq<char>, Seq<char>)> {
    Seq::new(entries.len(), |i: int| (entries[i].0@, entries[i].1@))
}

/// The entries are in order.
pub open spec fn in_order(entries: Seq<(Seq<char>, Seq<char>)>) -> bool {
    forall|i: int, j: int| 0 <= i < j < entries.len() ==> entry_le(entries[i], entries[j])
}

proof fn lemma_entry_le_transitive(
    a: (Seq<char>, Seq<char>),
    b: (Seq<char>, Seq<char>),
    c: (Seq<char>, Seq<char>),
)
    requires
        entry_le(a, b),
        entry_le(b, c),
    ensures
        entry_le(a, c),
{
    if a.0 == b.0 && b.0 == c.0 {
        lemma_text_transitive(a.1, b.1, c.1);
    } else if a.0 == b.0 || b.0 == c.0 {
    } else {
        lemma_text_transitive(a.0, b.0, c.0);
        if a.0 == c.0 {
            crate::text::lemma_text_antisymmetric(a.0, b.0);
        }
    }
}

fn entry_not_after(a: &(String, String), b: &(String, String)) -> (res: bool)
    ensures
        res == entry_le((a.0@, a.1@), (b.0@, b.1@)),
{
    if same(a.0.as_str(), b.0.as_str()) {
        not_after(a.1.as_str(), b.1.as_str())
    } else {
        not_after(a.0.as_str(), b.0.as_str())
    }
}

/// The entries sorted by repo, then by branch.
pub fn sort_worktrees(entries: Vec<(String, String)>) -> (res: Vec<(String, String)>)
    ensures
        in_order(entries_view(res@)),
        res@.to_multiset() == entries@.to_multiset(),
{
    let mut left = entries;
    let mut out: Vec<(String, String)> = Vec::new();
    assert(left@.to_multiset().add(out@.to_multiset()) =~= entries@.to_multiset()) by {
        broadcast use vstd::seq_lib::group_to_multiset_ensures;

    }
    while left.len() > 0
        invariant
            in_order(entries_view(out@)),
            left@.to_multiset().add(out@.to_multiset()) =~= entries@.to_multiset(),
        decreases left@.len(),
    {
        let ghost left_before = left@;
        let ghost out_before = out@;
        let entry = left.remove(0);
        let ghost item = entry;
        let mut at: usize = 0;
        while at < out.len() && entry_not_after(&out[at], &entry)
            invariant
                at <= out@.len(),
                out@ == out_before,
                item == entry,
                in_order(entries_view(out@)),
                forall|k: int|
                    0 <= k < at ==> entry_le(entries_view(out@)[k], (entry.0@, entry.1@)),
            decreases out@.len() - at,
        {
            at += 1;
        }
        let ghost e = (entry.0@, entry.1@);
        let ghost ov = entries_view(out@);
        assert forall|k: int| at <= k < ov.len() implies entry_le(e, ov[k]) by {
            let first = ov[at as int];
            if first.0 == e.0 {
                lemma_text_total(first.1, e.1);
            } else {
                lemma_text_total(first.0, e.0);
            }
            assert(entry_le(e, first));
            if k > at {
                lemma_entry_le_transitive(e, first, ov[k]);
            }
        }
        out.insert(at, entry);
        proof {
            let nv = entries_view(out@);
            assert forall|i: int, j: int| 0 <= i < j < nv.len() implies entry_le(nv[i], nv[j]) by {
                let oi = if i < at {
                    i
                } else {
                    i - 1
                };
                let oj = if j < at {
                    j
                } else {
                    j - 1
                };
                if i != at && j != at {
                    assert(nv[i] == ov[oi]);
                    assert(nv[j] == ov[oj]);
                } else if i == at {
                    assert(nv[j] == ov[oj]);
                } else {
                    assert(nv[i] == ov[oi]);
                }
            }
            broadcast use vstd::seq_lib::group_to_multiset_ensures;

            assert(left_before == left@.insert(0, item));
            assert(out@ == out_before.insert(at as int, item));
            assert(left_before.to_multiset() =~= left@.to_multiset().insert(item));
            assert(out@.to_multiset() =~= out_before.to_multiset().insert(item));
        }
    }
    assert(left@ =~= Seq::empty());
    assert(out@.to_multiset() =~= entries@.to_multiset()) by {
        broadcast use vstd::seq_lib::group_to_multiset_ensures;

    }
    out
}

/// The repos found in a directory, each with its name and its path, sorted by name.
pub fn sort_repos(found: Vec<(String, String)>) -> (res: Vec<(String, String)>)
    ensures
        in_order(entries_view(res@)),
        res@.to_multiset() == found@.to_multiset(),
{
    sort_worktrees(found)
}

/// A directory with a repo in it is a repo, but for one that holds worktrees, and the scan goes no
/// deeper. Of the others it enters those that are no links, not hidden, and not among the
/// directories that hold no repos.
pub proof fn law_what_is_scanned(name: Seq<char>, is_dir: bool, is_link: bool, has_git: bool)
    ensures
        !is_dir ==> visit_of(name, is_dir, is_link, has_git) is Skip,
        has_text(name, ".worktrees"@) ==> visit_of(name, is_dir, is_link, has_git) is Skip,
        visit_of(name, is_dir, is_link, has_git) is Repo <==> is_dir && has_git && !has_text(
            name,
            ".worktrees"@,
        ),
        visit_of(name, is_dir, is_link, has_git) is Enter ==> {
            &&& !has_git
            &&& !is_link
            &&& !starts(name, "."@)
            &&& name != "node_modules"@
            &&& name != "vendor"@
            &&& name != "target"@
        },
        is_dir && !has_git && !is_link && !starts(name, "."@) && !has_text(name, ".worktrees"@)
            && name != "node_modules"@ && name != "vendor"@ && name != "target"@ && name != "dist"@
            ==> visit_of(name, is_dir, is_link, has_git) is Enter,
{
}

/// The current branch as git reports it, without the blanks around it, is never empty.
pub proof fn law_branch_is_named(stdout: Seq<char>)
    ensures
        branch_of(stdout).len() > 0,
        trimmed(stdout).len() > 0 ==> branch_of(stdout) == trimmed(stdout),
        trimmed(stdout).len() == 0 ==> branch_of(stdout) == "?"@,
{
    reveal_strlit("?");
}

/// A branch is read from the fields of its line: the mark of the current one, the name, the
/// upstream, the counts, the date, and the subject.
pub proof fn law_branch_fields(branch: BranchInfo, line: Seq<char>)
    requires
        tells_branch(line),
        is_branch_of(branch, line),
    ensures
        unit_fields(line).len() >= 6,
        branch.is_head <==> unit_fields(line)[0] == "*"@,
        branch.name@ == unit_fields(line)[1],
        branch.name@.len() > 0,
        branch.upstream is None <==> unit_fields(line)[2].len() == 0,
        branch.upstream is Some ==> branch.upstream->0@ == unit_fields(line)[2],
        branch.upstream is None ==> branch.ahead is None && branch.behind is None,
        branch.last_commit_rel@ == unit_fields(line)[4],
        branch.subject@ == unit_fields(line)[5],
{
    if branch.upstream is None {
        assert(unit_fields(line)[2] =~= Seq::<char>::empty());
        assert(is_blank(unit_fields(line)[2]));
    }
}

proof fn lemma_scan_keeps_apart(lines: Seq<Seq<char>>, main_dir: Seq<char>, n: nat)
    ensures
        forall|k: int|
            0 <= k < scanned(lines, main_dir, n).found.len() ==> !path_eq(
                (#[trigger] scanned(lines, main_dir, n).found[k]).1,
                main_dir,
            ),
    decreases n,
{
    if n > 0 && n <= lines.len() {
        lemma_scan_keeps_apart(lines, main_dir, (n - 1) as nat);
    }
}

/// The main checkout is never listed among its worktrees.
pub proof fn law_main_checkout_is_no_worktree(output: Seq<char>, main_dir: Seq<char>)
    ensures
        forall|k: int|
            0 <= k < worktrees_of(output, main_dir).len() ==> !path_eq(
                (#[trigger] worktrees_of(output, main_dir)[k]).1,
                main_dir,
            ),
{
    lemma_scan_keeps_apart(text_lines(output), main_dir, text_lines(output).len());
}

/// The first worktree of git's list, when it is not the main checkout, is found with its path and
/// its branch, without the prefix of local branches.
pub proof fn law_worktree_is_read(path: Seq<char>, branch: Seq<char>, main_dir: Seq<char>)
    requires
        !path_eq(path, main_dir),
    ensures
        flushed(
            scanned(
                seq!["worktree "@ + path, "branch refs/heads/"@ + branch],
                main_dir,
                2,
            ),
            main_dir,
        ) == seq![(branch, path)],
{
    reveal_strlit("worktree ");
    reveal_strlit("branch refs/heads/");
    reveal_strlit("branch ");
    reveal_strlit("refs/heads/");
    let lines = seq!["worktree "@ + path, "branch refs/heads/"@ + branch];
    let first = "worktree "@ + path;
    assert(first.subrange(0, 9) =~= "worktree "@);
    assert(stands_at(first, "worktree "@, 0));
    assert(first.skip(9) =~= path);
    let second = "branch refs/heads/"@ + branch;
    assert(second.subrange(0, 9)[0] == 'b');
    assert("worktree "@[0] == 'w');
    assert(!stands_at(second, "worktree "@, 0));
    assert(second.subrange(0, 7) =~= "branch "@);
    assert(stands_at(second, "branch "@, 0));
    let rest = second.skip(7);
    assert(rest.subrange(0, 11) =~= "refs/heads/"@);
    assert(stands_at(rest, "refs/heads/"@, 0));
    assert(rest.skip(11) =~= branch);
    reveal_with_fuel(scanned, 3);
    assert(scanned(lines, main_dir, 1).path == Some(path));
    assert(scanned(lines, main_dir, 2).branch == Some(branch));
    assert(Seq::empty().push((branch, path)) =~= seq![(branch, path)]);
}

/// Which address a remote can be browsed at: the same host and path over https, without the
/// `.git` at its end. There is none for a remote of another kind.
pub proof fn law_forms_of_remotes(raw: Seq<char>, rest: Seq<char>, cut: (Seq<char>, Seq<char>))
    ensures
        trimmed(raw) == "git@"@ + rest && cut_once(rest, ":"@) == Some(cut) ==> browsable(raw)
            == Some(without_suffix("https://"@ + cut.0 + "/"@ + cut.1, ".git"@)),
        trimmed(raw) == "ssh://git@"@ + rest ==> browsable(raw) == Some(
            without_suffix("https://"@ + rest, ".git"@),
        ),
        trimmed(raw) == "http://"@ + rest ==> browsable(raw) == Some(
            without_suffix("https://"@ + rest, ".git"@),
        ),
        trimmed(raw) == "https://"@ + rest ==> browsable(raw) == Some(
            without_suffix("https://"@ + rest, ".git"@),
        ),
        !starts(trimmed(raw), "git@"@) && !starts(trimmed(raw), "ssh://"@) && !starts(
            trimmed(raw),
            "http://"@,
        ) && !starts(trimmed(raw), "https://"@) ==> browsable(raw) is None,
{
    let text = trimmed(raw);
    reveal_strlit("git@");
    reveal_strlit("ssh://");
    reveal_strlit("ssh://git@");
    reveal_strlit("http://");
    reveal_strlit("https://");
    crate::text::law_prefix_and_suffix(rest, "git@"@);
    crate::text::law_prefix_and_suffix("git@"@ + rest, "ssh://"@);
    crate::text::law_prefix_and_suffix(rest, "http://"@);
    assert("ssh://git@"@ + rest =~= "ssh://"@ + ("git@"@ + rest));
    if text == "ssh://git@"@ + rest {
        assert(text[0] == 's');
        assert(!starts(text, "git@"@)) by {
            if starts(text, "git@"@) {
                assert(text.subrange(0, 4)[0] == 'g');
            }
        }
    }
    if text == "http://"@ + rest {
        assert(text[0] == 'h');
        assert(!starts(text, "git@"@)) by {
            if starts(text, "git@"@) {
                assert(text.subrange(0, 4)[0] == 'g');
            }
        }
        assert(!starts(text, "ssh://"@)) by {
            if starts(text, "ssh://"@) {
                assert(text.subrange(0, 6)[0] == 's');
            }
        }
    }
    if text == "https://"@ + rest {
        assert(text[0] == 'h');
        assert(text[4] == 's');
        assert(text.subrange(0, 8) =~= "https://"@);
        assert(!starts(text, "git@"@)) by {
            if starts(text, "git@"@) {
                assert(text.subrange(0, 4)[0] == 'g');
            }
        }
        assert(!starts(text, "ssh://"@)) by {
            if starts(text, "ssh://"@) {
                assert(text.subrange(0, 6)[0] == 's');
            }
        }
        assert(!starts(text, "http://"@)) by {
            if starts(text, "http://"@) {
                assert(text.subrange(0, 7)[4] == ':');
            }
        }
    }
}

} // verus!
