//! The modals that open over the list and the repo page: what they hold.

use vstd::prelude::*;

use crate::options::{DiffFocus, DiffMode};
use crate::repo::BranchStats;

verus! {

/// A selectable row on the repo page (a branch, a worktree, or a stash).
#[derive(Debug, Clone, Copy, PartialEq, Eq, Structural)]
pub enum PageRowKind {
    Branch,
    Worktree,
    Stash,
}

/// A flattened, selectable repo-page row carrying everything render + actions need.
#[derive(Debug, Clone)]
pub struct PageRow {
    pub kind: PageRowKind,
    pub branch: String,
    pub path: String,
    pub deletable: bool,
    pub is_head: bool,
    /// Has uncommitted changes (a diff modal can be opened on it).
    pub dirty: bool,
    /// Set for stash rows: the `stash@{index}` number.
    pub stash_index: Option<usize>,
    pub ahead: Option<u32>,
    pub behind: Option<u32>,
    pub upstream: Option<String>,
    pub last_commit_rel: String,
    pub subject: String,
    pub stats: Option<BranchStats>,
    pub base: Option<String>,
    pub base_is_override: bool,
    pub dirty_count: u32,
    pub merge_base_short: Option<String>,
    pub commit_sha: String,
    pub author: String,
}

impl PageRow {
    /// What `d` does to the row.
    pub open spec fn delete_verb(self) -> Option<Seq<char>> {
        match self.kind {
            PageRowKind::Stash => Some("drop"@),
            PageRowKind::Worktree => Some("remove"@),
            PageRowKind::Branch => if !self.is_head {
                Some("delete"@)
            } else if self.dirty {
                Some("discard"@)
            } else {
                None
            },
        }
    }

    /// What `d` does to the row, if anything.
    pub fn delete_action(&self) -> (res: Option<&'static str>)
        ensures
            match res {
                Some(verb) => self.delete_verb() == Some(verb@),
                None => self.delete_verb() is None,
            },
    {
        match self.kind {
            PageRowKind::Stash => Some("drop"),
            PageRowKind::Worktree => Some("remove"),
            PageRowKind::Branch => if !self.is_head {
                Some("delete")
            } else if self.dirty {
                Some("discard")
            } else {
                None
            },
        }
    }
}

/// What a diff modal is showing.
#[derive(Debug)]
pub enum DiffSource {
    /// A stash entry: `git stash show -p stash@{index}` at `path`.
    Stash { path: String, index: usize, label: String },
    /// A dirty branch/worktree at `path` (toggle between uncommitted and base-branch diff).
    Dirty { path: String, name: String },
    /// A branch's changes against its base.
    Branch { path: String, name: String },
}

impl Clone for DiffSource {
    fn clone(&self) -> (res: Self)
        ensures
            res == *self,
    {
        match self {
            DiffSource::Stash { path, index, label } => DiffSource::Stash {
                path: path.clone(),
                index: *index,
                label: label.clone(),
            },
            DiffSource::Dirty { path, name } => DiffSource::Dirty {
                path: path.clone(),
                name: name.clone(),
            },
            DiffSource::Branch { path, name } => DiffSource::Branch {
                path: path.clone(),
                name: name.clone(),
            },
        }
    }
}

/// One changed file shown in the diff modal's file-list panel.
#[derive(Debug, Clone)]
pub struct DiffFile {
    /// Single-char git status: M(odified) A(dded) D(eleted) R(enamed) ?(untracked) …
    pub status: String,
    /// Path relative to the repo root.
    pub path: String,
    /// Untracked file — its per-file diff needs `git diff --no-index`.
    pub untracked: bool,
}

impl DiffFile {
    /// The status letter that the file is filed under.
    pub open spec fn bucket(self) -> char {
        if self.status@.len() > 0 {
            self.status@[0]
        } else {
            '?'
        }
    }

    /// The status letter that the file is filed under.
    pub fn status_letter(&self) -> (res: char)
        ensures
            res == self.bucket(),
    {
        let chars = crate::text::chars_of(self.status.as_str());
        if chars.len() > 0 {
            chars[0]
        } else {
            '?'
        }
    }
}

/// The full-screen-ish (90%) diff modal state: a file-list panel over the selected file's diff.
#[derive(Debug, Clone)]
pub struct DiffModal {
    pub source: DiffSource,
    pub mode: DiffMode,
    /// The changed files (top panel).
    pub files: Vec<DiffFile>,
    /// Index of the selected file in `files`.
    pub selected: usize,
    /// Scroll offset of the file-list panel.
    pub file_scroll: usize,
    /// Diff lines of the selected file (bottom panel).
    pub lines: Vec<String>,
    /// Scroll offset of the diff panel.
    pub scroll: usize,
    /// The file list is being (re)fetched.
    pub loading: bool,
    /// The selected file's diff is being fetched.
    pub diff_loading: bool,
    /// Which panel the keys drive.
    pub focus: DiffFocus,
    /// Only the files filed under this letter are listed.
    pub status_filter: Option<char>,
}

/// What stands in the diff panel until a diff arrives.
pub open spec fn loading_lines() -> Seq<Seq<char>> {
    seq!["(loading…)"@]
}

/// What stands in the diff panel until a diff arrives.
pub fn loading_note() -> (res: Vec<String>)
    ensures
        res.deep_view() == loading_lines(),
{
    let mut lines: Vec<String> = Vec::new();
    lines.push("(loading…)".to_owned());
    assert(lines.deep_view() =~= loading_lines());
    lines
}

impl DiffModal {
    /// A modal that waits for its file list: everything but what is shown and how.
    pub open spec fn fresh(self, source: DiffSource, mode: DiffMode, focus: DiffFocus) -> bool {
        &&& self.source == source
        &&& self.mode == mode
        &&& self.files@ == Seq::<DiffFile>::empty()
        &&& self.selected == 0
        &&& self.file_scroll == 0
        &&& self.lines.deep_view() == loading_lines()
        &&& self.scroll == 0
        &&& self.loading
        &&& self.diff_loading
        &&& self.focus == focus
        &&& self.status_filter is None
    }

    /// This modal after another file was picked: its diff is on its way.
    pub open spec fn picked(self, after: DiffModal, index: int) -> bool {
        &&& after.lines.deep_view() == loading_lines()
        &&& after == (DiffModal {
            selected: index as usize,
            scroll: 0,
            lines: after.lines,
            diff_loading: true,
            ..self
        })
    }

    /// The files among the first `n` that are filed under a letter, or all of them.
    pub open spec fn filed_among(self, letter: Option<char>, n: nat) -> Seq<usize>
        decreases n,
    {
        if n == 0 || n > self.files@.len() {
            Seq::empty()
        } else {
            let before = self.filed_among(letter, (n - 1) as nat);
            if letter is None || letter == Some(self.files@[n - 1].bucket()) {
                before.push((n - 1) as usize)
            } else {
                before
            }
        }
    }

    /// The files that are filed under the first `k` letters, letter by letter.
    pub open spec fn grouped_upto(self, k: nat) -> Seq<usize>
        decreases k,
    {
        if k == 0 || k > self.letters().len() {
            Seq::empty()
        } else {
            self.grouped_upto((k - 1) as nat) + self.filed_among(
                Some(self.letters()[k - 1]),
                self.files@.len(),
            )
        }
    }

    /// The indices of the files that the file panel lists: those filed under the filter's
    /// letter, or all; where there are chips, all of them letter by letter.
    pub open spec fn listed(self) -> Seq<usize> {
        if self.status_filter is None && self.has_chips() {
            self.grouped_upto(self.letters().len())
        } else {
            self.filed_among(self.status_filter, self.files@.len())
        }
    }

    fn files_under(&self, letter: Option<char>) -> (res: Vec<usize>)
        ensures
            res@ == self.filed_among(letter, self.files@.len()),
            forall|i: int| 0 <= i < res@.len() ==> #[trigger] res@[i] < self.files@.len(),
    {
        let mut out: Vec<usize> = Vec::new();
        let mut i: usize = 0;
        while i < self.files.len()
            invariant
                i <= self.files@.len(),
                out@ == self.filed_among(letter, i as nat),
                forall|j: int| 0 <= j < out@.len() ==> #[trigger] out@[j] < self.files@.len(),
            decreases self.files@.len() - i,
        {
            let keep = match letter {
                None => true,
                Some(letter) => letter == self.files[i].status_letter(),
            };
            if keep {
                out.push(i);
            }
            i += 1;
        }
        out
    }

    /// The indices of the files that the file panel lists.
    pub fn visible_file_indices(&self) -> (res: Vec<usize>)
        ensures
            res@ == self.listed(),
            forall|i: int| 0 <= i < res@.len() ==> #[trigger] res@[i] < self.files@.len(),
    {
        if self.status_filter.is_some() || !self.chips_active() {
            return self.files_under(self.status_filter);
        }
        let letters = self.status_letters();
        let mut out: Vec<usize> = Vec::new();
        let mut k: usize = 0;
        while k < letters.len()
            invariant
                k <= letters@.len(),
                letters@ == self.letters(),
                out@ == self.grouped_upto(k as nat),
                forall|j: int| 0 <= j < out@.len() ==> #[trigger] out@[j] < self.files@.len(),
            decreases letters@.len() - k,
        {
            let mut files = self.files_under(Some(letters[k]));
            out.append(&mut files);
            k += 1;
        }
        out
    }

    proof fn lemma_filed_among(self, letter: Option<char>, n: nat, file: usize)
        requires
            n <= self.files@.len() <= usize::MAX,
        ensures
            self.filed_among(letter, n).contains(file) <==> file < n && (letter is None || letter
                == Some(self.files@[file as int].bucket())),
        decreases n,
    {
        if n > 0 {
            self.lemma_filed_among(letter, (n - 1) as nat, file);
            let before = self.filed_among(letter, (n - 1) as nat);
            if letter is None || letter == Some(self.files@[n - 1].bucket()) {
                let after = before.push((n - 1) as usize);
                if before.contains(file) {
                    let i = choose|i: int| 0 <= i < before.len() && before[i] == file;
                    assert(after[i] == file);
                }
                assert(after[before.len() as int] == (n - 1) as usize);
                if after.contains(file) && file != (n - 1) as usize {
                    let i = choose|i: int| 0 <= i < after.len() && after[i] == file;
                    assert(before[i] == file);
                }
            }
        }
    }

    proof fn lemma_letters(self, n: nat, file: int)
        requires
            0 <= file < n <= self.files@.len(),
        ensures
            self.letters_upto(n).contains(self.files@[file].bucket()),
        decreases n,
    {
        let before = self.letters_upto((n - 1) as nat);
        let letter = self.files@[n - 1].bucket();
        let wanted = self.files@[file].bucket();
        if file < n - 1 {
            self.lemma_letters((n - 1) as nat, file);
            let i = choose|i: int| 0 <= i < before.len() && before[i] == wanted;
            assert(before.push(letter)[i] == wanted);
        } else {
            assert(before.push(letter)[before.len() as int] == letter);
        }
    }

    proof fn lemma_grouped(self, k: nat, file: usize)
        requires
            k <= self.letters().len(),
            self.files@.len() <= usize::MAX,
        ensures
            self.grouped_upto(k).contains(file) <==> file < self.files@.len()
                && self.letters().take(k as int).contains(self.files@[file as int].bucket()),
        decreases k,
    {
        let letters = self.letters().take(k as int);
        if k == 0 {
            assert(letters.len() == 0);
        } else {
            self.lemma_grouped((k - 1) as nat, file);
            let letter = self.letters()[k - 1];
            self.lemma_filed_among(Some(letter), self.files@.len(), file);
            let before = self.grouped_upto((k - 1) as nat);
            let own = self.filed_among(Some(letter), self.files@.len());
            let fewer = self.letters().take(k - 1);
            assert(letters =~= fewer.push(letter));
            assert((before + own).contains(file) <==> before.contains(file) || own.contains(file))
                by {
                if before.contains(file) {
                    let i = choose|i: int| 0 <= i < before.len() && before[i] == file;
                    assert((before + own)[i] == file);
                }
                if own.contains(file) {
                    let i = choose|i: int| 0 <= i < own.len() && own[i] == file;
                    assert((before + own)[before.len() + i] == file);
                }
                if (before + own).contains(file) {
                    let i = choose|i: int|
                        0 <= i < (before + own).len() && (before + own)[i] == file;
                    if i < before.len() {
                        assert(before[i] == file);
                    } else {
                        assert(own[i - before.len()] == file);
                    }
                }
            }
            if file < self.files@.len() {
                let wanted = self.files@[file as int].bucket();
                if fewer.contains(wanted) {
                    let i = choose|i: int| 0 <= i < fewer.len() && fewer[i] == wanted;
                    assert(letters[i] == wanted);
                }
                assert(letters[k - 1] == letter);
                if letters.contains(wanted) && wanted != letter {
                    let i = choose|i: int| 0 <= i < letters.len() && letters[i] == wanted;
                    assert(fewer[i] == wanted);
                }
            }
        }
    }

    /// The file panel lists the files that the filter admits, and no others; without a filter
    /// it lists every file.
    pub proof fn law_listed_files(self, file: usize)
        requires
            self.files@.len() <= usize::MAX,
        ensures
            self.listed().contains(file) <==> file < self.files@.len() && (self.status_filter is None
                || self.status_filter == Some(self.files@[file as int].bucket())),
    {
        self.lemma_filed_among(self.status_filter, self.files@.len(), file);
        let letters = self.letters();
        assert(letters.take(letters.len() as int) =~= letters);
        self.lemma_grouped(letters.len(), file);
        if file < self.files@.len() {
            self.lemma_letters(self.files@.len(), file as int);
        }
    }

    /// How many of the first `n` files are filed under a letter.
    pub open spec fn filed_upto(self, letter: char, n: nat) -> nat
        decreases n,
    {
        if n == 0 || n > self.files@.len() {
            0
        } else {
            self.filed_upto(letter, (n - 1) as nat) + if self.files@[n - 1].bucket() == letter {
                1nat
            } else {
                0nat
            }
        }
    }

    /// The letters that the first `n` files are filed under, in the order in which they
    /// first occur.
    pub open spec fn letters_upto(self, n: nat) -> Seq<char>
        decreases n,
    {
        if n == 0 || n > self.files@.len() {
            Seq::empty()
        } else {
            let before = self.letters_upto((n - 1) as nat);
            let letter = self.files@[n - 1].bucket();
            if before.contains(letter) {
                before
            } else {
                before.push(letter)
            }
        }
    }

    /// The letters that the files are filed under.
    pub open spec fn letters(self) -> Seq<char> {
        self.letters_upto(self.files@.len())
    }

    /// The status chips: each letter with the number of its files.
    pub open spec fn chips(self) -> Seq<(char, usize)> {
        Seq::new(
            self.letters().len(),
            |i: int|
                (self.letters()[i], self.filed_upto(self.letters()[i], self.files@.len()) as usize),
        )
    }

    /// The chips are shown for more than ten files of at least two statuses.
    pub open spec fn has_chips(self) -> bool {
        self.files@.len() > 10 && self.letters().len() >= 2
    }

    fn status_letters(&self) -> (res: Vec<char>)
        ensures
            res@ == self.letters(),
    {
        let mut out: Vec<char> = Vec::new();
        let mut i: usize = 0;
        while i < self.files.len()
            invariant
                i <= self.files@.len(),
                out@ == self.letters_upto(i as nat),
            decreases self.files@.len() - i,
        {
            let letter = self.files[i].status_letter();
            if !has_letter(&out, letter) {
                out.push(letter);
            }
            i += 1;
        }
        out
    }

    fn filed(&self, letter: char) -> (res: usize)
        ensures
            res == self.filed_upto(letter, self.files@.len()),
    {
        let mut n: usize = 0;
        let mut i: usize = 0;
        while i < self.files.len()
            invariant
                n <= i <= self.files@.len(),
                n == self.filed_upto(letter, i as nat),
            decreases self.files@.len() - i,
        {
            if self.files[i].status_letter() == letter {
                n += 1;
            }
            i += 1;
        }
        n
    }

    /// The status chips: each letter with the number of its files.
    pub fn status_chips(&self) -> (res: Vec<(char, usize)>)
        ensures
            res@ == self.chips(),
    {
        let letters = self.status_letters();
        let mut out: Vec<(char, usize)> = Vec::new();
        let mut i: usize = 0;
        while i < letters.len()
            invariant
                i <= letters@.len(),
                letters@ == self.letters(),
                out@ =~= self.chips().take(i as int),
            decreases letters@.len() - i,
        {
            let count: usize = self.filed(letters[i]);
            out.push((letters[i], count));
            i += 1;
        }
        assert(out@ =~= self.chips());
        out
    }

    /// The chips are shown for more than ten files of at least two statuses.
    pub fn chips_active(&self) -> (res: bool)
        ensures
            res == self.has_chips(),
    {
        self.files.len() > 10 && self.status_letters().len() >= 2
    }
}

fn has_letter(letters: &Vec<char>, letter: char) -> (res: bool)
    ensures
        res == letters@.contains(letter),
{
    let mut i: usize = 0;
    while i < letters.len()
        invariant
            i <= letters@.len(),
            forall|j: int| 0 <= j < i ==> letters@[j] != letter,
        decreases letters@.len() - i,
    {
        if letters[i] == letter {
            return true;
        }
        i += 1;
    }
    false
}

/// The base-branch picker: which branch a branch's stats are compared against.
#[derive(Debug, Clone)]
pub struct BasePicker {
    pub repo_index: usize,
    pub branch: String,
    /// The branches that can be picked.
    pub candidates: Vec<String>,
    /// The base found on its own.
    pub detected: Option<String>,
    /// The base picked by hand, if any.
    pub current: Option<String>,
    /// Row 0 is "auto-detect", row `i + 1` is candidate `i`.
    pub selected: usize,
}

/// What a confirmation dialog will do when accepted.
#[derive(Debug, Clone)]
pub enum ConfirmAction {
    DeleteBranch { repo_idx: usize, branch: String, force: bool },
    DropStash { repo_idx: usize, index: usize },
    RemoveWorktree { repo_idx: usize, path: String, force: bool },
    DiscardChanges { repo_idx: usize, path: String },
}

/// A yes/no confirmation modal.
#[derive(Debug, Clone)]
pub struct ConfirmDialog {
    pub message: String,
    pub action: ConfirmAction,
    /// Destructive (loses uncommitted/unmerged work) — rendered with a scarier dialog.
    pub danger: bool,
    /// Tracked files a discard would revert (shown in the dialog body).
    pub restore_files: Vec<String>,
    /// Untracked files a discard would delete (shown in the dialog body).
    pub delete_files: Vec<String>,
}

impl ConfirmDialog {
    /// A dialog with no per-file detail body.
    pub open spec fn is_simple(
        self,
        message: Seq<char>,
        action: ConfirmAction,
        danger: bool,
    ) -> bool {
        &&& self.message@ == message
        &&& self.action == action
        &&& self.danger == danger
        &&& self.restore_files@ == Seq::<String>::empty()
        &&& self.delete_files@ == Seq::<String>::empty()
    }

    /// A dialog with no per-file detail body.
    pub fn simple(message: String, action: ConfirmAction, danger: bool) -> (res: Self)
        ensures
            res.message == message,
            res.is_simple(message@, action, danger),
    {
        Self { message, action, danger, restore_files: Vec::new(), delete_files: Vec::new() }
    }
}

/// What a click in the info block does.
#[derive(Debug)]
pub enum InfoAction {
    OpenUrl(String),
    CopyText(String),
    ToggleExpand(String),
}

impl Clone for InfoAction {
    fn clone(&self) -> (res: Self)
        ensures
            res == *self,
    {
        match self {
            InfoAction::OpenUrl(url) => InfoAction::OpenUrl(url.clone()),
            InfoAction::CopyText(text) => InfoAction::CopyText(text.clone()),
            InfoAction::ToggleExpand(field) => InfoAction::ToggleExpand(field.clone()),
        }
    }
}

// ---- what the file panel shows ----

/// A file is filed under the first letter of its status.
pub proof fn law_letter_of_a_file(file: DiffFile)
    ensures
        file.status@.len() > 0 ==> file.bucket() == file.status@.first(),
        file.status@.len() == 0 ==> file.bucket() == '?',
{
}

/// What clearing a row is called: a stash is dropped, a worktree removed, a branch deleted; the
/// changes of the current branch are discarded, and without changes it has nothing to clear.
pub proof fn law_verbs(row: PageRow)
    ensures
        row.kind is Stash ==> row.delete_verb() == Some("drop"@),
        row.kind is Worktree ==> row.delete_verb() == Some("remove"@),
        row.kind is Branch && !row.is_head ==> row.delete_verb() == Some("delete"@),
        row.kind is Branch && row.is_head && row.dirty ==> row.delete_verb() == Some("discard"@),
        row.kind is Branch && row.is_head && !row.dirty ==> row.delete_verb() is None,
{
}

impl DiffModal {
    proof fn lemma_filed_count(self, letter: char, n: nat)
        requires
            n <= self.files@.len(),
        ensures
            self.filed_upto(letter, n) == self.files@.take(n as int).filter(
                |file: DiffFile| file.bucket() == letter,
            ).len(),
        decreases n,
    {
        reveal(Seq::filter);
        if n > 0 {
            self.lemma_filed_count(letter, (n - 1) as nat);
            assert(self.files@.take(n as int).drop_last() =~= self.files@.take(n - 1));
            assert(self.files@.take(n as int).last() == self.files@[n - 1]);
        } else {
            assert(self.files@.take(0) =~= Seq::empty());
        }
    }

    proof fn lemma_letter_listed(self, letter: char, n: nat)
        requires
            n <= self.files@.len(),
        ensures
            self.letters_upto(n).contains(letter) <==> exists|i: int|
                0 <= i < n && (#[trigger] self.files@[i]).bucket() == letter,
            self.letters_upto(n).no_duplicates(),
        decreases n,
    {
        if n > 0 {
            self.lemma_letter_listed(letter, (n - 1) as nat);
            let own = self.files@[n - 1].bucket();
            let before = self.letters_upto((n - 1) as nat);
            let all = self.letters_upto(n);
            if !before.contains(own) {
                assert(all[before.len() as int] == own);
            }
            if before.contains(letter) {
                let i = choose|i: int| 0 <= i < before.len() && before[i] == letter;
                assert(all[i] == letter);
            }
            if all.contains(letter) && letter != own {
                let i = choose|i: int| 0 <= i < all.len() && all[i] == letter;
                assert(before[i] == letter);
            }
            if letter == own {
                assert(all.contains(own));
            }
        }
    }

    /// Each chip has a letter of its own and counts the files that are filed under it, and there
    /// is one for every letter that some file has. There are chips only for more than ten files
    /// under more than one letter.
    pub proof fn law_chips(self, k: int)
        requires
            0 <= k < self.chips().len(),
            self.files@.len() <= usize::MAX,
        ensures
            ({
                let letter = self.chips()[k].0;
                &&& self.chips()[k].1 == self.files@.filter(
                    |file: DiffFile| file.bucket() == letter,
                ).len()
                &&& exists|i: int|
                    0 <= i < self.files@.len() && (#[trigger] self.files@[i]).bucket() == letter
            }),
            forall|j: int| 0 <= j < k ==> (#[trigger] self.chips()[j]).0 != self.chips()[k].0,
            self.has_chips() <==> self.files@.len() > 10 && self.chips().len() > 1,
    {
        let letter = self.chips()[k].0;
        self.lemma_filed_count(letter, self.files@.len());
        assert(self.files@.take(self.files@.len() as int) =~= self.files@);
        self.lemma_letter_listed(letter, self.files@.len());
        assert(self.letters()[k] == letter);
        self.lemma_filed_bound(letter, self.files@.len());
    }

    proof fn lemma_filed_bound(self, letter: char, n: nat)
        ensures
            self.filed_upto(letter, n) <= n,
        decreases n,
    {
        if n > 0 {
            self.lemma_filed_bound(letter, (n - 1) as nat);
        }
    }

    /// Every letter that some file has is on a chip.
    pub proof fn law_every_letter_has_a_chip(self, file: int)
        requires
            0 <= file < self.files@.len(),
        ensures
            exists|k: int|
                0 <= k < self.chips().len() && (#[trigger] self.chips()[k]).0
                    == self.files@[file].bucket(),
    {
        let letter = self.files@[file].bucket();
        self.lemma_letter_listed(letter, self.files@.len());
        let k = choose|k: int| 0 <= k < self.letters().len() && self.letters()[k] == letter;
        assert(self.chips()[k].0 == letter);
    }
}

} // verus!
