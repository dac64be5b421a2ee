//! The rows of the list: the repos, and the headers of the folders and groups that they are in.

use vstd::prelude::*;

use crate::app::AppState;
use crate::groups::{group_from, group_of, steps};
use crate::modals::{find_text, listed_at};
use crate::repo::RepoState;
use crate::text::{cat, cat3, join, joined, same, split, Separator};

verus! {

/// A row of the list. A header names its folder by one of the repos in it.
#[derive(Debug, Clone, Copy, PartialEq, Eq, Structural)]
pub enum ListRow {
    Repo { idx: usize, depth: usize },
    /// The group of a repo, within so many folders of its path.
    Group { of: usize, group: usize, within: usize, collapsible: bool },
    /// The folder of a repo that lies in so many others.
    Folder { of: usize, level: usize },
    /// A blank row between sections.
    Spacer,
}

impl ListRow {
    /// Navigation stops at the row: it skips blank rows and the headers of small groups.
    pub open spec fn selectable(self) -> bool {
        match self {
            ListRow::Repo { .. } => true,
            ListRow::Group { collapsible, .. } => collapsible,
            ListRow::Folder { .. } => true,
            ListRow::Spacer => false,
        }
    }

    /// Whether navigation stops at the row.
    pub fn is_selectable(&self) -> (res: bool)
        ensures
            res == self.selectable(),
    {
        match self {
            ListRow::Repo { .. } => true,
            ListRow::Group { collapsible, .. } => *collapsible,
            ListRow::Folder { .. } => true,
            ListRow::Spacer => false,
        }
    }
}

/// Every index is one of `n`.
pub open spec fn all_below(list: Seq<usize>, n: nat) -> bool {
    forall|k: int| 0 <= k < list.len() ==> #[trigger] list[k] < n
}

// ---- paths ----

/// How many folders a repo lies in.
pub open spec fn folders_of(repo: RepoState) -> int {
    steps(repo.name@).len() - 1
}

/// Two repos share the first `n` folders of their paths.
pub open spec fn same_folders(a: RepoState, b: RepoState, n: int) -> bool {
    steps(a.name@).take(n) == steps(b.name@).take(n)
}

/// The path of the folder that the first `n` steps of a repo's path lead to.
pub open spec fn folder_path(repo: RepoState, n: int) -> Seq<char> {
    joined(steps(repo.name@).take(n), "/"@)
}

/// The key by which a folder is known as folded.
pub open spec fn folder_key(repo: RepoState, level: int) -> Seq<char> {
    folder_path(repo, level + 1) + "/"@
}

/// The key by which a group within a folder is known as folded.
pub open spec fn group_key(repo: RepoState, within: int, name: Seq<char>) -> Seq<char> {
    if within == 0 {
        ":"@ + name
    } else {
        folder_path(repo, within) + "/:"@ + name
    }
}

/// The name of the section for the repos in no group.
pub open spec fn ungrouped() -> Seq<char> {
    "ungrouped"@
}

proof fn lemma_steps(name: Seq<char>)
    ensures
        steps(name).len() > 0,
{
    crate::text::lemma_pieces_some(name, Separator::One('/'));
}

pub(crate) fn count_folders(repo: &RepoState) -> (res: usize)
    ensures
        res == folders_of(*repo),
{
    let parts = split(repo.name.as_str(), Separator::One('/'));
    assert(parts@.len() == parts.deep_view().len());
    parts.len() - 1
}

fn first_steps(repo: &RepoState, n: usize) -> (res: Vec<String>)
    ensures
        res.deep_view() == steps(repo.name@).take(
            if n <= steps(repo.name@).len() {
                n as int
            } else {
                steps(repo.name@).len() as int
            },
        ),
{
    let parts = split(repo.name.as_str(), Separator::One('/'));
    let ghost all = parts.deep_view();
    let mut out: Vec<String> = Vec::new();
    let mut i: usize = 0;
    assert(out.deep_view() =~= all.take(0));
    while i < n && i < parts.len()
        invariant
            i <= n,
            i <= parts@.len(),
            all == parts.deep_view(),
            out.deep_view() == all.take(i as int),
        decreases n - i,
    {
        let ghost before = out.deep_view();
        assert(all[i as int] == parts@[i as int]@);
        out.push(parts[i].clone());
        assert(out.deep_view() =~= before.push(all[i as int]));
        assert(all.take(i + 1) =~= all.take(i as int).push(all[i as int]));
        i += 1;
    }
    assert(parts@.len() == all.len());
    out
}

pub(crate) fn path_of_folder(repo: &RepoState, n: usize) -> (res: String)
    requires
        n <= steps(repo.name@).len(),
    ensures
        res@ == folder_path(*repo, n as int),
{
    join(&first_steps(repo, n), "/")
}

/// The name of the folder of a repo that lies in so many others.
pub open spec fn folder_name(repo: RepoState, level: int) -> Seq<char> {
    steps(repo.name@)[level]
}

pub(crate) fn name_of_folder(repo: &RepoState, level: usize) -> (res: String)
    requires
        level < steps(repo.name@).len(),
    ensures
        res@ == folder_name(*repo, level as int),
{
    let parts = split(repo.name.as_str(), Separator::One('/'));
    assert(parts.deep_view()[level as int] == parts@[level as int]@);
    parts[level].clone()
}

pub(crate) fn share_folders(a: &RepoState, b: &RepoState, n: usize) -> (res: bool)
    requires
        n <= steps(a.name@).len(),
        n <= steps(b.name@).len(),
    ensures
        res == same_folders(*a, *b, n as int),
{
    crate::paths::same_texts(&first_steps(a, n), &first_steps(b, n))
}

// ---- picking repos ----

impl AppState {
    /// The repo of an index.
    pub open spec fn repo_at(self, idx: usize) -> RepoState {
        self.repos@[idx as int]
    }

    /// The group of a repo.
    pub open spec fn group_at(self, idx: usize) -> int {
        group_from(self.outline.groups@, self.repo_at(idx).name@, 0)
    }

    /// The repos among the first `n` of a list that are in a group.
    pub open spec fn in_group_upto(self, list: Seq<usize>, group: int, n: nat) -> Seq<usize>
        decreases n,
    {
        if n == 0 || n > list.len() {
            Seq::empty()
        } else if self.group_at(list[n - 1]) == group {
            self.in_group_upto(list, group, (n - 1) as nat).push(list[n - 1])
        } else {
            self.in_group_upto(list, group, (n - 1) as nat)
        }
    }

    /// The repos of a list that are in a group.
    pub fn members_in_group(&self, list: &Vec<usize>, group: usize) -> (res: Vec<usize>)
        requires
            all_below(list@, self.repos@.len()),
        ensures
            res@ == self.in_group_upto(list@, group as int, list@.len()),
            all_below(res@, self.repos@.len()),
    {
        let mut out: Vec<usize> = Vec::new();
        let mut i: usize = 0;
        while i < list.len()
            invariant
                i <= list@.len(),
                all_below(list@, self.repos@.len()),
                all_below(out@, self.repos@.len()),
                out@ == self.in_group_upto(list@, group as int, i as nat),
            decreases list@.len() - i,
        {
            let idx: usize = list[i];
            if group_of(&self.outline.groups, self.repos[idx].name.as_str()) == group {
                out.push(idx);
            }
            i += 1;
        }
        out
    }

    /// A repo of a list lies in the folder of another.
    pub open spec fn in_folder(self, idx: usize, of: usize, level: int) -> bool {
        folders_of(self.repo_at(idx)) > level && same_folders(
            self.repo_at(idx),
            self.repo_at(of),
            level + 1,
        )
    }

    /// The repos among the first `n` of a list that lie in a folder.
    pub open spec fn in_folder_upto(self, list: Seq<usize>, of: usize, level: int, n: nat) -> Seq<
        usize,
    >
        decreases n,
    {
        if n == 0 || n > list.len() {
            Seq::empty()
        } else if self.in_folder(list[n - 1], of, level) {
            self.in_folder_upto(list, of, level, (n - 1) as nat).push(list[n - 1])
        } else {
            self.in_folder_upto(list, of, level, (n - 1) as nat)
        }
    }

    /// The repos of a list that lie in a folder.
    pub fn members_in_folder(&self, list: &Vec<usize>, of: usize, level: usize) -> (res: Vec<usize>)
        requires
            all_below(list@, self.repos@.len()),
            of < self.repos@.len(),
            folders_of(self.repo_at(of)) > level,
        ensures
            res@ == self.in_folder_upto(list@, of, level as int, list@.len()),
            all_below(res@, self.repos@.len()),
    {
        let mut out: Vec<usize> = Vec::new();
        let mut i: usize = 0;
        while i < list.len()
            invariant
                i <= list@.len(),
                of < self.repos@.len(),
                folders_of(self.repo_at(of)) > level,
                all_below(list@, self.repos@.len()),
                all_below(out@, self.repos@.len()),
                out@ == self.in_folder_upto(list@, of, level as int, i as nat),
            decreases list@.len() - i,
        {
            let idx: usize = list[i];
            if count_folders(&self.repos[idx]) > level && share_folders(
                &self.repos[idx],
                &self.repos[of],
                level + 1,
            ) {
                out.push(idx);
            }
            i += 1;
        }
        out
    }

    /// A repo lies in the folder of one of the repos in a list.
    pub open spec fn in_some_folder(self, idx: usize, firsts: Seq<usize>, level: int) -> bool {
        exists|k: int| 0 <= k < firsts.len() && self.in_folder(idx, #[trigger] firsts[k], level)
    }

    fn lies_in_some(&self, idx: usize, firsts: &Vec<usize>, level: usize) -> (res: bool)
        requires
            idx < self.repos@.len(),
            all_below(firsts@, self.repos@.len()),
            forall|k: int|
                0 <= k < firsts@.len() ==> folders_of(self.repo_at(#[trigger] firsts@[k])) > level,
            folders_of(self.repo_at(idx)) > level,
        ensures
            res == self.in_some_folder(idx, firsts@, level as int),
    {
        let own: usize = count_folders(&self.repos[idx]);
        let mut i: usize = 0;
        while i < firsts.len()
            invariant
                i <= firsts@.len(),
                level < own,
                idx < self.repos@.len(),
                all_below(firsts@, self.repos@.len()),
                forall|k: int|
                    0 <= k < firsts@.len() ==> folders_of(self.repo_at(#[trigger] firsts@[k]))
                        > level,
                folders_of(self.repo_at(idx)) > level,
                forall|k: int|
                    0 <= k < i ==> !self.in_folder(idx, #[trigger] firsts@[k], level as int),
            decreases firsts@.len() - i,
        {
            if share_folders(&self.repos[idx], &self.repos[firsts[i]], level + 1) {
                assert(self.in_folder(idx, firsts@[i as int], level as int));
                return true;
            }
            i += 1;
        }
        false
    }

    /// The first repo of each folder among the first `n` of a list, at a level.
    pub open spec fn firsts_upto(self, list: Seq<usize>, level: int, n: nat) -> Seq<usize>
        decreases n,
    {
        if n == 0 || n > list.len() {
            Seq::empty()
        } else {
            let before = self.firsts_upto(list, level, (n - 1) as nat);
            let idx = list[n - 1];
            if folders_of(self.repo_at(idx)) > level && !self.in_some_folder(idx, before, level) {
                before.push(idx)
            } else {
                before
            }
        }
    }

    /// The first repo of each folder in a list.
    pub fn firsts(&self, list: &Vec<usize>, level: usize) -> (res: Vec<usize>)
        requires
            all_below(list@, self.repos@.len()),
        ensures
            res@ == self.firsts_upto(list@, level as int, list@.len()),
            all_below(res@, self.repos@.len()),
            forall|k: int|
                0 <= k < res@.len() ==> folders_of(self.repo_at(#[trigger] res@[k])) > level,
    {
        let mut out: Vec<usize> = Vec::new();
        let mut i: usize = 0;
        while i < list.len()
            invariant
                i <= list@.len(),
                all_below(list@, self.repos@.len()),
                all_below(out@, self.repos@.len()),
                forall|k: int|
                    0 <= k < out@.len() ==> folders_of(self.repo_at(#[trigger] out@[k])) > level,
                out@ == self.firsts_upto(list@, level as int, i as nat),
            decreases list@.len() - i,
        {
            let idx: usize = list[i];
            if count_folders(&self.repos[idx]) > level && !self.lies_in_some(idx, &out, level) {
                out.push(idx);
            }
            i += 1;
        }
        out
    }

    /// The repos among the first `n` of a list that lie directly in a folder of a level.
    pub open spec fn direct_upto(self, list: Seq<usize>, level: int, n: nat) -> Seq<usize>
        decreases n,
    {
        if n == 0 || n > list.len() {
            Seq::empty()
        } else if folders_of(self.repo_at(list[n - 1])) <= level {
            self.direct_upto(list, level, (n - 1) as nat).push(list[n - 1])
        } else {
            self.direct_upto(list, level, (n - 1) as nat)
        }
    }

    fn direct(&self, list: &Vec<usize>, level: usize) -> (res: Vec<usize>)
        requires
            all_below(list@, self.repos@.len()),
        ensures
            res@ == self.direct_upto(list@, level as int, list@.len()),
            all_below(res@, self.repos@.len()),
    {
        let mut out: Vec<usize> = Vec::new();
        let mut i: usize = 0;
        while i < list.len()
            invariant
                i <= list@.len(),
                all_below(list@, self.repos@.len()),
                all_below(out@, self.repos@.len()),
                out@ == self.direct_upto(list@, level as int, i as nat),
            decreases list@.len() - i,
        {
            let idx: usize = list[i];
            if count_folders(&self.repos[idx]) <= level {
                out.push(idx);
            }
            i += 1;
        }
        out
    }

    // ---- folding ----

    /// A key is folded.
    pub open spec fn folds(self, key: Seq<char>) -> bool {
        listed_at(self.outline.folded@, key, 0) is Some
    }

    pub(crate) fn is_folded(&self, key: &str) -> (res: bool)
        ensures
            res == self.folds(key@),
    {
        find_text(&self.outline.folded, key).is_some()
    }

    /// The name of a group, or of the section for the repos in none.
    pub open spec fn group_name(self, group: int) -> Seq<char> {
        if 0 <= group < self.outline.groups@.len() {
            self.outline.groups@[group].name@
        } else {
            ungrouped()
        }
    }

    /// The name of a group, or of the section for the repos in none.
    pub fn name_of_group(&self, group: usize) -> (res: &str)
        ensures
            res@ == self.group_name(group as int),
    {
        if group < self.outline.groups.len() {
            self.outline.groups[group].name.as_str()
        } else {
            "ungrouped"
        }
    }

    /// The key of a header: nothing where the row cannot be folded.
    pub open spec fn row_key(self, row: ListRow) -> Option<Seq<char>> {
        match row {
            ListRow::Folder { of, level } => Some(folder_key(self.repo_at(of), level as int)),
            ListRow::Group { of, group, within, collapsible } => if collapsible {
                Some(group_key(self.repo_at(of), within as int, self.group_name(group as int)))
            } else {
                None
            },
            _ => None,
        }
    }

    /// The row names one of the repos, and a header a folder that there is.
    pub open spec fn row_ok(self, row: ListRow) -> bool {
        match row {
            ListRow::Repo { idx, .. } => idx < self.repos@.len(),
            ListRow::Group { of, within, .. } => of < self.repos@.len() && within <= folders_of(
                self.repo_at(of),
            ),
            ListRow::Folder { of, level } => of < self.repos@.len() && level < folders_of(
                self.repo_at(of),
            ),
            ListRow::Spacer => true,
        }
    }

    /// Every row names what there is.
    pub open spec fn rows_ok(self, rows: Seq<ListRow>) -> bool {
        forall|k: int| 0 <= k < rows.len() ==> self.row_ok(#[trigger] rows[k])
    }

    /// The key of a header.
    pub fn key_of_row(&self, row: ListRow) -> (res: Option<String>)
        requires
            self.row_ok(row),
        ensures
            res.deep_view() == self.row_key(row),
    {
        match row {
            ListRow::Folder { of, level } => {
                let own: usize = count_folders(&self.repos[of]);
                assert(level < own);
                let path = path_of_folder(&self.repos[of], level + 1);
                Some(cat(path.as_str(), "/"))
            },
            ListRow::Group { of, group, within, collapsible } => {
                if !collapsible {
                    return None;
                }
                let name = self.name_of_group(group);
                if within == 0 {
                    Some(cat(":", name))
                } else {
                    let path = path_of_folder(&self.repos[of], within);
                    Some(cat3(path.as_str(), "/:", name))
                }
            },
            _ => None,
        }
    }

    /// A header is folded.
    pub open spec fn row_folded(self, row: ListRow) -> bool {
        self.row_key(row) matches Some(key) && self.folds(key)
    }

    /// Whether a header is folded.
    pub fn is_row_folded(&self, row: ListRow) -> (res: bool)
        requires
            self.row_ok(row),
        ensures
            res == self.row_folded(row),
    {
        match self.key_of_row(row) {
            Some(key) => self.is_folded(key.as_str()),
            None => false,
        }
    }

    // ---- sections ----

    /// The rows of the first `n` repos of a list.
    pub open spec fn repo_rows_upto(list: Seq<usize>, depth: usize, n: nat) -> Seq<ListRow>
        decreases n,
    {
        if n == 0 || n > list.len() {
            Seq::empty()
        } else {
            Self::repo_rows_upto(list, depth, (n - 1) as nat).push(
                ListRow::Repo { idx: list[n - 1], depth },
            )
        }
    }

    fn push_repos(&self, rows: &mut Vec<ListRow>, list: &Vec<usize>, depth: usize)
        requires
            all_below(list@, self.repos@.len()),
            self.rows_ok(old(rows)@),
        ensures
            final(rows)@ == old(rows)@ + Self::repo_rows_upto(list@, depth, list@.len()),
            self.rows_ok(final(rows)@),
    {
        let ghost before = rows@;
        let mut i: usize = 0;
        while i < list.len()
            invariant
                i <= list@.len(),
                all_below(list@, self.repos@.len()),
                self.rows_ok(rows@),
                rows@ =~= before + Self::repo_rows_upto(list@, depth, i as nat),
            decreases list@.len() - i,
        {
            rows.push(ListRow::Repo { idx: list[i], depth });
            i += 1;
        }
    }

    /// The header of a section.
    pub open spec fn section_header(self, members: Seq<usize>, group: int, within: usize) -> ListRow {
        ListRow::Group {
            of: members[0],
            group: group as usize,
            within,
            collapsible: members.len() > self.outline.threshold,
        }
    }

    /// A section: its header, and its repos unless it is folded.
    pub open spec fn section(self, members: Seq<usize>, group: int, within: usize) -> Seq<ListRow> {
        let header = self.section_header(members, group, within);
        let start = Seq::<ListRow>::empty().push(header);
        if self.row_folded(header) {
            start
        } else {
            start + Self::repo_rows_upto(members, within, members.len())
        }
    }

    /// The sections of the first `n` groups, of which the last holds the repos in none; a blank
    /// row stands between two of them.
    pub open spec fn sections_upto(self, list: Seq<usize>, within: usize, n: nat) -> Seq<ListRow>
        decreases n,
    {
        if n == 0 {
            Seq::empty()
        } else {
            let before = self.sections_upto(list, within, (n - 1) as nat);
            let members = self.in_group_upto(list, n - 1, list.len());
            if members.len() == 0 {
                before
            } else if before.len() == 0 {
                self.section(members, n - 1, within)
            } else {
                before.push(ListRow::Spacer) + self.section(members, n - 1, within)
            }
        }
    }

    fn push_section(&self, rows: &mut Vec<ListRow>, members: &Vec<usize>, group: usize, within: usize)
        requires
            all_below(members@, self.repos@.len()),
            members@.len() > 0,
            within <= folders_of(self.repo_at(members@[0])),
            self.rows_ok(old(rows)@),
        ensures
            final(rows)@ == old(rows)@ + self.section(members@, group as int, within),
            self.rows_ok(final(rows)@),
    {
        let ghost before = rows@;
        let header = ListRow::Group {
            of: members[0],
            group,
            within,
            collapsible: members.len() > self.outline.threshold,
        };
        assert(self.row_ok(header));
        rows.push(header);
        assert(rows@ =~= before + Seq::<ListRow>::empty().push(header));
        if !self.is_row_folded(header) {
            self.push_repos(rows, members, within);
        }
        assert(rows@ =~= before + self.section(members@, group as int, within));
    }

    proof fn lemma_in_group(self, list: Seq<usize>, group: int, n: nat)
        requires
            n <= list.len(),
        ensures
            forall|k: int|
                0 <= k < self.in_group_upto(list, group, n).len() ==> list.contains(
                    #[trigger] self.in_group_upto(list, group, n)[k],
                ),
        decreases n,
    {
        if n > 0 {
            self.lemma_in_group(list, group, (n - 1) as nat);
            assert(list.contains(list[n - 1]));
            let before = self.in_group_upto(list, group, (n - 1) as nat);
            let after = self.in_group_upto(list, group, n);
            assert forall|k: int| 0 <= k < after.len() implies list.contains(
                #[trigger] after[k],
            ) by {
                if k < before.len() {
                    assert(after[k] == before[k]);
                }
            }
        }
    }

    /// Every repo of a list lies in at least so many folders.
    pub open spec fn all_within(self, list: Seq<usize>, within: int) -> bool {
        forall|k: int| 0 <= k < list.len() ==> folders_of(self.repo_at(#[trigger] list[k])) >= within
    }

    fn push_sections(&self, rows: &mut Vec<ListRow>, list: &Vec<usize>, within: usize)
        requires
            all_below(list@, self.repos@.len()),
            self.all_within(list@, within as int),
            self.rows_ok(old(rows)@),
        ensures
            final(rows)@ == old(rows)@ + self.sections_upto(
                list@,
                within,
                self.outline.groups@.len() + 1,
            ),
            self.rows_ok(final(rows)@),
    {
        let ghost before = rows@;
        let start: usize = rows.len();
        let last: usize = self.outline.groups.len();
        let mut g: usize = 0;
        while g <= last
            invariant_except_break
                g <= last,
                rows@ =~= before + self.sections_upto(list@, within, g as nat),
            invariant
                last == self.outline.groups@.len(),
                start == before.len(),
                all_below(list@, self.repos@.len()),
                self.all_within(list@, within as int),
                self.rows_ok(rows@),
            ensures
                rows@ =~= before + self.sections_upto(list@, within, last as nat + 1),
            decreases last - g,
        {
            let members = self.members_in_group(list, g);
            proof {
                self.lemma_in_group(list@, g as int, list@.len());
            }
            let ghost so_far = self.sections_upto(list@, within, g as nat);
            if members.len() > 0 {
                assert(list@.contains(members@[0]));
                if rows.len() > start {
                    rows.push(ListRow::Spacer);
                    self.push_section(rows, &members, g, within);
                    assert(rows@ =~= before + (so_far.push(ListRow::Spacer) + self.section(
                        members@,
                        g as int,
                        within,
                    )));
                } else {
                    self.push_section(rows, &members, g, within);
                    assert(so_far =~= Seq::<ListRow>::empty());
                }
            }
            assert(rows@ =~= before + self.sections_upto(list@, within, g as nat + 1));
            if g == last {
                break;
            }
            g += 1;
        }
    }

    // ---- the tree ----

    /// The repos of a list in the folder of a level, which are grouped where groups are on.
    pub open spec fn leaf_rows(self, list: Seq<usize>, level: usize) -> Seq<ListRow> {
        if self.grouping_active() {
            self.sections_upto(list, level, self.outline.groups@.len() + 1)
        } else {
            Self::repo_rows_upto(list, level, list.len())
        }
    }

    /// What a list shows at a level: the folders with what is in them, and then the repos that lie
    /// in none of those. There are at most `deep` levels more.
    pub open spec fn level_rows(self, list: Seq<usize>, level: usize, deep: nat) -> Seq<ListRow>
        decreases deep, 1int, 0int,
    {
        if deep == 0 {
            self.leaf_rows(list, level)
        } else {
            self.folder_rows_upto(
                list,
                level,
                deep,
                self.firsts_upto(list, level as int, list.len()).len(),
            ) + self.leaf_rows(self.direct_upto(list, level as int, list.len()), level)
        }
    }

    /// The first `n` folders of a list at a level, each with what is in it unless it is folded.
    pub open spec fn folder_rows_upto(
        self,
        list: Seq<usize>,
        level: usize,
        deep: nat,
        n: nat,
    ) -> Seq<ListRow>
        decreases deep, 0int, n,
    {
        let firsts = self.firsts_upto(list, level as int, list.len());
        if n == 0 || n > firsts.len() || deep == 0 {
            Seq::empty()
        } else {
            let before = self.folder_rows_upto(list, level, deep, (n - 1) as nat);
            let header = ListRow::Folder { of: firsts[n - 1], level };
            if self.row_folded(header) {
                before.push(header)
            } else {
                before.push(header) + self.level_rows(
                    self.in_folder_upto(list, firsts[n - 1], level as int, list.len()),
                    (level + 1) as usize,
                    (deep - 1) as nat,
                )
            }
        }
    }

    fn push_leaves(&self, rows: &mut Vec<ListRow>, list: &Vec<usize>, level: usize)
        requires
            all_below(list@, self.repos@.len()),
            self.all_within(list@, level as int),
            self.rows_ok(old(rows)@),
        ensures
            final(rows)@ == old(rows)@ + self.leaf_rows(list@, level),
            self.rows_ok(final(rows)@),
    {
        if self.is_grouping() {
            self.push_sections(rows, list, level);
        } else {
            self.push_repos(rows, list, level);
        }
    }

    proof fn lemma_within(self, list: Seq<usize>, of: usize, level: int, n: nat)
        requires
            n <= list.len(),
            self.all_within(list, level),
        ensures
            self.all_within(self.direct_upto(list, level, n), level),
            self.all_within(self.in_folder_upto(list, of, level, n), level + 1),
        decreases n,
    {
        if n > 0 {
            self.lemma_within(list, of, level, (n - 1) as nat);
        }
    }

    fn push_level(&self, rows: &mut Vec<ListRow>, list: &Vec<usize>, level: usize, deep: usize)
        requires
            all_below(list@, self.repos@.len()),
            self.all_within(list@, level as int),
            self.rows_ok(old(rows)@),
            level + deep <= usize::MAX,
        ensures
            final(rows)@ == old(rows)@ + self.level_rows(list@, level, deep as nat),
            self.rows_ok(final(rows)@),
        decreases deep,
    {
        if deep == 0 {
            self.push_leaves(rows, list, level);
            return;
        }
        let ghost before = rows@;
        let firsts = self.firsts(list, level);
        let mut i: usize = 0;
        while i < firsts.len()
            invariant
                i <= firsts@.len(),
                0 < deep,
                level + deep <= usize::MAX,
                all_below(list@, self.repos@.len()),
                self.all_within(list@, level as int),
                firsts@ == self.firsts_upto(list@, level as int, list@.len()),
                all_below(firsts@, self.repos@.len()),
                forall|k: int|
                    0 <= k < firsts@.len() ==> folders_of(self.repo_at(#[trigger] firsts@[k]))
                        > level,
                self.rows_ok(rows@),
                rows@ =~= before + self.folder_rows_upto(list@, level, deep as nat, i as nat),
            decreases firsts@.len() - i,
        {
            let ghost so_far = self.folder_rows_upto(list@, level, deep as nat, i as nat);
            let header = ListRow::Folder { of: firsts[i], level };
            assert(self.row_ok(header));
            rows.push(header);
            assert(rows@ =~= before + so_far.push(header));
            if !self.is_row_folded(header) {
                let members = self.members_in_folder(list, firsts[i], level);
                proof {
                    self.lemma_within(list@, firsts@[i as int], level as int, list@.len());
                }
                self.push_level(rows, &members, level + 1, deep - 1);
                assert(rows@ =~= before + (so_far.push(header) + self.level_rows(
                    members@,
                    (level + 1) as usize,
                    (deep - 1) as nat,
                )));
            }
            i += 1;
        }
        let rest = self.direct(list, level);
        proof {
            self.lemma_within(list@, 0, level as int, list@.len());
        }
        self.push_leaves(rows, &rest, level);
    }

    // ---- the list ----

    /// The list is in sections: that is switched on, and there are groups.
    pub open spec fn grouping_active(self) -> bool {
        self.prefs.grouping_enabled && self.outline.groups@.len() > 0
    }

    /// Whether the list is in sections.
    pub fn is_grouping(&self) -> (res: bool)
        ensures
            res == self.grouping_active(),
    {
        self.prefs.grouping_enabled && self.outline.groups.len() > 0
    }

    /// The most folders that one of the first `n` repos lies in.
    pub open spec fn deepest_upto(self, n: nat) -> int
        decreases n,
    {
        if n == 0 || n > self.repos@.len() {
            0
        } else {
            let before = self.deepest_upto((n - 1) as nat);
            let here = folders_of(self.repos@[n - 1]);
            if here > before {
                here
            } else {
                before
            }
        }
    }

    /// The most folders that a repo lies in.
    pub open spec fn deepest(self) -> int {
        self.deepest_upto(self.repos@.len())
    }

    /// The most folders that a repo lies in.
    pub fn deepest_repo(&self) -> (res: usize)
        ensures
            res == self.deepest(),
    {
        let mut most: usize = 0;
        let mut i: usize = 0;
        while i < self.repos.len()
            invariant
                i <= self.repos@.len(),
                most == self.deepest_upto(i as nat),
            decreases self.repos@.len() - i,
        {
            let here: usize = count_folders(&self.repos[i]);
            if here > most {
                most = here;
            }
            i += 1;
        }
        most
    }

    /// The list is a tree: that is switched on, and some repo lies in a folder.
    pub open spec fn tree_active(self) -> bool {
        self.prefs.tree_enabled && self.deepest() > 0
    }

    /// Whether the list is a tree.
    pub fn is_tree(&self) -> (res: bool)
        ensures
            res == self.tree_active(),
    {
        self.prefs.tree_enabled && self.deepest_repo() > 0
    }

    /// The rows of the repos in a view, however many they are.
    pub open spec fn all_lines(self) -> Seq<ListRow> {
        if self.tree_active() {
            self.level_rows(self.visible(), 0, self.deepest() as nat)
        } else {
            self.leaf_rows(self.visible(), 0)
        }
    }

    /// The rows of the list above the Result. Where there are more than can be counted, the list
    /// is flat.
    pub open spec fn lines(self) -> Seq<ListRow> {
        if self.all_lines().len() + 4 <= usize::MAX {
            self.all_lines()
        } else {
            Self::repo_rows_upto(self.visible(), 0, self.visible().len())
        }
    }

    /// The rows of the list above the Result.
    pub fn visible_rows(&self) -> (res: Vec<ListRow>)
        requires
            self.wf(),
        ensures
            res@ == self.lines(),
            res@.len() + 4 <= usize::MAX,
            self.rows_ok(res@),
    {
        let list = self.visible_indices();
        let mut rows: Vec<ListRow> = Vec::new();
        proof {
            assert forall|k: int| 0 <= k < list@.len() implies folders_of(
                self.repo_at(#[trigger] list@[k]),
            ) >= 0 by {
                lemma_steps(self.repo_at(list@[k]).name@);
            }
        }
        if self.is_tree() {
            let deep: usize = self.deepest_repo();
            self.push_level(&mut rows, &list, 0, deep);
        } else {
            self.push_leaves(&mut rows, &list, 0);
        }
        assert(rows@ =~= self.all_lines());
        if rows.len() <= usize::MAX - 4 {
            return rows;
        }
        let mut flat: Vec<ListRow> = Vec::new();
        self.push_repos(&mut flat, &list, 0);
        assert(flat@ =~= Self::repo_rows_upto(self.visible(), 0, self.visible().len()));
        proof {
            Self::lemma_repo_rows(self.visible(), 0, self.visible().len());
        }
        flat
    }

    pub(crate) proof fn lemma_repo_rows(list: Seq<usize>, depth: usize, n: nat)
        requires
            n <= list.len(),
        ensures
            Self::repo_rows_upto(list, depth, n).len() == n,
            forall|k: int|
                0 <= k < n ==> #[trigger] Self::repo_rows_upto(list, depth, n)[k] == (
                ListRow::Repo { idx: list[k], depth }),
        decreases n,
    {
        if n > 0 {
            Self::lemma_repo_rows(list, depth, (n - 1) as nat);
        }
    }
}

// ---- the same list ----

/// Two states show the same list: their repos, filters, sorting, groups and folds agree.
pub open spec fn same_list(a: AppState, b: AppState) -> bool {
    &&& a.repos == b.repos
    &&& a.filter == b.filter
    &&& a.status_filter == b.status_filter
    &&& a.prefs == b.prefs
    &&& a.outline == b.outline
    &&& a.progress.worktrees == b.progress.worktrees
}

proof fn lemma_picks_same(a: AppState, b: AppState, list: Seq<usize>, of: usize, k: int, n: nat)
    requires
        same_list(a, b),
    ensures
        a.in_group_upto(list, k, n) == b.in_group_upto(list, k, n),
        a.in_folder_upto(list, of, k, n) == b.in_folder_upto(list, of, k, n),
        a.firsts_upto(list, k, n) == b.firsts_upto(list, k, n),
        a.direct_upto(list, k, n) == b.direct_upto(list, k, n),
    decreases n,
{
    if n > 0 && n <= list.len() {
        lemma_picks_same(a, b, list, of, k, (n - 1) as nat);
        let firsts = a.firsts_upto(list, k, (n - 1) as nat);
        assert(a.in_some_folder(list[n - 1], firsts, k) == b.in_some_folder(
            list[n - 1],
            firsts,
            k,
        )) by {
            assert forall|j: int| 0 <= j < firsts.len() implies a.in_folder(
                list[n - 1],
                #[trigger] firsts[j],
                k,
            ) == b.in_folder(list[n - 1], firsts[j], k) by {}
        }
    }
}

proof fn lemma_sections_same(a: AppState, b: AppState, list: Seq<usize>, within: usize, n: nat)
    requires
        same_list(a, b),
    ensures
        a.sections_upto(list, within, n) == b.sections_upto(list, within, n),
    decreases n,
{
    if n > 0 {
        lemma_sections_same(a, b, list, within, (n - 1) as nat);
        lemma_picks_same(a, b, list, 0, n - 1, list.len());
    }
}

proof fn lemma_leaves_same(a: AppState, b: AppState, list: Seq<usize>, level: usize)
    requires
        same_list(a, b),
    ensures
        a.leaf_rows(list, level) == b.leaf_rows(list, level),
{
    lemma_sections_same(a, b, list, level, a.outline.groups@.len() + 1);
}

proof fn lemma_level_same(a: AppState, b: AppState, list: Seq<usize>, level: usize, deep: nat)
    requires
        same_list(a, b),
    ensures
        a.level_rows(list, level, deep) == b.level_rows(list, level, deep),
    decreases deep, 1int, 0int,
{
    lemma_leaves_same(a, b, list, level);
    if deep > 0 {
        lemma_picks_same(a, b, list, 0, level as int, list.len());
        let n = a.firsts_upto(list, level as int, list.len()).len();
        lemma_folders_same(a, b, list, level, deep, n);
        lemma_leaves_same(a, b, a.direct_upto(list, level as int, list.len()), level);
    }
}

proof fn lemma_folders_same(
    a: AppState,
    b: AppState,
    list: Seq<usize>,
    level: usize,
    deep: nat,
    n: nat,
)
    requires
        same_list(a, b),
    ensures
        a.folder_rows_upto(list, level, deep, n) == b.folder_rows_upto(list, level, deep, n),
    decreases deep, 0int, n,
{
    lemma_picks_same(a, b, list, 0, level as int, list.len());
    let firsts = a.firsts_upto(list, level as int, list.len());
    if 0 < n <= firsts.len() && deep > 0 {
        lemma_folders_same(a, b, list, level, deep, (n - 1) as nat);
        lemma_picks_same(a, b, list, firsts[n - 1], level as int, list.len());
        lemma_level_same(
            a,
            b,
            a.in_folder_upto(list, firsts[n - 1], level as int, list.len()),
            (level + 1) as usize,
            (deep - 1) as nat,
        );
    }
}

proof fn lemma_deepest_same(a: AppState, b: AppState, n: nat)
    requires
        same_list(a, b),
    ensures
        a.deepest_upto(n) == b.deepest_upto(n),
    decreases n,
{
    if n > 0 && n <= a.repos@.len() {
        lemma_deepest_same(a, b, (n - 1) as nat);
    }
}

/// The rows of the list depend only on the repos, the filters, the preferences, the groups and
/// the folds.
pub(crate) proof fn lemma_lines_same(a: AppState, b: AppState)
    requires
        same_list(a, b),
    ensures
        a.visible() == b.visible(),
        a.lines() == b.lines(),
{
    crate::app::lemma_visible_same(a, b, a.repos@.len());
    crate::order::lemma_arranged_same(a, b, a.visible_upto(a.repos@.len()));
    lemma_deepest_same(a, b, a.repos@.len());
    lemma_level_same(a, b, a.visible(), 0, a.deepest() as nat);
    lemma_leaves_same(a, b, a.visible(), 0);
}

// ---- stopping at rows ----

/// The first row from `from` on at which navigation stops. Behind the rows come the Result and the
/// Errors, at which it always does.
pub open spec fn stop_from(rows: Seq<ListRow>, from: int) -> int
    decreases rows.len() - from,
{
    if from < 0 || from >= rows.len() || rows[from].selectable() {
        from
    } else {
        stop_from(rows, from + 1)
    }
}

/// The last row up to `upto` at which navigation stops.
pub open spec fn stop_upto(rows: Seq<ListRow>, upto: int) -> Option<int>
    decreases upto + 1,
{
    if upto < 0 {
        None
    } else if upto >= rows.len() || rows[upto].selectable() {
        Some(upto)
    } else {
        stop_upto(rows, upto - 1)
    }
}

pub(crate) fn next_stop(rows: &Vec<ListRow>, from: usize) -> (res: usize)
    ensures
        res == stop_from(rows@, from as int),
        from <= res,
        from <= rows@.len() ==> res <= rows@.len(),
        from > rows@.len() ==> res == from,
{
    let mut i: usize = from;
    while i < rows.len() && !rows[i].is_selectable()
        invariant
            from <= i,
            from <= rows@.len() ==> i <= rows@.len(),
            from > rows@.len() ==> i == from,
            stop_from(rows@, from as int) == stop_from(rows@, i as int),
        decreases rows@.len() - i,
    {
        i += 1;
    }
    i
}

pub(crate) fn last_stop(rows: &Vec<ListRow>, upto: usize) -> (res: Option<usize>)
    ensures
        match res {
            Some(r) => stop_upto(rows@, upto as int) == Some(r as int) && r <= upto,
            None => stop_upto(rows@, upto as int) is None,
        },
{
    let mut i: usize = upto;
    while i < rows.len() && !rows[i].is_selectable()
        invariant
            i <= upto,
            stop_upto(rows@, upto as int) == stop_upto(rows@, i as int),
        decreases i,
    {
        if i == 0 {
            assert(stop_upto(rows@, -1) is None);
            return None;
        }
        i -= 1;
    }
    Some(i)
}

pub(crate) proof fn lemma_stops(rows: Seq<ListRow>, r: int, to: int)
    requires
        0 <= r <= to,
        to >= rows.len() || rows[to].selectable(),
    ensures
        r <= stop_from(rows, r) <= to,
        stop_from(rows, r) >= rows.len() || rows[stop_from(rows, r)].selectable(),
    decreases rows.len() - r,
{
    if r < rows.len() && !rows[r].selectable() {
        lemma_stops(rows, r + 1, to);
    }
}

pub(crate) proof fn lemma_last_stop(rows: Seq<ListRow>, r: int)
    ensures
        stop_upto(rows, r) matches Some(k) ==> 0 <= k <= r && (k >= rows.len()
            || rows[k].selectable()),
    decreases r + 1,
{
    if r >= 0 && r < rows.len() && !rows[r].selectable() {
        lemma_last_stop(rows, r - 1);
    }
}

// ---- what the sections hold ----

impl AppState {
    proof fn lemma_lists(self, list: Seq<usize>, group: int, of: usize, level: int, n: nat)
        requires
            n <= list.len(),
        ensures
            self.in_group_upto(list, group, n) =~= list.take(n as int).filter(
                |idx: usize| self.group_at(idx) == group,
            ),
            self.in_folder_upto(list, of, level, n) =~= list.take(n as int).filter(
                |idx: usize| self.in_folder(idx, of, level),
            ),
            self.direct_upto(list, level, n) =~= list.take(n as int).filter(
                |idx: usize| folders_of(self.repo_at(idx)) <= level,
            ),
        decreases n,
    {
        reveal(Seq::filter);
        if n > 0 {
            self.lemma_lists(list, group, of, level, (n - 1) as nat);
            assert(list.take(n as int).drop_last() =~= list.take(n - 1));
            assert(list.take(n as int).last() == list[n - 1]);
        } else {
            assert(list.take(0) =~= Seq::empty());
        }
    }

    /// A section holds the repos of its group, a folder those below it, and what lies in no
    /// deeper folder stands on its own; each in the order of the list.
    pub proof fn law_sections_hold_their_repos(
        self,
        list: Seq<usize>,
        group: int,
        of: usize,
        level: int,
    )
        ensures
            self.in_group_upto(list, group, list.len()) == list.filter(
                |idx: usize| self.group_at(idx) == group,
            ),
            self.in_folder_upto(list, of, level, list.len()) == list.filter(
                |idx: usize| self.in_folder(idx, of, level),
            ),
            self.direct_upto(list, level, list.len()) == list.filter(
                |idx: usize| folders_of(self.repo_at(idx)) <= level,
            ),
    {
        self.lemma_lists(list, group, of, level, list.len());
        assert(list.take(list.len() as int) =~= list);
    }

    proof fn lemma_rows_of_repos(list: Seq<usize>, depth: usize, n: nat)
        requires
            n <= list.len(),
        ensures
            Self::repo_rows_upto(list, depth, n) =~= list.take(n as int).map_values(
                |idx: usize| ListRow::Repo { idx, depth },
            ),
        decreases n,
    {
        if n > 0 {
            Self::lemma_rows_of_repos(list, depth, (n - 1) as nat);
            assert(list.take(n as int) =~= list.take(n - 1).push(list[n - 1]));
        }
    }

    /// A section is its header and, unless it is folded, a row for each of its repos. It can be
    /// folded only where it has more repos than the threshold.
    pub proof fn law_rows_of_a_section(self, members: Seq<usize>, group: int, within: usize)
        requires
            members.len() > 0,
        ensures
            self.section(members, group, within)[0] == self.section_header(members, group, within),
            self.section_header(members, group, within).selectable() <==> members.len()
                > self.outline.threshold,
            !self.row_folded(self.section_header(members, group, within)) ==> self.section(
                members,
                group,
                within,
            ).skip(1) == members.map_values(|idx: usize| ListRow::Repo { idx, depth: within }),
            self.row_folded(self.section_header(members, group, within)) ==> self.section(
                members,
                group,
                within,
            ).len() == 1,
            members.len() <= self.outline.threshold ==> !self.row_folded(
                self.section_header(members, group, within),
            ),
    {
        Self::lemma_rows_of_repos(members, within, members.len());
        assert(members.take(members.len() as int) =~= members);
        let header = self.section_header(members, group, within);
        if !self.row_folded(header) {
            assert(self.section(members, group, within).skip(1) =~= Self::repo_rows_upto(
                members,
                within,
                members.len(),
            ));
        }
    }

    /// Groups are shown only where there are some, and the tree only where some repo lies in a
    /// folder.
    pub proof fn law_when_the_list_has_sections(self, k: int)
        requires
            0 <= k < self.repos@.len(),
        ensures
            self.grouping_active() <==> self.prefs.grouping_enabled && self.outline.groups@.len()
                > 0,
            self.tree_active() ==> self.prefs.tree_enabled,
            self.prefs.tree_enabled && folders_of(self.repos@[k]) > 0 ==> self.tree_active(),
            folders_of(self.repos@[k]) <= self.deepest(),
    {
        self.lemma_at_most_deepest(k, self.repos@.len());
    }

    proof fn lemma_at_most_deepest(self, k: int, n: nat)
        requires
            0 <= k < n <= self.repos@.len(),
        ensures
            folders_of(self.repos@[k]) <= self.deepest_upto(n),
        decreases n,
    {
        if k < n - 1 {
            self.lemma_at_most_deepest(k, (n - 1) as nat);
        }
    }

    /// What a header is folded by: a folder by its path, a group by its name and by the folder
    /// that it stands in.
    pub proof fn law_keys_of_headers(self, of: usize, level: usize, group: usize, within: usize)
        ensures
            self.row_key(ListRow::Folder { of, level }) == Some(
                joined(steps(self.repo_at(of).name@).take(level + 1), "/"@) + "/"@,
            ),
            self.row_key(ListRow::Group { of, group, within: 0, collapsible: true }) == Some(
                ":"@ + self.group_name(group as int),
            ),
            within > 0 ==> self.row_key(
                ListRow::Group { of, group, within, collapsible: true },
            ) == Some(
                joined(steps(self.repo_at(of).name@).take(within as int), "/"@) + "/:"@
                    + self.group_name(group as int),
            ),
            self.row_key(ListRow::Group { of, group, within, collapsible: false }) is None,
            self.row_key(ListRow::Repo { idx: of, depth: level }) is None,
            group < self.outline.groups@.len() ==> self.group_name(group as int)
                == self.outline.groups@[group as int].name@,
            group >= self.outline.groups@.len() ==> self.group_name(group as int) == "ungrouped"@,
    {
    }
}

/// The selection stops at the first row from a place on that can be selected, or behind the list;
/// going back it stops at the last.
pub proof fn law_where_the_selection_stops(rows: Seq<ListRow>, from: int)
    requires
        0 <= from < rows.len(),
    ensures
        from <= stop_from(rows, from) <= rows.len(),
        stop_from(rows, from) < rows.len() ==> rows[stop_from(rows, from)].selectable(),
        forall|j: int|
            from <= j < stop_from(rows, from) ==> !(#[trigger] rows[j]).selectable(),
        match stop_upto(rows, from) {
            Some(k) => 0 <= k <= from && rows[k].selectable() && forall|j: int|
                k < j <= from ==> !(#[trigger] rows[j]).selectable(),
            None => forall|j: int| 0 <= j <= from ==> !(#[trigger] rows[j]).selectable(),
        },
{
    lemma_stops_from(rows, from);
    lemma_stops_upto(rows, from);
}

proof fn lemma_stops_from(rows: Seq<ListRow>, from: int)
    requires
        0 <= from <= rows.len(),
    ensures
        from <= stop_from(rows, from) <= rows.len(),
        stop_from(rows, from) < rows.len() ==> rows[stop_from(rows, from)].selectable(),
        forall|j: int| from <= j < stop_from(rows, from) ==> !(#[trigger] rows[j]).selectable(),
    decreases rows.len() - from,
{
    if from < rows.len() && !rows[from].selectable() {
        lemma_stops_from(rows, from + 1);
    }
}

proof fn lemma_stops_upto(rows: Seq<ListRow>, upto: int)
    requires
        -1 <= upto < rows.len(),
    ensures
        match stop_upto(rows, upto) {
            Some(k) => 0 <= k <= upto && rows[k].selectable() && forall|j: int|
                k < j <= upto ==> !(#[trigger] rows[j]).selectable(),
            None => forall|j: int| 0 <= j <= upto ==> !(#[trigger] rows[j]).selectable(),
        },
    decreases upto + 1,
{
    if upto >= 0 && !rows[upto].selectable() {
        lemma_stops_upto(rows, upto - 1);
    }
}

/// Every row can be selected but a blank one and the header of a group that is never folded.
pub proof fn law_what_can_be_selected(row: ListRow)
    ensures
        row is Repo || row is Folder ==> row.selectable(),
        row is Spacer ==> !row.selectable(),
        row matches ListRow::Group { collapsible, .. } ==> row.selectable() == collapsible,
{
}

} // verus!
