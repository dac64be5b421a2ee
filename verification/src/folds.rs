//! Folding: what the headers of the list hide, and the keys and clicks that change it.

use vstd::prelude::*;

use crate::app::AppState;
use crate::groups::{Group, Outline};
use crate::modals::{listed_at, toggle_text};
use crate::rows::{
    count_folders, folders_of, next_stop, same_folders, share_folders, stop_from, ListRow,
};
use crate::text::{cat, same, starts, starts_with};

verus! {

// ---- what is folded ----

/// The state with other folds.
pub open spec fn refolded(before: AppState, folded: Seq<Seq<char>>, after: AppState) -> bool {
    &&& after.outline.folded.deep_view() == folded
    &&& after == (AppState {
        outline: Outline { folded: after.outline.folded, ..before.outline },
        ..before
    })
}

/// The folds after a key is folded, or unfolded where it was folded.
pub open spec fn flipped(app: AppState, key: Seq<char>) -> Seq<Seq<char>> {
    match listed_at(app.outline.folded@, key, 0) {
        Some(i) => app.outline.folded.deep_view().remove(i),
        None => app.outline.folded.deep_view().push(key),
    }
}

proof fn lemma_listed(texts: Seq<String>, text: Seq<char>, from: int)
    requires
        0 <= from,
    ensures
        listed_at(texts, text, from) matches Some(i) ==> 0 <= i < texts.len() && texts[i]@ == text,
    decreases texts.len() - from,
{
    if from < texts.len() && texts[from]@ != text {
        lemma_listed(texts, text, from + 1);
    }
}

/// The folds of the first `n` that a header does not cover: those of other keys, and with
/// `below` only those that do not start with its key.
pub open spec fn uncovered_upto(folded: Seq<String>, key: Seq<char>, below: bool, n: nat) -> Seq<
    Seq<char>,
>
    decreases n,
{
    if n == 0 || n > folded.len() {
        Seq::empty()
    } else if folded[n - 1]@ == key || (below && starts(folded[n - 1]@, key)) {
        uncovered_upto(folded, key, below, (n - 1) as nat)
    } else {
        uncovered_upto(folded, key, below, (n - 1) as nat).push(folded[n - 1]@)
    }
}

impl AppState {
    fn flip_fold(&mut self, key: String)
        requires
            old(self).wf(),
        ensures
            final(self).wf(),
            refolded(*old(self), flipped(*old(self), key@), *final(self)),
    {
        let ghost before = self.outline.folded;
        let ghost wanted = key@;
        proof {
            lemma_listed(before@, wanted, 0);
        }
        toggle_text(&mut self.outline.folded, key);
        assert(self.outline.folded.deep_view() =~= flipped(*old(self), wanted));
    }

    fn uncover(&mut self, key: &str, below: bool)
        requires
            old(self).wf(),
        ensures
            final(self).wf(),
            refolded(
                *old(self),
                uncovered_upto(
                    old(self).outline.folded@,
                    key@,
                    below,
                    old(self).outline.folded@.len(),
                ),
                *final(self),
            ),
    {
        let ghost before = self.outline.folded@;
        let mut kept: Vec<String> = Vec::new();
        let mut i: usize = 0;
        assert(kept.deep_view() =~= Seq::<Seq<char>>::empty());
        while i < self.outline.folded.len()
            invariant
                *self == *old(self),
                before == self.outline.folded@,
                i <= before.len(),
                kept.deep_view() == uncovered_upto(before, key@, below, i as nat),
            decreases before.len() - i,
        {
            let ghost so_far = kept.deep_view();
            let text = self.outline.folded[i].clone();
            if !same(text.as_str(), key) && !(below && starts_with(text.as_str(), key)) {
                kept.push(text);
                assert(kept.deep_view() =~= so_far.push(before[i as int]@));
            }
            i += 1;
        }
        self.outline.folded = kept;
    }

    // ---- the selected row ----

    /// The row of the list that is selected: nothing for the Result and the Errors.
    pub open spec fn picked(self) -> Option<ListRow> {
        if self.selected < self.lines().len() {
            Some(self.lines()[self.selected as int])
        } else {
            None
        }
    }

    /// The row of the list that is selected.
    pub fn selected_row(&self) -> (res: Option<ListRow>)
        requires
            self.wf(),
        ensures
            res == self.picked(),
            res matches Some(row) ==> self.row_ok(row),
    {
        let rows = self.visible_rows();
        if self.selected < rows.len() {
            assert(self.row_ok(rows@[self.selected as int]));
            Some(rows[self.selected])
        } else {
            None
        }
    }

    /// The key of the selected row: nothing where it cannot be folded.
    pub open spec fn picked_key(self) -> Option<Seq<char>> {
        match self.picked() {
            Some(row) => self.row_key(row),
            None => None,
        }
    }

    /// The key of the selected row.
    pub fn selected_key(&self) -> (res: Option<String>)
        requires
            self.wf(),
        ensures
            res.deep_view() == self.picked_key(),
    {
        match self.selected_row() {
            Some(row) => self.key_of_row(row),
            None => None,
        }
    }

    /// Folds or unfolds the selected header; says whether there was one.
    pub fn toggle_selected_header(&mut self) -> (res: bool)
        requires
            old(self).wf(),
        ensures
            final(self).wf(),
            res == old(self).picked_key() is Some,
            header_toggled(*old(self), *final(self)),
    {
        match self.selected_key() {
            Some(key) => {
                self.flip_fold(key);
                true
            },
            None => false,
        }
    }

    /// A header stands for what holds a row: its folder, or its group in the same folder.
    pub open spec fn encloses(self, head: ListRow, row: ListRow) -> bool {
        match head {
            ListRow::Folder { of, level } => match row {
                ListRow::Repo { idx, .. } => self.in_folder(idx, of, level as int),
                ListRow::Folder { of: other, level: deeper } => level < deeper && self.in_folder(
                    other,
                    of,
                    level as int,
                ),
                ListRow::Group { of: other, within, .. } => level < within && self.in_folder(
                    other,
                    of,
                    level as int,
                ),
                ListRow::Spacer => false,
            },
            ListRow::Group { of, group, within, collapsible } => match row {
                ListRow::Repo { idx, .. } => {
                    &&& collapsible
                    &&& self.group_at(idx) == group
                    &&& folders_of(self.repo_at(idx)) >= within
                    &&& same_folders(self.repo_at(idx), self.repo_at(of), within as int)
                },
                _ => false,
            },
            _ => false,
        }
    }

    fn lies_in(&self, idx: usize, of: usize, level: usize) -> (res: bool)
        requires
            idx < self.repos@.len(),
            of < self.repos@.len(),
            level < folders_of(self.repo_at(of)),
        ensures
            res == self.in_folder(idx, of, level as int),
    {
        let own: usize = count_folders(&self.repos[idx]);
        own > level && share_folders(&self.repos[idx], &self.repos[of], level + 1)
    }

    fn is_enclosing(&self, head: ListRow, row: ListRow) -> (res: bool)
        requires
            self.row_ok(head),
            self.row_ok(row),
        ensures
            res == self.encloses(head, row),
    {
        match head {
            ListRow::Folder { of, level } => match row {
                ListRow::Repo { idx, .. } => self.lies_in(idx, of, level),
                ListRow::Folder { of: other, level: deeper } => level < deeper && self.lies_in(
                    other,
                    of,
                    level,
                ),
                ListRow::Group { of: other, within, .. } => level < within && self.lies_in(
                    other,
                    of,
                    level,
                ),
                ListRow::Spacer => false,
            },
            ListRow::Group { of, group, within, collapsible } => match row {
                ListRow::Repo { idx, .. } => {
                    let own: usize = count_folders(&self.repos[idx]);
                    collapsible && crate::groups::group_of(
                        &self.outline.groups,
                        self.repos[idx].name.as_str(),
                    ) == group && own >= within && share_folders(
                        &self.repos[idx],
                        &self.repos[of],
                        within,
                    )
                },
                _ => false,
            },
            _ => false,
        }
    }

    /// The nearest of the first `n` rows that encloses a row.
    pub open spec fn head_above(self, rows: Seq<ListRow>, row: ListRow, n: int) -> Option<int>
        decreases n,
    {
        if n <= 0 || n > rows.len() {
            None
        } else if self.encloses(rows[n - 1], row) {
            Some(n - 1)
        } else {
            self.head_above(rows, row, n - 1)
        }
    }

    fn find_head(&self, rows: &Vec<ListRow>, row: ListRow, n: usize) -> (res: Option<usize>)
        requires
            self.rows_ok(rows@),
            self.row_ok(row),
            n <= rows@.len(),
        ensures
            match res {
                Some(r) => self.head_above(rows@, row, n as int) == Some(r as int),
                None => self.head_above(rows@, row, n as int) is None,
            },
    {
        let mut i: usize = n;
        while i > 0
            invariant
                i <= n,
                n <= rows@.len(),
                self.rows_ok(rows@),
                self.row_ok(row),
                self.head_above(rows@, row, n as int) == self.head_above(rows@, row, i as int),
            decreases i,
        {
            let head = rows[i - 1];
            assert(self.row_ok(rows@[i - 1]));
            if self.is_enclosing(head, row) {
                return Some(i - 1);
            }
            i -= 1;
        }
        None
    }

    /// Folds the selected header; where that is folded or no header, selects the one that
    /// encloses it. Says whether something was folded.
    pub fn nav_left(&mut self) -> (res: bool)
        requires
            old(self).wf(),
        ensures
            final(self).wf(),
            went_left(*old(self), *final(self)),
            res == old(self).folds_left(),
    {
        let rows = self.visible_rows();
        let at: usize = self.selected;
        if at >= rows.len() {
            return false;
        }
        let row = rows[at];
        assert(self.row_ok(rows@[at as int]));
        match self.key_of_row(row) {
            Some(key) => {
                if !self.is_folded(key.as_str()) {
                    self.flip_fold(key);
                    return true;
                }
            },
            None => {},
        }
        match self.find_head(&rows, row, at) {
            Some(head) => self.go_to(head),
            None => {},
        }
        false
    }

    /// Left folds the selected header.
    pub open spec fn folds_left(self) -> bool {
        self.picked_key() matches Some(key) && !self.folds(key)
    }

    /// Right unfolds the selected header.
    pub open spec fn unfolds_right(self) -> bool {
        self.picked_key() matches Some(key) && self.folds(key)
    }

    /// Unfolds the selected header where it is folded; says whether it was.
    pub fn nav_right(&mut self) -> (res: bool)
        requires
            old(self).wf(),
        ensures
            final(self).wf(),
            res == old(self).unfolds_right(),
            went_right(*old(self), *final(self)),
    {
        match self.selected_key() {
            Some(key) => {
                if self.is_folded(key.as_str()) {
                    self.flip_fold(key);
                    return true;
                }
            },
            None => {},
        }
        false
    }

    // ---- folding all ----

    /// The state with the first row selected at which navigation stops.
    pub open spec fn topped(self) -> AppState {
        AppState { selected: stop_from(self.lines(), 0) as usize, ..self }
    }

    pub(crate) fn go_top(&mut self)
        requires
            old(self).wf(),
        ensures
            final(self).wf(),
            *final(self) == old(self).topped(),
    {
        let row: usize = next_stop(&self.visible_rows(), 0);
        self.selected = row;
    }

    /// The keys of the first `n` rows.
    pub open spec fn keys_upto(self, rows: Seq<ListRow>, n: nat) -> Seq<Seq<char>>
        decreases n,
    {
        if n == 0 || n > rows.len() {
            Seq::empty()
        } else {
            match self.row_key(rows[n - 1]) {
                Some(key) => self.keys_upto(rows, (n - 1) as nat).push(key),
                None => self.keys_upto(rows, (n - 1) as nat),
            }
        }
    }

    /// Unfolds everything, and selects the first row.
    pub fn expand_all(&mut self)
        requires
            old(self).wf(),
        ensures
            final(self).wf(),
            expanded_all(*old(self), *final(self)),
    {
        let ghost before = *self;
        self.outline.folded = Vec::new();
        assert(self.outline.folded.deep_view() =~= Seq::<Seq<char>>::empty());
        assert(refolded(before, Seq::empty(), *self));
        self.go_top();
    }

    /// Folds every header that there is with nothing folded, and selects the first row.
    pub fn collapse_all(&mut self)
        requires
            old(self).wf(),
        ensures
            final(self).wf(),
            collapsed_all(*old(self), *final(self)),
    {
        let ghost before = *self;
        self.outline.folded = Vec::new();
        assert(self.outline.folded.deep_view() =~= Seq::<Seq<char>>::empty());
        let ghost open = *self;
        assert(refolded(before, Seq::empty(), open));
        let rows = self.visible_rows();
        let mut keys: Vec<String> = Vec::new();
        let mut i: usize = 0;
        assert(keys.deep_view() =~= Seq::<Seq<char>>::empty());
        while i < rows.len()
            invariant
                *self == open,
                i <= rows@.len(),
                self.rows_ok(rows@),
                keys.deep_view() == open.keys_upto(rows@, i as nat),
            decreases rows@.len() - i,
        {
            let ghost so_far = keys.deep_view();
            assert(self.row_ok(rows@[i as int]));
            match self.key_of_row(rows[i]) {
                Some(key) => {
                    keys.push(key);
                    assert(keys.deep_view() =~= so_far.push(key@));
                },
                None => {},
            }
            i += 1;
        }
        self.outline.folded = keys;
        let ghost closed = *self;
        assert(refolded(before, open.keys_upto(open.lines(), open.lines().len()), closed));
        self.go_top();
    }

    /// Unfolds the selected header, and in a folder all that lies below it.
    pub fn expand_subtree(&mut self)
        requires
            old(self).wf(),
        ensures
            final(self).wf(),
            expanded_subtree(*old(self), *final(self)),
    {
        match self.selected_row() {
            Some(row) => {
                let below = match row {
                    ListRow::Folder { .. } => true,
                    _ => false,
                };
                match self.key_of_row(row) {
                    Some(key) => self.uncover(key.as_str(), below),
                    None => {},
                }
            },
            None => {},
        }
    }

    /// Folds or unfolds a group of the whole list.
    pub fn toggle_group_collapsed(&mut self, group: usize)
        requires
            old(self).wf(),
        ensures
            final(self).wf(),
            refolded(
                *old(self),
                flipped(*old(self), ":"@ + old(self).group_name(group as int)),
                *final(self),
            ),
    {
        let key = cat(":", self.name_of_group(group));
        self.flip_fold(key);
    }

    // ---- looking up members ----

    /// A group has members that have to be looked up.
    pub open spec fn some_dynamic(self) -> bool {
        exists|k: int|
            0 <= k < self.outline.groups@.len() && (#[trigger] self.outline.groups@[k]).source.looked_up()
    }

    /// Whether a group has members that have to be looked up.
    pub fn any_dynamic_groups(&self) -> (res: bool)
        ensures
            res == self.some_dynamic(),
    {
        let mut i: usize = 0;
        while i < self.outline.groups.len()
            invariant
                i <= self.outline.groups@.len(),
                forall|k: int|
                    0 <= k < i ==> !(#[trigger] self.outline.groups@[k]).source.looked_up(),
            decreases self.outline.groups@.len() - i,
        {
            if self.outline.groups[i].source.is_dynamic() {
                assert(self.outline.groups@[i as int].source.looked_up());
                return true;
            }
            i += 1;
        }
        false
    }

    /// Marks the groups whose members are looked up again.
    pub fn start_resolving(&mut self)
        requires
            old(self).wf(),
        ensures
            final(self).wf(),
            resolving_started(*old(self), *final(self)),
    {
        let ghost before = self.outline.groups@;
        let ghost folded = self.outline.folded;
        let ghost threshold = self.outline.threshold;
        let mut i: usize = 0;
        while i < self.outline.groups.len()
            invariant
                i <= before.len(),
                before == old(self).outline.groups@,
                self.outline.groups@.len() == before.len(),
                *self == (AppState {
                    outline: Outline { groups: self.outline.groups, ..old(self).outline },
                    ..*old(self)
                }),
                forall|k: int|
                    0 <= k < i ==> #[trigger] self.outline.groups@[k] == now_resolving(before[k]),
                forall|k: int|
                    i <= k < before.len() ==> #[trigger] self.outline.groups@[k] == before[k],
            decreases before.len() - i,
        {
            if self.outline.groups[i].source.is_dynamic() {
                self.outline.groups[i].resolving = true;
            }
            i += 1;
        }
    }

    /// The members of a group were looked up.
    pub fn group_resolved(&mut self, group: usize, members: Vec<String>)
        requires
            old(self).wf(),
            group < old(self).outline.groups@.len(),
        ensures
            final(self).wf(),
            with_group(
                *old(self),
                group as int,
                (Group {
                    members: Some(members),
                    resolved_minutes: Some(0),
                    resolving: false,
                    error: None,
                    ..old(self).outline.groups@[group as int]
                }),
                *final(self),
            ),
    {
        let ghost before = self.outline.groups@;
        self.outline.groups[group].members = Some(members);
        self.outline.groups[group].resolved_minutes = Some(0);
        self.outline.groups[group].resolving = false;
        self.outline.groups[group].error = None;
        assert(self.outline.groups@ =~= before.update(
            group as int,
            Group {
                members: Some(members),
                resolved_minutes: Some(0),
                resolving: false,
                error: None,
                ..before[group as int]
            },
        ));
    }

    /// The members of a group could not be looked up; those that there were are kept.
    pub fn group_failed(&mut self, group: usize, error: String)
        requires
            old(self).wf(),
            group < old(self).outline.groups@.len(),
        ensures
            final(self).wf(),
            with_group(
                *old(self),
                group as int,
                (Group {
                    resolving: false,
                    error: Some(error),
                    ..old(self).outline.groups@[group as int]
                }),
                *final(self),
            ),
    {
        let ghost before = self.outline.groups@;
        self.outline.groups[group].resolving = false;
        self.outline.groups[group].error = Some(error);
        assert(self.outline.groups@ =~= before.update(
            group as int,
            Group { resolving: false, error: Some(error), ..before[group as int] },
        ));
    }
}

/// What toggling the selected header does.
pub open spec fn header_toggled(before: AppState, after: AppState) -> bool {
    match before.picked_key() {
        Some(key) => refolded(before, flipped(before, key), after),
        None => after == before,
    }
}

/// What going left does.
pub open spec fn went_left(before: AppState, after: AppState) -> bool {
    if before.folds_left() {
        header_toggled(before, after)
    } else {
        match before.picked() {
            Some(row) => match before.head_above(before.lines(), row, before.selected as int) {
                Some(head) => after == before.navigated(head),
                None => after == before,
            },
            None => after == before,
        }
    }
}

/// What going right does.
pub open spec fn went_right(before: AppState, after: AppState) -> bool {
    if before.unfolds_right() {
        header_toggled(before, after)
    } else {
        after == before
    }
}

/// Everything was unfolded.
pub open spec fn expanded_all(before: AppState, after: AppState) -> bool {
    exists|open: AppState|
        #[trigger] refolded(before, Seq::empty(), open) && after == open.topped()
}

/// Every header was folded.
pub open spec fn collapsed_all(before: AppState, after: AppState) -> bool {
    exists|open: AppState, closed: AppState|
        {
            &&& #[trigger] refolded(before, Seq::empty(), open)
            &&& #[trigger] refolded(
                before,
                open.keys_upto(open.lines(), open.lines().len()),
                closed,
            )
            &&& after == closed.topped()
        }
}

/// The selected header was unfolded with what lies below it.
pub open spec fn expanded_subtree(before: AppState, after: AppState) -> bool {
    match before.picked_key() {
        Some(key) => refolded(
            before,
            uncovered_upto(
                before.outline.folded@,
                key,
                before.picked()->0 is Folder,
                before.outline.folded@.len(),
            ),
            after,
        ),
        None => after == before,
    }
}

/// A group whose members are looked up again.
pub open spec fn now_resolving(group: Group) -> Group {
    Group { resolving: group.resolving || group.source.looked_up(), ..group }
}

/// The groups whose members have to be looked up are marked.
pub open spec fn resolving_started(before: AppState, after: AppState) -> bool {
    &&& after.outline.groups@.len() == before.outline.groups@.len()
    &&& forall|k: int|
        0 <= k < before.outline.groups@.len() ==> #[trigger] after.outline.groups@[k]
            == now_resolving(before.outline.groups@[k])
    &&& after == (AppState {
        outline: Outline { groups: after.outline.groups, ..before.outline },
        ..before
    })
}

/// The state with one group replaced.
pub open spec fn with_group(before: AppState, k: int, group: Group, after: AppState) -> bool {
    &&& after.outline.groups@ == before.outline.groups@.update(k, group)
    &&& after == (AppState {
        outline: Outline { groups: after.outline.groups, ..before.outline },
        ..before
    })
}

// ---- laws ----

/// No key is folded twice.
pub open spec fn all_once(folded: Seq<String>) -> bool {
    forall|i: int, j: int|
        0 <= i < j < folded.len() ==> (#[trigger] folded[i])@ != (#[trigger] folded[j])@
}

/// A toggle changes whether its key is folded, and of no other key.
pub proof fn law_toggling_changes_one_key(
    before: AppState,
    key: Seq<char>,
    after: AppState,
    other: Seq<char>,
)
    requires
        refolded(before, flipped(before, key), after),
        all_once(before.outline.folded@),
        other != key,
    ensures
        before.folds(key) == !after.folds(key),
        before.folds(other) == after.folds(other),
{
    lemma_listed(before.outline.folded@, key, 0);
    let a = before.outline.folded;
    let b = after.outline.folded;
    match listed_at(a@, key, 0) {
        Some(i) => {
            lemma_removed(a, b, i, other);
            lemma_shorter(a, b, i);
            lemma_folds(b@, key, 0);
            if after.folds(key) {
                let k = choose|k: int| 0 <= k < b@.len() && (#[trigger] b@[k])@ == key;
                let j = if k < i {
                    k
                } else {
                    k + 1
                };
                assert(b.deep_view()[k] == a.deep_view()[j]);
                assert(a@[j]@ == key);
            }
        },
        None => {
            lemma_folds(b@, key, 0);
            assert(b@.len() == a@.len() + 1) by {
                assert(b.deep_view().len() == b@.len());
                assert(a.deep_view().len() == a@.len());
            }
            assert(b.deep_view()[b@.len() - 1] == key);
            assert(b@[b@.len() - 1]@ == key);
            lemma_folds(a@, other, 0);
            lemma_folds(b@, other, 0);
            if before.folds(other) {
                let k = choose|k: int| 0 <= k < a@.len() && (#[trigger] a@[k])@ == other;
                assert(b.deep_view()[k] == a.deep_view()[k]);
                assert(b@[k]@ == other);
            }
            if after.folds(other) {
                let k = choose|k: int| 0 <= k < b@.len() && (#[trigger] b@[k])@ == other;
                assert(b.deep_view()[k] == other);
                assert(b.deep_view()[k] == a.deep_view()[k]);
                assert(a@[k]@ == other);
            }
        },
    }
}

proof fn lemma_folds(texts: Seq<String>, text: Seq<char>, from: int)
    requires
        0 <= from,
    ensures
        (listed_at(texts, text, from) is Some) == (exists|k: int|
            from <= k < texts.len() && (#[trigger] texts[k])@ == text),
    decreases texts.len() - from,
{
    if from < texts.len() {
        lemma_folds(texts, text, from + 1);
    }
}

proof fn lemma_shorter(a: Vec<String>, b: Vec<String>, i: int)
    requires
        0 <= i < a@.len(),
        b.deep_view() == a.deep_view().remove(i),
    ensures
        b@.len() == a@.len() - 1,
        forall|k: int| 0 <= k < b@.len() ==> b.deep_view()[k] == (#[trigger] b@[k])@,
        forall|k: int| 0 <= k < a@.len() ==> a.deep_view()[k] == (#[trigger] a@[k])@,
{
    assert(a.deep_view().len() == a@.len());
    assert(b.deep_view().len() == b@.len());
}

proof fn lemma_removed(a: Vec<String>, b: Vec<String>, i: int, other: Seq<char>)
    requires
        0 <= i < a@.len(),
        a@[i]@ != other,
        b.deep_view() == a.deep_view().remove(i),
    ensures
        (listed_at(a@, other, 0) is Some) == (listed_at(b@, other, 0) is Some),
{
    lemma_folds(a@, other, 0);
    lemma_folds(b@, other, 0);
    lemma_shorter(a, b, i);
    if listed_at(a@, other, 0) is Some {
        let k = choose|k: int| 0 <= k < a@.len() && (#[trigger] a@[k])@ == other;
        let j = if k < i {
            k
        } else {
            k - 1
        };
        assert(b.deep_view()[j] == a.deep_view()[k]);
        assert(b@[j]@ == other);
    }
    if listed_at(b@, other, 0) is Some {
        let k = choose|k: int| 0 <= k < b@.len() && (#[trigger] b@[k])@ == other;
        let j = if k < i {
            k
        } else {
            k + 1
        };
        assert(b.deep_view()[k] == a.deep_view()[j]);
        assert(a@[j]@ == other);
    }
}

/// Expanding all folds nothing; the selection goes to the top.
pub proof fn law_expanding_all(before: AppState, after: AppState, key: Seq<char>)
    requires
        expanded_all(before, after),
    ensures
        !after.folds(key),
        after.outline.groups == before.outline.groups && after.repos == before.repos,
{
    let open = choose|open: AppState|
        #[trigger] refolded(before, Seq::empty(), open) && after == open.topped();
    assert(open.outline.folded.deep_view().len() == open.outline.folded@.len());
    lemma_folds(after.outline.folded@, key, 0);
}

proof fn lemma_uncovered(folded: Seq<String>, key: Seq<char>, below: bool, n: nat)
    requires
        n <= folded.len(),
    ensures
        uncovered_upto(folded, key, below, n) =~= folded.take(n as int).filter(
            |text: String| !(text@ == key || (below && starts(text@, key))),
        ).map_values(|text: String| text@),
    decreases n,
{
    reveal(Seq::filter);
    if n > 0 {
        lemma_uncovered(folded, key, below, (n - 1) as nat);
        assert(folded.take(n as int).drop_last() =~= folded.take(n - 1));
        assert(folded.take(n as int).last() == folded[n - 1]);
    } else {
        assert(folded.take(0) =~= Seq::empty());
    }
}

/// Expanding a header unfolds it, for a folder with all that lies below it, and leaves all other
/// folds as they are.
pub proof fn law_expanding_a_subtree(before: AppState, after: AppState, key: Seq<char>, below: bool)
    requires
        expanded_subtree(before, after),
        before.picked_key() == Some(key),
        below == (before.picked()->0 is Folder),
    ensures
        after.outline.folded.deep_view() == before.outline.folded@.filter(
            |text: String| !(text@ == key || (below && starts(text@, key))),
        ).map_values(|text: String| text@),
        after.selected == before.selected && after.repos == before.repos,
{
    let folded = before.outline.folded@;
    lemma_uncovered(folded, key, below, folded.len());
    assert(folded.take(folded.len() as int) =~= folded);
}

/// On a header, going left folds it and going right unfolds it; going left on a folded one and
/// going right on an open one changes no fold.
pub proof fn law_left_and_right(before: AppState, key: Seq<char>, mid: AppState, after: AppState)
    requires
        before.picked_key() == Some(key),
        all_once(before.outline.folded@),
    ensures
        before.folds_left() <==> !before.folds(key),
        before.unfolds_right() <==> before.folds(key),
        !before.folds(key) && went_left(before, mid) ==> mid.folds(key),
        before.folds(key) && went_right(before, after) ==> !after.folds(key),
        before.folds(key) && went_left(before, after) ==> after.outline == before.outline,
        !before.folds(key) && went_right(before, after) ==> after == before,
{
    let other = key.push('x');
    assert(other.len() != key.len());
    if went_left(before, mid) && !before.folds(key) {
        law_toggling_changes_one_key(before, key, mid, other);
    }
    if went_right(before, after) && before.folds(key) {
        law_toggling_changes_one_key(before, key, after, other);
    }
    reveal(AppState::navigated);
}

proof fn lemma_head_above(app: AppState, rows: Seq<ListRow>, row: ListRow, n: int)
    requires
        0 <= n <= rows.len(),
    ensures
        match app.head_above(rows, row, n) {
            Some(k) => 0 <= k < n && app.encloses(rows[k], row) && forall|j: int|
                k < j < n ==> !app.encloses(#[trigger] rows[j], row),
            None => forall|j: int| 0 <= j < n ==> !app.encloses(#[trigger] rows[j], row),
        },
    decreases n,
{
    if n > 0 && !app.encloses(rows[n - 1], row) {
        lemma_head_above(app, rows, row, n - 1);
    }
}

/// The header that a row goes back to is the nearest above it that encloses it.
pub proof fn law_nearest_header(app: AppState, rows: Seq<ListRow>, row: ListRow, n: int)
    requires
        0 <= n <= rows.len(),
    ensures
        match app.head_above(rows, row, n) {
            Some(k) => 0 <= k < n && app.encloses(rows[k], row) && forall|j: int|
                k < j < n ==> !app.encloses(#[trigger] rows[j], row),
            None => forall|j: int| 0 <= j < n ==> !app.encloses(#[trigger] rows[j], row),
        },
{
    lemma_head_above(app, rows, row, n);
}

/// Looking up the members starts for the groups that have to be looked up, and changes nothing
/// else of any group.
pub proof fn law_resolving_starts(before: AppState, after: AppState, k: int)
    requires
        resolving_started(before, after),
        0 <= k < before.outline.groups@.len(),
    ensures
        before.outline.groups@[k].source is Command || before.outline.groups@[k].source is Url
            ==> after.outline.groups@[k].resolving,
        before.outline.groups@[k].source is Pattern || before.outline.groups@[k].source is Listed
            ==> after.outline.groups@[k] == before.outline.groups@[k],
        after.outline.groups@[k].members == before.outline.groups@[k].members,
        after.outline.groups@[k].name == before.outline.groups@[k].name,
        after.outline.folded == before.outline.folded,
{
}

} // verus!
