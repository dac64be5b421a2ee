//! What the rows of the list show of the repos.

use vstd::prelude::*;

use crate::app::AppState;
use crate::groups::law_group_of_a_repo;
use crate::rows::{folders_of, same_folders, ListRow};
use crate::screen::most;

verus! {

/// How often a repo stands in a list.
pub open spec fn times(list: Seq<usize>, idx: usize) -> nat
    decreases list.len(),
{
    if list.len() == 0 {
        0
    } else {
        times(list.drop_last(), idx) + if list.last() == idx {
            1nat
        } else {
            0
        }
    }
}

/// How many rows show a repo.
pub open spec fn row_times(rows: Seq<ListRow>, idx: usize) -> nat
    decreases rows.len(),
{
    if rows.len() == 0 {
        0
    } else {
        row_times(rows.drop_last(), idx) + match rows.last() {
            ListRow::Repo { idx: shown, .. } => if shown == idx {
                1nat
            } else {
                0
            },
            _ => 0,
        }
    }
}

/// Nothing is folded.
pub open spec fn all_open(app: AppState) -> bool {
    app.outline.folded@.len() == 0
}

proof fn lemma_rows_joined(a: Seq<ListRow>, b: Seq<ListRow>, idx: usize)
    ensures
        row_times(a + b, idx) == row_times(a, idx) + row_times(b, idx),
    decreases b.len(),
{
    if b.len() == 0 {
        assert(a + b =~= a);
    } else {
        assert((a + b).drop_last() =~= a + b.drop_last());
        lemma_rows_joined(a, b.drop_last(), idx);
    }
}

proof fn lemma_row_pushed(rows: Seq<ListRow>, row: ListRow, idx: usize)
    ensures
        !(row is Repo) ==> row_times(rows.push(row), idx) == row_times(rows, idx),
        row matches ListRow::Repo { idx: shown, .. } ==> row_times(rows.push(row), idx)
            == row_times(rows, idx) + if shown == idx {
            1nat
        } else {
            0
        },
{
    assert(rows.push(row).drop_last() =~= rows);
}

proof fn lemma_taken(list: Seq<usize>, n: nat, idx: usize)
    requires
        0 < n <= list.len(),
    ensures
        times(list.take(n as int), idx) == times(list.take(n - 1), idx) + if list[n - 1] == idx {
            1nat
        } else {
            0
        },
{
    assert(list.take(n as int).drop_last() =~= list.take(n - 1));
}

proof fn lemma_pushed(list: Seq<usize>, last: usize, idx: usize)
    ensures
        times(list.push(last), idx) == times(list, idx) + if last == idx {
            1nat
        } else {
            0
        },
{
    assert(list.push(last).drop_last() =~= list);
}

proof fn lemma_repo_rows(list: Seq<usize>, depth: usize, n: nat, idx: usize)
    requires
        n <= list.len(),
    ensures
        row_times(AppState::repo_rows_upto(list, depth, n), idx) == times(
            list.take(n as int),
            idx,
        ),
    decreases n,
{
    if n > 0 {
        lemma_repo_rows(list, depth, (n - 1) as nat, idx);
        lemma_taken(list, n, idx);
        lemma_row_pushed(
            AppState::repo_rows_upto(list, depth, (n - 1) as nat),
            ListRow::Repo { idx: list[n - 1], depth },
            idx,
        );
    }
}

proof fn lemma_whole(list: Seq<usize>)
    ensures
        list.take(list.len() as int) == list,
{
    assert(list.take(list.len() as int) =~= list);
}

// ---- picking ----

proof fn lemma_group_times(app: AppState, list: Seq<usize>, group: int, n: nat, idx: usize)
    requires
        n <= list.len(),
    ensures
        times(app.in_group_upto(list, group, n), idx) == if app.group_at(idx) == group {
            times(list.take(n as int), idx)
        } else {
            0
        },
    decreases n,
{
    if n > 0 {
        lemma_group_times(app, list, group, (n - 1) as nat, idx);
        lemma_taken(list, n, idx);
        lemma_pushed(app.in_group_upto(list, group, (n - 1) as nat), list[n - 1], idx);
    }
}

proof fn lemma_folder_times(
    app: AppState,
    list: Seq<usize>,
    of: usize,
    level: int,
    n: nat,
    idx: usize,
)
    requires
        n <= list.len(),
    ensures
        times(app.in_folder_upto(list, of, level, n), idx) == if app.in_folder(idx, of, level) {
            times(list.take(n as int), idx)
        } else {
            0
        },
    decreases n,
{
    if n > 0 {
        lemma_folder_times(app, list, of, level, (n - 1) as nat, idx);
        lemma_taken(list, n, idx);
        lemma_pushed(app.in_folder_upto(list, of, level, (n - 1) as nat), list[n - 1], idx);
    }
}

proof fn lemma_direct_times(app: AppState, list: Seq<usize>, level: int, n: nat, idx: usize)
    requires
        n <= list.len(),
    ensures
        times(app.direct_upto(list, level, n), idx) == if folders_of(app.repo_at(idx)) <= level {
            times(list.take(n as int), idx)
        } else {
            0
        },
    decreases n,
{
    if n > 0 {
        lemma_direct_times(app, list, level, (n - 1) as nat, idx);
        lemma_taken(list, n, idx);
        lemma_pushed(app.direct_upto(list, level, (n - 1) as nat), list[n - 1], idx);
    }
}

// ---- sections ----

proof fn lemma_section_times(
    app: AppState,
    members: Seq<usize>,
    group: int,
    within: usize,
    idx: usize,
)
    ensures
        row_times(app.section(members, group, within), idx) <= times(members, idx),
        all_open(app) ==> row_times(app.section(members, group, within), idx) == times(
            members,
            idx,
        ),
{
    let header = app.section_header(members, group, within);
    let none = Seq::<ListRow>::empty();
    lemma_row_pushed(none, header, idx);
    lemma_repo_rows(members, within, members.len(), idx);
    lemma_whole(members);
    lemma_rows_joined(
        none.push(header),
        AppState::repo_rows_upto(members, within, members.len()),
        idx,
    );
}

proof fn lemma_sections_times(
    app: AppState,
    list: Seq<usize>,
    within: usize,
    n: nat,
    idx: usize,
)
    ensures
        ({
            let shown = row_times(app.sections_upto(list, within, n), idx);
            let wanted = if 0 <= app.group_at(idx) < n {
                times(list, idx)
            } else {
                0
            };
            shown <= wanted && (all_open(app) ==> shown == wanted)
        }),
    decreases n,
{
    if n > 0 {
        lemma_sections_times(app, list, within, (n - 1) as nat, idx);
        let before = app.sections_upto(list, within, (n - 1) as nat);
        let members = app.in_group_upto(list, n - 1, list.len());
        lemma_group_times(app, list, n - 1, list.len(), idx);
        lemma_whole(list);
        lemma_section_times(app, members, n - 1, within, idx);
        lemma_row_pushed(before, ListRow::Spacer, idx);
        lemma_rows_joined(
            before.push(ListRow::Spacer),
            app.section(members, n - 1, within),
            idx,
        );
    }
}

proof fn lemma_leaf_times(app: AppState, list: Seq<usize>, level: usize, idx: usize)
    ensures
        row_times(app.leaf_rows(list, level), idx) <= times(list, idx),
        all_open(app) ==> row_times(app.leaf_rows(list, level), idx) == times(list, idx),
{
    lemma_sections_times(app, list, level, app.outline.groups@.len() + 1, idx);
    law_group_of_a_repo(app.outline.groups@, app.repo_at(idx).name@, 0);
    lemma_repo_rows(list, level, list.len(), idx);
    lemma_whole(list);
}

// ---- the tree ----

proof fn lemma_firsts(app: AppState, list: Seq<usize>, level: int, n: nat)
    requires
        n <= list.len(),
    ensures
        ({
            let firsts = app.firsts_upto(list, level, n);
            &&& forall|k: int|
                0 <= k < firsts.len() ==> folders_of(app.repo_at(#[trigger] firsts[k])) > level
            &&& forall|k: int, j: int|
                0 <= k < j < firsts.len() ==> !app.in_folder(
                    #[trigger] firsts[j],
                    #[trigger] firsts[k],
                    level,
                )
            &&& forall|m: int|
                0 <= m < n && folders_of(app.repo_at(#[trigger] list[m])) > level
                    ==> app.in_some_folder(list[m], firsts, level)
        }),
    decreases n,
{
    if n > 0 {
        lemma_firsts(app, list, level, (n - 1) as nat);
        let before = app.firsts_upto(list, level, (n - 1) as nat);
        let after = app.firsts_upto(list, level, n);
        let new = list[n - 1];
        assert forall|m: int|
            0 <= m < n && folders_of(app.repo_at(#[trigger] list[m])) > level implies app.in_some_folder(
            list[m],
            after,
            level,
        ) by {
            if m < n - 1 {
                let k = choose|k: int|
                    0 <= k < before.len() && app.in_folder(list[m], #[trigger] before[k], level);
                assert(after[k] == before[k]);
            } else if !app.in_some_folder(new, before, level) {
                assert(after[before.len() as int] == new);
                assert(app.in_folder(new, after[before.len() as int], level));
            }
        }
        assert forall|k: int, j: int| 0 <= k < j < after.len() implies !app.in_folder(
            #[trigger] after[j],
            #[trigger] after[k],
            level,
        ) by {
            assert(after[k] == before[k]);
            if j < before.len() {
                assert(after[j] == before[j]);
            }
        }
    }
}

proof fn lemma_stands(list: Seq<usize>, idx: usize)
    ensures
        times(list, idx) > 0 ==> exists|m: int| 0 <= m < list.len() && #[trigger] list[m] == idx,
    decreases list.len(),
{
    if list.len() > 0 {
        lemma_stands(list.drop_last(), idx);
        if times(list.drop_last(), idx) > 0 {
            let short = list.drop_last();
            let m = choose|m: int| 0 <= m < short.len() && #[trigger] short[m] == idx;
            assert(list[m] == idx);
        } else if list.last() == idx {
            assert(list[list.len() - 1] == idx);
        }
    }
}

/// A repo lies in the folder of one of the first `n` repos of a list.
spec fn in_first(app: AppState, idx: usize, firsts: Seq<usize>, level: int, n: nat) -> bool {
    exists|k: int| 0 <= k < n && app.in_folder(idx, #[trigger] firsts[k], level)
}

proof fn lemma_folders_times(
    app: AppState,
    list: Seq<usize>,
    level: usize,
    deep: nat,
    n: nat,
    idx: usize,
)
    requires
        deep > 0,
        level + deep <= usize::MAX,
        n <= app.firsts_upto(list, level as int, list.len()).len(),
    ensures
        ({
            let firsts = app.firsts_upto(list, level as int, list.len());
            let shown = row_times(app.folder_rows_upto(list, level, deep, n), idx);
            let wanted = if in_first(app, idx, firsts, level as int, n) {
                times(list, idx)
            } else {
                0
            };
            shown <= wanted && (all_open(app) ==> shown == wanted)
        }),
    decreases deep, 0int, n,
{
    if n > 0 {
        lemma_folders_times(app, list, level, deep, (n - 1) as nat, idx);
        let firsts = app.firsts_upto(list, level as int, list.len());
        lemma_firsts(app, list, level as int, list.len());
        let last = firsts[n - 1];
        let before = app.folder_rows_upto(list, level, deep, (n - 1) as nat);
        let header = ListRow::Folder { of: last, level };
        let below = app.in_folder_upto(list, last, level as int, list.len());
        lemma_row_pushed(before, header, idx);
        lemma_level_times(app, below, (level + 1) as usize, (deep - 1) as nat, idx);
        lemma_rows_joined(
            before.push(header),
            app.level_rows(below, (level + 1) as usize, (deep - 1) as nat),
            idx,
        );
        lemma_folder_times(app, list, last, level as int, list.len(), idx);
        lemma_whole(list);
        if app.in_folder(idx, last, level as int) {
            if in_first(app, idx, firsts, level as int, (n - 1) as nat) {
                let k = choose|k: int|
                    0 <= k < n - 1 && app.in_folder(idx, #[trigger] firsts[k], level as int);
                assert(same_folders(app.repo_at(last), app.repo_at(firsts[k]), level + 1));
                assert(app.in_folder(firsts[n - 1], firsts[k], level as int));
            }
        } else if in_first(app, idx, firsts, level as int, n) {
            let k = choose|k: int|
                0 <= k < n && app.in_folder(idx, #[trigger] firsts[k], level as int);
            assert(k < n - 1);
        }
    }
}

proof fn lemma_level_times(
    app: AppState,
    list: Seq<usize>,
    level: usize,
    deep: nat,
    idx: usize,
)
    requires
        level + deep <= usize::MAX,
    ensures
        row_times(app.level_rows(list, level, deep), idx) <= times(list, idx),
        all_open(app) ==> row_times(app.level_rows(list, level, deep), idx) == times(list, idx),
    decreases deep, 1int, 0int,
{
    if deep == 0 {
        lemma_leaf_times(app, list, level, idx);
    } else {
        let firsts = app.firsts_upto(list, level as int, list.len());
        let direct = app.direct_upto(list, level as int, list.len());
        lemma_folders_times(app, list, level, deep, firsts.len(), idx);
        lemma_direct_times(app, list, level as int, list.len(), idx);
        lemma_whole(list);
        lemma_leaf_times(app, direct, level, idx);
        lemma_rows_joined(
            app.folder_rows_upto(list, level, deep, firsts.len()),
            app.leaf_rows(direct, level),
            idx,
        );
        lemma_firsts(app, list, level as int, list.len());
        lemma_stands(list, idx);
        if folders_of(app.repo_at(idx)) > level && times(list, idx) > 0 {
            let m = choose|m: int| 0 <= m < list.len() && #[trigger] list[m] == idx;
            assert(app.in_some_folder(list[m], firsts, level as int));
            assert(in_first(app, idx, firsts, level as int, firsts.len()));
        }
    }
}

// ---- laws ----

/// With neither groups nor the tree, the list has one row for each repo that it shows, in their
/// order, and navigation goes from each to the next.
pub proof fn law_flat_list(app: AppState, step: usize)
    requires
        !app.grouping_active(),
        !app.tree_active(),
        app.visible().len() + 4 <= usize::MAX,
        app.selected < app.rows(),
    ensures
        app.lines().len() == app.visible().len(),
        forall|k: int|
            0 <= k < app.visible().len() ==> #[trigger] app.lines()[k] == (ListRow::Repo {
                idx: app.visible()[k],
                depth: 0,
            }),
        app.selected < app.visible().len() ==> app.current() == Some(
            app.visible()[app.selected as int],
        ),
        app.row_above() == if app.selected > 0 {
            app.selected - 1
        } else {
            0
        },
        app.row_below() == if app.selected < app.rows() - 1 {
            app.selected + 1
        } else {
            app.selected as int
        },
        app.row_up(step) == most(app.selected - most(step as int, 1), 0),
        app.row_down(step) == if app.selected + most(step as int, 1) < app.rows() {
            app.selected + most(step as int, 1)
        } else {
            app.rows() - 1
        },
{
    AppState::lemma_repo_rows(app.visible(), 0, app.visible().len());
}

/// No repo has more rows than it stands in the flat list, whatever is grouped, put in folders or
/// folded; and where nothing is folded, it has as many.
pub proof fn law_every_repo_has_its_row(app: AppState, idx: usize)
    requires
        app.deepest() <= usize::MAX,
    ensures
        row_times(app.lines(), idx) <= times(app.visible(), idx),
        all_open(app) ==> row_times(app.lines(), idx) == times(app.visible(), idx),
{
    let list = app.visible();
    lemma_leaf_times(app, list, 0, idx);
    lemma_repo_rows(list, 0, list.len(), idx);
    lemma_whole(list);
    if app.tree_active() {
        lemma_level_times(app, list, 0, app.deepest() as nat, idx);
    }
}

} // verus!
