//! The timing report.

use vstd::prelude::*;
use vstd::string::*;

use crate::plain::{PlainState, RepoResult};
use crate::text::{blank, cat, cat5, lines_of, pad_right, padded, text_lines};
use crate::ticks::{last_line, ProfileRow};
use crate::times::{format_seconds, seconds_text};

verus! {

/// The slowest repos come first.
pub open spec fn slowest_first(rows: Seq<ProfileRow>) -> bool {
    forall|i: int, j: int| 0 <= i < j < rows.len() ==> rows[i].elapsed >= rows[j].elapsed
}

/// The rows, the slowest first.
pub fn sort_rows(rows: Vec<ProfileRow>) -> (res: Vec<ProfileRow>)
    ensures
        slowest_first(res@),
        res@.to_multiset() == rows@.to_multiset(),
{
    let mut left = rows;
    let mut out: Vec<ProfileRow> = Vec::new();
    assert(left@.to_multiset().add(out@.to_multiset()) =~= rows@.to_multiset()) by {
        broadcast use vstd::seq_lib::group_to_multiset_ensures;

    }
    while left.len() > 0
        invariant
            slowest_first(out@),
            left@.to_multiset().add(out@.to_multiset()) =~= rows@.to_multiset(),
        decreases left@.len(),
    {
        let ghost left_before = left@;
        let ghost out_before = out@;
        let row = left.remove(0);
        let ghost item = row;
        let mut at: usize = 0;
        while at < out.len() && out[at].elapsed >= row.elapsed
            invariant
                at <= out@.len(),
                out@ == out_before,
                slowest_first(out@),
                forall|k: int| 0 <= k < at ==> (#[trigger] out@[k]).elapsed >= row.elapsed,
            decreases out@.len() - at,
        {
            at += 1;
        }
        out.insert(at, row);
        proof {
            broadcast use vstd::seq_lib::group_to_multiset_ensures;

            assert(left_before == left@.insert(0, item));
            assert(out@ == out_before.insert(at as int, item));
            assert(left_before.to_multiset() =~= left@.to_multiset().insert(item));
            assert(out@.to_multiset() =~= out_before.to_multiset().insert(item));
        }
    }
    assert(left@ =~= Seq::empty());
    assert(out@.to_multiset() =~= rows@.to_multiset()) by {
        broadcast use vstd::seq_lib::group_to_multiset_ensures;

    }
    out
}

/// The name of a result in the timing report.
pub open spec fn result_name(state: PlainState) -> Seq<char> {
    match state {
        PlainState::Updated => "updated"@,
        PlainState::UpToDate => "uptodate"@,
        PlainState::Skipped => "skipped"@,
        PlainState::NoUpstream => "noupstream"@,
        PlainState::Throttled => "throttled"@,
        PlainState::Failed => "failed"@,
    }
}

/// The row of a repo that was pulled without a screen.
pub fn result_row(result: &RepoResult, elapsed: u64) -> (res: ProfileRow)
    ensures
        res.name == result.name,
        res.branch == result.branch,
        res.status@ == result_name(result.state),
        res.elapsed == elapsed,
        res.last_log_line@ == last_line(text_lines(result.output@)),
{
    let status = match result.state {
        PlainState::Updated => "updated",
        PlainState::UpToDate => "uptodate",
        PlainState::Skipped => "skipped",
        PlainState::NoUpstream => "noupstream",
        PlainState::Throttled => "throttled",
        PlainState::Failed => "failed",
    };
    let lines = lines_of(result.output.as_str());
    let ghost all = lines.deep_view();
    assert(all.take(all.len() as int) =~= all);
    let mut i: usize = lines.len();
    while i > 0 && blank(lines[i - 1].as_str())
        invariant
            i <= lines@.len(),
            all == lines.deep_view(),
            last_line(all) == last_line(all.take(i as int)),
        decreases i,
    {
        assert(all.take(i as int).last() == lines@[i - 1]@);
        assert(all.take(i as int).drop_last() =~= all.take(i - 1));
        i -= 1;
    }
    let last = if i > 0 {
        assert(all.take(i as int).last() == lines@[i - 1]@);
        lines[i - 1].clone()
    } else {
        String::new()
    };
    ProfileRow {
        name: result.name.clone(),
        branch: result.branch.clone(),
        status: status.to_owned(),
        elapsed,
        last_log_line: last,
    }
}

/// A line of the report.
pub open spec fn report_line(row: ProfileRow) -> Seq<char> {
    padded(seconds_text(row.elapsed) + "s"@, 10) + padded(row.status@, 12) + row.name@ + (" ("@
        + row.branch@ + ")  "@ + row.last_log_line@ + "\n"@)
}

/// The report's first `n` lines.
pub open spec fn report_upto(rows: Seq<ProfileRow>, n: nat) -> Seq<char>
    decreases n,
{
    if n == 0 || n > rows.len() {
        Seq::empty()
    } else {
        report_upto(rows, (n - 1) as nat) + report_line(rows[n - 1])
    }
}

/// Rows in the order of the report.
pub open spec fn is_report_order(rows: Seq<ProfileRow>, ordered: Seq<ProfileRow>) -> bool {
    slowest_first(ordered) && ordered.to_multiset() == rows.to_multiset()
}

/// The per-repo timing report, slowest first.
pub fn format_report(rows: Vec<ProfileRow>) -> (res: String)
    ensures
        exists|ordered: Seq<ProfileRow>| #[trigger]
            is_report_order(rows@, ordered) && res@ == report_upto(ordered, ordered.len()),
{
    let ghost all = rows@;
    let ordered = sort_rows(rows);
    assert(is_report_order(all, ordered@));
    let mut out = String::new();
    let mut i: usize = 0;
    while i < ordered.len()
        invariant
            i <= ordered@.len(),
            out@ == report_upto(ordered@, i as nat),
        decreases ordered@.len() - i,
    {
        let row = &ordered[i];
        let time = pad_right(cat(format_seconds(row.elapsed).as_str(), "s").as_str(), 10);
        let status = pad_right(row.status.as_str(), 12);
        let rest = cat5(" (", row.branch.as_str(), ")  ", row.last_log_line.as_str(), "\n");
        let line = crate::text::cat4(
            time.as_str(),
            status.as_str(),
            row.name.as_str(),
            rest.as_str(),
        );
        out.append(line.as_str());
        i += 1;
    }
    out
}

/// A report calls each result by its own name.
pub proof fn law_names_of_results()
    ensures
        result_name(PlainState::Updated) == "updated"@,
        result_name(PlainState::UpToDate) == "uptodate"@,
        result_name(PlainState::Skipped) == "skipped"@,
        result_name(PlainState::NoUpstream) == "noupstream"@,
        result_name(PlainState::Throttled) == "throttled"@,
        result_name(PlainState::Failed) == "failed"@,
{
}

/// The slowest repos come first, and every repo comes once.
pub proof fn law_slowest_first(rows: Seq<ProfileRow>, ordered: Seq<ProfileRow>, i: int, j: int)
    requires
        is_report_order(rows, ordered),
        0 <= i < j < ordered.len(),
    ensures
        ordered[i].elapsed >= ordered[j].elapsed,
        ordered.len() == rows.len(),
        ordered.to_multiset() == rows.to_multiset(),
{
    broadcast use vstd::seq_lib::group_to_multiset_ensures;

    assert(ordered.to_multiset().len() == rows.to_multiset().len());
}

} // verus!
