//! File paths as texts, compared component by component.

use vstd::prelude::*;

use crate::text::{same, split, Separator};

verus! {

/// Whether a path starts at the root directory.
pub open spec fn rooted(path: Seq<char>) -> bool {
    path.len() > 0 && path[0] == '/'
}

/// The components among the first `n` pieces of a path: an empty piece names
/// nothing, and neither does `.`, except in front of a relative path.
pub open spec fn components_upto(parts: Seq<Seq<char>>, from_root: bool, n: nat) -> Seq<Seq<char>>
    decreases n,
{
    if n == 0 || n > parts.len() {
        Seq::empty()
    } else {
        let before = components_upto(parts, from_root, (n - 1) as nat);
        let part = parts[n - 1];
        if part.len() == 0 || (part == "."@ && (from_root || n > 1)) {
            before
        } else {
            before.push(part)
        }
    }
}

/// The components of a path.
pub open spec fn components(path: Seq<char>) -> Seq<Seq<char>> {
    let parts = crate::text::pieces(path, Separator::One('/'));
    components_upto(parts, rooted(path), parts.len())
}

/// Whether two texts denote the same path.
pub open spec fn path_eq(a: Seq<char>, b: Seq<char>) -> bool {
    rooted(a) == rooted(b) && components(a) == components(b)
}

fn is_rooted(path: &str) -> (res: bool)
    ensures
        res == rooted(path@),
{
    let chars = crate::text::chars_of(path);
    chars.len() > 0 && chars[0] == '/'
}

/// The components of a path.
pub fn path_components(path: &str) -> (res: Vec<String>)
    ensures
        res.deep_view() == components(path@),
{
    let parts = split(path, Separator::One('/'));
    let from_root = is_rooted(path);
    let ghost all = parts.deep_view();
    let mut out: Vec<String> = Vec::new();
    let mut i: usize = 0;
    while i < parts.len()
        invariant
            i <= parts@.len(),
            all == parts.deep_view(),
            out.deep_view() =~= components_upto(all, from_root, i as nat),
        decreases parts@.len() - i,
    {
        assert(all[i as int] == parts@[i as int]@);
        let empty = parts[i].as_str().is_empty();
        let here = same(parts[i].as_str(), ".");
        if !empty && !(here && (from_root || i > 0)) {
            out.push(parts[i].clone());
        }
        i += 1;
    }
    out
}

/// Whether two lists hold the same texts.
pub fn same_texts(a: &Vec<String>, b: &Vec<String>) -> (res: bool)
    ensures
        res == (a.deep_view() == b.deep_view()),
{
    if a.len() != b.len() {
        assert(a.deep_view().len() != b.deep_view().len());
        return false;
    }
    let mut i: usize = 0;
    while i < a.len()
        invariant
            i <= a@.len(),
            a@.len() == b@.len(),
            forall|j: int| 0 <= j < i ==> a@[j]@ == b@[j]@,
        decreases a@.len() - i,
    {
        if !same(a[i].as_str(), b[i].as_str()) {
            assert(a.deep_view()[i as int] != b.deep_view()[i as int]);
            return false;
        }
        i += 1;
    }
    assert(a.deep_view() =~= b.deep_view());
    true
}

/// Whether two texts denote the same path.
pub fn same_path(a: &str, b: &str) -> (res: bool)
    ensures
        res == path_eq(a@, b@),
{
    is_rooted(a) == is_rooted(b) && same_texts(&path_components(a), &path_components(b))
}

proof fn lemma_components(parts: Seq<Seq<char>>, from_root: bool, n: nat)
    requires
        n <= parts.len(),
        forall|i: int| 0 <= i < n ==> (#[trigger] parts[i]).len() > 0 && parts[i] != "."@,
    ensures
        components_upto(parts, from_root, n) =~= parts.take(n as int),
    decreases n,
{
    if n > 0 {
        lemma_components(parts, from_root, (n - 1) as nat);
        assert(parts.take(n as int) =~= parts.take(n - 1).push(parts[n - 1]));
    }
}

/// Paths are compared part by part: equal paths are equal, a rooted one is none that is not, and
/// where no part is empty or `.` they are equal only if all their parts are.
pub proof fn law_paths_are_compared_by_parts(a: Seq<char>, b: Seq<char>)
    ensures
        path_eq(a, a),
        path_eq(a, b) == path_eq(b, a),
        rooted(a) != rooted(b) ==> !path_eq(a, b),
        ({
            let left = crate::text::pieces(a, Separator::One('/'));
            let right = crate::text::pieces(b, Separator::One('/'));
            (forall|i: int|
                0 <= i < left.len() ==> (#[trigger] left[i]).len() > 0 && left[i] != "."@) && (
            forall|i: int|
                0 <= i < right.len() ==> (#[trigger] right[i]).len() > 0 && right[i] != "."@)
                && left != right ==> !path_eq(a, b)
        }),
{
    let left = crate::text::pieces(a, Separator::One('/'));
    let right = crate::text::pieces(b, Separator::One('/'));
    if (forall|i: int| 0 <= i < left.len() ==> (#[trigger] left[i]).len() > 0 && left[i] != "."@) && (
    forall|i: int| 0 <= i < right.len() ==> (#[trigger] right[i]).len() > 0 && right[i] != "."@) {
        lemma_components(left, rooted(a), left.len());
        lemma_components(right, rooted(b), right.len());
        assert(left.take(left.len() as int) =~= left);
        assert(right.take(right.len() as int) =~= right);
    }
}

} // verus!
