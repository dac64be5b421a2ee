//! Repo groups: named sections of the list, and which repos belong to them.

use vstd::prelude::*;

use crate::text::{
    cat3, chars_of, contains, has_text, lines_of, lowercase, pieces, same, split, text_lines, to_lower,
    trim, trimmed, Separator,
};

verus! {

/// Where the members of a group come from.
#[derive(Debug, Clone, Copy, PartialEq, Eq, Structural)]
pub enum GroupSource {
    /// A pattern with `*`.
    Pattern,
    /// A list.
    Listed,
    /// The output of a command.
    Command,
    /// A document.
    Url,
}

impl GroupSource {
    /// What a source is called.
    pub open spec fn named(self) -> Seq<char> {
        match self {
            GroupSource::Pattern => "pattern"@,
            GroupSource::Listed => "list"@,
            GroupSource::Command => "command"@,
            GroupSource::Url => "url"@,
        }
    }

    /// What a source is called.
    pub fn label(self) -> (res: &'static str)
        ensures
            res@ == self.named(),
    {
        match self {
            GroupSource::Pattern => "pattern",
            GroupSource::Listed => "list",
            GroupSource::Command => "command",
            GroupSource::Url => "url",
        }
    }

    /// The members have to be looked up.
    pub open spec fn looked_up(self) -> bool {
        self is Command || self is Url
    }

    /// The members have to be looked up.
    pub fn is_dynamic(self) -> (res: bool)
        ensures
            res == self.looked_up(),
    {
        match self {
            GroupSource::Command => true,
            GroupSource::Url => true,
            _ => false,
        }
    }
}

/// A configured group.
#[derive(Debug)]
pub struct Group {
    pub name: String,
    pub source: GroupSource,
    /// The pattern, the command or the address.
    pub detail: String,
    /// The members, where they are listed.
    pub members: Option<Vec<String>>,
    /// The minutes since the members were looked up.
    pub resolved_minutes: Option<u64>,
    pub resolving: bool,
    pub error: Option<String>,
}

/// The groups, and what is folded in the list.
#[derive(Debug)]
pub struct Outline {
    pub groups: Vec<Group>,
    /// A group with more members can be folded.
    pub threshold: usize,
    /// The keys of the folded folders and groups.
    pub folded: Vec<String>,
}

/// The threshold where none is configured.
pub const COLLAPSE_THRESHOLD: usize = 5;

impl Outline {
    /// No groups, and nothing folded.
    pub open spec fn is_none(self) -> bool {
        &&& self.groups@.len() == 0
        &&& self.threshold == COLLAPSE_THRESHOLD
        &&& self.folded@.len() == 0
    }

    /// No groups, and nothing folded.
    pub fn none() -> (res: Outline)
        ensures
            res.is_none(),
    {
        Outline { groups: Vec::new(), threshold: COLLAPSE_THRESHOLD, folded: Vec::new() }
    }
}

// ---- configuring ----

/// The sources that a configured group may have.
#[derive(Debug)]
pub struct Sources {
    pub pattern: Option<String>,
    pub repos: Option<Vec<String>>,
    pub command: Option<String>,
    pub url: Option<String>,
}

impl Sources {
    /// How many sources are given.
    pub open spec fn given(self) -> int {
        let pattern: int = if self.pattern is Some { 1 } else { 0 };
        let repos: int = if self.repos is Some { 1 } else { 0 };
        let command: int = if self.command is Some { 1 } else { 0 };
        let url: int = if self.url is Some { 1 } else { 0 };
        pattern + repos + command + url
    }
}

/// The group of a name and its source, of which there has to be exactly one. Members that have to
/// be looked up are not known yet.
pub fn configured_group(name: String, sources: Sources) -> (res: Option<Group>)
    ensures
        res is Some <==> sources.given() == 1,
        res matches Some(group) ==> {
            &&& group.name == name
            &&& group.resolved_minutes is None
            &&& !group.resolving
            &&& group.error is None
            &&& sources.pattern matches Some(pattern) ==> group.source is Pattern && group.detail
                == pattern && group.members is None
            &&& sources.repos matches Some(repos) ==> group.source is Listed && group.detail@
                == ""@ && group.members == Some(repos)
            &&& sources.command matches Some(command) ==> group.source is Command && group.detail
                == command && group.members is None
            &&& sources.url matches Some(url) ==> group.source is Url && group.detail == url
                && group.members is None
        },
{
    let (source, detail, members) = match (
        sources.pattern,
        sources.repos,
        sources.command,
        sources.url,
    ) {
        (Some(pattern), None, None, None) => (GroupSource::Pattern, pattern, None),
        (None, Some(repos), None, None) => (GroupSource::Listed, "".to_owned(), Some(repos)),
        (None, None, Some(command), None) => (GroupSource::Command, command, None),
        (None, None, None, Some(url)) => (GroupSource::Url, url, None),
        _ => return None,
    };
    Some(
        Group {
            name,
            source,
            detail,
            members,
            resolved_minutes: None,
            resolving: false,
            error: None,
        },
    )
}

/// The names among the first `n` lines of a command's output: the lines that are not blank,
/// without the blanks around them.
pub open spec fn names_upto(lines: Seq<Seq<char>>, n: nat) -> Seq<Seq<char>>
    decreases n,
{
    if n == 0 || n > lines.len() {
        Seq::empty()
    } else if trimmed(lines[n - 1]).len() == 0 {
        names_upto(lines, (n - 1) as nat)
    } else {
        names_upto(lines, (n - 1) as nat).push(trimmed(lines[n - 1]))
    }
}

/// The names that a command printed.
pub fn names_in(stdout: &str) -> (res: Vec<String>)
    ensures
        res.deep_view() == names_upto(text_lines(stdout@), text_lines(stdout@).len()),
{
    let lines = lines_of(stdout);
    let ghost all = lines.deep_view();
    let mut names: Vec<String> = Vec::new();
    let mut i: usize = 0;
    assert(names.deep_view() =~= Seq::<Seq<char>>::empty());
    while i < lines.len()
        invariant
            i <= lines@.len(),
            all == lines.deep_view(),
            names.deep_view() == names_upto(all, i as nat),
        decreases lines@.len() - i,
    {
        let ghost so_far = names.deep_view();
        assert(all[i as int] == lines@[i as int]@);
        let name = trim(lines[i].as_str());
        if !name.as_str().is_empty() {
            names.push(name);
            assert(names.deep_view() =~= so_far.push(name@));
        }
        i += 1;
    }
    assert(lines@.len() == all.len());
    names
}

/// What of a document the names are.
#[derive(Debug, Clone, Copy, PartialEq, Eq, Structural)]
pub enum NameKind {
    Keys,
    Values,
}

/// What stands at a place of a document; a value that is no text is left out.
#[derive(Debug)]
pub enum Found {
    Nothing,
    Entries(Vec<(String, Option<String>)>),
    Items(Vec<Option<String>>),
    Other,
}

/// The keys of the first `n` entries.
pub open spec fn keys_upto(entries: Seq<(String, Option<String>)>, n: nat) -> Seq<Seq<char>>
    decreases n,
{
    if n == 0 || n > entries.len() {
        Seq::empty()
    } else {
        keys_upto(entries, (n - 1) as nat).push(entries[n - 1].0@)
    }
}

/// The texts among the values of the first `n` entries.
pub open spec fn values_upto(entries: Seq<(String, Option<String>)>, n: nat) -> Seq<Seq<char>>
    decreases n,
{
    if n == 0 || n > entries.len() {
        Seq::empty()
    } else {
        match entries[n - 1].1 {
            Some(text) => values_upto(entries, (n - 1) as nat).push(text@),
            None => values_upto(entries, (n - 1) as nat),
        }
    }
}

/// The texts among the first `n` items.
pub open spec fn items_upto(items: Seq<Option<String>>, n: nat) -> Seq<Seq<char>>
    decreases n,
{
    if n == 0 || n > items.len() {
        Seq::empty()
    } else {
        match items[n - 1] {
            Some(text) => items_upto(items, (n - 1) as nat).push(text@),
            None => items_upto(items, (n - 1) as nat),
        }
    }
}

fn entry_names(kind: NameKind, entries: &Vec<(String, Option<String>)>) -> (res: Vec<String>)
    ensures
        res.deep_view() == match kind {
            NameKind::Keys => keys_upto(entries@, entries@.len()),
            NameKind::Values => values_upto(entries@, entries@.len()),
        },
{
    let mut names: Vec<String> = Vec::new();
    let mut i: usize = 0;
    assert(names.deep_view() =~= Seq::<Seq<char>>::empty());
    while i < entries.len()
        invariant
            i <= entries@.len(),
            names.deep_view() == match kind {
                NameKind::Keys => keys_upto(entries@, i as nat),
                NameKind::Values => values_upto(entries@, i as nat),
            },
        decreases entries@.len() - i,
    {
        let ghost so_far = names.deep_view();
        let wanted: Option<&String> = match kind {
            NameKind::Keys => Some(&entries[i].0),
            NameKind::Values => match &entries[i].1 {
                Some(text) => Some(text),
                None => None,
            },
        };
        match wanted {
            Some(text) => {
                names.push(text.clone());
                assert(names.deep_view() =~= so_far.push(text@));
            },
            None => {},
        }
        i += 1;
    }
    names
}

fn item_names(items: &Vec<Option<String>>) -> (res: Vec<String>)
    ensures
        res.deep_view() == items_upto(items@, items@.len()),
{
    let mut names: Vec<String> = Vec::new();
    let mut i: usize = 0;
    assert(names.deep_view() =~= Seq::<Seq<char>>::empty());
    while i < items.len()
        invariant
            i <= items@.len(),
            names.deep_view() == items_upto(items@, i as nat),
        decreases items@.len() - i,
    {
        let ghost so_far = names.deep_view();
        match &items[i] {
            Some(text) => {
                names.push(text.clone());
                assert(names.deep_view() =~= so_far.push(text@));
            },
            None => {},
        }
        i += 1;
    }
    names
}

/// The names that stand at a place of a document: the keys or the values of its entries, or the
/// items of its list.
pub fn names_found(kind: NameKind, found: &Found, pointer: &str) -> (res: Result<
    Vec<String>,
    String,
>)
    ensures
        match *found {
            Found::Entries(entries) => res matches Ok(names) && names.deep_view() == match kind {
                NameKind::Keys => keys_upto(entries@, entries@.len()),
                NameKind::Values => values_upto(entries@, entries@.len()),
            },
            Found::Items(items) => if kind is Values {
                res matches Ok(names) && names.deep_view() == items_upto(items@, items@.len())
            } else {
                res matches Err(error) && error@ == "no names at \""@ + pointer@ + "\""@
            },
            Found::Nothing => res matches Err(error) && error@ == "nothing at \""@ + pointer@
                + "\""@,
            Found::Other => res matches Err(error) && error@ == "no names at \""@ + pointer@
                + "\""@,
        },
{
    match found {
        Found::Entries(entries) => Ok(entry_names(kind, entries)),
        Found::Items(items) => {
            if kind == NameKind::Values {
                Ok(item_names(items))
            } else {
                Err(cat3("no names at \"", pointer, "\""))
            }
        },
        Found::Nothing => Err(cat3("nothing at \"", pointer, "\"")),
        Found::Other => Err(cat3("no names at \"", pointer, "\"")),
    }
}

/// Whether the members of a group are to be looked up: those that have to be, where that was never
/// done or is too long ago.
pub fn wants_lookup(group: &Group, ttl_minutes: u64) -> (res: bool)
    ensures
        res == (group.source.looked_up() && match group.resolved_minutes {
            Some(minutes) => minutes >= ttl_minutes,
            None => true,
        }),
{
    group.source.is_dynamic() && match group.resolved_minutes {
        Some(minutes) => minutes >= ttl_minutes,
        None => true,
    }
}

// ---- patterns ----

/// A text matches a pattern, in which `*` stands for any characters.
pub open spec fn fits(pattern: Seq<char>, text: Seq<char>) -> bool
    decreases pattern.len() + text.len(),
{
    if pattern.len() == 0 {
        text.len() == 0
    } else if pattern[0] == '*' {
        fits(pattern.skip(1), text) || (text.len() > 0 && fits(pattern, text.skip(1)))
    } else {
        text.len() > 0 && text[0] == pattern[0] && fits(pattern.skip(1), text.skip(1))
    }
}

fn fits_from(pattern: &Vec<char>, i: usize, text: &Vec<char>, j: usize) -> (res: bool)
    requires
        i <= pattern@.len(),
        j <= text@.len(),
    ensures
        res == fits(pattern@.skip(i as int), text@.skip(j as int)),
    decreases pattern@.len() - i + text@.len() - j,
{
    let ghost p = pattern@.skip(i as int);
    let ghost t = text@.skip(j as int);
    if i == pattern.len() {
        return j == text.len();
    }
    assert(p[0] == pattern@[i as int]);
    assert(p.skip(1) =~= pattern@.skip(i + 1));
    if j < text.len() {
        assert(t[0] == text@[j as int]);
        assert(t.skip(1) =~= text@.skip(j + 1));
    }
    if pattern[i] == '*' {
        fits_from(pattern, i + 1, text, j) || (j < text.len() && fits_from(pattern, i, text, j + 1))
    } else {
        j < text.len() && text[j] == pattern[i] && fits_from(pattern, i + 1, text, j + 1)
    }
}

/// Whether a text matches a pattern.
pub fn matches_pattern(pattern: &str, text: &str) -> (res: bool)
    ensures
        res == fits(pattern@, text@),
{
    let p = chars_of(pattern);
    let t = chars_of(text);
    assert(p@.skip(0) =~= pattern@);
    assert(t@.skip(0) =~= text@);
    fits_from(&p, 0, &t, 0)
}

/// A pattern without `*` matches itself and nothing else; `*` matches everything.
pub proof fn law_patterns(pattern: Seq<char>, text: Seq<char>)
    requires
        forall|i: int| 0 <= i < pattern.len() ==> pattern[i] != '*',
    ensures
        fits(pattern, text) <==> pattern == text,
        fits(seq!['*'], text),
    decreases pattern.len() + text.len(),
{
    let star = seq!['*'];
    assert(star.skip(1) =~= Seq::<char>::empty());
    if text.len() == 0 {
        assert(fits(star.skip(1), text));
    } else {
        law_patterns(Seq::empty(), text.skip(1));
    }
    if pattern.len() == 0 {
        if text.len() == 0 {
            assert(pattern =~= text);
        }
    } else if text.len() > 0 {
        law_patterns(pattern.skip(1), text.skip(1));
        if pattern[0] == text[0] && pattern.skip(1) == text.skip(1) {
            assert(pattern =~= seq![pattern[0]] + pattern.skip(1));
            assert(text =~= seq![text[0]] + text.skip(1));
        }
    }
}

// ---- members ----

/// The folders of a repo's path, and its own name.
pub open spec fn steps(name: Seq<char>) -> Seq<Seq<char>> {
    pieces(name, Separator::One('/'))
}

/// The last part of a repo's path.
pub open spec fn own_name(name: Seq<char>) -> Seq<char> {
    steps(name).last()
}

/// The last part of a repo's path.
pub fn basename(name: &str) -> (res: String)
    ensures
        res@ == own_name(name@),
{
    let parts = split(name, Separator::One('/'));
    let last: usize = parts.len() - 1;
    assert(parts.deep_view()[last as int] == parts@[last as int]@);
    parts[last].clone()
}

/// A list names a text.
pub open spec fn names(list: Seq<String>, text: Seq<char>) -> bool {
    exists|k: int| 0 <= k < list.len() && (#[trigger] list[k])@ == text
}

/// Whether a list names a text.
pub fn lists(list: &Vec<String>, text: &str) -> (res: bool)
    ensures
        res == names(list@, text@),
{
    let mut i: usize = 0;
    while i < list.len()
        invariant
            i <= list@.len(),
            forall|k: int| 0 <= k < i ==> (#[trigger] list@[k])@ != text@,
        decreases list@.len() - i,
    {
        if same(list[i].as_str(), text) {
            return true;
        }
        i += 1;
    }
    false
}

/// A group holds a repo: it is listed by its name or its path, or it matches the pattern, which
/// is one for paths where it has a slash. Case does not count in a pattern.
pub open spec fn holds(group: Group, name: Seq<char>) -> bool {
    match group.members {
        Some(list) => names(list@, own_name(name)) || names(list@, name),
        None => group.source is Pattern && fits(
            lowercase(group.detail@),
            lowercase(
                if has_text(group.detail@, "/"@) {
                    name
                } else {
                    own_name(name)
                },
            ),
        ),
    }
}

fn belongs(group: &Group, name: &str) -> (res: bool)
    ensures
        res == holds(*group, name@),
{
    match &group.members {
        Some(list) => lists(list, basename(name).as_str()) || lists(list, name),
        None => match group.source {
            GroupSource::Pattern => {
                let subject = if contains(group.detail.as_str(), "/") {
                    to_lower(name)
                } else {
                    to_lower(basename(name).as_str())
                };
                matches_pattern(to_lower(group.detail.as_str()).as_str(), subject.as_str())
            },
            _ => false,
        },
    }
}

/// The first group from `from` on that holds a repo, or the number of groups.
pub open spec fn group_from(groups: Seq<Group>, name: Seq<char>, from: int) -> int
    decreases groups.len() - from,
{
    if from < 0 || from >= groups.len() {
        groups.len() as int
    } else if holds(groups[from], name) {
        from
    } else {
        group_from(groups, name, from + 1)
    }
}

/// The group of a repo: the first that holds it, or the number of groups where none does.
pub fn group_of(groups: &Vec<Group>, name: &str) -> (res: usize)
    ensures
        res == group_from(groups@, name@, 0),
        res <= groups@.len(),
{
    let mut i: usize = 0;
    while i < groups.len()
        invariant
            i <= groups@.len(),
            group_from(groups@, name@, 0) == group_from(groups@, name@, i as int),
        decreases groups@.len() - i,
    {
        if belongs(&groups[i], name) {
            return i;
        }
        i += 1;
    }
    i
}

/// A repo is in the first group that holds it, and in no group exactly if none does.
pub proof fn law_group_of_a_repo(groups: Seq<Group>, name: Seq<char>, from: int)
    requires
        0 <= from <= groups.len(),
    ensures
        from <= group_from(groups, name, from) <= groups.len(),
        group_from(groups, name, from) < groups.len() ==> holds(
            groups[group_from(groups, name, from)],
            name,
        ),
        forall|k: int|
            from <= k < group_from(groups, name, from) ==> !holds(#[trigger] groups[k], name),
    decreases groups.len() - from,
{
    if from < groups.len() && !holds(groups[from], name) {
        law_group_of_a_repo(groups, name, from + 1);
    }
}

/// A repo belongs to a group that lists it, by its whole name or by the last part of it, or that
/// has a pattern which fits: one with a `/` the whole name, one without the last part, whatever
/// the case of the letters. A group that is still to be looked up holds nothing.
pub proof fn law_members_of_a_group(group: Group, name: Seq<char>)
    ensures
        group.members matches Some(list) ==> (holds(group, name) <==> exists|k: int|
            0 <= k < list@.len() && ((#[trigger] list@[k])@ == name || list@[k]@ == own_name(name))),
        group.members is None && group.source !is Pattern ==> !holds(group, name),
        group.members is None && group.source is Pattern && has_text(group.detail@, "/"@)
            ==> holds(group, name) == fits(lowercase(group.detail@), lowercase(name)),
        group.members is None && group.source is Pattern && !has_text(group.detail@, "/"@)
            ==> holds(group, name) == fits(lowercase(group.detail@), lowercase(own_name(name))),
{
    if let Some(list) = group.members {
        if exists|k: int|
            0 <= k < list@.len() && ((#[trigger] list@[k])@ == name || list@[k]@ == own_name(name)) {
            let k = choose|k: int|
                0 <= k < list@.len() && ((#[trigger] list@[k])@ == name || list@[k]@ == own_name(
                    name,
                ));
            if list@[k]@ == name {
                assert(names(list@, name));
            } else {
                assert(names(list@, own_name(name)));
            }
        }
    }
}

/// Commands and documents have to be looked up, patterns and lists do not; each kind has its name.
pub proof fn law_kinds_of_groups(source: GroupSource)
    ensures
        source.looked_up() <==> source is Command || source is Url,
        GroupSource::Pattern.named() == "pattern"@,
        GroupSource::Listed.named() == "list"@,
        GroupSource::Command.named() == "command"@,
        GroupSource::Url.named() == "url"@,
{
}

proof fn lemma_names(lines: Seq<Seq<char>>, n: nat)
    requires
        n <= lines.len(),
    ensures
        names_upto(lines, n) =~= lines.take(n as int).filter(
            |line: Seq<char>| trimmed(line).len() > 0,
        ).map_values(|line: Seq<char>| trimmed(line)),
    decreases n,
{
    reveal(Seq::filter);
    if n > 0 {
        lemma_names(lines, (n - 1) as nat);
        assert(lines.take(n as int).drop_last() =~= lines.take(n - 1));
        assert(lines.take(n as int).last() == lines[n - 1]);
    } else {
        assert(lines.take(0) =~= Seq::empty());
    }
}

/// What a command prints are the members, one on each line that is not blank, in their order.
pub proof fn law_printed_members(lines: Seq<Seq<char>>)
    ensures
        names_upto(lines, lines.len()) == lines.filter(
            |line: Seq<char>| trimmed(line).len() > 0,
        ).map_values(|line: Seq<char>| trimmed(line)),
{
    lemma_names(lines, lines.len());
    assert(lines.take(lines.len() as int) =~= lines);
}

} // verus!
