//! Text primitives: what the parsers and the screen content are stated in.
//!
//! Every specification here speaks of a text as its sequence of characters; the
//! executable functions take and give strings.

use vstd::prelude::*;
use vstd::string::*;

verus! {

// ---- trusted standard library calls ----

/// `String::push` of the standard library appends one character.
pub assume_specification[ String::push ](s: &mut String, c: char)
    ensures
        final(s)@ == old(s)@.push(c),
;

/// What `str::to_lowercase` of the standard library makes of a text.
pub uninterp spec fn lowercase(s: Seq<char>) -> Seq<char>;

/// Calls `str::to_lowercase`; the contract only names its result.
#[verifier::external_body]
pub(crate) fn to_lower(s: &str) -> (res: String)
    ensures
        res@ == lowercase(s@),
{
    s.to_lowercase()
}

// ---- building strings ----

/// The characters of a string.
pub fn chars_of(s: &str) -> (res: Vec<char>)
    ensures
        res@ == s@,
{
    let mut out: Vec<char> = Vec::new();
    for c in it: s.chars()
        invariant
            it.seq() == s@,
            out@ =~= it.seq().take(it.index() as int),
    {
        out.push(c);
    }
    out
}

/// The string made of the characters of `chars` from `from` up to `to`.
pub fn text_between(chars: &Vec<char>, from: usize, to: usize) -> (res: String)
    requires
        from <= to <= chars@.len(),
    ensures
        res@ == chars@.subrange(from as int, to as int),
{
    let mut out = String::new();
    let mut i: usize = from;
    while i < to
        invariant
            from <= i <= to <= chars@.len(),
            out@ =~= chars@.subrange(from as int, i as int),
        decreases to - i,
    {
        out.push(chars[i]);
        i += 1;
    }
    out
}

/// The number of characters of a text.
pub fn char_count(s: &str) -> (res: usize)
    ensures
        res == s@.len(),
{
    chars_of(s).len()
}

/// Whether two texts are equal.
pub fn same(a: &str, b: &str) -> (res: bool)
    ensures
        res == (a@ == b@),
{
    a.to_owned() == b.to_owned()
}

/// Two texts in a row.
pub fn cat(a: &str, b: &str) -> (res: String)
    ensures
        res@ == a@ + b@,
{
    a.to_owned().concat(b)
}

/// Three texts in a row.
pub fn cat3(a: &str, b: &str, c: &str) -> (res: String)
    ensures
        res@ == a@ + b@ + c@,
{
    a.to_owned().concat(b).concat(c)
}

/// Four texts in a row.
pub fn cat4(a: &str, b: &str, c: &str, d: &str) -> (res: String)
    ensures
        res@ == a@ + b@ + c@ + d@,
{
    a.to_owned().concat(b).concat(c).concat(d)
}

/// Five texts in a row.
pub fn cat5(a: &str, b: &str, c: &str, d: &str, e: &str) -> (res: String)
    ensures
        res@ == a@ + b@ + c@ + d@ + e@,
{
    a.to_owned().concat(b).concat(c).concat(d).concat(e)
}

/// `n` copies of one character.
pub open spec fn copies(c: char, n: nat) -> Seq<char> {
    Seq::new(n, |i: int| c)
}

/// `n` copies of one character.
pub fn repeat_char(c: char, n: usize) -> (res: String)
    ensures
        res@ == copies(c, n as nat),
{
    let mut out = String::new();
    let mut i: usize = 0;
    while i < n
        invariant
            i <= n,
            out@ =~= copies(c, i as nat),
        decreases n - i,
    {
        out.push(c);
        i += 1;
    }
    out
}

/// How far `used` falls short of `width`.
pub open spec fn shortfall(width: nat, used: nat) -> nat {
    if used < width {
        (width - used) as nat
    } else {
        0
    }
}

/// `s` followed by the blanks that bring it to `width` characters.
pub open spec fn padded(s: Seq<char>, width: nat) -> Seq<char> {
    s + copies(' ', shortfall(width, s.len()))
}

/// `s` followed by the blanks that bring it to `width` characters.
pub fn pad_right(s: &str, width: usize) -> (res: String)
    ensures
        res@ == padded(s@, width as nat),
{
    let used: usize = char_count(s);
    if used < width {
        cat(s, repeat_char(' ', width - used).as_str())
    } else {
        let res = s.to_owned();
        assert(copies(' ', 0) =~= Seq::<char>::empty());
        assert(s@ + copies(' ', 0) =~= s@);
        res
    }
}

/// The decimal digit of a number below ten.
pub open spec fn digit(d: nat) -> char {
    (48 + d) as char
}

/// A number in decimal notation.
pub open spec fn decimal(n: nat) -> Seq<char>
    decreases n,
{
    if n < 10 {
        seq![digit(n)]
    } else {
        decimal(n / 10).push(digit(n % 10))
    }
}

fn digit_char(d: u64) -> (res: char)
    requires
        d < 10,
    ensures
        res == digit(d as nat),
{
    if d == 0 {
        '0'
    } else if d == 1 {
        '1'
    } else if d == 2 {
        '2'
    } else if d == 3 {
        '3'
    } else if d == 4 {
        '4'
    } else if d == 5 {
        '5'
    } else if d == 6 {
        '6'
    } else if d == 7 {
        '7'
    } else if d == 8 {
        '8'
    } else {
        '9'
    }
}

/// A number in decimal notation.
pub fn number(n: u64) -> (res: String)
    ensures
        res@ == decimal(n as nat),
    decreases n,
{
    if n < 10 {
        let mut out = String::new();
        out.push(digit_char(n));
        assert(out@ =~= seq![digit(n as nat)]);
        out
    } else {
        let mut out = number(n / 10);
        out.push(digit_char(n % 10));
        out
    }
}

/// A count in decimal notation.
pub fn count_text(n: usize) -> (res: String)
    ensures
        res@ == decimal(n as nat),
{
    number(n as u64)
}

// ---- lists of texts ----

/// A list of texts joined by a separator.
pub open spec fn joined(parts: Seq<Seq<char>>, sep: Seq<char>) -> Seq<char>
    decreases parts.len(),
{
    if parts.len() == 0 {
        Seq::empty()
    } else if parts.len() == 1 {
        parts[0]
    } else {
        joined(parts.drop_last(), sep) + sep + parts.last()
    }
}

/// A list of texts joined by a separator.
pub fn join(parts: &Vec<String>, sep: &str) -> (res: String)
    ensures
        res@ == joined(parts.deep_view(), sep@),
{
    let mut out = String::new();
    let mut i: usize = 0;
    while i < parts.len()
        invariant
            i <= parts@.len(),
            out@ == joined(parts.deep_view().take(i as int), sep@),
        decreases parts@.len() - i,
    {
        if i > 0 {
            out.append(sep);
        }
        out.append(parts[i].as_str());
        proof {
            let next = parts.deep_view().take(i + 1);
            assert(next.drop_last() =~= parts.deep_view().take(i as int));
            assert(next.last() == parts[i as int]@);
            if i == 0 {
                assert(out@ =~= next[0]);
            }
        }
        i += 1;
    }
    assert(parts.deep_view().take(parts@.len() as int) =~= parts.deep_view());
    out
}

/// The texts of a list that are not empty.
pub open spec fn nonempty(parts: Seq<Seq<char>>) -> Seq<Seq<char>>
    decreases parts.len(),
{
    if parts.len() == 0 {
        Seq::empty()
    } else if parts.last().len() > 0 {
        nonempty(parts.drop_last()).push(parts.last())
    } else {
        nonempty(parts.drop_last())
    }
}

// ---- splitting ----

/// White space, as Unicode's `White_Space` property lists it.
pub open spec fn is_space(c: char) -> bool {
    ||| 0x09 <= c as u32 <= 0x0d
    ||| c as u32 == 0x20
    ||| c as u32 == 0x85
    ||| c as u32 == 0xa0
    ||| c as u32 == 0x1680
    ||| 0x2000 <= c as u32 <= 0x200a
    ||| c as u32 == 0x2028
    ||| c as u32 == 0x2029
    ||| c as u32 == 0x202f
    ||| c as u32 == 0x205f
    ||| c as u32 == 0x3000
}

/// What a text is split at.
#[derive(Clone, Copy)]
pub enum Separator {
    /// One character.
    One(char),
    /// A comma or a blank.
    CommaOrBlank,
    /// Any white space.
    Space,
}

impl Separator {
    /// Whether a character separates.
    pub open spec fn hits(self, c: char) -> bool {
        match self {
            Separator::One(sep) => c == sep,
            Separator::CommaOrBlank => c == ',' || c == ' ',
            Separator::Space => is_space(c),
        }
    }

    fn separates(self, c: char) -> (res: bool)
        ensures
            res == self.hits(c),
    {
        match self {
            Separator::One(sep) => c == sep,
            Separator::CommaOrBlank => c == ',' || c == ' ',
            Separator::Space => space(c),
        }
    }
}

fn space(c: char) -> (res: bool)
    ensures
        res == is_space(c),
{
    let n: u32 = c as u32;
    (0x09 <= n && n <= 0x0d) || n == 0x20 || n == 0x85 || n == 0xa0 || n == 0x1680 || (0x2000 <= n
        && n <= 0x200a) || n == 0x2028 || n == 0x2029 || n == 0x202f || n == 0x205f || n == 0x3000
}

/// The pieces of a text between separators: a separator starts a new piece, any
/// other character extends the last one.
pub open spec fn pieces(s: Seq<char>, sep: Separator) -> Seq<Seq<char>>
    decreases s.len(),
{
    if s.len() == 0 {
        seq![Seq::empty()]
    } else {
        let before = pieces(s.drop_last(), sep);
        if sep.hits(s.last()) {
            before.push(Seq::empty())
        } else {
            before.drop_last().push(before.last().push(s.last()))
        }
    }
}

/// A text has at least one piece.
pub proof fn lemma_pieces_some(s: Seq<char>, sep: Separator)
    ensures
        pieces(s, sep).len() > 0,
    decreases s.len(),
{
    if s.len() > 0 {
        lemma_pieces_some(s.drop_last(), sep);
    }
}

/// The pieces of a text between separators.
pub fn split(s: &str, sep: Separator) -> (res: Vec<String>)
    ensures
        res.deep_view() == pieces(s@, sep),
        res@.len() > 0,
{
    let chars = chars_of(s);
    let mut out: Vec<String> = Vec::new();
    let mut last = String::new();
    let mut i: usize = 0;
    while i < chars.len()
        invariant
            i <= chars@.len(),
            chars@ == s@,
            out.deep_view().push(last@) =~= pieces(s@.take(i as int), sep),
        decreases chars@.len() - i,
    {
        let ghost before = out.deep_view();
        assert(s@.take(i + 1).drop_last() =~= s@.take(i as int));
        if sep.separates(chars[i]) {
            out.push(last);
            last = String::new();
            assert(out.deep_view() =~= pieces(s@.take(i as int), sep));
        } else {
            last.push(chars[i]);
            assert(before.push(last@.drop_last()).drop_last() =~= before);
            assert(last@.drop_last().push(chars[i as int]) =~= last@);
        }
        i += 1;
    }
    assert(s@.take(s@.len() as int) =~= s@);
    out.push(last);
    out
}

/// The pieces of a text between separators that are not empty.
pub fn split_nonempty(s: &str, sep: Separator) -> (res: Vec<String>)
    ensures
        res.deep_view() == nonempty(pieces(s@, sep)),
{
    let all = split(s, sep);
    let mut out: Vec<String> = Vec::new();
    let mut i: usize = 0;
    while i < all.len()
        invariant
            i <= all@.len(),
            all.deep_view() == pieces(s@, sep),
            out.deep_view() =~= nonempty(all.deep_view().take(i as int)),
        decreases all@.len() - i,
    {
        assert(all.deep_view().take(i + 1).drop_last() =~= all.deep_view().take(i as int));
        if !all[i].as_str().is_empty() {
            out.push(all[i].clone());
        }
        i += 1;
    }
    assert(all.deep_view().take(all@.len() as int) =~= all.deep_view());
    out
}

/// A line without the carriage return that ends it.
pub open spec fn without_cr(s: Seq<char>) -> Seq<char> {
    if s.len() > 0 && s.last() == '\r' {
        s.drop_last()
    } else {
        s
    }
}

/// The lines of a text: a line ends with a line feed, or with a carriage return
/// and a line feed; what follows the last line end is a line if it is not empty.
pub open spec fn text_lines(s: Seq<char>) -> Seq<Seq<char>> {
    let parts = pieces(s, Separator::One('\n'));
    let ended = parts.drop_last().map_values(|p: Seq<char>| without_cr(p));
    if parts.last().len() > 0 {
        ended.push(parts.last())
    } else {
        ended
    }
}

/// The lines of a text.
pub fn lines_of(s: &str) -> (res: Vec<String>)
    ensures
        res.deep_view() == text_lines(s@),
{
    let parts = split(s, Separator::One('\n'));
    let ghost all = parts.deep_view();
    let mut out: Vec<String> = Vec::new();
    let mut i: usize = 0;
    let last: usize = parts.len() - 1;
    while i < last
        invariant
            i <= last,
            last == all.len() - 1,
            parts@.len() == all.len(),
            all == parts.deep_view(),
            out.deep_view() =~= all.take(i as int).map_values(|p: Seq<char>| without_cr(p)),
        decreases last - i,
    {
        let chars = chars_of(parts[i].as_str());
        let n: usize = chars.len();
        let ghost before = out.deep_view();
        assert(chars@ == all[i as int]);
        if n > 0 && chars[n - 1] == '\r' {
            out.push(text_between(&chars, 0, n - 1));
        } else {
            out.push(text_between(&chars, 0, n));
            assert(chars@.subrange(0, n as int) =~= chars@);
        }
        assert(out.deep_view() =~= before.push(without_cr(all[i as int])));
        i += 1;
    }
    assert(all.take(last as int) =~= all.drop_last());
    if !parts[last].as_str().is_empty() {
        out.push(parts[last].clone());
    }
    out
}

// ---- trimming ----

/// A text without leading white space.
pub open spec fn trimmed_start(s: Seq<char>) -> Seq<char>
    decreases s.len(),
{
    if s.len() > 0 && is_space(s[0]) {
        trimmed_start(s.skip(1))
    } else {
        s
    }
}

/// A text without trailing white space.
pub open spec fn trimmed_end(s: Seq<char>) -> Seq<char>
    decreases s.len(),
{
    if s.len() > 0 && is_space(s.last()) {
        trimmed_end(s.drop_last())
    } else {
        s
    }
}

/// A text without white space at either end.
pub open spec fn trimmed(s: Seq<char>) -> Seq<char> {
    trimmed_end(trimmed_start(s))
}

/// A text without white space at either end.
pub fn trim(s: &str) -> (res: String)
    ensures
        res@ == trimmed(s@),
{
    let chars = chars_of(s);
    let n: usize = chars.len();
    let mut from: usize = 0;
    assert(chars@.skip(0) =~= chars@);
    while from < n && space(chars[from])
        invariant
            from <= n,
            n == chars@.len(),
            trimmed_start(chars@.skip(from as int)) == trimmed_start(chars@),
        decreases n - from,
    {
        assert(chars@.skip(from as int).skip(1) =~= chars@.skip(from + 1));
        from += 1;
    }
    let ghost rest = chars@.skip(from as int);
    let mut to: usize = n;
    assert(chars@.subrange(from as int, n as int) =~= rest);
    while to > from && space(chars[to - 1])
        invariant
            from <= to <= n,
            n == chars@.len(),
            trimmed_end(chars@.subrange(from as int, to as int)) == trimmed_end(rest),
        decreases to,
    {
        assert(chars@.subrange(from as int, to as int).drop_last() =~= chars@.subrange(
            from as int,
            to - 1,
        ));
        to -= 1;
    }
    text_between(&chars, from, to)
}

/// Whether a text is white space throughout.
pub open spec fn is_blank(s: Seq<char>) -> bool {
    trimmed(s).len() == 0
}

/// Whether a text is white space throughout.
pub fn blank(s: &str) -> (res: bool)
    ensures
        res == is_blank(s@),
{
    trim(s).as_str().is_empty()
}

/// A text without the characters at its end that `cut` lists.
pub open spec fn cut_end(s: Seq<char>, cut: Seq<char>) -> Seq<char>
    decreases s.len(),
{
    if s.len() > 0 && cut.contains(s.last()) {
        cut_end(s.drop_last(), cut)
    } else {
        s
    }
}

fn listed(c: char, cut: &Vec<char>) -> (res: bool)
    ensures
        res == cut@.contains(c),
{
    let mut i: usize = 0;
    while i < cut.len()
        invariant
            i <= cut@.len(),
            forall|j: int| 0 <= j < i ==> cut@[j] != c,
        decreases cut@.len() - i,
    {
        if cut[i] == c {
            return true;
        }
        i += 1;
    }
    false
}

/// A text without the characters at its end that `cut` lists.
pub fn trim_end_of(s: &str, cut: &str) -> (res: String)
    ensures
        res@ == cut_end(s@, cut@),
{
    let chars = chars_of(s);
    let cuts = chars_of(cut);
    let mut to: usize = chars.len();
    assert(chars@.subrange(0, to as int) =~= chars@);
    while to > 0 && listed(chars[to - 1], &cuts)
        invariant
            to <= chars@.len(),
            cuts@ == cut@,
            cut_end(chars@.subrange(0, to as int), cut@) == cut_end(chars@, cut@),
        decreases to,
    {
        assert(chars@.subrange(0, to as int).drop_last() =~= chars@.subrange(0, to - 1));
        to -= 1;
    }
    text_between(&chars, 0, to)
}

// ---- searching ----

/// Whether `needle` stands in `s` at index `i`.
pub open spec fn stands_at(s: Seq<char>, needle: Seq<char>, i: int) -> bool {
    0 <= i <= s.len() - needle.len() && s.subrange(i, i + needle.len()) == needle
}

/// Whether `needle` occurs in `s`.
pub open spec fn has_text(s: Seq<char>, needle: Seq<char>) -> bool {
    exists|i: int| stands_at(s, needle, i)
}

/// The first place at or after `from` where `needle` stands in `s`.
pub open spec fn first_from(s: Seq<char>, needle: Seq<char>, from: int) -> Option<int>
    decreases s.len() - from + 1,
{
    if from < 0 || from + needle.len() > s.len() {
        None
    } else if stands_at(s, needle, from) {
        Some(from)
    } else {
        first_from(s, needle, from + 1)
    }
}

/// A first place is a place, and no earlier one is.
pub proof fn lemma_first_from(s: Seq<char>, needle: Seq<char>, from: int)
    requires
        0 <= from,
    ensures
        match first_from(s, needle, from) {
            Some(i) => from <= i && stands_at(s, needle, i) && forall|j: int|
                from <= j < i ==> !stands_at(s, needle, j),
            None => forall|j: int| from <= j ==> !stands_at(s, needle, j),
        },
    decreases s.len() - from + 1,
{
    if from + needle.len() <= s.len() && !stands_at(s, needle, from) {
        lemma_first_from(s, needle, from + 1);
    }
}

fn at(chars: &Vec<char>, needle: &Vec<char>, i: usize) -> (res: bool)
    requires
        i + needle@.len() <= chars@.len(),
    ensures
        res == stands_at(chars@, needle@, i as int),
{
    let n: usize = chars.len();
    let mut k: usize = 0;
    while k < needle.len()
        invariant
            k <= needle@.len(),
            i + needle@.len() <= n,
            n == chars@.len(),
            forall|j: int| 0 <= j < k ==> chars@[i + j] == needle@[j],
        decreases needle@.len() - k,
    {
        if chars[i + k] != needle[k] {
            assert(chars@.subrange(i as int, i + needle@.len())[k as int] != needle@[k as int]);
            return false;
        }
        k += 1;
    }
    assert(chars@.subrange(i as int, i + needle@.len()) =~= needle@);
    true
}

/// The first place where `needle` stands in `s`.
pub fn find(s: &str, needle: &str) -> (res: Option<usize>)
    ensures
        match res {
            Some(i) => first_from(s@, needle@, 0) == Some(i as int) && i + needle@.len() <= s@.len(),
            None => first_from(s@, needle@, 0) is None,
        },
{
    let chars = chars_of(s);
    let wanted = chars_of(needle);
    if wanted.len() > chars.len() {
        return None;
    }
    let last: usize = chars.len() - wanted.len();
    let mut i: usize = 0;
    while i <= last
        invariant
            i <= last + 1,
            last == chars@.len() - wanted@.len(),
            last < usize::MAX || wanted@.len() == 0,
            chars@ == s@,
            wanted@ == needle@,
            first_from(s@, needle@, 0) == first_from(s@, needle@, i as int),
        decreases last + 1 - i,
    {
        if at(&chars, &wanted, i) {
            return Some(i);
        }
        if i == last {
            assert(first_from(s@, needle@, i + 1) is None);
            return None;
        }
        i += 1;
    }
    None
}

/// Whether `needle` occurs in `s`.
pub fn contains(s: &str, needle: &str) -> (res: bool)
    ensures
        res == has_text(s@, needle@),
{
    let found = find(s, needle);
    proof {
        lemma_first_from(s@, needle@, 0);
    }
    found.is_some()
}

/// Whether `s` starts with `prefix`.
pub open spec fn starts(s: Seq<char>, prefix: Seq<char>) -> bool {
    stands_at(s, prefix, 0)
}

/// Whether `s` ends with `suffix`.
pub open spec fn ends(s: Seq<char>, suffix: Seq<char>) -> bool {
    stands_at(s, suffix, s.len() - suffix.len())
}

/// What follows `prefix` in `s`, if `s` starts with it.
pub open spec fn after_prefix(s: Seq<char>, prefix: Seq<char>) -> Option<Seq<char>> {
    if starts(s, prefix) {
        Some(s.skip(prefix.len() as int))
    } else {
        None
    }
}

/// Whether `s` starts with `prefix`.
pub fn starts_with(s: &str, prefix: &str) -> (res: bool)
    ensures
        res == starts(s@, prefix@),
{
    let chars = chars_of(s);
    let wanted = chars_of(prefix);
    wanted.len() <= chars.len() && at(&chars, &wanted, 0)
}

/// What follows `prefix` in `s`, if `s` starts with it.
pub fn strip_prefix(s: &str, prefix: &str) -> (res: Option<String>)
    ensures
        res.deep_view() == after_prefix(s@, prefix@),
{
    let chars = chars_of(s);
    let wanted = chars_of(prefix);
    if wanted.len() <= chars.len() && at(&chars, &wanted, 0) {
        assert(chars@.subrange(wanted@.len() as int, chars@.len() as int) =~= s@.skip(
            wanted@.len() as int,
        ));
        Some(text_between(&chars, wanted.len(), chars.len()))
    } else {
        None
    }
}

/// `s` without `suffix`, where it ends with it.
pub open spec fn without_suffix(s: Seq<char>, suffix: Seq<char>) -> Seq<char> {
    if ends(s, suffix) {
        s.take(s.len() - suffix.len())
    } else {
        s
    }
}

/// `s` without `suffix`, where it ends with it.
pub fn strip_suffix(s: &str, suffix: &str) -> (res: String)
    ensures
        res@ == without_suffix(s@, suffix@),
{
    let chars = chars_of(s);
    let wanted = chars_of(suffix);
    if wanted.len() <= chars.len() && at(&chars, &wanted, chars.len() - wanted.len()) {
        assert(chars@.subrange(0, chars@.len() - wanted@.len()) =~= s@.take(
            s@.len() - wanted@.len(),
        ));
        text_between(&chars, 0, chars.len() - wanted.len())
    } else {
        s.to_owned()
    }
}

/// What stands before and after the first occurrence of `sep` in `s`.
pub open spec fn cut_once(s: Seq<char>, sep: Seq<char>) -> Option<(Seq<char>, Seq<char>)> {
    match first_from(s, sep, 0) {
        Some(i) => Some((s.take(i), s.skip(i + sep.len()))),
        None => None,
    }
}

/// What stands before and after the first occurrence of `sep` in `s`.
pub fn split_once(s: &str, sep: &str) -> (res: Option<(String, String)>)
    ensures
        match res {
            Some(parts) => cut_once(s@, sep@) == Some((parts.0@, parts.1@)),
            None => cut_once(s@, sep@) is None,
        },
{
    match find(s, sep) {
        Some(i) => {
            let chars = chars_of(s);
            let n: usize = chars.len();
            let skip: usize = char_count(sep);
            assert(chars@.subrange(0, i as int) =~= s@.take(i as int));
            assert(chars@.subrange(i + sep@.len(), chars@.len() as int) =~= s@.skip(i + sep@.len()));
            Some((text_between(&chars, 0, i), text_between(&chars, i + skip, n)))
        },
        None => None,
    }
}

// ---- numbers ----

/// Whether a character is a decimal digit.
pub open spec fn is_digit(c: char) -> bool {
    '0' as u32 <= c as u32 <= '9' as u32
}

/// The number that a sequence of decimal digits stands for.
pub open spec fn digits_value(s: Seq<char>) -> nat
    decreases s.len(),
{
    if s.len() == 0 {
        0
    } else {
        digits_value(s.drop_last()) * 10 + (s.last() as u32 - '0' as u32) as nat
    }
}

/// A text without the sign `+` in front.
pub open spec fn unsigned_digits(s: Seq<char>) -> Seq<char> {
    if s.len() > 0 && s[0] == '+' {
        s.skip(1)
    } else {
        s
    }
}

/// The number up to `max` that a text denotes: decimal digits, at least one,
/// perhaps with a `+` in front.
pub open spec fn parsed(s: Seq<char>, max: nat) -> Option<nat> {
    let digits = unsigned_digits(s);
    if digits.len() > 0 && (forall|i: int| 0 <= i < digits.len() ==> is_digit(digits[i]))
        && digits_value(digits) <= max {
        Some(digits_value(digits))
    } else {
        None
    }
}

proof fn lemma_digits_grow(s: Seq<char>, n: int)
    requires
        0 <= n <= s.len(),
    ensures
        digits_value(s.take(n)) <= digits_value(s),
    decreases s.len(),
{
    if n < s.len() {
        assert(s.drop_last().take(n) =~= s.take(n));
        lemma_digits_grow(s.drop_last(), n);
    } else {
        assert(s.take(n) =~= s);
    }
}

/// The number up to `max` that a text denotes.
pub fn parse_number(s: &str, max: u32) -> (res: Option<u32>)
    ensures
        match res {
            Some(n) => parsed(s@, max as nat) == Some(n as nat),
            None => parsed(s@, max as nat) is None,
        },
{
    let chars = chars_of(s);
    let start: usize = if chars.len() > 0 && chars[0] == '+' {
        1
    } else {
        0
    };
    let ghost digits = unsigned_digits(s@);
    assert(digits =~= chars@.skip(start as int));
    if chars.len() == start {
        return None;
    }
    let mut value: u64 = 0;
    let mut i: usize = start;
    assert(digits.take(0) =~= Seq::<char>::empty());
    while i < chars.len()
        invariant
            start <= i <= chars@.len(),
            digits == unsigned_digits(s@),
            digits =~= chars@.skip(start as int),
            digits.len() > 0,
            value <= max,
            value == digits_value(digits.take(i - start)),
            forall|j: int| 0 <= j < i - start ==> is_digit(digits[j]),
        decreases chars@.len() - i,
    {
        let n: u32 = chars[i] as u32;
        assert(chars@[i as int] == digits[i - start]);
        if n < '0' as u32 || n > '9' as u32 {
            assert(!is_digit(digits[i - start]));
            return None;
        }
        assert(digits.take(i + 1 - start).drop_last() =~= digits.take(i - start));
        value = value * 10 + (n - '0' as u32) as u64;
        if value > max as u64 {
            proof {
                lemma_digits_grow(digits, i + 1 - start);
            }
            return None;
        }
        i += 1;
    }
    assert(digits.take(digits.len() as int) =~= digits);
    Some(value as u32)
}

// ---- bytes ----

/// How many bytes a character takes in UTF-8.
pub open spec fn utf8_len(c: char) -> nat {
    if (c as u32) < 0x80 {
        1
    } else if (c as u32) < 0x800 {
        2
    } else if (c as u32) < 0x10000 {
        3
    } else {
        4
    }
}

/// How many bytes a text takes in UTF-8.
pub open spec fn byte_len(s: Seq<char>) -> nat
    decreases s.len(),
{
    if s.len() == 0 {
        0
    } else {
        byte_len(s.drop_last()) + utf8_len(s.last())
    }
}

fn char_bytes(c: char) -> (res: u64)
    ensures
        res == utf8_len(c),
{
    let n: u32 = c as u32;
    if n < 0x80 {
        1
    } else if n < 0x800 {
        2
    } else if n < 0x10000 {
        3
    } else {
        4
    }
}

/// How many bytes a text takes in UTF-8, up to the largest number of bytes.
pub fn bytes_of(s: &str) -> (res: usize)
    ensures
        res == (if byte_len(s@) <= usize::MAX {
            byte_len(s@)
        } else {
            usize::MAX as nat
        }),
{
    let chars = chars_of(s);
    let mut n: u128 = 0;
    let mut i: usize = 0;
    let len: usize = chars.len();
    while i < len
        invariant
            i <= len,
            len == chars@.len(),
            n <= 4 * i,
            n == byte_len(chars@.take(i as int)),
        decreases len - i,
    {
        assert(chars@.take(i + 1).drop_last() =~= chars@.take(i as int));
        n += char_bytes(chars[i]) as u128;
        i += 1;
    }
    assert(chars@.take(len as int) =~= chars@);
    if n <= usize::MAX as u128 {
        n as usize
    } else {
        usize::MAX
    }
}

/// How many characters in front of a text take exactly `n` bytes.
pub open spec fn chars_in_bytes(s: Seq<char>, n: int) -> Option<int>
    decreases s.len(),
{
    if n == 0 {
        Some(0)
    } else if n < 0 || s.len() == 0 {
        None
    } else {
        match chars_in_bytes(s.skip(1), n - utf8_len(s[0])) {
            Some(k) => Some(k + 1),
            None => None,
        }
    }
}

/// How many characters in front of a text take exactly `n` bytes.
pub fn char_boundary(s: &str, n: u64) -> (res: Option<usize>)
    ensures
        match res {
            Some(k) => k <= s@.len() && chars_in_bytes(s@, n as int) == Some(k as int),
            None => chars_in_bytes(s@, n as int) is None,
        },
{
    let chars = chars_of(s);
    let mut left: u64 = n;
    let mut i: usize = 0;
    assert(chars@.skip(0) =~= chars@);
    while i < chars.len() && left > 0
        invariant
            i <= chars@.len(),
            chars@ == s@,
            chars_in_bytes(s@, n as int) == (match chars_in_bytes(
                chars@.skip(i as int),
                left as int,
            ) {
                Some(k) => Some(k + i),
                None => None::<int>,
            }),
        decreases chars@.len() - i,
    {
        assert(chars@.skip(i as int).skip(1) =~= chars@.skip(i + 1));
        let bytes: u64 = char_bytes(chars[i]);
        if bytes > left {
            assert(chars_in_bytes(chars@.skip(i + 1), left - bytes) is None);
            return None;
        }
        left -= bytes;
        i += 1;
    }
    if left == 0 {
        Some(i)
    } else {
        None
    }
}

// ---- order ----

/// Whether a text comes before another one or is the same: the first character in which
/// they differ decides, and a text comes before its continuations.
pub open spec fn text_le(a: Seq<char>, b: Seq<char>) -> bool
    decreases a.len(),
{
    if a.len() == 0 {
        true
    } else if b.len() == 0 {
        false
    } else if a[0] == b[0] {
        text_le(a.skip(1), b.skip(1))
    } else {
        (a[0] as int) < (b[0] as int)
    }
}

/// The order of texts is total.
pub proof fn lemma_text_total(a: Seq<char>, b: Seq<char>)
    ensures
        text_le(a, b) || text_le(b, a),
    decreases a.len(),
{
    if a.len() > 0 && b.len() > 0 && a[0] == b[0] {
        lemma_text_total(a.skip(1), b.skip(1));
    }
}

/// Texts that come before each other are the same.
pub proof fn lemma_text_antisymmetric(a: Seq<char>, b: Seq<char>)
    requires
        text_le(a, b),
        text_le(b, a),
    ensures
        a == b,
    decreases a.len(),
{
    if a.len() > 0 && b.len() > 0 && a[0] == b[0] {
        lemma_text_antisymmetric(a.skip(1), b.skip(1));
        assert(a =~= seq![a[0]] + a.skip(1));
        assert(b =~= seq![b[0]] + b.skip(1));
    } else {
        assert(a =~= b);
    }
}

/// The order of texts is transitive.
pub proof fn lemma_text_transitive(a: Seq<char>, b: Seq<char>, c: Seq<char>)
    requires
        text_le(a, b),
        text_le(b, c),
    ensures
        text_le(a, c),
    decreases a.len(),
{
    if a.len() > 0 && b.len() > 0 && c.len() > 0 && a[0] == b[0] && b[0] == c[0] {
        lemma_text_transitive(a.skip(1), b.skip(1), c.skip(1));
    }
}

fn char_before(x: char, y: char) -> (res: bool)
    ensures
        res == ((x as int) < (y as int)),
{
    (x as u32) < (y as u32)
}

/// Whether a text comes before another one or is the same.
pub fn not_after(a: &str, b: &str) -> (res: bool)
    ensures
        res == text_le(a@, b@),
{
    let left = chars_of(a);
    let right = chars_of(b);
    let mut i: usize = 0;
    assert(left@.skip(0) =~= left@);
    assert(right@.skip(0) =~= right@);
    while i < left.len() && i < right.len()
        invariant
            i <= left@.len(),
            i <= right@.len(),
            left@ == a@,
            right@ == b@,
            text_le(left@, right@) == text_le(left@.skip(i as int), right@.skip(i as int)),
        decreases left@.len() - i,
    {
        if left[i] != right[i] {
            return char_before(left[i], right[i]);
        }
        assert(left@.skip(i as int).skip(1) =~= left@.skip(i + 1));
        assert(right@.skip(i as int).skip(1) =~= right@.skip(i + 1));
        i += 1;
    }
    i == left.len()
}

// ---- what texts are made of ----

proof fn lemma_joined_push(parts: Seq<Seq<char>>, part: Seq<char>, sep: Seq<char>)
    ensures
        joined(parts.push(part), sep) == if parts.len() == 0 {
            part
        } else {
            joined(parts, sep) + sep + part
        },
{
    assert(parts.push(part).drop_last() =~= parts);
}

/// A text that is split is its pieces with the separator between them, and no piece holds the
/// separator.
pub proof fn law_pieces_make_the_text(s: Seq<char>, sep: char)
    ensures
        joined(pieces(s, Separator::One(sep)), seq![sep]) == s,
        forall|i: int|
            0 <= i < pieces(s, Separator::One(sep)).len() ==> !(#[trigger] pieces(
                s,
                Separator::One(sep),
            )[i]).contains(sep),
    decreases s.len(),
{
    let parts = pieces(s, Separator::One(sep));
    if s.len() == 0 {
        assert(joined(parts, seq![sep]) =~= s);
    } else {
        let init = s.drop_last();
        law_pieces_make_the_text(init, sep);
        lemma_pieces_some(init, Separator::One(sep));
        let before = pieces(init, Separator::One(sep));
        if s.last() == sep {
            lemma_joined_push(before, Seq::empty(), seq![sep]);
            assert(joined(parts, seq![sep]) =~= s);
        } else {
            let rest = before.drop_last();
            lemma_joined_push(rest, before.last(), seq![sep]);
            lemma_joined_push(rest, before.last().push(s.last()), seq![sep]);
            assert(rest.push(before.last()) =~= before);
            assert(init.push(s.last()) =~= s);
            if rest.len() > 0 {
                let head = joined(rest, seq![sep]) + seq![sep];
                assert(head + before.last().push(s.last()) =~= (head + before.last()).push(
                    s.last(),
                ));
            }
            assert(joined(parts, seq![sep]) =~= s);
            assert forall|i: int| 0 <= i < parts.len() implies !(#[trigger] parts[i]).contains(
                sep,
            ) by {
                if i < rest.len() {
                    assert(parts[i] == before[i]);
                } else {
                    let piece = parts[i];
                    assert(!before[before.len() - 1].contains(sep));
                    if piece.contains(sep) {
                        let k = choose|k: int| 0 <= k < piece.len() && piece[k] == sep;
                        assert(before.last()[k] == sep);
                    }
                }
            }
        }
    }
}

proof fn lemma_trimmed_start(s: Seq<char>) -> (k: int)
    ensures
        0 <= k <= s.len(),
        trimmed_start(s) == s.skip(k),
        forall|i: int| 0 <= i < k ==> is_space(#[trigger] s[i]),
        k < s.len() ==> !is_space(s[k]),
    decreases s.len(),
{
    if s.len() > 0 && is_space(s[0]) {
        let rest = lemma_trimmed_start(s.skip(1));
        assert(s.skip(1).skip(rest) =~= s.skip(rest + 1));
        assert forall|i: int| 0 <= i < rest + 1 implies is_space(#[trigger] s[i]) by {
            if i > 0 {
                assert(is_space(s.skip(1)[i - 1]));
            }
        }
        rest + 1
    } else {
        assert(s.skip(0) =~= s);
        0
    }
}

proof fn lemma_trimmed_end(s: Seq<char>) -> (k: int)
    ensures
        0 <= k <= s.len(),
        trimmed_end(s) == s.take(k),
        forall|i: int| k <= i < s.len() ==> is_space(#[trigger] s[i]),
        k > 0 ==> !is_space(s[k - 1]),
    decreases s.len(),
{
    if s.len() > 0 && is_space(s.last()) {
        let k = lemma_trimmed_end(s.drop_last());
        assert(s.drop_last().take(k) =~= s.take(k));
        assert forall|i: int| k <= i < s.len() implies is_space(#[trigger] s[i]) by {
            if i < s.len() - 1 {
                assert(is_space(s.drop_last()[i]));
            }
        }
        k
    } else {
        assert(s.take(s.len() as int) =~= s);
        s.len() as int
    }
}

/// Trimming takes away white space at both ends and nothing else; what is left begins and ends
/// with something that is none.
pub proof fn law_trimming(s: Seq<char>)
    ensures
        exists|from: int, to: int|
            0 <= from <= to <= s.len() && trimmed(s) == #[trigger] s.subrange(from, to) && (forall|
                i: int,
            |
                0 <= i < from ==> is_space(#[trigger] s[i])) && forall|i: int|
                to <= i < s.len() ==> is_space(#[trigger] s[i]),
        trimmed(s).len() > 0 ==> !is_space(trimmed(s).first()) && !is_space(trimmed(s).last()),
        is_blank(s) <==> forall|i: int| 0 <= i < s.len() ==> is_space(#[trigger] s[i]),
{
    let from = lemma_trimmed_start(s);
    let rest = s.skip(from);
    let k = lemma_trimmed_end(rest);
    assert(rest.take(k) =~= s.subrange(from, from + k));
    assert forall|i: int| from + k <= i < s.len() implies is_space(#[trigger] s[i]) by {
        assert(is_space(rest[i - from]));
    }
    if trimmed(s).len() > 0 {
        assert(!is_space(rest[k - 1]));
        assert(trimmed(s).first() == s[from]);
    }
    if forall|i: int| 0 <= i < s.len() ==> is_space(#[trigger] s[i]) {
        if k > 0 {
            assert(is_space(s[from + k - 1]));
            assert(rest[k - 1] == s[from + k - 1]);
        }
    }
    if is_blank(s) {
        assert(k == 0);
    }
}

/// Cutting a text at a separator gives what comes before it and what comes after it; the first
/// place where it stands counts.
pub proof fn law_cutting_once(s: Seq<char>, sep: Seq<char>)
    requires
        sep.len() > 0,
    ensures
        cut_once(s, sep) matches Some(cut) ==> s == cut.0 + sep + cut.1 && forall|i: int|
            0 <= i < cut.0.len() ==> !#[trigger] stands_at(s, sep, i),
        cut_once(s, sep) is None <==> !has_text(s, sep),
{
    lemma_first_from(s, sep, 0);
    if let Some(i) = first_from(s, sep, 0) {
        assert(s.subrange(i, i + sep.len()) == sep);
        assert(s =~= s.take(i) + s.subrange(i, i + sep.len()) + s.skip(i + sep.len()));
    }
}

/// Padding a text fills it up with blanks and never cuts it.
pub proof fn law_padding(s: Seq<char>, width: nat)
    ensures
        padded(s, width).len() == if s.len() < width { width } else { s.len() },
        padded(s, width).take(s.len() as int) == s,
        forall|i: int| s.len() <= i < padded(s, width).len() ==> #[trigger] padded(s, width)[i] == ' ',
{
    assert(padded(s, width).take(s.len() as int) =~= s);
}

/// A prefix that is taken away can be put back, and so can a suffix.
pub proof fn law_prefix_and_suffix(s: Seq<char>, part: Seq<char>)
    ensures
        after_prefix(part + s, part) == Some(s),
        after_prefix(s, part) matches Some(rest) ==> part + rest == s,
        without_suffix(s + part, part) == s,
        !ends(s, part) ==> without_suffix(s, part) == s,
{
    assert((part + s).subrange(0, part.len() as int) =~= part);
    assert((part + s).skip(part.len() as int) =~= s);
    if starts(s, part) {
        assert(s =~= s.subrange(0, part.len() as int) + s.skip(part.len() as int));
    }
    let all = s + part;
    assert(all.subrange(all.len() - part.len(), all.len() as int) =~= part);
    assert(all.take(s.len() as int) =~= s);
}

} // verus!
