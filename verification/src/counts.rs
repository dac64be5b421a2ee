//! Counts that git writes are read back.

use vstd::prelude::*;
use vstd::string::*;

use crate::git::{track_counts, track_of, word_number};
use crate::text::{
    decimal, digit, digits_value, is_blank, is_digit, is_space, nonempty, parsed, pieces, trimmed,
    trimmed_end, trimmed_start, unsigned_digits, Separator,
};

verus! {

// ---- decimal numbers ----

proof fn lemma_decimal(n: nat)
    ensures
        decimal(n).len() > 0,
        forall|i: int| 0 <= i < decimal(n).len() ==> is_digit(#[trigger] decimal(n)[i]),
        digits_value(decimal(n)) == n,
    decreases n,
{
    let text = decimal(n);
    if n < 10 {
        assert(text.drop_last() =~= Seq::<char>::empty());
        assert(digits_value(text.drop_last()) == 0);
        assert(text.last() == digit(n));
    } else {
        lemma_decimal(n / 10);
        assert(text.drop_last() =~= decimal(n / 10));
        assert(text.last() == digit(n % 10));
    }
}

proof fn lemma_parsed(n: u32)
    ensures
        parsed(decimal(n as nat), u32::MAX as nat) == Some(n as nat),
{
    lemma_decimal(n as nat);
    let text = decimal(n as nat);
    assert(is_digit(text[0]));
    assert(unsigned_digits(text) == text);
}

// ---- words ----

/// No character of a word separates.
spec fn solid(word: Seq<char>, sep: Separator) -> bool {
    forall|i: int| 0 <= i < word.len() ==> !sep.hits(#[trigger] word[i])
}

proof fn lemma_decimal_solid(n: nat)
    ensures
        solid(decimal(n), Separator::Space),
        solid(decimal(n), Separator::CommaOrBlank),
{
    lemma_decimal(n);
}

proof fn lemma_separated(s: Seq<char>, c: char, sep: Separator)
    requires
        sep.hits(c),
    ensures
        pieces(s.push(c), sep) == pieces(s, sep).push(Seq::empty()),
{
    assert(s.push(c).drop_last() =~= s);
}

proof fn lemma_extended(s: Seq<char>, word: Seq<char>, sep: Separator)
    requires
        solid(word, sep),
    ensures
        pieces(s, sep).len() > 0,
        pieces(s + word, sep) == pieces(s, sep).drop_last().push(pieces(s, sep).last() + word),
    decreases word.len(),
{
    crate::text::lemma_pieces_some(s, sep);
    if word.len() == 0 {
        assert(s + word =~= s);
        assert(pieces(s, sep).last() + word =~= pieces(s, sep).last());
        assert(pieces(s, sep).drop_last().push(pieces(s, sep).last()) =~= pieces(s, sep));
    } else {
        let before = word.drop_last();
        assert forall|i: int| 0 <= i < before.len() implies !sep.hits(#[trigger] before[i]) by {
            assert(before[i] == word[i]);
        }
        lemma_extended(s, before, sep);
        let whole = s + word;
        assert(whole.drop_last() =~= s + before);
        assert(whole.last() == word[word.len() - 1]);
        let last = pieces(s, sep).last();
        assert((last + before).push(word.last()) =~= last + word);
        let inner = pieces(s + before, sep);
        assert(inner.drop_last() =~= pieces(s, sep).drop_last());
    }
}

/// A text that ends in a separator, with a word after it: the word is one piece more.
proof fn lemma_next_word(s: Seq<char>, c: char, word: Seq<char>, sep: Separator)
    requires
        sep.hits(c),
        solid(word, sep),
    ensures
        pieces(s.push(c) + word, sep) == pieces(s, sep).push(word),
{
    lemma_separated(s, c, sep);
    lemma_extended(s.push(c), word, sep);
    let before = pieces(s, sep);
    assert(before.push(Seq::empty()).drop_last() =~= before);
    assert(Seq::<char>::empty() + word =~= word);
}

proof fn lemma_first_word(word: Seq<char>, sep: Separator)
    requires
        solid(word, sep),
    ensures
        pieces(word, sep) == seq![word],
{
    let none = Seq::<char>::empty();
    lemma_extended(none, word, sep);
    assert(none + word =~= word);
    assert(pieces(none, sep).drop_last().push(pieces(none, sep).last() + word) =~= seq![word]);
}

proof fn lemma_kept(parts: Seq<Seq<char>>, part: Seq<char>)
    ensures
        nonempty(parts.push(part)) == (if part.len() > 0 {
            nonempty(parts).push(part)
        } else {
            nonempty(parts)
        }),
{
    assert(parts.push(part).drop_last() =~= parts);
}

proof fn lemma_one_kept(part: Seq<char>)
    requires
        part.len() > 0,
    ensures
        nonempty(seq![part]) == seq![part],
{
    let none = Seq::<Seq<char>>::empty();
    lemma_kept(none, part);
    assert(none.push(part) =~= seq![part]);
    assert(nonempty(none) =~= none);
}

/// A text that neither starts nor ends with white space is trimmed.
proof fn lemma_tight(s: Seq<char>)
    requires
        s.len() > 0,
        !is_space(s[0]),
        !is_space(s.last()),
    ensures
        trimmed(s) == s,
{
    assert(trimmed_end(s) == s);
    assert(trimmed_start(s) == s);
}

// ---- ahead and behind ----

/// What `git rev-list --left-right --count` prints.
pub open spec fn counts_line(behind: u32, ahead: u32) -> Seq<char> {
    (decimal(behind as nat).push('\t') + decimal(ahead as nat)).push('\n')
}

/// The two counts that `git rev-list --left-right --count` prints are read back, the commits
/// behind first. A text of which no word is a number tells no counts.
pub proof fn law_counts_are_read_back(behind: u32, ahead: u32, other: Seq<char>)
    requires
        forall|i: int|
            #![trigger word_number(nonempty(pieces(other, Separator::Space)), i)]
            0 <= i < nonempty(pieces(other, Separator::Space)).len() ==> parsed(
                nonempty(pieces(other, Separator::Space))[i],
                u32::MAX as nat,
            ) is None,
    ensures
        word_number(nonempty(pieces(counts_line(behind, ahead), Separator::Space)), 0) == Some(
            behind,
        ),
        word_number(nonempty(pieces(counts_line(behind, ahead), Separator::Space)), 1) == Some(
            ahead,
        ),
        word_number(nonempty(pieces(other, Separator::Space)), 0) is None,
        word_number(nonempty(pieces(other, Separator::Space)), 1) is None,
{
    let sep = Separator::Space;
    let b = decimal(behind as nat);
    let a = decimal(ahead as nat);
    lemma_decimal(behind as nat);
    lemma_decimal(ahead as nat);
    lemma_decimal_solid(behind as nat);
    lemma_decimal_solid(ahead as nat);
    lemma_first_word(b, sep);
    lemma_next_word(b, '\t', a, sep);
    lemma_separated(b.push('\t') + a, '\n', sep);
    lemma_one_kept(b);
    lemma_kept(seq![b], a);
    lemma_kept(seq![b].push(a), Seq::empty());
    lemma_parsed(behind);
    lemma_parsed(ahead);
    assert(nonempty(pieces(counts_line(behind, ahead), sep)) == seq![b].push(a));
}

/// A part of a track value: a label and a count.
pub open spec fn track_part(label: Seq<char>, count: u32) -> Seq<char> {
    label.push(' ') + decimal(count as nat)
}

proof fn lemma_part(label: Seq<char>, count: u32)
    requires
        label.len() > 0,
        solid(label, Separator::CommaOrBlank),
        !is_space(label[0]),
    ensures
        trimmed(track_part(label, count)) == track_part(label, count),
        track_part(label, count).len() > label.len(),
        pieces(track_part(label, count), Separator::CommaOrBlank) == seq![
            label,
            decimal(count as nat),
        ],
        nonempty(pieces(track_part(label, count), Separator::CommaOrBlank)) == seq![
            label,
            decimal(count as nat),
        ],
        word_number(seq![label, decimal(count as nat)], 1) == Some(count),
{
    let sep = Separator::CommaOrBlank;
    let n = decimal(count as nat);
    lemma_decimal(count as nat);
    lemma_decimal_solid(count as nat);
    lemma_first_word(label, sep);
    lemma_next_word(label, ' ', n, sep);
    assert(seq![label].push(n) =~= seq![label, n]);
    lemma_one_kept(label);
    lemma_kept(seq![label], n);
    lemma_parsed(count);
    let text = track_part(label, count);
    assert(text[0] == label[0]);
    assert(text.last() == n.last());
    assert(is_digit(n[n.len() - 1]));
    lemma_tight(text);
}

/// The counts that a track value names are read back; a count that it does not name is zero.
pub proof fn law_track_is_read_back(upstream: Seq<char>, ahead: u32, behind: u32)
    requires
        !is_blank(upstream),
    ensures
        track_of(
            upstream,
            track_part("ahead"@, ahead) + ", "@ + track_part("behind"@, behind),
        ) == (Some(ahead), Some(behind)),
        track_of(upstream, track_part("ahead"@, ahead)) == (Some(ahead), Some(0u32)),
        track_of(upstream, track_part("behind"@, behind)) == (Some(0u32), Some(behind)),
{
    reveal_strlit("ahead");
    reveal_strlit("behind");
    reveal_strlit("gone");
    reveal_strlit(", ");
    assert("ahead"@[0] == 'a' && "behind"@[0] == 'b' && "gone"@[0] == 'g');
    lemma_part("ahead"@, ahead);
    lemma_part("behind"@, behind);
    reveal_with_fuel(track_counts, 4);
    let one = track_part("ahead"@, ahead);
    let two = track_part("behind"@, behind);
    assert(one[0] == 'a');
    assert(two[0] == 'b');
    lemma_both(ahead, behind);
}

proof fn lemma_both(ahead: u32, behind: u32)
    ensures
        ({
            let text = track_part("ahead"@, ahead) + ", "@ + track_part("behind"@, behind);
            &&& trimmed(text) == text
            &&& text.len() > 0
            &&& text[0] == 'a'
            &&& track_counts(nonempty(pieces(text, Separator::CommaOrBlank)), 0, 0, 0) == (
                ahead,
                behind,
            )
        }),
{
    reveal_strlit("ahead");
    reveal_strlit("behind");
    reveal_strlit(", ");
    let sep = Separator::CommaOrBlank;
    let one = track_part("ahead"@, ahead);
    let two = track_part("behind"@, behind);
    let n = decimal(ahead as nat);
    let m = decimal(behind as nat);
    lemma_part("ahead"@, ahead);
    lemma_part("behind"@, behind);
    lemma_decimal(ahead as nat);
    lemma_decimal(behind as nat);
    lemma_decimal_solid(behind as nat);
    lemma_parsed(ahead);
    lemma_parsed(behind);
    let text = one + ", "@ + two;
    assert(text =~= ((one.push(',').push(' ') + "behind"@).push(' ') + m));
    lemma_separated(one, ',', sep);
    lemma_next_word(one.push(','), ' ', "behind"@, sep);
    lemma_next_word(one.push(',').push(' ') + "behind"@, ' ', m, sep);
    let none = Seq::<char>::empty();
    let first = seq!["ahead"@, n];
    lemma_kept(first, none);
    lemma_kept(first.push(none), "behind"@);
    lemma_kept(first.push(none).push("behind"@), m);
    let words = first.push("behind"@).push(m);
    assert(nonempty(pieces(text, sep)) == words);
    assert(words[0] == "ahead"@ && words[1] == n && words[2] == "behind"@ && words[3] == m);
    assert("behind"@[0] != "ahead"@[0]);
    reveal_with_fuel(track_counts, 4);
    assert(text[0] == one[0]);
    assert(text.last() == m.last());
    assert(is_digit(m[m.len() - 1]));
    lemma_tight(text);
}

} // verus!
