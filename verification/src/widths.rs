//! Fitting text into columns.

use vstd::prelude::*;
use vstd::string::*;

use crate::screen::{Line, SpanView};
use crate::text::{chars_of, copies, repeat_char, text_between};

verus! {

// ---- trusted width tables ----

/// The columns that `UnicodeWidthStr::width` gives a text.
pub uninterp spec fn shown_width(text: Seq<char>) -> usize;

/// The columns that `UnicodeWidthChar::width` gives a character, if any.
pub uninterp spec fn char_width(c: char) -> Option<usize>;

/// A character that is a single printable ASCII one.
pub open spec fn printable(c: char) -> bool {
    0x20 <= c as int && (c as int) < 0x7f
}

/// Calls `UnicodeWidthStr::width` of `unicode-width`. The contract names the result, and says
/// that printable ASCII takes one column for each character.
#[verifier::external_body]
pub(crate) fn width_of(text: &str) -> (res: usize)
    ensures
        res == shown_width(text@),
        (forall|i: int| 0 <= i < text@.len() ==> printable(#[trigger] text@[i])) ==> res
            == text@.len(),
{
    unicode_width::UnicodeWidthStr::width(text)
}

/// Calls `UnicodeWidthChar::width` of `unicode-width`. The contract names the result, and says
/// that control characters, and only those, have no width, that printable ASCII is one column
/// wide, and that no character is wider than three.
#[verifier::external_body]
pub(crate) fn width_of_char(c: char) -> (res: Option<usize>)
    ensures
        res == char_width(c),
        res is None <==> (c as int) < 0x20 || 0x7f <= c as int && (c as int) < 0xa0,
        printable(c) ==> res == Some(1usize),
        res is Some ==> res->0 <= 3,
{
    unicode_width::UnicodeWidthChar::width(c)
}

// ---- columns of characters ----

/// The columns that a character is counted with; a control character counts as one.
pub open spec fn cells(c: char) -> nat {
    match char_width(c) {
        Some(width) => width as nat,
        None => 1,
    }
}

pub(crate) fn cells_of(c: char) -> (res: usize)
    ensures
        res == cells(c),
        res <= 3,
{
    match width_of_char(c) {
        Some(width) => width,
        None => 1,
    }
}

/// The columns of the characters of a text, one by one.
pub open spec fn columns(text: Seq<char>) -> nat
    decreases text.len(),
{
    if text.len() == 0 {
        0
    } else {
        columns(text.drop_last()) + cells(text.last())
    }
}

proof fn lemma_columns_one(c: char)
    ensures
        columns(seq![c]) == cells(c),
{
    reveal_with_fuel(columns, 2);
    assert(seq![c].drop_last() =~= Seq::<char>::empty());
}

// ---- padding ----

/// A text with blanks after it up to a display width.
pub open spec fn filled(text: Seq<char>, width: usize) -> Seq<char> {
    if shown_width(text) >= width {
        text
    } else {
        text + copies(' ', (width - shown_width(text)) as nat)
    }
}

/// Pads with trailing blanks until the display width reaches `width` (width-aware, so that
/// double-width glyphs don't shift the columns that follow).
pub fn pad_display(text: &str, width: usize) -> (res: String)
    ensures
        res@ == filled(text@, width),
{
    let current: usize = width_of(text);
    if current >= width {
        text.to_owned()
    } else {
        text.to_owned().concat(repeat_char(' ', width - current).as_str())
    }
}

// ---- truncating ----

/// How many characters from `i` on fit, where `used` columns are taken, one is kept free and
/// there are `max`; counted from the start of the text.
pub open spec fn fits_from(text: Seq<char>, i: int, used: nat, max: nat) -> int
    decreases text.len() - i,
{
    if i < 0 || i >= text.len() {
        i
    } else if used + cells(text[i]) + 1 > max {
        i
    } else {
        fits_from(text, i + 1, used + cells(text[i]), max)
    }
}

/// A text cut at its end to a display width, with an ellipsis where something was cut.
pub open spec fn cut_right(text: Seq<char>, max: usize) -> Seq<char> {
    let n = fits_from(text, 0, 0, max as nat);
    if shown_width(text) <= max || n >= text.len() {
        text
    } else {
        text.take(n).push('…')
    }
}

/// Truncates a text to a display width, with an ellipsis at its end.
pub fn truncate_str(text: &str, max: usize) -> (res: String)
    ensures
        res@ == cut_right(text@, max),
{
    if width_of(text) <= max {
        return text.to_owned();
    }
    let chars = chars_of(text);
    let mut out = String::new();
    let mut used: usize = 0;
    let mut i: usize = 0;
    while i < chars.len()
        invariant
            chars@ == text@,
            i <= chars@.len(),
            used <= max,
            shown_width(text@) > max,
            out@ =~= chars@.take(i as int),
            fits_from(chars@, 0, 0, max as nat) == fits_from(
                chars@,
                i as int,
                used as nat,
                max as nat,
            ),
        decreases chars@.len() - i,
    {
        let width: usize = cells_of(chars[i]);
        if width as u128 + used as u128 + 1 > max as u128 {
            out.push('…');
            return out;
        }
        out.push(chars[i]);
        used += width;
        i += 1;
    }
    assert(chars@.take(chars@.len() as int) =~= chars@);
    out
}

/// The first of the characters before `i` that still fit, read from the end, where `used`
/// columns are taken, one is kept free and there are `max`.
pub open spec fn fits_back(text: Seq<char>, i: int, used: nat, max: nat) -> int
    decreases i,
{
    if i <= 0 || i > text.len() {
        i
    } else if used + cells(text[i - 1]) + 1 > max {
        i
    } else {
        fits_back(text, i - 1, used + cells(text[i - 1]), max)
    }
}

/// A text cut at its start to a display width, after an ellipsis.
pub open spec fn cut_left(text: Seq<char>, max: usize) -> Seq<char> {
    if shown_width(text) <= max {
        text
    } else {
        seq!['…'] + text.skip(fits_back(text, text.len() as int, 0, max as nat))
    }
}

/// Truncate from the *left*, keeping the tail (a leading `…`). For file paths the filename at
/// the end is the informative part.
pub fn truncate_left(text: &str, max: usize) -> (res: String)
    ensures
        res@ == cut_left(text@, max),
{
    if width_of(text) <= max {
        return text.to_owned();
    }
    let chars = chars_of(text);
    let mut used: usize = 0;
    let mut i: usize = chars.len();
    while i > 0
        invariant_except_break
            chars@ == text@,
            i <= chars@.len(),
            used <= max,
            fits_back(chars@, chars@.len() as int, 0, max as nat) == fits_back(
                chars@,
                i as int,
                used as nat,
                max as nat,
            ),
        ensures
            i <= chars@.len(),
            i as int == fits_back(chars@, chars@.len() as int, 0, max as nat),
        decreases i,
    {
        let width: usize = cells_of(chars[i - 1]);
        if width as u128 + used as u128 + 1 > max as u128 {
            break;
        }
        used += width;
        i -= 1;
    }
    let mut out = String::new();
    out.push('…');
    let tail = text_between(&chars, i, chars.len());
    assert(out@ =~= seq!['…']);
    assert(chars@.subrange(i as int, chars@.len() as int) =~= text@.skip(i as int));
    out.concat(tail.as_str())
}

proof fn lemma_fits_from(text: Seq<char>, i: int, used: nat, max: nat)
    requires
        0 <= i <= text.len(),
        used == columns(text.take(i)),
        i > 0 ==> used + 1 <= max,
    ensures
        i <= fits_from(text, i, used, max) <= text.len(),
        fits_from(text, i, used, max) > 0 ==> columns(
            text.take(fits_from(text, i, used, max)),
        ) + 1 <= max,
    decreases text.len() - i,
{
    if i < text.len() && used + cells(text[i]) + 1 <= max {
        assert(text.take(i + 1).drop_last() =~= text.take(i));
        lemma_fits_from(text, i + 1, used + cells(text[i]), max);
    }
}

/// A text that is truncated at its end keeps its start; what is kept, with a column for the
/// ellipsis, fits.
pub proof fn law_truncated_text_fits(text: Seq<char>, max: usize)
    requires
        cut_right(text, max) != text,
    ensures
        exists|n: int|
            0 <= n < text.len() && #[trigger] cut_right(text, max) == text.take(n).push('…') && (n
                > 0 ==> columns(text.take(n)) + 1 <= max),
{
    assert(text.take(0) =~= Seq::<char>::empty());
    lemma_fits_from(text, 0, 0, max as nat);
    let n = fits_from(text, 0, 0, max as nat);
    assert(cut_right(text, max) == text.take(n).push('…'));
}

proof fn lemma_columns_add(a: Seq<char>, b: Seq<char>)
    ensures
        columns(a + b) == columns(a) + columns(b),
    decreases b.len(),
{
    if b.len() == 0 {
        assert(a + b =~= a);
    } else {
        assert((a + b).drop_last() =~= a + b.drop_last());
        lemma_columns_add(a, b.drop_last());
    }
}

proof fn lemma_fits_back(text: Seq<char>, i: int, used: nat, max: nat)
    requires
        0 <= i <= text.len(),
        used == columns(text.skip(i)),
        i < text.len() ==> used + 1 <= max,
    ensures
        0 <= fits_back(text, i, used, max) <= i,
        fits_back(text, i, used, max) < text.len() ==> columns(
            text.skip(fits_back(text, i, used, max)),
        ) + 1 <= max,
    decreases i,
{
    if i > 0 && used + cells(text[i - 1]) + 1 <= max {
        let one = seq![text[i - 1]];
        assert(text.skip(i - 1) =~= one + text.skip(i));
        lemma_columns_add(one, text.skip(i));
        lemma_columns_one(text[i - 1]);
        lemma_fits_back(text, i - 1, used + cells(text[i - 1]), max);
    }
}

/// A text that is truncated at its start keeps its end, which fits with a column for the
/// ellipsis.
pub proof fn law_left_truncated_text_keeps_its_tail(text: Seq<char>, max: usize)
    requires
        shown_width(text) > max,
    ensures
        exists|n: int|
            0 <= n <= text.len() && #[trigger] cut_left(text, max) == seq!['…'] + text.skip(n)
                && (n < text.len() ==> columns(text.skip(n)) + 1 <= max),
{
    assert(text.skip(text.len() as int) =~= Seq::<char>::empty());
    lemma_fits_back(text, text.len() as int, 0, max as nat);
    let n = fits_back(text, text.len() as int, 0, max as nat);
    assert(cut_left(text, max) == seq!['…'] + text.skip(n));
}

// ---- clipping ----

/// The columns that a character takes; a control character takes none.
pub open spec fn solid_cells(c: char) -> nat {
    match char_width(c) {
        Some(width) => width as nat,
        None => 0,
    }
}

/// The end of what fits into `max` columns from character `i` on, where `used` are taken.
pub open spec fn clip_end(text: Seq<char>, i: int, used: nat, max: nat) -> int
    decreases text.len() - i,
{
    if i < 0 || i >= text.len() {
        i
    } else if used + solid_cells(text[i]) > max {
        i
    } else {
        clip_end(text, i + 1, used + solid_cells(text[i]), max)
    }
}

/// The start of a text that fits into `max` columns.
pub open spec fn clipped(text: Seq<char>, max: usize) -> Seq<char> {
    text.take(clip_end(text, 0, 0, max as nat))
}

/// Clip a string to at most `max` display cells (no ellipsis appended).
pub fn clip_to_width(text: &str, max: usize) -> (res: String)
    ensures
        res@ == clipped(text@, max),
{
    let chars = chars_of(text);
    let mut out = String::new();
    let mut used: usize = 0;
    let mut i: usize = 0;
    while i < chars.len()
        invariant
            chars@ == text@,
            i <= chars@.len(),
            used <= max,
            out@ =~= chars@.take(i as int),
            clip_end(chars@, 0, 0, max as nat) == clip_end(
                chars@,
                i as int,
                used as nat,
                max as nat,
            ),
        decreases chars@.len() - i,
    {
        let width: usize = match width_of_char(chars[i]) {
            Some(width) => width,
            None => 0,
        };
        if width as u128 + used as u128 > max as u128 {
            return out;
        }
        used += width;
        out.push(chars[i]);
        i += 1;
    }
    out
}

/// The spans from `i` on that fit into `max` columns, where `used` are taken; the one that
/// straddles the end is clipped.
pub open spec fn spans_within(spans: Seq<SpanView>, i: int, used: int, max: usize) -> Seq<SpanView>
    decreases spans.len() - i,
{
    if i < 0 || i >= spans.len() || used >= max {
        Seq::empty()
    } else if used + shown_width(spans[i].0) <= max {
        seq![spans[i]] + spans_within(spans, i + 1, used + shown_width(spans[i].0), max)
    } else {
        seq![(clipped(spans[i].0, (max - used) as usize), spans[i].1)]
    }
}

/// Clip a line to `max` display cells, truncating the span that straddles the boundary.
pub fn clip_spans(line: &Line, max: usize) -> (res: Line)
    ensures
        res@ == spans_within(line@, 0, 0, max),
{
    let mut out = Line::new();
    let mut used: usize = 0;
    let mut i: usize = 0;
    while i < line.spans.len()
        invariant
            i <= line.spans@.len(),
            used <= max,
            out@ + spans_within(line@, i as int, used as int, max) =~= spans_within(
                line@,
                0,
                0,
                max,
            ),
        decreases line.spans@.len() - i,
    {
        if used >= max {
            return out;
        }
        let span = &line.spans[i];
        assert(line@[i as int] == (span.content@, span.style));
        let width: usize = width_of(span.content.as_str());
        if used as u128 + width as u128 <= max as u128 {
            out.push(span.content.as_str(), span.style);
            used += width;
        } else {
            let text = clip_to_width(span.content.as_str(), max - used);
            out.push(text.as_str(), span.style);
            return out;
        }
        i += 1;
    }
    out
}

// ---- the width of a line ----

/// The columns of the first `n` spans of a line.
pub open spec fn spans_width(spans: Seq<SpanView>, n: nat) -> int
    decreases n,
{
    if n == 0 || n > spans.len() {
        0
    } else {
        spans_width(spans, (n - 1) as nat) + shown_width(spans[n - 1].0)
    }
}

/// The columns of a line.
pub open spec fn line_width(spans: Seq<SpanView>) -> int {
    spans_width(spans, spans.len())
}

/// A number of columns as far as it can be counted.
pub open spec fn counted(n: int) -> usize {
    if n > usize::MAX {
        usize::MAX
    } else {
        n as usize
    }
}

proof fn lemma_spans_width(spans: Seq<SpanView>, n: nat, m: nat)
    requires
        n <= m <= spans.len(),
    ensures
        0 <= spans_width(spans, n) <= spans_width(spans, m),
    decreases m,
{
    if n < m {
        lemma_spans_width(spans, n, (m - 1) as nat);
    } else if n > 0 {
        lemma_spans_width(spans, (n - 1) as nat, (m - 1) as nat);
    }
}

/// The columns of a line, as far as they can be counted.
pub fn width_of_line(line: &Line) -> (res: usize)
    ensures
        res == counted(line_width(line@)),
{
    let mut sum: usize = 0;
    let mut i: usize = 0;
    while i < line.spans.len()
        invariant
            i <= line.spans@.len(),
            sum == counted(spans_width(line@, i as nat)),
        decreases line.spans@.len() - i,
    {
        let width: usize = width_of(line.spans[i].content.as_str());
        proof {
            assert(line@[i as int] == (line.spans@[i as int].content@, line.spans@[i as int].style));
            lemma_spans_width(line@, i as nat, (i + 1) as nat);
            assert(spans_width(line@, (i + 1) as nat) == spans_width(line@, i as nat)
                + shown_width(line@[i as int].0));
        }
        sum = sum.saturating_add(width);
        i += 1;
    }
    sum
}

// ---- wrapping ----

/// The chunks of a text from character `i` on, where `current` is the chunk at hand with `used`
/// columns.
pub open spec fn chunks_from(
    text: Seq<char>,
    i: int,
    current: Seq<char>,
    used: nat,
    width: nat,
) -> Seq<Seq<char>>
    decreases text.len() - i,
{
    if i < 0 || i >= text.len() {
        if current.len() > 0 {
            seq![current]
        } else {
            Seq::empty()
        }
    } else if used + cells(text[i]) > width && current.len() > 0 {
        seq![current] + chunks_from(text, i + 1, seq![text[i]], cells(text[i]), width)
    } else {
        chunks_from(text, i + 1, current.push(text[i]), used + cells(text[i]), width)
    }
}

/// A text in chunks of at most `width` columns; a character that is wider stands alone.
pub open spec fn wrapped(text: Seq<char>, width: usize) -> Seq<Seq<char>> {
    if width == 0 || text.len() == 0 {
        seq![text]
    } else {
        chunks_from(text, 0, Seq::empty(), 0, width as nat)
    }
}

/// Split `text` into chunks of at most `width` display columns, on char boundaries.
pub fn wrap_chars(text: &str, width: usize) -> (res: Vec<String>)
    ensures
        res.deep_view() == wrapped(text@, width),
{
    let chars = chars_of(text);
    let mut chunks: Vec<String> = Vec::new();
    if width == 0 || chars.len() == 0 {
        chunks.push(text.to_owned());
        assert(chunks.deep_view() =~= wrapped(text@, width));
        return chunks;
    }
    let mut current = String::new();
    let mut used: usize = 0;
    let mut i: usize = 0;
    while i < chars.len()
        invariant
            chars@ == text@,
            i <= chars@.len(),
            current@.len() == 0 ==> used == 0,
            used <= width || used <= 3,
            chunks.deep_view() + chunks_from(
                chars@,
                i as int,
                current@,
                used as nat,
                width as nat,
            ) =~= chunks_from(chars@, 0, Seq::empty(), 0, width as nat),
        decreases chars@.len() - i,
    {
        let cell: usize = cells_of(chars[i]);
        let ghost before = chunks.deep_view();
        if used as u128 + cell as u128 > width as u128 && !current.as_str().is_empty() {
            let ghost done = current@;
            chunks.push(current);
            assert(chunks.deep_view() =~= before.push(done));
            current = String::new();
            current.push(chars[i]);
            assert(current@ =~= seq![chars@[i as int]]);
            used = cell;
        } else {
            current.push(chars[i]);
            used = used + cell;
        }
        i += 1;
    }
    let ghost before = chunks.deep_view();
    if !current.as_str().is_empty() {
        let ghost done = current@;
        chunks.push(current);
        assert(chunks.deep_view() =~= before.push(done));
    }
    chunks
}

/// All chunks in a row.
pub open spec fn rejoined(chunks: Seq<Seq<char>>) -> Seq<char>
    decreases chunks.len(),
{
    if chunks.len() == 0 {
        Seq::empty()
    } else {
        chunks.first() + rejoined(chunks.drop_first())
    }
}

proof fn lemma_rejoined_cons(first: Seq<char>, rest: Seq<Seq<char>>)
    ensures
        rejoined(seq![first] + rest) == first + rejoined(rest),
{
    assert((seq![first] + rest).drop_first() =~= rest);
}

proof fn lemma_chunks(text: Seq<char>, i: int, current: Seq<char>, used: nat, width: nat)
    requires
        0 <= i <= text.len(),
    ensures
        rejoined(chunks_from(text, i, current, used, width)) =~= current + text.skip(i),
    decreases text.len() - i,
{
    if i >= text.len() {
        if current.len() > 0 {
            lemma_rejoined_cons(current, Seq::empty());
            assert(seq![current] + Seq::<Seq<char>>::empty() =~= seq![current]);
        }
    } else if used + cells(text[i]) > width && current.len() > 0 {
        lemma_chunks(text, i + 1, seq![text[i]], cells(text[i]), width);
        lemma_rejoined_cons(
            current,
            chunks_from(text, i + 1, seq![text[i]], cells(text[i]), width),
        );
    } else {
        lemma_chunks(text, i + 1, current.push(text[i]), used + cells(text[i]), width);
    }
}

/// Wrapping loses nothing: the chunks in a row are the text.
pub proof fn law_wrapping_keeps_the_text(text: Seq<char>, width: usize)
    ensures
        rejoined(wrapped(text, width)) == text,
{
    lemma_rejoined_cons(text, Seq::empty());
    assert(seq![text] + Seq::<Seq<char>>::empty() =~= seq![text]);
    lemma_chunks(text, 0, Seq::empty(), 0, width as nat);
}

/// Every chunk fits a width, but for one character that is wider by itself.
pub open spec fn all_fit(chunks: Seq<Seq<char>>, width: nat) -> bool {
    forall|k: int|
        0 <= k < chunks.len() ==> columns(#[trigger] chunks[k]) <= width || chunks[k].len() == 1
}

proof fn lemma_chunks_fit(text: Seq<char>, i: int, current: Seq<char>, used: nat, width: nat)
    requires
        0 <= i <= text.len(),
        used == columns(current),
        used <= width || current.len() <= 1,
    ensures
        all_fit(chunks_from(text, i, current, used, width), width),
    decreases text.len() - i,
{
    if i < text.len() {
        if used + cells(text[i]) > width && current.len() > 0 {
            lemma_columns_one(text[i]);
            lemma_chunks_fit(text, i + 1, seq![text[i]], cells(text[i]), width);
            let rest = chunks_from(text, i + 1, seq![text[i]], cells(text[i]), width);
            let all = seq![current] + rest;
            assert forall|k: int| 0 <= k < all.len() implies columns(#[trigger] all[k]) <= width
                || all[k].len() == 1 by {
                if k > 0 {
                    assert(all[k] == rest[k - 1]);
                }
            }
        } else {
            assert(current.push(text[i]).drop_last() =~= current);
            lemma_chunks_fit(text, i + 1, current.push(text[i]), used + cells(text[i]), width);
        }
    }
}

/// Every chunk of a wrapped text fits the width, but for one character that is wider by itself.
pub proof fn law_wrapped_chunks_fit(text: Seq<char>, width: usize)
    requires
        width > 0,
    ensures
        all_fit(wrapped(text, width), width as nat),
{
    lemma_chunks_fit(text, 0, Seq::empty(), 0, width as nat);
}

// ---- wrapping at separators ----

/// A character after which a link may be broken.
pub open spec fn breaks_link(c: char) -> bool {
    c == '/' || c == '-' || c == '.' || c == ':' || c == '_' || c == '@'
}

fn is_link_break(c: char) -> (res: bool)
    ensures
        res == breaks_link(c),
{
    c == '/' || c == '-' || c == '.' || c == ':' || c == '_' || c == '@'
}

/// The end of the characters from `i` on that fit into `width` columns, where `used` are taken.
pub open spec fn fit_end(text: Seq<char>, i: int, used: nat, width: nat) -> int
    decreases text.len() - i,
{
    if i < 0 || i >= text.len() {
        i
    } else if used + cells(text[i]) > width {
        i
    } else {
        fit_end(text, i + 1, used + cells(text[i]), width)
    }
}

/// The end of a line that runs from `start` up to `end`: after the last separator in it but
/// for its first character, or `end` where there is none.
pub open spec fn break_before(text: Seq<char>, start: int, end: int, at: int) -> int
    decreases at - start,
{
    if at <= start + 1 {
        end
    } else if breaks_link(text[at - 1]) {
        at
    } else {
        break_before(text, start, end, at - 1)
    }
}

/// Where the line that starts at `start` ends; at least one character stands on it.
pub open spec fn link_break(text: Seq<char>, start: int, width: nat) -> int {
    let end = fit_end(text, start, 0, width);
    if end >= text.len() {
        text.len() as int
    } else if end <= start {
        start + 1
    } else {
        break_before(text, start, end, end)
    }
}

proof fn lemma_fit_end(text: Seq<char>, i: int, used: nat, width: nat)
    requires
        0 <= i <= text.len(),
    ensures
        i <= fit_end(text, i, used, width) <= text.len(),
    decreases text.len() - i,
{
    if i < text.len() && used + cells(text[i]) <= width {
        lemma_fit_end(text, i + 1, used + cells(text[i]), width);
    }
}

proof fn lemma_break_before(text: Seq<char>, start: int, end: int, at: int)
    requires
        start < at <= end,
    ensures
        start < break_before(text, start, end, at) <= end,
    decreases at - start,
{
    if at > start + 1 && !breaks_link(text[at - 1]) {
        lemma_break_before(text, start, end, at - 1);
    }
}

/// A line of a wrapped link holds at least one character.
pub proof fn lemma_link_break(text: Seq<char>, start: int, width: nat)
    requires
        0 <= start < text.len(),
    ensures
        start < link_break(text, start, width) <= text.len(),
{
    lemma_fit_end(text, start, 0, width);
    let end = fit_end(text, start, 0, width);
    if start < end {
        lemma_break_before(text, start, end, end);
    }
}

/// The lines of a link from character `start` on.
pub open spec fn link_lines(text: Seq<char>, start: int, width: nat) -> Seq<Seq<char>>
    decreases text.len() - start,
{
    if start < 0 || start >= text.len() {
        Seq::empty()
    } else {
        proof {
            lemma_link_break(text, start, width);
        }
        let end = link_break(text, start, width);
        seq![text.subrange(start, end)] + link_lines(text, end, width)
    }
}

/// A link in lines of at most `width` columns, broken after separators where it can be.
pub open spec fn wrapped_link(text: Seq<char>, width: usize) -> Seq<Seq<char>> {
    if width == 0 || text.len() == 0 {
        seq![text]
    } else {
        link_lines(text, 0, width as nat)
    }
}

fn find_link_break(chars: &Vec<char>, start: usize, width: usize) -> (res: usize)
    requires
        start < chars@.len(),
    ensures
        res == link_break(chars@, start as int, width as nat),
        start < res <= chars@.len(),
{
    proof {
        lemma_link_break(chars@, start as int, width as nat);
        lemma_fit_end(chars@, start as int, 0, width as nat);
    }
    let mut end: usize = start;
    let mut used: usize = 0;
    while end < chars.len()
        invariant_except_break
            start <= end <= chars@.len(),
            used <= width,
            fit_end(chars@, start as int, 0, width as nat) == fit_end(
                chars@,
                end as int,
                used as nat,
                width as nat,
            ),
        ensures
            start <= end <= chars@.len(),
            end == fit_end(chars@, start as int, 0, width as nat),
        decreases chars@.len() - end,
    {
        let cell: usize = cells_of(chars[end]);
        if used as u128 + cell as u128 > width as u128 {
            break;
        }
        used += cell;
        end += 1;
    }
    if end >= chars.len() {
        return chars.len();
    }
    if end <= start {
        return start + 1;
    }
    let mut at: usize = end;
    while at > start + 1
        invariant
            start < at <= end < chars@.len(),
            break_before(chars@, start as int, end as int, end as int) == break_before(
                chars@,
                start as int,
                end as int,
                at as int,
            ),
            link_break(chars@, start as int, width as nat) == break_before(
                chars@,
                start as int,
                end as int,
                end as int,
            ),
        decreases at,
    {
        if is_link_break(chars[at - 1]) {
            return at;
        }
        at -= 1;
    }
    end
}

/// Wrap a link / URL across `width`-wide lines, preferring to break right AFTER a separator
/// (`/ - . : _ @`) so it splits at natural boundaries; falls back to a hard char break when no
/// separator fits on the line. A character that is wider than the line stands alone.
pub fn wrap_link(text: &str, width: usize) -> (res: Vec<String>)
    ensures
        res.deep_view() == wrapped_link(text@, width),
{
    let chars = chars_of(text);
    let mut lines: Vec<String> = Vec::new();
    if width == 0 || chars.len() == 0 {
        lines.push(text.to_owned());
        assert(lines.deep_view() =~= wrapped_link(text@, width));
        return lines;
    }
    let mut start: usize = 0;
    while start < chars.len()
        invariant
            chars@ == text@,
            start <= chars@.len(),
            lines.deep_view() + link_lines(chars@, start as int, width as nat) =~= link_lines(
                chars@,
                0,
                width as nat,
            ),
        decreases chars@.len() - start,
    {
        let end: usize = find_link_break(&chars, start, width);
        let ghost before = lines.deep_view();
        let piece = text_between(&chars, start, end);
        let ghost shown = piece@;
        lines.push(piece);
        assert(lines.deep_view() =~= before.push(shown));
        start = end;
    }
    lines
}

proof fn lemma_link_lines(text: Seq<char>, start: int, width: nat)
    requires
        0 <= start <= text.len(),
    ensures
        rejoined(link_lines(text, start, width)) =~= text.skip(start),
    decreases text.len() - start,
{
    if start < text.len() {
        lemma_link_break(text, start, width);
        let end = link_break(text, start, width);
        lemma_link_lines(text, end, width);
        lemma_rejoined_cons(text.subrange(start, end), link_lines(text, end, width));
    }
}

/// Wrapping a link loses nothing: the lines in a row are the link.
pub proof fn law_wrapped_links_keep_the_text(text: Seq<char>, width: usize)
    ensures
        rejoined(wrapped_link(text, width)) == text,
{
    lemma_rejoined_cons(text, Seq::empty());
    assert(seq![text] + Seq::<Seq<char>>::empty() =~= seq![text]);
    lemma_link_lines(text, 0, width as nat);
}

proof fn lemma_columns_prefix(text: Seq<char>, n: int)
    requires
        0 <= n <= text.len(),
    ensures
        columns(text.take(n)) <= columns(text),
    decreases text.len(),
{
    if n < text.len() {
        assert(text.drop_last().take(n) =~= text.take(n));
        lemma_columns_prefix(text.drop_last(), n);
    } else {
        assert(text.take(n) =~= text);
    }
}

proof fn lemma_fit_end_columns(text: Seq<char>, start: int, i: int, used: nat, width: nat)
    requires
        0 <= start <= i <= text.len(),
        used == columns(text.subrange(start, i)),
        used <= width,
    ensures
        columns(text.subrange(start, fit_end(text, i, used, width))) <= width,
    decreases text.len() - i,
{
    if i < text.len() && used + cells(text[i]) <= width {
        assert(text.subrange(start, i + 1).drop_last() =~= text.subrange(start, i));
        lemma_fit_end_columns(text, start, i + 1, used + cells(text[i]), width);
    }
}

proof fn lemma_link_lines_fit(text: Seq<char>, start: int, width: nat)
    requires
        0 <= start <= text.len(),
    ensures
        all_fit(link_lines(text, start, width), width),
    decreases text.len() - start,
{
    if start < text.len() {
        lemma_link_break(text, start, width);
        lemma_fit_end(text, start, 0, width);
        let end = link_break(text, start, width);
        let most = fit_end(text, start, 0, width);
        assert(text.subrange(start, start) =~= Seq::<char>::empty());
        lemma_fit_end_columns(text, start, start, 0, width);
        if most > start {
            if most < text.len() {
                lemma_break_before(text, start, most, most);
            }
            assert(text.subrange(start, most).take(end - start) =~= text.subrange(start, end));
            lemma_columns_prefix(text.subrange(start, most), end - start);
        }
        lemma_link_lines_fit(text, end, width);
        let rest = link_lines(text, end, width);
        let all = seq![text.subrange(start, end)] + rest;
        assert forall|k: int| 0 <= k < all.len() implies columns(#[trigger] all[k]) <= width
            || all[k].len() == 1 by {
            if k > 0 {
                assert(all[k] == rest[k - 1]);
            }
        }
    }
}

/// Every line of a wrapped link fits the width, but for one character that is wider by itself.
pub proof fn law_wrapped_links_fit(text: Seq<char>, width: usize)
    requires
        width > 0,
    ensures
        all_fit(wrapped_link(text, width), width as nat),
{
    if text.len() == 0 {
        assert(columns(text) == 0);
    } else {
        lemma_link_lines_fit(text, 0, width as nat);
    }
}

} // verus!
