//! Replacing a range of a text given in (line, UTF-16 column) positions, and
//! the pair of replacements that undo and redo it.
use vstd::prelude::*;

use crate::text_buffer::TextBuffer;
use crate::text_lines::{line_content_end, line_count, line_start, line_starts, newline_count};
use crate::text_metrics::{
    Encoding, chars_fit_count, chars_width, fit_count, fits_usize, lemma_fit_count,
    lemma_len_le_utf8, push_chars, sat_add, str_chars, string_from_chars, utf16_len, utf16_width,
    utf8_len,
};
use crate::virtual_text::line_column_char_index;

verus! {

/// Replace the text between two (line, UTF-16 column) positions, given in
/// either order, with `replacement`.
#[derive(Debug, Clone, PartialEq, Eq)]
pub struct TextRangeReplacement {
    pub start_line: usize,
    pub start_column_utf16: usize,
    pub end_line: usize,
    pub end_column_utf16: usize,
    pub replacement: String,
}

/// The replacement that takes an edit back, and the one that makes it again.
#[derive(Debug, Clone, PartialEq, Eq)]
pub struct TextRangeHistoryEntry {
    pub undo: TextRangeReplacement,
    pub redo: TextRangeReplacement,
}

/// The text after an edit, and how to undo and redo the edit.
#[derive(Debug, Clone, PartialEq, Eq)]
pub struct TextRangeEditOutcome {
    pub next_text: String,
    pub history: TextRangeHistoryEntry,
}

/// The character index of (`line`, `col`), or `None` past the last line.
pub open spec fn position_char_index(s: Seq<char>, line: int, col: int) -> Option<int> {
    if 0 <= line < line_count(s) {
        Some(line_column_char_index(s, line, col))
    } else {
        None
    }
}

/// The character range a replacement covers, earlier end first, and whether
/// its end position came first.
pub open spec fn replacement_range(s: Seq<char>, r: TextRangeReplacement) -> Option<(int, int, bool)> {
    match (
        position_char_index(s, r.start_line as int, r.start_column_utf16 as int),
        position_char_index(s, r.end_line as int, r.end_column_utf16 as int),
    ) {
        (Some(a), Some(b)) => if a <= b {
            Some((a, b, false))
        } else {
            Some((b, a, true))
        },
        _ => None,
    }
}

/// The replacement changes something: both positions exist, and it does not
/// insert nothing into an empty range.
pub open spec fn edit_applies(s: Seq<char>, r: TextRangeReplacement) -> bool {
    replacement_range(s, r) matches Some(t) && !(t.0 == t.1 && r.replacement@.len() == 0)
}

/// The text once the replacement is made.
pub open spec fn edited_text(s: Seq<char>, r: TextRangeReplacement) -> Seq<char> {
    let t = replacement_range(s, r)->0;
    s.take(t.0) + r.replacement@ + s.skip(t.1)
}

/// The position at which the replaced range starts.
pub open spec fn edit_start_point(s: Seq<char>, r: TextRangeReplacement) -> (usize, usize) {
    if replacement_range(s, r).unwrap().2 {
        (r.end_line, r.end_column_utf16)
    } else {
        (r.start_line, r.start_column_utf16)
    }
}

/// The position at which the replaced range ends.
pub open spec fn edit_end_point(s: Seq<char>, r: TextRangeReplacement) -> (usize, usize) {
    if replacement_range(s, r).unwrap().2 {
        (r.start_line, r.start_column_utf16)
    } else {
        (r.end_line, r.end_column_utf16)
    }
}

/// The characters of the last line of `r`, without one trailing `'\r'`.
pub open spec fn last_line_tail(r: Seq<char>) -> Seq<char> {
    let tail = r.skip(line_starts(r).last());
    if tail.len() > 0 && tail.last() == '\r' {
        tail.drop_last()
    } else {
        tail
    }
}

/// Where a caret at `start` ends up after typing `r`.
pub open spec fn point_after(start: (usize, usize), r: Seq<char>) -> (usize, usize) {
    if newline_count(r) == 0 {
        (start.0, sat_add(start.1 as int, utf16_len(r) as int) as usize)
    } else {
        (sat_add(start.0 as int, newline_count(r) as int) as usize, utf16_len(last_line_tail(r)) as usize)
    }
}

/// The replacement that undoes the edit: it puts the removed characters back
/// over the inserted ones.
pub open spec fn undo_replacement_fields(s: Seq<char>, r: TextRangeReplacement) -> (usize, usize, usize, usize, Seq<char>) {
    let t = replacement_range(s, r)->0;
    let start = edit_start_point(s, r);
    let end = point_after(start, r.replacement@);
    (start.0, start.1, end.0, end.1, s.subrange(t.0, t.1))
}

/// The positions and inserted characters of a replacement.
pub open spec fn replacement_fields(r: TextRangeReplacement) -> (usize, usize, usize, usize, Seq<char>) {
    (r.start_line, r.start_column_utf16, r.end_line, r.end_column_utf16, r.replacement@)
}

/// The replacement that redoes the edit: the same edit with its ends in order.
pub open spec fn redo_replacement_fields(s: Seq<char>, r: TextRangeReplacement) -> (usize, usize, usize, usize, Seq<char>) {
    let start = edit_start_point(s, r);
    let end = edit_end_point(s, r);
    (start.0, start.1, end.0, end.1, r.replacement@)
}

/// The character index of (`line_index`, `column_utf16`), or `None` past the last line.
pub fn text_position_char_index(buffer: &TextBuffer, line_index: usize, column_utf16: usize) -> (r:
    Option<usize>)
    ensures
        r matches Some(i) ==> position_char_index(buffer@, line_index as int, column_utf16 as int)
            == Some(i as int),
        r is None ==> position_char_index(buffer@, line_index as int, column_utf16 as int) is None,
        r matches Some(i) ==> line_start(buffer@, line_index as int) <= i <= line_content_end(
            buffer@,
            line_index as int,
        ) && crate::text_lines::line_shape_facts(buffer@, line_index as int),
{
    if line_index >= buffer.line_count() {
        return None;
    }
    let start = buffer.line_start_char(line_index);
    let end = buffer.line_content_end_char(line_index);
    let k = chars_fit_count(buffer.chars(), start, end, column_utf16, &Encoding::Utf16);
    proof {
        lemma_fit_count(
            buffer@.subrange(start as int, end as int),
            column_utf16 as int,
            Encoding::Utf16,
        );
    }
    Some(start + k)
}

/// The byte offset of (`line_index`, `column_utf16`): the last character
/// boundary of that line's content at or before the column; `None` past the last line.
pub fn text_position_to_byte_offset(buffer: &TextBuffer, line_index: usize, column_utf16: usize) -> (r:
    Option<usize>)
    ensures
        match position_char_index(buffer@, line_index as int, column_utf16 as int) {
            Some(i) => r == Some(utf8_len(buffer@.take(i)) as usize),
            None => r is None,
        },
{
    match text_position_char_index(buffer, line_index, column_utf16) {
        Some(i) => {
            proof {
                crate::text_lines::lemma_line_shape(buffer@, line_index as int);
            }
            Some(buffer.byte_offset_in_line(line_index, i))
        },
        None => None,
    }
}

/// Where a caret at `start_point` ends up after typing `replacement`.
pub fn text_point_after_replacement(start_point: (usize, usize), replacement: &str) -> (p: (
    usize,
    usize,
))
    ensures
        p == point_after(start_point, replacement@),
{
    crate::text_metrics::str_fits(replacement);
    let chars = str_chars(replacement);
    let mut line_breaks: usize = 0;
    let mut tail_start: usize = 0;
    let mut i: usize = 0;
    proof {
        assert(chars@.take(0) =~= Seq::<char>::empty());
        assert(line_starts(Seq::<char>::empty()) == seq![0int]);
    }
    while i < chars.len()
        invariant
            chars@ == replacement@,
            0 <= i <= chars.len(),
            line_breaks == newline_count(chars@.take(i as int)),
            tail_start == line_starts(chars@.take(i as int)).last(),
            line_breaks <= i,
        decreases chars.len() - i,
    {
        proof {
            assert(chars@.take(i + 1).drop_last() =~= chars@.take(i as int));
            assert(chars@.take(i + 1).last() == chars@[i as int]);
        }
        if chars[i] == '\n' {
            line_breaks = line_breaks + 1;
            tail_start = i + 1;
        }
        i += 1;
    }
    proof {
        assert(chars@.take(chars@.len() as int) =~= chars@);
        assert(chars@.subrange(0, chars@.len() as int) =~= chars@);
        crate::text_lines::lemma_line_starts(chars@);
        assert(line_starts(chars@).len() >= 1);
    }
    if line_breaks == 0 {
        let width = chars_width(&chars, 0, chars.len(), &Encoding::Utf16);
        return (start_point.0, start_point.1.saturating_add(width));
    }
    let mut end = chars.len();
    proof {
        crate::text_lines::lemma_line_starts(chars@);
        let ls = line_starts(chars@);
        assert(crate::text_lines::is_line_start(chars@, ls[ls.len() - 1]));
    }
    if end > tail_start && chars[end - 1] == '\r' {
        end = end - 1;
    }
    proof {
        let tail = chars@.skip(tail_start as int);
        if tail.len() > 0 && tail.last() == '\r' {
            assert(tail.drop_last() =~= chars@.subrange(tail_start as int, end as int));
        } else {
            assert(tail =~= chars@.subrange(tail_start as int, end as int));
        }
    }
    (start_point.0.saturating_add(line_breaks), chars_width(&chars, tail_start, end, &Encoding::Utf16))
}

/// Makes the replacement on a copy of the buffer's text, and records how to
/// undo and redo it; `None` when a position lies past the last line or the
/// replacement inserts nothing into an empty range.
pub fn text_with_replaced_range_and_history(
    buffer: &TextBuffer,
    replacement: &TextRangeReplacement,
) -> (r: Option<TextRangeEditOutcome>)
    ensures
        edit_applies(buffer@, *replacement) <==> r is Some,
        r matches Some(o) ==> {
            &&& o.next_text@ == edited_text(buffer@, *replacement)
            &&& replacement_fields(o.history.undo) == undo_replacement_fields(buffer@, *replacement)
            &&& replacement_fields(o.history.redo) == redo_replacement_fields(buffer@, *replacement)
        },
{
    let start = match text_position_char_index(
        buffer,
        replacement.start_line,
        replacement.start_column_utf16,
    ) {
        Some(i) => i,
        None => return None,
    };
    let end = match text_position_char_index(
        buffer,
        replacement.end_line,
        replacement.end_column_utf16,
    ) {
        Some(i) => i,
        None => return None,
    };
    let (start, end, start_point, end_point) = if start <= end {
        (
            start,
            end,
            (replacement.start_line, replacement.start_column_utf16),
            (replacement.end_line, replacement.end_column_utf16),
        )
    } else {
        (
            end,
            start,
            (replacement.end_line, replacement.end_column_utf16),
            (replacement.start_line, replacement.start_column_utf16),
        )
    };
    let rep_chars = str_chars(replacement.replacement.as_str());
    if start == end && rep_chars.len() == 0 {
        return None;
    }
    let chars = buffer.chars();
    let deleted_text = string_from_chars(chars, start, end);
    let mut next = String::new();
    push_chars(&mut next, chars, 0, start);
    push_chars(&mut next, &rep_chars, 0, rep_chars.len());
    push_chars(&mut next, chars, end, chars.len());
    proof {
        assert(chars@.subrange(0, start as int) =~= chars@.take(start as int));
        assert(rep_chars@.subrange(0, rep_chars@.len() as int) =~= rep_chars@);
        assert(chars@.subrange(end as int, chars@.len() as int) =~= chars@.skip(end as int));
    }
    let undo_end_point = text_point_after_replacement(start_point, replacement.replacement.as_str());
    Some(
        TextRangeEditOutcome {
            next_text: next,
            history: TextRangeHistoryEntry {
                undo: TextRangeReplacement {
                    start_line: start_point.0,
                    start_column_utf16: start_point.1,
                    end_line: undo_end_point.0,
                    end_column_utf16: undo_end_point.1,
                    replacement: deleted_text,
                },
                redo: TextRangeReplacement {
                    start_line: start_point.0,
                    start_column_utf16: start_point.1,
                    end_line: end_point.0,
                    end_column_utf16: end_point.1,
                    replacement: replacement.replacement.clone(),
                },
            },
        },
    )
}

/// The text once the replacement is made, or `None` when it does not apply.
pub fn text_with_replaced_range(buffer: &TextBuffer, replacement: &TextRangeReplacement) -> (r:
    Option<String>)
    ensures
        edit_applies(buffer@, *replacement) <==> r is Some,
        r matches Some(t) ==> t@ == edited_text(buffer@, *replacement),
{
    match text_with_replaced_range_and_history(buffer, replacement) {
        Some(outcome) => Some(outcome.next_text),
        None => None,
    }
}


/// `s` holds no `'\r'`.
pub open spec fn no_carriage_return(s: Seq<char>) -> bool {
    forall|i: int| 0 <= i < s.len() ==> s[i] != '\r'
}

/// Column `col` of line `line` lies on a character boundary of that line's content.
pub open spec fn column_is_exact(s: Seq<char>, line: int, col: int) -> bool {
    &&& 0 <= line < line_count(s)
    &&& utf16_len(s.subrange(line_start(s, line), line_column_char_index(s, line, col))) == col
}

/// Position `p` of `t` holds no character of its line, or an astral one
/// (two UTF-16 units).
pub open spec fn wide_or_line_end(t: Seq<char>, p: int) -> bool {
    p >= t.len() || t[p] == '\n' || utf16_width(t[p]) == 2
}

/// The undo of the edit finds its way back: the edit starts on a character
/// boundary of its line; or it starts one UTF-16 unit past the boundary at
/// which the replaced range starts (inside a surrogate pair, or just past the
/// line's end), while in the edited text the character at that boundary,
/// and, unless the replacement holds a line break, the one right after the
/// inserted text, are astral or not on the line.
pub open spec fn start_column_lands(s: Seq<char>, r: TextRangeReplacement) -> bool {
    let sp = edit_start_point(s, r);
    let lo = replacement_range(s, r).unwrap().0;
    let t = edited_text(s, r);
    let rr = r.replacement@;
    ||| column_is_exact(s, sp.0 as int, sp.1 as int)
    ||| {
        &&& utf16_len(s.subrange(line_start(s, sp.0 as int), lo)) + 1 == sp.1
        &&& wide_or_line_end(t, lo)
        &&& (newline_count(rr) > 0 || wide_or_line_end(t, lo + rr.len()))
    }
}

/// A column one unit past the width of the line up to `idx` maps back to
/// `idx` when the character at `idx` is astral or not on the line.
proof fn lemma_position_one_past(t: Seq<char>, j: int, idx: int, col: int)
    requires
        0 <= j < line_count(t),
        line_start(t, j) <= idx <= t.len(),
        forall|q: int| line_start(t, j) <= q < idx ==> t[q] != '\n',
        no_carriage_return(t),
        utf16_len(t.subrange(line_start(t, j), idx)) + 1 == col,
        wide_or_line_end(t, idx),
    ensures
        line_column_char_index(t, j, col) == idx,
{
    lemma_content_end_reaches(t, j, idx);
    crate::text_lines::lemma_line_shape(t, j);
    let ls = line_start(t, j);
    let ce = line_content_end(t, j);
    let f = crate::text_lines::line_full_end(t, j);
    if idx < t.len() && t[idx] == '\n' {
        if j + 1 < line_count(t) {
            if idx < f - 1 {
                assert(t[idx] != '\n');
            }
        } else {
            assert(t[idx] != '\n');
        }
    }
    let sub = t.subrange(ls, ce);
    let k = idx - ls;
    assert(sub.take(k) =~= t.subrange(ls, idx));
    if k < sub.len() {
        crate::text_metrics::lemma_text_width_take_next(sub, k, Encoding::Utf16);
        assert(sub[k] == t[idx]);
    }
    crate::text_metrics::lemma_fit_count_unique(sub, col, k, Encoding::Utf16);
}

/// When line `j` holds no `'\n'` from its start up to `e`, its content reaches `e`.
proof fn lemma_content_end_reaches(t: Seq<char>, j: int, e: int)
    requires
        0 <= j < line_count(t),
        line_start(t, j) <= e <= t.len(),
        forall|q: int| line_start(t, j) <= q < e ==> t[q] != '\n',
        no_carriage_return(t),
    ensures
        e <= line_content_end(t, j),
{
    crate::text_lines::lemma_line_shape(t, j);
    let f = crate::text_lines::line_full_end(t, j);
    if j + 1 < line_count(t) {
        assert(t[f - 1] == '\n');
        if f - 1 < e {
            assert(t[f - 1] != '\n');
        }
        if f - 1 > line_start(t, j) {
            assert(t[f - 2] != '\r');
        }
    } else {
        if f > line_start(t, j) && t[f - 1] == '\n' {
            assert(false);
        }
    }
}

/// A column that measures exactly the characters from the line start to
/// `idx` maps back to `idx`.
proof fn lemma_position_exact(t: Seq<char>, j: int, idx: int, col: int)
    requires
        0 <= j < line_count(t),
        line_start(t, j) <= idx <= line_content_end(t, j),
        utf16_len(t.subrange(line_start(t, j), idx)) == col,
    ensures
        line_column_char_index(t, j, col) == idx,
{
    crate::text_lines::lemma_line_shape(t, j);
    let start = line_start(t, j);
    let sub = t.subrange(start, line_content_end(t, j));
    assert(sub.take(idx - start) =~= t.subrange(start, idx));
    crate::text_metrics::lemma_fit_count_exact(sub, idx - start, Encoding::Utf16);
}

/// A line start that `t` shares with `s` before `p` is the same line of `t`.
proof fn lemma_shared_line_start(s: Seq<char>, t: Seq<char>, j: int, p: int)
    requires
        0 <= j < line_count(s),
        line_start(s, j) <= p <= s.len(),
        p <= t.len(),
        t.take(p) == s.take(p),
    ensures
        j < line_count(t),
        line_start(t, j) == line_start(s, j),
{
    crate::text_lines::lemma_line_starts(s);
    crate::text_lines::lemma_line_starts(t);
    let a = line_start(s, j);
    assert(crate::text_lines::is_line_start(s, line_starts(s)[j]));
    assert(t.take(a) =~= s.take(a)) by {
        assert(t.take(a) =~= t.take(p).take(a));
        assert(s.take(a) =~= s.take(p).take(a));
    }
    if a > 0 {
        assert(t[a - 1] == t.take(p)[a - 1]);
        assert(s[a - 1] == s.take(p)[a - 1]);
    }
    assert(crate::text_lines::is_line_start(t, a));
    assert(crate::text_lines::newline_count(s.take(line_starts(s)[j])) == j);
}


/// Making the redo replacement on the text before the edit makes the same edit again.
pub proof fn lemma_redo_replays_edit(s: Seq<char>, r: TextRangeReplacement, redo: TextRangeReplacement)
    requires
        edit_applies(s, r),
        replacement_fields(redo) == redo_replacement_fields(s, r),
    ensures
        edit_applies(s, redo),
        edited_text(s, redo) == edited_text(s, r),
{
}

/// The facts about an applicable edit that its undo relies on.
proof fn lemma_edit_bounds(s: Seq<char>, r: TextRangeReplacement)
    requires
        edit_applies(s, r),
    ensures
        ({
            let range = replacement_range(s, r).unwrap();
            let sp = edit_start_point(s, r);
            let ls = line_start(s, sp.0 as int);
            &&& 0 <= sp.0 < line_count(s)
            &&& position_char_index(s, sp.0 as int, sp.1 as int) == Some(range.0)
            &&& 0 <= ls <= range.0 <= range.1 <= s.len()
            &&& forall|q: int| ls <= q < range.0 ==> s[q] != '\n'
        }),
{
    let range = replacement_range(s, r).unwrap();
    let lo = range.0;
    let hi = range.1;
    let sp = edit_start_point(s, r);
    let line = sp.0 as int;
    crate::text_lines::lemma_line_shape(s, line);
    let ls = line_start(s, line);
    let ce = line_content_end(s, line);
    lemma_fit_count(s.subrange(ls, ce), sp.1 as int, Encoding::Utf16);
    assert forall|q: int| ls <= q < lo implies s[q] != '\n' by {
        if line + 1 < line_count(s) {
            assert(s[crate::text_lines::line_full_end(s, line) - 1] == '\n');
        }
    }
    let epe = edit_end_point(s, r);
    crate::text_lines::lemma_line_shape(s, epe.0 as int);
    lemma_fit_count(
        s.subrange(line_start(s, epe.0 as int), line_content_end(s, epe.0 as int)),
        epe.1 as int,
        Encoding::Utf16,
    );
}

proof fn lemma_edited_text_index(s: Seq<char>, r: TextRangeReplacement)
    requires
        edit_applies(s, r),
        replacement_range(s, r).unwrap().1 <= s.len(),
        0 <= replacement_range(s, r).unwrap().0 <= replacement_range(s, r).unwrap().1,
        no_carriage_return(s),
        no_carriage_return(r.replacement@),
    ensures
        no_carriage_return(edited_text(s, r)),
        edited_text(s, r).take(replacement_range(s, r).unwrap().0) == s.take(
            replacement_range(s, r).unwrap().0,
        ),
        forall|q: int|
            0 <= q < r.replacement@.len() ==> edited_text(s, r)[replacement_range(s, r).unwrap().0
                + q] == #[trigger] r.replacement@[q],
{
    let range = replacement_range(s, r).unwrap();
    let lo = range.0;
    let hi = range.1;
    let rr = r.replacement@;
    let n = rr.len() as int;
    let t = edited_text(s, r);
    assert forall|i: int| 0 <= i < t.len() implies t[i] != '\r' by {
        if i < lo {
            assert(t[i] == s[i]);
        } else if i < lo + n {
            assert(t[i] == rr[i - lo]);
        } else {
            assert(t[i] == s.skip(hi)[i - lo - n]);
        }
    }
    assert(t.take(lo) =~= s.take(lo));
}

/// In the edited text, the undo's start position is where the edit started.
proof fn lemma_undo_start(s: Seq<char>, r: TextRangeReplacement)
    requires
        edit_applies(s, r),
        no_carriage_return(s),
        no_carriage_return(r.replacement@),
        start_column_lands(s, r),
    ensures
        position_char_index(
            edited_text(s, r),
            edit_start_point(s, r).0 as int,
            edit_start_point(s, r).1 as int,
        ) == Some(replacement_range(s, r).unwrap().0),
        line_start(edited_text(s, r), edit_start_point(s, r).0 as int) == line_start(
            s,
            edit_start_point(s, r).0 as int,
        ),
{
    lemma_edit_bounds(s, r);
    lemma_edited_text_index(s, r);
    let lo = replacement_range(s, r).unwrap().0;
    let sp = edit_start_point(s, r);
    let line = sp.0 as int;
    let t = edited_text(s, r);
    let ls = line_start(s, line);
    lemma_shared_line_start(s, t, line, lo);
    assert forall|q: int| ls <= q < lo implies t[q] != '\n' by {
        assert(t[q] == t.take(lo)[q]);
        assert(s[q] == s.take(lo)[q]);
    }
    lemma_content_end_reaches(t, line, lo);
    assert(t.subrange(ls, lo) =~= s.subrange(ls, lo)) by {
        assert forall|q: int| 0 <= q < lo - ls implies t.subrange(ls, lo)[q] == s.subrange(ls, lo)[q] by {
            assert(t[ls + q] == t.take(lo)[ls + q]);
            assert(s[ls + q] == s.take(lo)[ls + q]);
        }
    }
    if column_is_exact(s, line, sp.1 as int) {
        lemma_position_exact(t, line, lo, sp.1 as int);
    } else {
        lemma_position_one_past(t, line, lo, sp.1 as int);
    }
}

/// In the edited text, the undo's end position is where the inserted text ends.
proof fn lemma_undo_end(s: Seq<char>, r: TextRangeReplacement)
    requires
        edit_applies(s, r),
        no_carriage_return(s),
        no_carriage_return(r.replacement@),
        start_column_lands(s, r),
        fits_usize(edited_text(s, r)),
    ensures
        ({
            let ep = point_after(edit_start_point(s, r), r.replacement@);
            position_char_index(edited_text(s, r), ep.0 as int, ep.1 as int) == Some(
                replacement_range(s, r).unwrap().0 + r.replacement@.len(),
            )
        }),
{
    lemma_edit_bounds(s, r);
    lemma_edited_text_index(s, r);
    lemma_undo_start(s, r);
    let lo = replacement_range(s, r).unwrap().0;
    let sp = edit_start_point(s, r);
    let line = sp.0 as int;
    let col = sp.1 as int;
    let rr = r.replacement@;
    let n = rr.len() as int;
    let t = edited_text(s, r);
    let ls = line_start(s, line);
    assert(line < line_count(t));
    lemma_len_le_utf8(t);
    let k = newline_count(rr);
    let ep = point_after(sp, rr);
    crate::text_lines::lemma_newline_count_zero(rr);
    assert forall|q: int| ls <= q < lo implies t[q] != '\n' by {
        assert(t[q] == t.take(lo)[q]);
        assert(s[q] == s.take(lo)[q]);
    }
    assert(t.subrange(ls, lo) =~= s.subrange(ls, lo)) by {
        assert forall|q: int| 0 <= q < lo - ls implies t.subrange(ls, lo)[q] == s.subrange(ls, lo)[q] by {
            assert(t[ls + q] == t.take(lo)[ls + q]);
            assert(s[ls + q] == s.take(lo)[ls + q]);
        }
    }
    if k == 0 {
        assert forall|q: int| ls <= q < lo + n implies t[q] != '\n' by {
            if q >= lo {
                assert(t[lo + (q - lo)] == rr[q - lo]);
            }
        }
        lemma_content_end_reaches(t, line, lo + n);
        assert(t.subrange(ls, lo + n) =~= t.subrange(ls, lo) + rr) by {
            assert forall|q: int| 0 <= q < lo + n - ls implies t.subrange(ls, lo + n)[q] == (t.subrange(ls, lo) + rr)[q] by {
                if ls + q >= lo {
                    assert(t[lo + (ls + q - lo)] == rr[ls + q - lo]);
                }
            }
        }
        crate::text_metrics::lemma_text_width_concat(s.subrange(ls, lo), rr, Encoding::Utf16);
        assert(utf16_len(t.subrange(ls, lo + n)) <= utf8_len(t)) by {
            crate::text_metrics::lemma_utf16_le_utf8(t.subrange(ls, lo + n));
            assert(t =~= t.take(ls) + t.subrange(ls, lo + n) + t.skip(lo + n));
            crate::text_metrics::lemma_text_width_concat(
                t.take(ls) + t.subrange(ls, lo + n),
                t.skip(lo + n),
                Encoding::Utf8,
            );
            crate::text_metrics::lemma_text_width_concat(
                t.take(ls),
                t.subrange(ls, lo + n),
                Encoding::Utf8,
            );
        }
        if column_is_exact(s, line, col) || ep.1 < col + utf16_len(rr) {
            lemma_position_exact(t, line, lo + n, ep.1 as int);
        } else {
            lemma_position_one_past(t, line, lo + n, ep.1 as int);
        }
    } else {
        lemma_undo_end_new_line(s, r);
    }
}

/// In the edited text, the last line of the inserted text starts a line,
/// numbered by the newlines before it.
proof fn lemma_inserted_last_line_start(s: Seq<char>, r: TextRangeReplacement)
    requires
        edit_applies(s, r),
        no_carriage_return(s),
        no_carriage_return(r.replacement@),
        newline_count(r.replacement@) > 0,
    ensures
        ({
            let lo = replacement_range(s, r).unwrap().0;
            let line = edit_start_point(s, r).0 as int;
            let rr = r.replacement@;
            let m = line_starts(rr).last();
            let t = edited_text(s, r);
            &&& 0 < m <= rr.len()
            &&& line + newline_count(rr) < line_count(t)
            &&& line_start(t, line + newline_count(rr)) == lo + m
        }),
{
    lemma_edit_bounds(s, r);
    lemma_edited_text_index(s, r);
    let lo = replacement_range(s, r).unwrap().0;
    let sp = edit_start_point(s, r);
    let line = sp.0 as int;
    let rr = r.replacement@;
    let t = edited_text(s, r);
    let ls = line_start(s, line);
    let k = newline_count(rr);
    crate::text_lines::lemma_line_starts(rr);
    let lr = line_starts(rr);
    let m = lr.last();
    assert(m == lr[k as int]);
    assert(crate::text_lines::is_line_start(rr, lr[k as int]));
    assert(newline_count(rr.take(lr[k as int])) == k);
    if m == 0 {
        assert(rr.take(0) =~= Seq::<char>::empty());
        assert(newline_count(Seq::<char>::empty()) == 0);
    }
    let p = lo + m;
    assert(t[lo + (m - 1)] == rr[m - 1]);
    assert(t.take(p) =~= s.take(lo) + rr.take(m)) by {
        assert forall|q: int| 0 <= q < p implies t.take(p)[q] == (s.take(lo) + rr.take(m))[q] by {
            if q < lo {
                assert(t[q] == t.take(lo)[q]);
            } else {
                assert(t[lo + (q - lo)] == rr[q - lo]);
            }
        }
    }
    crate::text_lines::lemma_newline_count_concat(s.take(lo), rr.take(m));
    crate::text_lines::lemma_newline_count_take(s, ls, lo);
    crate::text_lines::lemma_newline_count_zero(s.subrange(ls, lo));
    crate::text_lines::lemma_line_starts(s);
    assert(crate::text_lines::is_line_start(s, line_starts(s)[line]));
    assert(newline_count(s.take(line_starts(s)[line])) == line);
    assert(crate::text_lines::is_line_start(t, p));
    assert(newline_count(t.take(p)) == line + k);
    crate::text_lines::lemma_line_starts(t);
}

/// The undo's end position when the inserted text holds a newline.
proof fn lemma_undo_end_new_line(s: Seq<char>, r: TextRangeReplacement)
    requires
        edit_applies(s, r),
        no_carriage_return(s),
        no_carriage_return(r.replacement@),
        fits_usize(edited_text(s, r)),
        newline_count(r.replacement@) > 0,
    ensures
        ({
            let ep = point_after(edit_start_point(s, r), r.replacement@);
            position_char_index(edited_text(s, r), ep.0 as int, ep.1 as int) == Some(
                replacement_range(s, r).unwrap().0 + r.replacement@.len(),
            )
        }),
{
    lemma_edit_bounds(s, r);
    lemma_edited_text_index(s, r);
    lemma_inserted_last_line_start(s, r);
    let lo = replacement_range(s, r).unwrap().0;
    let sp = edit_start_point(s, r);
    let line = sp.0 as int;
    let rr = r.replacement@;
    let n = rr.len() as int;
    let t = edited_text(s, r);
    lemma_len_le_utf8(t);
    let k = newline_count(rr);
    let ep = point_after(sp, rr);
    let m = line_starts(rr).last();
    let p = lo + m;
    let j2 = line + k;
    crate::text_lines::lemma_line_starts(t);
    crate::text_lines::lemma_newline_count_le_len(t);
    assert(ep.0 == j2);
    crate::text_lines::lemma_line_starts(rr);
    crate::text_lines::lemma_line_shape(rr, k as int);
    assert forall|q: int| p <= q < lo + n implies t[q] != '\n' by {
        assert(t[lo + (q - lo)] == rr[q - lo]);
    }
    lemma_content_end_reaches(t, j2, lo + n);
    assert(last_line_tail(rr) =~= rr.skip(m));
    assert(t.subrange(p, lo + n) =~= rr.skip(m)) by {
        assert forall|q: int| 0 <= q < n - m implies t.subrange(p, lo + n)[q] == rr.skip(m)[q] by {
            assert(t[lo + (m + q)] == rr[m + q]);
        }
    }
    crate::text_metrics::lemma_subrange_width_le(t, p, lo + n, Encoding::Utf16);
    lemma_position_exact(t, j2, lo + n, ep.1 as int);
}

/// Making the undo replacement on the edited text gives back the text before
/// the edit, when neither that text nor the replacement holds a `'\r'`, the
/// undo's start finds its way back (`start_column_lands`), and the edited
/// text fits in memory.
pub proof fn lemma_undo_restores_text(s: Seq<char>, r: TextRangeReplacement, undo: TextRangeReplacement)
    requires
        edit_applies(s, r),
        replacement_fields(undo) == undo_replacement_fields(s, r),
        no_carriage_return(s),
        no_carriage_return(r.replacement@),
        start_column_lands(s, r),
        fits_usize(edited_text(s, r)),
    ensures
        edit_applies(edited_text(s, r), undo),
        edited_text(edited_text(s, r), undo) == s,
{
    lemma_edit_bounds(s, r);
    lemma_edited_text_index(s, r);
    lemma_undo_start(s, r);
    lemma_undo_end(s, r);
    let range = replacement_range(s, r).unwrap();
    let lo = range.0;
    let hi = range.1;
    let n = r.replacement@.len() as int;
    let t = edited_text(s, r);
    assert(replacement_range(t, undo) == Some((lo, lo + n, false)));
    assert(edited_text(t, undo) =~= s) by {
        assert(t.take(lo) =~= s.take(lo));
        assert(t.skip(lo + n) =~= s.skip(hi));
        assert(s =~= s.take(lo) + s.subrange(lo, hi) + s.skip(hi));
    }
}

} // verus!
