//! Caret positions and selections of the virtual text editor, in lines and
//! UTF-16 columns, and their mapping onto the text.
use vstd::prelude::*;

use crate::text_buffer::TextBuffer;
use crate::text_lines::{
    line_content_end, line_count, line_display_end, line_shape_facts, line_start, line_text,
};
use crate::text_metrics::{
    Encoding, chars_fit_count, chars_width, fit_count, fits_usize, lemma_fit_count,
    lemma_fit_count_exact, lemma_text_width_concat, lemma_text_width_take_le, str_chars,
    string_from_chars, utf16_len, utf8_len,
};

verus! {

/// A caret position: a line and a UTF-16 column in it.
#[derive(Debug, Clone, Copy, PartialEq, Eq, Structural)]
pub struct VirtualTextPoint {
    pub line_index: usize,
    pub column_utf16: usize,
}

/// A selection from an anchor (`start_*`) to a focus (`end_*`), in either order.
#[derive(Debug, Clone, Copy, PartialEq, Eq, Structural)]
pub struct VirtualTextSelection {
    pub start_line: usize,
    pub start_column_utf16: usize,
    pub end_line: usize,
    pub end_column_utf16: usize,
}

/// `(a_line, a_col)` comes at or before `(b_line, b_col)`.
pub open spec fn point_le(a_line: int, a_col: int, b_line: int, b_col: int) -> bool {
    a_line < b_line || (a_line == b_line && a_col <= b_col)
}

/// UTF-16 length of what line `j` shows; zero past the last line.
pub open spec fn line_utf16_len(s: Seq<char>, j: int) -> nat {
    if 0 <= j < line_count(s) {
        utf16_len(line_text(s, j))
    } else {
        0
    }
}

/// The nearest position inside the text: the line capped at the last line,
/// the column capped at that line's length.
pub open spec fn clamped_point(s: Seq<char>, p: VirtualTextPoint) -> VirtualTextPoint {
    if line_count(s) == 0 {
        VirtualTextPoint { line_index: 0, column_utf16: 0 }
    } else {
        let line = if p.line_index < line_count(s) - 1 {
            p.line_index as int
        } else {
            line_count(s) - 1
        };
        let len = line_utf16_len(s, line);
        VirtualTextPoint {
            line_index: line as usize,
            column_utf16: if p.column_utf16 < len {
                p.column_utf16
            } else {
                len as usize
            },
        }
    }
}

/// The character index of column `col` of line `line`: the last character
/// boundary of the line's content at or before that column.
pub open spec fn line_column_char_index(s: Seq<char>, line: int, col: int) -> int {
    let start = line_start(s, line);
    start + fit_count(s.subrange(start, line_content_end(s, line)), col, Encoding::Utf16)
}

/// The character index of a point, once clamped into the text.
pub open spec fn point_char_index(s: Seq<char>, p: VirtualTextPoint) -> int {
    let c = clamped_point(s, p);
    line_column_char_index(s, c.line_index as int, c.column_utf16 as int)
}

/// The (line, column) pairs of a selection, earlier end first.
pub open spec fn normalized(sel: VirtualTextSelection) -> (usize, usize, usize, usize) {
    if point_le(
        sel.start_line as int,
        sel.start_column_utf16 as int,
        sel.end_line as int,
        sel.end_column_utf16 as int,
    ) {
        (sel.start_line, sel.start_column_utf16, sel.end_line, sel.end_column_utf16)
    } else {
        (sel.end_line, sel.end_column_utf16, sel.start_line, sel.start_column_utf16)
    }
}

/// The point where the selection started.
pub open spec fn anchor_of(sel: VirtualTextSelection) -> VirtualTextPoint {
    VirtualTextPoint { line_index: sel.start_line, column_utf16: sel.start_column_utf16 }
}

/// The point where the selection ends.
pub open spec fn focus_of(sel: VirtualTextSelection) -> VirtualTextPoint {
    VirtualTextPoint { line_index: sel.end_line, column_utf16: sel.end_column_utf16 }
}

/// The selection from `anchor` to `focus`.
pub open spec fn selection_of(anchor: VirtualTextPoint, focus: VirtualTextPoint) -> VirtualTextSelection {
    VirtualTextSelection {
        start_line: anchor.line_index,
        start_column_utf16: anchor.column_utf16,
        end_line: focus.line_index,
        end_column_utf16: focus.column_utf16,
    }
}

/// A selection between two points, or none when they coincide.
pub open spec fn distinct_selection(anchor: VirtualTextPoint, focus: VirtualTextPoint) -> Option<
    VirtualTextSelection,
> {
    if anchor == focus {
        None
    } else {
        Some(selection_of(anchor, focus))
    }
}

/// The selection running from `anchor` to `focus`.
pub fn virtual_text_selection_from_points(
    anchor: VirtualTextPoint,
    focus: VirtualTextPoint,
) -> (sel: VirtualTextSelection)
    ensures
        sel == selection_of(anchor, focus),
{
    VirtualTextSelection {
        start_line: anchor.line_index,
        start_column_utf16: anchor.column_utf16,
        end_line: focus.line_index,
        end_column_utf16: focus.column_utf16,
    }
}

/// The selection from `anchor` to `focus`, or `None` when they are the same point.
pub fn virtual_text_selection_from_distinct_points(
    anchor: VirtualTextPoint,
    focus: VirtualTextPoint,
) -> (sel: Option<VirtualTextSelection>)
    ensures
        sel == distinct_selection(anchor, focus),
{
    if anchor != focus {
        Some(virtual_text_selection_from_points(anchor, focus))
    } else {
        None
    }
}

/// The point where the selection started.
pub fn virtual_text_selection_anchor(selection: VirtualTextSelection) -> (p: VirtualTextPoint)
    ensures
        p == anchor_of(selection),
{
    VirtualTextPoint { line_index: selection.start_line, column_utf16: selection.start_column_utf16 }
}

/// The point where the selection ends, where the caret sits.
pub fn virtual_text_selection_focus(selection: VirtualTextSelection) -> (p: VirtualTextPoint)
    ensures
        p == focus_of(selection),
{
    VirtualTextPoint { line_index: selection.end_line, column_utf16: selection.end_column_utf16 }
}

/// The two ends of a selection as (line, column) pairs, earlier end first.
pub fn normalize_virtual_text_selection(selection: VirtualTextSelection) -> (r: (
    usize,
    usize,
    usize,
    usize,
))
    ensures
        r == normalized(selection),
        point_le(r.0 as int, r.1 as int, r.2 as int, r.3 as int),
{
    if selection.start_line < selection.end_line || (selection.start_line == selection.end_line
        && selection.start_column_utf16 <= selection.end_column_utf16) {
        (
            selection.start_line,
            selection.start_column_utf16,
            selection.end_line,
            selection.end_column_utf16,
        )
    } else {
        (
            selection.end_line,
            selection.end_column_utf16,
            selection.start_line,
            selection.start_column_utf16,
        )
    }
}

/// The two ends of a selection as points, earlier end first, each with its column.
pub fn normalized_virtual_text_selection_points(selection: VirtualTextSelection) -> (r: (
    VirtualTextPoint,
    usize,
    VirtualTextPoint,
    usize,
))
    ensures
        r.0 == (VirtualTextPoint {
            line_index: normalized(selection).0,
            column_utf16: normalized(selection).1,
        }),
        r.1 == normalized(selection).1,
        r.2 == (VirtualTextPoint {
            line_index: normalized(selection).2,
            column_utf16: normalized(selection).3,
        }),
        r.3 == normalized(selection).3,
{
    let (start_line, start_column, end_line, end_column) = normalize_virtual_text_selection(
        selection,
    );
    (
        VirtualTextPoint { line_index: start_line, column_utf16: start_column },
        start_column,
        VirtualTextPoint { line_index: end_line, column_utf16: end_column },
        end_column,
    )
}

/// UTF-16 length of what line `line_index` shows; zero past the last line.
pub fn virtual_text_line_utf16_len(buffer: &TextBuffer, line_index: usize) -> (n: usize)
    ensures
        n == line_utf16_len(buffer@, line_index as int),
{
    if line_index < buffer.line_count() {
        let start = buffer.line_start_char(line_index);
        let end = buffer.line_display_end_char(line_index);
        chars_width(buffer.chars(), start, end, &Encoding::Utf16)
    } else {
        0
    }
}

/// Moves `point` to the nearest position inside the text.
pub fn clamp_virtual_text_point(point: VirtualTextPoint, buffer: &TextBuffer) -> (p:
    VirtualTextPoint)
    ensures
        p == clamped_point(buffer@, point),
        p.line_index < line_count(buffer@),
        p.column_utf16 <= line_utf16_len(buffer@, p.line_index as int),
{
    let count = buffer.line_count();
    if count == 0 {
        return VirtualTextPoint { line_index: 0, column_utf16: 0 };
    }
    let line_index = if point.line_index < count - 1 {
        point.line_index
    } else {
        count - 1
    };
    let len = virtual_text_line_utf16_len(buffer, line_index);
    VirtualTextPoint {
        line_index,
        column_utf16: if point.column_utf16 < len {
            point.column_utf16
        } else {
            len
        },
    }
}

/// Clamps both ends of a selection into the text; `None` when they then coincide.
pub fn clamp_virtual_text_selection(selection: VirtualTextSelection, buffer: &TextBuffer) -> (r:
    Option<VirtualTextSelection>)
    ensures
        r == distinct_selection(
            clamped_point(buffer@, anchor_of(selection)),
            clamped_point(buffer@, focus_of(selection)),
        ),
{
    let anchor = clamp_virtual_text_point(virtual_text_selection_anchor(selection), buffer);
    let focus = clamp_virtual_text_point(virtual_text_selection_focus(selection), buffer);
    virtual_text_selection_from_distinct_points(anchor, focus)
}

/// The end of the last line.
pub fn virtual_text_document_end_point(buffer: &TextBuffer) -> (p: VirtualTextPoint)
    ensures
        p.line_index == line_count(buffer@) - 1,
        p.column_utf16 == line_utf16_len(buffer@, line_count(buffer@) - 1),
{
    let count = buffer.line_count();
    if count == 0 {
        return VirtualTextPoint { line_index: 0, column_utf16: 0 };
    }
    let line_index = count - 1;
    VirtualTextPoint {
        line_index,
        column_utf16: virtual_text_line_utf16_len(buffer, line_index),
    }
}

/// The character index of a clamped point.
pub fn virtual_text_point_char_index(buffer: &TextBuffer, point: VirtualTextPoint) -> (idx: usize)
    ensures
        idx == point_char_index(buffer@, point),
        line_start(buffer@, clamped_point(buffer@, point).line_index as int) <= idx
            <= line_content_end(buffer@, clamped_point(buffer@, point).line_index as int),
        line_shape_facts(buffer@, clamped_point(buffer@, point).line_index as int),
{
    let p = clamp_virtual_text_point(point, buffer);
    let start = buffer.line_start_char(p.line_index);
    let end = buffer.line_content_end_char(p.line_index);
    let k = chars_fit_count(buffer.chars(), start, end, p.column_utf16, &Encoding::Utf16);
    proof {
        lemma_fit_count(
            buffer@.subrange(start as int, end as int),
            p.column_utf16 as int,
            Encoding::Utf16,
        );
    }
    start + k
}

/// The byte offset of a point, once clamped into the text.
pub fn virtual_text_point_to_byte_offset(buffer: &TextBuffer, point: VirtualTextPoint) -> (r:
    Option<usize>)
    ensures
        r == Some(utf8_len(buffer@.take(point_char_index(buffer@, point))) as usize),
{
    let idx = virtual_text_point_char_index(buffer, point);
    let line = clamp_virtual_text_point(point, buffer).line_index;
    Some(buffer.byte_offset_in_line(line, idx))
}

/// Where a jump to 1-based `line` (capped at the last line; 0 counts as 1)
/// and byte column `byte_column` puts the caret: at the last character
/// boundary of that line at or before the byte column.
pub open spec fn jump_target_point(s: Seq<char>, line: int, byte_column: int) -> VirtualTextPoint {
    let last = line_count(s) - 1;
    let li = if line - 1 < last {
        if line == 0 {
            0
        } else {
            line - 1
        }
    } else {
        last
    };
    let lt = line_text(s, li);
    clamped_point(
        s,
        VirtualTextPoint {
            line_index: li as usize,
            column_utf16: utf16_len(lt.take(fit_count(lt, byte_column, Encoding::Utf8) as int))
                as usize,
        },
    )
}

/// Where a jump to 1-based `line` and byte column `byte_column` puts the caret.
pub fn virtual_text_point_from_jump_target(
    buffer: &TextBuffer,
    line: usize,
    byte_column: usize,
) -> (p: VirtualTextPoint)
    ensures
        p == jump_target_point(buffer@, line as int, byte_column as int),
{
    let count = buffer.line_count();
    let wanted = if line == 0 {
        0
    } else {
        line - 1
    };
    let line_index = if wanted < count - 1 {
        wanted
    } else {
        count - 1
    };
    let start = buffer.line_start_char(line_index);
    let end = buffer.line_display_end_char(line_index);
    let chars = buffer.chars();
    let k = chars_fit_count(chars, start, end, byte_column, &Encoding::Utf8);
    proof {
        let lt = buffer@.subrange(start as int, end as int);
        lemma_fit_count(lt, byte_column as int, Encoding::Utf8);
        assert(lt.take(k as int) =~= buffer@.subrange(start as int, start + k));
        assert(buffer@ =~= buffer@.take(start as int) + lt + buffer@.skip(end as int));
        lemma_text_width_concat(buffer@.take(start as int) + lt, buffer@.skip(end as int), Encoding::Utf8);
        lemma_text_width_concat(buffer@.take(start as int), lt, Encoding::Utf8);
        lemma_text_width_take_le(lt, k as int, Encoding::Utf8);
        assert(lt.take(k as int) =~= chars@.subrange(start as int, start + k));
    }
    let column = chars_width(chars, start, start + k, &Encoding::Utf16);
    clamp_virtual_text_point(VirtualTextPoint { line_index, column_utf16: column }, buffer)
}

/// The characters a selection covers, between its two ends kept inside the
/// text, or `None` when that is nothing.
pub open spec fn selected_chars(s: Seq<char>, selection: VirtualTextSelection) -> Option<Seq<char>> {
    let n = normalized(selection);
    let a = point_char_index(s, VirtualTextPoint { line_index: n.0, column_utf16: n.1 });
    let b = point_char_index(s, VirtualTextPoint { line_index: n.2, column_utf16: n.3 });
    if a < b {
        Some(s.subrange(a, b))
    } else {
        None
    }
}

/// The characters of an optional string.
pub open spec fn string_view(r: Option<String>) -> Option<Seq<char>> {
    match r {
        Some(t) => Some(t@),
        None => None,
    }
}

/// The text a selection covers, or `None` when it covers nothing.
pub fn virtual_text_selected_text(buffer: &TextBuffer, selection: VirtualTextSelection) -> (r:
    Option<String>)
    ensures
        string_view(r) == selected_chars(buffer@, selection),
{
    let (start, _, end, _) = normalized_virtual_text_selection_points(selection);
    let a = virtual_text_point_char_index(buffer, start);
    let b = virtual_text_point_char_index(buffer, end);
    if a < b {
        Some(string_from_chars(buffer.chars(), a, b))
    } else {
        None
    }
}

/// Keeping a point inside the text twice is keeping it once: a kept point stays put.
pub proof fn lemma_clamp_idempotent(s: Seq<char>, p: VirtualTextPoint)
    ensures
        clamped_point(s, clamped_point(s, p)) == clamped_point(s, p),
{
    crate::text_lines::lemma_line_starts(s);
}

} // verus!
