//! Line wrapping and vertical placement of the lines of the virtual text editor.
use vstd::prelude::*;

use crate::text_buffer::TextBuffer;
use crate::text_lines::{line_count, line_display_end, line_start, line_text};
use crate::text_metrics::{
    Encoding, chars_width, sat_add, sat_mul, sat_sub, string_from_chars, utf8_len,
};

verus! {

/// Height of one visual text row, in pixels.
pub const TEXT_ROW_HEIGHT: usize = 20;

/// Width of one character column when wrapping, in pixels.
pub const TEXT_WRAP_CHAR_WIDTH: usize = 8;

/// Width of the line-number gutter, in pixels.
pub const TEXT_WRAP_LINE_NUMBER_WIDTH: usize = 76;

/// Horizontal padding of a text row, in pixels.
pub const TEXT_WRAP_HORIZONTAL_PADDING: usize = 30;

/// Rows drawn above and below the viewport so that scrolling shows no gap.
pub const TEXT_OVERSCAN_ROWS: usize = 8;

/// The tallest scroll area the editor lays out, in pixels; taller text is
/// scrolled through a scaled-down area of this height.
pub const TEXT_MAX_VIRTUAL_SCROLL_HEIGHT: usize = 8_000_000;

/// Above this many lines the editor does not wrap.
pub const TEXT_WRAP_FULL_LAYOUT_LINE_LIMIT: usize = 20_000;

/// `a * b`, or `usize::MAX` where the product does not fit.
pub fn saturating_mul_usize(a: usize, b: usize) -> (r: usize)
    ensures
        r == sat_mul(a as int, b as int),
{
    match a.checked_mul(b) {
        Some(p) => p,
        None => usize::MAX,
    }
}

/// How many characters fit on one visual row of a viewport this wide: at least one.
pub open spec fn chars_per_row(viewport_width: int) -> int {
    let inner = sat_sub(
        sat_sub(viewport_width, TEXT_WRAP_LINE_NUMBER_WIDTH as int),
        TEXT_WRAP_HORIZONTAL_PADDING as int,
    );
    let n = inner / TEXT_WRAP_CHAR_WIDTH as int;
    if n < 1 {
        1
    } else {
        n
    }
}

/// How many characters fit on one visual row of a viewport this wide.
pub fn text_wrap_chars_per_row(viewport_width: usize) -> (n: usize)
    ensures
        n == chars_per_row(viewport_width as int),
        n >= 1,
{
    let inner = viewport_width.saturating_sub(TEXT_WRAP_LINE_NUMBER_WIDTH).saturating_sub(
        TEXT_WRAP_HORIZONTAL_PADDING,
    );
    let n = inner / TEXT_WRAP_CHAR_WIDTH;
    if n < 1 {
        1
    } else {
        n
    }
}

/// The viewport width rounded to what the wrapping can use: whole character
/// columns plus the gutter and padding, so that widths wrapping alike compare equal.
pub fn text_wrap_width_bucket(viewport_width: usize) -> (w: usize)
    ensures
        w == sat_add(
            sat_add(
                sat_mul(chars_per_row(viewport_width as int), TEXT_WRAP_CHAR_WIDTH as int),
                TEXT_WRAP_LINE_NUMBER_WIDTH as int,
            ),
            TEXT_WRAP_HORIZONTAL_PADDING as int,
        ),
{
    saturating_mul_usize(text_wrap_chars_per_row(viewport_width), TEXT_WRAP_CHAR_WIDTH).saturating_add(
        TEXT_WRAP_LINE_NUMBER_WIDTH,
    ).saturating_add(TEXT_WRAP_HORIZONTAL_PADDING)
}

/// Byte length of what line `row` shows; zero past the last line.
pub open spec fn line_byte_len(s: Seq<char>, row: int) -> nat {
    if 0 <= row < line_count(s) {
        utf8_len(line_text(s, row))
    } else {
        0
    }
}

/// The text line `row_index` shows, or `None` past the last line.
pub fn text_line_at(buffer: &TextBuffer, row_index: usize) -> (t: Option<String>)
    ensures
        row_index < line_count(buffer@) ==> (t matches Some(t) && t@ == line_text(
            buffer@,
            row_index as int,
        )),
        row_index >= line_count(buffer@) ==> t is None,
{
    buffer.line_text(row_index)
}

/// Byte length of what line `row_index` shows; zero past the last line.
pub fn text_line_byte_len(buffer: &TextBuffer, row_index: usize) -> (n: usize)
    ensures
        n == line_byte_len(buffer@, row_index as int),
{
    if row_index >= buffer.line_count() {
        return 0;
    }
    let start = buffer.line_start_char(row_index);
    let end = buffer.line_display_end_char(row_index);
    chars_width(buffer.chars(), start, end, &Encoding::Utf8)
}

/// Visual rows a line of `len` bytes takes: at least one.
pub open spec fn visual_rows(len: int, per_row: int) -> int {
    let l = if len < 1 {
        1
    } else {
        len
    };
    let rows = (l + per_row - 1) / per_row;
    if rows < 1 {
        1
    } else {
        rows
    }
}

/// Height of line `row` in pixels once wrapped.
pub open spec fn wrapped_line_height(s: Seq<char>, row: int, viewport_width: int) -> int {
    sat_mul(
        visual_rows(line_byte_len(s, row) as int, chars_per_row(viewport_width)),
        TEXT_ROW_HEIGHT as int,
    )
}

/// Top of line `row` in pixels: the heights of the lines above it, added up
/// with saturation.
pub open spec fn wrapped_line_top(s: Seq<char>, row: int, viewport_width: int) -> int
    decreases row,
{
    if row <= 0 {
        0
    } else {
        sat_add(
            wrapped_line_top(s, row - 1, viewport_width),
            wrapped_line_height(s, row - 1, viewport_width),
        )
    }
}

/// Where each line sits once wrapped, and the total height.
#[derive(Debug, Clone, PartialEq, Eq)]
pub struct TextWrapLayout {
    pub line_tops: Vec<usize>,
    pub line_heights: Vec<usize>,
    pub logical_height: usize,
}

/// Wraps every line of the buffer to the viewport width.
pub fn text_wrap_layout(buffer: &TextBuffer, viewport_width: usize) -> (layout: TextWrapLayout)
    ensures
        layout.line_tops@.len() == line_count(buffer@),
        layout.line_heights@.len() == line_count(buffer@),
        forall|i: int|
            0 <= i < line_count(buffer@) ==> #[trigger] layout.line_tops@[i] == wrapped_line_top(
                buffer@,
                i,
                viewport_width as int,
            ) && layout.line_heights@[i] == wrapped_line_height(buffer@, i, viewport_width as int),
        layout.logical_height == wrapped_line_top(buffer@, line_count(buffer@) as int, viewport_width as int),
        sorted(layout.line_tops@),
        forall|i: int| 0 <= i < layout.line_tops@.len() ==> #[trigger] layout.line_tops@[i] <= layout.logical_height,
{
    let per_row = text_wrap_chars_per_row(viewport_width);
    let count = buffer.line_count();
    let mut line_tops: Vec<usize> = Vec::new();
    let mut line_heights: Vec<usize> = Vec::new();
    let mut top: usize = 0;
    let mut row: usize = 0;
    while row < count
        invariant
            count == line_count(buffer@),
            per_row == chars_per_row(viewport_width as int),
            per_row >= 1,
            0 <= row <= count,
            line_tops@.len() == row,
            line_heights@.len() == row,
            top == wrapped_line_top(buffer@, row as int, viewport_width as int),
            sorted(line_tops@),
            forall|i: int| 0 <= i < line_tops@.len() ==> #[trigger] line_tops@[i] <= top,
            forall|i: int|
                0 <= i < row ==> #[trigger] line_tops@[i] == wrapped_line_top(
                    buffer@,
                    i,
                    viewport_width as int,
                ) && line_heights@[i] == wrapped_line_height(buffer@, i, viewport_width as int),
        decreases count - row,
    {
        line_tops.push(top);
        let line_len = text_line_byte_len(buffer, row);
        let len = if line_len < 1 {
            1
        } else {
            line_len
        };
        let q = len / per_row;
        let r = len % per_row;
        proof {
            let l = len as int;
            let p = per_row as int;
            assert(r != 0 ==> q < usize::MAX) by (nonlinear_arith)
                requires
                    l >= 1,
                    p >= 1,
                    l <= usize::MAX,
                    q == l / p,
                    r == l % p,
            ;
        }
        let rows0 = if r != 0 {
            q + 1
        } else {
            q
        };
        proof {
            let l = len as int;
            let p = per_row as int;
            assert(rows0 == (l + p - 1) / p) by (nonlinear_arith)
                requires
                    l >= 1,
                    p >= 1,
                    q == l / p,
                    r == l % p,
                    rows0 == if r != 0 {
                        q + 1
                    } else {
                        q as int
                    },
            ;
        }
        let visual = if rows0 < 1 {
            1
        } else {
            rows0
        };
        let height = saturating_mul_usize(visual, TEXT_ROW_HEIGHT);
        assert(visual == visual_rows(line_byte_len(buffer@, row as int) as int, per_row as int));
        assert(height == wrapped_line_height(buffer@, row as int, viewport_width as int));
        let ghost old_row = row as int;
        line_heights.push(height);
        top = top.saturating_add(height);
        row += 1;
        assert forall|i: int| 0 <= i < row implies #[trigger] line_tops@[i] == wrapped_line_top(
            buffer@,
            i,
            viewport_width as int,
        ) && line_heights@[i] == wrapped_line_height(buffer@, i, viewport_width as int) by {
            if i < old_row {
                assert(line_tops@[i] == wrapped_line_top(buffer@, i, viewport_width as int));
                assert(line_heights@[i] == wrapped_line_height(buffer@, i, viewport_width as int));
            } else {
                assert(i == old_row);
                assert(line_tops@[i] == wrapped_line_top(buffer@, i, viewport_width as int));
                assert(line_heights@[i] == wrapped_line_height(buffer@, i, viewport_width as int));
            }
        }
    }
    TextWrapLayout { line_tops, line_heights, logical_height: top }
}

/// How the wrapped text scrolls: the displayed and logical offsets, the
/// rows to draw, and whether the displayed height is scaled down.
#[derive(Debug, Clone, Copy, PartialEq, Eq, Structural)]
pub struct WrappedTextScroll {
    pub content_height: usize,
    pub logical_scroll_top: usize,
    pub display_scroll_top: usize,
    pub start_row: usize,
    pub end_row: usize,
    pub scaled: bool,
}

/// Where a line whose logical top is `line_top` is drawn: at its logical
/// top, or, when the scroll is scaled, shifted by the difference between the
/// displayed and logical scroll offsets and kept within `0..=i64::MAX`.
pub open spec fn row_top(line_top: int, scroll: WrappedTextScroll) -> int {
    if !scroll.scaled {
        if line_top < i64::MAX {
            line_top
        } else {
            i64::MAX as int
        }
    } else {
        let top = scroll.display_scroll_top + line_top - scroll.logical_scroll_top;
        if top < 0 {
            0
        } else if top > i64::MAX {
            i64::MAX as int
        } else {
            top
        }
    }
}

/// Where a line whose logical top is `line_top` is drawn.
pub fn wrapped_text_row_top(line_top: usize, scroll: WrappedTextScroll) -> (top: i64)
    ensures
        top == row_top(line_top as int, scroll),
{
    if !scroll.scaled {
        return if (line_top as u64) < (i64::MAX as u64) {
            line_top as i64
        } else {
            i64::MAX
        };
    }
    let top = scroll.display_scroll_top as i128 + line_top as i128
        - scroll.logical_scroll_top as i128;
    if top < 0 {
        0
    } else if top > i64::MAX as i128 {
        i64::MAX
    } else {
        top as i64
    }
}

/// The number of leading entries of `tops` at or below `logical_top`.
pub open spec fn count_at_or_below(tops: Seq<usize>, logical_top: int) -> int
    decreases tops.len(),
{
    if tops.len() == 0 {
        0
    } else if tops.last() <= logical_top {
        count_at_or_below(tops.drop_last(), logical_top) + 1
    } else {
        count_at_or_below(tops.drop_last(), logical_top)
    }
}

/// The entries never decrease.
pub open spec fn sorted(tops: Seq<usize>) -> bool {
    forall|i: int, j: int| 0 <= i <= j < tops.len() ==> tops[i] <= tops[j]
}

/// In sorted `tops`, when the first `k` entries are at or below `logical_top`
/// and the rest above it, `k` of them are counted.
pub proof fn lemma_count_at_or_below_sorted(tops: Seq<usize>, logical_top: int, k: int)
    requires
        sorted(tops),
        0 <= k <= tops.len(),
        forall|i: int| 0 <= i < k ==> tops[i] <= logical_top,
        forall|i: int| k <= i < tops.len() ==> tops[i] > logical_top,
    ensures
        count_at_or_below(tops, logical_top) == k,
    decreases tops.len(),
{
    if tops.len() > 0 {
        let t = tops.drop_last();
        if k == tops.len() {
            lemma_count_at_or_below_sorted(t, logical_top, k - 1);
        } else {
            lemma_count_at_or_below_sorted(t, logical_top, k);
        }
    }
}

/// The line whose logical top is the last one at or above `logical_top`
/// (line 0 when none is).
pub fn line_for_logical_top(line_tops: &[usize], logical_top: usize) -> (line: usize)
    requires
        sorted(line_tops@),
    ensures
        line == sat_sub(count_at_or_below(line_tops@, logical_top as int), 1),
{
    let mut lo: usize = 0;
    let mut hi: usize = line_tops.len();
    while lo < hi
        invariant
            0 <= lo <= hi <= line_tops@.len(),
            sorted(line_tops@),
            forall|i: int| 0 <= i < lo ==> line_tops@[i] <= logical_top,
            forall|i: int| hi <= i < line_tops@.len() ==> line_tops@[i] > logical_top,
        decreases hi - lo,
    {
        let mid = lo + (hi - lo) / 2;
        if line_tops[mid] <= logical_top {
            lo = mid + 1;
        } else {
            hi = mid;
        }
    }
    proof {
        lemma_count_at_or_below_sorted(line_tops@, logical_top as int, lo as int);
    }
    lo.saturating_sub(1)
}

/// The number of leading entries of sorted `tops` at or below `limit`.
fn count_sorted_at_or_below(line_tops: &[usize], limit: usize) -> (n: usize)
    requires
        sorted(line_tops@),
    ensures
        n == count_at_or_below(line_tops@, limit as int),
        n <= line_tops@.len(),
{
    let mut lo: usize = 0;
    let mut hi: usize = line_tops.len();
    while lo < hi
        invariant
            0 <= lo <= hi <= line_tops@.len(),
            sorted(line_tops@),
            forall|i: int| 0 <= i < lo ==> line_tops@[i] <= limit,
            forall|i: int| hi <= i < line_tops@.len() ==> line_tops@[i] > limit,
        decreases hi - lo,
    {
        let mid = lo + (hi - lo) / 2;
        if line_tops[mid] <= limit {
            lo = mid + 1;
        } else {
            hi = mid;
        }
    }
    proof {
        lemma_count_at_or_below_sorted(line_tops@, limit as int, lo as int);
    }
    lo
}

/// The number of leading entries of sorted `tops` below `limit`.
fn count_sorted_below(line_tops: &[usize], limit: usize) -> (n: usize)
    requires
        sorted(line_tops@),
    ensures
        n == count_at_or_below(line_tops@, limit - 1),
        n <= line_tops@.len(),
{
    if limit == 0 {
        proof {
            lemma_count_at_or_below_sorted(line_tops@, -1, 0);
        }
        0
    } else {
        count_sorted_at_or_below(line_tops, limit - 1)
    }
}

/// The height of the scroll area: the text's height, capped.
pub open spec fn content_height(logical_height: int) -> int {
    if logical_height < TEXT_MAX_VIRTUAL_SCROLL_HEIGHT {
        logical_height
    } else {
        TEXT_MAX_VIRTUAL_SCROLL_HEIGHT as int
    }
}

/// The height of the scroll area for text this tall.
pub fn wrapped_text_content_height(logical_height: usize) -> (h: usize)
    ensures
        h == content_height(logical_height as int),
{
    if logical_height < TEXT_MAX_VIRTUAL_SCROLL_HEIGHT {
        logical_height
    } else {
        TEXT_MAX_VIRTUAL_SCROLL_HEIGHT
    }
}

/// Whether text this tall scrolls through a scaled-down area.
pub fn wrapped_text_scaled(logical_height: usize) -> (b: bool)
    ensures
        b == (logical_height > TEXT_MAX_VIRTUAL_SCROLL_HEIGHT),
{
    logical_height > TEXT_MAX_VIRTUAL_SCROLL_HEIGHT
}

/// The rows to draw for the wrapped text scrolled to `logical_scroll_top`
/// (a pixel offset into the text) in a viewport `viewport_height` tall: from
/// the line at the top of the overscan above, to one past the last line
/// starting above the overscan below, at most the line count. Without lines
/// nothing is drawn and both offsets are zero.
pub open spec fn wrapped_scroll(
    tops: Seq<usize>,
    logical_height: int,
    display_scroll_top: int,
    logical_scroll_top: int,
    viewport_height: int,
) -> WrappedTextScroll {
    let count = tops.len() as int;
    if count == 0 {
        WrappedTextScroll {
            content_height: content_height(logical_height) as usize,
            logical_scroll_top: 0,
            display_scroll_top: 0,
            start_row: 0,
            end_row: 0,
            scaled: false,
        }
    } else {
        let overscan = sat_mul(TEXT_OVERSCAN_ROWS as int, TEXT_ROW_HEIGHT as int);
        let start_px = sat_sub(logical_scroll_top, overscan);
        let bottom = sat_add(sat_add(logical_scroll_top, viewport_height), overscan);
        let end_px = if bottom < logical_height {
            bottom
        } else {
            logical_height
        };
        let below = sat_add(count_at_or_below(tops, end_px - 1), 1);
        WrappedTextScroll {
            content_height: content_height(logical_height) as usize,
            logical_scroll_top: logical_scroll_top as usize,
            display_scroll_top: display_scroll_top as usize,
            start_row: sat_sub(count_at_or_below(tops, start_px), 1) as usize,
            end_row: (if below < count {
                below
            } else {
                count
            }) as usize,
            scaled: logical_height > TEXT_MAX_VIRTUAL_SCROLL_HEIGHT,
        }
    }
}

/// How the wrapped text scrolls, once the scroll position is known as the
/// displayed offset and the offset into the text.
pub fn wrapped_text_scroll(
    layout: &TextWrapLayout,
    display_scroll_top: usize,
    logical_scroll_top: usize,
    viewport_height: usize,
) -> (scroll: WrappedTextScroll)
    requires
        sorted(layout.line_tops@),
    ensures
        scroll == wrapped_scroll(
            layout.line_tops@,
            layout.logical_height as int,
            display_scroll_top as int,
            logical_scroll_top as int,
            viewport_height as int,
        ),
{
    let line_count = layout.line_tops.len();
    let content_height = wrapped_text_content_height(layout.logical_height);
    if line_count == 0 {
        return WrappedTextScroll {
            content_height,
            logical_scroll_top: 0,
            display_scroll_top: 0,
            start_row: 0,
            end_row: 0,
            scaled: false,
        };
    }
    let scaled = wrapped_text_scaled(layout.logical_height);
    let overscan_px = saturating_mul_usize(TEXT_OVERSCAN_ROWS, TEXT_ROW_HEIGHT);
    let start_px = logical_scroll_top.saturating_sub(overscan_px);
    let bottom = logical_scroll_top.saturating_add(viewport_height).saturating_add(overscan_px);
    let end_px = if bottom < layout.logical_height {
        bottom
    } else {
        layout.logical_height
    };
    let start_row = line_for_logical_top(layout.line_tops.as_slice(), start_px);
    let below = count_sorted_below(layout.line_tops.as_slice(), end_px).saturating_add(1);
    let end_row = if below < line_count {
        below
    } else {
        line_count
    };
    WrappedTextScroll {
        content_height,
        logical_scroll_top,
        display_scroll_top,
        start_row,
        end_row,
        scaled,
    }
}

/// A line as the editor draws it.
#[derive(Debug, Clone, PartialEq, Eq)]
pub struct VisibleTextLine {
    pub top: i64,
    pub height: usize,
    pub line_index: usize,
    pub line_number: usize,
    pub line_text: String,
}

/// Whether one of `lines` draws line `row`.
pub open spec fn draws_row(lines: Seq<VisibleTextLine>, row: int) -> bool {
    exists|k: int| 0 <= k < lines.len() && #[trigger] lines[k].line_index == row
}

/// The wrapped lines from `scroll.start_row` up to `scroll.end_row` that the
/// layout and the buffer both have, each at its drawn top.
pub fn wrapped_text_buffer_visible_lines(
    buffer: &TextBuffer,
    layout: &TextWrapLayout,
    scroll: WrappedTextScroll,
) -> (lines: Vec<VisibleTextLine>)
    ensures
        forall|k: int|
            0 <= k < lines@.len() ==> {
                let l = #[trigger] lines@[k];
                let row = l.line_index as int;
                &&& scroll.start_row <= row < scroll.end_row
                &&& row < layout.line_tops@.len()
                &&& row < layout.line_heights@.len()
                &&& row < line_count(buffer@)
                &&& l.top == row_top(layout.line_tops@[row] as int, scroll)
                &&& l.height == layout.line_heights@[row]
                &&& l.line_number == row + 1
                &&& l.line_text@ == line_text(buffer@, row)
            },
        forall|k: int, m: int|
            0 <= k < m < lines@.len() ==> lines@[k].line_index < lines@[m].line_index,
        forall|row: int|
            scroll.start_row <= row < scroll.end_row && row < layout.line_tops@.len() && row
                < layout.line_heights@.len() && row < line_count(buffer@) ==> #[trigger] draws_row(
                lines@,
                row,
            ),
{
    let mut lines: Vec<VisibleTextLine> = Vec::new();
    let mut row = scroll.start_row;
    let count = buffer.line_count();
    while row < scroll.end_row
        invariant
            scroll.start_row <= row <= scroll.end_row || (row == scroll.start_row && scroll.start_row > scroll.end_row),
            count == line_count(buffer@),
            forall|k: int|
                0 <= k < lines@.len() ==> {
                    let l = #[trigger] lines@[k];
                    let r = l.line_index as int;
                    &&& scroll.start_row <= r < row
                    &&& r < layout.line_tops@.len()
                    &&& r < layout.line_heights@.len()
                    &&& r < line_count(buffer@)
                    &&& l.top == row_top(layout.line_tops@[r] as int, scroll)
                    &&& l.height == layout.line_heights@[r]
                    &&& l.line_number == r + 1
                    &&& l.line_text@ == line_text(buffer@, r)
                },
            forall|k: int, m: int|
                0 <= k < m < lines@.len() ==> lines@[k].line_index < lines@[m].line_index,
            forall|r: int|
                scroll.start_row <= r < row && r < layout.line_tops@.len() && r
                    < layout.line_heights@.len() && r < line_count(buffer@) ==> #[trigger] draws_row(
                    lines@,
                    r,
                ),
        decreases scroll.end_row - row,
    {
        if row < layout.line_tops.len() && row < layout.line_heights.len() && row < count {
            let line_top = layout.line_tops[row];
            let height = layout.line_heights[row];
            let top = wrapped_text_row_top(line_top, scroll);
            let start = buffer.line_start_char(row);
            let end = buffer.line_display_end_char(row);
            let text = string_from_chars(buffer.chars(), start, end);
            let ghost before = lines@;
            lines.push(
                VisibleTextLine { top, height, line_index: row, line_number: row + 1, line_text: text },
            );
            proof {
                assert(lines@[before.len() as int].line_index == row);
                assert forall|r: int|
                    scroll.start_row <= r < row + 1 && r < layout.line_tops@.len() && r
                        < layout.line_heights@.len() && r < line_count(buffer@) implies #[trigger] draws_row(
                    lines@,
                    r,
                ) by {
                    if r < row {
                        assert(draws_row(before, r));
                        let k = choose|k: int| 0 <= k < before.len() && #[trigger] before[k].line_index == r;
                        assert(lines@[k] == before[k]);
                    } else {
                        assert(lines@[before.len() as int].line_index == r);
                    }
                }
            }
        }
        row += 1;
    }
    lines
}

} // verus!
