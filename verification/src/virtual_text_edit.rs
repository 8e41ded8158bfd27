//! What the virtual text editor draws on a line, and how edits and caret
//! moves are derived from the caret and the selection.
use vstd::prelude::*;

use crate::range_edit::{
    TextRangeReplacement, point_after, replacement_fields, text_point_after_replacement,
};
use crate::text_buffer::TextBuffer;
use crate::text_layout::text_line_at;
use crate::text_lines::{line_count, line_text};
use crate::text_metrics::{
    Encoding, chars_fit_count, chars_width, fit_count, fits_usize, lemma_fit_count,
    lemma_fit_count_exact, lemma_text_width_take_le, str_chars, str_fits, string_from_chars,
    utf16_len, utf8_len,
};
use crate::virtual_text::{
    VirtualTextPoint, VirtualTextSelection, clamp_virtual_text_point, clamped_point, line_utf16_len,
    normalize_virtual_text_selection, normalized, point_le, virtual_text_line_utf16_len,
};

verus! {

/// The byte offset in `s` of UTF-16 column `col`: the last character boundary
/// at or before it.
pub open spec fn column_byte(s: Seq<char>, col: int) -> int {
    utf8_len(s.take(fit_count(s, col, Encoding::Utf16) as int)) as int
}

/// `b` is a byte offset in `s` that falls between two characters.
pub open spec fn is_byte_boundary(s: Seq<char>, b: int) -> bool {
    0 <= b && utf8_len(s.take(fit_count(s, b, Encoding::Utf8) as int)) == b
}

/// The byte range of `line_text` that a selection covers on line `line_index`.
pub open spec fn line_selection_columns(
    selection: Option<VirtualTextSelection>,
    line_index: int,
    line_text: Seq<char>,
) -> Option<(int, int)> {
    match selection {
        None => None,
        Some(sel) => {
            let n = normalized(sel);
            if line_index < n.0 || line_index > n.2 {
                None
            } else {
                let start = if line_index == n.0 {
                    column_byte(line_text, n.1 as int)
                } else {
                    0
                };
                let end = if line_index == n.2 {
                    column_byte(line_text, n.3 as int)
                } else {
                    utf8_len(line_text) as int
                };
                if start < end {
                    Some((start, end))
                } else {
                    None
                }
            }
        },
    }
}

/// The byte range of `line_text` that the selection covers on line
/// `line_index`, or `None` when it covers none of it.
pub fn virtual_text_line_selection_columns(
    selection: Option<VirtualTextSelection>,
    line_index: usize,
    line_text: &str,
) -> (r: Option<(usize, usize)>)
    ensures
        match line_selection_columns(selection, line_index as int, line_text@) {
            Some((a, b)) => r == Some((a as usize, b as usize)) && 0 <= a < b <= utf8_len(line_text@),
            None => r is None,
        },
        r matches Some((a, b)) ==> is_byte_boundary(line_text@, a as int) && is_byte_boundary(
            line_text@,
            b as int,
        ) && a < b <= utf8_len(line_text@),
{
    let selection = match selection {
        Some(s) => s,
        None => return None,
    };
    let (start_line, start_column, end_line, end_column) = normalize_virtual_text_selection(
        selection,
    );
    if line_index < start_line || line_index > end_line {
        return None;
    }
    crate::text_metrics::str_fits(line_text);
    let chars = str_chars(line_text);
    let n = chars.len();
    proof {
        assert(chars@.subrange(0, n as int) =~= chars@);
    }
    let start = if line_index == start_line {
        let k = chars_fit_count(&chars, 0, n, start_column, &Encoding::Utf16);
        proof {
            lemma_fit_count(chars@, start_column as int, Encoding::Utf16);
            assert(chars@.subrange(0, k as int) =~= chars@.take(k as int));
            lemma_text_width_take_le(chars@, k as int, Encoding::Utf8);
            lemma_fit_count_exact(chars@, k as int, Encoding::Utf8);
        }
        chars_width(&chars, 0, k, &Encoding::Utf8)
    } else {
        proof {
            assert(chars@.take(0) =~= Seq::<char>::empty());
            assert(utf8_len(Seq::<char>::empty()) == 0);
            lemma_fit_count_exact(chars@, 0, Encoding::Utf8);
        }
        0
    };
    let end = if line_index == end_line {
        let k = chars_fit_count(&chars, 0, n, end_column, &Encoding::Utf16);
        proof {
            lemma_fit_count(chars@, end_column as int, Encoding::Utf16);
            assert(chars@.subrange(0, k as int) =~= chars@.take(k as int));
            lemma_text_width_take_le(chars@, k as int, Encoding::Utf8);
            lemma_fit_count_exact(chars@, k as int, Encoding::Utf8);
        }
        chars_width(&chars, 0, k, &Encoding::Utf8)
    } else {
        proof {
            lemma_fit_count_exact(chars@, n as int, Encoding::Utf8);
            assert(chars@.take(n as int) =~= chars@);
        }
        chars_width(&chars, 0, n, &Encoding::Utf8)
    };
    proof {
        lemma_fit_count(chars@, start_column as int, Encoding::Utf16);
        lemma_fit_count(chars@, end_column as int, Encoding::Utf16);
        lemma_text_width_take_le(chars@, fit_count(chars@, start_column as int, Encoding::Utf16) as int, Encoding::Utf8);
        lemma_text_width_take_le(chars@, fit_count(chars@, end_column as int, Encoding::Utf16) as int, Encoding::Utf8);
    }
    if start < end {
        Some((start, end))
    } else {
        None
    }
}

/// `b` is the byte offset of UTF-16 column `col` in `text`: the bytes of the
/// longest prefix whose UTF-16 width stays within `col`.
pub open spec fn is_column_byte(text: Seq<char>, col: int, b: int) -> bool {
    exists|k: int|
        0 <= k <= text.len() && b == #[trigger] utf8_len(text.take(k)) && utf16_len(text.take(k))
            <= col && (k == text.len() || utf16_len(text.take(k + 1)) > col)
}

/// Every column has exactly one byte offset, the one `column_byte` gives.
proof fn lemma_column_byte_unique(text: Seq<char>, col: int)
    requires
        col >= 0,
    ensures
        is_column_byte(text, col, column_byte(text, col)),
        forall|b: int| is_column_byte(text, col, b) ==> b == column_byte(text, col),
{
    lemma_fit_count(text, col, Encoding::Utf16);
    let k = fit_count(text, col, Encoding::Utf16) as int;
    assert(column_byte(text, col) == utf8_len(text.take(k)));
    assert forall|b: int| is_column_byte(text, col, b) implies b == column_byte(text, col) by {
        let k2 = choose|k2: int|
            0 <= k2 <= text.len() && b == #[trigger] utf8_len(text.take(k2)) && utf16_len(
                text.take(k2),
            ) <= col && (k2 == text.len() || utf16_len(text.take(k2 + 1)) > col);
        crate::text_metrics::lemma_fit_count_unique(text, col, k2, Encoding::Utf16);
    }
}

/// Where a selection's highlight starts on a line: at the byte of the
/// selection's start column on its first line, at byte 0 on a later line.
pub open spec fn highlight_starts_at(first_line: int, first_col: int, line_index: int, text: Seq<char>, a: int) -> bool {
    if line_index == first_line {
        is_column_byte(text, first_col, a)
    } else {
        a == 0
    }
}

/// Where a selection's highlight ends on a line: at the byte of the
/// selection's end column on its last line, at the line's end on an earlier
/// line.
pub open spec fn highlight_ends_at(last_line: int, last_col: int, line_index: int, text: Seq<char>, b: int) -> bool {
    if line_index == last_line {
        is_column_byte(text, last_col, b)
    } else {
        b == utf8_len(text)
    }
}

/// The highlight a selection draws on a line. Nothing is highlighted without
/// a selection or on a line outside it. On a line inside it the highlight
/// starts at byte 0, except on the selection's first line, where it starts
/// at the byte of the earlier end's column; it ends at the line's last byte,
/// except on the selection's last line, where it ends at the byte of the
/// later end's column; and it is drawn exactly when it is not empty.
pub proof fn lemma_line_highlight(selection: VirtualTextSelection, line_index: int, text: Seq<char>)
    ensures
        line_selection_columns(None, line_index, text) is None,
        ({
            let anchor_first = point_le(
                selection.start_line as int,
                selection.start_column_utf16 as int,
                selection.end_line as int,
                selection.end_column_utf16 as int,
            );
            let (fl, fc, ll, lc) = if anchor_first {
                (selection.start_line as int, selection.start_column_utf16 as int, selection.end_line as int, selection.end_column_utf16 as int)
            } else {
                (selection.end_line as int, selection.end_column_utf16 as int, selection.start_line as int, selection.start_column_utf16 as int)
            };
            let r = line_selection_columns(Some(selection), line_index, text);
            &&& (line_index < fl || line_index > ll) ==> r is None
            &&& fl <= line_index <= ll ==> {
                &&& r matches Some((a, b)) ==> highlight_starts_at(fl, fc, line_index, text, a)
                    && highlight_ends_at(ll, lc, line_index, text, b) && a < b
                &&& r is None ==> forall|a: int, b: int|
                    highlight_starts_at(fl, fc, line_index, text, a) && highlight_ends_at(
                        ll,
                        lc,
                        line_index,
                        text,
                        b,
                    ) ==> a >= b
            }
        }),
{
    let n = normalized(selection);
    lemma_column_byte_unique(text, n.1 as int);
    lemma_column_byte_unique(text, n.3 as int);
}

/// The kind of a run of a drawn line.
#[derive(Debug, Clone, Copy, PartialEq, Eq, Structural)]
pub enum PieceKind {
    Text,
    Selected,
    Caret,
}

/// A run of a drawn line: plain text, selected text, or the caret.
#[derive(Debug, PartialEq, Eq)]
pub enum VirtualTextLinePiece {
    Text(String),
    Selected(String),
    Caret,
}

/// A piece as its kind and characters.
pub open spec fn piece_view(p: VirtualTextLinePiece) -> (PieceKind, Seq<char>) {
    match p {
        VirtualTextLinePiece::Text(t) => (PieceKind::Text, t@),
        VirtualTextLinePiece::Selected(t) => (PieceKind::Selected, t@),
        VirtualTextLinePiece::Caret => (PieceKind::Caret, Seq::<char>::empty()),
    }
}

/// The pieces as kinds and characters.
pub open spec fn pieces_view(ps: Seq<VirtualTextLinePiece>) -> Seq<(PieceKind, Seq<char>)> {
    ps.map_values(|p: VirtualTextLinePiece| piece_view(p))
}

/// Adds a run, leaving out empty text runs.
pub open spec fn pushed(
    ps: Seq<(PieceKind, Seq<char>)>,
    p: (PieceKind, Seq<char>),
) -> Seq<(PieceKind, Seq<char>)> {
    if p.0 != PieceKind::Caret && p.1.len() == 0 {
        ps
    } else {
        ps.push(p)
    }
}

/// Adds a run to a drawn line, leaving out empty text runs.
pub fn push_virtual_text_piece(pieces: &mut Vec<VirtualTextLinePiece>, piece: VirtualTextLinePiece)
    ensures
        pieces_view(final(pieces)@) == pushed(pieces_view(old(pieces)@), piece_view(piece)),
{
    let empty = match &piece {
        VirtualTextLinePiece::Text(text) => text.as_str().is_empty(),
        VirtualTextLinePiece::Selected(text) => text.as_str().is_empty(),
        VirtualTextLinePiece::Caret => false,
    };
    if !empty {
        pieces.push(piece);
        proof {
            assert(pieces_view(pieces@) =~= pieces_view(old(pieces)@).push(piece_view(piece)));
        }
    }
}

/// The runs of a line with `line_text[start..end]` (byte offsets) selected.
pub fn virtual_text_selected_line_pieces(line_text: &str, start: usize, end: usize) -> (r: Vec<
    VirtualTextLinePiece,
>)
    requires
        is_byte_boundary(line_text@, start as int),
        is_byte_boundary(line_text@, end as int),
        start <= end <= utf8_len(line_text@),
    ensures
        ({
            let s = line_text@;
            let a = fit_count(s, start as int, Encoding::Utf8) as int;
            let b = fit_count(s, end as int, Encoding::Utf8) as int;
            pieces_view(r@) == pushed(
                pushed(
                    pushed(Seq::empty(), (PieceKind::Text, s.take(a))),
                    (PieceKind::Selected, s.subrange(a, b)),
                ),
                (PieceKind::Text, s.skip(b)),
            )
        }),
{
    let chars = str_chars(line_text);
    let n = chars.len();
    let a = chars_fit_count(&chars, 0, n, start, &Encoding::Utf8);
    let b = chars_fit_count(&chars, 0, n, end, &Encoding::Utf8);
    proof {
        assert(chars@.subrange(0, n as int) =~= chars@);
        lemma_fit_count(chars@, start as int, Encoding::Utf8);
        lemma_fit_count(chars@, end as int, Encoding::Utf8);
        if a > b {
            crate::text_metrics::lemma_text_width_take_mono(chars@, b as int, a as int, Encoding::Utf8);
        }
        assert(chars@.subrange(0, a as int) =~= chars@.take(a as int));
        assert(chars@.subrange(b as int, n as int) =~= chars@.skip(b as int));
    }
    let mut pieces: Vec<VirtualTextLinePiece> = Vec::new();
    proof {
        assert(pieces_view(pieces@) =~= Seq::<(PieceKind, Seq<char>)>::empty());
    }
    push_virtual_text_piece(&mut pieces, VirtualTextLinePiece::Text(string_from_chars(&chars, 0, a)));
    push_virtual_text_piece(
        &mut pieces,
        VirtualTextLinePiece::Selected(string_from_chars(&chars, a, b)),
    );
    push_virtual_text_piece(&mut pieces, VirtualTextLinePiece::Text(string_from_chars(&chars, b, n)));
    pieces
}

/// The runs of a line with the caret at UTF-16 column `column_utf16`.
pub fn virtual_text_caret_line_pieces(line_text: &str, column_utf16: usize) -> (r: Vec<
    VirtualTextLinePiece,
>)
    ensures
        ({
            let s = line_text@;
            let c = fit_count(s, column_utf16 as int, Encoding::Utf16) as int;
            pieces_view(r@) == pushed(
                pushed(Seq::empty(), (PieceKind::Text, s.take(c))).push(
                    (PieceKind::Caret, Seq::empty()),
                ),
                (PieceKind::Text, s.skip(c)),
            )
        }),
{
    let chars = str_chars(line_text);
    let n = chars.len();
    let c = chars_fit_count(&chars, 0, n, column_utf16, &Encoding::Utf16);
    proof {
        assert(chars@.subrange(0, n as int) =~= chars@);
        lemma_fit_count(chars@, column_utf16 as int, Encoding::Utf16);
        assert(chars@.subrange(0, c as int) =~= chars@.take(c as int));
        assert(chars@.subrange(c as int, n as int) =~= chars@.skip(c as int));
    }
    let mut pieces: Vec<VirtualTextLinePiece> = Vec::new();
    proof {
        assert(pieces_view(pieces@) =~= Seq::<(PieceKind, Seq<char>)>::empty());
    }
    push_virtual_text_piece(&mut pieces, VirtualTextLinePiece::Text(string_from_chars(&chars, 0, c)));
    let ghost before = pieces@;
    pieces.push(VirtualTextLinePiece::Caret);
    proof {
        assert(pieces_view(pieces@) =~= pieces_view(before).push((PieceKind::Caret, Seq::empty())));
    }
    push_virtual_text_piece(&mut pieces, VirtualTextLinePiece::Text(string_from_chars(&chars, c, n)));
    pieces
}

/// The runs in which line `line_index` is drawn: its selected part when the
/// selection covers some of it, else the caret when it is on this line, else
/// the plain text.
pub fn virtual_text_line_pieces(
    selection: Option<VirtualTextSelection>,
    caret: VirtualTextPoint,
    line_index: usize,
    line_text: &str,
) -> (r: Vec<VirtualTextLinePiece>)
    ensures
        ({
            let s = line_text@;
            match line_selection_columns(selection, line_index as int, s) {
                Some((a, b)) => {
                    let ca = fit_count(s, a, Encoding::Utf8) as int;
                    let cb = fit_count(s, b, Encoding::Utf8) as int;
                    pieces_view(r@) == pushed(
                        pushed(
                            pushed(Seq::empty(), (PieceKind::Text, s.take(ca))),
                            (PieceKind::Selected, s.subrange(ca, cb)),
                        ),
                        (PieceKind::Text, s.skip(cb)),
                    )
                },
                None => if caret.line_index == line_index {
                    let c = fit_count(s, caret.column_utf16 as int, Encoding::Utf16) as int;
                    pieces_view(r@) == pushed(
                        pushed(Seq::empty(), (PieceKind::Text, s.take(c))).push(
                            (PieceKind::Caret, Seq::empty()),
                        ),
                        (PieceKind::Text, s.skip(c)),
                    )
                } else if s.len() == 0 {
                    r@.len() == 0
                } else {
                    pieces_view(r@) == seq![(PieceKind::Text, s)]
                },
            }
        }),
{
    crate::text_metrics::str_fits(line_text);
    if let Some((start, end)) = virtual_text_line_selection_columns(selection, line_index, line_text) {
        return virtual_text_selected_line_pieces(line_text, start, end);
    }
    if caret.line_index == line_index {
        return virtual_text_caret_line_pieces(line_text, caret.column_utf16);
    }
    if line_text.is_empty() {
        Vec::new()
    } else {
        let mut pieces = Vec::new();
        pieces.push(VirtualTextLinePiece::Text(line_text.to_owned()));
        proof {
            assert(pieces_view(pieces@) =~= seq![(PieceKind::Text, line_text@)]);
        }
        pieces
    }
}

/// Replaces the selected text with `replacement`.
pub fn virtual_text_selection_replacement(
    selection: VirtualTextSelection,
    replacement: String,
) -> (r: TextRangeReplacement)
    ensures
        replacement_fields(r) == (
            selection.start_line,
            selection.start_column_utf16,
            selection.end_line,
            selection.end_column_utf16,
            replacement@,
        ),
{
    TextRangeReplacement {
        start_line: selection.start_line,
        start_column_utf16: selection.start_column_utf16,
        end_line: selection.end_line,
        end_column_utf16: selection.end_column_utf16,
        replacement,
    }
}

/// Deletes the selected text.
pub fn virtual_text_selection_delete_replacement(selection: VirtualTextSelection) -> (r:
    TextRangeReplacement)
    ensures
        replacement_fields(r) == (
            selection.start_line,
            selection.start_column_utf16,
            selection.end_line,
            selection.end_column_utf16,
            Seq::<char>::empty(),
        ),
{
    virtual_text_selection_replacement(selection, String::new())
}

/// Inserts `replacement` at the caret.
pub fn virtual_text_caret_replacement(caret: VirtualTextPoint, replacement: String) -> (r:
    TextRangeReplacement)
    ensures
        replacement_fields(r) == (
            caret.line_index,
            caret.column_utf16,
            caret.line_index,
            caret.column_utf16,
            replacement@,
        ),
{
    TextRangeReplacement {
        start_line: caret.line_index,
        start_column_utf16: caret.column_utf16,
        end_line: caret.line_index,
        end_column_utf16: caret.column_utf16,
        replacement,
    }
}

/// The replacement inserts nothing at a single position.
pub open spec fn replacement_is_noop(r: TextRangeReplacement) -> bool {
    r.replacement@.len() == 0 && r.start_line == r.end_line && r.start_column_utf16
        == r.end_column_utf16
}

/// Whether the replacement inserts nothing at a single position.
pub fn virtual_text_replacement_is_noop(replacement: &TextRangeReplacement) -> (b: bool)
    ensures
        b == replacement_is_noop(*replacement),
{
    replacement.replacement.as_str().is_empty() && replacement.start_line == replacement.end_line
        && replacement.start_column_utf16 == replacement.end_column_utf16
}

/// The earlier of the replacement's two positions.
pub open spec fn replacement_start_point(r: TextRangeReplacement) -> VirtualTextPoint {
    if point_le(
        r.start_line as int,
        r.start_column_utf16 as int,
        r.end_line as int,
        r.end_column_utf16 as int,
    ) {
        VirtualTextPoint { line_index: r.start_line, column_utf16: r.start_column_utf16 }
    } else {
        VirtualTextPoint { line_index: r.end_line, column_utf16: r.end_column_utf16 }
    }
}

/// The earlier of the replacement's two positions.
pub fn virtual_text_replacement_start_point(replacement: &TextRangeReplacement) -> (p:
    VirtualTextPoint)
    ensures
        p == replacement_start_point(*replacement),
{
    if replacement.start_line < replacement.end_line || (replacement.start_line
        == replacement.end_line && replacement.start_column_utf16
        <= replacement.end_column_utf16) {
        VirtualTextPoint {
            line_index: replacement.start_line,
            column_utf16: replacement.start_column_utf16,
        }
    } else {
        VirtualTextPoint {
            line_index: replacement.end_line,
            column_utf16: replacement.end_column_utf16,
        }
    }
}

/// Where the caret goes once the replacement is made: after the inserted text.
pub fn virtual_text_caret_after_replacement(replacement: &TextRangeReplacement) -> (p:
    VirtualTextPoint)
    ensures
        ({
            let start = replacement_start_point(*replacement);
            let after = point_after((start.line_index, start.column_utf16), replacement.replacement@);
            p == VirtualTextPoint { line_index: after.0, column_utf16: after.1 }
        }),
{
    let start = virtual_text_replacement_start_point(replacement);
    let (line_index, column_utf16) = text_point_after_replacement(
        (start.line_index, start.column_utf16),
        replacement.replacement.as_str(),
    );
    VirtualTextPoint { line_index, column_utf16 }
}

/// The UTF-16 column of the character boundary before `column_utf16` in `s`.
pub open spec fn previous_column(s: Seq<char>, col: int) -> int {
    utf16_len(s.take(fit_count(s, col - 1, Encoding::Utf16) as int)) as int
}

/// The UTF-16 column of the character boundary after `column_utf16` in `s`.
pub open spec fn next_column(s: Seq<char>, col: int) -> int {
    let k = fit_count(s, col, Encoding::Utf16) as int;
    let k2 = if k < s.len() {
        k + 1
    } else {
        s.len() as int
    };
    utf16_len(s.take(k2)) as int
}

/// The UTF-16 column of the character boundary before `column_utf16` in
/// `text`: the start of the character that ends at or covers the column.
pub fn virtual_text_previous_utf16_column(text: &str, column_utf16: usize) -> (c: usize)
    ensures
        c == previous_column(text@, column_utf16 as int),
{
    str_fits(text);
    let chars = str_chars(text);
    if column_utf16 == 0 {
        proof {
            assert(chars@.take(0) =~= Seq::<char>::empty());
            if chars@.len() > 0 {
                crate::text_metrics::lemma_char_width_positive(chars@[0], Encoding::Utf16);
            }
        }
        return 0;
    }
    let k = chars_fit_count(&chars, 0, chars.len(), column_utf16 - 1, &Encoding::Utf16);
    proof {
        assert(chars@.subrange(0, chars@.len() as int) =~= chars@);
        lemma_fit_count(chars@, column_utf16 - 1, Encoding::Utf16);
        assert(chars@.subrange(0, k as int) =~= chars@.take(k as int));
    }
    chars_width(&chars, 0, k, &Encoding::Utf16)
}

/// The UTF-16 column of the character boundary after `column_utf16` in
/// `text`: the end of the character that starts at or covers the column,
/// or the end of the text.
pub fn virtual_text_next_utf16_column(text: &str, column_utf16: usize) -> (c: usize)
    ensures
        c == next_column(text@, column_utf16 as int),
{
    str_fits(text);
    let chars = str_chars(text);
    let k = chars_fit_count(&chars, 0, chars.len(), column_utf16, &Encoding::Utf16);
    proof {
        assert(chars@.subrange(0, chars@.len() as int) =~= chars@);
        lemma_fit_count(chars@, column_utf16 as int, Encoding::Utf16);
    }
    let k2 = if k < chars.len() {
        k + 1
    } else {
        chars.len()
    };
    proof {
        assert(chars@.subrange(0, k2 as int) =~= chars@.take(k2 as int));
    }
    chars_width(&chars, 0, k2, &Encoding::Utf16)
}

/// The point one character before `point` (clamped), or `None` at the start of the text.
pub open spec fn previous_point(s: Seq<char>, point: VirtualTextPoint) -> Option<VirtualTextPoint> {
    let p = clamped_point(s, point);
    if p.column_utf16 > 0 {
        Some(
            VirtualTextPoint {
                line_index: p.line_index,
                column_utf16: previous_column(
                    line_text(s, p.line_index as int),
                    p.column_utf16 as int,
                ) as usize,
            },
        )
    } else if p.line_index == 0 {
        None
    } else {
        Some(
            VirtualTextPoint {
                line_index: (p.line_index - 1) as usize,
                column_utf16: line_utf16_len(s, p.line_index - 1) as usize,
            },
        )
    }
}

/// The point one character after `point` (clamped), or `None` at the end of the text.
pub open spec fn next_point(s: Seq<char>, point: VirtualTextPoint) -> Option<VirtualTextPoint> {
    let p = clamped_point(s, point);
    if p.column_utf16 < line_utf16_len(s, p.line_index as int) {
        Some(
            VirtualTextPoint {
                line_index: p.line_index,
                column_utf16: next_column(
                    line_text(s, p.line_index as int),
                    p.column_utf16 as int,
                ) as usize,
            },
        )
    } else if p.line_index + 1 >= line_count(s) {
        None
    } else {
        Some(VirtualTextPoint { line_index: (p.line_index + 1) as usize, column_utf16: 0 })
    }
}

/// The point one character before `point`, moving to the end of the previous
/// line from a line start; `None` at the start of the text.
pub fn virtual_text_previous_point(buffer: &TextBuffer, point: VirtualTextPoint) -> (r: Option<
    VirtualTextPoint,
>)
    ensures
        r == previous_point(buffer@, point),
{
    let point = clamp_virtual_text_point(point, buffer);
    if point.column_utf16 > 0 {
        let line = match text_line_at(buffer, point.line_index) {
            Some(line) => line,
            None => return None,
        };
        return Some(
            VirtualTextPoint {
                line_index: point.line_index,
                column_utf16: virtual_text_previous_utf16_column(line.as_str(), point.column_utf16),
            },
        );
    }
    if point.line_index == 0 {
        return None;
    }
    let previous_line = point.line_index - 1;
    Some(
        VirtualTextPoint {
            line_index: previous_line,
            column_utf16: virtual_text_line_utf16_len(buffer, previous_line),
        },
    )
}

/// The point one character after `point`, moving to the start of the next
/// line from a line end; `None` at the end of the text.
pub fn virtual_text_next_point(buffer: &TextBuffer, point: VirtualTextPoint) -> (r: Option<
    VirtualTextPoint,
>)
    ensures
        r == next_point(buffer@, point),
{
    let point = clamp_virtual_text_point(point, buffer);
    let line_len = virtual_text_line_utf16_len(buffer, point.line_index);
    if point.column_utf16 < line_len {
        let line = match text_line_at(buffer, point.line_index) {
            Some(line) => line,
            None => return None,
        };
        return Some(
            VirtualTextPoint {
                line_index: point.line_index,
                column_utf16: virtual_text_next_utf16_column(line.as_str(), point.column_utf16),
            },
        );
    }
    if point.line_index >= buffer.line_count() - 1 {
        return None;
    }
    Some(VirtualTextPoint { line_index: point.line_index + 1, column_utf16: 0 })
}

/// Which way Backspace and Delete reach past the caret.
#[derive(Debug, Clone, Copy, PartialEq, Eq, Structural)]
pub enum VirtualTextDeleteDirection {
    Backward,
    Forward,
}

/// The range Backspace (`Backward`) or Delete (`Forward`) removes at the
/// caret: from the previous point to the caret, or from the caret to the next point.
pub fn virtual_text_adjacent_delete_range(
    buffer: &TextBuffer,
    caret: VirtualTextPoint,
    direction: VirtualTextDeleteDirection,
) -> (r: Option<(VirtualTextPoint, VirtualTextPoint)>)
    ensures
        direction == VirtualTextDeleteDirection::Backward ==> match previous_point(buffer@, caret) {
            Some(p) => r == Some((p, caret)),
            None => r is None,
        },
        direction == VirtualTextDeleteDirection::Forward ==> match next_point(buffer@, caret) {
            Some(p) => r == Some((caret, p)),
            None => r is None,
        },
{
    match direction {
        VirtualTextDeleteDirection::Backward => {
            match virtual_text_previous_point(buffer, caret) {
                Some(previous) => Some((previous, caret)),
                None => None,
            }
        },
        VirtualTextDeleteDirection::Forward => {
            match virtual_text_next_point(buffer, caret) {
                Some(next) => Some((caret, next)),
                None => None,
            }
        },
    }
}

/// The caret-moving keys.
#[derive(Debug, Clone, Copy, PartialEq, Eq, Structural)]
pub enum VirtualTextCaretKey {
    ArrowLeft,
    ArrowRight,
    ArrowUp,
    ArrowDown,
    Home,
    End,
}

/// Where a caret-moving key takes the caret from `point`.
pub open spec fn moved_point(s: Seq<char>, point: VirtualTextPoint, key: VirtualTextCaretKey) -> VirtualTextPoint {
    match key {
        VirtualTextCaretKey::ArrowLeft => match previous_point(s, point) {
            Some(p) => p,
            None => point,
        },
        VirtualTextCaretKey::ArrowRight => match next_point(s, point) {
            Some(p) => p,
            None => point,
        },
        VirtualTextCaretKey::ArrowUp => clamped_point(
            s,
            VirtualTextPoint {
                line_index: if point.line_index == 0 {
                    0
                } else {
                    (point.line_index - 1) as usize
                },
                column_utf16: point.column_utf16,
            },
        ),
        VirtualTextCaretKey::ArrowDown => clamped_point(
            s,
            VirtualTextPoint {
                line_index: if point.line_index == usize::MAX {
                    usize::MAX
                } else {
                    (point.line_index + 1) as usize
                },
                column_utf16: point.column_utf16,
            },
        ),
        VirtualTextCaretKey::Home => VirtualTextPoint { line_index: point.line_index, column_utf16: 0 },
        VirtualTextCaretKey::End => VirtualTextPoint {
            line_index: point.line_index,
            column_utf16: line_utf16_len(s, point.line_index as int) as usize,
        },
    }
}

/// Where a caret-moving key takes the caret from `point`.
pub fn virtual_text_moved_point(buffer: &TextBuffer, point: VirtualTextPoint, key: VirtualTextCaretKey) -> (p:
    VirtualTextPoint)
    ensures
        p == moved_point(buffer@, point, key),
{
    match key {
        VirtualTextCaretKey::ArrowLeft => match virtual_text_previous_point(buffer, point) {
            Some(p) => p,
            None => point,
        },
        VirtualTextCaretKey::ArrowRight => match virtual_text_next_point(buffer, point) {
            Some(p) => p,
            None => point,
        },
        VirtualTextCaretKey::ArrowUp => clamp_virtual_text_point(
            VirtualTextPoint {
                line_index: point.line_index.saturating_sub(1),
                column_utf16: point.column_utf16,
            },
            buffer,
        ),
        VirtualTextCaretKey::ArrowDown => clamp_virtual_text_point(
            VirtualTextPoint {
                line_index: point.line_index.saturating_add(1),
                column_utf16: point.column_utf16,
            },
            buffer,
        ),
        VirtualTextCaretKey::Home => VirtualTextPoint { line_index: point.line_index, column_utf16: 0 },
        VirtualTextCaretKey::End => VirtualTextPoint {
            line_index: point.line_index,
            column_utf16: virtual_text_line_utf16_len(buffer, point.line_index),
        },
    }
}

/// The point lies inside the text, on a character boundary of its line.
pub open spec fn on_boundary(s: Seq<char>, p: VirtualTextPoint) -> bool {
    let lt = line_text(s, p.line_index as int);
    &&& clamped_point(s, p) == p
    &&& utf16_len(lt.take(fit_count(lt, p.column_utf16 as int, Encoding::Utf16) as int))
        == p.column_utf16
}

/// What a line's text is like: inside the text, no wider than it, and its
/// UTF-16 length is the line's length.
pub proof fn lemma_line_text_width(s: Seq<char>, line: int)
    requires
        fits_usize(s),
        0 <= line < line_count(s),
    ensures
        utf16_len(line_text(s, line)) <= usize::MAX,
        line_utf16_len(s, line) == utf16_len(line_text(s, line)),
        line_text(s, line).take(line_text(s, line).len() as int) == line_text(s, line),
{
    crate::text_lines::lemma_line_shape(s, line);
    crate::text_metrics::lemma_subrange_width_le(
        s,
        crate::text_lines::line_start(s, line),
        crate::text_lines::line_display_end(s, line),
        Encoding::Utf16,
    );
    let lt = line_text(s, line);
    assert(lt.take(lt.len() as int) =~= lt);
}

/// Moving right and then left from a point on a character boundary returns to it.
proof fn lemma_next_then_previous(s: Seq<char>, p: VirtualTextPoint)
    requires
        fits_usize(s),
        on_boundary(s, p),
    ensures
        next_point(s, p) matches Some(q) ==> previous_point(s, q) == Some(p),
{
    crate::text_lines::lemma_line_starts(s);
    let line = p.line_index as int;
    let col = p.column_utf16 as int;
    let lt = line_text(s, line);
    lemma_line_text_width(s, line);
    let k = fit_count(lt, col, Encoding::Utf16) as int;
    lemma_fit_count(lt, col, Encoding::Utf16);
    let len16 = utf16_len(lt) as int;
    if col < len16 {
        assert(k < lt.len());
        crate::text_metrics::lemma_text_width_take_next(lt, k, Encoding::Utf16);
        crate::text_metrics::lemma_char_width_positive(lt[k], Encoding::Utf16);
        crate::text_metrics::lemma_text_width_take_le(lt, k + 1, Encoding::Utf16);
        let c2 = utf16_len(lt.take(k + 1)) as int;
        crate::text_metrics::lemma_fit_count_unique(lt, c2 - 1, k, Encoding::Utf16);
        let q = VirtualTextPoint { line_index: p.line_index, column_utf16: c2 as usize };
        assert(next_point(s, p) == Some(q));
        assert(clamped_point(s, q) == q);
        assert(previous_point(s, q) == Some(p));
    } else if line + 1 < line_count(s) {
        assert(col == len16);
        crate::text_lines::lemma_newline_count_le_len(s);
        crate::text_metrics::lemma_len_le_utf8(s);
        let q = VirtualTextPoint { line_index: (line + 1) as usize, column_utf16: 0 };
        assert(next_point(s, p) == Some(q));
        assert(clamped_point(s, q) == q);
        assert(previous_point(s, q) == Some(p));
    }
}

/// Moving left and then right from a point on a character boundary returns to it.
proof fn lemma_previous_then_next(s: Seq<char>, p: VirtualTextPoint)
    requires
        fits_usize(s),
        on_boundary(s, p),
    ensures
        previous_point(s, p) matches Some(q) ==> next_point(s, q) == Some(p),
{
    crate::text_lines::lemma_line_starts(s);
    let line = p.line_index as int;
    let col = p.column_utf16 as int;
    let lt = line_text(s, line);
    lemma_line_text_width(s, line);
    let k = fit_count(lt, col, Encoding::Utf16) as int;
    lemma_fit_count(lt, col, Encoding::Utf16);
    if col > 0 {
        assert(k >= 1) by {
            if k == 0 {
                assert(lt.take(0) =~= Seq::<char>::empty());
            }
        }
        crate::text_metrics::lemma_text_width_take_next(lt, k - 1, Encoding::Utf16);
        crate::text_metrics::lemma_char_width_positive(lt[k - 1], Encoding::Utf16);
        crate::text_metrics::lemma_fit_count_unique(lt, col - 1, k - 1, Encoding::Utf16);
        crate::text_metrics::lemma_text_width_take_le(lt, k - 1, Encoding::Utf16);
        let c0 = utf16_len(lt.take(k - 1)) as int;
        let q = VirtualTextPoint { line_index: p.line_index, column_utf16: c0 as usize };
        assert(previous_point(s, p) == Some(q));
        assert(clamped_point(s, q) == q);
        lemma_fit_count_exact(lt, k - 1, Encoding::Utf16);
        assert(next_point(s, q) == Some(p));
    } else if line > 0 {
        let prev = line - 1;
        lemma_line_text_width(s, prev);
        let q = VirtualTextPoint {
            line_index: prev as usize,
            column_utf16: line_utf16_len(s, prev) as usize,
        };
        assert(previous_point(s, p) == Some(q));
        assert(clamped_point(s, q) == q);
        assert(next_point(s, q) == Some(p));
    }
}

/// Moving right and then left, or left and then right, from a point on a
/// character boundary returns to it.
pub proof fn lemma_caret_steps_undo_each_other(s: Seq<char>, p: VirtualTextPoint)
    requires
        fits_usize(s),
        on_boundary(s, p),
    ensures
        next_point(s, p) matches Some(q) ==> previous_point(s, q) == Some(p),
        previous_point(s, p) matches Some(q) ==> next_point(s, q) == Some(p),
{
    lemma_next_then_previous(s, p);
    lemma_previous_then_next(s, p);
}

} // verus!
