//! How the virtual text editor's caret and selection answer the mouse and
//! the keyboard, and which edit each key asks for.
use vstd::prelude::*;

use crate::range_edit::{TextRangeReplacement, point_after, replacement_fields};
use crate::text_buffer::TextBuffer;
use crate::text_lines::{
    lemma_line_shape, lemma_line_starts, lemma_newline_count_le_len, line_content_end, line_count,
    line_display_end, line_full_end, line_start, line_text,
};
use crate::text_metrics::{
    Encoding, fit_count, fits_usize, lemma_char_width_positive, lemma_fit_count, lemma_fit_count_exact,
    lemma_len_le_utf8, lemma_subrange_width_le, lemma_text_width_take_mono,
    lemma_text_width_take_next, str_chars, utf16_len,
};
use crate::virtual_text::{
    VirtualTextPoint, VirtualTextSelection, anchor_of, clamp_virtual_text_point, clamped_point,
    distinct_selection, line_utf16_len, normalized, normalized_virtual_text_selection_points,
    point_char_index, point_le, selected_chars, string_view, virtual_text_document_end_point,
    virtual_text_selected_text, virtual_text_selection_anchor,
    virtual_text_selection_from_distinct_points,
};
use crate::virtual_text_edit::{
    VirtualTextCaretKey, VirtualTextDeleteDirection, moved_point, next_point, previous_point,
    virtual_text_adjacent_delete_range, virtual_text_caret_after_replacement,
    virtual_text_caret_replacement, virtual_text_moved_point, virtual_text_replacement_is_noop,
    virtual_text_selection_delete_replacement, virtual_text_selection_replacement,
};

verus! {

/// A mouse drag in progress: the point it started from, and whether the
/// pointer has left that point yet.
#[derive(Debug, Clone, Copy, PartialEq, Eq, Structural)]
pub struct VirtualTextDrag {
    pub anchor: VirtualTextPoint,
    pub active: bool,
}

/// Starts a drag at `point`. With `extend` (Shift held) the drag keeps the
/// anchor of the current selection, or the caret, and selects up to `point`;
/// otherwise it starts from `point` with nothing selected.
pub fn start_virtual_text_drag(
    drag: &mut Option<VirtualTextDrag>,
    caret: &mut VirtualTextPoint,
    selection: &mut Option<VirtualTextSelection>,
    point: VirtualTextPoint,
    extend: bool,
)
    ensures
        ({
            let anchor = if extend {
                match *old(selection) {
                    Some(s) => anchor_of(s),
                    None => *old(caret),
                }
            } else {
                point
            };
            &&& *final(drag) == Some(VirtualTextDrag { anchor, active: false })
            &&& *final(caret) == point
            &&& *final(selection) == if extend {
                distinct_selection(anchor, point)
            } else {
                None
            }
        }),
{
    let anchor = if extend {
        match *selection {
            Some(s) => virtual_text_selection_anchor(s),
            None => *caret,
        }
    } else {
        point
    };
    *drag = Some(VirtualTextDrag { anchor, active: false });
    *caret = point;
    *selection = if extend {
        virtual_text_selection_from_distinct_points(anchor, point)
    } else {
        None
    };
}

/// Follows the pointer of a drag to `point`: once it leaves the anchor the
/// drag is active, the caret is at `point` and the text between is selected.
/// Without a drag, or on the anchor itself, nothing changes.
pub fn update_virtual_text_drag(
    drag: &mut Option<VirtualTextDrag>,
    caret: &mut VirtualTextPoint,
    selection: &mut Option<VirtualTextSelection>,
    point: VirtualTextPoint,
)
    ensures
        match *old(drag) {
            Some(d) if d.anchor != point => {
                &&& *final(drag) == Some(VirtualTextDrag { anchor: d.anchor, active: true })
                &&& *final(caret) == point
                &&& *final(selection) == distinct_selection(d.anchor, point)
            },
            _ => {
                &&& *final(drag) == *old(drag)
                &&& *final(caret) == *old(caret)
                &&& *final(selection) == *old(selection)
            },
        },
{
    let d = match *drag {
        Some(d) => d,
        None => return,
    };
    if d.anchor == point {
        return;
    }
    *drag = Some(VirtualTextDrag { anchor: d.anchor, active: true });
    *caret = point;
    *selection = virtual_text_selection_from_distinct_points(d.anchor, point);
}

/// The end of the last line.
pub open spec fn document_end(s: Seq<char>) -> VirtualTextPoint {
    VirtualTextPoint {
        line_index: (line_count(s) - 1) as usize,
        column_utf16: line_utf16_len(s, line_count(s) - 1) as usize,
    }
}

/// Selects the whole text, with the caret at its end.
pub fn select_all_virtual_text(
    buffer: &TextBuffer,
    caret: &mut VirtualTextPoint,
    selection: &mut Option<VirtualTextSelection>,
)
    ensures
        *final(caret) == document_end(buffer@),
        *final(selection) == distinct_selection(
            VirtualTextPoint { line_index: 0, column_utf16: 0 },
            document_end(buffer@),
        ),
{
    let start = VirtualTextPoint { line_index: 0, column_utf16: 0 };
    let end = virtual_text_document_end_point(buffer);
    *caret = end;
    *selection = virtual_text_selection_from_distinct_points(start, end);
}

/// The fields of a replacement, as `replacement_fields` gives them.
pub type ReplacementFields = (usize, usize, usize, usize, Seq<char>);

/// The replacement inserts nothing at a single position.
pub open spec fn fields_noop(f: ReplacementFields) -> bool {
    f.4.len() == 0 && f.0 == f.2 && f.1 == f.3
}

/// Where the caret goes once the replacement is made: after the text
/// inserted at the earlier of its two ends.
pub open spec fn caret_after_fields(f: ReplacementFields) -> VirtualTextPoint {
    let start = if point_le(f.0 as int, f.1 as int, f.2 as int, f.3 as int) {
        (f.0, f.1)
    } else {
        (f.2, f.3)
    };
    let after = point_after(start, f.4);
    VirtualTextPoint { line_index: after.0, column_utf16: after.1 }
}

/// The fields of an optional replacement.
pub open spec fn fields_of(r: Option<TextRangeReplacement>) -> Option<ReplacementFields> {
    match r {
        Some(r) => Some(replacement_fields(r)),
        None => None,
    }
}

/// Caret, selection and the edit handed on, once a replacement with these
/// fields is committed: a no-op changes nothing and hands nothing on; any
/// other puts the caret after the inserted text (kept inside the text as it
/// was) and drops the selection.
pub open spec fn commit_outcome(
    s: Seq<char>,
    caret: VirtualTextPoint,
    selection: Option<VirtualTextSelection>,
    f: ReplacementFields,
) -> (VirtualTextPoint, Option<VirtualTextSelection>, Option<ReplacementFields>) {
    if fields_noop(f) {
        (caret, selection, None)
    } else {
        (clamped_point(s, caret_after_fields(f)), None, Some(f))
    }
}

/// Commits a replacement: returns the edit to make, or `None` for a no-op,
/// and moves the caret after the inserted text.
pub fn commit_virtual_text_replacement(
    buffer: &TextBuffer,
    caret: &mut VirtualTextPoint,
    selection: &mut Option<VirtualTextSelection>,
    replacement: TextRangeReplacement,
) -> (r: Option<TextRangeReplacement>)
    ensures
        (*final(caret), *final(selection), fields_of(r)) == commit_outcome(
            buffer@,
            *old(caret),
            *old(selection),
            replacement_fields(replacement),
        ),
{
    if virtual_text_replacement_is_noop(&replacement) {
        return None;
    }
    let next_caret = virtual_text_caret_after_replacement(&replacement);
    *caret = clamp_virtual_text_point(next_caret, buffer);
    *selection = None;
    Some(replacement)
}

/// The replacement that puts `text` over the selection, or at the caret when
/// nothing is selected.
pub open spec fn typed_fields(
    caret: VirtualTextPoint,
    selection: Option<VirtualTextSelection>,
    text: Seq<char>,
) -> ReplacementFields {
    match selection {
        Some(s) => (s.start_line, s.start_column_utf16, s.end_line, s.end_column_utf16, text),
        None => (caret.line_index, caret.column_utf16, caret.line_index, caret.column_utf16, text),
    }
}

/// Puts `replacement_text` over the selection, or inserts it at the caret.
pub fn replace_virtual_text_selection_or_caret(
    buffer: &TextBuffer,
    caret: &mut VirtualTextPoint,
    selection: &mut Option<VirtualTextSelection>,
    replacement_text: String,
) -> (r: Option<TextRangeReplacement>)
    ensures
        (*final(caret), *final(selection), fields_of(r)) == commit_outcome(
            buffer@,
            *old(caret),
            *old(selection),
            typed_fields(*old(caret), *old(selection), replacement_text@),
        ),
{
    let replacement = match *selection {
        Some(s) => virtual_text_selection_replacement(s, replacement_text),
        None => virtual_text_caret_replacement(*caret, replacement_text),
    };
    commit_virtual_text_replacement(buffer, caret, selection, replacement)
}

/// What Backspace (`Backward`) or Delete (`Forward`) removes: the
/// selection, else the character before or after the caret (kept inside the
/// text), else nothing at the very start or end of the text.
pub open spec fn delete_fields(
    s: Seq<char>,
    caret: VirtualTextPoint,
    selection: Option<VirtualTextSelection>,
    direction: VirtualTextDeleteDirection,
) -> Option<ReplacementFields> {
    match selection {
        Some(sel) => Some(
            (sel.start_line, sel.start_column_utf16, sel.end_line, sel.end_column_utf16, Seq::empty()),
        ),
        None => {
            let c = clamped_point(s, caret);
            let range = match direction {
                VirtualTextDeleteDirection::Backward => match previous_point(s, c) {
                    Some(p) => Some((p, c)),
                    None => None,
                },
                VirtualTextDeleteDirection::Forward => match next_point(s, c) {
                    Some(p) => Some((c, p)),
                    None => None,
                },
            };
            match range {
                Some((a, b)) => Some(
                    (a.line_index, a.column_utf16, b.line_index, b.column_utf16, Seq::empty()),
                ),
                None => None,
            }
        },
    }
}

/// Deletes the selection, or the character next to the caret.
pub fn delete_virtual_text_selection_or_adjacent(
    buffer: &TextBuffer,
    caret: &mut VirtualTextPoint,
    selection: &mut Option<VirtualTextSelection>,
    direction: VirtualTextDeleteDirection,
) -> (r: Option<TextRangeReplacement>)
    ensures
        match delete_fields(buffer@, *old(caret), *old(selection), direction) {
            Some(f) => (*final(caret), *final(selection), fields_of(r)) == commit_outcome(
                buffer@,
                *old(caret),
                *old(selection),
                f,
            ),
            None => {
                &&& r is None
                &&& *final(caret) == *old(caret)
                &&& *final(selection) == *old(selection)
            },
        },
{
    let replacement = match *selection {
        Some(s) => virtual_text_selection_delete_replacement(s),
        None => {
            let caret_point = clamp_virtual_text_point(*caret, buffer);
            match virtual_text_adjacent_delete_range(buffer, caret_point, direction) {
                Some((start, end)) => TextRangeReplacement {
                    start_line: start.line_index,
                    start_column_utf16: start.column_utf16,
                    end_line: end.line_index,
                    end_column_utf16: end.column_utf16,
                    replacement: String::new(),
                },
                None => return None,
            }
        },
    };
    commit_virtual_text_replacement(buffer, caret, selection, replacement)
}

/// Where a caret-moving key leaves the caret and the selection. Without
/// Shift a selection collapses to its earlier end (Left, Up, Home) or its
/// later end (Right, Down, End); otherwise the caret moves from where it is
/// (kept inside the text), and with Shift the text from the selection's
/// anchor, or the old caret, to the new caret is selected.
pub open spec fn caret_move_outcome(
    s: Seq<char>,
    caret: VirtualTextPoint,
    selection: Option<VirtualTextSelection>,
    key: VirtualTextCaretKey,
    extend: bool,
) -> (VirtualTextPoint, Option<VirtualTextSelection>) {
    let current = clamped_point(s, caret);
    if !extend && selection is Some {
        let n = normalized(selection->0);
        let collapsed = match key {
            VirtualTextCaretKey::ArrowLeft | VirtualTextCaretKey::ArrowUp
            | VirtualTextCaretKey::Home => VirtualTextPoint { line_index: n.0, column_utf16: n.1 },
            _ => VirtualTextPoint { line_index: n.2, column_utf16: n.3 },
        };
        (clamped_point(s, collapsed), None)
    } else {
        let next = moved_point(s, current, key);
        if extend {
            let anchor = match selection {
                Some(sel) => anchor_of(sel),
                None => current,
            };
            (next, distinct_selection(anchor, next))
        } else {
            (next, None)
        }
    }
}

/// Moves the caret for an arrow, Home or End key; `extend` when Shift is held.
pub fn move_virtual_text_caret(
    buffer: &TextBuffer,
    caret: &mut VirtualTextPoint,
    selection: &mut Option<VirtualTextSelection>,
    key: VirtualTextCaretKey,
    extend: bool,
)
    ensures
        (*final(caret), *final(selection)) == caret_move_outcome(
            buffer@,
            *old(caret),
            *old(selection),
            key,
            extend,
        ),
{
    let current_caret = clamp_virtual_text_point(*caret, buffer);
    if !extend {
        if let Some(current_selection) = *selection {
            let (start, _, end, _) = normalized_virtual_text_selection_points(current_selection);
            let collapsed = match key {
                VirtualTextCaretKey::ArrowLeft | VirtualTextCaretKey::ArrowUp
                | VirtualTextCaretKey::Home => start,
                _ => end,
            };
            *caret = clamp_virtual_text_point(collapsed, buffer);
            *selection = None;
            return;
        }
    }
    let next = virtual_text_moved_point(buffer, current_caret, key);
    if extend {
        let anchor = match *selection {
            Some(s) => virtual_text_selection_anchor(s),
            None => current_caret,
        };
        *caret = next;
        *selection = virtual_text_selection_from_distinct_points(anchor, next);
    } else {
        *caret = next;
        *selection = None;
    }
}

/// The modifier keys held with a key press.
#[derive(Debug, Clone, Copy, PartialEq, Eq, Structural)]
pub struct VirtualTextKeyModifiers {
    pub ctrl: bool,
    pub meta: bool,
    pub shift: bool,
    pub alt: bool,
}

/// What a key press asks of the editor.
#[derive(Debug, Clone, Copy, PartialEq, Eq, Structural)]
pub enum VirtualTextKeyCommand {
    /// Ctrl/Cmd+F: open the find bar.
    ShowSearch,
    /// Ctrl/Cmd+Z.
    Undo,
    /// Ctrl/Cmd+Shift+Z or Ctrl/Cmd+Y.
    Redo,
    /// Ctrl/Cmd+A.
    SelectAll,
    /// Ctrl/Cmd+C.
    Copy,
    /// Ctrl/Cmd+X.
    Cut,
    /// Ctrl/Cmd+V: the paste arrives through the hidden input, cleared first.
    ClearInputSink,
    /// Backspace or Delete.
    Delete(VirtualTextDeleteDirection),
    /// Enter.
    NewLine,
    /// Tab.
    Indent,
    /// An arrow key, Home or End.
    Move(VirtualTextCaretKey),
    /// Escape.
    ClearSelection,
    /// Any other key, and any other key with Ctrl, Cmd or Alt: left to the browser.
    Ignore,
}

/// The key is this one letter, in either case.
pub open spec fn letter_key(k: Seq<char>, lower: char, upper: char) -> bool {
    k.len() == 1 && (k[0] == lower || k[0] == upper)
}

/// What a key press asks of the editor, by the key's name and the modifiers held.
pub open spec fn key_command(k: Seq<char>, m: VirtualTextKeyModifiers) -> VirtualTextKeyCommand {
    let command = m.ctrl || m.meta;
    if command && letter_key(k, 'f', 'F') {
        VirtualTextKeyCommand::ShowSearch
    } else if command && letter_key(k, 'z', 'Z') {
        if m.shift {
            VirtualTextKeyCommand::Redo
        } else {
            VirtualTextKeyCommand::Undo
        }
    } else if command && letter_key(k, 'y', 'Y') {
        VirtualTextKeyCommand::Redo
    } else if command && letter_key(k, 'a', 'A') {
        VirtualTextKeyCommand::SelectAll
    } else if command && letter_key(k, 'c', 'C') {
        VirtualTextKeyCommand::Copy
    } else if command && letter_key(k, 'x', 'X') {
        VirtualTextKeyCommand::Cut
    } else if command && letter_key(k, 'v', 'V') {
        VirtualTextKeyCommand::ClearInputSink
    } else if command || m.alt {
        VirtualTextKeyCommand::Ignore
    } else if k == "Backspace"@ {
        VirtualTextKeyCommand::Delete(VirtualTextDeleteDirection::Backward)
    } else if k == "Delete"@ {
        VirtualTextKeyCommand::Delete(VirtualTextDeleteDirection::Forward)
    } else if k == "Enter"@ {
        VirtualTextKeyCommand::NewLine
    } else if k == "Tab"@ {
        VirtualTextKeyCommand::Indent
    } else if k == "ArrowLeft"@ {
        VirtualTextKeyCommand::Move(VirtualTextCaretKey::ArrowLeft)
    } else if k == "ArrowRight"@ {
        VirtualTextKeyCommand::Move(VirtualTextCaretKey::ArrowRight)
    } else if k == "ArrowUp"@ {
        VirtualTextKeyCommand::Move(VirtualTextCaretKey::ArrowUp)
    } else if k == "ArrowDown"@ {
        VirtualTextKeyCommand::Move(VirtualTextCaretKey::ArrowDown)
    } else if k == "Home"@ {
        VirtualTextKeyCommand::Move(VirtualTextCaretKey::Home)
    } else if k == "End"@ {
        VirtualTextKeyCommand::Move(VirtualTextCaretKey::End)
    } else if k == "Escape"@ {
        VirtualTextKeyCommand::ClearSelection
    } else {
        VirtualTextKeyCommand::Ignore
    }
}

/// Whether the key is exactly `name`.
fn key_is(key: &Vec<char>, name: &str) -> (b: bool)
    ensures
        b == (key@ == name@),
{
    let n = str_chars(name);
    if key.len() != n.len() {
        return false;
    }
    let mut i: usize = 0;
    while i < key.len()
        invariant
            0 <= i <= key.len(),
            key@.len() == n@.len(),
            n@ == name@,
            forall|j: int| 0 <= j < i ==> key@[j] == n@[j],
        decreases key.len() - i,
    {
        if key[i] != n[i] {
            return false;
        }
        i += 1;
    }
    assert(key@ =~= n@);
    true
}

/// Whether the key is this one letter, in either case.
fn key_is_letter(key: &Vec<char>, lower: char, upper: char) -> (b: bool)
    ensures
        b == letter_key(key@, lower, upper),
{
    key.len() == 1 && (key[0] == lower || key[0] == upper)
}

/// What a key press asks of the editor.
pub fn virtual_text_key_command(key: &str, modifiers: VirtualTextKeyModifiers) -> (c:
    VirtualTextKeyCommand)
    ensures
        c == key_command(key@, modifiers),
{
    let k = str_chars(key);
    let command = modifiers.ctrl || modifiers.meta;
    if command && key_is_letter(&k, 'f', 'F') {
        VirtualTextKeyCommand::ShowSearch
    } else if command && key_is_letter(&k, 'z', 'Z') {
        if modifiers.shift {
            VirtualTextKeyCommand::Redo
        } else {
            VirtualTextKeyCommand::Undo
        }
    } else if command && key_is_letter(&k, 'y', 'Y') {
        VirtualTextKeyCommand::Redo
    } else if command && key_is_letter(&k, 'a', 'A') {
        VirtualTextKeyCommand::SelectAll
    } else if command && key_is_letter(&k, 'c', 'C') {
        VirtualTextKeyCommand::Copy
    } else if command && key_is_letter(&k, 'x', 'X') {
        VirtualTextKeyCommand::Cut
    } else if command && key_is_letter(&k, 'v', 'V') {
        VirtualTextKeyCommand::ClearInputSink
    } else if command || modifiers.alt {
        VirtualTextKeyCommand::Ignore
    } else if key_is(&k, "Backspace") {
        VirtualTextKeyCommand::Delete(VirtualTextDeleteDirection::Backward)
    } else if key_is(&k, "Delete") {
        VirtualTextKeyCommand::Delete(VirtualTextDeleteDirection::Forward)
    } else if key_is(&k, "Enter") {
        VirtualTextKeyCommand::NewLine
    } else if key_is(&k, "Tab") {
        VirtualTextKeyCommand::Indent
    } else if key_is(&k, "ArrowLeft") {
        VirtualTextKeyCommand::Move(VirtualTextCaretKey::ArrowLeft)
    } else if key_is(&k, "ArrowRight") {
        VirtualTextKeyCommand::Move(VirtualTextCaretKey::ArrowRight)
    } else if key_is(&k, "ArrowUp") {
        VirtualTextKeyCommand::Move(VirtualTextCaretKey::ArrowUp)
    } else if key_is(&k, "ArrowDown") {
        VirtualTextKeyCommand::Move(VirtualTextCaretKey::ArrowDown)
    } else if key_is(&k, "Home") {
        VirtualTextKeyCommand::Move(VirtualTextCaretKey::Home)
    } else if key_is(&k, "End") {
        VirtualTextKeyCommand::Move(VirtualTextCaretKey::End)
    } else if key_is(&k, "Escape") {
        VirtualTextKeyCommand::ClearSelection
    } else {
        VirtualTextKeyCommand::Ignore
    }
}

/// What the editor does about a key press, once its caret and selection are updated.
#[derive(Debug, Clone, PartialEq, Eq)]
pub enum VirtualTextKeyAction {
    /// Nothing: the key is left to the browser.
    Ignored,
    /// Open the find bar and focus its input.
    ShowSearch,
    Undo,
    Redo,
    /// Write the selected text, if any, to the clipboard.
    Copy(Option<String>),
    /// Write the selected text, if any, to the clipboard and make the edit
    /// that removes it.
    Cut(Option<String>, Option<TextRangeReplacement>),
    /// Clear the hidden input that receives the paste.
    ClearInputSink,
    /// Make this edit, if any.
    Edit(Option<TextRangeReplacement>),
    /// The caret or the selection moved.
    CaretMoved,
    /// The selection was dropped.
    SelectionCleared,
}

/// Whether the browser's own handling of the key is suppressed.
pub open spec fn action_prevents_default(a: VirtualTextKeyAction) -> bool {
    !(a is Ignored || a is ClearInputSink || a is SelectionCleared)
}

/// Whether the browser's own handling of the key is suppressed.
pub fn virtual_text_key_prevents_default(action: &VirtualTextKeyAction) -> (b: bool)
    ensures
        b == action_prevents_default(*action),
{
    match action {
        VirtualTextKeyAction::Ignored => false,
        VirtualTextKeyAction::ClearInputSink => false,
        VirtualTextKeyAction::SelectionCleared => false,
        _ => true,
    }
}

/// The line break the editor types.
pub open spec fn new_line_text() -> Seq<char> {
    seq!['\n']
}

/// The indent the editor types.
pub open spec fn indent_text() -> Seq<char> {
    seq!['\t']
}

/// Answers a key press in the editor: updates the caret and the selection
/// and says what else to do.
pub fn handle_virtual_text_key(
    key: &str,
    modifiers: VirtualTextKeyModifiers,
    buffer: &TextBuffer,
    caret: &mut VirtualTextPoint,
    selection: &mut Option<VirtualTextSelection>,
) -> (action: VirtualTextKeyAction)
    ensures
        ({
            let s = buffer@;
            let c0 = *old(caret);
            let sel0 = *old(selection);
            let unchanged = *final(caret) == c0 && *final(selection) == sel0;
            match key_command(key@, modifiers) {
                VirtualTextKeyCommand::ShowSearch => action is ShowSearch && unchanged,
                VirtualTextKeyCommand::Undo => action is Undo && unchanged,
                VirtualTextKeyCommand::Redo => action is Redo && unchanged,
                VirtualTextKeyCommand::SelectAll => {
                    &&& action is CaretMoved
                    &&& *final(caret) == document_end(s)
                    &&& *final(selection) == distinct_selection(
                        VirtualTextPoint { line_index: 0, column_utf16: 0 },
                        document_end(s),
                    )
                },
                VirtualTextKeyCommand::Copy => {
                    &&& action matches VirtualTextKeyAction::Copy(t)
                    &&& string_view(t) == match sel0 {
                        Some(sel) => selected_chars(s, sel),
                        None => None,
                    }
                    &&& unchanged
                },
                VirtualTextKeyCommand::Cut => {
                    &&& action matches VirtualTextKeyAction::Cut(t, r)
                    &&& match sel0 {
                        Some(sel) if selected_chars(s, sel) is Some => {
                            &&& string_view(t) == selected_chars(s, sel)
                            &&& (*final(caret), *final(selection), fields_of(r)) == commit_outcome(
                                s,
                                c0,
                                sel0,
                                typed_fields(c0, sel0, Seq::empty()),
                            )
                        },
                        _ => t is None && r is None && unchanged,
                    }
                },
                VirtualTextKeyCommand::ClearInputSink => action is ClearInputSink && unchanged,
                VirtualTextKeyCommand::Delete(direction) => {
                    &&& action matches VirtualTextKeyAction::Edit(r)
                    &&& match delete_fields(s, c0, sel0, direction) {
                        Some(f) => (*final(caret), *final(selection), fields_of(r))
                            == commit_outcome(s, c0, sel0, f),
                        None => r is None && unchanged,
                    }
                },
                VirtualTextKeyCommand::NewLine => {
                    &&& action matches VirtualTextKeyAction::Edit(r)
                    &&& (*final(caret), *final(selection), fields_of(r)) == commit_outcome(
                        s,
                        c0,
                        sel0,
                        typed_fields(c0, sel0, new_line_text()),
                    )
                },
                VirtualTextKeyCommand::Indent => {
                    &&& action matches VirtualTextKeyAction::Edit(r)
                    &&& (*final(caret), *final(selection), fields_of(r)) == commit_outcome(
                        s,
                        c0,
                        sel0,
                        typed_fields(c0, sel0, indent_text()),
                    )
                },
                VirtualTextKeyCommand::Move(k) => {
                    &&& action is CaretMoved
                    &&& (*final(caret), *final(selection)) == caret_move_outcome(
                        s,
                        c0,
                        sel0,
                        k,
                        modifiers.shift,
                    )
                },
                VirtualTextKeyCommand::ClearSelection => {
                    &&& action is SelectionCleared
                    &&& *final(caret) == c0
                    &&& *final(selection) is None
                },
                VirtualTextKeyCommand::Ignore => action is Ignored && unchanged,
            }
        }),
{
    match virtual_text_key_command(key, modifiers) {
        VirtualTextKeyCommand::ShowSearch => VirtualTextKeyAction::ShowSearch,
        VirtualTextKeyCommand::Undo => VirtualTextKeyAction::Undo,
        VirtualTextKeyCommand::Redo => VirtualTextKeyAction::Redo,
        VirtualTextKeyCommand::SelectAll => {
            select_all_virtual_text(buffer, caret, selection);
            VirtualTextKeyAction::CaretMoved
        },
        VirtualTextKeyCommand::Copy => {
            let text = match *selection {
                Some(sel) => virtual_text_selected_text(buffer, sel),
                None => None,
            };
            VirtualTextKeyAction::Copy(text)
        },
        VirtualTextKeyCommand::Cut => {
            let current_selection = match *selection {
                Some(sel) => sel,
                None => return VirtualTextKeyAction::Cut(None, None),
            };
            let text = match virtual_text_selected_text(buffer, current_selection) {
                Some(t) => t,
                None => return VirtualTextKeyAction::Cut(None, None),
            };
            let r = commit_virtual_text_replacement(
                buffer,
                caret,
                selection,
                virtual_text_selection_delete_replacement(current_selection),
            );
            VirtualTextKeyAction::Cut(Some(text), r)
        },
        VirtualTextKeyCommand::ClearInputSink => VirtualTextKeyAction::ClearInputSink,
        VirtualTextKeyCommand::Delete(direction) => {
            let r = delete_virtual_text_selection_or_adjacent(buffer, caret, selection, direction);
            VirtualTextKeyAction::Edit(r)
        },
        VirtualTextKeyCommand::NewLine => {
            let text = "\n".to_owned();
            proof {
                reveal_strlit("\n");
                assert(text@ =~= new_line_text());
            }
            let r = replace_virtual_text_selection_or_caret(buffer, caret, selection, text);
            VirtualTextKeyAction::Edit(r)
        },
        VirtualTextKeyCommand::Indent => {
            let text = "\t".to_owned();
            proof {
                reveal_strlit("\t");
                assert(text@ =~= indent_text());
            }
            let r = replace_virtual_text_selection_or_caret(buffer, caret, selection, text);
            VirtualTextKeyAction::Edit(r)
        },
        VirtualTextKeyCommand::Move(k) => {
            move_virtual_text_caret(buffer, caret, selection, k, modifiers.shift);
            VirtualTextKeyAction::CaretMoved
        },
        VirtualTextKeyCommand::ClearSelection => {
            *selection = None;
            VirtualTextKeyAction::SelectionCleared
        },
        VirtualTextKeyCommand::Ignore => VirtualTextKeyAction::Ignored,
    }
}

/// The point at (`line`, `column`).
pub open spec fn at_point(line: usize, column: usize) -> VirtualTextPoint {
    VirtualTextPoint { line_index: line, column_utf16: column }
}

/// The key moves the caret backwards or up: ArrowLeft, ArrowUp or Home.
pub open spec fn key_goes_back(key: VirtualTextCaretKey) -> bool {
    key is ArrowLeft || key is ArrowUp || key is Home
}

/// A caret key pressed without Shift while text is selected drops the
/// selection and leaves the caret, kept inside the text, at one end of it:
/// the earlier end for ArrowLeft, ArrowUp and Home, the later end for
/// ArrowRight, ArrowDown and End. The caret's own position plays no part.
pub proof fn lemma_plain_caret_key_collapses_selection(
    s: Seq<char>,
    caret: VirtualTextPoint,
    selection: VirtualTextSelection,
    key: VirtualTextCaretKey,
)
    ensures
        ({
            let out = caret_move_outcome(s, caret, Some(selection), key, false);
            let anchor = at_point(selection.start_line, selection.start_column_utf16);
            let focus = at_point(selection.end_line, selection.end_column_utf16);
            let anchor_first = point_le(
                selection.start_line as int,
                selection.start_column_utf16 as int,
                selection.end_line as int,
                selection.end_column_utf16 as int,
            );
            let earlier = if anchor_first {
                anchor
            } else {
                focus
            };
            let later = if anchor_first {
                focus
            } else {
                anchor
            };
            &&& out.1 is None
            &&& key_goes_back(key) ==> out.0 == clamped_point(s, earlier)
            &&& !key_goes_back(key) ==> out.0 == clamped_point(s, later)
        }),
{
}

/// Where a caret key takes the caret when no selection collapses (nothing is
/// selected, or Shift is held), from the caret kept inside the text: Home to
/// the start of its line, End to the end of its line, ArrowUp and ArrowDown
/// one line up or down (staying on the first or last line), at the same
/// column or the end of the new line if it is shorter; ArrowLeft to the
/// start of the character before the caret, or from a line start to the end
/// of the line before, and ArrowRight to the end of the character at the
/// caret, or from a line end to the start of the next line; neither moves past either end of the text. Without
/// Shift nothing is selected afterwards; with Shift the selection runs from
/// the selection's anchor (or the caret, when nothing was selected) to the
/// new caret, and is empty exactly when the two coincide.
pub proof fn lemma_caret_key_moves_caret(
    s: Seq<char>,
    caret: VirtualTextPoint,
    selection: Option<VirtualTextSelection>,
    key: VirtualTextCaretKey,
    extend: bool,
)
    requires
        fits_usize(s),
        extend || selection is None,
    ensures
        ({
            let cur = clamped_point(s, caret);
            let line = cur.line_index;
            let col = cur.column_utf16;
            let last = line_count(s) - 1;
            let out = caret_move_outcome(s, caret, selection, key, extend);
            let p = out.0;
            &&& key is Home ==> p == at_point(line, 0)
            &&& key is End ==> p == at_point(line, utf16_len(line_text(s, line as int)) as usize)
            &&& key is ArrowUp ==> {
                let up = if line == 0 {
                    0
                } else {
                    line - 1
                };
                let len = utf16_len(line_text(s, up));
                &&& p.line_index == up
                &&& p.column_utf16 == if col <= len {
                    col as int
                } else {
                    len as int
                }
            }
            &&& key is ArrowDown ==> {
                let down = if line < last {
                    line + 1
                } else {
                    last
                };
                let len = utf16_len(line_text(s, down));
                &&& p.line_index == down
                &&& p.column_utf16 == if col <= len {
                    col as int
                } else {
                    len as int
                }
            }
            &&& key is ArrowLeft ==> {
                &&& col > 0 ==> p.line_index == line && p.column_utf16 < col && exists|k: int|
                    0 <= k < line_text(s, line as int).len() && p.column_utf16 == #[trigger] utf16_len(
                        line_text(s, line as int).take(k),
                    ) && utf16_len(line_text(s, line as int).take(k + 1)) >= col
                &&& col == 0 && line > 0 ==> p == at_point(
                    (line - 1) as usize,
                    utf16_len(line_text(s, line - 1)) as usize,
                )
                &&& col == 0 && line == 0 ==> p == cur
            }
            &&& key is ArrowRight ==> {
                let len = utf16_len(line_text(s, line as int));
                &&& col < len ==> p.line_index == line && col < p.column_utf16 <= len && exists|k: int|
                    0 <= k < line_text(s, line as int).len() && utf16_len(
                        line_text(s, line as int).take(k),
                    ) <= col && p.column_utf16 == #[trigger] utf16_len(
                        line_text(s, line as int).take(k + 1),
                    )
                &&& col == len && line < last ==> p == at_point((line + 1) as usize, 0)
                &&& col == len && line == last ==> p == cur
            }
            &&& !extend ==> out.1 is None
            &&& extend ==> {
                let anchor = match selection {
                    Some(sel) => at_point(sel.start_line, sel.start_column_utf16),
                    None => cur,
                };
                &&& out.1 is None <==> anchor == p
                &&& out.1 matches Some(sel) ==> at_point(sel.start_line, sel.start_column_utf16)
                    == anchor && at_point(sel.end_line, sel.end_column_utf16) == p
            }
        }),
{
    let cur = clamped_point(s, caret);
    let line = cur.line_index as int;
    let col = cur.column_utf16 as int;
    lemma_line_starts(s);
    lemma_clamped_point_shape(s, caret);
    crate::virtual_text::lemma_clamp_idempotent(s, caret);
    let lt = line_text(s, line);
    crate::virtual_text_edit::lemma_line_text_width(s, line);
    if line > 0 {
        crate::virtual_text_edit::lemma_line_text_width(s, line - 1);
    }
    if line + 1 < line_count(s) {
        crate::virtual_text_edit::lemma_line_text_width(s, line + 1);
    }
    lemma_newline_count_le_len(s);
    lemma_len_le_utf8(s);
    if key is ArrowLeft && col > 0 {
        lemma_fit_count(lt, col - 1, Encoding::Utf16);
        let k = fit_count(lt, col - 1, Encoding::Utf16) as int;
        if k == lt.len() {
            assert(lt.take(k) =~= lt);
        }
        assert(k < lt.len());
        assert(utf16_len(lt.take(k + 1)) >= col);
    }
    if key is ArrowRight && col < utf16_len(lt) {
        lemma_fit_count(lt, col, Encoding::Utf16);
        let k = fit_count(lt, col, Encoding::Utf16) as int;
        if k == lt.len() {
            assert(lt.take(k) =~= lt);
        } else {
            lemma_text_width_take_mono(lt, k + 1, lt.len() as int, Encoding::Utf16);
            assert(lt.take(lt.len() as int) =~= lt);
        }
        assert(k < lt.len());
        assert(utf16_len(lt.take(k)) <= col);
    }
}

/// The caret, kept inside the text, lies on one of its lines, no further
/// than that line's end.
proof fn lemma_clamped_point_shape(s: Seq<char>, p: VirtualTextPoint)
    ensures
        line_count(s) >= 1,
        clamped_point(s, p).line_index < line_count(s),
        clamped_point(s, p).column_utf16 <= utf16_len(
            line_text(s, clamped_point(s, p).line_index as int),
        ),
{
    lemma_line_starts(s);
}

/// Selecting all and copying hands out the whole text, when the text is not
/// empty and does not end with a `'\r'` (the editor does not show a
/// trailing `'\r'` on the last line, so select-all stops before it).
pub proof fn lemma_select_all_copies_whole_text(s: Seq<char>)
    requires
        s.len() > 0,
        s.last() != '\r',
        fits_usize(s),
    ensures
        ({
            let sel = distinct_selection(VirtualTextPoint { line_index: 0, column_utf16: 0 }, document_end(s));
            &&& sel is Some
            &&& selected_chars(s, sel->0) == Some(s)
        }),
{
    lemma_line_starts(s);
    let n = line_count(s) as int;
    let last = n - 1;
    lemma_line_shape(s, last);
    lemma_line_shape(s, 0);
    let start = line_start(s, last);
    let content = s.subrange(start, s.len() as int);
    assert(line_full_end(s, last) == s.len());
    assert(line_content_end(s, last) == s.len()) by {
        if s.len() > start && s[s.len() - 1] == '\n' {
            assert(s[s.len() - 1] != '\n');
        }
    }
    assert(line_display_end(s, last) == s.len());
    assert(line_text(s, last) == content);
    let len16 = utf16_len(content);
    lemma_subrange_width_le(s, start, s.len() as int, Encoding::Utf16);
    lemma_newline_count_le_len(s);
    lemma_len_le_utf8(s);
    let end = document_end(s);
    assert(end == VirtualTextPoint { line_index: last as usize, column_utf16: len16 as usize });
    if start < s.len() {
        lemma_char_width_positive(content[0], Encoding::Utf16);
        lemma_text_width_take_mono(content, 1, content.len() as int, Encoding::Utf16);
        lemma_text_width_take_next(content, 0, Encoding::Utf16);
        assert(content.take(0) =~= Seq::<char>::empty());
        assert(content.take(content.len() as int) =~= content);
    } else {
        assert(last > 0) by {
            if last == 0 {
                assert(line_start(s, 0) == 0);
            }
        }
    }
    assert(end != VirtualTextPoint { line_index: 0, column_utf16: 0 });
    assert(clamped_point(s, end) == end);
    assert(content.take(content.len() as int) =~= content);
    lemma_fit_count_exact(content, content.len() as int, Encoding::Utf16);
    assert(point_char_index(s, end) == s.len());
    let origin = VirtualTextPoint { line_index: 0, column_utf16: 0 };
    assert(clamped_point(s, origin) == origin);
    lemma_fit_count(s.subrange(0, line_content_end(s, 0)), 0, Encoding::Utf16);
    assert(point_char_index(s, origin) == 0) by {
        let c0 = s.subrange(0, line_content_end(s, 0));
        if c0.len() > 0 {
            lemma_char_width_positive(c0[0], Encoding::Utf16);
            lemma_text_width_take_next(c0, 0, Encoding::Utf16);
            assert(c0.take(0) =~= Seq::<char>::empty());
        }
    }
    assert(s.subrange(0, s.len() as int) =~= s);
}

} // verus!
