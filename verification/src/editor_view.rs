//! The decisions of the editor stage and of the virtual text editor that do
//! not depend on drawing: which surface to show, how the caret follows a
//! changed text or a jump, and whether the text wraps.
use vstd::prelude::*;

use crate::editor_tab::EditorMode;
use crate::range_edit::TextRangeReplacement;
use crate::text_buffer::TextBuffer;
use crate::text_layout::{
    TEXT_WRAP_FULL_LAYOUT_LINE_LIMIT, TextWrapLayout, text_wrap_layout, wrapped_line_height,
    wrapped_line_top,
};
use crate::text_lines::line_count;
use crate::text_search::TextJumpTarget;
use crate::virtual_text::{
    VirtualTextPoint, VirtualTextSelection, anchor_of, clamp_virtual_text_point,
    clamp_virtual_text_selection, clamped_point, distinct_selection, focus_of, jump_target_point,
    virtual_text_point_from_jump_target, virtual_text_selection_from_distinct_points,
};
use crate::virtual_text_input::{
    commit_outcome, fields_of, replace_virtual_text_selection_or_caret, typed_fields,
};

verus! {

/// What the editor stage shows.
#[derive(Debug, Clone, Copy, PartialEq, Eq, Structural)]
pub enum EditorStageView {
    /// No tab is open: the drop area.
    EmptyDropStage,
    /// The tab is being converted to another mode.
    Converting,
    /// The hex editor over the tab's bytes.
    HexEditor,
    /// A hex tab without bytes.
    InvalidHex,
    /// The virtual text editor over the tab's line index.
    TextEditor,
    /// A text tab without a line index.
    EmptyText,
    /// A tab whose text has no known format: nothing.
    Blank,
}

/// What the editor stage shows for the active tab, if any: a conversion in
/// progress first, then the hex editor for the hex mode, then the text
/// editor when the text has a format.
pub fn editor_stage_view(
    has_active_tab: bool,
    converting: bool,
    mode: EditorMode,
    has_byte_doc: bool,
    text_has_format: bool,
    has_text_buffer: bool,
) -> (v: EditorStageView)
    ensures
        v == if !has_active_tab {
            EditorStageView::EmptyDropStage
        } else if converting {
            EditorStageView::Converting
        } else if mode == EditorMode::RtonHex {
            if has_byte_doc {
                EditorStageView::HexEditor
            } else {
                EditorStageView::InvalidHex
            }
        } else if text_has_format {
            if has_text_buffer {
                EditorStageView::TextEditor
            } else {
                EditorStageView::EmptyText
            }
        } else {
            EditorStageView::Blank
        },
{
    if !has_active_tab {
        EditorStageView::EmptyDropStage
    } else if converting {
        EditorStageView::Converting
    } else if mode == EditorMode::RtonHex {
        if has_byte_doc {
            EditorStageView::HexEditor
        } else {
            EditorStageView::InvalidHex
        }
    } else if text_has_format {
        if has_text_buffer {
            EditorStageView::TextEditor
        } else {
            EditorStageView::EmptyText
        }
    } else {
        EditorStageView::Blank
    }
}

/// Keeps the caret and the selection inside a text that changed: both ends
/// are clamped, and a selection whose ends then coincide is dropped.
pub fn sync_virtual_text_state_with_buffer(
    buffer: &TextBuffer,
    caret: &mut VirtualTextPoint,
    selection: &mut Option<VirtualTextSelection>,
)
    ensures
        *final(caret) == clamped_point(buffer@, *old(caret)),
        *final(selection) == match *old(selection) {
            Some(s) => distinct_selection(
                clamped_point(buffer@, anchor_of(s)),
                clamped_point(buffer@, focus_of(s)),
            ),
            None => None,
        },
{
    *caret = clamp_virtual_text_point(*caret, buffer);
    *selection = match *selection {
        Some(s) => clamp_virtual_text_selection(s, buffer),
        None => None,
    };
}

/// Follows a jump target once: the target's range is selected, from its
/// start column to its selection end column, with the caret at its end.
/// A target already followed changes nothing. Whether to scroll to it.
pub fn apply_virtual_text_jump_target(
    buffer: &TextBuffer,
    target: TextJumpTarget,
    last_jump_id: &mut Option<u64>,
    caret: &mut VirtualTextPoint,
    selection: &mut Option<VirtualTextSelection>,
) -> (scroll: bool)
    ensures
        *old(last_jump_id) == Some(target.id) ==> {
            &&& !scroll
            &&& *final(last_jump_id) == *old(last_jump_id)
            &&& *final(caret) == *old(caret)
            &&& *final(selection) == *old(selection)
        },
        *old(last_jump_id) != Some(target.id) ==> {
            &&& scroll
            &&& *final(last_jump_id) == Some(target.id)
            &&& *final(caret) == jump_target_point(
                buffer@,
                target.line as int,
                target.selection_end_column as int,
            )
            &&& *final(selection) == distinct_selection(
                jump_target_point(buffer@, target.line as int, target.column as int),
                jump_target_point(buffer@, target.line as int, target.selection_end_column as int),
            )
        },
{
    if *last_jump_id == Some(target.id) {
        return false;
    }
    *last_jump_id = Some(target.id);
    let start = virtual_text_point_from_jump_target(buffer, target.line, target.column);
    let end = virtual_text_point_from_jump_target(buffer, target.line, target.selection_end_column);
    *caret = end;
    *selection = virtual_text_selection_from_distinct_points(start, end);
    true
}

/// Whether the editor wraps its lines: when wrapping is on and the text is
/// not too long for a full layout.
pub open spec fn wraps(s: Seq<char>, line_wrapping: bool) -> bool {
    line_wrapping && line_count(s) <= TEXT_WRAP_FULL_LAYOUT_LINE_LIMIT
}

/// The wrapped layout of the text at this viewport width, when the editor
/// wraps its lines; `None` when it does not.
pub fn virtual_text_wrap_layout(buffer: &TextBuffer, line_wrapping: bool, viewport_width: usize) -> (r:
    Option<TextWrapLayout>)
    ensures
        r is Some <==> wraps(buffer@, line_wrapping),
        r matches Some(layout) ==> {
            &&& layout.line_tops@.len() == line_count(buffer@)
            &&& layout.line_heights@.len() == line_count(buffer@)
            &&& forall|i: int|
                0 <= i < line_count(buffer@) ==> #[trigger] layout.line_tops@[i] == wrapped_line_top(
                    buffer@,
                    i,
                    viewport_width as int,
                ) && layout.line_heights@[i] == wrapped_line_height(
                    buffer@,
                    i,
                    viewport_width as int,
                )
            &&& layout.logical_height == wrapped_line_top(
                buffer@,
                line_count(buffer@) as int,
                viewport_width as int,
            )
        },
{
    if line_wrapping && buffer.line_count() <= TEXT_WRAP_FULL_LAYOUT_LINE_LIMIT {
        Some(text_wrap_layout(buffer, viewport_width))
    } else {
        None
    }
}

/// The style class of the text preview, by whether it wraps and whether
/// something is selected.
pub fn virtual_text_preview_class(wrapping: bool, has_selection: bool) -> (c: &'static str)
    ensures
        c@ == if wrapping && has_selection {
            "virtual-text-preview wrap has-logical-selection"@
        } else if wrapping {
            "virtual-text-preview wrap"@
        } else if has_selection {
            "virtual-text-preview has-logical-selection"@
        } else {
            "virtual-text-preview"@
        },
{
    if wrapping && has_selection {
        "virtual-text-preview wrap has-logical-selection"
    } else if wrapping {
        "virtual-text-preview wrap"
    } else if has_selection {
        "virtual-text-preview has-logical-selection"
    } else {
        "virtual-text-preview"
    }
}

/// Types what arrived through the hidden input: over the selection, or at
/// the caret; nothing arrived, nothing happens.
pub fn insert_virtual_text_input(
    buffer: &TextBuffer,
    caret: &mut VirtualTextPoint,
    selection: &mut Option<VirtualTextSelection>,
    text: String,
) -> (r: Option<TextRangeReplacement>)
    ensures
        text@.len() == 0 ==> r is None && *final(caret) == *old(caret) && *final(selection) == *old(
            selection,
        ),
        text@.len() > 0 ==> (*final(caret), *final(selection), fields_of(r)) == commit_outcome(
            buffer@,
            *old(caret),
            *old(selection),
            typed_fields(*old(caret), *old(selection), text@),
        ),
{
    if text.as_str().is_empty() {
        return None;
    }
    replace_virtual_text_selection_or_caret(buffer, caret, selection, text)
}

/// The style class of a drawn line: the caret's line is marked active while
/// nothing is selected.
pub fn virtual_text_line_class(
    selection: Option<VirtualTextSelection>,
    caret: VirtualTextPoint,
    line_index: usize,
) -> (c: &'static str)
    ensures
        c@ == if selection is None && caret.line_index == line_index {
            "virtual-text-line-view active-line"@
        } else {
            "virtual-text-line-view"@
        },
{
    if selection.is_none() && caret.line_index == line_index {
        "virtual-text-line-view active-line"
    } else {
        "virtual-text-line-view"
    }
}

} // verus!
