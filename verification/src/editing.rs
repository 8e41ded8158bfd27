//! Edits, undos and redos of the active tab of the workspace.
use vstd::prelude::*;

use crate::editor_tab::{
    EditorMode, EditorTabState, HexEdit, bytes_after_edits, can_snapshot, edit_tab_hex,
    edit_tab_text, edit_tab_text_range, hex_edited, hex_redone, hex_undone, lemma_hex_undo_restores,
    mode_is_text, redo_hex_tab, redo_text_tab, surface_ok, text_edited, text_range_edited,
    text_redone, text_undone, undo_hex_tab, undo_text_tab, writes_in_range,
};
use crate::range_edit::{
    TextRangeReplacement, edit_applies, edited_text,
    lemma_redo_replays_edit, lemma_undo_restores_text, no_carriage_return, start_column_lands,
};
use crate::text_history::TextHistoryEntry;
use crate::text_metrics::fits_usize;
use crate::workspace::{find_tab_index, first_tab, has_tab};

verus! {

/// `after` is `before` with only the first tab with id `id` changed, as
/// `change` relates its old and new state; nothing changes without such a tab.
pub open spec fn updated_tab(
    before: Seq<EditorTabState>,
    after: Seq<EditorTabState>,
    id: usize,
    change: spec_fn(EditorTabState, EditorTabState) -> bool,
) -> bool {
    if has_tab(before, id) {
        let i = first_tab(before, id);
        &&& after.len() == before.len()
        &&& forall|j: int| 0 <= j < before.len() && j != i ==> after[j] == before[j]
        &&& change(before[i], after[i])
    } else {
        after == before
    }
}

/// `after` is `before` once the edit that its mode keeps history for is undone.
pub open spec fn edit_undone(before: EditorTabState, after: EditorTabState) -> bool {
    if mode_is_text(before.mode) {
        text_undone(before, after)
    } else {
        hex_undone(before, after)
    }
}

/// `after` is `before` once the edit that its mode keeps history for is redone.
pub open spec fn edit_redone(before: EditorTabState, after: EditorTabState) -> bool {
    if mode_is_text(before.mode) {
        text_redone(before, after)
    } else {
        hex_redone(before, after)
    }
}

/// Undoes the tab's most recent edit: a byte batch in the hex mode, a text
/// change in a text mode.
pub fn undo_tab_edit(tab: &mut EditorTabState)
    ensures
        edit_undone(*old(tab), *final(tab)),
{
    match tab.mode {
        EditorMode::RtonHex => undo_hex_tab(tab),
        _ => undo_text_tab(tab),
    }
}

/// Redoes the tab's most recently undone edit.
pub fn redo_tab_edit(tab: &mut EditorTabState)
    ensures
        edit_redone(*old(tab), *final(tab)),
{
    match tab.mode {
        EditorMode::RtonHex => redo_hex_tab(tab),
        _ => redo_text_tab(tab),
    }
}

/// Replaces the whole text of the active tab.
pub fn update_active_text(text: String, tabs: &mut Vec<EditorTabState>, active_tab_id: usize)
    ensures
        updated_tab(
            old(tabs)@,
            final(tabs)@,
            active_tab_id,
            |a: EditorTabState, b: EditorTabState| text_edited(a, b, text@),
        ),
{
    match find_tab_index(tabs, active_tab_id) {
        Some(i) => edit_tab_text(&mut tabs[i], text),
        None => {},
    }
}

/// Makes a range replacement on the active tab's text.
pub fn update_active_text_range(
    replacement: TextRangeReplacement,
    tabs: &mut Vec<EditorTabState>,
    active_tab_id: usize,
)
    ensures
        updated_tab(
            old(tabs)@,
            final(tabs)@,
            active_tab_id,
            |a: EditorTabState, b: EditorTabState| text_range_edited(a, b, replacement),
        ),
{
    match find_tab_index(tabs, active_tab_id) {
        Some(i) => edit_tab_text_range(&mut tabs[i], &replacement),
        None => {},
    }
}

/// Makes the user's byte writes on the active tab; no writes change nothing.
pub fn update_active_hex_edits(
    edits: Vec<HexEdit>,
    tabs: &mut Vec<EditorTabState>,
    active_tab_id: usize,
)
    ensures
        edits@.len() == 0 ==> final(tabs)@ == old(tabs)@,
        updated_tab(
            old(tabs)@,
            final(tabs)@,
            active_tab_id,
            |a: EditorTabState, b: EditorTabState| hex_edited(a, b, edits@),
        ),
{
    if edits.len() == 0 {
        return;
    }
    match find_tab_index(tabs, active_tab_id) {
        Some(i) => edit_tab_hex(&mut tabs[i], edits),
        None => {},
    }
}

/// Undoes the active tab's most recent edit.
pub fn undo_active_edit(tabs: &mut Vec<EditorTabState>, active_tab_id: usize)
    ensures
        updated_tab(
            old(tabs)@,
            final(tabs)@,
            active_tab_id,
            |a: EditorTabState, b: EditorTabState| edit_undone(a, b),
        ),
{
    match find_tab_index(tabs, active_tab_id) {
        Some(i) => undo_tab_edit(&mut tabs[i]),
        None => {},
    }
}

/// Redoes the active tab's most recently undone edit.
pub fn redo_active_edit(tabs: &mut Vec<EditorTabState>, active_tab_id: usize)
    ensures
        updated_tab(
            old(tabs)@,
            final(tabs)@,
            active_tab_id,
            |a: EditorTabState, b: EditorTabState| edit_redone(a, b),
        ),
{
    match find_tab_index(tabs, active_tab_id) {
        Some(i) => redo_tab_edit(&mut tabs[i]),
        None => {},
    }
}

/// Undoing a whole-text change that was recorded as a snapshot gives back
/// the previous text and the previous undo stack.
pub proof fn lemma_text_edit_undo_restores(
    before: EditorTabState,
    edited: EditorTabState,
    undone: EditorTabState,
    text: Seq<char>,
)
    requires
        mode_is_text(before.mode),
        before.editor_text@ != text,
        can_snapshot(before.editor_text@, text),
        text_edited(before, edited, text),
        edit_undone(edited, undone),
    ensures
        undone.editor_text@ == before.editor_text@,
        undone.text_history.past@ == before.text_history.past@,
{
    assert(edited.text_history.past@.last() == TextHistoryEntry::Snapshot(before.editor_text));
    assert(edited.text_history.past@.drop_last() =~= before.text_history.past@);
}

/// Redoing an undone snapshot change gives back the changed text.
pub proof fn lemma_text_edit_undo_redo(
    before: EditorTabState,
    edited: EditorTabState,
    undone: EditorTabState,
    redone: EditorTabState,
    text: Seq<char>,
)
    requires
        mode_is_text(before.mode),
        before.editor_text@ != text,
        can_snapshot(before.editor_text@, text),
        text_edited(before, edited, text),
        edit_undone(edited, undone),
        edit_redone(undone, redone),
    ensures
        redone.editor_text@ == text,
        redone.text_history.past@ == edited.text_history.past@,
{
    assert(edited.text_history.past@.last() == TextHistoryEntry::Snapshot(before.editor_text));
    assert(undone.text_history.future@.last() == TextHistoryEntry::Snapshot(edited.editor_text));
    assert(undone.editor_text == before.editor_text);
    assert(undone.text_history.past@.push(TextHistoryEntry::Snapshot(undone.editor_text))
        =~= edited.text_history.past@);
}

/// Undoing a range edit of a tab's text gives back the text before it and
/// the undo stack before it, when neither the text nor the replacement
/// holds a `'\r'`, the undo's start finds its way back
/// (`start_column_lands`: the edit starts on a character boundary, or inside
/// an astral character where the edited text keeps the undo's ends on the
/// inserted text's ends), and the edited text fits in memory.
pub proof fn lemma_range_edit_undo_restores(
    before: EditorTabState,
    edited: EditorTabState,
    undone: EditorTabState,
    replacement: TextRangeReplacement,
)
    requires
        mode_is_text(before.mode),
        surface_ok(before),
        edit_applies(before.editor_text@, replacement),
        edited_text(before.editor_text@, replacement) != before.editor_text@,
        no_carriage_return(before.editor_text@),
        no_carriage_return(replacement.replacement@),
        start_column_lands(before.editor_text@, replacement),
        fits_usize(edited_text(before.editor_text@, replacement)),
        text_range_edited(before, edited, replacement),
        edit_undone(edited, undone),
    ensures
        undone.editor_text@ == before.editor_text@,
        undone.text_history.past@ == before.text_history.past@,
{
    let s = before.editor_text@;
    let entry = edited.text_history.past@.last()->Range_0;
    lemma_undo_restores_text(s, replacement, entry.undo);
    assert(edited.text_history.past@.drop_last() =~= before.text_history.past@);
}

/// Redoing an undone range edit gives back the edited text, under the
/// conditions on which the undo restores the text.
pub proof fn lemma_range_edit_undo_redo(
    before: EditorTabState,
    edited: EditorTabState,
    undone: EditorTabState,
    redone: EditorTabState,
    replacement: TextRangeReplacement,
)
    requires
        mode_is_text(before.mode),
        surface_ok(before),
        edit_applies(before.editor_text@, replacement),
        edited_text(before.editor_text@, replacement) != before.editor_text@,
        no_carriage_return(before.editor_text@),
        no_carriage_return(replacement.replacement@),
        start_column_lands(before.editor_text@, replacement),
        fits_usize(edited_text(before.editor_text@, replacement)),
        text_range_edited(before, edited, replacement),
        edit_undone(edited, undone),
        edit_redone(undone, redone),
    ensures
        redone.editor_text@ == edited.editor_text@,
        redone.text_history.past@ == edited.text_history.past@,
{
    let s = before.editor_text@;
    let entry = edited.text_history.past@.last()->Range_0;
    lemma_undo_restores_text(s, replacement, entry.undo);
    lemma_redo_replays_edit(s, replacement, entry.redo);
    assert(undone.text_history.future@.last() == TextHistoryEntry::Range(entry));
    assert(undone.text_history.past@.push(TextHistoryEntry::Range(entry))
        =~= edited.text_history.past@);
}

/// Undoing a batch of byte writes gives back the bytes before it.
pub proof fn lemma_hex_edit_undo_restores(
    before: EditorTabState,
    edited: EditorTabState,
    undone: EditorTabState,
    edits: Seq<HexEdit>,
)
    requires
        !mode_is_text(before.mode),
        before.byte_doc matches Some(doc) && writes_in_range(edits, doc@.len()).len() > 0,
        hex_edited(before, edited, edits),
        edit_undone(edited, undone),
    ensures
        undone.byte_doc matches Some(d) && d@ == before.byte_doc->0@,
        undone.hex_history.past@ == before.hex_history.past@,
{
    let doc = before.byte_doc->0@;
    let redo = writes_in_range(edits, doc.len());
    crate::editor_tab::lemma_writes_in_range_inside(edits, doc.len());
    lemma_hex_undo_restores(doc, redo);
    assert(edited.hex_history.past@.drop_last() =~= before.hex_history.past@);
}

/// Redoing an undone batch of byte writes gives back the written bytes.
pub proof fn lemma_hex_edit_undo_redo(
    before: EditorTabState,
    edited: EditorTabState,
    undone: EditorTabState,
    redone: EditorTabState,
    edits: Seq<HexEdit>,
)
    requires
        !mode_is_text(before.mode),
        before.byte_doc matches Some(doc) && writes_in_range(edits, doc@.len()).len() > 0,
        hex_edited(before, edited, edits),
        edit_undone(edited, undone),
        edit_redone(undone, redone),
    ensures
        redone.byte_doc matches Some(d) && d@ == edited.byte_doc->0@,
        redone.hex_history.past@ == edited.hex_history.past@,
{
    lemma_hex_edit_undo_restores(before, edited, undone, edits);
    let batch = edited.hex_history.past@.last();
    assert(undone.hex_history.future@.last() == batch);
    assert(undone.hex_history.past@.push(batch) =~= edited.hex_history.past@);
}

/// Every edit, undo and redo keeps a tab's surface in step with its mode: a
/// text tab keeps a line index over exactly its text, a hex tab keeps none.
pub proof fn lemma_edits_keep_surface(
    before: EditorTabState,
    after: EditorTabState,
    text: Seq<char>,
    replacement: TextRangeReplacement,
    edits: Seq<HexEdit>,
)
    requires
        surface_ok(before),
    ensures
        text_edited(before, after, text) ==> surface_ok(after),
        text_range_edited(before, after, replacement) ==> surface_ok(after),
        !mode_is_text(before.mode) && hex_edited(before, after, edits) ==> surface_ok(after),
        edit_undone(before, after) ==> surface_ok(after),
        edit_redone(before, after) ==> surface_ok(after),
{
}

} // verus!
