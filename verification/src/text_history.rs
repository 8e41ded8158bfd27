//! The undo and redo stacks of a text tab.
use vstd::prelude::*;

use crate::range_edit::TextRangeHistoryEntry;

verus! {

/// One undoable text change: a copy of the whole previous text, or a range
/// edit with its undo and redo replacements.
#[derive(Debug, Clone, PartialEq, Eq)]
pub enum TextHistoryEntry {
    Snapshot(String),
    Range(TextRangeHistoryEntry),
}

/// Past changes (most recent last) and undone changes that can be redone
/// (most recently undone last).
#[derive(Debug, Clone, Default, PartialEq, Eq)]
pub struct TextHistory {
    pub past: Vec<TextHistoryEntry>,
    pub future: Vec<TextHistoryEntry>,
}

impl TextHistory {
    /// A history with nothing to undo or redo.
    pub fn new() -> (h: TextHistory)
        ensures
            h.past@.len() == 0,
            h.future@.len() == 0,
    {
        TextHistory { past: Vec::new(), future: Vec::new() }
    }
}

/// Records a new change made by the user: it goes on the undo stack and the
/// redo stack is dropped.
pub fn push_text_undo_range(history: &mut TextHistory, entry: TextRangeHistoryEntry)
    ensures
        final(history).past@ == old(history).past@.push(TextHistoryEntry::Range(entry)),
        final(history).future@.len() == 0,
{
    history.past.push(TextHistoryEntry::Range(entry));
    history.future = Vec::new();
}

/// Records a new change made by the user as a copy of the previous text.
pub fn push_text_undo_snapshot(history: &mut TextHistory, previous_text: String)
    ensures
        final(history).past@ == old(history).past@.push(TextHistoryEntry::Snapshot(previous_text)),
        final(history).future@.len() == 0,
{
    history.past.push(TextHistoryEntry::Snapshot(previous_text));
    history.future = Vec::new();
}

/// Puts an undone range edit on the redo stack.
pub fn push_text_redo_range(history: &mut TextHistory, entry: TextRangeHistoryEntry)
    ensures
        final(history).future@ == old(history).future@.push(TextHistoryEntry::Range(entry)),
        final(history).past@ == old(history).past@,
{
    history.future.push(TextHistoryEntry::Range(entry));
}

/// Puts the text an undo replaced on the redo stack.
pub fn push_text_redo_snapshot(history: &mut TextHistory, text: String)
    ensures
        final(history).future@ == old(history).future@.push(TextHistoryEntry::Snapshot(text)),
        final(history).past@ == old(history).past@,
{
    history.future.push(TextHistoryEntry::Snapshot(text));
}

/// Puts a redone range edit back on the undo stack, keeping the redo stack.
pub fn push_text_past_range(history: &mut TextHistory, entry: TextRangeHistoryEntry)
    ensures
        final(history).past@ == old(history).past@.push(TextHistoryEntry::Range(entry)),
        final(history).future@ == old(history).future@,
{
    history.past.push(TextHistoryEntry::Range(entry));
}

/// Puts the text a redo replaced back on the undo stack, keeping the redo stack.
pub fn push_text_past_snapshot(history: &mut TextHistory, text: String)
    ensures
        final(history).past@ == old(history).past@.push(TextHistoryEntry::Snapshot(text)),
        final(history).future@ == old(history).future@,
{
    history.past.push(TextHistoryEntry::Snapshot(text));
}

} // verus!
