//! An open editor tab: its text or byte surface, its undo history, and the
//! edits, undos and redos made on it.
use vstd::prelude::*;

use crate::range_edit::{
    TextRangeReplacement, edit_applies, edited_text, redo_replacement_fields, replacement_fields,
    text_with_replaced_range, text_with_replaced_range_and_history, undo_replacement_fields,
};
use crate::text_buffer::TextBuffer;
use crate::value_tree::ValueTreeState;
use crate::text_metrics::{lemma_encode_utf8_len, str_fits, utf8_len};
use crate::text_history::{
    TextHistory, TextHistoryEntry, push_text_past_range, push_text_past_snapshot,
    push_text_redo_range, push_text_redo_snapshot, push_text_undo_range, push_text_undo_snapshot,
};

verus! {

/// How a tab shows its document.
#[derive(Debug, Clone, Copy, PartialEq, Eq, Structural)]
pub enum EditorMode {
    RtonHex,
    Json,
    Yaml,
    Toml,
}

/// How RTON bytes are encoded: compact or standard, encrypted or not.
#[derive(Debug, Clone, Copy, PartialEq, Eq, Structural)]
pub struct EncodeOptions {
    pub compact: bool,
    pub encrypted: bool,
}

/// The mode edits text (JSON, YAML, TOML) rather than bytes.
pub open spec fn mode_is_text(m: EditorMode) -> bool {
    m != EditorMode::RtonHex
}

impl EditorMode {
    /// Whether the mode edits text (JSON, YAML, TOML) rather than bytes.
    pub fn is_text(&self) -> (b: bool)
        ensures
            b == mode_is_text(*self),
    {
        match self {
            EditorMode::RtonHex => false,
            _ => true,
        }
    }
}

/// One byte written at an offset of the byte document.
#[derive(Debug, Clone, Copy, PartialEq, Eq, Structural)]
pub struct HexEdit {
    pub offset: usize,
    pub value: u8,
}

/// A group of byte writes made together, with the writes that take it back.
#[derive(Debug, Clone, PartialEq, Eq)]
pub struct HexEditBatch {
    pub undo: Vec<HexEdit>,
    pub redo: Vec<HexEdit>,
}

/// Past byte edits (most recent last) and undone ones that can be redone.
#[derive(Debug, Clone, Default, PartialEq, Eq)]
pub struct HexHistory {
    pub past: Vec<HexEditBatch>,
    pub future: Vec<HexEditBatch>,
}

/// The bytes once every write inside the document is made, in order;
/// writes past the end change nothing.
pub open spec fn bytes_after_edits(doc: Seq<u8>, edits: Seq<HexEdit>) -> Seq<u8>
    decreases edits.len(),
{
    if edits.len() == 0 {
        doc
    } else {
        let before = bytes_after_edits(doc, edits.drop_last());
        let e = edits.last();
        if e.offset < before.len() {
            before.update(e.offset as int, e.value)
        } else {
            before
        }
    }
}

/// The byte document once `edits` are written in order.
pub fn apply_hex_edits(doc: &Vec<u8>, edits: &Vec<HexEdit>) -> (r: Vec<u8>)
    ensures
        r@ == bytes_after_edits(doc@, edits@),
{
    let mut bytes = doc.clone();
    let mut i: usize = 0;
    proof {
        assert(edits@.take(0) =~= Seq::<HexEdit>::empty());
    }
    while i < edits.len()
        invariant
            0 <= i <= edits.len(),
            bytes@ == bytes_after_edits(doc@, edits@.take(i as int)),
        decreases edits.len() - i,
    {
        let e = edits[i];
        proof {
            assert(edits@.take(i + 1).drop_last() =~= edits@.take(i as int));
            assert(edits@.take(i + 1).last() == e);
        }
        if e.offset < bytes.len() {
            bytes.set(e.offset, e.value);
        }
        i += 1;
    }
    proof {
        assert(edits@.take(edits@.len() as int) =~= edits@);
    }
    bytes
}

/// The writes of `edits` that land inside a document `len` bytes long, in order.
pub open spec fn writes_in_range(edits: Seq<HexEdit>, len: nat) -> Seq<HexEdit>
    decreases edits.len(),
{
    if edits.len() == 0 {
        edits
    } else {
        let kept = writes_in_range(edits.drop_last(), len);
        if edits.last().offset < len {
            kept.push(edits.last())
        } else {
            kept
        }
    }
}

/// The writes that take `redo` back on `doc`, latest first: each puts back
/// the byte that its write replaced.
pub open spec fn undo_writes(doc: Seq<u8>, redo: Seq<HexEdit>) -> Seq<HexEdit>
    decreases redo.len(),
{
    if redo.len() == 0 {
        Seq::empty()
    } else {
        let before = bytes_after_edits(doc, redo.drop_last());
        let e = redo.last();
        seq![HexEdit { offset: e.offset, value: before[e.offset as int] }] + undo_writes(
            doc,
            redo.drop_last(),
        )
    }
}

/// Every write lands inside a document `len` bytes long.
pub open spec fn all_inside(edits: Seq<HexEdit>, len: nat) -> bool {
    forall|i: int| 0 <= i < edits.len() ==> #[trigger] edits[i].offset < len
}

/// The writes kept for a document all land inside it.
pub proof fn lemma_writes_in_range_inside(edits: Seq<HexEdit>, len: nat)
    ensures
        all_inside(writes_in_range(edits, len), len),
    decreases edits.len(),
{
    if edits.len() > 0 {
        lemma_writes_in_range_inside(edits.drop_last(), len);
    }
}

proof fn lemma_bytes_after_len(doc: Seq<u8>, edits: Seq<HexEdit>)
    ensures
        bytes_after_edits(doc, edits).len() == doc.len(),
    decreases edits.len(),
{
    if edits.len() > 0 {
        lemma_bytes_after_len(doc, edits.drop_last());
    }
}

proof fn lemma_bytes_after_concat(doc: Seq<u8>, a: Seq<HexEdit>, b: Seq<HexEdit>)
    ensures
        bytes_after_edits(doc, a + b) == bytes_after_edits(bytes_after_edits(doc, a), b),
    decreases b.len(),
{
    if b.len() == 0 {
        assert(a + b =~= a);
    } else {
        assert((a + b).drop_last() =~= a + b.drop_last());
        lemma_bytes_after_concat(doc, a, b.drop_last());
    }
}

/// Undoing a batch of byte writes that land inside the document gives the
/// document back.
pub proof fn lemma_hex_undo_restores(doc: Seq<u8>, redo: Seq<HexEdit>)
    requires
        all_inside(redo, doc.len()),
    ensures
        bytes_after_edits(bytes_after_edits(doc, redo), undo_writes(doc, redo)) == doc,
    decreases redo.len(),
{
    if redo.len() > 0 {
        let r2 = redo.drop_last();
        let d2 = bytes_after_edits(doc, r2);
        let e = redo.last();
        assert(all_inside(r2, doc.len())) by {
            assert forall|i: int| 0 <= i < r2.len() implies #[trigger] r2[i].offset < doc.len() by {
                assert(r2[i] == redo[i]);
            }
        }
        lemma_bytes_after_len(doc, r2);
        assert(e.offset < doc.len()) by {
            assert(redo[redo.len() - 1] == e);
        }
        let u = HexEdit { offset: e.offset, value: d2[e.offset as int] };
        let rest = undo_writes(doc, r2);
        let d = bytes_after_edits(doc, redo);
        assert(d == d2.update(e.offset as int, e.value));
        lemma_bytes_after_concat(d, seq![u], rest);
        assert(seq![u].drop_last() =~= Seq::<HexEdit>::empty());
        assert(bytes_after_edits(d, seq![u].drop_last()) == d);
        assert(seq![u].last() == u);
        assert(d.update(e.offset as int, d2[e.offset as int]) =~= d2);
        assert(bytes_after_edits(d, seq![u]) == d2);
        lemma_hex_undo_restores(doc, r2);
    }
}

/// The batch for a user's byte writes on `doc`: the writes that land inside
/// the document (`redo`), and the writes that take them back (`undo`);
/// `None` when no write lands inside.
pub fn prepare_hex_edits(doc: &Vec<u8>, edits: Vec<HexEdit>) -> (r: Option<HexEditBatch>)
    ensures
        writes_in_range(edits@, doc@.len()).len() == 0 <==> r is None,
        r matches Some(b) ==> {
            &&& b.redo@ == writes_in_range(edits@, doc@.len())
            &&& b.undo@ == undo_writes(doc@, b.redo@)
            &&& all_inside(b.redo@, doc@.len())
        },
{
    let mut redo: Vec<HexEdit> = Vec::new();
    let mut undo: Vec<HexEdit> = Vec::new();
    let mut bytes = doc.clone();
    let mut i: usize = 0;
    proof {
        assert(edits@.take(0) =~= Seq::<HexEdit>::empty());
    }
    while i < edits.len()
        invariant
            0 <= i <= edits.len(),
            bytes@.len() == doc@.len(),
            redo@ == writes_in_range(edits@.take(i as int), doc@.len()),
            bytes@ == bytes_after_edits(doc@, redo@),
            undo@ == undo_writes(doc@, redo@),
        decreases edits.len() - i,
    {
        let e = edits[i];
        proof {
            assert(edits@.take(i + 1).drop_last() =~= edits@.take(i as int));
            assert(edits@.take(i + 1).last() == e);
        }
        if e.offset < bytes.len() {
            let ghost before = redo@;
            let previous = HexEdit { offset: e.offset, value: bytes[e.offset] };
            undo.insert(0, previous);
            bytes.set(e.offset, e.value);
            redo.push(e);
            proof {
                assert(redo@.drop_last() =~= before);
                assert(undo@ =~= seq![previous] + undo_writes(doc@, before));
            }
        }
        i += 1;
    }
    proof {
        assert(edits@.take(edits@.len() as int) =~= edits@);
        lemma_writes_in_range_inside(edits@, doc@.len());
    }
    if redo.len() == 0 {
        None
    } else {
        Some(HexEditBatch { undo, redo })
    }
}

/// Records a new batch of byte writes: it goes on the undo stack and the
/// redo stack is dropped.
pub fn push_hex_undo_batch(history: &mut HexHistory, batch: HexEditBatch)
    ensures
        final(history).past@ == old(history).past@.push(batch),
        final(history).future@.len() == 0,
{
    history.past.push(batch);
    history.future = Vec::new();
}

/// Puts an undone batch on the redo stack.
pub fn push_hex_redo_batch(history: &mut HexHistory, batch: HexEditBatch)
    ensures
        final(history).future@ == old(history).future@.push(batch),
        final(history).past@ == old(history).past@,
{
    history.future.push(batch);
}

/// Puts a redone batch back on the undo stack, keeping the redo stack.
pub fn push_hex_past_batch(history: &mut HexHistory, batch: HexEditBatch)
    ensures
        final(history).past@ == old(history).past@.push(batch),
        final(history).future@ == old(history).future@,
{
    history.past.push(batch);
}

/// The RTON bytes a tab showed, and the options they were encoded with.
#[derive(Debug, Clone, PartialEq, Eq)]
pub struct RtonSurfaceCache {
    pub encode_options: EncodeOptions,
    pub byte_doc: Vec<u8>,
}

/// The text a tab showed in a text mode.
#[derive(Debug, Clone, PartialEq, Eq)]
pub struct TextSurfaceCache {
    pub mode: EditorMode,
    pub editor_text: String,
}

/// A mode switch under way: its id and the mode it goes to.
#[derive(Debug, Clone, Copy, PartialEq, Eq, Structural)]
pub struct TabTaskState {
    pub id: u64,
    pub target_mode: EditorMode,
}

/// An open document.
#[derive(Debug, PartialEq, Eq)]
pub struct EditorTabState {
    pub id: usize,
    pub file_name: String,
    /// How the file it was opened from is encoded.
    pub source_encode_options: EncodeOptions,
    pub mode: EditorMode,
    /// The text shown in a text mode.
    pub editor_text: String,
    /// The line index of `editor_text`, kept in text modes.
    pub text_buffer: Option<TextBuffer>,
    pub text_history: TextHistory,
    /// The bytes shown in the hex mode.
    pub byte_doc: Option<Vec<u8>>,
    pub hex_history: HexHistory,
    /// Whether the parsed value tree still belongs to the current surface.
    pub parsed: bool,
    /// The value path selected in the value tree.
    pub selected_path: String,
    /// Which paths of the value tree are expanded.
    pub tree: ValueTreeState,
    /// The RTON bytes last shown, to switch back to without encoding again.
    pub rton_cache: Option<RtonSurfaceCache>,
    /// The text last shown in each text mode, to switch back to without
    /// converting again.
    pub text_cache: Vec<TextSurfaceCache>,
    /// The id of the latest mode switch started on the tab.
    pub task_generation: u64,
    /// The mode switch under way, if any.
    pub task_state: Option<TabTaskState>,
    /// Whether the document changed since it was opened or saved.
    pub dirty: bool,
}

/// The tab's text surface: in a text mode a buffer over `editor_text`, in the
/// hex mode no buffer.
pub open spec fn surface_ok(tab: EditorTabState) -> bool {
    if mode_is_text(tab.mode) {
        tab.text_buffer matches Some(b) && b@ == tab.editor_text@
    } else {
        tab.text_buffer is None
    }
}

/// The fields an edit of the text surface leaves alone.
pub open spec fn same_identity(a: EditorTabState, b: EditorTabState) -> bool {
    &&& a.id == b.id
    &&& a.file_name == b.file_name
    &&& a.source_encode_options == b.source_encode_options
    &&& a.tree == b.tree
    &&& a.rton_cache == b.rton_cache
    &&& a.task_generation == b.task_generation
    &&& a.mode == b.mode
    &&& a.hex_history.past@ == b.hex_history.past@
    &&& a.hex_history.future@ == b.hex_history.future@
}

/// Nothing about the tab changed.
pub open spec fn tab_same(a: EditorTabState, b: EditorTabState) -> bool {
    &&& same_identity(a, b)
    &&& a.editor_text == b.editor_text
    &&& a.text_buffer == b.text_buffer
    &&& a.text_history.past@ == b.text_history.past@
    &&& a.text_history.future@ == b.text_history.future@
    &&& a.byte_doc == b.byte_doc
    &&& a.parsed == b.parsed
    &&& a.text_cache == b.text_cache
    &&& a.task_state == b.task_state
    &&& a.selected_path == b.selected_path
    &&& a.dirty == b.dirty
}

/// Undo is possible: the history of the tab's current mode has a past entry.
pub open spec fn can_undo(tab: EditorTabState) -> bool {
    if mode_is_text(tab.mode) {
        tab.text_history.past@.len() > 0
    } else {
        tab.hex_history.past@.len() > 0
    }
}

/// Redo is possible: the history of the tab's current mode has an undone entry.
pub open spec fn can_redo(tab: EditorTabState) -> bool {
    if mode_is_text(tab.mode) {
        tab.text_history.future@.len() > 0
    } else {
        tab.hex_history.future@.len() > 0
    }
}

/// Whether the tab has something to undo.
pub fn tab_can_undo(tab: &EditorTabState) -> (b: bool)
    ensures
        b == can_undo(*tab),
{
    match tab.mode {
        EditorMode::RtonHex => tab.hex_history.past.len() > 0,
        _ => tab.text_history.past.len() > 0,
    }
}

/// Whether the tab has something to redo.
pub fn tab_can_redo(tab: &EditorTabState) -> (b: bool)
    ensures
        b == can_redo(*tab),
{
    match tab.mode {
        EditorMode::RtonHex => tab.hex_history.future.len() > 0,
        _ => tab.text_history.future.len() > 0,
    }
}

/// Shows `text` as the tab's surface: with a fresh line index in a text mode.
pub fn apply_text_surface(tab: &mut EditorTabState, text: String)
    ensures
        final(tab).editor_text == text,
        surface_ok(*final(tab)),
        same_identity(*final(tab), *old(tab)),
        final(tab).text_history == old(tab).text_history,
        final(tab).byte_doc == old(tab).byte_doc,
        final(tab).parsed == old(tab).parsed,
        final(tab).selected_path == old(tab).selected_path,
        final(tab).dirty == old(tab).dirty,
{
    if tab.mode.is_text() {
        tab.editor_text = text.clone();
        tab.text_buffer = Some(TextBuffer::new(text));
    } else {
        tab.editor_text = text;
        tab.text_buffer = None;
    }
}

/// What was derived from the parsed document is gone: the value tree, the
/// text cached for other modes, and any mode switch under way.
pub open spec fn parse_dropped(tab: EditorTabState) -> bool {
    &&& !tab.parsed
    &&& tab.text_cache@.len() == 0
    &&& tab.task_state is None
}

/// Drops what was derived from the parsed document: the value tree no longer
/// matches, the text cached for other modes and any mode switch under way
/// are dropped, and the selection goes back to the root path `$`.
pub fn clear_tab_parse_cache(tab: &mut EditorTabState)
    ensures
        parse_dropped(*final(tab)),
        final(tab).selected_path@ == "$"@,
        same_identity(*final(tab), *old(tab)),
        final(tab).editor_text == old(tab).editor_text,
        final(tab).text_buffer == old(tab).text_buffer,
        final(tab).text_history == old(tab).text_history,
        final(tab).byte_doc == old(tab).byte_doc,
        final(tab).dirty == old(tab).dirty,
{
    tab.parsed = false;
    tab.text_cache = Vec::new();
    tab.task_state = None;
    tab.selected_path = "$".to_owned();
}

/// Makes a recorded range replacement on the tab's text; false, and nothing
/// changed, when the tab has no line index or the replacement does not apply.
pub fn apply_text_history_range(tab: &mut EditorTabState, replacement: &TextRangeReplacement) -> (applied: bool)
    ensures
        applied <==> (old(tab).text_buffer matches Some(b) && edit_applies(b@, *replacement)),
        applied ==> ({
            let b = old(tab).text_buffer->0;
            &&& final(tab).editor_text@ == edited_text(b@, *replacement)
            &&& surface_ok(*final(tab))
            &&& same_identity(*final(tab), *old(tab))
            &&& final(tab).text_history == old(tab).text_history
            &&& final(tab).byte_doc is None
            &&& parse_dropped(*final(tab))
            &&& final(tab).selected_path@ == "$"@
            &&& final(tab).dirty
        }),
        !applied ==> tab_same(*final(tab), *old(tab)),
{
    let next_text = match &tab.text_buffer {
        Some(buffer) => match text_with_replaced_range(buffer, replacement) {
            Some(t) => t,
            None => return false,
        },
        None => return false,
    };
    apply_text_surface(tab, next_text);
    clear_tab_parse_cache(tab);
    tab.byte_doc = None;
    tab.dirty = true;
    true
}


/// `after` is `before` once its most recent text change is undone.
pub open spec fn text_undone(before: EditorTabState, after: EditorTabState) -> bool {
    if before.text_history.past@.len() == 0 {
        tab_same(after, before)
    } else {
        match before.text_history.past@.last() {
            TextHistoryEntry::Snapshot(previous) => {
                &&& after.editor_text == previous
                &&& surface_ok(after)
                &&& same_identity(after, before)
                &&& after.text_history.past@ == before.text_history.past@.drop_last()
                &&& after.text_history.future@ == before.text_history.future@.push(
                    TextHistoryEntry::Snapshot(before.editor_text),
                )
                &&& after.byte_doc is None
                &&& parse_dropped(after)
                &&& after.selected_path@ == "$"@
                &&& after.dirty
            },
            TextHistoryEntry::Range(entry) => if before.text_buffer matches Some(buffer)
                && edit_applies(buffer@, entry.undo) {
                &&& after.editor_text@ == edited_text(before.text_buffer->0@, entry.undo)
                &&& surface_ok(after)
                &&& same_identity(after, before)
                &&& after.text_history.past@ == before.text_history.past@.drop_last()
                &&& after.text_history.future@ == before.text_history.future@.push(
                    TextHistoryEntry::Range(entry),
                )
                &&& after.byte_doc is None
                &&& parse_dropped(after)
                &&& after.selected_path@ == "$"@
                &&& after.dirty
            } else {
                tab_same(after, before)
            },
        }
    }
}

/// Undoes the most recent text change of the tab. A snapshot brings the
/// previous text back; a range edit makes its undo replacement, and stays on
/// the undo stack when that replacement no longer applies.
pub fn undo_text_tab(tab: &mut EditorTabState)
    ensures
        text_undone(*old(tab), *final(tab)),
{
    if tab.text_history.past.len() == 0 {
        return;
    }
    let previous = match tab.text_history.past.pop() {
        Some(p) => p,
        None => return,
    };
    match previous {
        TextHistoryEntry::Snapshot(previous_text) => {
            let current = tab.editor_text.clone();
            apply_text_surface(tab, previous_text);
            push_text_redo_snapshot(&mut tab.text_history, current);
            clear_tab_parse_cache(tab);
            tab.byte_doc = None;
            tab.dirty = true;
        },
        TextHistoryEntry::Range(entry) => {
            if apply_text_history_range(tab, &entry.undo) {
                push_text_redo_range(&mut tab.text_history, entry);
            } else {
                tab.text_history.past.push(TextHistoryEntry::Range(entry));
                proof {
                    assert(tab.text_history.past@ =~= old(tab).text_history.past@);
                }
            }
        },
    }
}

/// `after` is `before` once its most recently undone text change is redone.
pub open spec fn text_redone(before: EditorTabState, after: EditorTabState) -> bool {
    if before.text_history.future@.len() == 0 {
        tab_same(after, before)
    } else {
        match before.text_history.future@.last() {
            TextHistoryEntry::Snapshot(next) => {
                &&& after.editor_text == next
                &&& surface_ok(after)
                &&& same_identity(after, before)
                &&& after.text_history.future@ == before.text_history.future@.drop_last()
                &&& after.text_history.past@ == before.text_history.past@.push(
                    TextHistoryEntry::Snapshot(before.editor_text),
                )
                &&& after.byte_doc is None
                &&& parse_dropped(after)
                &&& after.selected_path@ == "$"@
                &&& after.dirty
            },
            TextHistoryEntry::Range(entry) => if before.text_buffer matches Some(buffer)
                && edit_applies(buffer@, entry.redo) {
                &&& after.editor_text@ == edited_text(before.text_buffer->0@, entry.redo)
                &&& surface_ok(after)
                &&& same_identity(after, before)
                &&& after.text_history.future@ == before.text_history.future@.drop_last()
                &&& after.text_history.past@ == before.text_history.past@.push(
                    TextHistoryEntry::Range(entry),
                )
                &&& after.byte_doc is None
                &&& parse_dropped(after)
                &&& after.selected_path@ == "$"@
                &&& after.dirty
            } else {
                tab_same(after, before)
            },
        }
    }
}

/// Redoes the most recently undone text change of the tab, the mirror of
/// `undo_text_tab`.
pub fn redo_text_tab(tab: &mut EditorTabState)
    ensures
        text_redone(*old(tab), *final(tab)),
{
    if tab.text_history.future.len() == 0 {
        return;
    }
    let next = match tab.text_history.future.pop() {
        Some(n) => n,
        None => return,
    };
    match next {
        TextHistoryEntry::Snapshot(next_text) => {
            let current = tab.editor_text.clone();
            apply_text_surface(tab, next_text);
            push_text_past_snapshot(&mut tab.text_history, current);
            clear_tab_parse_cache(tab);
            tab.byte_doc = None;
            tab.dirty = true;
        },
        TextHistoryEntry::Range(entry) => {
            if apply_text_history_range(tab, &entry.redo) {
                push_text_past_range(&mut tab.text_history, entry);
            } else {
                tab.text_history.future.push(TextHistoryEntry::Range(entry));
                proof {
                    assert(tab.text_history.future@ =~= old(tab).text_history.future@);
                }
            }
        },
    }
}

/// The same document in the same mode.
pub open spec fn same_document(a: EditorTabState, b: EditorTabState) -> bool {
    &&& a.id == b.id
    &&& a.file_name == b.file_name
    &&& a.mode == b.mode
}

/// After a byte change: no text surface, the value tree dropped, marked changed.
pub open spec fn bytes_changed(tab: EditorTabState) -> bool {
    &&& tab.editor_text@.len() == 0
    &&& tab.text_buffer is None
    &&& parse_dropped(tab)
    &&& tab.dirty
}

/// `after` is `before` once its most recent batch of byte writes is undone.
pub open spec fn hex_undone(before: EditorTabState, after: EditorTabState) -> bool {
    if before.hex_history.past@.len() == 0 || before.byte_doc is None {
        tab_same(after, before)
    } else {
        let batch = before.hex_history.past@.last();
        &&& after.byte_doc matches Some(d)
        &&& d@ == bytes_after_edits(before.byte_doc->0@, batch.undo@)
        &&& after.hex_history.past@ == before.hex_history.past@.drop_last()
        &&& after.hex_history.future@ == before.hex_history.future@.push(batch)
        &&& same_document(after, before)
        &&& after.text_history == before.text_history
        &&& bytes_changed(after)
        &&& after.selected_path@ == "$"@
    }
}

/// Undoes the most recent batch of byte writes; with no byte document the
/// batch stays on the undo stack.
pub fn undo_hex_tab(tab: &mut EditorTabState)
    ensures
        hex_undone(*old(tab), *final(tab)),
{
    if tab.hex_history.past.len() == 0 {
        return;
    }
    let next_doc = match &tab.byte_doc {
        Some(doc) => apply_hex_edits(doc, &tab.hex_history.past[tab.hex_history.past.len() - 1].undo),
        None => return,
    };
    let previous = match tab.hex_history.past.pop() {
        Some(p) => p,
        None => return,
    };
    tab.byte_doc = Some(next_doc);
    push_hex_redo_batch(&mut tab.hex_history, previous);
    clear_tab_parse_cache(tab);
    tab.editor_text = String::new();
    tab.text_buffer = None;
    tab.dirty = true;
}

/// `after` is `before` once its most recently undone batch of byte writes is redone.
pub open spec fn hex_redone(before: EditorTabState, after: EditorTabState) -> bool {
    if before.hex_history.future@.len() == 0 || before.byte_doc is None {
        tab_same(after, before)
    } else {
        let batch = before.hex_history.future@.last();
        &&& after.byte_doc matches Some(d)
        &&& d@ == bytes_after_edits(before.byte_doc->0@, batch.redo@)
        &&& after.hex_history.future@ == before.hex_history.future@.drop_last()
        &&& after.hex_history.past@ == before.hex_history.past@.push(batch)
        &&& same_document(after, before)
        &&& after.text_history == before.text_history
        &&& bytes_changed(after)
        &&& after.selected_path@ == "$"@
    }
}

/// Redoes the most recently undone batch of byte writes; with no byte
/// document the batch stays on the redo stack.
pub fn redo_hex_tab(tab: &mut EditorTabState)
    ensures
        hex_redone(*old(tab), *final(tab)),
{
    if tab.hex_history.future.len() == 0 {
        return;
    }
    let next_doc = match &tab.byte_doc {
        Some(doc) => apply_hex_edits(
            doc,
            &tab.hex_history.future[tab.hex_history.future.len() - 1].redo,
        ),
        None => return,
    };
    let next = match tab.hex_history.future.pop() {
        Some(n) => n,
        None => return,
    };
    tab.byte_doc = Some(next_doc);
    push_hex_past_batch(&mut tab.hex_history, next);
    clear_tab_parse_cache(tab);
    tab.editor_text = String::new();
    tab.text_buffer = None;
    tab.dirty = true;
}

/// `after` is `before` once the user's byte writes `edits` are made.
pub open spec fn hex_edited(before: EditorTabState, after: EditorTabState, edits: Seq<HexEdit>) -> bool {
    match before.byte_doc {
        Some(doc) if writes_in_range(edits, doc@.len()).len() > 0 => {
            let redo = writes_in_range(edits, doc@.len());
            let batch = after.hex_history.past@.last();
            &&& after.byte_doc matches Some(d)
            &&& d@ == bytes_after_edits(doc@, redo)
            &&& after.hex_history.past@.len() == before.hex_history.past@.len() + 1
            &&& after.hex_history.past@.drop_last() =~= before.hex_history.past@
            &&& batch.redo@ == redo
            &&& batch.undo@ == undo_writes(doc@, redo)
            &&& after.hex_history.future@.len() == 0
            &&& same_document(after, before)
            &&& after.text_history == before.text_history
            &&& after.selected_path == before.selected_path
            &&& bytes_changed(after)
        },
        _ => tab_same(after, before),
    }
}

/// Makes the user's byte writes on the tab's byte document, recording them
/// for undo; nothing happens without a byte document or when no write lands
/// inside it.
pub fn edit_tab_hex(tab: &mut EditorTabState, edits: Vec<HexEdit>)
    ensures
        hex_edited(*old(tab), *final(tab), edits@),
{
    let prepared = match &tab.byte_doc {
        Some(doc) => match prepare_hex_edits(doc, edits) {
            Some(batch) => Some((apply_hex_edits(doc, &batch.redo), batch)),
            None => None,
        },
        None => None,
    };
    let (next_doc, batch) = match prepared {
        Some(p) => p,
        None => return,
    };
    push_hex_undo_batch(&mut tab.hex_history, batch);
    tab.byte_doc = Some(next_doc);
    tab.parsed = false;
    tab.text_cache = Vec::new();
    tab.task_state = None;
    tab.editor_text = String::new();
    tab.text_buffer = None;
    tab.dirty = true;
}

/// Largest text, in UTF-8 bytes, that an undo snapshot copies.
pub const TEXT_UNDO_SNAPSHOT_LIMIT: usize = 1_048_576;

/// A whole-text change from `previous` to `next` is recorded as a snapshot
/// only when neither text is larger than the snapshot limit.
pub open spec fn can_snapshot(previous: Seq<char>, next: Seq<char>) -> bool {
    utf8_len(previous) <= TEXT_UNDO_SNAPSHOT_LIMIT && utf8_len(next) <= TEXT_UNDO_SNAPSHOT_LIMIT
}

/// Whether a whole-text change from `previous` to `next` can be undone by a snapshot.
pub fn can_record_text_undo(previous: &str, next: &str) -> (b: bool)
    ensures
        b == can_snapshot(previous@, next@),
{
    str_fits(previous);
    str_fits(next);
    proof {
        lemma_encode_utf8_len(previous@);
        lemma_encode_utf8_len(next@);
    }
    previous.len() <= TEXT_UNDO_SNAPSHOT_LIMIT && next.len() <= TEXT_UNDO_SNAPSHOT_LIMIT
}

/// After a text change: the bytes and the value tree dropped, marked changed.
pub open spec fn text_changed(tab: EditorTabState) -> bool {
    &&& surface_ok(tab)
    &&& tab.byte_doc is None
    &&& parse_dropped(tab)
    &&& tab.dirty
}

/// `after` is `before` once its whole text is replaced by `text`.
pub open spec fn text_edited(before: EditorTabState, after: EditorTabState, text: Seq<char>) -> bool {
    if before.editor_text@ == text {
        tab_same(after, before)
    } else {
        &&& after.editor_text@ == text
        &&& text_changed(after)
        &&& same_identity(after, before)
        &&& after.selected_path == before.selected_path
        &&& after.text_history.past@ =~= if can_snapshot(before.editor_text@, text) {
            before.text_history.past@.push(TextHistoryEntry::Snapshot(before.editor_text))
        } else {
            Seq::empty()
        }
        &&& after.text_history.future@.len() == 0
    }
}

/// Replaces the whole text of the tab. A change is recorded as a snapshot of
/// the previous text when both fit the snapshot limit; otherwise the undo
/// history is dropped. The same text changes nothing.
pub fn edit_tab_text(tab: &mut EditorTabState, text: String)
    ensures
        text_edited(*old(tab), *final(tab), text@),
{
    if tab.editor_text == text {
        return;
    }
    if can_record_text_undo(tab.editor_text.as_str(), text.as_str()) {
        let previous = tab.editor_text.clone();
        push_text_undo_snapshot(&mut tab.text_history, previous);
    } else {
        tab.text_history = TextHistory::new();
    }
    apply_text_surface(tab, text);
    tab.byte_doc = None;
    tab.parsed = false;
    tab.text_cache = Vec::new();
    tab.task_state = None;
    tab.dirty = true;
}

/// `after` is `before` once the range replacement is made.
pub open spec fn text_range_edited(
    before: EditorTabState,
    after: EditorTabState,
    replacement: TextRangeReplacement,
) -> bool {
    match before.text_buffer {
        Some(b) if edit_applies(b@, replacement) && edited_text(b@, replacement)
            != before.editor_text@ => {
            let entry = after.text_history.past@.last();
            &&& after.editor_text@ == edited_text(b@, replacement)
            &&& text_changed(after)
            &&& same_identity(after, before)
            &&& after.selected_path == before.selected_path
            &&& after.text_history.past@.len() == before.text_history.past@.len() + 1
            &&& after.text_history.past@.drop_last() =~= before.text_history.past@
            &&& entry matches TextHistoryEntry::Range(e)
            &&& replacement_fields(e.undo) == undo_replacement_fields(b@, replacement)
            &&& replacement_fields(e.redo) == redo_replacement_fields(b@, replacement)
            &&& after.text_history.future@.len() == 0
        },
        _ => tab_same(after, before),
    }
}

/// Makes a range replacement on the tab's text and records it for undo;
/// nothing happens without a line index, when the replacement does not
/// apply, or when it leaves the text as it was.
pub fn edit_tab_text_range(tab: &mut EditorTabState, replacement: &TextRangeReplacement)
    ensures
        text_range_edited(*old(tab), *final(tab), *replacement),
{
    let outcome = match &tab.text_buffer {
        Some(buffer) => match text_with_replaced_range_and_history(buffer, replacement) {
            Some(o) => o,
            None => return,
        },
        None => return,
    };
    if tab.editor_text == outcome.next_text {
        return;
    }
    push_text_undo_range(&mut tab.text_history, outcome.history);
    apply_text_surface(tab, outcome.next_text);
    tab.byte_doc = None;
    tab.parsed = false;
    tab.text_cache = Vec::new();
    tab.task_state = None;
    tab.dirty = true;
}

/// The letter a mode's button shows; no mode shows the hex mode's.
pub open spec fn mode_letter(mode: Option<EditorMode>) -> Seq<char> {
    match mode {
        Some(EditorMode::Json) => "J"@,
        Some(EditorMode::Yaml) => "Y"@,
        Some(EditorMode::Toml) => "T"@,
        _ => "R"@,
    }
}

/// The letter a mode's button shows.
pub fn mode_mark(mode: Option<EditorMode>) -> (s: &'static str)
    ensures
        s@ == mode_letter(mode),
{
    match mode {
        Some(EditorMode::Json) => "J",
        Some(EditorMode::Yaml) => "Y",
        Some(EditorMode::Toml) => "T",
        _ => "R",
    }
}

} // verus!
