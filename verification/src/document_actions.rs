//! The decisions around opening a loaded file and jumping to a value path:
//! what the editor does before and after the work that reads a file or
//! locates a value.
use vstd::prelude::*;

use crate::editing::updated_tab;
use crate::editor_tab::{EditorTabState, EncodeOptions, mode_is_text};
use crate::tab_actions::{text_line_count, text_lines_counted};
use crate::text_lines::line_count;
use crate::text_search::TextJumpTarget;
use crate::value_tree::{next_generation, path_set, paths_distinct, toggle_expanded_path, toggled};
use crate::workspace::{
    LoadedFileState, find_file_index, find_tab_index, first_file, first_tab, has_file, has_tab,
};

verus! {

/// What opening a loaded file comes to.
#[derive(Debug, Clone, Copy, PartialEq, Eq, Structural)]
pub enum OpenFileStep {
    /// No loaded file has the id.
    Missing,
    /// The file is already open in this tab, which is now active.
    Activated(usize),
    /// The file is to be read into a new tab with this id.
    Create(usize),
}

/// Sets the output switches from a source encoding: compact output when the
/// source is compact, encrypted output when it is encrypted.
pub fn sync_output_encoding(
    encoding: EncodeOptions,
    compact_output: &mut bool,
    encrypt_output: &mut bool,
)
    ensures
        *final(compact_output) == encoding.compact,
        *final(encrypt_output) == encoding.encrypted,
{
    *compact_output = encoding.compact;
    *encrypt_output = encoding.encrypted;
}

/// Opens a loaded file: activates the tab it is open in, taking the output
/// switches from that tab's source encoding, or reserves the id of the new
/// tab to read it into.
pub fn open_loaded_file_by_id(
    file_id: usize,
    loaded_files: &Vec<LoadedFileState>,
    tabs: &Vec<EditorTabState>,
    next_tab_id: &mut usize,
    active_tab_id: &mut usize,
    compact_output: &mut bool,
    encrypt_output: &mut bool,
) -> (step: OpenFileStep)
    requires
        *old(next_tab_id) < usize::MAX,
    ensures
        !has_file(loaded_files@, file_id) ==> {
            &&& step == OpenFileStep::Missing
            &&& *final(next_tab_id) == *old(next_tab_id)
            &&& *final(active_tab_id) == *old(active_tab_id)
            &&& *final(compact_output) == *old(compact_output)
            &&& *final(encrypt_output) == *old(encrypt_output)
        },
        has_file(loaded_files@, file_id) ==> {
            let f = loaded_files@[first_file(loaded_files@, file_id)];
            if f.tab_id is Some && has_tab(tabs@, f.tab_id->0) {
                let tab = tabs@[first_tab(tabs@, f.tab_id->0)];
                &&& step == OpenFileStep::Activated(f.tab_id->0)
                &&& *final(active_tab_id) == f.tab_id->0
                &&& *final(next_tab_id) == *old(next_tab_id)
                &&& *final(compact_output) == tab.source_encode_options.compact
                &&& *final(encrypt_output) == tab.source_encode_options.encrypted
            } else {
                &&& step == OpenFileStep::Create(*old(next_tab_id))
                &&& *final(next_tab_id) == *old(next_tab_id) + 1
                &&& *final(active_tab_id) == *old(active_tab_id)
                &&& *final(compact_output) == *old(compact_output)
                &&& *final(encrypt_output) == *old(encrypt_output)
            }
        },
{
    let index = match find_file_index(loaded_files, file_id) {
        Some(i) => i,
        None => return OpenFileStep::Missing,
    };
    if let Some(tab_id) = loaded_files[index].tab_id {
        if let Some(t) = find_tab_index(tabs, tab_id) {
            *active_tab_id = tab_id;
            sync_output_encoding(tabs[t].source_encode_options, compact_output, encrypt_output);
            return OpenFileStep::Activated(tab_id);
        }
    }
    let id = *next_tab_id;
    *next_tab_id = id + 1;
    OpenFileStep::Create(id)
}

/// The loaded files once the first file with id `file_id` links to tab `tab_id`.
pub open spec fn files_linked(files: Seq<LoadedFileState>, file_id: usize, tab_id: usize) -> Seq<
    LoadedFileState,
> {
    if has_file(files, file_id) {
        let i = first_file(files, file_id);
        files.update(i, LoadedFileState { tab_id: Some(tab_id), ..files[i] })
    } else {
        files
    }
}

/// Finishes opening a loaded file once its tab is read: the tab is added
/// and activated, the file links to it, and the output switches follow the
/// tab's source encoding.
pub fn finish_open_loaded_file(
    file_id: usize,
    tab: EditorTabState,
    loaded_files: &mut Vec<LoadedFileState>,
    tabs: &mut Vec<EditorTabState>,
    active_tab_id: &mut usize,
    compact_output: &mut bool,
    encrypt_output: &mut bool,
)
    ensures
        final(tabs)@ == old(tabs)@.push(tab),
        final(loaded_files)@ == files_linked(old(loaded_files)@, file_id, tab.id),
        *final(active_tab_id) == tab.id,
        *final(compact_output) == tab.source_encode_options.compact,
        *final(encrypt_output) == tab.source_encode_options.encrypted,
{
    let id = tab.id;
    sync_output_encoding(tab.source_encode_options, compact_output, encrypt_output);
    tabs.push(tab);
    if let Some(i) = find_file_index(loaded_files, file_id) {
        let file = LoadedFileState {
            id: loaded_files[i].id,
            display_name: loaded_files[i].display_name.clone(),
            size: loaded_files[i].size,
            tab_id: Some(id),
        };
        loaded_files.set(i, file);
    }
    *active_tab_id = id;
}

/// What jumping to a value path comes to, once the path is selected.
#[derive(Debug, Clone, Copy, PartialEq, Eq, Structural)]
pub enum ValuePathStep {
    /// No tab is active.
    NoActiveTab,
    /// The active tab has no parsed document to find the path in.
    NoParsedDocument,
    /// The active hex tab has no bytes.
    NoJumpBytes,
    /// Find the value's byte offset in the tab's bytes; once it is found,
    /// jump there (see `located_hex_jump`).
    LocateOffset,
    /// Find the value's line in the tab's text, then jump there; the text
    /// has `line_count` lines.
    LocateText { jump_id: u64, line_count: usize },
}

/// The lines of a tab's text: from its line index when it has one.
pub open spec fn tab_line_count(tab: EditorTabState) -> int {
    match tab.text_buffer {
        Some(b) => line_count(b@) as int,
        None => text_lines_counted(tab.editor_text@) as int,
    }
}

/// The next jump id, saturating.
pub open spec fn next_jump(id: u64) -> u64 {
    if id < u64::MAX {
        (id + 1) as u64
    } else {
        id
    }
}

/// Jumps to a value path: selects it in the active tab, then says what to
/// locate, or why there is nothing to locate. A text jump takes its jump id
/// here; a hex jump takes one only once its offset is found.
pub fn navigate_to_value_path(
    path: String,
    tabs: &mut Vec<EditorTabState>,
    active_tab_id: usize,
    next_jump_id: &mut u64,
) -> (step: ValuePathStep)
    ensures
        updated_tab(
            old(tabs)@,
            final(tabs)@,
            active_tab_id,
            |a: EditorTabState, b: EditorTabState| b == (EditorTabState { selected_path: path, ..a }),
        ),
        !has_tab(old(tabs)@, active_tab_id) ==> step == ValuePathStep::NoActiveTab
            && *final(next_jump_id) == *old(next_jump_id),
        has_tab(old(tabs)@, active_tab_id) ==> {
            let tab = old(tabs)@[first_tab(old(tabs)@, active_tab_id)];
            if !tab.parsed {
                step == ValuePathStep::NoParsedDocument && *final(next_jump_id) == *old(next_jump_id)
            } else if !mode_is_text(tab.mode) {
                if tab.byte_doc is None {
                    step == ValuePathStep::NoJumpBytes && *final(next_jump_id) == *old(next_jump_id)
                } else {
                    step == ValuePathStep::LocateOffset && *final(next_jump_id) == *old(
                        next_jump_id,
                    )
                }
            } else {
                step == (ValuePathStep::LocateText {
                    jump_id: *old(next_jump_id),
                    line_count: tab_line_count(tab) as usize,
                }) && *final(next_jump_id) == next_jump(*old(next_jump_id))
            }
        },
{
    let i = match find_tab_index(tabs, active_tab_id) {
        Some(i) => i,
        None => return ValuePathStep::NoActiveTab,
    };
    tabs[i].selected_path = path;
    let tab = &tabs[i];
    if !tab.parsed {
        return ValuePathStep::NoParsedDocument;
    }
    if !tab.mode.is_text() {
        if tab.byte_doc.is_none() {
            return ValuePathStep::NoJumpBytes;
        }
        return ValuePathStep::LocateOffset;
    }
    let id = *next_jump_id;
    let line_count = match &tab.text_buffer {
        Some(buffer) => buffer.line_count(),
        None => text_line_count(tab.editor_text.as_str()),
    };
    *next_jump_id = id.saturating_add(1);
    ValuePathStep::LocateText { jump_id: id, line_count }
}

/// The jump to a located value's line and column, focusing the editor.
pub fn located_text_jump(jump_id: u64, line: usize, column: usize, line_count: usize) -> (t:
    TextJumpTarget)
    ensures
        t == (TextJumpTarget {
            id: jump_id,
            line,
            column,
            selection_end_column: column,
            line_count,
            focus: true,
        }),
{
    TextJumpTarget { id: jump_id, line, column, selection_end_column: column, line_count, focus: true }
}

/// A jump to a byte offset in the hex view.
#[derive(Debug, Clone, Copy, PartialEq, Eq, Structural)]
pub struct HexJumpTarget {
    pub id: u64,
    pub offset: usize,
}

/// The jump to a located value's byte offset: it takes the next jump id,
/// which then advances (saturating).
pub fn located_hex_jump(next_jump_id: &mut u64, offset: usize) -> (t: HexJumpTarget)
    ensures
        t == (HexJumpTarget { id: *old(next_jump_id), offset }),
        *final(next_jump_id) == next_jump(*old(next_jump_id)),
{
    let id = *next_jump_id;
    *next_jump_id = id.saturating_add(1);
    HexJumpTarget { id, offset }
}

/// Expands or collapses a path of the active tab's value tree, starting a
/// new generation of its rows. Gives the generation to build the rows for,
/// or `None` when there is no active tab or it has no parsed document to
/// build them from.
pub fn toggle_active_tree_path(
    path: String,
    tabs: &mut Vec<EditorTabState>,
    active_tab_id: usize,
) -> (r: Option<u64>)
    ensures
        updated_tab(
            old(tabs)@,
            final(tabs)@,
            active_tab_id,
            |a: EditorTabState, b: EditorTabState|
                {
                    &&& path_set(b.tree.expanded_paths@) == toggled(
                        path_set(a.tree.expanded_paths@),
                        path@,
                    )
                    &&& paths_distinct(a.tree.expanded_paths@) ==> paths_distinct(
                        b.tree.expanded_paths@,
                    )
                    &&& b.tree.generation == next_generation(a.tree.generation)
                    &&& b == (EditorTabState { tree: b.tree, ..a })
                },
        ),
        !has_tab(old(tabs)@, active_tab_id) ==> r is None,
        has_tab(old(tabs)@, active_tab_id) ==> {
            let i = first_tab(old(tabs)@, active_tab_id);
            r == if old(tabs)@[i].parsed {
                Some(final(tabs)@[i].tree.generation)
            } else {
                None::<u64>
            }
        },
{
    let i = match find_tab_index(tabs, active_tab_id) {
        Some(i) => i,
        None => return None,
    };
    toggle_expanded_path(&mut tabs[i].tree, path);
    if tabs[i].parsed {
        Some(tabs[i].tree.generation)
    } else {
        None
    }
}

} // verus!
