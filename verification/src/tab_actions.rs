//! Workspace actions on tabs and file-panel items: closing, removing,
//! activating and finishing a tab drag.
use vstd::prelude::*;

use crate::editing::updated_tab;
use crate::editor_tab::{EditorTabState, mode_is_text};
use crate::text_lines::newline_count;
use crate::virtual_text::string_view;
use crate::workspace::{
    DropPlacement, FileListKey, LoadedFileState, find_tab_index, first_file, first_tab, has_file,
    has_tab, next_active_after_removal, remove_file_list_item_by_key_from_state,
    remove_tab_by_id_from_state, reorder_tabs_by_id_in_state, reordered_tabs, unlinked,
};

verus! {

/// The tabs once the first tab with id `id` is closed.
pub open spec fn tabs_without(tabs: Seq<EditorTabState>, id: usize) -> Seq<EditorTabState> {
    if has_tab(tabs, id) {
        tabs.remove(first_tab(tabs, id))
    } else {
        tabs
    }
}

/// The active tab once the first tab with id `id` is closed.
pub open spec fn active_after_close(tabs: Seq<EditorTabState>, active_tab_id: usize, id: usize) -> usize {
    if has_tab(tabs, id) {
        let i = first_tab(tabs, id);
        match next_active_after_removal(tabs.remove(i), tabs[i], active_tab_id, i) {
            Some(next) => next,
            None => active_tab_id,
        }
    } else {
        active_tab_id
    }
}

/// Closing tab `id` when it is the active tab activates its neighbour: the
/// tab right after it, or the one right before it when it was the last tab;
/// the placeholder id 0 when no tab is left. Closing another tab while others
/// remain, or an id no tab has, keeps the active tab.
pub proof fn lemma_close_activates_neighbour(tabs: Seq<EditorTabState>, active_tab_id: usize, id: usize)
    ensures
        ({
            let a = active_after_close(tabs, active_tab_id, id);
            let i = first_tab(tabs, id);
            &&& !has_tab(tabs, id) ==> a == active_tab_id
            &&& has_tab(tabs, id) ==> {
                &&& 0 <= i < tabs.len()
                &&& tabs[i].id == id
                &&& tabs.len() == 1 ==> a == 0
                &&& tabs.len() > 1 && id == active_tab_id && i + 1 < tabs.len() ==> a == tabs[i
                    + 1].id
                &&& tabs.len() > 1 && id == active_tab_id && i + 1 == tabs.len() ==> a == tabs[i
                    - 1].id
                &&& tabs.len() > 1 && id != active_tab_id ==> a == active_tab_id
            }
        }),
{
    if has_tab(tabs, id) {
        let j = choose|j: int| 0 <= j < tabs.len() && #[trigger] tabs[j].id == id;
        crate::workspace::lemma_first_exists(tabs, id, j);
        let i = first_tab(tabs, id);
        crate::workspace::lemma_closing_activates_neighbour(tabs, active_tab_id, i);
    }
}

/// The name of the tab that closing `id` closes.
pub open spec fn closed_name(tabs: Seq<EditorTabState>, id: usize) -> Option<Seq<char>> {
    if has_tab(tabs, id) {
        Some(tabs[first_tab(tabs, id)].file_name@)
    } else {
        None
    }
}

/// Closes the first tab with id `id`, activating its neighbour when it was
/// active; the closed tab's name, or `None` when no tab has the id.
pub fn remove_tab_by_id(id: usize, tabs: &mut Vec<EditorTabState>, active_tab_id: &mut usize) -> (r:
    Option<String>)
    ensures
        final(tabs)@ == tabs_without(old(tabs)@, id),
        *final(active_tab_id) == active_after_close(old(tabs)@, *old(active_tab_id), id),
        string_view(r) == closed_name(old(tabs)@, id),
{
    let removed = match remove_tab_by_id_from_state(tabs, *active_tab_id, id) {
        Some(removed) => removed,
        None => return None,
    };
    if let Some(next_active) = removed.next_active_id {
        *active_tab_id = next_active;
    }
    Some(removed.name)
}

/// The loaded files, the tabs and the active tab id.
pub type WorkspaceView = (Seq<LoadedFileState>, Seq<EditorTabState>, usize);

/// The loaded files once the item named by `key` is removed from the file panel.
pub open spec fn files_after_key(files: Seq<LoadedFileState>, key: FileListKey) -> Seq<
    LoadedFileState,
> {
    match key {
        FileListKey::File(id) => if has_file(files, id) {
            files.remove(first_file(files, id))
        } else {
            files
        },
        FileListKey::Tab(tab_id) => Seq::new(files.len(), |j: int| unlinked(files[j], tab_id)),
        FileListKey::Unrecognized => files,
    }
}

/// The name of the item `key` removes and the tab it closes; `None` when it
/// removes nothing.
pub open spec fn removed_item(files: Seq<LoadedFileState>, key: FileListKey) -> Option<
    (Seq<char>, Option<usize>),
> {
    match key {
        FileListKey::File(id) => if has_file(files, id) {
            let f = files[first_file(files, id)];
            Some((f.display_name@, f.tab_id))
        } else {
            None
        },
        FileListKey::Tab(tab_id) => Some((Seq::empty(), Some(tab_id))),
        FileListKey::Unrecognized => None,
    }
}

/// The workspace once the file-panel item `key` is removed, and the name
/// reported: the item's name, or for an item without a name the name of the
/// tab it closed.
pub open spec fn remove_item_step(w: WorkspaceView, key: FileListKey) -> (WorkspaceView, Option<
    Seq<char>,
>) {
    let (files, tabs, active) = w;
    match removed_item(files, key) {
        None => (w, None),
        Some((name, tab)) => {
            let files2 = files_after_key(files, key);
            match tab {
                None => ((files2, tabs, active), Some(name)),
                Some(t) => (
                    (files2, tabs_without(tabs, t), active_after_close(tabs, active, t)),
                    if name.len() == 0 {
                        closed_name(tabs, t)
                    } else {
                        Some(name)
                    },
                ),
            }
        },
    }
}

/// Removes a file-panel item and closes the tab it names.
pub fn remove_file_list_item_by_key(
    key: FileListKey,
    loaded_files: &mut Vec<LoadedFileState>,
    tabs: &mut Vec<EditorTabState>,
    active_tab_id: &mut usize,
) -> (r: Option<String>)
    ensures
        ({
            let (w, name) = remove_item_step(
                (old(loaded_files)@, old(tabs)@, *old(active_tab_id)),
                key,
            );
            &&& final(loaded_files)@ == w.0
            &&& final(tabs)@ == w.1
            &&& *final(active_tab_id) == w.2
            &&& string_view(r) == name
        }),
{
    let removed = match remove_file_list_item_by_key_from_state(key, loaded_files) {
        Some(removed) => removed,
        None => return None,
    };
    proof {
        if key is Tab {
            assert(loaded_files@ =~= files_after_key(old(loaded_files)@, key));
        }
    }
    if let Some(tab_id) = removed.removed_tab_id {
        if removed.name.as_str().is_empty() {
            return remove_tab_by_id(tab_id, tabs, active_tab_id);
        }
        let _closed = remove_tab_by_id(tab_id, tabs, active_tab_id);
    }
    Some(removed.name)
}

/// The workspace once the items `keys` are removed in order, and how many
/// removals reported a name.
pub open spec fn remove_items(w: WorkspaceView, keys: Seq<FileListKey>) -> (WorkspaceView, nat)
    decreases keys.len(),
{
    if keys.len() == 0 {
        (w, 0)
    } else {
        let (w1, n) = remove_items(w, keys.drop_last());
        let (w2, name) = remove_item_step(w1, keys.last());
        (
            w2,
            if name is Some {
                n + 1
            } else {
                n
            },
        )
    }
}

/// Removes the file-panel items `keys` in order; how many were removed.
pub fn remove_file_list_items_by_keys(
    keys: Vec<FileListKey>,
    loaded_files: &mut Vec<LoadedFileState>,
    tabs: &mut Vec<EditorTabState>,
    active_tab_id: &mut usize,
) -> (count: usize)
    ensures
        ({
            let (w, n) = remove_items((old(loaded_files)@, old(tabs)@, *old(active_tab_id)), keys@);
            &&& final(loaded_files)@ == w.0
            &&& final(tabs)@ == w.1
            &&& *final(active_tab_id) == w.2
            &&& count == n
        }),
{
    let mut count: usize = 0;
    let mut i: usize = 0;
    proof {
        assert(keys@.take(0) =~= Seq::<FileListKey>::empty());
    }
    while i < keys.len()
        invariant
            0 <= i <= keys.len(),
            count <= i,
            ({
                let (w, n) = remove_items(
                    (old(loaded_files)@, old(tabs)@, *old(active_tab_id)),
                    keys@.take(i as int),
                );
                &&& loaded_files@ == w.0
                &&& tabs@ == w.1
                &&& *active_tab_id == w.2
                &&& count == n
            }),
        decreases keys.len() - i,
    {
        proof {
            assert(keys@.take(i + 1).drop_last() =~= keys@.take(i as int));
            assert(keys@.take(i + 1).last() == keys@[i as int]);
        }
        if remove_file_list_item_by_key(keys[i], loaded_files, tabs, active_tab_id).is_some() {
            count += 1;
        }
        i += 1;
    }
    proof {
        assert(keys@.take(keys@.len() as int) =~= keys@);
    }
    count
}

/// Where a dragged tab would land: next to the tab with this id.
#[derive(Debug, Clone, Copy, PartialEq, Eq, Structural)]
pub struct TabDropMarker {
    pub id: usize,
    pub placement: DropPlacement,
}

/// Ends a tab drag: the dragged tab moves next to the marked tab when both
/// are known, and the drag and the marker are cleared.
pub fn finish_tab_drag_state(
    tabs: &mut Vec<EditorTabState>,
    dragged_tab_id: &mut Option<usize>,
    tab_drop_marker: &mut Option<TabDropMarker>,
)
    ensures
        final(tabs)@ == match (*old(dragged_tab_id), *old(tab_drop_marker)) {
            (Some(dragged), Some(marker)) => reordered_tabs(
                old(tabs)@,
                dragged,
                marker.id,
                marker.placement,
            ),
            _ => old(tabs)@,
        },
        *final(dragged_tab_id) is None,
        *final(tab_drop_marker) is None,
{
    if let Some(dragged) = *dragged_tab_id {
        if let Some(marker) = *tab_drop_marker {
            reorder_tabs_by_id_in_state(tabs, dragged, marker.id, marker.placement);
        }
    }
    *dragged_tab_id = None;
    *tab_drop_marker = None;
}

/// Starts dragging tab `id`, when there is more than one tab to reorder.
pub fn start_tab_drag_if_needed(
    id: usize,
    tabs: &Vec<EditorTabState>,
    dragged_tab_id: &mut Option<usize>,
    tab_drop_marker: &mut Option<TabDropMarker>,
)
    ensures
        *final(dragged_tab_id) == if tabs@.len() > 1 {
            Some(id)
        } else {
            *old(dragged_tab_id)
        },
        *final(tab_drop_marker) == if tabs@.len() > 1 {
            None
        } else {
            *old(tab_drop_marker)
        },
{
    if tabs.len() > 1 {
        *dragged_tab_id = Some(id);
        *tab_drop_marker = None;
    }
}

/// Marks where the dragged tab would land, unless the marker points at the
/// dragged tab itself or nothing is dragged.
pub fn update_tab_drop_marker_for_drag(
    marker: TabDropMarker,
    dragged_tab_id: Option<usize>,
    tab_drop_marker: &mut Option<TabDropMarker>,
)
    ensures
        *final(tab_drop_marker) == match dragged_tab_id {
            Some(id) if id != marker.id => Some(marker),
            _ => *old(tab_drop_marker),
        },
{
    if let Some(id) = dragged_tab_id {
        if id != marker.id {
            *tab_drop_marker = Some(marker);
        }
    }
}

/// Activates the tab with id `id` when there is one; whether it did.
pub fn activate_tab_by_id(id: usize, tabs: &Vec<EditorTabState>, active_tab_id: &mut usize) -> (b:
    bool)
    ensures
        b == has_tab(tabs@, id),
        *final(active_tab_id) == if b {
            id
        } else {
            *old(active_tab_id)
        },
{
    match find_tab_index(tabs, id) {
        Some(_) => {
            *active_tab_id = id;
            true
        },
        None => false,
    }
}

/// Selects the value path `path` in the active tab.
pub fn update_selected_path(path: String, tabs: &mut Vec<EditorTabState>, active_tab_id: usize)
    ensures
        updated_tab(
            old(tabs)@,
            final(tabs)@,
            active_tab_id,
            |a: EditorTabState, b: EditorTabState| b == (EditorTabState { selected_path: path, ..a }),
        ),
{
    match find_tab_index(tabs, active_tab_id) {
        Some(i) => {
            tabs[i].selected_path = path;
        },
        None => {},
    }
}

/// The text of the active tab when it shows text.
pub open spec fn active_text(tabs: Seq<EditorTabState>, active_tab_id: usize) -> Option<Seq<char>> {
    if has_tab(tabs, active_tab_id) && mode_is_text(tabs[first_tab(tabs, active_tab_id)].mode) {
        Some(tabs[first_tab(tabs, active_tab_id)].editor_text@)
    } else {
        None
    }
}

/// The tab the workspace shows: the first tab with the active id, else the
/// first tab; none when there are no tabs.
pub open spec fn shown_tab(tabs: Seq<EditorTabState>, active_tab_id: usize) -> Option<int> {
    if has_tab(tabs, active_tab_id) {
        Some(first_tab(tabs, active_tab_id))
    } else if tabs.len() > 0 {
        Some(0)
    } else {
        None
    }
}

/// The position of the tab the workspace shows: the tab with the active id,
/// or the first tab when none has it.
pub fn shown_tab_index(tabs: &Vec<EditorTabState>, active_tab_id: usize) -> (r: Option<usize>)
    ensures
        match r {
            Some(i) => shown_tab(tabs@, active_tab_id) == Some(i as int),
            None => shown_tab(tabs@, active_tab_id) is None,
        },
{
    match find_tab_index(tabs, active_tab_id) {
        Some(i) => Some(i),
        None => if tabs.len() > 0 {
            Some(0)
        } else {
            None
        },
    }
}

/// The text of the active tab, or `None` when there is no active tab or it
/// shows bytes.
pub fn active_tab_text(tabs: &Vec<EditorTabState>, active_tab_id: usize) -> (r: Option<String>)
    ensures
        string_view(r) == active_text(tabs@, active_tab_id),
{
    match find_tab_index(tabs, active_tab_id) {
        Some(i) => if tabs[i].mode.is_text() {
            Some(tabs[i].editor_text.clone())
        } else {
            None
        },
        None => None,
    }
}

/// The number of lines of a text: none when empty; otherwise one more than
/// its line breaks, not counting a break at its very end.
pub open spec fn text_lines_counted(s: Seq<char>) -> nat {
    if s.len() == 0 {
        0
    } else {
        newline_count(s.drop_last()) + 1
    }
}

/// The number of lines of a text.
pub fn text_line_count(text: &str) -> (n: usize)
    ensures
        n == text_lines_counted(text@),
{
    let chars = crate::text_metrics::str_chars(text);
    if chars.len() == 0 {
        return 0;
    }
    let last = chars.len() - 1;
    let mut count: usize = 0;
    let mut i: usize = 0;
    proof {
        assert(chars@.take(0) =~= Seq::<char>::empty());
    }
    while i < last
        invariant
            0 <= i <= last,
            last == chars@.len() - 1,
            count == newline_count(chars@.take(i as int)),
            count <= i,
        decreases last - i,
    {
        proof {
            assert(chars@.take(i + 1).drop_last() =~= chars@.take(i as int));
            assert(chars@.take(i + 1).last() == chars@[i as int]);
        }
        if chars[i] == '\n' {
            count += 1;
        }
        i += 1;
    }
    proof {
        assert(chars@.take(last as int) =~= chars@.drop_last());
    }
    count + 1
}

} // verus!
