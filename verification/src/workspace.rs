//! The workspace's open tabs and loaded files: closing, removing and reordering them.
use vstd::prelude::*;

use crate::editor_tab::{EditorMode, EditorTabState};

verus! {

/// A file the user loaded, listed in the file panel.
#[derive(Debug, Clone, PartialEq, Eq)]
pub struct LoadedFileState {
    pub id: usize,
    pub display_name: String,
    pub size: u64,
    /// The tab the file is open in, if any.
    pub tab_id: Option<usize>,
}

/// What a file-panel item key names.
#[derive(Debug, Clone, Copy, PartialEq, Eq, Structural)]
pub enum FileListKey {
    File(usize),
    Tab(usize),
    Unrecognized,
}

/// Where a dragged tab lands next to the target tab.
#[derive(Debug, Clone, Copy, PartialEq, Eq, Structural)]
pub enum DropPlacement {
    Before,
    After,
}

/// A closed tab's name, and the tab to activate next if that changes.
#[derive(Debug, Clone, PartialEq, Eq)]
pub struct RemovedTab {
    pub name: String,
    pub next_active_id: Option<usize>,
}

/// A removed file-panel item's name (empty for a tab item) and the tab to close.
#[derive(Debug, Clone, PartialEq, Eq)]
pub struct RemovedFileListItem {
    pub name: String,
    pub removed_tab_id: Option<usize>,
}

/// `i` is the first position of a tab with this id.
pub open spec fn is_first_tab(tabs: Seq<EditorTabState>, id: usize, i: int) -> bool {
    &&& 0 <= i < tabs.len()
    &&& tabs[i].id == id
    &&& forall|j: int| 0 <= j < i ==> #[trigger] tabs[j].id != id
}

/// Some tab has the id.
pub open spec fn has_tab(tabs: Seq<EditorTabState>, id: usize) -> bool {
    exists|i: int| 0 <= i < tabs.len() && #[trigger] tabs[i].id == id
}

/// The first position of a tab with this id.
pub open spec fn first_tab(tabs: Seq<EditorTabState>, id: usize) -> int {
    choose|i: int| is_first_tab(tabs, id, i)
}

proof fn lemma_first_tab_unique(tabs: Seq<EditorTabState>, id: usize, i: int)
    requires
        is_first_tab(tabs, id, i),
    ensures
        first_tab(tabs, id) == i,
        has_tab(tabs, id),
{
    let f = first_tab(tabs, id);
    assert(is_first_tab(tabs, id, f));
    if f < i {
        assert(tabs[f].id != id);
    }
    if i < f {
        assert(tabs[i].id != id);
    }
}

/// Finds the first tab with this id.
pub fn find_tab_index(tabs: &Vec<EditorTabState>, id: usize) -> (r: Option<usize>)
    ensures
        r is None <==> !has_tab(tabs@, id),
        r matches Some(i) ==> is_first_tab(tabs@, id, i as int) && first_tab(tabs@, id) == i,
{
    let mut i: usize = 0;
    while i < tabs.len()
        invariant
            0 <= i <= tabs.len(),
            forall|j: int| 0 <= j < i ==> #[trigger] tabs@[j].id != id,
        decreases tabs.len() - i,
    {
        if tabs[i].id == id {
            proof {
                lemma_first_tab_unique(tabs@, id, i as int);
            }
            return Some(i);
        }
        i += 1;
    }
    None
}

/// Which tab becomes active after removing position `i`: the first tab's id 0
/// placeholder when none remain, the tab now at `i` (or the last) when the
/// closed tab was active, else no change.
pub open spec fn next_active_after_removal(
    remaining: Seq<EditorTabState>,
    closed: EditorTabState,
    active_tab_id: usize,
    i: int,
) -> Option<usize> {
    if remaining.len() == 0 {
        Some(0)
    } else if closed.id == active_tab_id {
        let next = if i < remaining.len() - 1 {
            i
        } else {
            remaining.len() - 1
        };
        Some(remaining[next].id)
    } else {
        None
    }
}

/// Closing the tab at position `i`: with no tab left the placeholder id 0 is
/// activated; when the closed tab was active its neighbour is, the tab right
/// after it, or the tab right before it when it was the last one; otherwise
/// the active tab stays.
pub proof fn lemma_closing_activates_neighbour(tabs: Seq<EditorTabState>, active_tab_id: usize, i: int)
    requires
        0 <= i < tabs.len(),
    ensures
        ({
            let next = next_active_after_removal(tabs.remove(i), tabs[i], active_tab_id, i);
            &&& tabs.len() == 1 ==> next == Some(0usize)
            &&& tabs.len() > 1 && tabs[i].id == active_tab_id && i + 1 < tabs.len() ==> next == Some(
                tabs[i + 1].id,
            )
            &&& tabs.len() > 1 && tabs[i].id == active_tab_id && i + 1 == tabs.len() ==> next == Some(
                tabs[i - 1].id,
            )
            &&& tabs.len() > 1 && tabs[i].id != active_tab_id ==> next is None
        }),
{
    let rest = tabs.remove(i);
    if i + 1 < tabs.len() {
        assert(rest[i] == tabs[i + 1]);
    }
    if i + 1 == tabs.len() && i > 0 {
        assert(rest[i - 1] == tabs[i - 1]);
    }
}

/// Closes the first tab with id `id`.
pub fn remove_tab_by_id_from_state(
    tabs: &mut Vec<EditorTabState>,
    active_tab_id: usize,
    id: usize,
) -> (r: Option<RemovedTab>)
    ensures
        r is None <==> !has_tab(old(tabs)@, id),
        r is None ==> final(tabs)@ == old(tabs)@,
        r matches Some(removed) ==> {
            let i = first_tab(old(tabs)@, id);
            &&& final(tabs)@ == old(tabs)@.remove(i)
            &&& removed.name@ == old(tabs)@[i].file_name@
            &&& removed.next_active_id == next_active_after_removal(
                final(tabs)@,
                old(tabs)@[i],
                active_tab_id,
                i,
            )
        },
{
    let index = match find_tab_index(tabs, id) {
        Some(i) => i,
        None => return None,
    };
    let name = tabs[index].file_name.clone();
    let was_active = tabs[index].id == active_tab_id;
    let _removed = tabs.remove(index);
    let next_active_id = if tabs.len() == 0 {
        Some(0)
    } else if was_active {
        let next_index = if index < tabs.len() - 1 {
            index
        } else {
            tabs.len() - 1
        };
        Some(tabs[next_index].id)
    } else {
        None
    };
    Some(RemovedTab { name, next_active_id })
}

/// Some loaded file has the id.
pub open spec fn has_file(files: Seq<LoadedFileState>, id: usize) -> bool {
    exists|i: int| 0 <= i < files.len() && #[trigger] files[i].id == id
}

/// `i` is the first position of a file with this id.
pub open spec fn is_first_file(files: Seq<LoadedFileState>, id: usize, i: int) -> bool {
    &&& 0 <= i < files.len()
    &&& files[i].id == id
    &&& forall|j: int| 0 <= j < i ==> #[trigger] files[j].id != id
}

/// The first position of a file with this id.
pub open spec fn first_file(files: Seq<LoadedFileState>, id: usize) -> int {
    choose|i: int| is_first_file(files, id, i)
}

/// Finds the first loaded file with this id.
pub fn find_file_index(files: &Vec<LoadedFileState>, id: usize) -> (r: Option<usize>)
    ensures
        r is None <==> !has_file(files@, id),
        r matches Some(i) ==> first_file(files@, id) == i && i < files@.len(),
{
    let mut i: usize = 0;
    while i < files.len()
        invariant
            0 <= i <= files.len(),
            forall|j: int| 0 <= j < i ==> #[trigger] files@[j].id != id,
        decreases files.len() - i,
    {
        if files[i].id == id {
            proof {
                assert(is_first_file(files@, id, i as int));
                let f = first_file(files@, id);
                assert(is_first_file(files@, id, f));
                if f < i {
                    assert(files@[f].id != id);
                }
                if i < f {
                    assert(files@[i as int].id != id);
                }
            }
            return Some(i);
        }
        i += 1;
    }
    None
}

/// The file with its tab link dropped when it points at `tab_id`.
pub open spec fn unlinked(f: LoadedFileState, tab_id: usize) -> LoadedFileState {
    if f.tab_id == Some(tab_id) {
        LoadedFileState { tab_id: None, ..f }
    } else {
        f
    }
}

/// Removes a file-panel item. A file item removes the first loaded file with
/// that id and names its tab to close; a tab item unlinks the files open in
/// that tab and names the tab; an unrecognized key, or a file id no file
/// has, removes nothing.
pub fn remove_file_list_item_by_key_from_state(
    key: FileListKey,
    loaded_files: &mut Vec<LoadedFileState>,
) -> (r: Option<RemovedFileListItem>)
    ensures
        match key {
            FileListKey::File(file_id) => if has_file(old(loaded_files)@, file_id) {
                let i = first_file(old(loaded_files)@, file_id);
                &&& final(loaded_files)@ == old(loaded_files)@.remove(i)
                &&& r matches Some(removed)
                &&& removed.name@ == old(loaded_files)@[i].display_name@
                &&& removed.removed_tab_id == old(loaded_files)@[i].tab_id
            } else {
                &&& final(loaded_files)@ == old(loaded_files)@
                &&& r is None
            },
            FileListKey::Tab(tab_id) => {
                &&& final(loaded_files)@.len() == old(loaded_files)@.len()
                &&& forall|j: int|
                    0 <= j < old(loaded_files)@.len() ==> #[trigger] final(loaded_files)@[j]
                        == unlinked(old(loaded_files)@[j], tab_id)
                &&& r matches Some(removed)
                &&& removed.name@.len() == 0
                &&& removed.removed_tab_id == Some(tab_id)
            },
            FileListKey::Unrecognized => {
                &&& final(loaded_files)@ == old(loaded_files)@
                &&& r is None
            },
        },
{
    match key {
        FileListKey::File(file_id) => {
            let index = match find_file_index(loaded_files, file_id) {
                Some(i) => i,
                None => return None,
            };
            let removed = loaded_files.remove(index);
            Some(RemovedFileListItem { name: removed.display_name, removed_tab_id: removed.tab_id })
        },
        FileListKey::Tab(tab_id) => {
            let mut i: usize = 0;
            while i < loaded_files.len()
                invariant
                    0 <= i <= loaded_files.len(),
                    loaded_files@.len() == old(loaded_files)@.len(),
                    forall|j: int|
                        0 <= j < i ==> #[trigger] loaded_files@[j] == unlinked(
                            old(loaded_files)@[j],
                            tab_id,
                        ),
                    forall|j: int|
                        i <= j < loaded_files@.len() ==> #[trigger] loaded_files@[j] == old(
                            loaded_files,
                        )@[j],
                decreases loaded_files.len() - i,
            {
                if loaded_files[i].tab_id == Some(tab_id) {
                    let file = LoadedFileState {
                        id: loaded_files[i].id,
                        display_name: loaded_files[i].display_name.clone(),
                        size: loaded_files[i].size,
                        tab_id: None,
                    };
                    loaded_files.set(i, file);
                }
                i += 1;
            }
            Some(RemovedFileListItem { name: String::new(), removed_tab_id: Some(tab_id) })
        },
        FileListKey::Unrecognized => None,
    }
}

/// The tab order once the dragged tab is taken out and put before or after
/// the target tab; back at its old place when no tab has the target id.
pub open spec fn reordered_tabs(
    tabs: Seq<EditorTabState>,
    dragged_id: usize,
    target_id: usize,
    placement: DropPlacement,
) -> Seq<EditorTabState> {
    if !has_tab(tabs, dragged_id) {
        tabs
    } else {
        let source = first_tab(tabs, dragged_id);
        let rest = tabs.remove(source);
        let at = if !has_tab(rest, target_id) {
            source
        } else {
            let target = first_tab(rest, target_id);
            match placement {
                DropPlacement::Before => target,
                DropPlacement::After => target + 1,
            }
        };
        let at = if at < rest.len() {
            at
        } else {
            rest.len() as int
        };
        rest.insert(at, tabs[source])
    }
}

/// Moves the dragged tab next to the target tab.
pub fn reorder_tabs_by_id_in_state(
    tabs: &mut Vec<EditorTabState>,
    dragged_id: usize,
    target_id: usize,
    placement: DropPlacement,
)
    ensures
        final(tabs)@ == reordered_tabs(old(tabs)@, dragged_id, target_id, placement),
{
    let source_index = match find_tab_index(tabs, dragged_id) {
        Some(i) => i,
        None => return,
    };
    let tab = tabs.remove(source_index);
    let target_index = match find_tab_index(tabs, target_id) {
        Some(i) => i,
        None => {
            let at = if source_index < tabs.len() {
                source_index
            } else {
                tabs.len()
            };
            tabs.insert(at, tab);
            return;
        },
    };
    let len = tabs.len();
    assert(target_index < len);
    let insert_index = match placement {
        DropPlacement::Before => target_index,
        DropPlacement::After => target_index + 1,
    };
    let at = if insert_index < tabs.len() {
        insert_index
    } else {
        tabs.len()
    };
    tabs.insert(at, tab);
}

/// Reordering tabs keeps every tab exactly once: the new order is a
/// permutation of the old one.
pub proof fn lemma_reorder_keeps_tabs(
    tabs: Seq<EditorTabState>,
    dragged_id: usize,
    target_id: usize,
    placement: DropPlacement,
)
    ensures
        reordered_tabs(tabs, dragged_id, target_id, placement).to_multiset() == tabs.to_multiset(),
{
    if has_tab(tabs, dragged_id) {
        let source = first_tab(tabs, dragged_id);
        let i = choose|i: int| 0 <= i < tabs.len() && #[trigger] tabs[i].id == dragged_id;
        lemma_first_exists(tabs, dragged_id, i);
        let rest = tabs.remove(source);
        let out = reordered_tabs(tabs, dragged_id, target_id, placement);
        let at = choose|at: int| 0 <= at <= rest.len() && out == rest.insert(at, tabs[source]);
        assert(exists|at: int| 0 <= at <= rest.len() && out == rest.insert(at, tabs[source])) by {
            let a = if !has_tab(rest, target_id) {
                source
            } else {
                let j = choose|j: int| 0 <= j < rest.len() && #[trigger] rest[j].id == target_id;
                lemma_first_exists(rest, target_id, j);
                let target = first_tab(rest, target_id);
                match placement {
                    DropPlacement::Before => target,
                    DropPlacement::After => target + 1,
                }
            };
            let a = if a < rest.len() {
                a
            } else {
                rest.len() as int
            };
            assert(0 <= a <= rest.len());
            assert(out == rest.insert(a, tabs[source]));
        }
        let x = tabs[source];
        assert(out.remove(at) =~= rest);
        assert(out[at] == x);
        vstd::seq_lib::to_multiset_remove(out, at);
        vstd::seq_lib::to_multiset_remove(tabs, source);
        tabs.to_multiset_ensures();
        out.to_multiset_ensures();
        assert(tabs.contains(x));
        assert(out.contains(x));
        broadcast use vstd::multiset::group_multiset_axioms;
        assert(out.to_multiset() =~= tabs.to_multiset()) by {
            assert forall|y: EditorTabState| #[trigger] out.to_multiset().count(y) == tabs.to_multiset().count(y) by {
                assert(out.to_multiset().remove(x).count(y) == rest.to_multiset().count(y));
                assert(tabs.to_multiset().remove(x).count(y) == rest.to_multiset().count(y));
            }
        }
    }
}

/// No two tabs share an id.
pub open spec fn tab_ids_unique(tabs: Seq<EditorTabState>) -> bool {
    forall|i: int, j: int|
        0 <= i < tabs.len() && 0 <= j < tabs.len() && i != j ==> #[trigger] tabs[i].id
            != #[trigger] tabs[j].id
}

/// Reordering is idempotent when tab ids are unique: moving the dragged tab
/// next to the target a second time, with the same arguments, changes
/// nothing more.
pub proof fn lemma_reorder_twice_is_reorder_once(
    tabs: Seq<EditorTabState>,
    dragged_id: usize,
    target_id: usize,
    placement: DropPlacement,
)
    requires
        tab_ids_unique(tabs),
    ensures
        reordered_tabs(reordered_tabs(tabs, dragged_id, target_id, placement), dragged_id, target_id, placement)
            == reordered_tabs(tabs, dragged_id, target_id, placement),
{
    if has_tab(tabs, dragged_id) {
        let i = choose|i: int| 0 <= i < tabs.len() && #[trigger] tabs[i].id == dragged_id;
        lemma_first_exists(tabs, dragged_id, i);
        let source = first_tab(tabs, dragged_id);
        let rest = tabs.remove(source);
        let x = tabs[source];
        let at = if !has_tab(rest, target_id) {
            source
        } else {
            let target = first_tab(rest, target_id);
            match placement {
                DropPlacement::Before => target,
                DropPlacement::After => target + 1,
            }
        };
        let at = if at < rest.len() {
            at
        } else {
            rest.len() as int
        };
        if has_tab(rest, target_id) {
            let j = choose|j: int| 0 <= j < rest.len() && #[trigger] rest[j].id == target_id;
            lemma_first_exists(rest, target_id, j);
        }
        assert(0 <= at <= rest.len());
        let out = reordered_tabs(tabs, dragged_id, target_id, placement);
        assert(out == rest.insert(at, x));
        assert forall|k: int| 0 <= k < rest.len() implies #[trigger] rest[k].id != dragged_id by {
            if k < source {
                assert(rest[k] == tabs[k]);
            } else {
                assert(rest[k] == tabs[k + 1]);
            }
        }
        assert(out[at] == x);
        assert forall|k: int| 0 <= k < at implies #[trigger] out[k].id != dragged_id by {
            assert(out[k] == rest[k]);
        }
        assert(is_first_tab(out, dragged_id, at));
        lemma_first_tab_unique(out, dragged_id, at);
        assert(out.remove(at) =~= rest);
        let at2 = if at < rest.len() {
            at
        } else {
            rest.len() as int
        };
        assert(at2 == at);
    }
}

/// When some tab has the id, a first such tab exists.
pub proof fn lemma_first_exists(tabs: Seq<EditorTabState>, id: usize, i: int)
    requires
        0 <= i < tabs.len(),
        tabs[i].id == id,
    ensures
        is_first_tab(tabs, id, first_tab(tabs, id)),
    decreases i,
{
    if exists|j: int| 0 <= j < i && #[trigger] tabs[j].id == id {
        let j = choose|j: int| 0 <= j < i && #[trigger] tabs[j].id == id;
        lemma_first_exists(tabs, id, j);
    } else {
        assert(is_first_tab(tabs, id, i));
    }
}

/// What a tab strip shows for one tab.
#[derive(Debug, Clone, PartialEq, Eq)]
pub struct TabHeader {
    pub id: usize,
    pub file_name: String,
    pub mode: EditorMode,
    pub dirty: bool,
    pub closeable: bool,
}

/// The tab strip: one closeable header per tab, in order.
pub fn tab_headers_for_tabs(tabs: &[EditorTabState]) -> (headers: Vec<TabHeader>)
    ensures
        headers@.len() == tabs@.len(),
        forall|i: int|
            0 <= i < tabs@.len() ==> {
                let h = #[trigger] headers@[i];
                &&& h.id == tabs@[i].id
                &&& h.file_name@ == tabs@[i].file_name@
                &&& h.mode == tabs@[i].mode
                &&& h.dirty == tabs@[i].dirty
                &&& h.closeable
            },
{
    let mut headers: Vec<TabHeader> = Vec::new();
    let mut i: usize = 0;
    while i < tabs.len()
        invariant
            0 <= i <= tabs@.len(),
            headers@.len() == i,
            forall|k: int|
                0 <= k < i ==> {
                    let h = #[trigger] headers@[k];
                    &&& h.id == tabs@[k].id
                    &&& h.file_name@ == tabs@[k].file_name@
                    &&& h.mode == tabs@[k].mode
                    &&& h.dirty == tabs@[k].dirty
                    &&& h.closeable
                },
        decreases tabs@.len() - i,
    {
        let tab = &tabs[i];
        headers.push(
            TabHeader {
                id: tab.id,
                file_name: tab.file_name.clone(),
                mode: tab.mode,
                dirty: tab.dirty,
                closeable: true,
            },
        );
        i += 1;
    }
    headers
}

/// Where a batch export reads a selected item from: an open tab or a loaded
/// file, by position.
#[derive(Debug, Clone, Copy, PartialEq, Eq, Structural)]
pub enum BatchDocumentSource {
    Tab(usize),
    LoadedFile(usize),
}

/// Why a selected item has nothing to export.
#[derive(Debug, Clone, Copy, PartialEq, Eq, Structural)]
pub enum BatchSourceError {
    /// The item names a loaded file that is gone.
    StaleFileListItem,
    /// The item names neither an open tab nor a loaded file.
    NoExportValue,
}

/// Finds what a selected file-panel item exports: its open tab when it has
/// one that still exists, else its loaded file.
pub fn resolve_batch_export_source(
    tab_id: Option<usize>,
    file_id: Option<usize>,
    tabs: &Vec<EditorTabState>,
    loaded_files: &Vec<LoadedFileState>,
) -> (r: Result<BatchDocumentSource, BatchSourceError>)
    ensures
        r == match tab_id {
            Some(t) if has_tab(tabs@, t) => Ok(
                BatchDocumentSource::Tab(first_tab(tabs@, t) as usize),
            ),
            _ => match file_id {
                Some(f) => if has_file(loaded_files@, f) {
                    Ok(BatchDocumentSource::LoadedFile(first_file(loaded_files@, f) as usize))
                } else {
                    Err(BatchSourceError::StaleFileListItem)
                },
                None => Err(BatchSourceError::NoExportValue),
            },
        },
{
    if let Some(tab_id) = tab_id {
        if let Some(i) = find_tab_index(tabs, tab_id) {
            return Ok(BatchDocumentSource::Tab(i));
        }
    }
    match file_id {
        Some(file_id) => match find_file_index(loaded_files, file_id) {
            Some(i) => Ok(BatchDocumentSource::LoadedFile(i)),
            None => Err(BatchSourceError::StaleFileListItem),
        },
        None => Err(BatchSourceError::NoExportValue),
    }
}

} // verus!
