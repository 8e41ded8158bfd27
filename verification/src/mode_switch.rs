//! Switching a tab between its RTON bytes and its text modes, and the parse
//! and conversion tasks a tab waits for: the surface each mode last showed
//! is kept, so a switch back to it takes no new conversion while the
//! document is unchanged, and a task's result lands only while the tab still
//! waits for that task.
use vstd::prelude::*;

use crate::editing::updated_tab;
use crate::editor_tab::{
    EditorMode, EditorTabState, EncodeOptions, HexHistory, RtonSurfaceCache, TabTaskState,
    TextSurfaceCache, mode_is_text, surface_ok,
};
use crate::text_buffer::TextBuffer;
use crate::text_history::TextHistory;
use crate::value_tree::ValueTreeState;
use crate::workspace::{find_tab_index, first_tab, has_tab};

verus! {

/// What a tab shows in one mode: its bytes, or its text and line index.
#[derive(Debug, PartialEq, Eq)]
pub struct TabSurface {
    pub byte_doc: Option<Vec<u8>>,
    pub editor_text: String,
    pub text_buffer: Option<TextBuffer>,
}

/// `i` is the first text cache for `mode`.
pub open spec fn is_first_text_cache(caches: Seq<TextSurfaceCache>, mode: EditorMode, i: int) -> bool {
    &&& 0 <= i < caches.len()
    &&& caches[i].mode == mode
    &&& forall|j: int| 0 <= j < i ==> #[trigger] caches[j].mode != mode
}

/// Some text cache is for `mode`.
pub open spec fn has_text_cache(caches: Seq<TextSurfaceCache>, mode: EditorMode) -> bool {
    exists|i: int| 0 <= i < caches.len() && #[trigger] caches[i].mode == mode
}

/// The tab keeps a surface for `mode` under `options`: its document is
/// parsed, and it has the text last shown in that text mode, or the RTON
/// bytes last shown, encoded with `options`.
pub open spec fn has_cached_surface(tab: EditorTabState, mode: EditorMode, options: EncodeOptions) -> bool {
    &&& tab.parsed
    &&& if mode_is_text(mode) {
        has_text_cache(tab.text_cache@, mode)
    } else {
        tab.rton_cache matches Some(c) && c.encode_options == options
    }
}

/// A surface made of these parts is what the tab keeps for `mode`: the first
/// text cached for that mode with a fresh line index, or the cached bytes
/// with no text.
pub open spec fn is_cached_surface(
    tab: EditorTabState,
    mode: EditorMode,
    byte_doc: Option<Vec<u8>>,
    editor_text: String,
    text_buffer: Option<TextBuffer>,
) -> bool {
    if mode_is_text(mode) {
        &&& byte_doc is None
        &&& text_buffer matches Some(b) && b@ == editor_text@
        &&& exists|i: int|
            is_first_text_cache(tab.text_cache@, mode, i) && editor_text@
                == #[trigger] tab.text_cache@[i].editor_text@
    } else {
        &&& tab.rton_cache matches Some(c) && byte_doc matches Some(d) && d@ == c.byte_doc@
        &&& editor_text@.len() == 0
        &&& text_buffer is None
    }
}

/// The position of the first text cache for `mode`.
fn find_text_cache(caches: &Vec<TextSurfaceCache>, mode: EditorMode) -> (r: Option<usize>)
    ensures
        r is None <==> !has_text_cache(caches@, mode),
        r matches Some(i) ==> is_first_text_cache(caches@, mode, i as int),
{
    let mut i: usize = 0;
    while i < caches.len()
        invariant
            0 <= i <= caches.len(),
            forall|j: int| 0 <= j < i ==> #[trigger] caches@[j].mode != mode,
        decreases caches.len() - i,
    {
        if caches[i].mode == mode {
            return Some(i);
        }
        i += 1;
    }
    None
}

/// A copy of the bytes.
fn copy_bytes(bytes: &Vec<u8>) -> (r: Vec<u8>)
    ensures
        r@ == bytes@,
{
    let mut r: Vec<u8> = Vec::with_capacity(bytes.len());
    let mut i: usize = 0;
    while i < bytes.len()
        invariant
            0 <= i <= bytes.len(),
            r@ == bytes@.subrange(0, i as int),
        decreases bytes.len() - i,
    {
        r.push(bytes[i]);
        i += 1;
        assert(r@ =~= bytes@.subrange(0, i as int));
    }
    assert(r@ =~= bytes@);
    r
}

/// The surface the tab keeps for `next_mode` under `encode_options`, if it
/// keeps one (see `has_cached_surface`).
pub fn cached_mode_surface(tab: &EditorTabState, next_mode: EditorMode, encode_options: EncodeOptions) -> (r:
    Option<TabSurface>)
    ensures
        r is Some <==> has_cached_surface(*tab, next_mode, encode_options),
        r matches Some(s) ==> is_cached_surface(
            *tab,
            next_mode,
            s.byte_doc,
            s.editor_text,
            s.text_buffer,
        ),
{
    if !tab.parsed {
        return None;
    }
    match next_mode {
        EditorMode::RtonHex => match &tab.rton_cache {
            Some(cache) => if cache.encode_options == encode_options {
                Some(
                    TabSurface {
                        byte_doc: Some(copy_bytes(&cache.byte_doc)),
                        editor_text: String::new(),
                        text_buffer: None,
                    },
                )
            } else {
                None
            },
            None => None,
        },
        _ => match find_text_cache(&tab.text_cache, next_mode) {
            Some(i) => {
                let text = tab.text_cache[i].editor_text.clone();
                let buffer = TextBuffer::new(text.clone());
                Some(TabSurface { byte_doc: None, editor_text: text, text_buffer: Some(buffer) })
            },
            None => None,
        },
    }
}

/// The text caches once those for `mode` are taken out, in order.
pub open spec fn caches_without(caches: Seq<TextSurfaceCache>, mode: EditorMode) -> Seq<
    TextSurfaceCache,
>
    decreases caches.len(),
{
    if caches.len() == 0 {
        caches
    } else {
        let rest = caches_without(caches.drop_last(), mode);
        if caches.last().mode != mode {
            rest.push(caches.last())
        } else {
            rest
        }
    }
}

/// `after` holds the caches of `before` once the tab's current surface is
/// kept: in a text mode its text replaces the one cached for that mode, last;
/// in the hex mode its bytes, if any, are cached with `options`.
pub open spec fn surface_kept(before: EditorTabState, after: EditorTabState, options: EncodeOptions) -> bool {
    if mode_is_text(before.mode) {
        let rest = caches_without(before.text_cache@, before.mode);
        &&& after.rton_cache == before.rton_cache
        &&& after.text_cache@.len() == rest.len() + 1
        &&& after.text_cache@.drop_last() == rest
        &&& after.text_cache@.last().mode == before.mode
        &&& after.text_cache@.last().editor_text@ == before.editor_text@
    } else {
        &&& after.text_cache == before.text_cache
        &&& match before.byte_doc {
            Some(d) => after.rton_cache matches Some(c) && c.encode_options == options
                && c.byte_doc@ == d@,
            None => after.rton_cache == before.rton_cache,
        }
    }
}

/// Keeps the tab's current surface, to switch back to it later.
pub fn cache_current_surface(tab: &mut EditorTabState, encode_options: EncodeOptions)
    ensures
        surface_kept(*old(tab), *final(tab), encode_options),
        *final(tab) == (EditorTabState {
            rton_cache: final(tab).rton_cache,
            text_cache: final(tab).text_cache,
            ..*old(tab)
        }),
{
    match tab.mode {
        EditorMode::RtonHex => {
            match &tab.byte_doc {
                Some(doc) => {
                    let byte_doc = copy_bytes(doc);
                    tab.rton_cache = Some(RtonSurfaceCache { encode_options, byte_doc });
                },
                None => {},
            }
        },
        _ => {
            let mode = tab.mode;
            let ghost before = tab.text_cache@;
            let mut kept: Vec<TextSurfaceCache> = Vec::new();
            let mut i: usize = 0;
            while i < tab.text_cache.len()
                invariant
                    tab.text_cache@ == before,
                    tab.mode == mode,
                    0 <= i <= before.len(),
                    kept@ == caches_without(before.take(i as int), mode),
                decreases before.len() - i,
            {
                proof {
                    assert(before.take(i + 1).drop_last() =~= before.take(i as int));
                }
                if tab.text_cache[i].mode != mode {
                    let entry = TextSurfaceCache {
                        mode: tab.text_cache[i].mode,
                        editor_text: tab.text_cache[i].editor_text.clone(),
                    };
                    kept.push(entry);
                }
                i += 1;
            }
            proof {
                assert(before.take(before.len() as int) =~= before);
            }
            let ghost rest = kept@;
            kept.push(TextSurfaceCache { mode, editor_text: tab.editor_text.clone() });
            proof {
                assert(kept@.drop_last() =~= rest);
            }
            tab.text_cache = kept;
        },
    }
}

/// No cache that `caches_without` leaves is for `mode`.
proof fn lemma_caches_without_mode(caches: Seq<TextSurfaceCache>, mode: EditorMode)
    ensures
        forall|i: int|
            0 <= i < caches_without(caches, mode).len() ==> #[trigger] caches_without(
                caches,
                mode,
            )[i].mode != mode,
    decreases caches.len(),
{
    if caches.len() > 0 {
        lemma_caches_without_mode(caches.drop_last(), mode);
    }
}

/// The surface fits the mode: in a text mode a line index over its text, in
/// the hex mode none.
pub open spec fn surface_fits(mode: EditorMode, surface: TabSurface) -> bool {
    if mode_is_text(mode) {
        surface.text_buffer matches Some(b) && b@ == surface.editor_text@
    } else {
        surface.text_buffer is None
    }
}

/// Shows a kept surface in `next_mode`: both undo histories start afresh and
/// no switch is under way any more.
pub fn apply_cached_mode_surface(tab: &mut EditorTabState, next_mode: EditorMode, surface: TabSurface)
    requires
        surface_fits(next_mode, surface),
    ensures
        surface_ok(*final(tab)),
        final(tab).text_history.past@.len() == 0,
        final(tab).text_history.future@.len() == 0,
        final(tab).hex_history.past@.len() == 0,
        final(tab).hex_history.future@.len() == 0,
        *final(tab) == (EditorTabState {
            byte_doc: surface.byte_doc,
            editor_text: surface.editor_text,
            text_buffer: surface.text_buffer,
            mode: next_mode,
            text_history: final(tab).text_history,
            hex_history: final(tab).hex_history,
            task_state: None,
            ..*old(tab)
        }),
{
    tab.byte_doc = surface.byte_doc;
    tab.editor_text = surface.editor_text;
    tab.text_buffer = surface.text_buffer;
    tab.mode = next_mode;
    tab.text_history = TextHistory::new();
    tab.hex_history = HexHistory { past: Vec::new(), future: Vec::new() };
    tab.task_state = None;
}

/// What a mode switch comes to.
#[derive(Debug, Clone, Copy, PartialEq, Eq, Structural)]
pub enum ModeSwitchStep {
    /// No tab is active.
    NoActiveTab,
    /// The tab already shows that mode.
    Unchanged,
    /// The tab switched to the surface it kept for that mode.
    Cached,
    /// The tab waits for its document to be converted; the conversion's
    /// result belongs to the switch with this id.
    Started { task_id: u64 },
}

/// The next task id, saturating.
pub open spec fn next_task_id(id: u64) -> u64 {
    if id < u64::MAX {
        (id + 1) as u64
    } else {
        id
    }
}

/// `after` is `before` once it switched to `mode` under `options`: its
/// current surface is kept, a new task id is taken, and it shows the surface
/// it kept for `mode` with fresh histories, or waits for the conversion
/// with that id.
pub open spec fn mode_switched(
    before: EditorTabState,
    after: EditorTabState,
    mode: EditorMode,
    options: EncodeOptions,
) -> bool {
    &&& surface_kept(before, after, options)
    &&& after.task_generation == next_task_id(before.task_generation)
    &&& if has_cached_surface(before, mode, options) {
        &&& is_cached_surface(before, mode, after.byte_doc, after.editor_text, after.text_buffer)
        &&& surface_ok(after)
        &&& after.text_history.past@.len() == 0
        &&& after.text_history.future@.len() == 0
        &&& after.hex_history.past@.len() == 0
        &&& after.hex_history.future@.len() == 0
        &&& after == (EditorTabState {
            byte_doc: after.byte_doc,
            editor_text: after.editor_text,
            text_buffer: after.text_buffer,
            mode,
            text_history: after.text_history,
            hex_history: after.hex_history,
            task_state: None,
            task_generation: after.task_generation,
            rton_cache: after.rton_cache,
            text_cache: after.text_cache,
            ..before
        })
    } else {
        after == (EditorTabState {
            task_state: Some(TabTaskState { id: after.task_generation, target_mode: mode }),
            task_generation: after.task_generation,
            rton_cache: after.rton_cache,
            text_cache: after.text_cache,
            ..before
        })
    }
}

/// Switching to a kept surface and straight back shows the first surface
/// again: the same text with a line index over it, or the same bytes, with
/// the same selection and unsaved-change mark.
pub proof fn lemma_switch_back_restores(
    a: EditorTabState,
    b: EditorTabState,
    c: EditorTabState,
    mode: EditorMode,
    options: EncodeOptions,
)
    requires
        a.mode != mode,
        has_cached_surface(a, mode, options),
        !mode_is_text(a.mode) ==> a.byte_doc is Some,
        mode_switched(a, b, mode, options),
        mode_switched(b, c, a.mode, options),
    ensures
        has_cached_surface(b, a.mode, options),
        c.mode == a.mode,
        mode_is_text(a.mode) ==> c.editor_text@ == a.editor_text@,
        mode_is_text(a.mode) ==> (c.text_buffer matches Some(buf) && buf@ == a.editor_text@),
        !mode_is_text(a.mode) ==> (c.byte_doc matches Some(d) && d@ == a.byte_doc->0@),
        c.selected_path == a.selected_path,
        c.dirty == a.dirty,
{
    if mode_is_text(a.mode) {
        let rest = caches_without(a.text_cache@, a.mode);
        lemma_caches_without_mode(a.text_cache@, a.mode);
        let last = b.text_cache@.len() - 1;
        assert forall|j: int| 0 <= j < last implies #[trigger] b.text_cache@[j].mode != a.mode by {
            assert(b.text_cache@[j] == b.text_cache@.drop_last()[j]);
        }
        assert(is_first_text_cache(b.text_cache@, a.mode, last));
        assert(has_text_cache(b.text_cache@, a.mode));
        let i = choose|i: int|
            is_first_text_cache(b.text_cache@, a.mode, i) && c.editor_text@
                == #[trigger] b.text_cache@[i].editor_text@;
        if i < last {
            assert(b.text_cache@[i].mode != a.mode);
        }
        if last < i {
            assert(b.text_cache@[last].mode != a.mode);
        }
    }
}

/// Switches the active tab to `next_mode`: to the surface it kept for that
/// mode when there is one, else it starts waiting for a conversion.
pub fn switch_active_mode(
    next_mode: EditorMode,
    encode_options: EncodeOptions,
    tabs: &mut Vec<EditorTabState>,
    active_tab_id: usize,
) -> (step: ModeSwitchStep)
    ensures
        !has_tab(old(tabs)@, active_tab_id) ==> step == ModeSwitchStep::NoActiveTab && final(tabs)@
            == old(tabs)@,
        has_tab(old(tabs)@, active_tab_id) ==> {
            let tab = old(tabs)@[first_tab(old(tabs)@, active_tab_id)];
            if tab.mode == next_mode {
                step == ModeSwitchStep::Unchanged && final(tabs)@ == old(tabs)@
            } else {
                &&& updated_tab(
                    old(tabs)@,
                    final(tabs)@,
                    active_tab_id,
                    |a: EditorTabState, b: EditorTabState|
                        mode_switched(a, b, next_mode, encode_options),
                )
                &&& step == if has_cached_surface(tab, next_mode, encode_options) {
                    ModeSwitchStep::Cached
                } else {
                    ModeSwitchStep::Started { task_id: next_task_id(tab.task_generation) }
                }
            }
        },
{
    let i = match find_tab_index(tabs, active_tab_id) {
        Some(i) => i,
        None => return ModeSwitchStep::NoActiveTab,
    };
    if tabs[i].mode == next_mode {
        return ModeSwitchStep::Unchanged;
    }
    let task_id = tabs[i].task_generation.saturating_add(1);
    match cached_mode_surface(&tabs[i], next_mode, encode_options) {
        Some(surface) => {
            cache_current_surface(&mut tabs[i], encode_options);
            tabs[i].task_generation = task_id;
            apply_cached_mode_surface(&mut tabs[i], next_mode, surface);
            ModeSwitchStep::Cached
        },
        None => {
            cache_current_surface(&mut tabs[i], encode_options);
            tabs[i].task_generation = task_id;
            tabs[i].task_state = Some(TabTaskState { id: task_id, target_mode: next_mode });
            ModeSwitchStep::Started { task_id }
        },
    }
}

/// The tab waits for the switch with id `task_id`.
pub open spec fn waits_for(tab: EditorTabState, task_id: u64) -> bool {
    tab.task_state matches Some(t) && t.id == task_id
}

/// Some tab with id `tab_id` waits for the switch with id `task_id`.
pub open spec fn task_current(tabs: Seq<EditorTabState>, tab_id: usize, task_id: u64) -> bool {
    exists|i: int| 0 <= i < tabs.len() && #[trigger] tabs[i].id == tab_id && waits_for(tabs[i], task_id)
}

/// Whether a tab with id `tab_id` still waits for the switch with id
/// `task_id`: a result for any other switch is stale.
pub fn task_is_current(tabs: &Vec<EditorTabState>, tab_id: usize, task_id: u64) -> (b: bool)
    ensures
        b == task_current(tabs@, tab_id, task_id),
{
    let mut i: usize = 0;
    while i < tabs.len()
        invariant
            0 <= i <= tabs.len(),
            forall|j: int| 0 <= j < i ==> !(#[trigger] tabs@[j].id == tab_id && waits_for(tabs@[j], task_id)),
        decreases tabs.len() - i,
    {
        if tabs[i].id == tab_id {
            match tabs[i].task_state {
                Some(t) => if t.id == task_id {
                    return true;
                },
                None => {},
            }
        }
        i += 1;
    }
    false
}

/// `after` is `before` once the converted document is shown in `mode`: the
/// surface, a parsed document with `selected_path` selected and the value
/// tree `tree`, fresh histories, no switch under way, the dirty mark the
/// switch started with, and in a text mode the new text kept for that mode.
pub open spec fn mode_switch_applied(
    before: EditorTabState,
    after: EditorTabState,
    mode: EditorMode,
    surface: TabSurface,
    was_dirty: bool,
    tree: ValueTreeState,
    selected_path: String,
) -> bool {
    &&& after == (EditorTabState {
        byte_doc: surface.byte_doc,
        editor_text: surface.editor_text,
        text_buffer: surface.text_buffer,
        mode,
        text_history: after.text_history,
        hex_history: after.hex_history,
        task_state: None,
        dirty: was_dirty,
        parsed: true,
        selected_path,
        tree,
        text_cache: after.text_cache,
        ..before
    })
    &&& surface_ok(after)
    &&& after.text_history.past@.len() == 0
    &&& after.text_history.future@.len() == 0
    &&& after.hex_history.past@.len() == 0
    &&& after.hex_history.future@.len() == 0
    &&& if mode_is_text(mode) {
        let rest = caches_without(before.text_cache@, mode);
        &&& after.text_cache@.len() == rest.len() + 1
        &&& after.text_cache@.drop_last() == rest
        &&& after.text_cache@.last().mode == mode
        &&& after.text_cache@.last().editor_text@ == surface.editor_text@
    } else {
        after.text_cache == before.text_cache
    }
}

/// Shows a finished conversion on the tab with id `tab_id`, if it still
/// waits for the switch with id `task_id`, with `selected_path` selected (the
/// root path `$` after a mode switch, the path selected before after a new
/// encoding of the bytes); false, and nothing changed, when the result is
/// stale.
pub fn finish_mode_switch(
    tabs: &mut Vec<EditorTabState>,
    tab_id: usize,
    task_id: u64,
    next_mode: EditorMode,
    surface: TabSurface,
    was_dirty: bool,
    tree: ValueTreeState,
    selected_path: String,
) -> (applied: bool)
    requires
        surface_fits(next_mode, surface),
    ensures
        applied == task_current(old(tabs)@, tab_id, task_id),
        !applied ==> final(tabs)@ == old(tabs)@,
        applied ==> updated_tab(
            old(tabs)@,
            final(tabs)@,
            tab_id,
            |a: EditorTabState, b: EditorTabState|
                mode_switch_applied(a, b, next_mode, surface, was_dirty, tree, selected_path),
        ),
{
    if !task_is_current(tabs, tab_id, task_id) {
        return false;
    }
    let i = match find_tab_index(tabs, tab_id) {
        Some(i) => i,
        None => return true,
    };
    apply_cached_mode_surface(&mut tabs[i], next_mode, surface);
    tabs[i].tree = tree;
    tabs[i].parsed = true;
    tabs[i].selected_path = selected_path;
    tabs[i].dirty = was_dirty;
    if next_mode.is_text() {
        let options = tabs[i].source_encode_options;
        cache_current_surface(&mut tabs[i], options);
    }
    true
}

/// Ends the tab's wait for the task with id `task_id` when that task
/// failed; false, and nothing changed, when the tab waits for another one.
pub fn abandon_tab_task(tabs: &mut Vec<EditorTabState>, tab_id: usize, task_id: u64) -> (abandoned: bool)
    ensures
        abandoned == task_current(old(tabs)@, tab_id, task_id),
        !abandoned ==> final(tabs)@ == old(tabs)@,
        abandoned ==> updated_tab(
            old(tabs)@,
            final(tabs)@,
            tab_id,
            |a: EditorTabState, b: EditorTabState| b == (EditorTabState { task_state: None, ..a }),
        ),
{
    if !task_is_current(tabs, tab_id, task_id) {
        return false;
    }
    match find_tab_index(tabs, tab_id) {
        Some(i) => {
            tabs[i].task_state = None;
        },
        None => {},
    }
    true
}

/// A new encoding of the active tab's bytes, under way: the tab, the task's
/// id, and the path to select once the bytes are shown again.
#[derive(Debug, Clone, PartialEq, Eq)]
pub struct RtonRefresh {
    pub tab_id: usize,
    pub task_id: u64,
    pub selected_path: String,
}

/// Starts encoding the active tab's bytes again (with other options): the
/// tab takes a new task id and waits for it. Nothing when no tab is active
/// or the active tab does not show bytes.
pub fn start_rton_refresh(tabs: &mut Vec<EditorTabState>, active_tab_id: usize) -> (r: Option<
    RtonRefresh,
>)
    ensures
        ({
            let shows_bytes = has_tab(old(tabs)@, active_tab_id) && old(tabs)@[first_tab(
                old(tabs)@,
                active_tab_id,
            )].mode == EditorMode::RtonHex;
            &&& !shows_bytes ==> r is None && final(tabs)@ == old(tabs)@
            &&& shows_bytes ==> {
                let tab = old(tabs)@[first_tab(old(tabs)@, active_tab_id)];
                let id = next_task_id(tab.task_generation);
                &&& r matches Some(x) && x.tab_id == active_tab_id && x.task_id == id
                    && x.selected_path == tab.selected_path
                &&& updated_tab(
                    old(tabs)@,
                    final(tabs)@,
                    active_tab_id,
                    |a: EditorTabState, b: EditorTabState|
                        b == (EditorTabState {
                            task_generation: id,
                            task_state: Some(TabTaskState { id, target_mode: EditorMode::RtonHex }),
                            ..a
                        }),
                )
            }
        }),
{
    let i = match find_tab_index(tabs, active_tab_id) {
        Some(i) => i,
        None => return None,
    };
    match tabs[i].mode {
        EditorMode::RtonHex => {},
        _ => return None,
    }
    let task_id = tabs[i].task_generation.saturating_add(1);
    let selected_path = tabs[i].selected_path.clone();
    tabs[i].task_generation = task_id;
    tabs[i].task_state = Some(TabTaskState { id: task_id, target_mode: EditorMode::RtonHex });
    Some(RtonRefresh { tab_id: active_tab_id, task_id, selected_path })
}

/// Sets the compact output switch; when it changes, gives the options to
/// encode the active tab's bytes with again (compact as set, not encrypted).
pub fn update_compact_output(compact: bool, compact_output: &mut bool) -> (r: Option<
    EncodeOptions,
>)
    ensures
        *final(compact_output) == compact,
        r == if *old(compact_output) == compact {
            None
        } else {
            Some(EncodeOptions { compact, encrypted: false })
        },
{
    if *compact_output == compact {
        return None;
    }
    *compact_output = compact;
    Some(EncodeOptions { compact, encrypted: false })
}

/// A tab with id `tab_id` exists, has no parsed document and no unsaved
/// change: parsing it in the background is due.
pub open spec fn parse_due(tabs: Seq<EditorTabState>, tab_id: usize) -> bool {
    has_tab(tabs, tab_id) && !tabs[first_tab(tabs, tab_id)].parsed && !tabs[first_tab(
        tabs,
        tab_id,
    )].dirty
}

/// Whether the tab with id `tab_id` is due to be parsed in the background.
pub fn parse_needed(tabs: &Vec<EditorTabState>, tab_id: usize) -> (b: bool)
    ensures
        b == parse_due(tabs@, tab_id),
{
    match find_tab_index(tabs, tab_id) {
        Some(i) => !tabs[i].parsed && !tabs[i].dirty,
        None => false,
    }
}

/// A parse under way: the tab, the task's id, whether the tab had unsaved
/// changes when it started, and whether the user asked for it (a foreground
/// parse shows that it is under way; a background one does not).
#[derive(Debug, Clone, Copy, PartialEq, Eq, Structural)]
pub struct ParseTask {
    pub tab_id: usize,
    pub task_id: u64,
    pub was_dirty: bool,
    pub foreground: bool,
}

/// Starts parsing the tab with id `tab_id`: it takes a new task id, and in
/// the foreground waits for it in its current mode. Nothing when no tab has
/// the id.
pub fn start_parse(tabs: &mut Vec<EditorTabState>, tab_id: usize, foreground: bool) -> (r: Option<
    ParseTask,
>)
    ensures
        !has_tab(old(tabs)@, tab_id) ==> r is None && final(tabs)@ == old(tabs)@,
        has_tab(old(tabs)@, tab_id) ==> {
            let tab = old(tabs)@[first_tab(old(tabs)@, tab_id)];
            let id = next_task_id(tab.task_generation);
            &&& r == Some(ParseTask { tab_id, task_id: id, was_dirty: tab.dirty, foreground })
            &&& updated_tab(
                old(tabs)@,
                final(tabs)@,
                tab_id,
                |a: EditorTabState, b: EditorTabState|
                    b == (EditorTabState {
                        task_generation: id,
                        task_state: if foreground {
                            Some(TabTaskState { id, target_mode: a.mode })
                        } else {
                            a.task_state
                        },
                        ..a
                    }),
            )
        },
{
    let i = match find_tab_index(tabs, tab_id) {
        Some(i) => i,
        None => return None,
    };
    let task_id = tabs[i].task_generation.saturating_add(1);
    let was_dirty = tabs[i].dirty;
    tabs[i].task_generation = task_id;
    if foreground {
        let target_mode = tabs[i].mode;
        tabs[i].task_state = Some(TabTaskState { id: task_id, target_mode });
    }
    Some(ParseTask { tab_id, task_id, was_dirty, foreground })
}

/// The parse's result still belongs to its tab: in the foreground the tab
/// waits for that task; in the background the tab took no newer task and
/// its unsaved-change mark is as it was.
pub open spec fn parse_current(tabs: Seq<EditorTabState>, task: ParseTask) -> bool {
    if task.foreground {
        task_current(tabs, task.tab_id, task.task_id)
    } else {
        exists|i: int|
            0 <= i < tabs.len() && #[trigger] tabs[i].id == task.tab_id && tabs[i].task_generation
                == task.task_id && tabs[i].dirty == task.was_dirty
    }
}

/// Whether a parse's result still belongs to its tab.
pub fn parse_task_is_current(tabs: &Vec<EditorTabState>, task: ParseTask) -> (b: bool)
    ensures
        b == parse_current(tabs@, task),
{
    if task.foreground {
        return task_is_current(tabs, task.tab_id, task.task_id);
    }
    let mut i: usize = 0;
    while i < tabs.len()
        invariant
            0 <= i <= tabs.len(),
            !task.foreground,
            forall|j: int|
                0 <= j < i ==> !(#[trigger] tabs@[j].id == task.tab_id && tabs@[j].task_generation
                    == task.task_id && tabs@[j].dirty == task.was_dirty),
        decreases tabs.len() - i,
    {
        if tabs[i].id == task.tab_id && tabs[i].task_generation == task.task_id && tabs[i].dirty
            == task.was_dirty {
            return true;
        }
        i += 1;
    }
    false
}

/// Shows a finished parse on the tab with id `tab_id`: the document is
/// parsed, its value tree is `tree`, the root path `$` is selected, and no
/// task is under way.
pub fn finish_parse(tabs: &mut Vec<EditorTabState>, tab_id: usize, tree: ValueTreeState)
    ensures
        updated_tab(
            old(tabs)@,
            final(tabs)@,
            tab_id,
            |a: EditorTabState, b: EditorTabState|
                b == (EditorTabState {
                    tree,
                    parsed: true,
                    selected_path: b.selected_path,
                    task_state: None,
                    ..a
                }) && b.selected_path@ == "$"@,
        ),
{
    match find_tab_index(tabs, tab_id) {
        Some(i) => {
            tabs[i].tree = tree;
            tabs[i].parsed = true;
            tabs[i].selected_path = "$".to_owned();
            tabs[i].task_state = None;
        },
        None => {},
    }
}

} // verus!
