//! What the search bar and the file panel show, computed from the workspace state.
use vstd::prelude::*;

use crate::text_metrics::str_chars;
use crate::workspace::LoadedFileState;

use std::collections::hash_map::DefaultHasher;
use std::hash::Hasher;

verus! {

/// The value search result the index panel shows: the tab's result while
/// its query holds something besides white space, else none.
pub fn shown_value_search_result<T>(query: &str, result: Option<T>) -> (r: Option<T>)
    ensures
        r == if query_is_active(query@) {
            result
        } else {
            None::<T>
        },
{
    if search_query_is_active(query) {
        result
    } else {
        None
    }
}

/// Whether the editor's text is searched: the search panel is open and the
/// query is not empty.
pub fn should_search_editor_text(panel_visible: bool, query: &str) -> (b: bool)
    ensures
        b == (panel_visible && query@.len() > 0),
{
    panel_visible && !query.is_empty()
}

/// A match of the text search, as a byte range of the text.
#[derive(Debug, Clone, Copy, PartialEq, Eq, Structural)]
pub struct TextSearchMatch {
    pub start: usize,
    pub end: usize,
}

/// The matches of a text search, and whether the search stopped at its cap.
#[derive(Debug, Clone, PartialEq, Eq)]
pub struct EditorSearchResultSnapshot {
    pub matches: Vec<TextSearchMatch>,
    pub capped: bool,
}

/// The search bar's state: the matches, how many there are, which one is
/// current, and whether the navigation controls are off.
#[derive(Debug, Clone, PartialEq, Eq)]
pub struct EditorSearchSnapshot {
    pub matches: Vec<TextSearchMatch>,
    pub match_count: usize,
    pub current_index: Option<usize>,
    pub capped: bool,
    pub controls_disabled: bool,
}

/// A search result with no matches.
pub fn empty_editor_search_result_snapshot() -> (r: EditorSearchResultSnapshot)
    ensures
        r.matches@.len() == 0,
        !r.capped,
{
    EditorSearchResultSnapshot { matches: Vec::new(), capped: false }
}

/// A copy of the matches.
fn copy_matches(matches: &Vec<TextSearchMatch>) -> (r: Vec<TextSearchMatch>)
    ensures
        r@ == matches@,
{
    let mut r: Vec<TextSearchMatch> = Vec::with_capacity(matches.len());
    let mut i: usize = 0;
    while i < matches.len()
        invariant
            0 <= i <= matches.len(),
            r@ == matches@.subrange(0, i as int),
        decreases matches.len() - i,
    {
        r.push(matches[i]);
        i += 1;
        assert(r@ =~= matches@.subrange(0, i as int));
    }
    assert(r@ =~= matches@);
    r
}

/// The search bar for a result: it carries the result's matches; the
/// current match is `match_index`, capped at the last match; none when there
/// are no matches, which also turns the controls off.
pub fn editor_search_snapshot(result: &EditorSearchResultSnapshot, match_index: usize) -> (r:
    EditorSearchSnapshot)
    ensures
        r.matches@ == result.matches@,
        r.match_count == result.matches@.len(),
        r.current_index == if result.matches@.len() == 0 {
            None::<usize>
        } else if match_index < result.matches@.len() - 1 {
            Some(match_index)
        } else {
            Some((result.matches@.len() - 1) as usize)
        },
        r.capped == result.capped,
        r.controls_disabled == (result.matches@.len() == 0),
{
    let match_count = result.matches.len();
    let current_index = if match_count == 0 {
        None
    } else if match_index < match_count - 1 {
        Some(match_index)
    } else {
        Some(match_count - 1)
    };
    EditorSearchSnapshot {
        matches: copy_matches(&result.matches),
        match_count,
        current_index,
        capped: result.capped,
        controls_disabled: match_count == 0,
    }
}

/// The search bar before any search ran.
pub fn empty_editor_search_snapshot() -> (r: EditorSearchSnapshot)
    ensures
        r.matches@.len() == 0,
        r.match_count == 0,
        r.current_index is None,
        !r.capped,
        r.controls_disabled,
{
    EditorSearchSnapshot {
        matches: Vec::new(),
        match_count: 0,
        current_index: None,
        capped: false,
        controls_disabled: true,
    }
}

/// `char::is_whitespace`: the Unicode `White_Space` characters.
pub open spec fn is_white_space(c: char) -> bool {
    let v = c as u32;
    (0x09 <= v <= 0x0D) || v == 0x20 || v == 0x85 || v == 0xA0 || v == 0x1680 || (0x2000 <= v
        <= 0x200A) || v == 0x2028 || v == 0x2029 || v == 0x202F || v == 0x205F || v == 0x3000
}

/// Whether `c` is Unicode white space.
pub fn char_is_white_space(c: char) -> (b: bool)
    ensures
        b == is_white_space(c),
{
    let v = c as u32;
    (0x09 <= v && v <= 0x0D) || v == 0x20 || v == 0x85 || v == 0xA0 || v == 0x1680 || (0x2000
        <= v && v <= 0x200A) || v == 0x2028 || v == 0x2029 || v == 0x202F || v == 0x205F || v
        == 0x3000
}

/// A search query is active when it holds something besides white space.
pub open spec fn query_is_active(q: Seq<char>) -> bool {
    exists|i: int| 0 <= i < q.len() && !is_white_space(#[trigger] q[i])
}

/// Whether the query holds something besides white space (`!query.trim().is_empty()`).
pub fn search_query_is_active(query: &str) -> (b: bool)
    ensures
        b == query_is_active(query@),
{
    let chars = str_chars(query);
    let mut i: usize = 0;
    while i < chars.len()
        invariant
            chars@ == query@,
            0 <= i <= chars.len(),
            forall|j: int| 0 <= j < i ==> is_white_space(#[trigger] chars@[j]),
        decreases chars.len() - i,
    {
        if !char_is_white_space(chars[i]) {
            return true;
        }
        i += 1;
    }
    false
}

/// The message the file panel shows when its list is empty.
#[derive(Debug, Clone, Copy, PartialEq, Eq, Structural)]
pub enum FilePanelEmptyMessage {
    /// No file is loaded.
    NoFile,
    /// No loaded file matches the search.
    NoMatches,
}

/// The counts the file panel's subtitle reports.
#[derive(Debug, Clone, Copy, PartialEq, Eq, Structural)]
pub enum FilePanelSubtitle {
    SelectedCount { selected: usize, total: usize },
    MatchCount { visible: usize, total: usize, selected: usize },
}

/// What the file panel lists and reports.
#[derive(Debug, Clone, PartialEq, Eq)]
pub struct FilePanelSnapshot {
    /// Positions of the listed items among all items, in order.
    pub filtered_items: Vec<usize>,
    pub empty_message: FilePanelEmptyMessage,
    pub selected_count: usize,
    pub selected_visible_count: usize,
    pub subtitle: FilePanelSubtitle,
}

/// Number of `true` entries in `flags`.
pub open spec fn count_true(flags: Seq<bool>) -> nat
    decreases flags.len(),
{
    if flags.len() == 0 {
        0
    } else {
        count_true(flags.drop_last()) + if flags.last() {
            1nat
        } else {
            0nat
        }
    }
}

/// Positions `i` with `keep[i]`, in increasing order.
pub open spec fn kept_positions(keep: Seq<bool>) -> Seq<usize>
    decreases keep.len(),
{
    if keep.len() == 0 {
        Seq::empty()
    } else {
        let rest = kept_positions(keep.drop_last());
        if keep.last() {
            rest.push((keep.len() - 1) as usize)
        } else {
            rest
        }
    }
}

/// The items shown: all of them, or those matching an active search.
pub open spec fn shown(item_matches: Seq<bool>, active: bool) -> Seq<bool> {
    Seq::new(item_matches.len(), |i: int| !active || item_matches[i])
}

/// Shown and selected.
pub open spec fn shown_and_selected(item_matches: Seq<bool>, item_selected: Seq<bool>, active: bool) -> Seq<bool> {
    Seq::new(item_matches.len(), |i: int| (!active || item_matches[i]) && item_selected[i])
}

proof fn lemma_count_bound(flags: Seq<bool>)
    ensures
        count_true(flags) <= flags.len(),
    decreases flags.len(),
{
    if flags.len() > 0 {
        lemma_count_bound(flags.drop_last());
    }
}

/// The file panel for items that match the search (`item_matches`) and are
/// selected (`item_selected`): with an active search it lists the matching
/// items and reports visible, total and selected counts; otherwise it lists
/// every item and reports selected and total counts.
pub fn file_panel_snapshot(item_matches: &[bool], item_selected: &[bool], search_query: &str) -> (r:
    FilePanelSnapshot)
    requires
        item_matches@.len() == item_selected@.len(),
    ensures
        ({
            let active = query_is_active(search_query@);
            let total = item_matches@.len();
            let visible = shown(item_matches@, active);
            let visible_selected = shown_and_selected(item_matches@, item_selected@, active);
            &&& r.filtered_items@ == kept_positions(visible)
            &&& r.empty_message == if active {
                FilePanelEmptyMessage::NoMatches
            } else {
                FilePanelEmptyMessage::NoFile
            }
            &&& r.selected_count == count_true(item_selected@)
            &&& r.selected_visible_count == count_true(visible_selected)
            &&& r.subtitle == if active {
                FilePanelSubtitle::MatchCount {
                    visible: count_true(visible) as usize,
                    total: total as usize,
                    selected: count_true(item_selected@) as usize,
                }
            } else {
                FilePanelSubtitle::SelectedCount {
                    selected: count_true(item_selected@) as usize,
                    total: total as usize,
                }
            }
        }),
{
    let active = search_query_is_active(search_query);
    let ghost visible = shown(item_matches@, active);
    let ghost visible_selected = shown_and_selected(item_matches@, item_selected@, active);
    let n = item_matches.len();
    let mut filtered: Vec<usize> = Vec::new();
    let mut selected_count: usize = 0;
    let mut selected_visible_count: usize = 0;
    let mut i: usize = 0;
    proof {
        assert(visible.take(0) =~= Seq::<bool>::empty());
        assert(visible_selected.take(0) =~= Seq::<bool>::empty());
        assert(item_selected@.take(0) =~= Seq::<bool>::empty());
    }
    while i < n
        invariant
            n == item_matches@.len(),
            n == item_selected@.len(),
            0 <= i <= n,
            visible == shown(item_matches@, active),
            visible_selected == shown_and_selected(item_matches@, item_selected@, active),
            filtered@ == kept_positions(visible.take(i as int)),
            selected_count == count_true(item_selected@.take(i as int)),
            selected_visible_count == count_true(visible_selected.take(i as int)),
        decreases n - i,
    {
        proof {
            assert(visible.take(i + 1).drop_last() =~= visible.take(i as int));
            assert(visible_selected.take(i + 1).drop_last() =~= visible_selected.take(i as int));
            assert(item_selected@.take(i + 1).drop_last() =~= item_selected@.take(i as int));
            lemma_count_bound(item_selected@.take(i as int));
            lemma_count_bound(visible_selected.take(i as int));
        }
        let shown_here = !active || item_matches[i];
        if shown_here {
            filtered.push(i);
        }
        if item_selected[i] {
            selected_count = selected_count + 1;
        }
        if shown_here && item_selected[i] {
            selected_visible_count = selected_visible_count + 1;
        }
        i += 1;
    }
    proof {
        assert(visible.take(n as int) =~= visible);
        assert(visible_selected.take(n as int) =~= visible_selected);
        assert(item_selected@.take(n as int) =~= item_selected@);
        lemma_kept_len(visible);
    }
    let subtitle = if active {
        FilePanelSubtitle::MatchCount { visible: filtered.len(), total: n, selected: selected_count }
    } else {
        FilePanelSubtitle::SelectedCount { selected: selected_count, total: n }
    };
    FilePanelSnapshot {
        filtered_items: filtered,
        empty_message: if active {
            FilePanelEmptyMessage::NoMatches
        } else {
            FilePanelEmptyMessage::NoFile
        },
        selected_count,
        selected_visible_count,
        subtitle,
    }
}

proof fn lemma_kept_len(keep: Seq<bool>)
    ensures
        kept_positions(keep).len() == count_true(keep),
    decreases keep.len(),
{
    if keep.len() > 0 {
        lemma_kept_len(keep.drop_last());
    }
}

/// Trusted: `<usize as Hash>::hash`, which feeds the value to the hasher.
/// Nothing is stated of the hasher's new state.
#[verifier::external_body]
fn hash_usize(value: usize, hasher: &mut DefaultHasher) {
    std::hash::Hash::hash(&value, hasher)
}

/// Trusted: `<u64 as Hash>::hash`, which feeds the value to the hasher.
/// Nothing is stated of the hasher's new state.
#[verifier::external_body]
fn hash_u64(value: u64, hasher: &mut DefaultHasher) {
    std::hash::Hash::hash(&value, hasher)
}

/// Trusted: `<String as Hash>::hash`, which feeds the string to the hasher.
/// Nothing is stated of the hasher's new state.
#[verifier::external_body]
fn hash_string(value: &String, hasher: &mut DefaultHasher) {
    std::hash::Hash::hash(value, hasher)
}

/// Trusted: `<Option<usize> as Hash>::hash`, which feeds the value to the
/// hasher. Nothing is stated of the hasher's new state.
#[verifier::external_body]
fn hash_option_usize(value: Option<usize>, hasher: &mut DefaultHasher) {
    std::hash::Hash::hash(&value, hasher)
}

/// One value that the loaded-files fingerprint feeds to the hasher.
#[derive(Debug, Clone, PartialEq, Eq)]
pub enum FingerprintField {
    /// The number of files.
    Count(usize),
    /// A file's id.
    Id(usize),
    /// A file's display name.
    Name(String),
    /// A file's size in bytes.
    Size(u64),
    /// The tab a file is open in, if any.
    TabLink(Option<usize>),
}

/// The four fields of file `f` stand in `fields` from position `k` on: its
/// id, display name, size and tab link.
pub open spec fn file_fields_at(fields: Seq<FingerprintField>, k: int, f: LoadedFileState) -> bool {
    &&& fields[k] == FingerprintField::Id(f.id)
    &&& fields[k + 1] matches FingerprintField::Name(name) && name@ == f.display_name@
    &&& fields[k + 2] == FingerprintField::Size(f.size)
    &&& fields[k + 3] == FingerprintField::TabLink(f.tab_id)
}

/// What the loaded-files fingerprint hashes, in order: the number of files,
/// then each file's id, display name, size and tab link.
pub fn loaded_files_fingerprint_fields(files: &[LoadedFileState]) -> (r: Vec<FingerprintField>)
    ensures
        r@.len() == 1 + 4 * files@.len(),
        r@[0] == FingerprintField::Count(files@.len() as usize),
        forall|i: int| 0 <= i < files@.len() ==> file_fields_at(r@, 1 + 4 * i, #[trigger] files@[i]),
{
    let mut r: Vec<FingerprintField> = Vec::new();
    r.push(FingerprintField::Count(files.len()));
    let mut i: usize = 0;
    while i < files.len()
        invariant
            0 <= i <= files@.len(),
            r@.len() == 1 + 4 * i,
            r@[0] == FingerprintField::Count(files@.len() as usize),
            forall|j: int| 0 <= j < i ==> file_fields_at(r@, 1 + 4 * j, #[trigger] files@[j]),
        decreases files@.len() - i,
    {
        let file = &files[i];
        r.push(FingerprintField::Id(file.id));
        r.push(FingerprintField::Name(file.display_name.clone()));
        r.push(FingerprintField::Size(file.size));
        r.push(FingerprintField::TabLink(file.tab_id));
        i += 1;
    }
    r
}

/// A fingerprint of the loaded files, used to tell when the file panel must
/// be rebuilt: the default hasher's digest of the values that
/// `loaded_files_fingerprint_fields` lists, each hashed in turn. The digest
/// itself is the hasher's business (its algorithm is unspecified and the
/// bytes it is fed depend on the machine), so no clause pins the value.
pub fn loaded_files_fingerprint(files: &[LoadedFileState]) -> u64 {
    let fields = loaded_files_fingerprint_fields(files);
    let mut hasher = DefaultHasher::new();
    let mut i: usize = 0;
    while i < fields.len()
        invariant
            0 <= i <= fields@.len(),
        decreases fields@.len() - i,
    {
        match &fields[i] {
            FingerprintField::Count(n) => hash_usize(*n, &mut hasher),
            FingerprintField::Id(id) => hash_usize(*id, &mut hasher),
            FingerprintField::Name(name) => hash_string(name, &mut hasher),
            FingerprintField::Size(size) => hash_u64(*size, &mut hasher),
            FingerprintField::TabLink(tab_id) => hash_option_usize(*tab_id, &mut hasher),
        }
        i += 1;
    }
    hasher.finish()
}

} // verus!
