//! Moving through the matches of the editor's text search, jumping to
//! them, and replacing them.
use vstd::prelude::*;

use crate::editing::{update_active_text, updated_tab};
use crate::editor_tab::{EditorTabState, text_edited};
use crate::snapshot::TextSearchMatch;
use crate::tab_actions::{active_tab_text, active_text};
use crate::text_buffer::{TextBuffer, line_byte_starts};
use crate::text_layout::{count_at_or_below, lemma_count_at_or_below_sorted};
use crate::text_lines::line_count;
use crate::text_metrics::{
    Encoding, chars_fit_count, chars_width, fit_count, lemma_encode_utf8_len, push_chars, sat_sub,
    str_chars, str_fits, str_is, utf8_len,
};

verus! {

/// A 1-based line and a byte column in it.
#[derive(Debug, Clone, Copy, PartialEq, Eq, Structural)]
pub struct TextPosition {
    pub line: usize,
    pub column: usize,
}

/// The position of byte `offset` (capped at the text's end): the last line
/// starting at or before it, and the bytes from that line's start.
pub open spec fn text_position_at(s: Seq<char>, offset: int) -> TextPosition {
    let bounded = if offset < utf8_len(s) {
        offset
    } else {
        utf8_len(s) as int
    };
    let starts = line_byte_starts(s);
    let line_index = sat_sub(count_at_or_below(starts, bounded), 1);
    TextPosition {
        line: (line_index + 1) as usize,
        column: sat_sub(bounded, starts[line_index] as int) as usize,
    }
}

/// The line and byte column of byte `offset` of the buffer's text.
pub fn offset_to_text_buffer_position(buffer: &TextBuffer, offset: usize) -> (p: TextPosition)
    ensures
        p == text_position_at(buffer@, offset as int),
{
    let text = buffer.text();
    str_fits(text);
    proof {
        lemma_encode_utf8_len(text@);
    }
    let len = text.len();
    let bounded = if offset < len {
        offset
    } else {
        len
    };
    let line_count = buffer.line_count();
    let offsets = buffer.line_offsets();
    let mut lo: usize = 0;
    let mut hi: usize = offsets.len();
    while lo < hi
        invariant
            0 <= lo <= hi <= offsets@.len(),
            forall|j: int, k: int| 0 <= j <= k < offsets@.len() ==> offsets@[j] <= offsets@[k],
            offsets@.len() == line_count,
            line_count >= 1,
            offsets@[0] == 0,
            forall|i: int| 0 <= i < lo ==> offsets@[i] <= bounded,
            forall|i: int| hi <= i < offsets@.len() ==> offsets@[i] > bounded,
        decreases hi - lo,
    {
        let mid = lo + (hi - lo) / 2;
        if offsets[mid] <= bounded {
            lo = mid + 1;
        } else {
            hi = mid;
        }
    }
    proof {
        lemma_count_at_or_below_sorted(offsets@, bounded as int, lo as int);
    }
    let line_index = lo.saturating_sub(1);
    let line_start = offsets[line_index];
    TextPosition { line: line_index + 1, column: bounded.saturating_sub(line_start) }
}

/// Where the editor jumps for a search match: the match's line and start
/// column, the column its selection ends at on that line, the buffer's line
/// count, and whether to focus the editor.
#[derive(Debug, Clone, Copy, PartialEq, Eq, Structural)]
pub struct TextJumpTarget {
    pub id: u64,
    pub line: usize,
    pub column: usize,
    pub selection_end_column: usize,
    pub line_count: usize,
    pub focus: bool,
}

/// The jump to match `match_index` (capped at the last match), selecting it
/// up to its end when that lies on the same line; `None` without matches.
pub fn current_text_search_jump(
    buffer: &TextBuffer,
    matches: &[TextSearchMatch],
    match_index: usize,
    focus_token: u64,
) -> (r: Option<TextJumpTarget>)
    ensures
        matches@.len() == 0 <==> r is None,
        r matches Some(t) ==> {
            let i = if match_index < matches@.len() - 1 {
                match_index as int
            } else {
                matches@.len() - 1
            };
            let start = text_position_at(buffer@, matches@[i].start as int);
            let end = text_position_at(buffer@, matches@[i].end as int);
            &&& t.id == focus_token
            &&& t.line == start.line
            &&& t.column == start.column
            &&& t.selection_end_column == if end.line == start.line {
                end.column
            } else {
                start.column
            }
            &&& t.line_count == line_count(buffer@)
            &&& t.focus == (focus_token > 0)
        },
{
    if matches.len() == 0 {
        return None;
    }
    let last = matches.len() - 1;
    let i = if match_index < last {
        match_index
    } else {
        last
    };
    let m = matches[i];
    let position = offset_to_text_buffer_position(buffer, m.start);
    let end_position = offset_to_text_buffer_position(buffer, m.end);
    let selection_end_column = if end_position.line == position.line {
        end_position.column
    } else {
        position.column
    };
    Some(
        TextJumpTarget {
            id: focus_token,
            line: position.line,
            column: position.column,
            selection_end_column,
            line_count: buffer.line_count(),
            focus: focus_token > 0,
        },
    )
}

/// The match after `current`, wrapping to the first after the last.
pub open spec fn next_index(current: int, count: int) -> int {
    if current + 1 < count {
        current + 1
    } else {
        0
    }
}

/// The match before `current` (itself capped at `count`), wrapping to the
/// last before the first.
pub open spec fn previous_index(current: int, count: int) -> int {
    if current == 0 {
        count - 1
    } else if current < count {
        current - 1
    } else {
        count - 1
    }
}

/// The index of the next match.
pub fn next_text_search_index(current: usize, match_count: usize) -> (i: usize)
    requires
        match_count > 0,
    ensures
        i == next_index(current as int, match_count as int),
        i < match_count,
{
    if current < match_count - 1 {
        current + 1
    } else {
        0
    }
}

/// The index of the previous match.
pub fn previous_text_search_index(current: usize, match_count: usize) -> (i: usize)
    requires
        match_count > 0,
    ensures
        i == previous_index(current as int, match_count as int),
        i < match_count,
{
    if current == 0 {
        match_count - 1
    } else if current < match_count {
        current - 1
    } else {
        match_count - 1
    }
}

/// Steps to the previous match; no matches leave the index alone.
pub fn go_to_previous_text_match(match_count: usize, match_index: &mut usize)
    ensures
        *final(match_index) == if match_count == 0 {
            *old(match_index) as int
        } else {
            previous_index(*old(match_index) as int, match_count as int)
        },
{
    if match_count == 0 {
        return;
    }
    *match_index = previous_text_search_index(*match_index, match_count);
}

/// Steps to the next match; no matches leave the index alone.
pub fn go_to_next_text_match(match_count: usize, match_index: &mut usize)
    ensures
        *final(match_index) == if match_count == 0 {
            *old(match_index) as int
        } else {
            next_index(*old(match_index) as int, match_count as int)
        },
{
    if match_count == 0 {
        return;
    }
    *match_index = next_text_search_index(*match_index, match_count);
}

/// Asks for the editor to be focused on the current match: a new focus
/// token, when there are matches.
pub fn request_text_search_focus(match_count: usize, focus_token: &mut u64)
    ensures
        *final(focus_token) == if match_count > 0 && *old(focus_token) < u64::MAX {
            *old(focus_token) + 1
        } else {
            *old(focus_token) as int
        },
{
    if match_count > 0 {
        *focus_token = focus_token.saturating_add(1);
    }
}

/// What a key press in the find field did.
#[derive(Debug, Clone, Copy, PartialEq, Eq, Structural)]
pub struct FindKeyOutcome {
    /// The browser's own handling of the key is suppressed.
    pub prevent_default: bool,
    /// The current match moved.
    pub moved: bool,
}

/// Answers a key in the find field: Escape hides the search panel; Enter,
/// when there are matches, steps to the next match (the previous one with
/// Shift); other keys do nothing.
pub fn handle_text_find_key(
    key: &str,
    shift: bool,
    match_count: usize,
    panel_visible: &mut bool,
    match_index: &mut usize,
) -> (r: FindKeyOutcome)
    ensures
        key@ == "Escape"@ ==> {
            &&& r == FindKeyOutcome { prevent_default: true, moved: false }
            &&& !*final(panel_visible)
            &&& *final(match_index) == *old(match_index)
        },
        key@ != "Escape"@ && key@ == "Enter"@ && match_count > 0 ==> {
            &&& r == FindKeyOutcome { prevent_default: true, moved: true }
            &&& *final(panel_visible) == *old(panel_visible)
            &&& *final(match_index) == if shift {
                previous_index(*old(match_index) as int, match_count as int)
            } else {
                next_index(*old(match_index) as int, match_count as int)
            }
        },
        key@ != "Escape"@ && !(key@ == "Enter"@ && match_count > 0) ==> {
            &&& r == FindKeyOutcome { prevent_default: false, moved: false }
            &&& *final(panel_visible) == *old(panel_visible)
            &&& *final(match_index) == *old(match_index)
        },
{
    if str_is(key, "Escape") {
        *panel_visible = false;
        FindKeyOutcome { prevent_default: true, moved: false }
    } else if str_is(key, "Enter") && match_count > 0 {
        if shift {
            go_to_previous_text_match(match_count, match_index);
        } else {
            go_to_next_text_match(match_count, match_index);
        }
        FindKeyOutcome { prevent_default: true, moved: true }
    } else {
        FindKeyOutcome { prevent_default: false, moved: false }
    }
}

/// The character index at byte offset `b` of `s`, when `b` falls on a
/// character boundary inside the text.
pub open spec fn char_at_byte(s: Seq<char>, b: int) -> Option<int> {
    let k = fit_count(s, b, Encoding::Utf8) as int;
    if utf8_len(s.take(k)) == b {
        Some(k)
    } else {
        None
    }
}

/// The text with the bytes `start..end` replaced by `r`; unchanged when an
/// end does not fall on a character boundary or the span is reversed.
pub open spec fn span_replaced(s: Seq<char>, start: int, end: int, r: Seq<char>) -> Seq<char> {
    match (char_at_byte(s, start), char_at_byte(s, end)) {
        (Some(a), Some(b)) => if a <= b {
            s.take(a) + r + s.skip(b)
        } else {
            s
        },
        _ => s,
    }
}

/// The character index at byte offset `b` of `chars`, if it is a boundary.
fn char_index_at_byte(chars: &Vec<char>, b: usize) -> (r: Option<usize>)
    requires
        crate::text_metrics::fits_usize(chars@),
    ensures
        r is Some <==> char_at_byte(chars@, b as int) is Some,
        r matches Some(k) ==> char_at_byte(chars@, b as int) == Some(k as int),
{
    let k = chars_fit_count(chars, 0, chars.len(), b, &Encoding::Utf8);
    proof {
        crate::text_metrics::lemma_fit_count(chars@, b as int, Encoding::Utf8);
        assert(chars@.subrange(0, chars@.len() as int) =~= chars@);
        assert(chars@.subrange(0, k as int) =~= chars@.take(k as int));
    }
    let w = chars_width(chars, 0, k, &Encoding::Utf8);
    if w == b {
        Some(k)
    } else {
        None
    }
}

/// The text with the bytes `start..end` replaced by `replacement`.
pub fn replace_text_span(text: &str, start: usize, end: usize, replacement: &str) -> (r: String)
    ensures
        r@ == span_replaced(text@, start as int, end as int, replacement@),
{
    str_fits(text);
    let chars = str_chars(text);
    let a = char_index_at_byte(&chars, start);
    let b = char_index_at_byte(&chars, end);
    match (a, b) {
        (Some(a), Some(b)) => {
            if a <= b {
                proof {
                    crate::text_metrics::lemma_fit_count(chars@, start as int, Encoding::Utf8);
                    crate::text_metrics::lemma_fit_count(chars@, end as int, Encoding::Utf8);
                }
                let rep = str_chars(replacement);
                let mut next = String::new();
                push_chars(&mut next, &chars, 0, a);
                push_chars(&mut next, &rep, 0, rep.len());
                push_chars(&mut next, &chars, b, chars.len());
                proof {
                    assert(next@ =~= text@.take(a as int) + replacement@ + text@.skip(b as int));
                }
                next
            } else {
                text.to_owned()
            }
        },
        _ => text.to_owned(),
    }
}

/// Replaces the current match (`match_index`, capped at the last match) in
/// the active tab's text and keeps it current; nothing happens without
/// matches or when the active tab shows no text.
pub fn replace_current_text_match(
    matches: &[TextSearchMatch],
    replacement: &str,
    tabs: &mut Vec<EditorTabState>,
    active_tab_id: usize,
    match_index: &mut usize,
)
    ensures
        matches@.len() == 0 || active_text(old(tabs)@, active_tab_id) is None ==> {
            &&& final(tabs)@ == old(tabs)@
            &&& *final(match_index) == *old(match_index)
        },
        matches@.len() > 0 && active_text(old(tabs)@, active_tab_id) is Some ==> {
            let i = if *old(match_index) < matches@.len() - 1 {
                *old(match_index) as int
            } else {
                matches@.len() - 1
            };
            let current = active_text(old(tabs)@, active_tab_id)->0;
            let next = span_replaced(current, matches@[i].start as int, matches@[i].end as int, replacement@);
            &&& *final(match_index) == i
            &&& next == current ==> final(tabs)@ == old(tabs)@
            &&& next != current ==> updated_tab(
                old(tabs)@,
                final(tabs)@,
                active_tab_id,
                |a: EditorTabState, b: EditorTabState| text_edited(a, b, next),
            )
        },
{
    if matches.len() == 0 {
        return;
    }
    let current = match active_tab_text(tabs, active_tab_id) {
        Some(t) => t,
        None => return,
    };
    let last = matches.len() - 1;
    let index = if *match_index < last {
        *match_index
    } else {
        last
    };
    let m = matches[index];
    let next = replace_text_span(current.as_str(), m.start, m.end, replacement);
    if next != current {
        update_active_text(next, tabs, active_tab_id);
    }
    *match_index = index;
}

/// Answers a key in the replace field: Escape hides the search panel;
/// Enter, when there are matches, replaces the current match. Whether the
/// browser's own handling of the key is suppressed.
pub fn handle_text_replace_key(
    key: &str,
    matches: &[TextSearchMatch],
    replacement: &str,
    panel_visible: &mut bool,
    tabs: &mut Vec<EditorTabState>,
    active_tab_id: usize,
    match_index: &mut usize,
) -> (prevent_default: bool)
    ensures
        key@ == "Escape"@ ==> {
            &&& prevent_default
            &&& !*final(panel_visible)
            &&& final(tabs)@ == old(tabs)@
            &&& *final(match_index) == *old(match_index)
        },
        key@ != "Escape"@ && key@ == "Enter"@ && matches@.len() > 0 ==> {
            &&& prevent_default
            &&& *final(panel_visible) == *old(panel_visible)
            &&& active_text(old(tabs)@, active_tab_id) is None ==> final(tabs)@ == old(tabs)@
                && *final(match_index) == *old(match_index)
            &&& active_text(old(tabs)@, active_tab_id) is Some ==> {
                let i = if *old(match_index) < matches@.len() - 1 {
                    *old(match_index) as int
                } else {
                    matches@.len() - 1
                };
                let current = active_text(old(tabs)@, active_tab_id)->0;
                let next = span_replaced(
                    current,
                    matches@[i].start as int,
                    matches@[i].end as int,
                    replacement@,
                );
                &&& *final(match_index) == i
                &&& next == current ==> final(tabs)@ == old(tabs)@
                &&& next != current ==> updated_tab(
                    old(tabs)@,
                    final(tabs)@,
                    active_tab_id,
                    |a: EditorTabState, b: EditorTabState| text_edited(a, b, next),
                )
            }
        },
        key@ != "Escape"@ && !(key@ == "Enter"@ && matches@.len() > 0) ==> {
            &&& !prevent_default
            &&& *final(panel_visible) == *old(panel_visible)
            &&& final(tabs)@ == old(tabs)@
            &&& *final(match_index) == *old(match_index)
        },
{
    if str_is(key, "Escape") {
        *panel_visible = false;
        true
    } else if str_is(key, "Enter") && matches.len() > 0 {
        replace_current_text_match(matches, replacement, tabs, active_tab_id, match_index);
        true
    } else {
        false
    }
}

/// Stepping to the next match and back, or back and forward again, returns
/// to the match one started from.
pub proof fn lemma_match_steps_undo_each_other(current: int, count: int)
    requires
        0 <= current < count,
    ensures
        previous_index(next_index(current, count), count) == current,
        next_index(previous_index(current, count), count) == current,
{
}

} // verus!
