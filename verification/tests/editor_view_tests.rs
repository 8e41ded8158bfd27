use rton_editor::editor_tab::{EditorMode, mode_mark};
use rton_editor::editor_view::{
    EditorStageView, apply_virtual_text_jump_target, editor_stage_view, insert_virtual_text_input,
    sync_virtual_text_state_with_buffer, virtual_text_line_class, virtual_text_preview_class,
    virtual_text_wrap_layout,
};
use rton_editor::text_buffer::TextBuffer;
use rton_editor::text_search::TextJumpTarget;
use rton_editor::virtual_text::{
    VirtualTextPoint, VirtualTextSelection, clamp_virtual_text_point, virtual_text_selected_text,
};
use rton_editor::virtual_text_edit::{
    virtual_text_next_utf16_column, virtual_text_previous_utf16_column,
};
use rton_editor::virtual_text_input::{VirtualTextKeyModifiers, VirtualTextKeyAction, handle_virtual_text_key};

fn point(line_index: usize, column_utf16: usize) -> VirtualTextPoint {
    VirtualTextPoint {
        line_index,
        column_utf16,
    }
}

#[test]
fn the_stage_shows_the_surface_of_the_active_tab() {
    assert_eq!(editor_stage_view(false, true, EditorMode::Json, true, true, true), EditorStageView::EmptyDropStage);
    assert_eq!(editor_stage_view(true, true, EditorMode::Json, true, true, true), EditorStageView::Converting);
    assert_eq!(editor_stage_view(true, false, EditorMode::RtonHex, true, true, true), EditorStageView::HexEditor);
    assert_eq!(editor_stage_view(true, false, EditorMode::RtonHex, false, true, true), EditorStageView::InvalidHex);
    assert_eq!(editor_stage_view(true, false, EditorMode::Yaml, false, true, true), EditorStageView::TextEditor);
    assert_eq!(editor_stage_view(true, false, EditorMode::Toml, false, true, false), EditorStageView::EmptyText);
    assert_eq!(editor_stage_view(true, false, EditorMode::Json, false, false, true), EditorStageView::Blank);
}

#[test]
fn mode_marks_name_the_mode() {
    assert_eq!(mode_mark(None), "R");
    assert_eq!(mode_mark(Some(EditorMode::RtonHex)), "R");
    assert_eq!(mode_mark(Some(EditorMode::Json)), "J");
    assert_eq!(mode_mark(Some(EditorMode::Yaml)), "Y");
    assert_eq!(mode_mark(Some(EditorMode::Toml)), "T");
}

#[test]
fn caret_and_selection_follow_a_shorter_text() {
    let buffer = TextBuffer::new("ab\nc".to_string());
    let mut caret = point(5, 9);
    let mut selection = Some(VirtualTextSelection {
        start_line: 3,
        start_column_utf16: 5,
        end_line: 4,
        end_column_utf16: 7,
    });
    sync_virtual_text_state_with_buffer(&buffer, &mut caret, &mut selection);
    assert_eq!(caret, point(1, 1));
    // Both ends land on the end of the text, so nothing stays selected.
    assert_eq!(selection, None);

    let mut selection = Some(VirtualTextSelection {
        start_line: 0,
        start_column_utf16: 9,
        end_line: 1,
        end_column_utf16: 0,
    });
    sync_virtual_text_state_with_buffer(&buffer, &mut caret, &mut selection);
    assert_eq!(
        selection,
        Some(VirtualTextSelection {
            start_line: 0,
            start_column_utf16: 2,
            end_line: 1,
            end_column_utf16: 0,
        })
    );
}

#[test]
fn a_jump_target_is_followed_once() {
    let buffer = TextBuffer::new("one\na😀b".to_string());
    let target = TextJumpTarget {
        id: 7,
        line: 2,
        column: 1,
        selection_end_column: 5,
        line_count: 2,
        focus: true,
    };
    let mut last = None;
    let mut caret = point(0, 0);
    let mut selection = None;
    assert!(apply_virtual_text_jump_target(&buffer, target, &mut last, &mut caret, &mut selection));
    assert_eq!(last, Some(7));
    assert_eq!(caret, point(1, 3));
    assert_eq!(
        selection,
        Some(VirtualTextSelection {
            start_line: 1,
            start_column_utf16: 1,
            end_line: 1,
            end_column_utf16: 3,
        })
    );
    assert_eq!(virtual_text_selected_text(&buffer, selection.unwrap()).as_deref(), Some("😀"));

    let mut moved = point(0, 0);
    assert!(!apply_virtual_text_jump_target(&buffer, target, &mut last, &mut moved, &mut selection));
    assert_eq!(moved, point(0, 0));
}

#[test]
fn wrapping_stops_for_very_long_texts() {
    let buffer = TextBuffer::new("a\nb".to_string());
    assert!(virtual_text_wrap_layout(&buffer, false, 960).is_none());
    let layout = virtual_text_wrap_layout(&buffer, true, 960).expect("wrapped");
    assert_eq!(layout.line_tops.len(), 2);
    let long = TextBuffer::new("\n".repeat(20_000));
    assert!(virtual_text_wrap_layout(&long, true, 960).is_none());
    let limit = TextBuffer::new("\n".repeat(19_999));
    assert!(virtual_text_wrap_layout(&limit, true, 960).is_some());
}

#[test]
fn classes_mark_wrapping_selection_and_the_active_line() {
    assert_eq!(virtual_text_preview_class(true, true), "virtual-text-preview wrap has-logical-selection");
    assert_eq!(virtual_text_preview_class(true, false), "virtual-text-preview wrap");
    assert_eq!(virtual_text_preview_class(false, true), "virtual-text-preview has-logical-selection");
    assert_eq!(virtual_text_preview_class(false, false), "virtual-text-preview");
    assert_eq!(virtual_text_line_class(None, point(2, 0), 2), "virtual-text-line-view active-line");
    assert_eq!(virtual_text_line_class(None, point(1, 0), 2), "virtual-text-line-view");
    let selection = Some(VirtualTextSelection {
        start_line: 2,
        start_column_utf16: 0,
        end_line: 2,
        end_column_utf16: 1,
    });
    assert_eq!(virtual_text_line_class(selection, point(2, 0), 2), "virtual-text-line-view");
}

#[test]
fn typed_input_replaces_the_selection() {
    let buffer = TextBuffer::new("hello".to_string());
    let mut caret = point(0, 5);
    let mut selection = Some(VirtualTextSelection {
        start_line: 0,
        start_column_utf16: 1,
        end_line: 0,
        end_column_utf16: 4,
    });
    assert!(insert_virtual_text_input(&buffer, &mut caret, &mut selection, String::new()).is_none());
    assert_eq!(caret, point(0, 5));
    let r = insert_virtual_text_input(&buffer, &mut caret, &mut selection, "EY".to_string()).expect("typed");
    assert_eq!((r.start_column_utf16, r.end_column_utf16), (1, 4));
    assert_eq!(r.replacement, "EY");
    assert_eq!(caret, point(0, 3));
    assert_eq!(selection, None);
}

#[test]
fn utf16_columns_step_over_whole_characters() {
    let text = "a😀b";
    assert_eq!(virtual_text_previous_utf16_column(text, 0), 0);
    assert_eq!(virtual_text_previous_utf16_column(text, 1), 0);
    assert_eq!(virtual_text_previous_utf16_column(text, 3), 1);
    assert_eq!(virtual_text_previous_utf16_column(text, 2), 1);
    assert_eq!(virtual_text_previous_utf16_column(text, 9), 4);
    assert_eq!(virtual_text_next_utf16_column(text, 0), 1);
    assert_eq!(virtual_text_next_utf16_column(text, 1), 3);
    assert_eq!(virtual_text_next_utf16_column(text, 2), 3);
    assert_eq!(virtual_text_next_utf16_column(text, 4), 4);
}

#[test]
fn select_all_then_copy_gives_the_whole_text() {
    for text in ["a", "one\ntwo\n", "x😀\r\ny", "\n\n"] {
        let buffer = TextBuffer::new(text.to_string());
        let mut caret = point(0, 0);
        let mut selection = None;
        let ctrl = VirtualTextKeyModifiers {
            ctrl: true,
            meta: false,
            shift: false,
            alt: false,
        };
        handle_virtual_text_key("a", ctrl, &buffer, &mut caret, &mut selection);
        let copied = handle_virtual_text_key("c", ctrl, &buffer, &mut caret, &mut selection);
        assert_eq!(copied, VirtualTextKeyAction::Copy(Some(text.to_string())));
    }
    // A trailing '\r' is not shown, so select-all stops before it.
    let buffer = TextBuffer::new("a\r".to_string());
    let mut caret = point(0, 0);
    let mut selection = None;
    let ctrl = VirtualTextKeyModifiers {
        ctrl: true,
        meta: false,
        shift: false,
        alt: false,
    };
    handle_virtual_text_key("a", ctrl, &buffer, &mut caret, &mut selection);
    let copied = handle_virtual_text_key("c", ctrl, &buffer, &mut caret, &mut selection);
    assert_eq!(copied, VirtualTextKeyAction::Copy(Some("a".to_string())));
}

#[test]
fn clamping_twice_is_clamping_once() {
    let buffer = TextBuffer::new("ab\n😀".to_string());
    for p in [point(0, 0), point(0, 9), point(1, 1), point(7, 3), point(1, 2)] {
        let once = clamp_virtual_text_point(p, &buffer);
        let twice = clamp_virtual_text_point(once, &buffer);
        assert_eq!(once, twice);
    }
    assert_eq!(clamp_virtual_text_point(point(7, 3), &buffer), point(1, 2));
}
