use rton_editor::range_edit::TextRangeReplacement;
use rton_editor::text_buffer::TextBuffer;
use rton_editor::text_layout::{TEXT_ROW_HEIGHT, text_wrap_layout};
use rton_editor::virtual_text::{
    VirtualTextPoint, VirtualTextSelection, virtual_text_point_from_jump_target,
    virtual_text_selected_text,
};
use rton_editor::virtual_text_edit::{
    VirtualTextDeleteDirection, VirtualTextLinePiece, virtual_text_adjacent_delete_range,
    virtual_text_caret_after_replacement, virtual_text_line_pieces,
    virtual_text_line_selection_columns,
};

#[test]
fn text_wrap_layout_expands_long_lines_for_narrow_viewports() {
    let text = format!("short\n{}", "a".repeat(200));
    let buffer = TextBuffer::new(text);
    let layout = text_wrap_layout(&buffer, 220);

    assert_eq!(layout.line_tops.as_slice(), &[0, TEXT_ROW_HEIGHT]);
    assert_eq!(layout.line_heights[0], TEXT_ROW_HEIGHT);
    assert!(layout.line_heights[1] > TEXT_ROW_HEIGHT);
    assert!(layout.logical_height > TEXT_ROW_HEIGHT * 2);
}

#[test]
fn virtual_text_selection_columns_span_middle_line() {
    let selection = Some(VirtualTextSelection {
        start_line: 1,
        start_column_utf16: 2,
        end_line: 3,
        end_column_utf16: 4,
    });

    assert_eq!(
        virtual_text_line_selection_columns(selection, 2, "middle"),
        Some((0, 6))
    );
}

#[test]
fn virtual_text_selection_columns_preserve_utf8_boundaries() {
    let selection = Some(VirtualTextSelection {
        start_line: 0,
        start_column_utf16: 1,
        end_line: 0,
        end_column_utf16: 3,
    });

    assert_eq!(
        virtual_text_line_selection_columns(selection, 0, "a😀b"),
        Some((1, 5))
    );
}

#[test]
fn virtual_text_line_pieces_render_caret_without_native_input() {
    assert_eq!(
        virtual_text_line_pieces(
            None,
            VirtualTextPoint {
                line_index: 0,
                column_utf16: 1
            },
            0,
            "ab"
        ),
        vec![
            VirtualTextLinePiece::Text("a".to_string()),
            VirtualTextLinePiece::Caret,
            VirtualTextLinePiece::Text("b".to_string())
        ]
    );
}

#[test]
fn virtual_text_selected_text_crosses_lines() {
    let buffer = TextBuffer::new("one\ntwo\nthree".to_string());
    let selection = VirtualTextSelection {
        start_line: 0,
        start_column_utf16: 1,
        end_line: 2,
        end_column_utf16: 2,
    };

    assert_eq!(
        virtual_text_selected_text(&buffer, selection).as_deref(),
        Some("ne\ntwo\nth")
    );
}

#[test]
fn virtual_text_backspace_range_joins_lines() {
    let buffer = TextBuffer::new("one\ntwo".to_string());
    let caret = VirtualTextPoint {
        line_index: 1,
        column_utf16: 0,
    };

    assert_eq!(
        virtual_text_adjacent_delete_range(&buffer, caret, VirtualTextDeleteDirection::Backward),
        Some((
            VirtualTextPoint {
                line_index: 0,
                column_utf16: 3
            },
            caret
        ))
    );
}

#[test]
fn virtual_text_delete_range_uses_utf16_boundaries() {
    let buffer = TextBuffer::new("a😀b".to_string());
    let caret = VirtualTextPoint {
        line_index: 0,
        column_utf16: 1,
    };

    assert_eq!(
        virtual_text_adjacent_delete_range(&buffer, caret, VirtualTextDeleteDirection::Forward),
        Some((
            caret,
            VirtualTextPoint {
                line_index: 0,
                column_utf16: 3
            }
        ))
    );
}

#[test]
fn virtual_text_caret_after_multiline_replacement() {
    let replacement = TextRangeReplacement {
        start_line: 2,
        start_column_utf16: 4,
        end_line: 2,
        end_column_utf16: 4,
        replacement: "a\n中文".to_string(),
    };

    assert_eq!(
        virtual_text_caret_after_replacement(&replacement),
        VirtualTextPoint {
            line_index: 3,
            column_utf16: 2
        }
    );
}

#[test]
fn virtual_text_jump_target_converts_byte_column_to_utf16() {
    let buffer = TextBuffer::new("a😀b".to_string());

    assert_eq!(
        virtual_text_point_from_jump_target(&buffer, 1, 5),
        VirtualTextPoint {
            line_index: 0,
            column_utf16: 3
        }
    );
}
