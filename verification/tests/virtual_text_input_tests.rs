use rton_editor::text_buffer::TextBuffer;
use rton_editor::virtual_text::{VirtualTextPoint, VirtualTextSelection};
use rton_editor::virtual_text_edit::{
    VirtualTextCaretKey, VirtualTextDeleteDirection, virtual_text_next_point,
    virtual_text_previous_point,
};
use rton_editor::virtual_text_input::{
    VirtualTextDrag, VirtualTextKeyAction, VirtualTextKeyCommand, VirtualTextKeyModifiers,
    commit_virtual_text_replacement, delete_virtual_text_selection_or_adjacent,
    handle_virtual_text_key, move_virtual_text_caret, replace_virtual_text_selection_or_caret,
    select_all_virtual_text, start_virtual_text_drag, update_virtual_text_drag,
    virtual_text_key_command, virtual_text_key_prevents_default,
};
use rton_editor::range_edit::TextRangeReplacement;

fn point(line_index: usize, column_utf16: usize) -> VirtualTextPoint {
    VirtualTextPoint {
        line_index,
        column_utf16,
    }
}

fn no_modifiers() -> VirtualTextKeyModifiers {
    VirtualTextKeyModifiers {
        ctrl: false,
        meta: false,
        shift: false,
        alt: false,
    }
}

fn ctrl() -> VirtualTextKeyModifiers {
    VirtualTextKeyModifiers {
        ctrl: true,
        ..no_modifiers()
    }
}

#[test]
fn key_commands_follow_shortcuts_and_named_keys() {
    let meta_shift = VirtualTextKeyModifiers {
        meta: true,
        shift: true,
        ..no_modifiers()
    };
    assert_eq!(virtual_text_key_command("f", ctrl()), VirtualTextKeyCommand::ShowSearch);
    assert_eq!(virtual_text_key_command("F", ctrl()), VirtualTextKeyCommand::ShowSearch);
    assert_eq!(virtual_text_key_command("z", ctrl()), VirtualTextKeyCommand::Undo);
    assert_eq!(virtual_text_key_command("Z", meta_shift), VirtualTextKeyCommand::Redo);
    assert_eq!(virtual_text_key_command("y", ctrl()), VirtualTextKeyCommand::Redo);
    assert_eq!(virtual_text_key_command("a", ctrl()), VirtualTextKeyCommand::SelectAll);
    assert_eq!(virtual_text_key_command("c", ctrl()), VirtualTextKeyCommand::Copy);
    assert_eq!(virtual_text_key_command("x", ctrl()), VirtualTextKeyCommand::Cut);
    assert_eq!(virtual_text_key_command("v", ctrl()), VirtualTextKeyCommand::ClearInputSink);
    assert_eq!(virtual_text_key_command("q", ctrl()), VirtualTextKeyCommand::Ignore);
    let alt = VirtualTextKeyModifiers {
        alt: true,
        ..no_modifiers()
    };
    assert_eq!(virtual_text_key_command("Backspace", alt), VirtualTextKeyCommand::Ignore);
    assert_eq!(
        virtual_text_key_command("Backspace", no_modifiers()),
        VirtualTextKeyCommand::Delete(VirtualTextDeleteDirection::Backward)
    );
    assert_eq!(
        virtual_text_key_command("Delete", no_modifiers()),
        VirtualTextKeyCommand::Delete(VirtualTextDeleteDirection::Forward)
    );
    assert_eq!(virtual_text_key_command("Enter", no_modifiers()), VirtualTextKeyCommand::NewLine);
    assert_eq!(virtual_text_key_command("Tab", no_modifiers()), VirtualTextKeyCommand::Indent);
    assert_eq!(
        virtual_text_key_command("ArrowUp", no_modifiers()),
        VirtualTextKeyCommand::Move(VirtualTextCaretKey::ArrowUp)
    );
    assert_eq!(
        virtual_text_key_command("End", no_modifiers()),
        VirtualTextKeyCommand::Move(VirtualTextCaretKey::End)
    );
    assert_eq!(virtual_text_key_command("Escape", no_modifiers()), VirtualTextKeyCommand::ClearSelection);
    assert_eq!(virtual_text_key_command("f", no_modifiers()), VirtualTextKeyCommand::Ignore);
    assert_eq!(virtual_text_key_command("ff", ctrl()), VirtualTextKeyCommand::Ignore);
}

#[test]
fn backspace_at_line_start_joins_lines() {
    let buffer = TextBuffer::new("one\ntwo".to_string());
    let mut caret = point(1, 0);
    let mut selection = None;
    let action = handle_virtual_text_key("Backspace", no_modifiers(), &buffer, &mut caret, &mut selection);
    match action {
        VirtualTextKeyAction::Edit(Some(r)) => {
            assert_eq!((r.start_line, r.start_column_utf16, r.end_line, r.end_column_utf16), (0, 3, 1, 0));
            assert_eq!(r.replacement, "");
        }
        _ => panic!("expected an edit"),
    }
    assert_eq!(caret, point(0, 3));
    assert_eq!(selection, None);
}

#[test]
fn backspace_at_document_start_edits_nothing() {
    let buffer = TextBuffer::new("one".to_string());
    let mut caret = point(0, 0);
    let mut selection = None;
    let action = handle_virtual_text_key("Backspace", no_modifiers(), &buffer, &mut caret, &mut selection);
    assert_eq!(action, VirtualTextKeyAction::Edit(None));
    assert_eq!(caret, point(0, 0));
    assert!(virtual_text_key_prevents_default(&action));
}

#[test]
fn enter_replaces_the_selection_with_a_line_break() {
    let buffer = TextBuffer::new("abcd".to_string());
    let mut caret = point(0, 3);
    let mut selection = Some(VirtualTextSelection {
        start_line: 0,
        start_column_utf16: 3,
        end_line: 0,
        end_column_utf16: 1,
    });
    let action = handle_virtual_text_key("Enter", no_modifiers(), &buffer, &mut caret, &mut selection);
    match action {
        VirtualTextKeyAction::Edit(Some(r)) => {
            assert_eq!((r.start_line, r.start_column_utf16, r.end_line, r.end_column_utf16), (0, 3, 0, 1));
            assert_eq!(r.replacement, "\n");
        }
        _ => panic!("expected an edit"),
    }
    // The caret goes after the line break, kept inside the text as it was.
    assert_eq!(caret, point(0, 0));
    assert_eq!(selection, None);
}

#[test]
fn tab_inserts_at_the_caret() {
    let buffer = TextBuffer::new("ab".to_string());
    let mut caret = point(0, 1);
    let mut selection = None;
    let action = handle_virtual_text_key("Tab", no_modifiers(), &buffer, &mut caret, &mut selection);
    match action {
        VirtualTextKeyAction::Edit(Some(r)) => {
            assert_eq!((r.start_line, r.start_column_utf16, r.end_line, r.end_column_utf16), (0, 1, 0, 1));
            assert_eq!(r.replacement, "\t");
        }
        _ => panic!("expected an edit"),
    }
    assert_eq!(caret, point(0, 2));
}

#[test]
fn select_all_selects_to_the_end_of_the_last_line() {
    let buffer = TextBuffer::new("one\n😀x".to_string());
    let mut caret = point(0, 0);
    let mut selection = None;
    let action = handle_virtual_text_key("a", ctrl(), &buffer, &mut caret, &mut selection);
    assert_eq!(action, VirtualTextKeyAction::CaretMoved);
    assert_eq!(caret, point(1, 3));
    assert_eq!(
        selection,
        Some(VirtualTextSelection {
            start_line: 0,
            start_column_utf16: 0,
            end_line: 1,
            end_column_utf16: 3,
        })
    );
}

#[test]
fn select_all_of_empty_text_selects_nothing() {
    let buffer = TextBuffer::new(String::new());
    let mut caret = point(4, 4);
    let mut selection = None;
    select_all_virtual_text(&buffer, &mut caret, &mut selection);
    assert_eq!(caret, point(0, 0));
    assert_eq!(selection, None);
}

#[test]
fn copy_and_cut_hand_out_the_selected_text() {
    let buffer = TextBuffer::new("one\ntwo".to_string());
    let sel = VirtualTextSelection {
        start_line: 0,
        start_column_utf16: 1,
        end_line: 1,
        end_column_utf16: 1,
    };
    let mut caret = point(1, 1);
    let mut selection = Some(sel);
    let action = handle_virtual_text_key("c", ctrl(), &buffer, &mut caret, &mut selection);
    assert_eq!(action, VirtualTextKeyAction::Copy(Some("ne\nt".to_string())));
    assert_eq!(selection, Some(sel));

    let action = handle_virtual_text_key("x", ctrl(), &buffer, &mut caret, &mut selection);
    match action {
        VirtualTextKeyAction::Cut(Some(text), Some(r)) => {
            assert_eq!(text, "ne\nt");
            assert_eq!((r.start_line, r.start_column_utf16, r.end_line, r.end_column_utf16), (0, 1, 1, 1));
            assert_eq!(r.replacement, "");
        }
        _ => panic!("expected a cut"),
    }
    assert_eq!(caret, point(0, 1));
    assert_eq!(selection, None);

    let action = handle_virtual_text_key("x", ctrl(), &buffer, &mut caret, &mut selection);
    assert_eq!(action, VirtualTextKeyAction::Cut(None, None));
}

#[test]
fn shortcuts_without_state_changes() {
    let buffer = TextBuffer::new("ab".to_string());
    let mut caret = point(0, 1);
    let mut selection = None;
    let shift_ctrl = VirtualTextKeyModifiers {
        ctrl: true,
        shift: true,
        ..no_modifiers()
    };
    assert_eq!(handle_virtual_text_key("z", ctrl(), &buffer, &mut caret, &mut selection), VirtualTextKeyAction::Undo);
    assert_eq!(handle_virtual_text_key("z", shift_ctrl, &buffer, &mut caret, &mut selection), VirtualTextKeyAction::Redo);
    assert_eq!(handle_virtual_text_key("F", ctrl(), &buffer, &mut caret, &mut selection), VirtualTextKeyAction::ShowSearch);
    let paste = handle_virtual_text_key("v", ctrl(), &buffer, &mut caret, &mut selection);
    assert_eq!(paste, VirtualTextKeyAction::ClearInputSink);
    assert!(!virtual_text_key_prevents_default(&paste));
    let other = handle_virtual_text_key("k", no_modifiers(), &buffer, &mut caret, &mut selection);
    assert_eq!(other, VirtualTextKeyAction::Ignored);
    assert!(!virtual_text_key_prevents_default(&other));
    assert_eq!(caret, point(0, 1));
}

#[test]
fn escape_drops_the_selection() {
    let buffer = TextBuffer::new("ab".to_string());
    let mut caret = point(0, 2);
    let mut selection = Some(VirtualTextSelection {
        start_line: 0,
        start_column_utf16: 0,
        end_line: 0,
        end_column_utf16: 2,
    });
    let action = handle_virtual_text_key("Escape", no_modifiers(), &buffer, &mut caret, &mut selection);
    assert_eq!(action, VirtualTextKeyAction::SelectionCleared);
    assert_eq!(selection, None);
    assert_eq!(caret, point(0, 2));
}

#[test]
fn arrows_collapse_a_selection_to_its_ends() {
    let buffer = TextBuffer::new("one\ntwo\nthree".to_string());
    let sel = VirtualTextSelection {
        start_line: 2,
        start_column_utf16: 1,
        end_line: 0,
        end_column_utf16: 2,
    };
    let mut caret = point(0, 2);
    let mut selection = Some(sel);
    move_virtual_text_caret(&buffer, &mut caret, &mut selection, VirtualTextCaretKey::ArrowLeft, false);
    assert_eq!(caret, point(0, 2));
    assert_eq!(selection, None);

    let mut caret = point(0, 2);
    let mut selection = Some(sel);
    move_virtual_text_caret(&buffer, &mut caret, &mut selection, VirtualTextCaretKey::End, false);
    assert_eq!(caret, point(2, 1));
    assert_eq!(selection, None);
}

#[test]
fn shift_arrows_extend_from_the_anchor() {
    let buffer = TextBuffer::new("one\ntwo".to_string());
    let mut caret = point(0, 1);
    let mut selection = None;
    let shift = VirtualTextKeyModifiers {
        shift: true,
        ..no_modifiers()
    };
    let action = handle_virtual_text_key("ArrowRight", shift, &buffer, &mut caret, &mut selection);
    assert_eq!(action, VirtualTextKeyAction::CaretMoved);
    assert_eq!(caret, point(0, 2));
    assert_eq!(
        selection,
        Some(VirtualTextSelection {
            start_line: 0,
            start_column_utf16: 1,
            end_line: 0,
            end_column_utf16: 2,
        })
    );
    handle_virtual_text_key("ArrowDown", shift, &buffer, &mut caret, &mut selection);
    assert_eq!(caret, point(1, 2));
    assert_eq!(
        selection,
        Some(VirtualTextSelection {
            start_line: 0,
            start_column_utf16: 1,
            end_line: 1,
            end_column_utf16: 2,
        })
    );
    move_virtual_text_caret(&buffer, &mut caret, &mut selection, VirtualTextCaretKey::ArrowUp, true);
    move_virtual_text_caret(&buffer, &mut caret, &mut selection, VirtualTextCaretKey::ArrowLeft, true);
    assert_eq!(caret, point(0, 1));
    assert_eq!(selection, None);
}

#[test]
fn plain_arrows_clamp_and_move() {
    let buffer = TextBuffer::new("a😀\nb".to_string());
    let mut caret = point(9, 9);
    let mut selection = None;
    move_virtual_text_caret(&buffer, &mut caret, &mut selection, VirtualTextCaretKey::Home, false);
    assert_eq!(caret, point(1, 0));
    move_virtual_text_caret(&buffer, &mut caret, &mut selection, VirtualTextCaretKey::ArrowLeft, false);
    assert_eq!(caret, point(0, 3));
    move_virtual_text_caret(&buffer, &mut caret, &mut selection, VirtualTextCaretKey::ArrowLeft, false);
    assert_eq!(caret, point(0, 1));
}

#[test]
fn dragging_selects_from_the_press_point() {
    let mut drag = None;
    let mut caret = point(0, 0);
    let mut selection = None;
    start_virtual_text_drag(&mut drag, &mut caret, &mut selection, point(1, 2), false);
    assert_eq!(drag, Some(VirtualTextDrag { anchor: point(1, 2), active: false }));
    assert_eq!(caret, point(1, 2));
    assert_eq!(selection, None);

    update_virtual_text_drag(&mut drag, &mut caret, &mut selection, point(1, 2));
    assert_eq!(drag, Some(VirtualTextDrag { anchor: point(1, 2), active: false }));

    update_virtual_text_drag(&mut drag, &mut caret, &mut selection, point(0, 1));
    assert_eq!(drag, Some(VirtualTextDrag { anchor: point(1, 2), active: true }));
    assert_eq!(caret, point(0, 1));
    assert_eq!(
        selection,
        Some(VirtualTextSelection {
            start_line: 1,
            start_column_utf16: 2,
            end_line: 0,
            end_column_utf16: 1,
        })
    );
}

#[test]
fn shift_press_extends_the_current_selection() {
    let mut drag = None;
    let mut caret = point(0, 3);
    let mut selection = Some(VirtualTextSelection {
        start_line: 0,
        start_column_utf16: 1,
        end_line: 0,
        end_column_utf16: 3,
    });
    start_virtual_text_drag(&mut drag, &mut caret, &mut selection, point(2, 0), true);
    assert_eq!(drag, Some(VirtualTextDrag { anchor: point(0, 1), active: false }));
    assert_eq!(
        selection,
        Some(VirtualTextSelection {
            start_line: 0,
            start_column_utf16: 1,
            end_line: 2,
            end_column_utf16: 0,
        })
    );

    let mut no_drag = None;
    update_virtual_text_drag(&mut no_drag, &mut caret, &mut selection, point(5, 5));
    assert_eq!(caret, point(2, 0));
}

#[test]
fn committing_a_no_op_changes_nothing() {
    let buffer = TextBuffer::new("abc".to_string());
    let mut caret = point(0, 2);
    let mut selection = None;
    let noop = TextRangeReplacement {
        start_line: 0,
        start_column_utf16: 1,
        end_line: 0,
        end_column_utf16: 1,
        replacement: String::new(),
    };
    assert!(commit_virtual_text_replacement(&buffer, &mut caret, &mut selection, noop).is_none());
    assert_eq!(caret, point(0, 2));

    let r = replace_virtual_text_selection_or_caret(&buffer, &mut caret, &mut selection, "xy\nz".to_string());
    let r = r.expect("an insertion");
    assert_eq!(r.replacement, "xy\nz");
    // The caret lands after the inserted text, kept inside the text as it was.
    assert_eq!(caret, point(0, 1));

    let mut caret = point(0, 3);
    let deleted = delete_virtual_text_selection_or_adjacent(&buffer, &mut caret, &mut selection, VirtualTextDeleteDirection::Forward);
    assert!(deleted.is_none());
}

#[test]
fn right_then_left_returns_to_the_same_point() {
    let buffer = TextBuffer::new("a😀\n\nb".to_string());
    for p in [point(0, 0), point(0, 1), point(0, 3), point(1, 0), point(2, 0), point(2, 1)] {
        if let Some(q) = virtual_text_next_point(&buffer, p) {
            assert_eq!(virtual_text_previous_point(&buffer, q), Some(p));
        }
        if let Some(q) = virtual_text_previous_point(&buffer, p) {
            assert_eq!(virtual_text_next_point(&buffer, q), Some(p));
        }
    }
    assert_eq!(virtual_text_next_point(&buffer, point(2, 1)), None);
    assert_eq!(virtual_text_previous_point(&buffer, point(0, 0)), None);
}
