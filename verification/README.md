# rton_editor

The editing core of an RTON/JSON/YAML/TOML editor, written in Verus: the
virtual text editor's caret, selection, keyboard and mouse handling, range
edits with their undo and redo replacements, byte edits of the hex view,
line wrapping and scrolling, the text search's navigation and replacement,
and the workspace's tabs and file-panel items. Verus checks the functions
in `src/` against their contracts. Two kinds have none: the loaded-files
fingerprint, whose digest depends on the standard hasher and the machine
(what it hashes is stated by `loaded_files_fingerprint_fields`), and the four
trusted wrappers through which it feeds the hasher.

Layout:

- `src/text_metrics.rs`, `src/text_lines.rs`, `src/text_buffer.rs`: UTF-8 and
  UTF-16 widths, the line structure of a text, and the indexed text buffer.
- `src/virtual_text.rs`, `src/virtual_text_edit.rs`, `src/virtual_text_input.rs`:
  caret positions and selections, the pieces a line is drawn in, caret moves,
  and the answer to each key press or drag.
- `src/range_edit.rs`, `src/text_history.rs`, `src/editor_tab.rs`,
  `src/editing.rs`: range replacements, undo/redo stacks, byte edit batches,
  and the edits, undos and redos of the active tab, with their laws.
- `src/text_layout.rs`, `src/editor_view.rs`: wrapping, scrolling and the
  choices the editor stage makes.
- `src/text_search.rs`, `src/snapshot.rs`: search navigation, jumps and
  replacement; the search bar's and file panel's state.
- `src/workspace.rs`, `src/tab_actions.rs`, `src/document_actions.rs`:
  closing, removing, reordering and activating tabs and file-panel items;
  opening loaded files and jumping to value paths.
- `src/mode_switch.rs`, `src/value_tree.rs`: switching a tab between its
  RTON bytes and its text modes through the surfaces it keeps, and the value
  tree's expanded paths.
- `src/file_summary.rs`: the input and output summaries shown for a file.
- `app/`: the floating-point edge (browser measurements and labels).
- `tests/`: scenarios run against the compiled library.
