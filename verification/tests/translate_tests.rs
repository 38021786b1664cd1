use lsp_core::line_index::{LineCol, LineIndex};
use lsp_core::translate::{translate_offset_with_edit, AtomEdit, TextRange};

fn index_of(text: &str) -> LineIndex {
    LineIndex::new(text.as_bytes().to_vec())
}

fn edit(start: usize, end: usize, insert: &str) -> AtomEdit {
    AtomEdit { delete: TextRange { start, end }, insert: insert.as_bytes().to_vec() }
}

#[test]
fn empty_edit_list_equals_plain_translation() {
    let text = "one\ntwo\nthree";
    let ix = index_of(text);
    let edits: Vec<AtomEdit> = Vec::new();
    for (o, _) in text.char_indices() {
        assert_eq!(translate_offset_with_edit(&ix, o, &edits), ix.line_col(o));
    }
}

#[test]
fn offset_at_edit_start_maps_to_pre_edit_position_of_start() {
    let ix = index_of("ab\ncd");
    let edits = vec![edit(4, 4, "x")];
    assert_eq!(translate_offset_with_edit(&ix, 4, &edits), ix.line_col(4));
    assert_eq!(translate_offset_with_edit(&ix, 4, &edits), LineCol { line: 1, col_utf16: 1 });
}

#[test]
fn offset_outside_edit_region_uses_plain_translation() {
    let ix = index_of("ab\ncd");
    // the edit rewrites [1, 1+3]; offset 0 is before, offset 5 after
    let edits = vec![edit(1, 2, "xyz")];
    assert_eq!(translate_offset_with_edit(&ix, 0, &edits), ix.line_col(0));
    assert_eq!(translate_offset_with_edit(&ix, 5, &edits), ix.line_col(5));
}

#[test]
fn offset_inside_single_line_insert_shifts_column() {
    let ix = index_of("ab\ncd");
    // insert "xy" at offset 4 (line 1, col 1); offset 5 is one unit into it
    let edits = vec![edit(4, 4, "xy")];
    assert_eq!(translate_offset_with_edit(&ix, 5, &edits), LineCol { line: 1, col_utf16: 2 });
}

#[test]
fn offset_inside_multi_line_insert_counts_from_inserted_break() {
    let ix = index_of("ab\ncd");
    // insert "x\ny" at offset 1 (line 0, col 1): offset 3 sits right after
    // the inserted break, offset 4 one unit further
    let edits = vec![edit(1, 1, "x\ny")];
    assert_eq!(translate_offset_with_edit(&ix, 3, &edits), LineCol { line: 1, col_utf16: 0 });
    assert_eq!(translate_offset_with_edit(&ix, 4, &edits), LineCol { line: 1, col_utf16: 1 });
}

#[test]
fn only_the_first_edit_is_examined() {
    let ix = index_of("ab\ncd");
    let edits = vec![edit(0, 0, ""), edit(4, 4, "zzzz")];
    // offset 4 is outside the first (empty) edit region, so the plain
    // pre-edit mapping answers, whatever later edits say
    assert_eq!(translate_offset_with_edit(&ix, 4, &edits), ix.line_col(4));
}
