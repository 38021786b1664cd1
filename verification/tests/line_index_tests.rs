use lsp_core::line_index::{LineCol, LineIndex};

fn index_of(text: &str) -> LineIndex {
    LineIndex::new(text.as_bytes().to_vec())
}

#[test]
fn line_col_simple_text() {
    let ix = index_of("a\nb\n");
    assert_eq!(ix.line_col(0), LineCol { line: 0, col_utf16: 0 });
    assert_eq!(ix.line_col(1), LineCol { line: 0, col_utf16: 1 });
    assert_eq!(ix.line_col(2), LineCol { line: 1, col_utf16: 0 });
    assert_eq!(ix.line_col(3), LineCol { line: 1, col_utf16: 1 });
    assert_eq!(ix.line_col(4), LineCol { line: 2, col_utf16: 0 });
}

#[test]
fn offset_round_trip_ascii() {
    let text = "hello\nworld\n\nlast line";
    let ix = index_of(text);
    for (o, _) in text.char_indices() {
        let lc = ix.line_col(o);
        assert_eq!(ix.offset(lc), o);
    }
    let end = ix.line_col(text.len());
    assert_eq!(ix.offset(end), text.len());
}

#[test]
fn offset_round_trip_multibyte() {
    // two-byte, three-byte and four-byte characters mixed with breaks
    let text = "aé\n\u{2603}x\n\u{10400}b";
    let ix = index_of(text);
    for (o, _) in text.char_indices() {
        let lc = ix.line_col(o);
        assert_eq!(ix.offset(lc), o, "offset {o}");
    }
}

#[test]
fn four_byte_char_advances_column_by_two() {
    // U+10400 is four bytes of UTF-8 and a surrogate pair in UTF-16
    let text = "\u{10400}b";
    let ix = index_of(text);
    assert_eq!(ix.line_col(0), LineCol { line: 0, col_utf16: 0 });
    assert_eq!(ix.line_col(4), LineCol { line: 0, col_utf16: 2 });
    assert_eq!(ix.line_col(5), LineCol { line: 0, col_utf16: 3 });
}

#[test]
fn three_byte_char_advances_column_by_one() {
    let text = "\u{2603}b";
    let ix = index_of(text);
    assert_eq!(ix.line_col(3), LineCol { line: 0, col_utf16: 1 });
}

#[test]
fn try_offset_rejects_position_off_any_boundary() {
    let ix = index_of("ab\ncd");
    assert_eq!(ix.try_offset(LineCol { line: 0, col_utf16: 1 }), Some(1));
    assert_eq!(ix.try_offset(LineCol { line: 1, col_utf16: 2 }), Some(5));
    assert_eq!(ix.try_offset(LineCol { line: 0, col_utf16: 9 }), None);
    assert_eq!(ix.try_offset(LineCol { line: 7, col_utf16: 0 }), None);
}

#[test]
fn empty_text() {
    let ix = index_of("");
    assert_eq!(ix.line_col(0), LineCol { line: 0, col_utf16: 0 });
    assert_eq!(ix.offset(LineCol { line: 0, col_utf16: 0 }), 0);
}
