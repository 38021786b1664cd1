use lsp_core::conv::{
    to_location, Conv, ConvWith, FilePosition, FileSystemEdit, Position, ProtocolFileSystemEdit,
    Range, SourceChange, SourceFileNodeEdit, SymbolKind, SyntaxKind, TextDocumentIdentifier,
    TextDocumentPositionParams, TryConvWith,
};
use lsp_core::line_index::LineIndex;
use lsp_core::translate::{AtomEdit, TextRange};
use lsp_core::vfs::FileId;
use lsp_core::world::WorldState;

fn b(s: &str) -> Vec<u8> {
    s.as_bytes().to_vec()
}

fn index_of(text: &str) -> LineIndex {
    LineIndex::new(b(text))
}

fn world_with(files: &[(&str, &str)]) -> WorldState {
    let mut world = WorldState::new(b("/ws"), 0);
    for (path, text) in files {
        world.vfs.add_file_overlay(&b(path), b(text));
    }
    world
}

#[test]
fn syntax_kinds_map_to_symbol_kinds() {
    assert_eq!(SyntaxKind::FnDef.conv(), SymbolKind::Function);
    assert_eq!(SyntaxKind::StructDef.conv(), SymbolKind::Struct);
    assert_eq!(SyntaxKind::EnumDef.conv(), SymbolKind::Enum);
    assert_eq!(SyntaxKind::TraitDef.conv(), SymbolKind::Interface);
    assert_eq!(SyntaxKind::Module.conv(), SymbolKind::Module);
    assert_eq!(SyntaxKind::TypeDef.conv(), SymbolKind::TypeParameter);
    assert_eq!(SyntaxKind::StaticDef.conv(), SymbolKind::Constant);
    assert_eq!(SyntaxKind::ConstDef.conv(), SymbolKind::Constant);
    assert_eq!(SyntaxKind::ImplItem.conv(), SymbolKind::Object);
    assert_eq!(SyntaxKind::Other.conv(), SymbolKind::Variable);
}

#[test]
fn positions_and_offsets_convert_both_ways() {
    let ix = index_of("ab\ncd");
    let pos = Position { line: 1, character: 1 };
    let offset: usize = pos.conv_with(&ix);
    assert_eq!(offset, 4);
    let back: Position = 4usize.conv_with(&ix);
    assert_eq!(back, pos);
}

#[test]
fn ranges_convert_both_ways() {
    let ix = index_of("ab\ncd");
    let range = TextRange { start: 1, end: 4 };
    let protocol: Range = range.conv_with(&ix);
    assert_eq!(protocol.start, Position { line: 0, character: 1 });
    assert_eq!(protocol.end, Position { line: 1, character: 1 });
    let back: TextRange = protocol.conv_with(&ix);
    assert_eq!(back, range);
}

#[test]
fn uris_resolve_to_files_and_back() {
    let world = world_with(&[("/ws/a.rs", "text")]).snapshot();
    let uri = b("file:///ws/a.rs");
    let id = (&uri).try_conv_with(&world).unwrap();
    assert_eq!(id, FileId(0));
    let back = id.try_conv_with(&world).unwrap();
    assert_eq!(back, uri);
    assert!((&b("notafile")).try_conv_with(&world).is_err());
    assert!((&b("file:///ws/missing.rs")).try_conv_with(&world).is_err());
    assert!(FileId(9).try_conv_with(&world).is_err());
}

#[test]
fn document_positions_resolve_to_file_offsets() {
    let world = world_with(&[("/ws/a.rs", "ab\ncd")]).snapshot();
    let params = TextDocumentPositionParams {
        text_document: TextDocumentIdentifier { uri: b("file:///ws/a.rs") },
        position: Position { line: 1, character: 2 },
    };
    let fp = (&params).try_conv_with(&world).unwrap();
    assert_eq!(fp, FilePosition { file_id: FileId(0), offset: 5 });
    let bad = TextDocumentPositionParams {
        text_document: TextDocumentIdentifier { uri: b("file:///ws/a.rs") },
        position: Position { line: 4, character: 0 },
    };
    assert!((&bad).try_conv_with(&world).is_err());
}

#[test]
fn filesystem_edits_join_onto_the_anchor_uri() {
    let world = world_with(&[("/ws/dir/mod.rs", "")]).snapshot();
    let edit = FileSystemEdit::CreateFile { anchor: FileId(0), path: b("../new.rs") };
    match edit.try_conv_with(&world).unwrap() {
        ProtocolFileSystemEdit::CreateFile { uri } => {
            assert_eq!(uri, b("file:///ws/dir/new.rs"));
        }
        _ => panic!("wrong shape"),
    }
    let mv = FileSystemEdit::MoveFile { file: FileId(0), path: b("../renamed.rs") };
    match mv.try_conv_with(&world).unwrap() {
        ProtocolFileSystemEdit::MoveFile { src, dst } => {
            assert_eq!(src, b("file:///ws/dir/mod.rs"));
            assert_eq!(dst, b("file:///ws/dir/renamed.rs"));
        }
        _ => panic!("wrong shape"),
    }
}

#[test]
fn source_file_edits_carry_ranges_and_text() {
    let world = world_with(&[("/ws/a.rs", "ab\ncd")]).snapshot();
    let edit = SourceFileNodeEdit {
        file_id: FileId(0),
        edits: vec![AtomEdit { delete: TextRange { start: 3, end: 5 }, insert: b("xy") }],
    };
    let out = edit.try_conv_with(&world).unwrap();
    assert_eq!(out.text_document.uri, b("file:///ws/a.rs"));
    assert_eq!(out.text_document.version, None);
    assert_eq!(out.edits.len(), 1);
    assert_eq!(out.edits[0].range.start, Position { line: 1, character: 0 });
    assert_eq!(out.edits[0].range.end, Position { line: 1, character: 2 });
    assert_eq!(out.edits[0].new_text, b("xy"));
}

#[test]
fn source_change_repositions_the_cursor_inside_its_edit() {
    let world = world_with(&[("/ws/a.rs", "ab\ncd")]).snapshot();
    let change = SourceChange {
        label: "insert".to_owned(),
        source_file_edits: vec![SourceFileNodeEdit {
            file_id: FileId(0),
            edits: vec![AtomEdit { delete: TextRange { start: 4, end: 4 }, insert: b("xy") }],
        }],
        file_system_edits: Vec::new(),
        cursor_position: Some(FilePosition { file_id: FileId(0), offset: 5 }),
    };
    let out = change.try_conv_with(&world).unwrap();
    assert_eq!(out.label, "insert");
    assert_eq!(out.source_file_edits.len(), 1);
    let cursor = out.cursor_position.unwrap();
    assert_eq!(cursor.text_document.uri, b("file:///ws/a.rs"));
    // offset 5 is one unit into the insert at (line 1, col 1)
    assert_eq!(cursor.position, Position { line: 1, character: 2 });
}

#[test]
fn source_change_without_cursor_has_none() {
    let world = world_with(&[("/ws/a.rs", "ab")]).snapshot();
    let change = SourceChange {
        label: "nothing".to_owned(),
        source_file_edits: Vec::new(),
        file_system_edits: Vec::new(),
        cursor_position: None,
    };
    let out = change.try_conv_with(&world).unwrap();
    assert!(out.cursor_position.is_none());
}

#[test]
fn locations_name_the_file_and_its_range() {
    let world = world_with(&[("/ws/a.rs", "ab\ncd")]).snapshot();
    let ix = index_of("ab\ncd");
    let loc = to_location(FileId(0), TextRange { start: 0, end: 2 }, &world, &ix).unwrap();
    assert_eq!(loc.uri, b("file:///ws/a.rs"));
    assert_eq!(loc.range.start, Position { line: 0, character: 0 });
    assert_eq!(loc.range.end, Position { line: 0, character: 2 });
    assert!(to_location(FileId(3), TextRange { start: 0, end: 0 }, &world, &ix).is_err());
}
