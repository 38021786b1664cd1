//! Conversions between the engine's types (byte offsets and ranges, file
//! identities, source changes) and the protocol's (line/column positions,
//! uris, document edits).
//!
//! Each conversion trait carries its own contract: `conv_pre` says on which
//! inputs the conversion is defined, `conv_ok` what the result is. An
//! implementation states both exactly, so going through the trait loses
//! nothing.

use vstd::prelude::*;

use crate::line_index::{is_boundary, spec_col, spec_line, LineCol, LineIndex, MAX_TEXT_LEN};
use crate::translate::{spec_translate, translate_offset_with_edit, translate_pre, AtomEdit};
use crate::uri::spec_uri_to_path;
use crate::vfs::{spec_find, FileId};
use crate::world::{snapshot_text, WorldSnapshot};

verus! {

/// A context-free conversion.
pub trait Conv: Sized {
    type Output;

    /// What the conversion returns.
    spec fn conv_ok(&self, r: &Self::Output) -> bool;

    fn conv(self) -> (r: Self::Output)
        ensures
            self.conv_ok(&r),
    ;
}

/// A conversion that reads a context.
pub trait ConvWith: Sized {
    type Ctx;

    type Output;

    /// The inputs the conversion is defined on.
    spec fn conv_pre(&self, ctx: &Self::Ctx) -> bool;

    /// What the conversion returns.
    spec fn conv_ok(&self, ctx: &Self::Ctx, r: &Self::Output) -> bool;

    fn conv_with(self, ctx: &Self::Ctx) -> (r: Self::Output)
        requires
            self.conv_pre(ctx),
        ensures
            self.conv_ok(ctx, &r),
    ;
}

/// A conversion that reads a context and may fail.
pub trait TryConvWith: Sized {
    type Ctx;

    type Output;

    /// The inputs the conversion is defined on.
    spec fn conv_pre(&self, ctx: &Self::Ctx) -> bool;

    /// What the conversion returns, successful or not.
    spec fn conv_ok(&self, ctx: &Self::Ctx, r: &Result<Self::Output, String>) -> bool;

    fn try_conv_with(self, ctx: &Self::Ctx) -> (r: Result<Self::Output, String>)
        requires
            self.conv_pre(ctx),
        ensures
            self.conv_ok(ctx, &r),
    ;
}

/// Syntactic category of a node, as the engine reports it.
#[derive(Clone, Copy, PartialEq, Eq, Structural, Debug)]
pub enum SyntaxKind {
    FnDef,
    StructDef,
    EnumDef,
    TraitDef,
    Module,
    TypeDef,
    StaticDef,
    ConstDef,
    ImplItem,
    Other,
}

/// Symbol category of the protocol.
#[derive(Clone, Copy, PartialEq, Eq, Structural, Debug)]
pub enum SymbolKind {
    Function,
    Struct,
    Enum,
    Interface,
    Module,
    TypeParameter,
    Constant,
    Object,
    Variable,
}

/// The protocol symbol kind shown for a syntactic category; anything
/// without a counterpart is shown as a variable.
pub open spec fn symbol_kind_of(kind: SyntaxKind) -> SymbolKind {
    match kind {
        SyntaxKind::FnDef => SymbolKind::Function,
        SyntaxKind::StructDef => SymbolKind::Struct,
        SyntaxKind::EnumDef => SymbolKind::Enum,
        SyntaxKind::TraitDef => SymbolKind::Interface,
        SyntaxKind::Module => SymbolKind::Module,
        SyntaxKind::TypeDef => SymbolKind::TypeParameter,
        SyntaxKind::StaticDef => SymbolKind::Constant,
        SyntaxKind::ConstDef => SymbolKind::Constant,
        SyntaxKind::ImplItem => SymbolKind::Object,
        SyntaxKind::Other => SymbolKind::Variable,
    }
}

impl Conv for SyntaxKind {
    type Output = SymbolKind;

    open spec fn conv_ok(&self, r: &SymbolKind) -> bool {
        *r == symbol_kind_of(*self)
    }

    fn conv(self) -> (r: SymbolKind) {
        match self {
            SyntaxKind::FnDef => SymbolKind::Function,
            SyntaxKind::StructDef => SymbolKind::Struct,
            SyntaxKind::EnumDef => SymbolKind::Enum,
            SyntaxKind::TraitDef => SymbolKind::Interface,
            SyntaxKind::Module => SymbolKind::Module,
            SyntaxKind::TypeDef => SymbolKind::TypeParameter,
            SyntaxKind::StaticDef => SymbolKind::Constant,
            SyntaxKind::ConstDef => SymbolKind::Constant,
            SyntaxKind::ImplItem => SymbolKind::Object,
            SyntaxKind::Other => SymbolKind::Variable,
        }
    }
}

/// A protocol position: line and UTF-16 column.
#[derive(Clone, Copy, PartialEq, Eq, Structural, Debug)]
pub struct Position {
    pub line: u64,
    pub character: u64,
}

/// A protocol range between two positions.
#[derive(Clone, Copy, PartialEq, Eq, Structural, Debug)]
pub struct Range {
    pub start: Position,
    pub end: Position,
}

/// A protocol text edit.
pub struct TextEdit {
    pub range: Range,
    pub new_text: Vec<u8>,
}

/// A protocol location: a document and a range in it.
pub struct Location {
    pub uri: Vec<u8>,
    pub range: Range,
}

/// `pos` is the protocol position of byte offset `o` in `s`.
pub open spec fn position_of(s: Seq<u8>, o: int, pos: Position) -> bool {
    pos.line == spec_line(s, o) && pos.character == spec_col(s, o)
}

impl ConvWith for Position {
    type Ctx = LineIndex;

    type Output = usize;

    /// Some character boundary of the text carries this position.
    open spec fn conv_pre(&self, line_index: &LineIndex) -> bool {
        exists|o: int| is_boundary(line_index@, o) && position_of(line_index@, o, *self)
    }

    open spec fn conv_ok(&self, line_index: &LineIndex, r: &usize) -> bool {
        is_boundary(line_index@, *r as int) && position_of(line_index@, *r as int, *self)
    }

    fn conv_with(self, line_index: &LineIndex) -> (r: usize) {
        let ghost o = choose|o: int|
            is_boundary(line_index@, o) && position_of(line_index@, o, self);
        proof {
            use_type_invariant(line_index);
            crate::line_index::lemma_line_le_offset(line_index@, o);
            crate::line_index::lemma_col_le_twice_offset(line_index@, o);
        }
        let line_col = LineCol { line: self.line as u32, col_utf16: self.character as u32 };
        proof {
            assert(line_col.line == spec_line(line_index@, o));
            assert(line_col.col_utf16 == spec_col(line_index@, o));
        }
        line_index.offset(line_col)
    }
}

impl ConvWith for usize {
    type Ctx = LineIndex;

    type Output = Position;

    /// The offset lies within the text.
    open spec fn conv_pre(&self, line_index: &LineIndex) -> bool {
        *self <= line_index@.len()
    }

    open spec fn conv_ok(&self, line_index: &LineIndex, r: &Position) -> bool {
        position_of(line_index@, *self as int, *r)
    }

    fn conv_with(self, line_index: &LineIndex) -> (r: Position) {
        let line_col = line_index.line_col(self);
        Position { line: line_col.line as u64, character: line_col.col_utf16 as u64 }
    }
}

impl ConvWith for crate::translate::TextRange {
    type Ctx = LineIndex;

    type Output = Range;

    open spec fn conv_pre(&self, line_index: &LineIndex) -> bool {
        self.start <= line_index@.len() && self.end <= line_index@.len()
    }

    open spec fn conv_ok(&self, line_index: &LineIndex, r: &Range) -> bool {
        position_of(line_index@, self.start as int, r.start) && position_of(
            line_index@,
            self.end as int,
            r.end,
        )
    }

    fn conv_with(self, line_index: &LineIndex) -> (r: Range) {
        Range {
            start: self.start.conv_with(line_index),
            end: self.end.conv_with(line_index),
        }
    }
}

impl ConvWith for Range {
    type Ctx = LineIndex;

    type Output = crate::translate::TextRange;

    open spec fn conv_pre(&self, line_index: &LineIndex) -> bool {
        self.start.conv_pre(line_index) && self.end.conv_pre(line_index)
    }

    open spec fn conv_ok(&self, line_index: &LineIndex, r: &crate::translate::TextRange) -> bool {
        self.start.conv_ok(line_index, &r.start) && self.end.conv_ok(line_index, &r.end)
    }

    fn conv_with(self, line_index: &LineIndex) -> (r: crate::translate::TextRange) {
        crate::translate::TextRange {
            start: self.start.conv_with(line_index),
            end: self.end.conv_with(line_index),
        }
    }
}

impl ConvWith for AtomEdit {
    type Ctx = LineIndex;

    type Output = TextEdit;

    open spec fn conv_pre(&self, line_index: &LineIndex) -> bool {
        self.delete.start <= line_index@.len() && self.delete.end <= line_index@.len()
    }

    open spec fn conv_ok(&self, line_index: &LineIndex, r: &TextEdit) -> bool {
        self.delete.conv_ok(line_index, &r.range) && r.new_text == self.insert
    }

    fn conv_with(self, line_index: &LineIndex) -> (r: TextEdit) {
        TextEdit { range: self.delete.conv_with(line_index), new_text: self.insert }
    }
}

impl<T: ConvWith> ConvWith for Option<T> {
    type Ctx = <T as ConvWith>::Ctx;

    type Output = Option<<T as ConvWith>::Output>;

    open spec fn conv_pre(&self, ctx: &Self::Ctx) -> bool {
        match self {
            Some(x) => x.conv_pre(ctx),
            None => true,
        }
    }

    open spec fn conv_ok(&self, ctx: &Self::Ctx, r: &Self::Output) -> bool {
        match (self, r) {
            (Some(x), Some(y)) => x.conv_ok(ctx, y),
            (None, None) => true,
            _ => false,
        }
    }

    fn conv_with(self, ctx: &Self::Ctx) -> (r: Self::Output) {
        match self {
            Some(x) => Some(x.conv_with(ctx)),
            None => None,
        }
    }
}

/// A protocol document identifier.
pub struct TextDocumentIdentifier {
    pub uri: Vec<u8>,
}

/// A protocol document identifier with an optional version.
pub struct VersionedTextDocumentIdentifier {
    pub uri: Vec<u8>,
    pub version: Option<u64>,
}

/// A protocol document with its text, as an open notification carries it.
pub struct TextDocumentItem {
    pub uri: Vec<u8>,
    pub text: Vec<u8>,
}

/// A protocol (document, position) pair.
pub struct TextDocumentPositionParams {
    pub text_document: TextDocumentIdentifier,
    pub position: Position,
}

/// An engine-side (file, byte offset) pair.
#[derive(Clone, Copy, PartialEq, Eq, Structural, Debug)]
pub struct FilePosition {
    pub file_id: FileId,
    pub offset: usize,
}

/// The uri resolves to a file the snapshot tracks.
pub open spec fn uri_resolves(world: &WorldSnapshot, uri: Seq<u8>, f: FileId) -> bool {
    spec_uri_to_path(uri) matches Some(p) && spec_find(world.vfs@, p) == Some(f.0 as int) && f.0
        < world.vfs@.len()
}

/// The uri names no local path, or a path the snapshot does not track.
pub open spec fn uri_unresolved(world: &WorldSnapshot, uri: Seq<u8>) -> bool {
    match spec_uri_to_path(uri) {
        None => true,
        Some(p) => spec_find(world.vfs@, p) is None,
    }
}

/// The file a resolvable uri names.
pub open spec fn resolved_file_of(world: &WorldSnapshot, uri: Seq<u8>) -> FileId
    recommends
        !uri_unresolved(world, uri),
{
    FileId(spec_find(world.vfs@, spec_uri_to_path(uri).unwrap()).unwrap() as u32)
}

/// What a uri-to-file conversion returns: the tracked file on success, an
/// error exactly when the uri is no local path or names no tracked file.
pub open spec fn uri_conv_ok(world: &WorldSnapshot, uri: Seq<u8>, r: &Result<FileId, String>) -> bool {
    match r {
        Ok(f) => uri_resolves(world, uri, *f),
        Err(_) => spec_uri_to_path(uri) is None || (spec_uri_to_path(uri) matches Some(p)
            && spec_find(world.vfs@, p) is None),
    }
}

impl<'a> TryConvWith for &'a Vec<u8> {
    type Ctx = WorldSnapshot;

    type Output = FileId;

    open spec fn conv_pre(&self, world: &WorldSnapshot) -> bool {
        world.vfs.wf()
    }

    open spec fn conv_ok(&self, world: &WorldSnapshot, r: &Result<FileId, String>) -> bool {
        uri_conv_ok(world, self@, r)
    }

    fn try_conv_with(self, world: &WorldSnapshot) -> (r: Result<FileId, String>) {
        world.uri_to_file_id(self)
    }
}

impl TryConvWith for FileId {
    type Ctx = WorldSnapshot;

    type Output = Vec<u8>;

    open spec fn conv_pre(&self, world: &WorldSnapshot) -> bool {
        true
    }

    open spec fn conv_ok(&self, world: &WorldSnapshot, r: &Result<Vec<u8>, String>) -> bool {
        match r {
            Ok(u) => self.0 < world.vfs@.len() && u@ == crate::uri::spec_path_to_uri(
                world.vfs@[self.0 as int].path,
            ),
            Err(_) => self.0 >= world.vfs@.len(),
        }
    }

    fn try_conv_with(self, world: &WorldSnapshot) -> (r: Result<Vec<u8>, String>) {
        world.file_id_to_uri(self)
    }
}

impl<'a> TryConvWith for &'a TextDocumentItem {
    type Ctx = WorldSnapshot;

    type Output = FileId;

    open spec fn conv_pre(&self, world: &WorldSnapshot) -> bool {
        world.vfs.wf()
    }

    open spec fn conv_ok(&self, world: &WorldSnapshot, r: &Result<FileId, String>) -> bool {
        uri_conv_ok(world, self.uri@, r)
    }

    fn try_conv_with(self, world: &WorldSnapshot) -> (r: Result<FileId, String>) {
        world.uri_to_file_id(&self.uri)
    }
}

impl<'a> TryConvWith for &'a VersionedTextDocumentIdentifier {
    type Ctx = WorldSnapshot;

    type Output = FileId;

    open spec fn conv_pre(&self, world: &WorldSnapshot) -> bool {
        world.vfs.wf()
    }

    open spec fn conv_ok(&self, world: &WorldSnapshot, r: &Result<FileId, String>) -> bool {
        uri_conv_ok(world, self.uri@, r)
    }

    fn try_conv_with(self, world: &WorldSnapshot) -> (r: Result<FileId, String>) {
        world.uri_to_file_id(&self.uri)
    }
}

impl<'a> TryConvWith for &'a TextDocumentIdentifier {
    type Ctx = WorldSnapshot;

    type Output = FileId;

    open spec fn conv_pre(&self, world: &WorldSnapshot) -> bool {
        world.vfs.wf()
    }

    open spec fn conv_ok(&self, world: &WorldSnapshot, r: &Result<FileId, String>) -> bool {
        uri_conv_ok(world, self.uri@, r)
    }

    fn try_conv_with(self, world: &WorldSnapshot) -> (r: Result<FileId, String>) {
        world.uri_to_file_id(&self.uri)
    }
}

/// Why a (document, position) pair fails to resolve: the uri names no
/// tracked file, the file's text is beyond the translator's size bound,
/// the position does not fit the protocol's u32 range, or no character
/// boundary of the text carries it.
pub open spec fn position_params_failure(
    world: &WorldSnapshot,
    params: &TextDocumentPositionParams,
) -> bool {
    if uri_unresolved(world, params.text_document.uri@) {
        true
    } else {
        let f = resolved_file_of(world, params.text_document.uri@);
        let text = snapshot_text(world.vfs@, f);
        ||| text.len() > MAX_TEXT_LEN
        ||| params.position.line > 0xffff_ffff
        ||| params.position.character > 0xffff_ffff
        ||| !(exists|o: int| is_boundary(text, o) && position_of(text, o, params.position))
    }
}

impl<'a> TryConvWith for &'a TextDocumentPositionParams {
    type Ctx = WorldSnapshot;

    type Output = FilePosition;

    open spec fn conv_pre(&self, world: &WorldSnapshot) -> bool {
        world.vfs.wf()
    }

    /// On success the document resolved and the offset is the boundary that
    /// carries the requested position in the document's current text;
    /// failure exactly on `position_params_failure`.
    open spec fn conv_ok(&self, world: &WorldSnapshot, r: &Result<FilePosition, String>) -> bool {
        match r {
            Ok(fp) => !position_params_failure(world, *self) && uri_resolves(
                world,
                self.text_document.uri@,
                fp.file_id,
            ) && is_boundary(snapshot_text(world.vfs@, fp.file_id), fp.offset as int)
                && position_of(
                snapshot_text(world.vfs@, fp.file_id),
                fp.offset as int,
                self.position,
            ),
            Err(_) => position_params_failure(world, *self),
        }
    }

    fn try_conv_with(self, world: &WorldSnapshot) -> (r: Result<FilePosition, String>) {
        let file_id = match world.uri_to_file_id(&self.text_document.uri) {
            Ok(f) => f,
            Err(e) => {
                return Err(e);
            },
        };
        proof {
            assert(!uri_unresolved(world, self.text_document.uri@));
            assert(resolved_file_of(world, self.text_document.uri@) == file_id);
        }
        let line_index = match world.file_line_index(file_id) {
            Some(ix) => ix,
            None => {
                return Err("file too large".to_owned());
            },
        };
        proof {
            use_type_invariant(&line_index);
        }
        if self.position.line > 0xffff_ffffu64 || self.position.character > 0xffff_ffffu64 {
            return Err("position out of range".to_owned());
        }
        let line_col = LineCol {
            line: self.position.line as u32,
            col_utf16: self.position.character as u32,
        };
        match line_index.try_offset(line_col) {
            Some(offset) => Ok(FilePosition { file_id, offset }),
            None => Err("position out of range".to_owned()),
        }
    }
}

/// Every element before index `i` converts, to the corresponding entry of
/// `outs`.
pub open spec fn prefix_converts<T: TryConvWith>(
    v: &Vec<T>,
    ctx: &T::Ctx,
    outs: Seq<<T as TryConvWith>::Output>,
    i: int,
) -> bool {
    forall|k: int| 0 <= k < i ==> #[trigger] v@[k].conv_ok(ctx, &Ok(outs[k]))
}

/// The first failing element's own conversion fails with this error: some
/// element admits the returned error while every element before it
/// converts, so a list conversion never fails unconditionally and the
/// error returned is the first failing element's.
pub open spec fn vec_conv_failed<T: TryConvWith>(v: &Vec<T>, ctx: &T::Ctx, e: &String) -> bool {
    exists|i: int, outs: Seq<<T as TryConvWith>::Output>|
        0 <= i < v@.len() && v@[i].conv_ok(ctx, &Err(*e)) && #[trigger] prefix_converts(
            v,
            ctx,
            outs,
            i,
        )
}

impl<T: TryConvWith> TryConvWith for Vec<T> {
    type Ctx = <T as TryConvWith>::Ctx;

    type Output = Vec<<T as TryConvWith>::Output>;

    open spec fn conv_pre(&self, ctx: &Self::Ctx) -> bool {
        forall|i: int| 0 <= i < self@.len() ==> #[trigger] self@[i].conv_pre(ctx)
    }

    /// On success, element by element; a failure is some element's own
    /// failure, so a conversion that always fails is ruled out.
    open spec fn conv_ok(&self, ctx: &Self::Ctx, r: &Result<Self::Output, String>) -> bool {
        match r {
            Ok(out) => out@.len() == self@.len() && (forall|i: int|
                0 <= i < self@.len() ==> #[trigger] self@[i].conv_ok(ctx, &Ok(out@[i]))),
            Err(e) => vec_conv_failed(self, ctx, e),
        }
    }

    #[verifier::loop_isolation(false)]
    fn try_conv_with(self, ctx: &Self::Ctx) -> (r: Result<Self::Output, String>) {
        let ghost original = self@;
        let mut out: Vec<<T as TryConvWith>::Output> = Vec::new();
        let mut items = self;
        while items.len() > 0
            invariant
                out@.len() + items@.len() == original.len(),
                items@ == original.subrange(out@.len() as int, original.len() as int),
                forall|k: int| 0 <= k < original.len() ==> #[trigger] original[k].conv_pre(ctx),
                forall|k: int| 0 <= k < out@.len() ==> #[trigger] original[k].conv_ok(
                    ctx,
                    &Ok(out@[k]),
                ),
            decreases items@.len(),
        {
            let item = items.remove(0);
            proof {
                assert(item == original[out@.len() as int]);
                assert(items@ =~= original.subrange(out@.len() as int + 1, original.len() as int));
            }
            let converted = match item.try_conv_with(ctx) {
                Ok(c) => c,
                Err(e) => {
                    proof {
                        let i = out@.len() as int;
                        assert(0 <= i < self@.len());
                        assert(self@[i].conv_ok(ctx, &Err(e)));
                        assert(prefix_converts(&self, ctx, out@, i));
                        assert(vec_conv_failed(&self, ctx, &e));
                    }
                    return Err(e);
                },
            };
            out.push(converted);
        }
        Ok(out)
    }
}

/// An engine-side edit list for one file, against its pre-edit text.
pub struct SourceFileNodeEdit {
    pub file_id: FileId,
    pub edits: Vec<AtomEdit>,
}

/// An engine-side filesystem change: create a file near an anchor, or move
/// one. The path is relative with a fixed up-one prefix (`../`), a quirk of
/// the engine's path representation; conversion strips it before joining.
pub enum FileSystemEdit {
    CreateFile { anchor: FileId, path: Vec<u8> },
    MoveFile { file: FileId, path: Vec<u8> },
}

/// A protocol document edit.
pub struct TextDocumentEdit {
    pub text_document: VersionedTextDocumentIdentifier,
    pub edits: Vec<TextEdit>,
}

/// A protocol filesystem change.
pub enum ProtocolFileSystemEdit {
    CreateFile { uri: Vec<u8> },
    MoveFile { src: Vec<u8>, dst: Vec<u8> },
}

/// An engine-side change set: a label for the user, file edits, filesystem
/// edits, and an optional cursor to reposition.
pub struct SourceChange {
    pub label: String,
    pub source_file_edits: Vec<SourceFileNodeEdit>,
    pub file_system_edits: Vec<FileSystemEdit>,
    pub cursor_position: Option<FilePosition>,
}

/// The protocol image of a change set.
pub struct ProtocolSourceChange {
    pub label: String,
    pub source_file_edits: Vec<TextDocumentEdit>,
    pub file_system_edits: Vec<ProtocolFileSystemEdit>,
    pub cursor_position: Option<TextDocumentPositionParams>,
}

/// The directory part of a uri: everything through its last slash, or
/// nothing when it has none.
pub open spec fn spec_dir_of(s: Seq<u8>) -> Seq<u8>
    decreases s.len(),
{
    if s.len() == 0 {
        s
    } else if s.last() == 47 {
        s
    } else {
        spec_dir_of(s.drop_last())
    }
}

/// Joining a relative path onto a uri: the path replaces everything after
/// the uri's last slash.
pub open spec fn spec_uri_join(base: Seq<u8>, rel: Seq<u8>) -> Seq<u8> {
    spec_dir_of(base) + rel
}

/// Join a relative path onto a uri.
pub fn uri_join(base: &Vec<u8>, rel: &Vec<u8>) -> (r: Vec<u8>)
    ensures
        r@ == spec_uri_join(base@, rel@),
{
    let mut cut: usize = base.len();
    proof {
        assert(base@.subrange(0, cut as int) =~= base@);
    }
    while cut > 0 && base[cut - 1] != 47
        invariant
            0 <= cut <= base@.len(),
            spec_dir_of(base@) == spec_dir_of(base@.subrange(0, cut as int)),
        decreases cut,
    {
        proof {
            assert(base@.subrange(0, cut as int).drop_last() =~= base@.subrange(0, cut - 1));
        }
        cut -= 1;
    }
    let mut out: Vec<u8> = Vec::new();
    let mut i: usize = 0;
    while i < cut
        invariant
            0 <= i <= cut <= base@.len(),
            out@ =~= base@.subrange(0, i as int),
        decreases cut - i,
    {
        out.push(base[i]);
        proof {
            assert(out@ =~= base@.subrange(0, i + 1));
        }
        i += 1;
    }
    proof {
        if cut > 0 {
            assert(base@.subrange(0, cut as int).last() == 47);
        }
        assert(spec_dir_of(base@.subrange(0, cut as int)) =~= base@.subrange(0, cut as int));
        assert(out@ =~= spec_dir_of(base@));
    }
    let mut k: usize = 0;
    while k < rel.len()
        invariant
            0 <= k <= rel@.len(),
            out@ =~= spec_dir_of(base@) + rel@.subrange(0, k as int),
        decreases rel@.len() - k,
    {
        out.push(rel[k]);
        proof {
            assert(out@ =~= spec_dir_of(base@) + rel@.subrange(0, k + 1));
        }
        k += 1;
    }
    proof {
        assert(out@ =~= spec_dir_of(base@) + rel@);
    }
    out
}

/// The relative path with its fixed `../` prefix stripped.
fn strip_up_one(path: &Vec<u8>) -> (r: Vec<u8>)
    requires
        path@.len() >= 3,
    ensures
        r@ == path@.subrange(3, path@.len() as int),
{
    let mut out: Vec<u8> = Vec::new();
    let mut i: usize = 3;
    while i < path.len()
        invariant
            3 <= i <= path@.len(),
            out@ =~= path@.subrange(3, i as int),
        decreases path@.len() - i,
    {
        out.push(path[i]);
        proof {
            assert(out@ =~= path@.subrange(3, i + 1));
        }
        i += 1;
    }
    proof {
        assert(out@ =~= path@.subrange(3, path@.len() as int));
    }
    out
}

impl TryConvWith for FileSystemEdit {
    type Ctx = WorldSnapshot;

    type Output = ProtocolFileSystemEdit;

    /// The anchor file is tracked; the relative path carries its fixed
    /// up-one prefix.
    open spec fn conv_pre(&self, world: &WorldSnapshot) -> bool {
        match self {
            FileSystemEdit::CreateFile { anchor, path } => path@.len() >= 3,
            FileSystemEdit::MoveFile { file, path } => path@.len() >= 3,
        }
    }

    open spec fn conv_ok(&self, world: &WorldSnapshot, r: &Result<ProtocolFileSystemEdit, String>) -> bool {
        match self {
            FileSystemEdit::CreateFile { anchor, path } => match r {
                Ok(ProtocolFileSystemEdit::CreateFile { uri }) => anchor.0 < world.vfs@.len()
                    && uri@ == spec_uri_join(
                    crate::uri::spec_path_to_uri(world.vfs@[anchor.0 as int].path),
                    path@.subrange(3, path@.len() as int),
                ),
                Ok(_) => false,
                Err(_) => file_system_edit_failure(world, self),
            },
            FileSystemEdit::MoveFile { file, path } => match r {
                Ok(ProtocolFileSystemEdit::MoveFile { src, dst }) => file.0 < world.vfs@.len()
                    && src@ == crate::uri::spec_path_to_uri(world.vfs@[file.0 as int].path) && dst@
                    == spec_uri_join(src@, path@.subrange(3, path@.len() as int)),
                Ok(_) => false,
                Err(_) => file_system_edit_failure(world, self),
            },
        }
    }

    fn try_conv_with(self, world: &WorldSnapshot) -> (r: Result<ProtocolFileSystemEdit, String>) {
        match self {
            FileSystemEdit::CreateFile { anchor, path } => {
                let base = world.file_id_to_uri(anchor)?;
                let rel = strip_up_one(&path);
                let uri = uri_join(&base, &rel);
                Ok(ProtocolFileSystemEdit::CreateFile { uri })
            },
            FileSystemEdit::MoveFile { file, path } => {
                let src = world.file_id_to_uri(file)?;
                let rel = strip_up_one(&path);
                let dst = uri_join(&src, &rel);
                Ok(ProtocolFileSystemEdit::MoveFile { src, dst })
            },
        }
    }
}

/// Why a filesystem-edit conversion fails: its anchor file identity is not
/// in use.
pub open spec fn file_system_edit_failure(world: &WorldSnapshot, e: &FileSystemEdit) -> bool {
    match e {
        FileSystemEdit::CreateFile { anchor, .. } => anchor.0 >= world.vfs@.len(),
        FileSystemEdit::MoveFile { file, .. } => file.0 >= world.vfs@.len(),
    }
}

/// An edit's deleted range does not fit the text.
pub open spec fn edit_out_of_range(s: Seq<u8>, e: AtomEdit) -> bool {
    e.delete.start > s.len() || e.delete.end > s.len()
}

/// Why a per-file edit-list conversion fails: the file identity is not in
/// use, its text is beyond the translator's size bound, or some edit lies
/// outside the text.
pub open spec fn source_file_edit_failure(world: &WorldSnapshot, e: &SourceFileNodeEdit) -> bool {
    ||| e.file_id.0 >= world.vfs@.len()
    ||| snapshot_text(world.vfs@, e.file_id).len() > MAX_TEXT_LEN
    ||| exists|i: int|
        0 <= i < e.edits@.len() && edit_out_of_range(
            snapshot_text(world.vfs@, e.file_id),
            #[trigger] e.edits@[i],
        )
}

/// One edit carried over: the protocol range marks the deleted bytes in
/// the pre-edit text, the new text is the replacement.
pub open spec fn edit_converted(s: Seq<u8>, e: AtomEdit, t: TextEdit) -> bool {
    &&& position_of(s, e.delete.start as int, t.range.start)
    &&& position_of(s, e.delete.end as int, t.range.end)
    &&& t.new_text == e.insert
}

impl TryConvWith for SourceFileNodeEdit {
    type Ctx = WorldSnapshot;

    type Output = TextDocumentEdit;

    open spec fn conv_pre(&self, world: &WorldSnapshot) -> bool {
        true
    }

    /// On success the document resolved and each edit's range is positioned
    /// in the file's current text.
    open spec fn conv_ok(&self, world: &WorldSnapshot, r: &Result<TextDocumentEdit, String>) -> bool {
        match r {
            Ok(tde) => {
                &&& self.file_id.0 < world.vfs@.len()
                &&& tde.text_document.uri@ == crate::uri::spec_path_to_uri(
                    world.vfs@[self.file_id.0 as int].path,
                )
                &&& tde.text_document.version is None
                &&& tde.edits@.len() == self.edits@.len()
                &&& forall|i: int|
                    0 <= i < self.edits@.len() ==> edit_converted(
                        snapshot_text(world.vfs@, self.file_id),
                        #[trigger] self.edits@[i],
                        tde.edits@[i],
                    )
                &&& !source_file_edit_failure(world, self)
            },
            Err(_) => source_file_edit_failure(world, self),
        }
    }

    #[verifier::loop_isolation(false)]
    fn try_conv_with(self, world: &WorldSnapshot) -> (r: Result<TextDocumentEdit, String>) {
        let uri = world.file_id_to_uri(self.file_id)?;
        let line_index = match world.file_line_index(self.file_id) {
            Some(ix) => ix,
            None => {
                return Err("file too large".to_owned());
            },
        };
        proof {
            use_type_invariant(&line_index);
        }
        let ghost original = self.edits@;
        let mut edits: Vec<TextEdit> = Vec::new();
        let mut rest = self.edits;
        while rest.len() > 0
            invariant
                edits@.len() + rest@.len() == original.len(),
                rest@ == original.subrange(edits@.len() as int, original.len() as int),
                line_index@ == snapshot_text(world.vfs@, self.file_id),
                forall|k: int|
                    0 <= k < edits@.len() ==> edit_converted(
                        line_index@,
                        #[trigger] original[k],
                        edits@[k],
                    ),
                forall|k: int|
                    0 <= k < edits@.len() ==> !edit_out_of_range(
                        line_index@,
                        #[trigger] original[k],
                    ),
            decreases rest@.len(),
        {
            let edit = rest.remove(0);
            proof {
                assert(edit == original[edits@.len() as int]);
                assert(rest@ =~= original.subrange(edits@.len() as int + 1, original.len() as int));
            }
            if edit.delete.start > line_index.len() || edit.delete.end > line_index.len() {
                proof {
                    assert(edit_out_of_range(line_index@, original[edits@.len() as int]));
                }
                return Err("edit out of range".to_owned());
            }
            let converted = edit.conv_with(&line_index);
            edits.push(converted);
        }
        proof {
            assert(!source_file_edit_failure(world, &self));
        }
        Ok(
            TextDocumentEdit {
                text_document: VersionedTextDocumentIdentifier { uri, version: None },
                edits,
            },
        )
    }
}

/// The edit list a change set carries for one file: the first entry for it,
/// or nothing.
pub open spec fn edits_for(edits: Seq<SourceFileNodeEdit>, f: FileId) -> Seq<AtomEdit>
    decreases edits.len(),
{
    if edits.len() == 0 {
        Seq::empty()
    } else if edits[0].file_id == f {
        edits[0].edits@
    } else {
        edits_for(edits.subrange(1, edits.len() as int), f)
    }
}

/// Why repositioning the cursor fails: its file identity is not in use,
/// the file's text is beyond the translator's size bound, or the offset
/// lies outside the translation's domain for the pending edits of its
/// file.
pub open spec fn cursor_failure(world: &WorldSnapshot, change: &SourceChange, pos: FilePosition) -> bool {
    ||| pos.file_id.0 >= world.vfs@.len()
    ||| snapshot_text(world.vfs@, pos.file_id).len() > MAX_TEXT_LEN
    ||| !translate_pre(
        snapshot_text(world.vfs@, pos.file_id),
        pos.offset as int,
        edits_for(change.source_file_edits@, pos.file_id),
    )
}

/// Why a change-set conversion fails: the cursor cannot be repositioned,
/// or some element conversion fails on its own condition.
pub open spec fn source_change_failure(world: &WorldSnapshot, change: &SourceChange) -> bool {
    ||| (change.cursor_position matches Some(pos) && cursor_failure(world, change, pos))
    ||| (exists|i: int|
        0 <= i < change.source_file_edits@.len() && source_file_edit_failure(
            world,
            #[trigger] &change.source_file_edits@[i],
        ))
    ||| (exists|i: int|
        0 <= i < change.file_system_edits@.len() && file_system_edit_failure(
            world,
            #[trigger] &change.file_system_edits@[i],
        ))
}

impl TryConvWith for SourceChange {
    type Ctx = WorldSnapshot;

    type Output = ProtocolSourceChange;

    open spec fn conv_pre(&self, world: &WorldSnapshot) -> bool {
        &&& world.vfs.wf()
        &&& forall|i: int|
            0 <= i < self.file_system_edits@.len() ==> #[trigger] self.file_system_edits@[i].conv_pre(
                world,
            )
    }

    /// On success: the label carries over, both edit lists keep their
    /// lengths (elementwise contracts are the element conversions'), and
    /// the cursor is repositioned by the edit-aware translation against the
    /// pending edits for its file.
    open spec fn conv_ok(&self, world: &WorldSnapshot, r: &Result<ProtocolSourceChange, String>) -> bool {
        match r {
            Ok(out) => {
                &&& !source_change_failure(world, self)
                &&& out.label == self.label
                &&& out.source_file_edits@.len() == self.source_file_edits@.len()
                &&& out.file_system_edits@.len() == self.file_system_edits@.len()
                &&& match (self.cursor_position, out.cursor_position) {
                    (None, None) => true,
                    (Some(pos), Some(tdpp)) => {
                        &&& pos.file_id.0 < world.vfs@.len()
                        &&& tdpp.text_document.uri@ == crate::uri::spec_path_to_uri(
                            world.vfs@[pos.file_id.0 as int].path,
                        )
                        &&& ({
                            let (line, col) = spec_translate(
                                snapshot_text(world.vfs@, pos.file_id),
                                pos.offset as int,
                                edits_for(self.source_file_edits@, pos.file_id),
                            );
                            tdpp.position.line == line && tdpp.position.character == col
                        })
                    },
                    _ => false,
                }
            },
            Err(_) => source_change_failure(world, self),
        }
    }

    fn try_conv_with(self, world: &WorldSnapshot) -> (r: Result<ProtocolSourceChange, String>) {
        let ghost me = self;
        let cursor_position: Option<TextDocumentPositionParams> = match &self.cursor_position {
            None => None,
            Some(pos) => {
                let pos = *pos;
                let line_index = match world.file_line_index(pos.file_id) {
                    Some(ix) => ix,
                    None => {
                        return Err("file too large".to_owned());
                    },
                };
                let empty_edits: Vec<AtomEdit> = Vec::new();
                let mut found: Option<usize> = None;
                let n = self.source_file_edits.len();
                let mut i: usize = 0;
                while i < n && found.is_none()
                    invariant
                        0 <= i <= n == self.source_file_edits@.len(),
                        match found {
                            Some(j) => j < n && self.source_file_edits@[j as int].file_id
                                == pos.file_id && (forall|k: int|
                                0 <= k < j ==> #[trigger] self.source_file_edits@[k].file_id
                                    != pos.file_id),
                            None => forall|k: int|
                                0 <= k < i ==> #[trigger] self.source_file_edits@[k].file_id
                                    != pos.file_id,
                        },
                    decreases n - i + (if found is None {
                        1int
                    } else {
                        0int
                    }),
                {
                    if self.source_file_edits[i].file_id == pos.file_id {
                        found = Some(i);
                    } else {
                        i += 1;
                    }
                }
                let edits: &Vec<AtomEdit> = match &found {
                    Some(i) => &self.source_file_edits[*i].edits,
                    None => &empty_edits,
                };
                proof {
                    lemma_edits_for_first(self.source_file_edits@, pos.file_id, found);
                    assert(edits@ == edits_for(self.source_file_edits@, pos.file_id));
                }
                let ilen = line_index.len();
                proof {
                    use_type_invariant(&line_index);
                }
                if edits.len() == 0 {
                    if pos.offset > ilen {
                        return Err("cursor position out of range".to_owned());
                    }
                } else {
                    let e = &edits[0];
                    if e.delete.start > ilen || e.insert.len() > crate::line_index::MAX_TEXT_LEN
                        - ilen {
                        return Err("cursor position out of range".to_owned());
                    }
                    let end = e.delete.start + e.insert.len();
                    if !(e.delete.start <= pos.offset && pos.offset <= end) && pos.offset > ilen {
                        return Err("cursor position out of range".to_owned());
                    }
                }
                let line_col = translate_offset_with_edit(&line_index, pos.offset, edits);
                let uri = world.file_id_to_uri(pos.file_id)?;
                Some(
                    TextDocumentPositionParams {
                        text_document: TextDocumentIdentifier { uri },
                        position: Position {
                            line: line_col.line as u64,
                            character: line_col.col_utf16 as u64,
                        },
                    },
                )
            },
        };
        let source_file_edits = match self.source_file_edits.try_conv_with(world) {
            Ok(v) => v,
            Err(e) => {
                proof {
                    let i = choose|i: int|
                        0 <= i < me.source_file_edits@.len()
                            && #[trigger] me.source_file_edits@[i].conv_ok(world, &Err(e));
                    assert(source_file_edit_failure(world, &me.source_file_edits@[i]));
                }
                return Err(e);
            },
        };
        let ghost sfe_out = source_file_edits@;
        let file_system_edits = match self.file_system_edits.try_conv_with(world) {
            Ok(v) => v,
            Err(e) => {
                proof {
                    let i = choose|i: int|
                        0 <= i < me.file_system_edits@.len()
                            && #[trigger] me.file_system_edits@[i].conv_ok(world, &Err(e));
                    assert(file_system_edit_failure(world, &me.file_system_edits@[i]));
                }
                return Err(e);
            },
        };
        let ghost fse_out = file_system_edits@;
        proof {
            assert forall|i: int| 0 <= i < me.source_file_edits@.len() implies
                !source_file_edit_failure(world, #[trigger] &me.source_file_edits@[i]) by {
                assert(me.source_file_edits@[i].conv_ok(world, &Ok(sfe_out[i])));
            }
            assert forall|i: int| 0 <= i < me.file_system_edits@.len() implies
                !file_system_edit_failure(world, #[trigger] &me.file_system_edits@[i]) by {
                assert(me.file_system_edits@[i].conv_ok(world, &Ok(fse_out[i])));
            }
            assert(!source_change_failure(world, &me));
        }
        Ok(
            ProtocolSourceChange {
                label: self.label,
                source_file_edits,
                file_system_edits,
                cursor_position,
            },
        )
    }
}

/// The first edit entry for a file is the one `edits_for` denotes; with no
/// entry it denotes the empty list.
proof fn lemma_edits_for_first(edits: Seq<SourceFileNodeEdit>, f: FileId, found: Option<usize>)
    requires
        match found {
            Some(i) => i < edits.len() && edits[i as int].file_id == f && (forall|k: int|
                0 <= k < i ==> #[trigger] edits[k].file_id != f),
            None => forall|k: int| 0 <= k < edits.len() ==> #[trigger] edits[k].file_id != f,
        },
    ensures
        match found {
            Some(i) => edits_for(edits, f) == edits[i as int].edits@,
            None => edits_for(edits, f) == Seq::<AtomEdit>::empty(),
        },
    decreases edits.len(),
{
    if edits.len() > 0 {
        let tail = edits.subrange(1, edits.len() as int);
        match found {
            Some(i) => {
                if i > 0 {
                    assert(edits[0].file_id != f);
                    lemma_edits_for_first(tail, f, Some((i - 1) as usize));
                    assert(tail[i - 1] == edits[i as int]);
                }
            },
            None => {
                assert(edits[0].file_id != f);
                lemma_edits_for_first(tail, f, None);
            },
        }
    }
}

/// Where a file identity and a byte range live in the protocol: the file's
/// uri and the range's positions in its text.
pub fn to_location(
    file_id: FileId,
    range: crate::translate::TextRange,
    world: &WorldSnapshot,
    line_index: &LineIndex,
) -> (r: Result<Location, String>)
    requires
        range.start <= line_index@.len(),
        range.end <= line_index@.len(),
    ensures
        match r {
            Ok(loc) => file_id.0 < world.vfs@.len() && loc.uri@ == crate::uri::spec_path_to_uri(
                world.vfs@[file_id.0 as int].path,
            ) && range.conv_ok(line_index, &loc.range),
            Err(_) => file_id.0 >= world.vfs@.len(),
        },
{
    let uri = world.file_id_to_uri(file_id)?;
    let range = range.conv_with(line_index);
    Ok(Location { uri, range })
}

} // verus!
