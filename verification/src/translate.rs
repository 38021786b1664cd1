//! Edit-aware offset translation: map an offset given in post-edit
//! coordinates to the (line, UTF-16 column) it will occupy once the pending
//! edits are applied, without rebuilding a line index over the edited text.
//!
//! The policy is a deliberate approximation, kept exactly for protocol
//! stability: only the first pending edit is examined. An offset outside the
//! region that edit rewrites is answered from the pre-edit index unchanged;
//! an offset inside it is located within the inserted text alone and that
//! relative position is shifted by the pre-edit position of the edit's start.
//! This is sufficient to reposition a single cursor inside a just-applied
//! edit; generalizing it to several edits is out of scope here.

use vstd::prelude::*;

use crate::line_index::{spec_col, spec_line, LineCol, LineIndex, MAX_TEXT_LEN};

verus! {

/// A half-open byte range `[start, end)` of the text it is interpreted
/// against.
#[derive(Clone, Copy, PartialEq, Eq, Structural, Debug)]
pub struct TextRange {
    pub start: usize,
    pub end: usize,
}

/// One single-range edit: delete `delete` from the pre-edit text and put
/// `insert` in its place. An insertion has an empty range; a deletion has
/// empty replacement text.
#[derive(Debug)]
pub struct AtomEdit {
    pub delete: TextRange,
    pub insert: Vec<u8>,
}

/// The translation policy, stated over the pre-edit text `s`: the pair
/// (line, UTF-16 column) that `translate_offset_with_edit` returns.
pub open spec fn spec_translate(s: Seq<u8>, offset: int, edits: Seq<AtomEdit>) -> (nat, nat) {
    if edits.len() == 0 {
        (spec_line(s, offset), spec_col(s, offset))
    } else {
        let e = edits[0];
        let start = e.delete.start as int;
        let end = start + e.insert@.len();
        if !(start <= offset <= end) {
            (spec_line(s, offset), spec_col(s, offset))
        } else {
            let rel = offset - start;
            let delta_line = spec_line(e.insert@, rel);
            let delta_col = spec_col(e.insert@, rel);
            if delta_line == 0 {
                (spec_line(s, start), (spec_col(s, start) + delta_col) as nat)
            } else {
                ((spec_line(s, start) + delta_line) as nat, delta_col)
            }
        }
    }
}

/// Inputs on which the translation is defined: every offset handed to the
/// pre-edit index stays inside its text, the first edit's range and
/// replacement fit, and the post-edit text still fits the translator's size
/// bound.
pub open spec fn translate_pre(s: Seq<u8>, offset: int, edits: Seq<AtomEdit>) -> bool {
    if edits.len() == 0 {
        offset <= s.len()
    } else {
        let e = edits[0];
        let start = e.delete.start as int;
        let end = start + e.insert@.len();
        &&& start <= s.len()
        &&& s.len() + e.insert@.len() <= MAX_TEXT_LEN
        &&& (!(start <= offset <= end) ==> offset <= s.len())
    }
}

/// Map `offset` (post-edit coordinates) to the (line, UTF-16 column) it
/// would have after `edits` are applied, per the first-edit policy.
pub fn translate_offset_with_edit(
    pre_edit_index: &LineIndex,
    offset: usize,
    edits: &Vec<AtomEdit>,
) -> (r: LineCol)
    requires
        translate_pre(pre_edit_index@, offset as int, edits@),
    ensures
        (r.line as nat, r.col_utf16 as nat) == spec_translate(
            pre_edit_index@,
            offset as int,
            edits@,
        ),
{
    if edits.len() == 0 {
        return pre_edit_index.line_col(offset);
    }
    let edit = &edits[0];
    let end_offset = edit.delete.start + edit.insert.len();
    if !(edit.delete.start <= offset && offset <= end_offset) {
        return pre_edit_index.line_col(offset);
    }
    let rel_offset = offset - edit.delete.start;
    let insert_index = LineIndex::new(edit.insert.clone());
    let in_edit = insert_index.line_col(rel_offset);
    let edit_line_col = pre_edit_index.line_col(edit.delete.start);
    proof {
        crate::line_index::lemma_line_le_offset(pre_edit_index@, edit.delete.start as int);
        crate::line_index::lemma_col_le_twice_offset(pre_edit_index@, edit.delete.start as int);
        crate::line_index::lemma_line_le_offset(edit.insert@, rel_offset as int);
        crate::line_index::lemma_col_le_twice_offset(edit.insert@, rel_offset as int);
    }
    if in_edit.line == 0 {
        LineCol { line: edit_line_col.line, col_utf16: edit_line_col.col_utf16 + in_edit.col_utf16 }
    } else {
        LineCol { line: edit_line_col.line + in_edit.line, col_utf16: in_edit.col_utf16 }
    }
}

/// With no pending edits, the edit-aware translation is exactly the plain
/// pre-edit translation.
pub proof fn lemma_translate_no_edits(s: Seq<u8>, offset: int)
    ensures
        spec_translate(s, offset, Seq::<AtomEdit>::empty()) == (
            spec_line(s, offset),
            spec_col(s, offset),
        ),
{
}

/// An offset that sits exactly at the first edit's start is answered with
/// the pre-edit position of that start, whatever the replacement text.
pub proof fn lemma_translate_at_edit_start(s: Seq<u8>, edits: Seq<AtomEdit>)
    requires
        edits.len() > 0,
    ensures
        spec_translate(s, edits[0].delete.start as int, edits) == (
            spec_line(s, edits[0].delete.start as int),
            spec_col(s, edits[0].delete.start as int),
        ),
{
    let start = edits[0].delete.start as int;
    assert(spec_line(edits[0].insert@, 0) == 0);
    assert(spec_col(edits[0].insert@, 0) == 0);
}

} // verus!
