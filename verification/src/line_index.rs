//! Coordinate translation for one file's text: byte offset to (line, UTF-16
//! column) and back.
//!
//! The text is a sequence of UTF-8 bytes. A line break is a `\n` byte; the
//! line of an offset is the number of line breaks strictly before it, and the
//! column counts UTF-16 code units since the last line break, as the protocol
//! requires. In UTF-8, a character of one to three bytes is one UTF-16 code
//! unit; a four-byte character (a surrogate pair in UTF-16) is two. The lead
//! byte alone decides the width, so the model walks bytes and adds the width
//! of each character at its first byte.

use vstd::prelude::*;

verus! {

/// The line-break byte, `\n`.
pub const NEWLINE: u8 = 10;

/// Largest text length the translator accepts; keeps lines and columns
/// within `u32` as the protocol types expect.
pub const MAX_TEXT_LEN: usize = 0x7fff_ffff;

/// A byte begins a UTF-8 character (it is not a continuation byte).
pub open spec fn is_char_start(b: u8) -> bool {
    b < 0x80 || b >= 0xC0
}

/// UTF-16 code units contributed by the character whose UTF-8 lead byte is
/// `b`: two for a four-byte character, one otherwise.
pub open spec fn utf16_width(b: u8) -> nat {
    if b >= 0xF0 {
        2nat
    } else {
        1nat
    }
}

/// Line of byte offset `o` in `s`: the number of line breaks strictly
/// before `o`.
pub open spec fn spec_line(s: Seq<u8>, o: int) -> nat
    recommends
        0 <= o <= s.len(),
    decreases o,
{
    if o <= 0 {
        0
    } else {
        spec_line(s, o - 1) + (if s[o - 1] == NEWLINE {
            1nat
        } else {
            0nat
        })
    }
}

/// UTF-16 column of byte offset `o` in `s`: code units since the last line
/// break before `o`.
pub open spec fn spec_col(s: Seq<u8>, o: int) -> nat
    recommends
        0 <= o <= s.len(),
    decreases o,
{
    if o <= 0 {
        0
    } else if s[o - 1] == NEWLINE {
        0
    } else {
        spec_col(s, o - 1) + (if is_char_start(s[o - 1]) {
            utf16_width(s[o - 1])
        } else {
            0nat
        })
    }
}

/// `o` is a position in `s` on a character boundary (or the end of the
/// text): the offsets the protocol may point at.
pub open spec fn is_boundary(s: Seq<u8>, o: int) -> bool {
    0 <= o <= s.len() && (o == s.len() || is_char_start(s[o]))
}

/// A (line, UTF-16 column) pair, as carried by the protocol.
#[derive(Clone, Copy, PartialEq, Eq, Structural, Debug)]
pub struct LineCol {
    pub line: u32,
    pub col_utf16: u32,
}

/// Translator for one file's current text.
pub struct LineIndex {
    text: Vec<u8>,
}

pub proof fn lemma_line_le_offset(s: Seq<u8>, o: int)
    requires
        0 <= o,
    ensures
        spec_line(s, o) <= o,
    decreases o,
{
    if o > 0 {
        lemma_line_le_offset(s, o - 1);
    }
}

pub proof fn lemma_col_le_twice_offset(s: Seq<u8>, o: int)
    requires
        0 <= o,
    ensures
        spec_col(s, o) <= 2 * o,
    decreases o,
{
    if o > 0 {
        lemma_col_le_twice_offset(s, o - 1);
    }
}

/// Lines never decrease as the offset grows.
proof fn lemma_line_monotone(s: Seq<u8>, o1: int, o2: int)
    requires
        0 <= o1 <= o2,
    ensures
        spec_line(s, o1) <= spec_line(s, o2),
    decreases o2,
{
    if o1 < o2 {
        lemma_line_monotone(s, o1, o2 - 1);
    }
}

/// Two offsets on the same line have no line break between them.
proof fn lemma_same_line_no_newline(s: Seq<u8>, o1: int, o2: int)
    requires
        0 <= o1 <= o2,
        spec_line(s, o1) == spec_line(s, o2),
    ensures
        forall|k: int| o1 <= k < o2 ==> s[k] != NEWLINE,
    decreases o2,
{
    if o1 < o2 {
        lemma_line_monotone(s, o1, o2 - 1);
        lemma_same_line_no_newline(s, o1, o2 - 1);
    }
}

/// With no line break in between, the column grows by at least one UTF-16
/// unit from a character boundary to any later offset.
proof fn lemma_col_grows(s: Seq<u8>, o1: int, o2: int)
    requires
        0 <= o1 < o2 <= s.len(),
        is_char_start(s[o1]),
        forall|k: int| o1 <= k < o2 ==> s[k] != NEWLINE,
    ensures
        spec_col(s, o2) >= spec_col(s, o1) + 1,
    decreases o2,
{
    if o2 - 1 == o1 {
        assert(spec_col(s, o2) == spec_col(s, o1) + utf16_width(s[o1]));
    } else {
        lemma_col_grows(s, o1, o2 - 1);
    }
}

/// At most one character boundary carries a given (line, column) pair: the
/// mapping from boundary offsets to protocol positions is injective, which
/// makes the two translations inverse to each other.
pub proof fn lemma_position_unique(s: Seq<u8>, o1: int, o2: int)
    requires
        is_boundary(s, o1),
        is_boundary(s, o2),
        spec_line(s, o1) == spec_line(s, o2),
        spec_col(s, o1) == spec_col(s, o2),
    ensures
        o1 == o2,
{
    if o1 < o2 {
        lemma_same_line_no_newline(s, o1, o2);
        lemma_col_grows(s, o1, o2);
    } else if o2 < o1 {
        lemma_same_line_no_newline(s, o2, o1);
        lemma_col_grows(s, o2, o1);
    }
}

/// A four-byte UTF-8 character (one surrogate pair in UTF-16) advances the
/// column by exactly two and stays on its line.
pub proof fn lemma_wide_char_advances_col_by_two(s: Seq<u8>, o: int)
    requires
        0 <= o,
        o + 4 <= s.len(),
        s[o] >= 0xF0,
        !is_char_start(s[o + 1]),
        !is_char_start(s[o + 2]),
        !is_char_start(s[o + 3]),
    ensures
        spec_col(s, o + 4) == spec_col(s, o) + 2,
        spec_line(s, o + 4) == spec_line(s, o),
{
    assert(s[o] != NEWLINE && is_char_start(s[o]) && utf16_width(s[o]) == 2);
    assert(s[o + 1] >= 0x80 && s[o + 2] >= 0x80 && s[o + 3] >= 0x80);
    assert(spec_col(s, o + 1) == spec_col(s, o) + 2);
    assert(spec_col(s, o + 2) == spec_col(s, o + 1));
    assert(spec_col(s, o + 3) == spec_col(s, o + 2));
    assert(spec_col(s, o + 4) == spec_col(s, o + 3));
    assert(spec_line(s, o + 1) == spec_line(s, o));
    assert(spec_line(s, o + 2) == spec_line(s, o + 1));
    assert(spec_line(s, o + 3) == spec_line(s, o + 2));
    assert(spec_line(s, o + 4) == spec_line(s, o + 3));
}

impl LineIndex {
    /// The text this index answers for.
    pub closed spec fn view(&self) -> Seq<u8> {
        self.text@
    }

    /// Every index is over a text within the size bound; established at
    /// construction and kept for the value's life.
    #[verifier::type_invariant]
    pub open spec fn wf(&self) -> bool {
        self@.len() <= MAX_TEXT_LEN
    }

    pub fn new(text: Vec<u8>) -> (r: LineIndex)
        requires
            text@.len() <= MAX_TEXT_LEN,
        ensures
            r.wf(),
            r@ == text@,
    {
        LineIndex { text }
    }

    pub fn len(&self) -> (r: usize)
        ensures
            r == self@.len(),
    {
        self.text.len()
    }

    /// Map a byte offset to its (line, UTF-16 column) position.
    pub fn line_col(&self, offset: usize) -> (r: LineCol)
        requires
            offset <= self@.len(),
        ensures
            r.line == spec_line(self@, offset as int),
            r.col_utf16 == spec_col(self@, offset as int),
    {
        proof {
            use_type_invariant(self);
        }
        let mut p: usize = 0;
        let mut line: u32 = 0;
        let mut col: u32 = 0;
        while p < offset
            invariant
                0 <= p <= offset <= self@.len() <= MAX_TEXT_LEN,
                line == spec_line(self@, p as int),
                col == spec_col(self@, p as int),
            decreases offset - p,
        {
            proof {
                lemma_line_le_offset(self@, p + 1);
                lemma_col_le_twice_offset(self@, p + 1);
            }
            let b = self.text[p];
            if b == NEWLINE {
                line = line + 1;
                col = 0;
            } else if b < 0x80 || b >= 0xC0 {
                if b >= 0xF0 {
                    col = col + 2;
                } else {
                    col = col + 1;
                }
            }
            p += 1;
        }
        LineCol { line, col_utf16: col }
    }

    /// Map a (line, UTF-16 column) position back to its byte offset. The
    /// position must name a character boundary of the text; the result is
    /// that boundary, unique by `lemma_position_unique`.
    pub fn offset(&self, position: LineCol) -> (r: usize)
        requires
            exists|o: int|
                is_boundary(self@, o) && spec_line(self@, o) == position.line
                    && spec_col(self@, o) == position.col_utf16,
        ensures
            is_boundary(self@, r as int),
            spec_line(self@, r as int) == position.line,
            spec_col(self@, r as int) == position.col_utf16,
    {
        proof {
            use_type_invariant(self);
        }
        let ghost w = choose|o: int|
            is_boundary(self@, o) && spec_line(self@, o) == position.line && spec_col(
                self@,
                o,
            ) == position.col_utf16;
        let mut p: usize = 0;
        let mut line: u32 = 0;
        let mut col: u32 = 0;
        loop
            invariant
                0 <= p <= w <= self@.len() <= MAX_TEXT_LEN,
                line == spec_line(self@, p as int),
                col == spec_col(self@, p as int),
                is_boundary(self@, w) && spec_line(self@, w) == position.line && spec_col(
                    self@,
                    w,
                ) == position.col_utf16,
            decreases self@.len() - p,
        {
            let at_boundary = p == self.text.len() || {
                let b = self.text[p];
                b < 0x80 || b >= 0xC0
            };
            if at_boundary && line == position.line && col == position.col_utf16 {
                return p;
            }
            proof {
                assert(p != w);
                lemma_line_le_offset(self@, p + 1);
                lemma_col_le_twice_offset(self@, p + 1);
            }
            let b = self.text[p];
            if b == NEWLINE {
                line = line + 1;
                col = 0;
            } else if b < 0x80 || b >= 0xC0 {
                if b >= 0xF0 {
                    col = col + 2;
                } else {
                    col = col + 1;
                }
            }
            p += 1;
        }
    }

    /// Map a (line, UTF-16 column) position back to its byte offset, or
    /// `None` when no character boundary of the text carries it.
    pub fn try_offset(&self, position: LineCol) -> (r: Option<usize>)
        ensures
            match r {
                Some(o) => is_boundary(self@, o as int) && spec_line(self@, o as int)
                    == position.line && spec_col(self@, o as int) == position.col_utf16,
                None => forall|o: int|
                    is_boundary(self@, o) ==> !(spec_line(self@, o) == position.line && spec_col(
                        self@,
                        o,
                    ) == position.col_utf16),
            },
    {
        proof {
            use_type_invariant(self);
        }
        let mut p: usize = 0;
        let mut line: u32 = 0;
        let mut col: u32 = 0;
        loop
            invariant
                0 <= p <= self@.len() <= MAX_TEXT_LEN,
                line == spec_line(self@, p as int),
                col == spec_col(self@, p as int),
                forall|q: int|
                    0 <= q < p && is_boundary(self@, q) ==> !(spec_line(self@, q) == position.line
                        && spec_col(self@, q) == position.col_utf16),
            decreases self@.len() + 1 - p,
        {
            let at_boundary = p == self.text.len() || {
                let b = self.text[p];
                b < 0x80 || b >= 0xC0
            };
            if at_boundary && line == position.line && col == position.col_utf16 {
                return Some(p);
            }
            if p == self.text.len() {
                return None;
            }
            proof {
                lemma_line_le_offset(self@, p + 1);
                lemma_col_le_twice_offset(self@, p + 1);
            }
            let b = self.text[p];
            if b == NEWLINE {
                line = line + 1;
                col = 0;
            } else if b < 0x80 || b >= 0xC0 {
                if b >= 0xF0 {
                    col = col + 2;
                } else {
                    col = col + 1;
                }
            }
            p += 1;
        }
    }
}

/// Translating an offset to a position and back returns the offset: among
/// character boundaries, the position determines the offset.
pub proof fn lemma_offset_line_col_roundtrip(s: Seq<u8>, o: int, r: int)
    requires
        is_boundary(s, o),
        is_boundary(s, r),
        spec_line(s, r) == spec_line(s, o),
        spec_col(s, r) == spec_col(s, o),
    ensures
        r == o,
{
    lemma_position_unique(s, r, o);
}

} // verus!

