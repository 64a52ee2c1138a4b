//! Small value types shared by the whole library: file identifiers, text
//! positions and ranges, and values tagged with the file they come from.
use vstd::prelude::*;

verus! {

/// Offset of a character in a document, in bytes.
pub type TextSize = u32;

/// Identifies a file known to the analysis.
#[derive(Debug, Clone, Copy, PartialEq, Eq, Structural, Hash)]
pub struct FileId {
    pub id: u32,
}

impl FileId {
    pub fn new(id: u32) -> (r: FileId)
        ensures
            r.id == id,
    {
        FileId { id }
    }
}

/// A half-open range `[start, end)` of a document; `start <= end` always holds.
#[derive(Debug, Clone, Copy, PartialEq, Eq, Structural, Hash)]
pub struct TextRange {
    start: TextSize,
    end: TextSize,
}

impl TextRange {
    #[verifier::type_invariant]
    spec fn well_formed(self) -> bool {
        self.start <= self.end
    }

    /// The first offset of the range.
    pub closed spec fn spec_start(self) -> TextSize {
        self.start
    }

    /// The offset just past the range.
    pub closed spec fn spec_end(self) -> TextSize {
        self.end
    }

    /// Builds the range `[start, end)`; `start` must not lie after `end`.
    pub fn new(start: TextSize, end: TextSize) -> (r: TextRange)
        requires
            start <= end,
        ensures
            r.spec_start() == start,
            r.spec_end() == end,
            r == range_of(start, end),
    {
        TextRange { start, end }
    }

    pub fn start(&self) -> (r: TextSize)
        ensures
            r == self.spec_start(),
    {
        self.start
    }

    pub fn end(&self) -> (r: TextSize)
        ensures
            r == self.spec_end(),
    {
        self.end
    }

    pub fn len(&self) -> (r: TextSize)
        ensures
            r == self.spec_end() - self.spec_start(),
    {
        proof {
            use_type_invariant(self);
        }
        self.end - self.start
    }
}

/// The range `[start, end)`.
pub closed spec fn range_of(start: TextSize, end: TextSize) -> TextRange {
    TextRange { start, end }
}

/// The bounds of `range_of(start, end)` are `start` and `end`.
pub proof fn lemma_range_of(start: TextSize, end: TextSize)
    ensures
        range_of(start, end).spec_start() == start,
        range_of(start, end).spec_end() == end,
{
}

/// A value together with the file it was found in.
#[derive(Debug, Clone, Copy, PartialEq, Eq, Structural, Hash)]
pub struct InFiled<T> {
    pub file_id: FileId,
    pub value: T,
}

impl<T> InFiled<T> {
    pub fn new(file_id: FileId, value: T) -> (r: InFiled<T>)
        ensures
            r.file_id == file_id,
            r.value == value,
    {
        InFiled { file_id, value }
    }
}

/// The kind of a syntax node: name expressions, which the indexes record
/// by kind, and the raw kind number of any other node.
#[derive(Debug, Clone, Copy, PartialEq, Eq, Structural, Hash)]
pub enum LuaSyntaxKind {
    NameExpr,
    Other(u16),
}

/// Identifies a syntax node by its kind and range.
#[derive(Debug, Clone, Copy, PartialEq, Eq, Structural, Hash)]
pub struct LuaSyntaxId {
    pub kind: LuaSyntaxKind,
    pub range: TextRange,
}

impl LuaSyntaxId {
    pub fn new(kind: LuaSyntaxKind, range: TextRange) -> (r: LuaSyntaxId)
        ensures
            r.kind == kind,
            r.range == range,
    {
        LuaSyntaxId { kind, range }
    }

    pub fn get_range(&self) -> (r: TextRange)
        ensures
            r == self.range,
    {
        self.range
    }
}

/// Whether two strings hold the same characters.
pub fn str_eq(a: &str, b: &str) -> (r: bool)
    ensures
        r == (a@ == b@),
{
    a.to_owned() == b.to_owned()
}

} // verus!
