//! Source locations and interned names.

use vstd::prelude::*;

verus! {

/// An interned name: the position of its text in the interner.
pub type Symbol = u32;

/// Identifies a source file.
pub type FileId = u32;

/// Identifies a definition of the program, unique over all source files.
pub type DefId = u32;

/// A half-open range of byte offsets in one file.
#[derive(Clone, Copy, Debug, PartialEq, Eq, Structural)]
pub struct TextSpan {
    pub start: u32,
    pub end: u32,
}

impl TextSpan {
    #[verifier::allow_in_spec]
    pub fn new(start: u32, end: u32) -> (result: TextSpan)
        returns
            (TextSpan { start, end }),
    {
        TextSpan { start, end }
    }
}

/// A span together with the file it lies in.
#[derive(Clone, Copy, Debug, PartialEq, Eq, Structural)]
pub struct SourceSpan {
    pub file_id: FileId,
    pub span: TextSpan,
}

impl SourceSpan {
    #[verifier::allow_in_spec]
    pub fn new(file_id: FileId, span: TextSpan) -> (result: SourceSpan)
        returns
            (SourceSpan { file_id, span }),
    {
        SourceSpan { file_id, span }
    }
}

/// A value with the place where it was written.
#[derive(Clone, Copy, Debug, PartialEq, Eq)]
pub struct Spanned<T> {
    pub inner: T,
    pub span: TextSpan,
}

} // verus!
