use vstd::prelude::*;

verus! {

/// Identifier of a source file.
#[derive(Debug, Clone, Copy, PartialEq, Eq, Structural)]
pub struct FileId(pub u64);

/// A source file that a location points into.
#[derive(Debug, Clone, Copy)]
pub struct SourceFile {
    pub id: FileId,
}

/// A position in the source text.
#[derive(Debug, Clone, Copy)]
pub struct Location {
    pub file: Option<SourceFile>,
    pub line: usize,
    pub column: usize,
}

/// Items that carry the location they were read from.
pub trait HasLocation {
    spec fn spec_location(&self) -> Location;

    fn location(&self) -> (location: &Location)
        ensures
            *location == self.spec_location(),
    ;
}

} // verus!
