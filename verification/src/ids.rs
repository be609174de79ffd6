//! Identities: identifiers, files, tokens, node pointers and text positions.

use vstd::prelude::*;

verus! {

/// An identifier or property name, shown in diagnostics as its text.
#[derive(Clone, Debug, PartialEq, Eq)]
pub struct LiveId {
    pub name: String,
}

impl LiveId {
    /// The identifier with the given name.
    pub fn new(name: &str) -> (id: LiveId)
        ensures
            id.name@ == name@,
    {
        LiveId { name: String::from_str(name) }
    }
}

/// The stable identity of a registered file: its place in the registry's
/// file table. Files are only ever appended, so an identity is never handed
/// to a second file.
#[derive(Clone, Copy, Debug, PartialEq, Eq, Structural)]
pub struct LiveFileId(pub usize);

/// One lexical token of a file: the file and the index into its token stream.
#[derive(Clone, Copy, Debug, PartialEq, Eq, Structural)]
pub struct LiveTokenId {
    pub file_id: LiveFileId,
    pub token_index: usize,
}

/// A non-owning reference to a node: the file, the node's index in the
/// file's document, and the generation of the document it was taken from.
#[derive(Clone, Copy, Debug, PartialEq, Eq, Structural)]
pub struct LivePtr {
    pub file_id: LiveFileId,
    pub index: usize,
    pub generation: u64,
}

/// A position in source text.
#[derive(Clone, Copy, Debug, PartialEq, Eq, Structural)]
pub struct TextPos {
    pub line: u32,
    pub column: u32,
}

impl LiveTokenId {
    /// Whether two token identities name the same token.
    pub fn same(&self, other: &LiveTokenId) -> (eq: bool)
        ensures
            eq == (*self == *other),
    {
        self.file_id.0 == other.file_id.0 && self.token_index == other.token_index
    }
}

impl LivePtr {
    /// Whether two pointers are the same pointer: same file, same index,
    /// same generation. The nodes they point at are not compared.
    pub fn same(&self, other: &LivePtr) -> (eq: bool)
        ensures
            eq == (*self == *other),
    {
        self.file_id.0 == other.file_id.0 && self.index == other.index && self.generation
            == other.generation
    }
}

} // verus!
