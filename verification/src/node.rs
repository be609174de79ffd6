//! Document nodes and documents.

use vstd::prelude::*;
use crate::ids::{LiveId, LiveTokenId};
use crate::token::TokenWithSpan;
use crate::value::LiveValue;

verus! {

/// Where a node comes from.
#[derive(Clone, Copy, Debug, PartialEq, Eq, Structural)]
pub enum LiveNodeOrigin {
    /// Written in a source file, at this token.
    Source(LiveTokenId),
    /// Made by the runtime; it has no source position.
    Synthesized,
}

impl LiveNodeOrigin {
    pub open spec fn spec_token_id(&self) -> Option<LiveTokenId> {
        match *self {
            LiveNodeOrigin::Source(token_id) => Some(token_id),
            LiveNodeOrigin::Synthesized => None,
        }
    }

    /// The source token of the node, if it has one.
    #[verifier::when_used_as_spec(spec_token_id)]
    pub fn token_id(&self) -> (r: Option<LiveTokenId>)
        ensures
            r == self.spec_token_id(),
    {
        match self {
            LiveNodeOrigin::Source(token_id) => Some(*token_id),
            LiveNodeOrigin::Synthesized => None,
        }
    }
}

/// One element of a document's flat node sequence. Nesting is implied by
/// the opening and closing values.
#[derive(Clone, Debug, PartialEq, Eq)]
pub struct LiveNode {
    pub origin: LiveNodeOrigin,
    pub id: LiveId,
    pub value: LiveValue,
}

/// One file's node sequence and token stream.
#[derive(Clone, Debug, PartialEq, Eq)]
pub struct LiveDocument {
    pub nodes: Vec<LiveNode>,
    pub tokens: Vec<TokenWithSpan>,
}

impl LiveDocument {
    /// A document without nodes or tokens.
    pub fn new() -> (doc: LiveDocument)
        ensures
            doc.nodes@.len() == 0,
            doc.tokens@.len() == 0,
    {
        LiveDocument { nodes: Vec::new(), tokens: Vec::new() }
    }
}

} // verus!
