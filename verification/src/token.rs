//! Lexical tokens of a file, as far as this runtime reads them.

use vstd::prelude::*;
use crate::ids::{LiveId, TextPos};
use crate::value::LiveVec4;

verus! {

/// One lexical token.
#[derive(Clone, Debug, PartialEq, Eq)]
pub enum LiveToken {
    Punct(LiveId),
    Ident(LiveId),
    Open,
    Close,
    Str(String),
    Bool(bool),
    /// An integer literal, with the single-precision number that stands for it.
    Int { value: i64, single: u32 },
    /// A float literal, as a single-precision bit pattern.
    Float { single: u32 },
    /// A color literal: its packed form and its four channels as
    /// single-precision bit patterns.
    Color { rgba: u32, channels: LiveVec4 },
    Eof,
}

/// A token together with the position where it starts.
#[derive(Clone, Debug, PartialEq, Eq)]
pub struct TokenWithSpan {
    pub token: LiveToken,
    pub start: TextPos,
}

impl LiveToken {
    pub open spec fn spec_as_float(&self) -> Option<u32> {
        match *self {
            LiveToken::Float { single } => Some(single),
            LiveToken::Int { value, single } => Some(single),
            _ => None,
        }
    }

    pub open spec fn spec_as_vec4(&self) -> Option<LiveVec4> {
        match *self {
            LiveToken::Color { rgba, channels } => Some(channels),
            _ => None,
        }
    }

    /// The scalar that the literal stands for: a float literal is itself, an
    /// integer literal is the single-precision number held beside it; no
    /// other token converts.
    #[verifier::when_used_as_spec(spec_as_float)]
    pub fn as_float(&self) -> (r: Option<u32>)
        ensures
            r == self.spec_as_float(),
    {
        match self {
            LiveToken::Float { single } => Some(*single),
            LiveToken::Int { value: _, single } => Some(*single),
            _ => None,
        }
    }

    /// The four channels of a color literal; no other token converts.
    #[verifier::when_used_as_spec(spec_as_vec4)]
    pub fn as_vec4(&self) -> (r: Option<LiveVec4>)
        ensures
            r == self.spec_as_vec4(),
    {
        match self {
            LiveToken::Color { rgba: _, channels } => Some(*channels),
            _ => None,
        }
    }
}

} // verus!
