//! The tokens of shell source text.

use vstd::prelude::*;

use crate::source::SourceSpan;

verus! {

/// A token of shell source text.
#[derive(Debug, PartialEq, Eq)]
pub enum Token {
    /// An operator.
    Operator(String, SourceSpan),
    /// A word.
    Word(String, SourceSpan),
}

impl Clone for Token {
    fn clone(&self) -> (copy: Token)
        ensures
            copy == *self,
    {
        match self {
            Token::Operator(value, loc) => Token::Operator(value.clone(), loc.clone()),
            Token::Word(value, loc) => Token::Word(value.clone(), loc.clone()),
        }
    }
}

} // verus!
