//! Words, the raw text that commands are made of.

use vstd::prelude::*;

use super::{Node, SourceLocation};
use crate::layout::{group_layout, plain, verbatim, Doc};
use crate::render::{Display, Formatter};
use crate::source::SourceSpan;
use crate::tokenizer::Token;

verus! {

broadcast use group_layout;

/// Represents a shell word.
#[derive(Debug, PartialEq, Eq)]
pub struct Word {
    /// Raw text of the word.
    pub value: String,
    /// Location of the word
    pub loc: Option<SourceSpan>,
}

impl Clone for Word {
    fn clone(&self) -> (copy: Word)
        ensures
            copy == *self,
    {
        Word { value: self.value.clone(), loc: self.loc.clone() }
    }
}

impl Node for Word {

}

impl SourceLocation for Word {
    open spec fn span(&self) -> Option<SourceSpan> {
        self.loc
    }

    fn location(&self) -> (r: Option<SourceSpan>) {
        self.loc.clone()
    }
}

impl Display for Word {
    /// A word is printed verbatim, including any embedded newlines.
    open spec fn doc(&self) -> Doc {
        verbatim(self.value@)
    }

    fn fmt(&self, f: &mut Formatter) {
        f.write_verbatim(self.value.as_str());
    }
}

impl<'a> From<&'a Token> for Word {
    fn from(t: &'a Token) -> (w: Word) {
        match t {
            Token::Word(value, loc) => Word { value: value.clone(), loc: Some(loc.clone()) },
            Token::Operator(value, loc) => Word { value: value.clone(), loc: Some(loc.clone()) },
        }
    }
}

impl<'a> vstd::std_specs::convert::FromSpecImpl<&'a Token> for Word {
    open spec fn obeys_from_spec() -> bool {
        true
    }

    open spec fn from_spec(t: &'a Token) -> Word {
        match t {
            Token::Word(value, loc) => Word { value: *value, loc: Some(*loc) },
            Token::Operator(value, loc) => Word { value: *value, loc: Some(*loc) },
        }
    }
}

impl From<String> for Word {
    fn from(s: String) -> (w: Word) {
        Word { value: s, loc: None }
    }
}

impl vstd::std_specs::convert::FromSpecImpl<String> for Word {
    open spec fn obeys_from_spec() -> bool {
        true
    }

    open spec fn from_spec(s: String) -> Word {
        Word { value: s, loc: None }
    }
}

impl AsRef<str> for Word {
    fn as_ref(&self) -> (s: &str)
        ensures
            s@ == self.value@,
    {
        self.value.as_str()
    }
}

impl Word {
    /// Constructs a new `Word` from a given string.
    pub fn new(s: &str) -> (w: Word)
        ensures
            w.value@ == s@,
            w.loc is None,
    {
        Word { value: s.to_owned(), loc: None }
    }

    /// Constructs a new `Word` from a given string and location.
    pub fn with_location(s: &str, loc: &SourceSpan) -> (w: Word)
        ensures
            w.value@ == s@,
            w.loc == Some(*loc),
    {
        Word { value: s.to_owned(), loc: Some(loc.clone()) }
    }

    /// Returns the raw text of the word.
    pub fn flatten(&self) -> (s: String)
        ensures
            s == self.value,
    {
        self.value.clone()
    }
}

/// Encapsulates an unparsed arithmetic expression.
#[derive(Debug, PartialEq, Eq)]
pub struct UnexpandedArithmeticExpr {
    /// The raw text of the expression.
    pub value: String,
}

impl Clone for UnexpandedArithmeticExpr {
    fn clone(&self) -> (copy: UnexpandedArithmeticExpr)
        ensures
            copy == *self,
    {
        UnexpandedArithmeticExpr { value: self.value.clone() }
    }
}

impl Display for UnexpandedArithmeticExpr {
    open spec fn doc(&self) -> Doc {
        plain(self.value@)
    }

    fn fmt(&self, f: &mut Formatter) {
        f.write_str(self.value.as_str());
    }
}

} // verus!
