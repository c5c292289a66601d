//! The abstract syntax tree for shell programs.

use vstd::prelude::*;

use crate::render::Display;
use crate::source::SourceSpan;

pub mod and_or;
pub mod arithmetic;
pub mod command;
pub mod copy;
pub mod copy_laws;
pub mod display;
pub mod expr_laws;
pub mod field_laws;
pub mod generate;
pub mod generate_laws;
pub mod here_docs;
pub mod laws;
pub mod location;
pub mod location_laws;
pub mod test_expr;
pub mod text_laws;
pub mod word;

pub use self::and_or::{AndOrListIter, PipelineOperator};
pub use self::arithmetic::{
    ArithmeticExpr, ArithmeticTarget, BinaryOperator, UnaryAssignmentOperator, UnaryOperator,
};
pub use self::command::{
    AndOr, AndOrList, ArithmeticCommand, ArithmeticForClauseCommand, Assignment, AssignmentName,
    AssignmentValue, BraceGroupCommand, CaseClauseCommand, CaseItem, CaseItemPostAction, Command,
    CommandPrefix, CommandPrefixOrSuffixItem, CommandSuffix, CompleteCommand, CompleteCommandItem,
    CompoundCommand, CompoundList, CompoundListItem, CoprocessCommand, DoGroupCommand, ElseClause,
    ForClauseCommand, FunctionBody, FunctionDefinition, IfClauseCommand, IoFd, IoFileRedirectKind,
    IoFileRedirectTarget, IoHereDocument, IoRedirect, Pipeline, PipelineTimed,
    ProcessSubstitutionKind, Program, RedirectList, SeparatorOperator, SimpleCommand,
    SubshellCommand, WhileOrUntilClauseCommand,
};
pub use self::test_expr::{
    BinaryPredicate, ExtendedTestExpr, ExtendedTestExprCommand, TestExpr, UnaryPredicate,
};
pub use self::word::{UnexpandedArithmeticExpr, Word};

verus! {

/// Provides the source location for the syntax item.
pub trait SourceLocation {
    /// Where the syntax item is, when known.
    spec fn span(&self) -> Option<SourceSpan>;

    /// The location of the syntax item, when known.
    fn location(&self) -> (r: Option<SourceSpan>)
        ensures
            r == self.span(),
    ;
}

/// Trait implemented by all AST nodes. Used to aggregate traits expected to be implemented.
pub trait Node: Display + SourceLocation {

}

/// The span from the start of one item to the end of another, where both are known.
pub open spec fn span_between(start: Option<SourceSpan>, end: Option<SourceSpan>) -> Option<
    SourceSpan,
> {
    match (start, end) {
        (Some(s), Some(e)) => Some(SourceSpan::spanning(s, e)),
        _ => None,
    }
}

/// The span from the start of one item to the end of another, where both are known; that of the
/// first where only the second is unknown.
pub open spec fn span_extended(start: Option<SourceSpan>, end: Option<SourceSpan>) -> Option<
    SourceSpan,
> {
    match (start, end) {
        (Some(s), Some(e)) => Some(SourceSpan::spanning(s, e)),
        _ => start,
    }
}

pub(crate) fn maybe_location(start: Option<&SourceSpan>, end: Option<&SourceSpan>) -> (r: Option<
    SourceSpan,
>)
    ensures
        r == span_between(
            match start {
                Some(s) => Some(*s),
                None => None,
            },
            match end {
                Some(e) => Some(*e),
                None => None,
            },
        ),
{
    if let (Some(s), Some(e)) = (start, end) {
        Some(SourceSpan::within(s, e))
    } else {
        None
    }
}

} // verus!
