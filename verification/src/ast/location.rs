//! Where commands are in the source text.

use vstd::prelude::*;

use super::{
    maybe_location, span_between, span_extended, AndOr, AndOrList, ArithmeticCommand,
    ArithmeticForClauseCommand, Assignment, AssignmentValue, BraceGroupCommand, CaseClauseCommand,
    CaseItem, Command, CommandPrefix, CommandPrefixOrSuffixItem, CommandSuffix, CompoundCommand,
    CompoundList, CompoundListItem, CoprocessCommand, ForClauseCommand, FunctionBody,
    FunctionDefinition, IfClauseCommand, IoHereDocument, IoRedirect, Node, Pipeline, PipelineTimed,
    Program, RedirectList, SimpleCommand, SourceLocation, SubshellCommand,
    WhileOrUntilClauseCommand,
};
use crate::source::SourceSpan;

verus! {

/// From the first of the items to the last, where there are any and both locations are known.
pub open spec fn span_of_all<T: SourceLocation>(items: Seq<T>) -> Option<SourceSpan> {
    if items.len() == 0 {
        None
    } else {
        span_between(items.first().span(), items.last().span())
    }
}

fn location_of_all<T: SourceLocation>(items: &Vec<T>) -> (r: Option<SourceSpan>)
    ensures
        r == span_of_all(items@),
{
    let n: usize = items.len();
    if n == 0 {
        None
    } else {
        let start = items[0].location();
        let end = items[n - 1].location();
        maybe_location(start.as_ref(), end.as_ref())
    }
}

/// The location of an item that may be absent.
pub open spec fn span_if_any<T: SourceLocation>(item: Option<T>) -> Option<SourceSpan> {
    match item {
        Some(item) => item.span(),
        None => None,
    }
}

fn location_if_any<T: SourceLocation>(item: &Option<T>) -> (r: Option<SourceSpan>)
    ensures
        r == span_if_any(*item),
{
    match item {
        Some(item) => item.location(),
        None => None,
    }
}

/// From the first item to the second, where the location of the second is known, else the first.
fn extended_location(start: Option<SourceSpan>, end: Option<SourceSpan>) -> (r: Option<SourceSpan>)
    ensures
        r == span_extended(start, end),
{
    match (start, end) {
        (Some(s), Some(e)) => Some(SourceSpan::within(&s, &e)),
        (s, _) => s,
    }
}

impl Node for Program {

}

impl SourceLocation for Program {
    open spec fn span(&self) -> Option<SourceSpan> {
        span_of_all(self.complete_commands@)
    }

    fn location(&self) -> (r: Option<SourceSpan>) {
        location_of_all(&self.complete_commands)
    }
}

impl Node for AndOrList {

}

impl SourceLocation for AndOrList {
    open spec fn span(&self) -> Option<SourceSpan> {
        span_extended(
            self.first.span(),
            if self.additional@.len() == 0 {
                None
            } else {
                self.additional@.last().span()
            },
        )
    }

    fn location(&self) -> (r: Option<SourceSpan>) {
        let start = self.first.location();
        let n: usize = self.additional.len();
        let end = if n == 0 {
            None
        } else {
            self.additional[n - 1].location()
        };
        extended_location(start, end)
    }
}

impl Node for AndOr {

}

impl SourceLocation for AndOr {
    open spec fn span(&self) -> Option<SourceSpan> {
        match self {
            AndOr::And(p) => p.span(),
            AndOr::Or(p) => p.span(),
        }
    }

    fn location(&self) -> (r: Option<SourceSpan>) {
        match self {
            AndOr::And(p) => p.location(),
            AndOr::Or(p) => p.location(),
        }
    }
}

impl Node for PipelineTimed {

}

impl SourceLocation for PipelineTimed {
    open spec fn span(&self) -> Option<SourceSpan> {
        match self {
            PipelineTimed::Timed(t) => Some(*t),
            PipelineTimed::TimedWithPosixOutput(t) => Some(*t),
        }
    }

    fn location(&self) -> (r: Option<SourceSpan>) {
        match self {
            PipelineTimed::Timed(t) => Some(t.clone()),
            PipelineTimed::TimedWithPosixOutput(t) => Some(t.clone()),
        }
    }
}

impl Node for Pipeline {

}

impl SourceLocation for Pipeline {
    open spec fn span(&self) -> Option<SourceSpan> {
        if self.seq@.len() == 0 {
            None
        } else {
            span_between(
                match self.timed {
                    Some(timed) => timed.span(),
                    None => self.seq@.first().span(),
                },
                self.seq@.last().span(),
            )
        }
    }

    fn location(&self) -> (r: Option<SourceSpan>) {
        let n: usize = self.seq.len();
        if n == 0 {
            return None;
        }
        let start = match &self.timed {
            Some(timed) => timed.location(),
            None => self.seq[0].location(),
        };
        let end = self.seq[n - 1].location();
        maybe_location(start.as_ref(), end.as_ref())
    }
}

impl Node for Command {

}

impl SourceLocation for Command {
    open spec fn span(&self) -> Option<SourceSpan> {
        match self {
            Command::Simple(s) => s.span(),
            Command::Compound(c, r) => span_extended(c.span(), span_if_any(*r)),
            Command::Function(f) => f.span(),
        }
    }

    fn location(&self) -> (r: Option<SourceSpan>) {
        match self {
            Command::Simple(s) => s.location(),
            Command::Compound(c, r) => extended_location(c.location(), location_if_any(r)),
            Command::Function(f) => f.location(),
        }
    }
}

impl Node for CompoundCommand {

}

impl SourceLocation for CompoundCommand {
    open spec fn span(&self) -> Option<SourceSpan> {
        match self {
            CompoundCommand::Arithmetic(c) => c.span(),
            CompoundCommand::ArithmeticForClause(c) => c.span(),
            CompoundCommand::BraceGroup(c) => c.span(),
            CompoundCommand::Subshell(c) => c.span(),
            CompoundCommand::ForClause(c) => c.span(),
            CompoundCommand::CaseClause(c) => c.span(),
            CompoundCommand::IfClause(c) => c.span(),
            CompoundCommand::WhileClause(c) => c.span(),
            CompoundCommand::UntilClause(c) => c.span(),
            CompoundCommand::Coprocess(c) => c.span(),
            CompoundCommand::ExtendedTest(c) => c.span(),
        }
    }

    fn location(&self) -> (r: Option<SourceSpan>) {
        match self {
            CompoundCommand::Arithmetic(c) => c.location(),
            CompoundCommand::ArithmeticForClause(c) => c.location(),
            CompoundCommand::BraceGroup(c) => c.location(),
            CompoundCommand::Subshell(c) => c.location(),
            CompoundCommand::ForClause(c) => c.location(),
            CompoundCommand::CaseClause(c) => c.location(),
            CompoundCommand::IfClause(c) => c.location(),
            CompoundCommand::WhileClause(c) => c.location(),
            CompoundCommand::UntilClause(c) => c.location(),
            CompoundCommand::Coprocess(c) => c.location(),
            CompoundCommand::ExtendedTest(c) => c.location(),
        }
    }
}

impl Node for ArithmeticCommand {

}

impl SourceLocation for ArithmeticCommand {
    open spec fn span(&self) -> Option<SourceSpan> {
        Some(self.loc)
    }

    fn location(&self) -> (r: Option<SourceSpan>) {
        Some(self.loc.clone())
    }
}

impl Node for SubshellCommand {

}

impl SourceLocation for SubshellCommand {
    open spec fn span(&self) -> Option<SourceSpan> {
        Some(self.loc)
    }

    fn location(&self) -> (r: Option<SourceSpan>) {
        Some(self.loc.clone())
    }
}

impl Node for ForClauseCommand {

}

impl SourceLocation for ForClauseCommand {
    open spec fn span(&self) -> Option<SourceSpan> {
        Some(self.loc)
    }

    fn location(&self) -> (r: Option<SourceSpan>) {
        Some(self.loc.clone())
    }
}

impl Node for ArithmeticForClauseCommand {

}

impl SourceLocation for ArithmeticForClauseCommand {
    open spec fn span(&self) -> Option<SourceSpan> {
        Some(self.loc)
    }

    fn location(&self) -> (r: Option<SourceSpan>) {
        Some(self.loc.clone())
    }
}

impl Node for CaseClauseCommand {

}

impl SourceLocation for CaseClauseCommand {
    open spec fn span(&self) -> Option<SourceSpan> {
        Some(self.loc)
    }

    fn location(&self) -> (r: Option<SourceSpan>) {
        Some(self.loc.clone())
    }
}

impl Node for CompoundList {

}

impl SourceLocation for CompoundList {
    open spec fn span(&self) -> Option<SourceSpan> {
        span_of_all(self.0@)
    }

    fn location(&self) -> (r: Option<SourceSpan>) {
        location_of_all(&self.0)
    }
}

impl Node for CompoundListItem {

}

impl SourceLocation for CompoundListItem {
    open spec fn span(&self) -> Option<SourceSpan> {
        self.0.span()
    }

    fn location(&self) -> (r: Option<SourceSpan>) {
        self.0.location()
    }
}

impl Node for IfClauseCommand {

}

impl SourceLocation for IfClauseCommand {
    open spec fn span(&self) -> Option<SourceSpan> {
        Some(self.loc)
    }

    fn location(&self) -> (r: Option<SourceSpan>) {
        Some(self.loc.clone())
    }
}

impl Node for CoprocessCommand {

}

impl SourceLocation for CoprocessCommand {
    open spec fn span(&self) -> Option<SourceSpan> {
        Some(self.loc)
    }

    fn location(&self) -> (r: Option<SourceSpan>) {
        Some(self.loc.clone())
    }
}

impl Node for CaseItem {

}

impl SourceLocation for CaseItem {
    open spec fn span(&self) -> Option<SourceSpan> {
        self.loc
    }

    fn location(&self) -> (r: Option<SourceSpan>) {
        self.loc.clone()
    }
}

impl Node for WhileOrUntilClauseCommand {

}

impl SourceLocation for WhileOrUntilClauseCommand {
    open spec fn span(&self) -> Option<SourceSpan> {
        Some(self.2)
    }

    fn location(&self) -> (r: Option<SourceSpan>) {
        Some(self.2.clone())
    }
}

impl Node for FunctionDefinition {

}

impl SourceLocation for FunctionDefinition {
    open spec fn span(&self) -> Option<SourceSpan> {
        span_between(self.fname.span(), self.body.span())
    }

    fn location(&self) -> (r: Option<SourceSpan>) {
        let start = self.fname.location();
        let end = self.body.location();
        maybe_location(start.as_ref(), end.as_ref())
    }
}

impl Node for FunctionBody {

}

impl SourceLocation for FunctionBody {
    open spec fn span(&self) -> Option<SourceSpan> {
        span_extended(self.0.span(), span_if_any(self.1))
    }

    fn location(&self) -> (r: Option<SourceSpan>) {
        extended_location(self.0.location(), location_if_any(&self.1))
    }
}

impl Node for BraceGroupCommand {

}

impl SourceLocation for BraceGroupCommand {
    open spec fn span(&self) -> Option<SourceSpan> {
        Some(self.loc)
    }

    fn location(&self) -> (r: Option<SourceSpan>) {
        Some(self.loc.clone())
    }
}

impl Node for SimpleCommand {

}

impl SourceLocation for SimpleCommand {
    open spec fn span(&self) -> Option<SourceSpan> {
        let start = span_if_any(self.prefix);
        let mid = span_if_any(self.word_or_name);
        let end = span_if_any(self.suffix);
        match (start, mid, end) {
            (Some(start), _, Some(end)) => Some(SourceSpan::spanning(start, end)),
            (Some(start), Some(mid), None) => Some(SourceSpan::spanning(start, mid)),
            (Some(start), None, None) => Some(start),
            (None, Some(mid), Some(end)) => Some(SourceSpan::spanning(mid, end)),
            (None, Some(mid), None) => Some(mid),
            (None, None, _) => None,
        }
    }

    fn location(&self) -> (r: Option<SourceSpan>) {
        let start = location_if_any(&self.prefix);
        let mid = location_if_any(&self.word_or_name);
        let end = location_if_any(&self.suffix);
        match (start, mid, end) {
            (Some(start), _, Some(end)) => Some(SourceSpan::within(&start, &end)),
            (Some(start), Some(mid), None) => Some(SourceSpan::within(&start, &mid)),
            (Some(start), None, None) => Some(start),
            (None, Some(mid), Some(end)) => Some(SourceSpan::within(&mid, &end)),
            (None, Some(mid), None) => Some(mid),
            _ => None,
        }
    }
}

impl Node for CommandPrefix {

}

impl SourceLocation for CommandPrefix {
    open spec fn span(&self) -> Option<SourceSpan> {
        span_of_all(self.0@)
    }

    fn location(&self) -> (r: Option<SourceSpan>) {
        location_of_all(&self.0)
    }
}

impl Node for CommandSuffix {

}

impl SourceLocation for CommandSuffix {
    open spec fn span(&self) -> Option<SourceSpan> {
        span_of_all(self.0@)
    }

    fn location(&self) -> (r: Option<SourceSpan>) {
        location_of_all(&self.0)
    }
}

impl Node for CommandPrefixOrSuffixItem {

}

impl SourceLocation for CommandPrefixOrSuffixItem {
    open spec fn span(&self) -> Option<SourceSpan> {
        match self {
            CommandPrefixOrSuffixItem::Word(w) => w.span(),
            CommandPrefixOrSuffixItem::IoRedirect(io_redirect) => io_redirect.span(),
            CommandPrefixOrSuffixItem::AssignmentWord(assignment, _word) => assignment.span(),
            CommandPrefixOrSuffixItem::ProcessSubstitution(_kind, cmd) => cmd.span(),
        }
    }

    fn location(&self) -> (r: Option<SourceSpan>) {
        match self {
            CommandPrefixOrSuffixItem::Word(w) => w.location(),
            CommandPrefixOrSuffixItem::IoRedirect(io_redirect) => io_redirect.location(),
            CommandPrefixOrSuffixItem::AssignmentWord(assignment, _word) => assignment.location(),
            CommandPrefixOrSuffixItem::ProcessSubstitution(_kind, cmd) => cmd.location(),
        }
    }
}

impl Node for Assignment {

}

impl SourceLocation for Assignment {
    open spec fn span(&self) -> Option<SourceSpan> {
        Some(self.loc)
    }

    fn location(&self) -> (r: Option<SourceSpan>) {
        Some(self.loc.clone())
    }
}

impl Node for AssignmentValue {

}

impl SourceLocation for AssignmentValue {
    open spec fn span(&self) -> Option<SourceSpan> {
        match self {
            AssignmentValue::Scalar(word) => word.span(),
            AssignmentValue::Array(words) => if words@.len() == 0 {
                None
            } else {
                span_between(words@.first().1.span(), words@.last().1.span())
            },
        }
    }

    fn location(&self) -> (r: Option<SourceSpan>) {
        match self {
            AssignmentValue::Scalar(word) => word.location(),
            AssignmentValue::Array(words) => {
                let n: usize = words.len();
                if n == 0 {
                    None
                } else {
                    let first = words[0].1.location();
                    let last = words[n - 1].1.location();
                    maybe_location(first.as_ref(), last.as_ref())
                }
            },
        }
    }
}

impl Node for RedirectList {

}

impl SourceLocation for RedirectList {
    open spec fn span(&self) -> Option<SourceSpan> {
        span_of_all(self.0@)
    }

    fn location(&self) -> (r: Option<SourceSpan>) {
        location_of_all(&self.0)
    }
}

impl Node for IoRedirect {

}

impl SourceLocation for IoRedirect {
    open spec fn span(&self) -> Option<SourceSpan> {
        None
    }

    fn location(&self) -> (r: Option<SourceSpan>) {
        None
    }
}

impl Node for IoHereDocument {

}

impl SourceLocation for IoHereDocument {
    open spec fn span(&self) -> Option<SourceSpan> {
        None
    }

    fn location(&self) -> (r: Option<SourceSpan>) {
        None
    }
}

} // verus!
