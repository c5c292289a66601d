//! Where a node starts and ends, in terms of where its parts do.

use vstd::prelude::*;
use vstd::std_specs::convert::FromSpec;

use super::{
    AndOr, AndOrList, ArithmeticCommand, ArithmeticExpr, ArithmeticForClauseCommand,
    ArithmeticTarget, Assignment, AssignmentValue, BraceGroupCommand, CaseClauseCommand, CaseItem,
    Command, CommandPrefix, CommandPrefixOrSuffixItem, CommandSuffix, CompoundCommand, CompoundList,
    CompoundListItem, CoprocessCommand, ExtendedTestExprCommand, ForClauseCommand, FunctionBody,
    FunctionDefinition, IfClauseCommand, IoHereDocument, IoRedirect, Pipeline, PipelineOperator,
    PipelineTimed, Program, RedirectList, SimpleCommand, SourceLocation, SubshellCommand, TestExpr,
    WhileOrUntilClauseCommand, Word,
};
use crate::source::{SourcePosition, SourceSpan};
use crate::tokenizer::Token;

verus! {

/// Whether a span runs from where the first item starts to where the last one ends, and is
/// unknown where the location of either is.
pub open spec fn runs(
    span: Option<SourceSpan>,
    first: Option<SourceSpan>,
    last: Option<SourceSpan>,
) -> bool {
    &&& span is Some <==> first is Some && last is Some
    &&& span is Some ==> span->0.start == first->0.start && span->0.end == last->0.end
}

/// Whether a span runs from where the first item starts to where the last one ends, or to where
/// the first one ends where the location of the last is unknown.
pub open spec fn runs_at_least(
    span: Option<SourceSpan>,
    first: Option<SourceSpan>,
    last: Option<SourceSpan>,
) -> bool {
    &&& span is Some <==> first is Some
    &&& span is Some ==> span->0.start == first->0.start
    &&& span is Some && last is Some ==> span->0.end == last->0.end
    &&& span is Some && last is None ==> span->0.end == first->0.end
}

/// A span within two others starts where the first does and ends where the second does. The span
/// of what has no source is all zero.
pub proof fn law_spans(first: SourceSpan, last: SourceSpan)
    ensures
        SourceSpan::spanning(first, last).start == first.start,
        SourceSpan::spanning(first, last).end == last.end,
        *SourceSpan::unknown().start == (SourcePosition { index: 0, line: 0, column: 0 }),
        *SourceSpan::unknown().end == (SourcePosition { index: 0, line: 0, column: 0 }),
{
}

/// A program runs from its first complete command to its last; without commands it has no
/// location.
pub proof fn law_program_location(program: Program)
    ensures
        program.complete_commands@.len() == 0 ==> program.span() is None,
        program.complete_commands@.len() > 0 ==> runs(
            program.span(),
            program.complete_commands@[0].span(),
            program.complete_commands@[program.complete_commands@.len() - 1].span(),
        ),
{
}

/// A list runs from its first item to its last, and an item is where its and-or list is.
pub proof fn law_list_location(list: CompoundList, item: CompoundListItem)
    ensures
        list.0@.len() == 0 ==> list.span() is None,
        list.0@.len() > 0 ==> runs(
            list.span(),
            list.0@[0].span(),
            list.0@[list.0@.len() - 1].span(),
        ),
        item.span() == item.0.span(),
{
}

/// An and-or list runs from its first pipeline to the last of all its pipelines, however many
/// there are; where the last one is not located, it ends where the first one does.
pub proof fn law_and_or_list_location(list: AndOrList)
    ensures
        list.pipelines().len() == 1 ==> list.span() == list.first.span(),
        list.pipelines().len() > 1 ==> runs_at_least(
            list.span(),
            list.first.span(),
            list.pipelines()[list.pipelines().len() - 1].1.span(),
        ),
        list.pipelines().len() == list.additional@.len() + 1,
        list.additional@.len() > 0 ==> runs_at_least(
            list.span(),
            list.first.span(),
            list.additional@[list.additional@.len() - 1].span(),
        ),
{
}

/// An item of an and-or list is where its pipeline is.
pub proof fn law_and_or_location(pipeline: Pipeline)
    ensures
        AndOr::And(pipeline).span() == pipeline.span(),
        AndOr::Or(pipeline).span() == pipeline.span(),
{
}

/// The operator and the pipeline of an item are those that it was made of.
pub proof fn law_and_or_parts(pipeline: Pipeline)
    ensures
        AndOr::And(pipeline).operator() == PipelineOperator::And,
        AndOr::Or(pipeline).operator() == PipelineOperator::Or,
        AndOr::And(pipeline).pipeline() == pipeline,
        AndOr::Or(pipeline).pipeline() == pipeline,
{
}

/// A pipeline runs from the word that asks for its timing, or else from its first command, to its
/// last command; without commands it has no location.
pub proof fn law_pipeline_location(pipeline: Pipeline)
    ensures
        pipeline.seq@.len() == 0 ==> pipeline.span() is None,
        pipeline.seq@.len() > 0 ==> runs(
            pipeline.span(),
            match pipeline.timed {
                Some(PipelineTimed::Timed(t)) => Some(t),
                Some(PipelineTimed::TimedWithPosixOutput(t)) => Some(t),
                None => pipeline.seq@[0].span(),
            },
            pipeline.seq@[pipeline.seq@.len() - 1].span(),
        ),
{
}

/// What asks for timing is where it was found.
pub proof fn law_timed_location(loc: SourceSpan)
    ensures
        PipelineTimed::Timed(loc).span() == Some(loc),
        PipelineTimed::TimedWithPosixOutput(loc).span() == Some(loc),
{
}

/// A command is where what it is made of is; a compound command runs on to its redirections where
/// those are located.
pub proof fn law_command_location(
    simple: SimpleCommand,
    compound: CompoundCommand,
    redirects: RedirectList,
    function: FunctionDefinition,
)
    ensures
        Command::Simple(simple).span() == simple.span(),
        Command::Function(function).span() == function.span(),
        Command::Compound(compound, None).span() == compound.span(),
        runs_at_least(
            Command::Compound(compound, Some(redirects)).span(),
            compound.span(),
            redirects.span(),
        ),
{
}

/// A simple command has a location where its prefix or its name has one. It starts with the first
/// of these and ends with its suffix, or else its name, or else its prefix.
pub proof fn law_simple_command_location(command: SimpleCommand)
    ensures
        ({
            let prefix = match command.prefix {
                Some(prefix) => prefix.span(),
                None => None,
            };
            let name = match command.word_or_name {
                Some(name) => name.loc,
                None => None,
            };
            let suffix = match command.suffix {
                Some(suffix) => suffix.span(),
                None => None,
            };
            let span = command.span();
            &&& span is Some <==> prefix is Some || name is Some
            &&& span is Some && prefix is Some ==> span->0.start == prefix->0.start
            &&& span is Some && prefix is None ==> span->0.start == name->0.start
            &&& span is Some && suffix is Some ==> span->0.end == suffix->0.end
            &&& span is Some && suffix is None && name is Some ==> span->0.end == name->0.end
            &&& span is Some && suffix is None && name is None ==> span->0.end == prefix->0.end
        }),
{
}

/// A prefix and a suffix run from their first item to their last.
pub proof fn law_affix_location(prefix: CommandPrefix, suffix: CommandSuffix)
    ensures
        prefix.0@.len() == 0 ==> prefix.span() is None,
        prefix.0@.len() > 0 ==> runs(
            prefix.span(),
            prefix.0@[0].span(),
            prefix.0@[prefix.0@.len() - 1].span(),
        ),
        suffix.0@.len() == 0 ==> suffix.span() is None,
        suffix.0@.len() > 0 ==> runs(
            suffix.span(),
            suffix.0@[0].span(),
            suffix.0@[suffix.0@.len() - 1].span(),
        ),
{
}

/// An item of a prefix or suffix is where its word, its assignment or its command is.
pub proof fn law_item_location(item: CommandPrefixOrSuffixItem)
    ensures
        item.span() == match item {
            CommandPrefixOrSuffixItem::IoRedirect(_) => None,
            CommandPrefixOrSuffixItem::Word(word) => word.loc,
            CommandPrefixOrSuffixItem::AssignmentWord(assignment, _) => Some(assignment.loc),
            CommandPrefixOrSuffixItem::ProcessSubstitution(_, command) => Some(command.loc),
        },
{
}

/// Redirections, here-documents and expressions have no location.
pub proof fn law_no_location(
    redirect: IoRedirect,
    redirects: RedirectList,
    document: IoHereDocument,
    test: TestExpr,
    expr: ArithmeticExpr,
    target: ArithmeticTarget,
)
    ensures
        redirect.span() is None,
        redirects.span() is None,
        document.span() is None,
        test.span() is None,
        expr.span() is None,
        target.span() is None,
{
}

/// A compound command is where it was found.
pub proof fn law_compound_command_location(command: CompoundCommand)
    ensures
        command.span() == Some(
            match command {
                CompoundCommand::Arithmetic(c) => c.loc,
                CompoundCommand::ArithmeticForClause(c) => c.loc,
                CompoundCommand::BraceGroup(c) => c.loc,
                CompoundCommand::Subshell(c) => c.loc,
                CompoundCommand::ForClause(c) => c.loc,
                CompoundCommand::CaseClause(c) => c.loc,
                CompoundCommand::IfClause(c) => c.loc,
                CompoundCommand::WhileClause(c) => c.2,
                CompoundCommand::UntilClause(c) => c.2,
                CompoundCommand::Coprocess(c) => c.loc,
                CompoundCommand::ExtendedTest(c) => c.loc,
            },
        ),
{
}

/// So are the clauses and groups that compound commands are made of.
pub proof fn law_clause_locations(
    arithmetic: ArithmeticCommand,
    arithmetic_for: ArithmeticForClauseCommand,
    group: BraceGroupCommand,
    subshell: SubshellCommand,
    for_clause: ForClauseCommand,
    case: CaseClauseCommand,
    if_clause: IfClauseCommand,
    while_clause: WhileOrUntilClauseCommand,
    coprocess: CoprocessCommand,
    test: ExtendedTestExprCommand,
)
    ensures
        arithmetic.span() == Some(arithmetic.loc),
        arithmetic_for.span() == Some(arithmetic_for.loc),
        group.span() == Some(group.loc),
        subshell.span() == Some(subshell.loc),
        for_clause.span() == Some(for_clause.loc),
        case.span() == Some(case.loc),
        if_clause.span() == Some(if_clause.loc),
        while_clause.span() == Some(while_clause.2),
        coprocess.span() == Some(coprocess.loc),
        test.span() == Some(test.loc),
{
}

/// A function definition runs from its name to its body; a body runs on to its redirections where
/// those are located.
pub proof fn law_function_location(f: FunctionDefinition, body: FunctionBody)
    ensures
        runs(f.span(), f.fname.loc, f.body.span()),
        body.1 is None ==> body.span() == body.0.span(),
        body.1 is Some ==> runs_at_least(body.span(), body.0.span(), body.1->0.span()),
{
}

/// A word, a case item and an assignment are where they were found, as far as that is known; a
/// scalar value is where its word is, and an array value runs from its first value to its last.
pub proof fn law_word_location(
    word: Word,
    item: CaseItem,
    assignment: Assignment,
    array: Vec<(Option<Word>, Word)>,
)
    ensures
        word.span() == word.loc,
        item.span() == item.loc,
        assignment.span() == Some(assignment.loc),
        AssignmentValue::Scalar(word).span() == word.loc,
        array@.len() == 0 ==> AssignmentValue::Array(array).span() is None,
        array@.len() > 0 ==> runs(
            AssignmentValue::Array(array).span(),
            array@[0].1.loc,
            array@[array@.len() - 1].1.loc,
        ),
{
}

/// A word made from a token has the token's text and location, whatever the token is.
pub proof fn law_word_from_token(value: String, loc: SourceSpan, text: String)
    ensures
        ({
            let from_word = <Word as FromSpec<&Token>>::from_spec(&Token::Word(value, loc));
            let from_operator = <Word as FromSpec<&Token>>::from_spec(&Token::Operator(value, loc));
            &&& from_word.value == value
            &&& from_word.loc == Some(loc)
            &&& from_operator == from_word
        }),
        <Word as FromSpec<String>>::from_spec(text).value == text,
        <Word as FromSpec<String>>::from_spec(text).loc is None,
{
}

} // verus!
