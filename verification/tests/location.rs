use std::sync::Arc;

use brush_ast::ast::{
    AndOr, AndOrList, ArithmeticExpr, ArithmeticTarget, Assignment, AssignmentName,
    AssignmentValue, BraceGroupCommand, CaseItem, CaseItemPostAction, Command, CommandPrefix,
    CommandPrefixOrSuffixItem, CommandSuffix, CompoundCommand, CompoundList, CompoundListItem,
    DoGroupCommand, ForClauseCommand, FunctionBody, FunctionDefinition, IoFileRedirectKind,
    IoFileRedirectTarget, IoHereDocument, IoRedirect, Pipeline, PipelineTimed,
    ProcessSubstitutionKind, Program, RedirectList, SeparatorOperator, SimpleCommand,
    SourceLocation, SubshellCommand, TestExpr, WhileOrUntilClauseCommand, Word,
};
use brush_ast::source::{SourcePosition, SourceSpan};

/// The position of the character with the given index.
fn position(input: &str, index: usize) -> Arc<SourcePosition> {
    let before = &input[..index];
    let line_start = before.rfind('\n').map_or(0, |i| i + 1);
    Arc::new(SourcePosition {
        index,
        line: before.matches('\n').count() + 1,
        column: index - line_start + 1,
    })
}

/// The span of the first occurrence of `text` from the given index on.
fn span_of(input: &str, text: &str, from: usize) -> SourceSpan {
    let start = from + input[from..].find(text).unwrap();
    SourceSpan {
        start: position(input, start),
        end: position(input, start + text.len()),
    }
}

fn word(input: &str, text: &str, from: usize) -> Word {
    Word::with_location(text, &span_of(input, text, from))
}

fn argument(input: &str, text: &str, from: usize) -> CommandPrefixOrSuffixItem {
    CommandPrefixOrSuffixItem::Word(word(input, text, from))
}

fn simple(
    prefix: Vec<CommandPrefixOrSuffixItem>,
    name: Option<Word>,
    suffix: Vec<CommandPrefixOrSuffixItem>,
) -> SimpleCommand {
    SimpleCommand {
        prefix: if prefix.is_empty() { None } else { Some(CommandPrefix(prefix)) },
        word_or_name: name,
        suffix: if suffix.is_empty() { None } else { Some(CommandSuffix(suffix)) },
    }
}

fn pipeline(seq: Vec<Command>) -> Pipeline {
    Pipeline { timed: None, bang: false, seq }
}

fn item(command: Command) -> CompoundListItem {
    CompoundListItem(
        AndOrList { first: pipeline(vec![command]), additional: vec![] },
        SeparatorOperator::Sequence,
    )
}

fn echo(input: &str, argument_text: &str, from: usize) -> CompoundListItem {
    item(Command::Simple(simple(
        vec![],
        Some(word(input, "echo", from)),
        vec![argument(input, argument_text, from)],
    )))
}

#[test]
fn program_source_loc() {
    const INPUT: &str = r"echo hi
echo there
";

    let program = Program {
        complete_commands: vec![
            CompoundList(vec![echo(INPUT, "hi", 0)]),
            CompoundList(vec![echo(INPUT, "there", 8)]),
        ],
    };

    let loc = program.location().unwrap();

    assert_eq!(
        *(loc.start),
        SourcePosition {
            line: 1,
            column: 1,
            index: 0
        }
    );
    assert_eq!(
        *(loc.end),
        SourcePosition {
            line: 2,
            column: 11,
            index: 18
        }
    );
}

#[test]
fn function_def_loc() {
    const INPUT: &str = r"my_func() {
  echo hi
  echo there
}

my_func
";

    let body = BraceGroupCommand {
        list: CompoundList(vec![echo(INPUT, "hi", 12), echo(INPUT, "there", 22)]),
        loc: span_of(INPUT, "{\n  echo hi\n  echo there\n}", 0),
    };
    let program = Program {
        complete_commands: vec![
            CompoundList(vec![item(Command::Function(FunctionDefinition {
                fname: word(INPUT, "my_func", 0),
                body: FunctionBody(CompoundCommand::BraceGroup(body), None),
            }))]),
            CompoundList(vec![item(Command::Simple(simple(
                vec![],
                Some(word(INPUT, "my_func", 12)),
                vec![],
            )))]),
        ],
    };

    let Command::Function(func_def) = &program.complete_commands[0].0[0].0.first.seq[0] else {
        panic!("expected function definition");
    };

    let loc = func_def.location().unwrap();

    assert_eq!(
        *(loc.start),
        SourcePosition {
            line: 1,
            column: 1,
            index: 0
        }
    );
    assert_eq!(
        *(loc.end),
        SourcePosition {
            line: 4,
            column: 2,
            index: 36
        }
    );
}

#[test]
fn simple_cmd_loc() {
    const INPUT: &str = r"var=value somecmd arg1 arg2
";

    let assignment = Assignment {
        name: AssignmentName::VariableName("var".to_owned()),
        value: AssignmentValue::Scalar(word(INPUT, "value", 0)),
        append: false,
        loc: span_of(INPUT, "var=value", 0),
    };
    let program = Program {
        complete_commands: vec![CompoundList(vec![item(Command::Simple(simple(
            vec![CommandPrefixOrSuffixItem::AssignmentWord(
                assignment,
                word(INPUT, "var=value", 0),
            )],
            Some(word(INPUT, "somecmd", 0)),
            vec![argument(INPUT, "arg1", 0), argument(INPUT, "arg2", 0)],
        )))])],
    };

    let Command::Simple(cmd) = &program.complete_commands[0].0[0].0.first.seq[0] else {
        panic!("expected function definition");
    };

    let loc = cmd.location().unwrap();

    assert_eq!(
        *(loc.start),
        SourcePosition {
            line: 1,
            column: 1,
            index: 0
        }
    );
    assert_eq!(
        *(loc.end),
        SourcePosition {
            line: 1,
            column: 28,
            index: 27
        }
    );
}

/// A span on one line, told apart by its two columns.
fn at(start: usize, end: usize) -> SourceSpan {
    SourceSpan {
        start: Arc::new(SourcePosition { index: start, line: 1, column: start + 1 }),
        end: Arc::new(SourcePosition { index: end, line: 1, column: end + 1 }),
    }
}

fn located(text: &str, start: usize, end: usize) -> Word {
    Word::with_location(text, &at(start, end))
}

fn located_command(start: usize, end: usize) -> Command {
    Command::Simple(simple(vec![], Some(located("c", start, end)), vec![]))
}

fn unlocated_command() -> Command {
    Command::Simple(simple(vec![], Some(Word::new("c")), vec![]))
}

#[test]
fn a_span_within_two_others_runs_from_the_first_to_the_second() {
    assert_eq!(SourceSpan::within(&at(3, 5), &at(8, 9)), at(3, 9));
    assert_eq!(SourceSpan::within(&at(3, 5), &at(3, 5)), at(3, 5));
}

#[test]
fn a_copied_span_shares_its_positions() {
    let span = at(3, 5);
    let copy = span.clone();
    assert_eq!(copy, span);
    assert!(Arc::ptr_eq(&copy.start, &span.start));
    assert!(Arc::ptr_eq(&copy.end, &span.end));
}

#[test]
fn the_default_span_is_all_zero() {
    let zero = SourcePosition { index: 0, line: 0, column: 0 };
    assert_eq!(SourcePosition::default(), zero);
    assert_eq!(*SourceSpan::default().start, zero);
    assert_eq!(*SourceSpan::default().end, zero);
}

#[test]
fn simple_command_location_goes_by_what_is_located() {
    let prefix = || vec![CommandPrefixOrSuffixItem::Word(located("p", 0, 1))];
    let suffix = || vec![CommandPrefixOrSuffixItem::Word(located("s", 6, 7))];
    let name = || Some(located("n", 3, 4));

    assert_eq!(simple(prefix(), name(), suffix()).location(), Some(at(0, 7)));
    assert_eq!(simple(prefix(), None, suffix()).location(), Some(at(0, 7)));
    assert_eq!(simple(prefix(), name(), vec![]).location(), Some(at(0, 4)));
    assert_eq!(simple(prefix(), None, vec![]).location(), Some(at(0, 1)));
    assert_eq!(simple(vec![], name(), suffix()).location(), Some(at(3, 7)));
    assert_eq!(simple(vec![], name(), vec![]).location(), Some(at(3, 4)));
    assert_eq!(simple(vec![], None, suffix()).location(), None);
    assert_eq!(simple(vec![], None, vec![]).location(), None);
}

#[test]
fn a_list_is_located_by_its_first_and_last_item() {
    let list = CompoundList(vec![
        item(located_command(0, 1)),
        item(unlocated_command()),
        item(located_command(7, 9)),
    ]);
    assert_eq!(list.location(), Some(at(0, 9)));
    let list = CompoundList(vec![item(located_command(0, 1)), item(unlocated_command())]);
    assert_eq!(list.location(), None);
    assert_eq!(CompoundList(vec![]).location(), None);
    assert_eq!(CompoundList(vec![item(located_command(4, 6))]).location(), Some(at(4, 6)));
    assert_eq!(item(located_command(4, 6)).location(), Some(at(4, 6)));
    assert_eq!(Program { complete_commands: vec![] }.location(), None);
}

#[test]
fn an_and_or_list_falls_back_to_its_first_pipeline() {
    let list = |additional: Vec<AndOr>| AndOrList {
        first: pipeline(vec![located_command(0, 2)]),
        additional,
    };
    assert_eq!(list(vec![]).location(), Some(at(0, 2)));
    let last = AndOr::Or(pipeline(vec![located_command(8, 9)]));
    assert_eq!(last.location(), Some(at(8, 9)));
    assert_eq!(list(vec![last]).location(), Some(at(0, 9)));
    let unlocated = AndOr::And(pipeline(vec![unlocated_command()]));
    assert_eq!(list(vec![unlocated]).location(), Some(at(0, 2)));
    let unlocated_first = AndOrList {
        first: pipeline(vec![unlocated_command()]),
        additional: vec![AndOr::And(pipeline(vec![located_command(8, 9)]))],
    };
    assert_eq!(unlocated_first.location(), None);
}

#[test]
fn a_timed_pipeline_starts_at_the_reserved_word() {
    let timed = PipelineTimed::TimedWithPosixOutput(at(0, 7));
    assert_eq!(timed.location(), Some(at(0, 7)));
    assert!(timed.is_posix_output());
    assert!(!PipelineTimed::Timed(at(0, 4)).is_posix_output());
    let seq = || vec![located_command(8, 9), located_command(12, 13)];
    let timed = Pipeline { timed: Some(timed), bang: true, seq: seq() };
    assert_eq!(timed.location(), Some(at(0, 13)));
    assert_eq!(pipeline(seq()).location(), Some(at(8, 13)));
    let empty = Pipeline { timed: Some(PipelineTimed::Timed(at(0, 4))), bang: false, seq: vec![] };
    assert_eq!(empty.location(), None);
}

fn brace_group(start: usize, end: usize) -> CompoundCommand {
    CompoundCommand::BraceGroup(BraceGroupCommand {
        list: CompoundList(vec![]),
        loc: at(start, end),
    })
}

fn located_redirects() -> RedirectList {
    RedirectList(vec![IoRedirect::OutputAndError(located("f", 20, 21), false)])
}

#[test]
fn redirections_have_no_location() {
    assert_eq!(located_redirects().0[0].location(), None);
    assert_eq!(located_redirects().location(), None);
    let document = IoHereDocument {
        remove_tabs: false,
        requires_expansion: false,
        here_end: located("EOF", 0, 3),
        doc: located("x\n", 4, 6),
    };
    assert_eq!(document.location(), None);
    let item = CommandPrefixOrSuffixItem::IoRedirect(IoRedirect::File(
        None,
        IoFileRedirectKind::Read,
        IoFileRedirectTarget::Filename(located("f", 0, 1)),
    ));
    assert_eq!(item.location(), None);
}

#[test]
fn a_compound_command_with_redirections_is_located_by_itself() {
    let command = Command::Compound(brace_group(2, 8), Some(located_redirects()));
    assert_eq!(command.location(), Some(at(2, 8)));
    let command = Command::Compound(brace_group(2, 8), None);
    assert_eq!(command.location(), Some(at(2, 8)));
    let body = FunctionBody(brace_group(2, 8), Some(located_redirects()));
    assert_eq!(body.location(), Some(at(2, 8)));
    let definition = FunctionDefinition { fname: Word::new("f"), body };
    assert_eq!(definition.location(), None);
}

#[test]
fn clauses_are_located_by_their_own_span() {
    let body = || DoGroupCommand { list: CompoundList(vec![]), loc: at(9, 10) };
    let for_clause = ForClauseCommand {
        variable_name: "x".to_owned(),
        values: None,
        body: body(),
        loc: at(1, 2),
    };
    assert_eq!(CompoundCommand::ForClause(for_clause).location(), Some(at(1, 2)));
    let while_clause = WhileOrUntilClauseCommand(CompoundList(vec![]), body(), at(3, 4));
    assert_eq!(CompoundCommand::WhileClause(while_clause).location(), Some(at(3, 4)));
    let subshell = SubshellCommand { list: CompoundList(vec![]), loc: at(5, 6) };
    let substitution =
        CommandPrefixOrSuffixItem::ProcessSubstitution(ProcessSubstitutionKind::Read, subshell);
    assert_eq!(substitution.location(), Some(at(5, 6)));
    let case_item = CaseItem {
        patterns: vec![],
        cmd: None,
        post_action: CaseItemPostAction::ExitCase,
        loc: None,
    };
    assert_eq!(case_item.location(), None);
}

#[test]
fn an_array_value_is_located_by_its_first_and_last_value() {
    let array = AssignmentValue::Array(vec![
        (Some(located("k", 1, 2)), located("v", 4, 5)),
        (None, located("w", 6, 7)),
    ]);
    assert_eq!(array.location(), Some(at(4, 7)));
    assert_eq!(AssignmentValue::Array(vec![]).location(), None);
    assert_eq!(AssignmentValue::Scalar(located("v", 4, 5)).location(), Some(at(4, 5)));
}

#[test]
fn expressions_have_no_location() {
    assert_eq!(TestExpr::False.location(), None);
    assert_eq!(ArithmeticExpr::Literal(1).location(), None);
    assert_eq!(ArithmeticTarget::Variable("x".to_owned()).location(), None);
}
