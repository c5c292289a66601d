use brush_ast::ast::{
    AndOr, AndOrList, Assignment, AssignmentName, AssignmentValue, BraceGroupCommand,
    CaseClauseCommand, CaseItem, CaseItemPostAction, Command, CommandPrefix,
    CommandPrefixOrSuffixItem, CommandSuffix, CompoundCommand, CompoundList, CompoundListItem,
    DoGroupCommand, ElseClause, ForClauseCommand, FunctionBody, FunctionDefinition,
    IfClauseCommand, IoFileRedirectKind, IoFileRedirectTarget, IoHereDocument, IoRedirect,
    Pipeline, PipelineOperator, PipelineTimed, Program, RedirectList, SeparatorOperator,
    SimpleCommand, SourceLocation, WhileOrUntilClauseCommand, Word,
};
use brush_ast::render::Display;
use brush_ast::source::SourceSpan;
use brush_ast::tokenizer::Token;

fn run(name: &str) -> Command {
    Command::Simple(SimpleCommand {
        prefix: None,
        word_or_name: Some(Word::new(name)),
        suffix: None,
    })
}

fn pipeline(name: &str) -> Pipeline {
    Pipeline { timed: None, bang: false, seq: vec![run(name)] }
}

fn list(command: Command) -> CompoundList {
    CompoundList(vec![CompoundListItem(
        AndOrList {
            first: Pipeline { timed: None, bang: true, seq: vec![command] },
            additional: vec![AndOr::Or(pipeline("or"))],
        },
        SeparatorOperator::Async,
    )])
}

#[test]
fn the_pipelines_of_an_and_or_list_come_in_order() {
    let list = AndOrList {
        first: pipeline("a"),
        additional: vec![AndOr::Or(pipeline("b")), AndOr::And(pipeline("c"))],
    };
    let mut iter = list.iter();
    let mut seen = vec![];
    while let Some((operator, pipeline)) = iter.next() {
        seen.push((operator, pipeline.to_string()));
    }
    assert_eq!(
        seen,
        [
            (PipelineOperator::And, "a".to_owned()),
            (PipelineOperator::Or, "b".to_owned()),
            (PipelineOperator::And, "c".to_owned()),
        ]
    );
    assert!(iter.next().is_none());
    assert!(iter.next().is_none());
}

#[test]
fn operators_and_items_convert() {
    let and = AndOr::And(pipeline("a"));
    let or = AndOr::Or(pipeline("a"));
    assert!(PipelineOperator::And == and);
    assert!(PipelineOperator::And != or);
    assert!(PipelineOperator::Or == or);
    assert!(PipelineOperator::Or != and);
    let operator: PipelineOperator = and.into();
    assert_eq!(operator, PipelineOperator::And);
    let operator: PipelineOperator = or.into();
    assert_eq!(operator, PipelineOperator::Or);
    let b = pipeline("b");
    assert_eq!(AndOr::from((PipelineOperator::Or, &b)), AndOr::Or(pipeline("b")));
    assert_eq!(AndOr::from((PipelineOperator::And, &b)), AndOr::And(pipeline("b")));
}

#[test]
fn words_are_made_from_text_and_tokens() {
    let word = Word::new("a b");
    assert_eq!(word, Word { value: "a b".to_owned(), loc: None });
    assert_eq!(word.flatten(), "a b");
    assert_eq!(Word::from("x".to_owned()), Word::new("x"));
    assert_eq!(Word::from("a\nb".to_owned()).flatten(), "a\nb");
    let text: &str = word.as_ref();
    assert_eq!(text, "a b");
    let loc = SourceSpan::default();
    let located = Word { value: "w".to_owned(), loc: Some(SourceSpan::default()) };
    assert_eq!(Word::with_location("w", &loc), located);
    assert_eq!(Word::from(&Token::Word("w".to_owned(), SourceSpan::default())), located);
    assert_eq!(Word::from(&Token::Operator("w".to_owned(), SourceSpan::default())), located);
    assert_eq!(located.location(), Some(SourceSpan::default()));
}

#[test]
fn copies_are_equal() {
    let redirects = RedirectList(vec![
        IoRedirect::File(
            Some(2),
            IoFileRedirectKind::Append,
            IoFileRedirectTarget::Filename(Word::new("f")),
        ),
        IoRedirect::HereDocument(
            None,
            IoHereDocument {
                remove_tabs: true,
                requires_expansion: false,
                here_end: Word::new("EOF"),
                doc: Word::new("x\n"),
            },
        ),
        IoRedirect::HereString(None, Word::new("s")),
    ]);
    let for_clause = ForClauseCommand {
        variable_name: "i".to_owned(),
        values: Some(vec![Word::new("1"), Word::new("2")]),
        body: DoGroupCommand { list: list(run("body")), loc: SourceSpan::default() },
        loc: SourceSpan::default(),
    };
    let case = CaseClauseCommand {
        value: Word::new("v"),
        cases: vec![CaseItem {
            patterns: vec![Word::new("p")],
            cmd: Some(list(Command::Compound(CompoundCommand::ForClause(for_clause), None))),
            post_action: CaseItemPostAction::ExitCase,
            loc: Some(SourceSpan::default()),
        }],
        loc: SourceSpan::default(),
    };
    let simple = SimpleCommand {
        prefix: Some(CommandPrefix(vec![CommandPrefixOrSuffixItem::AssignmentWord(
            Assignment {
                name: AssignmentName::VariableName("a".to_owned()),
                value: AssignmentValue::Array(vec![(Some(Word::new("k")), Word::new("v"))]),
                append: true,
                loc: SourceSpan::default(),
            },
            Word::new("a+=([k]=v)"),
        )])),
        word_or_name: None,
        suffix: Some(CommandSuffix(vec![CommandPrefixOrSuffixItem::Word(Word::new("s"))])),
    };
    let if_clause = IfClauseCommand {
        condition: list(Command::Simple(simple)),
        then: list(Command::Compound(CompoundCommand::CaseClause(case), Some(redirects))),
        elses: Some(vec![ElseClause { condition: Some(list(run("c"))), body: list(run("d")) }]),
        loc: SourceSpan::default(),
    };
    let while_clause = WhileOrUntilClauseCommand(
        list(run("w")),
        DoGroupCommand {
            list: list(Command::Compound(CompoundCommand::IfClause(if_clause), None)),
            loc: SourceSpan::default(),
        },
        SourceSpan::default(),
    );
    let body = BraceGroupCommand {
        list: list(Command::Compound(CompoundCommand::WhileClause(while_clause), None)),
        loc: SourceSpan::default(),
    };
    let program = Program {
        complete_commands: vec![CompoundList(vec![CompoundListItem(
            AndOrList {
                first: Pipeline {
                    timed: Some(PipelineTimed::Timed(SourceSpan::default())),
                    bang: true,
                    seq: vec![Command::Function(FunctionDefinition {
                        fname: Word::new("f"),
                        body: FunctionBody(CompoundCommand::BraceGroup(body), None),
                    })],
                },
                additional: vec![],
            },
            SeparatorOperator::Sequence,
        )])],
    };
    let copy = program.clone();
    assert_eq!(copy, program);
    assert_eq!(copy.to_string(), program.to_string());
    assert_eq!(copy.location(), program.location());
}
