use brush_ast::ast::{
    AndOr, AndOrList, ArithmeticCommand, ArithmeticForClauseCommand, Assignment, AssignmentName,
    AssignmentValue, BinaryPredicate, BraceGroupCommand, CaseClauseCommand, CaseItem,
    CaseItemPostAction, Command, CommandPrefix, CommandPrefixOrSuffixItem, CommandSuffix,
    CompoundCommand, CompoundList, CompoundListItem, CoprocessCommand, DoGroupCommand, ElseClause,
    ExtendedTestExpr, ExtendedTestExprCommand, ForClauseCommand, FunctionBody, FunctionDefinition,
    IfClauseCommand, IoFileRedirectKind, IoFileRedirectTarget, IoHereDocument, IoRedirect,
    Pipeline, PipelineTimed, ProcessSubstitutionKind, Program, RedirectList, SeparatorOperator,
    SimpleCommand, SubshellCommand, UnaryPredicate, UnexpandedArithmeticExpr,
    WhileOrUntilClauseCommand, Word,
};
use brush_ast::render::{DeferredHeredocs, Display, Formatter};
use brush_ast::source::SourceSpan;

fn nowhere() -> SourceSpan {
    SourceSpan::default()
}

fn arg(text: &str) -> CommandPrefixOrSuffixItem {
    CommandPrefixOrSuffixItem::Word(Word::new(text))
}

fn redirected(name: &str, suffix: Vec<CommandPrefixOrSuffixItem>) -> Command {
    Command::Simple(SimpleCommand {
        prefix: None,
        word_or_name: Some(Word::new(name)),
        suffix: if suffix.is_empty() { None } else { Some(CommandSuffix(suffix)) },
    })
}

fn run(name: &str, args: &[&str]) -> Command {
    redirected(name, args.iter().map(|a| arg(a)).collect())
}

fn pipeline(seq: Vec<Command>) -> Pipeline {
    Pipeline { timed: None, bang: false, seq }
}

fn and_or(command: Command) -> AndOrList {
    AndOrList { first: pipeline(vec![command]), additional: vec![] }
}

fn list(commands: Vec<Command>) -> CompoundList {
    CompoundList(
        commands
            .into_iter()
            .map(|c| CompoundListItem(and_or(c), SeparatorOperator::Sequence))
            .collect(),
    )
}

fn one(name: &str) -> CompoundList {
    list(vec![run(name, &[])])
}

fn group(list: CompoundList) -> CompoundCommand {
    CompoundCommand::BraceGroup(BraceGroupCommand { list, loc: nowhere() })
}

fn do_group(list: CompoundList) -> DoGroupCommand {
    DoGroupCommand { list, loc: nowhere() }
}

fn compound(command: CompoundCommand) -> Command {
    Command::Compound(command, None)
}

fn document(tag: &str, body: &str) -> IoHereDocument {
    IoHereDocument {
        remove_tabs: false,
        requires_expansion: true,
        here_end: Word::new(tag),
        doc: Word::new(body),
    }
}

fn here(tag: &str, body: &str) -> CommandPrefixOrSuffixItem {
    CommandPrefixOrSuffixItem::IoRedirect(IoRedirect::HereDocument(None, document(tag, body)))
}

fn cat_here(tag: &str, body: &str) -> Command {
    redirected("cat", vec![here(tag, body)])
}

fn program(lists: Vec<CompoundList>) -> Program {
    Program { complete_commands: lists }
}

#[test]
fn simple_commands() {
    assert_eq!(run("echo", &["hi", "there"]).to_string(), "echo hi there");
    let assignment = CommandPrefixOrSuffixItem::AssignmentWord(
        Assignment {
            name: AssignmentName::VariableName("A".to_owned()),
            value: AssignmentValue::Scalar(Word::new("1")),
            append: false,
            loc: nowhere(),
        },
        Word::new("A=1"),
    );
    let mut command = SimpleCommand {
        prefix: Some(CommandPrefix(vec![assignment, arg("B=2")])),
        word_or_name: Some(Word::new("cmd")),
        suffix: Some(CommandSuffix(vec![arg("x")])),
    };
    assert_eq!(command.to_string(), "A=1 B=2 cmd x");
    command.word_or_name = None;
    assert_eq!(command.to_string(), "A=1 B=2 x");
    command.prefix = None;
    assert_eq!(command.to_string(), "x");
    command.suffix = None;
    assert_eq!(command.to_string(), "");
    assert_eq!(CommandPrefix::default().to_string(), "");
    assert_eq!(CommandSuffix::default().to_string(), "");
}

#[test]
fn pipelines_and_lists() {
    let timed = Pipeline {
        timed: Some(PipelineTimed::TimedWithPosixOutput(nowhere())),
        bang: true,
        seq: vec![run("a", &[]), run("b", &[]), run("c", &[])],
    };
    assert_eq!(timed.to_string(), "time -p ! a | b | c");
    assert_eq!(PipelineTimed::Timed(nowhere()).to_string(), "time");

    let and_ors = AndOrList {
        first: pipeline(vec![run("a", &[])]),
        additional: vec![
            AndOr::And(pipeline(vec![run("b", &[])])),
            AndOr::Or(pipeline(vec![run("c", &[])])),
        ],
    };
    assert_eq!(and_ors.to_string(), "a && b || c");

    let item = |name: &str, separator| CompoundListItem(and_or(run(name, &[])), separator);
    let items = CompoundList(vec![
        item("a", SeparatorOperator::Sequence),
        item("b", SeparatorOperator::Async),
        item("c", SeparatorOperator::Sequence),
    ]);
    assert_eq!(items.to_string(), "a;\nb&\nc");
    assert_eq!(items.terminated().to_string(), "a;\nb&\nc;");
    assert_eq!(items.0[0].to_string(), "a;");
    let last = CompoundList(vec![item("a", SeparatorOperator::Async)]);
    assert_eq!(last.to_string(), "a&");
    assert_eq!(last.terminated().to_string(), "a&");
    assert_eq!(CompoundList(vec![]).to_string(), "");
    assert_eq!(program(vec![one("a"), one("b")]).to_string(), "ab");
}

#[test]
fn if_clauses() {
    let clause = IfClauseCommand {
        condition: one("a"),
        then: one("b"),
        elses: Some(vec![
            ElseClause { condition: Some(one("c")), body: one("d") },
            ElseClause { condition: None, body: list(vec![run("e", &[]), run("f", &[])]) },
        ]),
        loc: nowhere(),
    };
    assert_eq!(
        clause.to_string(),
        "if a; then\n    b;\nelif c; then\n    d;\nelse\n    e;\n    f;\nfi"
    );
    let clause = IfClauseCommand {
        condition: one("a"),
        then: one("b"),
        elses: None,
        loc: nowhere(),
    };
    assert_eq!(clause.to_string(), "if a; then\n    b;\nfi");
}

#[test]
fn loops() {
    let clause = ForClauseCommand {
        variable_name: "x".to_owned(),
        values: Some(vec![Word::new("1"), Word::new("2")]),
        body: do_group(one("b")),
        loc: nowhere(),
    };
    assert_eq!(clause.to_string(), "for x in 1 2;\ndo\n    b;\ndone");
    let clause = ForClauseCommand { values: None, ..clause };
    assert_eq!(clause.to_string(), "for x in ;\ndo\n    b;\ndone");

    let expr = |text: &str| Some(UnexpandedArithmeticExpr { value: text.to_owned() });
    let clause = ArithmeticForClauseCommand {
        initializer: expr("i = 0"),
        condition: expr("i < 3"),
        updater: expr("i++"),
        body: do_group(one("b")),
        loc: nowhere(),
    };
    assert_eq!(clause.to_string(), "for ((i = 0; i < 3; i++))\ndo\n    b;\ndone");
    let clause =
        ArithmeticForClauseCommand { initializer: None, condition: None, updater: None, ..clause };
    assert_eq!(clause.to_string(), "for ((; ; ))\ndo\n    b;\ndone");

    let clause = || WhileOrUntilClauseCommand(one("a"), do_group(one("b")), nowhere());
    assert_eq!(
        CompoundCommand::WhileClause(clause()).to_string(),
        "while a; do\n    b;\ndone"
    );
    assert_eq!(
        CompoundCommand::UntilClause(clause()).to_string(),
        "until a; do\n    b;\ndone"
    );
}

#[test]
fn case_clauses() {
    let clause = CaseClauseCommand {
        value: Word::new("$x"),
        cases: vec![
            CaseItem {
                patterns: vec![Word::new("a"), Word::new("b*")],
                cmd: Some(list(vec![run("c", &[]), run("d", &[])])),
                post_action: CaseItemPostAction::ExitCase,
                loc: None,
            },
            CaseItem {
                patterns: vec![Word::new("*")],
                cmd: None,
                post_action: CaseItemPostAction::ContinueEvaluatingCases,
                loc: None,
            },
        ],
        loc: nowhere(),
    };
    assert_eq!(
        clause.to_string(),
        "case $x in \n    a | b*)\n        c;\n        d\n    ;;\n    *)\n\n    ;;&\nesac"
    );
    assert_eq!(CaseItemPostAction::ExitCase.to_string(), ";;");
    assert_eq!(CaseItemPostAction::UnconditionallyExecuteNextCaseItem.to_string(), ";&");
    let empty = CaseClauseCommand { cases: vec![], ..clause };
    assert_eq!(empty.to_string(), "case $x in \nesac");
}

#[test]
fn groups_functions_and_coprocesses() {
    assert_eq!(group(one("a")).to_string(), "{ \n    a\n}");
    let subshell = SubshellCommand { list: one("a"), loc: nowhere() };
    assert_eq!(subshell.to_string(), "( a )");
    let definition = FunctionDefinition {
        fname: Word::new("f"),
        body: FunctionBody(group(list(vec![run("a", &[]), run("b", &[])])), None),
    };
    assert_eq!(definition.to_string(), "f () \n{ \n    a;\n    b\n}");
    assert_eq!(Command::Function(definition).to_string(), "f () \n{ \n    a;\n    b\n}");
    let coprocess = CoprocessCommand {
        name: Some(Word::new("NAME")),
        body: Box::new(compound(group(one("a")))),
        loc: nowhere(),
    };
    assert_eq!(coprocess.to_string(), "coproc NAME { \n    a\n}");
    let coprocess = CoprocessCommand {
        name: None,
        body: Box::new(run("a", &["b"])),
        loc: nowhere(),
    };
    assert_eq!(CompoundCommand::Coprocess(coprocess).to_string(), "coproc a b");
    let arithmetic = ArithmeticCommand {
        expr: UnexpandedArithmeticExpr { value: "x + 1".to_owned() },
        loc: nowhere(),
    };
    assert_eq!(CompoundCommand::Arithmetic(arithmetic).to_string(), "((x + 1))");
}

#[test]
fn extended_tests() {
    let expr = ExtendedTestExpr::And(
        Box::new(ExtendedTestExpr::UnaryTest(
            UnaryPredicate::FileExistsAndIsRegularFile,
            Word::new("x"),
        )),
        Box::new(ExtendedTestExpr::Not(Box::new(ExtendedTestExpr::Parenthesized(Box::new(
            ExtendedTestExpr::Or(
                Box::new(ExtendedTestExpr::BinaryTest(
                    BinaryPredicate::StringMatchesRegex,
                    Word::new("a"),
                    Word::new("b"),
                )),
                Box::new(ExtendedTestExpr::UnaryTest(
                    UnaryPredicate::StringHasZeroLength,
                    Word::new("c"),
                )),
            ),
        ))))),
    );
    let command = ExtendedTestExprCommand { expr, loc: nowhere() };
    assert_eq!(command.to_string(), "-f x && ! ( a =~ b || -z c )");
    assert_eq!(
        CompoundCommand::ExtendedTest(command).to_string(),
        "[[ -f x && ! ( a =~ b || -z c ) ]]"
    );
}

#[test]
fn file_redirections() {
    let file = |fd, kind, target| IoRedirect::File(fd, kind, target).to_string();
    let name = || IoFileRedirectTarget::Filename(Word::new("f"));
    assert_eq!(file(None, IoFileRedirectKind::Read, name()), "< f");
    assert_eq!(file(Some(2), IoFileRedirectKind::Write, name()), "2> f");
    assert_eq!(file(Some(10), IoFileRedirectKind::Append, name()), "10>> f");
    assert_eq!(file(Some(0), IoFileRedirectKind::ReadAndWrite, name()), "0<> f");
    assert_eq!(file(None, IoFileRedirectKind::Clobber, name()), ">| f");
    assert_eq!(
        file(Some(2), IoFileRedirectKind::DuplicateOutput, IoFileRedirectTarget::Fd(1)),
        "2>&1"
    );
    assert_eq!(
        file(
            None,
            IoFileRedirectKind::DuplicateInput,
            IoFileRedirectTarget::Duplicate(Word::new("-"))
        ),
        "<&-"
    );
    assert_eq!(
        file(Some(i32::MIN), IoFileRedirectKind::Write, IoFileRedirectTarget::Fd(i32::MAX)),
        "-2147483648> 2147483647"
    );
    let substitution = SubshellCommand { list: one("a"), loc: nowhere() };
    assert_eq!(
        file(
            None,
            IoFileRedirectKind::Write,
            IoFileRedirectTarget::ProcessSubstitution(ProcessSubstitutionKind::Write, substitution)
        ),
        "> >(a)"
    );
    assert_eq!(IoRedirect::OutputAndError(Word::new("f"), false).to_string(), "&> f");
    assert_eq!(IoRedirect::OutputAndError(Word::new("f"), true).to_string(), "&>> f");
    assert_eq!(IoRedirect::HereString(Some(3), Word::new("w")).to_string(), "3<<< w");
    let redirects = RedirectList(vec![
        IoRedirect::HereString(None, Word::new("w")),
        IoRedirect::OutputAndError(Word::new("f"), false),
    ]);
    assert_eq!(redirects.to_string(), "<<< w&> f");
    assert_eq!(
        Command::Compound(group(one("a")), Some(redirects)).to_string(),
        "{ \n    a\n}<<< w&> f"
    );
    let substitution = CommandPrefixOrSuffixItem::ProcessSubstitution(
        ProcessSubstitutionKind::Read,
        SubshellCommand { list: one("a"), loc: nowhere() },
    );
    assert_eq!(redirected("diff", vec![substitution]).to_string(), "diff <(a)");
}

#[test]
fn assignments() {
    let assignment = Assignment {
        name: AssignmentName::ArrayElementName("a".to_owned(), "i+1".to_owned()),
        value: AssignmentValue::Scalar(Word::new("v")),
        append: true,
        loc: nowhere(),
    };
    assert_eq!(assignment.to_string(), "a[i+1]+=v");
    assert_eq!(assignment.name.base_name(), "a");
    let assignment = Assignment {
        name: AssignmentName::VariableName("x".to_owned()),
        value: AssignmentValue::Array(vec![
            (None, Word::new("1")),
            (Some(Word::new("k")), Word::new("2")),
        ]),
        append: false,
        loc: nowhere(),
    };
    assert_eq!(assignment.to_string(), "x=(1 [k]=2)");
    assert_eq!(assignment.name.base_name(), "x");
    assert_eq!(AssignmentValue::Array(vec![]).to_string(), "()");
}

#[test]
fn here_document_follows_its_line() {
    assert_eq!(list(vec![cat_here("EOF", "hi\n")]).to_string(), "cat <<EOF\nhi\nEOF\n");
    let out = CommandPrefixOrSuffixItem::IoRedirect(IoRedirect::File(
        None,
        IoFileRedirectKind::Write,
        IoFileRedirectTarget::Filename(Word::new("out")),
    ));
    let command = redirected("cat", vec![here("EOF", "hi\n"), out]);
    assert_eq!(list(vec![command]).to_string(), "cat <<EOF > out\nhi\nEOF\n");
    let and_ors = AndOrList {
        first: pipeline(vec![cat_here("EOF", "hi\n"), run("sort", &[])]),
        additional: vec![AndOr::And(pipeline(vec![run("b", &[])]))],
    };
    let items = CompoundList(vec![CompoundListItem(and_ors, SeparatorOperator::Async)]);
    assert_eq!(items.to_string(), "cat <<EOF | sort && b\nhi\nEOF\n");
}

#[test]
fn here_document_terminator_is_on_its_own_line() {
    assert_eq!(list(vec![cat_here("EOF", "hi")]).to_string(), "cat <<EOF\nhi\nEOF\n");
    assert_eq!(list(vec![cat_here("EOF", "")]).to_string(), "cat <<EOF\nEOF\n");
    assert_eq!(list(vec![cat_here("EOF", "\n")]).to_string(), "cat <<EOF\n\nEOF\n");
    let stripping = IoRedirect::HereDocument(
        Some(3),
        IoHereDocument { remove_tabs: true, ..document("EOF", "hi\n") },
    );
    let command = redirected("cat", vec![CommandPrefixOrSuffixItem::IoRedirect(stripping)]);
    assert_eq!(list(vec![command]).to_string(), "cat 3<<-EOF\nhi\nEOF\n");
    assert_eq!(document("EOF", "hi").to_string(), "EOF");
}

#[test]
fn here_documents_of_one_line_run_back_to_back() {
    let command = redirected("cat", vec![here("A", "1\n"), here("B", "2\n")]);
    assert_eq!(
        program(vec![list(vec![command])]).to_string(),
        "cat <<A <<B\n1\nA\n2\nB\n"
    );
}

#[test]
fn here_document_is_at_column_zero_at_any_depth() {
    let inner = group(list(vec![cat_here("EOF", "hi\n  there\n"), run("echo", &["x"])]));
    assert_eq!(
        inner.to_string(),
        "{ \n    cat <<EOF\nhi\n  there\nEOF\n\n    echo x\n}"
    );
    let clause = IfClauseCommand {
        condition: one("a"),
        then: list(vec![compound(group(list(vec![cat_here("EOF", "hi\n")])))]),
        elses: None,
        loc: nowhere(),
    };
    let definition = FunctionDefinition {
        fname: Word::new("f"),
        body: FunctionBody(
            group(list(vec![compound(CompoundCommand::IfClause(clause))])),
            None,
        ),
    };
    assert_eq!(
        definition.to_string(),
        "f () \n{ \n    if a; then\n        { \n            cat <<EOF\nhi\nEOF\n\n        };\n    \
         fi\n}"
    );
}

#[test]
fn here_document_of_a_function_body_follows_the_function() {
    let redirects = RedirectList(vec![IoRedirect::HereDocument(None, document("EOF", "hi\n"))]);
    let definition = FunctionDefinition {
        fname: Word::new("f"),
        body: FunctionBody(group(one("a")), Some(redirects)),
    };
    assert_eq!(definition.to_string(), "f () \n{ \n    a\n}<<EOF\nhi\nEOF\n");
}

#[test]
fn here_document_in_a_condition_ends_its_line() {
    let clause = IfClauseCommand {
        condition: list(vec![cat_here("EOF", "hi\n")]),
        then: one("b"),
        elses: None,
        loc: nowhere(),
    };
    assert_eq!(clause.to_string(), "if cat <<EOF\nhi\nEOF\n; then\n    b;\nfi");
}

#[test]
fn words_keep_their_lines_at_any_depth() {
    let text = "'one\n  two\n\nthree'";
    let inner = group(list(vec![run("echo", &[text, "x"]), run("b", &[])]));
    assert_eq!(inner.to_string(), format!("{{ \n    echo {text} x;\n    b\n}}"));
    let outer = group(list(vec![compound(inner)]));
    assert_eq!(
        outer.to_string(),
        format!("{{ \n    {{ \n        echo {text} x;\n        b\n    }}\n}}")
    );
}

#[test]
fn only_verbatim_lines_are_left_unindented() {
    let arithmetic = ArithmeticCommand {
        expr: UnexpandedArithmeticExpr { value: "1 +\n2".to_owned() },
        loc: nowhere(),
    };
    let command = compound(CompoundCommand::Arithmetic(arithmetic));
    assert_eq!(group(list(vec![command])).to_string(), "{ \n    ((1 +\n    2))\n}");
    let word = run("a\n", &[]);
    assert_eq!(group(list(vec![word])).to_string(), "{ \n    a\n\n}");
}

#[test]
fn text_is_indented_however_it_is_cut() {
    for cuts in [vec!["a\nb\n\nc"], vec!["a", "\n", "b\n", "\n", "c"], vec!["", "a\nb", "\n\nc"]] {
        let mut f = Formatter::new();
        f.write_str("[");
        f.open_block();
        for cut in cuts {
            f.write_str(cut);
        }
        f.close_block();
        f.write_str("]");
        assert_eq!(f.into_parts().0, "[    a\n    b\n\n    c]");
    }
}

#[test]
fn blocks_nest() {
    let mut f = Formatter::new();
    f.open_block();
    f.write_str("a\n");
    f.open_block();
    f.write_str("b\n");
    f.write_verbatim("c\nd");
    f.write_str("\ne");
    f.close_block();
    f.write_str("\nf");
    f.close_block();
    assert_eq!(f.into_parts().0, "    a\n        b\n        c\nd\n        e\n    f");
}

#[test]
fn a_waiting_body_goes_to_the_next_line_end() {
    let command = cat_here("EOF", "hi\n");
    assert_eq!(command.to_string(), "cat <<EOF");

    let mut f = Formatter::new();
    assert!(!f.has_deferred_heredocs());
    command.fmt(&mut f);
    assert!(f.has_deferred_heredocs());
    let (text, waiting) = f.into_parts();
    assert_eq!(text, "cat <<EOF");

    let mut f = Formatter::resume(waiting);
    assert!(f.has_deferred_heredocs());
    list(vec![run("a", &[]), run("b", &[])]).fmt(&mut f);
    assert!(!f.has_deferred_heredocs());
    assert_eq!(f.into_parts().0, "a\nhi\nEOF\n\nb");
}

#[test]
fn a_flush_with_nothing_waiting_writes_nothing() {
    let mut f = Formatter::resume(DeferredHeredocs::new());
    f.write_str("a");
    f.flush_deferred_heredocs();
    f.write_str("b");
    f.defer_heredoc_body("X\n".to_owned());
    f.flush_deferred_heredocs();
    f.flush_deferred_heredocs();
    assert_eq!(f.into_parts().0, "ab\nX\n");
}

#[test]
fn a_program_leaves_nothing_waiting() {
    let mut f = Formatter::new();
    cat_here("EOF", "hi\n").fmt(&mut f);
    program(vec![]).fmt(&mut f);
    assert!(!f.has_deferred_heredocs());
    assert_eq!(f.into_parts().0, "cat <<EOF\nhi\nEOF\n");
}

#[test]
fn text_outside_ascii_is_printed_as_it_is() {
    let command = run("écho", &["größe", "\u{1F600}\n\u{1F601}"]);
    assert_eq!(
        group(list(vec![command])).to_string(),
        "{ \n    écho größe \u{1F600}\n\u{1F601}\n}"
    );
}
