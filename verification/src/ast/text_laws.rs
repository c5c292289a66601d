//! What the text of a command is made of, and how the texts of related commands relate.

use vstd::prelude::*;

use super::display::{
    affix_doc, and_ors_doc, cases_doc, commands_doc, complete_commands_doc, elses_doc, items_doc,
    optional_expr_doc, redirects_doc, separator_after, words_doc,
};
use super::{
    AndOr, AndOrList, ArithmeticCommand, ArithmeticForClauseCommand, BraceGroupCommand,
    CaseClauseCommand, CaseItem, CaseItemPostAction, Command, CommandPrefix,
    CommandPrefixOrSuffixItem, CommandSuffix, CompoundCommand, CompoundList, CompoundListItem,
    CoprocessCommand, DoGroupCommand, ElseClause, ExtendedTestExprCommand, ForClauseCommand,
    FunctionDefinition, IfClauseCommand, IoRedirect, Pipeline, PipelineTimed, Program,
    RedirectList, SeparatorOperator, SimpleCommand, SubshellCommand, UnexpandedArithmeticExpr,
    WhileOrUntilClauseCommand, Word,
};
use crate::layout::{
    block, chars, group_layout, layout, line_end, marks, nothing, plain, printed, unfolded,
    Rendering,
};
use crate::layout_laws::law_layout_appends;
use crate::render::Display;

verus! {

broadcast use group_layout;

/// Prints the items in turn: the first, and then the separator and the others, if there are any.
pub open spec fn in_turn<T: Display>(
    items: Seq<T>,
    separator: Seq<char>,
    r: Rendering,
) -> Rendering
    decreases items.len(),
{
    if items.len() == 0 {
        r
    } else if items.len() == 1 {
        layout(items[0].doc(), r)
    } else {
        in_turn(items.skip(1), separator, layout(items[0].doc(), r).plain(separator))
    }
}

proof fn lemma_in_turn_take<T: Display>(items: Seq<T>, n: int, separator: Seq<char>, r: Rendering)
    requires
        0 < n <= items.len(),
    ensures
        in_turn(items.take(n), separator, r) == layout(
            items[n - 1].doc(),
            if n == 1 {
                r
            } else {
                in_turn(items.take(n - 1), separator, r).plain(separator)
            },
        ),
    decreases n,
{
    if n > 1 {
        let next = layout(items[0].doc(), r).plain(separator);
        let rest = items.skip(1);
        assert(items.take(n).skip(1) == rest.take(n - 1));
        lemma_in_turn_take(rest, n - 1, separator, next);
        if n > 2 {
            assert(items.take(n - 1).skip(1) == rest.take(n - 2));
        }
    }
}

proof fn lemma_affix(items: Seq<CommandPrefixOrSuffixItem>, n: int, r: Rendering)
    requires
        0 <= n <= items.len(),
    ensures
        layout(affix_doc(items, n), r) == in_turn(items.take(n), " "@, r),
    decreases n,
{
    if n > 0 {
        lemma_affix(items, n - 1, r);
        lemma_in_turn_take(items, n, " "@, r);
        assert(affix_doc(items, n) == affix_doc(items, n - 1) + (if n > 1 {
            plain(" "@)
        } else {
            nothing()
        }) + items[n - 1].doc());
        assert(unfolded(affix_doc(items, n)));
    }
}

/// The items of a suffix are printed in turn, with one space between each two.
pub proof fn law_suffix_spaced(suffix: CommandSuffix, r: Rendering)
    ensures
        layout(suffix.doc(), r) == in_turn(suffix.0@, " "@, r),
{
    let items = suffix.0@;
    lemma_affix(items, items.len() as int, r);
    assert(items.take(items.len() as int) == items);
}

/// The items of a prefix are printed in turn, with one space between each two.
pub proof fn law_prefix_spaced(prefix: CommandPrefix, r: Rendering)
    ensures
        layout(prefix.doc(), r) == in_turn(prefix.0@, " "@, r),
{
    let items = prefix.0@;
    lemma_affix(items, items.len() as int, r);
    assert(items.take(items.len() as int) == items);
}


proof fn lemma_words(words: Seq<Word>, n: int, separator: Seq<char>, r: Rendering)
    requires
        0 <= n <= words.len(),
    ensures
        layout(words_doc(words, n, separator), r) == in_turn(words.take(n), separator, r),
    decreases n,
{
    if n > 0 {
        lemma_words(words, n - 1, separator, r);
        lemma_in_turn_take(words, n, separator, r);
        assert(unfolded(words_doc(words, n, separator)));
    }
}

proof fn lemma_commands(items: Seq<Command>, n: int, r: Rendering)
    requires
        0 <= n <= items.len(),
    ensures
        layout(commands_doc(items, n), r) == in_turn(items.take(n), " | "@, r),
    decreases n,
{
    if n > 0 {
        lemma_commands(items, n - 1, r);
        lemma_in_turn_take(items, n, " | "@, r);
        assert(commands_doc(items, n) == commands_doc(items, n - 1) + (if n > 1 {
            plain(" | "@)
        } else {
            nothing()
        }) + items[n - 1].doc());
        assert(unfolded(commands_doc(items, n)));
    }
}

proof fn lemma_and_ors(items: Seq<AndOr>, n: int, r: Rendering)
    requires
        0 <= n <= items.len(),
    ensures
        layout(and_ors_doc(items, n), r) == in_turn(items.take(n), Seq::empty(), r),
    decreases n,
{
    if n > 0 {
        lemma_and_ors(items, n - 1, r);
        lemma_in_turn_take(items, n, Seq::empty(), r);
        assert(and_ors_doc(items, n) == and_ors_doc(items, n - 1) + items[n - 1].doc());
        assert(unfolded(and_ors_doc(items, n)));
    }
}

proof fn lemma_complete_commands(items: Seq<CompoundList>, n: int, r: Rendering)
    requires
        0 <= n <= items.len(),
    ensures
        layout(complete_commands_doc(items, n), r) == in_turn(items.take(n), Seq::empty(), r),
    decreases n,
{
    if n > 0 {
        lemma_complete_commands(items, n - 1, r);
        lemma_in_turn_take(items, n, Seq::empty(), r);
        assert(complete_commands_doc(items, n) == complete_commands_doc(items, n - 1)
            + items[n - 1].doc());
        assert(unfolded(complete_commands_doc(items, n)));
    }
}

proof fn lemma_elses(items: Seq<ElseClause>, n: int, r: Rendering)
    requires
        0 <= n <= items.len(),
    ensures
        layout(elses_doc(items, n), r) == in_turn(items.take(n), Seq::empty(), r),
    decreases n,
{
    if n > 0 {
        lemma_elses(items, n - 1, r);
        lemma_in_turn_take(items, n, Seq::empty(), r);
        assert(elses_doc(items, n) == elses_doc(items, n - 1) + items[n - 1].doc());
        assert(unfolded(elses_doc(items, n)));
    }
}

proof fn lemma_redirects(items: Seq<IoRedirect>, n: int, r: Rendering)
    requires
        0 <= n <= items.len(),
    ensures
        layout(redirects_doc(items, n), r) == in_turn(items.take(n), Seq::empty(), r),
    decreases n,
{
    if n > 0 {
        lemma_redirects(items, n - 1, r);
        lemma_in_turn_take(items, n, Seq::empty(), r);
        assert(redirects_doc(items, n) == redirects_doc(items, n - 1) + items[n - 1].doc());
        assert(unfolded(redirects_doc(items, n)));
    }
}

proof fn lemma_plain_twice(a: Seq<char>, b: Seq<char>, r: Rendering)
    ensures
        r.plain(a).plain(b) == r.plain(a + b),
{
    reveal(Rendering::plain);
    assert(r.text + marks(a, false) + marks(b, false) == r.text + marks(a + b, false));
}

/// A program's complete commands are printed one after the other, and then whatever here-document
/// bodies are waiting.
pub proof fn law_program_text(program: Program, r: Rendering)
    ensures
        layout(program.doc(), r) == in_turn(
            program.complete_commands@,
            Seq::empty(),
            r,
        ).flushed(),
{
    let items = program.complete_commands@;
    lemma_complete_commands(items, items.len() as int, r);
    assert(items.take(items.len() as int) == items);
    assert(unfolded(program.doc()));
}

/// The pipelines of an and-or list are printed in order, each additional one after its operator
/// with a space on either side.
pub proof fn law_and_or_list_text(list: AndOrList, r: Rendering)
    ensures
        layout(list.doc(), r) == in_turn(
            list.additional@,
            Seq::empty(),
            layout(list.first.doc(), r),
        ),
{
    let items = list.additional@;
    let first = layout(list.first.doc(), r);
    lemma_and_ors(items, items.len() as int, first);
    assert(items.take(items.len() as int) == items);
    assert(list.doc() == list.first.doc() + and_ors_doc(items, items.len() as int));
    assert(unfolded(list.doc()));
}

pub proof fn law_and_or_text(pipeline: Pipeline, r: Rendering)
    ensures
        layout(AndOr::And(pipeline).doc(), r) == layout(pipeline.doc(), r.plain(" && "@)),
        layout(AndOr::Or(pipeline).doc(), r) == layout(pipeline.doc(), r.plain(" || "@)),
{
    assert(unfolded(AndOr::And(pipeline).doc()));
    assert(unfolded(AndOr::Or(pipeline).doc()));
}

/// What asks for the timing of a pipeline is the word `time`, with `-p` just where the output is
/// to be that of POSIX.
pub proof fn law_timed_text(timed: PipelineTimed, r: Rendering)
    ensures
        layout(timed.doc(), r) == r.plain(
            "time"@ + (if timed is TimedWithPosixOutput {
                " -p"@
            } else {
                Seq::empty()
            }),
        ),
{
    reveal_strlit("time");
    reveal_strlit(" -p");
    reveal_strlit("time -p");
    assert("time"@ + " -p"@ =~= "time -p"@);
    assert("time"@ + Seq::empty() =~= "time"@);
    assert(unfolded(timed.doc()));
}

/// The commands of a pipeline that is neither timed nor negated are printed in turn, with ` | `
/// between each two.
pub proof fn law_pipeline_text(pipeline: Pipeline, r: Rendering)
    requires
        pipeline.timed is None,
        !pipeline.bang,
    ensures
        layout(pipeline.doc(), r) == in_turn(pipeline.seq@, " | "@, r),
{
    let items = pipeline.seq@;
    lemma_commands(items, items.len() as int, r);
    assert(items.take(items.len() as int) == items);
    assert(pipeline.doc() == nothing() + nothing() + commands_doc(items, items.len() as int));
    assert(unfolded(pipeline.doc()));
}

/// Where the commands of a pipeline begin: after what asks for its timing, if it is timed.
pub open spec fn after_timing(timed: Option<PipelineTimed>, r: Rendering) -> Rendering {
    match timed {
        Some(timed) => layout(timed.doc(), r).plain(" "@),
        None => r,
    }
}

/// Of two pipelines that differ in their negation alone, the negated one is printed with `! `
/// inserted directly before its first command, whether or not it is timed.
pub proof fn law_negation(bare: Pipeline, plain_one: Pipeline, negated: Pipeline, r: Rendering)
    requires
        bare.timed is None,
        !bare.bang,
        !plain_one.bang,
        negated.bang,
        plain_one.timed == negated.timed,
        plain_one.seq@ == bare.seq@,
        negated.seq@ == bare.seq@,
    ensures
        layout(plain_one.doc(), r) == layout(bare.doc(), after_timing(negated.timed, r)),
        layout(negated.doc(), r) == layout(
            bare.doc(),
            after_timing(negated.timed, r).plain("! "@),
        ),
{
    let items = bare.seq@;
    let n = items.len() as int;
    let timing = match negated.timed {
        Some(timed) => timed.doc() + plain(" "@),
        None => nothing(),
    };
    assert(bare.doc() == nothing() + nothing() + commands_doc(items, n));
    assert(plain_one.doc() == timing + nothing() + commands_doc(items, n));
    assert(negated.doc() == timing + plain("! "@) + commands_doc(items, n));
    assert(unfolded(bare.doc()));
    assert(unfolded(plain_one.doc()));
    assert(unfolded(negated.doc()));
    assert(unfolded(timing));
}

/// The text of a negated pipeline that is not timed is `! ` and the text of the pipeline.
pub proof fn law_negated_text(bare: Pipeline, negated: Pipeline)
    requires
        bare.timed is None,
        negated.timed is None,
        !bare.bang,
        negated.bang,
        negated.seq@ == bare.seq@,
    ensures
        printed(negated.doc()) == "! "@ + printed(bare.doc()),
{
    let r = Rendering::empty();
    law_negation(bare, bare, negated, r);
    law_layout_appends(bare.doc(), r.plain("! "@));
    reveal(Rendering::plain);
    assert(printed(negated.doc()) =~= "! "@ + printed(bare.doc()));
}

/// A command is printed as what it is; the redirections of a compound command follow it.
pub proof fn law_command_text(
    simple: SimpleCommand,
    compound: CompoundCommand,
    redirects: RedirectList,
    function: FunctionDefinition,
    r: Rendering,
)
    ensures
        layout(Command::Simple(simple).doc(), r) == layout(simple.doc(), r),
        layout(Command::Compound(compound, None).doc(), r) == layout(compound.doc(), r),
        layout(Command::Compound(compound, Some(redirects)).doc(), r) == layout(
            redirects.doc(),
            layout(compound.doc(), r),
        ),
        layout(Command::Function(function).doc(), r) == layout(function.doc(), r),
{
    assert(Command::Compound(compound, None).doc() == compound.doc() + nothing());
    assert(Command::Compound(compound, Some(redirects)).doc() == compound.doc()
        + redirects.doc());
    assert(unfolded(Command::Compound(compound, None).doc()));
    assert(unfolded(Command::Compound(compound, Some(redirects)).doc()));
}

/// The redirections of a list are printed one after the other.
pub proof fn law_redirect_list_text(redirects: RedirectList, r: Rendering)
    ensures
        layout(redirects.doc(), r) == in_turn(redirects.0@, Seq::empty(), r),
{
    let items = redirects.0@;
    lemma_redirects(items, items.len() as int, r);
    assert(items.take(items.len() as int) == items);
}

/// The reserved words and brackets around a loop, a test, an arithmetic command and a subshell.
pub proof fn law_compound_command_brackets(
    clause: WhileOrUntilClauseCommand,
    test: ExtendedTestExprCommand,
    arithmetic: ArithmeticCommand,
    subshell: SubshellCommand,
    r: Rendering,
)
    ensures
        layout(CompoundCommand::WhileClause(clause).doc(), r) == layout(
            clause.doc(),
            r.plain("while "@),
        ),
        layout(CompoundCommand::UntilClause(clause).doc(), r) == layout(
            clause.doc(),
            r.plain("until "@),
        ),
        layout(CompoundCommand::ExtendedTest(test).doc(), r) == layout(
            test.expr.doc(),
            r.plain("[[ "@),
        ).plain(" ]]"@),
        layout(CompoundCommand::Arithmetic(arithmetic).doc(), r) == layout(
            arithmetic.doc(),
            r,
        ),
        layout(arithmetic.doc(), r) == r.plain("(("@).plain(arithmetic.expr.value@).plain("))"@),
        layout(CompoundCommand::Subshell(subshell).doc(), r) == layout(subshell.doc(), r),
        layout(subshell.doc(), r) == layout(subshell.list.doc(), r.plain("( "@)).plain(" )"@),
{
    assert(unfolded(CompoundCommand::WhileClause(clause).doc()));
    assert(unfolded(CompoundCommand::UntilClause(clause).doc()));
    assert(unfolded(CompoundCommand::ExtendedTest(test).doc()));
    assert(unfolded(arithmetic.doc()));
    assert(unfolded(subshell.doc()));
}

/// The other compound commands are printed as what they are.
pub proof fn law_compound_command_text(
    arithmetic_for: ArithmeticForClauseCommand,
    group: BraceGroupCommand,
    for_clause: ForClauseCommand,
    case: CaseClauseCommand,
    if_clause: IfClauseCommand,
    coprocess: CoprocessCommand,
    r: Rendering,
)
    ensures
        layout(CompoundCommand::ArithmeticForClause(arithmetic_for).doc(), r) == layout(
            arithmetic_for.doc(),
            r,
        ),
        layout(CompoundCommand::BraceGroup(group).doc(), r) == layout(group.doc(), r),
        layout(CompoundCommand::ForClause(for_clause).doc(), r) == layout(for_clause.doc(), r),
        layout(CompoundCommand::CaseClause(case).doc(), r) == layout(case.doc(), r),
        layout(CompoundCommand::IfClause(if_clause).doc(), r) == layout(if_clause.doc(), r),
        layout(CompoundCommand::Coprocess(coprocess).doc(), r) == layout(coprocess.doc(), r),
{
}

/// A `for` clause names its variable and lists its values with one space between each two.
pub proof fn law_for_clause_text(clause: ForClauseCommand, r: Rendering)
    ensures
        layout(clause.doc(), r) == layout(
            clause.body.doc(),
            in_turn(
                match clause.values {
                    Some(values) => values@,
                    None => Seq::empty(),
                },
                " "@,
                r.plain("for "@).plain(clause.variable_name@).plain(" in "@),
            ).plain(";\n"@),
        ),
{
    let head = r.plain("for "@).plain(clause.variable_name@).plain(" in "@);
    if let Some(values) = clause.values {
        lemma_words(values@, values@.len() as int, " "@, head);
        assert(values@.take(values@.len() as int) == values@);
    }
    assert(clause.doc() == plain("for "@) + plain(clause.variable_name@) + plain(" in "@) + (
    match &clause.values {
        Some(values) => words_doc(values@, values@.len() as int, " "@),
        None => nothing(),
    }) + plain(";\n"@) + clause.body.doc());
    assert(unfolded(clause.doc()));
}

/// The text of an arithmetic expression that may be absent.
pub open spec fn expr_text(expr: Option<UnexpandedArithmeticExpr>) -> Seq<char> {
    match expr {
        Some(expr) => expr.value@,
        None => Seq::empty(),
    }
}

/// The three expressions of an arithmetic `for` clause come in order, with `; ` between them
/// whether or not they are present.
pub proof fn law_arithmetic_for_text(clause: ArithmeticForClauseCommand, r: Rendering)
    ensures
        layout(clause.doc(), r) == layout(
            clause.body.doc(),
            r.plain(
                "for (("@ + expr_text(clause.initializer) + "; "@ + expr_text(clause.condition)
                    + "; "@ + expr_text(clause.updater) + "))\n"@,
            ),
        ),
{
    let a = expr_text(clause.initializer);
    let b = expr_text(clause.condition);
    let c = expr_text(clause.updater);
    lemma_plain_twice("for (("@, a, r);
    lemma_plain_twice("for (("@ + a, "; "@, r);
    lemma_plain_twice("for (("@ + a + "; "@, b, r);
    lemma_plain_twice("for (("@ + a + "; "@ + b, "; "@, r);
    lemma_plain_twice("for (("@ + a + "; "@ + b + "; "@, c, r);
    lemma_plain_twice("for (("@ + a + "; "@ + b + "; "@ + c, "))\n"@, r);
    let d = clause.doc();
    assert(d == plain("for (("@) + optional_expr_doc(clause.initializer) + plain("; "@)
        + optional_expr_doc(clause.condition) + plain("; "@) + optional_expr_doc(clause.updater)
        + plain("))\n"@) + clause.body.doc());
    assert(unfolded(d));
}

/// The commands of a brace group and of a loop body are indented between their brackets; those of
/// a loop body keep a `;` at the very end.
pub proof fn law_group_text(group: BraceGroupCommand, body: DoGroupCommand, r: Rendering)
    ensures
        layout(group.doc(), r) == r.plain("{ \n"@).block(
            layout(group.list.doc(), Rendering::waiting(r.pending)),
        ).plain("\n}"@),
        layout(body.doc(), r) == r.plain("do\n"@).block(
            layout(body.list.terminated_doc(), Rendering::waiting(r.pending)),
        ).plain("\ndone"@),
{
    reveal_strlit("\n");
    reveal_strlit("}");
    reveal_strlit("\n}");
    reveal_strlit("done");
    reveal_strlit("\ndone");
    assert("\n"@ + "}"@ =~= "\n}"@);
    assert("\n"@ + "done"@ =~= "\ndone"@);
    assert(r.plain("{ \n"@).pending == r.pending && r.plain("do\n"@).pending == r.pending) by {
        reveal(Rendering::plain);
    }
    let x = r.plain("{ \n"@).block(layout(group.list.doc(), Rendering::waiting(r.pending)));
    let y = r.plain("do\n"@).block(
        layout(body.list.terminated_doc(), Rendering::waiting(r.pending)),
    );
    lemma_plain_twice("\n"@, "}"@, x);
    lemma_plain_twice("\n"@, "done"@, y);
    assert(group.doc() == plain("{ \n"@) + block(group.list.doc()) + plain("\n"@) + plain("}"@));
    assert(body.doc() == plain("do\n"@) + block(body.list.terminated_doc()) + plain("\n"@)
        + plain("done"@));
    assert(unfolded(group.doc()));
    assert(unfolded(body.doc()));
}

/// The condition of a loop is followed by `; ` and the loop body.
pub proof fn law_while_text(clause: WhileOrUntilClauseCommand, r: Rendering)
    ensures
        layout(clause.doc(), r) == layout(
            clause.1.doc(),
            layout(clause.0.doc(), r).plain("; "@),
        ),
{
    assert(clause.doc() == clause.0.doc() + plain("; "@) + clause.1.doc());
    assert(unfolded(clause.doc()));
}

/// The condition of an `if` clause stands between `if` and `then`, its commands are indented, its
/// else clauses follow in order, and `fi` is on a line of its own.
pub proof fn law_if_clause_text(clause: IfClauseCommand, r: Rendering)
    ensures
        clause matches IfClauseCommand { condition, then: body, elses, .. } && ({
            let head = layout(condition.doc(), r.plain("if "@)).plain("; then\n"@);
            layout(clause.doc(), r) == in_turn(
                match elses {
                    Some(elses) => elses@,
                    None => Seq::empty(),
                },
                Seq::empty(),
                head.block(layout(body.terminated_doc(), Rendering::waiting(head.pending))),
            ).plain("\nfi"@)
        }),
{
    reveal_strlit("\n");
    reveal_strlit("fi");
    reveal_strlit("\nfi");
    assert("\n"@ + "fi"@ =~= "\nfi"@);
    match clause {
        IfClauseCommand { condition, then: body, elses, loc: _ } => {
            let head = layout(condition.doc(), r.plain("if "@)).plain("; then\n"@);
            let x = head.block(layout(body.terminated_doc(), Rendering::waiting(head.pending)));
            let rest = match &elses {
                Some(elses) => elses_doc(elses@, elses@.len() as int),
                None => nothing(),
            };
            assert(clause.doc() == plain("if "@) + condition.doc() + plain("; then\n"@) + block(
                body.terminated_doc(),
            ) + rest + plain("\n"@) + plain("fi"@));
            assert(unfolded(clause.doc()));
            if let Some(elses) = elses {
                lemma_elses(elses@, elses@.len() as int, x);
                assert(elses@.take(elses@.len() as int) == elses@);
            }
            lemma_plain_twice("\n"@, "fi"@, layout(rest, x));
        },
    }
}

/// An else clause begins on a line of its own, with `elif` and its condition just where it has
/// one; its commands are indented.
pub proof fn law_else_clause_text(clause: ElseClause, r: Rendering)
    ensures
        ({
            let head = match clause.condition {
                Some(condition) => layout(condition.doc(), r.plain("\nelif "@)).plain(
                    "; then\n"@,
                ),
                None => r.plain("\nelse\n"@),
            };
            layout(clause.doc(), r) == head.block(
                layout(clause.body.terminated_doc(), Rendering::waiting(head.pending)),
            )
        }),
{
    reveal_strlit("\n");
    reveal_strlit("elif ");
    reveal_strlit("\nelif ");
    reveal_strlit("else\n");
    reveal_strlit("\nelse\n");
    assert("\n"@ + "elif "@ =~= "\nelif "@);
    assert("\n"@ + "else\n"@ =~= "\nelse\n"@);
    lemma_plain_twice("\n"@, "elif "@, r);
    lemma_plain_twice("\n"@, "else\n"@, r);
    let head = match &clause.condition {
        Some(condition) => plain("\n"@) + plain("elif "@) + condition.doc() + plain("; then\n"@),
        None => plain("\n"@) + plain("else\n"@),
    };
    assert(clause.doc() == head + block(clause.body.terminated_doc()));
    assert(unfolded(clause.doc()));
}

/// A coprocess is `coproc`, its name if it has one, and its command.
pub proof fn law_coprocess_text(coprocess: CoprocessCommand, r: Rendering)
    ensures
        layout(coprocess.doc(), r) == layout(
            coprocess.body.doc(),
            match coprocess.name {
                Some(name) => layout(name.doc(), r.plain("coproc "@)).plain(" "@),
                None => r.plain("coproc "@),
            },
        ),
{
    reveal_strlit("coproc");
    reveal_strlit(" ");
    reveal_strlit("coproc ");
    assert("coproc"@ + " "@ =~= "coproc "@);
    lemma_plain_twice("coproc"@, " "@, r);
    let head = match &coprocess.name {
        Some(name) => plain("coproc"@) + plain(" "@) + name.doc(),
        None => plain("coproc"@),
    };
    assert(coprocess.doc() == head + plain(" "@) + coprocess.body.doc());
    assert(unfolded(coprocess.doc()));
}

/// Prints the items of a case clause, each of them indented.
pub open spec fn cases_in_turn(cases: Seq<CaseItem>, r: Rendering) -> Rendering
    decreases cases.len(),
{
    if cases.len() == 0 {
        r
    } else {
        cases_in_turn(
            cases.skip(1),
            r.block(layout(cases[0].doc(), Rendering::waiting(r.pending))),
        )
    }
}

proof fn lemma_cases_in_turn(cases: Seq<CaseItem>, n: int, r: Rendering)
    requires
        0 < n <= cases.len(),
    ensures
        ({
            let before = cases_in_turn(cases.take(n - 1), r);
            cases_in_turn(cases.take(n), r) == before.block(
                layout(cases[n - 1].doc(), Rendering::waiting(before.pending)),
            )
        }),
    decreases n,
{
    let next = r.block(layout(cases[0].doc(), Rendering::waiting(r.pending)));
    let rest = cases.skip(1);
    assert(cases.take(n).skip(1) == rest.take(n - 1));
    if n > 1 {
        assert(cases.take(n - 1).skip(1) == rest.take(n - 2));
        lemma_cases_in_turn(rest, n - 1, next);
    } else {
        reveal_with_fuel(cases_in_turn, 2);
    }
}

proof fn lemma_cases(cases: Seq<CaseItem>, n: int, r: Rendering)
    requires
        0 <= n <= cases.len(),
    ensures
        layout(cases_doc(cases, n), r) == cases_in_turn(cases.take(n), r),
    decreases n,
{
    if n > 0 {
        lemma_cases(cases, n - 1, r);
        lemma_cases_in_turn(cases, n, r);
        assert(cases_doc(cases, n) == cases_doc(cases, n - 1) + block(cases[n - 1].doc()));
        assert(unfolded(cases_doc(cases, n)));
    }
}

/// A case clause shows its value, its items in order and indented, and `esac` on a line of its
/// own.
pub proof fn law_case_clause_text(clause: CaseClauseCommand, r: Rendering)
    ensures
        layout(clause.doc(), r) == cases_in_turn(
            clause.cases@,
            layout(clause.value.doc(), r.plain("case "@)).plain(" in "@),
        ).plain("\nesac"@),
{
    reveal_strlit("\n");
    reveal_strlit("esac");
    reveal_strlit("\nesac");
    assert("\n"@ + "esac"@ =~= "\nesac"@);
    let head = layout(clause.value.doc(), r.plain("case "@)).plain(" in "@);
    let cases = clause.cases@;
    lemma_cases(cases, cases.len() as int, head);
    assert(cases.take(cases.len() as int) == cases);
    lemma_plain_twice("\n"@, "esac"@, cases_in_turn(cases, head));
    assert(clause.doc() == plain("case "@) + clause.value.doc() + plain(" in "@) + cases_doc(
        cases,
        cases.len() as int,
    ) + plain("\n"@) + plain("esac"@));
    assert(unfolded(clause.doc()));
}

/// A case item shows its patterns with ` | ` between each two, its commands indented, and what is
/// to be done after them on a line of its own.
pub proof fn law_case_item_text(item: CaseItem, r: Rendering)
    ensures
        ({
            let head = in_turn(item.patterns@, " | "@, r.plain("\n"@)).plain(")\n"@);
            layout(item.doc(), r) == (match item.cmd {
                Some(cmd) => head.block(layout(cmd.doc(), Rendering::waiting(head.pending))),
                None => head,
            }).plain("\n"@).plain(
                match item.post_action {
                    CaseItemPostAction::ExitCase => ";;"@,
                    CaseItemPostAction::UnconditionallyExecuteNextCaseItem => ";&"@,
                    CaseItemPostAction::ContinueEvaluatingCases => ";;&"@,
                },
            )
        }),
        layout(item.post_action.doc(), r) == r.plain(
            match item.post_action {
                CaseItemPostAction::ExitCase => ";;"@,
                CaseItemPostAction::UnconditionallyExecuteNextCaseItem => ";&"@,
                CaseItemPostAction::ContinueEvaluatingCases => ";;&"@,
            },
        ),
{
    let patterns = item.patterns@;
    lemma_words(patterns, patterns.len() as int, " | "@, r.plain("\n"@));
    assert(patterns.take(patterns.len() as int) == patterns);
    assert(item.doc() == plain("\n"@) + words_doc(patterns, patterns.len() as int, " | "@) + plain(
        ")\n"@,
    ) + (match &item.cmd {
        Some(cmd) => block(cmd.doc()),
        None => nothing(),
    }) + plain("\n"@) + item.post_action.doc());
    assert(unfolded(item.doc()));
}

/// A function definition is its name, `()` and its body, and then whatever here-document bodies
/// are waiting; the redirections of the body follow it.
pub proof fn law_function_text(f: FunctionDefinition, r: Rendering)
    ensures
        layout(f.doc(), r) == layout(
            f.body.doc(),
            r.plain(f.fname.value@).plain(" () \n"@),
        ).flushed(),
        layout(f.body.doc(), r) == (match f.body.1 {
            Some(redirects) => layout(redirects.doc(), layout(f.body.0.doc(), r)),
            None => layout(f.body.0.doc(), r),
        }),
{
    assert(f.doc() == plain(f.fname.value@) + plain(" () \n"@) + f.body.doc() + line_end(
        Seq::empty(),
    ));
    assert(f.body.doc() == f.body.0.doc() + (match &f.body.1 {
        Some(redirects) => redirects.doc(),
        None => nothing(),
    }));
    assert(unfolded(f.doc()));
    assert(unfolded(f.body.doc()));
}

/// How a separator is written.
pub open spec fn separates(text: Seq<char>, separator: SeparatorOperator) -> bool {
    ||| text == seq![';'] && separator is Sequence
    ||| text == seq!['&'] && separator is Async
}

/// A separator is `;` or `&`.
pub proof fn law_separator_text(separator: SeparatorOperator, r: Rendering)
    ensures
        separates(separator.text(), separator),
        layout(separator.doc(), r) == r.plain(separator.text()),
{
    reveal_strlit(";");
    reveal_strlit("&");
    assert(separator.text() =~= seq![';'] || separator.text() =~= seq!['&']);
}

/// Of two lists that differ in a last item alone, the longer one, in a block that a reserved word
/// closes, goes on with the item on a line of its own; its separator follows it unless the line
/// has here-documents, whose bodies are then printed instead.
pub proof fn law_list_one_more(
    list: CompoundList,
    longer: CompoundList,
    item: CompoundListItem,
    r: Rendering,
)
    requires
        longer.0@ == list.0@.push(item),
    ensures
        layout(longer.terminated_doc(), r) == layout(
            item.0.doc(),
            if list.0@.len() == 0 {
                r
            } else {
                layout(list.terminated_doc(), r).plain("\n"@)
            },
        ).line_end(item.1.text()),
{
    let items = longer.0@;
    let n = items.len() as int;
    lemma_terminated_prefix(list.0@, items, n - 1);
    assert(items_doc(items, n, true) == items_doc(items, n - 1, true) + (if n > 1 {
        plain("\n"@)
    } else {
        nothing()
    }) + items[n - 1].0.doc() + line_end(separator_after(items, n - 1, true)));
    assert(unfolded(longer.terminated_doc()));
}

proof fn lemma_terminated_prefix(a: Seq<CompoundListItem>, b: Seq<CompoundListItem>, n: int)
    requires
        n <= a.len() <= b.len(),
        forall|i: int| 0 <= i < a.len() ==> #[trigger] a[i] == b[i],
    ensures
        items_doc(a, n, true) == items_doc(b, n, true),
    decreases n,
{
    if n > 0 {
        lemma_terminated_prefix(a, b, n - 1);
        assert(a[n - 1] == b[n - 1]);
    }
}

/// A list without items is not printed at all. An item on its own is printed with its separator.
pub proof fn law_list_edges(list: CompoundList, item: CompoundListItem, r: Rendering)
    ensures
        list.0@.len() == 0 ==> layout(list.doc(), r) == r && layout(list.terminated_doc(), r) == r,
        layout(item.doc(), r) == layout(item.0.doc(), r).plain(item.1.text()),
{
    assert(unfolded(item.doc()));
}

/// Of two simple commands of which only one has a prefix, that one is printed with the prefix
/// first, and with a space after it where the other is not empty.
pub proof fn law_simple_command_prefix(
    command: SimpleCommand,
    prefixed: SimpleCommand,
    prefix: CommandPrefix,
    r: Rendering,
)
    requires
        command.prefix is None,
        prefixed.prefix == Some(prefix),
        prefixed.word_or_name == command.word_or_name,
        prefixed.suffix == command.suffix,
    ensures
        layout(prefixed.doc(), r) == if command.word_or_name is None && command.suffix is None {
            layout(prefix.doc(), r)
        } else {
            layout(command.doc(), layout(prefix.doc(), r).plain(" "@))
        },
{
    lemma_simple_command(command, r);
    lemma_simple_command(command, layout(prefix.doc(), r).plain(" "@));
    lemma_simple_command(prefixed, r);
}

/// Of two simple commands of which only one has a suffix, that one is printed with the suffix
/// last, and with a space before it where the other is not empty.
pub proof fn law_simple_command_suffix(
    command: SimpleCommand,
    suffixed: SimpleCommand,
    suffix: CommandSuffix,
    r: Rendering,
)
    requires
        command.suffix is None,
        suffixed.suffix == Some(suffix),
        suffixed.prefix == command.prefix,
        suffixed.word_or_name == command.word_or_name,
    ensures
        layout(suffixed.doc(), r) == layout(
            suffix.doc(),
            if command.prefix is None && command.word_or_name is None {
                r
            } else {
                layout(command.doc(), r).plain(" "@)
            },
        ),
{
    lemma_simple_command(command, r);
    lemma_simple_command(suffixed, r);
}

/// A simple command that has neither prefix nor suffix is its name.
pub proof fn law_simple_command_name(command: SimpleCommand, r: Rendering)
    requires
        command.prefix is None,
        command.suffix is None,
    ensures
        layout(command.doc(), r) == match command.word_or_name {
            Some(name) => layout(name.doc(), r),
            None => r,
        },
{
    lemma_simple_command(command, r);
}

proof fn lemma_simple_command(command: SimpleCommand, r: Rendering)
    ensures
        ({
            let named = match (command.prefix, command.word_or_name) {
                (Some(prefix), Some(name)) => layout(
                    name.doc(),
                    layout(prefix.doc(), r).plain(" "@),
                ),
                (Some(prefix), None) => layout(prefix.doc(), r),
                (None, Some(name)) => layout(name.doc(), r),
                (None, None) => r,
            };
            layout(command.doc(), r) == match command.suffix {
                Some(suffix) => layout(
                    suffix.doc(),
                    if command.prefix is None && command.word_or_name is None {
                        r
                    } else {
                        named.plain(" "@)
                    },
                ),
                None => named,
            }
        }),
{
    let space = plain(" "@);
    let named = match (&command.prefix, &command.word_or_name) {
        (Some(prefix), Some(name)) => prefix.doc() + space + name.doc(),
        (Some(prefix), None) => prefix.doc(),
        (None, Some(name)) => name.doc(),
        (None, None) => nothing(),
    };
    assert(command.doc() == match &command.suffix {
        Some(suffix) => if command.prefix is Some || command.word_or_name is Some {
            named + space + suffix.doc()
        } else {
            suffix.doc()
        },
        None => named,
    });
    assert(unfolded(command.doc()));
    assert(unfolded(named));
}

/// A word is printed verbatim: its text is its value.
pub proof fn law_word_text(word: Word, r: Rendering)
    ensures
        layout(word.doc(), r) == r.verbatim(word.value@),
        printed(word.doc()) == word.value@,
{
    reveal(Rendering::verbatim);
    assert(printed(word.doc()) =~= word.value@);
}

/// The texts between the spaces of a text.
pub open spec fn fields(s: Seq<char>) -> Seq<Seq<char>>
    decreases s.len(),
{
    if s.len() == 0 {
        seq![Seq::empty()]
    } else {
        let before = fields(s.drop_last());
        if s.last() == ' ' {
            before.push(Seq::empty())
        } else {
            before.drop_last().push(before.last().push(s.last()))
        }
    }
}

proof fn lemma_fields_add(s: Seq<char>, w: Seq<char>)
    requires
        !w.contains(' '),
    ensures
        fields(s).len() > 0,
        fields(s + w) == fields(s).drop_last().push(fields(s).last() + w),
    decreases s.len() + w.len(), w.len(),
{
    if w.len() == 0 {
        if s.len() > 0 {
            lemma_fields_add(s.drop_last(), w);
        }
        assert(s + w == s);
        assert(fields(s).last() + w == fields(s).last());
        assert(fields(s).drop_last().push(fields(s).last()) == fields(s));
    } else {
        let front = w.drop_last();
        assert forall|i: int| 0 <= i < front.len() implies front[i] != ' ' by {
            assert(w[i] != ' ');
        }
        lemma_fields_add(s, front);
        let all = s + w;
        assert(all.drop_last() == s + front);
        assert(all.last() == w.last());
        assert(w[w.len() - 1] != ' ');
        let f = fields(s + front);
        assert(f.drop_last() == fields(s).drop_last());
        assert(f.last().push(w.last()) == fields(s).last() + w);
    }
}

/// Whether all items are words without spaces, with the given texts.
pub open spec fn are_words(items: Seq<CommandPrefixOrSuffixItem>, texts: Seq<Seq<char>>) -> bool {
    &&& items.len() == texts.len()
    &&& forall|i: int|
        0 <= i < items.len() ==> {
            &&& (#[trigger] items[i]) is Word
            &&& items[i]->Word_0.value@ == texts[i]
            &&& !texts[i].contains(' ')
        }
}

proof fn lemma_words_split(
    items: Seq<CommandPrefixOrSuffixItem>,
    texts: Seq<Seq<char>>,
    n: int,
)
    requires
        are_words(items, texts),
        0 < n <= items.len(),
    ensures
        fields(chars(in_turn(items.take(n), " "@, Rendering::empty()).text)) == texts.take(n),
    decreases n,
{
    let r = Rendering::empty();
    lemma_in_turn_take(items, n, " "@, r);
    let w = texts[n - 1];
    assert(items[n - 1] is Word);
    law_item_text(items[n - 1], r);
    let before = if n == 1 {
        r
    } else {
        in_turn(items.take(n - 1), " "@, r).plain(" "@)
    };
    law_item_text(items[n - 1], before);
    law_word_text(items[n - 1]->Word_0, before);
    reveal(Rendering::plain);
    reveal(Rendering::verbatim);
    reveal_strlit(" ");
    let text = chars(before.text);
    assert(chars(layout(items[n - 1].doc(), before).text) =~= text + w);
    lemma_fields_add(text, w);
    if n == 1 {
        assert(text == Seq::<char>::empty());
        assert(fields(text) == seq![Seq::<char>::empty()]);
        assert(Seq::<char>::empty() + w == w);
        assert(texts.take(1) =~= fields(text).drop_last().push(fields(text).last() + w));
    } else {
        lemma_words_split(items, texts, n - 1);
        let earlier = chars(in_turn(items.take(n - 1), " "@, r).text);
        assert(text =~= earlier.push(' '));
        assert(text.drop_last() == earlier);
        assert(fields(text) == texts.take(n - 1).push(Seq::empty()));
        assert(Seq::<char>::empty() + w == w);
        assert(texts.take(n) =~= fields(text).drop_last().push(fields(text).last() + w));
    }
}

/// Splitting the text of a suffix of words at its spaces gives the words back, one by one and in
/// order.
pub proof fn law_suffix_words(suffix: CommandSuffix, texts: Seq<Seq<char>>)
    requires
        suffix.0@.len() > 0,
        are_words(suffix.0@, texts),
    ensures
        fields(printed(suffix.doc())) == texts,
{
    let items = suffix.0@;
    law_suffix_spaced(suffix, Rendering::empty());
    lemma_words_split(items, texts, items.len() as int);
    assert(items.take(items.len() as int) == items);
    assert(texts.take(texts.len() as int) == texts);
}

/// Splitting the text of a prefix of words at its spaces gives the words back, one by one and in
/// order.
pub proof fn law_prefix_words(prefix: CommandPrefix, texts: Seq<Seq<char>>)
    requires
        prefix.0@.len() > 0,
        are_words(prefix.0@, texts),
    ensures
        fields(printed(prefix.doc())) == texts,
{
    let items = prefix.0@;
    law_prefix_spaced(prefix, Rendering::empty());
    lemma_words_split(items, texts, items.len() as int);
    assert(items.take(items.len() as int) == items);
    assert(texts.take(texts.len() as int) == texts);
}

/// An item of a prefix or suffix is printed as its redirection or its word; a process substitution
/// is its operator and its list in parentheses.
pub proof fn law_item_text(item: CommandPrefixOrSuffixItem, r: Rendering)
    ensures
        layout(item.doc(), r) == match item {
            CommandPrefixOrSuffixItem::IoRedirect(redirect) => layout(redirect.doc(), r),
            CommandPrefixOrSuffixItem::Word(word) => layout(word.doc(), r),
            CommandPrefixOrSuffixItem::AssignmentWord(_, word) => layout(word.doc(), r),
            CommandPrefixOrSuffixItem::ProcessSubstitution(kind, command) => layout(
                command.list.doc(),
                layout(kind.doc(), r).plain("("@),
            ).plain(")"@),
        },
{
    if let CommandPrefixOrSuffixItem::ProcessSubstitution(kind, command) = &item {
        assert(item.doc() == kind.doc() + plain("("@) + command.list.doc() + plain(")"@));
        assert(unfolded(item.doc()));
    }
}

} // verus!
